use retetomat::config::{ObjectHandle, SessionConfig};
use retetomat::loader::LoadFailure;
use retetomat::protocol::{AbortReason, Action, Event, Outcome, Session, Stage};

fn fresh(flag: Option<&str>) -> Session {
    Session::new(SessionConfig::standard(flag.map(|f| f.to_string())))
}

/// Drives a fresh session to the point where validation has been invoked:
/// challenge published at `0x2a`, solution (decoding cleanly) at `0x2b`.
fn drive_to_validation(session: &mut Session, solve_ok: bool) -> Vec<Action> {
    let script = vec![
        Event::BackendInitialized,
        Event::ChallengeLoaded,
        Event::PublishSucceeded("0x2a".to_string()),
        Event::WriteCompleted,
        Event::SolutionArrived(vec![1u8, 2, 3]),
        Event::SolutionDecoded(true),
        Event::PublishSucceeded("0x2b".to_string()),
        Event::WriteCompleted,
        Event::SolveCompleted(solve_ok),
        Event::Inspected,
    ];
    let mut actions = Vec::new();
    for event in script {
        actions.push(session.step(event));
    }
    actions
}

#[test]
fn fresh_session_awaits_backend_with_its_configuration() {
    let session = fresh(Some("FLAG{sample}"));
    assert_eq!(session.current_stage(), Stage::AwaitBackend);
    assert_eq!(session.config().port, 31338);
    assert_eq!(session.config().max_solution_bytes, 2000);
    assert_eq!(session.config().flag.as_deref(), Some("FLAG{sample}"));
}

#[test]
fn happy_path_discloses_flag() {
    let mut session = fresh(Some("FLAG{sample}"));
    let actions = drive_to_validation(&mut session, true);

    match &actions[0] {
        Action::LoadChallenge => {}
        other => panic!("expected LoadChallenge, got {:?}", other),
    }
    match &actions[1] {
        Action::Publish(req) => {
            assert_eq!(req.named_address.as_deref(), Some("challenge"));
            assert!(req.dependencies.is_empty());
            assert_eq!(req.identity, "challenger");
        }
        other => panic!("expected Publish, got {:?}", other),
    }
    match &actions[2] {
        Action::WriteLine(line) => {
            assert_eq!(line, "[SERVER] Challenge modules published at: 0x2a");
        }
        other => panic!("expected WriteLine, got {:?}", other),
    }
    match &actions[3] {
        Action::ReadSolution(cap) => assert_eq!(*cap, 2000),
        other => panic!("expected ReadSolution, got {:?}", other),
    }
    match &actions[4] {
        Action::Deserialize(bytes) => assert_eq!(bytes, &vec![1u8, 2, 3]),
        other => panic!("expected Deserialize, got {:?}", other),
    }
    match &actions[5] {
        Action::Publish(req) => {
            assert_eq!(req.named_address.as_deref(), Some("solution"));
            assert_eq!(req.dependencies, vec!["challenge".to_string()]);
            assert_eq!(req.identity, "solver");
        }
        other => panic!("expected Publish, got {:?}", other),
    }
    match &actions[6] {
        Action::WriteLine(line) => assert_eq!(line, "[SERVER] Solution published at 0x2b"),
        other => panic!("expected WriteLine, got {:?}", other),
    }
    match &actions[7] {
        Action::Invoke(call) => {
            assert_eq!(call.target, "0x2b");
            assert_eq!(call.module, "versionC");
            assert_eq!(call.function, "solve");
            assert_eq!(call.args, vec![ObjectHandle { index: 1, seq: 0 }]);
            assert!(call.type_args.is_empty());
            assert_eq!(call.identity, "solver");
        }
        other => panic!("expected Invoke, got {:?}", other),
    }
    match &actions[8] {
        Action::Inspect(handle) => assert_eq!(*handle, ObjectHandle { index: 3, seq: 0 }),
        other => panic!("expected Inspect, got {:?}", other),
    }
    match &actions[9] {
        Action::Invoke(call) => {
            assert_eq!(call.target, "0x2a");
            assert_eq!(call.module, "version4");
            assert_eq!(call.function, "is_expensive");
            assert_eq!(call.args, vec![ObjectHandle { index: 3, seq: 0 }]);
            assert!(call.type_args.is_empty());
            assert_eq!(call.identity, "solver");
        }
        other => panic!("expected Invoke, got {:?}", other),
    }

    let verdict = session.step(Event::ValidateCompleted(true));
    match verdict {
        Action::WriteLine(line) => assert_eq!(line, "[SERVER] Congrats, flag: FLAG{sample}"),
        other => panic!("expected WriteLine, got {:?}", other),
    }
    assert_eq!(session.current_stage(), Stage::SendingVerdict(Outcome::FlagSent));
    let last = session.step(Event::WriteCompleted);
    assert!(matches!(last, Action::Close));
    assert_eq!(session.current_stage(), Stage::Done(Outcome::FlagSent));
}

#[test]
fn failed_validation_writes_failure_line() {
    let mut session = fresh(Some("FLAG{sample}"));
    drive_to_validation(&mut session, true);
    let verdict = session.step(Event::ValidateCompleted(false));
    match verdict {
        Action::WriteLine(line) => assert_eq!(line, "[SERVER] Invalid Solution!"),
        other => panic!("expected WriteLine, got {:?}", other),
    }
    assert_eq!(session.current_stage(), Stage::SendingVerdict(Outcome::InvalidSolution));
    session.step(Event::WriteCompleted);
    assert_eq!(session.current_stage(), Stage::Done(Outcome::InvalidSolution));
}

#[test]
fn missing_flag_degrades_to_misconfig_message() {
    let mut session = fresh(None);
    drive_to_validation(&mut session, true);
    let verdict = session.step(Event::ValidateCompleted(true));
    match verdict {
        Action::WriteLine(line) => {
            assert_eq!(line, "[SERVER] Flag not found, please contact admin");
        }
        other => panic!("expected WriteLine, got {:?}", other),
    }
    session.step(Event::WriteCompleted);
    assert_eq!(session.current_stage(), Stage::Done(Outcome::Misconfigured));
}

#[test]
fn undecodable_payload_aborts_before_publication() {
    let mut session = fresh(Some("FLAG{sample}"));
    session.step(Event::BackendInitialized);
    session.step(Event::ChallengeLoaded);
    session.step(Event::PublishSucceeded("0x2a".to_string()));
    session.step(Event::WriteCompleted);
    session.step(Event::SolutionArrived(vec![0xde, 0xad, 0xbe, 0xef]));
    let action = session.step(Event::SolutionDecoded(false));
    assert!(matches!(action, Action::Close));
    assert_eq!(session.current_stage(), Stage::Aborted(AbortReason::DeserializeError));
}

#[test]
fn solve_trap_still_reaches_validation() {
    let mut trapped = fresh(Some("FLAG{sample}"));
    let mut clean = fresh(Some("FLAG{sample}"));
    let actions_trapped = drive_to_validation(&mut trapped, false);
    let actions_clean = drive_to_validation(&mut clean, true);
    assert_eq!(trapped.current_stage(), Stage::InvokingValidate);
    assert_eq!(clean.current_stage(), Stage::InvokingValidate);
    assert_eq!(format!("{:?}", actions_trapped), format!("{:?}", actions_clean));
    let verdict = trapped.step(Event::ValidateCompleted(true));
    match verdict {
        Action::WriteLine(line) => assert_eq!(line, "[SERVER] Congrats, flag: FLAG{sample}"),
        other => panic!("expected WriteLine, got {:?}", other),
    }
}

#[test]
fn challenge_publish_failure_is_fatal() {
    let mut session = fresh(Some("FLAG{sample}"));
    session.step(Event::BackendInitialized);
    session.step(Event::ChallengeLoaded);
    let action = session.step(Event::PublishFailed);
    assert!(matches!(action, Action::Close));
    assert_eq!(session.current_stage(), Stage::Aborted(AbortReason::PublishError));
}

#[test]
fn solution_publish_failure_is_fatal() {
    let mut session = fresh(Some("FLAG{sample}"));
    session.step(Event::BackendInitialized);
    session.step(Event::ChallengeLoaded);
    session.step(Event::PublishSucceeded("0x2a".to_string()));
    session.step(Event::WriteCompleted);
    session.step(Event::SolutionArrived(vec![1u8]));
    session.step(Event::SolutionDecoded(true));
    let action = session.step(Event::PublishFailed);
    assert!(matches!(action, Action::Close));
    assert_eq!(session.current_stage(), Stage::Aborted(AbortReason::PublishError));
}

#[test]
fn write_failure_is_fatal() {
    let mut session = fresh(Some("FLAG{sample}"));
    session.step(Event::BackendInitialized);
    session.step(Event::ChallengeLoaded);
    session.step(Event::PublishSucceeded("0x2a".to_string()));
    let action = session.step(Event::WriteFailed);
    assert!(matches!(action, Action::Close));
    assert_eq!(session.current_stage(), Stage::Aborted(AbortReason::IoError));
}

#[test]
fn read_failure_is_fatal() {
    let mut session = fresh(Some("FLAG{sample}"));
    session.step(Event::BackendInitialized);
    session.step(Event::ChallengeLoaded);
    session.step(Event::PublishSucceeded("0x2a".to_string()));
    session.step(Event::WriteCompleted);
    let action = session.step(Event::ReadFailed);
    assert!(matches!(action, Action::Close));
    assert_eq!(session.current_stage(), Stage::Aborted(AbortReason::IoError));
}

#[test]
fn missing_bytecode_aborts_with_nothing_written() {
    let mut session = fresh(Some("FLAG{sample}"));
    let mut actions = Vec::new();
    actions.push(session.step(Event::BackendInitialized));
    actions.push(session.step(Event::ChallengeLoadFailed(LoadFailure::Bytecode)));
    assert!(matches!(actions[1], Action::Close));
    assert_eq!(session.current_stage(), Stage::Aborted(AbortReason::LoadError));
    assert!(actions.iter().all(|a| !matches!(a, Action::WriteLine(_))));
}

#[test]
fn missing_source_map_aborts_as_metadata_error() {
    let mut session = fresh(Some("FLAG{sample}"));
    session.step(Event::BackendInitialized);
    let action = session.step(Event::ChallengeLoadFailed(LoadFailure::Metadata));
    assert!(matches!(action, Action::Close));
    assert_eq!(session.current_stage(), Stage::Aborted(AbortReason::MetadataError));
}

#[test]
fn challenge_address_sent_before_any_read() {
    let mut session = fresh(Some("FLAG{sample}"));
    let actions = drive_to_validation(&mut session, true);
    let write_at = actions
        .iter()
        .position(|a| {
            matches!(a, Action::WriteLine(l) if l.starts_with("[SERVER] Challenge modules published at: "))
        })
        .expect("challenge address line missing");
    let read_at = actions
        .iter()
        .position(|a| matches!(a, Action::ReadSolution(_)))
        .expect("read request missing");
    assert!(write_at < read_at);
}

#[test]
fn socket_is_never_read_twice() {
    let mut session = fresh(Some("FLAG{sample}"));
    let mut actions = drive_to_validation(&mut session, true);
    actions.push(session.step(Event::ValidateCompleted(true)));
    actions.push(session.step(Event::WriteCompleted));
    let reads = actions.iter().filter(|a| matches!(a, Action::ReadSolution(_))).count();
    assert_eq!(reads, 1);
}

#[test]
fn second_payload_on_same_connection_has_no_effect() {
    let mut session = fresh(Some("FLAG{sample}"));
    session.step(Event::BackendInitialized);
    session.step(Event::ChallengeLoaded);
    session.step(Event::PublishSucceeded("0x2a".to_string()));
    session.step(Event::WriteCompleted);
    session.step(Event::SolutionArrived(vec![1u8, 2, 3]));
    let stage_before = session.current_stage();
    let action = session.step(Event::SolutionArrived(vec![4u8, 5, 6]));
    assert!(matches!(action, Action::Close));
    assert_eq!(session.current_stage(), stage_before);
}

#[test]
fn terminal_stage_answers_every_event_with_close() {
    let mut session = fresh(Some("FLAG{sample}"));
    session.step(Event::BackendInitialized);
    session.step(Event::ChallengeLoadFailed(LoadFailure::Bytecode));
    let action = session.step(Event::SolutionArrived(vec![1u8]));
    assert!(matches!(action, Action::Close));
    assert_eq!(session.current_stage(), Stage::Aborted(AbortReason::LoadError));
    let action = session.step(Event::WriteCompleted);
    assert!(matches!(action, Action::Close));
    assert_eq!(session.current_stage(), Stage::Aborted(AbortReason::LoadError));
}

#[test]
fn oversized_payload_is_silently_truncated_at_the_cap() {
    let mut session = fresh(Some("FLAG{sample}"));
    session.step(Event::BackendInitialized);
    session.step(Event::ChallengeLoaded);
    session.step(Event::PublishSucceeded("0x2a".to_string()));
    session.step(Event::WriteCompleted);
    let action = session.step(Event::SolutionArrived(vec![7u8; 2500]));
    match action {
        Action::Deserialize(bytes) => {
            assert_eq!(bytes.len(), 2000);
            assert!(bytes.iter().all(|b| *b == 7));
        }
        other => panic!("expected Deserialize, got {:?}", other),
    }
}

#[test]
fn exact_cap_payload_is_taken_unchanged() {
    let mut session = fresh(Some("FLAG{sample}"));
    session.step(Event::BackendInitialized);
    session.step(Event::ChallengeLoaded);
    session.step(Event::PublishSucceeded("0x2a".to_string()));
    session.step(Event::WriteCompleted);
    let payload: Vec<u8> = (0..2000u32).map(|i| (i % 251) as u8).collect();
    let action = session.step(Event::SolutionArrived(payload.clone()));
    match action {
        Action::Deserialize(bytes) => assert_eq!(bytes, payload),
        other => panic!("expected Deserialize, got {:?}", other),
    }
}

#[test]
fn empty_read_is_passed_through_to_deserialization() {
    let mut session = fresh(Some("FLAG{sample}"));
    session.step(Event::BackendInitialized);
    session.step(Event::ChallengeLoaded);
    session.step(Event::PublishSucceeded("0x2a".to_string()));
    session.step(Event::WriteCompleted);
    let action = session.step(Event::SolutionArrived(Vec::new()));
    match action {
        Action::Deserialize(bytes) => assert!(bytes.is_empty()),
        other => panic!("expected Deserialize, got {:?}", other),
    }
    assert_eq!(session.current_stage(), Stage::DecodingSolution);
}
