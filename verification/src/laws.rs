//! Laws of the protocol machine: properties of whole runs, proved from
//! `spec_next` alone.
//!
//! A run feeds a sequence of events to the machine and collects the emitted
//! actions.  The laws below pin down the ordering guarantees the protocol
//! gives — the challenge address is announced before any read, the socket is
//! never read twice, an undecodable payload never reaches the solution
//! publication path, the solve outcome never matters, and a verdict line is
//! written exactly when validation reports one.

use vstd::prelude::*;
use crate::config::ConfigV;
use crate::protocol::{
    spec_next, initial_v, stage_rank, challenge_publish_v, ActionV, EventV, Outcome, SessionV,
    Stage,
};
use crate::wire;

verus! {

/// The actions a session emits when fed these events in order, starting
/// from state `s`.
pub open spec fn run_actions(s: SessionV, events: Seq<EventV>) -> Seq<ActionV>
    decreases events.len(),
{
    if events.len() == 0 {
        Seq::empty()
    } else {
        seq![spec_next(s, events[0]).1] + run_actions(
            spec_next(s, events[0]).0,
            events.subrange(1, events.len() as int),
        )
    }
}

/// The state a session reaches when fed these events in order, starting
/// from state `s`.
pub open spec fn run_state(s: SessionV, events: Seq<EventV>) -> SessionV
    decreases events.len(),
{
    if events.len() == 0 {
        s
    } else {
        run_state(spec_next(s, events[0]).0, events.subrange(1, events.len() as int))
    }
}

/// The action writes the challenge-address line (for some address).
pub open spec fn is_challenge_write(a: ActionV) -> bool {
    a matches ActionV::WriteLine(l) && exists|addr: Seq<char>| l == wire::challenge_line_spec(addr)
}

/// The outcome of the solve invocation never influences the transition
/// taken: the session proceeds identically whether the solution's entry
/// function returned cleanly or trapped, and the verdict is determined
/// solely by the validation call.
pub proof fn lemma_solve_outcome_ignored(s: SessionV, ok1: bool, ok2: bool)
    ensures
        spec_next(s, EventV::SolveCompleted(ok1)) == spec_next(s, EventV::SolveCompleted(ok2)),
{
}

/// No transition ever returns to an earlier stage: the protocol advances in
/// strict forward order, with no retry and no re-entry.
pub proof fn lemma_stage_never_retreats(s: SessionV, e: EventV)
    ensures
        stage_rank(spec_next(s, e).0.stage) >= stage_rank(s.stage),
{
}

/// The configuration is fixed for the session's lifetime.
pub proof fn lemma_config_constant(s: SessionV, e: EventV)
    ensures
        spec_next(s, e).0.cfg == s.cfg,
{
}

/// A read of solution bytes is requested exactly on completion of the
/// challenge-address write, and then for at most the configured number of
/// bytes.
pub proof fn lemma_read_request(s: SessionV, e: EventV)
    ensures
        spec_next(s, e).1 is ReadSolution <==> (s.stage is SendingChallengeAddr
            && e is WriteCompleted),
        spec_next(s, e).1 is ReadSolution ==> spec_next(s, e).1 == ActionV::ReadSolution(
            s.cfg.max_solution_bytes,
        ) && spec_next(s, e).0.stage is AwaitSolution,
{
}

/// Whatever the single read returns is handed to deserialization exactly
/// once and unchanged, apart from being cut silently at the cap.
pub proof fn lemma_deserialize_request(s: SessionV, e: EventV)
    ensures
        spec_next(s, e).1 is Deserialize <==> (s.stage is AwaitSolution && e is SolutionArrived),
        s.stage is AwaitSolution ==> (e matches EventV::SolutionArrived(chunk) ==> spec_next(
            s,
            e,
        ).1 == ActionV::Deserialize(wire::frame_spec(chunk, s.cfg.max_solution_bytes as nat))),
{
}

/// One step of address stability: the challenge address is only ever
/// assigned on entering the stage that announces it, the solution address on
/// entering the stage that announces it; from those stages on, neither
/// changes.
pub proof fn lemma_address_assignment(s: SessionV, e: EventV)
    ensures
        stage_rank(s.stage) >= 3 ==> spec_next(s, e).0.challenge_addr == s.challenge_addr,
        stage_rank(s.stage) >= 7 ==> spec_next(s, e).0.solution_addr == s.solution_addr,
{
}

/// An address, once assigned, is never reassigned within the session: from
/// any state that has reached the stage announcing it, every later state of
/// the run carries the same address.
pub proof fn lemma_addresses_never_reassigned(s: SessionV, events: Seq<EventV>)
    ensures
        stage_rank(s.stage) >= 3 ==> run_state(s, events).challenge_addr == s.challenge_addr,
        stage_rank(s.stage) >= 7 ==> run_state(s, events).solution_addr == s.solution_addr,
    decreases events.len(),
{
    if events.len() != 0 {
        let tail = events.subrange(1, events.len() as int);
        let s1 = spec_next(s, events[0]).0;
        lemma_address_assignment(s, events[0]);
        lemma_stage_never_retreats(s, events[0]);
        lemma_addresses_never_reassigned(s1, tail);
    }
}

/// The machine enters the challenge-address-sending stage only by emitting
/// the challenge-address write (or was already there).
proof fn lemma_sending_addr_entry(s: SessionV, e: EventV)
    ensures
        spec_next(s, e).0.stage is SendingChallengeAddr ==> (s.stage is SendingChallengeAddr
            || is_challenge_write(spec_next(s, e).1)),
{
}

/// From any stage past the solution read, no further read is ever requested.
proof fn lemma_no_reads_past_solution(s: SessionV, events: Seq<EventV>)
    requires
        stage_rank(s.stage) >= 4,
    ensures
        forall|k: int|
            0 <= k < run_actions(s, events).len() ==> !((#[trigger] run_actions(s, events)[k])
                is ReadSolution),
    decreases events.len(),
{
    if events.len() != 0 {
        let tail = events.subrange(1, events.len() as int);
        let s1 = spec_next(s, events[0]).0;
        let a0 = spec_next(s, events[0]).1;
        lemma_read_request(s, events[0]);
        lemma_stage_never_retreats(s, events[0]);
        lemma_no_reads_past_solution(s1, tail);
        assert(run_actions(s, events) == seq![a0] + run_actions(s1, tail));
        assert forall|k: int| 0 <= k < run_actions(s, events).len() implies !((
        #[trigger] run_actions(s, events)[k]) is ReadSolution) by {
            if k > 0 {
                assert(run_actions(s, events)[k] == run_actions(s1, tail)[k - 1]);
            }
        }
    }
}

/// The protocol never reads from the socket a second time: any run requests
/// at most one read of solution bytes, so a second payload submitted on the
/// same connection is never consumed.
pub proof fn lemma_solution_read_never_repeated(s: SessionV, events: Seq<EventV>)
    ensures
        forall|i: int, j: int|
            0 <= i < j < run_actions(s, events).len() && (#[trigger] run_actions(s, events)[i])
                is ReadSolution ==> !((#[trigger] run_actions(s, events)[j]) is ReadSolution),
    decreases events.len(),
{
    if events.len() != 0 {
        let tail = events.subrange(1, events.len() as int);
        let s1 = spec_next(s, events[0]).0;
        let a0 = spec_next(s, events[0]).1;
        lemma_read_request(s, events[0]);
        lemma_solution_read_never_repeated(s1, tail);
        if a0 is ReadSolution {
            lemma_no_reads_past_solution(s1, tail);
        }
        assert(run_actions(s, events) == seq![a0] + run_actions(s1, tail));
        assert forall|i: int, j: int|
            0 <= i < j < run_actions(s, events).len() && (#[trigger] run_actions(s, events)[i])
                is ReadSolution implies !((#[trigger] run_actions(s, events)[j])
            is ReadSolution) by {
            assert(run_actions(s, events)[j] == run_actions(s1, tail)[j - 1]);
            if i > 0 {
                assert(run_actions(s, events)[i] == run_actions(s1, tail)[i - 1]);
            }
        }
    }
}

/// In any run, a read of solution bytes is preceded by a write of the
/// challenge-address line, unless the run began in the very stage that
/// awaits that write's completion.
proof fn lemma_read_preceded_by_write_h(s: SessionV, events: Seq<EventV>)
    ensures
        forall|j: int|
            0 <= j < run_actions(s, events).len() && (#[trigger] run_actions(s, events)[j])
                is ReadSolution ==> (s.stage is SendingChallengeAddr || exists|i: int|
                0 <= i < j && is_challenge_write(#[trigger] run_actions(s, events)[i])),
    decreases events.len(),
{
    if events.len() != 0 {
        let tail = events.subrange(1, events.len() as int);
        let s1 = spec_next(s, events[0]).0;
        let a0 = spec_next(s, events[0]).1;
        lemma_read_request(s, events[0]);
        lemma_sending_addr_entry(s, events[0]);
        lemma_read_preceded_by_write_h(s1, tail);
        assert(run_actions(s, events) == seq![a0] + run_actions(s1, tail));
        assert forall|j: int|
            0 <= j < run_actions(s, events).len() && (#[trigger] run_actions(s, events)[j])
                is ReadSolution implies (s.stage is SendingChallengeAddr || exists|i: int|
            0 <= i < j && is_challenge_write(#[trigger] run_actions(s, events)[i])) by {
            if j == 0 {
                assert(run_actions(s, events)[0] == a0);
            } else {
                let rest = run_actions(s1, tail);
                assert(run_actions(s, events)[j] == rest[j - 1]);
                if s1.stage is SendingChallengeAddr {
                    if !(s.stage is SendingChallengeAddr) {
                        assert(is_challenge_write(a0));
                        assert(run_actions(s, events)[0] == a0);
                        assert(0 <= 0 < j && is_challenge_write(run_actions(s, events)[0]));
                    }
                } else {
                    if rest[j - 1] is ReadSolution {
                        let i0 = choose|i: int|
                            0 <= i < j - 1 && is_challenge_write(#[trigger] rest[i]);
                        assert(run_actions(s, events)[i0 + 1] == rest[i0]);
                        assert(0 <= i0 + 1 < j && is_challenge_write(
                            run_actions(s, events)[i0 + 1],
                        ));
                    }
                }
            }
        }
    }
}

/// The challenge address is sent to the peer before any read of solution
/// bytes is attempted: in any run from a fresh session, every read request
/// is preceded by a write of the challenge-address line.
pub proof fn lemma_challenge_address_sent_before_read(cfg: ConfigV, events: Seq<EventV>)
    ensures
        forall|j: int|
            0 <= j < run_actions(initial_v(cfg), events).len() && (#[trigger] run_actions(
                initial_v(cfg),
                events,
            )[j]) is ReadSolution ==> exists|i: int|
                0 <= i < j && is_challenge_write(#[trigger] run_actions(initial_v(cfg), events)[i]),
{
    lemma_read_preceded_by_write_h(initial_v(cfg), events);
}

/// No two distinct wire lines ever coincide, whatever address or secret is
/// spliced in: each fixed part differs from every other within the first
/// eleven characters.
proof fn lemma_wire_lines_pairwise_distinct()
    ensures
        forall|a: Seq<char>| #[trigger] wire::challenge_line_spec(a) != wire::failure_line_spec(),
        forall|a: Seq<char>| #[trigger] wire::challenge_line_spec(a) != wire::misconfig_line_spec(),
        forall|a: Seq<char>| #[trigger] wire::solution_line_spec(a) != wire::failure_line_spec(),
        forall|a: Seq<char>| #[trigger] wire::solution_line_spec(a) != wire::misconfig_line_spec(),
        forall|f: Seq<char>| #[trigger] wire::success_line_spec(f) != wire::failure_line_spec(),
        forall|f: Seq<char>| #[trigger] wire::success_line_spec(f) != wire::misconfig_line_spec(),
        forall|a: Seq<char>, f: Seq<char>|
            #![trigger wire::challenge_line_spec(a), wire::success_line_spec(f)]
            wire::challenge_line_spec(a) != wire::success_line_spec(f),
        forall|a: Seq<char>, f: Seq<char>|
            #![trigger wire::solution_line_spec(a), wire::success_line_spec(f)]
            wire::solution_line_spec(a) != wire::success_line_spec(f),
        wire::failure_line_spec() != wire::misconfig_line_spec(),
{
    reveal_strlit("[SERVER] Challenge modules published at: ");
    reveal_strlit("[SERVER] Solution published at ");
    reveal_strlit("[SERVER] Congrats, flag: ");
    reveal_strlit("[SERVER] Flag not found, please contact admin");
    reveal_strlit("[SERVER] Invalid Solution!");
    assert(wire::failure_line_spec()[9] == 'I');
    assert(wire::misconfig_line_spec()[9] == 'F');
    assert forall|a: Seq<char>| #[trigger] wire::challenge_line_spec(a)
        != wire::failure_line_spec() && wire::challenge_line_spec(a)
        != wire::misconfig_line_spec() by {
        assert(wire::challenge_line_spec(a)[9] == 'C');
    }
    assert forall|a: Seq<char>| #[trigger] wire::solution_line_spec(a) != wire::failure_line_spec()
        && wire::solution_line_spec(a) != wire::misconfig_line_spec() by {
        assert(wire::solution_line_spec(a)[9] == 'S');
    }
    assert forall|f: Seq<char>| #[trigger] wire::success_line_spec(f) != wire::failure_line_spec()
        && wire::success_line_spec(f) != wire::misconfig_line_spec() by {
        assert(wire::success_line_spec(f)[9] == 'C');
    }
    assert forall|a: Seq<char>, f: Seq<char>|
        #![trigger wire::challenge_line_spec(a), wire::success_line_spec(f)]
        wire::challenge_line_spec(a) != wire::success_line_spec(f) by {
        assert(wire::challenge_line_spec(a)[10] == 'h');
        assert(wire::success_line_spec(f)[10] == 'o');
    }
    assert forall|a: Seq<char>, f: Seq<char>|
        #![trigger wire::solution_line_spec(a), wire::success_line_spec(f)]
        wire::solution_line_spec(a) != wire::success_line_spec(f) by {
        assert(wire::solution_line_spec(a)[9] == 'S');
        assert(wire::success_line_spec(f)[9] == 'C');
    }
}

/// The success line determines the secret it discloses.
proof fn lemma_success_line_injective(f1: Seq<char>, f2: Seq<char>)
    ensures
        wire::success_line_spec(f1) == wire::success_line_spec(f2) ==> f1 == f2,
{
    if wire::success_line_spec(f1) == wire::success_line_spec(f2) {
        let p = "[SERVER] Congrats, flag: "@;
        assert(wire::success_line_spec(f1) == p + f1);
        assert(wire::success_line_spec(f2) == p + f2);
        assert(f1.len() == f2.len());
        assert forall|i: int| 0 <= i < f1.len() implies f1[i] == f2[i] by {
            assert((p + f1)[p.len() + i] == f1[i]);
            assert((p + f2)[p.len() + i] == f2[i]);
        }
        assert(f1 =~= f2);
    }
}

/// A verdict line is written exactly at the validation stage, and says
/// exactly what validation reported: the failure line exactly when the
/// validation call reported an error; the misconfiguration line exactly when
/// it returned cleanly with no secret configured; the success line for a
/// secret exactly when it returned cleanly and that secret is the configured
/// one.
pub proof fn lemma_verdict_write_characterized(s: SessionV, e: EventV)
    ensures
        spec_next(s, e).1 == ActionV::WriteLine(wire::failure_line_spec()) <==> (s.stage
            is InvokingValidate && e == EventV::ValidateCompleted(false)),
        spec_next(s, e).1 == ActionV::WriteLine(wire::misconfig_line_spec()) <==> (s.stage
            is InvokingValidate && e == EventV::ValidateCompleted(true) && s.cfg.flag is None),
        forall|f: Seq<char>|
            spec_next(s, e).1 == ActionV::WriteLine(#[trigger] wire::success_line_spec(f)) <==> (
            s.stage is InvokingValidate && e == EventV::ValidateCompleted(true) && s.cfg.flag
                == Some(f)),
{
    lemma_wire_lines_pairwise_distinct();
    assert forall|f: Seq<char>|
        spec_next(s, e).1 == ActionV::WriteLine(#[trigger] wire::success_line_spec(f)) <==> (
        s.stage is InvokingValidate && e == EventV::ValidateCompleted(true) && s.cfg.flag == Some(
            f,
        )) by {
        if spec_next(s, e).1 == ActionV::WriteLine(wire::success_line_spec(f)) {
            if s.stage is InvokingValidate && e == EventV::ValidateCompleted(true)
                && s.cfg.flag is Some {
                lemma_success_line_injective(s.cfg.flag->0, f);
            }
        }
    }
}

/// Every decode report among the events is a failure.
pub open spec fn decode_failure_only(e: EventV) -> bool {
    e matches EventV::SolutionDecoded(ok) ==> !ok
}

/// Every validation report among the events is a clean return.
pub open spec fn validate_pass_only(e: EventV) -> bool {
    e matches EventV::ValidateCompleted(ok) ==> ok
}

/// Any module the action publishes is the challenge's own publication.
pub open spec fn publishes_only_challenge(a: ActionV, cfg: ConfigV) -> bool {
    a matches ActionV::Publish(p) ==> p == challenge_publish_v(cfg)
}

/// Any line the action writes is the challenge-address line.
pub open spec fn write_is_challenge_line(a: ActionV) -> bool {
    a is WriteLine ==> is_challenge_write(a)
}

/// One step of the pre-decode stages: while no decode has succeeded, the
/// machine stays short of the solution publication path and emits only the
/// challenge publication and the challenge-address line.
proof fn lemma_undecodable_step(s: SessionV, e: EventV)
    requires
        !(6 <= stage_rank(s.stage) <= 12),
        decode_failure_only(e),
    ensures
        !(6 <= stage_rank(spec_next(s, e).0.stage) <= 12),
        publishes_only_challenge(spec_next(s, e).1, s.cfg),
        write_is_challenge_line(spec_next(s, e).1),
{
}

/// A payload that does not deserialize never reaches the solution
/// publication path. When every decode event in the run signals failure,
/// the only publication ever requested is the challenge's own and the only
/// line ever written is the challenge-address line — in particular, the
/// success line is never emitted.
pub proof fn lemma_undecodable_solution_never_published(s: SessionV, events: Seq<EventV>)
    requires
        !(6 <= stage_rank(s.stage) <= 12),
        forall|k: int| 0 <= k < events.len() ==> decode_failure_only(#[trigger] events[k]),
    ensures
        forall|k: int|
            0 <= k < run_actions(s, events).len() ==> publishes_only_challenge(
                #[trigger] run_actions(s, events)[k],
                s.cfg,
            ) && write_is_challenge_line(run_actions(s, events)[k]),
    decreases events.len(),
{
    if events.len() != 0 {
        let tail = events.subrange(1, events.len() as int);
        let s1 = spec_next(s, events[0]).0;
        let a0 = spec_next(s, events[0]).1;
        lemma_undecodable_step(s, events[0]);
        lemma_config_constant(s, events[0]);
        assert forall|k: int| 0 <= k < tail.len() implies decode_failure_only(
            #[trigger] tail[k],
        ) by {
            assert(tail[k] == events[k + 1]);
        }
        lemma_undecodable_solution_never_published(s1, tail);
        assert(run_actions(s, events) == seq![a0] + run_actions(s1, tail));
        assert forall|k: int| 0 <= k < run_actions(s, events).len() implies publishes_only_challenge(
            #[trigger] run_actions(s, events)[k],
            s.cfg,
        ) && write_is_challenge_line(run_actions(s, events)[k]) by {
            if k > 0 {
                assert(run_actions(s, events)[k] == run_actions(s1, tail)[k - 1]);
            }
        }
    }
}

/// Any verdict the stage records is the flag disclosure.
pub open spec fn verdict_is_flag_sent(st: Stage) -> bool {
    &&& (st matches Stage::SendingVerdict(o) ==> o == Outcome::FlagSent)
    &&& (st matches Stage::Done(o) ==> o == Outcome::FlagSent)
}

/// One step under a configured secret and a clean validation report: the
/// failure and misconfiguration lines cannot be emitted and any verdict
/// recorded is the flag disclosure.
proof fn lemma_clean_validation_step(s: SessionV, e: EventV)
    requires
        s.cfg.flag is Some,
        validate_pass_only(e),
        verdict_is_flag_sent(s.stage),
    ensures
        verdict_is_flag_sent(spec_next(s, e).0.stage),
        spec_next(s, e).1 != ActionV::WriteLine(wire::failure_line_spec()),
        spec_next(s, e).1 != ActionV::WriteLine(wire::misconfig_line_spec()),
{
    lemma_wire_lines_pairwise_distinct();
}

/// When a secret is configured and every validation report in the run is a
/// clean return, the failure and misconfiguration lines are never written,
/// and any verdict the session records is the flag disclosure.
pub proof fn lemma_clean_validation_never_fails(s: SessionV, events: Seq<EventV>)
    requires
        s.cfg.flag is Some,
        verdict_is_flag_sent(s.stage),
        forall|k: int| 0 <= k < events.len() ==> validate_pass_only(#[trigger] events[k]),
    ensures
        forall|k: int|
            0 <= k < run_actions(s, events).len() ==> (#[trigger] run_actions(s, events)[k])
                != ActionV::WriteLine(wire::failure_line_spec()) && run_actions(s, events)[k]
                != ActionV::WriteLine(wire::misconfig_line_spec()),
        verdict_is_flag_sent(run_state(s, events).stage),
    decreases events.len(),
{
    if events.len() != 0 {
        let tail = events.subrange(1, events.len() as int);
        let s1 = spec_next(s, events[0]).0;
        let a0 = spec_next(s, events[0]).1;
        lemma_clean_validation_step(s, events[0]);
        lemma_config_constant(s, events[0]);
        assert forall|k: int| 0 <= k < tail.len() implies validate_pass_only(
            #[trigger] tail[k],
        ) by {
            assert(tail[k] == events[k + 1]);
        }
        lemma_clean_validation_never_fails(s1, tail);
        assert(run_actions(s, events) == seq![a0] + run_actions(s1, tail));
        assert forall|k: int| 0 <= k < run_actions(s, events).len() implies (
        #[trigger] run_actions(s, events)[k]) != ActionV::WriteLine(wire::failure_line_spec())
            && run_actions(s, events)[k] != ActionV::WriteLine(wire::misconfig_line_spec()) by {
            if k > 0 {
                assert(run_actions(s, events)[k] == run_actions(s1, tail)[k - 1]);
            }
        }
    }
}

/// The action is not a success-line write for any secret.
pub open spec fn never_success_write(a: ActionV) -> bool {
    forall|f: Seq<char>| a != ActionV::WriteLine(#[trigger] wire::success_line_spec(f))
}

/// One step under no configured secret: no success line can be emitted and
/// the flag-sent verdict cannot be recorded.
proof fn lemma_missing_secret_step(s: SessionV, e: EventV)
    requires
        s.cfg.flag is None,
        !(s.stage matches Stage::SendingVerdict(o) && o == Outcome::FlagSent),
        !(s.stage matches Stage::Done(o) && o == Outcome::FlagSent),
    ensures
        never_success_write(spec_next(s, e).1),
        !(spec_next(s, e).0.stage matches Stage::SendingVerdict(o) && o == Outcome::FlagSent),
        !(spec_next(s, e).0.stage matches Stage::Done(o) && o == Outcome::FlagSent),
{
    lemma_wire_lines_pairwise_distinct();
}

/// When no secret is configured, no success line — for any secret — is ever
/// written, and the flag-sent verdict is never reached: a passing validation
/// degrades to the misconfiguration message and nothing more.
pub proof fn lemma_missing_secret_never_disclosed(s: SessionV, events: Seq<EventV>)
    requires
        s.cfg.flag is None,
        !(s.stage matches Stage::SendingVerdict(o) && o == Outcome::FlagSent),
        !(s.stage matches Stage::Done(o) && o == Outcome::FlagSent),
    ensures
        forall|k: int|
            0 <= k < run_actions(s, events).len() ==> never_success_write(
                #[trigger] run_actions(s, events)[k],
            ),
        !(run_state(s, events).stage matches Stage::SendingVerdict(o) && o == Outcome::FlagSent),
        !(run_state(s, events).stage matches Stage::Done(o) && o == Outcome::FlagSent),
    decreases events.len(),
{
    if events.len() != 0 {
        let tail = events.subrange(1, events.len() as int);
        let s1 = spec_next(s, events[0]).0;
        let a0 = spec_next(s, events[0]).1;
        lemma_missing_secret_step(s, events[0]);
        lemma_config_constant(s, events[0]);
        lemma_missing_secret_never_disclosed(s1, tail);
        assert(run_actions(s, events) == seq![a0] + run_actions(s1, tail));
        assert forall|k: int| 0 <= k < run_actions(s, events).len() implies never_success_write(
            #[trigger] run_actions(s, events)[k],
        ) by {
            if k > 0 {
                assert(run_actions(s, events)[k] == run_actions(s1, tail)[k - 1]);
            }
        }
    }
}

} // verus!
