//! The connection-scoped protocol state machine.
//!
//! One `Session` exists per accepted connection.  The machine owns every
//! decision of the protocol — the strict forward order of the stages, the
//! framing handed to deserialization, the requests handed to the execution
//! backend, the exact lines written to the peer, and the failure policy — and
//! expresses each as a transition from the current stage and an incoming
//! event to the next stage and the single action the surrounding program must
//! perform next.  `spec_next` is the machine's full mathematical definition;
//! `Session::step` is proved to implement it exactly.

use vstd::prelude::*;
use vstd::pervasive::unreached;
use crate::config::{ConfigV, ObjectHandle, SessionConfig};
use crate::loader::LoadFailure;
use crate::wire;

verus! {

/// Why a session was abandoned before a verdict could be delivered.  Every
/// abort ends only the current session; nothing is retried.
#[derive(Clone, Copy, PartialEq, Eq, Structural, Debug)]
pub enum AbortReason {
    /// The challenge bytecode was missing, unreadable or structurally invalid.
    LoadError,
    /// The challenge's source-map file was missing or malformed.
    MetadataError,
    /// The backend rejected a module at publication.
    PublishError,
    /// The peer's payload was not a structurally valid module.
    DeserializeError,
    /// A socket read or write failed.
    IoError,
}

/// The verdict delivered at the end of a completed session.
#[derive(Clone, Copy, PartialEq, Eq, Structural, Debug)]
pub enum Outcome {
    /// Validation passed and the configured secret was written to the peer.
    FlagSent,
    /// Validation passed but no secret is configured; the peer was told so.
    Misconfigured,
    /// Validation failed; the peer received the failure line.
    InvalidSolution,
}

/// The protocol stage, advancing in strict forward order with no loops and
/// no re-entry.  The two final variants are terminal.
#[derive(Clone, Copy, PartialEq, Eq, Structural, Debug)]
pub enum Stage {
    /// Waiting for the fresh execution backend instance.
    AwaitBackend,
    /// Waiting for the challenge module descriptor from local storage.
    AwaitChallenge,
    /// Waiting for the backend's answer to the challenge publication.
    PublishingChallenge,
    /// Waiting for the challenge address line to reach the peer.
    SendingChallengeAddr,
    /// Waiting for the single bounded read of the solution payload.
    AwaitSolution,
    /// Waiting for the structural deserialization of the framed payload.
    DecodingSolution,
    /// Waiting for the backend's answer to the solution publication.
    PublishingSolution,
    /// Waiting for the solution address line to reach the peer.
    SendingSolutionAddr,
    /// Waiting for the solution's entry function to finish running.
    InvokingSolve,
    /// Waiting for the diagnostic inspection of the administrative object.
    Inspecting,
    /// Waiting for the challenge's validation entry to finish running.
    InvokingValidate,
    /// Waiting for the verdict line to reach the peer.
    SendingVerdict(Outcome),
    /// The session ran to completion and delivered this verdict.
    Done(Outcome),
    /// The session was abandoned for this reason.
    Aborted(AbortReason),
}

/// Position of a stage in the strict forward order.  Transitions never
/// decrease it.
pub open spec fn stage_rank(st: Stage) -> int {
    match st {
        Stage::AwaitBackend => 0,
        Stage::AwaitChallenge => 1,
        Stage::PublishingChallenge => 2,
        Stage::SendingChallengeAddr => 3,
        Stage::AwaitSolution => 4,
        Stage::DecodingSolution => 5,
        Stage::PublishingSolution => 6,
        Stage::SendingSolutionAddr => 7,
        Stage::InvokingSolve => 8,
        Stage::Inspecting => 9,
        Stage::InvokingValidate => 10,
        Stage::SendingVerdict(_) => 11,
        Stage::Done(_) => 12,
        Stage::Aborted(_) => 13,
    }
}

/// What the surrounding program reports back after performing the machine's
/// previous action (the first event reports the backend's creation).
pub enum Event {
    /// A fresh execution backend instance exists.
    BackendInitialized,
    /// The challenge descriptor was materialized from local storage.
    ChallengeLoaded,
    /// Materializing the challenge descriptor failed.
    ChallengeLoadFailed(LoadFailure),
    /// The backend accepted the publication and assigned this address.
    PublishSucceeded(String),
    /// The backend rejected the publication.
    PublishFailed,
    /// The previous line reached the peer.
    WriteCompleted,
    /// Writing the previous line failed; the peer is gone.
    WriteFailed,
    /// The single bounded read returned these bytes.
    SolutionArrived(Vec<u8>),
    /// The single bounded read failed.
    ReadFailed,
    /// Whether the framed payload deserialized into a valid module.
    SolutionDecoded(bool),
    /// The diagnostic inspection finished (its content never matters).
    Inspected,
    /// Whether the solution's entry function returned cleanly.
    SolveCompleted(bool),
    /// Whether the validation entry function returned cleanly.
    ValidateCompleted(bool),
}

/// Mathematical image of an `Event`.
#[verifier::ext_equal]
pub ghost enum EventV {
    BackendInitialized,
    ChallengeLoaded,
    ChallengeLoadFailed(LoadFailure),
    PublishSucceeded(Seq<char>),
    PublishFailed,
    WriteCompleted,
    WriteFailed,
    SolutionArrived(Seq<u8>),
    ReadFailed,
    SolutionDecoded(bool),
    Inspected,
    SolveCompleted(bool),
    ValidateCompleted(bool),
}

impl View for Event {
    type V = EventV;

    open spec fn view(&self) -> EventV {
        match self {
            Event::BackendInitialized => EventV::BackendInitialized,
            Event::ChallengeLoaded => EventV::ChallengeLoaded,
            Event::ChallengeLoadFailed(f) => EventV::ChallengeLoadFailed(*f),
            Event::PublishSucceeded(addr) => EventV::PublishSucceeded(addr@),
            Event::PublishFailed => EventV::PublishFailed,
            Event::WriteCompleted => EventV::WriteCompleted,
            Event::WriteFailed => EventV::WriteFailed,
            Event::SolutionArrived(chunk) => EventV::SolutionArrived(chunk@),
            Event::ReadFailed => EventV::ReadFailed,
            Event::SolutionDecoded(ok) => EventV::SolutionDecoded(*ok),
            Event::Inspected => EventV::Inspected,
            Event::SolveCompleted(ok) => EventV::SolveCompleted(*ok),
            Event::ValidateCompleted(ok) => EventV::ValidateCompleted(*ok),
        }
    }
}

/// A module-publication request: the named address binding the module is
/// published under, the logical names of the already-published modules it
/// depends on, and the acting identity.
#[derive(Debug)]
pub struct PublishRequest {
    pub named_address: Option<String>,
    pub dependencies: Vec<String>,
    pub identity: String,
}

/// Mathematical image of a `PublishRequest`.
#[verifier::ext_equal]
pub ghost struct PublishRequestV {
    pub named_address: Option<Seq<char>>,
    pub dependencies: Seq<Seq<char>>,
    pub identity: Seq<char>,
}

impl View for PublishRequest {
    type V = PublishRequestV;

    open spec fn view(&self) -> PublishRequestV {
        PublishRequestV {
            named_address: self.named_address.deep_view(),
            dependencies: self.dependencies.deep_view(),
            identity: self.identity@,
        }
    }
}

/// A function-call request: target address, module and function names, the
/// ordered object arguments, the ordered type arguments, and the acting
/// identity.  Constructed fresh for each invocation.
#[derive(Debug)]
pub struct CallRequest {
    pub target: String,
    pub module: String,
    pub function: String,
    pub args: Vec<ObjectHandle>,
    pub type_args: Vec<String>,
    pub identity: String,
}

/// Mathematical image of a `CallRequest`.
#[verifier::ext_equal]
pub ghost struct CallRequestV {
    pub target: Seq<char>,
    pub module: Seq<char>,
    pub function: Seq<char>,
    pub args: Seq<ObjectHandle>,
    pub type_args: Seq<Seq<char>>,
    pub identity: Seq<char>,
}

impl View for CallRequest {
    type V = CallRequestV;

    open spec fn view(&self) -> CallRequestV {
        CallRequestV {
            target: self.target@,
            module: self.module@,
            function: self.function@,
            args: self.args@,
            type_args: self.type_args.deep_view(),
            identity: self.identity@,
        }
    }
}

/// The single piece of outside work the surrounding program must perform
/// next, or `Close` when the session is over (or an event arrived that the
/// current stage does not expect, which changes nothing).
#[derive(Debug)]
pub enum Action {
    /// Materialize the challenge descriptor from local storage.
    LoadChallenge,
    /// Submit the pending module to the backend for publication.
    Publish(PublishRequest),
    /// Write this line to the peer.
    WriteLine(String),
    /// Perform the single bounded read of at most this many bytes.
    ReadSolution(usize),
    /// Structurally deserialize exactly these framed bytes.
    Deserialize(Vec<u8>),
    /// Invoke this function through the backend.
    Invoke(CallRequest),
    /// Inspect this object for observability; the result never matters.
    Inspect(ObjectHandle),
    /// Release the connection and the backend instance.
    Close,
}

/// Mathematical image of an `Action`.
#[verifier::ext_equal]
pub ghost enum ActionV {
    LoadChallenge,
    Publish(PublishRequestV),
    WriteLine(Seq<char>),
    ReadSolution(usize),
    Deserialize(Seq<u8>),
    Invoke(CallRequestV),
    Inspect(ObjectHandle),
    Close,
}

impl View for Action {
    type V = ActionV;

    open spec fn view(&self) -> ActionV {
        match self {
            Action::LoadChallenge => ActionV::LoadChallenge,
            Action::Publish(r) => ActionV::Publish(r@),
            Action::WriteLine(l) => ActionV::WriteLine(l@),
            Action::ReadSolution(cap) => ActionV::ReadSolution(*cap),
            Action::Deserialize(b) => ActionV::Deserialize(b@),
            Action::Invoke(c) => ActionV::Invoke(c@),
            Action::Inspect(h) => ActionV::Inspect(*h),
            Action::Close => ActionV::Close,
        }
    }
}

/// Mathematical image of a `Session`.
#[verifier::ext_equal]
pub ghost struct SessionV {
    pub cfg: ConfigV,
    pub stage: Stage,
    pub challenge_addr: Option<Seq<char>>,
    pub solution_addr: Option<Seq<char>>,
}

/// A fresh session: nothing published, nothing read, nothing written.
pub open spec fn initial_v(cfg: ConfigV) -> SessionV {
    SessionV { cfg: cfg, stage: Stage::AwaitBackend, challenge_addr: None, solution_addr: None }
}

/// The addresses a stage relies on have been assigned by the time it is
/// reached, and an assigned address is never reassigned within the session.
pub open spec fn wf_v(s: SessionV) -> bool {
    &&& (3 <= stage_rank(s.stage) <= 10 ==> s.challenge_addr is Some)
    &&& (7 <= stage_rank(s.stage) <= 10 ==> s.solution_addr is Some)
}

pub open spec fn with_stage(s: SessionV, st: Stage) -> SessionV {
    SessionV { stage: st, ..s }
}

/// An abort: the stage records the reason, the connection is released, and
/// nothing further is ever written.
pub open spec fn abort_v(s: SessionV, r: AbortReason) -> (SessionV, ActionV) {
    (with_stage(s, Stage::Aborted(r)), ActionV::Close)
}

/// Which abort each loader failure produces.
pub open spec fn load_abort_reason(f: LoadFailure) -> AbortReason {
    match f {
        LoadFailure::Bytecode => AbortReason::LoadError,
        LoadFailure::Metadata => AbortReason::MetadataError,
    }
}

/// The challenge publication request: its own named address binding, no
/// dependencies, published under the challenger identity.
pub open spec fn challenge_publish_v(cfg: ConfigV) -> PublishRequestV {
    PublishRequestV {
        named_address: Some(cfg.challenge_name),
        dependencies: Seq::empty(),
        identity: cfg.challenger,
    }
}

/// The solution publication request: the solution's named address binding, a
/// declared dependency on the already-published challenge (by logical name,
/// not address), published under the solver identity.
pub open spec fn solution_publish_v(cfg: ConfigV) -> PublishRequestV {
    PublishRequestV {
        named_address: Some(cfg.solution_name),
        dependencies: seq![cfg.challenge_name],
        identity: cfg.solver,
    }
}

/// The solve invocation: the solution's address, the expected module and
/// entry names, a single reference to the well-known object, no type
/// arguments, acting as the solver.
pub open spec fn solve_call_v(cfg: ConfigV, target: Seq<char>) -> CallRequestV {
    CallRequestV {
        target: target,
        module: cfg.solve_module,
        function: cfg.solve_function,
        args: seq![cfg.solve_object],
        type_args: Seq::empty(),
        identity: cfg.solver,
    }
}

/// The validation invocation: the challenge's address, its module name and
/// validation entry, a single reference to the administrative object, no
/// type arguments, acting as the solver.
pub open spec fn validate_call_v(cfg: ConfigV, target: Seq<char>) -> CallRequestV {
    CallRequestV {
        target: target,
        module: cfg.challenge_module,
        function: cfg.validate_function,
        args: seq![cfg.admin_object],
        type_args: Seq::empty(),
        identity: cfg.solver,
    }
}

/// The machine itself: from the current session and one event to the next
/// session and the single action the surrounding program performs next.
///
/// An event the current stage does not expect changes nothing and asks for
/// `Close`; a terminal stage answers every event that way.  No transition
/// ever returns to an earlier stage, and the solve outcome never influences
/// the transition taken.
pub open spec fn spec_next(s: SessionV, e: EventV) -> (SessionV, ActionV) {
    match (s.stage, e) {
        (Stage::AwaitBackend, EventV::BackendInitialized) => (
            with_stage(s, Stage::AwaitChallenge),
            ActionV::LoadChallenge,
        ),
        (Stage::AwaitChallenge, EventV::ChallengeLoaded) => (
            with_stage(s, Stage::PublishingChallenge),
            ActionV::Publish(challenge_publish_v(s.cfg)),
        ),
        (Stage::AwaitChallenge, EventV::ChallengeLoadFailed(f)) => abort_v(
            s,
            load_abort_reason(f),
        ),
        (Stage::PublishingChallenge, EventV::PublishSucceeded(addr)) => (
            SessionV { stage: Stage::SendingChallengeAddr, challenge_addr: Some(addr), ..s },
            ActionV::WriteLine(wire::challenge_line_spec(addr)),
        ),
        (Stage::PublishingChallenge, EventV::PublishFailed) => abort_v(
            s,
            AbortReason::PublishError,
        ),
        (Stage::SendingChallengeAddr, EventV::WriteCompleted) => (
            with_stage(s, Stage::AwaitSolution),
            ActionV::ReadSolution(s.cfg.max_solution_bytes),
        ),
        (Stage::SendingChallengeAddr, EventV::WriteFailed) => abort_v(s, AbortReason::IoError),
        (Stage::AwaitSolution, EventV::SolutionArrived(chunk)) => (
            with_stage(s, Stage::DecodingSolution),
            ActionV::Deserialize(wire::frame_spec(chunk, s.cfg.max_solution_bytes as nat)),
        ),
        (Stage::AwaitSolution, EventV::ReadFailed) => abort_v(s, AbortReason::IoError),
        (Stage::DecodingSolution, EventV::SolutionDecoded(ok)) => if ok {
            (
                with_stage(s, Stage::PublishingSolution),
                ActionV::Publish(solution_publish_v(s.cfg)),
            )
        } else {
            abort_v(s, AbortReason::DeserializeError)
        },
        (Stage::PublishingSolution, EventV::PublishSucceeded(addr)) => (
            SessionV { stage: Stage::SendingSolutionAddr, solution_addr: Some(addr), ..s },
            ActionV::WriteLine(wire::solution_line_spec(addr)),
        ),
        (Stage::PublishingSolution, EventV::PublishFailed) => abort_v(s, AbortReason::PublishError),
        (Stage::SendingSolutionAddr, EventV::WriteCompleted) => (
            with_stage(s, Stage::InvokingSolve),
            ActionV::Invoke(solve_call_v(s.cfg, s.solution_addr->0)),
        ),
        (Stage::SendingSolutionAddr, EventV::WriteFailed) => abort_v(s, AbortReason::IoError),
        (Stage::InvokingSolve, EventV::SolveCompleted(_)) => (
            with_stage(s, Stage::Inspecting),
            ActionV::Inspect(s.cfg.admin_object),
        ),
        (Stage::Inspecting, EventV::Inspected) => (
            with_stage(s, Stage::InvokingValidate),
            ActionV::Invoke(validate_call_v(s.cfg, s.challenge_addr->0)),
        ),
        (Stage::InvokingValidate, EventV::ValidateCompleted(pass)) => if pass {
            match s.cfg.flag {
                Some(f) => (
                    with_stage(s, Stage::SendingVerdict(Outcome::FlagSent)),
                    ActionV::WriteLine(wire::success_line_spec(f)),
                ),
                None => (
                    with_stage(s, Stage::SendingVerdict(Outcome::Misconfigured)),
                    ActionV::WriteLine(wire::misconfig_line_spec()),
                ),
            }
        } else {
            (
                with_stage(s, Stage::SendingVerdict(Outcome::InvalidSolution)),
                ActionV::WriteLine(wire::failure_line_spec()),
            )
        },
        (Stage::SendingVerdict(o), EventV::WriteCompleted) => (
            with_stage(s, Stage::Done(o)),
            ActionV::Close,
        ),
        (Stage::SendingVerdict(_), EventV::WriteFailed) => abort_v(s, AbortReason::IoError),
        _ => (s, ActionV::Close),
    }
}

/// One session: the protocol stage and the addresses assigned so far, over a
/// fixed configuration.  The open byte stream and the backend instance it
/// speaks of belong to the surrounding program.
pub struct Session {
    pub cfg: SessionConfig,
    pub stage: Stage,
    pub challenge_addr: Option<String>,
    pub solution_addr: Option<String>,
}

impl View for Session {
    type V = SessionV;

    open spec fn view(&self) -> SessionV {
        SessionV {
            cfg: self.cfg@,
            stage: self.stage,
            challenge_addr: self.challenge_addr.deep_view(),
            solution_addr: self.solution_addr.deep_view(),
        }
    }
}

impl Session {
    pub open spec fn wf(&self) -> bool {
        wf_v(self@)
    }

    /// A fresh session over the given configuration.
    pub fn new(cfg: SessionConfig) -> (s: Session)
        ensures
            s@ == initial_v(cfg@),
            s.wf(),
    {
        Session { cfg: cfg, stage: Stage::AwaitBackend, challenge_addr: None, solution_addr: None }
    }

    /// The current protocol stage.
    pub fn current_stage(&self) -> (st: Stage)
        ensures
            st == self@.stage,
    {
        self.stage
    }

    /// The session's configuration.
    pub fn config(&self) -> (c: &SessionConfig)
        ensures
            c@ == self@.cfg,
    {
        &self.cfg
    }

    /// Advances the machine by one event and returns the action to perform
    /// next: exactly the transition `spec_next` defines.
    pub fn step(&mut self, event: Event) -> (a: Action)
        requires
            old(self).wf(),
        ensures
            final(self).wf(),
            final(self)@ == spec_next(old(self)@, event@).0,
            a@ == spec_next(old(self)@, event@).1,
    {
        match (self.stage, event) {
            (Stage::AwaitBackend, Event::BackendInitialized) => {
                self.stage = Stage::AwaitChallenge;
                Action::LoadChallenge
            },
            (Stage::AwaitChallenge, Event::ChallengeLoaded) => {
                self.stage = Stage::PublishingChallenge;
                let req = PublishRequest {
                    named_address: Some(self.cfg.challenge_name.clone()),
                    dependencies: Vec::new(),
                    identity: self.cfg.challenger.clone(),
                };
                proof {
                    assert(req@ =~= challenge_publish_v(old(self)@.cfg));
                }
                Action::Publish(req)
            },
            (Stage::AwaitChallenge, Event::ChallengeLoadFailed(f)) => {
                self.stage = Stage::Aborted(
                    match f {
                        LoadFailure::Bytecode => AbortReason::LoadError,
                        LoadFailure::Metadata => AbortReason::MetadataError,
                    },
                );
                Action::Close
            },
            (Stage::PublishingChallenge, Event::PublishSucceeded(addr)) => {
                let line = wire::challenge_line(addr.as_str());
                self.challenge_addr = Some(addr);
                self.stage = Stage::SendingChallengeAddr;
                Action::WriteLine(line)
            },
            (Stage::PublishingChallenge, Event::PublishFailed) => {
                self.stage = Stage::Aborted(AbortReason::PublishError);
                Action::Close
            },
            (Stage::SendingChallengeAddr, Event::WriteCompleted) => {
                self.stage = Stage::AwaitSolution;
                Action::ReadSolution(self.cfg.max_solution_bytes)
            },
            (Stage::SendingChallengeAddr, Event::WriteFailed) => {
                self.stage = Stage::Aborted(AbortReason::IoError);
                Action::Close
            },
            (Stage::AwaitSolution, Event::SolutionArrived(chunk)) => {
                let framed = wire::frame_solution(&chunk, self.cfg.max_solution_bytes);
                self.stage = Stage::DecodingSolution;
                Action::Deserialize(framed)
            },
            (Stage::AwaitSolution, Event::ReadFailed) => {
                self.stage = Stage::Aborted(AbortReason::IoError);
                Action::Close
            },
            (Stage::DecodingSolution, Event::SolutionDecoded(ok)) => {
                if ok {
                    self.stage = Stage::PublishingSolution;
                    let mut deps: Vec<String> = Vec::new();
                    deps.push(self.cfg.challenge_name.clone());
                    let req = PublishRequest {
                        named_address: Some(self.cfg.solution_name.clone()),
                        dependencies: deps,
                        identity: self.cfg.solver.clone(),
                    };
                    proof {
                        assert(req@ =~= solution_publish_v(old(self)@.cfg));
                    }
                    Action::Publish(req)
                } else {
                    self.stage = Stage::Aborted(AbortReason::DeserializeError);
                    Action::Close
                }
            },
            (Stage::PublishingSolution, Event::PublishSucceeded(addr)) => {
                let line = wire::solution_line(addr.as_str());
                self.solution_addr = Some(addr);
                self.stage = Stage::SendingSolutionAddr;
                Action::WriteLine(line)
            },
            (Stage::PublishingSolution, Event::PublishFailed) => {
                self.stage = Stage::Aborted(AbortReason::PublishError);
                Action::Close
            },
            (Stage::SendingSolutionAddr, Event::WriteCompleted) => {
                let target = match &self.solution_addr {
                    Some(a) => a.clone(),
                    None => unreached(),
                };
                self.stage = Stage::InvokingSolve;
                let mut args: Vec<ObjectHandle> = Vec::new();
                args.push(self.cfg.solve_object);
                let req = CallRequest {
                    target: target,
                    module: self.cfg.solve_module.clone(),
                    function: self.cfg.solve_function.clone(),
                    args: args,
                    type_args: Vec::new(),
                    identity: self.cfg.solver.clone(),
                };
                proof {
                    assert(req@ =~= solve_call_v(old(self)@.cfg, old(self)@.solution_addr->0));
                }
                Action::Invoke(req)
            },
            (Stage::SendingSolutionAddr, Event::WriteFailed) => {
                self.stage = Stage::Aborted(AbortReason::IoError);
                Action::Close
            },
            (Stage::InvokingSolve, Event::SolveCompleted(_)) => {
                self.stage = Stage::Inspecting;
                Action::Inspect(self.cfg.admin_object)
            },
            (Stage::Inspecting, Event::Inspected) => {
                let target = match &self.challenge_addr {
                    Some(a) => a.clone(),
                    None => unreached(),
                };
                self.stage = Stage::InvokingValidate;
                let mut args: Vec<ObjectHandle> = Vec::new();
                args.push(self.cfg.admin_object);
                let req = CallRequest {
                    target: target,
                    module: self.cfg.challenge_module.clone(),
                    function: self.cfg.validate_function.clone(),
                    args: args,
                    type_args: Vec::new(),
                    identity: self.cfg.solver.clone(),
                };
                proof {
                    assert(req@ =~= validate_call_v(old(self)@.cfg, old(self)@.challenge_addr->0));
                }
                Action::Invoke(req)
            },
            (Stage::InvokingValidate, Event::ValidateCompleted(pass)) => {
                if pass {
                    match &self.cfg.flag {
                        Some(f) => {
                            let line = wire::success_line(f.as_str());
                            self.stage = Stage::SendingVerdict(Outcome::FlagSent);
                            Action::WriteLine(line)
                        },
                        None => {
                            self.stage = Stage::SendingVerdict(Outcome::Misconfigured);
                            Action::WriteLine(wire::misconfig_line())
                        },
                    }
                } else {
                    self.stage = Stage::SendingVerdict(Outcome::InvalidSolution);
                    Action::WriteLine(wire::failure_line())
                }
            },
            (Stage::SendingVerdict(o), Event::WriteCompleted) => {
                self.stage = Stage::Done(o);
                Action::Close
            },
            (Stage::SendingVerdict(_), Event::WriteFailed) => {
                self.stage = Stage::Aborted(AbortReason::IoError);
                Action::Close
            },
            _ => Action::Close,
        }
    }
}

} // verus!
