//! The session lifecycle orchestrator.
//!
//! The engine demands a linear protocol with no back-edges: library
//! initialization, session initialization, argument binding, one command
//! run, session finalization, library shutdown.  After every call the error
//! sentinel is inspected; any failure is fatal, formatted once, reported
//! once, and ends the run with a failure exit, never reaching a later stage.
//!
//! The orchestrator here is the decision core of that protocol: a state
//! machine that, fed the outcome of each engine call, decides the next
//! action.  A runner owns the engine handles, performs each requested call,
//! and hands the outcome back.  Argument memory is transferred into the
//! binding and run calls by value and never comes back: once handed over,
//! the engine owns it, and the orchestrator cannot free it again.

use vstd::pervasive::unreached;
use vstd::prelude::*;

use crate::args::{views_of, CArg, Invocation};
use crate::buffer::MESSAGE_STYLE;

verus! {

/// The fixed engine configuration flag set passed to library initialization
/// and shutdown.
pub const LIBRARY_MODE: i32 = 15;

/// Process exit code of a fully successful run.
pub const EXIT_SUCCESS: u8 = 0;

/// Process exit code of a run that failed at any lifecycle stage.
pub const EXIT_FAILURE: u8 = 1;

/// First mode flag of the output callback, as the engine expects it.
pub const CALLBACK_FIRST_MODE: i32 = 0;

/// Second mode flag of the output callback, as the engine expects it.
pub const CALLBACK_SECOND_MODE: i32 = -1;

/// The sink the engine writes command output into during the run call.  The
/// orchestrator constructs it with two fixed mode flags and passes it into
/// the run; the engine drives every call into it, so it is stateless from
/// the orchestrator's side.
#[derive(Clone, Copy, Debug, PartialEq, Eq, Structural)]
pub struct UserCallback {
    pub first_mode: i32,
    pub second_mode: i32,
}

impl UserCallback {
    pub fn new(first_mode: i32, second_mode: i32) -> (r: UserCallback)
        ensures
            r.first_mode == first_mode,
            r.second_mode == second_mode,
    {
        UserCallback { first_mode, second_mode }
    }
}

/// The engine calls of one run, in protocol order, for the issued-call
/// history.
#[derive(Clone, Copy, Debug, PartialEq, Eq, Structural)]
pub enum CallKind {
    Initialize,
    SessionInit,
    BindArguments,
    Run,
    SessionFinal,
    Shutdown,
}

/// The six lifecycle calls in the one order the protocol allows.
pub open spec fn full_protocol() -> Seq<CallKind> {
    seq![
        CallKind::Initialize,
        CallKind::SessionInit,
        CallKind::BindArguments,
        CallKind::Run,
        CallKind::SessionFinal,
        CallKind::Shutdown,
    ]
}

/// One call the runner must perform against the engine.
pub enum EngineCall {
    /// Initialize the engine's library runtime.
    Initialize { mode: i32 },
    /// Initialize and connect the session.
    SessionInit,
    /// Bind the argument count and argument vector onto the session.  The
    /// vector is transferred: the engine owns its memory from here on.
    BindArguments { argc: usize, args: Vec<CArg> },
    /// Run the bound command, writing output through the callback.  The
    /// command string is transferred like the argument vector.
    Run { command: CArg, callback: UserCallback },
    /// Finalize the session.
    SessionFinal,
    /// Shut the engine's library runtime down.
    Shutdown { mode: i32 },
    /// Not a lifecycle call: render the failed call's diagnostic under the
    /// given style and hand its text back.
    FormatMessage { style: i32 },
}

/// The runner's answer to the previous action.
pub enum Reply {
    /// The sentinel status the engine left after a lifecycle call; zero
    /// means success.
    Status { status: i32 },
    /// The rendered diagnostic text after a format request.
    Rendered { text: Vec<u8> },
}

/// What the runner is to do next.
pub enum Action {
    /// Perform this engine call and hand back its outcome.
    Call { call: EngineCall },
    /// Write the text to the diagnostic stream and end the process with the
    /// given exit code.
    Report { text: Vec<u8>, exit: u8 },
    /// End the process with the given exit code.
    Finish { exit: u8 },
}

/// Where in the protocol the run stands.
#[derive(Clone, Copy, Debug, PartialEq, Eq, Structural)]
pub enum Phase {
    /// Constructed; no call issued yet.
    Ready,
    /// Library initialization issued, outcome pending.
    AwaitInitialize,
    /// Session initialization issued, outcome pending.
    AwaitSessionInit,
    /// Argument binding issued, outcome pending.
    AwaitBind,
    /// The run issued, outcome pending.
    AwaitRun,
    /// Session finalization issued, outcome pending.
    AwaitFinal,
    /// Library shutdown issued, outcome pending.
    AwaitShutdown,
    /// A lifecycle call failed; its diagnostic is being rendered.
    FormatFailure,
    /// Terminal: every lifecycle call succeeded.
    Complete,
    /// Terminal: a lifecycle call failed and was reported.
    Aborted,
}

/// How many lifecycle calls a phase accounts for.  A failure keeps the
/// count it had when it struck, so the two failure phases carry no fixed
/// count and answer zero here; the state invariant pins their history as a
/// protocol prefix instead.
pub open spec fn issued_calls(p: Phase) -> int {
    match p {
        Phase::Ready => 0,
        Phase::AwaitInitialize => 1,
        Phase::AwaitSessionInit => 2,
        Phase::AwaitBind => 3,
        Phase::AwaitRun => 4,
        Phase::AwaitFinal => 5,
        Phase::AwaitShutdown => 6,
        Phase::Complete => 6,
        Phase::FormatFailure => 0,
        Phase::Aborted => 0,
    }
}

/// The decision core of one run.
pub struct Orchestrator {
    phase: Phase,
    pending_command: Option<CArg>,
    pending_args: Option<Vec<CArg>>,
    callback: UserCallback,
    history: Ghost<Seq<CallKind>>,
}

impl Orchestrator {
    /// Where the run stands.
    pub closed spec fn phase(&self) -> Phase {
        self.phase
    }

    /// The lifecycle calls issued so far, in order.
    pub closed spec fn history(&self) -> Seq<CallKind> {
        self.history@
    }

    /// The command bytes still held, until the run call takes them.
    pub closed spec fn held_command(&self) -> Option<Seq<u8>> {
        match self.pending_command {
            Some(c) => Some(c@),
            None => None,
        }
    }

    /// The argument vector still held, until the binding call takes it.
    pub closed spec fn held_args(&self) -> Option<Seq<Seq<u8>>> {
        match self.pending_args {
            Some(v) => Some(views_of(v@)),
            None => None,
        }
    }

    /// The callback the run call carries.
    pub closed spec fn callback(&self) -> UserCallback {
        self.callback
    }

    /// An engine call is outstanding: the next event is the runner's reply.
    pub open spec fn in_flight(&self) -> bool {
        match self.phase() {
            Phase::Ready | Phase::Complete | Phase::Aborted => false,
            _ => true,
        }
    }

    /// Whether the reply kind answers the outstanding call.
    pub open spec fn expects(&self, reply: Reply) -> bool {
        if self.phase() is FormatFailure {
            reply is Rendered
        } else {
            reply is Status
        }
    }

    /// The state invariant: the issued history is exactly the protocol
    /// prefix the phase accounts for, held memory matches the phase, and
    /// every held argument is well-formed.
    pub closed spec fn wf(&self) -> bool {
        &&& match self.phase {
            Phase::FormatFailure | Phase::Aborted => {
                &&& 1 <= self.history@.len() <= 6
                &&& self.history@ == full_protocol().take(self.history@.len() as int)
            },
            _ => self.history@ == full_protocol().take(issued_calls(self.phase)),
        }
        &&& match self.phase {
            Phase::Ready | Phase::AwaitInitialize | Phase::AwaitSessionInit => {
                self.pending_args is Some && self.pending_command is Some
            },
            Phase::AwaitBind => self.pending_args is None && self.pending_command is Some,
            Phase::AwaitRun | Phase::AwaitFinal | Phase::AwaitShutdown | Phase::Complete => {
                self.pending_args is None && self.pending_command is None
            },
            Phase::FormatFailure | Phase::Aborted => self.history@.contains(CallKind::Run) ==> (
            self.pending_args is None && self.pending_command is None),
        }
        &&& (self.pending_command matches Some(c) ==> c.wf())
        &&& (self.pending_args matches Some(v) ==> forall|i: int|
            0 <= i < v@.len() ==> v@[i].wf())
    }

    /// Takes charge of one marshaled invocation.  No call is issued yet.
    pub fn new(invocation: Invocation) -> (r: Orchestrator)
        requires
            invocation.wf(),
        ensures
            r.wf(),
            r.phase() is Ready,
            r.history() == Seq::<CallKind>::empty(),
            r.held_command() == Some(invocation.command@),
            r.held_args() == Some(views_of(invocation.args@)),
            r.callback() == (UserCallback {
                first_mode: CALLBACK_FIRST_MODE,
                second_mode: CALLBACK_SECOND_MODE,
            }),
    {
        proof {
            assert(full_protocol().take(0) =~= Seq::<CallKind>::empty());
        }
        Orchestrator {
            phase: Phase::Ready,
            pending_command: Some(invocation.command),
            pending_args: Some(invocation.args),
            callback: UserCallback::new(CALLBACK_FIRST_MODE, CALLBACK_SECOND_MODE),
            history: Ghost(Seq::empty()),
        }
    }

    /// Issues the first call of the protocol: library initialization under
    /// the fixed configuration mode.
    pub fn launch(&mut self) -> (a: Action)
        requires
            old(self).wf(),
            old(self).phase() is Ready,
        ensures
            final(self).wf(),
            final(self).phase() is AwaitInitialize,
            final(self).history() == old(self).history().push(CallKind::Initialize),
            final(self).held_command() == old(self).held_command(),
            final(self).held_args() == old(self).held_args(),
            final(self).callback() == old(self).callback(),
            a == (Action::Call { call: EngineCall::Initialize { mode: LIBRARY_MODE } }),
    {
        self.phase = Phase::AwaitInitialize;
        proof {
            self.history@ = self.history@.push(CallKind::Initialize);
            assert(full_protocol().take(0).push(CallKind::Initialize) =~= full_protocol().take(1));
        }
        Action::Call { call: EngineCall::Initialize { mode: LIBRARY_MODE } }
    }

    /// Feeds the outcome of the outstanding call in and decides the next
    /// action.
    ///
    /// A non-zero status at any stage is fatal: the orchestrator asks for
    /// the diagnostic once, reports it once with the failure exit code, and
    /// issues no further lifecycle call, so no later stage is ever reached
    /// and no stage is retried.  On success the next protocol call is
    /// issued; the binding call takes the whole argument vector, in order
    /// and with its exact count, and the run call takes the command; neither
    /// is held afterward.
    pub fn step(&mut self, reply: Reply) -> (a: Action)
        requires
            old(self).wf(),
            old(self).in_flight(),
            old(self).expects(reply),
        ensures
            final(self).wf(),
            final(self).callback() == old(self).callback(),
            // Any failed lifecycle call: format once, issue nothing further.
            reply matches Reply::Status { status } && status != 0 ==> {
                &&& final(self).phase() is FormatFailure
                &&& final(self).history() == old(self).history()
                &&& final(self).held_command() == old(self).held_command()
                &&& final(self).held_args() == old(self).held_args()
                &&& a == (Action::Call { call: EngineCall::FormatMessage { style: MESSAGE_STYLE } })
            },
            // Library initialized: initialize the session.
            reply matches Reply::Status { status } && status == 0 && old(self).phase()
                is AwaitInitialize ==> {
                &&& final(self).phase() is AwaitSessionInit
                &&& final(self).history() == old(self).history().push(CallKind::SessionInit)
                &&& final(self).held_command() == old(self).held_command()
                &&& final(self).held_args() == old(self).held_args()
                &&& a == (Action::Call { call: EngineCall::SessionInit })
            },
            // Session initialized: transfer the argument vector, count
            // matching length, order preserved.
            reply matches Reply::Status { status } && status == 0 && old(self).phase()
                is AwaitSessionInit ==> {
                &&& final(self).phase() is AwaitBind
                &&& final(self).history() == old(self).history().push(CallKind::BindArguments)
                &&& final(self).held_command() == old(self).held_command()
                &&& final(self).held_args() is None
                &&& a matches Action::Call { call: EngineCall::BindArguments { argc, args } }
                    && argc as int == args@.len() && Some(views_of(args@)) == old(
                    self,
                ).held_args() && (forall|i: int| 0 <= i < args@.len() ==> args@[i].wf())
            },
            // Arguments bound: transfer the command and run it.
            reply matches Reply::Status { status } && status == 0 && old(self).phase()
                is AwaitBind ==> {
                &&& final(self).phase() is AwaitRun
                &&& final(self).history() == old(self).history().push(CallKind::Run)
                &&& final(self).held_command() is None
                &&& final(self).held_args() is None
                &&& a matches Action::Call { call: EngineCall::Run { command, callback } } && Some(
                    command@,
                ) == old(self).held_command() && command.wf() && callback == old(self).callback()
            },
            // Run returned: finalize the session.
            reply matches Reply::Status { status } && status == 0 && old(self).phase()
                is AwaitRun ==> {
                &&& final(self).phase() is AwaitFinal
                &&& final(self).history() == old(self).history().push(CallKind::SessionFinal)
                &&& final(self).held_command() is None
                &&& final(self).held_args() is None
                &&& a == (Action::Call { call: EngineCall::SessionFinal })
            },
            // Session finalized: shut the library down.
            reply matches Reply::Status { status } && status == 0 && old(self).phase()
                is AwaitFinal ==> {
                &&& final(self).phase() is AwaitShutdown
                &&& final(self).history() == old(self).history().push(CallKind::Shutdown)
                &&& final(self).held_command() is None
                &&& final(self).held_args() is None
                &&& a == (Action::Call { call: EngineCall::Shutdown { mode: LIBRARY_MODE } })
            },
            // Shutdown succeeded: the run is complete.
            reply matches Reply::Status { status } && status == 0 && old(self).phase()
                is AwaitShutdown ==> {
                &&& final(self).phase() is Complete
                &&& final(self).history() == old(self).history()
                &&& a == (Action::Finish { exit: EXIT_SUCCESS })
            },
            // The diagnostic came back: report it and end with failure.
            reply matches Reply::Rendered { text } ==> {
                &&& final(self).phase() is Aborted
                &&& final(self).history() == old(self).history()
                &&& final(self).held_command() == old(self).held_command()
                &&& final(self).held_args() == old(self).held_args()
                &&& a == (Action::Report { text, exit: EXIT_FAILURE })
            },
    {
        match reply {
            Reply::Status { status } => {
                if status != 0 {
                    self.phase = Phase::FormatFailure;
                    Action::Call { call: EngineCall::FormatMessage { style: MESSAGE_STYLE } }
                } else {
                    match self.phase {
                        Phase::AwaitInitialize => {
                            self.phase = Phase::AwaitSessionInit;
                            proof {
                                self.history@ = self.history@.push(CallKind::SessionInit);
                                assert(full_protocol().take(1).push(CallKind::SessionInit)
                                    =~= full_protocol().take(2));
                            }
                            Action::Call { call: EngineCall::SessionInit }
                        },
                        Phase::AwaitSessionInit => {
                            let taken = self.pending_args.take();
                            let args = taken.unwrap();
                            let argc = args.len();
                            self.phase = Phase::AwaitBind;
                            proof {
                                self.history@ = self.history@.push(CallKind::BindArguments);
                                assert(full_protocol().take(2).push(CallKind::BindArguments)
                                    =~= full_protocol().take(3));
                            }
                            Action::Call { call: EngineCall::BindArguments { argc, args } }
                        },
                        Phase::AwaitBind => {
                            let taken = self.pending_command.take();
                            let command = taken.unwrap();
                            self.phase = Phase::AwaitRun;
                            proof {
                                self.history@ = self.history@.push(CallKind::Run);
                                assert(full_protocol().take(3).push(CallKind::Run)
                                    =~= full_protocol().take(4));
                            }
                            Action::Call {
                                call: EngineCall::Run { command, callback: self.callback },
                            }
                        },
                        Phase::AwaitRun => {
                            self.phase = Phase::AwaitFinal;
                            proof {
                                self.history@ = self.history@.push(CallKind::SessionFinal);
                                assert(full_protocol().take(4).push(CallKind::SessionFinal)
                                    =~= full_protocol().take(5));
                            }
                            Action::Call { call: EngineCall::SessionFinal }
                        },
                        Phase::AwaitFinal => {
                            self.phase = Phase::AwaitShutdown;
                            proof {
                                self.history@ = self.history@.push(CallKind::Shutdown);
                                assert(full_protocol().take(5).push(CallKind::Shutdown)
                                    =~= full_protocol().take(6));
                            }
                            Action::Call { call: EngineCall::Shutdown { mode: LIBRARY_MODE } }
                        },
                        Phase::AwaitShutdown => {
                            self.phase = Phase::Complete;
                            Action::Finish { exit: EXIT_SUCCESS }
                        },
                        _ => unreached(),
                    }
                }
            },
            Reply::Rendered { text } => {
                self.phase = Phase::Aborted;
                Action::Report { text, exit: EXIT_FAILURE }
            },
        }
    }

    /// Executable mirror of [`Orchestrator::in_flight`], for a runner to
    /// check before feeding a reply in.
    pub fn running(&self) -> (r: bool)
        ensures
            r == self.in_flight(),
    {
        match self.phase {
            Phase::Ready | Phase::Complete | Phase::Aborted => false,
            _ => true,
        }
    }

    /// Executable mirror of [`Orchestrator::expects`], for a runner to check
    /// before feeding a reply in.
    pub fn accepts(&self, reply: &Reply) -> (r: bool)
        ensures
            r == self.expects(*reply),
    {
        match self.phase {
            Phase::FormatFailure => matches!(reply, Reply::Rendered { .. }),
            _ => matches!(reply, Reply::Status { .. }),
        }
    }

    /// Whether the orchestrator still holds any of the memory destined for
    /// the engine: the command string or the argument vector.
    pub fn holds_argument_memory(&self) -> (r: bool)
        ensures
            r == (self.held_command() is Some || self.held_args() is Some),
    {
        self.pending_command.is_some() || self.pending_args.is_some()
    }

    /// The run ended with every lifecycle call succeeded.
    pub fn is_complete(&self) -> (r: bool)
        ensures
            r == (self.phase() is Complete),
    {
        matches!(self.phase, Phase::Complete)
    }

    /// The run ended with a reported failure.
    pub fn is_aborted(&self) -> (r: bool)
        ensures
            r == (self.phase() is Aborted),
    {
        matches!(self.phase, Phase::Aborted)
    }
}

/// Progression is monotonic and forward-only: whatever happened, the calls
/// issued so far are exactly a prefix of the one protocol order, so no stage
/// was ever skipped, repeated, or visited out of order, and initialization
/// came before every other engine call.
pub proof fn lemma_calls_follow_protocol(o: Orchestrator)
    requires
        o.wf(),
    ensures
        o.history().len() <= 6,
        o.history() == full_protocol().take(o.history().len() as int),
        o.history().len() >= 1 ==> o.history()[0] == CallKind::Initialize,
        forall|i: int, j: int|
            0 <= i < j < o.history().len() ==> o.history()[i] != o.history()[j],
{
    match o.phase() {
        Phase::FormatFailure | Phase::Aborted => {
        },
        _ => {
            assert(o.history().len() == full_protocol().take(issued_calls(o.phase())).len());
        },
    }
    assert forall|i: int, j: int| 0 <= i < j < o.history().len() implies o.history()[i]
        != o.history()[j] by {
        assert(o.history()[i] == full_protocol()[i]);
        assert(o.history()[j] == full_protocol()[j]);
    }
}

/// In a completed run the engine saw exactly the six lifecycle calls in
/// protocol order: initialization exactly once and before every other call,
/// shutdown exactly once and after everything else, and no call after
/// shutdown.
pub proof fn lemma_complete_run_protocol(o: Orchestrator)
    requires
        o.wf(),
        o.phase() is Complete,
    ensures
        o.history() == full_protocol(),
        o.history().len() == 6,
        o.history()[0] == CallKind::Initialize,
        forall|i: int| 1 <= i < o.history().len() ==> o.history()[i] != CallKind::Initialize,
        o.history()[5] == CallKind::Shutdown,
        forall|i: int| 0 <= i < o.history().len() - 1 ==> o.history()[i] != CallKind::Shutdown,
{
    assert(full_protocol().take(6) =~= full_protocol());
    assert forall|i: int| 1 <= i < o.history().len() implies o.history()[i]
        != CallKind::Initialize by {
        assert(o.history() == full_protocol());
    }
    assert forall|i: int| 0 <= i < o.history().len() - 1 implies o.history()[i]
        != CallKind::Shutdown by {
        assert(o.history() == full_protocol());
    }
}

/// Ownership transfer is final: once the run call has been issued, the
/// orchestrator holds neither the command string nor any argument vector
/// entry, so it cannot free what the engine now owns — on the success path
/// and on every failure path alike.
pub proof fn lemma_argument_transfer_is_final(o: Orchestrator)
    requires
        o.wf(),
        o.history().contains(CallKind::Run),
    ensures
        o.held_command() is None,
        o.held_args() is None,
{
    match o.phase() {
        Phase::Ready | Phase::AwaitInitialize | Phase::AwaitSessionInit | Phase::AwaitBind => {
            let i = choose|i: int| 0 <= i < o.history().len() && o.history()[i] == CallKind::Run;
            assert(o.history()[i] != CallKind::Run);
        },
        _ => {
        },
    }
}

} // verus!
