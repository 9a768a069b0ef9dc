use p4fun_rust::args::build_invocation;
use p4fun_rust::buffer::{extract_failure_text, ErrorSentinel, MessageBuffer, MESSAGE_STYLE};
use p4fun_rust::orchestrator::{
    Action, CallKind, EngineCall, Orchestrator, Reply, EXIT_FAILURE, EXIT_SUCCESS, LIBRARY_MODE,
};

/// An instrumented stand-in for the native engine: it records every call it
/// is asked to perform, keeps the memory that was transferred to it, and can
/// be scripted to fail at one lifecycle call.
struct FakeEngine {
    /// Lifecycle call at which to report failure (0-based), if any.
    fail_at: Option<usize>,
    /// Diagnostic recorded on failure.
    failure_message: Vec<u8>,
    /// Out-parameter sentinel, written after every lifecycle call.
    sentinel: ErrorSentinel,
    /// Scratch buffer for rendered diagnostics.
    buffer: MessageBuffer,
    /// Lifecycle calls seen, in order.
    calls: Vec<CallKind>,
    /// The modes passed to initialize and shutdown.
    modes: Vec<i32>,
    /// The argument count passed to the binding call.
    bound_argc: Option<usize>,
    /// The transferred argument memory, now owned by the engine.
    bound_args: Vec<Vec<u8>>,
    /// The transferred command memory, now owned by the engine.
    run_command: Option<Vec<u8>>,
    /// The callback mode flags seen at the run call.
    callback_modes: Option<(i32, i32)>,
    /// The style codes of format requests.
    format_styles: Vec<i32>,
}

impl FakeEngine {
    fn new(fail_at: Option<usize>, failure_message: &[u8]) -> FakeEngine {
        FakeEngine {
            fail_at,
            failure_message: failure_message.to_vec(),
            sentinel: ErrorSentinel::new(),
            buffer: MessageBuffer::new(),
            calls: Vec::new(),
            modes: Vec::new(),
            bound_argc: None,
            bound_args: Vec::new(),
            run_command: None,
            callback_modes: None,
            format_styles: Vec::new(),
        }
    }

    fn lifecycle(&mut self, kind: CallKind) -> Reply {
        let index = self.calls.len();
        self.calls.push(kind);
        if self.fail_at == Some(index) {
            self.sentinel.record(1, self.failure_message.clone());
        } else {
            self.sentinel.record(0, Vec::new());
        }
        Reply::Status {
            status: self.sentinel.test(),
        }
    }

    fn perform(&mut self, call: EngineCall) -> Reply {
        match call {
            EngineCall::Initialize { mode } => {
                self.modes.push(mode);
                self.lifecycle(CallKind::Initialize)
            }
            EngineCall::SessionInit => self.lifecycle(CallKind::SessionInit),
            EngineCall::BindArguments { argc, args } => {
                self.bound_argc = Some(argc);
                self.bound_args = args.into_iter().map(|a| a.into_bytes()).collect();
                self.lifecycle(CallKind::BindArguments)
            }
            EngineCall::Run { command, callback } => {
                self.run_command = Some(command.into_bytes());
                self.callback_modes = Some((callback.first_mode, callback.second_mode));
                self.lifecycle(CallKind::Run)
            }
            EngineCall::SessionFinal => self.lifecycle(CallKind::SessionFinal),
            EngineCall::Shutdown { mode } => {
                self.modes.push(mode);
                self.lifecycle(CallKind::Shutdown)
            }
            EngineCall::FormatMessage { style } => {
                self.format_styles.push(style);
                let text = extract_failure_text(&self.sentinel, &mut self.buffer, style);
                Reply::Rendered { text }
            }
        }
    }
}

/// Drives one whole run and returns the exit code and any reported text.
fn drive(engine: &mut FakeEngine, argv: &[&str]) -> (u8, Option<Vec<u8>>) {
    let argv: Vec<Vec<u8>> = argv.iter().map(|w| w.as_bytes().to_vec()).collect();
    let inv = build_invocation(&argv).unwrap();
    let mut orch = Orchestrator::new(inv);
    let mut action = orch.launch();
    loop {
        match action {
            Action::Call { call } => {
                let reply = engine.perform(call);
                assert!(orch.running());
                assert!(orch.accepts(&reply));
                action = orch.step(reply);
            }
            Action::Report { text, exit } => {
                assert!(orch.is_aborted());
                return (exit, Some(text));
            }
            Action::Finish { exit } => {
                assert!(orch.is_complete());
                return (exit, None);
            }
        }
    }
}

const PROTOCOL: [CallKind; 6] = [
    CallKind::Initialize,
    CallKind::SessionInit,
    CallKind::BindArguments,
    CallKind::Run,
    CallKind::SessionFinal,
    CallKind::Shutdown,
];

#[test]
fn successful_run_issues_the_whole_protocol_once() {
    let mut engine = FakeEngine::new(None, b"");
    let (exit, report) = drive(&mut engine, &["self", "run", "--foo"]);
    assert_eq!(exit, EXIT_SUCCESS);
    assert!(report.is_none());
    assert_eq!(engine.calls, PROTOCOL.to_vec());
    assert_eq!(
        engine.calls.iter().filter(|c| **c == CallKind::Initialize).count(),
        1
    );
    assert_eq!(engine.calls.first(), Some(&CallKind::Initialize));
    assert_eq!(engine.calls.last(), Some(&CallKind::Shutdown));
    assert_eq!(engine.modes, vec![LIBRARY_MODE, LIBRARY_MODE]);
    assert_eq!(engine.callback_modes, Some((0, -1)));
}

#[test]
fn bound_arguments_keep_count_and_order() {
    let mut engine = FakeEngine::new(None, b"");
    let (exit, _) = drive(&mut engine, &["self", "sync", "-f", "//depot/...", "@head"]);
    assert_eq!(exit, EXIT_SUCCESS);
    assert_eq!(engine.bound_argc, Some(3));
    assert_eq!(engine.bound_args.len(), 3);
    assert_eq!(engine.bound_args[0], b"-f\0".to_vec());
    assert_eq!(engine.bound_args[1], b"//depot/...\0".to_vec());
    assert_eq!(engine.bound_args[2], b"@head\0".to_vec());
    assert_eq!(engine.run_command, Some(b"sync\0".to_vec()));
}

#[test]
fn run_with_bare_command_binds_empty_vector() {
    let mut engine = FakeEngine::new(None, b"");
    let (exit, _) = drive(&mut engine, &["self", "help"]);
    assert_eq!(exit, EXIT_SUCCESS);
    assert_eq!(engine.bound_argc, Some(0));
    assert!(engine.bound_args.is_empty());
    assert_eq!(engine.run_command, Some(b"help\0".to_vec()));
}

#[test]
fn failure_at_each_stage_exits_one_and_stops() {
    for failed in 0..PROTOCOL.len() {
        let mut engine = FakeEngine::new(Some(failed), b"engine call failed");
        let (exit, report) = drive(&mut engine, &["self", "run", "--foo"]);
        assert_eq!(exit, EXIT_FAILURE, "stage {}", failed);
        assert_eq!(report, Some(b"engine call failed".to_vec()));
        // No later lifecycle stage was reached, none skipped or retried.
        assert_eq!(engine.calls, PROTOCOL[..failed + 1].to_vec());
        // The diagnostic was rendered exactly once, with the fixed style.
        assert_eq!(engine.format_styles, vec![MESSAGE_STYLE]);
    }
}

#[test]
fn transferred_memory_is_never_reclaimed() {
    let mut engine = FakeEngine::new(None, b"");
    let argv: Vec<Vec<u8>> = ["self", "run", "--foo", "--bar"]
        .iter()
        .map(|w| w.as_bytes().to_vec())
        .collect();
    let inv = build_invocation(&argv).unwrap();
    let mut orch = Orchestrator::new(inv);
    assert!(orch.holds_argument_memory());
    let mut action = orch.launch();
    let mut run_seen = false;
    loop {
        match action {
            Action::Call { call } => {
                if matches!(call, EngineCall::Run { .. }) {
                    run_seen = true;
                }
                let reply = engine.perform(call);
                if run_seen {
                    // From the run call on, the orchestrator holds none of
                    // the transferred memory on any path.
                    assert!(!orch.holds_argument_memory());
                }
                action = orch.step(reply);
            }
            Action::Report { .. } => panic!("run should succeed"),
            Action::Finish { exit } => {
                assert_eq!(exit, EXIT_SUCCESS);
                break;
            }
        }
    }
    assert!(run_seen);
    assert!(!orch.holds_argument_memory());
    // The engine still owns the transferred memory, untouched.
    assert_eq!(engine.bound_args[0], b"--foo\0".to_vec());
    assert_eq!(engine.bound_args[1], b"--bar\0".to_vec());
    assert_eq!(engine.run_command, Some(b"run\0".to_vec()));
}

#[test]
fn failure_after_run_still_leaves_memory_with_the_engine() {
    // Fail at session finalization, after the transfer.
    let mut engine = FakeEngine::new(Some(4), b"final failed");
    let (exit, report) = drive(&mut engine, &["self", "run", "--foo"]);
    assert_eq!(exit, EXIT_FAILURE);
    assert_eq!(report, Some(b"final failed".to_vec()));
    assert_eq!(engine.bound_args, vec![b"--foo\0".to_vec()]);
    assert_eq!(engine.run_command, Some(b"run\0".to_vec()));
}
