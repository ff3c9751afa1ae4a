use vash::builtins::{BuiltinCommand, BuiltinCommands, Cd, Exit, Pwd};
use vash::child::{ChildCommand, ChildOpAction, SignalName, VashChild, delegate_wait_outcome, ChildMessage};
use vash::exec::{Ctrl, ExecEvent, ExecMachine, ExecRequest, MProc};
use vash::plan::{ExecutionPlan, PipeRedirection, PipeType};
use vash::process::{ReadSink, VashProcess, VashRead, VashWrite};
use vash::status::{BuiltinExitStatus, OsExitStatus, VashExitStatus};

fn ex(name: &str, args: &[&str]) -> ExecutionPlan {
    ExecutionPlan::Execute(
        String::from(name),
        args.iter().map(|a| String::from(*a)).collect(),
    )
}

fn ok_status() -> VashExitStatus {
    VashExitStatus::Process(OsExitStatus { code: Some(0) })
}

fn bad_status() -> VashExitStatus {
    VashExitStatus::Process(OsExitStatus { code: Some(1) })
}

#[test]
fn and_success_executes_right() {
    let mut m = ExecMachine::new(ExecutionPlan::And(
        Box::new(ex("a", &[])),
        Box::new(ex("b", &[])),
    ));
    assert_eq!(m.step(), ExecRequest::Continue);
    assert_eq!(m.step(), ExecRequest::Spawn(String::from("a"), vec![]));
    m.provide(ExecEvent::Launched(7));
    assert_eq!(m.step(), ExecRequest::WaitChild(MProc::Live(7)));
    m.provide(ExecEvent::Status(ok_status()));
    // The right side runs only now.
    assert_eq!(m.step(), ExecRequest::Spawn(String::from("b"), vec![]));
    m.provide(ExecEvent::Launched(8));
    assert_eq!(m.step(), ExecRequest::Finished(MProc::Live(8)));
}

#[test]
fn and_failure_returns_left_without_running_right() {
    let mut m = ExecMachine::new(ExecutionPlan::And(
        Box::new(ex("a", &[])),
        Box::new(ex("b", &[])),
    ));
    assert_eq!(m.step(), ExecRequest::Continue);
    assert_eq!(m.step(), ExecRequest::Spawn(String::from("a"), vec![]));
    m.provide(ExecEvent::Launched(7));
    assert_eq!(m.step(), ExecRequest::WaitChild(MProc::Live(7)));
    m.provide(ExecEvent::Status(bad_status()));
    // No spawn of "b": the left process is the result, unchanged.
    assert_eq!(m.step(), ExecRequest::Finished(MProc::Live(7)));
}

#[test]
fn or_success_returns_left_without_running_right() {
    let mut m = ExecMachine::new(ExecutionPlan::Or(
        Box::new(ex("a", &[])),
        Box::new(ex("b", &[])),
    ));
    assert_eq!(m.step(), ExecRequest::Continue);
    assert_eq!(m.step(), ExecRequest::Spawn(String::from("a"), vec![]));
    m.provide(ExecEvent::Launched(3));
    assert_eq!(m.step(), ExecRequest::WaitChild(MProc::Live(3)));
    m.provide(ExecEvent::Status(ok_status()));
    assert_eq!(m.step(), ExecRequest::Finished(MProc::Live(3)));
}

#[test]
fn or_failure_executes_right() {
    let mut m = ExecMachine::new(ExecutionPlan::Or(
        Box::new(ex("a", &[])),
        Box::new(ex("b", &[])),
    ));
    assert_eq!(m.step(), ExecRequest::Continue);
    assert_eq!(m.step(), ExecRequest::Spawn(String::from("a"), vec![]));
    m.provide(ExecEvent::Launched(3));
    assert_eq!(m.step(), ExecRequest::WaitChild(MProc::Live(3)));
    m.provide(ExecEvent::Status(bad_status()));
    assert_eq!(m.step(), ExecRequest::Spawn(String::from("b"), vec![]));
    m.provide(ExecEvent::Launched(4));
    assert_eq!(m.step(), ExecRequest::Finished(MProc::Live(4)));
}

#[test]
fn pipe_launches_right_before_left_and_connects() {
    let mut m = ExecMachine::new(ExecutionPlan::Pipe(
        Box::new(ex("ls", &[])),
        Box::new(ex("grep", &["x"])),
    ));
    assert_eq!(m.step(), ExecRequest::Continue);
    // Right side first, by spawn order.
    assert_eq!(m.step(), ExecRequest::Spawn(String::from("grep"), vec![String::from("x")]));
    m.provide(ExecEvent::Launched(1));
    assert_eq!(m.step(), ExecRequest::Continue);
    assert_eq!(m.step(), ExecRequest::Spawn(String::from("ls"), vec![]));
    m.provide(ExecEvent::Launched(2));
    // Left first, right second in the connect request.
    assert_eq!(m.step(), ExecRequest::ConnectPipe(MProc::Live(2), MProc::Live(1)));
    m.provide(ExecEvent::Launched(9));
    assert_eq!(m.step(), ExecRequest::Finished(MProc::Live(9)));
}

#[test]
fn pipe_composition_takes_status_from_last_stage() {
    let left = VashProcess {
        stdin: VashWrite::Stdin(2),
        stdout: VashRead::Stdout(2),
        stderr: VashRead::Stderr(2),
        child: VashChild::Process(2),
    };
    let right = VashProcess {
        stdin: VashWrite::Stdin(1),
        stdout: VashRead::Stdout(1),
        stderr: VashRead::Stderr(1),
        child: VashChild::Process(1),
    };
    let p = VashProcess::compose_pipe(left, right);
    assert_eq!(p.stdin, VashWrite::Stdin(2));
    assert_eq!(p.stdout, VashRead::Stdout(1));
    assert_eq!(p.stderr, VashRead::Stderr(1));
    assert_eq!(p.child, VashChild::Process(1));
}

#[test]
fn noop_is_immediate_success() {
    let mut m = ExecMachine::new(ExecutionPlan::NoOp);
    assert_eq!(m.step(), ExecRequest::Continue);
    match m.step() {
        ExecRequest::Finished(MProc::Precomputed(s)) => {
            assert!(s.success());
            assert_eq!(s.code(), Some(0));
        },
        other => panic!("expected immediate success, got {:?}", other),
    }
}

#[test]
fn spawn_failure_becomes_failing_process() {
    let mut m = ExecMachine::new(ex("no-such-binary", &[]));
    assert_eq!(m.step(), ExecRequest::Spawn(String::from("no-such-binary"), vec![]));
    m.provide(ExecEvent::SpawnFailed);
    match m.step() {
        ExecRequest::Finished(MProc::Precomputed(s)) => assert!(s.failure()),
        other => panic!("expected failing process, got {:?}", other),
    }
}

#[test]
fn spawn_failure_composes_through_and() {
    let mut m = ExecMachine::new(ExecutionPlan::And(
        Box::new(ex("no-such-binary", &[])),
        Box::new(ex("b", &[])),
    ));
    assert_eq!(m.step(), ExecRequest::Continue);
    assert_eq!(m.step(), ExecRequest::Spawn(String::from("no-such-binary"), vec![]));
    m.provide(ExecEvent::SpawnFailed);
    let v = match m.step() {
        ExecRequest::WaitChild(v) => v,
        other => panic!("expected wait, got {:?}", other),
    };
    // The supervisor reads a precomputed status without touching the OS.
    let st = match v {
        MProc::Precomputed(s) => VashExitStatus::Builtin(s),
        other => panic!("expected precomputed process, got {:?}", other),
    };
    assert!(!st.success());
    m.provide(ExecEvent::Status(st));
    assert_eq!(m.step(), ExecRequest::Finished(v));
}

#[test]
fn background_detaches_and_succeeds_at_once() {
    let mut m = ExecMachine::new(ExecutionPlan::Background(Box::new(ex("sleepy", &[]))));
    assert_eq!(m.step(), ExecRequest::Continue);
    assert_eq!(m.step(), ExecRequest::Spawn(String::from("sleepy"), vec![]));
    m.provide(ExecEvent::Launched(5));
    assert_eq!(m.step(), ExecRequest::Detach(MProc::Live(5)));
    match m.step() {
        ExecRequest::Finished(MProc::Precomputed(s)) => assert!(s.success()),
        other => panic!("expected detached success, got {:?}", other),
    }
}

#[test]
fn invalid_redirect_is_rejected_as_failure() {
    let plan = ExecutionPlan::RedirectPipe(
        Box::new(ex("a", &[])),
        PipeRedirection { from: PipeType::Stdin, to: PipeType::Null, append: false },
    );
    let mut m = ExecMachine::new(plan);
    assert_eq!(m.step(), ExecRequest::Continue);
    match m.step() {
        ExecRequest::Finished(MProc::Precomputed(s)) => assert!(s.failure()),
        other => panic!("expected rejection, got {:?}", other),
    }
}

#[test]
fn valid_redirect_wraps_inner_process() {
    let rd = PipeRedirection {
        from: PipeType::Stdout,
        to: PipeType::File(String::from("out")),
        append: false,
    };
    let mut m = ExecMachine::new(ExecutionPlan::RedirectPipe(Box::new(ex("a", &[])), rd));
    assert_eq!(m.step(), ExecRequest::Continue);
    assert_eq!(m.step(), ExecRequest::Spawn(String::from("a"), vec![]));
    m.provide(ExecEvent::Launched(6));
    let rd2 = PipeRedirection {
        from: PipeType::Stdout,
        to: PipeType::File(String::from("out")),
        append: false,
    };
    assert_eq!(m.step(), ExecRequest::ApplyRedirect(MProc::Live(6), rd2));
    m.provide(ExecEvent::Launched(6));
    assert_eq!(m.step(), ExecRequest::Finished(MProc::Live(6)));
}

#[test]
fn builtin_dispatch_before_spawn() {
    let mut m = ExecMachine::new(ex("pwd", &[]));
    assert_eq!(m.step(), ExecRequest::RunBuiltin(BuiltinCommands::Pwd(Pwd), vec![]));
}

#[test]
fn registry_lookup() {
    assert_eq!(BuiltinCommands::from_name("cd"), Some(BuiltinCommands::Cd(Cd)));
    assert_eq!(BuiltinCommands::from_name("pwd"), Some(BuiltinCommands::Pwd(Pwd)));
    assert_eq!(BuiltinCommands::from_name("exit"), Some(BuiltinCommands::Exit(Exit)));
    assert_eq!(BuiltinCommands::from_name("ls"), None);
    assert_eq!(Cd.name(), "cd");
    assert_eq!(Pwd.name(), "pwd");
    assert_eq!(Exit.name(), "exit");
}

#[test]
fn exit_terminates_shell() {
    assert!(BuiltinCommands::Exit(Exit).terminates_shell());
    assert!(!BuiltinCommands::Cd(Cd).terminates_shell());
}

#[test]
fn kill_on_precomputed_is_no_action_and_success() {
    let child = VashChild::PreExecuted(BuiltinExitStatus::new_success());
    assert_eq!(child.kill_action(), ChildOpAction::NoAction);
    // Its status is available at once, without waiting.
    let st = child.precomputed_status().unwrap();
    assert!(st.success());
}

#[test]
fn signal_on_precomputed_is_ignored() {
    let child = VashChild::PreExecuted(BuiltinExitStatus::new_failure());
    assert_eq!(child.signal_action(SignalName::Terminate), ChildOpAction::NoAction);
}

#[test]
fn signal_on_os_child_is_forwarded() {
    let child = VashChild::Process(12);
    assert_eq!(
        child.signal_action(SignalName::Terminate),
        ChildOpAction::ForwardSignal(12, SignalName::Terminate)
    );
    assert_eq!(child.kill_action(), ChildOpAction::KillOs(12));
}

#[test]
fn synthetic_task_honors_only_aborting_signals() {
    let child = VashChild::Thread(4);
    assert_eq!(child.signal_action(SignalName::Interrupt), ChildOpAction::AbortTask(4));
    assert_eq!(child.signal_action(SignalName::Terminate), ChildOpAction::AbortTask(4));
    assert_eq!(child.signal_action(SignalName::Abort), ChildOpAction::AbortTask(4));
    assert_eq!(child.signal_action(SignalName::Hangup), ChildOpAction::NoAction);
    assert_eq!(child.signal_action(SignalName::Quit), ChildOpAction::NoAction);
}

#[test]
fn delegate_child_ops_go_over_the_channel() {
    let child = VashChild::Delegate(vash::child::ChildDelegate { sender: 9, receiver: 10 });
    assert_eq!(child.kill_action(), ChildOpAction::SendCommand(9, ChildCommand::Kill));
    assert_eq!(
        child.signal_action(SignalName::Interrupt),
        ChildOpAction::SendCommand(9, ChildCommand::Signal(SignalName::Interrupt))
    );
}

#[test]
fn delegate_wait_maps_messages() {
    let s = OsExitStatus { code: Some(3) };
    assert_eq!(delegate_wait_outcome(Some(ChildMessage::Exit(s))), Ok(s));
    assert!(delegate_wait_outcome(None).is_err());
}

#[test]
fn sink_processes_are_silent_and_precomputed() {
    let p = VashProcess::sink();
    assert_eq!(p.stdout, VashRead::Sink(ReadSink));
    match p.child {
        VashChild::PreExecuted(s) => {
            assert!(s.success());
            assert_eq!(s.code(), Some(0));
        },
        other => panic!("expected precomputed child, got {:?}", other),
    }
    let f = VashProcess::sink_failure();
    match f.child {
        VashChild::PreExecuted(s) => {
            assert!(s.failure());
            assert_eq!(s.code(), Some(1));
        },
        other => panic!("expected precomputed child, got {:?}", other),
    }
}

#[test]
fn cd_decisions() {
    assert_eq!(Cd::target_path(&vec![String::from("..")]), "..");
    assert_eq!(Cd::target_path(&vec![]), "");
    // A failed change reports failure; a successful one, success.
    match Cd::outcome(false).child {
        VashChild::PreExecuted(s) => assert!(s.failure()),
        other => panic!("expected precomputed child, got {:?}", other),
    }
    match Cd::outcome(true).child {
        VashChild::PreExecuted(s) => assert!(s.success()),
        other => panic!("expected precomputed child, got {:?}", other),
    }
}

#[test]
fn pwd_renders_directory_with_newline() {
    assert_eq!(Pwd::render("/tmp"), "/tmp\n");
}

#[test]
fn status_normalization() {
    assert_eq!(BuiltinExitStatus::new_success().code(), Some(0));
    assert!(BuiltinExitStatus::new_success().success());
    assert!(!BuiltinExitStatus::new_success().failure());
    assert_eq!(BuiltinExitStatus::new_failure().code(), Some(1));
    assert!(BuiltinExitStatus::new_failure().failure());
    let signaled = VashExitStatus::Process(OsExitStatus { code: None });
    assert!(!signaled.success());
    assert_eq!(signaled.code(), None);
    let builtin = VashExitStatus::Builtin(BuiltinExitStatus::new_success());
    assert!(builtin.success());
    assert_eq!(builtin.code(), Some(0));
}

#[test]
fn machine_state_is_inspectable() {
    let m = ExecMachine::new(ExecutionPlan::NoOp);
    assert_eq!(m.ctrl, Ctrl::Eval(ExecutionPlan::NoOp));
    assert!(m.stack.is_empty());
}
