use runc_rs::command::{CommandLine, CommandOutcome};
use runc_rs::event::{action_succeeded, call_accepts, Action, Event, Fault};
use runc_rs::syscall::{BarrierEnd, Syscall};

fn exited(success: bool) -> Event {
    Event::Exited(CommandOutcome { success, stdout: String::new(), stderr: String::new() })
}

fn some_line() -> CommandLine {
    CommandLine::new("ip").arg("link")
}

#[test]
fn most_primitives_succeed_with_zero() {
    let calls = [
        Syscall::Pipe,
        Syscall::Unshare { namespaces: 0x2000_0000 },
        Syscall::CloseBarrier { end: BarrierEnd::Read },
        Syscall::Mkdir { path: "/m".to_string(), mode: 0o755 },
        Syscall::Chdir { path: "/".to_string() },
        Syscall::Unmount { target: "/m".to_string(), options: 2 },
        Syscall::Rmdir { path: "/m".to_string() },
        Syscall::PivotRoot { new_root: "/r".to_string(), put_old: "/r/o".to_string() },
    ];
    for call in &calls {
        assert!(call_accepts(call, 0));
        assert!(!call_accepts(call, -1));
        assert!(!call_accepts(call, 1));
    }
}

#[test]
fn a_fork_succeeds_with_any_process_id() {
    assert!(call_accepts(&Syscall::Fork, 0));
    assert!(call_accepts(&Syscall::Fork, 1));
    assert!(call_accepts(&Syscall::Fork, i32::MAX as i64));
    assert!(!call_accepts(&Syscall::Fork, -1));
    assert!(!call_accepts(&Syscall::Fork, i32::MAX as i64 + 1));
}

#[test]
fn the_barrier_succeeds_with_one_byte() {
    for call in [Syscall::SignalBarrier, Syscall::AwaitBarrier] {
        assert!(call_accepts(&call, 1));
        assert!(!call_accepts(&call, 0));
        assert!(!call_accepts(&call, -1));
        assert!(!call_accepts(&call, 2));
    }
}

#[test]
fn the_wait_is_done_with_any_value() {
    let wait = Syscall::Wait { pid: 7 };
    assert!(call_accepts(&wait, 7));
    assert!(call_accepts(&wait, 0));
    assert!(call_accepts(&wait, -1));
}

#[test]
fn an_exec_that_returns_has_failed() {
    let exec = Syscall::Exec { program: "/bin/true".to_string(), argv: Vec::new() };
    assert!(!call_accepts(&exec, 0));
    assert!(!call_accepts(&exec, -1));
}

#[test]
fn a_command_succeeds_when_it_exits_well() {
    let run = Action::Run(some_line());
    assert!(action_succeeded(&run, &exited(true)));
    assert!(!action_succeeded(&run, &exited(false)));
    assert!(!action_succeeded(&run, &Event::Returned(0)));
    assert!(!action_succeeded(&run, &Event::NotStarted("no such file".to_string())));
}

#[test]
fn a_primitive_needs_a_returned_value() {
    let call = Action::Call(Syscall::Pipe);
    assert!(action_succeeded(&call, &Event::Returned(0)));
    assert!(!action_succeeded(&call, &Event::Returned(-1)));
    assert!(!action_succeeded(&call, &exited(true)));
    assert!(!action_succeeded(&call, &Event::NotStarted(String::new())));
}

#[test]
fn only_cleanup_faults_are_not_fatal() {
    assert!(Fault::Setup(Syscall::Pipe).is_fatal());
    assert!(Fault::Backend(some_line(), String::new()).is_fatal());
    assert!(Fault::Exec(Syscall::Fork).is_fatal());
    assert!(!Fault::Cleanup(Syscall::Rmdir { path: "/m".to_string() }).is_fatal());
}

#[test]
fn messages_describe_the_failed_step() {
    assert_eq!(Fault::Setup(Syscall::Pipe).message(), "setup fault: pipe");
    assert_eq!(
        Fault::Setup(Syscall::Unshare { namespaces: 0 }).message(),
        "setup fault: unshare"
    );
    assert_eq!(
        Fault::Backend(some_line(), "Cannot find device \"x\"\n".to_string()).message(),
        "Cannot find device \"x\"\n"
    );
    assert_eq!(
        Fault::Exec(Syscall::Exec { program: "/bin/true".to_string(), argv: Vec::new() }).message(),
        "exec fault: execve"
    );
    assert_eq!(
        Fault::Cleanup(Syscall::Unmount { target: "/r".to_string(), options: 0 }).message(),
        "cleanup fault: umount2"
    );
}
