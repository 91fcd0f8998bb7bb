use deet::inferior::{
    child_traceme, first_stop, reap, stopped_status, trace_request_result, FirstStop, Inferior,
    Reap, State, Status, Step, TraceError, REAP_ATTEMPTS,
};
use deet::sys::{WaitEvent, SIGKILL, SIGTRAP};
use nix::errno::Errno;
use nix::sys::signal::{kill, raise, Signal};
use nix::sys::wait::{waitpid, WaitPidFlag};
use nix::unistd::{daemon, fork, getpid, ForkResult, Pid};

/// How a child made by `launch` ends.
#[derive(Clone, Copy, PartialEq)]
enum End {
    /// It exits with code 0.
    Exit,
    /// It is killed by the kill signal.
    Kill,
}

/// Forks a child that asks to be traced, sends itself each of `signals` in
/// turn, and then ends as `end` says. Returns the child's process identifier.
///
/// The signals are sent by `kill` and by `raise` in turn, so that the child
/// stands at another instruction in each of two stops that follow each other.
///
/// To exit, the child calls `daemon`: the process that calls it exits with code
/// 0, and what runs on is a process of its own, which kills itself.
fn launch(signals: &[Signal], end: End) -> i32 {
    match fork().expect("fork failed") {
        ForkResult::Parent { child } => child.as_raw(),
        ForkResult::Child => {
            if child_traceme().is_ok() {
                for (i, signal) in signals.iter().enumerate() {
                    let _ = if i % 2 == 0 { kill(getpid(), *signal) } else { raise(*signal) };
                }
            }
            if end == End::Exit {
                let _ = daemon(true, true);
            }
            loop {
                let _ = kill(getpid(), Signal::SIGKILL);
            }
        }
    }
}

#[test]
fn signal_numbers_are_those_of_the_system() {
    assert_eq!(SIGTRAP, Signal::SIGTRAP as i32);
    assert_eq!(SIGKILL, Signal::SIGKILL as i32);
}

#[test]
fn new_refuses_an_identifier_that_is_not_positive() {
    assert_eq!(Inferior::new(0).err(), Some(TraceError::Spawn));
    assert_eq!(Inferior::new(-1).err(), Some(TraceError::Spawn));
    assert_eq!(Inferior::new(i32::MIN).err(), Some(TraceError::Spawn));
}

#[test]
fn new_child_is_stopped_at_entry() {
    let pid = launch(&[Signal::SIGTRAP], End::Kill);
    let mut inferior = Inferior::new(pid).expect("the child stops on the trap signal");
    assert_eq!(inferior.pid(), pid);
    assert_eq!(inferior.state(), State::Stopped);
    assert_eq!(inferior.kill(), Ok(()));
}

#[test]
fn cont_reports_exit_code() {
    let pid = launch(&[Signal::SIGTRAP], End::Exit);
    let mut inferior = Inferior::new(pid).unwrap();
    assert_eq!(inferior.cont(), Ok(Status::Exited(0)));
    assert_eq!(inferior.state(), State::Exited);
    assert_eq!(inferior.cont(), Err(TraceError::InvalidState(State::Exited)));
    assert_eq!(inferior.wait(None), Err(TraceError::InvalidState(State::Exited)));
    assert_eq!(inferior.state(), State::Exited);
    assert_eq!(inferior.pid(), pid);
}

#[test]
fn cont_reports_fatal_signal() {
    let pid = launch(&[Signal::SIGTRAP], End::Kill);
    let mut inferior = Inferior::new(pid).unwrap();
    assert_eq!(inferior.cont(), Ok(Status::Signaled(Signal::SIGKILL as i32)));
    assert_eq!(inferior.state(), State::Signaled);
    assert_eq!(inferior.cont(), Err(TraceError::InvalidState(State::Signaled)));
    assert_eq!(inferior.wait(None), Err(TraceError::InvalidState(State::Signaled)));
    assert_eq!(inferior.pid(), pid);
}

#[test]
fn cont_reports_next_stop_with_instruction_pointer() {
    let pid = launch(&[Signal::SIGTRAP, Signal::SIGUSR1, Signal::SIGTRAP], End::Exit);
    let mut inferior = Inferior::new(pid).unwrap();
    let first_pc = match inferior.cont() {
        Ok(Status::Stopped(signal, pc)) => {
            assert_eq!(signal, Signal::SIGUSR1 as i32);
            assert_ne!(pc, 0);
            pc
        }
        other => panic!("expected a stop, got {:?}", other),
    };
    assert_eq!(inferior.state(), State::Stopped);
    assert_eq!(inferior.pid(), pid);
    match inferior.cont() {
        Ok(Status::Stopped(signal, pc)) => {
            assert_eq!(signal, SIGTRAP);
            assert_ne!(pc, 0);
            assert_ne!(pc, first_pc);
        }
        other => panic!("expected a stop, got {:?}", other),
    }
    assert_eq!(inferior.cont(), Ok(Status::Exited(0)));
    assert_eq!(inferior.pid(), pid);
}

#[test]
fn wait_without_a_change_is_an_internal_status() {
    let pid = launch(&[Signal::SIGTRAP], End::Kill);
    let mut inferior = Inferior::new(pid).unwrap();
    assert_eq!(
        inferior.wait(Some(WaitPidFlag::WNOHANG)),
        Err(TraceError::InternalStatus(WaitEvent::StillAlive))
    );
    assert_eq!(inferior.state(), State::Stopped);
    assert_eq!(inferior.kill(), Ok(()));
}

#[test]
fn unexpected_first_stop_leaves_no_child_behind() {
    let pid = launch(&[Signal::SIGUSR2, Signal::SIGTRAP], End::Kill);
    assert_eq!(
        Inferior::new(pid).err(),
        Some(TraceError::UnexpectedStop(WaitEvent::Stopped(Signal::SIGUSR2 as i32)))
    );
    assert_eq!(waitpid(Pid::from_raw(pid), None), Err(nix::Error::Sys(Errno::ECHILD)));
}

#[test]
fn child_that_exits_before_its_first_stop_is_refused() {
    let pid = launch(&[], End::Exit);
    assert_eq!(
        Inferior::new(pid).err(),
        Some(TraceError::UnexpectedStop(WaitEvent::Exited(0)))
    );
    assert_eq!(waitpid(Pid::from_raw(pid), None), Err(nix::Error::Sys(Errno::ECHILD)));
}

#[test]
fn failed_first_wait_is_a_wait_error() {
    let pid = launch(&[], End::Exit);
    assert!(waitpid(Pid::from_raw(pid), None).is_ok());
    assert_eq!(
        Inferior::new(pid).err(),
        Some(TraceError::Wait(nix::Error::Sys(Errno::ECHILD)))
    );
}

#[test]
fn process_that_is_no_child_is_left_alone() {
    let own = getpid().as_raw();
    assert_eq!(
        Inferior::new(own).err(),
        Some(TraceError::Wait(nix::Error::Sys(Errno::ECHILD)))
    );
}

#[test]
fn kill_ends_a_stopped_process() {
    let pid = launch(&[Signal::SIGTRAP], End::Exit);
    let mut inferior = Inferior::new(pid).unwrap();
    assert_eq!(inferior.kill(), Ok(()));
    assert_eq!(inferior.state(), State::Signaled);
    assert_eq!(inferior.kill(), Ok(()));
    assert_eq!(inferior.state(), State::Signaled);
    assert_eq!(inferior.cont(), Err(TraceError::InvalidState(State::Signaled)));
    assert_eq!(waitpid(Pid::from_raw(pid), None), Err(nix::Error::Sys(Errno::ECHILD)));
}

#[test]
fn step_reports_terminations_and_asks_for_the_pc_of_a_stop() {
    assert_eq!(WaitEvent::Exited(0).step(), Step::Done(Ok(Status::Exited(0))));
    assert_eq!(WaitEvent::Exited(-3).step(), Step::Done(Ok(Status::Exited(-3))));
    assert_eq!(WaitEvent::Signaled(4, true).step(), Step::Done(Ok(Status::Signaled(4))));
    assert_eq!(WaitEvent::Signaled(11, false).step(), Step::Done(Ok(Status::Signaled(11))));
    assert_eq!(WaitEvent::Stopped(5).step(), Step::ReadPc(5));
    assert_eq!(WaitEvent::Stopped(19).step(), Step::ReadPc(19));
    for event in [
        WaitEvent::PtraceEvent(5, 4),
        WaitEvent::PtraceSyscall,
        WaitEvent::Continued,
        WaitEvent::StillAlive,
    ] {
        assert_eq!(event.step(), Step::Done(Err(TraceError::InternalStatus(event))));
    }
}

#[test]
fn next_state_follows_stops_and_terminations() {
    for before in [State::Stopped, State::Running, State::Exited, State::Signaled] {
        assert_eq!(WaitEvent::Exited(1).next_state(before), State::Exited);
        assert_eq!(WaitEvent::Signaled(9, false).next_state(before), State::Signaled);
        assert_eq!(WaitEvent::Stopped(5).next_state(before), State::Stopped);
        assert_eq!(WaitEvent::PtraceEvent(5, 4).next_state(before), before);
        assert_eq!(WaitEvent::PtraceSyscall.next_state(before), before);
        assert_eq!(WaitEvent::Continued.next_state(before), before);
        assert_eq!(WaitEvent::StillAlive.next_state(before), before);
    }
}

#[test]
fn stopped_status_holds_signal_and_pc_or_the_error() {
    assert_eq!(stopped_status(5, Ok(0x401000)), Ok(Status::Stopped(5, 0x401000)));
    assert_eq!(stopped_status(11, Ok(0)), Ok(Status::Stopped(11, 0)));
    let error = nix::Error::Sys(Errno::ESRCH);
    assert_eq!(stopped_status(5, Err(error)), Err(TraceError::Wait(error)));
}

#[test]
fn first_stop_accepts_only_a_trap() {
    assert_eq!(first_stop(Ok(WaitEvent::Stopped(SIGTRAP)), false), FirstStop::Entry);
    assert_eq!(first_stop(Ok(WaitEvent::PtraceEvent(SIGTRAP, 4)), false), FirstStop::Entry);
    assert_eq!(first_stop(Ok(WaitEvent::PtraceEvent(SIGTRAP, 0)), true), FirstStop::Entry);
    for event in [
        WaitEvent::Stopped(19),
        WaitEvent::Stopped(11),
        WaitEvent::PtraceEvent(19, 4),
        WaitEvent::PtraceSyscall,
        WaitEvent::Continued,
        WaitEvent::StillAlive,
    ] {
        assert_eq!(
            first_stop(Ok(event), false),
            FirstStop::Stray(TraceError::UnexpectedStop(event))
        );
        assert_eq!(first_stop(Ok(event), true), FirstStop::Stray(TraceError::UnexpectedStop(event)));
    }
    for event in [WaitEvent::Exited(0), WaitEvent::Exited(1), WaitEvent::Signaled(SIGTRAP, false)] {
        assert_eq!(first_stop(Ok(event), false), FirstStop::Gone(TraceError::UnexpectedStop(event)));
    }
    let error = nix::Error::Sys(Errno::EINTR);
    assert_eq!(first_stop(Err(error), false), FirstStop::Stray(TraceError::Wait(error)));
    let error = nix::Error::Sys(Errno::ECHILD);
    assert_eq!(first_stop(Err(error), true), FirstStop::Gone(TraceError::Wait(error)));
}

#[test]
fn state_and_status_agree() {
    assert_eq!(Status::Stopped(5, 1).state(), State::Stopped);
    assert_eq!(Status::Exited(0).state(), State::Exited);
    assert_eq!(Status::Signaled(9).state(), State::Signaled);
    assert!(!State::Stopped.is_terminal());
    assert!(!State::Running.is_terminal());
    assert!(State::Exited.is_terminal());
    assert!(State::Signaled.is_terminal());
}

#[test]
fn pid_is_stable_over_the_life_of_the_process() {
    let pid = launch(&[Signal::SIGTRAP, Signal::SIGUSR1], End::Kill);
    let mut inferior = Inferior::new(pid).unwrap();
    assert_eq!(inferior.pid(), pid);
    assert_eq!(inferior.pid(), inferior.pid());
    assert!(matches!(inferior.cont(), Ok(Status::Stopped(_, _))));
    assert_eq!(inferior.pid(), pid);
    assert_eq!(inferior.cont(), Ok(Status::Signaled(SIGKILL)));
    assert_eq!(inferior.pid(), pid);
    assert_eq!(inferior.kill(), Ok(()));
    assert_eq!(inferior.pid(), pid);
}

#[test]
fn child_traceme_is_granted_to_a_fresh_child() {
    let pid = launch(&[Signal::SIGTRAP], End::Kill);
    let mut inferior = Inferior::new(pid).expect("the child was allowed to ask for a trace");
    assert_eq!(inferior.kill(), Ok(()));
}

#[test]
fn reap_ends_on_a_termination_or_an_error() {
    assert_eq!(reap(Ok(WaitEvent::Exited(0))), Reap::Done(Ok(WaitEvent::Exited(0))));
    assert_eq!(reap(Ok(WaitEvent::Exited(3))), Reap::Done(Ok(WaitEvent::Exited(3))));
    assert_eq!(
        reap(Ok(WaitEvent::Signaled(SIGKILL, false))),
        Reap::Done(Ok(WaitEvent::Signaled(SIGKILL, false)))
    );
    let error = nix::Error::Sys(Errno::ECHILD);
    assert_eq!(reap(Err(error)), Reap::Done(Err(TraceError::Wait(error))));
}

#[test]
fn reap_asks_again_after_any_other_event() {
    for event in [
        WaitEvent::Stopped(SIGTRAP),
        WaitEvent::Stopped(19),
        WaitEvent::PtraceEvent(SIGTRAP, 4),
        WaitEvent::PtraceSyscall,
        WaitEvent::Continued,
        WaitEvent::StillAlive,
    ] {
        assert_eq!(reap(Ok(event)), Reap::Again(event));
    }
    assert_eq!(REAP_ATTEMPTS, 8);
}

#[test]
fn refused_trace_request_is_a_spawn_error() {
    assert_eq!(trace_request_result(Ok(())), Ok(()));
    assert_eq!(trace_request_result(Err(nix::Error::Sys(Errno::EPERM))), Err(TraceError::Spawn));
    assert_eq!(trace_request_result(Err(nix::Error::InvalidPath)), Err(TraceError::Spawn));
}

#[test]
fn second_trace_request_is_refused() {
    match nix::unistd::fork().expect("fork failed") {
        nix::unistd::ForkResult::Parent { child } => {
            let mut inferior = Inferior::new(child.as_raw()).unwrap();
            assert_eq!(inferior.cont(), Ok(Status::Signaled(SIGKILL)));
        }
        nix::unistd::ForkResult::Child => {
            let first = child_traceme();
            let second = child_traceme();
            if first == Ok(()) && second == Err(TraceError::Spawn) {
                let _ = kill(getpid(), Signal::SIGTRAP);
            }
            loop {
                let _ = kill(getpid(), Signal::SIGKILL);
            }
        }
    }
}
