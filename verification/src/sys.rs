//! The operating system's trace facility, as far as the debugger core needs it.
//!
//! Everything in this module that touches the kernel is a thin call into the
//! `nix` crate. Nothing is proved of those calls: each one carries the contract
//! that the rest of the library relies on, and says so in its documentation.
use nix::errno::Errno;
use nix::sys::ptrace;
use nix::sys::signal::{kill, Signal};
use nix::sys::wait::{waitpid, WaitPidFlag, WaitStatus};
use nix::unistd::Pid;
use vstd::prelude::*;

verus! {

/// Flags for a wait, passed through to the kernel untouched.
#[verifier::external_type_specification]
#[verifier::external_body]
pub struct ExWaitPidFlag(WaitPidFlag);

/// The error that a system call reports.
#[verifier::external_type_specification]
#[verifier::external_body]
pub struct ExOsError(nix::Error);

/// Number of the trap signal, which halts a traced process at a controlled point.
pub const SIGTRAP: i32 = 5;

/// Number of the kill signal, which no process can catch or ignore.
pub const SIGKILL: i32 = 9;

/// Whether `signal` is the number of a signal that can be sent.
pub open spec fn is_signal(signal: i32) -> bool {
    0 < signal < 32
}

/// Whether `pid` names one single process.
///
/// Zero and the negative numbers address groups of processes in the wait and
/// kill system calls; this library never passes them on.
pub open spec fn is_process_id(pid: i32) -> bool {
    pid > 0
}

/// A state change of a child process, as a wait reports it.
///
/// Signals are given by number.
#[derive(Debug, Clone, Copy, PartialEq, Eq)]
pub enum WaitEvent {
    /// The process exited normally, with this exit code.
    Exited(i32),
    /// The process was killed by this signal; the flag tells of a core dump.
    Signaled(i32, bool),
    /// The process is alive and was stopped by this signal.
    Stopped(i32),
    /// The process was stopped by a trace event, with this signal and event number.
    PtraceEvent(i32, i32),
    /// The process was stopped at a system call.
    PtraceSyscall,
    /// The process resumed after a stop.
    Continued,
    /// Nothing has changed; seen only in a wait that does not block.
    StillAlive,
}

/// Waits for a state change of process `pid`, by `nix::sys::wait::waitpid`.
///
/// Trusted. The contract promises nothing about the outcome, which is the
/// kernel's to decide: callers must be correct for every event and every error.
/// The body only renames the variants of `nix`'s `WaitStatus` and replaces each
/// signal by its number. `nix` decodes the raw status word and asserts that it
/// has one of the four shapes that the kernel produces.
#[verifier::external_body]
pub(crate) fn wait_for(pid: i32, options: Option<WaitPidFlag>) -> (r: Result<
    WaitEvent,
    nix::Error,
>)
    requires
        is_process_id(pid),
{
    Ok(match waitpid(Pid::from_raw(pid), options)? {
        WaitStatus::Exited(_, code) => WaitEvent::Exited(code),
        WaitStatus::Signaled(_, signal, core) => WaitEvent::Signaled(signal as i32, core),
        WaitStatus::Stopped(_, signal) => WaitEvent::Stopped(signal as i32),
        WaitStatus::PtraceEvent(_, signal, event) => WaitEvent::PtraceEvent(signal as i32, event),
        WaitStatus::PtraceSyscall(_) => WaitEvent::PtraceSyscall,
        WaitStatus::Continued(_) => WaitEvent::Continued,
        WaitStatus::StillAlive => WaitEvent::StillAlive,
    })
}

/// Tells whether `error` is the kernel's answer that the caller has no such
/// child, by comparing it with `nix::Error::Sys(Errno::ECHILD)`.
///
/// Trusted. An error value is opaque to the verifier, so nothing is promised of
/// the answer.
#[verifier::external_body]
pub(crate) fn is_no_child(error: &nix::Error) -> (b: bool) {
    *error == nix::Error::Sys(Errno::ECHILD)
}

/// Reads the instruction pointer of the stopped, traced process `pid`, by
/// `nix::sys::ptrace::getregs`.
///
/// Trusted. Nothing is promised of the value: it is whatever the kernel holds
/// in the register `rip`. The kernel refuses the request, with an error, unless
/// the process is stopped under trace.
#[verifier::external_body]
pub(crate) fn read_pc(pid: i32) -> (r: Result<usize, nix::Error>)
    requires
        is_process_id(pid),
{
    ptrace::getregs(Pid::from_raw(pid)).map(|regs| regs.rip as usize)
}

/// Resumes the stopped, traced process `pid` without handing it a signal, by
/// `nix::sys::ptrace::cont`.
///
/// Trusted. Nothing is promised of the outcome.
#[verifier::external_body]
pub(crate) fn resume(pid: i32) -> (r: Result<(), nix::Error>)
    requires
        is_process_id(pid),
{
    ptrace::cont(Pid::from_raw(pid), None)
}

/// Asks the kernel to let the parent trace the calling process, by
/// `nix::sys::ptrace::traceme`.
///
/// Trusted. Nothing is promised of the outcome.
#[verifier::external_body]
pub(crate) fn trace_me() -> (r: Result<(), nix::Error>) {
    ptrace::traceme()
}

/// Sends the signal numbered `signal` to process `pid`, by
/// `nix::sys::signal::kill`.
///
/// Trusted. Nothing is promised of the outcome. The number is first turned into
/// `nix`'s `Signal`, which `nix` accepts for every number that `is_signal`
/// admits.
#[verifier::external_body]
pub(crate) fn send_signal(pid: i32, signal: i32) -> (r: Result<(), nix::Error>)
    requires
        is_process_id(pid),
        is_signal(signal),
{
    match Signal::try_from(signal) {
        Ok(signal) => kill(Pid::from_raw(pid), signal),
        Err(error) => Err(error),
    }
}

} // verus!
