//! A process under trace control: the debugger's view of the program it runs.
//!
//! An [`Inferior`] is made from a child process that was launched with a
//! request to be traced. From then on the process runs only between a call of
//! [`Inferior::cont`] and the wait inside it; at every other moment it is
//! halted, or gone. The library keeps the last state it has seen and refuses
//! the operations that the state does not allow.
use crate::sys::{
    is_no_child, is_process_id, read_pc, resume, send_signal, trace_me, wait_for, WaitEvent,
    SIGKILL, SIGTRAP,
};
use nix::sys::wait::WaitPidFlag;
use vstd::prelude::*;

verus! {

/// What a wait has found out about the traced process.
#[derive(Debug, Clone, Copy, PartialEq, Eq)]
pub enum Status {
    /// The process is halted. Holds the number of the signal that stopped it and
    /// the instruction pointer at which it stands.
    Stopped(i32, usize),
    /// The process exited normally. Holds the exit code.
    Exited(i32),
    /// The process was killed by a signal. Holds the signal's number.
    Signaled(i32),
}

/// The last state of the traced process that the controller has seen.
#[derive(Debug, Clone, Copy, PartialEq, Eq)]
pub enum State {
    /// Halted and alive: it can be resumed.
    Stopped,
    /// Resumed, and no wait has reported on it since.
    Running,
    /// Terminated normally.
    Exited,
    /// Terminated by a signal.
    Signaled,
}

/// Why an operation on a traced process failed.
#[derive(Debug, Clone, Copy, PartialEq, Eq)]
pub enum TraceError {
    /// No process was created, or the child could not ask to be traced.
    Spawn,
    /// The first wait on a new child reported something other than a stop at
    /// the entry of the program. Holds what it reported.
    UnexpectedStop(WaitEvent),
    /// The operating system refused a wait, a resume or a register read.
    Wait(nix::Error),
    /// A wait reported an event that is neither a stop nor a termination.
    InternalStatus(WaitEvent),
    /// The operation is not allowed in the state that the process is in.
    InvalidState(State),
}

/// What the controller does once a wait has returned an event.
#[derive(Debug, Clone, Copy, PartialEq, Eq)]
pub enum Step {
    /// Nothing more is to be done: this is the result of the wait.
    Done(Result<Status, TraceError>),
    /// The process has stopped on this signal: its instruction pointer is to
    /// be read.
    ReadPc(i32),
}

/// What the first wait on a new child means for it.
#[derive(Debug, Clone, Copy, PartialEq, Eq)]
pub enum FirstStop {
    /// The child stands at the entry of its program, ready to be traced.
    Entry,
    /// There is no child to care for: it has terminated and the wait has reaped
    /// it, or the kernel knows no such child. Holds the error to report.
    Gone(TraceError),
    /// The child may be alive: it is to be killed and reaped. Holds the error to
    /// report.
    Stray(TraceError),
}

impl State {
    /// Whether the process has terminated.
    pub open spec fn spec_is_terminal(self) -> bool {
        self is Exited || self is Signaled
    }

    /// Whether the process has terminated.
    #[verifier::when_used_as_spec(spec_is_terminal)]
    pub fn is_terminal(self) -> (b: bool)
        ensures
            b == self.spec_is_terminal(),
    {
        match self {
            State::Exited | State::Signaled => true,
            State::Stopped | State::Running => false,
        }
    }
}

impl Status {
    /// The state of a process of which a wait has reported this status.
    pub open spec fn spec_state(self) -> State {
        match self {
            Status::Stopped(_, _) => State::Stopped,
            Status::Exited(_) => State::Exited,
            Status::Signaled(_) => State::Signaled,
        }
    }

    /// The state of a process of which a wait has reported this status.
    #[verifier::when_used_as_spec(spec_state)]
    pub fn state(self) -> (s: State)
        ensures
            s == self.spec_state(),
    {
        match self {
            Status::Stopped(_, _) => State::Stopped,
            Status::Exited(_) => State::Exited,
            Status::Signaled(_) => State::Signaled,
        }
    }
}

impl WaitEvent {
    /// Whether the event is one of the two shapes in which the kernel reports
    /// that a traced child has loaded its program and stands at its entry: a
    /// stop on the trap signal, plain or tagged as a trace event.
    pub open spec fn is_entry_stop(self) -> bool {
        match self {
            WaitEvent::Stopped(signal) => signal == SIGTRAP,
            WaitEvent::PtraceEvent(signal, _) => signal == SIGTRAP,
            _ => false,
        }
    }

    /// Whether the event says that the process has terminated.
    pub open spec fn is_termination(self) -> bool {
        self is Exited || self is Signaled
    }

    /// Whether the event is one that a wait reports as a [`Status`].
    pub open spec fn is_reportable(self) -> bool {
        self is Exited || self is Signaled || self is Stopped
    }

    /// The state of the process after this event, if it was in `before`.
    ///
    /// A stop or a termination sets the state; any other event leaves it.
    pub open spec fn spec_next_state(self, before: State) -> State {
        match self {
            WaitEvent::Exited(_) => State::Exited,
            WaitEvent::Signaled(_, _) => State::Signaled,
            WaitEvent::Stopped(_) => State::Stopped,
            _ => before,
        }
    }

    /// What the controller does after this event.
    pub open spec fn spec_step(self) -> Step {
        match self {
            WaitEvent::Exited(code) => Step::Done(Ok(Status::Exited(code))),
            WaitEvent::Signaled(signal, _) => Step::Done(Ok(Status::Signaled(signal))),
            WaitEvent::Stopped(signal) => Step::ReadPc(signal),
            _ => Step::Done(Err(TraceError::InternalStatus(self))),
        }
    }

    /// The state of the process after this event, if it was in `before`.
    #[verifier::when_used_as_spec(spec_next_state)]
    pub fn next_state(self, before: State) -> (after: State)
        ensures
            after == self.spec_next_state(before),
    {
        match self {
            WaitEvent::Exited(_) => State::Exited,
            WaitEvent::Signaled(_, _) => State::Signaled,
            WaitEvent::Stopped(_) => State::Stopped,
            _ => before,
        }
    }

    /// Decides what follows a wait that returned this event.
    ///
    /// A termination is reported as it is. A stop asks for the instruction
    /// pointer, and nothing else does: the registers of a process can be read
    /// only while it is halted. Every other event is an error.
    #[verifier::when_used_as_spec(spec_step)]
    pub fn step(self) -> (s: Step)
        ensures
            s == self.spec_step(),
    {
        match self {
            WaitEvent::Exited(code) => Step::Done(Ok(Status::Exited(code))),
            WaitEvent::Signaled(signal, _) => Step::Done(Ok(Status::Signaled(signal))),
            WaitEvent::Stopped(signal) => Step::ReadPc(signal),
            _ => Step::Done(Err(TraceError::InternalStatus(self))),
        }
    }
}

/// The result of a wait that found the process stopped on `signal`, given the
/// outcome of reading its instruction pointer.
pub open spec fn spec_stopped_status(signal: i32, pc: Result<usize, nix::Error>) -> Result<
    Status,
    TraceError,
> {
    match pc {
        Ok(pc) => Ok(Status::Stopped(signal, pc)),
        Err(e) => Err(TraceError::Wait(e)),
    }
}

/// Forms the result of a wait that found the process stopped on `signal`, given
/// the outcome of reading its instruction pointer.
#[verifier::when_used_as_spec(spec_stopped_status)]
pub fn stopped_status(signal: i32, pc: Result<usize, nix::Error>) -> (r: Result<Status, TraceError>)
    ensures
        r == spec_stopped_status(signal, pc),
{
    match pc {
        Ok(pc) => Ok(Status::Stopped(signal, pc)),
        Err(e) => Err(TraceError::Wait(e)),
    }
}

/// What the outcome `first` of the first wait on a new child means for it.
/// Where the wait has failed, `no_child` tells whether it failed because the
/// kernel knows no such child of the caller.
pub open spec fn spec_first_stop(first: Result<WaitEvent, nix::Error>, no_child: bool) -> FirstStop {
    match first {
        Ok(event) => if event.is_entry_stop() {
            FirstStop::Entry
        } else if event.is_termination() {
            FirstStop::Gone(TraceError::UnexpectedStop(event))
        } else {
            FirstStop::Stray(TraceError::UnexpectedStop(event))
        },
        Err(e) => if no_child {
            FirstStop::Gone(TraceError::Wait(e))
        } else {
            FirstStop::Stray(TraceError::Wait(e))
        },
    }
}

/// Judges the outcome of the first wait on a new child. Where the wait has
/// failed, `no_child` tells whether it failed because the kernel knows no such
/// child of the caller.
///
/// Only a stop on the trap signal, plain or tagged as a trace event, makes the
/// child ready. After anything else the child is given up. It is then killed
/// and reaped, also where the wait itself failed, with two exceptions: a child
/// that the wait has seen terminate is reaped already, and a process that is no
/// child of the caller is not the caller's to kill.
#[verifier::when_used_as_spec(spec_first_stop)]
pub fn first_stop(first: Result<WaitEvent, nix::Error>, no_child: bool) -> (v: FirstStop)
    ensures
        v == spec_first_stop(first, no_child),
{
    match first {
        Ok(WaitEvent::Stopped(signal)) => if signal == SIGTRAP {
            FirstStop::Entry
        } else {
            FirstStop::Stray(TraceError::UnexpectedStop(WaitEvent::Stopped(signal)))
        },
        Ok(WaitEvent::PtraceEvent(signal, event)) => if signal == SIGTRAP {
            FirstStop::Entry
        } else {
            FirstStop::Stray(TraceError::UnexpectedStop(WaitEvent::PtraceEvent(signal, event)))
        },
        Ok(WaitEvent::Exited(code)) => FirstStop::Gone(
            TraceError::UnexpectedStop(WaitEvent::Exited(code)),
        ),
        Ok(WaitEvent::Signaled(signal, core)) => FirstStop::Gone(
            TraceError::UnexpectedStop(WaitEvent::Signaled(signal, core)),
        ),
        Ok(event) => FirstStop::Stray(TraceError::UnexpectedStop(event)),
        Err(e) => if no_child {
            FirstStop::Gone(TraceError::Wait(e))
        } else {
            FirstStop::Stray(TraceError::Wait(e))
        },
    }
}

/// The result of a wait on a process in state `before`, and the state after it,
/// given what the kernel answered: `waited` to the wait, and `pc` to the reading
/// of the instruction pointer, which is made after a stop only.
pub open spec fn wait_outcome(
    before: State,
    waited: Result<WaitEvent, nix::Error>,
    pc: Result<usize, nix::Error>,
) -> (Result<Status, TraceError>, State) {
    match waited {
        Err(e) => (Err(TraceError::Wait(e)), before),
        Ok(event) => (
            match event.spec_step() {
                Step::Done(result) => result,
                Step::ReadPc(signal) => spec_stopped_status(signal, pc),
            },
            event.spec_next_state(before),
        ),
    }
}

/// The result of resuming a stopped process and waiting for it, and the state
/// after it, given what the kernel answered: `resumed` to the request to resume,
/// and `waited` and `pc` as in `wait_outcome`.
pub open spec fn cont_outcome(
    resumed: Result<(), nix::Error>,
    waited: Result<WaitEvent, nix::Error>,
    pc: Result<usize, nix::Error>,
) -> (Result<Status, TraceError>, State) {
    match resumed {
        Err(e) => (Err(TraceError::Wait(e)), State::Stopped),
        Ok(_) => wait_outcome(State::Running, waited, pc),
    }
}

/// A child is accepted only in a stop on the trap signal: the wait has
/// succeeded, and what it reported is neither an exit nor a death by signal.
pub proof fn lemma_entry_is_live_stop(first: Result<WaitEvent, nix::Error>, no_child: bool)
    requires
        spec_first_stop(first, no_child) is Entry,
    ensures
        first matches Ok(event) && event.is_entry_stop() && !event.is_termination(),
{
}

/// The status that a wait reports and the state that it leaves agree: whatever
/// the event, the state before and the outcome of reading the instruction
/// pointer.
pub proof fn lemma_status_agrees_with_state(
    event: WaitEvent,
    before: State,
    pc: Result<usize, nix::Error>,
    status: Status,
)
    requires
        match event.spec_step() {
            Step::Done(result) => result == Ok::<Status, TraceError>(status),
            Step::ReadPc(signal) => spec_stopped_status(signal, pc) == Ok::<Status, TraceError>(
                status,
            ),
        },
    ensures
        event.spec_next_state(before) == status.spec_state(),
        event.is_reportable(),
{
}

/// An event that is no stop and no termination is never reported as a status,
/// and leaves the state as it was.
pub proof fn lemma_other_events_change_nothing(event: WaitEvent, before: State)
    requires
        !event.is_reportable(),
    ensures
        event.spec_step() == Step::Done(Err(TraceError::InternalStatus(event))),
        event.spec_next_state(before) == before,
{
}

/// The instruction pointer is asked for after a stop and after nothing else.
pub proof fn lemma_pc_is_read_only_after_stop(event: WaitEvent)
    ensures
        event.spec_step() is ReadPc <==> event is Stopped,
        event.spec_step() is ReadPc ==> event.spec_next_state(State::Running) == State::Stopped,
{
}

/// How many waits [`Inferior::kill`] makes for the end of a process that it has
/// sent the kill signal.
pub const REAP_ATTEMPTS: u32 = 8;

/// What one wait means that was made for the end of a process, after the kill
/// signal was sent to it.
#[derive(Debug, Clone, Copy, PartialEq, Eq)]
pub enum Reap {
    /// The reaping has ended, with this result: the event that reported the
    /// termination, or the error of the wait.
    Done(Result<WaitEvent, TraceError>),
    /// The process was not seen to terminate: another wait is due. Holds the
    /// event that was reported instead.
    Again(WaitEvent),
}

/// What the answer `waited` to one wait means for the reaping of a process.
pub open spec fn spec_reap(waited: Result<WaitEvent, nix::Error>) -> Reap {
    match waited {
        Err(e) => Reap::Done(Err(TraceError::Wait(e))),
        Ok(event) => if event.is_termination() {
            Reap::Done(Ok(event))
        } else {
            Reap::Again(event)
        },
    }
}

/// Judges the answer to one wait that was made for the end of a process.
///
/// An exit or a death by signal ends the reaping, and so does an error of the
/// wait. Any other event, such as a stop that was pending when the kill signal
/// was sent, asks for another wait.
#[verifier::when_used_as_spec(spec_reap)]
pub fn reap(waited: Result<WaitEvent, nix::Error>) -> (step: Reap)
    ensures
        step == spec_reap(waited),
{
    match waited {
        Err(e) => Reap::Done(Err(TraceError::Wait(e))),
        Ok(WaitEvent::Exited(code)) => Reap::Done(Ok(WaitEvent::Exited(code))),
        Ok(WaitEvent::Signaled(signal, core)) => Reap::Done(
            Ok(WaitEvent::Signaled(signal, core)),
        ),
        Ok(event) => Reap::Again(event),
    }
}

/// Whether `waits` can be the answers to the waits of one reaping, in the order
/// in which they were made: there is at least one and there are at most
/// `REAP_ATTEMPTS`, each but the last asked for another wait, and the last
/// ended the reaping unless all attempts were used.
pub open spec fn is_reaping(waits: Seq<Result<WaitEvent, nix::Error>>) -> bool {
    &&& 0 < waits.len() <= REAP_ATTEMPTS
    &&& forall|i: int| 0 <= i < waits.len() - 1 ==> spec_reap(#[trigger] waits[i]) is Again
    &&& (waits.len() == REAP_ATTEMPTS || spec_reap(waits.last()) is Done)
}

/// The result of killing and reaping a process, given what the kernel
/// answered: `killed` to the sending of the kill signal, and `waits` to the
/// waits that followed, in order.
///
/// Where the signal could not be sent, no wait is made and the error is the
/// result. Otherwise the last wait decides: the result is what ended the
/// reaping or, where every attempt was used in vain, an internal status error
/// that holds the last event.
pub open spec fn destroy_outcome(
    killed: Result<(), nix::Error>,
    waits: Seq<Result<WaitEvent, nix::Error>>,
) -> Result<WaitEvent, TraceError> {
    match killed {
        Err(e) => Err(TraceError::Wait(e)),
        Ok(_) => match spec_reap(waits.last()) {
            Reap::Done(result) => result,
            Reap::Again(event) => Err(TraceError::InternalStatus(event)),
        },
    }
}

/// Kills process `pid` and reaps it.
///
/// Sends the kill signal, then waits until a wait reports the termination, at
/// most `REAP_ATTEMPTS` times: a stop that was pending when the signal was sent
/// may be reported first. Returns the event that reported the termination, or
/// the reason why none was seen.
///
/// The result follows from the kernel's answers as `destroy_outcome` says. In
/// particular an `Ok` holds a termination, and an internal status error holds
/// an event that is none.
fn destroy(pid: i32) -> (r: Result<WaitEvent, TraceError>)
    requires
        is_process_id(pid),
    ensures
        exists|killed: Result<(), nix::Error>, waits: Seq<Result<WaitEvent, nix::Error>>|
            r == #[trigger] destroy_outcome(killed, waits) && (killed is Ok ==> is_reaping(waits)),
        match r {
            Ok(event) => event.is_termination(),
            Err(TraceError::Wait(_)) => true,
            Err(TraceError::InternalStatus(event)) => !event.is_termination(),
            Err(_) => false,
        },
{
    let killed = send_signal(pid, SIGKILL);
    if let Err(e) = killed {
        assert(destroy_outcome(killed, Seq::empty()) == Err::<WaitEvent, TraceError>(
            TraceError::Wait(e),
        ));
        return Err(TraceError::Wait(e));
    }
    let ghost mut waits: Seq<Result<WaitEvent, nix::Error>> = Seq::empty();
    let mut last = WaitEvent::StillAlive;
    let mut attempt: u32 = 0;
    while attempt < REAP_ATTEMPTS
        invariant
            is_process_id(pid),
            killed is Ok,
            attempt <= REAP_ATTEMPTS,
            waits.len() == attempt,
            forall|i: int| 0 <= i < waits.len() ==> spec_reap(#[trigger] waits[i]) is Again,
            attempt > 0 ==> spec_reap(waits.last()) == Reap::Again(last),
        decreases REAP_ATTEMPTS - attempt,
    {
        let waited = wait_for(pid, None);
        proof {
            waits = waits.push(waited);
        }
        match reap(waited) {
            Reap::Done(result) => {
                assert(is_reaping(waits));
                assert(destroy_outcome(killed, waits) == result);
                return result;
            },
            Reap::Again(event) => {
                last = event;
            },
        }
        attempt = attempt + 1;
    }
    assert(is_reaping(waits));
    assert(destroy_outcome(killed, waits) == Err::<WaitEvent, TraceError>(
        TraceError::InternalStatus(last),
    ));
    Err(TraceError::InternalStatus(last))
}

/// The result of the request to be traced, given the kernel's answer to it.
pub open spec fn spec_trace_request_result(answer: Result<(), nix::Error>) -> Result<
    (),
    TraceError,
> {
    match answer {
        Ok(_) => Ok(()),
        Err(_) => Err(TraceError::Spawn),
    }
}

/// Forms the result of the request to be traced from the kernel's answer to it:
/// a refusal, whatever its reason, is a failure to launch.
#[verifier::when_used_as_spec(spec_trace_request_result)]
pub fn trace_request_result(answer: Result<(), nix::Error>) -> (r: Result<(), TraceError>)
    ensures
        r == spec_trace_request_result(answer),
{
    match answer {
        Ok(()) => Ok(()),
        Err(_) => Err(TraceError::Spawn),
    }
}

/// Asks the kernel to have the calling process traced by its parent.
///
/// This is for the child, between its creation and the loading of the target
/// program, and for nothing else: once the request is granted the kernel stops
/// the child at the first instruction of the program it loads, and tells the
/// parent. Where the kernel refuses, the result is `TraceError::Spawn`, and the
/// child must not go on to load the program.
///
/// The request is made once, and the result follows from the kernel's answer as
/// `trace_request_result` says.
pub fn child_traceme() -> (r: Result<(), TraceError>)
    ensures
        exists|answer: Result<(), nix::Error>| r == #[trigger] spec_trace_request_result(answer),
        r is Ok || r == Err::<(), TraceError>(TraceError::Spawn),
{
    trace_request_result(trace_me())
}

/// One process under trace control.
///
/// The value stands for the process as long as it lives: it holds the process
/// identifier and the state in which the process was last seen.
#[derive(Debug)]
pub struct Inferior {
    pid: i32,
    state: State,
}

impl Inferior {
    /// The identifier names one single process, never a group.
    #[verifier::type_invariant]
    spec fn well_formed(self) -> bool {
        is_process_id(self.pid)
    }

    /// The identifier of the process.
    pub closed spec fn spec_pid(&self) -> i32 {
        self.pid
    }

    /// The state in which the process was last seen.
    pub closed spec fn spec_state(&self) -> State {
        self.state
    }

    /// Takes control of the child process `pid`, which was launched with a
    /// request to be traced (see [`child_traceme`]).
    ///
    /// Blocks until the kernel reports the first stop of the child. The result
    /// is `Ok` only if that is a stop at the entry of its program (see
    /// [`first_stop`]); the process is then halted and alive. In every other case
    /// no `Inferior` is made, and a child that may still be alive is killed and
    /// reaped before the error is returned. No signal is sent to a process that
    /// the kernel does not know as a child of the caller.
    ///
    /// An identifier that is not positive names no single process: it is
    /// refused with `TraceError::Spawn`, and no system call is made.
    pub fn new(pid: i32) -> (r: Result<Inferior, TraceError>)
        ensures
            !is_process_id(pid) ==> r matches Err(TraceError::Spawn),
            is_process_id(pid) ==> exists|first: Result<WaitEvent, nix::Error>, no_child: bool|
                match #[trigger] spec_first_stop(first, no_child) {
                    FirstStop::Entry => r is Ok,
                    FirstStop::Gone(error) => r matches Err(e) && e == error,
                    FirstStop::Stray(error) => r matches Err(e) && e == error,
                },
            match r {
                Ok(inferior) => is_process_id(pid) && inferior.pid() == pid && inferior.state()
                    == State::Stopped,
                Err(TraceError::Spawn) => !is_process_id(pid),
                Err(TraceError::UnexpectedStop(event)) => is_process_id(pid)
                    && !event.is_entry_stop(),
                Err(TraceError::Wait(_)) => is_process_id(pid),
                Err(_) => false,
            },
    {
        if pid <= 0 {
            return Err(TraceError::Spawn);
        }
        let first = wait_for(pid, None);
        let no_child = match &first {
            Ok(_) => false,
            Err(error) => is_no_child(error),
        };
        match first_stop(first, no_child) {
            FirstStop::Entry => Ok(Inferior { pid, state: State::Stopped }),
            FirstStop::Gone(error) => Err(error),
            FirstStop::Stray(error) => {
                let _ = destroy(pid);
                Err(error)
            },
        }
    }

    /// Returns the identifier of the process.
    ///
    /// It is the one that the value was made with, whatever has happened since,
    /// and it names one single process.
    #[verifier::when_used_as_spec(spec_pid)]
    pub fn pid(&self) -> (pid: i32)
        ensures
            pid == self.spec_pid(),
            is_process_id(pid),
    {
        proof {
            use_type_invariant(self);
        }
        self.pid
    }

    /// Returns the state in which the process was last seen.
    #[verifier::when_used_as_spec(spec_state)]
    pub fn state(&self) -> (state: State)
        ensures
            state == self.spec_state(),
    {
        self.state
    }

    /// Waits for the next state change of the process and reports it.
    ///
    /// `options` goes to the kernel's wait as it is; without options the call
    /// blocks until something changes.
    ///
    /// A process that has terminated has nothing left to wait for, and its
    /// identifier may name another process by now: the call is refused with
    /// `TraceError::InvalidState` and makes no system call.
    ///
    /// Otherwise the result follows from what the kernel reports (see
    /// [`WaitEvent::step`] and [`stopped_status`]). A termination or a stop
    /// becomes the new state. The instruction pointer is read only after a stop.
    /// An error of the system is returned as `TraceError::Wait`, and an event
    /// that is neither a stop nor a termination as
    /// `TraceError::InternalStatus`.
    pub fn wait(&mut self, options: Option<WaitPidFlag>) -> (r: Result<
        Status,
        TraceError,
    >)
        ensures
            final(self).pid() == old(self).pid(),
            old(self).state().is_terminal() ==> r == Err::<Status, TraceError>(
                TraceError::InvalidState(old(self).state()),
            ) && final(self).state() == old(self).state(),
            !old(self).state().is_terminal() ==> exists|
                waited: Result<WaitEvent, nix::Error>,
                pc: Result<usize, nix::Error>,
            |
                #[trigger] wait_outcome(old(self).state(), waited, pc) == (r, final(self).state()),
            !old(self).state().is_terminal() ==> match r {
                Ok(status) => final(self).state() == status.state(),
                Err(TraceError::Wait(_)) => final(self).state() == old(self).state() || final(self).state() == State::Stopped,
                Err(TraceError::InternalStatus(event)) => !event.is_reportable() && final(self).state() == old(self).state(),
                Err(_) => false,
            },
    {
        proof {
            use_type_invariant(&*self);
        }
        if self.state.is_terminal() {
            return Err(TraceError::InvalidState(self.state));
        }
        let waited = wait_for(self.pid, options);
        match waited {
            Err(e) => {
                assert(wait_outcome(old(self).state(), waited, Ok(0)) == (
                    Err::<Status, TraceError>(TraceError::Wait(e)),
                    self.state,
                ));
                Err(TraceError::Wait(e))
            },
            Ok(event) => {
                self.state = event.next_state(self.state);
                match event.step() {
                    Step::Done(result) => {
                        assert(wait_outcome(old(self).state(), waited, Ok(0)) == (
                            result,
                            self.state,
                        ));
                        result
                    },
                    Step::ReadPc(signal) => {
                        let pc = read_pc(self.pid);
                        assert(wait_outcome(old(self).state(), waited, pc) == (
                            spec_stopped_status(signal, pc),
                            self.state,
                        ));
                        stopped_status(signal, pc)
                    },
                }
            },
        }
    }

    /// Resumes the halted process, with no signal handed to it, and waits until
    /// it stops again or terminates.
    ///
    /// Only a process that was last seen stopped can be resumed: in any other
    /// state the call is refused with `TraceError::InvalidState` and makes no
    /// system call.
    ///
    /// Where the kernel refuses to resume, its error is returned as
    /// `TraceError::Wait` and the process is still stopped. Otherwise the
    /// process runs, and the result is that of a blocking [`Inferior::wait`].
    pub fn cont(&mut self) -> (r: Result<Status, TraceError>)
        ensures
            final(self).pid() == old(self).pid(),
            old(self).state() != State::Stopped ==> r == Err::<Status, TraceError>(
                TraceError::InvalidState(old(self).state()),
            ) && final(self).state() == old(self).state(),
            old(self).state() == State::Stopped ==> exists|
                resumed: Result<(), nix::Error>,
                waited: Result<WaitEvent, nix::Error>,
                pc: Result<usize, nix::Error>,
            |
                #[trigger] cont_outcome(resumed, waited, pc) == (r, final(self).state()),
            old(self).state() == State::Stopped ==> match r {
                Ok(status) => final(self).state() == status.state(),
                Err(TraceError::Wait(_)) => final(self).state() == State::Stopped || final(self).state() == State::Running,
                Err(TraceError::InternalStatus(event)) => !event.is_reportable() && final(self).state() == State::Running,
                Err(_) => false,
            },
    {
        proof {
            use_type_invariant(&*self);
        }
        match self.state {
            State::Stopped => {},
            other => {
                return Err(TraceError::InvalidState(other));
            },
        }
        let resumed = resume(self.pid);
        match resumed {
            Err(e) => {
                assert(cont_outcome(resumed, Ok(WaitEvent::StillAlive), Ok(0)) == (
                    Err::<Status, TraceError>(TraceError::Wait(e)),
                    self.state,
                ));
                Err(TraceError::Wait(e))
            },
            Ok(()) => {
                self.state = State::Running;
                let r = self.wait(None);
                proof {
                    let (waited, pc) = choose|
                        waited: Result<WaitEvent, nix::Error>,
                        pc: Result<usize, nix::Error>,
                    |
                        #[trigger] wait_outcome(State::Running, waited, pc) == (r, self.state);
                    assert(cont_outcome(resumed, waited, pc) == (r, self.state));
                }
                r
            },
        }
    }

    /// Puts an end to the process: kills it, unless it has terminated, and
    /// reaps it.
    ///
    /// On a process that has terminated the call does nothing and succeeds.
    /// Otherwise it sends the kill signal and waits for the termination. After
    /// `Ok` the process has terminated; after an error the state is as it was.
    pub fn kill(&mut self) -> (r: Result<(), TraceError>)
        ensures
            final(self).pid() == old(self).pid(),
            old(self).state().is_terminal() ==> r is Ok && final(self).state() == old(self).state(),
            r is Ok ==> final(self).state().is_terminal(),
            r matches Err(error) ==> final(self).state() == old(self).state() && (error is Wait
                || error is InternalStatus),
    {
        proof {
            use_type_invariant(&*self);
        }
        if self.state.is_terminal() {
            return Ok(());
        }
        match destroy(self.pid) {
            Ok(event) => {
                self.state = event.next_state(self.state);
                Ok(())
            },
            Err(error) => Err(error),
        }
    }
}

} // verus!
