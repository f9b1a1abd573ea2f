//! The single-child-process supervisor: at most one external server process,
//! guarded by a `running` flag whose invariant ties it to the handle slot.
//!
//! The supervisor never touches the OS itself. The host acquires one lock
//! around each whole operation and performs the spawn or kill between the two
//! halves of `start` and `stop`; the supervisor decides whether an OS call is
//! due and records its result, so the flag and the handle always move
//! together.

use vstd::prelude::*;
use vstd::string::StringExecFns;

verus! {

/// The message a start returns when a process was already running.
pub open spec fn already_running_msg() -> Seq<char> {
    "server already running"@
}

/// The message a start returns after a successful spawn.
pub open spec fn started_msg() -> Seq<char> {
    "server started"@
}

/// The message a stop returns when nothing was running.
pub open spec fn already_stopped_msg() -> Seq<char> {
    "server not running"@
}

/// The message a stop returns once the kill succeeded.
pub open spec fn stopped_msg() -> Seq<char> {
    "server stopped"@
}

/// The prefix of a spawn failure's message.
pub open spec fn spawn_error_prefix() -> Seq<char> {
    "failed to start server: "@
}

/// The prefix of a termination failure's message.
pub open spec fn termination_error_prefix() -> Seq<char> {
    "failed to stop server: "@
}

/// Why a supervisor operation failed: the OS refused to create the process,
/// or refused to signal it. Each carries the OS-provided message.
#[derive(Debug, PartialEq, Eq)]
pub enum SupervisorError {
    Spawn { os_error: String },
    Termination { os_error: String },
}

impl SupervisorError {
    /// The message the caller sees: a fixed prefix plus the OS error.
    pub open spec fn spec_message(self) -> Seq<char> {
        match self {
            SupervisorError::Spawn { os_error } => spawn_error_prefix() + os_error@,
            SupervisorError::Termination { os_error } => termination_error_prefix() + os_error@,
        }
    }

    /// Render the failure for the caller.
    pub fn message(&self) -> (r: String)
        ensures
            r@ == self.spec_message(),
    {
        match self {
            SupervisorError::Spawn { os_error } => {
                let mut m = String::from_str("failed to start server: ");
                m.append(os_error.as_str());
                m
            }
            SupervisorError::Termination { os_error } => {
                let mut m = String::from_str("failed to stop server: ");
                m.append(os_error.as_str());
                m
            }
        }
    }
}

/// The supervisor's state as contracts see it: the `running` flag and the
/// slot that owns the child-process handle.
pub struct SupervisorView<H> {
    pub running: bool,
    pub handle: Option<H>,
}

impl<H> SupervisorView<H> {
    /// The supervisor's invariant: a handle is held exactly while the flag
    /// says a process is running.
    pub open spec fn consistent(self) -> bool {
        (self.handle is Some) == self.running
    }

    /// A start must spawn exactly when no process is believed to be running.
    pub open spec fn needs_spawn(self) -> bool {
        !self.running
    }

    /// The state after a successful spawn has been recorded.
    pub open spec fn after_spawn(self, h: H) -> SupervisorView<H> {
        SupervisorView { running: true, handle: Some(h) }
    }

    /// The state after a stop: cleared, whatever the kill will report.
    pub open spec fn after_stop(self) -> SupervisorView<H> {
        SupervisorView { running: false, handle: None }
    }

    /// The handle a stop hands out to be killed.
    pub open spec fn to_kill(self) -> Option<H> {
        self.handle
    }
}

/// Owns at most one child-process handle and the flag that says whether a
/// process is believed to be alive. `H` is the host's handle type.
pub struct Supervisor<H> {
    running: bool,
    handle: Option<H>,
}

impl<H> View for Supervisor<H> {
    type V = SupervisorView<H>;

    closed spec fn view(&self) -> SupervisorView<H> {
        SupervisorView { running: self.running, handle: self.handle }
    }
}

impl<H> Supervisor<H> {
    /// A fresh supervisor: stopped, owning no handle.
    pub fn new() -> (s: Supervisor<H>)
        ensures
            s@.consistent(),
            !s@.running,
            s@.handle is None,
    {
        Supervisor { running: false, handle: None }
    }

    /// The last known state. A pure read: it does not probe the OS, so it can
    /// drift if the process exits on its own.
    pub fn status(&self) -> (r: bool)
        ensures
            r == self@.running,
    {
        self.running
    }

    /// Whether a handle is currently held. Under the supervisor's invariant
    /// this always agrees with `status`.
    pub fn holds_handle(&self) -> (r: bool)
        ensures
            r == (self@.handle is Some),
    {
        self.handle.is_some()
    }

    /// First half of `start`: under the lock, decide whether a spawn is due.
    /// True exactly when nothing is believed to be running.
    pub fn must_spawn(&self) -> (r: bool)
        ensures
            r == self@.needs_spawn(),
    {
        !self.running
    }

    /// `start` when a process was already running: an idempotent success that
    /// spawns nothing and leaves the state alone.
    pub fn start_already_running(&self) -> (r: Result<String, SupervisorError>)
        requires
            !self@.needs_spawn(),
        ensures
            r matches Ok(m) && m@ == already_running_msg(),
    {
        Ok(String::from_str("server already running"))
    }

    /// Second half of `start`: record what the OS spawn reported. On success
    /// the handle is stored and the flag raised together; on failure the
    /// state is left exactly as it was and the OS error is surfaced.
    pub fn record_spawn(&mut self, spawn: Result<H, String>) -> (r: Result<
        String,
        SupervisorError,
    >)
        requires
            old(self)@.consistent(),
            old(self)@.needs_spawn(),
        ensures
            final(self)@.consistent(),
            spawn matches Ok(h) ==> final(self)@ == old(self)@.after_spawn(h),
            spawn is Ok ==> (r matches Ok(m) && m@ == started_msg()),
            spawn is Err ==> final(self)@ == old(self)@,
            spawn matches Err(e) ==> r == Err::<String, SupervisorError>(
                SupervisorError::Spawn { os_error: e },
            ),
    {
        match spawn {
            Ok(h) => {
                self.handle = Some(h);
                self.running = true;
                Ok(String::from_str("server started"))
            },
            Err(e) => Err(SupervisorError::Spawn { os_error: e }),
        }
    }

    /// First half of `stop`: take the handle out and clear the flag, both in
    /// the same critical section. The supervisor forgets the process here,
    /// before the kill's outcome is known: termination is best effort and
    /// never retried. Returns the handle to kill, if one was held.
    pub fn take_for_stop(&mut self) -> (r: Option<H>)
        requires
            old(self)@.consistent(),
        ensures
            final(self)@.consistent(),
            final(self)@ == old(self)@.after_stop(),
            r == old(self)@.to_kill(),
            (r is Some) == old(self)@.running,
    {
        self.running = false;
        self.handle.take()
    }

    /// `stop` when nothing was running: an idempotent success that makes no
    /// OS call.
    pub fn stop_already_stopped(&self) -> (r: Result<String, SupervisorError>)
        requires
            !self@.running,
        ensures
            r matches Ok(m) && m@ == already_stopped_msg(),
    {
        Ok(String::from_str("server not running"))
    }
}

/// Second half of `stop`: report what the OS kill call said. The supervisor's
/// state was already cleared by `take_for_stop`, so a failure here changes
/// nothing further; it is only surfaced to the caller.
pub fn report_kill(kill: Result<(), String>) -> (r: Result<String, SupervisorError>)
    ensures
        kill is Ok ==> (r matches Ok(m) && m@ == stopped_msg()),
        kill matches Err(e) ==> r == Err::<String, SupervisorError>(
            SupervisorError::Termination { os_error: e },
        ),
{
    match kill {
        Ok(()) => Ok(String::from_str("server stopped")),
        Err(e) => Err(SupervisorError::Termination { os_error: e }),
    }
}

/// Law: starting is idempotent. Once one spawn has been recorded, a further
/// start finds the supervisor running and needs no spawn, so two starts in
/// direct succession — serialized by the host's lock, however they were
/// issued — create exactly one process.
pub proof fn law_start_idempotent<H>(v: SupervisorView<H>, h: H)
    requires
        v.consistent(),
        v.needs_spawn(),
    ensures
        v.after_spawn(h).consistent(),
        !v.after_spawn(h).needs_spawn(),
{
}

/// Law: stopping is idempotent. A stop that finds the supervisor stopped has
/// no handle to kill and leaves the state exactly as it was.
pub proof fn law_stop_idempotent<H>(v: SupervisorView<H>)
    requires
        v.consistent(),
        !v.running,
    ensures
        v.to_kill() is None,
        v.after_stop() == v,
{
}

/// Law: the invariant `handle is Some <==> running` survives every
/// transition, so at every point between the serialized operations the flag
/// and the handle slot agree.
pub proof fn law_consistency_preserved<H>(v: SupervisorView<H>, h: H)
    ensures
        v.after_stop().consistent(),
        v.after_spawn(h).consistent(),
{
}

/// Law: a stop forgets the process whatever the kill reports. After any stop
/// — including one whose kill call then fails — a further stop has nothing
/// to kill and changes nothing, so a failed termination is never retried.
pub proof fn law_stop_forgets<H>(v: SupervisorView<H>)
    ensures
        v.after_stop().consistent(),
        v.after_stop().to_kill() is None,
        v.after_stop().after_stop() == v.after_stop(),
{
}

} // verus!
