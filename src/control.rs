//! Admission control for capture sessions: at most one runs at a time, and
//! a stop request raises the flag that the running loop looks at.
//!
//! Each method is one indivisible transition; a caller that shares one
//! `SessionControl` between threads holds it under a lock, so that checking
//! for an active session and claiming the slot happen in one step.

use vstd::prelude::*;

verus! {

/// What `status` reports.
#[derive(Clone, Copy, Debug, PartialEq, Eq, Structural)]
pub enum Status {
    Idle,
    Running,
}

/// Why a start request was refused.
#[derive(Clone, Copy, Debug, PartialEq, Eq, Structural)]
pub enum StartError {
    AlreadyRunning,
}

/// The answer to a start request.
#[derive(Clone, Copy, Debug, PartialEq, Eq, Structural)]
pub enum StartResult {
    Accepted,
    Rejected(StartError),
}

/// The answer to a stop request; neither is an error.
#[derive(Clone, Copy, Debug, PartialEq, Eq, Structural)]
pub enum StopResult {
    /// A session was running and has been asked to stop.
    Stopping,
    /// No session was running; nothing changed.
    NoOpIfIdle,
}

/// The state shared between the control surface and the capture loop.
#[derive(Clone, Copy, Debug, PartialEq, Eq, Structural)]
pub struct SessionControl {
    /// A session holds the slot.
    pub active: bool,
    /// The running session has been asked to stop.
    pub cancel_requested: bool,
}

/// A start request on `c`: the new state and the answer.
pub open spec fn start_spec(c: SessionControl) -> (SessionControl, StartResult) {
    if c.active {
        (c, StartResult::Rejected(StartError::AlreadyRunning))
    } else {
        (SessionControl { active: true, cancel_requested: false }, StartResult::Accepted)
    }
}

/// A stop request on `c`: the new state and the answer.
pub open spec fn stop_spec(c: SessionControl) -> (SessionControl, StopResult) {
    if c.active {
        (SessionControl { active: true, cancel_requested: true }, StopResult::Stopping)
    } else {
        (c, StopResult::NoOpIfIdle)
    }
}

/// The state after the running session's loop has exited, for any reason.
pub open spec fn ended_spec(c: SessionControl) -> SessionControl {
    SessionControl { active: false, cancel_requested: false }
}

pub open spec fn status_spec(c: SessionControl) -> Status {
    if c.active {
        Status::Running
    } else {
        Status::Idle
    }
}

impl SessionControl {
    /// No session running, no stop requested.
    pub fn new() -> (r: SessionControl)
        ensures
            !r.active,
            !r.cancel_requested,
    {
        SessionControl { active: false, cancel_requested: false }
    }

    /// Claims the slot for a new session, or refuses with `AlreadyRunning`
    /// and changes nothing.
    pub fn start(&mut self) -> (r: StartResult)
        ensures
            (*final(self), r) == start_spec(*old(self)),
    {
        if self.active {
            StartResult::Rejected(StartError::AlreadyRunning)
        } else {
            self.active = true;
            self.cancel_requested = false;
            StartResult::Accepted
        }
    }

    /// Asks the running session to stop; when none runs, changes nothing.
    pub fn stop(&mut self) -> (r: StopResult)
        ensures
            (*final(self), r) == stop_spec(*old(self)),
    {
        if self.active {
            self.cancel_requested = true;
            StopResult::Stopping
        } else {
            StopResult::NoOpIfIdle
        }
    }

    /// Releases the slot once the session's loop has exited, whether it was
    /// cancelled, expired or failed.
    pub fn session_ended(&mut self)
        ensures
            *final(self) == ended_spec(*old(self)),
    {
        self.active = false;
        self.cancel_requested = false;
    }

    /// `Running` while a session holds the slot, `Idle` otherwise.
    pub fn status(&self) -> (r: Status)
        ensures
            r == status_spec(*self),
    {
        if self.active {
            Status::Running
        } else {
            Status::Idle
        }
    }

    /// Whether the running session should stop at its next check.
    pub fn is_cancel_requested(&self) -> (r: bool)
        ensures
            r == self.cancel_requested,
    {
        self.cancel_requested
    }
}

/// Stopping when no session runs answers `NoOpIfIdle` and leaves the state
/// as it was, however often it is repeated.
pub proof fn lemma_stop_when_idle_is_noop(c: SessionControl)
    requires
        !c.active,
    ensures
        stop_spec(c) == (c, StopResult::NoOpIfIdle),
        stop_spec(stop_spec(c).0) == (c, StopResult::NoOpIfIdle),
{
}

/// Two start requests with no stop between them, issued when no session
/// runs: exactly one is accepted and the other is refused with
/// `AlreadyRunning`.
pub proof fn lemma_back_to_back_starts(c: SessionControl)
    requires
        !c.active,
    ensures
        start_spec(c).1 == StartResult::Accepted,
        start_spec(start_spec(c).0).1 == StartResult::Rejected(StartError::AlreadyRunning),
{
}

/// Of two start requests with no stop or session end between them, at most
/// one is accepted, whatever the state they start from.
pub proof fn lemma_at_most_one_accepted(c: SessionControl)
    ensures
        !(start_spec(c).1 == StartResult::Accepted && start_spec(start_spec(c).0).1
            == StartResult::Accepted),
{
}

/// Once a session's loop has exited, for whatever reason, the status is
/// `Idle` and a new session can be started.
pub proof fn lemma_idle_after_end(c: SessionControl)
    ensures
        status_spec(ended_spec(c)) == Status::Idle,
        start_spec(ended_spec(c)).1 == StartResult::Accepted,
{
}

} // verus!
