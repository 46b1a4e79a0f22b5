use vstd::prelude::*;

use crate::probe::LivenessResult;
use crate::runtime::{spec_status_result, status_result};

verus! {

/// Where the launcher stands. Each phase is entered at most once.
#[derive(Clone, Copy, Debug, PartialEq, Eq, Structural)]
pub enum Phase {
    /// Nothing done yet.
    Start,
    /// Waiting for the verdict of the probe of the socket.
    Probing,
    /// Waiting for a stale socket file to be removed.
    Reclaiming,
    /// Waiting for the server to bind the socket.
    Binding,
    /// Waiting for the native runtime to be initialised.
    Acquiring,
    /// Serving requests until a stop is signalled.
    Serving,
    /// Waiting for the native runtime to be destroyed.
    Releasing,
    /// Finished; nothing more happens.
    Done,
}

/// What the outside world reports back to the launcher.
#[derive(Clone, Copy, Debug, PartialEq, Eq, Structural)]
pub enum Event {
    /// The process has started.
    Launched,
    /// The probe of the socket came to this verdict.
    Probed(LivenessResult),
    /// The stale socket file was removed (`true`) or could not be (`false`).
    Reclaimed(bool),
    /// The server bound the socket (`true`) or could not (`false`).
    Bound(bool),
    /// The native runtime's initialisation returned this status code.
    Acquired(i32),
    /// The waiter saw `stopped` set: serving has ended.
    StopObserved,
    /// The native runtime's destruction returned this status code.
    Released(i32),
}

/// How a run ends.
#[derive(Clone, Copy, Debug, PartialEq, Eq, Structural)]
pub enum Exit {
    /// Another server answers on the socket; this one does not start.
    AlreadyRunning,
    /// A stale socket file could not be removed.
    ReclaimFailed,
    /// The socket could not be bound.
    BindFailed,
    /// The native runtime failed to initialise, with this code.
    AcquireFailed(i32),
    /// Serving ended and the native runtime was destroyed.
    Stopped,
    /// Serving ended but destroying the native runtime failed, with this code.
    ReleaseFailed(i32),
}

impl Exit {
    /// Whether the run ended as it should: another server was found alive,
    /// or serving ended and the runtime was destroyed.
    pub fn is_clean(&self) -> (r: bool)
        ensures
            r == (*self == Exit::AlreadyRunning || *self == Exit::Stopped),
    {
        match self {
            Exit::AlreadyRunning => true,
            Exit::Stopped => true,
            _ => false,
        }
    }

    /// The line printed when the run ends cleanly; `None` on a failure.
    pub fn announcement(&self) -> (r: Option<&'static str>)
        ensures
            *self == Exit::AlreadyRunning ==> r is Some && r->0@ == "server stared"@,
            *self == Exit::Stopped ==> r is Some && r->0@ == "server stopped"@,
            !(*self == Exit::AlreadyRunning || *self == Exit::Stopped) ==> r is None,
    {
        match self {
            Exit::AlreadyRunning => Some("server stared"),
            Exit::Stopped => Some("server stopped"),
            _ => None,
        }
    }
}

/// The line printed when serving begins on the socket at `addr`.
pub fn serving_line(addr: &str) -> (r: String)
    ensures
        r@ == "server stared on addr "@ + addr@,
{
    let mut line = String::from_str("server stared on addr ");
    line.append(addr);
    line
}

/// What the launcher asks the outside world to do next.
#[derive(Clone, Copy, Debug, PartialEq, Eq, Structural)]
pub enum Action {
    /// Probe the socket: open its file and, unless it is missing, make a
    /// status check over it.
    Probe,
    /// Remove the stale socket file.
    Reclaim,
    /// Bind the server to the socket.
    Bind,
    /// Initialise the native runtime.
    Acquire,
    /// Mark serving as begun, then wait until `stopped` is true again.
    Serve,
    /// Destroy the native runtime.
    Release,
    /// End the run.
    Finish(Exit),
}

/// The events that `phase` expects; any other is out of turn.
pub open spec fn spec_accepts(phase: Phase, event: Event) -> bool {
    match (phase, event) {
        (Phase::Start, Event::Launched) => true,
        (Phase::Probing, Event::Probed(_)) => true,
        (Phase::Reclaiming, Event::Reclaimed(_)) => true,
        (Phase::Binding, Event::Bound(_)) => true,
        (Phase::Acquiring, Event::Acquired(_)) => true,
        (Phase::Serving, Event::StopObserved) => true,
        (Phase::Releasing, Event::Released(_)) => true,
        _ => false,
    }
}

/// The transition table: the next phase and the action it calls for.
pub open spec fn spec_step(phase: Phase, event: Event) -> (Phase, Action) {
    match (phase, event) {
        (Phase::Start, Event::Launched) => (Phase::Probing, Action::Probe),
        (Phase::Probing, Event::Probed(LivenessResult::NoArtifact)) => (
            Phase::Binding,
            Action::Bind,
        ),
        (Phase::Probing, Event::Probed(LivenessResult::ArtifactButUnresponsive)) => (
            Phase::Reclaiming,
            Action::Reclaim,
        ),
        (Phase::Probing, Event::Probed(LivenessResult::ArtifactAndLive)) => (
            Phase::Done,
            Action::Finish(Exit::AlreadyRunning),
        ),
        (Phase::Reclaiming, Event::Reclaimed(ok)) => if ok {
            (Phase::Binding, Action::Bind)
        } else {
            (Phase::Done, Action::Finish(Exit::ReclaimFailed))
        },
        (Phase::Binding, Event::Bound(ok)) => if ok {
            (Phase::Acquiring, Action::Acquire)
        } else {
            (Phase::Done, Action::Finish(Exit::BindFailed))
        },
        (Phase::Acquiring, Event::Acquired(code)) => match spec_status_result(code) {
            Ok(()) => (Phase::Serving, Action::Serve),
            Err(c) => (Phase::Done, Action::Finish(Exit::AcquireFailed(c))),
        },
        (Phase::Serving, Event::StopObserved) => (Phase::Releasing, Action::Release),
        (Phase::Releasing, Event::Released(code)) => match spec_status_result(code) {
            Ok(()) => (Phase::Done, Action::Finish(Exit::Stopped)),
            Err(c) => (Phase::Done, Action::Finish(Exit::ReleaseFailed(c))),
        },
        // An event out of turn; `Coordinator::step` never takes this arm.
        _ => (phase, Action::Finish(Exit::BindFailed)),
    }
}

/// The launcher's decisions, one event at a time. It probes the socket,
/// removes a stale socket file, binds, initialises the native runtime,
/// serves until stopped and destroys the runtime, ending early on the first
/// failure or when another server is found alive.
pub struct Coordinator {
    phase: Phase,
}

impl Coordinator {
    pub closed spec fn view_phase(&self) -> Phase {
        self.phase
    }

    /// A launcher that has done nothing yet.
    pub fn new() -> (r: Coordinator)
        ensures
            r.view_phase() == Phase::Start,
    {
        Coordinator { phase: Phase::Start }
    }

    /// The current phase.
    pub fn phase(&self) -> (r: Phase)
        ensures
            r == self.view_phase(),
    {
        self.phase
    }

    /// Whether the run has ended.
    pub fn is_done(&self) -> (r: bool)
        ensures
            r == (self.view_phase() == Phase::Done),
    {
        self.phase == Phase::Done
    }

    /// Whether `event` is the kind of event that the current phase waits for.
    pub fn accepts(&self, event: Event) -> (r: bool)
        ensures
            r == spec_accepts(self.view_phase(), event),
    {
        match (self.phase, event) {
            (Phase::Start, Event::Launched) => true,
            (Phase::Probing, Event::Probed(_)) => true,
            (Phase::Reclaiming, Event::Reclaimed(_)) => true,
            (Phase::Binding, Event::Bound(_)) => true,
            (Phase::Acquiring, Event::Acquired(_)) => true,
            (Phase::Serving, Event::StopObserved) => true,
            (Phase::Releasing, Event::Released(_)) => true,
            _ => false,
        }
    }

    /// Takes in what happened and returns what to do next.
    pub fn step(&mut self, event: Event) -> (r: Action)
        requires
            spec_accepts(old(self).view_phase(), event),
        ensures
            (final(self).view_phase(), r) == spec_step(old(self).view_phase(), event),
    {
        let (next, action) = match (self.phase, event) {
            (Phase::Start, Event::Launched) => (Phase::Probing, Action::Probe),
            (Phase::Probing, Event::Probed(verdict)) => match verdict {
                LivenessResult::NoArtifact => (Phase::Binding, Action::Bind),
                LivenessResult::ArtifactButUnresponsive => (Phase::Reclaiming, Action::Reclaim),
                LivenessResult::ArtifactAndLive => (
                    Phase::Done,
                    Action::Finish(Exit::AlreadyRunning),
                ),
            },
            (Phase::Reclaiming, Event::Reclaimed(ok)) => if ok {
                (Phase::Binding, Action::Bind)
            } else {
                (Phase::Done, Action::Finish(Exit::ReclaimFailed))
            },
            (Phase::Binding, Event::Bound(ok)) => if ok {
                (Phase::Acquiring, Action::Acquire)
            } else {
                (Phase::Done, Action::Finish(Exit::BindFailed))
            },
            (Phase::Acquiring, Event::Acquired(code)) => match status_result(code) {
                Ok(()) => (Phase::Serving, Action::Serve),
                Err(c) => (Phase::Done, Action::Finish(Exit::AcquireFailed(c))),
            },
            (Phase::Serving, Event::StopObserved) => (Phase::Releasing, Action::Release),
            (Phase::Releasing, Event::Released(code)) => match status_result(code) {
                Ok(()) => (Phase::Done, Action::Finish(Exit::Stopped)),
                Err(c) => (Phase::Done, Action::Finish(Exit::ReleaseFailed(c))),
            },
            // Out of turn: ruled out by the precondition.
            _ => (self.phase, Action::Finish(Exit::BindFailed)),
        };
        self.phase = next;
        action
    }
}

} // verus!
