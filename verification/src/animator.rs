//! The two-state machine that drives a keyframe animation.
//!
//! The clock itself lives with the caller; the machine decides when the
//! clock runs, when it is reset, and when a new constant is derived.

use vstd::prelude::*;

verus! {

/// Whether an animation is in progress.
#[derive(Clone, Copy, Debug, PartialEq, Eq, Structural)]
pub enum Phase {
    Idle,
    Running,
}

/// What the caller does after a tick.
#[derive(Clone, Copy, Debug, PartialEq, Eq, Structural)]
pub enum TickAction {
    /// No animation is running: the clock does not advance.
    Rest,
    /// The animation goes on: derive the constant at the current progress.
    Interpolate,
    /// The animation has reached its end: reset the clock and keep the
    /// constant derived last.
    Finish,
}

impl Phase {
    /// The phase and action that follow a tick. `complete` says whether the
    /// progress, after the clock has advanced, has reached the end of the
    /// timeline; it is read only while running.
    pub open spec fn after_tick(self, complete: bool) -> (Phase, TickAction) {
        match self {
            Phase::Idle => (Phase::Idle, TickAction::Rest),
            Phase::Running => if complete {
                (Phase::Idle, TickAction::Finish)
            } else {
                (Phase::Running, TickAction::Interpolate)
            },
        }
    }

    /// Starts the animation from the beginning. The caller resets the clock.
    pub fn start(self) -> (next: Phase)
        ensures
            next == Phase::Running,
    {
        Phase::Running
    }

    /// Stops the animation. The caller resets the clock and keeps the
    /// constant derived last.
    pub fn stop(self) -> (next: Phase)
        ensures
            next == Phase::Idle,
    {
        Phase::Idle
    }

    /// Whether the clock advances on a tick.
    pub fn is_running(self) -> (running: bool)
        ensures
            running <==> self == Phase::Running,
    {
        match self {
            Phase::Running => true,
            Phase::Idle => false,
        }
    }

    /// Advances the machine by one tick.
    pub fn tick(self, complete: bool) -> (step: (Phase, TickAction))
        ensures
            step == self.after_tick(complete),
    {
        match self {
            Phase::Idle => (Phase::Idle, TickAction::Rest),
            Phase::Running => if complete {
                (Phase::Idle, TickAction::Finish)
            } else {
                (Phase::Running, TickAction::Interpolate)
            },
        }
    }
}

/// An animation runs from `start` until it completes or is stopped: a
/// constant is derived on a tick exactly when the machine is running and the
/// timeline has not ended, and the machine is idle after a completing tick.
pub proof fn lemma_tick(phase: Phase, complete: bool)
    ensures
        phase.after_tick(complete).1 == TickAction::Interpolate <==> phase == Phase::Running
            && !complete,
        phase.after_tick(complete).0 == Phase::Running <==> phase == Phase::Running && !complete,
        phase.after_tick(complete).1 == TickAction::Finish <==> phase == Phase::Running
            && complete,
{
}

} // verus!
