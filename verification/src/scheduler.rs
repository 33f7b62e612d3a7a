//! Decisions of the scheduler loop that drives the engine: whether the loop
//! still has to be started, and what to do after each tick. The loop itself
//! (the timer, the wake-up channel and the window refresh) runs in the
//! application layer, which performs the action decided here.

use vstd::prelude::*;

verus! {

/// How the scheduler loop waits before the next tick.
#[derive(Debug, Clone, Copy, PartialEq, Eq, Structural)]
pub enum Wait {
    /// Animations are running: tick again after one frame.
    NextFrame,
    /// Nothing runs: park until a new animation is submitted.
    UntilWoken,
}

/// What the loop does after a tick.
#[derive(Debug, Clone, Copy, PartialEq, Eq, Structural)]
pub struct LoopStep {
    /// Whether the windows are to be redrawn.
    pub refresh: bool,
    pub wait: Wait,
}

/// The step after a tick that did (or did not) change some state, when
/// animations are (or are not) still running: redraw on change, keep ticking
/// at the frame rate while animations run, and sleep otherwise.
pub fn after_tick(did_change: bool, has_active: bool) -> (r: LoopStep)
    ensures
        r.refresh == did_change,
        r.wait == (if has_active { Wait::NextFrame } else { Wait::UntilWoken }),
{
    let wait = if has_active {
        Wait::NextFrame
    } else {
        Wait::UntilWoken
    };
    LoopStep { refresh: did_change, wait }
}

/// Records whether the scheduler loop has been started, so that it is
/// started exactly once.
#[derive(Debug)]
pub struct StartGate {
    started: bool,
}

impl View for StartGate {
    type V = bool;

    closed spec fn view(&self) -> bool {
        self.started
    }
}

impl StartGate {
    /// A gate whose loop has not been started.
    pub fn new() -> (r: Self)
        ensures
            !r@,
    {
        StartGate { started: false }
    }

    /// Marks the loop as started; true when it was not started before, that
    /// is, when the caller is the one to start it.
    pub fn try_start(&mut self) -> (r: bool)
        ensures
            r == !old(self)@,
            final(self)@,
    {
        let was = self.started;
        self.started = true;
        !was
    }
}

} // verus!
