//! The decisions of the main loop: when to refresh by the clock, what a key leads to.

use crate::app::{App, AppV, Refresh, RefreshV, TabKind};
use vstd::prelude::*;

verus! {

/// Whether a timed refresh is due. An interval of zero means that there is none.
pub open spec fn due(interval_secs: u64, elapsed_secs: u64) -> bool {
    interval_secs > 0 && elapsed_secs >= interval_secs
}

impl AppV {
    /// Whether a timed refresh has anything to do: only `builds` tabs are polled, while the tail
    /// of a `logs` tab goes on by itself.
    pub open spec fn polled(self) -> bool {
        self.active().spec.kind == TabKind::Builds
    }
}

/// What the clock leads to.
#[derive(Debug)]
pub enum Tick {
    /// The time has not come.
    Wait,
    /// The time starts anew, and this work is to be started.
    Restart(Refresh),
}

impl App {
    /// What to do when `elapsed_secs` seconds have gone by since the last refresh.
    pub fn tick(&mut self, elapsed_secs: u64) -> (tick: Tick)
        requires
            old(self)@.in_range(),
        ensures
            tick is Wait <==> !due(old(self)@.cfg.refresh_interval_secs, elapsed_secs),
            match tick {
                Tick::Wait => *final(self) == *old(self),
                Tick::Restart(refresh) => if old(self)@.polled() {
                    &&& final(self)@ == old(self)@.refreshing()
                    &&& refresh@ == old(self)@.active().refresh()
                } else {
                    &&& *final(self) == *old(self)
                    &&& refresh@ == RefreshV::Nothing
                },
            },
    {
        let interval: u64 = self.cfg.refresh_interval_secs;
        if interval > 0 && elapsed_secs >= interval {
            match self.active().spec.kind {
                TabKind::Builds => Tick::Restart(self.refresh_active()),
                TabKind::Logs => Tick::Restart(Refresh::Nothing),
            }
        } else {
            Tick::Wait
        }
    }
}

/// What a terminal event leads to in the main loop.
#[derive(Debug, Clone, Copy, PartialEq, Eq, Structural)]
pub enum Step {
    /// Go on.
    Continue,
    /// Go on, counting the time to the next refresh anew.
    RestartTimer,
    /// Leave the loop.
    Quit,
}

/// What a key leads to. `action` is `None` where the key has no action, else it tells whether the
/// action quits.
pub fn after_key(action: Option<bool>) -> (step: Step)
    ensures
        step == (match action {
            None => Step::Continue,
            Some(true) => Step::Quit,
            Some(false) => Step::RestartTimer,
        }),
{
    match action {
        None => Step::Continue,
        Some(quit) => if quit {
            Step::Quit
        } else {
            Step::RestartTimer
        },
    }
}

} // verus!
