use vstd::prelude::*;

verus! {

use crate::level::Level;
use crate::rule::Rule;
use crate::state::Effect;
use crate::state::State;

/// The start/stop latch that gates whether ticks occur at all. It is
/// not part of the agent's own state; the driving timer consults it on
/// every expiry.
pub struct Simulation {
    running: bool,
}

impl Simulation {
    pub closed spec fn spec_is_running(self) -> bool {
        self.running
    }

    pub fn is_running(&self) -> (r: bool)
        ensures
            r == self.spec_is_running(),
    {
        self.running
    }

    pub fn start(&mut self)
        ensures
            final(self).spec_is_running(),
    {
        self.running = true;
    }

    pub fn stop(&mut self)
        ensures
            !final(self).spec_is_running(),
    {
        self.running = false;
    }

    /// One timer expiry: tick the agent while running, otherwise leave
    /// it untouched. A stopped stretch mutates nothing, and resuming
    /// issues no catch-up tick: each expiry yields at most one tick.
    pub fn step(&self, state: &mut State, level: &Level, rules: &[Rule]) -> (r: Option<Effect>)
        ensures
            self.spec_is_running() ==> ({
                let (s2, e2) = old(state).spec_tick(*level, rules@);
                *final(state) == s2 && r == Some(e2)
            }),
            !self.spec_is_running() ==> *final(state) == *old(state) && r is None,
    {
        if self.running {
            Some(state.tick(level, rules))
        } else {
            None
        }
    }
}

impl Default for Simulation {
    /// A simulation starts stopped.
    fn default() -> (r: Simulation)
        ensures
            !r.spec_is_running(),
    {
        Simulation { running: false }
    }
}

} // verus!
