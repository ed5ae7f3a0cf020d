//! A standalone global-cooldown timer with a fixed duration.

use crate::arith::{sat_add_u64, sat_u64};
use crate::sim::SimTime;
use vstd::prelude::*;

verus! {

pub struct Gcd {
    pub expiration: SimTime,
    pub duration: SimTime,
}

impl Gcd {
    pub fn ready(&mut self, sim_time: SimTime) -> (r: bool)
        ensures
            *final(self) == *old(self),
            r == (old(self).expiration <= sim_time),
    {
        self.expiration <= sim_time
    }

    pub fn start(&mut self, sim_time: SimTime)
        ensures
            final(self).duration == old(self).duration,
            final(self).expiration == sat_u64(sim_time + old(self).duration),
    {
        self.expiration = sat_add_u64(sim_time, self.duration);
    }
}

impl Default for Gcd {
    fn default() -> (r: Self)
        ensures
            r.expiration == 0,
            r.duration == 0,
    {
        Gcd { expiration: 0, duration: 0 }
    }
}

} // verus!
