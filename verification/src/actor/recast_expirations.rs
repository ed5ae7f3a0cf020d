//! Per-actor readiness gate: an action-specific recast timer for each
//! action that has one, plus the shared global cooldown.

use crate::sim::SimTime;
use std::collections::HashMap;
use vstd::prelude::*;

verus! {

pub struct RecastExpirations {
    pub actions: HashMap<u32, SimTime>,
    pub gcd_expiration: SimTime,
}

impl RecastExpirations {
    /// An action is ready when the global cooldown does not bind it (it
    /// is off the global cooldown, or that cooldown has expired) and its
    /// own recast timer, if any, has expired.  An action with no entry
    /// is always ready on its own account.
    pub open spec fn ready_spec(self, action_id: u32, ogcd: bool, sim_time: SimTime) -> bool {
        &&& (ogcd || self.gcd_expiration <= sim_time)
        &&& (!self.actions@.contains_key(action_id) || self.actions@[action_id] <= sim_time)
    }

    pub fn check_ready(&self, action_id: u32, ogcd: bool, sim_time: SimTime) -> (r: bool)
        ensures
            r == self.ready_spec(action_id, ogcd, sim_time),
            !ogcd && sim_time < self.gcd_expiration ==> !r,
            (ogcd || self.gcd_expiration <= sim_time) && (!self.actions@.contains_key(action_id)
                || self.actions@[action_id] <= sim_time) ==> r,
    {
        let ready = (ogcd || self.check_gcd_ready(sim_time)) && match self.actions.get(&action_id) {
            Some(expiration) => *expiration <= sim_time,
            None => true,
        };
        ready
    }

    pub fn set(&mut self, action_id: u32, expiration: SimTime)
        ensures
            final(self).actions@ == old(self).actions@.insert(action_id, expiration),
            final(self).gcd_expiration == old(self).gcd_expiration,
    {
        self.actions.insert(action_id, expiration);
    }

    pub fn check_gcd_ready(&self, sim_time: SimTime) -> (r: bool)
        ensures
            r == (self.gcd_expiration <= sim_time),
    {
        self.gcd_expiration <= sim_time
    }

    pub fn set_gcd(&mut self, expiration: SimTime)
        ensures
            final(self).actions@ == old(self).actions@,
            final(self).gcd_expiration == expiration,
    {
        self.gcd_expiration = expiration;
    }
}

impl Default for RecastExpirations {
    fn default() -> (r: Self)
        ensures
            r.actions@ == Map::<u32, SimTime>::empty(),
            r.gcd_expiration == 0,
    {
        RecastExpirations { actions: HashMap::new(), gcd_expiration: 0 }
    }
}

} // verus!
