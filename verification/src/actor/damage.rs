//! The cumulative damage counter of an actor.

use crate::arith::{sat_add_i64, sat_i64};
use vstd::prelude::*;

verus! {

pub struct Damage(pub i64);

impl Damage {
    /// Record a dealt amount; the counter clamps at the ends of `i64`.
    pub fn add(&mut self, amount: i64)
        ensures
            final(self).0 == sat_i64(old(self).0 + amount),
    {
        self.0 = sat_add_i64(self.0, amount);
    }
}

impl Default for Damage {
    fn default() -> (r: Self)
        ensures
            r.0 == 0,
    {
        Damage(0)
    }
}

} // verus!
