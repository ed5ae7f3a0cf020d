//! The per-actor ledger of granted, timed status-effect instances.

pub mod status;

use crate::arith::{sat_add_u64, sat_u64};
use crate::sim::SimTime;
use status::{Status, StatusFlag};
use vstd::prelude::*;

verus! {

/// A granted status with its expiration time.
pub struct StatusEffect {
    /// When this instance is removed: the tick it was granted on plus
    /// the definition's duration.
    pub expiration: SimTime,
    pub status: Status,
    /// The actor that granted it.
    pub source: usize,
    /// Set to force the instance out at the next cleanup, regardless of
    /// the time.
    pub force_expired: bool,
}

impl StatusEffect {
    pub fn new(status: Status, source: usize, sim_time: SimTime) -> (r: StatusEffect)
        ensures
            r.expiration == sat_u64(sim_time + status.duration),
            r.status == status,
            r.source == source,
            !r.force_expired,
    {
        let expiration = sat_add_u64(sim_time, status.duration);
        StatusEffect { expiration, status, source, force_expired: false }
    }

    /// Expired exactly when the expiration time has been reached, or
    /// unconditionally once force-expired.
    pub open spec fn is_expired_spec(self, sim_time: SimTime) -> bool {
        self.force_expired || sim_time >= self.expiration
    }

    pub fn is_expired(&self, sim_time: SimTime) -> (r: bool)
        ensures
            r == self.is_expired_spec(sim_time),
            !self.force_expired && sim_time < self.expiration ==> !r,
            sim_time >= self.expiration ==> r,
            self.force_expired ==> r,
    {
        self.force_expired || sim_time >= self.expiration
    }

    /// Force this instance to expire without its time having passed.
    pub fn expire(&mut self)
        ensures
            final(self).expiration == old(self).expiration,
            final(self).status == old(self).status,
            final(self).source == old(self).source,
            final(self).force_expired,
    {
        self.force_expired = true;
    }

    pub fn has_flag(&self, flag: &StatusFlag) -> (r: bool)
        ensures
            r == self.status.has_flag_spec(*flag),
    {
        self.status.has_flag(flag)
    }

    /// A verified copy: same expiration, source and flag state, and an
    /// equivalent status definition.
    pub fn duplicate(&self) -> (r: StatusEffect)
        ensures
            r.expiration == self.expiration,
            r.status.equiv(self.status),
            r.source == self.source,
            r.force_expired == self.force_expired,
    {
        StatusEffect {
            expiration: self.expiration,
            status: self.status.duplicate(),
            source: self.source,
            force_expired: self.force_expired,
        }
    }
}

/// How one ledger entry changes under `expire_with_flag`: flagged
/// entries are force-expired, everything else is untouched.
pub open spec fn flag_expired_entry(e0: StatusEffect, e1: StatusEffect, flag: StatusFlag) -> bool {
    &&& e1.expiration == e0.expiration
    &&& e1.status == e0.status
    &&& e1.source == e0.source
    &&& e1.force_expired == (e0.force_expired || e0.status.has_flag_spec(flag))
}

pub struct StatusEffects(pub Vec<StatusEffect>);

impl StatusEffects {
    pub fn add(&mut self, status_effect: StatusEffect)
        ensures
            final(self).0@ == old(self).0@.push(status_effect),
    {
        self.0.push(status_effect);
    }

    pub fn len(&self) -> (r: usize)
        ensures
            r == self.0@.len(),
    {
        self.0.len()
    }

    pub fn get(&self, i: usize) -> (r: &StatusEffect)
        requires
            i < self.0@.len(),
        ensures
            *r == self.0@[i as int],
    {
        &self.0[i]
    }

    /// Drop every instance that is expired at the given time, keeping
    /// the order of the survivors.
    pub fn remove_expired(&mut self, sim_time: SimTime)
        ensures
            final(self).0@ == old(self).0@.filter(
                |e: StatusEffect| !e.is_expired_spec(sim_time),
            ),
    {
        let ghost pred = (|e: StatusEffect| !e.is_expired_spec(sim_time));
        let ghost orig = self.0@;
        let mut i: usize = 0;
        let ghost j: int = 0;
        while i < self.0.len()
            invariant
                0 <= i <= self.0@.len(),
                0 <= j <= orig.len(),
                self.0@.take(i as int) == orig.take(j).filter(pred),
                self.0@.skip(i as int) == orig.skip(j),
                pred == (|e: StatusEffect| !e.is_expired_spec(sim_time)),
            decreases self.0@.len() - i,
        {
            proof {
                assert(self.0@.skip(i as int).len() == orig.skip(j).len());
                assert(j < orig.len());
                assert(self.0@[i as int] == self.0@.skip(i as int)[0]);
                assert(orig[j] == orig.skip(j)[0]);
                assert(orig.take(j + 1).drop_last() =~= orig.take(j));
                assert(orig.take(j + 1).last() == orig[j]);
            }
            let expired = self.0[i].is_expired(sim_time);
            let ghost pre = self.0@;
            proof {
                assert(pre.skip(i as int).skip(1) =~= pre.skip(i as int + 1));
                assert(orig.skip(j).skip(1) =~= orig.skip(j + 1));
                assert(pre.skip(i as int + 1) == orig.skip(j + 1));
                assert(pred(orig[j]) == !expired);
            }
            if expired {
                self.0.remove(i);
                proof {
                    assert(orig.take(j + 1).filter(pred) == orig.take(j).filter(pred)) by {
                        reveal_with_fuel(Seq::filter, 2);
                        assert(orig.take(j + 1).drop_last() =~= orig.take(j));
                        assert(orig.take(j + 1).last() == orig[j]);
                    }
                    assert(self.0@.take(i as int) =~= pre.take(i as int));
                    assert(self.0@.skip(i as int) =~= pre.skip(i as int + 1));
                }
            } else {
                proof {
                    assert(orig.take(j + 1).filter(pred) == orig.take(j).filter(pred).push(
                        orig[j],
                    )) by {
                        reveal_with_fuel(Seq::filter, 2);
                        assert(orig.take(j + 1).drop_last() =~= orig.take(j));
                        assert(orig.take(j + 1).last() == orig[j]);
                    }
                    assert(pre.take(i as int + 1) =~= pre.take(i as int).push(orig[j]));
                }
                i = i + 1;
            }
            proof {
                j = j + 1;
            }
        }
        proof {
            assert(orig.take(orig.len() as int) =~= orig);
            assert(self.0@.take(self.0@.len() as int) =~= self.0@);
            assert(j == orig.len());
        }
    }

    /// Mark every live instance that carries the flag as force-expired;
    /// nothing is removed until the next cleanup pass.
    pub fn expire_with_flag(&mut self, flag: StatusFlag)
        ensures
            final(self).0@.len() == old(self).0@.len(),
            forall|i: int|
                0 <= i < old(self).0@.len() ==> flag_expired_entry(
                    old(self).0@[i],
                    #[trigger] final(self).0@[i],
                    flag,
                ),
    {
        let ghost orig = self.0@;
        let mut i: usize = 0;
        while i < self.0.len()
            invariant
                0 <= i <= self.0@.len(),
                self.0@.len() == orig.len(),
                forall|k: int| 0 <= k < i ==> flag_expired_entry(orig[k], #[trigger] self.0@[k], flag),
                forall|k: int| i <= k < orig.len() ==> self.0@[k] == orig[k],
            decreases self.0@.len() - i,
        {
            let flagged = self.0[i].has_flag(&flag);
            if flagged {
                self.0[i].expire();
            }
            i = i + 1;
        }
    }
}

impl Default for StatusEffects {
    fn default() -> (r: Self)
        ensures
            r.0@ == Seq::<StatusEffect>::empty(),
    {
        StatusEffects(Vec::new())
    }
}

} // verus!
