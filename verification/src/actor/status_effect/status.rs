//! Status definitions: a named, timed bundle of effects with a flag set,
//! copied by value into each granted instance.

use crate::actor::apply::{copy_effects, Effect};
use crate::actor::stat::{SpecialStat, Stat};
use crate::sim::SimTime;
use vstd::prelude::*;

verus! {

/// Adds an amount to the transient part of the receiver's stat.
#[derive(Copy, Clone, Debug)]
pub struct ModifyStat {
    pub stat: Stat,
    pub amount: i64,
}

/// Sets a transient special override on the receiver.
#[derive(Copy, Clone, Debug)]
pub struct ModifySpecialStat {
    pub stat: SpecialStat,
    pub amount: i64,
}

/// Adds a pending combo marker on the performer.
#[derive(Copy, Clone, Debug)]
pub struct SetCombo(pub u32);

#[derive(PartialEq, Eq, Structural, Hash, Copy, Clone, Debug)]
pub enum StatusFlag {
    ExpireOnDirectDamage,
}

#[derive(Clone)]
pub struct StatusFlags(pub Vec<StatusFlag>);

impl StatusFlags {
    pub open spec fn has_spec(self, flag: StatusFlag) -> bool {
        self.0@.contains(flag)
    }

    pub fn new(flags: &[StatusFlag]) -> (r: Self)
        ensures
            r.0@ == flags@,
    {
        let mut v: Vec<StatusFlag> = Vec::new();
        let mut i: usize = 0;
        while i < flags.len()
            invariant
                i <= flags@.len(),
                v@ == flags@.take(i as int),
            decreases flags@.len() - i,
        {
            proof {
                assert(flags@.take(i + 1) =~= flags@.take(i as int).push(flags@[i as int]));
            }
            v.push(flags[i]);
            i = i + 1;
        }
        proof {
            assert(flags@.take(flags@.len() as int) =~= flags@);
        }
        StatusFlags(v)
    }

    pub fn contains(&self, flag: &StatusFlag) -> (r: bool)
        ensures
            r == self.has_spec(*flag),
    {
        let mut i: usize = 0;
        while i < self.0.len()
            invariant
                i <= self.0@.len(),
                forall|j: int| 0 <= j < i ==> self.0@[j] != *flag,
            decreases self.0@.len() - i,
        {
            if self.0[i] == *flag {
                return true;
            }
            i = i + 1;
        }
        false
    }

    /// A verified copy: the new flag set holds exactly the same flags.
    pub fn duplicate(&self) -> (r: Self)
        ensures
            r.0@ == self.0@,
    {
        let mut v: Vec<StatusFlag> = Vec::new();
        let mut i: usize = 0;
        while i < self.0.len()
            invariant
                i <= self.0@.len(),
                v@ == self.0@.take(i as int),
            decreases self.0@.len() - i,
        {
            proof {
                assert(self.0@.take(i + 1) =~= self.0@.take(i as int).push(self.0@[i as int]));
            }
            v.push(self.0[i]);
            i = i + 1;
        }
        proof {
            assert(self.0@.take(self.0@.len() as int) =~= self.0@);
        }
        StatusFlags(v)
    }
}

impl Default for StatusFlags {
    fn default() -> (r: Self)
        ensures
            r.0@ == Seq::<StatusFlag>::empty(),
    {
        StatusFlags(Vec::new())
    }
}

/// A status definition: while an instance of it is alive on an actor, its
/// effect list is applied once per tick.
#[derive(Clone)]
pub struct Status {
    pub name: String,
    pub duration: SimTime,
    pub effects: Vec<Effect>,
    pub flags: StatusFlags,
}

impl Status {
    /// Two status values carrying the same definition.
    pub open spec fn equiv(self, other: Status) -> bool {
        &&& self.name@ == other.name@
        &&& self.duration == other.duration
        &&& self.effects@ == other.effects@
        &&& self.flags.0@ == other.flags.0@
    }

    pub open spec fn wf(self) -> bool {
        forall|i: int| 0 <= i < self.effects@.len() ==> (#[trigger] self.effects@[i]).wf()
    }

    pub open spec fn has_flag_spec(self, flag: StatusFlag) -> bool {
        self.flags.has_spec(flag)
    }

    pub fn has_flag(&self, flag: &StatusFlag) -> (r: bool)
        ensures
            r == self.has_flag_spec(*flag),
    {
        self.flags.contains(flag)
    }

    /// A verified copy carrying the same definition.
    pub fn duplicate(&self) -> (r: Status)
        ensures
            r.equiv(*self),
    {
        Status {
            name: self.name.clone(),
            duration: self.duration,
            effects: copy_effects(&self.effects),
            flags: self.flags.duplicate(),
        }
    }
}

impl Default for Status {
    fn default() -> (r: Self)
        ensures
            r.name@ == Seq::<char>::empty(),
            r.duration == 0,
            r.effects@ == Seq::<Effect>::empty(),
            r.flags.0@ == Seq::<StatusFlag>::empty(),
    {
        Status { name: String::new(), duration: 0, effects: Vec::new(), flags: StatusFlags(Vec::new()) }
    }
}

} // verus!
