//! Per-actor numeric attributes: a base value fixed at setup plus a
//! transient delta and a transient special override, both cleared every
//! tick.

use crate::arith::{sat_add_i64, sat_i64};
use vstd::prelude::*;

verus! {

#[derive(PartialEq, Eq, Structural, Hash, Copy, Clone, Debug)]
pub enum Stat {
    // primary
    Strength,
    Dexterity,
    Vitality,
    Intelligence,
    Mind,
    // offensive
    CriticalHitRate,
    Determination,
    DirectHitRate,
    // defensive
    Defense,
    MagicDefense,
    // physical properties
    AttackPower,
    SkillSpeed,
    // mental properties
    AttackMagicPotency,
    HealingMagicPotency,
    SpellSpeed,
    // role
    Piety,
    Tenacity,
    // other
    PhysicalWeaponDamage,
    MagicWeaponDamage,
}

#[derive(PartialEq, Eq, Structural, Hash, Copy, Clone, Debug)]
pub enum SpecialStat {
    CriticalHitPercentOverride,
}

/// How many `Stat` variants there are; the length of each backing table.
pub const STAT_COUNT: usize = 19;

pub open spec fn stat_index_spec(s: Stat) -> int {
    match s {
        Stat::Strength => 0,
        Stat::Dexterity => 1,
        Stat::Vitality => 2,
        Stat::Intelligence => 3,
        Stat::Mind => 4,
        Stat::CriticalHitRate => 5,
        Stat::Determination => 6,
        Stat::DirectHitRate => 7,
        Stat::Defense => 8,
        Stat::MagicDefense => 9,
        Stat::AttackPower => 10,
        Stat::SkillSpeed => 11,
        Stat::AttackMagicPotency => 12,
        Stat::HealingMagicPotency => 13,
        Stat::SpellSpeed => 14,
        Stat::Piety => 15,
        Stat::Tenacity => 16,
        Stat::PhysicalWeaponDamage => 17,
        Stat::MagicWeaponDamage => 18,
    }
}

/// Each stat has its own slot in the backing tables.
pub proof fn lemma_stat_index_injective(a: Stat, b: Stat)
    ensures
        a != b ==> stat_index_spec(a) != stat_index_spec(b),
{
}

fn stat_index(s: Stat) -> (r: usize)
    ensures
        r == stat_index_spec(s),
        r < STAT_COUNT,
{
    match s {
        Stat::Strength => 0,
        Stat::Dexterity => 1,
        Stat::Vitality => 2,
        Stat::Intelligence => 3,
        Stat::Mind => 4,
        Stat::CriticalHitRate => 5,
        Stat::Determination => 6,
        Stat::DirectHitRate => 7,
        Stat::Defense => 8,
        Stat::MagicDefense => 9,
        Stat::AttackPower => 10,
        Stat::SkillSpeed => 11,
        Stat::AttackMagicPotency => 12,
        Stat::HealingMagicPotency => 13,
        Stat::SpellSpeed => 14,
        Stat::Piety => 15,
        Stat::Tenacity => 16,
        Stat::PhysicalWeaponDamage => 17,
        Stat::MagicWeaponDamage => 18,
    }
}

fn zero_table() -> (v: Vec<i64>)
    ensures
        v@.len() == STAT_COUNT,
        forall|i: int| 0 <= i < v@.len() ==> v@[i] == 0i64,
{
    let mut v: Vec<i64> = Vec::new();
    let mut i: usize = 0;
    while i < STAT_COUNT
        invariant
            i <= STAT_COUNT,
            v@.len() == i,
            forall|j: int| 0 <= j < v@.len() ==> v@[j] == 0i64,
        decreases STAT_COUNT - i,
    {
        v.push(0);
        i = i + 1;
    }
    v
}

pub struct Stats {
    pub base: Vec<i64>,
    pub delta: Vec<i64>,
    pub special: Option<i64>,
}

impl Stats {
    pub open spec fn wf(self) -> bool {
        &&& self.base@.len() == STAT_COUNT
        &&& self.delta@.len() == STAT_COUNT
    }

    /// The permanent part of a stat, set once at actor creation.
    pub open spec fn base_at(self, s: Stat) -> int {
        self.base@[stat_index_spec(s)] as int
    }

    /// The transient part of a stat, reset every tick.
    pub open spec fn delta_at(self, s: Stat) -> int {
        self.delta@[stat_index_spec(s)] as int
    }

    /// What `get` returns: base plus delta, clamped into `i64`.
    pub open spec fn spec_get(self, s: Stat) -> int {
        sat_i64(self.base_at(s) + self.delta_at(s))
    }

    /// The transient special override, if any is in force.
    pub open spec fn special_spec(self) -> Option<i64> {
        self.special
    }

    pub fn new() -> (r: Self)
        ensures
            r.wf(),
            forall|s: Stat| r.base_at(s) == 0 && r.delta_at(s) == 0,
            r.special_spec() is None,
    {
        Stats { base: zero_table(), delta: zero_table(), special: None }
    }

    pub fn get(&self, stat: Stat) -> (r: i64)
        requires
            self.wf(),
        ensures
            r == self.spec_get(stat),
    {
        let i = stat_index(stat);
        sat_add_i64(self.delta[i], self.base[i])
    }

    pub fn add(&mut self, stat: Stat, amount: i64)
        requires
            old(self).wf(),
        ensures
            final(self).wf(),
            final(self).base == old(self).base,
            final(self).special == old(self).special,
            final(self).delta_at(stat) == sat_i64(old(self).delta_at(stat) + amount),
            forall|s: Stat| s != stat ==> final(self).delta_at(s) == old(self).delta_at(s),
            forall|s: Stat| final(self).base_at(s) == old(self).base_at(s),
            final(self).special_spec() == old(self).special_spec(),
    {
        let i = stat_index(stat);
        let v = sat_add_i64(self.delta[i], amount);
        self.delta[i] = v;
        proof {
            assert forall|s: Stat| s != stat implies final(self).delta_at(s) == old(self).delta_at(
                s,
            ) by {
                lemma_stat_index_injective(s, stat);
            }
        }
    }

    /// Clear the transient state: afterwards every stat reads as exactly
    /// its base value, and no special override is in force.
    pub fn reset(&mut self)
        requires
            old(self).wf(),
        ensures
            final(self).wf(),
            final(self).base == old(self).base,
            forall|s: Stat| final(self).base_at(s) == old(self).base_at(s),
            forall|s: Stat| final(self).delta_at(s) == 0,
            final(self).special_spec() is None,
            forall|s: Stat| final(self).spec_get(s) == old(self).base_at(s),
    {
        self.delta = zero_table();
        self.special = None;
    }

    pub fn set_base(&mut self, stat: Stat, amount: i64)
        requires
            old(self).wf(),
        ensures
            final(self).wf(),
            final(self).delta == old(self).delta,
            final(self).special == old(self).special,
            final(self).base_at(stat) == amount,
            forall|s: Stat| s != stat ==> final(self).base_at(s) == old(self).base_at(s),
            forall|s: Stat| final(self).delta_at(s) == old(self).delta_at(s),
            final(self).special_spec() == old(self).special_spec(),
    {
        let i = stat_index(stat);
        self.base[i] = amount;
        proof {
            assert forall|s: Stat| s != stat implies final(self).base_at(s) == old(self).base_at(
                s,
            ) by {
                lemma_stat_index_injective(s, stat);
            }
        }
    }

    pub fn set_special(&mut self, stat: SpecialStat, amount: i64)
        requires
            old(self).wf(),
        ensures
            final(self).wf(),
            final(self).base == old(self).base,
            final(self).delta == old(self).delta,
            match stat {
                SpecialStat::CriticalHitPercentOverride => final(self).special_spec() == Some(
                    amount,
                ),
            },
            forall|s: Stat| final(self).base_at(s) == old(self).base_at(s),
            forall|s: Stat| final(self).delta_at(s) == old(self).delta_at(s),
    {
        match stat {
            SpecialStat::CriticalHitPercentOverride => {
                self.special = Some(amount);
            },
        }
    }

    pub fn get_special(&self, stat: SpecialStat) -> (r: Option<i64>)
        ensures
            match stat {
                SpecialStat::CriticalHitPercentOverride => r == self.special_spec(),
            },
    {
        match stat {
            SpecialStat::CriticalHitPercentOverride => self.special,
        }
    }

    /// Read only the permanent part of a stat.
    pub fn get_base(&self, stat: Stat) -> (r: i64)
        requires
            self.wf(),
        ensures
            r == self.base_at(stat),
    {
        let i = stat_index(stat);
        self.base[i]
    }

    /// Read only the transient part of a stat.
    pub fn get_delta(&self, stat: Stat) -> (r: i64)
        requires
            self.wf(),
        ensures
            r == self.delta_at(stat),
    {
        let i = stat_index(stat);
        self.delta[i]
    }
}

impl Default for Stats {
    fn default() -> (r: Self)
        ensures
            r.wf(),
            forall|s: Stat| r.base_at(s) == 0 && r.delta_at(s) == 0,
            r.special_spec() is None,
    {
        Stats::new()
    }
}

} // verus!
