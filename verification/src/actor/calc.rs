//! The damage formula: converts an action's potency and the attacker's
//! stats into an integer damage amount, flooring at every bracketed step.
//! The two hit rolls have a resolution of a tenth of a percent, so they
//! are drawn as an integer out of a thousand; rate functions likewise
//! return tenths of a percent.

pub mod lookup;

use crate::actor::stat::{SpecialStat, Stat, Stats};
use crate::arith::{
    clamp_i128_to_i64, floor_div_i128, floor_div_i64, lemma_floor_div_bound, lemma_mul_bound,
    sat_i64,
};
use crate::sim::{SimRng, SimState};
use lookup::{
    is_tank_spec, job_modifiers, job_modifiers_spec, level_modifiers, level_modifiers_spec,
    primary_stat_spec, trait_multiplier_spec, Job, LevelColumn,
};
use vstd::prelude::*;

verus! {

#[derive(PartialEq, Eq, Structural, Copy, Clone, Debug)]
pub enum AttackType {
    PHYSICAL,
    MAGIC,
}

impl Default for AttackType {
    fn default() -> (r: Self)
        ensures
            r == AttackType::PHYSICAL,
    {
        AttackType::PHYSICAL
    }
}

/// Largest stat magnitude the formula accepts without risking overflow.
pub const STAT_LIMIT: i64 = 100_000;

/// Largest potency magnitude the formula accepts without risking overflow.
pub const POTENCY_LIMIT: i64 = 1_000_000;

/// The level-80 attack-power function; tank jobs use a flatter
/// coefficient.
pub open spec fn attack_power_spec(job: Job, ap: int) -> int {
    if is_tank_spec(job) {
        115 * (ap - 340) / 340 + 100
    } else {
        165 * (ap - 340) / 340 + 100
    }
}

pub fn attack_power(job: Job, ap: i64) -> (r: i64)
    requires
        -STAT_LIMIT <= ap <= STAT_LIMIT,
    ensures
        r == attack_power_spec(job, ap as int),
        -50_000 <= r <= 50_000,
{
    if job.is_tank() {
        proof {
            lemma_floor_div_bound(115 * (ap - 340), 340, 48_695);
        }
        floor_div_i64(115 * (ap - 340), 340) + 100
    } else {
        proof {
            lemma_floor_div_bound(165 * (ap - 340), 340, 48_695);
        }
        floor_div_i64(165 * (ap - 340), 340) + 100
    }
}

pub open spec fn determination_spec(det: int) -> int {
    130 * (det - level_modifiers_spec(LevelColumn::MAIN)) / level_modifiers_spec(LevelColumn::DIV)
        + 1000
}

pub fn determination(det: i64) -> (r: i64)
    requires
        -STAT_LIMIT <= det <= STAT_LIMIT,
    ensures
        r == determination_spec(det as int),
        -5000 <= r <= 5000,
{
    let main = level_modifiers(LevelColumn::MAIN);
    let div = level_modifiers(LevelColumn::DIV);
    proof {
        lemma_floor_div_bound(130 * (det - 340), 3300, 3953);
    }
    floor_div_i64(130 * (det - main), div) + 1000
}

pub open spec fn tenacity_spec(tnc: int) -> int {
    100 * (tnc - level_modifiers_spec(LevelColumn::SUB)) / level_modifiers_spec(LevelColumn::DIV)
        + 1000
}

pub fn tenacity(tnc: i64) -> (r: i64)
    requires
        -STAT_LIMIT <= tnc <= STAT_LIMIT,
    ensures
        r == tenacity_spec(tnc as int),
        -5000 <= r <= 5000,
{
    let sub = level_modifiers(LevelColumn::SUB);
    let div = level_modifiers(LevelColumn::DIV);
    proof {
        lemma_floor_div_bound(100 * (tnc - 380), 3300, 3042);
    }
    floor_div_i64(100 * (tnc - sub), div) + 1000
}

/// The weapon-damage function.  The weapon-damage stat handed in must be
/// the one that fits the attack being calculated (physical or magic).
pub open spec fn weapon_damage_spec(job: Job, wd: int) -> int {
    level_modifiers_spec(LevelColumn::MAIN) * job_modifiers_spec(job, primary_stat_spec(job))
        / 1000 + wd
}

pub fn weapon_damage(job: Job, wd: i64) -> (r: i64)
    requires
        job != Job::NONE,
        -STAT_LIMIT <= wd <= STAT_LIMIT,
    ensures
        r == weapon_damage_spec(job, wd as int),
        -101_000 <= r <= 101_000,
{
    let main = level_modifiers(LevelColumn::MAIN);
    let jm = job_modifiers(job, job.primary_stat());
    proof {
        assert(0 <= job_modifiers_spec(job, primary_stat_spec(job)) <= 115);
        lemma_floor_div_bound(340 * jm, 1000, 40);
    }
    floor_div_i64(main * jm, 1000) + wd
}

/// The critical-hit rate, in tenths of a percent.
pub open spec fn critical_hit_rate_spec(chr: int) -> int {
    200 * (chr - level_modifiers_spec(LevelColumn::SUB)) / level_modifiers_spec(LevelColumn::DIV)
        + 50
}

pub fn critical_hit_rate(chr: i64) -> (r: i64)
    requires
        -STAT_LIMIT <= chr <= STAT_LIMIT,
    ensures
        r == critical_hit_rate_spec(chr as int),
        -17_000 <= r <= 17_000,
{
    let sub = level_modifiers(LevelColumn::SUB);
    let div = level_modifiers(LevelColumn::DIV);
    proof {
        lemma_floor_div_bound(200 * (chr - 380), 3300, 6084);
    }
    floor_div_i64(200 * (chr - sub), div) + 50
}

/// The threshold, in tenths of a percent, that a hit roll must fall
/// below to be a critical hit.  A special override, given as a whole
/// percentage, takes the place of the rate derived from the stat.
pub open spec fn crit_threshold_spec(chr: int, crit_percent_override: Option<i64>) -> int {
    match crit_percent_override {
        Some(p) => 10 * p,
        None => critical_hit_rate_spec(chr),
    }
}

pub open spec fn is_crit_spec(roll: int, chr: int, crit_percent_override: Option<i64>) -> bool {
    roll < crit_threshold_spec(chr, crit_percent_override)
}

pub fn is_crit<R: SimRng>(
    sim: &SimState<R>,
    chr: i64,
    crit_percent_override: Option<i64>,
) -> (r: bool)
    requires
        -STAT_LIMIT <= chr <= STAT_LIMIT,
    ensures
        exists|roll: int|
            0 <= roll < 1000 && r == is_crit_spec(roll, chr as int, crit_percent_override),
{
    let roll = sim.rng.random_permille();
    let roll_i = roll as i64;
    let r = match crit_percent_override {
        Some(p) => {
            if p >= 100 {
                true
            } else if p <= 0 {
                false
            } else {
                roll_i < p * 10
            }
        },
        None => roll_i < critical_hit_rate(chr),
    };
    proof {
        assert(0 <= (roll as int) && (roll as int) < 1000 && r == is_crit_spec(
            roll as int,
            chr as int,
            crit_percent_override,
        ));
    }
    r
}

pub open spec fn critical_hit_damage_spec(crit: int) -> int {
    200 * (crit - level_modifiers_spec(LevelColumn::SUB)) / level_modifiers_spec(LevelColumn::DIV)
        + 1400
}

/// The damage multiplier, scaled by a thousand, of a landed critical
/// hit.
pub fn critical_hit_damage(crit: i64) -> (r: i64)
    requires
        -STAT_LIMIT <= crit <= STAT_LIMIT,
    ensures
        r == critical_hit_damage_spec(crit as int),
        -4700 <= r <= 7500,
{
    let sub = level_modifiers(LevelColumn::SUB);
    let div = level_modifiers(LevelColumn::DIV);
    proof {
        lemma_floor_div_bound(200 * (crit - 380), 3300, 6084);
    }
    floor_div_i64(200 * (crit - sub), div) + 1400
}

/// What the critical-hit roll contributes: the critical multiplier on a
/// hit, and one (scaled by a thousand) otherwise.
pub open spec fn crit_factor_spec(roll: int, crit: int, crit_percent_override: Option<i64>) -> int {
    if is_crit_spec(roll, crit, crit_percent_override) {
        critical_hit_damage_spec(crit)
    } else {
        1000
    }
}

pub fn critical_hit<R: SimRng>(
    sim: &SimState<R>,
    crit: i64,
    crit_percent_override: Option<i64>,
) -> (r: i64)
    requires
        -STAT_LIMIT <= crit <= STAT_LIMIT,
    ensures
        exists|roll: int|
            0 <= roll < 1000 && r == crit_factor_spec(roll, crit as int, crit_percent_override),
        -4700 <= r <= 7500,
{
    let hit = is_crit(sim, crit, crit_percent_override);
    let r = if !hit {
        1000
    } else {
        critical_hit_damage(crit)
    };
    proof {
        let ro = choose|ro: int|
            0 <= ro < 1000 && hit == is_crit_spec(ro, crit as int, crit_percent_override);
        assert(0 <= ro < 1000 && r == crit_factor_spec(ro, crit as int, crit_percent_override));
    }
    r
}

/// The direct-hit rate, in tenths of a percent.
pub open spec fn direct_hit_rate_spec(dhr: int) -> int {
    550 * (dhr - level_modifiers_spec(LevelColumn::SUB)) / level_modifiers_spec(LevelColumn::DIV)
}

pub fn direct_hit_rate(dhr: i64) -> (r: i64)
    requires
        -STAT_LIMIT <= dhr <= STAT_LIMIT,
    ensures
        r == direct_hit_rate_spec(dhr as int),
        -17_000 <= r <= 17_000,
{
    let sub = level_modifiers(LevelColumn::SUB);
    let div = level_modifiers(LevelColumn::DIV);
    proof {
        lemma_floor_div_bound(550 * (dhr - 380), 3300, 16_731);
    }
    floor_div_i64(550 * (dhr - sub), div)
}

pub open spec fn is_direct_spec(roll: int, dhr: int) -> bool {
    roll < direct_hit_rate_spec(dhr)
}

pub fn is_direct<R: SimRng>(sim: &SimState<R>, dhr: i64) -> (r: bool)
    requires
        -STAT_LIMIT <= dhr <= STAT_LIMIT,
    ensures
        exists|roll: int| 0 <= roll < 1000 && r == is_direct_spec(roll, dhr as int),
{
    let roll = sim.rng.random_permille();
    let roll_i = roll as i64;
    let r = roll_i < direct_hit_rate(dhr);
    proof {
        assert(0 <= (roll as int) && (roll as int) < 1000 && r == is_direct_spec(
            roll as int,
            dhr as int,
        ));
    }
    r
}

/// What the direct-hit roll contributes: a multiplier scaled by a
/// hundred.
pub open spec fn direct_hit_factor_spec(roll: int, dhr: int) -> int {
    if is_direct_spec(roll, dhr) {
        125
    } else {
        100
    }
}

pub fn direct_hit<R: SimRng>(sim: &SimState<R>, dhr: i64) -> (r: i64)
    requires
        -STAT_LIMIT <= dhr <= STAT_LIMIT,
    ensures
        exists|roll: int| 0 <= roll < 1000 && r == direct_hit_factor_spec(roll, dhr as int),
        100 <= r <= 125,
{
    let hit = is_direct(sim, dhr);
    let r: i64 = if hit {
        125
    } else {
        100
    };
    proof {
        let ro = choose|ro: int| 0 <= ro < 1000 && hit == is_direct_spec(ro, dhr as int);
        assert(0 <= ro < 1000 && r == direct_hit_factor_spec(ro, dhr as int));
    }
    r
}

/// Fold further external multipliers, given in thousandths, over the
/// damage so far, flooring after each one; a result beyond `i64` is
/// clamped.
pub open spec fn apply_multipliers_spec(d: int, multipliers: Seq<u32>) -> int
    decreases multipliers.len(),
{
    if multipliers.len() == 0 {
        d
    } else {
        apply_multipliers_spec(sat_i64(d * multipliers[0] / 1000), multipliers.drop_first())
    }
}

/// The stat of the weapon-damage value that the attack draws on.
pub open spec fn weapon_damage_stat_spec(attack_type: AttackType) -> Stat {
    match attack_type {
        AttackType::PHYSICAL => Stat::PhysicalWeaponDamage,
        AttackType::MAGIC => Stat::MagicWeaponDamage,
    }
}

/// The inputs on which the damage pipeline is defined: a known job, and
/// potency and stats small enough that no intermediate leaves `i64`.
pub open spec fn damage_inputs_ok(potency: int, job: Job, stats: Stats) -> bool {
    &&& job != Job::NONE
    &&& -POTENCY_LIMIT <= potency <= POTENCY_LIMIT
    &&& -STAT_LIMIT <= stats.spec_get(Stat::AttackPower) <= STAT_LIMIT
    &&& -STAT_LIMIT <= stats.spec_get(Stat::Determination) <= STAT_LIMIT
    &&& -STAT_LIMIT <= stats.spec_get(Stat::Tenacity) <= STAT_LIMIT
    &&& -STAT_LIMIT <= stats.spec_get(Stat::CriticalHitRate) <= STAT_LIMIT
    &&& -STAT_LIMIT <= stats.spec_get(Stat::DirectHitRate) <= STAT_LIMIT
    &&& -STAT_LIMIT <= stats.spec_get(Stat::PhysicalWeaponDamage) <= STAT_LIMIT
    &&& -STAT_LIMIT <= stats.spec_get(Stat::MagicWeaponDamage) <= STAT_LIMIT
}

/// Runtime gate for `damage_inputs_ok`.
pub fn check_damage_inputs(potency: i64, job: Job, stats: &Stats) -> (r: bool)
    requires
        stats.wf(),
    ensures
        r == damage_inputs_ok(potency as int, job, *stats),
{
    job != Job::NONE && -POTENCY_LIMIT <= potency && potency <= POTENCY_LIMIT
        && -STAT_LIMIT <= stats.get(Stat::AttackPower) && stats.get(Stat::AttackPower) <= STAT_LIMIT
        && -STAT_LIMIT <= stats.get(Stat::Determination) && stats.get(Stat::Determination)
        <= STAT_LIMIT && -STAT_LIMIT <= stats.get(Stat::Tenacity) && stats.get(Stat::Tenacity)
        <= STAT_LIMIT && -STAT_LIMIT <= stats.get(Stat::CriticalHitRate) && stats.get(
        Stat::CriticalHitRate,
    ) <= STAT_LIMIT && -STAT_LIMIT <= stats.get(Stat::DirectHitRate) && stats.get(
        Stat::DirectHitRate,
    ) <= STAT_LIMIT && -STAT_LIMIT <= stats.get(Stat::PhysicalWeaponDamage) && stats.get(
        Stat::PhysicalWeaponDamage,
    ) <= STAT_LIMIT && -STAT_LIMIT <= stats.get(Stat::MagicWeaponDamage) && stats.get(
        Stat::MagicWeaponDamage,
    ) <= STAT_LIMIT
}

/// The whole pipeline, as a function of the two hit rolls (out of a
/// thousand) and the variance roll (in `[95, 106)`).  Every division
/// floors, and the flooring order is load-bearing: it must not be
/// reassociated.
pub open spec fn direct_damage_spec(
    potency: int,
    job: Job,
    stats: Stats,
    attack_type: AttackType,
    crit_roll: int,
    dh_roll: int,
    variance: int,
    multipliers: Seq<u32>,
) -> int {
    let fatk = attack_power_spec(job, stats.spec_get(Stat::AttackPower));
    let fdet = determination_spec(stats.spec_get(Stat::Determination));
    let d1 = potency * fatk * fdet / 100 / 1000;
    let ftnc = tenacity_spec(stats.spec_get(Stat::Tenacity));
    let fwd = weapon_damage_spec(job, stats.spec_get(weapon_damage_stat_spec(attack_type)));
    let d2 = d1 * ftnc / 1000 * fwd / 100 * trait_multiplier_spec(job) / 100;
    let cfac = crit_factor_spec(crit_roll, stats.spec_get(Stat::CriticalHitRate), stats.special);
    let dfac = direct_hit_factor_spec(dh_roll, stats.spec_get(Stat::DirectHitRate));
    let d3 = d2 * cfac / 1000 * dfac / 100;
    let d = d3 * variance / 100;
    apply_multipliers_spec(d, multipliers)
}

/// Deal `potency` as damage: draws the critical-hit roll, the direct-hit
/// roll and the variance roll from the simulation's randomness source, in
/// that order, and computes the pipeline on them.
pub fn direct_damage<R: SimRng>(
    sim: &SimState<R>,
    potency: i64,
    job: Job,
    stats: &Stats,
    attack_type: AttackType,
    multipliers: Vec<u32>,
) -> (r: i64)
    requires
        stats.wf(),
        damage_inputs_ok(potency as int, job, *stats),
    ensures
        exists|crit_roll: int, dh_roll: int, variance: int|
            0 <= crit_roll < 1000 && 0 <= dh_roll < 1000 && 95 <= variance < 106 && r
                == direct_damage_spec(
                potency as int,
                job,
                *stats,
                attack_type,
                crit_roll,
                dh_roll,
                variance,
                multipliers@,
            ),
{
    let fatk = attack_power(job, stats.get(Stat::AttackPower));
    let fdet = determination(stats.get(Stat::Determination));
    proof {
        lemma_mul_bound(potency as int, fatk as int, POTENCY_LIMIT as int, 50_000);
        lemma_mul_bound(potency as int * fatk as int, fdet as int, 50_000_000_000, 5000);
        lemma_floor_div_bound(
            potency as int * fatk as int * fdet as int,
            100,
            2_500_000_000_000,
        );
        lemma_floor_div_bound(
            potency as int * fatk as int * fdet as int / 100,
            1000,
            2_500_000_000,
        );
    }
    let d1 = floor_div_i64(floor_div_i64(potency * fatk * fdet, 100), 1000);

    let ftnc = tenacity(stats.get(Stat::Tenacity));
    let wd = match attack_type {
        AttackType::PHYSICAL => stats.get(Stat::PhysicalWeaponDamage),
        AttackType::MAGIC => stats.get(Stat::MagicWeaponDamage),
    };
    let fwd = weapon_damage(job, wd);
    let trait_mult = job.trait_multiplier();
    proof {
        assert(100 <= trait_multiplier_spec(job) <= 150);
        lemma_mul_bound(d1 as int, ftnc as int, 2_500_000_000, 5000);
        lemma_floor_div_bound(d1 as int * ftnc as int, 1000, 12_500_000_000);
        lemma_mul_bound(d1 as int * ftnc as int / 1000, fwd as int, 12_500_000_000, 101_000);
        lemma_floor_div_bound(
            d1 as int * ftnc as int / 1000 * fwd as int,
            100,
            12_625_000_000_000,
        );
        lemma_mul_bound(
            d1 as int * ftnc as int / 1000 * fwd as int / 100,
            trait_mult as int,
            12_625_000_000_000,
            150,
        );
        lemma_floor_div_bound(
            d1 as int * ftnc as int / 1000 * fwd as int / 100 * trait_mult as int,
            100,
            18_937_500_000_000,
        );
    }
    let d2 = floor_div_i64(
        floor_div_i64(floor_div_i64(d1 * ftnc, 1000) * fwd, 100) * trait_mult,
        100,
    );

    let cfac = critical_hit(
        sim,
        stats.get(Stat::CriticalHitRate),
        stats.get_special(SpecialStat::CriticalHitPercentOverride),
    );
    let dfac = direct_hit(sim, stats.get(Stat::DirectHitRate));
    proof {
        lemma_mul_bound(d2 as int, cfac as int, 18_937_500_000_000, 7500);
        lemma_floor_div_bound(d2 as int * cfac as int, 1000, 142_031_250_000_000);
        lemma_mul_bound(
            d2 as int * cfac as int / 1000,
            dfac as int,
            142_031_250_000_000,
            125,
        );
        lemma_floor_div_bound(
            d2 as int * cfac as int / 1000 * dfac as int,
            100,
            177_539_062_500_000,
        );
    }
    let d3 = floor_div_i64(floor_div_i64(d2 * cfac, 1000) * dfac, 100);

    let variance = sim.rng.random_from_range(95, 106);
    proof {
        lemma_mul_bound(d3 as int, variance as int, 177_539_062_500_000, 106);
        lemma_floor_div_bound(
            d3 as int * variance as int,
            100,
            188_191_406_250_000,
        );
    }
    let d = floor_div_i64(d3 * variance, 100);

    let ghost d_before_multipliers = d as int;
    proof {
        assert(multipliers@.skip(0) =~= multipliers@);
    }
    let mut total = d;
    let mut i: usize = 0;
    while i < multipliers.len()
        invariant
            i <= multipliers@.len(),
            apply_multipliers_spec(d_before_multipliers, multipliers@) == apply_multipliers_spec(
                total as int,
                multipliers@.skip(i as int),
            ),
        decreases multipliers@.len() - i,
    {
        let m = multipliers[i];
        proof {
            lemma_mul_bound(total as int, m as int, -(i64::MIN as int), u32::MAX as int);
            assert(multipliers@.skip(i as int).drop_first() =~= multipliers@.skip(i as int + 1));
            assert(multipliers@.skip(i as int)[0] == multipliers@[i as int]);
        }
        let wide = (total as i128) * (m as i128);
        let q = floor_div_i128(wide, 1000);
        total = clamp_i128_to_i64(q);
        i = i + 1;
    }
    proof {
        assert(multipliers@.skip(multipliers@.len() as int) =~= Seq::<u32>::empty());
        let c = choose|roll: int|
            0 <= roll < 1000 && cfac as int == crit_factor_spec(
                roll,
                stats.spec_get(Stat::CriticalHitRate),
                stats.special,
            );
        let dh = choose|roll: int|
            0 <= roll < 1000 && dfac as int == direct_hit_factor_spec(
                roll,
                stats.spec_get(Stat::DirectHitRate),
            );
        assert(total as int == direct_damage_spec(
            potency as int,
            job,
            *stats,
            attack_type,
            c,
            dh,
            variance as int,
            multipliers@,
        ));
    }
    total
}

} // verus!
