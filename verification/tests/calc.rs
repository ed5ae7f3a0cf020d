use sim::actor::calc::lookup::Job;
use sim::actor::calc::{
    critical_hit_damage, critical_hit_rate, determination, direct_damage, direct_hit_rate,
    is_crit, tenacity, AttackType,
};
use sim::actor::stat::{Stat, Stats};
use sim::sim::{SimRng, SimState};

pub struct FakeRng {
    permille: u64,
    from_range: i64,
}

impl SimRng for FakeRng {
    fn random_permille(&self) -> u64 {
        self.permille
    }

    fn random_from_range(&self, _low_inclusive: i64, _high_exclusive: i64) -> i64 {
        self.from_range
    }
}

// Rates are in tenths of a percent.
#[test]
fn test_direct_hit_rate() {
    assert_eq!(666, direct_hit_rate(4376));
    assert_eq!(0, direct_hit_rate(380));
    assert_eq!(315, direct_hit_rate(2270));
}

#[test]
fn test_critical_hit_rate() {
    assert_eq!(292, critical_hit_rate(4373));
    assert_eq!(135, critical_hit_rate(1783));
    assert_eq!(50, critical_hit_rate(380));
}

#[test]
fn test_determination() {
    assert_eq!(1000, determination(340));
    assert_eq!(1039, determination(1330));
    assert_eq!(1157, determination(4326));
}

#[test]
fn test_tenacity() {
    assert_eq!(1000, tenacity(380));
    assert_eq!(1079, tenacity(2987));
    assert_eq!(1121, tenacity(4373));
}

#[test]
fn test_critical_hit_damage() {
    assert_eq!(1642, critical_hit_damage(4373));
    assert_eq!(1485, critical_hit_damage(1783));
    assert_eq!(1400, critical_hit_damage(380));
}

#[test]
fn test_attack_power() {
    // The tank coefficient is flatter than the general one.
    assert_eq!(1823, sim::actor::calc::attack_power(Job::PLD, 5435));
    assert_eq!(2572, sim::actor::calc::attack_power(Job::DRG, 5435));
    assert_eq!(100, sim::actor::calc::attack_power(Job::DRG, 340));
}

#[test]
fn test_weapon_damage() {
    // 340 * 100 (paladin strength modifier) / 1000 + 134
    assert_eq!(168, sim::actor::calc::weapon_damage(Job::PLD, 134));
    // 340 * 115 (dragoon strength modifier) / 1000 + 134
    assert_eq!(173, sim::actor::calc::weapon_damage(Job::DRG, 134));
}

#[test]
fn test_is_crit() {
    let sim = SimState::new(FakeRng { permille: 500, from_range: 100 });
    assert_eq!(false, is_crit(&sim, 0, None));
}

#[test]
fn test_is_crit_with_override() {
    let sim = SimState::new(FakeRng { permille: 500, from_range: 100 });
    assert_eq!(true, is_crit(&sim, 0, Some(51)));
}

fn get_stats() -> Stats {
    let mut stats = Stats::default();
    stats.set_base(Stat::PhysicalWeaponDamage, 134);
    stats.set_base(Stat::Strength, 5435);
    stats.set_base(Stat::Dexterity, 326);
    stats.set_base(Stat::Vitality, 6258);
    stats.set_base(Stat::Intelligence, 206);
    stats.set_base(Stat::Mind, 339);
    stats.set_base(Stat::CriticalHitRate, 3543);
    stats.set_base(Stat::Determination, 2965);
    stats.set_base(Stat::DirectHitRate, 1620);
    stats.set_base(Stat::Defense, 8740);
    stats.set_base(Stat::MagicDefense, 8740);
    stats.set_base(Stat::AttackPower, 5435);
    stats.set_base(Stat::SkillSpeed, 1012);
    stats.set_base(Stat::AttackMagicPotency, 206);
    stats.set_base(Stat::HealingMagicPotency, 339);
    stats.set_base(Stat::SpellSpeed, 380);
    stats.set_base(Stat::Tenacity, 606);
    stats.set_base(Stat::Piety, 340);
    stats
}

// A draw of 999 out of 1000 fails both hit rolls at these rates, and
// the variance roll is pinned at 100: the regression value fixes the
// flooring order of the formula.
#[test]
fn test_expected_damage() {
    let sim = SimState::new(FakeRng { permille: 999, from_range: 100 });
    let stats = get_stats();
    let potency = 200;
    let job = Job::PLD;
    let attack_type = AttackType::PHYSICAL;

    assert_eq!(6795, direct_damage(&sim, potency, job, &stats, attack_type, vec![]));
}
