use sim::actor::stat::{Stat, Stats};

#[test]
fn get() {
    let mut stats = Stats::default();
    stats.add(Stat::CriticalHitRate, 10);
    assert_eq!(10, stats.get(Stat::CriticalHitRate));
    stats.set_base(Stat::CriticalHitRate, 5);
    assert_eq!(15, stats.get(Stat::CriticalHitRate));
}

#[test]
fn add() {
    let mut stats = Stats::default();
    stats.add(Stat::CriticalHitRate, 10);
    assert_eq!(10, stats.get(Stat::CriticalHitRate));
}

#[test]
fn set_base() {
    let mut stats = Stats::default();
    stats.set_base(Stat::CriticalHitRate, 10);
    assert_eq!(10, stats.get_base(Stat::CriticalHitRate));
    assert_eq!(0, stats.get_delta(Stat::CriticalHitRate));
    assert_eq!(10, stats.get(Stat::CriticalHitRate));
}

#[test]
fn reset() {
    let mut stats = Stats::default();
    stats.set_base(Stat::CriticalHitRate, 10);
    stats.add(Stat::CriticalHitRate, 5);
    assert_eq!(15, stats.get(Stat::CriticalHitRate));
    stats.reset();
    assert_eq!(10, stats.get(Stat::CriticalHitRate));
}

#[test]
fn reset_clears_special() {
    let mut stats = Stats::default();
    stats.set_special(sim::actor::stat::SpecialStat::CriticalHitPercentOverride, 100);
    assert_eq!(Some(100), stats.get_special(sim::actor::stat::SpecialStat::CriticalHitPercentOverride));
    stats.reset();
    assert_eq!(None, stats.get_special(sim::actor::stat::SpecialStat::CriticalHitPercentOverride));
}
