use sim::actor::action::Action;
use sim::actor::apply::{
    ApplyCombo, DoDirectDamage, Effect, GiveStatusEffect, SimError, StartGcd, StartRecast,
};
use sim::actor::calc::lookup::Job;
use sim::actor::rotation::{CheckCombo, RotationEntry};
use sim::actor::stat::{SpecialStat, Stat};
use sim::actor::status_effect::status::{
    ModifySpecialStat, ModifyStat, Status, StatusFlag, StatusFlags,
};
use sim::actor::status_effect::StatusEffect;
use sim::actor::{Actor, Target};
use sim::sim::{SimRng, SimState};
use sim::world::World;

/// Fails both hit rolls (unless a forced critical percentage is in
/// force) and pins the variance roll at 100.
struct FixedRng;

impl SimRng for FixedRng {
    fn random_permille(&self) -> u64 {
        999
    }

    fn random_from_range(&self, _low_inclusive: i64, _high_exclusive: i64) -> i64 {
        100
    }
}

fn dragoon(job: Job) -> Actor {
    let mut actor = Actor::new(job);
    actor.stats.set_base(Stat::PhysicalWeaponDamage, 134);
    actor.stats.set_base(Stat::Strength, 5435);
    actor.stats.set_base(Stat::CriticalHitRate, 3543);
    actor.stats.set_base(Stat::Determination, 2965);
    actor.stats.set_base(Stat::DirectHitRate, 1620);
    actor.stats.set_base(Stat::AttackPower, 5435);
    actor.stats.set_base(Stat::Tenacity, 606);
    actor
}

/// The Life Surge / True Thrust / Vorpal Thrust opener: the off-cooldown
/// buff is taken first, the damage follows under it, and the combo
/// follow-up lands once the global cooldown frees up.
#[test]
fn scenario_life_surge_true_thrust() {
    let mut world = World::new(SimState::new(FixedRng));
    let life_surge_status = Status {
        name: "Life Surge".to_string(),
        duration: 10000,
        flags: StatusFlags::new(&[StatusFlag::ExpireOnDirectDamage]),
        effects: vec![Effect::ModifySpecialStat(ModifySpecialStat {
            stat: SpecialStat::CriticalHitPercentOverride,
            amount: 100,
        })],
    };
    let ls_id = world.add_status_def(life_surge_status);

    let life_surge = Action {
        id: 0,
        name: "Life Surge".to_string(),
        ogcd: true,
        results: vec![
            Effect::GiveStatusEffect(GiveStatusEffect { status: ls_id, target_source: true }),
            Effect::StartRecast(StartRecast { action_id: 0, duration: 45000 }),
        ],
    };
    let true_thrust = Action {
        id: 1,
        name: "True Thrust".to_string(),
        ogcd: false,
        results: vec![
            Effect::DoDirectDamage(DoDirectDamage { potency: 290, ..Default::default() }),
            Effect::ApplyCombo(ApplyCombo(1)),
            Effect::StartGcd(StartGcd::default()),
        ],
    };
    let vorpal_thrust = Action {
        id: 2,
        name: "Vorpal Thrust".to_string(),
        ogcd: false,
        results: vec![
            Effect::DoDirectDamage(DoDirectDamage {
                potency: 140,
                combo_potency: Some(350),
                combo_action_id: Some(1),
                ..Default::default()
            }),
            Effect::StartGcd(StartGcd::default()),
        ],
    };

    let mut source = dragoon(Job::DRG);
    source.rotation.add(RotationEntry::new(&life_surge));
    source.rotation.add(RotationEntry::new(&vorpal_thrust).with_condition(CheckCombo(1)));
    source.rotation.add(RotationEntry::new(&true_thrust));
    source.actions.add(life_surge);
    source.actions.add(true_thrust);
    source.actions.add(vorpal_thrust);
    let source_idx = world.add_actor(source);

    let mut receiver = Actor::new(Job::NONE);
    receiver.target = Some(Target {});
    let target_idx = world.add_actor(receiver);

    // Tick 1: Life Surge wins the rotation (off the global cooldown, no
    // recast yet): it deals no damage, grants the buff, and starts its
    // 45 s recast.
    let now = world.run_tick().unwrap();
    assert_eq!(1000, now);
    assert_eq!(0, world.actors[target_idx].damage.0);
    assert_eq!(1, world.actors[source_idx].status_effects.len());
    assert_eq!(
        false,
        world.actors[source_idx].recast_expirations.check_ready(0, true, now)
    );

    // Tick 2: True Thrust fires under the buff, so the hit is a forced
    // critical; the buff is consumed by the direct damage.
    let now = world.run_tick().unwrap();
    assert_eq!(2000, now);
    assert_eq!(22778, world.actors[target_idx].damage.0);

    // Ticks 3 and 4 idle under the global cooldown; on tick 5 the combo
    // window is still open and Vorpal Thrust lands at combo potency,
    // without the expired buff.
    for _ in 0..3 {
        world.run_tick().unwrap();
    }
    assert_eq!(5000, world.sim.milliseconds);
    assert_eq!(22778 + 17279, world.actors[target_idx].damage.0);

    // Life Surge stays unselectable until its recast expires at 46 s.
    assert_eq!(
        false,
        world.actors[source_idx].recast_expirations.check_ready(0, true, 45999)
    );
    assert_eq!(
        true,
        world.actors[source_idx].recast_expirations.check_ready(0, true, 46000)
    );
}

fn one_shot_world(potency: i64, job: Job) -> World<FixedRng> {
    let mut world = World::new(SimState::new(FixedRng));
    let strike = Action {
        id: 1,
        name: "Strike".to_string(),
        ogcd: false,
        results: vec![Effect::DoDirectDamage(DoDirectDamage { potency, ..Default::default() })],
    };
    let mut source = dragoon(job);
    source.rotation.add(RotationEntry::new(&strike));
    source.actions.add(strike);
    world.add_actor(source);
    let mut receiver = Actor::new(Job::NONE);
    receiver.target = Some(Target {});
    world.add_actor(receiver);
    world
}

#[test]
fn damage_out_of_range_potency() {
    let mut world = one_shot_world(2_000_000, Job::DRG);
    assert_eq!(Err(SimError::DamageOutOfRange), world.run_tick());
}

#[test]
fn damage_out_of_range_unknown_job() {
    let mut world = one_shot_world(100, Job::NONE);
    assert_eq!(Err(SimError::DamageOutOfRange), world.run_tick());
}

#[test]
fn status_modifies_stat_each_tick() {
    let mut world = World::new(SimState::new(FixedRng));
    let buff = Status {
        name: "Determination Up".to_string(),
        duration: 10000,
        flags: StatusFlags::new(&[]),
        effects: vec![Effect::ModifyStat(ModifyStat { stat: Stat::Determination, amount: 100 })],
    };
    let mut actor = Actor::new(Job::DRG);
    actor.stats.set_base(Stat::Determination, 340);
    actor.status_effects.add(StatusEffect::new(buff, 0, 0));
    let idx = world.add_actor(actor);

    world.process_status_effects().unwrap();
    assert_eq!(440, world.actors[idx].stats.get(Stat::Determination));
    // The next tick's reset clears the delta before statuses re-apply.
    world.reset_stats();
    assert_eq!(340, world.actors[idx].stats.get(Stat::Determination));
    world.process_status_effects().unwrap();
    assert_eq!(440, world.actors[idx].stats.get(Stat::Determination));
}

#[test]
fn reset_transient_stats() {
    let mut world = World::new(SimState::new(FixedRng));
    let mut actor = Actor::new(Job::DRG);
    actor.stats.set_base(Stat::Determination, 300);
    actor.stats.add(Stat::Determination, 55);
    actor.stats.set_special(SpecialStat::CriticalHitPercentOverride, 100);
    let idx = world.add_actor(actor);
    assert_eq!(355, world.actors[idx].stats.get(Stat::Determination));
    world.reset_stats();
    assert_eq!(300, world.actors[idx].stats.get(Stat::Determination));
    assert_eq!(
        None,
        world.actors[idx].stats.get_special(SpecialStat::CriticalHitPercentOverride)
    );
}
