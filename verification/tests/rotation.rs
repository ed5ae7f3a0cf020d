use sim::actor::action::Action;
use sim::actor::active_combos::ActiveCombos;
use sim::actor::apply::{ApplyCombo, Effect};
use sim::actor::recast_expirations::RecastExpirations;
use sim::actor::rotation::{CheckCombo, Rotation, RotationEntry};

#[test]
fn get_next_action() -> std::result::Result<(), String> {
    let mut rotation = Rotation::default();
    rotation.add(RotationEntry { action_id: 0, ..Default::default() });
    rotation.add(RotationEntry { action_id: 1, ..Default::default() });

    let recast_expirations = RecastExpirations::default();
    let active_combos = ActiveCombos::default();
    let id = rotation.get_next_action_id(10, &recast_expirations, &active_combos);
    assert_eq!(0, id.unwrap());
    Ok(())
}

#[test]
fn get_next_action_first_not_ready() -> std::result::Result<(), String> {
    let mut rotation = Rotation::default();
    rotation.add(RotationEntry { action_id: 0, ..Default::default() });
    rotation.add(RotationEntry { action_id: 1, ..Default::default() });

    let sim_time = 10;
    let mut recast_expirations = RecastExpirations::default();
    recast_expirations.set(0, sim_time + 1);

    let active_combos = ActiveCombos::default();
    let id = rotation.get_next_action_id(sim_time, &recast_expirations, &active_combos);
    assert_eq!(1, id.unwrap());
    Ok(())
}

#[test]
fn get_next_action_first_failed_condition() {
    let vorpal_thrust = Action { id: 2, name: "Vorpal Thrust".to_string(), ..Default::default() };
    let true_thrust = Action {
        id: 1,
        name: "True Thrust".to_string(),
        results: vec![Effect::ApplyCombo(ApplyCombo(1))],
        ..Default::default()
    };
    let mut rotation = Rotation::default();
    rotation.add(RotationEntry::new(&vorpal_thrust).with_condition(CheckCombo(1)));
    rotation.add(RotationEntry::new(&true_thrust));

    let recast_expirations = RecastExpirations::default();
    let mut active_combos = ActiveCombos::default();
    let id = rotation.get_next_action_id(0, &recast_expirations, &active_combos);
    assert_eq!(1, id.unwrap());
    active_combos.add_action(1);
    let id = rotation.get_next_action_id(0, &recast_expirations, &active_combos);
    assert_eq!(2, id.unwrap());
}
