use sim::actor::active_combos::ActiveCombos;
use sim::actor::apply::DoDirectDamage;

#[test]
fn potency() {
    let ddd = DoDirectDamage {
        potency: 100,
        combo_potency: Some(200),
        combo_action_id: Some(1),
        ..Default::default()
    };
    let mut active_combos = ActiveCombos::default();
    active_combos.add_action(2);
    assert_eq!(false, ddd.consume_combo(&mut active_combos));
    active_combos.add_action(1);
    assert_eq!(true, ddd.consume_combo(&mut active_combos));
    assert_eq!(false, ddd.consume_combo(&mut active_combos));
    assert_eq!(true, active_combos.has_action(&2));
    assert_eq!(false, active_combos.has_action(&1));
}
