use sim::sim::{SimRng, SimState, MS_PER_TICK};

#[test]
fn tick_advances_by_fixed_step() {
    let mut sim_state = SimState::default();
    assert_eq!(0, sim_state.now());
    assert_eq!(MS_PER_TICK, sim_state.tick());
    assert_eq!(2 * MS_PER_TICK, sim_state.tick());
    assert_eq!(2 * MS_PER_TICK, sim_state.now());
}

#[test]
fn real_rng_stays_in_range() {
    let sim_state = SimState::default();
    for _ in 0..200 {
        let p = sim_state.rng.random_permille();
        assert!(p < 1000);
        let v = sim_state.rng.random_from_range(95, 106);
        assert!((95..106).contains(&v));
    }
}
