use sim::actor::recast_expirations::RecastExpirations;

#[test]
fn check_ready() {
    let mut recast_expirations = RecastExpirations::default();
    recast_expirations.set(0, 0);
    assert_eq!(true, recast_expirations.check_ready(0, false, 0));
}

#[test]
fn check_ready_false() {
    let mut recast_expirations = RecastExpirations::default();
    recast_expirations.set(0, 10);
    assert_eq!(false, recast_expirations.check_ready(0, false, 9));
}

#[test]
fn check_ready_true_greater_sim_time() {
    let mut recast_expirations = RecastExpirations::default();
    recast_expirations.set(0, 10);
    assert_eq!(true, recast_expirations.check_ready(0, false, 11));
}

#[test]
fn check_ready_true_equal_sim_time() {
    let mut recast_expirations = RecastExpirations::default();
    recast_expirations.set(0, 10);
    assert_eq!(true, recast_expirations.check_ready(0, false, 10));
}

#[test]
fn check_ready_gcd() {
    let mut recast_expirations = RecastExpirations { gcd_expiration: 11, ..Default::default() };
    recast_expirations.set(0, 10);
    assert_eq!(false, recast_expirations.check_ready(0, false, 10));
}

#[test]
fn check_ready_gcd_with_ogcd() {
    let mut recast_expirations = RecastExpirations { gcd_expiration: 11, ..Default::default() };
    recast_expirations.set(0, 10);
    assert_eq!(true, recast_expirations.check_ready(0, true, 10));
}

#[test]
fn check_ready_no_recast_with_gcd() {
    let recast_expirations = RecastExpirations { gcd_expiration: 10, ..Default::default() };
    assert_eq!(false, recast_expirations.check_ready(0, false, 9));
}
