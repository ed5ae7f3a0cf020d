use sim::actor::damage::Damage;
use sim::actor::gcd::Gcd;

#[test]
fn gcd_ready() {
    let mut gcd = Gcd { expiration: 1, duration: 2500 };
    assert_eq!(true, gcd.ready(1));
    assert_eq!(true, gcd.ready(2));
    assert_eq!(false, gcd.ready(0));
}

#[test]
fn gcd_start() {
    let mut gcd = Gcd { duration: 2500, ..Default::default() };
    gcd.start(1000);
    assert_eq!(3500, gcd.expiration);
    assert_eq!(false, gcd.ready(3499));
    assert_eq!(true, gcd.ready(3500));
}

#[test]
fn damage_accumulates() {
    let mut damage = Damage::default();
    damage.add(10);
    assert_eq!(10, damage.0);
    damage.add(5);
    assert_eq!(15, damage.0);
}

#[test]
fn damage_saturates() {
    let mut damage = Damage(i64::MAX - 1);
    damage.add(10);
    assert_eq!(i64::MAX, damage.0);
}
