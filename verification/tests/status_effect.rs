use sim::actor::status_effect::status::{Status, StatusFlag, StatusFlags};
use sim::actor::status_effect::{StatusEffect, StatusEffects};

#[test]
fn status_effect_new() {
    let status_effect = StatusEffect::new(Status::default(), 1, 10);
    assert_eq!(10, status_effect.expiration);
}

#[test]
fn status_effect_new2() {
    let status_effect = StatusEffect::new(Status { duration: 1000, ..Status::default() }, 1, 10);
    assert_eq!(1010, status_effect.expiration);
}

#[test]
fn receive_status_effect() -> std::result::Result<(), String> {
    let mut effects = StatusEffects::default();
    let status_effect = StatusEffect::new(Status::default(), 1, 10);
    assert_eq!(0, effects.len());
    effects.add(status_effect);
    assert_eq!(1, effects.len());
    Ok(())
}

#[test]
fn remove_expired() {
    let mut effects = StatusEffects::default();
    let should_expire = Status { name: "Should Expire".into(), ..Default::default() };
    let should_not_expire = Status { name: "Should Not Expire".into(), ..Default::default() };
    effects.add(StatusEffect::new(should_expire.clone(), 1, 10));
    effects.add(StatusEffect::new(should_not_expire.clone(), 2, 12));
    effects.add(StatusEffect::new(should_expire.clone(), 1, 10));
    effects.add(StatusEffect::new(should_not_expire.clone(), 2, 12));
    effects.add(StatusEffect::new(should_expire.clone(), 1, 10));
    assert_eq!(5, effects.len());
    effects.remove_expired(11);
    assert_eq!(2, effects.len());

    for i in 0..effects.len() {
        assert_eq!(should_not_expire.name, effects.get(i).status.name);
    }
}

#[test]
fn expire_with_flag() {
    let mut effects = StatusEffects::default();
    let should_expire = Status {
        name: "Should Expire".into(),
        flags: StatusFlags::new(&[StatusFlag::ExpireOnDirectDamage]),
        ..Default::default()
    };
    let should_not_expire = Status { name: "Should Not Expire".into(), ..Default::default() };
    effects.add(StatusEffect::new(should_expire.clone(), 1, 12));
    effects.add(StatusEffect::new(should_not_expire.clone(), 1, 12));

    effects.remove_expired(11);
    assert_eq!(2, effects.len());
    effects.expire_with_flag(StatusFlag::ExpireOnDirectDamage);
    effects.remove_expired(11);
    assert_eq!(1, effects.len());

    for i in 0..effects.len() {
        assert_eq!(should_not_expire.name, effects.get(i).status.name);
    }
}

#[test]
fn is_expired() {
    let effect = StatusEffect::new(Status::default(), 1, 10);
    assert_eq!(false, effect.is_expired(9));
    assert_eq!(true, effect.is_expired(10));
    assert_eq!(true, effect.is_expired(11));
}

#[test]
fn expire() {
    let mut effect = StatusEffect::new(Status::default(), 1, 10);
    assert_eq!(false, effect.is_expired(9));
    effect.expire();
    assert_eq!(true, effect.is_expired(9));
}

#[test]
fn status_effect_has_flag() {
    let effect = StatusEffect::new(
        Status {
            flags: StatusFlags::new(&[StatusFlag::ExpireOnDirectDamage]),
            ..Default::default()
        },
        1,
        10,
    );
    assert_eq!(true, effect.has_flag(&StatusFlag::ExpireOnDirectDamage));
}

#[test]
fn status_effect_has_flag2() {
    let effect = StatusEffect::new(Status::default(), 1, 10);
    assert_eq!(false, effect.has_flag(&StatusFlag::ExpireOnDirectDamage));
}

#[test]
fn status_has_flag() {
    let status = Status::default();
    assert_eq!(false, status.has_flag(&StatusFlag::ExpireOnDirectDamage));
}

#[test]
fn status_has_flag2() {
    let status = Status {
        flags: StatusFlags::new(&[StatusFlag::ExpireOnDirectDamage]),
        ..Default::default()
    };
    assert_eq!(true, status.has_flag(&StatusFlag::ExpireOnDirectDamage));
}
