use hex_tactics::figure::health::Health;

#[test]
fn new_health_is_full() {
    let health = Health::new(12);
    assert_eq!(health.current(), 12);
    assert_eq!(health.max(), 12);
}

#[test]
fn health_clamping() {
    // current 5 of 10
    let mut health = Health::new(10);
    assert_eq!(health.suffer(5), 5);
    assert_eq!(health.current(), 5);

    let actual_damage = health.suffer(100);
    assert_eq!(actual_damage, 5);
    assert_eq!(health.current(), 0);

    let actual_heal = health.heal(3);
    assert_eq!(actual_heal, 3);
    assert_eq!(health.current(), 3);
    assert_eq!(health.max(), 10);
}

#[test]
fn heal_stops_at_max() {
    let mut health = Health::new(10);
    health.suffer(4);
    assert_eq!(health.heal(100), 4);
    assert_eq!(health.current(), 10);
    assert_eq!(health.heal(1), 0);
    assert_eq!(health.current(), 10);
}

#[test]
fn suffer_nothing_and_heal_nothing() {
    let mut health = Health::new(7);
    assert_eq!(health.suffer(0), 0);
    assert_eq!(health.current(), 7);
    health.suffer(2);
    assert_eq!(health.heal(0), 0);
    assert_eq!(health.current(), 5);
}

#[test]
fn suffer_exactly_what_is_left() {
    let mut health = Health::new(7);
    assert_eq!(health.suffer(7), 7);
    assert_eq!(health.current(), 0);
    assert_eq!(health.suffer(1), 0);
    assert_eq!(health.current(), 0);
}

#[test]
fn heal_at_the_limit_of_the_machine() {
    let mut health = Health::new(usize::MAX);
    assert_eq!(health.suffer(usize::MAX), usize::MAX);
    assert_eq!(health.heal(usize::MAX), usize::MAX);
    assert_eq!(health.current(), usize::MAX);
    health.suffer(1);
    assert_eq!(health.heal(usize::MAX), 1);
}

#[test]
fn healing_back_the_damage_taken_restores_the_hit_points() {
    for max in 0..6usize {
        for before in 0..=max {
            for damage in 0..8usize {
                let mut health = Health::new(max);
                health.suffer(max - before);
                let actual = health.suffer(damage);
                assert_eq!(health.heal(actual), actual);
                assert_eq!(health.current(), before);
            }
        }
    }
}
