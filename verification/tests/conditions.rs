use hex_tactics::figure::condition::{ConditionKind, Conditions};

const ALL: [ConditionKind; 7] = [
    ConditionKind::Invisible,
    ConditionKind::Strengthen,
    ConditionKind::Wound,
    ConditionKind::Poison,
    ConditionKind::Immobilize,
    ConditionKind::Disarm,
    ConditionKind::Muddle,
];

#[test]
fn new_conditions_have_nothing_active() {
    let conditions = Conditions::new(&[ConditionKind::Muddle, ConditionKind::Wound]);
    for kind in ALL {
        assert!(!conditions.has(kind));
        assert_eq!(
            conditions.is_immune(kind),
            kind == ConditionKind::Muddle || kind == ConditionKind::Wound
        );
    }
}

#[test]
fn immunities_given_twice_count_once() {
    let conditions = Conditions::new(&[ConditionKind::Poison, ConditionKind::Poison]);
    assert!(conditions.is_immune(ConditionKind::Poison));
    assert!(!conditions.is_immune(ConditionKind::Wound));
}

#[test]
fn add_reports_whether_it_changed_anything() {
    let mut conditions = Conditions::new(&[]);
    assert!(conditions.add_condition(ConditionKind::Poison));
    assert!(conditions.has(ConditionKind::Poison));
    assert!(!conditions.add_condition(ConditionKind::Poison));
    assert!(conditions.has(ConditionKind::Poison));
}

#[test]
fn add_touches_no_other_kind() {
    for added in ALL {
        let mut conditions = Conditions::new(&[]);
        conditions.add_condition(added);
        for kind in ALL {
            assert_eq!(conditions.has(kind), kind == added);
            assert!(!conditions.is_immune(kind));
        }
    }
}

#[test]
fn remove_reports_whether_it_changed_anything() {
    let mut conditions = Conditions::new(&[]);
    assert!(!conditions.remove_condition(ConditionKind::Wound));
    conditions.add_condition(ConditionKind::Wound);
    conditions.add_condition(ConditionKind::Disarm);
    assert!(conditions.remove_condition(ConditionKind::Wound));
    assert!(!conditions.has(ConditionKind::Wound));
    assert!(conditions.has(ConditionKind::Disarm));
    assert!(!conditions.remove_condition(ConditionKind::Wound));
}

#[test]
fn add_is_a_no_op_for_an_immune_figure() {
    let mut conditions = Conditions::new(&[ConditionKind::Muddle]);
    assert!(!conditions.add_condition(ConditionKind::Muddle));
    assert!(!conditions.has(ConditionKind::Muddle));
    assert!(conditions.is_immune(ConditionKind::Muddle));
    assert!(conditions.add_condition(ConditionKind::Poison));
    assert!(conditions.has(ConditionKind::Poison));
}

#[test]
fn each_kind_has_its_own_code() {
    for (i, a) in ALL.iter().enumerate() {
        assert_eq!(a.code() as usize, i);
        for (j, b) in ALL.iter().enumerate() {
            assert_eq!(a.code() == b.code(), i == j);
        }
    }
}

#[test]
fn disarm_forces_the_attack_range_to_zero() {
    let mut conditions = Conditions::new(&[]);
    assert_eq!(conditions.effective_range(3), 3);
    assert_eq!(conditions.effective_range(0), 0);
    conditions.add_condition(ConditionKind::Muddle);
    assert_eq!(conditions.effective_range(3), 3);
    conditions.add_condition(ConditionKind::Disarm);
    assert_eq!(conditions.effective_range(3), 0);
    assert_eq!(conditions.effective_range(u32::MAX), 0);
    conditions.remove_condition(ConditionKind::Disarm);
    assert_eq!(conditions.effective_range(u32::MAX), u32::MAX);
}
