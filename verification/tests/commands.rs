use hex_tactics::figure::attack::{ApplyAttackCommand, Attack, AttackCommand};
use hex_tactics::figure::condition::{
    AddConditionCommand, ConditionKind, Conditions, RemoveConditionCommand,
};
use hex_tactics::figure::health::{Health, SufferDamageCommand};
use hex_tactics::figure::modifier::{
    Modifier, ModifierTray, ModifierTrayColumn, RollModifierCommand,
};
use hex_tactics::figure::movement::{MoveCommand, MovementKind};
use hex_tactics::figure::FigureId;
use hex_tactics::scenario::command::{
    ScenarioCommand, ScenarioCommandTrait, ScenarionCommandExecuteResult,
};
use hex_tactics::scenario::map::{HexLayer, HexPosition};
use hex_tactics::scenario::world::{Figure, World};
use hexx::Hex;

fn tray() -> ModifierTray {
    ModifierTray::new([
        [Modifier::minus_one(), Modifier::zero(), Modifier::plus_one()],
        [Modifier::minus_two(), Modifier::plus_one(), Modifier::plus_two()],
        [Modifier::miss(), Modifier::zero(), Modifier::crit()],
        [Modifier::minus_one(), Modifier::zero(), Modifier::plus_one()],
        [Modifier::minus_one(), Modifier::zero(), Modifier::plus_one()],
        [Modifier::miss(), Modifier::minus_two(), Modifier::crit()],
    ])
}

/// Figure 0 on (0, 0), figure 1 on (2, 1), both with 12 hit points.
fn two_figures(immunities: &[ConditionKind]) -> (World, FigureId, FigureId) {
    let mut world = World::new();
    let a = world.spawn(Figure::new(
        HexPosition::new(Hex::new(0, 0), HexLayer::Figure),
        Health::new(12),
        Conditions::new(&[]),
        tray(),
    ));
    let b = world.spawn(Figure::new(
        HexPosition::new(Hex::new(2, 1), HexLayer::Figure),
        Health::new(12),
        Conditions::new(immunities),
        tray(),
    ));
    (world, a, b)
}

fn follow_up(result: ScenarionCommandExecuteResult) -> Vec<ScenarioCommand> {
    match result {
        ScenarionCommandExecuteResult::Done(commands) => commands,
        ScenarionCommandExecuteResult::Pending => panic!("no command of the engine stays pending"),
    }
}

#[test]
fn suffer_damage_takes_hit_points_and_gives_them_back() {
    let (mut world, a, b) = two_figures(&[]);
    let mut command = SufferDamageCommand::new(a, b, 5);
    assert_eq!(command.target(), b);
    assert_eq!(command.damage(), 5);
    assert_eq!(command.actual_damage(), None);
    assert!(command.can_execute(&world));
    assert!(!command.can_undo(&world));

    assert!(follow_up(command.execute(&mut world)).is_empty());
    assert_eq!(world.health(b).current(), 7);
    assert_eq!(world.health(a).current(), 12);
    assert_eq!(command.actual_damage(), Some(5));
    assert!(command.can_undo(&world));

    match command.undo(&mut world) {
        ScenarioCommand::SufferDamageCommand(undone) => {
            assert_eq!(undone.actual_damage(), None);
            assert_eq!(undone.damage(), 5);
            assert_eq!(undone.target(), b);
        }
        other => panic!("{:?}", other),
    }
    assert_eq!(world.health(b).current(), 12);
}

#[test]
fn suffer_damage_records_what_was_actually_lost() {
    let (mut world, a, b) = two_figures(&[]);
    world.health_mut(b).suffer(9);
    let mut command = SufferDamageCommand::new(a, b, 100);
    command.execute(&mut world);
    assert_eq!(command.actual_damage(), Some(3));
    assert_eq!(world.health(b).current(), 0);
    command.undo(&mut world);
    assert_eq!(world.health(b).current(), 3);
}

#[test]
fn commands_on_unknown_figures_cannot_be_executed() {
    let (world, a, _) = two_figures(&[]);
    let nobody = FigureId::new(2);
    assert!(!SufferDamageCommand::new(a, nobody, 1).can_execute(&world));
    // the source of the damage plays no part
    assert!(SufferDamageCommand::new(nobody, a, 1).can_execute(&world));
    assert!(!AddConditionCommand::new(nobody, ConditionKind::Wound).can_execute(&world));
    assert!(!RemoveConditionCommand::new(nobody, ConditionKind::Wound).can_execute(&world));
    assert!(!MoveCommand::new(nobody, Hex::new(0, 1)).can_execute(&world));
    assert!(!AttackCommand::new(nobody, Attack::new(a, 1)).can_execute(&world));
    assert!(AttackCommand::new(a, Attack::new(nobody, 1)).can_execute(&world));
    assert!(!RollModifierCommand::new(nobody).can_execute(&world));
    assert!(!ApplyAttackCommand::new(nobody).can_execute(&world));
}

#[test]
fn fresh_commands_cannot_be_undone_where_they_captured_nothing() {
    let (world, a, b) = two_figures(&[]);
    assert!(!SufferDamageCommand::new(a, b, 1).can_undo(&world));
    assert!(!MoveCommand::new(a, Hex::new(0, 1)).can_undo(&world));
    assert!(!AttackCommand::new(a, Attack::new(b, 1)).can_undo(&world));
    assert!(!RollModifierCommand::new(a).can_undo(&world));
    // these change nothing on undo while they changed nothing on execute
    assert!(AddConditionCommand::new(a, ConditionKind::Wound).can_undo(&world));
    assert!(RemoveConditionCommand::new(a, ConditionKind::Wound).can_undo(&world));
    assert!(ApplyAttackCommand::new(a).can_undo(&world));
}

#[test]
fn add_condition_undo_removes_only_what_it_added() {
    let (mut world, _, b) = two_figures(&[]);
    let mut first = AddConditionCommand::new(b, ConditionKind::Poison);
    let mut second = AddConditionCommand::new(b, ConditionKind::Poison);
    assert!(!first.added());
    assert!(follow_up(first.execute(&mut world)).is_empty());
    second.execute(&mut world);
    assert!(first.added());
    assert!(!second.added());
    assert!(world.conditions(b).has(ConditionKind::Poison));

    second.undo(&mut world);
    assert!(world.conditions(b).has(ConditionKind::Poison));
    match first.undo(&mut world) {
        ScenarioCommand::AddConditionCommand(undone) => assert!(!undone.added()),
        other => panic!("{:?}", other),
    }
    assert!(!world.conditions(b).has(ConditionKind::Poison));
}

#[test]
fn add_condition_on_an_immune_figure_changes_nothing() {
    let (mut world, _, b) = two_figures(&[ConditionKind::Muddle]);
    let mut command = AddConditionCommand::new(b, ConditionKind::Muddle);
    command.execute(&mut world);
    assert!(!command.added());
    assert!(!world.conditions(b).has(ConditionKind::Muddle));
    command.undo(&mut world);
    assert!(!world.conditions(b).has(ConditionKind::Muddle));
    assert!(world.conditions(b).is_immune(ConditionKind::Muddle));
}

#[test]
fn remove_condition_undo_restores_only_what_it_removed() {
    let (mut world, _, b) = two_figures(&[]);
    world.conditions_mut(b).add_condition(ConditionKind::Wound);

    let mut absent = RemoveConditionCommand::new(b, ConditionKind::Disarm);
    absent.execute(&mut world);
    assert!(!absent.removed());
    absent.undo(&mut world);
    assert!(!world.conditions(b).has(ConditionKind::Disarm));

    let mut present = RemoveConditionCommand::new(b, ConditionKind::Wound);
    assert!(follow_up(present.execute(&mut world)).is_empty());
    assert!(present.removed());
    assert!(!world.conditions(b).has(ConditionKind::Wound));
    match present.undo(&mut world) {
        ScenarioCommand::RemoveConditionCommand(undone) => assert!(!undone.removed()),
        other => panic!("{:?}", other),
    }
    assert!(world.conditions(b).has(ConditionKind::Wound));
}

#[test]
fn move_records_its_start_and_undo_goes_back() {
    let (mut world, a, b) = two_figures(&[]);
    let mut command = MoveCommand::new(a, Hex::new(1, 0));
    assert_eq!(command.start(), None);
    assert_eq!(command.end(), Hex::new(1, 0));
    assert_eq!(command.kind(), MovementKind::Default);

    assert!(follow_up(command.execute(&mut world)).is_empty());
    assert_eq!(command.start(), Some(Hex::new(0, 0)));
    assert_eq!(world.hex_position(a).hex(), Hex::new(1, 0));
    assert_eq!(world.grid().lookup(&Hex::new(0, 0), &HexLayer::Figure), None);
    assert_eq!(world.grid().lookup(&Hex::new(1, 0), &HexLayer::Figure), Some(a));
    assert_eq!(world.grid().lookup(&Hex::new(2, 1), &HexLayer::Figure), Some(b));

    assert!(command.can_undo(&world));
    match command.undo(&mut world) {
        ScenarioCommand::MoveCommand(undone) => {
            assert_eq!(undone.start(), None);
            assert_eq!(undone.end(), Hex::new(1, 0));
        }
        other => panic!("{:?}", other),
    }
    assert_eq!(world.hex_position(a).hex(), Hex::new(0, 0));
    assert_eq!(world.grid().lookup(&Hex::new(0, 0), &HexLayer::Figure), Some(a));
    assert_eq!(world.grid().lookup(&Hex::new(1, 0), &HexLayer::Figure), None);
}

#[test]
fn move_does_not_check_whether_the_destination_is_free() {
    let (mut world, a, b) = two_figures(&[]);
    let mut command = MoveCommand::new(a, Hex::new(2, 1));
    assert!(command.can_execute(&world));
    command.execute(&mut world);
    assert_eq!(world.hex_position(a).hex(), Hex::new(2, 1));
    assert_eq!(world.hex_position(b).hex(), Hex::new(2, 1));
    // the index keeps one occupant per hex: the mover
    assert_eq!(world.grid().lookup(&Hex::new(2, 1), &HexLayer::Figure), Some(a));
    command.undo(&mut world);
    assert_eq!(world.hex_position(a).hex(), Hex::new(0, 0));
    assert_eq!(world.grid().lookup(&Hex::new(0, 0), &HexLayer::Figure), Some(a));
    // the entry of the figure that was stood on is lost
    assert_eq!(world.grid().lookup(&Hex::new(2, 1), &HexLayer::Figure), None);
}

#[test]
fn move_kind_builder() {
    assert_eq!(MovementKind::default(), MovementKind::Default);
    let command = MoveCommand::new(FigureId::new(0), Hex::new(1, 1))._with_kind(MovementKind::Fly);
    assert_eq!(command.kind(), MovementKind::Fly);
    assert_eq!(command.end(), Hex::new(1, 1));
    assert_eq!(command.start(), None);
}

#[test]
fn attack_declares_the_pending_attack_and_cascades() {
    let (mut world, a, b) = two_figures(&[]);
    world.pending_attack_mut(a).push_modifier(Modifier::crit());
    let mut command = AttackCommand::new(a, Attack::new(b, 2));

    let next = follow_up(command.execute(&mut world));
    assert_eq!(next.len(), 2);
    assert!(matches!(next[0], ScenarioCommand::RollModifierCommand(_)));
    assert!(matches!(next[1], ScenarioCommand::ApplyAttackCommand(_)));
    assert_eq!(world.pending_attack(a).attack(), Some(Attack { target: b, value: 2 }));
    // the stale modifier is gone
    assert!(world.pending_attack(a).modifiers().is_empty());
    assert_eq!(world.pending_attack(b).attack(), None);

    assert!(command.can_undo(&world));
    command.undo(&mut world);
    assert_eq!(world.pending_attack(a).attack(), None);
    assert_eq!(world.pending_attack(a).modifiers(), &vec![Modifier::Multiply(2)]);
}

#[test]
fn roll_modifier_draws_from_the_neutral_column() {
    let (mut world, a, b) = two_figures(&[]);
    let mut first = RollModifierCommand::new(a);
    assert_eq!(first.modifier(), None);
    assert_eq!(first.previous_row(), None);
    assert!(follow_up(first.execute(&mut world)).is_empty());
    assert_eq!(first.modifier(), Some(Modifier::Add(0)));
    assert_eq!(first.previous_row(), Some(0));
    assert_eq!(world.modifier_tray(a).active_row(), 1);
    assert_eq!(world.pending_attack(a).modifiers(), &vec![Modifier::Add(0)]);

    let mut second = RollModifierCommand::new(a);
    second.execute(&mut world);
    assert_eq!(second.modifier(), Some(Modifier::Add(1)));
    assert_eq!(second.previous_row(), Some(1));
    assert_eq!(world.modifier_tray(a).active_row(), 2);
    assert_eq!(
        world.pending_attack(a).modifiers(),
        &vec![Modifier::Add(0), Modifier::Add(1)]
    );
    // the tray of the other figure did not move
    assert_eq!(world.modifier_tray(b).active_row(), 0);

    match second.undo(&mut world) {
        ScenarioCommand::RollModifierCommand(undone) => {
            assert_eq!(undone.modifier(), None);
            assert_eq!(undone.previous_row(), None);
        }
        other => panic!("{:?}", other),
    }
    assert_eq!(world.modifier_tray(a).active_row(), 1);
    assert_eq!(world.pending_attack(a).modifiers(), &vec![Modifier::Add(0)]);
    first.undo(&mut world);
    assert_eq!(world.modifier_tray(a).active_row(), 0);
    assert!(world.pending_attack(a).modifiers().is_empty());
}

#[test]
fn roll_modifier_from_a_chosen_column() {
    let (mut world, a, _) = two_figures(&[]);
    let mut minus = RollModifierCommand::new(a).with_column(ModifierTrayColumn::Minus);
    minus.execute(&mut world);
    assert_eq!(minus.modifier(), Some(Modifier::Add(-1)));
    let mut plus = RollModifierCommand::new(a).with_column(ModifierTrayColumn::Plus);
    plus.execute(&mut world);
    assert_eq!(plus.modifier(), Some(Modifier::Add(2)));
    assert_eq!(world.modifier_tray(a).active_row(), 2);
}

#[test]
fn roll_modifier_wraps_round_the_tray() {
    let (mut world, a, _) = two_figures(&[]);
    for _ in 0..5 {
        world.modifier_tray_mut(a).next_row();
    }
    let mut command = RollModifierCommand::new(a);
    command.execute(&mut world);
    assert_eq!(command.modifier(), Some(Modifier::Add(-2)));
    assert_eq!(command.previous_row(), Some(5));
    assert_eq!(world.modifier_tray(a).active_row(), 0);
    command.undo(&mut world);
    assert_eq!(world.modifier_tray(a).active_row(), 5);
}

#[test]
fn apply_attack_needs_a_pending_attack() {
    let (mut world, a, b) = two_figures(&[]);
    assert!(!ApplyAttackCommand::new(a).can_execute(&world));
    AttackCommand::new(a, Attack::new(b, 2)).execute(&mut world);
    assert!(ApplyAttackCommand::new(a).can_execute(&world));
    assert!(!ApplyAttackCommand::new(b).can_execute(&world));
}

#[test]
fn apply_attack_needs_its_target_and_a_damage_that_fits() {
    let (mut world, a, b) = two_figures(&[]);
    AttackCommand::new(a, Attack::new(FigureId::new(9), 2)).execute(&mut world);
    assert!(!ApplyAttackCommand::new(a).can_execute(&world));

    AttackCommand::new(a, Attack::new(b, usize::MAX)).execute(&mut world);
    assert!(ApplyAttackCommand::new(a).can_execute(&world));
    world.conditions_mut(b).add_condition(ConditionKind::Poison);
    assert!(!ApplyAttackCommand::new(a).can_execute(&world));
}

#[test]
fn apply_attack_works_out_the_damage_and_changes_nothing() {
    let (mut world, a, b) = two_figures(&[]);
    world.conditions_mut(b).add_condition(ConditionKind::Poison);
    AttackCommand::new(a, Attack::new(b, 2)).execute(&mut world);
    world.pending_attack_mut(a).push_modifier(Modifier::plus_one());
    world.pending_attack_mut(a).push_modifier(Modifier::crit());

    let mut command = ApplyAttackCommand::new(a);
    let next = follow_up(command.execute(&mut world));
    assert_eq!(next.len(), 1);
    match &next[0] {
        ScenarioCommand::SufferDamageCommand(suffer) => {
            assert_eq!(suffer.target(), b);
            // (2 + 1 for poison + 1) * 2
            assert_eq!(suffer.damage(), 8);
            assert_eq!(suffer.actual_damage(), None);
        }
        other => panic!("{:?}", other),
    }
    assert_eq!(world.health(b).current(), 12);
    assert_eq!(world.pending_attack(a).attack(), Some(Attack { target: b, value: 2 }));
    assert_eq!(world.pending_attack(a).modifiers().len(), 2);
    assert!(matches!(command.undo(&mut world), ScenarioCommand::ApplyAttackCommand(_)));
    assert_eq!(world.pending_attack(a).modifiers().len(), 2);
}

#[test]
fn every_command_converts_into_a_scenario_command() {
    let a = FigureId::new(0);
    let b = FigureId::new(1);
    let commands: Vec<ScenarioCommand> = vec![
        MoveCommand::new(a, Hex::new(1, 0)).into(),
        AttackCommand::new(a, Attack::new(b, 2)).into(),
        ApplyAttackCommand::new(a).into(),
        SufferDamageCommand::new(a, b, 1).into(),
        AddConditionCommand::new(b, ConditionKind::Muddle).into(),
        RemoveConditionCommand::new(b, ConditionKind::Muddle).into(),
        RollModifierCommand::new(a).into(),
    ];
    assert!(matches!(commands[0], ScenarioCommand::MoveCommand(_)));
    assert!(matches!(commands[1], ScenarioCommand::AttackCommand(_)));
    assert!(matches!(commands[2], ScenarioCommand::ApplyAttackCommand(_)));
    assert!(matches!(commands[3], ScenarioCommand::SufferDamageCommand(_)));
    assert!(matches!(commands[4], ScenarioCommand::AddConditionCommand(_)));
    assert!(matches!(commands[5], ScenarioCommand::RemoveConditionCommand(_)));
    assert!(matches!(commands[6], ScenarioCommand::RollModifierCommand(_)));
}

#[test]
fn a_scenario_command_does_what_the_command_in_it_does() {
    let (mut world, a, b) = two_figures(&[]);
    let mut command: ScenarioCommand = SufferDamageCommand::new(a, b, 4).into();
    assert!(command.can_execute(&world));
    assert!(!command.can_undo(&world));
    assert!(follow_up(command.execute(&mut world)).is_empty());
    assert_eq!(world.health(b).current(), 8);
    assert!(command.can_undo(&world));
    let undone = command.undo(&mut world);
    assert_eq!(world.health(b).current(), 12);
    assert!(matches!(undone, ScenarioCommand::SufferDamageCommand(_)));

    let mut attack: ScenarioCommand = AttackCommand::new(a, Attack::new(b, 1)).into();
    assert_eq!(follow_up(attack.execute(&mut world)).len(), 2);
    let unknown: ScenarioCommand = MoveCommand::new(FigureId::new(7), Hex::new(0, 0)).into();
    assert!(!unknown.can_execute(&world));
}

#[test]
fn a_cloned_command_is_the_same_command() {
    let (mut world, a, b) = two_figures(&[]);
    world.pending_attack_mut(a).push_modifier(Modifier::crit());
    let mut attack = AttackCommand::new(a, Attack::new(b, 2));
    attack.execute(&mut world);
    let copy: ScenarioCommand = ScenarioCommand::from(attack.clone());
    // the copy holds the same snapshot: its undo restores the same attack
    copy.undo(&mut world);
    assert_eq!(world.pending_attack(a).attack(), None);
    assert_eq!(world.pending_attack(a).modifiers(), &vec![Modifier::Multiply(2)]);

    let mut suffer = SufferDamageCommand::new(a, b, 5);
    suffer.execute(&mut world);
    let copy = suffer.clone();
    assert_eq!(copy.damage(), 5);
    assert_eq!(copy.actual_damage(), Some(5));
    assert_eq!(copy.target(), b);

    let mut roll = RollModifierCommand::new(a).with_column(ModifierTrayColumn::Plus);
    roll.execute(&mut world);
    let copy = roll.clone();
    assert_eq!(copy.modifier(), Some(Modifier::Add(1)));
    assert_eq!(copy.previous_row(), Some(0));

    let mut moved = MoveCommand::new(a, Hex::new(0, 1))._with_kind(MovementKind::Jump);
    moved.execute(&mut world);
    let copy = moved.clone();
    assert_eq!(copy.start(), Some(Hex::new(0, 0)));
    assert_eq!(copy.end(), Hex::new(0, 1));
    assert_eq!(copy.kind(), MovementKind::Jump);

    let mut add = AddConditionCommand::new(b, ConditionKind::Wound);
    add.execute(&mut world);
    assert!(add.clone().added());
    let mut remove = RemoveConditionCommand::new(b, ConditionKind::Wound);
    remove.execute(&mut world);
    assert!(remove.clone().removed());
    assert!(matches!(
        ScenarioCommand::from(ApplyAttackCommand::new(a).clone()),
        ScenarioCommand::ApplyAttackCommand(_)
    ));
    let wrapped: ScenarioCommand = remove.into();
    assert!(matches!(wrapped.clone(), ScenarioCommand::RemoveConditionCommand(_)));
}

#[test]
fn only_a_move_onto_a_taken_hex_leaves_the_index_unrestorable() {
    let (mut world, a, b) = two_figures(&[]);
    assert!(MoveCommand::new(a, Hex::new(1, 0)).leaves_index_restorable(&world));
    assert!(MoveCommand::new(a, Hex::new(0, 0)).leaves_index_restorable(&world));
    assert!(!MoveCommand::new(a, Hex::new(2, 1)).leaves_index_restorable(&world));
    assert!(!MoveCommand::new(b, Hex::new(0, 0)).leaves_index_restorable(&world));
    assert!(SufferDamageCommand::new(a, b, 1).leaves_index_restorable(&world));
    assert!(AddConditionCommand::new(a, ConditionKind::Wound).leaves_index_restorable(&world));
    assert!(RemoveConditionCommand::new(a, ConditionKind::Wound).leaves_index_restorable(&world));
    assert!(AttackCommand::new(a, Attack::new(b, 1)).leaves_index_restorable(&world));
    assert!(RollModifierCommand::new(a).leaves_index_restorable(&world));
    let by_queue: ScenarioCommand = MoveCommand::new(a, Hex::new(2, 1)).into();
    assert!(!by_queue.leaves_index_restorable(&world));
    let by_queue: ScenarioCommand = MoveCommand::new(a, Hex::new(2, 2)).into();
    assert!(by_queue.leaves_index_restorable(&world));

    // once a stands on b, b is not entered any more: its moves cannot be restored
    MoveCommand::new(a, Hex::new(2, 1)).execute(&mut world);
    assert!(!MoveCommand::new(b, Hex::new(3, 3)).leaves_index_restorable(&world));
    assert!(MoveCommand::new(a, Hex::new(3, 3)).leaves_index_restorable(&world));
}
