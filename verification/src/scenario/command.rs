//! The command engine: what each command does to the world and how it is
//! taken back, and the queue that executes, records and undoes commands one
//! at a time.

use crate::figure::attack::{
    attack_damage, damage_fits, ApplyAttackCommand, Attack, AttackCommand, PendingAttackView,
};
use crate::figure::condition::{AddConditionCommand, ConditionKind, RemoveConditionCommand};
use crate::figure::health::SufferDamageCommand;
use crate::figure::modifier::{Modifier, ModifierTrayColumn, RollModifierCommand, TRAY_ROWS};
use crate::figure::movement::{MoveCommand, MovementKind};
use crate::figure::FigureId;
use crate::scenario::map::HexLayer;
use crate::scenario::world::{lemma_relocate_keeps_index, World, WorldView};
use hexx::Hex;
use std::collections::VecDeque;
use vstd::prelude::*;
use vstd::std_specs::convert::FromSpecImpl;

verus! {

/// A command as plain values: what it was given, and what it captured when
/// it was executed so that it can be undone.
#[verifier::ext_equal]
pub enum CommandView {
    /// Move `entity` to `end`; `start` is where it stood.
    Move { entity: FigureId, start: Option<Hex>, end: Hex, kind: MovementKind },
    /// Declare `attack` by `source`; `previous` is the pending attack that it
    /// replaced.
    Attack { source: FigureId, attack: Attack, previous: Option<PendingAttackView> },
    /// Work out the damage of the pending attack of `source`.
    ApplyAttack { source: FigureId },
    /// Take `damage` hit points from `target`; `actual_damage` is how many
    /// it lost.
    SufferDamage { source: FigureId, target: FigureId, damage: nat, actual_damage: Option<nat> },
    /// Make `condition` active on `entity`; `added` says whether that
    /// changed anything.
    AddCondition { entity: FigureId, condition: ConditionKind, added: bool },
    /// Make `condition` inactive on `entity`; `removed` says whether that
    /// changed anything.
    RemoveCondition { entity: FigureId, condition: ConditionKind, removed: bool },
    /// Draw from `column` of the tray of `entity`; `previous_row` is the row
    /// that was read and `modifier` what was drawn.
    RollModifier {
        entity: FigureId,
        column: ModifierTrayColumn,
        previous_row: Option<nat>,
        modifier: Option<Modifier>,
    },
}

/// What executing a command came to.
#[verifier::ext_equal]
pub enum ExecuteResultView {
    /// The command is not complete yet. No command of this engine ends so.
    Pending,
    /// The command is complete, and these commands follow from it.
    Done(Seq<CommandView>),
}

impl CommandView {
    /// Whether the command can be executed in `world`: the figures it
    /// touches exist, and what it has to compute fits machine integers.
    pub open spec fn can_execute(self, world: WorldView) -> bool {
        match self {
            CommandView::Move { entity, .. } => world.contains(entity),
            CommandView::Attack { source, .. } => world.contains(source),
            CommandView::ApplyAttack { source } => {
                &&& world.contains(source)
                &&& world.figure(source).pending_attack.attack matches Some(attack)
                &&& world.contains(attack.target)
                &&& damage_fits(
                    attack.value as nat,
                    world.figure(attack.target).conditions.active.contains(ConditionKind::Poison),
                    world.figure(source).pending_attack.modifiers,
                )
            },
            CommandView::SufferDamage { target, .. } => world.contains(target),
            CommandView::AddCondition { entity, .. } => world.contains(entity),
            CommandView::RemoveCondition { entity, .. } => world.contains(entity),
            CommandView::RollModifier { entity, .. } => world.contains(entity),
        }
    }

    /// The world after the command was executed in `world`.
    pub open spec fn execute_world(self, world: WorldView) -> WorldView {
        match self {
            CommandView::Move { entity, end, .. } => world.relocate(entity, end),
            CommandView::Attack { source, attack, .. } => world.with_pending_attack(
                source,
                PendingAttackView::declared(attack),
            ),
            CommandView::ApplyAttack { .. } => world,
            CommandView::SufferDamage { target, damage, .. } => world.with_health(
                target,
                world.figure(target).health.suffer(damage),
            ),
            CommandView::AddCondition { entity, condition, .. } => world.with_conditions(
                entity,
                world.figure(entity).conditions.add(condition),
            ),
            CommandView::RemoveCondition { entity, condition, .. } => world.with_conditions(
                entity,
                world.figure(entity).conditions.remove(condition),
            ),
            CommandView::RollModifier { entity, column, .. } => {
                let tray = world.figure(entity).modifier_tray;
                world.with_modifier_tray(entity, tray.next_row()).with_pending_attack(
                    entity,
                    world.figure(entity).pending_attack.push(tray.get(column)),
                )
            },
        }
    }

    /// The command after it was executed in `world`: as it was, with what it
    /// needs for its undo captured.
    pub open spec fn executed(self, world: WorldView) -> CommandView {
        match self {
            CommandView::Move { entity, end, kind, .. } => CommandView::Move {
                entity,
                start: Some(world.figure(entity).hex_position.hex),
                end,
                kind,
            },
            CommandView::Attack { source, attack, .. } => CommandView::Attack {
                source,
                attack,
                previous: Some(world.figure(source).pending_attack),
            },
            CommandView::ApplyAttack { .. } => self,
            CommandView::SufferDamage { source, target, damage, .. } => CommandView::SufferDamage {
                source,
                target,
                damage,
                actual_damage: Some(world.figure(target).health.damage_taken(damage)),
            },
            CommandView::AddCondition { entity, condition, .. } => CommandView::AddCondition {
                entity,
                condition,
                added: world.figure(entity).conditions.add_changes(condition),
            },
            CommandView::RemoveCondition { entity, condition, .. } => CommandView::RemoveCondition {
                entity,
                condition,
                removed: world.figure(entity).conditions.remove_changes(condition),
            },
            CommandView::RollModifier { entity, column, .. } => CommandView::RollModifier {
                entity,
                column,
                previous_row: Some(world.figure(entity).modifier_tray.active_row),
                modifier: Some(world.figure(entity).modifier_tray.get(column)),
            },
        }
    }

    /// The commands that follow from executing the command in `world`, in
    /// the order in which they are to run.
    pub open spec fn follow_up(self, world: WorldView) -> Seq<CommandView> {
        match self {
            CommandView::Attack { source, .. } => seq![
                CommandView::RollModifier {
                    entity: source,
                    column: ModifierTrayColumn::Neutral,
                    previous_row: None,
                    modifier: None,
                },
                CommandView::ApplyAttack { source },
            ],
            CommandView::ApplyAttack { source } => {
                let pending = world.figure(source).pending_attack;
                let attack = pending.attack.unwrap();
                seq![
                    CommandView::SufferDamage {
                        source,
                        target: attack.target,
                        damage: attack_damage(
                            attack.value as nat,
                            world.figure(attack.target).conditions.active.contains(
                                ConditionKind::Poison,
                            ),
                            pending.modifiers,
                        ) as nat,
                        actual_damage: None,
                    },
                ]
            },
            _ => Seq::empty(),
        }
    }

    /// What executing the command in `world` comes to: every command of this
    /// engine completes at once.
    pub open spec fn outcome(self, world: WorldView) -> ExecuteResultView {
        ExecuteResultView::Done(self.follow_up(world))
    }

    /// Whether the command can be undone in `world`: the figures it touches
    /// exist, and it holds what its execution captured.
    pub open spec fn can_undo(self, world: WorldView) -> bool {
        match self {
            CommandView::Move { entity, start, .. } => world.contains(entity) && start is Some,
            CommandView::Attack { source, previous, .. } => {
                world.contains(source) && previous is Some
            },
            CommandView::ApplyAttack { .. } => true,
            CommandView::SufferDamage { target, actual_damage, .. } => {
                world.contains(target) && actual_damage is Some
            },
            CommandView::AddCondition { entity, added, .. } => added ==> world.contains(entity),
            CommandView::RemoveCondition { entity, removed, .. } => {
                removed ==> world.contains(entity)
            },
            CommandView::RollModifier { entity, previous_row, .. } => {
                &&& world.contains(entity)
                &&& previous_row matches Some(row)
                &&& row < TRAY_ROWS
            },
        }
    }

    /// The world after the command was undone in `world`.
    pub open spec fn undo_world(self, world: WorldView) -> WorldView {
        match self {
            CommandView::Move { entity, start, .. } => world.relocate(entity, start.unwrap()),
            CommandView::Attack { source, previous, .. } => world.with_pending_attack(
                source,
                previous.unwrap(),
            ),
            CommandView::ApplyAttack { .. } => world,
            CommandView::SufferDamage { target, actual_damage, .. } => world.with_health(
                target,
                world.figure(target).health.heal(actual_damage.unwrap()),
            ),
            CommandView::AddCondition { entity, condition, added } => if added {
                world.with_conditions(entity, world.figure(entity).conditions.remove(condition))
            } else {
                world
            },
            CommandView::RemoveCondition { entity, condition, removed } => if removed {
                world.with_conditions(entity, world.figure(entity).conditions.add(condition))
            } else {
                world
            },
            CommandView::RollModifier { entity, previous_row, .. } => {
                let pending = world.figure(entity).pending_attack;
                world.with_modifier_tray(
                    entity,
                    world.figure(entity).modifier_tray.with_row(previous_row.unwrap()),
                ).with_pending_attack(
                    entity,
                    if pending.modifiers.len() > 0 {
                        pending.drop_last()
                    } else {
                        pending
                    },
                )
            },
        }
    }

    /// The command as its undo hands it back: nothing captured, ready to be
    /// executed again.
    pub open spec fn undone(self) -> CommandView {
        match self {
            CommandView::Move { entity, end, kind, .. } => CommandView::Move {
                entity,
                start: None,
                end,
                kind,
            },
            CommandView::Attack { source, attack, .. } => CommandView::Attack {
                source,
                attack,
                previous: None,
            },
            CommandView::ApplyAttack { .. } => self,
            CommandView::SufferDamage { source, target, damage, .. } => CommandView::SufferDamage {
                source,
                target,
                damage,
                actual_damage: None,
            },
            CommandView::AddCondition { entity, condition, .. } => CommandView::AddCondition {
                entity,
                condition,
                added: false,
            },
            CommandView::RemoveCondition { entity, condition, .. } => CommandView::RemoveCondition {
                entity,
                condition,
                removed: false,
            },
            CommandView::RollModifier { entity, column, .. } => CommandView::RollModifier {
                entity,
                column,
                previous_row: None,
                modifier: None,
            },
        }
    }

    /// Whether the command holds nothing captured, as one that was just made
    /// or just undone.
    pub open spec fn is_fresh(self) -> bool {
        self.undone() == self
    }

    /// Whether undoing the command after executing it in `world` can bring
    /// the grid index back. A move can only where the mover is entered at
    /// its hex and its destination is free or its own hex: the index keeps
    /// one occupant per hex, so a move onto an occupied hex overwrites an
    /// entry that no undo knows of.
    pub open spec fn leaves_index_restorable(self, world: WorldView) -> bool {
        match self {
            CommandView::Move { entity, end, .. } => {
                let position = world.figure(entity).hex_position;
                &&& world.grid.lookup(position.hex, position.layer) == Some(entity)
                &&& (end == position.hex || world.grid.lookup(end, position.layer) is None)
            },
            _ => true,
        }
    }
}

/// Executing a command keeps the world well formed.
pub proof fn lemma_execute_keeps_wf(command: CommandView, world: WorldView)
    requires
        world.wf(),
        command.can_execute(world),
    ensures
        command.execute_world(world).wf(),
        command.execute_world(world).figures.len() == world.figures.len(),
{
    let figures = command.execute_world(world).figures;
    assert forall|i: int| 0 <= i < figures.len() implies (#[trigger] figures[i]).wf() by {
        assert(world.figures[i].wf());
    }
}

/// Undoing a command keeps the world well formed.
pub proof fn lemma_undo_keeps_wf(command: CommandView, world: WorldView)
    requires
        world.wf(),
        command.can_undo(world),
    ensures
        command.undo_world(world).wf(),
        command.undo_world(world).figures.len() == world.figures.len(),
{
    let figures = command.undo_world(world).figures;
    assert forall|i: int| 0 <= i < figures.len() implies (#[trigger] figures[i]).wf() by {
        assert(world.figures[i].wf());
    }
}

/// While index and positions agree, a move leaves the index restorable
/// exactly where its destination is free for the mover.
pub proof fn lemma_restorable_where_free(
    world: WorldView,
    entity: FigureId,
    end: Hex,
    kind: MovementKind,
)
    requires
        world.index_agrees(),
        world.contains(entity),
    ensures
        (CommandView::Move { entity, start: None, end, kind }).leaves_index_restorable(world)
            == world.is_free_for(entity, end),
{
}

/// Executing a command that leaves the index restorable keeps index and
/// positions in agreement.
pub proof fn lemma_execute_keeps_index(command: CommandView, world: WorldView)
    requires
        world.index_agrees(),
        command.can_execute(world),
        command.leaves_index_restorable(world),
    ensures
        command.execute_world(world).index_agrees(),
{
    let after = command.execute_world(world);
    match command {
        CommandView::Move { entity, end, .. } => {
            lemma_relocate_keeps_index(world, entity, end);
        },
        _ => {
            assert(after.grid == world.grid);
            assert forall|id: FigureId| #[trigger] after.contains(id) implies after.grid.lookup(
                after.figure(id).hex_position.hex,
                after.figure(id).hex_position.layer,
            ) == Some(id) by {
                assert(world.contains(id));
            }
            assert forall|hex: Hex, layer: HexLayer| #[trigger] after.entry_agrees(hex, layer) by {
                assert(world.entry_agrees(hex, layer));
            }
        },
    }
}

/// Where a command does not leave the index restorable, its undo does not
/// bring the world back: the condition on moves in
/// [`lemma_undo_inverts_execute`] leaves out no more than it has to.
pub proof fn lemma_undo_cannot_restore_index(command: CommandView, world: WorldView)
    requires
        command.can_execute(world),
        !command.leaves_index_restorable(world),
    ensures
        command.executed(world).undo_world(command.execute_world(world)) != world,
{
    match command {
        CommandView::Move { entity, end, .. } => {
            let position = world.figure(entity).hex_position;
            let before = world.grid.layer(position.layer);
            let back = command.executed(world).undo_world(command.execute_world(world));
            let after = back.grid.layer(position.layer);
            assert(after == before.remove(position.hex).insert(end, entity).remove(end).insert(
                position.hex,
                entity,
            ));
            if world.grid.lookup(position.hex, position.layer) != Some(entity) {
                assert(after.contains_key(position.hex) && after[position.hex] == entity);
            } else {
                assert(before.contains_key(end));
                assert(!after.contains_key(end));
            }
        },
        _ => {},
    }
}

/// Undo inverts execute, one command at a time: a command that was executed
/// can be undone in the world that it left, its undo brings back the world
/// that it was executed in, and hands the command back ready to be executed
/// again.
pub proof fn lemma_undo_inverts_execute(command: CommandView, world: WorldView)
    requires
        world.wf(),
        command.can_execute(world),
        command.leaves_index_restorable(world),
    ensures
        command.executed(world).can_undo(command.execute_world(world)),
        command.executed(world).undo_world(command.execute_world(world)) == world,
        command.executed(world).undone() == command.undone(),
{
    let after = command.execute_world(world);
    let executed = command.executed(world);
    let back = executed.undo_world(after);
    match command {
        CommandView::Move { entity, end, .. } => {
            let position = world.figure(entity).hex_position;
            let layer = world.grid.layer(position.layer);
            assert(layer.remove(position.hex).insert(end, entity).remove(end).insert(
                position.hex,
                entity,
            ) =~= layer);
            assert(back.grid =~= world.grid);
            assert(back.figures =~= world.figures);
        },
        CommandView::Attack { source, .. } => {
            assert(back.figures =~= world.figures);
        },
        CommandView::ApplyAttack { .. } => {},
        CommandView::SufferDamage { target, damage, .. } => {
            assert(world.figure(target).wf());
            assert(back.figures =~= world.figures);
        },
        CommandView::AddCondition { entity, condition, .. } => {
            let conditions = world.figure(entity).conditions;
            if conditions.add_changes(condition) {
                assert(conditions.add(condition).remove(condition).active =~= conditions.active);
            } else {
                assert(conditions.add(condition).active =~= conditions.active);
            }
            assert(back.figures =~= world.figures);
        },
        CommandView::RemoveCondition { entity, condition, .. } => {
            let conditions = world.figure(entity).conditions;
            assert(world.figure(entity).wf());
            if conditions.remove_changes(condition) {
                assert(!conditions.immunities.contains(condition));
                assert(conditions.remove(condition).add(condition).active =~= conditions.active);
            } else {
                assert(conditions.remove(condition).active =~= conditions.active);
            }
            assert(back.figures =~= world.figures);
        },
        CommandView::RollModifier { entity, column, .. } => {
            let figure = world.figure(entity);
            assert(figure.wf());
            let drawn = figure.modifier_tray.get(column);
            assert(figure.pending_attack.push(drawn).drop_last().modifiers
                =~= figure.pending_attack.modifiers);
            assert(back.figures =~= world.figures);
        },
    }
}

/// What executing a command came to.
pub enum ScenarionCommandExecuteResult {
    /// The command is not complete yet. No command of this engine ends so.
    Pending,
    /// The command is complete, and these commands follow from it.
    Done(Vec<ScenarioCommand>),
}

/// The commands of `commands` as plain values, in their order.
pub open spec fn command_views(commands: Seq<ScenarioCommand>) -> Seq<CommandView> {
    commands.map_values(|command: ScenarioCommand| command@)
}

impl View for ScenarionCommandExecuteResult {
    type V = ExecuteResultView;

    open spec fn view(&self) -> ExecuteResultView {
        match self {
            ScenarionCommandExecuteResult::Pending => ExecuteResultView::Pending,
            ScenarionCommandExecuteResult::Done(commands) => ExecuteResultView::Done(
                command_views(commands@),
            ),
        }
    }
}

/// What every command offers the queue: to be executed against the world,
/// and to be undone.
pub trait ScenarioCommandTrait: View<V = CommandView> + Sized {
    /// Whether the command can be executed in `world`.
    fn can_execute(&self, world: &World) -> (possible: bool)
        ensures
            possible == self@.can_execute(world@),
    ;

    /// Whether the command can be undone in `world`.
    fn can_undo(&self, world: &World) -> (possible: bool)
        ensures
            possible == self@.can_undo(world@),
    ;

    /// Whether undoing the command after executing it in `world` can bring
    /// the grid index back.
    fn leaves_index_restorable(&self, world: &World) -> (restorable: bool)
        requires
            self@.can_execute(world@),
        ensures
            restorable == self@.leaves_index_restorable(world@),
    ;

    /// Executes the command: changes the world, captures in the command what
    /// its undo needs, and returns the commands that follow from it.
    fn execute(&mut self, world: &mut World) -> (result: ScenarionCommandExecuteResult)
        requires
            old(world)@.wf(),
            old(self)@.can_execute(old(world)@),
        ensures
            final(world)@ == old(self)@.execute_world(old(world)@),
            final(world)@.wf(),
            final(self)@ == old(self)@.executed(old(world)@),
            result@ == old(self)@.outcome(old(world)@),
    ;

    /// Undoes the command: changes the world back, and returns the command
    /// ready to be executed again.
    fn undo(self, world: &mut World) -> (undone: ScenarioCommand)
        requires
            old(world)@.wf(),
            self@.can_undo(old(world)@),
        ensures
            final(world)@ == self@.undo_world(old(world)@),
            final(world)@.wf(),
            undone@ == self@.undone(),
    ;
}

/// Any one command.
#[derive(Debug)]
pub enum ScenarioCommand {
    MoveCommand(MoveCommand),
    AttackCommand(AttackCommand),
    ApplyAttackCommand(ApplyAttackCommand),
    SufferDamageCommand(SufferDamageCommand),
    AddConditionCommand(AddConditionCommand),
    RemoveConditionCommand(RemoveConditionCommand),
    RollModifierCommand(RollModifierCommand),
}

impl View for ScenarioCommand {
    type V = CommandView;

    open spec fn view(&self) -> CommandView {
        match self {
            ScenarioCommand::MoveCommand(command) => command@,
            ScenarioCommand::AttackCommand(command) => command@,
            ScenarioCommand::ApplyAttackCommand(command) => command@,
            ScenarioCommand::SufferDamageCommand(command) => command@,
            ScenarioCommand::AddConditionCommand(command) => command@,
            ScenarioCommand::RemoveConditionCommand(command) => command@,
            ScenarioCommand::RollModifierCommand(command) => command@,
        }
    }
}

impl From<MoveCommand> for ScenarioCommand {
    fn from(command: MoveCommand) -> (wrapped: ScenarioCommand) {
        ScenarioCommand::MoveCommand(command)
    }
}

impl FromSpecImpl<MoveCommand> for ScenarioCommand {
    open spec fn obeys_from_spec() -> bool {
        true
    }

    open spec fn from_spec(command: MoveCommand) -> ScenarioCommand {
        ScenarioCommand::MoveCommand(command)
    }
}

impl From<AttackCommand> for ScenarioCommand {
    fn from(command: AttackCommand) -> (wrapped: ScenarioCommand) {
        ScenarioCommand::AttackCommand(command)
    }
}

impl FromSpecImpl<AttackCommand> for ScenarioCommand {
    open spec fn obeys_from_spec() -> bool {
        true
    }

    open spec fn from_spec(command: AttackCommand) -> ScenarioCommand {
        ScenarioCommand::AttackCommand(command)
    }
}

impl From<ApplyAttackCommand> for ScenarioCommand {
    fn from(command: ApplyAttackCommand) -> (wrapped: ScenarioCommand) {
        ScenarioCommand::ApplyAttackCommand(command)
    }
}

impl FromSpecImpl<ApplyAttackCommand> for ScenarioCommand {
    open spec fn obeys_from_spec() -> bool {
        true
    }

    open spec fn from_spec(command: ApplyAttackCommand) -> ScenarioCommand {
        ScenarioCommand::ApplyAttackCommand(command)
    }
}

impl From<SufferDamageCommand> for ScenarioCommand {
    fn from(command: SufferDamageCommand) -> (wrapped: ScenarioCommand) {
        ScenarioCommand::SufferDamageCommand(command)
    }
}

impl FromSpecImpl<SufferDamageCommand> for ScenarioCommand {
    open spec fn obeys_from_spec() -> bool {
        true
    }

    open spec fn from_spec(command: SufferDamageCommand) -> ScenarioCommand {
        ScenarioCommand::SufferDamageCommand(command)
    }
}

impl From<AddConditionCommand> for ScenarioCommand {
    fn from(command: AddConditionCommand) -> (wrapped: ScenarioCommand) {
        ScenarioCommand::AddConditionCommand(command)
    }
}

impl FromSpecImpl<AddConditionCommand> for ScenarioCommand {
    open spec fn obeys_from_spec() -> bool {
        true
    }

    open spec fn from_spec(command: AddConditionCommand) -> ScenarioCommand {
        ScenarioCommand::AddConditionCommand(command)
    }
}

impl From<RemoveConditionCommand> for ScenarioCommand {
    fn from(command: RemoveConditionCommand) -> (wrapped: ScenarioCommand) {
        ScenarioCommand::RemoveConditionCommand(command)
    }
}

impl FromSpecImpl<RemoveConditionCommand> for ScenarioCommand {
    open spec fn obeys_from_spec() -> bool {
        true
    }

    open spec fn from_spec(command: RemoveConditionCommand) -> ScenarioCommand {
        ScenarioCommand::RemoveConditionCommand(command)
    }
}

impl From<RollModifierCommand> for ScenarioCommand {
    fn from(command: RollModifierCommand) -> (wrapped: ScenarioCommand) {
        ScenarioCommand::RollModifierCommand(command)
    }
}

impl FromSpecImpl<RollModifierCommand> for ScenarioCommand {
    open spec fn obeys_from_spec() -> bool {
        true
    }

    open spec fn from_spec(command: RollModifierCommand) -> ScenarioCommand {
        ScenarioCommand::RollModifierCommand(command)
    }
}

impl Clone for ScenarioCommand {
    fn clone(&self) -> (copy: ScenarioCommand)
        ensures
            copy@ == self@,
    {
        match self {
            ScenarioCommand::MoveCommand(command) => ScenarioCommand::MoveCommand(command.clone()),
            ScenarioCommand::AttackCommand(command) => ScenarioCommand::AttackCommand(
                command.clone(),
            ),
            ScenarioCommand::ApplyAttackCommand(command) => ScenarioCommand::ApplyAttackCommand(
                command.clone(),
            ),
            ScenarioCommand::SufferDamageCommand(command) => ScenarioCommand::SufferDamageCommand(
                command.clone(),
            ),
            ScenarioCommand::AddConditionCommand(command) => ScenarioCommand::AddConditionCommand(
                command.clone(),
            ),
            ScenarioCommand::RemoveConditionCommand(command) => {
                ScenarioCommand::RemoveConditionCommand(command.clone())
            },
            ScenarioCommand::RollModifierCommand(command) => ScenarioCommand::RollModifierCommand(
                command.clone(),
            ),
        }
    }
}

impl ScenarioCommandTrait for ScenarioCommand {
    fn can_execute(&self, world: &World) -> (possible: bool) {
        match self {
            ScenarioCommand::MoveCommand(command) => command.can_execute(world),
            ScenarioCommand::AttackCommand(command) => command.can_execute(world),
            ScenarioCommand::ApplyAttackCommand(command) => command.can_execute(world),
            ScenarioCommand::SufferDamageCommand(command) => command.can_execute(world),
            ScenarioCommand::AddConditionCommand(command) => command.can_execute(world),
            ScenarioCommand::RemoveConditionCommand(command) => command.can_execute(world),
            ScenarioCommand::RollModifierCommand(command) => command.can_execute(world),
        }
    }

    fn can_undo(&self, world: &World) -> (possible: bool) {
        match self {
            ScenarioCommand::MoveCommand(command) => command.can_undo(world),
            ScenarioCommand::AttackCommand(command) => command.can_undo(world),
            ScenarioCommand::ApplyAttackCommand(command) => command.can_undo(world),
            ScenarioCommand::SufferDamageCommand(command) => command.can_undo(world),
            ScenarioCommand::AddConditionCommand(command) => command.can_undo(world),
            ScenarioCommand::RemoveConditionCommand(command) => command.can_undo(world),
            ScenarioCommand::RollModifierCommand(command) => command.can_undo(world),
        }
    }

    fn leaves_index_restorable(&self, world: &World) -> (restorable: bool) {
        match self {
            ScenarioCommand::MoveCommand(command) => command.leaves_index_restorable(world),
            ScenarioCommand::AttackCommand(command) => command.leaves_index_restorable(world),
            ScenarioCommand::ApplyAttackCommand(command) => command.leaves_index_restorable(world),
            ScenarioCommand::SufferDamageCommand(command) => command.leaves_index_restorable(world),
            ScenarioCommand::AddConditionCommand(command) => command.leaves_index_restorable(world),
            ScenarioCommand::RemoveConditionCommand(command) => command.leaves_index_restorable(
                world,
            ),
            ScenarioCommand::RollModifierCommand(command) => command.leaves_index_restorable(world),
        }
    }

    fn execute(&mut self, world: &mut World) -> (result: ScenarionCommandExecuteResult) {
        match self {
            ScenarioCommand::MoveCommand(command) => command.execute(world),
            ScenarioCommand::AttackCommand(command) => command.execute(world),
            ScenarioCommand::ApplyAttackCommand(command) => command.execute(world),
            ScenarioCommand::SufferDamageCommand(command) => command.execute(world),
            ScenarioCommand::AddConditionCommand(command) => command.execute(world),
            ScenarioCommand::RemoveConditionCommand(command) => command.execute(world),
            ScenarioCommand::RollModifierCommand(command) => command.execute(world),
        }
    }

    fn undo(self, world: &mut World) -> (undone: ScenarioCommand) {
        match self {
            ScenarioCommand::MoveCommand(command) => command.undo(world),
            ScenarioCommand::AttackCommand(command) => command.undo(world),
            ScenarioCommand::ApplyAttackCommand(command) => command.undo(world),
            ScenarioCommand::SufferDamageCommand(command) => command.undo(world),
            ScenarioCommand::AddConditionCommand(command) => command.undo(world),
            ScenarioCommand::RemoveConditionCommand(command) => command.undo(world),
            ScenarioCommand::RollModifierCommand(command) => command.undo(world),
        }
    }
}

/// The queue as plain values: the executed commands, oldest first, and the
/// commands still to be executed, next first.
#[verifier::ext_equal]
pub struct QueueView {
    pub history: Seq<CommandView>,
    pub pending: Seq<CommandView>,
}

impl QueueView {
    /// Nothing executed and nothing to execute.
    pub open spec fn empty() -> QueueView {
        QueueView { history: Seq::empty(), pending: Seq::empty() }
    }

    /// The queue with `commands` behind what was pending.
    pub open spec fn queue(self, commands: Seq<CommandView>) -> QueueView {
        QueueView { pending: self.pending + commands, ..self }
    }

    /// Whether `execute` can run in `world`: nothing is pending, or the next
    /// command can be executed.
    pub open spec fn can_execute(self, world: WorldView) -> bool {
        self.pending.len() > 0 ==> self.pending[0].can_execute(world)
    }

    /// The queue after `execute` in `world`. With nothing pending it is
    /// unchanged. Else the next command leaves the pending commands; where
    /// it completed, it joins the history as executed, and what follows from
    /// it goes in front of the commands that were waiting behind it.
    pub open spec fn execute(self, world: WorldView) -> QueueView {
        if self.pending.len() == 0 {
            self
        } else {
            let command = self.pending[0];
            let rest = self.pending.subrange(1, self.pending.len() as int);
            match command.outcome(world) {
                ExecuteResultView::Pending => QueueView { pending: rest, ..self },
                ExecuteResultView::Done(follow_up) => QueueView {
                    history: self.history.push(command.executed(world)),
                    pending: follow_up + rest,
                },
            }
        }
    }

    /// The world after `execute` in `world`.
    pub open spec fn execute_world(self, world: WorldView) -> WorldView {
        if self.pending.len() == 0 {
            world
        } else {
            self.pending[0].execute_world(world)
        }
    }

    /// Whether `undo` can run in `world`: nothing was executed, or the last
    /// executed command can be undone.
    pub open spec fn can_undo(self, world: WorldView) -> bool {
        self.history.len() > 0 ==> self.history.last().can_undo(world)
    }

    /// The queue after `undo`. With an empty history it is unchanged. Else
    /// the last executed command leaves the history, and it alone is
    /// pending, ready to be executed again.
    pub open spec fn undo(self) -> QueueView {
        if self.history.len() == 0 {
            self
        } else {
            QueueView {
                history: self.history.drop_last(),
                pending: seq![self.history.last().undone()],
            }
        }
    }

    /// The world after `undo` in `world`.
    pub open spec fn undo_world(self, world: WorldView) -> WorldView {
        if self.history.len() == 0 {
            world
        } else {
            self.history.last().undo_world(world)
        }
    }
}

/// The queue of reversible commands: what was executed, and what is still to
/// be executed.
#[derive(Debug)]
pub struct ScenarioCommandQueue {
    history: Vec<ScenarioCommand>,
    pending: VecDeque<ScenarioCommand>,
}

impl View for ScenarioCommandQueue {
    type V = QueueView;

    closed spec fn view(&self) -> QueueView {
        QueueView { history: command_views(self.history@), pending: command_views(self.pending@) }
    }
}

/// `commands` as a double-ended queue, in the same order.
fn into_deque(commands: Vec<ScenarioCommand>) -> (deque: VecDeque<ScenarioCommand>)
    ensures
        deque@ == commands@,
{
    let mut commands = commands;
    let mut deque: VecDeque<ScenarioCommand> = VecDeque::new();
    let ghost all = commands@;
    while commands.len() > 0
        invariant
            commands@ == all.take(commands@.len() as int),
            commands@.len() <= all.len(),
            deque@ == all.skip(commands@.len() as int),
        decreases commands.len(),
    {
        let command = commands.pop().unwrap();
        deque.push_front(command);
        proof {
            assert(commands@ =~= all.take(commands@.len() as int));
            assert(deque@ =~= all.skip(commands@.len() as int));
        }
    }
    proof {
        assert(deque@ =~= all);
    }
    deque
}

impl Default for ScenarioCommandQueue {
    fn default() -> (queue: ScenarioCommandQueue)
        ensures
            queue@ == QueueView::empty(),
    {
        ScenarioCommandQueue::new()
    }
}

impl ScenarioCommandQueue {
    /// Nothing executed and nothing to execute.
    pub fn new() -> (queue: ScenarioCommandQueue)
        ensures
            queue@ == QueueView::empty(),
    {
        let queue = ScenarioCommandQueue { history: Vec::new(), pending: VecDeque::new() };
        proof {
            assert(queue@.history =~= Seq::<CommandView>::empty());
            assert(queue@.pending =~= Seq::<CommandView>::empty());
        }
        queue
    }

    /// How many commands were executed and not undone.
    pub fn history_len(&self) -> (len: usize)
        ensures
            len == self@.history.len(),
    {
        self.history.len()
    }

    /// How many commands are still to be executed.
    pub fn pending_len(&self) -> (len: usize)
        ensures
            len == self@.pending.len(),
    {
        self.pending.len()
    }

    /// Whether `undo` can run in `world`.
    pub fn can_undo(&self, world: &World) -> (possible: bool)
        ensures
            possible == self@.can_undo(world@),
    {
        let n = self.history.len();
        if n == 0 {
            true
        } else {
            self.history[n - 1].can_undo(world)
        }
    }

    /// Whether `execute` can run in `world`.
    pub fn can_execute(&self, world: &World) -> (possible: bool)
        ensures
            possible == self@.can_execute(world@),
    {
        if self.pending.len() == 0 {
            true
        } else {
            self.pending[0].can_execute(world)
        }
    }

    /// Takes the last executed command back: undoes it in the world, drops
    /// every pending command, and leaves the undone command as the only
    /// pending one. With an empty history nothing happens.
    pub fn undo(&mut self, world: &mut World)
        requires
            old(world)@.wf(),
            old(self)@.can_undo(old(world)@),
        ensures
            final(self)@ == old(self)@.undo(),
            final(world)@ == old(self)@.undo_world(old(world)@),
            final(world)@.wf(),
    {
        if let Some(command) = self.history.pop() {
            self.pending.clear();
            proof {
                lemma_undo_keeps_wf(command@, world@);
                assert(command_views(self.history@) =~= old(self)@.history.drop_last());
            }
            let command = command.undo(world);
            self.pending.push_back(command);
            proof {
                assert(command_views(self.pending@) =~= seq![command@]);
            }
        }
    }

    /// Executes the next pending command. Where it completes, it joins the
    /// history, and the commands that follow from it run before those that
    /// were waiting behind it. With nothing pending nothing happens.
    pub fn execute(&mut self, world: &mut World)
        requires
            old(world)@.wf(),
            old(self)@.can_execute(old(world)@),
        ensures
            final(self)@ == old(self)@.execute(old(world)@),
            final(world)@ == old(self)@.execute_world(old(world)@),
            final(world)@.wf(),
    {
        if let Some(mut command) = self.pending.pop_front() {
            let ghost first = command@;
            let ghost rest = self.pending@;
            proof {
                lemma_execute_keeps_wf(first, world@);
                assert(command_views(rest) =~= old(self)@.pending.subrange(
                    1,
                    old(self)@.pending.len() as int,
                ));
            }
            match command.execute(world) {
                ScenarionCommandExecuteResult::Pending => (),
                ScenarionCommandExecuteResult::Done(commands) => {
                    let ghost follow_up = commands@;
                    let mut commands = into_deque(commands);
                    self.history.push(command);
                    commands.append(&mut self.pending);
                    self.pending = commands;
                    proof {
                        assert(command_views(self.history@) =~= old(self)@.history.push(command@));
                        assert(command_views(self.pending@) =~= command_views(follow_up)
                            + command_views(rest));
                    }
                },
            }
        }
    }

    /// `execute` where it can run: returns `false`, with nothing changed,
    /// where the next command cannot be executed in `world`.
    pub fn step_execute(&mut self, world: &mut World) -> (stepped: bool)
        requires
            old(world)@.wf(),
        ensures
            stepped == old(self)@.can_execute(old(world)@),
            stepped ==> final(self)@ == old(self)@.execute(old(world)@),
            stepped ==> final(world)@ == old(self)@.execute_world(old(world)@),
            !stepped ==> final(self)@ == old(self)@ && final(world)@ == old(world)@,
            final(world)@.wf(),
    {
        if self.can_execute(world) {
            self.execute(world);
            true
        } else {
            false
        }
    }

    /// `undo` where it can run: returns `false`, with nothing changed, where
    /// the last executed command cannot be undone in `world`.
    pub fn step_undo(&mut self, world: &mut World) -> (stepped: bool)
        requires
            old(world)@.wf(),
        ensures
            stepped == old(self)@.can_undo(old(world)@),
            stepped ==> final(self)@ == old(self)@.undo(),
            stepped ==> final(world)@ == old(self)@.undo_world(old(world)@),
            !stepped ==> final(self)@ == old(self)@ && final(world)@ == old(world)@,
            final(world)@.wf(),
    {
        if self.can_undo(world) {
            self.undo(world);
            true
        } else {
            false
        }
    }

    /// Puts `commands` behind the pending commands, in their order.
    pub fn queue(&mut self, commands: Vec<ScenarioCommand>)
        ensures
            final(self)@ == old(self)@.queue(command_views(commands@)),
    {
        let mut commands = into_deque(commands);
        let ghost incoming = commands@;
        self.pending.append(&mut commands);
        proof {
            assert(command_views(self.pending@) =~= old(self)@.pending + command_views(incoming));
        }
    }

    /// The executed commands, the most recent first.
    pub fn history(&self) -> (recent: Vec<&ScenarioCommand>)
        ensures
            recent@.len() == self@.history.len(),
            forall|i: int|
                0 <= i < recent@.len() ==> (#[trigger] recent@[i])@ == self@.history[
                    self@.history.len() - 1 - i],
    {
        let mut recent: Vec<&ScenarioCommand> = Vec::new();
        let mut n: usize = self.history.len();
        while n > 0
            invariant
                n <= self.history@.len(),
                recent@.len() == self.history@.len() - n,
                forall|i: int|
                    0 <= i < recent@.len() ==> *(#[trigger] recent@[i]) == self.history@[
                        self.history@.len() - 1 - i],
            decreases n,
        {
            n = n - 1;
            recent.push(&self.history[n]);
        }
        recent
    }
}

} // verus!
