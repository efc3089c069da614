//! Attack modifiers, the tray they are drawn from, and the command that
//! draws one.

use crate::figure::FigureId;
use crate::scenario::command::{
    command_views, lemma_execute_keeps_wf, lemma_undo_keeps_wf, CommandView, ScenarioCommand,
    ScenarioCommandTrait, ScenarionCommandExecuteResult,
};
use crate::scenario::world::World;
use vstd::prelude::*;

verus! {

/// Rows of a modifier tray.
pub const TRAY_ROWS: usize = 6;

/// Columns of a modifier tray.
pub const TRAY_COLUMNS: usize = 3;

/// The table of a modifier tray: one modifier per row and column.
pub type ModifierTable = [[Modifier; 3]; 6];

/// A change that a drawn modifier makes to an attack's damage.
#[derive(Debug, Clone, Copy, PartialEq, Eq, Structural)]
pub enum Modifier {
    Add(i8),
    Multiply(i8),
}

impl Modifier {
    pub fn add(value: i8) -> (modifier: Modifier)
        ensures
            modifier == Modifier::Add(value),
    {
        Modifier::Add(value)
    }

    pub fn multiply(value: i8) -> (modifier: Modifier)
        ensures
            modifier == Modifier::Multiply(value),
    {
        Modifier::Multiply(value)
    }

    pub fn zero() -> (modifier: Modifier)
        ensures
            modifier == Modifier::Add(0),
    {
        Modifier::Add(0)
    }

    pub fn plus_one() -> (modifier: Modifier)
        ensures
            modifier == Modifier::Add(1),
    {
        Modifier::Add(1)
    }

    pub fn minus_one() -> (modifier: Modifier)
        ensures
            modifier == Modifier::Add(-1i8),
    {
        Modifier::Add(-1)
    }

    pub fn plus_two() -> (modifier: Modifier)
        ensures
            modifier == Modifier::Add(2),
    {
        Modifier::Add(2)
    }

    pub fn minus_two() -> (modifier: Modifier)
        ensures
            modifier == Modifier::Add(-2i8),
    {
        Modifier::Add(-2)
    }

    /// The attack misses: times zero.
    pub fn miss() -> (modifier: Modifier)
        ensures
            modifier == Modifier::Multiply(0),
    {
        Modifier::Multiply(0)
    }

    /// A critical hit: times two.
    pub fn crit() -> (modifier: Modifier)
        ensures
            modifier == Modifier::Multiply(2),
    {
        Modifier::Multiply(2)
    }

    /// `value` after this modifier.
    pub open spec fn apply_spec(self, value: int) -> int {
        match self {
            Modifier::Add(x) => value + x,
            Modifier::Multiply(x) => value * x,
        }
    }

    /// `value` after this modifier, or `None` where that is no `i128`.
    pub fn checked_apply(&self, value: i128) -> (result: Option<i128>)
        ensures
            result == if i128::MIN <= self.apply_spec(value as int) <= i128::MAX {
                Some(self.apply_spec(value as int) as i128)
            } else {
                None
            },
    {
        match self {
            Modifier::Add(x) => value.checked_add(*x as i128),
            Modifier::Multiply(x) => value.checked_mul(*x as i128),
        }
    }

    /// `value` after this modifier.
    pub fn apply(&self, value: i128) -> (result: i128)
        requires
            i128::MIN <= self.apply_spec(value as int) <= i128::MAX,
        ensures
            result == self.apply_spec(value as int),
    {
        match self {
            Modifier::Add(x) => value + *x as i128,
            Modifier::Multiply(x) => value * (*x as i128),
        }
    }
}

/// The column of the tray that a draw reads.
#[derive(Debug, Clone, Copy, PartialEq, Eq, Structural)]
pub enum ModifierTrayColumn {
    Minus,
    Neutral,
    Plus,
}

impl ModifierTrayColumn {
    /// The column's place in a row.
    pub open spec fn index_spec(self) -> int {
        match self {
            ModifierTrayColumn::Minus => 0,
            ModifierTrayColumn::Neutral => 1,
            ModifierTrayColumn::Plus => 2,
        }
    }

    /// The column's place in a row.
    pub fn index(self) -> (index: usize)
        ensures
            index == self.index_spec(),
    {
        match self {
            ModifierTrayColumn::Minus => 0,
            ModifierTrayColumn::Neutral => 1,
            ModifierTrayColumn::Plus => 2,
        }
    }
}

/// A modifier tray as its table and the row that the next draw reads.
pub struct ModifierTrayView {
    pub active_row: nat,
    pub table: ModifierTable,
}

impl ModifierTrayView {
    /// The active row is a row of the table.
    pub open spec fn wf(self) -> bool {
        self.active_row < TRAY_ROWS
    }

    /// The modifier in `column` of the active row.
    pub open spec fn get(self, column: ModifierTrayColumn) -> Modifier {
        self.table[self.active_row as int][column.index_spec()]
    }

    /// The tray with the row after the active one active, the first after the
    /// last.
    pub open spec fn next_row(self) -> ModifierTrayView {
        ModifierTrayView { active_row: ((self.active_row + 1) % (TRAY_ROWS as nat)) as nat, ..self }
    }

    /// The tray with `row` active.
    pub open spec fn with_row(self, row: nat) -> ModifierTrayView {
        ModifierTrayView { active_row: row, ..self }
    }
}

/// The deck of one figure: a table of modifiers read row after row, round
/// and round.
#[derive(Debug)]
pub struct ModifierTray {
    active_row: usize,
    table: ModifierTable,
}

impl View for ModifierTray {
    type V = ModifierTrayView;

    closed spec fn view(&self) -> ModifierTrayView {
        ModifierTrayView { active_row: self.active_row as nat, table: self.table }
    }
}

impl ModifierTray {
    /// A tray with the given table, about to read its first row.
    pub fn new(table: ModifierTable) -> (tray: ModifierTray)
        ensures
            tray@ == (ModifierTrayView { active_row: 0, table }),
            tray@.wf(),
    {
        ModifierTray { table, active_row: 0 }
    }

    /// The row that the next draw reads.
    pub fn active_row(&self) -> (row: usize)
        ensures
            row == self@.active_row,
    {
        self.active_row
    }

    /// The modifier in `column` of the active row.
    pub fn get(&self, column: ModifierTrayColumn) -> (modifier: Modifier)
        requires
            self@.wf(),
        ensures
            modifier == self@.get(column),
    {
        self.table[self.active_row][column.index()]
    }

    /// Makes the next row active, the first after the last.
    pub fn next_row(&mut self)
        requires
            old(self)@.wf(),
        ensures
            final(self)@ == old(self)@.next_row(),
            final(self)@.wf(),
    {
        self.active_row = (self.active_row + 1) % TRAY_ROWS;
    }

    /// Makes `row` active again.
    fn rewind(&mut self, row: usize)
        requires
            row < TRAY_ROWS,
        ensures
            final(self)@ == old(self)@.with_row(row as nat),
            final(self)@.wf(),
    {
        self.active_row = row;
    }

    /// Reads `column` of the active row and moves on to the next row,
    /// whichever column was read.
    pub fn draw(&mut self, column: ModifierTrayColumn) -> (modifier: Modifier)
        requires
            old(self)@.wf(),
        ensures
            modifier == old(self)@.get(column),
            final(self)@ == old(self)@.next_row(),
            final(self)@.wf(),
    {
        let modifier = self.get(column);
        self.next_row();
        modifier
    }
}

/// Going back to the row that was read takes a draw back: the tray is as
/// it was before.
pub proof fn lemma_with_row_inverts_next_row(tray: ModifierTrayView)
    requires
        tray.wf(),
    ensures
        tray.next_row().wf(),
        tray.next_row().with_row(tray.active_row) == tray,
{
}

/// Draws a modifier for the pending attack of a figure, and on undo takes
/// the draw back: the tray reads the same row again and the modifier leaves
/// the attack.
#[derive(Debug)]
pub struct RollModifierCommand {
    entity: FigureId,
    column: ModifierTrayColumn,
    previous_row: Option<usize>,
    modifier: Option<Modifier>,
}

impl View for RollModifierCommand {
    type V = CommandView;

    closed spec fn view(&self) -> CommandView {
        CommandView::RollModifier {
            entity: self.entity,
            column: self.column,
            previous_row: match self.previous_row {
                Some(row) => Some(row as nat),
                None => None,
            },
            modifier: self.modifier,
        }
    }
}

impl Clone for RollModifierCommand {
    fn clone(&self) -> (copy: RollModifierCommand)
        ensures
            copy@ == self@,
    {
        RollModifierCommand {
            entity: self.entity,
            column: self.column,
            previous_row: self.previous_row,
            modifier: self.modifier,
        }
    }
}

impl RollModifierCommand {
    /// A draw from the neutral column for `entity`, not executed yet.
    pub fn new(entity: FigureId) -> (command: RollModifierCommand)
        ensures
            command@ == (CommandView::RollModifier {
                entity,
                column: ModifierTrayColumn::Neutral,
                previous_row: None,
                modifier: None,
            }),
    {
        RollModifierCommand {
            entity,
            column: ModifierTrayColumn::Neutral,
            previous_row: None,
            modifier: None,
        }
    }

    /// The same draw from another column.
    pub fn with_column(self, column: ModifierTrayColumn) -> (command: RollModifierCommand)
        ensures
            command@ == (CommandView::RollModifier {
                entity: self@->RollModifier_entity,
                column,
                previous_row: self@->previous_row,
                modifier: self@->modifier,
            }),
    {
        RollModifierCommand {
            entity: self.entity,
            column,
            previous_row: self.previous_row,
            modifier: self.modifier,
        }
    }

    /// The row that was read, once the command was executed.
    pub fn previous_row(&self) -> (row: Option<usize>)
        ensures
            row is Some == self@->previous_row is Some,
            row is Some ==> row->0 == self@->previous_row->0,
    {
        self.previous_row
    }

    /// The modifier that was drawn, once the command was executed.
    pub fn modifier(&self) -> (modifier: Option<Modifier>)
        ensures
            modifier == self@->modifier,
    {
        self.modifier
    }
}

impl ScenarioCommandTrait for RollModifierCommand {
    fn can_execute(&self, world: &World) -> (possible: bool) {
        world.contains(self.entity)
    }

    fn can_undo(&self, world: &World) -> (possible: bool) {
        world.contains(self.entity) && match self.previous_row {
            Some(row) => row < TRAY_ROWS,
            None => false,
        }
    }

    fn leaves_index_restorable(&self, world: &World) -> (restorable: bool) {
        true
    }

    fn execute(&mut self, world: &mut World) -> (result: ScenarionCommandExecuteResult) {
        proof {
            lemma_execute_keeps_wf(self@, world@);
        }
        proof {
            assert(world@.figures[self.entity.index_spec()].wf());
        }
        let tray = world.modifier_tray_mut(self.entity);
        self.previous_row = Some(tray.active_row());
        let modifier = tray.draw(self.column);
        world.pending_attack_mut(self.entity).push_modifier(modifier);
        self.modifier = Some(modifier);
        let follow_up: Vec<ScenarioCommand> = Vec::new();
        proof {
            assert(command_views(follow_up@) =~= Seq::<CommandView>::empty());
        }
        ScenarionCommandExecuteResult::Done(follow_up)
    }

    fn undo(self, world: &mut World) -> (undone: ScenarioCommand) {
        proof {
            lemma_undo_keeps_wf(self@, world@);
        }
        let tray = world.modifier_tray_mut(self.entity);
        tray.rewind(self.previous_row.unwrap());
        world.pending_attack_mut(self.entity).pop_modifier();
        ScenarioCommand::RollModifierCommand(
            RollModifierCommand {
                entity: self.entity,
                column: self.column,
                previous_row: None,
                modifier: None,
            },
        )
    }
}

} // verus!
