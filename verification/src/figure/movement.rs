//! Movement: how a figure moves, and the command that moves it.

use crate::figure::FigureId;
use crate::scenario::command::{
    command_views, lemma_execute_keeps_wf, lemma_undo_keeps_wf, CommandView, ScenarioCommand,
    ScenarioCommandTrait, ScenarionCommandExecuteResult,
};
use crate::scenario::world::World;
use hexx::Hex;
use vstd::prelude::*;

verus! {

/// How a figure moves across the grid.
#[derive(Debug, Clone, Copy, PartialEq, Eq, Structural)]
pub enum MovementKind {
    Default,
    Jump,
    Fly,
}

impl Default for MovementKind {
    fn default() -> (kind: MovementKind)
        ensures
            kind == MovementKind::Default,
    {
        MovementKind::Default
    }
}

/// Moves a figure to a hex, and on undo back to where it stood.
#[derive(Debug)]
pub struct MoveCommand {
    entity: FigureId,
    start: Option<Hex>,
    end: Hex,
    kind: MovementKind,
}

impl View for MoveCommand {
    type V = CommandView;

    closed spec fn view(&self) -> CommandView {
        CommandView::Move { entity: self.entity, start: self.start, end: self.end, kind: self.kind }
    }
}

impl Clone for MoveCommand {
    fn clone(&self) -> (copy: MoveCommand)
        ensures
            copy@ == self@,
    {
        MoveCommand { entity: self.entity, start: self.start, end: self.end, kind: self.kind }
    }
}

impl MoveCommand {
    /// `entity` to `hex` by the default kind of movement, not executed yet.
    pub fn new(entity: FigureId, hex: Hex) -> (command: MoveCommand)
        ensures
            command@ == (CommandView::Move {
                entity,
                start: None,
                end: hex,
                kind: MovementKind::Default,
            }),
    {
        MoveCommand { entity, end: hex, start: None, kind: MovementKind::default() }
    }

    /// The same move by another kind of movement.
    pub fn _with_kind(self, kind: MovementKind) -> (command: MoveCommand)
        ensures
            command@ == (CommandView::Move {
                entity: self@->Move_entity,
                start: self@->Move_start,
                end: self@->Move_end,
                kind,
            }),
    {
        MoveCommand { entity: self.entity, start: self.start, end: self.end, kind }
    }

    /// Where the figure stood, once the command was executed.
    pub fn start(&self) -> (start: Option<Hex>)
        ensures
            start == self@->start,
    {
        self.start
    }

    /// Where the figure moves to.
    pub fn end(&self) -> (end: Hex)
        ensures
            end == self@->end,
    {
        self.end
    }

    /// How the figure moves.
    pub fn kind(&self) -> (kind: MovementKind)
        ensures
            kind == self@->kind,
    {
        self.kind
    }
}

impl ScenarioCommandTrait for MoveCommand {
    fn can_execute(&self, world: &World) -> (possible: bool) {
        world.contains(self.entity)
    }

    fn can_undo(&self, world: &World) -> (possible: bool) {
        world.contains(self.entity) && self.start.is_some()
    }

    fn leaves_index_restorable(&self, world: &World) -> (restorable: bool) {
        world.is_entered(self.entity) && world.is_free_for(self.entity, self.end)
    }

    fn execute(&mut self, world: &mut World) -> (result: ScenarionCommandExecuteResult) {
        proof {
            lemma_execute_keeps_wf(self@, world@);
        }
        self.start = Some(world.hex_position(self.entity).hex());
        world.relocate(self.entity, self.end);
        let follow_up: Vec<ScenarioCommand> = Vec::new();
        proof {
            assert(command_views(follow_up@) =~= Seq::<CommandView>::empty());
        }
        ScenarionCommandExecuteResult::Done(follow_up)
    }

    fn undo(self, world: &mut World) -> (undone: ScenarioCommand) {
        proof {
            lemma_undo_keeps_wf(self@, world@);
        }
        world.relocate(self.entity, self.start.unwrap());
        ScenarioCommand::MoveCommand(
            MoveCommand { entity: self.entity, start: None, end: self.end, kind: self.kind },
        )
    }
}

} // verus!
