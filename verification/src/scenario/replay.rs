//! What holds of whole runs of the engine: that undo retraces execute step
//! by step, that follow-ups run first, and that immunities hold whatever is
//! executed.

use crate::figure::condition::ConditionKind;
use crate::figure::FigureId;
use crate::scenario::command::{
    lemma_execute_keeps_index, lemma_execute_keeps_wf, lemma_undo_inverts_execute,
    lemma_undo_keeps_wf, CommandView, QueueView,
};
use crate::scenario::world::WorldView;
use vstd::prelude::*;

verus! {

/// A scenario as plain values: the queue and the world that it works on.
#[verifier::ext_equal]
pub struct ScenarioView {
    pub queue: QueueView,
    pub world: WorldView,
}

impl ScenarioView {
    /// The scenario after one `execute` of the queue.
    pub open spec fn execute(self) -> ScenarioView {
        ScenarioView {
            queue: self.queue.execute(self.world),
            world: self.queue.execute_world(self.world),
        }
    }

    /// The scenario after one `undo` of the queue.
    pub open spec fn undo(self) -> ScenarioView {
        ScenarioView { queue: self.queue.undo(), world: self.queue.undo_world(self.world) }
    }

    /// The scenario after `n` times `execute`.
    pub open spec fn execute_times(self, n: nat) -> ScenarioView
        decreases n,
    {
        if n == 0 {
            self
        } else {
            self.execute_times((n - 1) as nat).execute()
        }
    }

    /// The scenario after `n` times `undo`.
    pub open spec fn undo_times(self, n: nat) -> ScenarioView
        decreases n,
    {
        if n == 0 {
            self
        } else {
            self.undo_times((n - 1) as nat).undo()
        }
    }

    /// Whether `execute` can be called `n` times in a row: each time nothing
    /// is pending or the next command can be executed.
    pub open spec fn can_execute_times(self, n: nat) -> bool
        decreases n,
    {
        n == 0 || {
            let before = self.execute_times((n - 1) as nat);
            &&& self.can_execute_times((n - 1) as nat)
            &&& before.queue.can_execute(before.world)
        }
    }

    /// Whether `undo` can be called `n` times in a row: each time the history
    /// is empty or its last command can be undone.
    pub open spec fn can_undo_times(self, n: nat) -> bool
        decreases n,
    {
        n == 0 || {
            let before = self.undo_times((n - 1) as nat);
            &&& self.can_undo_times((n - 1) as nat)
            &&& before.queue.can_undo(before.world)
        }
    }

    /// Whether a command is pending that can be executed and whose undo can
    /// bring the grid index back.
    pub open spec fn ready(self) -> bool {
        &&& self.queue.pending.len() > 0
        &&& self.queue.pending[0].can_execute(self.world)
        &&& self.queue.pending[0].leaves_index_restorable(self.world)
    }

    /// Whether each of the next `n` times `execute` finds the scenario ready.
    pub open spec fn ready_times(self, n: nat) -> bool
        decreases n,
    {
        n == 0 || (self.ready_times((n - 1) as nat) && self.execute_times((n - 1) as nat).ready())
    }

    /// Whether two scenarios have the same world and the same history: what
    /// an undo reads.
    pub open spec fn same_past(self, other: ScenarioView) -> bool {
        self.world == other.world && self.queue.history == other.queue.history
    }
}

/// Follow-ups run first: when a command is executed, the commands that
/// follow from it stand in front of those that were pending behind it, and
/// the command itself is the newest entry of the history.
pub proof fn lemma_follow_ups_run_first(queue: QueueView, world: WorldView)
    requires
        queue.pending.len() > 0,
    ensures
        queue.execute(world).pending == queue.pending[0].follow_up(world) + queue.pending.subrange(
            1,
            queue.pending.len() as int,
        ),
        queue.execute(world).history == queue.history.push(queue.pending[0].executed(world)),
{
}

/// One step back after one step forth: where the scenario is ready, an
/// `execute` can be undone at once, and that `undo` brings back the world
/// and the history, and leaves the command pending as it is when it holds
/// nothing captured.
pub proof fn lemma_undo_retraces_one_step(scenario: ScenarioView)
    requires
        scenario.world.wf(),
        scenario.ready(),
    ensures
        scenario.execute().world.wf(),
        scenario.execute().queue.can_undo(scenario.execute().world),
        scenario.execute().undo().same_past(scenario),
        scenario.execute().undo().queue.pending == seq![scenario.queue.pending[0].undone()],
{
    let command = scenario.queue.pending[0];
    lemma_execute_keeps_wf(command, scenario.world);
    lemma_undo_inverts_execute(command, scenario.world);
    let after = scenario.execute();
    assert(after.queue.history.last() == command.executed(scenario.world));
    assert(after.queue.history.drop_last() =~= scenario.queue.history);
}

/// Redo repeats execute: after an `execute` and its `undo`, the next
/// `execute` runs the same command again and reaches the same world and the
/// same history, where the command held nothing captured to begin with. Of
/// the commands that were pending behind it, none is left: only what follows
/// from the command is pending then.
pub proof fn lemma_redo_repeats_execute(scenario: ScenarioView)
    requires
        scenario.world.wf(),
        scenario.ready(),
        scenario.queue.pending[0].is_fresh(),
    ensures
        scenario.execute().undo().execute().same_past(scenario.execute()),
        scenario.execute().undo().execute().queue.pending == scenario.queue.pending[0].follow_up(
            scenario.world,
        ),
{
    lemma_undo_retraces_one_step(scenario);
    let command = scenario.queue.pending[0];
    let back = scenario.execute().undo();
    assert(back.queue.pending[0] == command);
    assert(back.queue.pending.subrange(1, 1) =~= Seq::<CommandView>::empty());
    assert(command.follow_up(scenario.world) + Seq::<CommandView>::empty()
        =~= command.follow_up(scenario.world));
}

/// While the scenario is ready, executing keeps the world well formed and
/// adds one entry to the history each time.
pub proof fn lemma_ready_run(scenario: ScenarioView, n: nat)
    requires
        scenario.world.wf(),
        scenario.ready_times(n),
    ensures
        scenario.execute_times(n).world.wf(),
        scenario.execute_times(n).queue.history.len() == scenario.queue.history.len() + n,
        scenario.can_execute_times(n),
    decreases n,
{
    if n > 0 {
        let before = scenario.execute_times((n - 1) as nat);
        lemma_ready_run(scenario, (n - 1) as nat);
        lemma_execute_keeps_wf(before.queue.pending[0], before.world);
    }
}

/// The index stays in agreement. While the scenario is ready, however many
/// commands are executed, every figure is entered in the index at its hex
/// and every entry is that of a figure that stands there.
pub proof fn lemma_index_stays_in_agreement(scenario: ScenarioView, n: nat)
    requires
        scenario.world.wf(),
        scenario.world.index_agrees(),
        scenario.ready_times(n),
    ensures
        scenario.execute_times(n).world.index_agrees(),
    decreases n,
{
    if n > 0 {
        let before = scenario.execute_times((n - 1) as nat);
        lemma_index_stays_in_agreement(scenario, (n - 1) as nat);
        lemma_execute_keeps_index(before.queue.pending[0], before.world);
    }
}

/// Undo inverts execute. After `executed` times `execute`, each of which
/// found the scenario ready, `undo` can be called `undone` times for any
/// `undone` up to `executed`, and leaves the world and the history as they
/// were after `executed - undone` times `execute`. With `undone == executed`
/// that is the world and the history from before the run.
pub proof fn lemma_undo_inverts_execute_times(scenario: ScenarioView, executed: nat, undone: nat)
    requires
        scenario.world.wf(),
        scenario.ready_times(executed),
        undone <= executed,
    ensures
        scenario.execute_times(executed).can_undo_times(undone),
        scenario.execute_times(executed).undo_times(undone).same_past(
            scenario.execute_times((executed - undone) as nat),
        ),
    decreases undone,
{
    if undone > 0 {
        let end = scenario.execute_times(executed);
        lemma_undo_inverts_execute_times(scenario, executed, (undone - 1) as nat);
        let reached = end.undo_times((undone - 1) as nat);
        let target = scenario.execute_times((executed - undone) as nat);
        lemma_ready_times_prefix(scenario, executed, (executed - undone) as nat);
        lemma_ready_run(scenario, (executed - undone) as nat);
        assert(scenario.execute_times((executed - undone + 1) as nat) == target.execute());
        lemma_ready_times_prefix(scenario, executed, (executed - undone + 1) as nat);
        lemma_undo_retraces_one_step(target);
        assert(reached.same_past(target.execute()));
    }
}

/// A run that finds the scenario ready `n` times finds it ready the first
/// `m` times.
pub proof fn lemma_ready_times_prefix(scenario: ScenarioView, n: nat, m: nat)
    requires
        scenario.ready_times(n),
        m <= n,
    ensures
        scenario.ready_times(m),
    decreases n,
{
    if m < n {
        lemma_ready_times_prefix(scenario, (n - 1) as nat, m);
    }
}

/// Whether every figure of `after` has the immunities that it has in
/// `before`, and none of them active.
pub open spec fn immunities_hold(before: WorldView, after: WorldView) -> bool {
    &&& after.figures.len() == before.figures.len()
    &&& forall|id: FigureId, kind: ConditionKind|
        before.contains(id) ==> {
            &&& after.figure(id).conditions.immunities.contains(kind)
                == #[trigger] before.figure(id).conditions.immunities.contains(kind)
            &&& before.figure(id).conditions.immunities.contains(kind) ==> !after.figure(
                id,
            ).conditions.active.contains(kind)
        }
}

/// Executing a command changes no immunity and makes no condition active
/// that its figure is immune to.
pub proof fn lemma_execute_keeps_immunities(command: CommandView, world: WorldView)
    requires
        world.wf(),
        command.can_execute(world),
    ensures
        immunities_hold(world, command.execute_world(world)),
{
    lemma_execute_keeps_wf(command, world);
    let after = command.execute_world(world);
    assert forall|id: FigureId, kind: ConditionKind| world.contains(id) implies {
        &&& after.figure(id).conditions.immunities.contains(kind)
            == #[trigger] world.figure(id).conditions.immunities.contains(kind)
        &&& world.figure(id).conditions.immunities.contains(kind) ==> !after.figure(
            id,
        ).conditions.active.contains(kind)
    } by {
        assert(after.figures[id.index_spec()].wf());
    }
}

/// Undoing a command changes no immunity and makes no condition active that
/// its figure is immune to.
pub proof fn lemma_undo_keeps_immunities(command: CommandView, world: WorldView)
    requires
        world.wf(),
        command.can_undo(world),
    ensures
        immunities_hold(world, command.undo_world(world)),
{
    lemma_undo_keeps_wf(command, world);
    let after = command.undo_world(world);
    assert forall|id: FigureId, kind: ConditionKind| world.contains(id) implies {
        &&& after.figure(id).conditions.immunities.contains(kind)
            == #[trigger] world.figure(id).conditions.immunities.contains(kind)
        &&& world.figure(id).conditions.immunities.contains(kind) ==> !after.figure(
            id,
        ).conditions.active.contains(kind)
    } by {
        assert(after.figures[id.index_spec()].wf());
    }
}

/// Immunities hold: however many commands are executed, whatever they are,
/// every figure keeps its immunities, and no condition that it is immune to
/// is ever active on it.
pub proof fn lemma_immunities_hold(scenario: ScenarioView, n: nat)
    requires
        scenario.world.wf(),
        scenario.can_execute_times(n),
    ensures
        scenario.execute_times(n).world.wf(),
        immunities_hold(scenario.world, scenario.execute_times(n).world),
    decreases n,
{
    if n > 0 {
        let before = scenario.execute_times((n - 1) as nat);
        lemma_immunities_hold(scenario, (n - 1) as nat);
        if before.queue.pending.len() > 0 {
            lemma_execute_keeps_wf(before.queue.pending[0], before.world);
            lemma_execute_keeps_immunities(before.queue.pending[0], before.world);
        }
        let after = before.execute().world;
        assert forall|id: FigureId, kind: ConditionKind| scenario.world.contains(id) implies {
            &&& after.figure(id).conditions.immunities.contains(kind)
                == #[trigger] scenario.world.figure(id).conditions.immunities.contains(kind)
            &&& scenario.world.figure(id).conditions.immunities.contains(kind) ==> !after.figure(
                id,
            ).conditions.active.contains(kind)
        } by {
            assert(before.world.contains(id));
            assert(before.world.figure(id).conditions.immunities.contains(kind)
                == scenario.world.figure(id).conditions.immunities.contains(kind));
            assert(after.figure(id).conditions.immunities.contains(kind)
                == before.world.figure(id).conditions.immunities.contains(kind));
        }
    }
}

/// A second add changes nothing: when a condition that a figure is neither
/// under nor immune to is added twice, undoing the second add leaves it
/// active, and undoing the first add after that brings the world back.
pub proof fn lemma_second_add_changes_nothing(
    world: WorldView,
    entity: FigureId,
    condition: ConditionKind,
)
    requires
        world.wf(),
        world.contains(entity),
        world.figure(entity).conditions.add_changes(condition),
    ensures
        ({
            let add = CommandView::AddCondition { entity, condition, added: false };
            let once = add.execute_world(world);
            let twice = add.execute_world(once);
            let first = add.executed(world);
            let second = add.executed(once);
            let back_once = second.undo_world(twice);
            &&& first == (CommandView::AddCondition { entity, condition, added: true })
            &&& second == add
            &&& back_once.figure(entity).conditions.active.contains(condition)
            &&& first.undo_world(back_once) == world
        }),
{
    let add = CommandView::AddCondition { entity, condition, added: false };
    let once = add.execute_world(world);
    lemma_execute_keeps_wf(add, world);
    lemma_undo_inverts_execute(add, world);
    lemma_undo_inverts_execute(add, once);
    let twice = add.execute_world(once);
    assert(add.executed(once).undo_world(twice) == once);
}

} // verus!
