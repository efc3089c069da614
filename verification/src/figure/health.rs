//! Hit points, and the command that takes them away.

use crate::figure::FigureId;
use crate::scenario::command::{
    command_views, lemma_execute_keeps_wf, lemma_undo_keeps_wf, CommandView, ScenarioCommand,
    ScenarioCommandTrait, ScenarionCommandExecuteResult,
};
use crate::scenario::world::World;
use vstd::prelude::*;

verus! {

/// Hit points as numbers: how many are left and how many there can be.
pub struct HealthView {
    pub current: nat,
    pub max: nat,
}

impl HealthView {
    /// `current` never exceeds `max`.
    pub open spec fn wf(self) -> bool {
        self.current <= self.max
    }

    /// The part of `damage` that there are hit points left for.
    pub open spec fn damage_taken(self, damage: nat) -> nat {
        if damage <= self.current {
            damage
        } else {
            self.current
        }
    }

    /// Hit points after `damage`: never below zero.
    pub open spec fn suffer(self, damage: nat) -> HealthView {
        HealthView { current: (self.current - self.damage_taken(damage)) as nat, max: self.max }
    }

    /// The part of `amount` that fits below `max`.
    pub open spec fn healing_received(self, amount: nat) -> nat {
        if self.current + amount <= self.max {
            amount
        } else {
            (self.max - self.current) as nat
        }
    }

    /// Hit points after healing by `amount`: never above `max`.
    pub open spec fn heal(self, amount: nat) -> HealthView {
        HealthView { current: self.current + self.healing_received(amount), max: self.max }
    }
}

/// The hit points of one figure.
#[derive(Debug)]
pub struct Health {
    current: usize,
    max: usize,
}

impl View for Health {
    type V = HealthView;

    closed spec fn view(&self) -> HealthView {
        HealthView { current: self.current as nat, max: self.max as nat }
    }
}

impl Health {
    /// Full hit points.
    pub fn new(max: usize) -> (health: Health)
        ensures
            health@ == (HealthView { current: max as nat, max: max as nat }),
            health@.wf(),
    {
        Health { current: max, max }
    }

    /// Hit points left.
    pub fn current(&self) -> (current: usize)
        ensures
            current == self@.current,
    {
        self.current
    }

    /// Hit points when unharmed.
    pub fn max(&self) -> (max: usize)
        ensures
            max == self@.max,
    {
        self.max
    }

    /// Takes `damage` hit points away, stopping at zero, and returns how many
    /// were taken.
    pub fn suffer(&mut self, damage: usize) -> (actual_damage: usize)
        ensures
            actual_damage == old(self)@.damage_taken(damage as nat),
            final(self)@ == old(self)@.suffer(damage as nat),
            old(self)@.wf() ==> final(self)@.wf(),
    {
        let actual_damage: usize = if damage <= self.current {
            damage
        } else {
            self.current
        };
        self.current = self.current - actual_damage;
        actual_damage
    }

    /// Gives `heal` hit points back, stopping at `max`, and returns how many
    /// were given.
    pub fn heal(&mut self, heal: usize) -> (actual_heal: usize)
        requires
            old(self)@.wf(),
        ensures
            actual_heal == old(self)@.healing_received(heal as nat),
            final(self)@ == old(self)@.heal(heal as nat),
            final(self)@.wf(),
    {
        let room: usize = self.max - self.current;
        let actual_heal: usize = if heal <= room {
            heal
        } else {
            room
        };
        self.current = self.current + actual_heal;
        actual_heal
    }
}

/// Healing back what was just taken restores the hit points, and both
/// operations keep `current` within `max`.
pub proof fn lemma_heal_inverts_suffer(health: HealthView, damage: nat)
    requires
        health.wf(),
    ensures
        health.suffer(damage).wf(),
        health.suffer(damage).heal(health.damage_taken(damage)) == health,
        forall|amount: nat| health.heal(amount).wf(),
{
}

/// Takes hit points from a figure, and on undo gives back as many as it took.
#[derive(Debug)]
pub struct SufferDamageCommand {
    source: FigureId,
    target: FigureId,
    damage: usize,
    actual_damage: Option<usize>,
}

impl View for SufferDamageCommand {
    type V = CommandView;

    closed spec fn view(&self) -> CommandView {
        CommandView::SufferDamage {
            source: self.source,
            target: self.target,
            damage: self.damage as nat,
            actual_damage: match self.actual_damage {
                Some(actual) => Some(actual as nat),
                None => None,
            },
        }
    }
}

impl Clone for SufferDamageCommand {
    fn clone(&self) -> (copy: SufferDamageCommand)
        ensures
            copy@ == self@,
    {
        SufferDamageCommand {
            source: self.source,
            target: self.target,
            damage: self.damage,
            actual_damage: self.actual_damage,
        }
    }
}

impl SufferDamageCommand {
    /// `damage` dealt by `source` to `target`, not executed yet.
    pub fn new(source: FigureId, target: FigureId, damage: usize) -> (command: SufferDamageCommand)
        ensures
            command@ == (CommandView::SufferDamage {
                source,
                target,
                damage: damage as nat,
                actual_damage: None,
            }),
    {
        SufferDamageCommand { source, target, damage, actual_damage: None }
    }

    /// Who suffers the damage.
    pub fn target(&self) -> (target: FigureId)
        ensures
            target == self@->target,
    {
        self.target
    }

    /// The damage dealt.
    pub fn damage(&self) -> (damage: usize)
        ensures
            damage == self@->damage,
    {
        self.damage
    }

    /// The hit points that the target lost, once the command was executed.
    pub fn actual_damage(&self) -> (actual_damage: Option<usize>)
        ensures
            actual_damage is Some == self@->actual_damage is Some,
            actual_damage is Some ==> actual_damage->0 == self@->actual_damage->0,
    {
        self.actual_damage
    }
}

impl ScenarioCommandTrait for SufferDamageCommand {
    fn can_execute(&self, world: &World) -> (possible: bool) {
        world.contains(self.target)
    }

    fn can_undo(&self, world: &World) -> (possible: bool) {
        world.contains(self.target) && self.actual_damage.is_some()
    }

    fn leaves_index_restorable(&self, world: &World) -> (restorable: bool) {
        true
    }

    fn execute(&mut self, world: &mut World) -> (result: ScenarionCommandExecuteResult) {
        proof {
            lemma_execute_keeps_wf(self@, world@);
        }
        let health = world.health_mut(self.target);
        self.actual_damage = Some(health.suffer(self.damage));
        let follow_up: Vec<ScenarioCommand> = Vec::new();
        proof {
            assert(command_views(follow_up@) =~= Seq::<CommandView>::empty());
        }
        ScenarionCommandExecuteResult::Done(follow_up)
    }

    fn undo(self, world: &mut World) -> (undone: ScenarioCommand) {
        proof {
            lemma_undo_keeps_wf(self@, world@);
            assert(world@.figures[self.target.index_spec()].wf());
        }
        let health = world.health_mut(self.target);
        health.heal(self.actual_damage.unwrap());
        ScenarioCommand::SufferDamageCommand(
            SufferDamageCommand {
                source: self.source,
                target: self.target,
                damage: self.damage,
                actual_damage: None,
            },
        )
    }
}

} // verus!
