//! Attacks: what one is, how its damage is worked out, and the commands that
//! carry it from intent to damage.

use crate::figure::condition::ConditionKind;
use crate::figure::health::SufferDamageCommand;
use crate::figure::modifier::{Modifier, RollModifierCommand};
use crate::figure::FigureId;
use crate::scenario::command::{
    command_views, lemma_execute_keeps_wf, lemma_undo_keeps_wf, CommandView, ScenarioCommand,
    ScenarioCommandTrait, ScenarionCommandExecuteResult,
};
use crate::scenario::world::World;
use vstd::prelude::*;

verus! {

/// An attack: whom it hits and how hard before anything is added.
#[derive(Debug, Clone, Copy, PartialEq, Eq, Structural)]
pub struct Attack {
    pub target: FigureId,
    pub value: usize,
}

impl Attack {
    pub fn new(target: FigureId, value: usize) -> (attack: Attack)
        ensures
            attack == (Attack { target, value }),
    {
        Attack { target, value }
    }
}

/// `damage` after each of `modifiers` in turn, first to last.
pub open spec fn fold_modifiers(damage: int, modifiers: Seq<Modifier>) -> int {
    modifiers.fold_left(damage, |acc: int, modifier: Modifier| modifier.apply_spec(acc))
}

/// What an attack starts from: its value, and one more against a poisoned
/// target.
pub open spec fn base_damage(value: nat, poisoned: bool) -> int {
    if poisoned {
        value as int + 1
    } else {
        value as int
    }
}

/// What is left of `damage` behind the shield of the target. The rules say
/// nothing of shields, so that is all of it.
pub open spec fn behind_shield(damage: int) -> int {
    damage
}

/// The damage of an attack: the base damage after all modifiers, zero where
/// that is negative, and of that what is left behind the target's shield.
pub open spec fn attack_damage(value: nat, poisoned: bool, modifiers: Seq<Modifier>) -> int {
    let folded = fold_modifiers(base_damage(value, poisoned), modifiers);
    behind_shield(
        if folded < 0 {
            0
        } else {
            folded
        },
    )
}

/// What is left of `damage` behind the shield of the target. The rules say
/// nothing of shields, so that is all of it.
pub fn reduce_by_shield(damage: usize) -> (reduced: usize)
    ensures
        reduced == behind_shield(damage as int),
{
    damage
}

/// Whether the damage can be worked out in machine integers: every value on
/// the way is an `i128` and the result a `usize`.
pub open spec fn damage_fits(value: nat, poisoned: bool, modifiers: Seq<Modifier>) -> bool {
    &&& forall|n: int|
        0 <= n <= modifiers.len() ==> i128::MIN <= #[trigger] fold_modifiers(
            base_damage(value, poisoned),
            modifiers.take(n),
        ) <= i128::MAX
    &&& attack_damage(value, poisoned, modifiers) <= usize::MAX
}

/// The damage of an attack of `value` with `modifiers` drawn, or `None` where
/// it cannot be worked out in machine integers.
pub fn resolve_damage(value: usize, poisoned: bool, modifiers: &Vec<Modifier>) -> (damage: Option<
    usize,
>)
    ensures
        damage == if damage_fits(value as nat, poisoned, modifiers@) {
            Some(attack_damage(value as nat, poisoned, modifiers@) as usize)
        } else {
            None
        },
{
    let ghost start = base_damage(value as nat, poisoned);
    let mut acc: i128 = if poisoned {
        value as i128 + 1
    } else {
        value as i128
    };
    let mut i: usize = 0;
    proof {
        assert(modifiers@.take(0) =~= Seq::<Modifier>::empty());
    }
    while i < modifiers.len()
        invariant
            i <= modifiers.len(),
            start == base_damage(value as nat, poisoned),
            acc == fold_modifiers(start, modifiers@.take(i as int)),
            forall|n: int|
                0 <= n <= i ==> i128::MIN <= #[trigger] fold_modifiers(start, modifiers@.take(n))
                    <= i128::MAX,
        decreases modifiers.len() - i,
    {
        proof {
            let next = modifiers@.take(i + 1);
            assert(next.drop_last() =~= modifiers@.take(i as int));
            assert(next.last() == modifiers@[i as int]);
            assert(fold_modifiers(start, next) == modifiers@[i as int].apply_spec(acc as int));
        }
        match modifiers[i].checked_apply(acc) {
            Some(next) => {
                acc = next;
            },
            None => {
                return None;
            },
        }
        i = i + 1;
    }
    proof {
        assert(modifiers@.take(modifiers.len() as int) =~= modifiers@);
    }
    if acc < 0 {
        Some(reduce_by_shield(0))
    } else if acc > usize::MAX as i128 {
        None
    } else {
        Some(reduce_by_shield(acc as usize))
    }
}

/// The attack that a figure is in the middle of, as its attack and the
/// modifiers drawn for it so far.
#[verifier::ext_equal]
pub struct PendingAttackView {
    pub attack: Option<Attack>,
    pub modifiers: Seq<Modifier>,
}

impl PendingAttackView {
    /// No attack under way.
    pub open spec fn idle() -> PendingAttackView {
        PendingAttackView { attack: None, modifiers: Seq::empty() }
    }

    /// `attack` just declared: no modifier drawn yet.
    pub open spec fn declared(attack: Attack) -> PendingAttackView {
        PendingAttackView { attack: Some(attack), modifiers: Seq::empty() }
    }

    /// One more modifier drawn.
    pub open spec fn push(self, modifier: Modifier) -> PendingAttackView {
        PendingAttackView { modifiers: self.modifiers.push(modifier), ..self }
    }

    /// The last modifier drawn taken back.
    pub open spec fn drop_last(self) -> PendingAttackView {
        PendingAttackView { modifiers: self.modifiers.drop_last(), ..self }
    }
}

/// The attack that a figure is in the middle of: set when the attack is
/// declared, filled as modifiers are drawn, read when it is applied.
#[derive(Debug)]
pub struct PendingAttack {
    attack: Option<Attack>,
    modifiers: Vec<Modifier>,
}

impl View for PendingAttack {
    type V = PendingAttackView;

    closed spec fn view(&self) -> PendingAttackView {
        PendingAttackView { attack: self.attack, modifiers: self.modifiers@ }
    }
}

impl Clone for PendingAttack {
    fn clone(&self) -> (copy: PendingAttack)
        ensures
            copy@ == self@,
    {
        let mut modifiers: Vec<Modifier> = Vec::new();
        let mut i: usize = 0;
        while i < self.modifiers.len()
            invariant
                i <= self.modifiers.len(),
                modifiers@ == self.modifiers@.take(i as int),
            decreases self.modifiers.len() - i,
        {
            modifiers.push(self.modifiers[i]);
            proof {
                assert(modifiers@ =~= self.modifiers@.take(i + 1));
            }
            i = i + 1;
        }
        proof {
            assert(modifiers@ =~= self.modifiers@);
        }
        PendingAttack { attack: self.attack, modifiers }
    }
}

impl PendingAttack {
    /// No attack under way.
    pub fn new() -> (pending: PendingAttack)
        ensures
            pending@ == PendingAttackView::idle(),
    {
        PendingAttack { attack: None, modifiers: Vec::new() }
    }

    /// `attack` just declared: no modifier drawn yet.
    pub fn declared(attack: Attack) -> (pending: PendingAttack)
        ensures
            pending@ == PendingAttackView::declared(attack),
    {
        PendingAttack { attack: Some(attack), modifiers: Vec::new() }
    }

    /// The attack under way, if there is one.
    pub fn attack(&self) -> (attack: Option<Attack>)
        ensures
            attack == self@.attack,
    {
        self.attack
    }

    /// The modifiers drawn so far, first to last.
    pub fn modifiers(&self) -> (modifiers: &Vec<Modifier>)
        ensures
            modifiers@ == self@.modifiers,
    {
        &self.modifiers
    }

    /// Records one more drawn modifier.
    pub fn push_modifier(&mut self, modifier: Modifier)
        ensures
            final(self)@ == old(self)@.push(modifier),
    {
        self.modifiers.push(modifier);
    }

    /// Takes the last drawn modifier back, if there is one.
    pub fn pop_modifier(&mut self) -> (modifier: Option<Modifier>)
        ensures
            modifier == if old(self)@.modifiers.len() > 0 {
                Some(old(self)@.modifiers.last())
            } else {
                None
            },
            final(self)@ == if old(self)@.modifiers.len() > 0 {
                old(self)@.drop_last()
            } else {
                old(self)@
            },
    {
        self.modifiers.pop()
    }
}

/// Declares an attack: it becomes the pending attack of its source, and a
/// modifier draw and the application of the attack follow. On undo the
/// pending attack that it replaced comes back.
#[derive(Debug)]
pub struct AttackCommand {
    source: FigureId,
    attack: Attack,
    previous: Option<PendingAttack>,
}

impl View for AttackCommand {
    type V = CommandView;

    closed spec fn view(&self) -> CommandView {
        CommandView::Attack {
            source: self.source,
            attack: self.attack,
            previous: match self.previous {
                Some(pending) => Some(pending@),
                None => None,
            },
        }
    }
}

impl Clone for AttackCommand {
    fn clone(&self) -> (copy: AttackCommand)
        ensures
            copy@ == self@,
    {
        let previous = match &self.previous {
            Some(pending) => Some(pending.clone()),
            None => None,
        };
        AttackCommand { source: self.source, attack: self.attack, previous }
    }
}

impl AttackCommand {
    /// `attack` by `source`, not executed yet.
    pub fn new(source: FigureId, attack: Attack) -> (command: AttackCommand)
        ensures
            command@ == (CommandView::Attack { source, attack, previous: None }),
    {
        AttackCommand { source, attack, previous: None }
    }
}

impl ScenarioCommandTrait for AttackCommand {
    fn can_execute(&self, world: &World) -> (possible: bool) {
        world.contains(self.source)
    }

    fn can_undo(&self, world: &World) -> (possible: bool) {
        world.contains(self.source) && self.previous.is_some()
    }

    fn leaves_index_restorable(&self, world: &World) -> (restorable: bool) {
        true
    }

    fn execute(&mut self, world: &mut World) -> (result: ScenarionCommandExecuteResult) {
        proof {
            lemma_execute_keeps_wf(self@, world@);
        }
        let mut pending = PendingAttack::declared(self.attack);
        std::mem::swap(world.pending_attack_mut(self.source), &mut pending);
        self.previous = Some(pending);
        let mut follow_up: Vec<ScenarioCommand> = Vec::new();
        follow_up.push(ScenarioCommand::RollModifierCommand(RollModifierCommand::new(self.source)));
        follow_up.push(ScenarioCommand::ApplyAttackCommand(ApplyAttackCommand::new(self.source)));
        proof {
            assert(command_views(follow_up@) =~= old(self)@.follow_up(old(world)@));
        }
        ScenarionCommandExecuteResult::Done(follow_up)
    }

    fn undo(self, world: &mut World) -> (undone: ScenarioCommand) {
        proof {
            lemma_undo_keeps_wf(self@, world@);
        }
        let pending = world.pending_attack_mut(self.source);
        *pending = self.previous.unwrap();
        ScenarioCommand::AttackCommand(
            AttackCommand { source: self.source, attack: self.attack, previous: None },
        )
    }
}

/// Works out the damage of the pending attack of its source, and has the
/// target suffer it next. It changes nothing itself, so its undo changes
/// nothing either.
#[derive(Debug)]
pub struct ApplyAttackCommand {
    source: FigureId,
}

impl View for ApplyAttackCommand {
    type V = CommandView;

    closed spec fn view(&self) -> CommandView {
        CommandView::ApplyAttack { source: self.source }
    }
}

impl Clone for ApplyAttackCommand {
    fn clone(&self) -> (copy: ApplyAttackCommand)
        ensures
            copy@ == self@,
    {
        ApplyAttackCommand { source: self.source }
    }
}

impl ApplyAttackCommand {
    /// The application of the pending attack of `source`, not executed yet.
    pub fn new(source: FigureId) -> (command: ApplyAttackCommand)
        ensures
            command@ == (CommandView::ApplyAttack { source }),
    {
        ApplyAttackCommand { source }
    }
}

impl ScenarioCommandTrait for ApplyAttackCommand {
    fn can_execute(&self, world: &World) -> (possible: bool) {
        if !world.contains(self.source) {
            return false;
        }
        let pending = world.pending_attack(self.source);
        match pending.attack() {
            None => false,
            Some(attack) => {
                if !world.contains(attack.target) {
                    false
                } else {
                    let poisoned = world.conditions(attack.target).has(ConditionKind::Poison);
                    resolve_damage(attack.value, poisoned, pending.modifiers()).is_some()
                }
            },
        }
    }

    fn can_undo(&self, world: &World) -> (possible: bool) {
        true
    }

    fn leaves_index_restorable(&self, world: &World) -> (restorable: bool) {
        true
    }

    fn execute(&mut self, world: &mut World) -> (result: ScenarionCommandExecuteResult) {
        proof {
            lemma_execute_keeps_wf(self@, world@);
        }
        let pending = world.pending_attack(self.source);
        let attack = pending.attack().unwrap();
        let poisoned = world.conditions(attack.target).has(ConditionKind::Poison);
        let damage = resolve_damage(attack.value, poisoned, pending.modifiers()).unwrap();
        let mut follow_up: Vec<ScenarioCommand> = Vec::new();
        follow_up.push(
            ScenarioCommand::SufferDamageCommand(
                SufferDamageCommand::new(self.source, attack.target, damage),
            ),
        );
        proof {
            assert(command_views(follow_up@) =~= old(self)@.follow_up(old(world)@));
        }
        ScenarionCommandExecuteResult::Done(follow_up)
    }

    fn undo(self, world: &mut World) -> (undone: ScenarioCommand) {
        proof {
            lemma_undo_keeps_wf(self@, world@);
        }
        ScenarioCommand::ApplyAttackCommand(self)
    }
}

} // verus!
