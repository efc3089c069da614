//! Status conditions: which are active on a figure, which it can never get,
//! and the commands that add and remove them.

use crate::figure::FigureId;
use crate::scenario::command::{
    command_views, lemma_execute_keeps_wf, lemma_undo_keeps_wf, CommandView, ScenarioCommand,
    ScenarioCommandTrait, ScenarionCommandExecuteResult,
};
use crate::scenario::world::World;
use vstd::prelude::*;

verus! {

/// A status that a figure can be under.
#[derive(Debug, PartialEq, Eq, Hash, Clone, Copy, Structural)]
pub enum ConditionKind {
    Invisible,
    Strengthen,
    Wound,
    Poison,
    Immobilize,
    Disarm,
    Muddle,
}

impl ConditionKind {
    /// The number that stands for this kind inside a [`KindSet`]: each kind
    /// has its own.
    pub open spec fn code_spec(self) -> u8 {
        match self {
            ConditionKind::Invisible => 0,
            ConditionKind::Strengthen => 1,
            ConditionKind::Wound => 2,
            ConditionKind::Poison => 3,
            ConditionKind::Immobilize => 4,
            ConditionKind::Disarm => 5,
            ConditionKind::Muddle => 6,
        }
    }

    /// The number that stands for this kind inside a [`KindSet`].
    pub fn code(self) -> (code: u8)
        ensures
            code == self.code_spec(),
    {
        match self {
            ConditionKind::Invisible => 0,
            ConditionKind::Strengthen => 1,
            ConditionKind::Wound => 2,
            ConditionKind::Poison => 3,
            ConditionKind::Immobilize => 4,
            ConditionKind::Disarm => 5,
            ConditionKind::Muddle => 6,
        }
    }
}

/// The kinds whose codes are in `codes`.
pub open spec fn kinds_of(codes: Set<u8>) -> Set<ConditionKind> {
    Set::new(|kind: ConditionKind| codes.contains(kind.code_spec()))
}

/// A set of condition codes in a `bevy::utils::HashSet<u8>`, the hash set
/// that the game engine brings along. Its contents are known only through
/// [`kind_set_codes`] and what the four functions below state of them.
#[verifier::external_body]
pub struct KindSet {
    codes: bevy::utils::HashSet<u8>,
}

/// The codes that a [`KindSet`] holds: the contents of its hash set.
pub uninterp spec fn kind_set_codes(set: KindSet) -> Set<u8>;

impl KindSet {
    /// Calls `bevy::utils::HashSet::new` (that is `hashbrown::HashSet::new`),
    /// which creates an empty set: the contract says that it holds no code.
    #[verifier::external_body]
    fn new() -> (set: KindSet)
        ensures
            kind_set_codes(set) == Set::<u8>::empty(),
    {
        KindSet { codes: bevy::utils::HashSet::new() }
    }

    /// Calls `hashbrown::HashSet::insert`, which adds a value and returns
    /// `true` if the set did not have it: the contract says that afterwards
    /// the set holds `code` besides what it held, and that the result tells
    /// whether `code` was new to it.
    #[verifier::external_body]
    fn insert(&mut self, code: u8) -> (added: bool)
        ensures
            kind_set_codes(*final(self)) == kind_set_codes(*old(self)).insert(code),
            added == !kind_set_codes(*old(self)).contains(code),
    {
        self.codes.insert(code)
    }

    /// Calls `hashbrown::HashSet::remove`, which removes a value and returns
    /// whether it was present: the contract says that afterwards the set
    /// holds what it held but `code`, and that the result tells whether
    /// `code` was in it.
    #[verifier::external_body]
    fn remove(&mut self, code: u8) -> (removed: bool)
        ensures
            kind_set_codes(*final(self)) == kind_set_codes(*old(self)).remove(code),
            removed == kind_set_codes(*old(self)).contains(code),
    {
        self.codes.remove(&code)
    }

    /// Calls `hashbrown::HashSet::contains`, which returns `true` if the set
    /// contains the value: the contract says that the result tells whether
    /// the set holds `code`.
    #[verifier::external_body]
    fn contains(&self, code: u8) -> (found: bool)
        ensures
            found == kind_set_codes(*self).contains(code),
    {
        self.codes.contains(&code)
    }
}

/// The conditions of a figure as sets.
#[verifier::ext_equal]
pub struct ConditionsView {
    pub active: Set<ConditionKind>,
    pub immunities: Set<ConditionKind>,
}

impl ConditionsView {
    /// No active condition is one the figure is immune to.
    pub open spec fn wf(self) -> bool {
        self.active.disjoint(self.immunities)
    }

    /// Whether adding `condition` changes the active set.
    pub open spec fn add_changes(self, condition: ConditionKind) -> bool {
        !self.immunities.contains(condition) && !self.active.contains(condition)
    }

    /// The conditions after adding `condition`: unchanged where the figure is
    /// immune to it.
    pub open spec fn add(self, condition: ConditionKind) -> ConditionsView {
        if self.immunities.contains(condition) {
            self
        } else {
            ConditionsView { active: self.active.insert(condition), immunities: self.immunities }
        }
    }

    /// The range at which the figure can attack, given the `range` of its
    /// attack: none while it is disarmed.
    pub open spec fn effective_range(self, range: u32) -> u32 {
        if self.active.contains(ConditionKind::Disarm) {
            0
        } else {
            range
        }
    }

    /// Whether removing `condition` changes the active set.
    pub open spec fn remove_changes(self, condition: ConditionKind) -> bool {
        self.active.contains(condition)
    }

    /// The conditions after removing `condition`.
    pub open spec fn remove(self, condition: ConditionKind) -> ConditionsView {
        ConditionsView { active: self.active.remove(condition), immunities: self.immunities }
    }
}

/// Active conditions and immunities of one figure. The immunities are given
/// at creation and never change.
pub struct Conditions {
    conditions: KindSet,
    immunities: KindSet,
}

impl View for Conditions {
    type V = ConditionsView;

    closed spec fn view(&self) -> ConditionsView {
        ConditionsView {
            active: kinds_of(kind_set_codes(self.conditions)),
            immunities: kinds_of(kind_set_codes(self.immunities)),
        }
    }
}

impl Conditions {
    /// No active condition, and the given immunities.
    pub fn new(immunities: &[ConditionKind]) -> (conditions: Conditions)
        ensures
            conditions@.active == Set::<ConditionKind>::empty(),
            conditions@.immunities == immunities@.to_set(),
            conditions@.wf(),
    {
        let mut immune = KindSet::new();
        let mut i: usize = 0;
        while i < immunities.len()
            invariant
                i <= immunities.len(),
                kinds_of(kind_set_codes(immune)) == immunities@.take(i as int).to_set(),
            decreases immunities.len() - i,
        {
            let kind = immunities[i];
            immune.insert(kind.code());
            proof {
                let before = immunities@.take(i as int);
                assert(immunities@.take(i + 1) == before.push(kind));
                before.lemma_push_to_set_commute(kind);
                assert(kinds_of(kind_set_codes(immune)) =~= before.to_set().insert(kind));
            }
            i = i + 1;
        }
        proof {
            assert(immunities@.take(immunities.len() as int) == immunities@);
        }
        let conditions = Conditions { conditions: KindSet::new(), immunities: immune };
        proof {
            assert(conditions@.active =~= Set::<ConditionKind>::empty());
        }
        conditions
    }

    /// Makes `condition` active unless the figure is immune to it, and says
    /// whether the active set changed.
    pub fn add_condition(&mut self, condition: ConditionKind) -> (changed: bool)
        ensures
            final(self)@ == old(self)@.add(condition),
            changed == old(self)@.add_changes(condition),
            old(self)@.wf() ==> final(self)@.wf(),
    {
        if self.immunities.contains(condition.code()) {
            false
        } else {
            let changed = self.conditions.insert(condition.code());
            proof {
                assert(final(self)@.active =~= old(self)@.active.insert(condition));
            }
            changed
        }
    }

    /// Makes `condition` inactive, and says whether the active set changed.
    pub fn remove_condition(&mut self, condition: ConditionKind) -> (changed: bool)
        ensures
            final(self)@ == old(self)@.remove(condition),
            changed == old(self)@.remove_changes(condition),
            old(self)@.wf() ==> final(self)@.wf(),
    {
        let changed = self.conditions.remove(condition.code());
        proof {
            assert(final(self)@.active =~= old(self)@.active.remove(condition));
        }
        changed
    }

    /// Whether `condition` is active.
    pub fn has(&self, condition: ConditionKind) -> (active: bool)
        ensures
            active == self@.active.contains(condition),
    {
        self.conditions.contains(condition.code())
    }

    /// The range at which the figure can attack, given the `range` of its
    /// attack: none while it is disarmed.
    pub fn effective_range(&self, range: u32) -> (effective: u32)
        ensures
            effective == self@.effective_range(range),
    {
        if self.has(ConditionKind::Disarm) {
            0
        } else {
            range
        }
    }

    /// Whether the figure can never get `condition`.
    pub fn is_immune(&self, condition: ConditionKind) -> (immune: bool)
        ensures
            immune == self@.immunities.contains(condition),
    {
        self.immunities.contains(condition.code())
    }
}

/// Makes a condition active on a figure, and on undo takes it off again if,
/// and only if, this command put it there.
#[derive(Debug)]
pub struct AddConditionCommand {
    entity: FigureId,
    condition: ConditionKind,
    added: bool,
}

impl View for AddConditionCommand {
    type V = CommandView;

    closed spec fn view(&self) -> CommandView {
        CommandView::AddCondition {
            entity: self.entity,
            condition: self.condition,
            added: self.added,
        }
    }
}

impl Clone for AddConditionCommand {
    fn clone(&self) -> (copy: AddConditionCommand)
        ensures
            copy@ == self@,
    {
        AddConditionCommand { entity: self.entity, condition: self.condition, added: self.added }
    }
}

impl AddConditionCommand {
    /// `condition` for `entity`, not executed yet.
    pub fn new(entity: FigureId, condition: ConditionKind) -> (command: AddConditionCommand)
        ensures
            command@ == (CommandView::AddCondition { entity, condition, added: false }),
    {
        AddConditionCommand { entity, condition, added: false }
    }

    /// Whether executing the command made the condition active.
    pub fn added(&self) -> (added: bool)
        ensures
            added == self@->added,
    {
        self.added
    }
}

impl ScenarioCommandTrait for AddConditionCommand {
    fn can_execute(&self, world: &World) -> (possible: bool) {
        world.contains(self.entity)
    }

    fn can_undo(&self, world: &World) -> (possible: bool) {
        !self.added || world.contains(self.entity)
    }

    fn leaves_index_restorable(&self, world: &World) -> (restorable: bool) {
        true
    }

    fn execute(&mut self, world: &mut World) -> (result: ScenarionCommandExecuteResult) {
        proof {
            lemma_execute_keeps_wf(self@, world@);
        }
        let conditions = world.conditions_mut(self.entity);
        self.added = conditions.add_condition(self.condition);
        let follow_up: Vec<ScenarioCommand> = Vec::new();
        proof {
            assert(command_views(follow_up@) =~= Seq::<CommandView>::empty());
        }
        ScenarionCommandExecuteResult::Done(follow_up)
    }

    fn undo(self, world: &mut World) -> (undone: ScenarioCommand) {
        proof {
            lemma_undo_keeps_wf(self@, world@);
        }
        if self.added {
            let conditions = world.conditions_mut(self.entity);
            conditions.remove_condition(self.condition);
        }
        ScenarioCommand::AddConditionCommand(
            AddConditionCommand { entity: self.entity, condition: self.condition, added: false },
        )
    }
}

/// Makes a condition inactive on a figure, and on undo puts it back if, and
/// only if, this command took it off.
#[derive(Debug)]
pub struct RemoveConditionCommand {
    entity: FigureId,
    condition: ConditionKind,
    removed: bool,
}

impl View for RemoveConditionCommand {
    type V = CommandView;

    closed spec fn view(&self) -> CommandView {
        CommandView::RemoveCondition {
            entity: self.entity,
            condition: self.condition,
            removed: self.removed,
        }
    }
}

impl Clone for RemoveConditionCommand {
    fn clone(&self) -> (copy: RemoveConditionCommand)
        ensures
            copy@ == self@,
    {
        RemoveConditionCommand {
            entity: self.entity,
            condition: self.condition,
            removed: self.removed,
        }
    }
}

impl RemoveConditionCommand {
    /// `condition` off `entity`, not executed yet.
    pub fn new(entity: FigureId, condition: ConditionKind) -> (command: RemoveConditionCommand)
        ensures
            command@ == (CommandView::RemoveCondition { entity, condition, removed: false }),
    {
        RemoveConditionCommand { entity, condition, removed: false }
    }

    /// Whether executing the command made the condition inactive.
    pub fn removed(&self) -> (removed: bool)
        ensures
            removed == self@->removed,
    {
        self.removed
    }
}

impl ScenarioCommandTrait for RemoveConditionCommand {
    fn can_execute(&self, world: &World) -> (possible: bool) {
        world.contains(self.entity)
    }

    fn can_undo(&self, world: &World) -> (possible: bool) {
        !self.removed || world.contains(self.entity)
    }

    fn leaves_index_restorable(&self, world: &World) -> (restorable: bool) {
        true
    }

    fn execute(&mut self, world: &mut World) -> (result: ScenarionCommandExecuteResult) {
        proof {
            lemma_execute_keeps_wf(self@, world@);
        }
        let conditions = world.conditions_mut(self.entity);
        self.removed = conditions.remove_condition(self.condition);
        let follow_up: Vec<ScenarioCommand> = Vec::new();
        proof {
            assert(command_views(follow_up@) =~= Seq::<CommandView>::empty());
        }
        ScenarionCommandExecuteResult::Done(follow_up)
    }

    fn undo(self, world: &mut World) -> (undone: ScenarioCommand) {
        proof {
            lemma_undo_keeps_wf(self@, world@);
        }
        if self.removed {
            let conditions = world.conditions_mut(self.entity);
            conditions.add_condition(self.condition);
        }
        ScenarioCommand::RemoveConditionCommand(
            RemoveConditionCommand {
                entity: self.entity,
                condition: self.condition,
                removed: false,
            },
        )
    }
}

} // verus!
