//! The world: a dense table of figures keyed by their handles, and the grid
//! index that says where each of them stands.

use crate::figure::attack::{PendingAttack, PendingAttackView};
use crate::figure::condition::{ConditionKind, Conditions, ConditionsView};
use crate::figure::health::{Health, HealthView};
use crate::figure::modifier::{ModifierTray, ModifierTrayView};
use crate::figure::FigureId;
use crate::scenario::map::{
    same_hex, HexGrid, HexGridView, HexLayer, HexPosition, HexPositionView,
};
use hexx::Hex;
use vstd::prelude::*;

verus! {

/// One figure as plain values.
#[verifier::ext_equal]
pub struct FigureView {
    pub health: HealthView,
    pub conditions: ConditionsView,
    pub modifier_tray: ModifierTrayView,
    pub pending_attack: PendingAttackView,
    pub hex_position: HexPositionView,
}

impl FigureView {
    /// Each part is well formed.
    pub open spec fn wf(self) -> bool {
        &&& self.health.wf()
        &&& self.conditions.wf()
        &&& self.modifier_tray.wf()
    }

    /// The hit points that healing by `amount` gives back: none to a
    /// poisoned figure.
    pub open spec fn healing_received(self, amount: nat) -> nat {
        if self.conditions.active.contains(ConditionKind::Poison) {
            0
        } else {
            self.health.healing_received(amount)
        }
    }

    /// The figure after healing by `amount`: a poisoned figure gets no hit
    /// points back, and either way the healing ends wound and poison.
    pub open spec fn heal(self, amount: nat) -> FigureView {
        FigureView {
            health: if self.conditions.active.contains(ConditionKind::Poison) {
                self.health
            } else {
                self.health.heal(amount)
            },
            conditions: self.conditions.remove(ConditionKind::Wound).remove(ConditionKind::Poison),
            ..self
        }
    }
}

/// The records of one figure.
pub struct Figure {
    health: Health,
    conditions: Conditions,
    modifier_tray: ModifierTray,
    pending_attack: PendingAttack,
    hex_position: HexPosition,
}

impl View for Figure {
    type V = FigureView;

    closed spec fn view(&self) -> FigureView {
        FigureView {
            health: self.health@,
            conditions: self.conditions@,
            modifier_tray: self.modifier_tray@,
            pending_attack: self.pending_attack@,
            hex_position: self.hex_position@,
        }
    }
}

impl Figure {
    /// A figure made of the given parts, with no attack under way.
    pub fn new(
        hex_position: HexPosition,
        health: Health,
        conditions: Conditions,
        modifier_tray: ModifierTray,
    ) -> (figure: Figure)
        ensures
            figure@ == (FigureView {
                health: health@,
                conditions: conditions@,
                modifier_tray: modifier_tray@,
                pending_attack: PendingAttackView::idle(),
                hex_position: hex_position@,
            }),
            health@.wf() && conditions@.wf() && modifier_tray@.wf() ==> figure@.wf(),
    {
        Figure {
            health,
            conditions,
            modifier_tray,
            pending_attack: PendingAttack::new(),
            hex_position,
        }
    }

    /// Heals the figure by `heal` and returns the hit points that it got
    /// back: none where it was poisoned. Either way the healing ends wound
    /// and poison.
    pub fn heal(&mut self, heal: usize) -> (actual_heal: usize)
        requires
            old(self)@.wf(),
        ensures
            actual_heal == old(self)@.healing_received(heal as nat),
            final(self)@ == old(self)@.heal(heal as nat),
            final(self)@.wf(),
    {
        let actual_heal: usize = if self.conditions.has(ConditionKind::Poison) {
            0
        } else {
            self.health.heal(heal)
        };
        self.conditions.remove_condition(ConditionKind::Wound);
        self.conditions.remove_condition(ConditionKind::Poison);
        actual_heal
    }

    pub fn health(&self) -> (health: &Health)
        ensures
            health@ == self@.health,
    {
        &self.health
    }

    pub fn conditions(&self) -> (conditions: &Conditions)
        ensures
            conditions@ == self@.conditions,
    {
        &self.conditions
    }

    pub fn modifier_tray(&self) -> (modifier_tray: &ModifierTray)
        ensures
            modifier_tray@ == self@.modifier_tray,
    {
        &self.modifier_tray
    }

    pub fn pending_attack(&self) -> (pending_attack: &PendingAttack)
        ensures
            pending_attack@ == self@.pending_attack,
    {
        &self.pending_attack
    }

    pub fn hex_position(&self) -> (hex_position: &HexPosition)
        ensures
            hex_position@ == self@.hex_position,
    {
        &self.hex_position
    }
}

/// The world as plain values: the figures in the order of their handles, and
/// the grid index.
#[verifier::ext_equal]
pub struct WorldView {
    pub figures: Seq<FigureView>,
    pub grid: HexGridView,
}

impl WorldView {
    /// A world without figures.
    pub open spec fn empty() -> WorldView {
        WorldView { figures: Seq::empty(), grid: HexGridView::empty() }
    }

    /// Every figure is well formed, and there are no more of them than
    /// handles.
    pub open spec fn wf(self) -> bool {
        &&& self.figures.len() <= u32::MAX
        &&& forall|i: int| 0 <= i < self.figures.len() ==> (#[trigger] self.figures[i]).wf()
    }

    /// Whether `id` is the handle of a figure of this world.
    pub open spec fn contains(self, id: FigureId) -> bool {
        id.index_spec() < self.figures.len()
    }

    /// The figure with handle `id`.
    pub open spec fn figure(self, id: FigureId) -> FigureView {
        self.figures[id.index_spec()]
    }

    /// The world with the figure `id` replaced.
    pub open spec fn with_figure(self, id: FigureId, figure: FigureView) -> WorldView {
        WorldView { figures: self.figures.update(id.index_spec(), figure), ..self }
    }

    /// The world with the health of `id` replaced.
    pub open spec fn with_health(self, id: FigureId, health: HealthView) -> WorldView {
        self.with_figure(id, FigureView { health, ..self.figure(id) })
    }

    /// The world with the conditions of `id` replaced.
    pub open spec fn with_conditions(self, id: FigureId, conditions: ConditionsView) -> WorldView {
        self.with_figure(id, FigureView { conditions, ..self.figure(id) })
    }

    /// The world with the modifier tray of `id` replaced.
    pub open spec fn with_modifier_tray(
        self,
        id: FigureId,
        modifier_tray: ModifierTrayView,
    ) -> WorldView {
        self.with_figure(id, FigureView { modifier_tray, ..self.figure(id) })
    }

    /// The world with the pending attack of `id` replaced.
    pub open spec fn with_pending_attack(
        self,
        id: FigureId,
        pending_attack: PendingAttackView,
    ) -> WorldView {
        self.with_figure(id, FigureView { pending_attack, ..self.figure(id) })
    }

    /// The world after `id` moved to `hex` on its layer: its position says
    /// so, and in the index its old hex is vacated and the new one taken.
    pub open spec fn relocate(self, id: FigureId, hex: Hex) -> WorldView {
        let position = self.figure(id).hex_position;
        WorldView {
            figures: self.figures.update(
                id.index_spec(),
                FigureView {
                    hex_position: HexPositionView { hex, layer: position.layer },
                    ..self.figure(id)
                },
            ),
            grid: self.grid.relocate(position.hex, hex, position.layer, id),
        }
    }

    /// Whether the index and the positions agree: every figure is entered at
    /// its hex on its layer, and every entry is that of a figure that stands
    /// there.
    pub open spec fn index_agrees(self) -> bool {
        &&& forall|id: FigureId| #[trigger]
            self.contains(id) ==> self.grid.lookup(
                self.figure(id).hex_position.hex,
                self.figure(id).hex_position.layer,
            ) == Some(id)
        &&& forall|hex: Hex, layer: HexLayer| #[trigger] self.entry_agrees(hex, layer)
    }

    /// Whether the entry of `hex` on `layer`, if there is one, is that of a
    /// figure that stands there.
    pub open spec fn entry_agrees(self, hex: Hex, layer: HexLayer) -> bool {
        match self.grid.lookup(hex, layer) {
            Some(id) => {
                &&& self.contains(id)
                &&& self.figure(id).hex_position == (HexPositionView { hex, layer })
            },
            None => true,
        }
    }

    /// Whether `hex` is free for `id` to move to: nobody stands there on its
    /// layer, or `id` itself.
    pub open spec fn is_free_for(self, id: FigureId, hex: Hex) -> bool {
        let position = self.figure(id).hex_position;
        hex == position.hex || self.grid.lookup(hex, position.layer) is None
    }

    /// The world after `figure` joined it under the next free handle and took
    /// its hex in the index.
    pub open spec fn spawn(self, figure: FigureView) -> WorldView {
        WorldView {
            figures: self.figures.push(figure),
            grid: self.grid.insert(
                figure.hex_position.hex,
                figure.hex_position.layer,
                FigureId(self.figures.len() as u32),
            ),
        }
    }
}

/// The shared state that commands change: the figures and the grid index.
pub struct World {
    figures: Vec<Figure>,
    grid: HexGrid,
}

impl View for World {
    type V = WorldView;

    closed spec fn view(&self) -> WorldView {
        WorldView {
            figures: Seq::new(self.figures.len() as nat, |i: int| self.figures[i]@),
            grid: self.grid@,
        }
    }
}

impl World {
    /// A world without figures.
    pub fn new() -> (world: World)
        ensures
            world@ == WorldView::empty(),
            world@.wf(),
    {
        let world = World { figures: Vec::new(), grid: HexGrid::new() };
        proof {
            assert(world@.figures =~= Seq::<FigureView>::empty());
        }
        world
    }

    /// How many figures there are.
    pub fn len(&self) -> (len: usize)
        ensures
            len == self@.figures.len(),
    {
        self.figures.len()
    }

    /// Whether `id` is the handle of a figure of this world.
    pub fn contains(&self, id: FigureId) -> (found: bool)
        ensures
            found == self@.contains(id),
    {
        id.index() < self.figures.len()
    }

    /// Adds `figure` under the next free handle, enters it in the grid index
    /// at its position, and returns the handle.
    pub fn spawn(&mut self, figure: Figure) -> (id: FigureId)
        requires
            old(self)@.figures.len() < u32::MAX,
        ensures
            id == FigureId(old(self)@.figures.len() as u32),
            final(self)@ == old(self)@.spawn(figure@),
            old(self)@.wf() && figure@.wf() ==> final(self)@.wf(),
    {
        let id = FigureId::new(self.figures.len() as u32);
        let hex = figure.hex_position.hex();
        let layer = figure.hex_position.layer();
        self.grid.insert(hex, &layer, id);
        self.figures.push(figure);
        proof {
            assert(final(self)@.figures =~= old(self)@.figures.push(figure@));
        }
        id
    }

    /// The records of `id`.
    pub fn figure(&self, id: FigureId) -> (figure: &Figure)
        requires
            self@.contains(id),
        ensures
            figure@ == self@.figure(id),
    {
        &self.figures[id.index()]
    }

    /// The grid index.
    pub fn grid(&self) -> (grid: &HexGrid)
        ensures
            grid@ == self@.grid,
    {
        &self.grid
    }

    pub fn health(&self, id: FigureId) -> (health: &Health)
        requires
            self@.contains(id),
        ensures
            health@ == self@.figure(id).health,
    {
        &self.figures[id.index()].health
    }

    pub fn conditions(&self, id: FigureId) -> (conditions: &Conditions)
        requires
            self@.contains(id),
        ensures
            conditions@ == self@.figure(id).conditions,
    {
        &self.figures[id.index()].conditions
    }

    pub fn modifier_tray(&self, id: FigureId) -> (modifier_tray: &ModifierTray)
        requires
            self@.contains(id),
        ensures
            modifier_tray@ == self@.figure(id).modifier_tray,
    {
        &self.figures[id.index()].modifier_tray
    }

    pub fn pending_attack(&self, id: FigureId) -> (pending_attack: &PendingAttack)
        requires
            self@.contains(id),
        ensures
            pending_attack@ == self@.figure(id).pending_attack,
    {
        &self.figures[id.index()].pending_attack
    }

    pub fn hex_position(&self, id: FigureId) -> (hex_position: &HexPosition)
        requires
            self@.contains(id),
        ensures
            hex_position@ == self@.figure(id).hex_position,
    {
        &self.figures[id.index()].hex_position
    }

    /// The records of `id`, to change them.
    pub fn figure_mut(&mut self, id: FigureId) -> (figure: &mut Figure)
        requires
            old(self)@.contains(id),
        ensures
            figure@ == old(self)@.figure(id),
            final(self)@ == old(self)@.with_figure(id, final(figure)@),
    {
        &mut self.figures[id.index()]
    }

    /// The health of `id`, to change it.
    pub fn health_mut(&mut self, id: FigureId) -> (health: &mut Health)
        requires
            old(self)@.contains(id),
        ensures
            health@ == old(self)@.figure(id).health,
            final(self)@ == old(self)@.with_health(id, final(health)@),
    {
        &mut self.figures[id.index()].health
    }

    /// The conditions of `id`, to change them.
    pub fn conditions_mut(&mut self, id: FigureId) -> (conditions: &mut Conditions)
        requires
            old(self)@.contains(id),
        ensures
            conditions@ == old(self)@.figure(id).conditions,
            final(self)@ == old(self)@.with_conditions(id, final(conditions)@),
    {
        &mut self.figures[id.index()].conditions
    }

    /// The modifier tray of `id`, to change it.
    pub fn modifier_tray_mut(&mut self, id: FigureId) -> (modifier_tray: &mut ModifierTray)
        requires
            old(self)@.contains(id),
        ensures
            modifier_tray@ == old(self)@.figure(id).modifier_tray,
            final(self)@ == old(self)@.with_modifier_tray(id, final(modifier_tray)@),
    {
        &mut self.figures[id.index()].modifier_tray
    }

    /// The pending attack of `id`, to change it.
    pub fn pending_attack_mut(&mut self, id: FigureId) -> (pending_attack: &mut PendingAttack)
        requires
            old(self)@.contains(id),
        ensures
            pending_attack@ == old(self)@.figure(id).pending_attack,
            final(self)@ == old(self)@.with_pending_attack(id, final(pending_attack)@),
    {
        &mut self.figures[id.index()].pending_attack
    }

    /// Whether `hex` is free for `id` to move to: nobody stands there on its
    /// layer, or `id` itself.
    pub fn is_free_for(&self, id: FigureId, hex: Hex) -> (free: bool)
        requires
            self@.contains(id),
        ensures
            free == self@.is_free_for(id, hex),
    {
        let position = &self.figures[id.index()].hex_position;
        same_hex(hex, position.hex()) || self.grid.lookup(&hex, &position.layer()).is_none()
    }

    /// Whether `id` is entered in the grid index at its position.
    pub fn is_entered(&self, id: FigureId) -> (entered: bool)
        requires
            self@.contains(id),
        ensures
            entered == (self@.grid.lookup(
                self@.figure(id).hex_position.hex,
                self@.figure(id).hex_position.layer,
            ) == Some(id)),
    {
        let position = &self.figures[id.index()].hex_position;
        match self.grid.lookup(&position.hex(), &position.layer()) {
            Some(found) => found == id,
            None => false,
        }
    }

    /// Moves `id` to `hex` on its layer, in its position and in the grid
    /// index, whoever stands there.
    pub fn relocate(&mut self, id: FigureId, hex: Hex)
        requires
            old(self)@.contains(id),
        ensures
            final(self)@ == old(self)@.relocate(id, hex),
            old(self)@.wf() ==> final(self)@.wf(),
    {
        self.figures[id.index()].hex_position.update(hex, id, &mut self.grid);
    }
}

/// A figure that joins the world on a free hex leaves index and positions
/// in agreement.
pub proof fn lemma_spawn_keeps_index(world: WorldView, figure: FigureView)
    requires
        world.index_agrees(),
        world.figures.len() < u32::MAX,
        world.grid.lookup(figure.hex_position.hex, figure.hex_position.layer) is None,
    ensures
        world.spawn(figure).index_agrees(),
{
    let after = world.spawn(figure);
    let new_id = FigureId(world.figures.len() as u32);
    assert forall|id: FigureId| #[trigger] after.contains(id) implies after.grid.lookup(
        after.figure(id).hex_position.hex,
        after.figure(id).hex_position.layer,
    ) == Some(id) by {
        if id != new_id {
            assert(world.contains(id));
        }
    }
    assert forall|hex: Hex, layer: HexLayer| #[trigger] after.entry_agrees(hex, layer) by {
        assert(world.entry_agrees(hex, layer));
    }
}

/// A figure that moves to a hex that is free for it leaves index and
/// positions in agreement.
pub proof fn lemma_relocate_keeps_index(world: WorldView, id: FigureId, hex: Hex)
    requires
        world.index_agrees(),
        world.contains(id),
        world.is_free_for(id, hex),
    ensures
        world.relocate(id, hex).index_agrees(),
{
    let after = world.relocate(id, hex);
    let position = world.figure(id).hex_position;
    assert(world.grid.lookup(position.hex, position.layer) == Some(id));
    assert forall|other: FigureId| #[trigger] after.contains(other) implies after.grid.lookup(
        after.figure(other).hex_position.hex,
        after.figure(other).hex_position.layer,
    ) == Some(other) by {
        assert(world.contains(other));
        if other != id {
            let there = world.figure(other).hex_position;
            assert(world.grid.lookup(there.hex, there.layer) == Some(other));
        }
    }
    assert forall|at: Hex, layer: HexLayer| #[trigger] after.entry_agrees(at, layer) by {
        assert(world.entry_agrees(at, layer));
        assert(world.entry_agrees(position.hex, position.layer));
    }
}

} // verus!
