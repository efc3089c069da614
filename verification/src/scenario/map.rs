//! The grid index: which figure stands on which hex, layer by layer.

use crate::figure::FigureId;
use hexx::Hex;
use vstd::prelude::*;

verus! {

/// `hexx::Hex`, a hex coordinate. The library only stores it, hands it on
/// and looks figures up by it, and knows nothing of what is inside.
#[verifier::external_type_specification]
#[verifier::external_body]
pub struct ExHex(hexx::Hex);

/// Calls `Hex::eq`, which `hexx` derives for its struct of two coordinates:
/// the contract says that the result tells whether `a` and `b` are the same
/// coordinate.
#[verifier::external_body]
pub(crate) fn same_hex(a: Hex, b: Hex) -> (same: bool)
    ensures
        same == (a == b),
{
    a == b
}

/// What stands on a hex: the ground tile, something laid over it, or a figure.
#[derive(Debug, Clone, Copy, PartialEq, Eq, Structural)]
pub enum HexLayer {
    Ground,
    Overlay,
    Figure,
}

/// One layer of the grid index in a `bevy::utils::HashMap<Hex, FigureId>`,
/// the hash map that the game engine brings along. Its contents are known
/// only through [`layer_map_entries`] and what the four functions below
/// state of them.
#[verifier::external_body]
pub struct LayerMap {
    entries: bevy::utils::HashMap<Hex, FigureId>,
}

/// The occupant of each occupied hex of a [`LayerMap`]: the contents of its
/// hash map.
pub uninterp spec fn layer_map_entries(map: LayerMap) -> Map<Hex, FigureId>;

/// A layer on which nothing stands.
pub open spec fn vacant() -> Map<Hex, FigureId> {
    Map::empty()
}

/// The occupant of `hex` in `entries`, if there is one.
pub open spec fn occupant(entries: Map<Hex, FigureId>, hex: Hex) -> Option<FigureId> {
    if entries.contains_key(hex) {
        Some(entries[hex])
    } else {
        None
    }
}

impl LayerMap {
    /// Calls `bevy::utils::HashMap::new` (that is `hashbrown::HashMap::new`),
    /// which creates an empty map: the contract says that no hex is
    /// occupied.
    #[verifier::external_body]
    fn new() -> (map: LayerMap)
        ensures
            layer_map_entries(map) == vacant(),
    {
        LayerMap { entries: bevy::utils::HashMap::new() }
    }

    /// Calls `hashbrown::HashMap::insert`, which inserts a pair and returns
    /// the old value of the key if it had one: the contract says that
    /// afterwards `hex` maps to `figure` and every other hex to what it
    /// mapped to, and that the result is the former occupant of `hex`.
    #[verifier::external_body]
    fn insert(&mut self, hex: Hex, figure: FigureId) -> (former: Option<FigureId>)
        ensures
            layer_map_entries(*final(self)) == layer_map_entries(*old(self)).insert(hex, figure),
            former == occupant(layer_map_entries(*old(self)), hex),
    {
        self.entries.insert(hex, figure)
    }

    /// Calls `hashbrown::HashMap::remove`, which removes a key and returns
    /// its value if it had one: the contract says that afterwards `hex` is
    /// unoccupied and every other hex maps to what it mapped to, and that the
    /// result is the former occupant of `hex`.
    #[verifier::external_body]
    fn remove(&mut self, hex: &Hex) -> (former: Option<FigureId>)
        ensures
            layer_map_entries(*final(self)) == layer_map_entries(*old(self)).remove(*hex),
            former == occupant(layer_map_entries(*old(self)), *hex),
    {
        self.entries.remove(hex)
    }

    /// Calls `hashbrown::HashMap::get`, which returns the value of a key if
    /// it has one: the contract says that the result is the occupant of
    /// `hex`, if there is one.
    #[verifier::external_body]
    fn get(&self, hex: &Hex) -> (found: Option<FigureId>)
        ensures
            found == occupant(layer_map_entries(*self), *hex),
    {
        self.entries.get(hex).copied()
    }
}

/// The grid index as three maps from hex to occupant.
#[verifier::ext_equal]
pub struct HexGridView {
    pub ground: Map<Hex, FigureId>,
    pub overlay: Map<Hex, FigureId>,
    pub figure: Map<Hex, FigureId>,
}

impl HexGridView {
    /// A grid on which nothing stands.
    pub open spec fn empty() -> HexGridView {
        HexGridView { ground: vacant(), overlay: vacant(), figure: vacant() }
    }

    /// The map of one layer.
    pub open spec fn layer(self, layer: HexLayer) -> Map<Hex, FigureId> {
        match layer {
            HexLayer::Ground => self.ground,
            HexLayer::Overlay => self.overlay,
            HexLayer::Figure => self.figure,
        }
    }

    /// The grid with one layer replaced.
    pub open spec fn with_layer(self, layer: HexLayer, entries: Map<Hex, FigureId>) -> HexGridView {
        match layer {
            HexLayer::Ground => HexGridView { ground: entries, ..self },
            HexLayer::Overlay => HexGridView { overlay: entries, ..self },
            HexLayer::Figure => HexGridView { figure: entries, ..self },
        }
    }

    /// Who stands on `hex` in `layer`.
    pub open spec fn lookup(self, hex: Hex, layer: HexLayer) -> Option<FigureId> {
        occupant(self.layer(layer), hex)
    }

    /// The grid after `figure` took `hex` in `layer`.
    pub open spec fn insert(self, hex: Hex, layer: HexLayer, figure: FigureId) -> HexGridView {
        self.with_layer(layer, self.layer(layer).insert(hex, figure))
    }

    /// The grid after `hex` was vacated in `layer`.
    pub open spec fn remove(self, hex: Hex, layer: HexLayer) -> HexGridView {
        self.with_layer(layer, self.layer(layer).remove(hex))
    }

    /// The grid after the occupant of `from` left for `to` as `figure`.
    pub open spec fn relocate(
        self,
        from: Hex,
        to: Hex,
        layer: HexLayer,
        figure: FigureId,
    ) -> HexGridView {
        self.remove(from, layer).insert(to, layer, figure)
    }
}

/// The grid index: per layer, a hex has at most one occupant.
pub struct HexGrid {
    ground_entities: LayerMap,
    overlay_entities: LayerMap,
    figure_entities: LayerMap,
}

impl View for HexGrid {
    type V = HexGridView;

    closed spec fn view(&self) -> HexGridView {
        HexGridView {
            ground: layer_map_entries(self.ground_entities),
            overlay: layer_map_entries(self.overlay_entities),
            figure: layer_map_entries(self.figure_entities),
        }
    }
}

impl HexGrid {
    /// A grid on which nothing stands.
    pub fn new() -> (grid: HexGrid)
        ensures
            grid@ == HexGridView::empty(),
    {
        HexGrid {
            ground_entities: LayerMap::new(),
            overlay_entities: LayerMap::new(),
            figure_entities: LayerMap::new(),
        }
    }

    /// Vacates `hex` in `layer`.
    pub fn remove(&mut self, hex: &Hex, layer: &HexLayer)
        ensures
            final(self)@ == old(self)@.remove(*hex, *layer),
    {
        let map = self.get_layer_map_mut(layer);
        map.remove(hex);
    }

    /// Puts `figure` on `hex` in `layer`, in place of whoever stood there.
    pub fn insert(&mut self, hex: Hex, layer: &HexLayer, figure: FigureId)
        ensures
            final(self)@ == old(self)@.insert(hex, *layer, figure),
    {
        let map = self.get_layer_map_mut(layer);
        map.insert(hex, figure);
    }

    /// Who stands on `hex` in `layer`.
    pub fn lookup(&self, hex: &Hex, layer: &HexLayer) -> (found: Option<FigureId>)
        ensures
            found == self@.lookup(*hex, *layer),
    {
        self.get_layer_map(layer).get(hex)
    }

    fn get_layer_map(&self, layer: &HexLayer) -> (map: &LayerMap)
        ensures
            layer_map_entries(*map) == self@.layer(*layer),
    {
        match layer {
            HexLayer::Ground => &self.ground_entities,
            HexLayer::Overlay => &self.overlay_entities,
            HexLayer::Figure => &self.figure_entities,
        }
    }

    fn get_layer_map_mut(&mut self, layer: &HexLayer) -> (map: &mut LayerMap)
        ensures
            layer_map_entries(*map) == old(self)@.layer(*layer),
            final(self)@ == old(self)@.with_layer(*layer, layer_map_entries(*final(map))),
    {
        match layer {
            HexLayer::Ground => &mut self.ground_entities,
            HexLayer::Overlay => &mut self.overlay_entities,
            HexLayer::Figure => &mut self.figure_entities,
        }
    }
}

/// Where a figure stands, as a hex and a layer.
pub struct HexPositionView {
    pub hex: Hex,
    pub layer: HexLayer,
}

/// Where a figure stands. The hex changes only together with the grid index.
#[derive(Debug)]
pub struct HexPosition {
    hex: Hex,
    layer: HexLayer,
}

impl View for HexPosition {
    type V = HexPositionView;

    closed spec fn view(&self) -> HexPositionView {
        HexPositionView { hex: self.hex, layer: self.layer }
    }
}

impl HexPosition {
    pub fn new(hex: Hex, layer: HexLayer) -> (position: HexPosition)
        ensures
            position@ == (HexPositionView { hex, layer }),
    {
        HexPosition { hex, layer }
    }

    pub fn hex(&self) -> (hex: Hex)
        ensures
            hex == self@.hex,
    {
        self.hex
    }

    pub fn layer(&self) -> (layer: HexLayer)
        ensures
            layer == self@.layer,
    {
        self.layer
    }

    /// Moves `figure` from this position to `hex` on the same layer: the old
    /// hex is vacated in the index, the new one taken, and the position
    /// follows.
    pub fn update(&mut self, hex: Hex, figure: FigureId, hex_grid: &mut HexGrid)
        ensures
            final(self)@ == (HexPositionView { hex, layer: old(self)@.layer }),
            final(hex_grid)@ == old(hex_grid)@.relocate(
                old(self)@.hex,
                hex,
                old(self)@.layer,
                figure,
            ),
    {
        hex_grid.remove(&self.hex, &self.layer);
        hex_grid.insert(hex, &self.layer, figure);
        self.hex = hex;
    }
}

} // verus!
