use vstd::prelude::*;
use crate::logic::action::{FloatBits, Vec3Bits};

verus! {

/// Where a part of the puzzle stands, as the puzzle file gives it: a translation, and
/// optionally a point to look at and a rotation (as a scaled axis).
#[derive(Clone, Copy, Debug, PartialEq, Eq, Structural)]
pub struct Position {
    pub translation: Vec3Bits,
    pub looking_at: Option<Vec3Bits>,
    pub rotation: Option<Vec3Bits>,
}

/// A sphere that can be clicked, around a zone.
#[derive(Clone, Copy, Debug, PartialEq, Eq, Structural)]
pub struct Clickable {
    pub position: Option<Position>,
    pub radius: FloatBits,
}

/// A zone of the puzzle as the puzzle file describes it.
#[derive(Clone, Copy, Debug, PartialEq, Eq, Structural)]
pub struct ZoneDef {
    pub position: Option<Position>,
    pub clickable: Option<Clickable>,
}

/// Whether an item can be used.
#[derive(Clone, Copy, Debug, PartialEq, Eq, Structural)]
pub enum ItemState {
    Locked,
    Open,
    Active,
}

/// How an item is decorated.
#[derive(Clone, Copy, Debug, PartialEq, Eq, Structural)]
pub enum ItemDecoration {
    /// No decoration (written `None` in puzzle files).
    Plain,
    Rotating,
}

impl Default for ItemDecoration {
    /// No decoration.
    fn default() -> (d: ItemDecoration)
        ensures
            d == ItemDecoration::Plain,
    {
        ItemDecoration::Plain
    }
}

/// An item of the puzzle as the puzzle file describes it. `gltf_scene` names the file of
/// the item's model and the scene in it, joined by `#`.
#[derive(Clone, Debug)]
pub struct ItemDef {
    pub position: Option<Position>,
    pub gltf_scene: String,
    pub state: ItemState,
    pub active_in: Vec<String>,
    pub decoration: ItemDecoration,
}

/// A part of the puzzle: a zone or an item.
#[derive(Clone, Debug)]
pub enum PartDef {
    Zone(ZoneDef),
    Item(ItemDef),
}

/// Reads puzzle files.
#[derive(Clone, Copy, Debug, PartialEq, Eq, Structural, Default)]
pub struct PuzzleDefLoader;

impl PuzzleDefLoader {
    /// The file name extensions of puzzle files: `ron`.
    pub fn extensions(&self) -> (r: [&'static str; 1])
        ensures
            r@.len() == 1,
            r@[0]@ == "ron"@,
    {
        ["ron"]
    }
}

} // verus!
