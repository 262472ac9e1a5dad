use vstd::prelude::*;

verus! {

/// Marks an entity as an item of the puzzle.
#[derive(Clone, Copy, Debug, PartialEq, Eq, Structural)]
pub struct Item;

/// Marks an item that turns slowly about its vertical axis as a decoration.
#[derive(Clone, Copy, Debug, PartialEq, Eq, Structural)]
pub struct Rotating;

} // verus!
