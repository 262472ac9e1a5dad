use vstd::prelude::*;

verus! {

/// Marks an entity as a zone of the puzzle, a place the camera can go.
#[derive(Clone, Copy, Debug, PartialEq, Eq, Structural)]
pub struct Zone;

} // verus!
