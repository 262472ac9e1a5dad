use vstd::prelude::*;
use crate::logic::action::EntityId;

verus! {

/// What happened in the world that the puzzle's rules may answer.
#[derive(Clone, Copy, Debug, PartialEq, Eq, Structural)]
pub enum LogicMessage {
    /// The puzzle entity has been built.
    CreatedPuzzle(EntityId),
    /// An entity was clicked, with the primary button (`true`) or another.
    Clicked(EntityId, bool),
    /// A drag of an entity has ended.
    Dragged(EntityId),
}

} // verus!
