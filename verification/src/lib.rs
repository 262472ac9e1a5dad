//! The rules of a point-and-click puzzle: what a click, a drag or the appearance of the
//! puzzle does to the state of the game, the small stack programs that carry the answer
//! to the world, how such a program runs against what the world holds, and how the parts
//! of the puzzle are built from their description.

pub mod clickable;
pub mod draggable;
pub mod item;
pub mod logic;
pub mod puzzle;
pub mod puzzle_def;
pub mod text;
pub mod utils;
pub mod zone;
pub mod zoomable;
