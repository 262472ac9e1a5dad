use vstd::prelude::*;
use crate::logic::action::{FloatBits, TransformBits, Vec3Bits};

verus! {

/// A sphere that can be clicked, of the given radius.
#[derive(Clone, Copy, Debug, PartialEq, Eq, Structural)]
pub struct Clickable(pub FloatBits);

impl Clickable {
    /// The placement `t` scaled to the sphere: the radius on every axis, all else kept.
    pub fn scale(&self, t: TransformBits) -> (r: TransformBits)
        ensures
            r == (TransformBits { scale: Vec3Bits { x: self.0.0, y: self.0.0, z: self.0.0 }, ..t }),
    {
        TransformBits { scale: Vec3Bits { x: self.0.0, y: self.0.0, z: self.0.0 }, ..t }
    }
}

} // verus!
