use vstd::prelude::*;
use crate::logic::action::{EntityId, FloatBits, TransformBits, Vec3Bits};

verus! {

/// Seconds the camera takes to zoom in (2.0).
pub const SECS_ZOOM: u32 = 0x4000_0000;

/// Seconds the camera takes to zoom back out (1.0).
pub const SECS_UNZOOM: u32 = 0x3F80_0000;

/// A move of the camera to the placement `target` over `duration` seconds.
#[derive(Clone, Copy, Debug, PartialEq, Eq, Structural)]
pub struct CameraMove {
    pub target: TransformBits,
    pub duration: FloatBits,
}

/// Something the camera can zoom on, shown as a sphere of the given radius.
#[derive(Clone, Copy, Debug, PartialEq, Eq, Structural)]
pub struct Zoomable(pub FloatBits);

impl Zoomable {
    /// The placement `t` scaled to the sphere: the radius on every axis, all else kept.
    pub fn scale(&self, t: TransformBits) -> (r: TransformBits)
        ensures
            r == (TransformBits { scale: Vec3Bits { x: self.0.0, y: self.0.0, z: self.0.0 }, ..t }),
    {
        TransformBits { scale: Vec3Bits { x: self.0.0, y: self.0.0, z: self.0.0 }, ..t }
    }
}

/// Where the camera stands when zoomed on an entity.
#[derive(Clone, Copy, Debug, PartialEq, Eq, Structural)]
pub struct ZoomableCamera(pub TransformBits);

/// The entity to zoom back to from an entity.
#[derive(Clone, Copy, Debug, PartialEq, Eq, Structural)]
pub struct UnzoomTo(pub EntityId);

/// The zoomable entity the camera is zoomed on, if any.
#[derive(Clone, Copy, Debug, PartialEq, Eq, Structural)]
pub struct CurrentZoomable(pub Option<EntityId>);

impl Default for CurrentZoomable {
    /// Zoomed on nothing.
    fn default() -> (c: CurrentZoomable)
        ensures
            c.0 is None,
    {
        CurrentZoomable(None)
    }
}

/// The value paired with the first entry for `key` in `table`.
pub open spec fn spec_lookup<V>(table: Seq<(EntityId, V)>, key: EntityId) -> Option<V>
    decreases table.len(),
{
    if table.len() == 0 {
        None
    } else if table[0].0 == key {
        Some(table[0].1)
    } else {
        spec_lookup(table.drop_first(), key)
    }
}

/// The value paired with the first entry for `key` in `table`.
fn lookup<V: Copy>(table: &Vec<(EntityId, V)>, key: EntityId) -> (r: Option<V>)
    ensures
        r == spec_lookup(table@, key),
{
    let mut i: usize = 0;
    assert(table@.skip(0) =~= table@);
    while i < table.len()
        invariant
            i <= table@.len(),
            spec_lookup(table@, key) == spec_lookup(table@.skip(i as int), key),
        decreases table.len() - i,
    {
        assert(table@.skip(i as int).drop_first() =~= table@.skip(i + 1));
        if table[i].0 == key {
            return Some(table[i].1);
        }
        i = i + 1;
    }
    None
}

/// What a click on `target` does to the zoom: with the primary button on an entity that
/// has a camera placement (`target_camera`), the camera zooms there and `target` becomes
/// the current zoomable; anything else changes nothing.
pub open spec fn spec_on_zoom(current: CurrentZoomable, primary: bool, target: EntityId, target_camera: Option<TransformBits>) -> (CurrentZoomable, Option<CameraMove>) {
    if !primary {
        (current, None)
    } else {
        match target_camera {
            None => (current, None),
            Some(t) => (CurrentZoomable(Some(target)), Some(CameraMove { target: t, duration: FloatBits(SECS_ZOOM) })),
        }
    }
}

/// What a click with another button than the primary one does to the zoom: where the
/// current zoomable says where to zoom back to (`unzoom_to`) and that entity has a camera
/// placement (`cameras`), the camera goes there and it becomes the current zoomable;
/// anything else changes nothing.
pub open spec fn spec_on_unzoom(
    current: CurrentZoomable,
    secondary: bool,
    unzoom_to: Seq<(EntityId, EntityId)>,
    cameras: Seq<(EntityId, TransformBits)>,
) -> (CurrentZoomable, Option<CameraMove>) {
    if !secondary {
        (current, None)
    } else {
        match current.0 {
            None => (current, None),
            Some(id) => match spec_lookup(unzoom_to, id) {
                None => (current, None),
                Some(back) => match spec_lookup(cameras, back) {
                    None => (current, None),
                    Some(t) => (
                        CurrentZoomable(Some(back)),
                        Some(CameraMove { target: t, duration: FloatBits(SECS_UNZOOM) }),
                    ),
                },
            },
        }
    }
}

impl CurrentZoomable {
    /// A click on `target`, with the primary button or not; `target_camera` is the camera
    /// placement of `target` if it is zoomable. Gives the camera move, if any.
    pub fn on_zoom(&mut self, primary: bool, target: EntityId, target_camera: Option<TransformBits>) -> (r: Option<CameraMove>)
        ensures
            (*final(self), r) == spec_on_zoom(*old(self), primary, target, target_camera),
    {
        if !primary {
            return None;
        }
        match target_camera {
            None => None,
            Some(t) => {
                self.0 = Some(target);
                Some(CameraMove { target: t, duration: FloatBits(SECS_ZOOM) })
            },
        }
    }

    /// A click, with the secondary button or not; `unzoom_to` pairs entities with the
    /// entity to zoom back to from them, `cameras` pairs zoomable entities with their
    /// camera placements. Gives the camera move, if any.
    pub fn on_unzoom(
        &mut self,
        secondary: bool,
        unzoom_to: &Vec<(EntityId, EntityId)>,
        cameras: &Vec<(EntityId, TransformBits)>,
    ) -> (r: Option<CameraMove>)
        ensures
            (*final(self), r) == spec_on_unzoom(*old(self), secondary, unzoom_to@, cameras@),
    {
        if !secondary {
            return None;
        }
        let current_id = match self.0 {
            None => return None,
            Some(id) => id,
        };
        let back = match lookup(unzoom_to, current_id) {
            None => return None,
            Some(b) => b,
        };
        match lookup(cameras, back) {
            None => None,
            Some(t) => {
                self.0 = Some(back);
                Some(CameraMove { target: t, duration: FloatBits(SECS_UNZOOM) })
            },
        }
    }
}


/// Zooming on an entity and then zooming back out goes to the entity that one zooms back
/// to from it, where that entity has a camera placement.
pub proof fn lemma_zoom_then_unzoom(
    current: CurrentZoomable,
    target: EntityId,
    target_camera: TransformBits,
    unzoom_to: Seq<(EntityId, EntityId)>,
    cameras: Seq<(EntityId, TransformBits)>,
    back: EntityId,
    back_camera: TransformBits,
)
    requires
        spec_lookup(unzoom_to, target) == Some(back),
        spec_lookup(cameras, back) == Some(back_camera),
    ensures
        ({
            let (zoomed, zoom_move) = spec_on_zoom(current, true, target, Some(target_camera));
            let (unzoomed, unzoom_move) = spec_on_unzoom(zoomed, true, unzoom_to, cameras);
            &&& zoomed == CurrentZoomable(Some(target))
            &&& zoom_move == Some(CameraMove { target: target_camera, duration: FloatBits(SECS_ZOOM) })
            &&& unzoomed == CurrentZoomable(Some(back))
            &&& unzoom_move == Some(CameraMove { target: back_camera, duration: FloatBits(SECS_UNZOOM) })
        }),
{
}

} // verus!
