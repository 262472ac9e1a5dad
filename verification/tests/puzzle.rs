use puzzle::clickable::Clickable;
use puzzle::draggable::{draggable_kind, DraggableKind};
use puzzle::item::Rotating;
use puzzle::logic::action::{FloatBits, TransformBits, Vec3Bits};
use puzzle::puzzle::{clickable_name, construct_item, construct_zone, pick_transform, TransformSource};
use puzzle::puzzle_def::{Clickable as ClickableDef, ItemDecoration, ItemDef, ItemState, Position, PuzzleDefLoader, ZoneDef};
use puzzle::utils::debug::{DebugOptions, DebugState};
use puzzle::zoomable::{CameraMove, CurrentZoomable, SECS_UNZOOM, SECS_ZOOM};
use puzzle::logic::action::EntityId;

fn at(x: f32) -> TransformBits {
    TransformBits::from_translation(Vec3Bits { x: x.to_bits(), y: 0, z: 0 })
}

fn position(x: f32) -> Position {
    Position { translation: Vec3Bits { x: x.to_bits(), y: 0, z: 0 }, looking_at: None, rotation: None }
}

fn scene() -> Vec<(String, TransformBits)> {
    vec![
        ("z-chest".to_string(), at(1.0)),
        ("z-chest/clickable".to_string(), at(1.5)),
        ("i-key".to_string(), at(2.0)),
        ("z-chest".to_string(), at(3.0)),
    ]
}

#[test]
fn pick_transform_prefers_scene_then_file_then_default() {
    let scene = scene();
    assert_eq!(pick_transform(&scene, "z-chest", &Some(position(9.0))), TransformSource::Scene(at(3.0)));
    assert_eq!(pick_transform(&scene, "i-key", &None), TransformSource::Scene(at(2.0)));
    assert_eq!(pick_transform(&scene, "z-painting", &Some(position(9.0))), TransformSource::Position(position(9.0)));
    assert_eq!(pick_transform(&scene, "z-painting", &None), TransformSource::Default);
    assert_eq!(pick_transform(&vec![], "z-chest", &None), TransformSource::Default);
}

#[test]
fn clickable_names() {
    assert_eq!(clickable_name("z-chest"), "z-chest/clickable");
    assert_eq!(clickable_name(""), "/clickable");
}

#[test]
fn zone_with_clickable() {
    let def = ZoneDef {
        position: Some(position(5.0)),
        clickable: Some(ClickableDef { position: None, radius: FloatBits(0.3f32.to_bits()) }),
    };
    let plan = construct_zone("z-chest", &def, &scene());
    assert_eq!(plan.transform, TransformSource::Scene(at(3.0)));
    let c = plan.clickable.unwrap();
    assert_eq!(c.name, "z-chest/clickable");
    assert_eq!(c.radius, FloatBits(0.3f32.to_bits()));
    assert_eq!(c.transform, TransformSource::Scene(at(1.5)));
}

#[test]
fn zone_without_clickable() {
    let def = ZoneDef { position: None, clickable: None };
    let plan = construct_zone("z-main", &def, &scene());
    assert_eq!(plan.transform, TransformSource::Default);
    assert!(plan.clickable.is_none());
}

fn item(gltf_scene: &str, decoration: ItemDecoration) -> ItemDef {
    ItemDef {
        position: Some(position(4.0)),
        gltf_scene: gltf_scene.to_string(),
        state: ItemState::Active,
        active_in: vec!["z-hanging-key".to_string()],
        decoration,
    }
}

#[test]
fn item_plan_splits_model_reference() {
    let plan = construct_item("i-key", &item("items.glb#Key", ItemDecoration::Rotating), &scene());
    assert_eq!(plan.transform, TransformSource::Scene(at(2.0)));
    assert_eq!(plan.gltf_path, "items.glb");
    assert_eq!(plan.scene_name, "Key");
    assert_eq!(plan.decoration, Some(Rotating));
}

#[test]
fn item_plan_without_decoration() {
    let plan = construct_item("i-book", &item("items.glb#Book#2", ItemDecoration::default()), &scene());
    assert_eq!(plan.transform, TransformSource::Position(position(4.0)));
    assert_eq!(plan.gltf_path, "items.glb");
    assert_eq!(plan.scene_name, "Book#2");
    assert_eq!(plan.decoration, None);
}

#[test]
fn loader_extensions() {
    assert_eq!(PuzzleDefLoader.extensions(), ["ron"]);
}

#[test]
fn draggable_kinds() {
    assert_eq!(draggable_kind("i-painting"), Some(DraggableKind::Painting));
    assert_eq!(draggable_kind("i-ring0"), Some(DraggableKind::Ring));
    assert_eq!(draggable_kind("i-endcap"), Some(DraggableKind::Endcap));
    assert_eq!(draggable_kind("i-endcap-left"), Some(DraggableKind::Endcap));
    assert_eq!(draggable_kind("i-painting2"), None);
    assert_eq!(draggable_kind("i-key"), None);
    assert!(DraggableKind::Painting.slides());
    assert!(!DraggableKind::Ring.slides());
    assert!(DraggableKind::Endcap.slides());
}

#[test]
fn debug_state_inverse() {
    assert_eq!(DebugState::On.inverse(), DebugState::Off);
    assert_eq!(DebugState::Off.inverse(), DebugState::On);
    assert_eq!(DebugState::On.inverse().inverse(), DebugState::On);
}

#[test]
fn debug_options_default() {
    let o = DebugOptions::default();
    assert!(o.world_stats);
    assert!(o.world_inspector);
    assert!(!o.show_lights);
}

#[test]
fn clickable_scales_to_radius() {
    let r = FloatBits(0.25f32.to_bits());
    let t = Clickable(r).scale(at(1.0));
    assert_eq!(t.scale, Vec3Bits { x: r.0, y: r.0, z: r.0 });
    assert_eq!(t.translation, at(1.0).translation);
}

#[test]
fn zoom_and_unzoom() {
    assert_eq!(SECS_ZOOM, 2.0f32.to_bits());
    assert_eq!(SECS_UNZOOM, 1.0f32.to_bits());
    let mut current = CurrentZoomable::default();
    // not primary: nothing
    assert_eq!(current.on_zoom(false, EntityId(5), Some(at(1.0))), None);
    // not zoomable: nothing
    assert_eq!(current.on_zoom(true, EntityId(5), None), None);
    assert_eq!(current, CurrentZoomable(None));
    assert_eq!(
        current.on_zoom(true, EntityId(5), Some(at(1.0))),
        Some(CameraMove { target: at(1.0), duration: FloatBits(SECS_ZOOM) })
    );
    assert_eq!(current, CurrentZoomable(Some(EntityId(5))));
    let unzoom_to = vec![(EntityId(5), EntityId(2))];
    let cameras = vec![(EntityId(2), at(7.0)), (EntityId(5), at(1.0))];
    assert_eq!(current.on_unzoom(false, &unzoom_to, &cameras), None);
    assert_eq!(
        current.on_unzoom(true, &unzoom_to, &cameras),
        Some(CameraMove { target: at(7.0), duration: FloatBits(SECS_UNZOOM) })
    );
    assert_eq!(current, CurrentZoomable(Some(EntityId(2))));
    // from 2 there is nowhere to zoom back to
    assert_eq!(current.on_unzoom(true, &unzoom_to, &cameras), None);
    assert_eq!(current, CurrentZoomable(Some(EntityId(2))));
}

#[test]
fn debug_state_default_is_off() {
    assert_eq!(DebugState::default(), DebugState::Off);
}
