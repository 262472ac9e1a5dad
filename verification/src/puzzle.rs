use vstd::prelude::*;
use crate::item::{Item, Rotating};
use crate::logic::action::{FloatBits, TransformBits};
use crate::puzzle_def::{ItemDecoration, ItemDef, Position, ZoneDef};
use crate::text::split_once_ascii;
use crate::zone::Zone;

verus! {

/// Where the placement of a part comes from.
#[derive(Clone, Copy, Debug, PartialEq, Eq, Structural)]
pub enum TransformSource {
    /// The placement the part has in the initial scene.
    Scene(TransformBits),
    /// The position the puzzle file gives.
    Position(Position),
    /// No placement is known: the placement that changes nothing.
    Default,
}

/// The placement given to `name` in `positions`, the scene's names and placements in the
/// order in which the scene yields them: the last one given wins.
pub open spec fn spec_scene_position(positions: Seq<(String, TransformBits)>, name: Seq<char>) -> Option<TransformBits>
    decreases positions.len(),
{
    if positions.len() == 0 {
        None
    } else if positions.last().0@ == name {
        Some(positions.last().1)
    } else {
        spec_scene_position(positions.drop_last(), name)
    }
}

/// The scene gives a part a placement only from an entry whose name is exactly the
/// part's name, the last such entry; it gives none only where no entry has that name.
pub proof fn lemma_scene_position_exact(positions: Seq<(String, TransformBits)>, name: Seq<char>)
    ensures
        match spec_scene_position(positions, name) {
            Some(t) => exists|i: int| {
                &&& 0 <= i < positions.len()
                &&& #[trigger] positions[i].0@ == name
                &&& positions[i].1 == t
                &&& forall|j: int| i < j < positions.len() ==> (#[trigger] positions[j].0)@ != name
            },
            None => forall|i: int| 0 <= i < positions.len() ==> (#[trigger] positions[i].0)@ != name,
        },
    decreases positions.len(),
{
    if positions.len() > 0 {
        let rest = positions.drop_last();
        let n = positions.len() - 1;
        lemma_scene_position_exact(rest, name);
        if positions.last().0@ == name {
            assert(positions[n].0@ == name && positions[n].1 == positions.last().1);
        } else {
            match spec_scene_position(rest, name) {
                Some(t) => {
                    let k = choose|k: int| {
                        &&& 0 <= k < rest.len()
                        &&& #[trigger] rest[k].0@ == name
                        &&& rest[k].1 == t
                        &&& forall|j: int| k < j < rest.len() ==> (#[trigger] rest[j].0)@ != name
                    };
                    assert(positions[k] == rest[k]);
                    assert forall|j: int| k < j < positions.len() implies (#[trigger] positions[j].0)@ != name by {
                        if j < n {
                            assert(positions[j] == rest[j]);
                        }
                    }
                    assert(positions[k].0@ == name);
                },
                None => {
                    assert forall|i: int| 0 <= i < positions.len() implies (#[trigger] positions[i].0)@ != name by {
                        if i < n {
                            assert(positions[i] == rest[i]);
                        }
                    }
                },
            }
        }
    }
}

/// An entry for another name never changes where a part's placement comes from; an entry
/// for the part's own name, added last, decides it.
pub proof fn lemma_scene_position_other_names(
    positions: Seq<(String, TransformBits)>,
    name: Seq<char>,
    n: String,
    t: TransformBits,
)
    ensures
        n@ != name ==> spec_scene_position(positions.push((n, t)), name) == spec_scene_position(positions, name),
        n@ == name ==> spec_scene_position(positions.push((n, t)), name) == Some(t),
{
    assert(positions.push((n, t)).drop_last() =~= positions);
}

/// Where the placement of the part `name` comes from: the initial scene if it places the
/// part, else the position of the puzzle file if it gives one, else nowhere.
pub open spec fn spec_pick_transform(positions: Seq<(String, TransformBits)>, name: Seq<char>, position: Option<Position>) -> TransformSource {
    match spec_scene_position(positions, name) {
        Some(t) => TransformSource::Scene(t),
        None => match position {
            Some(p) => TransformSource::Position(p),
            None => TransformSource::Default,
        },
    }
}

/// Where the placement of the part `name` comes from: the initial scene (`initial_positions`,
/// in the order the scene yields them; the last entry for a name wins), else the position
/// of the puzzle file, else the placement that changes nothing.
pub fn pick_transform(initial_positions: &Vec<(String, TransformBits)>, name: &str, position: &Option<Position>) -> (r: TransformSource)
    ensures
        r == spec_pick_transform(initial_positions@, name@, *position),
{
    let mut found: Option<TransformBits> = None;
    let mut i: usize = 0;
    assert(initial_positions@.take(0) =~= Seq::<(String, TransformBits)>::empty());
    while i < initial_positions.len()
        invariant
            i <= initial_positions@.len(),
            found == spec_scene_position(initial_positions@.take(i as int), name@),
        decreases initial_positions.len() - i,
    {
        let ghost next = initial_positions@.take(i + 1);
        assert(next.drop_last() =~= initial_positions@.take(i as int));
        assert(next.last() == initial_positions@[i as int]);
        if crate::text::same_text(initial_positions[i].0.as_str(), name) {
            found = Some(initial_positions[i].1);
        }
        i = i + 1;
    }
    assert(initial_positions@.take(i as int) =~= initial_positions@);
    match found {
        Some(t) => TransformSource::Scene(t),
        None => match position {
            Some(p) => TransformSource::Position(*p),
            None => TransformSource::Default,
        },
    }
}

/// Where the scene does not place a part, its placement comes from the puzzle file if
/// that gives a position, else it is the one that changes nothing; where the scene places
/// it, the scene's placement is used whatever the file says.
pub proof fn lemma_pick_transform_fallbacks(
    positions: Seq<(String, TransformBits)>,
    name: Seq<char>,
    position: Option<Position>,
)
    ensures
        (forall|i: int| 0 <= i < positions.len() ==> (#[trigger] positions[i].0)@ != name) ==>
            spec_pick_transform(positions, name, position) == match position {
                Some(p) => TransformSource::Position(p),
                None => TransformSource::Default,
            },
        positions.len() > 0 && positions.last().0@ == name ==>
            spec_pick_transform(positions, name, position) == TransformSource::Scene(positions.last().1),
{
    lemma_scene_position_exact(positions, name);
}

/// The name of the clickable sphere of the zone `name`: `name` followed by `/clickable`.
pub fn clickable_name(name: &str) -> (r: String)
    ensures
        r@ == name@ + "/clickable"@,
{
    let mut s = name.to_owned();
    s.append("/clickable");
    s
}

/// The clickable sphere of a zone: its name, radius and placement.
#[derive(Clone, Debug)]
pub struct ClickablePlan {
    pub name: String,
    pub radius: FloatBits,
    pub transform: TransformSource,
}

/// What a zone of the puzzle is built of.
#[derive(Clone, Debug)]
pub struct ZonePlan {
    pub zone: Zone,
    pub transform: TransformSource,
    pub clickable: Option<ClickablePlan>,
}

/// What an item of the puzzle is built of: its placement, the file of its model, the
/// scene in that file, and its decoration if any.
#[derive(Clone, Debug)]
pub struct ItemPlan {
    pub item: Item,
    pub transform: TransformSource,
    pub gltf_path: String,
    pub scene_name: String,
    pub decoration: Option<Rotating>,
}

/// Builds the zone `name` from its description: placed as `pick_transform` says, with a
/// clickable sphere named `<name>/clickable` where the description has one.
pub fn construct_zone(name: &str, zone_def: &ZoneDef, initial_positions: &Vec<(String, TransformBits)>) -> (r: ZonePlan)
    ensures
        r.transform == spec_pick_transform(initial_positions@, name@, zone_def.position),
        r.clickable is Some == zone_def.clickable is Some,
        r.clickable matches Some(c) ==> {
            &&& c.name@ == name@ + "/clickable"@
            &&& c.radius == zone_def.clickable->Some_0.radius
            &&& c.transform == spec_pick_transform(initial_positions@, c.name@, zone_def.clickable->Some_0.position)
        },
{
    let transform = pick_transform(initial_positions, name, &zone_def.position);
    let clickable = match &zone_def.clickable {
        Some(c) => {
            let cname = clickable_name(name);
            let ctransform = pick_transform(initial_positions, cname.as_str(), &c.position);
            Some(ClickablePlan { name: cname, radius: c.radius, transform: ctransform })
        },
        None => None,
    };
    ZonePlan { zone: Zone, transform, clickable }
}

/// Whether the model reference `gltf_scene` names a file and a scene, joined by `#`.
pub open spec fn names_scene(gltf_scene: Seq<char>) -> bool {
    gltf_scene.contains('#')
}

/// Builds the item `name` from its description: placed as `pick_transform` says, with
/// the model file before the first `#` of `gltf_scene` and the scene after it, rotating
/// where its decoration says so.
pub fn construct_item(name: &str, item_def: &ItemDef, initial_positions: &Vec<(String, TransformBits)>) -> (r: ItemPlan)
    requires
        names_scene(item_def.gltf_scene@),
    ensures
        r.transform == spec_pick_transform(initial_positions@, name@, item_def.position),
        item_def.gltf_scene@ == r.gltf_path@ + seq!['#'] + r.scene_name@,
        !r.gltf_path@.contains('#'),
        r.decoration is Some <==> item_def.decoration == ItemDecoration::Rotating,
{
    let transform = pick_transform(initial_positions, name, &item_def.position);
    assert((0x23u8 as char) == '#');
    let (gltf_path, scene_name) = match split_once_ascii(item_def.gltf_scene.as_str(), 0x23) {
        Some(parts) => parts,
        None => {
            assert(false);
            (String::new(), String::new())
        },
    };
    let decoration = match item_def.decoration {
        ItemDecoration::Rotating => Some(Rotating),
        ItemDecoration::Plain => None,
    };
    ItemPlan { item: Item, transform, gltf_path, scene_name, decoration }
}

} // verus!
