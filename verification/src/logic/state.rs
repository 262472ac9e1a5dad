use vstd::prelude::*;
use crate::logic::action::{
    spec_identity_transform, Constant, EntityId, FloatBits, Instruction, InstructionView,
    TransformBits, Vec3Bits, F32_ZERO,
};
use crate::text::{chars_of, has_prefix, parse_usize_from, parse_usize_spec, same_text, starts_with};

verus! {

/// The bits of the entity that stands for no entity yet.
pub const PLACEHOLDER_ENTITY: u64 = 0x0000_0001;

/// Seconds the camera takes to reach the main zone when the puzzle appears (1.0).
pub const SECS_ENTER_PUZZLE: u32 = 0x3F80_0000;

/// Seconds the camera takes to enter a zone from the main zone (4.0).
pub const SECS_ENTER_ZONE: u32 = 0x4080_0000;

/// Seconds the camera takes to go back to the main zone (2.0).
pub const SECS_LEAVE_ZONE: u32 = 0x4000_0000;

/// Seconds the key takes to reach the hand, and the end cap to open (0.5).
pub const SECS_HALF: u32 = 0x3F00_0000;

/// Seconds a ring takes to snap to its step (0.1).
pub const SECS_RING_SNAP: u32 = 0x3DCC_CCCD;

/// Where the end cap of the cryptex moves when it opens: x = -4.0.
pub const ENDCAP_OPEN_X: u32 = 0xC080_0000;

/// The ring positions that open the cryptex.
pub open spec fn codex_solution() -> Seq<usize> {
    seq![1usize, 2usize, 3usize, 4usize]
}

/// Where a dragged ring comes to rest: the step it was rounded to (of seven per turn)
/// and its placement turned exactly to that step.
#[derive(Clone, Copy, Debug, PartialEq, Eq, Structural)]
pub struct RingSnap {
    pub position: isize,
    pub transform: TransformBits,
}

/// The state of the puzzle's rules.
#[derive(Debug)]
pub struct LogicState {
    puzzle_id: EntityId,
    current_zone: String,
    got_key: bool,
    codex_rings: [usize; 4],
    codex_unlocked: bool,
}

/// The state of the puzzle's rules, as a value of the specification.
pub struct LogicStateView {
    pub puzzle_id: EntityId,
    pub current_zone: Seq<char>,
    pub got_key: bool,
    pub codex_rings: Seq<usize>,
    pub codex_unlocked: bool,
}

impl View for LogicState {
    type V = LogicStateView;

    closed spec fn view(&self) -> LogicStateView {
        LogicStateView {
            puzzle_id: self.puzzle_id,
            current_zone: self.current_zone@,
            got_key: self.got_key,
            codex_rings: self.codex_rings@,
            codex_unlocked: self.codex_unlocked,
        }
    }
}

/// The zones that one enters from the main zone.
pub open spec fn is_side_zone(name: Seq<char>) -> bool {
    name == "z-hanging-key"@ || name == "z-painting"@ || name == "z-chest"@ || name == "z-cryptex"@
}

/// The program that moves the entity named `mover` to the placement of the entity named
/// `target` over `secs` seconds.
pub open spec fn move_program(mover: Seq<char>, target: Seq<char>, secs: u32) -> Seq<InstructionView> {
    seq![
        InstructionView::Lookup(mover),
        InstructionView::Lookup(target),
        InstructionView::GetTransform,
        InstructionView::Push(Constant::Float(FloatBits(secs))),
        InstructionView::MoveTo,
    ]
}

/// The program that moves the camera to the zone `zone` over `secs` seconds.
pub open spec fn zone_program(zone: Seq<char>, secs: u32) -> Seq<InstructionView> {
    move_program("camera"@, zone, secs)
}

/// The program that takes the key: it goes to the camera, loses its decoration and
/// moves to the hand.
pub open spec fn key_program() -> Seq<InstructionView> {
    seq![
        InstructionView::Lookup("i-key"@),
        InstructionView::Lookup("camera"@),
        InstructionView::ReparentInPlace,
        InstructionView::Lookup("i-key"@),
        InstructionView::RemoveDecoration,
    ] + move_program("i-key"@, "hand"@, SECS_HALF)
}

/// The placement of the opened end cap.
pub open spec fn endcap_open_transform() -> TransformBits {
    TransformBits {
        translation: Vec3Bits { x: ENDCAP_OPEN_X, y: F32_ZERO, z: F32_ZERO },
        ..spec_identity_transform()
    }
}

/// The program that opens the end cap of the cryptex.
pub open spec fn endcap_program() -> Seq<InstructionView> {
    seq![
        InstructionView::Lookup("i-endcap"@),
        InstructionView::Push(Constant::Transform(endcap_open_transform())),
        InstructionView::Push(Constant::Float(FloatBits(SECS_HALF))),
        InstructionView::MoveTo,
    ]
}

/// The program that snaps the ring named `name` to the placement `t`.
pub open spec fn ring_program(name: Seq<char>, t: TransformBits) -> Seq<InstructionView> {
    seq![
        InstructionView::Lookup(name),
        InstructionView::Push(Constant::Transform(t)),
        InstructionView::Push(Constant::Float(FloatBits(SECS_RING_SNAP))),
        InstructionView::MoveTo,
    ]
}

/// The remainder of `p` divided by `m` as integer division in Rust gives it: it has the
/// sign of `p`.
pub open spec fn truncated_rem(p: int, m: int) -> int {
    if p >= 0 {
        p % m
    } else {
        -((-p) % m)
    }
}

/// The ring position stored for a snap to step `position`: the step modulo seven, as the
/// remainder of Rust's integer division taken as a `usize`.
pub open spec fn ring_position(position: isize) -> usize {
    truncated_rem(position as int, 7) as usize
}

/// The number of the ring named `name`: what follows `i-ring` in the name, read as a
/// decimal number.
pub open spec fn ring_number(name: Seq<char>) -> Option<usize> {
    parse_usize_spec(name.skip(6))
}

/// Whether a drag of the entity named `name` can be handled without indexing past the
/// four rings: a ring name whose number is below four, or any other name.
pub open spec fn drag_is_in_range(name: Seq<char>) -> bool {
    has_prefix(name, "i-ring"@) ==> match ring_number(name) {
        Some(n) => n < 4,
        None => true,
    }
}

/// The initial state: no puzzle yet, no zone, no key, all rings at zero, cryptex closed.
pub open spec fn initial_state() -> LogicStateView {
    LogicStateView {
        puzzle_id: EntityId(PLACEHOLDER_ENTITY),
        current_zone: ""@,
        got_key: false,
        codex_rings: seq![0usize, 0usize, 0usize, 0usize],
        codex_unlocked: false,
    }
}

/// The state and program after the puzzle entity `entity` appears.
pub open spec fn spec_created(s: LogicStateView, entity: EntityId) -> (LogicStateView, Seq<InstructionView>) {
    (
        LogicStateView { puzzle_id: entity, current_zone: "z-main"@, ..s },
        zone_program("z-main"@, SECS_ENTER_PUZZLE),
    )
}

/// The state and program after a click on the entity named `name`, with the primary
/// button or another.
pub open spec fn spec_clicked(s: LogicStateView, name: Seq<char>, primary: bool) -> (LogicStateView, Seq<InstructionView>) {
    if primary {
        if s.current_zone == "z-main"@ && is_side_zone(name) {
            (LogicStateView { current_zone: name, ..s }, zone_program(name, SECS_ENTER_ZONE))
        } else if s.current_zone == "z-hanging-key"@ && name == "i-key"@ && !s.got_key {
            (LogicStateView { got_key: true, ..s }, key_program())
        } else {
            (s, Seq::empty())
        }
    } else if is_side_zone(s.current_zone) {
        (LogicStateView { current_zone: "z-main"@, ..s }, zone_program("z-main"@, SECS_LEAVE_ZONE))
    } else {
        (s, Seq::empty())
    }
}

/// The state and program after the ring named `name` is let go at `snap`.
pub open spec fn spec_move_ring(s: LogicStateView, name: Seq<char>, snap: RingSnap) -> (LogicStateView, Seq<InstructionView>) {
    match ring_number(name) {
        None => (s, Seq::empty()),
        Some(n) => {
            let rings = s.codex_rings.update(n as int, ring_position(snap.position));
            let opens = !s.codex_unlocked && rings == codex_solution();
            (
                LogicStateView { codex_rings: rings, codex_unlocked: s.codex_unlocked || opens, ..s },
                (if opens { endcap_program() } else { Seq::empty() }) + ring_program(name, snap.transform),
            )
        },
    }
}

/// The state and program after the entity named `name` is let go at the end of a drag.
pub open spec fn spec_dragged(s: LogicStateView, name: Seq<char>, snap: RingSnap) -> (LogicStateView, Seq<InstructionView>) {
    if has_prefix(name, "i-ring"@) {
        spec_move_ring(s, name, snap)
    } else {
        (s, Seq::empty())
    }
}

impl Default for LogicState {
    fn default() -> (s: LogicState)
        ensures
            s@ == initial_state(),
    {
        LogicState {
            puzzle_id: EntityId(PLACEHOLDER_ENTITY),
            current_zone: "".to_owned(),
            got_key: false,
            codex_rings: [0, 0, 0, 0],
            codex_unlocked: false,
        }
    }
}

/// The program that moves the entity named `mover` to the entity named `target`.
fn move_instructions(mover: &str, target: &str, secs: u32) -> (v: Vec<Instruction>)
    ensures
        v.deep_view() == move_program(mover@, target@, secs),
{
    let v = vec![
        Instruction::Lookup(mover.to_owned()),
        Instruction::Lookup(target.to_owned()),
        Instruction::GetTransform,
        Instruction::Push(Constant::Float(FloatBits(secs))),
        Instruction::MoveTo,
    ];
    assert(v.deep_view() =~= move_program(mover@, target@, secs));
    v
}

impl LogicState {
    /// The puzzle entity `entity` has appeared: the camera goes to the main zone.
    pub fn created(&mut self, entity: EntityId) -> (v: Vec<Instruction>)
        ensures
            (final(self)@, v.deep_view()) == spec_created(old(self)@, entity),
    {
        self.puzzle_id = entity;
        self.current_zone = "z-main".to_owned();
        self.move_to_zone("z-main", SECS_ENTER_PUZZLE)
    }

    /// The camera goes to the zone named `zone_name` over `secs` seconds.
    fn move_to_zone(&mut self, zone_name: &str, secs: u32) -> (v: Vec<Instruction>)
        ensures
            final(self)@ == (LogicStateView { current_zone: zone_name@, ..old(self)@ }),
            v.deep_view() == zone_program(zone_name@, secs),
    {
        self.current_zone = zone_name.to_owned();
        move_instructions("camera", zone_name, secs)
    }

    /// Whether the entity named `name` is one of the zones entered from the main zone.
    fn is_side_zone_name(name: &str) -> (r: bool)
        ensures
            r == is_side_zone(name@),
    {
        same_text(name, "z-hanging-key") || same_text(name, "z-painting") || same_text(name, "z-chest")
            || same_text(name, "z-cryptex")
    }

    /// A click on the entity named `name`. With the primary button: from the main zone, a
    /// side zone is entered; in the zone of the hanging key, the key is taken once. With
    /// another button: from a side zone, the camera goes back to the main zone. Any
    /// other click changes nothing and gives no program.
    pub fn clicked(&mut self, entity: EntityId, name: &str, primary: bool) -> (v: Vec<Instruction>)
        ensures
            (final(self)@, v.deep_view()) == spec_clicked(old(self)@, name@, primary),
    {
        if primary {
            if same_text(self.current_zone.as_str(), "z-main") && Self::is_side_zone_name(name) {
                return self.move_to_zone(name, SECS_ENTER_ZONE);
            }
            if same_text(self.current_zone.as_str(), "z-hanging-key") && same_text(name, "i-key")
                && !self.got_key {
                return self.pick_up_key();
            }
        } else {
            if Self::is_side_zone_name(self.current_zone.as_str()) {
                return self.move_to_zone("z-main", SECS_LEAVE_ZONE);
            }
        }
        let v: Vec<Instruction> = Vec::new();
        assert(v.deep_view() =~= Seq::<InstructionView>::empty());
        v
    }

    /// The key is taken: it goes to the camera, loses its decoration and moves to the hand.
    fn pick_up_key(&mut self) -> (v: Vec<Instruction>)
        ensures
            final(self)@ == (LogicStateView { got_key: true, ..old(self)@ }),
            v.deep_view() == key_program(),
    {
        self.got_key = true;
        let mut v = vec![
            Instruction::Lookup("i-key".to_owned()),
            Instruction::Lookup("camera".to_owned()),
            Instruction::ReparentInPlace,
            Instruction::Lookup("i-key".to_owned()),
            Instruction::RemoveDecoration,
        ];
        let mut tail = move_instructions("i-key", "hand", SECS_HALF);
        let ghost head = v.deep_view();
        let ghost rest = tail.deep_view();
        v.append(&mut tail);
        assert(v.deep_view() =~= head + rest);
        v
    }

    /// The entity named `name` is let go at the end of a drag; a ring snaps to `snap`.
    /// Other entities change nothing and give no program.
    pub fn dragged(&mut self, entity: EntityId, name: &str, snap: RingSnap) -> (v: Vec<Instruction>)
        requires
            drag_is_in_range(name@),
        ensures
            (final(self)@, v.deep_view()) == spec_dragged(old(self)@, name@, snap),
    {
        if starts_with(name, "i-ring") {
            return self.move_ring(name, snap);
        }
        let v: Vec<Instruction> = Vec::new();
        assert(v.deep_view() =~= Seq::<InstructionView>::empty());
        v
    }

    /// The ring named `name` is let go at `snap`: its position is stored, the cryptex
    /// opens the first time the rings read the solution, and the ring snaps into place.
    fn move_ring(&mut self, name: &str, snap: RingSnap) -> (v: Vec<Instruction>)
        requires
            has_prefix(name@, "i-ring"@),
            drag_is_in_range(name@),
        ensures
            (final(self)@, v.deep_view()) == spec_move_ring(old(self)@, name@, snap),
    {
        let chars = chars_of(name);
        proof {
            reveal_strlit("i-ring");
        }
        let ring_no = match parse_usize_from(&chars, 6) {
            None => {
                let v: Vec<Instruction> = Vec::new();
                assert(v.deep_view() =~= Seq::<InstructionView>::empty());
                return v;
            },
            Some(n) => n,
        };
        let rem: isize = snap.position % 7;
        let corrected: usize = rem as usize;
        assert(corrected == ring_position(snap.position));
        self.codex_rings[ring_no] = corrected;

        let mut actions: Vec<Instruction> = Vec::new();
        let solved = self.codex_rings[0] == 1 && self.codex_rings[1] == 2 && self.codex_rings[2] == 3
            && self.codex_rings[3] == 4;
        assert(solved == (self.codex_rings@ =~= codex_solution()));
        if !self.codex_unlocked && solved {
            self.codex_unlocked = true;
            let endcap = TransformBits::from_translation(Vec3Bits { x: ENDCAP_OPEN_X, y: F32_ZERO, z: F32_ZERO });
            actions.push(Instruction::Lookup("i-endcap".to_owned()));
            actions.push(Instruction::Push(Constant::Transform(endcap)));
            actions.push(Instruction::Push(Constant::Float(FloatBits(SECS_HALF))));
            actions.push(Instruction::MoveTo);
            assert(actions.deep_view() =~= endcap_program());
        } else {
            assert(actions.deep_view() =~= Seq::<InstructionView>::empty());
        }
        let ghost head = actions.deep_view();
        actions.push(Instruction::Lookup(name.to_owned()));
        actions.push(Instruction::Push(Constant::Transform(snap.transform)));
        actions.push(Instruction::Push(Constant::Float(FloatBits(SECS_RING_SNAP))));
        actions.push(Instruction::MoveTo);
        assert(actions.deep_view() =~= head + ring_program(name@, snap.transform));
        actions
    }

    /// The puzzle entity, once it has appeared.
    pub fn puzzle_id(&self) -> (r: EntityId)
        ensures
            r == self@.puzzle_id,
    {
        self.puzzle_id
    }

    /// The name of the zone the camera is in.
    pub fn current_zone(&self) -> (r: &str)
        ensures
            r@ == self@.current_zone,
    {
        self.current_zone.as_str()
    }

    /// Whether the key has been taken.
    pub fn got_key(&self) -> (r: bool)
        ensures
            r == self@.got_key,
    {
        self.got_key
    }

    /// The stored positions of the four rings of the cryptex.
    pub fn codex_rings(&self) -> (r: [usize; 4])
        ensures
            r@ == self@.codex_rings,
    {
        self.codex_rings
    }

    /// Whether the cryptex has been opened.
    pub fn codex_unlocked(&self) -> (r: bool)
        ensures
            r == self@.codex_unlocked,
    {
        self.codex_unlocked
    }
}

} // verus!
