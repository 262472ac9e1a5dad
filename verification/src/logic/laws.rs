use vstd::prelude::*;
use crate::logic::action::{
    spec_pop2_as, spec_pop_as, Constant, EntityId, FloatBits, InstructionView, StackError, TransformBits,
};
use vstd::std_specs::convert::TryFromSpec;
use crate::logic::check::{
    spec_check_from, spec_find_named, spec_find_placed, spec_run, spec_run_from, Effect, RunFailure,
};
use crate::logic::message::LogicMessage;
use crate::logic::state::{
    endcap_program, initial_state, is_side_zone, key_program, move_program, ring_program,
    spec_clicked, spec_created, spec_dragged, spec_move_ring, LogicStateView, RingSnap,
    codex_solution, ring_number, ring_position,
};
use crate::text::has_prefix;
use crate::logic::typing::{
    lemma_type_check_append, lemma_typed_run_from, lemma_well_typed_append, no_stack_failure,
    type_check, well_typed, Kind,
};

verus! {

proof fn lemma_move_program_typed(mover: Seq<char>, target: Seq<char>, secs: u32)
    ensures
        well_typed(move_program(mover, target, secs)),
{
    reveal_with_fuel(type_check, 6);
}

proof fn lemma_key_program_typed()
    ensures
        well_typed(key_program()),
{
    let head = seq![
        InstructionView::Lookup("i-key"@),
        InstructionView::Lookup("camera"@),
        InstructionView::ReparentInPlace,
        InstructionView::Lookup("i-key"@),
        InstructionView::RemoveDecoration,
    ];
    reveal_with_fuel(type_check, 6);
    assert(well_typed(head));
    lemma_move_program_typed("i-key"@, "hand"@, crate::logic::state::SECS_HALF);
    lemma_well_typed_append(head, move_program("i-key"@, "hand"@, crate::logic::state::SECS_HALF));
}

proof fn lemma_ring_programs_typed(name: Seq<char>, t: TransformBits)
    ensures
        well_typed(endcap_program()),
        well_typed(ring_program(name, t)),
{
    reveal_with_fuel(type_check, 5);
}

/// Every program that the answer to a creation, a click or the end of a drag gives runs
/// from an empty stack to an empty stack, each instruction finding the values it takes.
pub proof fn lemma_answers_well_typed(s: LogicStateView, entity: EntityId, name: Seq<char>, primary: bool, snap: RingSnap)
    ensures
        well_typed(spec_created(s, entity).1),
        well_typed(spec_clicked(s, name, primary).1),
        well_typed(spec_dragged(s, name, snap).1),
{
    lemma_move_program_typed("camera"@, "z-main"@, crate::logic::state::SECS_ENTER_PUZZLE);
    lemma_move_program_typed("camera"@, "z-main"@, crate::logic::state::SECS_LEAVE_ZONE);
    lemma_move_program_typed("camera"@, name, crate::logic::state::SECS_ENTER_ZONE);
    lemma_key_program_typed();
    lemma_ring_programs_typed(name, snap.transform);
    assert(well_typed(Seq::<InstructionView>::empty()));
    lemma_well_typed_append(endcap_program(), ring_program(name, snap.transform));
    lemma_well_typed_append(Seq::empty(), ring_program(name, snap.transform));
    assert(Seq::<InstructionView>::empty() + ring_program(name, snap.transform) =~= ring_program(name, snap.transform));
}

proof fn lemma_check_from_typed(
    msgs: Seq<(LogicMessage, String)>,
    s: LogicStateView,
    resting: bool,
    acted: bool,
    acc: Seq<InstructionView>,
)
    requires
        well_typed(acc),
    ensures
        well_typed(spec_check_from(msgs, s, resting, acted, acc).1),
    decreases msgs.len(),
{
    if msgs.len() > 0 {
        let rest = msgs.drop_first();
        match msgs[0].0 {
            LogicMessage::CreatedPuzzle(e) => {
                let (s2, p) = spec_created(s, e);
                lemma_answers_well_typed(s, e, msgs[0].1@, false, RingSnap { position: 0, transform: crate::logic::action::spec_identity_transform() });
                lemma_well_typed_append(acc, p);
                lemma_check_from_typed(rest, s2, resting || p.len() > 0, acted || p.len() > 0, acc + p);
            },
            LogicMessage::Clicked(e, primary) => {
                if resting {
                    lemma_check_from_typed(rest, s, resting, acted, acc);
                } else {
                    let (s2, p) = spec_clicked(s, msgs[0].1@, primary);
                    lemma_answers_well_typed(s, e, msgs[0].1@, primary, RingSnap { position: 0, transform: crate::logic::action::spec_identity_transform() });
                    lemma_well_typed_append(acc, p);
                    lemma_check_from_typed(rest, s2, resting || p.len() > 0, acted || p.len() > 0, acc + p);
                }
            },
            LogicMessage::Dragged(_e) => {
                lemma_check_from_typed(rest, s, resting, acted, acc);
            },
        }
    }
}

/// Whatever the world holds, running the program that a batch of messages is answered
/// with never stops for want of a value on the stack: only a missing name or placement
/// can stop it.
pub proof fn lemma_answer_runs_without_stack_failure(
    msgs: Seq<(LogicMessage, String)>,
    s: LogicStateView,
    resting: bool,
    named: Seq<(String, EntityId)>,
    placed: Seq<(EntityId, TransformBits)>,
)
    ensures
        no_stack_failure(spec_run(spec_check_from(msgs, s, resting, false, Seq::empty()).1, named, placed)),
{
    reveal_with_fuel(type_check, 1);
    lemma_check_from_typed(msgs, s, resting, false, Seq::empty());
    let p = spec_check_from(msgs, s, resting, false, Seq::empty()).1;
    assert(Seq::<Kind>::empty() =~= crate::logic::typing::kinds(Seq::empty()));
    lemma_typed_run_from(p, named, placed, Seq::empty(), Seq::empty());
}


/// Taking the top value off a stack that a value was just put on gives that value back,
/// converted, and leaves the stack as it was.
pub proof fn lemma_pop_undoes_push<A: TryFrom<Constant, Error = StackError>>(stack: Seq<Constant>, c: Constant)
    ensures
        spec_pop_as::<A>(stack.push(c)) == (stack, A::try_from_spec(c)),
{
    assert(stack.push(c).drop_last() =~= stack);
}

/// Taking a value off an empty stack fails with `EmptyStack` and leaves it empty.
pub proof fn lemma_pop_empty<A: TryFrom<Constant, Error = StackError>>()
    ensures
        spec_pop_as::<A>(Seq::empty()) == (Seq::<Constant>::empty(), Err::<A, StackError>(StackError::EmptyStack)),
{
}

/// A value converted into a stack value converts back to itself; a stack value of
/// another kind does not convert, with `WrongConstant`.
pub proof fn lemma_constant_round_trip(e: EntityId, f: FloatBits, t: TransformBits, c: Constant)
    ensures
        <EntityId as TryFromSpec<Constant>>::try_from_spec(Constant::Entity(e)) == Ok::<EntityId, StackError>(e),
        <FloatBits as TryFromSpec<Constant>>::try_from_spec(Constant::Float(f)) == Ok::<FloatBits, StackError>(f),
        <TransformBits as TryFromSpec<Constant>>::try_from_spec(Constant::Transform(t)) == Ok::<TransformBits, StackError>(t),
        !(c is Entity) ==> <EntityId as TryFromSpec<Constant>>::try_from_spec(c) == Err::<EntityId, StackError>(StackError::WrongConstant),
        !(c is Float) ==> <FloatBits as TryFromSpec<Constant>>::try_from_spec(c) == Err::<FloatBits, StackError>(StackError::WrongConstant),
        !(c is Transform) ==> <TransformBits as TryFromSpec<Constant>>::try_from_spec(c) == Err::<TransformBits, StackError>(StackError::WrongConstant),
{
}

/// Two values put on a stack in the order `a`, `b` are taken off two at a time as
/// `(a, b)`, leaving the stack as it was.
pub proof fn lemma_pop2_order<A: TryFrom<Constant, Error = StackError>, B: TryFrom<Constant, Error = StackError>>(
    stack: Seq<Constant>,
    a: Constant,
    b: Constant,
    va: A,
    vb: B,
)
    requires
        A::try_from_spec(a) == Ok::<A, StackError>(va),
        B::try_from_spec(b) == Ok::<B, StackError>(vb),
    ensures
        spec_pop2_as::<A, B>(stack.push(a).push(b)) == (stack, Ok::<(A, B), StackError>((va, vb))),
{
    assert(stack.push(a).push(b).drop_last() =~= stack.push(a));
    assert(stack.push(a).drop_last() =~= stack);
}

/// Running the program that moves the entity named `mover` to the entity named `target`:
/// where both names and the target's placement are found, the one effect is moving the
/// mover to that placement; otherwise the run stops at the first name or placement missing.
pub proof fn lemma_move_program_run(
    mover: Seq<char>,
    target: Seq<char>,
    secs: u32,
    named: Seq<(String, EntityId)>,
    placed: Seq<(EntityId, TransformBits)>,
)
    ensures
        spec_run(move_program(mover, target, secs), named, placed) == match spec_find_named(named, mover) {
            None => (Seq::<Effect>::empty(), Err::<(), RunFailure>(RunFailure::NoEntityNamed(mover))),
            Some(m) => match spec_find_named(named, target) {
                None => (Seq::<Effect>::empty(), Err::<(), RunFailure>(RunFailure::NoEntityNamed(target))),
                Some(t) => match spec_find_placed(placed, t) {
                    None => (Seq::<Effect>::empty(), Err::<(), RunFailure>(RunFailure::NoTransform(t))),
                    Some(tr) => (
                        seq![Effect::MoveTo { entity: m, target: tr, duration: FloatBits(secs) }],
                        Ok::<(), RunFailure>(()),
                    ),
                },
            },
        },
{
    reveal_with_fuel(spec_run_from, 6);
    let p = move_program(mover, target, secs);
    let e = Seq::<Effect>::empty();
    let s0 = Seq::<Constant>::empty();
    if let Some(m) = spec_find_named(named, mover) {
        let s1 = s0.push(Constant::Entity(m));
        if let Some(t) = spec_find_named(named, target) {
            let s2 = s1.push(Constant::Entity(t));
            assert(s2.drop_last() =~= s1);
            if let Some(tr) = spec_find_placed(placed, t) {
                let s3 = s1.push(Constant::Transform(tr));
                let s4 = s3.push(Constant::Float(FloatBits(secs)));
                assert(s4.drop_last() =~= s3);
                assert(s3.drop_last() =~= s1);
                assert(s1.drop_last() =~= s0);
            }
        }
    }
}


/// The zones the camera can be in: none yet, the main zone, or a side zone.
pub open spec fn zone_is_known(z: Seq<char>) -> bool {
    z == ""@ || z == "z-main"@ || is_side_zone(z)
}

/// What every answer keeps: the camera stays in a known zone, and a taken key or an
/// opened cryptex stays so.
pub open spec fn answer_keeps(s: LogicStateView, s2: LogicStateView) -> bool {
    &&& zone_is_known(s.current_zone) ==> zone_is_known(s2.current_zone)
    &&& s.got_key ==> s2.got_key
    &&& s.codex_unlocked ==> s2.codex_unlocked
}

/// The initial state is in a known zone.
pub proof fn lemma_initial_zone_known()
    ensures
        zone_is_known(initial_state().current_zone),
{
}

/// Creation, clicks and ends of drags keep the camera in a known zone, never give a
/// taken key back and never close an opened cryptex.
pub proof fn lemma_answers_keep(s: LogicStateView, entity: EntityId, name: Seq<char>, primary: bool, snap: RingSnap)
    ensures
        answer_keeps(s, spec_created(s, entity).0),
        answer_keeps(s, spec_clicked(s, name, primary).0),
        answer_keeps(s, spec_dragged(s, name, snap).0),
{
}

/// A batch of messages keeps what every single answer keeps.
pub proof fn lemma_check_keeps(
    msgs: Seq<(LogicMessage, String)>,
    s: LogicStateView,
    resting: bool,
    acted: bool,
    acc: Seq<InstructionView>,
)
    ensures
        answer_keeps(s, spec_check_from(msgs, s, resting, acted, acc).0),
    decreases msgs.len(),
{
    if msgs.len() > 0 {
        let rest = msgs.drop_first();
        let snap = RingSnap { position: 0, transform: crate::logic::action::spec_identity_transform() };
        match msgs[0].0 {
            LogicMessage::CreatedPuzzle(e) => {
                let (s2, p) = spec_created(s, e);
                lemma_answers_keep(s, e, msgs[0].1@, false, snap);
                lemma_check_keeps(rest, s2, resting || p.len() > 0, acted || p.len() > 0, acc + p);
            },
            LogicMessage::Clicked(e, primary) => {
                if resting {
                    lemma_check_keeps(rest, s, resting, acted, acc);
                } else {
                    let (s2, p) = spec_clicked(s, msgs[0].1@, primary);
                    lemma_answers_keep(s, e, msgs[0].1@, primary, snap);
                    lemma_check_keeps(rest, s2, resting || p.len() > 0, acted || p.len() > 0, acc + p);
                }
            },
            LogicMessage::Dragged(_e) => {
                lemma_check_keeps(rest, s, resting, acted, acc);
            },
        }
    }
}

/// The key is taken once: in the zone of the hanging key, once the key is taken, no
/// click with the primary button changes anything or gives a program.
pub proof fn lemma_key_taken_once(s: LogicStateView, name: Seq<char>)
    requires
        s.got_key,
        s.current_zone == "z-hanging-key"@,
    ensures
        spec_clicked(s, name, true) == (s, Seq::<InstructionView>::empty()),
{
    reveal_strlit("z-hanging-key");
    reveal_strlit("z-main");
    assert("z-hanging-key"@[2] != "z-main"@[2]);
}

/// The cryptex opens once: once it is open, letting a ring go gives at most the program
/// that snaps that ring.
pub proof fn lemma_cryptex_opens_once(s: LogicStateView, name: Seq<char>, snap: RingSnap)
    requires
        s.codex_unlocked,
    ensures
        spec_dragged(s, name, snap).0.codex_unlocked,
        spec_dragged(s, name, snap).1 == Seq::<InstructionView>::empty()
            || spec_dragged(s, name, snap).1 == ring_program(name, snap.transform),
{
    assert(Seq::<InstructionView>::empty() + ring_program(name, snap.transform) =~= ring_program(name, snap.transform));
}

/// While resting, a batch of clicks and ends of drags changes nothing and gives no
/// program: only the appearance of the puzzle is answered.
pub proof fn lemma_resting_ignores_clicks(
    msgs: Seq<(LogicMessage, String)>,
    s: LogicStateView,
    acted: bool,
    acc: Seq<InstructionView>,
)
    requires
        forall|i: int| 0 <= i < msgs.len() ==> !(#[trigger] msgs[i].0 is CreatedPuzzle),
    ensures
        spec_check_from(msgs, s, true, acted, acc) == (s, acc, true, acted),
    decreases msgs.len(),
{
    if msgs.len() > 0 {
        let rest = msgs.drop_first();
        assert(!(msgs[0].0 is CreatedPuzzle));
        assert forall|i: int| 0 <= i < rest.len() implies !(#[trigger] rest[i].0 is CreatedPuzzle) by {
            assert(rest[i] == msgs[i + 1]);
        }
        lemma_resting_ignores_clicks(rest, s, acted, acc);
    }
}

/// In a batch of clicks and ends of drags, once a click is answered with a program, the
/// rest of the batch is ignored: the batch gives that program alone.
pub proof fn lemma_first_answered_click_wins(
    entity: EntityId,
    primary: bool,
    name: String,
    rest: Seq<(LogicMessage, String)>,
    s: LogicStateView,
)
    requires
        spec_clicked(s, name@, primary).1.len() > 0,
        forall|i: int| 0 <= i < rest.len() ==> !(#[trigger] rest[i].0 is CreatedPuzzle),
    ensures
        spec_check_from(seq![(LogicMessage::Clicked(entity, primary), name)] + rest, s, false, false, Seq::empty())
            == (spec_clicked(s, name@, primary).0, spec_clicked(s, name@, primary).1, true, true),
{
    let msgs = seq![(LogicMessage::Clicked(entity, primary), name)] + rest;
    assert(msgs.drop_first() =~= rest);
    assert(msgs[0] == (LogicMessage::Clicked(entity, primary), name));
    let (s2, p) = spec_clicked(s, name@, primary);
    assert(Seq::<InstructionView>::empty() + p =~= p);
    lemma_resting_ignores_clicks(rest, s2, true, p);
}

/// How the cryptex opens: letting go the ring numbered `k` (below four) stores its
/// position; the cryptex is open after the move exactly when it was open before or the
/// rings now read 1, 2, 3, 4. The move that opens it gives the program that moves the end
/// cap first and then the one that snaps the ring (eight instructions); every other such
/// move gives the snapping program alone (four instructions). So the end cap is moved at
/// most once over any sequence of moves.
pub proof fn lemma_cryptex_opening(s: LogicStateView, name: Seq<char>, snap: RingSnap, k: usize)
    requires
        s.codex_rings.len() == 4,
        has_prefix(name, "i-ring"@),
        ring_number(name) == Some(k),
        k < 4,
    ensures
        ({
            let (s2, p) = spec_dragged(s, name, snap);
            let opens = !s.codex_unlocked && s2.codex_rings == codex_solution();
            &&& s2.codex_rings == s.codex_rings.update(k as int, ring_position(snap.position))
            &&& s2.codex_unlocked == (s.codex_unlocked || s2.codex_rings == codex_solution())
            &&& opens ==> p == endcap_program() + ring_program(name, snap.transform)
                && p.len() == 8 && p[0] == InstructionView::Lookup("i-endcap"@)
            &&& !opens ==> p == ring_program(name, snap.transform) && p.len() == 4
        }),
{
    assert(Seq::<InstructionView>::empty() + ring_program(name, snap.transform) =~= ring_program(name, snap.transform));
    let (s2, p) = spec_dragged(s, name, snap);
    if !s.codex_unlocked && s2.codex_rings == codex_solution() {
        assert((endcap_program() + ring_program(name, snap.transform))[0] == endcap_program()[0]);
    }
}

/// Answering two batches in a row is answering them as one batch.
pub proof fn lemma_check_append(
    m1: Seq<(LogicMessage, String)>,
    m2: Seq<(LogicMessage, String)>,
    s: LogicStateView,
    resting: bool,
    acted: bool,
    acc: Seq<InstructionView>,
)
    ensures
        spec_check_from(m1 + m2, s, resting, acted, acc) == ({
            let (s1, acc1, r1, a1) = spec_check_from(m1, s, resting, acted, acc);
            spec_check_from(m2, s1, r1, a1, acc1)
        }),
    decreases m1.len(),
{
    if m1.len() == 0 {
        assert(m1 + m2 =~= m2);
    } else {
        assert((m1 + m2).drop_first() =~= m1.drop_first() + m2);
        assert((m1 + m2)[0] == m1[0]);
        let rest = m1.drop_first();
        match m1[0].0 {
            LogicMessage::CreatedPuzzle(e) => {
                let (s2, p) = spec_created(s, e);
                lemma_check_append(rest, m2, s2, resting || p.len() > 0, acted || p.len() > 0, acc + p);
            },
            LogicMessage::Clicked(_e, primary) => {
                if resting {
                    lemma_check_append(rest, m2, s, resting, acted, acc);
                } else {
                    let (s2, p) = spec_clicked(s, m1[0].1@, primary);
                    lemma_check_append(rest, m2, s2, resting || p.len() > 0, acted || p.len() > 0, acc + p);
                }
            },
            LogicMessage::Dragged(_e) => {
                lemma_check_append(rest, m2, s, resting, acted, acc);
            },
        }
    }
}

/// Resting, once started, lasts to the end of the batch; it starts as soon as a message
/// gives a program; whether any message gave one is whether the program grew; and the
/// program only grows at its end.
pub proof fn lemma_rest_is_kept(
    msgs: Seq<(LogicMessage, String)>,
    s: LogicStateView,
    resting: bool,
    acted: bool,
    acc: Seq<InstructionView>,
)
    ensures
        ({
            let (_s2, p, r2, a2) = spec_check_from(msgs, s, resting, acted, acc);
            &&& resting ==> r2
            &&& (acted ==> resting) ==> (a2 ==> r2)
            &&& a2 == (acted || p.len() > acc.len())
            &&& r2 == (resting || p.len() > acc.len())
            &&& p.len() >= acc.len() && p.take(acc.len() as int) == acc
        }),
    decreases msgs.len(),
{
    if msgs.len() > 0 {
        let rest = msgs.drop_first();
        match msgs[0].0 {
            LogicMessage::CreatedPuzzle(e) => {
                let (s2, p) = spec_created(s, e);
                lemma_rest_is_kept(rest, s2, resting || p.len() > 0, acted || p.len() > 0, acc + p);
                let q = spec_check_from(rest, s2, resting || p.len() > 0, acted || p.len() > 0, acc + p).1;
                assert(q.take(acc.len() as int) =~= (q.take((acc + p).len() as int)).take(acc.len() as int));
                assert((acc + p).take(acc.len() as int) =~= acc);
            },
            LogicMessage::Clicked(_e, primary) => {
                if resting {
                    lemma_rest_is_kept(rest, s, resting, acted, acc);
                } else {
                    let (s2, p) = spec_clicked(s, msgs[0].1@, primary);
                    lemma_rest_is_kept(rest, s2, resting || p.len() > 0, acted || p.len() > 0, acc + p);
                    let q = spec_check_from(rest, s2, resting || p.len() > 0, acted || p.len() > 0, acc + p).1;
                    assert(q.take(acc.len() as int) =~= (q.take((acc + p).len() as int)).take(acc.len() as int));
                    assert((acc + p).take(acc.len() as int) =~= acc);
                }
            },
            LogicMessage::Dragged(_e) => {
                lemma_rest_is_kept(rest, s, resting, acted, acc);
            },
        }
    } else {
        assert(acc.take(acc.len() as int) =~= acc);
    }
}

/// A click read while resting (resting from the start of the call, or since an earlier
/// message of the batch gave a program) is skipped: the batch is answered as if it were
/// not there.
pub proof fn lemma_resting_skips_click(
    msgs: Seq<(LogicMessage, String)>,
    s: LogicStateView,
    resting: bool,
    i: int,
)
    requires
        0 <= i < msgs.len(),
        msgs[i].0 is Clicked,
        spec_check_from(msgs.take(i), s, resting, false, Seq::empty()).2,
    ensures
        spec_check_from(msgs, s, resting, false, Seq::empty())
            == spec_check_from(msgs.remove(i), s, resting, false, Seq::empty()),
{
    let pre = msgs.take(i);
    let post = msgs.skip(i + 1);
    assert(msgs =~= pre + (seq![msgs[i]] + post));
    assert(msgs.remove(i) =~= pre + post);
    lemma_check_append(pre, seq![msgs[i]] + post, s, resting, false, Seq::empty());
    lemma_check_append(pre, post, s, resting, false, Seq::empty());
    assert((seq![msgs[i]] + post).drop_first() =~= post);
    assert((seq![msgs[i]] + post)[0] == msgs[i]);
}

/// The appearance of the puzzle is never skipped, resting or not: it is answered where it
/// stands in the batch, and a rest follows it.
pub proof fn lemma_creation_always_answered(
    msgs: Seq<(LogicMessage, String)>,
    s: LogicStateView,
    resting: bool,
    i: int,
    e: EntityId,
)
    requires
        0 <= i < msgs.len(),
        msgs[i].0 == LogicMessage::CreatedPuzzle(e),
    ensures
        spec_check_from(msgs, s, resting, false, Seq::empty()) == ({
            let (si, acci, _ri, ai) = spec_check_from(msgs.take(i), s, resting, false, Seq::empty());
            let (s2, p) = spec_created(si, e);
            spec_check_from(msgs.skip(i + 1), s2, true, true, acci + p)
        }),
{
    let pre = msgs.take(i);
    let post = msgs.skip(i + 1);
    assert(msgs =~= pre + (seq![msgs[i]] + post));
    lemma_check_append(pre, seq![msgs[i]] + post, s, resting, false, Seq::empty());
    assert((seq![msgs[i]] + post).drop_first() =~= post);
    assert((seq![msgs[i]] + post)[0] == msgs[i]);
}

/// Zone navigation by clicks, zone by zone. From the main zone, a primary click on any
/// of the four side zones moves the camera there in 4 seconds and makes it the current
/// zone; from any of the four side zones, a click with another button moves the camera
/// back to the main zone in 2 seconds and makes that the current zone.
pub proof fn lemma_zone_navigation(s: LogicStateView, z: Seq<char>, name: Seq<char>)
    requires
        z == "z-hanging-key"@ || z == "z-painting"@ || z == "z-chest"@ || z == "z-cryptex"@,
    ensures
        s.current_zone == "z-main"@ ==> spec_clicked(s, z, true) == (
            LogicStateView { current_zone: z, ..s },
            seq![
                InstructionView::Lookup("camera"@),
                InstructionView::Lookup(z),
                InstructionView::GetTransform,
                InstructionView::Push(Constant::Float(FloatBits(0x4080_0000u32))),
                InstructionView::MoveTo,
            ],
        ),
        s.current_zone == z ==> spec_clicked(s, name, false) == (
            LogicStateView { current_zone: "z-main"@, ..s },
            seq![
                InstructionView::Lookup("camera"@),
                InstructionView::Lookup("z-main"@),
                InstructionView::GetTransform,
                InstructionView::Push(Constant::Float(FloatBits(0x4000_0000u32))),
                InstructionView::MoveTo,
            ],
        ),
{
}

/// The end of a drag never changes the answer to a batch: the batch is answered exactly
/// as if that message were not there, whether resting or not.
pub proof fn lemma_drag_end_changes_nothing(
    msgs: Seq<(LogicMessage, String)>,
    s: LogicStateView,
    resting: bool,
    acted: bool,
    acc: Seq<InstructionView>,
    i: int,
)
    requires
        0 <= i < msgs.len(),
        msgs[i].0 is Dragged,
    ensures
        spec_check_from(msgs, s, resting, acted, acc) == spec_check_from(msgs.remove(i), s, resting, acted, acc),
{
    let pre = msgs.take(i);
    let post = msgs.skip(i + 1);
    assert(msgs =~= pre + (seq![msgs[i]] + post));
    assert(msgs.remove(i) =~= pre + post);
    lemma_check_append(pre, seq![msgs[i]] + post, s, resting, acted, acc);
    lemma_check_append(pre, post, s, resting, acted, acc);
    assert((seq![msgs[i]] + post).drop_first() =~= post);
    assert((seq![msgs[i]] + post)[0] == msgs[i]);
}

/// Lookup by name finds an entry whose name is exactly the name asked, the first such
/// entry; it finds nothing only where no entry has exactly that name.
pub proof fn lemma_find_named_exact(named: Seq<(String, EntityId)>, name: Seq<char>)
    ensures
        match spec_find_named(named, name) {
            Some(e) => exists|i: int| {
                &&& 0 <= i < named.len()
                &&& #[trigger] named[i].0@ == name
                &&& named[i].1 == e
                &&& forall|j: int| 0 <= j < i ==> (#[trigger] named[j].0)@ != name
            },
            None => forall|i: int| 0 <= i < named.len() ==> (#[trigger] named[i].0)@ != name,
        },
    decreases named.len(),
{
    if named.len() > 0 {
        let rest = named.drop_first();
        lemma_find_named_exact(rest, name);
        if named[0].0@ == name {
            assert(named[0].0@ == name && named[0].1 == named[0].1);
        } else {
            match spec_find_named(rest, name) {
                Some(e) => {
                    let k = choose|k: int| {
                        &&& 0 <= k < rest.len()
                        &&& #[trigger] rest[k].0@ == name
                        &&& rest[k].1 == e
                        &&& forall|j: int| 0 <= j < k ==> (#[trigger] rest[j].0)@ != name
                    };
                    assert(named[k + 1] == rest[k]);
                    assert forall|j: int| 0 <= j < k + 1 implies (#[trigger] named[j].0)@ != name by {
                        if j > 0 {
                            assert(named[j] == rest[j - 1]);
                        }
                    }
                    assert(named[k + 1].0@ == name);
                },
                None => {
                    assert forall|i: int| 0 <= i < named.len() implies (#[trigger] named[i].0)@ != name by {
                        if i > 0 {
                            assert(named[i] == rest[i - 1]);
                        }
                    }
                },
            }
        }
    }
}

/// A ring let go at a step that is not negative stores that step modulo seven: always a
/// position below seven, and the same for a step and the step seven further on.
pub proof fn lemma_ring_stores_step_mod_seven(s: LogicStateView, name: Seq<char>, snap: RingSnap, k: usize)
    requires
        s.codex_rings.len() == 4,
        has_prefix(name, "i-ring"@),
        ring_number(name) == Some(k),
        k < 4,
        snap.position >= 0,
    ensures
        spec_dragged(s, name, snap).0.codex_rings[k as int] as int == snap.position as int % 7,
        spec_dragged(s, name, snap).0.codex_rings[k as int] < 7,
        forall|j: int| 0 <= j < 4 && j != k ==> spec_dragged(s, name, snap).0.codex_rings[j] == s.codex_rings[j],
        snap.position <= isize::MAX - 7 ==> spec_dragged(s, name, snap).0.codex_rings
            == spec_dragged(s, name, RingSnap { position: (snap.position + 7) as isize, ..snap }).0.codex_rings,
{
    let p = snap.position as int;
    assert((p + 7) % 7 == p % 7);
}

/// The appearance of the puzzle records it and sends the camera to the main zone in one
/// second, whatever the state was.
pub proof fn lemma_creation_goes_to_main(s: LogicStateView, entity: EntityId)
    ensures
        spec_created(s, entity) == (
            LogicStateView { puzzle_id: entity, current_zone: "z-main"@, ..s },
            seq![
                InstructionView::Lookup("camera"@),
                InstructionView::Lookup("z-main"@),
                InstructionView::GetTransform,
                InstructionView::Push(Constant::Float(FloatBits(0x3F80_0000u32))),
                InstructionView::MoveTo,
            ],
        ),
{
}

/// Taking the key: in the zone of the hanging key, a primary click on the key that is not
/// yet taken marks it taken, leaves the zone as it is, and gives the program that moves
/// the key under the camera, takes its decoration away and moves it to the hand in half a
/// second.
pub proof fn lemma_take_key(s: LogicStateView)
    requires
        s.current_zone == "z-hanging-key"@,
        !s.got_key,
    ensures
        spec_clicked(s, "i-key"@, true) == (
            LogicStateView { got_key: true, ..s },
            seq![
                InstructionView::Lookup("i-key"@),
                InstructionView::Lookup("camera"@),
                InstructionView::ReparentInPlace,
                InstructionView::Lookup("i-key"@),
                InstructionView::RemoveDecoration,
                InstructionView::Lookup("i-key"@),
                InstructionView::Lookup("hand"@),
                InstructionView::GetTransform,
                InstructionView::Push(Constant::Float(FloatBits(0x3F00_0000u32))),
                InstructionView::MoveTo,
            ],
        ),
{
    reveal_strlit("z-hanging-key");
    reveal_strlit("z-main");
    assert("z-hanging-key"@[2] != "z-main"@[2]);
    let head = seq![
        InstructionView::Lookup("i-key"@),
        InstructionView::Lookup("camera"@),
        InstructionView::ReparentInPlace,
        InstructionView::Lookup("i-key"@),
        InstructionView::RemoveDecoration,
    ];
    assert(key_program() =~= head + move_program("i-key"@, "hand"@, crate::logic::state::SECS_HALF));
}

/// The cryptex opens on the move that makes the four rings read 1, 2, 3, 4 while it is
/// closed; that move first sends the end cap to x = -4 (bits 0xC080_0000) in half a
/// second, then snaps the ring in a tenth of a second.
pub proof fn lemma_cryptex_opens_on_solution(s: LogicStateView, name: Seq<char>, snap: RingSnap, k: usize)
    requires
        s.codex_rings.len() == 4,
        has_prefix(name, "i-ring"@),
        ring_number(name) == Some(k),
        k < 4,
    ensures
        ({
            let (s2, p) = spec_dragged(s, name, snap);
            let solved = s2.codex_rings == seq![1usize, 2usize, 3usize, 4usize];
            &&& s2.codex_unlocked == (s.codex_unlocked || solved)
            &&& (!s.codex_unlocked && solved) ==> p == seq![
                InstructionView::Lookup("i-endcap"@),
                InstructionView::Push(Constant::Transform(TransformBits {
                    translation: crate::logic::action::Vec3Bits { x: 0xC080_0000u32, y: 0u32, z: 0u32 },
                    rotation: crate::logic::action::QuatBits { x: 0u32, y: 0u32, z: 0u32, w: 0x3F80_0000u32 },
                    scale: crate::logic::action::Vec3Bits { x: 0x3F80_0000u32, y: 0x3F80_0000u32, z: 0x3F80_0000u32 },
                })),
                InstructionView::Push(Constant::Float(FloatBits(0x3F00_0000u32))),
                InstructionView::MoveTo,
                InstructionView::Lookup(name),
                InstructionView::Push(Constant::Transform(snap.transform)),
                InstructionView::Push(Constant::Float(FloatBits(0x3DCC_CCCDu32))),
                InstructionView::MoveTo,
            ]
            &&& !(!s.codex_unlocked && solved) ==> p == seq![
                InstructionView::Lookup(name),
                InstructionView::Push(Constant::Transform(snap.transform)),
                InstructionView::Push(Constant::Float(FloatBits(0x3DCC_CCCDu32))),
                InstructionView::MoveTo,
            ]
        }),
{
    let (s2, p) = spec_dragged(s, name, snap);
    assert(codex_solution() =~= seq![1usize, 2usize, 3usize, 4usize]);
    assert(Seq::<InstructionView>::empty() + ring_program(name, snap.transform) =~= ring_program(name, snap.transform));
    assert(endcap_program() + ring_program(name, snap.transform) =~= seq![
        InstructionView::Lookup("i-endcap"@),
        InstructionView::Push(Constant::Transform(crate::logic::state::endcap_open_transform())),
        InstructionView::Push(Constant::Float(FloatBits(0x3F00_0000u32))),
        InstructionView::MoveTo,
        InstructionView::Lookup(name),
        InstructionView::Push(Constant::Transform(snap.transform)),
        InstructionView::Push(Constant::Float(FloatBits(0x3DCC_CCCDu32))),
        InstructionView::MoveTo,
    ]);
}

} // verus!
