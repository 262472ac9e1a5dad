use vstd::prelude::*;
use crate::logic::action::{spec_pop2_as, spec_pop3_as, spec_pop_as, Constant, EntityId, FloatBits, InstructionView, TransformBits};
use crate::logic::check::{spec_run, spec_run_from, spec_step, Effect, RunFailure};

verus! {

/// The kind of a value on the stack.
pub enum Kind {
    Entity,
    Float,
    Transform,
}

/// The kind of the value `c`.
pub open spec fn kind_of(c: Constant) -> Kind {
    match c {
        Constant::Entity(_) => Kind::Entity,
        Constant::Float(_) => Kind::Float,
        Constant::Transform(_) => Kind::Transform,
    }
}

/// The kinds of the values on `stack`, bottom first.
pub open spec fn kinds(stack: Seq<Constant>) -> Seq<Kind> {
    stack.map_values(|c: Constant| kind_of(c))
}

/// Whether the top of `k` is `Entity`.
pub open spec fn top_is_entity(k: Seq<Kind>) -> bool {
    k.len() >= 1 && k[k.len() - 1] == Kind::Entity
}

/// Whether the top three of `k` are, from the bottom, `Entity`, `Transform` and `Float`.
pub open spec fn top_is_move(k: Seq<Kind>) -> bool {
    k.len() >= 3 && k[k.len() - 3] == Kind::Entity && k[k.len() - 2] == Kind::Transform
        && k[k.len() - 1] == Kind::Float
}

/// Whether the top two of `k` are both `Entity`.
pub open spec fn top_is_two_entities(k: Seq<Kind>) -> bool {
    k.len() >= 2 && k[k.len() - 2] == Kind::Entity && k[k.len() - 1] == Kind::Entity
}

/// The kinds on the stack after `instr`, or `None` where `instr` would find the stack
/// without the values it takes.
pub open spec fn type_step(instr: InstructionView, k: Seq<Kind>) -> Option<Seq<Kind>> {
    match instr {
        InstructionView::Lookup(_) => Some(k.push(Kind::Entity)),
        InstructionView::Push(c) => Some(k.push(kind_of(c))),
        InstructionView::GetTransform => if top_is_entity(k) {
            Some(k.drop_last().push(Kind::Transform))
        } else {
            None
        },
        InstructionView::MoveTo => if top_is_move(k) {
            Some(k.take(k.len() - 3))
        } else {
            None
        },
        InstructionView::ReparentInPlace => if top_is_two_entities(k) {
            Some(k.take(k.len() - 2))
        } else {
            None
        },
        InstructionView::RemoveDecoration => if top_is_entity(k) {
            Some(k.drop_last())
        } else {
            None
        },
    }
}

/// The kinds on the stack after `prog` from kinds `k`, or `None` where some instruction
/// would find the stack without the values it takes.
pub open spec fn type_check(prog: Seq<InstructionView>, k: Seq<Kind>) -> Option<Seq<Kind>>
    decreases prog.len(),
{
    if prog.len() == 0 {
        Some(k)
    } else {
        match type_step(prog[0], k) {
            None => None,
            Some(k1) => type_check(prog.drop_first(), k1),
        }
    }
}

/// A program that runs from an empty stack to an empty stack, each instruction finding
/// the values it takes.
pub open spec fn well_typed(prog: Seq<InstructionView>) -> bool {
    type_check(prog, Seq::empty()) matches Some(k) && k.len() == 0
}

/// Whether a run did not stop for want of a value on the stack.
pub open spec fn no_stack_failure(r: (Seq<Effect>, Result<(), RunFailure>)) -> bool {
    !(r.1 matches Err(RunFailure::Stack(_)))
}

proof fn lemma_kinds_push(stack: Seq<Constant>, c: Constant)
    ensures
        kinds(stack.push(c)) == kinds(stack).push(kind_of(c)),
{
    assert(kinds(stack.push(c)) =~= kinds(stack).push(kind_of(c)));
}

proof fn lemma_kinds_drop_last(stack: Seq<Constant>)
    requires
        stack.len() > 0,
    ensures
        kinds(stack.drop_last()) == kinds(stack).drop_last(),
        kinds(stack).last() == kind_of(stack.last()),
{
    assert(kinds(stack.drop_last()) =~= kinds(stack).drop_last());
}

/// One instruction whose kinds check does not stop for want of a value, and leaves
/// values of the kinds the check says.
proof fn lemma_step_typed(
    instr: InstructionView,
    named: Seq<(String, EntityId)>,
    placed: Seq<(EntityId, TransformBits)>,
    stack: Seq<Constant>,
)
    requires
        type_step(instr, kinds(stack)) is Some,
    ensures
        !(spec_step(instr, named, placed, stack) matches Err(RunFailure::Stack(_))),
        spec_step(instr, named, placed, stack) matches Ok((s1, _)) ==> Some(kinds(s1)) == type_step(instr, kinds(stack)),
{
    let k = kinds(stack);
    let n = stack.len();
    match instr {
        InstructionView::Lookup(_) => {
            lemma_kinds_push(stack, Constant::Entity(EntityId(0)));
            assert forall|e: EntityId| kinds(stack.push(Constant::Entity(e))) == k.push(Kind::Entity) by {
                lemma_kinds_push(stack, Constant::Entity(e));
            }
        },
        InstructionView::Push(c) => {
            lemma_kinds_push(stack, c);
        },
        InstructionView::GetTransform => {
            lemma_kinds_drop_last(stack);
            assert forall|t: TransformBits| kinds(stack.drop_last().push(Constant::Transform(t)))
                == k.drop_last().push(Kind::Transform) by {
                lemma_kinds_push(stack.drop_last(), Constant::Transform(t));
            }
        },
        InstructionView::MoveTo => {
            let s1 = stack.drop_last();
            let s2 = s1.drop_last();
            let s3 = s2.drop_last();
            lemma_kinds_drop_last(stack);
            lemma_kinds_drop_last(s1);
            lemma_kinds_drop_last(s2);
            assert(kinds(s3) =~= k.take(k.len() - 3));
        },
        InstructionView::ReparentInPlace => {
            let s1 = stack.drop_last();
            let s2 = s1.drop_last();
            lemma_kinds_drop_last(stack);
            lemma_kinds_drop_last(s1);
            assert(kinds(s2) =~= k.take(k.len() - 2));
        },
        InstructionView::RemoveDecoration => {
            lemma_kinds_drop_last(stack);
        },
    }
}

/// A program whose kinds check passes from the kinds of `stack` never stops for want of
/// a value on the stack.
pub proof fn lemma_typed_run_from(
    prog: Seq<InstructionView>,
    named: Seq<(String, EntityId)>,
    placed: Seq<(EntityId, TransformBits)>,
    stack: Seq<Constant>,
    effects: Seq<Effect>,
)
    requires
        type_check(prog, kinds(stack)) is Some,
    ensures
        no_stack_failure(spec_run_from(prog, named, placed, stack, effects)),
    decreases prog.len(),
{
    if prog.len() > 0 {
        lemma_step_typed(prog[0], named, placed, stack);
        match spec_step(prog[0], named, placed, stack) {
            Err(_) => {},
            Ok((s1, eff)) => {
                lemma_typed_run_from(
                    prog.drop_first(),
                    named,
                    placed,
                    s1,
                    match eff {
                        Some(x) => effects.push(x),
                        None => effects,
                    },
                );
            },
        }
    }
}

/// Checking the kinds of two programs in a row is checking the first, then the second
/// from where the first left the stack.
pub proof fn lemma_type_check_append(p1: Seq<InstructionView>, p2: Seq<InstructionView>, k: Seq<Kind>)
    ensures
        type_check(p1 + p2, k) == match type_check(p1, k) {
            None => None,
            Some(k1) => type_check(p2, k1),
        },
    decreases p1.len(),
{
    if p1.len() == 0 {
        assert(p1 + p2 =~= p2);
    } else {
        assert((p1 + p2).drop_first() =~= p1.drop_first() + p2);
        assert((p1 + p2)[0] == p1[0]);
        match type_step(p1[0], k) {
            None => {},
            Some(k1) => {
                lemma_type_check_append(p1.drop_first(), p2, k1);
            },
        }
    }
}

/// Two programs that each run from an empty stack to an empty stack run so in a row.
pub proof fn lemma_well_typed_append(p1: Seq<InstructionView>, p2: Seq<InstructionView>)
    requires
        well_typed(p1),
        well_typed(p2),
    ensures
        well_typed(p1 + p2),
{
    lemma_type_check_append(p1, p2, Seq::empty());
    let k1 = type_check(p1, Seq::empty())->Some_0;
    assert(k1 =~= Seq::<Kind>::empty());
}

} // verus!
