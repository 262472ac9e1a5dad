use vstd::prelude::*;
use crate::logic::action::{
    spec_pop2_as, spec_pop3_as, spec_pop_as, Constant, EntityId, FloatBits, Instruction,
    InstructionView, Stack, StackError, TransformBits,
};
use crate::logic::message::LogicMessage;
use crate::logic::state::{spec_clicked, spec_created, LogicState, LogicStateView};

verus! {

/// What running a program may ask of the world: the entities that carry a name, and
/// the placements of entities, each list in the order in which the world yields them.
pub struct WorldIndex {
    pub named: Vec<(String, EntityId)>,
    pub placed: Vec<(EntityId, TransformBits)>,
}

/// A change to the world that running a program asks for, in the order asked.
#[derive(Clone, Copy, Debug, PartialEq, Eq, Structural)]
pub enum Effect {
    /// Move `entity` to the placement `target` over `duration` seconds.
    MoveTo { entity: EntityId, target: TransformBits, duration: FloatBits },
    /// Give `entity` the parent `new_parent`, keeping it where it is in the world.
    ReparentInPlace { entity: EntityId, new_parent: EntityId },
    /// Take the decoration of `entity` away.
    RemoveDecoration { entity: EntityId },
}

/// Why running a program stopped.
#[derive(Clone, Debug, PartialEq, Eq)]
pub enum RunError {
    /// No entity carries this name.
    NoEntityNamed(String),
    /// This entity has no placement.
    NoTransform(EntityId),
    /// The stack did not hold what an instruction takes.
    Stack(StackError),
}

/// Why a run stopped, as a value of the specification.
pub enum RunFailure {
    NoEntityNamed(Seq<char>),
    NoTransform(EntityId),
    Stack(StackError),
}

impl View for RunError {
    type V = RunFailure;

    open spec fn view(&self) -> RunFailure {
        match self {
            RunError::NoEntityNamed(name) => RunFailure::NoEntityNamed(name@),
            RunError::NoTransform(e) => RunFailure::NoTransform(*e),
            RunError::Stack(e) => RunFailure::Stack(*e),
        }
    }
}

/// How a run ends, as a value of the specification.
pub open spec fn run_outcome_view(r: Result<(), RunError>) -> Result<(), RunFailure> {
    match r {
        Ok(()) => Ok(()),
        Err(e) => Err(e@),
    }
}

/// The first entity in `named` that carries the name `name`.
pub open spec fn spec_find_named(named: Seq<(String, EntityId)>, name: Seq<char>) -> Option<EntityId>
    decreases named.len(),
{
    if named.len() == 0 {
        None
    } else if named[0].0@ == name {
        Some(named[0].1)
    } else {
        spec_find_named(named.drop_first(), name)
    }
}

/// The placement of the first entry for `entity` in `placed`.
pub open spec fn spec_find_placed(placed: Seq<(EntityId, TransformBits)>, entity: EntityId) -> Option<TransformBits>
    decreases placed.len(),
{
    if placed.len() == 0 {
        None
    } else if placed[0].0 == entity {
        Some(placed[0].1)
    } else {
        spec_find_placed(placed.drop_first(), entity)
    }
}

/// What one instruction does to the stack, and the effect it asks for, or why it fails.
pub open spec fn spec_step(
    instr: InstructionView,
    named: Seq<(String, EntityId)>,
    placed: Seq<(EntityId, TransformBits)>,
    stack: Seq<Constant>,
) -> Result<(Seq<Constant>, Option<Effect>), RunFailure> {
    match instr {
        InstructionView::Lookup(name) => match spec_find_named(named, name) {
            None => Err(RunFailure::NoEntityNamed(name)),
            Some(e) => Ok((stack.push(Constant::Entity(e)), None)),
        },
        InstructionView::Push(c) => Ok((stack.push(c), None)),
        InstructionView::GetTransform => {
            let (s1, r) = spec_pop_as::<EntityId>(stack);
            match r {
                Err(e) => Err(RunFailure::Stack(e)),
                Ok(e) => match spec_find_placed(placed, e) {
                    None => Err(RunFailure::NoTransform(e)),
                    Some(t) => Ok((s1.push(Constant::Transform(t)), None)),
                },
            }
        },
        InstructionView::MoveTo => {
            let (s1, r) = spec_pop3_as::<EntityId, TransformBits, FloatBits>(stack);
            match r {
                Err(e) => Err(RunFailure::Stack(e)),
                Ok((entity, target, duration)) => Ok(
                    (s1, Some(Effect::MoveTo { entity, target, duration })),
                ),
            }
        },
        InstructionView::ReparentInPlace => {
            let (s1, r) = spec_pop2_as::<EntityId, EntityId>(stack);
            match r {
                Err(e) => Err(RunFailure::Stack(e)),
                Ok((entity, new_parent)) => Ok(
                    (s1, Some(Effect::ReparentInPlace { entity, new_parent })),
                ),
            }
        },
        InstructionView::RemoveDecoration => {
            let (s1, r) = spec_pop_as::<EntityId>(stack);
            match r {
                Err(e) => Err(RunFailure::Stack(e)),
                Ok(entity) => Ok((s1, Some(Effect::RemoveDecoration { entity }))),
            }
        },
    }
}

/// The effects that `prog` asks for after `effects`, run from `stack`, and how the run ends.
pub open spec fn spec_run_from(
    prog: Seq<InstructionView>,
    named: Seq<(String, EntityId)>,
    placed: Seq<(EntityId, TransformBits)>,
    stack: Seq<Constant>,
    effects: Seq<Effect>,
) -> (Seq<Effect>, Result<(), RunFailure>)
    decreases prog.len(),
{
    if prog.len() == 0 {
        (effects, Ok(()))
    } else {
        match spec_step(prog[0], named, placed, stack) {
            Err(e) => (effects, Err(e)),
            Ok((s1, eff)) => spec_run_from(
                prog.drop_first(),
                named,
                placed,
                s1,
                match eff {
                    Some(x) => effects.push(x),
                    None => effects,
                },
            ),
        }
    }
}

/// The effects that running `prog` on an empty stack asks for, and how the run ends.
pub open spec fn spec_run(
    prog: Seq<InstructionView>,
    named: Seq<(String, EntityId)>,
    placed: Seq<(EntityId, TransformBits)>,
) -> (Seq<Effect>, Result<(), RunFailure>) {
    spec_run_from(prog, named, placed, Seq::empty(), Seq::empty())
}

impl WorldIndex {
    /// The first entity that carries the name `name`.
    pub fn find_named(&self, name: &String) -> (r: Option<EntityId>)
        ensures
            r == spec_find_named(self.named@, name@),
    {
        let mut i: usize = 0;
        assert(self.named@.skip(0) =~= self.named@);
        while i < self.named.len()
            invariant
                i <= self.named@.len(),
                spec_find_named(self.named@, name@) == spec_find_named(self.named@.skip(i as int), name@),
            decreases self.named.len() - i,
        {
            assert(self.named@.skip(i as int).drop_first() =~= self.named@.skip(i + 1));
            if self.named[i].0 == *name {
                return Some(self.named[i].1);
            }
            i = i + 1;
        }
        None
    }

    /// The placement of the first entry for `entity`.
    pub fn find_placed(&self, entity: EntityId) -> (r: Option<TransformBits>)
        ensures
            r == spec_find_placed(self.placed@, entity),
    {
        let mut i: usize = 0;
        assert(self.placed@.skip(0) =~= self.placed@);
        while i < self.placed.len()
            invariant
                i <= self.placed@.len(),
                spec_find_placed(self.placed@, entity) == spec_find_placed(self.placed@.skip(i as int), entity),
            decreases self.placed.len() - i,
        {
            assert(self.placed@.skip(i as int).drop_first() =~= self.placed@.skip(i + 1));
            if self.placed[i].0 == entity {
                return Some(self.placed[i].1);
            }
            i = i + 1;
        }
        None
    }
}


/// Runs one instruction on `stack`; the effect it asks for, or why it fails.
fn run_step(instr: &Instruction, world: &WorldIndex, stack: &mut Stack) -> (r: Result<Option<Effect>, RunError>)
    ensures
        match spec_step(instr.deep_view(), world.named@, world.placed@, old(stack)@) {
            Err(e) => r is Err && r->Err_0@ == e,
            Ok((s1, eff)) => r == Ok::<Option<Effect>, RunError>(eff) && final(stack)@ == s1,
        },
{
    match instr {
        Instruction::Lookup(name) => match world.find_named(name) {
            None => Err(RunError::NoEntityNamed(name.clone())),
            Some(e) => {
                stack.push(Constant::Entity(e));
                Ok(None)
            },
        },
        Instruction::Push(c) => {
            stack.push(*c);
            Ok(None)
        },
        Instruction::GetTransform => match stack.pop1::<EntityId>() {
            Err(e) => Err(RunError::Stack(e)),
            Ok(e) => match world.find_placed(e) {
                None => Err(RunError::NoTransform(e)),
                Some(t) => {
                    stack.push(Constant::Transform(t));
                    Ok(None)
                },
            },
        },
        Instruction::MoveTo => match stack.pop3::<EntityId, TransformBits, FloatBits>() {
            Err(e) => Err(RunError::Stack(e)),
            Ok((entity, target, duration)) => Ok(Some(Effect::MoveTo { entity, target, duration })),
        },
        Instruction::ReparentInPlace => match stack.pop2::<EntityId, EntityId>() {
            Err(e) => Err(RunError::Stack(e)),
            Ok((entity, new_parent)) => Ok(Some(Effect::ReparentInPlace { entity, new_parent })),
        },
        Instruction::RemoveDecoration => match stack.pop1::<EntityId>() {
            Err(e) => Err(RunError::Stack(e)),
            Ok(entity) => Ok(Some(Effect::RemoveDecoration { entity })),
        },
    }
}

/// Runs `actions` in order on an empty stack. Gives the effects asked for, in order, up
/// to the first instruction that fails, and that failure if there is one.
pub fn run_actions(actions: &Vec<Instruction>, world: &WorldIndex) -> (r: (Vec<Effect>, Result<(), RunError>))
    ensures
        (r.0@, run_outcome_view(r.1)) == spec_run(actions.deep_view(), world.named@, world.placed@),
{
    let mut stack = Stack::default();
    let mut effects: Vec<Effect> = Vec::new();
    let mut i: usize = 0;
    let ghost prog = actions.deep_view();
    assert(prog.skip(0) =~= prog);
    while i < actions.len()
        invariant
            i <= actions@.len(),
            prog == actions.deep_view(),
            spec_run(prog, world.named@, world.placed@) == spec_run_from(
                prog.skip(i as int),
                world.named@,
                world.placed@,
                stack@,
                effects@,
            ),
        decreases actions.len() - i,
    {
        assert(prog.skip(i as int).drop_first() =~= prog.skip(i + 1));
        assert(prog.skip(i as int)[0] == actions@[i as int].deep_view());
        match run_step(&actions[i], world, &mut stack) {
            Err(e) => return (effects, Err(e)),
            Ok(eff) => match eff {
                Some(x) => effects.push(x),
                None => {},
            },
        }
        i = i + 1;
    }
    (effects, Ok(()))
}


/// What the rules make of `msgs`, each with the name of its entity, from state `s`, after
/// the program `acc`: the state, the whole program, whether clicks are being ignored, and
/// whether any message gave a program. While resting, clicks are ignored; a message that
/// gives a program starts a rest. Ends of drags are not answered.
pub open spec fn spec_check_from(
    msgs: Seq<(LogicMessage, String)>,
    s: LogicStateView,
    resting: bool,
    acted: bool,
    acc: Seq<InstructionView>,
) -> (LogicStateView, Seq<InstructionView>, bool, bool)
    decreases msgs.len(),
{
    if msgs.len() == 0 {
        (s, acc, resting, acted)
    } else {
        let rest = msgs.drop_first();
        match msgs[0].0 {
            LogicMessage::CreatedPuzzle(e) => {
                let (s2, p) = spec_created(s, e);
                spec_check_from(rest, s2, resting || p.len() > 0, acted || p.len() > 0, acc + p)
            },
            LogicMessage::Clicked(_e, primary) => {
                if resting {
                    spec_check_from(rest, s, resting, acted, acc)
                } else {
                    let (s2, p) = spec_clicked(s, msgs[0].1@, primary);
                    spec_check_from(rest, s2, resting || p.len() > 0, acted || p.len() > 0, acc + p)
                }
            },
            LogicMessage::Dragged(_e) => spec_check_from(rest, s, resting, acted, acc),
        }
    }
}

/// Answers `messages`, each given with the name of its entity, in order. `resting` says
/// whether the last program was given too recently for clicks to count. Gives the
/// program of all answers in order, and whether any message gave a program (the moment
/// of the last program is then now).
pub fn check_logic(state: &mut LogicState, messages: &Vec<(LogicMessage, String)>, resting: bool) -> (r: (Vec<Instruction>, bool))
    ensures
        ({
            let (s, p, _resting, acted) = spec_check_from(messages@, old(state)@, resting, false, Seq::empty());
            &&& final(state)@ == s
            &&& r.0.deep_view() == p
            &&& r.1 == acted
        }),
{
    let mut resting = resting;
    let mut acted = false;
    let mut actions: Vec<Instruction> = Vec::new();
    let mut i: usize = 0;
    let ghost start = old(state)@;
    let ghost initially_resting = resting;
    assert(messages@.skip(0) =~= messages@);
    assert(actions.deep_view() =~= Seq::<InstructionView>::empty());
    while i < messages.len()
        invariant
            i <= messages@.len(),
            spec_check_from(messages@, start, initially_resting, false, Seq::empty())
                == spec_check_from(messages@.skip(i as int), state@, resting, acted, actions.deep_view()),
        decreases messages.len() - i,
    {
        assert(messages@.skip(i as int).drop_first() =~= messages@.skip(i + 1));
        assert(messages@.skip(i as int)[0] == messages@[i as int]);
        let (message, name) = &messages[i];
        let mut new_actions = match message {
            LogicMessage::CreatedPuzzle(entity) => state.created(*entity),
            LogicMessage::Clicked(entity, primary) => {
                if resting {
                    i = i + 1;
                    continue;
                }
                state.clicked(*entity, name.as_str(), *primary)
            },
            LogicMessage::Dragged(_entity) => {
                i = i + 1;
                continue;
            },
        };
        if new_actions.len() > 0 {
            acted = true;
            resting = true;
        }
        let ghost before = actions.deep_view();
        let ghost added = new_actions.deep_view();
        actions.append(&mut new_actions);
        assert(actions.deep_view() =~= before + added);
        i = i + 1;
    }
    (actions, acted)
}

} // verus!
