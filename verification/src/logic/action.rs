use vstd::prelude::*;
use vstd::std_specs::convert::FromSpecImpl;
use vstd::std_specs::convert::TryFromSpecImpl;
use vstd::std_specs::convert::TryFromSpec;

verus! {

/// An entity of the game world, by the bits that identify it.
#[derive(Clone, Copy, Debug, PartialEq, Eq, Structural, Hash)]
pub struct EntityId(pub u64);

/// A single-precision number, by its IEEE 754 bit pattern.
#[derive(Clone, Copy, Debug, PartialEq, Eq, Structural, Hash)]
pub struct FloatBits(pub u32);

/// A vector of three single-precision numbers, each by its bit pattern.
#[derive(Clone, Copy, Debug, PartialEq, Eq, Structural, Hash)]
pub struct Vec3Bits {
    pub x: u32,
    pub y: u32,
    pub z: u32,
}

/// A rotation quaternion of four single-precision numbers, each by its bit pattern.
#[derive(Clone, Copy, Debug, PartialEq, Eq, Structural, Hash)]
pub struct QuatBits {
    pub x: u32,
    pub y: u32,
    pub z: u32,
    pub w: u32,
}

/// A placement in space (translation, rotation, scale), every number by its bit pattern.
#[derive(Clone, Copy, Debug, PartialEq, Eq, Structural, Hash)]
pub struct TransformBits {
    pub translation: Vec3Bits,
    pub rotation: QuatBits,
    pub scale: Vec3Bits,
}

/// The bit pattern of the single-precision number 0.
pub const F32_ZERO: u32 = 0x0000_0000;

/// The bit pattern of the single-precision number 1.
pub const F32_ONE: u32 = 0x3F80_0000;

/// The placement that changes nothing: no translation, no rotation, unit scale.
pub open spec fn spec_identity_transform() -> TransformBits {
    TransformBits {
        translation: Vec3Bits { x: F32_ZERO, y: F32_ZERO, z: F32_ZERO },
        rotation: QuatBits { x: F32_ZERO, y: F32_ZERO, z: F32_ZERO, w: F32_ONE },
        scale: Vec3Bits { x: F32_ONE, y: F32_ONE, z: F32_ONE },
    }
}

impl TransformBits {
    /// The placement that changes nothing: no translation, no rotation, unit scale.
    pub fn identity() -> (t: TransformBits)
        ensures
            t == spec_identity_transform(),
    {
        TransformBits {
            translation: Vec3Bits { x: F32_ZERO, y: F32_ZERO, z: F32_ZERO },
            rotation: QuatBits { x: F32_ZERO, y: F32_ZERO, z: F32_ZERO, w: F32_ONE },
            scale: Vec3Bits { x: F32_ONE, y: F32_ONE, z: F32_ONE },
        }
    }

    /// The placement at `translation`, with no rotation and unit scale.
    pub fn from_translation(translation: Vec3Bits) -> (t: TransformBits)
        ensures
            t == (TransformBits { translation, ..spec_identity_transform() }),
    {
        TransformBits { translation, ..TransformBits::identity() }
    }
}

/// An error of the instruction stack.
#[non_exhaustive]
#[derive(Clone, Copy, Debug, PartialEq, Eq, Structural, Hash)]
pub enum StackError {
    /// A value was wanted from a stack that held none.
    EmptyStack,
    /// The value on the stack was of another kind than the one wanted.
    WrongConstant,
}

impl StackError {
    /// The message that describes the error.
    pub fn to_string(&self) -> (s: String)
        ensures
            s@ == (match self {
                StackError::EmptyStack => "empty stack"@,
                StackError::WrongConstant => "wrong constant"@,
            }),
    {
        match self {
            StackError::EmptyStack => "empty stack".to_owned(),
            StackError::WrongConstant => "wrong constant".to_owned(),
        }
    }
}

/// A value on the instruction stack.
#[derive(Clone, Copy, Debug, PartialEq, Eq, Structural)]
pub enum Constant {
    Entity(EntityId),
    Float(FloatBits),
    Transform(TransformBits),
}

impl From<EntityId> for Constant {
    fn from(value: EntityId) -> (c: Constant) {
        Constant::Entity(value)
    }
}

impl FromSpecImpl<EntityId> for Constant {
    open spec fn obeys_from_spec() -> bool {
        true
    }

    open spec fn from_spec(v: EntityId) -> Constant {
        Constant::Entity(v)
    }
}

impl From<FloatBits> for Constant {
    fn from(value: FloatBits) -> (c: Constant) {
        Constant::Float(value)
    }
}

impl FromSpecImpl<FloatBits> for Constant {
    open spec fn obeys_from_spec() -> bool {
        true
    }

    open spec fn from_spec(v: FloatBits) -> Constant {
        Constant::Float(v)
    }
}

impl From<TransformBits> for Constant {
    fn from(value: TransformBits) -> (c: Constant) {
        Constant::Transform(value)
    }
}

impl FromSpecImpl<TransformBits> for Constant {
    open spec fn obeys_from_spec() -> bool {
        true
    }

    open spec fn from_spec(v: TransformBits) -> Constant {
        Constant::Transform(v)
    }
}

impl TryFrom<Constant> for EntityId {
    type Error = StackError;

    fn try_from(value: Constant) -> (r: Result<EntityId, StackError>) {
        match value {
            Constant::Entity(v) => Ok(v),
            _ => Err(StackError::WrongConstant),
        }
    }
}

impl TryFromSpecImpl<Constant> for EntityId {
    open spec fn obeys_try_from_spec() -> bool {
        true
    }

    open spec fn try_from_spec(v: Constant) -> Result<EntityId, StackError> {
        match v {
            Constant::Entity(e) => Ok(e),
            _ => Err(StackError::WrongConstant),
        }
    }
}


impl TryFrom<Constant> for FloatBits {
    type Error = StackError;

    fn try_from(value: Constant) -> (r: Result<FloatBits, StackError>) {
        match value {
            Constant::Float(v) => Ok(v),
            _ => Err(StackError::WrongConstant),
        }
    }
}

impl TryFromSpecImpl<Constant> for FloatBits {
    open spec fn obeys_try_from_spec() -> bool {
        true
    }

    open spec fn try_from_spec(v: Constant) -> Result<FloatBits, StackError> {
        match v {
            Constant::Float(f) => Ok(f),
            _ => Err(StackError::WrongConstant),
        }
    }
}

impl TryFrom<Constant> for TransformBits {
    type Error = StackError;

    fn try_from(value: Constant) -> (r: Result<TransformBits, StackError>) {
        match value {
            Constant::Transform(v) => Ok(v),
            _ => Err(StackError::WrongConstant),
        }
    }
}

impl TryFromSpecImpl<Constant> for TransformBits {
    open spec fn obeys_try_from_spec() -> bool {
        true
    }

    open spec fn try_from_spec(v: Constant) -> Result<TransformBits, StackError> {
        match v {
            Constant::Transform(t) => Ok(t),
            _ => Err(StackError::WrongConstant),
        }
    }
}

/// One step of a program that the game logic hands to the world.
#[derive(Clone, Debug, PartialEq, Eq)]
pub enum Instruction {
    /// Push the entity that has this name.
    Lookup(String),
    /// Push this value.
    Push(Constant),
    /// Replace the entity on top of the stack by its placement.
    GetTransform,
    /// Pop a duration, a target placement and an entity: move the entity there.
    MoveTo,
    /// Pop a new parent and an entity: give the entity that parent, keeping it in place.
    ReparentInPlace,
    /// Pop an entity: take its decoration away.
    RemoveDecoration,
}

/// An instruction as a value of the specification, its name by its characters.
pub enum InstructionView {
    Lookup(Seq<char>),
    Push(Constant),
    GetTransform,
    MoveTo,
    ReparentInPlace,
    RemoveDecoration,
}

impl DeepView for Instruction {
    type V = InstructionView;

    open spec fn deep_view(&self) -> InstructionView {
        match self {
            Instruction::Lookup(name) => InstructionView::Lookup(name@),
            Instruction::Push(c) => InstructionView::Push(*c),
            Instruction::GetTransform => InstructionView::GetTransform,
            Instruction::MoveTo => InstructionView::MoveTo,
            Instruction::ReparentInPlace => InstructionView::ReparentInPlace,
            Instruction::RemoveDecoration => InstructionView::RemoveDecoration,
        }
    }
}

/// The stack of values that a program works on.
pub struct Stack {
    items: Vec<Constant>,
}

impl View for Stack {
    type V = Seq<Constant>;

    closed spec fn view(&self) -> Seq<Constant> {
        self.items@
    }
}

impl Default for Stack {
    fn default() -> (s: Stack)
        ensures
            s@ == Seq::<Constant>::empty(),
    {
        Stack { items: Vec::new() }
    }
}

/// What taking the top value off `stack` and converting it gives: the stack that remains
/// and the value, or the error.
pub open spec fn spec_pop_as<A: TryFrom<Constant, Error = StackError>>(stack: Seq<Constant>) -> (Seq<Constant>, Result<A, StackError>) {
    if stack.len() == 0 {
        (stack, Err(StackError::EmptyStack))
    } else {
        (stack.drop_last(), A::try_from_spec(stack.last()))
    }
}

/// What taking two values off `stack` gives: the top one converted to `B`, then the one
/// below it converted to `A`, stopping at the first error, with what remains of the stack.
pub open spec fn spec_pop2_as<A: TryFrom<Constant, Error = StackError>, B: TryFrom<Constant, Error = StackError>>(stack: Seq<Constant>) -> (Seq<Constant>, Result<(A, B), StackError>) {
    let (s1, rb) = spec_pop_as::<B>(stack);
    match rb {
        Err(e) => (s1, Err(e)),
        Ok(b) => {
            let (s2, ra) = spec_pop_as::<A>(s1);
            match ra {
                Err(e) => (s2, Err(e)),
                Ok(a) => (s2, Ok((a, b))),
            }
        },
    }
}

/// What taking three values off `stack` gives: the top one converted to `C`, then `B`,
/// then `A`, stopping at the first error, with what remains of the stack.
pub open spec fn spec_pop3_as<A: TryFrom<Constant, Error = StackError>, B: TryFrom<Constant, Error = StackError>, C: TryFrom<Constant, Error = StackError>>(stack: Seq<Constant>) -> (Seq<Constant>, Result<(A, B, C), StackError>) {
    let (s1, rc) = spec_pop_as::<C>(stack);
    match rc {
        Err(e) => (s1, Err(e)),
        Ok(c) => {
            let (s2, rab) = spec_pop2_as::<A, B>(s1);
            match rab {
                Err(e) => (s2, Err(e)),
                Ok((a, b)) => (s2, Ok((a, b, c))),
            }
        },
    }
}

impl Stack {
    /// Puts a value on top of the stack.
    pub fn push(&mut self, constant: Constant)
        ensures
            final(self)@ == old(self)@.push(constant),
    {
        self.items.push(constant);
    }

    /// Takes the top value off the stack; `EmptyStack` if there is none.
    pub fn pop(&mut self) -> (r: Result<Constant, StackError>)
        ensures
            old(self)@.len() == 0 ==> r == Err::<Constant, StackError>(StackError::EmptyStack) && final(self)@ == old(self)@,
            old(self)@.len() > 0 ==> r == Ok::<Constant, StackError>(old(self)@.last()) && final(self)@ == old(self)@.drop_last(),
    {
        match self.items.pop() {
            Some(c) => Ok(c),
            None => Err(StackError::EmptyStack),
        }
    }

    /// Takes the top value off the stack and converts it; the value is gone even where
    /// it is of the wrong kind. What the conversion gives is known where `A`'s conversion
    /// follows its specification, as it does for the three kinds of stack values.
    pub fn pop1<A: TryFrom<Constant, Error = StackError>>(&mut self) -> (r: Result<A, StackError>)
        ensures
            final(self)@ == spec_pop_as::<A>(old(self)@).0,
            old(self)@.len() == 0 ==> r == Err::<A, StackError>(StackError::EmptyStack),
            A::obeys_try_from_spec() ==> r == spec_pop_as::<A>(old(self)@).1,
    {
        match self.pop() {
            Err(e) => Err(e),
            Ok(c) => A::try_from(c),
        }
    }

    /// Takes two values off the stack: the top one becomes `B` and the one below it `A`.
    /// Stops at the first error; what was taken until then stays taken.
    /// What the conversions give, and so where the taking stops, is known where both
    /// conversions follow their specifications.
    pub fn pop2<A: TryFrom<Constant, Error = StackError>, B: TryFrom<Constant, Error = StackError>>(&mut self) -> (r: Result<(A, B), StackError>)
        ensures
            old(self)@.len() == 0 ==> r == Err::<(A, B), StackError>(StackError::EmptyStack) && final(self)@ == old(self)@,
            old(self)@.len() < 2 ==> r is Err && final(self)@.len() == 0,
            old(self)@.len() > 0 ==> final(self)@ == old(self)@.take(final(self)@.len() as int)
                && old(self)@.len() - 2 <= final(self)@.len() < old(self)@.len(),
            r is Ok ==> final(self)@ == old(self)@.take(old(self)@.len() - 2),
            A::obeys_try_from_spec() && B::obeys_try_from_spec() ==> (final(self)@, r) == spec_pop2_as::<A, B>(old(self)@),
    {
        let ghost s0 = self@;
        let b = match self.pop1::<B>() {
            Err(e) => {
                assert(s0.len() > 0 ==> self@ =~= s0.take(s0.len() - 1));
                return Err(e);
            },
            Ok(b) => b,
        };
        let ghost s1 = self@;
        assert(s1 =~= s0.take(s0.len() - 1));
        let a = match self.pop1::<A>() {
            Err(e) => {
                assert(s1.len() > 0 ==> self@ =~= s0.take(s0.len() - 2));
                return Err(e);
            },
            Ok(a) => a,
        };
        assert(self@ =~= s0.take(s0.len() - 2));
        Ok((a, b))
    }

    /// Takes three values off the stack: the top one becomes `C`, the next `B` and the
    /// next `A`. Stops at the first error; what was taken until then stays taken.
    /// What the conversions give, and so where the taking stops, is known where all three
    /// conversions follow their specifications.
    pub fn pop3<A: TryFrom<Constant, Error = StackError>, B: TryFrom<Constant, Error = StackError>, C: TryFrom<Constant, Error = StackError>>(&mut self) -> (r: Result<(A, B, C), StackError>)
        ensures
            old(self)@.len() == 0 ==> r == Err::<(A, B, C), StackError>(StackError::EmptyStack) && final(self)@ == old(self)@,
            old(self)@.len() < 3 ==> r is Err,
            old(self)@.len() > 0 ==> final(self)@ == old(self)@.take(final(self)@.len() as int)
                && old(self)@.len() - 3 <= final(self)@.len() < old(self)@.len(),
            r is Ok ==> final(self)@ == old(self)@.take(old(self)@.len() - 3),
            A::obeys_try_from_spec() && B::obeys_try_from_spec() && C::obeys_try_from_spec()
                ==> (final(self)@, r) == spec_pop3_as::<A, B, C>(old(self)@),
    {
        let ghost s0 = self@;
        let c = match self.pop1::<C>() {
            Err(e) => {
                assert(s0.len() > 0 ==> self@ =~= s0.take(s0.len() - 1));
                return Err(e);
            },
            Ok(c) => c,
        };
        let ghost s1 = self@;
        assert(s1 =~= s0.take(s0.len() - 1));
        let (a, b) = match self.pop2::<A, B>() {
            Err(e) => {
                assert(s1.len() > 0 ==> self@ =~= s0.take(self@.len() as int));
                return Err(e);
            },
            Ok(ab) => ab,
        };
        assert(self@ =~= s0.take(s0.len() - 3));
        Ok((a, b, c))
    }
}

} // verus!
