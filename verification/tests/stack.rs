use puzzle::logic::action::{
    Constant, EntityId, FloatBits, QuatBits, Stack, StackError, TransformBits, Vec3Bits,
};

fn transform(x: f32) -> TransformBits {
    let mut t = TransformBits::identity();
    t.translation = Vec3Bits { x: x.to_bits(), y: 0, z: 0 };
    t
}

#[test]
fn pop_gives_back_what_push_put() {
    let mut stack = Stack::default();
    stack.push(Constant::Entity(EntityId(7)));
    stack.push(Constant::Float(FloatBits(2.5f32.to_bits())));
    assert_eq!(stack.pop(), Ok(Constant::Float(FloatBits(2.5f32.to_bits()))));
    assert_eq!(stack.pop(), Ok(Constant::Entity(EntityId(7))));
    assert_eq!(stack.pop(), Err(StackError::EmptyStack));
}

#[test]
fn pop_on_empty_stack_is_empty_stack_error() {
    let mut stack = Stack::default();
    assert_eq!(stack.pop(), Err(StackError::EmptyStack));
    assert_eq!(stack.pop1::<EntityId>(), Err(StackError::EmptyStack));
}

#[test]
fn pop1_of_wrong_kind_is_wrong_constant_and_consumes() {
    let mut stack = Stack::default();
    stack.push(Constant::Entity(EntityId(1)));
    stack.push(Constant::Float(FloatBits(0)));
    assert_eq!(stack.pop1::<EntityId>(), Err(StackError::WrongConstant));
    // the float was taken even though it was of the wrong kind
    assert_eq!(stack.pop1::<EntityId>(), Ok(EntityId(1)));
}

#[test]
fn pop2_gives_values_in_push_order() {
    let mut stack = Stack::default();
    stack.push(Constant::from(EntityId(1)));
    stack.push(Constant::from(EntityId(2)));
    assert_eq!(stack.pop2::<EntityId, EntityId>(), Ok((EntityId(1), EntityId(2))));
    assert_eq!(stack.pop(), Err(StackError::EmptyStack));
}

#[test]
fn pop3_gives_values_in_push_order() {
    let t = transform(3.0);
    let mut stack = Stack::default();
    stack.push(Constant::from(EntityId(9)));
    stack.push(Constant::from(t));
    stack.push(Constant::from(FloatBits(0.5f32.to_bits())));
    assert_eq!(
        stack.pop3::<EntityId, TransformBits, FloatBits>(),
        Ok((EntityId(9), t, FloatBits(0.5f32.to_bits())))
    );
}

#[test]
fn pop3_with_too_few_values_is_empty_stack() {
    let mut stack = Stack::default();
    stack.push(Constant::from(transform(1.0)));
    stack.push(Constant::from(FloatBits(0)));
    assert_eq!(stack.pop3::<EntityId, TransformBits, FloatBits>(), Err(StackError::EmptyStack));
}

#[test]
fn pop3_stops_at_first_wrong_kind() {
    let mut stack = Stack::default();
    stack.push(Constant::from(EntityId(4)));
    stack.push(Constant::from(EntityId(5)));
    stack.push(Constant::from(FloatBits(0)));
    // the top is a float as wanted, the next is an entity where a transform is wanted
    assert_eq!(stack.pop3::<EntityId, TransformBits, FloatBits>(), Err(StackError::WrongConstant));
    // two values are gone, the bottom one stays
    assert_eq!(stack.pop(), Ok(Constant::Entity(EntityId(4))));
}

#[test]
fn conversions_round_trip() {
    let t = transform(-1.0);
    assert_eq!(EntityId::try_from(Constant::from(EntityId(3))), Ok(EntityId(3)));
    assert_eq!(FloatBits::try_from(Constant::from(FloatBits(42))), Ok(FloatBits(42)));
    assert_eq!(TransformBits::try_from(Constant::from(t)), Ok(t));
    assert_eq!(EntityId::try_from(Constant::from(t)), Err(StackError::WrongConstant));
    assert_eq!(FloatBits::try_from(Constant::from(EntityId(3))), Err(StackError::WrongConstant));
    assert_eq!(TransformBits::try_from(Constant::from(FloatBits(1))), Err(StackError::WrongConstant));
}

#[test]
fn stack_error_messages() {
    assert_eq!(StackError::EmptyStack.to_string(), "empty stack");
    assert_eq!(StackError::WrongConstant.to_string(), "wrong constant");
}

#[test]
fn identity_transform_is_bits_of_unit_values() {
    let t = TransformBits::identity();
    assert_eq!(t.translation, Vec3Bits { x: 0.0f32.to_bits(), y: 0.0f32.to_bits(), z: 0.0f32.to_bits() });
    assert_eq!(
        t.rotation,
        QuatBits { x: 0.0f32.to_bits(), y: 0.0f32.to_bits(), z: 0.0f32.to_bits(), w: 1.0f32.to_bits() }
    );
    assert_eq!(t.scale, Vec3Bits { x: 1.0f32.to_bits(), y: 1.0f32.to_bits(), z: 1.0f32.to_bits() });
}

#[test]
fn pop2_on_one_value_fails_and_empties_the_stack() {
    let mut stack = Stack::default();
    stack.push(Constant::from(EntityId(1)));
    assert_eq!(stack.pop2::<EntityId, EntityId>(), Err(StackError::EmptyStack));
    assert_eq!(stack.pop(), Err(StackError::EmptyStack));

    let mut stack = Stack::default();
    stack.push(Constant::from(FloatBits(0)));
    assert_eq!(stack.pop2::<EntityId, EntityId>(), Err(StackError::WrongConstant));
    assert_eq!(stack.pop(), Err(StackError::EmptyStack));
}
