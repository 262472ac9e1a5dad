use puzzle::logic::action::{Constant, EntityId, FloatBits, Instruction, StackError, TransformBits, Vec3Bits};
use puzzle::logic::check::{check_logic, run_actions, Effect, RunError, WorldIndex};
use puzzle::logic::message::LogicMessage;
use puzzle::logic::state::{
    LogicState, RingSnap, ENDCAP_OPEN_X, PLACEHOLDER_ENTITY, SECS_ENTER_PUZZLE, SECS_ENTER_ZONE,
    SECS_HALF, SECS_LEAVE_ZONE, SECS_RING_SNAP,
};

fn lookup(name: &str) -> Instruction {
    Instruction::Lookup(name.to_string())
}

fn secs(x: f32) -> Instruction {
    Instruction::Push(Constant::Float(FloatBits(x.to_bits())))
}

fn zone_move(zone: &str, duration: f32) -> Vec<Instruction> {
    vec![lookup("camera"), lookup(zone), Instruction::GetTransform, secs(duration), Instruction::MoveTo]
}

fn placed_at(x: f32) -> TransformBits {
    TransformBits::from_translation(Vec3Bits { x: x.to_bits(), y: 0, z: 0 })
}

fn snap(position: isize) -> RingSnap {
    RingSnap { position, transform: placed_at(position as f32) }
}

fn ring_move(name: &str, position: isize) -> Vec<Instruction> {
    vec![
        lookup(name),
        Instruction::Push(Constant::Transform(placed_at(position as f32))),
        secs(0.1),
        Instruction::MoveTo,
    ]
}

fn started() -> LogicState {
    let mut state = LogicState::default();
    state.created(EntityId(100));
    state
}

#[test]
fn durations_are_the_bits_of_their_seconds() {
    assert_eq!(SECS_ENTER_PUZZLE, 1.0f32.to_bits());
    assert_eq!(SECS_ENTER_ZONE, 4.0f32.to_bits());
    assert_eq!(SECS_LEAVE_ZONE, 2.0f32.to_bits());
    assert_eq!(SECS_HALF, 0.5f32.to_bits());
    assert_eq!(SECS_RING_SNAP, 0.1f32.to_bits());
    assert_eq!(ENDCAP_OPEN_X, (-4.0f32).to_bits());
}

#[test]
fn placeholder_is_the_bits_of_the_placeholder_entity() {
    assert_eq!(PLACEHOLDER_ENTITY, bevy::ecs::entity::Entity::PLACEHOLDER.to_bits());
}

#[test]
fn default_state() {
    let state = LogicState::default();
    assert_eq!(state.puzzle_id(), EntityId(PLACEHOLDER_ENTITY));
    assert_eq!(state.current_zone(), "");
    assert!(!state.got_key());
    assert_eq!(state.codex_rings(), [0, 0, 0, 0]);
    assert!(!state.codex_unlocked());
}

#[test]
fn created_goes_to_main_zone() {
    let mut state = LogicState::default();
    let actions = state.created(EntityId(100));
    assert_eq!(actions, zone_move("z-main", 1.0));
    assert_eq!(state.puzzle_id(), EntityId(100));
    assert_eq!(state.current_zone(), "z-main");
}

#[test]
fn primary_click_on_side_zone_enters_it() {
    for zone in ["z-hanging-key", "z-painting", "z-chest", "z-cryptex"] {
        let mut state = started();
        let actions = state.clicked(EntityId(5), zone, true);
        assert_eq!(actions, zone_move(zone, 4.0));
        assert_eq!(state.current_zone(), zone);
    }
}

#[test]
fn primary_click_elsewhere_does_nothing() {
    let mut state = started();
    assert_eq!(state.clicked(EntityId(5), "i-key", true), vec![]);
    assert_eq!(state.clicked(EntityId(5), "z-main", true), vec![]);
    assert_eq!(state.current_zone(), "z-main");
    // from a side zone, another side zone cannot be entered directly
    state.clicked(EntityId(5), "z-chest", true);
    assert_eq!(state.clicked(EntityId(5), "z-painting", true), vec![]);
    assert_eq!(state.current_zone(), "z-chest");
}

#[test]
fn secondary_click_in_side_zone_goes_back() {
    let mut state = started();
    state.clicked(EntityId(5), "z-painting", true);
    let actions = state.clicked(EntityId(5), "anything", false);
    assert_eq!(actions, zone_move("z-main", 2.0));
    assert_eq!(state.current_zone(), "z-main");
    // in the main zone a secondary click does nothing
    assert_eq!(state.clicked(EntityId(5), "anything", false), vec![]);
}

#[test]
fn key_is_taken_once() {
    let mut state = started();
    state.clicked(EntityId(5), "z-hanging-key", true);
    let actions = state.clicked(EntityId(6), "i-key", true);
    assert_eq!(
        actions,
        vec![
            lookup("i-key"),
            lookup("camera"),
            Instruction::ReparentInPlace,
            lookup("i-key"),
            Instruction::RemoveDecoration,
            lookup("i-key"),
            lookup("hand"),
            Instruction::GetTransform,
            secs(0.5),
            Instruction::MoveTo,
        ]
    );
    assert!(state.got_key());
    assert_eq!(state.clicked(EntityId(6), "i-key", true), vec![]);
}

#[test]
fn key_cannot_be_taken_from_main_zone() {
    let mut state = started();
    assert_eq!(state.clicked(EntityId(6), "i-key", true), vec![]);
    assert!(!state.got_key());
}

#[test]
fn dragging_a_ring_stores_its_step() {
    let mut state = started();
    let actions = state.dragged(EntityId(7), "i-ring2", snap(10));
    assert_eq!(actions, ring_move("i-ring2", 10));
    assert_eq!(state.codex_rings(), [0, 0, 3, 0]);
}

#[test]
fn dragging_something_else_does_nothing() {
    let mut state = started();
    assert_eq!(state.dragged(EntityId(7), "i-painting", snap(5)), vec![]);
    assert_eq!(state.codex_rings(), [0, 0, 0, 0]);
}

#[test]
fn ring_without_number_does_nothing() {
    let mut state = started();
    assert_eq!(state.dragged(EntityId(7), "i-ring", snap(5)), vec![]);
    assert_eq!(state.dragged(EntityId(7), "i-ringX", snap(5)), vec![]);
    assert_eq!(state.codex_rings(), [0, 0, 0, 0]);
}

#[test]
fn negative_step_is_stored_as_rust_remainder() {
    let mut state = started();
    state.dragged(EntityId(7), "i-ring0", snap(-8));
    assert_eq!(state.codex_rings(), [((-8isize) % 7) as usize, 0, 0, 0]);
}

#[test]
fn solving_the_rings_opens_the_cryptex_once() {
    let mut state = started();
    state.dragged(EntityId(7), "i-ring0", snap(8));
    state.dragged(EntityId(7), "i-ring1", snap(9));
    state.dragged(EntityId(7), "i-ring2", snap(3));
    let actions = state.dragged(EntityId(7), "i-ring3", snap(4));
    let mut expected = vec![
        lookup("i-endcap"),
        Instruction::Push(Constant::Transform(placed_at(-4.0))),
        secs(0.5),
        Instruction::MoveTo,
    ];
    expected.extend(ring_move("i-ring3", 4));
    assert_eq!(actions, expected);
    assert_eq!(state.codex_rings(), [1, 2, 3, 4]);
    assert!(state.codex_unlocked());
    // moving a ring away and back does not open it again
    state.dragged(EntityId(7), "i-ring3", snap(5));
    assert_eq!(state.dragged(EntityId(7), "i-ring3", snap(4)), ring_move("i-ring3", 4));
    assert!(state.codex_unlocked());
}

fn world() -> WorldIndex {
    WorldIndex {
        named: vec![
            ("camera".to_string(), EntityId(1)),
            ("z-main".to_string(), EntityId(2)),
            ("hand".to_string(), EntityId(3)),
            ("i-key".to_string(), EntityId(4)),
            ("z-main".to_string(), EntityId(99)),
        ],
        placed: vec![(EntityId(2), placed_at(2.0)), (EntityId(3), placed_at(3.0)), (EntityId(2), placed_at(9.0))],
    }
}

#[test]
fn run_zone_move() {
    let (effects, outcome) = run_actions(&zone_move("z-main", 1.0), &world());
    assert_eq!(outcome, Ok(()));
    assert_eq!(
        effects,
        vec![Effect::MoveTo { entity: EntityId(1), target: placed_at(2.0), duration: FloatBits(1.0f32.to_bits()) }]
    );
}

#[test]
fn run_key_program() {
    let mut state = started();
    state.clicked(EntityId(5), "z-hanging-key", true);
    let actions = state.clicked(EntityId(6), "i-key", true);
    let (effects, outcome) = run_actions(&actions, &world());
    assert_eq!(outcome, Ok(()));
    assert_eq!(
        effects,
        vec![
            Effect::ReparentInPlace { entity: EntityId(4), new_parent: EntityId(1) },
            Effect::RemoveDecoration { entity: EntityId(4) },
            Effect::MoveTo { entity: EntityId(4), target: placed_at(3.0), duration: FloatBits(0.5f32.to_bits()) },
        ]
    );
}

#[test]
fn run_stops_at_unknown_name_keeping_earlier_effects() {
    let mut actions = vec![lookup("i-key"), Instruction::RemoveDecoration];
    actions.extend(zone_move("z-nowhere", 1.0));
    let (effects, outcome) = run_actions(&actions, &world());
    assert_eq!(effects, vec![Effect::RemoveDecoration { entity: EntityId(4) }]);
    assert_eq!(outcome, Err(RunError::NoEntityNamed("z-nowhere".to_string())));
}

#[test]
fn run_stops_at_missing_placement() {
    let (effects, outcome) = run_actions(&zone_move("i-key", 1.0), &world());
    assert_eq!(effects, vec![]);
    assert_eq!(outcome, Err(RunError::NoTransform(EntityId(4))));
}

#[test]
fn run_stops_at_stack_error() {
    let (effects, outcome) = run_actions(&vec![Instruction::MoveTo], &world());
    assert_eq!(effects, vec![]);
    assert_eq!(outcome, Err(RunError::Stack(StackError::EmptyStack)));
    let (_, outcome) = run_actions(&vec![secs(1.0), Instruction::ReparentInPlace], &world());
    assert_eq!(outcome, Err(RunError::Stack(StackError::WrongConstant)));
}

#[test]
fn check_logic_ignores_clicks_while_resting() {
    let mut state = started();
    let messages = vec![(LogicMessage::Clicked(EntityId(5), true), "z-chest".to_string())];
    let (actions, acted) = check_logic(&mut state, &messages, true);
    assert_eq!(actions, vec![]);
    assert!(!acted);
    assert_eq!(state.current_zone(), "z-main");
}

#[test]
fn check_logic_rests_after_a_program() {
    let mut state = started();
    let messages = vec![
        (LogicMessage::Clicked(EntityId(5), true), "z-chest".to_string()),
        (LogicMessage::Clicked(EntityId(5), false), "?".to_string()),
    ];
    let (actions, acted) = check_logic(&mut state, &messages, false);
    assert_eq!(actions, zone_move("z-chest", 4.0));
    assert!(acted);
    assert_eq!(state.current_zone(), "z-chest");
}

#[test]
fn check_logic_answers_creation_even_while_resting() {
    let mut state = LogicState::default();
    let messages = vec![
        (LogicMessage::CreatedPuzzle(EntityId(100)), "Puzzle".to_string()),
        (LogicMessage::Dragged(EntityId(7)), "i-ring0".to_string()),
    ];
    let (actions, acted) = check_logic(&mut state, &messages, true);
    assert_eq!(actions, zone_move("z-main", 1.0));
    assert!(acted);
    assert_eq!(state.codex_rings(), [0, 0, 0, 0]);
}

#[test]
fn check_logic_with_nothing_to_answer() {
    let mut state = started();
    let messages = vec![(LogicMessage::Clicked(EntityId(5), true), "?".to_string())];
    let (actions, acted) = check_logic(&mut state, &messages, false);
    assert_eq!(actions, vec![]);
    assert!(!acted);
}

#[test]
fn check_logic_ignores_a_batch_while_resting() {
    let mut state = started();
    state.clicked(EntityId(5), "z-hanging-key", true);
    let messages = vec![
        (LogicMessage::Clicked(EntityId(6), true), "i-key".to_string()),
        (LogicMessage::Dragged(EntityId(7)), "i-ring0".to_string()),
        (LogicMessage::Clicked(EntityId(5), false), "?".to_string()),
    ];
    let (actions, acted) = check_logic(&mut state, &messages, true);
    assert_eq!(actions, vec![]);
    assert!(!acted);
    assert!(!state.got_key());
    assert_eq!(state.current_zone(), "z-hanging-key");
}

#[test]
fn check_logic_answers_only_the_first_answered_click() {
    let mut state = started();
    let messages = vec![
        (LogicMessage::Clicked(EntityId(5), true), "i-key".to_string()),
        (LogicMessage::Clicked(EntityId(5), true), "z-hanging-key".to_string()),
        (LogicMessage::Clicked(EntityId(6), true), "i-key".to_string()),
        (LogicMessage::Clicked(EntityId(5), false), "?".to_string()),
    ];
    let (actions, acted) = check_logic(&mut state, &messages, false);
    assert_eq!(actions, zone_move("z-hanging-key", 4.0));
    assert!(acted);
    assert!(!state.got_key());
    assert_eq!(state.current_zone(), "z-hanging-key");
}

#[test]
fn logic_state_can_be_printed() {
    let state = started();
    let text = format!("{:?}", state);
    assert!(text.contains("z-main"));
}

#[test]
fn opening_move_gives_eight_instructions_others_four() {
    let mut state = started();
    assert_eq!(state.dragged(EntityId(7), "i-ring0", snap(1)).len(), 4);
    assert_eq!(state.dragged(EntityId(7), "i-ring1", snap(2)).len(), 4);
    assert_eq!(state.dragged(EntityId(7), "i-ring2", snap(3)).len(), 4);
    let opening = state.dragged(EntityId(7), "i-ring3", snap(4));
    assert_eq!(opening.len(), 8);
    assert_eq!(opening[0], lookup("i-endcap"));
    assert_eq!(state.dragged(EntityId(7), "i-ring3", snap(4)).len(), 4);
}

#[test]
fn creation_is_answered_and_later_clicks_skipped() {
    let mut state = LogicState::default();
    let messages = vec![
        (LogicMessage::Clicked(EntityId(5), true), "z-chest".to_string()),
        (LogicMessage::CreatedPuzzle(EntityId(100)), "Puzzle".to_string()),
        (LogicMessage::Clicked(EntityId(5), true), "z-chest".to_string()),
    ];
    let (actions, acted) = check_logic(&mut state, &messages, false);
    assert_eq!(actions, zone_move("z-main", 1.0));
    assert!(acted);
    assert_eq!(state.current_zone(), "z-main");
}
