use scene_core::input::{
    key_direction, unconsumed_action, ControllerInput, KeyCode, LoopAction, MouseButton,
    MoveDirection, WindowEvent,
};

fn key(key: KeyCode, pressed: bool) -> WindowEvent {
    WindowEvent::Key { key, pressed }
}

#[test]
fn keys_map_to_directions() {
    assert_eq!(key_direction(KeyCode::KeyW), Some(MoveDirection::Forward));
    assert_eq!(key_direction(KeyCode::ArrowUp), Some(MoveDirection::Forward));
    assert_eq!(key_direction(KeyCode::KeyS), Some(MoveDirection::Backward));
    assert_eq!(key_direction(KeyCode::ArrowDown), Some(MoveDirection::Backward));
    assert_eq!(key_direction(KeyCode::KeyA), Some(MoveDirection::Left));
    assert_eq!(key_direction(KeyCode::ArrowLeft), Some(MoveDirection::Left));
    assert_eq!(key_direction(KeyCode::KeyD), Some(MoveDirection::Right));
    assert_eq!(key_direction(KeyCode::ArrowRight), Some(MoveDirection::Right));
    assert_eq!(key_direction(KeyCode::Space), Some(MoveDirection::Up));
    assert_eq!(key_direction(KeyCode::ShiftLeft), Some(MoveDirection::Down));
    assert_eq!(key_direction(KeyCode::Escape), None);
    assert_eq!(key_direction(KeyCode::Other), None);
}

#[test]
fn new_controller_is_at_rest() {
    let c = ControllerInput::new();
    for d in [
        MoveDirection::Forward,
        MoveDirection::Backward,
        MoveDirection::Left,
        MoveDirection::Right,
        MoveDirection::Up,
        MoveDirection::Down,
    ] {
        assert!(!c.is_held(d));
    }
    assert!(!c.accepts_pointer_delta());
}

#[test]
fn press_and_release_set_one_direction() {
    let mut c = ControllerInput::new();
    assert!(c.process_events(&key(KeyCode::KeyW, true)));
    assert!(c.is_held(MoveDirection::Forward));
    assert!(!c.is_held(MoveDirection::Backward));
    assert!(c.process_events(&key(KeyCode::ArrowLeft, true)));
    assert!(c.is_held(MoveDirection::Left));
    assert!(c.is_held(MoveDirection::Forward));
    assert!(c.process_events(&key(KeyCode::ArrowUp, false)));
    assert!(!c.is_held(MoveDirection::Forward));
    assert!(c.is_held(MoveDirection::Left));
    assert!(c.process_events(&key(KeyCode::Space, true)));
    assert!(c.process_events(&key(KeyCode::ShiftLeft, true)));
    assert!(c.is_held(MoveDirection::Up));
    assert!(c.is_held(MoveDirection::Down));
}

#[test]
fn other_keys_are_not_consumed() {
    let mut c = ControllerInput::new();
    c.process_events(&key(KeyCode::KeyD, true));
    let before = c;
    assert!(!c.process_events(&key(KeyCode::Other, true)));
    assert!(!c.process_events(&key(KeyCode::Escape, true)));
    assert_eq!(c, before);
}

#[test]
fn left_button_sets_drag_latch() {
    let mut c = ControllerInput::new();
    assert!(c.process_events(&WindowEvent::MouseInput { button: MouseButton::Left, pressed: true }));
    assert!(c.accepts_pointer_delta());
    assert!(!c.process_events(&WindowEvent::MouseInput { button: MouseButton::Right, pressed: false }));
    assert!(c.accepts_pointer_delta());
    assert!(c.process_events(&WindowEvent::MouseInput { button: MouseButton::Left, pressed: false }));
    assert!(!c.accepts_pointer_delta());
}

#[test]
fn wheel_is_consumed_without_change() {
    let mut c = ControllerInput::new();
    let before = c;
    assert!(c.process_events(&WindowEvent::MouseWheel));
    assert_eq!(c, before);
}

#[test]
fn unconsumed_events_drive_the_loop() {
    assert_eq!(unconsumed_action(&WindowEvent::CloseRequested), LoopAction::Exit);
    assert_eq!(unconsumed_action(&key(KeyCode::Escape, true)), LoopAction::Exit);
    assert_eq!(unconsumed_action(&key(KeyCode::Escape, false)), LoopAction::Nothing);
    assert_eq!(
        unconsumed_action(&WindowEvent::Resized { width: 800, height: 600 }),
        LoopAction::Resize { width: 800, height: 600 }
    );
    assert_eq!(unconsumed_action(&WindowEvent::RedrawRequested), LoopAction::Redraw);
    assert_eq!(unconsumed_action(&WindowEvent::Other), LoopAction::Nothing);
}

#[test]
fn handle_event_gives_controller_priority() {
    let mut c = ControllerInput::new();
    assert_eq!(c.handle_event(&key(KeyCode::KeyS, true)), LoopAction::Nothing);
    assert!(c.is_held(MoveDirection::Backward));
    assert_eq!(c.handle_event(&key(KeyCode::Escape, true)), LoopAction::Exit);
    assert_eq!(c.handle_event(&WindowEvent::RedrawRequested), LoopAction::Redraw);
    assert!(c.is_held(MoveDirection::Backward));
}
