use defendio::input_manager::action::{
    InputAction, InputActionMap, InputActionTrigger, KEY_A, KEY_D, KEY_S, KEY_W, MOUSE_LEFT,
};
use defendio::input_manager::action_state::{
    default_actions, keyboard_input_system, InputActionData, InputActionState,
    InputActionTriggerState,
};

#[test]
fn trigger_state_tick() {
    let cases = [
        (InputActionTriggerState::JustPressed, InputActionTriggerState::Pressed),
        (InputActionTriggerState::Pressed, InputActionTriggerState::Pressed),
        (InputActionTriggerState::JustReleased, InputActionTriggerState::Released),
        (InputActionTriggerState::Released, InputActionTriggerState::Released),
    ];
    for (from, to) in cases {
        let mut s = from;
        s.tick();
        assert_eq!(s, to);
    }
}

#[test]
fn trigger_state_press_and_release() {
    let all = [
        InputActionTriggerState::Pressed,
        InputActionTriggerState::JustPressed,
        InputActionTriggerState::Released,
        InputActionTriggerState::JustReleased,
    ];
    for from in all {
        let mut p = from;
        p.press();
        if from == InputActionTriggerState::Pressed {
            assert_eq!(p, InputActionTriggerState::Pressed);
        } else {
            assert_eq!(p, InputActionTriggerState::JustPressed);
        }
        let mut r = from;
        r.release();
        if from == InputActionTriggerState::Released {
            assert_eq!(r, InputActionTriggerState::Released);
        } else {
            assert_eq!(r, InputActionTriggerState::JustReleased);
        }
    }
}

#[test]
fn trigger_state_queries() {
    let s = InputActionTriggerState::JustPressed;
    assert!(s.pressed() && s.just_pressed() && !s.released() && !s.just_released());
    let s = InputActionTriggerState::Pressed;
    assert!(s.pressed() && !s.just_pressed() && !s.released() && !s.just_released());
    let s = InputActionTriggerState::JustReleased;
    assert!(!s.pressed() && !s.just_pressed() && s.released() && s.just_released());
    let s = InputActionTriggerState::Released;
    assert!(!s.pressed() && !s.just_pressed() && s.released() && !s.just_released());
}

#[test]
fn action_indices() {
    let all = [
        InputAction::Left,
        InputAction::Right,
        InputAction::Up,
        InputAction::Down,
        InputAction::Select,
    ];
    for (i, action) in all.iter().enumerate() {
        assert_eq!(action.to_index(), i);
        assert_eq!(InputAction::try_from_index(i as u8), Some(*action));
    }
    assert_eq!(InputAction::try_from_index(5), None);
    assert_eq!(InputAction::try_from_index(255), None);
}

#[test]
fn default_slots_are_released() {
    let slots = default_actions();
    assert_eq!(slots.len(), 16);
    let untouched = InputActionData { state: InputActionTriggerState::Released, consumed: false };
    assert!(slots.iter().all(|d| *d == untouched));
    assert_eq!(InputActionData::default(), untouched);
    let state = InputActionState::default();
    assert!(state.released(InputAction::Left) && !state.just_released(InputAction::Left));
}

#[test]
fn triggers_from_codes() {
    assert_eq!(InputActionTrigger::from(7u32), InputActionTrigger::KeyCode(7));
    assert_eq!(InputActionTrigger::from(2u16), InputActionTrigger::MouseButton(2));
}

#[test]
fn default_map_binds_wasd_and_left_button() {
    let map = InputActionMap::default();
    assert_eq!(
        map.bindings,
        vec![
            (InputAction::Left, InputActionTrigger::KeyCode(KEY_A)),
            (InputAction::Right, InputActionTrigger::KeyCode(KEY_D)),
            (InputAction::Up, InputActionTrigger::KeyCode(KEY_W)),
            (InputAction::Down, InputActionTrigger::KeyCode(KEY_S)),
            (InputAction::Select, InputActionTrigger::MouseButton(MOUSE_LEFT)),
        ]
    );
}

#[test]
fn get_states_marks_held_actions() {
    let map = InputActionMap::default();
    let states = map.get_states(&vec![KEY_D, 99], &vec![MOUSE_LEFT]);
    let untouched = InputActionData { state: InputActionTriggerState::Released, consumed: false };
    let held = InputActionData { state: InputActionTriggerState::JustPressed, consumed: false };
    assert_eq!(states[0], untouched);
    assert_eq!(states[1], held);
    assert_eq!(states[2], untouched);
    assert_eq!(states[3], untouched);
    assert_eq!(states[4], held);
    for s in &states[5..] {
        assert_eq!(*s, untouched);
    }
}

#[test]
fn press_hold_release_over_frames() {
    let map = InputActionMap::default();
    let mut state = InputActionState::default();
    let none_k: Vec<u32> = vec![];
    let none_b: Vec<u16> = vec![];
    keyboard_input_system(&mut state, &map, &vec![KEY_A], &none_b);
    assert!(state.just_pressed(InputAction::Left) && state.pressed(InputAction::Left));
    assert!(state.released(InputAction::Right) && !state.just_released(InputAction::Right));
    keyboard_input_system(&mut state, &map, &vec![KEY_A], &none_b);
    assert!(state.pressed(InputAction::Left) && !state.just_pressed(InputAction::Left));
    keyboard_input_system(&mut state, &map, &none_k, &none_b);
    assert!(state.just_released(InputAction::Left) && state.released(InputAction::Left));
    keyboard_input_system(&mut state, &map, &none_k, &none_b);
    assert!(state.released(InputAction::Left) && !state.just_released(InputAction::Left));
}

#[test]
fn consumed_action_waits_for_release() {
    let map = InputActionMap::default();
    let mut state = InputActionState::default();
    let none_k: Vec<u32> = vec![];
    let none_b: Vec<u16> = vec![];
    keyboard_input_system(&mut state, &map, &none_k, &vec![MOUSE_LEFT]);
    assert!(state.just_pressed(InputAction::Select));
    state.consume(InputAction::Select);
    assert!(state.just_released(InputAction::Select));
    keyboard_input_system(&mut state, &map, &none_k, &vec![MOUSE_LEFT]);
    assert!(state.released(InputAction::Select) && !state.pressed(InputAction::Select));
    keyboard_input_system(&mut state, &map, &none_k, &none_b);
    assert!(state.released(InputAction::Select));
    keyboard_input_system(&mut state, &map, &none_k, &vec![MOUSE_LEFT]);
    assert!(state.just_pressed(InputAction::Select));
}

#[test]
fn update_presses_and_releases() {
    let mut state = InputActionState::default();
    let mut next = default_actions();
    next[2].state = InputActionTriggerState::Pressed;
    next[3].state = InputActionTriggerState::JustPressed;
    next[7].state = InputActionTriggerState::JustPressed;
    state.update(next);
    assert!(state.just_pressed(InputAction::Up));
    assert!(state.just_pressed(InputAction::Down));
    assert!(state.released(InputAction::Left));
    state.press(InputAction::Left);
    assert!(state.just_pressed(InputAction::Left));
    state.release(InputAction::Left);
    assert!(state.just_released(InputAction::Left));
}
