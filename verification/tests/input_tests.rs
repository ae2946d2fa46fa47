use render_core::bits::Vec2Bits;
use render_core::input_manager::{
    InputManager, InputSettings, KEY_BACKWARD, KEY_DOWN, KEY_FORWARD, KEY_LEFT, KEY_RIGHT, KEY_UP,
};

fn v2(x: f32, y: f32) -> Vec2Bits {
    Vec2Bits { x: x.to_bits(), y: y.to_bits() }
}

#[test]
fn key_presses_drive_their_axes() {
    let mut input = InputManager::new(&InputSettings::default());
    assert_eq!(input.move_vector().x, 0);
    assert_eq!(input.move_vector().y, 0);
    assert_eq!(input.move_vector().z, 0);

    input.handle_keyboard_input(KEY_RIGHT, true);
    assert_eq!(input.move_vector().x, 1.0f32.to_bits());
    input.handle_keyboard_input(KEY_LEFT, true);
    assert_eq!(input.move_vector().x, (-1.0f32).to_bits());

    input.handle_keyboard_input(KEY_UP, true);
    assert_eq!(input.move_vector().y, 1.0f32.to_bits());
    input.handle_keyboard_input(KEY_DOWN, true);
    assert_eq!(input.move_vector().y, (-1.0f32).to_bits());

    input.handle_keyboard_input(KEY_FORWARD, true);
    assert_eq!(input.move_vector().z, 1.0f32.to_bits());
    input.handle_keyboard_input(KEY_BACKWARD, true);
    assert_eq!(input.move_vector().z, (-1.0f32).to_bits());
}

#[test]
fn releasing_either_key_of_an_axis_clears_it() {
    let mut input = InputManager::new(&InputSettings::default());
    input.handle_keyboard_input(KEY_LEFT, true);
    input.handle_keyboard_input(KEY_FORWARD, true);

    input.handle_keyboard_input(KEY_RIGHT, false);
    assert_eq!(input.move_vector().x, 0);
    assert_eq!(input.move_vector().z, 1.0f32.to_bits());

    input.handle_keyboard_input(KEY_BACKWARD, false);
    assert_eq!(input.move_vector().z, 0);
}

#[test]
fn unbound_keys_change_nothing() {
    let mut input = InputManager::new(&InputSettings::default());
    input.handle_keyboard_input(0xFF, true);
    input.handle_keyboard_input(0xFF, false);
    assert_eq!(input.move_vector().x, 0);
    assert_eq!(input.move_vector().y, 0);
    assert_eq!(input.move_vector().z, 0);
}

#[test]
fn first_move_after_entering_produces_no_delta() {
    let mut input = InputManager::new(&InputSettings::default());
    input.handle_cursor_movement(v2(100.0, 50.0));
    assert_eq!(input.look_delta().x, 0.0f32.to_bits());
    assert_eq!(input.look_delta().y, 0.0f32.to_bits());

    input.handle_cursor_movement(v2(110.0, 46.0));
    assert_eq!(input.look_delta().x, (0.1f32 * (110.0f32 - 100.0f32)).to_bits());
    assert_eq!(input.look_delta().y, (0.1f32 * (46.0f32 - 50.0f32)).to_bits());

    input.handle_cursor_enter();
    input.handle_cursor_movement(v2(500.0, 500.0));
    assert_eq!(input.look_delta().x, 0.0f32.to_bits());
    assert_eq!(input.look_delta().y, 0.0f32.to_bits());
}

#[test]
fn look_delta_is_a_one_tick_impulse() {
    let mut input = InputManager::new(&InputSettings::default());
    input.handle_cursor_movement(v2(0.0, 0.0));
    input.handle_cursor_movement(v2(8.0, 4.0));
    assert_ne!(input.look_delta().x, 0);

    input.late_update();
    assert_eq!(input.look_delta().x, 0);
    assert_eq!(input.look_delta().y, 0);

    // Key events and cursor entries between ticks bring no delta back.
    input.handle_keyboard_input(KEY_FORWARD, true);
    input.handle_cursor_enter();
    input.handle_keyboard_input(KEY_FORWARD, false);
    assert_eq!(input.look_delta().x, 0);
    assert_eq!(input.look_delta().y, 0);
}

#[test]
fn custom_bindings_and_sensitivity_are_honored() {
    let settings = InputSettings {
        look_sensitivity: 0.5f32.to_bits(),
        right_key: 1,
        left_key: 2,
        up_key: 3,
        down_key: 4,
        forward_key: 5,
        backward_key: 6,
    };
    let mut input = InputManager::new(&settings);
    input.handle_keyboard_input(5, true);
    assert_eq!(input.move_vector().z, 1.0f32.to_bits());

    input.handle_cursor_movement(v2(10.0, 10.0));
    input.handle_cursor_movement(v2(12.0, 13.0));
    assert_eq!(input.look_delta().x, (0.5f32 * 2.0f32).to_bits());
    assert_eq!(input.look_delta().y, (0.5f32 * 3.0f32).to_bits());
}
