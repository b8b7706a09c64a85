use okto::keyboard::{nop_wait_key_callback, KeyState, Keyboard, WaitKeyResult, NUM_KEYS};

#[test]
fn new_keyboard_has_all_keys_released() {
    let keyboard = Keyboard::new(Box::new(nop_wait_key_callback));
    assert_eq!(16, NUM_KEYS);
    assert_eq!([KeyState::Released; 16], keyboard.keys);
}

#[test]
fn nop_provider_returns_key_zero() {
    let key: WaitKeyResult<u8> = nop_wait_key_callback();
    assert_eq!(Ok(0x00), key);
}

#[test]
fn keys_are_pressed_and_released() {
    let mut keyboard = Keyboard::new(Box::new(nop_wait_key_callback));
    keyboard.key_pressed(0x0);
    keyboard.key_pressed(0xF);
    assert_eq!(KeyState::Pressed, keyboard.keys[0x0]);
    assert_eq!(KeyState::Pressed, keyboard.keys[0xF]);
    assert_eq!([KeyState::Released; 14], keyboard.keys[1..15]);
    keyboard.key_pressed(0xF);
    assert_eq!(KeyState::Pressed, keyboard.keys[0xF]);
    keyboard.key_released(0xF);
    assert_eq!(KeyState::Released, keyboard.keys[0xF]);
    assert_eq!(KeyState::Pressed, keyboard.keys[0x0]);
    keyboard.key_released(0x3);
    assert_eq!(KeyState::Released, keyboard.keys[0x3]);
}

#[test]
fn key_is_compares_the_state_of_existing_keys() {
    let mut keyboard = Keyboard::new(Box::new(nop_wait_key_callback));
    keyboard.key_pressed(0x7);
    assert!(keyboard.key_is(0x7, KeyState::Pressed));
    assert!(!keyboard.key_is(0x7, KeyState::Released));
    assert!(keyboard.key_is(0x8, KeyState::Released));
    assert!(!keyboard.key_is(0x8, KeyState::Pressed));
    // No key has a code above 15.
    assert!(!keyboard.key_is(0x10, KeyState::Pressed));
    assert!(!keyboard.key_is(0x10, KeyState::Released));
    assert!(!keyboard.key_is(0xFF, KeyState::Released));
}
