use smos::enum_define::{ControlKey, Key, KeyBoardMapper};

fn character_of(key: Key) -> Option<u8> {
    match key {
        Key::Character(c) => Some(c),
        _ => None,
    }
}

#[test]
fn first_mapper_letters_and_shift() {
    let mut m = KeyBoardMapper::new();
    assert_eq!(character_of(m.scancode_to_char(0x1e)), Some(b'a'));
    assert!(matches!(m.scancode_to_char(0x2a), Key::Nothing));
    assert_eq!(character_of(m.scancode_to_char(0x1e)), Some(b'A'));
    assert_eq!(character_of(m.scancode_to_char(0x0d)), Some(b'+'));
    assert!(matches!(m.scancode_to_char(0xaa), Key::Nothing));
    assert_eq!(character_of(m.scancode_to_char(0x0d)), Some(b'='));
}

#[test]
fn first_mapper_caps_lock_twice() {
    let mut m = KeyBoardMapper::new();
    assert!(matches!(m.scancode_to_char(0x3a), Key::Nothing));
    assert_eq!(character_of(m.scancode_to_char(0x2c)), Some(b'Z'));
    m.scancode_to_char(0x36);
    assert_eq!(character_of(m.scancode_to_char(0x2c)), Some(b'z'));
    m.scancode_to_char(0xb6);
    m.scancode_to_char(0x3a);
    assert_eq!(character_of(m.scancode_to_char(0x2c)), Some(b'z'));
}

#[test]
fn first_mapper_control_bytes() {
    let mut m = KeyBoardMapper::new();
    assert!(matches!(m.scancode_to_char(0x01), Key::Control(ControlKey::ESC)));
    assert_eq!(character_of(m.scancode_to_char(0x0e)), Some(8));
    assert_eq!(character_of(m.scancode_to_char(0x0f)), Some(b'\t'));
    assert_eq!(character_of(m.scancode_to_char(0x1c)), Some(b'\n'));
    assert_eq!(character_of(m.scancode_to_char(0x39)), Some(b' '));
    assert!(matches!(m.scancode_to_char(0x3b), Key::Nothing));
    assert!(matches!(m.scancode_to_char(0x58), Key::Nothing));
}

#[test]
fn first_mapper_right_ctrl_and_alt_after_prefix() {
    let mut m = KeyBoardMapper::new();
    assert!(matches!(m.scancode_to_char(0x1d), Key::Control(ControlKey::LCTRL)));
    assert!(matches!(m.scancode_to_char(0xe0), Key::Nothing));
    assert!(matches!(m.scancode_to_char(0x1d), Key::Control(ControlKey::RCTRL)));
    assert!(matches!(m.scancode_to_char(0x38), Key::Control(ControlKey::LALT)));
    m.scancode_to_char(0xe0);
    assert!(matches!(m.scancode_to_char(0x38), Key::Control(ControlKey::RALT)));
    assert!(matches!(m.scancode_to_char(0x1d), Key::Control(ControlKey::LCTRL)));
}

#[test]
fn first_mapper_prefix_waits_for_ctrl_or_alt() {
    let mut m = KeyBoardMapper::new();
    m.scancode_to_char(0xe0);
    assert_eq!(character_of(m.scancode_to_char(0x1e)), Some(b'a'));
    assert!(matches!(m.scancode_to_char(0x38), Key::Control(ControlKey::RALT)));
}

#[test]
fn first_mapper_break_codes_give_nothing() {
    let mut m = KeyBoardMapper::new();
    for sc in 0x80u16..=0xff {
        assert!(matches!(m.scancode_to_char(sc as u8), Key::Nothing));
    }
}
