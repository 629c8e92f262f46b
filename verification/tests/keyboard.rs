use smos::io::keyboard::{ControlKey, Key, KeyBoardMapper};

fn character(key: Key) -> Option<u8> {
    match key {
        Key::Character(c) => Some(c),
        _ => None,
    }
}

#[test]
fn letters_are_small_by_default() {
    let mut m = KeyBoardMapper::new();
    assert_eq!(character(m.scancode_to_char(0x1e)), Some(b'a'));
    assert_eq!(character(m.scancode_to_char(0x10)), Some(b'q'));
    assert_eq!(character(m.scancode_to_char(0x32)), Some(b'm'));
    assert_eq!(character(m.scancode_to_char(0x02)), Some(b'1'));
}

#[test]
fn shift_gives_capitals_until_released() {
    let mut m = KeyBoardMapper::new();
    assert!(matches!(m.scancode_to_char(0x2a), Key::Control(ControlKey::LSHIFT)));
    assert_eq!(character(m.scancode_to_char(0x1e)), Some(b'A'));
    assert_eq!(character(m.scancode_to_char(0x02)), Some(b'!'));
    assert!(matches!(m.scancode_to_char(0xaa), Key::Nothing));
    assert_eq!(character(m.scancode_to_char(0x1e)), Some(b'a'));
    assert!(matches!(m.scancode_to_char(0x36), Key::Control(ControlKey::RSHIFT)));
    assert_eq!(character(m.scancode_to_char(0x1f)), Some(b'S'));
}

#[test]
fn caps_lock_twice_restores_case() {
    let mut m = KeyBoardMapper::new();
    assert!(matches!(m.scancode_to_char(0x3a), Key::Control(ControlKey::CAPSLOCK)));
    assert_eq!(character(m.scancode_to_char(0x20)), Some(b'D'));
    assert!(matches!(m.scancode_to_char(0x3a), Key::Control(ControlKey::CAPSLOCK)));
    assert_eq!(character(m.scancode_to_char(0x20)), Some(b'd'));
}

#[test]
fn caps_lock_and_shift_cancel() {
    let mut m = KeyBoardMapper::new();
    m.scancode_to_char(0x3a);
    m.scancode_to_char(0x2a);
    assert_eq!(character(m.scancode_to_char(0x1e)), Some(b'a'));
}

#[test]
fn ctrl_or_alt_held_gives_undefined() {
    let mut m = KeyBoardMapper::new();
    assert!(matches!(m.scancode_to_char(0x1d), Key::Control(ControlKey::LCTRL)));
    assert!(matches!(m.scancode_to_char(0x2e), Key::Control(ControlKey::_Undefined)));
    assert!(matches!(m.scancode_to_char(0x9d), Key::Nothing));
    assert_eq!(character(m.scancode_to_char(0x2e)), Some(b'c'));
    assert!(matches!(m.scancode_to_char(0x38), Key::Control(ControlKey::LALT)));
    assert!(matches!(m.scancode_to_char(0x2e), Key::Control(ControlKey::_Undefined)));
    assert!(matches!(m.scancode_to_char(0xb8), Key::Nothing));
    assert_eq!(character(m.scancode_to_char(0x2e)), Some(b'c'));
}

#[test]
fn prefixed_scancodes_are_cursor_keys() {
    let mut m = KeyBoardMapper::new();
    assert!(matches!(m.scancode_to_char(0xe0), Key::Nothing));
    assert!(matches!(m.scancode_to_char(0x48), Key::Control(ControlKey::UP)));
    assert!(matches!(m.scancode_to_char(0x4c), Key::Character(b'5')));
    m.scancode_to_char(0xe0);
    assert!(matches!(m.scancode_to_char(0x1d), Key::Control(ControlKey::RCTRL)));
    m.scancode_to_char(0xe0);
    assert!(matches!(m.scancode_to_char(0x38), Key::Control(ControlKey::RALT)));
    m.scancode_to_char(0xe0);
    assert!(matches!(m.scancode_to_char(0x53), Key::Control(ControlKey::DELETE)));
    m.scancode_to_char(0xe0);
    assert!(matches!(m.scancode_to_char(0x1e), Key::Nothing));
    assert_eq!(character(m.scancode_to_char(0x1e)), Some(b'a'));
}

#[test]
fn prefixed_ctrl_does_not_hold_ctrl() {
    let mut m = KeyBoardMapper::new();
    m.scancode_to_char(0xe0);
    m.scancode_to_char(0x1d);
    assert_eq!(character(m.scancode_to_char(0x1e)), Some(b'a'));
}

#[test]
fn fixed_keys() {
    let mut m = KeyBoardMapper::new();
    assert!(matches!(m.scancode_to_char(0x01), Key::Control(ControlKey::ESC)));
    assert!(matches!(m.scancode_to_char(0x46), Key::Control(ControlKey::SCROLL)));
    assert_eq!(character(m.scancode_to_char(0x39)), Some(b' '));
    assert_eq!(character(m.scancode_to_char(0x0e)), Some(8));
    assert_eq!(character(m.scancode_to_char(0x1c)), Some(b'\n'));
    assert_eq!(character(m.scancode_to_char(0x0f)), Some(b'\t'));
}

#[test]
fn function_keys() {
    let mut m = KeyBoardMapper::new();
    assert!(matches!(m.scancode_to_char(0x3b), Key::Control(ControlKey::F1)));
    assert!(matches!(m.scancode_to_char(0x44), Key::Control(ControlKey::F10)));
    assert!(matches!(m.scancode_to_char(0x57), Key::Control(ControlKey::F11)));
    assert!(matches!(m.scancode_to_char(0x58), Key::Control(ControlKey::F12)));
}

#[test]
fn break_codes_give_nothing() {
    let mut m = KeyBoardMapper::new();
    for sc in 0x80u16..=0xff {
        let sc = sc as u8;
        if sc == 0xe0 {
            continue;
        }
        assert!(matches!(m.scancode_to_char(sc), Key::Nothing));
    }
}

#[test]
fn every_letter_has_its_capital() {
    let letters: [u8; 26] = [
        0x10, 0x11, 0x12, 0x13, 0x14, 0x15, 0x16, 0x17, 0x18, 0x19, 0x1e, 0x1f, 0x20, 0x21,
        0x22, 0x23, 0x24, 0x25, 0x26, 0x2c, 0x2d, 0x2e, 0x2f, 0x30, 0x31, 0x32,
    ];
    let mut m = KeyBoardMapper::new();
    for sc in letters.iter() {
        let small = character(m.scancode_to_char(*sc)).unwrap();
        assert!(small.is_ascii_lowercase());
        m.scancode_to_char(0x2a);
        assert_eq!(character(m.scancode_to_char(*sc)), Some(small - 32));
        m.scancode_to_char(0xaa);
    }
}
