use vstd::prelude::*;
use vstd::string::StringSliceAdditionalSpecFns;

verus! {

/// Keys that do not stand for a character; `_Undefined` is a key pressed
/// while ctrl or alt is held.
#[derive(Debug)]
pub enum ControlKey {
    ESC,
    F1,
    F2,
    F3,
    F4,
    F5,
    F6,
    F7,
    F8,
    F9,
    F10,
    F11,
    F12,
    PRTSCR,
    SCROLL,
    PAUSE,
    TAB,
    BACKSPACE,
    INSERT,
    HOME,
    PAGEUP,
    CAPSLOCK,
    ENTER,
    DELETE,
    END,
    PAGEDOWN,
    LSHIFT,
    RSHIFT,
    UP,
    LCTRL,
    LALT,
    SPACE,
    RALT,
    RCTRL,
    LEFT,
    DOWN,
    RIGHT,
    _Undefined,
}

/// What one scancode stands for.
#[derive(Debug)]
pub enum Key {
    Character(u8),
    Control(ControlKey),
    Nothing,
}

/// Characters of the make codes 0x00..0x7f, without shift.
pub const LOWERCASE_KEYS: &'static str = "__1234567890-=_\tqwertyuiop[]\n_asdfghjkl;'`_\\zxcvbnm,./_*_ ________________-_5_+_________________________________________________";

/// Characters of the make codes 0x00..0x7f, with shift (or caps lock).
pub const UPPERCASE_KEYS: &'static str = "__!@#$%^&*()_+_\tQWERTYUIOP{}\n_ASDFGHJKL:\"~_|ZXCVBNM<>?_*_ ________________-_5_+_________________________________________________";

/// The unshifted character table, byte by byte.
pub open spec fn lowercase_table() -> Seq<u8> {
    LOWERCASE_KEYS.spec_bytes()
}

/// The shifted character table, byte by byte.
pub open spec fn uppercase_table() -> Seq<u8> {
    UPPERCASE_KEYS.spec_bytes()
}

/// Both tables hold one ASCII byte for each of the 128 make codes.
pub proof fn lemma_tables()
    ensures
        lowercase_table().len() == 128,
        uppercase_table().len() == 128,
        forall|i: int| 0 <= i < 128 ==> lowercase_table()[i] == LOWERCASE_KEYS@[i] as u8,
        forall|i: int| 0 <= i < 128 ==> uppercase_table()[i] == UPPERCASE_KEYS@[i] as u8,
{
    reveal_strlit(
        "__1234567890-=_\tqwertyuiop[]\n_asdfghjkl;'`_\\zxcvbnm,./_*_ ________________-_5_+_________________________________________________",
    );
    reveal_strlit(
        "__!@#$%^&*()_+_\tQWERTYUIOP{}\n_ASDFGHJKL:\"~_|ZXCVBNM<>?_*_ ________________-_5_+_________________________________________________",
    );
    assert(vstd::utf8::is_ascii_chars(LOWERCASE_KEYS@));
    assert(vstd::utf8::is_ascii_chars(UPPERCASE_KEYS@));
    vstd::utf8::is_ascii_chars_encode_utf8(LOWERCASE_KEYS@);
    vstd::utf8::is_ascii_chars_encode_utf8(UPPERCASE_KEYS@);
}

/// The modifier state that a mapper carries from one scancode to the next.
pub struct MapperState {
    pub caps_lock: bool,
    pub hold_shift: bool,
    pub hold_ctrl: bool,
    pub hold_alt: bool,
    pub extend: bool,
}

/// The state of a freshly made mapper: no lock, no modifier, no prefix.
pub open spec fn initial_state() -> MapperState {
    MapperState {
        caps_lock: false,
        hold_shift: false,
        hold_ctrl: false,
        hold_alt: false,
        extend: false,
    }
}

/// The key of the scancode that follows the prefix 0xe0.
pub open spec fn extended_key_for(scancode: u8) -> Key {
    if scancode == 0x1d {
        Key::Control(ControlKey::RCTRL)
    } else if scancode == 0x38 {
        Key::Control(ControlKey::RALT)
    } else if scancode == 0x46 {
        Key::Control(ControlKey::LEFT)
    } else if scancode == 0x4d {
        Key::Control(ControlKey::RIGHT)
    } else if scancode == 0x48 {
        Key::Control(ControlKey::UP)
    } else if scancode == 0x50 {
        Key::Control(ControlKey::DOWN)
    } else if scancode == 0x52 {
        Key::Control(ControlKey::INSERT)
    } else if scancode == 0x47 {
        Key::Control(ControlKey::HOME)
    } else if scancode == 0x49 {
        Key::Control(ControlKey::PAGEUP)
    } else if scancode == 0x53 {
        Key::Control(ControlKey::DELETE)
    } else if scancode == 0x4f {
        Key::Control(ControlKey::END)
    } else if scancode == 0x51 {
        Key::Control(ControlKey::PAGEDOWN)
    } else {
        Key::Nothing
    }
}

/// The function key of the make codes 0x3b..=0x44, 0x57 and 0x58.
pub open spec fn function_key_for(scancode: u8) -> Key {
    if scancode == 0x3b {
        Key::Control(ControlKey::F1)
    } else if scancode == 0x3c {
        Key::Control(ControlKey::F2)
    } else if scancode == 0x3d {
        Key::Control(ControlKey::F3)
    } else if scancode == 0x3e {
        Key::Control(ControlKey::F4)
    } else if scancode == 0x3f {
        Key::Control(ControlKey::F5)
    } else if scancode == 0x40 {
        Key::Control(ControlKey::F6)
    } else if scancode == 0x41 {
        Key::Control(ControlKey::F7)
    } else if scancode == 0x42 {
        Key::Control(ControlKey::F8)
    } else if scancode == 0x43 {
        Key::Control(ControlKey::F9)
    } else if scancode == 0x44 {
        Key::Control(ControlKey::F10)
    } else if scancode == 0x57 {
        Key::Control(ControlKey::F11)
    } else if scancode == 0x58 {
        Key::Control(ControlKey::F12)
    } else {
        Key::Nothing
    }
}

/// Scancodes whose meaning is fixed, whatever the modifiers.
pub open spec fn is_special(scancode: u8) -> bool {
    ||| scancode == 0x01
    ||| scancode == 0x46
    ||| scancode == 0x1d
    ||| scancode == 0x9d
    ||| scancode == 0x38
    ||| scancode == 0xb8
    ||| scancode == 0x39
    ||| scancode == 0x0e
    ||| scancode == 0x3a
    ||| scancode == 0x1c
    ||| scancode == 0x2a
    ||| scancode == 0x36
    ||| scancode == 0xaa
    ||| scancode == 0xb6
    ||| scancode == 0xe0
    ||| 0x3b <= scancode <= 0x44
    ||| scancode == 0x57
    ||| scancode == 0x58
}

/// The key that `scancode` stands for in state `s`.
pub open spec fn key_for(s: MapperState, scancode: u8) -> Key {
    if s.extend {
        extended_key_for(scancode)
    } else if scancode == 0x01 {
        Key::Control(ControlKey::ESC)
    } else if scancode == 0x46 {
        Key::Control(ControlKey::SCROLL)
    } else if scancode == 0x1d {
        Key::Control(ControlKey::LCTRL)
    } else if scancode == 0x38 {
        Key::Control(ControlKey::LALT)
    } else if scancode == 0x39 {
        Key::Character(0x20)
    } else if scancode == 0x0e {
        Key::Character(8)
    } else if scancode == 0x3a {
        Key::Control(ControlKey::CAPSLOCK)
    } else if scancode == 0x1c {
        Key::Character(10)
    } else if scancode == 0x2a {
        Key::Control(ControlKey::LSHIFT)
    } else if scancode == 0x36 {
        Key::Control(ControlKey::RSHIFT)
    } else if (0x3b <= scancode <= 0x44) || scancode == 0x57 || scancode == 0x58 {
        function_key_for(scancode)
    } else if is_special(scancode) || scancode >= 128 {
        Key::Nothing
    } else if s.hold_alt || s.hold_ctrl {
        Key::Control(ControlKey::_Undefined)
    } else if s.caps_lock != s.hold_shift {
        Key::Character(uppercase_table()[scancode as int])
    } else {
        Key::Character(lowercase_table()[scancode as int])
    }
}

/// The state after `scancode` in state `s`. A prefixed scancode only ends
/// the prefix; otherwise caps lock (0x3a) toggles, shift, ctrl and alt are
/// held from their make code to their break code, and 0xe0 starts a prefix.
pub open spec fn next_state(s: MapperState, scancode: u8) -> MapperState {
    if s.extend {
        MapperState { extend: false, ..s }
    } else {
        MapperState {
            caps_lock: if scancode == 0x3a { !s.caps_lock } else { s.caps_lock },
            hold_shift: if scancode == 0x2a || scancode == 0x36 {
                true
            } else if scancode == 0xaa || scancode == 0xb6 {
                false
            } else {
                s.hold_shift
            },
            hold_ctrl: if scancode == 0x1d {
                true
            } else if scancode == 0x9d {
                false
            } else {
                s.hold_ctrl
            },
            hold_alt: if scancode == 0x38 {
                true
            } else if scancode == 0xb8 {
                false
            } else {
                s.hold_alt
            },
            extend: scancode == 0xe0,
        }
    }
}

/// Turns scancodes of set 1 into keys, keeping track of caps lock, shift,
/// ctrl, alt and the 0xe0 prefix.
pub struct KeyBoardMapper {
    caps_lock: bool,
    lowercase_keys: &'static [u8],
    uppercase_keys: &'static [u8],
    hold_shift: bool,
    hold_ctrl: bool,
    hold_alt: bool,
    extend: bool,
}

impl KeyBoardMapper {
    #[verifier::type_invariant]
    spec fn tables_inv(self) -> bool {
        &&& self.lowercase_keys@ == lowercase_table()
        &&& self.uppercase_keys@ == uppercase_table()
        &&& self.lowercase_keys@.len() == 128
        &&& self.uppercase_keys@.len() == 128
    }

    /// The modifier state of the mapper.
    pub closed spec fn state(&self) -> MapperState {
        MapperState {
            caps_lock: self.caps_lock,
            hold_shift: self.hold_shift,
            hold_ctrl: self.hold_ctrl,
            hold_alt: self.hold_alt,
            extend: self.extend,
        }
    }

    pub fn new() -> (mapper: Self)
        ensures
            mapper@ == initial_state(),
    {
        proof {
            lemma_tables();
        }
        KeyBoardMapper {
            caps_lock: false,
            lowercase_keys: LOWERCASE_KEYS.as_bytes(),
            uppercase_keys: UPPERCASE_KEYS.as_bytes(),
            hold_shift: false,
            hold_ctrl: false,
            hold_alt: false,
            extend: false,
        }
    }

    pub fn scancode_to_char(&mut self, scancode: u8) -> (key: Key)
        ensures
            key == key_for(old(self)@, scancode),
            final(self)@ == next_state(old(self)@, scancode),
    {
        proof {
            use_type_invariant(&*self);
        }
        if self.extend {
            self.extend = false;
            match scancode {
                0x1d => return Key::Control(ControlKey::RCTRL),
                0x38 => return Key::Control(ControlKey::RALT),
                0x46 => return Key::Control(ControlKey::LEFT),
                0x4d => return Key::Control(ControlKey::RIGHT),
                0x48 => return Key::Control(ControlKey::UP),
                0x50 => return Key::Control(ControlKey::DOWN),
                0x52 => return Key::Control(ControlKey::INSERT),
                0x47 => return Key::Control(ControlKey::HOME),
                0x49 => return Key::Control(ControlKey::PAGEUP),
                0x53 => return Key::Control(ControlKey::DELETE),
                0x4F => return Key::Control(ControlKey::END),
                0x51 => return Key::Control(ControlKey::PAGEDOWN),
                _ => return Key::Nothing,
            }
        }
        match scancode {
            0x01 => Key::Control(ControlKey::ESC),
            0x46 => Key::Control(ControlKey::SCROLL),
            0x1d => {
                self.hold_ctrl = true;
                Key::Control(ControlKey::LCTRL)
            },
            0x9d => {
                self.hold_ctrl = false;
                Key::Nothing
            },
            0x38 => {
                self.hold_alt = true;
                Key::Control(ControlKey::LALT)
            },
            0xb8 => {
                self.hold_alt = false;
                Key::Nothing
            },
            0x39 => Key::Character(0x20),
            0x0e => Key::Character(8),
            0x3a => {
                self.caps_lock = !self.caps_lock;
                Key::Control(ControlKey::CAPSLOCK)
            },
            0x1c => Key::Character(10),
            0x2a => {
                self.hold_shift = true;
                Key::Control(ControlKey::LSHIFT)
            },
            0x36 => {
                self.hold_shift = true;
                Key::Control(ControlKey::RSHIFT)
            },
            0xaa | 0xb6 => {
                self.hold_shift = false;
                Key::Nothing
            },
            0xe0 => {
                self.extend = true;
                Key::Nothing
            },
            0x3b..=0x44 | 0x57 | 0x58 => match scancode {
                0x3b => Key::Control(ControlKey::F1),
                0x3c => Key::Control(ControlKey::F2),
                0x3d => Key::Control(ControlKey::F3),
                0x3e => Key::Control(ControlKey::F4),
                0x3f => Key::Control(ControlKey::F5),
                0x40 => Key::Control(ControlKey::F6),
                0x41 => Key::Control(ControlKey::F7),
                0x42 => Key::Control(ControlKey::F8),
                0x43 => Key::Control(ControlKey::F9),
                0x44 => Key::Control(ControlKey::F10),
                0x57 => Key::Control(ControlKey::F11),
                0x58 => Key::Control(ControlKey::F12),
                _ => Key::Nothing,
            },
            _ => match scancode {
                128..=255 => Key::Nothing,
                _ if self.hold_alt || self.hold_ctrl => Key::Control(ControlKey::_Undefined),
                _ => {
                    if self.caps_lock ^ self.hold_shift {
                        Key::Character(self.uppercase_keys[(scancode % 128) as usize])
                    } else {
                        Key::Character(self.lowercase_keys[(scancode % 128) as usize])
                    }
                },
            },
        }
    }
}

impl View for KeyBoardMapper {
    type V = MapperState;

    open spec fn view(&self) -> MapperState {
        self.state()
    }
}

} // verus!

verus! {

/// The make codes of the 26 letter keys: the rows q..p, a..l and z..m.
pub open spec fn is_letter_scancode(scancode: u8) -> bool {
    ||| 0x10 <= scancode <= 0x19
    ||| 0x1e <= scancode <= 0x26
    ||| 0x2c <= scancode <= 0x32
}

/// Outside a prefix, pressing caps lock twice gives back the state it
/// started from; caps lock stands for the control key CAPSLOCK.
pub proof fn lemma_caps_lock_twice(s: MapperState)
    requires
        !s.extend,
    ensures
        next_state(next_state(s, 0x3a), 0x3a) == s,
        key_for(s, 0x3a) == Key::Control(ControlKey::CAPSLOCK),
{
}

/// Outside a prefix, a modifier pressed and released again leaves the
/// state as it was, with that modifier no longer held; while it is held,
/// the modifier is down.
pub proof fn lemma_modifier_press_release(s: MapperState, press: u8, release: u8)
    requires
        !s.extend,
        (press == 0x2a || press == 0x36) && (release == 0xaa || release == 0xb6)
            || press == 0x1d && release == 0x9d || press == 0x38 && release == 0xb8,
    ensures
        press == 0x2a || press == 0x36 ==> next_state(s, press).hold_shift
            && next_state(next_state(s, press), release) == (MapperState {
            hold_shift: false,
            ..s
        }),
        press == 0x1d ==> next_state(s, press).hold_ctrl && next_state(
            next_state(s, press),
            release,
        ) == (MapperState { hold_ctrl: false, ..s }),
        press == 0x38 ==> next_state(s, press).hold_alt && next_state(
            next_state(s, press),
            release,
        ) == (MapperState { hold_alt: false, ..s }),
{
}

/// The prefix 0xe0 applies to the one scancode after it: that scancode
/// ends the prefix and changes nothing else.
pub proof fn lemma_prefix_once(s: MapperState, scancode: u8)
    requires
        s.extend,
    ensures
        next_state(s, scancode) == (MapperState { extend: false, ..s }),
        !next_state(s, scancode).extend,
{
}

/// A break code (bit 7 set) never stands for a key, prefixed or not.
pub proof fn lemma_break_codes(s: MapperState, scancode: u8)
    requires
        scancode >= 0x80,
    ensures
        key_for(s, scancode) == Key::Nothing,
{
}

/// Outside a prefix, a letter key gives the control key `_Undefined`
/// while ctrl or alt is held; otherwise it gives its capital when exactly
/// one of caps lock and shift is on, and its small letter when neither or
/// both are.
pub proof fn lemma_letter_case(s: MapperState, scancode: u8)
    requires
        is_letter_scancode(scancode),
        !s.extend,
    ensures
        0x61 <= lowercase_table()[scancode as int] <= 0x7a,
        s.hold_ctrl || s.hold_alt ==> key_for(s, scancode) == Key::Control(
            ControlKey::_Undefined,
        ),
        !(s.hold_ctrl || s.hold_alt) ==> key_for(s, scancode) == Key::Character(
            if s.caps_lock != s.hold_shift {
                (lowercase_table()[scancode as int] - 32) as u8
            } else {
                lowercase_table()[scancode as int]
            },
        ),
{
    lemma_tables();
    reveal_strlit(
        "__1234567890-=_\tqwertyuiop[]\n_asdfghjkl;'`_\\zxcvbnm,./_*_ ________________-_5_+_________________________________________________",
    );
    reveal_strlit(
        "__!@#$%^&*()_+_\tQWERTYUIOP{}\n_ASDFGHJKL:\"~_|ZXCVBNM<>?_*_ ________________-_5_+_________________________________________________",
    );
    let i = scancode as int;
    assert(lowercase_table()[i] == LOWERCASE_KEYS@[i] as u8);
    assert(uppercase_table()[i] == UPPERCASE_KEYS@[i] as u8);
}

} // verus!

verus! {

/// After the prefix 0xe0, each listed make code is its own cursor or
/// right-hand modifier key, and any other scancode is no key.
pub proof fn lemma_prefixed_keys(s: MapperState, scancode: u8)
    requires
        s.extend,
    ensures
        key_for(s, 0x1d) == Key::Control(ControlKey::RCTRL),
        key_for(s, 0x38) == Key::Control(ControlKey::RALT),
        key_for(s, 0x46) == Key::Control(ControlKey::LEFT),
        key_for(s, 0x4d) == Key::Control(ControlKey::RIGHT),
        key_for(s, 0x48) == Key::Control(ControlKey::UP),
        key_for(s, 0x50) == Key::Control(ControlKey::DOWN),
        key_for(s, 0x52) == Key::Control(ControlKey::INSERT),
        key_for(s, 0x47) == Key::Control(ControlKey::HOME),
        key_for(s, 0x49) == Key::Control(ControlKey::PAGEUP),
        key_for(s, 0x53) == Key::Control(ControlKey::DELETE),
        key_for(s, 0x4f) == Key::Control(ControlKey::END),
        key_for(s, 0x51) == Key::Control(ControlKey::PAGEDOWN),
        !(scancode == 0x1d || scancode == 0x38 || scancode == 0x46 || scancode == 0x4d
            || scancode == 0x48 || scancode == 0x50 || scancode == 0x52 || scancode == 0x47
            || scancode == 0x49 || scancode == 0x53 || scancode == 0x4f || scancode == 0x51)
            ==> key_for(s, scancode) == Key::Nothing,
{
}

/// Outside a prefix, the keys whose meaning does not depend on the
/// modifiers: escape, scroll lock, the modifiers themselves, space,
/// backspace, enter, caps lock and the twelve function keys; the break
/// codes of the modifiers and the prefix itself are no key.
pub proof fn lemma_fixed_keys(s: MapperState)
    requires
        !s.extend,
    ensures
        key_for(s, 0x01) == Key::Control(ControlKey::ESC),
        key_for(s, 0x46) == Key::Control(ControlKey::SCROLL),
        key_for(s, 0x1d) == Key::Control(ControlKey::LCTRL),
        key_for(s, 0x38) == Key::Control(ControlKey::LALT),
        key_for(s, 0x2a) == Key::Control(ControlKey::LSHIFT),
        key_for(s, 0x36) == Key::Control(ControlKey::RSHIFT),
        key_for(s, 0x3a) == Key::Control(ControlKey::CAPSLOCK),
        key_for(s, 0x39) == Key::Character(0x20),
        key_for(s, 0x0e) == Key::Character(8),
        key_for(s, 0x1c) == Key::Character(10),
        key_for(s, 0x3b) == Key::Control(ControlKey::F1),
        key_for(s, 0x3c) == Key::Control(ControlKey::F2),
        key_for(s, 0x3d) == Key::Control(ControlKey::F3),
        key_for(s, 0x3e) == Key::Control(ControlKey::F4),
        key_for(s, 0x3f) == Key::Control(ControlKey::F5),
        key_for(s, 0x40) == Key::Control(ControlKey::F6),
        key_for(s, 0x41) == Key::Control(ControlKey::F7),
        key_for(s, 0x42) == Key::Control(ControlKey::F8),
        key_for(s, 0x43) == Key::Control(ControlKey::F9),
        key_for(s, 0x44) == Key::Control(ControlKey::F10),
        key_for(s, 0x57) == Key::Control(ControlKey::F11),
        key_for(s, 0x58) == Key::Control(ControlKey::F12),
        key_for(s, 0x9d) == Key::Nothing,
        key_for(s, 0xb8) == Key::Nothing,
        key_for(s, 0xaa) == Key::Nothing,
        key_for(s, 0xb6) == Key::Nothing,
        key_for(s, 0xe0) == Key::Nothing,
{
}

/// Outside a prefix and with neither ctrl nor alt held, every other make
/// code is a character from the tables: the shifted one when exactly one
/// of caps lock and shift is on, the unshifted one otherwise. With ctrl or
/// alt held it is the control key `_Undefined`.
pub proof fn lemma_table_keys(s: MapperState, scancode: u8)
    requires
        !s.extend,
        scancode < 0x80,
        scancode != 0x01 && scancode != 0x46 && scancode != 0x1d && scancode != 0x38
            && scancode != 0x39 && scancode != 0x0e && scancode != 0x3a && scancode != 0x1c
            && scancode != 0x2a && scancode != 0x36 && !(0x3b <= scancode <= 0x44)
            && scancode != 0x57 && scancode != 0x58,
    ensures
        s.hold_ctrl || s.hold_alt ==> key_for(s, scancode) == Key::Control(
            ControlKey::_Undefined,
        ),
        !s.hold_ctrl && !s.hold_alt && s.caps_lock != s.hold_shift ==> key_for(s, scancode)
            == Key::Character(uppercase_table()[scancode as int]),
        !s.hold_ctrl && !s.hold_alt && s.caps_lock == s.hold_shift ==> key_for(s, scancode)
            == Key::Character(lowercase_table()[scancode as int]),
{
}

/// The tables follow the US keyboard layout: the digit row, the three
/// letter rows and the keypad minus, 5 and plus, unshifted and shifted.
pub proof fn lemma_layout()
    ensures
        lowercase_table().subrange(0x02, 0x0e) =~= seq![
            0x31u8, 0x32, 0x33, 0x34, 0x35, 0x36, 0x37, 0x38, 0x39, 0x30, 0x2d, 0x3d,
        ],
        uppercase_table().subrange(0x02, 0x0e) =~= seq![
            0x21u8, 0x40, 0x23, 0x24, 0x25, 0x5e, 0x26, 0x2a, 0x28, 0x29, 0x5f, 0x2b,
        ],
        lowercase_table().subrange(0x0f, 0x1d) =~= seq![
            0x09u8, 0x71, 0x77, 0x65, 0x72, 0x74, 0x79, 0x75, 0x69, 0x6f, 0x70, 0x5b, 0x5d, 0x0a,
        ],
        uppercase_table().subrange(0x0f, 0x1d) =~= seq![
            0x09u8, 0x51, 0x57, 0x45, 0x52, 0x54, 0x59, 0x55, 0x49, 0x4f, 0x50, 0x7b, 0x7d, 0x0a,
        ],
        lowercase_table().subrange(0x1e, 0x2a) =~= seq![
            0x61u8, 0x73, 0x64, 0x66, 0x67, 0x68, 0x6a, 0x6b, 0x6c, 0x3b, 0x27, 0x60,
        ],
        uppercase_table().subrange(0x1e, 0x2a) =~= seq![
            0x41u8, 0x53, 0x44, 0x46, 0x47, 0x48, 0x4a, 0x4b, 0x4c, 0x3a, 0x22, 0x7e,
        ],
        lowercase_table().subrange(0x2b, 0x36) =~= seq![
            0x5cu8, 0x7a, 0x78, 0x63, 0x76, 0x62, 0x6e, 0x6d, 0x2c, 0x2e, 0x2f,
        ],
        uppercase_table().subrange(0x2b, 0x36) =~= seq![
            0x7cu8, 0x5a, 0x58, 0x43, 0x56, 0x42, 0x4e, 0x4d, 0x3c, 0x3e, 0x3f,
        ],
        lowercase_table()[0x37] == 0x2a && uppercase_table()[0x37] == 0x2a,
        lowercase_table()[0x4a] == 0x2d && uppercase_table()[0x4a] == 0x2d,
        lowercase_table()[0x4c] == 0x35 && uppercase_table()[0x4c] == 0x35,
        lowercase_table()[0x4e] == 0x2b && uppercase_table()[0x4e] == 0x2b,
        lowercase_table()[0x39] == 0x20 && uppercase_table()[0x39] == 0x20,
        forall|i: int|
            0 <= i < 128 && !((0x02 <= i < 0x0e) || (0x0f <= i < 0x1d) || (0x1e <= i < 0x2a) || (0x2b
                <= i < 0x36) || i == 0x37 || i == 0x39 || i == 0x4a || i == 0x4c || i == 0x4e)
                ==> #[trigger] lowercase_table()[i] == 0x5f && uppercase_table()[i] == 0x5f,
{
    lemma_tables();
    reveal_strlit(
        "__1234567890-=_\tqwertyuiop[]\n_asdfghjkl;'`_\\zxcvbnm,./_*_ ________________-_5_+_________________________________________________",
    );
    reveal_strlit(
        "__!@#$%^&*()_+_\tQWERTYUIOP{}\n_ASDFGHJKL:\"~_|ZXCVBNM<>?_*_ ________________-_5_+_________________________________________________",
    );
}

/// Each piece of the state changes only on its own scancodes: caps lock
/// flips on 0x3a and on nothing else, shift, ctrl and alt change only on
/// their make and break codes, and the prefix starts only on 0xe0.
pub proof fn lemma_state_changes(s: MapperState, scancode: u8)
    requires
        !s.extend,
    ensures
        next_state(s, 0x3a).caps_lock == !s.caps_lock,
        scancode != 0x3a ==> next_state(s, scancode).caps_lock == s.caps_lock,
        next_state(s, 0x2a).hold_shift && next_state(s, 0x36).hold_shift,
        !next_state(s, 0xaa).hold_shift && !next_state(s, 0xb6).hold_shift,
        scancode != 0x2a && scancode != 0x36 && scancode != 0xaa && scancode != 0xb6
            ==> next_state(s, scancode).hold_shift == s.hold_shift,
        next_state(s, 0x1d).hold_ctrl && !next_state(s, 0x9d).hold_ctrl,
        scancode != 0x1d && scancode != 0x9d ==> next_state(s, scancode).hold_ctrl
            == s.hold_ctrl,
        next_state(s, 0x38).hold_alt && !next_state(s, 0xb8).hold_alt,
        scancode != 0x38 && scancode != 0xb8 ==> next_state(s, scancode).hold_alt == s.hold_alt,
        next_state(s, scancode).extend <==> scancode == 0xe0,
{
}

/// A fresh mapper has caps lock off, no modifier held and no prefix.
pub proof fn lemma_initial_state()
    ensures
        !initial_state().caps_lock && !initial_state().hold_shift && !initial_state().hold_ctrl
            && !initial_state().hold_alt && !initial_state().extend,
{
}

} // verus!
