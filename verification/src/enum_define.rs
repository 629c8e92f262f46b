use vstd::prelude::*;
use vstd::string::StringSliceAdditionalSpecFns;

verus! {

/// The sixteen colours of the VGA text-mode palette, in palette order.
#[derive(Debug, Clone, Copy, PartialEq, Eq, Structural)]
pub enum Color {
    Black,
    Blue,
    Green,
    Cyan,
    Red,
    Magenta,
    Brown,
    LightGray,
    DarkGray,
    LightBlue,
    LightGreen,
    LightCyan,
    LightRed,
    Pink,
    Yellow,
    White,
}

/// The palette number of a colour (`Black` is 0, `White` is 15).
pub open spec fn color_number(c: Color) -> u8 {
    match c {
        Color::Black => 0,
        Color::Blue => 1,
        Color::Green => 2,
        Color::Cyan => 3,
        Color::Red => 4,
        Color::Magenta => 5,
        Color::Brown => 6,
        Color::LightGray => 7,
        Color::DarkGray => 8,
        Color::LightBlue => 9,
        Color::LightGreen => 10,
        Color::LightCyan => 11,
        Color::LightRed => 12,
        Color::Pink => 13,
        Color::Yellow => 14,
        Color::White => 15,
    }
}

fn palette_number(c: Color) -> (n: u8)
    ensures
        n == color_number(c),
        n < 16,
{
    match c {
        Color::Black => 0,
        Color::Blue => 1,
        Color::Green => 2,
        Color::Cyan => 3,
        Color::Red => 4,
        Color::Magenta => 5,
        Color::Brown => 6,
        Color::LightGray => 7,
        Color::DarkGray => 8,
        Color::LightBlue => 9,
        Color::LightGreen => 10,
        Color::LightCyan => 11,
        Color::LightRed => 12,
        Color::Pink => 13,
        Color::Yellow => 14,
        Color::White => 15,
    }
}

/// The attribute byte of a colour pair: the background's palette number
/// in the high nibble, the foreground's in the low nibble.
pub open spec fn attribute(foreground: Color, background: Color) -> u8 {
    (color_number(background) * 16 + color_number(foreground)) as u8
}

/// A VGA attribute byte: background colour in the high nibble,
/// foreground colour in the low nibble.
#[derive(Debug, Clone, Copy, PartialEq, Eq, Structural)]
pub struct ColorCode(pub u8);

impl ColorCode {
    /// Packs a foreground and a background colour into one attribute byte.
    pub fn new(foreground_color: Color, background_color: Color) -> (code: ColorCode)
        ensures
            code.0 == attribute(foreground_color, background_color),
    {
        let fg = palette_number(foreground_color);
        let bg = palette_number(background_color);
        assert((bg << 4u8) | fg == bg * 16 + fg) by (bit_vector)
            requires
                fg < 16,
                bg < 16,
        ;
        ColorCode((bg << 4u8) | fg)
    }
}

/// An attribute byte gives back both of its colours: the foreground is
/// its low nibble and the background its high nibble, so different colour
/// pairs never share an attribute byte.
pub proof fn lemma_attribute(fg1: Color, bg1: Color, fg2: Color, bg2: Color)
    ensures
        attribute(fg1, bg1) % 16 == color_number(fg1),
        attribute(fg1, bg1) / 16 == color_number(bg1),
        fg1 != fg2 || bg1 != bg2 ==> attribute(fg1, bg1) != attribute(fg2, bg2),
{
}

} // verus!

verus! {

/// Keys that do not stand for a character.
pub enum ControlKey {
    ESC,
    F1,
    F2,
    F3,
    F4,
    F5,
    F6,
    F7,
    F8,
    F9,
    F10,
    F11,
    F12,
    PRTSCR,
    SCROLL,
    PAUSE,
    TAB,
    BACKSPACE,
    INSERT,
    HOME,
    PAGEUP,
    CAPSLOCK,
    ENTER,
    DELETE,
    END,
    PAGEDOWN,
    LSHIFT,
    RSHIFT,
    UP,
    LCTRL,
    LALT,
    SPACE,
    RALT,
    RCTRL,
    LEFT,
    DOWN,
    RIGHT,
}

/// What one scancode stands for.
pub enum Key {
    Character(u8),
    Control(ControlKey),
    Nothing,
}

/// Characters of the make codes 0x00..0x7f, without shift.
pub const LOWERCASE_KEYS: &'static str = "__1234567890-=__qwertyuiop[]__asdfghjkl;'`_\\zxcvbnm,./_*_ ________________-_5_+_________________________________________________";

/// Characters of the make codes 0x00..0x7f, with shift (or caps lock).
pub const UPPERCASE_KEYS: &'static str = "__!@#$%^&*()_+__QWERTYUIOP{}__ASDFGHJKL:\"~_|ZXCVBNM<>?_*_ ________________-_5_+_________________________________________________";

/// The unshifted character table, byte by byte.
pub open spec fn lowercase_table() -> Seq<u8> {
    LOWERCASE_KEYS.spec_bytes()
}

/// The shifted character table, byte by byte.
pub open spec fn uppercase_table() -> Seq<u8> {
    UPPERCASE_KEYS.spec_bytes()
}

/// Both tables hold one ASCII byte for each of the 128 make codes.
pub proof fn lemma_tables()
    ensures
        lowercase_table().len() == 128,
        uppercase_table().len() == 128,
        forall|i: int| 0 <= i < 128 ==> lowercase_table()[i] == LOWERCASE_KEYS@[i] as u8,
        forall|i: int| 0 <= i < 128 ==> uppercase_table()[i] == UPPERCASE_KEYS@[i] as u8,
{
    reveal_strlit(
        "__1234567890-=__qwertyuiop[]__asdfghjkl;'`_\\zxcvbnm,./_*_ ________________-_5_+_________________________________________________",
    );
    reveal_strlit(
        "__!@#$%^&*()_+__QWERTYUIOP{}__ASDFGHJKL:\"~_|ZXCVBNM<>?_*_ ________________-_5_+_________________________________________________",
    );
    assert(vstd::utf8::is_ascii_chars(LOWERCASE_KEYS@));
    assert(vstd::utf8::is_ascii_chars(UPPERCASE_KEYS@));
    vstd::utf8::is_ascii_chars_encode_utf8(LOWERCASE_KEYS@);
    vstd::utf8::is_ascii_chars_encode_utf8(UPPERCASE_KEYS@);
}

/// The modifier state that a mapper carries from one scancode to the next.
pub struct MapperState {
    pub caps_lock: bool,
    pub hold_shift: bool,
    pub extend: bool,
}

/// The state of a freshly made mapper: no lock, no modifier, no prefix.
pub open spec fn initial_state() -> MapperState {
    MapperState { caps_lock: false, hold_shift: false, extend: false }
}

/// The key that `scancode` stands for in state `s`.
pub open spec fn key_for(s: MapperState, scancode: u8) -> Key {
    if scancode == 0x01 {
        Key::Control(ControlKey::ESC)
    } else if scancode == 0x0e {
        Key::Character(8)
    } else if scancode == 0x0f {
        Key::Character(9)
    } else if scancode == 0x1c {
        Key::Character(10)
    } else if scancode == 0x39 {
        Key::Character(0x20)
    } else if scancode == 0x1d {
        Key::Control(if s.extend { ControlKey::RCTRL } else { ControlKey::LCTRL })
    } else if scancode == 0x38 {
        Key::Control(if s.extend { ControlKey::RALT } else { ControlKey::LALT })
    } else if scancode == 0x3a || scancode == 0x2a || scancode == 0x36 || scancode == 0xaa
        || scancode == 0xb6 || scancode == 0xe0 {
        Key::Nothing
    } else if (0x3b <= scancode <= 0x44) || scancode == 0x57 || scancode == 0x58 {
        Key::Nothing
    } else if scancode >= 128 {
        Key::Nothing
    } else if s.caps_lock != s.hold_shift {
        Key::Character(uppercase_table()[scancode as int])
    } else {
        Key::Character(lowercase_table()[scancode as int])
    }
}

/// The state after `scancode` in state `s`: caps lock (0x3a) toggles,
/// shift is held from a shift make code (0x2a, 0x36) to its break code
/// (0xaa, 0xb6), and the prefix 0xe0 lasts until a ctrl or alt code.
pub open spec fn next_state(s: MapperState, scancode: u8) -> MapperState {
    MapperState {
        caps_lock: if scancode == 0x3a { !s.caps_lock } else { s.caps_lock },
        hold_shift: if scancode == 0x2a || scancode == 0x36 {
            true
        } else if scancode == 0xaa || scancode == 0xb6 {
            false
        } else {
            s.hold_shift
        },
        extend: if scancode == 0xe0 {
            true
        } else if scancode == 0x1d || scancode == 0x38 {
            false
        } else {
            s.extend
        },
    }
}

/// Turns scancodes of set 1 into keys, keeping track of caps lock and shift.
pub struct KeyBoardMapper {
    caps_lock: bool,
    lowercase_keys: &'static [u8],
    uppercase_keys: &'static [u8],
    hold_shift: bool,
    extend: bool,
}

impl KeyBoardMapper {
    #[verifier::type_invariant]
    spec fn tables_inv(self) -> bool {
        &&& self.lowercase_keys@ == lowercase_table()
        &&& self.uppercase_keys@ == uppercase_table()
        &&& self.lowercase_keys@.len() == 128
        &&& self.uppercase_keys@.len() == 128
    }

    /// The modifier state of the mapper.
    pub closed spec fn state(&self) -> MapperState {
        MapperState { caps_lock: self.caps_lock, hold_shift: self.hold_shift, extend: self.extend }
    }

    pub fn new() -> (mapper: Self)
        ensures
            mapper@ == initial_state(),
    {
        proof {
            lemma_tables();
        }
        KeyBoardMapper {
            caps_lock: false,
            lowercase_keys: LOWERCASE_KEYS.as_bytes(),
            uppercase_keys: UPPERCASE_KEYS.as_bytes(),
            hold_shift: false,
            extend: false,
        }
    }

    pub fn scancode_to_char(&mut self, scancode: u8) -> (key: Key)
        ensures
            key == key_for(old(self)@, scancode),
            final(self)@ == next_state(old(self)@, scancode),
    {
        proof {
            use_type_invariant(&*self);
        }
        match scancode {
            0x01 => Key::Control(ControlKey::ESC),
            0x0e => Key::Character(8),
            0x0f => Key::Character(9),
            0x3a => {
                self.caps_lock = !self.caps_lock;
                Key::Nothing
            },
            0x1c => Key::Character(10),
            0x2a | 0x36 => {
                self.hold_shift = true;
                Key::Nothing
            },
            0xaa | 0xb6 => {
                self.hold_shift = false;
                Key::Nothing
            },
            0x1d => {
                if self.extend {
                    self.extend = false;
                    Key::Control(ControlKey::RCTRL)
                } else {
                    self.extend = false;
                    Key::Control(ControlKey::LCTRL)
                }
            },
            0x38 => {
                if self.extend {
                    self.extend = false;
                    Key::Control(ControlKey::RALT)
                } else {
                    self.extend = false;
                    Key::Control(ControlKey::LALT)
                }
            },
            0xe0 => {
                self.extend = true;
                Key::Nothing
            },
            0x3b..=0x44 | 0x57 | 0x58 => Key::Nothing,
            0x39 => Key::Character(0x20),
            _ => {
                if scancode >= 128 {
                    Key::Nothing
                } else if self.caps_lock ^ self.hold_shift {
                    Key::Character(self.uppercase_keys[(scancode % 128) as usize])
                } else {
                    Key::Character(self.lowercase_keys[(scancode % 128) as usize])
                }
            },
        }
    }
}

impl View for KeyBoardMapper {
    type V = MapperState;

    open spec fn view(&self) -> MapperState {
        self.state()
    }
}

} // verus!

verus! {

/// The make codes of the 26 letter keys: the rows q..p, a..l and z..m.
pub open spec fn is_letter_scancode(scancode: u8) -> bool {
    ||| 0x10 <= scancode <= 0x19
    ||| 0x1e <= scancode <= 0x26
    ||| 0x2c <= scancode <= 0x32
}

/// Pressing caps lock twice gives back the state it started from, and
/// caps lock itself stands for no key.
pub proof fn lemma_caps_lock_twice(s: MapperState)
    ensures
        next_state(next_state(s, 0x3a), 0x3a) == s,
        key_for(s, 0x3a) == Key::Nothing,
{
}

/// A shift key pressed and released again leaves the state as it was,
/// with shift no longer held; while it is held, shift is down.
pub proof fn lemma_shift_press_release(s: MapperState, press: u8, release: u8)
    requires
        press == 0x2a || press == 0x36,
        release == 0xaa || release == 0xb6,
    ensures
        next_state(s, press).hold_shift,
        next_state(next_state(s, press), release) == (MapperState { hold_shift: false, ..s }),
{
}

/// A break code (bit 7 set) never stands for a key.
pub proof fn lemma_break_codes(s: MapperState, scancode: u8)
    requires
        scancode >= 0x80,
    ensures
        key_for(s, scancode) == Key::Nothing,
{
}

/// A letter key gives its capital when exactly one of caps lock and shift
/// is on, and its small letter otherwise.
pub proof fn lemma_letter_case(s: MapperState, scancode: u8)
    requires
        is_letter_scancode(scancode),
    ensures
        0x61 <= lowercase_table()[scancode as int] <= 0x7a,
        key_for(s, scancode) == Key::Character(
            if s.caps_lock != s.hold_shift {
                (lowercase_table()[scancode as int] - 32) as u8
            } else {
                lowercase_table()[scancode as int]
            },
        ),
{
    lemma_tables();
    reveal_strlit(
        "__1234567890-=__qwertyuiop[]__asdfghjkl;'`_\\zxcvbnm,./_*_ ________________-_5_+_________________________________________________",
    );
    reveal_strlit(
        "__!@#$%^&*()_+__QWERTYUIOP{}__ASDFGHJKL:\"~_|ZXCVBNM<>?_*_ ________________-_5_+_________________________________________________",
    );
    let i = scancode as int;
    assert(lowercase_table()[i] == LOWERCASE_KEYS@[i] as u8);
    assert(uppercase_table()[i] == UPPERCASE_KEYS@[i] as u8);
}

} // verus!

verus! {

/// Each colour has its VGA palette number: the low nibble of an attribute
/// byte is the foreground's number and the high nibble the background's,
/// Black 0, Blue 1, Green 2, Cyan 3, Red 4, Magenta 5, Brown 6,
/// LightGray 7, DarkGray 8, LightBlue 9, LightGreen 10, LightCyan 11,
/// LightRed 12, Pink 13, Yellow 14, White 15.
pub proof fn lemma_palette(fg: Color, bg: Color)
    ensures
        fg == Color::Black ==> attribute(fg, bg) % 16 == 0,
        fg == Color::Blue ==> attribute(fg, bg) % 16 == 1,
        fg == Color::Green ==> attribute(fg, bg) % 16 == 2,
        fg == Color::Cyan ==> attribute(fg, bg) % 16 == 3,
        fg == Color::Red ==> attribute(fg, bg) % 16 == 4,
        fg == Color::Magenta ==> attribute(fg, bg) % 16 == 5,
        fg == Color::Brown ==> attribute(fg, bg) % 16 == 6,
        fg == Color::LightGray ==> attribute(fg, bg) % 16 == 7,
        fg == Color::DarkGray ==> attribute(fg, bg) % 16 == 8,
        fg == Color::LightBlue ==> attribute(fg, bg) % 16 == 9,
        fg == Color::LightGreen ==> attribute(fg, bg) % 16 == 10,
        fg == Color::LightCyan ==> attribute(fg, bg) % 16 == 11,
        fg == Color::LightRed ==> attribute(fg, bg) % 16 == 12,
        fg == Color::Pink ==> attribute(fg, bg) % 16 == 13,
        fg == Color::Yellow ==> attribute(fg, bg) % 16 == 14,
        fg == Color::White ==> attribute(fg, bg) % 16 == 15,
        bg == Color::Black ==> attribute(fg, bg) / 16 == 0,
        bg == Color::Blue ==> attribute(fg, bg) / 16 == 1,
        bg == Color::Green ==> attribute(fg, bg) / 16 == 2,
        bg == Color::Cyan ==> attribute(fg, bg) / 16 == 3,
        bg == Color::Red ==> attribute(fg, bg) / 16 == 4,
        bg == Color::Magenta ==> attribute(fg, bg) / 16 == 5,
        bg == Color::Brown ==> attribute(fg, bg) / 16 == 6,
        bg == Color::LightGray ==> attribute(fg, bg) / 16 == 7,
        bg == Color::DarkGray ==> attribute(fg, bg) / 16 == 8,
        bg == Color::LightBlue ==> attribute(fg, bg) / 16 == 9,
        bg == Color::LightGreen ==> attribute(fg, bg) / 16 == 10,
        bg == Color::LightCyan ==> attribute(fg, bg) / 16 == 11,
        bg == Color::LightRed ==> attribute(fg, bg) / 16 == 12,
        bg == Color::Pink ==> attribute(fg, bg) / 16 == 13,
        bg == Color::Yellow ==> attribute(fg, bg) / 16 == 14,
        bg == Color::White ==> attribute(fg, bg) / 16 == 15,
{
}

/// The keys whose meaning does not depend on caps lock or shift: escape,
/// backspace, tab, enter and space; ctrl and alt are the right-hand keys
/// after the prefix 0xe0 and the left-hand ones otherwise; caps lock, the
/// shifts, the prefix and the function keys are no key.
pub proof fn lemma_fixed_keys(s: MapperState)
    ensures
        key_for(s, 0x01) == Key::Control(ControlKey::ESC),
        key_for(s, 0x0e) == Key::Character(8),
        key_for(s, 0x0f) == Key::Character(9),
        key_for(s, 0x1c) == Key::Character(10),
        key_for(s, 0x39) == Key::Character(0x20),
        s.extend ==> key_for(s, 0x1d) == Key::Control(ControlKey::RCTRL),
        !s.extend ==> key_for(s, 0x1d) == Key::Control(ControlKey::LCTRL),
        s.extend ==> key_for(s, 0x38) == Key::Control(ControlKey::RALT),
        !s.extend ==> key_for(s, 0x38) == Key::Control(ControlKey::LALT),
        key_for(s, 0x3a) == Key::Nothing,
        key_for(s, 0x2a) == Key::Nothing && key_for(s, 0x36) == Key::Nothing,
        key_for(s, 0xaa) == Key::Nothing && key_for(s, 0xb6) == Key::Nothing,
        key_for(s, 0xe0) == Key::Nothing,
        forall|f: u8|
            (0x3b <= f <= 0x44 || f == 0x57 || f == 0x58) ==> #[trigger] key_for(s, f)
                == Key::Nothing,
{
}

/// Every other make code is a character from the tables: the shifted one
/// when exactly one of caps lock and shift is on, the unshifted one
/// otherwise.
pub proof fn lemma_table_keys(s: MapperState, scancode: u8)
    requires
        scancode < 0x80,
        scancode != 0x01 && scancode != 0x0e && scancode != 0x0f && scancode != 0x1c
            && scancode != 0x39 && scancode != 0x1d && scancode != 0x38 && scancode != 0x3a
            && scancode != 0x2a && scancode != 0x36 && !(0x3b <= scancode <= 0x44)
            && scancode != 0x57 && scancode != 0x58,
    ensures
        s.caps_lock != s.hold_shift ==> key_for(s, scancode) == Key::Character(
            uppercase_table()[scancode as int],
        ),
        s.caps_lock == s.hold_shift ==> key_for(s, scancode) == Key::Character(
            lowercase_table()[scancode as int],
        ),
{
}

/// The tables follow the US keyboard layout: the digit row, the three
/// letter rows and the keypad minus, 5 and plus, unshifted and shifted.
pub proof fn lemma_layout()
    ensures
        lowercase_table().subrange(0x02, 0x0e) =~= seq![
            0x31u8, 0x32, 0x33, 0x34, 0x35, 0x36, 0x37, 0x38, 0x39, 0x30, 0x2d, 0x3d,
        ],
        uppercase_table().subrange(0x02, 0x0e) =~= seq![
            0x21u8, 0x40, 0x23, 0x24, 0x25, 0x5e, 0x26, 0x2a, 0x28, 0x29, 0x5f, 0x2b,
        ],
        lowercase_table().subrange(0x10, 0x1c) =~= seq![
            0x71u8, 0x77, 0x65, 0x72, 0x74, 0x79, 0x75, 0x69, 0x6f, 0x70, 0x5b, 0x5d,
        ],
        uppercase_table().subrange(0x10, 0x1c) =~= seq![
            0x51u8, 0x57, 0x45, 0x52, 0x54, 0x59, 0x55, 0x49, 0x4f, 0x50, 0x7b, 0x7d,
        ],
        lowercase_table().subrange(0x1e, 0x2a) =~= seq![
            0x61u8, 0x73, 0x64, 0x66, 0x67, 0x68, 0x6a, 0x6b, 0x6c, 0x3b, 0x27, 0x60,
        ],
        uppercase_table().subrange(0x1e, 0x2a) =~= seq![
            0x41u8, 0x53, 0x44, 0x46, 0x47, 0x48, 0x4a, 0x4b, 0x4c, 0x3a, 0x22, 0x7e,
        ],
        lowercase_table().subrange(0x2b, 0x36) =~= seq![
            0x5cu8, 0x7a, 0x78, 0x63, 0x76, 0x62, 0x6e, 0x6d, 0x2c, 0x2e, 0x2f,
        ],
        uppercase_table().subrange(0x2b, 0x36) =~= seq![
            0x7cu8, 0x5a, 0x58, 0x43, 0x56, 0x42, 0x4e, 0x4d, 0x3c, 0x3e, 0x3f,
        ],
        lowercase_table()[0x37] == 0x2a && uppercase_table()[0x37] == 0x2a,
        lowercase_table()[0x4a] == 0x2d && uppercase_table()[0x4a] == 0x2d,
        lowercase_table()[0x4c] == 0x35 && uppercase_table()[0x4c] == 0x35,
        lowercase_table()[0x4e] == 0x2b && uppercase_table()[0x4e] == 0x2b,
        lowercase_table()[0x39] == 0x20 && uppercase_table()[0x39] == 0x20,
        forall|i: int|
            0 <= i < 128 && !((0x02 <= i < 0x0e) || (0x10 <= i < 0x1c) || (0x1e <= i < 0x2a) || (0x2b
                <= i < 0x36) || i == 0x37 || i == 0x39 || i == 0x4a || i == 0x4c || i == 0x4e)
                ==> #[trigger] lowercase_table()[i] == 0x5f && uppercase_table()[i] == 0x5f,
{
    lemma_tables();
    reveal_strlit(
        "__1234567890-=__qwertyuiop[]__asdfghjkl;'`_\\zxcvbnm,./_*_ ________________-_5_+_________________________________________________",
    );
    reveal_strlit(
        "__!@#$%^&*()_+__QWERTYUIOP{}__ASDFGHJKL:\"~_|ZXCVBNM<>?_*_ ________________-_5_+_________________________________________________",
    );
}

/// Each piece of the state changes only on its own scancodes: caps lock
/// flips on 0x3a and on nothing else, shift changes only on its make and
/// break codes, and the prefix starts on 0xe0 and lasts until ctrl or alt.
pub proof fn lemma_state_changes(s: MapperState, scancode: u8)
    ensures
        next_state(s, 0x3a).caps_lock == !s.caps_lock,
        scancode != 0x3a ==> next_state(s, scancode).caps_lock == s.caps_lock,
        next_state(s, 0x2a).hold_shift && next_state(s, 0x36).hold_shift,
        !next_state(s, 0xaa).hold_shift && !next_state(s, 0xb6).hold_shift,
        scancode != 0x2a && scancode != 0x36 && scancode != 0xaa && scancode != 0xb6
            ==> next_state(s, scancode).hold_shift == s.hold_shift,
        next_state(s, 0xe0).extend,
        !next_state(s, 0x1d).extend && !next_state(s, 0x38).extend,
        scancode != 0xe0 && scancode != 0x1d && scancode != 0x38 ==> next_state(
            s,
            scancode,
        ).extend == s.extend,
        !initial_state().caps_lock && !initial_state().hold_shift && !initial_state().extend,
{
}

} // verus!
