use smos::enum_define::{Color, ColorCode};

#[test]
fn white_on_black_is_0x0f() {
    assert_eq!(ColorCode::new(Color::White, Color::Black), ColorCode(0x0f));
}

#[test]
fn yellow_on_blue_is_0x1e() {
    assert_eq!(ColorCode::new(Color::Yellow, Color::Blue).0, 0x1e);
}

#[test]
fn attribute_nibbles_give_back_the_colours() {
    let code = ColorCode::new(Color::LightGreen, Color::Magenta).0;
    assert_eq!(code & 0x0f, 10);
    assert_eq!(code >> 4, 5);
}

#[test]
fn different_pairs_have_different_attributes() {
    let all = [
        Color::Black,
        Color::Blue,
        Color::Green,
        Color::Cyan,
        Color::Red,
        Color::Magenta,
        Color::Brown,
        Color::LightGray,
        Color::DarkGray,
        Color::LightBlue,
        Color::LightGreen,
        Color::LightCyan,
        Color::LightRed,
        Color::Pink,
        Color::Yellow,
        Color::White,
    ];
    let mut seen = std::collections::HashSet::new();
    for fg in all.iter() {
        for bg in all.iter() {
            assert!(seen.insert(ColorCode::new(*fg, *bg).0));
        }
    }
    assert_eq!(seen.len(), 256);
}
