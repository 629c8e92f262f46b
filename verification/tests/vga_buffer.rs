use smos::enum_define::{Color, ColorCode};
use smos::io::vga_buffer::{Buffer, ScreenChar, Writer, BUFFER_HEIGHT, BUFFER_WIDTH};

fn blank() -> ScreenChar {
    ScreenChar { ascii_character: b' ', color_code: ColorCode::new(Color::White, Color::Black) }
}

fn fresh(color: ColorCode) -> Writer {
    Writer::new(color, Buffer { chars: [[blank(); BUFFER_WIDTH]; BUFFER_HEIGHT] })
}

fn byte_at(w: &Writer, row: usize, col: usize) -> u8 {
    w.screen().chars[row][col].ascii_character
}

fn row_text(w: &Writer, row: usize, len: usize) -> Vec<u8> {
    (0..len).map(|c| byte_at(w, row, c)).collect()
}

#[test]
fn text_appears_under_the_cursor() {
    let color = ColorCode::new(Color::Yellow, Color::Blue);
    let mut w = fresh(color);
    w.write_string("hello");
    assert_eq!(row_text(&w, 0, 6), b"hello ".to_vec());
    assert_eq!(w.screen().chars[0][4].color_code, color);
    assert_eq!(w.screen().chars[0][5].color_code, ColorCode(0x0f));
    assert_eq!((w.row(), w.column()), (0, 5));
}

#[test]
fn write_byte_puts_one_cell() {
    let mut w = fresh(ColorCode(0x0f));
    w.write_byte(b'x');
    assert_eq!(byte_at(&w, 0, 0), b'x');
    assert_eq!(w.column(), 1);
}

#[test]
fn bytes_outside_code_page_show_as_block() {
    let mut w = fresh(ColorCode(0x0f));
    w.write_string("a\u{e9}b~");
    assert_eq!(row_text(&w, 0, 5), vec![b'a', 0xfe, 0xfe, b'b', b'~']);
    assert_eq!(w.column(), 5);
}

#[test]
fn newline_moves_to_next_row() {
    let mut w = fresh(ColorCode(0x0f));
    w.write_string("ab\ncd");
    assert_eq!(row_text(&w, 0, 2), b"ab".to_vec());
    assert_eq!(row_text(&w, 1, 2), b"cd".to_vec());
    assert_eq!((w.row(), w.column()), (1, 2));
}

#[test]
fn newline_on_last_row_scrolls() {
    let mut w = fresh(ColorCode(0x0f));
    for i in 0..BUFFER_HEIGHT {
        let line = format!("line{}\n", i);
        w.write_string(&line);
    }
    assert_eq!(w.row(), BUFFER_HEIGHT - 1);
    assert_eq!(w.column(), 0);
    assert_eq!(row_text(&w, 0, 5), b"line1".to_vec());
    assert_eq!(row_text(&w, 23, 6), b"line24".to_vec());
    for c in 0..BUFFER_WIDTH {
        assert_eq!(w.screen().chars[24][c], blank());
    }
}

#[test]
fn scroll_blanks_last_row_white_on_black() {
    let color = ColorCode::new(Color::Red, Color::Green);
    let mut w = fresh(color);
    for _ in 0..BUFFER_HEIGHT - 1 {
        w.write_byte(b'\n');
    }
    w.write_string("zz\n");
    assert_eq!(byte_at(&w, 23, 0), b'z');
    assert_eq!(w.screen().chars[23][0].color_code, color);
    assert_eq!(w.screen().chars[24][0], blank());
}

#[test]
fn long_line_wraps() {
    let mut w = fresh(ColorCode(0x0f));
    let text: String = std::iter::repeat('x').take(BUFFER_WIDTH).collect();
    w.write_string(&text);
    assert_eq!((w.row(), w.column()), (0, BUFFER_WIDTH));
    w.write_string("y");
    assert_eq!(byte_at(&w, 1, 0), b'y');
    assert_eq!((w.row(), w.column()), (1, 1));
}

#[test]
fn tab_moves_to_next_stop() {
    let mut w = fresh(ColorCode(0x0f));
    w.write_string("ab\tc");
    assert_eq!(byte_at(&w, 0, 4), b'c');
    assert_eq!(byte_at(&w, 0, 2), b' ');
    w.write_string("\t");
    assert_eq!(w.column(), 8);
    w.write_string("\t");
    assert_eq!(w.column(), 12);
}

#[test]
fn tab_near_the_end_stops_at_last_column() {
    let mut w = fresh(ColorCode(0x0f));
    let text: String = std::iter::repeat('x').take(77).collect();
    w.write_string(&text);
    w.write_string("\t");
    assert_eq!(w.column(), BUFFER_WIDTH - 1);
    w.write_string("\t");
    assert_eq!(w.column(), BUFFER_WIDTH - 1);
}

#[test]
fn carriage_return_overwrites_line() {
    let mut w = fresh(ColorCode(0x0f));
    w.write_string("abc\rX");
    assert_eq!(row_text(&w, 0, 3), b"Xbc".to_vec());
    assert_eq!((w.row(), w.column()), (0, 1));
}

#[test]
fn backspace_steps_back() {
    let mut w = fresh(ColorCode(0x0f));
    w.write_string("ab\u{8}c");
    assert_eq!(row_text(&w, 0, 2), b"ac".to_vec());
    assert_eq!(w.column(), 2);
}

#[test]
fn backspace_in_first_column_is_refused() {
    let w = fresh(ColorCode(0x0f));
    assert!(!w.accepts("\u{8}"));
    assert!(!w.accepts("ab\r\u{8}"));
    assert!(w.accepts("ab\u{8}\u{8}"));
    assert!(!w.accepts("ab\u{8}\u{8}\u{8}"));
    assert!(w.accepts("hello\n\tworld"));
}

#[test]
fn new_keeps_the_given_screen() {
    let mut chars = [[blank(); BUFFER_WIDTH]; BUFFER_HEIGHT];
    chars[3][7] = ScreenChar { ascii_character: b'Q', color_code: ColorCode(0x4e) };
    let w = Writer::new(ColorCode(0x0f), Buffer { chars });
    assert_eq!(w.screen().chars, chars);
    assert_eq!((w.row(), w.column()), (0, 0));
}

#[test]
fn scrolling_moves_every_row_up() {
    let mut w = fresh(ColorCode(0x0f));
    for r in 0..BUFFER_HEIGHT {
        w.write_byte(b'a' + r as u8);
        if r + 1 < BUFFER_HEIGHT {
            w.write_byte(b'\n');
        }
    }
    let before = w.screen().chars;
    w.write_byte(b'\n');
    for r in 0..BUFFER_HEIGHT - 1 {
        assert_eq!(w.screen().chars[r], before[r + 1]);
    }
    assert_eq!(w.screen().chars[BUFFER_HEIGHT - 1], [blank(); BUFFER_WIDTH]);
}

#[test]
fn two_writes_equal_one_write_of_the_concatenation() {
    let a = "ab\tc\u{e9}\r";
    let b = "x\u{8}y\nz";
    let mut w1 = fresh(ColorCode(0x1e));
    let mut w2 = fresh(ColorCode(0x1e));
    let ab = format!("{}{}", a, b);
    assert!(w1.accepts(&ab));
    w1.write_string(&ab);
    w2.write_string(a);
    assert!(w2.accepts(b));
    w2.write_string(b);
    assert_eq!(w1.screen().chars, w2.screen().chars);
    assert_eq!((w1.row(), w1.column()), (w2.row(), w2.column()));
    let before = w1.screen().chars;
    w1.write_string("");
    assert_eq!(w1.screen().chars, before);
    assert_eq!((w1.row(), w1.column()), (w2.row(), w2.column()));
}
