use vstd::prelude::*;
use vstd::string::StringSliceAdditionalSpecFns;
use crate::enum_define::{Color, ColorCode};

verus! {

/// Rows of the VGA text buffer.
pub const BUFFER_HEIGHT: usize = 25;

/// Columns of the VGA text buffer.
pub const BUFFER_WIDTH: usize = 80;

/// Distance between two tab stops.
pub const TABLE_WIDTH: usize = 4;

/// One cell of the text buffer: a code page 437 byte and its attribute.
#[derive(Debug, Clone, Copy, PartialEq, Eq, Structural)]
pub struct ScreenChar {
    pub ascii_character: u8,
    pub color_code: ColorCode,
}

/// What a writer holds: the cursor, the attribute of new characters, and
/// the rows of the screen.
pub struct WriterState {
    pub row: int,
    pub column: int,
    pub color_code: ColorCode,
    pub rows: Seq<Seq<ScreenChar>>,
}

impl WriterState {
    /// The cursor is on the screen (the column may stand just past the
    /// last one) and the screen has all its rows and columns.
    pub open spec fn wf(self) -> bool {
        &&& 0 <= self.row < BUFFER_HEIGHT
        &&& 0 <= self.column <= BUFFER_WIDTH
        &&& self.rows.len() == BUFFER_HEIGHT
        &&& forall|r: int| 0 <= r < BUFFER_HEIGHT ==> (#[trigger] self.rows[r]).len() == BUFFER_WIDTH
    }
}

/// The cell that scrolling brings in: a space, white on black.
pub open spec fn blank_cell() -> ScreenChar {
    ScreenChar { ascii_character: 0x20, color_code: ColorCode(0x0f) }
}

/// A row of blank cells.
pub open spec fn blank_row() -> Seq<ScreenChar> {
    Seq::new(BUFFER_WIDTH as nat, |c: int| blank_cell())
}

/// A new line: the next row, or, on the last row, every row moved up by
/// one and a blank last row; the column goes back to 0.
pub open spec fn new_line_state(s: WriterState) -> WriterState {
    if s.row == BUFFER_HEIGHT - 1 {
        WriterState {
            column: 0,
            rows: s.rows.subrange(1, BUFFER_HEIGHT as int).push(blank_row()),
            ..s
        }
    } else {
        WriterState { row: s.row + 1, column: 0, ..s }
    }
}

/// The column a tab moves to: the next multiple of the tab width, or the
/// last column when that lies past the screen.
pub open spec fn tab_stop(column: int) -> int {
    let next = (column / TABLE_WIDTH as int + 1) * TABLE_WIDTH as int;
    if next >= BUFFER_WIDTH { BUFFER_WIDTH - 1 } else { next }
}

/// Putting a character: a full line first wraps, then the character goes
/// under the cursor in the writer's colour and the cursor moves right.
pub open spec fn put_state(s: WriterState, byte: u8) -> WriterState {
    let t = if s.column >= BUFFER_WIDTH { new_line_state(s) } else { s };
    WriterState {
        column: t.column + 1,
        rows: t.rows.update(
            t.row,
            t.rows[t.row].update(
                t.column,
                ScreenChar { ascii_character: byte, color_code: t.color_code },
            ),
        ),
        ..t
    }
}

/// One byte: tab, new line, carriage return and backspace move the
/// cursor; any other byte is put on the screen.
pub open spec fn write_byte_state(s: WriterState, byte: u8) -> WriterState {
    if byte == 9 {
        WriterState { column: tab_stop(s.column), ..s }
    } else if byte == 10 {
        new_line_state(s)
    } else if byte == 13 {
        WriterState { column: 0, ..s }
    } else if byte == 8 {
        WriterState { column: s.column - 1, ..s }
    } else {
        put_state(s, byte)
    }
}

/// A byte can be written unless it is a backspace in the first column.
pub open spec fn byte_accepted(s: WriterState, byte: u8) -> bool {
    !(byte == 8 && s.column == 0)
}

/// The byte that a string byte is shown as: printable ASCII and the four
/// control bytes stay, anything else becomes the block 0xfe.
pub open spec fn displayed(byte: u8) -> u8 {
    if (0x20 <= byte <= 0x7e) || byte == 10 || byte == 13 || byte == 9 || byte == 8 {
        byte
    } else {
        0xfe
    }
}

/// The state after the bytes of a string, one after the other.
pub open spec fn write_bytes_state(s: WriterState, bytes: Seq<u8>) -> WriterState
    decreases bytes.len(),
{
    if bytes.len() == 0 {
        s
    } else {
        write_byte_state(write_bytes_state(s, bytes.drop_last()), displayed(bytes.last()))
    }
}

/// No byte of the string is a backspace that reaches the first column.
pub open spec fn bytes_accepted(s: WriterState, bytes: Seq<u8>) -> bool {
    forall|i: int|
        0 <= i < bytes.len() ==> byte_accepted(
            #[trigger] write_bytes_state(s, bytes.take(i)),
            displayed(bytes[i]),
        )
}

/// The text buffer: 25 rows of 80 cells.
pub struct Buffer {
    pub chars: [[ScreenChar; BUFFER_WIDTH]; BUFFER_HEIGHT],
}

/// The rows of a buffer as sequences of cells.
pub open spec fn buffer_rows(buffer: Buffer) -> Seq<Seq<ScreenChar>> {
    buffer.chars@.map_values(|r: [ScreenChar; BUFFER_WIDTH]| r@)
}

/// Writes text into the VGA text buffer.
pub struct Writer {
    row_position: usize,
    colume_position: usize,
    color_code: ColorCode,
    buffer: Buffer,
}

impl Writer {
    #[verifier::type_invariant]
    spec fn inv(self) -> bool {
        &&& self.row_position < BUFFER_HEIGHT
        &&& self.colume_position <= BUFFER_WIDTH
    }

    /// The cursor, the colour and the screen of the writer.
    pub closed spec fn state(&self) -> WriterState {
        WriterState {
            row: self.row_position as int,
            column: self.colume_position as int,
            color_code: self.color_code,
            rows: buffer_rows(self.buffer),
        }
    }

    /// A writer in the top left corner of a screen that shows `buffer`.
    pub fn new(color_code: ColorCode, buffer: Buffer) -> (writer: Writer)
        ensures
            writer@ == (WriterState { row: 0, column: 0, color_code, rows: buffer_rows(buffer) }),
            writer@.wf(),
    {
        Writer { row_position: 0, colume_position: 0, color_code, buffer }
    }

    /// The screen. Every writer's state is well formed: 25 rows of 80
    /// cells, with the cursor on the screen.
    pub fn screen(&self) -> (buffer: &Buffer)
        ensures
            buffer_rows(*buffer) == self@.rows,
            self@.wf(),
    {
        proof {
            use_type_invariant(self);
        }
        &self.buffer
    }

    /// The row of the cursor.
    pub fn row(&self) -> (row: usize)
        ensures
            row == self@.row,
            self@.wf(),
    {
        proof {
            use_type_invariant(self);
        }
        self.row_position
    }

    /// The column of the cursor.
    pub fn column(&self) -> (column: usize)
        ensures
            column == self@.column,
            self@.wf(),
    {
        proof {
            use_type_invariant(self);
        }
        self.colume_position
    }

    pub fn write_byte(&mut self, byte: u8)
        requires
            byte_accepted(old(self)@, byte),
        ensures
            final(self)@ == write_byte_state(old(self)@, byte),
            final(self)@.wf(),
    {
        proof {
            use_type_invariant(&*self);
        }
        match byte {
            9 => {
                let mut new_col_pos = ((self.colume_position / TABLE_WIDTH) + 1) * TABLE_WIDTH;
                if new_col_pos >= BUFFER_WIDTH {
                    new_col_pos = BUFFER_WIDTH - 1;
                }
                self.colume_position = new_col_pos;
            },
            10 => self.new_line(),
            13 => self.colume_position = 0,
            8 => self.colume_position -= 1,
            byte => {
                if self.colume_position >= BUFFER_WIDTH {
                    self.new_line();
                }
                let row = self.row_position;
                let col = self.colume_position;
                let color_code = self.color_code;
                let ghost mid = self@;
                let cell = ScreenChar { ascii_character: byte, color_code };
                self.buffer.chars[row][col] = cell;
                proof {
                    assert(self.buffer.chars@[row as int]@ =~= mid.rows[row as int].update(
                        col as int,
                        cell,
                    ));
                    assert(buffer_rows(self.buffer) =~= mid.rows.update(
                        row as int,
                        mid.rows[row as int].update(col as int, cell),
                    ));
                }
                self.colume_position += 1;
            },
        }
        proof {
            use_type_invariant(&*self);
        }
    }

    fn new_line(&mut self)
        ensures
            final(self)@ == new_line_state(old(self)@),
    {
        proof {
            use_type_invariant(&*self);
        }
        if self.row_position == BUFFER_HEIGHT - 1 {
            let mut row: usize = 1;
            while row < BUFFER_HEIGHT
                invariant
                    1 <= row <= BUFFER_HEIGHT,
                    self.row_position < BUFFER_HEIGHT,
                    self.colume_position <= BUFFER_WIDTH,
                    self.row_position == old(self).row_position,
                    self.colume_position == old(self).colume_position,
                    self.color_code == old(self).color_code,
                    forall|r: int| 0 <= r < row - 1 ==> self.buffer.chars@[r] == old(self).buffer.chars@[r + 1],
                    forall|r: int| row - 1 <= r < BUFFER_HEIGHT ==> self.buffer.chars@[r] == old(self).buffer.chars@[r],
                decreases BUFFER_HEIGHT - row,
            {
                self.buffer.chars[row - 1] = self.buffer.chars[row];
                row += 1;
            }
            let mut col: usize = 0;
            while col < BUFFER_WIDTH
                invariant
                    col <= BUFFER_WIDTH,
                    self.row_position < BUFFER_HEIGHT,
                    self.colume_position <= BUFFER_WIDTH,
                    self.row_position == old(self).row_position,
                    self.colume_position == old(self).colume_position,
                    self.color_code == old(self).color_code,
                    forall|r: int| 0 <= r < BUFFER_HEIGHT - 1 ==> self.buffer.chars@[r] == old(self).buffer.chars@[r + 1],
                    forall|c: int| 0 <= c < col ==> #[trigger] self.buffer.chars@[BUFFER_HEIGHT - 1]@[c] == blank_cell(),
                decreases BUFFER_WIDTH - col,
            {
                self.buffer.chars[BUFFER_HEIGHT - 1][col] = ScreenChar {
                    ascii_character: 0x20,
                    color_code: ColorCode::new(Color::White, Color::Black),
                };
                col += 1;
            }
            proof {
                let s = old(self)@;
                assert(self.buffer.chars@[BUFFER_HEIGHT - 1]@ =~= blank_row());
                assert(buffer_rows(self.buffer) =~= s.rows.subrange(1, BUFFER_HEIGHT as int).push(blank_row()));
            }
        } else {
            self.row_position += 1;
        }
        self.colume_position = 0;
    }

    /// Whether `write_string` accepts `s` from the present state: no
    /// backspace of `s` comes when the cursor is in the first column.
    pub fn accepts(&self, s: &str) -> (ok: bool)
        ensures
            ok == bytes_accepted(self@, s.spec_bytes()),
    {
        proof {
            use_type_invariant(self);
        }
        let bytes = s.as_bytes();
        let mut column = self.colume_position;
        let mut i: usize = 0;
        proof {
            assert(bytes@.take(0) =~= Seq::<u8>::empty());
        }
        while i < bytes.len()
            invariant
                i <= bytes@.len(),
                bytes@ == s.spec_bytes(),
                column <= BUFFER_WIDTH,
                column == write_bytes_state(self@, bytes@.take(i as int)).column,
                forall|j: int|
                    0 <= j < i ==> byte_accepted(
                        #[trigger] write_bytes_state(self@, bytes@.take(j)),
                        displayed(bytes@[j]),
                    ),
            decreases bytes@.len() - i,
        {
            let byte = bytes[i];
            let shown = match byte {
                0x20..=0x7e | 10 | 13 | 9 | 8 => byte,
                _ => 0xfe,
            };
            if shown == 8 && column == 0 {
                proof {
                    assert(!byte_accepted(
                        write_bytes_state(self@, bytes@.take(i as int)),
                        displayed(bytes@[i as int]),
                    ));
                }
                return false;
            }
            proof {
                assert(bytes@.take(i + 1).drop_last() =~= bytes@.take(i as int));
            }
            column = match shown {
                9 => {
                    let next = ((column / TABLE_WIDTH) + 1) * TABLE_WIDTH;
                    if next >= BUFFER_WIDTH {
                        BUFFER_WIDTH - 1
                    } else {
                        next
                    }
                },
                10 | 13 => 0,
                8 => column - 1,
                _ => {
                    if column >= BUFFER_WIDTH {
                        1
                    } else {
                        column + 1
                    }
                },
            };
            i += 1;
        }
        true
    }

    pub fn write_string(&mut self, s: &str)
        requires
            bytes_accepted(old(self)@, s.spec_bytes()),
        ensures
            final(self)@ == write_bytes_state(old(self)@, s.spec_bytes()),
            final(self)@.wf(),
    {
        proof {
            use_type_invariant(&*self);
        }
        let bytes = s.as_bytes();
        let mut i: usize = 0;
        proof {
            assert(bytes@.take(0) =~= Seq::<u8>::empty());
        }
        while i < bytes.len()
            invariant
                i <= bytes@.len(),
                bytes@ == s.spec_bytes(),
                bytes_accepted(old(self)@, bytes@),
                self@ == write_bytes_state(old(self)@, bytes@.take(i as int)),
                self@.wf(),
            decreases bytes@.len() - i,
        {
            let byte = bytes[i];
            let shown = match byte {
                0x20..=0x7e | 10 | 13 | 9 | 8 => byte,
                _ => 0xfe,
            };
            proof {
                assert(bytes@.take(i + 1).drop_last() =~= bytes@.take(i as int));
                assert(byte_accepted(
                    write_bytes_state(old(self)@, bytes@.take(i as int)),
                    displayed(bytes@[i as int]),
                ));
            }
            self.write_byte(shown);
            i += 1;
        }
        proof {
            assert(bytes@.take(bytes@.len() as int) =~= bytes@);
        }
    }
}

impl View for Writer {
    type V = WriterState;

    open spec fn view(&self) -> WriterState {
        self.state()
    }
}

} // verus!

verus! {

/// Every byte is printable ASCII.
pub open spec fn printable(bytes: Seq<u8>) -> bool {
    forall|i: int| 0 <= i < bytes.len() ==> 0x20 <= #[trigger] bytes[i] <= 0x7e
}

/// An accepted byte keeps the cursor on the screen and the screen whole.
pub proof fn lemma_write_byte_wf(s: WriterState, byte: u8)
    requires
        s.wf(),
        byte_accepted(s, byte),
    ensures
        write_byte_state(s, byte).wf(),
{
}

/// Accepted bytes keep the cursor on the screen and the screen whole.
pub proof fn lemma_write_bytes_wf(s: WriterState, bytes: Seq<u8>)
    requires
        s.wf(),
        bytes_accepted(s, bytes),
    ensures
        write_bytes_state(s, bytes).wf(),
    decreases bytes.len(),
{
    if bytes.len() > 0 {
        let prefix = bytes.drop_last();
        assert forall|i: int| 0 <= i < prefix.len() implies byte_accepted(
            #[trigger] write_bytes_state(s, prefix.take(i)),
            displayed(prefix[i]),
        ) by {
            assert(prefix.take(i) =~= bytes.take(i));
            assert(byte_accepted(write_bytes_state(s, bytes.take(i)), displayed(bytes[i])));
        }
        lemma_write_bytes_wf(s, prefix);
        assert(bytes.take(prefix.len() as int) =~= prefix);
        assert(byte_accepted(
            write_bytes_state(s, bytes.take(prefix.len() as int)),
            displayed(bytes[prefix.len() as int]),
        ));
        lemma_write_byte_wf(write_bytes_state(s, prefix), displayed(bytes.last()));
    }
}

/// Printable text that fits on the rest of the line appears under the
/// cursor, byte by byte, in the writer's colour; the cursor moves past it
/// and no other cell changes.
pub proof fn lemma_write_printable(s: WriterState, bytes: Seq<u8>)
    requires
        s.wf(),
        printable(bytes),
        s.column + bytes.len() <= BUFFER_WIDTH,
    ensures
        bytes_accepted(s, bytes),
        write_bytes_state(s, bytes).wf(),
        write_bytes_state(s, bytes).row == s.row,
        write_bytes_state(s, bytes).column == s.column + bytes.len(),
        write_bytes_state(s, bytes).color_code == s.color_code,
        forall|k: int|
            0 <= k < bytes.len() ==> write_bytes_state(s, bytes).rows[s.row][s.column + k] == (
            ScreenChar { ascii_character: bytes[k], color_code: s.color_code }),
        forall|c: int|
            0 <= c < BUFFER_WIDTH && !(s.column <= c < s.column + bytes.len())
                ==> write_bytes_state(s, bytes).rows[s.row][c] == s.rows[s.row][c],
        forall|r: int|
            0 <= r < BUFFER_HEIGHT && r != s.row ==> write_bytes_state(s, bytes).rows[r]
                == s.rows[r],
    decreases bytes.len(),
{
    if bytes.len() > 0 {
        let prefix = bytes.drop_last();
        assert(printable(prefix)) by {
            assert forall|i: int| 0 <= i < prefix.len() implies 0x20 <= #[trigger] prefix[i]
                <= 0x7e by {
                assert(prefix[i] == bytes[i]);
            }
        }
        lemma_write_printable(s, prefix);
        let t = write_bytes_state(s, prefix);
        let last = bytes.last();
        assert(0x20 <= bytes[bytes.len() - 1] <= 0x7e);
        assert(displayed(last) == last);
        assert(write_bytes_state(s, bytes) == put_state(t, last));
        assert forall|k: int| 0 <= k < bytes.len() implies write_bytes_state(s, bytes).rows[s.row][s.column
            + k] == (ScreenChar { ascii_character: bytes[k], color_code: s.color_code }) by {
            if k < prefix.len() {
                assert(prefix[k] == bytes[k]);
            }
        }
        assert forall|i: int| 0 <= i < bytes.len() implies byte_accepted(
            #[trigger] write_bytes_state(s, bytes.take(i)),
            displayed(bytes[i]),
        ) by {
            assert(0x20 <= bytes[i] <= 0x7e);
        }
    } else {
        assert forall|i: int| 0 <= i < bytes.len() implies byte_accepted(
            #[trigger] write_bytes_state(s, bytes.take(i)),
            displayed(bytes[i]),
        ) by {}
    }
}

/// A new line moves the cursor to the start of the next row; on the last
/// row it scrolls: every row takes the contents of the row below it and
/// the last row becomes blank.
pub proof fn lemma_new_line_scrolls(s: WriterState)
    requires
        s.wf(),
    ensures
        write_byte_state(s, 10).wf(),
        write_byte_state(s, 10).column == 0,
        write_byte_state(s, 10).color_code == s.color_code,
        s.row < BUFFER_HEIGHT - 1 ==> write_byte_state(s, 10).row == s.row + 1
            && write_byte_state(s, 10).rows == s.rows,
        s.row == BUFFER_HEIGHT - 1 ==> write_byte_state(s, 10).row == s.row,
        s.row == BUFFER_HEIGHT - 1 ==> forall|r: int|
            0 <= r < BUFFER_HEIGHT - 1 ==> #[trigger] write_byte_state(s, 10).rows[r] == s.rows[r
                + 1],
        s.row == BUFFER_HEIGHT - 1 ==> write_byte_state(s, 10).rows[BUFFER_HEIGHT - 1]
            == blank_row(),
        s.row == BUFFER_HEIGHT - 1 ==> forall|c: int|
            0 <= c < 80 ==> #[trigger] write_byte_state(s, 10).rows[24][c] == (ScreenChar {
                ascii_character: 0x20,
                color_code: ColorCode(0x0f),
            }),
{
}

/// Tab, carriage return and backspace move the cursor along its row and
/// leave the screen as it is; a tab goes to the next multiple of the tab
/// width, or to the last column when that lies past the screen.
pub proof fn lemma_cursor_bytes(s: WriterState, byte: u8)
    requires
        s.wf(),
        byte == 9 || byte == 13 || byte == 8,
        byte_accepted(s, byte),
    ensures
        write_byte_state(s, byte).rows == s.rows,
        write_byte_state(s, byte).row == s.row,
        write_byte_state(s, byte).color_code == s.color_code,
        byte == 13 ==> write_byte_state(s, byte).column == 0,
        byte == 8 ==> write_byte_state(s, byte).column == s.column - 1,
        byte == 9 ==> write_byte_state(s, byte).column <= BUFFER_WIDTH - 1,
        byte == 9 && s.column < 76 ==> write_byte_state(s, byte).column % 4 == 0 && s.column
            < write_byte_state(s, byte).column <= s.column + 4,
        byte == 9 && s.column >= 76 ==> write_byte_state(s, byte).column == 79,
{
}

} // verus!

verus! {

/// Writing two strings one after the other is writing their
/// concatenation, and writing nothing changes nothing.
pub proof fn lemma_write_concat(s: WriterState, x: Seq<u8>, y: Seq<u8>)
    ensures
        write_bytes_state(s, x + y) == write_bytes_state(write_bytes_state(s, x), y),
        write_bytes_state(s, Seq::<u8>::empty()) == s,
    decreases y.len(),
{
    if y.len() == 0 {
        assert(x + y =~= x);
    } else {
        assert((x + y).drop_last() =~= x + y.drop_last());
        assert((x + y).last() == y.last());
        lemma_write_concat(s, x, y.drop_last());
    }
}

/// The concatenation is accepted exactly when the first string is
/// accepted from the start and the second from where the first left off.
pub proof fn lemma_accepted_concat(s: WriterState, x: Seq<u8>, y: Seq<u8>)
    ensures
        bytes_accepted(s, x + y) <==> bytes_accepted(s, x) && bytes_accepted(
            write_bytes_state(s, x),
            y,
        ),
{
    let xy = x + y;
    let t = write_bytes_state(s, x);
    assert forall|i: int| 0 <= i < x.len() implies (#[trigger] xy.take(i)) == x.take(i) && xy[i]
        == x[i] by {
        assert(xy.take(i) =~= x.take(i));
    }
    assert forall|j: int| 0 <= j < y.len() implies write_bytes_state(s, xy.take(x.len() + j))
        == #[trigger] write_bytes_state(t, y.take(j)) && xy[x.len() + j] == y[j] by {
        assert(xy.take(x.len() + j) =~= x + y.take(j));
        lemma_write_concat(s, x, y.take(j));
    }
    if bytes_accepted(s, xy) {
        assert forall|i: int| 0 <= i < x.len() implies byte_accepted(
            #[trigger] write_bytes_state(s, x.take(i)),
            displayed(x[i]),
        ) by {
            assert(xy.take(i) == x.take(i));
            assert(byte_accepted(write_bytes_state(s, xy.take(i)), displayed(xy[i])));
        }
        assert forall|j: int| 0 <= j < y.len() implies byte_accepted(
            #[trigger] write_bytes_state(t, y.take(j)),
            displayed(y[j]),
        ) by {
            assert(write_bytes_state(s, xy.take(x.len() + j)) == write_bytes_state(t, y.take(j)));
            assert(byte_accepted(
                write_bytes_state(s, xy.take(x.len() + j)),
                displayed(xy[x.len() + j]),
            ));
        }
    }
    if bytes_accepted(s, x) && bytes_accepted(t, y) {
        assert forall|i: int| 0 <= i < xy.len() implies byte_accepted(
            #[trigger] write_bytes_state(s, xy.take(i)),
            displayed(xy[i]),
        ) by {
            if i < x.len() {
                assert(xy.take(i) == x.take(i));
                assert(byte_accepted(write_bytes_state(s, x.take(i)), displayed(x[i])));
            } else {
                let j = i - x.len();
                assert(write_bytes_state(s, xy.take(x.len() + j)) == write_bytes_state(
                    t,
                    y.take(j),
                ));
                assert(byte_accepted(write_bytes_state(t, y.take(j)), displayed(y[j])));
            }
        }
    }
}

} // verus!

verus! {

/// Any byte other than tab, new line, carriage return and backspace is put
/// on the screen. Below the end of the line it goes under the cursor in
/// the writer's colour, the cursor moves one column right and no other
/// cell changes. On a full line it lands exactly as if a new line came
/// first: at column 0 of the next row, or, on the last row, after every
/// row has moved up by one, at column 0 of a blank last row.
pub proof fn lemma_put(s: WriterState, byte: u8)
    requires
        s.wf(),
        byte != 8 && byte != 9 && byte != 10 && byte != 13,
    ensures
        write_byte_state(s, byte).wf(),
        s.column < 80 ==> write_byte_state(s, byte).row == s.row && write_byte_state(
            s,
            byte,
        ).column == s.column + 1 && write_byte_state(s, byte).color_code == s.color_code
            && write_byte_state(s, byte).rows == s.rows.update(
            s.row,
            s.rows[s.row].update(
                s.column,
                ScreenChar { ascii_character: byte, color_code: s.color_code },
            ),
        ),
        s.column == 80 ==> write_byte_state(s, byte) == write_byte_state(
            write_byte_state(s, 10),
            byte,
        ),
        s.column == 80 ==> write_byte_state(s, 10).column == 0,
        s.column == 80 && s.row < 24 ==> write_byte_state(s, byte).row == s.row + 1
            && write_byte_state(s, byte).column == 1 && write_byte_state(s, byte).rows
            == s.rows.update(
            s.row + 1,
            s.rows[s.row + 1].update(
                0,
                ScreenChar { ascii_character: byte, color_code: s.color_code },
            ),
        ),
        s.column == 80 && s.row == 24 ==> write_byte_state(s, byte).row == 24
            && write_byte_state(s, byte).column == 1 && (forall|r: int|
            0 <= r < 24 ==> #[trigger] write_byte_state(s, byte).rows[r] == s.rows[r + 1])
            && write_byte_state(s, byte).rows[24][0] == (ScreenChar {
            ascii_character: byte,
            color_code: s.color_code,
        }) && (forall|c: int|
            1 <= c < 80 ==> #[trigger] write_byte_state(s, byte).rows[24][c] == (ScreenChar {
                ascii_character: 0x20,
                color_code: ColorCode(0x0f),
            })),
{
}

/// A string byte is shown as itself when it is printable ASCII or one of
/// the four control bytes, and as the block 0xfe otherwise; a one-byte
/// string is written as the byte it is shown as.
pub proof fn lemma_displayed(s: WriterState, byte: u8)
    ensures
        (0x20 <= byte <= 0x7e) || byte == 8 || byte == 9 || byte == 10 || byte == 13
            ==> displayed(byte) == byte,
        !((0x20 <= byte <= 0x7e) || byte == 8 || byte == 9 || byte == 10 || byte == 13)
            ==> displayed(byte) == 0xfe,
        write_bytes_state(s, seq![byte]) == write_byte_state(s, displayed(byte)),
{
    let one = seq![byte];
    assert(one.drop_last() =~= Seq::<u8>::empty());
    assert(one.last() == byte);
    assert(write_bytes_state(s, one.drop_last()) == s);
}

} // verus!
