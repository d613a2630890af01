//! The text-mode screen: 25 rows of 80 coloured characters, written at the
//! bottom row and scrolled upwards.

use vstd::prelude::*;
use vstd::string::StringSliceAdditionalSpecFns;

verus! {

/// Number of columns of the screen.
pub const BUFFER_WIDTH: usize = 80;

/// Number of rows of the screen.
pub const BUFFER_HEIGHT: usize = 25;

/// Number of cells of the screen.
pub const BUFFER_CELLS: usize = 2000;

/// The byte of a space.
pub const SPACE: u8 = 0x20;

/// The byte of a line feed.
pub const LINE_FEED: u8 = 0x0a;

/// The byte shown in place of one that cannot be printed.
pub const UNPRINTABLE: u8 = 0xfe;

/// The sixteen colours of the text mode.
#[derive(Debug, Clone, Copy, PartialEq, Eq, Structural)]
pub enum Color {
    Black,
    Blue,
    Green,
    Cyan,
    Red,
    Magenta,
    Brown,
    LightGray,
    DarkGray,
    LightBlue,
    LightGreen,
    LightCyan,
    LightRed,
    Pink,
    Yellow,
    White,
}

impl Color {
    /// The number that the hardware knows the colour by.
    pub open spec fn value(self) -> u8 {
        match self {
            Color::Black => 0,
            Color::Blue => 1,
            Color::Green => 2,
            Color::Cyan => 3,
            Color::Red => 4,
            Color::Magenta => 5,
            Color::Brown => 6,
            Color::LightGray => 7,
            Color::DarkGray => 8,
            Color::LightBlue => 9,
            Color::LightGreen => 10,
            Color::LightCyan => 11,
            Color::LightRed => 12,
            Color::Pink => 13,
            Color::Yellow => 14,
            Color::White => 15,
        }
    }

    /// The number that the hardware knows the colour by.
    pub fn code(self) -> (code: u8)
        ensures
            code == self.value(),
            code < 16,
    {
        match self {
            Color::Black => 0,
            Color::Blue => 1,
            Color::Green => 2,
            Color::Cyan => 3,
            Color::Red => 4,
            Color::Magenta => 5,
            Color::Brown => 6,
            Color::LightGray => 7,
            Color::DarkGray => 8,
            Color::LightBlue => 9,
            Color::LightGreen => 10,
            Color::LightCyan => 11,
            Color::LightRed => 12,
            Color::Pink => 13,
            Color::Yellow => 14,
            Color::White => 15,
        }
    }
}

/// A foreground and a background colour in one byte.
#[derive(Debug, Clone, Copy, PartialEq, Eq, Structural)]
pub struct ColorCode(pub u8);

impl ColorCode {
    /// The colour byte: the background in the upper four bits, the
    /// foreground in the lower four.
    pub fn new(foreground: Color, background: Color) -> (code: ColorCode)
        ensures
            code.0 == background.value() * 16 + foreground.value(),
    {
        let high: u8 = background.code();
        let low: u8 = foreground.code();
        assert((high << 4 | low) == high * 16 + low) by (bit_vector)
            requires
                high < 16,
                low < 16,
        ;
        ColorCode(high << 4 | low)
    }
}

/// One cell of the screen.
#[derive(Debug, Clone, Copy, PartialEq, Eq, Structural)]
pub struct ScreenChar {
    /// The character's byte in code page 437.
    pub ascii_character: u8,
    /// The colours of the cell.
    pub color_code: ColorCode,
}

/// The bytes of text-mode memory that show `text` in one colour: each byte
/// of the text followed by the colour byte.
pub open spec fn colored_bytes(text: Seq<u8>, color: u8) -> Seq<u8> {
    Seq::new(
        2 * text.len(),
        |j: int|
            if j % 2 == 0 {
                text[j / 2]
            } else {
                color
            },
    )
}

/// Lays out `text` for text-mode memory, every byte in the colour `color`.
pub fn colored_text(text: &[u8], color: u8) -> (cells: Vec<u8>)
    ensures
        cells@ == colored_bytes(text@, color),
{
    let mut cells: Vec<u8> = Vec::new();
    let mut i: usize = 0;
    while i < text.len()
        invariant
            i <= text@.len(),
            cells@.len() == 2 * i,
            forall|j: int|
                0 <= j < 2 * i ==> #[trigger] cells@[j] == if j % 2 == 0 {
                    text@[j / 2]
                } else {
                    color
                },
        decreases text@.len() - i,
    {
        cells.push(text[i]);
        cells.push(color);
        i += 1;
    }
    assert(cells@ =~= colored_bytes(text@, color));
    cells
}

/// The screen as a writer sees it: the column of the next character in the
/// bottom row, the cells row after row, and the colours of what is written.
pub struct Screen {
    pub column: nat,
    pub cells: Seq<ScreenChar>,
    pub color_code: ColorCode,
}

/// The cell that clearing leaves behind: a space in the writer's colours.
pub open spec fn blank_cell(color_code: ColorCode) -> ScreenChar {
    ScreenChar { ascii_character: 0x20, color_code }
}

/// The cells with `row` filled with blanks.
pub open spec fn cleared_row(cells: Seq<ScreenChar>, row: int, color_code: ColorCode) -> Seq<
    ScreenChar,
> {
    Seq::new(
        cells.len(),
        |i: int|
            if row * 80 <= i < row * 80 + 80 {
                blank_cell(color_code)
            } else {
                cells[i]
            },
    )
}

/// The screen after a line break: every row moves up by one, the top row is
/// lost, the bottom row is blank and the column is zero.
pub open spec fn after_new_line(screen: Screen) -> Screen {
    Screen {
        column: 0,
        cells: Seq::new(
            2000,
            |i: int|
                if i < 1920 {
                    screen.cells[i + 80]
                } else {
                    blank_cell(screen.color_code)
                },
        ),
        color_code: screen.color_code,
    }
}

/// The screen after one byte: a line feed breaks the line; any other byte is
/// put at the column in the bottom row, after a line break if the row is
/// full, and the column moves on by one.
pub open spec fn after_byte(screen: Screen, byte: u8) -> Screen {
    if byte == 0x0a {
        after_new_line(screen)
    } else {
        let start = if screen.column >= 80 {
            after_new_line(screen)
        } else {
            screen
        };
        Screen {
            column: start.column + 1,
            cells: start.cells.update(
                1920 + start.column as int,
                ScreenChar { ascii_character: byte, color_code: screen.color_code },
            ),
            color_code: screen.color_code,
        }
    }
}

/// The byte shown for a byte of text: itself where it is printable or a line
/// feed, the replacement byte otherwise.
pub open spec fn shown_byte(byte: u8) -> u8 {
    if 0x20 <= byte <= 0x7e || byte == 0x0a {
        byte
    } else {
        UNPRINTABLE
    }
}

/// The screen after the bytes of a text, one after another.
pub open spec fn after_bytes(screen: Screen, bytes: Seq<u8>) -> Screen
    decreases bytes.len(),
{
    if bytes.len() == 0 {
        screen
    } else {
        after_byte(
            after_bytes(screen, bytes.drop_last()),
            shown_byte(bytes.last()),
        )
    }
}

/// Writes text to the bottom row of the screen.
pub struct Writer {
    column_position: usize,
    color_code: ColorCode,
    buffer: Vec<ScreenChar>,
}

impl View for Writer {
    type V = Screen;

    closed spec fn view(&self) -> Screen {
        Screen {
            column: self.column_position as nat,
            cells: self.buffer@,
            color_code: self.color_code,
        }
    }
}

impl Writer {
    /// The colours that the writer gives to what it writes.
    pub open spec fn colors(&self) -> ColorCode {
        self@.color_code
    }

    /// The screen has all its cells and the column lies in the bottom row or
    /// just past its end.
    pub open spec fn well_formed(&self) -> bool {
        &&& self@.cells.len() == 2000
        &&& self@.column <= 80
    }

    /// A writer at column zero of a blank screen.
    pub fn new(color_code: ColorCode) -> (writer: Self)
        ensures
            writer.well_formed(),
            writer.colors() == color_code,
            writer@.column == 0,
            forall|i: int| 0 <= i < 2000 ==> #[trigger] writer@.cells[i] == blank_cell(color_code),
    {
        let blank = ScreenChar { ascii_character: SPACE, color_code };
        let mut buffer: Vec<ScreenChar> = Vec::new();
        let mut i: usize = 0;
        while i < BUFFER_CELLS
            invariant
                i <= 2000,
                buffer@.len() == i,
                blank == blank_cell(color_code),
                forall|k: int| 0 <= k < i ==> #[trigger] buffer@[k] == blank,
            decreases 2000 - i,
        {
            buffer.push(blank);
            i += 1;
        }
        Writer { column_position: 0, color_code, buffer }
    }

    /// A writer at column zero over the cells that the screen already shows,
    /// row after row; `None` unless there are 25 rows of 80 cells.
    pub fn with_cells(color_code: ColorCode, cells: Vec<ScreenChar>) -> (writer: Option<Self>)
        ensures
            writer.is_some() == (cells@.len() == 2000),
            writer matches Some(made) ==> made.well_formed() && made@ == (Screen {
                column: 0,
                cells: cells@,
                color_code,
            }),
    {
        if cells.len() == BUFFER_CELLS {
            Some(Writer { column_position: 0, color_code, buffer: cells })
        } else {
            None
        }
    }

    /// The column of the next character.
    pub fn column_position(&self) -> (column: usize)
        ensures
            column == self@.column,
    {
        self.column_position
    }

    /// The cell at `row` and `col`.
    pub fn char_at(&self, row: usize, col: usize) -> (cell: ScreenChar)
        requires
            self.well_formed(),
            row < 25,
            col < 80,
        ensures
            cell == self@.cells[row * 80 + col],
    {
        self.buffer[row * BUFFER_WIDTH + col]
    }

    /// Writes one byte: a line feed starts a new line, any other byte goes to
    /// the bottom row, on a new line if the row is full.
    pub fn write_byte(&mut self, byte: u8)
        requires
            old(self).well_formed(),
        ensures
            final(self).well_formed(),
            final(self).colors() == old(self).colors(),
            final(self)@ == after_byte(old(self)@, byte),
    {
        if byte == LINE_FEED {
            self.new_line();
        } else {
            if self.column_position >= BUFFER_WIDTH {
                self.new_line();
            }
            let row = BUFFER_HEIGHT - 1;
            let col = self.column_position;
            let color_code = self.color_code;
            self.buffer[row * BUFFER_WIDTH + col] = ScreenChar { ascii_character: byte, color_code };
            self.column_position += 1;
        }
    }

    /// Writes a text byte by byte; a byte that is neither printable nor a
    /// line feed is shown as the replacement byte.
    pub fn write_string(&mut self, s: &str)
        requires
            old(self).well_formed(),
        ensures
            final(self).well_formed(),
            final(self).colors() == old(self).colors(),
            final(self)@ == after_bytes(old(self)@, s.spec_bytes()),
    {
        let bytes = s.as_bytes();
        let mut i: usize = 0;
        while i < bytes.len()
            invariant
                i <= bytes@.len(),
                bytes@ == s.spec_bytes(),
                self.well_formed(),
                self.colors() == old(self).colors(),
                self@ == after_bytes(old(self)@, bytes@.take(i as int)),
            decreases bytes@.len() - i,
        {
            let byte = bytes[i];
            proof {
                assert(bytes@.take(i + 1).drop_last() =~= bytes@.take(i as int));
            }
            if (0x20 <= byte && byte <= 0x7e) || byte == LINE_FEED {
                self.write_byte(byte);
            } else {
                self.write_byte(UNPRINTABLE);
            }
            i += 1;
        }
        proof {
            assert(bytes@.take(i as int) =~= bytes@);
        }
    }

    /// Moves every row up by one, blanks the bottom row and goes back to
    /// column zero.
    pub fn new_line(&mut self)
        requires
            old(self).well_formed(),
        ensures
            final(self).well_formed(),
            final(self).colors() == old(self).colors(),
            final(self)@ == after_new_line(old(self)@),
    {
        let mut row: usize = 1;
        while row < BUFFER_HEIGHT
            invariant
                1 <= row <= 25,
                old(self).well_formed(),
                self.column_position == old(self).column_position,
                self.buffer@.len() == 2000,
                self.color_code == old(self).color_code,
                forall|i: int|
                    0 <= i < (row - 1) * 80 ==> #[trigger] self.buffer@[i] == old(self).buffer@[i
                        + 80],
                forall|i: int|
                    (row - 1) * 80 <= i < 2000 ==> #[trigger] self.buffer@[i] == old(
                        self,
                    ).buffer@[i],
            decreases 25 - row,
        {
            let mut col: usize = 0;
            while col < BUFFER_WIDTH
                invariant
                    1 <= row < 25,
                    col <= 80,
                    old(self).well_formed(),
                    self.column_position == old(self).column_position,
                    self.buffer@.len() == 2000,
                    self.color_code == old(self).color_code,
                    forall|i: int|
                        0 <= i < (row - 1) * 80 + col ==> #[trigger] self.buffer@[i] == old(
                            self,
                        ).buffer@[i + 80],
                    forall|i: int|
                        (row - 1) * 80 + col <= i < 2000 ==> #[trigger] self.buffer@[i] == old(
                            self,
                        ).buffer@[i],
                decreases 80 - col,
            {
                let character = self.buffer[row * BUFFER_WIDTH + col];
                self.buffer[(row - 1) * BUFFER_WIDTH + col] = character;
                col += 1;
            }
            row += 1;
        }
        self.clear_row(BUFFER_HEIGHT - 1);
        self.column_position = 0;
        assert(self@.cells =~= after_new_line(old(self)@).cells);
    }

    /// Fills `row` with blanks in the writer's colours.
    pub fn clear_row(&mut self, row: usize)
        requires
            old(self).well_formed(),
            row < 25,
        ensures
            final(self).well_formed(),
            final(self).colors() == old(self).colors(),
            final(self)@.column == old(self)@.column,
            final(self)@.cells == cleared_row(old(self)@.cells, row as int, old(self).colors()),
    {
        let blank = ScreenChar { ascii_character: SPACE, color_code: self.color_code };
        let mut col: usize = 0;
        while col < BUFFER_WIDTH
            invariant
                row < 25,
                col <= 80,
                old(self).well_formed(),
                self.buffer@.len() == 2000,
                self.color_code == old(self).color_code,
                self.column_position == old(self).column_position,
                blank == blank_cell(self.color_code),
                forall|i: int|
                    0 <= i < 2000 ==> #[trigger] self.buffer@[i] == if row * 80 <= i < row * 80
                        + col {
                        blank
                    } else {
                        old(self).buffer@[i]
                    },
            decreases 80 - col,
        {
            self.buffer[row * BUFFER_WIDTH + col] = blank;
            col += 1;
        }
        assert(self@.cells =~= cleared_row(old(self)@.cells, row as int, old(self).colors()));
    }
}

} // verus!
