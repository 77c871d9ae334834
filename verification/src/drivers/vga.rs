//! # VGA text console
//!
//! A screen writer for the 80x25 VGA text buffer. It tracks the cursor and
//! the colour attribute, wraps at the end of a row, interprets newlines and
//! scrolls the whole screen up by one row when a newline arrives on the
//! last row. The buffer itself is handed in by the caller: on bare metal it
//! is the memory-mapped region at physical address `0xB8000`.

use vstd::prelude::*;
use vstd::string::StringSliceAdditionalSpecFns;

verus! {

/// Number of text rows on the screen.
pub const BUFFER_HEIGHT: usize = 25;

/// Number of character cells in one row.
pub const BUFFER_WIDTH: usize = 80;

/// Number of cells in the whole text buffer.
pub const BUFFER_CELLS: usize = 2000;

/// Standard 16-colour palette of classic x86 VGA text modes.
#[derive(Debug, Clone, Copy, PartialEq, Eq, Structural)]
pub enum Color {
    Black,
    Blue,
    Green,
    Cyan,
    Red,
    Magenta,
    Brown,
    LightGray,
    DarkGray,
    LightBlue,
    LightGreen,
    LightCyan,
    LightRed,
    Pink,
    Yellow,
    White,
}

/// The 4-bit hardware palette index of a colour.
pub open spec fn color_code(c: Color) -> u8 {
    match c {
        Color::Black => 0,
        Color::Blue => 1,
        Color::Green => 2,
        Color::Cyan => 3,
        Color::Red => 4,
        Color::Magenta => 5,
        Color::Brown => 6,
        Color::LightGray => 7,
        Color::DarkGray => 8,
        Color::LightBlue => 9,
        Color::LightGreen => 10,
        Color::LightCyan => 11,
        Color::LightRed => 12,
        Color::Pink => 13,
        Color::Yellow => 14,
        Color::White => 15,
    }
}

impl Color {
    /// The hardware palette index of this colour.
    pub fn code(self) -> (c: u8)
        ensures
            c == color_code(self),
            c < 16,
    {
        match self {
            Color::Black => 0,
            Color::Blue => 1,
            Color::Green => 2,
            Color::Cyan => 3,
            Color::Red => 4,
            Color::Magenta => 5,
            Color::Brown => 6,
            Color::LightGray => 7,
            Color::DarkGray => 8,
            Color::LightBlue => 9,
            Color::LightGreen => 10,
            Color::LightCyan => 11,
            Color::LightRed => 12,
            Color::Pink => 13,
            Color::Yellow => 14,
            Color::White => 15,
        }
    }
}

/// The colour attribute of a cell, already shifted into the high byte:
/// background in bits 12..16, foreground in bits 8..12.
pub open spec fn color_attribute(fg: Color, bg: Color) -> u16 {
    ((color_code(bg) * 16 + color_code(fg)) * 256) as u16
}

/// The 16-bit value of a cell that shows `byte` with the given attribute.
pub open spec fn glyph(byte: u8, attribute: u16) -> u16 {
    (byte as u16) | attribute
}

/// A blank cell (a space) in the given attribute.
pub open spec fn blank(attribute: u16) -> u16 {
    glyph(0x20, attribute)
}

proof fn lemma_attribute_bits(fg: u8, bg: u8)
    requires
        fg < 16,
        bg < 16,
    ensures
        ((((bg << 4u8) | fg) as u16) << 8u16) == ((bg * 16 + fg) * 256) as u16,
{
    assert(((((bg << 4u8) | fg) as u16) << 8u16) == ((bg * 16 + fg) * 256) as u16)
        by (bit_vector)
        requires
            fg < 16,
            bg < 16,
    ;
}


/// What the console shows and where its cursor stands: the mathematical
/// model that the writer's operations are specified against.
pub struct TextScreen {
    /// Row of the cursor.
    pub row: nat,
    /// Column of the cursor; `BUFFER_WIDTH` means the row is full.
    pub column: nat,
    /// The cells of the buffer, row after row.
    pub cells: Seq<u16>,
}

/// The cursor stands on the screen and the buffer has its full size.
pub open spec fn screen_wf(s: TextScreen) -> bool {
    &&& s.row < BUFFER_HEIGHT
    &&& s.column <= BUFFER_WIDTH
    &&& s.cells.len() == BUFFER_CELLS
}

/// Every row moves up by one; the top row is lost and the bottom row is
/// filled with blanks.
pub open spec fn scroll_up(cells: Seq<u16>, attribute: u16) -> Seq<u16> {
    Seq::new(
        cells.len(),
        |i: int|
            if i < (BUFFER_HEIGHT - 1) * BUFFER_WIDTH {
                cells[i + BUFFER_WIDTH]
            } else {
                blank(attribute)
            },
    )
}

/// A line break: the cursor goes to column 0 of the next row, and on the
/// last row the screen scrolls instead.
pub open spec fn line_break(s: TextScreen, attribute: u16) -> TextScreen {
    if s.row + 1 < BUFFER_HEIGHT {
        TextScreen { row: s.row + 1, column: 0, cells: s.cells }
    } else {
        TextScreen { row: s.row, column: 0, cells: scroll_up(s.cells, attribute) }
    }
}

/// Effect of one byte: a newline breaks the line; any other byte is put
/// at the cursor (after a line break if the row is full) and the cursor
/// moves one column right.
pub open spec fn put_byte(s: TextScreen, attribute: u16, byte: u8) -> TextScreen {
    if byte == 0x0a {
        line_break(s, attribute)
    } else {
        let t = if s.column >= BUFFER_WIDTH {
            line_break(s, attribute)
        } else {
            s
        };
        TextScreen {
            row: t.row,
            column: t.column + 1,
            cells: t.cells.update(t.row * BUFFER_WIDTH + t.column, glyph(byte, attribute)),
        }
    }
}

/// Effect of a sequence of bytes, put one after the other.
pub open spec fn put_bytes(s: TextScreen, attribute: u16, bytes: Seq<u8>) -> TextScreen
    decreases bytes.len(),
{
    if bytes.len() == 0 {
        s
    } else {
        put_byte(put_bytes(s, attribute, bytes.drop_last()), attribute, bytes.last())
    }
}

/// The decimal digits of `n` as ASCII bytes, most significant first,
/// without leading zeros (`0` is the single digit `0`).
pub open spec fn decimal(n: nat) -> Seq<u8>
    decreases n,
{
    if n < 10 {
        seq![(0x30 + n) as u8]
    } else {
        decimal(n / 10).push((0x30 + n % 10) as u8)
    }
}

/// The number that a string of ASCII decimal digits spells, most
/// significant digit first.
pub open spec fn digits_value(d: Seq<u8>) -> int
    decreases d.len(),
{
    if d.len() == 0 {
        0
    } else {
        digits_value(d.drop_last()) * 10 + (d.last() - 0x30)
    }
}

/// `decimal(n)` is a non-empty string of ASCII digits `'0'..='9'` that
/// spells `n`, with no leading zero unless `n` is 0.
pub proof fn lemma_decimal_spells(n: nat)
    ensures
        decimal(n).len() >= 1,
        forall|k: int| 0 <= k < decimal(n).len() ==> 0x30 <= #[trigger] decimal(n)[k] <= 0x39,
        digits_value(decimal(n)) == n,
        decimal(n)[0] == 0x30 ==> n == 0 && decimal(n).len() == 1,
    decreases n,
{
    if n >= 10 {
        lemma_decimal_spells(n / 10);
        let d = decimal(n);
        assert(d.drop_last() =~= decimal(n / 10));
        assert forall|k: int| 0 <= k < d.len() implies 0x30 <= #[trigger] d[k] <= 0x39 by {
            if k < d.len() - 1 {
                assert(d[k] == decimal(n / 10)[k]);
            }
        }
        assert(d[0] == decimal(n / 10)[0]);
        assert(d.last() == (0x30 + n % 10) as u8);
        assert(d.last() - 0x30 == n % 10);
        assert(digits_value(d) == digits_value(decimal(n / 10)) * 10 + (d.last() - 0x30));
        assert(n == (n / 10) * 10 + n % 10);
    } else {
        let d = decimal(n);
        assert(d.drop_last() =~= Seq::<u8>::empty());
        assert(digits_value(d.drop_last()) == 0);
        assert(d.last() - 0x30 == n);
    }
}

/// A cleared screen: every cell blank, cursor at the top-left cell.
pub open spec fn cleared(attribute: u16) -> TextScreen {
    TextScreen { row: 0, column: 0, cells: Seq::new(BUFFER_CELLS as nat, |i: int| blank(attribute)) }
}

/// Distinct colours have distinct palette indices.
pub proof fn lemma_color_code_injective(a: Color, b: Color)
    ensures
        color_code(a) == color_code(b) <==> a == b,
{
}

/// The attribute of a writer keeps the low byte free for the character and
/// gives back the foreground in bits 8..12 and the background in bits
/// 12..16, so the two colours can be read back from it.
pub proof fn lemma_attribute_decodes(fg: Color, bg: Color)
    ensures
        color_attribute(fg, bg) & 0xffu16 == 0,
        (color_attribute(fg, bg) >> 8u16) & 0xfu16 == color_code(fg),
        color_attribute(fg, bg) >> 12u16 == color_code(bg),
{
    let f = color_code(fg);
    let b = color_code(bg);
    let a = color_attribute(fg, bg);
    assert(a == ((b * 16 + f) * 256) as u16);
    assert(a & 0xffu16 == 0 && (a >> 8u16) & 0xfu16 == f && a >> 12u16 == b) by (bit_vector)
        requires
            f < 16,
            b < 16,
            a == ((b * 16 + f) * 256) as u16,
    ;
}

/// A cell keeps its character in the low byte and the attribute's high
/// byte above it, whenever the attribute leaves the low byte free.
pub proof fn lemma_glyph_decodes(byte: u8, attribute: u16)
    requires
        attribute & 0xffu16 == 0,
    ensures
        glyph(byte, attribute) & 0xffu16 == byte,
        glyph(byte, attribute) >> 8u16 == attribute >> 8u16,
{
    assert(((byte as u16) | attribute) & 0xffu16 == byte && ((byte as u16) | attribute) >> 8u16
        == attribute >> 8u16) by (bit_vector)
        requires
            attribute & 0xffu16 == 0,
    ;
}

/// No byte moves the cursor off the screen or changes the buffer's size.
pub proof fn lemma_put_byte_wf(s: TextScreen, attribute: u16, byte: u8)
    requires
        screen_wf(s),
    ensures
        screen_wf(put_byte(s, attribute, byte)),
{
    let t = if s.column >= BUFFER_WIDTH {
        line_break(s, attribute)
    } else {
        s
    };
    assert(t.row * BUFFER_WIDTH + t.column < BUFFER_CELLS || t.column >= BUFFER_WIDTH) by (nonlinear_arith)
        requires
            t.row < BUFFER_HEIGHT,
            t.column <= BUFFER_WIDTH,
    ;
}

/// No sequence of bytes moves the cursor off the screen or changes the
/// buffer's size.
pub proof fn lemma_put_bytes_wf(s: TextScreen, attribute: u16, bytes: Seq<u8>)
    requires
        screen_wf(s),
    ensures
        screen_wf(put_bytes(s, attribute, bytes)),
    decreases bytes.len(),
{
    if bytes.len() > 0 {
        lemma_put_bytes_wf(s, attribute, bytes.drop_last());
        lemma_put_byte_wf(put_bytes(s, attribute, bytes.drop_last()), attribute, bytes.last());
    }
}

/// Writing two byte sequences one after the other has the same effect as
/// writing their concatenation: output may be split anywhere.
pub proof fn lemma_put_bytes_append(s: TextScreen, attribute: u16, x: Seq<u8>, y: Seq<u8>)
    ensures
        put_bytes(s, attribute, x + y) == put_bytes(put_bytes(s, attribute, x), attribute, y),
    decreases y.len(),
{
    if y.len() == 0 {
        assert(x + y =~= x);
    } else {
        lemma_put_bytes_append(s, attribute, x, y.drop_last());
        assert((x + y).drop_last() =~= x + y.drop_last());
        assert((x + y).last() == y.last());
    }
}

/// The VGA palette: each colour has its fixed hardware number.
pub proof fn lemma_color_codes()
    ensures
        color_code(Color::Black) == 0,
        color_code(Color::Blue) == 1,
        color_code(Color::Green) == 2,
        color_code(Color::Cyan) == 3,
        color_code(Color::Red) == 4,
        color_code(Color::Magenta) == 5,
        color_code(Color::Brown) == 6,
        color_code(Color::LightGray) == 7,
        color_code(Color::DarkGray) == 8,
        color_code(Color::LightBlue) == 9,
        color_code(Color::LightGreen) == 10,
        color_code(Color::LightCyan) == 11,
        color_code(Color::LightRed) == 12,
        color_code(Color::Pink) == 13,
        color_code(Color::Yellow) == 14,
        color_code(Color::White) == 15,
{
}

/// A cleared screen has the cursor in the top-left cell and every one of
/// its cells is a space (`0x20`) in the given attribute.
pub proof fn lemma_cleared_cells(attribute: u16)
    ensures
        cleared(attribute).row == 0,
        cleared(attribute).column == 0,
        cleared(attribute).cells.len() == 2000,
        forall|i: int| 0 <= i < 2000 ==> #[trigger] cleared(attribute).cells[i] == 0x20u16 | attribute,
{
}

/// A line break on the last row moves every row up by one: cell `i` of
/// the first 24 rows takes the old cell `i + 80`, the last row becomes
/// spaces in the given attribute, and the cursor goes to column 0 of the
/// last row. On any other row the cells stay and the cursor goes to
/// column 0 of the next row.
pub proof fn lemma_line_break_cells(s: TextScreen, attribute: u16)
    requires
        screen_wf(s),
    ensures
        s.row == 24 ==> {
            &&& line_break(s, attribute).row == 24
            &&& line_break(s, attribute).column == 0
            &&& line_break(s, attribute).cells.len() == 2000
            &&& forall|i: int|
                0 <= i < 1920 ==> #[trigger] line_break(s, attribute).cells[i] == s.cells[i + 80]
            &&& forall|i: int|
                1920 <= i < 2000 ==> #[trigger] line_break(s, attribute).cells[i] == 0x20u16 | attribute
        },
        s.row < 24 ==> {
            &&& line_break(s, attribute).row == s.row + 1
            &&& line_break(s, attribute).column == 0
            &&& line_break(s, attribute).cells == s.cells
        },
{
}

/// Cursor and colour state of a writer over the VGA text buffer.
pub struct ScreenWriter {
    column_position: usize,
    row_position: usize,
    color_attribute: u16,
}

impl ScreenWriter {
    #[verifier::type_invariant]
    spec fn inv(self) -> bool {
        &&& self.row_position < BUFFER_HEIGHT
        &&& self.column_position <= BUFFER_WIDTH
    }

    /// Row of the cursor.
    pub closed spec fn row(&self) -> nat {
        self.row_position as nat
    }

    /// Column of the cursor; `BUFFER_WIDTH` means the row is full.
    pub closed spec fn column(&self) -> nat {
        self.column_position as nat
    }

    /// Colour attribute given to every cell this writer fills.
    pub closed spec fn attribute(&self) -> u16 {
        self.color_attribute
    }

    /// Creates a writer with its cursor at the top-left cell `(0, 0)`.
    pub fn new(fg: Color, bg: Color) -> (w: Self)
        ensures
            w.row() == 0,
            w.column() == 0,
            w.attribute() == color_attribute(fg, bg),
    {
        let f = fg.code();
        let b = bg.code();
        proof {
            lemma_attribute_bits(f, b);
        }
        ScreenWriter {
            column_position: 0,
            row_position: 0,
            color_attribute: (((b << 4u8) | f) as u16) << 8u16,
        }
    }

    /// The model of this writer together with the buffer it writes to.
    pub open spec fn on(&self, cells: Seq<u16>) -> TextScreen {
        TextScreen { row: self.row(), column: self.column(), cells }
    }

    /// Fills the whole buffer with blanks in the writer's colour and moves
    /// the cursor to the top-left cell.
    pub fn clear_screen(&mut self, screen: &mut [u16; BUFFER_CELLS])
        ensures
            final(self).on(final(screen)@) == cleared(old(self).attribute()),
            screen_wf(final(self).on(final(screen)@)),
            final(self).attribute() == old(self).attribute(),
            final(self).row() == 0,
            final(self).column() == 0,
            forall|i: int| 0 <= i < 2000 ==> #[trigger] final(screen)@[i] == 0x20u16 | old(self).attribute(),
    {
        proof {
            use_type_invariant(&*self);
        }
        let space: u16 = 0x20u16 | self.color_attribute;
        let mut i: usize = 0;
        while i < BUFFER_CELLS
            invariant
                0 <= i <= BUFFER_CELLS,
                screen@.len() == BUFFER_CELLS,
                space == blank(self.color_attribute),
                forall|k: int| 0 <= k < i ==> screen@[k] == space,
            decreases BUFFER_CELLS - i,
        {
            screen[i] = space;
            i = i + 1;
        }
        self.row_position = 0;
        self.column_position = 0;
        assert(screen@ =~= cleared(self.color_attribute).cells);
    }

    /// Moves the cursor to column 0 of the next row, scrolling the screen
    /// up by one row when the cursor is on the last row.
    fn new_line(&mut self, screen: &mut [u16; BUFFER_CELLS])
        ensures
            final(self).on(final(screen)@) == line_break(old(self).on(old(screen)@), old(self).attribute()),
            screen_wf(final(self).on(final(screen)@)),
            final(self).attribute() == old(self).attribute(),
    {
        proof {
            use_type_invariant(&*self);
        }
        if self.row_position < BUFFER_HEIGHT - 1 {
            self.row_position = self.row_position + 1;
        } else {
            let ghost before = screen@;
            let last_row_start: usize = BUFFER_CELLS - BUFFER_WIDTH;
            let mut dest: usize = 0;
            while dest < last_row_start
                invariant
                    0 <= dest <= last_row_start,
                    last_row_start == BUFFER_CELLS - BUFFER_WIDTH,
                    screen@.len() == BUFFER_CELLS,
                    before.len() == BUFFER_CELLS,
                    forall|k: int| 0 <= k < dest ==> screen@[k] == before[k + BUFFER_WIDTH],
                    forall|k: int| dest <= k < BUFFER_CELLS ==> screen@[k] == before[k],
                decreases last_row_start - dest,
            {
                let cell = screen[dest + BUFFER_WIDTH];
                screen[dest] = cell;
                dest = dest + 1;
            }
            let space: u16 = 0x20u16 | self.color_attribute;
            let mut col: usize = 0;
            while col < BUFFER_WIDTH
                invariant
                    0 <= col <= BUFFER_WIDTH,
                    last_row_start == BUFFER_CELLS - BUFFER_WIDTH,
                    screen@.len() == BUFFER_CELLS,
                    before.len() == BUFFER_CELLS,
                    space == blank(self.color_attribute),
                    forall|k: int| 0 <= k < last_row_start ==> screen@[k] == before[k + BUFFER_WIDTH],
                    forall|k: int| last_row_start <= k < last_row_start + col ==> screen@[k] == space,
                decreases BUFFER_WIDTH - col,
            {
                screen[last_row_start + col] = space;
                col = col + 1;
            }
            assert(screen@ =~= scroll_up(before, self.color_attribute));
        }
        self.column_position = 0;
    }

    /// Writes one byte at the cursor. A newline (`0x0a`) breaks the line;
    /// any other byte is stored as a cell, after a line break if the row
    /// is already full.
    pub fn write_byte(&mut self, screen: &mut [u16; BUFFER_CELLS], byte: u8)
        ensures
            final(self).on(final(screen)@) == put_byte(old(self).on(old(screen)@), old(self).attribute(), byte),
            screen_wf(final(self).on(final(screen)@)),
            final(self).attribute() == old(self).attribute(),
            byte == 0x0a && old(self).row() == 24 ==> {
                &&& final(self).row() == 24
                &&& final(self).column() == 0
                &&& forall|i: int| 0 <= i < 1920 ==> #[trigger] final(screen)@[i] == old(screen)@[i + 80]
                &&& forall|i: int| 1920 <= i < 2000 ==> #[trigger] final(screen)@[i] == 0x20u16 | old(self).attribute()
            },
    {
        if byte == 0x0a {
            proof {
                use_type_invariant(&*self);
                lemma_line_break_cells(self.on(screen@), self.color_attribute);
            }
            self.new_line(screen);
        } else {
            if self.column_position >= BUFFER_WIDTH {
                self.new_line(screen);
            }
            proof {
                use_type_invariant(&*self);
            }
            let row = self.row_position;
            let col = self.column_position;
            assert(col < BUFFER_WIDTH);
            assert(row * BUFFER_WIDTH + col < BUFFER_CELLS) by (nonlinear_arith)
                requires
                    row < BUFFER_HEIGHT,
                    col < BUFFER_WIDTH,
            ;
            let offset: usize = row * BUFFER_WIDTH + col;
            screen[offset] = (byte as u16) | self.color_attribute;
            self.column_position = col + 1;
        }
    }

    /// Writes the UTF-8 bytes of `s`, one after the other, as by
    /// `write_byte`.
    pub fn write_string(&mut self, screen: &mut [u16; BUFFER_CELLS], s: &str)
        ensures
            final(self).on(final(screen)@) == put_bytes(old(self).on(old(screen)@), old(self).attribute(), s.spec_bytes()),
            screen_wf(final(self).on(final(screen)@)),
            final(self).attribute() == old(self).attribute(),
    {
        proof {
            use_type_invariant(&*self);
        }
        let bytes = s.as_bytes();
        let ghost start = self.on(screen@);
        let ghost attribute = self.attribute();
        let mut i: usize = 0;
        while i < bytes.len()
            invariant
                0 <= i <= bytes@.len(),
                bytes@ == s.spec_bytes(),
                self.attribute() == attribute,
                self.on(screen@) == put_bytes(start, attribute, bytes@.take(i as int)),
                screen_wf(self.on(screen@)),
            decreases bytes@.len() - i,
        {
            let b = bytes[i];
            self.write_byte(screen, b);
            assert(bytes@.take(i + 1).drop_last() =~= bytes@.take(i as int));
            i = i + 1;
        }
        assert(bytes@.take(i as int) =~= bytes@);
    }

    /// Writes `n` in decimal, most significant digit first.
    pub fn write_decimal(&mut self, screen: &mut [u16; BUFFER_CELLS], n: u32)
        ensures
            final(self).on(final(screen)@) == put_bytes(old(self).on(old(screen)@), old(self).attribute(), decimal(n as nat)),
            screen_wf(final(self).on(final(screen)@)),
            final(self).attribute() == old(self).attribute(),
        decreases n,
    {
        let ghost start = self.on(screen@);
        let ghost attribute = self.attribute();
        if n >= 10 {
            self.write_decimal(screen, n / 10);
            let digit: u8 = 0x30u8 + (n % 10) as u8;
            self.write_byte(screen, digit);
            proof {
                let d = decimal(n as nat);
                assert(d.drop_last() =~= decimal((n / 10) as nat));
                assert(d.last() == digit);
            }
        } else {
            let digit: u8 = 0x30u8 + n as u8;
            self.write_byte(screen, digit);
            proof {
                let d = decimal(n as nat);
                assert(d.drop_last() =~= Seq::<u8>::empty());
                assert(d.last() == digit);
                assert(put_bytes(start, attribute, Seq::<u8>::empty()) == start);
            }
        }
    }
}

} // verus!
