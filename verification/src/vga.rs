//! The text-mode video writer: an 80x25 screen of colored characters with
//! line wrap and scroll.
//!
//! The screen is modelled as a bounds-checked, index-based view over the
//! fixed-size character table; mirroring that table into the memory-mapped
//! hardware buffer is the caller's concern and lies outside this library.

use vstd::prelude::*;
use vstd::string::StringSliceAdditionalSpecFns;

verus! {

/// Screen width, in characters.
pub const BUFFER_WIDTH: usize = 80;

/// Screen height, in lines.
pub const BUFFER_HEIGHT: usize = 25;

/// The sixteen hardware text-mode colors.
#[derive(Debug, Clone, Copy, PartialEq, Eq, Structural)]
pub enum Color {
    Black,
    Blue,
    Green,
    Cyan,
    Red,
    Magenta,
    Brown,
    LightGray,
    DarkGray,
    LightBlue,
    LightGreen,
    LightCyan,
    LightRed,
    Pink,
    Yellow,
    White,
}

/// The hardware code of a color.
pub open spec fn color_value(c: Color) -> u8 {
    match c {
        Color::Black => 0,
        Color::Blue => 1,
        Color::Green => 2,
        Color::Cyan => 3,
        Color::Red => 4,
        Color::Magenta => 5,
        Color::Brown => 6,
        Color::LightGray => 7,
        Color::DarkGray => 8,
        Color::LightBlue => 9,
        Color::LightGreen => 10,
        Color::LightCyan => 11,
        Color::LightRed => 12,
        Color::Pink => 13,
        Color::Yellow => 14,
        Color::White => 15,
    }
}

/// A contrasting color to show on top of the given one.
pub open spec fn color_inverse(c: Color) -> Color {
    match c {
        Color::Black => Color::White,
        Color::Blue => Color::White,
        Color::Green => Color::White,
        Color::Cyan => Color::Black,
        Color::Red => Color::White,
        Color::Magenta => Color::White,
        Color::Brown => Color::White,
        Color::LightGray => Color::Black,
        Color::DarkGray => Color::White,
        Color::LightBlue => Color::Black,
        Color::LightGreen => Color::Black,
        Color::LightCyan => Color::Black,
        Color::LightRed => Color::Black,
        Color::Pink => Color::Black,
        Color::Yellow => Color::Black,
        Color::White => Color::Black,
    }
}

/// The color a hardware code denotes; codes above fifteen fall back to white.
pub open spec fn color_from_value(v: u8) -> Color {
    match v {
        0 => Color::Black,
        1 => Color::Blue,
        2 => Color::Green,
        3 => Color::Cyan,
        4 => Color::Red,
        5 => Color::Magenta,
        6 => Color::Brown,
        7 => Color::LightGray,
        8 => Color::DarkGray,
        9 => Color::LightBlue,
        10 => Color::LightGreen,
        11 => Color::LightCyan,
        12 => Color::LightRed,
        13 => Color::Pink,
        14 => Color::Yellow,
        15 => Color::White,
        _ => Color::White,
    }
}

impl Color {
    /// The hardware code of the color.
    pub fn value(&self) -> (r: u8)
        ensures
            r == color_value(*self),
    {
        match self {
            Color::Black => 0,
            Color::Blue => 1,
            Color::Green => 2,
            Color::Cyan => 3,
            Color::Red => 4,
            Color::Magenta => 5,
            Color::Brown => 6,
            Color::LightGray => 7,
            Color::DarkGray => 8,
            Color::LightBlue => 9,
            Color::LightGreen => 10,
            Color::LightCyan => 11,
            Color::LightRed => 12,
            Color::Pink => 13,
            Color::Yellow => 14,
            Color::White => 15,
        }
    }

    /// A contrasting color to show on top of this one.
    pub fn inverse(&self) -> (r: Color)
        ensures
            r == color_inverse(*self),
    {
        match self {
            Color::Black => Color::White,
            Color::Blue => Color::White,
            Color::Green => Color::White,
            Color::Cyan => Color::Black,
            Color::Red => Color::White,
            Color::Magenta => Color::White,
            Color::Brown => Color::White,
            Color::LightGray => Color::Black,
            Color::DarkGray => Color::White,
            Color::LightBlue => Color::Black,
            Color::LightGreen => Color::Black,
            Color::LightCyan => Color::Black,
            Color::LightRed => Color::Black,
            Color::Pink => Color::Black,
            Color::Yellow => Color::Black,
            Color::White => Color::Black,
        }
    }
}

impl From<u8> for Color {
    /// The color a hardware code denotes; codes above fifteen fall back to
    /// white.
    fn from(i: u8) -> (r: Color) {
        match i {
            0 => Color::Black,
            1 => Color::Blue,
            2 => Color::Green,
            3 => Color::Cyan,
            4 => Color::Red,
            5 => Color::Magenta,
            6 => Color::Brown,
            7 => Color::LightGray,
            8 => Color::DarkGray,
            9 => Color::LightBlue,
            10 => Color::LightGreen,
            11 => Color::LightCyan,
            12 => Color::LightRed,
            13 => Color::Pink,
            14 => Color::Yellow,
            15 => Color::White,
            _ => Color::White,
        }
    }
}

impl vstd::std_specs::convert::FromSpecImpl<u8> for Color {
    open spec fn obeys_from_spec() -> bool {
        true
    }

    open spec fn from_spec(i: u8) -> Color {
        color_from_value(i)
    }
}

/// The packed foreground/background code of one screen cell: background in
/// the high nibble, foreground in the low one.
#[derive(Debug, Clone, Copy, PartialEq, Eq, Structural)]
pub struct ColorCode(pub u8);

/// The packed code for a color pair.
pub open spec fn code_of(foreground: Color, background: Color) -> u8 {
    (color_value(background) << 4) | color_value(foreground)
}

impl ColorCode {
    pub fn new(foreground: Color, background: Color) -> (r: Self)
        ensures
            r.0 == code_of(foreground, background),
    {
        Self((background.value() << 4) | foreground.value())
    }
}

/// One screen cell: a character and its color pair.
#[derive(Debug, Clone, Copy, PartialEq, Eq, Structural)]
pub struct VgaBufferChar {
    pub ascii: u8,
    pub color_code: ColorCode,
}

impl VgaBufferChar {
    pub fn new_ascii(ascii: u8, foreground: Color, background: Color) -> (r: Self)
        ensures
            r.ascii == ascii,
            r.color_code.0 == code_of(foreground, background),
    {
        Self { ascii, color_code: ColorCode::new(foreground, background) }
    }
}

/// A blank cell in the given colors.
pub open spec fn blank_cell(foreground: Color, background: Color) -> VgaBufferChar {
    VgaBufferChar { ascii: 32, color_code: ColorCode(code_of(foreground, background)) }
}

/// The writer state as mathematics: cursor, colors, the screen cells in
/// row-major order, and whether a wrap is owed before the next character.
pub ghost struct ScreenState {
    pub pos_x: int,
    pub pos_y: int,
    pub foreground: Color,
    pub background: Color,
    pub cells: Seq<VgaBufferChar>,
    pub pending_newline: bool,
}

/// The rest of the cursor line blanked in the current colors.
pub open spec fn filled_line(s: ScreenState) -> ScreenState {
    ScreenState {
        cells: Seq::new(
            s.cells.len(),
            |i: int|
                if s.pos_y * BUFFER_WIDTH + s.pos_x <= i < s.pos_y * BUFFER_WIDTH
                    + BUFFER_WIDTH {
                    blank_cell(s.foreground, s.background)
                } else {
                    s.cells[i]
                },
        ),
        ..s
    }
}

/// Every line moved up by one; the bottom line blank in white on black.
pub open spec fn scrolled(cells: Seq<VgaBufferChar>) -> Seq<VgaBufferChar> {
    Seq::new(
        cells.len(),
        |i: int|
            if i < (BUFFER_HEIGHT - 1) * BUFFER_WIDTH {
                cells[i + BUFFER_WIDTH]
            } else {
                blank_cell(Color::White, Color::Black)
            },
    )
}

/// The cursor moved to the start of the next line, scrolling when the screen
/// is full.
pub open spec fn after_new_line(s: ScreenState) -> ScreenState {
    if s.pos_y + 1 < BUFFER_HEIGHT {
        ScreenState { pos_x: 0, pos_y: s.pos_y + 1, pending_newline: false, ..s }
    } else {
        ScreenState {
            pos_x: 0,
            pos_y: (BUFFER_HEIGHT - 1) as int,
            pending_newline: false,
            cells: scrolled(s.cells),
            ..s
        }
    }
}

/// The state after writing one raw byte: a newline byte flushes the line; any
/// other byte first honors a pending wrap, then lands at the cursor in the
/// current colors and advances it.
pub open spec fn after_byte(s: ScreenState, byte: u8) -> ScreenState {
    if byte == 10 {
        after_new_line(filled_line(s))
    } else {
        let s1 = if s.pending_newline {
            after_new_line(filled_line(s))
        } else {
            s
        };
        let s2 = ScreenState {
            cells: s1.cells.update(
                s1.pos_y * BUFFER_WIDTH + s1.pos_x,
                VgaBufferChar {
                    ascii: byte,
                    color_code: ColorCode(code_of(s1.foreground, s1.background)),
                },
            ),
            ..s1
        };
        ScreenState { pos_x: s2.pos_x + 1, pending_newline: s2.pos_x + 1 >= BUFFER_WIDTH, ..s2 }
    }
}

/// The state after writing a sequence of raw bytes, first byte first.
pub open spec fn after_bytes(s: ScreenState, bytes: Seq<u8>) -> ScreenState
    decreases bytes.len(),
{
    if bytes.len() == 0 {
        s
    } else {
        after_bytes(after_byte(s, bytes[0]), bytes.drop_first())
    }
}

/// Writing one more byte at the end of a sequence is one more step.
pub proof fn lemma_after_bytes_push(s: ScreenState, bytes: Seq<u8>, byte: u8)
    ensures
        after_bytes(s, bytes.push(byte)) == after_byte(after_bytes(s, bytes), byte),
    decreases bytes.len(),
{
    if bytes.len() == 0 {
        assert(bytes.push(byte)[0] == byte);
        assert(bytes.push(byte).drop_first() =~= Seq::<u8>::empty());
        assert(after_bytes(after_byte(s, byte), Seq::<u8>::empty()) == after_byte(s, byte));
    } else {
        assert(bytes.push(byte)[0] == bytes[0]);
        assert(bytes.push(byte).drop_first() =~= bytes.drop_first().push(byte));
        lemma_after_bytes_push(after_byte(s, bytes[0]), bytes.drop_first(), byte);
        assert(after_bytes(s, bytes) == after_bytes(after_byte(s, bytes[0]), bytes.drop_first()));
    }
}

/// The byte a writer shows for an input byte: printable characters and
/// newlines pass through, everything else becomes the replacement glyph.
pub open spec fn translate_byte(b: u8) -> u8 {
    if (0x20 <= b && b <= 0x7e) || b == 10 {
        b
    } else {
        0xFE
    }
}

/// The low byte of a character, as it lands on the screen.
pub open spec fn char_low_byte(c: char) -> u8 {
    (c as u32 & 0xFF) as u8
}

/// The text-mode screen writer: cursor position, current colors, and the
/// 80x25 cell table.
pub struct VgaBufferWriter {
    pub pos_x: usize,
    pub pos_y: usize,
    pub foreground: Color,
    pub background: Color,
    pub buffer: Vec<VgaBufferChar>,
    pub pending_newline: bool,
}

impl VgaBufferWriter {
    /// The writer state as mathematics.
    pub open spec fn model(self) -> ScreenState {
        ScreenState {
            pos_x: self.pos_x as int,
            pos_y: self.pos_y as int,
            foreground: self.foreground,
            background: self.background,
            cells: self.buffer@,
            pending_newline: self.pending_newline,
        }
    }

    /// The cursor is on the screen (the column may rest one past the edge
    /// only while a wrap is owed) and the cell table has full size.
    pub open spec fn wf(self) -> bool {
        &&& self.buffer@.len() == BUFFER_WIDTH * BUFFER_HEIGHT
        &&& self.pos_y < BUFFER_HEIGHT
        &&& self.pos_x <= BUFFER_WIDTH
        &&& !self.pending_newline ==> self.pos_x < BUFFER_WIDTH
    }

    /// A fresh writer: cursor at the top left, white on black, a blank
    /// screen.
    pub fn new() -> (r: Self)
        ensures
            r.wf(),
            r.pos_x == 0,
            r.pos_y == 0,
            r.foreground == Color::White,
            r.background == Color::Black,
            !r.pending_newline,
            forall|i: int|
                0 <= i < BUFFER_WIDTH * BUFFER_HEIGHT ==> r.buffer@[i] == blank_cell(
                    Color::White,
                    Color::Black,
                ),
    {
        let mut buffer: Vec<VgaBufferChar> = Vec::new();
        let mut i: usize = 0;
        while i < BUFFER_WIDTH * BUFFER_HEIGHT
            invariant
                i <= BUFFER_WIDTH * BUFFER_HEIGHT,
                buffer@.len() == i,
                forall|j: int| 0 <= j < i ==> buffer@[j] == blank_cell(Color::White, Color::Black),
            decreases BUFFER_WIDTH * BUFFER_HEIGHT - i,
        {
            buffer.push(VgaBufferChar::new_ascii(32, Color::White, Color::Black));
            i += 1;
        }
        VgaBufferWriter {
            pos_x: 0,
            pos_y: 0,
            foreground: Color::White,
            background: Color::Black,
            buffer,
            pending_newline: false,
        }
    }

    /// Put one cell at the given screen coordinates.
    fn write_single_at(&mut self, x: usize, y: usize, c: VgaBufferChar)
        requires
            old(self).wf(),
            x < BUFFER_WIDTH,
            y < BUFFER_HEIGHT,
        ensures
            final(self).wf(),
            final(self).model() == (ScreenState {
                cells: old(self).model().cells.update(y * BUFFER_WIDTH + x, c),
                ..old(self).model()
            }),
    {
        let base_idx = x + y * BUFFER_WIDTH;
        self.buffer.set(base_idx, c);
    }

    /// Write one raw byte: a newline flushes the line, anything else lands at
    /// the cursor and advances it, wrapping lazily at the right edge.
    pub fn write_single(&mut self, byte: u8)
        requires
            old(self).wf(),
        ensures
            final(self).wf(),
            final(self).model() == after_byte(old(self).model(), byte),
    {
        if byte == 10 {
            self.fill_line();
            self.new_line();
        } else {
            if self.pending_newline {
                self.fill_line();
                self.new_line();
            }
            let cell = VgaBufferChar {
                ascii: byte,
                color_code: ColorCode::new(self.foreground, self.background),
            };
            let x = self.pos_x;
            let y = self.pos_y;
            self.write_single_at(x, y, cell);
            self.pos_x = self.pos_x + 1;
            if self.pos_x >= BUFFER_WIDTH {
                self.pending_newline = true;
            }
        }
    }

    /// Write a string: printable characters and newlines as they are, any
    /// other byte as the replacement glyph.
    pub fn write(&mut self, s: &str)
        requires
            old(self).wf(),
        ensures
            final(self).wf(),
            final(self).model() == after_bytes(
                old(self).model(),
                s.spec_bytes().map_values(|b: u8| translate_byte(b)),
            ),
    {
        let bytes = s.as_bytes();
        let n = bytes.len();
        let mut i: usize = 0;
        while i < n
            invariant
                self.wf(),
                i <= n,
                n == bytes@.len(),
                bytes@ == s.spec_bytes(),
                self.model() == after_bytes(
                    old(self).model(),
                    bytes@.take(i as int).map_values(|b: u8| translate_byte(b)),
                ),
            decreases n - i,
        {
            let b = bytes[i];
            let shown: u8 = if (0x20 <= b && b <= 0x7e) || b == 10 {
                b
            } else {
                0xFE
            };
            self.write_single(shown);
            proof {
                let f = |b: u8| translate_byte(b);
                assert(bytes@.take(i + 1 as int).map_values(f) =~= bytes@.take(
                    i as int,
                ).map_values(f).push(translate_byte(bytes@[i as int])));
                lemma_after_bytes_push(
                    old(self).model(),
                    bytes@.take(i as int).map_values(f),
                    translate_byte(bytes@[i as int]),
                );
            }
            i += 1;
        }
        proof {
            assert(bytes@.take(n as int) =~= bytes@);
        }
    }

    /// Write a character buffer, each character by its low byte.
    pub fn write_char_slice(&mut self, slice: &[char])
        requires
            old(self).wf(),
        ensures
            final(self).wf(),
            final(self).model() == after_bytes(
                old(self).model(),
                slice@.map_values(|c: char| char_low_byte(c)),
            ),
    {
        let n = slice.len();
        let mut i: usize = 0;
        while i < n
            invariant
                self.wf(),
                i <= n,
                n == slice@.len(),
                self.model() == after_bytes(
                    old(self).model(),
                    slice@.take(i as int).map_values(|c: char| char_low_byte(c)),
                ),
            decreases n - i,
        {
            let c = slice[i];
            let b: u8 = (c as u32 & 0xFF) as u8;
            self.write_single(b);
            proof {
                let f = |c: char| char_low_byte(c);
                assert(slice@.take(i + 1 as int).map_values(f) =~= slice@.take(
                    i as int,
                ).map_values(f).push(char_low_byte(slice@[i as int])));
                lemma_after_bytes_push(
                    old(self).model(),
                    slice@.take(i as int).map_values(f),
                    char_low_byte(slice@[i as int]),
                );
            }
            i += 1;
        }
        proof {
            assert(slice@.take(n as int) =~= slice@);
        }
    }

    /// Blank the whole screen in the current colors; the cursor stays put.
    pub fn clear_screen(&mut self)
        requires
            old(self).wf(),
        ensures
            final(self).wf(),
            final(self).model() == (ScreenState {
                cells: Seq::new(
                    old(self).model().cells.len(),
                    |i: int| blank_cell(old(self).foreground, old(self).background),
                ),
                ..old(self).model()
            }),
    {
        let blank = VgaBufferChar {
            ascii: 32,
            color_code: ColorCode::new(self.foreground, self.background),
        };
        let mut i: usize = 0;
        while i < BUFFER_WIDTH * BUFFER_HEIGHT
            invariant
                old(self).wf(),
                i <= BUFFER_WIDTH * BUFFER_HEIGHT,
                self.buffer@.len() == BUFFER_WIDTH * BUFFER_HEIGHT,
                self.pos_x == old(self).pos_x,
                self.pos_y == old(self).pos_y,
                self.foreground == old(self).foreground,
                self.background == old(self).background,
                self.pending_newline == old(self).pending_newline,
                blank == blank_cell(old(self).foreground, old(self).background),
                forall|j: int| 0 <= j < i ==> self.buffer@[j] == blank,
                forall|j: int|
                    i <= j < BUFFER_WIDTH * BUFFER_HEIGHT ==> self.buffer@[j] == old(
                        self,
                    ).buffer@[j],
            decreases BUFFER_WIDTH * BUFFER_HEIGHT - i,
        {
            self.buffer.set(i, blank);
            i += 1;
        }
        proof {
            assert(self.buffer@ =~= Seq::new(
                old(self).model().cells.len(),
                |i: int| blank_cell(old(self).foreground, old(self).background),
            ));
        }
    }

    /// Move every line up by one and blank the bottom line in white on
    /// black; the cursor stays put.
    pub fn scroll_line(&mut self)
        requires
            old(self).buffer@.len() == BUFFER_WIDTH * BUFFER_HEIGHT,
        ensures
            final(self).buffer@.len() == BUFFER_WIDTH * BUFFER_HEIGHT,
            final(self).model() == (ScreenState {
                cells: scrolled(old(self).model().cells),
                ..old(self).model()
            }),
    {
        let mut i: usize = 0;
        while i < (BUFFER_HEIGHT - 1) * BUFFER_WIDTH
            invariant
                old(self).buffer@.len() == BUFFER_WIDTH * BUFFER_HEIGHT,
                i <= (BUFFER_HEIGHT - 1) * BUFFER_WIDTH,
                self.buffer@.len() == BUFFER_WIDTH * BUFFER_HEIGHT,
                self.pos_x == old(self).pos_x,
                self.pos_y == old(self).pos_y,
                self.foreground == old(self).foreground,
                self.background == old(self).background,
                self.pending_newline == old(self).pending_newline,
                forall|j: int| 0 <= j < i ==> self.buffer@[j] == old(self).buffer@[j + BUFFER_WIDTH],
                forall|j: int|
                    i <= j < BUFFER_WIDTH * BUFFER_HEIGHT ==> self.buffer@[j] == old(
                        self,
                    ).buffer@[j],
            decreases (BUFFER_HEIGHT - 1) * BUFFER_WIDTH - i,
        {
            let moved = self.buffer[i + BUFFER_WIDTH];
            self.buffer.set(i, moved);
            i += 1;
        }
        let blank = VgaBufferChar::new_ascii(32, Color::White, Color::Black);
        let mut j: usize = (BUFFER_HEIGHT - 1) * BUFFER_WIDTH;
        while j < BUFFER_WIDTH * BUFFER_HEIGHT
            invariant
                old(self).buffer@.len() == BUFFER_WIDTH * BUFFER_HEIGHT,
                (BUFFER_HEIGHT - 1) * BUFFER_WIDTH <= j <= BUFFER_WIDTH * BUFFER_HEIGHT,
                self.buffer@.len() == BUFFER_WIDTH * BUFFER_HEIGHT,
                self.pos_x == old(self).pos_x,
                self.pos_y == old(self).pos_y,
                self.foreground == old(self).foreground,
                self.background == old(self).background,
                self.pending_newline == old(self).pending_newline,
                blank == blank_cell(Color::White, Color::Black),
                forall|k: int|
                    0 <= k < (BUFFER_HEIGHT - 1) * BUFFER_WIDTH ==> self.buffer@[k] == old(
                        self,
                    ).buffer@[k + BUFFER_WIDTH],
                forall|k: int| (BUFFER_HEIGHT - 1) * BUFFER_WIDTH <= k < j ==> self.buffer@[k]
                    == blank,
            decreases BUFFER_WIDTH * BUFFER_HEIGHT - j,
        {
            self.buffer.set(j, blank);
            j += 1;
        }
        proof {
            assert(self.buffer@ =~= scrolled(old(self).model().cells));
        }
    }

    /// Move the cursor to the start of the next line, scrolling when the
    /// screen is full.
    pub fn new_line(&mut self)
        requires
            old(self).wf(),
        ensures
            final(self).wf(),
            final(self).model() == after_new_line(old(self).model()),
    {
        self.pending_newline = false;
        self.pos_x = 0;
        self.pos_y = self.pos_y + 1;
        if self.pos_y >= BUFFER_HEIGHT {
            self.scroll_line();
            self.pos_y = BUFFER_HEIGHT - 1;
        }
    }

    /// Blank the rest of the cursor line in the current colors.
    pub fn fill_line(&mut self)
        requires
            old(self).wf(),
        ensures
            final(self).wf(),
            final(self).model() == filled_line(old(self).model()),
    {
        let blank = VgaBufferChar {
            ascii: 32,
            color_code: ColorCode::new(self.foreground, self.background),
        };
        let y = self.pos_y;
        let mut x: usize = self.pos_x;
        while x < BUFFER_WIDTH
            invariant
                old(self).wf(),
                old(self).pos_x <= x <= BUFFER_WIDTH,
                y == old(self).pos_y,
                self.buffer@.len() == BUFFER_WIDTH * BUFFER_HEIGHT,
                self.pos_x == old(self).pos_x,
                self.pos_y == old(self).pos_y,
                self.foreground == old(self).foreground,
                self.background == old(self).background,
                self.pending_newline == old(self).pending_newline,
                blank == blank_cell(old(self).foreground, old(self).background),
                forall|k: int|
                    y * BUFFER_WIDTH + old(self).pos_x <= k < y * BUFFER_WIDTH + x
                        ==> self.buffer@[k] == blank,
                forall|k: int|
                    0 <= k < BUFFER_WIDTH * BUFFER_HEIGHT && !(y * BUFFER_WIDTH + old(self).pos_x
                        <= k < y * BUFFER_WIDTH + x) ==> self.buffer@[k] == old(self).buffer@[k],
            decreases BUFFER_WIDTH - x,
        {
            let idx = x + y * BUFFER_WIDTH;
            proof {
                vstd::arithmetic::mul::lemma_mul_inequality(
                    y as int,
                    (BUFFER_HEIGHT - 1) as int,
                    BUFFER_WIDTH as int,
                );
            }
            self.buffer.set(idx, blank);
            x += 1;
        }
        proof {
            assert(self.buffer@ =~= filled_line(old(self).model()).cells);
        }
    }

    /// Set the color characters are drawn in.
    pub fn set_foreground(&mut self, color: Color)
        ensures
            *final(self) == (VgaBufferWriter { foreground: color, ..*old(self) }),
    {
        self.foreground = color;
    }

    /// Set the color characters are drawn on.
    pub fn set_background(&mut self, color: Color)
        ensures
            *final(self) == (VgaBufferWriter { background: color, ..*old(self) }),
    {
        self.background = color;
    }

    /// The current color pair, foreground first.
    pub fn colors(&self) -> (r: (Color, Color))
        ensures
            r == (self.foreground, self.background),
    {
        (self.foreground, self.background)
    }

    /// Set both colors, foreground first.
    pub fn set_colors(&mut self, colors: (Color, Color))
        ensures
            *final(self) == (VgaBufferWriter {
                foreground: colors.0,
                background: colors.1,
                ..*old(self)
            }),
    {
        self.foreground = colors.0;
        self.background = colors.1;
    }

    /// Move the cursor to a column of the current line.
    pub fn set_pos_x(&mut self, x: usize)
        requires
            x < BUFFER_WIDTH,
        ensures
            *final(self) == (VgaBufferWriter { pos_x: x, ..*old(self) }),
    {
        self.pos_x = x;
    }
}

} // verus!
