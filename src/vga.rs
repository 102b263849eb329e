//! The text screen: cells, colours, cursor, and text output.
use vstd::prelude::*;
use crate::port::{PortWrite, out};

verus! {

/// Columns of the text screen.
pub const COLS: usize = 80;

/// Rows of the text screen.
pub const ROWS: usize = 25;

/// Physical address of the text buffer.
pub const VGABASE: usize = 0xB8000;

/// CRT controller index and data ports, used to move the hardware cursor.
pub const CRTC_INDEX: u16 = 0x3D4;
pub const CRTC_DATA: u16 = 0x3D5;

/// Glyph shown for characters beyond the code page (a shaded box).
pub const BOX_GLYPH: char = '\u{DB}';

/// The sixteen text-mode colours.
#[derive(Clone, Copy, PartialEq, Eq, Structural, Debug)]
pub enum Colour {
    Black,
    Blue,
    Green,
    Cyan,
    Red,
    Pink,
    Brown,
    LightGray,
    DarkGray,
    LightBlue,
    LightGreen,
    LightCyan,
    LightRed,
    LightPink,
    Yellow,
    White,
}

/// The hardware number of a colour.
pub open spec fn colour_code(c: Colour) -> u8 {
    match c {
        Colour::Black => 0,
        Colour::Blue => 1,
        Colour::Green => 2,
        Colour::Cyan => 3,
        Colour::Red => 4,
        Colour::Pink => 5,
        Colour::Brown => 6,
        Colour::LightGray => 7,
        Colour::DarkGray => 8,
        Colour::LightBlue => 9,
        Colour::LightGreen => 10,
        Colour::LightCyan => 11,
        Colour::LightRed => 12,
        Colour::LightPink => 13,
        Colour::Yellow => 14,
        Colour::White => 15,
    }
}

impl Colour {
    /// The colour's hardware number.
    pub fn code(&self) -> (r: u8)
        ensures
            r == colour_code(*self),
            r < 16,
    {
        match self {
            Colour::Black => 0,
            Colour::Blue => 1,
            Colour::Green => 2,
            Colour::Cyan => 3,
            Colour::Red => 4,
            Colour::Pink => 5,
            Colour::Brown => 6,
            Colour::LightGray => 7,
            Colour::DarkGray => 8,
            Colour::LightBlue => 9,
            Colour::LightGreen => 10,
            Colour::LightCyan => 11,
            Colour::LightRed => 12,
            Colour::LightPink => 13,
            Colour::Yellow => 14,
            Colour::White => 15,
        }
    }
}

/// One 16-bit cell of the text buffer: glyph in the low byte, attribute in
/// the high byte; `offset` counts cells from the start of the buffer.
#[derive(Clone, Copy, PartialEq, Eq, Structural, Debug)]
pub struct CellWrite {
    pub offset: usize,
    pub value: u16,
}

/// The character shown for `c`: itself within the code page, a shaded box
/// beyond it.
pub open spec fn safe_char_spec(c: char) -> char {
    if c as u32 > 0xFF {
        BOX_GLYPH
    } else {
        c
    }
}

/// The attribute byte for foreground `fg` on background `bg`.
pub open spec fn attr_spec(fg: Colour, bg: Colour) -> u8 {
    (colour_code(bg) * 16 + colour_code(fg)) as u8
}

/// The cell that shows `glyph` with attribute `attr`.
pub open spec fn cell(glyph: char, attr: u8) -> u16 {
    (glyph as u32 + attr as u32 * 0x100) as u16
}

/// The writes that move the hardware cursor to cell `position`.
pub open spec fn cursor_writes(position: int) -> Seq<PortWrite> {
    seq![
        out(CRTC_INDEX, 0x0F),
        out(CRTC_DATA, (position % 0x100) as u8),
        out(CRTC_INDEX, 0x0E),
        out(CRTC_DATA, ((position / 0x100) % 0x100) as u8),
    ]
}

/// The character shown for `c`.
pub fn safe_char(c: char) -> (r: char)
    ensures
        r == safe_char_spec(c),
        r as u32 <= 0xFF,
{
    if c as u32 > 0xFF {
        BOX_GLYPH
    } else {
        c
    }
}

/// The attribute byte for `fg` on `bg`.
pub fn attr(fg: Colour, bg: Colour) -> (r: u8)
    ensures
        r == attr_spec(fg, bg),
{
    bg.code() * 16 + fg.code()
}

/// The writes that move the hardware cursor to cell `position`.
pub fn cursor_port_writes(position: usize) -> (r: Vec<PortWrite>)
    ensures
        r@ == cursor_writes(position as int),
{
    let mut r: Vec<PortWrite> = Vec::new();
    r.push(PortWrite::new(CRTC_INDEX, 0x0F));
    r.push(PortWrite::new(CRTC_DATA, (position % 0x100) as u8));
    r.push(PortWrite::new(CRTC_INDEX, 0x0E));
    r.push(PortWrite::new(CRTC_DATA, ((position / 0x100) % 0x100) as u8));
    proof {
        assert(r@ =~= cursor_writes(position as int));
    }
    r
}

/// The cell under the cursor, given its current value `curr`, gets a light
/// gray foreground when it has none, so that the cursor stays visible.
pub fn cursor_cell_fix(curr: u16) -> (r: Option<u16>)
    ensures
        (curr / 0x100) % 16 == 0 ==> r == Some((curr + 7 * 0x100) as u16),
        (curr / 0x100) % 16 != 0 ==> r is None,
{
    if (curr / 0x100) % 16 == 0 {
        Some(curr + 7 * 0x100)
    } else {
        None
    }
}

/// Where `write_char_at` leaves the cell offset after `c`, starting at
/// `offset`.
pub open spec fn advance(c: char, offset: int) -> int {
    let g = safe_char_spec(c);
    if g == '\n' {
        (offset + COLS) - (offset + COLS) % (COLS as int)
    } else if g == '\r' {
        offset - offset % (COLS as int)
    } else if g == '\t' {
        (offset + 4) - (offset + 4) % 4
    } else if g == '\0' {
        offset
    } else {
        offset + 1
    }
}

/// Whether `c` is drawn (it is not a control character that only moves).
pub open spec fn draws(c: char) -> bool {
    let g = safe_char_spec(c);
    g != '\n' && g != '\r' && g != '\t' && g != '\0'
}

/// Writes `c` at cell `offset` with attribute `attr`: newline moves to the
/// start of the next row, carriage return to the start of this row, tab to
/// the next multiple of four, NUL nowhere; any other character is drawn and
/// the offset moves on by one. Returns the new offset and the cell drawn.
pub fn write_char_internal(c: char, offset: usize, attr: u8) -> (r: (usize, Option<CellWrite>))
    requires
        offset + COLS <= usize::MAX,
    ensures
        r.0 as int == advance(c, offset as int),
        draws(c) ==> r.1 == Some(CellWrite { offset, value: cell(safe_char_spec(c), attr) }),
        !draws(c) ==> r.1 is None,
{
    let glyph = safe_char(c);
    if glyph == '\n' {
        let o = offset + COLS;
        (o - o % COLS, None)
    } else if glyph == '\r' {
        (offset - offset % COLS, None)
    } else if glyph == '\t' {
        let o = offset + 4;
        (o - o % 4, None)
    } else if glyph == '\0' {
        (offset, None)
    } else {
        let value = (glyph as u32 + attr as u32 * 0x100) as u16;
        (offset + 1, Some(CellWrite { offset, value }))
    }
}

/// Writes `c` at column `x` of row `y` in `fg` on `bg`; see
/// `write_char_internal`.
pub fn write_char(c: char, x: usize, y: usize, fg: Colour, bg: Colour) -> (r: (usize, Option<CellWrite>))
    requires
        x < COLS,
        y < ROWS,
    ensures
        r.0 as int == advance(c, y * COLS + x),
        draws(c) ==> r.1 == Some(CellWrite { offset: (y * COLS + x) as usize, value: cell(safe_char_spec(c), attr_spec(fg, bg)) }),
        !draws(c) ==> r.1 is None,
{
    let a = attr(fg, bg);
    let offset = y * COLS + x;
    write_char_internal(c, offset, a)
}

/// The value written to every cell by `fill`: the character shown for
/// `with`, and `bg` as the background in the top nibble.
pub open spec fn fill_cell(with: char, bg: Colour) -> u16 {
    (safe_char_spec(with) as u32 + colour_code(bg) as u32 * 0x1000) as u16
}

/// The value to store in all `ROWS * COLS` cells to fill the screen with
/// `with` on `colour`.
pub fn fill(with: char, colour: Colour) -> (r: u16)
    ensures
        r == fill_cell(with, colour),
{
    let g = safe_char(with);
    (g as u32 + colour.code() as u32 * 0x1000) as u16
}

/// The value that clears every cell to `colour`.
pub fn clear(colour: Colour) -> (r: u16)
    ensures
        r == fill_cell(' ', colour),
{
    fill(' ', colour)
}

/// The outcome of writing a text: where it ended, the cells drawn in order,
/// and the writes that move the hardware cursor there.
pub struct TextRun {
    pub offset: usize,
    pub cells: Vec<CellWrite>,
    pub cursor: Vec<PortWrite>,
}

/// The text `s` written from cell `offset` with attribute `attr`: where it
/// ends and the cells it draws, in order. Writing stops after the first
/// character that takes the offset past the end of the screen.
pub open spec fn text_run(s: Seq<char>, offset: int, attr: u8) -> (int, Seq<CellWrite>)
    decreases s.len(),
{
    if s.len() == 0 {
        (offset, seq![])
    } else {
        let next = advance(s[0], offset);
        let here = if draws(s[0]) {
            seq![CellWrite { offset: offset as usize, value: cell(safe_char_spec(s[0]), attr) }]
        } else {
            Seq::<CellWrite>::empty()
        };
        if next > ROWS * COLS {
            (next, here)
        } else {
            let rest = text_run(s.drop_first(), next, attr);
            (rest.0, here + rest.1)
        }
    }
}

/// Writes the text `s` from column `x` of row `y` in `fg` on `bg` (see
/// `text_run`), then moves the hardware cursor to where the text ended.
pub fn write(s: &str, x: usize, y: usize, fg: Colour, bg: Colour) -> (r: TextRun)
    requires
        x < COLS,
        y < ROWS,
    ensures
        r.offset as int == text_run(s@, y * COLS + x, attr_spec(fg, bg)).0,
        r.cells@ == text_run(s@, y * COLS + x, attr_spec(fg, bg)).1,
        r.cursor@ == cursor_writes((r.offset % COLS) as int + (r.offset / COLS) as int * COLS),
{
    let a = attr(fg, bg);
    let start: usize = y * COLS + x;
    let mut offset: usize = start;
    let mut cells: Vec<CellWrite> = Vec::new();
    let n = s.unicode_len();
    let mut i: usize = 0;
    let mut done = false;
    proof {
        assert(s@.subrange(0, n as int) =~= s@);
        let t = text_run(s@, start as int, a);
        assert(cells@ + t.1 =~= t.1);
    }
    while i < n && !done
        invariant
            n == s@.len(),
            i <= n,
            offset <= ROWS * COLS + COLS,
            !done ==> offset <= ROWS * COLS,
            !done ==> text_run(s@, start as int, a) == (text_run(s@.subrange(i as int, n as int), offset as int, a).0,
                cells@ + text_run(s@.subrange(i as int, n as int), offset as int, a).1),
            done ==> text_run(s@, start as int, a) == (offset as int, cells@),
        decreases n - i,
    {
        let c = s.get_char(i);
        let ghost rest = s@.subrange(i as int, n as int);
        let ghost before = cells@;
        proof {
            assert(rest[0] == c);
            assert(rest.drop_first() =~= s@.subrange(i + 1, n as int));
        }
        let (next, drawn) = write_char_internal(c, offset, a);
        match drawn {
            Some(w) => {
                cells.push(w);
            },
            None => {},
        }
        proof {
            let here = if draws(c) {
                seq![CellWrite { offset: offset as usize, value: cell(safe_char_spec(c), a) }]
            } else {
                Seq::<CellWrite>::empty()
            };
            assert(cells@ =~= before + here);
            if next > ROWS * COLS {
                assert(text_run(rest, offset as int, a) == (next as int, here));
            } else {
                let tail = text_run(s@.subrange(i + 1, n as int), next as int, a);
                assert(text_run(rest, offset as int, a) == (tail.0, here + tail.1));
                assert(before + (here + tail.1) =~= cells@ + tail.1);
            }
        }
        i = i + 1;
        if next > ROWS * COLS {
            done = true;
        }
        offset = next;
    }
    proof {
        if !done {
            assert(s@.subrange(i as int, n as int) =~= Seq::<char>::empty());
            assert(cells@ + Seq::<CellWrite>::empty() =~= cells@);
        }
    }
    let position = (offset % COLS) + (offset / COLS) * COLS;
    let cursor = cursor_port_writes(position);
    TextRun { offset, cells, cursor }
}

/// The text screen: the cursor, a saved cursor, the current colours and
/// saved colours.
pub struct Vga {
    pub x: usize,
    pub y: usize,
    pub saved_x: usize,
    pub saved_y: usize,
    pub fg: Colour,
    pub bg: Colour,
    pub saved_fg: Colour,
    pub saved_bg: Colour,
}

/// The cursor after `c` is written at column `x` of row `y`: control
/// characters move it as `advance` does within the row, a drawn character
/// moves it one column on; past the last column it wraps to the next row,
/// and it never leaves the last row.
pub open spec fn put_pos(x: int, y: int, c: char) -> (int, int) {
    let g = safe_char_spec(c);
    let (x1, y1) = if g == '\n' {
        (0, y + 1)
    } else if g == '\r' {
        (0, y)
    } else if g == '\t' {
        ((x + 4) - (x + 4) % 4, y)
    } else if g == '\0' {
        (x, y)
    } else {
        (x + 1, y)
    };
    let (x2, y2) = if x1 >= COLS { (0, y1 + 1) } else { (x1, y1) };
    (x2, if y2 >= ROWS { ROWS - 1 } else { y2 })
}

/// The screen after writing the characters of `s` (NULs skipped) from
/// column `x` of row `y` with attribute `attr`: the final cursor and the
/// cells drawn, in order.
pub open spec fn screen_run(s: Seq<char>, x: int, y: int, attr: u8) -> (int, int, Seq<CellWrite>)
    decreases s.len(),
{
    if s.len() == 0 {
        (x, y, seq![])
    } else if s[0] == '\0' {
        screen_run(s.drop_first(), x, y, attr)
    } else {
        let p = put_pos(x, y, s[0]);
        let here = if draws(s[0]) {
            seq![CellWrite { offset: (y * COLS + x) as usize, value: cell(safe_char_spec(s[0]), attr) }]
        } else {
            Seq::<CellWrite>::empty()
        };
        let rest = screen_run(s.drop_first(), p.0, p.1, attr);
        (rest.0, rest.1, here + rest.2)
    }
}

impl Vga {
    /// The cursors are on the screen.
    pub open spec fn wf(&self) -> bool {
        self.x < COLS && self.y < ROWS && self.saved_x < COLS && self.saved_y < ROWS
    }

    /// Cursor at the top left, light gray on black.
    pub fn new() -> (r: Vga)
        ensures
            r.wf(),
            r.x == 0 && r.y == 0 && r.saved_x == 0 && r.saved_y == 0,
            r.fg == Colour::LightGray && r.bg == Colour::Black,
            r.saved_fg == Colour::LightGray && r.saved_bg == Colour::Black,
    {
        Vga {
            x: 0,
            y: 0,
            saved_x: 0,
            saved_y: 0,
            fg: Colour::LightGray,
            bg: Colour::Black,
            saved_fg: Colour::LightGray,
            saved_bg: Colour::Black,
        }
    }

    /// Nothing to set up for the text screen.
    pub fn init(&mut self)
        ensures
            *final(self) == *old(self),
    {
    }

    /// Columns of the screen.
    pub fn cols(&self) -> (r: usize)
        ensures
            r == COLS,
    {
        COLS
    }

    /// Rows of the screen.
    pub fn rows(&self) -> (r: usize)
        ensures
            r == ROWS,
    {
        ROWS
    }

    /// Remembers the cursor.
    pub fn save_cursor(&mut self)
        ensures
            *final(self) == (Vga { saved_x: old(self).x, saved_y: old(self).y, ..*old(self) }),
    {
        self.saved_x = self.x;
        self.saved_y = self.y;
    }

    /// Moves the cursor to column `x` of row `y` and returns the writes that
    /// move the hardware cursor there.
    pub fn cursor(&mut self, x: usize, y: usize) -> (r: Vec<PortWrite>)
        requires
            x < COLS,
            y < ROWS,
        ensures
            *final(self) == (Vga { x, y, ..*old(self) }),
            r@ == cursor_writes(y * COLS + x),
    {
        self.x = x;
        self.y = y;
        cursor_port_writes(y * COLS + x)
    }

    /// Moves the cursor back to where it was saved.
    pub fn restore_cursor(&mut self) -> (r: Vec<PortWrite>)
        requires
            old(self).wf(),
        ensures
            *final(self) == (Vga { x: old(self).saved_x, y: old(self).saved_y, ..*old(self) }),
            r@ == cursor_writes(old(self).saved_y * COLS + old(self).saved_x),
    {
        let x = self.saved_x;
        let y = self.saved_y;
        self.cursor(x, y)
    }

    /// Remembers the colours.
    pub fn save_attrib(&mut self)
        ensures
            *final(self) == (Vga { saved_fg: old(self).fg, saved_bg: old(self).bg, ..*old(self) }),
    {
        self.saved_fg = self.fg;
        self.saved_bg = self.bg;
    }

    /// Goes back to the saved colours.
    pub fn restore_attrib(&mut self)
        ensures
            *final(self) == (Vga { fg: old(self).saved_fg, bg: old(self).saved_bg, ..*old(self) }),
    {
        self.fg = self.saved_fg;
        self.bg = self.saved_bg;
    }

    /// Sets the colours.
    pub fn attrib(&mut self, fg: Colour, bg: Colour)
        ensures
            *final(self) == (Vga { fg, bg, ..*old(self) }),
    {
        self.fg = fg;
        self.bg = bg;
    }

    /// The value that fills every cell with `with` on the current background.
    pub fn screen_fill(&self, with: char) -> (r: u16)
        ensures
            r == fill_cell(with, self.bg),
    {
        fill(with, self.bg)
    }

    /// The value that clears every cell to the current background.
    pub fn screen_clear(&self) -> (r: u16)
        ensures
            r == fill_cell(' ', self.bg),
    {
        fill(' ', self.bg)
    }

    /// Writes `c` at the cursor in the current colours (see `put_pos`);
    /// returns the cell drawn, if any.
    pub fn write_char(&mut self, c: char) -> (r: Option<CellWrite>)
        requires
            old(self).wf(),
        ensures
            final(self).wf(),
            (final(self).x as int, final(self).y as int) == put_pos(old(self).x as int, old(self).y as int, c),
            *final(self) == (Vga { x: final(self).x, y: final(self).y, ..*old(self) }),
            draws(c) ==> r == Some(CellWrite {
                offset: (old(self).y * COLS + old(self).x) as usize,
                value: cell(safe_char_spec(c), attr_spec(old(self).fg, old(self).bg)),
            }),
            !draws(c) ==> r is None,
    {
        let glyph = safe_char(c);
        let a = attr(self.fg, self.bg);
        let mut drawn: Option<CellWrite> = None;
        if glyph == '\n' {
            self.x = 0;
            self.y = self.y + 1;
        } else if glyph == '\r' {
            self.x = 0;
        } else if glyph == '\t' {
            self.x = self.x + 4;
            self.x = self.x - self.x % 4;
        } else if glyph == '\0' {
        } else {
            let offset = self.y * COLS + self.x;
            drawn = Some(CellWrite { offset, value: (glyph as u32 + a as u32 * 0x100) as u16 });
            self.x = self.x + 1;
        }
        if self.x >= COLS {
            self.x = 0;
            self.y = self.y + 1;
        }
        if self.y >= ROWS {
            self.y = ROWS - 1;
        }
        drawn
    }

    /// Writes the characters of `s` at the cursor, NULs skipped (see
    /// `screen_run`); returns the cells drawn, in order.
    pub fn write_str(&mut self, s: &str) -> (r: Vec<CellWrite>)
        requires
            old(self).wf(),
        ensures
            final(self).wf(),
            ({
                let run = screen_run(s@, old(self).x as int, old(self).y as int, attr_spec(old(self).fg, old(self).bg));
                &&& final(self).x as int == run.0
                &&& final(self).y as int == run.1
                &&& r@ == run.2
            }),
            *final(self) == (Vga { x: final(self).x, y: final(self).y, ..*old(self) }),
    {
        let ghost a = attr_spec(self.fg, self.bg);
        let ghost x0 = self.x as int;
        let ghost y0 = self.y as int;
        let ghost start = *self;
        let n = s.unicode_len();
        let mut cells: Vec<CellWrite> = Vec::new();
        let mut i: usize = 0;
        proof {
            assert(s@.subrange(0, n as int) =~= s@);
            let t = screen_run(s@, x0, y0, a);
            assert(cells@ + t.2 =~= t.2);
        }
        while i < n
            invariant
                n == s@.len(),
                i <= n,
                self.wf(),
                *self == (Vga { x: self.x, y: self.y, ..start }),
                a == attr_spec(self.fg, self.bg),
                ({
                    let whole = screen_run(s@, x0, y0, a);
                    let rest = screen_run(s@.subrange(i as int, n as int), self.x as int, self.y as int, a);
                    whole == (rest.0, rest.1, cells@ + rest.2)
                }),
            decreases n - i,
        {
            let c = s.get_char(i);
            let ghost rest = s@.subrange(i as int, n as int);
            let ghost before = cells@;
            let ghost (bx, by) = (self.x as int, self.y as int);
            proof {
                assert(rest[0] == c);
                assert(rest.drop_first() =~= s@.subrange(i + 1, n as int));
            }
            if c != '\0' {
                match self.write_char(c) {
                    Some(w) => {
                        cells.push(w);
                    },
                    None => {},
                }
                proof {
                    let here = if draws(c) {
                        seq![CellWrite { offset: (by * COLS + bx) as usize, value: cell(safe_char_spec(c), a) }]
                    } else {
                        Seq::<CellWrite>::empty()
                    };
                    assert(cells@ =~= before + here);
                    let tail = screen_run(s@.subrange(i + 1, n as int), self.x as int, self.y as int, a);
                    assert(before + (here + tail.2) =~= cells@ + tail.2);
                }
            }
            i = i + 1;
        }
        proof {
            assert(s@.subrange(n as int, n as int) =~= Seq::<char>::empty());
            assert(cells@ + Seq::<CellWrite>::empty() =~= cells@);
        }
        cells
    }
}

} // verus!
