//! A text console on the framebuffer: a cursor of glyph cells that wraps at
//! the right edge and clears the screen once it runs off the bottom.
//!
//! Drawing is described as a list of `ScreenOp`s that the framebuffer code
//! carries out.
use vstd::prelude::*;
use crate::gl;
use crate::gl::font;

verus! {

pub const BACKSPACE: u8 = 8;
pub const LINE_FEED: u8 = 10;
pub const SPACE: u8 = 32;

/// Length of the line buffer.
pub const LINE_LEN: usize = 100;

/// One drawing step of the console.
#[derive(Clone, Copy, PartialEq, Eq, Structural, Debug)]
pub enum ScreenOp {
    /// Clear the whole screen.
    Clear,
    /// Draw glyph `c` with its top-left corner at pixel (`x`, `y`).
    PutChar { c: u8, x: usize, y: usize },
}

/// The line being read: its bytes, and the position of the next one.
pub struct LineBuffer {
    pub buf: [u8; LINE_LEN],
    pub pos: usize,
}

impl LineBuffer {
    /// An empty line: all zero bytes, position zero.
    pub fn new() -> (line: LineBuffer)
        ensures
            line.pos == 0,
            line.buf@ == Seq::new(LINE_LEN as nat, |i: int| 0u8),
    {
        let line = LineBuffer { buf: [0u8; LINE_LEN], pos: 0 };
        assert(line.buf@ =~= Seq::new(LINE_LEN as nat, |i: int| 0u8));
        line
    }
}

/// The cursor, counted in glyph cells.
pub struct Console {
    row: usize,
    col: usize,
}

/// Screen height in pixels, as a cell count can be compared with it.
pub open spec fn screen_height() -> int {
    gl::HEIGHT as int
}

/// Screen width in pixels.
pub open spec fn screen_width() -> int {
    gl::WIDTH as int
}

/// A cursor (row, column) that the console can hold: the column lies on
/// the screen and the row at most one line past the last one checked.
pub open spec fn cursor_wf(cur: (int, int)) -> bool {
    &&& 0 <= cur.0
    &&& 0 <= cur.1
    &&& cur.0 * (font::HEIGHT + 1) < screen_height() + font::HEIGHT + 1
    &&& cur.1 * font::WIDTH < screen_width()
}

/// Whether `c` is a printable character of the font (space to tilde).
pub open spec fn printable(c: u8) -> bool {
    c >= 32 && c - 32 < 95
}

/// `putchar` on cursor `cur`: the new cursor and the drawing steps. The
/// screen is cleared first when the cursor has run off its bottom; a
/// printable character is drawn and advances the cursor, wrapping at the
/// right edge; a line feed moves to the start of the next row; any other
/// byte is ignored.
pub open spec fn putchar_spec(cur: (int, int), c: u8) -> ((int, int), Seq<ScreenOp>) {
    let (cur1, ops1) = if cur.0 * (font::HEIGHT + 1) >= screen_height() {
        ((0int, 0int), seq![ScreenOp::Clear])
    } else {
        (cur, Seq::<ScreenOp>::empty())
    };
    if printable(c) {
        let op = ScreenOp::PutChar {
            c,
            x: (cur1.1 * font::WIDTH) as usize,
            y: (cur1.0 * font::HEIGHT) as usize,
        };
        let col = cur1.1 + 1;
        if col * font::WIDTH >= screen_width() {
            ((cur1.0 + 1, 0int), ops1.push(op))
        } else {
            ((cur1.0, col), ops1.push(op))
        }
    } else if c == LINE_FEED {
        ((cur1.0 + 1, 0int), ops1)
    } else {
        (cur1, ops1)
    }
}

/// `print` of `bytes` on cursor `cur`: `putchar` on each byte in turn, the
/// drawing steps concatenated.
pub open spec fn print_spec(cur: (int, int), bytes: Seq<u8>) -> ((int, int), Seq<ScreenOp>)
    decreases bytes.len(),
{
    if bytes.len() == 0 {
        (cur, Seq::empty())
    } else {
        let (cur1, ops1) = print_spec(cur, bytes.drop_last());
        let (cur2, ops2) = putchar_spec(cur1, bytes.last());
        (cur2, ops1 + ops2)
    }
}

/// Whether a command line asks for a reset: it starts with `reset`.
pub open spec fn is_reset_command(bytes: Seq<u8>) -> bool {
    bytes.len() >= 5 && bytes.subrange(0, 5) == seq![114u8, 101u8, 115u8, 101u8, 116u8]
}

impl View for Console {
    type V = (int, int);

    closed spec fn view(&self) -> (int, int) {
        (self.row as int, self.col as int)
    }
}

proof fn lemma_putchar_wf(cur: (int, int), c: u8)
    requires
        cursor_wf(cur),
    ensures
        cursor_wf(putchar_spec(cur, c).0),
{
}

/// The cursor from which `putchar` draws: the top-left cell once the cursor
/// has run off the bottom of the screen (which clears it), else the cursor.
pub open spec fn draw_cursor(cur: (int, int)) -> (int, int) {
    if cur.0 * (font::HEIGHT + 1) >= gl::HEIGHT {
        (0, 0)
    } else {
        cur
    }
}

/// The drawing steps before any glyph: a clear exactly when the cursor has
/// run off the bottom of the screen.
pub open spec fn clear_ops(cur: (int, int)) -> Seq<ScreenOp> {
    if cur.0 * (font::HEIGHT + 1) >= gl::HEIGHT {
        seq![ScreenOp::Clear]
    } else {
        Seq::empty()
    }
}

/// Every byte from 32 (space) to 126 (tilde) is drawn: `putchar` emits one
/// glyph of `c` at the cursor's cell, `font::WIDTH` pixels per column and
/// `font::HEIGHT` per row, and moves one column right, or to the start of
/// the next row when that column would reach the right edge.
pub proof fn lemma_putchar_printable(cur: (int, int), c: u8)
    requires
        cursor_wf(cur),
        32 <= c <= 126,
    ensures
        ({
            let d = draw_cursor(cur);
            let (cur2, ops) = putchar_spec(cur, c);
            &&& ops == clear_ops(cur).push(ScreenOp::PutChar { c, x: (d.1 * 8) as usize, y: (d.0 * 8) as usize })
            &&& cur2 == if (d.1 + 1) * 8 >= 20 { (d.0 + 1, 0int) } else { (d.0, d.1 + 1) }
        }),
{
}

/// A line feed draws nothing and moves to the start of the next row; any
/// other byte outside 32..=126 draws nothing and leaves the cursor where it
/// is (apart from the clear past the bottom).
pub proof fn lemma_putchar_control(cur: (int, int), c: u8)
    requires
        cursor_wf(cur),
        c < 32 || c > 126,
    ensures
        ({
            let d = draw_cursor(cur);
            let (cur2, ops) = putchar_spec(cur, c);
            &&& ops == clear_ops(cur)
            &&& cur2 == if c == 10 { (d.0 + 1, 0int) } else { d }
        }),
{
}

/// A command line asks for a reset exactly when it starts with the five
/// bytes of `reset`: it is those bytes followed by anything.
pub proof fn lemma_reset_command_prefix(bytes: Seq<u8>)
    ensures
        is_reset_command(bytes) <==> exists|rest: Seq<u8>| bytes =~= seq![114u8, 101u8, 115u8, 101u8, 116u8] + rest,
{
    let p = seq![114u8, 101u8, 115u8, 101u8, 116u8];
    if is_reset_command(bytes) {
        assert(bytes =~= p + bytes.skip(5));
    }
    if exists|rest: Seq<u8>| bytes =~= p + rest {
        let rest = choose|rest: Seq<u8>| bytes =~= p + rest;
        assert(bytes.subrange(0, 5) =~= p);
    }
}

/// Printing `a` and then `b` moves the cursor and draws exactly as printing
/// their concatenation does.
pub proof fn lemma_print_append(cur: (int, int), a: Seq<u8>, b: Seq<u8>)
    ensures
        print_spec(cur, a + b) == ({
            let (cur1, ops1) = print_spec(cur, a);
            let (cur2, ops2) = print_spec(cur1, b);
            (cur2, ops1 + ops2)
        }),
    decreases b.len(),
{
    if b.len() == 0 {
        assert(a + b =~= a);
        let (cur1, ops1) = print_spec(cur, a);
        assert(ops1 + Seq::<ScreenOp>::empty() =~= ops1);
    } else {
        lemma_print_append(cur, a, b.drop_last());
        assert((a + b).drop_last() =~= a + b.drop_last());
        assert((a + b).last() == b.last());
        let (cur1, ops1) = print_spec(cur, a);
        let (cur2, ops2) = print_spec(cur1, b.drop_last());
        let (cur3, ops3) = putchar_spec(cur2, b.last());
        assert(ops1 + ops2 + ops3 =~= ops1 + (ops2 + ops3));
    }
}

/// Whether a drawing step stays on the screen: every glyph is drawn with
/// its top-left corner on the screen.
pub open spec fn on_screen(op: ScreenOp) -> bool {
    match op {
        ScreenOp::Clear => true,
        ScreenOp::PutChar { c, x, y } => x < gl::WIDTH && y < gl::HEIGHT,
    }
}

/// From a well-formed cursor, printing keeps the cursor well formed and
/// draws every glyph with its corner on the screen.
pub proof fn lemma_print_on_screen(cur: (int, int), bytes: Seq<u8>)
    requires
        cursor_wf(cur),
    ensures
        cursor_wf(print_spec(cur, bytes).0),
        forall|i: int| 0 <= i < print_spec(cur, bytes).1.len() ==> #[trigger] on_screen(print_spec(cur, bytes).1[i]),
    decreases bytes.len(),
{
    if bytes.len() > 0 {
        lemma_print_on_screen(cur, bytes.drop_last());
        let (cur1, ops1) = print_spec(cur, bytes.drop_last());
        lemma_putchar_wf(cur1, bytes.last());
        let (cur2, ops2) = putchar_spec(cur1, bytes.last());
        assert forall|i: int| 0 <= i < ops2.len() implies #[trigger] on_screen(ops2[i]) by {}
        assert forall|i: int| 0 <= i < (ops1 + ops2).len() implies #[trigger] on_screen((ops1 + ops2)[i]) by {
            if i < ops1.len() {
                assert((ops1 + ops2)[i] == ops1[i]);
            } else {
                assert((ops1 + ops2)[i] == ops2[i - ops1.len()]);
            }
        }
    }
}

impl Console {
    /// The cursor of a console: well formed.
    pub closed spec fn wf(&self) -> bool {
        cursor_wf(self@)
    }

    /// A console with the cursor at the top-left cell.
    pub fn new() -> (con: Console)
        ensures
            con@ == (0int, 0int),
            con.wf(),
    {
        Console { row: 0, col: 0 }
    }

    /// Draws one byte (see `putchar_spec`).
    pub fn putchar(&mut self, c: u8) -> (ops: Vec<ScreenOp>)
        requires
            old(self).wf(),
        ensures
            final(self).wf(),
            (final(self)@, ops@) == putchar_spec(old(self)@, c),
    {
        proof {
            lemma_putchar_wf(self@, c);
        }
        let mut ops: Vec<ScreenOp> = Vec::new();
        if self.row * (font::HEIGHT + 1) >= gl::HEIGHT as usize {
            ops.push(ScreenOp::Clear);
            self.row = 0;
            self.col = 0;
        }
        if c >= 32 && (c - 32) < 95 {
            ops.push(ScreenOp::PutChar { c, x: self.col * font::WIDTH, y: self.row * font::HEIGHT });

            self.col += 1;
            if self.col * font::WIDTH >= gl::WIDTH as usize {
                self.row += 1;
                self.col = 0;
            }
        } else if c == LINE_FEED {
            self.row += 1;
            self.col = 0;
        }
        assert(ops@ =~= putchar_spec(old(self)@, c).1);
        ops
    }

    /// Draws each byte of `s` in turn.
    pub fn print(&mut self, s: &str) -> (ops: Vec<ScreenOp>)
        requires
            old(self).wf(),
        ensures
            final(self).wf(),
            (final(self)@, ops@) == print_spec(
                old(self)@,
                vstd::string::StringSliceAdditionalSpecFns::spec_bytes(s),
            ),
    {
        let bytes = s.as_bytes();
        let mut ops: Vec<ScreenOp> = Vec::new();
        let mut i: usize = 0;
        while i < bytes.len()
            invariant
                i <= bytes@.len(),
                bytes@ == vstd::string::StringSliceAdditionalSpecFns::spec_bytes(s),
                self.wf(),
                (self@, ops@) == print_spec(old(self)@, bytes@.take(i as int)),
            decreases bytes@.len() - i,
        {
            let mut more = self.putchar(bytes[i]);
            ops.append(&mut more);
            assert(bytes@.take(i as int + 1).drop_last() =~= bytes@.take(i as int));
            i = i + 1;
        }
        assert(bytes@.take(i as int) =~= bytes@);
        ops
    }

    /// Draws `s`, then ends the line.
    pub fn println(&mut self, s: &str) -> (ops: Vec<ScreenOp>)
        requires
            old(self).wf(),
        ensures
            final(self).wf(),
            (final(self)@, ops@) == print_spec(
                old(self)@,
                vstd::string::StringSliceAdditionalSpecFns::spec_bytes(s).push(LINE_FEED),
            ),
    {
        let mut ops = self.print(s);
        let mut end = self.putchar(LINE_FEED);
        ops.append(&mut end);
        let ghost b = vstd::string::StringSliceAdditionalSpecFns::spec_bytes(s);
        assert(b.push(LINE_FEED).drop_last() =~= b);
        ops
    }

    /// Handles one key `c` of a line being read (the key has already been
    /// echoed on the UART): the drawing steps, and whether the line is done.
    ///
    /// A backspace with the cursor at column two or more blanks the cell
    /// before the cursor, leaves the cursor there and steps the line back
    /// by one; with the cursor further left it moves the cursor to column
    /// zero and restarts the line. A line feed is drawn and ends the line.
    /// Any other byte is drawn and stored at the line's position, which
    /// advances.
    pub fn readln(&mut self, line: &mut LineBuffer, c: u8) -> (res: (Vec<ScreenOp>, bool))
        requires
            old(self).wf(),
            c == BACKSPACE && old(self)@.1 >= 2 ==> old(line).pos >= 1,
            c != BACKSPACE && c != LINE_FEED ==> old(line).pos < LINE_LEN,
        ensures
            final(self).wf(),
            c == BACKSPACE && old(self)@.1 >= 2 ==> ({
                let (cur, ops) = putchar_spec((old(self)@.0, old(self)@.1 - 1), SPACE);
                &&& final(self)@ == (cur.0, cur.1 - 1)
                &&& res.0@ == ops
                &&& !res.1
                &&& final(line).pos == old(line).pos - 1
                &&& final(line).buf == old(line).buf
            }),
            c == BACKSPACE && old(self)@.1 < 2 ==> ({
                &&& final(self)@ == (old(self)@.0, 0int)
                &&& res.0@.len() == 0
                &&& !res.1
                &&& final(line).pos == 0
                &&& final(line).buf == old(line).buf
            }),
            c == LINE_FEED ==> ({
                &&& (final(self)@, res.0@) == putchar_spec(old(self)@, c)
                &&& res.1
                &&& final(line).pos == old(line).pos
                &&& final(line).buf == old(line).buf
            }),
            c != BACKSPACE && c != LINE_FEED ==> ({
                &&& (final(self)@, res.0@) == putchar_spec(old(self)@, c)
                &&& !res.1
                &&& final(line).pos == old(line).pos + 1
                &&& final(line).buf@ == old(line).buf@.update(old(line).pos as int, c)
            }),
    {
        if c == BACKSPACE {
            // Backspace.
            if self.col >= 2 {
                self.col -= 1;
                let ops = self.putchar(SPACE);
                self.col -= 1;

                line.pos -= 1;
                (ops, false)
            } else {
                self.col = 0;
                line.pos = 0;
                (Vec::new(), false)
            }
        } else if c == LINE_FEED {
            let ops = self.putchar(c);
            (ops, true)
        } else {
            let ops = self.putchar(c);

            line.buf[line.pos] = c;
            line.pos += 1;
            (ops, false)
        }
    }

    /// The cursor's row.
    pub fn row(&self) -> (r: usize)
        ensures
            r == self@.0,
    {
        self.row
    }

    /// The cursor's column.
    pub fn col(&self) -> (c: usize)
        ensures
            c == self@.1,
    {
        self.col
    }

    /// Whether the command line `s` asks for a reset.
    pub fn eval(&self, s: &str) -> (reset: bool)
        ensures
            reset == is_reset_command(vstd::string::StringSliceAdditionalSpecFns::spec_bytes(s)),
    {
        let b = s.as_bytes();
        let r = b.len() >= 5 && b[0] == 114 && b[1] == 101 && b[2] == 115 && b[3] == 101 && b[4] == 116;
        proof {
            if b@.len() >= 5 {
                assert(r ==> b@.subrange(0, 5) =~= seq![114u8, 101u8, 115u8, 101u8, 116u8]);
                assert(b@.subrange(0, 5) == seq![114u8, 101u8, 115u8, 101u8, 116u8] ==> b@[0] == 114
                    && b@[1] == 101 && b@[2] == 115 && b@[3] == 101 && b@[4] == 116);
            }
        }
        r
    }
}

} // verus!
