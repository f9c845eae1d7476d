//! Start-up and runtime support: the copy of the exception vector table,
//! the memory primitives, and the decision of the echo loop.
use vstd::prelude::*;

verus! {

/// The byte that asks the echo loop for a reset: a backquote.
pub const RESET_KEY: u8 = 96;

/// Row, in pixels, on which the echo loop draws.
pub const ECHO_ROW: usize = 13;

/// Advance, in pixels, after each echoed glyph.
pub const ECHO_ADVANCE: usize = 8;

/// What the echo loop does with a received byte.
#[derive(Clone, Copy, PartialEq, Eq, Structural, Debug)]
pub enum EchoAction {
    /// Reset the board.
    Reset,
    /// Draw `c` at pixel (`x`, `ECHO_ROW`), send it back on the UART, and
    /// go on at column `next_x`.
    Echo { c: u8, x: usize, next_x: usize },
}

/// The echo loop resets on a backquote (96) and on no other byte, draws at
/// pixel row 13, and moves eight pixels right per glyph.
pub proof fn lemma_echo_values()
    ensures
        RESET_KEY == 96,
        ECHO_ROW == 13,
        ECHO_ADVANCE == 8,
{
}

/// The echo loop's answer to byte `c` with the drawing column at `x`.
pub fn echo_step(c: u8, x: usize) -> (a: EchoAction)
    requires
        c != RESET_KEY ==> x + ECHO_ADVANCE <= usize::MAX,
    ensures
        a == if c == RESET_KEY {
            EchoAction::Reset
        } else {
            EchoAction::Echo { c, x, next_x: (x + ECHO_ADVANCE) as usize }
        },
{
    if c == RESET_KEY {
        EchoAction::Reset
    } else {
        EchoAction::Echo { c, x, next_x: x + ECHO_ADVANCE }
    }
}

/// Where the exception vectors live: the start of memory.
pub const RPI_VECTOR_START: isize = 0x0;

/// One word of the vector table to copy: from byte address `from` to byte
/// address `to`.
#[derive(Clone, Copy, PartialEq, Eq, Structural, Debug)]
pub struct WordCopy {
    pub from: isize,
    pub to: isize,
}

/// Number of words the vector table spans from byte address `table_start`
/// up to (not including) `table_end`, counting a partial last word.
pub open spec fn table_word_count(table_start: int, table_end: int) -> int {
    if table_start < table_end {
        (table_end - table_start + 3) / 4
    } else {
        0
    }
}

/// The copies that move the vector table between the two byte addresses to
/// `RPI_VECTOR_START`, one word each, in order: word `k` goes from
/// `table_start + 4k` to `RPI_VECTOR_START + 4k`. The addresses of the
/// words stepped over must not overflow.
pub fn prologue(table_start: isize, table_end: isize) -> (copies: Vec<WordCopy>)
    requires
        table_start < table_end ==> {
            &&& 4 * (table_word_count(table_start as int, table_end as int) - 1) <= isize::MAX
            &&& table_start + 4 * table_word_count(table_start as int, table_end as int) <= isize::MAX
        },
    ensures
        copies@.len() == table_word_count(table_start as int, table_end as int),
        forall|k: int|
            0 <= k < copies@.len() ==> #[trigger] copies@[k] == (WordCopy {
                from: (table_start + 4 * k) as isize,
                to: (RPI_VECTOR_START + 4 * k) as isize,
            }),
{
    let ghost n = table_word_count(table_start as int, table_end as int);
    let mut copies: Vec<WordCopy> = Vec::new();
    let mut table = table_start;
    while table < table_end
        invariant
            table == table_start + 4 * copies@.len(),
            copies@.len() <= n,
            n == table_word_count(table_start as int, table_end as int),
            table_start < table_end ==> 4 * (n - 1) <= isize::MAX && table_start + 4 * n <= isize::MAX,
            table_start >= table_end ==> copies@.len() == 0,
            forall|k: int|
                0 <= k < copies@.len() ==> #[trigger] copies@[k] == (WordCopy {
                    from: (table_start + 4 * k) as isize,
                    to: (RPI_VECTOR_START + 4 * k) as isize,
                }),
        decreases n - copies@.len(),
    {
        let there = RPI_VECTOR_START + 4 * ((table - table_start) / 4);
        copies.push(WordCopy { from: table, to: there });

        table += 4;
    }
    copies
}

/// Copies the first `n` bytes of `src` over the first `n` bytes of `dest`.
pub fn memcpy(dest: &mut [u8], src: &[u8], n: usize)
    requires
        n <= old(dest)@.len(),
        n <= src@.len(),
    ensures
        final(dest)@ == src@.take(n as int) + old(dest)@.skip(n as int),
{
    let mut i: usize = 0;
    while i < n
        invariant
            i <= n,
            n <= old(dest)@.len(),
            n <= src@.len(),
            dest@.len() == old(dest)@.len(),
            dest@ == src@.take(i as int) + old(dest)@.skip(i as int),
        decreases n - i,
    {
        dest[i] = src[i];
        assert(dest@ =~= src@.take(i as int + 1) + old(dest)@.skip(i as int + 1));
        i += 1;
    }
}

/// Sets the first `n` bytes of `s` to the low byte of `c`.
pub fn memset(s: &mut [u8], c: i32, n: usize)
    requires
        n <= old(s)@.len(),
    ensures
        final(s)@ == Seq::new(n as nat, |i: int| c as u8) + old(s)@.skip(n as int),
{
    let mut i: usize = 0;
    while i < n
        invariant
            i <= n,
            n <= old(s)@.len(),
            s@.len() == old(s)@.len(),
            s@ == Seq::new(i as nat, |k: int| c as u8) + old(s)@.skip(i as int),
        decreases n - i,
    {
        s[i] = c as u8;
        assert(s@ =~= Seq::new((i + 1) as nat, |k: int| c as u8) + old(s)@.skip(i as int + 1));
        i += 1;
    }
}

} // verus!
