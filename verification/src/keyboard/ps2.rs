//! The PS/2 receiver: a decoder that takes one data bit per falling clock
//! edge and assembles 11-bit frames (start bit, eight data bits least
//! significant first, odd parity bit, stop bit) into scan codes.
use vstd::prelude::*;
use crate::gpio::{self, Mode, Pin};
use crate::mmio::MmioOp;
use crate::ringbuf::{Buf, SIZE};

verus! {

/// Clock line of the keyboard.
pub const CLOCK: Pin = Pin::TwentyThree;
/// Data line of the keyboard.
pub const DATA: Pin = Pin::TwentyFour;

pub const INTERRUPT_ENABLE_1: u32 = 0x2000b210;
pub const INTERRUPT_ENABLE_2: u32 = 0x2000b214;
pub const INTERRUPT_DISABLE_1: u32 = 0x2000b21c;
pub const INTERRUPT_DISABLE_2: u32 = 0x2000b220;

/// Where the decoder stands within a frame.
#[derive(Clone, Copy, PartialEq, Eq, Structural, Debug)]
pub enum Ps2 {
    /// Waiting for a low start bit.
    AwaitingStart,
    /// The start bit was seen; the next bit is data bit 0.
    Started,
    /// `pos` data bits are in `code`; `parity` counts the ones among them.
    GotData { code: u8, pos: i32, parity: u8 },
    /// All data bits and a good parity bit were seen; the stop bit is next.
    GotParity { code: u8 },
}

/// The bit as the decoder adds it up.
pub open spec fn bit_value(data: bool) -> u8 {
    if data { 1 } else { 0 }
}

/// The decoder's state is one it can reach: while data bits are collected,
/// `pos` counts them (one to eight), `code` holds just those bits, and
/// `parity` is the number of ones among them.
pub open spec fn ps2_wf(s: Ps2) -> bool {
    match s {
        Ps2::GotData { code, pos, parity } => {
            &&& 1 <= pos <= 8
            &&& (code as u32) < (1u32 << (pos as u32))
            &&& parity as int == ones_below(code, pos as int)
        },
        _ => true,
    }
}

/// The step on `data` does no arithmetic that overflows: a data bit is
/// shifted by a nonnegative count, and the parity count takes one more bit.
pub open spec fn ps2_safe(s: Ps2, data: bool) -> bool {
    match s {
        Ps2::GotData { code, pos, parity } => {
            &&& pos < 8 ==> pos >= 0
            &&& parity + bit_value(data) <= 255
        },
        _ => true,
    }
}

/// One clock edge: the next state, and the scan code completed by this bit.
pub open spec fn ps2_step(s: Ps2, data: bool) -> (Ps2, Option<u8>) {
    let bit = bit_value(data);
    match s {
        Ps2::AwaitingStart => (if !data { Ps2::Started } else { Ps2::AwaitingStart }, None),
        Ps2::Started => (Ps2::GotData { code: bit, pos: 1, parity: bit }, None),
        Ps2::GotData { code, pos, parity } => if pos < 8 {
            (
                Ps2::GotData {
                    code: code | ((bit << (pos as u32)) as u8),
                    pos: (pos + 1) as i32,
                    parity: (parity + bit) as u8,
                },
                None,
            )
        } else if (parity + bit) % 2 != 1 {
            (Ps2::AwaitingStart, None)
        } else {
            (Ps2::GotParity { code }, None)
        },
        Ps2::GotParity { code } => if data {
            (Ps2::AwaitingStart, Some(code))
        } else {
            (Ps2::AwaitingStart, None)
        },
    }
}

/// Feeds `bits` one by one: the final state and the scan codes completed.
pub open spec fn ps2_run(s: Ps2, bits: Seq<bool>) -> (Ps2, Seq<u8>)
    decreases bits.len(),
{
    if bits.len() == 0 {
        (s, Seq::empty())
    } else {
        let (s1, out) = ps2_step(s, bits[0]);
        let (s2, rest) = ps2_run(s1, bits.drop_first());
        (s2, match out {
            Some(c) => seq![c] + rest,
            None => rest,
        })
    }
}

/// Data bit `i` of `b`, least significant first.
pub open spec fn data_bit(b: u8, i: int) -> bool {
    (b >> (i as u8)) & 1 == 1
}

/// Number of ones among the eight bits of `b`.
pub open spec fn ones(b: u8) -> int {
    ones_below(b, 8)
}

/// Number of ones among the first `k` data bits of `b`.
pub open spec fn ones_below(b: u8, k: int) -> int
    decreases k,
{
    if k <= 0 {
        0
    } else {
        ones_below(b, k - 1) + ((b >> ((k - 1) as u8)) & 1) as int
    }
}

/// The eleven line levels that carry `b`, with the given parity and stop bits.
pub open spec fn frame_with(b: u8, parity: bool, stop: bool) -> Seq<bool> {
    seq![
        false,
        data_bit(b, 0),
        data_bit(b, 1),
        data_bit(b, 2),
        data_bit(b, 3),
        data_bit(b, 4),
        data_bit(b, 5),
        data_bit(b, 6),
        data_bit(b, 7),
        parity,
        stop,
    ]
}

/// The parity bit that makes the number of ones among data and parity odd.
pub open spec fn odd_parity(b: u8) -> bool {
    ones(b) % 2 == 0
}

/// The well-formed frame that carries `b`.
pub open spec fn frame(b: u8) -> Seq<bool> {
    frame_with(b, odd_parity(b), true)
}

/// The register accesses that set the keyboard up: all interrupts masked,
/// both lines inputs, falling edges of the clock detected, and the GPIO
/// interrupt (number 52) enabled.
pub open spec fn init_ops() -> Seq<MmioOp> {
    seq![
        MmioOp::Store { addr: INTERRUPT_DISABLE_1, value: 0xFFFFFFFF },
        MmioOp::Store { addr: INTERRUPT_DISABLE_2, value: 0xFFFFFFFF },
        gpio::set_mode_op(CLOCK, Mode::Input),
        gpio::set_mode_op(DATA, Mode::Input),
    ] + gpio::detect_falling_edge_ops(CLOCK) + seq![
        MmioOp::Store { addr: INTERRUPT_ENABLE_2, value: 1u32 << 20u32 },
    ]
}

/// Set-up in numbers: both interrupt banks masked with all ones, the clock
/// (pin 23) and data (pin 24) lines made inputs by or-ing zero into the
/// third function select word, falling edges detected on bit 23 of the first
/// falling-edge word between barriers, and interrupt 52 (bit 20 of the
/// second enable word) enabled last.
pub proof fn lemma_init_values()
    ensures
        init_ops() == seq![
            MmioOp::Store { addr: 0x2000b21cu32, value: 0xFFFFFFFFu32 },
            MmioOp::Store { addr: 0x2000b220u32, value: 0xFFFFFFFFu32 },
            MmioOp::SetBits { addr: 0x20200008u32, bits: 0u32 },
            MmioOp::SetBits { addr: 0x20200008u32, bits: 0u32 },
            MmioOp::Barrier,
            MmioOp::SetBits { addr: 0x20200058u32, bits: 0x800000u32 },
            MmioOp::Barrier,
            MmioOp::Store { addr: 0x2000b214u32, value: 0x100000u32 },
        ],
{
    assert(0u32 << 9u32 == 0u32 && 0u32 << 12u32 == 0u32 && 1u32 << 23u32 == 0x800000u32 && 1u32
        << 20u32 == 0x100000u32) by (bit_vector);
    assert(init_ops() =~= seq![
        MmioOp::Store { addr: 0x2000b21cu32, value: 0xFFFFFFFFu32 },
        MmioOp::Store { addr: 0x2000b220u32, value: 0xFFFFFFFFu32 },
        MmioOp::SetBits { addr: 0x20200008u32, bits: 0u32 },
        MmioOp::SetBits { addr: 0x20200008u32, bits: 0u32 },
        MmioOp::Barrier,
        MmioOp::SetBits { addr: 0x20200058u32, bits: 0x800000u32 },
        MmioOp::Barrier,
        MmioOp::Store { addr: 0x2000b214u32, value: 0x100000u32 },
    ]);
}

/// Sets the keyboard up: the accesses of `init_ops`, in order.
pub fn init() -> (ops: Vec<MmioOp>)
    ensures
        ops@ == init_ops(),
{
    let mut ops: Vec<MmioOp> = Vec::new();
    ops.push(MmioOp::Store { addr: INTERRUPT_DISABLE_1, value: 0xFFFFFFFF });
    ops.push(MmioOp::Store { addr: INTERRUPT_DISABLE_2, value: 0xFFFFFFFF });
    ops.push(gpio::set_mode(CLOCK, Mode::Input));
    ops.push(gpio::set_mode(DATA, Mode::Input));
    let mut edge = gpio::detect_falling_edge(CLOCK);
    ops.append(&mut edge);
    ops.push(MmioOp::Store { addr: INTERRUPT_ENABLE_2, value: 1u32 << (52u32 - 32) });
    assert(ops@ =~= init_ops());
    ops
}

/// Takes the next scan code out of `scanbuf`, or `None` while it is empty
/// (the caller waits for the receiver to fill it and asks again).
pub fn wait_for_char(scanbuf: &mut Buf<u8>) -> (c: Option<u8>)
    requires
        !old(scanbuf)@.is_empty() ==> old(scanbuf).head < SIZE && old(scanbuf)@.can_pop(),
    ensures
        old(scanbuf)@.is_empty() ==> c is None && final(scanbuf)@ == old(scanbuf)@,
        !old(scanbuf)@.is_empty() ==> c == Some(old(scanbuf)@.front()) && final(scanbuf)@
            == old(scanbuf)@.popped(),
{
    if scanbuf.empty() {
        return None;
    }
    Some(scanbuf.pop())
}

/// Handles one falling edge of the keyboard clock, given the level of the
/// data line: advances the decoder, and on a good stop bit pushes the
/// finished scan code into `scanbuf`.
pub fn interrupt(scan: &mut Ps2, scanbuf: &mut Buf<u8>, data: bool)
    requires
        ps2_safe(*old(scan), data),
        ps2_step(*old(scan), data).1 is Some ==> {
            &&& old(scanbuf).head < SIZE
            &&& old(scanbuf).tail < usize::MAX
            &&& !old(scanbuf)@.is_full()
        },
    ensures
        ps2_wf(*old(scan)) ==> ps2_wf(*final(scan)),
        *final(scan) == ps2_step(*old(scan), data).0,
        final(scanbuf)@ == match ps2_step(*old(scan), data).1 {
            Some(c) => old(scanbuf)@.pushed(c),
            None => old(scanbuf)@,
        },
{
    proof {
        if ps2_wf(*scan) {
            lemma_step_keeps_wf(*scan, data);
        }
    }
    match *scan {
        Ps2::AwaitingStart => {
            if !data {
                // Start bit was low. Good.
                *scan = Ps2::Started;
            } else {
                // Failure. Start bit was high.
                *scan = Ps2::AwaitingStart;
            }
        },
        Ps2::Started => {
            let bit: u8 = if data { 1 } else { 0 };
            *scan = Ps2::GotData { code: bit, pos: 1, parity: bit };
        },
        Ps2::GotData { code, pos, parity } => {
            let bit: u8 = if data { 1 } else { 0 };
            if pos < 8 {
                *scan = Ps2::GotData { code: code | (bit << (pos as u32)), pos: pos + 1, parity: parity + bit };
            } else {
                // Handle parity bit.
                if (parity + bit) % 2 != 1 {
                    // Failure.
                    *scan = Ps2::AwaitingStart;
                } else {
                    *scan = Ps2::GotParity { code: code };
                }
            }
        },
        Ps2::GotParity { code } => {
            if data {
                // Stop bit was high. Good.
                scanbuf.push(code);
                *scan = Ps2::AwaitingStart;
            } else {
                *scan = Ps2::AwaitingStart;
            }
        },
    }
}

/// Every reachable state of the decoder steps without overflow to a
/// reachable state: the invariant `ps2_wf` holds after every clock edge.
pub proof fn lemma_step_keeps_wf(s: Ps2, data: bool)
    requires
        ps2_wf(s),
    ensures
        ps2_safe(s, data),
        ps2_wf(ps2_step(s, data).0),
{
    let bit = bit_value(data);
    assert(bit <= 1);
    match s {
        Ps2::Started => {
            assert(ones_below(bit, 1) == ((bit >> 0u8) & 1) as int) by {
                reveal_with_fuel(ones_below, 2);
            }
            assert((bit >> 0u8) & 1 == bit && (bit as u32) < (1u32 << 1u32)) by (bit_vector)
                requires
                    bit <= 1,
            ;
        },
        Ps2::GotData { code, pos, parity } => {
            lemma_ones_below_bound(code, pos as int);
            if pos < 8 {
                let p = pos as u32;
                let code2 = code | ((bit << p) as u8);
                assert((code2 as u32) < (1u32 << ((p + 1) as u32)) && (code2 >> (p as u8)) & 1 == bit)
                    by (bit_vector)
                    requires
                        (code as u32) < (1u32 << p),
                        bit <= 1,
                        p < 8,
                        code2 == code | ((bit << p) as u8),
                ;
                assert forall|j: int| #![trigger (code >> (j as u8))] 0 <= j < pos as int implies ((code2 >> (j as u8)) & 1) == ((code
                    >> (j as u8)) & 1) by {
                    let jj = j as u8;
                    assert(((code2 >> jj) & 1) == ((code >> jj) & 1)) by (bit_vector)
                        requires
                            (jj as u32) < p,
                            p < 8,
                            bit <= 1,
                            code2 == code | ((bit << p) as u8),
                    ;
                }
                lemma_ones_below_agree(code, code2, pos as int);
                assert(ones_below(code2, pos as int + 1) == ones_below(code2, pos as int) + ((code2
                    >> (pos as u8)) & 1) as int);
            }
        },
        _ => {},
    }
}

/// Two bytes that agree on their first `k` bits have as many ones there.
proof fn lemma_ones_below_agree(a: u8, b: u8, k: int)
    requires
        0 <= k <= 8,
        forall|j: int| #![trigger (a >> (j as u8))] 0 <= j < k ==> ((a >> (j as u8)) & 1) == ((b >> (j as u8)) & 1),
    ensures
        ones_below(a, k) == ones_below(b, k),
    decreases k,
{
    if k > 0 {
        lemma_ones_below_agree(a, b, k - 1);
        assert(((a >> ((k - 1) as u8)) & 1) == ((b >> ((k - 1) as u8)) & 1));
    }
}

/// Unfolds a run once: the run over `bits` is the step on
/// its first bit followed by the run over the rest.
proof fn lemma_run_unfold(s: Ps2, bits: Seq<bool>)
    requires
        bits.len() > 0,
    ensures
        ps2_run(s, bits) == ({
            let (s1, out) = ps2_step(s, bits[0]);
            let (s2, rest) = ps2_run(s1, bits.drop_first());
            (s2, match out {
                Some(c) => seq![c] + rest,
                None => rest,
            })
        }),
{
}

/// The state after the start bit and the first `k` data bits of `b`.
spec fn after_data(b: u8, k: int) -> Ps2 {
    Ps2::GotData {
        code: b & (((1u32 << (k as u32)) - 1) as u8),
        pos: k as i32,
        parity: ones_below(b, k) as u8,
    }
}

proof fn lemma_bit_value(b: u8, k: u8)
    requires
        k < 8,
    ensures
        bit_value(data_bit(b, k as int)) == (b >> k) & 1,
{
    assert((if (b >> k) & 1 == 1 { 1u8 } else { 0u8 }) == (b >> k) & 1) by (bit_vector);
}

proof fn lemma_accumulate(b: u8, k: u32)
    requires
        1 <= k < 8,
    ensures
        (b & (((1u32 << k) - 1) as u8)) | ((((b >> (k as u8)) & 1) << k) as u8) == b & (((1u32
            << (k + 1) as u32) - 1) as u8),
{
    assert((b & (((1u32 << k) - 1) as u8)) | ((((b >> (k as u8)) & 1) << k) as u8) == b
        & (((1u32 << (k + 1) as u32) - 1) as u8)) by (bit_vector)
        requires
            1 <= k < 8,
    ;
}

/// One data bit in the middle of a frame moves the decoder from `k` to
/// `k + 1` collected bits.
proof fn lemma_data_step(b: u8, k: int)
    requires
        1 <= k < 8,
    ensures
        ps2_step(after_data(b, k), data_bit(b, k)) == (after_data(b, k + 1), None::<u8>),
{
    lemma_bit_value(b, k as u8);
    lemma_accumulate(b, k as u32);
    assert(ones_below(b, k + 1) == ones_below(b, k) + ((b >> (k as u8)) & 1) as int);
    lemma_ones_below_bound(b, k);
    lemma_ones_below_bound(b, k + 1);
    let bit = bit_value(data_bit(b, k));
    assert(bit == (b >> (k as u8)) & 1);
    let code = b & (((1u32 << (k as u32)) - 1) as u8);
    assert(((k as i32) as u32) == k as u32);
    assert((code | ((bit << ((k as i32) as u32)) as u8)) == b & (((1u32 << ((k + 1) as u32)) - 1) as u8));
    assert(((ones_below(b, k) as u8 + bit) as u8) == ones_below(b, k + 1) as u8);
}

proof fn lemma_ones_below_bound(b: u8, k: int)
    requires
        0 <= k <= 8,
    ensures
        0 <= ones_below(b, k) <= k,
    decreases k,
{
    if k > 0 {
        lemma_ones_below_bound(b, k - 1);
        let j = (k - 1) as u8;
        assert((b >> j) & 1 <= 1) by (bit_vector);
    }
}

/// The parity bit of a well-formed frame makes the number of ones among the
/// nine data and parity bits odd.
pub proof fn lemma_odd_parity(b: u8)
    ensures
        (ones(b) + bit_value(odd_parity(b))) % 2 == 1,
{
}

/// A well-formed frame, fed to a decoder that waits for a start bit, yields
/// exactly the byte it carries and leaves the decoder waiting again.
pub proof fn lemma_frame_roundtrip(b: u8)
    ensures
        ps2_run(Ps2::AwaitingStart, frame(b)) == (Ps2::AwaitingStart, seq![b]),
{
    lemma_frame_decoding(b, odd_parity(b), true);
}

/// An eleven-bit frame, fed to a decoder that waits for a start bit, yields
/// its byte exactly when the parity bit is right and the stop bit is high.
/// A wrong parity bit sends the decoder back to waiting at once, so that a
/// low stop bit is then taken as the next start bit.
pub proof fn lemma_frame_decoding(b: u8, parity: bool, stop: bool)
    ensures
        ps2_run(Ps2::AwaitingStart, frame_with(b, parity, stop)) == if parity == odd_parity(b) {
            if stop {
                (Ps2::AwaitingStart, seq![b])
            } else {
                (Ps2::AwaitingStart, Seq::<u8>::empty())
            }
        } else {
            if stop {
                (Ps2::AwaitingStart, Seq::<u8>::empty())
            } else {
                (Ps2::Started, Seq::<u8>::empty())
            }
        },
{
    let p = after_data(b, 8);
    let f = frame_with(b, parity, stop);
    let t1 = f.subrange(9, 11);
    assert(t1 =~= seq![parity, stop]);
    assert(p matches Ps2::GotData { code, pos, parity } && code == b) by {
        assert(b & (((1u32 << 8u32) - 1) as u8) == b) by (bit_vector);
    }
    lemma_ones_below_bound(b, 8);
    let mid = ps2_step(p, parity).0;
    assert(ps2_step(p, parity).1 is None);
    assert(parity == odd_parity(b) ==> mid == Ps2::GotParity { code: b });
    assert(parity != odd_parity(b) ==> mid == Ps2::AwaitingStart);
    lemma_run_unfold(p, t1);
    lemma_run_unfold(mid, t1.drop_first());
    assert(t1.drop_first().drop_first() =~= Seq::<bool>::empty());
    let last = ps2_step(mid, stop).0;
    assert(ps2_run(last, Seq::<bool>::empty()) == (last, Seq::<u8>::empty()));
    assert(seq![b] + Seq::<u8>::empty() =~= seq![b]);
    lemma_run_prefix(b, parity, stop);
}

/// The data bits `k..8` of a frame carry the decoder from `k` collected
/// bits to eight, without a scan code.
proof fn lemma_run_data(b: u8, parity: bool, stop: bool, k: int)
    requires
        1 <= k <= 8,
    ensures
        ps2_run(after_data(b, k), frame_with(b, parity, stop).subrange(k + 1, 11)) == ps2_run(
            after_data(b, 8),
            frame_with(b, parity, stop).subrange(9, 11),
        ),
    decreases 8 - k,
{
    if k < 8 {
        let rest = frame_with(b, parity, stop).subrange(k + 1, 11);
        assert(rest[0] == data_bit(b, k));
        lemma_run_unfold(after_data(b, k), rest);
        lemma_data_step(b, k);
        assert(rest.drop_first() =~= frame_with(b, parity, stop).subrange(k + 2, 11));
        lemma_run_data(b, parity, stop, k + 1);
    }
}

/// Running a frame is running its first nine bits, then the rest.
proof fn lemma_run_prefix(b: u8, parity: bool, stop: bool)
    ensures
        ps2_run(Ps2::AwaitingStart, frame_with(b, parity, stop)) == ps2_run(
            after_data(b, 8),
            frame_with(b, parity, stop).subrange(9, 11),
        ),
{
    let f = frame_with(b, parity, stop);
    lemma_run_unfold(Ps2::AwaitingStart, f);
    let t = f.drop_first();
    assert(t[0] == data_bit(b, 0));
    lemma_bit_value(b, 0);
    lemma_run_unfold(Ps2::Started, t);
    assert(b & (((1u32 << 1u32) - 1) as u8) == (b >> 0u8) & 1) by (bit_vector);
    assert(ones_below(b, 1) == ((b >> 0u8) & 1) as int) by {
        reveal_with_fuel(ones_below, 2);
    }
    assert(ps2_step(Ps2::Started, t[0]).0 == after_data(b, 1));
    assert(t.drop_first() =~= f.subrange(2, 11));
    lemma_run_data(b, parity, stop, 1);
}

} // verus!
