//! The mini UART: its register block, its setup, and the bytes it sends.
use vstd::prelude::*;
use crate::gpio::{self, Mode, Pin};
use crate::mmio::{last_store, MmioOp};

verus! {

/// The mini UART's register block, word by word, from `AUX_MU_UART` on.
#[derive(Clone, Copy, PartialEq, Eq, Structural, Debug)]
pub struct Uart {
    /// I/O data
    pub data: u32,
    /// Interrupt enable
    pub ier: u32,
    /// Interrupt identify and FIFO enables and clears
    pub iir: u32,
    /// Line control
    pub lcr: u32,
    /// Modem control
    pub mcr: u32,
    /// Line status
    pub lsr: u32,
    /// Modem status
    pub msr: u32,
    pub scratch: u32,
    /// Control
    pub cntl: u32,
    /// Status
    pub stat: u32,
    /// Baud rate
    pub baud: u32,
}

// AUX bits
pub const AUX_ENABLES: u32 = 0x20215004;
pub const AUX_MU_ENABLE: u32 = 0x00000001;
pub const AUX_SPI0_ENABLE: u32 = 0x00000002;
pub const AUX_SPI1_ENABLE: u32 = 0x00000004;

// Mini UART bits
/// Address of the register block.
pub const AUX_MU_UART: u32 = 0x20215040;

pub const AUX_MU_IIR_RX_FIFO_CLEAR: u32 = 0x00000002;
pub const AUX_MU_IIR_TX_FIFO_CLEAR: u32 = 0x00000004;
pub const AUX_MU_IIR_RX_FIFO_ENABLE: u32 = 0x00000008;
pub const AUX_MU_IIR_TX_FIFO_ENABLE: u32 = 0x00000004;

pub const AUX_MU_LCR_8BIT: u32 = 0x00000003;

pub const AUX_MU_LSR_RX_READY: u32 = 0x00000001;
pub const AUX_MU_LSR_TX_READY: u32 = 0x00000010;
pub const AUX_MU_LSR_TX_EMPTY: u32 = 0x00000020;

pub const AUX_MU_CNTL_TX_ENABLE: u32 = 0x00000002;
pub const AUX_MU_CNTL_RX_ENABLE: u32 = 0x00000001;

pub const LINE_FEED: u8 = 10;
pub const CARRIAGE_RETURN: u8 = 13;

/// Word addresses of the registers of the block.
pub const DATA_REG: u32 = 0x20215040;
pub const IER_REG: u32 = 0x20215044;
pub const IIR_REG: u32 = 0x20215048;
pub const LCR_REG: u32 = 0x2021504C;
pub const MCR_REG: u32 = 0x20215050;
pub const LSR_REG: u32 = 0x20215054;
pub const CNTL_REG: u32 = 0x20215060;
pub const BAUD_REG: u32 = 0x20215068;

/// The register accesses that set the UART up: the mini UART enabled,
/// interrupts and transfer off, 8-bit mode, FIFOs cleared and enabled, the
/// baud divisor, both pins on their alternate function, then transfer on.
pub open spec fn init_ops() -> Seq<MmioOp> {
    seq![
        MmioOp::Store { addr: AUX_ENABLES, value: AUX_MU_ENABLE },
        MmioOp::Store { addr: IER_REG, value: 0 },
        MmioOp::Store { addr: CNTL_REG, value: 0 },
        MmioOp::Store { addr: LCR_REG, value: AUX_MU_LCR_8BIT },
        MmioOp::Store { addr: MCR_REG, value: 0 },
        MmioOp::Store { addr: IER_REG, value: 0 },
        MmioOp::Store {
            addr: IIR_REG,
            value: AUX_MU_IIR_RX_FIFO_CLEAR | AUX_MU_IIR_RX_FIFO_ENABLE | AUX_MU_IIR_TX_FIFO_CLEAR
                | AUX_MU_IIR_TX_FIFO_ENABLE,
        },
        MmioOp::Store { addr: BAUD_REG, value: 270 },
        gpio::set_mode_op(Pin::Tx, Mode::Alt5),
        gpio::set_mode_op(Pin::Rx, Mode::Alt5),
        MmioOp::Store { addr: CNTL_REG, value: AUX_MU_CNTL_TX_ENABLE | AUX_MU_CNTL_RX_ENABLE },
    ]
}

/// After set-up the mini UART's interrupts are off: every store to the
/// interrupt enable register writes zero. The registers end with the mini
/// UART enabled, 8-bit mode, no modem control, FIFOs cleared and enabled,
/// a baud divisor of 270, and transmitter and receiver on; transfer is
/// switched on only by the last access.
pub proof fn lemma_init_final_registers()
    ensures
        forall|i: int| 0 <= i < init_ops().len() && #[trigger] init_ops()[i] is Store && init_ops()[i]->Store_addr == IER_REG ==> init_ops()[i]->Store_value == 0,
        last_store(init_ops(), AUX_ENABLES) == Some(1u32),
        last_store(init_ops(), IER_REG) == Some(0u32),
        last_store(init_ops(), CNTL_REG) == Some(3u32),
        last_store(init_ops(), LCR_REG) == Some(3u32),
        last_store(init_ops(), MCR_REG) == Some(0u32),
        last_store(init_ops(), IIR_REG) == Some(0xEu32),
        last_store(init_ops(), BAUD_REG) == Some(270u32),
        init_ops().last() == (MmioOp::Store { addr: CNTL_REG, value: 3 }),
        forall|i: int| 0 <= i < init_ops().len() - 1 && #[trigger] init_ops()[i] is Store && init_ops()[i]->Store_addr == CNTL_REG ==> init_ops()[i]->Store_value == 0,
{
    let ops = init_ops();
    assert(AUX_MU_IIR_RX_FIFO_CLEAR | AUX_MU_IIR_RX_FIFO_ENABLE | AUX_MU_IIR_TX_FIFO_CLEAR
        | AUX_MU_IIR_TX_FIFO_ENABLE == 0xEu32) by (bit_vector);
    assert(AUX_MU_CNTL_TX_ENABLE | AUX_MU_CNTL_RX_ENABLE == 3u32) by (bit_vector);
    reveal_with_fuel(last_store, 12);
}

/// Sets the UART up: the accesses of `init_ops`, in order.
pub fn init() -> (ops: Vec<MmioOp>)
    ensures
        ops@ == init_ops(),
{
    let mut ops: Vec<MmioOp> = Vec::new();
    ops.push(MmioOp::Store { addr: AUX_ENABLES, value: AUX_MU_ENABLE });
    ops.push(MmioOp::Store { addr: IER_REG, value: 0 });
    ops.push(MmioOp::Store { addr: CNTL_REG, value: 0 });
    ops.push(MmioOp::Store { addr: LCR_REG, value: AUX_MU_LCR_8BIT });
    ops.push(MmioOp::Store { addr: MCR_REG, value: 0 });
    ops.push(MmioOp::Store { addr: IER_REG, value: 0 });
    ops.push(
        MmioOp::Store {
            addr: IIR_REG,
            value: AUX_MU_IIR_RX_FIFO_CLEAR | AUX_MU_IIR_RX_FIFO_ENABLE | AUX_MU_IIR_TX_FIFO_CLEAR
                | AUX_MU_IIR_TX_FIFO_ENABLE,
        },
    );
    ops.push(MmioOp::Store { addr: BAUD_REG, value: 270 });
    ops.push(gpio::set_mode(Pin::Tx, Mode::Alt5));
    ops.push(gpio::set_mode(Pin::Rx, Mode::Alt5));
    ops.push(MmioOp::Store { addr: CNTL_REG, value: AUX_MU_CNTL_TX_ENABLE | AUX_MU_CNTL_RX_ENABLE });
    assert(ops@ =~= init_ops());
    ops
}

/// Whether a received byte is waiting, given the line status word.
pub fn hasc(lsr: u32) -> (r: bool)
    ensures
        r == (lsr & AUX_MU_LSR_RX_READY != 0),
{
    lsr & AUX_MU_LSR_RX_READY != 0
}

/// The received byte, given the word read from the data register once
/// `hasc` holds.
pub fn getc(data: u32) -> (c: u8)
    ensures
        c == (data & 0xFFu32) as u8,
{
    (data & 0xFFu32) as u8
}

/// Whether the transmitter can take the next byte, given the line status
/// word.
pub fn tx_empty(lsr: u32) -> (r: bool)
    ensures
        r == (lsr & AUX_MU_LSR_TX_EMPTY != 0),
{
    lsr & AUX_MU_LSR_TX_EMPTY != 0
}

/// The bytes written to the data register to send `c`: a line feed goes
/// out as carriage return then line feed.
pub open spec fn wire_char(c: u8) -> Seq<u8> {
    if c == LINE_FEED {
        seq![CARRIAGE_RETURN, LINE_FEED]
    } else {
        seq![c]
    }
}

/// The bytes written to the data register to send `s`, byte by byte.
pub open spec fn wire(s: Seq<u8>) -> Seq<u8>
    decreases s.len(),
{
    if s.len() == 0 {
        Seq::empty()
    } else {
        wire(s.drop_last()) + wire_char(s.last())
    }
}

/// The bytes to send for `c`, in order; the caller waits for `tx_empty`
/// before writing each.
pub fn putc(c: u8) -> (out: Vec<u8>)
    ensures
        out@ == wire_char(c),
{
    let mut out: Vec<u8> = Vec::new();
    if c == LINE_FEED {
        out.push(CARRIAGE_RETURN);
    }
    out.push(c);
    assert(out@ =~= wire_char(c));
    out
}

/// The bytes to send for `s`, in order.
pub fn write_str(s: &str) -> (out: Vec<u8>)
    ensures
        out@ == wire(vstd::string::StringSliceAdditionalSpecFns::spec_bytes(s)),
{
    let bytes = s.as_bytes();
    let mut out: Vec<u8> = Vec::new();
    let mut i: usize = 0;
    while i < bytes.len()
        invariant
            i <= bytes@.len(),
            bytes@ == vstd::string::StringSliceAdditionalSpecFns::spec_bytes(s),
            out@ == wire(bytes@.take(i as int)),
        decreases bytes@.len() - i,
    {
        let mut one = putc(bytes[i]);
        out.append(&mut one);
        assert(bytes@.take(i as int + 1).drop_last() =~= bytes@.take(i as int));
        i = i + 1;
    }
    assert(bytes@.take(i as int) =~= bytes@);
    out
}

/// The register words of the block, each four bytes after the one before:
/// data, interrupt enable, interrupt identify, line control, modem control,
/// line status, then (after modem status and scratch) control, and (after
/// status) baud rate.
pub proof fn lemma_register_layout()
    ensures
        DATA_REG == AUX_MU_UART,
        IER_REG == AUX_MU_UART + 4,
        IIR_REG == AUX_MU_UART + 8,
        LCR_REG == AUX_MU_UART + 12,
        MCR_REG == AUX_MU_UART + 16,
        LSR_REG == AUX_MU_UART + 20,
        CNTL_REG == AUX_MU_UART + 32,
        BAUD_REG == AUX_MU_UART + 40,
        LINE_FEED == 10,
        CARRIAGE_RETURN == 13,
{
}

/// A string without line feeds goes out unchanged.
pub proof fn lemma_wire_plain(s: Seq<u8>)
    requires
        forall|i: int| 0 <= i < s.len() ==> s[i] != 10u8,
    ensures
        wire(s) == s,
    decreases s.len(),
{
    if s.len() > 0 {
        lemma_wire_plain(s.drop_last());
        assert(s.drop_last().push(s.last()) =~= s);
    }
}

/// Sending a line feed after a string appends a carriage return and the
/// line feed to what the string sends; any other byte is appended as is.
pub proof fn lemma_wire_push(s: Seq<u8>, c: u8)
    ensures
        wire(s.push(c)) == if c == 10 { wire(s) + seq![13u8, 10u8] } else { wire(s).push(c) },
{
    assert(s.push(c).drop_last() =~= s);
    assert(wire(s) + seq![c] =~= wire(s).push(c));
}

/// Sending two strings one after the other puts on the line what sending
/// their concatenation does.
pub proof fn lemma_wire_append(a: Seq<u8>, b: Seq<u8>)
    ensures
        wire(a + b) == wire(a) + wire(b),
    decreases b.len(),
{
    if b.len() == 0 {
        assert(a + b =~= a);
        assert(wire(a) + wire(b) =~= wire(a));
    } else {
        lemma_wire_append(a, b.drop_last());
        assert((a + b).drop_last() =~= a + b.drop_last());
        assert((a + b).last() == b.last());
        assert(wire(a) + wire(b.drop_last()) + wire_char(b.last()) =~= wire(a) + (wire(b.drop_last())
            + wire_char(b.last())));
    }
}

/// The line carries one byte per byte of the string, plus one carriage
/// return per line feed.
pub proof fn lemma_wire_line_feeds(s: Seq<u8>)
    ensures
        wire(s).len() == s.len() + s.filter(|c: u8| c == 10u8).len(),
    decreases s.len(),
{
    reveal_with_fuel(Seq::filter, 1);
    if s.len() > 0 {
        lemma_wire_line_feeds(s.drop_last());
    }
}

} // verus!
