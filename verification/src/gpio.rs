//! GPIO pins: which register words to read and write for each pin.
use vstd::prelude::*;
use crate::mmio::MmioOp;

verus! {

/// Base address of the GPIO register block.
pub const GPIO_BASE: u32 = 0x20200000;
/// Pin level registers.
pub const GPLEV0: u32 = 0x20200034;
pub const GPLEV1: u32 = 0x20200038;
/// Pin event detect status registers.
pub const GPEDS0: u32 = 0x20200040;
pub const GPEDS1: u32 = 0x20200044;
/// Pin falling edge detect enable registers.
pub const GPFEN0: u32 = 0x20200058;
pub const GPFEN1: u32 = 0x2020005C;

/// Word 8 of the block: writing a one sets the output.
pub const OUTPUT_SET: u32 = 0x20200020;
/// Word 11 of the block: writing a one clears the output.
pub const OUTPUT_CLEAR: u32 = 0x2020002C;

/// The pins this kernel uses.
#[derive(Clone, Copy, PartialEq, Eq, Structural, Debug)]
pub enum Pin {
    Tx,
    Rx,
    TwentyThree,
    TwentyFour,
}

/// Pin functions, as encoded in the function select registers.
#[derive(Clone, Copy, PartialEq, Eq, Structural, Debug)]
pub enum Mode {
    Input,
    Output,
    Alt5,
}

/// The number of a pin.
pub open spec fn pin_num(pin: Pin) -> u32 {
    match pin {
        Pin::Tx => 14,
        Pin::Rx => 15,
        Pin::TwentyThree => 23,
        Pin::TwentyFour => 24,
    }
}

/// The three-bit code of a mode.
pub open spec fn mode_code(mode: Mode) -> u32 {
    match mode {
        Mode::Input => 0b000,
        Mode::Output => 0b001,
        Mode::Alt5 => 0b010,
    }
}

/// The access that `set_mode` describes.
pub open spec fn set_mode_op(pin: Pin, mode: Mode) -> MmioOp {
    MmioOp::SetBits {
        addr: (GPIO_BASE + 4 * (pin_num(pin) / 10)) as u32,
        bits: mode_code(mode) << ((pin_num(pin) * 3) % 30),
    }
}

/// The accesses that `detect_falling_edge` describes.
pub open spec fn detect_falling_edge_ops(pin: Pin) -> Seq<MmioOp> {
    seq![
        MmioOp::Barrier,
        MmioOp::SetBits {
            addr: if pin_num(pin) <= 31 { GPFEN0 } else { GPFEN1 },
            bits: 1u32 << (pin_num(pin) % 32),
        },
        MmioOp::Barrier,
    ]
}

/// The number of a pin.
pub fn pin_number(pin: Pin) -> (n: u32)
    ensures
        n == pin_num(pin),
{
    match pin {
        Pin::Tx => 14,
        Pin::Rx => 15,
        Pin::TwentyThree => 23,
        Pin::TwentyFour => 24,
    }
}

/// The three-bit code of a mode.
pub fn mode_value(mode: Mode) -> (v: u32)
    ensures
        v == mode_code(mode),
{
    match mode {
        Mode::Input => 0b000,
        Mode::Output => 0b001,
        Mode::Alt5 => 0b010,
    }
}

/// Drives `pin` high (`value`) or low: a one at the pin's bit, written to
/// the set or the clear word.
pub fn write(pin: Pin, value: bool) -> (op: MmioOp)
    ensures
        op == (MmioOp::Store {
            addr: if value { OUTPUT_SET } else { OUTPUT_CLEAR },
            value: 1u32 << pin_num(pin),
        }),
{
    let pin_num = pin_number(pin);
    if value {
        MmioOp::Store { addr: OUTPUT_SET, value: 1u32 << pin_num }
    } else {
        MmioOp::Store { addr: OUTPUT_CLEAR, value: 1u32 << pin_num }
    }
}

/// The level register that holds the bit of `pin`.
pub fn level_register(pin: Pin) -> (reg: u32)
    ensures
        reg == if pin_num(pin) <= 31 { GPLEV0 } else { GPLEV1 },
{
    if pin_number(pin) <= 31 {
        GPLEV0
    } else {
        GPLEV1
    }
}

/// The level of `pin`, given the word read from its level register.
pub fn read(pin: Pin, level: u32) -> (high: bool)
    ensures
        high == ((level >> (pin_num(pin) % 32)) & 1 != 0),
{
    let pin_num = pin_number(pin);
    let val = level >> (pin_num % 32);
    return (val & 1) != 0;
}

/// The function select register of `pin`: one word per ten pins.
pub fn function_select_register(pin: Pin) -> (reg: u32)
    ensures
        reg == GPIO_BASE + 4 * (pin_num(pin) / 10),
{
    GPIO_BASE + 4 * (pin_number(pin) / 10)
}

/// Sets the function of `pin`: the mode code, shifted to the pin's field, is
/// or-ed into its function select register.
pub fn set_mode(pin: Pin, mode: Mode) -> (op: MmioOp)
    ensures
        op == set_mode_op(pin, mode),
{
    let pin_num = pin_number(pin);
    let mode_val = mode_value(mode);
    MmioOp::SetBits {
        addr: function_select_register(pin),
        bits: mode_val << ((pin_num * 3) % 30),
    }
}

/// Enables falling-edge detection on `pin`, between two barriers.
pub fn detect_falling_edge(pin: Pin) -> (ops: Vec<MmioOp>)
    ensures
        ops@ == detect_falling_edge_ops(pin),
{
    let reg = if pin_number(pin) <= 31 {
        GPFEN0
    } else {
        GPFEN1
    };
    let offset = pin_number(pin) % 32;
    let mut ops: Vec<MmioOp> = Vec::new();
    ops.push(MmioOp::Barrier);
    ops.push(MmioOp::SetBits { addr: reg, bits: 1u32 << offset });
    ops.push(MmioOp::Barrier);
    ops
}

/// The event detect status register that holds the bit of `pin`.
pub fn pin_to_event_register(pin: Pin) -> (reg: u32)
    ensures
        reg == if pin_num(pin) <= 31 { GPEDS0 } else { GPEDS1 },
{
    let pin_num = pin_number(pin);
    if pin_num <= 31 {
        return GPEDS0;
    } else {
        return GPEDS1;
    }
}

/// Given the word read from the event status register of `pin`, returns the
/// pin's event bit as it was and the store that clears it (writing a one
/// clears the bit).
pub fn check_and_clear_event(pin: Pin, status: u32) -> (res: (u32, MmioOp))
    ensures
        res.0 == status & (1u32 << (pin_num(pin) % 32)),
        res.1 == (MmioOp::Store {
            addr: if pin_num(pin) <= 31 { GPEDS0 } else { GPEDS1 },
            value: 1u32 << (pin_num(pin) % 32),
        }),
{
    let reg = pin_to_event_register(pin);
    let offset = pin_number(pin) % 32;
    let mask: u32 = 1u32 << offset;
    (status & mask, MmioOp::Store { addr: reg, value: mask })
}

/// The pins and modes by number, and the register map of the GPIO block:
/// the output set and clear words are words 8 and 11, the level, event
/// status and falling-edge words sit at offsets 0x34, 0x40 and 0x58, the
/// second word of each pair four bytes on.
pub proof fn lemma_numbering()
    ensures
        pin_num(Pin::Tx) == 14,
        pin_num(Pin::Rx) == 15,
        pin_num(Pin::TwentyThree) == 23,
        pin_num(Pin::TwentyFour) == 24,
        mode_code(Mode::Input) == 0,
        mode_code(Mode::Output) == 1,
        mode_code(Mode::Alt5) == 2,
        OUTPUT_SET == GPIO_BASE + 4 * 8,
        OUTPUT_CLEAR == GPIO_BASE + 4 * 11,
        GPLEV0 == GPIO_BASE + 0x34,
        GPLEV1 == GPLEV0 + 4,
        GPEDS0 == GPIO_BASE + 0x40,
        GPEDS1 == GPEDS0 + 4,
        GPFEN0 == GPIO_BASE + 0x58,
        GPFEN1 == GPFEN0 + 4,
{
}

/// The function select layout: ten pins per register word, three bits per
/// pin. The bits that `set_mode` or-s in lie within the three-bit field of
/// the pin, which starts at bit `3 * (pin % 10)` of the word.
pub proof fn lemma_set_mode_field(pin: Pin, mode: Mode)
    ensures
        (pin_num(pin) * 3) % 30 == 3 * (pin_num(pin) % 10),
        set_mode_op(pin, mode) matches MmioOp::SetBits { addr, bits } && bits & !(7u32 << (3 * (
            pin_num(pin) % 10)) as u32) == 0 && (bits >> (3 * (pin_num(pin) % 10)) as u32)
            == mode_code(mode),
{
    let m = mode_code(mode);
    let sh: u32 = (3 * (pin_num(pin) % 10)) as u32;
    assert(m <= 2 && sh <= 27);
    assert((m << sh) & !(7u32 << sh) == 0 && (m << sh) >> sh == m) by (bit_vector)
        requires
            m <= 2,
            sh <= 27,
    ;
}

/// The level bit that `read` extracts is the pin's bit of the word, and the
/// event that `check_and_clear_event` reports is nonzero exactly when that
/// bit is set.
pub proof fn lemma_pin_bit(pin: Pin, word: u32)
    ensures
        ((word >> (pin_num(pin) % 32)) & 1 != 0) == (word & (1u32 << (pin_num(pin) % 32)) != 0),
{
    let k = pin_num(pin) % 32;
    assert(k < 32);
    assert(((word >> k) & 1 != 0) == (word & (1u32 << k) != 0)) by (bit_vector)
        requires
            k < 32,
    ;
}

} // verus!
