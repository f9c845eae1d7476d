//! Memory-mapped register accesses, described as values.
//!
//! The drivers compute which registers to touch and with which words; the
//! code that owns the hardware carries each operation out in order.
use vstd::prelude::*;

verus! {

/// One access to a device register.
#[derive(Clone, Copy, PartialEq, Eq, Structural, Debug)]
pub enum MmioOp {
    /// Write `value` to the 32-bit register at `addr`.
    Store { addr: u32, value: u32 },
    /// Read the register at `addr` and write back the word with `bits` set.
    SetBits { addr: u32, bits: u32 },
    /// A data synchronization barrier.
    Barrier,
}

/// The value that the last plain store to `addr` among `ops` writes, if any.
pub open spec fn last_store(ops: Seq<MmioOp>, addr: u32) -> Option<u32>
    decreases ops.len(),
{
    if ops.len() == 0 {
        None
    } else {
        match ops.last() {
            MmioOp::Store { addr: a, value } => if a == addr {
                Some(value)
            } else {
                last_store(ops.drop_last(), addr)
            },
            _ => last_store(ops.drop_last(), addr),
        }
    }
}

} // verus!
