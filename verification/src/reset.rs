//! Resetting the board through the power manager's watchdog.
use vstd::prelude::*;
use crate::mmio::MmioOp;

verus! {

pub const PM_RSTC: u32 = 0x2010001c;
pub const PM_WDOG: u32 = 0x20100024;
pub const PM_PASSWORD: u32 = 0x5a000000;
pub const PM_RSTC_WRCFG_FULL_RESET: u32 = 0x00000020;

/// The watchdog set to fire after one tick, then a full reset configured;
/// both words carry the power manager's password.
pub open spec fn reset_ops() -> Seq<MmioOp> {
    seq![
        MmioOp::Store { addr: PM_WDOG, value: PM_PASSWORD | 1 },
        MmioOp::Store { addr: PM_RSTC, value: PM_PASSWORD | PM_RSTC_WRCFG_FULL_RESET },
    ]
}

/// Both words carry the password 0x5a in their top byte: the watchdog is
/// loaded with one tick, then the reset configuration asks for a full reset.
pub proof fn lemma_reset_values()
    ensures
        reset_ops() == seq![
            MmioOp::Store { addr: 0x20100024u32, value: 0x5a000001u32 },
            MmioOp::Store { addr: 0x2010001cu32, value: 0x5a000020u32 },
        ],
{
    assert(0x5a000000u32 | 1u32 == 0x5a000001u32 && 0x5a000000u32 | 0x20u32 == 0x5a000020u32)
        by (bit_vector);
}

/// The register accesses that reset the board (after a short delay, and
/// followed by waiting forever, both the caller's).
pub fn reset() -> (ops: Vec<MmioOp>)
    ensures
        ops@ == reset_ops(),
{
    let mut ops: Vec<MmioOp> = Vec::new();
    ops.push(MmioOp::Store { addr: PM_WDOG, value: PM_PASSWORD | 1 });
    ops.push(MmioOp::Store { addr: PM_RSTC, value: PM_PASSWORD | PM_RSTC_WRCFG_FULL_RESET });
    assert(ops@ =~= reset_ops());
    ops
}

} // verus!
