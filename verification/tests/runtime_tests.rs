use rpi_kernel::mmio::MmioOp;
use rpi_kernel::reset::{reset, PM_RSTC, PM_WDOG};
use rpi_kernel::runtime::{echo_step, memcpy, memset, prologue, EchoAction, WordCopy};

#[test]
fn reset_writes_watchdog_then_reset_config() {
    assert_eq!(
        reset(),
        vec![
            MmioOp::Store { addr: PM_WDOG, value: 0x5a00_0001 },
            MmioOp::Store { addr: PM_RSTC, value: 0x5a00_0020 },
        ]
    );
}

#[test]
fn echo_loop_decisions() {
    assert_eq!(echo_step(b'`', 0), EchoAction::Reset);
    assert_eq!(echo_step(b'a', 16), EchoAction::Echo { c: b'a', x: 16, next_x: 24 });
}

#[test]
fn prologue_copies_each_started_word() {
    assert_eq!(prologue(0x8000, 0x8040).len(), 16);
    assert_eq!(
        prologue(0x8000, 0x8009),
        vec![
            WordCopy { from: 0x8000, to: 0 },
            WordCopy { from: 0x8004, to: 4 },
            WordCopy { from: 0x8008, to: 8 },
        ]
    );
    assert!(prologue(0x8000, 0x8000).is_empty());
    assert!(prologue(0x8040, 0x8000).is_empty());
    assert_eq!(prologue(-8, 0), vec![WordCopy { from: -8, to: 0 }, WordCopy { from: -4, to: 4 }]);
}

#[test]
fn memcpy_and_memset() {
    let mut d = [0u8; 5];
    memcpy(&mut d, &[9, 8, 7, 6], 3);
    assert_eq!(d, [9, 8, 7, 0, 0]);
    memset(&mut d, 0x1AB, 2);
    assert_eq!(d, [0xAB, 0xAB, 7, 0, 0]);
    memset(&mut d, -1, 0);
    assert_eq!(d, [0xAB, 0xAB, 7, 0, 0]);
}
