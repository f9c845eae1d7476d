use rpi_kernel::mmio::MmioOp;
use rpi_kernel::uart::{getc, hasc, init, putc, tx_empty, write_str, Uart, AUX_ENABLES, AUX_MU_UART, LSR_REG};

#[test]
fn line_feed_goes_out_with_carriage_return() {
    assert_eq!(putc(b'\n'), vec![b'\r', b'\n']);
    assert_eq!(putc(b'x'), vec![b'x']);
    assert_eq!(putc(b'\r'), vec![b'\r']);
}

#[test]
fn write_str_sends_each_byte() {
    assert_eq!(write_str("a\nb"), vec![b'a', b'\r', b'\n', b'b']);
    assert_eq!(write_str(""), Vec::<u8>::new());
    let s = "one\ntwo\n";
    assert_eq!(write_str(s).len(), s.len() + 2);
}

#[test]
fn write_str_of_concatenation() {
    let mut whole = write_str("ab\n");
    whole.extend(write_str("\ncd"));
    assert_eq!(write_str("ab\n\ncd"), whole);
}

#[test]
fn receive_and_transmit_status() {
    assert!(hasc(1));
    assert!(!hasc(0x20));
    assert_eq!(getc(0x1241), 0x41);
    assert_eq!(getc(0xFF), 0xFF);
    assert!(tx_empty(0x20));
    assert!(!tx_empty(0x01));
}

#[test]
fn register_block_layout() {
    let regs = Uart { data: 0, ier: 0, iir: 0, lcr: 0, mcr: 0, lsr: 0, msr: 0, scratch: 0, cntl: 0, stat: 0, baud: 0 };
    assert_eq!(std::mem::size_of_val(&regs), 11 * 4);
    assert_eq!(LSR_REG, AUX_MU_UART + 5 * 4);
}

#[test]
fn init_sequence() {
    let ops = init();
    assert_eq!(ops.len(), 11);
    assert_eq!(ops[0], MmioOp::Store { addr: AUX_ENABLES, value: 1 });
    assert_eq!(ops[3], MmioOp::Store { addr: 0x2021504C, value: 3 });
    assert_eq!(ops[6], MmioOp::Store { addr: 0x20215048, value: 0xE });
    assert_eq!(ops[7], MmioOp::Store { addr: 0x20215068, value: 270 });
    assert_eq!(ops[8], MmioOp::SetBits { addr: 0x20200004, bits: 2 << 12 });
    assert_eq!(ops[9], MmioOp::SetBits { addr: 0x20200004, bits: 2 << 15 });
    assert_eq!(ops[10], MmioOp::Store { addr: 0x20215060, value: 3 });
}
