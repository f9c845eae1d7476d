use rpi_kernel::keyboard::ps2::{init, interrupt, wait_for_char, Ps2, INTERRUPT_DISABLE_1, INTERRUPT_DISABLE_2, INTERRUPT_ENABLE_2};
use rpi_kernel::mmio::MmioOp;
use rpi_kernel::ringbuf::Buf;

fn frame(b: u8, good_parity: bool, stop: bool) -> Vec<bool> {
    let mut bits = vec![false];
    for i in 0..8 {
        bits.push((b >> i) & 1 == 1);
    }
    let odd = b.count_ones() % 2 == 0;
    bits.push(if good_parity { odd } else { !odd });
    bits.push(stop);
    bits
}

fn feed(bits: &[bool], scan: &mut Ps2, buf: &mut Buf<u8>) {
    for &bit in bits {
        interrupt(scan, buf, bit);
    }
}

#[test]
fn frame_roundtrip_yields_the_byte() {
    for b in [0x00u8, 0x1C, 0xF0, 0xE0, 0x12, 0xFF, 0x5A] {
        let mut scan = Ps2::AwaitingStart;
        let mut buf: Buf<u8> = Buf::new();
        feed(&frame(b, true, true), &mut scan, &mut buf);
        assert_eq!(scan, Ps2::AwaitingStart);
        assert!(!buf.empty());
        assert_eq!(buf.pop(), b);
        assert!(buf.empty());
    }
}

#[test]
fn bad_parity_yields_nothing() {
    let mut scan = Ps2::AwaitingStart;
    let mut buf: Buf<u8> = Buf::new();
    feed(&frame(0x1C, false, true), &mut scan, &mut buf);
    assert_eq!(scan, Ps2::AwaitingStart);
    assert!(buf.empty());
}

#[test]
fn bad_parity_with_low_stop_bit_starts_a_frame() {
    let mut scan = Ps2::AwaitingStart;
    let mut buf: Buf<u8> = Buf::new();
    feed(&frame(0x1C, false, false), &mut scan, &mut buf);
    assert_eq!(scan, Ps2::Started);
    assert!(buf.empty());
}

#[test]
fn low_stop_bit_yields_nothing() {
    let mut scan = Ps2::AwaitingStart;
    let mut buf: Buf<u8> = Buf::new();
    feed(&frame(0x1C, true, false), &mut scan, &mut buf);
    assert_eq!(scan, Ps2::AwaitingStart);
    assert!(buf.empty());
}

#[test]
fn high_start_bit_keeps_waiting() {
    let mut scan = Ps2::AwaitingStart;
    let mut buf: Buf<u8> = Buf::new();
    interrupt(&mut scan, &mut buf, true);
    assert_eq!(scan, Ps2::AwaitingStart);
}

#[test]
fn data_bits_accumulate() {
    let mut scan = Ps2::Started;
    let mut buf: Buf<u8> = Buf::new();
    interrupt(&mut scan, &mut buf, true);
    assert_eq!(scan, Ps2::GotData { code: 1, pos: 1, parity: 1 });
    interrupt(&mut scan, &mut buf, true);
    assert_eq!(scan, Ps2::GotData { code: 3, pos: 2, parity: 2 });
    interrupt(&mut scan, &mut buf, false);
    assert_eq!(scan, Ps2::GotData { code: 3, pos: 3, parity: 2 });
}

#[test]
fn keyboard_init_ops() {
    let ops = init();
    assert_eq!(
        ops,
        vec![
            MmioOp::Store { addr: INTERRUPT_DISABLE_1, value: 0xFFFF_FFFF },
            MmioOp::Store { addr: INTERRUPT_DISABLE_2, value: 0xFFFF_FFFF },
            MmioOp::SetBits { addr: 0x20200008, bits: 0 },
            MmioOp::SetBits { addr: 0x20200008, bits: 0 },
            MmioOp::Barrier,
            MmioOp::SetBits { addr: 0x20200058, bits: 1 << 23 },
            MmioOp::Barrier,
            MmioOp::Store { addr: INTERRUPT_ENABLE_2, value: 1 << 20 },
        ]
    );
}

#[test]
fn wait_for_char_on_empty_and_filled_buffer() {
    let mut buf: Buf<u8> = Buf::new();
    assert_eq!(wait_for_char(&mut buf), None);
    buf.push(0x29);
    assert_eq!(wait_for_char(&mut buf), Some(0x29));
    assert!(buf.empty());
}
