use rpi_kernel::gpio::{
    check_and_clear_event, detect_falling_edge, function_select_register, level_register, pin_number,
    pin_to_event_register, read, set_mode, Mode, Pin, GPEDS0, GPFEN0, GPLEV0,
};
use rpi_kernel::gpio;
use rpi_kernel::mmio::MmioOp;

#[test]
fn pin_numbers() {
    assert_eq!(pin_number(Pin::Tx), 14);
    assert_eq!(pin_number(Pin::Rx), 15);
    assert_eq!(pin_number(Pin::TwentyThree), 23);
    assert_eq!(pin_number(Pin::TwentyFour), 24);
}

#[test]
fn write_high_and_low() {
    assert_eq!(gpio::write(Pin::Rx, true), MmioOp::Store { addr: 0x20200020, value: 1 << 15 });
    assert_eq!(gpio::write(Pin::Rx, false), MmioOp::Store { addr: 0x2020002C, value: 1 << 15 });
}

#[test]
fn read_takes_the_pin_bit() {
    assert_eq!(level_register(Pin::TwentyFour), GPLEV0);
    assert!(read(Pin::TwentyFour, 1 << 24));
    assert!(!read(Pin::TwentyFour, !(1u32 << 24)));
    assert!(read(Pin::Tx, 0xFFFF_FFFF));
    assert!(!read(Pin::Tx, 0));
}

#[test]
fn set_mode_targets_the_pin_field() {
    assert_eq!(function_select_register(Pin::Tx), 0x20200004);
    assert_eq!(set_mode(Pin::Tx, Mode::Alt5), MmioOp::SetBits { addr: 0x20200004, bits: 0b010 << 12 });
    assert_eq!(set_mode(Pin::Rx, Mode::Alt5), MmioOp::SetBits { addr: 0x20200004, bits: 0b010 << 15 });
    assert_eq!(set_mode(Pin::TwentyThree, Mode::Output), MmioOp::SetBits { addr: 0x20200008, bits: 1 << 9 });
    assert_eq!(set_mode(Pin::TwentyFour, Mode::Input), MmioOp::SetBits { addr: 0x20200008, bits: 0 });
}

#[test]
fn falling_edge_between_barriers() {
    let ops = detect_falling_edge(Pin::TwentyThree);
    assert_eq!(
        ops,
        vec![MmioOp::Barrier, MmioOp::SetBits { addr: GPFEN0, bits: 1 << 23 }, MmioOp::Barrier]
    );
}

#[test]
fn event_is_reported_and_cleared() {
    assert_eq!(pin_to_event_register(Pin::TwentyThree), GPEDS0);
    let (ev, op) = check_and_clear_event(Pin::TwentyThree, 0xFFFF_FFFF);
    assert_eq!(ev, 1 << 23);
    assert_eq!(op, MmioOp::Store { addr: GPEDS0, value: 1 << 23 });
    let (ev, _) = check_and_clear_event(Pin::TwentyThree, !(1u32 << 23));
    assert_eq!(ev, 0);
}
