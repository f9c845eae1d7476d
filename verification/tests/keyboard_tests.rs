use rpi_kernel::keyboard::{
    wait_for_next_scan, Keyboard, Keymap, Pending, SCAN_CAPSLOCK, SCAN_LSHIFT, SCAN_RELEASE, SCAN_SPECIAL,
};
use rpi_kernel::ringbuf::Buf;

fn keymap() -> Keymap {
    let mut plain = ['\0'; 256];
    let mut shifted = ['\0'; 256];
    plain[0x1C] = 'a';
    shifted[0x1C] = 'A';
    plain[0x16] = '1';
    shifted[0x16] = '!';
    Keymap { plain, shifted }
}

/// A buffer whose slots hold `codes` from `head` on, as the decoder of
/// `has_char` expects.
fn scans(codes: &[u8]) -> Buf<u8> {
    let mut b: Buf<u8> = Buf::new();
    for (i, &c) in codes.iter().enumerate() {
        b.elems[i] = Some(c);
    }
    b.tail = codes.len();
    b
}

#[test]
fn empty_buffer_has_no_char() {
    let km = keymap();
    let mut kb = Keyboard::new();
    let mut b = scans(&[]);
    assert_eq!(kb.has_char(&mut b, &km), Some(false));
}

#[test]
fn plain_key_is_translated() {
    let km = keymap();
    let mut kb = Keyboard::new();
    let mut b = scans(&[0x1C]);
    assert_eq!(kb.has_char(&mut b, &km), Some(true));
    assert_eq!(kb.last_char, Some('a'));
    assert_eq!(kb.read_char(), b'a');
    assert_eq!(kb.last_char, None);
    assert!(b.empty());
}

#[test]
fn shift_then_key_gives_shifted_char() {
    let km = keymap();
    let mut kb = Keyboard::new();
    let mut b = scans(&[SCAN_LSHIFT, 0x16]);
    assert_eq!(kb.has_char(&mut b, &km), Some(true));
    assert!(kb.shift);
    assert_eq!(kb.read_char(), b'!');
}

#[test]
fn shift_release_clears_shift() {
    let km = keymap();
    let mut kb = Keyboard::new();
    let mut b = scans(&[SCAN_LSHIFT, SCAN_RELEASE, SCAN_LSHIFT, 0x1C]);
    assert_eq!(kb.has_char(&mut b, &km), Some(true));
    assert!(!kb.shift);
    assert_eq!(kb.read_char(), b'a');
}

#[test]
fn capslock_and_shift_cancel() {
    let km = keymap();
    let mut kb = Keyboard::new();
    let mut b = scans(&[SCAN_CAPSLOCK, 0x1C]);
    assert_eq!(kb.has_char(&mut b, &km), Some(true));
    assert_eq!(kb.read_char(), b'A');
    let mut b = scans(&[SCAN_LSHIFT, 0x1C]);
    assert_eq!(kb.has_char(&mut b, &km), Some(true));
    assert!(kb.shift && kb.capslock);
    assert_eq!(kb.read_char(), b'a');
}

#[test]
fn release_of_a_key_is_dropped() {
    let km = keymap();
    let mut kb = Keyboard::new();
    let mut b = scans(&[SCAN_RELEASE, 0x1C]);
    assert_eq!(kb.has_char(&mut b, &km), Some(false));
    assert_eq!(kb.pending, Pending::Nothing);
    assert_eq!(kb.last_char, None);
}

#[test]
fn release_of_an_extended_key_drops_two_codes() {
    let km = keymap();
    let mut kb = Keyboard::new();
    let mut b = scans(&[SCAN_RELEASE, SCAN_SPECIAL, 0x6B, 0x1C]);
    assert_eq!(kb.has_char(&mut b, &km), Some(true));
    assert_eq!(kb.read_char(), b'a');
}

#[test]
fn extended_prefix_waits_for_its_code() {
    let km = keymap();
    let mut kb = Keyboard::new();
    let mut b = scans(&[SCAN_SPECIAL]);
    assert_eq!(kb.has_char(&mut b, &km), None);
    assert_eq!(kb.pending, Pending::Special);
    b.push(0x75);
    assert_eq!(kb.has_char(&mut b, &km), Some(false));
    assert_eq!(kb.pending, Pending::Nothing);
}

#[test]
fn pending_char_is_kept_while_codes_wait() {
    let km = keymap();
    let mut kb = Keyboard::new();
    let mut b = scans(&[0x1C, 0x16]);
    assert_eq!(kb.has_char(&mut b, &km), Some(true));
    assert_eq!(kb.has_char(&mut b, &km), Some(true));
    assert_eq!(kb.last_char, Some('a'));
}

#[test]
fn wait_for_next_scan_pops() {
    let mut b = scans(&[0x1C]);
    assert_eq!(wait_for_next_scan(&mut b), Some(0x1C));
    assert_eq!(wait_for_next_scan(&mut b), None);
}

#[test]
fn second_code_pushed_before_the_first_is_read() {
    // Both codes land in the slot under `head`; the one behind it stays empty.
    let km = keymap();
    let mut kb = Keyboard::new();
    let mut b: Buf<u8> = Buf::new();
    b.push(0x1C);
    b.push(0x16);
    assert_eq!(kb.has_char(&mut b, &km), Some(true));
    assert_eq!(kb.last_char, Some('1'));
    assert_eq!(b.head, 1);
    // A character is pending: answered without popping.
    assert_eq!(kb.has_char(&mut b, &km), Some(true));
    assert_eq!(b.head, 1);
}

#[test]
fn try_has_char_reports_a_failing_pop() {
    let km = keymap();
    let mut kb = Keyboard::new();
    let mut b: Buf<u8> = Buf::new();
    b.tail = 2;
    assert_eq!(kb.try_has_char(&mut b, &km), None);
    let mut kb = Keyboard::new();
    let mut b = scans(&[SCAN_LSHIFT]);
    b.tail = 3;
    assert_eq!(kb.try_has_char(&mut b, &km), None);
    let mut kb = Keyboard::new();
    let mut b = scans(&[0x1C]);
    b.tail = 3;
    assert_eq!(kb.try_has_char(&mut b, &km), Some(Some(true)));
}
