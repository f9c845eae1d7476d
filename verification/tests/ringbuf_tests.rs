use rpi_kernel::ringbuf::{Buf, SIZE};

#[test]
fn new_buffer_is_empty_and_not_full() {
    let b: Buf<u8> = Buf::new();
    assert!(b.empty());
    assert!(!b.full());
    assert_eq!(b.head, 0);
    assert_eq!(b.tail, 0);
    assert!(b.elems.iter().all(|e| e.is_none()));
}

#[test]
fn pop_after_push_returns_pushed_element() {
    let mut b: Buf<u8> = Buf::new();
    b.push(0x1C);
    assert!(!b.empty());
    assert_eq!(b.pop(), 0x1C);
    assert!(b.empty());
    assert_eq!(b.head, 1);
    assert_eq!(b.tail, 1);
    assert_eq!(b.elems[0], None);
}

#[test]
fn push_stores_under_head_and_advances_tail() {
    let mut b: Buf<u8> = Buf::new();
    b.push(1);
    b.push(2);
    assert_eq!(b.tail, 2);
    assert_eq!(b.head, 0);
    assert_eq!(b.elems[0], Some(2));
    assert_eq!(b.elems[1], None);
    assert_eq!(b.pop(), 2);
    assert_eq!(b.head, 1);
    assert!(!b.empty());
}

#[test]
fn full_after_size_minus_one_pushes() {
    let mut b: Buf<u8> = Buf::new();
    for i in 0..(SIZE - 1) {
        assert!(!b.full());
        b.push(i as u8);
    }
    assert!(b.full());
    assert_eq!(b.tail, SIZE - 1);
}

#[test]
fn cursors_wrap_around() {
    let mut b: Buf<u8> = Buf::new();
    for i in 0..SIZE {
        b.push(i as u8);
        assert_eq!(b.pop(), i as u8);
    }
    assert_eq!(b.head, 0);
    assert_eq!(b.tail, 0);
    assert!(b.empty());
}
