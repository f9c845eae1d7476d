use rpi_kernel::console::{Console, LineBuffer, ScreenOp};

#[test]
fn println_draws_and_ends_the_line() {
    let mut con = Console::new();
    let ops = con.println("hi");
    assert_eq!(
        ops,
        vec![ScreenOp::PutChar { c: b'h', x: 0, y: 0 }, ScreenOp::PutChar { c: b'i', x: 8, y: 0 }]
    );
    let ops = con.print("x");
    assert_eq!(ops, vec![ScreenOp::PutChar { c: b'x', x: 0, y: 8 }]);
}

#[test]
fn cursor_wraps_at_the_right_edge() {
    let mut con = Console::new();
    let ops = con.print("abcd");
    assert_eq!(
        ops,
        vec![
            ScreenOp::PutChar { c: b'a', x: 0, y: 0 },
            ScreenOp::PutChar { c: b'b', x: 8, y: 0 },
            ScreenOp::PutChar { c: b'c', x: 16, y: 0 },
            ScreenOp::PutChar { c: b'd', x: 0, y: 8 },
        ]
    );
}

#[test]
fn screen_clears_past_the_bottom() {
    let mut con = Console::new();
    let _ = con.print("\n\n\n");
    let ops = con.print("z");
    assert_eq!(ops, vec![ScreenOp::Clear, ScreenOp::PutChar { c: b'z', x: 0, y: 0 }]);
}

#[test]
fn unprintable_bytes_are_ignored() {
    let mut con = Console::new();
    let ops = con.print("\t\u{7f}");
    assert!(ops.is_empty());
    let ops = con.print("q");
    assert_eq!(ops, vec![ScreenOp::PutChar { c: b'q', x: 0, y: 0 }]);
}

#[test]
fn print_of_concatenation_is_print_then_print() {
    let mut a = Console::new();
    let mut ops = a.print("ab\nc");
    ops.extend(a.print("de"));
    let mut b = Console::new();
    assert_eq!(b.print("ab\ncde"), ops);
}

#[test]
fn readln_stores_keys_and_ends_on_line_feed() {
    let mut con = Console::new();
    let mut line = LineBuffer::new();
    let (ops, done) = con.readln(&mut line, b'r');
    assert_eq!(ops, vec![ScreenOp::PutChar { c: b'r', x: 0, y: 0 }]);
    assert!(!done);
    let (_, done) = con.readln(&mut line, b'e');
    assert!(!done);
    assert_eq!(&line.buf[..2], b"re");
    assert_eq!(line.pos, 2);
    let (ops, done) = con.readln(&mut line, b'\n');
    assert!(done);
    assert!(ops.is_empty());
    assert_eq!(line.pos, 2);
}

#[test]
fn readln_backspace_blanks_the_previous_cell() {
    let mut con = Console::new();
    let mut line = LineBuffer::new();
    let _ = con.readln(&mut line, b'a');
    let _ = con.readln(&mut line, b'b');
    let (ops, done) = con.readln(&mut line, 8);
    assert!(!done);
    assert_eq!(ops, vec![ScreenOp::PutChar { c: b' ', x: 8, y: 0 }]);
    assert_eq!(line.pos, 1);
    assert_eq!(&line.buf[..2], b"ab");
    // The cursor is back on the blanked cell.
    let (ops, _) = con.readln(&mut line, b'c');
    assert_eq!(ops, vec![ScreenOp::PutChar { c: b'c', x: 8, y: 0 }]);
    assert_eq!(&line.buf[..2], b"ac");
}

#[test]
fn readln_backspace_near_the_left_edge_restarts_the_line() {
    let mut con = Console::new();
    let mut line = LineBuffer::new();
    let _ = con.readln(&mut line, b'a');
    let _ = con.readln(&mut line, b'b');
    let _ = con.readln(&mut line, b'c');
    // The cursor has wrapped to the next row.
    let (ops, done) = con.readln(&mut line, 8);
    assert!(ops.is_empty() && !done);
    assert_eq!(line.pos, 0);
    let (ops, _) = con.readln(&mut line, b'x');
    assert_eq!(ops, vec![ScreenOp::PutChar { c: b'x', x: 0, y: 8 }]);
    assert_eq!(&line.buf[..3], b"xbc");
}

#[test]
fn eval_recognises_reset() {
    let con = Console::new();
    assert!(con.eval("reset"));
    assert!(con.eval("reset now\0\0"));
    assert!(!con.eval("rese"));
    assert!(!con.eval("Reset"));
    assert!(!con.eval(""));
}

#[test]
fn glyphs_start_on_the_screen() {
    let mut con = Console::new();
    let text = "The quick brown fox\njumps over\n\nthe lazy dog 0123456789 ~!@#";
    for _ in 0..3 {
        for op in con.println(text) {
            if let ScreenOp::PutChar { x, y, .. } = op {
                assert!(x < 20 && y < 20);
            }
        }
    }
    assert!(con.col() * 8 < 20);
}
