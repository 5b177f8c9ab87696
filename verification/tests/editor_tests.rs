use gitsy::editor::InputBuffer;

fn in_bounds(b: &InputBuffer) -> bool {
    b.cursor <= b.text.len()
}

#[test]
fn typing_builds_text_at_cursor() {
    let mut b = InputBuffer::new();
    b.insert('a');
    b.insert('c');
    b.move_left();
    b.insert('b');
    assert_eq!(b.text_string(), "abc");
    assert_eq!(b.cursor, 2);
}

#[test]
fn backspace_removes_before_cursor_and_is_noop_at_start() {
    let mut b = InputBuffer::new();
    b.backspace();
    assert_eq!(b.text_string(), "");
    assert_eq!(b.cursor, 0);
    b.insert('x');
    b.insert('y');
    b.backspace();
    assert_eq!(b.text_string(), "x");
    assert_eq!(b.cursor, 1);
    b.move_home();
    b.backspace();
    assert_eq!(b.text_string(), "x");
    assert_eq!(b.cursor, 0);
}

#[test]
fn delete_forward_removes_at_cursor_and_is_noop_at_end() {
    let mut b = InputBuffer::new();
    b.insert('x');
    b.insert('y');
    b.delete_forward();
    assert_eq!(b.text_string(), "xy");
    b.move_home();
    b.delete_forward();
    assert_eq!(b.text_string(), "y");
    assert_eq!(b.cursor, 0);
}

#[test]
fn moves_clamp_to_bounds() {
    let mut b = InputBuffer::new();
    b.move_left();
    assert_eq!(b.cursor, 0);
    b.move_right();
    assert_eq!(b.cursor, 0);
    b.insert('a');
    b.insert('b');
    b.move_end();
    assert_eq!(b.cursor, 2);
    b.move_right();
    assert_eq!(b.cursor, 2);
    b.move_home();
    assert_eq!(b.cursor, 0);
    b.move_left();
    assert_eq!(b.cursor, 0);
}

#[test]
fn cursor_stays_in_bounds_through_arbitrary_sequences() {
    let mut b = InputBuffer::new();
    assert!(in_bounds(&b));
    b.insert('g');
    assert!(in_bounds(&b));
    b.move_home();
    assert!(in_bounds(&b));
    b.delete_forward();
    assert!(in_bounds(&b));
    b.backspace();
    assert!(in_bounds(&b));
    b.insert('i');
    assert!(in_bounds(&b));
    b.insert('t');
    assert!(in_bounds(&b));
    b.move_left();
    assert!(in_bounds(&b));
    b.move_left();
    assert!(in_bounds(&b));
    b.move_left();
    assert!(in_bounds(&b));
    b.move_end();
    assert!(in_bounds(&b));
    b.backspace();
    assert!(in_bounds(&b));
    b.delete_forward();
    assert!(in_bounds(&b));
    assert_eq!(b.text_string(), "i");
}

#[test]
fn clear_empties_buffer_and_resets_cursor() {
    let mut b = InputBuffer::new();
    b.insert('a');
    b.insert('b');
    b.clear();
    assert!(b.is_empty());
    assert_eq!(b.len(), 0);
    assert_eq!(b.cursor, 0);
}
