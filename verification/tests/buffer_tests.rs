use suggestline::buffer::TextBuffer;

fn buffer_from(text: &str) -> TextBuffer {
    let mut t = TextBuffer::new();
    for c in text.chars() {
        t.insert(c);
    }
    t
}

fn contents(t: &TextBuffer) -> String {
    t.characters.iter().collect()
}

#[test]
fn insert_appends_and_moves_cursor() {
    let mut t = TextBuffer::new();
    t.insert('a');
    t.insert('b');
    assert_eq!(contents(&t), "ab");
    assert_eq!(t.cursor, 2);
    t.move_left();
    t.insert('x');
    assert_eq!(contents(&t), "axb");
    assert_eq!(t.cursor, 2);
}

#[test]
fn round_trip_insert_then_delete() {
    let mut t = TextBuffer::new();
    t.insert('a');
    t.insert('b');
    t.insert('c');
    t.delete_before_cursor();
    t.delete_before_cursor();
    t.delete_before_cursor();
    assert_eq!(contents(&t), "");
    assert_eq!(t.cursor, 0);
}

#[test]
fn delete_at_left_edge_is_noop() {
    let mut t = buffer_from("ab");
    t.move_home();
    t.delete_before_cursor();
    assert_eq!(contents(&t), "ab");
    assert_eq!(t.cursor, 0);
}

#[test]
fn move_home_twice_equals_once() {
    let mut a = buffer_from("hello");
    let mut b = buffer_from("hello");
    a.move_home();
    b.move_home();
    b.move_home();
    assert_eq!(contents(&a), contents(&b));
    assert_eq!(a.cursor, b.cursor);
    assert_eq!(a.cursor, 0);
}

#[test]
fn left_right_clamped_at_edges() {
    let mut t = buffer_from("ab");
    t.move_right();
    assert_eq!(t.cursor, 2);
    t.move_home();
    t.move_left();
    assert_eq!(t.cursor, 0);
    t.move_end();
    assert_eq!(t.cursor, 2);
}

#[test]
fn word_backward_two_phase() {
    let mut t = buffer_from("foo  bar");
    assert_eq!(t.cursor, 8);
    t.move_word_backward();
    assert_eq!(t.cursor, 5);
    t.move_word_backward();
    assert_eq!(t.cursor, 0);
}

#[test]
fn word_forward_two_phase() {
    let mut t = buffer_from("foo  bar");
    t.move_home();
    t.move_word_forward();
    assert_eq!(t.cursor, 3);
    t.move_word_forward();
    assert_eq!(t.cursor, 8);
}

#[test]
fn word_motion_on_empty_buffer() {
    let mut t = TextBuffer::new();
    t.move_word_backward();
    assert_eq!(t.cursor, 0);
    t.move_word_forward();
    assert_eq!(t.cursor, 0);
}

#[test]
fn cursor_always_in_bounds_over_a_long_sequence() {
    let mut t = TextBuffer::new();
    let check = |t: &TextBuffer| assert!(t.cursor <= t.characters.len());
    for c in "ls -la | grep foo".chars() {
        t.insert(c);
        check(&t);
    }
    t.move_word_backward();
    check(&t);
    t.delete_before_cursor();
    check(&t);
    t.move_home();
    check(&t);
    t.delete_before_cursor();
    check(&t);
    t.move_end();
    check(&t);
    t.move_right();
    check(&t);
    t.move_word_forward();
    check(&t);
    for _ in 0..40 {
        t.delete_before_cursor();
        check(&t);
    }
    assert_eq!(t.cursor, 0);
}
