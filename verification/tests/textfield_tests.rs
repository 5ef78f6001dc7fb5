use gitcc::text_field::TextField;

fn chars(s: &str) -> Vec<char> {
    s.chars().collect()
}

fn text(v: &[char]) -> String {
    v.iter().collect()
}

#[test]
fn insert_then_delete_word_backward_clears_buffer() {
    let mut tf = TextField::empty();
    tf.insert('f');
    tf.insert('e');
    tf.insert('a');
    tf.insert('t');
    assert_eq!(text(&tf.buffer), "feat");
    assert_eq!(tf.cursor, 4);
    tf.delete_word_backward();
    assert_eq!(text(&tf.buffer), "");
    assert_eq!(tf.cursor, 0);
}

#[test]
fn cursor_stays_in_bounds_over_mixed_operations() {
    let mut tf = TextField::new(chars("hello world"));
    let checks = |tf: &TextField| assert!(tf.cursor <= tf.buffer.len());
    checks(&tf);
    tf.move_left();
    checks(&tf);
    tf.delete_backward();
    checks(&tf);
    tf.move_home();
    checks(&tf);
    tf.delete_backward();
    checks(&tf);
    tf.delete_forward();
    checks(&tf);
    tf.insert('x');
    checks(&tf);
    tf.move_end();
    checks(&tf);
    tf.move_right();
    checks(&tf);
    tf.delete_word_forward();
    checks(&tf);
    tf.delete_word_backward();
    checks(&tf);
}

#[test]
fn word_boundaries_at_edges() {
    let tf = TextField::new(chars("hello world"));
    assert_eq!(tf.prev_word_boundary(0), 0);
    assert_eq!(tf.next_word_boundary(tf.buffer.len()), tf.buffer.len());
}

#[test]
fn word_boundaries_in_the_middle() {
    let tf = TextField::new(chars("hello world"));
    assert_eq!(tf.prev_word_boundary(11), 6);
    assert_eq!(tf.prev_word_boundary(6), 0);
    assert_eq!(tf.next_word_boundary(0), 6);
    assert_eq!(tf.next_word_boundary(6), 11);
}

#[test]
fn prev_word_boundary_skips_trailing_spaces() {
    let tf = TextField::new(chars("ab   "));
    assert_eq!(tf.prev_word_boundary(5), 0);
}

#[test]
fn delete_word_forward_skips_spaces_then_removes_word() {
    let mut tf = TextField::new(chars("a  bb c"));
    tf.move_home();
    tf.move_right();
    assert_eq!(tf.cursor, 1);
    tf.delete_word_forward();
    assert_eq!(text(&tf.buffer), "a   c");
    assert_eq!(tf.cursor, 1);
}

#[test]
fn delete_backward_at_start_is_a_noop() {
    let mut tf = TextField::new(chars("abc"));
    tf.move_home();
    tf.delete_backward();
    assert_eq!(text(&tf.buffer), "abc");
    assert_eq!(tf.cursor, 0);
}

#[test]
fn delete_forward_at_end_is_a_noop() {
    let mut tf = TextField::new(chars("abc"));
    tf.delete_forward();
    assert_eq!(text(&tf.buffer), "abc");
    assert_eq!(tf.cursor, 3);
}

#[test]
fn insert_in_the_middle() {
    let mut tf = TextField::new(chars("ac"));
    tf.move_left();
    tf.insert('b');
    assert_eq!(text(&tf.buffer), "abc");
    assert_eq!(tf.cursor, 2);
}

#[test]
fn move_word_motions_land_on_boundaries() {
    let mut tf = TextField::new(chars("one two three"));
    tf.move_word_left();
    assert_eq!(tf.cursor, 8);
    tf.move_word_left();
    assert_eq!(tf.cursor, 4);
    tf.move_word_right();
    assert_eq!(tf.cursor, 8);
    tf.move_home();
    assert_eq!(tf.cursor, 0);
    tf.move_end();
    assert_eq!(tf.cursor, 13);
}
