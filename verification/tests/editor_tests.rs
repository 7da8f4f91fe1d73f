use workspace_opener::editor::TextBuffer;

#[test]
fn typing_replaces_selection() {
    // Select three characters, then type one: the selection is replaced by
    // that character and the cursor lands immediately after it.
    let mut buf = TextBuffer::from_text("abcdef");
    buf.select_left_input();
    buf.select_left_input();
    buf.select_left_input();
    assert_eq!(buf.selection_bounds(), Some((3, 5)));
    buf.insert_char('x');
    assert_eq!(buf.text(), "abcx");
    assert_eq!(buf.cursor_idx(), 4);
    assert_eq!(buf.selection_bounds(), None);
}

#[test]
fn insert_at_cursor_without_selection() {
    let mut buf = TextBuffer::from_text("hello");
    buf.move_cursor_left();
    buf.move_cursor_left();
    buf.insert_char('X');
    assert_eq!(buf.text(), "helXlo");
    assert_eq!(buf.cursor_idx(), 4);
}

#[test]
fn backspace_removes_before_cursor() {
    let mut buf = TextBuffer::from_text("abc");
    buf.delete_characters();
    assert_eq!(buf.text(), "ab");
    assert_eq!(buf.cursor_idx(), 2);
    buf.move_cursor_left();
    buf.delete_characters();
    assert_eq!(buf.text(), "b");
    assert_eq!(buf.cursor_idx(), 0);
    buf.delete_characters();
    assert_eq!(buf.text(), "b");
    assert_eq!(buf.cursor_idx(), 0);
}

#[test]
fn delete_selection_moves_cursor_to_start() {
    let mut buf = TextBuffer::from_text("abcdef");
    buf.move_cursor_left();
    buf.select_left_input();
    buf.select_left_input();
    assert_eq!(buf.selection_bounds(), Some((3, 4)));
    buf.delete_characters();
    assert_eq!(buf.text(), "abcf");
    assert_eq!(buf.cursor_idx(), 3);
}

#[test]
fn selection_shrinks_symmetrically() {
    let mut buf = TextBuffer::from_text("abcd");
    buf.select_left_input();
    buf.select_left_input();
    assert_eq!(buf.selection_bounds(), Some((2, 3)));
    buf.select_right_input();
    assert_eq!(buf.selection_bounds(), Some((3, 3)));
    buf.select_right_input();
    assert_eq!(buf.selection_bounds(), None);
    assert_eq!(buf.cursor_idx(), 4);
}

#[test]
fn cursor_clamps_at_ends() {
    let mut buf = TextBuffer::from_text("ab");
    buf.move_cursor_right();
    assert_eq!(buf.cursor_idx(), 2);
    buf.move_cursor_left();
    buf.move_cursor_left();
    buf.move_cursor_left();
    assert_eq!(buf.cursor_idx(), 0);
}

#[test]
fn word_movement_left() {
    let mut buf = TextBuffer::from_text("foo bar  baz");
    buf.move_cursor_left_word();
    assert_eq!(buf.cursor_idx(), 9);
    buf.move_cursor_left_word();
    assert_eq!(buf.cursor_idx(), 4);
    buf.move_cursor_left_word();
    assert_eq!(buf.cursor_idx(), 0);
    buf.move_cursor_left_word();
    assert_eq!(buf.cursor_idx(), 0);
}

#[test]
fn word_movement_right() {
    let mut buf = TextBuffer::from_text("foo bar  baz");
    let mut i = 0;
    while i < 12 {
        buf.move_cursor_left();
        i += 1;
    }
    buf.move_cursor_right_word();
    assert_eq!(buf.cursor_idx(), 4);
    buf.move_cursor_right_word();
    assert_eq!(buf.cursor_idx(), 9);
    buf.move_cursor_right_word();
    assert_eq!(buf.cursor_idx(), 12);
    buf.move_cursor_right_word();
    assert_eq!(buf.cursor_idx(), 12);
}

#[test]
fn copy_selection_spans_min_to_max() {
    let mut buf = TextBuffer::from_text("hello world");
    buf.move_cursor_left_word();
    assert_eq!(buf.cursor_idx(), 6);
    buf.select_right_input();
    buf.select_right_input();
    buf.select_right_input();
    assert_eq!(buf.copy_selection(), Some("wor".to_string()));
    let empty = TextBuffer::from_text("hello");
    assert_eq!(empty.copy_selection(), None);
}

#[test]
fn paste_inserts_at_cursor_keeping_selection() {
    let mut buf = TextBuffer::from_text("one two");
    buf.move_cursor_left_word();
    buf.paste("2 ");
    assert_eq!(buf.text(), "one 2 two");
    assert_eq!(buf.cursor_idx(), 6);
}
