use tweek::editor::{EditorContext, InsertMode};

fn editor_with(text: &str) -> EditorContext {
    let mut ctx = EditorContext::default();
    ctx.set_text(text);
    ctx
}

#[test]
fn default_editor_is_empty_single_line() {
    let ctx = EditorContext::default();
    assert_eq!(ctx.get_text(), "");
    assert!(!ctx.is_multiline());
    assert_eq!(ctx.cursor_pos, 0);
    assert!(ctx.has_changed);
    assert_eq!(ctx.insert_mode, InsertMode::Start(false));
}

#[test]
fn builders_set_text_and_lines() {
    let ctx = EditorContext::default().multiline(true).with_text("abc".to_string());
    assert!(ctx.is_multiline());
    assert_eq!(ctx.get_text(), "abc");
    assert_eq!(ctx.text_len(), 3);
}

#[test]
fn insert_at_end_appends_and_moves_cursor() {
    let mut ctx = editor_with("ab");
    ctx.start_editing(Some(2));
    ctx.insert_char('c');
    assert_eq!(ctx.get_text(), "abc");
    assert_eq!(ctx.cursor_pos, 3);
}

#[test]
fn insert_inside_goes_before_cursor_char() {
    let mut ctx = editor_with("ac");
    ctx.start_editing(Some(1));
    ctx.insert_char('b');
    assert_eq!(ctx.get_text(), "abc");
    assert_eq!(ctx.cursor_pos, 2);
}

#[test]
fn insert_with_cursor_past_end_does_nothing() {
    let mut ctx = editor_with("ab");
    ctx.start_editing(Some(5));
    ctx.insert_char('c');
    assert_eq!(ctx.get_text(), "ab");
    assert_eq!(ctx.cursor_pos, 5);
}

#[test]
fn delete_at_end_removes_last_char() {
    let mut ctx = editor_with("abc");
    ctx.start_editing(Some(3));
    ctx.delete_char();
    assert_eq!(ctx.get_text(), "ab");
    assert_eq!(ctx.cursor_pos, 2);
}

#[test]
fn delete_inside_removes_char_left_of_cursor() {
    let mut ctx = editor_with("abc");
    ctx.start_editing(Some(1));
    ctx.delete_char();
    assert_eq!(ctx.get_text(), "bc");
    assert_eq!(ctx.cursor_pos, 0);
    let mut ctx = editor_with("abcd");
    ctx.start_editing(Some(2));
    ctx.delete_char();
    assert_eq!(ctx.get_text(), "acd");
    assert_eq!(ctx.cursor_pos, 1);
}

#[test]
fn type_then_backspace_inside_restores_text() {
    let mut ctx = editor_with("ab");
    ctx.start_editing(Some(0));
    ctx.insert_char('x');
    assert_eq!(ctx.get_text(), "xab");
    ctx.delete_char();
    assert_eq!(ctx.get_text(), "ab");
    assert_eq!(ctx.cursor_pos, 0);
}

#[test]
fn cursor_moves_n_places_within_the_text() {
    let mut ctx = editor_with("abcdef");
    ctx.start_editing(Some(1));
    ctx.move_cursor(3);
    assert_eq!(ctx.cursor_pos, 4);
    ctx.move_cursor(10);
    assert_eq!(ctx.cursor_pos, 6);
    ctx.move_cursor(-2);
    assert_eq!(ctx.cursor_pos, 4);
    ctx.move_cursor(0);
    assert_eq!(ctx.cursor_pos, 4);
    ctx.move_cursor(i32::MIN);
    assert_eq!(ctx.cursor_pos, 0);
}

#[test]
fn delete_at_start_or_on_empty_text_does_nothing() {
    let mut ctx = editor_with("abc");
    ctx.start_editing(None);
    ctx.delete_char();
    assert_eq!(ctx.get_text(), "abc");
    assert_eq!(ctx.cursor_pos, 0);
    let mut empty = editor_with("");
    empty.delete_char();
    assert_eq!(empty.get_text(), "");
}

#[test]
fn type_then_backspace_at_end_restores_text() {
    let mut ctx = editor_with("hello");
    ctx.start_editing(Some(5));
    ctx.insert_char('!');
    ctx.delete_char();
    assert_eq!(ctx.get_text(), "hello");
    assert_eq!(ctx.cursor_pos, 5);
}

#[test]
fn cursor_moves_stop_at_the_ends() {
    let mut ctx = editor_with("ab");
    ctx.start_editing(Some(0));
    ctx.move_cursor(-1);
    assert_eq!(ctx.cursor_pos, 0);
    ctx.move_cursor(1);
    ctx.move_cursor(1);
    assert_eq!(ctx.cursor_pos, 2);
    ctx.move_cursor(1);
    assert_eq!(ctx.cursor_pos, 2);
    ctx.move_cursor(-1);
    assert_eq!(ctx.cursor_pos, 1);
}

#[test]
fn right_then_left_returns_to_start_position() {
    let mut ctx = editor_with("abcd");
    ctx.start_editing(Some(2));
    ctx.move_cursor(1);
    ctx.move_cursor(-1);
    assert_eq!(ctx.cursor_pos, 2);
}

#[test]
fn visible_text_is_the_visible_range() {
    let mut ctx = editor_with("hello world");
    ctx.visible_range = 6..11;
    assert_eq!(ctx.get_visible_text(), Some("world".to_string()));
}

#[test]
fn stop_editing_clears_change_flag() {
    let mut ctx = editor_with("x");
    ctx.start_editing(Some(1));
    assert!(ctx.has_changed);
    ctx.stop_editing();
    assert!(!ctx.has_changed);
    assert_eq!(ctx.cursor_pos, 1);
}
