use tweek::input::{DisplayEvent, FieldValue, Key};
use tweek::text_area::{EditState, TextArea, TextAreaEditor};

fn editing_area(text: &str, cursor: usize) -> TextArea {
    let mut area = TextArea::new(true);
    area.set_text(text);
    area.start_editing(Some(cursor));
    area
}

#[test]
fn new_area_is_multiline_scrollable_and_idle() {
    let area = TextArea::new(true);
    assert!(area.editor.ctx.is_multiline());
    assert!(area.can_scroll);
    assert!(!area.is_editing);
    assert_eq!(area.get_text(), "");
}

#[test]
fn return_inserts_new_line_while_editing() {
    let mut area = editing_area("ab", 2);
    assert!(!area.handle_key_command(Key::Return));
    assert_eq!(area.get_text(), "ab\n");
    assert_eq!(area.editor.ctx.cursor_pos, 3);
}

#[test]
fn return_does_nothing_when_not_editing() {
    let mut area = TextArea::new(true);
    area.set_text("ab");
    assert!(!area.handle_key_command(Key::Return));
    assert_eq!(area.get_text(), "ab");
}

#[test]
fn tab_ends_editing_and_is_handled() {
    let mut area = editing_area("ab", 1);
    assert!(area.handle_key_command(Key::Tab));
    assert!(!area.is_editing);
}

#[test]
fn area_typing_and_backspace() {
    let mut area = editing_area("ab", 2);
    assert!(area.handle_key_press('c'));
    assert_eq!(area.get_text(), "abc");
    assert!(!area.handle_key_press('\t'));
    area.handle_key_command(Key::Back);
    assert_eq!(area.get_text(), "ab");
}

#[test]
fn read_only_area_ignores_clicks_and_typing() {
    let mut area = TextArea::new(false);
    area.set_text("text");
    assert!(!area.handle_mouse_down(true, Some(2)));
    assert!(!area.is_editing);
    assert!(!area.handle_key_press('x'));
    assert_eq!(area.get_text(), "text");
}

#[test]
fn click_inside_editable_area_starts_editing() {
    let mut area = TextArea::new(true);
    area.set_text("text");
    assert!(area.handle_mouse_down(true, Some(2)));
    assert!(area.is_editing);
    assert_eq!(area.editor.ctx.cursor_pos, 2);
    let mut other = TextArea::new(true);
    assert!(!other.handle_mouse_down(false, Some(2)));
}

#[test]
fn area_deactivate_ends_editing() {
    let mut area = editing_area("ab", 1);
    area.notify(DisplayEvent::Deactivate);
    assert!(!area.is_editing);
    assert_eq!(area.get_field_value(), FieldValue::Text("ab".to_string()));
}

#[test]
fn update_textarea_resets_cursor_past_metrics() {
    let mut editor = TextAreaEditor::default();
    editor.ctx.set_text("abc");
    editor.ctx.start_editing(Some(3));
    assert!(!editor.update_textarea(2));
    assert_eq!(editor.ctx.cursor_pos, 0);
    assert!(editor.ctx.has_changed);
    editor.ctx.start_editing(Some(2));
    assert!(editor.update_textarea(3));
    assert!(!editor.ctx.has_changed);
    assert_eq!(editor.ctx.cursor_pos, 2);
}

#[test]
fn edit_states_are_distinct() {
    assert_ne!(EditState::Idle, EditState::Typing);
    assert_ne!(EditState::Typing, EditState::Scrolling);
}

#[test]
fn editing_gives_the_area_layer_focus() {
    let mut area = TextArea::new(true);
    area.handle_mouse_down(true, Some(0));
    assert_eq!(area.layer.mouse_state, tweek::layer::MouseState::Focus);
}
