use tweek::editor::InsertMode;
use tweek::input::{DisplayEvent, FieldValue, Key};
use tweek::tools::TextAlign;
use tweek::text_field::{
    mask_text, CursorPlacement, FieldLayout, TextField, TextFieldEditor, TextFieldType, MASK_TEXT_ASTERISK,
    MASK_TEXT_DOT,
};

fn editing_field(text: &str, cursor: usize) -> TextField {
    let mut field = TextField::new(true);
    field.set_text(text);
    field.start_editing(Some(cursor));
    field
}

#[test]
fn new_field_is_empty_and_in_view_mode() {
    let field = TextField::new(false);
    assert_eq!(field.get_text(), "");
    assert!(!field.is_editing);
    assert!(!field.can_edit);
    assert_eq!(field.field_type, TextFieldType::Normal);
    assert!(field.placeholder.is_none());
}

#[test]
fn typing_inserts_printable_ascii() {
    let mut field = editing_field("ab", 2);
    assert!(field.handle_key_press('c'));
    assert_eq!(field.get_text(), "abc");
    assert_eq!(field.editor.ctx.cursor_pos, 3);
}

#[test]
fn typing_ignores_control_and_non_ascii_chars() {
    let mut field = editing_field("ab", 2);
    assert!(!field.handle_key_press('\n'));
    assert!(!field.handle_key_press('é'));
    assert_eq!(field.get_text(), "ab");
}

#[test]
fn read_only_field_ignores_typing() {
    let mut field = TextField::new(false);
    field.set_text("ab");
    field.start_editing(Some(2));
    assert!(!field.handle_key_press('c'));
    assert_eq!(field.get_text(), "ab");
}

#[test]
fn backspace_and_arrows_edit_the_text() {
    let mut field = editing_field("abc", 3);
    assert!(!field.handle_key_command(Key::Back));
    assert_eq!(field.get_text(), "ab");
    assert!(!field.handle_key_command(Key::Left));
    assert_eq!(field.editor.ctx.cursor_pos, 1);
    assert!(!field.handle_key_command(Key::Right));
    assert_eq!(field.editor.ctx.cursor_pos, 2);
}

#[test]
fn tab_and_return_end_editing_and_are_handled() {
    let mut field = editing_field("abc", 1);
    assert!(field.handle_key_command(Key::Tab));
    assert!(!field.is_editing);
    let mut field = editing_field("abc", 1);
    assert!(field.handle_key_command(Key::Return));
    assert!(!field.is_editing);
    assert_eq!(field.get_text(), "abc");
}

#[test]
fn escape_is_not_handled() {
    let mut field = editing_field("abc", 1);
    assert!(!field.handle_key_command(Key::Escape));
    assert!(field.is_editing);
    assert_eq!(field.get_text(), "abc");
}

#[test]
fn typing_then_backspace_restores_field_text() {
    let mut field = editing_field("abc", 3);
    field.handle_key_press('d');
    field.handle_key_command(Key::Back);
    assert_eq!(field.get_text(), "abc");
    assert_eq!(field.editor.ctx.cursor_pos, 3);
}

#[test]
fn click_inside_normal_field_puts_cursor_at_clicked_position() {
    let mut field = TextField::new(true);
    field.set_text("hello");
    assert!(field.handle_mouse_down(true, Some(2)));
    assert!(field.is_editing);
    assert_eq!(field.editor.ctx.cursor_pos, 2);
}

#[test]
fn click_inside_secure_field_puts_cursor_at_end() {
    let mut field = TextField::new(true).with_type(TextFieldType::Secure(MASK_TEXT_DOT));
    field.set_text("secret");
    assert!(field.handle_mouse_down(true, Some(1)));
    assert_eq!(field.editor.ctx.cursor_pos, 6);
}

#[test]
fn click_outside_changes_nothing() {
    let mut field = TextField::new(true);
    field.set_text("hello");
    assert!(!field.handle_mouse_down(false, Some(2)));
    assert!(!field.is_editing);
}

#[test]
fn deactivate_ends_editing() {
    let mut field = editing_field("abc", 1);
    field.notify(DisplayEvent::Activate);
    assert!(field.is_editing);
    field.notify(DisplayEvent::Deactivate);
    assert!(!field.is_editing);
}

#[test]
fn field_value_is_the_text() {
    let mut field = TextField::new(true);
    field.set_text("value");
    assert_eq!(field.get_field_value(), FieldValue::Text("value".to_string()));
}

#[test]
fn placeholder_is_stored() {
    let mut field = TextField::new(true);
    field.set_placeholder("Name");
    assert_eq!(field.placeholder, Some("Name".to_string()));
}

#[test]
fn mask_repeats_the_mask_char() {
    assert_eq!(mask_text(MASK_TEXT_ASTERISK, 4), "****");
    assert_eq!(mask_text(MASK_TEXT_DOT, 0), "");
    assert_eq!(mask_text(MASK_TEXT_DOT, 2), "••");
}

#[test]
fn secure_field_displays_masked_text() {
    let field = TextField::new(true).with_type(TextFieldType::Secure(MASK_TEXT_ASTERISK));
    assert_eq!(field.display_text("abc"), "***");
    let plain = TextField::new(true);
    assert_eq!(plain.display_text("abc"), "abc");
}

fn editor_with(text: &str, cursor: usize) -> TextFieldEditor {
    let mut editor = TextFieldEditor::default();
    editor.ctx.set_text(text);
    editor.ctx.start_editing(Some(cursor));
    editor
}

#[test]
fn update_skips_when_nothing_changed() {
    let mut editor = editor_with("abc", 1);
    editor.ctx.has_changed = false;
    let layout = FieldLayout { fits: true, first_overflow: None, last_visible_from_end: None };
    assert_eq!(editor.update_textfield(3, layout), CursorPlacement::Unchanged);
}

#[test]
fn update_resets_cursor_past_the_metrics() {
    let mut editor = editor_with("abc", 3);
    let layout = FieldLayout { fits: true, first_overflow: None, last_visible_from_end: None };
    assert_eq!(editor.update_textfield(2, layout), CursorPlacement::Reset);
    assert_eq!(editor.ctx.cursor_pos, 0);
    assert!(!editor.ctx.has_changed);
}

#[test]
fn update_fitting_text_shows_all_of_it() {
    let mut editor = editor_with("abc", 3);
    let layout = FieldLayout { fits: true, first_overflow: None, last_visible_from_end: None };
    assert_eq!(editor.update_textfield(3, layout), CursorPlacement::AfterText);
    assert_eq!(editor.ctx.visible_range, 0..3);
    assert_eq!(editor.ctx.insert_mode, InsertMode::End(false));

    let mut editor = editor_with("abc", 1);
    assert_eq!(editor.update_textfield(3, layout), CursorPlacement::AtChar(1));
    assert_eq!(editor.ctx.insert_mode, InsertMode::Intra(false));
}

#[test]
fn update_overflowing_text_at_start_shows_the_head() {
    let mut editor = editor_with("abcdefgh", 0);
    let layout = FieldLayout { fits: false, first_overflow: Some(5), last_visible_from_end: Some(3) };
    assert_eq!(editor.update_textfield(8, layout), CursorPlacement::Start);
    assert_eq!(editor.ctx.visible_range, 0..5);
    assert_eq!(editor.ctx.insert_mode, InsertMode::Start(true));
    assert_eq!(editor.get_visible_text(), Some("abcde".to_string()));
}

#[test]
fn update_overflowing_text_while_editing_shows_the_tail() {
    let mut editor = editor_with("abcdefgh", 8);
    let layout = FieldLayout { fits: false, first_overflow: Some(5), last_visible_from_end: Some(3) };
    assert_eq!(editor.update_textfield(8, layout), CursorPlacement::RightEdge(4));
    assert_eq!(editor.ctx.visible_range, 4..8);
    assert_eq!(editor.ctx.insert_mode, InsertMode::End(true));
    assert_eq!(editor.get_visible_text(), Some("efgh".to_string()));

    let mut editor = editor_with("abcdefgh", 6);
    assert_eq!(editor.update_textfield(8, layout), CursorPlacement::ShiftedChar(4, 6));
    assert_eq!(editor.ctx.insert_mode, InsertMode::Intra(true));
}

#[test]
fn display_shows_masked_visible_text() {
    let mut field = TextField::new(true).with_type(TextFieldType::Secure(MASK_TEXT_ASTERISK));
    field.set_text("secret");
    field.editor.ctx.visible_range = 0..6;
    let shown = field.display();
    assert_eq!(shown.text, Some("******".to_string()));
    assert!(!shown.is_placeholder);
    assert!(!shown.show_cursor);
}

#[test]
fn display_of_empty_field_shows_placeholder_only_in_view_mode() {
    let mut field = TextField::new(true);
    field.set_placeholder("Name");
    let shown = field.display();
    assert_eq!(shown.text, Some("Name".to_string()));
    assert!(shown.is_placeholder);
    field.start_editing(None);
    let shown = field.display();
    assert_eq!(shown.text, None);
    assert!(!shown.is_placeholder);
    assert!(shown.show_cursor);
}

#[test]
fn display_while_editing_follows_insert_mode() {
    let mut field = editing_field("abcdefgh", 8);
    let layout = FieldLayout { fits: false, first_overflow: Some(5), last_visible_from_end: Some(3) };
    field.editor.update_textfield(8, layout);
    let shown = field.display();
    assert_eq!(shown.text, Some("efgh".to_string()));
    assert_eq!(shown.align, TextAlign::Right);
    assert!(shown.clipped);
    assert!(shown.show_cursor);

    let mut field = editing_field("abcdefgh", 0);
    field.editor.update_textfield(8, layout);
    let shown = field.display();
    assert_eq!(shown.text, Some("abcde".to_string()));
    assert_eq!(shown.align, TextAlign::Left);
    assert!(shown.clipped);

    let mut field = editing_field("abc", 3);
    let fits = FieldLayout { fits: true, first_overflow: None, last_visible_from_end: None };
    field.editor.update_textfield(3, fits);
    let shown = field.display();
    assert_eq!(shown.align, TextAlign::Left);
    assert!(!shown.clipped);
}

#[test]
fn editing_gives_the_field_layer_focus() {
    let mut field = TextField::new(true);
    assert_eq!(field.layer.mouse_state, tweek::layer::MouseState::Idle);
    field.handle_mouse_down(true, None);
    assert_eq!(field.layer.mouse_state, tweek::layer::MouseState::Focus);
}
