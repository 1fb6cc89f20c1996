use tweek::gui_types::GuiType;
use tweek::input::FieldValue;
use tweek::text_view::Text;
use tweek::tools::{TextAlign, VertAlign};

#[test]
fn new_text_is_left_aligned_single_line() {
    let text = Text::new("Hello");
    assert_eq!(text.get_text(), "Hello");
    assert_eq!(text.text_align, TextAlign::Left);
    assert_eq!(text.vert_align, VertAlign::Middle);
    assert!(!text.multiline);
    assert!(!text.is_rendered);
}

#[test]
fn changing_the_text_drops_the_rendering() {
    let mut text = Text::new("Hello");
    text.is_rendered = true;
    text.set_text("Hello".to_string());
    assert!(text.is_rendered);
    text.set_text("World".to_string());
    assert!(!text.is_rendered);
    assert_eq!(text.get_text(), "World");
}

#[test]
fn field_value_for_this_text_replaces_it() {
    let mut text = Text::new("old");
    text.layer.set_id(4);
    assert!(text.set_field_value(&FieldValue::Text("new".to_string()), GuiType::Text, 4));
    assert_eq!(text.get_text(), "new");
}

#[test]
fn field_value_for_another_object_or_kind_is_refused() {
    let mut text = Text::new("old");
    text.layer.set_id(4);
    assert!(!text.set_field_value(&FieldValue::Text("new".to_string()), GuiType::Text, 5));
    assert!(!text.set_field_value(&FieldValue::Text("new".to_string()), GuiType::Label, 4));
    assert!(!text.set_field_value(&FieldValue::Checkbox(true), GuiType::Text, 4));
    assert_eq!(text.get_text(), "old");
}

#[test]
fn alignment_can_be_changed() {
    let mut text = Text::new("x");
    text.text_align(TextAlign::Center);
    assert_eq!(text.text_align, TextAlign::Center);
}
