use tweek::command::{Command, CommandAction, CommandEvent, CommandHandler, EventBox, NavEvent};
use tweek::gui_types::GuiType;
use tweek::tools::{GPUTexture, GPUTool, RectSide, TextAlign, UITools, VertAlign};
use tweek::views::{ButtonGroup, ImageScaleMode, ToolbarLayout};

#[test]
fn no_view_kind_scrolls_yet() {
    assert!(UITools::scrollable_types().is_empty());
    assert!(!UITools::is_scrollable(&GuiType::ListBox));
    assert!(!UITools::is_scrollable(&GuiType::TextArea));
}

#[test]
fn gpu_texture_keeps_its_fields() {
    let tex = GPUTexture::new(3, 640, 480);
    assert_eq!((tex.idx, tex.width, tex.height), (3, 640, 480));
    let _tool = GPUTool::new();
}

#[test]
fn command_builders_set_their_parts() {
    let cmd: Command<&str, u8, u32, String> = Command::new("button");
    assert_eq!(cmd.target_id, 0);
    assert_eq!(cmd.target_type, GuiType::Scene);
    assert!(cmd.action.is_none());
    assert!(matches!(cmd.event, EventBox::Nav(NavEvent::Home)));
    assert_eq!(cmd.transition, String::new());

    let cmd = cmd.target(5, GuiType::Label).event(77).animate("fade".to_string());
    assert_eq!(cmd.target_id, 5);
    assert_eq!(cmd.target_type, GuiType::Label);
    assert!(matches!(cmd.event, EventBox::Custom(77)));
    assert!(matches!(cmd.action, Some(CommandHandler::Dispatch(77))));
    assert_eq!(cmd.transition, "fade".to_string());
    assert_eq!(cmd.source, "button");

    let cmd = cmd.callback(9);
    assert!(matches!(cmd.action, Some(CommandHandler::Callback(9))));
    assert!(matches!(cmd.event, EventBox::Custom(77)));
}

#[test]
fn small_enums_compare() {
    assert_ne!(CommandEvent::Click, CommandEvent::Hover);
    assert_ne!(CommandAction::Nothing, CommandAction::Show);
    assert_ne!(RectSide::Left, RectSide::All);
    assert_ne!(TextAlign::Left, TextAlign::Right);
    assert_ne!(VertAlign::Top, VertAlign::Bottom);
    assert_ne!(ImageScaleMode::AspectFit, ImageScaleMode::AspectFill);
    assert_ne!(ToolbarLayout::FixedWidth, ToolbarLayout::AlignCenter);
    let group = ButtonGroup { multiselect: false, range: 0..3 };
    assert_eq!(group.range.len(), 3);
}
