use tweek::gui_types::GuiType;
use tweek::layer::{HoverAction, Layer, LayerState, MouseState, NodeID, NodePath};

#[test]
fn new_layer_is_idle_and_unaddressed() {
    let layer = Layer::new();
    assert_eq!(layer.get_id(), 0);
    assert_eq!(layer.mouse_state, MouseState::Idle);
    assert_eq!(layer.layer_state, LayerState::Normal);
    assert!(layer.node_path.nodes.is_empty());
}

#[test]
fn set_path_appends_own_node() {
    let mut layer = Layer::new();
    layer.type_id = GuiType::Button;
    layer.set_id(7);
    let parent = vec![NodeID::new(1, GuiType::Scene)];
    let path = layer.set_path(parent.as_slice());
    assert_eq!(path.nodes, vec![NodeID::new(1, GuiType::Scene), NodeID::new(7, GuiType::Button)]);
    assert_eq!(path.last_node(), NodeID::new(7, GuiType::Button));
    assert_eq!(layer.node_path.nodes, path.nodes);
}

#[test]
fn is_me_matches_type_and_id() {
    let mut layer = Layer::new();
    layer.type_id = GuiType::Label;
    layer.set_id(3);
    assert!(layer.is_me(GuiType::Label, 3));
    assert!(!layer.is_me(GuiType::Label, 4));
    assert!(!layer.is_me(GuiType::Button, 3));
    assert_eq!(layer.node_id(), NodeID::new(3, GuiType::Label));
}

#[test]
fn enter_then_leave_with_hover_effect() {
    let mut layer = Layer::new();
    assert_eq!(layer.handle_mouse_over(true, true), (true, HoverAction::StartHover));
    assert_eq!(layer.mouse_state, MouseState::Hover);
    assert_eq!(layer.handle_mouse_over(true, true), (true, HoverAction::Nothing));
    assert_eq!(layer.handle_mouse_over(false, true), (false, HoverAction::RestoreDefaults));
    assert_eq!(layer.mouse_state, MouseState::Idle);
}

#[test]
fn leaving_without_hover_effect_keeps_hover_state() {
    let mut layer = Layer::new();
    assert_eq!(layer.handle_mouse_over(true, false), (true, HoverAction::Nothing));
    assert_eq!(layer.mouse_state, MouseState::Hover);
    assert_eq!(layer.handle_mouse_over(false, false), (false, HoverAction::Nothing));
    assert_eq!(layer.mouse_state, MouseState::Hover);
}

#[test]
fn focused_layer_keeps_focus_on_mouse_moves() {
    let mut layer = Layer::new();
    layer.mouse_state = MouseState::Focus;
    assert_eq!(layer.handle_mouse_over(true, true), (true, HoverAction::Nothing));
    assert_eq!(layer.handle_mouse_over(false, true), (false, HoverAction::Nothing));
    assert_eq!(layer.mouse_state, MouseState::Focus);
}

#[test]
fn transitioning_while_animating_or_hovered() {
    let mut layer = Layer::new();
    assert!(!layer.is_transitioning(false));
    assert!(layer.is_transitioning(true));
    layer.mouse_state = MouseState::Hover;
    assert!(layer.is_transitioning(false));
}

#[test]
fn move_complete_sets_completed_state() {
    let mut layer = Layer::new();
    layer.on_move_complete();
    assert_eq!(layer.layer_state, LayerState::Completed);
}

#[test]
fn style_rules_follow_kind_and_lock() {
    let mut layer = Layer::new();
    layer.type_id = GuiType::TextField;
    let rules = layer.style_rules();
    assert!(rules.applies && rules.input_style && !rules.button_style);
    layer.type_id = GuiType::Button;
    let rules = layer.style_rules();
    assert!(rules.applies && !rules.input_style && rules.button_style);
    layer.lock_style = true;
    let rules = layer.style_rules();
    assert!(!rules.applies && !rules.input_style && !rules.button_style);
}

#[test]
fn observers_are_queued_and_debug_enabled() {
    let mut layer = Layer::new();
    layer.add_observer("theme");
    assert_eq!(layer.queued_observers, vec!["theme".to_string()]);
    layer.enable_debug();
    assert!(layer.debug);
}

#[test]
fn node_path_helpers() {
    let path = NodePath::new(vec![NodeID::new(2, GuiType::Stage), NodeID::new(5, GuiType::Scene)]);
    assert_eq!(path.duplicate().nodes, path.nodes);
    assert_eq!(path.last_node().id, 5);
    assert!(NodePath::empty().nodes.is_empty());
}
