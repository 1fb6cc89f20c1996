use tweek::input::Key;
use tweek::gui_types::GuiType;
use tweek::layer::NodeID;
use tweek::scene::{FocusChange, IdCounter, Loadable, Scene};
use tweek::stage::StageContext;

/// A scene whose controls got the ids `first`, `first + 1`, ... when loaded
fn scene_with(first: u32, count: u32) -> Scene<u8> {
    let mut scene = Scene::new();
    for _ in 0..count {
        scene.add_control(Loadable::new(GuiType::TextField));
    }
    let mut ctx: StageContext<u8> = StageContext::new();
    let mut ids = IdCounter::new(first);
    scene.view_will_load(&mut ctx, &mut ids);
    scene
}

fn focus(scene: &mut Scene<u8>, id: u32) {
    assert!(scene.handle_mouse_down(Some(id)));
    scene.update_focus();
}

#[test]
fn new_scene_is_untitled_and_interactive() {
    let scene: Scene<u8> = Scene::new();
    assert_eq!(scene.get_name(), "untitled");
    assert!(scene.is_interactive());
    assert_eq!(scene.active_field_id(), None);
    assert!(scene.control_ids().is_empty());
}

#[test]
fn with_id_names_the_scene() {
    let scene: Scene<u8> = Scene::new().with_id(4, "Home");
    assert_eq!(scene.get_id(), 4);
    assert_eq!(scene.get_name(), "Home");
}

#[test]
fn loading_gives_fresh_ids_in_order() {
    let mut scene: Scene<u8> = Scene::new().with_id(1, "Main");
    scene.add_view(Loadable::new(GuiType::Label));
    scene.add_control(Loadable::new(GuiType::TextField));
    scene.add_control(Loadable::new(GuiType::Button));
    scene.add_view(Loadable::new(GuiType::Image));
    let mut ctx: StageContext<u8> = StageContext::new();
    let mut ids = IdCounter::new(10);
    let (views, controls) = scene.view_will_load(&mut ctx, &mut ids);
    assert_eq!(views.iter().map(|p| p.last_node().id).collect::<Vec<u32>>(), vec![10, 11]);
    assert_eq!(controls.iter().map(|p| p.last_node().id).collect::<Vec<u32>>(), vec![12, 13]);
    assert_eq!(views[0].nodes, vec![NodeID::new(1, GuiType::Scene), NodeID::new(10, GuiType::Label)]);
    assert_eq!(controls[1].nodes, vec![NodeID::new(1, GuiType::Scene), NodeID::new(13, GuiType::Button)]);
    assert_eq!(ids.next_id, 14);
    assert_eq!(scene.control_ids(), vec![12, 13]);
    assert!(scene.has_control(13));
    assert!(!scene.has_control(10));
    // loading again only loads what was queued since
    scene.add_control(Loadable::new(GuiType::Checkbox));
    let (views, controls) = scene.view_will_load(&mut ctx, &mut ids);
    assert!(views.is_empty());
    assert_eq!(controls[0].nodes, vec![NodeID::new(1, GuiType::Scene), NodeID::new(14, GuiType::Checkbox)]);
    assert_eq!(scene.control_ids(), vec![12, 13, 14]);
}

#[test]
fn loading_registers_listeners_under_the_new_ids() {
    let mut scene: Scene<u8> = Scene::new().with_id(1, "Main");
    let mut button = Loadable::new(GuiType::Button);
    button.listeners.push(("click".to_string(), 7));
    button.listeners.push(("hover".to_string(), 8));
    scene.add_control(button);
    let mut label = Loadable::new(GuiType::Label);
    label.listeners.push(("click".to_string(), 9));
    scene.add_view(label);
    let mut ctx: StageContext<u8> = StageContext::new();
    let mut ids = IdCounter::new(100);
    scene.view_will_load(&mut ctx, &mut ids);
    let on_label = ctx.get_listener("click", 100).expect("label listener");
    assert_eq!(on_label.callback, 9);
    assert_eq!(on_label.subscriber.nodes, vec![NodeID::new(1, GuiType::Scene), NodeID::new(100, GuiType::Label)]);
    assert_eq!(ctx.get_listener("click", 101).map(|l| l.callback), Some(7));
    assert_eq!(ctx.get_listener("hover", 101).map(|l| l.callback), Some(8));
    assert_eq!(ctx.listener_count(), 3);
}

#[test]
fn click_then_update_moves_focus() {
    let mut scene = scene_with(1, 3);
    assert!(scene.handle_mouse_down(Some(2)));
    assert_eq!(scene.next_field_id(), Some(2));
    let change = scene.update_focus();
    assert_eq!(change, FocusChange { deactivate: None, activate: Some(2) });
    assert_eq!(scene.active_field_id(), Some(2));
    assert_eq!(scene.next_field_id(), None);

    scene.handle_mouse_down(Some(3));
    let change = scene.update_focus();
    assert_eq!(change, FocusChange { deactivate: Some(2), activate: Some(3) });
    assert_eq!(scene.active_field_id(), Some(3));
}

#[test]
fn click_outside_controls_keeps_focus() {
    let mut scene = scene_with(1, 2);
    focus(&mut scene, 1);
    assert!(!scene.handle_mouse_down(None));
    assert_eq!(scene.update_focus(), FocusChange { deactivate: None, activate: None });
    assert_eq!(scene.active_field_id(), Some(1));
}

#[test]
fn key_press_goes_to_active_control() {
    let mut scene = scene_with(5, 2);
    assert_eq!(scene.handle_key_press(), None);
    focus(&mut scene, 6);
    assert_eq!(scene.handle_key_press(), Some(6));
}

#[test]
fn tab_moves_focus_to_next_control_and_wraps() {
    let mut scene = scene_with(1, 3);
    focus(&mut scene, 2);
    assert!(scene.handle_key_command(Key::Tab, true));
    assert_eq!(scene.next_field_id(), Some(3));
    scene.update_focus();
    assert!(scene.handle_key_command(Key::Tab, true));
    assert_eq!(scene.next_field_id(), Some(1));
}

#[test]
fn tabbing_through_all_controls_returns_to_start() {
    let mut scene = scene_with(4, 4);
    focus(&mut scene, 5);
    let mut visited = Vec::new();
    for _ in 0..4 {
        assert!(scene.handle_key_command(Key::Tab, true));
        scene.update_focus();
        visited.push(scene.active_field_id().unwrap());
    }
    assert_eq!(visited, vec![6, 7, 4, 5]);
    assert_eq!(scene.active_field_id(), Some(5));
}

#[test]
fn unhandled_key_leaves_focus() {
    let mut scene = scene_with(1, 2);
    focus(&mut scene, 1);
    assert!(!scene.handle_key_command(Key::Tab, false));
    assert_eq!(scene.next_field_id(), None);
    assert!(scene.handle_key_command(Key::Return, true));
    assert_eq!(scene.next_field_id(), None);
}

#[test]
fn no_active_control_means_keys_unhandled() {
    let mut scene = scene_with(1, 2);
    assert!(!scene.handle_key_command(Key::Tab, true));
}

#[test]
fn scene_interactivity_can_be_switched() {
    let mut scene: Scene<u8> = Scene::new();
    scene.set_interactive(false);
    assert!(!scene.is_interactive());
    scene.set_interactive(true);
    assert!(scene.is_interactive());
}

#[test]
fn responders_are_not_added_as_views() {
    let mut scene: Scene<u8> = Scene::new().with_id(1, "Main");
    scene.add_view(Loadable::new(GuiType::Button));
    scene.add_view(Loadable::new(GuiType::TextField));
    scene.add_view(Loadable::new(GuiType::Image));
    let mut ctx: StageContext<u8> = StageContext::new();
    let mut ids = IdCounter::new(20);
    let (views, controls) = scene.view_will_load(&mut ctx, &mut ids);
    assert_eq!(views.len(), 1);
    assert_eq!(views[0].last_node(), NodeID::new(20, GuiType::Image));
    assert!(controls.is_empty());
    assert_eq!(ids.next_id, 21);
}
