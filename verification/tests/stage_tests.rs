use tweek::gui_types::GuiType;
use tweek::layer::{Layer, NodeID, NodePath};
use tweek::stage::StageContext;

fn path_to(ids: &[(u32, GuiType)]) -> NodePath {
    NodePath::new(ids.iter().map(|(id, t)| NodeID::new(*id, *t)).collect())
}

#[test]
fn new_stage_has_no_listeners() {
    let ctx: StageContext<u32> = StageContext::new();
    assert_eq!(ctx.listener_count(), 0);
    assert!(ctx.get_listener("click", 1).is_none());
}

#[test]
fn listener_is_found_under_subscriber_id() {
    let mut ctx: StageContext<&str> = StageContext::new();
    let subscriber = path_to(&[(1, GuiType::Scene), (7, GuiType::Button)]);
    ctx.add_event_listener("click".to_string(), "on_click", subscriber);
    let listener = ctx.get_listener("click", 7).expect("registered listener");
    assert_eq!(listener.callback, "on_click");
    assert_eq!(listener.id, 7);
    assert_eq!(listener.key, "click");
    assert_eq!(listener.subscriber.nodes, vec![NodeID::new(1, GuiType::Scene), NodeID::new(7, GuiType::Button)]);
    assert!(ctx.get_listener("click", 1).is_none());
    assert!(ctx.get_listener("hover", 7).is_none());
}

#[test]
fn registering_again_replaces_the_listener() {
    let mut ctx: StageContext<u32> = StageContext::new();
    ctx.add_event_listener("click".to_string(), 1, path_to(&[(7, GuiType::Button)]));
    ctx.add_event_listener("click".to_string(), 2, path_to(&[(3, GuiType::Scene), (7, GuiType::Button)]));
    assert_eq!(ctx.listener_count(), 1);
    assert_eq!(ctx.get_listener("click", 7).map(|l| l.callback), Some(2));
}

#[test]
fn listeners_for_other_keys_are_kept() {
    let mut ctx: StageContext<u32> = StageContext::new();
    ctx.add_event_listener("click".to_string(), 1, path_to(&[(7, GuiType::Button)]));
    ctx.add_event_listener("hover".to_string(), 2, path_to(&[(7, GuiType::Button)]));
    ctx.add_event_listener("click".to_string(), 3, path_to(&[(8, GuiType::Button)]));
    assert_eq!(ctx.listener_count(), 3);
    assert_eq!(ctx.get_listener("click", 7).map(|l| l.callback), Some(1));
    assert_eq!(ctx.get_listener("hover", 7).map(|l| l.callback), Some(2));
    assert_eq!(ctx.get_listener("click", 8).map(|l| l.callback), Some(3));
}

#[test]
fn layer_path_reaches_its_listener() {
    let mut layer = Layer::new();
    layer.type_id = GuiType::TextField;
    layer.set_id(12);
    let path = layer.set_path(&[NodeID::new(2, GuiType::Scene)]);
    let mut ctx: StageContext<u8> = StageContext::new();
    ctx.add_event_listener("changed".to_string(), 9, path);
    assert_eq!(ctx.get_listener("changed", layer.get_id()).map(|l| l.callback), Some(9));
}

#[test]
fn queued_listeners_are_registered_under_the_view_id() {
    let mut ctx: StageContext<u32> = StageContext::new();
    ctx.add_event_listener("click".to_string(), 1, path_to(&[(3, GuiType::Button)]));
    ctx.add_event_listener("hover".to_string(), 2, path_to(&[(9, GuiType::Label)]));
    let subscriber = path_to(&[(1, GuiType::Scene), (9, GuiType::Label)]);
    ctx.register_listeners(vec![("click".to_string(), 10), ("hover".to_string(), 20)], &subscriber);
    assert_eq!(ctx.get_listener("click", 9).map(|l| l.callback), Some(10));
    assert_eq!(ctx.get_listener("hover", 9).map(|l| l.callback), Some(20));
    assert_eq!(ctx.get_listener("click", 3).map(|l| l.callback), Some(1));
    assert_eq!(ctx.listener_count(), 3);
    assert_eq!(ctx.get_listener("hover", 9).map(|l| l.subscriber.nodes.len()), Some(2));
}
