//! The addressing and interaction state that every GUI object carries in its layer:
//! its id, its kind, its path in the view hierarchy, and its mouse and movement states.
use vstd::prelude::*;
use crate::gui_types::{GuiType, is_input_type};

verus! {

/// Identifies one object in the view hierarchy by its layer id and its kind.
#[derive(Clone, Copy, Debug, PartialEq, Eq, Structural)]
pub struct NodeID {
    /// The layer id
    pub id: u32,
    /// The kind of object
    pub type_id: GuiType,
}

impl NodeID {
    /// Constructor
    pub fn new(id: u32, type_id: GuiType) -> (res: Self)
        ensures
            res.id == id,
            res.type_id == type_id,
    {
        NodeID { id, type_id }
    }
}

/// The path of an object from the top of the view hierarchy down to the object itself.
pub struct NodePath {
    /// The nodes of the path, from the top down
    pub nodes: Vec<NodeID>,
}

impl NodePath {
    /// Constructor
    pub fn new(nodes: Vec<NodeID>) -> (res: Self)
        ensures
            res.nodes@ == nodes@,
    {
        NodePath { nodes }
    }

    /// The empty path
    pub fn empty() -> (res: Self)
        ensures
            res.nodes@.len() == 0,
    {
        NodePath { nodes: Vec::new() }
    }

    /// The last node of the path: the object that the path leads to
    pub fn last_node(&self) -> (res: NodeID)
        requires
            self.nodes@.len() > 0,
        ensures
            res == self.nodes@.last(),
    {
        self.nodes[self.nodes.len() - 1]
    }

    /// A copy of the path
    pub fn duplicate(&self) -> (res: Self)
        ensures
            res.nodes@ == self.nodes@,
    {
        NodePath { nodes: self.nodes.clone() }
    }
}

/// This enum describes 3 simple states, mainly for handling moving objects
#[derive(Copy, Clone, Debug, PartialEq, Eq, Structural)]
pub enum LayerState {
    /// The idle state when the object is not being animated or moved
    Normal,
    /// Actively moving. This is defined by the AppState.offset value
    Moving,
    /// Movement has completed but still needs to be verified. When verified, it will go back
    /// to the Normal state
    Completed,
}

/// Enum to define the mouse state for each object. Primarily used for Hover states
#[derive(Copy, Clone, Debug, PartialEq, Eq, Structural)]
pub enum MouseState {
    /// Mouse is not interacting with the object
    Idle,
    /// Mouse is dragging the object
    Drag,
    /// Mouse has selected the field and it has the focus. Used by TextArea and TextField
    Focus,
    /// Mouse is hovering the field
    Hover,
    /// Indicates that a row or object is selected
    Select,
}

/// What a layer asks its owner to show after the mouse moved.
#[derive(Copy, Clone, Debug, PartialEq, Eq, Structural)]
pub enum HoverAction {
    /// Nothing to show
    Nothing,
    /// The mouse entered: play (or apply) the hover effect
    StartHover,
    /// The mouse left: put the default props back
    RestoreDefaults,
}

/// Which of the theme's style rules apply to a layer.
#[derive(Copy, Clone, Debug, PartialEq, Eq, Structural)]
pub struct StyleRules {
    /// False when the layer's style is locked and nothing is applied
    pub applies: bool,
    /// The rules for input fields (border, input background, default hover effect)
    pub input_style: bool,
    /// The rules for buttons (button colors, default hover and click effects)
    pub button_style: bool,
}

/// The path that a layer with the given id and kind gets under the given parent path.
pub open spec fn child_path(parent: Seq<NodeID>, id: u32, type_id: GuiType) -> Seq<NodeID> {
    parent.push(NodeID { id, type_id })
}

/// The mouse state and hover action after the mouse moved, given whether the point is
/// inside the layer's frame and whether the layer has a hover effect. Entering from the
/// idle state starts hovering; leaving a hovered layer only ends the hover when the layer
/// has a hover effect to undo. The boolean is whether the point is inside.
pub open spec fn mouse_over(
    state: MouseState,
    inside: bool,
    has_hover_effect: bool,
) -> (MouseState, HoverAction, bool) {
    if inside {
        if state == MouseState::Idle {
            (MouseState::Hover, if has_hover_effect { HoverAction::StartHover } else { HoverAction::Nothing }, true)
        } else {
            (state, HoverAction::Nothing, true)
        }
    } else {
        if state == MouseState::Hover && has_hover_effect {
            (MouseState::Idle, HoverAction::RestoreDefaults, false)
        } else {
            (state, HoverAction::Nothing, false)
        }
    }
}

/// The addressing and interaction state of a GUI object.
pub struct Layer {
    /// Number assigned during loading to provide object addressing scheme
    pub id: u32,
    /// Identifies the object type this layer belongs to.
    pub type_id: GuiType,
    /// Arbitrary number a user can assign for handling event notifications
    pub tag: Option<u32>,
    /// The path hierarchy as an array
    pub node_path: NodePath,
    /// Current MouseState of the layer
    pub mouse_state: MouseState,
    /// Identifies the current animation state of the layer.
    pub layer_state: LayerState,
    /// Temporary storage for observers to be aggregated into the application state
    pub queued_observers: Vec<String>,
    /// Should the layer move/resize with the parent scene?
    pub lock_frame: bool,
    /// Is the style locked against themes?
    pub lock_style: bool,
    /// Should extra debug output be enabled?
    pub debug: bool,
}

impl Layer {
    /// Constructor
    pub fn new() -> (res: Self)
        ensures
            res.id == 0,
            res.type_id == GuiType::Other,
            res.tag is None,
            res.node_path.nodes@.len() == 0,
            res.mouse_state == MouseState::Idle,
            res.layer_state == LayerState::Normal,
            res.queued_observers@.len() == 0,
            !res.lock_frame,
            !res.lock_style,
            !res.debug,
    {
        Layer {
            id: 0,
            type_id: GuiType::Other,
            tag: None,
            node_path: NodePath::empty(),
            mouse_state: MouseState::Idle,
            layer_state: LayerState::Normal,
            queued_observers: Vec::new(),
            lock_frame: false,
            lock_style: false,
            debug: false,
        }
    }

    /// Setter for id
    pub fn set_id(&mut self, id: u32)
        ensures
            final(self).id == id,
            final(self).type_id == old(self).type_id,
            final(self).tag == old(self).tag,
            final(self).node_path.nodes@ == old(self).node_path.nodes@,
            final(self).mouse_state == old(self).mouse_state,
            final(self).layer_state == old(self).layer_state,
            final(self).queued_observers@ == old(self).queued_observers@,
            final(self).lock_frame == old(self).lock_frame,
            final(self).lock_style == old(self).lock_style,
            final(self).debug == old(self).debug,
    {
        self.id = id;
    }

    /// Getter for id
    pub fn get_id(&self) -> (res: u32)
        ensures
            res == self.id,
    {
        self.id
    }

    /// Enables additional logging for this object.
    pub fn enable_debug(&mut self)
        ensures
            final(self).debug,
            final(self).id == old(self).id,
            final(self).type_id == old(self).type_id,
            final(self).node_path.nodes@ == old(self).node_path.nodes@,
            final(self).mouse_state == old(self).mouse_state,
            final(self).layer_state == old(self).layer_state,
    {
        self.debug = true;
    }

    /// A setter to set the parent path and append this layer to the path
    pub fn set_path(&mut self, path: &[NodeID]) -> (res: NodePath)
        ensures
            final(self).node_path.nodes@ == child_path(path@, old(self).id, old(self).type_id),
            res.nodes@ == final(self).node_path.nodes@,
            final(self).id == old(self).id,
            final(self).type_id == old(self).type_id,
            final(self).tag == old(self).tag,
            final(self).mouse_state == old(self).mouse_state,
            final(self).layer_state == old(self).layer_state,
            final(self).queued_observers@ == old(self).queued_observers@,
            final(self).lock_frame == old(self).lock_frame,
            final(self).lock_style == old(self).lock_style,
            final(self).debug == old(self).debug,
    {
        let mut nodes: Vec<NodeID> = Vec::new();
        let mut i: usize = 0;
        while i < path.len()
            invariant
                i <= path@.len(),
                nodes@ == path@.subrange(0, i as int),
            decreases path@.len() - i,
        {
            nodes.push(path[i]);
            assert(path@.subrange(0, i + 1) =~= path@.subrange(0, i as int).push(path@[i as int]));
            i = i + 1;
        }
        assert(path@.subrange(0, path@.len() as int) =~= path@);
        nodes.push(NodeID::new(self.id, self.type_id));
        self.node_path = NodePath::new(nodes);
        self.node_path.duplicate()
    }

    /// Temporary storage of a notification that this object is waiting for.
    pub fn add_observer(&mut self, name: &str)
        ensures
            final(self).queued_observers@.len() == old(self).queued_observers@.len() + 1,
            final(self).queued_observers@.last()@ == name@,
            forall|i: int|
                0 <= i < old(self).queued_observers@.len() ==> final(self).queued_observers@[i]
                    == old(self).queued_observers@[i],
            final(self).id == old(self).id,
            final(self).type_id == old(self).type_id,
            final(self).node_path.nodes@ == old(self).node_path.nodes@,
            final(self).mouse_state == old(self).mouse_state,
            final(self).layer_state == old(self).layer_state,
    {
        self.queued_observers.push(name.to_owned());
    }

    /// The node that identifies this layer
    pub fn node_id(&self) -> (res: NodeID)
        ensures
            res == (NodeID { id: self.id, type_id: self.type_id }),
    {
        NodeID::new(self.id, self.type_id)
    }

    /// Convenience method to identify if the type and id match this Layer
    pub fn is_me(&self, type_id: GuiType, id: u32) -> (res: bool)
        ensures
            res == (self.type_id == type_id && self.id == id),
    {
        self.type_id == type_id && self.id == id
    }

    /// Called after a move has finished
    pub fn on_move_complete(&mut self)
        ensures
            final(self).layer_state == LayerState::Completed,
            final(self).id == old(self).id,
            final(self).type_id == old(self).type_id,
            final(self).node_path.nodes@ == old(self).node_path.nodes@,
            final(self).mouse_state == old(self).mouse_state,
    {
        self.layer_state = LayerState::Completed;
    }

    /// Whether the layer is showing a transition: it is while its animation runs or while
    /// the mouse hovers over it.
    pub fn is_transitioning(&self, is_animating: bool) -> (res: bool)
        ensures
            res == (is_animating || self.mouse_state == MouseState::Hover),
    {
        if is_animating {
            true
        } else {
            match self.mouse_state {
                MouseState::Hover => true,
                _ => false,
            }
        }
    }

    /// Standard method called by components when the mouse moves: `inside` tells whether the
    /// mouse point is inside the layer's frame. Returns whether it is, and what to show.
    pub fn handle_mouse_over(&mut self, inside: bool, has_hover_effect: bool) -> (res: (bool, HoverAction))
        ensures
            (final(self).mouse_state, res.1, res.0) == mouse_over(
                old(self).mouse_state,
                inside,
                has_hover_effect,
            ),
            final(self).id == old(self).id,
            final(self).type_id == old(self).type_id,
            final(self).node_path.nodes@ == old(self).node_path.nodes@,
            final(self).layer_state == old(self).layer_state,
    {
        if inside {
            match self.mouse_state {
                MouseState::Idle => {
                    // change state to hover and start animations
                    self.mouse_state = MouseState::Hover;
                    if has_hover_effect {
                        return (true, HoverAction::StartHover);
                    }
                },
                _ => {},
            }
            (true, HoverAction::Nothing)
        } else {
            match self.mouse_state {
                MouseState::Hover => {
                    if has_hover_effect {
                        self.mouse_state = MouseState::Idle;
                        return (false, HoverAction::RestoreDefaults);
                    }
                },
                _ => {},
            }
            (false, HoverAction::Nothing)
        }
    }

    /// Which theme rules apply to this layer: none when its style is locked; the input
    /// rules for input field kinds; the button rules for buttons.
    pub fn style_rules(&self) -> (res: StyleRules)
        ensures
            res.applies == !self.lock_style,
            res.input_style == (!self.lock_style && is_input_type(self.type_id)),
            res.button_style == (!self.lock_style && self.type_id == GuiType::Button),
    {
        if self.lock_style {
            return StyleRules { applies: false, input_style: false, button_style: false };
        }
        let input_style = crate::gui_types::is_input(&self.type_id);
        let button_style = self.type_id == GuiType::Button;
        StyleRules { applies: true, input_style, button_style }
    }
}

/// Whatever the mouse does, a layer only ever moves between the idle and the hover state
/// through mouse movement: a layer that is neither idle nor hovered keeps its state, and the
/// reported hit is exactly whether the point is inside.
pub proof fn lemma_mouse_over_states(state: MouseState, inside: bool, has_hover_effect: bool)
    ensures
        mouse_over(state, inside, has_hover_effect).2 == inside,
        (state != MouseState::Idle && state != MouseState::Hover) ==> mouse_over(
            state,
            inside,
            has_hover_effect,
        ).0 == state,
        mouse_over(state, inside, has_hover_effect).0 == MouseState::Idle
            || mouse_over(state, inside, has_hover_effect).0 == MouseState::Hover
            || mouse_over(state, inside, has_hover_effect).0 == state,
{
}

/// Entering and then leaving a layer that has a hover effect brings an idle layer back to
/// the idle state, having asked for the hover effect and then for the defaults.
pub proof fn lemma_enter_then_leave()
    ensures
        mouse_over(MouseState::Idle, true, true) == (MouseState::Hover, HoverAction::StartHover, true),
        mouse_over(mouse_over(MouseState::Idle, true, true).0, false, true) == (
            MouseState::Idle,
            HoverAction::RestoreDefaults,
            false,
        ),
{
}

/// The path a layer is given ends with the layer itself.
pub proof fn lemma_child_path_ends_with_self(parent: Seq<NodeID>, id: u32, type_id: GuiType)
    ensures
        child_path(parent, id, type_id).len() == parent.len() + 1,
        child_path(parent, id, type_id).last() == (NodeID { id, type_id }),
        child_path(parent, id, type_id).drop_last() == parent,
{
    assert(child_path(parent, id, type_id).drop_last() =~= parent);
}

} // verus!
