//! Commands for buttons and other responders: what a click on the source does, to which
//! target, and with which animation.
use vstd::prelude::*;
use crate::gui_types::GuiType;

verus! {

/// Navigation events that a command can dispatch
#[derive(Debug, Clone, Copy, PartialEq, Eq, Structural)]
pub enum NavEvent {
    /// Go to the home scene
    Home,
    /// Go to the next scene
    Next,
    /// Go back to the previous scene
    Back,
}

/// The event a command holds: a navigation event, or an event of the application's own
pub enum EventBox<E> {
    /// A navigation event
    Nav(NavEvent),
    /// An application event
    Custom(E),
}

/// What a command does when it is triggered: dispatch its event, or run a callback
pub enum CommandHandler<C, E> {
    /// Register the event with the event bus
    Dispatch(E),
    /// Call the given function
    Callback(C),
}

/// A struct for building an action object to associate with a Button or other source
pub struct Command<S, C, E, P> {
    /// The Button or other Responder
    pub source: S,
    /// What happens when the command is triggered
    pub action: Option<CommandHandler<C, E>>,
    /// Animation directives
    pub transition: P,
    /// The layer_id of the target object
    pub target_id: u32,
    /// The kind of the target object
    pub target_type: GuiType,
    /// Holder of the event
    pub event: EventBox<E>,
}

impl<S, C, E, P> Command<S, C, E, P> {
    /// Constructor that takes a Button or Responder object as the "source" of the command.
    /// The command targets the scene, holds the Home navigation event and the default
    /// animation directives, and does nothing when triggered yet.
    pub fn new(source: S) -> (res: Self)
        where
            P: Default,
        ensures
            res.source == source,
            res.action is None,
            call_ensures(P::default, (), res.transition),
            res.target_id == 0,
            res.target_type == GuiType::Scene,
            res.event == EventBox::<E>::Nav(NavEvent::Home),
    {
        let transition = P::default();
        Command {
            source,
            action: None,
            transition,
            target_id: 0,
            target_type: GuiType::Scene,
            event: EventBox::Nav(NavEvent::Home),
        }
    }

    /// Define the target object given its layer id and kind
    pub fn target(self, id: u32, type_id: GuiType) -> (res: Self)
        ensures
            res.target_id == id,
            res.target_type == type_id,
            res.source == self.source,
            res.action == self.action,
            res.transition == self.transition,
            res.event == self.event,
    {
        let mut s = self;
        s.target_id = id;
        s.target_type = type_id;
        s
    }

    /// Define the event that will be dispatched when triggered
    pub fn event(self, event: E) -> (res: Self)
        where
            E: Copy,
        ensures
            res.action == Some(CommandHandler::<C, E>::Dispatch(event)),
            res.event == EventBox::<E>::Custom(event),
            res.source == self.source,
            res.transition == self.transition,
            res.target_id == self.target_id,
            res.target_type == self.target_type,
    {
        let mut s = self;
        s.action = Some(CommandHandler::Dispatch(event));
        s.event = EventBox::Custom(event);
        s
    }

    /// Provide the display properties to manipulate or animate as a result of this command.
    pub fn animate(self, props: P) -> (res: Self)
        ensures
            res.transition == props,
            res.source == self.source,
            res.action == self.action,
            res.target_id == self.target_id,
            res.target_type == self.target_type,
            res.event == self.event,
    {
        let mut s = self;
        s.transition = props;
        s
    }

    /// This allows you to define the callback more explicitly
    pub fn callback(self, cb: C) -> (res: Self)
        ensures
            res.action == Some(CommandHandler::<C, E>::Callback(cb)),
            res.source == self.source,
            res.transition == self.transition,
            res.target_id == self.target_id,
            res.target_type == self.target_type,
            res.event == self.event,
    {
        let mut s = self;
        s.action = Some(CommandHandler::Callback(cb));
        s
    }
}

/// The user actions that can trigger a command
#[derive(Debug, Clone, Copy, PartialEq, Eq, Structural)]
pub enum CommandEvent {
    Click,
    Hover,
}

/// What a command does to its target
#[derive(Debug, Clone, Copy, PartialEq, Eq, Structural)]
pub enum CommandAction {
    Nothing,
    Show,
    Hide,
}

} // verus!
