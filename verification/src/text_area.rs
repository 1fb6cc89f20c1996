//! TextArea – a scrollable, word-wrapped text box that can be read-only or editable: what
//! keys and clicks do to its text, its cursor and its editing state.
use vstd::prelude::*;
use crate::gui_types::GuiType;
use crate::layer::{Layer, MouseState};
use crate::editor::{EditorContext, InsertMode, can_erase, erased, shifted, typed};
use crate::input::{DisplayEvent, FieldValue, Key, char_is_ascii, char_is_ascii_control, is_ascii_char, is_ascii_control_char};

verus! {

/// A TextAreaEditor has an EditorContext that manages most of the state information.
pub struct TextAreaEditor {
    /// The EditorContext holds all of the state information while editing a TextArea
    pub ctx: EditorContext,
}

impl Default for TextAreaEditor {
    fn default() -> (res: Self)
        ensures
            res.ctx.content().len() == 0,
            res.ctx.is_multiline,
            res.ctx.cursor_pos == 0,
            res.ctx.has_changed,
            res.ctx.insert_mode == InsertMode::Start(false),
    {
        TextAreaEditor { ctx: EditorContext::default().multiline(true) }
    }
}

impl TextAreaEditor {
    /// Refresh the editing state before the cursor is placed, given the number of measured
    /// characters. A cursor past the measured characters goes back to the start and the
    /// update stops there (false); otherwise the pending change is taken into account (true).
    pub fn update_textarea(&mut self, metrics_len: usize) -> (res: bool)
        ensures
            res == (old(self).ctx.cursor_pos <= metrics_len),
            res ==> final(self).ctx.cursor_pos == old(self).ctx.cursor_pos && !final(self).ctx.has_changed,
            !res ==> final(self).ctx.cursor_pos == 0 && final(self).ctx.has_changed == old(self).ctx.has_changed,
            final(self).ctx.content() == old(self).ctx.content(),
            final(self).ctx.is_multiline == old(self).ctx.is_multiline,
            final(self).ctx.insert_mode == old(self).ctx.insert_mode,
            final(self).ctx.debug == old(self).ctx.debug,
            final(self).ctx.visible_range == old(self).ctx.visible_range,
    {
        if self.ctx.cursor_pos > metrics_len {
            self.ctx.cursor_pos = 0;
            return false;
        }
        self.ctx.has_changed = false;
        true
    }
}

/// What the user is doing with a text area
#[derive(Copy, Clone, Debug, PartialEq, Eq, Structural)]
pub enum EditState {
    /// User is idle
    Idle,
    /// User is typing and scrolling is disabled
    Typing,
    /// Scrolling underway and edits not allowed. Cursor is not visible.
    Scrolling,
}

/// UI component that resembles HTML textarea where word-wrapped content is displayed in a
/// scrollable frame. It can either be read-only or read/write.
pub struct TextArea {
    /// Placeholder text (not displayed yet)
    pub placeholder: Option<String>,
    /// The base layer
    pub layer: Layer,
    /// The editor utility that manages all text state while user edits text.
    pub editor: TextAreaEditor,
    /// Is the area in edit mode?
    pub is_editing: bool,
    /// Is the mouse over the area?
    pub is_hovering: bool,
    /// Can the user edit the text?
    pub can_edit: bool,
    /// Can the content be scrolled?
    pub can_scroll: bool,
}

impl TextArea {
    /// Constructor: an empty, scrollable area in read mode
    pub fn new(can_edit: bool) -> (res: Self)
        ensures
            res.placeholder is None,
            res.editor.ctx.content().len() == 0,
            res.editor.ctx.is_multiline,
            res.editor.ctx.cursor_pos == 0,
            res.editor.ctx.debug,
            !res.is_editing,
            !res.is_hovering,
            res.can_edit == can_edit,
            res.layer.type_id == GuiType::TextArea,
            res.layer.id == 0,
            res.layer.mouse_state == MouseState::Idle,
            res.can_scroll,
    {
        let mut editor = TextAreaEditor::default();
        editor.ctx.debug = true;
        let mut layer = Layer::new();
        layer.type_id = GuiType::TextArea;
        TextArea {
            layer,
            placeholder: None,
            editor,
            is_editing: false,
            is_hovering: false,
            can_edit,
            can_scroll: true,
        }
    }

    /// Set the text in the editor
    pub fn set_text(&mut self, text: &str)
        ensures
            final(self).editor.ctx.content() == text@,
            final(self).editor.ctx.cursor_pos == old(self).editor.ctx.cursor_pos,
            final(self).is_editing == old(self).is_editing,
            final(self).can_edit == old(self).can_edit,
    {
        self.editor.ctx.set_text(text);
    }

    /// Get the text content of the editor
    pub fn get_text(&self) -> (res: String)
        ensures
            res@ == self.editor.ctx.content(),
    {
        self.editor.ctx.get_text()
    }

    /// Tells the editor to switch to the editing state, with the cursor at the given position.
    pub fn start_editing(&mut self, position: Option<usize>)
        ensures
            final(self).is_editing,
            final(self).editor.ctx.has_changed,
            final(self).editor.ctx.cursor_pos == match position {
                Some(p) => p,
                None => 0,
            },
            final(self).editor.ctx.content() == old(self).editor.ctx.content(),
            final(self).can_edit == old(self).can_edit,
            final(self).layer.mouse_state == MouseState::Focus,
            final(self).layer.id == old(self).layer.id,
            final(self).layer.type_id == old(self).layer.type_id,
    {
        self.layer.mouse_state = MouseState::Focus;
        self.is_editing = true;
        self.editor.ctx.start_editing(position);
    }

    /// Switches to read-only state
    pub fn stop_editing(&mut self)
        ensures
            !final(self).is_editing,
            final(self).editor.ctx.content() == old(self).editor.ctx.content(),
            final(self).editor.ctx.cursor_pos == old(self).editor.ctx.cursor_pos,
            final(self).can_edit == old(self).can_edit,
    {
        self.is_editing = false;
    }

    /// The user input value of the control: its text
    pub fn get_field_value(&self) -> (res: FieldValue)
        ensures
            res matches FieldValue::Text(s) && s@ == self.editor.ctx.content(),
    {
        FieldValue::Text(self.get_text())
    }

    /// A notification from the parent: losing the focus ends editing.
    pub fn notify(&mut self, event: DisplayEvent)
        ensures
            event == DisplayEvent::Deactivate ==> !final(self).is_editing,
            event != DisplayEvent::Deactivate ==> final(self).is_editing == old(self).is_editing,
            final(self).editor.ctx.content() == old(self).editor.ctx.content(),
            final(self).editor.ctx.cursor_pos == old(self).editor.ctx.cursor_pos,
            final(self).can_edit == old(self).can_edit,
    {
        match event {
            DisplayEvent::Deactivate => {
                self.stop_editing();
            },
            _ => {},
        }
    }

    /// A typed character: printable ASCII is inserted at the cursor when the area can be
    /// edited; control characters and other characters are ignored. Returns whether the
    /// character was inserted.
    pub fn handle_key_press(&mut self, c: char) -> (res: bool)
        ensures
            res == (!is_ascii_control_char(c) && old(self).can_edit && is_ascii_char(c)),
            res ==> (final(self).editor.ctx.content(), final(self).editor.ctx.cursor_pos as nat) == typed(
                old(self).editor.ctx.content(),
                old(self).editor.ctx.cursor_pos as nat,
                c,
            ),
            !res ==> final(self).editor.ctx.content() == old(self).editor.ctx.content()
                && final(self).editor.ctx.cursor_pos == old(self).editor.ctx.cursor_pos,
            final(self).is_editing == old(self).is_editing,
            final(self).can_edit == old(self).can_edit,
    {
        if char_is_ascii_control(c) {
            return false;
        }
        if self.can_edit && char_is_ascii(c) {
            self.editor.ctx.insert_char(c);
            return true;
        }
        false
    }

    /// A command key: backspace deletes, the arrows move the cursor, Return starts a new
    /// line while editing an editable area, and Tab ends editing and is reported as handled
    /// (true) so that the parent can move the focus.
    pub fn handle_key_command(&mut self, key: Key) -> (res: bool)
        requires
            key == Key::Back ==> can_erase(old(self).editor.ctx.content(), old(self).editor.ctx.cursor_pos as nat),
        ensures
            res == (key == Key::Tab),
            res ==> !final(self).is_editing,
            key == Key::Back ==> (final(self).editor.ctx.content(), final(self).editor.ctx.cursor_pos as nat)
                == erased(old(self).editor.ctx.content(), old(self).editor.ctx.cursor_pos as nat),
            key == Key::Left ==> final(self).editor.ctx.content() == old(self).editor.ctx.content()
                && final(self).editor.ctx.cursor_pos as nat == shifted(
                old(self).editor.ctx.content().len(),
                old(self).editor.ctx.cursor_pos as nat,
                -1,
            ),
            key == Key::Right ==> final(self).editor.ctx.content() == old(self).editor.ctx.content()
                && final(self).editor.ctx.cursor_pos as nat == shifted(
                old(self).editor.ctx.content().len(),
                old(self).editor.ctx.cursor_pos as nat,
                1,
            ),
            key == Key::Return ==> if old(self).is_editing && old(self).can_edit {
                (final(self).editor.ctx.content(), final(self).editor.ctx.cursor_pos as nat) == typed(
                    old(self).editor.ctx.content(),
                    old(self).editor.ctx.cursor_pos as nat,
                    '\n',
                )
            } else {
                final(self).editor.ctx.content() == old(self).editor.ctx.content()
                    && final(self).editor.ctx.cursor_pos == old(self).editor.ctx.cursor_pos
            },
            (key == Key::Tab || key == Key::Escape || key == Key::Other) ==> final(self).editor.ctx.content()
                == old(self).editor.ctx.content() && final(self).editor.ctx.cursor_pos == old(
                self,
            ).editor.ctx.cursor_pos,
            !res ==> final(self).is_editing == old(self).is_editing,
            final(self).can_edit == old(self).can_edit,
    {
        match key {
            Key::Back => {
                self.editor.ctx.delete_char();
            },
            Key::Left => {
                self.editor.ctx.move_cursor(-1);
            },
            Key::Right => {
                self.editor.ctx.move_cursor(1);
            },
            Key::Tab => {
                // Optionally call stop_editing here or let a parent Scene take care of that.
                self.stop_editing();
                return true;
            },
            Key::Return => {
                if self.is_editing && self.can_edit {
                    self.editor.ctx.insert_char('\n');
                }
            },
            _ => {},
        }
        false
    }

    /// A mouse press, inside the text frame or not. A press inside an editable area starts
    /// editing with the cursor at `position` (the insertion point nearest the mouse, if one
    /// was found) and is reported as handled.
    pub fn handle_mouse_down(&mut self, inside: bool, position: Option<usize>) -> (res: bool)
        ensures
            res == (inside && old(self).can_edit),
            res ==> final(self).is_editing && final(self).editor.ctx.has_changed
                && final(self).editor.ctx.cursor_pos == match position {
                Some(p) => p,
                None => 0,
            },
            !res ==> final(self).is_editing == old(self).is_editing
                && final(self).editor.ctx.cursor_pos == old(self).editor.ctx.cursor_pos
                && final(self).editor.ctx.has_changed == old(self).editor.ctx.has_changed,
            final(self).editor.ctx.content() == old(self).editor.ctx.content(),
            final(self).can_edit == old(self).can_edit,
            res ==> final(self).layer.mouse_state == MouseState::Focus,
    {
        if inside && self.can_edit {
            self.start_editing(position);
            return true;
        }
        false
    }
}

} // verus!
