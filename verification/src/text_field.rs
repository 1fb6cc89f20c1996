//! TextField – a single-line text input: view mode and edit mode, what keys and clicks do
//! to the text and the cursor, and which part of the text is visible while editing.
//!
//! * On click, display the cursor
//! * On ascii input, insert character at current cursor position
//! * On backspace, delete character left of cursor position
//! * On left arrow, move cursor before previous character
//! * On right arrow, move cursor to right if not at end position
use vstd::prelude::*;
use crate::gui_types::GuiType;
use crate::layer::{Layer, MouseState};
use crate::editor::{EditorContext, InsertMode, can_erase, erased, shifted, typed};
use crate::input::{DisplayEvent, FieldValue, Key, char_is_ascii, char_is_ascii_control, is_ascii_char, is_ascii_control_char};
use crate::text::string_from_chars;
use crate::tools::TextAlign;

verus! {

/// Dot char for secure text masking
pub const MASK_TEXT_DOT: char = '•';
/// Asterisk char for secure text masking
pub const MASK_TEXT_ASTERISK: char = '*';

/// A type specifier that allows the textfield to have different behaviors, such as password input,
/// URL rendering, etc.
#[derive(Clone, Copy, Debug, PartialEq, Eq, Structural)]
pub enum TextFieldType {
    /// Basic text
    Normal,
    /// Passwords and other text that are masked with the specified char
    Secure(char),
    /// It should display as hyperlink with click to open browser
    Url,
}

/// The mask shown in place of `count` characters of secure text.
pub fn mask_text(c: char, count: usize) -> (res: String)
    ensures
        res@ == Seq::new(count as nat, |i: int| c),
{
    let mut chars: Vec<char> = Vec::new();
    let mut i: usize = 0;
    while i < count
        invariant
            i <= count,
            chars@ == Seq::new(i as nat, |k: int| c),
        decreases count - i,
    {
        chars.push(c);
        i = i + 1;
        assert(chars@ =~= Seq::new(i as nat, |k: int| c));
    }
    string_from_chars(chars.as_slice())
}

/// What the text measurements say about the field: whether the whole text fits in the
/// field's width; the position of the first character that starts beyond the width, if
/// any; and, counting from the end of the text, the position of the first non-space
/// character that starts before the text's overflow, if any.
#[derive(Clone, Copy, Debug, PartialEq, Eq, Structural)]
pub struct FieldLayout {
    /// The text is no wider than the field
    pub fits: bool,
    /// The first character that starts beyond the field's width
    pub first_overflow: Option<usize>,
    /// Counting from the end, the first non-space character that starts left of the overflow
    pub last_visible_from_end: Option<usize>,
}

/// Where the cursor and the text are drawn after a layout update
#[derive(Clone, Copy, Debug, PartialEq, Eq, Structural)]
pub enum CursorPlacement {
    /// Nothing changed since the last update: keep the previous placement
    Unchanged,
    /// The cursor was past the measured characters and went back to the start
    Reset,
    /// Cursor at the left edge of the field, text left-aligned
    Start,
    /// Cursor just after the whole (fitting) text
    AfterText,
    /// Cursor at the left edge of the given character, text left-aligned
    AtChar(usize),
    /// Text right-aligned from the given character; cursor at the right edge of the field
    RightEdge(usize),
    /// Text right-aligned from the first given character; cursor at the second one
    ShiftedChar(usize, usize),
}

/// The editor state after a layout update of a single-line field (see `update_textfield`):
/// the visible range, the insert mode, the cursor, and where to draw.
pub open spec fn field_update(
    ctx: EditorContext,
    metrics_len: nat,
    layout: FieldLayout,
) -> (Option<(int, int)>, InsertMode, nat, CursorPlacement) {
    let len = ctx.content().len();
    let cursor = ctx.cursor_pos as nat;
    let range = (ctx.visible_range.start as int, ctx.visible_range.end as int);
    if !ctx.has_changed {
        (Some(range), ctx.insert_mode, cursor, CursorPlacement::Unchanged)
    } else if cursor > metrics_len {
        (Some(range), ctx.insert_mode, 0, CursorPlacement::Reset)
    } else if layout.fits {
        if len > 0 {
            if cursor == len {
                (Some((0, len as int)), InsertMode::End(false), cursor, CursorPlacement::AfterText)
            } else {
                (Some((0, len as int)), InsertMode::Intra(false), cursor, CursorPlacement::AtChar(
                    cursor as usize,
                ))
            }
        } else {
            (Some(range), ctx.insert_mode, cursor, CursorPlacement::Start)
        }
    } else if cursor == 0 {
        match layout.first_overflow {
            Some(end) => (Some((0, end as int)), InsertMode::Start(true), cursor, CursorPlacement::Start),
            None => (Some((0, len as int)), InsertMode::Start(true), cursor, CursorPlacement::Start),
        }
    } else {
        match layout.last_visible_from_end {
            Some(r) => {
                let start = len - r - 1;
                if cursor == len {
                    (Some((start, len as int)), InsertMode::End(true), cursor, CursorPlacement::RightEdge(
                        start as usize,
                    ))
                } else {
                    (Some((start, len as int)), InsertMode::Intra(true), cursor, CursorPlacement::ShiftedChar(
                        start as usize,
                        cursor as usize,
                    ))
                }
            },
            None => (Some((0, len as int)), ctx.insert_mode, cursor, CursorPlacement::Start),
        }
    }
}

/// The text a field shows for the given visible characters: a mask of the same length
/// for secure fields, the characters themselves otherwise.
pub open spec fn shown_text(field_type: TextFieldType, visible: Seq<char>) -> Seq<char> {
    match field_type {
        TextFieldType::Secure(c) => Seq::new(visible.len(), |i: int| c),
        _ => visible,
    }
}

/// How an edited field aligns its text for an insert mode: right-aligned when the text
/// overflows and the cursor is at or before the end, left-aligned otherwise.
pub open spec fn edit_alignment(mode: InsertMode) -> (TextAlign, bool) {
    match mode {
        InsertMode::Start(overflows) => (TextAlign::Left, overflows),
        InsertMode::End(overflows) => if overflows {
            (TextAlign::Right, true)
        } else {
            (TextAlign::Left, false)
        },
        InsertMode::Intra(overflows) => if overflows {
            (TextAlign::Right, true)
        } else {
            (TextAlign::Left, false)
        },
        InsertMode::AppendPreviousLine => (TextAlign::Left, false),
    }
}

/// What a text field draws: the text (if any), whether it is the placeholder, how it is
/// aligned, whether it is clipped to the input frame, and whether the cursor shows.
#[derive(Debug, PartialEq)]
pub struct FieldDisplay {
    /// The text to draw
    pub text: Option<String>,
    /// The text is the placeholder
    pub is_placeholder: bool,
    /// Horizontal alignment of the text
    pub align: TextAlign,
    /// The text is clipped to the input frame
    pub clipped: bool,
    /// The cursor is drawn
    pub show_cursor: bool,
}

/// A TextFieldEditor is a simple wrapper around an EditorContext where multiline = false
pub struct TextFieldEditor {
    /// The EditorContext holds all of the state information while editing a TextField
    pub ctx: EditorContext,
}

impl Default for TextFieldEditor {
    fn default() -> (res: Self)
        ensures
            res.ctx.content().len() == 0,
            !res.ctx.is_multiline,
            res.ctx.cursor_pos == 0,
            res.ctx.has_changed,
            res.ctx.insert_mode == InsertMode::Start(false),
    {
        TextFieldEditor { ctx: EditorContext::default().multiline(false) }
    }
}

impl TextFieldEditor {
    /// Update the visible range, the insert mode and the cursor of a single-line field
    /// being edited, and say where to draw. `metrics_len` is the number of measured
    /// characters and `layout` what the measurements say (see `FieldLayout`). Nothing
    /// happens when nothing changed since the last update; a cursor past the measured
    /// characters goes back to the start. When the text fits, all of it is visible and the
    /// cursor is at the end or inside; when it overflows and the cursor is at the start,
    /// the text from the start up to the first overflowing character is visible; otherwise
    /// the text is shown right-aligned from the last character that fits.
    pub fn update_textfield(&mut self, metrics_len: usize, layout: FieldLayout) -> (res: CursorPlacement)
        requires
            metrics_len <= old(self).ctx.content().len(),
            layout.first_overflow matches Some(e) ==> e < metrics_len,
            layout.last_visible_from_end matches Some(r) ==> r < metrics_len,
        ensures
            (res != CursorPlacement::Unchanged && res != CursorPlacement::Reset && old(self).ctx.content().len()
                > 0) ==> final(self).ctx.visible_range.start <= final(self).ctx.visible_range.end
                <= final(self).ctx.content().len(),
            ({
                let u = field_update(old(self).ctx, metrics_len as nat, layout);
                &&& res == u.3
                &&& u.0 matches Some(r) && final(self).ctx.visible_range.start == r.0
                    && final(self).ctx.visible_range.end == r.1
                &&& final(self).ctx.insert_mode == u.1
                &&& final(self).ctx.cursor_pos == u.2
            }),
            final(self).ctx.has_changed == false,
            final(self).ctx.content() == old(self).ctx.content(),
            final(self).ctx.is_multiline == old(self).ctx.is_multiline,
            final(self).ctx.debug == old(self).ctx.debug,
    {
        // If editor state has not changed, then no need to update text and cursor display.
        if !self.ctx.has_changed {
            return CursorPlacement::Unchanged;
        }
        self.ctx.has_changed = false;
        if self.ctx.cursor_pos > metrics_len {
            self.ctx.cursor_pos = 0;
            return CursorPlacement::Reset;
        }
        let len = self.ctx.text.len();
        if layout.fits {
            // Text size is less than frame width
            if len > 0 {
                self.ctx.visible_range = 0..len;
                if self.ctx.cursor_pos == len {
                    self.ctx.insert_mode = InsertMode::End(false);
                    CursorPlacement::AfterText
                } else {
                    self.ctx.insert_mode = InsertMode::Intra(false);
                    CursorPlacement::AtChar(self.ctx.cursor_pos)
                }
            } else {
                CursorPlacement::Start
            }
        } else if self.ctx.cursor_pos == 0 {
            // Either the field is not being edited or is at beginning.
            self.ctx.insert_mode = InsertMode::Start(true);
            match layout.first_overflow {
                Some(end) => {
                    self.ctx.visible_range = 0..end;
                },
                None => {
                    self.ctx.visible_range = 0..len;
                },
            }
            CursorPlacement::Start
        } else {
            // The field is being edited: show the text right-aligned
            match layout.last_visible_from_end {
                Some(rev_index) => {
                    let start = len - rev_index - 1;
                    self.ctx.visible_range = start..len;
                    if self.ctx.cursor_pos == len {
                        // Cursor is at the end
                        self.ctx.insert_mode = InsertMode::End(true);
                        CursorPlacement::RightEdge(start)
                    } else {
                        // Cursor is intra-text
                        self.ctx.insert_mode = InsertMode::Intra(true);
                        CursorPlacement::ShiftedChar(start, self.ctx.cursor_pos)
                    }
                },
                None => {
                    self.ctx.visible_range = 0..len;
                    CursorPlacement::Start
                },
            }
        }
    }

    /// Method to determine the text that is visible in the TextField
    pub fn get_visible_text(&self) -> (res: Option<String>)
        requires
            self.ctx.visible_range.start <= self.ctx.visible_range.end <= self.ctx.content().len(),
        ensures
            res matches Some(s) && s@ == self.ctx.content().subrange(
                self.ctx.visible_range.start as int,
                self.ctx.visible_range.end as int,
            ),
    {
        self.ctx.get_visible_text()
    }
}

/// UI component to display an editable text field
pub struct TextField {
    /// Placeholder text to display if the field is empty
    pub placeholder: Option<String>,
    /// Field type enum
    pub field_type: TextFieldType,
    /// The base layer
    pub layer: Layer,
    /// The Editor which handles all text editing state
    pub editor: TextFieldEditor,
    /// Is the field in edit mode?
    pub is_editing: bool,
    /// Is the mouse over the field?
    pub is_hovering: bool,
    /// Can the user edit the text?
    pub can_edit: bool,
}

impl TextField {
    /// Constructor: an empty normal field in view mode
    pub fn new(can_edit: bool) -> (res: Self)
        ensures
            res.placeholder is None,
            res.field_type == TextFieldType::Normal,
            res.editor.ctx.content().len() == 0,
            res.editor.ctx.cursor_pos == 0,
            res.editor.ctx.debug,
            !res.is_editing,
            !res.is_hovering,
            res.can_edit == can_edit,
            res.layer.type_id == GuiType::TextField,
            res.layer.id == 0,
            res.layer.mouse_state == MouseState::Idle,
    {
        let mut editor = TextFieldEditor::default();
        editor.ctx.debug = true;
        let mut layer = Layer::new();
        layer.type_id = GuiType::TextField;
        TextField {
            layer,
            placeholder: None,
            field_type: TextFieldType::Normal,
            editor,
            is_editing: false,
            is_hovering: false,
            can_edit,
        }
    }

    /// Builder method to define the TextFieldType
    pub fn with_type(self, field_type: TextFieldType) -> (res: Self)
        ensures
            res.field_type == field_type,
            res.placeholder == self.placeholder,
            res.editor == self.editor,
            res.is_editing == self.is_editing,
            res.is_hovering == self.is_hovering,
            res.can_edit == self.can_edit,
    {
        let mut s = self;
        s.field_type = field_type;
        s
    }

    /// Set the text in the field
    pub fn set_text(&mut self, text: &str)
        ensures
            final(self).editor.ctx.content() == text@,
            final(self).editor.ctx.cursor_pos == old(self).editor.ctx.cursor_pos,
            final(self).is_editing == old(self).is_editing,
            final(self).field_type == old(self).field_type,
            final(self).can_edit == old(self).can_edit,
    {
        self.editor.ctx.set_text(text);
    }

    /// Get the text in the field
    pub fn get_text(&self) -> (res: String)
        ensures
            res@ == self.editor.ctx.content(),
    {
        self.editor.ctx.get_text()
    }

    /// Set the placeholder text
    pub fn set_placeholder(&mut self, text: &str)
        ensures
            final(self).placeholder matches Some(p) && p@ == text@,
            final(self).editor == old(self).editor,
            final(self).is_editing == old(self).is_editing,
    {
        self.placeholder = Some(text.to_owned());
    }

    /// Switch to editing mode with the cursor at the given position
    pub fn start_editing(&mut self, position: Option<usize>)
        ensures
            final(self).is_editing,
            final(self).editor.ctx.has_changed,
            final(self).editor.ctx.cursor_pos == match position {
                Some(p) => p,
                None => 0,
            },
            final(self).editor.ctx.content() == old(self).editor.ctx.content(),
            final(self).field_type == old(self).field_type,
            final(self).can_edit == old(self).can_edit,
            final(self).layer.mouse_state == MouseState::Focus,
            final(self).layer.id == old(self).layer.id,
            final(self).layer.type_id == old(self).layer.type_id,
    {
        self.layer.mouse_state = MouseState::Focus;
        self.is_editing = true;
        self.editor.ctx.start_editing(position);
    }

    /// Switch read mode
    pub fn stop_editing(&mut self)
        ensures
            !final(self).is_editing,
            final(self).editor == old(self).editor,
            final(self).field_type == old(self).field_type,
            final(self).can_edit == old(self).can_edit,
    {
        self.is_editing = false;
    }

    /// The user input value of the control: its text
    pub fn get_field_value(&self) -> (res: FieldValue)
        ensures
            res matches FieldValue::Text(s) && s@ == self.editor.ctx.content(),
    {
        FieldValue::Text(self.get_text())
    }

    /// A notification from the parent: losing the focus ends editing.
    pub fn notify(&mut self, event: DisplayEvent)
        ensures
            event == DisplayEvent::Deactivate ==> !final(self).is_editing,
            event != DisplayEvent::Deactivate ==> final(self).is_editing == old(self).is_editing,
            final(self).editor == old(self).editor,
            final(self).field_type == old(self).field_type,
            final(self).can_edit == old(self).can_edit,
    {
        match event {
            DisplayEvent::Deactivate => {
                self.stop_editing();
            },
            _ => {},
        }
    }

    /// A typed character: printable ASCII is inserted at the cursor when the field can be
    /// edited; control characters and other characters are ignored. Returns whether the
    /// character was inserted.
    pub fn handle_key_press(&mut self, c: char) -> (res: bool)
        ensures
            res == (!is_ascii_control_char(c) && old(self).can_edit && is_ascii_char(c)),
            res ==> (final(self).editor.ctx.content(), final(self).editor.ctx.cursor_pos as nat) == typed(
                old(self).editor.ctx.content(),
                old(self).editor.ctx.cursor_pos as nat,
                c,
            ) && final(self).editor.ctx.has_changed,
            !res ==> final(self).editor == old(self).editor,
            final(self).is_editing == old(self).is_editing,
            final(self).field_type == old(self).field_type,
            final(self).can_edit == old(self).can_edit,
    {
        if char_is_ascii_control(c) {
            return false;
        }
        if self.can_edit && char_is_ascii(c) {
            self.editor.ctx.insert_char(c);
            return true;
        }
        false
    }

    /// A command key: backspace deletes, the arrows move the cursor, and Tab or Return end
    /// editing and are reported as handled (true) so that the parent can move the focus.
    pub fn handle_key_command(&mut self, key: Key) -> (res: bool)
        requires
            key == Key::Back ==> can_erase(old(self).editor.ctx.content(), old(self).editor.ctx.cursor_pos as nat),
        ensures
            res == (key == Key::Tab || key == Key::Return),
            res ==> !final(self).is_editing && final(self).editor == old(self).editor,
            key == Key::Back ==> (final(self).editor.ctx.content(), final(self).editor.ctx.cursor_pos as nat)
                == erased(old(self).editor.ctx.content(), old(self).editor.ctx.cursor_pos as nat),
            key == Key::Left ==> final(self).editor.ctx.content() == old(self).editor.ctx.content()
                && final(self).editor.ctx.cursor_pos as nat == shifted(
                old(self).editor.ctx.content().len(),
                old(self).editor.ctx.cursor_pos as nat,
                -1,
            ),
            key == Key::Right ==> final(self).editor.ctx.content() == old(self).editor.ctx.content()
                && final(self).editor.ctx.cursor_pos as nat == shifted(
                old(self).editor.ctx.content().len(),
                old(self).editor.ctx.cursor_pos as nat,
                1,
            ),
            (key == Key::Escape || key == Key::Other) ==> final(self).editor == old(self).editor,
            !res ==> final(self).is_editing == old(self).is_editing,
            final(self).field_type == old(self).field_type,
            final(self).can_edit == old(self).can_edit,
    {
        match key {
            Key::Back => {
                self.editor.ctx.delete_char();
            },
            Key::Left => {
                self.editor.ctx.move_cursor(-1);
            },
            Key::Right => {
                self.editor.ctx.move_cursor(1);
            },
            Key::Tab => {
                // Optionally call stop_editing here or let a parent Scene take care of that.
                self.stop_editing();
                return true;
            },
            Key::Return => {
                self.stop_editing();
                return true;
            },
            _ => {},
        }
        false
    }

    /// A mouse press, inside the input area or not. A press inside starts editing: a normal
    /// field puts the cursor at `clicked_position` (the insertion point nearest the mouse,
    /// if the text was measured), other fields at the end of the text.
    pub fn handle_mouse_down(&mut self, inside: bool, clicked_position: Option<usize>) -> (res: bool)
        ensures
            res == inside,
            inside ==> final(self).is_editing && final(self).editor.ctx.has_changed
                && final(self).editor.ctx.cursor_pos == match old(self).field_type {
                TextFieldType::Normal => match clicked_position {
                    Some(p) => p as int,
                    None => 0,
                },
                _ => old(self).editor.ctx.content().len() as int,
            },
            !inside ==> final(self).editor == old(self).editor && final(self).is_editing == old(
                self,
            ).is_editing,
            final(self).editor.ctx.content() == old(self).editor.ctx.content(),
            final(self).field_type == old(self).field_type,
            final(self).can_edit == old(self).can_edit,
            inside ==> final(self).layer.mouse_state == MouseState::Focus,
    {
        if inside {
            match self.field_type {
                TextFieldType::Normal => {
                    self.start_editing(clicked_position);
                    return true;
                },
                _ => {
                    let pos = Some(self.editor.ctx.text_len());
                    self.start_editing(pos);
                    return true;
                },
            }
        }
        false
    }

    /// What the field draws. A field with text shows its visible part (masked when secure);
    /// while editing, an overflowing text is clipped to the input frame and right-aligned
    /// unless the cursor is at the start, and the cursor shows. An empty field shows its
    /// placeholder, if any, when it is not being edited, and nothing while it is.
    pub fn display(&self) -> (res: FieldDisplay)
        requires
            self.editor.ctx.content().len() > 0 ==> self.editor.ctx.visible_range.start
                <= self.editor.ctx.visible_range.end <= self.editor.ctx.content().len(),
        ensures
            res.show_cursor == self.is_editing,
            self.editor.ctx.content().len() > 0 ==> {
                &&& res.text matches Some(t) && t@ == shown_text(
                    self.field_type,
                    self.editor.ctx.content().subrange(
                        self.editor.ctx.visible_range.start as int,
                        self.editor.ctx.visible_range.end as int,
                    ),
                )
                &&& !res.is_placeholder
                &&& (res.align, res.clipped) == if self.is_editing {
                    edit_alignment(self.editor.ctx.insert_mode)
                } else {
                    (TextAlign::Left, false)
                }
            },
            self.editor.ctx.content().len() == 0 ==> {
                &&& res.is_placeholder == (!self.is_editing && self.placeholder is Some)
                &&& res.is_placeholder ==> (res.text matches Some(t) && t@ == self.placeholder->0@)
                &&& !res.is_placeholder ==> res.text is None
                &&& res.align == TextAlign::Left
                &&& !res.clipped
            },
    {
        if self.editor.ctx.text_len() > 0 {
            let visible = match self.editor.ctx.get_visible_text() {
                Some(v) => v,
                None => String::new(),
            };
            let text = self.display_text(visible.as_str());
            let (align, clipped) = if self.is_editing {
                match self.editor.ctx.insert_mode {
                    InsertMode::Start(overflows) => (TextAlign::Left, overflows),
                    InsertMode::End(overflows) => if overflows {
                        (TextAlign::Right, true)
                    } else {
                        (TextAlign::Left, false)
                    },
                    InsertMode::Intra(overflows) => if overflows {
                        (TextAlign::Right, true)
                    } else {
                        (TextAlign::Left, false)
                    },
                    InsertMode::AppendPreviousLine => (TextAlign::Left, false),
                }
            } else {
                (TextAlign::Left, false)
            };
            return FieldDisplay {
                text: Some(text),
                is_placeholder: false,
                align,
                clipped,
                show_cursor: self.is_editing,
            };
        }
        if !self.is_editing {
            match &self.placeholder {
                Some(p) => {
                    return FieldDisplay {
                        text: Some(p.clone()),
                        is_placeholder: true,
                        align: TextAlign::Left,
                        clipped: false,
                        show_cursor: false,
                    };
                },
                None => {},
            }
        }
        FieldDisplay {
            text: None,
            is_placeholder: false,
            align: TextAlign::Left,
            clipped: false,
            show_cursor: self.is_editing,
        }
    }

    /// The text to show for the given visible text: masked with the field's character for
    /// secure fields, as it is otherwise.
    pub fn display_text(&self, text: &str) -> (res: String)
        ensures
            match self.field_type {
                TextFieldType::Secure(c) => res@ == Seq::new(text@.len(), |i: int| c),
                _ => res@ == text@,
            },
    {
        match self.field_type {
            TextFieldType::Secure(c) => {
                let n = crate::text::chars_of(text).len();
                mask_text(c, n)
            },
            _ => text.to_owned(),
        }
    }
}

/// Typing into a field and then pressing backspace gives back the text: for a field in
/// edit mode with the cursor anywhere within the text, a printable ASCII key followed by
/// backspace leaves the text and the cursor as they were.
pub proof fn lemma_field_type_then_backspace(text: Seq<char>, cursor: nat, c: char)
    requires
        cursor <= text.len(),
        !is_ascii_control_char(c),
        is_ascii_char(c),
    ensures
        erased(typed(text, cursor, c).0, typed(text, cursor, c).1) == (text, cursor),
{
    crate::editor::lemma_type_then_erase(text, cursor, c);
}

/// What a layout update shows of a text that changed: when the whole text fits the field,
/// all of it is visible, wherever the cursor is; when it overflows, a cursor at the start
/// shows the text from its first character, and a cursor further on shows the text up to
/// its last character.
pub proof fn lemma_field_update_visible_range(ctx: EditorContext, metrics_len: nat, layout: FieldLayout)
    requires
        ctx.has_changed,
        ctx.cursor_pos <= metrics_len,
        metrics_len <= ctx.content().len(),
        ctx.content().len() > 0,
    ensures
        layout.fits ==> field_update(ctx, metrics_len, layout).0 == Some((0int, ctx.content().len() as int)),
        (!layout.fits && ctx.cursor_pos == 0) ==> (field_update(ctx, metrics_len, layout).0 matches Some(r)
            && r.0 == 0),
        (!layout.fits && ctx.cursor_pos > 0 && layout.last_visible_from_end is Some) ==> (field_update(
            ctx,
            metrics_len,
            layout,
        ).0 matches Some(r) && r.1 == ctx.content().len()),
        field_update(ctx, metrics_len, layout).2 == ctx.cursor_pos,
{
}

/// The insert mode after a layout update of a changed text says where the cursor is and
/// whether the text overflows the field: at the end or inside of a fitting text, at the
/// start of an overflowing text, and at the end or inside of an overflowing text that is
/// shown right-aligned. When the text overflows with the cursor at the start, it is
/// visible up to the first character that starts beyond the field.
pub proof fn lemma_field_update_insert_mode(ctx: EditorContext, metrics_len: nat, layout: FieldLayout)
    requires
        ctx.has_changed,
        ctx.cursor_pos <= metrics_len,
        metrics_len <= ctx.content().len(),
        ctx.content().len() > 0,
    ensures
        (layout.fits && ctx.cursor_pos == ctx.content().len()) ==> field_update(ctx, metrics_len, layout).1
            == InsertMode::End(false),
        (layout.fits && ctx.cursor_pos < ctx.content().len()) ==> field_update(ctx, metrics_len, layout).1
            == InsertMode::Intra(false),
        (!layout.fits && ctx.cursor_pos == 0) ==> field_update(ctx, metrics_len, layout).1 == InsertMode::Start(
            true,
        ),
        (!layout.fits && ctx.cursor_pos == 0 && layout.first_overflow is Some) ==> field_update(
            ctx,
            metrics_len,
            layout,
        ).0 == Some((0int, layout.first_overflow->0 as int)),
        (!layout.fits && 0 < ctx.cursor_pos && ctx.cursor_pos == ctx.content().len()
            && layout.last_visible_from_end is Some) ==> field_update(ctx, metrics_len, layout).1
            == InsertMode::End(true),
        (!layout.fits && 0 < ctx.cursor_pos && ctx.cursor_pos < ctx.content().len()
            && layout.last_visible_from_end is Some) ==> field_update(ctx, metrics_len, layout).1
            == InsertMode::Intra(true),
{
}

/// An edited field clips its text to the input frame exactly when the text overflows, and
/// right-aligns it exactly when it overflows with the cursor past the start.
pub proof fn lemma_edit_alignment(overflows: bool)
    ensures
        edit_alignment(InsertMode::Start(overflows)) == (TextAlign::Left, overflows),
        edit_alignment(InsertMode::End(overflows)) == (
            if overflows { TextAlign::Right } else { TextAlign::Left },
            overflows,
        ),
        edit_alignment(InsertMode::Intra(overflows)) == (
            if overflows { TextAlign::Right } else { TextAlign::Left },
            overflows,
        ),
{
}

/// A field shows as many characters as are visible: a secure field shows its mask
/// character in place of each of them, any other field shows them as they are.
pub proof fn lemma_shown_text(field_type: TextFieldType, visible: Seq<char>)
    ensures
        shown_text(field_type, visible).len() == visible.len(),
        field_type matches TextFieldType::Secure(c) ==> forall|i: int|
            0 <= i < visible.len() ==> #[trigger] shown_text(field_type, visible)[i] == c,
        !(field_type is Secure) ==> shown_text(field_type, visible) == visible,
{
}

} // verus!
