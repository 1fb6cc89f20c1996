//! The editing state behind text input views: the text, the cursor and the edit operations.
//!
//! Positions are counted in characters. The views only ever insert ASCII characters,
//! for which a character position and a byte position are the same.
use vstd::prelude::*;
use crate::text::{chars_of, string_from_chars, string_from_range};

verus! {

/// Describes where the cursor is inserting text with a bool flag where true means the
/// text size is overflowing the field size.
#[derive(Debug, Clone, Copy, PartialEq, Eq, Structural)]
pub enum InsertMode {
    /// At position 0
    Start(bool),
    /// At the end of the string
    End(bool),
    /// Intra-text
    Intra(bool),
    /// Special case for multiline where the cursor should append at end of previous line.
    AppendPreviousLine,
}

/// The text and cursor after a character is typed at `cursor`: appended when the cursor
/// is at the end, inserted before the cursor's character when it is inside, and nothing
/// at all when the cursor lies beyond the end.
pub open spec fn typed(text: Seq<char>, cursor: nat, c: char) -> (Seq<char>, nat) {
    if cursor == text.len() {
        (text.push(c), text.len() + 1)
    } else if cursor < text.len() {
        (text.insert(cursor as int, c), cursor + 1)
    } else {
        (text, cursor)
    }
}

/// The text and cursor after a backspace: nothing when the text is empty or the cursor
/// at the start; otherwise the character left of the cursor goes and the cursor steps
/// back one place.
pub open spec fn erased(text: Seq<char>, cursor: nat) -> (Seq<char>, nat) {
    if text.len() == 0 || cursor == 0 {
        (text, cursor)
    } else {
        (text.remove(cursor - 1), (cursor - 1) as nat)
    }
}

/// The cursor after moving it `shift` places (left when negative), kept within the text.
pub open spec fn shifted(len: nat, cursor: nat, shift: int) -> nat {
    let target = cursor + shift;
    if target < 0 {
        0
    } else if target > len {
        len
    } else {
        target as nat
    }
}

/// Whether a backspace can be carried out: it cannot when the cursor lies beyond the end
/// of a non-empty text.
pub open spec fn can_erase(text: Seq<char>, cursor: nat) -> bool {
    text.len() == 0 || cursor == 0 || cursor <= text.len()
}

/// Base struct for text editing that holds the text and cursor state.
pub struct EditorContext {
    /// Is it multi-line text?
    pub is_multiline: bool,
    /// The actual text content
    pub text: Vec<char>,
    /// The cursor position as an index value in the entire char array
    pub cursor_pos: usize,
    /// Has the content changed since the last run loop?
    pub has_changed: bool,
    /// Enum to store where the cursor is inserting text
    pub insert_mode: InsertMode,
    /// Temporary value for debugging
    pub debug: bool,
    /// Holds the currently visible range of chars
    pub visible_range: core::ops::Range<usize>,
}

impl EditorContext {
    /// The text being edited.
    pub open spec fn content(&self) -> Seq<char> {
        self.text@
    }

    /// Builder method to define the editor as a multiline, word-wrapped editor
    pub fn multiline(self, multiline: bool) -> (res: Self)
        ensures
            res.is_multiline == multiline,
            res.content() == self.content(),
            res.cursor_pos == self.cursor_pos,
            res.has_changed == self.has_changed,
            res.insert_mode == self.insert_mode,
            res.debug == self.debug,
            res.visible_range == self.visible_range,
    {
        let mut s = self;
        s.is_multiline = multiline;
        s
    }

    /// Is the editor multi-line?
    pub fn is_multiline(&self) -> (res: bool)
        ensures
            res == self.is_multiline,
    {
        self.is_multiline
    }

    /// Builder method to set the initial text
    pub fn with_text(self, text: String) -> (res: Self)
        ensures
            res.content() == text@,
            res.is_multiline == self.is_multiline,
            res.cursor_pos == self.cursor_pos,
            res.has_changed == self.has_changed,
            res.insert_mode == self.insert_mode,
            res.debug == self.debug,
            res.visible_range == self.visible_range,
    {
        let mut s = self;
        s.text = chars_of(text.as_str());
        s
    }

    /// Method to get the text content as a string
    pub fn get_text(&self) -> (res: String)
        ensures
            res@ == self.content(),
    {
        string_from_chars(self.text.as_slice())
    }

    /// The number of characters in the text.
    pub fn text_len(&self) -> (res: usize)
        ensures
            res == self.content().len(),
    {
        self.text.len()
    }

    /// Method to set the text content of the editor
    pub fn set_text(&mut self, text: &str)
        ensures
            final(self).content() == text@,
            final(self).is_multiline == old(self).is_multiline,
            final(self).cursor_pos == old(self).cursor_pos,
            final(self).has_changed == old(self).has_changed,
            final(self).insert_mode == old(self).insert_mode,
            final(self).debug == old(self).debug,
            final(self).visible_range == old(self).visible_range,
    {
        self.text = chars_of(text);
    }

    /// Switch to editing mode: the cursor goes to the given position (the start when none
    /// is given) and the content is marked as changed.
    pub fn start_editing(&mut self, position: Option<usize>)
        ensures
            final(self).cursor_pos == match position {
                Some(p) => p,
                None => 0,
            },
            final(self).has_changed,
            final(self).content() == old(self).content(),
            final(self).is_multiline == old(self).is_multiline,
            final(self).insert_mode == old(self).insert_mode,
            final(self).debug == old(self).debug,
            final(self).visible_range == old(self).visible_range,
    {
        self.has_changed = true;
        match position {
            Some(p) => {
                self.cursor_pos = p;
            },
            None => {
                self.cursor_pos = 0;
            },
        }
    }

    /// Switch read mode
    pub fn stop_editing(&mut self)
        ensures
            !final(self).has_changed,
            final(self).content() == old(self).content(),
            final(self).cursor_pos == old(self).cursor_pos,
            final(self).is_multiline == old(self).is_multiline,
            final(self).insert_mode == old(self).insert_mode,
            final(self).debug == old(self).debug,
            final(self).visible_range == old(self).visible_range,
    {
        self.has_changed = false;
    }

    /// Handle keyboard input by inserting char at current cursor_pos
    pub fn insert_char(&mut self, c: char)
        ensures
            (final(self).content(), final(self).cursor_pos as nat) == typed(
                old(self).content(),
                old(self).cursor_pos as nat,
                c,
            ),
            final(self).has_changed,
            final(self).is_multiline == old(self).is_multiline,
            final(self).insert_mode == old(self).insert_mode,
            final(self).debug == old(self).debug,
            final(self).visible_range == old(self).visible_range,
    {
        self.has_changed = true;
        if self.cursor_pos == self.text.len() {
            // cursor is at the end. add there.
            self.text.push(c);
            self.cursor_pos = self.text.len();
        } else if self.cursor_pos < self.text.len() {
            // insert at cursor
            self.text.insert(self.cursor_pos, c);
            self.cursor_pos = self.cursor_pos + 1;
        }
    }

    /// Handle the backspace key: delete the character left of the cursor
    pub fn delete_char(&mut self)
        requires
            can_erase(old(self).content(), old(self).cursor_pos as nat),
        ensures
            (final(self).content(), final(self).cursor_pos as nat) == erased(
                old(self).content(),
                old(self).cursor_pos as nat,
            ),
            final(self).has_changed,
            final(self).is_multiline == old(self).is_multiline,
            final(self).insert_mode == old(self).insert_mode,
            final(self).debug == old(self).debug,
            final(self).visible_range == old(self).visible_range,
    {
        self.has_changed = true;
        if self.text.len() == 0 || self.cursor_pos == 0 {
            return;
        }
        self.text.remove(self.cursor_pos - 1);
        self.cursor_pos = self.cursor_pos - 1;
    }

    /// Move the cursor `shift` places (left when negative), keeping it within the text
    pub fn move_cursor(&mut self, shift: i32)
        ensures
            final(self).cursor_pos as nat == shifted(
                old(self).content().len(),
                old(self).cursor_pos as nat,
                shift as int,
            ),
            final(self).has_changed,
            final(self).content() == old(self).content(),
            final(self).is_multiline == old(self).is_multiline,
            final(self).insert_mode == old(self).insert_mode,
            final(self).debug == old(self).debug,
            final(self).visible_range == old(self).visible_range,
    {
        self.has_changed = true;
        let len = self.text.len();
        if shift < 0 {
            let back: usize = (0i64 - shift as i64) as usize;
            if self.cursor_pos <= back {
                self.cursor_pos = 0;
            } else if self.cursor_pos - back > len {
                self.cursor_pos = len;
            } else {
                self.cursor_pos = self.cursor_pos - back;
            }
        } else {
            let ahead: usize = shift as usize;
            if self.cursor_pos >= len || len - self.cursor_pos <= ahead {
                self.cursor_pos = len;
            } else {
                self.cursor_pos = self.cursor_pos + ahead;
            }
        }
    }

    /// The text in the visible range
    pub fn get_visible_text(&self) -> (res: Option<String>)
        requires
            self.visible_range.start <= self.visible_range.end <= self.content().len(),
        ensures
            res matches Some(s) && s@ == self.content().subrange(
                self.visible_range.start as int,
                self.visible_range.end as int,
            ),
    {
        Some(string_from_range(self.text.as_slice(), self.visible_range.start, self.visible_range.end))
    }
}

impl Default for EditorContext {
    fn default() -> (res: Self)
        ensures
            res.content() == Seq::<char>::empty(),
            !res.is_multiline,
            res.cursor_pos == 0,
            res.has_changed,
            res.insert_mode == InsertMode::Start(false),
            !res.debug,
            res.visible_range.start == 0,
            res.visible_range.end == 1,
    {
        EditorContext {
            is_multiline: false,
            text: Vec::new(),
            cursor_pos: 0,
            has_changed: true,
            insert_mode: InsertMode::Start(false),
            debug: false,
            visible_range: 0..1,
        }
    }
}

/// Typing a character and then pressing backspace gives back the text and the cursor
/// position from before, wherever the cursor stands within the text.
pub proof fn lemma_type_then_erase(text: Seq<char>, cursor: nat, c: char)
    requires
        cursor <= text.len(),
    ensures
        erased(typed(text, cursor, c).0, typed(text, cursor, c).1) == (text, cursor),
{
    if cursor == text.len() {
        assert(text.push(c).remove(cursor as int) =~= text);
    } else {
        assert(text.insert(cursor as int, c).remove(cursor as int) =~= text);
    }
}

/// Typing keeps a cursor that lies within the text within the text, and a typed
/// character lands at the cursor's old position, which the cursor then passes.
pub proof fn lemma_typed_within_bounds(text: Seq<char>, cursor: nat, c: char)
    requires
        cursor <= text.len(),
    ensures
        typed(text, cursor, c).0.len() == text.len() + 1,
        typed(text, cursor, c).0[cursor as int] == c,
        typed(text, cursor, c).1 == cursor + 1,
        typed(text, cursor, c).1 <= typed(text, cursor, c).0.len(),
        typed(text, cursor, c).0.subrange(0, cursor as int) == text.subrange(0, cursor as int),
        typed(text, cursor, c).0.subrange(cursor + 1int, text.len() + 1int) == text.subrange(
            cursor as int,
            text.len() as int,
        ),
{
    assert(typed(text, cursor, c).0.subrange(0, cursor as int) =~= text.subrange(0, cursor as int));
    assert(typed(text, cursor, c).0.subrange(cursor + 1int, text.len() + 1int) =~= text.subrange(
        cursor as int,
        text.len() as int,
    ));
}

/// A backspace keeps a cursor that lies within the text within the text, and removes
/// exactly the character left of the cursor unless the text is empty or the cursor at
/// the start.
pub proof fn lemma_erased_within_bounds(text: Seq<char>, cursor: nat)
    requires
        cursor <= text.len(),
    ensures
        erased(text, cursor).1 <= erased(text, cursor).0.len(),
        (text.len() > 0 && cursor > 0) ==> erased(text, cursor).0.len() == text.len() - 1
            && erased(text, cursor).0 == text.subrange(0, cursor - 1) + text.subrange(
            cursor as int,
            text.len() as int,
        ),
        (text.len() == 0 || cursor == 0) ==> erased(text, cursor) == (text, cursor),
{
    if text.len() > 0 && cursor > 0 {
        assert(text.remove(cursor - 1) =~= text.subrange(0, cursor - 1) + text.subrange(
            cursor as int,
            text.len() as int,
        ));
    }
}

/// Moving the cursor keeps it within the text; a move by zero keeps a cursor that lies
/// within the text in place; a move right followed by the same move left comes back to
/// where it started when the text had room, and so does a move left followed by a move
/// right.
pub proof fn lemma_shift_round_trip(len: nat, cursor: nat, n: nat)
    requires
        cursor <= len,
    ensures
        shifted(len, cursor, n as int) <= len,
        shifted(len, cursor, -n) <= len,
        shifted(len, cursor, 0) == cursor,
        cursor + n <= len ==> shifted(len, shifted(len, cursor, n as int), -n) == cursor,
        cursor >= n ==> shifted(len, shifted(len, cursor, -n), n as int) == cursor,
        cursor + n <= len ==> shifted(len, cursor, n as int) == cursor + n,
        cursor >= n ==> shifted(len, cursor, -n) == cursor - n,
        cursor + n > len ==> shifted(len, cursor, n as int) == len,
        cursor < n ==> shifted(len, cursor, -n) == 0,
{
}

} // verus!
