//! Keyboard commands and the values that input controls report.
use vstd::prelude::*;

verus! {

/// The command keys that the controls react to; every other key is `Other`.
#[derive(Clone, Copy, Debug, PartialEq, Eq, Structural)]
pub enum Key {
    /// Backspace
    Back,
    /// Left arrow
    Left,
    /// Right arrow
    Right,
    /// Tab
    Tab,
    /// Return / Enter
    Return,
    /// Escape
    Escape,
    /// Any other key
    Other,
}

/// Top-down notifications of the view lifecycle
#[derive(Clone, Copy, Debug, PartialEq, Eq, Structural)]
pub enum DisplayEvent {
    /// The control gains the focus
    Activate,
    /// The control loses the focus
    Deactivate,
    /// The view hierarchy has been loaded
    Ready,
    /// A move of the parent scene has completed
    Moved,
}

/// Enum used as return type for the get_field_value() method of controls to wrap the value
/// of the field
#[derive(Clone, Debug, PartialEq)]
pub enum FieldValue {
    /// Return type if the field has no value, such as no selection in listbox. Different from empty string
    Empty,
    /// String value of a field
    Text(String),
    /// One or more selection indexes from a listbox or similar array
    Selections(Vec<usize>),
    /// Checkbox value
    Checkbox(bool),
}

/// Whether a character is an ASCII control character (U+0000 to U+001F, or U+007F).
pub open spec fn is_ascii_control_char(c: char) -> bool {
    (c as u32) <= 0x1f || (c as u32) == 0x7f
}

/// Whether a character is ASCII (U+0000 to U+007F).
pub open spec fn is_ascii_char(c: char) -> bool {
    (c as u32) <= 0x7f
}

/// Whether a character is an ASCII control character (U+0000 to U+001F, or U+007F).
pub fn char_is_ascii_control(c: char) -> (res: bool)
    ensures
        res == is_ascii_control_char(c),
{
    let code = c as u32;
    code <= 0x1f || code == 0x7f
}

/// Whether a character is ASCII (U+0000 to U+007F).
pub fn char_is_ascii(c: char) -> (res: bool)
    ensures
        res == is_ascii_char(c),
{
    (c as u32) <= 0x7f
}

/// The characters that a text field or area accepts when typed, those that are ASCII and
/// not control characters, are exactly the printable ASCII characters: the space
/// (U+0020) through the tilde (U+007E). Every code up to U+001F and U+007F is a control
/// character; every code from U+0080 on is not ASCII.
pub proof fn lemma_typed_chars_are_printable_ascii(c: char)
    ensures
        (!is_ascii_control_char(c) && is_ascii_char(c)) <==> (0x20 <= (c as u32) && (c as u32) <= 0x7e),
        (c as u32) <= 0x1f ==> is_ascii_control_char(c),
        (c as u32) == 0x7f ==> is_ascii_control_char(c),
        (0x20 <= (c as u32) && (c as u32) <= 0x7e) ==> !is_ascii_control_char(c),
        (c as u32) >= 0x80 ==> !is_ascii_char(c) && !is_ascii_control_char(c),
{
}

} // verus!
