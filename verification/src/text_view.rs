//! Text: a static text view, its alignment, and the field values that a parent hands to it.
use vstd::prelude::*;
use crate::gui_types::GuiType;
use crate::input::FieldValue;
use crate::layer::Layer;
use crate::tools::{TextAlign, VertAlign};

verus! {

/// A view that displays a string
pub struct Text {
    /// The base layer
    pub layer: Layer,
    /// Is the text wrapped over several lines?
    pub multiline: bool,
    /// The string to display
    pub text: String,
    /// Horizontal alignment
    pub text_align: TextAlign,
    /// Vertical alignment
    pub vert_align: VertAlign,
    /// Is a rendering of the current text cached?
    pub is_rendered: bool,
}

impl Text {
    /// Constructor: single-line, left-aligned and vertically centered, not rendered yet
    pub fn new(text: &str) -> (res: Self)
        ensures
            res.text@ == text@,
            !res.multiline,
            res.text_align == TextAlign::Left,
            res.vert_align == VertAlign::Middle,
            !res.is_rendered,
            res.layer.type_id == GuiType::Text,
            res.layer.id == 0,
    {
        let mut layer = Layer::new();
        layer.type_id = GuiType::Text;
        Text {
            layer,
            multiline: false,
            text: text.to_owned(),
            text_align: TextAlign::Left,
            vert_align: VertAlign::Middle,
            is_rendered: false,
        }
    }

    /// Set the string text; a different text drops the cached rendering
    pub fn set_text(&mut self, text: String)
        ensures
            final(self).text@ == text@,
            final(self).is_rendered == (old(self).is_rendered && old(self).text@ == text@),
            final(self).layer.id == old(self).layer.id,
            final(self).layer.type_id == old(self).layer.type_id,
            final(self).text_align == old(self).text_align,
            final(self).vert_align == old(self).vert_align,
    {
        if self.text != text {
            self.is_rendered = false;
            self.text = text;
        }
    }

    /// Getter for the text string
    pub fn get_text(&self) -> (res: &String)
        ensures
            res@ == self.text@,
    {
        &self.text
    }

    /// Set the horizontal alignment
    pub fn text_align(&mut self, align: TextAlign)
        ensures
            final(self).text_align == align,
            final(self).text@ == old(self).text@,
            final(self).is_rendered == old(self).is_rendered,
            final(self).vert_align == old(self).vert_align,
    {
        self.text_align = align;
    }

    /// A value handed down for the object of this kind and id: a text value addressed to
    /// this view replaces its text. Returns whether the value was taken.
    pub fn set_field_value(&mut self, value: &FieldValue, type_id: GuiType, layer_id: u32) -> (res: bool)
        ensures
            res == (type_id == old(self).layer.type_id && layer_id == old(self).layer.id && value is Text),
            res ==> (value matches FieldValue::Text(t) && final(self).text@ == t@),
            !res ==> final(self).text@ == old(self).text@ && final(self).is_rendered == old(self).is_rendered,
            final(self).layer.id == old(self).layer.id,
            final(self).layer.type_id == old(self).layer.type_id,
    {
        if type_id == self.layer.type_id && layer_id == self.layer.get_id() {
            match value {
                FieldValue::Text(text) => {
                    self.set_text(text.clone());
                    return true;
                },
                _ => {},
            }
        }
        false
    }
}

} // verus!
