//! Checkboxes and option groups: what a click checks or unchecks, and what they report.
use vstd::prelude::*;
use crate::gui_types::GuiType;
use crate::input::FieldValue;
use crate::layer::Layer;

verus! {

/// The look of a checkbox. A filled box is drawn with an inset margin that the drawing
/// side keeps.
#[derive(Copy, Clone, Debug, PartialEq, Eq, Structural)]
pub enum CheckStyle {
    /// Simple box with X
    X,
    /// A circular radio button
    Radio,
    /// A checkmark. Currently unused
    Check,
    /// A box that is filled with a solid box when checked
    Fill,
}

/// A Checkbox: its layer, a text, whether it is checked, and its look
pub struct Checkbox {
    /// Base layer
    pub layer: Layer,
    /// Text to display next to checkbox
    pub text: String,
    /// Is it checked?
    pub is_checked: bool,
    /// The style of the checkbox: X, radio, check mark, filled
    pub check_style: CheckStyle,
}

impl Checkbox {
    /// Constructor: no text, unchecked, drawn with an X
    pub fn new() -> (res: Self)
        ensures
            res.text@ == Seq::<char>::empty(),
            !res.is_checked,
            res.check_style == CheckStyle::X,
            res.layer.id == 0,
            res.layer.type_id == GuiType::Checkbox,
    {
        let mut layer = Layer::new();
        layer.type_id = GuiType::Checkbox;
        Checkbox { layer, text: String::new(), is_checked: false, check_style: CheckStyle::X }
    }

    /// Builder method to set the text
    pub fn with_text(self, text: &str, is_checked: bool) -> (res: Self)
        ensures
            res.text@ == text@,
            res.is_checked == is_checked,
            res.check_style == self.check_style,
            res.layer.id == self.layer.id,
            res.layer.type_id == self.layer.type_id,
    {
        let mut s = self;
        s.text = text.to_owned();
        s.is_checked = is_checked;
        s
    }

    /// The user input value of the control
    pub fn get_field_value(&self) -> (res: FieldValue)
        ensures
            res == FieldValue::Checkbox(self.is_checked),
    {
        FieldValue::Checkbox(self.is_checked)
    }

    /// A mouse press, `inside` the checkbox's frame or not: a press inside toggles the check.
    pub fn handle_mouse_down(&mut self, inside: bool) -> (res: bool)
        ensures
            res == inside,
            final(self).is_checked == (old(self).is_checked != inside),
            final(self).text@ == old(self).text@,
            final(self).check_style == old(self).check_style,
            final(self).layer.id == old(self).layer.id,
    {
        if inside {
            self.is_checked = !self.is_checked;
            return true;
        }
        false
    }
}

/// The check marks of a sequence of checkboxes.
pub open spec fn check_flags(boxes: Seq<Checkbox>) -> Seq<bool> {
    boxes.map_values(|c: Checkbox| c.is_checked)
}

/// The positions of the checked boxes, in increasing order.
pub open spec fn checked_positions(flags: Seq<bool>) -> Seq<usize>
    decreases flags.len(),
{
    if flags.len() == 0 {
        Seq::empty()
    } else {
        let rest = checked_positions(flags.drop_last());
        if flags.last() {
            rest.push((flags.len() - 1) as usize)
        } else {
            rest
        }
    }
}

/// The last position that a click hit, if any.
pub open spec fn last_hit(hits: Seq<bool>) -> Option<int>
    decreases hits.len(),
{
    if hits.len() == 0 {
        None
    } else if hits.last() {
        Some(hits.len() - 1)
    } else {
        last_hit(hits.drop_last())
    }
}

/// The check marks after a click inside the group: every hit box toggles; then, in
/// single-select mode, every box but the last one hit is unchecked.
pub open spec fn clicked_flags(flags: Seq<bool>, hits: Seq<bool>, multi_select: bool) -> Seq<bool> {
    Seq::new(
        flags.len(),
        |i: int|
            match last_hit(hits) {
                Some(h) => if !multi_select && i != h {
                    false
                } else {
                    flags[i] != hits[i]
                },
                None => flags[i] != hits[i],
            },
    )
}

/// Two checkboxes show the same option: same text, style and id.
pub open spec fn same_option(a: Checkbox, b: Checkbox) -> bool {
    a.text@ == b.text@ && a.check_style == b.check_style && a.layer.id == b.layer.id
}

/// An object containing a collection of Checkbox objects
pub struct OptionGroup {
    /// Is it single or multi select?
    pub multi_select: bool,
    /// The CheckStyle of all included checkboxes
    pub check_style: CheckStyle,
    /// The checkboxes, in display order
    pub checkboxes: Vec<Checkbox>,
}

impl OptionGroup {
    /// Constructor: single select, boxes drawn with an X, no options
    pub fn new() -> (res: Self)
        ensures
            !res.multi_select,
            res.check_style == CheckStyle::X,
            res.checkboxes@.len() == 0,
    {
        OptionGroup { multi_select: false, check_style: CheckStyle::X, checkboxes: Vec::new() }
    }

    /// Set the list of string options and whether any are initially selected: the group
    /// then holds one checkbox per option, in order, in the group's style, each with its
    /// position as its id within the group.
    pub fn set_options(&mut self, options: Vec<(&str, bool)>)
        ensures
            final(self).multi_select == old(self).multi_select,
            final(self).check_style == old(self).check_style,
            final(self).checkboxes@.len() == options@.len(),
            forall|i: int|
                0 <= i < options@.len() ==> {
                    let cb = #[trigger] final(self).checkboxes@[i];
                    &&& cb.text@ == options@[i].0@
                    &&& cb.is_checked == options@[i].1
                    &&& cb.check_style == old(self).check_style
                    &&& cb.layer.id == i as u32
                    &&& cb.layer.type_id == GuiType::Checkbox
                },
    {
        self.checkboxes = Vec::new();
        let mut i: usize = 0;
        while i < options.len()
            invariant
                i <= options@.len(),
                self.multi_select == old(self).multi_select,
                self.check_style == old(self).check_style,
                self.checkboxes@.len() == i,
                forall|k: int|
                    0 <= k < i ==> {
                        let cb = #[trigger] self.checkboxes@[k];
                        &&& cb.text@ == options@[k].0@
                        &&& cb.is_checked == options@[k].1
                        &&& cb.check_style == old(self).check_style
                        &&& cb.layer.id == k as u32
                        &&& cb.layer.type_id == GuiType::Checkbox
                    },
            decreases options@.len() - i,
        {
            let option = options[i];
            let mut checkbox = Checkbox::new().with_text(option.0, option.1);
            // Assign the layer a unique id within the scope of this OptionGroup
            checkbox.layer.set_id(i as u32);
            checkbox.check_style = self.check_style;
            self.checkboxes.push(checkbox);
            i = i + 1;
        }
    }

    /// The indexes of the checked options, in increasing order
    pub fn get_field_value(&self) -> (res: FieldValue)
        ensures
            res matches FieldValue::Selections(v) && v@ == checked_positions(check_flags(self.checkboxes@)),
    {
        let mut results: Vec<usize> = Vec::new();
        let mut i: usize = 0;
        while i < self.checkboxes.len()
            invariant
                i <= self.checkboxes@.len(),
                results@ == checked_positions(check_flags(self.checkboxes@).subrange(0, i as int)),
            decreases self.checkboxes@.len() - i,
        {
            let ghost flags = check_flags(self.checkboxes@);
            assert(flags.subrange(0, i + 1).drop_last() =~= flags.subrange(0, i as int));
            if self.checkboxes[i].is_checked {
                results.push(i);
            }
            i = i + 1;
        }
        assert(check_flags(self.checkboxes@).subrange(0, self.checkboxes@.len() as int) =~= check_flags(
            self.checkboxes@,
        ));
        FieldValue::Selections(results)
    }

    /// A mouse press: `inside` tells whether it is inside the group's frame and `hits[i]`
    /// whether it is inside the frame of checkbox `i`. A press inside toggles every hit
    /// checkbox; when one was hit and the group is single-select, all the others are
    /// unchecked. Returns whether a checkbox was hit.
    pub fn handle_mouse_down(&mut self, inside: bool, hits: &Vec<bool>) -> (res: bool)
        requires
            hits@.len() == old(self).checkboxes@.len(),
        ensures
            res == (inside && last_hit(hits@) is Some),
            final(self).multi_select == old(self).multi_select,
            final(self).checkboxes@.len() == old(self).checkboxes@.len(),
            forall|i: int|
                0 <= i < old(self).checkboxes@.len() ==> same_option(
                    #[trigger] final(self).checkboxes@[i],
                    old(self).checkboxes@[i],
                ),
            inside ==> check_flags(final(self).checkboxes@) == clicked_flags(
                check_flags(old(self).checkboxes@),
                hits@,
                old(self).multi_select,
            ),
            !inside ==> check_flags(final(self).checkboxes@) == check_flags(old(self).checkboxes@),
    {
        if !inside {
            return false;
        }
        let ghost old_flags = check_flags(self.checkboxes@);
        let mut hit_index: Option<usize> = None;
        let mut i: usize = 0;
        while i < self.checkboxes.len()
            invariant
                i <= self.checkboxes@.len(),
                hits@.len() == self.checkboxes@.len(),
                self.checkboxes@.len() == old_flags.len(),
                self.multi_select == old(self).multi_select,
                old_flags == check_flags(old(self).checkboxes@),
                forall|k: int| 0 <= k < self.checkboxes@.len() ==> same_option(
                    #[trigger] self.checkboxes@[k],
                    old(self).checkboxes@[k],
                ),
                forall|k: int| 0 <= k < i ==> #[trigger] self.checkboxes@[k].is_checked == (old_flags[k] != hits@[k]),
                forall|k: int| i <= k < self.checkboxes@.len() ==> #[trigger] self.checkboxes@[k].is_checked == old_flags[k],
                hit_index matches Some(x) ==> last_hit(hits@.subrange(0, i as int)) == Some(x as int),
                hit_index is None ==> last_hit(hits@.subrange(0, i as int)) is None,
            decreases self.checkboxes@.len() - i,
        {
            assert(hits@.subrange(0, i + 1).drop_last() =~= hits@.subrange(0, i as int));
            let mut checkbox = self.checkboxes.remove(i);
            let hit = checkbox.handle_mouse_down(hits[i]);
            self.checkboxes.insert(i, checkbox);
            if hit {
                hit_index = Some(i);
            }
            i = i + 1;
        }
        assert(hits@.subrange(0, hits@.len() as int) =~= hits@);
        proof {
            lemma_last_hit(hits@);
        }
        match hit_index {
            Some(idx) => {
                if !self.multi_select {
                    let mut k: usize = 0;
                    while k < self.checkboxes.len()
                        invariant
                            k <= self.checkboxes@.len(),
                            idx < self.checkboxes@.len(),
                            hits@.len() == self.checkboxes@.len(),
                            self.checkboxes@.len() == old_flags.len(),
                            !self.multi_select,
                            forall|j: int| 0 <= j < self.checkboxes@.len() ==> same_option(
                                #[trigger] self.checkboxes@[j],
                                old(self).checkboxes@[j],
                            ),
                            forall|j: int| 0 <= j < k ==> #[trigger] self.checkboxes@[j].is_checked == (if j
                                == idx {
                                old_flags[j] != hits@[j]
                            } else {
                                false
                            }),
                            forall|j: int| k <= j < self.checkboxes@.len() ==> #[trigger] self.checkboxes@[j].is_checked
                                == (old_flags[j] != hits@[j]),
                        decreases self.checkboxes@.len() - k,
                    {
                        if k != idx {
                            let mut checkbox = self.checkboxes.remove(k);
                            checkbox.is_checked = false;
                            self.checkboxes.insert(k, checkbox);
                        }
                        k = k + 1;
                    }
                }
                assert(check_flags(self.checkboxes@) =~= clicked_flags(old_flags, hits@, self.multi_select));
                true
            },
            None => {
                assert(check_flags(self.checkboxes@) =~= clicked_flags(old_flags, hits@, self.multi_select));
                false
            },
        }
    }
}

/// The last hit position is a hit, and no later position is.
pub proof fn lemma_last_hit(hits: Seq<bool>)
    ensures
        last_hit(hits) matches Some(h) ==> 0 <= h < hits.len() && hits[h] && forall|k: int|
            h < k < hits.len() ==> !hits[k],
        last_hit(hits) is None ==> forall|k: int| 0 <= k < hits.len() ==> !hits[k],
    decreases hits.len(),
{
    if hits.len() > 0 {
        let rest = hits.drop_last();
        lemma_last_hit(rest);
        assert forall|k: int| 0 <= k < rest.len() implies rest[k] == hits[k] by {}
    }
}

/// In a single-select group, a click that hits an option leaves exactly that option in
/// charge: every other option is unchecked.
pub proof fn lemma_single_select_click(flags: Seq<bool>, hits: Seq<bool>)
    requires
        flags.len() == hits.len(),
        last_hit(hits) is Some,
    ensures
        forall|i: int|
            0 <= i < flags.len() && i != last_hit(hits)->0 ==> !#[trigger] clicked_flags(flags, hits, false)[i],
{
}

/// The reported selections are exactly the checked positions, each once, in increasing order.
pub proof fn lemma_checked_positions(flags: Seq<bool>)
    requires
        flags.len() <= usize::MAX,
    ensures
        forall|k: int|
            0 <= k < checked_positions(flags).len() ==> (checked_positions(flags)[k] as int) < flags.len()
                && flags[checked_positions(flags)[k] as int],
        forall|a: int, b: int|
            0 <= a < b < checked_positions(flags).len() ==> checked_positions(flags)[a]
                < checked_positions(flags)[b],
        forall|i: int| 0 <= i < flags.len() && flags[i] ==> checked_positions(flags).contains(i as usize),
    decreases flags.len(),
{
    if flags.len() > 0 {
        let rest = flags.drop_last();
        lemma_checked_positions(rest);
        assert forall|k: int| 0 <= k < rest.len() implies rest[k] == flags[k] by {}
        assert forall|i: int| 0 <= i < flags.len() && flags[i] implies checked_positions(flags).contains(
            i as usize,
        ) by {
            if i < flags.len() - 1 {
                assert(rest[i]);
                let k = choose|k: int| 0 <= k < checked_positions(rest).len() && checked_positions(rest)[k] == i as usize;
                assert(checked_positions(flags)[k] == i as usize);
            } else {
                assert(checked_positions(flags).last() == i as usize);
            }
        }
    }
}

/// In a multi-select group a click inside the group toggles exactly the boxes it hit and
/// leaves the others alone, so clicking the same boxes twice gives back the check marks.
pub proof fn lemma_multi_select_click_toggles(flags: Seq<bool>, hits: Seq<bool>)
    requires
        flags.len() == hits.len(),
    ensures
        clicked_flags(flags, hits, true).len() == flags.len(),
        forall|i: int|
            0 <= i < flags.len() ==> #[trigger] clicked_flags(flags, hits, true)[i] == (flags[i] != hits[i]),
        forall|i: int| 0 <= i < flags.len() && hits[i] ==> #[trigger] clicked_flags(flags, hits, true)[i] == !flags[i],
        forall|i: int| 0 <= i < flags.len() && !hits[i] ==> #[trigger] clicked_flags(flags, hits, true)[i] == flags[i],
        clicked_flags(clicked_flags(flags, hits, true), hits, true) == flags,
{
    assert(clicked_flags(clicked_flags(flags, hits, true), hits, true) =~= flags);
}

/// In a single-select group a click that hits a box toggles the last box hit and unchecks
/// every other box; a click that hits none changes nothing.
pub proof fn lemma_single_select_click_toggles_last(flags: Seq<bool>, hits: Seq<bool>)
    requires
        flags.len() == hits.len(),
    ensures
        last_hit(hits) matches Some(h) ==> clicked_flags(flags, hits, false)[h] == !flags[h]
            && forall|i: int| 0 <= i < flags.len() && i != h ==> !#[trigger] clicked_flags(flags, hits, false)[i],
        last_hit(hits) is None ==> clicked_flags(flags, hits, false) == flags,
{
    lemma_last_hit(hits);
    if last_hit(hits) is None {
        assert(clicked_flags(flags, hits, false) =~= flags);
    }
}

} // verus!
