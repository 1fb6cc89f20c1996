//! ListBox: its rows of data, which row the mouse hovers and which one is selected, and the
//! per-frame hover and selection effects of the visible rows.
use vstd::prelude::*;
use crate::layer::MouseState;

verus! {

/// The states of a ListBox as a whole
#[derive(Copy, Clone, Debug, PartialEq, Eq, Structural)]
pub enum ListBoxState {
    /// User is idle
    Idle,
    /// Scrolling underway and selecting not allowed.
    Scrolling,
    /// At least one row has been selected
    Selected,
    /// The listbox is not the currently focused control
    Unfocused,
}

/// The display states of a row
#[derive(Copy, Clone, Debug, PartialEq, Eq, Structural)]
pub enum RowState {
    /// Default state
    Normal,
    /// Row shows hover state
    Hover,
    /// Row is selected/highlighted
    Selected,
}

/// A wrapper for holding data for each row
pub struct RowData {
    /// The string value
    pub text: String,
    /// Current mouse state
    pub row_state: MouseState,
    /// Whether the row carries its own selection highlight (the layer that animates it)
    pub highlighted: bool,
}

impl RowData {
    /// Constructor
    pub fn new(text: String) -> (res: Self)
        ensures
            res.text@ == text@,
            res.row_state == MouseState::Idle,
            !res.highlighted,
    {
        RowData { text, row_state: MouseState::Idle, highlighted: false }
    }
}

/// The status of the animation that a visible row is running
#[derive(Copy, Clone, Debug, PartialEq, Eq, Structural)]
pub enum AnimationStatus {
    /// The row has no animation
    Absent,
    /// The row's animation is running
    Running,
    /// The row's animation has completed
    Completed,
}

/// What the owner of a visible row has to show for it in this frame
#[derive(Copy, Clone, Debug, PartialEq, Eq, Structural)]
pub enum RowEffect {
    /// Nothing changes
    Nothing,
    /// Play (or apply) the selection effect
    ShowSelect,
    /// Play (or apply) the hover effect
    ShowHover,
    /// Put the row's default props back and drop its animation
    RestoreDefaults,
    /// Drop the row's animation
    ClearAnimation,
}

/// The new state of a visible row, the effect to show, and whether the selection ends
#[derive(Copy, Clone, Debug, PartialEq, Eq, Structural)]
pub struct RowUpdate {
    /// The row's new mouse state
    pub mouse_state: MouseState,
    /// The effect to show
    pub effect: RowEffect,
    /// Whether the list box's selection is cleared
    pub clear_selection: bool,
}

/// Whether the row at `position` is the one that `index` names (none when `index` is `None`).
pub open spec fn is_row(position: int, index: Option<usize>) -> bool {
    index matches Some(k) && k == position
}

/// One frame's update of the visible row at `position`: a hovered row that is the
/// selected one turns selected; a selected row drops its selection once its animation is
/// over (clearing the list's selection when it completed); an idle row that is the hovered
/// one starts hovering; a hovered row that is neither goes back to idle.
pub open spec fn row_step(
    position: int,
    select: Option<usize>,
    hover: Option<usize>,
    state: MouseState,
    animation: AnimationStatus,
) -> RowUpdate {
    if is_row(position, select) {
        match state {
            MouseState::Select => match animation {
                AnimationStatus::Running => RowUpdate {
                    mouse_state: state,
                    effect: RowEffect::Nothing,
                    clear_selection: false,
                },
                AnimationStatus::Completed => RowUpdate {
                    mouse_state: MouseState::Idle,
                    effect: RowEffect::ClearAnimation,
                    clear_selection: true,
                },
                AnimationStatus::Absent => RowUpdate {
                    mouse_state: MouseState::Idle,
                    effect: RowEffect::ClearAnimation,
                    clear_selection: false,
                },
            },
            MouseState::Hover => RowUpdate {
                mouse_state: MouseState::Select,
                effect: RowEffect::ShowSelect,
                clear_selection: false,
            },
            _ => RowUpdate { mouse_state: state, effect: RowEffect::Nothing, clear_selection: false },
        }
    } else if is_row(position, hover) {
        match state {
            MouseState::Idle => RowUpdate {
                mouse_state: MouseState::Hover,
                effect: RowEffect::ShowHover,
                clear_selection: false,
            },
            _ => RowUpdate { mouse_state: state, effect: RowEffect::Nothing, clear_selection: false },
        }
    } else {
        match state {
            MouseState::Hover => RowUpdate {
                mouse_state: MouseState::Idle,
                effect: RowEffect::RestoreDefaults,
                clear_selection: false,
            },
            _ => RowUpdate { mouse_state: state, effect: RowEffect::Nothing, clear_selection: false },
        }
    }
}

/// One frame's update of the visible row at `position`, given the selected row and the
/// hovered row, if any.
pub fn update_row(
    position: usize,
    select: Option<usize>,
    hover: Option<usize>,
    state: MouseState,
    animation: AnimationStatus,
) -> (res: RowUpdate)
    ensures
        res == row_step(position as int, select, hover, state, animation),
{
    let unchanged = RowUpdate { mouse_state: state, effect: RowEffect::Nothing, clear_selection: false };
    if select == Some(position) {
        match state {
            MouseState::Select => match animation {
                AnimationStatus::Running => unchanged,
                AnimationStatus::Completed => RowUpdate {
                    mouse_state: MouseState::Idle,
                    effect: RowEffect::ClearAnimation,
                    clear_selection: true,
                },
                AnimationStatus::Absent => RowUpdate {
                    mouse_state: MouseState::Idle,
                    effect: RowEffect::ClearAnimation,
                    clear_selection: false,
                },
            },
            MouseState::Hover => RowUpdate {
                mouse_state: MouseState::Select,
                effect: RowEffect::ShowSelect,
                clear_selection: false,
            },
            _ => unchanged,
        }
    } else if hover == Some(position) {
        match state {
            MouseState::Idle => RowUpdate {
                mouse_state: MouseState::Hover,
                effect: RowEffect::ShowHover,
                clear_selection: false,
            },
            _ => unchanged,
        }
    } else {
        match state {
            MouseState::Hover => RowUpdate {
                mouse_state: MouseState::Idle,
                effect: RowEffect::RestoreDefaults,
                clear_selection: false,
            },
            _ => unchanged,
        }
    }
}

/// The row state and highlight after a press selects row `index`: unless the list is
/// multi-select, every highlighted row loses its highlight and goes idle; then, when the
/// list has its row templates, the pressed row turns selected and highlighted unless it
/// already is selected.
pub open spec fn pressed_row(
    row: (MouseState, bool),
    is_pressed: bool,
    multiselect: bool,
    has_rows: bool,
) -> (MouseState, bool) {
    let mid = if !multiselect && row.1 {
        (MouseState::Idle, false)
    } else {
        row
    };
    if is_pressed && has_rows && mid.0 != MouseState::Select {
        (MouseState::Select, true)
    } else {
        mid
    }
}

/// The state and highlight of a row
pub open spec fn row_view(r: RowData) -> (MouseState, bool) {
    (r.row_state, r.highlighted)
}

/// A vertical list of rows with hover and selection
pub struct ListBox {
    /// The index of the currently hovered row
    pub hover_row: Option<usize>,
    /// The index of the currently selected row
    pub select_row: Option<usize>,
    /// Is it single select or multiple?
    pub multiselect: bool,
    /// The mouse state of the list box itself
    pub mouse_state: MouseState,
    /// The rows of data
    pub datasource: Vec<RowData>,
}

impl ListBox {
    /// Constructor
    pub fn new() -> (res: Self)
        ensures
            res.hover_row is None,
            res.select_row is None,
            !res.multiselect,
            res.mouse_state == MouseState::Idle,
            res.datasource@.len() == 0,
    {
        ListBox {
            hover_row: None,
            select_row: None,
            multiselect: false,
            mouse_state: MouseState::Idle,
            datasource: Vec::new(),
        }
    }

    /// Load datasource with a row for each string, after the rows already there
    pub fn set_datasource(&mut self, values: Vec<String>)
        ensures
            final(self).datasource@.len() == old(self).datasource@.len() + values@.len(),
            forall|i: int|
                0 <= i < old(self).datasource@.len() ==> final(self).datasource@[i] == old(self).datasource@[i],
            forall|i: int|
                0 <= i < values@.len() ==> {
                    let r = #[trigger] final(self).datasource@[old(self).datasource@.len() + i];
                    r.text@ == values@[i]@ && r.row_state == MouseState::Idle && !r.highlighted
                },
            final(self).hover_row == old(self).hover_row,
            final(self).select_row == old(self).select_row,
            final(self).multiselect == old(self).multiselect,
            final(self).mouse_state == old(self).mouse_state,
    {
        let ghost start = self.datasource@;
        let mut values = values;
        let ghost all = values@;
        let mut taken: Vec<String> = Vec::new();
        let mut i: usize = 0;
        let n = values.len();
        // take the strings out from the back, then add them in order
        while values.len() > 0
            invariant
                values@.len() + taken@.len() == n,
                n == all.len(),
                forall|k: int| 0 <= k < values@.len() ==> values@[k] == all[k],
                forall|k: int| 0 <= k < taken@.len() ==> taken@[k] == all[n - 1 - k],
                self.datasource@ == start,
            decreases values@.len(),
        {
            let s = values.pop().unwrap();
            taken.push(s);
        }
        while i < n
            invariant
                i <= n,
                n == all.len(),
                taken@.len() == n - i,
                forall|k: int| 0 <= k < taken@.len() ==> taken@[k] == all[n - 1 - k],
                self.datasource@.len() == start.len() + i,
                forall|k: int| 0 <= k < start.len() ==> self.datasource@[k] == start[k],
                forall|k: int|
                    0 <= k < i ==> {
                        let r = #[trigger] self.datasource@[start.len() + k];
                        r.text@ == all[k]@ && r.row_state == MouseState::Idle && !r.highlighted
                    },
                self.hover_row == old(self).hover_row,
                self.select_row == old(self).select_row,
                self.multiselect == old(self).multiselect,
                self.mouse_state == old(self).mouse_state,
                start == old(self).datasource@,
            decreases n - i,
        {
            let s = taken.pop().unwrap();
            self.datasource.push(RowData::new(s));
            i = i + 1;
        }
    }

    /// The number of rows of data
    pub fn row_count(&self) -> (res: usize)
        ensures
            res == self.datasource@.len(),
    {
        self.datasource.len()
    }

    /// The mouse moved. `row` is `None` when the point is outside the list's frame, and
    /// otherwise the index of the row under it (counting from the first row of data). Inside
    /// the frame the list hovers and, over a row of data, that row becomes the hovered one;
    /// outside, nothing is hovered. Returns whether a row of data is under the mouse.
    pub fn handle_mouse_at(&mut self, row: Option<usize>) -> (res: bool)
        ensures
            res == (row matches Some(i) && i < old(self).datasource@.len()),
            row is Some ==> final(self).mouse_state == MouseState::Hover,
            row is None ==> final(self).mouse_state == MouseState::Idle,
            final(self).hover_row == (match row {
                Some(i) => if i < old(self).datasource@.len() {
                    Some(i)
                } else {
                    old(self).hover_row
                },
                None => None,
            }),
            final(self).select_row == old(self).select_row,
            final(self).multiselect == old(self).multiselect,
            final(self).datasource@ == old(self).datasource@,
    {
        match row {
            Some(index) => {
                self.mouse_state = MouseState::Hover;
                if index < self.datasource.len() {
                    self.hover_row = Some(index);
                    return true;
                }
                false
            },
            None => {
                self.mouse_state = MouseState::Idle;
                self.hover_row = None;
                false
            },
        }
    }

    /// A mouse press. `row` is `None` when the point is outside the list's frame, and
    /// otherwise the index of the row under it. A press on a row of data selects it (see
    /// `pressed_row` for what happens to the rows' states); `has_rows` tells whether the
    /// list has built its row templates. Returns whether a row was selected.
    pub fn handle_mouse_down(&mut self, row: Option<usize>, has_rows: bool) -> (res: bool)
        ensures
            res == (row matches Some(i) && i < old(self).datasource@.len()),
            res ==> final(self).select_row == row,
            !res ==> final(self).select_row == old(self).select_row,
            final(self).datasource@.len() == old(self).datasource@.len(),
            forall|j: int|
                0 <= j < old(self).datasource@.len() ==> (#[trigger] final(self).datasource@[j]).text
                    == old(self).datasource@[j].text,
            forall|j: int|
                0 <= j < old(self).datasource@.len() ==> row_view(#[trigger] final(self).datasource@[j])
                    == if res {
                    pressed_row(
                        row_view(old(self).datasource@[j]),
                        row == Some(j as usize),
                        old(self).multiselect,
                        has_rows,
                    )
                } else {
                    row_view(old(self).datasource@[j])
                },
            final(self).hover_row == old(self).hover_row,
            final(self).multiselect == old(self).multiselect,
            final(self).mouse_state == old(self).mouse_state,
    {
        let index = match row {
            Some(i) => i,
            None => {
                return false;
            },
        };
        if index >= self.datasource.len() {
            return false;
        }
        self.select_row = Some(index);
        let mut k: usize = 0;
        while k < self.datasource.len()
            invariant
                k <= self.datasource@.len(),
                index < self.datasource@.len(),
                row == Some(index),
                self.datasource@.len() == old(self).datasource@.len(),
                self.multiselect == old(self).multiselect,
                self.hover_row == old(self).hover_row,
                self.mouse_state == old(self).mouse_state,
                self.select_row == row,
                forall|j: int| 0 <= j < self.datasource@.len() ==> (#[trigger] self.datasource@[j]).text
                    == old(self).datasource@[j].text,
                forall|j: int|
                    0 <= j < k ==> row_view(#[trigger] self.datasource@[j]) == pressed_row(
                        row_view(old(self).datasource@[j]),
                        false,
                        old(self).multiselect,
                        has_rows,
                    ),
                forall|j: int|
                    k <= j < self.datasource@.len() ==> #[trigger] self.datasource@[j] == old(self).datasource@[j],
            decreases self.datasource@.len() - k,
        {
            if !self.multiselect && self.datasource[k].highlighted {
                let mut data = self.datasource.remove(k);
                data.highlighted = false;
                data.row_state = MouseState::Idle;
                self.datasource.insert(k, data);
            }
            k = k + 1;
        }
        if has_rows {
            if self.datasource[index].row_state != MouseState::Select {
                let mut data = self.datasource.remove(index);
                data.row_state = MouseState::Select;
                data.highlighted = true;
                self.datasource.insert(index, data);
            }
        }
        true
    }

    /// One frame's update of the visible rows: `rows[i]` is the mouse state and animation
    /// status of the visible row `i`, which shows the data row `offset + i`. The selection is
    /// cleared when a selected row's animation has completed.
    pub fn update_rows(&mut self, offset: usize, rows: &Vec<(MouseState, AnimationStatus)>) -> (res: Vec<RowUpdate>)
        ensures
            res@.len() == rows@.len(),
            forall|i: int|
                0 <= i < rows@.len() ==> #[trigger] res@[i] == row_step(
                    offset + i,
                    old(self).select_row,
                    old(self).hover_row,
                    rows@[i].0,
                    rows@[i].1,
                ),
            final(self).select_row == if exists|i: int|
                0 <= i < rows@.len() && (#[trigger] res@[i]).clear_selection {
                None
            } else {
                old(self).select_row
            },
            final(self).hover_row == old(self).hover_row,
            final(self).datasource@ == old(self).datasource@,
            final(self).multiselect == old(self).multiselect,
            final(self).mouse_state == old(self).mouse_state,
    {
        let select = self.select_row;
        let hover = self.hover_row;
        let mut updates: Vec<RowUpdate> = Vec::new();
        let mut i: usize = 0;
        while i < rows.len()
            invariant
                i <= rows@.len(),
                updates@.len() == i,
                select == old(self).select_row,
                hover == old(self).hover_row,
                forall|k: int|
                    0 <= k < i ==> #[trigger] updates@[k] == row_step(offset + k, select, hover, rows@[k].0, rows@[k].1),
                self.select_row == if exists|k: int| 0 <= k < i && (#[trigger] updates@[k]).clear_selection {
                    None
                } else {
                    old(self).select_row
                },
                self.hover_row == old(self).hover_row,
                self.datasource@ == old(self).datasource@,
                self.multiselect == old(self).multiselect,
                self.mouse_state == old(self).mouse_state,
            decreases rows@.len() - i,
        {
            let (state, animation) = rows[i];
            // A position past the largest index names no row.
            let update = match offset.checked_add(i) {
                Some(position) => update_row(position, select, hover, state, animation),
                None => update_row(0, None, None, state, animation),
            };
            assert(update == row_step(offset + i, select, hover, state, animation));
            if update.clear_selection {
                self.select_row = None;
            }
            let ghost prev = updates@;
            updates.push(update);
            proof {
                assert(updates@ == prev.push(update));
                if update.clear_selection {
                    assert(updates@[i as int].clear_selection);
                } else {
                    if exists|k: int| 0 <= k < i && (#[trigger] prev[k]).clear_selection {
                        let k = choose|k: int| 0 <= k < i && (#[trigger] prev[k]).clear_selection;
                        assert(updates@[k].clear_selection);
                    }
                    if exists|k: int| 0 <= k < i + 1 && (#[trigger] updates@[k]).clear_selection {
                        let k = choose|k: int| 0 <= k < i + 1 && (#[trigger] updates@[k]).clear_selection;
                        assert(k < i);
                        assert(prev[k].clear_selection);
                    }
                }
            }
            i = i + 1;
        }
        updates
    }
}

/// A row that is neither the selected nor the hovered one never becomes selected or
/// hovered; a hovered row that the mouse left goes back to idle.
pub proof fn lemma_row_step_other_rows(
    position: int,
    select: Option<usize>,
    hover: Option<usize>,
    state: MouseState,
    animation: AnimationStatus,
)
    requires
        !is_row(position, select),
        !is_row(position, hover),
    ensures
        row_step(position, select, hover, state, animation).mouse_state != MouseState::Hover,
        state != MouseState::Select ==> row_step(position, select, hover, state, animation).mouse_state
            != MouseState::Select,
        !row_step(position, select, hover, state, animation).clear_selection,
{
}

/// Only a selected row whose animation completed ends the list's selection.
pub proof fn lemma_row_step_clears_only_on_completion(
    position: int,
    select: Option<usize>,
    hover: Option<usize>,
    state: MouseState,
    animation: AnimationStatus,
)
    ensures
        row_step(position, select, hover, state, animation).clear_selection <==> (is_row(position, select)
            && state == MouseState::Select && animation == AnimationStatus::Completed),
{
}

/// In a single-select list, after a press selects a row, no other row keeps a highlight;
/// the pressed row is selected and highlighted when the list has its row templates.
pub proof fn lemma_single_select_press(row: (MouseState, bool), is_pressed: bool, has_rows: bool)
    ensures
        !is_pressed ==> !pressed_row(row, is_pressed, false, has_rows).1,
        (is_pressed && has_rows) ==> pressed_row(row, is_pressed, false, has_rows).0 == MouseState::Select,
        (is_pressed && has_rows && (row.1 || row.0 != MouseState::Select)) ==> pressed_row(
            row,
            is_pressed,
            false,
            has_rows,
        ).1,
{
}

/// A frame's update changes a row's mouse state only by one of four steps: idle to hover
/// (the hovered row, when it is not the selected one), hover to select (the selected row),
/// select to idle (the selected row, once its animation is absent or completed), and hover
/// to idle (a row that is neither hovered nor selected).
pub proof fn lemma_row_step_transitions(
    position: int,
    select: Option<usize>,
    hover: Option<usize>,
    state: MouseState,
    animation: AnimationStatus,
)
    ensures
        ({
            let next = row_step(position, select, hover, state, animation).mouse_state;
            ||| next == state
            ||| (state == MouseState::Idle && next == MouseState::Hover && is_row(position, hover)
                && !is_row(position, select))
            ||| (state == MouseState::Hover && next == MouseState::Select && is_row(position, select))
            ||| (state == MouseState::Select && next == MouseState::Idle && is_row(position, select)
                && animation != AnimationStatus::Running)
            ||| (state == MouseState::Hover && next == MouseState::Idle && !is_row(position, hover)
                && !is_row(position, select))
        }),
{
}

/// The selected row in the Select state leaves it as soon as its animation is not running:
/// it goes back to idle and drops its animation, and only a completed animation ends the
/// list's selection. While the animation runs, the row stays selected.
pub proof fn lemma_selected_row_leaves_select(position: usize, hover: Option<usize>, animation: AnimationStatus)
    ensures
        animation != AnimationStatus::Running ==> {
            let u = row_step(position as int, Some(position), hover, MouseState::Select, animation);
            &&& u.mouse_state == MouseState::Idle
            &&& u.effect == RowEffect::ClearAnimation
            &&& u.clear_selection == (animation == AnimationStatus::Completed)
        },
        animation == AnimationStatus::Running ==> row_step(
            position as int,
            Some(position),
            hover,
            MouseState::Select,
            animation,
        ).mouse_state == MouseState::Select,
        row_step(position as int, Some(position), hover, MouseState::Hover, animation).mouse_state
            == MouseState::Select,
{
}

} // verus!
