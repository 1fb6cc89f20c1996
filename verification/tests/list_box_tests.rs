use tweek::layer::MouseState;
use tweek::list_box::{update_row, AnimationStatus, ListBox, ListBoxState, RowEffect, RowState, RowUpdate};

fn list(rows: &[&str]) -> ListBox {
    let mut list = ListBox::new();
    list.set_datasource(rows.iter().map(|s| s.to_string()).collect());
    list
}

fn states(list: &ListBox) -> Vec<(MouseState, bool)> {
    list.datasource.iter().map(|r| (r.row_state, r.highlighted)).collect()
}

#[test]
fn datasource_rows_are_appended_idle() {
    let mut l = list(&["one", "two"]);
    l.set_datasource(vec!["three".to_string()]);
    assert_eq!(l.row_count(), 3);
    let texts: Vec<String> = l.datasource.iter().map(|r| r.text.clone()).collect();
    assert_eq!(texts, vec!["one".to_string(), "two".to_string(), "three".to_string()]);
    assert!(l.datasource.iter().all(|r| r.row_state == MouseState::Idle && !r.highlighted));
}

#[test]
fn hovering_a_row_records_it() {
    let mut l = list(&["a", "b", "c"]);
    assert!(l.handle_mouse_at(Some(1)));
    assert_eq!(l.hover_row, Some(1));
    assert_eq!(l.mouse_state, MouseState::Hover);
    assert!(!l.handle_mouse_at(Some(7)));
    assert_eq!(l.hover_row, Some(1));
    assert!(!l.handle_mouse_at(None));
    assert_eq!(l.hover_row, None);
    assert_eq!(l.mouse_state, MouseState::Idle);
}

#[test]
fn pressing_a_row_selects_and_highlights_it() {
    let mut l = list(&["a", "b", "c"]);
    assert!(l.handle_mouse_down(Some(2), true));
    assert_eq!(l.select_row, Some(2));
    assert_eq!(
        states(&l),
        vec![(MouseState::Idle, false), (MouseState::Idle, false), (MouseState::Select, true)]
    );
}

#[test]
fn single_select_press_clears_previous_highlight() {
    let mut l = list(&["a", "b", "c"]);
    l.handle_mouse_down(Some(0), true);
    l.handle_mouse_down(Some(1), true);
    assert_eq!(
        states(&l),
        vec![(MouseState::Idle, false), (MouseState::Select, true), (MouseState::Idle, false)]
    );
}

#[test]
fn multi_select_press_keeps_previous_highlight() {
    let mut l = list(&["a", "b", "c"]);
    l.multiselect = true;
    l.handle_mouse_down(Some(0), true);
    l.handle_mouse_down(Some(1), true);
    assert_eq!(
        states(&l),
        vec![(MouseState::Select, true), (MouseState::Select, true), (MouseState::Idle, false)]
    );
}

#[test]
fn press_outside_the_rows_selects_nothing() {
    let mut l = list(&["a"]);
    assert!(!l.handle_mouse_down(None, true));
    assert!(!l.handle_mouse_down(Some(3), true));
    assert_eq!(l.select_row, None);
}

#[test]
fn press_without_row_templates_only_records_selection() {
    let mut l = list(&["a", "b"]);
    assert!(l.handle_mouse_down(Some(1), false));
    assert_eq!(l.select_row, Some(1));
    assert_eq!(states(&l), vec![(MouseState::Idle, false), (MouseState::Idle, false)]);
}

#[test]
fn row_step_cases() {
    // hovered row becomes hover
    assert_eq!(
        update_row(1, Some(9), Some(1), MouseState::Idle, AnimationStatus::Absent),
        RowUpdate { mouse_state: MouseState::Hover, effect: RowEffect::ShowHover, clear_selection: false }
    );
    // a row no longer hovered goes back to idle
    assert_eq!(
        update_row(2, Some(9), Some(1), MouseState::Hover, AnimationStatus::Absent),
        RowUpdate { mouse_state: MouseState::Idle, effect: RowEffect::RestoreDefaults, clear_selection: false }
    );
    // hovered selected row turns selected
    assert_eq!(
        update_row(1, Some(1), Some(1), MouseState::Hover, AnimationStatus::Absent),
        RowUpdate { mouse_state: MouseState::Select, effect: RowEffect::ShowSelect, clear_selection: false }
    );
    // selected row waits for its animation, then clears the selection
    assert_eq!(
        update_row(1, Some(1), Some(1), MouseState::Select, AnimationStatus::Running),
        RowUpdate { mouse_state: MouseState::Select, effect: RowEffect::Nothing, clear_selection: false }
    );
    assert_eq!(
        update_row(1, Some(1), Some(1), MouseState::Select, AnimationStatus::Completed),
        RowUpdate { mouse_state: MouseState::Idle, effect: RowEffect::ClearAnimation, clear_selection: true }
    );
}

#[test]
fn update_rows_clears_selection_when_animation_completes() {
    let mut l = list(&["a", "b", "c", "d"]);
    l.handle_mouse_at(Some(3));
    l.handle_mouse_down(Some(2), true);
    let rows = vec![
        (MouseState::Hover, AnimationStatus::Absent),
        (MouseState::Select, AnimationStatus::Completed),
        (MouseState::Idle, AnimationStatus::Absent),
    ];
    let updates = l.update_rows(1, &rows);
    assert_eq!(updates.len(), 3);
    assert_eq!(updates[0].effect, RowEffect::RestoreDefaults);
    assert!(updates[1].clear_selection);
    assert_eq!(updates[2].mouse_state, MouseState::Hover);
    assert_eq!(l.select_row, None);
}

#[test]
fn list_states_are_distinct() {
    assert_ne!(ListBoxState::Idle, ListBoxState::Selected);
    assert_ne!(RowState::Normal, RowState::Hover);
}

#[test]
fn rows_past_the_data_are_neither_selected_nor_hovered() {
    let mut l = list(&["a", "b"]);
    // no selection, no hover: the template row past the data stays as it is
    let rows = vec![
        (MouseState::Idle, AnimationStatus::Absent),
        (MouseState::Idle, AnimationStatus::Absent),
        (MouseState::Idle, AnimationStatus::Absent),
        (MouseState::Hover, AnimationStatus::Absent),
    ];
    let updates = l.update_rows(0, &rows);
    assert_eq!(updates[3].mouse_state, MouseState::Idle);
    assert_eq!(updates[3].effect, RowEffect::RestoreDefaults);
    assert!(updates.iter().all(|u| !u.clear_selection));
    assert_eq!(
        update_row(3, None, None, MouseState::Idle, AnimationStatus::Absent),
        RowUpdate { mouse_state: MouseState::Idle, effect: RowEffect::Nothing, clear_selection: false }
    );
}

#[test]
fn update_with_an_offset_near_the_largest_index() {
    let mut l = list(&["a"]);
    let rows = vec![(MouseState::Hover, AnimationStatus::Absent), (MouseState::Hover, AnimationStatus::Absent)];
    let updates = l.update_rows(usize::MAX, &rows);
    assert_eq!(updates.len(), 2);
    assert!(updates.iter().all(|u| u.mouse_state == MouseState::Idle));
}
