use tweek::input::FieldValue;
use tweek::option_group::{CheckStyle, Checkbox, OptionGroup};

fn group(multi: bool) -> OptionGroup {
    let mut group = OptionGroup::new();
    group.multi_select = multi;
    group.set_options(vec![("Red", false), ("Green", true), ("Blue", false)]);
    group
}

fn checks(group: &OptionGroup) -> Vec<bool> {
    group.checkboxes.iter().map(|c| c.is_checked).collect()
}

#[test]
fn checkbox_toggles_on_click_inside() {
    let mut cb = Checkbox::new().with_text("Accept", false);
    assert!(cb.handle_mouse_down(true));
    assert!(cb.is_checked);
    assert_eq!(cb.get_field_value(), FieldValue::Checkbox(true));
    assert!(!cb.handle_mouse_down(false));
    assert!(cb.is_checked);
    assert!(cb.handle_mouse_down(true));
    assert!(!cb.is_checked);
    assert_eq!(cb.text, "Accept");
}

#[test]
fn options_are_added_in_order() {
    let group = group(false);
    let texts: Vec<String> = group.checkboxes.iter().map(|c| c.text.clone()).collect();
    assert_eq!(texts, vec!["Red".to_string(), "Green".to_string(), "Blue".to_string()]);
    assert_eq!(checks(&group), vec![false, true, false]);
}

#[test]
fn field_value_lists_checked_indexes() {
    let mut group = group(true);
    assert_eq!(group.get_field_value(), FieldValue::Selections(vec![1]));
    group.handle_mouse_down(true, &vec![false, false, true]);
    assert_eq!(group.get_field_value(), FieldValue::Selections(vec![1, 2]));
}

#[test]
fn single_select_click_leaves_only_clicked_option() {
    let mut group = group(false);
    assert!(group.handle_mouse_down(true, &vec![true, false, false]));
    assert_eq!(checks(&group), vec![true, false, false]);
    assert_eq!(group.get_field_value(), FieldValue::Selections(vec![0]));
}

#[test]
fn single_select_click_on_checked_option_unchecks_all() {
    let mut group = group(false);
    assert!(group.handle_mouse_down(true, &vec![false, true, false]));
    assert_eq!(checks(&group), vec![false, false, false]);
}

#[test]
fn multi_select_click_toggles_only_clicked_option() {
    let mut group = group(true);
    assert!(group.handle_mouse_down(true, &vec![true, false, false]));
    assert_eq!(checks(&group), vec![true, true, false]);
}

#[test]
fn click_outside_group_changes_nothing() {
    let mut group = group(false);
    assert!(!group.handle_mouse_down(false, &vec![true, false, false]));
    assert_eq!(checks(&group), vec![false, true, false]);
}

#[test]
fn click_inside_group_missing_all_options() {
    let mut group = group(false);
    assert!(!group.handle_mouse_down(true, &vec![false, false, false]));
    assert_eq!(checks(&group), vec![false, true, false]);
}

#[test]
fn setting_options_again_replaces_the_list() {
    let mut group = group(false);
    group.set_options(vec![("Yes", true), ("No", false)]);
    let texts: Vec<String> = group.checkboxes.iter().map(|c| c.text.clone()).collect();
    assert_eq!(texts, vec!["Yes".to_string(), "No".to_string()]);
    assert_eq!(checks(&group), vec![true, false]);
}

#[test]
fn options_get_their_position_as_id_and_the_group_style() {
    let mut group = OptionGroup::new();
    assert_eq!(group.check_style, CheckStyle::X);
    group.check_style = CheckStyle::Radio;
    group.set_options(vec![("a", false), ("b", false), ("c", true)]);
    let ids: Vec<u32> = group.checkboxes.iter().map(|c| c.layer.get_id()).collect();
    assert_eq!(ids, vec![0, 1, 2]);
    assert!(group.checkboxes.iter().all(|c| c.check_style == CheckStyle::Radio));
    group.handle_mouse_down(true, &vec![true, false, false]);
    let ids: Vec<u32> = group.checkboxes.iter().map(|c| c.layer.get_id()).collect();
    assert_eq!(ids, vec![0, 1, 2]);
}
