use tweek::command::NavEvent;
use tweek::navigation::navigate;

#[test]
fn next_wraps_to_the_first_scene() {
    assert_eq!(navigate(0, 3, NavEvent::Next), Some(1));
    assert_eq!(navigate(2, 3, NavEvent::Next), Some(0));
}

#[test]
fn back_wraps_to_the_last_scene() {
    assert_eq!(navigate(2, 3, NavEvent::Back), Some(1));
    assert_eq!(navigate(0, 3, NavEvent::Back), Some(2));
}

#[test]
fn home_does_not_browse() {
    assert_eq!(navigate(1, 3, NavEvent::Home), None);
}

#[test]
fn next_then_back_returns_to_the_same_scene() {
    for i in 0..4 {
        let n = navigate(i, 4, NavEvent::Next).unwrap();
        assert_eq!(navigate(n, 4, NavEvent::Back), Some(i));
    }
}
