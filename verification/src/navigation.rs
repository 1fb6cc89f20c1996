//! Browsing through the registered scenes with Next and Back.
use vstd::prelude::*;
use crate::command::NavEvent;

verus! {

/// The scene to show after a navigation event, among `count` registered scenes: Next goes
/// to the following one and wraps to the first after the last; Back goes to the previous
/// one and wraps to the last from the first. Other events show no other scene (`None`).
pub open spec fn nav_step(index: int, count: int, event: NavEvent) -> Option<int> {
    match event {
        NavEvent::Next => if index + 1 == count {
            Some(0)
        } else {
            Some(index + 1)
        },
        NavEvent::Back => if index == 0 {
            Some(count - 1)
        } else {
            Some(index - 1)
        },
        _ => None,
    }
}

/// The index of the scene to load after a navigation event, or `None` when the event does
/// not change the scene.
pub fn navigate(view_index: usize, scene_count: usize, event: NavEvent) -> (res: Option<usize>)
    requires
        event == NavEvent::Next ==> view_index < usize::MAX,
        event == NavEvent::Back ==> (view_index > 0 || scene_count > 0),
    ensures
        match res {
            Some(i) => nav_step(view_index as int, scene_count as int, event) == Some(i as int),
            None => nav_step(view_index as int, scene_count as int, event) is None,
        },
{
    match event {
        NavEvent::Next => {
            let next = view_index + 1;
            if next == scene_count {
                Some(0)
            } else {
                Some(next)
            }
        },
        NavEvent::Back => {
            if view_index == 0 {
                Some(scene_count - 1)
            } else {
                Some(view_index - 1)
            }
        },
        _ => None,
    }
}

/// Browsing stays among the registered scenes, and Back undoes Next and Next undoes Back.
pub proof fn lemma_nav_round_trip(index: int, count: int)
    requires
        0 <= index < count,
    ensures
        nav_step(index, count, NavEvent::Next) matches Some(n) && 0 <= n < count,
        nav_step(index, count, NavEvent::Back) matches Some(b) && 0 <= b < count,
        nav_step(nav_step(index, count, NavEvent::Next)->0, count, NavEvent::Back) == Some(index),
        nav_step(nav_step(index, count, NavEvent::Back)->0, count, NavEvent::Next) == Some(index),
{
}

} // verus!
