//! Tweek UI: the state and decision logic of a GUI toolkit.
use vstd::prelude::*;

pub mod gui_types;
pub mod text;
pub mod editor;
pub mod layer;
pub mod input;
pub mod scene;
pub mod option_group;
pub mod list_box;
pub mod keyed;
pub mod stage;
pub mod theme;
pub mod text_field;
pub mod text_area;
pub mod tools;
pub mod command;
pub mod views;
pub mod text_view;
pub mod navigation;
