//! Display options of the views: how an image fits its frame, how a shape takes the
//! theme, how a toolbar lays out its buttons.
use vstd::prelude::*;

verus! {

/// Defines how to fit the image in the given space.
#[derive(Debug, Clone, Copy, PartialEq, Eq, Structural)]
pub enum ImageScaleMode {
    /// Default. Scale the content to fit the size of itself by changing the aspect ratio of
    /// the content if necessary
    ScaleToFill,
    /// Scale the content to fit the size of the view by maintaining the aspect ratio. Any
    /// remaining area of the view's bounds is transparent
    AspectFit,
    /// Scale the content to fill the size of the view. Some portion of the content may be
    /// clipped to fill the view's bounds
    AspectFill,
    /// Leave original size. If larger than the given frame size, you may need to adjust
    /// the frame origin.
    Original,
}

/// Enum to define how themes are applied to the shape
#[derive(Debug, Clone, Copy, PartialEq, Eq, Structural)]
pub enum ShapeTheme {
    /// Normal
    Normal,
    /// Full screen overlay, locked in position
    Overlay,
}

/// How the buttons of a toolbar look
#[derive(Debug, Clone, Copy, PartialEq, Eq, Structural)]
pub enum ToolbarStyle {
    Buttons,
    Tabs,
}

/// How the buttons of a toolbar share its width
#[derive(Debug, Clone, Copy, PartialEq, Eq, Structural)]
pub enum ToolbarLayout {
    FixedWidth,
    FullEqual,
    AlignCenter,
}

/// A group of consecutive toolbar buttons
pub struct ButtonGroup {
    /// Can more than one button of the group be selected?
    pub multiselect: bool,
    /// The positions of the group's buttons in the toolbar
    pub range: core::ops::Range<usize>,
}

/// Marker trait for text editors
pub trait Editor {}

/// Drawing helpers such as background grids
pub struct GGTools {}

} // verus!
