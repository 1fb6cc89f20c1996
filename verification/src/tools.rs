//! Small shared tools: which views scroll, sides of a rectangle, text alignment, GPU texture
//! bookkeeping.
use vstd::prelude::*;
use std::collections::HashMap;
use crate::gui_types::GuiType;

verus! {

/// The kinds of views that scroll their content with the mouse wheel: none at present.
pub open spec fn scrollable_kinds() -> Seq<GuiType> {
    Seq::empty()
}

/// Simple utility for manipulated UI data
pub struct UITools {}

impl UITools {
    /// The kinds of views that scroll their content
    pub fn scrollable_types() -> (res: Vec<GuiType>)
        ensures
            res@ == scrollable_kinds(),
    {
        let res: Vec<GuiType> = Vec::new();
        res
    }

    /// Does the given kind of view scroll its content?
    pub fn is_scrollable(type_id: &GuiType) -> (res: bool)
        ensures
            res == scrollable_kinds().contains(*type_id),
    {
        let kinds = UITools::scrollable_types();
        let mut i: usize = 0;
        while i < kinds.len()
            invariant
                kinds@ == scrollable_kinds(),
                i <= kinds.len(),
                forall|j: int| 0 <= j < i ==> kinds@[j] != *type_id,
            decreases kinds.len() - i,
        {
            if kinds[i] == *type_id {
                return true;
            }
            i = i + 1;
        }
        false
    }
}

/// A side, or a set of sides, of a rectangle
#[derive(Debug, Clone, Copy, PartialEq, Eq, Structural)]
pub enum RectSide {
    Left,
    Top,
    Right,
    Bottom,
    All,
    LeftRight,
    TopBottom,
}

/// Enum for Horizontal Alignment
#[derive(Debug, Clone, Copy, PartialEq, Eq, Structural)]
pub enum TextAlign {
    Left,
    Center,
    Right,
}

/// Enum for Vertical Alignment
#[derive(Debug, Clone, Copy, PartialEq, Eq, Structural)]
pub enum VertAlign {
    Top,
    Middle,
    Bottom,
}

/// A texture uploaded to the GPU: its index and its size in pixels
#[derive(Debug, Clone, Copy, PartialEq, Eq, Structural)]
pub struct GPUTexture {
    pub idx: usize,
    pub width: u32,
    pub height: u32,
}

impl GPUTexture {
    /// Constructor
    pub fn new(idx: usize, width: u32, height: u32) -> (res: Self)
        ensures
            res.idx == idx,
            res.width == width,
            res.height == height,
    {
        GPUTexture { idx, width, height }
    }
}

/// A helper for drawing images using bitmap data and/or text
pub struct DrawImage {}

/// The GPU module manages communication with the GL backend and prevents redundant
/// texture creation.
pub struct GPUTool {
    /// Stores the mapping of the font file name and the texture index
    textures: HashMap<String, usize>,
}

impl GPUTool {
    /// The textures known so far, by file name
    pub closed spec fn textures(&self) -> Map<String, usize> {
        self.textures@
    }

    /// Constructor: no texture is known yet
    pub fn new() -> (res: Self)
        ensures
            res.textures() == Map::<String, usize>::empty(),
    {
        GPUTool { textures: HashMap::new() }
    }
}

} // verus!
