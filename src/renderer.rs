//! What every renderer shares: a record of the draw commands it was given.
use vstd::prelude::*;
use crate::geometry::{Color, HorizontalAlignment, Point, Rectangle, VerticalAlignment};

verus! {

/// One draw command handed to a renderer.
pub enum DrawCall {
    /// A piece of text drawn within `bounds`.
    Text {
        bounds: Rectangle,
        content: Seq<char>,
        size: u16,
        color: Color,
        horizontal_alignment: HorizontalAlignment,
        vertical_alignment: VerticalAlignment,
    },
    /// A radio button's indicator: the cursor position, the indicator's
    /// bounds, the whole button's bounds and whether it is selected.
    Indicator { cursor: Point, bounds: Rectangle, button_bounds: Rectangle, is_selected: bool },
}

/// A renderer backend. Every drawing capability appends what it was asked to
/// draw to `draws`, in the order it was asked.
pub trait Canvas {
    /// The draw commands received so far.
    spec fn draws(&self) -> Seq<DrawCall>;
}

} // verus!
