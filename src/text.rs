//! The text-drawing capability a renderer provides.
use vstd::prelude::*;
use crate::geometry::{Color, HorizontalAlignment, Rectangle, VerticalAlignment};
use crate::renderer::{Canvas, DrawCall};

verus! {

/// A renderer that can measure and draw text.
pub trait Renderer: Canvas {
    /// The width and height of a piece of text at a font size, from the
    /// renderer's font metrics.
    spec fn text_size(&self, content: Seq<char>, size: u16) -> (u32, u32);

    /// Measures a piece of text.
    fn measure(&self, content: &str, size: u16) -> (r: (u32, u32))
        ensures
            r == self.text_size(content@, size),
    ;

    /// Draws a piece of text within `bounds`.
    fn draw(
        &mut self,
        bounds: Rectangle,
        content: &str,
        size: u16,
        color: Color,
        horizontal_alignment: HorizontalAlignment,
        vertical_alignment: VerticalAlignment,
    )
        ensures
            final(self).draws() == old(self).draws().push(
                DrawCall::Text {
                    bounds,
                    content: content@,
                    size,
                    color,
                    horizontal_alignment,
                    vertical_alignment,
                },
            ),
            forall|c: Seq<char>, s: u16| #[trigger]
                final(self).text_size(c, s) == old(self).text_size(c, s),
    ;
}

} // verus!
