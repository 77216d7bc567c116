//! A renderer backend that draws nothing and records every command it is
//! given, for checking what widgets draw.
use vstd::prelude::*;
use vstd::utf8::encode_utf8;
use crate::geometry::{
    rect_contains, Color, HorizontalAlignment, Point, Rectangle, VerticalAlignment,
};
use crate::radio;
use crate::renderer::{Canvas, DrawCall};
use crate::text;
use crate::widget::MouseCursor;

verus! {

/// The longest text, in bytes, that the recorder measures; longer text
/// measures as this long.
pub const MAX_MEASURED: usize = 65535;

/// A recorded draw command.
#[derive(Debug, PartialEq)]
pub enum Call {
    Text {
        bounds: Rectangle,
        content: String,
        size: u16,
        color: Color,
        horizontal_alignment: HorizontalAlignment,
        vertical_alignment: VerticalAlignment,
    },
    Indicator { cursor: Point, bounds: Rectangle, button_bounds: Rectangle, is_selected: bool },
}

impl Call {
    pub open spec fn spec_draw_call(self) -> DrawCall {
        match self {
            Call::Text {
                bounds,
                content,
                size,
                color,
                horizontal_alignment,
                vertical_alignment,
            } => DrawCall::Text {
                bounds,
                content: content@,
                size,
                color,
                horizontal_alignment,
                vertical_alignment,
            },
            Call::Indicator { cursor, bounds, button_bounds, is_selected } => DrawCall::Indicator {
                cursor,
                bounds,
                button_bounds,
                is_selected,
            },
        }
    }
}

/// The recorder's text metrics: half the font size per byte, one font size
/// high.
pub open spec fn measured(content: Seq<char>, size: u16) -> (u32, u32) {
    let n = if encode_utf8(content).len() > MAX_MEASURED {
        MAX_MEASURED as int
    } else {
        encode_utf8(content).len() as int
    };
    ((n * size / 2) as u32, size as u32)
}

/// A backend that records the commands it receives.
pub struct Recorder {
    calls: Vec<Call>,
}

impl Recorder {
    pub closed spec fn spec_calls(&self) -> Seq<Call> {
        self.calls@
    }

    /// A recorder that has received nothing.
    pub fn new() -> (r: Recorder)
        ensures
            r.spec_calls().len() == 0,
    {
        Recorder { calls: Vec::new() }
    }

    /// The commands received so far, in order.
    pub fn calls(&self) -> (r: &Vec<Call>)
        ensures
            r@ == self.spec_calls(),
    {
        &self.calls
    }
}

impl Canvas for Recorder {
    open spec fn draws(&self) -> Seq<DrawCall> {
        self.spec_calls().map_values(|c: Call| c.spec_draw_call())
    }
}

impl text::Renderer for Recorder {
    open spec fn text_size(&self, content: Seq<char>, size: u16) -> (u32, u32) {
        measured(content, size)
    }

    fn measure(&self, content: &str, size: u16) -> (u32, u32) {
        let bytes = content.as_bytes();
        let len = bytes.len();
        assert(len == encode_utf8(content@).len());
        let n: usize = if len > MAX_MEASURED {
            MAX_MEASURED
        } else {
            len
        };
        assert(n * size <= 65535 * 65535) by (nonlinear_arith)
            requires
                n <= 65535,
                size <= 65535,
        ;
        let w = ((n as u32) * (size as u32)) / 2;
        assert(w == (n * size / 2) as u32);
        (w, size as u32)
    }

    fn draw(
        &mut self,
        bounds: Rectangle,
        content: &str,
        size: u16,
        color: Color,
        horizontal_alignment: HorizontalAlignment,
        vertical_alignment: VerticalAlignment,
    ) {
        let call = Call::Text {
            bounds,
            content: content.to_owned(),
            size,
            color,
            horizontal_alignment,
            vertical_alignment,
        };
        self.calls.push(call);
        assert(self.draws() =~= old(self).draws().push(call.spec_draw_call()));
    }
}

impl radio::Renderer for Recorder {
    /// A pointer over the button, nothing elsewhere.
    open spec fn indicator_cursor(
        cursor_position: Point,
        bounds: Rectangle,
        button_bounds: Rectangle,
        is_selected: bool,
    ) -> MouseCursor {
        if rect_contains(button_bounds, cursor_position) {
            MouseCursor::Pointer
        } else {
            MouseCursor::OutOfBounds
        }
    }

    fn draw(
        &mut self,
        cursor_position: Point,
        bounds: Rectangle,
        button_bounds: Rectangle,
        is_selected: bool,
    ) -> MouseCursor {
        let call = Call::Indicator { cursor: cursor_position, bounds, button_bounds, is_selected };
        self.calls.push(call);
        assert(self.draws() =~= old(self).draws().push(call.spec_draw_call()));
        if button_bounds.contains(cursor_position) {
            MouseCursor::Pointer
        } else {
            MouseCursor::OutOfBounds
        }
    }
}

} // verus!
