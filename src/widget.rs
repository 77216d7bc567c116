//! The contract every widget meets, and `Element`, the owning handle that
//! lets widgets of different types share one tree.
use vstd::prelude::*;
use crate::geometry::Point;
use crate::hasher::Hasher;
use crate::input::Event;
use crate::layout::{Layout, Node};
use crate::radio::{self, Radio};
use crate::renderer::{Canvas, DrawCall};
use crate::text;

verus! {

/// The shape the pointer should take, as reported by `draw`.
#[derive(Debug, Clone, Copy, PartialEq, Eq, Structural)]
pub enum MouseCursor {
    OutOfBounds,
    Idle,
    Pointer,
    Grab,
    Grabbing,
}

/// A component that displays information or allows interaction, producing
/// messages of type `M` and drawn by a renderer of type `R`.
pub trait Widget<M, R: Canvas> {
    /// The words `hash` feeds the accumulator: the state that shapes the
    /// widget's node, and nothing cosmetic.
    spec fn layout_words(&self) -> Seq<u64>;

    /// The messages `on_event` emits for an event, given the widget's own
    /// resolved layout and the cursor position.
    spec fn reaction(&self, event: Event, layout: Layout, cursor: Point) -> Seq<M>;

    /// Whether `layout` has the shape `node` asks for, so that `draw` finds
    /// every child bounds it reads.
    spec fn fits(&self, layout: Layout) -> bool;

    /// Whether `n` is the layout intent of the widget, measured by `renderer`.
    spec fn lays_out(&self, renderer: R, n: Node) -> bool;

    /// The draw commands `draw` hands the renderer, in order.
    spec fn draw_calls(&self, layout: Layout, cursor: Point) -> Seq<DrawCall>;

    /// The cursor shape `draw` returns.
    spec fn cursor_hint(&self, layout: Layout, cursor: Point) -> MouseCursor;

    /// The layout intent of the widget.
    fn node(&self, renderer: &R) -> (n: Node)
        ensures
            self.lays_out(*renderer, n),
    ;

    /// Draws the widget within the bounds of `layout`, and returns the
    /// cursor shape it asks for.
    fn draw(&self, renderer: &mut R, layout: &Layout, cursor_position: Point) -> (r: MouseCursor)
        requires
            self.fits(*layout),
        ensures
            final(renderer).draws() == old(renderer).draws() + self.draw_calls(
                *layout,
                cursor_position,
            ),
            r == self.cursor_hint(*layout, cursor_position),
    ;

    /// Feeds the layout-relevant state into the accumulator.
    fn hash(&self, state: &mut Hasher)
        ensures
            final(state)@ == old(state)@ + self.layout_words(),
    ;

    /// Processes an event: appends the widget's messages to `messages`. The
    /// widget may update its own interaction state here, and only here.
    fn on_event(
        &mut self,
        event: Event,
        layout: &Layout,
        cursor_position: Point,
        messages: &mut Vec<M>,
    )
        ensures
            final(messages)@ == old(messages)@ + old(self).reaction(
                event,
                *layout,
                cursor_position,
            ),
    ;
}

/// An owning handle to one widget. A radio button is held as itself; any
/// other widget is held behind a box, with its type erased.
#[verifier::reject_recursive_types(M)]
#[verifier::reject_recursive_types(R)]
pub enum Element<M, R: Canvas> {
    Radio(Radio<M>),
    Boxed(Box<dyn Widget<M, R>>),
}

impl<M, R: Canvas> Element<M, R> {
    /// Wraps a widget behind a box. Every operation of the element is
    /// forwarded to it unchanged.
    pub fn new<W: Widget<M, R> + 'static>(widget: W) -> (e: Element<M, R>)
        ensures
            e is Boxed,
    {
        let b: Box<dyn Widget<M, R>> = Box::new(widget);
        Element::Boxed(b)
    }
}

impl<M: Copy, R: radio::Renderer + text::Renderer> Widget<M, R> for Element<M, R> {
    open spec fn layout_words(&self) -> Seq<u64> {
        match self {
            Element::Radio(w) => <Radio<M> as Widget<M, R>>::layout_words(w),
            Element::Boxed(w) => w.layout_words(),
        }
    }

    open spec fn reaction(&self, event: Event, layout: Layout, cursor: Point) -> Seq<M> {
        match self {
            Element::Radio(w) => <Radio<M> as Widget<M, R>>::reaction(w, event, layout, cursor),
            Element::Boxed(w) => w.reaction(event, layout, cursor),
        }
    }

    open spec fn fits(&self, layout: Layout) -> bool {
        match self {
            Element::Radio(w) => <Radio<M> as Widget<M, R>>::fits(w, layout),
            Element::Boxed(w) => w.fits(layout),
        }
    }

    open spec fn lays_out(&self, renderer: R, n: Node) -> bool {
        match self {
            Element::Radio(w) => <Radio<M> as Widget<M, R>>::lays_out(w, renderer, n),
            Element::Boxed(w) => w.lays_out(renderer, n),
        }
    }

    open spec fn draw_calls(&self, layout: Layout, cursor: Point) -> Seq<DrawCall> {
        match self {
            Element::Radio(w) => <Radio<M> as Widget<M, R>>::draw_calls(w, layout, cursor),
            Element::Boxed(w) => w.draw_calls(layout, cursor),
        }
    }

    open spec fn cursor_hint(&self, layout: Layout, cursor: Point) -> MouseCursor {
        match self {
            Element::Radio(w) => <Radio<M> as Widget<M, R>>::cursor_hint(w, layout, cursor),
            Element::Boxed(w) => w.cursor_hint(layout, cursor),
        }
    }

    fn node(&self, renderer: &R) -> Node {
        match self {
            Element::Radio(w) => <Radio<M> as Widget<M, R>>::node(w, renderer),
            Element::Boxed(w) => w.node(renderer),
        }
    }

    fn draw(&self, renderer: &mut R, layout: &Layout, cursor_position: Point) -> MouseCursor {
        match self {
            Element::Radio(w) => <Radio<M> as Widget<M, R>>::draw(w, renderer, layout, cursor_position),
            Element::Boxed(w) => w.draw(renderer, layout, cursor_position),
        }
    }

    fn hash(&self, state: &mut Hasher) {
        match self {
            Element::Radio(w) => <Radio<M> as Widget<M, R>>::hash(w, state),
            Element::Boxed(w) => w.hash(state),
        }
    }

    fn on_event(
        &mut self,
        event: Event,
        layout: &Layout,
        cursor_position: Point,
        messages: &mut Vec<M>,
    ) {
        match self {
            Element::Radio(w) => <Radio<M> as Widget<M, R>>::on_event(w, event, layout, cursor_position, messages),
            Element::Boxed(w) => w.on_event(event, layout, cursor_position, messages),
        }
    }
}

} // verus!
