//! Create choices using radio buttons.
use vstd::prelude::*;
use crate::geometry::{
    rect_contains, Color, HorizontalAlignment, Point, Rectangle, VerticalAlignment,
};
use crate::hasher::{digest, lemma_str_words_injective, str_words, Hasher};
use crate::input::{is_left_press, ButtonState, Event, MouseButton, MouseEvent};
use crate::layout::{is_fixed_leaf, Align, Direction, Layout, Length, Node};
use crate::renderer::{Canvas, DrawCall};
use crate::text;
use vstd::std_specs::cmp::PartialEqSpec;
use crate::widget::{Element, MouseCursor, Widget};

verus! {

/// Width and height of the indicator slot.
pub const INDICATOR_SIZE: u32 = 28;

/// Space between the indicator slot and the label.
pub const SPACING: u16 = 15;

/// Font size of the label.
pub const LABEL_SIZE: u16 = 20;

/// How far the label is drawn above its resolved bounds.
pub const LABEL_LIFT: i32 = 2;

/// Position of the indicator slot among the resolved children.
pub const INDICATOR_CHILD: usize = 0;

/// Position of the label among the resolved children.
pub const LABEL_CHILD: usize = 1;

/// A circular button representing one choice of a single-choice set.
///
/// Whether it is selected is decided once, when it is built: the application
/// owns the selection and rebuilds the button when the selection changes.
#[derive(Debug)]
pub struct Radio<M> {
    is_selected: bool,
    on_click: M,
    label: String,
    label_color: Color,
}

/// Whether the candidate `value` is the selected one.
pub open spec fn selection_matches<V: PartialEq>(value: V, selected: Option<V>) -> bool {
    match selected {
        Some(s) => value.eq_spec(&s),
        None => false,
    }
}

/// The bounds the label is drawn in: its resolved bounds, lifted by
/// `LABEL_LIFT` (stopping at the top of the coordinate range).
pub open spec fn lifted(r: Rectangle) -> Rectangle {
    Rectangle {
        y: if r.y - LABEL_LIFT >= i32::MIN { (r.y - LABEL_LIFT) as i32 } else { i32::MIN },
        ..r
    }
}

/// The messages a radio button emits: its message for a left press inside
/// its bounds, nothing otherwise.
pub open spec fn radio_reaction<M>(on_click: M, event: Event, bounds: Rectangle, cursor: Point) -> Seq<M> {
    if is_left_press(event) && rect_contains(bounds, cursor) {
        seq![on_click]
    } else {
        seq![]
    }
}

impl<M> Radio<M> {
    pub closed spec fn spec_is_selected(&self) -> bool {
        self.is_selected
    }

    pub closed spec fn spec_on_click(&self) -> M {
        self.on_click
    }

    pub closed spec fn spec_label(&self) -> Seq<char> {
        self.label@
    }

    pub closed spec fn spec_label_color(&self) -> Color {
        self.label_color
    }

    /// Creates a radio button for the choice `value`, labelled `label`. It is
    /// selected when `selected` holds a value equal to `value`; a click
    /// emits `f(value)`.
    pub fn new<F, V>(value: V, label: &str, selected: Option<V>, f: F) -> (r: Self) where
        V: Eq + Copy,
        F: Fn(V) -> M,

        requires
            f.requires((value,)),
        ensures
            V::obeys_eq_spec() ==> r.spec_is_selected() == selection_matches(value, selected),
            f.ensures((value,), r.spec_on_click()),
            r.spec_label() == label@,
            r.spec_label_color() == (Color { r: 255, g: 255, b: 255, a: 255 }),
    {
        let is_selected = match selected {
            Some(s) => value == s,
            None => false,
        };
        Radio {
            is_selected,
            on_click: f(value),
            label: label.to_owned(),
            label_color: Color::white(),
        }
    }

    /// Sets the color of the label.
    pub fn label_color(self, color: Color) -> (r: Self)
        ensures
            r.spec_is_selected() == self.spec_is_selected(),
            r.spec_on_click() == self.spec_on_click(),
            r.spec_label() == self.spec_label(),
            r.spec_label_color() == color,
    {
        Radio { label_color: color, ..self }
    }

    /// Whether this choice was the selected one when the button was built.
    pub fn is_selected(&self) -> (r: bool)
        ensures
            r == self.spec_is_selected(),
    {
        self.is_selected
    }

    /// The message a click emits.
    pub fn on_click(&self) -> (r: &M)
        ensures
            *r == self.spec_on_click(),
    {
        &self.on_click
    }

    /// The label text.
    pub fn label(&self) -> (r: &str)
        ensures
            r@ == self.spec_label(),
    {
        self.label.as_str()
    }

    /// The color of the label.
    pub fn get_label_color(&self) -> (r: Color)
        ensures
            r == self.spec_label_color(),
    {
        self.label_color
    }
}

/// The bounds `draw` hands on: the indicator's, read from the first resolved
/// child, and the label's, read from the second and lifted.
pub fn draw_bounds(layout: &Layout) -> (r: (Rectangle, Rectangle))
    requires
        layout.children@.len() >= 2,
    ensures
        r.0 == layout.children@[INDICATOR_CHILD as int].bounds,
        r.1 == lifted(layout.children@[LABEL_CHILD as int].bounds),
{
    let indicator = layout.child(INDICATOR_CHILD).bounds();
    let label = layout.child(LABEL_CHILD).bounds();
    let y = if label.y >= i32::MIN + LABEL_LIFT {
        label.y - LABEL_LIFT
    } else {
        i32::MIN
    };
    (indicator, Rectangle { y, ..label })
}

/// The renderer of a radio button.
pub trait Renderer: Canvas {
    /// The cursor shape a backend asks for when drawing an indicator.
    spec fn indicator_cursor(
        cursor_position: Point,
        bounds: Rectangle,
        button_bounds: Rectangle,
        is_selected: bool,
    ) -> MouseCursor;

    /// Draws a radio button's indicator, given the cursor position, the
    /// indicator's bounds, the whole button's bounds and whether it is
    /// selected; returns the cursor shape to show.
    fn draw(
        &mut self,
        cursor_position: Point,
        bounds: Rectangle,
        button_bounds: Rectangle,
        is_selected: bool,
    ) -> (r: MouseCursor)
        ensures
            final(self).draws() == old(self).draws().push(
                DrawCall::Indicator { cursor: cursor_position, bounds, button_bounds, is_selected },
            ),
            r == Self::indicator_cursor(cursor_position, bounds, button_bounds, is_selected),
    ;
}

/// The row a radio button asks for: the indicator slot, then a slot of the
/// label's size as the renderer measures it.
pub open spec fn radio_node<R: text::Renderer>(renderer: R, label: Seq<char>, n: Node) -> bool {
    &&& n.width == Length::Shrink
    &&& n.height == Length::Shrink
    &&& n.direction == Direction::Row
    &&& n.spacing == SPACING
    &&& n.align_items == Align::Center
    &&& n.children@.len() == 2
    &&& is_fixed_leaf(n.children@[INDICATOR_CHILD as int], INDICATOR_SIZE, INDICATOR_SIZE)
    &&& is_fixed_leaf(
        n.children@[LABEL_CHILD as int],
        renderer.text_size(label, LABEL_SIZE).0,
        renderer.text_size(label, LABEL_SIZE).1,
    )
}

/// What a radio button draws: its label, within the second child's bounds
/// lifted, then its indicator, within the first child's bounds.
pub open spec fn radio_draws<M>(r: Radio<M>, layout: Layout, cursor: Point) -> Seq<DrawCall> {
    seq![
        DrawCall::Text {
            bounds: lifted(layout.children@[LABEL_CHILD as int].bounds),
            content: r.spec_label(),
            size: LABEL_SIZE,
            color: r.spec_label_color(),
            horizontal_alignment: HorizontalAlignment::Left,
            vertical_alignment: VerticalAlignment::Top,
        },
        DrawCall::Indicator {
            cursor,
            bounds: layout.children@[INDICATOR_CHILD as int].bounds,
            button_bounds: layout.bounds,
            is_selected: r.spec_is_selected(),
        },
    ]
}

impl<M: Copy, R: Renderer + text::Renderer> Widget<M, R> for Radio<M> {
    /// Only the label shapes the layout.
    open spec fn layout_words(&self) -> Seq<u64> {
        str_words(self.spec_label())
    }

    open spec fn reaction(&self, event: Event, layout: Layout, cursor: Point) -> Seq<M> {
        radio_reaction(self.spec_on_click(), event, layout.bounds, cursor)
    }

    open spec fn fits(&self, layout: Layout) -> bool {
        layout.children@.len() >= 2
    }

    /// A row: the fixed indicator slot first, then the label's text node.
    open spec fn lays_out(&self, renderer: R, n: Node) -> bool {
        radio_node(renderer, self.spec_label(), n)
    }

    open spec fn draw_calls(&self, layout: Layout, cursor: Point) -> Seq<DrawCall> {
        radio_draws(*self, layout, cursor)
    }

    /// The indicator's backend decides the cursor shape.
    open spec fn cursor_hint(&self, layout: Layout, cursor: Point) -> MouseCursor {
        R::indicator_cursor(
            cursor,
            layout.children@[INDICATOR_CHILD as int].bounds,
            layout.bounds,
            self.spec_is_selected(),
        )
    }

    fn node(&self, renderer: &R) -> (n: Node) {
        let mut children: Vec<Node> = Vec::new();
        children.push(Node::fixed(INDICATOR_SIZE, INDICATOR_SIZE));
        let (width, height) = text::Renderer::measure(renderer, self.label.as_str(), LABEL_SIZE);
        children.push(Node::fixed(width, height));
        Node::container(Direction::Row, SPACING, Align::Center, children)
    }

    fn draw(&self, renderer: &mut R, layout: &Layout, cursor_position: Point) -> MouseCursor {
        let (indicator, label) = draw_bounds(layout);
        let ghost before = renderer.draws();
        text::Renderer::draw(
            renderer,
            label,
            self.label.as_str(),
            LABEL_SIZE,
            self.label_color,
            HorizontalAlignment::Left,
            VerticalAlignment::Top,
        );
        let shape = Renderer::draw(
            renderer,
            cursor_position,
            indicator,
            layout.bounds(),
            self.is_selected,
        );
        assert(renderer.draws() =~= before + radio_draws(*self, *layout, cursor_position));
        shape
    }

    fn hash(&self, state: &mut Hasher) {
        state.write_str(self.label.as_str());
    }

    /// The button never changes itself: selection moves only when the
    /// application rebuilds it.
    fn on_event(
        &mut self,
        event: Event,
        layout: &Layout,
        cursor_position: Point,
        messages: &mut Vec<M>,
    )
        ensures
            *final(self) == *old(self),
    {
        if event.is_left_press() && layout.bounds().contains(cursor_position) {
            messages.push(self.on_click);
        }
    }
}

/// Two buttons with the same label feed the same words and get the same
/// hash from the same accumulator, whatever their selection, color or
/// message.
pub proof fn lemma_hash_ignores_cosmetics<M: Copy, R: Renderer + text::Renderer>(
    a: Radio<M>,
    b: Radio<M>,
    fed: Seq<u64>,
)
    requires
        a.spec_label() == b.spec_label(),
    ensures
        fed + <Radio<M> as Widget<M, R>>::layout_words(&a) == fed + <Radio<
            M,
        > as Widget<M, R>>::layout_words(&b),
        digest(fed + <Radio<M> as Widget<M, R>>::layout_words(&a)) == digest(
            fed + <Radio<M> as Widget<M, R>>::layout_words(&b),
        ),
{
}

/// A button's node depends on its label alone, the one field its hash
/// feeds: an unchanged hash never hides a changed node.
pub proof fn lemma_node_follows_hashed_state<M: Copy, R: Renderer + text::Renderer>(
    a: Radio<M>,
    b: Radio<M>,
    renderer: R,
    n: Node,
)
    requires
        <Radio<M> as Widget<M, R>>::layout_words(&a) == <Radio<M> as Widget<M, R>>::layout_words(
            &b,
        ),
    ensures
        <Radio<M> as Widget<M, R>>::lays_out(&a, renderer, n) == <Radio<M> as Widget<
            M,
            R,
        >>::lays_out(&b, renderer, n),
{
    lemma_str_words_injective(a.spec_label(), b.spec_label());
}

/// From the same accumulator, two buttons leave the same fed words exactly
/// when their labels are equal: a change of label always shows in the hash
/// input.
pub proof fn lemma_hash_tracks_label<M: Copy, R: Renderer + text::Renderer>(
    a: Radio<M>,
    b: Radio<M>,
    fed: Seq<u64>,
)
    ensures
        (fed + <Radio<M> as Widget<M, R>>::layout_words(&a) == fed + <Radio<
            M,
        > as Widget<M, R>>::layout_words(&b)) <==> a.spec_label() == b.spec_label(),
{
    let wa = str_words(a.spec_label());
    let wb = str_words(b.spec_label());
    lemma_str_words_injective(a.spec_label(), b.spec_label());
    if fed + wa == fed + wb {
        assert(wa =~= (fed + wa).subrange(fed.len() as int, (fed + wa).len() as int));
        assert(wb =~= (fed + wb).subrange(fed.len() as int, (fed + wb).len() as int));
    }
}

/// A left press emits the button's message exactly when the cursor lies in
/// the button's resolved bounds, and nothing otherwise.
pub proof fn lemma_press_containment<M: Copy, R: Renderer + text::Renderer>(
    r: Radio<M>,
    layout: Layout,
    cursor: Point,
)
    ensures
        <Radio<M> as Widget<M, R>>::reaction(
            &r,
            Event::Mouse(MouseEvent::Input { button: MouseButton::Left, state: ButtonState::Pressed }),
            layout,
            cursor,
        ) == if rect_contains(layout.bounds, cursor) {
            seq![r.spec_on_click()]
        } else {
            Seq::<M>::empty()
        },
{
    assert(seq![r.spec_on_click()].len() == 1);
}

/// Every event but a left press (a press of another button, a release,
/// a motion, a key) emits nothing, wherever the cursor is.
pub proof fn lemma_other_events_ignored<M: Copy, R: Renderer + text::Renderer>(
    r: Radio<M>,
    event: Event,
    layout: Layout,
    cursor: Point,
)
    requires
        !is_left_press(event),
    ensures
        <Radio<M> as Widget<M, R>>::reaction(&r, event, layout, cursor) == Seq::<M>::empty(),
{
}

impl<M: Copy, R: Renderer + text::Renderer> From<Radio<M>> for Element<M, R> {
    /// The element holds exactly this button and behaves as it does.
    fn from(radio: Radio<M>) -> (e: Element<M, R>)
        ensures
            e == Element::<M, R>::Radio(radio),
            e.layout_words() == <Radio<M> as Widget<M, R>>::layout_words(&radio),
            forall|ev: Event, l: Layout, c: Point| #[trigger]
                e.reaction(ev, l, c) == <Radio<M> as Widget<M, R>>::reaction(&radio, ev, l, c),
            forall|l: Layout| #[trigger] e.fits(l) == <Radio<M> as Widget<M, R>>::fits(&radio, l),
            forall|rd: R, n: Node| #[trigger]
                e.lays_out(rd, n) == <Radio<M> as Widget<M, R>>::lays_out(&radio, rd, n),
            forall|l: Layout, c: Point| #[trigger]
                e.draw_calls(l, c) == <Radio<M> as Widget<M, R>>::draw_calls(&radio, l, c),
            forall|l: Layout, c: Point| #[trigger]
                e.cursor_hint(l, c) == <Radio<M> as Widget<M, R>>::cursor_hint(&radio, l, c),
    {
        Element::Radio(radio)
    }
}

impl<M: Copy, R: Renderer + text::Renderer> vstd::std_specs::convert::FromSpecImpl<Radio<M>> for Element<M, R> {
    open spec fn obeys_from_spec() -> bool {
        true
    }

    open spec fn from_spec(v: Radio<M>) -> Element<M, R> {
        Element::Radio(v)
    }
}

} // verus!
