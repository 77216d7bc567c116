//! A container that stacks its children vertically.
use vstd::prelude::*;
use crate::geometry::Point;
use crate::hasher::Hasher;
use crate::input::Event;
use crate::layout::{Align, Direction, Layout, Length, Node};
use crate::radio;
use crate::text;
use crate::renderer::{Canvas, DrawCall};
use crate::widget::{Element, MouseCursor, Widget};

verus! {

/// The word that opens a column's share of a layout hash.
pub const COLUMN_TAG: u64 = 0x636f6c;

/// An ordered list of child widgets laid out top to bottom.
#[verifier::reject_recursive_types(M)]
#[verifier::reject_recursive_types(R)]
pub struct Column<M, R: Canvas> {
    spacing: u16,
    children: Vec<Element<M, R>>,
}

/// The hash words of the first `k` children, in order.
pub open spec fn children_words<M: Copy, R: radio::Renderer + text::Renderer>(cs: Seq<Element<M, R>>, k: int) -> Seq<u64>
    decreases k,
{
    if k <= 0 {
        seq![]
    } else {
        children_words(cs, k - 1) + cs[k - 1].layout_words()
    }
}

/// The messages of the first `k` children, each given its own resolved
/// layout, in child order.
pub open spec fn children_reaction<M: Copy, R: radio::Renderer + text::Renderer>(
    cs: Seq<Element<M, R>>,
    ls: Seq<Layout>,
    event: Event,
    cursor: Point,
    k: int,
) -> Seq<M>
    decreases k,
{
    if k <= 0 {
        seq![]
    } else {
        children_reaction(cs, ls, event, cursor, k - 1) + cs[k - 1].reaction(
            event,
            ls[k - 1],
            cursor,
        )
    }
}

/// The draw commands of the first `k` children, each drawn in its own
/// resolved layout, in child order.
pub open spec fn children_draws<M: Copy, R: radio::Renderer + text::Renderer>(
    cs: Seq<Element<M, R>>,
    ls: Seq<Layout>,
    cursor: Point,
    k: int,
) -> Seq<DrawCall>
    decreases k,
{
    if k <= 0 {
        seq![]
    } else {
        children_draws(cs, ls, cursor, k - 1) + cs[k - 1].draw_calls(ls[k - 1], cursor)
    }
}

/// The cursor shape of the first `k` children: the last one that asks for
/// a shape other than `OutOfBounds` decides it.
pub open spec fn children_cursor<M: Copy, R: radio::Renderer + text::Renderer>(
    cs: Seq<Element<M, R>>,
    ls: Seq<Layout>,
    cursor: Point,
    k: int,
) -> MouseCursor
    decreases k,
{
    if k <= 0 {
        MouseCursor::OutOfBounds
    } else if cs[k - 1].cursor_hint(ls[k - 1], cursor) != MouseCursor::OutOfBounds {
        cs[k - 1].cursor_hint(ls[k - 1], cursor)
    } else {
        children_cursor(cs, ls, cursor, k - 1)
    }
}

/// How many children get an event: those that have a resolved layout.
pub open spec fn paired(n: int, m: int) -> int {
    if n <= m {
        n
    } else {
        m
    }
}

impl<M, R: Canvas> Column<M, R> {
    pub closed spec fn spec_spacing(&self) -> u16 {
        self.spacing
    }

    pub closed spec fn spec_children(&self) -> Seq<Element<M, R>> {
        self.children@
    }

    /// An empty column with no spacing.
    pub fn new() -> (c: Self)
        ensures
            c.spec_spacing() == 0,
            c.spec_children().len() == 0,
    {
        Column { spacing: 0, children: Vec::new() }
    }

    /// Sets the space between consecutive children.
    pub fn spacing(self, units: u16) -> (c: Self)
        ensures
            c.spec_spacing() == units,
            c.spec_children() == self.spec_children(),
    {
        Column { spacing: units, ..self }
    }

    /// Appends a child below the others.
    pub fn push(self, child: Element<M, R>) -> (c: Self)
        ensures
            c.spec_spacing() == self.spec_spacing(),
            c.spec_children() == self.spec_children().push(child),
    {
        let mut children = self.children;
        children.push(child);
        Column { spacing: self.spacing, children }
    }

    /// The number of children.
    pub fn len(&self) -> (r: usize)
        ensures
            r == self.spec_children().len(),
    {
        self.children.len()
    }
}

impl<M: Copy, R: radio::Renderer + text::Renderer> Widget<M, R> for Column<M, R> {
    /// The tag, the spacing and the child count, then every child's words.
    open spec fn layout_words(&self) -> Seq<u64> {
        seq![COLUMN_TAG, self.spec_spacing() as u64, self.spec_children().len() as u64]
            + children_words(self.spec_children(), self.spec_children().len() as int)
    }

    open spec fn reaction(&self, event: Event, layout: Layout, cursor: Point) -> Seq<M> {
        children_reaction(
            self.spec_children(),
            layout.children@,
            event,
            cursor,
            paired(self.spec_children().len() as int, layout.children@.len() as int),
        )
    }

    open spec fn fits(&self, layout: Layout) -> bool {
        &&& self.spec_children().len() <= layout.children@.len()
        &&& forall|i: int|
            0 <= i < self.spec_children().len() ==> #[trigger] self.spec_children()[i].fits(
                layout.children@[i],
            )
    }

    /// A column that shrinks to its children, each child's node in order.
    open spec fn lays_out(&self, renderer: R, n: Node) -> bool {
        &&& n.width == Length::Shrink
        &&& n.height == Length::Shrink
        &&& n.direction == Direction::Column
        &&& n.spacing == self.spec_spacing()
        &&& n.align_items == Align::Start
        &&& n.children@.len() == self.spec_children().len()
        &&& forall|i: int|
            0 <= i < self.spec_children().len() ==> #[trigger] self.spec_children()[i].lays_out(
                renderer,
                n.children@[i],
            )
    }

    open spec fn draw_calls(&self, layout: Layout, cursor: Point) -> Seq<DrawCall> {
        children_draws(
            self.spec_children(),
            layout.children@,
            cursor,
            self.spec_children().len() as int,
        )
    }

    open spec fn cursor_hint(&self, layout: Layout, cursor: Point) -> MouseCursor {
        children_cursor(
            self.spec_children(),
            layout.children@,
            cursor,
            self.spec_children().len() as int,
        )
    }

    fn node(&self, renderer: &R) -> (n: Node) {
        let mut nodes: Vec<Node> = Vec::new();
        let mut i: usize = 0;
        while i < self.children.len()
            invariant
                i <= self.children@.len(),
                nodes@.len() == i,
                forall|j: int| 0 <= j < i ==> #[trigger] self.children@[j].lays_out(*renderer, nodes@[j]),
            decreases self.children@.len() - i,
        {
            nodes.push(self.children[i].node(renderer));
            i += 1;
        }
        Node::container(Direction::Column, self.spacing, Align::Start, nodes)
    }

    /// Draws the children in order; the last child that asks for a cursor
    /// shape decides it.
    fn draw(&self, renderer: &mut R, layout: &Layout, cursor_position: Point) -> MouseCursor {
        let ghost start = renderer.draws();
        let ghost cs = self.children@;
        let ghost ls = layout.children@;
        let mut cursor = MouseCursor::OutOfBounds;
        let mut i: usize = 0;
        while i < self.children.len()
            invariant
                i <= self.children@.len(),
                cs == self.children@,
                ls == layout.children@,
                self.fits(*layout),
                renderer.draws() == start + children_draws(cs, ls, cursor_position, i as int),
                cursor == children_cursor(cs, ls, cursor_position, i as int),
            decreases self.children@.len() - i,
        {
            assert(self.spec_children()[i as int].fits(layout.children@[i as int]));
            let shape = self.children[i].draw(renderer, layout.child(i), cursor_position);
            if shape != MouseCursor::OutOfBounds {
                cursor = shape;
            }
            assert(start + children_draws(cs, ls, cursor_position, i + 1) =~= start
                + children_draws(cs, ls, cursor_position, i as int) + cs[i as int].draw_calls(
                ls[i as int],
                cursor_position,
            ));
            i += 1;
        }
        cursor
    }

    fn hash(&self, state: &mut Hasher) {
        let ghost start = state@;
        state.write_u64(COLUMN_TAG);
        state.write_u64(self.spacing as u64);
        state.write_u64(self.children.len() as u64);
        let ghost head = seq![COLUMN_TAG, self.spacing as u64, self.children@.len() as u64];
        assert(state@ =~= start + head);
        let mut i: usize = 0;
        while i < self.children.len()
            invariant
                i <= self.children@.len(),
                state@ == start + head + children_words(self.children@, i as int),
            decreases self.children@.len() - i,
        {
            self.children[i].hash(state);
            assert(start + head + children_words(self.children@, i + 1) =~= start + head
                + children_words(self.children@, i as int) + self.children@[i as int].layout_words());
            i += 1;
        }
        assert(state@ =~= start + self.layout_words());
    }

    fn on_event(
        &mut self,
        event: Event,
        layout: &Layout,
        cursor_position: Point,
        messages: &mut Vec<M>,
    ) {
        let ghost before = self.children@;
        let ghost start = messages@;
        let n = self.children.len();
        let count = if n <= layout.children.len() {
            n
        } else {
            layout.children.len()
        };
        let mut i: usize = 0;
        while i < count
            invariant
                count == paired(before.len() as int, layout.children@.len() as int),
                i <= count,
                self.children@.len() == before.len(),
                forall|j: int| i <= j < before.len() ==> self.children@[j] == before[j],
                messages@ == start + children_reaction(
                    before,
                    layout.children@,
                    event,
                    cursor_position,
                    i as int,
                ),
            decreases count - i,
        {
            self.children[i].on_event(event, layout.child(i), cursor_position, messages);
            assert(start + children_reaction(before, layout.children@, event, cursor_position, i + 1)
                =~= start + children_reaction(before, layout.children@, event, cursor_position, i as int)
                + before[i as int].reaction(event, layout.children@[i as int], cursor_position));
            i += 1;
        }
    }
}

/// One event handed to a column of three children yields the first child's
/// messages, then the second's, then the third's, each child reading its own
/// resolved layout.
pub proof fn lemma_dispatch_order<M: Copy, R: radio::Renderer + text::Renderer>(
    col: Column<M, R>,
    event: Event,
    layout: Layout,
    cursor: Point,
)
    requires
        col.spec_children().len() == 3,
        layout.children@.len() >= 3,
    ensures
        col.reaction(event, layout, cursor) == col.spec_children()[0].reaction(
            event,
            layout.children@[0],
            cursor,
        ) + col.spec_children()[1].reaction(event, layout.children@[1], cursor)
            + col.spec_children()[2].reaction(event, layout.children@[2], cursor),
{
    let cs = col.spec_children();
    let ls = layout.children@;
    assert(children_reaction(cs, ls, event, cursor, 0) =~= Seq::<M>::empty());
    assert(children_reaction(cs, ls, event, cursor, 1) =~= cs[0].reaction(event, ls[0], cursor));
    assert(children_reaction(cs, ls, event, cursor, 2) =~= cs[0].reaction(event, ls[0], cursor)
        + cs[1].reaction(event, ls[1], cursor));
    assert(children_reaction(cs, ls, event, cursor, 3) =~= cs[0].reaction(event, ls[0], cursor)
        + cs[1].reaction(event, ls[1], cursor) + cs[2].reaction(event, ls[2], cursor));
    assert(paired(3, ls.len() as int) == 3);
}

} // verus!
