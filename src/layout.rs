//! Layout intent (`Node`) handed to a layout service, and the resolved
//! bounds (`Layout`) it hands back.
use vstd::prelude::*;
use crate::geometry::Rectangle;

verus! {

/// A sizing preference along one axis.
#[derive(Debug, Clone, Copy, PartialEq, Eq, Structural)]
pub enum Length {
    Fill,
    Shrink,
    Units(u32),
}

/// How children are aligned across the main axis of their container.
#[derive(Debug, Clone, Copy, PartialEq, Eq, Structural)]
pub enum Align {
    Start,
    Center,
    End,
    Stretch,
}

/// The axis along which a node lays out its children.
#[derive(Debug, Clone, Copy, PartialEq, Eq, Structural)]
pub enum Direction {
    Row,
    Column,
}

/// What a widget asks of the layout service: sizing preferences, and its
/// children's nodes in the order they were pushed.
#[derive(Debug)]
pub struct Node {
    pub width: Length,
    pub height: Length,
    pub direction: Direction,
    pub spacing: u16,
    pub align_items: Align,
    pub children: Vec<Node>,
}

/// Whether `n` is a leaf of the given fixed size.
pub open spec fn is_fixed_leaf(n: Node, width: u32, height: u32) -> bool {
    &&& n.width == Length::Units(width)
    &&& n.height == Length::Units(height)
    &&& n.direction == Direction::Row
    &&& n.spacing == 0
    &&& n.align_items == Align::Start
    &&& n.children@.len() == 0
}

impl Node {
    /// A leaf of the given fixed size.
    pub fn fixed(width: u32, height: u32) -> (n: Node)
        ensures
            is_fixed_leaf(n, width, height),
    {
        Node {
            width: Length::Units(width),
            height: Length::Units(height),
            direction: Direction::Row,
            spacing: 0,
            align_items: Align::Start,
            children: Vec::new(),
        }
    }

    /// A container that shrinks to its children, laid out along `direction`.
    pub fn container(
        direction: Direction,
        spacing: u16,
        align_items: Align,
        children: Vec<Node>,
    ) -> (n: Node)
        ensures
            n.width == Length::Shrink,
            n.height == Length::Shrink,
            n.direction == direction,
            n.spacing == spacing,
            n.align_items == align_items,
            n.children@ == children@,
    {
        Node {
            width: Length::Shrink,
            height: Length::Shrink,
            direction,
            spacing,
            align_items,
            children,
        }
    }
}

/// Resolved bounds of one widget, and of its children in the order their
/// nodes were pushed.
#[derive(Debug)]
pub struct Layout {
    pub bounds: Rectangle,
    pub children: Vec<Layout>,
}

impl Layout {
    pub fn new(bounds: Rectangle, children: Vec<Layout>) -> (l: Layout)
        ensures
            l.bounds == bounds,
            l.children@ == children@,
    {
        Layout { bounds, children }
    }

    /// The widget's own bounds.
    pub fn bounds(&self) -> (r: Rectangle)
        ensures
            r == self.bounds,
    {
        self.bounds
    }

    /// The number of resolved children.
    pub fn child_count(&self) -> (r: usize)
        ensures
            r == self.children@.len(),
    {
        self.children.len()
    }

    /// The resolved layout of the child at position `i`.
    pub fn child(&self, i: usize) -> (r: &Layout)
        requires
            i < self.children@.len(),
        ensures
            *r == self.children@[i as int],
    {
        &self.children[i]
    }
}

} // verus!
