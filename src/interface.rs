//! The runtime side: deciding when layout must be recomputed, and handing an
//! input event to a widget tree.
use vstd::prelude::*;
use crate::geometry::Point;
use crate::hasher::{digest, Hasher};
use crate::input::Event;
use crate::layout::Layout;
use crate::radio;
use crate::text;
use crate::renderer::Canvas;
use crate::widget::{Element, Widget};

verus! {

/// The layout hash of a tree: the digest of the words its root feeds.
pub fn layout_hash<M: Copy, R: radio::Renderer + text::Renderer>(root: &Element<M, R>) -> (r: u64)
    ensures
        r == digest(root.layout_words()),
{
    let mut state = Hasher::new();
    root.hash(&mut state);
    assert(state@ =~= root.layout_words());
    state.finish()
}

/// Whether layout must be recomputed: the hash differs from the one stored
/// for the previous frame, or there is none.
pub fn needs_relayout(previous: Option<u64>, current: u64) -> (r: bool)
    ensures
        r == (previous != Some(current)),
{
    match previous {
        Some(h) => h != current,
        None => true,
    }
}

/// The layout hash of the last frame that was laid out.
pub struct LayoutCache {
    last: Option<u64>,
}

impl LayoutCache {
    pub closed spec fn spec_last(&self) -> Option<u64> {
        self.last
    }

    /// A cache that has seen no frame: the first frame is always laid out.
    pub fn new() -> (c: LayoutCache)
        ensures
            c.spec_last() == None::<u64>,
    {
        LayoutCache { last: None }
    }

    /// The stored hash, if any.
    pub fn last(&self) -> (r: Option<u64>)
        ensures
            r == self.spec_last(),
    {
        self.last
    }

    /// Records the hash of this frame's tree and returns whether its layout
    /// must be recomputed.
    pub fn check(&mut self, current: u64) -> (r: bool)
        ensures
            r == (old(self).spec_last() != Some(current)),
            final(self).spec_last() == Some(current),
    {
        let r = needs_relayout(self.last, current);
        self.last = Some(current);
        r
    }

    /// Hashes this frame's tree, records the hash, and returns whether the
    /// tree's layout must be recomputed.
    pub fn refresh<M: Copy, R: radio::Renderer + text::Renderer>(&mut self, root: &Element<M, R>) -> (r: bool)
        ensures
            r == (old(self).spec_last() != Some(digest(root.layout_words()))),
            final(self).spec_last() == Some(digest(root.layout_words())),
    {
        let current = layout_hash(root);
        self.check(current)
    }
}

/// Hands one event to the tree, top-down and depth-first, and returns the
/// messages it produced in visiting order.
pub fn dispatch<M: Copy, R: radio::Renderer + text::Renderer>(root: &mut Element<M, R>, event: Event, layout: &Layout, cursor: Point) -> (r:
    Vec<M>)
    ensures
        r@ == old(root).reaction(event, *layout, cursor),
{
    let mut messages: Vec<M> = Vec::new();
    root.on_event(event, layout, cursor, &mut messages);
    assert(messages@ =~= old(root).reaction(event, *layout, cursor));
    messages
}

} // verus!
