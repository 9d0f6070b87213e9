//! Layout reuse by structural fingerprint comparison.
//!
//! Before each frame's layout pass the whole-tree fingerprint is computed
//! and compared with the stored one. On a match the stored node tree is
//! reused verbatim and the layout pass is skipped; on a mismatch (or with
//! nothing stored) layout runs and both the fingerprint and the node tree
//! are overwritten. Draw is the caller's to run every frame regardless:
//! the fingerprint deliberately ignores cosmetic fields.

use vstd::prelude::*;
use vstd::pervasive::unreached;
use crate::geometry::{Point, Rectangle};
use crate::hasher::{words_eq, Hasher};
use crate::layout::{Layout, Limits, Node};
use crate::renderer::Style;
use crate::text::Renderer;
use crate::widget::Widget;

verus! {

/// What one frame's layout pass left behind: the fingerprint it was
/// computed under, and the node tree it produced.
pub struct CacheEntry {
    pub fingerprint: Vec<u64>,
    pub node: Node,
}

/// The per-subtree layout cache: empty before the first frame, afterwards
/// always the last computed fingerprint and node tree.
pub struct Cache {
    pub entry: Option<CacheEntry>,
}

impl Cache {
    /// Whether the stored fingerprint equals `fingerprint`; false while
    /// nothing is stored.
    pub open spec fn matches_spec(&self, fingerprint: Seq<u64>) -> bool {
        match self.entry {
            Some(e) => e.fingerprint@ == fingerprint,
            None => false,
        }
    }

    /// An empty cache: the first frame always computes a layout.
    pub fn new() -> (c: Cache)
        ensures
            c.entry is None,
    {
        Cache { entry: None }
    }

    /// Runs one frame's layout step for `widget`: fingerprints it, reuses
    /// the stored node tree verbatim when the fingerprint is unchanged,
    /// and otherwise recomputes the layout and stores both. Returns
    /// whether layout ran.
    pub fn layout<R: Renderer, W: Widget<R>>(
        &mut self,
        widget: &W,
        renderer: &R,
        limits: &Limits,
    ) -> (recomputed: bool)
        requires
            limits.wf(),
        ensures
            recomputed == !old(self).matches_spec(widget.fingerprint_spec()),
            final(self).matches_spec(widget.fingerprint_spec()),
            !recomputed ==> *final(self) == *old(self),
            (match final(self).entry {
                Some(e) => recomputed ==> e.node.size == widget.layout_size_spec(
                    *renderer,
                    *limits,
                ) && limits.contains(e.node.size),
                None => false,
            }),
    {
        let mut hasher = Hasher::new();
        widget.hash_layout(&mut hasher);
        proof {
            assert(Seq::<u64>::empty() + widget.fingerprint_spec() =~= widget.fingerprint_spec());
        }
        let fingerprint = hasher.finish();
        let hit = match &self.entry {
            Some(e) => words_eq(&e.fingerprint, &fingerprint),
            None => false,
        };
        if hit {
            false
        } else {
            let node = widget.layout(renderer, limits);
            self.entry = Some(CacheEntry { fingerprint, node });
            true
        }
    }

    /// Runs one whole frame for `widget`: the fingerprint comparison and,
    /// on a mismatch, the layout pass — then the draw pass, which runs
    /// every frame regardless, because the fingerprint deliberately
    /// ignores cosmetic fields. The widget is drawn over the cached node
    /// tree, rooted at the coordinate origin.
    pub fn frame<R: Renderer, W: Widget<R>>(
        &mut self,
        widget: &W,
        renderer: &mut R,
        style: &Style,
        limits: &Limits,
        cursor_position: Point,
        viewport: &Rectangle,
    ) -> (recomputed: bool)
        requires
            limits.wf(),
        ensures
            recomputed == !old(self).matches_spec(widget.fingerprint_spec()),
            final(self).matches_spec(widget.fingerprint_spec()),
            !recomputed ==> *final(self) == *old(self),
            (match final(self).entry {
                Some(e) => final(renderer).emitted() == old(renderer).emitted()
                    + widget.draw_emits(
                    *old(renderer),
                    *style,
                    Rectangle { x: 0, y: 0, width: e.node.size.width, height: e.node.size.height },
                ) && (recomputed ==> e.node.size == widget.layout_size_spec(
                    *old(renderer),
                    *limits,
                ) && limits.contains(e.node.size)),
                None => false,
            }),
    {
        let recomputed = self.layout(widget, renderer, limits);
        let node = match &self.entry {
            Some(e) => &e.node,
            None => unreached(),
        };
        widget.draw(renderer, style, Layout::new(node), cursor_position, viewport);
        recomputed
    }

    /// The stored node tree, if a frame has been laid out.
    pub fn node(&self) -> (r: Option<&Node>)
        ensures
            (match (r, self.entry) {
                (Some(n), Some(e)) => *n == e.node,
                (None, None) => true,
                _ => false,
            }),
    {
        match &self.entry {
            Some(e) => Some(&e.node),
            None => None,
        }
    }
}

} // verus!
