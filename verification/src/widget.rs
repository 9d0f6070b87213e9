//! The widget abstraction.
//!
//! Every widget kind, whatever it draws, implements [`Widget`]: it declares
//! a sizing policy per axis, computes a layout node under given limits,
//! draws itself through a renderer, and contributes its layout-relevant
//! fields to an accumulating structural fingerprint. New kinds are added by
//! implementing the trait; the core never changes for them.

use vstd::prelude::*;
use crate::geometry::{Point, Rectangle, Size};
use crate::hasher::Hasher;
use crate::layout::{Layout, Limits, Node};
use crate::length::Length;
use crate::renderer::Style;
use crate::text::{Font, Renderer, TextView};

verus! {

/// One node of the widget tree, polymorphic over its kind and over the
/// backend `R` that measures and draws it.
pub trait Widget<R: Renderer> {
    /// The declared horizontal sizing policy.
    spec fn width_spec(&self) -> Length;

    /// The declared vertical sizing policy.
    spec fn height_spec(&self) -> Length;

    /// The words this widget appends to the structural fingerprint: a kind
    /// marker followed by every field that affects `layout`, in a fixed
    /// order. A function of the widget fields alone.
    spec fn fingerprint_spec(&self) -> Seq<u64>;

    /// The size `layout` resolves to: a pure function of the widget
    /// fields, the renderer's measurement oracle and the limits.
    spec fn layout_size_spec(&self, renderer: R, limits: Limits) -> Size;

    /// The text primitives one `draw` call emits, given the ambient style
    /// and the bounds the layout pass assigned.
    spec fn draw_emits(&self, renderer: R, style: Style, bounds: Rectangle) -> Seq<TextView>;

    /// The horizontal sizing policy; constant for a given instance.
    fn width(&self) -> (l: Length)
        ensures
            l == self.width_spec(),
    ;

    /// The vertical sizing policy; constant for a given instance.
    fn height(&self) -> (l: Length)
        ensures
            l == self.height_spec(),
    ;

    /// Computes this widget's layout under `limits`. Layout is infallible:
    /// the returned node's size is always resolved into `[min, max]`,
    /// however over-constrained the request.
    fn layout(&self, renderer: &R, limits: &Limits) -> (node: Node)
        requires
            limits.wf(),
        ensures
            node.size == self.layout_size_spec(*renderer, *limits),
            limits.contains(node.size),
    ;

    /// Draws this widget within the bounds the cursor stands at. Drawing
    /// only appends primitives; it never disturbs the measurement oracle,
    /// and it reads but never mutates the widget.
    fn draw(
        &self,
        renderer: &mut R,
        style: &Style,
        layout: Layout<'_>,
        cursor_position: Point,
        viewport: &Rectangle,
    )
        ensures
            final(renderer).emitted() == old(renderer).emitted() + self.draw_emits(
                *old(renderer),
                *style,
                layout.bounds_spec(),
            ),
            final(renderer).default_size_spec() == old(renderer).default_size_spec(),
            forall|c: Seq<char>, s: u16, f: Font, b: Size|
                #[trigger] final(renderer).measure_spec(c, s, f, b) == old(renderer).measure_spec(
                    c,
                    s,
                    f,
                    b,
                ),
    ;

    /// Appends this widget's fingerprint contribution to the accumulator.
    /// The contribution is exactly `fingerprint_spec`, whatever state the
    /// accumulator starts in.
    fn hash_layout(&self, state: &mut Hasher)
        ensures
            final(state)@ == old(state)@ + self.fingerprint_spec(),
    ;
}

/// Fingerprinting is deterministic: a widget's contribution is a function
/// of its fields alone, so threading the same widget through accumulators
/// in equal states ends in equal states.
pub proof fn lemma_fingerprint_deterministic<R: Renderer, W: Widget<R>>(
    widget: &W,
    first: Seq<u64>,
    second: Seq<u64>,
)
    requires
        first == second,
    ensures
        first + widget.fingerprint_spec() == second + widget.fingerprint_spec(),
{
}

} // verus!
