//! A widget that produces a message when clicked.
//!
//! A button wraps a content label with padding on every side. Its pressed
//! flag lives in an externally-owned [`State`], so the per-frame button
//! instance stays a cheap configuration value.

use vstd::prelude::*;
use crate::geometry::{sat_add, sat_add_spec, sat_sub, sat_sub_spec, Point, Rectangle, Size};
use crate::hasher::{length_words, Hasher};
use crate::label_text::TextLabel;
use crate::layout::{lemma_narrow_preserves_bounds, Child, Layout, Limits, Node};
use crate::length::Length;
use crate::renderer::Style;
use crate::text::{Renderer, TextView};
use crate::widget::Widget;

verus! {

/// The fingerprint marker that tells a button apart from every other
/// widget kind.
pub const BUTTON_MARKER: u64 = 2;

/// State of a button: owned by the application's widget-state store,
/// outliving any single per-frame widget instance.
#[derive(Debug)]
pub struct State {
    /// Whether the button is currently pressed.
    pub is_pressed: bool,
}

impl Default for State {
    /// Fresh state: not pressed.
    fn default() -> (s: State)
        ensures
            !s.is_pressed,
    {
        State { is_pressed: false }
    }
}

/// A clickable widget wrapping a padded content label.
#[derive(Debug)]
pub struct Button<'a> {
    pub state: &'a State,
    pub content: TextLabel<'a>,
    pub width: Length,
    pub height: Length,
    pub padding: u16,
}

impl<'a> Button<'a> {
    /// The padding reserved on both sides of one axis.
    pub open spec fn pad2_spec(&self) -> u32 {
        (2 * self.padding) as u32
    }

    /// The words this button contributes to the structural fingerprint:
    /// its kind marker, the fields that affect its own layout, then its
    /// content's contribution — the whole subtree in tree order.
    pub open spec fn fingerprint_words(&self) -> Seq<u64> {
        seq![BUTTON_MARKER, self.padding as u64] + length_words(self.width) + length_words(
            self.height,
        ) + self.content.fingerprint_words()
    }

    /// The bounds left for the content once the padding is taken from
    /// every side of `bounds`.
    pub open spec fn content_bounds_spec(&self, bounds: Rectangle) -> Rectangle {
        Rectangle {
            x: sat_add_spec(bounds.x, self.padding as u32),
            y: sat_add_spec(bounds.y, self.padding as u32),
            width: sat_sub_spec(bounds.width, self.pad2_spec()),
            height: sat_sub_spec(bounds.height, self.pad2_spec()),
        }
    }

    /// The size this button's layout resolves to: the content laid out
    /// under the padded limits, the padding added back, and the sum
    /// clamped into the narrowed limits.
    pub open spec fn sized_spec<R: Renderer>(&self, renderer: R, limits: Limits) -> Size {
        let narrowed = limits.width_spec(self.width).height_spec(self.height);
        let child_limits = narrowed.shrink_spec(
            Size { width: self.pad2_spec(), height: self.pad2_spec() },
        );
        let content_size = self.content.measured_size_spec(renderer, child_limits);
        narrowed.resolve_spec(
            Size {
                width: sat_add_spec(content_size.width, self.pad2_spec()),
                height: sat_add_spec(content_size.height, self.pad2_spec()),
            },
        )
    }

    /// A button over `content`, shrinking to it, with the default padding,
    /// borrowing `state`.
    pub fn new(state: &'a State, content: TextLabel<'a>) -> (r: Button<'a>)
        ensures
            r.state == state,
            r.content == content,
            r.width == Length::Shrink,
            r.height == Length::Shrink,
            r.padding == 5u16,
    {
        Button { state, content, width: Length::Shrink, height: Length::Shrink, padding: 5 }
    }

    /// Sets the horizontal sizing policy.
    pub fn width(self, width: Length) -> (r: Button<'a>)
        ensures
            r == (Button { width, ..self }),
    {
        Button { width, ..self }
    }

    /// Sets the vertical sizing policy.
    pub fn height(self, height: Length) -> (r: Button<'a>)
        ensures
            r == (Button { height, ..self }),
    {
        Button { height, ..self }
    }

    /// Sets the padding around the content.
    pub fn padding(self, padding: u16) -> (r: Button<'a>)
        ensures
            r == (Button { padding, ..self }),
    {
        Button { padding, ..self }
    }
}

/// The kind marker does its job: a label and a button never fingerprint
/// alike, however their fields are chosen, so a cached layout is never
/// reused across widget kinds.
pub proof fn lemma_fingerprint_distinguishes_kinds<'a, 'b>(label: &TextLabel<'a>, button: &Button<'b>)
    ensures
        label.fingerprint_words() != button.fingerprint_words(),
{
    assert(label.fingerprint_words()[0] == crate::label_text::TEXT_LABEL_MARKER);
    assert(button.fingerprint_words()[0] == BUTTON_MARKER);
}

impl<'a, R: Renderer> Widget<R> for Button<'a> {
    open spec fn width_spec(&self) -> Length {
        self.width
    }

    open spec fn height_spec(&self) -> Length {
        self.height
    }

    open spec fn fingerprint_spec(&self) -> Seq<u64> {
        self.fingerprint_words()
    }

    open spec fn layout_size_spec(&self, renderer: R, limits: Limits) -> Size {
        self.sized_spec(renderer, limits)
    }

    open spec fn draw_emits(&self, renderer: R, style: Style, bounds: Rectangle) -> Seq<TextView> {
        Widget::<R>::draw_emits(&self.content, renderer, style, self.content_bounds_spec(bounds))
    }

    fn width(&self) -> (l: Length) {
        self.width
    }

    fn height(&self) -> (l: Length) {
        self.height
    }

    fn layout(&self, renderer: &R, limits: &Limits) -> (node: Node)
        ensures
            node.children@.len() == 1,
            (node.children@[0].offset == Point {
                x: self.padding as u32,
                y: self.padding as u32,
            }),
            node.children@[0].node.size == self.content.measured_size_spec(
                *renderer,
                limits.width_spec(self.width).height_spec(self.height).shrink_spec(
                    Size { width: self.pad2_spec(), height: self.pad2_spec() },
                ),
            ),
            node.children@[0].node.children@.len() == 0,
    {
        let narrowed = limits.width(self.width).height(self.height);
        let pad2: u32 = 2 * (self.padding as u32);
        let child_limits = narrowed.shrink(Size::new(pad2, pad2));
        let content_node = self.content.layout(renderer, &child_limits);
        let size = narrowed.resolve(
            Size::new(
                sat_add(content_node.size.width, pad2),
                sat_add(content_node.size.height, pad2),
            ),
        );
        proof {
            lemma_narrow_preserves_bounds(*limits, self.width, self.height, size);
        }
        let offset = Point::new(self.padding as u32, self.padding as u32);
        Node::with_children(size, vec![Child { offset, node: content_node }])
    }

    fn draw(
        &self,
        renderer: &mut R,
        style: &Style,
        layout: Layout<'_>,
        cursor_position: Point,
        viewport: &Rectangle,
    ) {
        let bounds = layout.bounds();
        let pad = self.padding as u32;
        let pad2: u32 = 2 * pad;
        let content_node = Node::new(
            Size::new(sat_sub(bounds.width, pad2), sat_sub(bounds.height, pad2)),
        );
        let content_layout = Layout::at(
            Point::new(sat_add(bounds.x, pad), sat_add(bounds.y, pad)),
            &content_node,
        );
        self.content.draw(renderer, style, content_layout, cursor_position, viewport);
    }

    fn hash_layout(&self, state: &mut Hasher) {
        state.write(BUTTON_MARKER);
        state.write(self.padding as u64);
        state.write_length(self.width);
        state.write_length(self.height);
        Widget::<R>::hash_layout(&self.content, state);
        proof {
            assert(state@ =~= old(state)@ + self.fingerprint_words());
        }
    }
}

} // verus!
