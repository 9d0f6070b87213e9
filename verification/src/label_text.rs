//! A label with a mnemonic that never wraps lines.

use vstd::prelude::*;
use vstd::string::StrSliceExecFns;
use crate::alignment::{anchor, anchor_spec, Horizontal, Vertical};
use crate::color::Color;
use crate::geometry::{Point, Rectangle, Size};
use crate::hasher::{length_words, opt_u16_words, str_words, Hasher};
use crate::layout::{lemma_narrow_preserves_bounds, Layout, Limits, Node};
use crate::length::Length;
use crate::renderer::Style;
use crate::text::{Font, Renderer, Text, TextView};
use crate::widget::Widget;

verus! {

/// The fingerprint marker that tells a label apart from every other widget
/// kind.
pub const TEXT_LABEL_MARKER: u64 = 1;

/// State of a [`TextLabel`]: owned by the application's widget-state store,
/// outliving any single per-frame widget instance.
#[derive(Debug)]
pub struct State {
    /// The character currently highlighted as the mnemonic, if any.
    pub marked: Option<char>,
    /// Whether the pointer is over the label.
    pub hovered: bool,
}

impl Default for State {
    /// Fresh state: nothing marked, not hovered.
    fn default() -> (s: State)
        ensures
            s.marked is None,
            !s.hovered,
    {
        State { marked: None, hovered: false }
    }
}

/// A label with a mnemonic that never wraps lines.
///
/// A per-frame configuration value: rebuilt before each layout/draw pass
/// and discarded after it, borrowing its persistent [`State`].
#[derive(Debug)]
pub struct TextLabel<'a> {
    pub state: &'a State,
    pub text: String,
    pub mnemonic: Option<char>,
    pub size: Option<u16>,
    pub color: Option<Color>,
    pub font: Font,
    pub width: Length,
    pub height: Length,
    pub horizontal_alignment: Horizontal,
    pub vertical_alignment: Vertical,
}

impl<'a> TextLabel<'a> {
    /// The words this label contributes to the structural fingerprint: its
    /// kind marker, then each field that affects layout — the text, the
    /// text size, the two sizing policies, and the font, which the
    /// measurement oracle is handed. Cosmetic fields — color, alignment,
    /// the mnemonic, the borrowed state — are deliberately left out, so
    /// purely visual changes reuse the cached layout.
    pub open spec fn fingerprint_words(&self) -> Seq<u64> {
        seq![TEXT_LABEL_MARKER] + str_words(self.text@) + opt_u16_words(self.size) + length_words(
            self.width,
        ) + length_words(self.height) + seq![self.font.key]
    }

    /// The size this label's layout resolves to under `limits`: the limits
    /// narrowed by its sizing policies, the text measured against their
    /// upper bound, and the measurement clamped into range.
    pub open spec fn measured_size_spec<R: Renderer>(&self, renderer: R, limits: Limits) -> Size {
        let narrowed = limits.width_spec(self.width).height_spec(self.height);
        let text_size = match self.size {
            Some(s) => s,
            None => renderer.default_size_spec(),
        };
        let measured = renderer.measure_spec(self.text@, text_size, self.font, narrowed.max);
        narrowed.resolve_spec(Size { width: measured.0, height: measured.1 })
    }

    /// A label over `text`, shrinking to its content, in the default font,
    /// anchored at the top left, borrowing `state`.
    pub fn new(state: &'a State, text: String) -> (r: TextLabel<'a>)
        ensures
            r.state == state,
            r.text == text,
            r.mnemonic is None,
            r.size is None,
            r.color is None,
            r.font == (Font { key: 0 }),
            r.width == Length::Shrink,
            r.height == Length::Shrink,
            r.horizontal_alignment == Horizontal::Left,
            r.vertical_alignment == Vertical::Top,
    {
        TextLabel {
            state,
            text,
            mnemonic: None,
            size: None,
            color: None,
            font: Font { key: 0 },
            width: Length::Shrink,
            height: Length::Shrink,
            horizontal_alignment: Horizontal::Left,
            vertical_alignment: Vertical::Top,
        }
    }

    /// Sets the text size.
    pub fn size(self, size: u16) -> (r: TextLabel<'a>)
        ensures
            r == (TextLabel { size: Some(size), ..self }),
    {
        TextLabel { size: Some(size), ..self }
    }

    /// Sets the mnemonic character.
    pub fn mnemonic(self, mnemonic: char) -> (r: TextLabel<'a>)
        ensures
            r == (TextLabel { mnemonic: Some(mnemonic), ..self }),
    {
        TextLabel { mnemonic: Some(mnemonic), ..self }
    }

    /// Sets the text color.
    pub fn color(self, color: Color) -> (r: TextLabel<'a>)
        ensures
            r == (TextLabel { color: Some(color), ..self }),
    {
        TextLabel { color: Some(color), ..self }
    }

    /// Sets the font.
    pub fn font(self, font: Font) -> (r: TextLabel<'a>)
        ensures
            r == (TextLabel { font, ..self }),
    {
        TextLabel { font, ..self }
    }

    /// Sets the horizontal sizing policy.
    pub fn width(self, width: Length) -> (r: TextLabel<'a>)
        ensures
            r == (TextLabel { width, ..self }),
    {
        TextLabel { width, ..self }
    }

    /// Sets the vertical sizing policy.
    pub fn height(self, height: Length) -> (r: TextLabel<'a>)
        ensures
            r == (TextLabel { height, ..self }),
    {
        TextLabel { height, ..self }
    }

    /// Sets the horizontal alignment of the content.
    pub fn horizontal_alignment(self, alignment: Horizontal) -> (r: TextLabel<'a>)
        ensures
            r == (TextLabel { horizontal_alignment: alignment, ..self }),
    {
        TextLabel { horizontal_alignment: alignment, ..self }
    }

    /// Sets the vertical alignment of the content.
    pub fn vertical_alignment(self, alignment: Vertical) -> (r: TextLabel<'a>)
        ensures
            r == (TextLabel { vertical_alignment: alignment, ..self }),
    {
        TextLabel { vertical_alignment: alignment, ..self }
    }
}

impl<'a, R: Renderer> Widget<R> for TextLabel<'a> {
    open spec fn width_spec(&self) -> Length {
        self.width
    }

    open spec fn height_spec(&self) -> Length {
        self.height
    }

    open spec fn fingerprint_spec(&self) -> Seq<u64> {
        self.fingerprint_words()
    }

    open spec fn layout_size_spec(&self, renderer: R, limits: Limits) -> Size {
        self.measured_size_spec(renderer, limits)
    }

    open spec fn draw_emits(&self, renderer: R, style: Style, bounds: Rectangle) -> Seq<TextView> {
        seq![
            drawn_text(
                renderer,
                style,
                bounds,
                self.text@,
                self.font,
                self.size,
                self.color,
                self.horizontal_alignment,
                self.vertical_alignment,
            ),
        ]
    }

    fn width(&self) -> (l: Length) {
        self.width
    }

    fn height(&self) -> (l: Length) {
        self.height
    }

    fn layout(&self, renderer: &R, limits: &Limits) -> (node: Node)
        ensures
            node.children@.len() == 0,
    {
        let narrowed = limits.width(self.width).height(self.height);
        let text_size = match self.size {
            Some(s) => s,
            None => renderer.default_size(),
        };
        let bounds = narrowed.max();
        let (width, height) = renderer.measure(self.text.as_str(), text_size, self.font, bounds);
        let resolved = narrowed.resolve(Size::new(width, height));
        proof {
            lemma_narrow_preserves_bounds(*limits, self.width, self.height, resolved);
        }
        Node::new(resolved)
    }

    fn draw(
        &self,
        renderer: &mut R,
        style: &Style,
        layout: Layout<'_>,
        cursor_position: Point,
        viewport: &Rectangle,
    ) {
        draw(
            renderer,
            style,
            layout,
            self.text.as_str(),
            self.font,
            self.size,
            self.color,
            self.horizontal_alignment,
            self.vertical_alignment,
        );
        proof {
            assert(renderer.emitted() =~= old(renderer).emitted() + Widget::<R>::draw_emits(
                self,
                *old(renderer),
                *style,
                layout.bounds_spec(),
            ));
        }
    }

    fn hash_layout(&self, state: &mut Hasher) {
        state.write(TEXT_LABEL_MARKER);
        state.write_str(self.text.as_str());
        state.write_opt_u16(self.size);
        state.write_length(self.width);
        state.write_length(self.height);
        state.write(self.font.key);
        proof {
            assert(state@ =~= old(state)@ + self.fingerprint_words());
        }
    }
}

/// Fingerprint layout-sensitivity: two labels carry equal fingerprints
/// exactly when every field that takes part in layout — the text, the
/// text size, the two sizing policies and the font handed to the
/// measurement oracle — agrees. Color, alignment, the mnemonic and the
/// borrowed state never enter the fingerprint, so labels differing only
/// there fingerprint alike, while no two labels that lay out differently
/// can collide.
pub proof fn lemma_fingerprint_layout_sensitivity<'a, 'b>(a: &TextLabel<'a>, b: &TextLabel<'b>)
    ensures
        (a.fingerprint_words() == b.fingerprint_words()) <==> (a.text@ == b.text@ && a.size
            == b.size && a.width == b.width && a.height == b.height && a.font == b.font),
{
    let fa = a.fingerprint_words();
    let fb = b.fingerprint_words();
    if fa == fb {
        assert(fa.len() == 9 + a.text@.len());
        assert(fb.len() == 9 + b.text@.len());
        let n = a.text@.len() as int;
        assert(b.text@.len() == n);
        assert forall|i: int| 0 <= i < 1 + n implies str_words(a.text@)[i] == str_words(
            b.text@,
        )[i] by {
            assert(str_words(a.text@)[i] == fa[1 + i]);
            assert(str_words(b.text@)[i] == fb[1 + i]);
        };
        assert(str_words(a.text@) =~= str_words(b.text@));
        crate::hasher::lemma_str_words_injective(a.text@, b.text@);
        assert(opt_u16_words(a.size)[0] == fa[2 + n]);
        assert(opt_u16_words(a.size)[1] == fa[3 + n]);
        assert(opt_u16_words(b.size)[0] == fb[2 + n]);
        assert(opt_u16_words(b.size)[1] == fb[3 + n]);
        assert(opt_u16_words(a.size) =~= opt_u16_words(b.size));
        crate::hasher::lemma_opt_u16_words_injective(a.size, b.size);
        assert(length_words(a.width)[0] == fa[4 + n]);
        assert(length_words(a.width)[1] == fa[5 + n]);
        assert(length_words(b.width)[0] == fb[4 + n]);
        assert(length_words(b.width)[1] == fb[5 + n]);
        assert(length_words(a.width) =~= length_words(b.width));
        crate::hasher::lemma_length_words_injective(a.width, b.width);
        assert(length_words(a.height)[0] == fa[6 + n]);
        assert(length_words(a.height)[1] == fa[7 + n]);
        assert(length_words(b.height)[0] == fb[6 + n]);
        assert(length_words(b.height)[1] == fb[7 + n]);
        assert(length_words(a.height) =~= length_words(b.height));
        crate::hasher::lemma_length_words_injective(a.height, b.height);
        assert(a.font.key == fa[8 + n]);
        assert(b.font.key == fb[8 + n]);
        assert(a.font == b.font);
    }
    if a.text@ == b.text@ && a.size == b.size && a.width == b.width && a.height == b.height
        && a.font == b.font {
        assert(fa == fb);
    }
}

/// The primitive one `draw` call emits: the content, its resolved fallbacks
/// — the renderer's default size when none is set, the ambient text color
/// when none is set — and the bounds re-anchored by the shared alignment
/// rule.
pub open spec fn drawn_text<R: Renderer>(
    renderer: R,
    style: Style,
    bounds: Rectangle,
    content: Seq<char>,
    font: Font,
    size: Option<u16>,
    color: Option<Color>,
    horizontal_alignment: Horizontal,
    vertical_alignment: Vertical,
) -> TextView {
    TextView {
        content,
        size: match size {
            Some(s) => s,
            None => renderer.default_size_spec(),
        },
        bounds: Rectangle {
            x: anchor_spec(bounds, horizontal_alignment, vertical_alignment).x,
            y: anchor_spec(bounds, horizontal_alignment, vertical_alignment).y,
            width: bounds.width,
            height: bounds.height,
        },
        color: match color {
            Some(c) => c,
            None => style.text_color,
        },
        font,
        horizontal_alignment,
        vertical_alignment,
    }
}

/// Draws text the way every text-bearing widget does.
///
/// Specifically:
///
/// * If no `size` is provided, the default text size of the renderer is
///   used.
/// * If no `color` is provided, the ambient style's text color is used.
/// * The alignment attributes re-anchor the origin of the bounds through
///   the shared alignment rule; they do not affect the bounds' extent.
pub fn draw<R: Renderer>(
    renderer: &mut R,
    style: &Style,
    layout: Layout<'_>,
    content: &str,
    font: Font,
    size: Option<u16>,
    color: Option<Color>,
    horizontal_alignment: Horizontal,
    vertical_alignment: Vertical,
)
    ensures
        final(renderer).emitted() == old(renderer).emitted().push(
            drawn_text(
                *old(renderer),
                *style,
                layout.bounds_spec(),
                content@,
                font,
                size,
                color,
                horizontal_alignment,
                vertical_alignment,
            ),
        ),
        final(renderer).default_size_spec() == old(renderer).default_size_spec(),
        forall|c: Seq<char>, s: u16, f: Font, b: Size|
            #[trigger] final(renderer).measure_spec(c, s, f, b) == old(renderer).measure_spec(
                c,
                s,
                f,
                b,
            ),
{
    let bounds = layout.bounds();
    let anchored = anchor(&bounds, horizontal_alignment, vertical_alignment);
    let text_size = match size {
        Some(s) => s,
        None => renderer.default_size(),
    };
    let text_color = match color {
        Some(c) => c,
        None => style.text_color,
    };
    renderer.fill_text(
        Text {
            content: content.to_owned(),
            size: text_size,
            bounds: Rectangle {
                x: anchored.x,
                y: anchored.y,
                width: bounds.width,
                height: bounds.height,
            },
            color: text_color,
            font,
            horizontal_alignment,
            vertical_alignment,
        },
    );
}

} // verus!
