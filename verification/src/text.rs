//! The text protocol: fonts, text primitives, and the renderer capability.
//!
//! A backend plugs into the core by implementing [`Renderer`]. The trait
//! couples each executable operation to a specification function of the
//! implementation, so core logic that consults a renderer — measurement
//! during layout, filled text during draw — carries exact contracts for any
//! conforming backend.

use vstd::prelude::*;
use crate::alignment::{Horizontal, Vertical};
use crate::color::Color;
use crate::geometry::{Rectangle, Size};

verus! {

/// A font choice, identified by a backend-assigned key.
#[derive(Clone, Copy, Debug, PartialEq, Eq, Structural)]
pub struct Font {
    pub key: u64,
}

impl Font {
    /// The backend's default font.
    pub fn default_font() -> (f: Font)
        ensures
            f.key == 0,
    {
        Font { key: 0 }
    }
}

/// A text primitive handed to a renderer: the content together with every
/// attribute the backend needs to rasterize it.
pub struct Text {
    pub content: String,
    pub size: u16,
    pub bounds: Rectangle,
    pub color: Color,
    pub font: Font,
    pub horizontal_alignment: Horizontal,
    pub vertical_alignment: Vertical,
}

/// The mathematical image of a [`Text`] primitive.
pub ghost struct TextView {
    pub content: Seq<char>,
    pub size: u16,
    pub bounds: Rectangle,
    pub color: Color,
    pub font: Font,
    pub horizontal_alignment: Horizontal,
    pub vertical_alignment: Vertical,
}

impl View for Text {
    type V = TextView;

    open spec fn view(&self) -> TextView {
        TextView {
            content: self.content@,
            size: self.size,
            bounds: self.bounds,
            color: self.color,
            font: self.font,
            horizontal_alignment: self.horizontal_alignment,
            vertical_alignment: self.vertical_alignment,
        }
    }
}

/// The capability a backend must provide so widgets can measure and draw
/// text. `default_size_spec` and `measure_spec` are the implementation's
/// measurement oracle; `emitted` is the stream of primitives it has been
/// asked to draw, in order.
pub trait Renderer: Sized {
    /// The text size used when a widget sets none.
    spec fn default_size_spec(&self) -> u16;

    /// The measurement oracle: the width and height this backend gives
    /// `content` at `size` in `font`, within `bounds`.
    spec fn measure_spec(&self, content: Seq<char>, size: u16, font: Font, bounds: Size) -> (
        u32,
        u32,
    );

    /// The text primitives this renderer has been asked to draw so far.
    spec fn emitted(&self) -> Seq<TextView>;

    /// The default size of text.
    fn default_size(&self) -> (r: u16)
        ensures
            r == self.default_size_spec(),
    ;

    /// Measures `content`, resolving its intrinsic width and height.
    fn measure(&self, content: &str, size: u16, font: Font, bounds: Size) -> (r: (u32, u32))
        ensures
            r == self.measure_spec(content@, size, font, bounds),
    ;

    /// Draws one text primitive. Drawing changes nothing about the
    /// measurement oracle: layout stays a pure function of the widget
    /// fields and the limits.
    fn fill_text(&mut self, text: Text)
        ensures
            final(self).emitted() == old(self).emitted().push(text@),
            final(self).default_size_spec() == old(self).default_size_spec(),
            forall|c: Seq<char>, s: u16, f: Font, b: Size|
                #[trigger] final(self).measure_spec(c, s, f, b) == old(self).measure_spec(
                    c,
                    s,
                    f,
                    b,
                ),
    ;
}

} // verus!
