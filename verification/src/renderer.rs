//! Ambient draw style, and a reference backend.
//!
//! [`Monospace`] is a complete, verified implementation of the renderer
//! capability: every character advances by the text size, and drawn
//! primitives are recorded in order. It stands in for a real backend in
//! tests and exercises the same contracts any backend must meet.

use vstd::prelude::*;
use vstd::string::StrSliceExecFns;
use crate::color::Color;
use crate::geometry::Size;
use crate::text::{Font, Renderer, Text, TextView};

verus! {

/// The ambient style a draw pass runs under.
#[derive(Clone, Copy, Debug)]
pub struct Style {
    /// The color text falls back to when a widget sets none.
    pub text_color: Color,
}

impl Default for Style {
    /// The default style draws text in opaque black.
    fn default() -> (s: Style)
        ensures
            s.text_color == (Color { r: 0, g: 0, b: 0, a: 255 }),
    {
        Style { text_color: Color { r: 0, g: 0, b: 0, a: 255 } }
    }
}

/// A backend whose glyphs all have the same advance: a line of text is as
/// wide as its character count times the text size, and as tall as the text
/// size. Primitives handed to `fill_text` are recorded in order.
pub struct Monospace {
    /// The text size used when a widget sets none.
    pub text_size: u16,
    /// Every text primitive drawn so far, oldest first.
    pub recorded: Vec<Text>,
}

impl Monospace {
    /// A fresh backend with the given default text size.
    pub fn new(text_size: u16) -> (r: Monospace)
        ensures
            r.default_size_spec() == text_size,
            r.emitted() == Seq::<TextView>::empty(),
    {
        let r = Monospace { text_size, recorded: Vec::new() };
        proof {
            assert(r.emitted() =~= Seq::<TextView>::empty());
        }
        r
    }

    /// How many primitives have been drawn; lets a caller observe that a
    /// draw pass ran even when layout was reused.
    pub fn drawn_count(&self) -> (r: usize)
        ensures
            r == self.emitted().len(),
    {
        self.recorded.len()
    }
}

impl Renderer for Monospace {
    open spec fn default_size_spec(&self) -> u16 {
        self.text_size
    }

    open spec fn measure_spec(&self, content: Seq<char>, size: u16, font: Font, bounds: Size) -> (
        u32,
        u32,
    ) {
        (
            if content.len() * (size as nat) > u32::MAX {
                u32::MAX
            } else {
                (content.len() * (size as nat)) as u32
            },
            size as u32,
        )
    }

    open spec fn emitted(&self) -> Seq<TextView> {
        self.recorded@.map_values(|t: Text| t@)
    }

    fn default_size(&self) -> (r: u16) {
        self.text_size
    }

    fn measure(&self, content: &str, size: u16, font: Font, bounds: Size) -> (r: (u32, u32)) {
        let n = content.unicode_len();
        let width: u32 = if size == 0 {
            0
        } else if n >= u32::MAX as usize {
            proof {
                assert((n as nat) * (size as nat) >= n as nat) by (nonlinear_arith)
                    requires
                        size >= 1,
                ;
            }
            u32::MAX
        } else {
            proof {
                assert((n as u64) * (size as u64) <= 0xFFFF_FFFFu64 * 0xFFFFu64)
                    by (nonlinear_arith)
                    requires
                        n as u64 <= 0xFFFF_FFFFu64,
                        size as u64 <= 0xFFFFu64,
                ;
            }
            let wide: u64 = (n as u64) * (size as u64);
            if wide > u32::MAX as u64 {
                u32::MAX
            } else {
                wide as u32
            }
        };
        (width, size as u32)
    }

    fn fill_text(&mut self, text: Text) {
        let ghost t: TextView = text@;
        self.recorded.push(text);
        proof {
            assert(self.emitted() =~= old(self).emitted().push(t));
        }
    }
}

} // verus!
