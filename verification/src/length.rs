//! Sizing policies a widget declares for each axis.

use vstd::prelude::*;

verus! {

/// The sizing intent of a widget along one axis.
///
/// `Fill` and `FillPortion` ask for the available space (a portion of it when
/// siblings also fill), `Shrink` asks for the intrinsic content size, and
/// `Units` asks for a fixed amount.
#[derive(Clone, Copy, Debug, PartialEq, Eq, Structural)]
pub enum Length {
    Fill,
    FillPortion(u16),
    Shrink,
    Units(u16),
}

} // verus!
