//! Colour values and their arithmetic, with every result stated exactly.
//!
//! A colour is built over a channel encoding. The integer encodings, `u8`
//! and `u16`, hold a level on an evenly spaced grid between no intensity and
//! full intensity ([`Channel`]). [`Ratio`] holds an exact fraction
//! ([`FloatChannel`]): the values between the levels of a grid, and hues in
//! degrees.
//!
//! [`Rgb`] and [`AlphaColor`] are colours over any channel; [`Hsv`] is a
//! colour over fractions. [`ToRgb`] and [`ToHsv`] convert between the two
//! colour spaces without rounding until a fraction is laid on a grid, so
//! that a colour of levels converted to hue, saturation and value and back
//! is the colour it was.

pub mod alpha;
pub mod channel;
pub mod hsv;
mod numeric;
pub mod ratio;
pub mod rgb;

pub use alpha::{AlphaColor, Hsva, Rgba, ToRgba};
pub use channel::{Channel, FloatChannel};
pub use hsv::{Hsv, ToHsv};
pub use ratio::Ratio;
pub use rgb::{Rg, Rgb, ToRgb};

use vstd::prelude::*;

verus! {

/// The channel value of no intensity, which added to a value leaves it
/// unchanged.
pub fn zero<T: Channel>() -> (c: T)
    ensures
        c == T::at_level(0),
        c.level() == 0,
{
    T::from_level(0)
}

/// The channel value at level 1, which multiplied level by level with a
/// value leaves it unchanged.
pub fn one<T: Channel>() -> (c: T)
    ensures
        c == T::at_level(1),
        c.level() == 1,
{
    proof {
        T::at_level(0).lemma_level_in_range();
    }
    T::from_level(1)
}

/// A colour whose components can be held in bounds and inverted.
pub trait Color<T>: Copy {
    /// The colour with each component held between `lo` and `hi`.
    spec fn clamped_s(self, lo: T, hi: T) -> Self;

    /// The colour with each component held between the matching components
    /// of `lo` and `hi`.
    spec fn clamped_c(self, lo: Self, hi: Self) -> Self;

    /// The inverse of the colour.
    spec fn inverted(self) -> Self;

    /// Clamps the components of the colour to the range `(lo, hi)`.
    fn clamp_s(self, lo: T, hi: T) -> (c: Self)
        ensures
            c == self.clamped_s(lo, hi),
    ;

    /// Clamps the components of the colour component-wise between `lo` and
    /// `hi`.
    fn clamp_c(self, lo: Self, hi: Self) -> (c: Self)
        ensures
            c == self.clamped_c(lo, hi),
    ;

    /// Inverts the colour.
    fn inverse(self) -> (c: Self)
        ensures
            c == self.inverted(),
    ;
}

/// A colour whose components are fractions.
pub trait FloatColor<T>: Color<T> {
    /// The colour with each component brought into its range.
    spec fn normalized(self) -> Self;

    /// Normalizes the components of the colour.
    fn normalize(self) -> (c: Self)
        ensures
            c == self.normalized(),
    ;
}

/// A colour of three components.
pub trait Color3<T>: Color<T> {
    /// The components in order.
    spec fn components(self) -> Seq<T>;

    /// The components as an array.
    fn into_fixed(self) -> (a: [T; 3])
        ensures
            a@ == self.components(),
    ;
}

/// A colour of four components.
pub trait Color4<T>: Color<T> {
    /// The components in order.
    spec fn components(self) -> Seq<T>;

    /// The components as an array.
    fn into_fixed(self) -> (a: [T; 4])
        ensures
            a@ == self.components(),
    ;
}

} // verus!
