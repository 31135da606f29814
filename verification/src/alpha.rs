//! Colours with an opacity beside them.

use crate::channel::{
    clamped, inverted, lemma_invert_involution, lemma_mix_boundaries, level_difference,
    level_product, level_quotient, level_sum, mixed, normalized_product, normalized_quotient,
    saturated_difference, saturated_sum, to_channel, Channel,
};
use crate::hsv::Hsv;
use crate::ratio::Ratio;
use crate::rgb::{selected, Rg, Rgb, ToRgb};
use crate::{Color, Color4};
use vstd::prelude::*;
use vstd::std_specs::ops::{
    AddSpec, AddSpecImpl, DivSpec, DivSpecImpl, MulSpec, MulSpecImpl, SubSpec, SubSpecImpl,
};

verus! {

/// A colour `c` with an opacity `a`.
#[derive(Clone, Copy, PartialEq, Eq, Debug)]
pub struct AlphaColor<T, C> {
    pub c: C,
    pub a: T,
}

/// Red, green and blue with an opacity.
pub type Rgba<T> = AlphaColor<T, Rgb<T>>;

/// Hue, saturation and value with an opacity.
pub type Hsva<T> = AlphaColor<T, Hsv<T>>;

impl<T: Channel, C: Color<T>> Color<T> for AlphaColor<T, C> {
    open spec fn clamped_s(self, lo: T, hi: T) -> AlphaColor<T, C> {
        AlphaColor { c: self.c.clamped_s(lo, hi), a: clamped(self.a, lo, hi) }
    }

    open spec fn clamped_c(self, lo: AlphaColor<T, C>, hi: AlphaColor<T, C>) -> AlphaColor<T, C> {
        AlphaColor { c: self.c.clamped_c(lo.c, hi.c), a: clamped(self.a, lo.a, hi.a) }
    }

    open spec fn inverted(self) -> AlphaColor<T, C> {
        AlphaColor { c: self.c.inverted(), a: inverted(self.a) }
    }

    fn clamp_s(self, lo: T, hi: T) -> (c: AlphaColor<T, C>) {
        AlphaColor { c: self.c.clamp_s(lo, hi), a: self.a.clamp(lo, hi) }
    }

    fn clamp_c(self, lo: AlphaColor<T, C>, hi: AlphaColor<T, C>) -> (c: AlphaColor<T, C>) {
        AlphaColor { c: self.c.clamp_c(lo.c, hi.c), a: self.a.clamp(lo.a, hi.a) }
    }

    fn inverse(self) -> (c: AlphaColor<T, C>) {
        AlphaColor { c: self.c.inverse(), a: self.a.invert_channel() }
    }
}

impl<T: Channel> Color4<T> for AlphaColor<T, Rgb<T>> {
    open spec fn components(self) -> Seq<T> {
        seq![self.c.r, self.c.g, self.c.b, self.a]
    }

    fn into_fixed(self) -> (a: [T; 4]) {
        let a: [T; 4] = [self.c.r, self.c.g, self.c.b, self.a];
        assert(a@ =~= self.components());
        a
    }
}

impl<T: Channel, C: ToRgb> ToRgb for AlphaColor<T, C> {
    open spec fn rgb_u8(&self) -> Rgb<u8> {
        self.c.rgb_u8()
    }

    open spec fn rgb_u16(&self) -> Rgb<u16> {
        self.c.rgb_u16()
    }

    fn to_rgb<U: Channel>(&self) -> (c: Rgb<U>) {
        self.c.to_rgb()
    }
}

/// The colour with opacity of encoding `U`, picked among the re-encodings of
/// one colour.
pub open spec fn selected_rgba<U: Channel>(in_u8: Rgba<u8>, in_u16: Rgba<u16>) -> Rgba<U> {
    AlphaColor { c: selected::<U>(in_u8.c, in_u16.c), a: U::select(in_u8.a, in_u16.a) }
}

/// A colour that can be given as red, green and blue with an opacity, in any
/// channel encoding.
pub trait ToRgba {
    /// The colour and its opacity in 8 bits.
    spec fn rgba_u8(&self) -> Rgba<u8>;

    /// The colour and its opacity in 16 bits.
    spec fn rgba_u16(&self) -> Rgba<u16>;

    /// Converts the colour to red, green and blue with an opacity, in the
    /// encoding `U`.
    fn to_rgba<U: Channel>(&self) -> (c: Rgba<U>)
        ensures
            c == selected_rgba::<U>(self.rgba_u8(), self.rgba_u16()),
    ;
}

impl<T: Channel, C: ToRgb> ToRgba for AlphaColor<T, C> {
    open spec fn rgba_u8(&self) -> Rgba<u8> {
        AlphaColor { c: self.c.rgb_u8(), a: self.a.as_u8() }
    }

    open spec fn rgba_u16(&self) -> Rgba<u16> {
        AlphaColor { c: self.c.rgb_u16(), a: self.a.as_u16() }
    }

    fn to_rgba<U: Channel>(&self) -> (c: Rgba<U>) {
        AlphaColor { c: self.c.to_rgb(), a: to_channel(self.a) }
    }
}

/// A colour without an opacity is fully opaque.
impl<T: Channel> ToRgba for Rgb<T> {
    open spec fn rgba_u8(&self) -> Rgba<u8> {
        AlphaColor { c: self.rgb_u8(), a: 0xFF }
    }

    open spec fn rgba_u16(&self) -> Rgba<u16> {
        AlphaColor { c: self.rgb_u16(), a: 0xFFFF }
    }

    fn to_rgba<U: Channel>(&self) -> (c: Rgba<U>) {
        AlphaColor { c: self.to_rgb(), a: U::from_encodings(0xFF, 0xFFFF) }
    }
}

/// A colour without an opacity is fully opaque.
impl ToRgba for Hsv<Ratio> {
    open spec fn rgba_u8(&self) -> Rgba<u8> {
        AlphaColor { c: self.rgb_u8(), a: 0xFF }
    }

    open spec fn rgba_u16(&self) -> Rgba<u16> {
        AlphaColor { c: self.rgb_u16(), a: 0xFFFF }
    }

    fn to_rgba<U: Channel>(&self) -> (c: Rgba<U>) {
        AlphaColor { c: self.to_rgb(), a: U::from_encodings(0xFF, 0xFFFF) }
    }
}

impl<T: Copy> AlphaColor<T, Rgb<T>> {
    /// The red and green, in that order.
    pub fn rg(&self) -> (c: Rg<T>)
        ensures
            c == (Rg { r: self.c.r, g: self.c.g }),
    {
        Rg { r: self.c.r, g: self.c.g }
    }

    /// The red and blue, in that order.
    pub fn rb(&self) -> (c: Rg<T>)
        ensures
            c == (Rg { r: self.c.r, g: self.c.b }),
    {
        Rg { r: self.c.r, g: self.c.b }
    }

    /// The green and red, in that order.
    pub fn gr(&self) -> (c: Rg<T>)
        ensures
            c == (Rg { r: self.c.g, g: self.c.r }),
    {
        Rg { r: self.c.g, g: self.c.r }
    }

    /// The green and blue, in that order.
    pub fn gb(&self) -> (c: Rg<T>)
        ensures
            c == (Rg { r: self.c.g, g: self.c.b }),
    {
        Rg { r: self.c.g, g: self.c.b }
    }

    /// The blue and red, in that order.
    pub fn br(&self) -> (c: Rg<T>)
        ensures
            c == (Rg { r: self.c.b, g: self.c.r }),
    {
        Rg { r: self.c.b, g: self.c.r }
    }

    /// The blue and green, in that order.
    pub fn bg(&self) -> (c: Rg<T>)
        ensures
            c == (Rg { r: self.c.b, g: self.c.g }),
    {
        Rg { r: self.c.b, g: self.c.g }
    }

    /// The opacity and red, in that order.
    pub fn ar(&self) -> (c: Rg<T>)
        ensures
            c == (Rg { r: self.a, g: self.c.r }),
    {
        Rg { r: self.a, g: self.c.r }
    }

    /// The opacity and green, in that order.
    pub fn ag(&self) -> (c: Rg<T>)
        ensures
            c == (Rg { r: self.a, g: self.c.g }),
    {
        Rg { r: self.a, g: self.c.g }
    }

    /// The opacity and blue, in that order.
    pub fn ab(&self) -> (c: Rg<T>)
        ensures
            c == (Rg { r: self.a, g: self.c.b }),
    {
        Rg { r: self.a, g: self.c.b }
    }

    /// The red and opacity, in that order.
    pub fn ra(&self) -> (c: Rg<T>)
        ensures
            c == (Rg { r: self.c.r, g: self.a }),
    {
        Rg { r: self.c.r, g: self.a }
    }

    /// The green and opacity, in that order.
    pub fn ga(&self) -> (c: Rg<T>)
        ensures
            c == (Rg { r: self.c.g, g: self.a }),
    {
        Rg { r: self.c.g, g: self.a }
    }

    /// The blue and opacity, in that order.
    pub fn ba(&self) -> (c: Rg<T>)
        ensures
            c == (Rg { r: self.c.b, g: self.a }),
    {
        Rg { r: self.c.b, g: self.a }
    }

    /// The red, green and blue, in that order.
    pub fn rgb(&self) -> (c: Rgb<T>)
        ensures
            c == (Rgb { r: self.c.r, g: self.c.g, b: self.c.b }),
    {
        Rgb { r: self.c.r, g: self.c.g, b: self.c.b }
    }

    /// The red, blue and green, in that order.
    pub fn rbg(&self) -> (c: Rgb<T>)
        ensures
            c == (Rgb { r: self.c.r, g: self.c.b, b: self.c.g }),
    {
        Rgb { r: self.c.r, g: self.c.b, b: self.c.g }
    }

    /// The blue, green and red, in that order.
    pub fn bgr(&self) -> (c: Rgb<T>)
        ensures
            c == (Rgb { r: self.c.b, g: self.c.g, b: self.c.r }),
    {
        Rgb { r: self.c.b, g: self.c.g, b: self.c.r }
    }

    /// The blue, red and green, in that order.
    pub fn brg(&self) -> (c: Rgb<T>)
        ensures
            c == (Rgb { r: self.c.b, g: self.c.r, b: self.c.g }),
    {
        Rgb { r: self.c.b, g: self.c.r, b: self.c.g }
    }

    /// The green, red and blue, in that order.
    pub fn grb(&self) -> (c: Rgb<T>)
        ensures
            c == (Rgb { r: self.c.g, g: self.c.r, b: self.c.b }),
    {
        Rgb { r: self.c.g, g: self.c.r, b: self.c.b }
    }

    /// The green, blue and red, in that order.
    pub fn gbr(&self) -> (c: Rgb<T>)
        ensures
            c == (Rgb { r: self.c.g, g: self.c.b, b: self.c.r }),
    {
        Rgb { r: self.c.g, g: self.c.b, b: self.c.r }
    }

    /// The red, green and opacity, in that order.
    pub fn rga(&self) -> (c: Rgb<T>)
        ensures
            c == (Rgb { r: self.c.r, g: self.c.g, b: self.a }),
    {
        Rgb { r: self.c.r, g: self.c.g, b: self.a }
    }

    /// The red, blue and opacity, in that order.
    pub fn rba(&self) -> (c: Rgb<T>)
        ensures
            c == (Rgb { r: self.c.r, g: self.c.b, b: self.a }),
    {
        Rgb { r: self.c.r, g: self.c.b, b: self.a }
    }

    /// The blue, red and opacity, in that order.
    pub fn bra(&self) -> (c: Rgb<T>)
        ensures
            c == (Rgb { r: self.c.b, g: self.c.r, b: self.a }),
    {
        Rgb { r: self.c.b, g: self.c.r, b: self.a }
    }

    /// The blue, green and opacity, in that order.
    pub fn bga(&self) -> (c: Rgb<T>)
        ensures
            c == (Rgb { r: self.c.b, g: self.c.g, b: self.a }),
    {
        Rgb { r: self.c.b, g: self.c.g, b: self.a }
    }

    /// The green, red and opacity, in that order.
    pub fn gra(&self) -> (c: Rgb<T>)
        ensures
            c == (Rgb { r: self.c.g, g: self.c.r, b: self.a }),
    {
        Rgb { r: self.c.g, g: self.c.r, b: self.a }
    }

    /// The green, blue and opacity, in that order.
    pub fn gba(&self) -> (c: Rgb<T>)
        ensures
            c == (Rgb { r: self.c.g, g: self.c.b, b: self.a }),
    {
        Rgb { r: self.c.g, g: self.c.b, b: self.a }
    }

    /// The opacity, red and green, in that order.
    pub fn arg(&self) -> (c: Rgb<T>)
        ensures
            c == (Rgb { r: self.a, g: self.c.r, b: self.c.g }),
    {
        Rgb { r: self.a, g: self.c.r, b: self.c.g }
    }

    /// The opacity, red and blue, in that order.
    pub fn arb(&self) -> (c: Rgb<T>)
        ensures
            c == (Rgb { r: self.a, g: self.c.r, b: self.c.b }),
    {
        Rgb { r: self.a, g: self.c.r, b: self.c.b }
    }

    /// The opacity, green and red, in that order.
    pub fn agr(&self) -> (c: Rgb<T>)
        ensures
            c == (Rgb { r: self.a, g: self.c.g, b: self.c.r }),
    {
        Rgb { r: self.a, g: self.c.g, b: self.c.r }
    }

    /// The opacity, green and blue, in that order.
    pub fn agb(&self) -> (c: Rgb<T>)
        ensures
            c == (Rgb { r: self.a, g: self.c.g, b: self.c.b }),
    {
        Rgb { r: self.a, g: self.c.g, b: self.c.b }
    }

    /// The opacity, blue and red, in that order.
    pub fn abr(&self) -> (c: Rgb<T>)
        ensures
            c == (Rgb { r: self.a, g: self.c.b, b: self.c.r }),
    {
        Rgb { r: self.a, g: self.c.b, b: self.c.r }
    }

    /// The opacity, blue and green, in that order.
    pub fn abg(&self) -> (c: Rgb<T>)
        ensures
            c == (Rgb { r: self.a, g: self.c.b, b: self.c.g }),
    {
        Rgb { r: self.a, g: self.c.b, b: self.c.g }
    }

    /// The red, opacity and green, in that order.
    pub fn rag(&self) -> (c: Rgb<T>)
        ensures
            c == (Rgb { r: self.c.r, g: self.a, b: self.c.g }),
    {
        Rgb { r: self.c.r, g: self.a, b: self.c.g }
    }

    /// The red, opacity and blue, in that order.
    pub fn rab(&self) -> (c: Rgb<T>)
        ensures
            c == (Rgb { r: self.c.r, g: self.a, b: self.c.b }),
    {
        Rgb { r: self.c.r, g: self.a, b: self.c.b }
    }

    /// The green, opacity and red, in that order.
    pub fn gar(&self) -> (c: Rgb<T>)
        ensures
            c == (Rgb { r: self.c.g, g: self.a, b: self.c.r }),
    {
        Rgb { r: self.c.g, g: self.a, b: self.c.r }
    }

    /// The green, opacity and blue, in that order.
    pub fn gab(&self) -> (c: Rgb<T>)
        ensures
            c == (Rgb { r: self.c.g, g: self.a, b: self.c.b }),
    {
        Rgb { r: self.c.g, g: self.a, b: self.c.b }
    }

    /// The blue, opacity and red, in that order.
    pub fn bar(&self) -> (c: Rgb<T>)
        ensures
            c == (Rgb { r: self.c.b, g: self.a, b: self.c.r }),
    {
        Rgb { r: self.c.b, g: self.a, b: self.c.r }
    }

    /// The blue, opacity and green, in that order.
    pub fn bag(&self) -> (c: Rgb<T>)
        ensures
            c == (Rgb { r: self.c.b, g: self.a, b: self.c.g }),
    {
        Rgb { r: self.c.b, g: self.a, b: self.c.g }
    }

    /// The red, green, blue and opacity, in that order.
    pub fn rgba(&self) -> (c: Rgba<T>)
        ensures
            c == (AlphaColor {
                c: Rgb { r: self.c.r, g: self.c.g, b: self.c.b },
                a: self.a,
            }),
    {
        AlphaColor {
            c: Rgb { r: self.c.r, g: self.c.g, b: self.c.b },
            a: self.a,
        }
    }

    /// The red, blue, green and opacity, in that order.
    pub fn rbga(&self) -> (c: Rgba<T>)
        ensures
            c == (AlphaColor {
                c: Rgb { r: self.c.r, g: self.c.b, b: self.c.g },
                a: self.a,
            }),
    {
        AlphaColor {
            c: Rgb { r: self.c.r, g: self.c.b, b: self.c.g },
            a: self.a,
        }
    }

    /// The green, red, blue and opacity, in that order.
    pub fn grba(&self) -> (c: Rgba<T>)
        ensures
            c == (AlphaColor {
                c: Rgb { r: self.c.g, g: self.c.r, b: self.c.b },
                a: self.a,
            }),
    {
        AlphaColor {
            c: Rgb { r: self.c.g, g: self.c.r, b: self.c.b },
            a: self.a,
        }
    }

    /// The green, blue, red and opacity, in that order.
    pub fn gbra(&self) -> (c: Rgba<T>)
        ensures
            c == (AlphaColor {
                c: Rgb { r: self.c.g, g: self.c.b, b: self.c.r },
                a: self.a,
            }),
    {
        AlphaColor {
            c: Rgb { r: self.c.g, g: self.c.b, b: self.c.r },
            a: self.a,
        }
    }

    /// The blue, red, green and opacity, in that order.
    pub fn brga(&self) -> (c: Rgba<T>)
        ensures
            c == (AlphaColor {
                c: Rgb { r: self.c.b, g: self.c.r, b: self.c.g },
                a: self.a,
            }),
    {
        AlphaColor {
            c: Rgb { r: self.c.b, g: self.c.r, b: self.c.g },
            a: self.a,
        }
    }

    /// The blue, green, red and opacity, in that order.
    pub fn bgra(&self) -> (c: Rgba<T>)
        ensures
            c == (AlphaColor {
                c: Rgb { r: self.c.b, g: self.c.g, b: self.c.r },
                a: self.a,
            }),
    {
        AlphaColor {
            c: Rgb { r: self.c.b, g: self.c.g, b: self.c.r },
            a: self.a,
        }
    }

    /// The opacity, red, green and blue, in that order.
    pub fn argb(&self) -> (c: Rgba<T>)
        ensures
            c == (AlphaColor {
                c: Rgb { r: self.a, g: self.c.r, b: self.c.g },
                a: self.c.b,
            }),
    {
        AlphaColor {
            c: Rgb { r: self.a, g: self.c.r, b: self.c.g },
            a: self.c.b,
        }
    }

    /// The opacity, red, blue and green, in that order.
    pub fn arbg(&self) -> (c: Rgba<T>)
        ensures
            c == (AlphaColor {
                c: Rgb { r: self.a, g: self.c.r, b: self.c.b },
                a: self.c.g,
            }),
    {
        AlphaColor {
            c: Rgb { r: self.a, g: self.c.r, b: self.c.b },
            a: self.c.g,
        }
    }

    /// The opacity, green, red and blue, in that order.
    pub fn agrb(&self) -> (c: Rgba<T>)
        ensures
            c == (AlphaColor {
                c: Rgb { r: self.a, g: self.c.g, b: self.c.r },
                a: self.c.b,
            }),
    {
        AlphaColor {
            c: Rgb { r: self.a, g: self.c.g, b: self.c.r },
            a: self.c.b,
        }
    }

    /// The opacity, green, blue and red, in that order.
    pub fn agbr(&self) -> (c: Rgba<T>)
        ensures
            c == (AlphaColor {
                c: Rgb { r: self.a, g: self.c.g, b: self.c.b },
                a: self.c.r,
            }),
    {
        AlphaColor {
            c: Rgb { r: self.a, g: self.c.g, b: self.c.b },
            a: self.c.r,
        }
    }

    /// The opacity, blue, red and green, in that order.
    pub fn abrg(&self) -> (c: Rgba<T>)
        ensures
            c == (AlphaColor {
                c: Rgb { r: self.a, g: self.c.b, b: self.c.r },
                a: self.c.g,
            }),
    {
        AlphaColor {
            c: Rgb { r: self.a, g: self.c.b, b: self.c.r },
            a: self.c.g,
        }
    }

    /// The opacity, blue, green and red, in that order.
    pub fn abgr(&self) -> (c: Rgba<T>)
        ensures
            c == (AlphaColor {
                c: Rgb { r: self.a, g: self.c.b, b: self.c.g },
                a: self.c.r,
            }),
    {
        AlphaColor {
            c: Rgb { r: self.a, g: self.c.b, b: self.c.g },
            a: self.c.r,
        }
    }

    /// The red, opacity, green and blue, in that order.
    pub fn ragb(&self) -> (c: Rgba<T>)
        ensures
            c == (AlphaColor {
                c: Rgb { r: self.c.r, g: self.a, b: self.c.g },
                a: self.c.b,
            }),
    {
        AlphaColor {
            c: Rgb { r: self.c.r, g: self.a, b: self.c.g },
            a: self.c.b,
        }
    }

    /// The red, opacity, blue and green, in that order.
    pub fn rabg(&self) -> (c: Rgba<T>)
        ensures
            c == (AlphaColor {
                c: Rgb { r: self.c.r, g: self.a, b: self.c.b },
                a: self.c.g,
            }),
    {
        AlphaColor {
            c: Rgb { r: self.c.r, g: self.a, b: self.c.b },
            a: self.c.g,
        }
    }

    /// The green, opacity, red and blue, in that order.
    pub fn garb(&self) -> (c: Rgba<T>)
        ensures
            c == (AlphaColor {
                c: Rgb { r: self.c.g, g: self.a, b: self.c.r },
                a: self.c.b,
            }),
    {
        AlphaColor {
            c: Rgb { r: self.c.g, g: self.a, b: self.c.r },
            a: self.c.b,
        }
    }

    /// The green, opacity, blue and red, in that order.
    pub fn gabr(&self) -> (c: Rgba<T>)
        ensures
            c == (AlphaColor {
                c: Rgb { r: self.c.g, g: self.a, b: self.c.b },
                a: self.c.r,
            }),
    {
        AlphaColor {
            c: Rgb { r: self.c.g, g: self.a, b: self.c.b },
            a: self.c.r,
        }
    }

    /// The blue, opacity, red and green, in that order.
    pub fn barg(&self) -> (c: Rgba<T>)
        ensures
            c == (AlphaColor {
                c: Rgb { r: self.c.b, g: self.a, b: self.c.r },
                a: self.c.g,
            }),
    {
        AlphaColor {
            c: Rgb { r: self.c.b, g: self.a, b: self.c.r },
            a: self.c.g,
        }
    }

    /// The blue, opacity, green and red, in that order.
    pub fn bagr(&self) -> (c: Rgba<T>)
        ensures
            c == (AlphaColor {
                c: Rgb { r: self.c.b, g: self.a, b: self.c.g },
                a: self.c.r,
            }),
    {
        AlphaColor {
            c: Rgb { r: self.c.b, g: self.a, b: self.c.g },
            a: self.c.r,
        }
    }

    /// The red, green, opacity and blue, in that order.
    pub fn rgab(&self) -> (c: Rgba<T>)
        ensures
            c == (AlphaColor {
                c: Rgb { r: self.c.r, g: self.c.g, b: self.a },
                a: self.c.b,
            }),
    {
        AlphaColor {
            c: Rgb { r: self.c.r, g: self.c.g, b: self.a },
            a: self.c.b,
        }
    }

    /// The red, blue, opacity and green, in that order.
    pub fn rbag(&self) -> (c: Rgba<T>)
        ensures
            c == (AlphaColor {
                c: Rgb { r: self.c.r, g: self.c.b, b: self.a },
                a: self.c.g,
            }),
    {
        AlphaColor {
            c: Rgb { r: self.c.r, g: self.c.b, b: self.a },
            a: self.c.g,
        }
    }

    /// The green, red, opacity and blue, in that order.
    pub fn grab(&self) -> (c: Rgba<T>)
        ensures
            c == (AlphaColor {
                c: Rgb { r: self.c.g, g: self.c.r, b: self.a },
                a: self.c.b,
            }),
    {
        AlphaColor {
            c: Rgb { r: self.c.g, g: self.c.r, b: self.a },
            a: self.c.b,
        }
    }

    /// The green, blue, opacity and red, in that order.
    pub fn gbar(&self) -> (c: Rgba<T>)
        ensures
            c == (AlphaColor {
                c: Rgb { r: self.c.g, g: self.c.b, b: self.a },
                a: self.c.r,
            }),
    {
        AlphaColor {
            c: Rgb { r: self.c.g, g: self.c.b, b: self.a },
            a: self.c.r,
        }
    }

    /// The blue, red, opacity and green, in that order.
    pub fn brag(&self) -> (c: Rgba<T>)
        ensures
            c == (AlphaColor {
                c: Rgb { r: self.c.b, g: self.c.r, b: self.a },
                a: self.c.g,
            }),
    {
        AlphaColor {
            c: Rgb { r: self.c.b, g: self.c.r, b: self.a },
            a: self.c.g,
        }
    }

    /// The blue, green, opacity and red, in that order.
    pub fn bgar(&self) -> (c: Rgba<T>)
        ensures
            c == (AlphaColor {
                c: Rgb { r: self.c.b, g: self.c.g, b: self.a },
                a: self.c.r,
            }),
    {
        AlphaColor {
            c: Rgb { r: self.c.b, g: self.c.g, b: self.a },
            a: self.c.r,
        }
    }
}

impl<T: Channel> AlphaColor<T, Rgb<T>> {
    /// Mixing by nothing gives the first colour, and mixing by full
    /// intensity gives the second.
    pub proof fn lemma_mix_boundaries(self, other: Rgba<T>, t: T)
        ensures
            t.level() == 0 ==> self.mixed(other, t) == self,
            t.level() == T::max_level() ==> self.mixed(other, t) == other,
    {
        self.c.lemma_mix_boundaries(other.c, t);
        lemma_mix_boundaries(self.a, other.a, t);
    }

    /// Inverting a colour twice gives it back.
    pub proof fn lemma_inverse_involution(self)
        ensures
            self.inverted().inverted() == self,
    {
        self.c.lemma_inverse_involution();
        lemma_invert_involution(self.a);
    }

    /// The colour reached from `self` towards `other` by the fraction `t`,
    /// component by component, the opacity too.
    pub open spec fn mixed(self, other: Rgba<T>, t: T) -> Rgba<T> {
        AlphaColor { c: self.c.mixed(other.c, t), a: mixed(self.a, other.a, t) }
    }

    /// Mixes two colours component by component.
    pub fn mix(self, other: Rgba<T>, value: T) -> (c: Rgba<T>)
        ensures
            c == self.mixed(other, value),
    {
        AlphaColor { c: self.c.mix(other.c, value), a: self.a.mix(other.a, value) }
    }

    /// The sum of two colours, each component held at full intensity.
    pub open spec fn saturated_sum(self, v: Rgba<T>) -> Rgba<T> {
        AlphaColor { c: self.c.saturated_sum(v.c), a: saturated_sum(self.a, v.a) }
    }

    /// The difference of two colours, each component held at zero.
    pub open spec fn saturated_difference(self, v: Rgba<T>) -> Rgba<T> {
        AlphaColor { c: self.c.saturated_difference(v.c), a: saturated_difference(self.a, v.a) }
    }

    /// Adds two colours component by component, holding each at full
    /// intensity.
    pub fn saturating_add(self, v: Rgba<T>) -> (c: Rgba<T>)
        ensures
            c == self.saturated_sum(v),
    {
        AlphaColor { c: self.c.saturating_add(v.c), a: self.a.saturating_add(v.a) }
    }

    /// Subtracts two colours component by component, holding each at zero.
    pub fn saturating_sub(self, v: Rgba<T>) -> (c: Rgba<T>)
        ensures
            c == self.saturated_difference(v),
    {
        AlphaColor { c: self.c.saturating_sub(v.c), a: self.a.saturating_sub(v.a) }
    }
}

/// The component at `index`, counting red, green, blue, opacity from zero.
impl<T> core::ops::Index<usize> for AlphaColor<T, Rgb<T>> {
    type Output = T;

    fn index(&self, index: usize) -> (c: &T)
        ensures
            index == 0 ==> *c == self.c.r,
            index == 1 ==> *c == self.c.g,
            index == 2 ==> *c == self.c.b,
            index == 3 ==> *c == self.a,
    {
        if index == 0 {
            &self.c.r
        } else if index == 1 {
            &self.c.g
        } else if index == 2 {
            &self.c.b
        } else {
            &self.a
        }
    }
}

impl<T> vstd::std_specs::core::IndexSpecImpl<usize> for AlphaColor<T, Rgb<T>> {
    open spec fn index_req(&self, index: &usize) -> bool {
        *index < 4
    }
}

/// Adds two colours and their opacities level by level.
impl<T: Channel, C: core::ops::Add<Output = C>> core::ops::Add for AlphaColor<T, C> {
    type Output = AlphaColor<T, C>;

    fn add(self, rhs: AlphaColor<T, C>) -> (c: AlphaColor<T, C>) {
        AlphaColor { c: self.c + rhs.c, a: self.a.add_levels(rhs.a) }
    }
}

impl<T: Channel, C: core::ops::Add<Output = C>> AddSpecImpl for AlphaColor<T, C> {
    open spec fn obeys_add_spec() -> bool {
        C::obeys_add_spec()
    }

    open spec fn add_req(self, rhs: AlphaColor<T, C>) -> bool {
        &&& self.c.add_req(rhs.c)
        &&& self.a.level() + rhs.a.level() <= T::max_level()
    }

    open spec fn add_spec(self, rhs: AlphaColor<T, C>) -> AlphaColor<T, C> {
        AlphaColor { c: self.c.add_spec(rhs.c), a: level_sum(self.a, rhs.a) }
    }
}

/// Subtracts two colours and their opacities level by level.
impl<T: Channel, C: core::ops::Sub<Output = C>> core::ops::Sub for AlphaColor<T, C> {
    type Output = AlphaColor<T, C>;

    fn sub(self, rhs: AlphaColor<T, C>) -> (c: AlphaColor<T, C>) {
        AlphaColor { c: self.c - rhs.c, a: self.a.sub_levels(rhs.a) }
    }
}

impl<T: Channel, C: core::ops::Sub<Output = C>> SubSpecImpl for AlphaColor<T, C> {
    open spec fn obeys_sub_spec() -> bool {
        C::obeys_sub_spec()
    }

    open spec fn sub_req(self, rhs: AlphaColor<T, C>) -> bool {
        &&& self.c.sub_req(rhs.c)
        &&& rhs.a.level() <= self.a.level()
    }

    open spec fn sub_spec(self, rhs: AlphaColor<T, C>) -> AlphaColor<T, C> {
        AlphaColor { c: self.c.sub_spec(rhs.c), a: level_difference(self.a, rhs.a) }
    }
}

/// Multiplies two colours, and their opacities as fractions of full
/// intensity.
impl<T: Channel, C: core::ops::Mul<Output = C>> core::ops::Mul for AlphaColor<T, C> {
    type Output = AlphaColor<T, C>;

    fn mul(self, rhs: AlphaColor<T, C>) -> (c: AlphaColor<T, C>) {
        AlphaColor { c: self.c * rhs.c, a: self.a.normalized_mul(rhs.a) }
    }
}

impl<T: Channel, C: core::ops::Mul<Output = C>> MulSpecImpl for AlphaColor<T, C> {
    open spec fn obeys_mul_spec() -> bool {
        C::obeys_mul_spec()
    }

    open spec fn mul_req(self, rhs: AlphaColor<T, C>) -> bool {
        self.c.mul_req(rhs.c)
    }

    open spec fn mul_spec(self, rhs: AlphaColor<T, C>) -> AlphaColor<T, C> {
        AlphaColor { c: self.c.mul_spec(rhs.c), a: normalized_product(self.a, rhs.a) }
    }
}

/// Divides two colours, and their opacities as fractions of full intensity.
impl<T: Channel, C: core::ops::Div<Output = C>> core::ops::Div for AlphaColor<T, C> {
    type Output = AlphaColor<T, C>;

    fn div(self, rhs: AlphaColor<T, C>) -> (c: AlphaColor<T, C>) {
        AlphaColor { c: self.c / rhs.c, a: self.a.normalized_div(rhs.a) }
    }
}

impl<T: Channel, C: core::ops::Div<Output = C>> DivSpecImpl for AlphaColor<T, C> {
    open spec fn obeys_div_spec() -> bool {
        C::obeys_div_spec()
    }

    open spec fn div_req(self, rhs: AlphaColor<T, C>) -> bool {
        self.c.div_req(rhs.c)
    }

    open spec fn div_spec(self, rhs: AlphaColor<T, C>) -> AlphaColor<T, C> {
        AlphaColor { c: self.c.div_spec(rhs.c), a: normalized_quotient(self.a, rhs.a) }
    }
}

/// Multiplies the colour and the level of its opacity by `rhs`.
impl<T: Channel, C: core::ops::Mul<T, Output = C>> core::ops::Mul<T> for AlphaColor<T, C> {
    type Output = AlphaColor<T, C>;

    fn mul(self, rhs: T) -> (c: AlphaColor<T, C>) {
        AlphaColor { c: self.c * rhs, a: self.a.mul_levels(rhs) }
    }
}

impl<T: Channel, C: core::ops::Mul<T, Output = C>> MulSpecImpl<T> for AlphaColor<T, C> {
    open spec fn obeys_mul_spec() -> bool {
        <C as vstd::std_specs::ops::MulSpec<T>>::obeys_mul_spec()
    }

    open spec fn mul_req(self, rhs: T) -> bool {
        &&& self.c.mul_req(rhs)
        &&& self.a.level() * rhs.level() <= T::max_level()
    }

    open spec fn mul_spec(self, rhs: T) -> AlphaColor<T, C> {
        AlphaColor { c: self.c.mul_spec(rhs), a: level_product(self.a, rhs) }
    }
}

/// Divides the colour and the level of its opacity by `rhs`.
impl<T: Channel, C: core::ops::Div<T, Output = C>> core::ops::Div<T> for AlphaColor<T, C> {
    type Output = AlphaColor<T, C>;

    fn div(self, rhs: T) -> (c: AlphaColor<T, C>) {
        AlphaColor { c: self.c / rhs, a: self.a.div_levels(rhs) }
    }
}

impl<T: Channel, C: core::ops::Div<T, Output = C>> DivSpecImpl<T> for AlphaColor<T, C> {
    open spec fn obeys_div_spec() -> bool {
        <C as vstd::std_specs::ops::DivSpec<T>>::obeys_div_spec()
    }

    open spec fn div_req(self, rhs: T) -> bool {
        &&& self.c.div_req(rhs)
        &&& rhs.level() != 0
    }

    open spec fn div_spec(self, rhs: T) -> AlphaColor<T, C> {
        AlphaColor { c: self.c.div_spec(rhs), a: level_quotient(self.a, rhs) }
    }
}

} // verus!
