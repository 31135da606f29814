//! Colours of a red, a green and a blue component.

use crate::channel::{
    clamped, inverted, lemma_invert_involution, lemma_mix_boundaries, lemma_normalized_identity,
    level_difference, level_product, level_quotient, level_sum, mixed, normalized_product,
    normalized_quotient, saturated_difference, saturated_sum, to_channel, Channel, FloatChannel,
};
use crate::ratio::Ratio;
use crate::{Color, Color3, FloatColor};
use vstd::prelude::*;
use vstd::std_specs::ops::{
    AddSpec, AddSpecImpl, DivSpec, DivSpecImpl, MulSpec, MulSpecImpl, SubSpec, SubSpecImpl,
};

verus! {

/// A colour of three components in one channel encoding.
#[derive(Clone, Copy, PartialEq, Eq, Debug)]
pub struct Rgb<T> {
    pub r: T,
    pub g: T,
    pub b: T,
}

/// A pair of components.
#[derive(Clone, Copy, PartialEq, Eq, Debug)]
pub struct Rg<T> {
    pub r: T,
    pub g: T,
}

impl<T> Rgb<T> {
    /// The colour of the given components.
    pub fn new(r: T, g: T, b: T) -> (c: Rgb<T>)
        ensures
            c == (Rgb { r, g, b }),
    {
        Rgb { r, g, b }
    }
}

impl<T: Copy> Rgb<T> {
    /// The red and green components, in that order.
    pub fn rg(&self) -> (c: Rg<T>)
        ensures
            c == (Rg { r: self.r, g: self.g }),
    {
        Rg { r: self.r, g: self.g }
    }

    /// The red and blue components, in that order.
    pub fn rb(&self) -> (c: Rg<T>)
        ensures
            c == (Rg { r: self.r, g: self.b }),
    {
        Rg { r: self.r, g: self.b }
    }

    /// The green and red components, in that order.
    pub fn gr(&self) -> (c: Rg<T>)
        ensures
            c == (Rg { r: self.g, g: self.r }),
    {
        Rg { r: self.g, g: self.r }
    }

    /// The green and blue components, in that order.
    pub fn gb(&self) -> (c: Rg<T>)
        ensures
            c == (Rg { r: self.g, g: self.b }),
    {
        Rg { r: self.g, g: self.b }
    }

    /// The blue and red components, in that order.
    pub fn br(&self) -> (c: Rg<T>)
        ensures
            c == (Rg { r: self.b, g: self.r }),
    {
        Rg { r: self.b, g: self.r }
    }

    /// The blue and green components, in that order.
    pub fn bg(&self) -> (c: Rg<T>)
        ensures
            c == (Rg { r: self.b, g: self.g }),
    {
        Rg { r: self.b, g: self.g }
    }

    /// The red, green and blue components, in that order.
    pub fn rgb(&self) -> (c: Rgb<T>)
        ensures
            c == (Rgb { r: self.r, g: self.g, b: self.b }),
    {
        Rgb { r: self.r, g: self.g, b: self.b }
    }

    /// The red, blue and green components, in that order.
    pub fn rbg(&self) -> (c: Rgb<T>)
        ensures
            c == (Rgb { r: self.r, g: self.b, b: self.g }),
    {
        Rgb { r: self.r, g: self.b, b: self.g }
    }

    /// The blue, green and red components, in that order.
    pub fn bgr(&self) -> (c: Rgb<T>)
        ensures
            c == (Rgb { r: self.b, g: self.g, b: self.r }),
    {
        Rgb { r: self.b, g: self.g, b: self.r }
    }

    /// The blue, red and green components, in that order.
    pub fn brg(&self) -> (c: Rgb<T>)
        ensures
            c == (Rgb { r: self.b, g: self.r, b: self.g }),
    {
        Rgb { r: self.b, g: self.r, b: self.g }
    }

    /// The green, red and blue components, in that order.
    pub fn grb(&self) -> (c: Rgb<T>)
        ensures
            c == (Rgb { r: self.g, g: self.r, b: self.b }),
    {
        Rgb { r: self.g, g: self.r, b: self.b }
    }

    /// The green, blue and red components, in that order.
    pub fn gbr(&self) -> (c: Rgb<T>)
        ensures
            c == (Rgb { r: self.g, g: self.b, b: self.r }),
    {
        Rgb { r: self.g, g: self.b, b: self.r }
    }
}

impl<T: Channel> Rgb<T> {
    /// The colour reached from `self` towards `other` by the fraction `t`,
    /// component by component.
    pub open spec fn mixed(self, other: Rgb<T>, t: T) -> Rgb<T> {
        Rgb {
            r: mixed(self.r, other.r, t),
            g: mixed(self.g, other.g, t),
            b: mixed(self.b, other.b, t),
        }
    }

    /// Mixes two colours component by component.
    pub fn mix(self, other: Rgb<T>, value: T) -> (c: Rgb<T>)
        ensures
            c == self.mixed(other, value),
    {
        Rgb {
            r: self.r.mix(other.r, value),
            g: self.g.mix(other.g, value),
            b: self.b.mix(other.b, value),
        }
    }

    /// The sum of two colours, each component held at full intensity.
    pub open spec fn saturated_sum(self, v: Rgb<T>) -> Rgb<T> {
        Rgb {
            r: saturated_sum(self.r, v.r),
            g: saturated_sum(self.g, v.g),
            b: saturated_sum(self.b, v.b),
        }
    }

    /// The difference of two colours, each component held at zero.
    pub open spec fn saturated_difference(self, v: Rgb<T>) -> Rgb<T> {
        Rgb {
            r: saturated_difference(self.r, v.r),
            g: saturated_difference(self.g, v.g),
            b: saturated_difference(self.b, v.b),
        }
    }

    /// Adds two colours component by component, holding each at full
    /// intensity.
    pub fn saturating_add(self, v: Rgb<T>) -> (c: Rgb<T>)
        ensures
            c == self.saturated_sum(v),
    {
        Rgb {
            r: self.r.saturating_add(v.r),
            g: self.g.saturating_add(v.g),
            b: self.b.saturating_add(v.b),
        }
    }

    /// Subtracts two colours component by component, holding each at zero.
    pub fn saturating_sub(self, v: Rgb<T>) -> (c: Rgb<T>)
        ensures
            c == self.saturated_difference(v),
    {
        Rgb {
            r: self.r.saturating_sub(v.r),
            g: self.g.saturating_sub(v.g),
            b: self.b.saturating_sub(v.b),
        }
    }
}

impl<T: Channel> Rgb<T> {
    /// Mixing by nothing gives the first colour, and mixing by full
    /// intensity gives the second.
    pub proof fn lemma_mix_boundaries(self, other: Rgb<T>, t: T)
        ensures
            t.level() == 0 ==> self.mixed(other, t) == self,
            t.level() == T::max_level() ==> self.mixed(other, t) == other,
    {
        lemma_mix_boundaries(self.r, other.r, t);
        lemma_mix_boundaries(self.g, other.g, t);
        lemma_mix_boundaries(self.b, other.b, t);
    }

    /// Inverting a colour twice gives it back.
    pub proof fn lemma_inverse_involution(self)
        ensures
            self.inverted().inverted() == self,
    {
        lemma_invert_involution(self.r);
        lemma_invert_involution(self.g);
        lemma_invert_involution(self.b);
    }

    /// Multiplying or dividing by the colour of full intensity changes
    /// nothing.
    pub proof fn lemma_white_is_neutral(self, white: Rgb<T>)
        requires
            white.r.level() == T::max_level(),
            white.g.level() == T::max_level(),
            white.b.level() == T::max_level(),
        ensures
            MulSpec::mul_spec(self, white) == self,
            DivSpec::div_spec(self, white) == self,
    {
        lemma_normalized_identity(self.r, white.r);
        lemma_normalized_identity(self.g, white.g);
        lemma_normalized_identity(self.b, white.b);
    }
}

impl<T: Channel> Color<T> for Rgb<T> {
    open spec fn clamped_s(self, lo: T, hi: T) -> Rgb<T> {
        Rgb { r: clamped(self.r, lo, hi), g: clamped(self.g, lo, hi), b: clamped(self.b, lo, hi) }
    }

    open spec fn clamped_c(self, lo: Rgb<T>, hi: Rgb<T>) -> Rgb<T> {
        Rgb {
            r: clamped(self.r, lo.r, hi.r),
            g: clamped(self.g, lo.g, hi.g),
            b: clamped(self.b, lo.b, hi.b),
        }
    }

    open spec fn inverted(self) -> Rgb<T> {
        Rgb { r: inverted(self.r), g: inverted(self.g), b: inverted(self.b) }
    }

    fn clamp_s(self, lo: T, hi: T) -> (c: Rgb<T>) {
        Rgb::new(self.r.clamp(lo, hi), self.g.clamp(lo, hi), self.b.clamp(lo, hi))
    }

    fn clamp_c(self, lo: Rgb<T>, hi: Rgb<T>) -> (c: Rgb<T>) {
        Rgb::new(
            self.r.clamp(lo.r, hi.r),
            self.g.clamp(lo.g, hi.g),
            self.b.clamp(lo.b, hi.b),
        )
    }

    fn inverse(self) -> (c: Rgb<T>) {
        Rgb::new(self.r.invert_channel(), self.g.invert_channel(), self.b.invert_channel())
    }
}

impl<T: Channel> Color3<T> for Rgb<T> {
    open spec fn components(self) -> Seq<T> {
        seq![self.r, self.g, self.b]
    }

    fn into_fixed(self) -> (a: [T; 3]) {
        let a: [T; 3] = [self.r, self.g, self.b];
        assert(a@ =~= self.components());
        a
    }
}

/// The component at `index`, counting red, green, blue from zero.
impl<T> core::ops::Index<usize> for Rgb<T> {
    type Output = T;

    fn index(&self, index: usize) -> (c: &T)
        ensures
            index == 0 ==> *c == self.r,
            index == 1 ==> *c == self.g,
            index == 2 ==> *c == self.b,
    {
        if index == 0 {
            &self.r
        } else if index == 1 {
            &self.g
        } else {
            &self.b
        }
    }
}

impl<T> vstd::std_specs::core::IndexSpecImpl<usize> for Rgb<T> {
    open spec fn index_req(&self, index: &usize) -> bool {
        *index < 3
    }
}

/// Adds two colours level by level; no sum may pass full intensity.
impl<T: Channel> core::ops::Add for Rgb<T> {
    type Output = Rgb<T>;

    fn add(self, rhs: Rgb<T>) -> (c: Rgb<T>) {
        Rgb {
            r: self.r.add_levels(rhs.r),
            g: self.g.add_levels(rhs.g),
            b: self.b.add_levels(rhs.b),
        }
    }
}

impl<T: Channel> AddSpecImpl for Rgb<T> {
    open spec fn obeys_add_spec() -> bool {
        true
    }

    open spec fn add_req(self, rhs: Rgb<T>) -> bool {
        &&& self.r.level() + rhs.r.level() <= T::max_level()
        &&& self.g.level() + rhs.g.level() <= T::max_level()
        &&& self.b.level() + rhs.b.level() <= T::max_level()
    }

    open spec fn add_spec(self, rhs: Rgb<T>) -> Rgb<T> {
        Rgb {
            r: level_sum(self.r, rhs.r),
            g: level_sum(self.g, rhs.g),
            b: level_sum(self.b, rhs.b),
        }
    }
}

/// Subtracts two colours level by level; no difference may pass zero.
impl<T: Channel> core::ops::Sub for Rgb<T> {
    type Output = Rgb<T>;

    fn sub(self, rhs: Rgb<T>) -> (c: Rgb<T>) {
        Rgb {
            r: self.r.sub_levels(rhs.r),
            g: self.g.sub_levels(rhs.g),
            b: self.b.sub_levels(rhs.b),
        }
    }
}

impl<T: Channel> SubSpecImpl for Rgb<T> {
    open spec fn obeys_sub_spec() -> bool {
        true
    }

    open spec fn sub_req(self, rhs: Rgb<T>) -> bool {
        &&& rhs.r.level() <= self.r.level()
        &&& rhs.g.level() <= self.g.level()
        &&& rhs.b.level() <= self.b.level()
    }

    open spec fn sub_spec(self, rhs: Rgb<T>) -> Rgb<T> {
        Rgb {
            r: level_difference(self.r, rhs.r),
            g: level_difference(self.g, rhs.g),
            b: level_difference(self.b, rhs.b),
        }
    }
}

/// Multiplies two colours, their components taken as fractions of full
/// intensity.
impl<T: Channel> core::ops::Mul for Rgb<T> {
    type Output = Rgb<T>;

    fn mul(self, rhs: Rgb<T>) -> (c: Rgb<T>) {
        Rgb {
            r: self.r.normalized_mul(rhs.r),
            g: self.g.normalized_mul(rhs.g),
            b: self.b.normalized_mul(rhs.b),
        }
    }
}

impl<T: Channel> MulSpecImpl for Rgb<T> {
    open spec fn obeys_mul_spec() -> bool {
        true
    }

    open spec fn mul_req(self, rhs: Rgb<T>) -> bool {
        true
    }

    open spec fn mul_spec(self, rhs: Rgb<T>) -> Rgb<T> {
        Rgb {
            r: normalized_product(self.r, rhs.r),
            g: normalized_product(self.g, rhs.g),
            b: normalized_product(self.b, rhs.b),
        }
    }
}

/// Divides two colours, their components taken as fractions of full
/// intensity.
impl<T: Channel> core::ops::Div for Rgb<T> {
    type Output = Rgb<T>;

    fn div(self, rhs: Rgb<T>) -> (c: Rgb<T>) {
        Rgb {
            r: self.r.normalized_div(rhs.r),
            g: self.g.normalized_div(rhs.g),
            b: self.b.normalized_div(rhs.b),
        }
    }
}

impl<T: Channel> DivSpecImpl for Rgb<T> {
    open spec fn obeys_div_spec() -> bool {
        true
    }

    open spec fn div_req(self, rhs: Rgb<T>) -> bool {
        true
    }

    open spec fn div_spec(self, rhs: Rgb<T>) -> Rgb<T> {
        Rgb {
            r: normalized_quotient(self.r, rhs.r),
            g: normalized_quotient(self.g, rhs.g),
            b: normalized_quotient(self.b, rhs.b),
        }
    }
}

/// Multiplies the level of each component by the level of `rhs`; no product
/// may pass full intensity.
impl<T: Channel> core::ops::Mul<T> for Rgb<T> {
    type Output = Rgb<T>;

    fn mul(self, rhs: T) -> (c: Rgb<T>) {
        Rgb {
            r: self.r.mul_levels(rhs),
            g: self.g.mul_levels(rhs),
            b: self.b.mul_levels(rhs),
        }
    }
}

impl<T: Channel> MulSpecImpl<T> for Rgb<T> {
    open spec fn obeys_mul_spec() -> bool {
        true
    }

    open spec fn mul_req(self, rhs: T) -> bool {
        &&& self.r.level() * rhs.level() <= T::max_level()
        &&& self.g.level() * rhs.level() <= T::max_level()
        &&& self.b.level() * rhs.level() <= T::max_level()
    }

    open spec fn mul_spec(self, rhs: T) -> Rgb<T> {
        Rgb {
            r: level_product(self.r, rhs),
            g: level_product(self.g, rhs),
            b: level_product(self.b, rhs),
        }
    }
}

/// Divides the level of each component by the level of `rhs`, which is not
/// zero.
impl<T: Channel> core::ops::Div<T> for Rgb<T> {
    type Output = Rgb<T>;

    fn div(self, rhs: T) -> (c: Rgb<T>) {
        Rgb {
            r: self.r.div_levels(rhs),
            g: self.g.div_levels(rhs),
            b: self.b.div_levels(rhs),
        }
    }
}

impl<T: Channel> DivSpecImpl<T> for Rgb<T> {
    open spec fn obeys_div_spec() -> bool {
        true
    }

    open spec fn div_req(self, rhs: T) -> bool {
        rhs.level() != 0
    }

    open spec fn div_spec(self, rhs: T) -> Rgb<T> {
        Rgb {
            r: level_quotient(self.r, rhs),
            g: level_quotient(self.g, rhs),
            b: level_quotient(self.b, rhs),
        }
    }
}

/// The colour of encoding `U`, picked among the re-encodings of one colour.
pub open spec fn selected<U: Channel>(in_u8: Rgb<u8>, in_u16: Rgb<u16>) -> Rgb<U> {
    Rgb {
        r: U::select(in_u8.r, in_u16.r),
        g: U::select(in_u8.g, in_u16.g),
        b: U::select(in_u8.b, in_u16.b),
    }
}

/// A colour that can be given as red, green and blue in any channel
/// encoding.
pub trait ToRgb {
    /// The colour as red, green and blue in 8 bits.
    spec fn rgb_u8(&self) -> Rgb<u8>;

    /// The colour as red, green and blue in 16 bits.
    spec fn rgb_u16(&self) -> Rgb<u16>;

    /// Converts the colour to red, green and blue in the encoding `U`.
    fn to_rgb<U: Channel>(&self) -> (c: Rgb<U>)
        ensures
            c == selected::<U>(self.rgb_u8(), self.rgb_u16()),
    ;
}

/// The red component of a colour packed as `0xRRGGBB`.
pub open spec fn packed_red(packed: u32) -> u8 {
    ((packed / 0x1_0000) % 0x100) as u8
}

/// The green component of a colour packed as `0xRRGGBB`.
pub open spec fn packed_green(packed: u32) -> u8 {
    ((packed / 0x100) % 0x100) as u8
}

/// The blue component of a colour packed as `0xRRGGBB`.
pub open spec fn packed_blue(packed: u32) -> u8 {
    (packed % 0x100) as u8
}

/// A colour packed as `0xRRGGBB`; the highest byte is not read.
impl ToRgb for u32 {
    open spec fn rgb_u8(&self) -> Rgb<u8> {
        Rgb { r: packed_red(*self), g: packed_green(*self), b: packed_blue(*self) }
    }

    open spec fn rgb_u16(&self) -> Rgb<u16> {
        Rgb {
            r: packed_red(*self).as_u16(),
            g: packed_green(*self).as_u16(),
            b: packed_blue(*self).as_u16(),
        }
    }

    fn to_rgb<U: Channel>(&self) -> (c: Rgb<U>) {
        let packed: u32 = *self;
        assert((packed >> 16) & 0xff == (packed / 0x1_0000) % 0x100) by (bit_vector);
        assert((packed >> 8) & 0xff == (packed / 0x100) % 0x100) by (bit_vector);
        assert((packed >> 0) & 0xff == packed % 0x100) by (bit_vector);
        let r: u8 = u8::from_level((packed >> 16) & 0xff);
        let g: u8 = u8::from_level((packed >> 8) & 0xff);
        let b: u8 = u8::from_level((packed >> 0) & 0xff);
        let r: U = to_channel(r);
        let g: U = to_channel(g);
        let b: U = to_channel(b);
        Rgb { r, g, b }
    }
}

impl<T: Channel> ToRgb for Rgb<T> {
    open spec fn rgb_u8(&self) -> Rgb<u8> {
        Rgb { r: self.r.as_u8(), g: self.g.as_u8(), b: self.b.as_u8() }
    }

    open spec fn rgb_u16(&self) -> Rgb<u16> {
        Rgb { r: self.r.as_u16(), g: self.g.as_u16(), b: self.b.as_u16() }
    }

    fn to_rgb<U: Channel>(&self) -> (c: Rgb<U>) {
        Rgb { r: to_channel(self.r), g: to_channel(self.g), b: to_channel(self.b) }
    }
}

impl Color<Ratio> for Rgb<Ratio> {
    open spec fn clamped_s(self, lo: Ratio, hi: Ratio) -> Rgb<Ratio> {
        Rgb { r: self.r.clamped(lo, hi), g: self.g.clamped(lo, hi), b: self.b.clamped(lo, hi) }
    }

    open spec fn clamped_c(self, lo: Rgb<Ratio>, hi: Rgb<Ratio>) -> Rgb<Ratio> {
        Rgb {
            r: self.r.clamped(lo.r, hi.r),
            g: self.g.clamped(lo.g, hi.g),
            b: self.b.clamped(lo.b, hi.b),
        }
    }

    open spec fn inverted(self) -> Rgb<Ratio> {
        Rgb { r: self.r.inverted(), g: self.g.inverted(), b: self.b.inverted() }
    }

    fn clamp_s(self, lo: Ratio, hi: Ratio) -> (c: Rgb<Ratio>) {
        Rgb::new(self.r.clamp(lo, hi), self.g.clamp(lo, hi), self.b.clamp(lo, hi))
    }

    fn clamp_c(self, lo: Rgb<Ratio>, hi: Rgb<Ratio>) -> (c: Rgb<Ratio>) {
        Rgb::new(
            self.r.clamp(lo.r, hi.r),
            self.g.clamp(lo.g, hi.g),
            self.b.clamp(lo.b, hi.b),
        )
    }

    fn inverse(self) -> (c: Rgb<Ratio>) {
        Rgb::new(self.r.invert_channel(), self.g.invert_channel(), self.b.invert_channel())
    }
}

impl FloatColor<Ratio> for Rgb<Ratio> {
    /// Each component held between 0 and 1.
    open spec fn normalized(self) -> Rgb<Ratio> {
        Rgb { r: self.r.normalized(), g: self.g.normalized(), b: self.b.normalized() }
    }

    fn normalize(self) -> (c: Rgb<Ratio>) {
        Rgb::new(
            self.r.normalize_channel(),
            self.g.normalize_channel(),
            self.b.normalize_channel(),
        )
    }
}

/// Adds two colours of fractions component by component.
impl core::ops::Add for Rgb<Ratio> {
    type Output = Rgb<Ratio>;

    fn add(self, rhs: Rgb<Ratio>) -> (c: Rgb<Ratio>) {
        Rgb { r: self.r + rhs.r, g: self.g + rhs.g, b: self.b + rhs.b }
    }
}

impl AddSpecImpl for Rgb<Ratio> {
    open spec fn obeys_add_spec() -> bool {
        true
    }

    open spec fn add_req(self, rhs: Rgb<Ratio>) -> bool {
        &&& AddSpec::add_req(self.r, rhs.r)
        &&& AddSpec::add_req(self.g, rhs.g)
        &&& AddSpec::add_req(self.b, rhs.b)
    }

    open spec fn add_spec(self, rhs: Rgb<Ratio>) -> Rgb<Ratio> {
        Rgb {
            r: AddSpec::add_spec(self.r, rhs.r),
            g: AddSpec::add_spec(self.g, rhs.g),
            b: AddSpec::add_spec(self.b, rhs.b),
        }
    }
}

/// Subtracts two colours of fractions component by component.
impl core::ops::Sub for Rgb<Ratio> {
    type Output = Rgb<Ratio>;

    fn sub(self, rhs: Rgb<Ratio>) -> (c: Rgb<Ratio>) {
        Rgb { r: self.r - rhs.r, g: self.g - rhs.g, b: self.b - rhs.b }
    }
}

impl SubSpecImpl for Rgb<Ratio> {
    open spec fn obeys_sub_spec() -> bool {
        true
    }

    open spec fn sub_req(self, rhs: Rgb<Ratio>) -> bool {
        &&& SubSpec::sub_req(self.r, rhs.r)
        &&& SubSpec::sub_req(self.g, rhs.g)
        &&& SubSpec::sub_req(self.b, rhs.b)
    }

    open spec fn sub_spec(self, rhs: Rgb<Ratio>) -> Rgb<Ratio> {
        Rgb {
            r: SubSpec::sub_spec(self.r, rhs.r),
            g: SubSpec::sub_spec(self.g, rhs.g),
            b: SubSpec::sub_spec(self.b, rhs.b),
        }
    }
}

/// Multiplies two colours of fractions component by component.
impl core::ops::Mul for Rgb<Ratio> {
    type Output = Rgb<Ratio>;

    fn mul(self, rhs: Rgb<Ratio>) -> (c: Rgb<Ratio>) {
        Rgb { r: self.r * rhs.r, g: self.g * rhs.g, b: self.b * rhs.b }
    }
}

impl MulSpecImpl for Rgb<Ratio> {
    open spec fn obeys_mul_spec() -> bool {
        true
    }

    open spec fn mul_req(self, rhs: Rgb<Ratio>) -> bool {
        &&& MulSpec::mul_req(self.r, rhs.r)
        &&& MulSpec::mul_req(self.g, rhs.g)
        &&& MulSpec::mul_req(self.b, rhs.b)
    }

    open spec fn mul_spec(self, rhs: Rgb<Ratio>) -> Rgb<Ratio> {
        Rgb {
            r: MulSpec::mul_spec(self.r, rhs.r),
            g: MulSpec::mul_spec(self.g, rhs.g),
            b: MulSpec::mul_spec(self.b, rhs.b),
        }
    }
}

/// Divides two colours of fractions component by component.
impl core::ops::Div for Rgb<Ratio> {
    type Output = Rgb<Ratio>;

    fn div(self, rhs: Rgb<Ratio>) -> (c: Rgb<Ratio>) {
        Rgb { r: self.r / rhs.r, g: self.g / rhs.g, b: self.b / rhs.b }
    }
}

impl DivSpecImpl for Rgb<Ratio> {
    open spec fn obeys_div_spec() -> bool {
        true
    }

    open spec fn div_req(self, rhs: Rgb<Ratio>) -> bool {
        &&& DivSpec::div_req(self.r, rhs.r)
        &&& DivSpec::div_req(self.g, rhs.g)
        &&& DivSpec::div_req(self.b, rhs.b)
    }

    open spec fn div_spec(self, rhs: Rgb<Ratio>) -> Rgb<Ratio> {
        Rgb {
            r: DivSpec::div_spec(self.r, rhs.r),
            g: DivSpec::div_spec(self.g, rhs.g),
            b: DivSpec::div_spec(self.b, rhs.b),
        }
    }
}

/// Multiplies each component of a colour of fractions by `rhs`.
impl core::ops::Mul<Ratio> for Rgb<Ratio> {
    type Output = Rgb<Ratio>;

    fn mul(self, rhs: Ratio) -> (c: Rgb<Ratio>) {
        Rgb { r: self.r * rhs, g: self.g * rhs, b: self.b * rhs }
    }
}

impl MulSpecImpl<Ratio> for Rgb<Ratio> {
    open spec fn obeys_mul_spec() -> bool {
        true
    }

    open spec fn mul_req(self, rhs: Ratio) -> bool {
        &&& MulSpec::mul_req(self.r, rhs)
        &&& MulSpec::mul_req(self.g, rhs)
        &&& MulSpec::mul_req(self.b, rhs)
    }

    open spec fn mul_spec(self, rhs: Ratio) -> Rgb<Ratio> {
        Rgb {
            r: MulSpec::mul_spec(self.r, rhs),
            g: MulSpec::mul_spec(self.g, rhs),
            b: MulSpec::mul_spec(self.b, rhs),
        }
    }
}

/// Divides each component of a colour of fractions by `rhs`.
impl core::ops::Div<Ratio> for Rgb<Ratio> {
    type Output = Rgb<Ratio>;

    fn div(self, rhs: Ratio) -> (c: Rgb<Ratio>) {
        Rgb { r: self.r / rhs, g: self.g / rhs, b: self.b / rhs }
    }
}

impl DivSpecImpl<Ratio> for Rgb<Ratio> {
    open spec fn obeys_div_spec() -> bool {
        true
    }

    open spec fn div_req(self, rhs: Ratio) -> bool {
        &&& DivSpec::div_req(self.r, rhs)
        &&& DivSpec::div_req(self.g, rhs)
        &&& DivSpec::div_req(self.b, rhs)
    }

    open spec fn div_spec(self, rhs: Ratio) -> Rgb<Ratio> {
        Rgb {
            r: DivSpec::div_spec(self.r, rhs),
            g: DivSpec::div_spec(self.g, rhs),
            b: DivSpec::div_spec(self.b, rhs),
        }
    }
}

} // verus!
