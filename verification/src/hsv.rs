//! Colours of a hue, a saturation and a value, and their conversion to red,
//! green and blue.

use crate::channel::{Channel, FloatChannel};
use crate::ratio::Ratio;
use crate::rgb::{Rgb, ToRgb};
use crate::{Color, Color3, FloatColor};
use vstd::prelude::*;

verus! {

/// A colour of a hue `h` in degrees, a saturation `s` and a value `v`.
#[derive(Clone, Copy, PartialEq, Eq, Debug)]
pub struct Hsv<T> {
    pub h: T,
    pub s: T,
    pub v: T,
}

impl<T> Hsv<T> {
    /// The colour of the given components.
    pub fn new(h: T, s: T, v: T) -> (c: Hsv<T>)
        ensures
            c == (Hsv { h, s, v }),
    {
        Hsv { h, s, v }
    }
}

impl<T: FloatChannel> Color<T> for Hsv<T> {
    open spec fn clamped_s(self, lo: T, hi: T) -> Hsv<T> {
        Hsv { h: self.h.clamped(lo, hi), s: self.s.clamped(lo, hi), v: self.v.clamped(lo, hi) }
    }

    open spec fn clamped_c(self, lo: Hsv<T>, hi: Hsv<T>) -> Hsv<T> {
        Hsv {
            h: self.h.clamped(lo.h, hi.h),
            s: self.s.clamped(lo.s, hi.s),
            v: self.v.clamped(lo.v, hi.v),
        }
    }

    /// The hue turned by half a turn, and the complements of saturation and
    /// value.
    open spec fn inverted(self) -> Hsv<T> {
        Hsv { h: self.h.inverted_degrees(), s: self.s.inverted(), v: self.v.inverted() }
    }

    fn clamp_s(self, lo: T, hi: T) -> (c: Hsv<T>) {
        Hsv::new(self.h.clamp(lo, hi), self.s.clamp(lo, hi), self.v.clamp(lo, hi))
    }

    fn clamp_c(self, lo: Hsv<T>, hi: Hsv<T>) -> (c: Hsv<T>) {
        Hsv::new(
            self.h.clamp(lo.h, hi.h),
            self.s.clamp(lo.s, hi.s),
            self.v.clamp(lo.v, hi.v),
        )
    }

    fn inverse(self) -> (c: Hsv<T>) {
        Hsv::new(self.h.invert_degrees(), self.s.invert_channel(), self.v.invert_channel())
    }
}

impl<T: FloatChannel> FloatColor<T> for Hsv<T> {
    /// The hue brought into `[0, 360)`, saturation and value held between 0
    /// and 1.
    open spec fn normalized(self) -> Hsv<T> {
        Hsv { h: self.h.normalized_degrees(), s: self.s.normalized(), v: self.v.normalized() }
    }

    fn normalize(self) -> (c: Hsv<T>) {
        Hsv::new(
            self.h.normalize_degrees(),
            self.s.normalize_channel(),
            self.v.normalize_channel(),
        )
    }
}

impl<T: FloatChannel> Color3<T> for Hsv<T> {
    open spec fn components(self) -> Seq<T> {
        seq![self.h, self.s, self.v]
    }

    fn into_fixed(self) -> (a: [T; 3]) {
        let a: [T; 3] = [self.h, self.s, self.v];
        assert(a@ =~= self.components());
        a
    }
}

/// The greatest of three numbers.
pub open spec fn max3(r: int, g: int, b: int) -> int {
    if r >= g && r >= b {
        r
    } else if g >= b {
        g
    } else {
        b
    }
}

/// The least of three numbers.
pub open spec fn min3(r: int, g: int, b: int) -> int {
    if r <= g && r <= b {
        r
    } else if g <= b {
        g
    } else {
        b
    }
}

/// The chroma of three levels: the distance between the greatest and the
/// least.
pub open spec fn chroma(r: int, g: int, b: int) -> int {
    max3(r, g, b) - min3(r, g, b)
}

/// The hue of three levels in degrees, multiplied by their chroma: zero for a
/// grey, else the sixth of the circle that the greatest component names (red
/// before green before blue where two are equal) and the place in it that
/// the other two give, brought into `[0, 360)`.
pub open spec fn hue_numer(r: int, g: int, b: int) -> int {
    let c = chroma(r, g, b);
    if c == 0 {
        0
    } else if r == max3(r, g, b) {
        (60 * (g - b)) % (360 * c)
    } else if g == max3(r, g, b) {
        60 * (b - r) + 120 * c
    } else {
        60 * (r - g) + 240 * c
    }
}

/// The hue, saturation and value of three levels on a grid of `max + 1`
/// steps, as exact fractions: the value is the greatest level over `max`,
/// the saturation the chroma over the greatest level, and the hue is
/// `hue_numer` over the chroma. A grey has hue and saturation `0 / 1`.
pub open spec fn hsv_of_levels(r: int, g: int, b: int, max: int) -> Hsv<Ratio> {
    let c = chroma(r, g, b);
    if c == 0 {
        Hsv {
            h: Ratio::of(0, 1),
            s: Ratio::of(0, 1),
            v: Ratio::of(max3(r, g, b) as nat, max as nat),
        }
    } else {
        Hsv {
            h: Ratio::of(hue_numer(r, g, b) as nat, c as nat),
            s: Ratio::of(c as nat, max3(r, g, b) as nat),
            v: Ratio::of(max3(r, g, b) as nat, max as nat),
        }
    }
}

/// The hue of three levels lies in `[0, 360)` degrees.
pub proof fn lemma_hue_in_range(r: int, g: int, b: int)
    requires
        0 <= r,
        0 <= g,
        0 <= b,
    ensures
        0 <= hue_numer(r, g, b),
        chroma(r, g, b) > 0 ==> hue_numer(r, g, b) < 360 * chroma(r, g, b),
        chroma(r, g, b) > 0 && r == max3(r, g, b) && g >= b ==> hue_numer(r, g, b) == 60 * (g
            - b),
        chroma(r, g, b) > 0 && r == max3(r, g, b) && g < b ==> hue_numer(r, g, b) == 360
            * chroma(r, g, b) - 60 * (b - g),
{
    let c = chroma(r, g, b);
    if c > 0 && r == max3(r, g, b) {
        if g >= b {
            vstd::arithmetic::div_mod::lemma_small_mod((60 * (g - b)) as nat, (360 * c) as nat);
        } else {
            vstd::arithmetic::div_mod::lemma_mod_add_multiples_vanish(60 * (g - b), 360 * c);
            vstd::arithmetic::div_mod::lemma_small_mod(
                (360 * c + 60 * (g - b)) as nat,
                (360 * c) as nat,
            );
        }
    }
}

/// The hue, saturation and value of levels of a grid are fractions whose
/// parts are what `hsv_of_levels` names; the hue lies in `[0, 360)` degrees,
/// and saturation and value are at most 1.
pub proof fn lemma_hsv_in_range(r: int, g: int, b: int, max: int)
    requires
        0 <= r <= max,
        0 <= g <= max,
        0 <= b <= max,
        0 < max <= 0xFFFF,
    ensures
        ({
            let c = hsv_of_levels(r, g, b, max);
            &&& c.h.valid()
            &&& c.s.valid()
            &&& c.v.valid()
            &&& c.h.numer() < 360 * c.h.denom()
            &&& c.s.numer() <= c.s.denom()
            &&& c.v.numer() <= c.v.denom()
            &&& c.v.numer() == max3(r, g, b)
            &&& c.v.denom() == max
            &&& chroma(r, g, b) == 0 ==> c.h.numer() == 0 && c.s.numer() == 0
            &&& chroma(r, g, b) > 0 ==> {
                &&& c.h.numer() == hue_numer(r, g, b)
                &&& c.h.denom() == chroma(r, g, b)
                &&& c.s.numer() == chroma(r, g, b)
                &&& c.s.denom() == max3(r, g, b)
            }
        }),
{
    lemma_hue_in_range(r, g, b);
    Ratio::lemma_of(0, 1);
    Ratio::lemma_of(max3(r, g, b) as nat, max as nat);
    if chroma(r, g, b) > 0 {
        Ratio::lemma_of(hue_numer(r, g, b) as nat, chroma(r, g, b) as nat);
        Ratio::lemma_of(chroma(r, g, b) as nat, max3(r, g, b) as nat);
    }
}

/// A colour that can be given as hue, saturation and value.
pub trait ToHsv {
    /// The colour as hue, saturation and value.
    spec fn hsv_of(&self) -> Hsv<Ratio>;

    /// Converts the colour to hue, saturation and value, held exactly.
    fn to_hsv(&self) -> (c: Hsv<Ratio>)
        ensures
            c == self.hsv_of(),
    ;
}

impl ToHsv for Hsv<Ratio> {
    open spec fn hsv_of(&self) -> Hsv<Ratio> {
        *self
    }

    fn to_hsv(&self) -> (c: Hsv<Ratio>) {
        Hsv::new(self.h, self.s, self.v)
    }
}

impl<T: Channel> ToHsv for Rgb<T> {
    open spec fn hsv_of(&self) -> Hsv<Ratio> {
        hsv_of_levels(
            self.r.level() as int,
            self.g.level() as int,
            self.b.level() as int,
            T::max_level() as int,
        )
    }

    fn to_hsv(&self) -> (c: Hsv<Ratio>) {
        proof {
            self.r.lemma_level_in_range();
            self.g.lemma_level_in_range();
            self.b.lemma_level_in_range();
            lemma_hue_in_range(
                self.r.level() as int,
                self.g.level() as int,
                self.b.level() as int,
            );
        }
        let r: u32 = self.r.to_level();
        let g: u32 = self.g.to_level();
        let b: u32 = self.b.to_level();
        let full: u32 = T::max_value().to_level();
        let mx: u32 = if r >= g && r >= b {
            r
        } else if g >= b {
            g
        } else {
            b
        };
        let mn: u32 = if r <= g && r <= b {
            r
        } else if g <= b {
            g
        } else {
            b
        };
        let chr: u32 = mx - mn;
        if chr != 0 {
            let h: u32 = if r == mx {
                if g >= b {
                    60 * (g - b)
                } else {
                    360 * chr - 60 * (b - g)
                }
            } else if g == mx {
                60 * b + 120 * chr - 60 * r
            } else {
                60 * r + 240 * chr - 60 * g
            };
            Hsv::new(
                Ratio::over(h as u64, chr),
                Ratio::over(chr as u64, mx),
                Ratio::over(mx as u64, full),
            )
        } else {
            Hsv::new(Ratio::whole(0), Ratio::whole(0), Ratio::over(mx as u64, full))
        }
    }
}

impl ToHsv for u32 {
    open spec fn hsv_of(&self) -> Hsv<Ratio> {
        self.rgb_u8().hsv_of()
    }

    fn to_hsv(&self) -> (c: Hsv<Ratio>) {
        let rgb: Rgb<u8> = self.to_rgb::<u8>();
        rgb.to_hsv()
    }
}

/// The sixth of the colour circle that a hue lies in: the hue over 60
/// degrees, rounded down.
pub open spec fn sector_of(h: Ratio) -> int {
    (h.numer() / (60 * h.denom())) as int
}

/// How far a hue is into its pair of sixths, going up in the first of the
/// two and down in the second: the numerator of `1 - |h / 60 mod 2 - 1|`
/// over `60 * h.denom()`.
pub open spec fn ramp_of(h: Ratio) -> int {
    let unit = 60 * h.denom();
    let k = h.numer() % (2 * unit);
    if k <= unit {
        k as int
    } else {
        2 * unit - k
    }
}

/// The red, green and blue parts that a sixth of the colour circle gives to
/// the greatest part `chroma`, the second greatest `x` and `zero`; outside
/// the six sixths all three are `zero`.
pub open spec fn sector_components<T>(sector: int, chroma: T, x: T, zero: T) -> Rgb<T> {
    if sector == 0 {
        Rgb { r: chroma, g: x, b: zero }
    } else if sector == 1 {
        Rgb { r: x, g: chroma, b: zero }
    } else if sector == 2 {
        Rgb { r: zero, g: chroma, b: x }
    } else if sector == 3 {
        Rgb { r: zero, g: x, b: chroma }
    } else if sector == 4 {
        Rgb { r: x, g: zero, b: chroma }
    } else if sector == 5 {
        Rgb { r: chroma, g: zero, b: x }
    } else {
        Rgb { r: zero, g: zero, b: zero }
    }
}

/// The level, on a grid of `max + 1` steps, of the component of the
/// normalized colour `n` whose part of the chroma is `part` over the common
/// denominator `60 * n.h.denom() * n.s.denom() * n.v.denom()`: the part and
/// what value has above chroma, `v * (1 - s)`, together, rounded down.
pub open spec fn component_level(n: Hsv<Ratio>, part: int, max: int) -> int {
    let unit = 60 * (n.h.denom() as int);
    let lift = (n.v.numer() as int) * (n.s.denom() - n.s.numer()) * unit;
    let den = unit * (n.s.denom() as int) * (n.v.denom() as int);
    (part + lift) * max / den
}

/// The levels of red, green and blue, on a grid of `max + 1` steps, of the
/// normalized colour `n`: with chroma `v * s` and second greatest part
/// `chroma * (1 - |h / 60 mod 2 - 1|)`, the parts that the hue's sixth of the
/// circle gives, each lifted by `v - chroma`.
pub open spec fn rgb_levels(n: Hsv<Ratio>, max: int) -> Rgb<int> {
    let unit = 60 * (n.h.denom() as int);
    let c = (n.v.numer() as int) * (n.s.numer() as int) * unit;
    let x = (n.v.numer() as int) * (n.s.numer() as int) * ramp_of(n.h);
    let parts = sector_components(sector_of(n.h), c, x, 0int);
    Rgb {
        r: component_level(n, parts.r, max),
        g: component_level(n, parts.g, max),
        b: component_level(n, parts.b, max),
    }
}

/// Picks the red, green and blue parts for a sixth of the colour circle.
pub fn sector_rgb<T: Copy>(sector: u8, chroma: T, x: T, zero: T) -> (c: Rgb<T>)
    ensures
        c == sector_components(sector as int, chroma, x, zero),
{
    if sector == 0 {
        Rgb { r: chroma, g: x, b: zero }
    } else if sector == 1 {
        Rgb { r: x, g: chroma, b: zero }
    } else if sector == 2 {
        Rgb { r: zero, g: chroma, b: x }
    } else if sector == 3 {
        Rgb { r: zero, g: x, b: chroma }
    } else if sector == 4 {
        Rgb { r: x, g: zero, b: chroma }
    } else if sector == 5 {
        Rgb { r: chroma, g: zero, b: x }
    } else {
        Rgb { r: zero, g: zero, b: zero }
    }
}

/// The sizes of what the conversion of a normalized colour computes.
proof fn lemma_component_bounds(vn: int, vd: int, sn: int, sd: int, unit: int, w: int, max: int)
    requires
        0 <= vn <= vd <= 0xFFFF_FFFF,
        0 <= sn <= sd <= 0xFFFF_FFFF,
        0 < vd,
        0 < sd,
        0 < unit <= 60 * 0xFFFF_FFFF,
        0 <= w <= unit,
        0 < max <= 0xFFFF,
    ensures
        0 <= vn * sn <= 0xFFFF_FFFF * 0xFFFF_FFFF,
        0 <= vn * sn * w <= vn * sn * unit,
        0 <= vn * (sd - sn) <= 0xFFFF_FFFF * 0xFFFF_FFFF,
        0 <= vn * (sd - sn) * unit,
        vn * sn * unit + vn * (sd - sn) * unit <= unit * sd * vd,
        0 < unit * sd <= 60 * 0xFFFF_FFFF * 0xFFFF_FFFF,
        0 < unit * sd * vd <= 60 * 0xFFFF_FFFF * 0xFFFF_FFFF * 0xFFFF_FFFF,
        unit * sd * vd * max <= 60 * 0xFFFF_FFFF * 0xFFFF_FFFF * 0xFFFF_FFFF * 0xFFFF,
{
    let b: int = 0xFFFF_FFFF;
    assert(0 <= vn * sn <= b * b) by (nonlinear_arith)
        requires
            0 <= vn <= b,
            0 <= sn <= b,
    ;
    assert(0 <= vn * sn * w <= vn * sn * unit) by (nonlinear_arith)
        requires
            0 <= vn * sn,
            0 <= w <= unit,
    ;
    assert(0 <= vn * (sd - sn) <= b * b) by (nonlinear_arith)
        requires
            0 <= vn <= b,
            0 <= sd - sn <= b,
    ;
    assert(0 <= vn * (sd - sn) * unit) by (nonlinear_arith)
        requires
            0 <= vn * (sd - sn),
            0 < unit,
    ;
    assert(vn * sn * unit + vn * (sd - sn) * unit == unit * sd * vn) by (nonlinear_arith);
    assert(0 < unit * sd <= 60 * b * b) by (nonlinear_arith)
        requires
            0 < unit <= 60 * b,
            0 < sd <= b,
    ;
    assert(unit * sd * vn <= unit * sd * vd) by (nonlinear_arith)
        requires
            0 < unit * sd,
            0 <= vn <= vd,
    ;
    assert(0 < unit * sd * vd <= 60 * b * b * b) by (nonlinear_arith)
        requires
            0 < unit * sd <= 60 * b * b,
            0 < vd <= b,
    ;
    assert(unit * sd * vd * max <= 60 * b * b * b * 0xFFFF) by (nonlinear_arith)
        requires
            0 < unit * sd * vd <= 60 * b * b * b,
            0 < max <= 0xFFFF,
    ;
}

/// A part of a whole, scaled to a grid, is a level of the grid.
proof fn lemma_scaled_part(part: int, whole: int, max: int)
    requires
        0 <= part <= whole,
        0 < whole,
        0 < max,
    ensures
        0 <= part * max <= whole * max,
        0 <= part * max / whole <= max,
        part == whole ==> part * max / whole == max,
{
    assert(0 <= part * max <= whole * max) by (nonlinear_arith)
        requires
            0 <= part <= whole,
            0 < max,
    ;
    assert(whole * max / whole == max) by (nonlinear_arith)
        requires
            0 < whole,
    ;
    assert(0 <= part * max / whole <= whole * max / whole) by (nonlinear_arith)
        requires
            0 <= part * max <= whole * max,
            0 < whole,
    ;
}

/// The levels of red, green and blue of a normalized colour lie on the
/// grid.
pub proof fn lemma_rgb_levels_in_range(n: Hsv<Ratio>, max: int)
    requires
        n.h.valid(),
        n.s.valid(),
        n.v.valid(),
        n.h.numer() < 360 * n.h.denom(),
        n.s.numer() <= n.s.denom(),
        n.v.numer() <= n.v.denom(),
        0 < max <= 0xFFFF,
    ensures
        0 <= rgb_levels(n, max).r <= max,
        0 <= rgb_levels(n, max).g <= max,
        0 <= rgb_levels(n, max).b <= max,
{
    n.h.lemma_parts();
    n.s.lemma_parts();
    n.v.lemma_parts();
    let unit = 60 * (n.h.denom() as int);
    let w = ramp_of(n.h);
    vstd::arithmetic::div_mod::lemma_mod_bound(n.h.numer() as int, 2 * unit);
    lemma_component_bounds(
        n.v.numer() as int,
        n.v.denom() as int,
        n.s.numer() as int,
        n.s.denom() as int,
        unit,
        w,
        max,
    );
    let c = (n.v.numer() as int) * (n.s.numer() as int) * unit;
    let x = (n.v.numer() as int) * (n.s.numer() as int) * w;
    let lift = (n.v.numer() as int) * (n.s.denom() - n.s.numer()) * unit;
    let den = unit * (n.s.denom() as int) * (n.v.denom() as int);
    let parts = sector_components(sector_of(n.h), c, x, 0int);
    lemma_scaled_part(parts.r + lift, den, max);
    lemma_scaled_part(parts.g + lift, den, max);
    lemma_scaled_part(parts.b + lift, den, max);
}

impl Hsv<Ratio> {
    /// Inverting twice a colour whose hue lies in `[0, 360)` and whose
    /// saturation and value are at most 1 gives it back.
    pub proof fn lemma_inverse_involution(self)
        requires
            self.h.valid(),
            self.s.valid(),
            self.v.valid(),
            self.h.numer() < 360 * self.h.denom(),
            self.s.numer() <= self.s.denom(),
            self.v.numer() <= self.v.denom(),
        ensures
            self.inverted().inverted() == self,
    {
        self.h.lemma_invert_degrees_involution();
        self.s.lemma_invert_involution();
        self.v.lemma_invert_involution();
    }

    /// The levels of red, green and blue of the colour on a grid of
    /// `max + 1` steps.
    fn levels_on(&self, max: u32) -> (c: Rgb<u32>)
        requires
            0 < max <= 0xFFFF,
        ensures
            c.r == rgb_levels(self.normalized(), max as int).r,
            c.g == rgb_levels(self.normalized(), max as int).g,
            c.b == rgb_levels(self.normalized(), max as int).b,
            c.r <= max,
            c.g <= max,
            c.b <= max,
    {
        let n: Hsv<Ratio> = self.normalize();
        proof {
            use_type_invariant(&self.h);
            use_type_invariant(&self.s);
            use_type_invariant(&self.v);
            self.h.lemma_normalized_degrees();
            self.s.lemma_normalized();
            self.v.lemma_normalized();
            n.h.lemma_parts();
            n.s.lemma_parts();
            n.v.lemma_parts();
        }
        let hn: u128 = n.h.numerator() as u128;
        let hd: u128 = n.h.denominator() as u128;
        let sn: u128 = n.s.numerator() as u128;
        let sd: u128 = n.s.denominator() as u128;
        let vn: u128 = n.v.numerator() as u128;
        let vd: u128 = n.v.denominator() as u128;
        let unit: u128 = 60 * hd;
        let sector: u128 = hn / unit;
        let k: u128 = hn % (2 * unit);
        let w: u128 = if k <= unit {
            k
        } else {
            2 * unit - k
        };
        proof {
            lemma_component_bounds(
                vn as int,
                vd as int,
                sn as int,
                sd as int,
                unit as int,
                w as int,
                max as int,
            );
            assert(hn / unit < 6) by (nonlinear_arith)
                requires
                    hn < 6 * unit,
                    0 < unit,
            ;
        }
        let vs: u128 = vn * sn;
        let chr: u128 = vs * unit;
        let x: u128 = vs * w;
        let lift: u128 = vn * (sd - sn) * unit;
        let den: u128 = unit * sd * vd;
        let parts: Rgb<u128> = sector_rgb(sector as u8, chr, x, 0);
        proof {
            lemma_scaled_part((parts.r + lift) as int, den as int, max as int);
            lemma_scaled_part((parts.g + lift) as int, den as int, max as int);
            lemma_scaled_part((parts.b + lift) as int, den as int, max as int);
        }
        let wide: u128 = max as u128;
        Rgb {
            r: ((parts.r + lift) * wide / den) as u32,
            g: ((parts.g + lift) * wide / den) as u32,
            b: ((parts.b + lift) * wide / den) as u32,
        }
    }
}

impl ToRgb for Hsv<Ratio> {
    open spec fn rgb_u8(&self) -> Rgb<u8> {
        let levels = rgb_levels(self.normalized(), 0xFF);
        Rgb { r: levels.r as u8, g: levels.g as u8, b: levels.b as u8 }
    }

    open spec fn rgb_u16(&self) -> Rgb<u16> {
        let levels = rgb_levels(self.normalized(), 0xFFFF);
        Rgb { r: levels.r as u16, g: levels.g as u16, b: levels.b as u16 }
    }

    fn to_rgb<U: Channel>(&self) -> (c: Rgb<U>) {
        let narrow: Rgb<u32> = self.levels_on(0xFF);
        let wide: Rgb<u32> = self.levels_on(0xFFFF);
        Rgb {
            r: U::from_encodings(u8::from_level(narrow.r), u16::from_level(wide.r)),
            g: U::from_encodings(u8::from_level(narrow.g), u16::from_level(wide.g)),
            b: U::from_encodings(u8::from_level(narrow.b), u16::from_level(wide.b)),
        }
    }
}

/// A grey has hue 0 and saturation 0 whatever its level, and its value is
/// its level over the highest.
pub proof fn lemma_grey_is_achromatic(level: int, max: int)
    ensures
        hsv_of_levels(level, level, level, max) == (Hsv {
            h: Ratio::of(0, 1),
            s: Ratio::of(0, 1),
            v: Ratio::of(level as nat, max as nat),
        }),
{
}

/// The level of the component whose part of the chroma is `part`, where the
/// colour came from levels with greatest `mx`, least `mn` and chroma `c`,
/// and the part is `share` sixtieths of a degree of hue times the chroma:
/// the component lies `share` above the least level.
proof fn lemma_level_of_part(mx: int, mn: int, c: int, share: int, part: int, max: int)
    requires
        0 <= mn,
        0 < c,
        mx == mn + c,
        0 <= share,
        part == (mx * c) * (60 * share),
        0 < max,
    ensures
        ((part + (mx * (mx - c)) * (60 * c)) * max) / (((60 * c) * mx) * max) == share + mn,
{
    let den = ((60 * c) * mx) * max;
    assert(den > 0) by (nonlinear_arith)
        requires
            den == ((60 * c) * mx) * max,
            0 < c,
            0 < mx,
            0 < max,
    ;
    assert((part + (mx * (mx - c)) * (60 * c)) * max == (share + mn) * den) by (nonlinear_arith)
        requires
            part == (mx * c) * (60 * share),
            mx == mn + c,
            den == ((60 * c) * mx) * max,
    ;
    vstd::arithmetic::div_mod::lemma_div_multiples_vanish(share + mn, den);
    assert((share + mn) * den == den * (share + mn)) by (nonlinear_arith);
}

/// Where a hue lies: in which sixth of the circle, and how far into its
/// pair of sixths.
proof fn lemma_hue_place(hn: int, unit: int, sector: int, turns: int)
    requires
        0 < unit,
        sector * unit <= hn < sector * unit + unit,
        turns * (2 * unit) <= hn < turns * (2 * unit) + 2 * unit,
    ensures
        hn / unit == sector,
        hn % (2 * unit) == hn - turns * (2 * unit),
{
    vstd::arithmetic::div_mod::lemma_fundamental_div_mod_converse(
        hn,
        unit,
        sector,
        hn - sector * unit,
    );
    vstd::arithmetic::div_mod::lemma_fundamental_div_mod_converse(
        hn,
        2 * unit,
        turns,
        hn - turns * (2 * unit),
    );
}

/// The level of every component of a grey of level `mx`.
proof fn lemma_level_of_grey(mx: int, max: int)
    requires
        0 <= mx,
        0 < max,
    ensures
        ((0 + (mx * (1 - 0)) * 60) * max) / ((60 * 1) * max) == mx,
{
    let den = (60 * 1) * max;
    assert(den > 0) by (nonlinear_arith)
        requires
            den == (60 * 1) * max,
            0 < max,
    ;
    assert((0 + (mx * (1 - 0)) * 60) * max == mx * den) by (nonlinear_arith)
        requires
            den == (60 * 1) * max,
    ;
    vstd::arithmetic::div_mod::lemma_div_multiples_vanish(mx, den);
    assert(mx * den == den * mx) by (nonlinear_arith);
}

/// Converting levels to hue, saturation and value and back gives the levels
/// again.
pub proof fn lemma_round_trip_levels(r: int, g: int, b: int, max: int)
    requires
        0 <= r <= max,
        0 <= g <= max,
        0 <= b <= max,
        0 < max <= 0xFFFF,
    ensures
        hsv_of_levels(r, g, b, max).normalized() == hsv_of_levels(r, g, b, max),
        rgb_levels(hsv_of_levels(r, g, b, max), max) == (Rgb { r, g, b }),
{
    let mx = max3(r, g, b);
    let mn = min3(r, g, b);
    let c = chroma(r, g, b);
    let hsv = hsv_of_levels(r, g, b, max);
    let hn = hue_numer(r, g, b);
    lemma_hue_in_range(r, g, b);
    Ratio::lemma_of(0, 1);
    Ratio::lemma_of(mx as nat, max as nat);
    if c > 0 {
        Ratio::lemma_of(hn as nat, c as nat);
        Ratio::lemma_of(c as nat, mx as nat);
    }
    hsv.h.lemma_normalized_degrees();
    hsv.s.lemma_normalized();
    hsv.v.lemma_normalized();
    assert(hsv.normalized() == hsv);
    if c == 0 {
        vstd::arithmetic::div_mod::lemma_fundamental_div_mod_converse(0, 60, 0, 0);
        vstd::arithmetic::div_mod::lemma_fundamental_div_mod_converse(0, 120, 0, 0);
        assert(sector_of(hsv.h) == 0);
        assert(ramp_of(hsv.h) == 0);
        assert((mx * 0) * 60 == 0) by (nonlinear_arith);
        assert((mx * 0) * 0 == 0) by (nonlinear_arith);
        lemma_level_of_grey(mx, max);
        assert(component_level(hsv, 0, max) == mx);
    } else {
        let unit = 60 * c;
        // how far up the ramp the hue is, in sixtieths of a degree per
        // unit of chroma, after the whole sixths of the circle before it
        let (sector, share): (int, int) = if r == mx {
            if g >= b {
                if g - b < c {
                    lemma_hue_place(hn, unit, 0, 0);
                    (0, g - b)
                } else {
                    lemma_hue_place(hn, unit, 1, 0);
                    (1, c)
                }
            } else {
                lemma_hue_place(hn, unit, 5, 2);
                (5, b - g)
            }
        } else if g == mx {
            if b >= r {
                if b - r < c {
                    lemma_hue_place(hn, unit, 2, 1);
                    (2, b - r)
                } else {
                    lemma_hue_place(hn, unit, 3, 1);
                    (3, c)
                }
            } else {
                lemma_hue_place(hn, unit, 1, 0);
                (1, r - b)
            }
        } else {
            if r >= g {
                lemma_hue_place(hn, unit, 4, 2);
                (4, r - g)
            } else {
                lemma_hue_place(hn, unit, 3, 1);
                (3, g - r)
            }
        };
        assert(sector_of(hsv.h) == sector);
        assert(ramp_of(hsv.h) == 60 * share);
        let full = (mx * c) * unit;
        let second = (mx * c) * (60 * share);
        assert((mx * c) * (60 * 0) == 0) by (nonlinear_arith);
        lemma_level_of_part(mx, mn, c, c, full, max);
        lemma_level_of_part(mx, mn, c, share, second, max);
        lemma_level_of_part(mx, mn, c, 0, 0, max);
        assert(component_level(hsv, full, max) == mx);
        assert(component_level(hsv, second, max) == share + mn);
        assert(component_level(hsv, 0, max) == mn);
    }
}

/// An 8-bit colour converted to hue, saturation and value and back is
/// unchanged.
pub proof fn lemma_round_trip_u8(c: Rgb<u8>)
    ensures
        c.hsv_of().rgb_u8() == c,
{
    lemma_round_trip_levels(c.r as int, c.g as int, c.b as int, 0xFF);
}

/// A 16-bit colour converted to hue, saturation and value and back is
/// unchanged.
pub proof fn lemma_round_trip_u16(c: Rgb<u16>)
    ensures
        c.hsv_of().rgb_u16() == c,
{
    lemma_round_trip_levels(c.r as int, c.g as int, c.b as int, 0xFFFF);
}

} // verus!
