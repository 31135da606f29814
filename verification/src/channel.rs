//! Colour channels: one component of a colour, held on an evenly spaced grid
//! of levels `0 ..= max_level`, where level 0 is no intensity and the highest
//! level is full intensity.

use crate::numeric::{
    cast_to_u16, cast_to_u8, saturating_add_u16, saturating_add_u8, saturating_sub_u16,
    saturating_sub_u8,
};
use vstd::prelude::*;

verus! {

/// `v` held between `lo` and `hi`. The lower bound is tested first, so with
/// `lo > hi` a value below `lo` becomes `lo` and any other value above `hi`
/// becomes `hi`.
pub open spec fn clamp_level(v: int, lo: int, hi: int) -> int {
    if v < lo {
        lo
    } else if v > hi {
        hi
    } else {
        v
    }
}

/// The product of the fractions `a / max` and `b / max`, as a level of the
/// same grid, rounded down.
pub open spec fn normalized_mul_level(a: int, b: int, max: int) -> int {
    a * b / max
}

/// The quotient of the fractions `a / max` and `b / max`, as a level of the
/// same grid, rounded down and held at `max`. Dividing a positive level by
/// zero gives `max`, and zero by zero gives zero.
pub open spec fn normalized_div_level(a: int, b: int, max: int) -> int {
    if b == 0 {
        if a == 0 {
            0
        } else {
            max
        }
    } else if a * max / b > max {
        max
    } else {
        a * max / b
    }
}

/// The level reached by going from `a` towards `b` by the fraction `t / max`
/// of the distance, the distance travelled rounded down.
pub open spec fn mix_level(a: int, b: int, t: int, max: int) -> int {
    if a <= b {
        a + (b - a) * t / max
    } else {
        a - (a - b) * t / max
    }
}

/// The sum of two levels, held at `max`.
pub open spec fn saturating_add_level(a: int, b: int, max: int) -> int {
    if a + b > max {
        max
    } else {
        a + b
    }
}

/// The difference of two levels, held at zero.
pub open spec fn saturating_sub_level(a: int, b: int) -> int {
    if a < b {
        0
    } else {
        a - b
    }
}

/// A fraction of a distance is no longer than the distance.
pub proof fn lemma_part_of_distance(d: int, t: int, max: int)
    requires
        0 <= d,
        0 <= t <= max,
        0 < max,
    ensures
        0 <= d * t / max <= d,
        t == 0 ==> d * t / max == 0,
        t == max ==> d * t / max == d,
{
    assert(0 <= d * t <= d * max) by (nonlinear_arith)
        requires
            0 <= d,
            0 <= t <= max,
    ;
    assert(d * max / max == d) by (nonlinear_arith)
        requires
            0 < max,
    ;
    assert(0 <= d * t / max <= d * max / max) by (nonlinear_arith)
        requires
            0 <= d * t <= d * max,
            0 < max,
    ;
    if t == 0 {
        assert(d * t == 0) by (nonlinear_arith)
            requires
                t == 0,
        ;
    }
}

/// The product of two fractions of full intensity is a level of the grid.
pub proof fn lemma_normalized_mul_in_range(a: int, b: int, max: int)
    requires
        0 <= a <= max,
        0 <= b <= max,
        0 < max,
    ensures
        0 <= normalized_mul_level(a, b, max) <= a,
        normalized_mul_level(a, b, max) <= max,
{
    lemma_part_of_distance(a, b, max);
}

/// A mixture of two levels lies between them.
pub proof fn lemma_mix_in_range(a: int, b: int, t: int, max: int)
    requires
        0 <= a <= max,
        0 <= b <= max,
        0 <= t <= max,
        0 < max,
    ensures
        a <= b ==> a <= mix_level(a, b, t, max) <= b,
        b <= a ==> b <= mix_level(a, b, t, max) <= a,
        0 <= mix_level(a, b, t, max) <= max,
        t == 0 ==> mix_level(a, b, t, max) == a,
        t == max ==> mix_level(a, b, t, max) == b,
{
    if a <= b {
        lemma_part_of_distance(b - a, t, max);
    } else {
        lemma_part_of_distance(a - b, t, max);
    }
}

/// What a type must offer to serve as a colour component.
///
/// A channel value is a level on a grid of `max_level() + 1` evenly spaced
/// steps; the fraction of full intensity that it stands for is
/// `level() / max_level()`.
pub trait Channel: Copy + Sized {
    /// The level that the value holds.
    spec fn level(self) -> nat;

    /// The highest level of the encoding.
    spec fn max_level() -> nat;

    /// The value that holds `level`.
    spec fn at_level(level: nat) -> Self;

    /// The value re-encoded in 8 bits.
    spec fn as_u8(self) -> u8;

    /// The value re-encoded in 16 bits.
    spec fn as_u16(self) -> u16;

    /// The value of this encoding, picked among the re-encodings of one
    /// channel value.
    spec fn select(in_u8: u8, in_u16: u16) -> Self;

    /// Every level lies on the grid, and the grid fits in 16 bits.
    proof fn lemma_level_in_range(self)
        ensures
            self.level() <= Self::max_level(),
            0 < Self::max_level() <= 0xFFFF,
    ;

    /// A value is determined by its level.
    proof fn lemma_level_determines(self, other: Self)
        requires
            self.level() == other.level(),
        ensures
            self == other,
    ;

    /// Every level of the grid is held by a value.
    proof fn lemma_at_level(level: nat)
        requires
            level <= Self::max_level(),
        ensures
            Self::at_level(level).level() == level,
    ;

    /// The level as a number.
    fn to_level(self) -> (l: u32)
        ensures
            l == self.level(),
    ;

    /// The value at `level`.
    fn from_level(level: u32) -> (c: Self)
        requires
            level <= Self::max_level(),
        ensures
            c == Self::at_level(level as nat),
            c.level() == level,
    ;

    /// The value of full intensity.
    fn max_value() -> (c: Self)
        ensures
            c == Self::at_level(Self::max_level()),
            c.level() == Self::max_level(),
    ;

    /// Picks the value of this encoding among the re-encodings of one channel
    /// value.
    fn from_encodings(in_u8: u8, in_u16: u16) -> (c: Self)
        ensures
            c == Self::select(in_u8, in_u16),
    ;

    /// Converts the value to the 8-bit encoding.
    fn to_channel_u8(self) -> (c: u8)
        ensures
            c == self.as_u8(),
    ;

    /// Converts the value to the 16-bit encoding.
    fn to_channel_u16(self) -> (c: u16)
        ensures
            c == self.as_u16(),
    ;

    /// The complement of the value: what is missing to full intensity.
    fn invert_channel(self) -> (c: Self)
        ensures
            c == Self::at_level((Self::max_level() - self.level()) as nat),
            c.level() == Self::max_level() - self.level(),
    ;

    /// Holds the value between `lo` and `hi`.
    fn clamp(self, lo: Self, hi: Self) -> (c: Self)
        ensures
            c == (if self.level() < lo.level() {
                lo
            } else if self.level() > hi.level() {
                hi
            } else {
                self
            }),
            c.level() == clamp_level(self.level() as int, lo.level() as int, hi.level() as int),
            lo.level() <= hi.level() ==> lo.level() <= c.level() <= hi.level(),
    {
        if self.to_level() < lo.to_level() {
            lo
        } else if self.to_level() > hi.to_level() {
            hi
        } else {
            self
        }
    }

    /// The greater of two values; `self` where they are equal.
    fn max(self, other: Self) -> (c: Self)
        ensures
            c == (if self.level() < other.level() {
                other
            } else {
                self
            }),
    {
        if self.to_level() < other.to_level() {
            other
        } else {
            self
        }
    }

    /// The lesser of two values; `other` where they are equal.
    fn min(self, other: Self) -> (c: Self)
        ensures
            c == (if self.level() < other.level() {
                self
            } else {
                other
            }),
    {
        if self.to_level() < other.to_level() {
            self
        } else {
            other
        }
    }

    /// The sum of two values whose levels add up to a level of the grid.
    fn add_levels(self, rhs: Self) -> (c: Self)
        requires
            self.level() + rhs.level() <= Self::max_level(),
        ensures
            c == Self::at_level(self.level() + rhs.level()),
            c.level() == self.level() + rhs.level(),
    {
        proof {
            self.lemma_level_in_range();
        }
        Self::from_level(self.to_level() + rhs.to_level())
    }

    /// The difference of two values, the second no greater than the first.
    fn sub_levels(self, rhs: Self) -> (c: Self)
        requires
            rhs.level() <= self.level(),
        ensures
            c == Self::at_level((self.level() - rhs.level()) as nat),
            c.level() == self.level() - rhs.level(),
    {
        proof {
            self.lemma_level_in_range();
        }
        Self::from_level(self.to_level() - rhs.to_level())
    }

    /// The product of two levels, where it is a level of the grid.
    fn mul_levels(self, rhs: Self) -> (c: Self)
        requires
            self.level() * rhs.level() <= Self::max_level(),
        ensures
            c == Self::at_level(self.level() * rhs.level()),
            c.level() == self.level() * rhs.level(),
    {
        proof {
            self.lemma_level_in_range();
        }
        Self::from_level(self.to_level() * rhs.to_level())
    }

    /// The quotient of two levels, rounded down; the divisor is not zero.
    fn div_levels(self, rhs: Self) -> (c: Self)
        requires
            rhs.level() != 0,
        ensures
            c == Self::at_level(self.level() / rhs.level()),
            c.level() == self.level() / rhs.level(),
    {
        proof {
            self.lemma_level_in_range();
            vstd::arithmetic::div_mod::lemma_div_nonincreasing(
                self.level() as int,
                rhs.level() as int,
            );
            vstd::arithmetic::div_mod::lemma_div_pos_is_pos(
                self.level() as int,
                rhs.level() as int,
            );
        }
        Self::from_level(self.to_level() / rhs.to_level())
    }

    /// The sum of two values, held at full intensity.
    fn saturating_add(self, rhs: Self) -> (c: Self)
        ensures
            c == Self::at_level(
                saturating_add_level(
                    self.level() as int,
                    rhs.level() as int,
                    Self::max_level() as int,
                ) as nat,
            ),
            c.level() == saturating_add_level(
                self.level() as int,
                rhs.level() as int,
                Self::max_level() as int,
            ),
    ;

    /// The difference of two values, held at zero.
    fn saturating_sub(self, rhs: Self) -> (c: Self)
        ensures
            c == Self::at_level(
                saturating_sub_level(self.level() as int, rhs.level() as int) as nat,
            ),
            c.level() == saturating_sub_level(self.level() as int, rhs.level() as int),
    ;

    /// Multiplies two values as fractions of full intensity.
    fn normalized_mul(self, rhs: Self) -> (c: Self)
        ensures
            c == Self::at_level(
                normalized_mul_level(
                    self.level() as int,
                    rhs.level() as int,
                    Self::max_level() as int,
                ) as nat,
            ),
            c.level() == normalized_mul_level(
                self.level() as int,
                rhs.level() as int,
                Self::max_level() as int,
            ),
    {
        proof {
            self.lemma_level_in_range();
            rhs.lemma_level_in_range();
            lemma_normalized_mul_in_range(
                self.level() as int,
                rhs.level() as int,
                Self::max_level() as int,
            );
        }
        let max: u32 = Self::max_value().to_level();
        let a: u32 = self.to_level();
        let b: u32 = rhs.to_level();
        assert(a * b <= 0xFFFF * 0xFFFF) by (nonlinear_arith)
            requires
                a <= 0xFFFF,
                b <= 0xFFFF,
        ;
        Self::from_level(a * b / max)
    }

    /// Divides one value by another as fractions of full intensity. The
    /// quotient is held at full intensity; dividing by zero gives full
    /// intensity, or zero where `self` is zero too.
    fn normalized_div(self, rhs: Self) -> (c: Self)
        ensures
            c == Self::at_level(
                normalized_div_level(
                    self.level() as int,
                    rhs.level() as int,
                    Self::max_level() as int,
                ) as nat,
            ),
            c.level() == normalized_div_level(
                self.level() as int,
                rhs.level() as int,
                Self::max_level() as int,
            ),
    {
        proof {
            self.lemma_level_in_range();
            rhs.lemma_level_in_range();
        }
        let max: u32 = Self::max_value().to_level();
        let a: u32 = self.to_level();
        let b: u32 = rhs.to_level();
        if b == 0 {
            if a == 0 {
                Self::from_level(0)
            } else {
                Self::max_value()
            }
        } else {
            assert(a * max <= 0xFFFF * 0xFFFF) by (nonlinear_arith)
                requires
                    a <= 0xFFFF,
                    max <= 0xFFFF,
            ;
            let q: u32 = a * max / b;
            if q > max {
                Self::max_value()
            } else {
                Self::from_level(q)
            }
        }
    }

    /// Goes from `self` towards `rhs` by the fraction of the distance that
    /// `t` stands for.
    fn mix(self, rhs: Self, t: Self) -> (c: Self)
        ensures
            c == Self::at_level(
                mix_level(
                    self.level() as int,
                    rhs.level() as int,
                    t.level() as int,
                    Self::max_level() as int,
                ) as nat,
            ),
            c.level() == mix_level(
                self.level() as int,
                rhs.level() as int,
                t.level() as int,
                Self::max_level() as int,
            ),
    {
        proof {
            self.lemma_level_in_range();
            rhs.lemma_level_in_range();
            t.lemma_level_in_range();
            lemma_mix_in_range(
                self.level() as int,
                rhs.level() as int,
                t.level() as int,
                Self::max_level() as int,
            );
        }
        let max: u32 = Self::max_value().to_level();
        let a: u32 = self.to_level();
        let b: u32 = rhs.to_level();
        let w: u32 = t.to_level();
        if a <= b {
            let d: u32 = b - a;
            assert(d * w <= 0xFFFF * 0xFFFF) by (nonlinear_arith)
                requires
                    d <= 0xFFFF,
                    w <= 0xFFFF,
            ;
            Self::from_level(a + d * w / max)
        } else {
            let d: u32 = a - b;
            assert(d * w <= 0xFFFF * 0xFFFF) by (nonlinear_arith)
                requires
                    d <= 0xFFFF,
                    w <= 0xFFFF,
            ;
            Self::from_level(a - d * w / max)
        }
    }
}

/// A channel whose values are fractions rather than levels of a grid: the
/// saturation and value of a colour between 0 and 1, and its hue in degrees.
pub trait FloatChannel: Copy + Sized {
    /// The complement of the value, `1 - self`, held at zero.
    spec fn inverted(self) -> Self;

    /// The value held between `lo` and `hi`, the lower bound tested first.
    spec fn clamped(self, lo: Self, hi: Self) -> Self;

    /// The value held between 0 and 1.
    spec fn normalized(self) -> Self;

    /// The angle in degrees brought into `[0, 360)`.
    spec fn normalized_degrees(self) -> Self;

    /// The opposite angle, in `[0, 360)`.
    spec fn inverted_degrees(self) -> Self;

    /// The complement of the value.
    fn invert_channel(self) -> (c: Self)
        ensures
            c == self.inverted(),
    ;

    /// Holds the value between `lo` and `hi`.
    fn clamp(self, lo: Self, hi: Self) -> (c: Self)
        ensures
            c == self.clamped(lo, hi),
    ;

    /// Holds the value between 0 and 1.
    fn normalize_channel(self) -> (c: Self)
        ensures
            c == self.normalized(),
    ;

    /// Brings an angle in degrees into `[0, 360)`.
    fn normalize_degrees(self) -> (c: Self)
        ensures
            c == self.normalized_degrees(),
    ;

    /// Turns an angle in degrees by half a turn.
    fn invert_degrees(self) -> (c: Self)
        ensures
            c == self.inverted_degrees(),
    ;
}

/// The complement of a channel value.
pub open spec fn inverted<T: Channel>(v: T) -> T {
    T::at_level((T::max_level() - v.level()) as nat)
}

/// A channel value held between two others.
pub open spec fn clamped<T: Channel>(v: T, lo: T, hi: T) -> T {
    if v.level() < lo.level() {
        lo
    } else if v.level() > hi.level() {
        hi
    } else {
        v
    }
}

/// The channel value at the sum of two levels.
pub open spec fn level_sum<T: Channel>(a: T, b: T) -> T {
    T::at_level(a.level() + b.level())
}

/// The channel value at the difference of two levels.
pub open spec fn level_difference<T: Channel>(a: T, b: T) -> T {
    T::at_level((a.level() - b.level()) as nat)
}

/// The channel value at the product of two levels.
pub open spec fn level_product<T: Channel>(a: T, b: T) -> T {
    T::at_level(a.level() * b.level())
}

/// The channel value at the quotient of two levels, rounded down.
pub open spec fn level_quotient<T: Channel>(a: T, b: T) -> T {
    T::at_level(a.level() / b.level())
}

/// The sum of two channel values, held at full intensity.
pub open spec fn saturated_sum<T: Channel>(a: T, b: T) -> T {
    T::at_level(saturating_add_level(a.level() as int, b.level() as int, T::max_level() as int) as nat)
}

/// The difference of two channel values, held at zero.
pub open spec fn saturated_difference<T: Channel>(a: T, b: T) -> T {
    T::at_level(saturating_sub_level(a.level() as int, b.level() as int) as nat)
}

/// The product of two channel values as fractions of full intensity.
pub open spec fn normalized_product<T: Channel>(a: T, b: T) -> T {
    T::at_level(normalized_mul_level(a.level() as int, b.level() as int, T::max_level() as int) as nat)
}

/// The quotient of two channel values as fractions of full intensity.
pub open spec fn normalized_quotient<T: Channel>(a: T, b: T) -> T {
    T::at_level(normalized_div_level(a.level() as int, b.level() as int, T::max_level() as int) as nat)
}

/// The channel value reached from `a` towards `b` by the fraction `t`.
pub open spec fn mixed<T: Channel>(a: T, b: T, t: T) -> T {
    T::at_level(
        mix_level(a.level() as int, b.level() as int, t.level() as int, T::max_level() as int) as nat,
    )
}

/// Inverting a channel value twice gives it back.
pub proof fn lemma_invert_involution<T: Channel>(v: T)
    ensures
        inverted(inverted(v)) == v,
{
    v.lemma_level_in_range();
    T::lemma_at_level((T::max_level() - v.level()) as nat);
    inverted(inverted(v)).lemma_level_in_range();
    T::lemma_at_level(v.level());
    v.lemma_level_determines(inverted(inverted(v)));
}

/// Mixing by nothing gives the first value, and mixing by full intensity
/// gives the second.
pub proof fn lemma_mix_boundaries<T: Channel>(a: T, b: T, t: T)
    ensures
        t.level() == 0 ==> mixed(a, b, t) == a,
        t.level() == T::max_level() ==> mixed(a, b, t) == b,
{
    a.lemma_level_in_range();
    b.lemma_level_in_range();
    t.lemma_level_in_range();
    lemma_mix_in_range(a.level() as int, b.level() as int, t.level() as int, T::max_level() as int);
    T::lemma_at_level(a.level());
    T::lemma_at_level(b.level());
    if t.level() == 0 {
        a.lemma_level_determines(mixed(a, b, t));
    }
    if t.level() == T::max_level() {
        b.lemma_level_determines(mixed(a, b, t));
    }
}

/// Multiplying or dividing by full intensity changes nothing.
pub proof fn lemma_normalized_identity<T: Channel>(a: T, full: T)
    requires
        full.level() == T::max_level(),
    ensures
        normalized_product(a, full) == a,
        normalized_quotient(a, full) == a,
{
    a.lemma_level_in_range();
    let l = a.level() as int;
    let max = T::max_level() as int;
    assert(l * max / max == l) by (nonlinear_arith)
        requires
            0 < max,
    ;
    T::lemma_at_level(a.level());
    a.lemma_level_determines(normalized_product(a, full));
    a.lemma_level_determines(normalized_quotient(a, full));
}

/// Adding the value of no intensity, or multiplying level by level with the
/// value at level 1, changes nothing.
pub proof fn lemma_level_identities<T: Channel>(v: T, zero: T, one: T)
    requires
        zero.level() == 0,
        one.level() == 1,
    ensures
        level_sum(v, zero) == v,
        level_product(v, one) == v,
{
    v.lemma_level_in_range();
    T::lemma_at_level(v.level());
    assert(v.level() * 1 == v.level()) by (nonlinear_arith);
    v.lemma_level_determines(level_sum(v, zero));
    v.lemma_level_determines(level_product(v, one));
}

/// An 8-bit value widened to 16 bits and narrowed again is unchanged.
pub proof fn lemma_u8_round_trip(v: u8)
    ensures
        v.as_u16().as_u8() == v,
        converted::<u16, u8>(converted::<u8, u16>(v)) == v,
{
}

/// A 16-bit value narrowed to 8 bits and widened again keeps its high byte
/// and has it in the low byte too: it is unchanged exactly where its two
/// bytes were equal.
pub proof fn lemma_u16_round_trip(v: u16)
    ensures
        v.as_u8().as_u16() == (v / 0x100) * 0x101,
        v.as_u8().as_u16() == v <==> v % 0x100 == v / 0x100,
        converted::<u8, u16>(converted::<u16, u8>(v)) == v.as_u8().as_u16(),
{
}

/// The value of encoding `U` that `chan` is converted to.
pub open spec fn converted<T: Channel, U: Channel>(chan: T) -> U {
    U::select(chan.as_u8(), chan.as_u16())
}

/// Converts a channel value to another encoding.
pub fn to_channel<T: Channel, U: Channel>(chan: T) -> (c: U)
    ensures
        c == converted::<T, U>(chan),
{
    U::from_encodings(chan.to_channel_u8(), chan.to_channel_u16())
}

/// The greater of two channel values; `a` where they are equal.
pub fn max<T: Channel>(a: T, b: T) -> (c: T)
    ensures
        c == (if a.level() < b.level() {
            b
        } else {
            a
        }),
{
    if a.to_level() < b.to_level() {
        b
    } else {
        a
    }
}

/// The lesser of two channel values; `b` where they are equal.
pub fn min<T: Channel>(a: T, b: T) -> (c: T)
    ensures
        c == (if a.level() < b.level() {
            a
        } else {
            b
        }),
{
    if a.to_level() < b.to_level() {
        a
    } else {
        b
    }
}

impl Channel for u8 {
    open spec fn level(self) -> nat {
        self as nat
    }

    open spec fn max_level() -> nat {
        0xFF
    }

    open spec fn at_level(level: nat) -> u8 {
        level as u8
    }

    open spec fn as_u8(self) -> u8 {
        self
    }

    /// The byte repeated in both halves of the 16-bit value.
    open spec fn as_u16(self) -> u16 {
        (self * 0x101) as u16
    }

    open spec fn select(in_u8: u8, in_u16: u16) -> u8 {
        in_u8
    }

    proof fn lemma_level_in_range(self) {
    }

    proof fn lemma_level_determines(self, other: u8) {
    }

    proof fn lemma_at_level(level: nat) {
    }

    fn to_level(self) -> (l: u32) {
        self as u32
    }

    fn from_level(level: u32) -> (c: u8) {
        match cast_to_u8(level) {
            Some(c) => c,
            None => vstd::pervasive::unreached(),
        }
    }

    fn max_value() -> (c: u8) {
        0xFF
    }

    fn from_encodings(in_u8: u8, in_u16: u16) -> (c: u8) {
        in_u8
    }

    fn to_channel_u8(self) -> (c: u8) {
        self
    }

    fn to_channel_u16(self) -> (c: u16) {
        let wide: u16 = self as u16;
        assert((wide << 8) | wide == wide * 0x101) by (bit_vector)
            requires
                wide <= 0xFF,
        ;
        (wide << 8) | wide
    }

    fn invert_channel(self) -> (c: u8) {
        assert(!self == 0xFF - self) by (bit_vector);
        !self
    }

    fn saturating_add(self, rhs: u8) -> (c: u8) {
        saturating_add_u8(self, rhs)
    }

    fn saturating_sub(self, rhs: u8) -> (c: u8) {
        saturating_sub_u8(self, rhs)
    }
}

impl Channel for u16 {
    open spec fn level(self) -> nat {
        self as nat
    }

    open spec fn max_level() -> nat {
        0xFFFF
    }

    open spec fn at_level(level: nat) -> u16 {
        level as u16
    }

    /// The high byte: the low byte is cut off, not rounded.
    open spec fn as_u8(self) -> u8 {
        (self / 0x100) as u8
    }

    open spec fn as_u16(self) -> u16 {
        self
    }

    open spec fn select(in_u8: u8, in_u16: u16) -> u16 {
        in_u16
    }

    proof fn lemma_level_in_range(self) {
    }

    proof fn lemma_level_determines(self, other: u16) {
    }

    proof fn lemma_at_level(level: nat) {
    }

    fn to_level(self) -> (l: u32) {
        self as u32
    }

    fn from_level(level: u32) -> (c: u16) {
        match cast_to_u16(level) {
            Some(c) => c,
            None => vstd::pervasive::unreached(),
        }
    }

    fn max_value() -> (c: u16) {
        0xFFFF
    }

    fn from_encodings(in_u8: u8, in_u16: u16) -> (c: u16) {
        in_u16
    }

    fn to_channel_u8(self) -> (c: u8) {
        assert(self >> 8 == self / 0x100) by (bit_vector);
        (self >> 8) as u8
    }

    fn to_channel_u16(self) -> (c: u16) {
        self
    }

    fn invert_channel(self) -> (c: u16) {
        assert(!self == 0xFFFF - self) by (bit_vector);
        !self
    }

    fn saturating_add(self, rhs: u16) -> (c: u16) {
        saturating_add_u16(self, rhs)
    }

    fn saturating_sub(self, rhs: u16) -> (c: u16) {
        saturating_sub_u16(self, rhs)
    }
}

} // verus!
