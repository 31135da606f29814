//! Exact fractions: the channel values that lie between the levels of an
//! integer grid, and hues in degrees.

use crate::channel::{Channel, FloatChannel};
use vstd::arithmetic::mul::{
    lemma_mul_nonnegative, lemma_mul_strictly_positive, lemma_mul_upper_bound,
};
use vstd::prelude::*;
use vstd::std_specs::ops::{AddSpecImpl, DivSpecImpl, MulSpecImpl, SubSpecImpl};

verus! {

/// A fraction that is not negative, held exactly as a numerator and a
/// denominator that is not zero. Two fractions are the same value of this
/// type only where both parts agree: nothing is reduced.
#[derive(Clone, Copy, PartialEq, Eq, Debug)]
pub struct Ratio {
    num: u64,
    den: u32,
}

impl Ratio {
    /// The denominator is not zero.
    #[verifier::type_invariant]
    pub closed spec fn valid(self) -> bool {
        self.den > 0
    }

    /// The numerator.
    pub closed spec fn numer(self) -> nat {
        self.num as nat
    }

    /// The denominator.
    pub closed spec fn denom(self) -> nat {
        self.den as nat
    }

    /// The fraction with the given parts.
    pub closed spec fn of(numer: nat, denom: nat) -> Ratio {
        Ratio { num: numer as u64, den: denom as u32 }
    }

    /// `self < other`, as fractions.
    pub open spec fn less(self, other: Ratio) -> bool {
        self.numer() * other.denom() < other.numer() * self.denom()
    }

    /// `self == other`, as fractions.
    pub open spec fn same(self, other: Ratio) -> bool {
        self.numer() * other.denom() == other.numer() * self.denom()
    }

    /// The level of a grid of `max + 1` steps at or below the fraction,
    /// held at `max`.
    pub open spec fn level_on(self, max: nat) -> nat {
        if self.numer() * max / self.denom() > max {
            max
        } else {
            self.numer() * max / self.denom()
        }
    }

    /// A fraction is determined by its parts, and `of` builds it from them.
    pub proof fn lemma_parts(self)
        requires
            self.valid(),
        ensures
            0 < self.denom() <= u32::MAX,
            self.numer() <= u64::MAX,
            Ratio::of(self.numer(), self.denom()) == self,
    {
    }

    /// The parts of what `of` builds.
    pub proof fn lemma_of(numer: nat, denom: nat)
        requires
            numer <= u64::MAX,
            0 < denom <= u32::MAX,
        ensures
            Ratio::of(numer, denom).valid(),
            Ratio::of(numer, denom).numer() == numer,
            Ratio::of(numer, denom).denom() == denom,
    {
    }

    /// Builds `num / den`; there is no such fraction where `den` is zero.
    pub fn new(num: u64, den: u32) -> (r: Option<Ratio>)
        ensures
            den == 0 <==> r.is_none(),
            den > 0 ==> r == Some(Ratio::of(num as nat, den as nat)),
            r matches Some(q) ==> q.valid() && q.numer() == num && q.denom() == den,
    {
        if den == 0 {
            None
        } else {
            Some(Ratio { num, den })
        }
    }

    /// Builds `num / den` where `den` is known not to be zero.
    pub(crate) fn over(num: u64, den: u32) -> (r: Ratio)
        requires
            den > 0,
        ensures
            r == Ratio::of(num as nat, den as nat),
            r.valid(),
            r.numer() == num,
            r.denom() == den,
    {
        Ratio { num, den }
    }

    /// The whole number `n`, as `n / 1`.
    pub fn whole(n: u64) -> (r: Ratio)
        ensures
            r == Ratio::of(n as nat, 1),
            r.valid(),
            r.numer() == n,
            r.denom() == 1,
    {
        Ratio { num: n, den: 1 }
    }

    /// The numerator.
    pub fn numerator(self) -> (n: u64)
        ensures
            n == self.numer(),
    {
        self.num
    }

    /// The denominator.
    pub fn denominator(self) -> (d: u32)
        ensures
            d == self.denom(),
            d > 0,
    {
        proof {
            use_type_invariant(&self);
        }
        self.den
    }

    /// Whether `self < other`, as fractions.
    pub fn lt(self, other: Ratio) -> (b: bool)
        ensures
            b == self.less(other),
    {
        proof {
            lemma_mul_upper_bound(
                self.num as int,
                u64::MAX as int,
                other.den as int,
                u32::MAX as int,
            );
            lemma_mul_upper_bound(
                other.num as int,
                u64::MAX as int,
                self.den as int,
                u32::MAX as int,
            );
        }
        let left: u128 = self.num as u128 * other.den as u128;
        let right: u128 = other.num as u128 * self.den as u128;
        left < right
    }

    /// Whether `self == other`, as fractions.
    pub fn eq_value(self, other: Ratio) -> (b: bool)
        ensures
            b == self.same(other),
    {
        proof {
            lemma_mul_upper_bound(
                self.num as int,
                u64::MAX as int,
                other.den as int,
                u32::MAX as int,
            );
            lemma_mul_upper_bound(
                other.num as int,
                u64::MAX as int,
                self.den as int,
                u32::MAX as int,
            );
        }
        let left: u128 = self.num as u128 * other.den as u128;
        let right: u128 = other.num as u128 * self.den as u128;
        left == right
    }
}

impl Ratio {
    /// The fraction of full intensity that a channel value stands for: its
    /// level over the highest level of its encoding.
    pub fn from_channel<T: Channel>(c: T) -> (r: Ratio)
        ensures
            r == Ratio::of(c.level(), T::max_level()),
            r.valid(),
            r.numer() == c.level(),
            r.denom() == T::max_level(),
    {
        proof {
            c.lemma_level_in_range();
        }
        let max: u32 = T::max_value().to_level();
        Ratio { num: c.to_level() as u64, den: max }
    }

    /// The channel value at or below the fraction, held at full intensity.
    pub fn to_channel<T: Channel>(self) -> (c: T)
        ensures
            c == T::at_level(self.level_on(T::max_level())),
            c.level() == self.level_on(T::max_level()),
    {
        let full: T = T::max_value();
        proof {
            use_type_invariant(&self);
            full.lemma_level_in_range();
            lemma_mul_upper_bound(self.num as int, u64::MAX as int, T::max_level() as int, 0xFFFF);
        }
        let max: u32 = full.to_level();
        let scaled: u128 = self.num as u128 * max as u128 / self.den as u128;
        if scaled > max as u128 {
            full
        } else {
            T::from_level(scaled as u32)
        }
    }

    /// The 8-bit channel value at or below the fraction, held at 255.
    pub fn to_channel_u8(self) -> (c: u8)
        ensures
            c == self.level_on(0xFF),
    {
        self.to_channel::<u8>()
    }

    /// The 16-bit channel value at or below the fraction, held at 65535.
    pub fn to_channel_u16(self) -> (c: u16)
        ensures
            c == self.level_on(0xFFFF),
    {
        self.to_channel::<u16>()
    }

    /// A channel value turned into a fraction and back is unchanged.
    pub proof fn lemma_channel_round_trip<T: Channel>(c: T)
        ensures
            Ratio::of(c.level(), T::max_level()).level_on(T::max_level()) == c.level(),
            T::at_level(Ratio::of(c.level(), T::max_level()).level_on(T::max_level())) == c,
    {
        c.lemma_level_in_range();
        let l = c.level() as int;
        let max = T::max_level() as int;
        assert(l * max / max == l) by (nonlinear_arith)
            requires
                0 < max,
        ;
        T::lemma_at_level(c.level());
        c.lemma_level_determines(T::at_level(c.level()));
    }

    /// Inverting a fraction that is at most 1 twice gives it back.
    pub proof fn lemma_invert_involution(self)
        requires
            self.valid(),
            self.numer() <= self.denom(),
        ensures
            self.inverted().inverted() == self,
    {
    }

    /// A normalized fraction is at most 1; a fraction that is at most 1 is
    /// unchanged.
    pub proof fn lemma_normalized(self)
        requires
            self.valid(),
        ensures
            self.normalized().valid(),
            self.normalized().numer() <= self.normalized().denom(),
            self.numer() <= self.denom() ==> self.normalized() == self,
            self.numer() > self.denom() ==> self.normalized() == Ratio::of(1, 1),
    {
    }

    /// A normalized angle lies in `[0, 360)` and differs from the angle by
    /// whole turns; an angle in that range is unchanged.
    pub proof fn lemma_normalized_degrees(self)
        requires
            self.valid(),
        ensures
            self.normalized_degrees().valid(),
            self.normalized_degrees().denom() == self.denom(),
            self.normalized_degrees().numer() < 360 * self.denom(),
            self.numer() == self.normalized_degrees().numer() + (self.numer() / (360
                * self.denom())) * (360 * self.denom()),
            self.numer() < 360 * self.denom() ==> self.normalized_degrees() == self,
    {
        let turn = (360 * self.denom()) as int;
        vstd::arithmetic::div_mod::lemma_fundamental_div_mod(self.numer() as int, turn);
        vstd::arithmetic::div_mod::lemma_mod_bound(self.numer() as int, turn);
        if self.numer() < turn {
            vstd::arithmetic::div_mod::lemma_small_mod(self.numer(), turn as nat);
        }
    }

    /// Turning an angle in `[0, 360)` by half a turn twice gives it back.
    pub proof fn lemma_invert_degrees_involution(self)
        requires
            self.valid(),
            self.numer() < 360 * self.denom(),
        ensures
            self.inverted_degrees().inverted_degrees() == self,
    {
        let d = self.denom() as int;
        let n = self.numer() as int;
        let once = (n + 180 * d) % (360 * d);
        assert(once == if n < 180 * d { n + 180 * d } else { n - 180 * d }) by {
            if n < 180 * d {
                vstd::arithmetic::div_mod::lemma_small_mod((n + 180 * d) as nat, (360 * d) as nat);
            } else {
                vstd::arithmetic::div_mod::lemma_mod_sub_multiples_vanish(n + 180 * d, 360 * d);
                vstd::arithmetic::div_mod::lemma_small_mod((n - 180 * d) as nat, (360 * d) as nat);
            }
        }
        assert((once + 180 * d) % (360 * d) == n) by {
            if n < 180 * d {
                vstd::arithmetic::div_mod::lemma_mod_sub_multiples_vanish(once + 180 * d, 360 * d);
                vstd::arithmetic::div_mod::lemma_small_mod(n as nat, (360 * d) as nat);
            } else {
                vstd::arithmetic::div_mod::lemma_small_mod(n as nat, (360 * d) as nat);
            }
        }
    }
}

impl FloatChannel for Ratio {
    open spec fn inverted(self) -> Ratio {
        if self.numer() <= self.denom() {
            Ratio::of((self.denom() - self.numer()) as nat, self.denom())
        } else {
            Ratio::of(0, self.denom())
        }
    }

    open spec fn clamped(self, lo: Ratio, hi: Ratio) -> Ratio {
        if self.less(lo) {
            lo
        } else if hi.less(self) {
            hi
        } else {
            self
        }
    }

    open spec fn normalized(self) -> Ratio {
        if self.numer() > self.denom() {
            Ratio::of(1, 1)
        } else {
            self
        }
    }

    open spec fn normalized_degrees(self) -> Ratio {
        Ratio::of(self.numer() % (360 * self.denom()), self.denom())
    }

    open spec fn inverted_degrees(self) -> Ratio {
        Ratio::of((self.numer() + 180 * self.denom()) % (360 * self.denom()), self.denom())
    }

    fn invert_channel(self) -> (c: Ratio) {
        proof {
            use_type_invariant(&self);
        }
        if self.num <= self.den as u64 {
            Ratio { num: self.den as u64 - self.num, den: self.den }
        } else {
            Ratio { num: 0, den: self.den }
        }
    }

    fn clamp(self, lo: Ratio, hi: Ratio) -> (c: Ratio) {
        if self.lt(lo) {
            lo
        } else if hi.lt(self) {
            hi
        } else {
            self
        }
    }

    fn normalize_channel(self) -> (c: Ratio) {
        if self.num > self.den as u64 {
            Ratio { num: 1, den: 1 }
        } else {
            self
        }
    }

    fn normalize_degrees(self) -> (c: Ratio) {
        proof {
            use_type_invariant(&self);
        }
        let turn: u64 = 360 * (self.den as u64);
        Ratio { num: self.num % turn, den: self.den }
    }

    fn invert_degrees(self) -> (c: Ratio) {
        proof {
            use_type_invariant(&self);
        }
        let turn: u128 = 360 * (self.den as u128);
        let half: u128 = 180 * (self.den as u128);
        let turned: u128 = (self.num as u128 + half) % turn;
        Ratio { num: turned as u64, den: self.den }
    }
}

/// The sum of two fractions over the product of their denominators, where
/// both parts fit.
impl core::ops::Add for Ratio {
    type Output = Ratio;

    fn add(self, rhs: Ratio) -> (r: Ratio) {
        proof {
            use_type_invariant(&self);
            use_type_invariant(&rhs);
            lemma_mul_strictly_positive(self.den as int, rhs.den as int);
            lemma_mul_nonnegative(self.num as int, rhs.den as int);
            lemma_mul_nonnegative(rhs.num as int, self.den as int);
        }
        Ratio {
            num: self.num * (rhs.den as u64) + rhs.num * (self.den as u64),
            den: self.den * rhs.den,
        }
    }
}

impl AddSpecImpl for Ratio {
    open spec fn obeys_add_spec() -> bool {
        true
    }

    open spec fn add_req(self, rhs: Ratio) -> bool {
        &&& self.numer() * rhs.denom() + rhs.numer() * self.denom() <= u64::MAX
        &&& self.denom() * rhs.denom() <= u32::MAX
    }

    open spec fn add_spec(self, rhs: Ratio) -> Ratio {
        Ratio::of(
            self.numer() * rhs.denom() + rhs.numer() * self.denom(),
            self.denom() * rhs.denom(),
        )
    }
}

/// The difference of two fractions over the product of their denominators,
/// where the second is no greater than the first and both parts fit.
impl core::ops::Sub for Ratio {
    type Output = Ratio;

    fn sub(self, rhs: Ratio) -> (r: Ratio) {
        proof {
            use_type_invariant(&self);
            use_type_invariant(&rhs);
            lemma_mul_strictly_positive(self.den as int, rhs.den as int);
            lemma_mul_nonnegative(rhs.num as int, self.den as int);
        }
        Ratio {
            num: self.num * (rhs.den as u64) - rhs.num * (self.den as u64),
            den: self.den * rhs.den,
        }
    }
}

impl SubSpecImpl for Ratio {
    open spec fn obeys_sub_spec() -> bool {
        true
    }

    open spec fn sub_req(self, rhs: Ratio) -> bool {
        &&& rhs.numer() * self.denom() <= self.numer() * rhs.denom() <= u64::MAX
        &&& self.denom() * rhs.denom() <= u32::MAX
    }

    open spec fn sub_spec(self, rhs: Ratio) -> Ratio {
        Ratio::of(
            (self.numer() * rhs.denom() - rhs.numer() * self.denom()) as nat,
            self.denom() * rhs.denom(),
        )
    }
}

/// The product of two fractions, numerator by numerator and denominator by
/// denominator, where both parts fit.
impl core::ops::Mul for Ratio {
    type Output = Ratio;

    fn mul(self, rhs: Ratio) -> (r: Ratio) {
        proof {
            use_type_invariant(&self);
            use_type_invariant(&rhs);
            lemma_mul_strictly_positive(self.den as int, rhs.den as int);
        }
        Ratio { num: self.num * rhs.num, den: self.den * rhs.den }
    }
}

impl MulSpecImpl for Ratio {
    open spec fn obeys_mul_spec() -> bool {
        true
    }

    open spec fn mul_req(self, rhs: Ratio) -> bool {
        &&& self.numer() * rhs.numer() <= u64::MAX
        &&& self.denom() * rhs.denom() <= u32::MAX
    }

    open spec fn mul_spec(self, rhs: Ratio) -> Ratio {
        Ratio::of(self.numer() * rhs.numer(), self.denom() * rhs.denom())
    }
}

/// The quotient of two fractions, the first times the second upside down,
/// where the second is not zero and both parts fit.
impl core::ops::Div for Ratio {
    type Output = Ratio;

    fn div(self, rhs: Ratio) -> (r: Ratio) {
        proof {
            use_type_invariant(&self);
            use_type_invariant(&rhs);
            lemma_mul_strictly_positive(self.den as int, rhs.num as int);
        }
        let den: u64 = (self.den as u64) * rhs.num;
        Ratio { num: self.num * (rhs.den as u64), den: den as u32 }
    }
}

impl DivSpecImpl for Ratio {
    open spec fn obeys_div_spec() -> bool {
        true
    }

    open spec fn div_req(self, rhs: Ratio) -> bool {
        &&& rhs.numer() > 0
        &&& self.numer() * rhs.denom() <= u64::MAX
        &&& self.denom() * rhs.numer() <= u32::MAX
    }

    open spec fn div_spec(self, rhs: Ratio) -> Ratio {
        Ratio::of(self.numer() * rhs.denom(), self.denom() * rhs.numer())
    }
}

} // verus!
