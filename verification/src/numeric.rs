//! The calls into the `num` crate: casts between integer widths and
//! saturating arithmetic. Their contracts are taken on trust.

use vstd::prelude::*;

verus! {

/// `num::cast` from `u32` to `u8`: the same number where it fits in 8 bits,
/// and nothing where it does not.
#[verifier::external_body]
pub(crate) fn cast_to_u8(n: u32) -> (r: Option<u8>)
    ensures
        n <= 0xFF ==> r == Some(n as u8),
        n > 0xFF ==> r.is_none(),
{
    num::cast::<u32, u8>(n)
}

/// `num::cast` from `u32` to `u16`: the same number where it fits in 16 bits,
/// and nothing where it does not.
#[verifier::external_body]
pub(crate) fn cast_to_u16(n: u32) -> (r: Option<u16>)
    ensures
        n <= 0xFFFF ==> r == Some(n as u16),
        n > 0xFFFF ==> r.is_none(),
{
    num::cast::<u32, u16>(n)
}

/// `num::Saturating::saturating_add` on `u8`: the sum, held at 255.
#[verifier::external_body]
pub(crate) fn saturating_add_u8(a: u8, b: u8) -> (r: u8)
    ensures
        r == if a + b > 0xFF { 0xFF } else { a + b },
{
    num::Saturating::saturating_add(a, b)
}

/// `num::Saturating::saturating_sub` on `u8`: the difference, held at zero.
#[verifier::external_body]
pub(crate) fn saturating_sub_u8(a: u8, b: u8) -> (r: u8)
    ensures
        r == if a < b { 0 } else { a - b },
{
    num::Saturating::saturating_sub(a, b)
}

/// `num::Saturating::saturating_add` on `u16`: the sum, held at 65535.
#[verifier::external_body]
pub(crate) fn saturating_add_u16(a: u16, b: u16) -> (r: u16)
    ensures
        r == if a + b > 0xFFFF { 0xFFFF } else { a + b },
{
    num::Saturating::saturating_add(a, b)
}

/// `num::Saturating::saturating_sub` on `u16`: the difference, held at zero.
#[verifier::external_body]
pub(crate) fn saturating_sub_u16(a: u16, b: u16) -> (r: u16)
    ensures
        r == if a < b { 0 } else { a - b },
{
    num::Saturating::saturating_sub(a, b)
}

} // verus!
