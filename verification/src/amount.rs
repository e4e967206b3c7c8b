//! Signed 256-bit money amounts, computed by the `num256` crate.
//!
//! Verus does not look inside an `Int256`. The integer that one stands for
//! is named by [`int256_value`], and the few operations that the accounting
//! needs are stated over that name.

use num256::Int256;
use vstd::prelude::*;

verus! {

/// `num256::Int256`, carried through as a value that Verus does not look
/// into.
#[verifier::external_type_specification]
#[verifier::external_body]
pub struct ExInt256(Int256);

/// The mathematical integer that an `Int256` stands for.
pub uninterp spec fn int256_value(x: Int256) -> int;

/// Two to the power 255: one more than the largest `Int256`.
pub open spec fn int256_limit() -> int {
    0x1_0000_0000_0000_0000int * 0x1_0000_0000_0000_0000int * 0x1_0000_0000_0000_0000int
        * 0x8000_0000_0000_0000int
}

/// Whether `v` can be held in an `Int256`.
pub open spec fn fits_int256(v: int) -> bool {
    -int256_limit() <= v < int256_limit()
}

/// `Int256::from` on a `u64`: the amount stands for the same number.
#[verifier::external_body]
pub(crate) fn int256_from_u64(n: u64) -> (r: Int256)
    ensures
        int256_value(r) == n,
{
    Int256::from(n)
}

/// `Int256`'s `+`: the exact sum, asked for only where the sum can be held,
/// since the crate's addition overflows outside that range.
#[verifier::external_body]
pub(crate) fn int256_add(a: Int256, b: Int256) -> (r: Int256)
    requires
        fits_int256(int256_value(a) + int256_value(b)),
    ensures
        int256_value(r) == int256_value(a) + int256_value(b),
{
    a + b
}

/// `Int256`'s `-`: the exact difference, asked for only where it can be
/// held.
#[verifier::external_body]
pub(crate) fn int256_sub(a: Int256, b: Int256) -> (r: Int256)
    requires
        fits_int256(int256_value(a) - int256_value(b)),
    ensures
        int256_value(r) == int256_value(a) - int256_value(b),
{
    a - b
}

/// `Int256`'s `*`: the exact product, asked for only where it can be held.
#[verifier::external_body]
pub(crate) fn int256_mul(a: Int256, b: Int256) -> (r: Int256)
    requires
        fits_int256(int256_value(a) * int256_value(b)),
    ensures
        int256_value(r) == int256_value(a) * int256_value(b),
{
    a * b
}

} // verus!
