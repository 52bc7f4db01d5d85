//! Per-user secret tokens.
use vstd::prelude::*;

verus! {

/// The 128-bit token whose high 64 bits are `upper` and low 64 bits are
/// `lower`, each half read as its two's-complement bit pattern.
pub open spec fn token_value(upper: i64, lower: i64) -> nat {
    (upper as u64) as nat * 0x1_0000_0000_0000_0000nat + (lower as u64) as nat
}

/// Combines the two stored halves of a secret into one 128-bit token,
/// `upper` in the high 64 bits.
pub fn combine_passkey(upper: i64, lower: i64) -> (r: u128)
    ensures
        r as nat == token_value(upper, lower),
{
    let hi: u128 = upper as u64 as u128;
    let lo: u128 = lower as u64 as u128;
    assert(hi * 0x1_0000_0000_0000_0000u128 + lo <= u128::MAX) by (nonlinear_arith)
        requires
            hi <= u64::MAX,
            lo <= u64::MAX,
    ;
    hi * 0x1_0000_0000_0000_0000u128 + lo
}

} // verus!
