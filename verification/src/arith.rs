use vstd::prelude::*;

verus! {

/// `a * b`, clamped to `usize::MAX`.
pub fn mul_sat_usize(a: usize, b: usize) -> (r: usize)
    ensures
        r as int == (if a * b > usize::MAX { usize::MAX as int } else { a * b }),
{
    match a.checked_mul(b) {
        Some(v) => v,
        None => usize::MAX,
    }
}

/// `a * b`, clamped to `u64::MAX`.
pub fn mul_sat_u64(a: u64, b: u64) -> (r: u64)
    ensures
        r as int == (if a * b > u64::MAX { u64::MAX as int } else { a * b }),
{
    match a.checked_mul(b) {
        Some(v) => v,
        None => u64::MAX,
    }
}

/// `a * b`, clamped to `u128::MAX`.
pub fn mul_sat_u128(a: u128, b: u128) -> (r: u128)
    ensures
        r as int == (if a * b > u128::MAX { u128::MAX as int } else { a * b }),
{
    match a.checked_mul(b) {
        Some(v) => v,
        None => u128::MAX,
    }
}

} // verus!
