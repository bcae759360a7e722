use vstd::prelude::*;

use crate::error::ErrorCode;

verus! {

/// `a + b`, or `err` where the sum does not fit in a `u64`.
pub fn checked_sum(a: u64, b: u64, err: ErrorCode) -> (r: Result<u64, ErrorCode>)
    ensures
        a + b <= u64::MAX ==> r == Ok::<u64, ErrorCode>((a + b) as u64),
        a + b > u64::MAX ==> r == Err::<u64, ErrorCode>(err),
{
    match a.checked_add(b) {
        Some(s) => Ok(s),
        None => Err(err),
    }
}

/// `a - b`, or `err` where `b` exceeds `a`.
pub fn checked_difference(a: u64, b: u64, err: ErrorCode) -> (r: Result<u64, ErrorCode>)
    ensures
        b <= a ==> r == Ok::<u64, ErrorCode>((a - b) as u64),
        b > a ==> r == Err::<u64, ErrorCode>(err),
{
    match a.checked_sub(b) {
        Some(d) => Ok(d),
        None => Err(err),
    }
}

/// `a * b`, or `err` where the product does not fit in a `u64`.
pub fn checked_product(a: u64, b: u64, err: ErrorCode) -> (r: Result<u64, ErrorCode>)
    ensures
        a * b <= u64::MAX ==> r == Ok::<u64, ErrorCode>((a * b) as u64),
        a * b > u64::MAX ==> r == Err::<u64, ErrorCode>(err),
{
    match a.checked_mul(b) {
        Some(p) => Ok(p),
        None => Err(err),
    }
}

} // verus!
