//! The wide accumulator: products of two `Balance` values are formed in a
//! 256-bit integer, divided there, and narrowed back with an explicit check.

use crate::{narrowed, Balance};
use primitive_types::U256;
use vstd::prelude::*;

verus! {

/// Relies on `primitive_types::U256`: `From<u128>` widens exactly;
/// `checked_mul` of two widened `u128` values returns the exact product (it
/// cannot overflow 256 bits); `checked_div` is floor division and is `None`
/// exactly for a zero divisor; `u128::try_from` returns the value exactly
/// when it is at most `u128::MAX` and fails otherwise.
#[verifier::external_body]
pub(crate) fn wide_mul_div(factor_a: Balance, factor_b: Balance, divisor: Balance) -> (r: Option<
    Balance,
>)
    ensures
        r == (if divisor == 0 {
            Option::<Balance>::None
        } else {
            narrowed(factor_a as nat * factor_b as nat / divisor as nat)
        }),
{
    let product = match U256::from(factor_a).checked_mul(U256::from(factor_b)) {
        Some(p) => p,
        None => return None,
    };
    let quotient = match product.checked_div(U256::from(divisor)) {
        Some(q) => q,
        None => return None,
    };
    u128::try_from(quotient).ok()
}

/// Relies on `primitive_types::U256` exactly as [`wide_mul_div`] does, and on
/// `checked_add`, which returns the exact sum of two widened `u128` values
/// (it cannot overflow 256 bits): the divisor here is the sum of the two
/// addends, formed after widening so that it need not fit in a `Balance`.
#[verifier::external_body]
pub(crate) fn wide_mul_div_by_sum(
    factor_a: Balance,
    factor_b: Balance,
    addend_a: Balance,
    addend_b: Balance,
) -> (r: Option<Balance>)
    ensures
        r == (if addend_a + addend_b == 0 {
            Option::<Balance>::None
        } else {
            narrowed(factor_a as nat * factor_b as nat / (addend_a as nat + addend_b as nat))
        }),
{
    let divisor = match U256::from(addend_a).checked_add(U256::from(addend_b)) {
        Some(d) => d,
        None => return None,
    };
    let product = match U256::from(factor_a).checked_mul(U256::from(factor_b)) {
        Some(p) => p,
        None => return None,
    };
    let quotient = match product.checked_div(divisor) {
        Some(q) => q,
        None => return None,
    };
    u128::try_from(quotient).ok()
}

} // verus!
