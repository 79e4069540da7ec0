//! Constant-product market-maker pricing: the reserve-and-amount formulas of
//! an `x * y = k` pool, in exact integer arithmetic that is overflow-safe and
//! rounded so that no value can leak from the pool.
//!
//! Every multiplication is carried out in a 256-bit accumulator before the
//! division, so overflow during multiplication is impossible by construction;
//! only the final narrowing back to [`Balance`] can fail, and each formula
//! says exactly when it does.

use vstd::prelude::*;

mod wide;
pub mod xyk;

verus! {

/// A non-negative amount of a fungible asset: reserves, trade amounts and
/// share amounts alike.
pub type Balance = u128;

/// The checked narrowing that ends every formula: a quotient that fits in
/// `Balance` is the result; a larger one is a failure.
pub open spec fn narrowed(q: nat) -> Option<Balance> {
    if q <= u128::MAX {
        Some(q as u128)
    } else {
        None
    }
}

} // verus!
