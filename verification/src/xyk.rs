//! The six pricing and liquidity formulas of a constant-product pool.
//!
//! Each executable function is pinned to a spec function that states its
//! result for every input: which inputs are rejected, which short-circuit to
//! zero, and the exact quotient otherwise. Amounts leaving the pool round
//! down, amounts entering the pool round up; the proof functions at the end
//! state both directions, together with the precondition and no-overflow
//! guarantees.

use crate::wide::{wide_mul_div, wide_mul_div_by_sum};
use crate::{narrowed, Balance};
use vstd::arithmetic::div_mod::{
    lemma_div_of0, lemma_multiply_divide_le, lemma_remainder_lower, lemma_remainder_upper,
};
use vstd::arithmetic::mul::{
    lemma_mul_by_zero_is_zero, lemma_mul_inequality, lemma_mul_is_commutative,
    lemma_mul_is_distributive_add_other_way, lemma_mul_is_distributive_sub,
};
use vstd::prelude::*;

verus! {

/// What `calculate_spot_price` returns: a zero selling reserve is rejected;
/// otherwise the floor of `out_reserve * amount / in_reserve`, narrowed.
pub open spec fn spot_price_result(
    in_reserve: Balance,
    out_reserve: Balance,
    amount: Balance,
) -> Option<Balance> {
    if in_reserve == 0 {
        None
    } else {
        narrowed(out_reserve as nat * amount as nat / in_reserve as nat)
    }
}

/// Spot price of the outgoing asset in units of the incoming one, for a trade
/// of size `amount`: `out_reserve * amount / in_reserve`, rounded down.
pub fn calculate_spot_price(in_reserve: Balance, out_reserve: Balance, amount: Balance) -> (r:
    Option<Balance>)
    ensures
        r == spot_price_result(in_reserve, out_reserve, amount),
{
    if in_reserve == 0 {
        return None;
    }
    if amount == 0 || out_reserve == 0 {
        proof {
            lemma_zero_product_quotient(out_reserve as nat, amount as nat, in_reserve as nat);
        }
        return Some(0);
    }
    wide_mul_div(out_reserve, amount, in_reserve)
}

/// What `calculate_out_given_in` returns: zero for a zero input amount;
/// otherwise the floor of `out_reserve * amount_in / (in_reserve + amount_in)`,
/// narrowed. The divisor is formed after widening, so it cannot overflow, and
/// the quotient never exceeds `out_reserve`: the formula always succeeds.
pub open spec fn out_given_in_result(
    in_reserve: Balance,
    out_reserve: Balance,
    amount_in: Balance,
) -> Option<Balance> {
    if amount_in == 0 {
        Some(0u128)
    } else {
        narrowed(out_reserve as nat * amount_in as nat / (in_reserve as nat + amount_in as nat))
    }
}

/// Amount received from the pool for sending `amount_in` to it:
/// `out_reserve * amount_in / (in_reserve + amount_in)`, rounded down so the
/// trader never receives more than the exact value.
pub fn calculate_out_given_in(in_reserve: Balance, out_reserve: Balance, amount_in: Balance) -> (r:
    Option<Balance>)
    ensures
        r == out_given_in_result(in_reserve, out_reserve, amount_in),
        r is Some,
{
    if amount_in == 0 {
        return Some(0);
    }
    let r = wide_mul_div_by_sum(out_reserve, amount_in, in_reserve, amount_in);
    proof {
        lemma_quotient_le_factor(
            out_reserve as nat,
            amount_in as nat,
            in_reserve as nat + amount_in as nat,
        );
    }
    r
}

/// What `calculate_in_given_out` returns: zero for a zero output amount; an
/// amount at or above the outgoing reserve is rejected (the pool cannot be
/// drained, and at equality the divisor would be zero); otherwise one more
/// than the floor of `in_reserve * amount_out / (out_reserve - amount_out)`,
/// failing if that increment leaves the `Balance` range.
pub open spec fn in_given_out_result(
    out_reserve: Balance,
    in_reserve: Balance,
    amount_out: Balance,
) -> Option<Balance> {
    if amount_out == 0 {
        Some(0u128)
    } else if amount_out >= out_reserve {
        None
    } else {
        let q: nat = in_reserve as nat * amount_out as nat / (out_reserve - amount_out) as nat;
        if q + 1 <= u128::MAX {
            Some((q + 1) as u128)
        } else {
            None
        }
    }
}

/// Amount that must be sent to the pool to receive `amount_out` from it:
/// `in_reserve * amount_out / (out_reserve - amount_out)`, rounded up so the
/// trader never pays less than the exact value.
pub fn calculate_in_given_out(out_reserve: Balance, in_reserve: Balance, amount_out: Balance) -> (r:
    Option<Balance>)
    ensures
        r == in_given_out_result(out_reserve, in_reserve, amount_out),
{
    if amount_out == 0 {
        return Some(0);
    }
    if amount_out > out_reserve {
        return None;
    }
    let denominator: Balance = out_reserve - amount_out;
    if denominator == 0 {
        return None;
    }
    match wide_mul_div(in_reserve, amount_out, denominator) {
        Some(q) => if q == u128::MAX {
            None
        } else {
            Some(q + 1)
        },
        None => None,
    }
}

/// What `calculate_liquidity_in` returns: a zero reserve of the given asset
/// is rejected; a zero amount or a zero counter-asset reserve contributes
/// nothing; otherwise one more than the floor of
/// `amount * asset_b_reserve / asset_a_reserve`, failing if that increment
/// leaves the `Balance` range.
pub open spec fn liquidity_in_result(
    asset_a_reserve: Balance,
    asset_b_reserve: Balance,
    amount: Balance,
) -> Option<Balance> {
    if asset_a_reserve == 0 {
        None
    } else if amount == 0 || asset_b_reserve == 0 {
        Some(0u128)
    } else {
        let q: nat = amount as nat * asset_b_reserve as nat / asset_a_reserve as nat;
        if q + 1 <= u128::MAX {
            Some((q + 1) as u128)
        } else {
            None
        }
    }
}

/// Counter-asset contribution required for adding `amount` of asset `a`:
/// `amount * asset_b_reserve / asset_a_reserve`, rounded up so a liquidity
/// provider never under-contributes relative to the pool ratio.
pub fn calculate_liquidity_in(
    asset_a_reserve: Balance,
    asset_b_reserve: Balance,
    amount: Balance,
) -> (r: Option<Balance>)
    ensures
        r == liquidity_in_result(asset_a_reserve, asset_b_reserve, amount),
{
    if asset_a_reserve == 0 {
        return None;
    }
    if amount == 0 || asset_b_reserve == 0 {
        return Some(0);
    }
    match wide_mul_div(amount, asset_b_reserve, asset_a_reserve) {
        Some(q) => if q == u128::MAX {
            None
        } else {
            Some(q + 1)
        },
        None => None,
    }
}

/// What `calculate_liquidity_out` returns: a zero share issuance is rejected;
/// otherwise the pro-rata share of each reserve,
/// `amount * reserve / total_liquidity`, each rounded down and narrowed
/// independently, failing if either does not fit.
pub open spec fn liquidity_out_result(
    asset_a_reserve: Balance,
    asset_b_reserve: Balance,
    amount: Balance,
    total_liquidity: Balance,
) -> Option<(Balance, Balance)> {
    if total_liquidity == 0 {
        None
    } else {
        let qa: nat = amount as nat * asset_a_reserve as nat / total_liquidity as nat;
        let qb: nat = asset_b_reserve as nat * amount as nat / total_liquidity as nat;
        if qa <= u128::MAX && qb <= u128::MAX {
            Some((qa as u128, qb as u128))
        } else {
            None
        }
    }
}

/// Amounts of both assets returned for burning `amount` shares out of
/// `total_liquidity`: each reserve scaled by `amount / total_liquidity`,
/// rounded down so a withdrawing party never extracts more than its pro-rata
/// share.
pub fn calculate_liquidity_out(
    asset_a_reserve: Balance,
    asset_b_reserve: Balance,
    amount: Balance,
    total_liquidity: Balance,
) -> (r: Option<(Balance, Balance)>)
    ensures
        r == liquidity_out_result(asset_a_reserve, asset_b_reserve, amount, total_liquidity),
{
    if total_liquidity == 0 {
        return None;
    }
    let remove_amount_a: Balance = match wide_mul_div(amount, asset_a_reserve, total_liquidity) {
        Some(a) => a,
        None => return None,
    };
    let remove_amount_b: Balance = match wide_mul_div(asset_b_reserve, amount, total_liquidity) {
        Some(b) => b,
        None => return None,
    };
    Some((remove_amount_a, remove_amount_b))
}

/// What `calculate_shares` returns: a zero asset reserve is rejected (there
/// is no pool ratio to price against); otherwise the floor of
/// `share_issuance * asset_amount / asset_reserve`, narrowed.
pub open spec fn shares_result(
    asset_reserve: Balance,
    asset_amount: Balance,
    share_issuance: Balance,
) -> Option<Balance> {
    if asset_reserve == 0 {
        None
    } else {
        narrowed(share_issuance as nat * asset_amount as nat / asset_reserve as nat)
    }
}

/// Shares minted for depositing `asset_amount` into a reserve of
/// `asset_reserve` when `share_issuance` shares exist:
/// `share_issuance * asset_amount / asset_reserve`, rounded down.
pub fn calculate_shares(
    asset_reserve: Balance,
    asset_amount: Balance,
    share_issuance: Balance,
) -> (r: Option<Balance>)
    ensures
        r == shares_result(asset_reserve, asset_amount, share_issuance),
{
    if asset_reserve == 0 {
        return None;
    }
    wide_mul_div(share_issuance, asset_amount, asset_reserve)
}

/// A product with a zero factor divides to zero, whatever the (positive)
/// divisor.
proof fn lemma_zero_product_quotient(a: nat, b: nat, d: nat)
    requires
        a == 0 || b == 0,
        0 < d,
    ensures
        a * b / d == 0,
{
    lemma_mul_by_zero_is_zero(a as int);
    lemma_mul_by_zero_is_zero(b as int);
    lemma_div_of0(d as int);
}

/// For a positive divisor at least as large as one factor, the quotient of
/// the product is bounded by the other factor.
proof fn lemma_quotient_le_factor(a: nat, b: nat, d: nat)
    requires
        b <= d,
        0 < d,
    ensures
        a * b / d <= a,
{
    lemma_mul_inequality(b as int, d as int, a as int);
    lemma_mul_is_commutative(a as int, b as int);
    lemma_mul_is_commutative(a as int, d as int);
    lemma_multiply_divide_le((a * b) as int, d as int, a as int);
}

// ------------------------------------------------------------------------
// Zero-amount identity: with a zero amount every formula yields zero (or a
// pair of zeros), independent of the reserves, wherever its reserve
// precondition does not fail first.
// ------------------------------------------------------------------------

/// A zero-amount spot price is zero, whatever the reserves.
pub proof fn lemma_spot_price_zero_amount(in_reserve: Balance, out_reserve: Balance)
    requires
        in_reserve != 0,
    ensures
        spot_price_result(in_reserve, out_reserve, 0) == Some(0u128),
{
    lemma_zero_product_quotient(out_reserve as nat, 0nat, in_reserve as nat);
}

/// Selling nothing buys nothing, whatever the reserves.
pub proof fn lemma_out_given_in_zero_amount(in_reserve: Balance, out_reserve: Balance)
    ensures
        out_given_in_result(in_reserve, out_reserve, 0) == Some(0u128),
{
}

/// Buying nothing costs nothing, whatever the reserves.
pub proof fn lemma_in_given_out_zero_amount(out_reserve: Balance, in_reserve: Balance)
    ensures
        in_given_out_result(out_reserve, in_reserve, 0) == Some(0u128),
{
}

/// Adding no liquidity requires no counter-asset.
pub proof fn lemma_liquidity_in_zero_amount(asset_a_reserve: Balance, asset_b_reserve: Balance)
    requires
        asset_a_reserve != 0,
    ensures
        liquidity_in_result(asset_a_reserve, asset_b_reserve, 0) == Some(0u128),
{
}

/// Burning no shares withdraws nothing from either reserve.
pub proof fn lemma_liquidity_out_zero_amount(
    asset_a_reserve: Balance,
    asset_b_reserve: Balance,
    total_liquidity: Balance,
)
    requires
        total_liquidity != 0,
    ensures
        liquidity_out_result(asset_a_reserve, asset_b_reserve, 0, total_liquidity) == Some(
            (0u128, 0u128),
        ),
{
    lemma_zero_product_quotient(0nat, asset_a_reserve as nat, total_liquidity as nat);
    lemma_zero_product_quotient(asset_b_reserve as nat, 0nat, total_liquidity as nat);
}

/// Depositing nothing mints no shares.
pub proof fn lemma_shares_zero_amount(asset_reserve: Balance, share_issuance: Balance)
    requires
        asset_reserve != 0,
    ensures
        shares_result(asset_reserve, 0, share_issuance) == Some(0u128),
{
    lemma_zero_product_quotient(share_issuance as nat, 0nat, asset_reserve as nat);
}

// ------------------------------------------------------------------------
// Rounding direction: amounts leaving the pool round down, amounts entering
// the pool round up. Each bound is the comparison with the exact rational
// value, multiplied out by the (nonzero) denominator.
// ------------------------------------------------------------------------

/// What a sell pays out is at most the exact rational value
/// `out_reserve * amount_in / (in_reserve + amount_in)`.
pub proof fn lemma_out_given_in_rounds_down(
    in_reserve: Balance,
    out_reserve: Balance,
    amount_in: Balance,
    amount_out: Balance,
)
    requires
        out_given_in_result(in_reserve, out_reserve, amount_in) == Some(amount_out),
    ensures
        amount_out * (in_reserve + amount_in) <= out_reserve * amount_in,
{
    if amount_in == 0 {
        lemma_mul_by_zero_is_zero(out_reserve as int);
        lemma_mul_by_zero_is_zero(in_reserve as int + amount_in as int);
    } else {
        lemma_remainder_lower(
            out_reserve as int * amount_in as int,
            in_reserve as int + amount_in as int,
        );
    }
}

/// What a buy pays in is at least the exact rational value
/// `in_reserve * amount_out / (out_reserve - amount_out)`.
pub proof fn lemma_in_given_out_rounds_up(
    out_reserve: Balance,
    in_reserve: Balance,
    amount_out: Balance,
    amount_in: Balance,
)
    requires
        in_given_out_result(out_reserve, in_reserve, amount_out) == Some(amount_in),
    ensures
        amount_in * (out_reserve - amount_out) >= in_reserve * amount_out,
{
    if amount_out == 0 {
        lemma_mul_by_zero_is_zero(in_reserve as int);
        lemma_mul_by_zero_is_zero(out_reserve as int - amount_out as int);
    } else {
        let n: int = in_reserve as int * amount_out as int;
        let d: int = out_reserve as int - amount_out as int;
        lemma_remainder_upper(n, d);
        lemma_mul_is_distributive_add_other_way(d, n / d, 1);
    }
}

/// The required counter-asset contribution is at least the exact rational
/// value `amount * asset_b_reserve / asset_a_reserve`.
pub proof fn lemma_liquidity_in_rounds_up(
    asset_a_reserve: Balance,
    asset_b_reserve: Balance,
    amount: Balance,
    required: Balance,
)
    requires
        liquidity_in_result(asset_a_reserve, asset_b_reserve, amount) == Some(required),
    ensures
        required * asset_a_reserve >= amount * asset_b_reserve,
{
    if amount == 0 || asset_b_reserve == 0 {
        lemma_mul_by_zero_is_zero(amount as int);
        lemma_mul_by_zero_is_zero(asset_b_reserve as int);
        lemma_mul_by_zero_is_zero(asset_a_reserve as int);
    } else {
        let n: int = amount as int * asset_b_reserve as int;
        let d: int = asset_a_reserve as int;
        lemma_remainder_upper(n, d);
        lemma_mul_is_distributive_add_other_way(d, n / d, 1);
    }
}

/// Each withdrawn amount is at most the exact pro-rata value
/// `amount * reserve / total_liquidity`.
pub proof fn lemma_liquidity_out_rounds_down(
    asset_a_reserve: Balance,
    asset_b_reserve: Balance,
    amount: Balance,
    total_liquidity: Balance,
    removed_a: Balance,
    removed_b: Balance,
)
    requires
        liquidity_out_result(asset_a_reserve, asset_b_reserve, amount, total_liquidity) == Some(
            (removed_a, removed_b),
        ),
    ensures
        removed_a * total_liquidity <= amount * asset_a_reserve,
        removed_b * total_liquidity <= asset_b_reserve * amount,
{
    lemma_remainder_lower(amount as int * asset_a_reserve as int, total_liquidity as int);
    lemma_remainder_lower(asset_b_reserve as int * amount as int, total_liquidity as int);
}

/// The rounding directions are what they are for: a sell never decreases the
/// constant product of the reserves. With `amount_in` added to the incoming
/// reserve and the quoted amount paid out of the outgoing one, the product of
/// the new reserves is at least the product of the old ones.
pub proof fn lemma_sell_preserves_invariant(
    in_reserve: Balance,
    out_reserve: Balance,
    amount_in: Balance,
    amount_out: Balance,
)
    requires
        out_given_in_result(in_reserve, out_reserve, amount_in) == Some(amount_out),
    ensures
        amount_out <= out_reserve,
        (in_reserve + amount_in) * (out_reserve - amount_out) >= in_reserve * out_reserve,
{
    lemma_out_given_in_rounds_down(in_reserve, out_reserve, amount_in, amount_out);
    if amount_in != 0 {
        lemma_quotient_le_factor(
            out_reserve as nat,
            amount_in as nat,
            in_reserve as nat + amount_in as nat,
        );
    }
    let s: int = in_reserve as int + amount_in as int;
    lemma_mul_is_distributive_sub(s, out_reserve as int, amount_out as int);
    lemma_mul_is_distributive_add_other_way(
        out_reserve as int,
        in_reserve as int,
        amount_in as int,
    );
    lemma_mul_is_commutative(s, amount_out as int);
    lemma_mul_is_commutative(out_reserve as int, amount_in as int);
}

/// A buy never decreases the constant product of the reserves either: with
/// the quoted amount paid into the incoming reserve and `amount_out` taken
/// from the outgoing one, the product of the new reserves is at least the
/// product of the old ones.
pub proof fn lemma_buy_preserves_invariant(
    out_reserve: Balance,
    in_reserve: Balance,
    amount_out: Balance,
    amount_in: Balance,
)
    requires
        in_given_out_result(out_reserve, in_reserve, amount_out) == Some(amount_in),
    ensures
        amount_out <= out_reserve,
        (in_reserve + amount_in) * (out_reserve - amount_out) >= in_reserve * out_reserve,
{
    lemma_in_given_out_rounds_up(out_reserve, in_reserve, amount_out, amount_in);
    let d: int = out_reserve as int - amount_out as int;
    lemma_mul_is_distributive_add_other_way(d, in_reserve as int, amount_in as int);
    lemma_mul_is_distributive_sub(in_reserve as int, out_reserve as int, amount_out as int);
    lemma_mul_is_commutative(in_reserve as int, d);
}

// ------------------------------------------------------------------------
// Precondition enforcement: each rejected input is rejected on every call.
// ------------------------------------------------------------------------

/// Asking the pool for more than the outgoing reserve holds always fails.
pub proof fn lemma_in_given_out_overdraw_fails(
    out_reserve: Balance,
    in_reserve: Balance,
    amount_out: Balance,
)
    requires
        amount_out > out_reserve,
    ensures
        in_given_out_result(out_reserve, in_reserve, amount_out) is None,
{
}

/// A spot price against a zero selling reserve always fails.
pub proof fn lemma_spot_price_zero_reserve_fails(out_reserve: Balance, amount: Balance)
    ensures
        spot_price_result(0, out_reserve, amount) is None,
{
}

/// A liquidity quote against a zero reserve of the given asset always fails.
pub proof fn lemma_liquidity_in_zero_reserve_fails(asset_b_reserve: Balance, amount: Balance)
    ensures
        liquidity_in_result(0, asset_b_reserve, amount) is None,
{
}

/// A withdrawal from a pool with zero share issuance always fails.
pub proof fn lemma_liquidity_out_zero_issuance_fails(
    asset_a_reserve: Balance,
    asset_b_reserve: Balance,
    amount: Balance,
)
    ensures
        liquidity_out_result(asset_a_reserve, asset_b_reserve, amount, 0) is None,
{
}

/// A share quote against a zero asset reserve always fails.
pub proof fn lemma_shares_zero_reserve_fails(asset_amount: Balance, share_issuance: Balance)
    ensures
        shares_result(0, asset_amount, share_issuance) is None,
{
}

// ------------------------------------------------------------------------
// No spurious failure: whenever the preconditions hold and the exact rounded
// result fits in `Balance`, the formula succeeds. Multiplication cannot
// overflow the wide accumulator, so only the stated narrowing can fail.
// ------------------------------------------------------------------------

/// A spot price whose quotient fits succeeds with exactly that quotient.
pub proof fn lemma_spot_price_fits(in_reserve: Balance, out_reserve: Balance, amount: Balance)
    requires
        in_reserve != 0,
        out_reserve as nat * amount as nat / in_reserve as nat <= u128::MAX,
    ensures
        spot_price_result(in_reserve, out_reserve, amount) == Some(
            (out_reserve as nat * amount as nat / in_reserve as nat) as u128,
        ),
{
}

/// A sell quote never fails at all: its quotient is bounded by the outgoing
/// reserve, so the narrowing always succeeds.
pub proof fn lemma_out_given_in_never_fails(
    in_reserve: Balance,
    out_reserve: Balance,
    amount_in: Balance,
)
    ensures
        out_given_in_result(in_reserve, out_reserve, amount_in) is Some,
{
    if amount_in != 0 {
        lemma_quotient_le_factor(
            out_reserve as nat,
            amount_in as nat,
            in_reserve as nat + amount_in as nat,
        );
    }
}

/// A buy quote whose rounded-up result fits succeeds.
pub proof fn lemma_in_given_out_fits(out_reserve: Balance, in_reserve: Balance, amount_out: Balance)
    requires
        amount_out < out_reserve,
        in_reserve as nat * amount_out as nat / (out_reserve - amount_out) as nat + 1
            <= u128::MAX,
    ensures
        in_given_out_result(out_reserve, in_reserve, amount_out) is Some,
{
}

/// A liquidity quote whose rounded-up result fits succeeds.
pub proof fn lemma_liquidity_in_fits(
    asset_a_reserve: Balance,
    asset_b_reserve: Balance,
    amount: Balance,
)
    requires
        asset_a_reserve != 0,
        amount as nat * asset_b_reserve as nat / asset_a_reserve as nat + 1 <= u128::MAX,
    ensures
        liquidity_in_result(asset_a_reserve, asset_b_reserve, amount) is Some,
{
}

/// A withdrawal both of whose pro-rata amounts fit succeeds.
pub proof fn lemma_liquidity_out_fits(
    asset_a_reserve: Balance,
    asset_b_reserve: Balance,
    amount: Balance,
    total_liquidity: Balance,
)
    requires
        total_liquidity != 0,
        amount as nat * asset_a_reserve as nat / total_liquidity as nat <= u128::MAX,
        asset_b_reserve as nat * amount as nat / total_liquidity as nat <= u128::MAX,
    ensures
        liquidity_out_result(asset_a_reserve, asset_b_reserve, amount, total_liquidity) is Some,
{
}

/// A share quote whose quotient fits succeeds with exactly that quotient.
pub proof fn lemma_shares_fits(
    asset_reserve: Balance,
    asset_amount: Balance,
    share_issuance: Balance,
)
    requires
        asset_reserve != 0,
        share_issuance as nat * asset_amount as nat / asset_reserve as nat <= u128::MAX,
    ensures
        shares_result(asset_reserve, asset_amount, share_issuance) == Some(
            (share_issuance as nat * asset_amount as nat / asset_reserve as nat) as u128,
        ),
{
}

} // verus!
