//! Concrete checks of the stated pricing properties: zero-amount identity,
//! rounding direction, precondition enforcement, and absence of spurious
//! overflow failures.

use xyk_math::xyk::{
    calculate_in_given_out, calculate_liquidity_in, calculate_liquidity_out,
    calculate_out_given_in, calculate_shares, calculate_spot_price,
};

#[test]
fn zero_amount_yields_zero() {
    assert_eq!(calculate_spot_price(7, u128::MAX, 0), Some(0));
    assert_eq!(calculate_out_given_in(u128::MAX, u128::MAX, 0), Some(0));
    assert_eq!(calculate_in_given_out(u128::MAX, u128::MAX, 0), Some(0));
    assert_eq!(calculate_liquidity_in(7, u128::MAX, 0), Some(0));
    assert_eq!(
        calculate_liquidity_out(u128::MAX, u128::MAX, 0, 13),
        Some((0, 0))
    );
    assert_eq!(calculate_shares(7, 0, u128::MAX), Some(0));
}

#[test]
fn out_given_in_rounds_down() {
    // 2000 * 500 / 1500 = 666.66...: the trader receives the floor.
    let out = calculate_out_given_in(1000, 2000, 500).unwrap();
    assert_eq!(out, 666);
    assert!(out as u128 * (1000 + 500) <= 2000 * 500);
    assert!((out + 1) as u128 * (1000 + 500) > 2000 * 500);
}

#[test]
fn in_given_out_rounds_up() {
    // 1000 * 500 / 1500 = 333.33...: the trader pays the ceiling.
    let paid = calculate_in_given_out(2000, 1000, 500).unwrap();
    assert_eq!(paid, 334);
    assert!(paid as u128 * (2000 - 500) >= 1000 * 500);
    // An exact quotient is still incremented: 1000 * 500 / 1000 = 500 -> 501.
    assert_eq!(calculate_in_given_out(1500, 1000, 500), Some(501));
}

#[test]
fn liquidity_in_rounds_up() {
    // An exact ratio still rounds up by one: 500 * 2000 / 1000 = 1000 -> 1001.
    let required = calculate_liquidity_in(1000, 2000, 500).unwrap();
    assert_eq!(required, 1001);
    assert!(required as u128 * 1000 >= 500 * 2000);
}

#[test]
fn liquidity_out_rounds_down() {
    // 300 * 1000 / 2500 = 120 and 300 * 2001 / 2500 = 240.12 -> 240.
    let (a, b) = calculate_liquidity_out(1000, 2001, 300, 2500).unwrap();
    assert_eq!((a, b), (120, 240));
    assert!(a * 2500 <= 300 * 1000);
    assert!(b * 2500 <= 2001 * 300);
}

#[test]
fn swaps_never_decrease_the_product() {
    let out = calculate_out_given_in(1000, 2000, 500).unwrap();
    assert!((1000 + 500) * (2000 - out) >= 1000 * 2000);
    let paid = calculate_in_given_out(2000, 1000, 500).unwrap();
    assert!((1000 + paid) * (2000 - 500) >= 1000 * 2000);
}

#[test]
fn zero_reserve_preconditions_fail() {
    assert_eq!(calculate_spot_price(0, 2000, 500), None);
    assert_eq!(calculate_spot_price(0, 2000, 0), None);
    assert_eq!(calculate_liquidity_in(0, 2000, 500), None);
    assert_eq!(calculate_liquidity_out(1000, 2000, 500, 0), None);
    assert_eq!(calculate_shares(0, 500, 2000), None);
    // Overdrawing the outgoing reserve fails, whatever the incoming one.
    assert_eq!(calculate_in_given_out(0, 10, 1000), None);
    assert_eq!(calculate_in_given_out(499, u128::MAX, 500), None);
}

#[test]
fn no_spurious_overflow() {
    // Every product here overflows 128 bits before the division, yet each
    // exact result fits, so every call succeeds.
    assert_eq!(
        calculate_spot_price(u128::MAX, u128::MAX, u128::MAX),
        Some(u128::MAX)
    );
    assert_eq!(
        calculate_out_given_in(u128::MAX, u128::MAX, u128::MAX),
        Some(u128::MAX / 2)
    );
    assert_eq!(
        calculate_in_given_out(u128::MAX, u128::MAX, 1),
        Some(2),
    );
    assert_eq!(
        calculate_liquidity_out(u128::MAX, u128::MAX, u128::MAX, u128::MAX),
        Some((u128::MAX, u128::MAX))
    );
    assert_eq!(
        calculate_shares(u128::MAX, u128::MAX, u128::MAX),
        Some(u128::MAX)
    );
    // A sell quote succeeds even when the divisor itself exceeds 128 bits.
    assert_eq!(
        calculate_out_given_in(u128::MAX, 1000, u128::MAX),
        Some(500)
    );
}

#[test]
fn narrowing_failures_are_reported() {
    // 2 * MAX / 1 does not fit back into a Balance.
    assert_eq!(calculate_spot_price(1, 2, u128::MAX), None);
    assert_eq!(calculate_shares(1, 2, u128::MAX), None);
    // The rounded-up result MAX + 1 does not fit.
    assert_eq!(calculate_in_given_out(2, u128::MAX, 1), None);
    assert_eq!(calculate_liquidity_in(1, 1, u128::MAX), None);
}
