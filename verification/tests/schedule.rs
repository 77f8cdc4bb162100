//! The entitlement schedule on concrete values.

use tokensell::{unlocked_amount, TokensellError};

const MONTH: i64 = 30 * 24 * 3600;

#[test]
fn nothing_unlocked_at_tge_instant() {
    // upfront 20%, 10 months, purchased 1000, claimed 0, now == tge.
    let r = unlocked_amount(1000, 0, 1000, 1000, 20, 10, 0);
    assert_eq!(r, Ok(0));
}

#[test]
fn nothing_unlocked_before_tge() {
    let r = unlocked_amount(1000, 0, 1000, 999, 20, 10, 0);
    assert_eq!(r, Ok(0));
    let r = unlocked_amount(1000, 0, 1000, -5000, 20, 10, 6);
    assert_eq!(r, Ok(0));
}

#[test]
fn one_month_after_tge() {
    // upfront 200; elapsed 1; vested (800*1)/10 = 80; still locked
    // (800-80)*10^0 = 720; to claim 1000; unlocked 280.
    let tge = 1000;
    let now = tge + MONTH;
    let r = unlocked_amount(1000, 0, tge, now, 20, 10, 0);
    assert_eq!(r, Ok(280));
}

#[test]
fn fully_vested_pays_out_the_rest() {
    let tge = 1000;
    let now = tge + 10 * MONTH;
    assert_eq!(unlocked_amount(1000, 0, tge, now, 20, 10, 0), Ok(1000));
    assert_eq!(unlocked_amount(1000, 300, tge, now, 20, 10, 0), Ok(700));
}

#[test]
fn decimals_scale_the_locked_part() {
    // With 1 decimal the locked term is ten times larger, so one month in
    // nothing is claimable yet.
    let tge = 1000;
    let now = tge + MONTH;
    assert_eq!(unlocked_amount(1000, 0, tge, now, 20, 10, 1), Ok(0));
}

#[test]
fn only_the_upfront_part_before_the_first_full_month() {
    let tge = 1000;
    let now = tge + MONTH - 1;
    assert_eq!(unlocked_amount(1000, 0, tge, now, 20, 10, 0), Ok(200));
}

#[test]
fn second_claim_in_same_month_unlocks_nothing() {
    let tge = 1000;
    let now = tge + MONTH;
    let first = unlocked_amount(1000, 0, tge, now, 20, 10, 0).unwrap();
    assert_eq!(first, 280);
    assert_eq!(unlocked_amount(1000, first, tge, now, 20, 10, 0), Ok(0));
}

#[test]
fn overflow_is_reported_not_wrapped() {
    let tge = 1000;
    let now = tge + MONTH;
    // purchased * percent overflows 64 bits.
    assert_eq!(
        unlocked_amount(u64::MAX, 0, tge, now, u64::MAX, 10, 0),
        Err(TokensellError::Overflow)
    );
    // 10^20 overflows 64 bits.
    assert_eq!(
        unlocked_amount(1000, 0, tge, now, 20, 10, 20),
        Err(TokensellError::Overflow)
    );
    // An up-front percentage over 100 underflows the remainder.
    assert_eq!(
        unlocked_amount(1000, 0, tge, now, 101, 10, 0),
        Err(TokensellError::Overflow)
    );
}

#[test]
fn percent_hundred_unlocks_everything_after_one_month() {
    let tge = 1000;
    let now = tge + MONTH;
    assert_eq!(unlocked_amount(1000, 0, tge, now, 100, 10, 0), Ok(1000));
}

#[test]
fn pow_of_ten_has_a_sixty_four_bit_ceiling() {
    assert_eq!(tokensell::pow10_u64(0), Some(1));
    assert_eq!(tokensell::pow10_u64(19), Some(10_000_000_000_000_000_000));
    assert_eq!(tokensell::pow10_u64(20), None);
}
