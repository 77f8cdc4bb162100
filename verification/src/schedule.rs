//! The entitlement schedule: how much of a participant's allocation is
//! unlocked at a given time, as a pure function of the sale configuration.
//!
//! Before the unlock epoch nothing is unlocked. Afterwards an up-front
//! percentage is released at once and the remainder vests in equal tranches
//! per fixed 30-day month. While vesting is under way the still-locked part
//! is scaled by the sale token's decimal precision while the other terms are
//! raw allocation units; that asymmetry is part of the schedule's definition
//! and is kept exactly.

use vstd::arithmetic::div_mod::{
    lemma_div_is_ordered, lemma_div_multiples_vanish, lemma_div_pos_is_pos,
};
use vstd::arithmetic::mul::{lemma_mul_inequality, lemma_mul_is_commutative, lemma_mul_nonnegative};
use vstd::prelude::*;

use crate::error::TokensellError;
use crate::MONTH_SECONDS;

verus! {

/// Ten to the `n`th power.
pub open spec fn spec_pow10(n: nat) -> int
    decreases n,
{
    if n == 0 {
        1
    } else {
        10 * spec_pow10((n - 1) as nat)
    }
}

pub proof fn lemma_pow10_pos(n: nat)
    ensures
        spec_pow10(n) >= 1,
    decreases n,
{
    if n > 0 {
        lemma_pow10_pos((n - 1) as nat);
    }
}

pub proof fn lemma_pow10_monotone(a: nat, b: nat)
    requires
        a <= b,
    ensures
        spec_pow10(a) <= spec_pow10(b),
    decreases b,
{
    if a < b {
        lemma_pow10_monotone(a, (b - 1) as nat);
        lemma_pow10_pos((b - 1) as nat);
    }
}

/// Months fully elapsed between the unlock epoch and `now`.
pub open spec fn spec_months_passed(now: int, tge: int) -> int
    recommends
        now > tge,
{
    (now - tge) / (MONTH_SECONDS as int)
}

/// The number of sale-token units unlocked at `now`, over unbounded integers.
pub open spec fn spec_unlocked(
    purchased: int,
    claimed: int,
    tge: int,
    now: int,
    initial_perc: int,
    total_months: int,
    decimals: nat,
) -> int {
    if now <= tge {
        0
    } else {
        let months_passed = spec_months_passed(now, tge);
        let to_claim = purchased - claimed;
        if months_passed < total_months {
            let initial_amount = purchased * initial_perc / 100;
            let month_amount = (purchased - initial_amount) * months_passed / total_months;
            let freezed_amount = (purchased - initial_amount - month_amount) * spec_pow10(
                decimals,
            );
            if to_claim > freezed_amount {
                to_claim - freezed_amount
            } else {
                0
            }
        } else {
            to_claim
        }
    }
}

/// Exactly when the 64-bit evaluation of the schedule overflows.
pub open spec fn spec_unlocked_overflows(
    purchased: int,
    claimed: int,
    tge: int,
    now: int,
    initial_perc: int,
    total_months: int,
    decimals: nat,
) -> bool {
    if now <= tge {
        false
    } else {
        let months_passed = spec_months_passed(now, tge);
        if months_passed < total_months {
            let prod = purchased * initial_perc;
            let initial_amount = prod / 100;
            let rest = purchased - initial_amount;
            ||| prod > u64::MAX
            ||| initial_amount > purchased
            ||| rest * months_passed > u64::MAX
            ||| spec_pow10(decimals) > u64::MAX
            ||| (rest - rest * months_passed / total_months) * spec_pow10(decimals) > u64::MAX
        } else {
            false
        }
    }
}

/// Computes ten to the `n`th power, or `None` where it exceeds 64 bits.
pub fn pow10_u64(n: u8) -> (r: Option<u64>)
    ensures
        r is Some <==> spec_pow10(n as nat) <= u64::MAX,
        r matches Some(v) ==> v == spec_pow10(n as nat),
{
    let mut result: u64 = 1;
    let mut i: u8 = 0;
    while i < n
        invariant
            i <= n,
            result == spec_pow10(i as nat),
        decreases n - i,
    {
        if result > u64::MAX / 10 {
            proof {
                lemma_pow10_monotone((i + 1) as nat, n as nat);
            }
            return None;
        }
        result = result * 10;
        i += 1;
    }
    Some(result)
}

/// A partial vesting tranche never exceeds what it vests from.
pub(crate) proof fn lemma_month_within_rest(x: int, m: int, t: int)
    requires
        x >= 0,
        0 <= m < t,
    ensures
        0 <= x * m / t <= x,
{
    lemma_mul_nonnegative(x, m);
    lemma_div_pos_is_pos(x * m, t);
    lemma_mul_inequality(m, t, x);
    lemma_mul_is_commutative(m, x);
    lemma_mul_is_commutative(t, x);
    lemma_div_is_ordered(x * m, x * t, t);
    lemma_mul_is_commutative(x, t);
    lemma_div_multiples_vanish(x, t);
}

/// Evaluates the schedule with 64-bit checked arithmetic. Returns the exact
/// unlocked amount, or `Overflow` exactly where the 64-bit evaluation leaves
/// the representable range.
pub fn unlocked_amount(
    purchased: u64,
    claimed: u64,
    tge: i64,
    now: i64,
    initial_perc: u64,
    total_months: u64,
    decimals: u8,
) -> (r: Result<u64, TokensellError>)
    requires
        claimed <= purchased,
    ensures
        r is Ok <==> !spec_unlocked_overflows(
            purchased as int,
            claimed as int,
            tge as int,
            now as int,
            initial_perc as int,
            total_months as int,
            decimals as nat,
        ),
        r matches Ok(v) ==> v == spec_unlocked(
            purchased as int,
            claimed as int,
            tge as int,
            now as int,
            initial_perc as int,
            total_months as int,
            decimals as nat,
        ),
        r matches Ok(v) ==> v <= purchased - claimed,
        r matches Err(e) ==> e == TokensellError::Overflow,
{
    if now <= tge {
        return Ok(0);
    }
    let diff: u64 = ((now as i128) - (tge as i128)) as u64;
    let months_passed: u64 = diff / MONTH_SECONDS;
    let to_claim: u64 = purchased - claimed;
    if months_passed < total_months {
        let prod: u64 = match purchased.checked_mul(initial_perc) {
            Some(v) => v,
            None => {
                return Err(TokensellError::Overflow);
            },
        };
        let initial_amount: u64 = prod / 100;
        let rest: u64 = match purchased.checked_sub(initial_amount) {
            Some(v) => v,
            None => {
                return Err(TokensellError::Overflow);
            },
        };
        let mprod: u64 = match rest.checked_mul(months_passed) {
            Some(v) => v,
            None => {
                return Err(TokensellError::Overflow);
            },
        };
        let month_amount: u64 = mprod / total_months;
        proof {
            lemma_month_within_rest(rest as int, months_passed as int, total_months as int);
        }
        let locked_units: u64 = rest - month_amount;
        let scale: u64 = match pow10_u64(decimals) {
            Some(v) => v,
            None => {
                return Err(TokensellError::Overflow);
            },
        };
        let freezed_amount: u64 = match locked_units.checked_mul(scale) {
            Some(v) => v,
            None => {
                return Err(TokensellError::Overflow);
            },
        };
        if to_claim > freezed_amount {
            Ok(to_claim - freezed_amount)
        } else {
            Ok(0)
        }
    } else {
        Ok(to_claim)
    }
}

/// At or before the unlock epoch nothing is unlocked, whatever was purchased
/// or claimed.
pub proof fn lemma_nothing_unlocked_before_tge(
    purchased: int,
    claimed: int,
    tge: int,
    now: int,
    initial_perc: int,
    total_months: int,
    decimals: nat,
)
    requires
        now <= tge,
    ensures
        spec_unlocked(purchased, claimed, tge, now, initial_perc, total_months, decimals) == 0,
{
}

/// The unlocked amount never exceeds what is still unclaimed.
pub proof fn lemma_unlocked_within_entitlement(
    purchased: int,
    claimed: int,
    tge: int,
    now: int,
    initial_perc: int,
    total_months: int,
    decimals: nat,
)
    requires
        0 <= claimed <= purchased,
        0 <= initial_perc <= 100,
    ensures
        0 <= spec_unlocked(purchased, claimed, tge, now, initial_perc, total_months, decimals)
            <= purchased - claimed,
{
    if now > tge {
        let months_passed = spec_months_passed(now, tge);
        lemma_div_pos_is_pos(now - tge, MONTH_SECONDS as int);
        if months_passed < total_months {
            assert(purchased * initial_perc / 100 <= purchased) by {
                lemma_mul_inequality(initial_perc, 100, purchased);
                lemma_mul_is_commutative(initial_perc, purchased);
                lemma_mul_is_commutative(100, purchased);
                lemma_div_is_ordered(purchased * initial_perc, purchased * 100, 100);
                lemma_mul_is_commutative(purchased, 100);
                lemma_div_multiples_vanish(purchased, 100);
            }
            assert(purchased * initial_perc >= 0) by {
                lemma_mul_nonnegative(purchased, initial_perc);
            }
            lemma_div_pos_is_pos(purchased * initial_perc, 100);
            let initial_amount = purchased * initial_perc / 100;
            let rest = purchased - initial_amount;
            lemma_month_within_rest(rest, months_passed, total_months);
            let month_amount = rest * months_passed / total_months;
            lemma_pow10_pos(decimals);
            lemma_mul_nonnegative(rest - month_amount, spec_pow10(decimals));
        }
    }
}

/// Claiming the unlocked amount exhausts the month: a second claim at the
/// same instant unlocks nothing.
pub proof fn lemma_second_claim_is_zero(
    purchased: int,
    claimed: int,
    tge: int,
    now: int,
    initial_perc: int,
    total_months: int,
    decimals: nat,
)
    ensures
        spec_unlocked(
            purchased,
            claimed + spec_unlocked(
                purchased,
                claimed,
                tge,
                now,
                initial_perc,
                total_months,
                decimals,
            ),
            tge,
            now,
            initial_perc,
            total_months,
            decimals,
        ) == 0,
{
}

} // verus!
