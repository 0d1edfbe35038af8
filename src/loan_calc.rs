use vstd::prelude::*;

use crate::error::LendingError;
use crate::math::{spec_add, spec_mul_div, SafeMath, BPS_DIVISOR};
use crate::price::PRICE_SCALE;

verus! {

/// Shortest and longest loan, in seconds.
pub const MIN_LOAN_DURATION: u64 = 43_200;
pub const MAX_LOAN_DURATION: u64 = 604_800;

/// Duration at which the LTV is neither raised nor lowered (48 hours).
pub const BASE_LOAN_DURATION: u64 = 172_800;

/// Largest bonus (at the shortest duration) and penalty (at the longest),
/// in basis points of the token's LTV.
pub const MAX_DURATION_BONUS_BPS: u64 = 2500;
pub const MAX_DURATION_PENALTY_BPS: u64 = 2500;

/// Band that every effective LTV is clamped to.
pub const MIN_EFFECTIVE_LTV_BPS: u64 = 1000;
pub const MAX_EFFECTIVE_LTV_BPS: u64 = 9000;

/// Cap on LTV plus liquidation buffer when placing the trigger price.
pub const MAX_LIQUIDATION_LTV_BPS: u64 = 9000;

/// Default distance between the loan's LTV and its liquidation point.
pub const DEFAULT_LIQUIDATION_BUFFER_BPS: u16 = 300;

pub open spec fn clamp_duration(d: int) -> int {
    if d < MIN_LOAN_DURATION {
        MIN_LOAN_DURATION as int
    } else if d > MAX_LOAN_DURATION {
        MAX_LOAN_DURATION as int
    } else {
        d
    }
}

/// Multiplier applied to the LTV for a (clamped) duration, in bps.
pub open spec fn duration_multiplier_bps(d: int) -> int {
    if d <= BASE_LOAN_DURATION {
        10000 + MAX_DURATION_BONUS_BPS * (BASE_LOAN_DURATION - d) / (BASE_LOAN_DURATION
            - MIN_LOAN_DURATION)
    } else {
        10000 - MAX_DURATION_PENALTY_BPS * (d - BASE_LOAN_DURATION) / (MAX_LOAN_DURATION
            - BASE_LOAN_DURATION)
    }
}

pub open spec fn clamp_ltv(x: int) -> int {
    if x < MIN_EFFECTIVE_LTV_BPS {
        MIN_EFFECTIVE_LTV_BPS as int
    } else if x > MAX_EFFECTIVE_LTV_BPS {
        MAX_EFFECTIVE_LTV_BPS as int
    } else {
        x
    }
}

/// Effective LTV of a loan of the given duration against a token whose LTV
/// is `ltv`.
pub open spec fn duration_adjusted_ltv_spec(ltv: int, duration: int) -> int {
    clamp_ltv(ltv * duration_multiplier_bps(clamp_duration(duration)) / 10000)
}

/// `collateral * price * ltv / (PRICE_SCALE * 10000)`, refused when it does
/// not fit in 64 bits.
pub open spec fn loan_amount_spec(collateral: u64, price: u64, ltv_bps: u16) -> Result<
    u64,
    LendingError,
> {
    let q = (collateral as int) * (price as int) * (ltv_bps as int) / (PRICE_SCALE * BPS_DIVISOR);
    if q > u64::MAX {
        Err(LendingError::MathOverflow)
    } else {
        Ok(q as u64)
    }
}

pub open spec fn effective_liquidation_ltv(ltv_bps: u16, buffer_bps: u16) -> u64 {
    if ltv_bps + buffer_bps > MAX_LIQUIDATION_LTV_BPS {
        MAX_LIQUIDATION_LTV_BPS
    } else {
        (ltv_bps + buffer_bps) as u64
    }
}

/// Collateral price at which `collateral * effective_ltv` equals the debt.
pub open spec fn liquidation_price_spec(
    sol_borrowed: u64,
    collateral_amount: u64,
    ltv_bps: u16,
    buffer_bps: u16,
) -> Result<u64, LendingError> {
    match spec_mul_div(
        collateral_amount,
        effective_liquidation_ltv(ltv_bps, buffer_bps),
        BPS_DIVISOR,
    ) {
        Err(e) => Err(e),
        Ok(weighted) => spec_mul_div(sol_borrowed, BPS_DIVISOR, weighted),
    }
}

pub open spec fn total_owed_spec(principal: u64, fee_bps: u16) -> Result<u64, LendingError> {
    match spec_mul_div(principal, fee_bps as u64, BPS_DIVISOR) {
        Err(e) => Err(e),
        Ok(fee) => spec_add(principal, fee),
    }
}

pub open spec fn health_factor_spec(collateral_value: u64, debt_value: u64, ltv_bps: u16) -> Result<
    u64,
    LendingError,
> {
    if debt_value == 0 {
        Ok(u64::MAX)
    } else {
        match spec_mul_div(collateral_value, ltv_bps as u64, BPS_DIVISOR) {
            Err(e) => Err(e),
            Ok(max_borrow) => spec_mul_div(max_borrow, BPS_DIVISOR, debt_value),
        }
    }
}

proof fn lemma_multiplier_bounds(d: int)
    requires
        MIN_LOAN_DURATION <= d <= MAX_LOAN_DURATION,
    ensures
        7500 <= duration_multiplier_bps(d) <= 12500,
{
    if d <= BASE_LOAN_DURATION {
        assert(2500 * (BASE_LOAN_DURATION - d) / 129600 <= 2500) by (nonlinear_arith)
            requires
                0 <= BASE_LOAN_DURATION - d <= 129600,
        ;
        assert(2500 * (BASE_LOAN_DURATION - d) / 129600 >= 0) by (nonlinear_arith)
            requires
                0 <= BASE_LOAN_DURATION - d,
        ;
    } else {
        assert(2500 * (d - BASE_LOAN_DURATION) / 432000 <= 2500) by (nonlinear_arith)
            requires
                0 <= d - BASE_LOAN_DURATION <= 432000,
        ;
        assert(2500 * (d - BASE_LOAN_DURATION) / 432000 >= 0) by (nonlinear_arith)
            requires
                0 <= d - BASE_LOAN_DURATION,
        ;
    }
}

proof fn lemma_multiplier_non_increasing(d1: int, d2: int)
    requires
        MIN_LOAN_DURATION <= d1 <= d2 <= MAX_LOAN_DURATION,
    ensures
        duration_multiplier_bps(d1) >= duration_multiplier_bps(d2),
{
    lemma_multiplier_bounds(d1);
    lemma_multiplier_bounds(d2);
    if d2 <= BASE_LOAN_DURATION {
        assert(2500 * (BASE_LOAN_DURATION - d1) / 129600 >= 2500 * (BASE_LOAN_DURATION - d2)
            / 129600) by (nonlinear_arith)
            requires
                BASE_LOAN_DURATION - d1 >= BASE_LOAN_DURATION - d2 >= 0,
        ;
    } else if d1 > BASE_LOAN_DURATION {
        assert(2500 * (d1 - BASE_LOAN_DURATION) / 432000 <= 2500 * (d2 - BASE_LOAN_DURATION)
            / 432000) by (nonlinear_arith)
            requires
                0 <= d1 - BASE_LOAN_DURATION <= d2 - BASE_LOAN_DURATION,
        ;
    }
}

/// The effective LTV never rises as the duration grows, and always lies in
/// [1000, 9000] bps, for any duration, in range or not.
pub proof fn lemma_duration_adjusted_ltv_monotone(ltv: u16, d1: u64, d2: u64)
    requires
        d1 <= d2,
    ensures
        duration_adjusted_ltv_spec(ltv as int, d1 as int) >= duration_adjusted_ltv_spec(
            ltv as int,
            d2 as int,
        ),
        MIN_EFFECTIVE_LTV_BPS <= duration_adjusted_ltv_spec(ltv as int, d1 as int)
            <= MAX_EFFECTIVE_LTV_BPS,
{
    let c1 = clamp_duration(d1 as int);
    let c2 = clamp_duration(d2 as int);
    lemma_multiplier_non_increasing(c1, c2);
    let m1 = duration_multiplier_bps(c1);
    let m2 = duration_multiplier_bps(c2);
    assert(ltv * m1 / 10000 >= ltv * m2 / 10000) by (nonlinear_arith)
        requires
            m1 >= m2 >= 0,
            ltv >= 0,
    ;
}

/// Pure loan arithmetic.
pub struct LoanCalculator;

impl LoanCalculator {
    /// Base currency lent against `collateral_amount` at `token_price`
    /// (scaled by 10^9) and `ltv_bps`.
    pub fn calculate_loan_amount(collateral_amount: u64, token_price: u64, ltv_bps: u16) -> (r:
        Result<u64, LendingError>)
        ensures
            r == loan_amount_spec(collateral_amount, token_price, ltv_bps),
    {
        proof {
            crate::math::lemma_u64_product_fits_u128(collateral_amount, token_price);
        }
        let cp: u128 = (collateral_amount as u128) * (token_price as u128);
        let divisor: u128 = (PRICE_SCALE as u128) * (BPS_DIVISOR as u128);
        match cp.checked_mul(ltv_bps as u128) {
            None => {
                assert((cp as int) * (ltv_bps as int) / (PRICE_SCALE * BPS_DIVISOR) > u64::MAX);
                Err(LendingError::MathOverflow)
            },
            Some(product) => {
                let loan_amount: u128 = product / divisor;
                if loan_amount > u64::MAX as u128 {
                    return Err(LendingError::MathOverflow);
                }
                Ok(loan_amount as u64)
            },
        }
    }

    /// Principal plus the flat fee on it.
    pub fn calculate_total_owed(principal: u64, protocol_fee_bps: u16) -> (r: Result<
        u64,
        LendingError,
    >)
        ensures
            r == total_owed_spec(principal, protocol_fee_bps),
    {
        let protocol_fee = match SafeMath::mul_div(principal, protocol_fee_bps as u64, BPS_DIVISOR) {
            Ok(f) => f,
            Err(e) => return Err(e),
        };
        SafeMath::add(principal, protocol_fee)
    }

    /// Collateral price at which a loan becomes liquidatable: LTV plus buffer,
    /// capped at 90%, times the collateral equals the debt.
    pub fn calculate_liquidation_price(
        sol_borrowed: u64,
        collateral_amount: u64,
        ltv_bps: u16,
        liquidation_buffer_bps: u16,
    ) -> (r: Result<u64, LendingError>)
        ensures
            r == liquidation_price_spec(
                sol_borrowed,
                collateral_amount,
                ltv_bps,
                liquidation_buffer_bps,
            ),
    {
        let sum: u64 = ltv_bps as u64 + liquidation_buffer_bps as u64;
        let effective_ltv = if sum > MAX_LIQUIDATION_LTV_BPS {
            MAX_LIQUIDATION_LTV_BPS
        } else {
            sum
        };
        let weighted = match SafeMath::mul_div(collateral_amount, effective_ltv, BPS_DIVISOR) {
            Ok(w) => w,
            Err(e) => return Err(e),
        };
        SafeMath::mul_div(sol_borrowed, BPS_DIVISOR, weighted)
    }

    /// Effective LTV for a loan of `duration_seconds`: a bonus of up to 25%
    /// of the token's LTV below 48 hours, a penalty of up to 25% above, both
    /// linear in the duration, then clamped to [10%, 90%]. Durations outside
    /// the allowed range count as its nearest end.
    pub fn calculate_duration_adjusted_ltv(ltv_bps: u16, duration_seconds: u64) -> (r: u16)
        ensures
            r == duration_adjusted_ltv_spec(ltv_bps as int, duration_seconds as int),
            MIN_EFFECTIVE_LTV_BPS <= r <= MAX_EFFECTIVE_LTV_BPS,
    {
        let d: u64 = if duration_seconds < MIN_LOAN_DURATION {
            MIN_LOAN_DURATION
        } else if duration_seconds > MAX_LOAN_DURATION {
            MAX_LOAN_DURATION
        } else {
            duration_seconds
        };
        proof {
            lemma_multiplier_bounds(d as int);
        }
        let multiplier: u64 = if d <= BASE_LOAN_DURATION {
            10000 + MAX_DURATION_BONUS_BPS * (BASE_LOAN_DURATION - d) / (BASE_LOAN_DURATION
                - MIN_LOAN_DURATION)
        } else {
            10000 - MAX_DURATION_PENALTY_BPS * (d - BASE_LOAN_DURATION) / (MAX_LOAN_DURATION
                - BASE_LOAN_DURATION)
        };
        assert(ltv_bps * multiplier <= 65535 * 12500) by (nonlinear_arith)
            requires
                ltv_bps <= 65535,
                multiplier <= 12500,
        ;
        let adjusted: u64 = (ltv_bps as u64) * multiplier / 10000;
        let clamped: u64 = if adjusted < MIN_EFFECTIVE_LTV_BPS {
            MIN_EFFECTIVE_LTV_BPS
        } else if adjusted > MAX_EFFECTIVE_LTV_BPS {
            MAX_EFFECTIVE_LTV_BPS
        } else {
            adjusted
        };
        clamped as u16
    }

    /// Share of the collateral owed to a liquidator as a bonus.
    pub fn calculate_liquidation_bonus(collateral_amount: u64, liquidation_bonus_bps: u16) -> (r:
        Result<u64, LendingError>)
        ensures
            r == spec_mul_div(collateral_amount, liquidation_bonus_bps as u64, BPS_DIVISOR),
    {
        SafeMath::mul_div(collateral_amount, liquidation_bonus_bps as u64, BPS_DIVISOR)
    }

    /// Value of the collateral in base currency.
    pub fn calculate_collateral_value(collateral_amount: u64, token_price: u64) -> (r: Result<
        u64,
        LendingError,
    >)
        ensures
            r == spec_mul_div(collateral_amount, token_price, PRICE_SCALE),
    {
        SafeMath::mul_div(collateral_amount, token_price, PRICE_SCALE)
    }

    /// `collateral_value * ltv / debt_value` in basis points (10000 = 1.0);
    /// no debt is infinitely healthy.
    pub fn calculate_health_factor(collateral_value: u64, debt_value: u64, ltv_bps: u16) -> (r:
        Result<u64, LendingError>)
        ensures
            r == health_factor_spec(collateral_value, debt_value, ltv_bps),
    {
        if debt_value == 0 {
            return Ok(u64::MAX);
        }
        let max_borrow = match SafeMath::mul_div(collateral_value, ltv_bps as u64, BPS_DIVISOR) {
            Ok(m) => m,
            Err(e) => return Err(e),
        };
        SafeMath::mul_div(max_borrow, BPS_DIVISOR, debt_value)
    }

    pub fn is_loan_healthy(health_factor: u64) -> (r: bool)
        ensures
            r == (health_factor >= BPS_DIVISOR),
    {
        health_factor >= BPS_DIVISOR
    }
}

} // verus!
