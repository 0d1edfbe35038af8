use vstd::prelude::*;

use crate::error::LendingError;
use crate::guard::{
    MAX_SINGLE_LOAN_BPS, MAX_TOKEN_EXPOSURE_BPS, MAX_USER_EXPOSURE_BPS,
    MIN_COLLATERAL_VALUE_LAMPORTS,
};
use crate::loan_calc::{
    duration_adjusted_ltv_spec, liquidation_price_spec, loan_amount_spec, LoanCalculator,
    DEFAULT_LIQUIDATION_BUFFER_BPS, MAX_LOAN_DURATION, MIN_LOAN_DURATION,
};
use crate::math::{spec_add, spec_mul_div, SafeMath, BPS_DIVISOR};
use crate::price::{pool_price_spec, PriceFeedUtils, PRICE_SCALE};
use crate::pubkey::Pubkey;
use crate::state::{
    Loan, LoanStatus, PoolType, ProtocolState, TokenConfig, UserExposure, LIQUIDATION_OPERATIONS_BPS,
    LOAN_FEE_OPERATIONS_BPS, LOAN_FEE_STAKING_BPS, LOAN_FEE_TREASURY_BPS,
};

verus! {

/// Largest shortfall of a liquidator's minimum output below the oracle's
/// expected sale value, in basis points.
pub const MAX_LIQUIDATION_SLIPPAGE_BPS: u64 = 500;

/// `treasury * bps / 10000`, the cap a limit in basis points allows.
pub open spec fn cap_of(treasury: u64, bps: u64) -> int {
    (treasury as int) * (bps as int) / 10000
}

/// What the protocol computes for a new loan before anything moves.
#[derive(Clone, Copy, Debug)]
pub struct LoanTerms {
    pub price: u64,
    pub effective_ltv_bps: u16,
    pub sol_amount: u64,
    pub liquidation_price: u64,
    pub due_at: i64,
}

/// Loan terms, or the first check they fail, in the order the risk guard
/// applies them.
pub open spec fn loan_terms_spec(
    tc: TokenConfig,
    ue: UserExposure,
    pool_data: Seq<u8>,
    treasury_balance: u64,
    collateral_amount: u64,
    duration_seconds: u64,
    now: i64,
) -> Result<LoanTerms, LendingError> {
    if duration_seconds < MIN_LOAN_DURATION || duration_seconds > MAX_LOAN_DURATION {
        Err(LendingError::InvalidLoanDuration)
    } else {
        match pool_price_spec(pool_data, tc.pool_type, tc.mint@) {
            Err(e) => Err(e),
            Ok(price) => match spec_mul_div(collateral_amount, price, PRICE_SCALE) {
                Err(e) => Err(e),
                Ok(value) => if value < MIN_COLLATERAL_VALUE_LAMPORTS {
                    Err(LendingError::CollateralValueTooLow)
                } else {
                    let ltv = duration_adjusted_ltv_spec(
                        tc.ltv_bps as int,
                        duration_seconds as int,
                    ) as u16;
                    match loan_amount_spec(collateral_amount, price, ltv) {
                        Err(e) => Err(e),
                        Ok(amount) => if amount < tc.min_loan_amount {
                            Err(LendingError::LoanAmountTooLow)
                        } else if amount > tc.max_loan_amount {
                            Err(LendingError::LoanAmountTooHigh)
                        } else if treasury_balance < amount {
                            Err(LendingError::InsufficientTreasuryBalance)
                        } else if amount > cap_of(treasury_balance, MAX_SINGLE_LOAN_BPS) {
                            Err(LendingError::SingleLoanTooLarge)
                        } else if tc.total_active_borrowed + amount > cap_of(
                            treasury_balance,
                            MAX_TOKEN_EXPOSURE_BPS,
                        ) {
                            Err(LendingError::TokenExposureTooHigh)
                        } else if ue.total_borrowed + amount > cap_of(
                            treasury_balance,
                            MAX_USER_EXPOSURE_BPS,
                        ) {
                            Err(LendingError::UserExposureTooHigh)
                        } else {
                            match liquidation_price_spec(
                                amount,
                                collateral_amount,
                                ltv,
                                DEFAULT_LIQUIDATION_BUFFER_BPS,
                            ) {
                                Err(e) => Err(e),
                                Ok(lp) => if now + duration_seconds > i64::MAX {
                                    Err(LendingError::MathOverflow)
                                } else {
                                    Ok(
                                        LoanTerms {
                                            price,
                                            effective_ltv_bps: ltv,
                                            sol_amount: amount,
                                            liquidation_price: lp,
                                            due_at: (now + duration_seconds) as i64,
                                        },
                                    )
                                },
                            }
                        },
                    }
                },
            },
        }
    }
}

/// Counters after a loan of `amount` opens, or `MathOverflow`.
pub open spec fn open_counters_spec(
    ps: ProtocolState,
    tc: TokenConfig,
    ue: UserExposure,
    amount: u64,
) -> Result<(ProtocolState, TokenConfig, UserExposure), LendingError> {
    if ps.total_loans_created + 1 > u64::MAX || ps.total_sol_borrowed + amount > u64::MAX
        || ps.active_loans_count + 1 > u64::MAX || tc.active_loans_count + 1 > u64::MAX
        || tc.total_volume + amount > u64::MAX || tc.total_active_borrowed + amount > u64::MAX
        || ue.total_borrowed + amount > u64::MAX || ue.active_loans_count + 1 > u64::MAX {
        Err(LendingError::MathOverflow)
    } else {
        Ok(
            (
                ProtocolState {
                    total_loans_created: (ps.total_loans_created + 1) as u64,
                    total_sol_borrowed: (ps.total_sol_borrowed + amount) as u64,
                    active_loans_count: (ps.active_loans_count + 1) as u64,
                    ..ps
                },
                TokenConfig {
                    active_loans_count: (tc.active_loans_count + 1) as u64,
                    total_volume: (tc.total_volume + amount) as u64,
                    total_active_borrowed: (tc.total_active_borrowed + amount) as u64,
                    ..tc
                },
                UserExposure {
                    total_borrowed: (ue.total_borrowed + amount) as u64,
                    active_loans_count: (ue.active_loans_count + 1) as u64,
                    ..ue
                },
            ),
        )
    }
}

/// The loan recorded by a successful open, or why it was refused.
pub open spec fn create_loan_spec(
    ps: ProtocolState,
    tc: TokenConfig,
    ue: UserExposure,
    borrower: Pubkey,
    borrower_token_balance: u64,
    pool_data: Seq<u8>,
    treasury_balance: u64,
    collateral_amount: u64,
    duration_seconds: u64,
    now: i64,
    loan_bump: u8,
) -> Result<Loan, LendingError> {
    if ps.reentrancy_guard {
        Err(LendingError::ReentrancyDetected)
    } else if ps.paused {
        Err(LendingError::ProtocolPaused)
    } else if !tc.enabled || tc.blacklisted {
        Err(LendingError::TokenDisabled)
    } else if ue.user@ != borrower@ {
        Err(LendingError::Unauthorized)
    } else if borrower_token_balance < collateral_amount {
        Err(LendingError::InsufficientTokenBalance)
    } else {
        match loan_terms_spec(
            tc,
            ue,
            pool_data,
            treasury_balance,
            collateral_amount,
            duration_seconds,
            now,
        ) {
            Err(e) => Err(e),
            Ok(t) => if ps.total_sol_borrowed + t.sol_amount > treasury_balance {
                Err(LendingError::InsufficientTreasuryBalance)
            } else {
                match open_counters_spec(ps, tc, ue, t.sol_amount) {
                Err(e) => Err(e),
                Ok(_) => Ok(
                    Loan {
                        borrower,
                        token_mint: tc.mint,
                        collateral_amount,
                        sol_borrowed: t.sol_amount,
                        entry_price: t.price,
                        liquidation_price: t.liquidation_price,
                        created_at: now,
                        due_at: t.due_at,
                        status: LoanStatus::Active,
                        index: ps.total_loans_created,
                        bump: loan_bump,
                    },
                ),
            }},
        }
    }
}

/// Where the base currency of a repayment goes.
#[derive(Clone, Copy, Debug)]
pub struct RepaySettlement {
    pub principal: u64,
    pub protocol_fee: u64,
    /// Principal, the treasury's share of the fee and the rounding dust.
    pub treasury_amount: u64,
    pub staking_amount: u64,
    pub operations_amount: u64,
    pub collateral_returned: u64,
}

/// Counters after a loan closes, in the order they are updated, or the
/// first that would leave its range.
pub open spec fn close_counters_spec(
    ps: ProtocolState,
    tc: TokenConfig,
    ue: UserExposure,
    borrowed: u64,
    earned: u64,
    repaid: bool,
) -> Result<(ProtocolState, TokenConfig, UserExposure), LendingError> {
    if ps.total_sol_borrowed < borrowed {
        Err(LendingError::MathUnderflow)
    } else if ps.total_fees_earned + earned > u64::MAX {
        Err(LendingError::MathOverflow)
    } else if ps.active_loans_count < 1 || tc.active_loans_count < 1 || tc.total_active_borrowed
        < borrowed || ue.total_borrowed < borrowed || ue.active_loans_count < 1 {
        Err(LendingError::MathUnderflow)
    } else if (repaid && ue.loans_repaid + 1 > u64::MAX) || (!repaid && ue.loans_liquidated + 1
        > u64::MAX) {
        Err(LendingError::MathOverflow)
    } else {
        Ok(
            (
                ProtocolState {
                    total_sol_borrowed: (ps.total_sol_borrowed - borrowed) as u64,
                    total_fees_earned: (ps.total_fees_earned + earned) as u64,
                    active_loans_count: (ps.active_loans_count - 1) as u64,
                    ..ps
                },
                TokenConfig {
                    active_loans_count: (tc.active_loans_count - 1) as u64,
                    total_active_borrowed: (tc.total_active_borrowed - borrowed) as u64,
                    ..tc
                },
                UserExposure {
                    total_borrowed: (ue.total_borrowed - borrowed) as u64,
                    active_loans_count: (ue.active_loans_count - 1) as u64,
                    loans_repaid: if repaid {
                        (ue.loans_repaid + 1) as u64
                    } else {
                        ue.loans_repaid
                    },
                    loans_liquidated: if repaid {
                        ue.loans_liquidated
                    } else {
                        (ue.loans_liquidated + 1) as u64
                    },
                    ..ue
                },
            ),
        )
    }
}

/// Split of a repayment fee: half to the treasury, a quarter each to
/// staking and operations, rounding dust to the treasury.
pub open spec fn fee_split_spec(principal: u64, fee: u64, collateral: u64) -> RepaySettlement {
    let t = (fee as int) * (LOAN_FEE_TREASURY_BPS as int) / 10000;
    let s = (fee as int) * (LOAN_FEE_STAKING_BPS as int) / 10000;
    let o = (fee as int) * (LOAN_FEE_OPERATIONS_BPS as int) / 10000;
    RepaySettlement {
        principal,
        protocol_fee: fee,
        treasury_amount: (principal + t + (fee - t - s - o)) as u64,
        staking_amount: s as u64,
        operations_amount: o as u64,
        collateral_returned: collateral,
    }
}

/// Outcome of a repayment. A loan that is no longer active is refused
/// before anything else is looked at.
pub open spec fn repay_spec(
    ps: ProtocolState,
    tc: TokenConfig,
    ue: UserExposure,
    loan: Loan,
    caller: Pubkey,
    caller_balance: u64,
) -> Result<RepaySettlement, LendingError> {
    if loan.status != LoanStatus::Active {
        Err(LendingError::LoanAlreadyRepaid)
    } else if ps.reentrancy_guard {
        Err(LendingError::ReentrancyDetected)
    } else if ps.paused {
        Err(LendingError::ProtocolPaused)
    } else if caller@ != loan.borrower@ {
        Err(LendingError::Unauthorized)
    } else {
        match spec_mul_div(loan.sol_borrowed, ps.protocol_fee_bps as u64, BPS_DIVISOR) {
            Err(e) => Err(e),
            Ok(fee) => match spec_add(loan.sol_borrowed, fee) {
                Err(e) => Err(e),
                Ok(total) => if caller_balance < total {
                    Err(LendingError::InsufficientTreasuryBalance)
                } else {
                    match close_counters_spec(ps, tc, ue, loan.sol_borrowed, fee, true) {
                        Err(e) => Err(e),
                        Ok(_) => Ok(fee_split_spec(loan.sol_borrowed, fee, loan.collateral_amount)),
                    }
                },
            },
        }
    }
}

/// What a liquidation hands to the swap venue.
#[derive(Clone, Copy, Debug)]
pub struct LiquidationOrder {
    pub reason: LoanStatus,
    pub collateral_amount: u64,
    pub expected_sol_value: u64,
    pub min_sol_output: u64,
}

/// Outcome of the first half of a liquidation, before the swap.
pub open spec fn liquidate_spec(
    ps: ProtocolState,
    tc: TokenConfig,
    loan: Loan,
    caller: Pubkey,
    pool_data: Seq<u8>,
    now: i64,
    min_sol_output: u64,
    has_swap_route: bool,
) -> Result<LiquidationOrder, LendingError> {
    if loan.status != LoanStatus::Active {
        Err(LendingError::LoanAlreadyRepaid)
    } else if ps.reentrancy_guard {
        Err(LendingError::ReentrancyDetected)
    } else if ps.paused {
        Err(LendingError::ProtocolPaused)
    } else if !ps.authorized_liquidator.is_zero_spec() && caller@ != ps.authorized_liquidator@ {
        Err(LendingError::Unauthorized)
    } else {
        match pool_price_spec(pool_data, tc.pool_type, loan.token_mint@) {
            Err(e) => Err(e),
            Ok(price) => {
                let by_time = now > loan.due_at;
                let by_price = price <= loan.liquidation_price;
                if !by_time && !by_price {
                    Err(LendingError::LoanNotLiquidatable)
                } else {
                    match spec_mul_div(loan.collateral_amount, price, PRICE_SCALE) {
                        Err(e) => Err(e),
                        Ok(expected) => match spec_mul_div(
                            expected,
                            (BPS_DIVISOR - MAX_LIQUIDATION_SLIPPAGE_BPS) as u64,
                            BPS_DIVISOR,
                        ) {
                            Err(e) => Err(e),
                            Ok(min_acceptable) => if min_sol_output < min_acceptable {
                                Err(LendingError::SlippageTooHigh)
                            } else if tc.pool_type == PoolType::Pumpfun {
                                Err(LendingError::FeatureTemporarilyDisabled)
                            } else if !has_swap_route {
                                Err(LendingError::MissingJupiterSwapData)
                            } else {
                                Ok(
                                    LiquidationOrder {
                                        reason: if by_price {
                                            LoanStatus::LiquidatedPrice
                                        } else {
                                            LoanStatus::LiquidatedTime
                                        },
                                        collateral_amount: loan.collateral_amount,
                                        expected_sol_value: expected,
                                        min_sol_output,
                                    },
                                )
                            },
                        },
                    }
                }
            },
        }
    }
}

/// Where the proceeds of a liquidation go.
#[derive(Clone, Copy, Debug)]
pub struct LiquidationSettlement {
    pub sol_proceeds: u64,
    pub treasury_share: u64,
    pub operations_share: u64,
}

/// Outcome of the second half of a liquidation, once the swap has run.
pub open spec fn settle_liquidation_spec(
    ps: ProtocolState,
    tc: TokenConfig,
    ue: UserExposure,
    loan: Loan,
    sol_before: u64,
    sol_after: u64,
    min_sol_output: u64,
) -> Result<LiquidationSettlement, LendingError> {
    if loan.status != LoanStatus::LiquidatedTime && loan.status != LoanStatus::LiquidatedPrice {
        Err(LendingError::LoanNotLiquidatable)
    } else if sol_after < sol_before {
        Err(LendingError::MathUnderflow)
    } else if sol_after - sol_before < min_sol_output {
        Err(LendingError::SlippageExceeded)
    } else {
        let proceeds = (sol_after - sol_before) as u64;
        let ops = (proceeds as int) * (LIQUIDATION_OPERATIONS_BPS as int) / 10000;
        let treasury = proceeds - ops;
        match close_counters_spec(ps, tc, ue, loan.sol_borrowed, treasury as u64, false) {
            Err(e) => Err(e),
            Ok(_) => Ok(
                LiquidationSettlement {
                    sol_proceeds: proceeds,
                    treasury_share: treasury as u64,
                    operations_share: ops as u64,
                },
            ),
        }
    }
}

fn compute_loan_terms(
    tc: &TokenConfig,
    ue: &UserExposure,
    pool_data: &[u8],
    treasury_balance: u64,
    collateral_amount: u64,
    duration_seconds: u64,
    now: i64,
) -> (r: Result<LoanTerms, LendingError>)
    ensures
        r == loan_terms_spec(
            *tc,
            *ue,
            pool_data@,
            treasury_balance,
            collateral_amount,
            duration_seconds,
            now,
        ),
{
    if duration_seconds < MIN_LOAN_DURATION || duration_seconds > MAX_LOAN_DURATION {
        return Err(LendingError::InvalidLoanDuration);
    }
    let price = match PriceFeedUtils::read_price_from_pool(pool_data, tc.pool_type, &tc.mint) {
        Ok(p) => p,
        Err(e) => return Err(e),
    };
    let value = match LoanCalculator::calculate_collateral_value(collateral_amount, price) {
        Ok(v) => v,
        Err(e) => return Err(e),
    };
    if value < MIN_COLLATERAL_VALUE_LAMPORTS {
        return Err(LendingError::CollateralValueTooLow);
    }
    let ltv = LoanCalculator::calculate_duration_adjusted_ltv(tc.ltv_bps, duration_seconds);
    let amount = match LoanCalculator::calculate_loan_amount(collateral_amount, price, ltv) {
        Ok(a) => a,
        Err(e) => return Err(e),
    };
    if amount < tc.min_loan_amount {
        return Err(LendingError::LoanAmountTooLow);
    }
    if amount > tc.max_loan_amount {
        return Err(LendingError::LoanAmountTooHigh);
    }
    if treasury_balance < amount {
        return Err(LendingError::InsufficientTreasuryBalance);
    }
    let single_cap: u128 = (treasury_balance as u128) * (MAX_SINGLE_LOAN_BPS as u128) / 10000;
    let token_cap: u128 = (treasury_balance as u128) * (MAX_TOKEN_EXPOSURE_BPS as u128) / 10000;
    let user_cap: u128 = (treasury_balance as u128) * (MAX_USER_EXPOSURE_BPS as u128) / 10000;
    if amount as u128 > single_cap {
        return Err(LendingError::SingleLoanTooLarge);
    }
    if tc.total_active_borrowed as u128 + amount as u128 > token_cap {
        return Err(LendingError::TokenExposureTooHigh);
    }
    if ue.total_borrowed as u128 + amount as u128 > user_cap {
        return Err(LendingError::UserExposureTooHigh);
    }
    let liquidation_price = match LoanCalculator::calculate_liquidation_price(
        amount,
        collateral_amount,
        ltv,
        DEFAULT_LIQUIDATION_BUFFER_BPS,
    ) {
        Ok(p) => p,
        Err(e) => return Err(e),
    };
    if (now as i128) + (duration_seconds as i128) > i64::MAX as i128 {
        return Err(LendingError::MathOverflow);
    }
    Ok(
        LoanTerms {
            price,
            effective_ltv_bps: ltv,
            sol_amount: amount,
            liquidation_price,
            due_at: now + duration_seconds as i64,
        },
    )
}

/// `amount * bps / 10000`, rounded down.
fn bps_share(amount: u64, bps: u16) -> (r: u64)
    requires
        bps <= 10000,
    ensures
        r == (amount as int) * (bps as int) / 10000,
        r <= amount,
{
    assert((amount as int) * (bps as int) <= (amount as int) * 10000) by (nonlinear_arith)
        requires
            bps <= 10000,
            amount >= 0,
    ;
    proof {
        crate::math::lemma_u64_product_fits_u128(amount, bps as u64);
    }
    ((amount as u128) * (bps as u128) / 10000) as u64
}

fn open_counters(ps: &ProtocolState, tc: &TokenConfig, ue: &UserExposure, amount: u64) -> (r:
    Result<(ProtocolState, TokenConfig, UserExposure), LendingError>)
    ensures
        r == open_counters_spec(*ps, *tc, *ue, amount),
{
    if ps.total_loans_created == u64::MAX || ps.total_sol_borrowed > u64::MAX - amount
        || ps.active_loans_count == u64::MAX || tc.active_loans_count == u64::MAX
        || tc.total_volume > u64::MAX - amount || tc.total_active_borrowed > u64::MAX - amount
        || ue.total_borrowed > u64::MAX - amount || ue.active_loans_count == u64::MAX {
        return Err(LendingError::MathOverflow);
    }
    Ok(
        (
            ProtocolState {
                total_loans_created: ps.total_loans_created + 1,
                total_sol_borrowed: ps.total_sol_borrowed + amount,
                active_loans_count: ps.active_loans_count + 1,
                ..*ps
            },
            TokenConfig {
                active_loans_count: tc.active_loans_count + 1,
                total_volume: tc.total_volume + amount,
                total_active_borrowed: tc.total_active_borrowed + amount,
                ..*tc
            },
            UserExposure {
                total_borrowed: ue.total_borrowed + amount,
                active_loans_count: ue.active_loans_count + 1,
                ..*ue
            },
        ),
    )
}

fn close_counters(
    ps: &ProtocolState,
    tc: &TokenConfig,
    ue: &UserExposure,
    borrowed: u64,
    earned: u64,
    repaid: bool,
) -> (r: Result<(ProtocolState, TokenConfig, UserExposure), LendingError>)
    ensures
        r == close_counters_spec(*ps, *tc, *ue, borrowed, earned, repaid),
{
    if ps.total_sol_borrowed < borrowed {
        return Err(LendingError::MathUnderflow);
    }
    if ps.total_fees_earned > u64::MAX - earned {
        return Err(LendingError::MathOverflow);
    }
    if ps.active_loans_count < 1 || tc.active_loans_count < 1 || tc.total_active_borrowed
        < borrowed || ue.total_borrowed < borrowed || ue.active_loans_count < 1 {
        return Err(LendingError::MathUnderflow);
    }
    if (repaid && ue.loans_repaid == u64::MAX) || (!repaid && ue.loans_liquidated == u64::MAX) {
        return Err(LendingError::MathOverflow);
    }
    Ok(
        (
            ProtocolState {
                total_sol_borrowed: ps.total_sol_borrowed - borrowed,
                total_fees_earned: ps.total_fees_earned + earned,
                active_loans_count: ps.active_loans_count - 1,
                ..*ps
            },
            TokenConfig {
                active_loans_count: tc.active_loans_count - 1,
                total_active_borrowed: tc.total_active_borrowed - borrowed,
                ..*tc
            },
            UserExposure {
                total_borrowed: ue.total_borrowed - borrowed,
                active_loans_count: ue.active_loans_count - 1,
                loans_repaid: if repaid {
                    ue.loans_repaid + 1
                } else {
                    ue.loans_repaid
                },
                loans_liquidated: if repaid {
                    ue.loans_liquidated
                } else {
                    ue.loans_liquidated + 1
                },
                ..*ue
            },
        ),
    )
}

/// Opens a loan of `collateral_amount` for `duration_seconds`, refused
/// while another instruction holds the reentrancy guard and whenever the
/// principal outstanding, this loan included, would exceed the treasury. On success
/// the caller moves the collateral into the loan's escrow and pays out
/// `sol_borrowed` from the treasury; on failure nothing changes.
pub fn create_loan_handler(
    protocol_state: &mut ProtocolState,
    token_config: &mut TokenConfig,
    user_exposure: &mut UserExposure,
    borrower: &Pubkey,
    borrower_token_balance: u64,
    pool_data: &[u8],
    treasury_balance: u64,
    collateral_amount: u64,
    duration_seconds: u64,
    now: i64,
    loan_bump: u8,
) -> (r: Result<Loan, LendingError>)
    ensures
        r == create_loan_spec(
            *old(protocol_state),
            *old(token_config),
            *old(user_exposure),
            *borrower,
            borrower_token_balance,
            pool_data@,
            treasury_balance,
            collateral_amount,
            duration_seconds,
            now,
            loan_bump,
        ),
        r is Err ==> *final(protocol_state) == *old(protocol_state) && *final(token_config) == *old(
            token_config,
        ) && *final(user_exposure) == *old(user_exposure),
        r matches Ok(loan) ==> open_counters_spec(
            *old(protocol_state),
            *old(token_config),
            *old(user_exposure),
            loan.sol_borrowed,
        ) == Ok::<(ProtocolState, TokenConfig, UserExposure), LendingError>(
            (*final(protocol_state), *final(token_config), *final(user_exposure)),
        ),
{
    if protocol_state.reentrancy_guard {
        return Err(LendingError::ReentrancyDetected);
    }
    if protocol_state.paused {
        return Err(LendingError::ProtocolPaused);
    }
    if !token_config.enabled || token_config.blacklisted {
        return Err(LendingError::TokenDisabled);
    }
    if !user_exposure.user.same(borrower) {
        return Err(LendingError::Unauthorized);
    }
    if borrower_token_balance < collateral_amount {
        return Err(LendingError::InsufficientTokenBalance);
    }
    let terms = match compute_loan_terms(
        token_config,
        user_exposure,
        pool_data,
        treasury_balance,
        collateral_amount,
        duration_seconds,
        now,
    ) {
        Ok(t) => t,
        Err(e) => return Err(e),
    };
    if protocol_state.total_sol_borrowed as u128 + terms.sol_amount as u128 > treasury_balance as u128 {
        return Err(LendingError::InsufficientTreasuryBalance);
    }
    let (ps, tc, ue) = match open_counters(
        protocol_state,
        token_config,
        user_exposure,
        terms.sol_amount,
    ) {
        Ok(c) => c,
        Err(e) => return Err(e),
    };
    let loan = Loan {
        borrower: *borrower,
        token_mint: token_config.mint,
        collateral_amount,
        sol_borrowed: terms.sol_amount,
        entry_price: terms.price,
        liquidation_price: terms.liquidation_price,
        created_at: now,
        due_at: terms.due_at,
        status: LoanStatus::Active,
        index: protocol_state.total_loans_created,
        bump: loan_bump,
    };
    *protocol_state = ps;
    *token_config = tc;
    *user_exposure = ue;
    Ok(loan)
}

/// Repays an active loan: principal plus the flat fee. On success the loan
/// is `Repaid` and the caller makes the transfers the settlement lists.
pub fn repay_loan_handler(
    protocol_state: &mut ProtocolState,
    token_config: &mut TokenConfig,
    user_exposure: &mut UserExposure,
    loan: &mut Loan,
    caller: &Pubkey,
    caller_balance: u64,
) -> (r: Result<RepaySettlement, LendingError>)
    ensures
        r == repay_spec(
            *old(protocol_state),
            *old(token_config),
            *old(user_exposure),
            *old(loan),
            *caller,
            caller_balance,
        ),
        r is Err ==> *final(protocol_state) == *old(protocol_state) && *final(token_config) == *old(
            token_config,
        ) && *final(user_exposure) == *old(user_exposure) && *final(loan) == *old(loan),
        r matches Ok(s) ==> {
            &&& *final(loan) == (Loan { status: LoanStatus::Repaid, ..*old(loan) })
            &&& close_counters_spec(
                *old(protocol_state),
                *old(token_config),
                *old(user_exposure),
                old(loan).sol_borrowed,
                s.protocol_fee,
                true,
            ) == Ok::<(ProtocolState, TokenConfig, UserExposure), LendingError>(
                (*final(protocol_state), *final(token_config), *final(user_exposure)),
            )
            &&& s.treasury_amount + s.staking_amount + s.operations_amount == s.principal
                + s.protocol_fee
            &&& s.treasury_amount >= s.principal
            &&& s.principal == old(loan).sol_borrowed
        },
{
    if loan.status != LoanStatus::Active {
        return Err(LendingError::LoanAlreadyRepaid);
    }
    if protocol_state.reentrancy_guard {
        return Err(LendingError::ReentrancyDetected);
    }
    if protocol_state.paused {
        return Err(LendingError::ProtocolPaused);
    }
    if !caller.same(&loan.borrower) {
        return Err(LendingError::Unauthorized);
    }
    let sol_borrowed = loan.sol_borrowed;
    let protocol_fee = match SafeMath::mul_div(
        sol_borrowed,
        protocol_state.protocol_fee_bps as u64,
        BPS_DIVISOR,
    ) {
        Ok(f) => f,
        Err(e) => return Err(e),
    };
    let total_owed = match SafeMath::add(sol_borrowed, protocol_fee) {
        Ok(t) => t,
        Err(e) => return Err(e),
    };
    if caller_balance < total_owed {
        return Err(LendingError::InsufficientTreasuryBalance);
    }
    let (ps, tc, ue) = match close_counters(
        protocol_state,
        token_config,
        user_exposure,
        sol_borrowed,
        protocol_fee,
        true,
    ) {
        Ok(c) => c,
        Err(e) => return Err(e),
    };
    let treasury_fee = bps_share(protocol_fee, LOAN_FEE_TREASURY_BPS);
    let staking_fee = bps_share(protocol_fee, LOAN_FEE_STAKING_BPS);
    let operations_fee = bps_share(protocol_fee, LOAN_FEE_OPERATIONS_BPS);
    let dust: u64 = protocol_fee - treasury_fee - staking_fee - operations_fee;
    let settlement = RepaySettlement {
        principal: sol_borrowed,
        protocol_fee,
        treasury_amount: sol_borrowed + treasury_fee + dust,
        staking_amount: staking_fee,
        operations_amount: operations_fee,
        collateral_returned: loan.collateral_amount,
    };
    proof {
        crate::laws::lemma_repay_restores_principal(
            *old(protocol_state),
            *old(token_config),
            *old(user_exposure),
            *old(loan),
            *caller,
            caller_balance,
        );
    }
    loan.status = LoanStatus::Repaid;
    *protocol_state = ps;
    *token_config = tc;
    *user_exposure = ue;
    Ok(settlement)
}

/// First half of a liquidation: checks that the loan may be liquidated and
/// that the liquidator's minimum output is within 5% of the oracle's value,
/// records the reason on the loan (price before time) and takes the
/// reentrancy guard, which `settle_liquidation` releases after the swap.
pub fn liquidate_handler(
    protocol_state: &mut ProtocolState,
    token_config: &TokenConfig,
    loan: &mut Loan,
    caller: &Pubkey,
    pool_data: &[u8],
    now: i64,
    min_sol_output: u64,
    has_swap_route: bool,
) -> (r: Result<LiquidationOrder, LendingError>)
    ensures
        r == liquidate_spec(
            *old(protocol_state),
            *token_config,
            *old(loan),
            *caller,
            pool_data@,
            now,
            min_sol_output,
            has_swap_route,
        ),
        r is Err ==> *final(protocol_state) == *old(protocol_state) && *final(loan) == *old(loan),
        r matches Ok(o) ==> *final(loan) == (Loan { status: o.reason, ..*old(loan) })
            && *final(protocol_state) == (ProtocolState {
            reentrancy_guard: true,
            ..*old(protocol_state)
        }),
{
    if loan.status != LoanStatus::Active {
        return Err(LendingError::LoanAlreadyRepaid);
    }
    if protocol_state.reentrancy_guard {
        return Err(LendingError::ReentrancyDetected);
    }
    if protocol_state.paused {
        return Err(LendingError::ProtocolPaused);
    }
    if !protocol_state.authorized_liquidator.is_default() && !caller.same(
        &protocol_state.authorized_liquidator,
    ) {
        return Err(LendingError::Unauthorized);
    }
    let current_price = match PriceFeedUtils::read_price_from_pool(
        pool_data,
        token_config.pool_type,
        &loan.token_mint,
    ) {
        Ok(p) => p,
        Err(e) => return Err(e),
    };
    let by_time = now > loan.due_at;
    let by_price = current_price <= loan.liquidation_price;
    if !by_time && !by_price {
        return Err(LendingError::LoanNotLiquidatable);
    }
    let expected = match SafeMath::mul_div(loan.collateral_amount, current_price, PRICE_SCALE) {
        Ok(v) => v,
        Err(e) => return Err(e),
    };
    let min_acceptable = match SafeMath::mul_div(
        expected,
        BPS_DIVISOR - MAX_LIQUIDATION_SLIPPAGE_BPS,
        BPS_DIVISOR,
    ) {
        Ok(v) => v,
        Err(e) => return Err(e),
    };
    if min_sol_output < min_acceptable {
        return Err(LendingError::SlippageTooHigh);
    }
    if token_config.pool_type == PoolType::Pumpfun {
        return Err(LendingError::FeatureTemporarilyDisabled);
    }
    if !has_swap_route {
        return Err(LendingError::MissingJupiterSwapData);
    }
    let reason = if by_price {
        LoanStatus::LiquidatedPrice
    } else {
        LoanStatus::LiquidatedTime
    };
    loan.status = reason;
    protocol_state.reentrancy_guard = true;
    Ok(
        LiquidationOrder {
            reason,
            collateral_amount: loan.collateral_amount,
            expected_sol_value: expected,
            min_sol_output,
        },
    )
}

/// Second half of a liquidation: measures the swap's proceeds from the
/// vault's balance before and after, checks them against the minimum,
/// splits them 95/5 between treasury and operations, closes the loan's
/// counters and releases the reentrancy guard.
pub fn settle_liquidation(
    protocol_state: &mut ProtocolState,
    token_config: &mut TokenConfig,
    user_exposure: &mut UserExposure,
    loan: &Loan,
    sol_before: u64,
    sol_after: u64,
    min_sol_output: u64,
) -> (r: Result<LiquidationSettlement, LendingError>)
    ensures
        r == settle_liquidation_spec(
            *old(protocol_state),
            *old(token_config),
            *old(user_exposure),
            *loan,
            sol_before,
            sol_after,
            min_sol_output,
        ),
        r is Err ==> *final(protocol_state) == *old(protocol_state) && *final(token_config) == *old(
            token_config,
        ) && *final(user_exposure) == *old(user_exposure),
        r matches Ok(s) ==> {
            &&& s.treasury_share + s.operations_share == s.sol_proceeds
            &&& s.sol_proceeds >= min_sol_output
            &&& !final(protocol_state).reentrancy_guard
            &&& close_counters_spec(
                *old(protocol_state),
                *old(token_config),
                *old(user_exposure),
                loan.sol_borrowed,
                s.treasury_share,
                false,
            ) matches Ok((ps2, tc2, ue2))
            &&& *final(protocol_state) == (ProtocolState { reentrancy_guard: false, ..ps2 })
            &&& *final(token_config) == tc2
            &&& *final(user_exposure) == ue2
        },
{
    if loan.status != LoanStatus::LiquidatedTime && loan.status != LoanStatus::LiquidatedPrice {
        return Err(LendingError::LoanNotLiquidatable);
    }
    if sol_after < sol_before {
        return Err(LendingError::MathUnderflow);
    }
    let sol_proceeds = sol_after - sol_before;
    if sol_proceeds < min_sol_output {
        return Err(LendingError::SlippageExceeded);
    }
    let operations_share = bps_share(sol_proceeds, LIQUIDATION_OPERATIONS_BPS);
    let treasury_share: u64 = sol_proceeds - operations_share;
    let (ps, tc, ue) = match close_counters(
        protocol_state,
        token_config,
        user_exposure,
        loan.sol_borrowed,
        treasury_share,
        false,
    ) {
        Ok(c) => c,
        Err(e) => return Err(e),
    };
    *protocol_state = ProtocolState { reentrancy_guard: false, ..ps };
    *token_config = tc;
    *user_exposure = ue;
    Ok(LiquidationSettlement { sol_proceeds, treasury_share, operations_share })
}

} // verus!
