use vstd::prelude::*;

use crate::error::LendingError;
use crate::loan_calc::{MAX_LOAN_DURATION, MIN_LOAN_DURATION};
use crate::math::{spec_add, spec_mul_div, SafeMath, BPS_DIVISOR};
use crate::pubkey::Pubkey;
use crate::state::{Loan, ProtocolState};

verus! {

/// Largest single loan, in basis points of the treasury balance.
pub const MAX_SINGLE_LOAN_BPS: u64 = 1000;

/// Largest amount lent against one token, in basis points of the treasury.
pub const MAX_TOKEN_EXPOSURE_BPS: u64 = 1000;

/// Largest amount lent to one user, in basis points of the treasury.
pub const MAX_USER_EXPOSURE_BPS: u64 = 3000;

/// Smallest collateral value accepted, in lamports.
pub const MIN_COLLATERAL_VALUE_LAMPORTS: u64 = 10_000_000;

/// The flag that keeps an instruction from being re-entered while it waits
/// on an external program.
pub struct ReentrancyGuard;

impl ReentrancyGuard {
    pub fn enter(protocol_state: &mut ProtocolState) -> (r: Result<(), LendingError>)
        ensures
            old(protocol_state).reentrancy_guard ==> r == Err::<(), LendingError>(
                LendingError::ReentrancyDetected,
            ) && *final(protocol_state) == *old(protocol_state),
            !old(protocol_state).reentrancy_guard ==> r is Ok && *final(protocol_state) == (
            ProtocolState { reentrancy_guard: true, ..*old(protocol_state) }),
    {
        if protocol_state.reentrancy_guard {
            return Err(LendingError::ReentrancyDetected);
        }
        protocol_state.reentrancy_guard = true;
        Ok(())
    }

    pub fn exit(protocol_state: &mut ProtocolState)
        ensures
            *final(protocol_state) == (ProtocolState {
                reentrancy_guard: false,
                ..*old(protocol_state)
            }),
    {
        protocol_state.reentrancy_guard = false;
    }
}

/// Checks on loans and accounts.
pub struct ValidationUtils;

impl ValidationUtils {
    pub fn validate_loan_duration(duration_seconds: u64) -> (r: Result<(), LendingError>)
        ensures
            r is Ok <==> MIN_LOAN_DURATION <= duration_seconds <= MAX_LOAN_DURATION,
            r is Err ==> r == Err::<(), LendingError>(LendingError::InvalidLoanDuration),
    {
        if duration_seconds < MIN_LOAN_DURATION {
            return Err(LendingError::InvalidLoanDuration);
        }
        if duration_seconds > MAX_LOAN_DURATION {
            return Err(LendingError::InvalidLoanDuration);
        }
        Ok(())
    }

    /// Past its due time.
    pub fn is_loan_liquidatable_by_time(loan: &Loan, current_time: i64) -> (r: bool)
        ensures
            r == (current_time > loan.due_at),
    {
        current_time > loan.due_at
    }

    /// At or below its trigger price; the boundary counts.
    pub fn is_loan_liquidatable_by_price(loan: &Loan, current_price: u64) -> (r: bool)
        ensures
            r == (current_price <= loan.liquidation_price),
    {
        current_price <= loan.liquidation_price
    }

    pub fn validate_token_account_owner(token_account_owner: &Pubkey, expected_owner: &Pubkey) -> (r:
        Result<(), LendingError>)
        ensures
            token_account_owner@ == expected_owner@ ==> r is Ok,
            token_account_owner@ != expected_owner@ ==> r == Err::<(), LendingError>(
                LendingError::InvalidTokenAccountOwner,
            ),
    {
        if !token_account_owner.same(expected_owner) {
            return Err(LendingError::InvalidTokenAccountOwner);
        }
        Ok(())
    }

    pub fn validate_token_balance(token_account_amount: u64, required_amount: u64) -> (r: Result<
        (),
        LendingError,
    >)
        ensures
            token_account_amount >= required_amount ==> r is Ok,
            token_account_amount < required_amount ==> r == Err::<(), LendingError>(
                LendingError::InsufficientTokenBalance,
            ),
    {
        if token_account_amount < required_amount {
            return Err(LendingError::InsufficientTokenBalance);
        }
        Ok(())
    }
}

/// Caps expressed as a share of the treasury.
pub struct ExposureCalculator;

impl ExposureCalculator {
    pub fn calculate_max_exposure(treasury_balance: u64, limit_bps: u64) -> (r: Result<
        u64,
        LendingError,
    >)
        ensures
            r == spec_mul_div(treasury_balance, limit_bps, BPS_DIVISOR),
    {
        SafeMath::mul_div(treasury_balance, limit_bps, BPS_DIVISOR)
    }

    pub fn would_exceed_limit(current_exposure: u64, new_amount: u64, max_exposure: u64) -> (r:
        Result<bool, LendingError>)
        ensures
            spec_add(current_exposure, new_amount) is Err ==> r == Err::<bool, LendingError>(
                LendingError::MathOverflow,
            ),
            spec_add(current_exposure, new_amount) is Ok ==> r == Ok::<bool, LendingError>(
                current_exposure + new_amount > max_exposure,
            ),
    {
        let new_total = match SafeMath::add(current_exposure, new_amount) {
            Ok(t) => t,
            Err(e) => return Err(e),
        };
        Ok(new_total > max_exposure)
    }

    pub fn remaining_capacity(current_exposure: u64, max_exposure: u64) -> (r: Result<
        u64,
        LendingError,
    >)
        ensures
            current_exposure >= max_exposure ==> r == Ok::<u64, LendingError>(0),
            current_exposure < max_exposure ==> r == Ok::<u64, LendingError>(
                (max_exposure - current_exposure) as u64,
            ),
    {
        if current_exposure >= max_exposure {
            return Ok(0);
        }
        SafeMath::sub(max_exposure, current_exposure)
    }
}

} // verus!
