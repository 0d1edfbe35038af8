//! Properties that hold across calls of the protocol's operations.
use vstd::prelude::*;

use crate::error::LendingError;
use crate::guard::{MAX_TOKEN_EXPOSURE_BPS, MAX_USER_EXPOSURE_BPS};
use crate::lending::{
    cap_of, create_loan_spec, liquidate_spec, loan_terms_spec, open_counters_spec, repay_spec,
};
use crate::pubkey::Pubkey;
use crate::staking::{
    accrued_spec, advance_until_spec, next_epoch_spec, reward_increment, StakingPool, UserStake,
};
use crate::state::{Loan, LoanStatus, ProtocolState, TokenConfig, UserExposure, REWARD_PRECISION};

verus! {

/// A loan never lends more than the treasury holds when it opens: the
/// principal outstanding over all loans, this one included, stays within
/// the treasury balance at that moment, and what is lent against its token
/// and to its borrower stays within 10% and 30% of it.
pub proof fn lemma_open_loan_is_covered(
    ps: ProtocolState,
    tc: TokenConfig,
    ue: UserExposure,
    borrower: Pubkey,
    borrower_token_balance: u64,
    pool_data: Seq<u8>,
    treasury_balance: u64,
    collateral_amount: u64,
    duration_seconds: u64,
    now: i64,
    loan_bump: u8,
)
    requires
        create_loan_spec(
            ps,
            tc,
            ue,
            borrower,
            borrower_token_balance,
            pool_data,
            treasury_balance,
            collateral_amount,
            duration_seconds,
            now,
            loan_bump,
        ) is Ok,
    ensures
        ({
            let loan = create_loan_spec(
                ps,
                tc,
                ue,
                borrower,
                borrower_token_balance,
                pool_data,
                treasury_balance,
                collateral_amount,
                duration_seconds,
                now,
                loan_bump,
            ).unwrap();
            &&& loan.sol_borrowed <= treasury_balance
            &&& open_counters_spec(ps, tc, ue, loan.sol_borrowed) matches Ok((ps2, tc2, ue2))
            &&& tc2.total_active_borrowed <= cap_of(treasury_balance, MAX_TOKEN_EXPOSURE_BPS)
            &&& ue2.total_borrowed <= cap_of(treasury_balance, MAX_USER_EXPOSURE_BPS)
            &&& tc2.total_active_borrowed <= treasury_balance
            &&& ps2.total_sol_borrowed == ps.total_sol_borrowed + loan.sol_borrowed
            &&& ps.total_sol_borrowed + loan.sol_borrowed <= treasury_balance
            &&& !ps.reentrancy_guard
        }),
{
    let t = loan_terms_spec(
        tc,
        ue,
        pool_data,
        treasury_balance,
        collateral_amount,
        duration_seconds,
        now,
    );
    assert(t is Ok);
    assert(cap_of(treasury_balance, MAX_TOKEN_EXPOSURE_BPS) <= treasury_balance) by (
    nonlinear_arith)
        requires
            cap_of(treasury_balance, MAX_TOKEN_EXPOSURE_BPS) == (treasury_balance as int) * 1000
                / 10000,
            treasury_balance >= 0,
    ;
}

/// A repayment sends the treasury at least the principal back, so settling
/// a loan never leaves the treasury below where it stood before the loan.
pub proof fn lemma_repay_restores_principal(
    ps: ProtocolState,
    tc: TokenConfig,
    ue: UserExposure,
    loan: Loan,
    caller: Pubkey,
    caller_balance: u64,
)
    requires
        repay_spec(ps, tc, ue, loan, caller, caller_balance) is Ok,
    ensures
        ({
            let s = repay_spec(ps, tc, ue, loan, caller, caller_balance).unwrap();
            &&& s.principal == loan.sol_borrowed
            &&& s.treasury_amount >= s.principal
            &&& s.treasury_amount + s.staking_amount + s.operations_amount == s.principal
                + s.protocol_fee
            &&& caller_balance >= s.principal + s.protocol_fee
        }),
{
    let fee = crate::math::spec_mul_div(loan.sol_borrowed, ps.protocol_fee_bps as u64, 10000);
    let f = fee.unwrap() as int;
    assert(f * 5000 / 10000 + f * 2500 / 10000 + f * 2500 / 10000 <= f) by (nonlinear_arith)
        requires
            f >= 0,
    ;
}

/// Once a loan has left `Active`, every further repayment or liquidation
/// of it fails as already closed, whatever else holds.
pub proof fn lemma_closed_loan_is_final(
    ps: ProtocolState,
    tc: TokenConfig,
    ue: UserExposure,
    loan: Loan,
    caller: Pubkey,
    caller_balance: u64,
    pool_data: Seq<u8>,
    now: i64,
    min_sol_output: u64,
    has_swap_route: bool,
)
    requires
        loan.status != LoanStatus::Active,
    ensures
        repay_spec(ps, tc, ue, loan, caller, caller_balance) == Err::<
            crate::lending::RepaySettlement,
            LendingError,
        >(LendingError::LoanAlreadyRepaid),
        liquidate_spec(ps, tc, loan, caller, pool_data, now, min_sol_output, has_swap_route)
            == Err::<crate::lending::LiquidationOrder, LendingError>(
            LendingError::LoanAlreadyRepaid,
        ),
{
}

/// The reward a staker is owed is `pending_of` their stake over the growth
/// of the accumulator since their snapshot, the quantity the conservation
/// laws below sum over stakers.
pub proof fn lemma_accrued_is_pending_of(u: UserStake, p: StakingPool)
    requires
        u.snapshot_initialized,
        p.reward_per_token_accumulated >= u.reward_per_token_snapshot,
        (u.staked_amount as int) * (p.reward_per_token_accumulated - u.reward_per_token_snapshot)
            <= u128::MAX,
        pending_of(
            u.staked_amount,
            p.reward_per_token_accumulated - u.reward_per_token_snapshot,
        ) <= u64::MAX,
    ensures
        accrued_spec(u, p) == Ok::<u64, LendingError>(
            pending_of(
                u.staked_amount,
                p.reward_per_token_accumulated - u.reward_per_token_snapshot,
            ) as u64,
        ),
{
    if u.staked_amount == 0 {
        assert(pending_of(0, p.reward_per_token_accumulated - u.reward_per_token_snapshot) == 0);
    }
}

/// An epoch boundary with eligible stake and rewards grows the accumulator
/// by exactly `reward_increment`, the step `total_increment` adds up.
pub proof fn lemma_next_epoch_increment(p: StakingPool)
    requires
        next_epoch_spec(p) is Ok,
        p.current_epoch_eligible_stake > 0,
        p.current_epoch_rewards > 0,
    ensures
        next_epoch_spec(p).unwrap().reward_per_token_accumulated == p.reward_per_token_accumulated
            + reward_increment(p.current_epoch_rewards, p.current_epoch_eligible_stake),
{
}

/// The reward accumulator never decreases across an epoch boundary.
pub proof fn lemma_next_epoch_keeps_accumulator(p: StakingPool)
    requires
        next_epoch_spec(p) is Ok,
    ensures
        next_epoch_spec(p).unwrap().reward_per_token_accumulated >= p.reward_per_token_accumulated,
{
    if p.current_epoch_eligible_stake > 0 && p.current_epoch_rewards > 0 {
        assert(reward_increment(p.current_epoch_rewards, p.current_epoch_eligible_stake) >= 0)
            by (nonlinear_arith)
            requires
                p.current_epoch_eligible_stake > 0,
                p.current_epoch_rewards >= 0,
        ;
    }
}

/// The reward accumulator never decreases, however many epochs pass.
pub proof fn lemma_accumulator_monotone(p: StakingPool, now: i64)
    requires
        advance_until_spec(p, now) is Ok,
    ensures
        advance_until_spec(p, now).unwrap().reward_per_token_accumulated
            >= p.reward_per_token_accumulated,
    decreases now - p.epoch_start_time,
{
    if p.epoch_duration > 0 && now >= p.epoch_start_time + p.epoch_duration {
        lemma_next_epoch_keeps_accumulator(p);
        let q = next_epoch_spec(p).unwrap();
        lemma_accumulator_monotone(q, now);
    }
}

pub open spec fn sum_of(s: Seq<u64>) -> int
    decreases s.len(),
{
    if s.len() == 0 {
        0
    } else {
        sum_of(s.drop_last()) + s.last()
    }
}

/// Accumulator growth over a run of epochs with `eligible` stake each.
pub open spec fn total_increment(rewards: Seq<u64>, eligible: u64) -> int
    decreases rewards.len(),
{
    if rewards.len() == 0 {
        0
    } else {
        total_increment(rewards.drop_last(), eligible) + reward_increment(rewards.last(), eligible)
    }
}

/// Pending reward of a stake over an accumulator growth of `delta`.
pub open spec fn pending_of(stake: u64, delta: int) -> int {
    (stake as int) * delta / (REWARD_PRECISION as int)
}

pub open spec fn sum_pending(stakes: Seq<u64>, delta: int) -> int
    decreases stakes.len(),
{
    if stakes.len() == 0 {
        0
    } else {
        sum_pending(stakes.drop_last(), delta) + pending_of(stakes.last(), delta)
    }
}

pub open spec fn sum_weighted(stakes: Seq<u64>, delta: int) -> int
    decreases stakes.len(),
{
    if stakes.len() == 0 {
        0
    } else {
        sum_weighted(stakes.drop_last(), delta) + (stakes.last() as int) * delta
    }
}

proof fn lemma_total_increment_bound(rewards: Seq<u64>, eligible: u64)
    requires
        eligible > 0,
    ensures
        0 <= total_increment(rewards, eligible),
        (eligible as int) * total_increment(rewards, eligible) <= (REWARD_PRECISION as int)
            * sum_of(rewards),
    decreases rewards.len(),
{
    if rewards.len() > 0 {
        lemma_total_increment_bound(rewards.drop_last(), eligible);
        let r = rewards.last();
        let prev = total_increment(rewards.drop_last(), eligible);
        let inc = reward_increment(r, eligible);
        assert(0 <= inc && (eligible as int) * inc <= (REWARD_PRECISION as int) * r) by (
        nonlinear_arith)
            requires
                eligible > 0,
                r >= 0,
                inc == (r as int) * (REWARD_PRECISION as int) / (eligible as int),
        ;
        assert((eligible as int) * (prev + inc) == (eligible as int) * prev + (eligible as int)
            * inc) by (nonlinear_arith);
    }
}

proof fn lemma_sum_pending_bound(stakes: Seq<u64>, delta: int)
    requires
        delta >= 0,
    ensures
        sum_pending(stakes, delta) * (REWARD_PRECISION as int) <= sum_weighted(stakes, delta),
        sum_weighted(stakes, delta) == sum_of(stakes) * delta,
    decreases stakes.len(),
{
    if stakes.len() > 0 {
        lemma_sum_pending_bound(stakes.drop_last(), delta);
        let s = stakes.last();
        let a = sum_pending(stakes.drop_last(), delta);
        let b = pending_of(s, delta);
        assert(b * (REWARD_PRECISION as int) <= (s as int) * delta) by (nonlinear_arith)
            requires
                b == (s as int) * delta / (REWARD_PRECISION as int),
                s >= 0,
                delta >= 0,
        ;
        assert((a + b) * (REWARD_PRECISION as int) == a * (REWARD_PRECISION as int) + b * (
        REWARD_PRECISION as int)) by (nonlinear_arith);
        assert((sum_of(stakes.drop_last()) + s) * delta == sum_of(stakes.drop_last()) * delta + (
        s as int) * delta) by (nonlinear_arith);
    }
}

proof fn lemma_total_increment_lower(rewards: Seq<u64>, eligible: u64)
    requires
        eligible > 0,
    ensures
        (eligible as int) * total_increment(rewards, eligible) + (rewards.len() as int) * (
        eligible as int) >= (REWARD_PRECISION as int) * sum_of(rewards),
    decreases rewards.len(),
{
    if rewards.len() > 0 {
        lemma_total_increment_lower(rewards.drop_last(), eligible);
        let r = rewards.last();
        let prev = total_increment(rewards.drop_last(), eligible);
        let inc = reward_increment(r, eligible);
        assert((eligible as int) * inc + (eligible as int) >= (REWARD_PRECISION as int) * r) by (
        nonlinear_arith)
            requires
                eligible > 0,
                r >= 0,
                inc == (r as int) * (REWARD_PRECISION as int) / (eligible as int),
        ;
        assert((eligible as int) * (prev + inc) == (eligible as int) * prev + (eligible as int)
            * inc) by (nonlinear_arith);
        assert(((rewards.len() - 1) as int) * (eligible as int) + (eligible as int) == (
        rewards.len() as int) * (eligible as int)) by (nonlinear_arith);
    }
}

proof fn lemma_sum_pending_lower(stakes: Seq<u64>, delta: int)
    requires
        delta >= 0,
    ensures
        (sum_pending(stakes, delta) + stakes.len()) * (REWARD_PRECISION as int) >= sum_weighted(
            stakes,
            delta,
        ),
    decreases stakes.len(),
{
    if stakes.len() > 0 {
        lemma_sum_pending_lower(stakes.drop_last(), delta);
        let s = stakes.last();
        let a = sum_pending(stakes.drop_last(), delta);
        let b = pending_of(s, delta);
        let n = stakes.len() as int;
        assert((b + 1) * (REWARD_PRECISION as int) >= (s as int) * delta) by (nonlinear_arith)
            requires
                b == (s as int) * delta / (REWARD_PRECISION as int),
                s >= 0,
                delta >= 0,
        ;
        assert((a + b + n) * (REWARD_PRECISION as int) == (a + (n - 1)) * (REWARD_PRECISION as int)
            + (b + 1) * (REWARD_PRECISION as int)) by (nonlinear_arith);
    }
}

/// With every staker eligible from the same snapshot and no claims, the
/// rewards owed after `N` epochs, summed over the `n` stakers, fall short
/// of what those epochs distributed by rounding alone: less than
/// `N * eligible / PRECISION + n`.
pub proof fn lemma_pending_covers_distributed_up_to_rounding(stakes: Seq<u64>, rewards: Seq<u64>)
    requires
        0 < sum_of(stakes) <= u64::MAX,
    ensures
        (REWARD_PRECISION as int) * (sum_pending(stakes, total_increment(rewards, sum_of(stakes) as u64))
            + stakes.len()) + (rewards.len() as int) * sum_of(stakes) >= (REWARD_PRECISION as int)
            * sum_of(rewards),
{
    let e = sum_of(stakes) as u64;
    let delta = total_increment(rewards, e);
    lemma_total_increment_bound(rewards, e);
    lemma_total_increment_lower(rewards, e);
    lemma_sum_pending_bound(stakes, delta);
    lemma_sum_pending_lower(stakes, delta);
    let sp = sum_pending(stakes, delta);
    assert((REWARD_PRECISION as int) * (sp + stakes.len()) == (sp + stakes.len()) * (
    REWARD_PRECISION as int)) by (nonlinear_arith);
}

/// With every staker eligible from the same snapshot and no claims, the
/// rewards they are owed after a run of epochs, summed over the stakers,
/// never exceed what those epochs distributed.
pub proof fn lemma_pending_never_exceeds_distributed(stakes: Seq<u64>, rewards: Seq<u64>)
    requires
        0 < sum_of(stakes) <= u64::MAX,
    ensures
        sum_pending(stakes, total_increment(rewards, sum_of(stakes) as u64)) <= sum_of(rewards),
{
    let e = sum_of(stakes) as u64;
    let delta = total_increment(rewards, e);
    lemma_total_increment_bound(rewards, e);
    lemma_sum_pending_bound(stakes, delta);
    let sp = sum_pending(stakes, delta);
    let sr = sum_of(rewards);
    assert(sp <= sr) by (nonlinear_arith)
        requires
            sp * (REWARD_PRECISION as int) <= (e as int) * delta,
            (e as int) * delta <= (REWARD_PRECISION as int) * sr,
            REWARD_PRECISION > 0,
    ;
}

} // verus!
