use vstd::prelude::*;

use crate::error::LendingError;
use crate::pubkey::Pubkey;
use crate::staking::{
    accrued_spec, advance_until_spec, calculate_pending_rewards, maybe_advance_epoch,
    maybe_initialize_user_snapshot, next_epoch_spec, with_snapshot_spec, StakingPool, UserStake,
    MAX_EPOCH_DURATION, MIN_EPOCH_DURATION,
};

verus! {

pub open spec fn sat_sub(a: u64, b: u64) -> u64 {
    if a >= b {
        (a - b) as u64
    } else {
        0
    }
}

/// Whether the user's stake was part of the current epoch's eligible stake.
pub open spec fn counted_in_epoch(u: UserStake, p: StakingPool) -> bool {
    u.staked_amount > 0 && u.stake_start_epoch < p.current_epoch
}

/// Outcome of staking `amount` more. Adding to a stake restarts its
/// eligibility: what it earned so far is kept as pending, and the whole
/// stake earns again from the next epoch.
pub open spec fn stake_spec(
    pool: StakingPool,
    user: UserStake,
    owner: Pubkey,
    pool_key: Pubkey,
    amount: u64,
    now: i64,
) -> Result<(StakingPool, UserStake), LendingError> {
    if amount == 0 {
        Err(LendingError::InvalidAmount)
    } else if pool.paused {
        Err(LendingError::StakingPaused)
    } else if !user.owner.is_zero_spec() && user.owner@ != owner@ {
        Err(LendingError::Unauthorized)
    } else {
        match advance_until_spec(pool, now) {
            Err(e) => Err(e),
            Ok(p) => {
                let u = with_snapshot_spec(user, p);
                match accrued_spec(u, p) {
                    Err(e) => Err(e),
                    Ok(acc) => if u.pending_rewards + acc > u64::MAX || u.staked_amount + amount
                        > u64::MAX || p.total_staked + amount > u64::MAX {
                        Err(LendingError::MathOverflow)
                    } else {
                        let fresh = user.owner.is_zero_spec();
                        Ok(
                            (
                                StakingPool {
                                    total_staked: (p.total_staked + amount) as u64,
                                    current_epoch_eligible_stake: if counted_in_epoch(u, p) {
                                        sat_sub(p.current_epoch_eligible_stake, u.staked_amount)
                                    } else {
                                        p.current_epoch_eligible_stake
                                    },
                                    ..p
                                },
                                UserStake {
                                    owner,
                                    pool: if fresh {
                                        pool_key
                                    } else {
                                        u.pool
                                    },
                                    stake_timestamp: if fresh {
                                        now
                                    } else {
                                        u.stake_timestamp
                                    },
                                    staked_amount: (u.staked_amount + amount) as u64,
                                    stake_start_epoch: p.current_epoch,
                                    reward_per_token_snapshot: 0,
                                    snapshot_initialized: false,
                                    pending_rewards: (u.pending_rewards + acc) as u64,
                                    ..u
                                },
                            ),
                        )
                    },
                }
            },
        }
    }
}

/// Outcome of withdrawing `amount` of stake. A full exit clears the
/// eligibility; a partial one keeps it.
pub open spec fn unstake_spec(
    pool: StakingPool,
    user: UserStake,
    owner: Pubkey,
    amount: u64,
    now: i64,
) -> Result<(StakingPool, UserStake), LendingError> {
    if amount == 0 {
        Err(LendingError::InvalidAmount)
    } else if user.owner@ != owner@ {
        Err(LendingError::Unauthorized)
    } else if amount > user.staked_amount {
        Err(LendingError::InsufficientStakeBalance)
    } else {
        match advance_until_spec(pool, now) {
            Err(e) => Err(e),
            Ok(p) => {
                let u = with_snapshot_spec(user, p);
                match accrued_spec(u, p) {
                    Err(e) => Err(e),
                    Ok(acc) => if u.pending_rewards + acc > u64::MAX {
                        Err(LendingError::MathOverflow)
                    } else if p.total_staked < amount {
                        Err(LendingError::MathUnderflow)
                    } else {
                        let remaining = (u.staked_amount - amount) as u64;
                        Ok(
                            (
                                StakingPool {
                                    total_staked: (p.total_staked - amount) as u64,
                                    current_epoch_eligible_stake: if counted_in_epoch(u, p) {
                                        sat_sub(p.current_epoch_eligible_stake, amount)
                                    } else {
                                        p.current_epoch_eligible_stake
                                    },
                                    ..p
                                },
                                if remaining == 0 {
                                    UserStake {
                                        staked_amount: 0,
                                        stake_start_epoch: 0,
                                        reward_per_token_snapshot: 0,
                                        snapshot_initialized: false,
                                        pending_rewards: (u.pending_rewards + acc) as u64,
                                        ..u
                                    }
                                } else {
                                    UserStake {
                                        staked_amount: remaining,
                                        reward_per_token_snapshot: if u.snapshot_initialized {
                                            p.reward_per_token_accumulated
                                        } else {
                                            u.reward_per_token_snapshot
                                        },
                                        pending_rewards: (u.pending_rewards + acc) as u64,
                                        ..u
                                    }
                                },
                            ),
                        )
                    },
                }
            },
        }
    }
}

/// Outcome of a claim: the user is paid what they are owed, or what the
/// vault holds if that is less; the rest stays pending.
pub open spec fn claim_spec(
    pool: StakingPool,
    user: UserStake,
    owner: Pubkey,
    vault_balance: u64,
    now: i64,
) -> Result<(StakingPool, UserStake, u64), LendingError> {
    if user.owner@ != owner@ {
        Err(LendingError::Unauthorized)
    } else if pool.push_distribution {
        Err(LendingError::FeatureTemporarilyDisabled)
    } else {
        match advance_until_spec(pool, now) {
            Err(e) => Err(e),
            Ok(p) => {
                let u = with_snapshot_spec(user, p);
                match accrued_spec(u, p) {
                    Err(e) => Err(e),
                    Ok(acc) => if u.pending_rewards + acc > u64::MAX {
                        Err(LendingError::MathOverflow)
                    } else if u.pending_rewards + acc == 0 {
                        Err(LendingError::NoRewardsToClaim)
                    } else {
                        let owed = (u.pending_rewards + acc) as u64;
                        let payout = if owed <= vault_balance {
                            owed
                        } else {
                            vault_balance
                        };
                        if p.total_rewards_distributed + payout > u64::MAX
                            || u.total_rewards_claimed + payout > u64::MAX {
                            Err(LendingError::MathOverflow)
                        } else {
                            Ok(
                                (
                                    StakingPool {
                                        total_rewards_distributed: (p.total_rewards_distributed
                                            + payout) as u64,
                                        ..p
                                    },
                                    UserStake {
                                        pending_rewards: (owed - payout) as u64,
                                        reward_per_token_snapshot: if u.snapshot_initialized {
                                            p.reward_per_token_accumulated
                                        } else {
                                            u.reward_per_token_snapshot
                                        },
                                        last_claimed_epoch: p.current_epoch,
                                        total_rewards_claimed: (u.total_rewards_claimed
                                            + payout) as u64,
                                        ..u
                                    },
                                    payout,
                                ),
                            )
                        }
                    },
                }
            },
        }
    }
}

/// Advances the pool to `now` and takes the user's snapshot if due.
fn catch_up(pool: &mut StakingPool, user: &mut UserStake, now: i64) -> (r: Result<
    u64,
    LendingError,
>)
    ensures
        r is Err ==> *final(pool) == *old(pool) && *final(user) == *old(user),
        match advance_until_spec(*old(pool), now) {
            Err(e) => r == Err::<u64, LendingError>(e),
            Ok(p) => {
                &&& r is Ok ==> *final(pool) == p && *final(user) == with_snapshot_spec(
                    *old(user),
                    p,
                )
                &&& r == accrued_spec(with_snapshot_spec(*old(user), p), p)
            },
        },
        old(pool).wf() ==> final(pool).wf(),
{
    let mut p = *pool;
    let mut u = *user;
    match maybe_advance_epoch(&mut p, now) {
        Ok(()) => {},
        Err(e) => return Err(e),
    }
    maybe_initialize_user_snapshot(&mut u, &p);
    let acc = match calculate_pending_rewards(&u, &p) {
        Ok(a) => a,
        Err(e) => return Err(e),
    };
    *pool = p;
    *user = u;
    Ok(acc)
}

/// Stakes `amount`; the caller moves the tokens into the staking vault.
pub fn stake_handler(
    pool: &mut StakingPool,
    user_stake: &mut UserStake,
    owner: &Pubkey,
    pool_key: &Pubkey,
    amount: u64,
    now: i64,
) -> (r: Result<(), LendingError>)
    ensures
        match stake_spec(*old(pool), *old(user_stake), *owner, *pool_key, amount, now) {
            Err(e) => r == Err::<(), LendingError>(e) && *final(pool) == *old(pool)
                && *final(user_stake) == *old(user_stake),
            Ok((p, u)) => r is Ok && *final(pool) == p && *final(user_stake) == u,
        },
        old(pool).wf() ==> final(pool).wf(),
{
    if amount == 0 {
        return Err(LendingError::InvalidAmount);
    }
    if pool.paused {
        return Err(LendingError::StakingPaused);
    }
    let fresh = user_stake.owner.is_default();
    if !fresh && !user_stake.owner.same(owner) {
        return Err(LendingError::Unauthorized);
    }
    let mut p = *pool;
    let mut u = *user_stake;
    let acc = match catch_up(&mut p, &mut u, now) {
        Ok(a) => a,
        Err(e) => return Err(e),
    };
    if u.pending_rewards > u64::MAX - acc || u.staked_amount > u64::MAX - amount || p.total_staked
        > u64::MAX - amount {
        return Err(LendingError::MathOverflow);
    }
    if u.staked_amount > 0 && u.stake_start_epoch < p.current_epoch {
        p.current_epoch_eligible_stake = if p.current_epoch_eligible_stake >= u.staked_amount {
            p.current_epoch_eligible_stake - u.staked_amount
        } else {
            0
        };
    }
    p.total_staked = p.total_staked + amount;
    u.owner = *owner;
    if fresh {
        u.pool = *pool_key;
        u.stake_timestamp = now;
    }
    u.staked_amount = u.staked_amount + amount;
    u.stake_start_epoch = p.current_epoch;
    u.reward_per_token_snapshot = 0;
    u.snapshot_initialized = false;
    u.pending_rewards = u.pending_rewards + acc;
    *pool = p;
    *user_stake = u;
    Ok(())
}

/// Withdraws `amount` of stake; the caller moves the tokens back.
pub fn unstake_handler(
    pool: &mut StakingPool,
    user_stake: &mut UserStake,
    owner: &Pubkey,
    amount: u64,
    now: i64,
) -> (r: Result<(), LendingError>)
    ensures
        match unstake_spec(*old(pool), *old(user_stake), *owner, amount, now) {
            Err(e) => r == Err::<(), LendingError>(e) && *final(pool) == *old(pool)
                && *final(user_stake) == *old(user_stake),
            Ok((p, u)) => r is Ok && *final(pool) == p && *final(user_stake) == u,
        },
        old(pool).wf() ==> final(pool).wf(),
{
    if amount == 0 {
        return Err(LendingError::InvalidAmount);
    }
    if !user_stake.owner.same(owner) {
        return Err(LendingError::Unauthorized);
    }
    if amount > user_stake.staked_amount {
        return Err(LendingError::InsufficientStakeBalance);
    }
    let mut p = *pool;
    let mut u = *user_stake;
    let acc = match catch_up(&mut p, &mut u, now) {
        Ok(a) => a,
        Err(e) => return Err(e),
    };
    if u.pending_rewards > u64::MAX - acc {
        return Err(LendingError::MathOverflow);
    }
    if p.total_staked < amount {
        return Err(LendingError::MathUnderflow);
    }
    if u.staked_amount > 0 && u.stake_start_epoch < p.current_epoch {
        p.current_epoch_eligible_stake = if p.current_epoch_eligible_stake >= amount {
            p.current_epoch_eligible_stake - amount
        } else {
            0
        };
    }
    p.total_staked = p.total_staked - amount;
    let remaining = u.staked_amount - amount;
    u.pending_rewards = u.pending_rewards + acc;
    u.staked_amount = remaining;
    if remaining == 0 {
        u.stake_start_epoch = 0;
        u.reward_per_token_snapshot = 0;
        u.snapshot_initialized = false;
    } else if u.snapshot_initialized {
        u.reward_per_token_snapshot = p.reward_per_token_accumulated;
    }
    *pool = p;
    *user_stake = u;
    Ok(())
}

/// Claims the user's rewards; returns the lamports the caller pays out of
/// the reward vault, never more than `vault_balance`.
pub fn claim_rewards_handler(
    pool: &mut StakingPool,
    user_stake: &mut UserStake,
    owner: &Pubkey,
    vault_balance: u64,
    now: i64,
) -> (r: Result<u64, LendingError>)
    ensures
        match claim_spec(*old(pool), *old(user_stake), *owner, vault_balance, now) {
            Err(e) => r == Err::<u64, LendingError>(e) && *final(pool) == *old(pool)
                && *final(user_stake) == *old(user_stake),
            Ok((p, u, payout)) => r == Ok::<u64, LendingError>(payout) && *final(pool) == p
                && *final(user_stake) == u,
        },
        r matches Ok(payout) ==> payout <= vault_balance,
        old(pool).wf() ==> final(pool).wf(),
{
    if !user_stake.owner.same(owner) {
        return Err(LendingError::Unauthorized);
    }
    if pool.push_distribution {
        return Err(LendingError::FeatureTemporarilyDisabled);
    }
    let mut p = *pool;
    let mut u = *user_stake;
    let acc = match catch_up(&mut p, &mut u, now) {
        Ok(a) => a,
        Err(e) => return Err(e),
    };
    if u.pending_rewards > u64::MAX - acc {
        return Err(LendingError::MathOverflow);
    }
    let owed = u.pending_rewards + acc;
    if owed == 0 {
        return Err(LendingError::NoRewardsToClaim);
    }
    let payout = if owed <= vault_balance {
        owed
    } else {
        vault_balance
    };
    if p.total_rewards_distributed > u64::MAX - payout || u.total_rewards_claimed > u64::MAX
        - payout {
        return Err(LendingError::MathOverflow);
    }
    p.total_rewards_distributed = p.total_rewards_distributed + payout;
    u.pending_rewards = owed - payout;
    if u.snapshot_initialized {
        u.reward_per_token_snapshot = p.reward_per_token_accumulated;
    }
    u.last_claimed_epoch = p.current_epoch;
    u.total_rewards_claimed = u.total_rewards_claimed + payout;
    *pool = p;
    *user_stake = u;
    Ok(payout)
}

/// Adds `amount` to the current epoch's rewards; the caller moves the
/// lamports into the reward vault.
pub fn deposit_rewards_handler(pool: &mut StakingPool, amount: u64) -> (r: Result<
    (),
    LendingError,
>)
    ensures
        amount == 0 ==> r == Err::<(), LendingError>(LendingError::InvalidAmount),
        amount > 0 && (old(pool).current_epoch_rewards + amount > u64::MAX
            || old(pool).total_rewards_deposited + amount > u64::MAX) ==> r == Err::<
            (),
            LendingError,
        >(LendingError::MathOverflow),
        r is Err ==> *final(pool) == *old(pool),
        amount > 0 && old(pool).current_epoch_rewards + amount <= u64::MAX && old(
            pool,
        ).total_rewards_deposited + amount <= u64::MAX ==> r is Ok,
        r is Ok ==> *final(pool) == (StakingPool {
            current_epoch_rewards: (old(pool).current_epoch_rewards + amount) as u64,
            total_rewards_deposited: (old(pool).total_rewards_deposited + amount) as u64,
            ..*old(pool)
        }),
        old(pool).wf() ==> final(pool).wf(),
{
    if amount == 0 {
        return Err(LendingError::InvalidAmount);
    }
    if pool.current_epoch_rewards > u64::MAX - amount || pool.total_rewards_deposited > u64::MAX
        - amount {
        return Err(LendingError::MathOverflow);
    }
    pool.current_epoch_rewards = pool.current_epoch_rewards + amount;
    pool.total_rewards_deposited = pool.total_rewards_deposited + amount;
    Ok(())
}

/// Closes the current epoch once its time is up; anyone may call it.
pub fn advance_epoch_handler(pool: &mut StakingPool, now: i64) -> (r: Result<(), LendingError>)
    ensures
        (now as int) < old(pool).epoch_start_time + old(pool).epoch_duration ==> r == Err::<
            (),
            LendingError,
        >(LendingError::EpochNotEnded),
        r is Err ==> *final(pool) == *old(pool),
        r is Ok ==> (now as int) >= old(pool).epoch_start_time + old(pool).epoch_duration
            && next_epoch_spec(*old(pool)) == Ok::<StakingPool, LendingError>(*final(pool)),
        (now as int) >= old(pool).epoch_start_time + old(pool).epoch_duration && next_epoch_spec(
            *old(pool),
        ) is Ok ==> r is Ok,
        old(pool).wf() ==> final(pool).wf(),
{
    if (now as i128) < (pool.epoch_start_time as i128) + (pool.epoch_duration as i128) {
        return Err(LendingError::EpochNotEnded);
    }
    crate::staking::advance_single_epoch(pool)
}

/// Closes the current epoch now, on the authority's say; the new epoch
/// starts at `now`.
pub fn force_advance_epoch_handler(pool: &mut StakingPool, authority: &Pubkey, now: i64) -> (r:
    Result<(), LendingError>)
    ensures
        old(pool).authority@ != authority@ ==> r == Err::<(), LendingError>(
            LendingError::Unauthorized,
        ),
        r is Err ==> *final(pool) == *old(pool),
        r is Ok ==> old(pool).authority@ == authority@ && (match next_epoch_spec(*old(pool)) {
            Ok(p) => *final(pool) == (StakingPool { epoch_start_time: now, ..p }),
            Err(_) => false,
        }),
        old(pool).authority@ == authority@ && next_epoch_spec(*old(pool)) is Ok ==> r is Ok,
        old(pool).wf() ==> final(pool).wf(),
{
    if !pool.authority.same(authority) {
        return Err(LendingError::Unauthorized);
    }
    match crate::staking::advance_single_epoch(pool) {
        Ok(()) => {},
        Err(e) => return Err(e),
    }
    pool.epoch_start_time = now;
    Ok(())
}

pub fn update_epoch_duration_handler(
    pool: &mut StakingPool,
    authority: &Pubkey,
    new_duration: i64,
) -> (r: Result<(), LendingError>)
    ensures
        old(pool).authority@ != authority@ ==> r == Err::<(), LendingError>(
            LendingError::Unauthorized,
        ),
        old(pool).authority@ == authority@ && !(MIN_EPOCH_DURATION <= new_duration
            <= MAX_EPOCH_DURATION) ==> r == Err::<(), LendingError>(
            LendingError::InvalidEpochDuration,
        ),
        r is Err ==> *final(pool) == *old(pool),
        old(pool).wf() ==> final(pool).wf(),
        old(pool).authority@ == authority@ && MIN_EPOCH_DURATION <= new_duration
            <= MAX_EPOCH_DURATION ==> r is Ok && *final(pool) == (StakingPool {
            epoch_duration: new_duration,
            ..*old(pool)
        }),
{
    if !pool.authority.same(authority) {
        return Err(LendingError::Unauthorized);
    }
    if new_duration < MIN_EPOCH_DURATION || new_duration > MAX_EPOCH_DURATION {
        return Err(LendingError::InvalidEpochDuration);
    }
    pool.epoch_duration = new_duration;
    Ok(())
}

pub fn pause_staking_handler(pool: &mut StakingPool, authority: &Pubkey) -> (r: Result<
    (),
    LendingError,
>)
    ensures
        old(pool).authority@ != authority@ ==> r == Err::<(), LendingError>(
            LendingError::Unauthorized,
        ) && *final(pool) == *old(pool),
        old(pool).authority@ == authority@ ==> r is Ok && *final(pool) == (StakingPool {
            paused: true,
            ..*old(pool)
        }),
        old(pool).wf() ==> final(pool).wf(),
{
    if !pool.authority.same(authority) {
        return Err(LendingError::Unauthorized);
    }
    pool.paused = true;
    Ok(())
}

pub fn resume_staking_handler(pool: &mut StakingPool, authority: &Pubkey) -> (r: Result<
    (),
    LendingError,
>)
    ensures
        old(pool).authority@ != authority@ ==> r == Err::<(), LendingError>(
            LendingError::Unauthorized,
        ) && *final(pool) == *old(pool),
        old(pool).authority@ == authority@ ==> r is Ok && *final(pool) == (StakingPool {
            paused: false,
            ..*old(pool)
        }),
        old(pool).wf() ==> final(pool).wf(),
{
    if !pool.authority.same(authority) {
        return Err(LendingError::Unauthorized);
    }
    pool.paused = false;
    Ok(())
}

/// Pauses staking and returns how much of the reward vault the authority
/// may sweep: everything above the rent-exempt minimum.
pub fn emergency_withdraw_handler(
    pool: &mut StakingPool,
    authority: &Pubkey,
    vault_balance: u64,
    rent_exempt_minimum: u64,
) -> (r: Result<u64, LendingError>)
    ensures
        old(pool).authority@ != authority@ ==> r == Err::<u64, LendingError>(
            LendingError::Unauthorized,
        ),
        old(pool).authority@ == authority@ && vault_balance == 0 ==> r == Err::<u64, LendingError>(
            LendingError::InsufficientRewardBalance,
        ),
        r is Err ==> *final(pool) == *old(pool),
        old(pool).authority@ == authority@ && vault_balance > 0 ==> r == Ok::<u64, LendingError>(
            sat_sub(vault_balance, rent_exempt_minimum),
        ) && *final(pool) == (StakingPool { paused: true, ..*old(pool) }),
        old(pool).wf() ==> final(pool).wf(),
{
    if !pool.authority.same(authority) {
        return Err(LendingError::Unauthorized);
    }
    if vault_balance == 0 {
        return Err(LendingError::InsufficientRewardBalance);
    }
    pool.paused = true;
    Ok(vault_balance.saturating_sub(rent_exempt_minimum))
}

/// With staking already paused, returns how much of the reward vault the
/// authority may sweep: everything above the rent-exempt minimum.
pub fn emergency_drain_rewards_handler(
    pool: &StakingPool,
    authority: &Pubkey,
    vault_balance: u64,
    rent_exempt_minimum: u64,
) -> (r: Result<u64, LendingError>)
    ensures
        pool.authority@ != authority@ ==> r == Err::<u64, LendingError>(LendingError::Unauthorized),
        pool.authority@ == authority@ && !pool.paused ==> r == Err::<u64, LendingError>(
            LendingError::StakingNotPaused,
        ),
        pool.authority@ == authority@ && pool.paused && vault_balance == 0 ==> r == Err::<
            u64,
            LendingError,
        >(LendingError::InsufficientRewardBalance),
        pool.authority@ == authority@ && pool.paused && vault_balance > 0 ==> r == Ok::<
            u64,
            LendingError,
        >(sat_sub(vault_balance, rent_exempt_minimum)),
{
    if !pool.authority.same(authority) {
        return Err(LendingError::Unauthorized);
    }
    if !pool.paused {
        return Err(LendingError::StakingNotPaused);
    }
    if vault_balance == 0 {
        return Err(LendingError::InsufficientRewardBalance);
    }
    Ok(vault_balance.saturating_sub(rent_exempt_minimum))
}

/// A new pool, at epoch 1, starting at `now`.
pub fn initialize_staking_handler(
    authority: &Pubkey,
    staking_token_mint: &Pubkey,
    staking_vault: &Pubkey,
    reward_vault: &Pubkey,
    epoch_duration: i64,
    now: i64,
    push_distribution: bool,
    bump: u8,
) -> (r: Result<StakingPool, LendingError>)
    ensures
        !(MIN_EPOCH_DURATION <= epoch_duration <= MAX_EPOCH_DURATION) ==> r == Err::<
            StakingPool,
            LendingError,
        >(LendingError::InvalidEpochDuration),
        r matches Ok(p) ==> p.wf(),
        MIN_EPOCH_DURATION <= epoch_duration <= MAX_EPOCH_DURATION ==> r == Ok::<
            StakingPool,
            LendingError,
        >(
            StakingPool {
            authority: *authority,
            staking_token_mint: *staking_token_mint,
            staking_vault: *staking_vault,
            reward_vault: *reward_vault,
            total_staked: 0,
            current_epoch: 1,
            epoch_duration,
            epoch_start_time: now,
            current_epoch_eligible_stake: 0,
            current_epoch_rewards: 0,
            reward_per_token_accumulated: 0,
            last_epoch_rewards: 0,
            last_epoch_eligible_stake: 0,
            last_epoch_distributed: 0,
            total_epochs_completed: 0,
            total_rewards_distributed: 0,
            total_rewards_deposited: 0,
            push_distribution,
            paused: false,
            bump,
        },
        ),
{
    if epoch_duration < MIN_EPOCH_DURATION || epoch_duration > MAX_EPOCH_DURATION {
        return Err(LendingError::InvalidEpochDuration);
    }
    Ok(
        StakingPool {
            authority: *authority,
            staking_token_mint: *staking_token_mint,
            staking_vault: *staking_vault,
            reward_vault: *reward_vault,
            total_staked: 0,
            current_epoch: 1,
            epoch_duration,
            epoch_start_time: now,
            current_epoch_eligible_stake: 0,
            current_epoch_rewards: 0,
            reward_per_token_accumulated: 0,
            last_epoch_rewards: 0,
            last_epoch_eligible_stake: 0,
            last_epoch_distributed: 0,
            total_epochs_completed: 0,
            total_rewards_distributed: 0,
            total_rewards_deposited: 0,
            push_distribution,
            paused: false,
            bump,
        },
    )
}

} // verus!
