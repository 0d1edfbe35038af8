use vstd::prelude::*;

use crate::error::LendingError;
use crate::pubkey::Pubkey;
use crate::state::REWARD_PRECISION;

verus! {

/// Shortest and longest epoch an admin may configure, in seconds.
pub const MIN_EPOCH_DURATION: i64 = 60;
pub const MAX_EPOCH_DURATION: i64 = 604_800;

/// The staking pool. Rewards deposited during an epoch are shared, when the
/// epoch ends, among the stake that was eligible for it. When no stake was
/// eligible the rewards roll over into the next epoch: they are never
/// forfeited.
#[derive(Clone, Copy, Debug)]
pub struct StakingPool {
    pub authority: Pubkey,
    pub staking_token_mint: Pubkey,
    pub staking_vault: Pubkey,
    pub reward_vault: Pubkey,
    pub total_staked: u64,
    pub current_epoch: u64,
    pub epoch_duration: i64,
    pub epoch_start_time: i64,
    pub current_epoch_eligible_stake: u64,
    pub current_epoch_rewards: u64,
    /// Rewards per staked unit since the pool began, scaled by 10^12.
    pub reward_per_token_accumulated: u128,
    pub last_epoch_rewards: u64,
    pub last_epoch_eligible_stake: u64,
    pub last_epoch_distributed: u64,
    pub total_epochs_completed: u64,
    pub total_rewards_distributed: u64,
    pub total_rewards_deposited: u64,
    /// Rewards are pushed by batched distribution rather than claimed.
    pub push_distribution: bool,
    pub paused: bool,
    pub bump: u8,
}

impl StakingPool {
    /// The epoch length is within its configured range and epochs count
    /// from one.
    pub open spec fn wf(&self) -> bool {
        &&& MIN_EPOCH_DURATION <= self.epoch_duration <= MAX_EPOCH_DURATION
        &&& self.current_epoch >= 1
    }
}

/// One staker's position.
#[derive(Clone, Copy, Debug)]
pub struct UserStake {
    pub owner: Pubkey,
    pub pool: Pubkey,
    pub staked_amount: u64,
    /// Epoch in which the current stake began; it earns from the next one.
    pub stake_start_epoch: u64,
    pub last_rewarded_epoch: u64,
    pub total_rewards_received: u64,
    pub reward_per_token_snapshot: u128,
    pub snapshot_initialized: bool,
    /// Rewards earned but not yet paid out.
    pub pending_rewards: u64,
    pub last_claimed_epoch: u64,
    pub total_rewards_claimed: u64,
    pub stake_timestamp: i64,
    pub bump: u8,
}

/// `rewards * PRECISION / eligible`, the accumulator's growth for an epoch.
pub open spec fn reward_increment(rewards: u64, eligible: u64) -> int {
    (rewards as int) * (REWARD_PRECISION as int) / (eligible as int)
}

/// The pool after one epoch boundary: rewards are credited to the
/// accumulator when stake was eligible, else they roll over; the eligible
/// stake of the new epoch is everything staked now.
pub open spec fn next_epoch_spec(p: StakingPool) -> Result<StakingPool, LendingError> {
    let distributes = p.current_epoch_eligible_stake > 0 && p.current_epoch_rewards > 0;
    let acc = if distributes {
        p.reward_per_token_accumulated + reward_increment(
            p.current_epoch_rewards,
            p.current_epoch_eligible_stake,
        )
    } else {
        p.reward_per_token_accumulated as int
    };
    if acc > u128::MAX || p.current_epoch + 1 > u64::MAX || p.epoch_start_time + p.epoch_duration
        > i64::MAX || p.epoch_start_time + p.epoch_duration < i64::MIN || p.total_epochs_completed
        + 1 > u64::MAX {
        Err(LendingError::MathOverflow)
    } else {
        let rolled = p.current_epoch_eligible_stake == 0;
        Ok(
            StakingPool {
                reward_per_token_accumulated: acc as u128,
                last_epoch_rewards: if rolled {
                    0
                } else {
                    p.current_epoch_rewards
                },
                last_epoch_eligible_stake: p.current_epoch_eligible_stake,
                last_epoch_distributed: 0,
                current_epoch: (p.current_epoch + 1) as u64,
                epoch_start_time: (p.epoch_start_time + p.epoch_duration) as i64,
                total_epochs_completed: (p.total_epochs_completed + 1) as u64,
                current_epoch_eligible_stake: p.total_staked,
                current_epoch_rewards: if rolled {
                    p.current_epoch_rewards
                } else {
                    0
                },
                ..p
            },
        )
    }
}

/// Every epoch boundary up to `now`, in order.
pub open spec fn advance_until_spec(p: StakingPool, now: i64) -> Result<StakingPool, LendingError>
    decreases now - p.epoch_start_time,
{
    if p.epoch_duration <= 0 {
        Err(LendingError::InvalidEpochDuration)
    } else if now < p.epoch_start_time + p.epoch_duration {
        Ok(p)
    } else {
        match next_epoch_spec(p) {
            Err(e) => Err(e),
            Ok(q) => advance_until_spec(q, now),
        }
    }
}

/// Reward owed to a user under the accumulator, before payout.
pub open spec fn accrued_spec(u: UserStake, p: StakingPool) -> Result<u64, LendingError> {
    if !u.snapshot_initialized || u.staked_amount == 0 {
        Ok(0)
    } else if p.reward_per_token_accumulated < u.reward_per_token_snapshot {
        Err(LendingError::MathUnderflow)
    } else {
        let q = (u.staked_amount as int) * (p.reward_per_token_accumulated
            - u.reward_per_token_snapshot) / (REWARD_PRECISION as int);
        if (u.staked_amount as int) * (p.reward_per_token_accumulated
            - u.reward_per_token_snapshot) > u128::MAX || q > u64::MAX {
            Err(LendingError::MathOverflow)
        } else {
            Ok(q as u64)
        }
    }
}

/// The user's record once the first interaction after its stake epoch has
/// taken the accumulator snapshot.
pub open spec fn with_snapshot_spec(u: UserStake, p: StakingPool) -> UserStake {
    if !u.snapshot_initialized && p.current_epoch > u.stake_start_epoch {
        UserStake {
            reward_per_token_snapshot: p.reward_per_token_accumulated,
            snapshot_initialized: true,
            ..u
        }
    } else {
        u
    }
}

fn next_epoch(p: &StakingPool) -> (r: Result<StakingPool, LendingError>)
    ensures
        r == next_epoch_spec(*p),
{
    let distributes = p.current_epoch_eligible_stake > 0 && p.current_epoch_rewards > 0;
    let mut acc: u128 = p.reward_per_token_accumulated;
    if distributes {
        assert((p.current_epoch_rewards as int) * (REWARD_PRECISION as int) <= u128::MAX)
            by (nonlinear_arith)
            requires
                p.current_epoch_rewards <= u64::MAX,
        ;
        let increment: u128 = (p.current_epoch_rewards as u128) * REWARD_PRECISION / (
        p.current_epoch_eligible_stake as u128);
        if acc > u128::MAX - increment {
            return Err(LendingError::MathOverflow);
        }
        acc = acc + increment;
    }
    if p.current_epoch == u64::MAX || (p.epoch_start_time as i128) + (p.epoch_duration as i128)
        > i64::MAX as i128 || (p.epoch_start_time as i128) + (p.epoch_duration as i128)
        < i64::MIN as i128 || p.total_epochs_completed == u64::MAX {
        return Err(LendingError::MathOverflow);
    }
    let rolled = p.current_epoch_eligible_stake == 0;
    Ok(
        StakingPool {
            reward_per_token_accumulated: acc,
            last_epoch_rewards: if rolled {
                0
            } else {
                p.current_epoch_rewards
            },
            last_epoch_eligible_stake: p.current_epoch_eligible_stake,
            last_epoch_distributed: 0,
            current_epoch: p.current_epoch + 1,
            epoch_start_time: p.epoch_start_time + p.epoch_duration,
            total_epochs_completed: p.total_epochs_completed + 1,
            current_epoch_eligible_stake: p.total_staked,
            current_epoch_rewards: if rolled {
                p.current_epoch_rewards
            } else {
                0
            },
            ..*p
        },
    )
}

/// Closes the current epoch, whatever the time.
pub fn advance_single_epoch(pool: &mut StakingPool) -> (r: Result<(), LendingError>)
    ensures
        r is Err ==> *final(pool) == *old(pool),
        r matches Err(e) ==> next_epoch_spec(*old(pool)) == Err::<StakingPool, LendingError>(e),
        r is Ok ==> next_epoch_spec(*old(pool)) == Ok::<StakingPool, LendingError>(*final(pool)),
        final(pool).reward_per_token_accumulated >= old(pool).reward_per_token_accumulated,
        old(pool).wf() ==> final(pool).wf(),
{
    match next_epoch(pool) {
        Ok(p) => {
            *pool = p;
            Ok(())
        },
        Err(e) => Err(e),
    }
}

/// Closes every epoch that has ended by `now`, one at a time, so that an
/// idle stretch of several epochs is accounted for epoch by epoch.
pub fn maybe_advance_epoch(pool: &mut StakingPool, current_time: i64) -> (r: Result<
    (),
    LendingError,
>)
    ensures
        r is Err ==> *final(pool) == *old(pool),
        r matches Err(e) ==> advance_until_spec(*old(pool), current_time) == Err::<
            StakingPool,
            LendingError,
        >(e),
        r is Ok ==> advance_until_spec(*old(pool), current_time) == Ok::<StakingPool, LendingError>(
            *final(pool),
        ),
        old(pool).wf() ==> final(pool).wf(),
{
    if pool.epoch_duration <= 0 {
        return Err(LendingError::InvalidEpochDuration);
    }
    let mut p: StakingPool = *pool;
    while (current_time as i128) >= (p.epoch_start_time as i128) + (p.epoch_duration as i128)
        invariant
            p.epoch_duration == old(pool).epoch_duration > 0,
            p.current_epoch >= old(pool).current_epoch,
            *pool == *old(pool),
            advance_until_spec(p, current_time) == advance_until_spec(*old(pool), current_time),
        decreases current_time - p.epoch_start_time,
    {
        match next_epoch(&p) {
            Ok(q) => {
                p = q;
            },
            Err(e) => {
                return Err(e);
            },
        }
    }
    *pool = p;
    Ok(())
}

/// Takes the user's accumulator snapshot once the epoch after their stake
/// epoch has begun; until then they earn nothing.
pub fn maybe_initialize_user_snapshot(user_stake: &mut UserStake, pool: &StakingPool)
    ensures
        *final(user_stake) == with_snapshot_spec(*old(user_stake), *pool),
{
    if !user_stake.snapshot_initialized && pool.current_epoch > user_stake.stake_start_epoch {
        user_stake.reward_per_token_snapshot = pool.reward_per_token_accumulated;
        user_stake.snapshot_initialized = true;
    }
}

/// `staked * (accumulator - snapshot) / PRECISION` for an eligible user,
/// zero for one who is not.
pub fn calculate_pending_rewards(user_stake: &UserStake, pool: &StakingPool) -> (r: Result<
    u64,
    LendingError,
>)
    ensures
        r == accrued_spec(*user_stake, *pool),
{
    if !user_stake.snapshot_initialized {
        return Ok(0);
    }
    if user_stake.staked_amount == 0 {
        return Ok(0);
    }
    if pool.reward_per_token_accumulated < user_stake.reward_per_token_snapshot {
        return Err(LendingError::MathUnderflow);
    }
    let diff: u128 = pool.reward_per_token_accumulated - user_stake.reward_per_token_snapshot;
    let product = match (user_stake.staked_amount as u128).checked_mul(diff) {
        Some(x) => x,
        None => return Err(LendingError::MathOverflow),
    };
    let rewards: u128 = product / REWARD_PRECISION;
    if rewards > u64::MAX as u128 {
        return Err(LendingError::MathOverflow);
    }
    Ok(rewards as u64)
}

} // verus!
