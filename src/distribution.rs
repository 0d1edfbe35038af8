use vstd::prelude::*;

use crate::bytes::{le_bytes_of, le_u64_at, lemma_le_bytes_round_trip, read_pubkey, read_u64_le, write_u64_le};
use crate::error::LendingError;
use crate::pda::{program_address, user_stake_seed, PdaUtils};
use crate::pubkey::Pubkey;
use crate::staking::StakingPool;

verus! {

/// Layout of a staker record as the distribution reads it: discriminator,
/// owner, pool, then four little-endian `u64` fields.
pub const USER_STAKE_RECORD_LEN: usize = 104;
pub const STAKE_OWNER_OFFSET: usize = 8;
pub const STAKED_AMOUNT_OFFSET: usize = 72;
pub const STAKE_START_EPOCH_OFFSET: usize = 80;
pub const LAST_REWARDED_EPOCH_OFFSET: usize = 88;
pub const TOTAL_RECEIVED_OFFSET: usize = 96;

/// Below this many lamports a distribution call pays nothing.
pub const MIN_DISTRIBUTABLE_REWARDS: u64 = 1000;

/// An account handed to the distribution: its address, the program that
/// owns it and its raw data.
pub struct AccountView {
    pub key: Pubkey,
    pub owner: Pubkey,
    pub data: Vec<u8>,
}

/// The four checks made on a (record, wallet) pair before any field of the
/// record is trusted, in order.
pub open spec fn pair_check(
    rec: AccountView,
    wallet: AccountView,
    pool_key: Pubkey,
    program_id: Pubkey,
    discriminator: Seq<u8>,
) -> Result<(), LendingError> {
    if rec.owner@ != program_id@ {
        Err(LendingError::InvalidAccountOwner)
    } else if rec.data@.len() < USER_STAKE_RECORD_LEN {
        Err(LendingError::InvalidAccountData)
    } else if rec.data@.subrange(0, 8) != discriminator {
        Err(LendingError::InvalidDiscriminator)
    } else if !(program_address(seq![user_stake_seed(), pool_key@, wallet.key@], program_id@) matches Some(
        (k, _),
    ) && k == rec.key@) {
        Err(LendingError::InvalidPDA)
    } else if rec.data@.subrange(8, 40) != wallet.key@ {
        Err(LendingError::InvalidStakeOwner)
    } else {
        Ok(())
    }
}

/// Whether a record is owed a share of epoch `e`: it has stake, the stake
/// began before `e`, and it has not been paid for `e` yet.
pub open spec fn payable(data: Seq<u8>, e: u64) -> bool {
    le_u64_at(data, 72) != 0 && le_u64_at(data, 80) < e && le_u64_at(data, 88) < e
}

/// `staked * rewards_pool / eligible_stake`.
pub open spec fn share_of(data: Seq<u8>, rewards_pool: u64, eligible: u64) -> int {
    le_u64_at(data, 72) * rewards_pool / (eligible as int)
}

/// What one record is paid.
pub open spec fn paid_amount(data: Seq<u8>, e: u64, rewards_pool: u64, eligible: u64) -> int {
    if payable(data, e) {
        share_of(data, rewards_pool, eligible)
    } else {
        0
    }
}

/// Pair `p` passed its checks and was assigned what it is owed.
pub open spec fn scanned_ok(
    accounts: Seq<AccountView>,
    shares: Seq<u64>,
    p: int,
    pool_key: Pubkey,
    program_id: Pubkey,
    discriminator: Seq<u8>,
    e: u64,
    rewards_pool: u64,
    eligible: u64,
) -> bool {
    &&& pair_check(accounts[2 * p], accounts[2 * p + 1], pool_key, program_id, discriminator) is Ok
    &&& shares[p] == paid_amount(accounts[2 * p].data@, e, rewards_pool, eligible)
    &&& shares[p] > 0 ==> le_u64_at(accounts[2 * p].data@, 96) + shares[p] <= u64::MAX
}

/// Pair `p` passed its checks and is paid what it is owed.
pub open spec fn pair_paid(
    accounts: Seq<AccountView>,
    shares: Seq<u64>,
    p: int,
    pool_key: Pubkey,
    program_id: Pubkey,
    discriminator: Seq<u8>,
    e: u64,
    rewards_pool: u64,
    eligible: u64,
) -> bool {
    &&& pair_check(accounts[2 * p], accounts[2 * p + 1], pool_key, program_id, discriminator) is Ok
    &&& shares[p] == paid_amount(accounts[2 * p].data@, e, rewards_pool, eligible)
}

/// A record's data after it is paid `amount` for epoch `e`.
pub open spec fn credited(data: Seq<u8>, e: u64, amount: u64) -> Seq<u8> {
    data.subrange(0, 88) + le_bytes_of(e) + le_bytes_of(
        (le_u64_at(data, 96) + amount) as u64,
    ) + data.subrange(104, data.len() as int)
}

pub open spec fn sum_u64(s: Seq<u64>) -> int
    decreases s.len(),
{
    if s.len() == 0 {
        0
    } else {
        sum_u64(s.drop_last()) + s.last()
    }
}

/// The epoch whose rewards are being distributed.
pub open spec fn distributable_epoch(pool: StakingPool) -> u64 {
    if pool.current_epoch >= 1 {
        (pool.current_epoch - 1) as u64
    } else {
        0
    }
}

pub open spec fn rewards_pool_of(pool: StakingPool, vault_balance: u64) -> u64 {
    if pool.last_epoch_rewards <= vault_balance {
        pool.last_epoch_rewards
    } else {
        vault_balance
    }
}

/// A record that has been paid for epoch `e` is not payable for `e` again,
/// so running the distribution a second time pays it nothing.
pub proof fn lemma_credited_record_not_payable_again(data: Seq<u8>, e: u64, amount: u64)
    requires
        data.len() >= USER_STAKE_RECORD_LEN,
    ensures
        !payable(credited(data, e, amount), e),
        paid_amount(credited(data, e, amount), e, 0, 1) == 0,
        forall|rewards_pool: u64, eligible: u64|
            paid_amount(#[trigger] credited(data, e, amount), e, rewards_pool, eligible) == 0,
{
    let c = credited(data, e, amount);
    assert(c.subrange(88, 96) =~= le_bytes_of(e));
    lemma_le_bytes_round_trip(c, 88, e);
}

fn check_pair(
    rec: &AccountView,
    wallet: &AccountView,
    pool_key: &Pubkey,
    program_id: &Pubkey,
    discriminator: &[u8; 8],
) -> (r: Result<(), LendingError>)
    ensures
        r == pair_check(*rec, *wallet, *pool_key, *program_id, discriminator@),
{
    if !rec.owner.same(program_id) {
        return Err(LendingError::InvalidAccountOwner);
    }
    if rec.data.len() < USER_STAKE_RECORD_LEN {
        return Err(LendingError::InvalidAccountData);
    }
    let mut j: usize = 0;
    while j < 8
        invariant
            0 <= j <= 8,
            rec.data@.len() >= USER_STAKE_RECORD_LEN,
            rec.owner@ == program_id@,
            discriminator@.len() == 8,
            forall|k: int| 0 <= k < j ==> rec.data@[k] == discriminator@[k],
        decreases 8 - j,
    {
        if rec.data[j] != discriminator[j] {
            assert(rec.data@.subrange(0, 8)[j as int] != discriminator@[j as int]);
            assert(rec.data@.subrange(0, 8) != discriminator@);
            return Err(LendingError::InvalidDiscriminator);
        }
        j = j + 1;
    }
    assert(rec.data@.subrange(0, 8) =~= discriminator@);
    match PdaUtils::derive_user_stake(pool_key, &wallet.key, program_id) {
        None => return Err(LendingError::InvalidPDA),
        Some((expected, _bump)) => {
            if !expected.same(&rec.key) {
                return Err(LendingError::InvalidPDA);
            }
        },
    }
    let stored_owner = read_pubkey(rec.data.as_slice(), STAKE_OWNER_OFFSET);
    if !stored_owner.same(&wallet.key) {
        return Err(LendingError::InvalidStakeOwner);
    }
    Ok(())
}

pub open spec fn prepend_share(x: u64, r: Result<Seq<u64>, LendingError>) -> Result<
    Seq<u64>,
    LendingError,
> {
    match r {
        Ok(t) => Ok(seq![x] + t),
        Err(err) => Err(err),
    }
}

pub open spec fn after_shares(s: Seq<u64>, r: Result<Seq<u64>, LendingError>) -> Result<
    Seq<u64>,
    LendingError,
> {
    match r {
        Ok(t) => Ok(s + t),
        Err(err) => Err(err),
    }
}

/// The amounts of pairs `p`, `p + 1`, ... with `remaining` lamports left in
/// the vault: each pair is checked before it is trusted, a pair not owed
/// anything gets 0, and the batch ends, without error, at the first pair
/// whose share the vault cannot cover.
pub open spec fn scan_spec(
    accounts: Seq<AccountView>,
    p: int,
    remaining: int,
    pool_key: Pubkey,
    program_id: Pubkey,
    discriminator: Seq<u8>,
    e: u64,
    rewards_pool: u64,
    eligible: u64,
) -> Result<Seq<u64>, LendingError>
    decreases accounts.len() - 2 * p,
{
    if p < 0 || 2 * p + 2 > accounts.len() {
        Ok(Seq::empty())
    } else {
        match pair_check(accounts[2 * p], accounts[2 * p + 1], pool_key, program_id, discriminator) {
            Err(err) => Err(err),
            Ok(_) => {
                let d = accounts[2 * p].data@;
                let share = share_of(d, rewards_pool, eligible);
                if !payable(d, e) {
                    prepend_share(
                        0,
                        scan_spec(
                            accounts,
                            p + 1,
                            remaining,
                            pool_key,
                            program_id,
                            discriminator,
                            e,
                            rewards_pool,
                            eligible,
                        ),
                    )
                } else if share > u64::MAX {
                    Err(LendingError::MathOverflow)
                } else if share > remaining {
                    Ok(Seq::empty())
                } else if le_u64_at(d, 96) + share > u64::MAX {
                    Err(LendingError::MathOverflow)
                } else {
                    prepend_share(
                        share as u64,
                        scan_spec(
                            accounts,
                            p + 1,
                            remaining - share,
                            pool_key,
                            program_id,
                            discriminator,
                            e,
                            rewards_pool,
                            eligible,
                        ),
                    )
                }
            },
        }
    }
}

/// Outcome of a distribution call: the amount of each pair looked at, or
/// the first refusal.
pub open spec fn distribute_spec(
    pool: StakingPool,
    pool_key: Pubkey,
    program_id: Pubkey,
    discriminator: Seq<u8>,
    vault_balance: u64,
    accounts: Seq<AccountView>,
) -> Result<Seq<u64>, LendingError> {
    if !pool.push_distribution {
        Err(LendingError::FeatureTemporarilyDisabled)
    } else if pool.last_epoch_rewards == 0 {
        Err(LendingError::NoRewardsToClaim)
    } else if pool.last_epoch_eligible_stake == 0 {
        Err(LendingError::NoEligibleStakers)
    } else if accounts.len() == 0 || accounts.len() % 2 != 0 {
        Err(LendingError::InvalidAccountPairs)
    } else if rewards_pool_of(pool, vault_balance) < MIN_DISTRIBUTABLE_REWARDS {
        Ok(Seq::empty())
    } else {
        match scan_spec(
            accounts,
            0,
            vault_balance as int,
            pool_key,
            program_id,
            discriminator,
            distributable_epoch(pool),
            rewards_pool_of(pool, vault_balance),
            pool.last_epoch_eligible_stake,
        ) {
            Err(err) => Err(err),
            Ok(s) => if pool.last_epoch_distributed + sum_u64(s) > u64::MAX
                || pool.total_rewards_distributed + sum_u64(s) > u64::MAX {
                Err(LendingError::MathOverflow)
            } else {
                Ok(s)
            },
        }
    }
}

/// Looks at the pairs in order and decides each one's amount; stops at the
/// first record whose share the vault can no longer cover.
fn scan_pairs(
    accounts: &Vec<AccountView>,
    pool_key: &Pubkey,
    program_id: &Pubkey,
    discriminator: &[u8; 8],
    e: u64,
    rewards_pool: u64,
    eligible: u64,
    vault_balance: u64,
) -> (r: Result<Vec<u64>, LendingError>)
    requires
        eligible > 0,
        accounts@.len() % 2 == 0,
    ensures
        match scan_spec(
            accounts@,
            0,
            vault_balance as int,
            *pool_key,
            *program_id,
            discriminator@,
            e,
            rewards_pool,
            eligible,
        ) {
            Ok(t) => (r matches Ok(x) && x@ == t),
            Err(err) => r == Err::<Vec<u64>, LendingError>(err),
        },
        r matches Ok(shares) ==> {
            let n = accounts@.len();
            &&& 2 * shares@.len() <= n
            &&& sum_u64(shares@) <= vault_balance
            &&& forall|p: int|
                0 <= p < shares@.len() ==> #[trigger] scanned_ok(
                    accounts@,
                    shares@,
                    p,
                    *pool_key,
                    *program_id,
                    discriminator@,
                    e,
                    rewards_pool,
                    eligible,
                )
            &&& 2 * shares@.len() < n ==> {
                let s = 2 * shares@.len() as int;
                &&& pair_check(
                    accounts@[s],
                    accounts@[s + 1],
                    *pool_key,
                    *program_id,
                    discriminator@,
                ) is Ok
                &&& payable(accounts@[s].data@, e)
                &&& share_of(accounts@[s].data@, rewards_pool, eligible) > vault_balance - sum_u64(
                    shares@,
                )
            }
        },
{
    let n = accounts.len();
    let mut shares: Vec<u64> = Vec::new();
    let mut total: u64 = 0;
    let mut stopped = false;
    let mut i: usize = 0;
    while i < n && !stopped
        invariant
            n == accounts@.len(),
            n % 2 == 0,
            i == 2 * shares@.len(),
            i <= n,
            total == sum_u64(shares@),
            total <= vault_balance,
            eligible > 0,
            !stopped ==> scan_spec(
                accounts@,
                0,
                vault_balance as int,
                *pool_key,
                *program_id,
                discriminator@,
                e,
                rewards_pool,
                eligible,
            ) == after_shares(
                shares@,
                scan_spec(
                    accounts@,
                    shares@.len() as int,
                    vault_balance - total,
                    *pool_key,
                    *program_id,
                    discriminator@,
                    e,
                    rewards_pool,
                    eligible,
                ),
            ),
            stopped ==> scan_spec(
                accounts@,
                0,
                vault_balance as int,
                *pool_key,
                *program_id,
                discriminator@,
                e,
                rewards_pool,
                eligible,
            ) == Ok::<Seq<u64>, LendingError>(shares@),
            forall|p: int|
                0 <= p < shares@.len() ==> #[trigger] scanned_ok(
                    accounts@,
                    shares@,
                    p,
                    *pool_key,
                    *program_id,
                    discriminator@,
                    e,
                    rewards_pool,
                    eligible,
                ),
            stopped ==> i < n && pair_check(
                accounts@[i as int],
                accounts@[i + 1],
                *pool_key,
                *program_id,
                discriminator@,
            ) is Ok && payable(accounts@[i as int].data@, e) && share_of(
                accounts@[i as int].data@,
                rewards_pool,
                eligible,
            ) > vault_balance - total,
        decreases n - i, if stopped { 0int } else { 1int },
    {
        let rec = &accounts[i];
        let wallet = &accounts[i + 1];
        match check_pair(rec, wallet, pool_key, program_id, discriminator) {
            Ok(()) => {},
            Err(err) => return Err(err),
        }
        let data = rec.data.as_slice();
        let staked = read_u64_le(data, STAKED_AMOUNT_OFFSET);
        let start_epoch = read_u64_le(data, STAKE_START_EPOCH_OFFSET);
        let last_rewarded = read_u64_le(data, LAST_REWARDED_EPOCH_OFFSET);
        let received = read_u64_le(data, TOTAL_RECEIVED_OFFSET);
        let mut amount: u64 = 0;
        if staked != 0 && start_epoch < e && last_rewarded < e {
            proof {
                crate::math::lemma_u64_product_fits_u128(staked, rewards_pool);
            }
            let share: u128 = (staked as u128) * (rewards_pool as u128) / (eligible as u128);
            if share > u64::MAX as u128 {
                return Err(LendingError::MathOverflow);
            }
            if share as u64 > vault_balance - total {
                stopped = true;
                assert(shares@ + Seq::<u64>::empty() =~= shares@);
            } else {
                if received > u64::MAX - share as u64 {
                    return Err(LendingError::MathOverflow);
                }
                amount = share as u64;
            }
        }
        if !stopped {
            let ghost before = shares@;
            let ghost k = shares@.len() as int;
            let ghost rem = vault_balance - total;
            assert(amount == paid_amount(accounts@[2 * k].data@, e, rewards_pool, eligible));
            shares.push(amount);
            assert(shares@.drop_last() =~= before);
            proof {
                let rest = scan_spec(
                    accounts@,
                    k + 1,
                    rem - amount,
                    *pool_key,
                    *program_id,
                    discriminator@,
                    e,
                    rewards_pool,
                    eligible,
                );
                assert(scan_spec(
                    accounts@,
                    k,
                    rem,
                    *pool_key,
                    *program_id,
                    discriminator@,
                    e,
                    rewards_pool,
                    eligible,
                ) == prepend_share(amount, rest));
                if let Ok(t) = rest {
                    assert(before + (seq![amount] + t) =~= shares@ + t);
                }
            }
            assert forall|p: int| 0 <= p < shares@.len() implies #[trigger] scanned_ok(
                accounts@,
                shares@,
                p,
                *pool_key,
                *program_id,
                discriminator@,
                e,
                rewards_pool,
                eligible,
            ) by {
                if p < k {
                    assert(shares@[p] == before[p]);
                    assert(scanned_ok(
                        accounts@,
                        before,
                        p,
                        *pool_key,
                        *program_id,
                        discriminator@,
                        e,
                        rewards_pool,
                        eligible,
                    ));
                }
            }
            total = total + amount;
            i = i + 2;
        }
    }
    if !stopped {
        assert(shares@ + Seq::<u64>::empty() =~= shares@);
    }
    Ok(shares)
}

/// Writes each paid record's new last-rewarded epoch and lifetime total.
fn apply_credits(accounts: &mut Vec<AccountView>, shares: &Vec<u64>, e: u64)
    requires
        2 * shares@.len() <= old(accounts)@.len(),
        forall|q: int|
            #![trigger shares@[q]]
            0 <= q < shares@.len() && shares@[q] > 0 ==> le_u64_at(old(accounts)@[2 * q].data@, 96)
                + shares@[q] <= u64::MAX && old(accounts)@[2 * q].data@.len()
                >= USER_STAKE_RECORD_LEN,
    ensures
        final(accounts)@.len() == old(accounts)@.len(),
        forall|k: int|
            #![trigger final(accounts)@[k]]
            0 <= k < old(accounts)@.len() ==> {
                &&& final(accounts)@[k].key == old(accounts)@[k].key
                &&& final(accounts)@[k].owner == old(accounts)@[k].owner
                &&& final(accounts)@[k].data@ == if k % 2 == 0 && k / 2 < shares@.len()
                    && shares@[k / 2] > 0 {
                    credited(old(accounts)@[k].data@, e, shares@[k / 2])
                } else {
                    old(accounts)@[k].data@
                }
            },
{
    let n = accounts.len();
    let mut p: usize = 0;
    while p < shares.len()
        invariant
            0 <= p <= shares@.len(),
            2 * shares@.len() <= n,
            n == accounts@.len() == old(accounts)@.len(),
            forall|q: int|
                #![trigger shares@[q]]
                0 <= q < shares@.len() && shares@[q] > 0 ==> le_u64_at(
                    old(accounts)@[2 * q].data@,
                    96,
                ) + shares@[q] <= u64::MAX && old(accounts)@[2 * q].data@.len()
                    >= USER_STAKE_RECORD_LEN,
            forall|k: int|
                #![trigger accounts@[k]]
                0 <= k < n ==> {
                    &&& accounts@[k].key == old(accounts)@[k].key
                    &&& accounts@[k].owner == old(accounts)@[k].owner
                    &&& accounts@[k].data@ == if k % 2 == 0 && k / 2 < p && shares@[k / 2] > 0 {
                        credited(old(accounts)@[k].data@, e, shares@[k / 2])
                    } else {
                        old(accounts)@[k].data@
                    }
                },
        decreases shares@.len() - p,
    {
        let amount = shares[p];
        let idx = 2 * p;
        if amount > 0 {
            assert(accounts@[idx as int].data@ == old(accounts)@[idx as int].data@);
            let ghost before = accounts@;
            let mut rec = accounts.remove(idx);
            let received = read_u64_le(rec.data.as_slice(), TOTAL_RECEIVED_OFFSET);
            let ghost d0 = rec.data@;
            write_u64_le(&mut rec.data, LAST_REWARDED_EPOCH_OFFSET, e);
            let ghost d1 = rec.data@;
            write_u64_le(&mut rec.data, TOTAL_RECEIVED_OFFSET, received + amount);
            assert(rec.data@ =~= credited(d0, e, amount)) by {
                assert(rec.data@.subrange(0, 88) =~= d0.subrange(0, 88));
                assert(rec.data@.subrange(88, 96) =~= d1.subrange(88, 96));
                assert(rec.data@.subrange(104, rec.data@.len() as int) =~= d0.subrange(
                    104,
                    d0.len() as int,
                ));
            }
            accounts.insert(idx, rec);
            assert(accounts@ =~= before.update(idx as int, rec));
        }
        p = p + 1;
    }
}

/// Pays each staker in `accounts` (pairs of record and wallet) its share of
/// the last completed epoch's rewards: `staked * rewards / eligible`, where
/// `rewards` is the smaller of the epoch's rewards and the vault balance.
/// Records not owed anything are skipped; the batch stops, without error,
/// at the first record whose share the vault can no longer cover. Returns
/// one amount per pair looked at (zero where nothing is paid); the caller
/// pays them to the pairs' wallets. Paid records have their last-rewarded
/// epoch and lifetime total updated in place. On any error nothing changes.
pub fn distribute_rewards_handler(
    pool: &mut StakingPool,
    pool_key: &Pubkey,
    program_id: &Pubkey,
    discriminator: &[u8; 8],
    vault_balance: u64,
    accounts: &mut Vec<AccountView>,
) -> (r: Result<Vec<u64>, LendingError>)
    ensures
        match distribute_spec(
            *old(pool),
            *pool_key,
            *program_id,
            discriminator@,
            vault_balance,
            old(accounts)@,
        ) {
            Ok(t) => (r matches Ok(x) && x@ == t),
            Err(err) => r == Err::<Vec<u64>, LendingError>(err),
        },
        !old(pool).push_distribution ==> r == Err::<Vec<u64>, LendingError>(
            LendingError::FeatureTemporarilyDisabled,
        ),
        old(pool).push_distribution && old(pool).last_epoch_rewards == 0 ==> r == Err::<
            Vec<u64>,
            LendingError,
        >(LendingError::NoRewardsToClaim),
        old(pool).push_distribution && old(pool).last_epoch_rewards > 0
            && old(pool).last_epoch_eligible_stake == 0 ==> r == Err::<Vec<u64>, LendingError>(
            LendingError::NoEligibleStakers,
        ),
        old(pool).push_distribution && old(pool).last_epoch_rewards > 0
            && old(pool).last_epoch_eligible_stake > 0 && (old(accounts)@.len() == 0 || old(
            accounts,
        )@.len() % 2 != 0) ==> r == Err::<Vec<u64>, LendingError>(
            LendingError::InvalidAccountPairs,
        ),
        r is Err ==> *final(pool) == *old(pool) && final(accounts)@ == old(accounts)@,
        r matches Ok(shares) ==> {
            let e = distributable_epoch(*old(pool));
            let rp = rewards_pool_of(*old(pool), vault_balance);
            let eligible = old(pool).last_epoch_eligible_stake;
            let n = old(accounts)@.len();
            &&& 2 * shares@.len() <= n
            &&& final(accounts)@.len() == n
            &&& sum_u64(shares@) <= vault_balance
            &&& *final(pool) == (StakingPool {
                last_epoch_distributed: (old(pool).last_epoch_distributed + sum_u64(
                    shares@,
                )) as u64,
                total_rewards_distributed: (old(pool).total_rewards_distributed + sum_u64(
                    shares@,
                )) as u64,
                ..*old(pool)
            })
            &&& rp < MIN_DISTRIBUTABLE_REWARDS ==> shares@.len() == 0
            &&& forall|p: int|
                0 <= p < shares@.len() ==> #[trigger] pair_paid(
                    old(accounts)@,
                    shares@,
                    p,
                    *pool_key,
                    *program_id,
                    discriminator@,
                    e,
                    rp,
                    eligible,
                )
            &&& rp >= MIN_DISTRIBUTABLE_REWARDS && 2 * shares@.len() < n ==> {
                let s = 2 * shares@.len() as int;
                &&& pair_check(
                    old(accounts)@[s],
                    old(accounts)@[s + 1],
                    *pool_key,
                    *program_id,
                    discriminator@,
                ) is Ok
                &&& payable(old(accounts)@[s].data@, e)
                &&& share_of(old(accounts)@[s].data@, rp, eligible) > vault_balance - sum_u64(
                    shares@,
                )
            }
            &&& forall|i: int|
                #![trigger final(accounts)@[i]]
                0 <= i < n ==> {
                    &&& final(accounts)@[i].key == old(accounts)@[i].key
                    &&& final(accounts)@[i].owner == old(accounts)@[i].owner
                    &&& final(accounts)@[i].data@ == if i % 2 == 0 && i / 2 < shares@.len()
                        && shares@[i / 2] > 0 {
                        credited(old(accounts)@[i].data@, e, shares@[i / 2])
                    } else {
                        old(accounts)@[i].data@
                    }
                }
        },
{
    if !pool.push_distribution {
        return Err(LendingError::FeatureTemporarilyDisabled);
    }
    if pool.last_epoch_rewards == 0 {
        return Err(LendingError::NoRewardsToClaim);
    }
    if pool.last_epoch_eligible_stake == 0 {
        return Err(LendingError::NoEligibleStakers);
    }
    let n = accounts.len();
    if n == 0 || n % 2 != 0 {
        return Err(LendingError::InvalidAccountPairs);
    }
    let e: u64 = if pool.current_epoch >= 1 {
        pool.current_epoch - 1
    } else {
        0
    };
    let rewards_pool: u64 = if pool.last_epoch_rewards <= vault_balance {
        pool.last_epoch_rewards
    } else {
        vault_balance
    };
    if rewards_pool < MIN_DISTRIBUTABLE_REWARDS {
        let empty: Vec<u64> = Vec::new();
        assert(accounts@ =~= old(accounts)@);
        return Ok(empty);
    }
    let shares = match scan_pairs(
        accounts,
        pool_key,
        program_id,
        discriminator,
        e,
        rewards_pool,
        pool.last_epoch_eligible_stake,
        vault_balance,
    ) {
        Ok(s) => s,
        Err(err) => return Err(err),
    };
    let ghost total = sum_u64(shares@);
    proof {
        lemma_sum_u64_nonneg(shares@);
    }
    let total: u64 = sum_shares(&shares, vault_balance);
    if pool.last_epoch_distributed > u64::MAX - total || pool.total_rewards_distributed > u64::MAX
        - total {
        return Err(LendingError::MathOverflow);
    }
    pool.last_epoch_distributed = pool.last_epoch_distributed + total;
    pool.total_rewards_distributed = pool.total_rewards_distributed + total;
    assert forall|p: int| #![trigger shares@[p]] 0 <= p < shares@.len() implies {
        &&& pair_check(
            old(accounts)@[2 * p],
            old(accounts)@[2 * p + 1],
            *pool_key,
            *program_id,
            discriminator@,
        ) is Ok
        &&& shares@[p] == paid_amount(
            old(accounts)@[2 * p].data@,
            e,
            rewards_pool,
            pool.last_epoch_eligible_stake,
        )
        &&& shares@[p] > 0 ==> le_u64_at(old(accounts)@[2 * p].data@, 96) + shares@[p] <= u64::MAX
            && old(accounts)@[2 * p].data@.len() >= USER_STAKE_RECORD_LEN
    } by {
        assert(scanned_ok(
            accounts@,
            shares@,
            p,
            *pool_key,
            *program_id,
            discriminator@,
            e,
            rewards_pool,
            pool.last_epoch_eligible_stake,
        ));
    }
    assert forall|p: int| 0 <= p < shares@.len() implies #[trigger] pair_paid(
        old(accounts)@,
        shares@,
        p,
        *pool_key,
        *program_id,
        discriminator@,
        e,
        rewards_pool,
        pool.last_epoch_eligible_stake,
    ) by {
        assert(scanned_ok(
            accounts@,
            shares@,
            p,
            *pool_key,
            *program_id,
            discriminator@,
            e,
            rewards_pool,
            pool.last_epoch_eligible_stake,
        ));
    }
    apply_credits(accounts, &shares, e);
    Ok(shares)
}

proof fn lemma_sum_u64_nonneg(s: Seq<u64>)
    ensures
        sum_u64(s) >= 0,
    decreases s.len(),
{
    if s.len() > 0 {
        lemma_sum_u64_nonneg(s.drop_last());
    }
}

fn sum_shares(shares: &Vec<u64>, bound: u64) -> (r: u64)
    requires
        sum_u64(shares@) <= bound,
    ensures
        r == sum_u64(shares@),
{
    let mut total: u64 = 0;
    let mut i: usize = 0;
    while i < shares.len()
        invariant
            0 <= i <= shares@.len(),
            sum_u64(shares@) <= bound,
            total == sum_u64(shares@.subrange(0, i as int)),
        decreases shares@.len() - i,
    {
        proof {
            lemma_sum_prefix_bound(shares@, i as int + 1);
            assert(shares@.subrange(0, i + 1).drop_last() =~= shares@.subrange(0, i as int));
        }
        total = total + shares[i];
        i = i + 1;
    }
    assert(shares@.subrange(0, shares@.len() as int) =~= shares@);
    total
}

proof fn lemma_sum_prefix_bound(s: Seq<u64>, k: int)
    requires
        0 <= k <= s.len(),
    ensures
        0 <= sum_u64(s.subrange(0, k)) <= sum_u64(s),
    decreases s.len(),
{
    if s.len() > 0 {
        if k == s.len() {
            assert(s.subrange(0, k) =~= s);
            lemma_sum_u64_nonneg(s);
        } else {
            assert(s.drop_last().subrange(0, k) =~= s.subrange(0, k));
            lemma_sum_prefix_bound(s.drop_last(), k);
        }
    } else {
        assert(s.subrange(0, k) =~= s);
    }
}

} // verus!
