use memecoin_lending::distribution::{distribute_rewards_handler, AccountView};
use memecoin_lending::pda::{get_bonding_curve_pda, PdaUtils};
use memecoin_lending::staking::{
    advance_single_epoch, calculate_pending_rewards, maybe_advance_epoch,
    maybe_initialize_user_snapshot, StakingPool, UserStake,
};
use memecoin_lending::staking_ops::{
    advance_epoch_handler, claim_rewards_handler, deposit_rewards_handler,
    emergency_drain_rewards_handler, emergency_withdraw_handler, force_advance_epoch_handler,
    initialize_staking_handler, stake_handler, unstake_handler, update_epoch_duration_handler,
};
use memecoin_lending::swap::{calculate_min_output, calculate_pumpfun_sell_output, pumpfun_sell_data, PumpfunSellArgs};
use memecoin_lending::{LendingError, Pubkey};

const DISC: [u8; 8] = [1, 2, 3, 4, 5, 6, 7, 8];

fn key(n: u8) -> Pubkey {
    Pubkey::new_from_array([n; 32])
}

fn pool(push: bool) -> StakingPool {
    initialize_staking_handler(&key(1), &key(2), &key(3), &key(4), 300, 0, push, 255).unwrap()
}

fn blank_stake() -> UserStake {
    UserStake {
        owner: key(0),
        pool: key(0),
        staked_amount: 0,
        stake_start_epoch: 0,
        last_rewarded_epoch: 0,
        total_rewards_received: 0,
        reward_per_token_snapshot: 0,
        snapshot_initialized: false,
        pending_rewards: 0,
        last_claimed_epoch: 0,
        total_rewards_claimed: 0,
        stake_timestamp: 0,
        bump: 0,
    }
}

#[test]
fn snapshot_waits_for_stake_epoch_to_end() {
    let mut p = pool(false);
    let user = key(7);
    let mut u = blank_stake();
    stake_handler(&mut p, &mut u, &user, &key(50), 1_000, 10).unwrap();
    assert_eq!(p.current_epoch, 1);
    assert_eq!(u.stake_start_epoch, 1);
    maybe_initialize_user_snapshot(&mut u, &p);
    assert!(!u.snapshot_initialized);
    deposit_rewards_handler(&mut p, 5_000).unwrap();
    force_advance_epoch_handler(&mut p, &key(1), 20).unwrap();
    assert_eq!(p.current_epoch, 2);
    assert_eq!(p.reward_per_token_accumulated, 0);
    assert_eq!(p.current_epoch_rewards, 5_000);
    maybe_initialize_user_snapshot(&mut u, &p);
    assert!(u.snapshot_initialized);
    assert_eq!(calculate_pending_rewards(&u, &p), Ok(0));
    force_advance_epoch_handler(&mut p, &key(1), 30).unwrap();
    assert_eq!(p.current_epoch, 3);
    assert_eq!(calculate_pending_rewards(&u, &p), Ok(5_000));
}

#[test]
fn accumulator_only_grows_over_idle_epochs() {
    let mut p = pool(false);
    let mut u = blank_stake();
    stake_handler(&mut p, &mut u, &key(7), &key(50), 1_000, 0).unwrap();
    let mut last = p.reward_per_token_accumulated;
    let mut now: i64 = 300;
    while now < 3_000 {
        deposit_rewards_handler(&mut p, 777).unwrap();
        maybe_advance_epoch(&mut p, now).unwrap();
        assert!(p.reward_per_token_accumulated >= last);
        assert!(p.epoch_start_time <= now && now - p.epoch_start_time < 300);
        last = p.reward_per_token_accumulated;
        now += 450;
    }
    assert!(last > 0);
    maybe_advance_epoch(&mut p, 10_000).unwrap();
    assert_eq!(p.current_epoch, 1 + 10_000 / 300);
    assert_eq!(p.epoch_start_time % 300, 0);
}

#[test]
fn rewards_roll_over_without_eligible_stake() {
    let mut p = pool(false);
    deposit_rewards_handler(&mut p, 900).unwrap();
    advance_single_epoch(&mut p).unwrap();
    assert_eq!(p.current_epoch_rewards, 900);
    assert_eq!(p.reward_per_token_accumulated, 0);
    assert_eq!(advance_epoch_handler(&mut p, 10), Err(LendingError::EpochNotEnded));
}

#[test]
fn two_stakers_split_and_claim_conserves() {
    let mut p = pool(false);
    let (a, b) = (key(7), key(8));
    let mut ua = blank_stake();
    let mut ub = blank_stake();
    stake_handler(&mut p, &mut ua, &a, &key(50), 1_000, 0).unwrap();
    stake_handler(&mut p, &mut ub, &b, &key(50), 3_000, 0).unwrap();
    maybe_advance_epoch(&mut p, 300).unwrap();
    maybe_initialize_user_snapshot(&mut ua, &p);
    maybe_initialize_user_snapshot(&mut ub, &p);
    deposit_rewards_handler(&mut p, 10_001).unwrap();
    maybe_advance_epoch(&mut p, 600).unwrap();
    let ra = calculate_pending_rewards(&ua, &p).unwrap();
    let rb = calculate_pending_rewards(&ub, &p).unwrap();
    assert_eq!(ra, 2_500);
    assert_eq!(rb, 7_500);
    assert!(ra + rb <= 10_001);
    let paid = claim_rewards_handler(&mut p, &mut ua, &a, 1_000, 650).unwrap();
    assert_eq!(paid, 1_000);
    assert_eq!(ua.pending_rewards, 1_500);
    assert_eq!(claim_rewards_handler(&mut p, &mut ua, &a, 10_000, 660), Ok(1_500));
    assert_eq!(claim_rewards_handler(&mut p, &mut ua, &a, 10_000, 670), Err(LendingError::NoRewardsToClaim));
    assert_eq!(claim_rewards_handler(&mut p, &mut ub, &a, 10_000, 670), Err(LendingError::Unauthorized));
    assert_eq!(p.total_rewards_distributed, 2_500);
}

#[test]
fn unstake_reduces_eligible_and_full_exit_resets() {
    let mut p = pool(false);
    let a = key(7);
    let mut ua = blank_stake();
    stake_handler(&mut p, &mut ua, &a, &key(50), 1_000, 0).unwrap();
    maybe_advance_epoch(&mut p, 300).unwrap();
    assert_eq!(p.current_epoch_eligible_stake, 1_000);
    unstake_handler(&mut p, &mut ua, &a, 400, 310).unwrap();
    assert_eq!(p.current_epoch_eligible_stake, 600);
    assert_eq!(p.total_staked, 600);
    assert_eq!(unstake_handler(&mut p, &mut ua, &a, 601, 320), Err(LendingError::InsufficientStakeBalance));
    unstake_handler(&mut p, &mut ua, &a, 600, 320).unwrap();
    assert_eq!(ua.staked_amount, 0);
    assert!(!ua.snapshot_initialized);
    assert_eq!(ua.stake_start_epoch, 0);
    assert_eq!(unstake_handler(&mut p, &mut ua, &a, 0, 320), Err(LendingError::InvalidAmount));
}

#[test]
fn staking_admin_paths() {
    let mut p = pool(false);
    assert_eq!(update_epoch_duration_handler(&mut p, &key(1), 59), Err(LendingError::InvalidEpochDuration));
    assert_eq!(update_epoch_duration_handler(&mut p, &key(2), 600), Err(LendingError::Unauthorized));
    update_epoch_duration_handler(&mut p, &key(1), 600).unwrap();
    assert_eq!(p.epoch_duration, 600);
    assert_eq!(emergency_drain_rewards_handler(&p, &key(1), 100, 10), Err(LendingError::StakingNotPaused));
    assert_eq!(emergency_withdraw_handler(&mut p, &key(1), 0, 10), Err(LendingError::InsufficientRewardBalance));
    assert_eq!(emergency_withdraw_handler(&mut p, &key(1), 100, 10), Ok(90));
    assert!(p.paused);
    assert_eq!(emergency_drain_rewards_handler(&p, &key(1), 5, 10), Ok(0));
    let mut u = blank_stake();
    assert_eq!(stake_handler(&mut p, &mut u, &key(7), &key(50), 1, 0), Err(LendingError::StakingPaused));
    assert!(initialize_staking_handler(&key(1), &key(2), &key(3), &key(4), 10, 0, false, 0).is_err());
}

fn record(owner: &Pubkey, pool_key: &Pubkey, staked: u64, start: u64, last: u64, total: u64) -> Vec<u8> {
    let mut d = Vec::new();
    d.extend_from_slice(&DISC);
    d.extend_from_slice(&owner.bytes);
    d.extend_from_slice(&pool_key.bytes);
    d.extend_from_slice(&staked.to_le_bytes());
    d.extend_from_slice(&start.to_le_bytes());
    d.extend_from_slice(&last.to_le_bytes());
    d.extend_from_slice(&total.to_le_bytes());
    d
}

fn pair(program: &Pubkey, pool_key: &Pubkey, wallet: &Pubkey, staked: u64, start: u64, last: u64) -> Vec<AccountView> {
    let (address, _bump) = PdaUtils::derive_user_stake(pool_key, wallet, program).unwrap();
    vec![
        AccountView { key: address, owner: *program, data: record(wallet, pool_key, staked, start, last, 0) },
        AccountView { key: *wallet, owner: key(0), data: Vec::new() },
    ]
}

fn distribution_pool() -> StakingPool {
    let mut p = pool(true);
    p.current_epoch = 5;
    p.last_epoch_rewards = 1_000_000;
    p.last_epoch_eligible_stake = 4_000;
    p
}

#[test]
fn distribution_pays_once_per_epoch() {
    let program = key(70);
    let pool_key = key(71);
    let mut p = distribution_pool();
    let mut accounts = pair(&program, &pool_key, &key(7), 1_000, 1, 0);
    accounts.extend(pair(&program, &pool_key, &key(8), 3_000, 1, 4));
    accounts.extend(pair(&program, &pool_key, &key(9), 3_000, 4, 0));
    let shares = distribute_rewards_handler(&mut p, &pool_key, &program, &DISC, 10_000_000, &mut accounts).unwrap();
    assert_eq!(shares, vec![250_000, 0, 0]);
    assert_eq!(p.last_epoch_distributed, 250_000);
    assert_eq!(p.total_rewards_distributed, 250_000);
    assert_eq!(u64::from_le_bytes(accounts[0].data[88..96].try_into().unwrap()), 4);
    assert_eq!(u64::from_le_bytes(accounts[0].data[96..104].try_into().unwrap()), 250_000);
    let again = distribute_rewards_handler(&mut p, &pool_key, &program, &DISC, 10_000_000, &mut accounts).unwrap();
    assert_eq!(again, vec![0, 0, 0]);
    assert_eq!(p.total_rewards_distributed, 250_000);
}

#[test]
fn distribution_stops_when_vault_runs_dry() {
    let program = key(70);
    let pool_key = key(71);
    let mut p = distribution_pool();
    let mut accounts = pair(&program, &pool_key, &key(7), 1_000, 1, 0);
    accounts.extend(pair(&program, &pool_key, &key(8), 5_000, 1, 0));
    let shares = distribute_rewards_handler(&mut p, &pool_key, &program, &DISC, 300_000, &mut accounts).unwrap();
    assert_eq!(shares, vec![75_000]);
    assert_eq!(p.total_rewards_distributed, 75_000);
    assert_eq!(u64::from_le_bytes(accounts[2].data[88..96].try_into().unwrap()), 0);
}

#[test]
fn distribution_refuses_forged_records() {
    let program = key(70);
    let pool_key = key(71);
    let mut p = distribution_pool();
    let mut wrong_owner = pair(&program, &pool_key, &key(7), 1_000, 1, 0);
    wrong_owner[0].owner = key(99);
    assert_eq!(distribute_rewards_handler(&mut p, &pool_key, &program, &DISC, 1_000_000, &mut wrong_owner), Err(LendingError::InvalidAccountOwner));
    let mut wrong_disc = pair(&program, &pool_key, &key(7), 1_000, 1, 0);
    wrong_disc[0].data[0] = 0;
    assert_eq!(distribute_rewards_handler(&mut p, &pool_key, &program, &DISC, 1_000_000, &mut wrong_disc), Err(LendingError::InvalidDiscriminator));
    let mut wrong_key = pair(&program, &pool_key, &key(7), 1_000, 1, 0);
    wrong_key[0].key = key(33);
    assert_eq!(distribute_rewards_handler(&mut p, &pool_key, &program, &DISC, 1_000_000, &mut wrong_key), Err(LendingError::InvalidPDA));
    let mut wrong_wallet = pair(&program, &pool_key, &key(7), 1_000, 1, 0);
    wrong_wallet[0].data[8] = 0;
    assert_eq!(distribute_rewards_handler(&mut p, &pool_key, &program, &DISC, 1_000_000, &mut wrong_wallet), Err(LendingError::InvalidStakeOwner));
    let mut short = pair(&program, &pool_key, &key(7), 1_000, 1, 0);
    short[0].data.truncate(50);
    assert_eq!(distribute_rewards_handler(&mut p, &pool_key, &program, &DISC, 1_000_000, &mut short), Err(LendingError::InvalidAccountData));
    let mut odd = pair(&program, &pool_key, &key(7), 1_000, 1, 0);
    odd.pop();
    assert_eq!(distribute_rewards_handler(&mut p, &pool_key, &program, &DISC, 1_000_000, &mut odd), Err(LendingError::InvalidAccountPairs));
    assert_eq!(p.total_rewards_distributed, 0);
    let mut claim_mode = pool(false);
    let mut ok = pair(&program, &pool_key, &key(7), 1_000, 1, 0);
    assert_eq!(distribute_rewards_handler(&mut claim_mode, &pool_key, &program, &DISC, 1_000_000, &mut ok), Err(LendingError::FeatureTemporarilyDisabled));
}

#[test]
fn program_addresses_match_the_runtime() {
    let program = key(70);
    let borrower = key(5);
    let mint = key(9);
    let (addr, bump) = PdaUtils::derive_loan(&borrower, &mint, 3, &program).unwrap();
    let expected = anchor_lang::solana_program::pubkey::Pubkey::find_program_address(
        &[b"loan", &borrower.bytes, &mint.bytes, &3u64.to_le_bytes()],
        &anchor_lang::solana_program::pubkey::Pubkey::new_from_array(program.bytes),
    );
    assert_eq!(addr.bytes, expected.0.to_bytes());
    assert_eq!(bump, expected.1);
    assert_ne!(addr, borrower);
    let other = PdaUtils::derive_loan(&borrower, &mint, 4, &program).unwrap();
    assert_ne!(other.0, addr);
    assert!(PdaUtils::derive_protocol_state(&program).is_some());
    assert!(PdaUtils::derive_treasury(&program).is_some());
    assert!(PdaUtils::derive_token_config(&mint, &program).is_some());
    assert!(PdaUtils::derive_vault_token_account(&addr, &program).is_some());
    assert!(PdaUtils::derive_user_exposure(&borrower, &program).is_some());
    assert!(get_bonding_curve_pda(&mint).is_some());
}

#[test]
fn swap_helpers() {
    assert_eq!(calculate_min_output(10_000, 150), 9_850);
    assert_eq!(calculate_min_output(u64::MAX, 0), u64::MAX / 10_000);
    let mut curve = vec![0u8; 49];
    curve[8..16].copy_from_slice(&1_000u64.to_le_bytes());
    curve[16..24].copy_from_slice(&1_000u64.to_le_bytes());
    assert_eq!(calculate_pumpfun_sell_output(&curve, 1_000), Ok(495));
    assert_eq!(calculate_pumpfun_sell_output(&curve[..40], 1), Err(LendingError::InvalidPoolData));
    let data = pumpfun_sell_data(&PumpfunSellArgs { amount: 1, min_sol_output: 258 });
    assert_eq!(data, vec![0x33, 0xe6, 0x85, 0xa4, 0x01, 0x7f, 0x83, 0xad, 1, 0, 0, 0, 0, 0, 0, 0, 2, 1, 0, 0, 0, 0, 0, 0]);
}
