use memecoin_lending::lending::{
    create_loan_handler, liquidate_handler, repay_loan_handler, settle_liquidation,
};
use memecoin_lending::loan_calc::LoanCalculator;
use memecoin_lending::math::SafeMath;
use memecoin_lending::price::{native_mint, PriceFeedUtils};
use memecoin_lending::state::{
    Loan, LoanStatus, PoolType, ProtocolState, TokenConfig, TokenTier, UserExposure,
};
use memecoin_lending::guard::{ExposureCalculator, ReentrancyGuard, ValidationUtils};
use memecoin_lending::admin::{
    accept_admin_transfer_handler, cancel_admin_transfer_handler, distribute_creator_fees_handler,
    emergency_drain_handler, fund_treasury_handler, initialize_fee_receiver_handler,
    initialize_handler, initiate_admin_transfer_handler, pause_handler, set_token_blacklisted,
    update_admin_handler, update_fees_handler, update_token_config, whitelist_token_handler,
    withdraw_treasury_handler,
};
use memecoin_lending::{LendingError, Pubkey};

fn key(n: u8) -> Pubkey {
    Pubkey::new_from_array([n; 32])
}

fn raydium_pool(sol_amount: u64, token_amount: u64, token_mint: &Pubkey) -> Vec<u8> {
    let mut d = vec![0u8; 464];
    d[224..232].copy_from_slice(&sol_amount.to_le_bytes());
    d[232..240].copy_from_slice(&token_amount.to_le_bytes());
    d[400..432].copy_from_slice(&native_mint().bytes);
    d[432..464].copy_from_slice(&token_mint.bytes);
    d
}

fn pumpfun_pool(virtual_token: u64, virtual_sol: u64) -> Vec<u8> {
    let mut d = vec![1u8; 49];
    d[8..16].copy_from_slice(&virtual_token.to_le_bytes());
    d[16..24].copy_from_slice(&virtual_sol.to_le_bytes());
    d
}

fn protocol() -> ProtocolState {
    initialize_handler(&key(1), &key(2), &key(3), 255).unwrap()
}

fn token(pool_type: u8) -> TokenConfig {
    whitelist_token_handler(&protocol(), &key(1), &key(9), 0, &key(8), pool_type, 1, 1_000_000_000_000, 254)
        .unwrap()
}

fn exposure(user: &Pubkey) -> UserExposure {
    UserExposure {
        user: *user,
        total_borrowed: 0,
        active_loans_count: 0,
        loans_repaid: 0,
        loans_liquidated: 0,
        bump: 0,
    }
}

#[test]
fn loan_amount_half_ltv_scenario() {
    assert_eq!(
        LoanCalculator::calculate_loan_amount(1_000_000_000, 2_000_000_000, 5000),
        Ok(1_000_000_000)
    );
}

#[test]
fn loan_amount_overflow_is_refused() {
    assert_eq!(
        LoanCalculator::calculate_loan_amount(u64::MAX, u64::MAX, 10000),
        Err(LendingError::MathOverflow)
    );
}

#[test]
fn liquidation_price_scenario_and_cap() {
    let p = LoanCalculator::calculate_liquidation_price(500_000_000, 1_000_000_000, 5000, 4000);
    assert_eq!(p, Ok(5555));
    let capped = LoanCalculator::calculate_liquidation_price(500_000_000, 1_000_000_000, 5000, 6000);
    assert_eq!(capped, Ok(5555));
}

#[test]
fn liquidation_price_zero_collateral_divides_by_zero() {
    assert_eq!(
        LoanCalculator::calculate_liquidation_price(1, 0, 5000, 300),
        Err(LendingError::DivisionByZero)
    );
}

#[test]
fn duration_adjusted_ltv_values() {
    assert_eq!(LoanCalculator::calculate_duration_adjusted_ltv(5000, 43_200), 6250);
    assert_eq!(LoanCalculator::calculate_duration_adjusted_ltv(5000, 172_800), 5000);
    assert_eq!(LoanCalculator::calculate_duration_adjusted_ltv(5000, 604_800), 3750);
    assert_eq!(LoanCalculator::calculate_duration_adjusted_ltv(5000, 0), 6250);
    assert_eq!(LoanCalculator::calculate_duration_adjusted_ltv(5000, u64::MAX), 3750);
    assert_eq!(LoanCalculator::calculate_duration_adjusted_ltv(8000, 43_200), 9000);
    assert_eq!(LoanCalculator::calculate_duration_adjusted_ltv(500, 604_800), 1000);
}

#[test]
fn duration_adjusted_ltv_never_rises_with_duration() {
    let mut prev = LoanCalculator::calculate_duration_adjusted_ltv(7000, 0);
    let mut d: u64 = 0;
    while d < 700_000 {
        let cur = LoanCalculator::calculate_duration_adjusted_ltv(7000, d);
        assert!(cur <= prev);
        assert!((1000..=9000).contains(&cur));
        prev = cur;
        d += 3_601;
    }
}

#[test]
fn total_owed_adds_flat_fee() {
    assert_eq!(LoanCalculator::calculate_total_owed(1_000_000_000, 200), Ok(1_020_000_000));
    assert_eq!(LoanCalculator::calculate_total_owed(u64::MAX, 200), Err(LendingError::MathOverflow));
}

#[test]
fn health_factor_values() {
    assert_eq!(LoanCalculator::calculate_health_factor(100, 0, 5000), Ok(u64::MAX));
    assert_eq!(LoanCalculator::calculate_health_factor(2_000, 1_000, 5000), Ok(10_000));
    assert!(LoanCalculator::is_loan_healthy(10_000));
    assert!(!LoanCalculator::is_loan_healthy(9_999));
}

#[test]
fn safe_math_errors() {
    assert_eq!(SafeMath::add(u64::MAX, 1), Err(LendingError::MathOverflow));
    assert_eq!(SafeMath::sub(1, 2), Err(LendingError::MathUnderflow));
    assert_eq!(SafeMath::mul(u64::MAX, 2), Err(LendingError::MathOverflow));
    assert_eq!(SafeMath::div(1, 0), Err(LendingError::DivisionByZero));
    assert_eq!(SafeMath::mul_div(u64::MAX, u64::MAX, u64::MAX), Ok(u64::MAX));
    assert_eq!(SafeMath::mul_div(u64::MAX, 2, 1), Err(LendingError::MathOverflow));
    assert_eq!(SafeMath::mul_div(1, 1, 0), Err(LendingError::DivisionByZero));
    assert_eq!(SafeMath::mul_div_u128(u128::MAX, 2, 1), Err(LendingError::MathOverflow));
    assert_eq!(SafeMath::add_u128(u128::MAX, 1), Err(LendingError::MathOverflow));
    assert_eq!(SafeMath::sub_u128(0, 1), Err(LendingError::MathUnderflow));
}

#[test]
fn raydium_price_either_side() {
    let mint = key(9);
    let pool = raydium_pool(2_000_000_000_000, 1_000_000_000_000, &mint);
    assert_eq!(
        PriceFeedUtils::read_price_from_pool(&pool, PoolType::Raydium, &mint),
        Ok(2_000_000_000)
    );
    let mut swapped = vec![0u8; 464];
    swapped[224..232].copy_from_slice(&1_000_000_000_000u64.to_le_bytes());
    swapped[232..240].copy_from_slice(&2_000_000_000_000u64.to_le_bytes());
    swapped[400..432].copy_from_slice(&mint.bytes);
    swapped[432..464].copy_from_slice(&native_mint().bytes);
    assert_eq!(PriceFeedUtils::read_raydium_price(&swapped, &mint, &native_mint()), Ok(2_000_000_000));
}

#[test]
fn raydium_price_errors() {
    let mint = key(9);
    assert_eq!(
        PriceFeedUtils::read_raydium_price(&[0u8; 100], &mint, &native_mint()),
        Err(LendingError::InvalidPriceFeed)
    );
    assert_eq!(
        PriceFeedUtils::read_raydium_price(&[0u8; 464], &mint, &native_mint()),
        Err(LendingError::InvalidPriceFeed)
    );
    let pool = raydium_pool(0, 5, &mint);
    assert_eq!(PriceFeedUtils::read_raydium_price(&pool, &mint, &native_mint()), Err(LendingError::InvalidPriceFeed));
    let pool = raydium_pool(5, 5, &key(7));
    assert_eq!(PriceFeedUtils::read_raydium_price(&pool, &mint, &native_mint()), Err(LendingError::PoolTypeMismatch));
    let pool = raydium_pool(1, 2_000_000_000, &mint);
    assert_eq!(PriceFeedUtils::read_raydium_price(&pool, &mint, &native_mint()), Err(LendingError::ZeroPrice));
    let mut neither = raydium_pool(5, 5, &mint);
    neither[400..432].copy_from_slice(&key(4).bytes);
    assert_eq!(PriceFeedUtils::read_raydium_price(&neither, &mint, &native_mint()), Err(LendingError::InvalidPriceFeed));
}

#[test]
fn pumpfun_price_and_errors() {
    let pool = pumpfun_pool(1_000_000, 30_000);
    assert_eq!(PriceFeedUtils::read_pumpfun_price(&pool), Ok(30_000_000));
    assert_eq!(PriceFeedUtils::read_pumpfun_price(&[1u8; 10]), Err(LendingError::InvalidPriceFeed));
    assert_eq!(PriceFeedUtils::read_pumpfun_price(&[0u8; 24]), Err(LendingError::InvalidPriceFeed));
    assert_eq!(PriceFeedUtils::read_pumpfun_price(&pumpfun_pool(0, 5)), Err(LendingError::InvalidPriceFeed));
    assert_eq!(PriceFeedUtils::read_pumpfun_price(&pumpfun_pool(u64::MAX, 1)), Err(LendingError::ZeroPrice));
}

#[test]
fn price_freshness_and_deviation() {
    assert!(PriceFeedUtils::is_price_fresh(100, 159));
    assert!(!PriceFeedUtils::is_price_fresh(100, 160));
    assert_eq!(PriceFeedUtils::validate_price_deviation(0, 7), Ok(()));
    assert_eq!(PriceFeedUtils::validate_price_deviation(1000, 1050), Ok(()));
    assert_eq!(PriceFeedUtils::validate_price_deviation(1000, 1051), Err(LendingError::PriceDeviationTooHigh));
    assert_eq!(PriceFeedUtils::validate_price_safety(2000, 1000, 0, 300), Ok(()));
    assert_eq!(PriceFeedUtils::validate_price_safety(2000, 1000, 0, 299), Err(LendingError::PriceDeviationTooHigh));
    assert_eq!(PriceFeedUtils::calculate_average_price(&[1, 2, 4]), Ok(2));
    assert_eq!(PriceFeedUtils::calculate_average_price(&[u64::MAX, u64::MAX]), Ok(u64::MAX));
    assert_eq!(PriceFeedUtils::calculate_average_price(&[]), Err(LendingError::InvalidPriceFeed));
    let pool = pumpfun_pool(1_000_000, 30_000);
    assert_eq!(
        PriceFeedUtils::read_price_from_pool_with_validation(&pool, PoolType::Pumpfun, &key(9), 200, 100),
        Err(LendingError::StalePriceFeed)
    );
}

#[test]
fn validation_and_exposure_helpers() {
    assert_eq!(ValidationUtils::validate_loan_duration(43_199), Err(LendingError::InvalidLoanDuration));
    assert_eq!(ValidationUtils::validate_loan_duration(43_200), Ok(()));
    assert_eq!(ValidationUtils::validate_loan_duration(604_801), Err(LendingError::InvalidLoanDuration));
    assert_eq!(ExposureCalculator::calculate_max_exposure(1_000, 1000), Ok(100));
    assert_eq!(ExposureCalculator::would_exceed_limit(60, 40, 100), Ok(false));
    assert_eq!(ExposureCalculator::would_exceed_limit(60, 41, 100), Ok(true));
    assert_eq!(ExposureCalculator::remaining_capacity(120, 100), Ok(0));
    assert_eq!(ExposureCalculator::remaining_capacity(30, 100), Ok(70));
    assert_eq!(ValidationUtils::validate_token_account_owner(&key(1), &key(2)), Err(LendingError::InvalidTokenAccountOwner));
    assert_eq!(ValidationUtils::validate_token_balance(5, 6), Err(LendingError::InsufficientTokenBalance));
}

#[test]
fn liquidation_trigger_boundary_is_inclusive() {
    let mut ps = protocol();
    let mut tc = token(2);
    let borrower = key(5);
    let mut ue = exposure(&borrower);
    let pool = pumpfun_pool(1_000_000_000_000, 2_000_000_000_000);
    let loan = create_loan_handler(&mut ps, &mut tc, &mut ue, &borrower, u64::MAX, &pool, 10_000_000_000, 1_000_000_000, 172_800, 1_000, 7).unwrap();
    let p = loan.liquidation_price;
    assert!(ValidationUtils::is_loan_liquidatable_by_price(&loan, p));
    assert!(ValidationUtils::is_loan_liquidatable_by_price(&loan, p - 1));
    assert!(!ValidationUtils::is_loan_liquidatable_by_price(&loan, p + 1));
    assert!(!ValidationUtils::is_loan_liquidatable_by_time(&loan, loan.due_at));
    assert!(ValidationUtils::is_loan_liquidatable_by_time(&loan, loan.due_at + 1));
}

#[test]
fn reentrancy_guard_refuses_nesting() {
    let mut ps = protocol();
    assert_eq!(ReentrancyGuard::enter(&mut ps), Ok(()));
    assert_eq!(ReentrancyGuard::enter(&mut ps), Err(LendingError::ReentrancyDetected));
    ReentrancyGuard::exit(&mut ps);
    assert!(!ps.reentrancy_guard);
}

#[test]
fn open_repay_and_no_second_repay() {
    let mut ps = protocol();
    let mut tc = token(2);
    let borrower = key(5);
    let mut ue = exposure(&borrower);
    let pool = pumpfun_pool(1_000_000_000_000, 2_000_000_000_000);
    let mut loan = create_loan_handler(&mut ps, &mut tc, &mut ue, &borrower, u64::MAX, &pool, 10_000_000_000, 1_000_000_000, 172_800, 1_000, 7).unwrap();
    assert_eq!(loan.sol_borrowed, 1_000_000_000);
    assert_eq!(loan.entry_price, 2_000_000_000);
    assert_eq!(loan.liquidation_price, 18_867);
    assert_eq!(loan.due_at, 173_800);
    assert_eq!(loan.index, 0);
    assert_eq!(ps.total_loans_created, 1);
    assert_eq!(ps.total_sol_borrowed, 1_000_000_000);
    assert_eq!(tc.total_active_borrowed, 1_000_000_000);
    assert_eq!(ue.total_borrowed, 1_000_000_000);

    assert_eq!(repay_loan_handler(&mut ps, &mut tc, &mut ue, &mut loan, &key(6), u64::MAX).unwrap_err(), LendingError::Unauthorized);
    let s = repay_loan_handler(&mut ps, &mut tc, &mut ue, &mut loan, &borrower, u64::MAX).unwrap();
    assert_eq!(s.protocol_fee, 20_000_000);
    assert_eq!(s.treasury_amount, 1_010_000_000);
    assert_eq!(s.staking_amount, 5_000_000);
    assert_eq!(s.operations_amount, 5_000_000);
    assert_eq!(s.collateral_returned, 1_000_000_000);
    assert_eq!(loan.status, LoanStatus::Repaid);
    assert_eq!(ps.active_loans_count, 0);
    assert_eq!(ps.total_fees_earned, 20_000_000);
    assert_eq!(tc.total_active_borrowed, 0);
    assert_eq!(ue.loans_repaid, 1);

    assert_eq!(repay_loan_handler(&mut ps, &mut tc, &mut ue, &mut loan, &borrower, u64::MAX).unwrap_err(), LendingError::LoanAlreadyRepaid);
    assert_eq!(
        liquidate_handler(&mut ps, &tc, &mut loan, &key(6), &pool, 10_000_000, 0, true).unwrap_err(),
        LendingError::LoanAlreadyRepaid
    );
}

#[test]
fn open_loan_refusals() {
    let borrower = key(5);
    let pool = pumpfun_pool(1_000_000_000_000, 2_000_000_000_000);
    let run = |ps: &mut ProtocolState, tc: &mut TokenConfig, treasury: u64, collateral: u64, duration: u64| {
        let mut ue = exposure(&borrower);
        create_loan_handler(ps, tc, &mut ue, &borrower, u64::MAX, &pool, treasury, collateral, duration, 0, 0)
    };
    let mut ps = protocol();
    let mut tc = token(2);
    assert_eq!(run(&mut ps, &mut tc, 10_000_000_000, 1_000_000_000, 100).unwrap_err(), LendingError::InvalidLoanDuration);
    assert_eq!(run(&mut ps, &mut tc, 10_000_000_000, 1_000, 172_800).unwrap_err(), LendingError::CollateralValueTooLow);
    assert_eq!(run(&mut ps, &mut tc, 500_000_000, 1_000_000_000, 172_800).unwrap_err(), LendingError::InsufficientTreasuryBalance);
    assert_eq!(run(&mut ps, &mut tc, 5_000_000_000, 1_000_000_000, 172_800).unwrap_err(), LendingError::SingleLoanTooLarge);
    tc.total_active_borrowed = 1;
    assert_eq!(run(&mut ps, &mut tc, 10_000_000_000, 1_000_000_000, 172_800).unwrap_err(), LendingError::TokenExposureTooHigh);
    tc.total_active_borrowed = 0;
    tc.max_loan_amount = 10;
    assert_eq!(run(&mut ps, &mut tc, 10_000_000_000, 1_000_000_000, 172_800).unwrap_err(), LendingError::LoanAmountTooHigh);
    let mut tc = token(2);
    tc.min_loan_amount = 2_000_000_000;
    assert_eq!(run(&mut ps, &mut tc, 10_000_000_000, 1_000_000_000, 172_800).unwrap_err(), LendingError::LoanAmountTooLow);
    let mut tc = token(2);
    tc.enabled = false;
    assert_eq!(run(&mut ps, &mut tc, 10_000_000_000, 1_000_000_000, 172_800).unwrap_err(), LendingError::TokenDisabled);
    let mut tc = token(2);
    ps.paused = true;
    assert_eq!(run(&mut ps, &mut tc, 10_000_000_000, 1_000_000_000, 172_800).unwrap_err(), LendingError::ProtocolPaused);
    let mut ps = protocol();
    let before = tc;
    let mut ue = exposure(&borrower);
    ue.total_borrowed = 2_500_000_000;
    let r = create_loan_handler(&mut ps, &mut tc, &mut ue, &borrower, u64::MAX, &pool, 10_000_000_000, 1_000_000_000, 172_800, 0, 0);
    assert_eq!(r.unwrap_err(), LendingError::UserExposureTooHigh);
    assert_eq!(tc.total_active_borrowed, before.total_active_borrowed);
    assert_eq!(ps.total_loans_created, 0);
    let mut ue = exposure(&borrower);
    let r = create_loan_handler(&mut ps, &mut tc, &mut ue, &borrower, 5, &pool, 10_000_000_000, 1_000_000_000, 172_800, 0, 0);
    assert_eq!(r.unwrap_err(), LendingError::InsufficientTokenBalance);
}

#[test]
fn liquidation_by_time_splits_proceeds() {
    let mut ps = protocol();
    let mut tc = token(0);
    let borrower = key(5);
    let mut ue = exposure(&borrower);
    let pool = raydium_pool(2_000_000_000_000, 1_000_000_000_000, &key(9));
    let mut loan: Loan = create_loan_handler(&mut ps, &mut tc, &mut ue, &borrower, u64::MAX, &pool, 10_000_000_000, 1_000_000_000, 172_800, 0, 0).unwrap();
    assert_eq!(
        liquidate_handler(&mut ps, &tc, &mut loan, &key(6), &pool, 100, 1_900_000_000, true).unwrap_err(),
        LendingError::LoanNotLiquidatable
    );
    assert_eq!(
        liquidate_handler(&mut ps, &tc, &mut loan, &key(6), &pool, 172_801, 1_899_999_999, true).unwrap_err(),
        LendingError::SlippageTooHigh
    );
    assert_eq!(
        liquidate_handler(&mut ps, &tc, &mut loan, &key(6), &pool, 172_801, 1_900_000_000, false).unwrap_err(),
        LendingError::MissingJupiterSwapData
    );
    let order = liquidate_handler(&mut ps, &tc, &mut loan, &key(6), &pool, 172_801, 1_900_000_000, true).unwrap();
    assert_eq!(order.reason, LoanStatus::LiquidatedTime);
    assert_eq!(order.expected_sol_value, 2_000_000_000);
    assert_eq!(loan.status, LoanStatus::LiquidatedTime);
    assert!(ps.reentrancy_guard);
    assert_eq!(
        settle_liquidation(&mut ps, &mut tc, &mut ue, &loan, 10, 1_000, 1_900_000_000).unwrap_err(),
        LendingError::SlippageExceeded
    );
    let s = settle_liquidation(&mut ps, &mut tc, &mut ue, &loan, 0, 1_950_000_000, 1_900_000_000).unwrap();
    assert_eq!(s.sol_proceeds, 1_950_000_000);
    assert_eq!(s.operations_share, 97_500_000);
    assert_eq!(s.treasury_share, 1_852_500_000);
    assert!(!ps.reentrancy_guard);
    assert_eq!(ps.active_loans_count, 0);
    assert_eq!(ue.loans_liquidated, 1);
    assert_eq!(
        repay_loan_handler(&mut ps, &mut tc, &mut ue, &mut loan, &borrower, u64::MAX).unwrap_err(),
        LendingError::LoanAlreadyRepaid
    );
}

#[test]
fn liquidation_price_trigger_takes_precedence() {
    let mut ps = protocol();
    let mut tc = token(0);
    let borrower = key(5);
    let mut ue = exposure(&borrower);
    let pool = raydium_pool(2_000_000_000_000, 1_000_000_000_000, &key(9));
    let mut loan = create_loan_handler(&mut ps, &mut tc, &mut ue, &borrower, u64::MAX, &pool, 10_000_000_000, 1_000_000_000, 172_800, 0, 0).unwrap();
    loan.liquidation_price = 3_000_000_000;
    let order = liquidate_handler(&mut ps, &tc, &mut loan, &key(6), &pool, 172_801, 1_900_000_000, true).unwrap();
    assert_eq!(order.reason, LoanStatus::LiquidatedPrice);
    let mut tc2 = tc;
    tc2.pool_type = PoolType::Pumpfun;
    let mut ps2 = protocol();
    let mut loan2 = loan;
    loan2.status = LoanStatus::Active;
    let pf = pumpfun_pool(1_000_000_000_000, 2_000_000_000_000);
    assert_eq!(
        liquidate_handler(&mut ps2, &tc2, &mut loan2, &key(6), &pf, 172_801, 1_900_000_000, true).unwrap_err(),
        LendingError::FeatureTemporarilyDisabled
    );
    ps2.authorized_liquidator = key(44);
    assert_eq!(
        liquidate_handler(&mut ps2, &tc, &mut loan2, &key(6), &pool, 172_801, 1_900_000_000, true).unwrap_err(),
        LendingError::Unauthorized
    );
}

#[test]
fn whitelist_sets_tier_parameters() {
    let ps = protocol();
    let gold = whitelist_token_handler(&ps, &key(1), &key(9), 2, &key(8), 1, 1, 10, 0).unwrap();
    assert_eq!(gold.tier, TokenTier::Gold);
    assert_eq!(gold.ltv_bps, 7000);
    assert_eq!(gold.liquidation_bonus_bps, 500);
    assert_eq!(gold.pool_type, PoolType::Orca);
    assert_eq!(whitelist_token_handler(&ps, &key(1), &key(9), 3, &key(8), 1, 1, 10, 0).unwrap_err(), LendingError::InvalidTokenTier);
    assert_eq!(whitelist_token_handler(&ps, &key(1), &key(9), 0, &key(8), 4, 1, 10, 0).unwrap_err(), LendingError::InvalidPoolType);
    assert_eq!(whitelist_token_handler(&ps, &key(1), &key(9), 0, &key(0), 0, 1, 10, 0).unwrap_err(), LendingError::InvalidPoolAddress);
    assert_eq!(whitelist_token_handler(&ps, &key(1), &key(9), 0, &key(8), 0, 10, 10, 0).unwrap_err(), LendingError::InvalidLoanAmount);
    assert_eq!(whitelist_token_handler(&ps, &key(2), &key(9), 0, &key(8), 0, 1, 10, 0).unwrap_err(), LendingError::Unauthorized);
}

#[test]
fn admin_controls() {
    let mut ps = protocol();
    assert_eq!(initialize_handler(&key(0), &key(2), &key(3), 0).unwrap_err(), LendingError::InvalidAdminAddress);
    assert_eq!(initiate_admin_transfer_handler(&mut ps, &key(1), &key(1), 0), Err(LendingError::InvalidAdminAddress));
    initiate_admin_transfer_handler(&mut ps, &key(1), &key(4), 100).unwrap();
    assert_eq!(accept_admin_transfer_handler(&mut ps, &key(4), 100 + 172_799), Err(LendingError::AdminTransferTooEarly));
    assert_eq!(accept_admin_transfer_handler(&mut ps, &key(5), 100 + 172_800), Err(LendingError::Unauthorized));
    accept_admin_transfer_handler(&mut ps, &key(4), 100 + 172_800).unwrap();
    assert_eq!(ps.admin, key(4));
    assert_eq!(cancel_admin_transfer_handler(&mut ps, &key(4)), Err(LendingError::NoPendingAdminTransfer));
    assert_eq!(update_admin_handler(&mut ps, &key(4), &key(6)), Err(LendingError::ProtocolNotPaused));
    pause_handler(&mut ps, &key(4)).unwrap();
    update_admin_handler(&mut ps, &key(4), &key(6)).unwrap();
    assert_eq!(ps.admin, key(6));
    assert_eq!(update_fees_handler(&mut ps, &key(6), Some(501), None, None, None), Err(LendingError::InvalidFeeConfiguration));
    assert_eq!(update_fees_handler(&mut ps, &key(6), None, Some(9001), None, None), Err(LendingError::InvalidFeeConfiguration));
    update_fees_handler(&mut ps, &key(6), Some(300), Some(8000), Some(1000), Some(1000)).unwrap();
    assert_eq!(ps.protocol_fee_bps, 300);
    let mut tc = token(0);
    ps.paused = false;
    assert_eq!(update_token_config(&ps, &key(6), &mut tc, Some(false), Some(9001)), Err(LendingError::LtvTooHigh));
    assert!(tc.enabled);
    update_token_config(&ps, &key(6), &mut tc, Some(false), Some(4000)).unwrap();
    assert!(!tc.enabled);
    assert_eq!(tc.ltv_bps, 4000);
    set_token_blacklisted(&ps, &key(6), &mut tc, true).unwrap();
    assert!(tc.blacklisted);
    ps.total_sol_borrowed = 600;
    assert_eq!(withdraw_treasury_handler(&ps, &key(6), 1_000, 400), Ok(()));
    assert_eq!(withdraw_treasury_handler(&ps, &key(6), 1_000, 401), Err(LendingError::InsufficientTreasuryBalance));
    assert_eq!(fund_treasury_handler(&mut ps, 0), Err(LendingError::InvalidLoanAmount));
    fund_treasury_handler(&mut ps, 50).unwrap();
    assert_eq!(ps.treasury_balance, 50);
    assert_eq!(emergency_drain_handler(&mut ps, &key(6), 1_000), Ok(1_000));
    assert!(ps.paused);
    assert_eq!(ps.total_sol_borrowed, 0);
    assert_eq!(initialize_fee_receiver_handler(&key(1), &key(2), &key(3), &key(4), 4000, 4000, 1999, 0).unwrap_err(), LendingError::InvalidFeeSplit);
    let mut fr = initialize_fee_receiver_handler(&key(1), &key(2), &key(3), &key(4), 4000, 4000, 2000, 0).unwrap();
    let split = distribute_creator_fees_handler(&mut fr, 1_001_003, 1_000).unwrap();
    assert_eq!(split.distributable, 1_000_003);
    assert_eq!(split.treasury_amount, 400_001);
    assert_eq!(split.staking_amount, 400_001);
    assert_eq!(split.operations_amount, 200_001);
    assert_eq!(distribute_creator_fees_handler(&mut fr, 1_000, 1_000).unwrap_err(), LendingError::InsufficientTreasuryBalance);
}

#[test]
fn open_loan_refused_while_guard_held_or_treasury_committed() {
    let borrower = key(5);
    let pool = pumpfun_pool(1_000_000_000_000, 2_000_000_000_000);
    let mut ps = protocol();
    let mut tc = token(2);
    let mut ue = exposure(&borrower);
    ps.reentrancy_guard = true;
    let r = create_loan_handler(&mut ps, &mut tc, &mut ue, &borrower, u64::MAX, &pool, 10_000_000_000, 1_000_000_000, 172_800, 0, 0);
    assert_eq!(r.unwrap_err(), LendingError::ReentrancyDetected);
    assert!(ps.reentrancy_guard);
    assert_eq!(ps.total_loans_created, 0);
    ps.reentrancy_guard = false;
    ps.total_sol_borrowed = 9_500_000_000;
    let r = create_loan_handler(&mut ps, &mut tc, &mut ue, &borrower, u64::MAX, &pool, 10_000_000_000, 1_000_000_000, 172_800, 0, 0);
    assert_eq!(r.unwrap_err(), LendingError::InsufficientTreasuryBalance);
    ps.total_sol_borrowed = 9_000_000_000;
    let loan = create_loan_handler(&mut ps, &mut tc, &mut ue, &borrower, u64::MAX, &pool, 10_000_000_000, 1_000_000_000, 172_800, 0, 0).unwrap();
    assert_eq!(loan.sol_borrowed, 1_000_000_000);
    assert_eq!(ps.total_sol_borrowed, 10_000_000_000);
}
