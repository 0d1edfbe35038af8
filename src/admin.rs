use vstd::prelude::*;

use crate::error::LendingError;
use crate::math::{spec_mul_div, SafeMath, BPS_DIVISOR};
use crate::pubkey::Pubkey;
use crate::state::{
    FeeReceiver, PoolType, ProtocolState, TokenConfig, TokenTier, PROTOCOL_FEE_BPS,
};

verus! {

/// Seconds between initiating and accepting an admin transfer (48 hours).
pub const ADMIN_TRANSFER_DELAY: i64 = 172_800;

/// Highest flat fee an admin may set, in basis points.
pub const MAX_PROTOCOL_FEE_BPS: u16 = 500;

/// Highest LTV an admin may set, in basis points.
pub const MAX_TOKEN_LTV_BPS: u16 = 9000;

/// Highest liquidation bonus an admin may set: all of the collateral.
pub const MAX_LIQUIDATION_BONUS_BPS: u16 = 10000;

/// The tier's default LTV and liquidation bonus, in basis points.
pub open spec fn tier_params(tier: TokenTier) -> (u16, u16) {
    match tier {
        TokenTier::Bronze => (5000, 1000),
        TokenTier::Silver => (6000, 750),
        TokenTier::Gold => (7000, 500),
    }
}

pub open spec fn tier_of(tier: u8) -> Option<TokenTier> {
    if tier == 0 {
        Some(TokenTier::Bronze)
    } else if tier == 1 {
        Some(TokenTier::Silver)
    } else if tier == 2 {
        Some(TokenTier::Gold)
    } else {
        None
    }
}

pub open spec fn pool_type_of(pool_type: u8) -> Option<PoolType> {
    if pool_type == 0 {
        Some(PoolType::Raydium)
    } else if pool_type == 1 {
        Some(PoolType::Orca)
    } else if pool_type == 2 {
        Some(PoolType::Pumpfun)
    } else if pool_type == 3 {
        Some(PoolType::PumpSwap)
    } else {
        None
    }
}

fn admin_check(ps: &ProtocolState, admin: &Pubkey) -> (r: Result<(), LendingError>)
    ensures
        ps.admin@ == admin@ ==> r is Ok,
        ps.admin@ != admin@ ==> r == Err::<(), LendingError>(LendingError::Unauthorized),
{
    if !ps.admin.same(admin) {
        return Err(LendingError::Unauthorized);
    }
    Ok(())
}

/// A new protocol state; every address must be a real one.
pub fn initialize_handler(
    admin: &Pubkey,
    buyback_wallet: &Pubkey,
    operations_wallet: &Pubkey,
    bump: u8,
) -> (r: Result<ProtocolState, LendingError>)
    ensures
        admin.is_zero_spec() || buyback_wallet.is_zero_spec() || operations_wallet.is_zero_spec()
            ==> r == Err::<ProtocolState, LendingError>(LendingError::InvalidAdminAddress),
        !(admin.is_zero_spec() || buyback_wallet.is_zero_spec()
            || operations_wallet.is_zero_spec()) ==> (r matches Ok(s) && s.admin == *admin
            && s.buyback_wallet == *buyback_wallet && s.operations_wallet == *operations_wallet
            && s.pending_admin.is_zero_spec() && !s.paused && !s.reentrancy_guard
            && s.total_loans_created == 0 && s.total_sol_borrowed == 0 && s.total_fees_earned == 0
            && s.active_loans_count == 0 && s.protocol_fee_bps == PROTOCOL_FEE_BPS
            && s.treasury_fee_bps + s.buyback_fee_bps + s.operations_fee_bps == 10000 && s.bump
            == bump && s.wf()),
{
    if admin.is_default() || buyback_wallet.is_default() || operations_wallet.is_default() {
        return Err(LendingError::InvalidAdminAddress);
    }
    let zero = Pubkey::default_key();
    Ok(
        ProtocolState {
            admin: *admin,
            buyback_wallet: *buyback_wallet,
            operations_wallet: *operations_wallet,
            pending_admin: zero,
            admin_transfer_timestamp: 0,
            authorized_liquidator: zero,
            price_authority: zero,
            paused: false,
            reentrancy_guard: false,
            total_loans_created: 0,
            total_sol_borrowed: 0,
            total_fees_earned: 0,
            active_loans_count: 0,
            protocol_fee_bps: PROTOCOL_FEE_BPS,
            treasury_fee_bps: 9000,
            buyback_fee_bps: 500,
            operations_fee_bps: 500,
            treasury_balance: 0,
            liquidation_bonus_bps: 500,
            bump,
        },
    )
}

/// Whitelists a collateral token: checks the tier, the pool kind, the pool
/// address and the loan bounds, and sets the tier's LTV and bonus.
pub fn whitelist_token_handler(
    protocol_state: &ProtocolState,
    admin: &Pubkey,
    token_mint: &Pubkey,
    tier: u8,
    pool_address: &Pubkey,
    pool_type: u8,
    min_loan_amount: u64,
    max_loan_amount: u64,
    bump: u8,
) -> (r: Result<TokenConfig, LendingError>)
    ensures
        protocol_state.paused ==> r == Err::<TokenConfig, LendingError>(
            LendingError::ProtocolPaused,
        ),
        !protocol_state.paused && protocol_state.admin@ != admin@ ==> r == Err::<
            TokenConfig,
            LendingError,
        >(LendingError::Unauthorized),
        r is Ok ==> !protocol_state.paused && protocol_state.admin@ == admin@,
        r matches Ok(c) ==> c.wf(),
        !protocol_state.paused && protocol_state.admin@ == admin@ ==> {
            if tier_of(tier) is None {
                r == Err::<TokenConfig, LendingError>(LendingError::InvalidTokenTier)
            } else if pool_type_of(pool_type) is None {
                r == Err::<TokenConfig, LendingError>(LendingError::InvalidPoolType)
            } else if pool_address.is_zero_spec() {
                r == Err::<TokenConfig, LendingError>(LendingError::InvalidPoolAddress)
            } else if min_loan_amount == 0 || max_loan_amount == 0 || min_loan_amount
                >= max_loan_amount {
                r == Err::<TokenConfig, LendingError>(LendingError::InvalidLoanAmount)
            } else {
                r == Ok::<TokenConfig, LendingError>(
                    TokenConfig {
                        mint: *token_mint,
                        tier: tier_of(tier).unwrap(),
                        enabled: true,
                        blacklisted: false,
                        pool_address: *pool_address,
                        pool_type: pool_type_of(pool_type).unwrap(),
                        ltv_bps: tier_params(tier_of(tier).unwrap()).0,
                        liquidation_bonus_bps: tier_params(tier_of(tier).unwrap()).1,
                        min_loan_amount,
                        max_loan_amount,
                        active_loans_count: 0,
                        total_volume: 0,
                        total_active_borrowed: 0,
                        bump,
                    },
                )
            }
        },
{
    if protocol_state.paused {
        return Err(LendingError::ProtocolPaused);
    }
    match admin_check(protocol_state, admin) {
        Ok(()) => {},
        Err(e) => return Err(e),
    }
    let token_tier = if tier == 0 {
        TokenTier::Bronze
    } else if tier == 1 {
        TokenTier::Silver
    } else if tier == 2 {
        TokenTier::Gold
    } else {
        return Err(LendingError::InvalidTokenTier);
    };
    let kind = if pool_type == 0 {
        PoolType::Raydium
    } else if pool_type == 1 {
        PoolType::Orca
    } else if pool_type == 2 {
        PoolType::Pumpfun
    } else if pool_type == 3 {
        PoolType::PumpSwap
    } else {
        return Err(LendingError::InvalidPoolType);
    };
    if pool_address.is_default() {
        return Err(LendingError::InvalidPoolAddress);
    }
    if min_loan_amount == 0 || max_loan_amount == 0 || min_loan_amount >= max_loan_amount {
        return Err(LendingError::InvalidLoanAmount);
    }
    let (ltv_bps, liquidation_bonus_bps): (u16, u16) = match token_tier {
        TokenTier::Bronze => (5000, 1000),
        TokenTier::Silver => (6000, 750),
        TokenTier::Gold => (7000, 500),
    };
    Ok(
        TokenConfig {
            mint: *token_mint,
            tier: token_tier,
            enabled: true,
            blacklisted: false,
            pool_address: *pool_address,
            pool_type: kind,
            ltv_bps,
            liquidation_bonus_bps,
            min_loan_amount,
            max_loan_amount,
            active_loans_count: 0,
            total_volume: 0,
            total_active_borrowed: 0,
            bump,
        },
    )
}

/// Enables or disables a token and sets its LTV (at most 90%); either is
/// optional. A rejected LTV changes nothing.
pub fn update_token_config(
    protocol_state: &ProtocolState,
    admin: &Pubkey,
    token_config: &mut TokenConfig,
    enabled: Option<bool>,
    ltv_bps: Option<u16>,
) -> (r: Result<(), LendingError>)
    ensures
        protocol_state.paused ==> r == Err::<(), LendingError>(LendingError::ProtocolPaused),
        !protocol_state.paused && protocol_state.admin@ != admin@ ==> r == Err::<(), LendingError>(
            LendingError::Unauthorized,
        ),
        !protocol_state.paused && protocol_state.admin@ == admin@ && (ltv_bps matches Some(l)
            && l > MAX_TOKEN_LTV_BPS) ==> r == Err::<(), LendingError>(LendingError::LtvTooHigh),
        r is Err ==> *final(token_config) == *old(token_config),
        r is Ok ==> !protocol_state.paused && protocol_state.admin@ == admin@ && *final(token_config) == (TokenConfig {
            enabled: match enabled {
                Some(v) => v,
                None => old(token_config).enabled,
            },
            ltv_bps: match ltv_bps {
                Some(v) => v,
                None => old(token_config).ltv_bps,
            },
            ..*old(token_config)
        }),
        !protocol_state.paused && protocol_state.admin@ == admin@ && !(ltv_bps matches Some(l)
            && l > MAX_TOKEN_LTV_BPS) ==> r is Ok,
        old(token_config).wf() ==> final(token_config).wf(),
{
    if protocol_state.paused {
        return Err(LendingError::ProtocolPaused);
    }
    match admin_check(protocol_state, admin) {
        Ok(()) => {},
        Err(e) => return Err(e),
    }
    if let Some(l) = ltv_bps {
        if l > MAX_TOKEN_LTV_BPS {
            return Err(LendingError::LtvTooHigh);
        }
        token_config.ltv_bps = l;
    }
    if let Some(v) = enabled {
        token_config.enabled = v;
    }
    Ok(())
}

/// Blacklists a token, or lifts its blacklisting; a blacklisted token
/// takes no new loans.
pub fn set_token_blacklisted(
    protocol_state: &ProtocolState,
    admin: &Pubkey,
    token_config: &mut TokenConfig,
    blacklisted: bool,
) -> (r: Result<(), LendingError>)
    ensures
        protocol_state.admin@ != admin@ ==> r == Err::<(), LendingError>(LendingError::Unauthorized)
            && *final(token_config) == *old(token_config),
        protocol_state.admin@ == admin@ ==> r is Ok && *final(token_config) == (TokenConfig {
            blacklisted,
            ..*old(token_config)
        }),
{
    match admin_check(protocol_state, admin) {
        Ok(()) => {},
        Err(e) => return Err(e),
    }
    token_config.blacklisted = blacklisted;
    Ok(())
}

/// Sets the flat fee (at most 5%) and the three liquidation splits, which
/// must sum to 10000 once the optional new values are applied.
pub fn update_fees_handler(
    protocol_state: &mut ProtocolState,
    admin: &Pubkey,
    protocol_fee_bps: Option<u16>,
    treasury_fee_bps: Option<u16>,
    buyback_fee_bps: Option<u16>,
    operations_fee_bps: Option<u16>,
) -> (r: Result<(), LendingError>)
    ensures
        ({
            let t = match treasury_fee_bps {
                Some(v) => v,
                None => old(protocol_state).treasury_fee_bps,
            };
            let b = match buyback_fee_bps {
                Some(v) => v,
                None => old(protocol_state).buyback_fee_bps,
            };
            let o = match operations_fee_bps {
                Some(v) => v,
                None => old(protocol_state).operations_fee_bps,
            };
            let f = match protocol_fee_bps {
                Some(v) => v,
                None => old(protocol_state).protocol_fee_bps,
            };
            if old(protocol_state).admin@ != admin@ {
                r == Err::<(), LendingError>(LendingError::Unauthorized)
            } else if protocol_fee_bps matches Some(v) && v > MAX_PROTOCOL_FEE_BPS {
                r == Err::<(), LendingError>(LendingError::InvalidFeeConfiguration)
            } else if t + b + o != 10000 {
                r == Err::<(), LendingError>(LendingError::InvalidFeeConfiguration)
            } else {
                r is Ok && *final(protocol_state) == (ProtocolState {
                    protocol_fee_bps: f,
                    treasury_fee_bps: t,
                    buyback_fee_bps: b,
                    operations_fee_bps: o,
                    ..*old(protocol_state)
                })
            }
        }),
        r is Err ==> *final(protocol_state) == *old(protocol_state),
        old(protocol_state).wf() ==> final(protocol_state).wf(),
{
    match admin_check(protocol_state, admin) {
        Ok(()) => {},
        Err(e) => return Err(e),
    }
    let fee = match protocol_fee_bps {
        Some(v) => {
            if v > MAX_PROTOCOL_FEE_BPS {
                return Err(LendingError::InvalidFeeConfiguration);
            }
            v
        },
        None => protocol_state.protocol_fee_bps,
    };
    let treasury = match treasury_fee_bps {
        Some(v) => v,
        None => protocol_state.treasury_fee_bps,
    };
    let buyback = match buyback_fee_bps {
        Some(v) => v,
        None => protocol_state.buyback_fee_bps,
    };
    let operations = match operations_fee_bps {
        Some(v) => v,
        None => protocol_state.operations_fee_bps,
    };
    if treasury as u32 + buyback as u32 + operations as u32 != 10000 {
        return Err(LendingError::InvalidFeeConfiguration);
    }
    protocol_state.protocol_fee_bps = fee;
    protocol_state.treasury_fee_bps = treasury;
    protocol_state.buyback_fee_bps = buyback;
    protocol_state.operations_fee_bps = operations;
    Ok(())
}

pub fn pause_handler(protocol_state: &mut ProtocolState, admin: &Pubkey) -> (r: Result<
    (),
    LendingError,
>)
    ensures
        old(protocol_state).admin@ != admin@ ==> r == Err::<(), LendingError>(
            LendingError::Unauthorized,
        ) && *final(protocol_state) == *old(protocol_state),
        old(protocol_state).admin@ == admin@ ==> r is Ok && *final(protocol_state) == (
        ProtocolState { paused: true, ..*old(protocol_state) }),
{
    match admin_check(protocol_state, admin) {
        Ok(()) => {},
        Err(e) => return Err(e),
    }
    protocol_state.paused = true;
    Ok(())
}

pub fn resume_handler(protocol_state: &mut ProtocolState, admin: &Pubkey) -> (r: Result<
    (),
    LendingError,
>)
    ensures
        old(protocol_state).admin@ != admin@ ==> r == Err::<(), LendingError>(
            LendingError::Unauthorized,
        ) && *final(protocol_state) == *old(protocol_state),
        old(protocol_state).admin@ == admin@ ==> r is Ok && *final(protocol_state) == (
        ProtocolState { paused: false, ..*old(protocol_state) }),
{
    match admin_check(protocol_state, admin) {
        Ok(()) => {},
        Err(e) => return Err(e),
    }
    protocol_state.paused = false;
    Ok(())
}

/// Emergency replacement of the admin, allowed only while paused; any
/// pending transfer is dropped.
pub fn update_admin_handler(protocol_state: &mut ProtocolState, admin: &Pubkey, new_admin: &Pubkey) -> (r:
    Result<(), LendingError>)
    ensures
        old(protocol_state).admin@ != admin@ ==> r == Err::<(), LendingError>(
            LendingError::Unauthorized,
        ),
        old(protocol_state).admin@ == admin@ && !old(protocol_state).paused ==> r == Err::<
            (),
            LendingError,
        >(LendingError::ProtocolNotPaused),
        old(protocol_state).admin@ == admin@ && old(protocol_state).paused
            && new_admin.is_zero_spec() ==> r == Err::<(), LendingError>(
            LendingError::InvalidAdminAddress,
        ),
        r is Err ==> *final(protocol_state) == *old(protocol_state),
        old(protocol_state).admin@ == admin@ && old(protocol_state).paused
            && !new_admin.is_zero_spec() ==> r is Ok && final(protocol_state).admin == *new_admin
            && final(protocol_state).pending_admin.is_zero_spec() && final(protocol_state).admin_transfer_timestamp == 0 && *final(protocol_state) == (ProtocolState {
            admin: *new_admin,
            pending_admin: final(protocol_state).pending_admin,
            admin_transfer_timestamp: 0,
            ..*old(protocol_state)
        }),
{
    match admin_check(protocol_state, admin) {
        Ok(()) => {},
        Err(e) => return Err(e),
    }
    if !protocol_state.paused {
        return Err(LendingError::ProtocolNotPaused);
    }
    if new_admin.is_default() {
        return Err(LendingError::InvalidAdminAddress);
    }
    protocol_state.admin = *new_admin;
    protocol_state.pending_admin = Pubkey::default_key();
    protocol_state.admin_transfer_timestamp = 0;
    Ok(())
}

/// Starts the 48-hour timelock on handing the admin role to `new_admin`.
pub fn initiate_admin_transfer_handler(
    protocol_state: &mut ProtocolState,
    admin: &Pubkey,
    new_admin: &Pubkey,
    now: i64,
) -> (r: Result<(), LendingError>)
    ensures
        old(protocol_state).admin@ != admin@ ==> r == Err::<(), LendingError>(
            LendingError::Unauthorized,
        ),
        old(protocol_state).admin@ == admin@ && (new_admin.is_zero_spec() || new_admin@ == old(protocol_state).admin@) ==> r == Err::<(), LendingError>(LendingError::InvalidAdminAddress),
        r is Err ==> *final(protocol_state) == *old(protocol_state),
        old(protocol_state).admin@ == admin@ && !new_admin.is_zero_spec() && new_admin@ != old(protocol_state).admin@ ==> r is Ok && *final(protocol_state) == (ProtocolState {
            pending_admin: *new_admin,
            admin_transfer_timestamp: now,
            ..*old(protocol_state)
        }),
{
    match admin_check(protocol_state, admin) {
        Ok(()) => {},
        Err(e) => return Err(e),
    }
    if new_admin.is_default() || new_admin.same(&protocol_state.admin) {
        return Err(LendingError::InvalidAdminAddress);
    }
    protocol_state.pending_admin = *new_admin;
    protocol_state.admin_transfer_timestamp = now;
    Ok(())
}

/// Completes a pending admin transfer once the timelock has run out; only
/// the pending admin may call it.
pub fn accept_admin_transfer_handler(
    protocol_state: &mut ProtocolState,
    new_admin: &Pubkey,
    now: i64,
) -> (r: Result<(), LendingError>)
    ensures
        old(protocol_state).pending_admin.is_zero_spec() ==> r == Err::<(), LendingError>(
            LendingError::NoPendingAdminTransfer,
        ),
        !old(protocol_state).pending_admin.is_zero_spec() && old(protocol_state).pending_admin@
            != new_admin@ ==> r == Err::<(), LendingError>(LendingError::Unauthorized),
        !old(protocol_state).pending_admin.is_zero_spec() && old(protocol_state).pending_admin@
            == new_admin@ && now - old(protocol_state).admin_transfer_timestamp
            < ADMIN_TRANSFER_DELAY ==> r == Err::<(), LendingError>(
            LendingError::AdminTransferTooEarly,
        ),
        r is Err ==> *final(protocol_state) == *old(protocol_state),
        !old(protocol_state).pending_admin.is_zero_spec() && old(protocol_state).pending_admin@
            == new_admin@ && now - old(protocol_state).admin_transfer_timestamp
            >= ADMIN_TRANSFER_DELAY ==> r is Ok && final(protocol_state).pending_admin.is_zero_spec()
            && *final(protocol_state) == (ProtocolState {
            admin: old(protocol_state).pending_admin,
            pending_admin: final(protocol_state).pending_admin,
            admin_transfer_timestamp: 0,
            ..*old(protocol_state)
        }),
{
    if protocol_state.pending_admin.is_default() {
        return Err(LendingError::NoPendingAdminTransfer);
    }
    if !protocol_state.pending_admin.same(new_admin) {
        return Err(LendingError::Unauthorized);
    }
    if (now as i128) - (protocol_state.admin_transfer_timestamp as i128)
        < ADMIN_TRANSFER_DELAY as i128 {
        return Err(LendingError::AdminTransferTooEarly);
    }
    protocol_state.admin = protocol_state.pending_admin;
    protocol_state.pending_admin = Pubkey::default_key();
    protocol_state.admin_transfer_timestamp = 0;
    Ok(())
}

/// Drops a pending admin transfer.
pub fn cancel_admin_transfer_handler(protocol_state: &mut ProtocolState, admin: &Pubkey) -> (r:
    Result<(), LendingError>)
    ensures
        old(protocol_state).admin@ != admin@ ==> r == Err::<(), LendingError>(
            LendingError::Unauthorized,
        ),
        old(protocol_state).admin@ == admin@ && old(protocol_state).pending_admin.is_zero_spec()
            ==> r == Err::<(), LendingError>(LendingError::NoPendingAdminTransfer),
        r is Err ==> *final(protocol_state) == *old(protocol_state),
        old(protocol_state).admin@ == admin@ && !old(protocol_state).pending_admin.is_zero_spec()
            ==> r is Ok && final(protocol_state).pending_admin.is_zero_spec() && *final(protocol_state)
            == (ProtocolState {
            pending_admin: final(protocol_state).pending_admin,
            admin_transfer_timestamp: 0,
            ..*old(protocol_state)
        }),
{
    match admin_check(protocol_state, admin) {
        Ok(()) => {},
        Err(e) => return Err(e),
    }
    if protocol_state.pending_admin.is_default() {
        return Err(LendingError::NoPendingAdminTransfer);
    }
    protocol_state.pending_admin = Pubkey::default_key();
    protocol_state.admin_transfer_timestamp = 0;
    Ok(())
}

/// Checks that `amount` may leave the treasury: it must be there, and what
/// is lent out stays reserved.
pub fn withdraw_treasury_handler(
    protocol_state: &ProtocolState,
    admin: &Pubkey,
    treasury_balance: u64,
    amount: u64,
) -> (r: Result<(), LendingError>)
    ensures
        protocol_state.admin@ != admin@ ==> r == Err::<(), LendingError>(
            LendingError::Unauthorized,
        ),
        protocol_state.admin@ == admin@ ==> {
            if treasury_balance < amount {
                r == Err::<(), LendingError>(LendingError::InsufficientTreasuryBalance)
            } else if treasury_balance < protocol_state.total_sol_borrowed {
                r == Err::<(), LendingError>(LendingError::MathUnderflow)
            } else if amount > treasury_balance - protocol_state.total_sol_borrowed {
                r == Err::<(), LendingError>(LendingError::InsufficientTreasuryBalance)
            } else {
                r is Ok
            }
        },
{
    match admin_check(protocol_state, admin) {
        Ok(()) => {},
        Err(e) => return Err(e),
    }
    if treasury_balance < amount {
        return Err(LendingError::InsufficientTreasuryBalance);
    }
    let available = match SafeMath::sub(treasury_balance, protocol_state.total_sol_borrowed) {
        Ok(a) => a,
        Err(e) => return Err(e),
    };
    if amount > available {
        return Err(LendingError::InsufficientTreasuryBalance);
    }
    Ok(())
}

/// Replaces any of the admin, buyback and operations addresses; a new
/// admin must be a real address. A rejection changes nothing.
pub fn update_wallets_handler(
    protocol_state: &mut ProtocolState,
    admin: &Pubkey,
    new_admin: Option<Pubkey>,
    new_buyback_wallet: Option<Pubkey>,
    new_operations_wallet: Option<Pubkey>,
) -> (r: Result<(), LendingError>)
    ensures
        old(protocol_state).admin@ != admin@ ==> r == Err::<(), LendingError>(
            LendingError::Unauthorized,
        ),
        old(protocol_state).admin@ == admin@ && (new_admin matches Some(a) && a.is_zero_spec())
            ==> r == Err::<(), LendingError>(LendingError::InvalidAdminAddress),
        r is Err ==> *final(protocol_state) == *old(protocol_state),
        old(protocol_state).admin@ == admin@ && !(new_admin matches Some(a) && a.is_zero_spec())
            ==> r is Ok && *final(protocol_state) == (ProtocolState {
            admin: match new_admin {
                Some(a) => a,
                None => old(protocol_state).admin,
            },
            buyback_wallet: match new_buyback_wallet {
                Some(a) => a,
                None => old(protocol_state).buyback_wallet,
            },
            operations_wallet: match new_operations_wallet {
                Some(a) => a,
                None => old(protocol_state).operations_wallet,
            },
            ..*old(protocol_state)
        }),
{
    match admin_check(protocol_state, admin) {
        Ok(()) => {},
        Err(e) => return Err(e),
    }
    if let Some(a) = new_admin {
        if a.is_default() {
            return Err(LendingError::InvalidAdminAddress);
        }
        protocol_state.admin = a;
    }
    if let Some(b) = new_buyback_wallet {
        protocol_state.buyback_wallet = b;
    }
    if let Some(o) = new_operations_wallet {
        protocol_state.operations_wallet = o;
    }
    Ok(())
}

/// Sets who may liquidate (all zero: anyone) and who may publish prices.
pub fn update_authorities_handler(
    protocol_state: &mut ProtocolState,
    admin: &Pubkey,
    authorized_liquidator: &Pubkey,
    price_authority: &Pubkey,
) -> (r: Result<(), LendingError>)
    ensures
        old(protocol_state).admin@ != admin@ ==> r == Err::<(), LendingError>(
            LendingError::Unauthorized,
        ) && *final(protocol_state) == *old(protocol_state),
        old(protocol_state).admin@ == admin@ ==> r is Ok && *final(protocol_state) == (
        ProtocolState {
            authorized_liquidator: *authorized_liquidator,
            price_authority: *price_authority,
            ..*old(protocol_state)
        }),
{
    match admin_check(protocol_state, admin) {
        Ok(()) => {},
        Err(e) => return Err(e),
    }
    protocol_state.authorized_liquidator = *authorized_liquidator;
    protocol_state.price_authority = *price_authority;
    Ok(())
}

/// Sets the global liquidation bonus, at most 100%.
pub fn update_liquidation_bonus_handler(
    protocol_state: &mut ProtocolState,
    admin: &Pubkey,
    new_bonus_bps: u16,
) -> (r: Result<(), LendingError>)
    ensures
        old(protocol_state).admin@ != admin@ ==> r == Err::<(), LendingError>(
            LendingError::Unauthorized,
        ),
        old(protocol_state).admin@ == admin@ && new_bonus_bps > MAX_LIQUIDATION_BONUS_BPS ==> r
            == Err::<(), LendingError>(LendingError::InvalidLiquidationBonus),
        r is Err ==> *final(protocol_state) == *old(protocol_state),
        old(protocol_state).admin@ == admin@ && new_bonus_bps <= MAX_LIQUIDATION_BONUS_BPS ==> r is Ok
            && *final(protocol_state) == (ProtocolState {
            liquidation_bonus_bps: new_bonus_bps,
            ..*old(protocol_state)
        }),
{
    match admin_check(protocol_state, admin) {
        Ok(()) => {},
        Err(e) => return Err(e),
    }
    if new_bonus_bps > MAX_LIQUIDATION_BONUS_BPS {
        return Err(LendingError::InvalidLiquidationBonus);
    }
    protocol_state.liquidation_bonus_bps = new_bonus_bps;
    Ok(())
}

/// Last-resort circuit breaker: pauses the protocol, clears its lending
/// totals and returns the whole treasury balance for the admin to sweep.
pub fn emergency_drain_handler(
    protocol_state: &mut ProtocolState,
    admin: &Pubkey,
    treasury_balance: u64,
) -> (r: Result<u64, LendingError>)
    ensures
        old(protocol_state).admin@ != admin@ ==> r == Err::<u64, LendingError>(
            LendingError::Unauthorized,
        ) && *final(protocol_state) == *old(protocol_state),
        old(protocol_state).admin@ == admin@ ==> r == Ok::<u64, LendingError>(treasury_balance)
            && *final(protocol_state) == (ProtocolState {
            paused: true,
            total_sol_borrowed: 0,
            total_fees_earned: 0,
            ..*old(protocol_state)
        }),
{
    match admin_check(protocol_state, admin) {
        Ok(()) => {},
        Err(e) => return Err(e),
    }
    protocol_state.paused = true;
    protocol_state.total_sol_borrowed = 0;
    protocol_state.total_fees_earned = 0;
    Ok(treasury_balance)
}

/// Records a deposit of `amount` into the treasury.
pub fn fund_treasury_handler(protocol_state: &mut ProtocolState, amount: u64) -> (r: Result<
    (),
    LendingError,
>)
    ensures
        amount == 0 ==> r == Err::<(), LendingError>(LendingError::InvalidLoanAmount),
        amount > 0 && old(protocol_state).treasury_balance + amount > u64::MAX ==> r == Err::<
            (),
            LendingError,
        >(LendingError::MathOverflow),
        r is Err ==> *final(protocol_state) == *old(protocol_state),
        amount > 0 && old(protocol_state).treasury_balance + amount <= u64::MAX ==> r is Ok && *final(protocol_state) == (ProtocolState {
            treasury_balance: (old(protocol_state).treasury_balance + amount) as u64,
            ..*old(protocol_state)
        }),
{
    if amount == 0 {
        return Err(LendingError::InvalidLoanAmount);
    }
    let balance = match SafeMath::add(protocol_state.treasury_balance, amount) {
        Ok(b) => b,
        Err(e) => return Err(e),
    };
    protocol_state.treasury_balance = balance;
    Ok(())
}

/// A fee receiver whose three splits sum to 10000.
pub fn initialize_fee_receiver_handler(
    authority: &Pubkey,
    treasury_wallet: &Pubkey,
    operations_wallet: &Pubkey,
    staking_reward_vault: &Pubkey,
    treasury_split_bps: u16,
    staking_split_bps: u16,
    operations_split_bps: u16,
    bump: u8,
) -> (r: Result<FeeReceiver, LendingError>)
    ensures
        treasury_split_bps + staking_split_bps + operations_split_bps != 10000 ==> r == Err::<
            FeeReceiver,
            LendingError,
        >(LendingError::InvalidFeeSplit),
        r matches Ok(f) ==> f.wf(),
        treasury_split_bps + staking_split_bps + operations_split_bps == 10000 ==> r == Ok::<
            FeeReceiver,
            LendingError,
        >(
            FeeReceiver {
                authority: *authority,
                treasury_wallet: *treasury_wallet,
                operations_wallet: *operations_wallet,
                staking_reward_vault: *staking_reward_vault,
                treasury_split_bps,
                staking_split_bps,
                operations_split_bps,
                total_fees_received: 0,
                total_fees_distributed: 0,
                bump,
            },
        ),
{
    if treasury_split_bps as u32 + staking_split_bps as u32 + operations_split_bps as u32 != 10000 {
        return Err(LendingError::InvalidFeeSplit);
    }
    Ok(
        FeeReceiver {
            authority: *authority,
            treasury_wallet: *treasury_wallet,
            operations_wallet: *operations_wallet,
            staking_reward_vault: *staking_reward_vault,
            treasury_split_bps,
            staking_split_bps,
            operations_split_bps,
            total_fees_received: 0,
            total_fees_distributed: 0,
            bump,
        },
    )
}

/// Amounts swept out of the fee receiver.
#[derive(Clone, Copy, Debug)]
pub struct CreatorFeeSplit {
    pub distributable: u64,
    pub treasury_amount: u64,
    pub staking_amount: u64,
    pub operations_amount: u64,
}

/// Splits what the fee receiver holds above its rent-exempt minimum:
/// treasury and staking by their basis points, operations the remainder.
pub fn distribute_creator_fees_handler(
    fee_receiver: &mut FeeReceiver,
    current_balance: u64,
    rent_exempt_minimum: u64,
) -> (r: Result<CreatorFeeSplit, LendingError>)
    ensures
        current_balance <= rent_exempt_minimum ==> r == Err::<CreatorFeeSplit, LendingError>(
            LendingError::InsufficientTreasuryBalance,
        ),
        r is Err ==> *final(fee_receiver) == *old(fee_receiver),
        current_balance > rent_exempt_minimum && old(fee_receiver).wf() && old(
            fee_receiver,
        ).total_fees_distributed + (current_balance - rent_exempt_minimum) <= u64::MAX ==> r is Ok,
        r matches Ok(s) ==> {
            &&& s.distributable == current_balance - rent_exempt_minimum
            &&& spec_mul_div(
                s.distributable,
                old(fee_receiver).treasury_split_bps as u64,
                BPS_DIVISOR,
            ) == Ok::<u64, LendingError>(s.treasury_amount)
            &&& spec_mul_div(
                s.distributable,
                old(fee_receiver).staking_split_bps as u64,
                BPS_DIVISOR,
            ) == Ok::<u64, LendingError>(s.staking_amount)
            &&& (s.treasury_amount + s.staking_amount <= s.distributable ==> s.treasury_amount
                + s.staking_amount + s.operations_amount == s.distributable)
            &&& (old(fee_receiver).wf() ==> s.treasury_amount + s.staking_amount
                + s.operations_amount == s.distributable)
            &&& *final(fee_receiver) == (FeeReceiver {
                total_fees_distributed: (old(fee_receiver).total_fees_distributed
                    + s.distributable) as u64,
                ..*old(fee_receiver)
            })
        },
{
    let distributable = current_balance.saturating_sub(rent_exempt_minimum);
    if distributable == 0 {
        return Err(LendingError::InsufficientTreasuryBalance);
    }
    assert(fee_receiver.wf() ==> (distributable as int) * (fee_receiver.treasury_split_bps as int)
        / 10000 <= distributable && (distributable as int) * (fee_receiver.staking_split_bps as int)
        / 10000 <= distributable) by {
        if fee_receiver.wf() {
            let d = distributable as int;
            let a = fee_receiver.treasury_split_bps as int;
            let b = fee_receiver.staking_split_bps as int;
            assert(d * a / 10000 <= d && d * b / 10000 <= d) by (nonlinear_arith)
                requires
                    d >= 0,
                    0 <= a <= 10000,
                    0 <= b <= 10000,
            ;
        }
    }
    let treasury_amount = match SafeMath::mul_div(
        distributable,
        fee_receiver.treasury_split_bps as u64,
        BPS_DIVISOR,
    ) {
        Ok(a) => a,
        Err(e) => return Err(e),
    };
    let staking_amount = match SafeMath::mul_div(
        distributable,
        fee_receiver.staking_split_bps as u64,
        BPS_DIVISOR,
    ) {
        Ok(a) => a,
        Err(e) => return Err(e),
    };
    assert(fee_receiver.wf() ==> treasury_amount + staking_amount <= distributable) by {
        if fee_receiver.wf() {
            let d = distributable as int;
            let a = fee_receiver.treasury_split_bps as int;
            let b = fee_receiver.staking_split_bps as int;
            assert(d * a / 10000 + d * b / 10000 <= d) by (nonlinear_arith)
                requires
                    d >= 0,
                    a >= 0,
                    b >= 0,
                    a + b <= 10000,
            ;
        }
    }
    let operations_amount = distributable.saturating_sub(treasury_amount).saturating_sub(
        staking_amount,
    );
    let total = match SafeMath::add(fee_receiver.total_fees_distributed, distributable) {
        Ok(t) => t,
        Err(e) => return Err(e),
    };
    fee_receiver.total_fees_distributed = total;
    Ok(CreatorFeeSplit { distributable, treasury_amount, staking_amount, operations_amount })
}

} // verus!
