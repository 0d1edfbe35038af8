use vstd::prelude::*;

use crate::pubkey::Pubkey;

verus! {

/// Flat fee charged on repayment, in basis points of the principal.
pub const PROTOCOL_FEE_BPS: u16 = 200;

/// Shares of the repayment fee, in basis points of the fee.
pub const LOAN_FEE_TREASURY_BPS: u16 = 5000;
pub const LOAN_FEE_STAKING_BPS: u16 = 2500;
pub const LOAN_FEE_OPERATIONS_BPS: u16 = 2500;

/// Default shares of creator fees, in basis points.
pub const CREATOR_FEE_TREASURY_BPS: u16 = 4000;
pub const CREATOR_FEE_STAKING_BPS: u16 = 4000;
pub const CREATOR_FEE_OPERATIONS_BPS: u16 = 2000;

/// Shares of liquidation proceeds, in basis points.
pub const LIQUIDATION_TREASURY_BPS: u16 = 9500;
pub const LIQUIDATION_OPERATIONS_BPS: u16 = 500;

/// Fixed-point scale of the staking accumulator.
pub const REWARD_PRECISION: u128 = 1_000_000_000_000;

/// Kind of external pool that prices a collateral token.
#[derive(Clone, Copy, Debug, PartialEq, Eq, Structural)]
pub enum PoolType {
    Raydium,
    Orca,
    Pumpfun,
    PumpSwap,
}

impl Default for PoolType {
    fn default() -> (r: Self)
        ensures
            r == PoolType::Raydium,
    {
        PoolType::Raydium
    }
}

/// Risk tier of a collateral token; it fixes the default LTV.
#[derive(Clone, Copy, Debug, PartialEq, Eq, Structural)]
pub enum TokenTier {
    Bronze,
    Silver,
    Gold,
}

impl Default for TokenTier {
    fn default() -> (r: Self)
        ensures
            r == TokenTier::Bronze,
    {
        TokenTier::Bronze
    }
}

/// Lifecycle of a loan. `Active` is the only state that ever changes.
#[derive(Clone, Copy, Debug, PartialEq, Eq, Structural)]
pub enum LoanStatus {
    Active,
    Repaid,
    LiquidatedTime,
    LiquidatedPrice,
}

impl Default for LoanStatus {
    fn default() -> (r: Self)
        ensures
            r == LoanStatus::Active,
    {
        LoanStatus::Active
    }
}

/// Global protocol state.
#[derive(Clone, Copy, Debug)]
pub struct ProtocolState {
    pub admin: Pubkey,
    pub buyback_wallet: Pubkey,
    pub operations_wallet: Pubkey,
    /// Address a two-step admin transfer is waiting on; all zero when none.
    pub pending_admin: Pubkey,
    pub admin_transfer_timestamp: i64,
    pub authorized_liquidator: Pubkey,
    pub price_authority: Pubkey,
    pub paused: bool,
    pub reentrancy_guard: bool,
    pub total_loans_created: u64,
    pub total_sol_borrowed: u64,
    pub total_fees_earned: u64,
    pub active_loans_count: u64,
    pub protocol_fee_bps: u16,
    pub treasury_fee_bps: u16,
    pub buyback_fee_bps: u16,
    pub operations_fee_bps: u16,
    pub treasury_balance: u64,
    pub liquidation_bonus_bps: u16,
    pub bump: u8,
}

/// Configuration of one whitelisted collateral token.
#[derive(Clone, Copy, Debug)]
pub struct TokenConfig {
    pub mint: Pubkey,
    pub tier: TokenTier,
    pub enabled: bool,
    pub blacklisted: bool,
    pub pool_address: Pubkey,
    pub pool_type: PoolType,
    pub ltv_bps: u16,
    pub liquidation_bonus_bps: u16,
    pub min_loan_amount: u64,
    pub max_loan_amount: u64,
    pub active_loans_count: u64,
    pub total_volume: u64,
    /// Base currency currently lent against this token.
    pub total_active_borrowed: u64,
    pub bump: u8,
}

/// Running borrow totals of one user.
#[derive(Clone, Copy, Debug)]
pub struct UserExposure {
    pub user: Pubkey,
    pub total_borrowed: u64,
    pub active_loans_count: u64,
    pub loans_repaid: u64,
    pub loans_liquidated: u64,
    pub bump: u8,
}

/// One loan.
#[derive(Clone, Copy, Debug)]
pub struct Loan {
    pub borrower: Pubkey,
    pub token_mint: Pubkey,
    pub collateral_amount: u64,
    pub sol_borrowed: u64,
    pub entry_price: u64,
    pub liquidation_price: u64,
    pub created_at: i64,
    pub due_at: i64,
    pub status: LoanStatus,
    pub index: u64,
    pub bump: u8,
}

/// Fee receiver with a three-way split of collected fees.
#[derive(Clone, Copy, Debug)]
pub struct FeeReceiver {
    pub authority: Pubkey,
    pub treasury_wallet: Pubkey,
    pub operations_wallet: Pubkey,
    pub staking_reward_vault: Pubkey,
    pub treasury_split_bps: u16,
    pub staking_split_bps: u16,
    pub operations_split_bps: u16,
    pub total_fees_received: u64,
    pub total_fees_distributed: u64,
    pub bump: u8,
}

impl ProtocolState {
    /// The liquidation splits cover the whole and the flat fee is at most 5%.
    pub open spec fn wf(&self) -> bool {
        &&& self.treasury_fee_bps + self.buyback_fee_bps + self.operations_fee_bps == 10000
        &&& self.protocol_fee_bps <= 500
    }
}

impl TokenConfig {
    /// Loan bounds are ordered and positive, and the LTV is at most 90%.
    pub open spec fn wf(&self) -> bool {
        &&& 0 < self.min_loan_amount < self.max_loan_amount
        &&& self.ltv_bps <= 9000
    }
}

impl FeeReceiver {
    /// The three splits cover the whole.
    pub open spec fn wf(&self) -> bool {
        self.treasury_split_bps + self.staking_split_bps + self.operations_split_bps == 10000
    }
}

} // verus!
