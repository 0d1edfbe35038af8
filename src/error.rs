use vstd::prelude::*;

verus! {

/// Every way an instruction of the protocol can be refused.
#[derive(Clone, Copy, Debug, PartialEq, Eq, Structural)]
pub enum LendingError {
    ProtocolPaused,
    Unauthorized,
    InvalidTokenTier,
    TokenNotWhitelisted,
    TokenDisabled,
    LoanAmountTooLow,
    LoanAmountTooHigh,
    InsufficientCollateral,
    LoanAlreadyRepaid,
    LoanLiquidated,
    LoanNotLiquidatable,
    InvalidPriceFeed,
    StalePriceFeed,
    MathOverflow,
    MathUnderflow,
    DivisionByZero,
    InvalidLoanDuration,
    LtvTooHigh,
    InsufficientTreasuryBalance,
    InvalidLiquidationBonus,
    LoanNotUnhealthy,
    PriceDeviationTooHigh,
    InvalidPoolAddress,
    TokenAlreadyWhitelisted,
    InvalidAdminAddress,
    EmergencyModeActive,
    InvalidTokenAccountOwner,
    InsufficientTokenBalance,
    InvalidFeeConfiguration,
    PoolTypeMismatch,
    ZeroPrice,
    DurationTooShort,
    DurationTooLong,
    InvalidPoolType,
    InvalidLoanAmount,
    ReentrancyDetected,
    BelowMinimumDeposit,
    LoanNotFound,
    StakingPaused,
    NoRewardsToClaim,
    InsufficientRewardBalance,
    InsufficientStakeBalance,
    SlippageExceeded,
    MissingPumpfunAccounts,
    MissingJupiterAccounts,
    MissingJupiterSwapData,
    InvalidBondingCurve,
    AdminTransferTooEarly,
    NoPendingAdminTransfer,
    ProtocolNotPaused,
    CollateralValueTooLow,
    SlippageTooHigh,
    TokenExposureTooHigh,
    UserExposureTooHigh,
    SingleLoanTooLarge,
    InvalidFeeSplit,
    InvalidPoolData,
    StakingNotPaused,
    EpochNotEnded,
    InvalidEpochDuration,
    InvalidAmount,
    NoEligibleStakers,
    InvalidAccountPairs,
    InvalidAccountOwner,
    InvalidAccountData,
    InvalidDiscriminator,
    InvalidPDA,
    InvalidStakeOwner,
    FeatureTemporarilyDisabled,
}

impl LendingError {
    /// The numeric code surfaced to the caller of a failed transaction.
    pub fn code(&self) -> (r: u32)
        ensures
            6000 <= r < 6100,
    {
        match self {
            LendingError::ProtocolPaused => 6000,
            LendingError::Unauthorized => 6001,
            LendingError::InvalidTokenTier => 6002,
            LendingError::TokenNotWhitelisted => 6003,
            LendingError::TokenDisabled => 6004,
            LendingError::LoanAmountTooLow => 6005,
            LendingError::LoanAmountTooHigh => 6006,
            LendingError::InsufficientCollateral => 6007,
            LendingError::LoanAlreadyRepaid => 6008,
            LendingError::LoanLiquidated => 6009,
            LendingError::LoanNotLiquidatable => 6010,
            LendingError::InvalidPriceFeed => 6011,
            LendingError::StalePriceFeed => 6012,
            LendingError::MathOverflow => 6013,
            LendingError::MathUnderflow => 6014,
            LendingError::DivisionByZero => 6015,
            LendingError::InvalidLoanDuration => 6016,
            LendingError::LtvTooHigh => 6017,
            LendingError::InsufficientTreasuryBalance => 6018,
            LendingError::InvalidLiquidationBonus => 6019,
            LendingError::LoanNotUnhealthy => 6020,
            LendingError::PriceDeviationTooHigh => 6021,
            LendingError::InvalidPoolAddress => 6022,
            LendingError::TokenAlreadyWhitelisted => 6023,
            LendingError::InvalidAdminAddress => 6024,
            LendingError::EmergencyModeActive => 6025,
            LendingError::InvalidTokenAccountOwner => 6026,
            LendingError::InsufficientTokenBalance => 6027,
            LendingError::InvalidFeeConfiguration => 6028,
            LendingError::PoolTypeMismatch => 6029,
            LendingError::ZeroPrice => 6030,
            LendingError::DurationTooShort => 6031,
            LendingError::DurationTooLong => 6032,
            LendingError::InvalidPoolType => 6033,
            LendingError::InvalidLoanAmount => 6034,
            LendingError::ReentrancyDetected => 6035,
            LendingError::BelowMinimumDeposit => 6036,
            LendingError::LoanNotFound => 6037,
            LendingError::StakingPaused => 6038,
            LendingError::NoRewardsToClaim => 6039,
            LendingError::InsufficientRewardBalance => 6040,
            LendingError::InsufficientStakeBalance => 6041,
            LendingError::SlippageExceeded => 6042,
            LendingError::MissingPumpfunAccounts => 6043,
            LendingError::MissingJupiterAccounts => 6044,
            LendingError::MissingJupiterSwapData => 6045,
            LendingError::InvalidBondingCurve => 6046,
            LendingError::AdminTransferTooEarly => 6047,
            LendingError::NoPendingAdminTransfer => 6048,
            LendingError::ProtocolNotPaused => 6049,
            LendingError::CollateralValueTooLow => 6050,
            LendingError::SlippageTooHigh => 6051,
            LendingError::TokenExposureTooHigh => 6052,
            LendingError::UserExposureTooHigh => 6053,
            LendingError::SingleLoanTooLarge => 6054,
            LendingError::InvalidFeeSplit => 6055,
            LendingError::InvalidPoolData => 6056,
            LendingError::StakingNotPaused => 6057,
            LendingError::EpochNotEnded => 6058,
            LendingError::InvalidEpochDuration => 6059,
            LendingError::InvalidAmount => 6060,
            LendingError::NoEligibleStakers => 6061,
            LendingError::InvalidAccountPairs => 6062,
            LendingError::InvalidAccountOwner => 6063,
            LendingError::InvalidAccountData => 6064,
            LendingError::InvalidDiscriminator => 6065,
            LendingError::InvalidPDA => 6066,
            LendingError::InvalidStakeOwner => 6067,
            LendingError::FeatureTemporarilyDisabled => 6068,
        }
    }
}

} // verus!
