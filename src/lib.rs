//! Lending against volatile collateral and epoch-based staking rewards.
//!
//! The verified core of the protocol: checked fixed-point arithmetic, pool
//! price decoding, loan sizing, exposure limits, the loan lifecycle state
//! machine, the epoch reward accumulator and batched reward distribution.
//! Moving tokens and lamports between accounts is left to the caller, which
//! performs the transfers that a successful call describes.

pub mod admin;
pub mod bytes;
pub mod distribution;
pub mod error;
pub mod guard;
pub mod laws;
pub mod lending;
pub mod loan_calc;
pub mod math;
pub mod pda;
pub mod price;
pub mod pubkey;
pub mod staking;
pub mod staking_ops;
pub mod state;
pub mod swap;

pub use error::LendingError;
pub use guard::{ExposureCalculator, ReentrancyGuard, ValidationUtils};
pub use loan_calc::LoanCalculator;
pub use math::{SafeMath, BPS_DIVISOR};
pub use price::PriceFeedUtils;
pub use pubkey::Pubkey;
