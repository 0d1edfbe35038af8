use vstd::prelude::*;

use crate::bytes::{all_zero, is_all_zero, le_u64_at, read_pubkey, read_u64_le};
use crate::error::LendingError;
use crate::math::{spec_mul_div, SafeMath, BPS_DIVISOR};
use crate::pubkey::Pubkey;
use crate::state::PoolType;

verus! {

/// Prices are base-currency units per collateral unit, scaled by 10^9.
pub const PRICE_SCALE: u64 = 1_000_000_000;

/// A price older than this many seconds is stale.
pub const PRICE_STALENESS_THRESHOLD: i64 = 60;

/// Largest accepted move against a recent checkpoint, in basis points.
pub const MAX_PRICE_DEVIATION_BPS: u64 = 500;

/// Window within which a checkpoint is recent enough to compare against.
pub const TWAP_WINDOW_SECONDS: i64 = 300;

/// Constant-product pool layout.
pub const RAYDIUM_TOKEN_A_AMOUNT_OFFSET: usize = 224;
pub const RAYDIUM_TOKEN_B_AMOUNT_OFFSET: usize = 232;
pub const RAYDIUM_TOKEN_A_MINT_OFFSET: usize = 400;
pub const RAYDIUM_TOKEN_B_MINT_OFFSET: usize = 432;
pub const RAYDIUM_MIN_DATA_LEN: usize = 464;

/// Bonding-curve layout.
pub const PUMPFUN_VIRTUAL_TOKEN_OFFSET: usize = 8;
pub const PUMPFUN_VIRTUAL_SOL_OFFSET: usize = 16;
pub const PUMPFUN_MIN_DATA_LEN: usize = 24;

/// The wrapped-SOL mint, the base currency's side of a pool.
pub open spec fn native_mint_spec() -> Seq<u8> {
    seq![
        6u8, 155u8, 136u8, 87u8, 254u8, 171u8, 129u8, 132u8, 251u8, 104u8, 127u8, 99u8, 70u8,
        24u8, 192u8, 53u8, 218u8, 196u8, 57u8, 220u8, 26u8, 235u8, 59u8, 85u8, 152u8, 160u8,
        240u8, 0u8, 0u8, 0u8, 0u8, 1u8,
    ]
}

pub fn native_mint() -> (r: Pubkey)
    ensures
        r@ == native_mint_spec(),
{
    let r = Pubkey {
        bytes: [
            6, 155, 136, 87, 254, 171, 129, 132, 251, 104, 127, 99, 70, 24, 192, 53, 218, 196, 57,
            220, 26, 235, 59, 85, 152, 160, 240, 0, 0, 0, 0, 1,
        ],
    };
    assert(r@ =~= native_mint_spec());
    r
}

/// `base * PRICE_SCALE / collateral` with its range checks, in order.
pub open spec fn reserve_ratio_price(base: int, collateral: int) -> Result<u64, LendingError> {
    if base * PRICE_SCALE / collateral > u64::MAX {
        Err(LendingError::MathOverflow)
    } else if base * PRICE_SCALE / collateral == 0 {
        Err(LendingError::ZeroPrice)
    } else {
        Ok((base * PRICE_SCALE / collateral) as u64)
    }
}

/// Price out of a constant-product pool's bytes.
pub open spec fn raydium_price_spec(d: Seq<u8>, token_mint: Seq<u8>, sol_mint: Seq<u8>) -> Result<
    u64,
    LendingError,
> {
    if d.len() < RAYDIUM_MIN_DATA_LEN || all_zero(d) {
        Err(LendingError::InvalidPriceFeed)
    } else {
        let a = le_u64_at(d, 224);
        let b = le_u64_at(d, 232);
        let mint_a = d.subrange(400, 432);
        let mint_b = d.subrange(432, 464);
        if a == 0 || b == 0 {
            Err(LendingError::InvalidPriceFeed)
        } else if mint_a != sol_mint && mint_b != sol_mint {
            Err(LendingError::InvalidPriceFeed)
        } else if mint_a == sol_mint {
            if mint_b != token_mint {
                Err(LendingError::PoolTypeMismatch)
            } else {
                reserve_ratio_price(a, b)
            }
        } else if mint_a != token_mint {
            Err(LendingError::PoolTypeMismatch)
        } else {
            reserve_ratio_price(b, a)
        }
    }
}

/// Price out of a bonding curve's bytes.
pub open spec fn pumpfun_price_spec(d: Seq<u8>) -> Result<u64, LendingError> {
    if d.len() < PUMPFUN_MIN_DATA_LEN || all_zero(d.subrange(0, 24)) {
        Err(LendingError::InvalidPriceFeed)
    } else if le_u64_at(d, 16) == 0 || le_u64_at(d, 8) == 0 {
        Err(LendingError::InvalidPriceFeed)
    } else {
        reserve_ratio_price(le_u64_at(d, 16), le_u64_at(d, 8))
    }
}

/// Price of `token_mint` out of a pool of the given kind.
pub open spec fn pool_price_spec(d: Seq<u8>, pool_type: PoolType, token_mint: Seq<u8>) -> Result<
    u64,
    LendingError,
> {
    match pool_type {
        PoolType::Raydium | PoolType::Orca => raydium_price_spec(d, token_mint, native_mint_spec()),
        PoolType::Pumpfun | PoolType::PumpSwap => pumpfun_price_spec(d),
    }
}

pub open spec fn is_price_fresh_spec(price_timestamp: i64, current_timestamp: i64) -> bool {
    current_timestamp - price_timestamp < PRICE_STALENESS_THRESHOLD
}

/// How far `new_price` strays from `old_price`, in basis points; a zero
/// old price is a first reading and always passes.
pub open spec fn price_deviation_spec(old_price: u64, new_price: u64) -> Result<(), LendingError> {
    if old_price == 0 {
        Ok(())
    } else {
        let diff = if new_price > old_price {
            (new_price - old_price) as u64
        } else {
            (old_price - new_price) as u64
        };
        match spec_mul_div(diff, BPS_DIVISOR, old_price) {
            Err(e) => Err(e),
            Ok(dev) => if dev > MAX_PRICE_DEVIATION_BPS {
                Err(LendingError::PriceDeviationTooHigh)
            } else {
                Ok(())
            },
        }
    }
}

pub open spec fn sum_prices(p: Seq<u64>) -> int
    decreases p.len(),
{
    if p.len() == 0 {
        0
    } else {
        sum_prices(p.drop_last()) + p.last()
    }
}

pub proof fn lemma_sum_prices_bound(p: Seq<u64>)
    ensures
        0 <= sum_prices(p) <= p.len() * u64::MAX,
    decreases p.len(),
{
    if p.len() > 0 {
        lemma_sum_prices_bound(p.drop_last());
    }
}

/// Reading prices out of external pools.
pub struct PriceFeedUtils;

impl PriceFeedUtils {
    fn ratio_price(base: u64, collateral: u64) -> (r: Result<u64, LendingError>)
        requires
            collateral > 0,
        ensures
            r == reserve_ratio_price(base as int, collateral as int),
    {
        assert(base * (PRICE_SCALE as int) <= u128::MAX) by (nonlinear_arith)
            requires
                base <= u64::MAX,
        ;
        let price: u128 = (base as u128) * (PRICE_SCALE as u128) / (collateral as u128);
        if price > u64::MAX as u128 {
            return Err(LendingError::MathOverflow);
        }
        if price == 0 {
            return Err(LendingError::ZeroPrice);
        }
        Ok(price as u64)
    }

    /// Reads the price out of a constant-product pool. Fails with
    /// `InvalidPriceFeed` on short, all-zero or empty-reserve data or when
    /// neither side is the base currency, `PoolTypeMismatch` when the other
    /// side is not `token_mint`, `ZeroPrice` or `MathOverflow` on the ratio.
    pub fn read_raydium_price(pool_data: &[u8], token_mint: &Pubkey, sol_mint: &Pubkey) -> (r:
        Result<u64, LendingError>)
        ensures
            r == raydium_price_spec(pool_data@, token_mint@, sol_mint@),
    {
        if pool_data.len() < RAYDIUM_MIN_DATA_LEN {
            return Err(LendingError::InvalidPriceFeed);
        }
        if is_all_zero(pool_data, 0, pool_data.len()) {
            assert(pool_data@.subrange(0, pool_data@.len() as int) =~= pool_data@);
            return Err(LendingError::InvalidPriceFeed);
        }
        assert(pool_data@.subrange(0, pool_data@.len() as int) =~= pool_data@);
        let token_a_amount = read_u64_le(pool_data, RAYDIUM_TOKEN_A_AMOUNT_OFFSET);
        let token_b_amount = read_u64_le(pool_data, RAYDIUM_TOKEN_B_AMOUNT_OFFSET);
        if token_a_amount == 0 || token_b_amount == 0 {
            return Err(LendingError::InvalidPriceFeed);
        }
        let token_a_mint = read_pubkey(pool_data, RAYDIUM_TOKEN_A_MINT_OFFSET);
        let token_b_mint = read_pubkey(pool_data, RAYDIUM_TOKEN_B_MINT_OFFSET);
        if token_a_mint.same(sol_mint) {
            if !token_b_mint.same(token_mint) {
                return Err(LendingError::PoolTypeMismatch);
            }
            Self::ratio_price(token_a_amount, token_b_amount)
        } else if token_b_mint.same(sol_mint) {
            if !token_a_mint.same(token_mint) {
                return Err(LendingError::PoolTypeMismatch);
            }
            Self::ratio_price(token_b_amount, token_a_amount)
        } else {
            Err(LendingError::InvalidPriceFeed)
        }
    }

    /// Reads the price out of a bonding curve's virtual reserves.
    pub fn read_pumpfun_price(pool_data: &[u8]) -> (r: Result<u64, LendingError>)
        ensures
            r == pumpfun_price_spec(pool_data@),
    {
        if pool_data.len() < PUMPFUN_MIN_DATA_LEN {
            return Err(LendingError::InvalidPriceFeed);
        }
        if is_all_zero(pool_data, 0, PUMPFUN_MIN_DATA_LEN) {
            return Err(LendingError::InvalidPriceFeed);
        }
        let virtual_sol = read_u64_le(pool_data, PUMPFUN_VIRTUAL_SOL_OFFSET);
        let virtual_token = read_u64_le(pool_data, PUMPFUN_VIRTUAL_TOKEN_OFFSET);
        if virtual_sol == 0 || virtual_token == 0 {
            return Err(LendingError::InvalidPriceFeed);
        }
        Self::ratio_price(virtual_sol, virtual_token)
    }

    /// Reads the price of `token_mint` out of a pool of kind `pool_type`.
    pub fn read_price_from_pool(pool_data: &[u8], pool_type: PoolType, token_mint: &Pubkey) -> (r:
        Result<u64, LendingError>)
        ensures
            r == pool_price_spec(pool_data@, pool_type, token_mint@),
            r matches Ok(p) ==> p > 0,
    {
        let sol_mint = native_mint();
        match pool_type {
            PoolType::Raydium | PoolType::Orca => Self::read_raydium_price(
                pool_data,
                token_mint,
                &sol_mint,
            ),
            PoolType::Pumpfun | PoolType::PumpSwap => Self::read_pumpfun_price(pool_data),
        }
    }

    /// Same as `read_price_from_pool`.
    pub fn get_token_price(pool_data: &[u8], pool_type: PoolType, token_mint: &Pubkey) -> (r:
        Result<u64, LendingError>)
        ensures
            r == pool_price_spec(pool_data@, pool_type, token_mint@),
    {
        Self::read_price_from_pool(pool_data, pool_type, token_mint)
    }

    /// Whether a price read at `price_timestamp` is still usable.
    pub fn is_price_fresh(price_timestamp: i64, current_timestamp: i64) -> (r: bool)
        ensures
            r == is_price_fresh_spec(price_timestamp, current_timestamp),
    {
        (current_timestamp as i128) - (price_timestamp as i128) < PRICE_STALENESS_THRESHOLD as i128
    }

    /// Rejects a move of more than 5% against `old_price`.
    pub fn validate_price_deviation(old_price: u64, new_price: u64) -> (r: Result<(), LendingError>)
        ensures
            r == price_deviation_spec(old_price, new_price),
    {
        if old_price == 0 {
            return Ok(());
        }
        let price_diff = if new_price > old_price {
            new_price - old_price
        } else {
            old_price - new_price
        };
        let deviation_bps = match SafeMath::mul_div(price_diff, BPS_DIVISOR, old_price) {
            Ok(d) => d,
            Err(e) => return Err(e),
        };
        if deviation_bps > MAX_PRICE_DEVIATION_BPS {
            return Err(LendingError::PriceDeviationTooHigh);
        }
        Ok(())
    }

    /// Checks a price against a checkpoint taken within the last five
    /// minutes; an older checkpoint is not compared against.
    pub fn validate_price_safety(
        current_price: u64,
        last_checkpoint_price: u64,
        last_checkpoint_time: i64,
        current_time: i64,
    ) -> (r: Result<(), LendingError>)
        ensures
            current_time - last_checkpoint_time < TWAP_WINDOW_SECONDS ==> r == price_deviation_spec(
                last_checkpoint_price,
                current_price,
            ),
            current_time - last_checkpoint_time >= TWAP_WINDOW_SECONDS ==> r is Ok,
    {
        if (current_time as i128) - (last_checkpoint_time as i128) < TWAP_WINDOW_SECONDS as i128 {
            Self::validate_price_deviation(last_checkpoint_price, current_price)
        } else {
            Ok(())
        }
    }

    /// Mean of the given prices, rounded down; empty input is refused.
    pub fn calculate_average_price(prices: &[u64]) -> (r: Result<u64, LendingError>)
        requires
            prices@.len() <= 0x1_0000_0000,
        ensures
            prices@.len() == 0 ==> r == Err::<u64, LendingError>(LendingError::InvalidPriceFeed),
            prices@.len() > 0 ==> r == Ok::<u64, LendingError>(
                (sum_prices(prices@) / (prices@.len() as int)) as u64,
            ),
    {
        if prices.len() == 0 {
            return Err(LendingError::InvalidPriceFeed);
        }
        let mut sum: u128 = 0;
        let mut i: usize = 0;
        while i < prices.len()
            invariant
                0 <= i <= prices@.len() <= 0x1_0000_0000,
                sum == sum_prices(prices@.subrange(0, i as int)),
            decreases prices@.len() - i,
        {
            proof {
                lemma_sum_prices_bound(prices@.subrange(0, i as int));
                assert(prices@.subrange(0, i + 1).drop_last() =~= prices@.subrange(0, i as int));
                assert(i * u64::MAX + u64::MAX <= u128::MAX) by (nonlinear_arith)
                    requires
                        i <= 0x1_0000_0000,
                ;
            }
            sum = sum + prices[i] as u128;
            i = i + 1;
        }
        assert(prices@.subrange(0, prices@.len() as int) =~= prices@);
        proof {
            lemma_sum_prices_bound(prices@);
            assert((sum as int) / (prices@.len() as int) <= u64::MAX) by (nonlinear_arith)
                requires
                    sum <= prices@.len() * u64::MAX,
                    prices@.len() > 0,
            ;
        }
        let avg: u128 = sum / (prices.len() as u128);
        Ok(avg as u64)
    }

    /// Refuses a stale price, then reads the pool.
    pub fn read_price_from_pool_with_validation(
        pool_data: &[u8],
        pool_type: PoolType,
        token_mint: &Pubkey,
        current_timestamp: i64,
        last_price_timestamp: i64,
    ) -> (r: Result<u64, LendingError>)
        ensures
            !is_price_fresh_spec(last_price_timestamp, current_timestamp) ==> r == Err::<
                u64,
                LendingError,
            >(LendingError::StalePriceFeed),
            is_price_fresh_spec(last_price_timestamp, current_timestamp) ==> r == pool_price_spec(
                pool_data@,
                pool_type,
                token_mint@,
            ),
    {
        if !Self::is_price_fresh(last_price_timestamp, current_timestamp) {
            return Err(LendingError::StalePriceFeed);
        }
        Self::read_price_from_pool(pool_data, pool_type, token_mint)
    }
}

} // verus!
