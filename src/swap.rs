use vstd::prelude::*;

use crate::bytes::{le_bytes_of, le_u64_at, read_u64_le};
use crate::error::LendingError;

verus! {

/// Default slippage for liquidations, in basis points (1.5%).
pub const LIQUIDATION_SLIPPAGE_BPS: u64 = 150;

/// Shortest bonding-curve record the sell quote reads.
pub const BONDING_CURVE_MIN_DATA_LEN: usize = 49;

/// Arguments of a bonding-curve sell.
#[derive(Clone, Copy, Debug)]
pub struct PumpfunSellArgs {
    pub amount: u64,
    pub min_sol_output: u64,
}

/// Leading eight bytes of a bonding-curve sell instruction.
pub open spec fn sell_discriminator() -> Seq<u8> {
    seq![0x33u8, 0xe6, 0x85, 0xa4, 0x01, 0x7f, 0x83, 0xad]
}

/// `expected * (10000 - slippage) / 10000`, saturating.
pub open spec fn min_output_spec(expected: u64, slippage_bps: u64) -> u64 {
    let product = expected * (10000 - slippage_bps);
    if product > u64::MAX {
        (u64::MAX / 10000) as u64
    } else {
        (product / 10000) as u64
    }
}

/// Base currency received for selling `sell` tokens into the curve, after
/// the venue's 1% fee, by the constant-product rule on virtual reserves.
pub open spec fn pumpfun_sell_spec(d: Seq<u8>, sell: u64) -> Result<u64, LendingError> {
    if d.len() < BONDING_CURVE_MIN_DATA_LEN {
        Err(LendingError::InvalidPoolData)
    } else if le_u64_at(d, 8) + sell == 0 {
        Err(LendingError::DivisionByZero)
    } else {
        let vt = le_u64_at(d, 8);
        let vs = le_u64_at(d, 16);
        let out = vs - vs * vt / (vt + sell);
        Ok((out - out / 100) as u64)
    }
}

/// Lowest acceptable output for an expected one, given a slippage.
pub fn calculate_min_output(expected_output: u64, slippage_bps: u64) -> (r: u64)
    requires
        slippage_bps <= 10000,
    ensures
        r == min_output_spec(expected_output, slippage_bps),
{
    let keep: u64 = 10000 - slippage_bps;
    proof {
        crate::math::lemma_u64_product_fits_u128(expected_output, keep);
    }
    let product: u128 = (expected_output as u128) * (keep as u128);
    let saturated: u64 = if product > u64::MAX as u128 {
        u64::MAX
    } else {
        product as u64
    };
    saturated / 10000
}

/// Quotes a bonding-curve sell from the curve's raw data.
pub fn calculate_pumpfun_sell_output(bonding_curve_data: &[u8], sell_amount: u64) -> (r: Result<
    u64,
    LendingError,
>)
    ensures
        r == pumpfun_sell_spec(bonding_curve_data@, sell_amount),
{
    if bonding_curve_data.len() < BONDING_CURVE_MIN_DATA_LEN {
        return Err(LendingError::InvalidPoolData);
    }
    let vt = read_u64_le(bonding_curve_data, 8);
    let vs = read_u64_le(bonding_curve_data, 16);
    proof {
        crate::math::lemma_u64_product_fits_u128(vs, vt);
    }
    let k: u128 = (vs as u128) * (vt as u128);
    let new_vt: u128 = (vt as u128) + (sell_amount as u128);
    if new_vt == 0 {
        return Err(LendingError::DivisionByZero);
    }
    let new_vs: u128 = k / new_vt;
    assert((vs as int) * (vt as int) / (new_vt as int) <= vs) by (nonlinear_arith)
        requires
            new_vt >= vt,
            new_vt > 0,
            vs >= 0,
            vt >= 0,
    ;
    let out: u128 = (vs as u128) - new_vs;
    let fee: u128 = out / 100;
    Ok((out - fee) as u64)
}

/// Instruction data of a bonding-curve sell: the discriminator, then the
/// two arguments little-endian.
pub fn pumpfun_sell_data(args: &PumpfunSellArgs) -> (r: Vec<u8>)
    ensures
        r@ == sell_discriminator() + le_bytes_of(args.amount) + le_bytes_of(args.min_sol_output),
{
    let mut data: Vec<u8> = Vec::new();
    data.push(0x33);
    data.push(0xe6);
    data.push(0x85);
    data.push(0xa4);
    data.push(0x01);
    data.push(0x7f);
    data.push(0x83);
    data.push(0xad);
    push_le(&mut data, args.amount);
    push_le(&mut data, args.min_sol_output);
    assert(data@ =~= sell_discriminator() + le_bytes_of(args.amount) + le_bytes_of(
        args.min_sol_output,
    ));
    data
}

fn push_le(data: &mut Vec<u8>, v: u64)
    ensures
        final(data)@ == old(data)@ + le_bytes_of(v),
{
    data.push((v % 0x100) as u8);
    data.push((v / 0x100 % 0x100) as u8);
    data.push((v / 0x1_0000 % 0x100) as u8);
    data.push((v / 0x100_0000 % 0x100) as u8);
    data.push((v / 0x1_0000_0000 % 0x100) as u8);
    data.push((v / 0x100_0000_0000 % 0x100) as u8);
    data.push((v / 0x1_0000_0000_0000 % 0x100) as u8);
    data.push((v / 0x100_0000_0000_0000 % 0x100) as u8);
    assert(data@ =~= old(data)@ + le_bytes_of(v));
}

} // verus!
