use vstd::prelude::*;

use crate::error::LendingError;

verus! {

/// Basis points in one whole (10000 bps = 100%).
pub const BPS_DIVISOR: u64 = 10_000;

/// `a + b`, or `MathOverflow` when it does not fit in 64 bits.
pub open spec fn spec_add(a: u64, b: u64) -> Result<u64, LendingError> {
    if a + b > u64::MAX {
        Err(LendingError::MathOverflow)
    } else {
        Ok((a + b) as u64)
    }
}

/// `a - b`, or `MathUnderflow` when `b > a`.
pub open spec fn spec_sub(a: u64, b: u64) -> Result<u64, LendingError> {
    if b > a {
        Err(LendingError::MathUnderflow)
    } else {
        Ok((a - b) as u64)
    }
}

/// `a * b / c` computed exactly, then narrowed to 64 bits.
pub open spec fn spec_mul_div(a: u64, b: u64, c: u64) -> Result<u64, LendingError> {
    if c == 0 {
        Err(LendingError::DivisionByZero)
    } else if (a as int) * (b as int) / (c as int) > u64::MAX {
        Err(LendingError::MathOverflow)
    } else {
        Ok(((a as int) * (b as int) / (c as int)) as u64)
    }
}

pub proof fn lemma_u64_product_fits_u128(a: u64, b: u64)
    ensures
        0 <= (a as int) * (b as int) <= u128::MAX,
{
    assert(0 <= (a as int) * (b as int) <= 0xffff_ffff_ffff_ffffint * 0xffff_ffff_ffff_ffffint)
        by (nonlinear_arith)
        requires
            0 <= a <= 0xffff_ffff_ffff_ffffint,
            0 <= b <= 0xffff_ffff_ffff_ffffint,
    ;
}

/// Arithmetic over unsigned integers that fails instead of wrapping.
pub struct SafeMath;

impl SafeMath {
    pub fn add(a: u64, b: u64) -> (r: Result<u64, LendingError>)
        ensures
            r == spec_add(a, b),
    {
        if a > u64::MAX - b {
            Err(LendingError::MathOverflow)
        } else {
            Ok(a + b)
        }
    }

    pub fn sub(a: u64, b: u64) -> (r: Result<u64, LendingError>)
        ensures
            r == spec_sub(a, b),
    {
        if b > a {
            Err(LendingError::MathUnderflow)
        } else {
            Ok(a - b)
        }
    }

    pub fn mul(a: u64, b: u64) -> (r: Result<u64, LendingError>)
        ensures
            (a as int) * (b as int) > u64::MAX ==> r == Err::<u64, LendingError>(
                LendingError::MathOverflow,
            ),
            (a as int) * (b as int) <= u64::MAX ==> r == Ok::<u64, LendingError>(
                ((a as int) * (b as int)) as u64,
            ),
    {
        proof {
            lemma_u64_product_fits_u128(a, b);
        }
        let result: u128 = (a as u128) * (b as u128);
        if result > u64::MAX as u128 {
            return Err(LendingError::MathOverflow);
        }
        Ok(result as u64)
    }

    pub fn div(a: u64, b: u64) -> (r: Result<u64, LendingError>)
        ensures
            b == 0 ==> r == Err::<u64, LendingError>(LendingError::DivisionByZero),
            b != 0 ==> r == Ok::<u64, LendingError>(a / b),
    {
        if b == 0 {
            return Err(LendingError::DivisionByZero);
        }
        Ok(a / b)
    }

    pub fn mul_div(a: u64, b: u64, c: u64) -> (r: Result<u64, LendingError>)
        ensures
            r == spec_mul_div(a, b, c),
    {
        if c == 0 {
            return Err(LendingError::DivisionByZero);
        }
        proof {
            lemma_u64_product_fits_u128(a, b);
        }
        let product: u128 = (a as u128) * (b as u128);
        let result: u128 = product / (c as u128);
        if result > u64::MAX as u128 {
            return Err(LendingError::MathOverflow);
        }
        Ok(result as u64)
    }

    /// Multiply then divide at 128 bits; the product itself must fit.
    pub fn mul_div_u128(a: u128, b: u128, c: u128) -> (r: Result<u128, LendingError>)
        ensures
            c == 0 ==> r == Err::<u128, LendingError>(LendingError::DivisionByZero),
            c != 0 && (a as int) * (b as int) > u128::MAX ==> r == Err::<u128, LendingError>(
                LendingError::MathOverflow,
            ),
            c != 0 && (a as int) * (b as int) <= u128::MAX ==> r == Ok::<u128, LendingError>(
                ((a as int) * (b as int) / (c as int)) as u128,
            ),
    {
        if c == 0 {
            return Err(LendingError::DivisionByZero);
        }
        match a.checked_mul(b) {
            None => Err(LendingError::MathOverflow),
            Some(product) => Ok(product / c),
        }
    }

    pub fn add_u128(a: u128, b: u128) -> (r: Result<u128, LendingError>)
        ensures
            a + b > u128::MAX ==> r == Err::<u128, LendingError>(LendingError::MathOverflow),
            a + b <= u128::MAX ==> r == Ok::<u128, LendingError>((a + b) as u128),
    {
        match a.checked_add(b) {
            None => Err(LendingError::MathOverflow),
            Some(s) => Ok(s),
        }
    }

    pub fn sub_u128(a: u128, b: u128) -> (r: Result<u128, LendingError>)
        ensures
            b > a ==> r == Err::<u128, LendingError>(LendingError::MathUnderflow),
            b <= a ==> r == Ok::<u128, LendingError>((a - b) as u128),
    {
        match a.checked_sub(b) {
            None => Err(LendingError::MathUnderflow),
            Some(d) => Ok(d),
        }
    }
}

} // verus!
