//! Checked fixed-point helpers: multiply-then-divide and scaling by powers of ten.
//!
//! Amounts and prices are 64-bit integers, the narrow integer; products are
//! taken in 128 bits, the wide integer. Every division rounds down.

use vstd::prelude::*;
use crate::error::ErrorCode;

verus! {

/// The number of basis points in one whole.
pub const BPS_DENOMINATOR: u128 = 10_000;

/// Ten to the power `e`.
pub open spec fn pow10(e: nat) -> nat
    decreases e,
{
    if e == 0 {
        1
    } else {
        10 * pow10((e - 1) as nat)
    }
}

/// A power of ten is at least one.
pub proof fn lemma_pow10_positive(e: nat)
    ensures
        pow10(e) >= 1,
    decreases e,
{
    if e > 0 {
        lemma_pow10_positive((e - 1) as nat);
    }
}

/// Powers of ten grow with the exponent.
pub proof fn lemma_pow10_monotonic(e1: nat, e2: nat)
    requires
        e1 <= e2,
    ensures
        pow10(e1) <= pow10(e2),
    decreases e2,
{
    if e1 < e2 {
        lemma_pow10_monotonic(e1, (e2 - 1) as nat);
        lemma_pow10_positive((e2 - 1) as nat);
    }
}

/// A quotient rounded down, times the divisor, is at most the dividend.
pub proof fn lemma_floor_times_divisor(x: nat, d: nat)
    by (nonlinear_arith)
    requires
        d > 0,
    ensures
        (x / d) * d <= x,
{
}

/// What `mul_div_floor` returns: the product divided by `d`, rounded down,
/// unless `d` is zero or the product leaves the wide integer.
pub open spec fn mul_div_floor_spec(a: u128, b: u128, d: u128) -> Result<u128, ErrorCode> {
    if d == 0 || a * b > u128::MAX {
        Err(ErrorCode::ArithmeticOverflow)
    } else {
        Ok(((a * b) / (d as int)) as u128)
    }
}

/// Computes `floor(a * b / d)`.
pub fn mul_div_floor(a: u128, b: u128, d: u128) -> (r: Result<u128, ErrorCode>)
    ensures
        r == mul_div_floor_spec(a, b, d),
{
    if d == 0 {
        return Err(ErrorCode::ArithmeticOverflow);
    }
    match a.checked_mul(b) {
        Some(product) => Ok(product / d),
        None => Err(ErrorCode::ArithmeticOverflow),
    }
}

/// What `checked_pow10` returns: ten to the power `e` where it fits the wide integer.
pub open spec fn checked_pow10_spec(e: u32) -> Result<u128, ErrorCode> {
    if pow10(e as nat) > u128::MAX {
        Err(ErrorCode::ArithmeticOverflow)
    } else {
        Ok(pow10(e as nat) as u128)
    }
}

/// Computes ten to the power `e`.
pub fn checked_pow10(e: u32) -> (r: Result<u128, ErrorCode>)
    ensures
        r == checked_pow10_spec(e),
{
    let mut acc: u128 = 1;
    let mut i: u32 = 0;
    while i < e
        invariant
            i <= e,
            acc == pow10(i as nat),
        decreases e - i,
    {
        match acc.checked_mul(10) {
            Some(next) => {
                acc = next;
            },
            None => {
                proof {
                    lemma_pow10_monotonic((i + 1) as nat, e as nat);
                }
                return Err(ErrorCode::ArithmeticOverflow);
            },
        }
        i += 1;
    }
    Ok(acc)
}

/// The largest exponent whose power of ten fits the narrow integer.
pub const MAX_POW10_EXPONENT_U64: i64 = 19;

/// Ten to the power 19 fits the narrow integer, and ten to the power 20 does not.
pub proof fn lemma_pow10_narrow_limit()
    ensures
        pow10(19) == 10_000_000_000_000_000_000,
        pow10(19) <= u64::MAX,
        pow10(20) > u64::MAX,
{
    reveal_with_fuel(pow10, 21);
}

/// The size of an exponent, whatever its sign.
pub open spec fn magnitude(exp: i64) -> nat {
    if exp >= 0 {
        exp as nat
    } else {
        (-(exp as int)) as nat
    }
}

/// What `scale_by_pow10` returns: `x` times ten to the power `exp` where `exp`
/// is not negative, `x` divided by ten to the power `-exp`, rounded down,
/// where it is; an overflow where the power of ten or the product leaves the
/// narrow integer.
pub open spec fn scale_by_pow10_spec(x: u64, exp: i64) -> Result<u64, ErrorCode> {
    let factor = pow10(magnitude(exp));
    if factor > u64::MAX {
        Err(ErrorCode::ArithmeticOverflow)
    } else if exp >= 0 {
        if x * factor > u64::MAX {
            Err(ErrorCode::ArithmeticOverflow)
        } else {
            Ok((x * factor) as u64)
        }
    } else {
        Ok((x as nat / factor) as u64)
    }
}

/// Scales `x` by ten to the power `exp`.
pub fn scale_by_pow10(x: u64, exp: i64) -> (r: Result<u64, ErrorCode>)
    ensures
        r == scale_by_pow10_spec(x, exp),
{
    if exp > MAX_POW10_EXPONENT_U64 || exp < -MAX_POW10_EXPONENT_U64 {
        proof {
            lemma_pow10_narrow_limit();
            lemma_pow10_monotonic(20, magnitude(exp));
        }
        return Err(ErrorCode::ArithmeticOverflow);
    }
    let size: u32 = if exp >= 0 {
        exp as u32
    } else {
        (-exp) as u32
    };
    proof {
        lemma_pow10_narrow_limit();
        lemma_pow10_monotonic(size as nat, 19);
    }
    let factor: u64 = match checked_pow10(size) {
        Ok(power) => power as u64,
        Err(_) => {
            return Err(ErrorCode::ArithmeticOverflow);
        },
    };
    if exp >= 0 {
        match x.checked_mul(factor) {
            Some(scaled) => Ok(scaled),
            None => Err(ErrorCode::ArithmeticOverflow),
        }
    } else {
        proof {
            lemma_pow10_positive(size as nat);
        }
        Ok(x / factor)
    }
}

} // verus!
