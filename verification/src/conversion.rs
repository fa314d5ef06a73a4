//! Fees and the conversion of an amount of one asset into another.
//!
//! An amount is a number of minor units; an asset with `d` decimals has
//! `10^d` minor units per whole token. Every division rounds down, so a
//! conversion never gives more than the exact rate would.

use vstd::prelude::*;
use crate::error::ErrorCode;
use crate::fixed_point::{
    checked_pow10,
    checked_pow10_spec,
    mul_div_floor,
    mul_div_floor_spec,
    pow10,
    BPS_DENOMINATOR,
};

verus! {

/// An amount split into the fee taken from it and what is left.
#[derive(Clone, Copy, Debug, PartialEq, Eq, Structural)]
pub struct FeeSplit {
    pub fee: u64,
    pub net: u64,
}

/// The fee on `amount` at `fee_rate_bps` basis points, rounded down.
pub open spec fn fee_of(amount: u64, fee_rate_bps: u64) -> nat {
    (amount as nat * fee_rate_bps as nat) / (BPS_DENOMINATOR as nat)
}

/// What `compute_fee` returns: the fee and the rest, unless the amount is
/// zero or the fee is more than the amount.
pub open spec fn compute_fee_spec(amount: u64, fee_rate_bps: u64) -> Result<FeeSplit, ErrorCode> {
    if amount == 0 || fee_of(amount, fee_rate_bps) > amount {
        Err(ErrorCode::InvalidAmount)
    } else {
        Ok(
            FeeSplit {
                fee: fee_of(amount, fee_rate_bps) as u64,
                net: (amount - fee_of(amount, fee_rate_bps)) as u64,
            },
        )
    }
}

/// Splits `amount` into the fee at `fee_rate_bps` basis points and the rest.
pub fn compute_fee(amount: u64, fee_rate_bps: u64) -> (r: Result<FeeSplit, ErrorCode>)
    ensures
        r == compute_fee_spec(amount, fee_rate_bps),
        r matches Ok(split) ==> split.fee + split.net == amount && split.fee == fee_of(
            amount,
            fee_rate_bps,
        ),
{
    if amount == 0 {
        return Err(ErrorCode::InvalidAmount);
    }
    assert(amount as u128 * fee_rate_bps as u128 <= u128::MAX) by (nonlinear_arith)
        requires
            amount <= u64::MAX,
            fee_rate_bps <= u64::MAX,
    ;
    let fee: u128 = match mul_div_floor(amount as u128, fee_rate_bps as u128, BPS_DENOMINATOR) {
        Ok(fee) => fee,
        Err(_) => {
            return Err(ErrorCode::InvalidAmount);
        },
    };
    if fee > amount as u128 {
        return Err(ErrorCode::InvalidAmount);
    }
    Ok(FeeSplit { fee: fee as u64, net: amount - fee as u64 })
}

/// The value in cents of `amount` minor units of an asset, rounded down.
pub open spec fn value_in_cents(amount: nat, price_cents: nat, decimals: nat) -> nat {
    amount * price_cents / pow10(decimals)
}

/// The number of minor units of an asset that `value_cents` buys, rounded down.
pub open spec fn amount_for_cents(value_cents: nat, decimals: nat, price_cents: nat) -> nat {
    value_cents * pow10(decimals) / price_cents
}

/// The amount of the destination asset that `amount` of the source asset is
/// worth: its value in cents, rounded down, turned into the destination
/// asset, rounded down again.
pub open spec fn converted(
    amount: nat,
    decimals_from: nat,
    price_from_cents: nat,
    decimals_to: nat,
    price_to_cents: nat,
) -> nat {
    amount_for_cents(
        value_in_cents(amount, price_from_cents, decimals_from),
        decimals_to,
        price_to_cents,
    )
}

/// Whether a conversion cannot be carried out in the wide integer: a unit or
/// a product does not fit it, or the destination price is zero.
pub open spec fn conversion_overflows(
    amount: nat,
    decimals_from: nat,
    price_from_cents: nat,
    decimals_to: nat,
    price_to_cents: nat,
) -> bool {
    ||| pow10(decimals_from) > u128::MAX
    ||| amount * price_from_cents > u128::MAX
    ||| pow10(decimals_to) > u128::MAX
    ||| value_in_cents(amount, price_from_cents, decimals_from) * pow10(decimals_to) > u128::MAX
    ||| price_to_cents == 0
}

/// What `convert_wide` returns.
pub open spec fn convert_wide_spec(
    amount: u128,
    decimals_from: u8,
    price_from_cents: u64,
    decimals_to: u8,
    price_to_cents: u64,
) -> Result<u128, ErrorCode> {
    if conversion_overflows(
        amount as nat,
        decimals_from as nat,
        price_from_cents as nat,
        decimals_to as nat,
        price_to_cents as nat,
    ) {
        Err(ErrorCode::InvalidAmount)
    } else {
        Ok(
            converted(
                amount as nat,
                decimals_from as nat,
                price_from_cents as nat,
                decimals_to as nat,
                price_to_cents as nat,
            ) as u128,
        )
    }
}

/// Converts a wide amount of one asset into the other asset, with no lower
/// bound on what comes out.
pub fn convert_wide(
    amount: u128,
    decimals_from: u8,
    price_from_cents: u64,
    decimals_to: u8,
    price_to_cents: u64,
) -> (r: Result<u128, ErrorCode>)
    ensures
        r == convert_wide_spec(amount, decimals_from, price_from_cents, decimals_to, price_to_cents),
{
    let unit_from: u128 = match checked_pow10(decimals_from as u32) {
        Ok(unit) => unit,
        Err(_) => {
            return Err(ErrorCode::InvalidAmount);
        },
    };
    let value_cents: u128 = match mul_div_floor(amount, price_from_cents as u128, unit_from) {
        Ok(value) => value,
        Err(_) => {
            proof {
                crate::fixed_point::lemma_pow10_positive(decimals_from as nat);
            }
            return Err(ErrorCode::InvalidAmount);
        },
    };
    let unit_to: u128 = match checked_pow10(decimals_to as u32) {
        Ok(unit) => unit,
        Err(_) => {
            return Err(ErrorCode::InvalidAmount);
        },
    };
    match mul_div_floor(value_cents, unit_to, price_to_cents as u128) {
        Ok(result) => Ok(result),
        Err(_) => Err(ErrorCode::InvalidAmount),
    }
}

/// What `convert` returns: the converted amount, unless the conversion
/// overflows, gives nothing, or gives more than an amount can hold.
pub open spec fn convert_spec(
    net_amount: u64,
    decimals_from: u8,
    price_from_cents: u64,
    decimals_to: u8,
    price_to_cents: u64,
) -> Result<u64, ErrorCode> {
    match convert_wide_spec(
        net_amount as u128,
        decimals_from,
        price_from_cents,
        decimals_to,
        price_to_cents,
    ) {
        Ok(result) => if result == 0 || result > u64::MAX {
            Err(ErrorCode::InvalidAmount)
        } else {
            Ok(result as u64)
        },
        Err(e) => Err(e),
    }
}

/// Converts an amount of one asset into an amount of the other.
pub fn convert(
    net_amount: u64,
    decimals_from: u8,
    price_from_cents: u64,
    decimals_to: u8,
    price_to_cents: u64,
) -> (r: Result<u64, ErrorCode>)
    ensures
        r == convert_spec(net_amount, decimals_from, price_from_cents, decimals_to, price_to_cents),
{
    let result: u128 = match convert_wide(
        net_amount as u128,
        decimals_from,
        price_from_cents,
        decimals_to,
        price_to_cents,
    ) {
        Ok(result) => result,
        Err(e) => {
            return Err(e);
        },
    };
    if result == 0 || result > u64::MAX as u128 {
        return Err(ErrorCode::InvalidAmount);
    }
    Ok(result as u64)
}

} // verus!
