//! The over-collateralization rule.
//!
//! The treasury must hold at least the collateral that the outstanding
//! synthetic supply is worth, scaled by the deployment's collateral ratio.

use vstd::prelude::*;
use crate::conversion::{convert_wide, convert_wide_spec};
use crate::error::ErrorCode;
use crate::fixed_point::{mul_div_floor, mul_div_floor_spec, BPS_DENOMINATOR};

verus! {

/// What `required_collateral` returns: the collateral that the outstanding
/// supply is worth, times the collateral ratio in basis points over 10000,
/// rounded down.
pub open spec fn required_collateral_spec(
    total_outstanding: u128,
    synthetic_price_cents: u64,
    synthetic_decimals: u8,
    collateral_price_cents: u64,
    collateral_decimals: u8,
    min_collateral_bps: u64,
) -> Result<u128, ErrorCode> {
    match convert_wide_spec(
        total_outstanding,
        synthetic_decimals,
        synthetic_price_cents,
        collateral_decimals,
        collateral_price_cents,
    ) {
        Ok(equivalent) => match mul_div_floor_spec(
            equivalent,
            min_collateral_bps as u128,
            BPS_DENOMINATOR,
        ) {
            Ok(required) => Ok(required),
            Err(_) => Err(ErrorCode::InvalidAmount),
        },
        Err(e) => Err(e),
    }
}

/// The collateral, in minor units, that must back `total_outstanding`.
pub fn required_collateral(
    total_outstanding: u128,
    synthetic_price_cents: u64,
    synthetic_decimals: u8,
    collateral_price_cents: u64,
    collateral_decimals: u8,
    min_collateral_bps: u64,
) -> (r: Result<u128, ErrorCode>)
    ensures
        r == required_collateral_spec(
            total_outstanding,
            synthetic_price_cents,
            synthetic_decimals,
            collateral_price_cents,
            collateral_decimals,
            min_collateral_bps,
        ),
{
    let equivalent: u128 = match convert_wide(
        total_outstanding,
        synthetic_decimals,
        synthetic_price_cents,
        collateral_decimals,
        collateral_price_cents,
    ) {
        Ok(equivalent) => equivalent,
        Err(e) => {
            return Err(e);
        },
    };
    match mul_div_floor(equivalent, min_collateral_bps as u128, BPS_DENOMINATOR) {
        Ok(required) => Ok(required),
        Err(_) => Err(ErrorCode::InvalidAmount),
    }
}

/// Whether a treasury balance covers the required collateral.
pub fn check(treasury_balance: u128, required: u128) -> (covered: bool)
    ensures
        covered == (treasury_balance >= required),
{
    treasury_balance >= required
}

} // verus!
