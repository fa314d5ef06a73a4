//! The three operations of a deployment: setting it up, minting and burning.
//!
//! An operation goes through its stages in a fixed order: it validates its
//! accounts and its amount, loads both prices, converts, stages what the
//! ledger will do, and checks the collateral rule against the staged state.
//! Only when every stage has passed does it write to the state it was given;
//! a refusal at any stage leaves that state as it was.

use vstd::prelude::*;
use crate::collateral::{check, required_collateral, required_collateral_spec};
use crate::error::ErrorCode;
use crate::oracle::{
    parse_oracle_state,
    parse_oracle_state_spec,
    source_price,
    source_price_spec,
    state_price,
    state_price_spec,
    OraclePolicy,
    OracleState,
    PriceSource,
};
use crate::state::Config;

pub mod burn;
pub mod mint;
pub mod setup;

pub use burn::{
    accounts_after_burn,
    burn_credit_overflows,
    burn_receipt,
    burn_sbtc,
    burn_sbtc_spec,
    check_burn_accounts,
    check_burn_accounts_spec,
    quote_burn,
    quote_burn_spec,
    settle_burn_spec,
    validate_burn,
    validate_burn_spec,
    BurnOutcome,
    BurnQuote,
    BurnReceipt,
};
pub use mint::{
    accounts_after_mint,
    check_mint_accounts,
    check_mint_accounts_spec,
    mint_credit_overflows,
    mint_receipt,
    mint_sbtc,
    mint_sbtc_spec,
    quote_mint,
    quote_mint_spec,
    settle_mint_spec,
    validate_mint,
    validate_mint_spec,
    MintOutcome,
    MintQuote,
    MintReceipt,
};
pub use setup::{
    initial_config,
    initialize,
    initialize_spec,
    initialized_event,
    validate_initialize,
    validate_initialize_spec,
    InitializeReceipt,
};

verus! {

/// The prices of both assets, in cents per whole token.
#[derive(Clone, Copy, Debug, PartialEq, Eq, Structural)]
pub struct Prices {
    pub zbtc_price_cents: u64,
    pub sbtc_price_cents: u64,
}

/// What `load_prices` returns: the collateral price from its source, then the
/// synthetic price from the secondary oracle's state; the first refusal wins.
pub open spec fn load_prices_spec(
    source: PriceSource,
    oracle_state: Seq<u8>,
    now: i64,
    policy: OraclePolicy,
) -> Result<Prices, ErrorCode> {
    match source_price_spec(source, now, policy) {
        Err(e) => Err(e),
        Ok(zbtc_price_cents) => match parse_oracle_state_spec(oracle_state) {
            Err(e) => Err(e),
            Ok(state) => match state_price_spec(state, now, policy) {
                Err(e) => Err(e),
                Ok(sbtc_price_cents) => Ok(Prices { zbtc_price_cents, sbtc_price_cents }),
            },
        },
    }
}

/// Loads the prices of both assets as of `now`.
pub fn load_prices(source: &PriceSource, oracle_state: &[u8], now: i64, policy: &OraclePolicy) -> (r:
    Result<Prices, ErrorCode>)
    requires
        policy.wf(),
    ensures
        r == load_prices_spec(*source, oracle_state@, now, *policy),
{
    let zbtc_price_cents: u64 = match source_price(source, now, policy) {
        Ok(cents) => cents,
        Err(e) => {
            return Err(e);
        },
    };
    let state: OracleState = match parse_oracle_state(oracle_state) {
        Ok(state) => state,
        Err(e) => {
            return Err(e);
        },
    };
    let sbtc_price_cents: u64 = match state_price(&state, now, policy) {
        Ok(cents) => cents,
        Err(e) => {
            return Err(e);
        },
    };
    Ok(Prices { zbtc_price_cents, sbtc_price_cents })
}

/// What `check_collateral` returns: whether `treasury_balance` covers the
/// collateral required for `total_outstanding` at the given prices.
pub open spec fn check_collateral_spec(
    config: Config,
    total_outstanding: u128,
    treasury_balance: u64,
    prices: Prices,
) -> Result<(), ErrorCode> {
    match required_collateral_spec(
        total_outstanding,
        prices.sbtc_price_cents,
        config.sbtc_decimals,
        prices.zbtc_price_cents,
        config.zbtc_decimals,
        config.min_collateral_bps,
    ) {
        Err(e) => Err(e),
        Ok(required) => if treasury_balance < required {
            Err(ErrorCode::InsufficientCollateral)
        } else {
            Ok(())
        },
    }
}

/// Whether a deployment with this outstanding supply and this treasury
/// balance meets the collateral rule at the given prices: the required
/// collateral can be computed, and the treasury holds at least that much.
pub open spec fn collateralized(
    config: Config,
    total_outstanding: u128,
    treasury_balance: u64,
    prices: Prices,
) -> bool {
    required_collateral_spec(
        total_outstanding,
        prices.sbtc_price_cents,
        config.sbtc_decimals,
        prices.zbtc_price_cents,
        config.zbtc_decimals,
        config.min_collateral_bps,
    ) matches Ok(required) && treasury_balance >= required
}

/// Checks the collateral rule for a supply and a treasury balance.
pub fn check_collateral(
    config: &Config,
    total_outstanding: u128,
    treasury_balance: u64,
    prices: &Prices,
) -> (r: Result<(), ErrorCode>)
    ensures
        r == check_collateral_spec(*config, total_outstanding, treasury_balance, *prices),
        r is Ok <==> collateralized(*config, total_outstanding, treasury_balance, *prices),
{
    let required: u128 = match required_collateral(
        total_outstanding,
        prices.sbtc_price_cents,
        config.sbtc_decimals,
        prices.zbtc_price_cents,
        config.zbtc_decimals,
        config.min_collateral_bps,
    ) {
        Ok(required) => required,
        Err(e) => {
            return Err(e);
        },
    };
    if check(treasury_balance as u128, required) {
        Ok(())
    } else {
        Err(ErrorCode::InsufficientCollateral)
    }
}

} // verus!
