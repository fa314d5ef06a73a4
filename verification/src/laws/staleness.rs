//! Laws of staleness: a stale price refuses the operation.

use vstd::prelude::*;
use crate::coordinator::{
    burn_sbtc_spec,
    check_burn_accounts_spec,
    check_mint_accounts_spec,
    mint_sbtc_spec,
    validate_burn_spec,
    validate_mint_spec,
};
use crate::error::ErrorCode;
use crate::oracle::{
    normalize_price_spec,
    older_than,
    parse_oracle_state_spec,
    source_price_spec,
    OraclePolicy,
    OracleState,
    PriceQuote,
    PriceSource,
};
use crate::state::{BurnSbtc, Config, MintSbtc};

verus! {

/// A stale quote is refused as stale, whatever else it holds.
pub proof fn lemma_stale_quote_is_refused(quote: PriceQuote, now: i64, policy: OraclePolicy)
    requires
        policy.enforce_staleness,
        older_than(now, quote.observed_at, policy.feed_max_age),
    ensures
        normalize_price_spec(quote, now, policy) == Err::<u64, ErrorCode>(
            ErrorCode::StaleOraclePrice,
        ),
        source_price_spec(PriceSource::Live(quote), now, policy) == Err::<u64, ErrorCode>(
            ErrorCode::StaleOraclePrice,
        ),
{
}

/// A mint that passes validation and finds the collateral quote stale is
/// refused as stale.
pub proof fn lemma_stale_quote_refuses_mint(
    config: Config,
    accounts: MintSbtc,
    zbtc_amount: u64,
    now: i64,
    policy: OraclePolicy,
    quote: PriceQuote,
)
    requires
        check_mint_accounts_spec(config, accounts) is Ok,
        validate_mint_spec(config, accounts, zbtc_amount) is Ok,
        policy.enforce_staleness,
        accounts.pyth_price_account == PriceSource::Live(quote),
        older_than(now, quote.observed_at, policy.feed_max_age),
    ensures
        mint_sbtc_spec(config, accounts, zbtc_amount, now, policy) matches Err(e) && e
            == ErrorCode::StaleOraclePrice,
{
}

/// A mint that passes validation, has its collateral price, and finds the
/// secondary oracle's state stale is refused as stale.
pub proof fn lemma_stale_state_refuses_mint(
    config: Config,
    accounts: MintSbtc,
    zbtc_amount: u64,
    now: i64,
    policy: OraclePolicy,
    state: OracleState,
)
    requires
        check_mint_accounts_spec(config, accounts) is Ok,
        validate_mint_spec(config, accounts, zbtc_amount) is Ok,
        source_price_spec(accounts.pyth_price_account, now, policy) is Ok,
        policy.enforce_staleness,
        parse_oracle_state_spec(accounts.oracle_state@) == Ok::<OracleState, ErrorCode>(state),
        older_than(now, state.last_update, policy.state_max_age),
    ensures
        mint_sbtc_spec(config, accounts, zbtc_amount, now, policy) matches Err(e) && e
            == ErrorCode::StaleOraclePrice,
{
}

/// A burn that passes validation and finds the collateral quote stale is
/// refused as stale.
pub proof fn lemma_stale_quote_refuses_burn(
    config: Config,
    accounts: BurnSbtc,
    sbtc_amount: u64,
    now: i64,
    policy: OraclePolicy,
    quote: PriceQuote,
)
    requires
        check_burn_accounts_spec(config, accounts) is Ok,
        validate_burn_spec(config, accounts, sbtc_amount) is Ok,
        policy.enforce_staleness,
        accounts.pyth_price_account == PriceSource::Live(quote),
        older_than(now, quote.observed_at, policy.feed_max_age),
    ensures
        burn_sbtc_spec(config, accounts, sbtc_amount, now, policy) matches Err(e) && e
            == ErrorCode::StaleOraclePrice,
{
}

/// A burn that passes validation, has its collateral price, and finds the
/// secondary oracle's state stale is refused as stale.
pub proof fn lemma_stale_state_refuses_burn(
    config: Config,
    accounts: BurnSbtc,
    sbtc_amount: u64,
    now: i64,
    policy: OraclePolicy,
    state: OracleState,
)
    requires
        check_burn_accounts_spec(config, accounts) is Ok,
        validate_burn_spec(config, accounts, sbtc_amount) is Ok,
        source_price_spec(accounts.pyth_price_account, now, policy) is Ok,
        policy.enforce_staleness,
        parse_oracle_state_spec(accounts.oracle_state@) == Ok::<OracleState, ErrorCode>(state),
        older_than(now, state.last_update, policy.state_max_age),
    ensures
        burn_sbtc_spec(config, accounts, sbtc_amount, now, policy) matches Err(e) && e
            == ErrorCode::StaleOraclePrice,
{
}

} // verus!
