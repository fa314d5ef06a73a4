//! Laws of the collateral rule and of the count of outstanding tokens.

use vstd::prelude::*;
use vstd::arithmetic::div_mod::{lemma_div_is_ordered, lemma_div_multiples_vanish};
use crate::collateral::required_collateral_spec;
use crate::conversion::convert_wide_spec;
use crate::coordinator::{burn_sbtc_spec, collateralized, load_prices_spec, mint_sbtc_spec};
use crate::fixed_point::BPS_DENOMINATOR;
use crate::oracle::OraclePolicy;
use crate::state::{BurnSbtc, Config, MintSbtc, CONFIG_MIN_COLLATERAL_BPS};

verus! {

/// The required collateral is never less than what the outstanding supply
/// is worth in collateral, as long as the ratio is at least the whole; at the
/// smallest ratio a deployment may use it is at least twice that.
pub proof fn lemma_required_collateral_has_a_buffer(
    total_outstanding: u128,
    synthetic_price_cents: u64,
    synthetic_decimals: u8,
    collateral_price_cents: u64,
    collateral_decimals: u8,
    min_collateral_bps: u64,
)
    requires
        required_collateral_spec(
            total_outstanding,
            synthetic_price_cents,
            synthetic_decimals,
            collateral_price_cents,
            collateral_decimals,
            min_collateral_bps,
        ) is Ok,
    ensures
        ({
            let required = required_collateral_spec(
                total_outstanding,
                synthetic_price_cents,
                synthetic_decimals,
                collateral_price_cents,
                collateral_decimals,
                min_collateral_bps,
            )->Ok_0;
            let equivalent = convert_wide_spec(
                total_outstanding,
                synthetic_decimals,
                synthetic_price_cents,
                collateral_decimals,
                collateral_price_cents,
            )->Ok_0;
            &&& min_collateral_bps >= BPS_DENOMINATOR ==> required >= equivalent
            &&& min_collateral_bps >= CONFIG_MIN_COLLATERAL_BPS ==> required >= 2 * equivalent
        }),
{
    let equivalent = convert_wide_spec(
        total_outstanding,
        synthetic_decimals,
        synthetic_price_cents,
        collateral_decimals,
        collateral_price_cents,
    )->Ok_0;
    let scaled = equivalent as int * min_collateral_bps as int;
    if min_collateral_bps >= BPS_DENOMINATOR {
        assert(10000 * equivalent as int <= scaled) by (nonlinear_arith)
            requires
                scaled == equivalent as int * min_collateral_bps as int,
                min_collateral_bps >= 10000,
        ;
        lemma_div_multiples_vanish(equivalent as int, 10000);
        lemma_div_is_ordered(10000 * equivalent as int, scaled, 10000);
    }
    if min_collateral_bps >= CONFIG_MIN_COLLATERAL_BPS {
        assert(10000 * (2 * equivalent as int) <= scaled) by (nonlinear_arith)
            requires
                scaled == equivalent as int * min_collateral_bps as int,
                min_collateral_bps >= 20000,
        ;
        lemma_div_multiples_vanish(2 * equivalent as int, 10000);
        lemma_div_is_ordered(10000 * (2 * equivalent as int), scaled, 10000);
    }
}

/// An accepted mint adds exactly what it minted to the outstanding supply,
/// and leaves a treasury that covers the collateral required at the prices
/// of the mint.
pub proof fn lemma_mint_keeps_books_and_collateral(
    config: Config,
    accounts: MintSbtc,
    zbtc_amount: u64,
    now: i64,
    policy: OraclePolicy,
)
    requires
        mint_sbtc_spec(config, accounts, zbtc_amount, now, policy) is Ok,
    ensures
        ({
            let outcome = mint_sbtc_spec(config, accounts, zbtc_amount, now, policy)->Ok_0;
            let prices = load_prices_spec(
                accounts.pyth_price_account,
                accounts.oracle_state@,
                now,
                policy,
            )->Ok_0;
            &&& outcome.config.total_sbtc_outstanding == config.total_sbtc_outstanding
                + outcome.receipt.mint_to.amount
            &&& outcome.receipt.event.sbtc_minted == outcome.receipt.mint_to.amount
            &&& outcome.config.wf() == config.wf()
            &&& collateralized(
                outcome.config,
                outcome.config.total_sbtc_outstanding,
                outcome.accounts.treasury_zbtc_vault.amount,
                prices,
            )
        }),
{
}

/// An accepted burn takes exactly what it burned off the outstanding supply,
/// which does not go below zero, and leaves a treasury that covers the
/// collateral required at the prices of the burn.
pub proof fn lemma_burn_keeps_books_and_collateral(
    config: Config,
    accounts: BurnSbtc,
    sbtc_amount: u64,
    now: i64,
    policy: OraclePolicy,
)
    requires
        burn_sbtc_spec(config, accounts, sbtc_amount, now, policy) is Ok,
    ensures
        ({
            let outcome = burn_sbtc_spec(config, accounts, sbtc_amount, now, policy)->Ok_0;
            let prices = load_prices_spec(
                accounts.pyth_price_account,
                accounts.oracle_state@,
                now,
                policy,
            )->Ok_0;
            &&& sbtc_amount <= config.total_sbtc_outstanding
            &&& outcome.config.total_sbtc_outstanding == config.total_sbtc_outstanding
                - sbtc_amount
            &&& outcome.receipt.burn.amount == sbtc_amount
            &&& outcome.config.wf() == config.wf()
            &&& collateralized(
                outcome.config,
                outcome.config.total_sbtc_outstanding,
                outcome.accounts.treasury_zbtc_vault.amount,
                prices,
            )
        }),
{
}

} // verus!
