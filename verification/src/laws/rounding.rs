//! Laws of rounding: every conversion rounds against the requester.

use vstd::prelude::*;
use vstd::arithmetic::div_mod::lemma_multiply_divide_le;
use crate::conversion::{amount_for_cents, converted, value_in_cents};
use crate::coordinator::{
    burn_sbtc_spec,
    load_prices_spec,
    mint_sbtc_spec,
    quote_burn_spec,
    quote_mint_spec,
    Prices,
};
use crate::fixed_point::{lemma_floor_times_divisor, lemma_pow10_positive, pow10};
use crate::oracle::OraclePolicy;
use crate::state::{BurnSbtc, Config, MintSbtc};

verus! {

/// A conversion never gives more than the exact rate would: what comes out,
/// valued at the destination price, is worth at most what went in, valued
/// at the source price.
pub proof fn lemma_conversion_within_exact_rate(
    amount: nat,
    decimals_from: nat,
    price_from_cents: nat,
    decimals_to: nat,
    price_to_cents: nat,
)
    requires
        price_to_cents > 0,
    ensures
        converted(amount, decimals_from, price_from_cents, decimals_to, price_to_cents)
            * price_to_cents * pow10(decimals_from) <= amount * price_from_cents * pow10(
            decimals_to,
        ),
{
    let unit_from = pow10(decimals_from);
    let unit_to = pow10(decimals_to);
    lemma_pow10_positive(decimals_from);
    lemma_pow10_positive(decimals_to);
    let value = value_in_cents(amount, price_from_cents, decimals_from);
    let result = amount_for_cents(value, decimals_to, price_to_cents);
    lemma_floor_times_divisor(amount * price_from_cents, unit_from);
    lemma_floor_times_divisor(value * unit_to, price_to_cents);
    assert(result * price_to_cents * unit_from <= amount * price_from_cents * unit_to)
        by (nonlinear_arith)
        requires
            value * unit_from <= amount * price_from_cents,
            result * price_to_cents <= value * unit_to,
    ;
}

/// Converting an amount to the other asset and back never gives more than
/// the amount: each of the four divisions rounds down.
pub proof fn lemma_round_trip_never_gains(
    amount: nat,
    decimals_a: nat,
    price_a: nat,
    decimals_b: nat,
    price_b: nat,
)
    requires
        price_a > 0,
        price_b > 0,
    ensures
        converted(
            converted(amount, decimals_a, price_a, decimals_b, price_b),
            decimals_b,
            price_b,
            decimals_a,
            price_a,
        ) <= amount,
{
    let unit_a = pow10(decimals_a);
    let unit_b = pow10(decimals_b);
    lemma_pow10_positive(decimals_a);
    lemma_pow10_positive(decimals_b);
    let value_out = value_in_cents(amount, price_a, decimals_a);
    let there = amount_for_cents(value_out, decimals_b, price_b);
    let value_back = value_in_cents(there, price_b, decimals_b);
    let back = amount_for_cents(value_back, decimals_a, price_a);
    assert(there * price_b <= value_out * unit_b) by {
        lemma_floor_times_divisor(value_out * unit_b, price_b);
    }
    assert(value_back <= value_out) by {
        assert(value_out * unit_b == unit_b * value_out) by (nonlinear_arith);
        lemma_multiply_divide_le((there * price_b) as int, unit_b as int, value_out as int);
    }
    assert(value_out * unit_a <= amount * price_a) by {
        lemma_floor_times_divisor(amount * price_a, unit_a);
    }
    assert(value_back * unit_a <= value_out * unit_a) by (nonlinear_arith)
        requires
            value_back <= value_out,
    ;
    assert(back <= amount) by {
        assert(amount * price_a == price_a * amount) by (nonlinear_arith);
        lemma_multiply_divide_le((value_back * unit_a) as int, price_a as int, amount as int);
    }
}

/// Minting and then burning all that was minted, at the same prices, never
/// redeems more than was deposited: the burn is worth at most the net
/// deposit, and both fees come off.
pub proof fn lemma_mint_then_burn_never_gains(config: Config, prices: Prices, zbtc_amount: u64)
    requires
        quote_mint_spec(config, prices, zbtc_amount) is Ok,
        quote_burn_spec(config, prices, quote_mint_spec(config, prices, zbtc_amount)->Ok_0.minted)
            is Ok,
    ensures
        ({
            let minted = quote_mint_spec(config, prices, zbtc_amount)->Ok_0;
            let redeemed = quote_burn_spec(config, prices, minted.minted)->Ok_0;
            redeemed.net <= redeemed.gross <= minted.net <= zbtc_amount
        }),
{
    let minted = quote_mint_spec(config, prices, zbtc_amount)->Ok_0;
    lemma_round_trip_never_gains(
        minted.net as nat,
        config.zbtc_decimals as nat,
        prices.zbtc_price_cents as nat,
        config.sbtc_decimals as nat,
        prices.sbtc_price_cents as nat,
    );
}

/// The collateral that a requester holds after `cycles` rounds of depositing
/// `zbtc_amount` and burning all that the deposit minted, at constant
/// prices. A round that the engine refuses changes nothing.
pub open spec fn balance_after_cycles(
    config: Config,
    prices: Prices,
    balance: int,
    zbtc_amount: u64,
    cycles: nat,
) -> int
    decreases cycles,
{
    if cycles == 0 {
        balance
    } else {
        let before = balance_after_cycles(config, prices, balance, zbtc_amount, (cycles - 1) as nat);
        match quote_mint_spec(config, prices, zbtc_amount) {
            Err(_) => before,
            Ok(minted) => match quote_burn_spec(config, prices, minted.minted) {
                Err(_) => before,
                Ok(redeemed) => before - zbtc_amount + redeemed.net,
            },
        }
    }
}

/// However often a requester mints and burns the same amount at constant
/// prices, they never hold more collateral than they started with.
pub proof fn lemma_cycles_never_gain(
    config: Config,
    prices: Prices,
    balance: int,
    zbtc_amount: u64,
    cycles: nat,
)
    ensures
        balance_after_cycles(config, prices, balance, zbtc_amount, cycles) <= balance,
    decreases cycles,
{
    if cycles > 0 {
        lemma_cycles_never_gain(config, prices, balance, zbtc_amount, (cycles - 1) as nat);
        if quote_mint_spec(config, prices, zbtc_amount) is Ok && quote_burn_spec(
            config,
            prices,
            quote_mint_spec(config, prices, zbtc_amount)->Ok_0.minted,
        ) is Ok {
            lemma_mint_then_burn_never_gains(config, prices, zbtc_amount);
        }
    }
}

/// A mint followed by a burn of all that it minted, both accepted and both
/// at the same prices, pays the requester at most what they deposited.
pub proof fn lemma_mint_burn_operations_never_gain(
    config: Config,
    mint_accounts: MintSbtc,
    burn_accounts: BurnSbtc,
    zbtc_amount: u64,
    mint_time: i64,
    burn_time: i64,
    policy: OraclePolicy,
)
    requires
        mint_sbtc_spec(config, mint_accounts, zbtc_amount, mint_time, policy) is Ok,
        burn_sbtc_spec(
            mint_sbtc_spec(config, mint_accounts, zbtc_amount, mint_time, policy)->Ok_0.config,
            burn_accounts,
            mint_sbtc_spec(
                config,
                mint_accounts,
                zbtc_amount,
                mint_time,
                policy,
            )->Ok_0.receipt.mint_to.amount,
            burn_time,
            policy,
        ) is Ok,
        load_prices_spec(
            mint_accounts.pyth_price_account,
            mint_accounts.oracle_state@,
            mint_time,
            policy,
        ) == load_prices_spec(
            burn_accounts.pyth_price_account,
            burn_accounts.oracle_state@,
            burn_time,
            policy,
        ),
    ensures
        ({
            let minted = mint_sbtc_spec(config, mint_accounts, zbtc_amount, mint_time, policy)->Ok_0;
            let burned = burn_sbtc_spec(
                minted.config,
                burn_accounts,
                minted.receipt.mint_to.amount,
                burn_time,
                policy,
            )->Ok_0;
            burned.receipt.redemption.amount <= zbtc_amount
        }),
{
    let prices = load_prices_spec(
        mint_accounts.pyth_price_account,
        mint_accounts.oracle_state@,
        mint_time,
        policy,
    )->Ok_0;
    let minted = mint_sbtc_spec(config, mint_accounts, zbtc_amount, mint_time, policy)->Ok_0;
    assert(quote_burn_spec(minted.config, prices, minted.receipt.mint_to.amount)
        == quote_burn_spec(config, prices, minted.receipt.mint_to.amount));
    lemma_mint_then_burn_never_gains(config, prices, zbtc_amount);
}

} // verus!
