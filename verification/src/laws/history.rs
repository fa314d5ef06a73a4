//! Laws of histories: what holds after any sequence of mints and burns.

use vstd::prelude::*;
use crate::coordinator::{burn_sbtc_spec, collateralized, load_prices_spec, mint_sbtc_spec};
use crate::oracle::OraclePolicy;
use crate::state::{BurnSbtc, Config, MintSbtc};

verus! {

/// One operation of a history, with the accounts and the time it ran with.
pub enum Operation {
    /// A mint: its accounts, the amount of collateral, and the time.
    Mint(MintSbtc, u64, i64),
    /// A burn: its accounts, the amount of the synthetic asset, and the time.
    Burn(BurnSbtc, u64, i64),
}

/// Whether the engine accepts the operation in the given state.
pub open spec fn accepted(config: Config, operation: Operation, policy: OraclePolicy) -> bool {
    match operation {
        Operation::Mint(accounts, zbtc_amount, now) => mint_sbtc_spec(
            config,
            accounts,
            zbtc_amount,
            now,
            policy,
        ) is Ok,
        Operation::Burn(accounts, sbtc_amount, now) => burn_sbtc_spec(
            config,
            accounts,
            sbtc_amount,
            now,
            policy,
        ) is Ok,
    }
}

/// The state that the operation leaves: that of its outcome where it is
/// accepted, the state it found where it is refused.
pub open spec fn config_after(config: Config, operation: Operation, policy: OraclePolicy) -> Config {
    match operation {
        Operation::Mint(accounts, zbtc_amount, now) => match mint_sbtc_spec(
            config,
            accounts,
            zbtc_amount,
            now,
            policy,
        ) {
            Ok(outcome) => outcome.config,
            Err(_) => config,
        },
        Operation::Burn(accounts, sbtc_amount, now) => match burn_sbtc_spec(
            config,
            accounts,
            sbtc_amount,
            now,
            policy,
        ) {
            Ok(outcome) => outcome.config,
            Err(_) => config,
        },
    }
}

/// What the operation adds to the outstanding supply: what it minted, less
/// what it burned, and nothing where it is refused.
pub open spec fn supply_change(config: Config, operation: Operation, policy: OraclePolicy) -> int {
    match operation {
        Operation::Mint(accounts, zbtc_amount, now) => match mint_sbtc_spec(
            config,
            accounts,
            zbtc_amount,
            now,
            policy,
        ) {
            Ok(outcome) => outcome.receipt.mint_to.amount as int,
            Err(_) => 0,
        },
        Operation::Burn(accounts, sbtc_amount, now) => match burn_sbtc_spec(
            config,
            accounts,
            sbtc_amount,
            now,
            policy,
        ) {
            Ok(outcome) => -(outcome.receipt.burn.amount as int),
            Err(_) => 0,
        },
    }
}

/// Whether the operation, where it is accepted, leaves a treasury that
/// covers the collateral required for the supply it leaves, at its prices.
pub open spec fn leaves_collateralized(
    config: Config,
    operation: Operation,
    policy: OraclePolicy,
) -> bool {
    match operation {
        Operation::Mint(accounts, zbtc_amount, now) => {
            mint_sbtc_spec(config, accounts, zbtc_amount, now, policy) matches Ok(outcome)
                ==> load_prices_spec(
                accounts.pyth_price_account,
                accounts.oracle_state@,
                now,
                policy,
            ) matches Ok(prices) && collateralized(
                outcome.config,
                outcome.config.total_sbtc_outstanding,
                outcome.accounts.treasury_zbtc_vault.amount,
                prices,
            )
        },
        Operation::Burn(accounts, sbtc_amount, now) => {
            burn_sbtc_spec(config, accounts, sbtc_amount, now, policy) matches Ok(outcome)
                ==> load_prices_spec(
                accounts.pyth_price_account,
                accounts.oracle_state@,
                now,
                policy,
            ) matches Ok(prices) && collateralized(
                outcome.config,
                outcome.config.total_sbtc_outstanding,
                outcome.accounts.treasury_zbtc_vault.amount,
                prices,
            )
        },
    }
}

/// The state after a history of operations, run one after the other.
pub open spec fn config_after_all(
    config: Config,
    history: Seq<Operation>,
    policy: OraclePolicy,
) -> Config
    decreases history.len(),
{
    if history.len() == 0 {
        config
    } else {
        config_after(config_after_all(config, history.drop_last(), policy), history.last(), policy)
    }
}

/// What a history of operations adds to the outstanding supply: all that
/// its accepted mints minted, less all that its accepted burns burned.
pub open spec fn net_minted(config: Config, history: Seq<Operation>, policy: OraclePolicy) -> int
    decreases history.len(),
{
    if history.len() == 0 {
        0
    } else {
        net_minted(config, history.drop_last(), policy) + supply_change(
            config_after_all(config, history.drop_last(), policy),
            history.last(),
            policy,
        )
    }
}

/// After any history the outstanding supply is what it was, plus all that
/// was minted, less all that was burned; it is never negative, and nothing
/// else in the state has changed.
pub proof fn lemma_history_keeps_the_books(
    config: Config,
    history: Seq<Operation>,
    policy: OraclePolicy,
)
    ensures
        config_after_all(config, history, policy).total_sbtc_outstanding
            == config.total_sbtc_outstanding + net_minted(config, history, policy),
        config.total_sbtc_outstanding + net_minted(config, history, policy) >= 0,
        config_after_all(config, history, policy) == (Config {
            total_sbtc_outstanding: config_after_all(
                config,
                history,
                policy,
            ).total_sbtc_outstanding,
            ..config
        }),
    decreases history.len(),
{
    if history.len() > 0 {
        lemma_history_keeps_the_books(config, history.drop_last(), policy);
    }
}

/// After a deployment was set up with nothing outstanding, the outstanding
/// supply is at all times the net of what was minted and burned since.
pub proof fn lemma_supply_is_net_minted_since_setup(
    config: Config,
    history: Seq<Operation>,
    policy: OraclePolicy,
)
    requires
        config.total_sbtc_outstanding == 0,
    ensures
        config_after_all(config, history, policy).total_sbtc_outstanding == net_minted(
            config,
            history,
            policy,
        ),
{
    lemma_history_keeps_the_books(config, history, policy);
}

/// Every operation of a history, in the state that the operations before it
/// left, either is refused and changes nothing, or leaves a treasury that
/// covers the collateral required.
pub proof fn lemma_history_stays_collateralized(
    config: Config,
    history: Seq<Operation>,
    policy: OraclePolicy,
    index: int,
)
    requires
        0 <= index < history.len(),
    ensures
        ({
            let before = config_after_all(config, history.take(index), policy);
            &&& leaves_collateralized(before, history[index], policy)
            &&& !accepted(before, history[index], policy) ==> config_after(
                before,
                history[index],
                policy,
            ) == before
            &&& config_after_all(config, history.take(index + 1), policy) == config_after(
                before,
                history[index],
                policy,
            )
        }),
{
    let prefix = history.take(index + 1);
    assert(prefix.drop_last() =~= history.take(index));
    assert(prefix.last() == history[index]);
}

} // verus!
