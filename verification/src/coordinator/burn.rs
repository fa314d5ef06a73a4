//! Burning: synthetic tokens in, collateral out.

use vstd::prelude::*;
use crate::conversion::{compute_fee, compute_fee_spec, convert, convert_spec, FeeSplit};
use crate::coordinator::{
    check_collateral,
    check_collateral_spec,
    collateralized,
    load_prices,
    load_prices_spec,
    Prices,
};
use crate::error::ErrorCode;
use crate::events::BurnEvent;
use crate::ledger::{Burn, Transfer};
use crate::oracle::OraclePolicy;
use crate::state::{BurnSbtc, Config, TokenAccountSnapshot};

verus! {

/// What `check_burn_accounts` returns: the first rule that the accounts of a
/// burn break, taken account by account.
pub open spec fn check_burn_accounts_spec(config: Config, accounts: BurnSbtc) -> Result<
    (),
    ErrorCode,
> {
    if accounts.squad_multisig != config.squad_multisig {
        Err(ErrorCode::InvalidSquadMultisig)
    } else if accounts.user_zbtc_account.mint != accounts.zbtc_mint {
        Err(ErrorCode::InvalidTokenMint)
    } else if accounts.user_zbtc_account.owner != accounts.user {
        Err(ErrorCode::InvalidTokenOwner)
    } else if accounts.user_sbtc_account.mint != accounts.sbtc_mint {
        Err(ErrorCode::InvalidTokenMint)
    } else if accounts.user_sbtc_account.owner != accounts.user {
        Err(ErrorCode::InvalidTokenOwner)
    } else if accounts.treasury_zbtc_vault.key != config.treasury_zbtc_vault {
        Err(ErrorCode::InvalidTreasuryVault)
    } else if accounts.fee_vault.key != config.fee_vault {
        Err(ErrorCode::InvalidFeeVault)
    } else {
        Ok(())
    }
}

/// Checks that the accounts of a burn are those of the deployment and of the requester.
pub fn check_burn_accounts(config: &Config, accounts: &BurnSbtc) -> (r: Result<(), ErrorCode>)
    ensures
        r == check_burn_accounts_spec(*config, *accounts),
{
    if !accounts.squad_multisig.same(&config.squad_multisig) {
        return Err(ErrorCode::InvalidSquadMultisig);
    }
    if !accounts.user_zbtc_account.mint.same(&accounts.zbtc_mint) {
        return Err(ErrorCode::InvalidTokenMint);
    }
    if !accounts.user_zbtc_account.owner.same(&accounts.user) {
        return Err(ErrorCode::InvalidTokenOwner);
    }
    if !accounts.user_sbtc_account.mint.same(&accounts.sbtc_mint) {
        return Err(ErrorCode::InvalidTokenMint);
    }
    if !accounts.user_sbtc_account.owner.same(&accounts.user) {
        return Err(ErrorCode::InvalidTokenOwner);
    }
    if !accounts.treasury_zbtc_vault.key.same(&config.treasury_zbtc_vault) {
        return Err(ErrorCode::InvalidTreasuryVault);
    }
    if !accounts.fee_vault.key.same(&config.fee_vault) {
        return Err(ErrorCode::InvalidFeeVault);
    }
    Ok(())
}

/// What `validate_burn` returns: the first of these that holds refuses the
/// burn: a zero amount, a paused deployment, a foreign asset, a token
/// account of another owner, a balance under the amount.
pub open spec fn validate_burn_spec(config: Config, accounts: BurnSbtc, sbtc_amount: u64) -> Result<
    (),
    ErrorCode,
> {
    if sbtc_amount == 0 {
        Err(ErrorCode::InvalidAmount)
    } else if config.paused {
        Err(ErrorCode::Paused)
    } else if accounts.zbtc_mint != config.zbtc_mint {
        Err(ErrorCode::InvalidZbtcMint)
    } else if accounts.sbtc_mint != config.sbtc_mint {
        Err(ErrorCode::InvalidSbtcMint)
    } else if accounts.user_sbtc_account.owner != accounts.user {
        Err(ErrorCode::InvalidTokenAccountOwner)
    } else if accounts.user_zbtc_account.owner != accounts.user {
        Err(ErrorCode::InvalidTokenAccountOwner)
    } else if accounts.user_sbtc_account.amount < sbtc_amount {
        Err(ErrorCode::InsufficientBalance)
    } else {
        Ok(())
    }
}

/// Validates the amount of a burn against the deployment and the requester's accounts.
pub fn validate_burn(config: &Config, accounts: &BurnSbtc, sbtc_amount: u64) -> (r: Result<
    (),
    ErrorCode,
>)
    ensures
        r == validate_burn_spec(*config, *accounts, sbtc_amount),
{
    if sbtc_amount == 0 {
        return Err(ErrorCode::InvalidAmount);
    }
    if config.paused {
        return Err(ErrorCode::Paused);
    }
    if !accounts.zbtc_mint.same(&config.zbtc_mint) {
        return Err(ErrorCode::InvalidZbtcMint);
    }
    if !accounts.sbtc_mint.same(&config.sbtc_mint) {
        return Err(ErrorCode::InvalidSbtcMint);
    }
    if !accounts.user_sbtc_account.owner.same(&accounts.user) {
        return Err(ErrorCode::InvalidTokenAccountOwner);
    }
    if !accounts.user_zbtc_account.owner.same(&accounts.user) {
        return Err(ErrorCode::InvalidTokenAccountOwner);
    }
    if accounts.user_sbtc_account.amount < sbtc_amount {
        return Err(ErrorCode::InsufficientBalance);
    }
    Ok(())
}

/// The amounts of one burn: what the burned tokens are worth in collateral,
/// the fee taken from that, and what the requester gets.
#[derive(Clone, Copy, Debug, PartialEq, Eq, Structural)]
pub struct BurnQuote {
    pub gross: u64,
    pub fee: u64,
    pub net: u64,
}

/// What `quote_burn` returns: the burned amount is converted from the
/// synthetic asset to collateral, and the fee is taken from the result; a
/// burn that would leave the requester nothing is refused.
pub open spec fn quote_burn_spec(config: Config, prices: Prices, sbtc_amount: u64) -> Result<
    BurnQuote,
    ErrorCode,
> {
    match convert_spec(
        sbtc_amount,
        config.sbtc_decimals,
        prices.sbtc_price_cents,
        config.zbtc_decimals,
        prices.zbtc_price_cents,
    ) {
        Err(e) => Err(e),
        Ok(gross) => match compute_fee_spec(gross, config.fee_rate_bps) {
            Err(e) => Err(e),
            Ok(split) => if split.net == 0 {
                Err(ErrorCode::InvalidAmount)
            } else {
                Ok(BurnQuote { gross, fee: split.fee, net: split.net })
            },
        },
    }
}

/// Computes the amounts of a burn of `sbtc_amount` at the given prices.
pub fn quote_burn(config: &Config, prices: &Prices, sbtc_amount: u64) -> (r: Result<
    BurnQuote,
    ErrorCode,
>)
    ensures
        r == quote_burn_spec(*config, *prices, sbtc_amount),
        r matches Ok(quote) ==> quote.fee + quote.net == quote.gross && quote.net > 0,
{
    let gross: u64 = match convert(
        sbtc_amount,
        config.sbtc_decimals,
        prices.sbtc_price_cents,
        config.zbtc_decimals,
        prices.zbtc_price_cents,
    ) {
        Ok(gross) => gross,
        Err(e) => {
            return Err(e);
        },
    };
    let split: FeeSplit = match compute_fee(gross, config.fee_rate_bps) {
        Ok(split) => split,
        Err(e) => {
            return Err(e);
        },
    };
    if split.net == 0 {
        return Err(ErrorCode::InvalidAmount);
    }
    Ok(BurnQuote { gross, fee: split.fee, net: split.net })
}

/// What a burn hands back: the instructions for the ledger, in the order in
/// which it is to apply them, and the record of the burn.
#[derive(Clone, Copy, Debug, PartialEq, Eq)]
pub struct BurnReceipt {
    /// The synthetic tokens, burned from the requester's account.
    pub burn: Burn,
    /// The redemption net of the fee, from the treasury to the requester.
    pub redemption: Transfer,
    /// The fee, from the treasury to the fee account; none where the fee is zero.
    pub fee_transfer: Option<Transfer>,
    pub event: BurnEvent,
}

/// The state that a burn leaves, with what it hands back.
pub struct BurnOutcome {
    pub config: Config,
    pub accounts: BurnSbtc,
    pub receipt: BurnReceipt,
}

/// Whether the ledger cannot hold what a burn credits.
pub open spec fn burn_credit_overflows(accounts: BurnSbtc, quote: BurnQuote) -> bool {
    ||| accounts.user_zbtc_account.amount + quote.net > u64::MAX
    ||| accounts.fee_vault.amount + quote.fee > u64::MAX
}

/// The accounts of a burn once the ledger has applied it: the requester has
/// given up the burned tokens and holds the net redemption, the treasury has
/// paid the redemption and the fee, and the fee account holds the fee.
pub open spec fn accounts_after_burn(
    accounts: BurnSbtc,
    quote: BurnQuote,
    sbtc_amount: u64,
) -> BurnSbtc {
    BurnSbtc {
        user_zbtc_account: TokenAccountSnapshot {
            amount: (accounts.user_zbtc_account.amount + quote.net) as u64,
            ..accounts.user_zbtc_account
        },
        user_sbtc_account: TokenAccountSnapshot {
            amount: (accounts.user_sbtc_account.amount - sbtc_amount) as u64,
            ..accounts.user_sbtc_account
        },
        treasury_zbtc_vault: TokenAccountSnapshot {
            amount: (accounts.treasury_zbtc_vault.amount - quote.net - quote.fee) as u64,
            ..accounts.treasury_zbtc_vault
        },
        fee_vault: TokenAccountSnapshot {
            amount: (accounts.fee_vault.amount + quote.fee) as u64,
            ..accounts.fee_vault
        },
        ..accounts
    }
}

/// The instructions and the record of a burn.
pub open spec fn burn_receipt(
    accounts: BurnSbtc,
    quote: BurnQuote,
    prices: Prices,
    sbtc_amount: u64,
    now: i64,
) -> BurnReceipt {
    BurnReceipt {
        burn: Burn {
            mint: accounts.sbtc_mint,
            from: accounts.user_sbtc_account.key,
            authority: accounts.user,
            amount: sbtc_amount,
        },
        redemption: Transfer {
            from: accounts.treasury_zbtc_vault.key,
            to: accounts.user_zbtc_account.key,
            authority: accounts.treasury_authority_pda,
            amount: quote.net,
        },
        fee_transfer: if quote.fee > 0 {
            Some(
                Transfer {
                    from: accounts.treasury_zbtc_vault.key,
                    to: accounts.fee_vault.key,
                    authority: accounts.treasury_authority_pda,
                    amount: quote.fee,
                },
            )
        } else {
            None
        },
        event: BurnEvent {
            user: accounts.user,
            sbtc_burned: sbtc_amount,
            zbtc_redeemed: quote.net,
            fee_amount: quote.fee,
            zbtc_price_cents: prices.zbtc_price_cents,
            sbtc_price_cents: prices.sbtc_price_cents,
            timestamp: now,
        },
    }
}

/// What a burn that has its prices and its amounts does: the treasury must
/// hold the whole redemption, the ledger must be able to hold the credits,
/// the outstanding supply must be at least what is burned, and the treasury
/// after the redemption must cover the collateral required for the supply
/// after the burn.
pub open spec fn settle_burn_spec(
    config: Config,
    accounts: BurnSbtc,
    sbtc_amount: u64,
    now: i64,
    prices: Prices,
    quote: BurnQuote,
) -> Result<BurnOutcome, ErrorCode> {
    if accounts.treasury_zbtc_vault.amount < quote.gross {
        Err(ErrorCode::InsufficientLiquidity)
    } else if burn_credit_overflows(accounts, quote) {
        Err(ErrorCode::InvalidAmount)
    } else if config.total_sbtc_outstanding < sbtc_amount {
        Err(ErrorCode::AccountingUnderflow)
    } else {
        let total = (config.total_sbtc_outstanding - sbtc_amount) as u128;
        let staged = accounts_after_burn(accounts, quote, sbtc_amount);
        match check_collateral_spec(config, total, staged.treasury_zbtc_vault.amount, prices) {
            Err(e) => Err(e),
            Ok(_) => Ok(
                BurnOutcome {
                    config: Config { total_sbtc_outstanding: total, ..config },
                    accounts: staged,
                    receipt: burn_receipt(accounts, quote, prices, sbtc_amount, now),
                },
            ),
        }
    }
}

/// What `burn_sbtc` does, stage by stage; the first refusal wins.
pub open spec fn burn_sbtc_spec(
    config: Config,
    accounts: BurnSbtc,
    sbtc_amount: u64,
    now: i64,
    policy: OraclePolicy,
) -> Result<BurnOutcome, ErrorCode> {
    match check_burn_accounts_spec(config, accounts) {
        Err(e) => Err(e),
        Ok(_) => match validate_burn_spec(config, accounts, sbtc_amount) {
            Err(e) => Err(e),
            Ok(_) => match load_prices_spec(
                accounts.pyth_price_account,
                accounts.oracle_state@,
                now,
                policy,
            ) {
                Err(e) => Err(e),
                Ok(prices) => match quote_burn_spec(config, prices, sbtc_amount) {
                    Err(e) => Err(e),
                    Ok(quote) => settle_burn_spec(config, accounts, sbtc_amount, now, prices, quote),
                },
            },
        },
    }
}

/// Burns `sbtc_amount` of the synthetic asset and redeems what it is worth
/// in collateral, net of the fee.
///
/// On success the deployment no longer counts the burned tokens, the
/// accounts show the balances that the ledger will show once it has applied
/// the receipt's instructions, and the treasury covers the collateral
/// required. On a refusal nothing has changed.
pub fn burn_sbtc(
    config: &mut Config,
    accounts: &mut BurnSbtc,
    sbtc_amount: u64,
    now: i64,
    policy: &OraclePolicy,
) -> (r: Result<BurnReceipt, ErrorCode>)
    requires
        policy.wf(),
    ensures
        burn_sbtc_spec(*old(config), *old(accounts), sbtc_amount, now, *policy) matches Ok(outcome)
            ==> r == Ok::<BurnReceipt, ErrorCode>(outcome.receipt) && *final(config)
            == outcome.config && *final(accounts) == outcome.accounts,
        burn_sbtc_spec(*old(config), *old(accounts), sbtc_amount, now, *policy) matches Err(e)
            ==> r == Err::<BurnReceipt, ErrorCode>(e) && *final(config) == *old(config)
            && *final(accounts) == *old(accounts),
        r matches Ok(receipt) ==> final(config).total_sbtc_outstanding
            == old(config).total_sbtc_outstanding - receipt.burn.amount,
        r matches Ok(receipt) ==> receipt.burn.amount == sbtc_amount,
        r is Ok ==> (load_prices_spec(
            old(accounts).pyth_price_account,
            old(accounts).oracle_state@,
            now,
            *policy,
        ) matches Ok(prices) && collateralized(
            *final(config),
            final(config).total_sbtc_outstanding,
            final(accounts).treasury_zbtc_vault.amount,
            prices,
        )),
{
    match check_burn_accounts(config, accounts) {
        Ok(_) => {},
        Err(e) => {
            return Err(e);
        },
    }
    match validate_burn(config, accounts, sbtc_amount) {
        Ok(_) => {},
        Err(e) => {
            return Err(e);
        },
    }
    let prices: Prices = match load_prices(
        &accounts.pyth_price_account,
        accounts.oracle_state.as_slice(),
        now,
        policy,
    ) {
        Ok(prices) => prices,
        Err(e) => {
            return Err(e);
        },
    };
    let quote: BurnQuote = match quote_burn(config, &prices, sbtc_amount) {
        Ok(quote) => quote,
        Err(e) => {
            return Err(e);
        },
    };
    if accounts.treasury_zbtc_vault.amount < quote.gross {
        return Err(ErrorCode::InsufficientLiquidity);
    }
    let user_zbtc_after: u64 = match accounts.user_zbtc_account.amount.checked_add(quote.net) {
        Some(balance) => balance,
        None => {
            return Err(ErrorCode::InvalidAmount);
        },
    };
    let fee_vault_after: u64 = match accounts.fee_vault.amount.checked_add(quote.fee) {
        Some(balance) => balance,
        None => {
            return Err(ErrorCode::InvalidAmount);
        },
    };
    let total: u128 = match config.total_sbtc_outstanding.checked_sub(sbtc_amount as u128) {
        Some(total) => total,
        None => {
            return Err(ErrorCode::AccountingUnderflow);
        },
    };
    let treasury_after: u64 = accounts.treasury_zbtc_vault.amount - quote.gross;
    match check_collateral(config, total, treasury_after, &prices) {
        Ok(_) => {},
        Err(e) => {
            return Err(e);
        },
    }
    let receipt: BurnReceipt = BurnReceipt {
        burn: Burn {
            mint: accounts.sbtc_mint,
            from: accounts.user_sbtc_account.key,
            authority: accounts.user,
            amount: sbtc_amount,
        },
        redemption: Transfer {
            from: accounts.treasury_zbtc_vault.key,
            to: accounts.user_zbtc_account.key,
            authority: accounts.treasury_authority_pda,
            amount: quote.net,
        },
        fee_transfer: if quote.fee > 0 {
            Some(
                Transfer {
                    from: accounts.treasury_zbtc_vault.key,
                    to: accounts.fee_vault.key,
                    authority: accounts.treasury_authority_pda,
                    amount: quote.fee,
                },
            )
        } else {
            None
        },
        event: BurnEvent {
            user: accounts.user,
            sbtc_burned: sbtc_amount,
            zbtc_redeemed: quote.net,
            fee_amount: quote.fee,
            zbtc_price_cents: prices.zbtc_price_cents,
            sbtc_price_cents: prices.sbtc_price_cents,
            timestamp: now,
        },
    };
    accounts.user_zbtc_account.amount = user_zbtc_after;
    accounts.user_sbtc_account.amount = accounts.user_sbtc_account.amount - sbtc_amount;
    accounts.treasury_zbtc_vault.amount = treasury_after;
    accounts.fee_vault.amount = fee_vault_after;
    config.total_sbtc_outstanding = total;
    Ok(receipt)
}

} // verus!
