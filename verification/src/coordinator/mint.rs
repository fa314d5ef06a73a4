//! Minting: collateral in, synthetic tokens out.

use vstd::prelude::*;
use crate::conversion::{compute_fee, compute_fee_spec, convert, convert_spec, FeeSplit};
use crate::coordinator::{
    check_collateral,
    check_collateral_spec,
    collateralized,
    load_prices,
    load_prices_spec,
    Prices,
};
use crate::error::ErrorCode;
use crate::events::MintEvent;
use crate::ledger::{MintTo, Transfer};
use crate::oracle::OraclePolicy;
use crate::state::{Config, MintSbtc, TokenAccountSnapshot};

verus! {

/// What `check_mint_accounts` returns: the first rule that the accounts of a
/// mint break, taken account by account.
pub open spec fn check_mint_accounts_spec(config: Config, accounts: MintSbtc) -> Result<
    (),
    ErrorCode,
> {
    if accounts.squad_multisig != config.squad_multisig {
        Err(ErrorCode::InvalidSquadMultisig)
    } else if accounts.user_zbtc_account.mint != accounts.zbtc_mint {
        Err(ErrorCode::InvalidTokenMint)
    } else if accounts.user_zbtc_account.owner != accounts.user {
        Err(ErrorCode::InvalidTokenOwner)
    } else if accounts.user_sbtc_account.mint != accounts.sbtc_mint {
        Err(ErrorCode::InvalidTokenMint)
    } else if accounts.user_sbtc_account.owner != accounts.user {
        Err(ErrorCode::InvalidTokenOwner)
    } else if accounts.treasury_zbtc_vault.key != config.treasury_zbtc_vault {
        Err(ErrorCode::InvalidTreasuryVault)
    } else if accounts.fee_vault.key != config.fee_vault {
        Err(ErrorCode::InvalidFeeVault)
    } else {
        Ok(())
    }
}

/// Checks that the accounts of a mint are those of the deployment and of the requester.
pub fn check_mint_accounts(config: &Config, accounts: &MintSbtc) -> (r: Result<(), ErrorCode>)
    ensures
        r == check_mint_accounts_spec(*config, *accounts),
{
    if !accounts.squad_multisig.same(&config.squad_multisig) {
        return Err(ErrorCode::InvalidSquadMultisig);
    }
    if !accounts.user_zbtc_account.mint.same(&accounts.zbtc_mint) {
        return Err(ErrorCode::InvalidTokenMint);
    }
    if !accounts.user_zbtc_account.owner.same(&accounts.user) {
        return Err(ErrorCode::InvalidTokenOwner);
    }
    if !accounts.user_sbtc_account.mint.same(&accounts.sbtc_mint) {
        return Err(ErrorCode::InvalidTokenMint);
    }
    if !accounts.user_sbtc_account.owner.same(&accounts.user) {
        return Err(ErrorCode::InvalidTokenOwner);
    }
    if !accounts.treasury_zbtc_vault.key.same(&config.treasury_zbtc_vault) {
        return Err(ErrorCode::InvalidTreasuryVault);
    }
    if !accounts.fee_vault.key.same(&config.fee_vault) {
        return Err(ErrorCode::InvalidFeeVault);
    }
    Ok(())
}

/// What `validate_mint` returns: the first of these that holds refuses the
/// mint: a zero amount, a paused deployment, a foreign asset, a token
/// account of another owner, a balance under the amount.
pub open spec fn validate_mint_spec(config: Config, accounts: MintSbtc, zbtc_amount: u64) -> Result<
    (),
    ErrorCode,
> {
    if zbtc_amount == 0 {
        Err(ErrorCode::InvalidAmount)
    } else if config.paused {
        Err(ErrorCode::Paused)
    } else if accounts.zbtc_mint != config.zbtc_mint {
        Err(ErrorCode::InvalidZbtcMint)
    } else if accounts.sbtc_mint != config.sbtc_mint {
        Err(ErrorCode::InvalidSbtcMint)
    } else if accounts.user_zbtc_account.owner != accounts.user {
        Err(ErrorCode::InvalidTokenAccountOwner)
    } else if accounts.user_sbtc_account.owner != accounts.user {
        Err(ErrorCode::InvalidTokenAccountOwner)
    } else if accounts.user_zbtc_account.amount < zbtc_amount {
        Err(ErrorCode::InsufficientBalance)
    } else {
        Ok(())
    }
}

/// Validates the amount of a mint against the deployment and the requester's accounts.
pub fn validate_mint(config: &Config, accounts: &MintSbtc, zbtc_amount: u64) -> (r: Result<
    (),
    ErrorCode,
>)
    ensures
        r == validate_mint_spec(*config, *accounts, zbtc_amount),
{
    if zbtc_amount == 0 {
        return Err(ErrorCode::InvalidAmount);
    }
    if config.paused {
        return Err(ErrorCode::Paused);
    }
    if !accounts.zbtc_mint.same(&config.zbtc_mint) {
        return Err(ErrorCode::InvalidZbtcMint);
    }
    if !accounts.sbtc_mint.same(&config.sbtc_mint) {
        return Err(ErrorCode::InvalidSbtcMint);
    }
    if !accounts.user_zbtc_account.owner.same(&accounts.user) {
        return Err(ErrorCode::InvalidTokenAccountOwner);
    }
    if !accounts.user_sbtc_account.owner.same(&accounts.user) {
        return Err(ErrorCode::InvalidTokenAccountOwner);
    }
    if accounts.user_zbtc_account.amount < zbtc_amount {
        return Err(ErrorCode::InsufficientBalance);
    }
    Ok(())
}

/// The amounts of one mint: the fee, the deposit net of it, and what the
/// net deposit converts to.
#[derive(Clone, Copy, Debug, PartialEq, Eq, Structural)]
pub struct MintQuote {
    pub fee: u64,
    pub net: u64,
    pub minted: u64,
}

/// What `quote_mint` returns: the fee is taken from the deposit, and what is
/// left is converted from collateral to the synthetic asset.
pub open spec fn quote_mint_spec(config: Config, prices: Prices, zbtc_amount: u64) -> Result<
    MintQuote,
    ErrorCode,
> {
    match compute_fee_spec(zbtc_amount, config.fee_rate_bps) {
        Err(e) => Err(e),
        Ok(split) => match convert_spec(
            split.net,
            config.zbtc_decimals,
            prices.zbtc_price_cents,
            config.sbtc_decimals,
            prices.sbtc_price_cents,
        ) {
            Err(e) => Err(e),
            Ok(minted) => Ok(MintQuote { fee: split.fee, net: split.net, minted }),
        },
    }
}

/// Computes the amounts of a mint of `zbtc_amount` at the given prices.
pub fn quote_mint(config: &Config, prices: &Prices, zbtc_amount: u64) -> (r: Result<
    MintQuote,
    ErrorCode,
>)
    ensures
        r == quote_mint_spec(*config, *prices, zbtc_amount),
        r matches Ok(quote) ==> quote.fee + quote.net == zbtc_amount,
{
    let split: FeeSplit = match compute_fee(zbtc_amount, config.fee_rate_bps) {
        Ok(split) => split,
        Err(e) => {
            return Err(e);
        },
    };
    let minted: u64 = match convert(
        split.net,
        config.zbtc_decimals,
        prices.zbtc_price_cents,
        config.sbtc_decimals,
        prices.sbtc_price_cents,
    ) {
        Ok(minted) => minted,
        Err(e) => {
            return Err(e);
        },
    };
    Ok(MintQuote { fee: split.fee, net: split.net, minted })
}

/// What a mint hands back: the instructions for the ledger, in the order in
/// which it is to apply them, and the record of the mint.
#[derive(Clone, Copy, Debug, PartialEq, Eq)]
pub struct MintReceipt {
    /// The net deposit, from the requester to the treasury.
    pub deposit: Transfer,
    /// The fee, from the requester to the fee account; none where the fee is zero.
    pub fee_transfer: Option<Transfer>,
    /// The synthetic tokens, minted to the requester.
    pub mint_to: MintTo,
    pub event: MintEvent,
}

/// The state that a mint leaves, with what it hands back.
pub struct MintOutcome {
    pub config: Config,
    pub accounts: MintSbtc,
    pub receipt: MintReceipt,
}

/// Whether the ledger cannot hold what a mint credits.
pub open spec fn mint_credit_overflows(accounts: MintSbtc, quote: MintQuote) -> bool {
    ||| accounts.treasury_zbtc_vault.amount + quote.net > u64::MAX
    ||| accounts.fee_vault.amount + quote.fee > u64::MAX
    ||| accounts.user_sbtc_account.amount + quote.minted > u64::MAX
}

/// The accounts of a mint once the ledger has applied it: the requester has
/// paid the deposit, the treasury holds the net deposit, the fee account the
/// fee, and the requester the minted tokens.
pub open spec fn accounts_after_mint(accounts: MintSbtc, quote: MintQuote) -> MintSbtc {
    MintSbtc {
        user_zbtc_account: TokenAccountSnapshot {
            amount: (accounts.user_zbtc_account.amount - quote.net - quote.fee) as u64,
            ..accounts.user_zbtc_account
        },
        user_sbtc_account: TokenAccountSnapshot {
            amount: (accounts.user_sbtc_account.amount + quote.minted) as u64,
            ..accounts.user_sbtc_account
        },
        treasury_zbtc_vault: TokenAccountSnapshot {
            amount: (accounts.treasury_zbtc_vault.amount + quote.net) as u64,
            ..accounts.treasury_zbtc_vault
        },
        fee_vault: TokenAccountSnapshot {
            amount: (accounts.fee_vault.amount + quote.fee) as u64,
            ..accounts.fee_vault
        },
        ..accounts
    }
}

/// The instructions and the record of a mint.
pub open spec fn mint_receipt(
    accounts: MintSbtc,
    quote: MintQuote,
    prices: Prices,
    zbtc_amount: u64,
    now: i64,
) -> MintReceipt {
    MintReceipt {
        deposit: Transfer {
            from: accounts.user_zbtc_account.key,
            to: accounts.treasury_zbtc_vault.key,
            authority: accounts.user,
            amount: quote.net,
        },
        fee_transfer: if quote.fee > 0 {
            Some(
                Transfer {
                    from: accounts.user_zbtc_account.key,
                    to: accounts.fee_vault.key,
                    authority: accounts.user,
                    amount: quote.fee,
                },
            )
        } else {
            None
        },
        mint_to: MintTo {
            mint: accounts.sbtc_mint,
            to: accounts.user_sbtc_account.key,
            authority: accounts.sbtc_mint_authority_pda,
            amount: quote.minted,
        },
        event: MintEvent {
            user: accounts.user,
            zbtc_deposited: zbtc_amount,
            sbtc_minted: quote.minted as u128,
            fee_amount: quote.fee,
            zbtc_price_cents: prices.zbtc_price_cents,
            sbtc_price_cents: prices.sbtc_price_cents,
            timestamp: now,
        },
    }
}

/// What a mint that has its prices and its amounts does: the ledger must be
/// able to hold the credits, the outstanding supply must be able to grow by
/// what is minted, and the treasury after the deposit must cover the
/// collateral required for the supply after the mint.
pub open spec fn settle_mint_spec(
    config: Config,
    accounts: MintSbtc,
    zbtc_amount: u64,
    now: i64,
    prices: Prices,
    quote: MintQuote,
) -> Result<MintOutcome, ErrorCode> {
    if mint_credit_overflows(accounts, quote) {
        Err(ErrorCode::InvalidAmount)
    } else if config.total_sbtc_outstanding + quote.minted > u128::MAX {
        Err(ErrorCode::InvalidAmount)
    } else {
        let total = (config.total_sbtc_outstanding + quote.minted) as u128;
        let staged = accounts_after_mint(accounts, quote);
        match check_collateral_spec(config, total, staged.treasury_zbtc_vault.amount, prices) {
            Err(e) => Err(e),
            Ok(_) => Ok(
                MintOutcome {
                    config: Config { total_sbtc_outstanding: total, ..config },
                    accounts: staged,
                    receipt: mint_receipt(accounts, quote, prices, zbtc_amount, now),
                },
            ),
        }
    }
}

/// What `mint_sbtc` does, stage by stage; the first refusal wins.
pub open spec fn mint_sbtc_spec(
    config: Config,
    accounts: MintSbtc,
    zbtc_amount: u64,
    now: i64,
    policy: OraclePolicy,
) -> Result<MintOutcome, ErrorCode> {
    match check_mint_accounts_spec(config, accounts) {
        Err(e) => Err(e),
        Ok(_) => match validate_mint_spec(config, accounts, zbtc_amount) {
            Err(e) => Err(e),
            Ok(_) => match load_prices_spec(
                accounts.pyth_price_account,
                accounts.oracle_state@,
                now,
                policy,
            ) {
                Err(e) => Err(e),
                Ok(prices) => match quote_mint_spec(config, prices, zbtc_amount) {
                    Err(e) => Err(e),
                    Ok(quote) => settle_mint_spec(config, accounts, zbtc_amount, now, prices, quote),
                },
            },
        },
    }
}

/// Deposits `zbtc_amount` of collateral and mints what it is worth in the
/// synthetic asset, net of the fee.
///
/// On success the deployment counts the minted tokens, the accounts show the
/// balances that the ledger will show once it has applied the receipt's
/// instructions, and the treasury covers the collateral required. On a
/// refusal nothing has changed.
pub fn mint_sbtc(
    config: &mut Config,
    accounts: &mut MintSbtc,
    zbtc_amount: u64,
    now: i64,
    policy: &OraclePolicy,
) -> (r: Result<MintReceipt, ErrorCode>)
    requires
        policy.wf(),
    ensures
        mint_sbtc_spec(*old(config), *old(accounts), zbtc_amount, now, *policy) matches Ok(outcome)
            ==> r == Ok::<MintReceipt, ErrorCode>(outcome.receipt) && *final(config)
            == outcome.config && *final(accounts) == outcome.accounts,
        mint_sbtc_spec(*old(config), *old(accounts), zbtc_amount, now, *policy) matches Err(e)
            ==> r == Err::<MintReceipt, ErrorCode>(e) && *final(config) == *old(config)
            && *final(accounts) == *old(accounts),
        r matches Ok(receipt) ==> final(config).total_sbtc_outstanding
            == old(config).total_sbtc_outstanding + receipt.mint_to.amount,
        r matches Ok(receipt) ==> final(accounts).treasury_zbtc_vault.amount
            == old(accounts).treasury_zbtc_vault.amount + receipt.deposit.amount,
        r is Ok ==> (load_prices_spec(
            old(accounts).pyth_price_account,
            old(accounts).oracle_state@,
            now,
            *policy,
        ) matches Ok(prices) && collateralized(
            *final(config),
            final(config).total_sbtc_outstanding,
            final(accounts).treasury_zbtc_vault.amount,
            prices,
        )),
{
    match check_mint_accounts(config, accounts) {
        Ok(_) => {},
        Err(e) => {
            return Err(e);
        },
    }
    match validate_mint(config, accounts, zbtc_amount) {
        Ok(_) => {},
        Err(e) => {
            return Err(e);
        },
    }
    let prices: Prices = match load_prices(
        &accounts.pyth_price_account,
        accounts.oracle_state.as_slice(),
        now,
        policy,
    ) {
        Ok(prices) => prices,
        Err(e) => {
            return Err(e);
        },
    };
    let quote: MintQuote = match quote_mint(config, &prices, zbtc_amount) {
        Ok(quote) => quote,
        Err(e) => {
            return Err(e);
        },
    };
    let treasury_after: u64 = match accounts.treasury_zbtc_vault.amount.checked_add(quote.net) {
        Some(balance) => balance,
        None => {
            return Err(ErrorCode::InvalidAmount);
        },
    };
    let fee_vault_after: u64 = match accounts.fee_vault.amount.checked_add(quote.fee) {
        Some(balance) => balance,
        None => {
            return Err(ErrorCode::InvalidAmount);
        },
    };
    let user_sbtc_after: u64 = match accounts.user_sbtc_account.amount.checked_add(quote.minted) {
        Some(balance) => balance,
        None => {
            return Err(ErrorCode::InvalidAmount);
        },
    };
    let total: u128 = match config.total_sbtc_outstanding.checked_add(quote.minted as u128) {
        Some(total) => total,
        None => {
            return Err(ErrorCode::InvalidAmount);
        },
    };
    match check_collateral(config, total, treasury_after, &prices) {
        Ok(_) => {},
        Err(e) => {
            return Err(e);
        },
    }
    let receipt: MintReceipt = MintReceipt {
        deposit: Transfer {
            from: accounts.user_zbtc_account.key,
            to: accounts.treasury_zbtc_vault.key,
            authority: accounts.user,
            amount: quote.net,
        },
        fee_transfer: if quote.fee > 0 {
            Some(
                Transfer {
                    from: accounts.user_zbtc_account.key,
                    to: accounts.fee_vault.key,
                    authority: accounts.user,
                    amount: quote.fee,
                },
            )
        } else {
            None
        },
        mint_to: MintTo {
            mint: accounts.sbtc_mint,
            to: accounts.user_sbtc_account.key,
            authority: accounts.sbtc_mint_authority_pda,
            amount: quote.minted,
        },
        event: MintEvent {
            user: accounts.user,
            zbtc_deposited: zbtc_amount,
            sbtc_minted: quote.minted as u128,
            fee_amount: quote.fee,
            zbtc_price_cents: prices.zbtc_price_cents,
            sbtc_price_cents: prices.sbtc_price_cents,
            timestamp: now,
        },
    };
    accounts.user_zbtc_account.amount = accounts.user_zbtc_account.amount - zbtc_amount;
    accounts.user_sbtc_account.amount = user_sbtc_after;
    accounts.treasury_zbtc_vault.amount = treasury_after;
    accounts.fee_vault.amount = fee_vault_after;
    config.total_sbtc_outstanding = total;
    Ok(receipt)
}

} // verus!
