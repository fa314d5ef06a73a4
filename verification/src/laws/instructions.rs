//! Laws of the receipts: their instructions give the balances that the
//! operation shows.

use vstd::prelude::*;
use crate::coordinator::{burn_sbtc_spec, mint_sbtc_spec, BurnReceipt, MintReceipt};
use crate::identity::Identity;
use crate::ledger::balance_after_optional;
use crate::oracle::OraclePolicy;
use crate::state::{BurnSbtc, Config, MintSbtc};

verus! {

/// The balance that the instructions of a mint leave in the token account
/// `key`, applied in their order.
pub open spec fn balance_after_mint_receipt(receipt: MintReceipt, key: Identity, balance: int) -> int {
    receipt.mint_to.balance_after(
        key,
        balance_after_optional(
            receipt.fee_transfer,
            key,
            receipt.deposit.balance_after(key, balance),
        ),
    )
}

/// The balance that the instructions of a burn leave in the token account
/// `key`, applied in their order.
pub open spec fn balance_after_burn_receipt(receipt: BurnReceipt, key: Identity, balance: int) -> int {
    balance_after_optional(
        receipt.fee_transfer,
        key,
        receipt.redemption.balance_after(key, receipt.burn.balance_after(key, balance)),
    )
}

/// Where the four token accounts of a mint are four different accounts, the
/// balances that an accepted mint shows are the balances that its
/// instructions leave.
pub proof fn lemma_mint_instructions_give_the_balances(
    config: Config,
    accounts: MintSbtc,
    zbtc_amount: u64,
    now: i64,
    policy: OraclePolicy,
)
    requires
        mint_sbtc_spec(config, accounts, zbtc_amount, now, policy) is Ok,
        accounts.user_zbtc_account.key != accounts.user_sbtc_account.key,
        accounts.user_zbtc_account.key != accounts.treasury_zbtc_vault.key,
        accounts.user_zbtc_account.key != accounts.fee_vault.key,
        accounts.user_sbtc_account.key != accounts.treasury_zbtc_vault.key,
        accounts.user_sbtc_account.key != accounts.fee_vault.key,
        accounts.treasury_zbtc_vault.key != accounts.fee_vault.key,
    ensures
        ({
            let outcome = mint_sbtc_spec(config, accounts, zbtc_amount, now, policy)->Ok_0;
            &&& outcome.accounts.user_zbtc_account.amount == balance_after_mint_receipt(
                outcome.receipt,
                accounts.user_zbtc_account.key,
                accounts.user_zbtc_account.amount as int,
            )
            &&& outcome.accounts.user_sbtc_account.amount == balance_after_mint_receipt(
                outcome.receipt,
                accounts.user_sbtc_account.key,
                accounts.user_sbtc_account.amount as int,
            )
            &&& outcome.accounts.treasury_zbtc_vault.amount == balance_after_mint_receipt(
                outcome.receipt,
                accounts.treasury_zbtc_vault.key,
                accounts.treasury_zbtc_vault.amount as int,
            )
            &&& outcome.accounts.fee_vault.amount == balance_after_mint_receipt(
                outcome.receipt,
                accounts.fee_vault.key,
                accounts.fee_vault.amount as int,
            )
        }),
{
}

/// Where the four token accounts of a burn are four different accounts, the
/// balances that an accepted burn shows are the balances that its
/// instructions leave.
pub proof fn lemma_burn_instructions_give_the_balances(
    config: Config,
    accounts: BurnSbtc,
    sbtc_amount: u64,
    now: i64,
    policy: OraclePolicy,
)
    requires
        burn_sbtc_spec(config, accounts, sbtc_amount, now, policy) is Ok,
        accounts.user_zbtc_account.key != accounts.user_sbtc_account.key,
        accounts.user_zbtc_account.key != accounts.treasury_zbtc_vault.key,
        accounts.user_zbtc_account.key != accounts.fee_vault.key,
        accounts.user_sbtc_account.key != accounts.treasury_zbtc_vault.key,
        accounts.user_sbtc_account.key != accounts.fee_vault.key,
        accounts.treasury_zbtc_vault.key != accounts.fee_vault.key,
    ensures
        ({
            let outcome = burn_sbtc_spec(config, accounts, sbtc_amount, now, policy)->Ok_0;
            &&& outcome.accounts.user_zbtc_account.amount == balance_after_burn_receipt(
                outcome.receipt,
                accounts.user_zbtc_account.key,
                accounts.user_zbtc_account.amount as int,
            )
            &&& outcome.accounts.user_sbtc_account.amount == balance_after_burn_receipt(
                outcome.receipt,
                accounts.user_sbtc_account.key,
                accounts.user_sbtc_account.amount as int,
            )
            &&& outcome.accounts.treasury_zbtc_vault.amount == balance_after_burn_receipt(
                outcome.receipt,
                accounts.treasury_zbtc_vault.key,
                accounts.treasury_zbtc_vault.amount as int,
            )
            &&& outcome.accounts.fee_vault.amount == balance_after_burn_receipt(
                outcome.receipt,
                accounts.fee_vault.key,
                accounts.fee_vault.amount as int,
            )
        }),
{
}

} // verus!
