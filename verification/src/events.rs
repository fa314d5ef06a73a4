//! The records that an operation leaves for readers outside the ledger.

use vstd::prelude::*;
use crate::identity::Identity;

verus! {

/// A deployment was set up.
#[derive(Clone, Copy, Debug, PartialEq, Eq)]
pub struct InitializedEvent {
    pub squad_multisig: Identity,
    pub sbtc_mint: Identity,
    pub zbtc_mint: Identity,
    pub treasury_vault: Identity,
    pub fee_vault: Identity,
    pub fee_rate_bps: u64,
    pub min_collateral_bps: u64,
    pub timestamp: i64,
    pub sbtc_mint_authority: Identity,
    pub treasury_vault_authority: Identity,
    pub fee_vault_authority: Identity,
    pub authorized_zbtc_pyth_feed: Identity,
    pub authorized_sbtc_oracle_state_pda: Identity,
}

/// Collateral was deposited and synthetic tokens were minted.
#[derive(Clone, Copy, Debug, PartialEq, Eq)]
pub struct MintEvent {
    pub user: Identity,
    pub zbtc_deposited: u64,
    pub sbtc_minted: u128,
    pub fee_amount: u64,
    pub zbtc_price_cents: u64,
    pub sbtc_price_cents: u64,
    pub timestamp: i64,
}

/// Synthetic tokens were burned and collateral was redeemed.
#[derive(Clone, Copy, Debug, PartialEq, Eq)]
pub struct BurnEvent {
    pub user: Identity,
    pub sbtc_burned: u64,
    pub zbtc_redeemed: u64,
    pub fee_amount: u64,
    pub zbtc_price_cents: u64,
    pub sbtc_price_cents: u64,
    pub timestamp: i64,
}

} // verus!
