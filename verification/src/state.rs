//! The state of a deployment and the accounts that an operation works on.

use vstd::prelude::*;
use crate::identity::Identity;
use crate::oracle::PriceSource;

verus! {

/// The largest fee rate a deployment may charge, in basis points (5%).
pub const CONFIG_MAX_FEE_RATE_BPS: u64 = 500;

/// The smallest collateral ratio a deployment may use, in basis points (200%).
pub const CONFIG_MIN_COLLATERAL_BPS: u64 = 20_000;

/// The state of one deployment. It is created once, and every mint and burn
/// updates its count of outstanding synthetic tokens.
#[derive(Clone, Copy, Debug, PartialEq, Eq)]
pub struct Config {
    /// The administrator, who may change parameters and pause.
    pub squad_multisig: Identity,
    /// The synthetic asset.
    pub sbtc_mint: Identity,
    /// The collateral asset.
    pub zbtc_mint: Identity,
    /// The account that holds the collateral backing the synthetic supply.
    pub treasury_zbtc_vault: Identity,
    /// The account that collects fees.
    pub fee_vault: Identity,
    pub fee_rate_bps: u64,
    pub min_collateral_bps: u64,
    pub bump: u8,
    pub sbtc_decimals: u8,
    pub zbtc_decimals: u8,
    /// While set, mints and burns are refused.
    pub paused: bool,
    /// Minor units of the synthetic asset minted and not yet burned.
    pub total_sbtc_outstanding: u128,
    pub created_at: i64,
    pub authorized_zbtc_pyth_feed: Identity,
    pub authorized_sbtc_oracle_state_pda: Identity,
}

impl Config {
    /// The parameters of a deployment are within their bounds.
    pub open spec fn wf(&self) -> bool {
        &&& self.fee_rate_bps <= CONFIG_MAX_FEE_RATE_BPS
        &&& self.min_collateral_bps >= CONFIG_MIN_COLLATERAL_BPS
    }
}

/// A token account as the ledger shows it.
#[derive(Clone, Copy, Debug, PartialEq, Eq)]
pub struct TokenAccountSnapshot {
    pub key: Identity,
    /// The asset that the account holds.
    pub mint: Identity,
    pub owner: Identity,
    /// The balance, in minor units.
    pub amount: u64,
}

/// A mint as the ledger shows it.
#[derive(Clone, Copy, Debug, PartialEq, Eq)]
pub struct MintSnapshot {
    pub key: Identity,
    pub mint_authority: Option<Identity>,
    pub freeze_authority: Option<Identity>,
    pub decimals: u8,
}

/// The accounts of the operation that sets a deployment up.
#[derive(Clone, Copy, Debug, PartialEq, Eq)]
pub struct Initialize {
    pub squad_multisig: Identity,
    pub sbtc_mint: MintSnapshot,
    pub zbtc_mint: MintSnapshot,
    /// The program authority that will mint the synthetic asset.
    pub sbtc_mint_authority_pda: Identity,
    /// The program authority over the treasury.
    pub treasury_authority_pda: Identity,
    /// The program authority over the fee account.
    pub fee_authority_pda: Identity,
    pub treasury_zbtc_vault: TokenAccountSnapshot,
    pub fee_vault: TokenAccountSnapshot,
    /// The disambiguator stored with the deployment's own account.
    pub config_bump: u8,
}

/// The accounts of one mint, with the price readings taken for it.
#[derive(Clone, Debug, PartialEq, Eq)]
pub struct MintSbtc {
    pub user: Identity,
    pub squad_multisig: Identity,
    pub zbtc_mint: Identity,
    pub sbtc_mint: Identity,
    pub user_zbtc_account: TokenAccountSnapshot,
    pub user_sbtc_account: TokenAccountSnapshot,
    pub treasury_zbtc_vault: TokenAccountSnapshot,
    pub fee_vault: TokenAccountSnapshot,
    pub sbtc_mint_authority_pda: Identity,
    pub treasury_authority_pda: Identity,
    pub fee_authority_pda: Identity,
    /// The reading of the collateral price feed.
    pub pyth_price_account: PriceSource,
    /// The bytes of the secondary oracle's state, which prices the synthetic asset.
    pub oracle_state: Vec<u8>,
}

/// The accounts of one burn, with the price readings taken for it.
#[derive(Clone, Debug, PartialEq, Eq)]
pub struct BurnSbtc {
    pub user: Identity,
    pub squad_multisig: Identity,
    pub zbtc_mint: Identity,
    pub sbtc_mint: Identity,
    pub user_zbtc_account: TokenAccountSnapshot,
    pub user_sbtc_account: TokenAccountSnapshot,
    pub treasury_zbtc_vault: TokenAccountSnapshot,
    pub fee_vault: TokenAccountSnapshot,
    pub treasury_authority_pda: Identity,
    pub fee_authority_pda: Identity,
    /// The reading of the collateral price feed.
    pub pyth_price_account: PriceSource,
    /// The bytes of the secondary oracle's state, which prices the synthetic asset.
    pub oracle_state: Vec<u8>,
}

} // verus!
