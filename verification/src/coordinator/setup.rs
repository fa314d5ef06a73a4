//! Setting a deployment up.

use vstd::prelude::*;
use crate::error::ErrorCode;
use crate::events::InitializedEvent;
use crate::identity::{is_some_and_same, Identity};
use crate::ledger::{AuthorityType, SetAuthority};
use crate::state::{
    Config,
    Initialize,
    CONFIG_MAX_FEE_RATE_BPS,
    CONFIG_MIN_COLLATERAL_BPS,
};

verus! {

/// What setting a deployment up hands back: its state, the instruction that
/// hands the synthetic mint over to the program authority, and the record.
#[derive(Clone, Copy, Debug, PartialEq, Eq)]
pub struct InitializeReceipt {
    pub config: Config,
    pub set_authority: SetAuthority,
    pub event: InitializedEvent,
}

/// What `validate_initialize` returns: the first of these that holds refuses
/// the setup: a fee rate over the cap, a collateral ratio under the floor, a
/// synthetic mint whose mint or freeze authority is not the administrator, a
/// treasury or a fee account that does not hold the collateral asset.
pub open spec fn validate_initialize_spec(
    accounts: Initialize,
    fee_rate_bps: u64,
    min_collateral_bps: u64,
) -> Result<(), ErrorCode> {
    if fee_rate_bps > CONFIG_MAX_FEE_RATE_BPS {
        Err(ErrorCode::InvalidFeeRate)
    } else if min_collateral_bps < CONFIG_MIN_COLLATERAL_BPS {
        Err(ErrorCode::InvalidCollateralRatio)
    } else if accounts.sbtc_mint.mint_authority != Some(accounts.squad_multisig) {
        Err(ErrorCode::InvalidMintAuthority)
    } else if accounts.sbtc_mint.freeze_authority != Some(accounts.squad_multisig) {
        Err(ErrorCode::InvalidFreezeAuthority)
    } else if accounts.treasury_zbtc_vault.mint != accounts.zbtc_mint.key {
        Err(ErrorCode::InvalidZbtcMint)
    } else if accounts.fee_vault.mint != accounts.zbtc_mint.key {
        Err(ErrorCode::InvalidZbtcMint)
    } else {
        Ok(())
    }
}

/// Validates the parameters and the accounts of a setup.
pub fn validate_initialize(accounts: &Initialize, fee_rate_bps: u64, min_collateral_bps: u64) -> (r:
    Result<(), ErrorCode>)
    ensures
        r == validate_initialize_spec(*accounts, fee_rate_bps, min_collateral_bps),
{
    if fee_rate_bps > CONFIG_MAX_FEE_RATE_BPS {
        return Err(ErrorCode::InvalidFeeRate);
    }
    if min_collateral_bps < CONFIG_MIN_COLLATERAL_BPS {
        return Err(ErrorCode::InvalidCollateralRatio);
    }
    if !is_some_and_same(&accounts.sbtc_mint.mint_authority, &accounts.squad_multisig) {
        return Err(ErrorCode::InvalidMintAuthority);
    }
    if !is_some_and_same(&accounts.sbtc_mint.freeze_authority, &accounts.squad_multisig) {
        return Err(ErrorCode::InvalidFreezeAuthority);
    }
    if !accounts.treasury_zbtc_vault.mint.same(&accounts.zbtc_mint.key) {
        return Err(ErrorCode::InvalidZbtcMint);
    }
    if !accounts.fee_vault.mint.same(&accounts.zbtc_mint.key) {
        return Err(ErrorCode::InvalidZbtcMint);
    }
    Ok(())
}

/// The state of a deployment that was just set up: not paused, with nothing outstanding.
pub open spec fn initial_config(
    accounts: Initialize,
    fee_rate_bps: u64,
    min_collateral_bps: u64,
    authorized_zbtc_pyth_feed: Identity,
    authorized_sbtc_oracle_state_pda: Identity,
    now: i64,
) -> Config {
    Config {
        squad_multisig: accounts.squad_multisig,
        sbtc_mint: accounts.sbtc_mint.key,
        zbtc_mint: accounts.zbtc_mint.key,
        treasury_zbtc_vault: accounts.treasury_zbtc_vault.key,
        fee_vault: accounts.fee_vault.key,
        fee_rate_bps,
        min_collateral_bps,
        bump: accounts.config_bump,
        sbtc_decimals: accounts.sbtc_mint.decimals,
        zbtc_decimals: accounts.zbtc_mint.decimals,
        paused: false,
        total_sbtc_outstanding: 0,
        created_at: now,
        authorized_zbtc_pyth_feed,
        authorized_sbtc_oracle_state_pda,
    }
}

/// The record of a setup.
pub open spec fn initialized_event(
    accounts: Initialize,
    fee_rate_bps: u64,
    min_collateral_bps: u64,
    authorized_zbtc_pyth_feed: Identity,
    authorized_sbtc_oracle_state_pda: Identity,
    now: i64,
) -> InitializedEvent {
    InitializedEvent {
        squad_multisig: accounts.squad_multisig,
        sbtc_mint: accounts.sbtc_mint.key,
        zbtc_mint: accounts.zbtc_mint.key,
        treasury_vault: accounts.treasury_zbtc_vault.key,
        fee_vault: accounts.fee_vault.key,
        fee_rate_bps,
        min_collateral_bps,
        timestamp: now,
        sbtc_mint_authority: accounts.sbtc_mint_authority_pda,
        treasury_vault_authority: accounts.treasury_authority_pda,
        fee_vault_authority: accounts.fee_authority_pda,
        authorized_zbtc_pyth_feed,
        authorized_sbtc_oracle_state_pda,
    }
}

/// What `initialize` returns.
pub open spec fn initialize_spec(
    accounts: Initialize,
    fee_rate_bps: u64,
    min_collateral_bps: u64,
    authorized_zbtc_pyth_feed: Identity,
    authorized_sbtc_oracle_state_pda: Identity,
    now: i64,
) -> Result<InitializeReceipt, ErrorCode> {
    match validate_initialize_spec(accounts, fee_rate_bps, min_collateral_bps) {
        Err(e) => Err(e),
        Ok(_) => Ok(
            InitializeReceipt {
                config: initial_config(
                    accounts,
                    fee_rate_bps,
                    min_collateral_bps,
                    authorized_zbtc_pyth_feed,
                    authorized_sbtc_oracle_state_pda,
                    now,
                ),
                set_authority: SetAuthority {
                    current_authority: accounts.squad_multisig,
                    account_or_mint: accounts.sbtc_mint.key,
                    authority_type: AuthorityType::MintTokens,
                    new_authority: Some(accounts.sbtc_mint_authority_pda),
                },
                event: initialized_event(
                    accounts,
                    fee_rate_bps,
                    min_collateral_bps,
                    authorized_zbtc_pyth_feed,
                    authorized_sbtc_oracle_state_pda,
                    now,
                ),
            },
        ),
    }
}

/// Sets a deployment up: validates its parameters and accounts, and gives
/// its first state together with the instruction that hands the authority
/// to mint the synthetic asset from the administrator to the program.
pub fn initialize(
    accounts: &Initialize,
    fee_rate_bps: u64,
    min_collateral_bps: u64,
    authorized_zbtc_pyth_feed: Identity,
    authorized_sbtc_oracle_state_pda: Identity,
    now: i64,
) -> (r: Result<InitializeReceipt, ErrorCode>)
    ensures
        r == initialize_spec(
            *accounts,
            fee_rate_bps,
            min_collateral_bps,
            authorized_zbtc_pyth_feed,
            authorized_sbtc_oracle_state_pda,
            now,
        ),
        r matches Ok(receipt) ==> receipt.config.wf(),
{
    match validate_initialize(accounts, fee_rate_bps, min_collateral_bps) {
        Ok(_) => {},
        Err(e) => {
            return Err(e);
        },
    }
    let config: Config = Config {
        squad_multisig: accounts.squad_multisig,
        sbtc_mint: accounts.sbtc_mint.key,
        zbtc_mint: accounts.zbtc_mint.key,
        treasury_zbtc_vault: accounts.treasury_zbtc_vault.key,
        fee_vault: accounts.fee_vault.key,
        fee_rate_bps,
        min_collateral_bps,
        bump: accounts.config_bump,
        sbtc_decimals: accounts.sbtc_mint.decimals,
        zbtc_decimals: accounts.zbtc_mint.decimals,
        paused: false,
        total_sbtc_outstanding: 0,
        created_at: now,
        authorized_zbtc_pyth_feed,
        authorized_sbtc_oracle_state_pda,
    };
    let set_authority: SetAuthority = SetAuthority {
        current_authority: accounts.squad_multisig,
        account_or_mint: accounts.sbtc_mint.key,
        authority_type: AuthorityType::MintTokens,
        new_authority: Some(accounts.sbtc_mint_authority_pda),
    };
    let event: InitializedEvent = InitializedEvent {
        squad_multisig: accounts.squad_multisig,
        sbtc_mint: accounts.sbtc_mint.key,
        zbtc_mint: accounts.zbtc_mint.key,
        treasury_vault: accounts.treasury_zbtc_vault.key,
        fee_vault: accounts.fee_vault.key,
        fee_rate_bps,
        min_collateral_bps,
        timestamp: now,
        sbtc_mint_authority: accounts.sbtc_mint_authority_pda,
        treasury_vault_authority: accounts.treasury_authority_pda,
        fee_vault_authority: accounts.fee_authority_pda,
        authorized_zbtc_pyth_feed,
        authorized_sbtc_oracle_state_pda,
    };
    Ok(InitializeReceipt { config, set_authority, event })
}

} // verus!
