//! The reasons for which an operation is refused.

use vstd::prelude::*;

verus! {

/// Why an operation was refused. Every refusal is final for the operation
/// that met it: nothing is retried, and no state is changed.
#[derive(Clone, Copy, Debug, PartialEq, Eq, Structural)]
pub enum ErrorCode {
    /// The fee rate is above the largest rate a deployment may charge.
    InvalidFeeRate,
    /// The collateral ratio is below the smallest ratio a deployment may use.
    InvalidCollateralRatio,
    /// The synthetic mint is not under the administrator's mint authority.
    InvalidMintAuthority,
    /// The synthetic mint is not under the administrator's freeze authority.
    InvalidFreezeAuthority,
    /// The amount is zero, too small to convert, or out of range.
    InvalidAmount,
    /// The collateral asset is not the one the deployment was set up with.
    InvalidZbtcMint,
    /// The synthetic asset is not the one the deployment was set up with.
    InvalidSbtcMint,
    /// A token account does not belong to the requester.
    InvalidTokenAccountOwner,
    /// A token account holds another asset than the one expected.
    InvalidTokenMint,
    /// The requester holds less than the amount asked for.
    InsufficientBalance,
    /// The deployment is paused.
    Paused,
    /// The treasury holds less than the amount to redeem.
    InsufficientLiquidity,
    /// The treasury would hold less than the collateral required.
    InsufficientCollateral,
    /// The administrator is not the one of the deployment.
    InvalidSquadMultisig,
    /// The treasury account is not the one of the deployment.
    InvalidTreasuryVault,
    /// The fee account is not the one of the deployment.
    InvalidFeeVault,
    /// A token account names another owner than the requester.
    InvalidTokenOwner,
    /// The price feed could not be read.
    PythError,
    /// The state of the secondary oracle is too short to hold a price.
    InvalidOracleData,
    /// A price is older than the deployment accepts.
    StaleOraclePrice,
    /// A price is negative.
    InvalidPrice,
    /// The confidence interval of a price is too wide.
    HighConfidence,
    /// A product or a power of ten does not fit the wide integer.
    ArithmeticOverflow,
    /// More synthetic tokens would be burned than are outstanding.
    AccountingUnderflow,
}

} // verus!
