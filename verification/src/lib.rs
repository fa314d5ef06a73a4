//! Conversion engine between a collateral token and a synthetic token.
//!
//! Users deposit collateral to mint synthetic tokens and burn synthetic tokens
//! to redeem collateral, at a rate derived from two price readings, net of a
//! fee, and only while the treasury stays over-collateralized.

pub mod collateral;
pub mod conversion;
pub mod coordinator;
pub mod error;
pub mod events;
pub mod fixed_point;
pub mod identity;
pub mod laws;
pub mod ledger;
pub mod mock_feed;
pub mod oracle;
pub mod state;

pub use coordinator::{burn_sbtc, initialize, mint_sbtc};
pub use error::ErrorCode;
pub use events::{BurnEvent, InitializedEvent, MintEvent};
pub use mock_feed::{set_feed, PriceAccount, SetFeed};
pub use state::{BurnSbtc, Config, Initialize, MintSbtc};
