//! A price account that its authority fills by hand, for deployments under test.

use vstd::prelude::*;
use crate::identity::Identity;
use crate::oracle::PriceQuote;

verus! {

/// The fields of a hand-filled price account.
#[derive(Clone, Copy, Debug, PartialEq, Eq, Structural)]
pub struct PriceAccount {
    pub price: i64,
    pub conf: u64,
    pub expo: i32,
    pub publish_time: i64,
    pub ema_price: i64,
    pub ema_conf: u64,
    pub ema_expo: i32,
    pub ema_publish_time: i64,
    pub slot: u64,
    pub proof_available_time: u64,
    pub prev_publish_time: i64,
}

impl Default for PriceAccount {
    /// An account in which nothing has been set: every field is zero.
    fn default() -> (account: PriceAccount)
        ensures
            account == (PriceAccount {
                price: 0,
                conf: 0,
                expo: 0,
                publish_time: 0,
                ema_price: 0,
                ema_conf: 0,
                ema_expo: 0,
                ema_publish_time: 0,
                slot: 0,
                proof_available_time: 0,
                prev_publish_time: 0,
            }),
    {
        PriceAccount {
            price: 0,
            conf: 0,
            expo: 0,
            publish_time: 0,
            ema_price: 0,
            ema_conf: 0,
            ema_expo: 0,
            ema_publish_time: 0,
            slot: 0,
            proof_available_time: 0,
            prev_publish_time: 0,
        }
    }
}

impl PriceAccount {
    /// The account's current price as a quote of the feed `feed`.
    pub fn quote(&self, feed: Identity) -> (quote: PriceQuote)
        ensures
            quote == (PriceQuote {
                asset_id: feed,
                mantissa: self.price,
                exponent: self.expo,
                confidence: self.conf,
                observed_at: self.publish_time,
            }),
    {
        PriceQuote {
            asset_id: feed,
            mantissa: self.price,
            exponent: self.expo,
            confidence: self.conf,
            observed_at: self.publish_time,
        }
    }
}

/// The accounts of the operation that fills a price account.
#[derive(Clone, Copy, Debug, PartialEq, Eq)]
pub struct SetFeed {
    pub price_account: PriceAccount,
    pub authority: Identity,
}

/// Fills the price account. The averaged price takes the exponent and the
/// publish time of the current price.
pub fn set_feed(
    accounts: &mut SetFeed,
    price: i64,
    conf: u64,
    expo: i32,
    publish_time: i64,
    ema_price: i64,
    ema_conf: u64,
    slot: u64,
    proof_available_time: u64,
    prev_publish_time: i64,
)
    ensures
        final(accounts).authority == old(accounts).authority,
        final(accounts).price_account == (PriceAccount {
            price,
            conf,
            expo,
            publish_time,
            ema_price,
            ema_conf,
            ema_expo: expo,
            ema_publish_time: publish_time,
            slot,
            proof_available_time,
            prev_publish_time,
        }),
{
    accounts.price_account.price = price;
    accounts.price_account.conf = conf;
    accounts.price_account.expo = expo;
    accounts.price_account.publish_time = publish_time;
    accounts.price_account.ema_price = ema_price;
    accounts.price_account.ema_conf = ema_conf;
    accounts.price_account.ema_expo = expo;
    accounts.price_account.ema_publish_time = publish_time;
    accounts.price_account.slot = slot;
    accounts.price_account.proof_available_time = proof_available_time;
    accounts.price_account.prev_publish_time = prev_publish_time;
}

} // verus!
