//! Price readings and the rules that turn them into prices in cents.
//!
//! A price is an unsigned number of minor fiat units (cents) per whole token.

use vstd::prelude::*;
use crate::error::ErrorCode;
use crate::fixed_point::{scale_by_pow10, scale_by_pow10_spec};
use crate::identity::Identity;

verus! {

/// The age, in seconds, beyond which a reading is stale under the standard policy.
pub const ORACLE_MAX_AGE: u64 = 300;

/// The standard bound on confidence: it must stay under `price / 1000`.
pub const ORACLE_CONFIDENCE_DIVISOR: u64 = 1000;

/// The exponent that turns whole fiat units into cents.
pub const CENTS_EXPONENT: i64 = 2;

/// The length of the tag that precedes the fields of the secondary oracle's state.
pub const ORACLE_STATE_TAG_LEN: usize = 8;

/// The least number of bytes the secondary oracle's state must hold: its tag,
/// its value and its time of last update.
pub const ORACLE_STATE_MIN_LEN: usize = 24;

/// One reading of a price feed: `mantissa * 10^exponent` fiat units per token.
#[derive(Clone, Copy, Debug, PartialEq, Eq)]
pub struct PriceQuote {
    pub asset_id: Identity,
    pub mantissa: i64,
    pub exponent: i32,
    pub confidence: u64,
    pub observed_at: i64,
}

/// What a deployment accepts of its price readings.
#[derive(Clone, Copy, Debug, PartialEq, Eq)]
pub struct OraclePolicy {
    /// Whether the age of a reading is looked at.
    pub enforce_staleness: bool,
    /// The largest accepted age of a feed quote, in seconds.
    pub feed_max_age: u64,
    /// The largest accepted age of the secondary oracle's state, in seconds.
    pub state_max_age: u64,
    /// A quote is accepted only while its confidence is under its mantissa
    /// divided by this number.
    pub confidence_divisor: u64,
}

impl OraclePolicy {
    /// A policy is usable when it can bound confidence at all.
    pub open spec fn wf(&self) -> bool {
        self.confidence_divisor > 0
    }
}

impl Default for OraclePolicy {
    /// The standard policy: readings of up to 300 seconds, confidence under a
    /// thousandth of the price, staleness always enforced.
    fn default() -> (policy: OraclePolicy)
        ensures
            policy == (OraclePolicy {
                enforce_staleness: true,
                feed_max_age: ORACLE_MAX_AGE,
                state_max_age: ORACLE_MAX_AGE,
                confidence_divisor: ORACLE_CONFIDENCE_DIVISOR,
            }),
            policy.wf(),
    {
        OraclePolicy {
            enforce_staleness: true,
            feed_max_age: ORACLE_MAX_AGE,
            state_max_age: ORACLE_MAX_AGE,
            confidence_divisor: ORACLE_CONFIDENCE_DIVISOR,
        }
    }
}

/// Whether a reading made at `observed_at` is older than `max_age` at `now`.
pub open spec fn older_than(now: i64, observed_at: i64, max_age: u64) -> bool {
    now - observed_at > max_age
}

/// Tells whether a reading made at `observed_at` is older than `max_age` at `now`.
pub fn is_older_than(now: i64, observed_at: i64, max_age: u64) -> (r: bool)
    ensures
        r == older_than(now, observed_at, max_age),
{
    let age: i128 = now as i128 - observed_at as i128;
    age > max_age as i128
}

/// The size of a mantissa, whatever its sign.
pub open spec fn mantissa_abs(mantissa: i64) -> nat {
    if mantissa >= 0 {
        mantissa as nat
    } else {
        (-(mantissa as int)) as nat
    }
}

/// Whether the confidence interval of a quote is too wide for the divisor.
pub open spec fn unreliable(quote: PriceQuote, confidence_divisor: u64) -> bool {
    quote.confidence as nat >= mantissa_abs(quote.mantissa) / (confidence_divisor as nat)
}

/// What `normalize_price` returns. A stale quote is refused first, then one
/// whose confidence is too wide, then a negative one; what is left is scaled
/// to cents, and refused as a price where the scaling overflows.
pub open spec fn normalize_price_spec(quote: PriceQuote, now: i64, policy: OraclePolicy) -> Result<
    u64,
    ErrorCode,
> {
    if policy.enforce_staleness && older_than(now, quote.observed_at, policy.feed_max_age) {
        Err(ErrorCode::StaleOraclePrice)
    } else if unreliable(quote, policy.confidence_divisor) {
        Err(ErrorCode::HighConfidence)
    } else if quote.mantissa < 0 {
        Err(ErrorCode::InvalidPrice)
    } else {
        match scale_by_pow10_spec(quote.mantissa as u64, (quote.exponent + CENTS_EXPONENT) as i64) {
            Ok(cents) => Ok(cents),
            Err(_) => Err(ErrorCode::InvalidPrice),
        }
    }
}

/// Turns a feed quote into a price in cents per whole token.
pub fn normalize_price(quote: &PriceQuote, now: i64, policy: &OraclePolicy) -> (r: Result<
    u64,
    ErrorCode,
>)
    requires
        policy.wf(),
    ensures
        r == normalize_price_spec(*quote, now, *policy),
{
    if policy.enforce_staleness && is_older_than(now, quote.observed_at, policy.feed_max_age) {
        return Err(ErrorCode::StaleOraclePrice);
    }
    let size: u64 = if quote.mantissa >= 0 {
        quote.mantissa as u64
    } else if quote.mantissa == i64::MIN {
        0x8000_0000_0000_0000
    } else {
        (-quote.mantissa) as u64
    };
    if quote.confidence >= size / policy.confidence_divisor {
        return Err(ErrorCode::HighConfidence);
    }
    if quote.mantissa < 0 {
        return Err(ErrorCode::InvalidPrice);
    }
    match scale_by_pow10(quote.mantissa as u64, quote.exponent as i64 + CENTS_EXPONENT) {
        Ok(cents) => Ok(cents),
        Err(_) => Err(ErrorCode::InvalidPrice),
    }
}

/// The state of the secondary oracle: a running value in cents and the time
/// at which it was last written.
#[derive(Clone, Copy, Debug, PartialEq, Eq, Structural)]
pub struct OracleState {
    pub trend_value: u64,
    pub last_update: i64,
}

/// The unsigned number that eight bytes hold, least significant byte first.
pub open spec fn le_u64(bytes: Seq<u8>) -> int
    recommends
        bytes.len() == 8,
{
    bytes[0] + bytes[1] * 0x100 + bytes[2] * 0x1_0000 + bytes[3] * 0x100_0000 + bytes[4]
        * 0x1_0000_0000 + bytes[5] * 0x100_0000_0000 + bytes[6] * 0x1_0000_0000_0000 + bytes[7]
        * 0x100_0000_0000_0000
}

/// The signed number that eight bytes hold in two's complement, least
/// significant byte first.
pub open spec fn le_i64(bytes: Seq<u8>) -> int
    recommends
        bytes.len() == 8,
{
    if le_u64(bytes) < 0x8000_0000_0000_0000 {
        le_u64(bytes)
    } else {
        le_u64(bytes) - 0x1_0000_0000_0000_0000
    }
}

/// Reads the unsigned number held by the eight bytes of `data` from `start` on.
pub fn read_le_u64(data: &[u8], start: usize) -> (value: u64)
    requires
        start + 8 <= data@.len(),
    ensures
        value == le_u64(data@.subrange(start as int, start + 8)),
{
    let b0: u64 = data[start] as u64;
    let b1: u64 = data[start + 1] as u64;
    let b2: u64 = data[start + 2] as u64;
    let b3: u64 = data[start + 3] as u64;
    let b4: u64 = data[start + 4] as u64;
    let b5: u64 = data[start + 5] as u64;
    let b6: u64 = data[start + 6] as u64;
    let b7: u64 = data[start + 7] as u64;
    b0 + b1 * 0x100 + b2 * 0x1_0000 + b3 * 0x100_0000 + b4 * 0x1_0000_0000 + b5
        * 0x100_0000_0000 + b6 * 0x1_0000_0000_0000 + b7 * 0x100_0000_0000_0000
}

/// Reads the signed number held by the eight bytes of `data` from `start` on.
pub fn read_le_i64(data: &[u8], start: usize) -> (value: i64)
    requires
        start + 8 <= data@.len(),
    ensures
        value == le_i64(data@.subrange(start as int, start + 8)),
{
    let raw: u64 = read_le_u64(data, start);
    if raw < 0x8000_0000_0000_0000 {
        raw as i64
    } else {
        let below: u64 = u64::MAX - raw;
        -(below as i64) - 1
    }
}

/// What `parse_oracle_state` returns: the two fields that follow the tag,
/// where the data is long enough to hold them.
pub open spec fn parse_oracle_state_spec(data: Seq<u8>) -> Result<OracleState, ErrorCode> {
    if data.len() < ORACLE_STATE_MIN_LEN {
        Err(ErrorCode::InvalidOracleData)
    } else {
        Ok(
            OracleState {
                trend_value: le_u64(data.subrange(8, 16)) as u64,
                last_update: le_i64(data.subrange(16, 24)) as i64,
            },
        )
    }
}

/// Reads the state of the secondary oracle from the bytes of its account.
pub fn parse_oracle_state(data: &[u8]) -> (r: Result<OracleState, ErrorCode>)
    ensures
        r == parse_oracle_state_spec(data@),
{
    if data.len() < ORACLE_STATE_MIN_LEN {
        return Err(ErrorCode::InvalidOracleData);
    }
    let trend_value: u64 = read_le_u64(data, ORACLE_STATE_TAG_LEN);
    let last_update: i64 = read_le_i64(data, ORACLE_STATE_TAG_LEN + 8);
    Ok(OracleState { trend_value, last_update })
}

/// What `state_price` returns: the running value, unless it is stale.
pub open spec fn state_price_spec(state: OracleState, now: i64, policy: OraclePolicy) -> Result<
    u64,
    ErrorCode,
> {
    if policy.enforce_staleness && older_than(now, state.last_update, policy.state_max_age) {
        Err(ErrorCode::StaleOraclePrice)
    } else {
        Ok(state.trend_value)
    }
}

/// The price in cents that the secondary oracle's state gives at `now`.
pub fn state_price(state: &OracleState, now: i64, policy: &OraclePolicy) -> (r: Result<
    u64,
    ErrorCode,
>)
    ensures
        r == state_price_spec(*state, now, *policy),
{
    if policy.enforce_staleness && is_older_than(now, state.last_update, policy.state_max_age) {
        Err(ErrorCode::StaleOraclePrice)
    } else {
        Ok(state.trend_value)
    }
}

/// Where the collateral price of one operation comes from.
#[derive(Clone, Copy, Debug, PartialEq, Eq)]
pub enum PriceSource {
    /// A quote read from the live feed.
    Live(PriceQuote),
    /// A fixed price in cents, for deployments under test.
    Mock(u64),
    /// The feed could not be read as a price feed.
    Unreadable,
}

/// What `source_price` returns.
pub open spec fn source_price_spec(source: PriceSource, now: i64, policy: OraclePolicy) -> Result<
    u64,
    ErrorCode,
> {
    match source {
        PriceSource::Live(quote) => normalize_price_spec(quote, now, policy),
        PriceSource::Mock(cents) => Ok(cents),
        PriceSource::Unreadable => Err(ErrorCode::PythError),
    }
}

/// The price in cents that a source gives at `now`.
pub fn source_price(source: &PriceSource, now: i64, policy: &OraclePolicy) -> (r: Result<
    u64,
    ErrorCode,
>)
    requires
        policy.wf(),
    ensures
        r == source_price_spec(*source, now, *policy),
{
    match source {
        PriceSource::Live(quote) => normalize_price(quote, now, policy),
        PriceSource::Mock(cents) => Ok(*cents),
        PriceSource::Unreadable => Err(ErrorCode::PythError),
    }
}

} // verus!
