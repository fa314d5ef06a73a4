//! Laws of the fee: its bound, and when an amount can be split.

use vstd::prelude::*;
use vstd::arithmetic::div_mod::lemma_multiply_divide_le;
use crate::conversion::{compute_fee_spec, fee_of};
use crate::fixed_point::{lemma_floor_times_divisor, BPS_DENOMINATOR};

verus! {

/// The fee is the rate applied to the amount, rounded down: it is never
/// negative and never more than the exact share.
pub proof fn lemma_fee_bound(amount: u64, fee_rate_bps: u64)
    ensures
        0 <= fee_of(amount, fee_rate_bps),
        fee_of(amount, fee_rate_bps) * BPS_DENOMINATOR <= amount * fee_rate_bps,
        compute_fee_spec(amount, fee_rate_bps) matches Ok(split) ==> split.fee == fee_of(
            amount,
            fee_rate_bps,
        ) && split.fee + split.net == amount,
{
    lemma_floor_times_divisor(amount as nat * fee_rate_bps as nat, BPS_DENOMINATOR as nat);
}

/// At a rate of at most the whole (10000 basis points) the fee is at most
/// the amount, so every amount but zero can be split.
pub proof fn lemma_fee_within_amount(amount: u64, fee_rate_bps: u64)
    requires
        fee_rate_bps <= BPS_DENOMINATOR,
    ensures
        fee_of(amount, fee_rate_bps) <= amount,
        amount > 0 ==> compute_fee_spec(amount, fee_rate_bps) is Ok,
{
    assert(amount as nat * fee_rate_bps as nat <= 10000 * amount as nat) by (nonlinear_arith)
        requires
            fee_rate_bps <= 10000,
    ;
    lemma_multiply_divide_le(
        (amount as nat * fee_rate_bps as nat) as int,
        10000,
        amount as int,
    );
}

} // verus!
