use otc_swap::collateral::{check, required_collateral};
use otc_swap::conversion::{compute_fee, convert, convert_wide, FeeSplit};
use otc_swap::error::ErrorCode;

#[test]
fn compute_fee_takes_one_percent() {
    assert_eq!(
        compute_fee(100_000_000, 100),
        Ok(FeeSplit { fee: 1_000_000, net: 99_000_000 })
    );
}

#[test]
fn compute_fee_rounds_the_fee_down() {
    assert_eq!(compute_fee(199, 100), Ok(FeeSplit { fee: 1, net: 198 }));
    assert_eq!(compute_fee(99, 100), Ok(FeeSplit { fee: 0, net: 99 }));
    assert_eq!(compute_fee(1, 500), Ok(FeeSplit { fee: 0, net: 1 }));
}

#[test]
fn compute_fee_at_a_zero_rate_takes_nothing() {
    assert_eq!(compute_fee(u64::MAX, 0), Ok(FeeSplit { fee: 0, net: u64::MAX }));
}

#[test]
fn compute_fee_at_the_whole_rate_takes_everything() {
    assert_eq!(compute_fee(1_000, 10_000), Ok(FeeSplit { fee: 1_000, net: 0 }));
}

#[test]
fn compute_fee_refuses_a_zero_amount() {
    assert_eq!(compute_fee(0, 100), Err(ErrorCode::InvalidAmount));
    assert_eq!(compute_fee(0, 0), Err(ErrorCode::InvalidAmount));
}

#[test]
fn compute_fee_refuses_a_fee_above_the_amount() {
    assert_eq!(compute_fee(10_000, 10_001), Err(ErrorCode::InvalidAmount));
    assert_eq!(compute_fee(1_000, 20_000), Err(ErrorCode::InvalidAmount));
    assert_eq!(compute_fee(1_000, 10_001), Ok(FeeSplit { fee: 1_000, net: 0 }));
    assert_eq!(compute_fee(u64::MAX, u64::MAX), Err(ErrorCode::InvalidAmount));
}

#[test]
fn fee_and_net_add_up_to_the_amount() {
    let amounts: [u64; 6] = [1, 7, 199, 10_001, 123_456_789, u64::MAX];
    let rates: [u64; 5] = [0, 1, 30, 499, 500];
    for amount in amounts {
        for rate in rates {
            let split = compute_fee(amount, rate).unwrap();
            assert_eq!(split.fee as u128 + split.net as u128, amount as u128);
            assert_eq!(split.fee as u128, amount as u128 * rate as u128 / 10_000);
        }
    }
}

#[test]
fn convert_at_equal_prices_and_decimals_keeps_the_amount() {
    assert_eq!(convert(99_000_000, 8, 10_000_000, 8, 10_000_000), Ok(99_000_000));
}

#[test]
fn convert_follows_the_prices() {
    // 2 whole tokens at 300.00 are worth 600.00, which buys 4 tokens at 150.00.
    assert_eq!(convert(2_000_000, 6, 30_000, 6, 15_000), Ok(4_000_000));
}

#[test]
fn convert_rescales_between_decimals() {
    // 1.5 tokens with 8 decimals into an asset with 6 decimals at the same price.
    assert_eq!(convert(150_000_000, 8, 100, 6, 100), Ok(1_500_000));
    assert_eq!(convert(1_500_000, 6, 100, 8, 100), Ok(150_000_000));
}

#[test]
fn convert_rounds_down_twice() {
    // 19 units at 0.15 with one decimal: floor(19 * 15 / 10) = 28 cents;
    // 28 cents at 0.09 with one decimal: floor(28 * 10 / 9) = 31 units.
    assert_eq!(convert(19, 1, 15, 1, 9), Ok(31));
    // The value in cents is rounded down before the second step:
    // floor(5 * 3 / 10) = 1 cent, then floor(1 * 10 / 1) = 10 units.
    assert_eq!(convert(5, 1, 3, 1, 1), Ok(10));
}

#[test]
fn convert_refuses_dust() {
    assert_eq!(convert(1, 8, 10_000_000, 8, 10_000_000), Err(ErrorCode::InvalidAmount));
    assert_eq!(convert(0, 8, 10_000_000, 8, 10_000_000), Err(ErrorCode::InvalidAmount));
    assert_eq!(convert(9, 8, 10_000_000, 8, 10_000_000), Err(ErrorCode::InvalidAmount));
    assert_eq!(convert(10, 8, 10_000_000, 8, 10_000_000), Ok(10));
}

#[test]
fn convert_refuses_a_result_beyond_an_amount() {
    assert_eq!(convert(u64::MAX, 0, 2, 0, 1), Err(ErrorCode::InvalidAmount));
    assert_eq!(convert(u64::MAX, 0, 1, 0, 1), Ok(u64::MAX));
}

#[test]
fn convert_refuses_a_zero_destination_price() {
    assert_eq!(convert(1_000, 2, 100, 2, 0), Err(ErrorCode::InvalidAmount));
}

#[test]
fn convert_refuses_decimals_beyond_the_wide_integer() {
    assert_eq!(convert(1_000, 39, 100, 2, 100), Err(ErrorCode::InvalidAmount));
    assert_eq!(convert(1_000, 2, 100, 39, 100), Err(ErrorCode::InvalidAmount));
}

#[test]
fn convert_wide_gives_zero_for_nothing() {
    assert_eq!(convert_wide(0, 8, 10_000_000, 8, 10_000_000), Ok(0));
}

#[test]
fn convert_wide_goes_beyond_an_amount() {
    assert_eq!(
        convert_wide(u64::MAX as u128, 0, 2, 0, 1),
        Ok(2 * (u64::MAX as u128))
    );
}

#[test]
fn convert_wide_refuses_a_product_beyond_the_wide_integer() {
    assert_eq!(convert_wide(u128::MAX, 0, 2, 0, 1), Err(ErrorCode::InvalidAmount));
    assert_eq!(
        convert_wide(u128::MAX / 2, 0, 2, 1, 1),
        Err(ErrorCode::InvalidAmount)
    );
}

#[test]
fn required_collateral_doubles_at_two_hundred_percent() {
    assert_eq!(
        required_collateral(75_000_000, 10_000_000, 8, 10_000_000, 8, 20_000),
        Ok(150_000_000)
    );
}

#[test]
fn required_collateral_of_nothing_is_nothing() {
    assert_eq!(required_collateral(0, 10_000_000, 8, 10_000_000, 8, 20_000), Ok(0));
}

#[test]
fn required_collateral_follows_prices_and_decimals() {
    // 3 synthetic tokens (6 decimals) at 200.00 are worth 600.00, that is
    // 1.5 collateral tokens (8 decimals) at 400.00; at 250% that is 3.75.
    assert_eq!(
        required_collateral(3_000_000, 20_000, 6, 40_000, 8, 25_000),
        Ok(375_000_000)
    );
}

#[test]
fn required_collateral_rounds_down() {
    // 3 units at equal prices, at 250%: floor(3 * 25000 / 10000) = 7.
    assert_eq!(required_collateral(3, 100, 0, 100, 0, 25_000), Ok(7));
}

#[test]
fn required_collateral_refuses_what_overflows() {
    assert_eq!(
        required_collateral(u128::MAX, 1, 0, 1, 0, 20_000),
        Err(ErrorCode::InvalidAmount)
    );
    assert_eq!(
        required_collateral(1, 1, 0, 0, 0, 20_000),
        Err(ErrorCode::InvalidAmount)
    );
}

#[test]
fn check_compares_balance_and_requirement() {
    assert!(!check(140_000_000, 150_000_000));
    assert!(check(150_000_000, 150_000_000));
    assert!(check(150_000_001, 150_000_000));
    assert!(check(0, 0));
}

#[test]
fn required_collateral_is_at_least_twice_the_equivalent_at_the_smallest_ratio() {
    let totals: [u128; 4] = [1, 999, 123_456_789, 75_000_000];
    for total in totals {
        let equivalent = convert_wide(total, 6, 20_001, 8, 39_999).unwrap();
        let required = required_collateral(total, 20_001, 6, 39_999, 8, 20_000).unwrap();
        assert_eq!(required, 2 * equivalent);
        let more = required_collateral(total, 20_001, 6, 39_999, 8, 33_333).unwrap();
        assert!(more >= 2 * equivalent);
        assert_eq!(more, equivalent * 33_333 / 10_000);
    }
}

#[test]
fn a_conversion_never_beats_the_exact_rate() {
    let amounts: [u64; 5] = [10, 12_345, 99_999_999, 100_000_001, 7_000_000_000];
    for amount in amounts {
        if let Ok(out) = convert(amount, 8, 9_876_543, 6, 10_000_019) {
            // out * price_to * 10^8 <= amount * price_from * 10^6
            assert!(
                out as u128 * 10_000_019 * 100_000_000 <= amount as u128 * 9_876_543 * 1_000_000
            );
            let back = convert_wide(out as u128, 6, 10_000_019, 8, 9_876_543).unwrap();
            assert!(back <= amount as u128);
        }
    }
}
