use tokenix::calculate_price;

#[test]
fn price_at_empty_reserve_is_base_price_per_unit() {
    assert_eq!(calculate_price(0, 1), 10_000);
    assert_eq!(calculate_price(0, 1_000_000_000), 10_000_000_000_000);
    assert_eq!(calculate_price(0, 0), 0);
}

#[test]
fn price_at_one_whole_token_reserve() {
    assert_eq!(calculate_price(1_000_000_000, 1), 20_000);
    assert_eq!(calculate_price(1_000_000_000, 1_000_000_000), 20_000_000_000_000);
}

#[test]
fn price_rounds_the_slope_down() {
    // 12_345_678_901 * 10_000 / 10^9 = 123_456.78901, rounded down
    assert_eq!(calculate_price(12_345_678_901, 1), 133_456);
    assert_eq!(calculate_price(12_345_678_901, 7), 934_192);
}

#[test]
fn fresh_pool_buying_one_whole_token_saturates() {
    let reserve: u64 = 100_000_000 * 1_000_000_000;
    let marginal: u128 = 10_000 + (reserve as u128) * 10_000 / 1_000_000_000;
    assert_eq!(marginal, 1_000_000_010_000);
    assert_eq!(calculate_price(reserve, 1), 1_000_000_010_000);
    // marginal * 10^9 exceeds u64::MAX, so the charge is clamped
    assert!(marginal * 1_000_000_000 > u64::MAX as u128);
    assert_eq!(calculate_price(reserve, 1_000_000_000), u64::MAX);
    assert_eq!(calculate_price(reserve, 1_000), 1_000_000_010_000_000);
}

#[test]
fn price_near_the_largest_reserve() {
    let reserve = u64::MAX - 1;
    assert_eq!(calculate_price(reserve, 1), 184_467_440_747_095);
    assert_eq!(calculate_price(reserve, 99_999), 18_446_559_607_268_752_905);
    assert_eq!(calculate_price(reserve, 100_000), u64::MAX);
}

#[test]
fn price_at_the_largest_reserve_saturates() {
    assert_eq!(calculate_price(u64::MAX, 1), 184_467_440_747_095);
    assert_eq!(calculate_price(u64::MAX, 100_000), u64::MAX);
    assert_eq!(calculate_price(u64::MAX, u64::MAX), u64::MAX);
}

#[test]
fn price_grows_with_amount_at_a_fixed_reserve() {
    let reserve: u64 = 5_000_000_000;
    let mut last = 0u64;
    for amount in [0u64, 1, 2, 10, 1_000, 1_000_000, u64::MAX / 2, u64::MAX] {
        let p = calculate_price(reserve, amount);
        assert!(p >= last);
        assert_eq!(calculate_price(reserve, amount), p);
        last = p;
    }
}
