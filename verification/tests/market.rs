use hash_quest::market::{
    chart_labels, coin_age, coin_name, coin_name_index, hash_divisor, index_sorted_order,
    longest_share_cooldown, max_blocks_range, newest_coin_position, price_range, position_by_name, push_windowed, record_trend,
    trend_bias, TrendBias, MAX_SERIES_LENGTH,
};
use std::collections::VecDeque;

#[test]
fn window_keeps_newest_points() {
    let mut v = vec![1, 2, 3];
    push_windowed(&mut v, 4, 3);
    assert_eq!(v, vec![2, 3, 4]);
    push_windowed(&mut v, 5, 5);
    assert_eq!(v, vec![2, 3, 4, 5]);
    let mut labels: Vec<String> = Vec::new();
    for _ in 0..100 {
        push_windowed(&mut labels, "|".to_string(), MAX_SERIES_LENGTH);
    }
    assert_eq!(labels.len(), 96);
}

#[test]
fn trend_memory_and_bias() {
    let mut d: VecDeque<bool> = VecDeque::from(vec![false, false, false]);
    assert_eq!(trend_bias(&d), TrendBias::Oversold);
    record_trend(&mut d, true);
    assert_eq!(d, VecDeque::from(vec![true, false, false, false]));
    assert_eq!(trend_bias(&d), TrendBias::Mixed);
    record_trend(&mut d, true);
    record_trend(&mut d, true);
    record_trend(&mut d, true);
    assert_eq!(d, VecDeque::from(vec![true, true, true, true]));
    assert_eq!(trend_bias(&d), TrendBias::Overheated);
    assert_eq!(trend_bias(&VecDeque::new()), TrendBias::Overheated);
}

#[test]
fn coin_names_round_trip() {
    assert_eq!(coin_name(0), "Coin-0");
    assert_eq!(coin_name(1234), "Coin-1234");
    assert_eq!(coin_name_index(&coin_name(987654321)), Some(987654321));
    assert_eq!(coin_name_index("Coin-+12"), Some(12));
    assert_eq!(coin_name_index("Coin-12-x"), Some(12));
    assert_eq!(coin_name_index("Coin-"), None);
    assert_eq!(coin_name_index("Coin"), None);
    assert_eq!(coin_name_index("Coin-1a"), None);
    assert_eq!(coin_name_index("Coin-18446744073709551615"), Some(u64::MAX));
    assert_eq!(coin_name_index("Coin-18446744073709551616"), None);
}

#[test]
fn find_coins_by_name_and_number() {
    let names = vec![coin_name(4), coin_name(7), coin_name(5), coin_name(7)];
    assert_eq!(position_by_name(&names, &"Coin-7".to_string()), Some(1));
    assert_eq!(position_by_name(&names, &"Coin-9".to_string()), None);
    assert_eq!(newest_coin_position(&names, 8), Some(1));
    assert_eq!(newest_coin_position(&names, 6), Some(2));
    assert_eq!(newest_coin_position(&names, 1), None);
}

#[test]
fn longest_cooldown_takes_last_of_equals() {
    assert_eq!(longest_share_cooldown(&vec![0, -1, 0]), None);
    assert_eq!(longest_share_cooldown(&vec![3, 5, 2, 5, 0]), Some(3));
    assert_eq!(longest_share_cooldown(&vec![1]), Some(0));
}

#[test]
fn divisors_ages_and_labels() {
    assert_eq!(hash_divisor(0), 1);
    assert_eq!(hash_divisor(1000), 1);
    assert_eq!(hash_divisor(1001), 2);
    assert_eq!(hash_divisor(10_000), 25);
    assert_eq!(hash_divisor(100_001), 1000);
    assert_eq!(coin_age(3, Some(10), 50), 7);
    assert_eq!(coin_age(3, None, 50), 47);
    let labels = chart_labels(&vec![2, 5, 1]);
    assert_eq!(labels, vec!["|"; 5]);
    assert!(chart_labels(&vec![]).is_empty());
}

#[test]
fn index_order_is_stable_and_skips_inactive() {
    let indices = vec![3, 1, 3, 0, 1];
    let active = vec![true, true, true, false, true];
    assert_eq!(index_sorted_order(&indices, &active), vec![1, 4, 0, 2]);
}

#[test]
fn block_count_bounds_follow_rig_level() {
    assert_eq!(max_blocks_range(0), (10, 25));
    assert_eq!(max_blocks_range(25), (10, 25));
    assert_eq!(max_blocks_range(26), (15, 50));
    assert_eq!(max_blocks_range(125), (100, 200));
    assert_eq!(max_blocks_range(126), (150, 300));
    assert_eq!(max_blocks_range(1000), (1850, 3700));
    assert_eq!(max_blocks_range(1001), (1900, 5000));
    assert_eq!(max_blocks_range(2001), (7000, 25000));
    assert_eq!(max_blocks_range(5000), (12000, 50000));
    assert_eq!(max_blocks_range(5001), (13000, 55000));
}

#[test]
fn opening_price_bounds_follow_rig_level() {
    assert_eq!(price_range(0), (8, 20));
    assert_eq!(price_range(3), (8, 20));
    assert_eq!(price_range(4), (20, 40));
    assert_eq!(price_range(6), (20, 40));
    assert_eq!(price_range(7), (40, 60));
    assert_eq!(price_range(30), (180, 200));
    assert_eq!(price_range(31), (200, 220));
}
