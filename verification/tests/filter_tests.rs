use libra::error::Error;
use libra::filter::{StabilityFilter, BUFFER_LENGTH, MAX_NOISE};

fn filled(capacity: usize, threshold: i64, readings: &[i64]) -> StabilityFilter {
    let mut filter = StabilityFilter::new(capacity, threshold).unwrap();
    for reading in readings {
        filter.push(*reading);
    }
    filter
}

#[test]
fn default_window_is_twenty_readings_and_three_units() {
    assert_eq!(BUFFER_LENGTH, 20);
    assert_eq!(MAX_NOISE, 3000);
    let filter = StabilityFilter::default();
    assert_eq!(filter.capacity(), 20);
    assert_eq!(filter.noise_threshold(), 3000);
    assert_eq!(filter.len(), 0);
}

#[test]
fn window_without_room_is_a_config_fault() {
    assert!(matches!(StabilityFilter::new(0, 3000), Err(Error::ConfigFault)));
    assert!(StabilityFilter::new(1, 3000).is_ok());
}

#[test]
fn empty_window_has_no_current_max_or_min() {
    let filter = StabilityFilter::default();
    assert_eq!(filter.current(), None);
    assert_eq!(filter.max(), None);
    assert_eq!(filter.min(), None);
    assert!(!filter.is_stable());
}

#[test]
fn short_window_is_never_stable() {
    let mut filter = StabilityFilter::default();
    for count in 0..19 {
        assert_eq!(filter.len(), count);
        assert!(!filter.is_stable());
        filter.push(100_000);
    }
    assert_eq!(filter.len(), 19);
    assert!(!filter.is_stable());
    filter.push(100_000);
    assert!(filter.is_stable());
}

#[test]
fn full_window_is_stable_below_the_threshold_only() {
    let mut readings = vec![100_000i64; 19];
    readings.push(102_999);
    assert!(filled(20, 3000, &readings).is_stable());
    readings[19] = 103_000;
    let at_threshold = filled(20, 3000, &readings);
    assert_eq!(at_threshold.max(), Some(103_000));
    assert_eq!(at_threshold.min(), Some(100_000));
    assert!(!at_threshold.is_stable());
    readings[19] = 103_001;
    assert!(!filled(20, 3000, &readings).is_stable());
}

#[test]
fn spread_counts_the_lowest_and_the_highest_reading() {
    let filter = filled(4, 10, &[5, -4, 2, 0]);
    assert_eq!(filter.max(), Some(5));
    assert_eq!(filter.min(), Some(-4));
    assert!(filter.is_stable());
    let filter = filled(4, 9, &[5, -4, 2, 0]);
    assert!(!filter.is_stable());
}

#[test]
fn oldest_reading_leaves_a_full_window() {
    let mut filter = filled(3, 3000, &[1, 2, 3]);
    assert_eq!(filter.len(), 3);
    assert_eq!(filter.min(), Some(1));
    filter.push(4);
    assert_eq!(filter.len(), 3);
    assert_eq!(filter.current(), Some(4));
    assert_eq!(filter.min(), Some(2));
    assert_eq!(filter.max(), Some(4));
    filter.push(5);
    filter.push(6);
    assert_eq!(filter.min(), Some(4));
    assert_eq!(filter.max(), Some(6));
}

#[test]
fn current_is_the_reading_pushed_last() {
    let mut filter = StabilityFilter::default();
    filter.push(7);
    assert_eq!(filter.current(), Some(7));
    filter.push(-9);
    assert_eq!(filter.current(), Some(-9));
}

#[test]
fn clear_empties_the_window_and_keeps_its_settings() {
    let mut filter = filled(2, 5, &[1, 2]);
    assert!(filter.is_stable());
    filter.clear();
    assert_eq!(filter.len(), 0);
    assert_eq!(filter.capacity(), 2);
    assert_eq!(filter.noise_threshold(), 5);
    assert!(!filter.is_stable());
}

#[test]
fn spread_of_extreme_readings_does_not_wrap() {
    let filter = filled(2, i64::MAX, &[i64::MIN, i64::MAX]);
    assert!(!filter.is_stable());
    let filter = filled(2, 1, &[i64::MIN, i64::MIN]);
    assert!(filter.is_stable());
}

#[test]
fn threshold_of_zero_or_less_is_never_met() {
    assert!(!filled(2, 0, &[4, 4]).is_stable());
    assert!(!filled(2, -1, &[4, 4]).is_stable());
}
