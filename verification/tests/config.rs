use connection_pool::{Duration, GlobalConnectionPoolConfig, ThresholdError};

#[test]
fn thresholds_to_begin_with() {
    let config = GlobalConnectionPoolConfig::new();
    assert_eq!(config.long_connection_threshold(), Duration::from_secs(5));
    assert_eq!(config.slow_query_threshold(), Duration::from_millis(100));
}

#[test]
fn thresholds_read_back_in_milliseconds() {
    let mut config = GlobalConnectionPoolConfig::new();
    config.set_long_connection_threshold(Duration::new(2, 1_999_999)).unwrap();
    assert_eq!(config.long_connection_threshold(), Duration::from_millis(2_001));
    assert_eq!(config.slow_query_threshold(), Duration::from_millis(100));

    config.set_slow_query_threshold(Duration::new(0, 999_999)).unwrap();
    assert_eq!(config.slow_query_threshold(), Duration::from_millis(0));
    assert_eq!(config.long_connection_threshold(), Duration::from_millis(2_001));
}

#[test]
fn thresholds_can_be_chained() {
    let mut config = GlobalConnectionPoolConfig::new();
    config
        .set_long_connection_threshold(Duration::from_secs(7))
        .unwrap()
        .set_slow_query_threshold(Duration::from_secs(8))
        .unwrap();
    assert_eq!(config.long_connection_threshold(), Duration::from_secs(7));
    assert_eq!(config.slow_query_threshold(), Duration::from_secs(8));
}

#[test]
fn largest_threshold_fits() {
    let mut config = GlobalConnectionPoolConfig::new();
    let largest = Duration::from_millis(u64::MAX);
    config.set_long_connection_threshold(largest).unwrap();
    config.set_slow_query_threshold(largest).unwrap();
    assert_eq!(config.long_connection_threshold(), largest);
    assert_eq!(config.slow_query_threshold(), largest);
}

#[test]
fn unreasonably_large_thresholds_are_refused() {
    let mut config = GlobalConnectionPoolConfig::new();
    let too_large = Duration::new(u64::MAX / 1_000, 616_000_000);
    assert_eq!(too_large.as_millis(), u128::from(u64::MAX) + 1);

    let error = config.set_long_connection_threshold(too_large).unwrap_err();
    assert_eq!(error, ThresholdError::LongConnection);
    assert_eq!(error.message(), "long_connection_threshold is unreasonably large");

    let error = config.set_slow_query_threshold(Duration::from_secs(u64::MAX)).unwrap_err();
    assert_eq!(error, ThresholdError::SlowQuery);
    assert_eq!(error.message(), "slow_query_threshold is unreasonably large");

    assert_eq!(config.long_connection_threshold(), Duration::from_secs(5));
    assert_eq!(config.slow_query_threshold(), Duration::from_millis(100));
}

#[test]
fn durations_convert_between_units() {
    assert_eq!(Duration::from_millis(61_007), Duration::new(61, 7_000_000));
    assert_eq!(Duration::new(1, 2_500_000_000), Duration::from_millis(3_500));
    let duration = Duration::new(61, 7_999_999);
    assert_eq!(duration.as_secs(), 61);
    assert_eq!(duration.as_millis(), 61_007);
    assert_eq!(duration.subsec_nanos(), 7_999_999);
}
