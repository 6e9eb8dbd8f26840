use vtcode_core::metrics::sdk_metrics::SdkMetrics;

#[test]
fn test_record_generation() {
    let mut metrics = SdkMetrics::new();
    metrics.record_generation(50, 10);

    assert_eq!(metrics.total_generations, 1);
    assert_eq!(metrics.total_generation_time_ms, 50);
    assert_eq!(metrics.tools_total_generated, 10);
}

#[test]
fn test_avg_generation_time() {
    let mut metrics = SdkMetrics::new();
    metrics.record_generation(50, 10);
    metrics.record_generation(60, 12);
    metrics.record_generation(40, 8);

    assert_eq!(metrics.avg_generation_time_ms(), 50);
}

#[test]
fn test_max_tools() {
    let mut metrics = SdkMetrics::new();
    metrics.record_generation(50, 10);
    metrics.record_generation(60, 25);
    metrics.record_generation(40, 8);

    assert_eq!(metrics.max_tools_per_generation, 25);
}

#[test]
fn averages_are_zero_before_the_first_generation() {
    let metrics = SdkMetrics::default();
    assert_eq!(metrics.avg_generation_time_ms(), 0);
    assert_eq!(metrics.avg_tools_per_generation(), 0);
}

#[test]
fn averages_round_down() {
    let mut metrics = SdkMetrics::new();
    metrics.record_generation(10, 3);
    metrics.record_generation(11, 4);
    assert_eq!(metrics.avg_generation_time_ms(), 10);
    assert_eq!(metrics.avg_tools_per_generation(), 3);
}

#[test]
fn cache_hits_are_counted() {
    let mut metrics = SdkMetrics::new();
    metrics.record_cache_hit();
    metrics.record_cache_hit();
    assert_eq!(metrics.cache_hits, 2);
    assert_eq!(metrics.total_generations, 0);
}

#[test]
fn can_record_refuses_a_full_counter() {
    let mut metrics = SdkMetrics::new();
    metrics.total_generation_time_ms = u64::MAX - 5;
    assert!(metrics.can_record(5, 0));
    assert!(!metrics.can_record(6, 0));
    metrics.total_generations = u64::MAX;
    assert!(!metrics.can_record(0, 0));
}
