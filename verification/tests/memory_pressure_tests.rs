use verso::memory_pressure::{
    linux_memory_usage, memory_usage_percent, parse_meminfo_kb, MemoryPressureConfig,
    MemoryPressureLevel, MemoryPressureMonitor,
};

#[test]
fn memory_pressure_test_default_config() {
    let config = MemoryPressureConfig::default();
    assert_eq!(config.warning_threshold, 70);
    assert_eq!(config.critical_threshold, 90);
}

#[test]
fn test_pressure_level_default() {
    let monitor = MemoryPressureMonitor::default();
    assert_eq!(monitor.current_level(), MemoryPressureLevel::Normal);
}

#[test]
fn test_cache_reduction_factors() {
    let mut monitor = MemoryPressureMonitor::default();

    monitor.current_level = MemoryPressureLevel::Normal;
    assert!((monitor.cache_reduction_factor() as f64 / 1000.0 - 1.0).abs() < 1e-9);

    monitor.current_level = MemoryPressureLevel::Warning;
    assert!((monitor.cache_reduction_factor() as f64 / 1000.0 - 0.5).abs() < 1e-9);

    monitor.current_level = MemoryPressureLevel::Critical;
    assert!((monitor.cache_reduction_factor() as f64 / 1000.0 - 0.25).abs() < 1e-9);
}

#[test]
fn test_level_thresholds() {
    // Below the warning threshold: Normal; between the thresholds: Warning;
    // at or above the critical threshold: Critical.
    let mut monitor = MemoryPressureMonitor::new(MemoryPressureConfig::default(), 0);
    assert_eq!(monitor.check(5_000, 69), MemoryPressureLevel::Normal);
    assert_eq!(monitor.check(10_000, 70), MemoryPressureLevel::Warning);
    assert_eq!(monitor.check(15_000, 89), MemoryPressureLevel::Warning);
    assert_eq!(monitor.check(20_000, 90), MemoryPressureLevel::Critical);
    assert_eq!(monitor.check(25_000, 100), MemoryPressureLevel::Critical);
}

#[test]
fn test_check_twice_within_interval_keeps_level() {
    // A second check within the configured interval returns the same level
    // without resampling, whatever utilization it would have seen.
    let mut monitor = MemoryPressureMonitor::new(MemoryPressureConfig::default(), 0);
    let first = monitor.check(5_000, 95);
    assert_eq!(first, MemoryPressureLevel::Critical);
    let second = monitor.check(6_000, 10);
    assert_eq!(second, MemoryPressureLevel::Critical);
    assert_eq!(monitor.current_level(), MemoryPressureLevel::Critical);
    // Once the interval has elapsed the new sample counts.
    let third = monitor.check(10_000, 10);
    assert_eq!(third, MemoryPressureLevel::Normal);
}

#[test]
fn test_should_check_rate_limits() {
    let monitor = MemoryPressureMonitor::new(MemoryPressureConfig::default(), 1_000);
    assert!(!monitor.should_check(1_000));
    assert!(!monitor.should_check(5_999));
    assert!(monitor.should_check(6_000));
}

#[test]
fn test_parse_meminfo_kb_values() {
    assert_eq!(parse_meminfo_kb("MemTotal:       16384256 kB"), 16384256);
    assert_eq!(parse_meminfo_kb("MemAvailable:    8192128 kB"), 8192128);
    assert_eq!(parse_meminfo_kb("HugePages_Total:       0"), 0);
    assert_eq!(parse_meminfo_kb("MemTotal: 42 kB"), 42);
    // Malformed lines give zero.
    assert_eq!(parse_meminfo_kb("MemTotal:"), 0);
    assert_eq!(parse_meminfo_kb(""), 0);
    assert_eq!(parse_meminfo_kb("MemTotal: lots kB"), 0);
    assert_eq!(parse_meminfo_kb("MemTotal: 99999999999999999999999 kB"), 0);
}

#[test]
fn test_memory_usage_percent() {
    assert_eq!(memory_usage_percent(0, 0), 0);
    assert_eq!(memory_usage_percent(100, 50), 50);
    assert_eq!(memory_usage_percent(16384, 4096), 75);
    assert_eq!(memory_usage_percent(100, 0), 100);
    // An inconsistent sample (more available than total) counts as unused.
    assert_eq!(memory_usage_percent(100, 200), 0);
}

#[test]
fn test_linux_memory_usage_from_summary() {
    let meminfo = "MemTotal:       1000 kB\nMemFree:         100 kB\nMemAvailable:    250 kB\nBuffers:          50 kB\n";
    assert_eq!(linux_memory_usage(meminfo), 75);
    // Missing figures read as no pressure.
    assert_eq!(linux_memory_usage(""), 0);
    assert_eq!(linux_memory_usage("MemFree: 100 kB\n"), 0);
}
