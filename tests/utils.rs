use puls::format::{
    clamp, format_duration, format_frequency, format_percentage, format_rate, format_size,
    is_system_process, matches_filter, truncate_string,
};
use puls::history::{update_history, zero_history_u64};
use puls::rate::calculate_rate;
use std::collections::VecDeque;

#[test]
fn test_format_size() {
    assert_eq!(format_size(0), "0 B");
    assert_eq!(format_size(512), "512 B");
    assert_eq!(format_size(1024), "1.0 KiB");
    assert_eq!(format_size(1536), "1.5 KiB");
    assert_eq!(format_size(1048576), "1.0 MiB");
}

#[test]
fn test_format_rate() {
    assert_eq!(format_rate(0), "0 B/s");
    assert_eq!(format_rate(500), "500 B/s");
    assert_eq!(format_rate(1000), "1.0 KB/s");
    assert_eq!(format_rate(1500), "1.5 KB/s");
}

#[test]
fn test_is_system_process() {
    assert!(is_system_process("kworker/0:1"));
    assert!(is_system_process("systemd-logind"));
    assert!(!is_system_process("firefox"));
    assert!(!is_system_process("puls"));
}

#[test]
fn format_size_large_units() {
    assert_eq!(format_size(1073741824), "1.0 GiB");
    assert_eq!(format_size(1099511627776), "1.0 TiB");
    assert_eq!(format_size(1125899906842624), "1.0 PiB");
    assert_eq!(format_size(1023), "1023 B");
    assert_eq!(format_size(1280), "1.2 KiB");
    assert_eq!(format_size(u64::MAX), "16384.0 PiB");
}

#[test]
fn format_rate_large_units() {
    assert_eq!(format_rate(2_000_000), "2.0 MB/s");
    assert_eq!(format_rate(3_500_000_000), "3.5 GB/s");
    assert_eq!(format_rate(1_000_000_000_000_000), "1000.0 TB/s");
    assert_eq!(format_rate(999), "999 B/s");
}

#[test]
fn format_frequency_units() {
    assert_eq!(format_frequency(3_400_000_000), "3.40 GHz");
    assert_eq!(format_frequency(2_345_000_000), "2.34 GHz");
    assert_eq!(format_frequency(1_500_000), "2 MHz");
    assert_eq!(format_frequency(800_000_000), "800 MHz");
    assert_eq!(format_frequency(5_000), "5 KHz");
    assert_eq!(format_frequency(999), "999 Hz");
}

#[test]
fn format_duration_units() {
    assert_eq!(format_duration(0), "0s");
    assert_eq!(format_duration(59), "59s");
    assert_eq!(format_duration(61), "1m 1s");
    assert_eq!(format_duration(3661), "1h 1m 1s");
    assert_eq!(format_duration(90061), "1d 1h 1m");
}

#[test]
fn format_percentage_two_decimals() {
    assert_eq!(format_percentage(0), "0.00%");
    assert_eq!(format_percentage(1234), "12.34%");
    assert_eq!(format_percentage(10000), "100.00%");
    assert_eq!(format_percentage(5), "0.05%");
}

#[test]
fn clamp_bounds() {
    assert_eq!(clamp(5, 10, 20), 10);
    assert_eq!(clamp(25, 10, 20), 20);
    assert_eq!(clamp(15, 10, 20), 15);
}

#[test]
fn truncate_string_cases() {
    assert_eq!(truncate_string("hello", 10), "hello");
    assert_eq!(truncate_string("hello world", 8), "hello...");
    assert_eq!(truncate_string("hello", 2), "...");
    assert_eq!(truncate_string("", 0), "");
    assert_eq!(truncate_string("éé", 3), "...");
    assert_eq!(truncate_string("éé", 4), "éé");
    assert_eq!(truncate_string("aébcdef", 6), "aé...");
}

#[test]
fn matches_filter_ignores_case() {
    assert!(matches_filter("Firefox 1234", ""));
    assert!(matches_filter("Firefox 1234", "FIRE"));
    assert!(matches_filter("Firefox 1234", "1234"));
    assert!(!matches_filter("Firefox 1234", "chrome"));
}

#[test]
fn rate_counter_growth_over_one_second() {
    assert_eq!(calculate_rate(3000, 1000, 1000), 2000);
}

#[test]
fn rate_counter_reset_is_zero() {
    assert_eq!(calculate_rate(1200, 5_000_000, 1000), 0);
}

#[test]
fn rate_interval_floor() {
    assert_eq!(calculate_rate(1000, 0, 10), 10000);
    assert_eq!(calculate_rate(1000, 0, 0), 10000);
    assert_eq!(calculate_rate(1000, 0, 100), 10000);
    assert_eq!(calculate_rate(1000, 0, 2000), 500);
    assert_eq!(calculate_rate(u64::MAX, 0, 100), u64::MAX);
}

#[test]
fn history_keeps_latest_values() {
    let len = 10usize;
    let mut h: VecDeque<u64> = zero_history_u64(len);
    assert_eq!(h.len(), len);
    for v in 1..=25u64 {
        update_history(&mut h, v, len);
        assert_eq!(h.len(), len);
    }
    let got: Vec<u64> = h.iter().copied().collect();
    assert_eq!(got, (16..=25u64).collect::<Vec<u64>>());
}

#[test]
fn history_shrinks_to_bound() {
    let mut h: VecDeque<u64> = zero_history_u64(60);
    update_history(&mut h, 7, 10);
    assert_eq!(h.len(), 10);
    assert_eq!(h.back(), Some(&7));
}
