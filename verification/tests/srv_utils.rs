use devrs::commands::srv::utils::human_readable_size;

#[test]
fn test_human_readable_size() {
    assert_eq!(human_readable_size(0), "0 B");
    assert_eq!(human_readable_size(123), "123 B");
    assert_eq!(human_readable_size(1234), "1.2 KB");
    assert_eq!(human_readable_size(1234567), "1.2 MB");
    assert_eq!(human_readable_size(1234567890), "1.1 GB");
    assert_eq!(human_readable_size(1234567890000), "1.1 TB");
}

#[test]
fn sizes_at_unit_boundaries() {
    assert_eq!(human_readable_size(1023), "1023 B");
    assert_eq!(human_readable_size(1024), "1.0 KB");
    assert_eq!(human_readable_size(1024 * 1024), "1.0 MB");
    assert_eq!(human_readable_size(1024 * 1024 * 1024 * 1024 * 1024), "1.0 PB");
    assert_eq!(human_readable_size(u64::MAX), "16384.0 PB");
    assert_eq!(human_readable_size(1024u64.pow(6)), "1024.0 PB");
}

#[test]
fn one_decimal_rounds_half_to_even() {
    // 1.25 KB is exactly halfway; 1.35 KB is not representable and rounds up.
    assert_eq!(human_readable_size(1280), "1.2 KB");
    assert_eq!(human_readable_size(1536), "1.5 KB");
    assert_eq!(human_readable_size(1075), "1.0 KB");
}
