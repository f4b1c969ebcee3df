use process_viewer::text::{
    decimal_string, digit_str, half_string, one_decimal_string, ratio_string, wide_decimal_string,
};
use process_viewer::units::{format_bytes, format_time};

#[test]
fn format_time_minutes_and_seconds() {
    assert_eq!(format_time(65), "1m 5s");
}

#[test]
fn format_time_omits_zero_minutes() {
    assert_eq!(format_time(3600), "1h 0s");
}

#[test]
fn format_time_all_units() {
    assert_eq!(format_time(90061), "1d 1h 1m 1s");
}

#[test]
fn format_time_zero_is_seconds_only() {
    assert_eq!(format_time(0), "0s");
}

#[test]
fn format_time_hour_and_seconds_skips_minutes() {
    assert_eq!(format_time(3605), "1h 5s");
}

#[test]
fn format_time_largest_input() {
    assert_eq!(format_time(u64::MAX), "213503982334601d 7h 15s");
}

#[test]
fn format_bytes_base_unit() {
    assert_eq!(format_bytes(0), "0 B");
    assert_eq!(format_bytes(999), "999 B");
}

#[test]
fn format_bytes_kilobytes() {
    assert_eq!(format_bytes(1_000), "1 kB");
    assert_eq!(format_bytes(2_048), "2 kB");
    assert_eq!(format_bytes(99_999_999), "99999 kB");
}

#[test]
fn format_bytes_megabyte_threshold() {
    assert_eq!(format_bytes(100_000_000), "100 MB");
    assert_eq!(format_bytes(9_999_999_999), "9999 MB");
}

#[test]
fn format_bytes_gigabytes_and_terabytes() {
    assert_eq!(format_bytes(10_000_000_000), "10 GB");
    assert_eq!(format_bytes(9_999_999_999_999), "9999 GB");
    assert_eq!(format_bytes(10_000_000_000_000), "10 TB");
    assert_eq!(format_bytes(u64::MAX), "18446744 TB");
}

#[test]
fn decimal_string_matches_std() {
    for n in [0u64, 1, 9, 10, 11, 99, 100, 12345, 1_000_000, u64::MAX] {
        assert_eq!(decimal_string(n), format!("{}", n));
    }
}

#[test]
fn one_decimal_rounds_to_tenths() {
    assert_eq!(one_decimal_string(0), "0.0");
    assert_eq!(one_decimal_string(49), "0.0");
    assert_eq!(one_decimal_string(50), "0.1");
    assert_eq!(one_decimal_string(5_000), "5.0");
    assert_eq!(one_decimal_string(9_940), "9.9");
    assert_eq!(one_decimal_string(9_960), "10.0");
    assert_eq!(one_decimal_string(u64::MAX), "18446744073709551.6");
}

#[test]
fn ratio_string_rounds_halves_up() {
    assert_eq!(ratio_string(1, 20), "0.1");
    assert_eq!(ratio_string(150_000, 1_000), "150.0");
    assert_eq!(ratio_string(150_000, 2_000), "75.0");
    assert_eq!(ratio_string(1_250, 1_000), "1.3");
    assert_eq!(ratio_string(u64::MAX, 20), "922337203685477580.8");
    assert_eq!(ratio_string(u64::MAX, 1), "18446744073709551615.0");
    assert_eq!(ratio_string(1, 3), "0.3");
    assert_eq!(ratio_string(2, 3), "0.7");
    assert_eq!(ratio_string(0, u64::MAX), "0.0");
}

#[test]
fn wide_decimal_string_matches_std() {
    for n in [0u128, 7, 10, 18_446_744_073_709_551_616, u128::MAX] {
        assert_eq!(wide_decimal_string(n), format!("{}", n));
    }
}

#[test]
fn digit_str_gives_one_digit() {
    assert_eq!(digit_str(0), "0");
    assert_eq!(digit_str(5), "5");
    assert_eq!(digit_str(9), "9");
    assert_eq!(digit_str(10), "0");
}

#[test]
fn half_string_keeps_the_half() {
    assert_eq!(half_string(0), "0");
    assert_eq!(half_string(100), "50");
    assert_eq!(half_string(101), "50.5");
}
