use wsprrs_web::display::{format_count, format_time_range, format_unix_hhmm, row_selection, snr_class};

#[test]
fn counts_get_thousands_separators() {
    assert_eq!(format_count(0), "0");
    assert_eq!(format_count(999), "999");
    assert_eq!(format_count(1000), "1,000");
    assert_eq!(format_count(1_234_567), "1,234,567");
    assert_eq!(format_count(1_000_001), "1,000,001");
    assert_eq!(format_count(u64::MAX), "18,446,744,073,709,551,615");
    assert_eq!(format_count(1_234_567).replace(',', ""), "1234567");
}

#[test]
fn hhmm_of_timestamps() {
    assert_eq!(format_unix_hhmm(0), "0000");
    assert_eq!(format_unix_hhmm(1_700_000_000), "2213");
    assert_eq!(format_unix_hhmm(-60), "2359");
    assert_eq!(format_unix_hhmm(8_210_266_876_799), "2359");
    assert_eq!(format_unix_hhmm(8_210_266_876_800), "----");
    assert_eq!(format_unix_hhmm(-8_334_601_228_800), "0000");
    assert_eq!(format_unix_hhmm(-8_334_601_228_801), "----");
    assert_eq!(format_unix_hhmm(i64::MAX), "----");
}

#[test]
fn time_ranges() {
    assert_eq!(format_time_range(0, 0), "\u{2014}");
    // 2023-11-14 21:00 and 22:13 UTC
    assert_eq!(format_time_range(1_699_995_600, 1_700_000_000), "21:00\u{2013}22:13 UTC");
    // across midnight: 2023-11-14 22:13 to 2023-11-15 01:00
    assert_eq!(
        format_time_range(1_700_000_000, 1_700_010_000),
        "11-14 22:13\u{2013}11-15 01:00 UTC"
    );
    assert_eq!(format_time_range(i64::MAX, 0), "?\u{2013}01-01 00:00 UTC");
}

#[test]
fn snr_classes() {
    assert_eq!(snr_class(i32::MIN), "mono snr-weak");
    assert_eq!(snr_class(-15), "mono snr-weak");
    assert_eq!(snr_class(-14), "mono snr-moderate");
    assert_eq!(snr_class(-5), "mono snr-moderate");
    assert_eq!(snr_class(-4), "mono snr-strong");
    assert_eq!(snr_class(10), "mono snr-strong");
}

#[test]
fn row_selection_needs_grid() {
    assert_eq!(row_selection("", "K1ABC"), None);
    assert_eq!(row_selection("FN20", "K1ABC"), Some(("FN20".to_string(), "K1ABC".to_string())));
}

#[test]
fn time_range_dates_across_leap_days_and_before_1970() {
    // 2024-02-28 23:00 to 2024-02-29 01:00.
    assert_eq!(
        format_time_range(1_709_161_200, 1_709_168_400),
        "02-28 23:00\u{2013}02-29 01:00 UTC"
    );
    // 1969-12-31 00:00 to 2000-03-01 00:00.
    assert_eq!(format_time_range(-86_400, 951_868_800), "12-31 00:00\u{2013}03-01 00:00 UTC");
    // 1900-03-01 00:00 (1900 is no leap year) to 1900-03-02 00:00.
    assert_eq!(
        format_time_range(-2_203_891_200, -2_203_804_800),
        "03-01 00:00\u{2013}03-02 00:00 UTC"
    );
}
