use cavestory::build_version::{build_date_is_valid, date_from_unix_days, windows_version};

#[test]
fn utc_build_dates_cover_epoch_leap_day_and_year_boundary() {
    for (days, date) in [(0, "19700101"), (19782, "20240229"), (20088, "20241231"), (20089, "20250101"), (20710, "20260914")] {
        assert_eq!(date_from_unix_days(days), date);
    }
    assert_eq!(windows_version("20260914"), (2026 << 48) | (9 << 32) | (14 << 16));
}

#[test]
fn invalid_build_dates_fail_the_check() {
    assert!(!build_date_is_valid("20260229"));
    assert!(build_date_is_valid("20240229"));
    assert!(!build_date_is_valid("19691231"));
    assert!(!build_date_is_valid("2026091"));
    assert!(!build_date_is_valid("2026-9-1"));
    assert!(!build_date_is_valid("20261301"));
    assert!(!build_date_is_valid("20260400"));
    assert!(!build_date_is_valid("21000229"));
    assert!(build_date_is_valid("20000229"));
}

#[test]
fn dates_before_and_after_the_epoch_century_rules() {
    assert_eq!(date_from_unix_days(11016), "20000229");
    assert_eq!(date_from_unix_days(10956), "19991231");
    assert_eq!(date_from_unix_days(10957), "20000101");
    assert_eq!(date_from_unix_days(47541), "21000301");
}

#[test]
fn windows_version_packs_year_month_and_day() {
    assert_eq!(windows_version("19700101"), (1970 << 48) | (1 << 32) | (1 << 16));
    assert_eq!(windows_version("20241231"), (2024 << 48) | (12 << 32) | (31 << 16));
}

#[test]
fn build_dates_round_trip_through_the_windows_version() {
    for days in [0u64, 365, 11016, 19782, 2932896] {
        let date = date_from_unix_days(days);
        let v = windows_version(&date);
        let y: u64 = date[..4].parse().unwrap();
        let m: u64 = date[4..6].parse().unwrap();
        let d: u64 = date[6..].parse().unwrap();
        assert_eq!(v, (y << 48) | (m << 32) | (d << 16));
    }
}

#[test]
fn later_days_have_later_accepted_dates() {
    let mut previous = date_from_unix_days(0);
    for days in [1u64, 58, 59, 365, 19782, 20088, 20089, 2932896] {
        let date = date_from_unix_days(days);
        assert!(previous < date, "{previous} !< {date}");
        assert!(build_date_is_valid(&date));
        let _ = windows_version(&date);
        previous = date;
    }
    assert_eq!(date_from_unix_days(2932896), "99991231");
}
