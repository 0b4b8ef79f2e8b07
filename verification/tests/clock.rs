use holler::clock::{age_label, civil_from_days, format_relative, format_utc, now_unix};

#[test]
fn relative_time_buckets() {
    assert_eq!(format_relative(-10), "just now"); // clock skew
    assert_eq!(format_relative(0), "just now");
    assert_eq!(format_relative(42), "42s ago");
    assert_eq!(format_relative(120), "2m ago");
    assert_eq!(format_relative(7_200), "2h ago");
    assert_eq!(format_relative(90_000), "yesterday");
    assert_eq!(format_relative(3 * 86_400), "3d ago");
}

#[test]
fn utc_timestamp_matches_known_epochs() {
    assert_eq!(format_utc(0), "1970-01-01 00:00 UTC");
    // 1_600_000_000 == 2020-09-13 12:26:40 UTC.
    assert_eq!(format_utc(1_600_000_000), "2020-09-13 12:26 UTC");
}

#[test]
fn days_become_dates() {
    assert_eq!(civil_from_days(0), (1970, 1, 1));
    assert_eq!(civil_from_days(-1), (1969, 12, 31));
    assert_eq!(civil_from_days(59), (1970, 3, 1));
    assert_eq!(civil_from_days(11_016), (2000, 2, 29));
    assert_eq!(civil_from_days(-719_528), (0, 1, 1));
}

#[test]
fn dates_follow_each_other() {
    let mut prev = civil_from_days(18_000);
    for z in 18_001..20_000 {
        let next = civil_from_days(z);
        assert!(next > prev);
        prev = next;
    }
}

#[test]
fn ages_do_not_overflow() {
    assert_eq!(age_label(100, 58), "42s ago");
    assert_eq!(age_label(100, 200), "just now");
    assert_eq!(now_unix(Some(5)), 5);
    assert_eq!(now_unix(None), 0);
}
