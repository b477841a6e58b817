use caldav_server::ident::Id;
use caldav_server::time::leap_year;
use caldav_server::time::month_length;
use caldav_server::time::UtcDateTime;

#[test]
fn identifier_text_is_hyphenated_lower_case() {
    let id = Id::from_u128(0x550E8400_E29B_41D4_A716_446655440000);
    assert_eq!(id.to_string(), "550e8400-e29b-41d4-a716-446655440000");
    assert_eq!(Id::from_u128(0).to_string(), "00000000-0000-0000-0000-000000000000");
    assert_eq!(Id::from_u128(u128::MAX).to_string(), "ffffffff-ffff-ffff-ffff-ffffffffffff");
    assert_eq!(Id::from_u128(0x1a).to_string(), "00000000-0000-0000-0000-00000000001a");
}

#[test]
fn identifier_is_read_from_its_text() {
    let id = Id::parse_str("550e8400-e29b-41d4-a716-446655440000").unwrap();
    assert_eq!(id.as_u128(), 0x550e8400_e29b_41d4_a716_446655440000);
    assert_eq!(Id::parse_str(&id.to_string()).unwrap(), id);
    let simple = Id::parse_str("550E8400E29B41D4A716446655440000").unwrap();
    assert_eq!(simple, id);
}

#[test]
fn identifier_is_not_read_from_other_text() {
    assert!(Id::parse_str("abc").is_err());
    assert!(Id::parse_str("").is_err());
    assert!(Id::parse_str("550e8400-e29b-41d4-a716-44665544000").is_err());
    assert!(Id::parse_str("550e8400-e29b-41d4-a716-446655440000.ics").is_err());
}

#[test]
fn instants_are_checked() {
    assert!(UtcDateTime::new(2024, 2, 29, 0, 0, 0, 0).is_some());
    assert!(UtcDateTime::new(2023, 2, 29, 0, 0, 0, 0).is_none());
    assert!(UtcDateTime::new(1900, 2, 29, 0, 0, 0, 0).is_none());
    assert!(UtcDateTime::new(2000, 2, 29, 0, 0, 0, 0).is_some());
    assert!(UtcDateTime::new(2024, 0, 1, 0, 0, 0, 0).is_none());
    assert!(UtcDateTime::new(2024, 13, 1, 0, 0, 0, 0).is_none());
    assert!(UtcDateTime::new(2024, 4, 31, 0, 0, 0, 0).is_none());
    assert!(UtcDateTime::new(2024, 1, 1, 24, 0, 0, 0).is_none());
    assert!(UtcDateTime::new(2024, 1, 1, 0, 60, 0, 0).is_none());
    assert!(UtcDateTime::new(2024, 1, 1, 0, 0, 60, 0).is_none());
    assert!(UtcDateTime::new(2024, 1, 1, 0, 0, 59, 1_999_999_999).is_some());
    assert!(UtcDateTime::new(2024, 1, 1, 0, 0, 58, 1_000_000_000).is_none());
    assert!(UtcDateTime::new(2024, 1, 1, 0, 0, 59, 2_000_000_000).is_none());
    assert!(UtcDateTime::new(262142, 12, 31, 23, 59, 59, 0).is_some());
    assert!(UtcDateTime::new(262143, 1, 1, 0, 0, 0, 0).is_none());
    assert!(UtcDateTime::new(-262143, 1, 1, 0, 0, 0, 0).is_some());
    assert!(UtcDateTime::new(-262144, 12, 31, 0, 0, 0, 0).is_none());
}

#[test]
fn instant_shows_its_fields() {
    let t = UtcDateTime::new(2024, 3, 1, 9, 15, 30, 42).unwrap();
    assert_eq!(
        (t.year(), t.month(), t.day(), t.hour(), t.minute(), t.second(), t.nanosecond()),
        (2024, 3, 1, 9, 15, 30, 42)
    );
    assert_eq!(UtcDateTime::midnight(2024, 3, 1), UtcDateTime::new(2024, 3, 1, 0, 0, 0, 0));
    assert_eq!(UtcDateTime::midnight(2024, 2, 30), None);
}

#[test]
fn instants_are_ordered_in_time() {
    let a = UtcDateTime::new(2024, 3, 1, 9, 0, 0, 0).unwrap();
    let b = UtcDateTime::new(2024, 3, 1, 9, 0, 0, 1).unwrap();
    let c = UtcDateTime::new(2025, 1, 1, 0, 0, 0, 0).unwrap();
    let d = UtcDateTime::new(2024, 12, 31, 23, 59, 59, 0).unwrap();
    assert!(a.is_at_or_before(&a));
    assert!(a.is_at_or_before(&b));
    assert!(!b.is_at_or_before(&a));
    assert!(d.is_at_or_before(&c));
    assert!(!c.is_at_or_before(&d));
    assert!(a.is_at_or_before(&d));
}

#[test]
fn calendar_rules() {
    assert!(leap_year(2024));
    assert!(!leap_year(2023));
    assert!(!leap_year(1900));
    assert!(leap_year(2000));
    assert!(leap_year(-4));
    assert!(!leap_year(-1));
    assert!(leap_year(0));
    assert_eq!(month_length(2024, 2), 29);
    assert_eq!(month_length(2023, 2), 28);
    assert_eq!(month_length(2023, 4), 30);
    assert_eq!(month_length(2023, 12), 31);
    assert_eq!(month_length(2023, 0), 0);
    assert_eq!(month_length(2023, 13), 0);
}

fn expected_stamp(t: &UtcDateTime) -> String {
    let year = if (0..=9999).contains(&t.year()) {
        format!("{:04}", t.year())
    } else if t.year() < 0 {
        format!("-{:04}", -(t.year() as i64))
    } else {
        format!("+{:04}", t.year())
    };
    let second = if t.nanosecond() >= 1_000_000_000 { t.second() + 1 } else { t.second() };
    format!(
        "{}{:02}{:02}T{:02}{:02}{:02}Z",
        year,
        t.month(),
        t.day(),
        t.hour(),
        t.minute(),
        second
    )
}

#[test]
fn stamps_are_written_field_by_field() {
    let years = [-262143, -10000, -9999, -1000, -1, 0, 1, 9, 99, 999, 1000, 1999, 9999, 10000, 99999, 262142];
    let days = [(1, 1), (2, 28), (3, 31), (6, 30), (10, 9), (12, 31)];
    let times = [(0, 0, 0, 0), (9, 5, 7, 1), (12, 30, 45, 999_999_999), (23, 59, 59, 0), (23, 59, 59, 1_000_000_000), (7, 3, 59, 1_999_999_999)];
    let mut seen = 0;
    for year in years {
        for (month, day) in days {
            for (hour, minute, second, nano) in times {
                let t = UtcDateTime::new(year, month, day, hour, minute, second, nano).unwrap();
                assert_eq!(t.to_ical_stamp(), expected_stamp(&t));
                seen += 1;
            }
        }
    }
    assert_eq!(seen, 16 * 6 * 6);
    assert_eq!(UtcDateTime::new(2024, 2, 29, 1, 2, 3, 0).unwrap().to_ical_stamp(), "20240229T010203Z");
}

#[test]
fn identifier_text_is_written_digit_by_digit() {
    let values: [u128; 6] = [
        0,
        1,
        0x0123456789abcdef_fedcba9876543210,
        0xdeadbeef_0000_0000_0000_000000000000,
        0x0000_0000_0000_0000_8000_000000000001,
        u128::MAX - 0xf,
    ];
    for v in values {
        let hex = format!("{:032x}", v);
        let expected =
            format!("{}-{}-{}-{}-{}", &hex[0..8], &hex[8..12], &hex[12..16], &hex[16..20], &hex[20..32]);
        assert_eq!(Id::from_u128(v).to_string(), expected);
        assert_eq!(Id::parse_str(&expected).unwrap().as_u128(), v);
    }
}
