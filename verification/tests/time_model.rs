use jobsched::time::{parse_time_of_day, TimeOfDay, Timestamp, Weekday};

use chrono::{Datelike, TimeZone, Timelike};

/// The library's weekday for an epoch-second count, held against
/// chrono's for the same instant.
fn weekday_agrees_with_chrono(secs: u64) -> bool {
    let dt = chrono::Utc
        .timestamp_opt(i64::try_from(secs).unwrap(), 0)
        .unwrap();
    let expected = match dt.weekday() {
        chrono::Weekday::Mon => Weekday::Monday,
        chrono::Weekday::Tue => Weekday::Tuesday,
        chrono::Weekday::Wed => Weekday::Wednesday,
        chrono::Weekday::Thu => Weekday::Thursday,
        chrono::Weekday::Fri => Weekday::Friday,
        chrono::Weekday::Sat => Weekday::Saturday,
        chrono::Weekday::Sun => Weekday::Sunday,
    };
    Timestamp::from_unix_seconds(secs).weekday() == expected
}

#[test]
fn weekday_matches_chrono() {
    // The epoch day was a Thursday.
    assert_eq!(Timestamp::from_unix_seconds(0).weekday(), Weekday::Thursday);
    for secs in [
        0u64,
        1,
        86399,
        86400,
        604800,
        951_827_696,
        1_709_664_240,
        2_000_000_000,
        4_102_444_800,
    ] {
        assert!(weekday_agrees_with_chrono(secs), "disagrees at {secs}");
    }
}

#[test]
fn second_of_day_and_date_match_chrono() {
    for secs in [0u64, 59, 86399, 86400, 951_827_696, 1_709_664_240] {
        let t = Timestamp::from_unix_seconds(secs);
        let dt = chrono::Utc
            .timestamp_opt(i64::try_from(secs).unwrap(), 0)
            .unwrap();
        let chrono_second_of_day =
            u64::from(dt.hour()) * 3600 + u64::from(dt.minute()) * 60 + u64::from(dt.second());
        assert_eq!(t.second_of_day(), chrono_second_of_day);
        // Two instants share a day number exactly when chrono puts
        // them on the same calendar date.
        let later = Timestamp::from_unix_seconds(secs + 3600);
        let dt_later = chrono::Utc
            .timestamp_opt(i64::try_from(secs + 3600).unwrap(), 0)
            .unwrap();
        assert_eq!(
            t.day_number() == later.day_number(),
            dt.date_naive() == dt_later.date_naive()
        );
    }
}

#[test]
fn parse_accepts_well_formed_literals() {
    assert_eq!(
        parse_time_of_day("19:24"),
        Some(TimeOfDay { hour: 19, minute: 24 })
    );
    assert_eq!(
        parse_time_of_day("00:00"),
        Some(TimeOfDay { hour: 0, minute: 0 })
    );
    assert_eq!(
        parse_time_of_day("23:59"),
        Some(TimeOfDay { hour: 23, minute: 59 })
    );
}

#[test]
fn parse_rejects_malformed_literals() {
    for bad in [
        "", "19:2", "19:245", "1924", "9:24", "24:00", "19:60", "aa:bb", "19-24", "19:2a",
        "⑲:24",
    ] {
        assert_eq!(parse_time_of_day(bad), None, "accepted {bad:?}");
    }
}

#[test]
fn parse_agrees_with_chrono_on_two_digit_literals() {
    // On the strict two-digit `HH:MM` shape the grammar accepts, the
    // accepted values are exactly chrono's.
    for h in 0..24u8 {
        for m in [0u8, 1, 9, 10, 30, 59] {
            let lit = format!("{h:02}:{m:02}");
            let parsed = parse_time_of_day(&lit).unwrap();
            let reference = chrono::NaiveTime::parse_from_str(&lit, "%H:%M").unwrap();
            assert_eq!(u32::from(parsed.hour), reference.hour());
            assert_eq!(u32::from(parsed.minute), reference.minute());
        }
    }
}

#[test]
fn time_of_day_seconds() {
    let t = TimeOfDay::new(19, 24);
    assert_eq!(t.seconds_into_day(), 19 * 3600 + 24 * 60);
}
