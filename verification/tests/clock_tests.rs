use kdwm::clock::{
    date_of, date_text, get_date, get_time, local_now, local_stamp, stamp_at, time_of,
    time_since_epoch, time_text, Stamp,
};

/// Days from 1970-01-01 to the given date of the proleptic Gregorian calendar.
fn days_from_civil(year: i64, month: i64, day: i64) -> i64 {
    let y = if month <= 2 { year - 1 } else { year };
    let era = y.div_euclid(400);
    let yoe = y - era * 400;
    let mp = if month > 2 { month - 3 } else { month + 9 };
    let doy = (153 * mp + 2) / 5 + day - 1;
    let doe = yoe * 365 + yoe / 4 - yoe / 100 + doy;
    era * 146097 + doe - 719468
}

fn epoch_seconds(st: &Stamp) -> i64 {
    days_from_civil(st.year as i64, st.month as i64, st.day as i64) * 86400
        + st.hour as i64 * 3600
        + st.minute as i64 * 60
        + st.second as i64
}

fn stamp(year: i32, month: u32, day: u32, hour: u32, minute: u32, second: u32, nanosecond: u32) -> Stamp {
    Stamp { year, month, day, hour, minute, second, nanosecond }
}

#[test]
fn time_is_zero_padded() {
    assert_eq!(time_text(&stamp(2024, 3, 5, 9, 5, 3, 0)), "09:05:03");
    assert_eq!(time_text(&stamp(2024, 3, 5, 23, 59, 58, 999_999_999)), "23:59:58");
}

#[test]
fn leap_second_shows_sixty() {
    assert_eq!(time_text(&stamp(2016, 12, 31, 23, 59, 59, 1_500_000_000)), "23:59:60");
}

#[test]
fn date_is_quoted_day_month_year() {
    assert_eq!(date_text(&stamp(2024, 3, 5, 0, 0, 0, 0)), "\"05 Mar 2024\"");
    assert_eq!(date_text(&stamp(2000, 2, 29, 12, 0, 0, 0)), "\"29 Feb 2000\"");
    assert_eq!(date_text(&stamp(999, 12, 1, 0, 0, 0, 0)), "\"01 Dec 0999\"");
}

#[test]
fn years_past_four_digits_carry_a_sign() {
    assert_eq!(date_text(&stamp(12345, 1, 1, 0, 0, 0, 0)), "\"01 Jan +12345\"");
    assert_eq!(date_text(&stamp(10000, 7, 4, 0, 0, 0, 0)), "\"04 Jul +10000\"");
    assert_eq!(date_text(&stamp(-44, 3, 15, 0, 0, 0, 0)), "\"15 Mar -0044\"");
    assert_eq!(date_text(&stamp(-1, 6, 30, 0, 0, 0, 0)), "\"30 Jun -0001\"");
}

#[test]
fn no_reading_gives_no_text() {
    assert_eq!(date_of(None), None);
    assert_eq!(time_of(None), None);
    let st = stamp(2024, 3, 5, 9, 5, 3, 0);
    assert_eq!(date_of(Some(st)), Some("\"05 Mar 2024\"".to_string()));
    assert_eq!(time_of(Some(st)), Some("09:05:03".to_string()));
}

#[test]
fn epoch_time_has_subsecond_nanos() {
    let (secs, nanos) = time_since_epoch().unwrap();
    assert!(secs > 1_600_000_000);
    assert!(nanos < 1_000_000_000);
}

#[test]
fn stamps_from_timestamps_are_valid() {
    let st = stamp_at(1_700_000_000, 123).unwrap();
    assert_eq!(st.nanosecond, 123);
    assert!(st.year == 2023);
    assert!((1..=12).contains(&st.month) && (1..=31).contains(&st.day));
    assert_eq!(stamp_at(u64::MAX, 0), None);
}

#[test]
fn stamps_are_the_timestamp_in_the_local_zone() {
    for secs in [0u64, 86_399, 1_000_000_000, 1_700_000_000, 4_102_444_800] {
        let st = stamp_at(secs, 7).unwrap();
        let off = epoch_seconds(&st) - secs as i64;
        assert!(-86_400 < off && off < 86_400, "{secs}: {off}");
        assert_eq!(st.nanosecond, 7);
    }
}

#[test]
fn local_stamp_follows_the_reading() {
    assert_eq!(local_stamp(None), None);
    let st = local_stamp(Some((1_700_000_000, 5))).unwrap();
    assert_eq!(st.nanosecond, 5);
    assert!((epoch_seconds(&st) - 1_700_000_000).abs() < 86_400);
    assert_eq!(local_stamp(Some((u64::MAX, 0))), None);
}

#[test]
fn now_is_a_valid_stamp() {
    let st = local_now().unwrap();
    assert!((1..=12).contains(&st.month));
    assert!((1..=31).contains(&st.day));
    assert!(st.hour < 24 && st.minute < 60 && st.second < 60);
}

#[test]
fn clock_texts_have_their_shape() {
    let t = get_time().unwrap();
    assert_eq!(t.len(), 8);
    assert_eq!(&t[2..3], ":");
    assert_eq!(&t[5..6], ":");
    let d = get_date().unwrap();
    assert!(d.starts_with('"') && d.ends_with('"'));
    assert_eq!(d.len(), 13);
}
