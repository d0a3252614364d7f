use temporal_rn::temporal_calendar_from;
use temporal_rn::temporal_duration_add;
use temporal_rn::temporal_duration_compare;
use temporal_rn::temporal_duration_from_components;
use temporal_rn::temporal_duration_from_string;
use temporal_rn::temporal_duration_get_components;
use temporal_rn::temporal_duration_with;
use temporal_rn::temporal_instant_compare;
use temporal_rn::temporal_instant_epoch_milliseconds;
use temporal_rn::temporal_instant_epoch_nanoseconds;
use temporal_rn::temporal_instant_from_epoch_milliseconds;
use temporal_rn::temporal_instant_from_epoch_nanoseconds;
use temporal_rn::temporal_instant_from_string;
use temporal_rn::temporal_plain_date_compare;
use temporal_rn::temporal_plain_date_from_components;
use temporal_rn::temporal_plain_date_from_string;
use temporal_rn::temporal_plain_date_get_calendar;
use temporal_rn::temporal_plain_date_get_components;
use temporal_rn::temporal_plain_date_get_month_code;
use temporal_rn::temporal_plain_date_time_from_string;
use temporal_rn::temporal_plain_date_time_get_components;
use temporal_rn::temporal_plain_date_time_with;
use temporal_rn::temporal_plain_date_until;
use temporal_rn::temporal_plain_date_with;
use temporal_rn::temporal_plain_month_day_from_string;
use temporal_rn::temporal_plain_month_day_get_components;
use temporal_rn::temporal_plain_time_compare;
use temporal_rn::temporal_plain_time_from_components;
use temporal_rn::temporal_plain_time_from_string;
use temporal_rn::temporal_plain_time_get_components;
use temporal_rn::temporal_plain_year_month_add;
use temporal_rn::temporal_plain_year_month_compare;
use temporal_rn::temporal_plain_year_month_from_string;
use temporal_rn::temporal_plain_year_month_get_components;
use temporal_rn::temporal_plain_year_month_with;
use temporal_rn::temporal_time_zone_from_string;
use temporal_rn::temporal_time_zone_get_instant_for;
use temporal_rn::temporal_time_zone_get_next_transition;
use temporal_rn::temporal_time_zone_get_offset_nanoseconds_for;
use temporal_rn::temporal_zoned_date_time_compare;
use temporal_rn::temporal_zoned_date_time_epoch_milliseconds;
use temporal_rn::temporal_zoned_date_time_from_string;
use temporal_rn::temporal_zoned_date_time_get_components;
use temporal_rn::temporal_zoned_date_time_round;
use temporal_rn::temporal_zoned_date_time_to_instant;
use temporal_rn::temporal_zoned_date_time_to_plain_date;
use temporal_rn::temporal_zoned_date_time_with;
use temporal_rn::DurationComponents;
use temporal_rn::PlainDateComponents;
use temporal_rn::PlainDateTimeComponents;
use temporal_rn::PlainMonthDayComponents;
use temporal_rn::PlainTimeComponents;
use temporal_rn::PlainYearMonthComponents;
use temporal_rn::TemporalErrorType;
use temporal_rn::TemporalResult;
use temporal_rn::ZonedDateTimeComponents;
use temporal_rn::UNCHANGED_SENTINEL;

fn value_of(result: TemporalResult) -> String {
    assert_eq!(
        result.error_type,
        TemporalErrorType::NoError,
        "expected success, got: {:?}",
        result.error_message
    );
    result.value.unwrap()
}

const FIELD_SENTINEL: i32 = i32::MIN;

#[test]
fn duration_from_components_all_units() {
    let r = temporal_duration_from_components(1, 2, 3, 4, 5, 6, 7, 0, 0, 0);
    let s = value_of(r);
    let mut c = DurationComponents::default();
    temporal_duration_get_components(Some(s.as_str()), &mut c);
    assert_eq!(c.is_valid, 1);
    assert_eq!(c.years, 1);
    assert_eq!(c.months, 2);
    assert_eq!(c.weeks, 3);
    assert_eq!(c.days, 4);
    assert_eq!(c.hours, 5);
    assert_eq!(c.minutes, 6);
    assert_eq!(c.seconds, 7);
    assert_eq!(c.sign, 1);
}

#[test]
fn duration_from_components_mixed_signs() {
    let r = temporal_duration_from_components(1, -1, 0, 0, 0, 0, 0, 0, 0, 0);
    assert_eq!(r.error_type, TemporalErrorType::RangeError);
    let msg = r.error_message.unwrap();
    assert!(msg.contains("same sign"), "unexpected message: {}", msg);
}

#[test]
fn duration_add_exact() {
    let r = temporal_duration_add(Some("PT1H30M"), Some("PT2H15M"));
    assert_eq!(value_of(r), "PT3H45M");
}

#[test]
fn duration_round_trip_idempotent() {
    let once = value_of(temporal_duration_from_string(Some("pt1h30m")));
    assert_eq!(once, "PT1H30M");
    let twice = value_of(temporal_duration_from_string(Some(once.as_str())));
    assert_eq!(once, twice);
}

#[test]
fn duration_with_all_sentinels_is_identity() {
    let s = UNCHANGED_SENTINEL;
    let original = value_of(temporal_duration_from_string(Some("P1Y2M3DT4H")));
    let updated = temporal_duration_with(
        Some(original.as_str()),
        s,
        s,
        s,
        s,
        s,
        s,
        s,
        s,
        s,
        s,
    );
    assert_eq!(value_of(updated), original);
}

#[test]
fn duration_with_replaces_fields() {
    let s = UNCHANGED_SENTINEL;
    let updated = temporal_duration_with(Some("P1Y"), s, 3, s, s, s, s, s, s, s, s);
    assert_eq!(value_of(updated), "P1Y3M");
}

#[test]
fn duration_with_mixed_signs_rejected() {
    let s = UNCHANGED_SENTINEL;
    let updated = temporal_duration_with(Some("P1Y"), s, -2, s, s, s, s, s, s, s, s);
    assert_eq!(updated.error_type, TemporalErrorType::RangeError);
    assert!(updated.error_message.unwrap().contains("same sign"));
}

#[test]
fn duration_compare_time_only() {
    let r = temporal_duration_compare(Some("PT1H"), Some("PT2H"));
    assert_eq!(r.error_type, TemporalErrorType::NoError);
    assert_eq!(r.value, -1);
    let r = temporal_duration_compare(Some("PT90M"), Some("PT1H30M"));
    assert_eq!(r.value, 0);
    let r = temporal_duration_compare(Some("PT2H"), Some("PT1H"));
    assert_eq!(r.value, 1);
}

#[test]
fn duration_compare_calendar_units_rejected() {
    let r = temporal_duration_compare(Some("P1Y"), Some("PT1H"));
    assert_eq!(r.error_type, TemporalErrorType::RangeError);
    assert!(r.error_message.unwrap().contains("relativeTo"));
}

#[test]
fn duration_compare_null_is_type_error() {
    let r = temporal_duration_compare(None, Some("PT1H"));
    assert_eq!(r.error_type, TemporalErrorType::TypeError);
    assert_eq!(r.value, 0);
}

#[test]
fn release_is_idempotent() {
    let mut r = temporal_duration_from_string(Some("not-a-duration"));
    assert!(r.error_message.is_some());
    r.release();
    assert!(r.error_message.is_none());
    assert!(r.value.is_none());
    let kind = r.error_type;
    r.release();
    assert!(r.error_message.is_none());
    assert!(r.value.is_none());
    assert_eq!(r.error_type, kind);
}

#[test]
fn plain_time_from_components_valid() {
    let r = temporal_plain_time_from_components(10, 30, 45, 123, 456, 789);
    assert_eq!(value_of(r), "10:30:45.123456789");
}

#[test]
fn plain_time_from_components_hour_out_of_range() {
    let r = temporal_plain_time_from_components(24, 0, 0, 0, 0, 0);
    assert_eq!(r.error_type, TemporalErrorType::RangeError);
    assert_eq!(r.error_message.unwrap(), "Invalid hour: 24 (must be 0-23)");
}

#[test]
fn plain_time_from_components_minute_out_of_range() {
    let r = temporal_plain_time_from_components(0, 60, 0, 0, 0, 0);
    assert_eq!(r.error_type, TemporalErrorType::RangeError);
    assert_eq!(r.error_message.unwrap(), "Invalid minute: 60 (must be 0-59)");
}

#[test]
fn plain_time_normalizes() {
    let r = temporal_plain_time_from_string(Some("12:34"));
    assert_eq!(value_of(r), "12:34:00");
}

#[test]
fn plain_time_components_snapshot() {
    let mut c = PlainTimeComponents::default();
    temporal_plain_time_get_components(Some("10:30:45.123456789"), &mut c);
    assert_eq!(c.is_valid, 1);
    assert_eq!(c.hour, 10);
    assert_eq!(c.minute, 30);
    assert_eq!(c.second, 45);
    assert_eq!(c.millisecond, 123);
    assert_eq!(c.microsecond, 456);
    assert_eq!(c.nanosecond, 789);
}

#[test]
fn plain_time_components_invalid_all_zero() {
    let mut c = PlainTimeComponents::default();
    c.hour = 9;
    c.is_valid = 1;
    temporal_plain_time_get_components(Some("bad"), &mut c);
    assert_eq!(c, PlainTimeComponents::default());
}

#[test]
fn plain_time_compare_orders_fields() {
    let r = temporal_plain_time_compare(Some("09:00"), Some("10:00"));
    assert_eq!(r.value, -1);
    let r = temporal_plain_time_compare(Some("10:00:01"), Some("10:00:00"));
    assert_eq!(r.value, 1);
}

#[test]
fn plain_date_with_all_sentinels_is_identity() {
    let r = temporal_plain_date_with(
        Some("2024-02-29"),
        FIELD_SENTINEL,
        FIELD_SENTINEL,
        FIELD_SENTINEL,
        None,
    );
    assert_eq!(value_of(r), "2024-02-29");
}

#[test]
fn plain_date_with_replaces_day() {
    let r = temporal_plain_date_with(Some("2024-02-29"), FIELD_SENTINEL, 3, 1, None);
    assert_eq!(value_of(r), "2024-03-01");
}

#[test]
fn plain_date_components_snapshot() {
    let mut c = PlainDateComponents::default();
    temporal_plain_date_get_components(Some("2024-02-29"), &mut c);
    assert_eq!(c.is_valid, 1);
    assert_eq!(c.year, 2024);
    assert_eq!(c.month, 2);
    assert_eq!(c.day, 29);
    assert_eq!(c.in_leap_year, 1);
    assert_eq!(c.days_in_month, 29);
    assert_eq!(c.months_in_year, 12);
}

#[test]
fn plain_date_components_invalid_all_zero() {
    let mut c = PlainDateComponents::default();
    c.year = 1999;
    c.is_valid = 1;
    temporal_plain_date_get_components(Some("2024-13-01"), &mut c);
    assert_eq!(c, PlainDateComponents::default());
}

#[test]
fn plain_date_month_code_and_calendar() {
    let r = temporal_plain_date_get_month_code(Some("2024-02-29"));
    assert_eq!(value_of(r), "M02");
    let r = temporal_plain_date_get_calendar(Some("2024-02-29"));
    assert_eq!(value_of(r), "iso8601");
}

#[test]
fn plain_date_from_components_rejects_bad_day() {
    let r = temporal_plain_date_from_components(2023, 2, 29, None);
    assert_eq!(r.error_type, TemporalErrorType::RangeError);
    assert!(r.error_message.unwrap().starts_with("Invalid plain date components: "));
}

#[test]
fn plain_date_compare_is_chronological() {
    let r = temporal_plain_date_compare(Some("2024-02-29"), Some("2024-03-01"));
    assert_eq!(r.value, -1);
    let r = temporal_plain_date_compare(Some("2024-03-01"), Some("2024-03-01"));
    assert_eq!(r.value, 0);
}

#[test]
fn plain_date_until_exact() {
    let r = temporal_plain_date_until(Some("2024-01-01"), Some("2024-01-31"));
    assert_eq!(value_of(r), "P30D");
}

#[test]
fn plain_date_basic_format_normalizes() {
    let r = temporal_plain_date_from_string(Some("20240229"));
    assert_eq!(value_of(r), "2024-02-29");
}

#[test]
fn plain_date_time_with_all_sentinels_is_identity() {
    let original = value_of(temporal_plain_date_time_from_string(Some("2024-02-29T10:30:45")));
    let r = temporal_plain_date_time_with(
        Some(original.as_str()),
        FIELD_SENTINEL,
        FIELD_SENTINEL,
        FIELD_SENTINEL,
        FIELD_SENTINEL,
        FIELD_SENTINEL,
        FIELD_SENTINEL,
        FIELD_SENTINEL,
        FIELD_SENTINEL,
        FIELD_SENTINEL,
        None,
    );
    assert_eq!(value_of(r), original);
}

#[test]
fn plain_date_time_components_snapshot() {
    let mut c = PlainDateTimeComponents::default();
    temporal_plain_date_time_get_components(Some("2024-02-29T10:30:45.5"), &mut c);
    assert_eq!(c.is_valid, 1);
    assert_eq!(c.year, 2024);
    assert_eq!(c.hour, 10);
    assert_eq!(c.millisecond, 500);
}

#[test]
fn plain_date_time_components_invalid_all_zero() {
    let mut c = PlainDateTimeComponents::default();
    c.day = 7;
    c.is_valid = 1;
    temporal_plain_date_time_get_components(None, &mut c);
    assert_eq!(c, PlainDateTimeComponents::default());
}

#[test]
fn year_month_with_all_sentinels_is_identity() {
    let r = temporal_plain_year_month_with(
        Some("2024-05"),
        FIELD_SENTINEL,
        FIELD_SENTINEL,
        None,
    );
    assert_eq!(value_of(r), "2024-05");
}

#[test]
fn year_month_add_and_compare() {
    let r = temporal_plain_year_month_add(Some("2024-05"), Some("P2M"));
    assert_eq!(value_of(r), "2024-07");
    let r = temporal_plain_year_month_compare(Some("2024-05"), Some("2024-07"));
    assert_eq!(r.value, -1);
}

#[test]
fn year_month_components_snapshot() {
    let mut c = PlainYearMonthComponents::default();
    temporal_plain_year_month_get_components(Some("2024-02"), &mut c);
    assert_eq!(c.is_valid, 1);
    assert_eq!(c.year, 2024);
    assert_eq!(c.month, 2);
    assert_eq!(c.days_in_month, 29);
    assert_eq!(c.in_leap_year, 1);
    assert_eq!(c.day, 0);
}

#[test]
fn month_day_components_snapshot() {
    let mut c = PlainMonthDayComponents::default();
    temporal_plain_month_day_get_components(Some("12-25"), &mut c);
    assert_eq!(c.is_valid, 1);
    assert_eq!(c.month, 12);
    assert_eq!(c.day, 25);
}

#[test]
fn month_day_round_trip() {
    let r = temporal_plain_month_day_from_string(Some("12-25"));
    assert_eq!(value_of(r), "12-25");
}

#[test]
fn instant_normalizes_offset_to_utc() {
    let r = temporal_instant_from_string(Some("2024-01-15T10:30:45+00:00"));
    assert_eq!(value_of(r), "2024-01-15T10:30:45Z");
}

#[test]
fn instant_epoch_values() {
    let r = temporal_instant_from_epoch_milliseconds(1000);
    assert_eq!(value_of(r), "1970-01-01T00:00:01Z");
    let r = temporal_instant_epoch_milliseconds(Some("1970-01-01T00:00:01Z"));
    assert_eq!(value_of(r), "1000");
    let r = temporal_instant_epoch_nanoseconds(Some("1970-01-01T00:00:01Z"));
    assert_eq!(value_of(r), "1000000000");
}

#[test]
fn instant_epoch_milliseconds_floor_for_negative() {
    let r = temporal_instant_from_epoch_milliseconds(-1500);
    let s = value_of(r);
    let r = temporal_instant_epoch_milliseconds(Some(s.as_str()));
    assert_eq!(value_of(r), "-1500");
}

#[test]
fn instant_from_epoch_nanoseconds_string() {
    let r = temporal_instant_from_epoch_nanoseconds(Some("1000000000"));
    assert_eq!(value_of(r), "1970-01-01T00:00:01Z");
    let r = temporal_instant_from_epoch_nanoseconds(Some("junk"));
    assert_eq!(r.error_type, TemporalErrorType::RangeError);
    assert_eq!(r.error_message.unwrap(), "Invalid nanoseconds string");
    let r = temporal_instant_from_epoch_nanoseconds(None);
    assert_eq!(r.error_type, TemporalErrorType::TypeError);
}

#[test]
fn instant_compare_orders_timeline() {
    let r = temporal_instant_compare(
        Some("1970-01-01T00:00:00Z"),
        Some("1970-01-01T00:00:01Z"),
    );
    assert_eq!(r.value, -1);
}

#[test]
fn time_zone_normalizes_identifier() {
    let r = temporal_time_zone_from_string(Some("america/new_york"));
    assert_eq!(value_of(r), "America/New_York");
}

#[test]
fn time_zone_offset_nanoseconds() {
    let r = temporal_time_zone_get_offset_nanoseconds_for(
        Some("UTC"),
        Some("2024-01-15T10:30:45Z"),
    );
    assert_eq!(value_of(r), "0");
}

#[test]
fn time_zone_instant_for_resolves_wall_clock() {
    let r = temporal_time_zone_get_instant_for(
        Some("UTC"),
        Some("2024-06-15T12:00:00"),
        Some("compatible"),
    );
    assert_eq!(value_of(r), "2024-06-15T12:00:00Z");
}

#[test]
fn time_zone_transitions_unimplemented() {
    let r = temporal_time_zone_get_next_transition(
        Some("America/New_York"),
        Some("2024-01-15T10:30:45Z"),
    );
    assert_eq!(value_of(r), "");
}

#[test]
fn zoned_date_time_round_trips() {
    let r = temporal_zoned_date_time_from_string(
        Some("2025-03-01T11:16:10+01:00[Europe/Zurich]"),
    );
    let s = value_of(r);
    let again = value_of(temporal_zoned_date_time_from_string(Some(s.as_str())));
    assert_eq!(s, again);
}

#[test]
fn zoned_date_time_components_snapshot() {
    let mut c = ZonedDateTimeComponents::default();
    temporal_zoned_date_time_get_components(
        Some("2025-03-01T11:16:10+01:00[Europe/Zurich]"),
        &mut c,
    );
    assert_eq!(c.is_valid, 1);
    assert_eq!(c.year, 2025);
    assert_eq!(c.month, 3);
    assert_eq!(c.day, 1);
    assert_eq!(c.hour, 11);
    assert_eq!(c.offset_nanoseconds, 3_600_000_000_000);
}

#[test]
fn zoned_date_time_epoch_and_instant() {
    let r = temporal_zoned_date_time_epoch_milliseconds(
        Some("1970-01-01T00:00:01+00:00[UTC]"),
    );
    assert_eq!(value_of(r), "1000");
    let r = temporal_zoned_date_time_to_instant(Some("1970-01-01T00:00:01+00:00[UTC]"));
    assert_eq!(value_of(r), "1970-01-01T00:00:01Z");
}

#[test]
fn zoned_date_time_compare_by_instant() {
    let r = temporal_zoned_date_time_compare(
        Some("2024-01-15T10:00:00+00:00[UTC]"),
        Some("2024-01-15T11:00:00+00:00[UTC]"),
    );
    assert_eq!(r.value, -1);
}

#[test]
fn zoned_date_time_round_to_hour() {
    let r = temporal_zoned_date_time_round(
        Some("2024-01-15T10:31:45+00:00[UTC]"),
        Some("hour"),
        1,
        Some("halfExpand"),
    );
    assert_eq!(value_of(r), "2024-01-15T11:00:00+00:00[UTC]");
}

#[test]
fn zoned_date_time_round_requires_unit() {
    let r = temporal_zoned_date_time_round(
        Some("2024-01-15T10:31:45+00:00[UTC]"),
        None,
        1,
        None,
    );
    assert_eq!(r.error_type, TemporalErrorType::TypeError);
    assert_eq!(r.error_message.unwrap(), "smallestUnit is required");
}

#[test]
fn zoned_date_time_round_rejects_bad_unit() {
    let r = temporal_zoned_date_time_round(
        Some("2024-01-15T10:31:45+00:00[UTC]"),
        Some("fortnight"),
        1,
        None,
    );
    assert_eq!(r.error_type, TemporalErrorType::RangeError);
    assert_eq!(r.error_message.unwrap(), "Invalid smallest unit: fortnight");
}

#[test]
fn zoned_date_time_with_replaces_hour() {
    let r = temporal_zoned_date_time_with(
        Some("2024-01-15T10:30:45+00:00[UTC]"),
        FIELD_SENTINEL,
        FIELD_SENTINEL,
        FIELD_SENTINEL,
        7,
        FIELD_SENTINEL,
        FIELD_SENTINEL,
        FIELD_SENTINEL,
        FIELD_SENTINEL,
        FIELD_SENTINEL,
        0,
        None,
        None,
    );
    assert_eq!(value_of(r), "2024-01-15T07:30:45+00:00[UTC]");
}

#[test]
fn zoned_date_time_to_plain_date_drops_zone() {
    let r = temporal_zoned_date_time_to_plain_date(
        Some("2025-03-01T11:16:10+01:00[Europe/Zurich]"),
    );
    assert_eq!(value_of(r), "2025-03-01");
}

#[test]
fn calendar_identifier_round_trip() {
    let r = temporal_calendar_from(Some("gregory"));
    assert_eq!(value_of(r), "gregory");
    let r = temporal_calendar_from(Some("nope"));
    assert_eq!(r.error_type, TemporalErrorType::RangeError);
    let msg = r.error_message.unwrap();
    assert!(msg.contains("nope"), "message should embed input: {}", msg);
}

#[test]
fn now_operations_envelope_shape() {
    let r = temporal_rn::temporal_now_plain_date_iso(None);
    assert_eq!(r.error_type, TemporalErrorType::TypeError);
    assert_eq!(r.error_message.unwrap(), "timezone id cannot be null");
    let r = temporal_rn::temporal_now_plain_date_time_iso(Some("UTC"));
    assert_eq!(r.error_type, TemporalErrorType::NoError);
    assert!(r.value.unwrap().contains('T'));
}

#[test]
fn disambiguation_falls_back_to_compatible() {
    let lenient = temporal_time_zone_get_instant_for(
        Some("UTC"),
        Some("2024-06-15T12:00:00"),
        Some("nonsense"),
    );
    let default = temporal_time_zone_get_instant_for(Some("UTC"), Some("2024-06-15T12:00:00"), None);
    assert_eq!(value_of(lenient), value_of(default));
}

#[test]
fn compare_release_is_idempotent() {
    let mut r = temporal_duration_compare(Some("P1Y"), Some("PT1H"));
    assert!(r.error_message.is_some());
    r.release();
    assert!(r.error_message.is_none());
    let kind = r.error_type;
    r.release();
    assert!(r.error_message.is_none());
    assert_eq!(r.error_type, kind);
}

#[test]
fn null_safety_across_operations() {
    assert_eq!(
        temporal_plain_date_from_string(None).error_type,
        TemporalErrorType::TypeError
    );
    assert_eq!(
        temporal_plain_time_from_string(None).error_type,
        TemporalErrorType::TypeError
    );
    assert_eq!(
        temporal_instant_from_string(None).error_type,
        TemporalErrorType::TypeError
    );
    assert_eq!(
        temporal_zoned_date_time_from_string(None).error_type,
        TemporalErrorType::TypeError
    );
    assert_eq!(
        temporal_plain_year_month_from_string(None).error_type,
        TemporalErrorType::TypeError
    );
    assert_eq!(
        temporal_plain_month_day_from_string(None).error_type,
        TemporalErrorType::TypeError
    );
    assert_eq!(temporal_calendar_from(None).error_type, TemporalErrorType::TypeError);
    assert_eq!(
        temporal_time_zone_from_string(None).error_type,
        TemporalErrorType::TypeError
    );
}
