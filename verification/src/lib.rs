//! Boundary protocol for an immutable calendar/date-time value library.
//!
//! Temporal values (instants, plain dates and times, durations, zoned
//! date-times) cross the host boundary in their canonical ISO 8601 / IXDTF
//! string form.  This crate holds the protocol around the calendar engine:
//! marshalling of possibly-absent strings, the success/error envelope that
//! every fallible operation returns, fixed-field component snapshots,
//! sentinel-based partial updates, policy-string decoding, and release
//! (ownership) rules.  Calendar arithmetic, parsing and formatting are
//! delegated to the `temporal_rs` engine through a small set of trusted
//! wrappers.

pub mod calendar;
pub mod components;
pub mod duration;
pub mod engine;
pub mod envelope;
pub mod instant;
pub mod marshal;
pub mod plain_date;
pub mod plain_date_time;
pub mod month_day;
pub mod now;
pub mod plain_time;
pub mod policy;
pub mod textutil;
pub mod time_zone;
pub mod year_month;
pub mod zoned;

pub use components::{
    DurationComponents, PlainDateComponents, PlainDateTimeComponents, PlainMonthDayComponents,
    PlainTimeComponents, PlainYearMonthComponents, ZonedDateTimeComponents,
};
pub use calendar::{temporal_calendar_from, temporal_calendar_id};
pub use duration::{
    temporal_duration_abs, temporal_duration_add, temporal_duration_compare,
    temporal_duration_from_components, temporal_duration_from_string,
    temporal_duration_get_components, temporal_duration_negated, temporal_duration_subtract,
    temporal_duration_with, UNCHANGED_SENTINEL,
};
pub use envelope::{CompareResult, TemporalErrorType, TemporalResult};
pub use instant::{
    temporal_instant_add, temporal_instant_compare, temporal_instant_epoch_milliseconds,
    temporal_instant_epoch_nanoseconds, temporal_instant_from_epoch_milliseconds,
    temporal_instant_from_epoch_nanoseconds, temporal_instant_from_string,
    temporal_instant_subtract,
};
pub use month_day::{
    temporal_plain_month_day_from_components, temporal_plain_month_day_from_string,
    temporal_plain_month_day_get_calendar, temporal_plain_month_day_get_components,
    temporal_plain_month_day_get_month_code, temporal_plain_month_day_to_plain_date,
};
pub use now::{
    temporal_instant_now, temporal_now_plain_date_iso, temporal_now_plain_date_time_iso,
    temporal_now_plain_time_iso, temporal_now_zoned_date_time_iso,
};
pub use plain_date::{
    temporal_plain_date_add, temporal_plain_date_compare, temporal_plain_date_from_components,
    temporal_plain_date_from_string, temporal_plain_date_get_calendar,
    temporal_plain_date_get_components, temporal_plain_date_get_month_code,
    temporal_plain_date_since, temporal_plain_date_subtract, temporal_plain_date_until,
    temporal_plain_date_with,
};
pub use plain_date_time::{
    temporal_plain_date_time_add, temporal_plain_date_time_compare,
    temporal_plain_date_time_from_components, temporal_plain_date_time_from_string,
    temporal_plain_date_time_get_calendar, temporal_plain_date_time_get_components,
    temporal_plain_date_time_get_month_code, temporal_plain_date_time_since,
    temporal_plain_date_time_subtract, temporal_plain_date_time_until,
    temporal_plain_date_time_with,
};
pub use plain_time::{
    temporal_plain_time_add, temporal_plain_time_compare, temporal_plain_time_from_components,
    temporal_plain_time_from_string, temporal_plain_time_get_components,
    temporal_plain_time_subtract,
};
pub use time_zone::{
    temporal_time_zone_from_string, temporal_time_zone_get_id,
    temporal_time_zone_get_instant_for, temporal_time_zone_get_next_transition,
    temporal_time_zone_get_offset_nanoseconds_for, temporal_time_zone_get_offset_string_for,
    temporal_time_zone_get_plain_date_time_for, temporal_time_zone_get_previous_transition,
};
pub use year_month::{
    temporal_plain_year_month_add, temporal_plain_year_month_compare,
    temporal_plain_year_month_from_components, temporal_plain_year_month_from_string,
    temporal_plain_year_month_get_calendar, temporal_plain_year_month_get_components,
    temporal_plain_year_month_get_month_code, temporal_plain_year_month_since,
    temporal_plain_year_month_subtract, temporal_plain_year_month_to_plain_date,
    temporal_plain_year_month_until, temporal_plain_year_month_with,
};
pub use zoned::{
    temporal_zoned_date_time_add, temporal_zoned_date_time_compare,
    temporal_zoned_date_time_epoch_milliseconds, temporal_zoned_date_time_epoch_nanoseconds,
    temporal_zoned_date_time_from_components, temporal_zoned_date_time_from_string,
    temporal_zoned_date_time_get_calendar, temporal_zoned_date_time_get_components,
    temporal_zoned_date_time_get_offset, temporal_zoned_date_time_get_time_zone,
    temporal_zoned_date_time_round, temporal_zoned_date_time_since,
    temporal_zoned_date_time_subtract, temporal_zoned_date_time_to_instant,
    temporal_zoned_date_time_to_plain_date, temporal_zoned_date_time_to_plain_date_time,
    temporal_zoned_date_time_to_plain_time, temporal_zoned_date_time_until,
    temporal_zoned_date_time_with,
};
