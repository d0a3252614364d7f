//! Trusted wrappers around the `temporal_rs` calendar engine.
//!
//! Every value crossing this boundary is a plain Rust value: a string in
//! canonical ISO 8601 / IXDTF form, or a record of integers.  Each wrapper
//! makes one engine operation available to verified code; what the engine
//! returns for given arguments is given a name (an uninterpreted spec
//! function), and the wrapper's contract ties the call's outcome to that
//! name.  Facts stated beside the names are limited to what the engine's
//! source plainly shows: canonical output reparses to itself, a parsed
//! duration's fields share one sign and are bounded, and a value
//! reconstructed from its own fields is the same value.

use core::str::FromStr;

use temporal_rs::options::{
    DifferenceSettings, Disambiguation, DisplayCalendar, DisplayOffset, DisplayTimeZone,
    OffsetDisambiguation, Overflow, RoundingIncrement, RoundingMode, RoundingOptions,
    ToStringRoundingOptions, Unit,
};
use temporal_rs::{
    Calendar, Duration, Instant, PlainDate, PlainDateTime, PlainMonthDay, PlainTime,
    PlainYearMonth, Temporal, TimeZone, ZonedDateTime,
};
use vstd::prelude::*;

verus! {

/// The view of a string-to-string outcome: both sides as character
/// sequences.
pub open spec fn sview(r: Result<String, String>) -> Result<Seq<char>, Seq<char>> {
    match r {
        Ok(v) => Ok(v@),
        Err(e) => Err(e@),
    }
}

/// The ten numeric fields of a duration, exactly as the engine stores
/// them: calendar and clock fields in 64 bits, sub-millisecond fields in
/// 128 bits.
#[derive(Debug, Clone, Copy, PartialEq, Eq, Structural)]
pub struct DurationParts {
    pub years: i64,
    pub months: i64,
    pub weeks: i64,
    pub days: i64,
    pub hours: i64,
    pub minutes: i64,
    pub seconds: i64,
    pub milliseconds: i64,
    pub microseconds: i128,
    pub nanoseconds: i128,
}

/// Outcome of parsing a duration string and re-serializing it
/// canonically: the canonical string, or the engine's error description.
pub uninterp spec fn dur_parse(s: Seq<char>) -> Result<Seq<char>, Seq<char>>;

/// The numeric fields of the duration denoted by `s`, when `s` parses.
pub uninterp spec fn dur_parts(s: Seq<char>) -> Option<DurationParts>;

/// Outcome of constructing a duration from ten numeric fields: the
/// canonical string of the new value, or the engine's error description.
pub uninterp spec fn dur_new(
    years: int,
    months: int,
    weeks: int,
    days: int,
    hours: int,
    minutes: int,
    seconds: int,
    milliseconds: int,
    microseconds: int,
    nanoseconds: int,
) -> Result<Seq<char>, Seq<char>>;

/// `dur_new` applied to the fields of a parts record.
pub open spec fn dur_new_of(p: DurationParts) -> Result<Seq<char>, Seq<char>> {
    dur_new(
        p.years as int,
        p.months as int,
        p.weeks as int,
        p.days as int,
        p.hours as int,
        p.minutes as int,
        p.seconds as int,
        p.milliseconds as int,
        p.microseconds as int,
        p.nanoseconds as int,
    )
}

/// Outcome of adding the durations denoted by `a` and `b`.
pub uninterp spec fn dur_add(a: Seq<char>, b: Seq<char>) -> Result<Seq<char>, Seq<char>>;

/// Outcome of subtracting the duration denoted by `b` from `a`.
pub uninterp spec fn dur_subtract(a: Seq<char>, b: Seq<char>) -> Result<Seq<char>, Seq<char>>;

/// Outcome of negating the duration denoted by `s`.
pub uninterp spec fn dur_negated(s: Seq<char>) -> Result<Seq<char>, Seq<char>>;

/// Outcome of taking the absolute value of the duration denoted by `s`.
pub uninterp spec fn dur_abs(s: Seq<char>) -> Result<Seq<char>, Seq<char>>;

/// Magnitude bound the engine enforces on the sub-millisecond fields of a
/// valid duration (a little above 2^53 seconds in nanoseconds).
pub open spec fn dur_subsecond_bound() -> int {
    18_014_398_509_481_984_000_000_000
}

/// The engine invariant on a stored duration's fields: no two fields have
/// opposite signs, the calendar fields fit in 32 bits, and the
/// sub-millisecond fields are bounded.
pub open spec fn dur_parts_wf(p: DurationParts) -> bool {
    &&& (p.years >= 0 && p.months >= 0 && p.weeks >= 0 && p.days >= 0 && p.hours >= 0
        && p.minutes >= 0 && p.seconds >= 0 && p.milliseconds >= 0 && p.microseconds >= 0
        && p.nanoseconds >= 0) || (p.years <= 0 && p.months <= 0 && p.weeks <= 0 && p.days <= 0
        && p.hours <= 0 && p.minutes <= 0 && p.seconds <= 0 && p.milliseconds <= 0
        && p.microseconds <= 0 && p.nanoseconds <= 0)
    &&& -(u32::MAX as int) <= p.years as int <= u32::MAX as int
    &&& -(u32::MAX as int) <= p.months as int <= u32::MAX as int
    &&& -(u32::MAX as int) <= p.weeks as int <= u32::MAX as int
    &&& -dur_subsecond_bound() <= p.microseconds as int <= dur_subsecond_bound()
    &&& -dur_subsecond_bound() <= p.nanoseconds as int <= dur_subsecond_bound()
}

/// Relies on `temporal_rs::Duration`: `from_str` parses ISO 8601 duration
/// text, and the `Display` impl serializes the parsed value canonically.
/// Both depend on the characters alone, and a canonical serialization
/// reparses to itself.
#[verifier::external_body]
pub fn eng_duration_parse(s: &str) -> (r: Result<String, String>)
    ensures
        sview(r) == dur_parse(s@),
        (r matches Ok(c) ==> dur_parse(c@) == Ok::<Seq<char>, Seq<char>>(c@)),
{
    match Duration::from_str(s) {
        Ok(d) => Ok(d.to_string()),
        Err(e) => Err(e.to_string()),
    }
}

/// Relies on `temporal_rs::Duration::from_str` and the per-field accessors
/// (`years` through `nanoseconds`): the accessors return the stored
/// fields, which share one sign and obey the engine's validity bounds, and
/// `Duration::new` on exactly these fields rebuilds the same value.
#[verifier::external_body]
pub fn eng_duration_parts(s: &str) -> (r: Result<DurationParts, String>)
    ensures
        (r matches Ok(p) ==> {
            &&& dur_parts(s@) == Some(p)
            &&& dur_parts_wf(p)
            &&& dur_new_of(p) == dur_parse(s@)
        }),
        r is Ok <==> dur_parse(s@) is Ok,
        r is Ok <==> dur_parts(s@) is Some,
        (r matches Err(e) ==> dur_parse(s@) == Err::<Seq<char>, Seq<char>>(e@)),
{
    match Duration::from_str(s) {
        Ok(d) => Ok(DurationParts {
            years: d.years(),
            months: d.months(),
            weeks: d.weeks(),
            days: d.days(),
            hours: d.hours(),
            minutes: d.minutes(),
            seconds: d.seconds(),
            milliseconds: d.milliseconds(),
            microseconds: d.microseconds(),
            nanoseconds: d.nanoseconds(),
        }),
        Err(e) => Err(e.to_string()),
    }
}

/// Relies on `temporal_rs::Duration::new`: validates ten fields and builds
/// the duration they denote; the `Display` impl serializes it canonically,
/// and that serialization reparses to itself.
#[verifier::external_body]
pub fn eng_duration_new(p: DurationParts) -> (r: Result<String, String>)
    ensures
        sview(r) == dur_new(
            p.years as int,
            p.months as int,
            p.weeks as int,
            p.days as int,
            p.hours as int,
            p.minutes as int,
            p.seconds as int,
            p.milliseconds as int,
            p.microseconds as int,
            p.nanoseconds as int,
        ),
        sview(r) == dur_new_of(p),
        (r matches Ok(c) ==> dur_parse(c@) == Ok::<Seq<char>, Seq<char>>(c@)),
{
    match Duration::new(
        p.years,
        p.months,
        p.weeks,
        p.days,
        p.hours,
        p.minutes,
        p.seconds,
        p.milliseconds,
        p.microseconds,
        p.nanoseconds,
    ) {
        Ok(d) => Ok(d.to_string()),
        Err(e) => Err(e.to_string()),
    }
}

/// Relies on `temporal_rs::Duration::add`: the sum of the durations the
/// two strings denote, serialized canonically.
#[verifier::external_body]
pub fn eng_duration_add(a: &str, b: &str) -> (r: Result<String, String>)
    ensures
        sview(r) == dur_add(a@, b@),
{
    let da = match Duration::from_str(a) {
        Ok(d) => d,
        Err(e) => return Err(e.to_string()),
    };
    let db = match Duration::from_str(b) {
        Ok(d) => d,
        Err(e) => return Err(e.to_string()),
    };
    match da.add(&db) {
        Ok(d) => Ok(d.to_string()),
        Err(e) => Err(e.to_string()),
    }
}

/// Relies on `temporal_rs::Duration::subtract`: the difference of the
/// durations the two strings denote, serialized canonically.
#[verifier::external_body]
pub fn eng_duration_subtract(a: &str, b: &str) -> (r: Result<String, String>)
    ensures
        sview(r) == dur_subtract(a@, b@),
{
    let da = match Duration::from_str(a) {
        Ok(d) => d,
        Err(e) => return Err(e.to_string()),
    };
    let db = match Duration::from_str(b) {
        Ok(d) => d,
        Err(e) => return Err(e.to_string()),
    };
    match da.subtract(&db) {
        Ok(d) => Ok(d.to_string()),
        Err(e) => Err(e.to_string()),
    }
}

/// Relies on `temporal_rs::Duration::negated`: sign-flips the duration the
/// string denotes.  Negation itself cannot fail, so the call succeeds
/// exactly when the input parses.
#[verifier::external_body]
pub fn eng_duration_negated(s: &str) -> (r: Result<String, String>)
    ensures
        sview(r) == dur_negated(s@),
        r is Ok <==> dur_parse(s@) is Ok,
        (r matches Err(e) ==> dur_parse(s@) == Err::<Seq<char>, Seq<char>>(e@)),
{
    match Duration::from_str(s) {
        Ok(d) => Ok(d.negated().to_string()),
        Err(e) => Err(e.to_string()),
    }
}

/// Relies on `temporal_rs::Duration::abs`: strips the sign of the duration
/// the string denotes.  Taking the absolute value cannot fail, so the call
/// succeeds exactly when the input parses.
#[verifier::external_body]
pub fn eng_duration_abs(s: &str) -> (r: Result<String, String>)
    ensures
        sview(r) == dur_abs(s@),
        r is Ok <==> dur_parse(s@) is Ok,
        (r matches Err(e) ==> dur_parse(s@) == Err::<Seq<char>, Seq<char>>(e@)),
{
    match Duration::from_str(s) {
        Ok(d) => Ok(d.abs().to_string()),
        Err(e) => Err(e.to_string()),
    }
}

/// The six numeric fields of a wall-clock time.
#[derive(Debug, Clone, Copy, PartialEq, Eq, Structural)]
pub struct TimeParts {
    pub hour: u8,
    pub minute: u8,
    pub second: u8,
    pub millisecond: u16,
    pub microsecond: u16,
    pub nanosecond: u16,
}

/// Whether six time fields lie in their calendar-free legal ranges.
pub open spec fn time_fields_in_range(
    hour: int,
    minute: int,
    second: int,
    millisecond: int,
    microsecond: int,
    nanosecond: int,
) -> bool {
    &&& 0 <= hour <= 23
    &&& 0 <= minute <= 59
    &&& 0 <= second <= 59
    &&& 0 <= millisecond <= 999
    &&& 0 <= microsecond <= 999
    &&& 0 <= nanosecond <= 999
}

/// Outcome of parsing a plain-time string and re-serializing it
/// canonically.
pub uninterp spec fn time_parse(s: Seq<char>) -> Result<Seq<char>, Seq<char>>;

/// The numeric fields of the time denoted by `s`, when `s` parses.
pub uninterp spec fn time_parts(s: Seq<char>) -> Option<TimeParts>;

/// Outcome of constructing a time from six fields, rejecting out-of-range
/// values.
pub uninterp spec fn time_new(
    hour: int,
    minute: int,
    second: int,
    millisecond: int,
    microsecond: int,
    nanosecond: int,
) -> Result<Seq<char>, Seq<char>>;

/// Outcome of adding the duration denoted by `d` to the time denoted by
/// `t`.
pub uninterp spec fn time_add(t: Seq<char>, d: Seq<char>) -> Result<Seq<char>, Seq<char>>;

/// Outcome of subtracting the duration denoted by `d` from the time
/// denoted by `t`.
pub uninterp spec fn time_subtract(t: Seq<char>, d: Seq<char>) -> Result<Seq<char>, Seq<char>>;

/// Relies on `temporal_rs::PlainTime`: `from_str` parses ISO 8601 time
/// text and `to_ixdtf_string` with default options serializes the value
/// canonically.  A canonical serialization reparses to itself.
#[verifier::external_body]
pub fn eng_time_parse(s: &str) -> (r: Result<String, String>)
    ensures
        sview(r) == time_parse(s@),
        (r matches Ok(c) ==> time_parse(c@) == Ok::<Seq<char>, Seq<char>>(c@)),
{
    match PlainTime::from_str(s) {
        Ok(t) => match t.to_ixdtf_string(ToStringRoundingOptions::default())
        {
            Ok(v) => Ok(v),
            Err(e) => Err(e.to_string()),
        },
        Err(e) => Err(e.to_string()),
    }
}

/// Relies on `temporal_rs::PlainTime::from_str` and the accessors `hour`
/// through `nanosecond`: they return the stored fields, which are always
/// within their legal ranges, and `try_new` on exactly these fields
/// rebuilds the same value.
#[verifier::external_body]
pub fn eng_time_parts(s: &str) -> (r: Result<TimeParts, String>)
    ensures
        (r matches Ok(p) ==> {
            &&& time_parts(s@) == Some(p)
            &&& time_fields_in_range(
                p.hour as int,
                p.minute as int,
                p.second as int,
                p.millisecond as int,
                p.microsecond as int,
                p.nanosecond as int,
            )
            &&& time_new(
                p.hour as int,
                p.minute as int,
                p.second as int,
                p.millisecond as int,
                p.microsecond as int,
                p.nanosecond as int,
            ) == time_parse(s@)
        }),
        r is Ok <==> time_parse(s@) is Ok,
        r is Ok <==> time_parts(s@) is Some,
        (r matches Err(e) ==> time_parse(s@) == Err::<Seq<char>, Seq<char>>(e@)),
{
    match PlainTime::from_str(s) {
        Ok(t) => Ok(TimeParts {
            hour: t.hour(),
            minute: t.minute(),
            second: t.second(),
            millisecond: t.millisecond(),
            microsecond: t.microsecond(),
            nanosecond: t.nanosecond(),
        }),
        Err(e) => Err(e.to_string()),
    }
}

/// Relies on `temporal_rs::PlainTime::try_new`: builds a time from six
/// fields, rejecting exactly the out-of-range ones, and serializes it
/// canonically with default options.
#[verifier::external_body]
pub fn eng_time_new(
    hour: u8,
    minute: u8,
    second: u8,
    millisecond: u16,
    microsecond: u16,
    nanosecond: u16,
) -> (r: Result<String, String>)
    ensures
        sview(r) == time_new(
            hour as int,
            minute as int,
            second as int,
            millisecond as int,
            microsecond as int,
            nanosecond as int,
        ),
        time_fields_in_range(
            hour as int,
            minute as int,
            second as int,
            millisecond as int,
            microsecond as int,
            nanosecond as int,
        ) ==> r is Ok,
{
    match PlainTime::try_new(
        hour,
        minute,
        second,
        millisecond,
        microsecond,
        nanosecond,
    ) {
        Ok(t) => match t.to_ixdtf_string(ToStringRoundingOptions::default())
        {
            Ok(v) => Ok(v),
            Err(e) => Err(e.to_string()),
        },
        Err(e) => Err(e.to_string()),
    }
}

/// Relies on `temporal_rs::PlainTime::add`: adds a duration to a time,
/// serializing the result canonically with default options.
#[verifier::external_body]
pub fn eng_time_add(t: &str, d: &str) -> (r: Result<String, String>)
    ensures
        sview(r) == time_add(t@, d@),
{
    let time = match PlainTime::from_str(t) { Ok(v) => v, Err(e) => return Err(e.to_string()) };
    let dur = match Duration::from_str(d) { Ok(v) => v, Err(e) => return Err(e.to_string()) };
    match time.add(&dur) {
        Ok(v) => match v.to_ixdtf_string(ToStringRoundingOptions::default()) {
            Ok(s) => Ok(s),
            Err(e) => Err(e.to_string()),
        },
        Err(e) => Err(e.to_string()),
    }
}

/// Relies on `temporal_rs::PlainTime::subtract`: subtracts a duration
/// from a time, serializing the result canonically with default options.
#[verifier::external_body]
pub fn eng_time_subtract(t: &str, d: &str) -> (r: Result<String, String>)
    ensures
        sview(r) == time_subtract(t@, d@),
{
    let time = match PlainTime::from_str(t) { Ok(v) => v, Err(e) => return Err(e.to_string()) };
    let dur = match Duration::from_str(d) { Ok(v) => v, Err(e) => return Err(e.to_string()) };
    match time.subtract(&dur) {
        Ok(v) => match v.to_ixdtf_string(ToStringRoundingOptions::default()) {
            Ok(s) => Ok(s),
            Err(e) => Err(e.to_string()),
        },
        Err(e) => Err(e.to_string()),
    }
}

/// The view of a possibly-absent string argument.
pub open spec fn oview(o: Option<&str>) -> Option<Seq<char>> {
    match o {
        Some(s) => Some(s@),
        None => None,
    }
}

/// The numeric fields of a calendar date.
#[derive(Debug, Clone, Copy)]
pub struct DateParts {
    pub year: i32,
    pub month: u8,
    pub day: u8,
    pub day_of_week: u16,
    pub day_of_year: u16,
    pub week_of_year: Option<u8>,
    pub year_of_week: Option<i32>,
    pub days_in_week: u16,
    pub days_in_month: u16,
    pub days_in_year: u16,
    pub months_in_year: u16,
    pub in_leap_year: bool,
}

/// Outcome of resolving a calendar identifier: the canonical identifier,
/// or the engine's error description.
pub uninterp spec fn cal_parse(s: Seq<char>) -> Result<Seq<char>, Seq<char>>;

/// Outcome of parsing a plain-date string and re-serializing it
/// canonically.
pub uninterp spec fn date_parse(s: Seq<char>) -> Result<Seq<char>, Seq<char>>;

/// The numeric fields of the date denoted by `s`, when `s` parses.
pub uninterp spec fn date_parts(s: Seq<char>) -> Option<DateParts>;

/// The canonical calendar identifier of the date denoted by `s`.
pub uninterp spec fn date_cal_id(s: Seq<char>) -> Seq<char>;

/// The month code of the date denoted by `s`.
pub uninterp spec fn date_month_code(s: Seq<char>) -> Seq<char>;

/// Outcome of constructing a date from year, month, day and an optional
/// calendar identifier (ISO 8601 when absent).
pub uninterp spec fn date_new(
    year: int,
    month: int,
    day: int,
    calendar: Option<Seq<char>>,
) -> Result<Seq<char>, Seq<char>>;

/// Outcome of adding the duration denoted by `d` to the date denoted by
/// `t`.
pub uninterp spec fn date_add(t: Seq<char>, d: Seq<char>) -> Result<Seq<char>, Seq<char>>;

/// Outcome of subtracting the duration denoted by `d` from the date
/// denoted by `t`.
pub uninterp spec fn date_subtract(t: Seq<char>, d: Seq<char>) -> Result<Seq<char>, Seq<char>>;

/// Outcome of the difference from the date denoted by `a` to the date
/// denoted by `b`, as a duration string.
pub uninterp spec fn date_until(a: Seq<char>, b: Seq<char>) -> Result<Seq<char>, Seq<char>>;

/// Outcome of the difference since the date denoted by `b`, seen from the
/// date denoted by `a`, as a duration string.
pub uninterp spec fn date_since(a: Seq<char>, b: Seq<char>) -> Result<Seq<char>, Seq<char>>;

/// The pure ISO form (no calendar annotation) of the date denoted by `s`.
pub uninterp spec fn date_iso_form(s: Seq<char>) -> Result<Seq<char>, Seq<char>>;

/// Relies on `temporal_rs::Calendar::from_str` and
/// `Calendar::identifier`: resolves a calendar identifier to its
/// canonical form, which resolves to itself.
#[verifier::external_body]
pub fn eng_calendar_parse(s: &str) -> (r: Result<String, String>)
    ensures
        sview(r) == cal_parse(s@),
        (r matches Ok(c) ==> cal_parse(c@) == Ok::<Seq<char>, Seq<char>>(c@)),
{
    match Calendar::from_str(s) {
        Ok(c) => Ok(String::from(c.identifier())),
        Err(e) => Err(e.to_string()),
    }
}

/// Relies on `temporal_rs::PlainDate`: `from_str` parses ISO 8601 date
/// text and `to_ixdtf_string` serializes the value canonically with its
/// calendar annotation shown when needed.  A canonical serialization
/// reparses to itself.
#[verifier::external_body]
pub fn eng_date_parse(s: &str) -> (r: Result<String, String>)
    ensures
        sview(r) == date_parse(s@),
        (r matches Ok(c) ==> date_parse(c@) == Ok::<Seq<char>, Seq<char>>(c@)),
{
    match PlainDate::from_str(s) {
        Ok(d) => Ok(d.to_ixdtf_string(DisplayCalendar::Auto)),
        Err(e) => Err(e.to_string()),
    }
}

/// Relies on `temporal_rs::PlainDate::from_str`, the field accessors
/// (`year` through `in_leap_year`), and `Calendar::identifier`: the
/// accessors return the date's calendar fields, and for an ISO 8601 date
/// `PlainDate::try_new` on exactly these fields rebuilds the same value.
#[verifier::external_body]
pub fn eng_date_parts(s: &str) -> (r: Result<(DateParts, String), String>)
    ensures
        (r matches Ok(pc) ==> {
            &&& date_parts(s@) == Some(pc.0)
            &&& pc.1@ == date_cal_id(s@)
            &&& cal_parse(pc.1@) == Ok::<Seq<char>, Seq<char>>(pc.1@)
            &&& (pc.1@ == "iso8601"@ ==> date_new(
                pc.0.year as int,
                pc.0.month as int,
                pc.0.day as int,
                Some(pc.1@),
            ) == date_parse(s@))
        }),
        r is Ok <==> date_parse(s@) is Ok,
        r is Ok <==> date_parts(s@) is Some,
        (r matches Err(e) ==> date_parse(s@) == Err::<Seq<char>, Seq<char>>(e@)),
{
    match PlainDate::from_str(s) {
        Ok(d) => Ok((
            DateParts {
                year: d.year(), month: d.month(), day: d.day(), day_of_week: d.day_of_week(),
                day_of_year: d.day_of_year(), week_of_year: d.week_of_year(),
                year_of_week: d.year_of_week(), days_in_week: d.days_in_week(),
                days_in_month: d.days_in_month(), days_in_year: d.days_in_year(),
                months_in_year: d.months_in_year(), in_leap_year: d.in_leap_year(),
            },
            String::from(d.calendar().identifier()),
        )),
        Err(e) => Err(e.to_string()),
    }
}

/// Relies on `temporal_rs::PlainDate::month_code`: the month code of the
/// parsed date.
#[verifier::external_body]
pub fn eng_date_month_code(s: &str) -> (r: Result<String, String>)
    ensures
        (r matches Ok(c) ==> c@ == date_month_code(s@)),
        r is Ok <==> date_parse(s@) is Ok,
        (r matches Err(e) ==> date_parse(s@) == Err::<Seq<char>, Seq<char>>(e@)),
{
    match PlainDate::from_str(s) {
        Ok(d) => Ok(String::from(d.month_code().as_str())),
        Err(e) => Err(e.to_string()),
    }
}

/// Relies on `temporal_rs::PlainDate::try_new`: validates year, month and day
/// in the given calendar (ISO 8601 when absent) and serializes the new
/// value canonically; the serialization reparses to itself.
#[verifier::external_body]
pub fn eng_date_new(year: i32, month: u8, day: u8, calendar: Option<&str>) -> (r: Result<
    String,
    String,
>)
    ensures
        sview(r) == date_new(year as int, month as int, day as int, oview(calendar)),
        (r matches Ok(c) ==> date_parse(c@) == Ok::<Seq<char>, Seq<char>>(c@)),
{
    let cal = match calendar {
        Some(c) => match Calendar::from_str(c) {
            Ok(c) => c,
            Err(e) => return Err(e.to_string()),
        },
        None => Calendar::default(),
    };
    match PlainDate::try_new(year, month, day, cal) {
        Ok(d) => Ok(d.to_ixdtf_string(DisplayCalendar::Auto)),
        Err(e) => Err(e.to_string()),
    }
}

/// Relies on `temporal_rs::PlainDate::add`: adds a duration to a date
/// with the default overflow handling.
#[verifier::external_body]
pub fn eng_date_add(t: &str, d: &str) -> (r: Result<String, String>)
    ensures
        sview(r) == date_add(t@, d@),
{
    let date = match PlainDate::from_str(t) {
        Ok(v) => v,
        Err(e) => return Err(e.to_string()),
    };
    let dur = match Duration::from_str(d) {
        Ok(v) => v,
        Err(e) => return Err(e.to_string()),
    };
    match date.add(&dur, None) {
        Ok(v) => Ok(v.to_ixdtf_string(DisplayCalendar::Auto)),
        Err(e) => Err(e.to_string()),
    }
}

/// Relies on `temporal_rs::PlainDate::subtract`: subtracts a duration
/// from a date with the default overflow handling.
#[verifier::external_body]
pub fn eng_date_subtract(t: &str, d: &str) -> (r: Result<String, String>)
    ensures
        sview(r) == date_subtract(t@, d@),
{
    let date = match PlainDate::from_str(t) {
        Ok(v) => v,
        Err(e) => return Err(e.to_string()),
    };
    let dur = match Duration::from_str(d) {
        Ok(v) => v,
        Err(e) => return Err(e.to_string()),
    };
    match date.subtract(&dur, None) {
        Ok(v) => Ok(v.to_ixdtf_string(DisplayCalendar::Auto)),
        Err(e) => Err(e.to_string()),
    }
}

/// Relies on `temporal_rs::PlainDate::until`: the difference between two
/// dates as a duration, serialized canonically.
#[verifier::external_body]
pub fn eng_date_until(a: &str, b: &str) -> (r: Result<String, String>)
    ensures
        sview(r) == date_until(a@, b@),
{
    let da = match PlainDate::from_str(a) {
        Ok(v) => v,
        Err(e) => return Err(e.to_string()),
    };
    let db = match PlainDate::from_str(b) {
        Ok(v) => v,
        Err(e) => return Err(e.to_string()),
    };
    match da.until(&db, DifferenceSettings::default()) {
        Ok(v) => Ok(v.to_string()),
        Err(e) => Err(e.to_string()),
    }
}

/// Relies on `temporal_rs::PlainDate::since`: the difference between two
/// dates as a duration, serialized canonically.
#[verifier::external_body]
pub fn eng_date_since(a: &str, b: &str) -> (r: Result<String, String>)
    ensures
        sview(r) == date_since(a@, b@),
{
    let da = match PlainDate::from_str(a) {
        Ok(v) => v,
        Err(e) => return Err(e.to_string()),
    };
    let db = match PlainDate::from_str(b) {
        Ok(v) => v,
        Err(e) => return Err(e.to_string()),
    };
    match da.since(&db, DifferenceSettings::default()) {
        Ok(v) => Ok(v.to_string()),
        Err(e) => Err(e.to_string()),
    }
}

/// Relies on `temporal_rs::PlainDate::to_ixdtf_string` with the calendar
/// annotation suppressed: the pure ISO form used for ordering dates.
#[verifier::external_body]
pub fn eng_date_iso_form(s: &str) -> (r: Result<String, String>)
    ensures
        sview(r) == date_iso_form(s@),
        r is Ok <==> date_parse(s@) is Ok,
        (r matches Err(e) ==> date_parse(s@) == Err::<Seq<char>, Seq<char>>(e@)),
{
    match PlainDate::from_str(s) {
        Ok(d) => Ok(d.to_ixdtf_string(DisplayCalendar::Never)),
        Err(e) => Err(e.to_string()),
    }
}

/// Outcome of parsing a plain-date-time string and re-serializing it
/// canonically.
pub uninterp spec fn dt_parse(s: Seq<char>) -> Result<Seq<char>, Seq<char>>;

/// The date and time fields of the date-time denoted by `s`.
pub uninterp spec fn dt_parts(s: Seq<char>) -> Option<(DateParts, TimeParts)>;

/// The canonical calendar identifier of the date-time denoted by `s`.
pub uninterp spec fn dt_cal_id(s: Seq<char>) -> Seq<char>;

/// The month code of the date-time denoted by `s`.
pub uninterp spec fn dt_month_code(s: Seq<char>) -> Seq<char>;

/// Outcome of constructing a date-time from nine fields and an optional
/// calendar identifier (ISO 8601 when absent).
pub uninterp spec fn dt_new(
    year: int,
    month: int,
    day: int,
    hour: int,
    minute: int,
    second: int,
    millisecond: int,
    microsecond: int,
    nanosecond: int,
    calendar: Option<Seq<char>>,
) -> Result<Seq<char>, Seq<char>>;

/// Outcome of adding the duration denoted by `d` to the date-time denoted
/// by `t`.
pub uninterp spec fn dt_add(t: Seq<char>, d: Seq<char>) -> Result<Seq<char>, Seq<char>>;

/// Outcome of subtracting the duration denoted by `d` from the date-time
/// denoted by `t`.
pub uninterp spec fn dt_subtract(t: Seq<char>, d: Seq<char>) -> Result<Seq<char>, Seq<char>>;

/// Outcome of the difference from the date-time denoted by `a` to the
/// date-time denoted by `b`.
pub uninterp spec fn dt_until(a: Seq<char>, b: Seq<char>) -> Result<Seq<char>, Seq<char>>;

/// Outcome of the difference since the date-time denoted by `b`, seen
/// from the date-time denoted by `a`.
pub uninterp spec fn dt_since(a: Seq<char>, b: Seq<char>) -> Result<Seq<char>, Seq<char>>;

/// The ISO-field ordering of the date-times denoted by `a` and `b`:
/// -1, 0, or 1.
pub uninterp spec fn dt_cmp(a: Seq<char>, b: Seq<char>) -> int;

/// Relies on `temporal_rs::PlainDateTime`: `from_str` parses ISO 8601
/// date-time text and `to_ixdtf_string` with default options serializes
/// the value canonically.  A canonical serialization reparses to itself.
#[verifier::external_body]
pub fn eng_dt_parse(s: &str) -> (r: Result<String, String>)
    ensures
        sview(r) == dt_parse(s@),
        (r matches Ok(c) ==> dt_parse(c@) == Ok::<Seq<char>, Seq<char>>(c@)),
{
    match PlainDateTime::from_str(s) {
        Ok(d) => match d.to_ixdtf_string(
            ToStringRoundingOptions::default(),
            DisplayCalendar::Auto,
        ) {
            Ok(v) => Ok(v),
            Err(e) => Err(e.to_string()),
        },
        Err(e) => Err(e.to_string()),
    }
}

/// Relies on `temporal_rs::PlainDateTime::from_str` and its field
/// accessors: they return the value's calendar and clock fields, and for
/// an ISO 8601 date-time `PlainDateTime::try_new` on exactly these fields
/// rebuilds the same value.
#[verifier::external_body]
pub fn eng_dt_parts(s: &str) -> (r: Result<(DateParts, TimeParts), String>)
    ensures
        (r matches Ok(pc) ==> {
            &&& dt_parts(s@) == Some((pc.0, pc.1))
            &&& (dt_cal_id(s@) == "iso8601"@ ==> dt_new(
                pc.0.year as int,
                pc.0.month as int,
                pc.0.day as int,
                pc.1.hour as int,
                pc.1.minute as int,
                pc.1.second as int,
                pc.1.millisecond as int,
                pc.1.microsecond as int,
                pc.1.nanosecond as int,
                Some(dt_cal_id(s@)),
            ) == dt_parse(s@))
        }),
        r is Ok <==> dt_parse(s@) is Ok,
        r is Ok <==> dt_parts(s@) is Some,
        (r matches Err(e) ==> dt_parse(s@) == Err::<Seq<char>, Seq<char>>(e@)),
{
    match PlainDateTime::from_str(s) {
        Ok(d) => Ok((
            DateParts {
                year: d.year(), month: d.month(), day: d.day(), day_of_week: d.day_of_week(),
                day_of_year: d.day_of_year(), week_of_year: d.week_of_year(), year_of_week: d.year_of_week(),
                days_in_week: d.days_in_week(), days_in_month: d.days_in_month(), days_in_year: d.days_in_year(),
                months_in_year: d.months_in_year(), in_leap_year: d.in_leap_year(),
            },
            TimeParts {
                hour: d.hour(), minute: d.minute(), second: d.second(), millisecond: d.millisecond(),
                microsecond: d.microsecond(), nanosecond: d.nanosecond(),
            },
        )),
        Err(e) => Err(e.to_string()),
    }
}

/// Relies on `temporal_rs::PlainDateTime::calendar` and
/// `Calendar::identifier`: the canonical calendar identifier of the
/// parsed date-time, which resolves to itself.
#[verifier::external_body]
pub fn eng_dt_cal(s: &str) -> (r: Result<String, String>)
    ensures
        (r matches Ok(c) ==> c@ == dt_cal_id(s@) && cal_parse(c@) == Ok::<Seq<char>, Seq<char>>(
            c@,
        )),
        r is Ok <==> dt_parse(s@) is Ok,
        (r matches Err(e) ==> dt_parse(s@) == Err::<Seq<char>, Seq<char>>(e@)),
{
    match PlainDateTime::from_str(s) {
        Ok(d) => Ok(String::from(d.calendar().identifier())),
        Err(e) => Err(e.to_string()),
    }
}

/// Relies on `temporal_rs::PlainDateTime::month_code`: the month code of
/// the parsed date-time.
#[verifier::external_body]
pub fn eng_dt_month_code(s: &str) -> (r: Result<String, String>)
    ensures
        (r matches Ok(c) ==> c@ == dt_month_code(s@)),
        r is Ok <==> dt_parse(s@) is Ok,
        (r matches Err(e) ==> dt_parse(s@) == Err::<Seq<char>, Seq<char>>(e@)),
{
    match PlainDateTime::from_str(s) {
        Ok(d) => Ok(String::from(d.month_code().as_str())),
        Err(e) => Err(e.to_string()),
    }
}

/// Relies on `temporal_rs::PlainDateTime::try_new`: validates nine fields in
/// the given calendar (ISO 8601 when absent) and serializes the new value
/// canonically; the serialization reparses to itself.
#[verifier::external_body]
pub fn eng_dt_new(
    year: i32,
    month: u8,
    day: u8,
    hour: u8,
    minute: u8,
    second: u8,
    millisecond: u16,
    microsecond: u16,
    nanosecond: u16,
    calendar: Option<&str>,
) -> (r: Result<String, String>)
    ensures
        sview(r) == dt_new(
            year as int,
            month as int,
            day as int,
            hour as int,
            minute as int,
            second as int,
            millisecond as int,
            microsecond as int,
            nanosecond as int,
            oview(calendar),
        ),
        (r matches Ok(c) ==> dt_parse(c@) == Ok::<Seq<char>, Seq<char>>(c@)),
{
    let cal = match calendar {
        Some(c) => match Calendar::from_str(c) { Ok(c) => c, Err(e) => return Err(e.to_string()) },
        None => Calendar::default(),
    };
    match PlainDateTime::new(
        year, month, day, hour, minute, second, millisecond, microsecond, nanosecond, cal,
    ) {
        Ok(d) => match d.to_ixdtf_string(ToStringRoundingOptions::default(), DisplayCalendar::Auto) {
            Ok(v) => Ok(v),
            Err(e) => Err(e.to_string()),
        },
        Err(e) => Err(e.to_string()),
    }
}

/// Relies on `temporal_rs::PlainDateTime::add`: adds a duration to a
/// date-time with the default overflow handling.
#[verifier::external_body]
pub fn eng_dt_add(t: &str, d: &str) -> (r: Result<String, String>)
    ensures
        sview(r) == dt_add(t@, d@),
{
    let dt = match PlainDateTime::from_str(t) { Ok(v) => v, Err(e) => return Err(e.to_string()) };
    let dur = match Duration::from_str(d) { Ok(v) => v, Err(e) => return Err(e.to_string()) };
    match dt.add(&dur, None) {
        Ok(v) => match v.to_ixdtf_string(ToStringRoundingOptions::default(), DisplayCalendar::Auto) {
            Ok(s) => Ok(s),
            Err(e) => Err(e.to_string()),
        },
        Err(e) => Err(e.to_string()),
    }
}

/// Relies on `temporal_rs::PlainDateTime::subtract`: subtracts a duration
/// from a date-time with the default overflow handling.
#[verifier::external_body]
pub fn eng_dt_subtract(t: &str, d: &str) -> (r: Result<String, String>)
    ensures
        sview(r) == dt_subtract(t@, d@),
{
    let dt = match PlainDateTime::from_str(t) { Ok(v) => v, Err(e) => return Err(e.to_string()) };
    let dur = match Duration::from_str(d) { Ok(v) => v, Err(e) => return Err(e.to_string()) };
    match dt.subtract(&dur, None) {
        Ok(v) => match v.to_ixdtf_string(ToStringRoundingOptions::default(), DisplayCalendar::Auto) {
            Ok(s) => Ok(s),
            Err(e) => Err(e.to_string()),
        },
        Err(e) => Err(e.to_string()),
    }
}

/// Relies on `temporal_rs::PlainDateTime::until`: the difference between
/// two date-times as a duration, serialized canonically.
#[verifier::external_body]
pub fn eng_dt_until(a: &str, b: &str) -> (r: Result<String, String>)
    ensures
        sview(r) == dt_until(a@, b@),
{
    let da = match PlainDateTime::from_str(a) {
        Ok(v) => v,
        Err(e) => return Err(e.to_string()),
    };
    let db = match PlainDateTime::from_str(b) {
        Ok(v) => v,
        Err(e) => return Err(e.to_string()),
    };
    match da.until(&db, DifferenceSettings::default()) {
        Ok(v) => Ok(v.to_string()),
        Err(e) => Err(e.to_string()),
    }
}

/// Relies on `temporal_rs::PlainDateTime::since`: the difference between
/// two date-times as a duration, serialized canonically.
#[verifier::external_body]
pub fn eng_dt_since(a: &str, b: &str) -> (r: Result<String, String>)
    ensures
        sview(r) == dt_since(a@, b@),
{
    let da = match PlainDateTime::from_str(a) {
        Ok(v) => v,
        Err(e) => return Err(e.to_string()),
    };
    let db = match PlainDateTime::from_str(b) {
        Ok(v) => v,
        Err(e) => return Err(e.to_string()),
    };
    match da.since(&db, DifferenceSettings::default()) {
        Ok(v) => Ok(v.to_string()),
        Err(e) => Err(e.to_string()),
    }
}

/// Relies on `temporal_rs::PlainDateTime::compare_iso`: orders two
/// date-times by their ISO fields.
#[verifier::external_body]
pub fn eng_dt_compare(a: &str, b: &str) -> (r: Result<i32, String>)
    ensures
        (r matches Ok(c) ==> c as int == dt_cmp(a@, b@) && -1 <= c <= 1 && dt_parse(a@) is Ok
            && dt_parse(b@) is Ok),
        r is Ok <==> (dt_parse(a@) is Ok && dt_parse(b@) is Ok),
        (r matches Err(e) ==> (match (dt_parse(a@), dt_parse(b@)) {
            (Err(m), _) => e@ == m,
            (Ok(_), Err(m)) => e@ == m,
            (Ok(_), Ok(_)) => false,
        })),
{
    let da = match PlainDateTime::from_str(a) {
        Ok(v) => v,
        Err(e) => return Err(e.to_string()),
    };
    let db = match PlainDateTime::from_str(b) {
        Ok(v) => v,
        Err(e) => return Err(e.to_string()),
    };
    match da.compare_iso(&db) {
        core::cmp::Ordering::Less => Ok(-1),
        core::cmp::Ordering::Equal => Ok(0),
        core::cmp::Ordering::Greater => Ok(1),
    }
}

/// The numeric fields of a year-month.
#[derive(Debug, Clone, Copy)]
pub struct YearMonthParts {
    pub year: i32,
    pub month: u8,
    pub days_in_month: u16,
    pub days_in_year: u16,
    pub months_in_year: u16,
    pub in_leap_year: bool,
    pub era_year: Option<i32>,
}

/// Outcome of parsing a year-month string and re-serializing it
/// canonically.
pub uninterp spec fn ym_parse(s: Seq<char>) -> Result<Seq<char>, Seq<char>>;

/// The numeric fields of the year-month denoted by `s`.
pub uninterp spec fn ym_parts(s: Seq<char>) -> Option<YearMonthParts>;

/// The canonical calendar identifier of the year-month denoted by `s`.
pub uninterp spec fn ym_cal_id(s: Seq<char>) -> Seq<char>;

/// The month code of the year-month denoted by `s`.
pub uninterp spec fn ym_month_code(s: Seq<char>) -> Seq<char>;

/// Outcome of constructing a year-month from a year, a month, and an
/// optional calendar identifier (ISO 8601 when absent).
pub uninterp spec fn ym_new(
    year: int,
    month: int,
    calendar: Option<Seq<char>>,
) -> Result<Seq<char>, Seq<char>>;

/// Outcome of adding the duration denoted by `d` to the year-month
/// denoted by `t`, rejecting overflow.
pub uninterp spec fn ym_add(t: Seq<char>, d: Seq<char>) -> Result<Seq<char>, Seq<char>>;

/// Outcome of subtracting the duration denoted by `d` from the
/// year-month denoted by `t`, rejecting overflow.
pub uninterp spec fn ym_subtract(t: Seq<char>, d: Seq<char>) -> Result<Seq<char>, Seq<char>>;

/// Outcome of the difference from the year-month denoted by `a` to the
/// year-month denoted by `b`.
pub uninterp spec fn ym_until(a: Seq<char>, b: Seq<char>) -> Result<Seq<char>, Seq<char>>;

/// Outcome of the difference since the year-month denoted by `b`, seen
/// from the year-month denoted by `a`.
pub uninterp spec fn ym_since(a: Seq<char>, b: Seq<char>) -> Result<Seq<char>, Seq<char>>;

/// The pure ISO form (no calendar annotation) of the year-month denoted
/// by `s`.
pub uninterp spec fn ym_iso_form(s: Seq<char>) -> Result<Seq<char>, Seq<char>>;

/// Relies on `temporal_rs::PlainYearMonth`: `from_str` parses ISO 8601
/// year-month text and `to_ixdtf_string` serializes it canonically.  A
/// canonical serialization reparses to itself.
#[verifier::external_body]
pub fn eng_ym_parse(s: &str) -> (r: Result<String, String>)
    ensures
        sview(r) == ym_parse(s@),
        (r matches Ok(c) ==> ym_parse(c@) == Ok::<Seq<char>, Seq<char>>(c@)),
{
    match PlainYearMonth::from_str(s) {
        Ok(y) => Ok(y.to_ixdtf_string(DisplayCalendar::Auto)),
        Err(e) => Err(e.to_string()),
    }
}

/// Relies on `temporal_rs::PlainYearMonth::from_str`, its field
/// accessors, and `Calendar::identifier`: the accessors return the
/// value's calendar fields, and for an ISO 8601 year-month
/// `PlainYearMonth::try_new` on exactly these fields rebuilds the same value.
#[verifier::external_body]
pub fn eng_ym_parts(s: &str) -> (r: Result<(YearMonthParts, String), String>)
    ensures
        (r matches Ok(pc) ==> {
            &&& ym_parts(s@) == Some(pc.0)
            &&& pc.1@ == ym_cal_id(s@)
            &&& cal_parse(pc.1@) == Ok::<Seq<char>, Seq<char>>(pc.1@)
            &&& (pc.1@ == "iso8601"@ ==> ym_new(pc.0.year as int, pc.0.month as int, Some(pc.1@))
                == ym_parse(s@))
        }),
        r is Ok <==> ym_parse(s@) is Ok,
        r is Ok <==> ym_parts(s@) is Some,
        (r matches Err(e) ==> ym_parse(s@) == Err::<Seq<char>, Seq<char>>(e@)),
{
    match PlainYearMonth::from_str(s) {
        Ok(y) => Ok((
            YearMonthParts {
                year: y.year(),
                month: y.month(),
                days_in_month: y.days_in_month(),
                days_in_year: y.days_in_year(),
                months_in_year: y.months_in_year(),
                in_leap_year: y.in_leap_year(),
                era_year: y.era_year(),
            },
            String::from(y.calendar().identifier()),
        )),
        Err(e) => Err(e.to_string()),
    }
}

/// Relies on `temporal_rs::PlainYearMonth::month_code`: the month code of
/// the parsed year-month.
#[verifier::external_body]
pub fn eng_ym_month_code(s: &str) -> (r: Result<String, String>)
    ensures
        (r matches Ok(c) ==> c@ == ym_month_code(s@)),
        r is Ok <==> ym_parse(s@) is Ok,
        (r matches Err(e) ==> ym_parse(s@) == Err::<Seq<char>, Seq<char>>(e@)),
{
    match PlainYearMonth::from_str(s) {
        Ok(y) => Ok(String::from(y.month_code().as_str())),
        Err(e) => Err(e.to_string()),
    }
}

/// Relies on `temporal_rs::PlainYearMonth::try_new` with no reference day:
/// validates the year and month in the given calendar (ISO 8601 when
/// absent) and serializes the new value canonically; the serialization
/// reparses to itself.
#[verifier::external_body]
pub fn eng_ym_new(year: i32, month: u8, calendar: Option<&str>) -> (r: Result<String, String>)
    ensures
        sview(r) == ym_new(year as int, month as int, oview(calendar)),
        (r matches Ok(c) ==> ym_parse(c@) == Ok::<Seq<char>, Seq<char>>(c@)),
{
    let cal = match calendar {
        Some(c) => match Calendar::from_str(c) {
            Ok(c) => c,
            Err(e) => return Err(e.to_string()),
        },
        None => Calendar::default(),
    };
    match PlainYearMonth::try_new(year, month, None, cal) {
        Ok(y) => Ok(y.to_ixdtf_string(DisplayCalendar::Auto)),
        Err(e) => Err(e.to_string()),
    }
}

/// Relies on `temporal_rs::PlainYearMonth::add` with overflow rejected.
#[verifier::external_body]
pub fn eng_ym_add(t: &str, d: &str) -> (r: Result<String, String>)
    ensures
        sview(r) == ym_add(t@, d@),
{
    let ym = match PlainYearMonth::from_str(t) {
        Ok(v) => v,
        Err(e) => return Err(e.to_string()),
    };
    let dur = match Duration::from_str(d) {
        Ok(v) => v,
        Err(e) => return Err(e.to_string()),
    };
    match ym.add(&dur, Overflow::Reject) {
        Ok(v) => Ok(v.to_ixdtf_string(DisplayCalendar::Auto)),
        Err(e) => Err(e.to_string()),
    }
}

/// Relies on `temporal_rs::PlainYearMonth::subtract` with overflow
/// rejected.
#[verifier::external_body]
pub fn eng_ym_subtract(t: &str, d: &str) -> (r: Result<String, String>)
    ensures
        sview(r) == ym_subtract(t@, d@),
{
    let ym = match PlainYearMonth::from_str(t) {
        Ok(v) => v,
        Err(e) => return Err(e.to_string()),
    };
    let dur = match Duration::from_str(d) {
        Ok(v) => v,
        Err(e) => return Err(e.to_string()),
    };
    match ym.subtract(&dur, Overflow::Reject) {
        Ok(v) => Ok(v.to_ixdtf_string(DisplayCalendar::Auto)),
        Err(e) => Err(e.to_string()),
    }
}

/// Relies on `temporal_rs::PlainYearMonth::until`: the difference between
/// two year-months as a duration, serialized canonically.
#[verifier::external_body]
pub fn eng_ym_until(a: &str, b: &str) -> (r: Result<String, String>)
    ensures
        sview(r) == ym_until(a@, b@),
{
    let ya = match PlainYearMonth::from_str(a) {
        Ok(v) => v,
        Err(e) => return Err(e.to_string()),
    };
    let yb = match PlainYearMonth::from_str(b) {
        Ok(v) => v,
        Err(e) => return Err(e.to_string()),
    };
    match ya.until(&yb, DifferenceSettings::default()) {
        Ok(v) => Ok(v.to_string()),
        Err(e) => Err(e.to_string()),
    }
}

/// Relies on `temporal_rs::PlainYearMonth::since`: the difference between
/// two year-months as a duration, serialized canonically.
#[verifier::external_body]
pub fn eng_ym_since(a: &str, b: &str) -> (r: Result<String, String>)
    ensures
        sview(r) == ym_since(a@, b@),
{
    let ya = match PlainYearMonth::from_str(a) {
        Ok(v) => v,
        Err(e) => return Err(e.to_string()),
    };
    let yb = match PlainYearMonth::from_str(b) {
        Ok(v) => v,
        Err(e) => return Err(e.to_string()),
    };
    match ya.since(&yb, DifferenceSettings::default()) {
        Ok(v) => Ok(v.to_string()),
        Err(e) => Err(e.to_string()),
    }
}

/// Relies on `temporal_rs::PlainYearMonth::to_ixdtf_string` with the
/// calendar annotation suppressed: the pure ISO form used for ordering
/// year-months.
#[verifier::external_body]
pub fn eng_ym_iso_form(s: &str) -> (r: Result<String, String>)
    ensures
        sview(r) == ym_iso_form(s@),
        r is Ok <==> ym_parse(s@) is Ok,
        (r matches Err(e) ==> ym_parse(s@) == Err::<Seq<char>, Seq<char>>(e@)),
{
    match PlainYearMonth::from_str(s) {
        Ok(y) => Ok(y.to_ixdtf_string(DisplayCalendar::Never)),
        Err(e) => Err(e.to_string()),
    }
}

/// Outcome of parsing a month-day string and re-serializing it
/// canonically.
pub uninterp spec fn md_parse(s: Seq<char>) -> Result<Seq<char>, Seq<char>>;

/// The day of the month-day denoted by `s`.
pub uninterp spec fn md_day(s: Seq<char>) -> u8;

/// The month code of the month-day denoted by `s`.
pub uninterp spec fn md_month_code(s: Seq<char>) -> Seq<char>;

/// The canonical calendar identifier of the month-day denoted by `s`.
pub uninterp spec fn md_cal_id(s: Seq<char>) -> Seq<char>;

/// Outcome of constructing a month-day from a month, a day, and an
/// optional calendar identifier, rejecting out-of-range fields.
pub uninterp spec fn md_new(
    month: int,
    day: int,
    calendar: Option<Seq<char>>,
) -> Result<Seq<char>, Seq<char>>;

/// Relies on `temporal_rs::PlainMonthDay`: `from_str` parses ISO 8601
/// month-day text and `to_ixdtf_string` serializes it canonically.  A
/// canonical serialization reparses to itself.
#[verifier::external_body]
pub fn eng_md_parse(s: &str) -> (r: Result<String, String>)
    ensures
        sview(r) == md_parse(s@),
        (r matches Ok(c) ==> md_parse(c@) == Ok::<Seq<char>, Seq<char>>(c@)),
{
    match PlainMonthDay::from_str(s) {
        Ok(m) => Ok(m.to_ixdtf_string(DisplayCalendar::Auto)),
        Err(e) => Err(e.to_string()),
    }
}

/// Relies on `temporal_rs::PlainMonthDay::from_str`, `day`, `month_code`
/// and `Calendar::identifier`: the day, month code, and calendar of the
/// parsed month-day.
#[verifier::external_body]
pub fn eng_md_parts(s: &str) -> (r: Result<(u8, String, String), String>)
    ensures
        (r matches Ok(p) ==> {
            &&& p.0 == md_day(s@)
            &&& p.1@ == md_month_code(s@)
            &&& p.2@ == md_cal_id(s@)
            &&& cal_parse(p.2@) == Ok::<Seq<char>, Seq<char>>(p.2@)
        }),
        r is Ok <==> md_parse(s@) is Ok,
        (r matches Err(e) ==> md_parse(s@) == Err::<Seq<char>, Seq<char>>(e@)),
{
    match PlainMonthDay::from_str(s) {
        Ok(m) => Ok((
            m.day(),
            String::from(m.month_code().as_str()),
            String::from(m.calendar().identifier()),
        )),
        Err(e) => Err(e.to_string()),
    }
}

/// Relies on `temporal_rs::PlainMonthDay::new_with_overflow` with
/// overflow rejected and no reference year: validates the month and day
/// in the given calendar (ISO 8601 when absent) and serializes the new
/// value canonically; the serialization reparses to itself.
#[verifier::external_body]
pub fn eng_md_new(month: u8, day: u8, calendar: Option<&str>) -> (r: Result<String, String>)
    ensures
        sview(r) == md_new(month as int, day as int, oview(calendar)),
        (r matches Ok(c) ==> md_parse(c@) == Ok::<Seq<char>, Seq<char>>(c@)),
{
    let cal = match calendar {
        Some(c) => match Calendar::from_str(c) { Ok(c) => c, Err(e) => return Err(e.to_string()) },
        None => Calendar::default(),
    };
    match PlainMonthDay::new_with_overflow(month, day, cal, Overflow::Reject, None) {
        Ok(m) => Ok(m.to_ixdtf_string(DisplayCalendar::Auto)),
        Err(e) => Err(e.to_string()),
    }
}

/// Outcome of parsing an instant string and re-serializing it
/// canonically in UTC.
pub uninterp spec fn inst_parse(s: Seq<char>) -> Result<Seq<char>, Seq<char>>;

/// The epoch nanoseconds of the instant denoted by `s`.
pub uninterp spec fn inst_ns(s: Seq<char>) -> Result<int, Seq<char>>;

/// Outcome of constructing an instant from epoch nanoseconds.
pub uninterp spec fn inst_from_ns(ns: int) -> Result<Seq<char>, Seq<char>>;

/// Outcome of adding the duration denoted by `d` to the instant denoted
/// by `t`.
pub uninterp spec fn inst_add(t: Seq<char>, d: Seq<char>) -> Result<Seq<char>, Seq<char>>;

/// Outcome of subtracting the duration denoted by `d` from the instant
/// denoted by `t`.
pub uninterp spec fn inst_subtract(t: Seq<char>, d: Seq<char>) -> Result<Seq<char>, Seq<char>>;

/// The magnitude bound the engine enforces on an instant's epoch
/// nanoseconds: one hundred million days.
pub open spec fn inst_ns_bound() -> int {
    8_640_000_000_000_000_000_000
}

/// Relies on `temporal_rs::Instant`: `from_str` parses ISO 8601 instant
/// text and `to_ixdtf_string` with default options serializes the value
/// canonically.  A canonical serialization reparses to itself.
#[verifier::external_body]
pub fn eng_instant_parse(s: &str) -> (r: Result<String, String>)
    ensures
        sview(r) == inst_parse(s@),
        (r matches Ok(c) ==> inst_parse(c@) == Ok::<Seq<char>, Seq<char>>(c@)),
{
    match Instant::from_str(s) {
        Ok(i) => match i.to_ixdtf_string(
            None,
            ToStringRoundingOptions::default(),
        ) {
            Ok(v) => Ok(v),
            Err(e) => Err(e.to_string()),
        },
        Err(e) => Err(e.to_string()),
    }
}

/// Relies on `temporal_rs::Instant::epoch_nanoseconds` and
/// `epoch_milliseconds`: the stored epoch nanoseconds, bounded by the
/// engine's validity range, and the milliseconds obtained from them by
/// Euclidean division.
#[verifier::external_body]
pub fn eng_instant_ns(s: &str) -> (r: Result<(i128, i64), String>)
    ensures
        (r matches Ok(p) ==> {
            &&& inst_ns(s@) == Ok::<int, Seq<char>>(p.0 as int)
            &&& -inst_ns_bound() <= p.0 as int <= inst_ns_bound()
            &&& p.1 as int == (p.0 as int) / 1_000_000
        }),
        r is Ok <==> inst_parse(s@) is Ok,
        (r matches Err(e) ==> inst_parse(s@) == Err::<Seq<char>, Seq<char>>(e@) && inst_ns(s@)
            == Err::<int, Seq<char>>(e@)),
{
    match Instant::from_str(s) {
        Ok(i) => Ok((i.epoch_nanoseconds().as_i128(), i.epoch_milliseconds())),
        Err(e) => Err(e.to_string()),
    }
}

/// Relies on `temporal_rs::Instant::try_new`: validates epoch nanoseconds
/// against the representable range and serializes the instant
/// canonically; the serialization reparses to itself.
#[verifier::external_body]
pub fn eng_instant_from_ns(ns: i128) -> (r: Result<String, String>)
    ensures
        sview(r) == inst_from_ns(ns as int),
        (r matches Ok(c) ==> inst_parse(c@) == Ok::<Seq<char>, Seq<char>>(c@)),
{
    match Instant::try_new(ns) {
        Ok(i) => match i.to_ixdtf_string(
            None,
            ToStringRoundingOptions::default(),
        ) {
            Ok(v) => Ok(v),
            Err(e) => Err(e.to_string()),
        },
        Err(e) => Err(e.to_string()),
    }
}

/// Relies on `temporal_rs::Instant::add`: adds a duration to an instant.
#[verifier::external_body]
pub fn eng_instant_add(t: &str, d: &str) -> (r: Result<String, String>)
    ensures
        sview(r) == inst_add(t@, d@),
{
    let i = match Instant::from_str(t) { Ok(v) => v, Err(e) => return Err(e.to_string()) };
    let dur = match Duration::from_str(d) { Ok(v) => v, Err(e) => return Err(e.to_string()) };
    match i.add(&dur) {
        Ok(v) => match v.to_ixdtf_string(None, ToStringRoundingOptions::default()) {
            Ok(s) => Ok(s),
            Err(e) => Err(e.to_string()),
        },
        Err(e) => Err(e.to_string()),
    }
}

/// Relies on `temporal_rs::Instant::subtract`: subtracts a duration from
/// an instant.
#[verifier::external_body]
pub fn eng_instant_subtract(t: &str, d: &str) -> (r: Result<String, String>)
    ensures
        sview(r) == inst_subtract(t@, d@),
{
    let i = match Instant::from_str(t) { Ok(v) => v, Err(e) => return Err(e.to_string()) };
    let dur = match Duration::from_str(d) { Ok(v) => v, Err(e) => return Err(e.to_string()) };
    match i.subtract(&dur) {
        Ok(v) => match v.to_ixdtf_string(None, ToStringRoundingOptions::default()) {
            Ok(s) => Ok(s),
            Err(e) => Err(e.to_string()),
        },
        Err(e) => Err(e.to_string()),
    }
}

/// Outcome of resolving a time zone identifier to its canonical form.
pub uninterp spec fn tz_id(s: Seq<char>) -> Result<Seq<char>, Seq<char>>;

/// The offset of the zone denoted by `tz` at the instant denoted by
/// `inst`, in nanoseconds.
pub uninterp spec fn tz_offset_ns(tz: Seq<char>, inst: Seq<char>) -> Result<int, Seq<char>>;

/// The offset string of the zone denoted by `tz` at the instant denoted
/// by `inst`.
pub uninterp spec fn tz_offset_str(tz: Seq<char>, inst: Seq<char>) -> Result<
    Seq<char>,
    Seq<char>,
>;

/// The local date-time of the instant denoted by `inst` in the zone
/// denoted by `tz`, under an optional calendar.
pub uninterp spec fn tz_pdt_for(
    tz: Seq<char>,
    inst: Seq<char>,
    cal: Option<Seq<char>>,
) -> Result<Seq<char>, Seq<char>>;

/// Relies on `temporal_rs::TimeZone::try_from_str` and
/// `TimeZone::identifier`: resolves a time zone to its canonical
/// identifier, which resolves to itself.
#[verifier::external_body]
pub fn eng_tz_id(s: &str) -> (r: Result<String, String>)
    ensures
        sview(r) == tz_id(s@),
        (r matches Ok(c) ==> tz_id(c@) == Ok::<Seq<char>, Seq<char>>(c@)),
{
    match TimeZone::try_from_str(s) {
        Ok(tz) => match tz.identifier() {
            Ok(id) => Ok(id),
            Err(e) => Err(e.to_string()),
        },
        Err(e) => Err(e.to_string()),
    }
}

/// Relies on `temporal_rs::ZonedDateTime::try_new` and
/// `offset_nanoseconds`: the offset of the given zone at the given
/// instant.
#[verifier::external_body]
pub fn eng_tz_offset_ns(tz: &str, inst: &str) -> (r: Result<i64, String>)
    ensures
        (match r {
            Ok(n) => tz_offset_ns(tz@, inst@) == Ok::<int, Seq<char>>(n as int),
            Err(e) => tz_offset_ns(tz@, inst@) == Err::<int, Seq<char>>(e@),
        }),
{
    let z = match TimeZone::try_from_str(tz) {
        Ok(v) => v,
        Err(e) => return Err(e.to_string()),
    };
    let i = match Instant::from_str(inst) {
        Ok(v) => v,
        Err(e) => return Err(e.to_string()),
    };
    let n = i.epoch_nanoseconds().as_i128();
    match ZonedDateTime::try_new(n, z, Calendar::default()) {
        Ok(zdt) => Ok(zdt.offset_nanoseconds()),
        Err(e) => Err(e.to_string()),
    }
}

/// Relies on `temporal_rs::ZonedDateTime::try_new` and `offset`: the
/// offset string of the given zone at the given instant.
#[verifier::external_body]
pub fn eng_tz_offset_str(tz: &str, inst: &str) -> (r: Result<String, String>)
    ensures
        sview(r) == tz_offset_str(tz@, inst@),
{
    let z = match TimeZone::try_from_str(tz) {
        Ok(v) => v,
        Err(e) => return Err(e.to_string()),
    };
    let i = match Instant::from_str(inst) {
        Ok(v) => v,
        Err(e) => return Err(e.to_string()),
    };
    let n = i.epoch_nanoseconds().as_i128();
    match ZonedDateTime::try_new(n, z, Calendar::default()) {
        Ok(zdt) => Ok(zdt.offset()),
        Err(e) => Err(e.to_string()),
    }
}

/// Relies on `temporal_rs::ZonedDateTime::try_new` and
/// `to_plain_date_time`: the local date-time of the given instant in the
/// given zone and calendar.
#[verifier::external_body]
pub fn eng_tz_pdt_for(tz: &str, inst: &str, cal: Option<&str>) -> (r: Result<String, String>)
    ensures
        sview(r) == tz_pdt_for(tz@, inst@, oview(cal)),
{
    let z = TimeZone::try_from_str(tz).map_err(|e| e.to_string())?;
    let i = Instant::from_str(inst).map_err(|e| e.to_string())?;
    let c = match cal {
        Some(cs) => Calendar::from_str(cs).map_err(|e| e.to_string())?,
        None => Calendar::default(),
    };
    match ZonedDateTime::try_new(i.epoch_nanoseconds().as_i128(), z, c) {
        Ok(zdt) => zdt.to_plain_date_time()
            .to_ixdtf_string(ToStringRoundingOptions::default(), DisplayCalendar::Auto)
            .map_err(|e| e.to_string()),
        Err(e) => Err(e.to_string()),
    }
}

/// Outcome of parsing a zoned date-time string (compatible
/// disambiguation, offsets rejected on conflict) and re-serializing it
/// canonically.
pub uninterp spec fn zdt_parse(s: Seq<char>) -> Result<Seq<char>, Seq<char>>;

/// The date, time and offset fields of the zoned date-time denoted by
/// `s`.
pub uninterp spec fn zdt_parts(s: Seq<char>) -> Option<(DateParts, TimeParts, i64)>;

/// The canonical calendar identifier of the zoned date-time denoted by
/// `s`.
pub uninterp spec fn zdt_cal_id(s: Seq<char>) -> Seq<char>;

/// The canonical time zone identifier of the zoned date-time denoted by
/// `s`.
pub uninterp spec fn zdt_tz_id(s: Seq<char>) -> Result<Seq<char>, Seq<char>>;

/// The offset string of the zoned date-time denoted by `s`.
pub uninterp spec fn zdt_offset_str(s: Seq<char>) -> Seq<char>;

/// The epoch nanoseconds of the zoned date-time denoted by `s`.
pub uninterp spec fn zdt_ns(s: Seq<char>) -> Result<int, Seq<char>>;

/// Outcome of projecting the date-time denoted by `pdt` into the zone
/// denoted by `tz` under the disambiguation policy with the given code.
pub uninterp spec fn zdt_from_pdt(
    pdt: Seq<char>,
    tz: Seq<char>,
    code: int,
) -> Result<Seq<char>, Seq<char>>;

/// Outcome of adding the duration denoted by `d` to the zoned date-time
/// denoted by `t`, rejecting overflow.
pub uninterp spec fn zdt_add(t: Seq<char>, d: Seq<char>) -> Result<Seq<char>, Seq<char>>;

/// Outcome of subtracting the duration denoted by `d` from the zoned
/// date-time denoted by `t`, rejecting overflow.
pub uninterp spec fn zdt_subtract(t: Seq<char>, d: Seq<char>) -> Result<Seq<char>, Seq<char>>;

/// Outcome of the difference from the zoned date-time denoted by `a` to
/// the one denoted by `b`.
pub uninterp spec fn zdt_until(a: Seq<char>, b: Seq<char>) -> Result<Seq<char>, Seq<char>>;

/// Outcome of the difference since the zoned date-time denoted by `b`,
/// seen from the one denoted by `a`.
pub uninterp spec fn zdt_since(a: Seq<char>, b: Seq<char>) -> Result<Seq<char>, Seq<char>>;

/// Whether the engine recognizes `s` as a rounding unit.
pub uninterp spec fn unit_ok(s: Seq<char>) -> bool;

/// Whether the engine recognizes `s` as a rounding mode.
pub uninterp spec fn mode_ok(s: Seq<char>) -> bool;

/// The engine's complaint about a rounding increment, if any.
pub uninterp spec fn incr_err(n: int) -> Option<Seq<char>>;

/// Outcome of rounding the zoned date-time denoted by `s` to the given
/// unit, mode and increment.
pub uninterp spec fn zdt_round(
    s: Seq<char>,
    unit: Seq<char>,
    mode: Seq<char>,
    increment: int,
) -> Result<Seq<char>, Seq<char>>;

/// The instant of the zoned date-time denoted by `s`, serialized
/// canonically in UTC.
pub uninterp spec fn zdt_to_instant(s: Seq<char>) -> Result<Seq<char>, Seq<char>>;

/// The plain date of the zoned date-time denoted by `s`.
pub uninterp spec fn zdt_to_date(s: Seq<char>) -> Seq<char>;

/// The plain time of the zoned date-time denoted by `s`.
pub uninterp spec fn zdt_to_time(s: Seq<char>) -> Result<Seq<char>, Seq<char>>;

/// The plain date-time of the zoned date-time denoted by `s`.
pub uninterp spec fn zdt_to_dt(s: Seq<char>) -> Result<Seq<char>, Seq<char>>;

/// Outcome of projecting the instant denoted by `inst` into the zone
/// denoted by `tz` with the ISO calendar, serialized canonically.
pub uninterp spec fn inst_to_zdt(inst: Seq<char>, tz: Seq<char>) -> Result<Seq<char>, Seq<char>>;

/// Relies on `temporal_rs::ZonedDateTime`: `from_utf8` with compatible
/// disambiguation and offset conflicts rejected parses IXDTF text, and
/// `to_ixdtf_string` serializes the value canonically.  A canonical
/// serialization reparses to itself.
#[verifier::external_body]
pub fn eng_zdt_parse(s: &str) -> (r: Result<String, String>)
    ensures
        sview(r) == zdt_parse(s@),
        (r matches Ok(c) ==> zdt_parse(c@) == Ok::<Seq<char>, Seq<char>>(c@)),
{
    match ZonedDateTime::from_utf8(s.as_bytes(), Disambiguation::Compatible, OffsetDisambiguation::Reject) {
        Ok(z) => match z.to_ixdtf_string(DisplayOffset::Auto, DisplayTimeZone::Auto, DisplayCalendar::Auto, ToStringRoundingOptions::default()) {
            Ok(v) => Ok(v),
            Err(e) => Err(e.to_string()),
        },
        Err(e) => Err(e.to_string()),
    }
}

/// Relies on `temporal_rs::ZonedDateTime::from_utf8` and its date field
/// accessors: the value's calendar date fields.
#[verifier::external_body]
pub fn eng_zdt_date_parts(s: &str) -> (r: Result<DateParts, String>)
    ensures
        (r matches Ok(p) ==> (zdt_parts(s@) matches Some(t) && t.0 == p)),
        r is Ok <==> zdt_parse(s@) is Ok,
        r is Ok <==> zdt_parts(s@) is Some,
        (r matches Err(e) ==> zdt_parse(s@) == Err::<Seq<char>, Seq<char>>(e@)),
{
    match ZonedDateTime::from_utf8(s.as_bytes(), Disambiguation::Compatible, OffsetDisambiguation::Reject) {
        Ok(z) => Ok(DateParts {
            year: z.year(), month: z.month(), day: z.day(), day_of_week: z.day_of_week(),
            day_of_year: z.day_of_year(), week_of_year: z.week_of_year(),
            year_of_week: z.year_of_week(), days_in_week: z.days_in_week(),
            days_in_month: z.days_in_month(), days_in_year: z.days_in_year(),
            months_in_year: z.months_in_year(), in_leap_year: z.in_leap_year(),
        }),
        Err(e) => Err(e.to_string()),
    }
}

/// Relies on `temporal_rs::ZonedDateTime::from_utf8`, its clock field
/// accessors, and `offset_nanoseconds`: the value's clock fields and
/// offset.
#[verifier::external_body]
pub fn eng_zdt_time_parts(s: &str) -> (r: Result<(TimeParts, i64), String>)
    ensures
        (r matches Ok(p) ==> (zdt_parts(s@) matches Some(t) && t.1 == p.0 && t.2 == p.1)),
        r is Ok <==> zdt_parse(s@) is Ok,
        (r matches Err(e) ==> zdt_parse(s@) == Err::<Seq<char>, Seq<char>>(e@)),
{
    match ZonedDateTime::from_utf8(s.as_bytes(), Disambiguation::Compatible, OffsetDisambiguation::Reject) {
        Ok(z) => Ok((
            TimeParts {
                hour: z.hour(), minute: z.minute(), second: z.second(),
                millisecond: z.millisecond(), microsecond: z.microsecond(),
                nanosecond: z.nanosecond(),
            },
            z.offset_nanoseconds(),
        )),
        Err(e) => Err(e.to_string()),
    }
}

/// Relies on `temporal_rs::ZonedDateTime::calendar` and
/// `Calendar::identifier`: the canonical calendar identifier of the
/// parsed value.
#[verifier::external_body]
pub fn eng_zdt_cal(s: &str) -> (r: Result<String, String>)
    ensures
        (r matches Ok(c) ==> c@ == zdt_cal_id(s@)),
        r is Ok <==> zdt_parse(s@) is Ok,
        (r matches Err(e) ==> zdt_parse(s@) == Err::<Seq<char>, Seq<char>>(e@)),
{
    match ZonedDateTime::from_utf8(
        s.as_bytes(),
        Disambiguation::Compatible,
        OffsetDisambiguation::Reject,
    ) {
        Ok(z) => Ok(String::from(z.calendar().identifier())),
        Err(e) => Err(e.to_string()),
    }
}

/// Relies on `temporal_rs::ZonedDateTime::time_zone` and
/// `TimeZone::identifier`: the canonical time zone identifier of the
/// parsed value.
#[verifier::external_body]
pub fn eng_zdt_tz(s: &str) -> (r: Result<String, String>)
    ensures
        (r matches Ok(c) ==> zdt_tz_id(s@) == Ok::<Seq<char>, Seq<char>>(c@) && zdt_parse(s@)
            is Ok),
        (r is Err ==> zdt_parse(s@) is Err || zdt_tz_id(s@) is Err),
        (r matches Err(e) ==> (match zdt_parse(s@) {
            Err(m) => e@ == m,
            Ok(_) => zdt_tz_id(s@) == Err::<Seq<char>, Seq<char>>(e@),
        })),
{
    match ZonedDateTime::from_utf8(
        s.as_bytes(),
        Disambiguation::Compatible,
        OffsetDisambiguation::Reject,
    ) {
        Ok(z) => match z.time_zone().identifier() {
            Ok(id) => Ok(id),
            Err(e) => Err(e.to_string()),
        },
        Err(e) => Err(e.to_string()),
    }
}

/// Relies on `temporal_rs::ZonedDateTime::offset`: the offset string of
/// the parsed value.
#[verifier::external_body]
pub fn eng_zdt_offset(s: &str) -> (r: Result<String, String>)
    ensures
        (r matches Ok(c) ==> c@ == zdt_offset_str(s@)),
        r is Ok <==> zdt_parse(s@) is Ok,
        (r matches Err(e) ==> zdt_parse(s@) == Err::<Seq<char>, Seq<char>>(e@)),
{
    match ZonedDateTime::from_utf8(
        s.as_bytes(),
        Disambiguation::Compatible,
        OffsetDisambiguation::Reject,
    ) {
        Ok(z) => Ok(z.offset()),
        Err(e) => Err(e.to_string()),
    }
}

/// Relies on `temporal_rs::ZonedDateTime::epoch_nanoseconds` and
/// `epoch_milliseconds`: the epoch nanoseconds of the parsed value,
/// bounded by the engine's validity range, and the milliseconds obtained
/// from them by Euclidean division.
#[verifier::external_body]
pub fn eng_zdt_ns(s: &str) -> (r: Result<(i128, i64), String>)
    ensures
        (r matches Ok(p) ==> {
            &&& zdt_ns(s@) == Ok::<int, Seq<char>>(p.0 as int)
            &&& -inst_ns_bound() <= p.0 as int <= inst_ns_bound()
            &&& p.1 as int == (p.0 as int) / 1_000_000
        }),
        r is Ok <==> zdt_parse(s@) is Ok,
        (r matches Err(e) ==> zdt_parse(s@) == Err::<Seq<char>, Seq<char>>(e@) && zdt_ns(s@)
            == Err::<int, Seq<char>>(e@)),
{
    match ZonedDateTime::from_utf8(
        s.as_bytes(),
        Disambiguation::Compatible,
        OffsetDisambiguation::Reject,
    ) {
        Ok(z) => Ok((z.epoch_nanoseconds().as_i128(), z.epoch_milliseconds())),
        Err(e) => Err(e.to_string()),
    }
}

/// Relies on `temporal_rs::PlainDateTime::to_zoned_date_time`: projects a
/// date-time into a zone under the disambiguation policy with the given
/// code (earlier, later, reject; anything else compatible) and serializes
/// the result canonically; the serialization reparses to itself.
#[verifier::external_body]
pub fn eng_zdt_from_pdt(pdt: &str, tz: &str, code: u8) -> (r: Result<String, String>)
    ensures
        sview(r) == zdt_from_pdt(pdt@, tz@, code as int),
        (r matches Ok(c) ==> zdt_parse(c@) == Ok::<Seq<char>, Seq<char>>(c@)),
{
    let d = match PlainDateTime::from_str(pdt) { Ok(v) => v, Err(e) => return Err(e.to_string()) };
    let z = match TimeZone::try_from_str(tz) { Ok(v) => v, Err(e) => return Err(e.to_string()) };
    let disambig = match code {
        1 => Disambiguation::Earlier,
        2 => Disambiguation::Later,
        3 => Disambiguation::Reject,
        _ => Disambiguation::Compatible,
    };
    match d.to_zoned_date_time(z, disambig) {
        Ok(zdt) => zdt.to_ixdtf_string(DisplayOffset::Auto, DisplayTimeZone::Auto, DisplayCalendar::Auto, ToStringRoundingOptions::default()).map_err(|e| e.to_string()),
        Err(e) => Err(e.to_string()),
    }
}

/// Relies on `temporal_rs::ZonedDateTime::add` with overflow rejected.
#[verifier::external_body]
pub fn eng_zdt_add(t: &str, d: &str) -> (r: Result<String, String>)
    ensures
        sview(r) == zdt_add(t@, d@),
{
    let z = match ZonedDateTime::from_utf8(t.as_bytes(), Disambiguation::Compatible, OffsetDisambiguation::Reject) {
        Ok(v) => v,
        Err(e) => return Err(e.to_string()),
    };
    let dur = match Duration::from_str(d) { Ok(v) => v, Err(e) => return Err(e.to_string()) };
    match z.add(&dur, Some(Overflow::Reject)) {
        Ok(v) => v.to_ixdtf_string(DisplayOffset::Auto, DisplayTimeZone::Auto, DisplayCalendar::Auto, ToStringRoundingOptions::default()).map_err(|e| e.to_string()),
        Err(e) => Err(e.to_string()),
    }
}

/// Relies on `temporal_rs::ZonedDateTime::subtract` with overflow
/// rejected.
#[verifier::external_body]
pub fn eng_zdt_subtract(t: &str, d: &str) -> (r: Result<String, String>)
    ensures
        sview(r) == zdt_subtract(t@, d@),
{
    let z = match ZonedDateTime::from_utf8(t.as_bytes(), Disambiguation::Compatible, OffsetDisambiguation::Reject) {
        Ok(v) => v,
        Err(e) => return Err(e.to_string()),
    };
    let dur = match Duration::from_str(d) { Ok(v) => v, Err(e) => return Err(e.to_string()) };
    match z.subtract(&dur, Some(Overflow::Reject)) {
        Ok(v) => v.to_ixdtf_string(DisplayOffset::Auto, DisplayTimeZone::Auto, DisplayCalendar::Auto, ToStringRoundingOptions::default()).map_err(|e| e.to_string()),
        Err(e) => Err(e.to_string()),
    }
}

/// Relies on `temporal_rs::ZonedDateTime::until`: the difference between
/// two zoned date-times as a duration.
#[verifier::external_body]
pub fn eng_zdt_until(a: &str, b: &str) -> (r: Result<String, String>)
    ensures
        sview(r) == zdt_until(a@, b@),
{
    let za = match ZonedDateTime::from_utf8(a.as_bytes(), Disambiguation::Compatible, OffsetDisambiguation::Reject) {
        Ok(v) => v,
        Err(e) => return Err(e.to_string()),
    };
    let zb = match ZonedDateTime::from_utf8(b.as_bytes(), Disambiguation::Compatible, OffsetDisambiguation::Reject) {
        Ok(v) => v,
        Err(e) => return Err(e.to_string()),
    };
    match za.until(&zb, DifferenceSettings::default()) {
        Ok(v) => Ok(v.to_string()),
        Err(e) => Err(e.to_string()),
    }
}

/// Relies on `temporal_rs::ZonedDateTime::since`: the difference between
/// two zoned date-times as a duration.
#[verifier::external_body]
pub fn eng_zdt_since(a: &str, b: &str) -> (r: Result<String, String>)
    ensures
        sview(r) == zdt_since(a@, b@),
{
    let za = match ZonedDateTime::from_utf8(a.as_bytes(), Disambiguation::Compatible, OffsetDisambiguation::Reject) {
        Ok(v) => v,
        Err(e) => return Err(e.to_string()),
    };
    let zb = match ZonedDateTime::from_utf8(b.as_bytes(), Disambiguation::Compatible, OffsetDisambiguation::Reject) {
        Ok(v) => v,
        Err(e) => return Err(e.to_string()),
    };
    match za.since(&zb, DifferenceSettings::default()) {
        Ok(v) => Ok(v.to_string()),
        Err(e) => Err(e.to_string()),
    }
}

/// Relies on `temporal_rs::options::Unit::from_str`: whether the string
/// names a rounding unit.
#[verifier::external_body]
pub fn eng_unit_ok(s: &str) -> (r: bool)
    ensures
        r == unit_ok(s@),
{
    Unit::from_str(s).is_ok()
}

/// Relies on `temporal_rs::options::RoundingMode::from_str`: whether the
/// string names a rounding mode.
#[verifier::external_body]
pub fn eng_mode_ok(s: &str) -> (r: bool)
    ensures
        r == mode_ok(s@),
{
    RoundingMode::from_str(s).is_ok()
}

/// Relies on `temporal_rs::options::RoundingIncrement::try_new`: the
/// engine's complaint about an unusable increment, if any.
#[verifier::external_body]
pub fn eng_incr_check(n: u32) -> (r: Option<String>)
    ensures
        (match r {
            Some(e) => incr_err(n as int) == Some(e@),
            None => incr_err(n as int) is None,
        }),
{
    match RoundingIncrement::try_new(n) {
        Ok(_) => None,
        Err(e) => Some(e.to_string()),
    }
}

/// Relies on `temporal_rs::ZonedDateTime::round`: rounds a zoned
/// date-time to the given unit, mode and increment, all already
/// validated.
#[verifier::external_body]
pub fn eng_zdt_round(s: &str, unit: &str, mode: &str, increment: u32) -> (r: Result<
    String,
    String,
>)
    ensures
        sview(r) == zdt_round(s@, unit@, mode@, increment as int),
{
    let z = ZonedDateTime::from_utf8(s.as_bytes(), Disambiguation::Compatible, OffsetDisambiguation::Reject).map_err(|e| e.to_string())?;
    let mut o = RoundingOptions::default();
    o.smallest_unit = Unit::from_str(unit).ok();
    o.rounding_mode = RoundingMode::from_str(mode).ok();
    o.increment = RoundingIncrement::try_new(increment).ok();
    match z.round(o) {
        Ok(v) => v.to_ixdtf_string(DisplayOffset::Auto, DisplayTimeZone::Auto, DisplayCalendar::Auto, ToStringRoundingOptions::default()).map_err(|e| e.to_string()),
        Err(e) => Err(e.to_string()),
    }
}

/// Relies on `temporal_rs::ZonedDateTime::to_instant`: the instant of
/// the parsed value, serialized canonically in UTC.
#[verifier::external_body]
pub fn eng_zdt_to_instant(s: &str) -> (r: Result<String, String>)
    ensures
        sview(r) == zdt_to_instant(s@),
        (r matches Ok(c) ==> inst_parse(c@) == Ok::<Seq<char>, Seq<char>>(c@)),
{
    match ZonedDateTime::from_utf8(
        s.as_bytes(),
        Disambiguation::Compatible,
        OffsetDisambiguation::Reject,
    ) {
        Ok(z) => match z.to_instant().to_ixdtf_string(
            None,
            ToStringRoundingOptions::default(),
        ) {
            Ok(v) => Ok(v),
            Err(e) => Err(e.to_string()),
        },
        Err(e) => Err(e.to_string()),
    }
}

/// Relies on `temporal_rs::ZonedDateTime::to_plain_date`: the plain date
/// of the parsed value.
#[verifier::external_body]
pub fn eng_zdt_to_date(s: &str) -> (r: Result<String, String>)
    ensures
        (r matches Ok(c) ==> c@ == zdt_to_date(s@)),
        r is Ok <==> zdt_parse(s@) is Ok,
        (r matches Err(e) ==> zdt_parse(s@) == Err::<Seq<char>, Seq<char>>(e@)),
{
    match ZonedDateTime::from_utf8(
        s.as_bytes(),
        Disambiguation::Compatible,
        OffsetDisambiguation::Reject,
    ) {
        Ok(z) => Ok(z.to_plain_date().to_ixdtf_string(
            DisplayCalendar::Auto,
        )),
        Err(e) => Err(e.to_string()),
    }
}

/// Relies on `temporal_rs::ZonedDateTime::to_plain_time`: the plain time
/// of the parsed value.
#[verifier::external_body]
pub fn eng_zdt_to_time(s: &str) -> (r: Result<String, String>)
    ensures
        sview(r) == zdt_to_time(s@),
{
    match ZonedDateTime::from_utf8(
        s.as_bytes(),
        Disambiguation::Compatible,
        OffsetDisambiguation::Reject,
    ) {
        Ok(z) => match z.to_plain_time().to_ixdtf_string(
            ToStringRoundingOptions::default(),
        ) {
            Ok(v) => Ok(v),
            Err(e) => Err(e.to_string()),
        },
        Err(e) => Err(e.to_string()),
    }
}

/// Relies on `temporal_rs::ZonedDateTime::to_plain_date_time`: the plain
/// date-time of the parsed value.
#[verifier::external_body]
pub fn eng_zdt_to_dt(s: &str) -> (r: Result<String, String>)
    ensures
        sview(r) == zdt_to_dt(s@),
{
    match ZonedDateTime::from_utf8(
        s.as_bytes(),
        Disambiguation::Compatible,
        OffsetDisambiguation::Reject,
    ) {
        Ok(z) => match z.to_plain_date_time().to_ixdtf_string(
            ToStringRoundingOptions::default(),
            DisplayCalendar::Auto,
        ) {
            Ok(v) => Ok(v),
            Err(e) => Err(e.to_string()),
        },
        Err(e) => Err(e.to_string()),
    }
}

/// Relies on `temporal_rs::Instant::to_zoned_date_time_iso`: projects an
/// instant into a zone with the ISO calendar and serializes the result
/// canonically; the serialization reparses to itself.
#[verifier::external_body]
pub fn eng_instant_to_zdt(inst: &str, tz: &str) -> (r: Result<String, String>)
    ensures
        sview(r) == inst_to_zdt(inst@, tz@),
        (r matches Ok(c) ==> zdt_parse(c@) == Ok::<Seq<char>, Seq<char>>(c@)),
{
    let i = match Instant::from_str(inst) { Ok(v) => v, Err(e) => return Err(e.to_string()) };
    let z = match TimeZone::try_from_str(tz) { Ok(v) => v, Err(e) => return Err(e.to_string()) };
    match i.to_zoned_date_time_iso(z) {
        Ok(zdt) => zdt.to_ixdtf_string(DisplayOffset::Auto, DisplayTimeZone::Auto, DisplayCalendar::Auto, ToStringRoundingOptions::default()).map_err(|e| e.to_string()),
        Err(e) => Err(e.to_string()),
    }
}

/// Relies on `temporal_rs::Temporal::utc_now` and `Now::instant`: reads
/// the host clock.  The outcome depends on the clock, so nothing is
/// assumed of the value beyond its form: a successful read yields a
/// canonical instant string.
#[verifier::external_body]
pub fn eng_now_instant() -> (r: Result<String, String>)
    ensures
        (r matches Ok(c) ==> inst_parse(c@) == Ok::<Seq<char>, Seq<char>>(c@)),
{
    let i = match Temporal::utc_now().instant() {
        Ok(v) => v,
        Err(e) => return Err(e.to_string()),
    };
    match i.to_ixdtf_string(None, ToStringRoundingOptions::default()) {
        Ok(v) => Ok(v),
        Err(e) => Err(e.to_string()),
    }
}

} // verus!
