//! Duration operations: parsing, component extraction, arithmetic,
//! construction from fields, sentinel-based partial update, and
//! comparison.
//!
//! Construction and update enforce the sign-consistency rule themselves:
//! all non-zero resolved fields must share one sign, or the operation
//! fails with a range error before the engine is called.

use vstd::prelude::*;

use crate::components::DurationComponents;
use crate::engine::dur_abs;
use crate::engine::dur_add;
use crate::engine::dur_negated;
use crate::engine::dur_new_of;
use crate::engine::dur_parse;
use crate::engine::dur_parts;
use crate::engine::dur_parts_wf;
use crate::engine::dur_subtract;
use crate::engine::eng_duration_abs;
use crate::engine::eng_duration_add;
use crate::engine::eng_duration_negated;
use crate::engine::eng_duration_new;
use crate::engine::eng_duration_parse;
use crate::engine::eng_duration_parts;
use crate::engine::eng_duration_subtract;
use crate::engine::DurationParts;
use crate::envelope::is_cmp_range_error;
use crate::envelope::is_cmp_success;
use crate::envelope::is_cmp_type_error;
use crate::envelope::is_range_error;
use crate::envelope::is_success;
use crate::envelope::is_type_error;
use crate::envelope::CompareResult;
use crate::envelope::TemporalResult;
use crate::marshal::build_msg_invalid;
use crate::marshal::build_msg_failed;
use crate::marshal::build_msg_null;
use crate::marshal::build_msg_prefix;
use crate::marshal::msg_failed;
use crate::marshal::msg_invalid;
use crate::marshal::msg_null;
use crate::marshal::require_str;
use vstd::string::StringExecFns;

verus! {

/// Sentinel meaning "leave this field at its current value" in update
/// operations: the host platform's lowest safe integer, outside the legal
/// domain of every duration field the engine accepts.
pub const UNCHANGED_SENTINEL: i64 = -9007199254740991;

/// The sign of an integer: -1, 0, or 1.
pub open spec fn sign_of(v: int) -> int {
    if v > 0 {
        1
    } else if v < 0 {
        -1
    } else {
        0
    }
}

/// Whether the ten fields hold both a positive and a negative value.
pub open spec fn dur_mixed_signs(p: DurationParts) -> bool {
    &&& (p.years > 0 || p.months > 0 || p.weeks > 0 || p.days > 0 || p.hours > 0 || p.minutes > 0
        || p.seconds > 0 || p.milliseconds > 0 || p.microseconds > 0 || p.nanoseconds > 0)
    &&& (p.years < 0 || p.months < 0 || p.weeks < 0 || p.days < 0 || p.hours < 0 || p.minutes < 0
        || p.seconds < 0 || p.milliseconds < 0 || p.microseconds < 0 || p.nanoseconds < 0)
}

/// The sign of a duration: the sign of its first non-zero field, in field
/// order from years down to nanoseconds.
pub open spec fn dur_parts_sign(p: DurationParts) -> int {
    if p.years != 0 { sign_of(p.years as int) }
    else if p.months != 0 { sign_of(p.months as int) }
    else if p.weeks != 0 { sign_of(p.weeks as int) }
    else if p.days != 0 { sign_of(p.days as int) }
    else if p.hours != 0 { sign_of(p.hours as int) }
    else if p.minutes != 0 { sign_of(p.minutes as int) }
    else if p.seconds != 0 { sign_of(p.seconds as int) }
    else if p.milliseconds != 0 { sign_of(p.milliseconds as int) }
    else if p.microseconds != 0 { sign_of(p.microseconds as int) }
    else if p.nanoseconds != 0 { sign_of(p.nanoseconds as int) }
    else { 0 }
}

/// `x` clamped into the `i64` range.
pub open spec fn clamp_to_i64(x: int) -> int {
    if x < i64::MIN as int {
        i64::MIN as int
    } else if x > i64::MAX as int {
        i64::MAX as int
    } else {
        x
    }
}

/// The component snapshot of a parsed duration: the stored fields, the
/// sub-millisecond ones clamped into 64 bits, with the sign and validity
/// flags set.
pub open spec fn dur_components_of(p: DurationParts) -> DurationComponents {
    (DurationComponents {
        years: p.years,
        months: p.months,
        weeks: p.weeks,
        days: p.days,
        hours: p.hours,
        minutes: p.minutes,
        seconds: p.seconds,
        milliseconds: p.milliseconds,
        microseconds: clamp_to_i64(p.microseconds as int) as i64,
        nanoseconds: clamp_to_i64(p.nanoseconds as int) as i64,
        sign: dur_parts_sign(p) as i8,
        is_valid: 1,
    })
}

/// The field record an update resolves to: each argument equal to the
/// sentinel is replaced by the original's field (clamped into 64 bits for
/// the sub-millisecond fields), every other argument is taken as given.
pub open spec fn dur_with_resolved(
    p: DurationParts,
    years: i64,
    months: i64,
    weeks: i64,
    days: i64,
    hours: i64,
    minutes: i64,
    seconds: i64,
    milliseconds: i64,
    microseconds: i64,
    nanoseconds: i64,
) -> DurationParts {
    (DurationParts {
        years: if years == UNCHANGED_SENTINEL { p.years } else { years },
        months: if months == UNCHANGED_SENTINEL { p.months } else { months },
        weeks: if weeks == UNCHANGED_SENTINEL { p.weeks } else { weeks },
        days: if days == UNCHANGED_SENTINEL { p.days } else { days },
        hours: if hours == UNCHANGED_SENTINEL { p.hours } else { hours },
        minutes: if minutes == UNCHANGED_SENTINEL { p.minutes } else { minutes },
        seconds: if seconds == UNCHANGED_SENTINEL { p.seconds } else { seconds },
        milliseconds: if milliseconds == UNCHANGED_SENTINEL { p.milliseconds } else {
            milliseconds
        },
        microseconds: if microseconds == UNCHANGED_SENTINEL {
            clamp_to_i64(p.microseconds as int) as i128
        } else {
            microseconds as i128
        },
        nanoseconds: if nanoseconds == UNCHANGED_SENTINEL {
            clamp_to_i64(p.nanoseconds as int) as i128
        } else {
            nanoseconds as i128
        },
    })
}

/// The total length of the clock part of a duration, in nanoseconds.
pub open spec fn dur_total_ns(p: DurationParts) -> int {
    p.days * 86_400_000_000_000 + p.hours * 3_600_000_000_000 + p.minutes * 60_000_000_000
        + p.seconds * 1_000_000_000 + p.milliseconds * 1_000_000 + p.microseconds * 1_000
        + p.nanoseconds
}

/// Three-way comparison of two integers: -1, 0, or 1.
pub open spec fn cmp3(a: int, b: int) -> int {
    if a < b {
        -1
    } else if a > b {
        1
    } else {
        0
    }
}

/// Clamps a 128-bit value into the `i64` range.
fn clamp128(x: i128) -> (r: i64)
    ensures
        r as int == clamp_to_i64(x as int),
{
    if x < i64::MIN as i128 {
        i64::MIN
    } else if x > i64::MAX as i128 {
        i64::MAX
    } else {
        x as i64
    }
}

/// Returns the sign of a 64-bit value as -1, 0, or 1.
fn sgn64(v: i64) -> (s: i8)
    ensures
        s as int == sign_of(v as int),
{
    if v > 0 { 1 } else if v < 0 { -1 } else { 0 }
}

/// Returns the sign of a 128-bit value as -1, 0, or 1.
fn sgn128(v: i128) -> (s: i8)
    ensures
        s as int == sign_of(v as int),
{
    if v > 0 { 1 } else if v < 0 { -1 } else { 0 }
}

/// Whether any resolved field is positive and any is negative, in which
/// case construction must be refused.
fn mixed_signs_check(p: &DurationParts) -> (m: bool)
    ensures
        m == dur_mixed_signs(*p),
{
    let any_pos = p.years > 0 || p.months > 0 || p.weeks > 0 || p.days > 0 || p.hours > 0
        || p.minutes > 0 || p.seconds > 0 || p.milliseconds > 0 || p.microseconds > 0
        || p.nanoseconds > 0;
    let any_neg = p.years < 0 || p.months < 0 || p.weeks < 0 || p.days < 0 || p.hours < 0
        || p.minutes < 0 || p.seconds < 0 || p.milliseconds < 0 || p.microseconds < 0
        || p.nanoseconds < 0;
    any_pos && any_neg
}

/// Constructs a duration from resolved fields: refuses mixed signs with a
/// range error, otherwise asks the engine to validate and serialize.
fn construct_duration(p: DurationParts, err_prefix: &str) -> (r: TemporalResult)
    ensures
        dur_mixed_signs(p) ==> is_range_error(
            r,
            "All non-zero duration values must have the same sign"@,
        ),
        !dur_mixed_signs(p) ==> match dur_new_of(p) {
            Ok(c) => is_success(r, c),
            Err(e) => is_range_error(r, err_prefix@ + e),
        },
{
    if mixed_signs_check(&p) {
        return TemporalResult::range_error(
            String::from_str("All non-zero duration values must have the same sign"),
        );
    }
    match eng_duration_new(p) {
        Ok(v) => TemporalResult::success(v),
        Err(e) => TemporalResult::range_error(build_msg_prefix(err_prefix, e.as_str())),
    }
}

/// Parses an ISO 8601 duration string and returns its canonical form in a
/// result envelope.  A canonical output always reparses to itself, so an
/// already-canonical string round-trips unchanged.
pub fn temporal_duration_from_string(s: Option<&str>) -> (r: TemporalResult)
    ensures
        ({
            match s {
                None => is_type_error(r, msg_null("Duration string"@)),
                Some(v) => match dur_parse(v@) {
                    Err(e) => is_range_error(r, msg_invalid("duration"@, v@, e)),
                    Ok(c) => is_success(r, c) && dur_parse(c) == Ok::<Seq<char>, Seq<char>>(c),
                },
            }
        }),
{
    let v = match require_str(s, "Duration string") {
        Ok(v) => v,
        Err(e) => return e,
    };
    match eng_duration_parse(v) {
        Ok(c) => TemporalResult::success(c),
        Err(e) => TemporalResult::range_error(build_msg_invalid("duration", v, e.as_str())),
    }
}

/// Extracts all component values of a duration string in one call.  The
/// snapshot is reset to its all-zero, invalid state first and filled only
/// when the input parses, so a failed extraction never leaves partial
/// data.
pub fn temporal_duration_get_components(s: Option<&str>, out: &mut DurationComponents)
    ensures
        ({
            match s {
                None => *final(out) == DurationComponents::zeroed(),
                Some(v) => match dur_parts(v@) {
                    None => *final(out) == DurationComponents::zeroed(),
                    Some(p) => *final(out) == dur_components_of(p),
                },
            }
        }),
{
    *out = DurationComponents::default();
    let v = match s {
        Some(v) => v,
        None => return,
    };
    let p = match eng_duration_parts(v) {
        Ok(p) => p,
        Err(_) => return,
    };
    out.years = p.years;
    out.months = p.months;
    out.weeks = p.weeks;
    out.days = p.days;
    out.hours = p.hours;
    out.minutes = p.minutes;
    out.seconds = p.seconds;
    out.milliseconds = p.milliseconds;
    out.microseconds = clamp128(p.microseconds);
    out.nanoseconds = clamp128(p.nanoseconds);
    out.sign = if p.years != 0 { sgn64(p.years) }
    else if p.months != 0 { sgn64(p.months) }
    else if p.weeks != 0 { sgn64(p.weeks) }
    else if p.days != 0 { sgn64(p.days) }
    else if p.hours != 0 { sgn64(p.hours) }
    else if p.minutes != 0 { sgn64(p.minutes) }
    else if p.seconds != 0 { sgn64(p.seconds) }
    else if p.milliseconds != 0 { sgn64(p.milliseconds) }
    else if p.microseconds != 0 { sgn128(p.microseconds) }
    else if p.nanoseconds != 0 { sgn128(p.nanoseconds) }
    else { 0 };
    out.is_valid = 1;
}

/// Adds two durations given as strings.
pub fn temporal_duration_add(a: Option<&str>, b: Option<&str>) -> (r: TemporalResult)
    ensures
        ({
            match (a, b) {
                (None, _) => is_type_error(r, msg_null("first duration"@)),
                (Some(va), None) => match dur_parse(va@) {
                    Err(e) => is_range_error(r, msg_invalid("duration"@, va@, e)),
                    Ok(_) => is_type_error(r, msg_null("second duration"@)),
                },
                (Some(va), Some(vb)) => match (dur_parse(va@), dur_parse(vb@)) {
                    (Err(e), _) => is_range_error(r, msg_invalid("duration"@, va@, e)),
                    (Ok(_), Err(e)) => is_range_error(r, msg_invalid("duration"@, vb@, e)),
                    (Ok(_), Ok(_)) => match dur_add(va@, vb@) {
                        Ok(c) => is_success(r, c),
                        Err(e) => is_range_error(r, msg_failed("add durations"@, e)),
                    },
                },
            }
        }),
{
    let va = match require_str(a, "first duration") {
        Ok(v) => v,
        Err(e) => return e,
    };
    match eng_duration_parse(va) {
        Ok(_) => (),
        Err(e) => return TemporalResult::range_error(
            build_msg_invalid("duration", va, e.as_str()),
        ),
    }
    let vb = match require_str(b, "second duration") {
        Ok(v) => v,
        Err(e) => return e,
    };
    match eng_duration_parse(vb) {
        Ok(_) => (),
        Err(e) => return TemporalResult::range_error(
            build_msg_invalid("duration", vb, e.as_str()),
        ),
    }
    match eng_duration_add(va, vb) {
        Ok(v) => TemporalResult::success(v),
        Err(e) => TemporalResult::range_error(build_msg_failed("add durations", e.as_str())),
    }
}

/// Subtracts the second duration from the first.
pub fn temporal_duration_subtract(a: Option<&str>, b: Option<&str>) -> (r: TemporalResult)
    ensures
        ({
            match (a, b) {
                (None, _) => is_type_error(r, msg_null("first duration"@)),
                (Some(va), None) => match dur_parse(va@) {
                    Err(e) => is_range_error(r, msg_invalid("duration"@, va@, e)),
                    Ok(_) => is_type_error(r, msg_null("second duration"@)),
                },
                (Some(va), Some(vb)) => match (dur_parse(va@), dur_parse(vb@)) {
                    (Err(e), _) => is_range_error(r, msg_invalid("duration"@, va@, e)),
                    (Ok(_), Err(e)) => is_range_error(r, msg_invalid("duration"@, vb@, e)),
                    (Ok(_), Ok(_)) => match dur_subtract(va@, vb@) {
                        Ok(c) => is_success(r, c),
                        Err(e) => is_range_error(r, msg_failed("subtract durations"@, e)),
                    },
                },
            }
        }),
{
    let va = match require_str(a, "first duration") {
        Ok(v) => v,
        Err(e) => return e,
    };
    match eng_duration_parse(va) {
        Ok(_) => (),
        Err(e) => return TemporalResult::range_error(
            build_msg_invalid("duration", va, e.as_str()),
        ),
    }
    let vb = match require_str(b, "second duration") {
        Ok(v) => v,
        Err(e) => return e,
    };
    match eng_duration_parse(vb) {
        Ok(_) => (),
        Err(e) => return TemporalResult::range_error(
            build_msg_invalid("duration", vb, e.as_str()),
        ),
    }
    match eng_duration_subtract(va, vb) {
        Ok(v) => TemporalResult::success(v),
        Err(e) => TemporalResult::range_error(build_msg_failed("subtract durations", e.as_str())),
    }
}

/// Negates a duration.
pub fn temporal_duration_negated(s: Option<&str>) -> (r: TemporalResult)
    ensures
        ({
            match s {
                None => is_type_error(r, msg_null("duration"@)),
                Some(v) => match dur_parse(v@) {
                    Err(e) => is_range_error(r, msg_invalid("duration"@, v@, e)),
                    Ok(_) => (dur_negated(v@) matches Ok(c) && is_success(r, c)),
                },
            }
        }),
{
    let v = match require_str(s, "duration") {
        Ok(v) => v,
        Err(e) => return e,
    };
    match eng_duration_parse(v) {
        Ok(_) => (),
        Err(e) => return TemporalResult::range_error(
            build_msg_invalid("duration", v, e.as_str()),
        ),
    }
    match eng_duration_negated(v) {
        Ok(c) => TemporalResult::success(c),
        Err(e) => TemporalResult::range_error(build_msg_failed("negate duration", e.as_str())),
    }
}

/// Takes the absolute value of a duration.
pub fn temporal_duration_abs(s: Option<&str>) -> (r: TemporalResult)
    ensures
        ({
            match s {
                None => is_type_error(r, msg_null("duration"@)),
                Some(v) => match dur_parse(v@) {
                    Err(e) => is_range_error(r, msg_invalid("duration"@, v@, e)),
                    Ok(_) => (dur_abs(v@) matches Ok(c) && is_success(r, c)),
                },
            }
        }),
{
    let v = match require_str(s, "duration") {
        Ok(v) => v,
        Err(e) => return e,
    };
    match eng_duration_parse(v) {
        Ok(_) => (),
        Err(e) => return TemporalResult::range_error(
            build_msg_invalid("duration", v, e.as_str()),
        ),
    }
    match eng_duration_abs(v) {
        Ok(c) => TemporalResult::success(c),
        Err(e) => TemporalResult::range_error(build_msg_failed("abs duration", e.as_str())),
    }
}

/// Creates a duration from ten field values.  Non-zero fields with mixed
/// signs are always refused with a range error before the engine runs.
pub fn temporal_duration_from_components(
    years: i64,
    months: i64,
    weeks: i64,
    days: i64,
    hours: i64,
    minutes: i64,
    seconds: i64,
    milliseconds: i64,
    microseconds: i64,
    nanoseconds: i64,
) -> (r: TemporalResult)
    ensures
        ({
            let p = DurationParts {
                years,
                months,
                weeks,
                days,
                hours,
                minutes,
                seconds,
                milliseconds,
                microseconds: microseconds as i128,
                nanoseconds: nanoseconds as i128,
            };
            &&& (dur_mixed_signs(p) ==> is_range_error(
                r,
                "All non-zero duration values must have the same sign"@,
            ))
            &&& (!dur_mixed_signs(p) ==> match dur_new_of(p) {
                Ok(c) => is_success(r, c),
                Err(e) => is_range_error(r, "Invalid duration components: "@ + e),
            })
        }),
{
    let p = DurationParts {
        years,
        months,
        weeks,
        days,
        hours,
        minutes,
        seconds,
        milliseconds,
        microseconds: microseconds as i128,
        nanoseconds: nanoseconds as i128,
    };
    construct_duration(p, "Invalid duration components: ")
}

/// Creates a new duration by replacing chosen fields of an existing one.
/// An argument equal to `UNCHANGED_SENTINEL` keeps the original field.
/// Resolving every field to the original reconstructs the original value,
/// and mixed signs among the resolved fields are always refused.
pub fn temporal_duration_with(
    original: Option<&str>,
    years: i64,
    months: i64,
    weeks: i64,
    days: i64,
    hours: i64,
    minutes: i64,
    seconds: i64,
    milliseconds: i64,
    microseconds: i64,
    nanoseconds: i64,
) -> (r: TemporalResult)
    ensures
        ({
            match original {
                None => is_type_error(r, msg_null("duration"@)),
                Some(v) => match (dur_parse(v@), dur_parts(v@)) {
                    (Err(e), _) => is_range_error(r, msg_invalid("duration"@, v@, e)),
                    (Ok(_), None) => false,
                    (Ok(_), Some(p)) => ({
                        let q = dur_with_resolved(
                            p,
                            years,
                            months,
                            weeks,
                            days,
                            hours,
                            minutes,
                            seconds,
                            milliseconds,
                            microseconds,
                            nanoseconds,
                        );
                        &&& (dur_mixed_signs(q) ==> is_range_error(
                            r,
                            "All non-zero duration values must have the same sign"@,
                        ))
                        &&& (!dur_mixed_signs(q) ==> match dur_new_of(q) {
                            Ok(c) => is_success(r, c),
                            Err(e) => is_range_error(r, "Invalid duration: "@ + e),
                        })
                    }),
                },
            }
        }),
        ({
            match original {
                None => true,
                Some(v) => match (dur_parse(v@), dur_parts(v@)) {
                    (Ok(c), Some(p)) => (years == UNCHANGED_SENTINEL && months
                        == UNCHANGED_SENTINEL && weeks == UNCHANGED_SENTINEL && days
                        == UNCHANGED_SENTINEL && hours == UNCHANGED_SENTINEL && minutes
                        == UNCHANGED_SENTINEL && seconds == UNCHANGED_SENTINEL && milliseconds
                        == UNCHANGED_SENTINEL && microseconds == UNCHANGED_SENTINEL
                        && nanoseconds == UNCHANGED_SENTINEL && i64::MIN <= p.microseconds
                        <= i64::MAX && i64::MIN <= p.nanoseconds <= i64::MAX) ==> is_success(
                        r,
                        c,
                    ),
                    _ => true,
                },
            }
        }),
{
    let v = match require_str(original, "duration") {
        Ok(v) => v,
        Err(e) => return e,
    };
    let p = match eng_duration_parts(v) {
        Ok(p) => p,
        Err(e) => return TemporalResult::range_error(
            build_msg_invalid("duration", v, e.as_str()),
        ),
    };
    let q = DurationParts {
        years: if years == UNCHANGED_SENTINEL { p.years } else { years },
        months: if months == UNCHANGED_SENTINEL { p.months } else { months },
        weeks: if weeks == UNCHANGED_SENTINEL { p.weeks } else { weeks },
        days: if days == UNCHANGED_SENTINEL { p.days } else { days },
        hours: if hours == UNCHANGED_SENTINEL { p.hours } else { hours },
        minutes: if minutes == UNCHANGED_SENTINEL { p.minutes } else { minutes },
        seconds: if seconds == UNCHANGED_SENTINEL { p.seconds } else { seconds },
        milliseconds: if milliseconds == UNCHANGED_SENTINEL { p.milliseconds } else {
            milliseconds
        },
        microseconds: if microseconds == UNCHANGED_SENTINEL {
            clamp128(p.microseconds) as i128
        } else {
            microseconds as i128
        },
        nanoseconds: if nanoseconds == UNCHANGED_SENTINEL {
            clamp128(p.nanoseconds) as i128
        } else {
            nanoseconds as i128
        },
    };
    proof {
        let q_spec = dur_with_resolved(
            p,
            years,
            months,
            weeks,
            days,
            hours,
            minutes,
            seconds,
            milliseconds,
            microseconds,
            nanoseconds,
        );
        assert(q == q_spec);
    }
    construct_duration(q, "Invalid duration: ")
}

/// Compares two durations by total clock length.  Durations carrying
/// calendar units (years, months, or weeks) cannot be compared without a
/// reference point and are refused.
pub fn temporal_duration_compare(a: Option<&str>, b: Option<&str>) -> (r: CompareResult)
    ensures
        ({
            match (a, b) {
                (None, _) => is_cmp_type_error(r, msg_null("first duration"@)),
                (Some(va), None) => match dur_parse(va@) {
                    Err(e) => is_cmp_range_error(r, msg_invalid("duration"@, va@, e)),
                    Ok(_) => is_cmp_type_error(r, msg_null("second duration"@)),
                },
                (Some(va), Some(vb)) => match (dur_parts(va@), dur_parts(vb@)) {
                    (None, _) => (dur_parse(va@) matches Err(e) && is_cmp_range_error(
                        r,
                        msg_invalid("duration"@, va@, e),
                    )),
                    (Some(_), None) => (dur_parse(vb@) matches Err(e) && is_cmp_range_error(
                        r,
                        msg_invalid("duration"@, vb@, e),
                    )),
                    (Some(pa), Some(pb)) => ({
                        let calendar = pa.years != 0 || pa.months != 0 || pa.weeks != 0
                            || pb.years != 0 || pb.months != 0 || pb.weeks != 0;
                        &&& (calendar ==> is_cmp_range_error(
                            r,
                            "Comparing durations with years, months, or weeks requires a relativeTo option (not yet supported)"@,
                        ))
                        &&& (!calendar ==> is_cmp_success(
                            r,
                            cmp3(dur_total_ns(pa), dur_total_ns(pb)),
                        ))
                    }),
                },
            }
        }),
{
    let va = match a {
        Some(v) => v,
        None => return CompareResult::type_error(build_msg_null("first duration")),
    };
    let pa = match eng_duration_parts(va) {
        Ok(p) => p,
        Err(e) => return CompareResult::range_error(
            build_msg_invalid("duration", va, e.as_str()),
        ),
    };
    let vb = match b {
        Some(v) => v,
        None => return CompareResult::type_error(build_msg_null("second duration")),
    };
    let pb = match eng_duration_parts(vb) {
        Ok(p) => p,
        Err(e) => return CompareResult::range_error(
            build_msg_invalid("duration", vb, e.as_str()),
        ),
    };
    if pa.years != 0 || pa.months != 0 || pa.weeks != 0 || pb.years != 0 || pb.months != 0
        || pb.weeks != 0 {
        return CompareResult::range_error(
            String::from_str(
                "Comparing durations with years, months, or weeks requires a relativeTo option (not yet supported)",
            ),
        );
    }
    let ta = total_clock_ns(&pa);
    let tb = total_clock_ns(&pb);
    if ta < tb {
        CompareResult::success(-1)
    } else if ta > tb {
        CompareResult::success(1)
    } else {
        CompareResult::success(0)
    }
}

/// Sums the clock fields of a duration in nanoseconds.  The engine bounds
/// on a stored duration keep the sum well inside 128 bits.
fn total_clock_ns(p: &DurationParts) -> (t: i128)
    requires
        dur_parts_wf(*p),
    ensures
        t as int == dur_total_ns(*p),
{
    let d: i128 = p.days as i128 * 86_400_000_000_000;
    let h: i128 = p.hours as i128 * 3_600_000_000_000;
    let mi: i128 = p.minutes as i128 * 60_000_000_000;
    let se: i128 = p.seconds as i128 * 1_000_000_000;
    let ms: i128 = p.milliseconds as i128 * 1_000_000;
    let us: i128 = p.microseconds * 1_000;
    d + h + mi + se + ms + us + p.nanoseconds
}

} // verus!
