//! Plain wall-clock time operations: parsing, construction from fields
//! with explicit range validation, component extraction, duration
//! arithmetic, and comparison.

use vstd::prelude::*;

use crate::components::PlainTimeComponents;
use crate::duration::cmp3;
use crate::engine::dur_parse;
use crate::engine::eng_duration_parse;
use crate::engine::eng_time_add;
use crate::engine::eng_time_new;
use crate::engine::eng_time_parse;
use crate::engine::eng_time_parts;
use crate::engine::eng_time_subtract;
use crate::engine::time_add;
use crate::engine::time_fields_in_range;
use crate::engine::time_new;
use crate::engine::time_parse;
use crate::engine::time_parts;
use crate::engine::time_subtract;
use crate::engine::TimeParts;
use crate::envelope::is_cmp_range_error;
use crate::envelope::is_cmp_success;
use crate::envelope::is_cmp_type_error;
use crate::envelope::is_range_error;
use crate::envelope::is_success;
use crate::envelope::is_type_error;
use crate::envelope::CompareResult;
use crate::envelope::TemporalResult;
use crate::marshal::build_msg_failed;
use crate::marshal::build_msg_invalid;
use crate::marshal::build_msg_null;
use crate::marshal::build_msg_wrap;
use crate::marshal::msg_failed;
use crate::marshal::msg_invalid;
use crate::marshal::msg_null;
use crate::marshal::require_str;
use crate::textutil::dec_int;
use crate::textutil::fmt_i64;

verus! {

/// The out-of-range message for one time field: names the field, embeds
/// the offending value, and states the legal range.
pub open spec fn msg_time_range(field: Seq<char>, value: int, range: Seq<char>) -> Seq<char> {
    "Invalid "@ + field + ": "@ + dec_int(value) + " (must be "@ + range + ")"@
}

/// Ordering of two times by their fields, most significant first.
pub open spec fn time_parts_cmp(a: TimeParts, b: TimeParts) -> int {
    if a.hour != b.hour {
        cmp3(a.hour as int, b.hour as int)
    } else if a.minute != b.minute {
        cmp3(a.minute as int, b.minute as int)
    } else if a.second != b.second {
        cmp3(a.second as int, b.second as int)
    } else if a.millisecond != b.millisecond {
        cmp3(a.millisecond as int, b.millisecond as int)
    } else if a.microsecond != b.microsecond {
        cmp3(a.microsecond as int, b.microsecond as int)
    } else {
        cmp3(a.nanosecond as int, b.nanosecond as int)
    }
}

/// The component snapshot of a parsed time.
pub open spec fn time_components_of(p: TimeParts) -> PlainTimeComponents {
    (PlainTimeComponents {
        hour: p.hour,
        minute: p.minute,
        second: p.second,
        millisecond: p.millisecond,
        microsecond: p.microsecond,
        nanosecond: p.nanosecond,
        is_valid: 1,
    })
}

/// Builds the out-of-range message for one time field.
fn build_msg_time_range(field: &str, value: i64, range: &str) -> (m: String)
    ensures
        m@ == msg_time_range(field@, value as int, range@),
{
    let num = fmt_i64(value);
    let mut s = build_msg_wrap("Invalid ", field, ": ");
    s.append(num.as_str());
    s.append(" (must be ");
    s.append(range);
    s.append(")");
    assert(s@ =~= msg_time_range(field@, value as int, range@));
    s
}

/// Parses an ISO 8601 time string and returns its canonical form in a
/// result envelope.  A canonical output always reparses to itself.
pub fn temporal_plain_time_from_string(s: Option<&str>) -> (r: TemporalResult)
    ensures
        ({
            match s {
                None => is_type_error(r, msg_null("plain time string"@)),
                Some(v) => match time_parse(v@) {
                    Err(e) => is_range_error(r, msg_invalid("plain time"@, v@, e)),
                    Ok(c) => is_success(r, c) && time_parse(c) == Ok::<Seq<char>, Seq<char>>(c),
                },
            }
        }),
{
    let v = match require_str(s, "plain time string") {
        Ok(v) => v,
        Err(e) => return e,
    };
    match eng_time_parse(v) {
        Ok(c) => TemporalResult::success(c),
        Err(e) => TemporalResult::range_error(build_msg_invalid("plain time", v, e.as_str())),
    }
}

/// Creates a time from six field values, validating each range before the
/// engine runs: hour 0-23, minute and second 0-59, the sub-second fields
/// 0-999.  In-range fields always construct successfully.
pub fn temporal_plain_time_from_components(
    hour: u8,
    minute: u8,
    second: u8,
    millisecond: u16,
    microsecond: u16,
    nanosecond: u16,
) -> (r: TemporalResult)
    ensures
        hour > 23 ==> is_range_error(r, msg_time_range("hour"@, hour as int, "0-23"@)),
        hour <= 23 && minute > 59 ==> is_range_error(
            r,
            msg_time_range("minute"@, minute as int, "0-59"@),
        ),
        hour <= 23 && minute <= 59 && second > 59 ==> is_range_error(
            r,
            msg_time_range("second"@, second as int, "0-59"@),
        ),
        hour <= 23 && minute <= 59 && second <= 59 && millisecond > 999 ==> is_range_error(
            r,
            msg_time_range("millisecond"@, millisecond as int, "0-999"@),
        ),
        hour <= 23 && minute <= 59 && second <= 59 && millisecond <= 999 && microsecond > 999
            ==> is_range_error(r, msg_time_range("microsecond"@, microsecond as int, "0-999"@)),
        hour <= 23 && minute <= 59 && second <= 59 && millisecond <= 999 && microsecond <= 999
            && nanosecond > 999 ==> is_range_error(
            r,
            msg_time_range("nanosecond"@, nanosecond as int, "0-999"@),
        ),
        time_fields_in_range(
            hour as int,
            minute as int,
            second as int,
            millisecond as int,
            microsecond as int,
            nanosecond as int,
        ) ==> (time_new(
            hour as int,
            minute as int,
            second as int,
            millisecond as int,
            microsecond as int,
            nanosecond as int,
        ) matches Ok(c) && is_success(r, c)),
{
    if hour > 23 {
        return TemporalResult::range_error(build_msg_time_range("hour", hour as i64, "0-23"));
    }
    if minute > 59 {
        return TemporalResult::range_error(build_msg_time_range("minute", minute as i64, "0-59"));
    }
    if second > 59 {
        return TemporalResult::range_error(build_msg_time_range("second", second as i64, "0-59"));
    }
    if millisecond > 999 {
        return TemporalResult::range_error(
            build_msg_time_range("millisecond", millisecond as i64, "0-999"),
        );
    }
    if microsecond > 999 {
        return TemporalResult::range_error(
            build_msg_time_range("microsecond", microsecond as i64, "0-999"),
        );
    }
    if nanosecond > 999 {
        return TemporalResult::range_error(
            build_msg_time_range("nanosecond", nanosecond as i64, "0-999"),
        );
    }
    match eng_time_new(hour, minute, second, millisecond, microsecond, nanosecond) {
        Ok(c) => TemporalResult::success(c),
        Err(e) => TemporalResult::range_error(
            crate::marshal::build_msg_prefix("Invalid plain time components: ", e.as_str()),
        ),
    }
}

/// Extracts all component values of a time string in one call, resetting
/// the snapshot first so a failed extraction never leaves partial data.
pub fn temporal_plain_time_get_components(s: Option<&str>, out: &mut PlainTimeComponents)
    ensures
        ({
            match s {
                None => *final(out) == PlainTimeComponents::zeroed(),
                Some(v) => match time_parts(v@) {
                    None => *final(out) == PlainTimeComponents::zeroed(),
                    Some(p) => *final(out) == time_components_of(p),
                },
            }
        }),
{
    *out = PlainTimeComponents::default();
    let v = match s {
        Some(v) => v,
        None => return,
    };
    let p = match eng_time_parts(v) {
        Ok(p) => p,
        Err(_) => return,
    };
    out.hour = p.hour;
    out.minute = p.minute;
    out.second = p.second;
    out.millisecond = p.millisecond;
    out.microsecond = p.microsecond;
    out.nanosecond = p.nanosecond;
    out.is_valid = 1;
}

/// Adds a duration to a time.
pub fn temporal_plain_time_add(
    time_str: Option<&str>,
    duration_str: Option<&str>,
) -> (r: TemporalResult)
    ensures
        ({
            match (time_str, duration_str) {
                (None, _) => is_type_error(r, msg_null("plain time"@)),
                (Some(vt), None) => match time_parse(vt@) {
                    Err(e) => is_range_error(r, msg_invalid("plain time"@, vt@, e)),
                    Ok(_) => is_type_error(r, msg_null("duration"@)),
                },
                (Some(vt), Some(vd)) => match (time_parse(vt@), dur_parse(vd@)) {
                    (Err(e), _) => is_range_error(r, msg_invalid("plain time"@, vt@, e)),
                    (Ok(_), Err(e)) => is_range_error(r, msg_invalid("duration"@, vd@, e)),
                    (Ok(_), Ok(_)) => match time_add(vt@, vd@) {
                        Ok(c) => is_success(r, c),
                        Err(e) => is_range_error(r, msg_failed("add duration"@, e)),
                    },
                },
            }
        }),
{
    let vt = match require_str(time_str, "plain time") {
        Ok(v) => v,
        Err(e) => return e,
    };
    match eng_time_parse(vt) {
        Ok(_) => (),
        Err(e) => return TemporalResult::range_error(
            build_msg_invalid("plain time", vt, e.as_str()),
        ),
    }
    let vd = match require_str(duration_str, "duration") {
        Ok(v) => v,
        Err(e) => return e,
    };
    match eng_duration_parse(vd) {
        Ok(_) => (),
        Err(e) => return TemporalResult::range_error(
            build_msg_invalid("duration", vd, e.as_str()),
        ),
    }
    match eng_time_add(vt, vd) {
        Ok(c) => TemporalResult::success(c),
        Err(e) => TemporalResult::range_error(build_msg_failed("add duration", e.as_str())),
    }
}

/// Subtracts a duration from a time.
pub fn temporal_plain_time_subtract(
    time_str: Option<&str>,
    duration_str: Option<&str>,
) -> (r: TemporalResult)
    ensures
        ({
            match (time_str, duration_str) {
                (None, _) => is_type_error(r, msg_null("plain time"@)),
                (Some(vt), None) => match time_parse(vt@) {
                    Err(e) => is_range_error(r, msg_invalid("plain time"@, vt@, e)),
                    Ok(_) => is_type_error(r, msg_null("duration"@)),
                },
                (Some(vt), Some(vd)) => match (time_parse(vt@), dur_parse(vd@)) {
                    (Err(e), _) => is_range_error(r, msg_invalid("plain time"@, vt@, e)),
                    (Ok(_), Err(e)) => is_range_error(r, msg_invalid("duration"@, vd@, e)),
                    (Ok(_), Ok(_)) => match time_subtract(vt@, vd@) {
                        Ok(c) => is_success(r, c),
                        Err(e) => is_range_error(r, msg_failed("subtract duration"@, e)),
                    },
                },
            }
        }),
{
    let vt = match require_str(time_str, "plain time") {
        Ok(v) => v,
        Err(e) => return e,
    };
    match eng_time_parse(vt) {
        Ok(_) => (),
        Err(e) => return TemporalResult::range_error(
            build_msg_invalid("plain time", vt, e.as_str()),
        ),
    }
    let vd = match require_str(duration_str, "duration") {
        Ok(v) => v,
        Err(e) => return e,
    };
    match eng_duration_parse(vd) {
        Ok(_) => (),
        Err(e) => return TemporalResult::range_error(
            build_msg_invalid("duration", vd, e.as_str()),
        ),
    }
    match eng_time_subtract(vt, vd) {
        Ok(c) => TemporalResult::success(c),
        Err(e) => TemporalResult::range_error(build_msg_failed("subtract duration", e.as_str())),
    }
}

/// Compares two times field by field, most significant first.
pub fn temporal_plain_time_compare(a: Option<&str>, b: Option<&str>) -> (r: CompareResult)
    ensures
        ({
            match (a, b) {
                (None, _) => is_cmp_type_error(r, msg_null("first plain time"@)),
                (Some(va), None) => match time_parse(va@) {
                    Err(e) => is_cmp_range_error(r, msg_invalid("plain time"@, va@, e)),
                    Ok(_) => is_cmp_type_error(r, msg_null("second plain time"@)),
                },
                (Some(va), Some(vb)) => match (time_parts(va@), time_parts(vb@)) {
                    (None, _) => (time_parse(va@) matches Err(e) && is_cmp_range_error(
                        r,
                        msg_invalid("plain time"@, va@, e),
                    )),
                    (Some(_), None) => (time_parse(vb@) matches Err(e) && is_cmp_range_error(
                        r,
                        msg_invalid("plain time"@, vb@, e),
                    )),
                    (Some(pa), Some(pb)) => is_cmp_success(r, time_parts_cmp(pa, pb)),
                },
            }
        }),
{
    let va = match a {
        Some(v) => v,
        None => return CompareResult::type_error(build_msg_null("first plain time")),
    };
    let pa = match eng_time_parts(va) {
        Ok(p) => p,
        Err(e) => return CompareResult::range_error(
            build_msg_invalid("plain time", va, e.as_str()),
        ),
    };
    let vb = match b {
        Some(v) => v,
        None => return CompareResult::type_error(build_msg_null("second plain time")),
    };
    let pb = match eng_time_parts(vb) {
        Ok(p) => p,
        Err(e) => return CompareResult::range_error(
            build_msg_invalid("plain time", vb, e.as_str()),
        ),
    };
    let c: i32 = if pa.hour != pb.hour {
        if pa.hour < pb.hour { -1 } else { 1 }
    } else if pa.minute != pb.minute {
        if pa.minute < pb.minute { -1 } else { 1 }
    } else if pa.second != pb.second {
        if pa.second < pb.second { -1 } else { 1 }
    } else if pa.millisecond != pb.millisecond {
        if pa.millisecond < pb.millisecond { -1 } else { 1 }
    } else if pa.microsecond != pb.microsecond {
        if pa.microsecond < pb.microsecond { -1 } else { 1 }
    } else {
        if pa.nanosecond < pb.nanosecond { -1 } else if pa.nanosecond > pb.nanosecond { 1 } else { 0 }
    };
    CompareResult::success(c)
}

} // verus!
