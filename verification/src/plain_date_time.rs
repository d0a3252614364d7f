//! Plain date-time operations: parsing, construction, component
//! extraction, field accessors, duration arithmetic, differences,
//! comparison, and sentinel-based partial update.

use vstd::prelude::*;

use crate::components::PlainDateTimeComponents;
use crate::engine::cal_parse;
use crate::engine::dt_add;
use crate::engine::dt_cal_id;
use crate::engine::dt_cmp;
use crate::engine::dt_month_code;
use crate::engine::dt_new;
use crate::engine::dt_parse;
use crate::engine::dt_parts;
use crate::engine::dt_since;
use crate::engine::dt_subtract;
use crate::engine::dt_until;
use crate::engine::dur_parse;
use crate::engine::eng_calendar_parse;
use crate::engine::eng_dt_add;
use crate::engine::eng_dt_compare;
use crate::engine::eng_dt_cal;
use crate::engine::eng_dt_month_code;
use crate::engine::eng_dt_new;
use crate::engine::eng_dt_parse;
use crate::engine::eng_dt_parts;
use crate::engine::eng_dt_since;
use crate::engine::eng_dt_subtract;
use crate::engine::eng_dt_until;
use crate::engine::eng_duration_parse;
use crate::engine::DateParts;
use crate::engine::TimeParts;
use crate::envelope::is_cmp_range_error;
use crate::envelope::is_cmp_success;
use crate::envelope::is_cmp_type_error;
use crate::envelope::is_range_error;
use crate::envelope::is_success;
use crate::envelope::is_type_error;
use crate::envelope::CompareResult;
use crate::envelope::TemporalResult;
use crate::marshal::build_msg_failed;
use crate::marshal::build_msg_invalid;
use crate::marshal::build_msg_null;
use crate::marshal::build_msg_prefix;
use crate::marshal::msg_failed;
use crate::marshal::msg_invalid;
use crate::marshal::msg_null;
use crate::marshal::require_str;
use crate::textutil::trunc_u16;
use vstd::string::StringExecFns;
use crate::textutil::trunc_u8;

verus! {

/// The component snapshot of a parsed date-time.
pub open spec fn dt_components_of(d: DateParts, t: TimeParts) -> PlainDateTimeComponents {
    (PlainDateTimeComponents {
        year: d.year,
        month: d.month,
        day: d.day,
        day_of_week: d.day_of_week,
        day_of_year: d.day_of_year,
        week_of_year: match d.week_of_year {
            Some(w) => w as u16,
            None => 0,
        },
        year_of_week: match d.year_of_week {
            Some(y) => y,
            None => 0,
        },
        days_in_week: d.days_in_week,
        days_in_month: d.days_in_month,
        days_in_year: d.days_in_year,
        months_in_year: d.months_in_year,
        in_leap_year: if d.in_leap_year { 1 } else { 0 },
        hour: t.hour,
        minute: t.minute,
        second: t.second,
        millisecond: t.millisecond,
        microsecond: t.microsecond,
        nanosecond: t.nanosecond,
        is_valid: 1,
    })
}

/// The value a sentinel-or-given byte-sized field resolves to.
pub open spec fn resolved_u8(current: u8, arg: i32) -> int {
    if arg == i32::MIN {
        current as int
    } else {
        (arg as int) % 256
    }
}

/// The value a sentinel-or-given 16-bit field resolves to.
pub open spec fn resolved_u16(current: u16, arg: i32) -> int {
    if arg == i32::MIN {
        current as int
    } else {
        (arg as int) % 65536
    }
}

/// The value the year field resolves to.
pub open spec fn resolved_i32(current: i32, arg: i32) -> int {
    if arg == i32::MIN {
        current as int
    } else {
        arg as int
    }
}

/// Parses an ISO 8601 date-time string and returns its canonical form in
/// a result envelope.  A canonical output always reparses to itself.
pub fn temporal_plain_date_time_from_string(s: Option<&str>) -> (r: TemporalResult)
    ensures
        ({
            match s {
                None => is_type_error(r, msg_null("plain date time string"@)),
                Some(v) => match dt_parse(v@) {
                    Err(e) => is_range_error(r, msg_invalid("plain date time"@, v@, e)),
                    Ok(c) => is_success(r, c) && dt_parse(c) == Ok::<Seq<char>, Seq<char>>(c),
                },
            }
        }),
{
    let v = match require_str(s, "plain date time string") {
        Ok(v) => v,
        Err(e) => return e,
    };
    match eng_dt_parse(v) {
        Ok(c) => TemporalResult::success(c),
        Err(e) => TemporalResult::range_error(build_msg_invalid("plain date time", v, e.as_str())),
    }
}

/// Creates a date-time from nine fields and an optional calendar
/// identifier (ISO 8601 when absent).
pub fn temporal_plain_date_time_from_components(
    year: i32,
    month: u8,
    day: u8,
    hour: u8,
    minute: u8,
    second: u8,
    millisecond: u16,
    microsecond: u16,
    nanosecond: u16,
    calendar_id: Option<&str>,
) -> (r: TemporalResult)
    ensures
        ({
            match calendar_id {
                Some(cs) => match cal_parse(cs@) {
                    Err(e) => is_range_error(r, "Invalid calendar: "@ + e),
                    Ok(_) => match dt_new(
                        year as int,
                        month as int,
                        day as int,
                        hour as int,
                        minute as int,
                        second as int,
                        millisecond as int,
                        microsecond as int,
                        nanosecond as int,
                        Some(cs@),
                    ) {
                        Ok(c) => is_success(r, c),
                        Err(e) => is_range_error(r, "Invalid plain date time components: "@ + e),
                    },
                },
                None => match dt_new(
                    year as int,
                    month as int,
                    day as int,
                    hour as int,
                    minute as int,
                    second as int,
                    millisecond as int,
                    microsecond as int,
                    nanosecond as int,
                    None,
                ) {
                    Ok(c) => is_success(r, c),
                    Err(e) => is_range_error(r, "Invalid plain date time components: "@ + e),
                },
            }
        }),
{
    if let Some(cs) = calendar_id {
        match eng_calendar_parse(cs) {
            Ok(_) => (),
            Err(e) => return TemporalResult::range_error(
                build_msg_prefix("Invalid calendar: ", e.as_str()),
            ),
        }
    }
    match eng_dt_new(
        year,
        month,
        day,
        hour,
        minute,
        second,
        millisecond,
        microsecond,
        nanosecond,
        calendar_id,
    ) {
        Ok(c) => TemporalResult::success(c),
        Err(e) => TemporalResult::range_error(
            build_msg_prefix("Invalid plain date time components: ", e.as_str()),
        ),
    }
}

/// Extracts all component values of a date-time string in one call,
/// resetting the snapshot first so a failed extraction never leaves
/// partial data.
pub fn temporal_plain_date_time_get_components(s: Option<&str>, out: &mut PlainDateTimeComponents)
    ensures
        ({
            match s {
                None => *final(out) == PlainDateTimeComponents::zeroed(),
                Some(v) => match dt_parts(v@) {
                    None => *final(out) == PlainDateTimeComponents::zeroed(),
                    Some(p) => *final(out) == dt_components_of(p.0, p.1),
                },
            }
        }),
{
    *out = PlainDateTimeComponents::default();
    let v = match s {
        Some(v) => v,
        None => return,
    };
    let pc = match eng_dt_parts(v) {
        Ok(pc) => pc,
        Err(_) => return,
    };
    let d = pc.0;
    let t = pc.1;
    out.year = d.year;
    out.month = d.month;
    out.day = d.day;
    out.day_of_week = d.day_of_week;
    out.day_of_year = d.day_of_year;
    out.week_of_year = match d.week_of_year {
        Some(w) => w as u16,
        None => 0,
    };
    out.year_of_week = match d.year_of_week {
        Some(y) => y,
        None => 0,
    };
    out.days_in_week = d.days_in_week;
    out.days_in_month = d.days_in_month;
    out.days_in_year = d.days_in_year;
    out.months_in_year = d.months_in_year;
    out.in_leap_year = if d.in_leap_year { 1 } else { 0 };
    out.hour = t.hour;
    out.minute = t.minute;
    out.second = t.second;
    out.millisecond = t.millisecond;
    out.microsecond = t.microsecond;
    out.nanosecond = t.nanosecond;
    out.is_valid = 1;
}

/// Returns the month code of a date-time.
pub fn temporal_plain_date_time_get_month_code(s: Option<&str>) -> (r: TemporalResult)
    ensures
        ({
            match s {
                None => is_type_error(r, msg_null("plain date time"@)),
                Some(v) => match dt_parse(v@) {
                    Err(e) => is_range_error(r, msg_invalid("plain date time"@, v@, e)),
                    Ok(_) => is_success(r, dt_month_code(v@)),
                },
            }
        }),
{
    let v = match require_str(s, "plain date time") {
        Ok(v) => v,
        Err(e) => return e,
    };
    match eng_dt_month_code(v) {
        Ok(c) => TemporalResult::success(c),
        Err(e) => TemporalResult::range_error(build_msg_invalid("plain date time", v, e.as_str())),
    }
}

/// Returns the canonical calendar identifier of a date-time.
pub fn temporal_plain_date_time_get_calendar(s: Option<&str>) -> (r: TemporalResult)
    ensures
        ({
            match s {
                None => is_type_error(r, msg_null("plain date time"@)),
                Some(v) => match dt_parse(v@) {
                    Err(e) => is_range_error(r, msg_invalid("plain date time"@, v@, e)),
                    Ok(_) => is_success(r, dt_cal_id(v@)),
                },
            }
        }),
{
    let v = match require_str(s, "plain date time") {
        Ok(v) => v,
        Err(e) => return e,
    };
    match eng_dt_cal(v) {
        Ok(c) => TemporalResult::success(c),
        Err(e) => TemporalResult::range_error(build_msg_invalid("plain date time", v, e.as_str())),
    }
}

/// Adds a duration to a date-time.
pub fn temporal_plain_date_time_add(
    dt_str: Option<&str>,
    duration_str: Option<&str>,
) -> (r: TemporalResult)
    ensures
        ({
            match (dt_str, duration_str) {
                (None, _) => is_type_error(r, msg_null("plain date time"@)),
                (Some(vt), None) => match dt_parse(vt@) {
                    Err(e) => is_range_error(r, msg_invalid("plain date time"@, vt@, e)),
                    Ok(_) => is_type_error(r, msg_null("duration"@)),
                },
                (Some(vt), Some(vd)) => match (dt_parse(vt@), dur_parse(vd@)) {
                    (Err(e), _) => is_range_error(r, msg_invalid("plain date time"@, vt@, e)),
                    (Ok(_), Err(e)) => is_range_error(r, msg_invalid("duration"@, vd@, e)),
                    (Ok(_), Ok(_)) => match dt_add(vt@, vd@) {
                        Ok(c) => is_success(r, c),
                        Err(e) => is_range_error(r, msg_failed("add duration"@, e)),
                    },
                },
            }
        }),
{
    let vt = match require_str(dt_str, "plain date time") {
        Ok(v) => v,
        Err(e) => return e,
    };
    match eng_dt_parse(vt) {
        Ok(_) => (),
        Err(e) => return TemporalResult::range_error(
            build_msg_invalid("plain date time", vt, e.as_str()),
        ),
    }
    let vd = match require_str(duration_str, "duration") {
        Ok(v) => v,
        Err(e) => return e,
    };
    match eng_duration_parse(vd) {
        Ok(_) => (),
        Err(e) => return TemporalResult::range_error(
            build_msg_invalid("duration", vd, e.as_str()),
        ),
    }
    match eng_dt_add(vt, vd) {
        Ok(c) => TemporalResult::success(c),
        Err(e) => TemporalResult::range_error(build_msg_failed("add duration", e.as_str())),
    }
}

/// Subtracts a duration from a date-time.
pub fn temporal_plain_date_time_subtract(
    dt_str: Option<&str>,
    duration_str: Option<&str>,
) -> (r: TemporalResult)
    ensures
        ({
            match (dt_str, duration_str) {
                (None, _) => is_type_error(r, msg_null("plain date time"@)),
                (Some(vt), None) => match dt_parse(vt@) {
                    Err(e) => is_range_error(r, msg_invalid("plain date time"@, vt@, e)),
                    Ok(_) => is_type_error(r, msg_null("duration"@)),
                },
                (Some(vt), Some(vd)) => match (dt_parse(vt@), dur_parse(vd@)) {
                    (Err(e), _) => is_range_error(r, msg_invalid("plain date time"@, vt@, e)),
                    (Ok(_), Err(e)) => is_range_error(r, msg_invalid("duration"@, vd@, e)),
                    (Ok(_), Ok(_)) => match dt_subtract(vt@, vd@) {
                        Ok(c) => is_success(r, c),
                        Err(e) => is_range_error(r, msg_failed("subtract duration"@, e)),
                    },
                },
            }
        }),
{
    let vt = match require_str(dt_str, "plain date time") {
        Ok(v) => v,
        Err(e) => return e,
    };
    match eng_dt_parse(vt) {
        Ok(_) => (),
        Err(e) => return TemporalResult::range_error(
            build_msg_invalid("plain date time", vt, e.as_str()),
        ),
    }
    let vd = match require_str(duration_str, "duration") {
        Ok(v) => v,
        Err(e) => return e,
    };
    match eng_duration_parse(vd) {
        Ok(_) => (),
        Err(e) => return TemporalResult::range_error(
            build_msg_invalid("duration", vd, e.as_str()),
        ),
    }
    match eng_dt_subtract(vt, vd) {
        Ok(c) => TemporalResult::success(c),
        Err(e) => TemporalResult::range_error(build_msg_failed("subtract duration", e.as_str())),
    }
}

/// Compares two date-times by their ISO fields.
pub fn temporal_plain_date_time_compare(a: Option<&str>, b: Option<&str>) -> (r: CompareResult)
    ensures
        ({
            match (a, b) {
                (None, _) => is_cmp_type_error(r, msg_null("first plain date time"@)),
                (Some(va), None) => match dt_parse(va@) {
                    Err(e) => is_cmp_range_error(r, msg_invalid("plain date time"@, va@, e)),
                    Ok(_) => is_cmp_type_error(r, msg_null("second plain date time"@)),
                },
                (Some(va), Some(vb)) => match (dt_parse(va@), dt_parse(vb@)) {
                    (Err(e), _) => is_cmp_range_error(r, msg_invalid("plain date time"@, va@, e)),
                    (Ok(_), Err(e)) => is_cmp_range_error(
                        r,
                        msg_invalid("plain date time"@, vb@, e),
                    ),
                    (Ok(_), Ok(_)) => is_cmp_success(r, dt_cmp(va@, vb@)),
                },
            }
        }),
{
    let va = match a {
        Some(v) => v,
        None => return CompareResult::type_error(build_msg_null("first plain date time")),
    };
    match eng_dt_parse(va) {
        Ok(_) => (),
        Err(e) => return CompareResult::range_error(
            build_msg_invalid("plain date time", va, e.as_str()),
        ),
    }
    let vb = match b {
        Some(v) => v,
        None => return CompareResult::type_error(build_msg_null("second plain date time")),
    };
    match eng_dt_compare(va, vb) {
        Ok(c) => CompareResult::success(c),
        Err(e) => CompareResult::range_error(
            build_msg_invalid("plain date time", vb, e.as_str()),
        ),
    }
}

/// Returns a new date-time with chosen fields replaced.  An integer
/// argument equal to `i32::MIN` or an absent calendar keeps the
/// original's field; resolving every field to the original reconstructs
/// an ISO date-time unchanged.
pub fn temporal_plain_date_time_with(
    dt_str: Option<&str>,
    year: i32,
    month: i32,
    day: i32,
    hour: i32,
    minute: i32,
    second: i32,
    millisecond: i32,
    microsecond: i32,
    nanosecond: i32,
    calendar_id: Option<&str>,
) -> (r: TemporalResult)
    ensures
        ({
            match dt_str {
                None => is_type_error(r, msg_null("plain date time"@)),
                Some(v) => match (dt_parse(v@), dt_parts(v@)) {
                    (Err(e), _) => is_range_error(r, msg_invalid("plain date time"@, v@, e)),
                    (Ok(_), None) => false,
                    (Ok(_), Some(p)) => {
                        let ry = resolved_i32(p.0.year, year);
                        let rm = resolved_u8(p.0.month, month);
                        let rd = resolved_u8(p.0.day, day);
                        let rh = resolved_u8(p.1.hour, hour);
                        let rmi = resolved_u8(p.1.minute, minute);
                        let rs = resolved_u8(p.1.second, second);
                        let rms = resolved_u16(p.1.millisecond, millisecond);
                        let rus = resolved_u16(p.1.microsecond, microsecond);
                        let rns = resolved_u16(p.1.nanosecond, nanosecond);
                        match calendar_id {
                            Some(cs) => match cal_parse(cs@) {
                                Err(e) => is_range_error(r, "Invalid calendar: "@ + e),
                                Ok(_) => match dt_new(
                                    ry,
                                    rm,
                                    rd,
                                    rh,
                                    rmi,
                                    rs,
                                    rms,
                                    rus,
                                    rns,
                                    Some(cs@),
                                ) {
                                    Ok(c) => is_success(r, c),
                                    Err(e) => is_range_error(
                                        r,
                                        "Invalid date time components: "@ + e,
                                    ),
                                },
                            },
                            None => match dt_new(
                                ry,
                                rm,
                                rd,
                                rh,
                                rmi,
                                rs,
                                rms,
                                rus,
                                rns,
                                Some(dt_cal_id(v@)),
                            ) {
                                Ok(c) => is_success(r, c),
                                Err(e) => is_range_error(r, "Invalid date time components: "@ + e),
                            },
                        }
                    },
                },
            }
        }),
        ({
            match dt_str {
                None => true,
                Some(v) => match (dt_parse(v@), dt_parts(v@)) {
                    (Ok(c), Some(p)) => (year == i32::MIN && month == i32::MIN && day == i32::MIN
                        && hour == i32::MIN && minute == i32::MIN && second == i32::MIN
                        && millisecond == i32::MIN && microsecond == i32::MIN && nanosecond
                        == i32::MIN && calendar_id is None && dt_cal_id(v@) == "iso8601"@)
                        ==> is_success(r, c),
                    _ => true,
                },
            }
        }),
{
    let v = match require_str(dt_str, "plain date time") {
        Ok(v) => v,
        Err(e) => return e,
    };
    let pc = match eng_dt_parts(v) {
        Ok(pc) => pc,
        Err(e) => return TemporalResult::range_error(
            build_msg_invalid("plain date time", v, e.as_str()),
        ),
    };
    let d = pc.0;
    let t = pc.1;
    let ry: i32 = if year == i32::MIN { d.year } else { year };
    let rm: u8 = if month == i32::MIN { d.month } else { trunc_u8(month) };
    let rd: u8 = if day == i32::MIN { d.day } else { trunc_u8(day) };
    let rh: u8 = if hour == i32::MIN { t.hour } else { trunc_u8(hour) };
    let rmi: u8 = if minute == i32::MIN { t.minute } else { trunc_u8(minute) };
    let rs: u8 = if second == i32::MIN { t.second } else { trunc_u8(second) };
    let rms: u16 = if millisecond == i32::MIN { t.millisecond } else { trunc_u16(millisecond) };
    let rus: u16 = if microsecond == i32::MIN { t.microsecond } else { trunc_u16(microsecond) };
    let rns: u16 = if nanosecond == i32::MIN { t.nanosecond } else { trunc_u16(nanosecond) };
    if let Some(cs) = calendar_id {
        match eng_calendar_parse(cs) {
            Ok(_) => (),
            Err(e) => return TemporalResult::range_error(
                build_msg_prefix("Invalid calendar: ", e.as_str()),
            ),
        }
        match eng_dt_new(ry, rm, rd, rh, rmi, rs, rms, rus, rns, Some(cs)) {
            Ok(c) => TemporalResult::success(c),
            Err(e) => TemporalResult::range_error(
                build_msg_prefix("Invalid date time components: ", e.as_str()),
            ),
        }
    } else {
        // A date-time whose fields were just read always yields its
        // calendar identifier again.
        let cal = match eng_dt_cal(v) {
            Ok(c) => c,
            Err(_) => {
                proof {
                    assert(false);
                }
                String::new()
            },
        };
        match eng_dt_new(ry, rm, rd, rh, rmi, rs, rms, rus, rns, Some(cal.as_str())) {
            Ok(c) => TemporalResult::success(c),
            Err(e) => TemporalResult::range_error(
                build_msg_prefix("Invalid date time components: ", e.as_str()),
            ),
        }
    }
}

/// Computes the duration from the first date-time to the second.
pub fn temporal_plain_date_time_until(
    one_str: Option<&str>,
    two_str: Option<&str>,
) -> (r: TemporalResult)
    ensures
        ({
            match (one_str, two_str) {
                (None, _) => is_type_error(r, msg_null("first plain date time"@)),
                (Some(va), None) => match dt_parse(va@) {
                    Err(e) => is_range_error(r, msg_invalid("plain date time"@, va@, e)),
                    Ok(_) => is_type_error(r, msg_null("second plain date time"@)),
                },
                (Some(va), Some(vb)) => match (dt_parse(va@), dt_parse(vb@)) {
                    (Err(e), _) => is_range_error(r, msg_invalid("plain date time"@, va@, e)),
                    (Ok(_), Err(e)) => is_range_error(r, msg_invalid("plain date time"@, vb@, e)),
                    (Ok(_), Ok(_)) => match dt_until(va@, vb@) {
                        Ok(c) => is_success(r, c),
                        Err(e) => is_range_error(r, msg_failed("compute difference"@, e)),
                    },
                },
            }
        }),
{
    let va = match require_str(one_str, "first plain date time") {
        Ok(v) => v,
        Err(e) => return e,
    };
    match eng_dt_parse(va) {
        Ok(_) => (),
        Err(e) => return TemporalResult::range_error(
            build_msg_invalid("plain date time", va, e.as_str()),
        ),
    }
    let vb = match require_str(two_str, "second plain date time") {
        Ok(v) => v,
        Err(e) => return e,
    };
    match eng_dt_parse(vb) {
        Ok(_) => (),
        Err(e) => return TemporalResult::range_error(
            build_msg_invalid("plain date time", vb, e.as_str()),
        ),
    }
    match eng_dt_until(va, vb) {
        Ok(c) => TemporalResult::success(c),
        Err(e) => TemporalResult::range_error(build_msg_failed("compute difference", e.as_str())),
    }
}

/// Computes the duration since the second date-time, seen from the first.
pub fn temporal_plain_date_time_since(
    one_str: Option<&str>,
    two_str: Option<&str>,
) -> (r: TemporalResult)
    ensures
        ({
            match (one_str, two_str) {
                (None, _) => is_type_error(r, msg_null("first plain date time"@)),
                (Some(va), None) => match dt_parse(va@) {
                    Err(e) => is_range_error(r, msg_invalid("plain date time"@, va@, e)),
                    Ok(_) => is_type_error(r, msg_null("second plain date time"@)),
                },
                (Some(va), Some(vb)) => match (dt_parse(va@), dt_parse(vb@)) {
                    (Err(e), _) => is_range_error(r, msg_invalid("plain date time"@, va@, e)),
                    (Ok(_), Err(e)) => is_range_error(r, msg_invalid("plain date time"@, vb@, e)),
                    (Ok(_), Ok(_)) => match dt_since(va@, vb@) {
                        Ok(c) => is_success(r, c),
                        Err(e) => is_range_error(r, msg_failed("compute difference"@, e)),
                    },
                },
            }
        }),
{
    let va = match require_str(one_str, "first plain date time") {
        Ok(v) => v,
        Err(e) => return e,
    };
    match eng_dt_parse(va) {
        Ok(_) => (),
        Err(e) => return TemporalResult::range_error(
            build_msg_invalid("plain date time", va, e.as_str()),
        ),
    }
    let vb = match require_str(two_str, "second plain date time") {
        Ok(v) => v,
        Err(e) => return e,
    };
    match eng_dt_parse(vb) {
        Ok(_) => (),
        Err(e) => return TemporalResult::range_error(
            build_msg_invalid("plain date time", vb, e.as_str()),
        ),
    }
    match eng_dt_since(va, vb) {
        Ok(c) => TemporalResult::success(c),
        Err(e) => TemporalResult::range_error(build_msg_failed("compute difference", e.as_str())),
    }
}

} // verus!
