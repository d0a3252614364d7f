//! Plain calendar date operations: parsing, construction, component
//! extraction, field accessors, duration arithmetic, differences,
//! comparison, and sentinel-based partial update.

use vstd::prelude::*;

use crate::components::PlainDateComponents;
use crate::engine::cal_parse;
use crate::engine::date_add;
use crate::engine::date_cal_id;
use crate::engine::date_iso_form;
use crate::engine::date_month_code;
use crate::engine::date_new;
use crate::engine::date_parse;
use crate::engine::date_parts;
use crate::engine::date_since;
use crate::engine::date_subtract;
use crate::engine::date_until;
use crate::engine::dur_parse;
use crate::engine::eng_calendar_parse;
use crate::engine::eng_date_add;
use crate::engine::eng_date_iso_form;
use crate::engine::eng_date_month_code;
use crate::engine::eng_date_new;
use crate::engine::eng_date_parse;
use crate::engine::eng_date_parts;
use crate::engine::eng_date_since;
use crate::engine::eng_date_subtract;
use crate::engine::eng_date_until;
use crate::engine::eng_duration_parse;
use crate::engine::DateParts;
use crate::envelope::is_cmp_range_error;
use crate::envelope::is_cmp_success;
use crate::envelope::is_cmp_type_error;
use crate::envelope::is_range_error;
use crate::envelope::is_success;
use crate::envelope::is_type_error;
use crate::envelope::CompareResult;
use crate::envelope::TemporalResult;
use crate::marshal::build_msg_failed;
use crate::marshal::build_msg_invalid;
use crate::marshal::build_msg_null;
use crate::marshal::build_msg_prefix;
use crate::marshal::msg_failed;
use crate::marshal::msg_invalid;
use crate::marshal::msg_null;
use crate::marshal::require_str;
use crate::textutil::lex_cmp;
use crate::textutil::str_lex_cmp;
use crate::textutil::trunc_u8;

verus! {

/// The component snapshot of a parsed date: optional week fields default
/// to zero.
pub open spec fn date_components_of(p: DateParts) -> PlainDateComponents {
    (PlainDateComponents {
        year: p.year,
        month: p.month,
        day: p.day,
        day_of_week: p.day_of_week,
        day_of_year: p.day_of_year,
        week_of_year: match p.week_of_year {
            Some(w) => w as u16,
            None => 0,
        },
        year_of_week: match p.year_of_week {
            Some(y) => y,
            None => 0,
        },
        days_in_week: p.days_in_week,
        days_in_month: p.days_in_month,
        days_in_year: p.days_in_year,
        months_in_year: p.months_in_year,
        in_leap_year: if p.in_leap_year { 1 } else { 0 },
        is_valid: 1,
    })
}

/// The year an update resolves to: the original's year for the sentinel,
/// the argument otherwise.
pub open spec fn resolved_year(p: DateParts, year: i32) -> int {
    if year == i32::MIN {
        p.year as int
    } else {
        year as int
    }
}

/// The month an update resolves to; a non-sentinel argument is narrowed
/// to eight bits as the boundary's calling convention does.
pub open spec fn resolved_month(p: DateParts, month: i32) -> int {
    if month == i32::MIN {
        p.month as int
    } else {
        (month as int) % 256
    }
}

/// The day an update resolves to; a non-sentinel argument is narrowed to
/// eight bits as the boundary's calling convention does.
pub open spec fn resolved_day(p: DateParts, day: i32) -> int {
    if day == i32::MIN {
        p.day as int
    } else {
        (day as int) % 256
    }
}

/// Parses an ISO 8601 date string and returns its canonical form in a
/// result envelope.  A canonical output always reparses to itself.
pub fn temporal_plain_date_from_string(s: Option<&str>) -> (r: TemporalResult)
    ensures
        ({
            match s {
                None => is_type_error(r, msg_null("plain date string"@)),
                Some(v) => match date_parse(v@) {
                    Err(e) => is_range_error(r, msg_invalid("plain date"@, v@, e)),
                    Ok(c) => is_success(r, c) && date_parse(c) == Ok::<Seq<char>, Seq<char>>(c),
                },
            }
        }),
{
    let v = match require_str(s, "plain date string") {
        Ok(v) => v,
        Err(e) => return e,
    };
    match eng_date_parse(v) {
        Ok(c) => TemporalResult::success(c),
        Err(e) => TemporalResult::range_error(build_msg_invalid("plain date", v, e.as_str())),
    }
}

/// Creates a date from year, month, day and an optional calendar
/// identifier (ISO 8601 when absent).
pub fn temporal_plain_date_from_components(
    year: i32,
    month: u8,
    day: u8,
    calendar_id: Option<&str>,
) -> (r: TemporalResult)
    ensures
        ({
            match calendar_id {
                Some(cs) => match cal_parse(cs@) {
                    Err(e) => is_range_error(r, "Invalid calendar: "@ + e),
                    Ok(_) => match date_new(year as int, month as int, day as int, Some(cs@)) {
                        Ok(c) => is_success(r, c),
                        Err(e) => is_range_error(r, "Invalid plain date components: "@ + e),
                    },
                },
                None => match date_new(year as int, month as int, day as int, None) {
                    Ok(c) => is_success(r, c),
                    Err(e) => is_range_error(r, "Invalid plain date components: "@ + e),
                },
            }
        }),
{
    if let Some(cs) = calendar_id {
        match eng_calendar_parse(cs) {
            Ok(_) => (),
            Err(e) => return TemporalResult::range_error(
                build_msg_prefix("Invalid calendar: ", e.as_str()),
            ),
        }
    }
    match eng_date_new(year, month, day, calendar_id) {
        Ok(c) => TemporalResult::success(c),
        Err(e) => TemporalResult::range_error(
            build_msg_prefix("Invalid plain date components: ", e.as_str()),
        ),
    }
}

/// Extracts all integer component values of a date string in one call,
/// resetting the snapshot first so a failed extraction never leaves
/// partial data.
pub fn temporal_plain_date_get_components(s: Option<&str>, out: &mut PlainDateComponents)
    ensures
        ({
            match s {
                None => *final(out) == PlainDateComponents::zeroed(),
                Some(v) => match date_parts(v@) {
                    None => *final(out) == PlainDateComponents::zeroed(),
                    Some(p) => *final(out) == date_components_of(p),
                },
            }
        }),
{
    *out = PlainDateComponents::default();
    let v = match s {
        Some(v) => v,
        None => return,
    };
    let pc = match eng_date_parts(v) {
        Ok(pc) => pc,
        Err(_) => return,
    };
    let p = pc.0;
    out.year = p.year;
    out.month = p.month;
    out.day = p.day;
    out.day_of_week = p.day_of_week;
    out.day_of_year = p.day_of_year;
    out.week_of_year = match p.week_of_year {
        Some(w) => w as u16,
        None => 0,
    };
    out.year_of_week = match p.year_of_week {
        Some(y) => y,
        None => 0,
    };
    out.days_in_week = p.days_in_week;
    out.days_in_month = p.days_in_month;
    out.days_in_year = p.days_in_year;
    out.months_in_year = p.months_in_year;
    out.in_leap_year = if p.in_leap_year { 1 } else { 0 };
    out.is_valid = 1;
}

/// Returns the month code of a date.
pub fn temporal_plain_date_get_month_code(s: Option<&str>) -> (r: TemporalResult)
    ensures
        ({
            match s {
                None => is_type_error(r, msg_null("plain date"@)),
                Some(v) => match date_parse(v@) {
                    Err(e) => is_range_error(r, msg_invalid("plain date"@, v@, e)),
                    Ok(_) => is_success(r, date_month_code(v@)),
                },
            }
        }),
{
    let v = match require_str(s, "plain date") {
        Ok(v) => v,
        Err(e) => return e,
    };
    match eng_date_month_code(v) {
        Ok(c) => TemporalResult::success(c),
        Err(e) => TemporalResult::range_error(build_msg_invalid("plain date", v, e.as_str())),
    }
}

/// Returns the canonical calendar identifier of a date.
pub fn temporal_plain_date_get_calendar(s: Option<&str>) -> (r: TemporalResult)
    ensures
        ({
            match s {
                None => is_type_error(r, msg_null("plain date"@)),
                Some(v) => match date_parse(v@) {
                    Err(e) => is_range_error(r, msg_invalid("plain date"@, v@, e)),
                    Ok(_) => is_success(r, date_cal_id(v@)),
                },
            }
        }),
{
    let v = match require_str(s, "plain date") {
        Ok(v) => v,
        Err(e) => return e,
    };
    match eng_date_parts(v) {
        Ok(pc) => TemporalResult::success(pc.1),
        Err(e) => TemporalResult::range_error(build_msg_invalid("plain date", v, e.as_str())),
    }
}

/// Adds a duration to a date.
pub fn temporal_plain_date_add(
    date_str: Option<&str>,
    duration_str: Option<&str>,
) -> (r: TemporalResult)
    ensures
        ({
            match (date_str, duration_str) {
                (None, _) => is_type_error(r, msg_null("plain date"@)),
                (Some(vt), None) => match date_parse(vt@) {
                    Err(e) => is_range_error(r, msg_invalid("plain date"@, vt@, e)),
                    Ok(_) => is_type_error(r, msg_null("duration"@)),
                },
                (Some(vt), Some(vd)) => match (date_parse(vt@), dur_parse(vd@)) {
                    (Err(e), _) => is_range_error(r, msg_invalid("plain date"@, vt@, e)),
                    (Ok(_), Err(e)) => is_range_error(r, msg_invalid("duration"@, vd@, e)),
                    (Ok(_), Ok(_)) => match date_add(vt@, vd@) {
                        Ok(c) => is_success(r, c),
                        Err(e) => is_range_error(r, msg_failed("add duration"@, e)),
                    },
                },
            }
        }),
{
    let vt = match require_str(date_str, "plain date") {
        Ok(v) => v,
        Err(e) => return e,
    };
    match eng_date_parse(vt) {
        Ok(_) => (),
        Err(e) => return TemporalResult::range_error(
            build_msg_invalid("plain date", vt, e.as_str()),
        ),
    }
    let vd = match require_str(duration_str, "duration") {
        Ok(v) => v,
        Err(e) => return e,
    };
    match eng_duration_parse(vd) {
        Ok(_) => (),
        Err(e) => return TemporalResult::range_error(
            build_msg_invalid("duration", vd, e.as_str()),
        ),
    }
    match eng_date_add(vt, vd) {
        Ok(c) => TemporalResult::success(c),
        Err(e) => TemporalResult::range_error(build_msg_failed("add duration", e.as_str())),
    }
}

/// Subtracts a duration from a date.
pub fn temporal_plain_date_subtract(
    date_str: Option<&str>,
    duration_str: Option<&str>,
) -> (r: TemporalResult)
    ensures
        ({
            match (date_str, duration_str) {
                (None, _) => is_type_error(r, msg_null("plain date"@)),
                (Some(vt), None) => match date_parse(vt@) {
                    Err(e) => is_range_error(r, msg_invalid("plain date"@, vt@, e)),
                    Ok(_) => is_type_error(r, msg_null("duration"@)),
                },
                (Some(vt), Some(vd)) => match (date_parse(vt@), dur_parse(vd@)) {
                    (Err(e), _) => is_range_error(r, msg_invalid("plain date"@, vt@, e)),
                    (Ok(_), Err(e)) => is_range_error(r, msg_invalid("duration"@, vd@, e)),
                    (Ok(_), Ok(_)) => match date_subtract(vt@, vd@) {
                        Ok(c) => is_success(r, c),
                        Err(e) => is_range_error(r, msg_failed("subtract duration"@, e)),
                    },
                },
            }
        }),
{
    let vt = match require_str(date_str, "plain date") {
        Ok(v) => v,
        Err(e) => return e,
    };
    match eng_date_parse(vt) {
        Ok(_) => (),
        Err(e) => return TemporalResult::range_error(
            build_msg_invalid("plain date", vt, e.as_str()),
        ),
    }
    let vd = match require_str(duration_str, "duration") {
        Ok(v) => v,
        Err(e) => return e,
    };
    match eng_duration_parse(vd) {
        Ok(_) => (),
        Err(e) => return TemporalResult::range_error(
            build_msg_invalid("duration", vd, e.as_str()),
        ),
    }
    match eng_date_subtract(vt, vd) {
        Ok(c) => TemporalResult::success(c),
        Err(e) => TemporalResult::range_error(build_msg_failed("subtract duration", e.as_str())),
    }
}

/// Compares two dates by the character-wise order of their pure ISO
/// forms, with calendar annotations suppressed.
pub fn temporal_plain_date_compare(a: Option<&str>, b: Option<&str>) -> (r: CompareResult)
    ensures
        ({
            match (a, b) {
                (None, _) => is_cmp_type_error(r, msg_null("first plain date"@)),
                (Some(va), None) => match date_parse(va@) {
                    Err(e) => is_cmp_range_error(r, msg_invalid("plain date"@, va@, e)),
                    Ok(_) => is_cmp_type_error(r, msg_null("second plain date"@)),
                },
                (Some(va), Some(vb)) => match (date_iso_form(va@), date_iso_form(vb@)) {
                    (Err(e), _) => is_cmp_range_error(r, msg_invalid("plain date"@, va@, e)),
                    (Ok(_), Err(e)) => is_cmp_range_error(r, msg_invalid("plain date"@, vb@, e)),
                    (Ok(ia), Ok(ib)) => is_cmp_success(r, lex_cmp(ia, ib)),
                },
            }
        }),
{
    let va = match a {
        Some(v) => v,
        None => return CompareResult::type_error(build_msg_null("first plain date")),
    };
    let ia = match eng_date_iso_form(va) {
        Ok(i) => i,
        Err(e) => return CompareResult::range_error(
            build_msg_invalid("plain date", va, e.as_str()),
        ),
    };
    let vb = match b {
        Some(v) => v,
        None => return CompareResult::type_error(build_msg_null("second plain date")),
    };
    let ib = match eng_date_iso_form(vb) {
        Ok(i) => i,
        Err(e) => return CompareResult::range_error(
            build_msg_invalid("plain date", vb, e.as_str()),
        ),
    };
    CompareResult::success(str_lex_cmp(ia.as_str(), ib.as_str()))
}

/// Returns a new date with chosen fields replaced.  An integer argument
/// equal to `i32::MIN` or an absent calendar keeps the original's field;
/// resolving every field to the original reconstructs an ISO date
/// unchanged.
pub fn temporal_plain_date_with(
    date_str: Option<&str>,
    year: i32,
    month: i32,
    day: i32,
    calendar_id: Option<&str>,
) -> (r: TemporalResult)
    ensures
        ({
            match date_str {
                None => is_type_error(r, msg_null("plain date"@)),
                Some(v) => match (date_parse(v@), date_parts(v@)) {
                    (Err(e), _) => is_range_error(r, msg_invalid("plain date"@, v@, e)),
                    (Ok(_), None) => false,
                    (Ok(_), Some(p)) => {
                        let ry = resolved_year(p, year);
                        let rm = resolved_month(p, month);
                        let rd = resolved_day(p, day);
                        match calendar_id {
                            Some(cs) => match cal_parse(cs@) {
                                Err(e) => is_range_error(r, "Invalid calendar: "@ + e),
                                Ok(_) => match date_new(ry, rm, rd, Some(cs@)) {
                                    Ok(c) => is_success(r, c),
                                    Err(e) => is_range_error(r, "Invalid date components: "@ + e),
                                },
                            },
                            None => match date_new(ry, rm, rd, Some(date_cal_id(v@))) {
                                Ok(c) => is_success(r, c),
                                Err(e) => is_range_error(r, "Invalid date components: "@ + e),
                            },
                        }
                    },
                },
            }
        }),
        ({
            match date_str {
                None => true,
                Some(v) => match (date_parse(v@), date_parts(v@)) {
                    (Ok(c), Some(p)) => (year == i32::MIN && month == i32::MIN && day == i32::MIN
                        && calendar_id is None && date_cal_id(v@) == "iso8601"@) ==> is_success(
                        r,
                        c,
                    ),
                    _ => true,
                },
            }
        }),
{
    let v = match require_str(date_str, "plain date") {
        Ok(v) => v,
        Err(e) => return e,
    };
    let pc = match eng_date_parts(v) {
        Ok(pc) => pc,
        Err(e) => return TemporalResult::range_error(
            build_msg_invalid("plain date", v, e.as_str()),
        ),
    };
    let p = pc.0;
    let ry: i32 = if year == i32::MIN { p.year } else { year };
    let rm: u8 = if month == i32::MIN { p.month } else { trunc_u8(month) };
    let rd: u8 = if day == i32::MIN { p.day } else { trunc_u8(day) };
    if let Some(cs) = calendar_id {
        match eng_calendar_parse(cs) {
            Ok(_) => (),
            Err(e) => return TemporalResult::range_error(
                build_msg_prefix("Invalid calendar: ", e.as_str()),
            ),
        }
        match eng_date_new(ry, rm, rd, Some(cs)) {
            Ok(c) => TemporalResult::success(c),
            Err(e) => TemporalResult::range_error(
                build_msg_prefix("Invalid date components: ", e.as_str()),
            ),
        }
    } else {
        match eng_date_new(ry, rm, rd, Some(pc.1.as_str())) {
            Ok(c) => TemporalResult::success(c),
            Err(e) => TemporalResult::range_error(
                build_msg_prefix("Invalid date components: ", e.as_str()),
            ),
        }
    }
}

/// Computes the duration from the first date to the second.
pub fn temporal_plain_date_until(
    one_str: Option<&str>,
    two_str: Option<&str>,
) -> (r: TemporalResult)
    ensures
        ({
            match (one_str, two_str) {
                (None, _) => is_type_error(r, msg_null("first plain date"@)),
                (Some(va), None) => match date_parse(va@) {
                    Err(e) => is_range_error(r, msg_invalid("plain date"@, va@, e)),
                    Ok(_) => is_type_error(r, msg_null("second plain date"@)),
                },
                (Some(va), Some(vb)) => match (date_parse(va@), date_parse(vb@)) {
                    (Err(e), _) => is_range_error(r, msg_invalid("plain date"@, va@, e)),
                    (Ok(_), Err(e)) => is_range_error(r, msg_invalid("plain date"@, vb@, e)),
                    (Ok(_), Ok(_)) => match date_until(va@, vb@) {
                        Ok(c) => is_success(r, c),
                        Err(e) => is_range_error(r, msg_failed("compute difference"@, e)),
                    },
                },
            }
        }),
{
    let va = match require_str(one_str, "first plain date") {
        Ok(v) => v,
        Err(e) => return e,
    };
    match eng_date_parse(va) {
        Ok(_) => (),
        Err(e) => return TemporalResult::range_error(
            build_msg_invalid("plain date", va, e.as_str()),
        ),
    }
    let vb = match require_str(two_str, "second plain date") {
        Ok(v) => v,
        Err(e) => return e,
    };
    match eng_date_parse(vb) {
        Ok(_) => (),
        Err(e) => return TemporalResult::range_error(
            build_msg_invalid("plain date", vb, e.as_str()),
        ),
    }
    match eng_date_until(va, vb) {
        Ok(c) => TemporalResult::success(c),
        Err(e) => TemporalResult::range_error(build_msg_failed("compute difference", e.as_str())),
    }
}

/// Computes the duration since the second date, seen from the first.
pub fn temporal_plain_date_since(
    one_str: Option<&str>,
    two_str: Option<&str>,
) -> (r: TemporalResult)
    ensures
        ({
            match (one_str, two_str) {
                (None, _) => is_type_error(r, msg_null("first plain date"@)),
                (Some(va), None) => match date_parse(va@) {
                    Err(e) => is_range_error(r, msg_invalid("plain date"@, va@, e)),
                    Ok(_) => is_type_error(r, msg_null("second plain date"@)),
                },
                (Some(va), Some(vb)) => match (date_parse(va@), date_parse(vb@)) {
                    (Err(e), _) => is_range_error(r, msg_invalid("plain date"@, va@, e)),
                    (Ok(_), Err(e)) => is_range_error(r, msg_invalid("plain date"@, vb@, e)),
                    (Ok(_), Ok(_)) => match date_since(va@, vb@) {
                        Ok(c) => is_success(r, c),
                        Err(e) => is_range_error(r, msg_failed("compute difference"@, e)),
                    },
                },
            }
        }),
{
    let va = match require_str(one_str, "first plain date") {
        Ok(v) => v,
        Err(e) => return e,
    };
    match eng_date_parse(va) {
        Ok(_) => (),
        Err(e) => return TemporalResult::range_error(
            build_msg_invalid("plain date", va, e.as_str()),
        ),
    }
    let vb = match require_str(two_str, "second plain date") {
        Ok(v) => v,
        Err(e) => return e,
    };
    match eng_date_parse(vb) {
        Ok(_) => (),
        Err(e) => return TemporalResult::range_error(
            build_msg_invalid("plain date", vb, e.as_str()),
        ),
    }
    match eng_date_since(va, vb) {
        Ok(c) => TemporalResult::success(c),
        Err(e) => TemporalResult::range_error(build_msg_failed("compute difference", e.as_str())),
    }
}

} // verus!
