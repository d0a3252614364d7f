//! Plain year-month operations: parsing, construction, component
//! extraction, field accessors, duration arithmetic, differences,
//! comparison, sentinel-based partial update, and conversion to a date.

use vstd::prelude::*;

use crate::components::PlainYearMonthComponents;
use crate::engine::cal_parse;
use crate::engine::date_new;
use crate::engine::eng_calendar_parse;
use crate::engine::eng_date_new;
use crate::engine::eng_duration_parse;
use crate::engine::eng_ym_add;
use crate::engine::eng_ym_iso_form;
use crate::engine::eng_ym_month_code;
use crate::engine::eng_ym_new;
use crate::engine::eng_ym_parse;
use crate::engine::eng_ym_parts;
use crate::engine::eng_ym_since;
use crate::engine::eng_ym_subtract;
use crate::engine::eng_ym_until;
use crate::engine::dur_parse;
use crate::engine::ym_add;
use crate::engine::ym_cal_id;
use crate::engine::ym_iso_form;
use crate::engine::ym_month_code;
use crate::engine::ym_new;
use crate::engine::ym_parse;
use crate::engine::ym_parts;
use crate::engine::ym_since;
use crate::engine::ym_subtract;
use crate::engine::ym_until;
use crate::engine::YearMonthParts;
use crate::envelope::is_cmp_range_error;
use crate::envelope::is_cmp_success;
use crate::envelope::is_cmp_type_error;
use crate::envelope::is_range_error;
use crate::envelope::is_success;
use crate::envelope::is_type_error;
use crate::envelope::CompareResult;
use crate::envelope::TemporalResult;
use crate::marshal::build_msg_failed;
use crate::marshal::build_msg_invalid;
use crate::marshal::build_msg_null;
use crate::marshal::build_msg_prefix;
use crate::marshal::msg_failed;
use crate::marshal::msg_invalid;
use crate::marshal::msg_null;
use crate::marshal::require_str;
use crate::textutil::lex_cmp;
use crate::textutil::str_lex_cmp;
use crate::textutil::trunc_u8;

verus! {

/// The component snapshot of a parsed year-month: a year-month has no
/// day, and an absent era year defaults to zero.
pub open spec fn ym_components_of(p: YearMonthParts) -> PlainYearMonthComponents {
    (PlainYearMonthComponents {
        year: p.year,
        month: p.month,
        day: 0,
        days_in_month: p.days_in_month,
        days_in_year: p.days_in_year,
        months_in_year: p.months_in_year,
        in_leap_year: if p.in_leap_year { 1 } else { 0 },
        era_year: match p.era_year {
            Some(y) => y,
            None => 0,
        },
        is_valid: 1,
    })
}

/// Parses an ISO 8601 year-month string and returns its canonical form
/// in a result envelope.  A canonical output always reparses to itself.
pub fn temporal_plain_year_month_from_string(s: Option<&str>) -> (r: TemporalResult)
    ensures
        ({
            match s {
                None => is_type_error(r, msg_null("plain year month string"@)),
                Some(v) => match ym_parse(v@) {
                    Err(e) => is_range_error(r, msg_invalid("plain year month"@, v@, e)),
                    Ok(c) => is_success(r, c) && ym_parse(c) == Ok::<Seq<char>, Seq<char>>(c),
                },
            }
        }),
{
    let v = match require_str(s, "plain year month string") {
        Ok(v) => v,
        Err(e) => return e,
    };
    match eng_ym_parse(v) {
        Ok(c) => TemporalResult::success(c),
        Err(e) => TemporalResult::range_error(
            build_msg_invalid("plain year month", v, e.as_str()),
        ),
    }
}

/// Creates a year-month from a year, a month, and an optional calendar
/// identifier.  The reference day is implicit.
pub fn temporal_plain_year_month_from_components(
    year: i32,
    month: u8,
    calendar_id: Option<&str>,
    _reference_day: u8,
) -> (r: TemporalResult)
    ensures
        ({
            match calendar_id {
                Some(cs) => match cal_parse(cs@) {
                    Err(e) => is_range_error(r, "Invalid calendar: "@ + e),
                    Ok(_) => match ym_new(year as int, month as int, Some(cs@)) {
                        Ok(c) => is_success(r, c),
                        Err(e) => is_range_error(r, "Invalid plain year month components: "@ + e),
                    },
                },
                None => match ym_new(year as int, month as int, None) {
                    Ok(c) => is_success(r, c),
                    Err(e) => is_range_error(r, "Invalid plain year month components: "@ + e),
                },
            }
        }),
{
    if let Some(cs) = calendar_id {
        match eng_calendar_parse(cs) {
            Ok(_) => (),
            Err(e) => return TemporalResult::range_error(
                build_msg_prefix("Invalid calendar: ", e.as_str()),
            ),
        }
    }
    match eng_ym_new(year, month, calendar_id) {
        Ok(c) => TemporalResult::success(c),
        Err(e) => TemporalResult::range_error(
            build_msg_prefix("Invalid plain year month components: ", e.as_str()),
        ),
    }
}

/// Extracts all component values of a year-month string in one call,
/// resetting the snapshot first so a failed extraction never leaves
/// partial data.
pub fn temporal_plain_year_month_get_components(
    s: Option<&str>,
    out: &mut PlainYearMonthComponents,
)
    ensures
        ({
            match s {
                None => *final(out) == PlainYearMonthComponents::zeroed(),
                Some(v) => match ym_parts(v@) {
                    None => *final(out) == PlainYearMonthComponents::zeroed(),
                    Some(p) => *final(out) == ym_components_of(p),
                },
            }
        }),
{
    *out = PlainYearMonthComponents::default();
    let v = match s {
        Some(v) => v,
        None => return,
    };
    let pc = match eng_ym_parts(v) {
        Ok(pc) => pc,
        Err(_) => return,
    };
    let p = pc.0;
    out.year = p.year;
    out.month = p.month;
    out.day = 0;
    out.days_in_month = p.days_in_month;
    out.days_in_year = p.days_in_year;
    out.months_in_year = p.months_in_year;
    out.in_leap_year = if p.in_leap_year { 1 } else { 0 };
    out.era_year = match p.era_year {
        Some(y) => y,
        None => 0,
    };
    out.is_valid = 1;
}

/// Returns the month code of a year-month.
pub fn temporal_plain_year_month_get_month_code(s: Option<&str>) -> (r: TemporalResult)
    ensures
        ({
            match s {
                None => is_type_error(r, msg_null("plain year month"@)),
                Some(v) => match ym_parse(v@) {
                    Err(e) => is_range_error(r, msg_invalid("plain year month"@, v@, e)),
                    Ok(_) => is_success(r, ym_month_code(v@)),
                },
            }
        }),
{
    let v = match require_str(s, "plain year month") {
        Ok(v) => v,
        Err(e) => return e,
    };
    match eng_ym_month_code(v) {
        Ok(c) => TemporalResult::success(c),
        Err(e) => TemporalResult::range_error(
            build_msg_invalid("plain year month", v, e.as_str()),
        ),
    }
}

/// Returns the canonical calendar identifier of a year-month.
pub fn temporal_plain_year_month_get_calendar(s: Option<&str>) -> (r: TemporalResult)
    ensures
        ({
            match s {
                None => is_type_error(r, msg_null("plain year month"@)),
                Some(v) => match ym_parse(v@) {
                    Err(e) => is_range_error(r, msg_invalid("plain year month"@, v@, e)),
                    Ok(_) => is_success(r, ym_cal_id(v@)),
                },
            }
        }),
{
    let v = match require_str(s, "plain year month") {
        Ok(v) => v,
        Err(e) => return e,
    };
    match eng_ym_parts(v) {
        Ok(pc) => TemporalResult::success(pc.1),
        Err(e) => TemporalResult::range_error(
            build_msg_invalid("plain year month", v, e.as_str()),
        ),
    }
}

/// Adds a duration to a year-month, rejecting overflow.
pub fn temporal_plain_year_month_add(
    ym_str: Option<&str>,
    duration_str: Option<&str>,
) -> (r: TemporalResult)
    ensures
        ({
            match (ym_str, duration_str) {
                (None, _) => is_type_error(r, msg_null("plain year month"@)),
                (Some(vt), None) => match ym_parse(vt@) {
                    Err(e) => is_range_error(r, msg_invalid("plain year month"@, vt@, e)),
                    Ok(_) => is_type_error(r, msg_null("duration"@)),
                },
                (Some(vt), Some(vd)) => match (ym_parse(vt@), dur_parse(vd@)) {
                    (Err(e), _) => is_range_error(r, msg_invalid("plain year month"@, vt@, e)),
                    (Ok(_), Err(e)) => is_range_error(r, msg_invalid("duration"@, vd@, e)),
                    (Ok(_), Ok(_)) => match ym_add(vt@, vd@) {
                        Ok(c) => is_success(r, c),
                        Err(e) => is_range_error(r, msg_failed("add duration"@, e)),
                    },
                },
            }
        }),
{
    let vt = match require_str(ym_str, "plain year month") {
        Ok(v) => v,
        Err(e) => return e,
    };
    match eng_ym_parse(vt) {
        Ok(_) => (),
        Err(e) => return TemporalResult::range_error(
            build_msg_invalid("plain year month", vt, e.as_str()),
        ),
    }
    let vd = match require_str(duration_str, "duration") {
        Ok(v) => v,
        Err(e) => return e,
    };
    match eng_duration_parse(vd) {
        Ok(_) => (),
        Err(e) => return TemporalResult::range_error(
            build_msg_invalid("duration", vd, e.as_str()),
        ),
    }
    match eng_ym_add(vt, vd) {
        Ok(c) => TemporalResult::success(c),
        Err(e) => TemporalResult::range_error(build_msg_failed("add duration", e.as_str())),
    }
}

/// Subtracts a duration from a year-month, rejecting overflow.
pub fn temporal_plain_year_month_subtract(
    ym_str: Option<&str>,
    duration_str: Option<&str>,
) -> (r: TemporalResult)
    ensures
        ({
            match (ym_str, duration_str) {
                (None, _) => is_type_error(r, msg_null("plain year month"@)),
                (Some(vt), None) => match ym_parse(vt@) {
                    Err(e) => is_range_error(r, msg_invalid("plain year month"@, vt@, e)),
                    Ok(_) => is_type_error(r, msg_null("duration"@)),
                },
                (Some(vt), Some(vd)) => match (ym_parse(vt@), dur_parse(vd@)) {
                    (Err(e), _) => is_range_error(r, msg_invalid("plain year month"@, vt@, e)),
                    (Ok(_), Err(e)) => is_range_error(r, msg_invalid("duration"@, vd@, e)),
                    (Ok(_), Ok(_)) => match ym_subtract(vt@, vd@) {
                        Ok(c) => is_success(r, c),
                        Err(e) => is_range_error(r, msg_failed("subtract duration"@, e)),
                    },
                },
            }
        }),
{
    let vt = match require_str(ym_str, "plain year month") {
        Ok(v) => v,
        Err(e) => return e,
    };
    match eng_ym_parse(vt) {
        Ok(_) => (),
        Err(e) => return TemporalResult::range_error(
            build_msg_invalid("plain year month", vt, e.as_str()),
        ),
    }
    let vd = match require_str(duration_str, "duration") {
        Ok(v) => v,
        Err(e) => return e,
    };
    match eng_duration_parse(vd) {
        Ok(_) => (),
        Err(e) => return TemporalResult::range_error(
            build_msg_invalid("duration", vd, e.as_str()),
        ),
    }
    match eng_ym_subtract(vt, vd) {
        Ok(c) => TemporalResult::success(c),
        Err(e) => TemporalResult::range_error(build_msg_failed("subtract duration", e.as_str())),
    }
}

/// Compares two year-months by the character-wise order of their pure
/// ISO forms, with calendar annotations suppressed.
pub fn temporal_plain_year_month_compare(a: Option<&str>, b: Option<&str>) -> (r: CompareResult)
    ensures
        ({
            match (a, b) {
                (None, _) => is_cmp_type_error(r, msg_null("first plain year month"@)),
                (Some(va), None) => match ym_parse(va@) {
                    Err(e) => is_cmp_range_error(r, msg_invalid("plain year month"@, va@, e)),
                    Ok(_) => is_cmp_type_error(r, msg_null("second plain year month"@)),
                },
                (Some(va), Some(vb)) => match (ym_iso_form(va@), ym_iso_form(vb@)) {
                    (Err(e), _) => is_cmp_range_error(r, msg_invalid("plain year month"@, va@, e)),
                    (Ok(_), Err(e)) => is_cmp_range_error(
                        r,
                        msg_invalid("plain year month"@, vb@, e),
                    ),
                    (Ok(ia), Ok(ib)) => is_cmp_success(r, lex_cmp(ia, ib)),
                },
            }
        }),
{
    let va = match a {
        Some(v) => v,
        None => return CompareResult::type_error(build_msg_null("first plain year month")),
    };
    let ia = match eng_ym_iso_form(va) {
        Ok(i) => i,
        Err(e) => return CompareResult::range_error(
            build_msg_invalid("plain year month", va, e.as_str()),
        ),
    };
    let vb = match b {
        Some(v) => v,
        None => return CompareResult::type_error(build_msg_null("second plain year month")),
    };
    let ib = match eng_ym_iso_form(vb) {
        Ok(i) => i,
        Err(e) => return CompareResult::range_error(
            build_msg_invalid("plain year month", vb, e.as_str()),
        ),
    };
    CompareResult::success(str_lex_cmp(ia.as_str(), ib.as_str()))
}

/// Returns a new year-month with chosen fields replaced.  An integer
/// argument equal to `i32::MIN` or an absent calendar keeps the
/// original's field; resolving every field to the original reconstructs
/// an ISO year-month unchanged.
pub fn temporal_plain_year_month_with(
    ym_str: Option<&str>,
    year: i32,
    month: i32,
    calendar_id: Option<&str>,
) -> (r: TemporalResult)
    ensures
        ({
            match ym_str {
                None => is_type_error(r, msg_null("plain year month"@)),
                Some(v) => match (ym_parse(v@), ym_parts(v@)) {
                    (Err(e), _) => is_range_error(r, msg_invalid("plain year month"@, v@, e)),
                    (Ok(_), None) => false,
                    (Ok(_), Some(p)) => {
                        let ry = if year == i32::MIN { p.year as int } else { year as int };
                        let rm = if month == i32::MIN { p.month as int } else {
                            (month as int) % 256
                        };
                        match calendar_id {
                            Some(cs) => match cal_parse(cs@) {
                                Err(e) => is_range_error(r, "Invalid calendar: "@ + e),
                                Ok(_) => match ym_new(ry, rm, Some(cs@)) {
                                    Ok(c) => is_success(r, c),
                                    Err(e) => is_range_error(r, "Invalid components: "@ + e),
                                },
                            },
                            None => match ym_new(ry, rm, Some(ym_cal_id(v@))) {
                                Ok(c) => is_success(r, c),
                                Err(e) => is_range_error(r, "Invalid components: "@ + e),
                            },
                        }
                    },
                },
            }
        }),
        ({
            match ym_str {
                None => true,
                Some(v) => match (ym_parse(v@), ym_parts(v@)) {
                    (Ok(c), Some(p)) => (year == i32::MIN && month == i32::MIN && calendar_id
                        is None && ym_cal_id(v@) == "iso8601"@) ==> is_success(r, c),
                    _ => true,
                },
            }
        }),
{
    let v = match require_str(ym_str, "plain year month") {
        Ok(v) => v,
        Err(e) => return e,
    };
    let pc = match eng_ym_parts(v) {
        Ok(pc) => pc,
        Err(e) => return TemporalResult::range_error(
            build_msg_invalid("plain year month", v, e.as_str()),
        ),
    };
    let p = pc.0;
    let ry: i32 = if year == i32::MIN { p.year } else { year };
    let rm: u8 = if month == i32::MIN { p.month } else { trunc_u8(month) };
    if let Some(cs) = calendar_id {
        match eng_calendar_parse(cs) {
            Ok(_) => (),
            Err(e) => return TemporalResult::range_error(
                build_msg_prefix("Invalid calendar: ", e.as_str()),
            ),
        }
        match eng_ym_new(ry, rm, Some(cs)) {
            Ok(c) => TemporalResult::success(c),
            Err(e) => TemporalResult::range_error(
                build_msg_prefix("Invalid components: ", e.as_str()),
            ),
        }
    } else {
        match eng_ym_new(ry, rm, Some(pc.1.as_str())) {
            Ok(c) => TemporalResult::success(c),
            Err(e) => TemporalResult::range_error(
                build_msg_prefix("Invalid components: ", e.as_str()),
            ),
        }
    }
}

/// Computes the duration from the first year-month to the second.
pub fn temporal_plain_year_month_until(
    one_str: Option<&str>,
    two_str: Option<&str>,
) -> (r: TemporalResult)
    ensures
        ({
            match (one_str, two_str) {
                (None, _) => is_type_error(r, msg_null("first plain year month"@)),
                (Some(va), None) => match ym_parse(va@) {
                    Err(e) => is_range_error(r, msg_invalid("plain year month"@, va@, e)),
                    Ok(_) => is_type_error(r, msg_null("second plain year month"@)),
                },
                (Some(va), Some(vb)) => match (ym_parse(va@), ym_parse(vb@)) {
                    (Err(e), _) => is_range_error(r, msg_invalid("plain year month"@, va@, e)),
                    (Ok(_), Err(e)) => is_range_error(r, msg_invalid("plain year month"@, vb@, e)),
                    (Ok(_), Ok(_)) => match ym_until(va@, vb@) {
                        Ok(c) => is_success(r, c),
                        Err(e) => is_range_error(r, msg_failed("compute difference"@, e)),
                    },
                },
            }
        }),
{
    let va = match require_str(one_str, "first plain year month") {
        Ok(v) => v,
        Err(e) => return e,
    };
    match eng_ym_parse(va) {
        Ok(_) => (),
        Err(e) => return TemporalResult::range_error(
            build_msg_invalid("plain year month", va, e.as_str()),
        ),
    }
    let vb = match require_str(two_str, "second plain year month") {
        Ok(v) => v,
        Err(e) => return e,
    };
    match eng_ym_parse(vb) {
        Ok(_) => (),
        Err(e) => return TemporalResult::range_error(
            build_msg_invalid("plain year month", vb, e.as_str()),
        ),
    }
    match eng_ym_until(va, vb) {
        Ok(c) => TemporalResult::success(c),
        Err(e) => TemporalResult::range_error(build_msg_failed("compute difference", e.as_str())),
    }
}

/// Computes the duration since the second year-month, seen from the
/// first.
pub fn temporal_plain_year_month_since(
    one_str: Option<&str>,
    two_str: Option<&str>,
) -> (r: TemporalResult)
    ensures
        ({
            match (one_str, two_str) {
                (None, _) => is_type_error(r, msg_null("first plain year month"@)),
                (Some(va), None) => match ym_parse(va@) {
                    Err(e) => is_range_error(r, msg_invalid("plain year month"@, va@, e)),
                    Ok(_) => is_type_error(r, msg_null("second plain year month"@)),
                },
                (Some(va), Some(vb)) => match (ym_parse(va@), ym_parse(vb@)) {
                    (Err(e), _) => is_range_error(r, msg_invalid("plain year month"@, va@, e)),
                    (Ok(_), Err(e)) => is_range_error(r, msg_invalid("plain year month"@, vb@, e)),
                    (Ok(_), Ok(_)) => match ym_since(va@, vb@) {
                        Ok(c) => is_success(r, c),
                        Err(e) => is_range_error(r, msg_failed("compute difference"@, e)),
                    },
                },
            }
        }),
{
    let va = match require_str(one_str, "first plain year month") {
        Ok(v) => v,
        Err(e) => return e,
    };
    match eng_ym_parse(va) {
        Ok(_) => (),
        Err(e) => return TemporalResult::range_error(
            build_msg_invalid("plain year month", va, e.as_str()),
        ),
    }
    let vb = match require_str(two_str, "second plain year month") {
        Ok(v) => v,
        Err(e) => return e,
    };
    match eng_ym_parse(vb) {
        Ok(_) => (),
        Err(e) => return TemporalResult::range_error(
            build_msg_invalid("plain year month", vb, e.as_str()),
        ),
    }
    match eng_ym_since(va, vb) {
        Ok(c) => TemporalResult::success(c),
        Err(e) => TemporalResult::range_error(build_msg_failed("compute difference", e.as_str())),
    }
}

/// Converts a year-month to a date on the given day of the month.
pub fn temporal_plain_year_month_to_plain_date(ym_str: Option<&str>, day: i32) -> (r:
    TemporalResult)
    ensures
        ({
            match ym_str {
                None => is_type_error(r, msg_null("plain year month"@)),
                Some(v) => match (ym_parse(v@), ym_parts(v@)) {
                    (Err(e), _) => is_range_error(r, msg_invalid("plain year month"@, v@, e)),
                    (Ok(_), None) => false,
                    (Ok(_), Some(p)) => match date_new(
                        p.year as int,
                        p.month as int,
                        (day as int) % 256,
                        Some(ym_cal_id(v@)),
                    ) {
                        Ok(c) => is_success(r, c),
                        Err(e) => is_range_error(r, "Failed to convert to plain date: "@ + e),
                    },
                },
            }
        }),
{
    let v = match require_str(ym_str, "plain year month") {
        Ok(v) => v,
        Err(e) => return e,
    };
    let pc = match eng_ym_parts(v) {
        Ok(pc) => pc,
        Err(e) => return TemporalResult::range_error(
            build_msg_invalid("plain year month", v, e.as_str()),
        ),
    };
    let p = pc.0;
    match eng_date_new(p.year, p.month, trunc_u8(day), Some(pc.1.as_str())) {
        Ok(c) => TemporalResult::success(c),
        Err(e) => TemporalResult::range_error(
            build_msg_prefix("Failed to convert to plain date: ", e.as_str()),
        ),
    }
}

} // verus!
