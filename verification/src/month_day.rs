//! Plain month-day operations: parsing, construction, component
//! extraction, field accessors, and conversion to a date.
//!
//! A month-day's numeric month is recovered from its month code by
//! stripping the leading letter and reading the digits.

use vstd::prelude::*;

use crate::components::PlainMonthDayComponents;
use crate::engine::cal_parse;
use crate::engine::date_new;
use crate::engine::eng_calendar_parse;
use crate::engine::eng_date_new;
use crate::engine::eng_md_new;
use crate::engine::eng_md_parse;
use crate::engine::eng_md_parts;
use crate::engine::md_cal_id;
use crate::engine::md_day;
use crate::engine::md_month_code;
use crate::engine::md_new;
use crate::engine::md_parse;
use crate::envelope::is_range_error;
use crate::envelope::is_success;
use crate::envelope::is_type_error;
use crate::envelope::TemporalResult;
use crate::marshal::build_msg_invalid;
use crate::marshal::build_msg_null;
use crate::marshal::build_msg_prefix;
use crate::marshal::msg_invalid;
use crate::marshal::msg_null;
use crate::marshal::require_str;
use crate::textutil::int_literal_val;
use crate::textutil::parse_u8;
use crate::textutil::strip_month_prefix;
use crate::textutil::trim_m;
use crate::textutil::trunc_u8;
use vstd::string::StringExecFns;

verus! {

/// The numeric month read from a month code: the leading letters are
/// stripped and the remaining digits parsed, with zero for anything that
/// is not a small number.
pub open spec fn month_num_of_code(code: Seq<char>) -> int {
    match int_literal_val(trim_m(code)) {
        Some(v) => if 0 <= v <= u8::MAX && (trim_m(code).len() == 0 || trim_m(code)[0] != '-') {
            v
        } else {
            0
        },
        None => 0,
    }
}

/// Reads the numeric month out of a month code string.
fn month_from_code(code: &str) -> (m: u8)
    ensures
        m as int == month_num_of_code(code@),
{
    let stripped = strip_month_prefix(code);
    match parse_u8(stripped) {
        Some(m) => m,
        None => 0,
    }
}

/// Parses an ISO 8601 month-day string and returns its canonical form in
/// a result envelope.  A canonical output always reparses to itself.
pub fn temporal_plain_month_day_from_string(s: Option<&str>) -> (r: TemporalResult)
    ensures
        ({
            match s {
                None => is_type_error(r, msg_null("plain month day string"@)),
                Some(v) => match md_parse(v@) {
                    Err(e) => is_range_error(r, msg_invalid("plain month day"@, v@, e)),
                    Ok(c) => is_success(r, c) && md_parse(c) == Ok::<Seq<char>, Seq<char>>(c),
                },
            }
        }),
{
    let v = match require_str(s, "plain month day string") {
        Ok(v) => v,
        Err(e) => return e,
    };
    match eng_md_parse(v) {
        Ok(c) => TemporalResult::success(c),
        Err(e) => TemporalResult::range_error(build_msg_invalid("plain month day", v, e.as_str())),
    }
}

/// Creates a month-day from a month, a day, and an optional calendar
/// identifier, rejecting out-of-range fields.  The reference year is
/// implicit.
pub fn temporal_plain_month_day_from_components(
    month: u8,
    day: u8,
    calendar_id: Option<&str>,
    _reference_year: i32,
) -> (r: TemporalResult)
    ensures
        ({
            match calendar_id {
                Some(cs) => match cal_parse(cs@) {
                    Err(e) => is_range_error(r, "Invalid calendar: "@ + e),
                    Ok(_) => match md_new(month as int, day as int, Some(cs@)) {
                        Ok(c) => is_success(r, c),
                        Err(e) => is_range_error(r, "Invalid plain month day components: "@ + e),
                    },
                },
                None => match md_new(month as int, day as int, None) {
                    Ok(c) => is_success(r, c),
                    Err(e) => is_range_error(r, "Invalid plain month day components: "@ + e),
                },
            }
        }),
{
    if let Some(cs) = calendar_id {
        match eng_calendar_parse(cs) {
            Ok(_) => (),
            Err(e) => return TemporalResult::range_error(
                build_msg_prefix("Invalid calendar: ", e.as_str()),
            ),
        }
    }
    match eng_md_new(month, day, calendar_id) {
        Ok(c) => TemporalResult::success(c),
        Err(e) => TemporalResult::range_error(
            build_msg_prefix("Invalid plain month day components: ", e.as_str()),
        ),
    }
}

/// Extracts the component values of a month-day string, resetting the
/// snapshot first so a failed extraction never leaves partial data.
pub fn temporal_plain_month_day_get_components(s: Option<&str>, out: &mut PlainMonthDayComponents)
    ensures
        ({
            match s {
                None => *final(out) == PlainMonthDayComponents::zeroed(),
                Some(v) => match md_parse(v@) {
                    Err(_) => *final(out) == PlainMonthDayComponents::zeroed(),
                    Ok(_) => *final(out) == (PlainMonthDayComponents {
                        month: month_num_of_code(md_month_code(v@)) as u8,
                        day: md_day(v@),
                        is_valid: 1,
                    }),
                },
            }
        }),
{
    *out = PlainMonthDayComponents::default();
    let v = match s {
        Some(v) => v,
        None => return,
    };
    let p = match eng_md_parts(v) {
        Ok(p) => p,
        Err(_) => return,
    };
    out.month = month_from_code(p.1.as_str());
    out.day = p.0;
    out.is_valid = 1;
}

/// Returns the month code of a month-day.
pub fn temporal_plain_month_day_get_month_code(s: Option<&str>) -> (r: TemporalResult)
    ensures
        ({
            match s {
                None => is_type_error(r, msg_null("plain month day"@)),
                Some(v) => match md_parse(v@) {
                    Err(e) => is_range_error(r, msg_invalid("plain month day"@, v@, e)),
                    Ok(_) => is_success(r, md_month_code(v@)),
                },
            }
        }),
{
    let v = match require_str(s, "plain month day") {
        Ok(v) => v,
        Err(e) => return e,
    };
    match eng_md_parts(v) {
        Ok(p) => TemporalResult::success(p.1),
        Err(e) => TemporalResult::range_error(build_msg_invalid("plain month day", v, e.as_str())),
    }
}

/// Returns the canonical calendar identifier of a month-day.
pub fn temporal_plain_month_day_get_calendar(s: Option<&str>) -> (r: TemporalResult)
    ensures
        ({
            match s {
                None => is_type_error(r, msg_null("plain month day"@)),
                Some(v) => match md_parse(v@) {
                    Err(e) => is_range_error(r, msg_invalid("plain month day"@, v@, e)),
                    Ok(_) => is_success(r, md_cal_id(v@)),
                },
            }
        }),
{
    let v = match require_str(s, "plain month day") {
        Ok(v) => v,
        Err(e) => return e,
    };
    match eng_md_parts(v) {
        Ok(p) => TemporalResult::success(p.2),
        Err(e) => TemporalResult::range_error(build_msg_invalid("plain month day", v, e.as_str())),
    }
}

/// Converts a month-day to a date in the given year.  The numeric month
/// must be readable from the month code.
pub fn temporal_plain_month_day_to_plain_date(md_str: Option<&str>, year: i32) -> (r:
    TemporalResult)
    ensures
        ({
            match md_str {
                None => is_type_error(r, msg_null("plain month day"@)),
                Some(v) => match md_parse(v@) {
                    Err(e) => is_range_error(r, msg_invalid("plain month day"@, v@, e)),
                    Ok(_) => {
                        let m = month_num_of_code(md_month_code(v@));
                        if m == 0 {
                            is_range_error(r, "Failed to parse month from month code"@)
                        } else {
                            match date_new(
                                year as int,
                                m,
                                md_day(v@) as int,
                                Some(md_cal_id(v@)),
                            ) {
                                Ok(c) => is_success(r, c),
                                Err(e) => is_range_error(
                                    r,
                                    "Failed to convert to plain date: "@ + e,
                                ),
                            }
                        }
                    },
                },
            }
        }),
{
    let v = match require_str(md_str, "plain month day") {
        Ok(v) => v,
        Err(e) => return e,
    };
    let p = match eng_md_parts(v) {
        Ok(p) => p,
        Err(e) => return TemporalResult::range_error(
            build_msg_invalid("plain month day", v, e.as_str()),
        ),
    };
    let m = month_from_code(p.1.as_str());
    if m == 0 {
        return TemporalResult::range_error(
            String::from_str("Failed to parse month from month code"),
        );
    }
    match eng_date_new(year, m, p.0, Some(p.2.as_str())) {
        Ok(c) => TemporalResult::success(c),
        Err(e) => TemporalResult::range_error(
            build_msg_prefix("Failed to convert to plain date: ", e.as_str()),
        ),
    }
}

} // verus!
