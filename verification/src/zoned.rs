//! Zoned date-time operations: parsing, construction from components,
//! component extraction, epoch and field accessors, duration arithmetic,
//! comparison, sentinel-based partial update, rounding, and conversions
//! to the plain value kinds.

use vstd::prelude::*;

use crate::components::ZonedDateTimeComponents;
use crate::engine::cal_parse;
use crate::engine::dt_new;
use crate::engine::dur_parse;
use crate::engine::eng_calendar_parse;
use crate::engine::eng_dt_new;
use crate::engine::eng_duration_parse;
use crate::engine::eng_incr_check;
use crate::engine::eng_mode_ok;
use crate::engine::eng_tz_id;
use crate::engine::eng_unit_ok;
use crate::engine::eng_zdt_add;
use crate::engine::eng_zdt_cal;
use crate::engine::eng_zdt_from_pdt;
use crate::engine::eng_zdt_ns;
use crate::engine::eng_zdt_offset;
use crate::engine::eng_zdt_parse;
use crate::engine::eng_zdt_date_parts;
use crate::engine::eng_zdt_time_parts;
use crate::engine::eng_zdt_round;
use crate::engine::eng_zdt_since;
use crate::engine::eng_zdt_subtract;
use crate::engine::eng_zdt_to_date;
use crate::engine::eng_zdt_to_dt;
use crate::engine::eng_zdt_to_instant;
use crate::engine::eng_zdt_to_time;
use crate::engine::eng_zdt_tz;
use crate::engine::eng_zdt_until;
use crate::engine::incr_err;
use crate::engine::mode_ok;
use crate::engine::oview;
use crate::engine::tz_id;
use crate::engine::unit_ok;
use crate::engine::zdt_add;
use crate::engine::zdt_cal_id;
use crate::engine::zdt_from_pdt;
use crate::engine::zdt_ns;
use crate::engine::zdt_offset_str;
use crate::engine::zdt_parse;
use crate::engine::zdt_parts;
use crate::engine::zdt_round;
use crate::engine::zdt_since;
use crate::engine::zdt_subtract;
use crate::engine::zdt_to_date;
use crate::engine::zdt_to_dt;
use crate::engine::zdt_to_instant;
use crate::engine::zdt_to_time;
use crate::engine::zdt_tz_id;
use crate::engine::zdt_until;
use crate::envelope::is_cmp_range_error;
use crate::envelope::is_cmp_success;
use crate::envelope::is_cmp_type_error;
use crate::envelope::is_range_error;
use crate::envelope::is_success;
use crate::envelope::is_type_error;
use crate::envelope::CompareResult;
use crate::envelope::TemporalResult;
use crate::duration::cmp3;
use crate::marshal::build_msg_failed;
use crate::marshal::build_msg_invalid;
use crate::marshal::build_msg_null;
use crate::marshal::build_msg_prefix;
use crate::marshal::msg_failed;
use crate::marshal::msg_invalid;
use crate::marshal::msg_null;
use crate::marshal::require_str;
use crate::plain_date_time::resolved_i32;
use crate::plain_date_time::resolved_u16;
use crate::plain_date_time::resolved_u8;
use crate::policy::DisambiguationPolicy;
use crate::textutil::dec_int;
use crate::textutil::fmt_i128;
use crate::textutil::fmt_i64;
use crate::textutil::trunc_u16;
use crate::textutil::trunc_u32;
use crate::textutil::trunc_u8;
use vstd::string::StringExecFns;

verus! {

/// The component snapshot of a parsed zoned date-time.
pub open spec fn zdt_components_of(
    d: crate::engine::DateParts,
    t: crate::engine::TimeParts,
    offset_ns: i64,
) -> ZonedDateTimeComponents {
    (ZonedDateTimeComponents {
        year: d.year,
        month: d.month,
        day: d.day,
        day_of_week: d.day_of_week,
        day_of_year: d.day_of_year,
        week_of_year: match d.week_of_year {
            Some(w) => w as u16,
            None => 0,
        },
        year_of_week: match d.year_of_week {
            Some(y) => y,
            None => 0,
        },
        days_in_week: d.days_in_week,
        days_in_month: d.days_in_month,
        days_in_year: d.days_in_year,
        months_in_year: d.months_in_year,
        in_leap_year: if d.in_leap_year { 1 } else { 0 },
        hour: t.hour,
        minute: t.minute,
        second: t.second,
        millisecond: t.millisecond,
        microsecond: t.microsecond,
        nanosecond: t.nanosecond,
        offset_nanoseconds: offset_ns,
        is_valid: 1,
    })
}

/// Parses an IXDTF zoned date-time string and returns its canonical form
/// in a result envelope.  A canonical output always reparses to itself.
pub fn temporal_zoned_date_time_from_string(s: Option<&str>) -> (r: TemporalResult)
    ensures
        ({
            match s {
                None => is_type_error(r, msg_null("zoned date time string"@)),
                Some(v) => match zdt_parse(v@) {
                    Err(e) => is_range_error(r, msg_invalid("zoned date time"@, v@, e)),
                    Ok(c) => is_success(r, c) && zdt_parse(c) == Ok::<Seq<char>, Seq<char>>(c),
                },
            }
        }),
{
    let v = match require_str(s, "zoned date time string") {
        Ok(v) => v,
        Err(e) => return e,
    };
    match eng_zdt_parse(v) {
        Ok(c) => TemporalResult::success(c),
        Err(e) => TemporalResult::range_error(
            build_msg_invalid("zoned date time", v, e.as_str()),
        ),
    }
}

/// Creates a zoned date-time from nine date-time fields, an optional
/// calendar, and a required time zone, resolving the wall-clock time
/// compatibly.
pub fn temporal_zoned_date_time_from_components(
    year: i32,
    month: u8,
    day: u8,
    hour: u8,
    minute: u8,
    second: u8,
    millisecond: u16,
    microsecond: u16,
    nanosecond: u16,
    calendar_id: Option<&str>,
    time_zone_id: Option<&str>,
    _offset_nanoseconds: i64,
) -> (r: TemporalResult)
    ensures
        ({
            let cal_step: Result<Option<Seq<char>>, Seq<char>> = match calendar_id {
                Some(cs) => match cal_parse(cs@) {
                    Err(e) => Err(e),
                    Ok(_) => Ok(Some(cs@)),
                },
                None => Ok(None),
            };
            match cal_step {
                Err(e) => is_range_error(r, "Invalid calendar: "@ + e),
                Ok(cal) => match dt_new(
                    year as int,
                    month as int,
                    day as int,
                    hour as int,
                    minute as int,
                    second as int,
                    millisecond as int,
                    microsecond as int,
                    nanosecond as int,
                    cal,
                ) {
                    Err(e) => is_range_error(r, "Invalid components: "@ + e),
                    Ok(pdt) => match time_zone_id {
                        None => is_type_error(r, "Timezone ID is required"@),
                        Some(ts) => match tz_id(ts@) {
                            Err(e) => is_range_error(r, "Invalid timezone: "@ + e),
                            Ok(_) => match zdt_from_pdt(
                                pdt,
                                ts@,
                                DisambiguationPolicy::Compatible.spec_code(),
                            ) {
                                Ok(c) => is_success(r, c),
                                Err(e) => is_range_error(
                                    r,
                                    msg_failed("create zoned date time"@, e),
                                ),
                            },
                        },
                    },
                },
            }
        }),
{
    if let Some(cs) = calendar_id {
        match eng_calendar_parse(cs) {
            Ok(_) => (),
            Err(e) => return TemporalResult::range_error(
                build_msg_prefix("Invalid calendar: ", e.as_str()),
            ),
        }
    }
    let pdt = match eng_dt_new(
        year,
        month,
        day,
        hour,
        minute,
        second,
        millisecond,
        microsecond,
        nanosecond,
        calendar_id,
    ) {
        Ok(p) => p,
        Err(e) => return TemporalResult::range_error(
            build_msg_prefix("Invalid components: ", e.as_str()),
        ),
    };
    let ts = match time_zone_id {
        Some(t) => t,
        None => return TemporalResult::type_error(String::from_str("Timezone ID is required")),
    };
    match eng_tz_id(ts) {
        Ok(_) => (),
        Err(e) => return TemporalResult::range_error(
            build_msg_prefix("Invalid timezone: ", e.as_str()),
        ),
    }
    match eng_zdt_from_pdt(pdt.as_str(), ts, DisambiguationPolicy::Compatible.code()) {
        Ok(c) => TemporalResult::success(c),
        Err(e) => TemporalResult::range_error(
            build_msg_failed("create zoned date time", e.as_str()),
        ),
    }
}

/// Extracts all component values of a zoned date-time string in one
/// call, resetting the snapshot first so a failed extraction never
/// leaves partial data.
pub fn temporal_zoned_date_time_get_components(s: Option<&str>, out: &mut ZonedDateTimeComponents)
    ensures
        ({
            match s {
                None => *final(out) == ZonedDateTimeComponents::zeroed(),
                Some(v) => match zdt_parts(v@) {
                    None => *final(out) == ZonedDateTimeComponents::zeroed(),
                    Some(p) => *final(out) == zdt_components_of(p.0, p.1, p.2),
                },
            }
        }),
{
    *out = ZonedDateTimeComponents::default();
    let v = match s {
        Some(v) => v,
        None => return,
    };
    let d = match eng_zdt_date_parts(v) {
        Ok(p) => p,
        Err(_) => return,
    };
    let tp = match eng_zdt_time_parts(v) {
        Ok(p) => p,
        Err(_) => return,
    };
    let t = tp.0;
    out.year = d.year;
    out.month = d.month;
    out.day = d.day;
    out.day_of_week = d.day_of_week;
    out.day_of_year = d.day_of_year;
    out.week_of_year = match d.week_of_year {
        Some(w) => w as u16,
        None => 0,
    };
    out.year_of_week = match d.year_of_week {
        Some(y) => y,
        None => 0,
    };
    out.days_in_week = d.days_in_week;
    out.days_in_month = d.days_in_month;
    out.days_in_year = d.days_in_year;
    out.months_in_year = d.months_in_year;
    out.in_leap_year = if d.in_leap_year { 1 } else { 0 };
    out.hour = t.hour;
    out.minute = t.minute;
    out.second = t.second;
    out.millisecond = t.millisecond;
    out.microsecond = t.microsecond;
    out.nanosecond = t.nanosecond;
    out.offset_nanoseconds = tp.1;
    out.is_valid = 1;
}

/// Returns the epoch milliseconds of a zoned date-time, as a decimal
/// string.
pub fn temporal_zoned_date_time_epoch_milliseconds(s: Option<&str>) -> (r: TemporalResult)
    ensures
        ({
            match s {
                None => is_type_error(r, msg_null("zoned date time"@)),
                Some(v) => match zdt_ns(v@) {
                    Err(e) => is_range_error(r, msg_invalid("zoned date time"@, v@, e)),
                    Ok(n) => is_success(r, dec_int(n / 1_000_000)),
                },
            }
        }),
{
    let v = match require_str(s, "zoned date time") {
        Ok(v) => v,
        Err(e) => return e,
    };
    match eng_zdt_ns(v) {
        Ok(p) => TemporalResult::success(fmt_i64(p.1)),
        Err(e) => TemporalResult::range_error(
            build_msg_invalid("zoned date time", v, e.as_str()),
        ),
    }
}

/// Returns the epoch nanoseconds of a zoned date-time, as a decimal
/// string.
pub fn temporal_zoned_date_time_epoch_nanoseconds(s: Option<&str>) -> (r: TemporalResult)
    ensures
        ({
            match s {
                None => is_type_error(r, msg_null("zoned date time"@)),
                Some(v) => match zdt_ns(v@) {
                    Err(e) => is_range_error(r, msg_invalid("zoned date time"@, v@, e)),
                    Ok(n) => is_success(r, dec_int(n)),
                },
            }
        }),
{
    let v = match require_str(s, "zoned date time") {
        Ok(v) => v,
        Err(e) => return e,
    };
    match eng_zdt_ns(v) {
        Ok(p) => TemporalResult::success(fmt_i128(p.0)),
        Err(e) => TemporalResult::range_error(
            build_msg_invalid("zoned date time", v, e.as_str()),
        ),
    }
}

/// Returns the canonical calendar identifier of a zoned date-time.
pub fn temporal_zoned_date_time_get_calendar(s: Option<&str>) -> (r: TemporalResult)
    ensures
        ({
            match s {
                None => is_type_error(r, msg_null("zoned date time"@)),
                Some(v) => match zdt_parse(v@) {
                    Err(e) => is_range_error(r, msg_invalid("zoned date time"@, v@, e)),
                    Ok(_) => is_success(r, zdt_cal_id(v@)),
                },
            }
        }),
{
    let v = match require_str(s, "zoned date time") {
        Ok(v) => v,
        Err(e) => return e,
    };
    match eng_zdt_cal(v) {
        Ok(c) => TemporalResult::success(c),
        Err(e) => TemporalResult::range_error(
            build_msg_invalid("zoned date time", v, e.as_str()),
        ),
    }
}

/// Returns the canonical time zone identifier of a zoned date-time.
pub fn temporal_zoned_date_time_get_time_zone(s: Option<&str>) -> (r: TemporalResult)
    ensures
        ({
            match s {
                None => is_type_error(r, msg_null("zoned date time"@)),
                Some(v) => match zdt_parse(v@) {
                    Err(e) => is_range_error(r, msg_invalid("zoned date time"@, v@, e)),
                    Ok(_) => match zdt_tz_id(v@) {
                        Ok(c) => is_success(r, c),
                        Err(e) => is_range_error(r, msg_failed("get timezone id"@, e)),
                    },
                },
            }
        }),
{
    let v = match require_str(s, "zoned date time") {
        Ok(v) => v,
        Err(e) => return e,
    };
    match eng_zdt_parse(v) {
        Ok(_) => (),
        Err(e) => return TemporalResult::range_error(
            build_msg_invalid("zoned date time", v, e.as_str()),
        ),
    }
    match eng_zdt_tz(v) {
        Ok(c) => TemporalResult::success(c),
        Err(e) => TemporalResult::range_error(build_msg_failed("get timezone id", e.as_str())),
    }
}

/// Returns the offset string of a zoned date-time.
pub fn temporal_zoned_date_time_get_offset(s: Option<&str>) -> (r: TemporalResult)
    ensures
        ({
            match s {
                None => is_type_error(r, msg_null("zoned date time"@)),
                Some(v) => match zdt_parse(v@) {
                    Err(e) => is_range_error(r, msg_invalid("zoned date time"@, v@, e)),
                    Ok(_) => is_success(r, zdt_offset_str(v@)),
                },
            }
        }),
{
    let v = match require_str(s, "zoned date time") {
        Ok(v) => v,
        Err(e) => return e,
    };
    match eng_zdt_offset(v) {
        Ok(c) => TemporalResult::success(c),
        Err(e) => TemporalResult::range_error(
            build_msg_invalid("zoned date time", v, e.as_str()),
        ),
    }
}

/// Adds a duration to a zoned date-time, rejecting overflow.
pub fn temporal_zoned_date_time_add(
    zdt_str: Option<&str>,
    duration_str: Option<&str>,
) -> (r: TemporalResult)
    ensures
        ({
            match (zdt_str, duration_str) {
                (None, _) => is_type_error(r, msg_null("zoned date time"@)),
                (Some(vt), None) => match zdt_parse(vt@) {
                    Err(e) => is_range_error(r, msg_invalid("zoned date time"@, vt@, e)),
                    Ok(_) => is_type_error(r, msg_null("duration"@)),
                },
                (Some(vt), Some(vd)) => match (zdt_parse(vt@), dur_parse(vd@)) {
                    (Err(e), _) => is_range_error(r, msg_invalid("zoned date time"@, vt@, e)),
                    (Ok(_), Err(e)) => is_range_error(r, msg_invalid("duration"@, vd@, e)),
                    (Ok(_), Ok(_)) => match zdt_add(vt@, vd@) {
                        Ok(c) => is_success(r, c),
                        Err(e) => is_range_error(r, msg_failed("add duration"@, e)),
                    },
                },
            }
        }),
{
    let vt = match require_str(zdt_str, "zoned date time") {
        Ok(v) => v,
        Err(e) => return e,
    };
    match eng_zdt_parse(vt) {
        Ok(_) => (),
        Err(e) => return TemporalResult::range_error(
            build_msg_invalid("zoned date time", vt, e.as_str()),
        ),
    }
    let vd = match require_str(duration_str, "duration") {
        Ok(v) => v,
        Err(e) => return e,
    };
    match eng_duration_parse(vd) {
        Ok(_) => (),
        Err(e) => return TemporalResult::range_error(
            build_msg_invalid("duration", vd, e.as_str()),
        ),
    }
    match eng_zdt_add(vt, vd) {
        Ok(c) => TemporalResult::success(c),
        Err(e) => TemporalResult::range_error(build_msg_failed("add duration", e.as_str())),
    }
}

/// Subtracts a duration from a zoned date-time, rejecting overflow.
pub fn temporal_zoned_date_time_subtract(
    zdt_str: Option<&str>,
    duration_str: Option<&str>,
) -> (r: TemporalResult)
    ensures
        ({
            match (zdt_str, duration_str) {
                (None, _) => is_type_error(r, msg_null("zoned date time"@)),
                (Some(vt), None) => match zdt_parse(vt@) {
                    Err(e) => is_range_error(r, msg_invalid("zoned date time"@, vt@, e)),
                    Ok(_) => is_type_error(r, msg_null("duration"@)),
                },
                (Some(vt), Some(vd)) => match (zdt_parse(vt@), dur_parse(vd@)) {
                    (Err(e), _) => is_range_error(r, msg_invalid("zoned date time"@, vt@, e)),
                    (Ok(_), Err(e)) => is_range_error(r, msg_invalid("duration"@, vd@, e)),
                    (Ok(_), Ok(_)) => match zdt_subtract(vt@, vd@) {
                        Ok(c) => is_success(r, c),
                        Err(e) => is_range_error(r, msg_failed("subtract duration"@, e)),
                    },
                },
            }
        }),
{
    let vt = match require_str(zdt_str, "zoned date time") {
        Ok(v) => v,
        Err(e) => return e,
    };
    match eng_zdt_parse(vt) {
        Ok(_) => (),
        Err(e) => return TemporalResult::range_error(
            build_msg_invalid("zoned date time", vt, e.as_str()),
        ),
    }
    let vd = match require_str(duration_str, "duration") {
        Ok(v) => v,
        Err(e) => return e,
    };
    match eng_duration_parse(vd) {
        Ok(_) => (),
        Err(e) => return TemporalResult::range_error(
            build_msg_invalid("duration", vd, e.as_str()),
        ),
    }
    match eng_zdt_subtract(vt, vd) {
        Ok(c) => TemporalResult::success(c),
        Err(e) => TemporalResult::range_error(build_msg_failed("subtract duration", e.as_str())),
    }
}

/// Compares two zoned date-times by their positions on the timeline.
pub fn temporal_zoned_date_time_compare(a: Option<&str>, b: Option<&str>) -> (r: CompareResult)
    ensures
        ({
            match (a, b) {
                (None, _) => is_cmp_type_error(r, msg_null("first zoned date time"@)),
                (Some(va), None) => match zdt_parse(va@) {
                    Err(e) => is_cmp_range_error(r, msg_invalid("zoned date time"@, va@, e)),
                    Ok(_) => is_cmp_type_error(r, msg_null("second zoned date time"@)),
                },
                (Some(va), Some(vb)) => match (zdt_ns(va@), zdt_ns(vb@)) {
                    (Err(e), _) => is_cmp_range_error(r, msg_invalid("zoned date time"@, va@, e)),
                    (Ok(_), Err(e)) => is_cmp_range_error(
                        r,
                        msg_invalid("zoned date time"@, vb@, e),
                    ),
                    (Ok(na), Ok(nb)) => is_cmp_success(r, cmp3(na, nb)),
                },
            }
        }),
{
    let va = match a {
        Some(v) => v,
        None => return CompareResult::type_error(build_msg_null("first zoned date time")),
    };
    let pa = match eng_zdt_ns(va) {
        Ok(p) => p,
        Err(e) => return CompareResult::range_error(
            build_msg_invalid("zoned date time", va, e.as_str()),
        ),
    };
    let vb = match b {
        Some(v) => v,
        None => return CompareResult::type_error(build_msg_null("second zoned date time")),
    };
    let pb = match eng_zdt_ns(vb) {
        Ok(p) => p,
        Err(e) => return CompareResult::range_error(
            build_msg_invalid("zoned date time", vb, e.as_str()),
        ),
    };
    if pa.0 < pb.0 {
        CompareResult::success(-1)
    } else if pa.0 > pb.0 {
        CompareResult::success(1)
    } else {
        CompareResult::success(0)
    }
}

/// Returns a new zoned date-time with chosen wall-clock fields, calendar
/// or time zone replaced, re-resolving the wall-clock time compatibly.
/// An integer argument equal to `i32::MIN` or an absent string keeps the
/// original's field.
pub fn temporal_zoned_date_time_with(
    zdt_str: Option<&str>,
    year: i32,
    month: i32,
    day: i32,
    hour: i32,
    minute: i32,
    second: i32,
    millisecond: i32,
    microsecond: i32,
    nanosecond: i32,
    _offset_ns: i64,
    calendar_id: Option<&str>,
    time_zone_id: Option<&str>,
) -> (r: TemporalResult)
    ensures
        ({
            match zdt_str {
                None => is_type_error(r, msg_null("zoned date time"@)),
                Some(v) => match (zdt_parse(v@), zdt_parts(v@)) {
                    (Err(e), _) => is_range_error(r, msg_invalid("zoned date time"@, v@, e)),
                    (Ok(_), None) => false,
                    (Ok(_), Some(p)) => {
                        let ry = resolved_i32(p.0.year, year);
                        let rm = resolved_u8(p.0.month, month);
                        let rd = resolved_u8(p.0.day, day);
                        let rh = resolved_u8(p.1.hour, hour);
                        let rmi = resolved_u8(p.1.minute, minute);
                        let rs = resolved_u8(p.1.second, second);
                        let rms = resolved_u16(p.1.millisecond, millisecond);
                        let rus = resolved_u16(p.1.microsecond, microsecond);
                        let rns = resolved_u16(p.1.nanosecond, nanosecond);
                        let cal_step: Result<Option<Seq<char>>, Seq<char>> = match calendar_id {
                            Some(cs) => match cal_parse(cs@) {
                                Err(e) => Err(e),
                                Ok(_) => Ok(Some(cs@)),
                            },
                            None => Ok(Some(zdt_cal_id(v@))),
                        };
                        let tz_step: Result<Seq<char>, Seq<char>> = match time_zone_id {
                            Some(ts) => match tz_id(ts@) {
                                Err(e) => Err(e),
                                Ok(_) => Ok(ts@),
                            },
                            None => zdt_tz_id(v@),
                        };
                        match cal_step {
                            Err(e) => is_range_error(r, "Invalid calendar: "@ + e),
                            Ok(cal) => match tz_step {
                                Err(e) => is_range_error(r, "Invalid timezone: "@ + e),
                                Ok(tz) => match dt_new(
                                    ry,
                                    rm,
                                    rd,
                                    rh,
                                    rmi,
                                    rs,
                                    rms,
                                    rus,
                                    rns,
                                    cal,
                                ) {
                                    Err(e) => is_range_error(r, "Invalid components: "@ + e),
                                    Ok(pdt) => match zdt_from_pdt(
                                        pdt,
                                        tz,
                                        DisambiguationPolicy::Compatible.spec_code(),
                                    ) {
                                        Ok(c) => is_success(r, c),
                                        Err(e) => is_range_error(
                                            r,
                                            msg_failed("create zoned date time"@, e),
                                        ),
                                    },
                                },
                            },
                        }
                    },
                },
            }
        }),
{
    let v = match require_str(zdt_str, "zoned date time") {
        Ok(v) => v,
        Err(e) => return e,
    };
    let d = match eng_zdt_date_parts(v) {
        Ok(p) => p,
        Err(e) => return TemporalResult::range_error(
            build_msg_invalid("zoned date time", v, e.as_str()),
        ),
    };
    // The clock fields of a value whose date fields were just read are
    // always available.
    let t = match eng_zdt_time_parts(v) {
        Ok(p) => p.0,
        Err(e) => {
            proof {
                assert(false);
            }
            return TemporalResult::range_error(
                build_msg_invalid("zoned date time", v, e.as_str()),
            );
        },
    };
    let ry: i32 = if year == i32::MIN { d.year } else { year };
    let rm: u8 = if month == i32::MIN { d.month } else { trunc_u8(month) };
    let rd: u8 = if day == i32::MIN { d.day } else { trunc_u8(day) };
    let rh: u8 = if hour == i32::MIN { t.hour } else { trunc_u8(hour) };
    let rmi: u8 = if minute == i32::MIN { t.minute } else { trunc_u8(minute) };
    let rs: u8 = if second == i32::MIN { t.second } else { trunc_u8(second) };
    let rms: u16 = if millisecond == i32::MIN { t.millisecond } else { trunc_u16(millisecond) };
    let rus: u16 = if microsecond == i32::MIN { t.microsecond } else { trunc_u16(microsecond) };
    let rns: u16 = if nanosecond == i32::MIN { t.nanosecond } else { trunc_u16(nanosecond) };
    let cal: String = match calendar_id {
        Some(cs) => match eng_calendar_parse(cs) {
            Ok(_) => String::from_str(cs),
            Err(e) => return TemporalResult::range_error(
                build_msg_prefix("Invalid calendar: ", e.as_str()),
            ),
        },
        // A zoned date-time whose fields were just read always yields
        // its calendar identifier again.
        None => match eng_zdt_cal(v) {
            Ok(c) => c,
            Err(_) => {
                proof {
                    assert(false);
                }
                String::new()
            },
        },
    };
    let tz: String = match time_zone_id {
        Some(ts) => match eng_tz_id(ts) {
            Ok(_) => String::from_str(ts),
            Err(e) => return TemporalResult::range_error(
                build_msg_prefix("Invalid timezone: ", e.as_str()),
            ),
        },
        None => match eng_zdt_tz(v) {
            Ok(c) => c,
            Err(e) => return TemporalResult::range_error(
                build_msg_prefix("Invalid timezone: ", e.as_str()),
            ),
        },
    };
    let pdt = match eng_dt_new(ry, rm, rd, rh, rmi, rs, rms, rus, rns, Some(cal.as_str())) {
        Ok(p) => p,
        Err(e) => return TemporalResult::range_error(
            build_msg_prefix("Invalid components: ", e.as_str()),
        ),
    };
    match eng_zdt_from_pdt(pdt.as_str(), tz.as_str(), DisambiguationPolicy::Compatible.code()) {
        Ok(c) => TemporalResult::success(c),
        Err(e) => TemporalResult::range_error(
            build_msg_failed("create zoned date time", e.as_str()),
        ),
    }
}

/// Computes the duration from the first zoned date-time to the second.
pub fn temporal_zoned_date_time_until(
    one_str: Option<&str>,
    two_str: Option<&str>,
) -> (r: TemporalResult)
    ensures
        ({
            match (one_str, two_str) {
                (None, _) => is_type_error(r, msg_null("first zoned date time"@)),
                (Some(va), None) => match zdt_parse(va@) {
                    Err(e) => is_range_error(r, msg_invalid("zoned date time"@, va@, e)),
                    Ok(_) => is_type_error(r, msg_null("second zoned date time"@)),
                },
                (Some(va), Some(vb)) => match (zdt_parse(va@), zdt_parse(vb@)) {
                    (Err(e), _) => is_range_error(r, msg_invalid("zoned date time"@, va@, e)),
                    (Ok(_), Err(e)) => is_range_error(r, msg_invalid("zoned date time"@, vb@, e)),
                    (Ok(_), Ok(_)) => match zdt_until(va@, vb@) {
                        Ok(c) => is_success(r, c),
                        Err(e) => is_range_error(r, msg_failed("compute difference"@, e)),
                    },
                },
            }
        }),
{
    let va = match require_str(one_str, "first zoned date time") {
        Ok(v) => v,
        Err(e) => return e,
    };
    match eng_zdt_parse(va) {
        Ok(_) => (),
        Err(e) => return TemporalResult::range_error(
            build_msg_invalid("zoned date time", va, e.as_str()),
        ),
    }
    let vb = match require_str(two_str, "second zoned date time") {
        Ok(v) => v,
        Err(e) => return e,
    };
    match eng_zdt_parse(vb) {
        Ok(_) => (),
        Err(e) => return TemporalResult::range_error(
            build_msg_invalid("zoned date time", vb, e.as_str()),
        ),
    }
    match eng_zdt_until(va, vb) {
        Ok(c) => TemporalResult::success(c),
        Err(e) => TemporalResult::range_error(build_msg_failed("compute difference", e.as_str())),
    }
}

/// Computes the duration since the second zoned date-time, seen from the
/// first.
pub fn temporal_zoned_date_time_since(
    one_str: Option<&str>,
    two_str: Option<&str>,
) -> (r: TemporalResult)
    ensures
        ({
            match (one_str, two_str) {
                (None, _) => is_type_error(r, msg_null("first zoned date time"@)),
                (Some(va), None) => match zdt_parse(va@) {
                    Err(e) => is_range_error(r, msg_invalid("zoned date time"@, va@, e)),
                    Ok(_) => is_type_error(r, msg_null("second zoned date time"@)),
                },
                (Some(va), Some(vb)) => match (zdt_parse(va@), zdt_parse(vb@)) {
                    (Err(e), _) => is_range_error(r, msg_invalid("zoned date time"@, va@, e)),
                    (Ok(_), Err(e)) => is_range_error(r, msg_invalid("zoned date time"@, vb@, e)),
                    (Ok(_), Ok(_)) => match zdt_since(va@, vb@) {
                        Ok(c) => is_success(r, c),
                        Err(e) => is_range_error(r, msg_failed("compute difference"@, e)),
                    },
                },
            }
        }),
{
    let va = match require_str(one_str, "first zoned date time") {
        Ok(v) => v,
        Err(e) => return e,
    };
    match eng_zdt_parse(va) {
        Ok(_) => (),
        Err(e) => return TemporalResult::range_error(
            build_msg_invalid("zoned date time", va, e.as_str()),
        ),
    }
    let vb = match require_str(two_str, "second zoned date time") {
        Ok(v) => v,
        Err(e) => return e,
    };
    match eng_zdt_parse(vb) {
        Ok(_) => (),
        Err(e) => return TemporalResult::range_error(
            build_msg_invalid("zoned date time", vb, e.as_str()),
        ),
    }
    match eng_zdt_since(va, vb) {
        Ok(c) => TemporalResult::success(c),
        Err(e) => TemporalResult::range_error(build_msg_failed("compute difference", e.as_str())),
    }
}

/// Rounds a zoned date-time to the given unit, mode, and increment.  The
/// unit is required; an unusable increment argument falls back to one;
/// an absent mode defaults to half-expand.
pub fn temporal_zoned_date_time_round(
    zdt_str: Option<&str>,
    smallest_unit: Option<&str>,
    rounding_increment: i64,
    rounding_mode: Option<&str>,
) -> (r: TemporalResult)
    ensures
        ({
            let incr = if rounding_increment > 0 {
                (rounding_increment as int) % 4294967296
            } else {
                1
            };
            match zdt_str {
                None => is_type_error(r, msg_null("zoned date time"@)),
                Some(v) => match zdt_parse(v@) {
                    Err(e) => is_range_error(r, msg_invalid("zoned date time"@, v@, e)),
                    Ok(_) => match smallest_unit {
                        None => is_type_error(r, "smallestUnit is required"@),
                        Some(us) => if !unit_ok(us@) {
                            is_range_error(r, "Invalid smallest unit: "@ + us@)
                        } else {
                            let mode = match rounding_mode {
                                Some(ms) => ms@,
                                None => "halfExpand"@,
                            };
                            match rounding_mode {
                                Some(ms) => if !mode_ok(ms@) {
                                    is_range_error(r, "Invalid rounding mode: "@ + ms@)
                                } else {
                                    match incr_err(incr) {
                                        Some(e) => is_range_error(
                                            r,
                                            "Invalid rounding increment: "@ + e,
                                        ),
                                        None => match zdt_round(v@, us@, mode, incr) {
                                            Ok(c) => is_success(r, c),
                                            Err(e) => is_range_error(r, msg_failed("round"@, e)),
                                        },
                                    }
                                },
                                None => match incr_err(incr) {
                                    Some(e) => is_range_error(
                                        r,
                                        "Invalid rounding increment: "@ + e,
                                    ),
                                    None => match zdt_round(v@, us@, mode, incr) {
                                        Ok(c) => is_success(r, c),
                                        Err(e) => is_range_error(r, msg_failed("round"@, e)),
                                    },
                                },
                            }
                        },
                    },
                },
            }
        }),
{
    let v = match require_str(zdt_str, "zoned date time") {
        Ok(v) => v,
        Err(e) => return e,
    };
    match eng_zdt_parse(v) {
        Ok(_) => (),
        Err(e) => return TemporalResult::range_error(
            build_msg_invalid("zoned date time", v, e.as_str()),
        ),
    }
    let us = match smallest_unit {
        Some(u) => u,
        None => return TemporalResult::type_error(String::from_str("smallestUnit is required")),
    };
    if !eng_unit_ok(us) {
        return TemporalResult::range_error(build_msg_prefix("Invalid smallest unit: ", us));
    }
    if let Some(ms) = rounding_mode {
        if !eng_mode_ok(ms) {
            return TemporalResult::range_error(build_msg_prefix("Invalid rounding mode: ", ms));
        }
    }
    let incr: u32 = if rounding_increment > 0 {
        trunc_u32(rounding_increment)
    } else {
        1
    };
    match eng_incr_check(incr) {
        Some(e) => {
            return TemporalResult::range_error(
                build_msg_prefix("Invalid rounding increment: ", e.as_str()),
            );
        },
        None => (),
    }
    let ms: &str = match rounding_mode {
        Some(m) => m,
        None => "halfExpand",
    };
    match eng_zdt_round(v, us, ms, incr) {
        Ok(c) => TemporalResult::success(c),
        Err(e) => TemporalResult::range_error(build_msg_failed("round", e.as_str())),
    }
}

/// Converts a zoned date-time to its instant, serialized canonically in
/// UTC.
pub fn temporal_zoned_date_time_to_instant(s: Option<&str>) -> (r: TemporalResult)
    ensures
        ({
            match s {
                None => is_type_error(r, msg_null("zoned date time"@)),
                Some(v) => match zdt_parse(v@) {
                    Err(e) => is_range_error(r, msg_invalid("zoned date time"@, v@, e)),
                    Ok(_) => match zdt_to_instant(v@) {
                        Ok(c) => is_success(r, c),
                        Err(e) => is_range_error(r, msg_failed("convert to instant"@, e)),
                    },
                },
            }
        }),
{
    let v = match require_str(s, "zoned date time") {
        Ok(v) => v,
        Err(e) => return e,
    };
    match eng_zdt_parse(v) {
        Ok(_) => (),
        Err(e) => return TemporalResult::range_error(
            build_msg_invalid("zoned date time", v, e.as_str()),
        ),
    }
    match eng_zdt_to_instant(v) {
        Ok(c) => TemporalResult::success(c),
        Err(e) => TemporalResult::range_error(build_msg_failed("convert to instant", e.as_str())),
    }
}

/// Converts a zoned date-time to its plain date.
pub fn temporal_zoned_date_time_to_plain_date(s: Option<&str>) -> (r: TemporalResult)
    ensures
        ({
            match s {
                None => is_type_error(r, msg_null("zoned date time"@)),
                Some(v) => match zdt_parse(v@) {
                    Err(e) => is_range_error(r, msg_invalid("zoned date time"@, v@, e)),
                    Ok(_) => is_success(r, zdt_to_date(v@)),
                },
            }
        }),
{
    let v = match require_str(s, "zoned date time") {
        Ok(v) => v,
        Err(e) => return e,
    };
    match eng_zdt_to_date(v) {
        Ok(c) => TemporalResult::success(c),
        Err(e) => TemporalResult::range_error(
            build_msg_invalid("zoned date time", v, e.as_str()),
        ),
    }
}

/// Converts a zoned date-time to its plain time.
pub fn temporal_zoned_date_time_to_plain_time(s: Option<&str>) -> (r: TemporalResult)
    ensures
        ({
            match s {
                None => is_type_error(r, msg_null("zoned date time"@)),
                Some(v) => match zdt_parse(v@) {
                    Err(e) => is_range_error(r, msg_invalid("zoned date time"@, v@, e)),
                    Ok(_) => match zdt_to_time(v@) {
                        Ok(c) => is_success(r, c),
                        Err(e) => is_range_error(r, msg_failed("convert to plain time"@, e)),
                    },
                },
            }
        }),
{
    let v = match require_str(s, "zoned date time") {
        Ok(v) => v,
        Err(e) => return e,
    };
    match eng_zdt_parse(v) {
        Ok(_) => (),
        Err(e) => return TemporalResult::range_error(
            build_msg_invalid("zoned date time", v, e.as_str()),
        ),
    }
    match eng_zdt_to_time(v) {
        Ok(c) => TemporalResult::success(c),
        Err(e) => TemporalResult::range_error(
            build_msg_failed("convert to plain time", e.as_str()),
        ),
    }
}

/// Converts a zoned date-time to its plain date-time.
pub fn temporal_zoned_date_time_to_plain_date_time(s: Option<&str>) -> (r: TemporalResult)
    ensures
        ({
            match s {
                None => is_type_error(r, msg_null("zoned date time"@)),
                Some(v) => match zdt_parse(v@) {
                    Err(e) => is_range_error(r, msg_invalid("zoned date time"@, v@, e)),
                    Ok(_) => match zdt_to_dt(v@) {
                        Ok(c) => is_success(r, c),
                        Err(e) => is_range_error(
                            r,
                            msg_failed("convert to plain date time"@, e),
                        ),
                    },
                },
            }
        }),
{
    let v = match require_str(s, "zoned date time") {
        Ok(v) => v,
        Err(e) => return e,
    };
    match eng_zdt_parse(v) {
        Ok(_) => (),
        Err(e) => return TemporalResult::range_error(
            build_msg_invalid("zoned date time", v, e.as_str()),
        ),
    }
    match eng_zdt_to_dt(v) {
        Ok(c) => TemporalResult::success(c),
        Err(e) => TemporalResult::range_error(
            build_msg_failed("convert to plain date time", e.as_str()),
        ),
    }
}

} // verus!
