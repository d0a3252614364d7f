//! Time zone operations: identifier resolution, offset queries, local
//! date-time projection, instant resolution under a disambiguation
//! policy, and the transition queries.
//!
//! The next/previous-transition operations are not implemented: they
//! always report that no transition was found, by answering with an
//! empty string once both arguments validate.

use vstd::prelude::*;

use crate::engine::cal_parse;
use crate::engine::eng_calendar_parse;
use crate::engine::eng_dt_parse;
use crate::engine::eng_instant_parse;
use crate::engine::eng_tz_id;
use crate::engine::eng_tz_offset_ns;
use crate::engine::eng_tz_offset_str;
use crate::engine::eng_tz_pdt_for;
use crate::engine::eng_zdt_from_pdt;
use crate::engine::eng_zdt_to_instant;
use crate::engine::dt_parse;
use crate::engine::inst_parse;
use crate::engine::oview;
use crate::engine::tz_id;
use crate::engine::tz_offset_ns;
use crate::engine::tz_offset_str;
use crate::engine::tz_pdt_for;
use crate::engine::zdt_from_pdt;
use crate::engine::zdt_to_instant;
use crate::envelope::is_range_error;
use crate::envelope::is_success;
use crate::envelope::is_type_error;
use crate::envelope::TemporalResult;
use crate::marshal::build_msg_failed;
use crate::marshal::build_msg_invalid;
use crate::marshal::msg_failed;
use crate::marshal::msg_invalid;
use crate::marshal::msg_null;
use crate::marshal::require_str;
use crate::policy::decode_disambiguation;
use crate::policy::decode_disambiguation_spec;
use crate::textutil::dec_int;
use crate::textutil::fmt_i64;
use vstd::string::StringExecFns;

verus! {

/// Resolves a time zone string to its canonical identifier.  A canonical
/// identifier always resolves to itself.
pub fn temporal_time_zone_from_string(s: Option<&str>) -> (r: TemporalResult)
    ensures
        ({
            match s {
                None => is_type_error(r, msg_null("timezone string"@)),
                Some(v) => match tz_id(v@) {
                    Err(e) => is_range_error(r, msg_invalid("timezone"@, v@, e)),
                    Ok(c) => is_success(r, c) && tz_id(c) == Ok::<Seq<char>, Seq<char>>(c),
                },
            }
        }),
{
    let v = match require_str(s, "timezone string") {
        Ok(v) => v,
        Err(e) => return e,
    };
    match eng_tz_id(v) {
        Ok(c) => TemporalResult::success(c),
        Err(e) => TemporalResult::range_error(build_msg_invalid("timezone", v, e.as_str())),
    }
}

/// Returns the canonical identifier of a time zone.
pub fn temporal_time_zone_get_id(s: Option<&str>) -> (r: TemporalResult)
    ensures
        ({
            match s {
                None => is_type_error(r, msg_null("timezone string"@)),
                Some(v) => match tz_id(v@) {
                    Err(e) => is_range_error(r, msg_invalid("timezone"@, v@, e)),
                    Ok(c) => is_success(r, c) && tz_id(c) == Ok::<Seq<char>, Seq<char>>(c),
                },
            }
        }),
{
    temporal_time_zone_from_string(s)
}

/// Returns the offset of a zone at an instant, in nanoseconds, as a
/// decimal string.
pub fn temporal_time_zone_get_offset_nanoseconds_for(
    tz_str: Option<&str>,
    instant_str: Option<&str>,
) -> (r: TemporalResult)
    ensures
        ({
            match (tz_str, instant_str) {
                (None, _) => is_type_error(r, msg_null("timezone"@)),
                (Some(vt), None) => match tz_id(vt@) {
                    Err(e) => is_range_error(r, msg_invalid("timezone"@, vt@, e)),
                    Ok(_) => is_type_error(r, msg_null("instant"@)),
                },
                (Some(vt), Some(vi)) => match (tz_id(vt@), inst_parse(vi@)) {
                    (Err(e), _) => is_range_error(r, msg_invalid("timezone"@, vt@, e)),
                    (Ok(_), Err(e)) => is_range_error(r, msg_invalid("instant"@, vi@, e)),
                    (Ok(_), Ok(_)) => match tz_offset_ns(vt@, vi@) {
                        Ok(n) => is_success(r, dec_int(n)),
                        Err(e) => is_range_error(r, msg_failed("get offset"@, e)),
                    },
                },
            }
        }),
{
    let vt = match require_str(tz_str, "timezone") {
        Ok(v) => v,
        Err(e) => return e,
    };
    match eng_tz_id(vt) {
        Ok(_) => (),
        Err(e) => return TemporalResult::range_error(
            build_msg_invalid("timezone", vt, e.as_str()),
        ),
    }
    let vi = match require_str(instant_str, "instant") {
        Ok(v) => v,
        Err(e) => return e,
    };
    match eng_instant_parse(vi) {
        Ok(_) => (),
        Err(e) => return TemporalResult::range_error(
            build_msg_invalid("instant", vi, e.as_str()),
        ),
    }
    match eng_tz_offset_ns(vt, vi) {
        Ok(n) => TemporalResult::success(fmt_i64(n)),
        Err(e) => TemporalResult::range_error(build_msg_failed("get offset", e.as_str())),
    }
}

/// Returns the offset string of a zone at an instant.
pub fn temporal_time_zone_get_offset_string_for(
    tz_str: Option<&str>,
    instant_str: Option<&str>,
) -> (r: TemporalResult)
    ensures
        ({
            match (tz_str, instant_str) {
                (None, _) => is_type_error(r, msg_null("timezone"@)),
                (Some(vt), None) => match tz_id(vt@) {
                    Err(e) => is_range_error(r, msg_invalid("timezone"@, vt@, e)),
                    Ok(_) => is_type_error(r, msg_null("instant"@)),
                },
                (Some(vt), Some(vi)) => match (tz_id(vt@), inst_parse(vi@)) {
                    (Err(e), _) => is_range_error(r, msg_invalid("timezone"@, vt@, e)),
                    (Ok(_), Err(e)) => is_range_error(r, msg_invalid("instant"@, vi@, e)),
                    (Ok(_), Ok(_)) => match tz_offset_str(vt@, vi@) {
                        Ok(c) => is_success(r, c),
                        Err(e) => is_range_error(r, msg_failed("get offset string"@, e)),
                    },
                },
            }
        }),
{
    let vt = match require_str(tz_str, "timezone") {
        Ok(v) => v,
        Err(e) => return e,
    };
    match eng_tz_id(vt) {
        Ok(_) => (),
        Err(e) => return TemporalResult::range_error(
            build_msg_invalid("timezone", vt, e.as_str()),
        ),
    }
    let vi = match require_str(instant_str, "instant") {
        Ok(v) => v,
        Err(e) => return e,
    };
    match eng_instant_parse(vi) {
        Ok(_) => (),
        Err(e) => return TemporalResult::range_error(
            build_msg_invalid("instant", vi, e.as_str()),
        ),
    }
    match eng_tz_offset_str(vt, vi) {
        Ok(c) => TemporalResult::success(c),
        Err(e) => TemporalResult::range_error(build_msg_failed("get offset string", e.as_str())),
    }
}

/// Returns the local date-time of an instant in a zone, under an
/// optional calendar (ISO 8601 when absent).
pub fn temporal_time_zone_get_plain_date_time_for(
    tz_str: Option<&str>,
    instant_str: Option<&str>,
    calendar_id: Option<&str>,
) -> (r: TemporalResult)
    ensures
        ({
            match (tz_str, instant_str) {
                (None, _) => is_type_error(r, msg_null("timezone"@)),
                (Some(vt), None) => match tz_id(vt@) {
                    Err(e) => is_range_error(r, msg_invalid("timezone"@, vt@, e)),
                    Ok(_) => is_type_error(r, msg_null("instant"@)),
                },
                (Some(vt), Some(vi)) => match (tz_id(vt@), inst_parse(vi@)) {
                    (Err(e), _) => is_range_error(r, msg_invalid("timezone"@, vt@, e)),
                    (Ok(_), Err(e)) => is_range_error(r, msg_invalid("instant"@, vi@, e)),
                    (Ok(_), Ok(_)) => match calendar_id {
                        Some(cs) => match cal_parse(cs@) {
                            Err(e) => is_range_error(r, "Invalid calendar: "@ + e),
                            Ok(_) => match tz_pdt_for(vt@, vi@, Some(cs@)) {
                                Ok(c) => is_success(r, c),
                                Err(e) => is_range_error(
                                    r,
                                    msg_failed("get plain date time"@, e),
                                ),
                            },
                        },
                        None => match tz_pdt_for(vt@, vi@, None) {
                            Ok(c) => is_success(r, c),
                            Err(e) => is_range_error(r, msg_failed("get plain date time"@, e)),
                        },
                    },
                },
            }
        }),
{
    let vt = match require_str(tz_str, "timezone") {
        Ok(v) => v,
        Err(e) => return e,
    };
    match eng_tz_id(vt) {
        Ok(_) => (),
        Err(e) => return TemporalResult::range_error(
            build_msg_invalid("timezone", vt, e.as_str()),
        ),
    }
    let vi = match require_str(instant_str, "instant") {
        Ok(v) => v,
        Err(e) => return e,
    };
    match eng_instant_parse(vi) {
        Ok(_) => (),
        Err(e) => return TemporalResult::range_error(
            build_msg_invalid("instant", vi, e.as_str()),
        ),
    }
    if let Some(cs) = calendar_id {
        match eng_calendar_parse(cs) {
            Ok(_) => (),
            Err(e) => return TemporalResult::range_error(
                crate::marshal::build_msg_prefix("Invalid calendar: ", e.as_str()),
            ),
        }
    }
    match eng_tz_pdt_for(vt, vi, calendar_id) {
        Ok(c) => TemporalResult::success(c),
        Err(e) => TemporalResult::range_error(build_msg_failed("get plain date time", e.as_str())),
    }
}

/// Resolves a local date-time in a zone to an instant, under a
/// disambiguation policy decoded leniently from a string.
pub fn temporal_time_zone_get_instant_for(
    tz_str: Option<&str>,
    dt_str: Option<&str>,
    disambiguation: Option<&str>,
) -> (r: TemporalResult)
    ensures
        ({
            match (tz_str, dt_str) {
                (None, _) => is_type_error(r, msg_null("timezone"@)),
                (Some(vt), None) => match tz_id(vt@) {
                    Err(e) => is_range_error(r, msg_invalid("timezone"@, vt@, e)),
                    Ok(_) => is_type_error(r, msg_null("plain date time"@)),
                },
                (Some(vt), Some(vd)) => match (tz_id(vt@), dt_parse(vd@)) {
                    (Err(e), _) => is_range_error(r, msg_invalid("timezone"@, vt@, e)),
                    (Ok(_), Err(e)) => is_range_error(r, msg_invalid("plain date time"@, vd@, e)),
                    (Ok(_), Ok(_)) => {
                        let code = decode_disambiguation_spec(oview(disambiguation)).spec_code();
                        match zdt_from_pdt(vd@, vt@, code) {
                            Err(e) => is_range_error(r, msg_failed("get instant"@, e)),
                            Ok(z) => match zdt_to_instant(z) {
                                Ok(c) => is_success(r, c),
                                Err(e) => is_range_error(r, msg_failed("format instant"@, e)),
                            },
                        }
                    },
                },
            }
        }),
{
    let vt = match require_str(tz_str, "timezone") {
        Ok(v) => v,
        Err(e) => return e,
    };
    match eng_tz_id(vt) {
        Ok(_) => (),
        Err(e) => return TemporalResult::range_error(
            build_msg_invalid("timezone", vt, e.as_str()),
        ),
    }
    let vd = match require_str(dt_str, "plain date time") {
        Ok(v) => v,
        Err(e) => return e,
    };
    match eng_dt_parse(vd) {
        Ok(_) => (),
        Err(e) => return TemporalResult::range_error(
            build_msg_invalid("plain date time", vd, e.as_str()),
        ),
    }
    let policy = decode_disambiguation(disambiguation);
    let z = match eng_zdt_from_pdt(vd, vt, policy.code()) {
        Ok(z) => z,
        Err(e) => return TemporalResult::range_error(
            build_msg_failed("get instant", e.as_str()),
        ),
    };
    match eng_zdt_to_instant(z.as_str()) {
        Ok(c) => TemporalResult::success(c),
        Err(e) => TemporalResult::range_error(build_msg_failed("format instant", e.as_str())),
    }
}

/// Reports the next zone transition after an instant.  The lookup is not
/// implemented: once both arguments validate, the answer is the empty
/// string, meaning no transition was found.
pub fn temporal_time_zone_get_next_transition(
    tz_str: Option<&str>,
    instant_str: Option<&str>,
) -> (r: TemporalResult)
    ensures
        ({
            match (tz_str, instant_str) {
                (None, _) => is_type_error(r, msg_null("timezone"@)),
                (Some(vt), None) => match tz_id(vt@) {
                    Err(e) => is_range_error(r, msg_invalid("timezone"@, vt@, e)),
                    Ok(_) => is_type_error(r, msg_null("instant"@)),
                },
                (Some(vt), Some(vi)) => match (tz_id(vt@), inst_parse(vi@)) {
                    (Err(e), _) => is_range_error(r, msg_invalid("timezone"@, vt@, e)),
                    (Ok(_), Err(e)) => is_range_error(r, msg_invalid("instant"@, vi@, e)),
                    (Ok(_), Ok(_)) => is_success(r, Seq::<char>::empty()),
                },
            }
        }),
{
    let vt = match require_str(tz_str, "timezone") {
        Ok(v) => v,
        Err(e) => return e,
    };
    match eng_tz_id(vt) {
        Ok(_) => (),
        Err(e) => return TemporalResult::range_error(
            build_msg_invalid("timezone", vt, e.as_str()),
        ),
    }
    let vi = match require_str(instant_str, "instant") {
        Ok(v) => v,
        Err(e) => return e,
    };
    match eng_instant_parse(vi) {
        Ok(_) => (),
        Err(e) => return TemporalResult::range_error(
            build_msg_invalid("instant", vi, e.as_str()),
        ),
    }
    TemporalResult::success(String::new())
}

/// Reports the previous zone transition before an instant.  The lookup
/// is not implemented: once both arguments validate, the answer is the
/// empty string, meaning no transition was found.
pub fn temporal_time_zone_get_previous_transition(
    tz_str: Option<&str>,
    instant_str: Option<&str>,
) -> (r: TemporalResult)
    ensures
        ({
            match (tz_str, instant_str) {
                (None, _) => is_type_error(r, msg_null("timezone"@)),
                (Some(vt), None) => match tz_id(vt@) {
                    Err(e) => is_range_error(r, msg_invalid("timezone"@, vt@, e)),
                    Ok(_) => is_type_error(r, msg_null("instant"@)),
                },
                (Some(vt), Some(vi)) => match (tz_id(vt@), inst_parse(vi@)) {
                    (Err(e), _) => is_range_error(r, msg_invalid("timezone"@, vt@, e)),
                    (Ok(_), Err(e)) => is_range_error(r, msg_invalid("instant"@, vi@, e)),
                    (Ok(_), Ok(_)) => is_success(r, Seq::<char>::empty()),
                },
            }
        }),
{
    let vt = match require_str(tz_str, "timezone") {
        Ok(v) => v,
        Err(e) => return e,
    };
    match eng_tz_id(vt) {
        Ok(_) => (),
        Err(e) => return TemporalResult::range_error(
            build_msg_invalid("timezone", vt, e.as_str()),
        ),
    }
    let vi = match require_str(instant_str, "instant") {
        Ok(v) => v,
        Err(e) => return e,
    };
    match eng_instant_parse(vi) {
        Ok(_) => (),
        Err(e) => return TemporalResult::range_error(
            build_msg_invalid("instant", vi, e.as_str()),
        ),
    }
    TemporalResult::success(String::new())
}

} // verus!
