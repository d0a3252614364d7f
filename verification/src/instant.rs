//! Instant operations: parsing, construction from epoch values, epoch
//! accessors, duration arithmetic, and comparison.
//!
//! Epoch values cross the boundary as decimal strings, formatted and
//! parsed by the library's own verified routines.

use vstd::prelude::*;

use crate::engine::dur_parse;
use crate::engine::eng_duration_parse;
use crate::engine::eng_instant_add;
use crate::engine::eng_instant_from_ns;
use crate::engine::eng_instant_ns;
use crate::engine::eng_instant_parse;
use crate::engine::eng_instant_subtract;
use crate::engine::inst_add;
use crate::engine::inst_from_ns;
use crate::engine::inst_ns;
use crate::engine::inst_parse;
use crate::engine::inst_subtract;
use crate::envelope::is_cmp_range_error;
use crate::envelope::is_cmp_success;
use crate::envelope::is_cmp_type_error;
use crate::envelope::is_range_error;
use crate::envelope::is_success;
use crate::envelope::is_type_error;
use crate::envelope::CompareResult;
use crate::envelope::TemporalResult;
use crate::duration::cmp3;
use crate::marshal::build_msg_failed;
use crate::marshal::build_msg_invalid;
use crate::marshal::build_msg_null;
use crate::marshal::build_msg_prefix;
use crate::marshal::msg_failed;
use crate::marshal::msg_invalid;
use crate::marshal::msg_null;
use crate::marshal::require_str;
use crate::textutil::dec_int;
use crate::textutil::fmt_i128;
use crate::textutil::fmt_i64;
use crate::textutil::parse_i128;
use crate::textutil::parse_i128_spec;
use vstd::string::StringExecFns;

verus! {

/// Parses an ISO 8601 instant string and returns its canonical UTC form
/// in a result envelope.  A canonical output always reparses to itself.
pub fn temporal_instant_from_string(s: Option<&str>) -> (r: TemporalResult)
    ensures
        ({
            match s {
                None => is_type_error(r, msg_null("instant string"@)),
                Some(v) => match inst_parse(v@) {
                    Err(e) => is_range_error(r, msg_invalid("instant"@, v@, e)),
                    Ok(c) => is_success(r, c) && inst_parse(c) == Ok::<Seq<char>, Seq<char>>(c),
                },
            }
        }),
{
    let v = match require_str(s, "instant string") {
        Ok(v) => v,
        Err(e) => return e,
    };
    match eng_instant_parse(v) {
        Ok(c) => TemporalResult::success(c),
        Err(e) => TemporalResult::range_error(build_msg_invalid("instant", v, e.as_str())),
    }
}

/// Creates an instant from epoch milliseconds.
pub fn temporal_instant_from_epoch_milliseconds(ms: i64) -> (r: TemporalResult)
    ensures
        ({
            match inst_from_ns(ms as int * 1_000_000) {
                Ok(c) => is_success(r, c),
                Err(e) => is_range_error(r, "Invalid epoch milliseconds: "@ + e),
            }
        }),
{
    let ns: i128 = (ms as i128) * 1_000_000;
    match eng_instant_from_ns(ns) {
        Ok(c) => TemporalResult::success(c),
        Err(e) => TemporalResult::range_error(
            build_msg_prefix("Invalid epoch milliseconds: ", e.as_str()),
        ),
    }
}

/// Creates an instant from epoch nanoseconds given as a decimal string,
/// for full 128-bit precision.
pub fn temporal_instant_from_epoch_nanoseconds(ns_str: Option<&str>) -> (r: TemporalResult)
    ensures
        ({
            match ns_str {
                None => is_type_error(r, msg_null("nanoseconds string"@)),
                Some(v) => match parse_i128_spec(v@) {
                    None => is_range_error(r, "Invalid nanoseconds string"@),
                    Some(n) => match inst_from_ns(n as int) {
                        Ok(c) => is_success(r, c),
                        Err(e) => is_range_error(r, "Invalid epoch nanoseconds: "@ + e),
                    },
                },
            }
        }),
{
    let v = match require_str(ns_str, "nanoseconds string") {
        Ok(v) => v,
        Err(e) => return e,
    };
    let n = match parse_i128(v) {
        Some(n) => n,
        None => return TemporalResult::range_error(
            String::from_str("Invalid nanoseconds string"),
        ),
    };
    match eng_instant_from_ns(n) {
        Ok(c) => TemporalResult::success(c),
        Err(e) => TemporalResult::range_error(
            build_msg_prefix("Invalid epoch nanoseconds: ", e.as_str()),
        ),
    }
}

/// Returns the epoch milliseconds of an instant, as a decimal string.
pub fn temporal_instant_epoch_milliseconds(s: Option<&str>) -> (r: TemporalResult)
    ensures
        ({
            match s {
                None => is_type_error(r, msg_null("instant"@)),
                Some(v) => match inst_ns(v@) {
                    Err(e) => is_range_error(r, msg_invalid("instant"@, v@, e)),
                    Ok(n) => is_success(r, dec_int(n / 1_000_000)),
                },
            }
        }),
{
    let v = match require_str(s, "instant") {
        Ok(v) => v,
        Err(e) => return e,
    };
    match eng_instant_ns(v) {
        Ok(p) => TemporalResult::success(fmt_i64(p.1)),
        Err(e) => TemporalResult::range_error(build_msg_invalid("instant", v, e.as_str())),
    }
}

/// Returns the epoch nanoseconds of an instant, as a decimal string.
pub fn temporal_instant_epoch_nanoseconds(s: Option<&str>) -> (r: TemporalResult)
    ensures
        ({
            match s {
                None => is_type_error(r, msg_null("instant"@)),
                Some(v) => match inst_ns(v@) {
                    Err(e) => is_range_error(r, msg_invalid("instant"@, v@, e)),
                    Ok(n) => is_success(r, dec_int(n)),
                },
            }
        }),
{
    let v = match require_str(s, "instant") {
        Ok(v) => v,
        Err(e) => return e,
    };
    match eng_instant_ns(v) {
        Ok(p) => TemporalResult::success(fmt_i128(p.0)),
        Err(e) => TemporalResult::range_error(build_msg_invalid("instant", v, e.as_str())),
    }
}

/// Adds a duration to an instant.
pub fn temporal_instant_add(
    instant_str: Option<&str>,
    duration_str: Option<&str>,
) -> (r: TemporalResult)
    ensures
        ({
            match (instant_str, duration_str) {
                (None, _) => is_type_error(r, msg_null("instant"@)),
                (Some(vt), None) => match inst_parse(vt@) {
                    Err(e) => is_range_error(r, msg_invalid("instant"@, vt@, e)),
                    Ok(_) => is_type_error(r, msg_null("duration"@)),
                },
                (Some(vt), Some(vd)) => match (inst_parse(vt@), dur_parse(vd@)) {
                    (Err(e), _) => is_range_error(r, msg_invalid("instant"@, vt@, e)),
                    (Ok(_), Err(e)) => is_range_error(r, msg_invalid("duration"@, vd@, e)),
                    (Ok(_), Ok(_)) => match inst_add(vt@, vd@) {
                        Ok(c) => is_success(r, c),
                        Err(e) => is_range_error(r, msg_failed("add duration"@, e)),
                    },
                },
            }
        }),
{
    let vt = match require_str(instant_str, "instant") {
        Ok(v) => v,
        Err(e) => return e,
    };
    match eng_instant_parse(vt) {
        Ok(_) => (),
        Err(e) => return TemporalResult::range_error(
            build_msg_invalid("instant", vt, e.as_str()),
        ),
    }
    let vd = match require_str(duration_str, "duration") {
        Ok(v) => v,
        Err(e) => return e,
    };
    match eng_duration_parse(vd) {
        Ok(_) => (),
        Err(e) => return TemporalResult::range_error(
            build_msg_invalid("duration", vd, e.as_str()),
        ),
    }
    match eng_instant_add(vt, vd) {
        Ok(c) => TemporalResult::success(c),
        Err(e) => TemporalResult::range_error(build_msg_failed("add duration", e.as_str())),
    }
}

/// Subtracts a duration from an instant.
pub fn temporal_instant_subtract(
    instant_str: Option<&str>,
    duration_str: Option<&str>,
) -> (r: TemporalResult)
    ensures
        ({
            match (instant_str, duration_str) {
                (None, _) => is_type_error(r, msg_null("instant"@)),
                (Some(vt), None) => match inst_parse(vt@) {
                    Err(e) => is_range_error(r, msg_invalid("instant"@, vt@, e)),
                    Ok(_) => is_type_error(r, msg_null("duration"@)),
                },
                (Some(vt), Some(vd)) => match (inst_parse(vt@), dur_parse(vd@)) {
                    (Err(e), _) => is_range_error(r, msg_invalid("instant"@, vt@, e)),
                    (Ok(_), Err(e)) => is_range_error(r, msg_invalid("duration"@, vd@, e)),
                    (Ok(_), Ok(_)) => match inst_subtract(vt@, vd@) {
                        Ok(c) => is_success(r, c),
                        Err(e) => is_range_error(r, msg_failed("subtract duration"@, e)),
                    },
                },
            }
        }),
{
    let vt = match require_str(instant_str, "instant") {
        Ok(v) => v,
        Err(e) => return e,
    };
    match eng_instant_parse(vt) {
        Ok(_) => (),
        Err(e) => return TemporalResult::range_error(
            build_msg_invalid("instant", vt, e.as_str()),
        ),
    }
    let vd = match require_str(duration_str, "duration") {
        Ok(v) => v,
        Err(e) => return e,
    };
    match eng_duration_parse(vd) {
        Ok(_) => (),
        Err(e) => return TemporalResult::range_error(
            build_msg_invalid("duration", vd, e.as_str()),
        ),
    }
    match eng_instant_subtract(vt, vd) {
        Ok(c) => TemporalResult::success(c),
        Err(e) => TemporalResult::range_error(build_msg_failed("subtract duration", e.as_str())),
    }
}

/// Compares two instants by their positions on the timeline.
pub fn temporal_instant_compare(a: Option<&str>, b: Option<&str>) -> (r: CompareResult)
    ensures
        ({
            match (a, b) {
                (None, _) => is_cmp_type_error(r, msg_null("first instant"@)),
                (Some(va), None) => match inst_parse(va@) {
                    Err(e) => is_cmp_range_error(r, msg_invalid("instant"@, va@, e)),
                    Ok(_) => is_cmp_type_error(r, msg_null("second instant"@)),
                },
                (Some(va), Some(vb)) => match (inst_ns(va@), inst_ns(vb@)) {
                    (Err(e), _) => is_cmp_range_error(r, msg_invalid("instant"@, va@, e)),
                    (Ok(_), Err(e)) => is_cmp_range_error(r, msg_invalid("instant"@, vb@, e)),
                    (Ok(na), Ok(nb)) => is_cmp_success(r, cmp3(na, nb)),
                },
            }
        }),
{
    let va = match a {
        Some(v) => v,
        None => return CompareResult::type_error(build_msg_null("first instant")),
    };
    let pa = match eng_instant_ns(va) {
        Ok(p) => p,
        Err(e) => return CompareResult::range_error(build_msg_invalid("instant", va, e.as_str())),
    };
    let vb = match b {
        Some(v) => v,
        None => return CompareResult::type_error(build_msg_null("second instant")),
    };
    let pb = match eng_instant_ns(vb) {
        Ok(p) => p,
        Err(e) => return CompareResult::range_error(build_msg_invalid("instant", vb, e.as_str())),
    };
    if pa.0 < pb.0 {
        CompareResult::success(-1)
    } else if pa.0 > pb.0 {
        CompareResult::success(1)
    } else {
        CompareResult::success(0)
    }
}

} // verus!
