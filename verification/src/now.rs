//! Clock-reading operations.  The host clock is read through one trusted
//! wrapper; everything after the read is a function of the instant it
//! returned, so the contracts here state what holds of every outcome of
//! the read.

use vstd::prelude::*;

use crate::engine::eng_instant_to_zdt;
use crate::engine::eng_now_instant;
use crate::engine::eng_zdt_to_date;
use crate::engine::eng_zdt_to_dt;
use crate::engine::eng_zdt_to_time;
use crate::engine::inst_parse;
use crate::envelope::is_type_error;
use crate::envelope::wf_result;
use crate::envelope::TemporalErrorType;
use crate::envelope::TemporalResult;
use crate::marshal::build_msg_failed;
use crate::marshal::msg_null;
use crate::marshal::require_str;

verus! {

/// Reads the host clock and returns the current instant as a canonical
/// UTC string, or the engine's error description.  A returned string
/// always reparses to itself.
pub fn temporal_instant_now() -> (r: Result<String, String>)
    ensures
        (r matches Ok(c) ==> inst_parse(c@) == Ok::<Seq<char>, Seq<char>>(c@)),
{
    eng_now_instant()
}

/// Returns the current local date-time in the given zone.  The value
/// depends on the clock, so the contract fixes only the envelope's
/// shape: a type error for an absent zone, otherwise success or a range
/// error.
pub fn temporal_now_plain_date_time_iso(tz_id: Option<&str>) -> (r: TemporalResult)
    ensures
        tz_id is None ==> is_type_error(r, msg_null("timezone id"@)),
        tz_id is Some ==> wf_result(r) && r.error_type != TemporalErrorType::TypeError,
{
    let tz = match require_str(tz_id, "timezone id") {
        Ok(v) => v,
        Err(e) => return e,
    };
    let now = match eng_now_instant() {
        Ok(n) => n,
        Err(e) => return TemporalResult::range_error(
            build_msg_failed("get plain date time", e.as_str()),
        ),
    };
    let zdt = match eng_instant_to_zdt(now.as_str(), tz) {
        Ok(z) => z,
        Err(e) => return TemporalResult::range_error(
            build_msg_failed("get plain date time", e.as_str()),
        ),
    };
    match eng_zdt_to_dt(zdt.as_str()) {
        Ok(c) => TemporalResult::success(c),
        Err(e) => TemporalResult::range_error(
            build_msg_failed("get plain date time", e.as_str()),
        ),
    }
}

/// Returns the current local date in the given zone; the contract fixes
/// the envelope's shape as for the date-time form.
pub fn temporal_now_plain_date_iso(tz_id: Option<&str>) -> (r: TemporalResult)
    ensures
        tz_id is None ==> is_type_error(r, msg_null("timezone id"@)),
        tz_id is Some ==> wf_result(r) && r.error_type != TemporalErrorType::TypeError,
{
    let tz = match require_str(tz_id, "timezone id") {
        Ok(v) => v,
        Err(e) => return e,
    };
    let now = match eng_now_instant() {
        Ok(n) => n,
        Err(e) => return TemporalResult::range_error(
            build_msg_failed("get plain date", e.as_str()),
        ),
    };
    let zdt = match eng_instant_to_zdt(now.as_str(), tz) {
        Ok(z) => z,
        Err(e) => return TemporalResult::range_error(
            build_msg_failed("get plain date", e.as_str()),
        ),
    };
    match eng_zdt_to_date(zdt.as_str()) {
        Ok(c) => TemporalResult::success(c),
        Err(e) => TemporalResult::range_error(build_msg_failed("get plain date", e.as_str())),
    }
}

/// Returns the current local time in the given zone; the contract fixes
/// the envelope's shape as for the date-time form.
pub fn temporal_now_plain_time_iso(tz_id: Option<&str>) -> (r: TemporalResult)
    ensures
        tz_id is None ==> is_type_error(r, msg_null("timezone id"@)),
        tz_id is Some ==> wf_result(r) && r.error_type != TemporalErrorType::TypeError,
{
    let tz = match require_str(tz_id, "timezone id") {
        Ok(v) => v,
        Err(e) => return e,
    };
    let now = match eng_now_instant() {
        Ok(n) => n,
        Err(e) => return TemporalResult::range_error(
            build_msg_failed("get plain time", e.as_str()),
        ),
    };
    let zdt = match eng_instant_to_zdt(now.as_str(), tz) {
        Ok(z) => z,
        Err(e) => return TemporalResult::range_error(
            build_msg_failed("get plain time", e.as_str()),
        ),
    };
    match eng_zdt_to_time(zdt.as_str()) {
        Ok(c) => TemporalResult::success(c),
        Err(e) => TemporalResult::range_error(build_msg_failed("get plain time", e.as_str())),
    }
}

/// Returns the current zoned date-time in the given zone; the contract
/// fixes the envelope's shape as for the date-time form.
pub fn temporal_now_zoned_date_time_iso(tz_id: Option<&str>) -> (r: TemporalResult)
    ensures
        tz_id is None ==> is_type_error(r, msg_null("timezone id"@)),
        tz_id is Some ==> wf_result(r) && r.error_type != TemporalErrorType::TypeError,
{
    let tz = match require_str(tz_id, "timezone id") {
        Ok(v) => v,
        Err(e) => return e,
    };
    let now = match eng_now_instant() {
        Ok(n) => n,
        Err(e) => return TemporalResult::range_error(
            build_msg_failed("get zoned date time", e.as_str()),
        ),
    };
    match eng_instant_to_zdt(now.as_str(), tz) {
        Ok(c) => TemporalResult::success(c),
        Err(e) => TemporalResult::range_error(
            build_msg_failed("get zoned date time", e.as_str()),
        ),
    }
}

} // verus!
