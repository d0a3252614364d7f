//! Calendar identifier operations: resolving an identifier to its
//! canonical form.

use vstd::prelude::*;

use crate::engine::cal_parse;
use crate::engine::eng_calendar_parse;
use crate::envelope::is_range_error;
use crate::envelope::is_success;
use crate::envelope::is_type_error;
use crate::envelope::TemporalResult;
use crate::marshal::build_msg_invalid;
use crate::marshal::msg_invalid;
use crate::marshal::msg_null;
use crate::marshal::require_str;

verus! {

/// Resolves a calendar identifier to its canonical form.  A canonical
/// identifier always resolves to itself.
pub fn temporal_calendar_from(id: Option<&str>) -> (r: TemporalResult)
    ensures
        ({
            match id {
                None => is_type_error(r, msg_null("calendar identifier"@)),
                Some(v) => match cal_parse(v@) {
                    Err(e) => is_range_error(r, msg_invalid("calendar identifier"@, v@, e)),
                    Ok(c) => is_success(r, c) && cal_parse(c) == Ok::<Seq<char>, Seq<char>>(c),
                },
            }
        }),
{
    let v = match require_str(id, "calendar identifier") {
        Ok(v) => v,
        Err(e) => return e,
    };
    match eng_calendar_parse(v) {
        Ok(c) => TemporalResult::success(c),
        Err(e) => TemporalResult::range_error(
            build_msg_invalid("calendar identifier", v, e.as_str()),
        ),
    }
}

/// Returns the canonical identifier of a calendar: an identifier already
/// in canonical form comes back unchanged.
pub fn temporal_calendar_id(id: Option<&str>) -> (r: TemporalResult)
    ensures
        ({
            match id {
                None => is_type_error(r, msg_null("calendar identifier"@)),
                Some(v) => match cal_parse(v@) {
                    Err(e) => is_range_error(r, msg_invalid("calendar identifier"@, v@, e)),
                    Ok(c) => is_success(r, c) && cal_parse(c) == Ok::<Seq<char>, Seq<char>>(c),
                },
            }
        }),
{
    let v = match require_str(id, "calendar identifier") {
        Ok(v) => v,
        Err(e) => return e,
    };
    match eng_calendar_parse(v) {
        Ok(c) => TemporalResult::success(c),
        Err(e) => TemporalResult::range_error(
            build_msg_invalid("calendar identifier", v, e.as_str()),
        ),
    }
}

} // verus!
