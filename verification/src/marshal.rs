//! String marshalling and diagnostic message construction.
//!
//! Every boundary operation first turns its possibly-absent string
//! arguments into borrowed strings, failing with a type error before any
//! engine work.  Error messages always embed the parameter name or the
//! offending input, so the exact message text is part of each contract.

use vstd::prelude::*;
use vstd::string::StringExecFns;

use crate::envelope::is_type_error;
use crate::envelope::TemporalResult;

verus! {

/// Message for an absent required argument.
pub open spec fn msg_null(param: Seq<char>) -> Seq<char> {
    param + " cannot be null"@
}

/// Message for an argument whose bytes are not valid UTF-8.
pub open spec fn msg_invalid_utf8(param: Seq<char>) -> Seq<char> {
    "Invalid UTF-8 in "@ + param
}

/// Message for an input string the engine rejected: names the value kind,
/// embeds the offending input, and carries the engine's own description.
pub open spec fn msg_invalid(kind: Seq<char>, input: Seq<char>, err: Seq<char>) -> Seq<char> {
    "Invalid "@ + kind + " '"@ + input + "': "@ + err
}

/// Message for an operation the engine could not complete.
pub open spec fn msg_failed(what: Seq<char>, err: Seq<char>) -> Seq<char> {
    "Failed to "@ + what + ": "@ + err
}

/// Builds the absent-argument message for the named parameter.
pub fn build_msg_null(param: &str) -> (m: String)
    ensures
        m@ == msg_null(param@),
{
    let mut s = String::from_str(param);
    s.append(" cannot be null");
    s
}

/// Builds the invalid-encoding message for the named parameter.
pub fn build_msg_invalid_utf8(param: &str) -> (m: String)
    ensures
        m@ == msg_invalid_utf8(param@),
{
    let mut s = String::from_str("Invalid UTF-8 in ");
    s.append(param);
    s
}

/// Builds the rejected-input message, embedding the offending input.
pub fn build_msg_invalid(kind: &str, input: &str, err: &str) -> (m: String)
    ensures
        m@ == msg_invalid(kind@, input@, err@),
{
    let mut s = String::from_str("Invalid ");
    s.append(kind);
    s.append(" '");
    s.append(input);
    s.append("': ");
    s.append(err);
    assert(s@ =~= msg_invalid(kind@, input@, err@));
    s
}

/// Builds the failed-operation message.
pub fn build_msg_failed(what: &str, err: &str) -> (m: String)
    ensures
        m@ == msg_failed(what@, err@),
{
    let mut s = String::from_str("Failed to ");
    s.append(what);
    s.append(": ");
    s.append(err);
    assert(s@ =~= msg_failed(what@, err@));
    s
}

/// Builds a message from a fixed prefix and an engine error description.
pub fn build_msg_prefix(prefix: &str, err: &str) -> (m: String)
    ensures
        m@ == prefix@ + err@,
{
    let mut s = String::from_str(prefix);
    s.append(err);
    s
}

/// Builds a message from a prefix, an embedded value, and a suffix.
pub fn build_msg_wrap(prefix: &str, mid: &str, suffix: &str) -> (m: String)
    ensures
        m@ == prefix@ + mid@ + suffix@,
{
    let mut s = String::from_str(prefix);
    s.append(mid);
    s.append(suffix);
    assert(s@ =~= prefix@ + mid@ + suffix@);
    s
}

/// Validates a possibly-absent required string argument.  An absent
/// argument yields the type-error envelope for the named parameter; a
/// present one is borrowed through unchanged.
pub fn require_str<'a>(s: Option<&'a str>, param: &str) -> (r: Result<&'a str, TemporalResult>)
    ensures
        s matches Some(v) ==> (r matches Ok(x) && x@ == v@),
        s is None ==> (r matches Err(e) && is_type_error(e, msg_null(param@))),
{
    match s {
        Some(v) => Ok(v),
        None => Err(TemporalResult::type_error(build_msg_null(param))),
    }
}

/// The type-error envelope reported when an argument's bytes are not valid
/// UTF-8.  The adapters decode foreign strings before calling into the
/// library, so the decode failure is mapped here to keep the message rule
/// in one place.
pub fn invalid_utf8_error(param: &str) -> (r: TemporalResult)
    ensures
        is_type_error(r, msg_invalid_utf8(param@)),
{
    TemporalResult::type_error(build_msg_invalid_utf8(param))
}

} // verus!
