//! Policy-string decoding: small enumerations arriving as strings are
//! decoded with a fixed default rather than failing, and forwarded to the
//! engine unchanged.

use vstd::prelude::*;

use crate::engine::oview;
use crate::textutil::str_eq;

verus! {

/// Policy for resolving a wall-clock time that maps to zero or two
/// instants across a time zone transition.
#[derive(Debug, Clone, Copy, PartialEq, Eq, Structural)]
pub enum DisambiguationPolicy {
    Compatible,
    Earlier,
    Later,
    Reject,
}

impl DisambiguationPolicy {
    /// A stable numeric code for this policy, used to index the engine's
    /// behaviour in specifications.
    pub open spec fn spec_code(self) -> int {
        match self {
            DisambiguationPolicy::Compatible => 0,
            DisambiguationPolicy::Earlier => 1,
            DisambiguationPolicy::Later => 2,
            DisambiguationPolicy::Reject => 3,
        }
    }

    /// Returns the numeric code of this policy.
    pub fn code(self) -> (c: u8)
        ensures
            c as int == self.spec_code(),
    {
        match self {
            DisambiguationPolicy::Compatible => 0,
            DisambiguationPolicy::Earlier => 1,
            DisambiguationPolicy::Later => 2,
            DisambiguationPolicy::Reject => 3,
        }
    }
}

/// The policy a possibly-absent string decodes to: the well-known names
/// select their policy, anything else (the absent string included) falls
/// back to `Compatible`.
pub open spec fn decode_disambiguation_spec(o: Option<Seq<char>>) -> DisambiguationPolicy {
    match o {
        None => DisambiguationPolicy::Compatible,
        Some(s) => if s == "earlier"@ {
            DisambiguationPolicy::Earlier
        } else if s == "later"@ {
            DisambiguationPolicy::Later
        } else if s == "reject"@ {
            DisambiguationPolicy::Reject
        } else {
            DisambiguationPolicy::Compatible
        },
    }
}

/// Decodes a disambiguation policy string, falling back to `Compatible`
/// for an absent or unrecognized value.
pub fn decode_disambiguation(s: Option<&str>) -> (d: DisambiguationPolicy)
    ensures
        d == decode_disambiguation_spec(oview(s)),
{
    match s {
        None => DisambiguationPolicy::Compatible,
        Some(v) => {
            if str_eq(v, "earlier") {
                DisambiguationPolicy::Earlier
            } else if str_eq(v, "later") {
                DisambiguationPolicy::Later
            } else if str_eq(v, "reject") {
                DisambiguationPolicy::Reject
            } else {
                DisambiguationPolicy::Compatible
            }
        },
    }
}

} // verus!
