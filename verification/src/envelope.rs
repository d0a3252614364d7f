//! Success/error envelopes returned by every fallible boundary operation.
//!
//! An envelope carries either a value (a canonical string, or an ordering
//! integer) or an error of one of two kinds, never both.  A paired release
//! operation clears the carried strings and is a no-op when called again.

use vstd::prelude::*;

verus! {

/// Error classification of a failed boundary operation.
///
/// `RangeError` covers engine-reported semantic failures (invalid syntax,
/// out-of-range components, failed arithmetic); `TypeError` covers boundary
/// validation failures (absent required argument, invalid encoding).
#[derive(Debug, Clone, Copy, PartialEq, Eq, Structural)]
pub enum TemporalErrorType {
    NoError,
    RangeError,
    TypeError,
}

impl TemporalErrorType {
    /// The stable integer code of this error kind on the wire.
    pub open spec fn spec_code(self) -> i32 {
        match self {
            TemporalErrorType::NoError => 0,
            TemporalErrorType::RangeError => 1,
            TemporalErrorType::TypeError => 2,
        }
    }

    /// Returns the integer code used across the boundary: 0 for success,
    /// 1 for a range error, 2 for a type error.
    pub fn code(self) -> (c: i32)
        ensures
            c == self.spec_code(),
    {
        match self {
            TemporalErrorType::NoError => 0,
            TemporalErrorType::RangeError => 1,
            TemporalErrorType::TypeError => 2,
        }
    }
}

/// Result of a fallible operation whose success value is a string.
pub struct TemporalResult {
    /// The canonical string produced on success; absent on error.
    pub value: Option<String>,
    /// The error kind; `TemporalErrorType::NoError` on success.
    pub error_type: TemporalErrorType,
    /// The error message; absent on success.
    pub error_message: Option<String>,
}

/// Holds when `r` is a success envelope carrying exactly the string `v`.
pub open spec fn is_success(r: TemporalResult, v: Seq<char>) -> bool {
    &&& r.value matches Some(s) && s@ == v
    &&& r.error_type == TemporalErrorType::NoError
    &&& r.error_message is None
}

/// Holds when `r` is a range-error envelope carrying exactly the message `m`.
pub open spec fn is_range_error(r: TemporalResult, m: Seq<char>) -> bool {
    &&& r.value is None
    &&& r.error_type == TemporalErrorType::RangeError
    &&& r.error_message matches Some(s) && s@ == m
}

/// Holds when `r` is a type-error envelope carrying exactly the message `m`.
pub open spec fn is_type_error(r: TemporalResult, m: Seq<char>) -> bool {
    &&& r.value is None
    &&& r.error_type == TemporalErrorType::TypeError
    &&& r.error_message matches Some(s) && s@ == m
}

/// Holds when exactly one of the value and the message is present, and the
/// error kind agrees with which one it is.
pub open spec fn wf_result(r: TemporalResult) -> bool {
    &&& (r.value is Some <==> r.error_type == TemporalErrorType::NoError)
    &&& (r.value is Some <==> r.error_message is None)
}

impl TemporalResult {
    /// Wraps an engine output string in a success envelope.
    pub fn success(value: String) -> (r: TemporalResult)
        ensures
            is_success(r, value@),
            wf_result(r),
    {
        TemporalResult {
            value: Some(value),
            error_type: TemporalErrorType::NoError,
            error_message: None,
        }
    }

    /// Builds a range-error envelope carrying the given message.
    pub fn range_error(message: String) -> (r: TemporalResult)
        ensures
            is_range_error(r, message@),
            wf_result(r),
    {
        TemporalResult {
            value: None,
            error_type: TemporalErrorType::RangeError,
            error_message: Some(message),
        }
    }

    /// Builds a type-error envelope carrying the given message.
    pub fn type_error(message: String) -> (r: TemporalResult)
        ensures
            is_type_error(r, message@),
            wf_result(r),
    {
        TemporalResult {
            value: None,
            error_type: TemporalErrorType::TypeError,
            error_message: Some(message),
        }
    }

    /// Releases the strings carried by this envelope.  After the call both
    /// the value and the message are absent; releasing an already released
    /// envelope changes nothing.
    pub fn release(&mut self)
        ensures
            final(self).value is None,
            final(self).error_message is None,
            final(self).error_type == old(self).error_type,
            old(self).value is None && old(self).error_message is None
                ==> *final(self) == *old(self),
    {
        self.value = None;
        self.error_message = None;
    }
}

/// Result of a comparison operation: an ordering integer instead of a string.
pub struct CompareResult {
    /// -1, 0, or 1 on success; 0 on error.
    pub value: i32,
    /// The error kind; `TemporalErrorType::NoError` on success.
    pub error_type: TemporalErrorType,
    /// The error message; absent on success.
    pub error_message: Option<String>,
}

/// Holds when `r` is a success comparison envelope carrying the ordering `v`.
pub open spec fn is_cmp_success(r: CompareResult, v: int) -> bool {
    &&& r.value == v
    &&& r.error_type == TemporalErrorType::NoError
    &&& r.error_message is None
}

/// Holds when `r` is a range-error comparison envelope with the message `m`.
pub open spec fn is_cmp_range_error(r: CompareResult, m: Seq<char>) -> bool {
    &&& r.value == 0
    &&& r.error_type == TemporalErrorType::RangeError
    &&& r.error_message matches Some(s) && s@ == m
}

/// Holds when `r` is a type-error comparison envelope with the message `m`.
pub open spec fn is_cmp_type_error(r: CompareResult, m: Seq<char>) -> bool {
    &&& r.value == 0
    &&& r.error_type == TemporalErrorType::TypeError
    &&& r.error_message matches Some(s) && s@ == m
}

impl CompareResult {
    /// Wraps an ordering integer in a success envelope.
    pub fn success(value: i32) -> (r: CompareResult)
        ensures
            is_cmp_success(r, value as int),
    {
        CompareResult { value, error_type: TemporalErrorType::NoError, error_message: None }
    }

    /// Builds a range-error comparison envelope carrying the given message.
    pub fn range_error(message: String) -> (r: CompareResult)
        ensures
            is_cmp_range_error(r, message@),
    {
        CompareResult {
            value: 0,
            error_type: TemporalErrorType::RangeError,
            error_message: Some(message),
        }
    }

    /// Builds a type-error comparison envelope carrying the given message.
    pub fn type_error(message: String) -> (r: CompareResult)
        ensures
            is_cmp_type_error(r, message@),
    {
        CompareResult {
            value: 0,
            error_type: TemporalErrorType::TypeError,
            error_message: Some(message),
        }
    }

    /// Releases the message carried by this envelope; releasing twice is a
    /// no-op the second time.
    pub fn release(&mut self)
        ensures
            final(self).error_message is None,
            final(self).value == old(self).value,
            final(self).error_type == old(self).error_type,
            old(self).error_message is None ==> *final(self) == *old(self),
    {
        self.error_message = None;
    }
}

} // verus!
