//! Fixed-field component snapshots of temporal values.
//!
//! Hosts that prefer native field access over string parsing read values
//! through these flat records.  Extraction is two-phase: the record is
//! first reset to its all-zero state, and filled only when the input
//! parses, so a caller that ignores the validity flag still observes a
//! well-defined value.

use vstd::prelude::*;

verus! {

/// Component snapshot of a wall-clock time.
#[derive(Debug, Clone, Copy, PartialEq, Eq, Structural)]
pub struct PlainTimeComponents {
    pub hour: u8,
    pub minute: u8,
    pub second: u8,
    pub millisecond: u16,
    pub microsecond: u16,
    pub nanosecond: u16,
    /// 1 if the components are valid, 0 if extraction failed.
    pub is_valid: i8,
}

impl PlainTimeComponents {
    /// The all-zero, invalid snapshot.
    pub open spec fn zeroed() -> PlainTimeComponents {
        (PlainTimeComponents {
            hour: 0,
            minute: 0,
            second: 0,
            millisecond: 0,
            microsecond: 0,
            nanosecond: 0,
            is_valid: 0,
        })
    }
}

impl Default for PlainTimeComponents {
    /// Returns the all-zero, invalid snapshot.
    fn default() -> (r: Self)
        ensures
            r == Self::zeroed(),
    {
        PlainTimeComponents {
            hour: 0,
            minute: 0,
            second: 0,
            millisecond: 0,
            microsecond: 0,
            nanosecond: 0,
            is_valid: 0,
        }
    }
}

/// Component snapshot of a calendar date.
#[derive(Debug, Clone, Copy, PartialEq, Eq, Structural)]
pub struct PlainDateComponents {
    pub year: i32,
    pub month: u8,
    pub day: u8,
    pub day_of_week: u16,
    pub day_of_year: u16,
    pub week_of_year: u16,
    pub year_of_week: i32,
    pub days_in_week: u16,
    pub days_in_month: u16,
    pub days_in_year: u16,
    pub months_in_year: u16,
    pub in_leap_year: i8,
    pub is_valid: i8,
}

impl PlainDateComponents {
    /// The all-zero, invalid snapshot.
    pub open spec fn zeroed() -> PlainDateComponents {
        (PlainDateComponents {
            year: 0,
            month: 0,
            day: 0,
            day_of_week: 0,
            day_of_year: 0,
            week_of_year: 0,
            year_of_week: 0,
            days_in_week: 0,
            days_in_month: 0,
            days_in_year: 0,
            months_in_year: 0,
            in_leap_year: 0,
            is_valid: 0,
        })
    }
}

impl Default for PlainDateComponents {
    /// Returns the all-zero, invalid snapshot.
    fn default() -> (r: Self)
        ensures
            r == Self::zeroed(),
    {
        PlainDateComponents {
            year: 0,
            month: 0,
            day: 0,
            day_of_week: 0,
            day_of_year: 0,
            week_of_year: 0,
            year_of_week: 0,
            days_in_week: 0,
            days_in_month: 0,
            days_in_year: 0,
            months_in_year: 0,
            in_leap_year: 0,
            is_valid: 0,
        }
    }
}

/// Component snapshot of a calendar date with wall-clock time.
#[derive(Debug, Clone, Copy, PartialEq, Eq, Structural)]
pub struct PlainDateTimeComponents {
    pub year: i32,
    pub month: u8,
    pub day: u8,
    pub day_of_week: u16,
    pub day_of_year: u16,
    pub week_of_year: u16,
    pub year_of_week: i32,
    pub days_in_week: u16,
    pub days_in_month: u16,
    pub days_in_year: u16,
    pub months_in_year: u16,
    pub in_leap_year: i8,
    pub hour: u8,
    pub minute: u8,
    pub second: u8,
    pub millisecond: u16,
    pub microsecond: u16,
    pub nanosecond: u16,
    pub is_valid: i8,
}

impl PlainDateTimeComponents {
    /// The all-zero, invalid snapshot.
    pub open spec fn zeroed() -> PlainDateTimeComponents {
        (PlainDateTimeComponents {
            year: 0,
            month: 0,
            day: 0,
            day_of_week: 0,
            day_of_year: 0,
            week_of_year: 0,
            year_of_week: 0,
            days_in_week: 0,
            days_in_month: 0,
            days_in_year: 0,
            months_in_year: 0,
            in_leap_year: 0,
            hour: 0,
            minute: 0,
            second: 0,
            millisecond: 0,
            microsecond: 0,
            nanosecond: 0,
            is_valid: 0,
        })
    }
}

impl Default for PlainDateTimeComponents {
    /// Returns the all-zero, invalid snapshot.
    fn default() -> (r: Self)
        ensures
            r == Self::zeroed(),
    {
        PlainDateTimeComponents {
            year: 0,
            month: 0,
            day: 0,
            day_of_week: 0,
            day_of_year: 0,
            week_of_year: 0,
            year_of_week: 0,
            days_in_week: 0,
            days_in_month: 0,
            days_in_year: 0,
            months_in_year: 0,
            in_leap_year: 0,
            hour: 0,
            minute: 0,
            second: 0,
            millisecond: 0,
            microsecond: 0,
            nanosecond: 0,
            is_valid: 0,
        }
    }
}

/// Component snapshot of a year-month.
#[derive(Debug, Clone, Copy, PartialEq, Eq, Structural)]
pub struct PlainYearMonthComponents {
    pub year: i32,
    pub month: u8,
    pub day: u8,
    pub days_in_month: u16,
    pub days_in_year: u16,
    pub months_in_year: u16,
    pub in_leap_year: i8,
    pub era_year: i32,
    pub is_valid: i8,
}

impl PlainYearMonthComponents {
    /// The all-zero, invalid snapshot.
    pub open spec fn zeroed() -> PlainYearMonthComponents {
        (PlainYearMonthComponents {
            year: 0,
            month: 0,
            day: 0,
            days_in_month: 0,
            days_in_year: 0,
            months_in_year: 0,
            in_leap_year: 0,
            era_year: 0,
            is_valid: 0,
        })
    }
}

impl Default for PlainYearMonthComponents {
    /// Returns the all-zero, invalid snapshot.
    fn default() -> (r: Self)
        ensures
            r == Self::zeroed(),
    {
        PlainYearMonthComponents {
            year: 0,
            month: 0,
            day: 0,
            days_in_month: 0,
            days_in_year: 0,
            months_in_year: 0,
            in_leap_year: 0,
            era_year: 0,
            is_valid: 0,
        }
    }
}

/// Component snapshot of a month-day.
#[derive(Debug, Clone, Copy, PartialEq, Eq, Structural)]
pub struct PlainMonthDayComponents {
    pub month: u8,
    pub day: u8,
    pub is_valid: i8,
}

impl PlainMonthDayComponents {
    /// The all-zero, invalid snapshot.
    pub open spec fn zeroed() -> PlainMonthDayComponents {
        (PlainMonthDayComponents { month: 0, day: 0, is_valid: 0 })
    }
}

impl Default for PlainMonthDayComponents {
    /// Returns the all-zero, invalid snapshot.
    fn default() -> (r: Self)
        ensures
            r == Self::zeroed(),
    {
        PlainMonthDayComponents { month: 0, day: 0, is_valid: 0 }
    }
}

/// Component snapshot of a duration.  Microseconds and nanoseconds are
/// clamped to the `i64` range for the boundary.
#[derive(Debug, Clone, Copy, PartialEq, Eq, Structural)]
pub struct DurationComponents {
    pub years: i64,
    pub months: i64,
    pub weeks: i64,
    pub days: i64,
    pub hours: i64,
    pub minutes: i64,
    pub seconds: i64,
    pub milliseconds: i64,
    pub microseconds: i64,
    pub nanoseconds: i64,
    /// Sign of the duration: -1, 0, or 1.
    pub sign: i8,
    /// 1 if the components are valid, 0 if extraction failed.
    pub is_valid: i8,
}

impl DurationComponents {
    /// The all-zero, invalid snapshot.
    pub open spec fn zeroed() -> DurationComponents {
        (DurationComponents {
            years: 0,
            months: 0,
            weeks: 0,
            days: 0,
            hours: 0,
            minutes: 0,
            seconds: 0,
            milliseconds: 0,
            microseconds: 0,
            nanoseconds: 0,
            sign: 0,
            is_valid: 0,
        })
    }
}

impl Default for DurationComponents {
    /// Returns the all-zero, invalid snapshot.
    fn default() -> (r: Self)
        ensures
            r == Self::zeroed(),
    {
        DurationComponents {
            years: 0,
            months: 0,
            weeks: 0,
            days: 0,
            hours: 0,
            minutes: 0,
            seconds: 0,
            milliseconds: 0,
            microseconds: 0,
            nanoseconds: 0,
            sign: 0,
            is_valid: 0,
        }
    }
}

/// Component snapshot of a zoned date-time.
#[derive(Debug, Clone, Copy, PartialEq, Eq, Structural)]
pub struct ZonedDateTimeComponents {
    pub year: i32,
    pub month: u8,
    pub day: u8,
    pub day_of_week: u16,
    pub day_of_year: u16,
    pub week_of_year: u16,
    pub year_of_week: i32,
    pub days_in_week: u16,
    pub days_in_month: u16,
    pub days_in_year: u16,
    pub months_in_year: u16,
    pub in_leap_year: i8,
    pub hour: u8,
    pub minute: u8,
    pub second: u8,
    pub millisecond: u16,
    pub microsecond: u16,
    pub nanosecond: u16,
    pub offset_nanoseconds: i64,
    pub is_valid: i8,
}

impl ZonedDateTimeComponents {
    /// The all-zero, invalid snapshot.
    pub open spec fn zeroed() -> ZonedDateTimeComponents {
        (ZonedDateTimeComponents {
            year: 0,
            month: 0,
            day: 0,
            day_of_week: 0,
            day_of_year: 0,
            week_of_year: 0,
            year_of_week: 0,
            days_in_week: 0,
            days_in_month: 0,
            days_in_year: 0,
            months_in_year: 0,
            in_leap_year: 0,
            hour: 0,
            minute: 0,
            second: 0,
            millisecond: 0,
            microsecond: 0,
            nanosecond: 0,
            offset_nanoseconds: 0,
            is_valid: 0,
        })
    }
}

impl Default for ZonedDateTimeComponents {
    /// Returns the all-zero, invalid snapshot.
    fn default() -> (r: Self)
        ensures
            r == Self::zeroed(),
    {
        ZonedDateTimeComponents {
            year: 0,
            month: 0,
            day: 0,
            day_of_week: 0,
            day_of_year: 0,
            week_of_year: 0,
            year_of_week: 0,
            days_in_week: 0,
            days_in_month: 0,
            days_in_year: 0,
            months_in_year: 0,
            in_leap_year: 0,
            hour: 0,
            minute: 0,
            second: 0,
            millisecond: 0,
            microsecond: 0,
            nanosecond: 0,
            offset_nanoseconds: 0,
            is_valid: 0,
        }
    }
}

} // verus!
