//! English words.
use vstd::prelude::*;

use crate::language::Language;
use crate::time_unit::TimeUnit;

verus! {

/// English, the default language.
#[derive(Debug, Clone, Copy)]
pub struct English;

impl English {
    /// The word for a count of one.
    pub open spec fn singular(tu: TimeUnit) -> Seq<char> {
        match tu {
            TimeUnit::Nanoseconds => "nanosecond"@,
            TimeUnit::Microseconds => "microsecond"@,
            TimeUnit::Milliseconds => "millisecond"@,
            TimeUnit::Seconds => "second"@,
            TimeUnit::Minutes => "minute"@,
            TimeUnit::Hours => "hour"@,
            TimeUnit::Days => "day"@,
            TimeUnit::Weeks => "week"@,
            TimeUnit::Months => "month"@,
            TimeUnit::Years => "year"@,
        }
    }

    fn singular_str(tu: TimeUnit) -> (r: &'static str)
        ensures
            r@ == Self::singular(tu),
    {
        match tu {
            TimeUnit::Nanoseconds => "nanosecond",
            TimeUnit::Microseconds => "microsecond",
            TimeUnit::Milliseconds => "millisecond",
            TimeUnit::Seconds => "second",
            TimeUnit::Minutes => "minute",
            TimeUnit::Hours => "hour",
            TimeUnit::Days => "day",
            TimeUnit::Weeks => "week",
            TimeUnit::Months => "month",
            TimeUnit::Years => "year",
        }
    }

    /// The word for any other count.
    pub open spec fn plural(tu: TimeUnit) -> Seq<char> {
        match tu {
            TimeUnit::Nanoseconds => "nanoseconds"@,
            TimeUnit::Microseconds => "microseconds"@,
            TimeUnit::Milliseconds => "milliseconds"@,
            TimeUnit::Seconds => "seconds"@,
            TimeUnit::Minutes => "minutes"@,
            TimeUnit::Hours => "hours"@,
            TimeUnit::Days => "days"@,
            TimeUnit::Weeks => "weeks"@,
            TimeUnit::Months => "months"@,
            TimeUnit::Years => "years"@,
        }
    }

    fn plural_str(tu: TimeUnit) -> (r: &'static str)
        ensures
            r@ == Self::plural(tu),
    {
        match tu {
            TimeUnit::Nanoseconds => "nanoseconds",
            TimeUnit::Microseconds => "microseconds",
            TimeUnit::Milliseconds => "milliseconds",
            TimeUnit::Seconds => "seconds",
            TimeUnit::Minutes => "minutes",
            TimeUnit::Hours => "hours",
            TimeUnit::Days => "days",
            TimeUnit::Weeks => "weeks",
            TimeUnit::Months => "months",
            TimeUnit::Years => "years",
        }
    }
}

impl Language for English {
    open spec fn too_low_phrase(&self) -> Seq<char> {
        "now"@
    }

    open spec fn too_high_phrase(&self) -> Seq<char> {
        "old"@
    }

    open spec fn ago_word(&self) -> Seq<char> {
        "ago"@
    }

    open spec fn unit_word(&self, tu: TimeUnit, x: u64) -> Seq<char> {
        if x == 1 {
            Self::singular(tu)
        } else {
            Self::plural(tu)
        }
    }

    open spec fn ago_first(&self) -> bool {
        false
    }

    open spec fn unit_first(&self, x: u64) -> bool {
        false
    }

    open spec fn value_word_gap(&self) -> Seq<char> {
        " "@
    }

    open spec fn chunk_gap(&self) -> Seq<char> {
        " "@
    }

    open spec fn ago_gap(&self) -> Seq<char> {
        " "@
    }

    fn too_low(&self) -> (r: &'static str) {
        "now"
    }

    fn too_high(&self) -> (r: &'static str) {
        "old"
    }

    fn ago(&self) -> (r: &'static str) {
        "ago"
    }

    fn get_word(&self, tu: TimeUnit, x: u64) -> (r: &'static str) {
        if x == 1 {
            Self::singular_str(tu)
        } else {
            Self::plural_str(tu)
        }
    }

    fn place_ago_before(&self) -> (r: bool) {
        false
    }

    fn place_unit_before(&self, x: u64) -> (r: bool) {
        false
    }

    fn between_value_and_word(&self) -> (r: &'static str) {
        " "
    }

    fn between_chunks(&self) -> (r: &'static str) {
        " "
    }

    fn extra_space(&self) -> (r: &'static str) {
        " "
    }
}

} // verus!
