//! Swedish words.
use vstd::prelude::*;

use crate::language::Language;
use crate::time_unit::TimeUnit;

verus! {

/// Swedish.
#[derive(Debug, Clone, Copy)]
pub struct Swedish;

impl Swedish {
    /// The word for a count of one.
    pub open spec fn singular(tu: TimeUnit) -> Seq<char> {
        match tu {
            TimeUnit::Nanoseconds => "nanosekund"@,
            TimeUnit::Microseconds => "mikrosekund"@,
            TimeUnit::Milliseconds => "millisekund"@,
            TimeUnit::Seconds => "sekund"@,
            TimeUnit::Minutes => "minut"@,
            TimeUnit::Hours => "timme"@,
            TimeUnit::Days => "dag"@,
            TimeUnit::Weeks => "vecka"@,
            TimeUnit::Months => "månad"@,
            TimeUnit::Years => "år"@,
        }
    }

    fn singular_str(tu: TimeUnit) -> (r: &'static str)
        ensures
            r@ == Self::singular(tu),
    {
        match tu {
            TimeUnit::Nanoseconds => "nanosekund",
            TimeUnit::Microseconds => "mikrosekund",
            TimeUnit::Milliseconds => "millisekund",
            TimeUnit::Seconds => "sekund",
            TimeUnit::Minutes => "minut",
            TimeUnit::Hours => "timme",
            TimeUnit::Days => "dag",
            TimeUnit::Weeks => "vecka",
            TimeUnit::Months => "månad",
            TimeUnit::Years => "år",
        }
    }

    /// The word for any other count.
    pub open spec fn plural(tu: TimeUnit) -> Seq<char> {
        match tu {
            TimeUnit::Nanoseconds => "nanosekunder"@,
            TimeUnit::Microseconds => "mikrosekunder"@,
            TimeUnit::Milliseconds => "millisekunder"@,
            TimeUnit::Seconds => "sekunder"@,
            TimeUnit::Minutes => "minuter"@,
            TimeUnit::Hours => "timmar"@,
            TimeUnit::Days => "dagar"@,
            TimeUnit::Weeks => "veckor"@,
            TimeUnit::Months => "månader"@,
            TimeUnit::Years => "år"@,
        }
    }

    fn plural_str(tu: TimeUnit) -> (r: &'static str)
        ensures
            r@ == Self::plural(tu),
    {
        match tu {
            TimeUnit::Nanoseconds => "nanosekunder",
            TimeUnit::Microseconds => "mikrosekunder",
            TimeUnit::Milliseconds => "millisekunder",
            TimeUnit::Seconds => "sekunder",
            TimeUnit::Minutes => "minuter",
            TimeUnit::Hours => "timmar",
            TimeUnit::Days => "dagar",
            TimeUnit::Weeks => "veckor",
            TimeUnit::Months => "månader",
            TimeUnit::Years => "år",
        }
    }
}

impl Language for Swedish {
    open spec fn too_low_phrase(&self) -> Seq<char> {
        "nu"@
    }

    open spec fn too_high_phrase(&self) -> Seq<char> {
        "gammal"@
    }

    open spec fn ago_word(&self) -> Seq<char> {
        "sedan"@
    }

    open spec fn unit_word(&self, tu: TimeUnit, x: u64) -> Seq<char> {
        if x == 1 {
            Self::singular(tu)
        } else {
            Self::plural(tu)
        }
    }

    open spec fn ago_first(&self) -> bool {
        false
    }

    open spec fn unit_first(&self, x: u64) -> bool {
        false
    }

    open spec fn value_word_gap(&self) -> Seq<char> {
        " "@
    }

    open spec fn chunk_gap(&self) -> Seq<char> {
        " "@
    }

    open spec fn ago_gap(&self) -> Seq<char> {
        " "@
    }

    fn too_low(&self) -> (r: &'static str) {
        "nu"
    }

    fn too_high(&self) -> (r: &'static str) {
        "gammal"
    }

    fn ago(&self) -> (r: &'static str) {
        "sedan"
    }

    fn get_word(&self, tu: TimeUnit, x: u64) -> (r: &'static str) {
        if x == 1 {
            Self::singular_str(tu)
        } else {
            Self::plural_str(tu)
        }
    }

    fn place_ago_before(&self) -> (r: bool) {
        false
    }

    fn place_unit_before(&self, x: u64) -> (r: bool) {
        false
    }

    fn between_value_and_word(&self) -> (r: &'static str) {
        " "
    }

    fn between_chunks(&self) -> (r: &'static str) {
        " "
    }

    fn extra_space(&self) -> (r: &'static str) {
        " "
    }
}

} // verus!
