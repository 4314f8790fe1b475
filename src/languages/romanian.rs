//! Romanian words.
use vstd::prelude::*;

use crate::language::Language;
use crate::time_unit::TimeUnit;

verus! {

/// Romanian: the connector "acum" comes first.
#[derive(Debug, Clone, Copy)]
pub struct Romanian;

impl Romanian {
    /// The word for a count of one.
    pub open spec fn singular(tu: TimeUnit) -> Seq<char> {
        match tu {
            TimeUnit::Nanoseconds => "nanosecundă"@,
            TimeUnit::Microseconds => "microsecundă"@,
            TimeUnit::Milliseconds => "milisecundă"@,
            TimeUnit::Seconds => "secundă"@,
            TimeUnit::Minutes => "minut"@,
            TimeUnit::Hours => "oră"@,
            TimeUnit::Days => "zi"@,
            TimeUnit::Weeks => "săptămână"@,
            TimeUnit::Months => "lună"@,
            TimeUnit::Years => "an"@,
        }
    }

    fn singular_str(tu: TimeUnit) -> (r: &'static str)
        ensures
            r@ == Self::singular(tu),
    {
        match tu {
            TimeUnit::Nanoseconds => "nanosecundă",
            TimeUnit::Microseconds => "microsecundă",
            TimeUnit::Milliseconds => "milisecundă",
            TimeUnit::Seconds => "secundă",
            TimeUnit::Minutes => "minut",
            TimeUnit::Hours => "oră",
            TimeUnit::Days => "zi",
            TimeUnit::Weeks => "săptămână",
            TimeUnit::Months => "lună",
            TimeUnit::Years => "an",
        }
    }

    /// The word for any other count.
    pub open spec fn plural(tu: TimeUnit) -> Seq<char> {
        match tu {
            TimeUnit::Nanoseconds => "nanosecunde"@,
            TimeUnit::Microseconds => "microsecunde"@,
            TimeUnit::Milliseconds => "milisecunde"@,
            TimeUnit::Seconds => "secunde"@,
            TimeUnit::Minutes => "minute"@,
            TimeUnit::Hours => "ore"@,
            TimeUnit::Days => "zile"@,
            TimeUnit::Weeks => "săptămâni"@,
            TimeUnit::Months => "luni"@,
            TimeUnit::Years => "ani"@,
        }
    }

    fn plural_str(tu: TimeUnit) -> (r: &'static str)
        ensures
            r@ == Self::plural(tu),
    {
        match tu {
            TimeUnit::Nanoseconds => "nanosecunde",
            TimeUnit::Microseconds => "microsecunde",
            TimeUnit::Milliseconds => "milisecunde",
            TimeUnit::Seconds => "secunde",
            TimeUnit::Minutes => "minute",
            TimeUnit::Hours => "ore",
            TimeUnit::Days => "zile",
            TimeUnit::Weeks => "săptămâni",
            TimeUnit::Months => "luni",
            TimeUnit::Years => "ani",
        }
    }
}

impl Language for Romanian {
    open spec fn too_low_phrase(&self) -> Seq<char> {
        "acum"@
    }

    open spec fn too_high_phrase(&self) -> Seq<char> {
        "demult"@
    }

    open spec fn ago_word(&self) -> Seq<char> {
        "acum"@
    }

    open spec fn unit_word(&self, tu: TimeUnit, x: u64) -> Seq<char> {
        if x == 1 {
            Self::singular(tu)
        } else {
            Self::plural(tu)
        }
    }

    open spec fn ago_first(&self) -> bool {
        true
    }

    open spec fn unit_first(&self, x: u64) -> bool {
        false
    }

    open spec fn value_word_gap(&self) -> Seq<char> {
        " "@
    }

    open spec fn chunk_gap(&self) -> Seq<char> {
        " "@
    }

    open spec fn ago_gap(&self) -> Seq<char> {
        " "@
    }

    fn too_low(&self) -> (r: &'static str) {
        "acum"
    }

    fn too_high(&self) -> (r: &'static str) {
        "demult"
    }

    fn ago(&self) -> (r: &'static str) {
        "acum"
    }

    fn get_word(&self, tu: TimeUnit, x: u64) -> (r: &'static str) {
        if x == 1 {
            Self::singular_str(tu)
        } else {
            Self::plural_str(tu)
        }
    }

    fn place_ago_before(&self) -> (r: bool) {
        true
    }

    fn place_unit_before(&self, x: u64) -> (r: bool) {
        false
    }

    fn between_value_and_word(&self) -> (r: &'static str) {
        " "
    }

    fn between_chunks(&self) -> (r: &'static str) {
        " "
    }

    fn extra_space(&self) -> (r: &'static str) {
        " "
    }
}

} // verus!
