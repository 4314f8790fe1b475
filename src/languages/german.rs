//! German words.
use vstd::prelude::*;

use crate::language::Language;
use crate::time_unit::TimeUnit;

verus! {

/// German: the connector "vor" comes first.
#[derive(Debug, Clone, Copy)]
pub struct German;

impl German {
    /// The word for a count of one.
    pub open spec fn singular(tu: TimeUnit) -> Seq<char> {
        match tu {
            TimeUnit::Nanoseconds => "Nanosekunde"@,
            TimeUnit::Microseconds => "Mikrosekunde"@,
            TimeUnit::Milliseconds => "Millisekunde"@,
            TimeUnit::Seconds => "Sekunde"@,
            TimeUnit::Minutes => "Minute"@,
            TimeUnit::Hours => "Stunde"@,
            TimeUnit::Days => "Tag"@,
            TimeUnit::Weeks => "Woche"@,
            TimeUnit::Months => "Monat"@,
            TimeUnit::Years => "Jahr"@,
        }
    }

    fn singular_str(tu: TimeUnit) -> (r: &'static str)
        ensures
            r@ == Self::singular(tu),
    {
        match tu {
            TimeUnit::Nanoseconds => "Nanosekunde",
            TimeUnit::Microseconds => "Mikrosekunde",
            TimeUnit::Milliseconds => "Millisekunde",
            TimeUnit::Seconds => "Sekunde",
            TimeUnit::Minutes => "Minute",
            TimeUnit::Hours => "Stunde",
            TimeUnit::Days => "Tag",
            TimeUnit::Weeks => "Woche",
            TimeUnit::Months => "Monat",
            TimeUnit::Years => "Jahr",
        }
    }

    /// The word for any other count.
    pub open spec fn plural(tu: TimeUnit) -> Seq<char> {
        match tu {
            TimeUnit::Nanoseconds => "Nanosekunden"@,
            TimeUnit::Microseconds => "Mikrosekunden"@,
            TimeUnit::Milliseconds => "Millisekunden"@,
            TimeUnit::Seconds => "Sekunden"@,
            TimeUnit::Minutes => "Minuten"@,
            TimeUnit::Hours => "Stunden"@,
            TimeUnit::Days => "Tagen"@,
            TimeUnit::Weeks => "Wochen"@,
            TimeUnit::Months => "Monaten"@,
            TimeUnit::Years => "Jahren"@,
        }
    }

    fn plural_str(tu: TimeUnit) -> (r: &'static str)
        ensures
            r@ == Self::plural(tu),
    {
        match tu {
            TimeUnit::Nanoseconds => "Nanosekunden",
            TimeUnit::Microseconds => "Mikrosekunden",
            TimeUnit::Milliseconds => "Millisekunden",
            TimeUnit::Seconds => "Sekunden",
            TimeUnit::Minutes => "Minuten",
            TimeUnit::Hours => "Stunden",
            TimeUnit::Days => "Tagen",
            TimeUnit::Weeks => "Wochen",
            TimeUnit::Months => "Monaten",
            TimeUnit::Years => "Jahren",
        }
    }
}

impl Language for German {
    open spec fn too_low_phrase(&self) -> Seq<char> {
        "jetzt"@
    }

    open spec fn too_high_phrase(&self) -> Seq<char> {
        "zu alt"@
    }

    open spec fn ago_word(&self) -> Seq<char> {
        "vor"@
    }

    open spec fn unit_word(&self, tu: TimeUnit, x: u64) -> Seq<char> {
        if x == 1 {
            Self::singular(tu)
        } else {
            Self::plural(tu)
        }
    }

    open spec fn ago_first(&self) -> bool {
        true
    }

    open spec fn unit_first(&self, x: u64) -> bool {
        false
    }

    open spec fn value_word_gap(&self) -> Seq<char> {
        " "@
    }

    open spec fn chunk_gap(&self) -> Seq<char> {
        " "@
    }

    open spec fn ago_gap(&self) -> Seq<char> {
        " "@
    }

    fn too_low(&self) -> (r: &'static str) {
        "jetzt"
    }

    fn too_high(&self) -> (r: &'static str) {
        "zu alt"
    }

    fn ago(&self) -> (r: &'static str) {
        "vor"
    }

    fn get_word(&self, tu: TimeUnit, x: u64) -> (r: &'static str) {
        if x == 1 {
            Self::singular_str(tu)
        } else {
            Self::plural_str(tu)
        }
    }

    fn place_ago_before(&self) -> (r: bool) {
        true
    }

    fn place_unit_before(&self, x: u64) -> (r: bool) {
        false
    }

    fn between_value_and_word(&self) -> (r: &'static str) {
        " "
    }

    fn between_chunks(&self) -> (r: &'static str) {
        " "
    }

    fn extra_space(&self) -> (r: &'static str) {
        " "
    }
}

} // verus!
