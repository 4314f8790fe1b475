//! French words.
use vstd::prelude::*;

use crate::language::Language;
use crate::time_unit::TimeUnit;

verus! {

/// French: the connector "il y a" comes first.
#[derive(Debug, Clone, Copy)]
pub struct French;

impl French {
    /// The word for a count of one.
    pub open spec fn singular(tu: TimeUnit) -> Seq<char> {
        match tu {
            TimeUnit::Nanoseconds => "nanoseconde"@,
            TimeUnit::Microseconds => "microseconde"@,
            TimeUnit::Milliseconds => "milliseconde"@,
            TimeUnit::Seconds => "seconde"@,
            TimeUnit::Minutes => "minute"@,
            TimeUnit::Hours => "heure"@,
            TimeUnit::Days => "jour"@,
            TimeUnit::Weeks => "semaine"@,
            TimeUnit::Months => "mois"@,
            TimeUnit::Years => "année"@,
        }
    }

    fn singular_str(tu: TimeUnit) -> (r: &'static str)
        ensures
            r@ == Self::singular(tu),
    {
        match tu {
            TimeUnit::Nanoseconds => "nanoseconde",
            TimeUnit::Microseconds => "microseconde",
            TimeUnit::Milliseconds => "milliseconde",
            TimeUnit::Seconds => "seconde",
            TimeUnit::Minutes => "minute",
            TimeUnit::Hours => "heure",
            TimeUnit::Days => "jour",
            TimeUnit::Weeks => "semaine",
            TimeUnit::Months => "mois",
            TimeUnit::Years => "année",
        }
    }

    /// The word for any other count.
    pub open spec fn plural(tu: TimeUnit) -> Seq<char> {
        match tu {
            TimeUnit::Nanoseconds => "nanosecondes"@,
            TimeUnit::Microseconds => "microsecondes"@,
            TimeUnit::Milliseconds => "milisecondes"@,
            TimeUnit::Seconds => "secondes"@,
            TimeUnit::Minutes => "minutes"@,
            TimeUnit::Hours => "heures"@,
            TimeUnit::Days => "jours"@,
            TimeUnit::Weeks => "semaines"@,
            TimeUnit::Months => "mois"@,
            TimeUnit::Years => "ans"@,
        }
    }

    fn plural_str(tu: TimeUnit) -> (r: &'static str)
        ensures
            r@ == Self::plural(tu),
    {
        match tu {
            TimeUnit::Nanoseconds => "nanosecondes",
            TimeUnit::Microseconds => "microsecondes",
            TimeUnit::Milliseconds => "milisecondes",
            TimeUnit::Seconds => "secondes",
            TimeUnit::Minutes => "minutes",
            TimeUnit::Hours => "heures",
            TimeUnit::Days => "jours",
            TimeUnit::Weeks => "semaines",
            TimeUnit::Months => "mois",
            TimeUnit::Years => "ans",
        }
    }
}

impl Language for French {
    open spec fn too_low_phrase(&self) -> Seq<char> {
        "maintenant"@
    }

    open spec fn too_high_phrase(&self) -> Seq<char> {
        "ancien"@
    }

    open spec fn ago_word(&self) -> Seq<char> {
        "il y a"@
    }

    open spec fn unit_word(&self, tu: TimeUnit, x: u64) -> Seq<char> {
        if x == 1 {
            Self::singular(tu)
        } else {
            Self::plural(tu)
        }
    }

    open spec fn ago_first(&self) -> bool {
        true
    }

    open spec fn unit_first(&self, x: u64) -> bool {
        false
    }

    open spec fn value_word_gap(&self) -> Seq<char> {
        " "@
    }

    open spec fn chunk_gap(&self) -> Seq<char> {
        " "@
    }

    open spec fn ago_gap(&self) -> Seq<char> {
        " "@
    }

    fn too_low(&self) -> (r: &'static str) {
        "maintenant"
    }

    fn too_high(&self) -> (r: &'static str) {
        "ancien"
    }

    fn ago(&self) -> (r: &'static str) {
        "il y a"
    }

    fn get_word(&self, tu: TimeUnit, x: u64) -> (r: &'static str) {
        if x == 1 {
            Self::singular_str(tu)
        } else {
            Self::plural_str(tu)
        }
    }

    fn place_ago_before(&self) -> (r: bool) {
        true
    }

    fn place_unit_before(&self, x: u64) -> (r: bool) {
        false
    }

    fn between_value_and_word(&self) -> (r: &'static str) {
        " "
    }

    fn between_chunks(&self) -> (r: &'static str) {
        " "
    }

    fn extra_space(&self) -> (r: &'static str) {
        " "
    }
}

} // verus!
