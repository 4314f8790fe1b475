//! Italian words.
use vstd::prelude::*;

use crate::language::Language;
use crate::time_unit::TimeUnit;

verus! {

/// Italian.
#[derive(Debug, Clone, Copy)]
pub struct Italian;

impl Italian {
    /// The word for a count of one.
    pub open spec fn singular(tu: TimeUnit) -> Seq<char> {
        match tu {
            TimeUnit::Nanoseconds => "nanosecondo"@,
            TimeUnit::Microseconds => "microsecondo"@,
            TimeUnit::Milliseconds => "millisecondo"@,
            TimeUnit::Seconds => "secondo"@,
            TimeUnit::Minutes => "minuto"@,
            TimeUnit::Hours => "ora"@,
            TimeUnit::Days => "giorno"@,
            TimeUnit::Weeks => "settimana"@,
            TimeUnit::Months => "mese"@,
            TimeUnit::Years => "anno"@,
        }
    }

    fn singular_str(tu: TimeUnit) -> (r: &'static str)
        ensures
            r@ == Self::singular(tu),
    {
        match tu {
            TimeUnit::Nanoseconds => "nanosecondo",
            TimeUnit::Microseconds => "microsecondo",
            TimeUnit::Milliseconds => "millisecondo",
            TimeUnit::Seconds => "secondo",
            TimeUnit::Minutes => "minuto",
            TimeUnit::Hours => "ora",
            TimeUnit::Days => "giorno",
            TimeUnit::Weeks => "settimana",
            TimeUnit::Months => "mese",
            TimeUnit::Years => "anno",
        }
    }

    /// The word for any other count.
    pub open spec fn plural(tu: TimeUnit) -> Seq<char> {
        match tu {
            TimeUnit::Nanoseconds => "nanosecondi"@,
            TimeUnit::Microseconds => "microsecondi"@,
            TimeUnit::Milliseconds => "millisecondi"@,
            TimeUnit::Seconds => "secondi"@,
            TimeUnit::Minutes => "minuti"@,
            TimeUnit::Hours => "ore"@,
            TimeUnit::Days => "giorni"@,
            TimeUnit::Weeks => "settimane"@,
            TimeUnit::Months => "mesi"@,
            TimeUnit::Years => "anni"@,
        }
    }

    fn plural_str(tu: TimeUnit) -> (r: &'static str)
        ensures
            r@ == Self::plural(tu),
    {
        match tu {
            TimeUnit::Nanoseconds => "nanosecondi",
            TimeUnit::Microseconds => "microsecondi",
            TimeUnit::Milliseconds => "millisecondi",
            TimeUnit::Seconds => "secondi",
            TimeUnit::Minutes => "minuti",
            TimeUnit::Hours => "ore",
            TimeUnit::Days => "giorni",
            TimeUnit::Weeks => "settimane",
            TimeUnit::Months => "mesi",
            TimeUnit::Years => "anni",
        }
    }
}

impl Language for Italian {
    open spec fn too_low_phrase(&self) -> Seq<char> {
        "adesso"@
    }

    open spec fn too_high_phrase(&self) -> Seq<char> {
        "troppo vecchio"@
    }

    open spec fn ago_word(&self) -> Seq<char> {
        "fa"@
    }

    open spec fn unit_word(&self, tu: TimeUnit, x: u64) -> Seq<char> {
        if x == 1 {
            Self::singular(tu)
        } else {
            Self::plural(tu)
        }
    }

    open spec fn ago_first(&self) -> bool {
        false
    }

    open spec fn unit_first(&self, x: u64) -> bool {
        false
    }

    open spec fn value_word_gap(&self) -> Seq<char> {
        " "@
    }

    open spec fn chunk_gap(&self) -> Seq<char> {
        " "@
    }

    open spec fn ago_gap(&self) -> Seq<char> {
        " "@
    }

    fn too_low(&self) -> (r: &'static str) {
        "adesso"
    }

    fn too_high(&self) -> (r: &'static str) {
        "troppo vecchio"
    }

    fn ago(&self) -> (r: &'static str) {
        "fa"
    }

    fn get_word(&self, tu: TimeUnit, x: u64) -> (r: &'static str) {
        if x == 1 {
            Self::singular_str(tu)
        } else {
            Self::plural_str(tu)
        }
    }

    fn place_ago_before(&self) -> (r: bool) {
        false
    }

    fn place_unit_before(&self, x: u64) -> (r: bool) {
        false
    }

    fn between_value_and_word(&self) -> (r: &'static str) {
        " "
    }

    fn between_chunks(&self) -> (r: &'static str) {
        " "
    }

    fn extra_space(&self) -> (r: &'static str) {
        " "
    }
}

} // verus!
