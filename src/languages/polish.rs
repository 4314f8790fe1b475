//! Polish words.
use vstd::prelude::*;

use crate::language::{slavic_form, slavic_form_of, Language, SlavicForm};
use crate::time_unit::TimeUnit;

verus! {

/// Polish.
#[derive(Debug, Clone, Copy)]
pub struct Polish;

impl Polish {
    /// The form for a count of one.
    pub open spec fn accusative(tu: TimeUnit) -> Seq<char> {
        match tu {
            TimeUnit::Nanoseconds => "nanosekundę"@,
            TimeUnit::Microseconds => "mikrosekundę"@,
            TimeUnit::Milliseconds => "milisekundę"@,
            TimeUnit::Seconds => "sekundę"@,
            TimeUnit::Minutes => "minutę"@,
            TimeUnit::Hours => "godzinę"@,
            TimeUnit::Days => "dzień"@,
            TimeUnit::Weeks => "tydzień"@,
            TimeUnit::Months => "miesiąc"@,
            TimeUnit::Years => "lat"@,
        }
    }

    fn accusative_str(tu: TimeUnit) -> (r: &'static str)
        ensures
            r@ == Self::accusative(tu),
    {
        match tu {
            TimeUnit::Nanoseconds => "nanosekundę",
            TimeUnit::Microseconds => "mikrosekundę",
            TimeUnit::Milliseconds => "milisekundę",
            TimeUnit::Seconds => "sekundę",
            TimeUnit::Minutes => "minutę",
            TimeUnit::Hours => "godzinę",
            TimeUnit::Days => "dzień",
            TimeUnit::Weeks => "tydzień",
            TimeUnit::Months => "miesiąc",
            TimeUnit::Years => "lat",
        }
    }

    /// The form for a count of many.
    pub open spec fn genitive_plural(tu: TimeUnit) -> Seq<char> {
        match tu {
            TimeUnit::Nanoseconds => "nanosekund"@,
            TimeUnit::Microseconds => "mikrosekund"@,
            TimeUnit::Milliseconds => "milisekund"@,
            TimeUnit::Seconds => "sekund"@,
            TimeUnit::Minutes => "minut"@,
            TimeUnit::Hours => "godzin"@,
            TimeUnit::Days => "dni"@,
            TimeUnit::Weeks => "tygodni"@,
            TimeUnit::Months => "miesięcy"@,
            TimeUnit::Years => "lat"@,
        }
    }

    fn genitive_plural_str(tu: TimeUnit) -> (r: &'static str)
        ensures
            r@ == Self::genitive_plural(tu),
    {
        match tu {
            TimeUnit::Nanoseconds => "nanosekund",
            TimeUnit::Microseconds => "mikrosekund",
            TimeUnit::Milliseconds => "milisekund",
            TimeUnit::Seconds => "sekund",
            TimeUnit::Minutes => "minut",
            TimeUnit::Hours => "godzin",
            TimeUnit::Days => "dni",
            TimeUnit::Weeks => "tygodni",
            TimeUnit::Months => "miesięcy",
            TimeUnit::Years => "lat",
        }
    }

    /// The form for a count of a few.
    pub open spec fn genitive(tu: TimeUnit) -> Seq<char> {
        match tu {
            TimeUnit::Nanoseconds => "nanosekundy"@,
            TimeUnit::Microseconds => "mikrosekundy"@,
            TimeUnit::Milliseconds => "milisekundy"@,
            TimeUnit::Seconds => "sekundy"@,
            TimeUnit::Minutes => "minuty"@,
            TimeUnit::Hours => "godziny"@,
            TimeUnit::Days => "dni"@,
            TimeUnit::Weeks => "tygodnie"@,
            TimeUnit::Months => "miesiące"@,
            TimeUnit::Years => "lata"@,
        }
    }

    fn genitive_str(tu: TimeUnit) -> (r: &'static str)
        ensures
            r@ == Self::genitive(tu),
    {
        match tu {
            TimeUnit::Nanoseconds => "nanosekundy",
            TimeUnit::Microseconds => "mikrosekundy",
            TimeUnit::Milliseconds => "milisekundy",
            TimeUnit::Seconds => "sekundy",
            TimeUnit::Minutes => "minuty",
            TimeUnit::Hours => "godziny",
            TimeUnit::Days => "dni",
            TimeUnit::Weeks => "tygodnie",
            TimeUnit::Months => "miesiące",
            TimeUnit::Years => "lata",
        }
    }
}

impl Language for Polish {
    open spec fn too_low_phrase(&self) -> Seq<char> {
        "teraz"@
    }

    open spec fn too_high_phrase(&self) -> Seq<char> {
        "dawno"@
    }

    open spec fn ago_word(&self) -> Seq<char> {
        "temu"@
    }

    open spec fn unit_word(&self, tu: TimeUnit, x: u64) -> Seq<char> {
        if tu == TimeUnit::Years && x == 1 {
            "rok"@
        } else {
            match slavic_form(x) {
                SlavicForm::Accusative => Self::accusative(tu),
                SlavicForm::Genitive => Self::genitive(tu),
                SlavicForm::GenitivePlural => Self::genitive_plural(tu),
            }
        }
    }

    open spec fn ago_first(&self) -> bool {
        false
    }

    open spec fn unit_first(&self, x: u64) -> bool {
        false
    }

    open spec fn value_word_gap(&self) -> Seq<char> {
        " "@
    }

    open spec fn chunk_gap(&self) -> Seq<char> {
        " "@
    }

    open spec fn ago_gap(&self) -> Seq<char> {
        " "@
    }

    fn too_low(&self) -> (r: &'static str) {
        "teraz"
    }

    fn too_high(&self) -> (r: &'static str) {
        "dawno"
    }

    fn ago(&self) -> (r: &'static str) {
        "temu"
    }

    fn get_word(&self, tu: TimeUnit, x: u64) -> (r: &'static str) {
        if tu == TimeUnit::Years && x == 1 {
            return "rok";
        }
        match slavic_form_of(x) {
            SlavicForm::Accusative => Self::accusative_str(tu),
            SlavicForm::Genitive => Self::genitive_str(tu),
            SlavicForm::GenitivePlural => Self::genitive_plural_str(tu),
        }
    }

    fn place_ago_before(&self) -> (r: bool) {
        false
    }

    fn place_unit_before(&self, x: u64) -> (r: bool) {
        false
    }

    fn between_value_and_word(&self) -> (r: &'static str) {
        " "
    }

    fn between_chunks(&self) -> (r: &'static str) {
        " "
    }

    fn extra_space(&self) -> (r: &'static str) {
        " "
    }
}

} // verus!
