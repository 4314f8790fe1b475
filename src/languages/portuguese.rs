//! Portuguese words.
use vstd::prelude::*;

use crate::language::Language;
use crate::time_unit::TimeUnit;

verus! {

/// Portuguese.
#[derive(Debug, Clone, Copy)]
pub struct Portuguese;

impl Portuguese {
    /// The word for a count of one.
    pub open spec fn singular(tu: TimeUnit) -> Seq<char> {
        match tu {
            TimeUnit::Nanoseconds => "nanosegundo"@,
            TimeUnit::Microseconds => "microsegundo"@,
            TimeUnit::Milliseconds => "milisegundo"@,
            TimeUnit::Seconds => "segundo"@,
            TimeUnit::Minutes => "minuto"@,
            TimeUnit::Hours => "hora"@,
            TimeUnit::Days => "dia"@,
            TimeUnit::Weeks => "semana"@,
            TimeUnit::Months => "mês"@,
            TimeUnit::Years => "ano"@,
        }
    }

    fn singular_str(tu: TimeUnit) -> (r: &'static str)
        ensures
            r@ == Self::singular(tu),
    {
        match tu {
            TimeUnit::Nanoseconds => "nanosegundo",
            TimeUnit::Microseconds => "microsegundo",
            TimeUnit::Milliseconds => "milisegundo",
            TimeUnit::Seconds => "segundo",
            TimeUnit::Minutes => "minuto",
            TimeUnit::Hours => "hora",
            TimeUnit::Days => "dia",
            TimeUnit::Weeks => "semana",
            TimeUnit::Months => "mês",
            TimeUnit::Years => "ano",
        }
    }

    /// The word for any other count.
    pub open spec fn plural(tu: TimeUnit) -> Seq<char> {
        match tu {
            TimeUnit::Nanoseconds => "nanosegundos"@,
            TimeUnit::Microseconds => "microsegundos"@,
            TimeUnit::Milliseconds => "milisegundos"@,
            TimeUnit::Seconds => "segundos"@,
            TimeUnit::Minutes => "minutos"@,
            TimeUnit::Hours => "horas"@,
            TimeUnit::Days => "dias"@,
            TimeUnit::Weeks => "semanas"@,
            TimeUnit::Months => "meses"@,
            TimeUnit::Years => "anos"@,
        }
    }

    fn plural_str(tu: TimeUnit) -> (r: &'static str)
        ensures
            r@ == Self::plural(tu),
    {
        match tu {
            TimeUnit::Nanoseconds => "nanosegundos",
            TimeUnit::Microseconds => "microsegundos",
            TimeUnit::Milliseconds => "milisegundos",
            TimeUnit::Seconds => "segundos",
            TimeUnit::Minutes => "minutos",
            TimeUnit::Hours => "horas",
            TimeUnit::Days => "dias",
            TimeUnit::Weeks => "semanas",
            TimeUnit::Months => "meses",
            TimeUnit::Years => "anos",
        }
    }
}

impl Language for Portuguese {
    open spec fn too_low_phrase(&self) -> Seq<char> {
        "agora"@
    }

    open spec fn too_high_phrase(&self) -> Seq<char> {
        "antigo"@
    }

    open spec fn ago_word(&self) -> Seq<char> {
        "atrás"@
    }

    open spec fn unit_word(&self, tu: TimeUnit, x: u64) -> Seq<char> {
        if x == 1 {
            Self::singular(tu)
        } else {
            Self::plural(tu)
        }
    }

    open spec fn ago_first(&self) -> bool {
        false
    }

    open spec fn unit_first(&self, x: u64) -> bool {
        false
    }

    open spec fn value_word_gap(&self) -> Seq<char> {
        " "@
    }

    open spec fn chunk_gap(&self) -> Seq<char> {
        " "@
    }

    open spec fn ago_gap(&self) -> Seq<char> {
        " "@
    }

    fn too_low(&self) -> (r: &'static str) {
        "agora"
    }

    fn too_high(&self) -> (r: &'static str) {
        "antigo"
    }

    fn ago(&self) -> (r: &'static str) {
        "atrás"
    }

    fn get_word(&self, tu: TimeUnit, x: u64) -> (r: &'static str) {
        if x == 1 {
            Self::singular_str(tu)
        } else {
            Self::plural_str(tu)
        }
    }

    fn place_ago_before(&self) -> (r: bool) {
        false
    }

    fn place_unit_before(&self, x: u64) -> (r: bool) {
        false
    }

    fn between_value_and_word(&self) -> (r: &'static str) {
        " "
    }

    fn between_chunks(&self) -> (r: &'static str) {
        " "
    }

    fn extra_space(&self) -> (r: &'static str) {
        " "
    }
}

} // verus!
