//! Belarusian words.
use vstd::prelude::*;

use crate::language::{slavic_form, slavic_form_of, Language, SlavicForm};
use crate::time_unit::TimeUnit;

verus! {

/// Belarusian.
#[derive(Debug, Clone, Copy)]
pub struct Belarusian;

impl Belarusian {
    /// The form for a count of one.
    pub open spec fn accusative(tu: TimeUnit) -> Seq<char> {
        match tu {
            TimeUnit::Nanoseconds => "нанасэкунду"@,
            TimeUnit::Microseconds => "мікрасэкунду"@,
            TimeUnit::Milliseconds => "мілісэкунду"@,
            TimeUnit::Seconds => "сэкунду"@,
            TimeUnit::Minutes => "хвіліну"@,
            TimeUnit::Hours => "гадзіну"@,
            TimeUnit::Days => "дзень"@,
            TimeUnit::Weeks => "тыдзень"@,
            TimeUnit::Months => "месяц"@,
            TimeUnit::Years => "год"@,
        }
    }

    fn accusative_str(tu: TimeUnit) -> (r: &'static str)
        ensures
            r@ == Self::accusative(tu),
    {
        match tu {
            TimeUnit::Nanoseconds => "нанасэкунду",
            TimeUnit::Microseconds => "мікрасэкунду",
            TimeUnit::Milliseconds => "мілісэкунду",
            TimeUnit::Seconds => "сэкунду",
            TimeUnit::Minutes => "хвіліну",
            TimeUnit::Hours => "гадзіну",
            TimeUnit::Days => "дзень",
            TimeUnit::Weeks => "тыдзень",
            TimeUnit::Months => "месяц",
            TimeUnit::Years => "год",
        }
    }

    /// The form for a count of many.
    pub open spec fn genitive_plural(tu: TimeUnit) -> Seq<char> {
        match tu {
            TimeUnit::Nanoseconds => "нанасэкундаў"@,
            TimeUnit::Microseconds => "мікрасэкундаў"@,
            TimeUnit::Milliseconds => "мілісэкундаў"@,
            TimeUnit::Seconds => "сэкундаў"@,
            TimeUnit::Minutes => "хвілін"@,
            TimeUnit::Hours => "галзін"@,
            TimeUnit::Days => "дней"@,
            TimeUnit::Weeks => "тыдняў"@,
            TimeUnit::Months => "месяцаў"@,
            TimeUnit::Years => "гадоў"@,
        }
    }

    fn genitive_plural_str(tu: TimeUnit) -> (r: &'static str)
        ensures
            r@ == Self::genitive_plural(tu),
    {
        match tu {
            TimeUnit::Nanoseconds => "нанасэкундаў",
            TimeUnit::Microseconds => "мікрасэкундаў",
            TimeUnit::Milliseconds => "мілісэкундаў",
            TimeUnit::Seconds => "сэкундаў",
            TimeUnit::Minutes => "хвілін",
            TimeUnit::Hours => "галзін",
            TimeUnit::Days => "дней",
            TimeUnit::Weeks => "тыдняў",
            TimeUnit::Months => "месяцаў",
            TimeUnit::Years => "гадоў",
        }
    }

    /// The form for a count of a few.
    pub open spec fn genitive(tu: TimeUnit) -> Seq<char> {
        match tu {
            TimeUnit::Nanoseconds => "нанасэкунды"@,
            TimeUnit::Microseconds => "мікрасэкунды"@,
            TimeUnit::Milliseconds => "мілісэкунды"@,
            TimeUnit::Seconds => "сэкунды"@,
            TimeUnit::Minutes => "хвіліны"@,
            TimeUnit::Hours => "гадзіны"@,
            TimeUnit::Days => "дні"@,
            TimeUnit::Weeks => "тыдні"@,
            TimeUnit::Months => "месяца"@,
            TimeUnit::Years => "гады"@,
        }
    }

    fn genitive_str(tu: TimeUnit) -> (r: &'static str)
        ensures
            r@ == Self::genitive(tu),
    {
        match tu {
            TimeUnit::Nanoseconds => "нанасэкунды",
            TimeUnit::Microseconds => "мікрасэкунды",
            TimeUnit::Milliseconds => "мілісэкунды",
            TimeUnit::Seconds => "сэкунды",
            TimeUnit::Minutes => "хвіліны",
            TimeUnit::Hours => "гадзіны",
            TimeUnit::Days => "дні",
            TimeUnit::Weeks => "тыдні",
            TimeUnit::Months => "месяца",
            TimeUnit::Years => "гады",
        }
    }
}

impl Language for Belarusian {
    open spec fn too_low_phrase(&self) -> Seq<char> {
        "зараз"@
    }

    open spec fn too_high_phrase(&self) -> Seq<char> {
        "даўно"@
    }

    open spec fn ago_word(&self) -> Seq<char> {
        "таму"@
    }

    open spec fn unit_word(&self, tu: TimeUnit, x: u64) -> Seq<char> {
        match slavic_form(x) {
            SlavicForm::Accusative => Self::accusative(tu),
            SlavicForm::Genitive => Self::genitive(tu),
            SlavicForm::GenitivePlural => Self::genitive_plural(tu),
        }
    }

    open spec fn ago_first(&self) -> bool {
        false
    }

    open spec fn unit_first(&self, x: u64) -> bool {
        false
    }

    open spec fn value_word_gap(&self) -> Seq<char> {
        " "@
    }

    open spec fn chunk_gap(&self) -> Seq<char> {
        " "@
    }

    open spec fn ago_gap(&self) -> Seq<char> {
        " "@
    }

    fn too_low(&self) -> (r: &'static str) {
        "зараз"
    }

    fn too_high(&self) -> (r: &'static str) {
        "даўно"
    }

    fn ago(&self) -> (r: &'static str) {
        "таму"
    }

    fn get_word(&self, tu: TimeUnit, x: u64) -> (r: &'static str) {
        match slavic_form_of(x) {
            SlavicForm::Accusative => Self::accusative_str(tu),
            SlavicForm::Genitive => Self::genitive_str(tu),
            SlavicForm::GenitivePlural => Self::genitive_plural_str(tu),
        }
    }

    fn place_ago_before(&self) -> (r: bool) {
        false
    }

    fn place_unit_before(&self, x: u64) -> (r: bool) {
        false
    }

    fn between_value_and_word(&self) -> (r: &'static str) {
        " "
    }

    fn between_chunks(&self) -> (r: &'static str) {
        " "
    }

    fn extra_space(&self) -> (r: &'static str) {
        " "
    }
}

} // verus!
