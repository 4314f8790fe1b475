//! Russian words.
use vstd::prelude::*;

use crate::language::{slavic_form, slavic_form_of, Language, SlavicForm};
use crate::time_unit::TimeUnit;

verus! {

/// Russian.
#[derive(Debug, Clone, Copy)]
pub struct Russian;

impl Russian {
    /// The form for a count of one.
    pub open spec fn accusative(tu: TimeUnit) -> Seq<char> {
        match tu {
            TimeUnit::Nanoseconds => "наносекунду"@,
            TimeUnit::Microseconds => "микросекунду"@,
            TimeUnit::Milliseconds => "миллисекунду"@,
            TimeUnit::Seconds => "секунду"@,
            TimeUnit::Minutes => "минуту"@,
            TimeUnit::Hours => "час"@,
            TimeUnit::Days => "день"@,
            TimeUnit::Weeks => "неделю"@,
            TimeUnit::Months => "месяц"@,
            TimeUnit::Years => "год"@,
        }
    }

    fn accusative_str(tu: TimeUnit) -> (r: &'static str)
        ensures
            r@ == Self::accusative(tu),
    {
        match tu {
            TimeUnit::Nanoseconds => "наносекунду",
            TimeUnit::Microseconds => "микросекунду",
            TimeUnit::Milliseconds => "миллисекунду",
            TimeUnit::Seconds => "секунду",
            TimeUnit::Minutes => "минуту",
            TimeUnit::Hours => "час",
            TimeUnit::Days => "день",
            TimeUnit::Weeks => "неделю",
            TimeUnit::Months => "месяц",
            TimeUnit::Years => "год",
        }
    }

    /// The form for a count of many.
    pub open spec fn genitive_plural(tu: TimeUnit) -> Seq<char> {
        match tu {
            TimeUnit::Nanoseconds => "наносекунд"@,
            TimeUnit::Microseconds => "микросекунд"@,
            TimeUnit::Milliseconds => "миллисекунд"@,
            TimeUnit::Seconds => "секунд"@,
            TimeUnit::Minutes => "минут"@,
            TimeUnit::Hours => "часов"@,
            TimeUnit::Days => "дней"@,
            TimeUnit::Weeks => "недель"@,
            TimeUnit::Months => "месяцев"@,
            TimeUnit::Years => "лет"@,
        }
    }

    fn genitive_plural_str(tu: TimeUnit) -> (r: &'static str)
        ensures
            r@ == Self::genitive_plural(tu),
    {
        match tu {
            TimeUnit::Nanoseconds => "наносекунд",
            TimeUnit::Microseconds => "микросекунд",
            TimeUnit::Milliseconds => "миллисекунд",
            TimeUnit::Seconds => "секунд",
            TimeUnit::Minutes => "минут",
            TimeUnit::Hours => "часов",
            TimeUnit::Days => "дней",
            TimeUnit::Weeks => "недель",
            TimeUnit::Months => "месяцев",
            TimeUnit::Years => "лет",
        }
    }

    /// The form for a count of a few.
    pub open spec fn genitive(tu: TimeUnit) -> Seq<char> {
        match tu {
            TimeUnit::Nanoseconds => "наносекунды"@,
            TimeUnit::Microseconds => "микросекунды"@,
            TimeUnit::Milliseconds => "миллисекунды"@,
            TimeUnit::Seconds => "секунды"@,
            TimeUnit::Minutes => "минуты"@,
            TimeUnit::Hours => "часа"@,
            TimeUnit::Days => "дня"@,
            TimeUnit::Weeks => "недели"@,
            TimeUnit::Months => "месяца"@,
            TimeUnit::Years => "года"@,
        }
    }

    fn genitive_str(tu: TimeUnit) -> (r: &'static str)
        ensures
            r@ == Self::genitive(tu),
    {
        match tu {
            TimeUnit::Nanoseconds => "наносекунды",
            TimeUnit::Microseconds => "микросекунды",
            TimeUnit::Milliseconds => "миллисекунды",
            TimeUnit::Seconds => "секунды",
            TimeUnit::Minutes => "минуты",
            TimeUnit::Hours => "часа",
            TimeUnit::Days => "дня",
            TimeUnit::Weeks => "недели",
            TimeUnit::Months => "месяца",
            TimeUnit::Years => "года",
        }
    }
}

impl Language for Russian {
    open spec fn too_low_phrase(&self) -> Seq<char> {
        "сейчас"@
    }

    open spec fn too_high_phrase(&self) -> Seq<char> {
        "давно"@
    }

    open spec fn ago_word(&self) -> Seq<char> {
        "назад"@
    }

    open spec fn unit_word(&self, tu: TimeUnit, x: u64) -> Seq<char> {
        match slavic_form(x) {
            SlavicForm::Accusative => Self::accusative(tu),
            SlavicForm::Genitive => Self::genitive(tu),
            SlavicForm::GenitivePlural => Self::genitive_plural(tu),
        }
    }

    open spec fn ago_first(&self) -> bool {
        false
    }

    open spec fn unit_first(&self, x: u64) -> bool {
        false
    }

    open spec fn value_word_gap(&self) -> Seq<char> {
        " "@
    }

    open spec fn chunk_gap(&self) -> Seq<char> {
        " "@
    }

    open spec fn ago_gap(&self) -> Seq<char> {
        " "@
    }

    fn too_low(&self) -> (r: &'static str) {
        "сейчас"
    }

    fn too_high(&self) -> (r: &'static str) {
        "давно"
    }

    fn ago(&self) -> (r: &'static str) {
        "назад"
    }

    fn get_word(&self, tu: TimeUnit, x: u64) -> (r: &'static str) {
        match slavic_form_of(x) {
            SlavicForm::Accusative => Self::accusative_str(tu),
            SlavicForm::Genitive => Self::genitive_str(tu),
            SlavicForm::GenitivePlural => Self::genitive_plural_str(tu),
        }
    }

    fn place_ago_before(&self) -> (r: bool) {
        false
    }

    fn place_unit_before(&self, x: u64) -> (r: bool) {
        false
    }

    fn between_value_and_word(&self) -> (r: &'static str) {
        " "
    }

    fn between_chunks(&self) -> (r: &'static str) {
        " "
    }

    fn extra_space(&self) -> (r: &'static str) {
        " "
    }
}

} // verus!
