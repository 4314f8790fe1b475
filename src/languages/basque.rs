//! Basque words.
use vstd::prelude::*;

use crate::language::Language;
use crate::time_unit::TimeUnit;

verus! {

/// Basque: the connector comes first, and a unit word precedes a count of one.
#[derive(Debug, Clone, Copy)]
pub struct Basque;

impl Basque {
    /// The word for any count.
    pub open spec fn word(tu: TimeUnit) -> Seq<char> {
        match tu {
            TimeUnit::Nanoseconds => "nanosegundo"@,
            TimeUnit::Microseconds => "mikrosegundo"@,
            TimeUnit::Milliseconds => "milisegundo"@,
            TimeUnit::Seconds => "segundo"@,
            TimeUnit::Minutes => "minutu"@,
            TimeUnit::Hours => "ordu"@,
            TimeUnit::Days => "egun"@,
            TimeUnit::Weeks => "aste"@,
            TimeUnit::Months => "hile"@,
            TimeUnit::Years => "urte"@,
        }
    }

    fn word_str(tu: TimeUnit) -> (r: &'static str)
        ensures
            r@ == Self::word(tu),
    {
        match tu {
            TimeUnit::Nanoseconds => "nanosegundo",
            TimeUnit::Microseconds => "mikrosegundo",
            TimeUnit::Milliseconds => "milisegundo",
            TimeUnit::Seconds => "segundo",
            TimeUnit::Minutes => "minutu",
            TimeUnit::Hours => "ordu",
            TimeUnit::Days => "egun",
            TimeUnit::Weeks => "aste",
            TimeUnit::Months => "hile",
            TimeUnit::Years => "urte",
        }
    }
}

impl Language for Basque {
    open spec fn too_low_phrase(&self) -> Seq<char> {
        "oraintxe bertan"@
    }

    open spec fn too_high_phrase(&self) -> Seq<char> {
        "zaharregi"@
    }

    open spec fn ago_word(&self) -> Seq<char> {
        "orain dela"@
    }

    open spec fn unit_word(&self, tu: TimeUnit, x: u64) -> Seq<char> {
        Self::word(tu)
    }

    open spec fn ago_first(&self) -> bool {
        true
    }

    open spec fn unit_first(&self, x: u64) -> bool {
        x == 1
    }

    open spec fn value_word_gap(&self) -> Seq<char> {
        " "@
    }

    open spec fn chunk_gap(&self) -> Seq<char> {
        " "@
    }

    open spec fn ago_gap(&self) -> Seq<char> {
        " "@
    }

    fn too_low(&self) -> (r: &'static str) {
        "oraintxe bertan"
    }

    fn too_high(&self) -> (r: &'static str) {
        "zaharregi"
    }

    fn ago(&self) -> (r: &'static str) {
        "orain dela"
    }

    fn get_word(&self, tu: TimeUnit, x: u64) -> (r: &'static str) {
        Self::word_str(tu)
    }

    fn place_ago_before(&self) -> (r: bool) {
        true
    }

    fn place_unit_before(&self, x: u64) -> (r: bool) {
        x == 1
    }

    fn between_value_and_word(&self) -> (r: &'static str) {
        " "
    }

    fn between_chunks(&self) -> (r: &'static str) {
        " "
    }

    fn extra_space(&self) -> (r: &'static str) {
        " "
    }
}

} // verus!
