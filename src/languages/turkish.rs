//! Turkish words.
use vstd::prelude::*;

use crate::language::Language;
use crate::time_unit::TimeUnit;

verus! {

/// Turkish.
#[derive(Debug, Clone, Copy)]
pub struct Turkish;

impl Turkish {
    /// The word for any count.
    pub open spec fn word(tu: TimeUnit) -> Seq<char> {
        match tu {
            TimeUnit::Nanoseconds => "nanosaniye"@,
            TimeUnit::Microseconds => "mikrosaniye"@,
            TimeUnit::Milliseconds => "milisaniye"@,
            TimeUnit::Seconds => "saniye"@,
            TimeUnit::Minutes => "dakika"@,
            TimeUnit::Hours => "saat"@,
            TimeUnit::Days => "gün"@,
            TimeUnit::Weeks => "hafta"@,
            TimeUnit::Months => "ay"@,
            TimeUnit::Years => "yıl"@,
        }
    }

    fn word_str(tu: TimeUnit) -> (r: &'static str)
        ensures
            r@ == Self::word(tu),
    {
        match tu {
            TimeUnit::Nanoseconds => "nanosaniye",
            TimeUnit::Microseconds => "mikrosaniye",
            TimeUnit::Milliseconds => "milisaniye",
            TimeUnit::Seconds => "saniye",
            TimeUnit::Minutes => "dakika",
            TimeUnit::Hours => "saat",
            TimeUnit::Days => "gün",
            TimeUnit::Weeks => "hafta",
            TimeUnit::Months => "ay",
            TimeUnit::Years => "yıl",
        }
    }
}

impl Language for Turkish {
    open spec fn too_low_phrase(&self) -> Seq<char> {
        "şimdi"@
    }

    open spec fn too_high_phrase(&self) -> Seq<char> {
        "eski"@
    }

    open spec fn ago_word(&self) -> Seq<char> {
        "önce"@
    }

    open spec fn unit_word(&self, tu: TimeUnit, x: u64) -> Seq<char> {
        Self::word(tu)
    }

    open spec fn ago_first(&self) -> bool {
        false
    }

    open spec fn unit_first(&self, x: u64) -> bool {
        false
    }

    open spec fn value_word_gap(&self) -> Seq<char> {
        " "@
    }

    open spec fn chunk_gap(&self) -> Seq<char> {
        " "@
    }

    open spec fn ago_gap(&self) -> Seq<char> {
        " "@
    }

    fn too_low(&self) -> (r: &'static str) {
        "şimdi"
    }

    fn too_high(&self) -> (r: &'static str) {
        "eski"
    }

    fn ago(&self) -> (r: &'static str) {
        "önce"
    }

    fn get_word(&self, tu: TimeUnit, x: u64) -> (r: &'static str) {
        Self::word_str(tu)
    }

    fn place_ago_before(&self) -> (r: bool) {
        false
    }

    fn place_unit_before(&self, x: u64) -> (r: bool) {
        false
    }

    fn between_value_and_word(&self) -> (r: &'static str) {
        " "
    }

    fn between_chunks(&self) -> (r: &'static str) {
        " "
    }

    fn extra_space(&self) -> (r: &'static str) {
        " "
    }
}

} // verus!
