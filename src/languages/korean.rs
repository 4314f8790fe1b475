//! Korean words.
use vstd::prelude::*;

use crate::language::Language;
use crate::time_unit::TimeUnit;

verus! {

/// Korean: no space between a count and its unit.
#[derive(Debug, Clone, Copy)]
pub struct Korean;

impl Korean {
    /// The word for any count.
    pub open spec fn word(tu: TimeUnit) -> Seq<char> {
        match tu {
            TimeUnit::Nanoseconds => "나노초"@,
            TimeUnit::Microseconds => "마이크로초"@,
            TimeUnit::Milliseconds => "밀리초"@,
            TimeUnit::Seconds => "초"@,
            TimeUnit::Minutes => "분"@,
            TimeUnit::Hours => "시간"@,
            TimeUnit::Days => "일"@,
            TimeUnit::Weeks => "주"@,
            TimeUnit::Months => "개월"@,
            TimeUnit::Years => "년"@,
        }
    }

    fn word_str(tu: TimeUnit) -> (r: &'static str)
        ensures
            r@ == Self::word(tu),
    {
        match tu {
            TimeUnit::Nanoseconds => "나노초",
            TimeUnit::Microseconds => "마이크로초",
            TimeUnit::Milliseconds => "밀리초",
            TimeUnit::Seconds => "초",
            TimeUnit::Minutes => "분",
            TimeUnit::Hours => "시간",
            TimeUnit::Days => "일",
            TimeUnit::Weeks => "주",
            TimeUnit::Months => "개월",
            TimeUnit::Years => "년",
        }
    }
}

impl Language for Korean {
    open spec fn too_low_phrase(&self) -> Seq<char> {
        "방금"@
    }

    open spec fn too_high_phrase(&self) -> Seq<char> {
        "오래전"@
    }

    open spec fn ago_word(&self) -> Seq<char> {
        "전"@
    }

    open spec fn unit_word(&self, tu: TimeUnit, x: u64) -> Seq<char> {
        Self::word(tu)
    }

    open spec fn ago_first(&self) -> bool {
        false
    }

    open spec fn unit_first(&self, x: u64) -> bool {
        false
    }

    open spec fn value_word_gap(&self) -> Seq<char> {
        ""@
    }

    open spec fn chunk_gap(&self) -> Seq<char> {
        " "@
    }

    open spec fn ago_gap(&self) -> Seq<char> {
        " "@
    }

    fn too_low(&self) -> (r: &'static str) {
        "방금"
    }

    fn too_high(&self) -> (r: &'static str) {
        "오래전"
    }

    fn ago(&self) -> (r: &'static str) {
        "전"
    }

    fn get_word(&self, tu: TimeUnit, x: u64) -> (r: &'static str) {
        Self::word_str(tu)
    }

    fn place_ago_before(&self) -> (r: bool) {
        false
    }

    fn place_unit_before(&self, x: u64) -> (r: bool) {
        false
    }

    fn between_value_and_word(&self) -> (r: &'static str) {
        ""
    }

    fn between_chunks(&self) -> (r: &'static str) {
        " "
    }

    fn extra_space(&self) -> (r: &'static str) {
        " "
    }
}

} // verus!
