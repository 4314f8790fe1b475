//! Chinese words.
use vstd::prelude::*;

use crate::language::Language;
use crate::time_unit::TimeUnit;

verus! {

/// Chinese.
#[derive(Debug, Clone, Copy)]
pub struct Chinese;

impl Chinese {
    /// The word for any count.
    pub open spec fn word(tu: TimeUnit) -> Seq<char> {
        match tu {
            TimeUnit::Nanoseconds => "纳秒"@,
            TimeUnit::Microseconds => "微秒"@,
            TimeUnit::Milliseconds => "毫秒"@,
            TimeUnit::Seconds => "秒"@,
            TimeUnit::Minutes => "分"@,
            TimeUnit::Hours => "小时"@,
            TimeUnit::Days => "天"@,
            TimeUnit::Weeks => "周"@,
            TimeUnit::Months => "月"@,
            TimeUnit::Years => "年"@,
        }
    }

    fn word_str(tu: TimeUnit) -> (r: &'static str)
        ensures
            r@ == Self::word(tu),
    {
        match tu {
            TimeUnit::Nanoseconds => "纳秒",
            TimeUnit::Microseconds => "微秒",
            TimeUnit::Milliseconds => "毫秒",
            TimeUnit::Seconds => "秒",
            TimeUnit::Minutes => "分",
            TimeUnit::Hours => "小时",
            TimeUnit::Days => "天",
            TimeUnit::Weeks => "周",
            TimeUnit::Months => "月",
            TimeUnit::Years => "年",
        }
    }
}

impl Language for Chinese {
    open spec fn too_low_phrase(&self) -> Seq<char> {
        "刚刚"@
    }

    open spec fn too_high_phrase(&self) -> Seq<char> {
        "大于"@
    }

    open spec fn ago_word(&self) -> Seq<char> {
        "之前"@
    }

    open spec fn unit_word(&self, tu: TimeUnit, x: u64) -> Seq<char> {
        Self::word(tu)
    }

    open spec fn ago_first(&self) -> bool {
        false
    }

    open spec fn unit_first(&self, x: u64) -> bool {
        false
    }

    open spec fn value_word_gap(&self) -> Seq<char> {
        " "@
    }

    open spec fn chunk_gap(&self) -> Seq<char> {
        " "@
    }

    open spec fn ago_gap(&self) -> Seq<char> {
        " "@
    }

    fn too_low(&self) -> (r: &'static str) {
        "刚刚"
    }

    fn too_high(&self) -> (r: &'static str) {
        "大于"
    }

    fn ago(&self) -> (r: &'static str) {
        "之前"
    }

    fn get_word(&self, tu: TimeUnit, x: u64) -> (r: &'static str) {
        Self::word_str(tu)
    }

    fn place_ago_before(&self) -> (r: bool) {
        false
    }

    fn place_unit_before(&self, x: u64) -> (r: bool) {
        false
    }

    fn between_value_and_word(&self) -> (r: &'static str) {
        " "
    }

    fn between_chunks(&self) -> (r: &'static str) {
        " "
    }

    fn extra_space(&self) -> (r: &'static str) {
        " "
    }
}

} // verus!
