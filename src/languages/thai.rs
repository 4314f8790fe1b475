//! Thai words.
use vstd::prelude::*;

use crate::language::Language;
use crate::time_unit::TimeUnit;

verus! {

/// Thai: no space between the counts and the connector.
#[derive(Debug, Clone, Copy)]
pub struct Thai;

impl Thai {
    /// The word for any count.
    pub open spec fn word(tu: TimeUnit) -> Seq<char> {
        match tu {
            TimeUnit::Nanoseconds => "นาโนวินาที"@,
            TimeUnit::Microseconds => "ไมโครวินาที"@,
            TimeUnit::Milliseconds => "มิลลิวินาที"@,
            TimeUnit::Seconds => "วินาที"@,
            TimeUnit::Minutes => "นาที"@,
            TimeUnit::Hours => "ชั่วโมง"@,
            TimeUnit::Days => "วัน"@,
            TimeUnit::Weeks => "สัปดาห์"@,
            TimeUnit::Months => "เดือน"@,
            TimeUnit::Years => "ปี"@,
        }
    }

    fn word_str(tu: TimeUnit) -> (r: &'static str)
        ensures
            r@ == Self::word(tu),
    {
        match tu {
            TimeUnit::Nanoseconds => "นาโนวินาที",
            TimeUnit::Microseconds => "ไมโครวินาที",
            TimeUnit::Milliseconds => "มิลลิวินาที",
            TimeUnit::Seconds => "วินาที",
            TimeUnit::Minutes => "นาที",
            TimeUnit::Hours => "ชั่วโมง",
            TimeUnit::Days => "วัน",
            TimeUnit::Weeks => "สัปดาห์",
            TimeUnit::Months => "เดือน",
            TimeUnit::Years => "ปี",
        }
    }
}

impl Language for Thai {
    open spec fn too_low_phrase(&self) -> Seq<char> {
        "ตอนนี้"@
    }

    open spec fn too_high_phrase(&self) -> Seq<char> {
        "นานมาแล้ว"@
    }

    open spec fn ago_word(&self) -> Seq<char> {
        "ที่แล้ว"@
    }

    open spec fn unit_word(&self, tu: TimeUnit, x: u64) -> Seq<char> {
        Self::word(tu)
    }

    open spec fn ago_first(&self) -> bool {
        false
    }

    open spec fn unit_first(&self, x: u64) -> bool {
        false
    }

    open spec fn value_word_gap(&self) -> Seq<char> {
        " "@
    }

    open spec fn chunk_gap(&self) -> Seq<char> {
        " "@
    }

    open spec fn ago_gap(&self) -> Seq<char> {
        ""@
    }

    fn too_low(&self) -> (r: &'static str) {
        "ตอนนี้"
    }

    fn too_high(&self) -> (r: &'static str) {
        "นานมาแล้ว"
    }

    fn ago(&self) -> (r: &'static str) {
        "ที่แล้ว"
    }

    fn get_word(&self, tu: TimeUnit, x: u64) -> (r: &'static str) {
        Self::word_str(tu)
    }

    fn place_ago_before(&self) -> (r: bool) {
        false
    }

    fn place_unit_before(&self, x: u64) -> (r: bool) {
        false
    }

    fn between_value_and_word(&self) -> (r: &'static str) {
        " "
    }

    fn between_chunks(&self) -> (r: &'static str) {
        " "
    }

    fn extra_space(&self) -> (r: &'static str) {
        ""
    }
}

} // verus!
