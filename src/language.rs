//! The interface through which the formatter reads a natural language's words
//! and layout.
use vstd::prelude::*;

use crate::time_unit::TimeUnit;

verus! {

/// A natural language for the formatter: its fixed phrases, the word for each
/// unit and count, and where words and spaces go. Each method is a pure lookup;
/// its result is the matching spec function.
pub trait Language {
    /// The phrase for a span too short to show in the smallest allowed unit.
    spec fn too_low_phrase(&self) -> Seq<char>;

    /// The phrase for a span above the configured ceiling.
    spec fn too_high_phrase(&self) -> Seq<char>;

    /// The connector word, such as "ago".
    spec fn ago_word(&self) -> Seq<char>;

    /// The word for `x` of unit `tu`, inflected for that count.
    spec fn unit_word(&self, tu: TimeUnit, x: u64) -> Seq<char>;

    /// Whether the connector goes before the counts.
    spec fn ago_first(&self) -> bool;

    /// Whether the unit word goes before a count of `x`.
    spec fn unit_first(&self, x: u64) -> bool;

    /// The text between a count and its unit word.
    spec fn value_word_gap(&self) -> Seq<char>;

    /// The text between two chunks.
    spec fn chunk_gap(&self) -> Seq<char>;

    /// The text between the connector and the chunks.
    spec fn ago_gap(&self) -> Seq<char>;

    /// What to emit by default when the span is too short.
    fn too_low(&self) -> (r: &'static str)
        ensures
            r@ == self.too_low_phrase(),
    ;

    /// What to emit by default when the span is too long.
    fn too_high(&self) -> (r: &'static str)
        ensures
            r@ == self.too_high_phrase(),
    ;

    /// The connector to put beside the counts by default.
    fn ago(&self) -> (r: &'static str)
        ensures
            r@ == self.ago_word(),
    ;

    /// The word for the unit `tu`, to follow (or precede) the count `x`.
    fn get_word(&self, tu: TimeUnit, x: u64) -> (r: &'static str)
        ensures
            r@ == self.unit_word(tu, x),
    ;

    /// Whether the connector goes first, as German "vor".
    fn place_ago_before(&self) -> (r: bool)
        ensures
            r == self.ago_first(),
    ;

    /// Whether the unit word goes before the count `x`.
    fn place_unit_before(&self, x: u64) -> (r: bool)
        ensures
            r == self.unit_first(x),
    ;

    /// The separator between a count and its word.
    fn between_value_and_word(&self) -> (r: &'static str)
        ensures
            r@ == self.value_word_gap(),
    ;

    /// The separator between two chunks.
    fn between_chunks(&self) -> (r: &'static str)
        ensures
            r@ == self.chunk_gap(),
    ;

    /// The separator between the connector and the chunks.
    fn extra_space(&self) -> (r: &'static str)
        ensures
            r@ == self.ago_gap(),
    ;
}

/// Two languages give the same text for everything the formatter asks.
pub open spec fn same_texts<A: Language + ?Sized, B: Language + ?Sized>(a: &A, b: &B) -> bool {
    &&& a.too_low_phrase() == b.too_low_phrase()
    &&& a.too_high_phrase() == b.too_high_phrase()
    &&& a.ago_word() == b.ago_word()
    &&& a.ago_first() == b.ago_first()
    &&& a.value_word_gap() == b.value_word_gap()
    &&& a.chunk_gap() == b.chunk_gap()
    &&& a.ago_gap() == b.ago_gap()
    &&& forall|x: u64| #[trigger] a.unit_first(x) == b.unit_first(x)
    &&& forall|tu: TimeUnit, x: u64| #[trigger] a.unit_word(tu, x) == b.unit_word(tu, x)
}

/// The grammatical form that a count calls for in the Slavic languages.
#[derive(Debug, Clone, Copy, PartialEq, Eq, Structural)]
pub enum SlavicForm {
    /// The form for one, as in "1 минуту".
    Accusative,
    /// The form for a few, as in "2 минуты".
    Genitive,
    /// The form for many, as in "5 минут".
    GenitivePlural,
}

/// The form for `x`: counts ending in 11 to 20 take the genitive plural;
/// otherwise a last digit of 1 takes the accusative, 2 to 4 the genitive and
/// the rest the genitive plural.
pub open spec fn slavic_form(x: u64) -> SlavicForm {
    if 11 <= x % 100 <= 20 {
        SlavicForm::GenitivePlural
    } else if x % 10 == 1 {
        SlavicForm::Accusative
    } else if 2 <= x % 10 <= 4 {
        SlavicForm::Genitive
    } else {
        SlavicForm::GenitivePlural
    }
}

/// The form repeats with every hundred and, outside 11 to 20 of each hundred,
/// with every ten: 21 takes the form of 1, while 11 does not.
pub proof fn lemma_slavic_cycle(x: u64, y: u64)
    ensures
        x % 100 == y % 100 ==> slavic_form(x) == slavic_form(y),
        (x % 10 == y % 10 && !(11 <= x % 100 <= 20) && !(11 <= y % 100 <= 20)) ==> slavic_form(x)
            == slavic_form(y),
        slavic_form(1) == SlavicForm::Accusative && slavic_form(21) == SlavicForm::Accusative,
        slavic_form(11) == SlavicForm::GenitivePlural,
{
}

/// Picks the form that the count `x` calls for.
pub fn slavic_form_of(x: u64) -> (r: SlavicForm)
    ensures
        r == slavic_form(x),
{
    let last_two = x % 100;
    let last = x % 10;
    if 11 <= last_two && last_two <= 20 {
        SlavicForm::GenitivePlural
    } else if last == 1 {
        SlavicForm::Accusative
    } else if 2 <= last && last <= 4 {
        SlavicForm::Genitive
    } else {
        SlavicForm::GenitivePlural
    }
}

} // verus!
