//! One type for every language that comes with the library, chosen at run
//! time by name.
use vstd::prelude::*;
use vstd::string::*;

use crate::language::{same_texts, Language};
use crate::time_unit::TimeUnit;

/// The ISO 639 language type of the isolang crate.
pub use isolang::Language as IsolangLanguage;

use crate::languages::english::English;
use crate::languages::basque::Basque;
use crate::languages::belarusian::Belarusian;
use crate::languages::chinese::Chinese;
use crate::languages::danish::Danish;
use crate::languages::french::French;
use crate::languages::german::German;
use crate::languages::italian::Italian;
use crate::languages::japanese::Japanese;
use crate::languages::korean::Korean;
use crate::languages::polish::Polish;
use crate::languages::portuguese::Portuguese;
use crate::languages::romanian::Romanian;
use crate::languages::russian::Russian;
use crate::languages::spanish::Spanish;
use crate::languages::swedish::Swedish;
use crate::languages::thai::Thai;
use crate::languages::turkish::Turkish;
use crate::languages::ukrainian::Ukrainian;

verus! {

/// Any of the languages that come with the library.
#[derive(Debug, Clone, Copy)]
pub enum AnyLanguage {
    English(English),
    Basque(Basque),
    Belarusian(Belarusian),
    Chinese(Chinese),
    Danish(Danish),
    French(French),
    German(German),
    Italian(Italian),
    Japanese(Japanese),
    Korean(Korean),
    Polish(Polish),
    Portuguese(Portuguese),
    Romanian(Romanian),
    Russian(Russian),
    Spanish(Spanish),
    Swedish(Swedish),
    Thai(Thai),
    Turkish(Turkish),
    Ukrainian(Ukrainian),
}

impl Language for AnyLanguage {
    open spec fn too_low_phrase(&self) -> Seq<char> {
        match self {
            AnyLanguage::English(l) => l.too_low_phrase(),
            AnyLanguage::Basque(l) => l.too_low_phrase(),
            AnyLanguage::Belarusian(l) => l.too_low_phrase(),
            AnyLanguage::Chinese(l) => l.too_low_phrase(),
            AnyLanguage::Danish(l) => l.too_low_phrase(),
            AnyLanguage::French(l) => l.too_low_phrase(),
            AnyLanguage::German(l) => l.too_low_phrase(),
            AnyLanguage::Italian(l) => l.too_low_phrase(),
            AnyLanguage::Japanese(l) => l.too_low_phrase(),
            AnyLanguage::Korean(l) => l.too_low_phrase(),
            AnyLanguage::Polish(l) => l.too_low_phrase(),
            AnyLanguage::Portuguese(l) => l.too_low_phrase(),
            AnyLanguage::Romanian(l) => l.too_low_phrase(),
            AnyLanguage::Russian(l) => l.too_low_phrase(),
            AnyLanguage::Spanish(l) => l.too_low_phrase(),
            AnyLanguage::Swedish(l) => l.too_low_phrase(),
            AnyLanguage::Thai(l) => l.too_low_phrase(),
            AnyLanguage::Turkish(l) => l.too_low_phrase(),
            AnyLanguage::Ukrainian(l) => l.too_low_phrase(),
        }
    }

    open spec fn too_high_phrase(&self) -> Seq<char> {
        match self {
            AnyLanguage::English(l) => l.too_high_phrase(),
            AnyLanguage::Basque(l) => l.too_high_phrase(),
            AnyLanguage::Belarusian(l) => l.too_high_phrase(),
            AnyLanguage::Chinese(l) => l.too_high_phrase(),
            AnyLanguage::Danish(l) => l.too_high_phrase(),
            AnyLanguage::French(l) => l.too_high_phrase(),
            AnyLanguage::German(l) => l.too_high_phrase(),
            AnyLanguage::Italian(l) => l.too_high_phrase(),
            AnyLanguage::Japanese(l) => l.too_high_phrase(),
            AnyLanguage::Korean(l) => l.too_high_phrase(),
            AnyLanguage::Polish(l) => l.too_high_phrase(),
            AnyLanguage::Portuguese(l) => l.too_high_phrase(),
            AnyLanguage::Romanian(l) => l.too_high_phrase(),
            AnyLanguage::Russian(l) => l.too_high_phrase(),
            AnyLanguage::Spanish(l) => l.too_high_phrase(),
            AnyLanguage::Swedish(l) => l.too_high_phrase(),
            AnyLanguage::Thai(l) => l.too_high_phrase(),
            AnyLanguage::Turkish(l) => l.too_high_phrase(),
            AnyLanguage::Ukrainian(l) => l.too_high_phrase(),
        }
    }

    open spec fn ago_word(&self) -> Seq<char> {
        match self {
            AnyLanguage::English(l) => l.ago_word(),
            AnyLanguage::Basque(l) => l.ago_word(),
            AnyLanguage::Belarusian(l) => l.ago_word(),
            AnyLanguage::Chinese(l) => l.ago_word(),
            AnyLanguage::Danish(l) => l.ago_word(),
            AnyLanguage::French(l) => l.ago_word(),
            AnyLanguage::German(l) => l.ago_word(),
            AnyLanguage::Italian(l) => l.ago_word(),
            AnyLanguage::Japanese(l) => l.ago_word(),
            AnyLanguage::Korean(l) => l.ago_word(),
            AnyLanguage::Polish(l) => l.ago_word(),
            AnyLanguage::Portuguese(l) => l.ago_word(),
            AnyLanguage::Romanian(l) => l.ago_word(),
            AnyLanguage::Russian(l) => l.ago_word(),
            AnyLanguage::Spanish(l) => l.ago_word(),
            AnyLanguage::Swedish(l) => l.ago_word(),
            AnyLanguage::Thai(l) => l.ago_word(),
            AnyLanguage::Turkish(l) => l.ago_word(),
            AnyLanguage::Ukrainian(l) => l.ago_word(),
        }
    }

    open spec fn unit_word(&self, tu: TimeUnit, x: u64) -> Seq<char> {
        match self {
            AnyLanguage::English(l) => l.unit_word(tu, x),
            AnyLanguage::Basque(l) => l.unit_word(tu, x),
            AnyLanguage::Belarusian(l) => l.unit_word(tu, x),
            AnyLanguage::Chinese(l) => l.unit_word(tu, x),
            AnyLanguage::Danish(l) => l.unit_word(tu, x),
            AnyLanguage::French(l) => l.unit_word(tu, x),
            AnyLanguage::German(l) => l.unit_word(tu, x),
            AnyLanguage::Italian(l) => l.unit_word(tu, x),
            AnyLanguage::Japanese(l) => l.unit_word(tu, x),
            AnyLanguage::Korean(l) => l.unit_word(tu, x),
            AnyLanguage::Polish(l) => l.unit_word(tu, x),
            AnyLanguage::Portuguese(l) => l.unit_word(tu, x),
            AnyLanguage::Romanian(l) => l.unit_word(tu, x),
            AnyLanguage::Russian(l) => l.unit_word(tu, x),
            AnyLanguage::Spanish(l) => l.unit_word(tu, x),
            AnyLanguage::Swedish(l) => l.unit_word(tu, x),
            AnyLanguage::Thai(l) => l.unit_word(tu, x),
            AnyLanguage::Turkish(l) => l.unit_word(tu, x),
            AnyLanguage::Ukrainian(l) => l.unit_word(tu, x),
        }
    }

    open spec fn ago_first(&self) -> bool {
        match self {
            AnyLanguage::English(l) => l.ago_first(),
            AnyLanguage::Basque(l) => l.ago_first(),
            AnyLanguage::Belarusian(l) => l.ago_first(),
            AnyLanguage::Chinese(l) => l.ago_first(),
            AnyLanguage::Danish(l) => l.ago_first(),
            AnyLanguage::French(l) => l.ago_first(),
            AnyLanguage::German(l) => l.ago_first(),
            AnyLanguage::Italian(l) => l.ago_first(),
            AnyLanguage::Japanese(l) => l.ago_first(),
            AnyLanguage::Korean(l) => l.ago_first(),
            AnyLanguage::Polish(l) => l.ago_first(),
            AnyLanguage::Portuguese(l) => l.ago_first(),
            AnyLanguage::Romanian(l) => l.ago_first(),
            AnyLanguage::Russian(l) => l.ago_first(),
            AnyLanguage::Spanish(l) => l.ago_first(),
            AnyLanguage::Swedish(l) => l.ago_first(),
            AnyLanguage::Thai(l) => l.ago_first(),
            AnyLanguage::Turkish(l) => l.ago_first(),
            AnyLanguage::Ukrainian(l) => l.ago_first(),
        }
    }

    open spec fn unit_first(&self, x: u64) -> bool {
        match self {
            AnyLanguage::English(l) => l.unit_first(x),
            AnyLanguage::Basque(l) => l.unit_first(x),
            AnyLanguage::Belarusian(l) => l.unit_first(x),
            AnyLanguage::Chinese(l) => l.unit_first(x),
            AnyLanguage::Danish(l) => l.unit_first(x),
            AnyLanguage::French(l) => l.unit_first(x),
            AnyLanguage::German(l) => l.unit_first(x),
            AnyLanguage::Italian(l) => l.unit_first(x),
            AnyLanguage::Japanese(l) => l.unit_first(x),
            AnyLanguage::Korean(l) => l.unit_first(x),
            AnyLanguage::Polish(l) => l.unit_first(x),
            AnyLanguage::Portuguese(l) => l.unit_first(x),
            AnyLanguage::Romanian(l) => l.unit_first(x),
            AnyLanguage::Russian(l) => l.unit_first(x),
            AnyLanguage::Spanish(l) => l.unit_first(x),
            AnyLanguage::Swedish(l) => l.unit_first(x),
            AnyLanguage::Thai(l) => l.unit_first(x),
            AnyLanguage::Turkish(l) => l.unit_first(x),
            AnyLanguage::Ukrainian(l) => l.unit_first(x),
        }
    }

    open spec fn value_word_gap(&self) -> Seq<char> {
        match self {
            AnyLanguage::English(l) => l.value_word_gap(),
            AnyLanguage::Basque(l) => l.value_word_gap(),
            AnyLanguage::Belarusian(l) => l.value_word_gap(),
            AnyLanguage::Chinese(l) => l.value_word_gap(),
            AnyLanguage::Danish(l) => l.value_word_gap(),
            AnyLanguage::French(l) => l.value_word_gap(),
            AnyLanguage::German(l) => l.value_word_gap(),
            AnyLanguage::Italian(l) => l.value_word_gap(),
            AnyLanguage::Japanese(l) => l.value_word_gap(),
            AnyLanguage::Korean(l) => l.value_word_gap(),
            AnyLanguage::Polish(l) => l.value_word_gap(),
            AnyLanguage::Portuguese(l) => l.value_word_gap(),
            AnyLanguage::Romanian(l) => l.value_word_gap(),
            AnyLanguage::Russian(l) => l.value_word_gap(),
            AnyLanguage::Spanish(l) => l.value_word_gap(),
            AnyLanguage::Swedish(l) => l.value_word_gap(),
            AnyLanguage::Thai(l) => l.value_word_gap(),
            AnyLanguage::Turkish(l) => l.value_word_gap(),
            AnyLanguage::Ukrainian(l) => l.value_word_gap(),
        }
    }

    open spec fn chunk_gap(&self) -> Seq<char> {
        match self {
            AnyLanguage::English(l) => l.chunk_gap(),
            AnyLanguage::Basque(l) => l.chunk_gap(),
            AnyLanguage::Belarusian(l) => l.chunk_gap(),
            AnyLanguage::Chinese(l) => l.chunk_gap(),
            AnyLanguage::Danish(l) => l.chunk_gap(),
            AnyLanguage::French(l) => l.chunk_gap(),
            AnyLanguage::German(l) => l.chunk_gap(),
            AnyLanguage::Italian(l) => l.chunk_gap(),
            AnyLanguage::Japanese(l) => l.chunk_gap(),
            AnyLanguage::Korean(l) => l.chunk_gap(),
            AnyLanguage::Polish(l) => l.chunk_gap(),
            AnyLanguage::Portuguese(l) => l.chunk_gap(),
            AnyLanguage::Romanian(l) => l.chunk_gap(),
            AnyLanguage::Russian(l) => l.chunk_gap(),
            AnyLanguage::Spanish(l) => l.chunk_gap(),
            AnyLanguage::Swedish(l) => l.chunk_gap(),
            AnyLanguage::Thai(l) => l.chunk_gap(),
            AnyLanguage::Turkish(l) => l.chunk_gap(),
            AnyLanguage::Ukrainian(l) => l.chunk_gap(),
        }
    }

    open spec fn ago_gap(&self) -> Seq<char> {
        match self {
            AnyLanguage::English(l) => l.ago_gap(),
            AnyLanguage::Basque(l) => l.ago_gap(),
            AnyLanguage::Belarusian(l) => l.ago_gap(),
            AnyLanguage::Chinese(l) => l.ago_gap(),
            AnyLanguage::Danish(l) => l.ago_gap(),
            AnyLanguage::French(l) => l.ago_gap(),
            AnyLanguage::German(l) => l.ago_gap(),
            AnyLanguage::Italian(l) => l.ago_gap(),
            AnyLanguage::Japanese(l) => l.ago_gap(),
            AnyLanguage::Korean(l) => l.ago_gap(),
            AnyLanguage::Polish(l) => l.ago_gap(),
            AnyLanguage::Portuguese(l) => l.ago_gap(),
            AnyLanguage::Romanian(l) => l.ago_gap(),
            AnyLanguage::Russian(l) => l.ago_gap(),
            AnyLanguage::Spanish(l) => l.ago_gap(),
            AnyLanguage::Swedish(l) => l.ago_gap(),
            AnyLanguage::Thai(l) => l.ago_gap(),
            AnyLanguage::Turkish(l) => l.ago_gap(),
            AnyLanguage::Ukrainian(l) => l.ago_gap(),
        }
    }

    fn too_low(&self) -> (r: &'static str) {
        match self {
            AnyLanguage::English(l) => l.too_low(),
            AnyLanguage::Basque(l) => l.too_low(),
            AnyLanguage::Belarusian(l) => l.too_low(),
            AnyLanguage::Chinese(l) => l.too_low(),
            AnyLanguage::Danish(l) => l.too_low(),
            AnyLanguage::French(l) => l.too_low(),
            AnyLanguage::German(l) => l.too_low(),
            AnyLanguage::Italian(l) => l.too_low(),
            AnyLanguage::Japanese(l) => l.too_low(),
            AnyLanguage::Korean(l) => l.too_low(),
            AnyLanguage::Polish(l) => l.too_low(),
            AnyLanguage::Portuguese(l) => l.too_low(),
            AnyLanguage::Romanian(l) => l.too_low(),
            AnyLanguage::Russian(l) => l.too_low(),
            AnyLanguage::Spanish(l) => l.too_low(),
            AnyLanguage::Swedish(l) => l.too_low(),
            AnyLanguage::Thai(l) => l.too_low(),
            AnyLanguage::Turkish(l) => l.too_low(),
            AnyLanguage::Ukrainian(l) => l.too_low(),
        }
    }

    fn too_high(&self) -> (r: &'static str) {
        match self {
            AnyLanguage::English(l) => l.too_high(),
            AnyLanguage::Basque(l) => l.too_high(),
            AnyLanguage::Belarusian(l) => l.too_high(),
            AnyLanguage::Chinese(l) => l.too_high(),
            AnyLanguage::Danish(l) => l.too_high(),
            AnyLanguage::French(l) => l.too_high(),
            AnyLanguage::German(l) => l.too_high(),
            AnyLanguage::Italian(l) => l.too_high(),
            AnyLanguage::Japanese(l) => l.too_high(),
            AnyLanguage::Korean(l) => l.too_high(),
            AnyLanguage::Polish(l) => l.too_high(),
            AnyLanguage::Portuguese(l) => l.too_high(),
            AnyLanguage::Romanian(l) => l.too_high(),
            AnyLanguage::Russian(l) => l.too_high(),
            AnyLanguage::Spanish(l) => l.too_high(),
            AnyLanguage::Swedish(l) => l.too_high(),
            AnyLanguage::Thai(l) => l.too_high(),
            AnyLanguage::Turkish(l) => l.too_high(),
            AnyLanguage::Ukrainian(l) => l.too_high(),
        }
    }

    fn ago(&self) -> (r: &'static str) {
        match self {
            AnyLanguage::English(l) => l.ago(),
            AnyLanguage::Basque(l) => l.ago(),
            AnyLanguage::Belarusian(l) => l.ago(),
            AnyLanguage::Chinese(l) => l.ago(),
            AnyLanguage::Danish(l) => l.ago(),
            AnyLanguage::French(l) => l.ago(),
            AnyLanguage::German(l) => l.ago(),
            AnyLanguage::Italian(l) => l.ago(),
            AnyLanguage::Japanese(l) => l.ago(),
            AnyLanguage::Korean(l) => l.ago(),
            AnyLanguage::Polish(l) => l.ago(),
            AnyLanguage::Portuguese(l) => l.ago(),
            AnyLanguage::Romanian(l) => l.ago(),
            AnyLanguage::Russian(l) => l.ago(),
            AnyLanguage::Spanish(l) => l.ago(),
            AnyLanguage::Swedish(l) => l.ago(),
            AnyLanguage::Thai(l) => l.ago(),
            AnyLanguage::Turkish(l) => l.ago(),
            AnyLanguage::Ukrainian(l) => l.ago(),
        }
    }

    fn get_word(&self, tu: TimeUnit, x: u64) -> (r: &'static str) {
        match self {
            AnyLanguage::English(l) => l.get_word(tu, x),
            AnyLanguage::Basque(l) => l.get_word(tu, x),
            AnyLanguage::Belarusian(l) => l.get_word(tu, x),
            AnyLanguage::Chinese(l) => l.get_word(tu, x),
            AnyLanguage::Danish(l) => l.get_word(tu, x),
            AnyLanguage::French(l) => l.get_word(tu, x),
            AnyLanguage::German(l) => l.get_word(tu, x),
            AnyLanguage::Italian(l) => l.get_word(tu, x),
            AnyLanguage::Japanese(l) => l.get_word(tu, x),
            AnyLanguage::Korean(l) => l.get_word(tu, x),
            AnyLanguage::Polish(l) => l.get_word(tu, x),
            AnyLanguage::Portuguese(l) => l.get_word(tu, x),
            AnyLanguage::Romanian(l) => l.get_word(tu, x),
            AnyLanguage::Russian(l) => l.get_word(tu, x),
            AnyLanguage::Spanish(l) => l.get_word(tu, x),
            AnyLanguage::Swedish(l) => l.get_word(tu, x),
            AnyLanguage::Thai(l) => l.get_word(tu, x),
            AnyLanguage::Turkish(l) => l.get_word(tu, x),
            AnyLanguage::Ukrainian(l) => l.get_word(tu, x),
        }
    }

    fn place_ago_before(&self) -> (r: bool) {
        match self {
            AnyLanguage::English(l) => l.place_ago_before(),
            AnyLanguage::Basque(l) => l.place_ago_before(),
            AnyLanguage::Belarusian(l) => l.place_ago_before(),
            AnyLanguage::Chinese(l) => l.place_ago_before(),
            AnyLanguage::Danish(l) => l.place_ago_before(),
            AnyLanguage::French(l) => l.place_ago_before(),
            AnyLanguage::German(l) => l.place_ago_before(),
            AnyLanguage::Italian(l) => l.place_ago_before(),
            AnyLanguage::Japanese(l) => l.place_ago_before(),
            AnyLanguage::Korean(l) => l.place_ago_before(),
            AnyLanguage::Polish(l) => l.place_ago_before(),
            AnyLanguage::Portuguese(l) => l.place_ago_before(),
            AnyLanguage::Romanian(l) => l.place_ago_before(),
            AnyLanguage::Russian(l) => l.place_ago_before(),
            AnyLanguage::Spanish(l) => l.place_ago_before(),
            AnyLanguage::Swedish(l) => l.place_ago_before(),
            AnyLanguage::Thai(l) => l.place_ago_before(),
            AnyLanguage::Turkish(l) => l.place_ago_before(),
            AnyLanguage::Ukrainian(l) => l.place_ago_before(),
        }
    }

    fn place_unit_before(&self, x: u64) -> (r: bool) {
        match self {
            AnyLanguage::English(l) => l.place_unit_before(x),
            AnyLanguage::Basque(l) => l.place_unit_before(x),
            AnyLanguage::Belarusian(l) => l.place_unit_before(x),
            AnyLanguage::Chinese(l) => l.place_unit_before(x),
            AnyLanguage::Danish(l) => l.place_unit_before(x),
            AnyLanguage::French(l) => l.place_unit_before(x),
            AnyLanguage::German(l) => l.place_unit_before(x),
            AnyLanguage::Italian(l) => l.place_unit_before(x),
            AnyLanguage::Japanese(l) => l.place_unit_before(x),
            AnyLanguage::Korean(l) => l.place_unit_before(x),
            AnyLanguage::Polish(l) => l.place_unit_before(x),
            AnyLanguage::Portuguese(l) => l.place_unit_before(x),
            AnyLanguage::Romanian(l) => l.place_unit_before(x),
            AnyLanguage::Russian(l) => l.place_unit_before(x),
            AnyLanguage::Spanish(l) => l.place_unit_before(x),
            AnyLanguage::Swedish(l) => l.place_unit_before(x),
            AnyLanguage::Thai(l) => l.place_unit_before(x),
            AnyLanguage::Turkish(l) => l.place_unit_before(x),
            AnyLanguage::Ukrainian(l) => l.place_unit_before(x),
        }
    }

    fn between_value_and_word(&self) -> (r: &'static str) {
        match self {
            AnyLanguage::English(l) => l.between_value_and_word(),
            AnyLanguage::Basque(l) => l.between_value_and_word(),
            AnyLanguage::Belarusian(l) => l.between_value_and_word(),
            AnyLanguage::Chinese(l) => l.between_value_and_word(),
            AnyLanguage::Danish(l) => l.between_value_and_word(),
            AnyLanguage::French(l) => l.between_value_and_word(),
            AnyLanguage::German(l) => l.between_value_and_word(),
            AnyLanguage::Italian(l) => l.between_value_and_word(),
            AnyLanguage::Japanese(l) => l.between_value_and_word(),
            AnyLanguage::Korean(l) => l.between_value_and_word(),
            AnyLanguage::Polish(l) => l.between_value_and_word(),
            AnyLanguage::Portuguese(l) => l.between_value_and_word(),
            AnyLanguage::Romanian(l) => l.between_value_and_word(),
            AnyLanguage::Russian(l) => l.between_value_and_word(),
            AnyLanguage::Spanish(l) => l.between_value_and_word(),
            AnyLanguage::Swedish(l) => l.between_value_and_word(),
            AnyLanguage::Thai(l) => l.between_value_and_word(),
            AnyLanguage::Turkish(l) => l.between_value_and_word(),
            AnyLanguage::Ukrainian(l) => l.between_value_and_word(),
        }
    }

    fn between_chunks(&self) -> (r: &'static str) {
        match self {
            AnyLanguage::English(l) => l.between_chunks(),
            AnyLanguage::Basque(l) => l.between_chunks(),
            AnyLanguage::Belarusian(l) => l.between_chunks(),
            AnyLanguage::Chinese(l) => l.between_chunks(),
            AnyLanguage::Danish(l) => l.between_chunks(),
            AnyLanguage::French(l) => l.between_chunks(),
            AnyLanguage::German(l) => l.between_chunks(),
            AnyLanguage::Italian(l) => l.between_chunks(),
            AnyLanguage::Japanese(l) => l.between_chunks(),
            AnyLanguage::Korean(l) => l.between_chunks(),
            AnyLanguage::Polish(l) => l.between_chunks(),
            AnyLanguage::Portuguese(l) => l.between_chunks(),
            AnyLanguage::Romanian(l) => l.between_chunks(),
            AnyLanguage::Russian(l) => l.between_chunks(),
            AnyLanguage::Spanish(l) => l.between_chunks(),
            AnyLanguage::Swedish(l) => l.between_chunks(),
            AnyLanguage::Thai(l) => l.between_chunks(),
            AnyLanguage::Turkish(l) => l.between_chunks(),
            AnyLanguage::Ukrainian(l) => l.between_chunks(),
        }
    }

    fn extra_space(&self) -> (r: &'static str) {
        match self {
            AnyLanguage::English(l) => l.extra_space(),
            AnyLanguage::Basque(l) => l.extra_space(),
            AnyLanguage::Belarusian(l) => l.extra_space(),
            AnyLanguage::Chinese(l) => l.extra_space(),
            AnyLanguage::Danish(l) => l.extra_space(),
            AnyLanguage::French(l) => l.extra_space(),
            AnyLanguage::German(l) => l.extra_space(),
            AnyLanguage::Italian(l) => l.extra_space(),
            AnyLanguage::Japanese(l) => l.extra_space(),
            AnyLanguage::Korean(l) => l.extra_space(),
            AnyLanguage::Polish(l) => l.extra_space(),
            AnyLanguage::Portuguese(l) => l.extra_space(),
            AnyLanguage::Romanian(l) => l.extra_space(),
            AnyLanguage::Russian(l) => l.extra_space(),
            AnyLanguage::Spanish(l) => l.extra_space(),
            AnyLanguage::Swedish(l) => l.extra_space(),
            AnyLanguage::Thai(l) => l.extra_space(),
            AnyLanguage::Turkish(l) => l.extra_space(),
            AnyLanguage::Ukrainian(l) => l.extra_space(),
        }
    }
}

/// A language that can be turned into an [`AnyLanguage`] that gives the same
/// texts.
pub trait IntoAnyLanguage: Language {
    /// The same language as an [`AnyLanguage`].
    fn clone_boxed(&self) -> (r: AnyLanguage)
        ensures
            same_texts(&r, self),
    ;
}

impl IntoAnyLanguage for AnyLanguage {
    fn clone_boxed(&self) -> (r: AnyLanguage) {
        *self
    }
}

impl IntoAnyLanguage for English {
    fn clone_boxed(&self) -> (r: AnyLanguage) {
        AnyLanguage::English(*self)
    }
}

impl IntoAnyLanguage for Basque {
    fn clone_boxed(&self) -> (r: AnyLanguage) {
        AnyLanguage::Basque(*self)
    }
}

impl IntoAnyLanguage for Belarusian {
    fn clone_boxed(&self) -> (r: AnyLanguage) {
        AnyLanguage::Belarusian(*self)
    }
}

impl IntoAnyLanguage for Chinese {
    fn clone_boxed(&self) -> (r: AnyLanguage) {
        AnyLanguage::Chinese(*self)
    }
}

impl IntoAnyLanguage for Danish {
    fn clone_boxed(&self) -> (r: AnyLanguage) {
        AnyLanguage::Danish(*self)
    }
}

impl IntoAnyLanguage for French {
    fn clone_boxed(&self) -> (r: AnyLanguage) {
        AnyLanguage::French(*self)
    }
}

impl IntoAnyLanguage for German {
    fn clone_boxed(&self) -> (r: AnyLanguage) {
        AnyLanguage::German(*self)
    }
}

impl IntoAnyLanguage for Italian {
    fn clone_boxed(&self) -> (r: AnyLanguage) {
        AnyLanguage::Italian(*self)
    }
}

impl IntoAnyLanguage for Japanese {
    fn clone_boxed(&self) -> (r: AnyLanguage) {
        AnyLanguage::Japanese(*self)
    }
}

impl IntoAnyLanguage for Korean {
    fn clone_boxed(&self) -> (r: AnyLanguage) {
        AnyLanguage::Korean(*self)
    }
}

impl IntoAnyLanguage for Polish {
    fn clone_boxed(&self) -> (r: AnyLanguage) {
        AnyLanguage::Polish(*self)
    }
}

impl IntoAnyLanguage for Portuguese {
    fn clone_boxed(&self) -> (r: AnyLanguage) {
        AnyLanguage::Portuguese(*self)
    }
}

impl IntoAnyLanguage for Romanian {
    fn clone_boxed(&self) -> (r: AnyLanguage) {
        AnyLanguage::Romanian(*self)
    }
}

impl IntoAnyLanguage for Russian {
    fn clone_boxed(&self) -> (r: AnyLanguage) {
        AnyLanguage::Russian(*self)
    }
}

impl IntoAnyLanguage for Spanish {
    fn clone_boxed(&self) -> (r: AnyLanguage) {
        AnyLanguage::Spanish(*self)
    }
}

impl IntoAnyLanguage for Swedish {
    fn clone_boxed(&self) -> (r: AnyLanguage) {
        AnyLanguage::Swedish(*self)
    }
}

impl IntoAnyLanguage for Thai {
    fn clone_boxed(&self) -> (r: AnyLanguage) {
        AnyLanguage::Thai(*self)
    }
}

impl IntoAnyLanguage for Turkish {
    fn clone_boxed(&self) -> (r: AnyLanguage) {
        AnyLanguage::Turkish(*self)
    }
}

impl IntoAnyLanguage for Ukrainian {
    fn clone_boxed(&self) -> (r: AnyLanguage) {
        AnyLanguage::Ukrainian(*self)
    }
}

/// `x` as an [`AnyLanguage`], so that formatters of different languages
/// have one type.
pub fn boxup<L: IntoAnyLanguage>(x: L) -> (r: AnyLanguage)
    ensures
        same_texts(&r, &x),
{
    x.clone_boxed()
}

/// The language whose English name is `name`, if it comes with the library.
pub open spec fn language_named(name: Seq<char>) -> Option<AnyLanguage> {
    if name == "English"@ {
        Some(AnyLanguage::English(English))
    } else if name == "Basque"@ {
        Some(AnyLanguage::Basque(Basque))
    } else if name == "Belarusian"@ {
        Some(AnyLanguage::Belarusian(Belarusian))
    } else if name == "Chinese"@ {
        Some(AnyLanguage::Chinese(Chinese))
    } else if name == "Danish"@ {
        Some(AnyLanguage::Danish(Danish))
    } else if name == "French"@ {
        Some(AnyLanguage::French(French))
    } else if name == "German"@ {
        Some(AnyLanguage::German(German))
    } else if name == "Italian"@ {
        Some(AnyLanguage::Italian(Italian))
    } else if name == "Japanese"@ {
        Some(AnyLanguage::Japanese(Japanese))
    } else if name == "Korean"@ {
        Some(AnyLanguage::Korean(Korean))
    } else if name == "Polish"@ {
        Some(AnyLanguage::Polish(Polish))
    } else if name == "Portuguese"@ {
        Some(AnyLanguage::Portuguese(Portuguese))
    } else if name == "Romanian"@ {
        Some(AnyLanguage::Romanian(Romanian))
    } else if name == "Russian"@ {
        Some(AnyLanguage::Russian(Russian))
    } else if name == "Spanish"@ {
        Some(AnyLanguage::Spanish(Spanish))
    } else if name == "Swedish"@ {
        Some(AnyLanguage::Swedish(Swedish))
    } else if name == "Thai"@ {
        Some(AnyLanguage::Thai(Thai))
    } else if name == "Turkish"@ {
        Some(AnyLanguage::Turkish(Turkish))
    } else if name == "Ukrainian"@ {
        Some(AnyLanguage::Ukrainian(Ukrainian))
    } else {
        None
    }
}

fn same_str(a: &str, b: &str) -> (r: bool)
    ensures
        r == (a@ == b@),
{
    String::from_str(a) == String::from_str(b)
}

/// The language whose English name is `name` ("English", "Russian", ...), or
/// `None` for a language that does not come with the library.
pub fn from_name(name: &str) -> (r: Option<AnyLanguage>)
    ensures
        r == language_named(name@),
{
    if same_str(name, "English") {
        Some(AnyLanguage::English(English))
    } else if same_str(name, "Basque") {
        Some(AnyLanguage::Basque(Basque))
    } else if same_str(name, "Belarusian") {
        Some(AnyLanguage::Belarusian(Belarusian))
    } else if same_str(name, "Chinese") {
        Some(AnyLanguage::Chinese(Chinese))
    } else if same_str(name, "Danish") {
        Some(AnyLanguage::Danish(Danish))
    } else if same_str(name, "French") {
        Some(AnyLanguage::French(French))
    } else if same_str(name, "German") {
        Some(AnyLanguage::German(German))
    } else if same_str(name, "Italian") {
        Some(AnyLanguage::Italian(Italian))
    } else if same_str(name, "Japanese") {
        Some(AnyLanguage::Japanese(Japanese))
    } else if same_str(name, "Korean") {
        Some(AnyLanguage::Korean(Korean))
    } else if same_str(name, "Polish") {
        Some(AnyLanguage::Polish(Polish))
    } else if same_str(name, "Portuguese") {
        Some(AnyLanguage::Portuguese(Portuguese))
    } else if same_str(name, "Romanian") {
        Some(AnyLanguage::Romanian(Romanian))
    } else if same_str(name, "Russian") {
        Some(AnyLanguage::Russian(Russian))
    } else if same_str(name, "Spanish") {
        Some(AnyLanguage::Spanish(Spanish))
    } else if same_str(name, "Swedish") {
        Some(AnyLanguage::Swedish(Swedish))
    } else if same_str(name, "Thai") {
        Some(AnyLanguage::Thai(Thai))
    } else if same_str(name, "Turkish") {
        Some(AnyLanguage::Turkish(Turkish))
    } else if same_str(name, "Ukrainian") {
        Some(AnyLanguage::Ukrainian(Ukrainian))
    } else {
        None
    }
}

#[verifier::external_type_specification]
#[verifier::external_body]
pub struct ExIsolangLanguage(IsolangLanguage);

/// Relies on isolang's `Language::to_name`, which gives the language's English
/// name from its table; nothing is assumed of the name.
pub assume_specification[ IsolangLanguage::to_name ](lang: &IsolangLanguage) -> &'static str;

/// The language that comes with the library for an ISO 639 language, found
/// by its English name; `None` for any other language.
pub fn from_isolang(x: IsolangLanguage) -> (r: Option<AnyLanguage>)
    ensures
        exists|name: Seq<char>| r == language_named(name),
{
    let name = x.to_name();
    let r = from_name(name);
    assert(r == language_named(name@));
    r
}

} // verus!
