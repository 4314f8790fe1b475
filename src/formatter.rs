//! The configurable formatter: splits a span into at most a configured number
//! of "count unit" chunks and lays them out with the language's connector.
use vstd::prelude::*;
use vstd::string::*;

use crate::duration::Duration;
use crate::language::Language;
use crate::languages::english::English;
use crate::split::{split_spec, split_up};
use crate::text::{decimal, lemma_decimal_nonempty, push_decimal};
use crate::time_unit::{
    dominant_time_unit,
    dominant_unit,
    lemma_rank_injective,
    lemma_scale_steps,
    TimeUnit,
};

verus! {

/// What to show for a span too short for the smallest allowed unit.
#[derive(Debug, Clone, Copy)]
pub enum TooLow {
    /// The language's own phrase, such as "now".
    LanguageDefault,
    /// A fixed phrase, shown as it is, with no connector.
    Phrase(&'static str),
    /// A zero count of the smallest allowed unit, such as "0 minutes ago".
    ZeroChunk,
}

/// Formats spans as phrases like "5 days ago". Build it with `new` or
/// `with_language`, adjust it with the setters, then call `convert`.
#[derive(Debug, Clone)]
pub struct Formatter<L: Language = English> {
    /// The language of the words.
    pub lang: L,
    /// The most chunks to emit ("1 hour" is one, "1 hour 3 minutes" two).
    pub num_items: usize,
    /// The smallest unit that may be shown.
    pub min_unit: TimeUnit,
    /// The largest unit that may be shown.
    pub max_unit: TimeUnit,
    /// What to show for a span too short for `min_unit`.
    pub too_low: TooLow,
    /// A phrase to show instead of the language's one for a span above
    /// `max_duration`.
    pub too_high: Option<&'static str>,
    /// A connector to use instead of the language's one.
    pub ago: Option<&'static str>,
    /// The longest span that is shown in units.
    pub max_duration: Duration,
}

impl Default for Formatter {
    fn default() -> (r: Self)
        ensures
            r.wf(),
            r == Formatter::<English>::initial(English),
    {
        Self::new()
    }
}

impl Formatter {
    /// A formatter for English that emits one chunk, shows seconds and above,
    /// and has no ceiling.
    pub fn new() -> (r: Formatter)
        ensures
            r.wf(),
            r == Formatter::<English>::initial(English),
    {
        Formatter::with_language(English)
    }
}

impl<L: Language> Formatter<L> {
    /// The configuration that `with_language(l)` makes.
    pub open spec fn initial(l: L) -> Formatter<L> {
        Formatter {
            lang: l,
            num_items: 1,
            min_unit: TimeUnit::Seconds,
            max_unit: TimeUnit::Years,
            too_low: TooLow::LanguageDefault,
            too_high: None,
            ago: None,
            max_duration: Duration { secs: u64::MAX, nanos: 999_999_999 },
        }
    }

    /// At least one chunk is asked for, and the ceiling is a well-formed span.
    pub open spec fn wf(&self) -> bool {
        self.num_items >= 1 && self.max_duration.wf()
    }

    /// `u` moved into the window of allowed units: down to `max_unit` when
    /// above it, then up to `min_unit` when below it.
    pub open spec fn clamp(&self, u: TimeUnit) -> TimeUnit {
        let v = if u.rank() > self.max_unit.rank() {
            self.max_unit
        } else {
            u
        };
        if v.rank() < self.min_unit.rank() {
            self.min_unit
        } else {
            v
        }
    }

    /// The (count, unit) chunks for `d`, at most `items_left` of them. Each
    /// takes the clamped dominant unit of what is left; the list ends at the
    /// first zero count.
    pub open spec fn plan(&self, d: Duration, items_left: nat) -> Seq<(u64, TimeUnit)>
        decreases items_left,
    {
        if items_left == 0 {
            seq![]
        } else {
            let u = self.clamp(dominant_unit(d.total()));
            let c = split_spec(d, u).0;
            let rem = split_spec(d, u).1;
            if c == 0 {
                seq![]
            } else {
                seq![(c, u)] + self.plan(rem, (items_left - 1) as nat)
            }
        }
    }

    /// One chunk: the count `x` and the word for it, in the language's order.
    pub open spec fn chunk_text(&self, x: u64, u: TimeUnit) -> Seq<char> {
        let word = self.lang.unit_word(u, x);
        if self.lang.unit_first(x) {
            word + self.lang.value_word_gap() + decimal(x as nat)
        } else {
            decimal(x as nat) + self.lang.value_word_gap() + word
        }
    }

    /// The chunks, joined by the language's separator.
    pub open spec fn render(&self, chunks: Seq<(u64, TimeUnit)>) -> Seq<char>
        decreases chunks.len(),
    {
        if chunks.len() == 0 {
            seq![]
        } else if chunks.len() == 1 {
            self.chunk_text(chunks[0].0, chunks[0].1)
        } else {
            self.chunk_text(chunks[0].0, chunks[0].1) + self.lang.chunk_gap() + self.render(
                chunks.drop_first(),
            )
        }
    }

    /// The connector in use.
    pub open spec fn connector(&self) -> Seq<char> {
        match self.ago {
            Some(a) => a@,
            None => self.lang.ago_word(),
        }
    }

    /// `body` with the connector placed as the language places it; an empty
    /// connector leaves `body` alone.
    pub open spec fn with_connector(&self, body: Seq<char>) -> Seq<char> {
        let ago = self.connector();
        if ago.len() == 0 {
            body
        } else if self.lang.ago_first() {
            ago + self.lang.ago_gap() + body
        } else {
            body + self.lang.ago_gap() + ago
        }
    }

    /// The phrase for a span above the ceiling.
    pub open spec fn too_high_text(&self) -> Seq<char> {
        match self.too_high {
            Some(t) => t@,
            None => self.lang.too_high_phrase(),
        }
    }

    /// The phrase that `convert` gives for `d`.
    pub open spec fn phrase(&self, d: Duration) -> Seq<char> {
        if d.total() > self.max_duration.total() {
            self.too_high_text()
        } else {
            let chunks = self.plan(d, self.num_items as nat);
            if chunks.len() > 0 {
                self.with_connector(self.render(chunks))
            } else {
                match self.too_low {
                    TooLow::LanguageDefault => self.lang.too_low_phrase(),
                    TooLow::Phrase(p) => p@,
                    TooLow::ZeroChunk => self.with_connector(self.chunk_text(0, self.min_unit)),
                }
            }
        }
    }

    /// A formatter for the language `l` that emits one chunk, shows seconds
    /// and above, and has no ceiling.
    pub fn with_language(l: L) -> (r: Self)
        ensures
            r.wf(),
            r == Self::initial(l),
    {
        Formatter {
            lang: l,
            num_items: 1,
            min_unit: TimeUnit::Seconds,
            max_unit: TimeUnit::Years,
            too_low: TooLow::LanguageDefault,
            too_high: None,
            ago: None,
            max_duration: Duration { secs: u64::MAX, nanos: 999_999_999 },
        }
    }

    /// Sets how many chunks to emit at most ("1 year" is one, "1 year 3
    /// months 17 days" three). Zero chunks such as "0 minutes" are never
    /// emitted, except with the zero-chunk too-low mode.
    pub fn num_items(&mut self, x: usize) -> (r: &mut Self)
        requires
            x > 0,
        ensures
            *r == (Formatter { num_items: x, ..*old(self) }),
            *final(self) == *final(r),
    {
        self.num_items = x;
        self
    }

    /// Sets the largest unit to show; not to be confused with `max_duration`.
    pub fn max_unit(&mut self, x: TimeUnit) -> (r: &mut Self)
        ensures
            *r == (Formatter { max_unit: x, ..*old(self) }),
            *final(self) == *final(r),
    {
        self.max_unit = x;
        self
    }

    /// Sets the smallest unit to show. Spans shorter than one such unit give
    /// the too-low text; with several chunks it also limits the precision.
    pub fn min_unit(&mut self, x: TimeUnit) -> (r: &mut Self)
        ensures
            *r == (Formatter { min_unit: x, ..*old(self) }),
            *final(self) == *final(r),
    {
        self.min_unit = x;
        self
    }

    /// Sets what to show instead of the language's "now" for too short
    /// spans. The text "0" asks for a zero chunk of the smallest unit, such as
    /// "0 days ago"; any other text is shown as it is.
    pub fn too_low(&mut self, x: &'static str) -> (r: &mut Self)
        ensures
            *r == (Formatter {
                too_low: if x@ == "0"@ {
                    TooLow::ZeroChunk
                } else {
                    TooLow::Phrase(x)
                },
                ..*old(self)
            }),
            *final(self) == *final(r),
    {
        proof {
            reveal_strlit("0");
        }
        if x.unicode_len() == 1 && x.get_char(0) == '0' {
            assert(x@ =~= "0"@);
            self.too_low = TooLow::ZeroChunk;
        } else {
            self.too_low = TooLow::Phrase(x);
        }
        self
    }

    /// Sets what to show instead of the language's "old" for spans above
    /// `max_duration`.
    pub fn too_high(&mut self, x: &'static str) -> (r: &mut Self)
        ensures
            *r == (Formatter { too_high: Some(x), ..*old(self) }),
            *final(self) == *final(r),
    {
        self.too_high = Some(x);
        self
    }

    /// Sets the longest span shown in units; longer ones give the too-high
    /// text.
    pub fn max_duration(&mut self, x: Duration) -> (r: &mut Self)
        requires
            x.wf(),
        ensures
            *r == (Formatter { max_duration: x, ..*old(self) }),
            *final(self) == *final(r),
    {
        self.max_duration = x;
        self
    }

    /// Sets the connector to use instead of the language's "ago"; an empty
    /// one is left out together with its space.
    pub fn ago(&mut self, x: &'static str) -> (r: &mut Self)
        ensures
            *r == (Formatter { ago: Some(x), ..*old(self) }),
            *final(self) == *final(r),
    {
        self.ago = Some(x);
        self
    }

    /// The clamped dominant unit of `d`.
    fn unit_for(&self, d: Duration) -> (r: TimeUnit)
        requires
            d.wf(),
        ensures
            r == self.clamp(dominant_unit(d.total())),
    {
        let mut dtu = dominant_time_unit(d);
        let ghost first = dtu;
        while dtu.ordinal() > self.max_unit.ordinal()
            invariant
                first.rank() > self.max_unit.rank() ==> dtu.rank() >= self.max_unit.rank(),
                first.rank() <= self.max_unit.rank() ==> dtu == first,
            decreases dtu.rank(),
        {
            proof {
                lemma_scale_steps(dtu);
            }
            dtu = dtu.smaller_unit().unwrap();
        }
        proof {
            lemma_rank_injective(dtu, self.max_unit);
        }
        let ghost mid = dtu;
        while dtu.ordinal() < self.min_unit.ordinal()
            invariant
                mid.rank() < self.min_unit.rank() ==> dtu.rank() <= self.min_unit.rank(),
                mid.rank() >= self.min_unit.rank() ==> dtu == mid,
            decreases self.min_unit.rank() - dtu.rank(),
        {
            proof {
                lemma_scale_steps(dtu);
            }
            dtu = dtu.bigger_unit().unwrap();
        }
        proof {
            lemma_rank_injective(dtu, self.min_unit);
        }
        dtu
    }

    /// Appends the chunk for `x` of unit `u` to `out`.
    fn push_chunk(&self, out: &mut String, x: u64, u: TimeUnit)
        ensures
            final(out)@ == old(out)@ + self.chunk_text(x, u),
    {
        let word = self.lang.get_word(u, x);
        let gap = self.lang.between_value_and_word();
        if self.lang.place_unit_before(x) {
            out.append(word);
            out.append(gap);
            push_decimal(out, x);
        } else {
            push_decimal(out, x);
            out.append(gap);
            out.append(word);
        }
        assert(out@ =~= old(out)@ + self.chunk_text(x, u));
    }

    /// Rendered chunks are empty exactly when there are none.
    proof fn lemma_render_empty(&self, chunks: Seq<(u64, TimeUnit)>)
        ensures
            (self.render(chunks).len() == 0) == (chunks.len() == 0),
    {
        if chunks.len() > 0 {
            lemma_decimal_nonempty(chunks[0].0 as nat);
        }
    }

    /// The chunks for `d`, at most `items_left` of them, joined.
    fn convert_impl(&self, d: Duration, items_left: usize) -> (r: String)
        requires
            d.wf(),
        ensures
            r@ == self.render(self.plan(d, items_left as nat)),
        decreases items_left,
    {
        if items_left == 0 {
            return String::new();
        }
        let dtu = self.unit_for(d);
        let (x, rem) = split_up(d, dtu);
        if x == 0 {
            return String::new();
        }
        let recurse_result = self.convert_impl(rem, items_left - 1);
        let mut ret = String::new();
        self.push_chunk(&mut ret, x, dtu);
        let ghost tail = self.plan(rem, (items_left - 1) as nat);
        let ghost chunks = self.plan(d, items_left as nat);
        assert(chunks == seq![(x, dtu)] + tail);
        assert(chunks.drop_first() =~= tail);
        proof {
            self.lemma_render_empty(tail);
        }
        if !recurse_result.as_str().is_empty() {
            ret.append(self.lang.between_chunks());
            ret.append(recurse_result.as_str());
        }
        assert(ret@ =~= self.render(chunks));
        ret
    }

    /// The phrase for `d`: the too-high phrase above the ceiling; otherwise at
    /// most `num_items` chunks with the connector, or, when no chunk can be
    /// shown, the too-low phrase or a zero chunk.
    pub fn convert(&self, d: Duration) -> (r: String)
        requires
            self.wf(),
            d.wf(),
        ensures
            r@ == self.phrase(d),
    {
        if d.exceeds(&self.max_duration) {
            let t = match self.too_high {
                Some(t) => t,
                None => self.lang.too_high(),
            };
            return String::from_str(t);
        }
        let chunks = self.convert_impl(d, self.num_items);
        proof {
            self.lemma_render_empty(self.plan(d, self.num_items as nat));
        }
        let mut ret = String::new();
        if chunks.as_str().is_empty() {
            match self.too_low {
                TooLow::LanguageDefault => {
                    return String::from_str(self.lang.too_low());
                },
                TooLow::Phrase(p) => {
                    return String::from_str(p);
                },
                TooLow::ZeroChunk => {
                    self.push_chunk(&mut ret, 0, self.min_unit);
                },
            }
        } else {
            ret = chunks;
        }
        let ago = match self.ago {
            Some(a) => a,
            None => self.lang.ago(),
        };
        if ago.is_empty() {
            ret
        } else if !self.lang.place_ago_before() {
            ret.append(self.lang.extra_space());
            ret.append(ago);
            assert(ret@ =~= self.phrase(d));
            ret
        } else {
            let mut out = String::from_str(ago);
            out.append(self.lang.extra_space());
            out.append(ret.as_str());
            assert(out@ =~= self.phrase(d));
            out
        }
    }
}

/// A plan for `items_left` chunks holds at most that many, and each has a
/// non-zero count.
pub proof fn lemma_plan_bound<L: Language>(f: Formatter<L>, d: Duration, items_left: nat)
    ensures
        f.plan(d, items_left).len() <= items_left,
        forall|i: int|
            0 <= i < f.plan(d, items_left).len() ==> #[trigger] f.plan(d, items_left)[i].0 > 0,
    decreases items_left,
{
    if items_left > 0 {
        let u = f.clamp(dominant_unit(d.total()));
        let rem = split_spec(d, u).1;
        lemma_plan_bound(f, rem, (items_left - 1) as nat);
    }
}

/// A phrase never holds more "count word" chunks than the formatter's
/// `num_items`: below the ceiling it is either the chunk list of `plan`, of
/// at most `num_items` entries with non-zero counts, or, when that list is
/// empty, a fixed phrase or a single zero chunk.
pub proof fn lemma_chunk_count_bound<L: Language>(f: Formatter<L>, d: Duration)
    requires
        f.wf(),
        d.wf(),
        d.total() <= f.max_duration.total(),
    ensures
        f.plan(d, f.num_items as nat).len() <= f.num_items,
        forall|i: int|
            0 <= i < f.plan(d, f.num_items as nat).len() ==> #[trigger] f.plan(
                d,
                f.num_items as nat,
            )[i].0 > 0,
        f.plan(d, f.num_items as nat).len() > 0 ==> f.phrase(d) == f.with_connector(
            f.render(f.plan(d, f.num_items as nat)),
        ),
        f.plan(d, f.num_items as nat).len() == 0 ==> f.phrase(d) == match f.too_low {
            TooLow::LanguageDefault => f.lang.too_low_phrase(),
            TooLow::Phrase(p) => p@,
            TooLow::ZeroChunk => f.with_connector(f.chunk_text(0, f.min_unit)),
        },
{
    lemma_plan_bound(f, d, f.num_items as nat);
}

/// A zero span shows the language's too-low phrase (English "now") whenever
/// no other too-low text is configured; in particular with the default
/// configuration.
pub proof fn lemma_zero_is_too_low<L: Language>(f: Formatter<L>)
    requires
        f.wf(),
        f.too_low is LanguageDefault,
    ensures
        f.phrase(Duration { secs: 0, nanos: 0 }) == f.lang.too_low_phrase(),
        Formatter::<L>::initial(f.lang).phrase(Duration { secs: 0, nanos: 0 })
            == f.lang.too_low_phrase(),
{
    let z = Duration { secs: 0, nanos: 0 };
    let u = f.clamp(dominant_unit(z.total()));
    assert(split_spec(z, u).0 == 0);
    assert(f.plan(z, f.num_items as nat) =~= seq![]);
    let g = Formatter::<L>::initial(f.lang);
    let v = g.clamp(dominant_unit(z.total()));
    assert(split_spec(z, v).0 == 0);
    assert(g.plan(z, g.num_items as nat) =~= seq![]);
}

/// A span above the configured ceiling shows exactly the too-high text (the
/// configured one, else the language's), whatever the other settings.
pub proof fn lemma_too_high_ceiling<L: Language>(f: Formatter<L>, d: Duration)
    requires
        f.max_duration.total() < d.total(),
    ensures
        f.phrase(d) == f.too_high_text(),
        f.too_high matches Some(t) ==> f.phrase(d) == t@,
        f.too_high is None ==> f.phrase(d) == f.lang.too_high_phrase(),
{
}

} // verus!
