//! A fixed-width, English-only rendering of spans as five-character tokens,
//! and the older style-based entry point.
use vstd::prelude::*;
use vstd::string::*;

use crate::duration::Duration;
use crate::formatter::Formatter;
use crate::languages::english::English;
use crate::text::{decimal, push_decimal, two_digits};
use crate::time_unit::{TimeUnit, S_IN_MNTH};

verus! {

/// The five-character token for a span of `s` whole seconds.
pub open spec fn five_chars(s: u64) -> Seq<char> {
    if s == 0 {
        " now "@
    } else if s < 60 {
        two_digits(s as nat) + "sec"@
    } else if s < 3600 {
        two_digits((s / 60) as nat) + "min"@
    } else if s < 86400 {
        two_digits((s / 3600) as nat) + "hou"@
    } else if s < S_IN_MNTH {
        two_digits((s / 86400) as nat) + "day"@
    } else if s < 12 * S_IN_MNTH {
        two_digits((s / S_IN_MNTH) as nat) + "Mon"@
    } else if s <= 99 * 12 * S_IN_MNTH {
        two_digits(s as nat / (12 * S_IN_MNTH as nat)) + "Yea"@
    } else {
        " OLD "@
    }
}

/// A count below 100 takes exactly two characters.
proof fn lemma_two_digits_len(n: nat)
    requires
        n < 100,
    ensures
        two_digits(n).len() == 2,
{
    reveal_with_fuel(decimal, 2);
}

/// Appends `n` as two digits.
fn push_two_digits(out: &mut String, n: u64)
    requires
        n < 100,
    ensures
        final(out)@ == old(out)@ + two_digits(n as nat),
{
    if n < 10 {
        proof {
            reveal_strlit("0");
        }
        out.append("0");
    }
    push_decimal(out, n);
    assert(out@ =~= old(out)@ + two_digits(n as nat));
}

/// A short token like "02Yea", " now " or "07min", always five characters:
/// the span's whole seconds in the largest unit that fits, up to 99 years.
pub fn format_5chars(d: Duration) -> (r: String)
    ensures
        r@ == five_chars(d.secs),
        r@.len() == 5,
{
    let s = d.as_secs();
    proof {
        reveal_strlit(" now ");
        reveal_strlit(" OLD ");
        reveal_strlit("sec");
        reveal_strlit("min");
        reveal_strlit("hou");
        reveal_strlit("day");
        reveal_strlit("Mon");
        reveal_strlit("Yea");
    }
    if s == 0 {
        return String::from_str(" now ");
    }
    let (count, unit) = if s < 60 {
        (s, "sec")
    } else if s < 60 * 60 {
        (s / 60, "min")
    } else if s < 60 * 60 * 24 {
        (s / 3600, "hou")
    } else if s < S_IN_MNTH {
        (s / 86400, "day")
    } else if s < 12 * S_IN_MNTH {
        (s / S_IN_MNTH, "Mon")
    } else if s <= 99 * 12 * S_IN_MNTH {
        (s / (12 * S_IN_MNTH), "Yea")
    } else {
        return String::from_str(" OLD ");
    };
    let mut out = String::new();
    push_two_digits(&mut out, count);
    out.append(unit);
    proof {
        lemma_two_digits_len(count as nat);
    }
    assert(out@ =~= five_chars(s));
    out
}

/// The formatting styles of [`format`].
#[allow(non_camel_case_types)]
#[derive(Debug, Clone, Copy, PartialEq, Eq, Structural)]
pub enum Style {
    /// Long format, like "2 years ago", down to nanoseconds.
    LONG,
    /// Like `LONG` down to seconds, with "just now" below one second.
    HUMAN,
    /// Short format, like "02Yea"; always five characters.
    SHORT,
}

/// The English formatter down to nanoseconds.
pub open spec fn long_formatter() -> Formatter<English> {
    Formatter { min_unit: TimeUnit::Nanoseconds, ..Formatter::<English>::initial(English) }
}

/// What [`format`] gives for `d` in `style`.
pub open spec fn styled(d: Duration, style: Style) -> Seq<char> {
    match style {
        Style::LONG => long_formatter().phrase(d),
        Style::HUMAN => {
            let p = Formatter::<English>::initial(English).phrase(d);
            if p == "now"@ {
                "just now"@
            } else {
                p
            }
        },
        Style::SHORT => five_chars(d.secs),
    }
}

/// Formats `d` in one of the fixed styles: `LONG` and `HUMAN` go through an
/// English [`Formatter`], `SHORT` through [`format_5chars`].
pub fn format(d: Duration, style: Style) -> (r: String)
    requires
        d.wf(),
    ensures
        r@ == styled(d, style),
{
    match style {
        Style::LONG => {
            let mut f = Formatter::new();
            f.min_unit(TimeUnit::Nanoseconds);
            f.convert(d)
        },
        Style::HUMAN => {
            let ret = Formatter::new().convert(d);
            if ret == String::from_str("now") {
                String::from_str("just now")
            } else {
                ret
            }
        },
        Style::SHORT => format_5chars(d),
    }
}

} // verus!
