//! Formatting a chrono time delta.
use vstd::prelude::*;
use vstd::string::*;

use crate::duration::Duration;
use crate::formatter::Formatter;
use crate::language::Language;

verus! {

#[verifier::external_type_specification]
#[verifier::external_body]
pub struct ExTimeDelta(chrono::TimeDelta);

#[verifier::external_type_specification]
#[verifier::external_body]
pub struct ExOutOfRangeError(chrono::OutOfRangeError);

/// Relies on chrono's `TimeDelta::to_std`, which fails on a negative delta and
/// otherwise gives a `std::time::Duration`, whose nanosecond part is below one
/// second.
#[verifier::external_body]
fn delta_to_std(delta: &chrono::TimeDelta) -> (r: Result<Duration, chrono::OutOfRangeError>)
    ensures
        r matches Ok(d) ==> d.wf(),
{
    match delta.to_std() {
        Ok(d) => Ok(Duration { secs: d.as_secs(), nanos: d.subsec_nanos() }),
        Err(e) => Err(e),
    }
}

impl<L: Language> Formatter<L> {
    /// `convert` of a span that may be missing: "???" when it is.
    pub fn convert_span(&self, span: Option<Duration>) -> (r: String)
        requires
            self.wf(),
            span matches Some(d) ==> d.wf(),
        ensures
            r@ == match span {
                Some(d) => self.phrase(d),
                None => "???"@,
            },
    {
        match span {
            Some(d) => self.convert(d),
            None => String::from_str("???"),
        }
    }

    /// Formats a signed chrono time delta like `convert`; "???" when it is
    /// negative. The span is the plain length of the delta, not a calendar one.
    pub fn convert_delta(&self, delta: &chrono::TimeDelta) -> (r: String)
        requires
            self.wf(),
        ensures
            r@ == "???"@ || exists|d: Duration| d.wf() && r@ == self.phrase(d),
    {
        let span = match delta_to_std(delta) {
            Ok(d) => Some(d),
            Err(_) => None,
        };
        self.convert_span(span)
    }
}

} // verus!
