//! What a possible vulnerability looks like when it is reported: the
//! heading that introduces it and the colour it is shown in.

use vstd::prelude::*;
use vstd::string::StringExecFns;
use crate::criticity::Criticity;

verus! {

/// The colour in which a finding is shown.
#[derive(Debug, PartialEq, Eq, Structural, Copy, Clone)]
pub enum Tone {
    Cyan,
    Yellow,
    Red,
}

/// The colour of a finding of the given level; warnings are not shown.
pub open spec fn tone_of(c: Criticity) -> Option<Tone> {
    match c {
        Criticity::Warning => None,
        Criticity::Low => Some(Tone::Cyan),
        Criticity::Medium => Some(Tone::Yellow),
        Criticity::High => Some(Tone::Red),
        Criticity::Critical => Some(Tone::Red),
    }
}

/// The colour in which a possible vulnerability of level `c` is shown, or
/// `None` where such a finding is not shown at all.
pub fn vulnerability_tone(c: Criticity) -> (r: Option<Tone>)
    ensures
        r == tone_of(c),
{
    match c {
        Criticity::Warning => None,
        Criticity::Low => Some(Tone::Cyan),
        Criticity::Medium => Some(Tone::Yellow),
        Criticity::High | Criticity::Critical => Some(Tone::Red),
    }
}

/// The heading that introduces a possible vulnerability of level `c`.
pub fn vulnerability_heading(c: Criticity) -> (r: String)
    ensures
        r@ == "Possible "@ + c.label() + " criticity vulnerability found!:"@,
{
    let mut r = String::from_str("Possible ");
    r.append(c.as_str());
    r.append(" criticity vulnerability found!:");
    r
}

/// Only warnings go unreported, and the shown colour never gets milder as
/// the level rises.
pub proof fn only_warnings_are_silent(a: Criticity, b: Criticity)
    ensures
        tone_of(a) is None <==> a == Criticity::Warning,
        tone_of(a) == Some(Tone::Red) && a.rank() <= b.rank() ==> tone_of(b) == Some(Tone::Red),
        tone_of(a) == Some(Tone::Yellow) && a.rank() <= b.rank() ==> tone_of(b) != Some(
            Tone::Cyan,
        ),
{
}

} // verus!
