//! Severity levels of findings: their order, their names and how a name is
//! read back.

use vstd::prelude::*;
use vstd::string::StringExecFns;
use vstd::std_specs::cmp::PartialOrdSpec;
use std::cmp::Ordering;
use crate::error::Error;
use crate::text::{ascii_lower, ascii_lower_char, to_ascii_lower};

verus! {

/// How serious a finding is, from the least to the most serious.
#[derive(Debug, PartialEq, Eq, Structural, Ord, Copy, Clone)]
pub enum Criticity {
    Warning,
    Low,
    Medium,
    High,
    Critical,
}

impl Criticity {
    /// The place of the level in the order of seriousness, from 0 for a
    /// warning to 4 for a critical finding.
    pub open spec fn rank(self) -> nat {
        match self {
            Criticity::Warning => 0,
            Criticity::Low => 1,
            Criticity::Medium => 2,
            Criticity::High => 3,
            Criticity::Critical => 4,
        }
    }

    /// The lower case name of the level.
    pub open spec fn label(self) -> Seq<char> {
        match self {
            Criticity::Warning => "warning"@,
            Criticity::Low => "low"@,
            Criticity::Medium => "medium"@,
            Criticity::High => "high"@,
            Criticity::Critical => "critical"@,
        }
    }

    fn level(&self) -> (r: u8)
        ensures
            r == self.rank(),
    {
        match self {
            Criticity::Warning => 0,
            Criticity::Low => 1,
            Criticity::Medium => 2,
            Criticity::High => 3,
            Criticity::Critical => 4,
        }
    }

    /// The lower case name of the level, as it is shown and serialised.
    pub fn as_str(&self) -> (r: &'static str)
        ensures
            r@ == self.label(),
    {
        match self {
            Criticity::Warning => "warning",
            Criticity::Low => "low",
            Criticity::Medium => "medium",
            Criticity::High => "high",
            Criticity::Critical => "critical",
        }
    }

    /// The level whose name is `s`, ignoring ASCII case. No character other
    /// than an ASCII letter has one of the letters of these names as its
    /// lower case form, so this is also the match of full Unicode lower
    /// casing against the names. Any other text is a parse error.
    pub fn parse(s: &str) -> (r: Result<Criticity, Error>)
        ensures
            match named_level(s@) {
                Some(c) => r == Ok::<Criticity, Error>(c),
                None => r matches Err(Error::ParseError),
            },
    {
        let lower = to_ascii_lower(s);
        if lower == String::from_str("critical") {
            Ok(Criticity::Critical)
        } else if lower == String::from_str("high") {
            Ok(Criticity::High)
        } else if lower == String::from_str("medium") {
            Ok(Criticity::Medium)
        } else if lower == String::from_str("low") {
            Ok(Criticity::Low)
        } else if lower == String::from_str("warning") {
            Ok(Criticity::Warning)
        } else {
            Err(Error::ParseError)
        }
    }
}

/// The level named by a text, ignoring ASCII case, if any.
pub open spec fn named_level(s: Seq<char>) -> Option<Criticity> {
    let l = ascii_lower(s);
    if l == "critical"@ {
        Some(Criticity::Critical)
    } else if l == "high"@ {
        Some(Criticity::High)
    } else if l == "medium"@ {
        Some(Criticity::Medium)
    } else if l == "low"@ {
        Some(Criticity::Low)
    } else if l == "warning"@ {
        Some(Criticity::Warning)
    } else {
        None
    }
}

impl std::str::FromStr for Criticity {
    type Err = Error;

    /// The level whose name is `s`, ignoring ASCII case; any other text is a
    /// parse error.
    fn from_str(s: &str) -> (r: std::result::Result<Criticity, Error>)
        ensures
            match named_level(s@) {
                Some(c) => r == Ok::<Criticity, Error>(c),
                None => r matches Err(Error::ParseError),
            },
    {
        Criticity::parse(s)
    }
}

impl PartialOrd for Criticity {
    fn partial_cmp(&self, other: &Criticity) -> (r: Option<Ordering>) {
        let a = self.level();
        let b = other.level();
        if a < b {
            Some(Ordering::Less)
        } else if a > b {
            Some(Ordering::Greater)
        } else {
            Some(Ordering::Equal)
        }
    }
}

impl vstd::std_specs::cmp::PartialOrdSpecImpl for Criticity {
    open spec fn obeys_partial_cmp_spec() -> bool {
        true
    }

    open spec fn partial_cmp_spec(&self, other: &Criticity) -> Option<Ordering> {
        if self.rank() < other.rank() {
            Some(Ordering::Less)
        } else if self.rank() > other.rank() {
            Some(Ordering::Greater)
        } else {
            Some(Ordering::Equal)
        }
    }
}

/// Folding ASCII case twice is the same as folding it once.
proof fn ascii_lower_idempotent(s: Seq<char>)
    ensures
        ascii_lower(ascii_lower(s)) == ascii_lower(s),
{
    assert forall|i: int| 0 <= i < s.len() implies ascii_lower_char(ascii_lower_char(s[i]))
        == ascii_lower_char(s[i]) by {}
    assert(ascii_lower(ascii_lower(s)) =~= ascii_lower(s));
}

/// Reading the name of a level gives that level back.
pub proof fn parse_reads_back_name(c: Criticity)
    ensures
        named_level(c.label()) == Some(c),
{
    reveal_strlit("warning");
    reveal_strlit("low");
    reveal_strlit("medium");
    reveal_strlit("high");
    reveal_strlit("critical");
    let l = c.label();
    assert(ascii_lower(l) =~= l);
}

/// Whether and how a text names a level does not depend on the ASCII case
/// of its letters.
pub proof fn parse_ignores_ascii_case(s: Seq<char>)
    ensures
        named_level(ascii_lower(s)) == named_level(s),
{
    ascii_lower_idempotent(s);
}

/// Two levels compare as their ranks do: the order of seriousness is
/// warning, low, medium, high, critical, and it is total.
pub proof fn order_follows_rank(a: Criticity, b: Criticity)
    ensures
        a.partial_cmp_spec(&b) == Some(Ordering::Less) <==> a.rank() < b.rank(),
        a.partial_cmp_spec(&b) == Some(Ordering::Greater) <==> b.rank() < a.rank(),
        a.partial_cmp_spec(&b) == Some(Ordering::Equal) <==> a == b,
        a.partial_cmp_spec(&b) is Some,
{
}

/// Each level is less serious than the next one.
pub proof fn order_ascends()
    ensures
        Criticity::Warning.partial_cmp_spec(&Criticity::Low) == Some(Ordering::Less),
        Criticity::Low.partial_cmp_spec(&Criticity::Medium) == Some(Ordering::Less),
        Criticity::Medium.partial_cmp_spec(&Criticity::High) == Some(Ordering::Less),
        Criticity::High.partial_cmp_spec(&Criticity::Critical) == Some(Ordering::Less),
{
}

} // verus!
