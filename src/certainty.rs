use vstd::prelude::*;
use crate::text::str_eq;

verus! {

/// How sure a heuristic is of a guess, from weakest to strongest.
#[derive(Clone, Copy, Debug, PartialEq, Eq, Structural, Hash)]
pub enum Certainty {
    Possible,
    Likely,
    Confident,
    Certain,
}

/// Position of a level on the scale; absence of a level is
/// `rank(None) == 0`, below every defined level.
pub open spec fn level_rank(c: Certainty) -> nat {
    match c {
        Certainty::Possible => 1,
        Certainty::Likely => 2,
        Certainty::Confident => 3,
        Certainty::Certain => 4,
    }
}

pub open spec fn rank(c: Option<Certainty>) -> nat {
    match c {
        Some(l) => level_rank(l),
        None => 0,
    }
}

/// The canonical text of a level.
pub open spec fn certainty_text(c: Certainty) -> Seq<char> {
    match c {
        Certainty::Possible => "possible"@,
        Certainty::Likely => "likely"@,
        Certainty::Confident => "confident"@,
        Certainty::Certain => "certain"@,
    }
}

/// The level whose canonical text is `s`, if any.
pub open spec fn certainty_of_text(s: Seq<char>) -> Option<Certainty> {
    if s == "possible"@ {
        Some(Certainty::Possible)
    } else if s == "likely"@ {
        Some(Certainty::Likely)
    } else if s == "confident"@ {
        Some(Certainty::Confident)
    } else if s == "certain"@ {
        Some(Certainty::Certain)
    } else {
        None
    }
}

pub open spec fn spec_le(a: Certainty, b: Certainty) -> bool {
    level_rank(a) <= level_rank(b)
}

impl Certainty {
    /// Reads a level from its canonical text.
    pub fn parse(s: &str) -> (r: Option<Certainty>)
        ensures
            r == certainty_of_text(s@),
    {
        if str_eq(s, "possible") {
            Some(Certainty::Possible)
        } else if str_eq(s, "likely") {
            Some(Certainty::Likely)
        } else if str_eq(s, "confident") {
            Some(Certainty::Confident)
        } else if str_eq(s, "certain") {
            Some(Certainty::Certain)
        } else {
            None
        }
    }

    /// The canonical text of this level.
    pub fn as_str(&self) -> (r: &'static str)
        ensures
            r@ == certainty_text(*self),
    {
        match self {
            Certainty::Possible => "possible",
            Certainty::Likely => "likely",
            Certainty::Confident => "confident",
            Certainty::Certain => "certain",
        }
    }

    pub fn to_text(&self) -> (r: String)
        ensures
            r@ == certainty_text(*self),
    {
        String::from_str(self.as_str())
    }

    pub fn rank(&self) -> (r: u8)
        ensures
            r as nat == level_rank(*self),
    {
        match self {
            Certainty::Possible => 1,
            Certainty::Likely => 2,
            Certainty::Confident => 3,
            Certainty::Certain => 4,
        }
    }

    /// Whether `self` is at most as strong as `other`.
    pub fn le(&self, other: &Certainty) -> (r: bool)
        ensures
            r == spec_le(*self, *other),
    {
        self.rank() <= other.rank()
    }
}

/// The rank of an optional level, absence counting as weakest.
pub fn rank_of(c: Option<Certainty>) -> (r: u8)
    ensures
        r as nat == rank(c),
{
    match c {
        Some(l) => l.rank(),
        None => 0,
    }
}

/// Rendering a level and reading it back gives the same level, and no
/// other level has the same text.
pub proof fn lemma_certainty_round_trip(c: Certainty)
    ensures
        certainty_of_text(certainty_text(c)) == Some(c),
{
    reveal_strlit("possible");
    reveal_strlit("likely");
    reveal_strlit("confident");
    reveal_strlit("certain");
    assert("possible"@.len() == 8);
    assert("likely"@.len() == 6);
    assert("confident"@.len() == 9);
    assert("certain"@.len() == 7);
}

/// The order on levels is total, antisymmetric and transitive.
pub proof fn lemma_certainty_order(a: Certainty, b: Certainty, c: Certainty)
    ensures
        spec_le(a, b) || spec_le(b, a),
        spec_le(a, b) && spec_le(b, a) ==> a == b,
        spec_le(a, b) && spec_le(b, c) ==> spec_le(a, c),
        spec_le(a, a),
{
}

} // verus!
