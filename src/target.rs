use vstd::prelude::*;

verus! {

/// `suffix` is a suffix of `s`, compared character by character.
pub open spec fn has_suffix(s: Seq<char>, suffix: Seq<char>) -> bool {
    suffix.len() <= s.len() && s.subrange(s.len() - suffix.len(), s.len() as int) == suffix
}

/// Which of the suffixes of a target an address ended with.
#[derive(Clone, Copy, Debug, PartialEq, Eq, Structural)]
pub enum Alternative {
    First,
    Second,
}

/// What a search must find: an address that ends with one suffix, or with
/// either of two.
#[derive(Clone, Debug)]
pub enum MatchTarget {
    Suffix(String),
    AnyOfSuffixes(String, String),
}

impl MatchTarget {
    /// The alternative that `address` satisfies; with two suffixes the first
    /// one is tried first.
    pub open spec fn spec_match(&self, address: Seq<char>) -> Option<Alternative> {
        match self {
            MatchTarget::Suffix(s) => if has_suffix(address, s@) {
                Some(Alternative::First)
            } else {
                None
            },
            MatchTarget::AnyOfSuffixes(a, b) => if has_suffix(address, a@) {
                Some(Alternative::First)
            } else if has_suffix(address, b@) {
                Some(Alternative::Second)
            } else {
                None
            },
        }
    }

    /// The suffix that stands for `alt` in this target.
    pub open spec fn suffix_of(&self, alt: Alternative) -> Seq<char> {
        match (self, alt) {
            (MatchTarget::Suffix(s), _) => s@,
            (MatchTarget::AnyOfSuffixes(a, _), Alternative::First) => a@,
            (MatchTarget::AnyOfSuffixes(_, b), Alternative::Second) => b@,
        }
    }

    /// The suffix that stands for `alt` in this target.
    pub fn suffix(&self, alt: Alternative) -> (r: &String)
        ensures
            r@ == self.suffix_of(alt),
    {
        match (self, alt) {
            (MatchTarget::Suffix(s), _) => s,
            (MatchTarget::AnyOfSuffixes(a, _), Alternative::First) => a,
            (MatchTarget::AnyOfSuffixes(_, b), Alternative::Second) => b,
        }
    }

    /// Tests `address` against the target and reports which alternative
    /// matched.
    pub fn evaluate(&self, address: &str) -> (r: Option<Alternative>)
        ensures
            r == self.spec_match(address@),
    {
        match self {
            MatchTarget::Suffix(s) => {
                if ends_with(address, s.as_str()) {
                    Some(Alternative::First)
                } else {
                    None
                }
            },
            MatchTarget::AnyOfSuffixes(a, b) => {
                if ends_with(address, a.as_str()) {
                    Some(Alternative::First)
                } else if ends_with(address, b.as_str()) {
                    Some(Alternative::Second)
                } else {
                    None
                }
            },
        }
    }

    /// Whether `address` satisfies the target at all.
    pub fn is_match(&self, address: &str) -> (r: bool)
        ensures
            r == self.spec_match(address@).is_some(),
    {
        self.evaluate(address).is_some()
    }
}

/// Whether `s` ends with `suffix`, character for character.
pub fn ends_with(s: &str, suffix: &str) -> (r: bool)
    ensures
        r == has_suffix(s@, suffix@),
{
    let n = s.unicode_len();
    let m = suffix.unicode_len();
    if m > n {
        return false;
    }
    let off: usize = n - m;
    let mut i: usize = 0;
    while i < m
        invariant
            n == s@.len(),
            m == suffix@.len(),
            m <= n,
            off == n - m,
            i <= m,
            forall|j: int| 0 <= j < i ==> s@[off + j] == suffix@[j],
        decreases m - i,
    {
        if s.get_char(off + i) != suffix.get_char(i) {
            assert(s@.subrange(off as int, n as int)[i as int] != suffix@[i as int]);
            return false;
        }
        i = i + 1;
    }
    assert(s@.subrange(off as int, n as int) =~= suffix@);
    true
}

/// Evaluating a target on an address depends on the two alone: asking twice
/// gives the same answer.
pub proof fn lemma_evaluation_repeatable(t: MatchTarget, address: Seq<char>, r1: Option<Alternative>, r2: Option<Alternative>)
    requires
        r1 == t.spec_match(address),
        r2 == t.spec_match(address),
    ensures
        r1 == r2,
{
}

} // verus!
