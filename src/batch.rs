use crate::search::SearchOutcome;
use crate::target::{has_suffix, Alternative, MatchTarget};
use vstd::prelude::*;

verus! {

/// Where `Batch::accept` put a search outcome.
#[derive(Clone, Copy, Debug, PartialEq, Eq, Structural)]
pub enum Placement {
    Placed(Alternative),
    Discarded,
}

/// The matches gathered for one run: `count` of them for a single suffix, or
/// `count` for each of two suffixes, each kept in the order found.
pub struct Batch {
    target: MatchTarget,
    count: usize,
    first: Vec<SearchOutcome>,
    second: Vec<SearchOutcome>,
}

/// Every outcome in `list` has an address that ends with `suffix`.
pub open spec fn all_end_with(list: Seq<SearchOutcome>, suffix: Seq<char>) -> bool {
    forall|i: int| 0 <= i < list.len() ==> has_suffix(#[trigger] list[i].spec_address(), suffix)
}

impl Batch {
    pub closed spec fn spec_target(&self) -> MatchTarget {
        self.target
    }

    pub closed spec fn spec_count(&self) -> nat {
        self.count as nat
    }

    /// The outcomes for the first (or only) suffix.
    pub closed spec fn spec_first(&self) -> Seq<SearchOutcome> {
        self.first@
    }

    /// The outcomes for the second suffix; always empty with a single suffix.
    pub closed spec fn spec_second(&self) -> Seq<SearchOutcome> {
        self.second@
    }

    /// Neither list is over its quota, and each holds only addresses that end
    /// with its own suffix.
    pub open spec fn wf(&self) -> bool {
        &&& self.spec_count() <= u32::MAX
        &&& self.spec_first().len() <= self.spec_count()
        &&& self.spec_second().len() <= self.spec_count()
        &&& all_end_with(self.spec_first(), self.spec_target().suffix_of(Alternative::First))
        &&& match self.spec_target() {
            MatchTarget::Suffix(_) => self.spec_second().len() == 0,
            MatchTarget::AnyOfSuffixes(_, b) => all_end_with(self.spec_second(), b@),
        }
    }

    /// Both quotas are full.
    pub open spec fn spec_complete(&self) -> bool {
        &&& self.spec_first().len() == self.spec_count()
        &&& (self.spec_target() is AnyOfSuffixes ==> self.spec_second().len() == self.spec_count())
    }

    /// An empty batch that asks for `count` matches of each suffix of `target`.
    pub fn new(target: MatchTarget, count: u32) -> (r: Self)
        ensures
            r.wf(),
            r.spec_target() == target,
            r.spec_count() == count,
            r.spec_first().len() == 0,
            r.spec_second().len() == 0,
    {
        Batch { target, count: count as usize, first: Vec::new(), second: Vec::new() }
    }

    /// The target that the batch fills.
    pub fn target(&self) -> (r: &MatchTarget)
        ensures
            *r == self.spec_target(),
    {
        &self.target
    }

    /// How many matches of each suffix the batch asks for.
    pub fn count(&self) -> (r: usize)
        ensures
            r == self.spec_count(),
    {
        self.count
    }

    /// The outcomes for the first (or only) suffix.
    pub fn first(&self) -> (r: &Vec<SearchOutcome>)
        ensures
            r@ == self.spec_first(),
    {
        &self.first
    }

    /// The outcomes for the second suffix.
    pub fn second(&self) -> (r: &Vec<SearchOutcome>)
        ensures
            r@ == self.spec_second(),
    {
        &self.second
    }

    /// Whether every quota is full, so that no more search is needed.
    pub fn is_complete(&self) -> (r: bool)
        requires
            self.wf(),
        ensures
            r == self.spec_complete(),
    {
        match &self.target {
            MatchTarget::Suffix(_) => self.first.len() == self.count,
            MatchTarget::AnyOfSuffixes(_, _) => self.first.len() == self.count && self.second.len()
                == self.count,
        }
    }

    /// Files `outcome` under the suffix that its address ends with, if that
    /// suffix's quota is not yet full; the first suffix is tried first.
    /// Otherwise the outcome is dropped.
    pub fn accept(&mut self, outcome: SearchOutcome) -> (r: Placement)
        requires
            old(self).wf(),
        ensures
            final(self).wf(),
            final(self).spec_target() == old(self).spec_target(),
            final(self).spec_count() == old(self).spec_count(),
            ({
                let t = old(self).spec_target();
                let a = outcome.spec_address();
                let first_open = old(self).spec_first().len() < old(self).spec_count();
                let second_open = old(self).spec_second().len() < old(self).spec_count();
                if has_suffix(a, t.suffix_of(Alternative::First)) && first_open {
                    &&& r == Placement::Placed(Alternative::First)
                    &&& final(self).spec_first() == old(self).spec_first().push(outcome)
                    &&& final(self).spec_second() == old(self).spec_second()
                } else if t is AnyOfSuffixes && has_suffix(a, t.suffix_of(Alternative::Second))
                    && second_open {
                    &&& r == Placement::Placed(Alternative::Second)
                    &&& final(self).spec_first() == old(self).spec_first()
                    &&& final(self).spec_second() == old(self).spec_second().push(outcome)
                } else {
                    &&& r == Placement::Discarded
                    &&& final(self).spec_first() == old(self).spec_first()
                    &&& final(self).spec_second() == old(self).spec_second()
                }
            }),
    {
        let ghost old_first = self.first@;
        let ghost old_second = self.second@;
        let ghost sfx = self.target.suffix_of(Alternative::First);
        let (goes_first, goes_second) = match &self.target {
            MatchTarget::Suffix(s) => (ends_with_checked(outcome.address(), s), false),
            MatchTarget::AnyOfSuffixes(a, b) => (
                ends_with_checked(outcome.address(), a),
                ends_with_checked(outcome.address(), b),
            ),
        };
        if goes_first && self.first.len() < self.count {
            self.first.push(outcome);
            assert(forall|i: int|
                0 <= i < old_first.len() ==> self.first@[i] == #[trigger] old_first[i]);
            assert(all_end_with(self.first@, sfx));
            Placement::Placed(Alternative::First)
        } else if goes_second && self.second.len() < self.count {
            self.second.push(outcome);
            assert(forall|i: int|
                0 <= i < old_second.len() ==> self.second@[i] == #[trigger] old_second[i]);
            Placement::Placed(Alternative::Second)
        } else {
            Placement::Discarded
        }
    }

    /// Whether a progress line is due: the number of matches gathered is a
    /// multiple of ten, or the batch is complete.
    pub fn progress_due(&self) -> (r: bool)
        requires
            self.wf(),
        ensures
            r == ((self.spec_first().len() + self.spec_second().len()) % 10 == 0
                || self.spec_complete()),
    {
        let found: u64 = self.first.len() as u64 + self.second.len() as u64;
        found % 10 == 0 || self.is_complete()
    }

    /// Gives up the two lists of outcomes.
    pub fn into_lists(self) -> (r: (Vec<SearchOutcome>, Vec<SearchOutcome>))
        ensures
            r.0@ == self.spec_first(),
            r.1@ == self.spec_second(),
    {
        (self.first, self.second)
    }
}

fn ends_with_checked(address: &String, suffix: &String) -> (r: bool)
    ensures
        r == has_suffix(address@, suffix@),
{
    crate::target::ends_with(address.as_str(), suffix.as_str())
}

/// In every well-formed batch neither list is over its quota, and each list
/// holds only addresses with its own suffix: none from the other.
pub proof fn lemma_quotas_and_routing(b: Batch)
    requires
        b.wf(),
    ensures
        b.spec_first().len() <= b.spec_count(),
        b.spec_second().len() <= b.spec_count(),
        forall|i: int|
            0 <= i < b.spec_first().len() ==> has_suffix(
                #[trigger] b.spec_first()[i].spec_address(),
                b.spec_target().suffix_of(Alternative::First),
            ),
        forall|i: int|
            0 <= i < b.spec_second().len() ==> has_suffix(
                #[trigger] b.spec_second()[i].spec_address(),
                b.spec_target().suffix_of(Alternative::Second),
            ),
{
    if b.spec_target() is Suffix {
        assert(b.spec_second().len() == 0);
    }
}

} // verus!
