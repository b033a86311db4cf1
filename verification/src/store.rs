//! In-memory model of the record store: one voter document per principal,
//! queryable by identifier, email or phone, with full-document replacement.
//! Identifiers are assigned at insertion from a monotone counter.

use vstd::prelude::*;
use vstd::pervasive::VecAdditionalExecFns;

use crate::models::Voter;
use crate::strfmt::{dec_digits, u64_to_dec};

verus! {

/// Filter of a store query: exactly one identifying field.
#[derive(Debug, Clone, PartialEq)]
pub enum VoterFilter {
    ById(String),
    ByEmail(String),
    ByPhone(String),
}

/// Whether a voter document matches a filter.
pub open spec fn filter_matches(f: VoterFilter, v: Voter) -> bool {
    match f {
        VoterFilter::ById(id) => v._id matches Some(x) && x@ == id@,
        VoterFilter::ByEmail(e) => v.email matches Some(x) && x@ == e@,
        VoterFilter::ByPhone(p) => v.phone matches Some(x) && x@ == p@,
    }
}

/// Index of the first document matching `f`, or -1.
pub open spec fn spec_find_idx(s: Seq<Voter>, f: VoterFilter) -> int
    decreases s.len(),
{
    if s.len() == 0 {
        -1
    } else if filter_matches(f, s.first()) {
        0
    } else {
        let r = spec_find_idx(s.drop_first(), f);
        if r == -1 {
            -1
        } else {
            r + 1
        }
    }
}

/// The first document matching `f`, if any.
pub open spec fn spec_find(s: Seq<Voter>, f: VoterFilter) -> Option<Voter> {
    if spec_find_idx(s, f) < 0 {
        None
    } else {
        Some(s[spec_find_idx(s, f)])
    }
}

pub proof fn lemma_find_idx_at(s: Seq<Voter>, f: VoterFilter, i: int)
    requires
        0 <= i < s.len(),
        forall|j: int| 0 <= j < i ==> !filter_matches(f, s[j]),
        filter_matches(f, s[i]),
    ensures
        spec_find_idx(s, f) == i,
    decreases s.len(),
{
    if i > 0 {
        assert(forall|j: int| 0 <= j < i - 1 ==> s.drop_first()[j] == s[j + 1]);
        lemma_find_idx_at(s.drop_first(), f, i - 1);
    }
}

pub proof fn lemma_find_idx_none(s: Seq<Voter>, f: VoterFilter)
    requires
        forall|j: int| 0 <= j < s.len() ==> !filter_matches(f, s[j]),
    ensures
        spec_find_idx(s, f) == -1,
    decreases s.len(),
{
    if s.len() > 0 {
        lemma_find_idx_none(s.drop_first(), f);
    }
}

/// Basic sanity of the found index: it is in range and matches.
pub proof fn lemma_find_idx_valid(s: Seq<Voter>, f: VoterFilter)
    ensures
        spec_find_idx(s, f) == -1 || (0 <= spec_find_idx(s, f) < s.len() && filter_matches(
            f,
            s[spec_find_idx(s, f)],
        )),
    decreases s.len(),
{
    if s.len() > 0 {
        lemma_find_idx_valid(s.drop_first(), f);
    }
}

/// Nothing before the found index matches.
pub proof fn lemma_find_idx_prefix(s: Seq<Voter>, f: VoterFilter)
    ensures
        forall|j: int|
            0 <= j < spec_find_idx(s, f) ==> !filter_matches(f, s[j]),
    decreases s.len(),
{
    lemma_find_idx_valid(s, f);
    if s.len() > 0 && !filter_matches(f, s.first()) {
        lemma_find_idx_prefix(s.drop_first(), f);
        assert forall|j: int| 0 <= j < spec_find_idx(s, f) implies !filter_matches(f, s[j]) by {
            if j >= 1 {
                assert(s[j] == s.drop_first()[j - 1]);
                assert(!filter_matches(f, s.drop_first()[j - 1]));
            }
        }
    }
}

/// Document store holding the voter records.
pub struct VoterStore {
    voters: Vec<Voter>,
    next_id: u64,
}

impl View for VoterStore {
    type V = Seq<Voter>;

    closed spec fn view(&self) -> Seq<Voter> {
        self.voters@
    }
}

impl VoterStore {
    /// The identifier the next insertion will be assigned, as a counter.
    pub closed spec fn spec_next_id(&self) -> u64 {
        self.next_id
    }

    pub fn new() -> (r: VoterStore)
        ensures
            r@ == Seq::<Voter>::empty(),
            r.spec_next_id() == 0,
    {
        VoterStore { voters: Vec::new(), next_id: 0 }
    }

    /// `find_by(filter) -> Voter | None`: the first matching document.
    pub fn find_one<'a>(&'a self, filter: &VoterFilter) -> (r: Option<&'a Voter>)
        ensures
            match r {
                Some(v) => spec_find(self@, *filter) == Some(*v),
                None => spec_find(self@, *filter) is None,
            },
    {
        let n = self.voters.len();
        for i in 0..n
            invariant
                n == self@.len(),
                forall|j: int| 0 <= j < i ==> !filter_matches(*filter, self@[j]),
        {
            if filter_matches_exec(filter, &self.voters[i]) {
                proof {
                    lemma_find_idx_at(self@, *filter, i as int);
                }
                return Some(&self.voters[i]);
            }
        }
        proof {
            lemma_find_idx_none(self@, *filter);
        }
        None
    }

    /// `insert(voter) -> identifier`: store the document under a fresh
    /// stable identifier and return that identifier.
    pub fn insert(&mut self, voter: Voter) -> (id: String)
        requires
            old(self).spec_next_id() < u64::MAX,
        ensures
            id@ == dec_digits(old(self).spec_next_id() as int),
            final(self)@ == old(self)@.push(
                (Voter { _id: Some(id), ..voter }),
            ),
            final(self).spec_next_id() == old(self).spec_next_id() + 1,
    {
        let id = u64_to_dec(self.next_id);
        self.next_id = self.next_id + 1;
        let stored = Voter { _id: Some(id.clone()), ..voter };
        self.voters.push(stored);
        id
    }

    /// `replace(filter, voter)`: overwrite the first matching document
    /// whole; a miss leaves the store unchanged.
    pub fn replace_one(&mut self, filter: &VoterFilter, voter: Voter) -> (replaced: bool)
        ensures
            spec_find_idx(old(self)@, *filter) < 0 ==> final(self)@ == old(self)@ && !replaced,
            spec_find_idx(old(self)@, *filter) >= 0 ==> final(self)@ == old(self)@.update(
                spec_find_idx(old(self)@, *filter),
                voter,
            ) && replaced,
            final(self).spec_next_id() == old(self).spec_next_id(),
    {
        let n = self.voters.len();
        for i in 0..n
            invariant
                n == self@.len(),
                self@ == old(self)@,
                self.spec_next_id() == old(self).spec_next_id(),
                forall|j: int| 0 <= j < i ==> !filter_matches(*filter, self@[j]),
        {
            if filter_matches_exec(filter, &self.voters[i]) {
                proof {
                    lemma_find_idx_at(self@, *filter, i as int);
                }
                self.voters.set(i, voter);
                return true;
            }
        }
        proof {
            lemma_find_idx_none(self@, *filter);
        }
        false
    }
}

/// Executable filter match, mirroring `filter_matches`.
pub fn filter_matches_exec(f: &VoterFilter, v: &Voter) -> (r: bool)
    ensures
        r == filter_matches(*f, *v),
{
    match f {
        VoterFilter::ById(id) => match &v._id {
            Some(x) => *x == *id,
            None => false,
        },
        VoterFilter::ByEmail(e) => match &v.email {
            Some(x) => *x == *e,
            None => false,
        },
        VoterFilter::ByPhone(p) => match &v.phone {
            Some(x) => *x == *p,
            None => false,
        },
    }
}

} // verus!
