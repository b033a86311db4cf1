//! In-memory model of the ephemeral store: string keys, arbitrary values,
//! a per-key time-to-live.  A read at time `now` sees a key only while
//! `now` is strictly before its expiry instant; writing a key overwrites
//! any earlier binding.

use vstd::prelude::*;

verus! {

pub struct TtlEntry<V> {
    pub key: String,
    pub value: V,
    pub expires_at: u64,
}

/// Key/value store with per-key TTL, keyed by string.
#[verifier::reject_recursive_types(V)]
pub struct TtlMap<V> {
    entries: Vec<TtlEntry<V>>,
}

/// The binding that a sequence of writes leaves behind: later writes win.
pub closed spec fn entries_map<V>(s: Seq<TtlEntry<V>>) -> Map<Seq<char>, (V, u64)>
    decreases s.len(),
{
    if s.len() == 0 {
        Map::empty()
    } else {
        entries_map(s.drop_last()).insert(
            s.last().key@,
            (s.last().value, s.last().expires_at),
        )
    }
}

proof fn lemma_entries_map_found<V>(s: Seq<TtlEntry<V>>, i: int, k: Seq<char>)
    requires
        0 <= i < s.len(),
        s[i].key@ == k,
        forall|j: int| i < j < s.len() ==> s[j].key@ != k,
    ensures
        entries_map(s).contains_key(k),
        entries_map(s)[k] == (s[i].value, s[i].expires_at),
    decreases s.len(),
{
    if i < s.len() - 1 {
        assert(s.drop_last()[i] == s[i]);
        lemma_entries_map_found(s.drop_last(), i, k);
    }
}

proof fn lemma_entries_map_absent<V>(s: Seq<TtlEntry<V>>, k: Seq<char>)
    requires
        forall|j: int| 0 <= j < s.len() ==> s[j].key@ != k,
    ensures
        !entries_map(s).contains_key(k),
    decreases s.len(),
{
    if s.len() > 0 {
        lemma_entries_map_absent(s.drop_last(), k);
    }
}

impl<V> View for TtlMap<V> {
    type V = Map<Seq<char>, (V, u64)>;

    closed spec fn view(&self) -> Map<Seq<char>, (V, u64)> {
        entries_map(self.entries@)
    }
}

impl<V> TtlMap<V> {
    pub fn new() -> (r: TtlMap<V>)
        ensures
            r@ == Map::<Seq<char>, (V, u64)>::empty(),
    {
        TtlMap { entries: Vec::new() }
    }

    /// Store `value` under `key`, expiring `ttl_seconds` from `now`.
    pub fn set_ex(&mut self, key: String, value: V, now: u64, ttl_seconds: u64)
        requires
            now + ttl_seconds <= u64::MAX,
        ensures
            final(self)@ == old(self)@.insert(key@, (value, (now + ttl_seconds) as u64)),
    {
        let expires_at = now + ttl_seconds;
        let ghost prior = self.entries@;
        self.entries.push(TtlEntry { key, value, expires_at });
        proof {
            assert(self.entries@.drop_last() =~= prior);
        }
    }

    /// Read the value stored under `key`, if any is still live at `now`.
    pub fn get<'a>(&'a self, key: &String, now: u64) -> (r: Option<&'a V>)
        ensures
            match r {
                Some(v) => self@.contains_key(key@) && now < self@[key@].1 && *v
                    == self@[key@].0,
                None => !self@.contains_key(key@) || now >= self@[key@].1,
            },
    {
        let mut i = self.entries.len();
        while i > 0
            invariant
                i <= self.entries@.len(),
                forall|j: int| i <= j < self.entries@.len() ==> self.entries@[j].key@ != key@,
            decreases i,
        {
            i = i - 1;
            let e = &self.entries[i];
            if e.key == *key {
                proof {
                    lemma_entries_map_found(self.entries@, i as int, key@);
                }
                if now < e.expires_at {
                    return Some(&e.value);
                } else {
                    return None;
                }
            }
        }
        proof {
            lemma_entries_map_absent(self.entries@, key@);
        }
        None
    }
}

} // verus!
