//! The in-memory record of what this client last wrote: for each
//! service/node key, the lease id the store issued and the content digest
//! of the node at its last successful registration.  The idempotent-skip
//! decision reads this record; deregistration erases it.

use vstd::prelude::*;
use crate::text::str_eq;

verus! {

/// Keys listed at most once, so the list reads as a map.
pub open spec fn distinct_keys<T>(s: Seq<(String, T)>) -> bool {
    forall|i: int, j: int| 0 <= i < j < s.len() ==> s[i].0@ != s[j].0@
}

/// The map an association list stands for.  A later pair wins, but under
/// `distinct_keys` there is only ever one pair per key.
pub open spec fn assoc_map<T>(s: Seq<(String, T)>) -> Map<Seq<char>, T>
    decreases s.len(),
{
    if s.len() == 0 {
        Map::empty()
    } else {
        assoc_map(s.drop_last()).insert(s.last().0@, s.last().1)
    }
}

/// A key is in the map exactly when some pair carries it.
pub proof fn lemma_assoc_map_contains<T>(s: Seq<(String, T)>, k: Seq<char>)
    ensures
        assoc_map(s).contains_key(k) <==> exists|i: int| 0 <= i < s.len() && s[i].0@ == k,
    decreases s.len(),
{
    if s.len() > 0 {
        lemma_assoc_map_contains(s.drop_last(), k);
        if s.last().0@ == k {
            assert(s[s.len() - 1].0@ == k);
        } else if assoc_map(s).contains_key(k) {
            let i = choose|i: int| 0 <= i < s.drop_last().len() && s.drop_last()[i].0@ == k;
            assert(s[i].0@ == k);
        }
        if exists|i: int| 0 <= i < s.len() && s[i].0@ == k {
            let i = choose|i: int| 0 <= i < s.len() && s[i].0@ == k;
            if i < s.len() - 1 {
                assert(s.drop_last()[i].0@ == k);
            }
        }
    }
}

/// Dropping the last pair keeps the keys distinct.
proof fn lemma_drop_last_distinct<T>(s: Seq<(String, T)>)
    requires
        distinct_keys(s),
        s.len() > 0,
    ensures
        distinct_keys(s.drop_last()),
{
    assert(forall|a: int, b: int|
        0 <= a < b < s.drop_last().len() ==> s.drop_last()[a].0@ == s[a].0@ && s.drop_last()[b].0@
            == s[b].0@);
}

/// Under distinct keys, the pair at any index gives that key's value.
pub proof fn lemma_assoc_map_index<T>(s: Seq<(String, T)>, i: int)
    requires
        distinct_keys(s),
        0 <= i < s.len(),
    ensures
        assoc_map(s).contains_key(s[i].0@),
        assoc_map(s)[s[i].0@] == s[i].1,
    decreases s.len(),
{
    if i < s.len() - 1 {
        lemma_drop_last_distinct(s);
        lemma_assoc_map_index(s.drop_last(), i);
        assert(s.last().0@ != s[i].0@);
    }
}

/// Under distinct keys, removing the pair at an index removes its key
/// from the map, keeps the rest distinct, and leaves no pair with it.
proof fn lemma_assoc_map_remove<T>(s: Seq<(String, T)>, i: int)
    requires
        distinct_keys(s),
        0 <= i < s.len(),
    ensures
        assoc_map(s.remove(i)) == assoc_map(s).remove(s[i].0@),
        distinct_keys(s.remove(i)),
        forall|j: int| 0 <= j < s.remove(i).len() ==> s.remove(i)[j].0@ != s[i].0@,
    decreases s.len(),
{
    let t = s.remove(i);
    assert(forall|j: int| 0 <= j < i ==> t[j] == s[j]);
    assert(forall|j: int| i <= j < t.len() ==> t[j] == s[j + 1]);
    lemma_drop_last_distinct(s);
    if i == s.len() - 1 {
        assert(t =~= s.drop_last());
        lemma_assoc_map_contains(s.drop_last(), s[i].0@);
        assert(!assoc_map(s.drop_last()).contains_key(s[i].0@));
        assert(assoc_map(s.drop_last()) =~= assoc_map(s.drop_last()).insert(
            s.last().0@,
            s.last().1,
        ).remove(s[i].0@));
    } else {
        lemma_assoc_map_remove(s.drop_last(), i);
        assert(t.drop_last() =~= s.drop_last().remove(i));
        assert(t.last() == s.last());
        assert(s.last().0@ != s[i].0@);
        assert(assoc_map(s.drop_last()).remove(s[i].0@).insert(s.last().0@, s.last().1)
            =~= assoc_map(s.drop_last()).insert(s.last().0@, s.last().1).remove(s[i].0@));
    }
}

/// The index of the pair carrying the key, if any pair does.
pub(crate) fn assoc_find<T>(v: &Vec<(String, T)>, key: &str) -> (r: Option<usize>)
    ensures
        match r {
            Some(i) => i < v@.len() && v@[i as int].0@ == key@,
            None => forall|i: int| 0 <= i < v@.len() ==> v@[i].0@ != key@,
        },
{
    let n = v.len();
    let mut i: usize = 0;
    while i < n
        invariant
            n == v@.len(),
            i <= n,
            forall|j: int| 0 <= j < i ==> v@[j].0@ != key@,
        decreases n - i,
    {
        if str_eq(v[i].0.as_str(), key) {
            return Some(i);
        }
        i += 1;
    }
    None
}

/// Records a value for a key, replacing any earlier pair with that key.
pub(crate) fn assoc_set<T>(v: &mut Vec<(String, T)>, key: &str, value: T)
    requires
        distinct_keys(old(v)@),
    ensures
        distinct_keys(final(v)@),
        assoc_map(final(v)@) == assoc_map(old(v)@).insert(key@, value),
{
    match assoc_find(v, key) {
        Some(i) => {
            proof {
                lemma_assoc_map_remove(v@, i as int);
            }
            v.remove(i);
        },
        None => {
        },
    }
    proof {
        lemma_assoc_map_contains(v@, key@);
        assert(!assoc_map(v@).contains_key(key@));
    }
    let ghost mid = v@;
    v.push((key.to_owned(), value));
    proof {
        assert(v@.drop_last() =~= mid);
        assert(v@.last().0@ == key@);
        assert(assoc_map(v@) == assoc_map(mid).insert(key@, value));
        assert(assoc_map(mid).insert(key@, value) =~= assoc_map(old(v)@).insert(key@, value));
        assert(distinct_keys(v@)) by {
            assert(forall|j: int| 0 <= j < v@.len() - 1 ==> v@[j] == mid[j]);
        }
    }
}

/// Drops the pair carrying the key, if any pair does.
fn assoc_remove<T>(v: &mut Vec<(String, T)>, key: &str)
    requires
        distinct_keys(old(v)@),
    ensures
        distinct_keys(final(v)@),
        assoc_map(final(v)@) == assoc_map(old(v)@).remove(key@),
{
    match assoc_find(v, key) {
        Some(i) => {
            proof {
                lemma_assoc_map_remove(v@, i as int);
            }
            v.remove(i);
        },
        None => {
            proof {
                lemma_assoc_map_contains(v@, key@);
                assert(assoc_map(v@) =~= assoc_map(v@).remove(key@));
            }
        },
    }
}

/// What this client last wrote for each service/node key: the lease id
/// the store issued, and the content digest of the node at its last
/// successful registration.
pub struct RegistrationTracker {
    leases: Vec<(String, i64)>,
    hashes: Vec<(String, u64)>,
}

impl RegistrationTracker {
    /// Both records list each key at most once.
    pub closed spec fn wf(&self) -> bool {
        distinct_keys(self.leases@) && distinct_keys(self.hashes@)
    }

    /// The lease record: key to lease id.
    pub closed spec fn lease_map(&self) -> Map<Seq<char>, i64> {
        assoc_map(self.leases@)
    }

    /// The digest record: key to content digest.
    pub closed spec fn hash_map(&self) -> Map<Seq<char>, u64> {
        assoc_map(self.hashes@)
    }

    /// An empty tracker: nothing registered yet.
    pub fn new() -> (r: RegistrationTracker)
        ensures
            r.wf(),
            r.lease_map() == Map::<Seq<char>, i64>::empty(),
            r.hash_map() == Map::<Seq<char>, u64>::empty(),
    {
        RegistrationTracker { leases: Vec::new(), hashes: Vec::new() }
    }

    /// The cached lease id for a key, if one is recorded.
    pub fn lease_of(&self, key: &str) -> (r: Option<i64>)
        requires
            self.wf(),
        ensures
            r == if self.lease_map().contains_key(key@) {
                Some(self.lease_map()[key@])
            } else {
                None::<i64>
            },
    {
        proof {
            lemma_assoc_map_contains(self.leases@, key@);
        }
        match assoc_find(&self.leases, key) {
            Some(i) => {
                proof {
                    lemma_assoc_map_index(self.leases@, i as int);
                }
                Some(self.leases[i].1)
            },
            None => None,
        }
    }

    /// The cached content digest for a key, if one is recorded.
    pub fn hash_of(&self, key: &str) -> (r: Option<u64>)
        requires
            self.wf(),
        ensures
            r == if self.hash_map().contains_key(key@) {
                Some(self.hash_map()[key@])
            } else {
                None::<u64>
            },
    {
        proof {
            lemma_assoc_map_contains(self.hashes@, key@);
        }
        match assoc_find(&self.hashes, key) {
            Some(i) => {
                proof {
                    lemma_assoc_map_index(self.hashes@, i as int);
                }
                Some(self.hashes[i].1)
            },
            None => None,
        }
    }

    /// Records the lease id issued for a key.
    pub fn set_lease(&mut self, key: &str, lease: i64)
        requires
            old(self).wf(),
        ensures
            final(self).wf(),
            final(self).lease_map() == old(self).lease_map().insert(key@, lease),
            final(self).hash_map() == old(self).hash_map(),
    {
        assoc_set(&mut self.leases, key, lease);
    }

    /// Records the content digest written for a key.
    pub fn set_hash(&mut self, key: &str, hash: u64)
        requires
            old(self).wf(),
        ensures
            final(self).wf(),
            final(self).hash_map() == old(self).hash_map().insert(key@, hash),
            final(self).lease_map() == old(self).lease_map(),
    {
        assoc_set(&mut self.hashes, key, hash);
    }

    /// Erases everything recorded for a key: both the lease id and the
    /// content digest.
    pub fn forget(&mut self, key: &str)
        requires
            old(self).wf(),
        ensures
            final(self).wf(),
            final(self).lease_map() == old(self).lease_map().remove(key@),
            final(self).hash_map() == old(self).hash_map().remove(key@),
    {
        assoc_remove(&mut self.leases, key);
        assoc_remove(&mut self.hashes, key);
    }
}

} // verus!
