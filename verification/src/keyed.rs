//! An association list keyed by participant identifier.
//!
//! The coordinator assembles per-participant collections (commitments,
//! signature shares, verifying shares) keyed by the nonzero identifier.
//! They are held as a vector of pairs with unique keys; inserting an
//! existing key replaces its value, as a map would.

use vstd::prelude::*;

verus! {

/// The value stored under the first occurrence of a key, scanning from the front.
pub open spec fn find_key<K, V>(s: Seq<(K, V)>, k: K) -> Option<V>
    decreases s.len(),
{
    if s.len() == 0 {
        None
    } else if s[0].0 == k {
        Some(s[0].1)
    } else {
        find_key(s.drop_first(), k)
    }
}

/// Whether no two entries share a key.
pub open spec fn unique_keys<K, V>(s: Seq<(K, V)>) -> bool {
    forall|i: int, j: int| 0 <= i < j < s.len() ==> s[i].0 != s[j].0
}

/// If the first match for a key stands at `i`, the scan finds its value.
pub proof fn lemma_find_key_at<K, V>(s: Seq<(K, V)>, k: K, i: int)
    requires
        0 <= i < s.len(),
        s[i].0 == k,
        forall|j: int| 0 <= j < i ==> s[j].0 != k,
    ensures
        find_key(s, k) == Some(s[i].1),
    decreases i,
{
    if i > 0 {
        lemma_find_key_at(s.drop_first(), k, i - 1);
    }
}

/// If no entry carries the key, the scan finds nothing.
pub proof fn lemma_find_key_none<K, V>(s: Seq<(K, V)>, k: K)
    requires
        forall|j: int| 0 <= j < s.len() ==> s[j].0 != k,
    ensures
        find_key(s, k) is None,
    decreases s.len(),
{
    if s.len() > 0 {
        lemma_find_key_none(s.drop_first(), k);
    }
}

/// Appending an entry leaves every earlier key's value in place and binds a
/// fresh key to the appended value.
pub proof fn lemma_find_key_push<K, V>(s: Seq<(K, V)>, k: K, id: K, v: V)
    ensures
        find_key(s.push((id, v)), k) == if find_key(s, k) is Some {
            find_key(s, k)
        } else if k == id {
            Some(v)
        } else {
            None::<V>
        },
    decreases s.len(),
{
    if s.len() == 0 {
        assert(s.push((id, v)).drop_first() =~= Seq::<(K, V)>::empty());
    } else {
        assert(s.push((id, v)).drop_first() =~= s.drop_first().push((id, v)));
        lemma_find_key_push(s.drop_first(), k, id, v);
    }
}

/// Replacing the entry at `i` does not move any other key's value.
pub proof fn lemma_find_key_update_other<K, V>(s: Seq<(K, V)>, i: int, id: K, v: V, k: K)
    requires
        0 <= i < s.len(),
        s[i].0 == id,
        k != id,
    ensures
        find_key(s.update(i, (id, v)), k) == find_key(s, k),
    decreases i,
{
    let su = s.update(i, (id, v));
    if i == 0 {
        assert(su.drop_first() =~= s.drop_first());
    } else {
        assert(su.drop_first() =~= s.drop_first().update(i - 1, (id, v)));
        lemma_find_key_update_other(s.drop_first(), i - 1, id, v, k);
    }
}

/// Removing the only entry with a given key erases that key and no other.
pub proof fn lemma_find_key_remove<K, V>(s: Seq<(K, V)>, i: int, k: K)
    requires
        0 <= i < s.len(),
        forall|j: int| 0 <= j < s.len() && j != i ==> s[j].0 != s[i].0,
    ensures
        find_key(s.remove(i), k) == if k == s[i].0 {
            None::<V>
        } else {
            find_key(s, k)
        },
    decreases i,
{
    let sr = s.remove(i);
    if i == 0 {
        assert(sr =~= s.drop_first());
        if k == s[0].0 {
            lemma_find_key_none(s.drop_first(), k);
        }
    } else {
        assert(sr.drop_first() =~= s.drop_first().remove(i - 1));
        lemma_find_key_remove(s.drop_first(), i - 1, k);
    }
}

/// A vector of pairs with unique, nonzero identifier keys; insertion
/// replaces the value of a key already present.
pub struct IdMap<V> {
    entries: Vec<(u16, V)>,
}

impl<V> IdMap<V> {
    /// The entries as a sequence of pairs.
    pub closed spec fn view(&self) -> Seq<(u16, V)> {
        self.entries@
    }

    /// Well-formed: keys unique and never zero.
    pub open spec fn wf(&self) -> bool {
        unique_keys(self@) && (forall|i: int| 0 <= i < self@.len() ==> self@[i].0 != 0)
    }

    /// The value bound to a key, if any.
    pub open spec fn spec_get(&self, id: u16) -> Option<V> {
        find_key(self@, id)
    }

    /// An empty map.
    pub fn new() -> (r: IdMap<V>)
        ensures
            r.wf(),
            r@.len() == 0,
    {
        IdMap { entries: Vec::new() }
    }

    /// How many keys are bound.
    pub fn len(&self) -> (r: usize)
        ensures
            r == self@.len(),
    {
        self.entries.len()
    }

    /// Read-only access to the underlying entries.
    pub fn entries(&self) -> (r: &Vec<(u16, V)>)
        ensures
            r@ == self@,
    {
        &self.entries
    }

    /// The position of a key, if present; scans for the first match.
    fn index_of(&self, id: u16) -> (r: Option<usize>)
        ensures
            match r {
                Some(i) => i < self@.len() && self@[i as int].0 == id && (forall|j: int|
                    0 <= j < i ==> self@[j].0 != id),
                None => forall|j: int| 0 <= j < self@.len() ==> self@[j].0 != id,
            },
    {
        let mut i: usize = 0;
        while i < self.entries.len()
            invariant
                i <= self@.len(),
                forall|j: int| 0 <= j < i ==> self@[j].0 != id,
            decreases self@.len() - i,
        {
            if self.entries[i].0 == id {
                return Some(i);
            }
            i = i + 1;
        }
        None
    }

    /// Whether a key is bound.
    pub fn contains(&self, id: u16) -> (r: bool)
        ensures
            r == (self.spec_get(id) is Some),
    {
        let r = self.index_of(id);
        proof {
            match r {
                Some(i) => lemma_find_key_at(self@, id, i as int),
                None => lemma_find_key_none(self@, id),
            }
        }
        r.is_some()
    }

    /// Bind a key to a value; a key already present has its value replaced,
    /// every other binding stays as it was.
    pub fn insert(&mut self, id: u16, v: V)
        requires
            old(self).wf(),
            id != 0,
        ensures
            final(self).wf(),
            final(self).spec_get(id) == Some(v),
            forall|k: u16| k != id ==> final(self).spec_get(k) == old(self).spec_get(k),
            final(self)@.len() == if old(self).spec_get(id) is Some {
                old(self)@.len()
            } else {
                old(self)@.len() + 1
            },
    {
        let found = self.index_of(id);
        match found {
            Some(i) => {
                proof {
                    lemma_find_key_at(self@, id, i as int);
                }
                let ghost s0 = self@;
                self.entries.set(i, (id, v));
                proof {
                    lemma_find_key_at(self@, id, i as int);
                    assert forall|k: u16| k != id implies find_key(self@, k) == find_key(s0, k) by {
                        lemma_find_key_update_other(s0, i as int, id, v, k);
                    }
                }
            },
            None => {
                proof {
                    lemma_find_key_none(self@, id);
                }
                let ghost s0 = self@;
                self.entries.push((id, v));
                proof {
                    assert(self@ =~= s0.push((id, v)));
                    lemma_find_key_push(s0, id, id, v);
                    assert forall|k: u16| k != id implies find_key(self@, k) == find_key(s0, k) by {
                        lemma_find_key_push(s0, k, id, v);
                    }
                }
            },
        }
    }
}

} // verus!
