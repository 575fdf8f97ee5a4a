//! The keyed store engine: a collection of entities with pairwise-distinct
//! keys, and the exact meaning of save, lookup, update and delete over it.
//!
//! `RepositoryCore` is the sequential engine; the lock-based repositories in
//! `repos` run each of its operations inside one critical section, so a
//! concurrent history of store operations is a serialization of these
//! contracts.

use vstd::prelude::*;

verus! {

/// An entity stored under a 128-bit key.
pub trait Keyed: Sized {
    /// The key under which the entity is stored.
    spec fn key(&self) -> u128;

    /// The key, computed executably.
    fn key_of(&self) -> (k: u128)
        ensures
            k == self.key(),
    ;

    /// An exact copy; unlike `clone`, its contract is visible to the verifier.
    fn duplicate(&self) -> (r: Self)
        ensures
            r == *self,
    ;
}

/// Whether some entity in `s` has key `k`.
pub open spec fn has_key<T: Keyed>(s: Seq<T>, k: u128) -> bool {
    exists|i: int| 0 <= i < s.len() && s[i].key() == k
}

/// An index at which key `k` occurs in `s` (meaningful when `has_key`).
pub open spec fn key_index<T: Keyed>(s: Seq<T>, k: u128) -> int {
    choose|i: int| 0 <= i < s.len() && s[i].key() == k
}

/// The entity stored under key `k`, if any.
pub open spec fn lookup<T: Keyed>(s: Seq<T>, k: u128) -> Option<T> {
    if has_key(s, k) {
        Some(s[key_index(s, k)])
    } else {
        None
    }
}

/// No two entities of `s` share a key.
pub open spec fn distinct_keys<T: Keyed>(s: Seq<T>) -> bool {
    forall|i: int, j: int| 0 <= i < j < s.len() ==> s[i].key() != s[j].key()
}

/// The store after inserting `e`: its key's record is replaced if present,
/// else `e` is appended.
pub open spec fn spec_save<T: Keyed>(s: Seq<T>, e: T) -> Seq<T> {
    if has_key(s, e.key()) {
        s.update(key_index(s, e.key()), e)
    } else {
        s.push(e)
    }
}

/// The store after updating `e`: its key's record is replaced if present,
/// else the store is unchanged (update never creates).
pub open spec fn spec_update<T: Keyed>(s: Seq<T>, e: T) -> Seq<T> {
    if has_key(s, e.key()) {
        s.update(key_index(s, e.key()), e)
    } else {
        s
    }
}

/// The store after deleting key `k`: its record is removed if present, else
/// the store is unchanged.
pub open spec fn spec_delete<T: Keyed>(s: Seq<T>, k: u128) -> Seq<T> {
    if has_key(s, k) {
        s.remove(key_index(s, k))
    } else {
        s
    }
}

/// In a store with distinct keys, any index holding key `k` is the index
/// `lookup` speaks of.
pub proof fn lemma_found_is_key_index<T: Keyed>(s: Seq<T>, k: u128, i: int)
    requires
        distinct_keys(s),
        0 <= i < s.len(),
        s[i].key() == k,
    ensures
        has_key(s, k),
        key_index(s, k) == i,
        lookup(s, k) == Some(s[i]),
{
    assert(has_key(s, k));
    let j = key_index(s, k);
    assert(0 <= j < s.len() && s[j].key() == k);
    if i < j {
        assert(s[i].key() != s[j].key());
    } else if j < i {
        assert(s[j].key() != s[i].key());
    }
}

/// Replacing the record at a present key keeps keys distinct, binds that key
/// to the new record, and moves no other key.
pub proof fn lemma_replace_at_key<T: Keyed>(s: Seq<T>, e: T)
    requires
        distinct_keys(s),
        has_key(s, e.key()),
    ensures
        distinct_keys(s.update(key_index(s, e.key()), e)),
        lookup(s.update(key_index(s, e.key()), e), e.key()) == Some(e),
        forall|k: u128|
            k != e.key() ==> lookup(s.update(key_index(s, e.key()), e), k) == lookup(s, k),
{
    let i = key_index(s, e.key());
    assert(0 <= i < s.len() && s[i].key() == e.key());
    let t = s.update(i, e);
    assert forall|p: int, q: int| 0 <= p < q < t.len() implies t[p].key() != t[q].key() by {
        if p != i {
            assert(t[p] == s[p]);
        }
        if q != i {
            assert(t[q] == s[q]);
        }
    }
    lemma_found_is_key_index(t, e.key(), i);
    assert forall|k: u128| k != e.key() implies lookup(t, k) == lookup(s, k) by {
        if has_key(s, k) {
            let j = key_index(s, k);
            assert(0 <= j < s.len() && s[j].key() == k);
            assert(j != i);
            assert(t[j] == s[j]);
            lemma_found_is_key_index(s, k, j);
            lemma_found_is_key_index(t, k, j);
        } else {
            if has_key(t, k) {
                let j = key_index(t, k);
                assert(0 <= j < t.len() && t[j].key() == k);
                assert(j != i);
                assert(t[j] == s[j]);
                assert(has_key(s, k));
            }
        }
    }
}

/// Appending a record under a fresh key keeps keys distinct, binds that key
/// to the new record, and moves no other key.
pub proof fn lemma_push_new_key<T: Keyed>(s: Seq<T>, e: T)
    requires
        distinct_keys(s),
        !has_key(s, e.key()),
    ensures
        distinct_keys(s.push(e)),
        lookup(s.push(e), e.key()) == Some(e),
        forall|k: u128| k != e.key() ==> lookup(s.push(e), k) == lookup(s, k),
{
    let t = s.push(e);
    assert forall|p: int, q: int| 0 <= p < q < t.len() implies t[p].key() != t[q].key() by {
        if q == s.len() {
            assert(t[p] == s[p]);
            if s[p].key() == e.key() {
                assert(has_key(s, e.key()));
            }
        } else {
            assert(t[p] == s[p]);
            assert(t[q] == s[q]);
        }
    }
    lemma_found_is_key_index(t, e.key(), s.len() as int);
    assert forall|k: u128| k != e.key() implies lookup(t, k) == lookup(s, k) by {
        if has_key(s, k) {
            let j = key_index(s, k);
            assert(0 <= j < s.len() && s[j].key() == k);
            assert(t[j] == s[j]);
            lemma_found_is_key_index(s, k, j);
            lemma_found_is_key_index(t, k, j);
        } else {
            if has_key(t, k) {
                let j = key_index(t, k);
                assert(0 <= j < t.len() && t[j].key() == k);
                assert(j != s.len());
                assert(t[j] == s[j]);
                assert(has_key(s, k));
            }
        }
    }
}

/// Removing the record of a present key keeps keys distinct, leaves the key
/// unbound, and moves no other key.
pub proof fn lemma_remove_key<T: Keyed>(s: Seq<T>, k: u128)
    requires
        distinct_keys(s),
        has_key(s, k),
    ensures
        distinct_keys(s.remove(key_index(s, k))),
        !has_key(s.remove(key_index(s, k)), k),
        forall|k2: u128| k2 != k ==> lookup(s.remove(key_index(s, k)), k2) == lookup(s, k2),
{
    let i = key_index(s, k);
    assert(0 <= i < s.len() && s[i].key() == k);
    let t = s.remove(i);
    s.remove_ensures(i);
    assert forall|p: int, q: int| 0 <= p < q < t.len() implies t[p].key() != t[q].key() by {
        let p2: int = if p < i { p } else { p + 1 };
        let q2: int = if q < i { q } else { q + 1 };
        assert(t[p] == s[p2]);
        assert(t[q] == s[q2]);
        assert(p2 < q2);
    }
    assert forall|p: int| 0 <= p < t.len() implies t[p].key() != k by {
        let p2: int = if p < i { p } else { p + 1 };
        assert(t[p] == s[p2]);
        assert(p2 != i);
        if s[p2].key() == k {
            if p2 < i {
                assert(s[p2].key() != s[i].key());
            } else {
                assert(s[i].key() != s[p2].key());
            }
        }
    }
    assert forall|k2: u128| k2 != k implies lookup(t, k2) == lookup(s, k2) by {
        if has_key(s, k2) {
            let j = key_index(s, k2);
            assert(0 <= j < s.len() && s[j].key() == k2);
            assert(j != i);
            let j2: int = if j < i { j } else { j - 1 };
            assert(t[j2] == s[j]);
            lemma_found_is_key_index(s, k2, j);
            lemma_found_is_key_index(t, k2, j2);
        } else {
            if has_key(t, k2) {
                let j2 = key_index(t, k2);
                assert(0 <= j2 < t.len() && t[j2].key() == k2);
                let j: int = if j2 < i { j2 } else { j2 + 1 };
                assert(t[j2] == s[j]);
                assert(has_key(s, k2));
            }
        }
    }
}

/// Law: after saving an entity, looking its key up yields exactly that
/// entity, keys stay distinct, and every other key is bound as before.
pub proof fn lemma_save_then_lookup<T: Keyed>(s: Seq<T>, e: T)
    requires
        distinct_keys(s),
    ensures
        distinct_keys(spec_save(s, e)),
        lookup(spec_save(s, e), e.key()) == Some(e),
        forall|k: u128| k != e.key() ==> lookup(spec_save(s, e), k) == lookup(s, k),
{
    if has_key(s, e.key()) {
        lemma_replace_at_key(s, e);
    } else {
        lemma_push_new_key(s, e);
    }
}

/// Law: updating or deleting an absent key leaves the store exactly as it
/// was.
pub proof fn lemma_absent_key_unchanged<T: Keyed>(s: Seq<T>, e: T, k: u128)
    requires
        !has_key(s, e.key()),
        !has_key(s, k),
    ensures
        spec_update(s, e) == s,
        spec_delete(s, k) == s,
{
}

/// Law: two updates of one key serialize; whichever runs second is the record
/// left under that key, and no other key moves. A concurrent pair of updates
/// therefore leaves exactly one of the two records, never a mixture.
pub proof fn lemma_second_update_wins<T: Keyed>(s: Seq<T>, a: T, b: T)
    requires
        distinct_keys(s),
        a.key() == b.key(),
        has_key(s, a.key()),
    ensures
        lookup(spec_update(spec_update(s, a), b), b.key()) == Some(b),
        lookup(spec_update(spec_update(s, b), a), a.key()) == Some(a),
        forall|k: u128|
            k != a.key() ==> lookup(spec_update(spec_update(s, a), b), k) == lookup(s, k),
        forall|k: u128|
            k != a.key() ==> lookup(spec_update(spec_update(s, b), a), k) == lookup(s, k),
{
    lemma_replace_at_key(s, a);
    let sa = spec_update(s, a);
    assert(has_key(sa, b.key()));
    lemma_replace_at_key(sa, b);
    lemma_replace_at_key(s, b);
    let sb = spec_update(s, b);
    assert(has_key(sb, a.key()));
    lemma_replace_at_key(sb, a);
}

/// The sequential store engine: a vector of entities with pairwise-distinct
/// keys. Each operation's contract is exact over the sequence of entities.
pub struct RepositoryCore<T> {
    items: Vec<T>,
}

impl<T> View for RepositoryCore<T> {
    type V = Seq<T>;

    closed spec fn view(&self) -> Seq<T> {
        self.items@
    }
}

impl<T: Keyed> RepositoryCore<T> {
    /// Well-formed: no two stored entities share a key.
    pub open spec fn wf(&self) -> bool {
        distinct_keys(self@)
    }

    /// An empty store.
    pub fn new() -> (s: Self)
        ensures
            s@ == Seq::<T>::empty(),
            s.wf(),
    {
        RepositoryCore { items: Vec::new() }
    }

    /// The number of stored entities.
    pub fn len(&self) -> (n: usize)
        ensures
            n == self@.len(),
    {
        self.items.len()
    }

    /// The entity at position `i`, by reference.
    pub fn at_index(&self, i: usize) -> (r: &T)
        requires
            i < self@.len(),
        ensures
            *r == self@[i as int],
    {
        &self.items[i]
    }

    fn index_of(&self, k: u128) -> (r: Option<usize>)
        ensures
            match r {
                Some(i) => i < self@.len() && self@[i as int].key() == k,
                None => !has_key(self@, k),
            },
    {
        let n = self.items.len();
        let mut i: usize = 0;
        while i < n
            invariant
                n == self@.len(),
                i <= n,
                forall|j: int| 0 <= j < i ==> self@[j].key() != k,
            decreases n - i,
        {
            if self.items[i].key_of() == k {
                return Some(i);
            }
            i = i + 1;
        }
        None
    }

    /// Insert or overwrite by key; always succeeds. Uniqueness of any other
    /// field is the calling use case's concern, not this layer's.
    pub fn save(&mut self, e: T)
        requires
            old(self).wf(),
        ensures
            final(self).wf(),
            final(self)@ == spec_save(old(self)@, e),
            lookup(final(self)@, e.key()) == Some(e),
    {
        let k = e.key_of();
        match self.index_of(k) {
            Some(i) => {
                proof {
                    lemma_found_is_key_index(self@, k, i as int);
                    lemma_replace_at_key(self@, e);
                }
                self.items[i] = e;
            }
            None => {
                proof {
                    lemma_push_new_key(self@, e);
                }
                self.items.push(e);
            }
        }
    }

    /// A copy of the entity stored under `id`, if any; the store itself is
    /// never handed out.
    pub fn get_by_id(&self, id: u128) -> (r: Option<T>)
        requires
            self.wf(),
        ensures
            r == lookup(self@, id),
            r is Some <==> has_key(self@, id),
    {
        match self.index_of(id) {
            Some(i) => {
                proof {
                    lemma_found_is_key_index(self@, id, i as int);
                }
                Some(self.items[i].duplicate())
            }
            None => None,
        }
    }

    /// A point-in-time copy of the whole store, in storage order.
    pub fn list(&self) -> (r: Vec<T>)
        ensures
            r@ == self@,
    {
        let n = self.items.len();
        let mut out: Vec<T> = Vec::new();
        let mut i: usize = 0;
        while i < n
            invariant
                n == self@.len(),
                i <= n,
                out@ =~= self@.subrange(0, i as int),
            decreases n - i,
        {
            out.push(self.items[i].duplicate());
            proof {
                assert(out@ =~= self@.subrange(0, i + 1 as int));
            }
            i = i + 1;
        }
        proof {
            assert(out@ =~= self@);
        }
        out
    }

    /// Replace the record whose key matches `e`; reports whether a match was
    /// found, and never creates a record.
    pub fn update(&mut self, e: T) -> (r: bool)
        requires
            old(self).wf(),
        ensures
            final(self).wf(),
            r == has_key(old(self)@, e.key()),
            final(self)@ == spec_update(old(self)@, e),
            r ==> lookup(final(self)@, e.key()) == Some(e),
            !r ==> final(self)@ == old(self)@,
    {
        let k = e.key_of();
        match self.index_of(k) {
            Some(i) => {
                proof {
                    lemma_found_is_key_index(self@, k, i as int);
                    lemma_replace_at_key(self@, e);
                }
                self.items[i] = e;
                true
            }
            None => false,
        }
    }

    /// Remove the record stored under `id`; reports whether one was present
    /// (deleting an absent id is not an error).
    pub fn delete(&mut self, id: u128) -> (r: bool)
        requires
            old(self).wf(),
        ensures
            final(self).wf(),
            r == has_key(old(self)@, id),
            final(self)@ == spec_delete(old(self)@, id),
            !has_key(final(self)@, id),
            !r ==> final(self)@ == old(self)@,
    {
        match self.index_of(id) {
            Some(i) => {
                proof {
                    lemma_found_is_key_index(self@, id, i as int);
                    lemma_remove_key(self@, id);
                }
                self.items.remove(i);
                true
            }
            None => false,
        }
    }
}

} // verus!
