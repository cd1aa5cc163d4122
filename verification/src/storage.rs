//! Storage maps of the pallet. A `Table` is a map with unique keys; the
//! conflict-of-interest map additionally keeps its entries in the order in which the
//! runtime's storage iterates them: by the `Blake2_128Concat` form of the key, that is
//! the Blake2b-128 digest of the key's encoding followed by the encoding itself,
//! compared byte by byte.
use vstd::prelude::*;
use crate::hashing::{be_u128, be_value, blake2_128, blake2_128_of, digest_value};
use crate::scale::{enc_conflict_key, encode_conflict_key};
use crate::types::{AccountId, ConflictRegistration, ConflictType, RemarkCategory, H256};

verus! {

/// Keys of storage maps: exact equality is decidable.
pub trait StorageKey: Sized {
    fn same_key(&self, other: &Self) -> (r: bool)
        ensures
            r == (*self == *other),
    ;
}

impl StorageKey for H256 {
    fn same_key(&self, other: &Self) -> (r: bool) {
        self.same_as(other)
    }
}

impl StorageKey for u64 {
    fn same_key(&self, other: &Self) -> (r: bool) {
        *self == *other
    }
}

impl StorageKey for (AccountId, ConflictType) {
    fn same_key(&self, other: &Self) -> (r: bool) {
        self.0 == other.0 && self.1 == other.1
    }
}

impl StorageKey for (AccountId, ConflictType, u32) {
    fn same_key(&self, other: &Self) -> (r: bool) {
        self.0 == other.0 && self.1 == other.1 && self.2 == other.2
    }
}

impl StorageKey for (AccountId, RemarkCategory) {
    fn same_key(&self, other: &Self) -> (r: bool) {
        self.0 == other.0 && self.1 == other.1
    }
}

impl StorageKey for (AccountId, RemarkCategory, u32) {
    fn same_key(&self, other: &Self) -> (r: bool) {
        self.0 == other.0 && self.1 == other.1 && self.2 == other.2
    }
}

/// A storage map: a list of entries with pairwise distinct keys.
pub struct Table<K, V> {
    entries: Vec<(K, V)>,
}

impl<K, V> View for Table<K, V> {
    type V = Map<K, V>;

    closed spec fn view(&self) -> Map<K, V> {
        Map::new(
            |k: K| exists|i: int| 0 <= i < self.entries@.len() && self.entries@[i].0 == k,
            |k: K|
                self.entries@[choose|i: int|
                    0 <= i < self.entries@.len() && self.entries@[i].0 == k].1,
        )
    }
}

impl<K: StorageKey, V> Table<K, V> {
    /// Keys are pairwise distinct.
    pub closed spec fn wf(&self) -> bool {
        forall|i: int, j: int|
            0 <= i < j < self.entries@.len() ==> self.entries@[i].0 != self.entries@[j].0
    }

    proof fn lemma_at(&self, i: int)
        requires
            self.wf(),
            0 <= i < self.entries@.len(),
        ensures
            self@.contains_key(self.entries@[i].0),
            self@[self.entries@[i].0] == self.entries@[i].1,
    {
        let k = self.entries@[i].0;
        assert(0 <= i < self.entries@.len() && self.entries@[i].0 == k);
        let j = choose|j: int| 0 <= j < self.entries@.len() && self.entries@[j].0 == k;
        if j < i {
            assert(self.entries@[j].0 != self.entries@[i].0);
        } else if j > i {
            assert(self.entries@[i].0 != self.entries@[j].0);
        }
    }

    /// The empty map.
    pub fn new() -> (r: Self)
        ensures
            r.wf(),
            r@ == Map::<K, V>::empty(),
    {
        let r = Table { entries: Vec::new() };
        assert(r@ =~= Map::<K, V>::empty());
        r
    }

    fn find(&self, k: &K) -> (r: Option<usize>)
        requires
            self.wf(),
        ensures
            match r {
                Some(i) => i < self.entries@.len() && self.entries@[i as int].0 == *k,
                None => !self@.contains_key(*k),
            },
    {
        let mut i: usize = 0;
        while i < self.entries.len()
            invariant
                i <= self.entries@.len(),
                forall|j: int| 0 <= j < i ==> self.entries@[j].0 != *k,
            decreases self.entries@.len() - i,
        {
            if self.entries[i].0.same_key(k) {
                return Some(i);
            }
            i = i + 1;
        }
        None
    }

    /// Whether the map holds `k`.
    pub fn contains_key(&self, k: &K) -> (r: bool)
        requires
            self.wf(),
        ensures
            r == self@.contains_key(*k),
    {
        match self.find(k) {
            Some(i) => {
                proof {
                    self.lemma_at(i as int);
                }
                true
            },
            None => false,
        }
    }

    /// The value stored under `k`, if any.
    pub fn get(&self, k: &K) -> (r: Option<&V>)
        requires
            self.wf(),
        ensures
            r == (if self@.contains_key(*k) {
                Some(&self@[*k])
            } else {
                None
            }),
    {
        match self.find(k) {
            Some(i) => {
                proof {
                    self.lemma_at(i as int);
                }
                Some(&self.entries[i].1)
            },
            None => None,
        }
    }

    /// Stores `v` under `k`, replacing any previous value.
    pub fn insert(&mut self, k: K, v: V)
        requires
            old(self).wf(),
        ensures
            final(self).wf(),
            final(self)@ == old(self)@.insert(k, v),
    {
        let ghost before = *old(self);
        match self.find(&k) {
            Some(i) => {
                self.entries.set(i, (k, v));
                proof {
                    let after = *self;
                    assert(after.wf()) by {
                        assert forall|a: int, b: int|
                            0 <= a < b < after.entries@.len() implies after.entries@[a].0
                            != after.entries@[b].0 by {
                            assert(before.entries@[a].0 != before.entries@[b].0);
                        }
                    }
                    assert forall|q: K| #[trigger]
                        after@.contains_key(q) == before@.insert(k, v).contains_key(q) by {
                        if after@.contains_key(q) {
                            let j = choose|j: int|
                                0 <= j < after.entries@.len() && after.entries@[j].0 == q;
                            if j != i {
                                before.lemma_at(j);
                            }
                        }
                        if before@.contains_key(q) && q != k {
                            let j = choose|j: int|
                                0 <= j < before.entries@.len() && before.entries@[j].0 == q;
                            after.lemma_at(j);
                        }
                        if q == k {
                            after.lemma_at(i as int);
                        }
                    }
                    assert forall|q: K| after@.contains_key(q) implies after@[q] == before@.insert(
                        k,
                        v,
                    )[q] by {
                        let j = choose|j: int|
                            0 <= j < after.entries@.len() && after.entries@[j].0 == q;
                        after.lemma_at(j);
                        if j != i {
                            before.lemma_at(j);
                        }
                    }
                    assert(after@ =~= before@.insert(k, v));
                }
            },
            None => {
                self.entries.push((k, v));
                proof {
                    let after = *self;
                    let n = before.entries@.len() as int;
                    assert forall|j: int| 0 <= j < n implies before.entries@[j].0 != k by {
                        before.lemma_at(j);
                    }
                    assert(after.wf()) by {
                        assert forall|a: int, b: int|
                            0 <= a < b < after.entries@.len() implies after.entries@[a].0
                            != after.entries@[b].0 by {
                            if b < n {
                                assert(before.entries@[a].0 != before.entries@[b].0);
                            }
                        }
                    }
                    assert forall|q: K| #[trigger]
                        after@.contains_key(q) == before@.insert(k, v).contains_key(q) by {
                        if after@.contains_key(q) {
                            let j = choose|j: int|
                                0 <= j < after.entries@.len() && after.entries@[j].0 == q;
                            if j < n {
                                before.lemma_at(j);
                            }
                        }
                        if before@.contains_key(q) {
                            let j = choose|j: int|
                                0 <= j < before.entries@.len() && before.entries@[j].0 == q;
                            after.lemma_at(j);
                        }
                        if q == k {
                            after.lemma_at(n);
                        }
                    }
                    assert forall|q: K| after@.contains_key(q) implies after@[q] == before@.insert(
                        k,
                        v,
                    )[q] by {
                        let j = choose|j: int|
                            0 <= j < after.entries@.len() && after.entries@[j].0 == q;
                        after.lemma_at(j);
                        if j < n {
                            before.lemma_at(j);
                        }
                    }
                    assert(after@ =~= before@.insert(k, v));
                }
            },
        }
    }

    /// Removes and returns the value stored under `k`, if any.
    pub fn remove(&mut self, k: &K) -> (r: Option<V>)
        requires
            old(self).wf(),
        ensures
            final(self).wf(),
            final(self)@ == old(self)@.remove(*k),
            r == (if old(self)@.contains_key(*k) {
                Some(old(self)@[*k])
            } else {
                None
            }),
    {
        let ghost before = *old(self);
        match self.find(k) {
            Some(i) => {
                proof {
                    before.lemma_at(i as int);
                }
                let (_, v) = self.entries.remove(i);
                proof {
                    let after = *self;
                    let n = before.entries@.len() as int;
                    assert forall|j: int| 0 <= j < after.entries@.len() implies #[trigger]
                        after.entries@[j] == before.entries@[if j < i {
                            j
                        } else {
                            j + 1
                        }] by {}
                    assert(after.wf()) by {
                        assert forall|a: int, b: int|
                            0 <= a < b < after.entries@.len() implies after.entries@[a].0
                            != after.entries@[b].0 by {
                            let a0 = if a < i {
                                a
                            } else {
                                a + 1
                            };
                            let b0 = if b < i {
                                b
                            } else {
                                b + 1
                            };
                            assert(before.entries@[a0].0 != before.entries@[b0].0);
                        }
                    }
                    assert forall|q: K| #[trigger]
                        after@.contains_key(q) == before@.remove(*k).contains_key(q) by {
                        if after@.contains_key(q) {
                            let j = choose|j: int|
                                0 <= j < after.entries@.len() && after.entries@[j].0 == q;
                            let j0 = if j < i {
                                j
                            } else {
                                j + 1
                            };
                            before.lemma_at(j0);
                            assert(before.entries@[j0].0 != before.entries@[i as int].0);
                        }
                        if before@.contains_key(q) && q != *k {
                            let j = choose|j: int|
                                0 <= j < before.entries@.len() && before.entries@[j].0 == q;
                            assert(j != i);
                            let j1 = if j < i {
                                j
                            } else {
                                j - 1
                            };
                            after.lemma_at(j1);
                        }
                    }
                    assert forall|q: K| after@.contains_key(q) implies after@[q] == before@.remove(
                        *k,
                    )[q] by {
                        let j = choose|j: int|
                            0 <= j < after.entries@.len() && after.entries@[j].0 == q;
                        after.lemma_at(j);
                        let j0 = if j < i {
                            j
                        } else {
                            j + 1
                        };
                        before.lemma_at(j0);
                    }
                    assert(after@ =~= before@.remove(*k));
                }
                Some(v)
            },
            None => {
                assert(self@ =~= before@.remove(*k));
                None
            },
        }
    }
}

/// Key of a conflict-of-interest registration: (member, conflict type, nonce).
pub type ConflictKey = (AccountId, ConflictType, u32);

/// Position of a conflict-of-interest key in storage iteration order: the big-endian
/// value of the Blake2b-128 digest of the key's encoding, then the big-endian value of
/// the encoding itself.
pub open spec fn storage_position(k: ConflictKey) -> (nat, nat) {
    (
        be_value(blake2_128_of(enc_conflict_key(k.0, k.1, k.2))@),
        be_value(enc_conflict_key(k.0, k.1, k.2)),
    )
}

/// Whether position `a` comes no later than position `b`.
pub open spec fn position_le(a: (nat, nat), b: (nat, nat)) -> bool {
    a.0 < b.0 || (a.0 == b.0 && a.1 <= b.1)
}

/// Computes the storage position of a conflict-of-interest key.
pub fn conflict_position(k: ConflictKey) -> (r: (u128, u128))
    ensures
        (r.0 as nat, r.1 as nat) == storage_position(k),
{
    let enc = encode_conflict_key(k.0, k.1, k.2);
    let digest = blake2_128(&enc);
    let hi = digest_value(&digest);
    proof {
        assert(enc@.len() == 13) by {
            reveal_with_fuel(crate::scale::le_bytes, 9);
        }
    }
    let lo = be_u128(&enc);
    (hi, lo)
}

/// A conflict-of-interest registration with its key and storage position.
pub struct ConflictEntry {
    pub key: ConflictKey,
    pub position: (u128, u128),
    pub registration: ConflictRegistration,
}

/// The conflict-of-interest map, kept in storage iteration order.
pub struct ConflictStore {
    entries: Vec<ConflictEntry>,
}

impl View for ConflictStore {
    type V = Map<ConflictKey, ConflictRegistration>;

    closed spec fn view(&self) -> Map<ConflictKey, ConflictRegistration> {
        Map::new(
            |k: ConflictKey| exists|i: int| 0 <= i < self.entries@.len() && self.entries@[i].key == k,
            |k: ConflictKey|
                self.entries@[choose|i: int|
                    0 <= i < self.entries@.len() && self.entries@[i].key == k].registration,
        )
    }
}

impl ConflictStore {
    /// The keys in storage iteration order.
    pub closed spec fn keys(&self) -> Seq<ConflictKey> {
        Seq::new(self.entries@.len(), |i: int| self.entries@[i].key)
    }

    /// Keys are pairwise distinct, each entry carries its key's storage position, and
    /// entries are ordered by position.
    pub closed spec fn wf(&self) -> bool {
        &&& forall|i: int, j: int|
            0 <= i < j < self.entries@.len() ==> self.entries@[i].key != self.entries@[j].key
        &&& forall|i: int|
            0 <= i < self.entries@.len() ==> (
            #[trigger] self.entries@[i].position.0 as nat,
            self.entries@[i].position.1 as nat,
        ) == storage_position(self.entries@[i].key)
        &&& forall|i: int, j: int|
            0 <= i < j < self.entries@.len() ==> position_le(
                storage_position(#[trigger] self.entries@[i].key),
                storage_position(#[trigger] self.entries@[j].key),
            )
    }

    proof fn lemma_at(&self, i: int)
        requires
            self.wf(),
            0 <= i < self.entries@.len(),
        ensures
            self@.contains_key(self.entries@[i].key),
            self@[self.entries@[i].key] == self.entries@[i].registration,
    {
        let k = self.entries@[i].key;
        assert(0 <= i < self.entries@.len() && self.entries@[i].key == k);
        let j = choose|j: int| 0 <= j < self.entries@.len() && self.entries@[j].key == k;
        if j < i {
            assert(self.entries@[j].key != self.entries@[i].key);
        } else if j > i {
            assert(self.entries@[i].key != self.entries@[j].key);
        }
    }

    /// The listed keys are exactly the stored keys, without repetition, in storage
    /// iteration order.
    pub proof fn lemma_keys(&self)
        requires
            self.wf(),
        ensures
            forall|k: ConflictKey| self@.contains_key(k) <==> self.keys().contains(k),
            forall|i: int, j: int|
                0 <= i < j < self.keys().len() ==> self.keys()[i] != self.keys()[j],
            forall|i: int, j: int|
                0 <= i < j < self.keys().len() ==> position_le(
                    storage_position(#[trigger] self.keys()[i]),
                    storage_position(#[trigger] self.keys()[j]),
                ),
    {
        assert forall|k: ConflictKey| self@.contains_key(k) <==> self.keys().contains(k) by {
            if self@.contains_key(k) {
                let j = choose|j: int| 0 <= j < self.entries@.len() && self.entries@[j].key == k;
                assert(self.keys()[j] == k);
            }
            if self.keys().contains(k) {
                let j = choose|j: int| 0 <= j < self.keys().len() && self.keys()[j] == k;
                self.lemma_at(j);
            }
        }
    }

    /// The empty map.
    pub fn new() -> (r: Self)
        ensures
            r.wf(),
            r@ == Map::<ConflictKey, ConflictRegistration>::empty(),
            r.keys() == Seq::<ConflictKey>::empty(),
    {
        let r = ConflictStore { entries: Vec::new() };
        assert(r@ =~= Map::<ConflictKey, ConflictRegistration>::empty());
        assert(r.keys() =~= Seq::<ConflictKey>::empty());
        r
    }

    /// Number of registrations.
    pub fn len(&self) -> (r: usize)
        ensures
            r == self.keys().len(),
    {
        self.entries.len()
    }

    /// The key at position `j` of the iteration order.
    pub fn key_at(&self, j: usize) -> (r: ConflictKey)
        requires
            j < self.keys().len(),
        ensures
            r == self.keys()[j as int],
    {
        self.entries[j].key
    }

    /// The registration stored under the key at position `j` of the iteration order.
    pub fn registration_at(&self, j: usize) -> (r: &ConflictRegistration)
        requires
            self.wf(),
            j < self.keys().len(),
        ensures
            self@.contains_key(self.keys()[j as int]),
            *r == self@[self.keys()[j as int]],
    {
        proof {
            self.lemma_at(j as int);
        }
        &self.entries[j].registration
    }

    fn find(&self, k: &ConflictKey) -> (r: Option<usize>)
        requires
            self.wf(),
        ensures
            match r {
                Some(i) => i < self.entries@.len() && self.entries@[i as int].key == *k,
                None => !self@.contains_key(*k),
            },
    {
        let mut i: usize = 0;
        while i < self.entries.len()
            invariant
                i <= self.entries@.len(),
                forall|j: int| 0 <= j < i ==> self.entries@[j].key != *k,
            decreases self.entries@.len() - i,
        {
            if self.entries[i].key.same_key(k) {
                return Some(i);
            }
            i = i + 1;
        }
        None
    }

    /// Whether a registration is stored under `k`.
    pub fn contains_key(&self, k: &ConflictKey) -> (r: bool)
        requires
            self.wf(),
        ensures
            r == self@.contains_key(*k),
    {
        match self.find(k) {
            Some(i) => {
                proof {
                    self.lemma_at(i as int);
                }
                true
            },
            None => false,
        }
    }

    /// The registration stored under `k`, if any.
    pub fn get(&self, k: &ConflictKey) -> (r: Option<&ConflictRegistration>)
        requires
            self.wf(),
        ensures
            r == (if self@.contains_key(*k) {
                Some(&self@[*k])
            } else {
                None
            }),
    {
        match self.find(k) {
            Some(i) => {
                proof {
                    self.lemma_at(i as int);
                }
                Some(&self.entries[i].registration)
            },
            None => None,
        }
    }

    /// Stores a registration under `k`, replacing any previous one; a new key takes its
    /// place in storage iteration order.
    pub fn insert(&mut self, k: ConflictKey, reg: ConflictRegistration)
        requires
            old(self).wf(),
        ensures
            final(self).wf(),
            final(self)@ == old(self)@.insert(k, reg),
            old(self)@.contains_key(k) ==> final(self).keys() == old(self).keys(),
    {
        let ghost before = *old(self);
        match self.find(&k) {
            Some(i) => {
                let position = self.entries[i].position;
                self.entries.set(i, ConflictEntry { key: k, position, registration: reg });
                proof {
                    let after = *self;
                    assert(after.wf()) by {
                        assert forall|a: int, b: int|
                            0 <= a < b < after.entries@.len() implies after.entries@[a].key
                            != after.entries@[b].key by {
                            assert(before.entries@[a].key != before.entries@[b].key);
                        }
                        assert forall|a: int, b: int|
                            0 <= a < b < after.entries@.len() implies position_le(
                                storage_position(#[trigger] after.entries@[a].key),
                                storage_position(#[trigger] after.entries@[b].key),
                            ) by {
                            assert(position_le(
                                storage_position(before.entries@[a].key),
                                storage_position(before.entries@[b].key),
                            ));
                        }
                    }
                    assert forall|q: ConflictKey| #[trigger]
                        after@.contains_key(q) == before@.insert(k, reg).contains_key(q) by {
                        if after@.contains_key(q) {
                            let j = choose|j: int|
                                0 <= j < after.entries@.len() && after.entries@[j].key == q;
                            if j != i {
                                before.lemma_at(j);
                            }
                        }
                        if before@.contains_key(q) && q != k {
                            let j = choose|j: int|
                                0 <= j < before.entries@.len() && before.entries@[j].key == q;
                            after.lemma_at(j);
                        }
                        if q == k {
                            after.lemma_at(i as int);
                        }
                    }
                    assert forall|q: ConflictKey| after@.contains_key(q) implies after@[q]
                        == before@.insert(k, reg)[q] by {
                        let j = choose|j: int|
                            0 <= j < after.entries@.len() && after.entries@[j].key == q;
                        after.lemma_at(j);
                        if j != i {
                            before.lemma_at(j);
                        }
                    }
                    assert(after@ =~= before@.insert(k, reg));
                    assert(after.keys() =~= before.keys());
                }
            },
            None => {
                let position = conflict_position(k);
                let mut p: usize = 0;
                while p < self.entries.len() && (self.entries[p].position.0 < position.0 || (
                self.entries[p].position.0 == position.0 && self.entries[p].position.1
                    <= position.1))
                    invariant
                        *self == before,
                        p <= self.entries@.len(),
                        forall|j: int|
                            0 <= j < p ==> position_le(
                                storage_position(#[trigger] self.entries@[j].key),
                                storage_position(k),
                            ),
                        before.wf(),
                        (position.0 as nat, position.1 as nat) == storage_position(k),
                    decreases self.entries@.len() - p,
                {
                    p = p + 1;
                }
                proof {
                    let n = before.entries@.len() as int;
                    if p < n {
                        assert(position_le(
                            storage_position(k),
                            storage_position(before.entries@[p as int].key),
                        ));
                    }
                    assert forall|j: int| 0 <= j < n implies before.entries@[j].key != k by {
                        before.lemma_at(j);
                    }
                }
                self.entries.insert(p, ConflictEntry { key: k, position, registration: reg });
                proof {
                    let after = *self;
                    let n = before.entries@.len() as int;
                    let pi = p as int;
                    assert forall|j: int| 0 <= j < after.entries@.len() implies #[trigger]
                        after.entries@[j] == (if j < pi {
                            before.entries@[j]
                        } else if j == pi {
                            ConflictEntry { key: k, position, registration: reg }
                        } else {
                            before.entries@[j - 1]
                        }) by {}
                    assert(after.wf()) by {
                        assert forall|a: int, b: int|
                            0 <= a < b < after.entries@.len() implies after.entries@[a].key
                            != after.entries@[b].key by {
                            if a != pi && b != pi {
                                let a0 = if a < pi {
                                    a
                                } else {
                                    a - 1
                                };
                                let b0 = if b < pi {
                                    b
                                } else {
                                    b - 1
                                };
                                assert(before.entries@[a0].key != before.entries@[b0].key);
                            } else if a == pi {
                                assert(before.entries@[b - 1].key != k);
                            } else {
                                assert(before.entries@[a].key != k);
                            }
                        }
                        assert forall|a: int| 0 <= a < after.entries@.len() implies (
                            #[trigger] after.entries@[a].position.0 as nat,
                            after.entries@[a].position.1 as nat,
                        ) == storage_position(after.entries@[a].key) by {
                            if a < pi {
                                assert(before.entries@[a] == after.entries@[a]);
                            } else if a > pi {
                                assert(before.entries@[a - 1] == after.entries@[a]);
                            }
                        }
                        assert forall|a: int, b: int|
                            0 <= a < b < after.entries@.len() implies position_le(
                                storage_position(#[trigger] after.entries@[a].key),
                                storage_position(#[trigger] after.entries@[b].key),
                            ) by {
                            if a != pi && b != pi {
                                let a0 = if a < pi {
                                    a
                                } else {
                                    a - 1
                                };
                                let b0 = if b < pi {
                                    b
                                } else {
                                    b - 1
                                };
                                assert(position_le(
                                    storage_position(before.entries@[a0].key),
                                    storage_position(before.entries@[b0].key),
                                ));
                            } else if a == pi {
                                assert(position_le(
                                    storage_position(k),
                                    storage_position(before.entries@[pi].key),
                                ));
                                if b - 1 > pi {
                                    assert(position_le(
                                        storage_position(before.entries@[pi].key),
                                        storage_position(before.entries@[b - 1].key),
                                    ));
                                }
                            } else {
                                assert(position_le(
                                    storage_position(before.entries@[a].key),
                                    storage_position(k),
                                ));
                            }
                        }
                    }
                    assert forall|q: ConflictKey| #[trigger]
                        after@.contains_key(q) == before@.insert(k, reg).contains_key(q) by {
                        if after@.contains_key(q) {
                            let j = choose|j: int|
                                0 <= j < after.entries@.len() && after.entries@[j].key == q;
                            if j < pi {
                                before.lemma_at(j);
                            } else if j > pi {
                                before.lemma_at(j - 1);
                            }
                        }
                        if before@.contains_key(q) {
                            let j = choose|j: int|
                                0 <= j < before.entries@.len() && before.entries@[j].key == q;
                            if j < pi {
                                after.lemma_at(j);
                            } else {
                                after.lemma_at(j + 1);
                            }
                        }
                        if q == k {
                            after.lemma_at(pi);
                        }
                    }
                    assert forall|q: ConflictKey| after@.contains_key(q) implies after@[q]
                        == before@.insert(k, reg)[q] by {
                        let j = choose|j: int|
                            0 <= j < after.entries@.len() && after.entries@[j].key == q;
                        after.lemma_at(j);
                        if j < pi {
                            before.lemma_at(j);
                        } else if j > pi {
                            before.lemma_at(j - 1);
                        }
                    }
                    assert(after@ =~= before@.insert(k, reg));
                }
            },
        }
    }
}

} // verus!
