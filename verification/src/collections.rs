//! Collections with a fixed capacity, as the tables and frames of the stack
//! need them: pushing into a full one fails and hands the value back.
use vstd::prelude::*;

verus! {

/// The value did not fit: the collection was full.
#[derive(Clone, Copy, Debug, PartialEq, Eq, Structural)]
pub struct CapacityError;

/// A vector that holds at most `N` items.
pub struct Vec<T, const N: usize> {
    items: std::vec::Vec<T>,
}

impl<T, const N: usize> View for Vec<T, N> {
    type V = Seq<T>;

    closed spec fn view(&self) -> Seq<T> {
        self.items@
    }
}

impl<T, const N: usize> Vec<T, N> {
    #[verifier::type_invariant]
    closed spec fn inv(&self) -> bool {
        self.items@.len() <= N
    }

    /// The capacity.
    pub open spec fn capacity() -> nat {
        N as nat
    }

    pub fn new() -> (r: Self)
        ensures
            r@ == Seq::<T>::empty(),
    {
        Vec { items: std::vec::Vec::new() }
    }

    pub fn len(&self) -> (r: usize)
        ensures
            r == self@.len(),
            r <= N,
    {
        proof {
            use_type_invariant(self);
        }
        self.items.len()
    }

    pub fn is_empty(&self) -> (r: bool)
        ensures
            r == (self@.len() == 0),
    {
        self.items.len() == 0
    }

    pub fn is_full(&self) -> (r: bool)
        ensures
            r == (self@.len() >= N),
    {
        self.items.len() >= N
    }

    /// Appends `value`, or hands it back when the vector is full.
    pub fn push(&mut self, value: T) -> (r: Result<(), T>)
        ensures
            old(self)@.len() < N ==> r is Ok && final(self)@ == old(self)@.push(value),
            old(self)@.len() >= N ==> r == Err::<(), T>(value) && final(self)@ == old(self)@,
    {
        proof {
            use_type_invariant(&*self);
        }
        if self.items.len() < N {
            let mut items = std::vec::Vec::new();
            std::mem::swap(&mut items, &mut self.items);
            items.push(value);
            self.items = items;
            Ok(())
        } else {
            Err(value)
        }
    }

    pub fn get(&self, i: usize) -> (r: &T)
        requires
            i < self@.len(),
        ensures
            *r == self@[i as int],
    {
        &self.items[i]
    }

    /// Replaces the item at `i`.
    pub fn set(&mut self, i: usize, value: T)
        requires
            i < old(self)@.len(),
        ensures
            final(self)@ == old(self)@.update(i as int, value),
    {
        proof {
            use_type_invariant(&*self);
        }
        let mut items = std::vec::Vec::new();
        std::mem::swap(&mut items, &mut self.items);
        items.set(i, value);
        self.items = items;
    }

    /// Removes and returns the item at `i`; the items after it move down.
    pub fn remove(&mut self, i: usize) -> (r: T)
        requires
            i < old(self)@.len(),
        ensures
            r == old(self)@[i as int],
            final(self)@ == old(self)@.remove(i as int),
    {
        proof {
            use_type_invariant(&*self);
        }
        let mut items = std::vec::Vec::new();
        std::mem::swap(&mut items, &mut self.items);
        let r = items.remove(i);
        self.items = items;
        r
    }

    /// Removes and returns the last item.
    pub fn pop(&mut self) -> (r: Option<T>)
        ensures
            old(self)@.len() == 0 ==> r is None && final(self)@ == old(self)@,
            old(self)@.len() > 0 ==> r == Some(old(self)@.last()) && final(self)@
                == old(self)@.drop_last(),
    {
        proof {
            use_type_invariant(&*self);
        }
        let mut items = std::vec::Vec::new();
        std::mem::swap(&mut items, &mut self.items);
        let r = items.pop();
        self.items = items;
        r
    }

    /// A vector with the items of `items`, or an error when they are more
    /// than `N`.
    pub fn from_vec(items: std::vec::Vec<T>) -> (r: Result<Self, CapacityError>)
        ensures
            items@.len() <= N ==> r is Ok && r->Ok_0@ == items@,
            items@.len() > N ==> r is Err,
    {
        if items.len() > N {
            return Err(CapacityError);
        }
        Ok(Vec { items })
    }

    pub fn as_slice(&self) -> (r: &[T])
        ensures
            r@ == self@,
    {
        self.items.as_slice()
    }
}

impl<T: Clone, const N: usize> Vec<T, N> {
    /// A vector with clones of the items of `slice`, or an error when they
    /// are more than `N`.
    pub fn from_slice(slice: &[T]) -> (r: Result<Self, CapacityError>)
        ensures
            slice@.len() <= N ==> r is Ok && r->Ok_0@.len() == slice@.len() && forall|i: int|
                0 <= i < slice@.len() ==> cloned(#[trigger] slice@[i], r->Ok_0@[i]),
            slice@.len() > N ==> r == Err::<Self, CapacityError>(CapacityError),
    {
        if slice.len() > N {
            return Err(CapacityError);
        }
        let mut items: std::vec::Vec<T> = std::vec::Vec::new();
        let mut i: usize = 0;
        while i < slice.len()
            invariant
                i <= slice@.len() <= N,
                items@.len() == i,
                forall|k: int| 0 <= k < i ==> cloned(#[trigger] slice@[k], items@[k]),
            decreases slice@.len() - i,
        {
            items.push(slice[i].clone());
            i = i + 1;
        }
        Ok(Vec { items })
    }
}

impl<T: Copy, const N: usize> Vec<T, N> {
    /// A copy of the vector.
    pub fn copy(&self) -> (r: Self)
        ensures
            r@ == self@,
    {
        proof {
            use_type_invariant(self);
        }
        let mut items: std::vec::Vec<T> = std::vec::Vec::new();
        let mut i: usize = 0;
        while i < self.items.len()
            invariant
                i <= self.items@.len() <= N,
                items@ == self.items@.subrange(0, i as int),
            decreases self.items@.len() - i,
        {
            items.push(self.items[i]);
            i = i + 1;
            proof {
                assert(items@ =~= self.items@.subrange(0, i as int));
            }
        }
        proof {
            assert(self.items@.subrange(0, self.items@.len() as int) =~= self.items@);
        }
        Vec { items }
    }
}

/// Keys that a [`HashMap`] can compare.
pub trait MapKey: Copy {
    fn same_key(&self, other: &Self) -> (r: bool)
        ensures
            r == (*self == *other),
    ;
}

impl MapKey for u16 {
    fn same_key(&self, other: &Self) -> (r: bool) {
        *self == *other
    }
}

impl MapKey for u8 {
    fn same_key(&self, other: &Self) -> (r: bool) {
        *self == *other
    }
}

/// A map of at most `N` entries that keeps the order in which keys came.
pub struct HashMap<K: MapKey, V, const N: usize> {
    entries: std::vec::Vec<(K, V)>,
}

/// No key occurs twice.
pub open spec fn keys_unique<K, V>(entries: Seq<(K, V)>) -> bool {
    forall|i: int, j: int|
        0 <= i < entries.len() && 0 <= j < entries.len() && i != j ==> entries[i].0
            != entries[j].0
}

/// Whether an entry has the key `key`.
pub open spec fn entries_has<K, V>(e: Seq<(K, V)>, key: K) -> bool {
    exists|i: int| 0 <= i < e.len() && e[i].0 == key
}

/// The value of an entry with the key `key`, if any.
pub open spec fn entries_get<K, V>(e: Seq<(K, V)>, key: K) -> Option<V> {
    if entries_has(e, key) {
        Some(e[choose|i: int| 0 <= i < e.len() && e[i].0 == key].1)
    } else {
        None
    }
}

/// The entries after `value` is stored under `key`: in the place of the key
/// where it is there, last otherwise.
pub open spec fn entries_put<K, V>(e: Seq<(K, V)>, key: K, value: V) -> Seq<(K, V)> {
    if entries_has(e, key) {
        e.update(choose|i: int| 0 <= i < e.len() && e[i].0 == key, (key, value))
    } else {
        e.push((key, value))
    }
}


impl<K: MapKey, V, const N: usize> HashMap<K, V, N> {
    #[verifier::type_invariant]
    closed spec fn inv(&self) -> bool {
        &&& self.entries@.len() <= N
        &&& keys_unique(self.entries@)
    }

    /// The entries, in the order their keys came.
    pub closed spec fn entries(&self) -> Seq<(K, V)> {
        self.entries@
    }

    /// The entries after `value` is stored under `key` (see [`entries_put`]).
    pub open spec fn spec_put(&self, key: K, value: V) -> Seq<(K, V)> {
        entries_put(self.entries(), key, value)
    }

    /// Whether `key` is stored.
    pub open spec fn spec_has(&self, key: K) -> bool {
        entries_has(self.entries(), key)
    }

    /// The value stored under `key`, if any.
    pub open spec fn spec_get(&self, key: K) -> Option<V> {
        entries_get(self.entries(), key)
    }

    pub fn new() -> (r: Self)
        ensures
            r.entries() == Seq::<(K, V)>::empty(),
    {
        HashMap { entries: std::vec::Vec::new() }
    }

    pub fn len(&self) -> (r: usize)
        ensures
            r == self.entries().len(),
            r <= N,
            keys_unique(self.entries()),
    {
        proof {
            use_type_invariant(self);
        }
        self.entries.len()
    }

    /// The position of `key` among the entries.
    pub fn position(&self, key: &K) -> (r: Option<usize>)
        ensures
            r matches Some(i) ==> i < self.entries().len() && self.entries()[i as int].0 == *key,
            r is None ==> forall|i: int|
                0 <= i < self.entries().len() ==> self.entries()[i].0 != *key,
    {
        let mut i: usize = 0;
        while i < self.entries.len()
            invariant
                i <= self.entries@.len(),
                forall|j: int| 0 <= j < i ==> self.entries@[j].0 != *key,
            decreases self.entries@.len() - i,
        {
            if self.entries[i].0.same_key(key) {
                return Some(i);
            }
            i = i + 1;
        }
        None
    }

    pub fn get(&self, key: &K) -> (r: Option<&V>)
        ensures
            r matches Some(v) ==> self.spec_get(*key) == Some(*v),
            r is None ==> self.spec_get(*key) is None,
            r matches Some(v) ==> exists|i: int|
                0 <= i < self.entries().len() && self.entries()[i].0 == *key && self.entries()[i].1
                    == *v,
            r is None ==> forall|i: int|
                0 <= i < self.entries().len() ==> self.entries()[i].0 != *key,
    {
        proof {
            use_type_invariant(self);
        }
        match self.position(key) {
            Some(i) => {
                proof {
                    let j = choose|j: int|
                        0 <= j < self.entries().len() && self.entries()[j].0 == *key;
                    assert(self.entries()[i as int].0 == *key);
                    assert(j == i as int);
                }
                Some(&self.entries[i].1)
            },
            None => None,
        }
    }

    pub fn contains_key(&self, key: &K) -> (r: bool)
        ensures
            r == exists|i: int| 0 <= i < self.entries().len() && self.entries()[i].0 == *key,
    {
        self.position(key).is_some()
    }

    /// Stores `value` under `key`. A key that is there keeps its place and
    /// gets the new value, whose old value comes back; a new key goes last,
    /// or the pair comes back when the map is full.
    pub fn insert(&mut self, key: K, value: V) -> (r: Result<Option<V>, (K, V)>)
        ensures
            r is Ok <==> (old(self).spec_has(key) || old(self).entries().len() < N),
            r is Ok ==> final(self).entries() == old(self).spec_put(key, value),
            r matches Ok(Some(prev)) ==> old(self).spec_get(key) == Some(prev),
            r is Ok ==> final(self).spec_get(key) == Some(value),
            r is Ok ==> forall|k: K| k != key ==> #[trigger] final(self).spec_get(k) == old(self).spec_get(k),
            r is Ok ==> forall|k: K| #[trigger] final(self).spec_has(k) == (old(self).spec_has(k) || k == key),
            ({
                let e = old(self).entries();
                match r {
                    Ok(Some(prev)) => exists|i: int|
                        0 <= i < e.len() && e[i].0 == key && prev == e[i].1 && final(self).entries()
                            == e.update(i, (key, value)),
                    Ok(None) => (forall|i: int| 0 <= i < e.len() ==> e[i].0 != key) && e.len() < N
                        && final(self).entries() == e.push((key, value)),
                    Err(pair) => pair == (key, value) && (forall|i: int|
                        0 <= i < e.len() ==> e[i].0 != key) && e.len() >= N && final(self).entries()
                        == e,
                }
            }),
    {
        proof {
            use_type_invariant(&*self);
        }
        match self.position(&key) {
            Some(i) => {
                let mut entries = std::vec::Vec::new();
                std::mem::swap(&mut entries, &mut self.entries);
                let (_, prev) = entries.remove(i);
                entries.insert(i, (key, value));
                proof {
                    assert(keys_unique(entries@));
                }
                self.entries = entries;
                proof {
                    assert(self.entries@ =~= old(self).entries@.update(i as int, (key, value)));
                    assert(old(self).entries()[i as int].0 == key);
                    assert(keys_unique(old(self).entries()));
                    let j = choose|j: int|
                        0 <= j < old(self).entries().len() && old(self).entries()[j].0 == key;
                    assert(old(self).entries()[j].0 == key);
                    assert(j == i as int);
                    assert(keys_unique(self.entries()));
                    assert(self.entries()[i as int].0 == key);
                    let k = choose|k: int|
                        0 <= k < self.entries().len() && self.entries()[k].0 == key;
                    assert(self.entries()[k].0 == key);
                    assert(k == i as int);
                    assert forall|k2: K| k2 != key implies #[trigger] self.spec_get(k2) == old(self).spec_get(k2) by {
                        if entries_has(old(self).entries(), k2) {
                            let a = choose|a: int| 0 <= a < old(self).entries().len() && old(self).entries()[a].0 == k2;
                            assert(self.entries()[a].0 == k2);
                            let b = choose|b: int| 0 <= b < self.entries().len() && self.entries()[b].0 == k2;
                            assert(keys_unique(self.entries()));
                            assert(a == b);
                        } else {
                            assert forall|b: int| 0 <= b < self.entries().len() implies self.entries()[b].0 != k2 by {
                                if b != i as int {
                                    assert(self.entries()[b] == old(self).entries()[b]);
                                }
                            }
                        }
                    }
                    assert forall|k2: K| #[trigger] self.spec_has(k2) == (old(self).spec_has(k2) || k2 == key) by {
                        if old(self).spec_has(k2) {
                            let a = choose|a: int| 0 <= a < old(self).entries().len() && old(self).entries()[a].0 == k2;
                            if a == i as int {
                                assert(self.entries()[a].0 == key);
                            } else {
                                assert(self.entries()[a].0 == k2);
                            }
                        }
                        if self.spec_has(k2) {
                            let b = choose|b: int| 0 <= b < self.entries().len() && self.entries()[b].0 == k2;
                            if b != i as int {
                                assert(old(self).entries()[b].0 == k2);
                            }
                        }
                    }
                }
                Ok(Some(prev))
            },
            None => {
                if self.entries.len() < N {
                    let mut entries = std::vec::Vec::new();
                    std::mem::swap(&mut entries, &mut self.entries);
                    entries.push((key, value));
                    proof {
                        assert(keys_unique(entries@));
                    }
                    self.entries = entries;
                    proof {
                        let n = old(self).entries().len() as int;
                        assert(self.entries()[n].0 == key);
                        assert(keys_unique(self.entries()));
                        let k = choose|k: int|
                            0 <= k < self.entries().len() && self.entries()[k].0 == key;
                        assert(self.entries()[k].0 == key);
                        assert(k == n);
                        assert forall|k2: K| k2 != key implies #[trigger] self.spec_get(k2) == old(self).spec_get(k2) by {
                            if entries_has(old(self).entries(), k2) {
                                let a = choose|a: int| 0 <= a < old(self).entries().len() && old(self).entries()[a].0 == k2;
                                assert(self.entries()[a].0 == k2);
                                let b = choose|b: int| 0 <= b < self.entries().len() && self.entries()[b].0 == k2;
                                assert(a == b);
                            } else {
                                assert forall|b: int| 0 <= b < self.entries().len() implies self.entries()[b].0 != k2 by {
                                    if b < n {
                                        assert(self.entries()[b] == old(self).entries()[b]);
                                    }
                                }
                            }
                        }
                        assert forall|k2: K| #[trigger] self.spec_has(k2) == (old(self).spec_has(k2) || k2 == key) by {
                            if old(self).spec_has(k2) {
                                let a = choose|a: int| 0 <= a < old(self).entries().len() && old(self).entries()[a].0 == k2;
                                assert(self.entries()[a].0 == k2);
                            }
                            if self.spec_has(k2) {
                                let b = choose|b: int| 0 <= b < self.entries().len() && self.entries()[b].0 == k2;
                                if b < n {
                                    assert(old(self).entries()[b].0 == k2);
                                }
                            }
                        }
                    }
                    Ok(None)
                } else {
                    Err((key, value))
                }
            },
        }
    }

    /// The entry at position `i`.
    pub fn entry_at(&self, i: usize) -> (r: &(K, V))
        requires
            i < self.entries().len(),
        ensures
            *r == self.entries()[i as int],
    {
        &self.entries[i]
    }
}

/// Two entries of a map with the same key are the same entry.
pub proof fn lemma_keys_unique<K: MapKey, V, const N: usize>(m: &HashMap<K, V, N>, i: int, j: int)
    requires
        keys_unique(m.entries()),
        0 <= i < m.entries().len(),
        0 <= j < m.entries().len(),
        m.entries()[i].0 == m.entries()[j].0,
    ensures
        i == j,
{
}

/// One more item of `s` taken into a filter: it is kept exactly when `pred`
/// holds of it.
pub proof fn lemma_filter_step<T>(s: Seq<T>, pred: spec_fn(T) -> bool, i: int)
    requires
        0 <= i < s.len(),
    ensures
        s.subrange(0, i + 1).filter(pred) == (if pred(s[i]) {
            s.subrange(0, i).filter(pred).push(s[i])
        } else {
            s.subrange(0, i).filter(pred)
        }),
        s.subrange(0, i).filter(pred).len() <= i,
{
    let t = s.subrange(0, i + 1);
    assert(t.drop_last() =~= s.subrange(0, i));
    assert(t.last() == s[i]);
    reveal_with_fuel(Seq::filter, 1);
    s.subrange(0, i).lemma_filter_len(pred);
}

/// Storing `value` under `key` among entries with distinct keys: the key
/// then gives `value`, every other key gives what it gave, and the keys
/// stay distinct.
pub proof fn lemma_entries_put_get<K, V>(e: Seq<(K, V)>, key: K, value: V, other: K)
    requires
        keys_unique(e),
    ensures
        entries_get(entries_put(e, key, value), key) == Some(value),
        other != key ==> entries_get(entries_put(e, key, value), other) == entries_get(e, other),
        keys_unique(entries_put(e, key, value)),
{
    let p = entries_put(e, key, value);
    if entries_has(e, key) {
        let c = choose|i: int| 0 <= i < e.len() && e[i].0 == key;
        assert(p[c].0 == key);
        assert(entries_has(p, key));
        let k = choose|i: int| 0 <= i < p.len() && p[i].0 == key;
        assert(k == c);
        if other != key {
            if entries_has(e, other) {
                let j = choose|i: int| 0 <= i < e.len() && e[i].0 == other;
                assert(p[j] == e[j]);
                assert(entries_has(p, other));
                let jj = choose|i: int| 0 <= i < p.len() && p[i].0 == other;
                assert(jj == j);
            } else {
                if entries_has(p, other) {
                    let jj = choose|i: int| 0 <= i < p.len() && p[i].0 == other;
                    assert(e[jj].0 == other);
                }
            }
        }
    } else {
        let n = e.len() as int;
        assert(p[n].0 == key);
        assert(entries_has(p, key));
        let k = choose|i: int| 0 <= i < p.len() && p[i].0 == key;
        if k < n {
            assert(e[k].0 == key);
        }
        if other != key {
            if entries_has(e, other) {
                let j = choose|i: int| 0 <= i < e.len() && e[i].0 == other;
                assert(p[j] == e[j]);
                assert(entries_has(p, other));
                let jj = choose|i: int| 0 <= i < p.len() && p[i].0 == other;
                assert(jj == j);
            } else {
                if entries_has(p, other) {
                    let jj = choose|i: int| 0 <= i < p.len() && p[i].0 == other;
                    if jj < n {
                        assert(e[jj].0 == other);
                    }
                }
            }
        }
    }
}

} // verus!

