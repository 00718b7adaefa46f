//! Small association maps and sets over integer and pair keys.
//!
//! The maps keep their entries in a vector; the value stored for a key is the
//! value of the first entry holding that key, so every operation is exact
//! whatever order the entries are in. The integer map additionally keeps its
//! keys ascending when they were ascending before, which gives the ordered
//! traversal that the blocking-candidate iterator relies on.

use vstd::prelude::*;
use crate::ids::Id;

verus! {

/// Whether `k` occurs as the key of some entry.
pub open spec fn has_key<K, V>(s: Seq<(K, V)>, k: K) -> bool {
    exists|i: int| 0 <= i < s.len() && s[i].0 == k
}

/// `i` is the first entry holding key `k`.
pub open spec fn is_first<K, V>(s: Seq<(K, V)>, k: K, i: int) -> bool {
    &&& 0 <= i < s.len()
    &&& s[i].0 == k
    &&& forall|j: int| 0 <= j < i ==> s[j].0 != k
}

/// The index of the first entry holding key `k`.
pub open spec fn first_index<K, V>(s: Seq<(K, V)>, k: K) -> int {
    choose|i: int| is_first(s, k, i)
}

/// The map that a sequence of entries stands for: each key maps to the value
/// of its first entry.
pub open spec fn entries_map<K, V>(s: Seq<(K, V)>) -> Map<K, V> {
    Map::new(|k: K| has_key(s, k), |k: K| s[first_index(s, k)].1)
}

/// The first entry holding a key is unique.
pub proof fn lemma_first_index<K, V>(s: Seq<(K, V)>, k: K, i: int)
    requires
        is_first(s, k, i),
    ensures
        first_index(s, k) == i,
{
    let c = first_index(s, k);
    assert(is_first(s, k, c));
    if c < i {
        assert(s[c].0 != k);
    } else if i < c {
        assert(s[i].0 != k);
    }
}

/// Every key that occurs has a first entry.
pub proof fn lemma_first_exists<K, V>(s: Seq<(K, V)>, k: K)
    requires
        has_key(s, k),
    ensures
        is_first(s, k, first_index(s, k)),
    decreases s.len(),
{
    let p = s.drop_last();
    assert(forall|j: int| 0 <= j < p.len() ==> p[j] == s[j]);
    if has_key(p, k) {
        lemma_first_exists(p, k);
        let i = first_index(p, k);
        assert(is_first(s, k, i));
        lemma_first_index(s, k, i);
    } else {
        let i = s.len() - 1;
        assert forall|j: int| 0 <= j < i implies s[j].0 != k by {
            assert(p[j] == s[j]);
        }
        assert(s[i].0 == k);
        assert(is_first(s, k, i));
        lemma_first_index(s, k, i);
    }
}

/// Two entry sequences with the same keys at every position and values
/// related entrywise stand for maps with the same domain, and the value of
/// every key is taken from the same position.
pub proof fn lemma_same_keys<K, V, W>(s: Seq<(K, V)>, t: Seq<(K, W)>, k: K)
    requires
        s.len() == t.len(),
        forall|i: int| 0 <= i < s.len() ==> s[i].0 == t[i].0,
        has_key(s, k),
    ensures
        has_key(t, k),
        first_index(s, k) == first_index(t, k),
        is_first(s, k, first_index(s, k)),
{
    lemma_first_exists(s, k);
    let i = first_index(s, k);
    assert(is_first(t, k, i));
    lemma_first_index(t, k, i);
}

/// Keys strictly ascending.
pub open spec fn ascending<V>(s: Seq<(i64, V)>) -> bool {
    forall|i: int, j: int| 0 <= i < j < s.len() ==> s[i].0 < s[j].0
}

/// A map from 64-bit integers, kept in ascending key order.
pub struct IntMap<V> {
    pub entries: Vec<(i64, V)>,
}

impl<V> View for IntMap<V> {
    type V = Map<i64, V>;

    open spec fn view(&self) -> Map<i64, V> {
        entries_map(self.entries@)
    }
}

impl<V> IntMap<V> {
    /// The empty map.
    pub fn new() -> (r: Self)
        ensures
            r@ == Map::<i64, V>::empty(),
            r.entries@.len() == 0,
    {
        let r = IntMap { entries: Vec::new() };
        assert(r@ =~= Map::<i64, V>::empty());
        r
    }

    /// The index of the first entry with key `k`, if any.
    pub fn find(&self, k: i64) -> (r: Option<usize>)
        ensures
            match r {
                Some(i) => is_first(self.entries@, k, i as int) && first_index(self.entries@, k) == i,
                None => !has_key(self.entries@, k),
            },
    {
        let mut i: usize = 0;
        while i < self.entries.len()
            invariant
                0 <= i <= self.entries@.len(),
                forall|j: int| 0 <= j < i ==> self.entries@[j].0 != k,
            decreases self.entries@.len() - i,
        {
            if self.entries[i].0 == k {
                proof { lemma_first_index(self.entries@, k, i as int); }
                return Some(i);
            }
            i = i + 1;
        }
        None
    }

    /// Whether the map holds key `k`.
    pub fn contains_key(&self, k: &i64) -> (r: bool)
        ensures
            r == self@.contains_key(*k),
    {
        self.find(*k).is_some()
    }

    /// The value stored for `k`.
    pub fn get(&self, k: &i64) -> (r: Option<&V>)
        ensures
            match r {
                Some(v) => self@.contains_key(*k) && *v == self@[*k],
                None => !self@.contains_key(*k),
            },
    {
        match self.find(*k) {
            Some(i) => Some(&self.entries[i].1),
            None => None,
        }
    }

    /// Whether the map holds no entry.
    pub fn is_empty(&self) -> (r: bool)
        ensures
            r == (self@.dom() =~= Set::<i64>::empty()),
            r == (self.entries@.len() == 0),
    {
        if self.entries.len() == 0 {
            assert(self@.dom() =~= Set::<i64>::empty());
            true
        } else {
            assert(self@.dom().contains(self.entries@[0].0));
            false
        }
    }

    /// The number of entries.
    pub fn len(&self) -> (r: usize)
        ensures
            r == self.entries@.len(),
    {
        self.entries.len()
    }

    /// The position of the first entry whose key is not below `k`.
    fn lower_bound(&self, k: i64) -> (r: usize)
        ensures
            r <= self.entries@.len(),
            forall|j: int| 0 <= j < r ==> self.entries@[j].0 < k,
            r < self.entries@.len() ==> self.entries@[r as int].0 >= k,
    {
        let mut i: usize = 0;
        while i < self.entries.len()
            invariant
                0 <= i <= self.entries@.len(),
                forall|j: int| 0 <= j < i ==> self.entries@[j].0 < k,
            decreases self.entries@.len() - i,
        {
            if self.entries[i].0 >= k {
                return i;
            }
            i = i + 1;
        }
        i
    }

    /// Stores `v` for `k`, replacing the value stored before.
    pub fn insert(&mut self, k: i64, v: V)
        ensures
            final(self)@ == old(self)@.insert(k, v),
            ascending(old(self).entries@) ==> ascending(final(self).entries@),
    {
        let p = self.lower_bound(k);
        let ghost s = self.entries@;
        if p < self.entries.len() && self.entries[p].0 == k {
            let old_key = self.entries[p].0;
            self.entries.set(p, (old_key, v));
            proof {
                let t = self.entries@;
                assert(is_first(s, k, p as int));
                assert(is_first(t, k, p as int));
                lemma_first_index(t, k, p as int);
                assert forall|q: i64| #[trigger] has_key(t, q) == has_key(s, q) by {
                    if has_key(s, q) && q != k {
                        lemma_first_exists(s, q);
                        let i = first_index(s, q);
                        assert(t[i].0 == q);
                    }
                    if has_key(t, q) && q != k {
                        lemma_first_exists(t, q);
                        let i = first_index(t, q);
                        assert(s[i].0 == q);
                    }
                }
                assert forall|q: i64| has_key(t, q) && q != k implies t[first_index(t, q)].1 == s[first_index(s, q)].1 by {
                    lemma_first_exists(s, q);
                    let i = first_index(s, q);
                    assert(i != p);
                    assert(is_first(t, q, i));
                    lemma_first_index(t, q, i);
                }
                assert(entries_map(t) =~= entries_map(s).insert(k, v));
            }
        } else {
            self.entries.insert(p, (k, v));
            proof {
                let t = self.entries@;
                assert(forall|j: int| 0 <= j < p ==> t[j] == s[j]);
                assert(forall|j: int| p < j < t.len() ==> t[j] == s[j - 1]);
                assert(is_first(t, k, p as int));
                lemma_first_index(t, k, p as int);
                assert forall|q: i64| q != k implies #[trigger] has_key(t, q) == has_key(s, q) by {
                    if has_key(s, q) {
                        lemma_first_exists(s, q);
                        let i = first_index(s, q);
                        if i < p {
                            assert(t[i].0 == q);
                        } else {
                            assert(t[i + 1].0 == q);
                        }
                    }
                    if has_key(t, q) {
                        lemma_first_exists(t, q);
                        let i = first_index(t, q);
                        if i < p {
                            assert(s[i].0 == q);
                        } else {
                            assert(i != p);
                            assert(s[i - 1].0 == q);
                        }
                    }
                }
                assert forall|q: i64| has_key(t, q) && q != k implies t[first_index(t, q)].1 == s[first_index(s, q)].1 by {
                    lemma_first_exists(s, q);
                    let i = first_index(s, q);
                    if i < p {
                        assert(is_first(t, q, i));
                        lemma_first_index(t, q, i);
                    } else {
                        assert forall|j: int| 0 <= j < i + 1 implies t[j].0 != q by {
                            if j < p {
                            } else if j > p {
                                assert(t[j] == s[j - 1]);
                            }
                        }
                        assert(is_first(t, q, i + 1));
                        lemma_first_index(t, q, i + 1);
                    }
                }
                assert(entries_map(t) =~= entries_map(s).insert(k, v));
                if ascending(s) {
                    assert forall|i: int, j: int| 0 <= i < j < t.len() implies t[i].0 < t[j].0 by {
                        if j < p {
                        } else if j == p {
                        } else if i < p {
                            assert(t[j] == s[j - 1]);
                            assert(s[p as int].0 >= k);
                        } else if i == p {
                            assert(t[j] == s[j - 1]);
                            assert(s[p as int].0 >= k);
                            assert(s[p as int].0 != k);
                            if j - 1 > p {
                                assert(s[p as int].0 < s[j - 1].0);
                            }
                        } else {
                        }
                    }
                }
            }
        }
    }

    /// Removes every entry with key `k`; tells whether there was one.
    pub fn remove(&mut self, k: &i64) -> (r: bool)
        ensures
            r == old(self)@.contains_key(*k),
            final(self)@ == old(self)@.remove(*k),
            ascending(old(self).entries@) ==> ascending(final(self).entries@),
    {
        let ghost s = self.entries@;
        let mut found = false;
        loop
            invariant
                entries_map(self.entries@).remove(*k) == entries_map(s).remove(*k),
                found ==> has_key(s, *k),
                !found ==> self.entries@ == s,
                ascending(s) ==> ascending(self.entries@),
            ensures
                entries_map(self.entries@).remove(*k) == entries_map(s).remove(*k),
                found ==> has_key(s, *k),
                !found ==> self.entries@ == s,
                ascending(s) ==> ascending(self.entries@),
                !has_key(self.entries@, *k),
            decreases self.entries@.len(),
        {
            match self.find(*k) {
                Some(i) => {
                    let ghost before = self.entries@;
                    self.entries.remove(i);
                    proof {
                        lemma_remove_first(before, *k, i as int);
                        assert(has_key(before, *k));
                    }
                    found = true;
                },
                None => {
                    break;
                },
            }
        }
        proof {
            assert(entries_map(self.entries@) =~= entries_map(self.entries@).remove(*k));
        }
        found
    }

    /// Removes every entry.
    pub fn clear(&mut self)
        ensures
            final(self)@ == Map::<i64, V>::empty(),
            final(self).entries@.len() == 0,
    {
        self.entries.clear();
        assert(entries_map(self.entries@) =~= Map::<i64, V>::empty());
    }

    /// The key of the first entry; for an ascending map, the least key.
    pub fn first_key(&self) -> (r: Option<i64>)
        ensures
            r == (if self.entries@.len() == 0 { None } else { Some(self.entries@[0].0) }),
            r is None <==> self@.dom() =~= Set::<i64>::empty(),
            ascending(self.entries@) && r is Some ==> forall|q: i64| #[trigger] self@.contains_key(q) ==> r->0 <= q,
    {
        if self.entries.len() == 0 {
            assert(self@.dom() =~= Set::<i64>::empty());
            None
        } else {
            assert(self@.dom().contains(self.entries@[0].0));
            proof {
                if ascending(self.entries@) {
                    assert forall|q: i64| #[trigger] self@.contains_key(q) implies self.entries@[0].0 <= q by {
                        lemma_first_exists(self.entries@, q);
                    }
                }
            }
            Some(self.entries[0].0)
        }
    }

    /// A mutable reference to the value stored for `k`, which the map holds.
    pub fn value_mut(&mut self, k: i64) -> (r: &mut V)
        requires
            old(self)@.contains_key(k),
        ensures
            *r == old(self)@[k],
            final(self)@ == old(self)@.insert(k, *final(r)),
            final(self).entries@.len() == old(self).entries@.len(),
            forall|j: int| 0 <= j < old(self).entries@.len() ==> (#[trigger] final(self).entries@[j]).0 == old(self).entries@[j].0,
    {
        let i = match self.find(k) {
            Some(i) => i,
            None => 0,
        };
        let ghost s = self.entries@;
        let r = &mut self.entries[i].1;
        proof {
            let t = s.update(i as int, (k, *final(r)));
            assert(is_first(t, k, i as int));
            lemma_first_index(t, k, i as int);
            assert forall|q: i64| has_key(t, q) == has_key(s, q) by {
                if has_key(s, q) {
                    lemma_first_exists(s, q);
                    assert(t[first_index(s, q)].0 == q);
                }
                if has_key(t, q) {
                    lemma_first_exists(t, q);
                    assert(s[first_index(t, q)].0 == q);
                }
            }
            assert forall|q: i64| has_key(t, q) && q != k implies t[first_index(t, q)].1 == s[first_index(s, q)].1 by {
                lemma_same_keys(s, t, q);
            }
            assert(entries_map(t) =~= entries_map(s).insert(k, *final(r)));
        }
        r
    }
}

impl<V: Copy> IntMap<V> {
    /// A copy holding the same entries in the same order.
    pub fn copy(&self) -> (r: Self)
        ensures
            r.entries@ == self.entries@,
            r@ == self@,
    {
        let mut entries: Vec<(i64, V)> = Vec::new();
        let mut i: usize = 0;
        while i < self.entries.len()
            invariant
                0 <= i <= self.entries@.len(),
                entries@ == self.entries@.subrange(0, i as int),
            decreases self.entries@.len() - i,
        {
            let e = self.entries[i];
            entries.push(e);
            i = i + 1;
        }
        assert(entries@ =~= self.entries@);
        IntMap { entries }
    }
}

/// Removing the first entry with key `k` keeps the map on every other key.
pub proof fn lemma_remove_first<V>(s: Seq<(i64, V)>, k: i64, p: int)
    requires
        is_first(s, k, p),
    ensures
        entries_map(s.remove(p)).remove(k) == entries_map(s).remove(k),
        ascending(s) ==> ascending(s.remove(p)),
{
    let t = s.remove(p);
    assert(forall|j: int| 0 <= j < p ==> t[j] == s[j]);
    assert(forall|j: int| p <= j < t.len() ==> t[j] == s[j + 1]);
    assert forall|q: i64| q != k implies #[trigger] has_key(t, q) == has_key(s, q) by {
        if has_key(s, q) {
            lemma_first_exists(s, q);
            let i = first_index(s, q);
            if i < p {
                assert(t[i].0 == q);
            } else {
                assert(i != p);
                assert(t[i - 1].0 == q);
            }
        }
        if has_key(t, q) {
            lemma_first_exists(t, q);
            let i = first_index(t, q);
            if i < p {
                assert(s[i].0 == q);
            } else {
                assert(s[i + 1].0 == q);
            }
        }
    }
    assert forall|q: i64| has_key(t, q) && q != k implies t[first_index(t, q)].1 == s[first_index(s, q)].1 by {
        lemma_first_exists(s, q);
        let i = first_index(s, q);
        if i < p {
            assert(is_first(t, q, i));
            lemma_first_index(t, q, i);
        } else {
            assert(i != p);
            assert forall|j: int| 0 <= j < i - 1 implies t[j].0 != q by {
                if j < p {
                } else {
                    assert(t[j] == s[j + 1]);
                }
            }
            assert(is_first(t, q, i - 1));
            lemma_first_index(t, q, i - 1);
        }
    }
    assert(entries_map(t).remove(k) =~= entries_map(s).remove(k));
}

/// A set of 64-bit integers.
pub struct IntSet {
    pub elems: Vec<i64>,
}

impl View for IntSet {
    type V = Set<i64>;

    open spec fn view(&self) -> Set<i64> {
        Set::new(|x: i64| self.elems@.contains(x))
    }
}

impl IntSet {
    /// The empty set.
    pub fn new() -> (r: Self)
        ensures
            r@ == Set::<i64>::empty(),
            r.elems@.len() == 0,
    {
        let r = IntSet { elems: Vec::new() };
        assert(r@ =~= Set::<i64>::empty());
        r
    }

    fn find(&self, x: i64) -> (r: Option<usize>)
        ensures
            match r {
                Some(i) => i < self.elems@.len() && self.elems@[i as int] == x,
                None => !self.elems@.contains(x),
            },
    {
        let mut i: usize = 0;
        while i < self.elems.len()
            invariant
                0 <= i <= self.elems@.len(),
                forall|j: int| 0 <= j < i ==> self.elems@[j] != x,
            decreases self.elems@.len() - i,
        {
            if self.elems[i] == x {
                return Some(i);
            }
            i = i + 1;
        }
        None
    }

    /// Whether `x` is a member.
    pub fn contains(&self, x: &i64) -> (r: bool)
        ensures
            r == self@.contains(*x),
    {
        self.find(*x).is_some()
    }

    /// Adds `x`; tells whether it was not a member before.
    pub fn insert(&mut self, x: i64) -> (r: bool)
        ensures
            final(self)@ == old(self)@.insert(x),
            r == !old(self)@.contains(x),
            old(self).elems@.no_duplicates() ==> final(self).elems@.no_duplicates(),
    {
        if self.find(x).is_some() {
            assert(self@ =~= self@.insert(x));
            false
        } else {
            let ghost s = self.elems@;
            self.elems.push(x);
            proof {
                assert forall|y: i64| #[trigger] self.elems@.contains(y) == (s.contains(y) || y == x) by {
                    if self.elems@.contains(y) {
                        let j = choose|j: int| 0 <= j < self.elems@.len() && self.elems@[j] == y;
                        if j < s.len() {
                            assert(s[j] == y);
                        }
                    }
                    if s.contains(y) {
                        let j = choose|j: int| 0 <= j < s.len() && s[j] == y;
                        assert(self.elems@[j] == y);
                    }
                    if y == x {
                        assert(self.elems@[s.len() as int] == x);
                    }
                }
                assert(final(self)@ =~= old(self)@.insert(x)) by {
                    assert(self@ =~= old(self)@.insert(x));
                }
            }
            true
        }
    }

    /// Removes `x`; tells whether it was a member.
    pub fn remove(&mut self, x: &i64) -> (r: bool)
        ensures
            final(self)@ == old(self)@.remove(*x),
            r == old(self)@.contains(*x),
            old(self).elems@.no_duplicates() ==> final(self).elems@.no_duplicates(),
    {
        let ghost s = self.elems@;
        let mut found = false;
        loop
            invariant
                forall|y: i64| y != *x ==> (#[trigger] self.elems@.contains(y) == s.contains(y)),
                found ==> s.contains(*x),
                !found ==> self.elems@ == s,
                s.no_duplicates() ==> self.elems@.no_duplicates(),
            ensures
                forall|y: i64| y != *x ==> (#[trigger] self.elems@.contains(y) == s.contains(y)),
                found ==> s.contains(*x),
                !found ==> self.elems@ == s,
                s.no_duplicates() ==> self.elems@.no_duplicates(),
                !self.elems@.contains(*x),
            decreases self.elems@.len(),
        {
            match self.find(*x) {
                Some(i) => {
                    let ghost before = self.elems@;
                    self.elems.remove(i);
                    proof {
                        let t = self.elems@;
                        assert(forall|j: int| 0 <= j < i ==> t[j] == before[j]);
                        assert(forall|j: int| i <= j < t.len() ==> t[j] == before[j + 1]);
                        assert forall|y: i64| y != *x implies (#[trigger] t.contains(y) == before.contains(y)) by {
                            if t.contains(y) {
                                let j = choose|j: int| 0 <= j < t.len() && t[j] == y;
                                if j < i {
                                    assert(before[j] == y);
                                } else {
                                    assert(before[j + 1] == y);
                                }
                            }
                            if before.contains(y) {
                                let j = choose|j: int| 0 <= j < before.len() && before[j] == y;
                                if j < i {
                                    assert(t[j] == y);
                                } else {
                                    assert(j != i);
                                    assert(t[j - 1] == y);
                                }
                            }
                        }
                        assert(before.contains(*x));
                        if before.no_duplicates() {
                            assert forall|a: int, b: int| 0 <= a < t.len() && 0 <= b < t.len() && a != b implies t[a] != t[b] by {
                                let a2 = if a < i { a } else { a + 1 };
                                let b2 = if b < i { b } else { b + 1 };
                                assert(t[a] == before[a2]);
                                assert(t[b] == before[b2]);
                            }
                        }
                    }
                    found = true;
                },
                None => {
                    break;
                },
            }
        }
        assert(self@ =~= old(self)@.remove(*x));
        found
    }

    /// Whether the set has no member.
    pub fn is_empty(&self) -> (r: bool)
        ensures
            r == (self@ =~= Set::<i64>::empty()),
            r == (self.elems@.len() == 0),
    {
        if self.elems.len() == 0 {
            assert(self@ =~= Set::<i64>::empty());
            true
        } else {
            assert(self@.contains(self.elems@[0]));
            false
        }
    }

    /// Removes every member.
    pub fn clear(&mut self)
        ensures
            final(self)@ == Set::<i64>::empty(),
            final(self).elems@.len() == 0,
    {
        self.elems.clear();
        assert(self@ =~= Set::<i64>::empty());
    }

    /// A copy with the same members in the same order.
    pub fn copy(&self) -> (r: Self)
        ensures
            r.elems@ == self.elems@,
            r@ == self@,
    {
        let elems = self.elems.clone();
        assert(elems@ =~= self.elems@);
        IntSet { elems }
    }

    /// The members, in the set's storage order.
    pub fn to_vec(&self) -> (r: Vec<i64>)
        ensures
            r@ == self.elems@,
            forall|x: i64| #[trigger] r@.contains(x) == self@.contains(x),
    {
        let r = self.elems.clone();
        assert(r@ =~= self.elems@);
        r
    }
}

/// The key of the candidate hashes: a concept and its polarity.
pub type PairKey = (Id, bool);

/// A map keyed by a concept handle and a polarity flag.
pub struct PairMap<V> {
    pub entries: Vec<(PairKey, V)>,
}

impl<V> View for PairMap<V> {
    type V = Map<PairKey, V>;

    open spec fn view(&self) -> Map<PairKey, V> {
        entries_map(self.entries@)
    }
}

impl<V> PairMap<V> {
    /// The empty map.
    pub fn new() -> (r: Self)
        ensures
            r@ == Map::<PairKey, V>::empty(),
            r.entries@.len() == 0,
    {
        let r = PairMap { entries: Vec::new() };
        assert(r@ =~= Map::<PairKey, V>::empty());
        r
    }

    /// The index of the first entry with key `k`, if any.
    pub fn find(&self, k: PairKey) -> (r: Option<usize>)
        ensures
            match r {
                Some(i) => is_first(self.entries@, k, i as int) && first_index(self.entries@, k) == i,
                None => !has_key(self.entries@, k),
            },
    {
        let mut i: usize = 0;
        while i < self.entries.len()
            invariant
                0 <= i <= self.entries@.len(),
                forall|j: int| 0 <= j < i ==> self.entries@[j].0 != k,
            decreases self.entries@.len() - i,
        {
            let ek = self.entries[i].0;
            if ek.0 == k.0 && ek.1 == k.1 {
                proof { lemma_first_index(self.entries@, k, i as int); }
                return Some(i);
            }
            i = i + 1;
        }
        None
    }

    /// Whether the map holds key `k`.
    pub fn contains_key(&self, k: &PairKey) -> (r: bool)
        ensures
            r == self@.contains_key(*k),
    {
        self.find(*k).is_some()
    }

    /// The value stored for `k`.
    pub fn get(&self, k: &PairKey) -> (r: Option<&V>)
        ensures
            match r {
                Some(v) => self@.contains_key(*k) && *v == self@[*k],
                None => !self@.contains_key(*k),
            },
    {
        match self.find(*k) {
            Some(i) => Some(&self.entries[i].1),
            None => None,
        }
    }

    /// The number of entries.
    pub fn len(&self) -> (r: usize)
        ensures
            r == self.entries@.len(),
    {
        self.entries.len()
    }

    /// Stores `v` for `k`, replacing the value stored before.
    pub fn insert(&mut self, k: PairKey, v: V)
        ensures
            final(self)@ == old(self)@.insert(k, v),
    {
        let ghost s = self.entries@;
        match self.find(k) {
            Some(i) => {
                self.entries.set(i, (k, v));
                proof {
                    let t = self.entries@;
                    assert(is_first(t, k, i as int));
                    lemma_first_index(t, k, i as int);
                    assert forall|q: PairKey| has_key(t, q) == has_key(s, q) by {
                        if has_key(s, q) {
                            lemma_first_exists(s, q);
                            assert(t[first_index(s, q)].0 == q);
                        }
                        if has_key(t, q) {
                            lemma_first_exists(t, q);
                            assert(s[first_index(t, q)].0 == q);
                        }
                    }
                    assert forall|q: PairKey| has_key(t, q) && q != k implies t[first_index(t, q)].1 == s[first_index(s, q)].1 by {
                        lemma_same_keys(s, t, q);
                    }
                    assert(entries_map(t) =~= entries_map(s).insert(k, v));
                }
            },
            None => {
                self.entries.push((k, v));
                proof {
                    let t = self.entries@;
                    assert(forall|j: int| 0 <= j < s.len() ==> t[j] == s[j]);
                    assert(is_first(t, k, s.len() as int));
                    lemma_first_index(t, k, s.len() as int);
                    assert forall|q: PairKey| q != k implies #[trigger] has_key(t, q) == has_key(s, q) by {
                        if has_key(s, q) {
                            lemma_first_exists(s, q);
                            assert(t[first_index(s, q)].0 == q);
                        }
                        if has_key(t, q) {
                            lemma_first_exists(t, q);
                            assert(s[first_index(t, q)].0 == q);
                        }
                    }
                    assert forall|q: PairKey| has_key(t, q) && q != k implies t[first_index(t, q)].1 == s[first_index(s, q)].1 by {
                        lemma_first_exists(s, q);
                        let i = first_index(s, q);
                        assert(is_first(t, q, i));
                        lemma_first_index(t, q, i);
                    }
                    assert(entries_map(t) =~= entries_map(s).insert(k, v));
                }
            },
        }
    }

    /// Removes every entry.
    pub fn clear(&mut self)
        ensures
            final(self)@ == Map::<PairKey, V>::empty(),
            final(self).entries@.len() == 0,
    {
        self.entries.clear();
        assert(entries_map(self.entries@) =~= Map::<PairKey, V>::empty());
    }

    /// A mutable reference to the value stored for `k`, which the map holds.
    pub fn value_mut(&mut self, k: PairKey) -> (r: &mut V)
        requires
            old(self)@.contains_key(k),
        ensures
            *r == old(self)@[k],
            final(self)@ == old(self)@.insert(k, *final(r)),
    {
        let i = match self.find(k) {
            Some(i) => i,
            None => 0,
        };
        let ghost s = self.entries@;
        let r = &mut self.entries[i].1;
        proof {
            let t = s.update(i as int, (k, *final(r)));
            assert(is_first(t, k, i as int));
            lemma_first_index(t, k, i as int);
            assert forall|q: PairKey| has_key(t, q) == has_key(s, q) by {
                if has_key(s, q) {
                    lemma_first_exists(s, q);
                    assert(t[first_index(s, q)].0 == q);
                }
                if has_key(t, q) {
                    lemma_first_exists(t, q);
                    assert(s[first_index(t, q)].0 == q);
                }
            }
            assert forall|q: PairKey| has_key(t, q) && q != k implies t[first_index(t, q)].1 == s[first_index(s, q)].1 by {
                lemma_same_keys(s, t, q);
            }
            assert(entries_map(t) =~= entries_map(s).insert(k, *final(r)));
        }
        r
    }
}

impl<V: Copy> PairMap<V> {
    /// A copy holding the same entries in the same order.
    pub fn copy(&self) -> (r: Self)
        ensures
            r.entries@ == self.entries@,
            r@ == self@,
    {
        let mut entries: Vec<(PairKey, V)> = Vec::new();
        let mut i: usize = 0;
        while i < self.entries.len()
            invariant
                0 <= i <= self.entries@.len(),
                entries@ == self.entries@.subrange(0, i as int),
            decreases self.entries@.len() - i,
        {
            let e = self.entries[i];
            entries.push(e);
            i = i + 1;
        }
        assert(entries@ =~= self.entries@);
        PairMap { entries }
    }
}

/// Two maps of integer maps hold the same keys in the same order, each with
/// an inner map holding the same entries in the same order.
pub open spec fn nested_entries_eq(a: Seq<(i64, IntMap<i64>)>, b: Seq<(i64, IntMap<i64>)>) -> bool {
    &&& a.len() == b.len()
    &&& forall|i: int| 0 <= i < a.len() ==> (#[trigger] a[i]).0 == b[i].0 && a[i].1.entries@ == b[i].1.entries@
}

impl IntMap<IntMap<i64>> {
    /// A copy of a map of integer maps, inner maps copied too.
    pub fn deep_copy(&self) -> (r: Self)
        ensures
            nested_entries_eq(r.entries@, self.entries@),
    {
        let mut entries: Vec<(i64, IntMap<i64>)> = Vec::new();
        let mut i: usize = 0;
        while i < self.entries.len()
            invariant
                0 <= i <= self.entries@.len(),
                entries@.len() == i,
                forall|j: int| 0 <= j < i ==> (#[trigger] entries@[j]).0 == self.entries@[j].0
                    && entries@[j].1.entries@ == self.entries@[j].1.entries@,
            decreases self.entries@.len() - i,
        {
            let k = self.entries[i].0;
            let inner = self.entries[i].1.copy();
            entries.push((k, inner));
            i = i + 1;
        }
        IntMap { entries }
    }

    /// The inner map stored for `k`, stored empty first if there is none.
    pub fn entry_or_default(&mut self, k: i64) -> (r: &mut IntMap<i64>)
        ensures
            old(self)@.contains_key(k) ==> *r == old(self)@[k],
            !old(self)@.contains_key(k) ==> r.entries@.len() == 0,
            final(self)@ == old(self)@.insert(k, *final(r)),
    {
        if !self.contains_key(&k) {
            self.insert(k, IntMap::new());
        }
        self.value_mut(k)
    }
}

/// A map keyed by an arena handle.
pub struct IdMap<V> {
    pub entries: Vec<(Id, V)>,
}

impl<V> View for IdMap<V> {
    type V = Map<Id, V>;

    open spec fn view(&self) -> Map<Id, V> {
        entries_map(self.entries@)
    }
}

impl<V> IdMap<V> {
    /// The empty map.
    pub fn new() -> (r: Self)
        ensures
            r@ == Map::<Id, V>::empty(),
            r.entries@.len() == 0,
    {
        let r = IdMap { entries: Vec::new() };
        assert(r@ =~= Map::<Id, V>::empty());
        r
    }

    /// The index of the first entry with key `k`, if any.
    pub fn find(&self, k: Id) -> (r: Option<usize>)
        ensures
            match r {
                Some(i) => is_first(self.entries@, k, i as int) && first_index(self.entries@, k) == i,
                None => !has_key(self.entries@, k),
            },
    {
        let mut i: usize = 0;
        while i < self.entries.len()
            invariant
                0 <= i <= self.entries@.len(),
                forall|j: int| 0 <= j < i ==> self.entries@[j].0 != k,
            decreases self.entries@.len() - i,
        {
            let ek = self.entries[i].0;
            if ek == k {
                proof { lemma_first_index(self.entries@, k, i as int); }
                return Some(i);
            }
            i = i + 1;
        }
        None
    }

    /// Whether the map holds key `k`.
    pub fn contains_key(&self, k: &Id) -> (r: bool)
        ensures
            r == self@.contains_key(*k),
    {
        self.find(*k).is_some()
    }

    /// The value stored for `k`.
    pub fn get(&self, k: &Id) -> (r: Option<&V>)
        ensures
            match r {
                Some(v) => self@.contains_key(*k) && *v == self@[*k],
                None => !self@.contains_key(*k),
            },
    {
        match self.find(*k) {
            Some(i) => Some(&self.entries[i].1),
            None => None,
        }
    }

    /// The number of entries.
    pub fn len(&self) -> (r: usize)
        ensures
            r == self.entries@.len(),
    {
        self.entries.len()
    }

    /// Stores `v` for `k`, replacing the value stored before.
    pub fn insert(&mut self, k: Id, v: V)
        ensures
            final(self)@ == old(self)@.insert(k, v),
    {
        let ghost s = self.entries@;
        match self.find(k) {
            Some(i) => {
                self.entries.set(i, (k, v));
                proof {
                    let t = self.entries@;
                    assert(is_first(t, k, i as int));
                    lemma_first_index(t, k, i as int);
                    assert forall|q: Id| has_key(t, q) == has_key(s, q) by {
                        if has_key(s, q) {
                            lemma_first_exists(s, q);
                            assert(t[first_index(s, q)].0 == q);
                        }
                        if has_key(t, q) {
                            lemma_first_exists(t, q);
                            assert(s[first_index(t, q)].0 == q);
                        }
                    }
                    assert forall|q: Id| has_key(t, q) && q != k implies t[first_index(t, q)].1 == s[first_index(s, q)].1 by {
                        lemma_same_keys(s, t, q);
                    }
                    assert(entries_map(t) =~= entries_map(s).insert(k, v));
                }
            },
            None => {
                self.entries.push((k, v));
                proof {
                    let t = self.entries@;
                    assert(forall|j: int| 0 <= j < s.len() ==> t[j] == s[j]);
                    assert(is_first(t, k, s.len() as int));
                    lemma_first_index(t, k, s.len() as int);
                    assert forall|q: Id| q != k implies #[trigger] has_key(t, q) == has_key(s, q) by {
                        if has_key(s, q) {
                            lemma_first_exists(s, q);
                            assert(t[first_index(s, q)].0 == q);
                        }
                        if has_key(t, q) {
                            lemma_first_exists(t, q);
                            assert(s[first_index(t, q)].0 == q);
                        }
                    }
                    assert forall|q: Id| has_key(t, q) && q != k implies t[first_index(t, q)].1 == s[first_index(s, q)].1 by {
                        lemma_first_exists(s, q);
                        let i = first_index(s, q);
                        assert(is_first(t, q, i));
                        lemma_first_index(t, q, i);
                    }
                    assert(entries_map(t) =~= entries_map(s).insert(k, v));
                }
            },
        }
    }

    /// Removes every entry.
    pub fn clear(&mut self)
        ensures
            final(self)@ == Map::<Id, V>::empty(),
            final(self).entries@.len() == 0,
    {
        self.entries.clear();
        assert(entries_map(self.entries@) =~= Map::<Id, V>::empty());
    }

    /// A mutable reference to the value stored for `k`, which the map holds.
    pub fn value_mut(&mut self, k: Id) -> (r: &mut V)
        requires
            old(self)@.contains_key(k),
        ensures
            *r == old(self)@[k],
            final(self)@ == old(self)@.insert(k, *final(r)),
    {
        let i = match self.find(k) {
            Some(i) => i,
            None => 0,
        };
        let ghost s = self.entries@;
        let r = &mut self.entries[i].1;
        proof {
            let t = s.update(i as int, (k, *final(r)));
            assert(is_first(t, k, i as int));
            lemma_first_index(t, k, i as int);
            assert forall|q: Id| has_key(t, q) == has_key(s, q) by {
                if has_key(s, q) {
                    lemma_first_exists(s, q);
                    assert(t[first_index(s, q)].0 == q);
                }
                if has_key(t, q) {
                    lemma_first_exists(t, q);
                    assert(s[first_index(t, q)].0 == q);
                }
            }
            assert forall|q: Id| has_key(t, q) && q != k implies t[first_index(t, q)].1 == s[first_index(s, q)].1 by {
                lemma_same_keys(s, t, q);
            }
            assert(entries_map(t) =~= entries_map(s).insert(k, *final(r)));
        }
        r
    }
}

impl<V> IdMap<V> {
    /// Whether the map holds no entry.
    pub fn is_empty(&self) -> (r: bool)
        ensures
            r == (self@.dom() =~= Set::<Id>::empty()),
            r == (self.entries@.len() == 0),
    {
        if self.entries.len() == 0 {
            assert(self@.dom() =~= Set::<Id>::empty());
            true
        } else {
            assert(self@.dom().contains(self.entries@[0].0));
            false
        }
    }
}

impl<V: Copy> IdMap<V> {
    /// A copy holding the same entries in the same order.
    pub fn copy(&self) -> (r: Self)
        ensures
            r.entries@ == self.entries@,
            r@ == self@,
    {
        let mut entries: Vec<(Id, V)> = Vec::new();
        let mut i: usize = 0;
        while i < self.entries.len()
            invariant
                0 <= i <= self.entries@.len(),
                entries@ == self.entries@.subrange(0, i as int),
            decreases self.entries@.len() - i,
        {
            let e = self.entries[i];
            entries.push(e);
            i = i + 1;
        }
        assert(entries@ =~= self.entries@);
        IdMap { entries }
    }
}

} // verus!
