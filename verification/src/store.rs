//! Key/value storage with the semantics of a runtime storage map.

use vstd::prelude::*;

verus! {

broadcast use vstd::array::group_array_axioms;

/// A key of a storage map: a plain value that can be compared at run time.
pub trait StoreKey: View + Sized {
    /// Run-time equality of the two keys' views.
    fn same_key(&self, other: &Self) -> (r: bool)
        ensures
            r == (self@ == other@),
    ;
}

impl StoreKey for u64 {
    fn same_key(&self, other: &Self) -> (r: bool) {
        *self == *other
    }
}

impl StoreKey for [u8; 32] {
    fn same_key(&self, other: &Self) -> (r: bool) {
        let mut i: usize = 0;
        while i < 32
            invariant
                i <= 32,
                forall|j: int| 0 <= j < i ==> self@[j] == other@[j],
            decreases 32 - i,
        {
            if self[i] != other[i] {
                assert(self@[i as int] != other@[i as int]);
                return false;
            }
            i = i + 1;
        }
        assert(self@ =~= other@);
        true
    }
}

impl<A: StoreKey, B: StoreKey> StoreKey for (A, B) {
    fn same_key(&self, other: &Self) -> (r: bool) {
        self.0.same_key(&other.0) && self.1.same_key(&other.1)
    }
}

} // verus!

verus! {

/// A storage map: each key maps to at most one value.
#[verifier::reject_recursive_types(K)]
pub struct Store<K: View, V: View> {
    entries: Vec<(K, V)>,
    contents: Ghost<Map<K::V, V::V>>,
}

impl<K: View, V: View> View for Store<K, V> {
    type V = Map<K::V, V::V>;

    closed spec fn view(&self) -> Map<K::V, V::V> {
        self.contents@
    }
}

impl<K: StoreKey + Copy, V: View> Store<K, V> {
    /// The entries hold each key at most once, and they are exactly the map.
    pub closed spec fn wf(&self) -> bool {
        &&& forall|i: int, j: int|
            0 <= i < j < self.entries@.len() ==> #[trigger] self.entries@[i].0@
                != #[trigger] self.entries@[j].0@
        &&& forall|i: int|
            0 <= i < self.entries@.len() ==> self.contents@.contains_key(
                #[trigger] self.entries@[i].0@,
            ) && self.contents@[self.entries@[i].0@] == self.entries@[i].1@
        &&& forall|k: K::V|
            #[trigger] self.contents@.contains_key(k) ==> exists|i: int|
                0 <= i < self.entries@.len() && #[trigger] self.entries@[i].0@ == k
    }

    /// An empty map.
    pub fn new() -> (s: Self)
        ensures
            s.wf(),
            s@ == Map::<K::V, V::V>::empty(),
    {
        Store { entries: Vec::new(), contents: Ghost(Map::empty()) }
    }

    fn find(&self, k: &K) -> (r: Option<usize>)
        requires
            self.wf(),
        ensures
            match r {
                Some(i) => i < self.entries@.len() && self.entries@[i as int].0@ == k@,
                None => !self@.contains_key(k@),
            },
    {
        let mut i: usize = 0;
        while i < self.entries.len()
            invariant
                i <= self.entries@.len(),
                forall|j: int| 0 <= j < i ==> self.entries@[j].0@ != k@,
            decreases self.entries@.len() - i,
        {
            if self.entries[i].0.same_key(k) {
                return Some(i);
            }
            i = i + 1;
        }
        None
    }

    /// Whether the key is present.
    pub fn contains_key(&self, k: &K) -> (r: bool)
        requires
            self.wf(),
        ensures
            r == self@.contains_key(k@),
    {
        match self.find(k) {
            Some(_) => true,
            None => false,
        }
    }

    /// The value stored under the key, if any.
    pub fn get(&self, k: &K) -> (r: Option<&V>)
        requires
            self.wf(),
        ensures
            match r {
                Some(v) => self@.contains_key(k@) && v@ == self@[k@],
                None => !self@.contains_key(k@),
            },
    {
        match self.find(k) {
            Some(i) => Some(&self.entries[i].1),
            None => None,
        }
    }

    /// The value stored under the key, or `d` where nothing is.
    pub fn get_or(&self, k: &K, d: V) -> (r: V)
        where
            V: Copy,
        requires
            self.wf(),
        ensures
            r@ == (if self@.contains_key(k@) {
                self@[k@]
            } else {
                d@
            }),
    {
        match self.find(k) {
            Some(i) => self.entries[i].1,
            None => d,
        }
    }

    /// Stores the value under the key, replacing any earlier one.
    pub fn insert(&mut self, k: K, v: V)
        requires
            old(self).wf(),
        ensures
            final(self).wf(),
            final(self)@ == old(self)@.insert(k@, v@),
    {
        let ghost m = self.contents@.insert(k@, v@);
        let ghost mut pos: int = 0;
        match self.find(&k) {
            Some(i) => {
                self.entries.set(i, (k, v));
                proof {
                    pos = i as int;
                }
            },
            None => {
                self.entries.push((k, v));
                proof {
                    pos = self.entries@.len() - 1;
                }
            },
        }
        self.contents = Ghost(m);
        assert(self.entries@[pos].0@ == k@);
        assert forall|kk: K::V| #[trigger] self.contents@.contains_key(kk) implies exists|i: int|
            0 <= i < self.entries@.len() && #[trigger] self.entries@[i].0@ == kk by {
            if kk == k@ {
                assert(self.entries@[pos].0@ == kk);
            } else {
                assert(old(self).contents@.contains_key(kk));
                let i = choose|i: int|
                    0 <= i < old(self).entries@.len() && old(self).entries@[i].0@ == kk;
                assert(self.entries@[i].0@ == kk);
            }
        }
    }

    /// Removes the key, handing back the value that was stored under it.
    pub fn remove(&mut self, k: &K) -> (r: Option<V>)
        requires
            old(self).wf(),
        ensures
            final(self).wf(),
            final(self)@ == old(self)@.remove(k@),
            match r {
                Some(v) => old(self)@.contains_key(k@) && v@ == old(self)@[k@],
                None => !old(self)@.contains_key(k@),
            },
    {
        match self.find(k) {
            Some(i) => {
                let ghost old_entries = self.entries@;
                let (_, v) = self.entries.remove(i);
                self.contents = Ghost(self.contents@.remove(k@));
                assert forall|kk: K::V| #[trigger] self.contents@.contains_key(kk) implies exists|
                    j: int,
                | 0 <= j < self.entries@.len() && #[trigger] self.entries@[j].0@ == kk by {
                    let j = choose|j: int| 0 <= j < old_entries.len() && old_entries[j].0@ == kk;
                    if j < i {
                        assert(self.entries@[j].0@ == kk);
                    } else {
                        assert(self.entries@[j - 1].0@ == kk);
                    }
                }
                Some(v)
            },
            None => {
                assert(self.contents@.remove(k@) =~= self.contents@);
                None
            },
        }
    }
}

} // verus!
