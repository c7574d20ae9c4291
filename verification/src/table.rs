use vstd::prelude::*;

use crate::types::{Address, InsuranceVertical, OracleConfig, OracleSource, PolicyRecord};

verus! {

/// A key of a [`Table`]: comparable by its view and copyable.
pub trait TableKey: View + Sized {
    fn same_key(&self, other: &Self) -> (r: bool)
        ensures
            r == (self@ == other@),
    ;

    fn copy_key(&self) -> (r: Self)
        ensures
            r@ == self@,
    ;
}

/// A value of a [`Table`]: copyable with the same view.
pub trait TableValue: View + Sized {
    fn copy_value(&self) -> (r: Self)
        ensures
            r@ == self@,
    ;
}

/// A finite map from keys to values, held as a list of entries with
/// pairwise distinct keys. Its view is the map from key views to value views.
pub struct Table<K: TableKey, V: TableValue> {
    entries: Vec<(K, V)>,
    contents: Ghost<Map<K::V, V::V>>,
}

impl<K: TableKey, V: TableValue> Table<K, V> {
    pub closed spec fn view(&self) -> Map<K::V, V::V> {
        self.contents@
    }

    /// The entry list matches the map, and no key occurs twice.
    pub closed spec fn wf(&self) -> bool {
        &&& forall|k: K::V| #[trigger]
            self.contents@.contains_key(k) <==> exists|i: int|
                0 <= i < self.entries@.len() && (#[trigger] self.entries@[i]).0@ == k
        &&& forall|i: int|
            0 <= i < self.entries@.len() ==> #[trigger] self.contents@.contains_key(
                self.entries@[i].0@,
            ) && self.contents@[self.entries@[i].0@] == self.entries@[i].1@
        &&& forall|i: int, j: int|
            0 <= i < self.entries@.len() && 0 <= j < self.entries@.len() && i != j
                ==> (#[trigger] self.entries@[i]).0@ != (#[trigger] self.entries@[j]).0@
    }

    /// The empty table.
    pub fn new() -> (t: Self)
        ensures
            t.wf(),
            t.view() == Map::<K::V, V::V>::empty(),
    {
        Table { entries: Vec::new(), contents: Ghost(Map::empty()) }
    }

    /// Position of the entry with key `k`, if any.
    fn find(&self, k: &K) -> (r: Option<usize>)
        requires
            self.wf(),
        ensures
            match r {
                Some(i) => i < self.entries@.len() && self.entries@[i as int].0@ == k@,
                None => !self.view().contains_key(k@),
            },
    {
        let mut i: usize = 0;
        while i < self.entries.len()
            invariant
                self.wf(),
                i <= self.entries@.len(),
                forall|j: int| 0 <= j < i ==> (#[trigger] self.entries@[j]).0@ != k@,
            decreases self.entries@.len() - i,
        {
            if self.entries[i].0.same_key(k) {
                return Some(i);
            }
            i = i + 1;
        }
        None
    }

    /// Whether the table holds an entry for `k`.
    pub fn contains(&self, k: &K) -> (r: bool)
        requires
            self.wf(),
        ensures
            r == self.view().contains_key(k@),
    {
        match self.find(k) {
            Some(i) => {
                assert(self.view().contains_key(self.entries@[i as int].0@));
                true
            },
            None => false,
        }
    }

    /// A copy of the value stored for `k`, if any.
    pub fn get(&self, k: &K) -> (r: Option<V>)
        requires
            self.wf(),
        ensures
            match r {
                Some(v) => self.view().contains_key(k@) && v@ == self.view()[k@],
                None => !self.view().contains_key(k@),
            },
    {
        match self.find(k) {
            Some(i) => {
                assert(self.view().contains_key(self.entries@[i as int].0@));
                Some(self.entries[i].1.copy_value())
            },
            None => None,
        }
    }

    /// Store `v` under `k`, replacing any value stored there.
    pub fn insert(&mut self, k: K, v: V)
        requires
            old(self).wf(),
        ensures
            final(self).wf(),
            final(self).view() == old(self).view().insert(k@, v@),
    {
        let ghost new_contents = self.contents@.insert(k@, v@);
        match self.find(&k) {
            Some(i) => {
                self.entries.set(i, (k, v));
                self.contents = Ghost(new_contents);
                assert forall|kk: K::V| #[trigger]
                    self.contents@.contains_key(kk) <==> exists|j: int|
                        0 <= j < self.entries@.len() && (#[trigger] self.entries@[j]).0@ == kk by {
                    if self.contents@.contains_key(kk) && kk != self.entries@[i as int].0@ {
                        assert(old(self).contents@.contains_key(kk));
                        let j = choose|j: int|
                            0 <= j < old(self).entries@.len() && (#[trigger] old(
                                self,
                            ).entries@[j]).0@ == kk;
                        assert(self.entries@[j] == old(self).entries@[j]);
                    }
                    if exists|j: int|
                        0 <= j < self.entries@.len() && (#[trigger] self.entries@[j]).0@ == kk {
                        let j = choose|j: int|
                            0 <= j < self.entries@.len() && (#[trigger] self.entries@[j]).0@
                                == kk;
                        if j != i {
                            assert(old(self).entries@[j] == self.entries@[j]);
                        }
                    }
                }
            },
            None => {
                self.entries.push((k, v));
                self.contents = Ghost(new_contents);
                assert forall|kk: K::V| #[trigger]
                    self.contents@.contains_key(kk) <==> exists|j: int|
                        0 <= j < self.entries@.len() && (#[trigger] self.entries@[j]).0@ == kk by {
                    let n = old(self).entries@.len();
                    if self.contents@.contains_key(kk) {
                        if kk == self.entries@[n as int].0@ {
                        } else {
                            assert(old(self).contents@.contains_key(kk));
                            let j = choose|j: int|
                                0 <= j < old(self).entries@.len() && (#[trigger] old(
                                    self,
                                ).entries@[j]).0@ == kk;
                            assert(self.entries@[j] == old(self).entries@[j]);
                        }
                    }
                    if exists|j: int|
                        0 <= j < self.entries@.len() && (#[trigger] self.entries@[j]).0@ == kk {
                        let j = choose|j: int|
                            0 <= j < self.entries@.len() && (#[trigger] self.entries@[j]).0@
                                == kk;
                        if j < n {
                            assert(old(self).entries@[j] == self.entries@[j]);
                            assert(old(self).contents@.contains_key(kk));
                        }
                    }
                }
                assert forall|a: int, b: int|
                    0 <= a < self.entries@.len() && 0 <= b < self.entries@.len() && a != b
                        implies (#[trigger] self.entries@[a]).0@ != (
                    #[trigger] self.entries@[b]).0@ by {
                    let n = old(self).entries@.len();
                    if a < n && b < n {
                        assert(self.entries@[a] == old(self).entries@[a]);
                        assert(self.entries@[b] == old(self).entries@[b]);
                    } else if a < n {
                        assert(self.entries@[a] == old(self).entries@[a]);
                        assert(old(self).contents@.contains_key(old(self).entries@[a].0@));
                    } else {
                        assert(self.entries@[b] == old(self).entries@[b]);
                        assert(old(self).contents@.contains_key(old(self).entries@[b].0@));
                    }
                }
            },
        }
    }
}

impl TableKey for [u8; 32] {
    fn same_key(&self, other: &Self) -> (r: bool) {
        let mut i: usize = 0;
        while i < 32
            invariant
                i <= 32,
                forall|j: int| 0 <= j < i ==> self@[j] == other@[j],
            decreases 32 - i,
        {
            if self[i] != other[i] {
                return false;
            }
            i = i + 1;
        }
        assert(self@ =~= other@);
        true
    }

    fn copy_key(&self) -> (r: Self) {
        *self
    }
}

impl View for InsuranceVertical {
    type V = InsuranceVertical;

    open spec fn view(&self) -> InsuranceVertical {
        *self
    }
}

impl TableKey for InsuranceVertical {
    fn same_key(&self, other: &Self) -> (r: bool) {
        *self == *other
    }

    fn copy_key(&self) -> (r: Self) {
        *self
    }
}

impl TableKey for (InsuranceVertical, Address) {
    fn same_key(&self, other: &Self) -> (r: bool) {
        self.0 == other.0 && self.1.same_as(&other.1)
    }

    fn copy_key(&self) -> (r: Self) {
        (self.0, self.1.duplicate())
    }
}

impl TableKey for (InsuranceVertical, [u8; 32]) {
    fn same_key(&self, other: &Self) -> (r: bool) {
        self.0 == other.0 && self.1.same_key(&other.1)
    }

    fn copy_key(&self) -> (r: Self) {
        (self.0, self.1)
    }
}

impl TableValue for PolicyRecord {
    fn copy_value(&self) -> (r: Self) {
        self.duplicate()
    }
}

impl TableValue for OracleSource {
    fn copy_value(&self) -> (r: Self) {
        self.duplicate()
    }
}

impl TableValue for i128 {
    fn copy_value(&self) -> (r: Self) {
        *self
    }
}

impl View for OracleConfig {
    type V = OracleConfig;

    open spec fn view(&self) -> OracleConfig {
        *self
    }
}

impl TableValue for OracleConfig {
    fn copy_value(&self) -> (r: Self) {
        *self
    }
}

} // verus!

verus! {

impl TableKey for Address {
    fn same_key(&self, other: &Self) -> (r: bool) {
        self.same_as(other)
    }

    fn copy_key(&self) -> (r: Self) {
        self.duplicate()
    }
}

impl TableKey for (Address, Address) {
    fn same_key(&self, other: &Self) -> (r: bool) {
        self.0.same_as(&other.0) && self.1.same_as(&other.1)
    }

    fn copy_key(&self) -> (r: Self) {
        (self.0.duplicate(), self.1.duplicate())
    }
}

} // verus!
