//! A finite map from keys to copyable values, kept as a list of entries
//! whose keys are pairwise distinct. It holds the keyed entries of a
//! contract's ledger storage.

use vstd::prelude::*;

use crate::address::TableKey;

verus! {

/// The amount stored in `m` for `k`, or zero where there is none.
pub open spec fn stored<K>(m: Map<K, i128>, k: K) -> i128 {
    if m.contains_key(k) {
        m[k]
    } else {
        0
    }
}

/// A finite map from keys `K` to values `V`.
pub struct Table<K: View, V> {
    entries: Vec<(K, V)>,
    contents: Ghost<Map<<K as View>::V, V>>,
}

impl<K: TableKey, V: Copy> View for Table<K, V> {
    type V = Map<<K as View>::V, V>;

    closed spec fn view(&self) -> Map<<K as View>::V, V> {
        self.contents@
    }
}

impl<K: TableKey, V: Copy> Table<K, V> {
    /// The entries are pairwise distinct by key and hold exactly the contents.
    pub closed spec fn wf(&self) -> bool {
        &&& forall|i: int, j: int|
            0 <= i < j < self.entries@.len() ==> #[trigger] self.entries@[i].0@
                != #[trigger] self.entries@[j].0@
        &&& forall|i: int|
            0 <= i < self.entries@.len() ==> {
                &&& self.contents@.contains_key(#[trigger] self.entries@[i].0@)
                &&& self.contents@[self.entries@[i].0@] == self.entries@[i].1
            }
        &&& forall|k: <K as View>::V|
            #[trigger] self.contents@.contains_key(k) ==> exists|i: int|
                0 <= i < self.entries@.len() && #[trigger] self.entries@[i].0@ == k
        &&& self.contents@.dom().finite()
    }

    /// The empty table.
    pub fn new() -> (t: Self)
        ensures
            t.wf(),
            t@ == Map::<<K as View>::V, V>::empty(),
    {
        Table { entries: Vec::new(), contents: Ghost(Map::empty()) }
    }

    /// A copy of the table.
    pub fn duplicate(&self) -> (t: Self)
        requires
            self.wf(),
        ensures
            t.wf(),
            t@ == self@,
    {
        let mut entries: Vec<(K, V)> = Vec::new();
        let mut i: usize = 0;
        while i < self.entries.len()
            invariant
                self.wf(),
                i <= self.entries@.len(),
                entries@.len() == i,
                forall|j: int|
                    0 <= j < i ==> #[trigger] entries@[j].0@ == self.entries@[j].0@
                        && entries@[j].1 == self.entries@[j].1,
            decreases self.entries@.len() - i,
        {
            let key = self.entries[i].0.copy_key();
            entries.push((key, self.entries[i].1));
            i = i + 1;
        }
        let t = Table { entries, contents: Ghost(self.contents@) };
        assert forall|a: int, b: int|
            0 <= a < b < t.entries@.len() implies #[trigger] t.entries@[a].0@
            != #[trigger] t.entries@[b].0@ by {
            assert(self.entries@[a].0@ != self.entries@[b].0@);
        }
        assert forall|j: int|
            0 <= j < t.entries@.len() implies {
            &&& t.contents@.contains_key(#[trigger] t.entries@[j].0@)
            &&& t.contents@[t.entries@[j].0@] == t.entries@[j].1
        } by {
            assert(self.contents@.contains_key(self.entries@[j].0@));
        }
        assert forall|kk: <K as View>::V|
            #[trigger] t.contents@.contains_key(kk) implies exists|j: int|
            0 <= j < t.entries@.len() && #[trigger] t.entries@[j].0@ == kk by {
            let j = choose|j: int|
                0 <= j < self.entries@.len() && #[trigger] self.entries@[j].0@ == kk;
            assert(t.entries@[j].0@ == kk);
        }
        t
    }

    /// The position of the entry for `k`, if there is one.
    fn find(&self, k: &K) -> (r: Option<usize>)
        requires
            self.wf(),
        ensures
            match r {
                Some(i) => i < self.entries@.len() && self.entries@[i as int].0@ == k@,
                None => !self@.contains_key(k@),
            },
    {
        let mut i: usize = 0;
        while i < self.entries.len()
            invariant
                self.wf(),
                i <= self.entries@.len(),
                forall|j: int| 0 <= j < i ==> #[trigger] self.entries@[j].0@ != k@,
            decreases self.entries@.len() - i,
        {
            if self.entries[i].0.same_key(k) {
                return Some(i);
            }
            i = i + 1;
        }
        None
    }

    /// Whether `k` has an entry.
    pub fn contains(&self, k: &K) -> (r: bool)
        requires
            self.wf(),
        ensures
            r == self@.contains_key(k@),
    {
        match self.find(k) {
            Some(_) => true,
            None => false,
        }
    }

    /// The value stored for `k`, if any.
    pub fn get(&self, k: &K) -> (r: Option<V>)
        requires
            self.wf(),
        ensures
            r == (if self@.contains_key(k@) {
                Some(self@[k@])
            } else {
                None
            }),
    {
        match self.find(k) {
            Some(i) => Some(self.entries[i].1),
            None => None,
        }
    }

    /// The value stored for `k`, or `default` where there is none.
    pub fn get_or(&self, k: &K, default: V) -> (r: V)
        requires
            self.wf(),
        ensures
            r == (if self@.contains_key(k@) {
                self@[k@]
            } else {
                default
            }),
    {
        match self.get(k) {
            Some(v) => v,
            None => default,
        }
    }

    /// Store `v` for `k`, replacing any earlier value.
    pub fn set(&mut self, k: &K, v: V)
        requires
            old(self).wf(),
        ensures
            final(self).wf(),
            final(self)@ == old(self)@.insert(k@, v),
    {
        let ghost old_entries = self.entries@;
        let ghost old_contents = self.contents@;
        match self.find(k) {
            Some(i) => {
                let key = self.entries[i].0.copy_key();
                self.entries.set(i, (key, v));
                self.contents = Ghost(self.contents@.insert(k@, v));
                assert forall|j: int|
                    0 <= j < self.entries@.len() implies {
                    &&& self.contents@.contains_key(#[trigger] self.entries@[j].0@)
                    &&& self.contents@[self.entries@[j].0@] == self.entries@[j].1
                } by {
                    if j != i {
                        assert(old_entries[j].0@ != old_entries[i as int].0@);
                    }
                }
                assert forall|kk: <K as View>::V|
                    #[trigger] self.contents@.contains_key(kk) implies exists|j: int|
                    0 <= j < self.entries@.len() && #[trigger] self.entries@[j].0@ == kk by {
                    if kk != k@ {
                        let j = choose|j: int|
                            0 <= j < old_entries.len() && #[trigger] old_entries[j].0@ == kk;
                        assert(self.entries@[j].0@ == kk);
                    } else {
                        assert(self.entries@[i as int].0@ == kk);
                    }
                }
            },
            None => {
                let key = k.copy_key();
                self.entries.push((key, v));
                self.contents = Ghost(self.contents@.insert(k@, v));
                let ghost n = old_entries.len() as int;
                assert forall|j: int|
                    0 <= j < self.entries@.len() implies {
                    &&& self.contents@.contains_key(#[trigger] self.entries@[j].0@)
                    &&& self.contents@[self.entries@[j].0@] == self.entries@[j].1
                } by {
                    if j < n {
                        assert(self.entries@[j] == old_entries[j]);
                        assert(old_contents.contains_key(old_entries[j].0@));
                    }
                }
                assert forall|kk: <K as View>::V|
                    #[trigger] self.contents@.contains_key(kk) implies exists|j: int|
                    0 <= j < self.entries@.len() && #[trigger] self.entries@[j].0@ == kk by {
                    if kk != k@ {
                        let j = choose|j: int|
                            0 <= j < old_entries.len() && #[trigger] old_entries[j].0@ == kk;
                        assert(self.entries@[j] == old_entries[j]);
                    } else {
                        assert(self.entries@[n].0@ == kk);
                    }
                }
                assert forall|a: int, b: int|
                    0 <= a < b < self.entries@.len() implies #[trigger] self.entries@[a].0@
                    != #[trigger] self.entries@[b].0@ by {
                    if b == n {
                        assert(self.entries@[a] == old_entries[a]);
                        assert(old_contents.contains_key(old_entries[a].0@));
                    } else {
                        assert(self.entries@[a] == old_entries[a]);
                        assert(self.entries@[b] == old_entries[b]);
                    }
                }
            },
        }
    }

    /// Delete the entry for `k`, if there is one.
    pub fn remove(&mut self, k: &K)
        requires
            old(self).wf(),
        ensures
            final(self).wf(),
            final(self)@ == old(self)@.remove(k@),
    {
        let ghost old_entries = self.entries@;
        let ghost old_contents = self.contents@;
        match self.find(k) {
            Some(i) => {
                let _ = self.entries.remove(i);
                self.contents = Ghost(self.contents@.remove(k@));
                assert(forall|j: int|
                    0 <= j < self.entries@.len() ==> #[trigger] self.entries@[j] == (if j < i {
                        old_entries[j]
                    } else {
                        old_entries[j + 1]
                    }));
                assert forall|a: int, b: int|
                    0 <= a < b < self.entries@.len() implies #[trigger] self.entries@[a].0@
                    != #[trigger] self.entries@[b].0@ by {
                    let a2 = if a < i { a } else { a + 1 };
                    let b2 = if b < i { b } else { b + 1 };
                    assert(old_entries[a2].0@ != old_entries[b2].0@);
                }
                assert forall|j: int|
                    0 <= j < self.entries@.len() implies {
                    &&& self.contents@.contains_key(#[trigger] self.entries@[j].0@)
                    &&& self.contents@[self.entries@[j].0@] == self.entries@[j].1
                } by {
                    let j2 = if j < i { j } else { j + 1 };
                    assert(old_entries[j2].0@ != old_entries[i as int].0@);
                }
                assert forall|kk: <K as View>::V|
                    #[trigger] self.contents@.contains_key(kk) implies exists|j: int|
                    0 <= j < self.entries@.len() && #[trigger] self.entries@[j].0@ == kk by {
                    let j = choose|j: int|
                        0 <= j < old_entries.len() && #[trigger] old_entries[j].0@ == kk;
                    if j < i {
                        assert(self.entries@[j].0@ == kk);
                    } else {
                        assert(j != i);
                        assert(self.entries@[j - 1].0@ == kk);
                    }
                }
            },
            None => {
                assert(self.contents@.remove(k@) =~= self.contents@);
            },
        }
    }
}

} // verus!
