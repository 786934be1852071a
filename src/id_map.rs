//! A map keyed by device id, kept as a list of entries with distinct ids.

use vstd::prelude::*;

verus! {

/// A map from string ids to values. Inserting under an id that is already
/// present replaces its value; the order of the entries carries no meaning.
pub struct IdMap<V> {
    entries: Vec<(String, V)>,
    contents: Ghost<Map<Seq<char>, V>>,
}

impl<V> View for IdMap<V> {
    type V = Map<Seq<char>, V>;

    closed spec fn view(&self) -> Map<Seq<char>, V> {
        self.contents@
    }
}

/// `entries` holds each pair of `m` once: distinct ids, each stored in `m`
/// with that value, and every id of `m` among them.
pub open spec fn lists_exactly<V>(entries: Seq<(String, V)>, m: Map<Seq<char>, V>) -> bool {
    &&& entries.len() == m.dom().len()
    &&& forall|i: int, j: int|
        0 <= i < entries.len() && 0 <= j < entries.len() && i != j ==> #[trigger] entries[i].0@
            != #[trigger] entries[j].0@
    &&& forall|i: int|
        0 <= i < entries.len() ==> {
            &&& m.contains_key(#[trigger] entries[i].0@)
            &&& m[entries[i].0@] == entries[i].1
        }
    &&& forall|k: Seq<char>| #[trigger]
        m.contains_key(k) ==> exists|i: int| 0 <= i < entries.len() && #[trigger] entries[i].0@ == k
}

impl<V> IdMap<V> {
    /// The entries have distinct ids and hold exactly the map's contents.
    pub closed spec fn wf(&self) -> bool {
        &&& forall|i: int, j: int|
            0 <= i < self.entries@.len() && 0 <= j < self.entries@.len() && i != j
                ==> #[trigger] self.entries@[i].0@ != #[trigger] self.entries@[j].0@
        &&& forall|i: int|
            0 <= i < self.entries@.len() ==> {
                &&& self.contents@.contains_key(#[trigger] self.entries@[i].0@)
                &&& self.contents@[self.entries@[i].0@] == self.entries@[i].1
            }
        &&& forall|k: Seq<char>| #[trigger]
            self.contents@.contains_key(k) ==> exists|i: int|
                0 <= i < self.entries@.len() && #[trigger] self.entries@[i].0@ == k
        &&& self.contents@.dom().finite()
        &&& self.contents@.dom().len() == self.entries@.len()
    }

    /// An empty map.
    pub fn new() -> (r: Self)
        ensures
            r.wf(),
            r@ == Map::<Seq<char>, V>::empty(),
    {
        IdMap { entries: Vec::new(), contents: Ghost(Map::empty()) }
    }

    /// Number of ids in the map.
    pub fn len(&self) -> (r: usize)
        requires
            self.wf(),
        ensures
            r == self@.dom().len(),
    {
        self.entries.len()
    }

    fn index_of(&self, k: &String) -> (r: Option<usize>)
        requires
            self.wf(),
        ensures
            match r {
                Some(i) => i < self.entries@.len() && self.entries@[i as int].0@ == k@,
                None => !self@.contains_key(k@),
            },
    {
        let mut i: usize = 0;
        while i < self.entries.len()
            invariant
                self.wf(),
                i <= self.entries@.len(),
                forall|j: int| 0 <= j < i ==> #[trigger] self.entries@[j].0@ != k@,
            decreases self.entries@.len() - i,
        {
            if self.entries[i].0 == *k {
                return Some(i);
            }
            i = i + 1;
        }
        None
    }

    /// Whether `k` is in the map.
    pub fn contains_key(&self, k: &String) -> (r: bool)
        requires
            self.wf(),
        ensures
            r == self@.contains_key(k@),
    {
        match self.index_of(k) {
            Some(_) => true,
            None => false,
        }
    }

    /// The value stored under `k`, if any.
    pub fn get(&self, k: &String) -> (r: Option<&V>)
        requires
            self.wf(),
        ensures
            r is Some <==> self@.contains_key(k@),
            r matches Some(v) ==> *v == self@[k@],
    {
        match self.index_of(k) {
            Some(i) => Some(&self.entries[i].1),
            None => None,
        }
    }

    /// The `i`-th entry, for walking over the map; every id comes once for
    /// the indices below `len()`.
    pub fn entry_at(&self, i: usize) -> (r: (&String, &V))
        requires
            self.wf(),
            i < self@.dom().len(),
        ensures
            self@.contains_key(r.0@),
            self@[r.0@] == *r.1,
    {
        let e = &self.entries[i];
        (&e.0, &e.1)
    }

    /// Takes `k` out of the map and hands back its value, if it was there.
    pub fn remove(&mut self, k: &String) -> (r: Option<V>)
        requires
            old(self).wf(),
        ensures
            final(self).wf(),
            final(self)@ == old(self)@.remove(k@),
            r == (if old(self)@.contains_key(k@) {
                Some(old(self)@[k@])
            } else {
                None::<V>
            }),
    {
        match self.index_of(k) {
            Some(i) => {
                let ghost old_entries = self.entries@;
                let ghost old_contents = self.contents@;
                let e = self.entries.remove(i);
                self.contents = Ghost(old_contents.remove(k@));
                proof {
                    let n = self.entries@;
                    assert forall|a: int| 0 <= a < n.len() implies n[a] == old_entries[if a < i {
                        a
                    } else {
                        a + 1
                    }] by {}
                    assert forall|a: int, b: int|
                        0 <= a < n.len() && 0 <= b < n.len() && a != b implies #[trigger] n[a].0@
                        != #[trigger] n[b].0@ by {
                        let a0 = if a < i { a } else { a + 1 };
                        let b0 = if b < i { b } else { b + 1 };
                        assert(old_entries[a0].0@ != old_entries[b0].0@);
                    }
                    assert forall|a: int| 0 <= a < n.len() implies {
                        &&& self.contents@.contains_key(#[trigger] n[a].0@)
                        &&& self.contents@[n[a].0@] == n[a].1
                    } by {
                        let a0 = if a < i { a } else { a + 1 };
                        assert(old_entries[a0].0@ != old_entries[i as int].0@);
                    }
                    assert forall|key: Seq<char>| #[trigger]
                        self.contents@.contains_key(key) implies exists|a: int|
                        0 <= a < n.len() && #[trigger] n[a].0@ == key by {
                        let a0 = choose|a0: int|
                            0 <= a0 < old_entries.len() && #[trigger] old_entries[a0].0@ == key;
                        let a = if a0 < i { a0 } else { a0 - 1 };
                        assert(n[a].0@ == key);
                    }
                }
                Some(e.1)
            },
            None => {
                proof {
                    assert(self.contents@.remove(k@) =~= self.contents@);
                }
                None
            },
        }
    }

    /// Empties the map and hands back all its entries.
    pub fn take_all(&mut self) -> (r: Vec<(String, V)>)
        requires
            old(self).wf(),
        ensures
            final(self).wf(),
            final(self)@ == Map::<Seq<char>, V>::empty(),
            lists_exactly(r@, old(self)@),
    {
        let mut taken: Vec<(String, V)> = Vec::new();
        std::mem::swap(&mut taken, &mut self.entries);
        self.contents = Ghost(Map::empty());
        taken
    }

    /// Stores `v` under `k`, replacing and handing back a value already
    /// stored there.
    pub fn insert(&mut self, k: String, v: V) -> (r: Option<V>)
        requires
            old(self).wf(),
        ensures
            final(self).wf(),
            final(self)@ == old(self)@.insert(k@, v),
            r == (if old(self)@.contains_key(k@) {
                Some(old(self)@[k@])
            } else {
                None::<V>
            }),
    {
        let previous = self.remove(&k);
        let ghost before = self.entries@;
        let ghost key = k@;
        let ghost contents = self.contents@;
        self.entries.push((k, v));
        self.contents = Ghost(contents.insert(key, v));
        proof {
            let n = self.entries@;
            assert forall|a: int| 0 <= a < before.len() implies #[trigger] n[a] == before[a] by {}
            assert forall|key2: Seq<char>| #[trigger]
                self.contents@.contains_key(key2) implies exists|a: int|
                0 <= a < n.len() && #[trigger] n[a].0@ == key2 by {
                if key2 != key {
                    let a0 = choose|a0: int|
                        0 <= a0 < before.len() && #[trigger] before[a0].0@ == key2;
                    assert(n[a0].0@ == key2);
                } else {
                    assert(n[before.len() as int].0@ == key2);
                }
            }
            assert(old(self)@.insert(key, v) =~= contents.insert(key, v));
        }
        previous
    }
}

} // verus!
