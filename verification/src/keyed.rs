//! A small map from strings to values, kept as a vector of distinct keys.
use vstd::prelude::*;

verus! {

/// A string-keyed map whose entries are stored once each.
pub struct KeyedVec<V> {
    entries: Vec<(String, V)>,
    map: Ghost<Map<Seq<char>, V>>,
}

impl<V> KeyedVec<V> {
    /// The mathematical content: key text to value.
    pub closed spec fn view(&self) -> Map<Seq<char>, V> {
        self.map@
    }

    /// Every stored entry is in the map, every key of the map is stored, and no
    /// key is stored twice.
    pub closed spec fn wf(&self) -> bool {
        &&& forall|i: int|
            0 <= i < self.entries@.len() ==> self.map@.contains_key(#[trigger] self.entries@[i].0@)
                && self.map@[self.entries@[i].0@] == self.entries@[i].1
        &&& forall|k: Seq<char>|
            self.map@.contains_key(k) ==> exists|i: int|
                0 <= i < self.entries@.len() && #[trigger] self.entries@[i].0@ == k
        &&& forall|i: int, j: int|
            0 <= i < j < self.entries@.len() ==> #[trigger] self.entries@[i].0@
                != #[trigger] self.entries@[j].0@
    }

    pub fn new() -> (m: Self)
        ensures
            m.wf(),
            m.view() == Map::<Seq<char>, V>::empty(),
    {
        KeyedVec { entries: Vec::new(), map: Ghost(Map::empty()) }
    }

    fn index_of(&self, key: &String) -> (r: Option<usize>)
        requires
            self.wf(),
        ensures
            r matches Some(i) ==> i < self.entries@.len() && self.entries@[i as int].0@ == key@,
            r is None ==> !self.view().contains_key(key@),
    {
        let mut i: usize = 0;
        while i < self.entries.len()
            invariant
                self.wf(),
                i <= self.entries@.len(),
                forall|j: int| 0 <= j < i ==> self.entries@[j].0@ != key@,
            decreases self.entries@.len() - i,
        {
            if self.entries[i].0 == *key {
                return Some(i);
            }
            i = i + 1;
        }
        None
    }

    /// Whether `key` is present.
    pub fn contains_key(&self, key: &String) -> (r: bool)
        requires
            self.wf(),
        ensures
            r == self.view().contains_key(key@),
    {
        match self.index_of(key) {
            Some(_) => true,
            None => false,
        }
    }

    /// The value stored under `key`.
    pub fn get(&self, key: &String) -> (r: Option<&V>)
        requires
            self.wf(),
        ensures
            self.view().contains_key(key@) ==> r == Some(&self.view()[key@]),
            !self.view().contains_key(key@) ==> r is None,
    {
        match self.index_of(key) {
            Some(i) => Some(&self.entries[i].1),
            None => None,
        }
    }

    /// Stores `value` under `key`, replacing any earlier value.
    pub fn insert(&mut self, key: String, value: V)
        requires
            old(self).wf(),
        ensures
            final(self).wf(),
            final(self).view() == old(self).view().insert(key@, value),
    {
        let ghost k = key@;
        let ghost new_map = self.map@.insert(k, value);
        match self.index_of(&key) {
            Some(i) => {
                let ghost old_entries = self.entries@;
                self.entries.set(i, (key, value));
                self.map = Ghost(new_map);
                assert forall|j: int|
                    0 <= j < self.entries@.len() implies new_map.contains_key(
                    #[trigger] self.entries@[j].0@,
                ) && new_map[self.entries@[j].0@] == self.entries@[j].1 by {
                    if j != i {
                        assert(old_entries[j].0@ != old_entries[i as int].0@);
                    }
                }
                assert forall|a: int, b: int| 0 <= a < b < self.entries@.len() implies #[trigger] self.entries@[a].0@
                    != #[trigger] self.entries@[b].0@ by {
                    assert(old_entries[a].0@ != old_entries[b].0@);
                }
                assert forall|k2: Seq<char>| new_map.contains_key(k2) implies exists|j: int|
                    0 <= j < self.entries@.len() && #[trigger] self.entries@[j].0@ == k2 by {
                    if k2 == k {
                        assert(self.entries@[i as int].0@ == k2);
                    } else {
                        let j = choose|j: int|
                            0 <= j < old(self).entries@.len() && #[trigger] old(self).entries@[j].0@ == k2;
                        assert(self.entries@[j].0@ == k2);
                    }
                }
            },
            None => {
                let ghost old_entries = self.entries@;
                self.entries.push((key, value));
                self.map = Ghost(new_map);
                assert forall|j: int|
                    0 <= j < self.entries@.len() implies new_map.contains_key(
                    #[trigger] self.entries@[j].0@,
                ) && new_map[self.entries@[j].0@] == self.entries@[j].1 by {
                    if j < old_entries.len() {
                        assert(self.entries@[j] == old_entries[j]);
                    }
                }
                assert forall|a: int, b: int| 0 <= a < b < self.entries@.len() implies #[trigger] self.entries@[a].0@
                    != #[trigger] self.entries@[b].0@ by {
                    assert(self.entries@[a] == old_entries[a]);
                    if b < old_entries.len() {
                        assert(self.entries@[b] == old_entries[b]);
                    } else {
                        assert(old(self).map@.contains_key(old_entries[a].0@));
                    }
                }
                assert forall|k2: Seq<char>| new_map.contains_key(k2) implies exists|j: int|
                    0 <= j < self.entries@.len() && #[trigger] self.entries@[j].0@ == k2 by {
                    if k2 == k {
                        assert(self.entries@[self.entries@.len() - 1].0@ == k2);
                    } else {
                        let j = choose|j: int|
                            0 <= j < old(self).entries@.len() && #[trigger] old(self).entries@[j].0@ == k2;
                        assert(self.entries@[j].0@ == k2);
                    }
                }
            },
        }
    }

    /// Removes the entry for `key`, if any.
    pub fn remove(&mut self, key: &String)
        requires
            old(self).wf(),
        ensures
            final(self).wf(),
            final(self).view() == old(self).view().remove(key@),
    {
        let ghost new_map = self.map@.remove(key@);
        match self.index_of(key) {
            Some(i) => {
                let ghost old_entries = self.entries@;
                self.entries.remove(i);
                self.map = Ghost(new_map);
                assert forall|j: int|
                    0 <= j < self.entries@.len() implies new_map.contains_key(
                    #[trigger] self.entries@[j].0@,
                ) && new_map[self.entries@[j].0@] == self.entries@[j].1 by {
                    if j < i {
                        assert(self.entries@[j] == old_entries[j]);
                    } else {
                        assert(self.entries@[j] == old_entries[j + 1]);
                    }
                }
                assert forall|k2: Seq<char>| new_map.contains_key(k2) implies exists|j: int|
                    0 <= j < self.entries@.len() && #[trigger] self.entries@[j].0@ == k2 by {
                    let j = choose|j: int|
                        0 <= j < old_entries.len() && #[trigger] old_entries[j].0@ == k2;
                    if j < i {
                        assert(self.entries@[j].0@ == k2);
                    } else {
                        assert(j != i);
                        assert(self.entries@[j - 1].0@ == k2);
                    }
                }
                assert forall|a: int, b: int| 0 <= a < b < self.entries@.len() implies #[trigger] self.entries@[a].0@
                    != #[trigger] self.entries@[b].0@ by {
                    let oa = if a < i { a } else { a + 1 };
                    let ob = if b < i { b } else { b + 1 };
                    assert(self.entries@[a] == old_entries[oa]);
                    assert(self.entries@[b] == old_entries[ob]);
                }
            },
            None => {
                assert(new_map =~= self.map@);
            },
        }
    }

    /// Removes every entry.
    pub fn clear(&mut self)
        ensures
            final(self).wf(),
            final(self).view() == Map::<Seq<char>, V>::empty(),
    {
        self.entries.clear();
        self.map = Ghost(Map::empty());
    }

    /// Whether there are no entries.
    pub fn is_empty(&self) -> (r: bool)
        requires
            self.wf(),
        ensures
            r == (self.view().dom() == Set::<Seq<char>>::empty()),
    {
        if self.entries.len() == 0 {
            assert(self.view().dom() =~= Set::<Seq<char>>::empty());
            true
        } else {
            assert(self.view().dom().contains(self.entries@[0].0@));
            false
        }
    }

    /// Keeps only the entries whose key is one of `keep`.
    pub fn retain_keys(&mut self, keep: &Vec<String>)
        requires
            old(self).wf(),
        ensures
            final(self).wf(),
            final(self).view() == old(self).view().restrict(key_set(keep@)),
    {
        let ghost target = self.map@.restrict(key_set(keep@));
        let mut rest: Vec<(String, V)> = Vec::new();
        std::mem::swap(&mut rest, &mut self.entries);
        let ghost orig = rest@;
        let ghost old_map = self.map@;
        let mut kept: Vec<(String, V)> = Vec::new();
        assert(orig == old(self).entries@);
        while rest.len() > 0
            invariant
                rest@.len() <= orig.len(),
                rest@ == orig.subrange(0, rest@.len() as int),
                forall|j: int|
                    0 <= j < orig.len() ==> old_map.contains_key(#[trigger] orig[j].0@)
                        && old_map[orig[j].0@] == orig[j].1,
                forall|k: Seq<char>|
                    old_map.contains_key(k) ==> exists|j: int|
                        0 <= j < orig.len() && #[trigger] orig[j].0@ == k,
                forall|a: int, b: int|
                    0 <= a < b < orig.len() ==> #[trigger] orig[a].0@ != #[trigger] orig[b].0@,
                target == old_map.restrict(key_set(keep@)),
                forall|j: int|
                    0 <= j < kept@.len() ==> target.contains_key(#[trigger] kept@[j].0@)
                        && target[kept@[j].0@] == kept@[j].1,
                forall|k: Seq<char>|
                    target.contains_key(k) && (exists|j: int|
                        rest@.len() <= j < orig.len() && #[trigger] orig[j].0@ == k) ==> exists|j: int|
                        0 <= j < kept@.len() && #[trigger] kept@[j].0@ == k,
                forall|j: int|
                    #![trigger kept@[j]]
                    0 <= j < kept@.len() ==> exists|o: int|
                        rest@.len() <= o < orig.len() && #[trigger] orig[o].0@ == kept@[j].0@,
                forall|a: int, b: int|
                    0 <= a < b < kept@.len() ==> #[trigger] kept@[a].0@ != #[trigger] kept@[b].0@,
            decreases rest@.len(),
        {
            let ghost n = rest@.len() - 1;
            let entry = rest.pop().unwrap();
            assert(entry == orig[n]);
            let wanted = contains_string(keep, &entry.0);
            let ghost kept_before = kept@;
            if wanted {
                assert forall|j: int| 0 <= j < kept_before.len() implies kept_before[j].0@ != entry.0@ by {
                    let o = choose|o: int|
                        n + 1 <= o < orig.len() && #[trigger] orig[o].0@ == kept_before[j].0@;
                    assert(orig[o].0@ != orig[n].0@);
                }
                kept.push(entry);
                assert forall|a: int, b: int| 0 <= a < b < kept@.len() implies #[trigger] kept@[a].0@
                    != #[trigger] kept@[b].0@ by {
                    if b == kept@.len() - 1 {
                        assert(kept@[a] == kept_before[a]);
                    } else {
                        assert(kept@[a] == kept_before[a]);
                        assert(kept@[b] == kept_before[b]);
                    }
                }
                assert forall|j: int| 0 <= j < kept@.len() implies target.contains_key(
                    #[trigger] kept@[j].0@,
                ) && target[kept@[j].0@] == kept@[j].1 by {
                    if j < kept_before.len() {
                        assert(kept@[j] == kept_before[j]);
                    } else {
                        assert(key_set(keep@).contains(orig[n].0@));
                    }
                }
            }
            assert forall|k: Seq<char>|
                target.contains_key(k) && (exists|j: int|
                    n <= j < orig.len() && #[trigger] orig[j].0@ == k) implies exists|j: int|
                0 <= j < kept@.len() && #[trigger] kept@[j].0@ == k by {
                let j0 = choose|j: int| n <= j < orig.len() && #[trigger] orig[j].0@ == k;
                if j0 == n {
                    if wanted {
                        assert(kept@[kept@.len() - 1].0@ == k);
                    } else {
                        assert(key_set(keep@).contains(k));
                        assert(false);
                    }
                } else {
                    let jj = choose|jj: int|
                        0 <= jj < kept_before.len() && #[trigger] kept_before[jj].0@ == k;
                    assert(kept@[jj] == kept_before[jj]);
                }
            }
            assert forall|j: int| #![trigger kept@[j]] 0 <= j < kept@.len() implies exists|o: int|
                n <= o < orig.len() && #[trigger] orig[o].0@ == kept@[j].0@ by {
                if j < kept_before.len() {
                    assert(kept@[j] == kept_before[j]);
                    let o = choose|o: int|
                        n + 1 <= o < orig.len() && #[trigger] orig[o].0@ == kept_before[j].0@;
                } else {
                    assert(orig[n].0@ == kept@[j].0@);
                }
            }
            assert(rest@ == orig.subrange(0, n));
        }
        assert forall|k: Seq<char>| target.contains_key(k) implies exists|j: int|
            0 <= j < kept@.len() && #[trigger] kept@[j].0@ == k by {
            assert(old_map.contains_key(k));
            let j = choose|j: int| 0 <= j < orig.len() && #[trigger] orig[j].0@ == k;
            assert(rest@.len() == 0);
            assert(orig[j].0@ == k);
        }
        let ghost kept_view = kept@;
        self.entries = kept;
        self.map = Ghost(target);
        assert(self.entries@ == kept_view);
        assert forall|k: Seq<char>| self.map@.contains_key(k) implies exists|i: int|
            0 <= i < self.entries@.len() && #[trigger] self.entries@[i].0@ == k by {
            let i = choose|i: int| 0 <= i < kept_view.len() && #[trigger] kept_view[i].0@ == k;
            assert(self.entries@[i].0@ == k);
        }
        assert(forall|j: int|
            0 <= j < self.entries@.len() ==> self.map@.contains_key(#[trigger] self.entries@[j].0@)
                && self.map@[self.entries@[j].0@] == self.entries@[j].1);
        assert(forall|k: Seq<char>|
            self.map@.contains_key(k) ==> exists|i: int|
                0 <= i < self.entries@.len() && #[trigger] self.entries@[i].0@ == k);
        assert(forall|i: int, j: int|
            0 <= i < j < self.entries@.len() ==> #[trigger] self.entries@[i].0@
                != #[trigger] self.entries@[j].0@);
    }
}

/// The texts of a list of strings, as a set.
pub open spec fn key_set(keys: Seq<String>) -> Set<Seq<char>> {
    Set::new(|k: Seq<char>| exists|i: int| 0 <= i < keys.len() && #[trigger] keys[i]@ == k)
}

/// Whether `key` is one of `keys`.
pub fn contains_string(keys: &Vec<String>, key: &String) -> (r: bool)
    ensures
        r == key_set(keys@).contains(key@),
{
    let mut i: usize = 0;
    while i < keys.len()
        invariant
            i <= keys@.len(),
            forall|j: int| 0 <= j < i ==> keys@[j]@ != key@,
        decreases keys@.len() - i,
    {
        if keys[i] == *key {
            assert(keys@[i as int]@ == key@);
            return true;
        }
        i = i + 1;
    }
    false
}

} // verus!
