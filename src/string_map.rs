//! An insertion-ordered map from strings to strings with unique keys.

use vstd::prelude::*;

verus! {

/// The map that a sequence of entries denotes: a later entry for a key wins.
pub open spec fn map_of<V>(entries: Seq<(Seq<char>, V)>) -> Map<Seq<char>, V>
    decreases entries.len(),
{
    if entries.len() == 0 {
        Map::empty()
    } else {
        map_of(entries.drop_last()).insert(entries.last().0, entries.last().1)
    }
}

/// No key is held by two entries.
pub open spec fn keys_unique<V>(entries: Seq<(Seq<char>, V)>) -> bool {
    forall|i: int, j: int|
        0 <= i < entries.len() && 0 <= j < entries.len() && i != j ==> #[trigger] entries[i].0
            != #[trigger] entries[j].0
}

/// Replacing the value of an entry keeps the keys unique.
pub proof fn lemma_update_keeps_keys_unique<V>(entries: Seq<(Seq<char>, V)>, i: int, v: V)
    requires
        keys_unique(entries),
        0 <= i < entries.len(),
    ensures
        keys_unique(entries.update(i, (entries[i].0, v))),
{
    let updated = entries.update(i, (entries[i].0, v));
    assert forall|a: int, b: int|
        0 <= a < updated.len() && 0 <= b < updated.len() && a != b implies #[trigger] updated[a].0
        != #[trigger] updated[b].0 by {
        assert(updated[a].0 == entries[a].0 && updated[b].0 == entries[b].0);
    }
}

/// Appending an entry for a new key keeps the keys unique.
pub proof fn lemma_push_keeps_keys_unique<V>(entries: Seq<(Seq<char>, V)>, e: (Seq<char>, V))
    requires
        keys_unique(entries),
        forall|j: int| 0 <= j < entries.len() ==> #[trigger] entries[j].0 != e.0,
    ensures
        keys_unique(entries.push(e)),
{
    let pushed = entries.push(e);
    assert forall|a: int, b: int|
        0 <= a < pushed.len() && 0 <= b < pushed.len() && a != b implies #[trigger] pushed[a].0
        != #[trigger] pushed[b].0 by {
        if a < entries.len() {
            assert(pushed[a] == entries[a]);
        }
        if b < entries.len() {
            assert(pushed[b] == entries[b]);
        }
    }
}

/// A key is in the map exactly when some entry holds it.
pub proof fn lemma_map_of_dom<V>(entries: Seq<(Seq<char>, V)>)
    ensures
        forall|k: Seq<char>|
            #[trigger] map_of(entries).contains_key(k) <==> exists|i: int|
                0 <= i < entries.len() && entries[i].0 == k,
    decreases entries.len(),
{
    if entries.len() > 0 {
        let prefix = entries.drop_last();
        lemma_map_of_dom(prefix);
        assert forall|k: Seq<char>|
            #[trigger] map_of(entries).contains_key(k) <==> exists|i: int|
                0 <= i < entries.len() && entries[i].0 == k by {
            if map_of(entries).contains_key(k) {
                if k == entries.last().0 {
                    assert(entries[entries.len() - 1].0 == k);
                } else {
                    assert(map_of(prefix).contains_key(k));
                    let i = choose|i: int| 0 <= i < prefix.len() && prefix[i].0 == k;
                    assert(entries[i].0 == k);
                }
            }
            if exists|i: int| 0 <= i < entries.len() && entries[i].0 == k {
                let i = choose|i: int| 0 <= i < entries.len() && entries[i].0 == k;
                if i < entries.len() - 1 {
                    assert(prefix[i].0 == k);
                    assert(map_of(prefix).contains_key(k));
                }
            }
        }
    }
}

/// The last entry that holds a key gives its value.
pub proof fn lemma_map_of_last<V>(entries: Seq<(Seq<char>, V)>, i: int)
    requires
        0 <= i < entries.len(),
        forall|j: int| i < j < entries.len() ==> #[trigger] entries[j].0 != entries[i].0,
    ensures
        map_of(entries).contains_key(entries[i].0),
        map_of(entries)[entries[i].0] == entries[i].1,
    decreases entries.len(),
{
    if i < entries.len() - 1 {
        let prefix = entries.drop_last();
        assert(entries[entries.len() - 1].0 != entries[i].0);
        assert forall|j: int| i < j < prefix.len() implies #[trigger] prefix[j].0 != prefix[i].0 by {
            assert(prefix[j] == entries[j]);
        }
        lemma_map_of_last(prefix, i);
    }
}

/// Replacing the value of the last entry that holds a key replaces the value of
/// that key.
pub proof fn lemma_map_of_update_last<V>(entries: Seq<(Seq<char>, V)>, i: int, v: V)
    requires
        0 <= i < entries.len(),
        forall|j: int| i < j < entries.len() ==> #[trigger] entries[j].0 != entries[i].0,
    ensures
        map_of(entries.update(i, (entries[i].0, v))) == map_of(entries).insert(entries[i].0, v),
    decreases entries.len(),
{
    let k = entries[i].0;
    let updated = entries.update(i, (k, v));
    let prefix = entries.drop_last();
    if i == entries.len() - 1 {
        assert(updated.drop_last() =~= prefix);
        assert(map_of(updated) =~= map_of(entries).insert(k, v));
    } else {
        assert forall|j: int| i < j < prefix.len() implies #[trigger] prefix[j].0 != prefix[i].0 by {
            assert(prefix[j] == entries[j]);
        }
        lemma_map_of_update_last(prefix, i, v);
        assert(updated.drop_last() =~= prefix.update(i, (k, v)));
        let last = entries.last();
        assert(updated.last() == last);
        assert(last.0 != k) by {
            assert(entries[entries.len() - 1].0 != entries[i].0);
        }
        assert(map_of(updated) =~= map_of(entries).insert(k, v));
    }
}

/// A map from strings to strings that keeps its entries in insertion order.
///
/// Inserting a key that is present replaces its value in place; a new key is
/// appended, so no two entries hold the same key. Lookups read the last entry
/// that holds a key.
#[derive(Debug)]
pub struct StringMap {
    entries: Vec<(String, String)>,
}

impl View for StringMap {
    type V = Map<Seq<char>, Seq<char>>;

    open spec fn view(&self) -> Map<Seq<char>, Seq<char>> {
        map_of(self.spec_entries())
    }
}

impl StringMap {
    /// The entries, in order, as pairs of character sequences.
    pub closed spec fn spec_entries(&self) -> Seq<(Seq<char>, Seq<char>)> {
        self.entries@.map_values(|e: (String, String)| (e.0@, e.1@))
    }

    /// An empty map.
    pub fn new() -> (r: StringMap)
        ensures
            r.spec_entries() == Seq::<(Seq<char>, Seq<char>)>::empty(),
            r@ == Map::<Seq<char>, Seq<char>>::empty(),
            keys_unique(r.spec_entries()),
    {
        let r = StringMap { entries: Vec::new() };
        assert(r.spec_entries() =~= Seq::<(Seq<char>, Seq<char>)>::empty());
        r
    }

    /// The number of entries.
    pub fn len(&self) -> (r: usize)
        ensures
            r == self.spec_entries().len(),
    {
        self.entries.len()
    }

    /// The entries in insertion order.
    pub fn entries(&self) -> (r: &Vec<(String, String)>)
        ensures
            r@.len() == self.spec_entries().len(),
            forall|i: int|
                0 <= i < r@.len() ==> (#[trigger] r@[i].0@, r@[i].1@) == self.spec_entries()[i],
    {
        &self.entries
    }

    /// The position of the last entry that holds `key`, if any.
    fn position(&self, key: &str) -> (r: Option<usize>)
        ensures
            match r {
                Some(i) => {
                    &&& i < self.spec_entries().len()
                    &&& self.spec_entries()[i as int].0 == key@
                    &&& forall|j: int|
                        i < j < self.spec_entries().len() ==> #[trigger] self.spec_entries()[j].0
                            != key@
                },
                None => forall|j: int|
                    0 <= j < self.spec_entries().len() ==> #[trigger] self.spec_entries()[j].0
                        != key@,
            },
    {
        let wanted = key.to_owned();
        let mut i: usize = self.entries.len();
        while i > 0
            invariant
                i <= self.entries@.len(),
                wanted@ == key@,
                forall|j: int|
                    i <= j < self.spec_entries().len() ==> #[trigger] self.spec_entries()[j].0
                        != key@,
            decreases i,
        {
            i = i - 1;
            if self.entries[i].0 == wanted {
                return Some(i);
            }
        }
        None
    }

    /// Whether `key` is present.
    pub fn contains_key(&self, key: &str) -> (r: bool)
        ensures
            r == self@.contains_key(key@),
    {
        proof {
            lemma_map_of_dom(self.spec_entries());
        }
        self.position(key).is_some()
    }

    /// The value stored under `key`, if present.
    pub fn get(&self, key: &str) -> (r: Option<&String>)
        ensures
            r.is_some() == self@.contains_key(key@),
            r.is_some() ==> r.unwrap()@ == self@[key@],
    {
        proof {
            lemma_map_of_dom(self.spec_entries());
        }
        match self.position(key) {
            Some(i) => {
                proof {
                    lemma_map_of_last(self.spec_entries(), i as int);
                }
                Some(&self.entries[i].1)
            },
            None => None,
        }
    }

    /// Stores `value` under `key`, replacing the earlier value in place or
    /// appending a new entry.
    pub fn insert(&mut self, key: String, value: String)
        ensures
            final(self)@ == old(self)@.insert(key@, value@),
            old(self)@.contains_key(key@) ==> final(self).spec_entries().len()
                == old(self).spec_entries().len(),
            !old(self)@.contains_key(key@) ==> final(self).spec_entries() == old(
                self,
            ).spec_entries().push((key@, value@)),
            keys_unique(old(self).spec_entries()) ==> keys_unique(final(self).spec_entries()),
    {
        proof {
            lemma_map_of_dom(self.spec_entries());
        }
        let ghost before = self.spec_entries();
        match self.position(key.as_str()) {
            Some(i) => {
                proof {
                    lemma_map_of_update_last(before, i as int, value@);
                    if keys_unique(before) {
                        lemma_update_keeps_keys_unique(before, i as int, value@);
                    }
                }
                let existing = self.entries[i].0.clone();
                self.entries.set(i, (existing, value));
                assert(self.spec_entries() =~= before.update(i as int, (before[i as int].0, value@)));
            },
            None => {
                proof {
                    if keys_unique(before) {
                        lemma_push_keeps_keys_unique(before, (key@, value@));
                    }
                }
                self.entries.push((key, value));
                assert(self.spec_entries() =~= before.push((key@, value@)));
                assert(self.spec_entries().drop_last() =~= before);
            },
        }
    }
}

impl Clone for StringMap {
    fn clone(&self) -> (r: Self)
        ensures
            r.spec_entries() == self.spec_entries(),
            r@ == self@,
    {
        let mut entries: Vec<(String, String)> = Vec::new();
        let mut i: usize = 0;
        while i < self.entries.len()
            invariant
                i <= self.entries@.len(),
                entries@.len() == i,
                forall|j: int|
                    0 <= j < i ==> (#[trigger] entries@[j].0@, entries@[j].1@) == (
                    self.entries@[j].0@,
                    self.entries@[j].1@,
                ),
            decreases self.entries@.len() - i,
        {
            let key = self.entries[i].0.clone();
            let value = self.entries[i].1.clone();
            entries.push((key, value));
            i = i + 1;
        }
        let r = StringMap { entries };
        assert(r.spec_entries() =~= self.spec_entries());
        r
    }
}

} // verus!
