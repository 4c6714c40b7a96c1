//! A map from texts to values.
use crate::text::model::Text;
use crate::text::scan::same;
use vstd::prelude::*;

verus! {

/// A small map keyed by text. Of two entries with one key the later counts.
pub struct TextMap<V> {
    entries: Vec<(String, V)>,
}

/// The map that a list of entries denotes.
pub open spec fn entries_map<V>(entries: Seq<(String, V)>) -> Map<Text, V>
    decreases entries.len(),
{
    if entries.len() == 0 {
        Map::empty()
    } else {
        entries_map(entries.drop_last()).insert(entries.last().0@, entries.last().1)
    }
}

/// The map with each text value taken by its view.
pub open spec fn text_values(map: Map<Text, String>) -> Map<Text, Text> {
    map.map_values(|value: String| value@)
}

/// The value of a key, where it has one.
pub open spec fn lookup<V>(map: Map<Text, V>, key: Text) -> Option<V> {
    if map.contains_key(key) {
        Some(map[key])
    } else {
        None
    }
}

proof fn lemma_entry<V>(entries: Seq<(String, V)>, i: int)
    requires
        0 <= i < entries.len(),
        forall|j: int| i < j < entries.len() ==> (#[trigger] entries[j]).0@ != entries[i].0@,
    ensures
        entries_map(entries).contains_key(entries[i].0@),
        entries_map(entries)[entries[i].0@] == entries[i].1,
    decreases entries.len(),
{
    if i < entries.len() - 1 {
        let shorter = entries.drop_last();
        assert(forall|j: int| 0 <= j < shorter.len() ==> shorter[j] == entries[j]);
        assert(entries[entries.len() - 1].0@ != entries[i].0@);
        lemma_entry(shorter, i);
    }
}

proof fn lemma_absent<V>(entries: Seq<(String, V)>, key: Text)
    requires
        forall|j: int| 0 <= j < entries.len() ==> (#[trigger] entries[j]).0@ != key,
    ensures
        !entries_map(entries).contains_key(key),
    decreases entries.len(),
{
    if entries.len() > 0 {
        let shorter = entries.drop_last();
        assert(forall|j: int| 0 <= j < shorter.len() ==> shorter[j] == entries[j]);
        assert(entries[entries.len() - 1].0@ != key);
        lemma_absent(shorter, key);
    }
}

proof fn lemma_update<V>(entries: Seq<(String, V)>, i: int, entry: (String, V))
    requires
        0 <= i < entries.len(),
        entry.0@ == entries[i].0@,
        forall|j: int| i < j < entries.len() ==> (#[trigger] entries[j]).0@ != entries[i].0@,
    ensures
        entries_map(entries.update(i, entry)) == entries_map(entries).insert(entry.0@, entry.1),
    decreases entries.len(),
{
    let changed = entries.update(i, entry);
    if i == entries.len() - 1 {
        assert(changed.drop_last() == entries.drop_last());
        assert(changed.last() == entry);
        assert(entries_map(changed) =~= entries_map(entries).insert(entry.0@, entry.1));
    } else {
        let shorter = entries.drop_last();
        assert(forall|j: int| 0 <= j < shorter.len() ==> shorter[j] == entries[j]);
        assert(changed.drop_last() == shorter.update(i, entry));
        assert(changed.last() == entries.last());
        assert(entries[entries.len() - 1].0@ != entries[i].0@);
        lemma_update(shorter, i, entry);
        assert(entries_map(changed) =~= entries_map(entries).insert(entry.0@, entry.1));
    }
}

impl<V> View for TextMap<V> {
    type V = Map<Text, V>;

    closed spec fn view(&self) -> Map<Text, V> {
        entries_map(self.entries@)
    }
}

impl<V> TextMap<V> {
    /// The empty map.
    pub fn new() -> (r: Self)
        ensures
            r@ == Map::<Text, V>::empty(),
    {
        TextMap { entries: Vec::new() }
    }

    fn position(&self, key: &str) -> (r: Option<usize>)
        ensures
            match r {
                Some(i) => i < self.entries@.len() && self.entries@[i as int].0@ == key@ && (
                forall|j: int|
                    i < j < self.entries@.len() ==> (#[trigger] self.entries@[j]).0@ != key@),
                None => forall|j: int|
                    0 <= j < self.entries@.len() ==> (#[trigger] self.entries@[j]).0@ != key@,
            },
    {
        let mut i: usize = self.entries.len();
        while i > 0
            invariant
                i <= self.entries@.len(),
                forall|j: int|
                    i <= j < self.entries@.len() ==> (#[trigger] self.entries@[j]).0@ != key@,
            decreases i,
        {
            i -= 1;
            if same(self.entries[i].0.as_str(), key) {
                return Some(i);
            }
        }
        None
    }

    /// The value of a key.
    pub fn get(&self, key: &str) -> (r: Option<&V>)
        ensures
            match r {
                Some(value) => lookup(self@, key@) == Some(*value),
                None => lookup(self@, key@) is None,
            },
    {
        match self.position(key) {
            Some(i) => {
                proof {
                    lemma_entry(self.entries@, i as int);
                }
                Some(&self.entries[i].1)
            },
            None => {
                proof {
                    lemma_absent(self.entries@, key@);
                }
                None
            },
        }
    }

    /// Whether a key has a value.
    pub fn contains_key(&self, key: &str) -> (r: bool)
        ensures
            r == self@.contains_key(key@),
    {
        self.get(key).is_some()
    }

    /// Gives a key a value, in place of the one that it had.
    pub fn insert(&mut self, key: &str, value: V)
        ensures
            final(self)@ == old(self)@.insert(key@, value),
    {
        match self.position(key) {
            Some(i) => {
                let owned = key.to_owned();
                proof {
                    lemma_update(self.entries@, i as int, (owned, value));
                }
                self.entries.set(i, (owned, value));
            },
            None => {
                let owned = key.to_owned();
                let ghost before = self.entries@;
                self.entries.push((owned, value));
                assert(self.entries@.drop_last() == before);
            },
        }
    }

    /// The value of a key, to be changed in place.
    pub fn get_mut(&mut self, key: &str) -> (r: Option<&mut V>)
        ensures
            match r {
                Some(value) => lookup(old(self)@, key@) == Some(*value) && final(self)@ == old(
                    self,
                )@.insert(key@, *final(value)),
                None => lookup(old(self)@, key@) is None && final(self)@ == old(self)@,
            },
    {
        match self.position(key) {
            Some(i) => {
                let ghost before = self.entries@;
                proof {
                    lemma_entry(before, i as int);
                    assert forall|value: V| #[trigger] entries_map(
                        before.update(i as int, (before[i as int].0, value)),
                    ) == entries_map(before).insert(key@, value) by {
                        lemma_update(before, i as int, (before[i as int].0, value));
                    }
                }
                Some(&mut self.entries[i].1)
            },
            None => {
                proof {
                    lemma_absent(self.entries@, key@);
                }
                None
            },
        }
    }

    /// Takes a key and its value out.
    pub fn remove(&mut self, key: &str)
        ensures
            final(self)@ == old(self)@.remove(key@),
    {
        let mut kept: Vec<(String, V)> = Vec::new();
        let ghost all = self.entries@;
        let mut rest: Vec<(String, V)> = Vec::new();
        std::mem::swap(&mut rest, &mut self.entries);
        while rest.len() > 0
            invariant
                rest@.len() <= all.len(),
                rest@ == all.skip(all.len() - rest@.len()),
                entries_map(kept@) == entries_map(all.take(all.len() - rest@.len())).remove(key@),
            decreases rest@.len(),
        {
            let ghost done = all.len() - rest@.len();
            let entry = rest.remove(0);
            proof {
                assert(entry == all[done]);
                assert(rest@ == all.skip(done + 1));
                assert(all.take(done + 1).drop_last() == all.take(done));
                assert(all.take(done + 1).last() == entry);
            }
            if same(entry.0.as_str(), key) {
                assert(entries_map(all.take(done + 1)).remove(key@) =~= entries_map(
                    all.take(done),
                ).remove(key@));
            } else {
                let ghost before = kept@;
                kept.push(entry);
                assert(kept@.drop_last() == before);
                assert(entries_map(kept@) =~= entries_map(all.take(done + 1)).remove(key@));
            }
        }
        assert(all.take(all.len() as int) == all);
        assert(all.take(0) == Seq::<(String, V)>::empty());
        self.entries = kept;
    }
}

} // verus!
