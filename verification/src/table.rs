//! A keyed table of records, viewed as a map from identifier to record.

use vstd::prelude::*;

verus! {

/// The map a list of entries stands for: a later entry replaces an earlier
/// one under the same key.
pub open spec fn entries_map<T: View>(entries: Seq<(String, T)>) -> Map<Seq<char>, T::V>
    decreases entries.len(),
{
    if entries.len() == 0 {
        Map::empty()
    } else {
        entries_map(entries.drop_last()).insert(entries.last().0@, entries.last().1@)
    }
}

/// Records stored under text keys. Its view is the map from key to record;
/// `==` compares entry by entry, in the order the keys were first stored.
#[derive(Clone, Debug, PartialEq, Eq)]
pub struct Table<T> {
    entries: Vec<(String, T)>,
}

impl<T: View> View for Table<T> {
    type V = Map<Seq<char>, T::V>;

    closed spec fn view(&self) -> Map<Seq<char>, T::V> {
        entries_map(self.entries@)
    }
}

/// No entry after position `at` is stored under `key`.
spec fn last_under<T>(entries: Seq<(String, T)>, at: int, key: Seq<char>) -> bool {
    forall|j: int| at < j < entries.len() ==> (#[trigger] entries[j]).0@ != key
}

proof fn lemma_absent<T: View>(entries: Seq<(String, T)>, key: Seq<char>)
    requires
        last_under(entries, -1, key),
    ensures
        !entries_map(entries).contains_key(key),
    decreases entries.len(),
{
    if entries.len() > 0 {
        assert(entries[entries.len() - 1].0@ != key);
        assert forall|j: int| -1 < j < entries.drop_last().len() implies (#[trigger] entries.drop_last()[j]).0@
            != key by {
            assert(entries.drop_last()[j] == entries[j]);
        }
        lemma_absent(entries.drop_last(), key);
    }
}

proof fn lemma_present<T: View>(entries: Seq<(String, T)>, at: int, key: Seq<char>)
    requires
        0 <= at < entries.len(),
        entries[at].0@ == key,
        last_under(entries, at, key),
    ensures
        entries_map(entries).contains_key(key),
        entries_map(entries)[key] == entries[at].1@,
    decreases entries.len(),
{
    if at < entries.len() - 1 {
        assert(entries[entries.len() - 1].0@ != key);
        assert forall|j: int| at < j < entries.drop_last().len() implies (#[trigger] entries.drop_last()[j]).0@
            != key by {
            assert(entries.drop_last()[j] == entries[j]);
        }
        assert(entries.drop_last()[at] == entries[at]);
        lemma_present(entries.drop_last(), at, key);
    }
}

proof fn lemma_replace<T: View>(entries: Seq<(String, T)>, at: int, entry: (String, T))
    requires
        0 <= at < entries.len(),
        entries[at].0@ == entry.0@,
        last_under(entries, at, entry.0@),
    ensures
        entries_map(entries.update(at, entry)) == entries_map(entries).insert(entry.0@, entry.1@),
    decreases entries.len(),
{
    let updated = entries.update(at, entry);
    if at == entries.len() - 1 {
        assert(updated.drop_last() == entries.drop_last());
        assert(entries_map(updated) =~= entries_map(entries).insert(entry.0@, entry.1@));
    } else {
        assert(entries[entries.len() - 1].0@ != entry.0@);
        assert forall|j: int| at < j < entries.drop_last().len() implies (#[trigger] entries.drop_last()[j]).0@
            != entry.0@ by {
            assert(entries.drop_last()[j] == entries[j]);
        }
        assert(entries.drop_last()[at] == entries[at]);
        lemma_replace(entries.drop_last(), at, entry);
        assert(updated.drop_last() == entries.drop_last().update(at, entry));
        assert(updated.last() == entries.last());
        assert(entries_map(updated) =~= entries_map(entries).insert(entry.0@, entry.1@));
    }
}

impl<T: View> Table<T> {
    /// A table that holds nothing.
    pub fn new() -> (table: Self)
        ensures
            table@ == Map::<Seq<char>, T::V>::empty(),
    {
        Table { entries: Vec::new() }
    }

    /// The position of the record stored under `key`.
    fn position(&self, key: &String) -> (at: Option<usize>)
        ensures
            match at {
                Some(i) => i < self.entries@.len() && self.entries@[i as int].0@ == key@ && last_under(
                    self.entries@,
                    i as int,
                    key@,
                ),
                None => last_under(self.entries@, -1, key@),
            },
    {
        let mut i: usize = self.entries.len();
        while i > 0
            invariant
                i <= self.entries@.len(),
                last_under(self.entries@, i - 1, key@),
            decreases i,
        {
            i -= 1;
            if self.entries[i].0 == *key {
                return Some(i);
            }
        }
        None
    }

    /// The record stored under `key`, if there is one.
    pub fn get(&self, key: &String) -> (found: Option<&T>)
        ensures
            match found {
                Some(record) => self@.contains_key(key@) && self@[key@] == record@,
                None => !self@.contains_key(key@),
            },
    {
        match self.position(key) {
            Some(i) => {
                proof {
                    lemma_present(self.entries@, i as int, key@);
                }
                Some(&self.entries[i].1)
            },
            None => {
                proof {
                    lemma_absent(self.entries@, key@);
                }
                None
            },
        }
    }

    /// Whether a record is stored under `key`.
    pub fn has(&self, key: &String) -> (present: bool)
        ensures
            present == self@.contains_key(key@),
    {
        self.get(key).is_some()
    }

    /// Stores `record` under `key`, in place of what was there.
    pub fn put(&mut self, key: String, record: T)
        ensures
            final(self)@ == old(self)@.insert(key@, record@),
    {
        match self.position(&key) {
            Some(i) => {
                proof {
                    lemma_replace(self.entries@, i as int, (key, record));
                }
                self.entries.set(i, (key, record));
            },
            None => {
                self.entries.push((key, record));
                assert(self.entries@.drop_last() == old(self).entries@);
            },
        }
    }
}

} // verus!
