//! A map from strings, kept as a list of entries in which no key occurs twice.

use vstd::prelude::*;

verus! {

/// Values kept under strings.
pub struct StringMap<V> {
    entries: Vec<(String, V)>,
}

/// The map that a list of entries stands for; of two entries with the same key
/// the later counts.
pub open spec fn entries_map<V>(entries: Seq<(String, V)>) -> Map<Seq<char>, V>
    decreases entries.len(),
{
    if entries.len() == 0 {
        Map::empty()
    } else {
        entries_map(entries.drop_last()).insert(entries.last().0@, entries.last().1)
    }
}

/// No key occurs twice.
pub open spec fn keys_differ<V>(entries: Seq<(String, V)>) -> bool {
    forall|i: int, j: int|
        0 <= i < j < entries.len() ==> (#[trigger] entries[i]).0@ != (#[trigger] entries[j]).0@
}

/// The map holds what the entries hold, and nothing else.
proof fn lemma_entries_map<V>(entries: Seq<(String, V)>)
    requires
        keys_differ(entries),
    ensures
        forall|i: int|
            0 <= i < entries.len() ==> {
                &&& entries_map(entries).contains_key((#[trigger] entries[i]).0@)
                &&& entries_map(entries)[entries[i].0@] == entries[i].1
            },
        forall|key: Seq<char>| #[trigger]
            entries_map(entries).contains_key(key) ==> exists|i: int|
                0 <= i < entries.len() && (#[trigger] entries[i]).0@ == key,
        entries_map(entries).dom().finite(),
        entries_map(entries).dom().len() == entries.len(),
    decreases entries.len(),
{
    if entries.len() > 0 {
        let rest = entries.drop_last();
        assert forall|i: int, j: int| 0 <= i < j < rest.len() implies (#[trigger] rest[i]).0@ != (
        #[trigger] rest[j]).0@ by {
            assert(rest[i] == entries[i] && rest[j] == entries[j]);
        }
        lemma_entries_map(rest);
        let last = entries.last();
        let map = entries_map(entries);
        assert(!entries_map(rest).contains_key(last.0@)) by {
            if entries_map(rest).contains_key(last.0@) {
                let i = choose|i: int| 0 <= i < rest.len() && (#[trigger] rest[i]).0@ == last.0@;
                assert(rest[i] == entries[i]);
                assert(entries[i].0@ != entries[entries.len() - 1].0@);
            }
        }
        assert forall|i: int| 0 <= i < entries.len() implies {
            &&& map.contains_key((#[trigger] entries[i]).0@)
            &&& map[entries[i].0@] == entries[i].1
        } by {
            if i < rest.len() {
                assert(rest[i] == entries[i]);
                assert(entries[i].0@ != entries[entries.len() - 1].0@);
            }
        }
        assert forall|key: Seq<char>| #[trigger] map.contains_key(key) implies exists|i: int|
            0 <= i < entries.len() && (#[trigger] entries[i]).0@ == key by {
            if key == last.0@ {
                assert(entries[entries.len() - 1].0@ == key);
            } else {
                assert(entries_map(rest).contains_key(key));
                let i = choose|i: int| 0 <= i < rest.len() && (#[trigger] rest[i]).0@ == key;
                assert(entries[i] == rest[i]);
            }
        }
        assert(map.dom() =~= entries_map(rest).dom().insert(last.0@));
    }
}

/// Taking one entry out of the list takes its key out of the map.
proof fn lemma_remove_entry<V>(entries: Seq<(String, V)>, index: int)
    requires
        keys_differ(entries),
        0 <= index < entries.len(),
    ensures
        keys_differ(entries.remove(index)),
        entries_map(entries.remove(index)) == entries_map(entries).remove(entries[index].0@),
{
    let rest = entries.remove(index);
    let key = entries[index].0@;
    let place = |i: int|
        if i < index {
            i
        } else {
            i + 1
        };
    assert forall|i: int| 0 <= i < rest.len() implies #[trigger] rest[i] == entries[place(i)] by {}
    assert forall|i: int, j: int| 0 <= i < j < rest.len() implies (#[trigger] rest[i]).0@ != (
    #[trigger] rest[j]).0@ by {
        assert(rest[i] == entries[place(i)] && rest[j] == entries[place(j)]);
    }
    lemma_entries_map(entries);
    lemma_entries_map(rest);
    let before = entries_map(entries).remove(key);
    let after = entries_map(rest);
    assert forall|k: Seq<char>| after.contains_key(k) implies #[trigger] before.contains_key(k)
        && before[k] == after[k] by {
        let i = choose|i: int| 0 <= i < rest.len() && (#[trigger] rest[i]).0@ == k;
        assert(rest[i] == entries[place(i)]);
        assert(entries[place(i)].0@ != entries[index].0@);
    }
    assert forall|k: Seq<char>| before.contains_key(k) implies #[trigger] after.contains_key(k) by {
        assert(entries_map(entries).contains_key(k));
        let i = choose|i: int| 0 <= i < entries.len() && (#[trigger] entries[i]).0@ == k;
        let j = if i < index {
            i
        } else {
            i - 1
        };
        assert(rest[j] == entries[place(j)]);
    }
    assert(after =~= before);
}

impl<V> View for StringMap<V> {
    type V = Map<Seq<char>, V>;

    closed spec fn view(&self) -> Map<Seq<char>, V> {
        entries_map(self.entries@)
    }
}

impl<V> StringMap<V> {
    #[verifier::type_invariant]
    spec fn well_formed(self) -> bool {
        keys_differ(self.entries@)
    }

    /// The map that holds nothing.
    pub fn new() -> (map: Self)
        ensures
            map@ == Map::<Seq<char>, V>::empty(),
    {
        StringMap { entries: Vec::new() }
    }

    /// The number of keys.
    pub fn len(&self) -> (count: usize)
        ensures
            self@.dom().finite(),
            count == self@.len(),
    {
        proof {
            use_type_invariant(&*self);
            lemma_entries_map(self.entries@);
        }
        self.entries.len()
    }

    /// The entry with the given key.
    fn position(entries: &Vec<(String, V)>, key: &String) -> (index: Option<usize>)
        requires
            keys_differ(entries@),
        ensures
            match index {
                Some(i) => i < entries@.len() && entries@[i as int].0@ == key@,
                None => !entries_map(entries@).contains_key(key@),
            },
    {
        let mut i: usize = 0;
        while i < entries.len()
            invariant
                i <= entries.len(),
                forall|j: int| 0 <= j < i ==> (#[trigger] entries@[j]).0@ != key@,
            decreases entries.len() - i,
        {
            if entries[i].0 == *key {
                return Some(i);
            }
            i = i + 1;
        }
        proof {
            lemma_entries_map(entries@);
        }
        None
    }

    /// What is kept under a key.
    pub fn get(&self, key: &String) -> (value: Option<&V>)
        ensures
            match value {
                Some(found) => self@.contains_key(key@) && *found == self@[key@],
                None => !self@.contains_key(key@),
            },
    {
        proof {
            use_type_invariant(&*self);
            lemma_entries_map(self.entries@);
        }
        match Self::position(&self.entries, key) {
            Some(i) => Some(&self.entries[i].1),
            None => None,
        }
    }

    /// Keeps a value under a key, in place of what was there.
    pub fn insert(&mut self, key: String, value: V)
        ensures
            final(self)@ == old(self)@.insert(key@, value),
    {
        proof {
            use_type_invariant(&*self);
        }
        let mut entries: Vec<(String, V)> = Vec::new();
        std::mem::swap(&mut entries, &mut self.entries);
        let ghost before = entries@;
        match Self::position(&entries, &key) {
            Some(i) => {
                entries.remove(i);
                proof {
                    lemma_remove_entry(before, i as int);
                    lemma_entries_map(entries@);
                    assert(entries_map(before).remove(key@).insert(key@, value) =~= entries_map(
                        before,
                    ).insert(key@, value));
                }
            },
            None => {
                proof {
                    lemma_entries_map(entries@);
                }
            },
        }
        let ghost kept = entries@;
        entries.push((key, value));
        proof {
            assert(entries@.drop_last() =~= kept);
            assert forall|i: int, j: int| 0 <= i < j < entries@.len() implies (
            #[trigger] entries@[i]).0@ != (#[trigger] entries@[j]).0@ by {
                if j == kept.len() {
                    assert(entries_map(kept).contains_key(kept[i].0@));
                } else {
                    assert(kept[i].0@ != kept[j].0@);
                }
            }
        }
        self.entries = entries;
    }

    /// Gives up what is kept under a key.
    pub fn remove(&mut self, key: &String)
        ensures
            final(self)@ == old(self)@.remove(key@),
    {
        proof {
            use_type_invariant(&*self);
        }
        let mut entries: Vec<(String, V)> = Vec::new();
        std::mem::swap(&mut entries, &mut self.entries);
        let ghost before = entries@;
        match Self::position(&entries, key) {
            Some(i) => {
                entries.remove(i);
                proof {
                    lemma_remove_entry(before, i as int);
                }
            },
            None => {
                assert(entries_map(before).remove(key@) =~= entries_map(before));
            },
        }
        self.entries = entries;
    }

    /// The entries, one for each key.
    pub fn entries(&self) -> (entries: &Vec<(String, V)>)
        ensures
            keys_differ(entries@),
            entries_map(entries@) == self@,
            forall|i: int|
                0 <= i < entries@.len() ==> self@.contains_key((#[trigger] entries@[i]).0@)
                    && self@[entries@[i].0@] == entries@[i].1,
            forall|key: Seq<char>| #[trigger]
                self@.contains_key(key) ==> exists|i: int|
                    0 <= i < entries@.len() && (#[trigger] entries@[i]).0@ == key,
            self@.dom().finite(),
            entries@.len() == self@.len(),
    {
        proof {
            use_type_invariant(&*self);
            lemma_entries_map(self.entries@);
        }
        &self.entries
    }
}

} // verus!
