//! Named properties: a list of key-value texts in which a key occurs once.

use crate::text;
use vstd::prelude::*;

verus! {

/// A key and its value, by their characters.
pub struct Entry {
    pub key: Seq<char>,
    pub value: Seq<char>,
}

/// Properties in the order in which they are walked.
#[derive(Debug)]
pub struct TableProperties {
    entries: Vec<(String, String)>,
}

/// No key occurs twice.
pub open spec fn unique_keys(entries: Seq<Entry>) -> bool {
    forall|i: int, j: int|
        0 <= i < entries.len() && 0 <= j < entries.len() && i != j ==> #[trigger] entries[i].key
            != #[trigger] entries[j].key
}

/// The value of the first entry with this key.
pub open spec fn lookup(entries: Seq<Entry>, key: Seq<char>) -> Option<Seq<char>>
    decreases entries.len(),
{
    if entries.len() == 0 {
        None
    } else if entries[0].key == key {
        Some(entries[0].value)
    } else {
        lookup(entries.skip(1), key)
    }
}

/// The entries after `key` was given `value`: in its old place where it had one,
/// else at the end.
pub open spec fn inserted(entries: Seq<Entry>, key: Seq<char>, value: Seq<char>) -> Seq<Entry>
    decreases entries.len(),
{
    if entries.len() == 0 {
        seq![Entry { key, value }]
    } else if entries[0].key == key {
        entries.update(0, Entry { key, value })
    } else {
        seq![entries[0]] + inserted(entries.skip(1), key, value)
    }
}

/// An entry of a list of pairs.
pub open spec fn entry_of(pair: (String, String)) -> Entry {
    Entry { key: pair.0@, value: pair.1@ }
}

impl View for TableProperties {
    type V = Seq<Entry>;

    closed spec fn view(&self) -> Seq<Entry> {
        self.entries@.map_values(|pair: (String, String)| entry_of(pair))
    }
}

impl TableProperties {
    /// Every key occurs once.
    pub open spec fn well_formed(&self) -> bool {
        unique_keys(self@)
    }

    /// The value of `key`, if it has one.
    pub fn get(&self, key: &str) -> (value: Option<&String>)
        ensures
            lookup(self@, key@) == (match value {
                Some(v) => Some(v@),
                None => None,
            }),
    {
        let mut i: usize = 0;
        assert(self@.skip(0) =~= self@);
        while i < self.entries.len()
            invariant
                i <= self.entries.len(),
                self@.len() == self.entries.len(),
                lookup(self@, key@) == lookup(self@.skip(i as int), key@),
            decreases self.entries.len() - i,
        {
            assert(self@.skip(i as int)[0] == entry_of(self.entries@[i as int]));
            if text::same_text(self.entries[i].0.as_str(), key) {
                return Some(&self.entries[i].1);
            }
            assert(self@.skip(i as int).skip(1) =~= self@.skip(i + 1));
            i = i + 1;
        }
        None
    }

    /// Gives `key` the value `value`.
    pub fn insert(&mut self, key: &str, value: String)
        ensures
            final(self)@ == inserted(old(self)@, key@, value@),
            old(self).well_formed() ==> final(self).well_formed(),
            forall|k: Seq<char>| #[trigger]
                lookup(final(self)@, k) == if k == key@ {
                    Some(value@)
                } else {
                    lookup(old(self)@, k)
                },
    {
        let ghost before = self@;
        proof {
            lemma_inserted(before, key@, value@);
        }
        let mut i: usize = 0;
        assert(self@.skip(0) =~= self@);
        assert(self@.take(0) + inserted(self@.skip(0), key@, value@) =~= inserted(
            self@,
            key@,
            value@,
        ));
        while i < self.entries.len()
            invariant
                i <= self.entries.len(),
                self@ == before,
                before == old(self)@,
                self@.len() == self.entries.len(),
                inserted(before, key@, value@) == before.take(i as int) + inserted(
                    before.skip(i as int),
                    key@,
                    value@,
                ),
            decreases self.entries.len() - i,
        {
            assert(before.skip(i as int)[0] == entry_of(self.entries@[i as int]));
            if text::same_text(self.entries[i].0.as_str(), key) {
                let kept = self.entries[i].0.clone();
                self.entries.set(i, (kept, value));
                assert(self@ =~= inserted(before, key@, value@));
                proof {
                    lemma_inserted(before, key@, value@);
                }
                return;
            }
            assert(before.skip(i as int).skip(1) =~= before.skip(i + 1));
            assert(before.take(i as int) + inserted(before.skip(i as int), key@, value@)
                =~= before.take(i + 1) + inserted(before.skip(i + 1), key@, value@));
            i = i + 1;
        }
        self.entries.push((key.to_owned(), value));
        assert(self@ =~= inserted(before, key@, value@));
    }

    /// A copy of all properties, in the same order.
    pub fn copied(&self) -> (copy: Self)
        ensures
            copy@ == self@,
    {
        let mut entries: Vec<(String, String)> = Vec::new();
        let mut i: usize = 0;
        while i < self.entries.len()
            invariant
                i <= self.entries.len(),
                entries@.len() == i,
                forall|j: int| 0 <= j < i ==> #[trigger] entries@[j] == self.entries@[j],
            decreases self.entries.len() - i,
        {
            entries.push((self.entries[i].0.clone(), self.entries[i].1.clone()));
            i = i + 1;
        }
        assert(entries@ =~= self.entries@);
        TableProperties { entries }
    }

    /// The properties in the order in which they are walked.
    pub fn inner(&self) -> (entries: &Vec<(String, String)>)
        ensures
            entries@.map_values(|pair: (String, String)| entry_of(pair)) == self@,
    {
        &self.entries
    }
}

impl Default for TableProperties {
    fn default() -> (empty: Self)
        ensures
            empty@ == Seq::<Entry>::empty(),
            empty.well_formed(),
    {
        let empty = TableProperties { entries: Vec::new() };
        assert(empty@ =~= Seq::<Entry>::empty());
        empty
    }
}

/// What an insertion keeps: the keys stay unique, and every other key keeps its
/// value.
proof fn lemma_inserted(entries: Seq<Entry>, key: Seq<char>, value: Seq<char>)
    ensures
        unique_keys(entries) ==> unique_keys(inserted(entries, key, value)),
        forall|k: Seq<char>| #[trigger]
            lookup(inserted(entries, key, value), k) == if k == key {
                Some(value)
            } else {
                lookup(entries, k)
            },
        forall|i: int|
            0 <= i < inserted(entries, key, value).len() ==> (#[trigger] inserted(entries, key, value)[i]).key
                == key || (i < entries.len() && inserted(entries, key, value)[i] == entries[i]),
    decreases entries.len(),
{
    let after = inserted(entries, key, value);
    if entries.len() == 0 {
        assert(after.skip(1) =~= entries);
    } else if entries[0].key == key {
        assert(after.skip(1) =~= entries.skip(1));
    } else {
        let rest = entries.skip(1);
        lemma_inserted(rest, key, value);
        assert(after.skip(1) =~= inserted(rest, key, value));
    }
    assert forall|k: Seq<char>| #[trigger] lookup(after, k) == if k == key {
        Some(value)
    } else {
        lookup(entries, k)
    } by {
        if entries.len() > 0 {
            assert(lookup(entries, k) == if entries[0].key == k {
                Some(entries[0].value)
            } else {
                lookup(entries.skip(1), k)
            });
        }
        assert(lookup(after, k) == if after[0].key == k {
            Some(after[0].value)
        } else {
            lookup(after.skip(1), k)
        });
    }
}

/// Two walks over the same properties.
pub open spec fn same_entries(a: Seq<Entry>, b: Seq<Entry>) -> bool {
    forall|entry: Entry| #[trigger] a.contains(entry) <==> b.contains(entry)
}

/// A key has a value exactly where some entry holds it.
pub proof fn lookup_finds_every_key(entries: Seq<Entry>, key: Seq<char>)
    ensures
        lookup(entries, key) is Some <==> exists|value: Seq<char>| #[trigger]
            entries.contains(Entry { key, value }),
    decreases entries.len(),
{
    if entries.len() > 0 {
        let rest = entries.skip(1);
        lookup_finds_every_key(rest, key);
        if entries[0].key == key {
            assert(entries[0] == (Entry { key, value: entries[0].value }));
            assert(entries.contains(Entry { key, value: entries[0].value }));
        } else {
            assert forall|value: Seq<char>| #[trigger]
                entries.contains(Entry { key, value }) implies rest.contains(
                Entry { key, value },
            ) by {
                let i = entries.index_of(Entry { key, value });
                assert(rest[i - 1] == entries[i]);
            }
            assert forall|value: Seq<char>| #[trigger]
                rest.contains(Entry { key, value }) implies entries.contains(
                Entry { key, value },
            ) by {
                let i = rest.index_of(Entry { key, value });
                assert(entries[i + 1] == rest[i]);
            }
        }
    }
}

/// Where no key occurs twice, a key's value is that of the entry that holds it.
pub proof fn lookup_finds_the_entry(entries: Seq<Entry>, key: Seq<char>, value: Seq<char>)
    requires
        unique_keys(entries),
    ensures
        lookup(entries, key) == Some(value) <==> entries.contains(Entry { key, value }),
    decreases entries.len(),
{
    if entries.len() > 0 {
        let rest = entries.skip(1);
        assert forall|i: int, j: int| 0 <= i < rest.len() && 0 <= j < rest.len() && i != j implies (
        #[trigger] rest[i]).key != (#[trigger] rest[j]).key by {
            assert(entries[i + 1].key != entries[j + 1].key);
        }
        lookup_finds_the_entry(rest, key, value);
        let entry = Entry { key, value };
        if entries.contains(entry) {
            let i = entries.index_of(entry);
            if i > 0 {
                assert(rest[i - 1] == entry);
                assert(entries[0].key != entries[i].key);
            }
        }
        if rest.contains(entry) {
            let i = rest.index_of(entry);
            assert(entries[i + 1] == entry);
        }
        if lookup(entries, key) == Some(value) && entries[0].key == key {
            assert(entries[0] == entry);
        }
    }
}

/// The value of a key does not depend on the order in which properties are walked.
pub proof fn lookup_ignores_order(a: Seq<Entry>, b: Seq<Entry>, key: Seq<char>)
    requires
        unique_keys(a),
        unique_keys(b),
        same_entries(a, b),
    ensures
        lookup(a, key) == lookup(b, key),
{
    if lookup(a, key) is Some {
        lookup_finds_the_entry(a, key, lookup(a, key)->0);
        assert(a.contains(Entry { key, value: lookup(a, key)->0 }));
        lookup_finds_the_entry(b, key, lookup(a, key)->0);
    }
    if lookup(b, key) is Some {
        lookup_finds_the_entry(b, key, lookup(b, key)->0);
        lookup_finds_the_entry(a, key, lookup(b, key)->0);
        assert(b.contains(Entry { key, value: lookup(b, key)->0 }));
        assert(a.contains(Entry { key, value: lookup(b, key)->0 }));
    }
}

/// The entry of a pair has the pair's first text as its key and the second as its
/// value.
pub proof fn entries_hold_both_texts(pair: (String, String))
    ensures
        entry_of(pair).key == pair.0@,
        entry_of(pair).value == pair.1@,
{
}

/// A value that is found is that of an entry with the key, and no entry before it
/// has the key; where no value is found, no entry has the key.
pub proof fn lookup_takes_the_first(entries: Seq<Entry>, key: Seq<char>)
    ensures
        lookup(entries, key) matches Some(value) ==> exists|i: int|
            #![trigger entries[i]]
            0 <= i < entries.len() && entries[i].key == key && entries[i].value == value && (forall|
                j: int,
            | 0 <= j < i ==> (#[trigger] entries[j]).key != key),
        lookup(entries, key) is None ==> forall|i: int|
            0 <= i < entries.len() ==> (#[trigger] entries[i]).key != key,
    decreases entries.len(),
{
    if entries.len() > 0 && entries[0].key != key {
        let rest = entries.skip(1);
        lookup_takes_the_first(rest, key);
        if lookup(rest, key) is Some {
            let value = lookup(rest, key)->0;
            let i = choose|i: int|
                #![trigger rest[i]]
                0 <= i < rest.len() && rest[i].key == key && rest[i].value == value && (forall|
                    j: int,
                | 0 <= j < i ==> (#[trigger] rest[j]).key != key);
            assert(entries[i + 1] == rest[i]);
            assert forall|j: int| 0 <= j < i + 1 implies (#[trigger] entries[j]).key != key by {
                if j > 0 {
                    assert(entries[j] == rest[j - 1]);
                }
            }
        } else {
            assert forall|j: int| 0 <= j < entries.len() implies (#[trigger] entries[j]).key
                != key by {
                if j > 0 {
                    assert(entries[j] == rest[j - 1]);
                }
            }
        }
    }
}

/// An insertion leaves every other entry as it is and where it is. A key that was
/// there keeps its place; one that was not is added at the end.
pub proof fn insertion_keeps_the_other_entries(
    entries: Seq<Entry>,
    key: Seq<char>,
    value: Seq<char>,
)
    ensures
        ({
            let after = inserted(entries, key, value);
            &&& after.contains(Entry { key, value })
            &&& forall|i: int|
                0 <= i < entries.len() ==> (#[trigger] after[i]).key == entries[i].key
            &&& forall|i: int|
                0 <= i < entries.len() && entries[i].key != key ==> #[trigger] after[i]
                    == entries[i]
            &&& after.len() == entries.len() <==> exists|i: int|
                0 <= i < entries.len() && (#[trigger] entries[i]).key == key
            &&& after.len() == entries.len() || (after.len() == entries.len() + 1 && after.last()
                == (Entry { key, value }))
        }),
    decreases entries.len(),
{
    let after = inserted(entries, key, value);
    if entries.len() == 0 {
        assert(after[0] == (Entry { key, value }));
    } else if entries[0].key == key {
        assert(after[0] == (Entry { key, value }));
    } else {
        let rest = entries.skip(1);
        let rest_after = inserted(rest, key, value);
        insertion_keeps_the_other_entries(rest, key, value);
        assert(after =~= seq![entries[0]] + rest_after);
        let at = rest_after.index_of(Entry { key, value });
        assert(after[at + 1] == (Entry { key, value }));
        assert forall|i: int| 0 <= i < entries.len() implies (#[trigger] after[i]).key
            == entries[i].key && (entries[i].key != key ==> after[i] == entries[i]) by {
            if i > 0 {
                assert(after[i] == rest_after[i - 1]);
                assert(entries[i] == rest[i - 1]);
            }
        }
        if exists|i: int| 0 <= i < entries.len() && (#[trigger] entries[i]).key == key {
            let i = choose|i: int| 0 <= i < entries.len() && (#[trigger] entries[i]).key == key;
            assert(rest[i - 1].key == key);
        }
        if exists|i: int| 0 <= i < rest.len() && (#[trigger] rest[i]).key == key {
            let i = choose|i: int| 0 <= i < rest.len() && (#[trigger] rest[i]).key == key;
            assert(entries[i + 1].key == key);
        }
    }
}

} // verus!
