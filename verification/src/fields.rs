//! The flat key-to-text mapping that a plugin's collected data projects to.
//!
//! A `FieldMap` holds each key once. Its model is a map from key text to
//! value text; it is stored as a list of entries whose keys are pairwise
//! different, in the order in which the keys first came in.

use vstd::prelude::*;
use crate::text::{copy_text_or_empty, text_or_empty};

verus! {

/// One entry of a plugin's fields as it crosses the boundary. Key and value
/// may each be absent.
#[derive(Debug, Clone, PartialEq, Eq)]
pub struct RawPluginField {
    pub key: Option<String>,
    pub value: Option<String>,
}

/// One entry of a `FieldMap`.
#[derive(Debug, Clone, PartialEq, Eq)]
pub struct PluginField {
    pub key: String,
    pub value: String,
}

/// The model of a `FieldMap`.
pub type Fields = Map<Seq<char>, Seq<char>>;

/// The mapping that a list of entries stands for: each entry maps its key
/// to its value, and of two entries with one key the later one counts.
pub open spec fn entries_map(entries: Seq<PluginField>) -> Fields
    decreases entries.len(),
{
    if entries.len() == 0 {
        Map::empty()
    } else {
        entries_map(entries.drop_last()).insert(entries.last().key@, entries.last().value@)
    }
}

/// No two entries have the same key.
pub open spec fn distinct_keys(entries: Seq<PluginField>) -> bool {
    forall|i: int, j: int|
        0 <= i < j < entries.len() ==> (#[trigger] entries[i]).key@ != (#[trigger] entries[j]).key@
}

/// The mapping that a raw list of fields stands for. An entry without a key
/// is skipped; a value that is absent reads as the empty text; of two
/// entries with one key the later one counts.
pub open spec fn fields_of(raw: Seq<RawPluginField>) -> Fields
    decreases raw.len(),
{
    if raw.len() == 0 {
        Map::empty()
    } else {
        let earlier = fields_of(raw.drop_last());
        match raw.last().key {
            Some(key) => earlier.insert(key@, text_or_empty(raw.last().value)),
            None => earlier,
        }
    }
}

/// Without its last entry, a list keeps its keys pairwise different.
proof fn lemma_distinct_without_last(entries: Seq<PluginField>)
    requires
        distinct_keys(entries),
        entries.len() > 0,
    ensures
        distinct_keys(entries.drop_last()),
{
    let earlier = entries.drop_last();
    assert forall|a: int, b: int| 0 <= a < b < earlier.len() implies (
    #[trigger] earlier[a]).key@ != (#[trigger] earlier[b]).key@ by {
        assert(entries[a].key@ != entries[b].key@);
    }
}

/// A key is mapped exactly if some entry has it.
proof fn lemma_key_is_mapped(entries: Seq<PluginField>, key: Seq<char>)
    ensures
        entries_map(entries).contains_key(key) <==> exists|i: int|
            0 <= i < entries.len() && (#[trigger] entries[i]).key@ == key,
    decreases entries.len(),
{
    if entries.len() > 0 {
        let earlier = entries.drop_last();
        lemma_key_is_mapped(earlier, key);
        if entries_map(entries).contains_key(key) {
            if entries.last().key@ == key {
                assert(entries[entries.len() - 1].key@ == key);
            } else {
                let i = choose|i: int|
                    0 <= i < earlier.len() && (#[trigger] earlier[i]).key@ == key;
                assert(entries[i].key@ == key);
            }
        }
        if exists|i: int| 0 <= i < entries.len() && (#[trigger] entries[i]).key@ == key {
            let i = choose|i: int| 0 <= i < entries.len() && (#[trigger] entries[i]).key@ == key;
            if i < entries.len() - 1 {
                assert(earlier[i].key@ == key);
            }
        }
    }
}

/// Where the keys are pairwise different, each entry's key is mapped to
/// that entry's value.
proof fn lemma_entry_is_mapped(entries: Seq<PluginField>, i: int)
    requires
        distinct_keys(entries),
        0 <= i < entries.len(),
    ensures
        entries_map(entries).contains_key(entries[i].key@),
        entries_map(entries)[entries[i].key@] == entries[i].value@,
    decreases entries.len(),
{
    if i < entries.len() - 1 {
        let earlier = entries.drop_last();
        lemma_distinct_without_last(entries);
        lemma_entry_is_mapped(earlier, i);
        assert(earlier[i] == entries[i]);
        assert(entries[i].key@ != entries[entries.len() - 1].key@);
    }
}

/// Where the keys are pairwise different, there are as many mapped keys as
/// entries.
proof fn lemma_one_key_per_entry(entries: Seq<PluginField>)
    requires
        distinct_keys(entries),
    ensures
        entries_map(entries).dom().finite(),
        entries_map(entries).len() == entries.len(),
    decreases entries.len(),
{
    if entries.len() > 0 {
        let earlier = entries.drop_last();
        lemma_distinct_without_last(entries);
        lemma_one_key_per_entry(earlier);
        lemma_key_is_mapped(earlier, entries.last().key@);
        if entries_map(earlier).contains_key(entries.last().key@) {
            let i = choose|i: int|
                0 <= i < earlier.len() && (#[trigger] earlier[i]).key@ == entries.last().key@;
            assert(entries[i].key@ != entries[entries.len() - 1].key@);
        }
    }
}

/// Where the keys are pairwise different, putting another value in an
/// entry's place maps that entry's key to the new value and changes nothing
/// else.
proof fn lemma_replace_entry(entries: Seq<PluginField>, i: int, entry: PluginField)
    requires
        distinct_keys(entries),
        0 <= i < entries.len(),
        entry.key@ == entries[i].key@,
    ensures
        distinct_keys(entries.update(i, entry)),
        entries_map(entries.update(i, entry)) == entries_map(entries).insert(
            entry.key@,
            entry.value@,
        ),
    decreases entries.len(),
{
    let replaced = entries.update(i, entry);
    let earlier = entries.drop_last();
    assert forall|a: int, b: int| 0 <= a < b < replaced.len() implies (
    #[trigger] replaced[a]).key@ != (#[trigger] replaced[b]).key@ by {
        assert(entries[a].key@ != entries[b].key@);
    }
    if i == entries.len() - 1 {
        assert(replaced.drop_last() =~= earlier);
        assert(entries_map(replaced) =~= entries_map(entries).insert(entry.key@, entry.value@));
    } else {
        lemma_distinct_without_last(entries);
        lemma_replace_entry(earlier, i, entry);
        assert(replaced.drop_last() =~= earlier.update(i, entry));
        assert(replaced.last() == entries.last());
        assert(entries[i].key@ != entries[entries.len() - 1].key@);
        assert(entries_map(replaced) =~= entries_map(entries).insert(entry.key@, entry.value@));
    }
}

/// A mapping from key text to value text in which each key occurs once.
#[derive(Debug)]
pub struct FieldMap {
    entries: Vec<PluginField>,
}

impl View for FieldMap {
    type V = Fields;

    closed spec fn view(&self) -> Fields {
        entries_map(self.entries@)
    }
}

impl FieldMap {
    #[verifier::type_invariant]
    spec fn keys_are_distinct(&self) -> bool {
        distinct_keys(self.entries@)
    }

    /// The empty mapping.
    pub fn new() -> (map: FieldMap)
        ensures
            map@ == Fields::empty(),
    {
        FieldMap { entries: Vec::new() }
    }

    /// The number of keys.
    pub fn len(&self) -> (count: usize)
        ensures
            self@.dom().finite(),
            count == self@.len(),
    {
        proof {
            use_type_invariant(self);
            lemma_one_key_per_entry(self.entries@);
        }
        self.entries.len()
    }

    /// Whether no key is mapped.
    pub fn is_empty(&self) -> (empty: bool)
        ensures
            empty <==> self@ == Fields::empty(),
    {
        proof {
            use_type_invariant(self);
            if self.entries.len() > 0 {
                lemma_entry_is_mapped(self.entries@, 0);
            }
        }
        self.entries.len() == 0
    }

    /// The place of the entry with this key, if there is one.
    fn position(&self, key: &String) -> (place: Option<usize>)
        ensures
            match place {
                Some(i) => i < self.entries.len() && self.entries[i as int].key@ == key@,
                None => forall|j: int|
                    0 <= j < self.entries.len() ==> (#[trigger] self.entries[j]).key@ != key@,
            },
    {
        let mut i: usize = 0;
        while i < self.entries.len()
            invariant
                i <= self.entries.len(),
                forall|j: int| 0 <= j < i ==> (#[trigger] self.entries[j]).key@ != key@,
            decreases self.entries.len() - i,
        {
            if self.entries[i].key == *key {
                return Some(i);
            }
            i += 1;
        }
        None
    }

    /// The value that a key is mapped to, if it is mapped.
    pub fn get(&self, key: &str) -> (found: Option<&String>)
        ensures
            match found {
                Some(value) => self@.contains_key(key@) && self@[key@] == value@,
                None => !self@.contains_key(key@),
            },
    {
        let owned = key.to_owned();
        let place = self.position(&owned);
        proof {
            use_type_invariant(self);
            lemma_key_is_mapped(self.entries@, key@);
        }
        match place {
            Some(i) => {
                proof {
                    lemma_entry_is_mapped(self.entries@, i as int);
                }
                Some(&self.entries[i].value)
            },
            None => None,
        }
    }

    /// Whether a key is mapped.
    pub fn contains_key(&self, key: &str) -> (mapped: bool)
        ensures
            mapped == self@.contains_key(key@),
    {
        self.get(key).is_some()
    }

    /// Maps a key to a value. A value that the key was mapped to before is
    /// replaced.
    pub fn insert(&mut self, key: String, value: String)
        ensures
            final(self)@ == old(self)@.insert(key@, value@),
    {
        proof {
            use_type_invariant(&*self);
        }
        let place = self.position(&key);
        let mut taken = FieldMap::new();
        std::mem::swap(self, &mut taken);
        let mut entries = taken.entries;
        let ghost before = entries@;
        let entry = PluginField { key, value };
        match place {
            Some(i) => {
                proof {
                    lemma_replace_entry(before, i as int, entry);
                }
                entries.set(i, entry);
            },
            None => {
                entries.push(entry);
                proof {
                    let after = entries@;
                    assert(after.drop_last() =~= before);
                    assert forall|a: int, b: int| 0 <= a < b < after.len() implies (
                    #[trigger] after[a]).key@ != (#[trigger] after[b]).key@ by {
                        if b < before.len() {
                            assert(before[a].key@ != before[b].key@);
                        } else {
                            assert(before[a].key@ != entry.key@);
                        }
                    }
                }
            },
        }
        *self = FieldMap { entries };
    }

    /// The entries, one per key, in the order in which the keys first came
    /// in.
    pub fn entries(&self) -> (list: &Vec<PluginField>)
        ensures
            distinct_keys(list@),
            entries_map(list@) == self@,
    {
        proof {
            use_type_invariant(self);
        }
        &self.entries
    }

    /// A copy with the same mapping.
    pub fn duplicate(&self) -> (copy: FieldMap)
        ensures
            copy@ == self@,
    {
        proof {
            use_type_invariant(self);
        }
        let mut entries: Vec<PluginField> = Vec::new();
        let mut i: usize = 0;
        while i < self.entries.len()
            invariant
                i <= self.entries.len(),
                entries.len() == i,
                forall|j: int|
                    0 <= j < i ==> (#[trigger] entries[j]).key@ == self.entries[j].key@
                        && entries[j].value@ == self.entries[j].value@,
            decreases self.entries.len() - i,
        {
            entries.push(
                PluginField {
                    key: self.entries[i].key.clone(),
                    value: self.entries[i].value.clone(),
                },
            );
            i += 1;
        }
        proof {
            assert forall|a: int, b: int| 0 <= a < b < entries.len() implies (
            #[trigger] entries[a]).key@ != (#[trigger] entries[b]).key@ by {
                assert(self.entries[a].key@ != self.entries[b].key@);
            }
            lemma_same_texts_same_map(entries@, self.entries@);
        }
        FieldMap { entries }
    }

    /// Decodes a raw list of fields: an entry without a key is skipped, an
    /// absent value reads as the empty text, and where a key comes twice
    /// the later value stays.
    pub fn from_raw(raw: &Vec<RawPluginField>) -> (map: FieldMap)
        ensures
            map@ == fields_of(raw@),
    {
        let mut map = FieldMap::new();
        let mut i: usize = 0;
        while i < raw.len()
            invariant
                i <= raw.len(),
                map@ == fields_of(raw@.take(i as int)),
            decreases raw.len() - i,
        {
            proof {
                assert(raw@.take(i + 1).drop_last() =~= raw@.take(i as int));
                assert(raw@.take(i + 1).last() == raw[i as int]);
            }
            match &raw[i].key {
                Some(key) => {
                    map.insert(key.clone(), copy_text_or_empty(&raw[i].value));
                },
                None => {},
            }
            i += 1;
        }
        proof {
            assert(raw@.take(raw.len() as int) =~= raw@);
        }
        map
    }
}

/// Two lists whose entries agree in text, place by place, stand for the
/// same mapping.
proof fn lemma_same_texts_same_map(left: Seq<PluginField>, right: Seq<PluginField>)
    requires
        left.len() == right.len(),
        forall|j: int|
            0 <= j < left.len() ==> (#[trigger] left[j]).key@ == right[j].key@ && left[j].value@
                == right[j].value@,
    ensures
        entries_map(left) == entries_map(right),
    decreases left.len(),
{
    if left.len() > 0 {
        assert(left[left.len() - 1].key@ == right[right.len() - 1].key@);
        let shorter = left.drop_last();
        assert forall|j: int| 0 <= j < shorter.len() implies (#[trigger] shorter[j]).key@
            == right.drop_last()[j].key@ && shorter[j].value@ == right.drop_last()[j].value@ by {
            assert(left[j].key@ == right[j].key@);
        }
        lemma_same_texts_same_map(shorter, right.drop_last());
    }
}

} // verus!
