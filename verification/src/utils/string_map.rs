//! Maps and sets of strings that keep the order in which their keys came in.

use vstd::prelude::*;

use crate::utils::text::str_eq;

verus! {

/// A map keyed by strings.
///
/// No key occurs twice, and the entries keep the order in which their keys first came in.
#[derive(Debug, PartialEq)]
pub struct StringMap<V> {
    entries: Vec<(String, V)>,
}

/// No two entries have the same key.
pub open spec fn distinct_keys<V>(entries: Seq<(String, V)>) -> bool {
    forall|i: int, j: int|
        #![trigger entries[i], entries[j]]
        0 <= i < j < entries.len() ==> entries[i].0@ != entries[j].0@
}

/// The entry at `i` has the key `key`.
pub open spec fn key_at<V>(entries: Seq<(String, V)>, i: int, key: Seq<char>) -> bool {
    0 <= i < entries.len() && entries[i].0@ == key
}

/// Some entry has the key `key`.
pub open spec fn has_key<V>(entries: Seq<(String, V)>, key: Seq<char>) -> bool {
    exists|i: int| key_at(entries, i, key)
}

/// The value of the entry with the key `key`.
pub open spec fn value_of<V>(entries: Seq<(String, V)>, key: Seq<char>) -> V {
    entries[choose|i: int| key_at(entries, i, key)].1
}

/// The map that a list of entries stands for.
pub open spec fn map_of<V>(entries: Seq<(String, V)>) -> Map<Seq<char>, V> {
    Map::new(
        |key: Seq<char>| has_key(entries, key),
        |key: Seq<char>| value_of(entries, key),
    )
}

/// A list of entries in which a key has a value: in the place of the key if it is there, and else at
/// the end.
pub open spec fn inserted<V>(entries: Seq<(String, V)>, key: String, value: V) -> Seq<(String, V)> {
    if has_key(entries, key@) {
        Seq::new(
            entries.len(),
            |i: int|
                if entries[i].0@ == key@ {
                    (entries[i].0, value)
                } else {
                    entries[i]
                },
        )
    } else {
        entries.push((key, value))
    }
}

/// The entries of a map that pairs of a key and a value are put into, one after the other.
pub open spec fn collected<V>(pairs: Seq<(String, V)>) -> Seq<(String, V)>
    decreases pairs.len(),
{
    if pairs.len() == 0 {
        Seq::empty()
    } else {
        inserted(collected(pairs.drop_last()), pairs.last().0, pairs.last().1)
    }
}

/// The map of a list of entries holds the value of each entry under its key.
pub(crate) proof fn lemma_entry<V>(entries: Seq<(String, V)>, i: int)
    requires
        distinct_keys(entries),
        0 <= i < entries.len(),
    ensures
        map_of(entries).contains_key(entries[i].0@),
        map_of(entries)[entries[i].0@] == entries[i].1,
{
    let key = entries[i].0@;
    assert(key_at(entries, i, key));
    let j = choose|j: int| key_at(entries, j, key);
    assert(entries[i].0@ == entries[j].0@);
}

impl<V> View for StringMap<V> {
    type V = Map<Seq<char>, V>;

    open spec fn view(&self) -> Map<Seq<char>, V> {
        map_of(self.entries())
    }
}

impl<V: DeepView> DeepView for StringMap<V> {
    type V = Map<Seq<char>, V::V>;

    open spec fn deep_view(&self) -> Map<Seq<char>, V::V> {
        self@.map_values(|v: V| v.deep_view())
    }
}

impl<V> StringMap<V> {
    #[verifier::type_invariant]
    spec fn keys_are_distinct(self) -> bool {
        distinct_keys(self.entries@)
    }

    /// The entries, in their order.
    pub closed spec fn entries(&self) -> Seq<(String, V)> {
        self.entries@
    }

    /// Create an empty map.
    pub fn new() -> (map: Self)
        ensures
            map@ == Map::<Seq<char>, V>::empty(),
            map.entries() == Seq::<(String, V)>::empty(),
    {
        let map = StringMap { entries: Vec::new() };
        assert(map@ =~= Map::<Seq<char>, V>::empty());
        map
    }

    /// Put pairs of a key and a value into a map, one after the other.
    pub fn collect(pairs: Vec<(String, V)>) -> (map: Self)
        ensures
            map.entries() == collected(pairs@),
    {
        let ghost all = pairs@;
        let mut map: StringMap<V> = StringMap::new();
        let mut rest: Vec<(String, V)> = pairs;
        let mut i: usize = 0;
        let n: usize = rest.len();
        assert(all.take(0) =~= Seq::<(String, V)>::empty());
        while i < n
            invariant
                i <= n,
                n == all.len(),
                rest@ == all.skip(i as int),
                map.entries() == collected(all.take(i as int)),
            decreases n - i,
        {
            assert(all.take(i + 1).drop_last() =~= all.take(i as int));
            let (key, value) = rest.remove(0);
            map.insert(key, value);
            i += 1;
            assert(rest@ =~= all.skip(i as int));
        }
        assert(all.take(i as int) =~= all);
        map
    }

    /// The number of entries.
    pub fn len(&self) -> (n: usize)
        ensures
            n == self.entries().len(),
            distinct_keys(self.entries()),
    {
        proof {
            use_type_invariant(self);
        }
        self.entries.len()
    }

    /// The key of the entry at a position.
    pub fn key(&self, i: usize) -> (key: &String)
        requires
            i < self.entries().len(),
        ensures
            *key == self.entries()[i as int].0,
    {
        &self.entries[i].0
    }

    /// The value of the entry at a position.
    pub fn value(&self, i: usize) -> (value: &V)
        requires
            i < self.entries().len(),
        ensures
            *value == self.entries()[i as int].1,
    {
        &self.entries[i].1
    }

    /// The position of the entry with the given key.
    fn position(&self, key: &str) -> (found: Option<usize>)
        ensures
            found matches Some(i) ==> key_at(self.entries@, i as int, key@),
            found is None ==> !has_key(self.entries@, key@),
    {
        let mut i: usize = 0;
        while i < self.entries.len()
            invariant
                i <= self.entries@.len(),
                forall|j: int| 0 <= j < i ==> !key_at(self.entries@, j, key@),
            decreases self.entries@.len() - i,
        {
            if str_eq(self.entries[i].0.as_str(), key) {
                return Some(i);
            }
            i += 1;
        }
        None
    }

    /// The value stored under the given key.
    pub fn get(&self, key: &str) -> (value: Option<&V>)
        ensures
            value is Some <==> self@.contains_key(key@),
            value matches Some(v) ==> *v == self@[key@],
    {
        proof {
            use_type_invariant(self);
        }
        match self.position(key) {
            Some(i) => {
                proof {
                    lemma_entry(self.entries@, i as int);
                }
                Some(&self.entries[i].1)
            },
            None => None,
        }
    }

    /// Is there a value under the given key?
    pub fn contains_key(&self, key: &str) -> (found: bool)
        ensures
            found == self@.contains_key(key@),
    {
        self.get(key).is_some()
    }

    /// Store a value under the given key, in place of the one that was there.
    pub fn insert(&mut self, key: String, value: V)
        ensures
            final(self)@ == old(self)@.insert(key@, value),
            final(self).entries() == inserted(old(self).entries(), key, value),
    {
        proof {
            use_type_invariant(&*self);
        }
        let ghost before = self.entries@;
        let mut entries: Vec<(String, V)> = Vec::new();
        let position = self.position(key.as_str());
        std::mem::swap(&mut entries, &mut self.entries);
        match position {
            Some(i) => {
                let old_key: String = entries[i].0.clone();
                entries.set(i, (old_key, value));
                proof {
                    lemma_replaced_entry(before, i as int, entries@[i as int].0, value);
                    assert(has_key(before, key@));
                    assert(entries@ =~= inserted(before, key, value));
                }
            },
            None => {
                entries.push((key, value));
                proof {
                    lemma_pushed_entry(before, key, value);
                }
            },
        }
        self.entries = entries;
    }
}

proof fn lemma_replaced_entry<V>(entries: Seq<(String, V)>, i: int, key: String, value: V)
    requires
        distinct_keys(entries),
        0 <= i < entries.len(),
        key == entries[i].0,
    ensures
        distinct_keys(entries.update(i, (key, value))),
        map_of(entries.update(i, (key, value))) == map_of(entries).insert(key@, value),
{
    let after = entries.update(i, (key, value));
    assert forall|j: int| 0 <= j < entries.len() implies after[j].0@ == entries[j].0@ by {}
    assert(distinct_keys(after));
    assert forall|k: Seq<char>| has_key(after, k) == (has_key(entries, k) || k == key@) by {
        if has_key(after, k) {
            let j = choose|j: int| key_at(after, j, k);
            assert(key_at(entries, j, k));
        }
        if has_key(entries, k) {
            let j = choose|j: int| key_at(entries, j, k);
            assert(key_at(after, j, k));
        }
        assert(key_at(after, i, key@));
    }
    assert forall|k: Seq<char>| has_key(after, k) implies map_of(after)[k] == map_of(
        entries,
    ).insert(key@, value)[k] by {
        let j = choose|j: int| key_at(after, j, k);
        lemma_entry(after, j);
        if j != i {
            lemma_entry(entries, j);
            assert(k != key@);
        }
    }
    assert(map_of(after) =~= map_of(entries).insert(key@, value));
}

proof fn lemma_pushed_entry<V>(entries: Seq<(String, V)>, key: String, value: V)
    requires
        distinct_keys(entries),
        !has_key(entries, key@),
    ensures
        distinct_keys(entries.push((key, value))),
        map_of(entries.push((key, value))) == map_of(entries).insert(key@, value),
{
    let n = entries.len() as int;
    let after = entries.push((key, value));
    assert forall|i: int, j: int|
        #![trigger after[i], after[j]]
        0 <= i < j < after.len() implies after[i].0@ != after[j].0@ by {
        assert(!key_at(entries, i, key@));
        assert(after[i] == entries[i]);
    }
    assert forall|k: Seq<char>| has_key(after, k) == (has_key(entries, k) || k == key@) by {
        if has_key(after, k) {
            let j = choose|j: int| key_at(after, j, k);
            assert(j < n ==> key_at(entries, j, k));
        }
        if has_key(entries, k) {
            let j = choose|j: int| key_at(entries, j, k);
            assert(key_at(after, j, k));
        }
        assert(key_at(after, n, key@));
    }
    assert forall|k: Seq<char>| has_key(after, k) implies map_of(after)[k] == map_of(
        entries,
    ).insert(key@, value)[k] by {
        let j = choose|j: int| key_at(after, j, k);
        lemma_entry(after, j);
        if j != n {
            lemma_entry(entries, j);
            assert(key_at(entries, j, k));
        }
    }
    assert(map_of(after) =~= map_of(entries).insert(key@, value));
}

/// Two lists of entries hold the same keys in the same order.
pub open spec fn same_keys<V>(left: Seq<(String, V)>, right: Seq<(String, V)>) -> bool {
    &&& left.len() == right.len()
    &&& forall|i: int| #![trigger left[i]] #![trigger right[i]] 0 <= i < left.len() ==> left[i].0@ == right[i].0@
}

/// Lists of entries with the same keys, and values that look the same, stand for maps that look
/// the same.
pub(crate) proof fn lemma_same_deep_view<V: DeepView>(left: StringMap<V>, right: StringMap<V>)
    requires
        same_keys(left.entries(), right.entries()),
        distinct_keys(left.entries()),
        distinct_keys(right.entries()),
        forall|i: int|
            0 <= i < left.entries().len() ==> left.entries()[i].1.deep_view() == (
            #[trigger] right.entries()[i]).1.deep_view(),
    ensures
        left.deep_view() == right.deep_view(),
{
    let a = left.entries();
    let b = right.entries();
    assert forall|k: Seq<char>| has_key(a, k) == has_key(b, k) by {
        if has_key(a, k) {
            let j = choose|j: int| key_at(a, j, k);
            assert(key_at(b, j, k));
        }
        if has_key(b, k) {
            let j = choose|j: int| key_at(b, j, k);
            assert(key_at(a, j, k));
        }
    }
    assert forall|k: Seq<char>| has_key(a, k) implies left.deep_view()[k]
        == right.deep_view()[k] by {
        let j = choose|j: int| key_at(a, j, k);
        lemma_entry(a, j);
        lemma_entry(b, j);
        assert(b[j].1.deep_view() == a[j].1.deep_view());
    }
    assert(left.deep_view() =~= right.deep_view());
}

impl<V: Clone> Clone for StringMap<V> {
    /// The copy has the same keys in the same order, each with a clone of its value.
    fn clone(&self) -> (copy: Self)
        ensures
            same_keys(copy.entries(), self.entries()),
            distinct_keys(self.entries()),
            distinct_keys(copy.entries()),
            forall|i: int|
                0 <= i < self.entries().len() ==> cloned::<V>(
                    self.entries()[i].1,
                    #[trigger] copy.entries()[i].1,
                ),
    {
        proof {
            use_type_invariant(self);
        }
        let mut entries: Vec<(String, V)> = Vec::new();
        let mut i: usize = 0;
        while i < self.entries.len()
            invariant
                i <= self.entries@.len(),
                entries@.len() == i,
                forall|j: int|
                    #![trigger entries@[j]]
                    0 <= j < i ==> entries@[j].0@ == self.entries@[j].0@ && cloned::<V>(
                        self.entries@[j].1,
                        entries@[j].1,
                    ),
            decreases self.entries@.len() - i,
        {
            entries.push((self.entries[i].0.clone(), self.entries[i].1.clone()));
            i += 1;
        }
        StringMap { entries }
    }
}

} // verus!
