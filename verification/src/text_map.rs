//! A map from text to values that keeps its names in sorted order.

use vstd::prelude::*;

use crate::text::{
    lemma_text_before_total, lemma_text_before_transitive, text_before, text_eq, text_lt,
};

verus! {

/// A map keyed by text. Names are unique and sorted by their bytes, so walking
/// the map by index gives the same order whenever its contents are the same.
#[derive(Debug, PartialEq, Eq)]
pub struct TextMap<V> {
    entries: Vec<(String, V)>,
}

/// Names ascend strictly.
pub open spec fn ascending<V>(entries: Seq<(String, V)>) -> bool {
    forall|i: int, j: int|
        #![trigger entries[i], entries[j]]
        0 <= i < j < entries.len() ==> text_before(entries[i].0@, entries[j].0@)
}

/// Whether `entries` has an entry named `name`.
pub open spec fn has_name<V>(entries: Seq<(String, V)>, name: Seq<char>) -> bool {
    exists|i: int| 0 <= i < entries.len() && #[trigger] entries[i].0@ == name
}

/// The index of the entry named `name`.
pub open spec fn index_of_name<V>(entries: Seq<(String, V)>, name: Seq<char>) -> int {
    choose|i: int| 0 <= i < entries.len() && #[trigger] entries[i].0@ == name
}

/// The map that `entries` spells out.
pub open spec fn entries_map<V>(entries: Seq<(String, V)>) -> Map<Seq<char>, V> {
    Map::new(
        |name: Seq<char>| has_name(entries, name),
        |name: Seq<char>| entries[index_of_name(entries, name)].1,
    )
}

proof fn lemma_unique_index<V>(entries: Seq<(String, V)>, i: int)
    requires
        ascending(entries),
        0 <= i < entries.len(),
    ensures
        has_name(entries, entries[i].0@),
        index_of_name(entries, entries[i].0@) == i,
        entries_map(entries).contains_key(entries[i].0@),
        entries_map(entries)[entries[i].0@] == entries[i].1,
{
    let name = entries[i].0@;
    assert(entries[i].0@ == name);
    let k = index_of_name(entries, name);
    assert(0 <= k < entries.len() && entries[k].0@ == name);
    if k < i {
        assert(text_before(entries[k].0@, entries[i].0@));
        lemma_text_before_total(name, name);
    } else if i < k {
        assert(text_before(entries[i].0@, entries[k].0@));
        lemma_text_before_total(name, name);
    }
}

impl<V> View for TextMap<V> {
    type V = Map<Seq<char>, V>;

    closed spec fn view(&self) -> Map<Seq<char>, V> {
        entries_map(self.entries@)
    }
}

impl<V> TextMap<V> {
    #[verifier::type_invariant]
    spec fn names_ascend(self) -> bool {
        ascending(self.entries@)
    }

    /// The names in the order in which the map is walked.
    pub closed spec fn names(&self) -> Seq<Seq<char>> {
        self.entries@.map_values(|entry: (String, V)| entry.0@)
    }

    /// An empty map.
    pub fn new() -> (map: TextMap<V>)
        ensures
            map@ == Map::<Seq<char>, V>::empty(),
            map.names() == Seq::<Seq<char>>::empty(),
    {
        let map = TextMap { entries: Vec::new() };
        proof {
            assert(map@ =~= Map::<Seq<char>, V>::empty());
            assert(map.names() =~= Seq::<Seq<char>>::empty());
        }
        map
    }

    /// The place of `name`: the number of entries before it, and whether it is there.
    fn locate(entries: &Vec<(String, V)>, name: &str) -> (place: (usize, bool))
        requires
            ascending(entries@),
        ensures
            place.0 <= entries@.len(),
            place.1 == has_name(entries@, name@),
            forall|j: int| 0 <= j < place.0 ==> text_before(#[trigger] entries@[j].0@, name@),
            place.1 ==> place.0 < entries@.len() && entries@[place.0 as int].0@ == name@,
            !place.1 ==> forall|j: int|
                place.0 <= j < entries@.len() ==> text_before(name@, #[trigger] entries@[j].0@),
    {
        let mut i: usize = 0;
        while i < entries.len() && text_lt(entries[i].0.as_str(), name)
            invariant
                i <= entries@.len(),
                forall|j: int| 0 <= j < i ==> text_before(#[trigger] entries@[j].0@, name@),
            decreases entries@.len() - i,
        {
            i += 1;
        }
        let found = i < entries.len() && text_eq(entries[i].0.as_str(), name);
        proof {
            if !found && i < entries@.len() {
                lemma_text_before_total(entries@[i as int].0@, name@);
                assert forall|j: int| i <= j < entries@.len() implies text_before(
                    name@,
                    #[trigger] entries@[j].0@,
                ) by {
                    if j > i {
                        assert(text_before(entries@[i as int].0@, entries@[j].0@));
                        lemma_text_before_transitive(
                            name@,
                            entries@[i as int].0@,
                            entries@[j].0@,
                        );
                    }
                }
            }
            if found {
                assert(entries@[i as int].0@ == name@);
            } else {
                assert(!has_name(entries@, name@)) by {
                    if has_name(entries@, name@) {
                        let k = index_of_name(entries@, name@);
                        assert(entries@[k].0@ == name@);
                        lemma_text_before_total(name@, name@);
                    }
                }
            }
        }
        (i, found)
    }

    /// The value stored under `name`.
    pub fn get(&self, name: &str) -> (value: Option<&V>)
        ensures
            match value {
                Some(v) => self@.contains_key(name@) && *v == self@[name@],
                None => !self@.contains_key(name@),
            },
    {
        proof {
            use_type_invariant(self);
        }
        let (at, found) = Self::locate(&self.entries, name);
        if found {
            proof {
                lemma_unique_index(self.entries@, at as int);
            }
            Some(&self.entries[at].1)
        } else {
            None
        }
    }

    /// Whether `name` is in the map.
    pub fn contains_key(&self, name: &str) -> (found: bool)
        ensures
            found == self@.contains_key(name@),
    {
        self.get(name).is_some()
    }

    /// Stores `value` under `name`. The value that was there before comes back.
    pub fn insert(&mut self, name: String, value: V) -> (previous: Option<V>)
        ensures
            final(self)@ == old(self)@.insert(name@, value),
            match previous {
                Some(v) => old(self)@.contains_key(name@) && v == old(self)@[name@],
                None => !old(self)@.contains_key(name@),
            },
    {
        proof {
            use_type_invariant(&*self);
        }
        let mut entries: Vec<(String, V)> = Vec::new();
        std::mem::swap(&mut entries, &mut self.entries);
        let ghost before = entries@;
        let (at, found) = Self::locate(&entries, name.as_str());
        let mut previous: Option<V> = None;
        if found {
            let (_, v) = entries.remove(at);
            proof {
                lemma_unique_index(before, at as int);
            }
            previous = Some(v);
        }
        let ghost rest = entries@;
        entries.insert(at, (name, value));
        proof {
            let after = entries@;
            if found {
                assert(rest =~= before.remove(at as int));
                assert(after =~= before.update(at as int, (name, value)));
            } else {
                assert(after =~= before.insert(at as int, (name, value)));
            }
            assert(ascending(after)) by {
                assert forall|i: int, j: int| 0 <= i < j < after.len() implies text_before(
                    (#[trigger] after[i]).0@,
                    (#[trigger] after[j]).0@,
                ) by {
                    let skip = if found { 0int } else { 1int };
                    let bi = if i <= at { i } else { i - skip };
                    let bj = if j <= at { j } else { j - skip };
                    if i != at && j != at {
                        assert(after[i] == before[bi]);
                        assert(after[j] == before[bj]);
                        assert(bi < bj);
                    } else if i == at {
                        assert(after[j] == before[bj]);
                        if found {
                            assert(text_before(before[at as int].0@, before[bj].0@));
                        }
                    } else {
                        assert(after[i] == before[bi]);
                    }
                }
            }
            assert forall|key: Seq<char>| has_name(after, key) == (key == name@ || has_name(
                before,
                key,
            )) by {
                lemma_unique_index(after, at as int);
                if has_name(before, key) && key != name@ {
                    let k = index_of_name(before, key);
                    let ka = if k < at || found { k } else { k + 1 };
                    assert(after[ka] == before[k]);
                    assert(after[ka].0@ == key);
                }
                if has_name(after, key) && key != name@ {
                    let k = index_of_name(after, key);
                    let kb = if k < at || found { k } else { k - 1 };
                    assert(before[kb] == after[k]);
                    assert(before[kb].0@ == key);
                }
            }
            assert forall|key: Seq<char>| #[trigger] has_name(before, key) && key
                != name@ implies entries_map(after)[key] == entries_map(before)[key] by {
                let k = index_of_name(before, key);
                let ka = if k < at || found { k } else { k + 1 };
                assert(after[ka] == before[k]);
                lemma_unique_index(after, ka);
                lemma_unique_index(before, k);
            }
            lemma_unique_index(after, at as int);
            assert(entries_map(after) =~= entries_map(before).insert(name@, value));
        }
        self.entries = entries;
        previous
    }

    /// Takes `name` out of the map. The value that was there comes back.
    pub fn remove(&mut self, name: &str) -> (previous: Option<V>)
        ensures
            final(self)@ == old(self)@.remove(name@),
            match previous {
                Some(v) => old(self)@.contains_key(name@) && v == old(self)@[name@],
                None => !old(self)@.contains_key(name@),
            },
    {
        proof {
            use_type_invariant(&*self);
        }
        let mut entries: Vec<(String, V)> = Vec::new();
        std::mem::swap(&mut entries, &mut self.entries);
        let ghost before = entries@;
        let (at, found) = Self::locate(&entries, name);
        if !found {
            self.entries = entries;
            proof {
                assert(entries_map(before) =~= entries_map(before).remove(name@));
            }
            return None;
        }
        let (_, v) = entries.remove(at);
        proof {
            let after = entries@;
            lemma_unique_index(before, at as int);
            assert(after =~= before.remove(at as int));
            assert(ascending(after)) by {
                assert forall|i: int, j: int| 0 <= i < j < after.len() implies text_before(
                    (#[trigger] after[i]).0@,
                    (#[trigger] after[j]).0@,
                ) by {
                    let bi = if i < at { i } else { i + 1 };
                    let bj = if j < at { j } else { j + 1 };
                    assert(after[i] == before[bi]);
                    assert(after[j] == before[bj]);
                }
            }
            assert forall|key: Seq<char>| has_name(after, key) == (key != name@ && has_name(
                before,
                key,
            )) by {
                if has_name(before, key) && key != name@ {
                    let k = index_of_name(before, key);
                    let ka = if k < at { k } else { k - 1 };
                    assert(after[ka] == before[k]);
                    assert(after[ka].0@ == key);
                }
                if has_name(after, key) {
                    let k = index_of_name(after, key);
                    let kb = if k < at { k } else { k + 1 };
                    assert(before[kb] == after[k]);
                    assert(before[kb].0@ == key);
                    lemma_unique_index(before, kb);
                }
            }
            assert forall|key: Seq<char>| #[trigger] has_name(before, key) && key
                != name@ implies entries_map(after)[key] == entries_map(before)[key] by {
                let k = index_of_name(before, key);
                let ka = if k < at { k } else { k - 1 };
                assert(after[ka] == before[k]);
                lemma_unique_index(after, ka);
                lemma_unique_index(before, k);
            }
            assert(entries_map(after) =~= entries_map(before).remove(name@));
        }
        self.entries = entries;
        Some(v)
    }

    /// The number of names, together with what is known of their order: they
    /// ascend strictly, and they are exactly the keys of the map.
    pub fn len(&self) -> (count: usize)
        ensures
            count == self.names().len(),
            names_sorted(self.names()),
            forall|name: Seq<char>| #[trigger]
                self@.contains_key(name) <==> self.names().contains(name),
    {
        proof {
            use_type_invariant(self);
            self.lemma_names();
        }
        self.entries.len()
    }

    /// The name at place `index` of the walk.
    pub fn name_at(&self, index: usize) -> (name: &str)
        requires
            index < self.names().len(),
        ensures
            name@ == self.names()[index as int],
            self@.contains_key(name@),
    {
        proof {
            use_type_invariant(self);
            self.lemma_names();
        }
        self.entries[index].0.as_str()
    }

    proof fn lemma_names(&self)
        requires
            ascending(self.entries@),
        ensures
            self.names().len() == self.entries@.len(),
            names_sorted(self.names()),
            forall|i: int| 0 <= i < self.names().len() ==> self.names()[i] == (
            #[trigger] self.entries@[i]).0@,
            forall|name: Seq<char>| #[trigger]
                self@.contains_key(name) <==> self.names().contains(name),
    {
        let entries = self.entries@;
        let names = self.names();
        assert forall|i: int, j: int| 0 <= i < j < names.len() implies text_before(
            #[trigger] names[i],
            #[trigger] names[j],
        ) by {
            assert(text_before(entries[i].0@, entries[j].0@));
        }
        assert forall|name: Seq<char>| #[trigger]
            self@.contains_key(name) <==> names.contains(name) by {
            if has_name(entries, name) {
                let k = index_of_name(entries, name);
                assert(names[k] == name);
            }
            if names.contains(name) {
                let k = choose|k: int| 0 <= k < names.len() && names[k] == name;
                assert(entries[k].0@ == name);
            }
        }
    }

    /// Stores every entry of `other`; where a name is in both, the value of `other` wins.
    pub fn extend(&mut self, other: TextMap<V>)
        ensures
            final(self)@ == old(self)@.union_prefer_right(other@),
    {
        proof {
            use_type_invariant(&other);
        }
        let ghost start = self@;
        let ghost added = other.entries@;
        let mut entries = other.entries;
        proof {
            assert(added.skip(added.len() as int) =~= Seq::<(String, V)>::empty());
            assert(start =~= start.union_prefer_right(entries_map(Seq::<(String, V)>::empty())));
        }
        loop
            invariant
                start == old(self)@,
                other@ == entries_map(added),
                ascending(added),
                entries@.len() <= added.len(),
                entries@ == added.take(entries@.len() as int),
                self@ == start.union_prefer_right(entries_map(added.skip(entries@.len() as int))),
            decreases entries@.len(),
        {
            let Some((name, value)) = entries.pop() else {
                proof {
                    assert(added.skip(0) =~= added);
                }
                return;
            };
            let ghost at = entries@.len() as int;
            let ghost tail = added.skip(at + 1);
            let ghost grown = added.skip(at);
            proof {
                assert(entries@ =~= added.take(at));
                assert(added.take(at + 1).last() == added[at]);
                lemma_skip_one(added, at);
            }
            self.insert(name, value);
            proof {
                assert(start.union_prefer_right(entries_map(tail)).insert(name@, value)
                    =~= start.union_prefer_right(entries_map(grown)));
            }
        }
    }
}

/// A sequence of names that ascends strictly.
pub open spec fn names_sorted(names: Seq<Seq<char>>) -> bool {
    forall|i: int, j: int|
        0 <= i < j < names.len() ==> text_before(#[trigger] names[i], #[trigger] names[j])
}

/// Dropping one entry less adds that entry to the map.
proof fn lemma_skip_one<V>(entries: Seq<(String, V)>, at: int)
    requires
        ascending(entries),
        0 <= at < entries.len(),
    ensures
        entries_map(entries.skip(at)) == entries_map(entries.skip(at + 1)).insert(
            entries[at].0@,
            entries[at].1,
        ),
{
    let grown = entries.skip(at);
    let tail = entries.skip(at + 1);
    let name = entries[at].0@;
    assert(ascending(grown)) by {
        assert forall|i: int, j: int| 0 <= i < j < grown.len() implies text_before(
            (#[trigger] grown[i]).0@,
            (#[trigger] grown[j]).0@,
        ) by {
            assert(grown[i] == entries[at + i] && grown[j] == entries[at + j]);
        }
    }
    assert(ascending(tail)) by {
        assert forall|i: int, j: int| 0 <= i < j < tail.len() implies text_before(
            (#[trigger] tail[i]).0@,
            (#[trigger] tail[j]).0@,
        ) by {
            assert(tail[i] == entries[at + 1 + i] && tail[j] == entries[at + 1 + j]);
        }
    }
    assert(grown[0] == entries[at]);
    lemma_unique_index(grown, 0);
    assert forall|key: Seq<char>| has_name(grown, key) == (key == name || has_name(tail, key)) by {
        if has_name(grown, key) && key != name {
            let k = index_of_name(grown, key);
            assert(k > 0);
            assert(tail[k - 1] == grown[k]);
            assert(tail[k - 1].0@ == key);
        }
        if has_name(tail, key) {
            let k = index_of_name(tail, key);
            assert(grown[k + 1] == tail[k]);
            assert(grown[k + 1].0@ == key);
        }
    }
    assert forall|key: Seq<char>| #[trigger] has_name(tail, key) && key != name implies entries_map(
        grown,
    )[key] == entries_map(tail)[key] by {
        let k = index_of_name(tail, key);
        assert(grown[k + 1] == tail[k]);
        lemma_unique_index(grown, k + 1);
        lemma_unique_index(tail, k);
    }
    assert(entries_map(grown) =~= entries_map(tail).insert(name, entries[at].1));
}

/// The order of a walk depends on the contents alone: two sorted sequences of
/// the same names are the same sequence.
pub proof fn law_walk_order_is_stable(a: Seq<Seq<char>>, b: Seq<Seq<char>>)
    requires
        names_sorted(a),
        names_sorted(b),
        forall|name: Seq<char>| #[trigger] a.contains(name) <==> b.contains(name),
    ensures
        a == b,
    decreases a.len(),
{
    if a.len() == 0 {
        if b.len() > 0 {
            assert(b.contains(b[0]));
            assert(a.contains(b[0]));
        }
        assert(a =~= b);
    } else {
        assert(a.contains(a[0]));
        assert(b.contains(a[0]));
        assert(b.contains(b[0]));
        assert(a.contains(b[0]));
        let i = choose|i: int| 0 <= i < b.len() && b[i] == a[0];
        let j = choose|j: int| 0 <= j < a.len() && a[j] == b[0];
        lemma_text_before_total(a[0], b[0]);
        assert(a[0] == b[0]);
        let ta = a.drop_first();
        let tb = b.drop_first();
        assert forall|m: int, n: int| 0 <= m < n < ta.len() implies text_before(
            #[trigger] ta[m],
            #[trigger] ta[n],
        ) by {
            assert(text_before(a[m + 1], a[n + 1]));
        }
        assert forall|m: int, n: int| 0 <= m < n < tb.len() implies text_before(
            #[trigger] tb[m],
            #[trigger] tb[n],
        ) by {
            assert(text_before(b[m + 1], b[n + 1]));
        }
        assert forall|name: Seq<char>| #[trigger] ta.contains(name) <==> tb.contains(name) by {
            lemma_text_before_total(a[0], a[0]);
            if ta.contains(name) {
                let m = choose|m: int| 0 <= m < ta.len() && ta[m] == name;
                assert(a[m + 1] == name);
                assert(text_before(a[0], a[m + 1]));
                assert(a.contains(name));
                let n = choose|n: int| 0 <= n < b.len() && b[n] == name;
                assert(tb[n - 1] == name);
            }
            if tb.contains(name) {
                let m = choose|m: int| 0 <= m < tb.len() && tb[m] == name;
                assert(b[m + 1] == name);
                assert(text_before(b[0], b[m + 1]));
                assert(b.contains(name));
                assert(a.contains(name));
                let n = choose|n: int| 0 <= n < a.len() && a[n] == name;
                assert(ta[n - 1] == name);
            }
        }
        law_walk_order_is_stable(ta, tb);
        assert(a =~= seq![a[0]] + ta);
        assert(b =~= seq![b[0]] + tb);
    }
}

impl<V: Clone> Clone for TextMap<V> {
    /// The same names, with a clone of each value.
    fn clone(&self) -> (copy: TextMap<V>)
        ensures
            copy.names() == self.names(),
            copy@.dom() == self@.dom(),
            forall|name: Seq<char>| #[trigger]
                self@.contains_key(name) ==> cloned::<V>(self@[name], copy@[name]),
    {
        proof {
            use_type_invariant(self);
        }
        let mut entries: Vec<(String, V)> = Vec::new();
        let mut i: usize = 0;
        while i < self.entries.len()
            invariant
                i <= self.entries@.len(),
                entries@.len() == i,
                forall|j: int| 0 <= j < i ==> (#[trigger] entries@[j]).0@ == self.entries@[j].0@,
                forall|j: int|
                    0 <= j < i ==> cloned::<V>(self.entries@[j].1, (#[trigger] entries@[j]).1),
            decreases self.entries@.len() - i,
        {
            let (name, value) = &self.entries[i];
            entries.push((name.clone(), value.clone()));
            i += 1;
        }
        let copy = TextMap { entries };
        proof {
            assert(copy.names() =~= self.names());
            assert forall|name: Seq<char>| #[trigger] has_name(copy.entries@, name) == has_name(
                self.entries@,
                name,
            ) by {
                if has_name(self.entries@, name) {
                    let k = index_of_name(self.entries@, name);
                    assert(copy.entries@[k].0@ == self.entries@[k].0@);
                }
                if has_name(copy.entries@, name) {
                    let k = index_of_name(copy.entries@, name);
                    assert(copy.entries@[k].0@ == self.entries@[k].0@);
                }
            }
            assert(copy@.dom() =~= self@.dom());
            assert forall|name: Seq<char>| #[trigger] self@.contains_key(name) implies cloned::<V>(
                self@[name],
                copy@[name],
            ) by {
                let k = index_of_name(self.entries@, name);
                lemma_unique_index(self.entries@, k);
                lemma_unique_index(copy.entries@, k);
                assert(copy.entries@[k].0@ == self.entries@[k].0@);
            }
        }
        copy
    }
}

} // verus!
