//! `Attributes`: string key/value pairs in which every key occurs once.
//!
//! Service attributes, HTTP headers and gRPC metadata are all such maps:
//! inserting a key that is already present replaces its value.

use vstd::prelude::*;

verus! {

/// True when no key occurs twice in `entries`.
pub open spec fn keys_distinct(entries: Seq<(Seq<char>, Seq<char>)>) -> bool {
    forall|i: int, j: int|
        0 <= i < entries.len() && 0 <= j < entries.len() && i != j
            ==> #[trigger] entries[i].0 != #[trigger] entries[j].0
}

/// True when `key` is the key of some entry.
pub open spec fn has_key(entries: Seq<(Seq<char>, Seq<char>)>, key: Seq<char>) -> bool {
    exists|i: int| 0 <= i < entries.len() && #[trigger] entries[i].0 == key
}

/// The position of `key` among the entries (meaningful where it is present).
pub open spec fn key_position(entries: Seq<(Seq<char>, Seq<char>)>, key: Seq<char>) -> int {
    choose|i: int| 0 <= i < entries.len() && #[trigger] entries[i].0 == key
}

/// The map that a sequence of entries with distinct keys stands for.
pub open spec fn entries_map(entries: Seq<(Seq<char>, Seq<char>)>) -> Map<Seq<char>, Seq<char>> {
    Map::new(
        |k: Seq<char>| has_key(entries, k),
        |k: Seq<char>| entries[key_position(entries, k)].1,
    )
}

/// The entries after storing `value` under `key`: a present key keeps its
/// position and takes the new value, a new key goes last.
pub open spec fn entries_insert(entries: Seq<(Seq<char>, Seq<char>)>, key: Seq<char>, value: Seq<char>) -> Seq<(Seq<char>, Seq<char>)> {
    if has_key(entries, key) {
        entries.update(key_position(entries, key), (key, value))
    } else {
        entries.push((key, value))
    }
}

/// The entries of a sequence of string pairs, taken by their views.
pub open spec fn pairs_view(v: Seq<(String, String)>) -> Seq<(Seq<char>, Seq<char>)> {
    v.map_values(|p: (String, String)| (p.0@, p.1@))
}

/// A map from strings to strings that keeps its entries in insertion order.
#[derive(Debug)]
pub struct Attributes {
    entries: Vec<(String, String)>,
}

impl Attributes {
    #[verifier::type_invariant]
    spec fn keys_unique(self) -> bool {
        keys_distinct(pairs_view(self.entries@))
    }

    /// The entries, in the order in which their keys were first inserted.
    pub closed spec fn entries_view(self) -> Seq<(Seq<char>, Seq<char>)> {
        pairs_view(self.entries@)
    }
}

impl View for Attributes {
    type V = Map<Seq<char>, Seq<char>>;

    open spec fn view(&self) -> Map<Seq<char>, Seq<char>> {
        entries_map(self.entries_view())
    }
}

/// Entries with distinct keys: every key of the map is found at exactly one position.
pub proof fn lemma_entries_map_at(entries: Seq<(Seq<char>, Seq<char>)>, i: int)
    requires
        keys_distinct(entries),
        0 <= i < entries.len(),
    ensures
        entries_map(entries).dom().contains(entries[i].0),
        entries_map(entries)[entries[i].0] == entries[i].1,
{
    assert(has_key(entries, entries[i].0));
    let j = choose|j: int| 0 <= j < entries.len() && #[trigger] entries[j].0 == entries[i].0;
    assert(j == i);
}

/// Entries with distinct keys: the map of all of them is the map of all
/// but the last, with the last inserted.
pub proof fn lemma_entries_map_drop_last(entries: Seq<(Seq<char>, Seq<char>)>)
    requires
        keys_distinct(entries),
        entries.len() > 0,
    ensures
        keys_distinct(entries.drop_last()),
        entries_map(entries) == entries_map(entries.drop_last()).insert(entries.last().0, entries.last().1),
{
    let init = entries.drop_last();
    let n = entries.len() - 1;
    assert(keys_distinct(init)) by {
        assert forall|i: int, j: int| 0 <= i < init.len() && 0 <= j < init.len() && i != j
            implies #[trigger] init[i].0 != #[trigger] init[j].0 by {
            assert(init[i] == entries[i] && init[j] == entries[j]);
        }
    }
    let m = entries_map(init).insert(entries.last().0, entries.last().1);
    assert forall|k: Seq<char>| has_key(entries, k) <==> (has_key(init, k) || k == entries.last().0) by {
        if has_key(entries, k) {
            let j = choose|j: int| 0 <= j < entries.len() && #[trigger] entries[j].0 == k;
            if j != n {
                assert(init[j].0 == k);
            }
        }
        if has_key(init, k) {
            let j = choose|j: int| 0 <= j < init.len() && #[trigger] init[j].0 == k;
            assert(entries[j].0 == k);
        }
        if k == entries.last().0 {
            assert(entries[n].0 == k);
        }
    }
    assert forall|k: Seq<char>| #[trigger] has_key(entries, k) implies entries_map(entries)[k] == m[k] by {
        let j = choose|j: int| 0 <= j < entries.len() && #[trigger] entries[j].0 == k;
        lemma_entries_map_at(entries, j);
        if j != n {
            assert(init[j] == entries[j]);
            lemma_entries_map_at(init, j);
        }
    }
    assert(entries_map(entries) =~= m);
}

impl Attributes {
    /// An empty map.
    pub fn new() -> (r: Attributes)
        ensures
            r@ == Map::<Seq<char>, Seq<char>>::empty(),
            r.entries_view() == Seq::<(Seq<char>, Seq<char>)>::empty(),
    {
        let r = Attributes { entries: Vec::new() };
        assert(r.entries_view() =~= Seq::<(Seq<char>, Seq<char>)>::empty());
        assert(r@ =~= Map::<Seq<char>, Seq<char>>::empty());
        r
    }

    /// The number of entries.
    pub fn len(&self) -> (n: usize)
        ensures
            n == self.entries_view().len(),
    {
        self.entries.len()
    }

    /// The position of `key`, if it is present.
    fn position(&self, key: &String) -> (r: Option<usize>)
        ensures
            r matches Some(i) ==> i < self.entries_view().len() && self.entries_view()[i as int].0 == key@,
            r is None ==> !has_key(self.entries_view(), key@),
    {
        let mut i: usize = 0;
        while i < self.entries.len()
            invariant
                i <= self.entries@.len(),
                forall|j: int| 0 <= j < i ==> self.entries_view()[j].0 != key@,
            decreases self.entries@.len() - i,
        {
            if self.entries[i].0 == *key {
                return Some(i);
            }
            i = i + 1;
        }
        None
    }

    /// The entries, in insertion order.
    pub fn entries(&self) -> (r: &Vec<(String, String)>)
        ensures
            pairs_view(r@) == self.entries_view(),
            keys_distinct(self.entries_view()),
    {
        proof { use_type_invariant(self); }
        &self.entries
    }

    /// Whether `key` is present.
    pub fn contains_key(&self, key: &String) -> (r: bool)
        ensures
            r == self@.dom().contains(key@),
    {
        self.position(key).is_some()
    }

    /// The value stored under `key`, if any.
    pub fn get(&self, key: &String) -> (r: Option<&String>)
        ensures
            r is Some == self@.dom().contains(key@),
            r matches Some(v) ==> v@ == self@[key@],
    {
        proof { use_type_invariant(self); }
        match self.position(key) {
            Some(i) => {
                proof { lemma_entries_map_at(self.entries_view(), i as int); }
                Some(&self.entries[i].1)
            },
            None => None,
        }
    }

    /// Stores `value` under `key`, replacing and returning the value that was there.
    /// A new key goes after all present ones; a present key keeps its position.
    pub fn insert(&mut self, key: String, value: String) -> (old_value: Option<String>)
        ensures
            final(self)@ == old(self)@.insert(key@, value@),
            old_value is Some == old(self)@.dom().contains(key@),
            old_value matches Some(v) ==> v@ == old(self)@[key@],
            final(self).entries_view() == entries_insert(old(self).entries_view(), key@, value@),
    {
        proof { use_type_invariant(&*self); }
        let ghost old_entries = self.entries_view();
        match self.position(&key) {
            Some(i) => {
                proof {
                    lemma_entries_map_at(old_entries, i as int);
                    assert(has_key(old_entries, key@));
                    let p = key_position(old_entries, key@);
                    assert(old_entries[p].0 == key@);
                    assert(p == i);
                }
                let ghost kv = key@;
                let ghost vv = value@;
                let mut entries: Vec<(String, String)> = Vec::new();
                std::mem::swap(&mut entries, &mut self.entries);
                let previous = entries[i].1.clone();
                entries[i] = (key, value);
                let ghost new_entries = pairs_view(entries@);
                assert(new_entries =~= old_entries.update(i as int, (kv, vv)));
                assert(keys_distinct(new_entries));
                self.entries = entries;
                proof {
                    assert forall|k: Seq<char>| has_key(new_entries, k) <==> (has_key(old_entries, k) || k == kv) by {
                        if has_key(old_entries, k) {
                            let j = choose|j: int| 0 <= j < old_entries.len() && #[trigger] old_entries[j].0 == k;
                            assert(new_entries[j].0 == k);
                        }
                        if has_key(new_entries, k) {
                            let j = choose|j: int| 0 <= j < new_entries.len() && #[trigger] new_entries[j].0 == k;
                            if j != i {
                                assert(old_entries[j].0 == k);
                            }
                        }
                        if k == kv {
                            assert(new_entries[i as int].0 == k);
                        }
                    }
                    assert forall|k: Seq<char>| #[trigger] has_key(new_entries, k)
                        implies entries_map(new_entries)[k] == inserted_map(old_entries, kv, vv)[k] by {
                        let j = choose|j: int| 0 <= j < new_entries.len() && #[trigger] new_entries[j].0 == k;
                        lemma_entries_map_at(new_entries, j);
                        if j != i {
                            lemma_entries_map_at(old_entries, j);
                        }
                    }
                    assert(entries_map(new_entries) =~= inserted_map(old_entries, kv, vv));
                }
                Some(previous)
            },
            None => {
                let ghost kv = key@;
                let ghost vv = value@;
                let mut entries: Vec<(String, String)> = Vec::new();
                std::mem::swap(&mut entries, &mut self.entries);
                entries.push((key, value));
                let ghost new_entries = pairs_view(entries@);
                assert(new_entries =~= old_entries.push((kv, vv)));
                proof {
                    assert forall|k: Seq<char>| has_key(new_entries, k) <==> (has_key(old_entries, k) || k == kv) by {
                        if has_key(old_entries, k) {
                            let j = choose|j: int| 0 <= j < old_entries.len() && #[trigger] old_entries[j].0 == k;
                            assert(new_entries[j].0 == k);
                        }
                        if has_key(new_entries, k) {
                            let j = choose|j: int| 0 <= j < new_entries.len() && #[trigger] new_entries[j].0 == k;
                            if j != old_entries.len() {
                                assert(old_entries[j].0 == k);
                            }
                        }
                        if k == kv {
                            assert(new_entries[old_entries.len() as int].0 == k);
                        }
                    }
                    assert forall|k: Seq<char>| #[trigger] has_key(new_entries, k)
                        implies entries_map(new_entries)[k] == inserted_map(old_entries, kv, vv)[k] by {
                        let j = choose|j: int| 0 <= j < new_entries.len() && #[trigger] new_entries[j].0 == k;
                        lemma_entries_map_at(new_entries, j);
                        if j != old_entries.len() {
                            lemma_entries_map_at(old_entries, j);
                        }
                    }
                    assert(entries_map(new_entries) =~= inserted_map(old_entries, kv, vv));
                }
                assert(keys_distinct(new_entries));
                self.entries = entries;
                None
            },
        }
    }
}

impl Clone for Attributes {
    fn clone(&self) -> (r: Self)
        ensures
            r.entries_view() == self.entries_view(),
            r@ == self@,
    {
        proof { use_type_invariant(self); }
        let mut entries: Vec<(String, String)> = Vec::new();
        let mut i: usize = 0;
        while i < self.entries.len()
            invariant
                i <= self.entries@.len(),
                pairs_view(entries@) == pairs_view(self.entries@).take(i as int),
            decreases self.entries@.len() - i,
        {
            let ghost before = entries@;
            let k = self.entries[i].0.clone();
            let v = self.entries[i].1.clone();
            entries.push((k, v));
            assert(entries@ == before.push(self.entries@[i as int]));
            assert(pairs_view(entries@) =~= pairs_view(before).push(pairs_view(self.entries@)[i as int]));
            i = i + 1;
            assert(pairs_view(entries@) =~= pairs_view(self.entries@).take(i as int));
        }
        assert(pairs_view(entries@) =~= pairs_view(self.entries@));
        Attributes { entries }
    }
}

spec fn inserted_map(entries: Seq<(Seq<char>, Seq<char>)>, k: Seq<char>, v: Seq<char>) -> Map<Seq<char>, Seq<char>> {
    entries_map(entries).insert(k, v)
}

} // verus!
