//! A finite map from text to text: labels, annotations, selectors.

use vstd::prelude::*;

verus! {

/// A map from text to text in which no key occurs twice.
#[derive(Debug)]
pub struct StringMap {
    entries: Vec<(String, String)>,
}

/// No key occurs twice.
pub open spec fn distinct_keys(entries: Seq<(Seq<char>, Seq<char>)>) -> bool {
    forall|i: int, j: int|
        #![trigger entries[i], entries[j]]
        0 <= i < entries.len() && 0 <= j < entries.len() && entries[i].0 == entries[j].0 ==> i == j
}

/// The map that a list of entries writes out.
pub open spec fn map_of(entries: Seq<(Seq<char>, Seq<char>)>) -> Map<Seq<char>, Seq<char>> {
    Map::new(
        |k: Seq<char>| exists|i: int| 0 <= i < entries.len() && #[trigger] entries[i].0 == k,
        |k: Seq<char>|
            entries[choose|i: int| 0 <= i < entries.len() && #[trigger] entries[i].0 == k].1,
    )
}

impl View for StringMap {
    type V = Map<Seq<char>, Seq<char>>;

    closed spec fn view(&self) -> Map<Seq<char>, Seq<char>> {
        map_of(self.entries.deep_view())
    }
}

impl DeepView for StringMap {
    type V = Map<Seq<char>, Seq<char>>;

    open spec fn deep_view(&self) -> Map<Seq<char>, Seq<char>> {
        self.view()
    }
}

proof fn lemma_entry(entries: Seq<(Seq<char>, Seq<char>)>, i: int)
    requires
        distinct_keys(entries),
        0 <= i < entries.len(),
    ensures
        map_of(entries).contains_key(entries[i].0),
        map_of(entries)[entries[i].0] == entries[i].1,
{
    let k = entries[i].0;
    let j = choose|j: int| 0 <= j < entries.len() && #[trigger] entries[j].0 == k;
    assert(entries[i].0 == k);
    assert(entries[j].0 == entries[i].0);
}

impl StringMap {
    #[verifier::type_invariant]
    spec fn well_formed(self) -> bool {
        distinct_keys(self.entries.deep_view())
    }

    /// The empty map.
    pub fn new() -> (map: StringMap)
        ensures
            map@ == Map::<Seq<char>, Seq<char>>::empty(),
    {
        let map = StringMap { entries: Vec::new() };
        proof {
            assert(map@ =~= Map::<Seq<char>, Seq<char>>::empty());
        }
        map
    }

    /// A map with one entry.
    pub fn singleton(key: String, value: String) -> (map: StringMap)
        ensures
            map@ == map![key@ => value@],
    {
        let mut map = StringMap::new();
        map.insert(key, value);
        proof {
            assert(map@ =~= map![key@ => value@]);
        }
        map
    }

    /// Sets the value of a key, in place of the value it had.
    pub fn insert(&mut self, key: String, value: String)
        ensures
            final(self)@ == old(self)@.insert(key@, value@),
    {
        proof {
            use_type_invariant(&*self);
        }
        let mut entries: Vec<(String, String)> = Vec::new();
        std::mem::swap(&mut entries, &mut self.entries);
        let ghost before = entries.deep_view();
        let ghost k = key@;
        let ghost v = value@;
        let len: usize = entries.len();
        let mut at: usize = 0;
        while at < len && !(entries[at].0 == key)
            invariant
                at <= len,
                len == entries.len(),
                before == entries.deep_view(),
                k == key@,
                forall|i: int| 0 <= i < at ==> #[trigger] before[i].0 != k,
            decreases len - at,
        {
            at = at + 1;
        }
        if at < len {
            entries.set(at, (key, value));
        } else {
            entries.push((key, value));
        }
        proof {
            let after = entries.deep_view();
            assert(after =~= if at < len {
                before.update(at as int, (k, v))
            } else {
                before.push((k, v))
            });
            assert(at < len ==> before[at as int].0 == k);
            assert forall|i: int, j: int|
                #![trigger after[i], after[j]]
                0 <= i < after.len() && 0 <= j < after.len() && after[i].0 == after[j].0 implies i
                == j by {
                if i != at && j != at {
                    assert(before[i].0 == before[j].0);
                } else if i != at {
                    assert(before[i].0 == k);
                } else if j != at {
                    assert(before[j].0 == k);
                }
            }
            lemma_entry(after, at as int);
            assert forall|x: Seq<char>| map_of(after).contains_key(x) == (x == k || map_of(
                before,
            ).contains_key(x)) by {
                if map_of(before).contains_key(x) {
                    let i = choose|i: int| 0 <= i < before.len() && #[trigger] before[i].0 == x;
                    assert(after[i].0 == x);
                }
                if map_of(after).contains_key(x) && x != k {
                    let i = choose|i: int| 0 <= i < after.len() && #[trigger] after[i].0 == x;
                    assert(before[i].0 == x);
                }
                assert(after[at as int].0 == k);
            }
            assert forall|x: Seq<char>| x != k && map_of(before).contains_key(x) implies map_of(
                after,
            )[x] == map_of(before)[x] by {
                let i = choose|i: int| 0 <= i < before.len() && #[trigger] before[i].0 == x;
                lemma_entry(before, i);
                lemma_entry(after, i);
            }
            assert(map_of(after) =~= map_of(before).insert(k, v));
        }
        self.entries = entries;
    }

    /// The entries of the map, each key once.
    pub fn into_entries(self) -> (entries: Vec<(String, String)>)
        ensures
            distinct_keys(entries.deep_view()),
            map_of(entries.deep_view()) == self@,
    {
        proof {
            use_type_invariant(&self);
        }
        self.entries
    }
}

impl Clone for StringMap {
    fn clone(&self) -> (copy: StringMap)
        ensures
            copy@ == self@,
    {
        proof {
            use_type_invariant(self);
        }
        let mut entries: Vec<(String, String)> = Vec::new();
        let len: usize = self.entries.len();
        for i in 0..len
            invariant
                len == self.entries.len(),
                entries.deep_view() == self.entries.deep_view().take(i as int),
        {
            let ghost copied = entries.deep_view();
            entries.push((self.entries[i].0.clone(), self.entries[i].1.clone()));
            proof {
                assert(entries.deep_view() =~= copied.push(self.entries.deep_view()[i as int]));
                assert(entries.deep_view() =~= self.entries.deep_view().take(i + 1));
            }
        }
        proof {
            assert(entries.deep_view() =~= self.entries.deep_view());
        }
        StringMap { entries }
    }
}

impl StringMap {
    fn holds(&self, key: &String, value: &String) -> (held: bool)
        ensures
            held == (self@.contains_key(key@) && self@[key@] == value@),
    {
        proof {
            use_type_invariant(self);
        }
        let ghost entries = self.entries.deep_view();
        let len: usize = self.entries.len();
        for i in 0..len
            invariant
                len == self.entries.len(),
                entries == self.entries.deep_view(),
                distinct_keys(entries),
                forall|j: int| 0 <= j < i ==> #[trigger] entries[j].0 != key@,
        {
            if self.entries[i].0 == *key {
                proof {
                    lemma_entry(entries, i as int);
                }
                return self.entries[i].1 == *value;
            }
        }
        false
    }

    fn within(&self, other: &StringMap) -> (within: bool)
        ensures
            within == forall|k: Seq<char>| #[trigger]
                self@.contains_key(k) ==> other@.contains_key(k) && other@[k] == self@[k],
    {
        proof {
            use_type_invariant(self);
        }
        let ghost entries = self.entries.deep_view();
        let len: usize = self.entries.len();
        for i in 0..len
            invariant
                len == self.entries.len(),
                entries == self.entries.deep_view(),
                self@ == map_of(entries),
                distinct_keys(entries),
                forall|j: int|
                    0 <= j < i ==> other@.contains_key((#[trigger] entries[j]).0)
                        && other@[entries[j].0] == entries[j].1,
        {
            proof {
                lemma_entry(entries, i as int);
                assert(self@.contains_key(entries[i as int].0));
            }
            if !other.holds(&self.entries[i].0, &self.entries[i].1) {
                return false;
            }
        }
        proof {
            assert forall|k: Seq<char>| #[trigger] self@.contains_key(k) implies other@.contains_key(
                k,
            ) && other@[k] == self@[k] by {
                let i = choose|i: int| 0 <= i < entries.len() && #[trigger] entries[i].0 == k;
                lemma_entry(entries, i);
            }
        }
        true
    }
}

/// Two maps are equal when they have the same entries, in whatever order.
impl PartialEq for StringMap {
    fn eq(&self, other: &StringMap) -> (equal: bool) {
        let equal = self.within(other) && other.within(self);
        proof {
            if equal {
                assert(self@ =~= other@);
            }
        }
        equal
    }
}

impl vstd::std_specs::cmp::PartialEqSpecImpl for StringMap {
    open spec fn obeys_eq_spec() -> bool {
        true
    }

    open spec fn eq_spec(&self, other: &StringMap) -> bool {
        self@ == other@
    }
}

/// The map that a list writes out has exactly the keys of the list, each with the value
/// beside it.
pub proof fn written_entries_are_the_map(entries: Seq<(Seq<char>, Seq<char>)>)
    requires
        distinct_keys(entries),
    ensures
        forall|i: int|
            0 <= i < entries.len() ==> map_of(entries).contains_key((#[trigger] entries[i]).0)
                && map_of(entries)[entries[i].0] == entries[i].1,
        forall|key: Seq<char>| #[trigger]
            map_of(entries).contains_key(key) ==> exists|i: int|
                0 <= i < entries.len() && (#[trigger] entries[i]).0 == key,
{
    assert forall|i: int| 0 <= i < entries.len() implies map_of(entries).contains_key(
        (#[trigger] entries[i]).0,
    ) && map_of(entries)[entries[i].0] == entries[i].1 by {
        lemma_entry(entries, i);
    }
}

} // verus!
