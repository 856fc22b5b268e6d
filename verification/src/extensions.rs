//! The extension attributes of an event: a map from names to values in
//! which no name occurs twice.

use crate::text::str_eq;
use vstd::prelude::*;
use vstd::std_specs::cmp::PartialEqSpecImpl;
use vstd::string::*;

verus! {

/// The names and values that a list of string pairs holds.
pub open spec fn pairs_of(entries: Seq<(String, String)>) -> Seq<(Seq<char>, Seq<char>)> {
    Seq::new(entries.len(), |i: int| (entries[i].0@, entries[i].1@))
}

/// No name stands in two places of the list.
pub open spec fn distinct_names(pairs: Seq<(Seq<char>, Seq<char>)>) -> bool {
    forall|i: int, j: int|
        0 <= i < pairs.len() && 0 <= j < pairs.len() && (#[trigger] pairs[i]).0 == (
        #[trigger] pairs[j]).0 ==> i == j
}

/// The name stands somewhere in the list.
pub open spec fn has_name(pairs: Seq<(Seq<char>, Seq<char>)>, name: Seq<char>) -> bool {
    exists|i: int| 0 <= i < pairs.len() && (#[trigger] pairs[i]).0 == name
}

/// A place of the name in the list.
pub open spec fn place_of(pairs: Seq<(Seq<char>, Seq<char>)>, name: Seq<char>) -> int {
    choose|i: int| 0 <= i < pairs.len() && (#[trigger] pairs[i]).0 == name
}

/// The map that a list of pairs with distinct names stands for.
pub open spec fn map_of(pairs: Seq<(Seq<char>, Seq<char>)>) -> Map<Seq<char>, Seq<char>> {
    Map::new(
        |name: Seq<char>| has_name(pairs, name),
        |name: Seq<char>| pairs[place_of(pairs, name)].1,
    )
}

/// In a list of distinct names, each pair is an entry of the map.
pub proof fn lemma_map_of_entry(pairs: Seq<(Seq<char>, Seq<char>)>, i: int)
    requires
        distinct_names(pairs),
        0 <= i < pairs.len(),
    ensures
        map_of(pairs).contains_key(pairs[i].0),
        map_of(pairs)[pairs[i].0] == pairs[i].1,
{
    assert(has_name(pairs, pairs[i].0));
    let j = place_of(pairs, pairs[i].0);
    assert(pairs[j].0 == pairs[i].0);
}

/// Appending a pair whose name is new inserts it into the map.
pub proof fn lemma_map_of_push(
    pairs: Seq<(Seq<char>, Seq<char>)>,
    name: Seq<char>,
    value: Seq<char>,
)
    requires
        distinct_names(pairs),
        !has_name(pairs, name),
    ensures
        distinct_names(pairs.push((name, value))),
        map_of(pairs.push((name, value))) == map_of(pairs).insert(name, value),
{
    let after = pairs.push((name, value));
    assert forall|i: int, j: int|
        0 <= i < after.len() && 0 <= j < after.len() && (#[trigger] after[i]).0 == (
        #[trigger] after[j]).0 implies i == j by {
        if i < pairs.len() && j < pairs.len() {
            assert(pairs[i].0 == pairs[j].0);
        } else if i < pairs.len() {
            assert(pairs[i].0 == name);
        } else if j < pairs.len() {
            assert(pairs[j].0 == name);
        }
    }
    assert forall|k: Seq<char>| has_name(after, k) <==> (k == name || has_name(pairs, k)) by {
        if has_name(after, k) {
            let i = place_of(after, k);
            if i < pairs.len() {
                assert(pairs[i].0 == k);
            }
        }
        if k == name {
            assert(after[pairs.len() as int].0 == k);
        }
        if has_name(pairs, k) {
            let i = place_of(pairs, k);
            assert(after[i].0 == k);
        }
    }
    assert forall|k: Seq<char>| has_name(after, k) implies #[trigger] map_of(after)[k] == map_of(
        pairs,
    ).insert(name, value)[k] by {
        let i = place_of(after, k);
        if k == name {
            assert(after[pairs.len() as int].0 == k);
        } else {
            let j = place_of(pairs, k);
            assert(after[j].0 == k);
            assert(after[j] == pairs[j]);
        }
    }
    assert(map_of(after) =~= map_of(pairs).insert(name, value));
}

/// Replacing the value of a pair replaces it in the map.
pub proof fn lemma_map_of_update(pairs: Seq<(Seq<char>, Seq<char>)>, i: int, value: Seq<char>)
    requires
        distinct_names(pairs),
        0 <= i < pairs.len(),
    ensures
        distinct_names(pairs.update(i, (pairs[i].0, value))),
        map_of(pairs.update(i, (pairs[i].0, value))) == map_of(pairs).insert(pairs[i].0, value),
{
    let name = pairs[i].0;
    let after = pairs.update(i, (name, value));
    assert forall|a: int, b: int|
        0 <= a < after.len() && 0 <= b < after.len() && (#[trigger] after[a]).0 == (
        #[trigger] after[b]).0 implies a == b by {
        assert(after[a].0 == pairs[a].0);
        assert(after[b].0 == pairs[b].0);
    }
    assert forall|k: Seq<char>| has_name(after, k) <==> has_name(pairs, k) by {
        if has_name(after, k) {
            let a = place_of(after, k);
            assert(pairs[a].0 == k);
        }
        if has_name(pairs, k) {
            let a = place_of(pairs, k);
            assert(after[a].0 == k);
        }
    }
    assert(has_name(pairs, name));
    assert forall|k: Seq<char>| has_name(after, k) implies #[trigger] map_of(after)[k] == map_of(
        pairs,
    ).insert(name, value)[k] by {
        let a = place_of(after, k);
        let b = place_of(pairs, k);
        assert(after[b].0 == k);
        assert(after[a].0 == after[b].0);
    }
    assert(map_of(after) =~= map_of(pairs).insert(name, value));
}

/// The extension attributes of an event.
#[derive(Debug)]
pub struct Extensions {
    entries: Vec<(String, String)>,
}

impl View for Extensions {
    type V = Map<Seq<char>, Seq<char>>;

    open spec fn view(&self) -> Map<Seq<char>, Seq<char>> {
        map_of(self.pairs())
    }
}

impl Extensions {
    #[verifier::type_invariant]
    spec fn well_formed(self) -> bool {
        distinct_names(pairs_of(self.entries@))
    }

    /// The names and values in the order in which they were first given.
    pub closed spec fn pairs(self) -> Seq<(Seq<char>, Seq<char>)> {
        pairs_of(self.entries@)
    }

    /// An empty set of attributes.
    pub fn new() -> (r: Extensions)
        ensures
            r@ == Map::<Seq<char>, Seq<char>>::empty(),
            r.pairs() == Seq::<(Seq<char>, Seq<char>)>::empty(),
    {
        let r = Extensions { entries: Vec::new() };
        assert(r@ =~= Map::<Seq<char>, Seq<char>>::empty());
        assert(r.pairs() =~= Seq::<(Seq<char>, Seq<char>)>::empty());
        r
    }

    fn find(&self, name: &str) -> (r: Option<usize>)
        ensures
            match r {
                Some(i) => i < self.entries@.len() && self.entries@[i as int].0@ == name@,
                None => !has_name(pairs_of(self.entries@), name@),
            },
    {
        let mut i: usize = 0;
        while i < self.entries.len()
            invariant
                i <= self.entries@.len(),
                forall|j: int| 0 <= j < i ==> (#[trigger] pairs_of(self.entries@)[j]).0 != name@,
            decreases self.entries@.len() - i,
        {
            if str_eq(self.entries[i].0.as_str(), name) {
                return Some(i);
            }
            assert(pairs_of(self.entries@)[i as int].0 == self.entries@[i as int].0@);
            i += 1;
        }
        None
    }

    /// The value of an attribute, if the event has it.
    pub fn get(&self, name: &str) -> (r: Option<&String>)
        ensures
            r is Some <==> self@.contains_key(name@),
            r matches Some(v) ==> v@ == self@[name@],
    {
        proof {
            use_type_invariant(self);
        }
        match self.find(name) {
            Some(i) => {
                proof {
                    lemma_map_of_entry(pairs_of(self.entries@), i as int);
                }
                Some(&self.entries[i].1)
            },
            None => None,
        }
    }

    /// Tells whether the event has the attribute.
    pub fn contains_key(&self, name: &str) -> (r: bool)
        ensures
            r == self@.contains_key(name@),
    {
        match self.find(name) {
            Some(i) => {
                proof {
                    use_type_invariant(self);
                    lemma_map_of_entry(pairs_of(self.entries@), i as int);
                }
                true
            },
            None => false,
        }
    }

    /// Tells whether there is no attribute.
    pub fn is_empty(&self) -> (r: bool)
        ensures
            r == (self@ == Map::<Seq<char>, Seq<char>>::empty()),
    {
        proof {
            if self.entries@.len() > 0 {
                let p = pairs_of(self.entries@);
                assert(has_name(p, p[0].0));
                assert(self@.contains_key(p[0].0));
            } else {
                assert(self@ =~= Map::<Seq<char>, Seq<char>>::empty());
            }
        }
        self.entries.len() == 0
    }

    /// The number of places in the list of names and values.
    pub fn count(&self) -> (r: usize)
        ensures
            r == self.pairs().len(),
            distinct_names(self.pairs()),
    {
        proof {
            use_type_invariant(self);
        }
        self.entries.len()
    }

    /// The name and the value at a place of the list.
    pub fn entry(&self, i: usize) -> (r: (&String, &String))
        requires
            i < self.pairs().len(),
        ensures
            (r.0@, r.1@) == self.pairs()[i as int],
    {
        (&self.entries[i].0, &self.entries[i].1)
    }

    /// Every attribute of `self` is one of `other`, with the same value.
    pub open spec fn within(self, other: Extensions) -> bool {
        forall|name: Seq<char>| #[trigger]
            self@.contains_key(name) ==> other@.contains_key(name) && other@[name] == self@[name]
    }

    /// Tells whether every attribute of `self` is one of `other`, with the
    /// same value.
    pub fn is_within(&self, other: &Extensions) -> (r: bool)
        ensures
            r == self.within(*other),
    {
        proof {
            use_type_invariant(self);
        }
        let ghost p = pairs_of(self.entries@);
        let mut i: usize = 0;
        while i < self.entries.len()
            invariant
                i <= self.entries@.len(),
                p == pairs_of(self.entries@),
                distinct_names(p),
                forall|j: int|
                    0 <= j < i ==> other@.contains_key((#[trigger] p[j]).0) && other@[p[j].0]
                        == p[j].1,
            decreases self.entries@.len() - i,
        {
            proof {
                lemma_map_of_entry(p, i as int);
            }
            match other.get(self.entries[i].0.as_str()) {
                Some(v) => {
                    if !(*v == self.entries[i].1) {
                        assert(self@.contains_key(p[i as int].0));
                        return false;
                    }
                },
                None => {
                    assert(self@.contains_key(p[i as int].0));
                    return false;
                },
            }
            i += 1;
        }
        proof {
            assert forall|name: Seq<char>| #[trigger] self@.contains_key(name) implies other@.contains_key(
                name,
            ) && other@[name] == self@[name] by {
                let j = place_of(p, name);
                lemma_map_of_entry(p, j);
            }
        }
        true
    }

    /// Sets an attribute, in place of the value that it had.
    pub fn insert(&mut self, name: String, value: String)
        ensures
            final(self)@ == old(self)@.insert(name@, value@),
    {
        proof {
            use_type_invariant(&*self);
        }
        let ghost before = pairs_of(self.entries@);
        match self.find(name.as_str()) {
            Some(i) => {
                proof {
                    lemma_map_of_update(before, i as int, value@);
                }
                let mut entries: Vec<(String, String)> = Vec::new();
                std::mem::swap(&mut entries, &mut self.entries);
                entries.set(i, (name, value));
                assert(pairs_of(entries@) =~= before.update(i as int, (before[i as int].0, value@)));
                self.entries = entries;
            },
            None => {
                proof {
                    lemma_map_of_push(before, name@, value@);
                }
                let mut entries: Vec<(String, String)> = Vec::new();
                std::mem::swap(&mut entries, &mut self.entries);
                entries.push((name, value));
                assert(pairs_of(entries@) =~= before.push((name@, value@)));
                self.entries = entries;
            },
        }
    }
}

impl Clone for Extensions {
    fn clone(&self) -> (r: Extensions)
        ensures
            r@ == self@,
            r.pairs() == self.pairs(),
    {
        proof {
            use_type_invariant(self);
        }
        let mut entries: Vec<(String, String)> = Vec::new();
        let mut i: usize = 0;
        while i < self.entries.len()
            invariant
                i <= self.entries@.len(),
                entries@.len() == i,
                pairs_of(entries@) == pairs_of(self.entries@).subrange(0, i as int),
            decreases self.entries@.len() - i,
        {
            let name = self.entries[i].0.clone();
            let value = self.entries[i].1.clone();
            let ghost before = entries@;
            entries.push((name, value));
            i += 1;
            assert forall|j: int| 0 <= j < i implies pairs_of(entries@)[j] == pairs_of(
                self.entries@,
            ).subrange(0, i as int)[j] by {
                if j < i - 1 {
                    assert(entries@[j] == before[j]);
                    assert(pairs_of(before)[j] == pairs_of(self.entries@).subrange(0, i - 1)[j]);
                }
            }
            assert(pairs_of(entries@) =~= pairs_of(self.entries@).subrange(0, i as int));
        }
        assert(pairs_of(entries@) =~= pairs_of(self.entries@));
        Extensions { entries }
    }
}

impl PartialEq for Extensions {
    fn eq(&self, other: &Extensions) -> (r: bool) {
        let r = self.is_within(other) && other.is_within(self);
        proof {
            if r {
                assert(self@ =~= other@);
            }
        }
        r
    }
}

impl PartialEqSpecImpl for Extensions {
    open spec fn obeys_eq_spec() -> bool {
        true
    }

    open spec fn eq_spec(&self, other: &Extensions) -> bool {
        self@ == other@
    }
}

} // verus!
