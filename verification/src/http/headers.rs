//! The header collection of a request or a response: a list of names and
//! values in which a name is found whatever its ASCII case.

use crate::text::{eq_ignore_ascii_case, eq_ignore_case};
use vstd::prelude::*;
use vstd::string::*;

verus! {

/// What a header collection holds: names and values, in order.
pub type HeaderList = Seq<(Seq<u8>, Seq<u8>)>;

/// The value of the first header with the given name.
pub open spec fn lookup(list: HeaderList, name: Seq<u8>) -> Option<Seq<u8>>
    decreases list.len(),
{
    if list.len() == 0 {
        None
    } else {
        match lookup(list.drop_last(), name) {
            Some(value) => Some(value),
            None => if eq_ignore_case(list.last().0, name) {
                Some(list.last().1)
            } else {
                None
            },
        }
    }
}

/// The list without the headers of the given name.
pub open spec fn without(list: HeaderList, name: Seq<u8>) -> HeaderList
    decreases list.len(),
{
    if list.len() == 0 {
        list
    } else if eq_ignore_case(list.last().0, name) {
        without(list.drop_last(), name)
    } else {
        without(list.drop_last(), name).push(list.last())
    }
}

/// The first header of a name decides the lookup: one at place `i` does,
/// where none before it has the name.
pub proof fn lemma_lookup_first(list: HeaderList, name: Seq<u8>, i: int)
    requires
        0 <= i < list.len(),
        eq_ignore_case(list[i].0, name),
        forall|j: int| 0 <= j < i ==> !eq_ignore_case(#[trigger] list[j].0, name),
    ensures
        lookup(list, name) == Some(list[i].1),
    decreases list.len(),
{
    let front = list.drop_last();
    if i == list.len() - 1 {
        lemma_lookup_none(front, name);
    } else {
        lemma_lookup_first(front, name, i);
    }
}

/// Where no header has the name, the lookup finds nothing, and nothing is
/// removed with the name.
pub proof fn lemma_lookup_none(list: HeaderList, name: Seq<u8>)
    requires
        forall|j: int| 0 <= j < list.len() ==> !eq_ignore_case(#[trigger] list[j].0, name),
    ensures
        lookup(list, name) is None,
        without(list, name) == list,
    decreases list.len(),
{
    if list.len() > 0 {
        let front = list.drop_last();
        lemma_lookup_none(front, name);
        assert(!eq_ignore_case(list[list.len() - 1].0, name));
        assert(front.push(list.last()) =~= list);
    }
}

/// A lookup that finds nothing says that no header has the name.
pub proof fn lemma_lookup_none_means_absent(list: HeaderList, name: Seq<u8>)
    requires
        lookup(list, name) is None,
    ensures
        forall|j: int| 0 <= j < list.len() ==> !eq_ignore_case(#[trigger] list[j].0, name),
    decreases list.len(),
{
    if list.len() > 0 {
        lemma_lookup_none_means_absent(list.drop_last(), name);
        assert forall|j: int| 0 <= j < list.len() implies !eq_ignore_case(
            #[trigger] list[j].0,
            name,
        ) by {
            if j < list.len() - 1 {
                assert(list.drop_last()[j] == list[j]);
            }
        }
    }
}

/// After the headers of a name are removed, none has it, and the headers
/// of every other name are found as before.
pub proof fn lemma_without(list: HeaderList, name: Seq<u8>, other: Seq<u8>)
    ensures
        lookup(without(list, name), name) is None,
        !eq_ignore_case(other, name) ==> lookup(without(list, name), other) == lookup(list, other),
        without(list, name).len() <= list.len(),
    decreases list.len(),
{
    if list.len() > 0 {
        let front = list.drop_last();
        lemma_without(front, name, other);
        if !eq_ignore_case(list.last().0, name) {
            let kept = without(front, name).push(list.last());
            assert(kept.drop_last() =~= without(front, name));
        } else {
            if !eq_ignore_case(other, name) {
                assert(!eq_ignore_case(list.last().0, other));
            }
        }
    }
}

/// One header: a name and a value, both as bytes.
#[derive(Debug)]
pub struct Header {
    pub name: Vec<u8>,
    pub value: Vec<u8>,
}

/// The headers of a request or a response.
#[derive(Debug)]
pub struct Headers {
    entries: Vec<Header>,
}

/// The names and values of a list of headers.
pub open spec fn list_of(entries: Seq<Header>) -> HeaderList {
    Seq::new(entries.len(), |i: int| (entries[i].name@, entries[i].value@))
}

impl View for Headers {
    type V = HeaderList;

    closed spec fn view(&self) -> HeaderList {
        list_of(self.entries@)
    }
}

impl Headers {
    /// An empty collection.
    pub fn new() -> (r: Headers)
        ensures
            r@ == HeaderList::empty(),
    {
        let r = Headers { entries: Vec::new() };
        assert(r@ =~= HeaderList::empty());
        r
    }

    /// The number of headers.
    pub fn len(&self) -> (r: usize)
        ensures
            r == self@.len(),
    {
        self.entries.len()
    }

    /// Tells whether there is no header.
    pub fn is_empty(&self) -> (r: bool)
        ensures
            r == (self@.len() == 0),
    {
        self.entries.len() == 0
    }

    /// The name and the value of the header at a place.
    pub fn entry(&self, i: usize) -> (r: (&Vec<u8>, &Vec<u8>))
        requires
            i < self@.len(),
        ensures
            (r.0@, r.1@) == self@[i as int],
    {
        (&self.entries[i].name, &self.entries[i].value)
    }

    /// Adds a header after those that are there.
    pub fn append(&mut self, name: &str, value: Vec<u8>)
        ensures
            final(self)@ == old(self)@.push((name.spec_bytes(), value@)),
    {
        self.entries.push(Header { name: name.as_bytes_vec(), value });
        assert(self@ =~= old(self)@.push((name.spec_bytes(), value@)));
    }

    /// Adds a header whose name is given as bytes.
    pub fn append_bytes(&mut self, name: Vec<u8>, value: Vec<u8>)
        ensures
            final(self)@ == old(self)@.push((name@, value@)),
    {
        self.entries.push(Header { name, value });
        assert(self@ =~= old(self)@.push((name@, value@)));
    }

    /// The place of the first header of a name.
    fn position(&self, name: &[u8]) -> (r: Option<usize>)
        ensures
            match r {
                Some(i) => i < self@.len() && lookup(self@, name@) == Some(self@[i as int].1),
                None => lookup(self@, name@) is None,
            },
    {
        let mut i: usize = 0;
        while i < self.entries.len()
            invariant
                i <= self.entries@.len(),
                forall|j: int| 0 <= j < i ==> !eq_ignore_case(#[trigger] self@[j].0, name@),
            decreases self.entries@.len() - i,
        {
            if eq_ignore_ascii_case(self.entries[i].name.as_slice(), name) {
                proof {
                    lemma_lookup_first(self@, name@, i as int);
                }
                return Some(i);
            }
            i += 1;
        }
        proof {
            lemma_lookup_none(self@, name@);
        }
        None
    }

    /// The value of the first header of a name, whatever its case.
    pub fn get(&self, name: &str) -> (r: Option<&Vec<u8>>)
        ensures
            r is Some <==> lookup(self@, name.spec_bytes()) is Some,
            r matches Some(v) ==> Some(v@) == lookup(self@, name.spec_bytes()),
    {
        match self.position(name.as_bytes()) {
            Some(i) => Some(&self.entries[i].value),
            None => None,
        }
    }

    /// Tells whether a header has the name, whatever its case.
    pub fn contains_key(&self, name: &str) -> (r: bool)
        ensures
            r == lookup(self@, name.spec_bytes()) is Some,
    {
        self.position(name.as_bytes()).is_some()
    }

    /// Removes every header of a name, whatever its case.
    pub fn remove(&mut self, name: &str)
        ensures
            final(self)@ == without(old(self)@, name.spec_bytes()),
    {
        let mut kept: Vec<Header> = Vec::new();
        let mut all: Vec<Header> = Vec::new();
        std::mem::swap(&mut all, &mut self.entries);
        let ghost before = list_of(all@);
        let ghost target = name.spec_bytes();
        let ghost initial = all@;
        let total: usize = all.len();
        let mut rest: Vec<Header> = Vec::new();
        while all.len() > 0
            invariant
                rest@.len() + all@.len() == total,
                total == initial.len(),
                all@ == initial.subrange(0, all@.len() as int),
                forall|k: int| 0 <= k < rest@.len() ==> #[trigger] rest@[k] == initial[total - 1 - k],
            decreases all@.len(),
        {
            let header = all.pop().unwrap();
            rest.push(header);
        }
        let mut i: usize = 0;
        while i < total
            invariant
                i <= total,
                total == before.len(),
                rest@.len() == total - i,
                forall|k: int|
                    0 <= k < rest@.len() ==> (#[trigger] rest@[k]).name@ == before[total - 1 - k].0
                        && rest@[k].value@ == before[total - 1 - k].1,
                list_of(kept@) == without(before.subrange(0, i as int), target),
                target == name.spec_bytes(),
            decreases total - i,
        {
            let header = rest.pop().unwrap();
            let ghost done = before.subrange(0, i as int);
            let ghost next = before.subrange(0, i + 1);
            assert(next.drop_last() =~= done);
            assert(next.last() == before[i as int]);
            assert(header.name@ == before[i as int].0);
            if !eq_ignore_ascii_case(header.name.as_slice(), name.as_bytes()) {
                let ghost old_kept = list_of(kept@);
                kept.push(header);
                assert(list_of(kept@) =~= old_kept.push(before[i as int]));
            }
            i += 1;
        }
        assert(before.subrange(0, total as int) =~= before);
        self.entries = kept;
    }

    /// Sets a header, in place of those that had its name.
    pub fn insert(&mut self, name: &str, value: Vec<u8>)
        ensures
            final(self)@ == without(old(self)@, name.spec_bytes()).push(
                (name.spec_bytes(), value@),
            ),
    {
        self.remove(name);
        self.append(name, value);
    }
}

} // verus!
