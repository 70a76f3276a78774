//! A mapping from header names to header values.

use crate::distinct::{lemma_index_of, lemma_push_distinct};
use vstd::prelude::*;
use vstd::string::StringExecFns;

verus! {

/// The names of the pairs in `v`, in order.
pub open spec fn names(v: Seq<(String, String)>) -> Seq<Seq<char>> {
    v.map_values(|e: (String, String)| e.0@)
}

/// The mapping that a run of pairs without a repeated name stands for.
pub open spec fn mapping(v: Seq<(String, String)>) -> Map<Seq<char>, Seq<char>> {
    Map::new(
        |name: Seq<char>| names(v).contains(name),
        |name: Seq<char>| v[names(v).index_of(name)].1@,
    )
}

/// The place of `name` among `entries`.
fn position(entries: &Vec<(String, String)>, name: &str) -> (r: Option<usize>)
    ensures
        match r {
            Some(i) => i < entries.len() && names(entries@)[i as int] == name@,
            None => !names(entries@).contains(name@),
        },
{
    let key = String::from_str(name);
    let mut i: usize = 0;
    while i < entries.len()
        invariant
            i <= entries.len(),
            key@ == name@,
            forall|j: int| 0 <= j < i ==> names(entries@)[j] != name@,
        decreases entries.len() - i,
    {
        if entries[i].0 == key {
            return Some(i);
        }
        i = i + 1;
    }
    None
}

/// Headers by name. A name has one value: to insert under a name that is
/// there replaces its value.
#[derive(Debug)]
pub struct Headers {
    entries: Vec<(String, String)>,
}

impl Headers {
    #[verifier::type_invariant]
    spec fn distinct(self) -> bool {
        names(self.entries@).no_duplicates()
    }

    /// The headers, as pairs of name and value in the order in which the
    /// names first came. No name occurs twice.
    pub closed spec fn pairs(&self) -> Seq<(String, String)> {
        self.entries@
    }

    /// The headers as pairs of name and value.
    pub fn to_vec(&self) -> (v: Vec<(String, String)>)
        ensures
            v@ == self.pairs(),
            names(v@).no_duplicates(),
    {
        proof {
            use_type_invariant(self);
        }
        let mut v: Vec<(String, String)> = Vec::new();
        let mut i: usize = 0;
        while i < self.entries.len()
            invariant
                i <= self.entries.len(),
                v@ == self.entries@.take(i as int),
            decreases self.entries.len() - i,
        {
            let pair = (self.entries[i].0.clone(), self.entries[i].1.clone());
            v.push(pair);
            assert(self.entries@.take(i + 1) == self.entries@.take(i as int).push(
                self.entries@[i as int],
            ));
            i = i + 1;
        }
        assert(self.entries@.take(self.entries.len() as int) == self.entries@);
        v
    }
}

impl View for Headers {
    type V = Map<Seq<char>, Seq<char>>;

    open spec fn view(&self) -> Map<Seq<char>, Seq<char>> {
        mapping(self.pairs())
    }
}

impl Headers {
    /// No headers.
    pub fn new() -> (h: Headers)
        ensures
            h@ == Map::<Seq<char>, Seq<char>>::empty(),
    {
        let h = Headers { entries: Vec::new() };
        assert(h@ =~= Map::<Seq<char>, Seq<char>>::empty());
        h
    }

    /// How many names have a value.
    pub fn len(&self) -> (n: usize)
        ensures
            n == self@.dom().len(),
            self@.dom().finite(),
    {
        proof {
            use_type_invariant(self);
            let s = names(self.entries@);
            s.unique_seq_to_set();
            assert(self@.dom() =~= s.to_set());
        }
        self.entries.len()
    }

    /// The value of `name`, where it has one.
    pub fn get(&self, name: &str) -> (r: Option<&String>)
        ensures
            match r {
                Some(value) => self@.contains_key(name@) && self@[name@] == value@,
                None => !self@.contains_key(name@),
            },
    {
        proof {
            use_type_invariant(self);
        }
        match position(&self.entries, name) {
            Some(i) => {
                proof {
                    lemma_index_of(names(self.entries@), i as int);
                }
                Some(&self.entries[i].1)
            },
            None => None,
        }
    }

    /// Gives `name` the value `value`, in place of the value that it had if
    /// it had one.
    pub fn insert(&mut self, name: String, value: String)
        ensures
            final(self)@ == old(self)@.insert(name@, value@),
    {
        proof {
            use_type_invariant(&*self);
        }
        let ghost before = self.entries@;
        let found = position(&self.entries, name.as_str());
        let mut entries: Vec<(String, String)> = Vec::new();
        core::mem::swap(&mut self.entries, &mut entries);
        match found {
            Some(i) => {
                entries.set(i, (name, value));
                proof {
                    let after = entries@;
                    assert(names(after) =~= names(before));
                    assert(mapping(after) =~= mapping(before).insert(name@, value@)) by {
                        assert forall|k: Seq<char>| names(after).contains(k) implies mapping(
                            after,
                        )[k] == mapping(before).insert(name@, value@)[k] by {
                            let j = names(after).index_of(k);
                            lemma_index_of(names(before), i as int);
                        }
                    }
                }
            },
            None => {
                entries.push((name, value));
                proof {
                    let after = entries@;
                    assert(names(after) =~= names(before).push(name@));
                    lemma_push_distinct(names(before), name@);
                    assert(mapping(after) =~= mapping(before).insert(name@, value@)) by {
                        assert forall|k: Seq<char>| names(after).contains(k) implies mapping(
                            after,
                        )[k] == mapping(before).insert(name@, value@)[k] by {
                            let j = names(after).index_of(k);
                            if k == name@ {
                                lemma_index_of(names(after), before.len() as int);
                            } else {
                                let m = names(before).index_of(k);
                                assert(names(after)[m] == k);
                                lemma_index_of(names(after), m);
                            }
                        }
                    }
                }
            },
        }
        self.entries = entries;
    }
}

impl Clone for Headers {
    /// The same headers again.
    fn clone(&self) -> (r: Headers)
        ensures
            r.pairs() == self.pairs(),
            r@ == self@,
    {
        Headers { entries: self.to_vec() }
    }
}

} // verus!
