//! The latest report of each of a number of named activities.
//!
//! A tracker holds one report under each name. Its meaning is a map from
//! names to reports.

use crate::strmap::{
    distinct_keys, has_key, lemma_map_of_dom, lemma_map_of_get, lemma_map_of_push,
    lemma_map_of_update, map_of,
};
use crate::text::str_eq;
use vstd::prelude::*;

verus! {

/// Taking the pair at `i` out removes its key, where keys are distinct.
pub proof fn lemma_map_of_remove<V>(es: Seq<(Seq<char>, V)>, i: int)
    requires
        distinct_keys(es),
        0 <= i < es.len(),
    ensures
        map_of(es.remove(i)) == map_of(es).remove(es[i].0),
        distinct_keys(es.remove(i)),
    decreases es.len(),
{
    let out = es.remove(i);
    assert(distinct_keys(out)) by {
        assert forall|a: int, b: int| 0 <= a < b < out.len() implies (#[trigger] out[a]).0 != (
        #[trigger] out[b]).0 by {
            let a0 = if a < i {
                a
            } else {
                a + 1
            };
            let b0 = if b < i {
                b
            } else {
                b + 1
            };
            assert(es[a0].0 != es[b0].0);
        }
    }
    let init = es.drop_last();
    assert(distinct_keys(init)) by {
        assert forall|a: int, b: int| 0 <= a < b < init.len() implies (#[trigger] init[a]).0 != (
        #[trigger] init[b]).0 by {
            assert(es[a].0 != es[b].0);
        }
    }
    if i == es.len() - 1 {
        assert(out =~= init);
        lemma_map_of_dom(init);
        assert(!map_of(init).contains_key(es[i].0)) by {
            if has_key(init, es[i].0) {
                let w = choose|w: int| 0 <= w < init.len() && (#[trigger] init[w]).0 == es[i].0;
                assert(es[w].0 != es[i].0);
            }
        }
        assert(map_of(out) =~= map_of(es).remove(es[i].0));
    } else {
        lemma_map_of_remove(init, i);
        assert(init[i] == es[i]);
        assert(out.drop_last() =~= init.remove(i));
        assert(out.last() == es.last());
        assert(es[i].0 != es[es.len() - 1].0);
        assert(map_of(out) =~= map_of(es).remove(es[i].0));
    }
}

/// The latest report under each name.
#[derive(Debug)]
pub struct Tracker<T> {
    entries: Vec<(String, T)>,
}

impl<T> View for Tracker<T> {
    type V = Map<Seq<char>, T>;

    open spec fn view(&self) -> Map<Seq<char>, T> {
        map_of(self.pairs())
    }
}

impl<T> Tracker<T> {
    /// The names with their reports, in the order in which the names came.
    pub closed spec fn pairs(&self) -> Seq<(Seq<char>, T)> {
        Seq::new(self.entries@.len(), |i: int| (self.entries@[i].0@, self.entries@[i].1))
    }

    #[verifier::type_invariant]
    spec fn names_are_distinct(&self) -> bool {
        distinct_keys(self.pairs())
    }

    /// A tracker without reports.
    pub fn new() -> (r: Self)
        ensures
            r@ == Map::<Seq<char>, T>::empty(),
    {
        let r = Tracker { entries: Vec::new() };
        assert(r.pairs() =~= Seq::<(Seq<char>, T)>::empty());
        r
    }

    fn position(&self, name: &str) -> (r: Option<usize>)
        ensures
            match r {
                Some(i) => i < self.pairs().len() && self.pairs()[i as int].0 == name@,
                None => !has_key(self.pairs(), name@),
            },
    {
        let mut i: usize = 0;
        while i < self.entries.len()
            invariant
                i <= self.entries.len(),
                self.pairs().len() == self.entries.len(),
                forall|j: int| 0 <= j < i ==> (#[trigger] self.pairs()[j]).0 != name@,
            decreases self.entries.len() - i,
        {
            if str_eq(self.entries[i].0.as_str(), name) {
                return Some(i);
            }
            i += 1;
        }
        None
    }

    /// The report under `name`.
    pub fn get(&self, name: &str) -> (r: Option<&T>)
        ensures
            match r {
                Some(v) => self@.contains_key(name@) && *v == self@[name@],
                None => !self@.contains_key(name@),
            },
    {
        proof {
            use_type_invariant(self);
            lemma_map_of_dom(self.pairs());
        }
        match self.position(name) {
            Some(i) => {
                proof {
                    lemma_map_of_get(self.pairs(), i as int);
                }
                Some(&self.entries[i].1)
            },
            None => None,
        }
    }

    /// Puts `report` under `name`, in place of what was there.
    pub fn set(&mut self, name: String, report: T)
        ensures
            final(self)@ == old(self)@.insert(name@, report),
    {
        proof {
            use_type_invariant(&*self);
        }
        let ghost before = self.pairs();
        let found = self.position(name.as_str());
        let mut taken = Tracker { entries: Vec::new() };
        std::mem::swap(self, &mut taken);
        let mut entries = taken.entries;
        assert(Seq::new(entries@.len(), |i: int| (entries@[i].0@, entries@[i].1)) =~= before);
        match found {
            Some(i) => {
                proof {
                    lemma_map_of_update(before, i as int, report);
                }
                entries.set(i, (name, report));
                assert(Seq::new(entries@.len(), |i: int| (entries@[i].0@, entries@[i].1))
                    =~= before.update(i as int, (name@, report)));
            },
            None => {
                proof {
                    lemma_map_of_push(before, name@, report);
                }
                entries.push((name, report));
                let ghost now = Seq::new(entries@.len(), |i: int| (entries@[i].0@, entries@[i].1));
                assert(now =~= before.push((name@, report)));
                assert(distinct_keys(now)) by {
                    assert forall|a: int, b: int| 0 <= a < b < now.len() implies (#[trigger] now[a]).0
                        != (#[trigger] now[b]).0 by {
                        if b < before.len() {
                            assert(before[a].0 != before[b].0);
                        } else {
                            assert(before[a].0 != name@);
                        }
                    }
                }
            },
        }
        let r = Tracker { entries };
        *self = r;
    }

    /// Puts `report` under `name` if there is a report under it already;
    /// the result says whether there was.
    pub fn update(&mut self, name: &str, report: T) -> (r: bool)
        ensures
            r == old(self)@.contains_key(name@),
            r ==> final(self)@ == old(self)@.insert(name@, report),
            !r ==> final(self)@ == old(self)@,
    {
        if self.get(name).is_some() {
            self.set(name.to_owned(), report);
            true
        } else {
            false
        }
    }

    /// Takes the report under `name` out.
    pub fn remove(&mut self, name: &str)
        ensures
            final(self)@ == old(self)@.remove(name@),
    {
        proof {
            use_type_invariant(&*self);
            lemma_map_of_dom(self.pairs());
        }
        let ghost before = self.pairs();
        match self.position(name) {
            Some(i) => {
                let mut taken = Tracker { entries: Vec::new() };
                std::mem::swap(self, &mut taken);
                let mut entries = taken.entries;
                assert(Seq::new(entries@.len(), |i: int| (entries@[i].0@, entries@[i].1))
                    =~= before);
                proof {
                    lemma_map_of_remove(before, i as int);
                }
                entries.remove(i);
                assert(Seq::new(entries@.len(), |i: int| (entries@[i].0@, entries@[i].1))
                    =~= before.remove(i as int));
                let r = Tracker { entries };
                *self = r;
            },
            None => {
                assert(self@ =~= old(self)@.remove(name@));
            },
        }
    }
}

} // verus!
