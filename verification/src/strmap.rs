//! A small map from strings to strings that remembers insertion order.
//!
//! Keys are unique. The map's meaning is a `Map<Seq<char>, Seq<char>>`; the
//! order of its entries is visible through `pairs`.

use crate::text::str_eq;
use vstd::prelude::*;
use vstd::set_lib::lemma_subset_equality;

verus! {

/// The map that a list of key/value pairs builds, later pairs winning.
pub open spec fn map_of<V>(es: Seq<(Seq<char>, V)>) -> Map<Seq<char>, V>
    decreases es.len(),
{
    if es.len() == 0 {
        Map::empty()
    } else {
        map_of(es.drop_last()).insert(es.last().0, es.last().1)
    }
}

/// Whether no key occurs twice in `es`.
pub open spec fn distinct_keys<V>(es: Seq<(Seq<char>, V)>) -> bool {
    forall|i: int, j: int| 0 <= i < j < es.len() ==> (#[trigger] es[i]).0 != (#[trigger] es[j]).0
}

/// Whether some pair of `es` has the key `k`.
pub open spec fn has_key<V>(es: Seq<(Seq<char>, V)>, k: Seq<char>) -> bool {
    exists|i: int| 0 <= i < es.len() && (#[trigger] es[i]).0 == k
}

/// The keys of `map_of(es)` are the keys of the pairs, and they are finitely many.
pub proof fn lemma_map_of_dom<V>(es: Seq<(Seq<char>, V)>)
    ensures
        map_of(es).dom().finite(),
        forall|k: Seq<char>| map_of(es).contains_key(k) <==> has_key(es, k),
    decreases es.len(),
{
    if es.len() > 0 {
        let init = es.drop_last();
        lemma_map_of_dom(init);
        assert forall|k: Seq<char>| map_of(es).contains_key(k) <==> has_key(es, k) by {
            if map_of(es).contains_key(k) {
                if k == es.last().0 {
                    assert(es[es.len() - 1].0 == k);
                } else {
                    assert(has_key(init, k));
                    let i = choose|i: int| 0 <= i < init.len() && (#[trigger] init[i]).0 == k;
                    assert(es[i].0 == k);
                }
            }
            if has_key(es, k) {
                let i = choose|i: int| 0 <= i < es.len() && (#[trigger] es[i]).0 == k;
                if i < es.len() - 1 {
                    assert(init[i].0 == k);
                    assert(has_key(init, k));
                }
            }
        }
    }
}

/// With distinct keys, each pair's value is what the map holds at its key.
pub proof fn lemma_map_of_get<V>(es: Seq<(Seq<char>, V)>, i: int)
    requires
        distinct_keys(es),
        0 <= i < es.len(),
    ensures
        map_of(es).contains_key(es[i].0),
        map_of(es)[es[i].0] == es[i].1,
    decreases es.len(),
{
    if i < es.len() - 1 {
        let init = es.drop_last();
        assert(distinct_keys(init)) by {
            assert forall|a: int, b: int| 0 <= a < b < init.len() implies (#[trigger] init[a]).0 != (
            #[trigger] init[b]).0 by {
                assert(es[a].0 != es[b].0);
            }
        }
        lemma_map_of_get(init, i);
        assert(init[i] == es[i]);
        assert(es[i].0 != es[es.len() - 1].0);
    }
}

/// With distinct keys, the map has as many keys as there are pairs.
pub proof fn lemma_map_of_len<V>(es: Seq<(Seq<char>, V)>)
    requires
        distinct_keys(es),
    ensures
        map_of(es).dom().finite(),
        map_of(es).dom().len() == es.len(),
    decreases es.len(),
{
    lemma_map_of_dom(es);
    if es.len() > 0 {
        let init = es.drop_last();
        assert(distinct_keys(init)) by {
            assert forall|a: int, b: int| 0 <= a < b < init.len() implies (#[trigger] init[a]).0 != (
            #[trigger] init[b]).0 by {
                assert(es[a].0 != es[b].0);
            }
        }
        lemma_map_of_len(init);
        lemma_map_of_dom(init);
        assert(!map_of(init).contains_key(es.last().0)) by {
            if has_key(init, es.last().0) {
                let i = choose|i: int| 0 <= i < init.len() && (#[trigger] init[i]).0 == es.last().0;
                assert(es[i].0 != es[es.len() - 1].0);
            }
        }
        assert(map_of(es).dom() =~= map_of(init).dom().insert(es.last().0));
    } else {
        assert(map_of(es).dom() =~= Set::<Seq<char>>::empty());
    }
}

/// With distinct keys, replacing the value of pair `i` is an insert at its key.
pub proof fn lemma_map_of_update<V>(es: Seq<(Seq<char>, V)>, i: int, v: V)
    requires
        distinct_keys(es),
        0 <= i < es.len(),
    ensures
        map_of(es.update(i, (es[i].0, v))) == map_of(es).insert(es[i].0, v),
        distinct_keys(es.update(i, (es[i].0, v))),
    decreases es.len(),
{
    let k = es[i].0;
    let up = es.update(i, (k, v));
    assert(distinct_keys(up)) by {
        assert forall|a: int, b: int| 0 <= a < b < up.len() implies (#[trigger] up[a]).0 != (
        #[trigger] up[b]).0 by {
            assert(es[a].0 != es[b].0);
        }
    }
    let init = es.drop_last();
    if i == es.len() - 1 {
        assert(up.drop_last() =~= init);
        assert(map_of(up) =~= map_of(es).insert(k, v));
    } else {
        assert(distinct_keys(init)) by {
            assert forall|a: int, b: int| 0 <= a < b < init.len() implies (#[trigger] init[a]).0 != (
            #[trigger] init[b]).0 by {
                assert(es[a].0 != es[b].0);
            }
        }
        lemma_map_of_update(init, i, v);
        assert(init[i] == es[i]);
        assert(up.drop_last() =~= init.update(i, (k, v)));
        assert(up.last() == es.last());
        assert(es[i].0 != es[es.len() - 1].0);
        assert(map_of(up) =~= map_of(es).insert(k, v));
    }
}

/// Appending a pair is an insert.
pub proof fn lemma_map_of_push<V>(es: Seq<(Seq<char>, V)>, k: Seq<char>, v: V)
    ensures
        map_of(es.push((k, v))) == map_of(es).insert(k, v),
{
    assert(es.push((k, v)).drop_last() =~= es);
}

/// An insertion-ordered map from strings to strings.
#[derive(Debug)]
pub struct StringMap {
    entries: Vec<(String, String)>,
}

impl View for StringMap {
    type V = Map<Seq<char>, Seq<char>>;

    open spec fn view(&self) -> Map<Seq<char>, Seq<char>> {
        map_of(self.pairs())
    }
}

impl StringMap {
    /// The entries as pairs of character sequences, oldest key first.
    pub closed spec fn pairs(&self) -> Seq<(Seq<char>, Seq<char>)> {
        Seq::new(self.entries@.len(), |i: int| (self.entries@[i].0@, self.entries@[i].1@))
    }

    #[verifier::type_invariant]
    spec fn keys_are_distinct(&self) -> bool {
        distinct_keys(self.pairs())
    }

    /// An empty map.
    pub fn new() -> (r: Self)
        ensures
            r.pairs() == Seq::<(Seq<char>, Seq<char>)>::empty(),
            r@ == Map::<Seq<char>, Seq<char>>::empty(),
    {
        let r = StringMap { entries: Vec::new() };
        assert(r.pairs() =~= Seq::<(Seq<char>, Seq<char>)>::empty());
        r
    }

    /// The number of keys.
    pub fn len(&self) -> (r: usize)
        ensures
            r == self.pairs().len(),
            r == self@.dom().len(),
            self@.dom().finite(),
            distinct_keys(self.pairs()),
    {
        proof {
            use_type_invariant(self);
            lemma_map_of_len(self.pairs());
        }
        self.entries.len()
    }

    /// Whether the map has no key.
    pub fn is_empty(&self) -> (r: bool)
        ensures
            r == (self.pairs().len() == 0),
            r == (self@ == Map::<Seq<char>, Seq<char>>::empty()),
    {
        proof {
            use_type_invariant(self);
            lemma_map_of_len(self.pairs());
            if self.pairs().len() == 0 {
                assert(self@ =~= Map::<Seq<char>, Seq<char>>::empty());
            } else {
                assert(self@.dom().len() > 0);
                assert(self@ != Map::<Seq<char>, Seq<char>>::empty());
            }
        }
        self.entries.len() == 0
    }

    /// Where `key` stands among the entries, if it is a key.
    fn position(&self, key: &str) -> (r: Option<usize>)
        ensures
            match r {
                Some(i) => i < self.pairs().len() && self.pairs()[i as int].0 == key@,
                None => !has_key(self.pairs(), key@),
            },
    {
        let mut i: usize = 0;
        while i < self.entries.len()
            invariant
                i <= self.entries.len(),
                self.pairs().len() == self.entries.len(),
                forall|j: int| 0 <= j < i ==> (#[trigger] self.pairs()[j]).0 != key@,
            decreases self.entries.len() - i,
        {
            if str_eq(self.entries[i].0.as_str(), key) {
                return Some(i);
            }
            i += 1;
        }
        None
    }

    /// The value stored under `key`.
    pub fn get(&self, key: &str) -> (r: Option<&String>)
        ensures
            match r {
                Some(v) => self@.contains_key(key@) && v@ == self@[key@],
                None => !self@.contains_key(key@),
            },
    {
        proof {
            use_type_invariant(self);
            lemma_map_of_dom(self.pairs());
        }
        match self.position(key) {
            Some(i) => {
                proof {
                    lemma_map_of_get(self.pairs(), i as int);
                }
                Some(&self.entries[i].1)
            },
            None => None,
        }
    }

    /// Whether `key` is a key of the map.
    pub fn contains_key(&self, key: &str) -> (r: bool)
        ensures
            r == self@.contains_key(key@),
    {
        self.get(key).is_some()
    }

    /// Stores `value` under `key`, replacing what was there. A new key goes
    /// last; a known key keeps its place.
    pub fn insert(&mut self, key: String, value: String)
        ensures
            final(self)@ == old(self)@.insert(key@, value@),
            has_key(old(self).pairs(), key@) ==> final(self).pairs().len() == old(self).pairs().len(),
            !has_key(old(self).pairs(), key@) ==> final(self).pairs() == old(self).pairs().push(
                (key@, value@),
            ),
    {
        proof {
            use_type_invariant(&*self);
        }
        let ghost before = self.pairs();
        let found = self.position(key.as_str());
        let mut taken = StringMap { entries: Vec::new() };
        std::mem::swap(self, &mut taken);
        let mut entries = taken.entries;
        assert(Seq::new(entries@.len(), |i: int| (entries@[i].0@, entries@[i].1@)) =~= before);
        match found {
            Some(i) => {
                proof {
                    lemma_map_of_update(before, i as int, value@);
                    assert(has_key(before, key@));
                }
                entries.set(i, (key, value));
                assert(Seq::new(entries@.len(), |i: int| (entries@[i].0@, entries@[i].1@))
                    =~= before.update(i as int, (key@, value@)));
            },
            None => {
                proof {
                    lemma_map_of_push(before, key@, value@);
                }
                entries.push((key, value));
                let ghost now = Seq::new(entries@.len(), |i: int| (entries@[i].0@, entries@[i].1@));
                assert(now =~= before.push((key@, value@)));
                assert(distinct_keys(now)) by {
                    assert forall|a: int, b: int| 0 <= a < b < now.len() implies (#[trigger] now[a]).0
                        != (#[trigger] now[b]).0 by {
                        if b < before.len() {
                            assert(before[a].0 != before[b].0);
                        } else {
                            assert(before[a].0 != key@);
                        }
                    }
                }
            },
        }
        *self = StringMap { entries };
    }

    /// The key of entry `i`.
    pub fn key_at(&self, i: usize) -> (r: &String)
        requires
            i < self.pairs().len(),
        ensures
            r@ == self.pairs()[i as int].0,
    {
        &self.entries[i].0
    }

    /// The value of entry `i`.
    pub fn value_at(&self, i: usize) -> (r: &String)
        requires
            i < self.pairs().len(),
        ensures
            r@ == self.pairs()[i as int].1,
    {
        &self.entries[i].1
    }

    /// Stores every entry of `other`, in its order, replacing known keys.
    pub fn extend(&mut self, other: &StringMap)
        ensures
            final(self)@ == old(self)@.union_prefer_right(other@),
    {
        let n = other.len();
        let mut i: usize = 0;
        assert(other.pairs().take(0) =~= Seq::<(Seq<char>, Seq<char>)>::empty());
        assert(self@ =~= old(self)@.union_prefer_right(map_of(other.pairs().take(0))));
        while i < n
            invariant
                i <= n,
                n == other.pairs().len(),
                self@ == old(self)@.union_prefer_right(map_of(other.pairs().take(i as int))),
            decreases n - i,
        {
            let k = other.key_at(i).clone();
            let v = other.value_at(i).clone();
            let ghost prev = other.pairs().take(i as int);
            self.insert(k, v);
            proof {
                let next = other.pairs().take(i + 1);
                assert(next.drop_last() =~= prev);
                assert(next.last() == other.pairs()[i as int]);
                assert(self@ =~= old(self)@.union_prefer_right(map_of(next)));
            }
            i += 1;
        }
        assert(other.pairs().take(n as int) =~= other.pairs());
    }

    /// A copy with the same entries in the same order.
    pub fn duplicate(&self) -> (r: StringMap)
        ensures
            r.pairs() == self.pairs(),
            r@ == self@,
    {
        proof {
            use_type_invariant(self);
        }
        let mut entries: Vec<(String, String)> = Vec::new();
        let mut i: usize = 0;
        while i < self.entries.len()
            invariant
                i <= self.entries.len(),
                entries.len() == i,
                forall|j: int|
                    0 <= j < i ==> (#[trigger] entries@[j]).0@ == self.entries@[j].0@ && entries@[j].1@
                        == self.entries@[j].1@,
            decreases self.entries.len() - i,
        {
            entries.push((self.entries[i].0.clone(), self.entries[i].1.clone()));
            i += 1;
        }
        proof {
            use_type_invariant(self);
            assert(Seq::new(entries@.len(), |i: int| (entries@[i].0@, entries@[i].1@))
                =~= self.pairs());
        }
        let r = StringMap { entries };
        r
    }

    /// Whether both maps hold the same keys with the same values.
    pub fn same_as(&self, other: &StringMap) -> (r: bool)
        ensures
            r == (self@ == other@),
    {
        let n = self.len();
        let m = other.len();
        if n != m {
            return false;
        }
        proof {
            lemma_map_of_dom(self.pairs());
            lemma_map_of_dom(other.pairs());
        }
        let mut i: usize = 0;
        while i < n
            invariant
                i <= n,
                n == self.pairs().len(),
                n == other.pairs().len(),
                distinct_keys(self.pairs()),
                distinct_keys(other.pairs()),
                forall|j: int|
                    0 <= j < i ==> other@.contains_key((#[trigger] self.pairs()[j]).0)
                        && other@[self.pairs()[j].0]
                        == self.pairs()[j].1,
            decreases n - i,
        {
            proof {
                lemma_map_of_get(self.pairs(), i as int);
            }
            match other.get(self.key_at(i).as_str()) {
                Some(v) => {
                    if !str_eq(v.as_str(), self.value_at(i).as_str()) {
                        return false;
                    }
                },
                None => {
                    return false;
                },
            }
            i += 1;
        }
        proof {
            lemma_map_of_dom(self.pairs());
            lemma_map_of_dom(other.pairs());
            lemma_map_of_len(self.pairs());
            lemma_map_of_len(other.pairs());
            assert forall|k: Seq<char>| #[trigger] self@.dom().contains(k) implies other@.dom().contains(
                k,
            ) && other@[k] == self@[k] by {
                assert(map_of(self.pairs()).contains_key(k));
                assert(has_key(self.pairs(), k));
                let j = choose|j: int| 0 <= j < self.pairs().len()
                    && (#[trigger] self.pairs()[j]).0 == k;
                lemma_map_of_get(self.pairs(), j);
            }
            assert(self@.dom().subset_of(other@.dom()));
            lemma_subset_equality(self@.dom(), other@.dom());
            assert(self@ =~= other@);
        }
        true
    }
}

impl Clone for StringMap {
    fn clone(&self) -> (r: Self)
        ensures
            r.pairs() == self.pairs(),
            r@ == self@,
    {
        self.duplicate()
    }
}

impl PartialEq for StringMap {
    fn eq(&self, other: &StringMap) -> (r: bool) {
        self.same_as(other)
    }
}

impl vstd::std_specs::cmp::PartialEqSpecImpl for StringMap {
    open spec fn obeys_eq_spec() -> bool {
        true
    }

    open spec fn eq_spec(&self, other: &StringMap) -> bool {
        self@ == other@
    }
}

impl Default for StringMap {
    fn default() -> (r: Self)
        ensures
            r@ == Map::<Seq<char>, Seq<char>>::empty(),
    {
        StringMap::new()
    }
}

} // verus!
