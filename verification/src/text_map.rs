//! A map keyed by text, kept in text order.

use crate::text;
use vstd::prelude::*;
use vstd::string::*;

verus! {

broadcast use vstd::string::group_string_axioms;

/// A map from text to `V` whose entries stand in text order.
#[derive(Debug, PartialEq, Eq)]
pub struct TextMap<V> {
    columns: Columns<V>,
}

/// The keys of a map and, at the same places, their values.
#[derive(Debug, PartialEq, Eq)]
struct Columns<V> {
    keys: Vec<String>,
    values: Vec<V>,
}

impl<V> Columns<V> {
    spec fn pairs(&self) -> Seq<(String, V)> {
        Seq::new(self.keys@.len(), |i: int| (self.keys@[i], self.values@[i]))
    }

    spec fn well_ordered(&self) -> bool {
        self.keys@.len() == self.values@.len() && in_order(self.pairs())
    }
}

/// Whether the keys of `s` stand in text order, none of them twice.
pub open spec fn in_order<V>(s: Seq<(String, V)>) -> bool {
    forall|i: int, j: int| 0 <= i < j < s.len() ==> text::text_less(#[trigger] s[i].0@, #[trigger] s[j].0@)
}

/// The map that a sequence of pairs writes: a later pair replaces an earlier
/// one with the same key.
pub open spec fn map_of<V>(s: Seq<(String, V)>) -> Map<Seq<char>, V>
    decreases s.len(),
{
    if s.len() == 0 {
        Map::empty()
    } else {
        map_of(s.drop_last()).insert(s.last().0@, s.last().1)
    }
}

/// Whether `listed` lists the entries of `m`: each of them once, in text order
/// of the keys, and nothing else.
pub open spec fn lists<V>(m: Map<Seq<char>, V>, listed: Seq<(&String, &V)>) -> bool {
    &&& listed.len() == m.len()
    &&& forall|i: int|
        0 <= i < listed.len() ==> m.contains_key(#[trigger] listed[i].0@) && *listed[i].1
            == m[listed[i].0@]
    &&& forall|i: int, j: int|
        0 <= i < j < listed.len() ==> text::text_less(
            #[trigger] listed[i].0@,
            #[trigger] listed[j].0@,
        )
    &&& forall|k: Seq<char>| #[trigger]
        m.contains_key(k) ==> exists|i: int| 0 <= i < listed.len() && #[trigger] listed[i].0@ == k
}

impl<V> TextMap<V> {
    /// The entries, in text order of their keys.
    pub closed spec fn pairs(&self) -> Seq<(String, V)> {
        self.columns.pairs()
    }

    #[verifier::type_invariant]
    spec fn well_ordered(&self) -> bool {
        self.columns.well_ordered()
    }
}

impl<V> View for TextMap<V> {
    type V = Map<Seq<char>, V>;

    open spec fn view(&self) -> Map<Seq<char>, V> {
        map_of(self.pairs())
    }
}

impl<V: DeepView> DeepView for TextMap<V> {
    type V = Map<Seq<char>, V::V>;

    open spec fn deep_view(&self) -> Map<Seq<char>, V::V> {
        self@.map_values(|v: V| v.deep_view())
    }
}

/// A key is in the map of `s` exactly where a pair has it, and the map is
/// finite.
pub proof fn lemma_map_of_keys<V>(s: Seq<(String, V)>)
    ensures
        map_of(s).dom().finite(),
        forall|k: Seq<char>| #[trigger]
            map_of(s).contains_key(k) ==> exists|i: int| 0 <= i < s.len() && s[i].0@ == k,
        forall|i: int| 0 <= i < s.len() ==> map_of(s).contains_key(#[trigger] s[i].0@),
    decreases s.len(),
{
    if s.len() > 0 {
        let t = s.drop_last();
        lemma_map_of_keys(t);
        assert forall|k: Seq<char>| #[trigger] map_of(s).contains_key(k) implies exists|i: int|
            0 <= i < s.len() && s[i].0@ == k by {
            if k != s.last().0@ {
                let i = choose|i: int| 0 <= i < t.len() && t[i].0@ == k;
                assert(s[i].0@ == k);
            }
        }
        assert forall|i: int| 0 <= i < s.len() implies map_of(s).contains_key(
            #[trigger] s[i].0@,
        ) by {
            if i < s.len() - 1 {
                assert(map_of(t).contains_key(t[i].0@));
            }
        }
    }
}

/// In order, each pair is what the map holds at its key, and the map has as
/// many entries as there are pairs.
pub proof fn lemma_map_of_in_order<V>(s: Seq<(String, V)>)
    requires
        in_order(s),
    ensures
        forall|i: int| 0 <= i < s.len() ==> map_of(s)[#[trigger] s[i].0@] == s[i].1,
        map_of(s).len() == s.len(),
    decreases s.len(),
{
    if s.len() > 0 {
        let t = s.drop_last();
        assert(in_order(t));
        lemma_map_of_in_order(t);
        lemma_map_of_keys(t);
        assert forall|i: int| 0 <= i < s.len() implies map_of(s)[#[trigger] s[i].0@] == s[i].1 by {
            if i < s.len() - 1 {
                assert(t[i] == s[i]);
                text::text_less_irreflexive(s[i].0@);
            }
        }
        let k = s.last().0@;
        if map_of(t).contains_key(k) {
            text::text_less_irreflexive(k);
        }
    }
}

/// Replacing the value of one pair replaces it in the map.
proof fn lemma_map_of_update<V>(s: Seq<(String, V)>, i: int, p: (String, V))
    requires
        in_order(s),
        0 <= i < s.len(),
        p.0@ == s[i].0@,
    ensures
        in_order(s.update(i, p)),
        map_of(s.update(i, p)) == map_of(s).insert(p.0@, p.1),
{
    let u = s.update(i, p);
    assert(in_order(u));
    lemma_map_of_keys(s);
    lemma_map_of_keys(u);
    lemma_map_of_in_order(s);
    lemma_map_of_in_order(u);
    let m = map_of(s).insert(p.0@, p.1);
    assert forall|k: Seq<char>| map_of(u).contains_key(k) == m.contains_key(k) by {
        if m.contains_key(k) {
            if k == p.0@ {
                assert(u[i].0@ == k);
            } else {
                let j = choose|j: int| 0 <= j < s.len() && s[j].0@ == k;
                assert(u[j].0@ == k);
            }
        }
    }
    assert forall|k: Seq<char>| map_of(u).contains_key(k) implies map_of(u)[k] == m[k] by {
        let j = choose|j: int| 0 <= j < u.len() && u[j].0@ == k;
        if j != i && k == p.0@ {
            text::text_less_irreflexive(k);
        }
    }
}

/// Putting a new pair at its place in the order puts it into the map.
proof fn lemma_map_of_place<V>(s: Seq<(String, V)>, i: int, p: (String, V))
    requires
        in_order(s),
        0 <= i <= s.len(),
        forall|j: int| 0 <= j < i ==> text::text_less(#[trigger] s[j].0@, p.0@),
        forall|j: int| i <= j < s.len() ==> text::text_less(p.0@, #[trigger] s[j].0@),
    ensures
        in_order(s.insert(i, p)),
        map_of(s.insert(i, p)) == map_of(s).insert(p.0@, p.1),
        !map_of(s).contains_key(p.0@),
{
    let u = s.insert(i, p);
    assert(in_order(u));
    lemma_map_of_keys(s);
    lemma_map_of_keys(u);
    lemma_map_of_in_order(s);
    lemma_map_of_in_order(u);
    if map_of(s).contains_key(p.0@) {
        text::text_less_irreflexive(p.0@);
    }
    let m = map_of(s).insert(p.0@, p.1);
    assert forall|k: Seq<char>| map_of(u).contains_key(k) == m.contains_key(k) by {
        if m.contains_key(k) {
            if k == p.0@ {
                assert(u[i].0@ == k);
            } else {
                let j = choose|j: int| 0 <= j < s.len() && s[j].0@ == k;
                if j < i {
                    assert(u[j].0@ == k);
                } else {
                    assert(u[j + 1].0@ == k);
                }
            }
        }
    }
}

/// Where a key stands in a sequence of pairs, or where it would.
enum Place {
    Found(usize),
    Free(usize),
}

impl<V> Columns<V> {
    fn new() -> (r: Self)
        ensures
            r.well_ordered(),
            r.pairs() == Seq::<(String, V)>::empty(),
    {
        Columns { keys: Vec::new(), values: Vec::new() }
    }

    fn find(&self, key: &str) -> (r: Place)
        requires
            self.well_ordered(),
        ensures
            match r {
                Place::Found(i) => i < self.pairs().len() && self.pairs()[i as int].0@ == key@,
                Place::Free(i) => {
                    &&& i <= self.pairs().len()
                    &&& forall|j: int|
                        0 <= j < i ==> text::text_less(#[trigger] self.pairs()[j].0@, key@)
                    &&& forall|j: int|
                        i <= j < self.pairs().len() ==> text::text_less(
                            key@,
                            #[trigger] self.pairs()[j].0@,
                        )
                    &&& !map_of(self.pairs()).contains_key(key@)
                },
            },
    {
        let ghost s = self.pairs();
        let mut i: usize = 0;
        while i < self.keys.len()
            invariant
                self.well_ordered(),
                s == self.pairs(),
                i <= s.len(),
                forall|j: int| 0 <= j < i ==> text::text_less(#[trigger] s[j].0@, key@),
            decreases s.len() - i,
        {
            let here = self.keys[i].as_str();
            if text::text_eq(here, key) {
                return Place::Found(i);
            }
            if text::text_lt(key, here) {
                proof {
                    assert forall|j: int| i <= j < s.len() implies text::text_less(
                        key@,
                        #[trigger] s[j].0@,
                    ) by {
                        if j > i {
                            text::text_less_transitive(key@, s[i as int].0@, s[j].0@);
                        }
                    }
                    lemma_absent(s, i as int, key@);
                }
                return Place::Free(i);
            }
            proof {
                if !text::text_less(s[i as int].0@, key@) {
                    text::text_less_total(s[i as int].0@, key@);
                }
            }
            i += 1;
        }
        proof {
            lemma_absent(s, i as int, key@);
        }
        Place::Free(i)
    }
}

/// A key for which there is a free place is not in the map.
proof fn lemma_absent<V>(s: Seq<(String, V)>, i: int, key: Seq<char>)
    requires
        0 <= i <= s.len(),
        forall|j: int| 0 <= j < i ==> text::text_less(#[trigger] s[j].0@, key),
        forall|j: int| i <= j < s.len() ==> text::text_less(key, #[trigger] s[j].0@),
    ensures
        !map_of(s).contains_key(key),
{
    lemma_map_of_keys(s);
    if map_of(s).contains_key(key) {
        text::text_less_irreflexive(key);
    }
}

impl<V> TextMap<V> {
    /// The empty map.
    pub fn new() -> (r: Self)
        ensures
            r@ == Map::<Seq<char>, V>::empty(),
    {
        TextMap { columns: Columns::new() }
    }

    /// The map that holds `pairs`, a later pair replacing an earlier one with
    /// the same key.
    pub fn from_pairs(pairs: Vec<(String, V)>) -> (r: Self)
        ensures
            r@ == map_of(pairs@),
    {
        let ghost all = pairs@;
        let mut r = TextMap::new();
        for p in it: pairs
            invariant
                it.seq() == all,
                r@ == map_of(all.take(it.index())),
        {
            proof {
                let n = it.index();
                assert(all.take(n + 1).drop_last() =~= all.take(n));
            }
            r.insert(p.0, p.1);
        }
        proof {
            assert(all.take(all.len() as int) =~= all);
        }
        r
    }

    /// The number of entries.
    pub fn len(&self) -> (r: usize)
        ensures
            r == self@.len(),
            self@.dom().finite(),
    {
        proof {
            use_type_invariant(self);
            lemma_map_of_keys(self.pairs());
            lemma_map_of_in_order(self.pairs());
        }
        self.columns.keys.len()
    }

    /// Whether the map holds nothing.
    pub fn is_empty(&self) -> (r: bool)
        ensures
            r == (self@.len() == 0),
            self@.dom().finite(),
    {
        self.len() == 0
    }

    /// The value at `key`, where there is one.
    pub fn get(&self, key: &str) -> (r: Option<&V>)
        ensures
            match r {
                Some(v) => self@.contains_key(key@) && *v == self@[key@],
                None => !self@.contains_key(key@),
            },
    {
        proof {
            use_type_invariant(self);
            lemma_map_of_keys(self.pairs());
            lemma_map_of_in_order(self.pairs());
        }
        match self.columns.find(key) {
            Place::Found(i) => Some(&self.columns.values[i]),
            Place::Free(_) => None,
        }
    }

    /// Whether there is a value at `key`.
    pub fn contains_key(&self, key: &str) -> (r: bool)
        ensures
            r == self@.contains_key(key@),
    {
        self.get(key).is_some()
    }

    /// Puts `value` at `key` and gives back the value that stood there.
    pub fn insert(&mut self, key: String, value: V) -> (r: Option<V>)
        ensures
            final(self)@ == old(self)@.insert(key@, value),
            final(self)@.len() == old(self)@.len() + if r is None {
                1int
            } else {
                0int
            },
            match r {
                Some(v) => old(self)@.contains_key(key@) && v == old(self)@[key@],
                None => !old(self)@.contains_key(key@),
            },
    {
        proof {
            use_type_invariant(&*self);
            lemma_map_of_keys(self.pairs());
            lemma_map_of_in_order(self.pairs());
        }
        let mut columns: Columns<V> = Columns::new();
        std::mem::swap(&mut columns, &mut self.columns);
        let ghost before = columns.pairs();
        let replaced: Option<V>;
        match columns.find(key.as_str()) {
            Place::Found(i) => {
                let ghost p = (before[i as int].0, value);
                proof {
                    lemma_map_of_update(before, i as int, p);
                }
                let mut value = value;
                std::mem::swap(&mut value, &mut columns.values[i]);
                assert(columns.pairs() =~= before.update(i as int, p));
                replaced = Some(value);
            },
            Place::Free(i) => {
                let ghost p = (key, value);
                proof {
                    lemma_map_of_place(before, i as int, p);
                }
                columns.keys.insert(i, key);
                columns.values.insert(i, value);
                assert(columns.pairs() =~= before.insert(i as int, p));
                replaced = None;
            },
        }
        self.columns = columns;
        replaced
    }

    /// The value at `key`, to be changed in place. Where there is none,
    /// `fallback` is put there first.
    pub fn entry(&mut self, key: String, fallback: V) -> (r: &mut V)
        ensures
            *r == if old(self)@.contains_key(key@) {
                old(self)@[key@]
            } else {
                fallback
            },
            final(self)@ == old(self)@.insert(key@, *final(r)),
    {
        let ghost start = self@;
        if !self.contains_key(key.as_str()) {
            self.insert(key.clone(), fallback);
        }
        proof {
            use_type_invariant(&*self);
            lemma_map_of_in_order(self.pairs());
        }
        let i: usize = match self.columns.find(key.as_str()) {
            Place::Found(i) => i,
            Place::Free(i) => i,
        };
        let ghost before = self.columns;
        proof {
            let s = before.pairs();
            assert forall|after: Columns<V>|
                #![trigger after.pairs()]
                after.keys == before.keys && after.values@.len() == before.values@.len() && (
                forall|j: int|
                    0 <= j < before.values@.len() && j != i ==> after.values@[j]
                        == before.values@[j]) implies map_of(after.pairs()) == start.insert(
                key@,
                after.values@[i as int],
            ) && after.well_ordered() by {
                let p = (s[i as int].0, after.values@[i as int]);
                lemma_map_of_update(s, i as int, p);
                assert(after.pairs() =~= s.update(i as int, p));
            }
        }
        &mut self.columns.values[i]
    }

    /// The entries, in text order of their keys.
    pub fn iter(&self) -> (r: Vec<(&String, &V)>)
        ensures
            lists(self@, r@),
            self@.dom().finite(),
    {
        let ghost s = self.pairs();
        proof {
            use_type_invariant(self);
            lemma_map_of_keys(s);
            lemma_map_of_in_order(s);
        }
        let mut r: Vec<(&String, &V)> = Vec::new();
        let mut i: usize = 0;
        while i < self.columns.keys.len()
            invariant
                s == self.pairs(),
                self.columns.well_ordered(),
                i <= s.len(),
                r@.len() == i,
                forall|j: int|
                    0 <= j < i ==> {
                        &&& *(#[trigger] r@[j]).0 == s[j].0
                        &&& *r@[j].1 == s[j].1
                    },
            decreases s.len() - i,
        {
            r.push((&self.columns.keys[i], &self.columns.values[i]));
            i += 1;
        }
        proof {
            assert forall|k: Seq<char>| #[trigger] self@.contains_key(k) implies exists|i: int|
                0 <= i < r@.len() && #[trigger] r@[i].0@ == k by {
                let i = choose|i: int| 0 <= i < s.len() && s[i].0@ == k;
                assert(r@[i].0@ == k);
            }
        }
        r
    }
}

impl<V: Clone> Clone for TextMap<V> {
    fn clone(&self) -> (r: Self)
        ensures
            r@.dom() == self@.dom(),
            forall|k: Seq<char>| #[trigger]
                r@.contains_key(k) ==> cloned::<V>(self@[k], r@[k]),
    {
        let ghost s = self.pairs();
        proof {
            use_type_invariant(self);
        }
        let mut keys: Vec<String> = Vec::new();
        let mut values: Vec<V> = Vec::new();
        let mut i: usize = 0;
        while i < self.columns.keys.len()
            invariant
                s == self.pairs(),
                self.columns.well_ordered(),
                i <= s.len(),
                keys@.len() == i,
                values@.len() == i,
                forall|j: int|
                    0 <= j < i ==> (#[trigger] keys@[j])@ == s[j].0@,
                forall|j: int| 0 <= j < i ==> cloned::<V>(s[j].1, #[trigger] values@[j]),
            decreases s.len() - i,
        {
            keys.push(self.columns.keys[i].clone());
            values.push(self.columns.values[i].clone());
            i += 1;
        }
        let columns = Columns { keys, values };
        proof {
            let t = columns.pairs();
            assert(in_order(t));
            lemma_map_of_keys(s);
            lemma_map_of_keys(t);
            lemma_map_of_in_order(s);
            lemma_map_of_in_order(t);
            assert forall|k: Seq<char>| map_of(t).contains_key(k) == map_of(s).contains_key(k) by {
                if map_of(s).contains_key(k) {
                    let j = choose|j: int| 0 <= j < s.len() && s[j].0@ == k;
                    assert(t[j].0@ == s[j].0@);
                }
            }
        }
        TextMap { columns }
    }
}

/// The map of pairs holds the keys that they have and no other, and at each
/// key the value of the last pair that has it.
pub proof fn the_last_pair_counts<V>(s: Seq<(String, V)>, i: int, key: Seq<char>)
    ensures
        map_of(s).contains_key(key) <==> exists|k: int|
            0 <= k < s.len() && (#[trigger] s[k]).0@ == key,
        0 <= i < s.len() && s[i].0@ == key && (forall|k: int|
            i < k < s.len() ==> (#[trigger] s[k]).0@ != key) ==> map_of(s)[key] == s[i].1,
    decreases s.len(),
{
    if s.len() > 0 {
        let rest = s.drop_last();
        let last = s.len() - 1;
        the_last_pair_counts(rest, i, key);
        if map_of(rest).contains_key(key) {
            let k = choose|k: int| 0 <= k < rest.len() && (#[trigger] rest[k]).0@ == key;
            assert(s[k].0@ == key);
        }
        if exists|k: int| 0 <= k < s.len() && (#[trigger] s[k]).0@ == key {
            let k = choose|k: int| 0 <= k < s.len() && (#[trigger] s[k]).0@ == key;
            if k < last {
                assert(rest[k].0@ == key);
            }
        }
        if 0 <= i < last && (forall|k: int| i < k < s.len() ==> (#[trigger] s[k]).0@ != key) {
            assert(rest[i] == s[i]);
            assert(s[last].0@ != key);
            assert forall|k: int| i < k < rest.len() implies (#[trigger] rest[k]).0@ != key by {
                assert(rest[k] == s[k]);
            }
        }
    }
}

/// A listing of a map has each key of the map once, with its value, in text
/// order, and no other key.
pub proof fn listings_are_complete<V>(
    m: Map<Seq<char>, V>,
    listed: Seq<(&String, &V)>,
    i: int,
    j: int,
    key: Seq<char>,
)
    requires
        lists(m, listed),
    ensures
        listed.len() == m.len(),
        m.contains_key(key) <==> exists|k: int|
            0 <= k < listed.len() && #[trigger] listed[k].0@ == key,
        0 <= i < listed.len() ==> m.contains_key(listed[i].0@) && m[listed[i].0@] == *listed[i].1,
        0 <= i < j < listed.len() ==> text::text_less(listed[i].0@, listed[j].0@),
        0 <= i < j < listed.len() ==> listed[i].0@ != listed[j].0@,
{
    if 0 <= i < j < listed.len() {
        text::text_less_irreflexive(listed[i].0@);
    }
}

} // verus!
