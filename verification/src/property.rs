//! Operator properties: a value type that nests lists and maps, and a map
//! from property names to values whose keys never repeat.

use vstd::prelude::*;
use crate::text::same_text;

verus! {

broadcast use vstd::std_specs::vec::group_vec_axioms;

/// A property value. `Float` holds the IEEE-754 bits of an `f32`
/// (`f32::to_bits`), which is how this library carries a float it never
/// computes with.
#[derive(Debug)]
pub enum PropertyValue {
    Empty,
    String(String),
    Int(i32),
    Float(u32),
    Bool(bool),
    List(Vec<PropertyValue>),
    Dict(PropertyMap),
}

/// A map from property names to values, in insertion order, with no name
/// twice.
#[derive(Debug)]
pub struct PropertyMap {
    entries: Vec<(String, PropertyValue)>,
}

/// The mathematical value of a `PropertyValue`.
pub enum PropertyModel {
    Empty,
    Text(Seq<char>),
    Int(i32),
    Float(u32),
    Bool(bool),
    List(Seq<PropertyModel>),
    Dict(Seq<(Seq<char>, PropertyModel)>),
}

pub open spec fn value_model(v: PropertyValue) -> PropertyModel
    decreases v,
{
    match v {
        PropertyValue::Empty => PropertyModel::Empty,
        PropertyValue::String(s) => PropertyModel::Text(s@),
        PropertyValue::Int(n) => PropertyModel::Int(n),
        PropertyValue::Float(b) => PropertyModel::Float(b),
        PropertyValue::Bool(b) => PropertyModel::Bool(b),
        PropertyValue::List(items) => PropertyModel::List(
            Seq::new(
                items@.len(),
                |i: int|
                    if 0 <= i < items@.len() {
                        value_model(items@[i])
                    } else {
                        PropertyModel::Empty
                    },
            ),
        ),
        PropertyValue::Dict(m) => PropertyModel::Dict(map_model(m)),
    }
}

/// The entries of a `PropertyMap`, as (name, value) pairs in order.
pub closed spec fn map_model(m: PropertyMap) -> Seq<(Seq<char>, PropertyModel)>
    decreases m,
{
    Seq::new(
        m.entries@.len(),
        |i: int|
            if 0 <= i < m.entries@.len() {
                (m.entries@[i].0@, value_model(m.entries@[i].1))
            } else {
                (Seq::empty(), PropertyModel::Empty)
            },
    )
}

impl View for PropertyValue {
    type V = PropertyModel;

    open spec fn view(&self) -> PropertyModel {
        value_model(*self)
    }
}

impl View for PropertyMap {
    type V = Seq<(Seq<char>, PropertyModel)>;

    open spec fn view(&self) -> Seq<(Seq<char>, PropertyModel)> {
        map_model(*self)
    }
}

/// No name occurs twice among `e`.
pub open spec fn distinct_keys(e: Seq<(Seq<char>, PropertyModel)>) -> bool {
    forall|i: int, j: int| 0 <= i < j < e.len() ==> #[trigger] e[i].0 != #[trigger] e[j].0
}

/// The value stored under `key` in `e`.
pub open spec fn lookup(e: Seq<(Seq<char>, PropertyModel)>, key: Seq<char>) -> Option<PropertyModel>
    decreases e.len(),
{
    if e.len() == 0 {
        None
    } else if e.last().0 == key {
        Some(e.last().1)
    } else {
        lookup(e.drop_last(), key)
    }
}

/// `e` with `key` set to `v`: the entry is replaced in place when the name
/// is there, and appended otherwise.
pub open spec fn insert_entry(
    e: Seq<(Seq<char>, PropertyModel)>,
    key: Seq<char>,
    v: PropertyModel,
) -> Seq<(Seq<char>, PropertyModel)> {
    if exists|i: int| 0 <= i < e.len() && #[trigger] e[i].0 == key {
        let i = choose|i: int| 0 <= i < e.len() && #[trigger] e[i].0 == key;
        e.update(i, (key, v))
    } else {
        e.push((key, v))
    }
}

/// `e` without the entry named `key`; the others keep their order.
pub open spec fn remove_entry(e: Seq<(Seq<char>, PropertyModel)>, key: Seq<char>) -> Seq<
    (Seq<char>, PropertyModel),
> {
    e.filter(|p: (Seq<char>, PropertyModel)| p.0 != key)
}

pub proof fn lemma_lookup_index(e: Seq<(Seq<char>, PropertyModel)>, key: Seq<char>)
    requires
        distinct_keys(e),
    ensures
        (exists|i: int| 0 <= i < e.len() && #[trigger] e[i].0 == key) <==> lookup(e, key) is Some,
        forall|i: int| 0 <= i < e.len() && #[trigger] e[i].0 == key ==> lookup(e, key) == Some(
            e[i].1,
        ),
    decreases e.len(),
{
    if e.len() > 0 {
        let d = e.drop_last();
        assert(distinct_keys(d)) by {
            assert forall|i: int, j: int| 0 <= i < j < d.len() implies #[trigger] d[i].0
                != #[trigger] d[j].0 by {
                assert(d[i] == e[i] && d[j] == e[j]);
            }
        }
        lemma_lookup_index(d, key);
        if e.last().0 != key {
            assert forall|i: int| 0 <= i < e.len() && #[trigger] e[i].0 == key implies lookup(
                e,
                key,
            ) == Some(e[i].1) by {
                assert(i < d.len());
                assert(d[i] == e[i]);
            }
            if exists|i: int| 0 <= i < e.len() && #[trigger] e[i].0 == key {
                let i = choose|i: int| 0 <= i < e.len() && #[trigger] e[i].0 == key;
                assert(d[i] == e[i]);
            }
            if lookup(e, key) is Some {
                let i = choose|i: int| 0 <= i < d.len() && #[trigger] d[i].0 == key;
                assert(d[i] == e[i]);
            }
        } else {
            assert(e[e.len() - 1].0 == key);
        }
    }
}

/// Setting a name makes it read back the value set, leaves every other name
/// as it was, and keeps names distinct.
pub proof fn lemma_insert_entry(
    e: Seq<(Seq<char>, PropertyModel)>,
    key: Seq<char>,
    v: PropertyModel,
)
    requires
        distinct_keys(e),
    ensures
        distinct_keys(insert_entry(e, key, v)),
        lookup(insert_entry(e, key, v), key) == Some(v),
        forall|k: Seq<char>| k != key ==> #[trigger] lookup(insert_entry(e, key, v), k) == lookup(
            e,
            k,
        ),
{
    let r = insert_entry(e, key, v);
    if exists|i: int| 0 <= i < e.len() && #[trigger] e[i].0 == key {
        let i = choose|i: int| 0 <= i < e.len() && #[trigger] e[i].0 == key;
        assert(distinct_keys(r)) by {
            assert forall|a: int, b: int| 0 <= a < b < r.len() implies #[trigger] r[a].0
                != #[trigger] r[b].0 by {
                if a != i && b != i {
                    assert(r[a] == e[a] && r[b] == e[b]);
                }
            }
        }
        lemma_lookup_index(r, key);
        assert(r[i].0 == key);
        assert forall|k: Seq<char>| k != key implies #[trigger] lookup(r, k) == lookup(e, k) by {
            lemma_lookup_index(r, k);
            lemma_lookup_index(e, k);
            if exists|j: int| 0 <= j < e.len() && #[trigger] e[j].0 == k {
                let j = choose|j: int| 0 <= j < e.len() && #[trigger] e[j].0 == k;
                assert(r[j] == e[j]);
            }
            if exists|j: int| 0 <= j < r.len() && #[trigger] r[j].0 == k {
                let j = choose|j: int| 0 <= j < r.len() && #[trigger] r[j].0 == k;
                assert(r[j] == e[j]);
            }
        }
    } else {
        assert(distinct_keys(r)) by {
            assert forall|a: int, b: int| 0 <= a < b < r.len() implies #[trigger] r[a].0
                != #[trigger] r[b].0 by {
                if b < e.len() {
                    assert(r[a] == e[a] && r[b] == e[b]);
                } else {
                    assert(r[a] == e[a]);
                }
            }
        }
        assert(r.drop_last() =~= e);
        assert forall|k: Seq<char>| k != key implies #[trigger] lookup(r, k) == lookup(e, k) by {}
    }
}

impl PropertyMap {
    #[verifier::type_invariant]
    spec fn keys_distinct(self) -> bool {
        forall|i: int, j: int|
            0 <= i < j < self.entries@.len() ==> #[trigger] self.entries@[i].0@
                != #[trigger] self.entries@[j].0@
    }

    proof fn lemma_model(&self)
        requires
            self.keys_distinct(),
        ensures
            self@.len() == self.entries@.len(),
            forall|i: int|
                0 <= i < self.entries@.len() ==> #[trigger] self@[i] == (
                    self.entries@[i].0@,
                    self.entries@[i].1@,
                ),
            distinct_keys(self@),
    {
        assert forall|i: int, j: int| 0 <= i < j < self@.len() implies #[trigger] self@[i].0
            != #[trigger] self@[j].0 by {
            assert(self@[i].0 == self.entries@[i].0@);
            assert(self@[j].0 == self.entries@[j].0@);
        }
    }

    /// An empty map.
    pub fn new() -> (m: PropertyMap)
        ensures
            m@ == Seq::<(Seq<char>, PropertyModel)>::empty(),
    {
        let m = PropertyMap { entries: Vec::new() };
        proof {
            use_type_invariant(&m);
            m.lemma_model();
        }
        assert(m@ =~= Seq::<(Seq<char>, PropertyModel)>::empty());
        m
    }

    /// Number of entries (no name occurs twice among them).
    pub fn len(&self) -> (n: usize)
        ensures
            n == self@.len(),
            distinct_keys(self@),
    {
        proof {
            use_type_invariant(&*self);
            self.lemma_model();
        }
        self.entries.len()
    }

    /// The name of the `i`-th entry.
    pub fn key_at(&self, i: usize) -> (k: &String)
        requires
            i < self@.len(),
        ensures
            k@ == self@[i as int].0,
    {
        proof {
            use_type_invariant(&*self);
            self.lemma_model();
        }
        &self.entries[i].0
    }

    /// The value of the `i`-th entry.
    pub fn value_at(&self, i: usize) -> (v: &PropertyValue)
        requires
            i < self@.len(),
        ensures
            v@ == self@[i as int].1,
    {
        proof {
            use_type_invariant(&*self);
            self.lemma_model();
        }
        &self.entries[i].1
    }

    fn index_of(&self, key: &str) -> (r: Option<usize>)
        ensures
            match r {
                Some(i) => i < self@.len() && self@[i as int].0 == key@,
                None => forall|i: int| 0 <= i < self@.len() ==> #[trigger] self@[i].0 != key@,
            },
    {
        proof {
            use_type_invariant(&*self);
            self.lemma_model();
        }
        let mut i: usize = 0;
        while i < self.entries.len()
            invariant
                i <= self.entries@.len(),
                self@.len() == self.entries@.len(),
                forall|j: int|
                    0 <= j < self.entries@.len() ==> #[trigger] self@[j] == (
                        self.entries@[j].0@,
                        self.entries@[j].1@,
                    ),
                forall|j: int| 0 <= j < i ==> #[trigger] self@[j].0 != key@,
            decreases self.entries@.len() - i,
        {
            let k: &String = &self.entries[i].0;
            if same_text(k.as_str(), key) {
                return Some(i);
            }
            i = i + 1;
        }
        None
    }

    /// The value stored under `key`, if any.
    pub fn get(&self, key: &str) -> (r: Option<&PropertyValue>)
        ensures
            distinct_keys(self@),
            match r {
                Some(v) => lookup(self@, key@) == Some(v@),
                None => lookup(self@, key@) is None,
            },
    {
        proof {
            use_type_invariant(&*self);
            self.lemma_model();
            lemma_lookup_index(self@, key@);
        }
        match self.index_of(key) {
            Some(i) => Some(&self.entries[i].1),
            None => None,
        }
    }

    /// Whether `key` has an entry.
    pub fn contains_key(&self, key: &str) -> (b: bool)
        ensures
            b == (lookup(self@, key@) is Some),
    {
        self.get(key).is_some()
    }

    /// Sets `key` to `value`, and hands back the value it replaced.
    pub fn insert(&mut self, key: String, value: PropertyValue) -> (old_value: Option<PropertyValue>)
        ensures
            final(self)@ == insert_entry(old(self)@, key@, value@),
            distinct_keys(final(self)@),
            lookup(final(self)@, key@) == Some(value@),
            forall|k: Seq<char>| k != key@ ==> #[trigger] lookup(final(self)@, k) == lookup(old(self)@, k),
            match old_value {
                Some(v) => lookup(old(self)@, key@) == Some(v@),
                None => lookup(old(self)@, key@) is None,
            },
    {
        proof {
            use_type_invariant(&*self);
            self.lemma_model();
            lemma_lookup_index(self@, key@);
        }
        let ghost before = self@;
        let ghost kv = key@;
        let ghost vv = value@;
        let idx = self.index_of(key.as_str());
        let mut entries: Vec<(String, PropertyValue)> = Vec::new();
        std::mem::swap(&mut entries, &mut self.entries);
        assert(map_model(PropertyMap { entries }) == before);
        let ghost e = entries@;
        let result = match idx {
            Some(i) => {
                entries.push((key, value));
                let old_pair = entries.swap_remove(i);
                proof {
                    assert(entries@ =~= e.update(i as int, (entries@[i as int].0, entries@[i as int].1)));
                }
                Some(old_pair.1)
            },
            None => {
                entries.push((key, value));
                None
            },
        };
        proof {
            let target = insert_entry(before, kv, vv);
            lemma_insert_entry(before, kv, vv);
            let got = map_model(PropertyMap { entries });
            if let Some(i) = idx {
                assert(got =~= before.update(i as int, (kv, vv)));
                assert(before[i as int].0 == kv);
                assert(exists|j: int| 0 <= j < before.len() && #[trigger] before[j].0 == kv);
                let j = choose|j: int| 0 <= j < before.len() && #[trigger] before[j].0 == kv;
                assert(j == i);
            } else {
                assert(got =~= before.push((kv, vv)));
            }
            assert(got == target);
            assert forall|a: int, b: int| 0 <= a < b < entries@.len() implies #[trigger] entries@[a].0@
                != #[trigger] entries@[b].0@ by {
                assert(got[a].0 == entries@[a].0@);
                assert(got[b].0 == entries@[b].0@);
            }
        }
        self.entries = entries;
        result
    }

    /// Takes the entry named `key` out, and hands back its value.
    pub fn remove(&mut self, key: &str) -> (removed: Option<PropertyValue>)
        ensures
            final(self)@ == remove_entry(old(self)@, key@),
            distinct_keys(final(self)@),
            lookup(final(self)@, key@) is None,
            forall|k: Seq<char>| k != key@ ==> #[trigger] lookup(final(self)@, k) == lookup(old(self)@, k),
            match removed {
                Some(v) => lookup(old(self)@, key@) == Some(v@),
                None => lookup(old(self)@, key@) is None,
            },
    {
        proof {
            use_type_invariant(&*self);
            self.lemma_model();
            lemma_lookup_index(self@, key@);
            lemma_remove_entry(self@, key@);
        }
        let ghost before = self@;
        match self.index_of(key) {
            Some(i) => {
                let mut entries: Vec<(String, PropertyValue)> = Vec::new();
                std::mem::swap(&mut entries, &mut self.entries);
                let ghost e = entries@;
                let pair = entries.remove(i);
                proof {
                    lemma_remove_at(before, i as int, key@);
                    let got = map_model(PropertyMap { entries });
                    assert(got =~= before.remove(i as int));
                    assert forall|a: int, b: int| 0 <= a < b < entries@.len() implies #[trigger] entries@[a].0@
                        != #[trigger] entries@[b].0@ by {
                        assert(got[a].0 == entries@[a].0@);
                        assert(got[b].0 == entries@[b].0@);
                        assert(distinct_keys(before));
                        if a < i && b < i {
                            assert(before[a].0 != before[b].0);
                        } else if a < i {
                            assert(before[a].0 != before[b + 1].0);
                        } else {
                            assert(before[a + 1].0 != before[b + 1].0);
                        }
                    }
                }
                self.entries = entries;
                Some(pair.1)
            },
            None => {
                proof {
                    lemma_filter_keeps_all(before, key@);
                }
                None
            },
        }
    }
}

/// Taking a name out makes it read as absent, and leaves every other name
/// as it was.
pub proof fn lemma_remove_entry(e: Seq<(Seq<char>, PropertyModel)>, key: Seq<char>)
    ensures
        lookup(remove_entry(e, key), key) is None,
        forall|k: Seq<char>| k != key ==> #[trigger] lookup(remove_entry(e, key), k) == lookup(e, k),
    decreases e.len(),
{
    reveal_with_fuel(Seq::filter, 1);
    if e.len() > 0 {
        let d = e.drop_last();
        lemma_remove_entry(d, key);
        let rd = remove_entry(d, key);
        assert(e.drop_last() == d);
        if e.last().0 != key {
            assert(remove_entry(e, key) =~= rd.push(e.last()));
            assert(rd.push(e.last()).drop_last() =~= rd);
        } else {
            assert(remove_entry(e, key) =~= rd);
        }
        assert forall|k: Seq<char>| k != key implies #[trigger] lookup(remove_entry(e, key), k)
            == lookup(e, k) by {
            assert(lookup(rd, k) == lookup(d, k));
        }
    } else {
        assert(remove_entry(e, key) =~= e);
    }
}

proof fn lemma_filter_keeps_all(e: Seq<(Seq<char>, PropertyModel)>, key: Seq<char>)
    requires
        forall|i: int| 0 <= i < e.len() ==> #[trigger] e[i].0 != key,
    ensures
        remove_entry(e, key) == e,
    decreases e.len(),
{
    reveal_with_fuel(Seq::filter, 1);
    if e.len() > 0 {
        let d = e.drop_last();
        assert forall|i: int| 0 <= i < d.len() implies #[trigger] d[i].0 != key by {
            assert(d[i] == e[i]);
        }
        lemma_filter_keeps_all(d, key);
        assert(e.last().0 != key);
        assert(e =~= d.push(e.last()));
    }
}

proof fn lemma_remove_at(e: Seq<(Seq<char>, PropertyModel)>, i: int, key: Seq<char>)
    requires
        distinct_keys(e),
        0 <= i < e.len(),
        e[i].0 == key,
    ensures
        remove_entry(e, key) == e.remove(i),
    decreases e.len(),
{
    reveal_with_fuel(Seq::filter, 1);
    let d = e.drop_last();
    if i == e.len() - 1 {
        assert forall|j: int| 0 <= j < d.len() implies #[trigger] d[j].0 != key by {
            assert(d[j] == e[j]);
        }
        lemma_filter_keeps_all(d, key);
        assert(e.remove(i) =~= d);
    } else {
        assert(distinct_keys(d)) by {
            assert forall|a: int, b: int| 0 <= a < b < d.len() implies #[trigger] d[a].0
                != #[trigger] d[b].0 by {
                assert(d[a] == e[a] && d[b] == e[b]);
            }
        }
        assert(d[i] == e[i]);
        lemma_remove_at(d, i, key);
        assert(e.last().0 != key);
        assert(e.remove(i) =~= d.remove(i).push(e.last()));
    }
}

/// A copy of `v` with the same value.
pub fn copy_value(v: &PropertyValue) -> (r: PropertyValue)
    ensures
        r@ == v@,
    decreases v,
{
    match v {
        PropertyValue::Empty => PropertyValue::Empty,
        PropertyValue::String(s) => PropertyValue::String(s.clone()),
        PropertyValue::Int(n) => PropertyValue::Int(*n),
        PropertyValue::Float(b) => PropertyValue::Float(*b),
        PropertyValue::Bool(b) => PropertyValue::Bool(*b),
        PropertyValue::List(items) => {
            let mut out: Vec<PropertyValue> = Vec::new();
            let mut i: usize = 0;
            while i < items.len()
                invariant
                    *v == PropertyValue::List(*items),
                    i <= items@.len(),
                    out@.len() == i,
                    forall|k: int| 0 <= k < i ==> (#[trigger] out@[k])@ == items@[k]@,
                decreases items@.len() - i,
            {
                proof {
                    assert(decreases_to!(*items => items[i as int]));
                    assert(decreases_to!(*v => v->List_0));
                    assert(decreases_to!(*v => items[i as int]));
                }
                let c = copy_value(&items[i]);
                out.push(c);
                i = i + 1;
            }
            proof {
                let a = value_model(PropertyValue::List(out));
                let b = value_model(*v);
                assert(a matches PropertyModel::List(x) && b matches PropertyModel::List(y) && x
                    =~= y);
            }
            PropertyValue::List(out)
        },
        PropertyValue::Dict(m) => {
            proof {
                assert(decreases_to!(*v => *m));
            }
            PropertyValue::Dict(copy_map(m))
        },
    }
}

/// A copy of `m` with the same entries in the same order.
pub fn copy_map(m: &PropertyMap) -> (r: PropertyMap)
    ensures
        r@ == m@,
    decreases m,
{
    proof {
        use_type_invariant(&m);
        m.lemma_model();
    }
    let mut out: Vec<(String, PropertyValue)> = Vec::new();
    let mut i: usize = 0;
    while i < m.entries.len()
        invariant
            i <= m.entries@.len(),
            out@.len() == i,
            m@.len() == m.entries@.len(),
            distinct_keys(m@),
            forall|j: int|
                0 <= j < m.entries@.len() ==> #[trigger] m@[j] == (
                    m.entries@[j].0@,
                    m.entries@[j].1@,
                ),
            forall|k: int|
                0 <= k < i ==> (#[trigger] out@[k]).0@ == m.entries@[k].0@ && out@[k].1@
                    == m.entries@[k].1@,
        decreases m.entries@.len() - i,
    {
        proof {
            assert(decreases_to!(*m => m.entries));
            assert(decreases_to!(m.entries => m.entries@[i as int]));
            assert(decreases_to!(m.entries@[i as int] => m.entries@[i as int].1));
        }
        let k = m.entries[i].0.clone();
        let c = copy_value(&m.entries[i].1);
        out.push((k, c));
        i = i + 1;
    }
    proof {
        assert forall|a: int, b: int| 0 <= a < b < out@.len() implies #[trigger] out@[a].0@
            != #[trigger] out@[b].0@ by {
            assert(m@[a].0 != m@[b].0);
        }
    }
    let r = PropertyMap { entries: out };
    proof {
        use_type_invariant(&r);
        r.lemma_model();
        assert(r@ =~= m@);
    }
    r
}

impl Clone for PropertyValue {
    fn clone(&self) -> (r: Self)
        ensures
            r@ == self@,
    {
        copy_value(self)
    }
}

impl Clone for PropertyMap {
    fn clone(&self) -> (r: Self)
        ensures
            r@ == self@,
    {
        copy_map(self)
    }
}

} // verus!
