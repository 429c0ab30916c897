//! Maps from text to values that remember the order in which keys came.

use crate::text::views;
use vstd::prelude::*;

verus! {

/// A list of texts.
pub struct Texts {
    pub items: Vec<String>,
}

impl View for Texts {
    type V = Seq<Seq<char>>;

    open spec fn view(&self) -> Seq<Seq<char>> {
        views(self.items@)
    }
}

/// A map from text to `V`. Keys are distinct and keep the order of their first
/// insertion.
pub struct TextMap<V: View> {
    entries: Vec<(String, V)>,
}

/// The map that a list of entries denotes.
pub open spec fn as_map<V: View>(e: Seq<(Seq<char>, V::V)>) -> Map<Seq<char>, V::V>
    decreases e.len(),
{
    if e.len() == 0 {
        Map::empty()
    } else {
        as_map::<V>(e.drop_last()).insert(e.last().0, e.last().1)
    }
}

/// The entries with `k` bound to `v`: in place of its entry where it has one, at
/// the end otherwise.
pub open spec fn put<T>(e: Seq<(Seq<char>, T)>, k: Seq<char>, v: T) -> Seq<(Seq<char>, T)>
    decreases e.len(),
{
    if e.len() == 0 {
        seq![(k, v)]
    } else if e[0].0 == k {
        e.update(0, (k, v))
    } else {
        seq![e[0]] + put(e.skip(1), k, v)
    }
}

proof fn lemma_put_at<T>(e: Seq<(Seq<char>, T)>, k: Seq<char>, v: T, i: int)
    requires
        0 <= i < e.len(),
        e[i].0 == k,
        forall|j: int| 0 <= j < i ==> (#[trigger] e[j]).0 != k,
    ensures
        put(e, k, v) == e.update(i, (k, v)),
    decreases i,
{
    if i > 0 {
        assert(e[0].0 != k);
        let d = e.skip(1);
        assert forall|j: int| 0 <= j < i - 1 implies (#[trigger] d[j]).0 != k by {
            assert(e[j + 1].0 != k);
        }
        lemma_put_at(d, k, v, i - 1);
        assert(seq![e[0]] + d.update(i - 1, (k, v)) =~= e.update(i, (k, v)));
    }
}

proof fn lemma_put_new<T>(e: Seq<(Seq<char>, T)>, k: Seq<char>, v: T)
    requires
        forall|j: int| 0 <= j < e.len() ==> (#[trigger] e[j]).0 != k,
    ensures
        put(e, k, v) == e.push((k, v)),
    decreases e.len(),
{
    if e.len() > 0 {
        assert(e[0].0 != k);
        let d = e.skip(1);
        assert forall|j: int| 0 <= j < d.len() implies (#[trigger] d[j]).0 != k by {
            assert(e[j + 1].0 != k);
        }
        lemma_put_new(d, k, v);
        assert(seq![e[0]] + d.push((k, v)) =~= e.push((k, v)));
    } else {
        assert(put(e, k, v) =~= e.push((k, v)));
    }
}

/// Whether no key occurs twice.
pub open spec fn distinct_keys<T>(e: Seq<(Seq<char>, T)>) -> bool {
    forall|i: int, j: int|
        0 <= i < j < e.len() ==> (#[trigger] e[i]).0 != (#[trigger] e[j]).0
}

proof fn lemma_as_map_dom<V: View>(e: Seq<(Seq<char>, V::V)>, k: Seq<char>)
    ensures
        as_map::<V>(e).contains_key(k) <==> exists|i: int| 0 <= i < e.len() && (#[trigger] e[i]).0 == k,
    decreases e.len(),
{
    if e.len() > 0 {
        let d = e.drop_last();
        lemma_as_map_dom::<V>(d, k);
        if as_map::<V>(e).contains_key(k) {
            if e.last().0 == k {
                assert(e[e.len() - 1].0 == k);
            } else {
                let i = choose|i: int| 0 <= i < d.len() && (#[trigger] d[i]).0 == k;
                assert(e[i].0 == k);
            }
        }
        if exists|i: int| 0 <= i < e.len() && (#[trigger] e[i]).0 == k {
            let i = choose|i: int| 0 <= i < e.len() && (#[trigger] e[i]).0 == k;
            if i < e.len() - 1 {
                assert(d[i].0 == k);
            }
        }
    }
}

proof fn lemma_as_map_value<V: View>(e: Seq<(Seq<char>, V::V)>, i: int)
    requires
        distinct_keys(e),
        0 <= i < e.len(),
    ensures
        as_map::<V>(e).contains_key(e[i].0),
        as_map::<V>(e)[e[i].0] == e[i].1,
    decreases e.len(),
{
    if i < e.len() - 1 {
        let d = e.drop_last();
        assert(distinct_keys(d)) by {
            assert forall|a: int, b: int| 0 <= a < b < d.len() implies (#[trigger] d[a]).0 != (
            #[trigger] d[b]).0 by {
                assert(e[a].0 != e[b].0);
            }
        }
        lemma_as_map_value::<V>(d, i);
        assert(e[i].0 != e[e.len() - 1].0);
        assert(d[i] == e[i]);
    }
}

proof fn lemma_as_map_update<V: View>(e: Seq<(Seq<char>, V::V)>, i: int, v: V::V)
    requires
        distinct_keys(e),
        0 <= i < e.len(),
    ensures
        distinct_keys(e.update(i, (e[i].0, v))),
        as_map::<V>(e.update(i, (e[i].0, v))) == as_map::<V>(e).insert(e[i].0, v),
    decreases e.len(),
{
    let u = e.update(i, (e[i].0, v));
    assert(distinct_keys(u)) by {
        assert forall|a: int, b: int| 0 <= a < b < u.len() implies (#[trigger] u[a]).0 != (
        #[trigger] u[b]).0 by {
            assert(e[a].0 != e[b].0);
        }
    }
    if i == e.len() - 1 {
        assert(u.drop_last() =~= e.drop_last());
        assert(as_map::<V>(u) =~= as_map::<V>(e).insert(e[i].0, v));
    } else {
        let d = e.drop_last();
        assert(distinct_keys(d)) by {
            assert forall|a: int, b: int| 0 <= a < b < d.len() implies (#[trigger] d[a]).0 != (
            #[trigger] d[b]).0 by {
                assert(e[a].0 != e[b].0);
            }
        }
        lemma_as_map_update::<V>(d, i, v);
        assert(u.drop_last() =~= d.update(i, (d[i].0, v)));
        assert(e[i].0 != e[e.len() - 1].0);
        assert(as_map::<V>(u) =~= as_map::<V>(e).insert(e[i].0, v));
    }
}

impl<V: View> TextMap<V> {
    /// The entries in order, by their views.
    pub closed spec fn order(&self) -> Seq<(Seq<char>, V::V)> {
        self.entries@.map_values(|e: (String, V)| (e.0@, e.1@))
    }

    #[verifier::type_invariant]
    spec fn keys_are_distinct(&self) -> bool {
        distinct_keys(self.order())
    }
}

impl<V: View> View for TextMap<V> {
    type V = Map<Seq<char>, V::V>;

    open spec fn view(&self) -> Map<Seq<char>, V::V> {
        as_map::<V>(self.order())
    }
}

impl<V: View> TextMap<V> {
    pub fn new() -> (r: Self)
        ensures
            r@ == Map::<Seq<char>, V::V>::empty(),
            r.order().len() == 0,
    {
        let r: TextMap<V> = TextMap { entries: Vec::new() };
        assert(r.order() =~= Seq::empty());
        r
    }

    fn slot(&self, key: &str) -> (r: Option<usize>)
        ensures
            match r {
                Some(i) => i < self.order().len() && self.order()[i as int].0 == key@ && forall|j: int|
                    0 <= j < i ==> (#[trigger] self.order()[j]).0 != key@,
                None => !self@.contains_key(key@),
            },
    {
        let mut i: usize = 0;
        while i < self.entries.len()
            invariant
                i <= self.entries@.len(),
                forall|k: int| 0 <= k < i ==> (#[trigger] self.order()[k]).0 != key@,
            decreases self.entries@.len() - i,
        {
            if crate::text::same(&self.entries[i].0, key) {
                return Some(i);
            }
            i = i + 1;
        }
        proof {
            lemma_as_map_dom::<V>(self.order(), key@);
        }
        None
    }

    pub fn get(&self, key: &str) -> (r: Option<&V>)
        ensures
            match r {
                Some(v) => self@.contains_key(key@) && self@[key@] == v@,
                None => !self@.contains_key(key@),
            },
    {
        proof {
            use_type_invariant(self);
        }
        match self.slot(key) {
            Some(i) => {
                proof {
                    lemma_as_map_value::<V>(self.order(), i as int);
                }
                Some(&self.entries[i].1)
            },
            None => None,
        }
    }

    pub fn contains_key(&self, key: &str) -> (r: bool)
        ensures
            r == self@.contains_key(key@),
    {
        self.get(key).is_some()
    }

    /// Binds `key` to `value`, in place of what it was bound to.
    pub fn insert(&mut self, key: String, value: V)
        ensures
            final(self)@ == old(self)@.insert(key@, value@),
            final(self).order() == put(old(self).order(), key@, value@),
    {
        proof {
            use_type_invariant(&*self);
        }
        let ghost was = self.order();
        let at: Option<usize> = self.slot(&key);
        let mut entries: Vec<(String, V)> = Vec::new();
        std::mem::swap(&mut entries, &mut self.entries);
        let ghost k = key@;
        let ghost v = value@;
        match at {
            Some(i) => {
                entries[i] = (key, value);
                let ghost now = entries@.map_values(|e: (String, V)| (e.0@, e.1@));
                proof {
                    assert(now =~= was.update(i as int, (k, v)));
                    lemma_as_map_update::<V>(was, i as int, v);
                    lemma_put_at(was, k, v, i as int);
                }
            },
            None => {
                entries.push((key, value));
                let ghost now = entries@.map_values(|e: (String, V)| (e.0@, e.1@));
                proof {
                    lemma_as_map_dom::<V>(was, k);
                    assert(now =~= was.push((k, v)));
                    assert(now.drop_last() =~= was);
                    lemma_put_new(was, k, v);
                    assert forall|a: int, b: int| 0 <= a < b < now.len() implies (#[trigger] now[a]).0
                        != (#[trigger] now[b]).0 by {
                        if b < was.len() {
                            assert(was[a].0 != was[b].0);
                        } else {
                            assert(was[a].0 != k);
                        }
                    }
                }
            },
        }
        self.entries = entries;
    }

    pub fn len(&self) -> (r: usize)
        ensures
            r == self.order().len(),
    {
        self.entries.len()
    }

    pub fn is_empty(&self) -> (r: bool)
        ensures
            r == (self@ == Map::<Seq<char>, V::V>::empty()),
            r == (self.order().len() == 0),
    {
        proof {
            if self.entries@.len() > 0 {
                use_type_invariant(self);
                lemma_as_map_value::<V>(self.order(), 0);
            } else {
                assert(self.order() =~= Seq::empty());
            }
        }
        self.entries.len() == 0
    }

    pub fn key_at(&self, i: usize) -> (r: &String)
        requires
            i < self.order().len(),
        ensures
            r@ == self.order()[i as int].0,
    {
        &self.entries[i].0
    }

    pub fn value_at(&self, i: usize) -> (r: &V)
        requires
            i < self.order().len(),
        ensures
            r@ == self.order()[i as int].1,
    {
        &self.entries[i].1
    }
}

/// The first value of a key that has several.
pub open spec fn first_value(m: Map<Seq<char>, Seq<Seq<char>>>, k: Seq<char>) -> Option<Seq<char>> {
    if m.contains_key(k) && m[k].len() > 0 {
        Some(m[k][0])
    } else {
        None
    }
}

pub fn first_of(m: &TextMap<Texts>, k: &str) -> (r: Option<String>)
    ensures
        crate::text::opt(r) == first_value(m@, k@),
{
    match m.get(k) {
        Some(list) => if list.items.len() > 0 {
            assert(list@[0] == list.items@[0]@);
            Some(list.items[0].clone())
        } else {
            None
        },
        None => None,
    }
}

/// The values of a key; none where it is absent.
pub open spec fn values_at(m: Map<Seq<char>, Seq<Seq<char>>>, k: Seq<char>) -> Seq<Seq<char>> {
    if m.contains_key(k) {
        m[k]
    } else {
        Seq::empty()
    }
}

pub fn values_for(m: &TextMap<Texts>, k: &str) -> (r: Vec<String>)
    ensures
        views(r@) == values_at(m@, k@),
{
    match m.get(k) {
        Some(list) => crate::text::copied(&list.items),
        None => {
            proof {
                crate::text::lemma_views_empty();
            }
            Vec::new()
        },
    }
}

/// The fields of one record.
pub type Fields = TextMap<String>;

/// The value of a field in a map of fields.
pub open spec fn field(m: Map<Seq<char>, Seq<char>>, k: Seq<char>) -> Option<Seq<char>> {
    if m.contains_key(k) {
        Some(m[k])
    } else {
        None
    }
}

/// The maps of records.
pub open spec fn field_maps(v: Seq<Fields>) -> Seq<Map<Seq<char>, Seq<char>>> {
    v.map_values(|m: Fields| m@)
}

pub proof fn lemma_field_maps_push(v: Seq<Fields>, m: Fields)
    ensures
        field_maps(v.push(m)) == field_maps(v).push(m@),
{
    assert(field_maps(v.push(m)) =~= field_maps(v).push(m@));
}

/// Putting a value binds its key, and leaves no key twice.
pub proof fn lemma_put_is_insert<V: View>(e: Seq<(Seq<char>, V::V)>, k: Seq<char>, v: V::V)
    requires
        distinct_keys(e),
    ensures
        distinct_keys(put(e, k, v)),
        as_map::<V>(put(e, k, v)) == as_map::<V>(e).insert(k, v),
{
    if exists|i: int| 0 <= i < e.len() && (#[trigger] e[i]).0 == k {
        let i = choose|i: int| 0 <= i < e.len() && (#[trigger] e[i]).0 == k;
        assert forall|j: int| 0 <= j < i implies (#[trigger] e[j]).0 != k by {
            assert(e[j].0 != e[i].0);
        }
        lemma_put_at(e, k, v, i);
        lemma_as_map_update::<V>(e, i, v);
    } else {
        lemma_put_new(e, k, v);
        let u = e.push((k, v));
        assert(u.drop_last() =~= e);
        assert forall|a: int, b: int| 0 <= a < b < u.len() implies (#[trigger] u[a]).0 != (
        #[trigger] u[b]).0 by {
            if b < e.len() {
                assert(e[a].0 != e[b].0);
            } else {
                assert(e[a].0 != k);
            }
        }
    }
}

} // verus!
