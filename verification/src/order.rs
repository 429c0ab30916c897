//! The lexicographic order of texts, and sorting by it.

use crate::text::{chars_of, views};
use vstd::prelude::*;

verus! {

broadcast use crate::text::lemma_views_push;

/// Whether `a` stands before `b` in the lexicographic order by code point.
pub open spec fn before_text(a: Seq<char>, b: Seq<char>) -> bool
    decreases a.len(),
{
    if b.len() == 0 {
        false
    } else if a.len() == 0 {
        true
    } else if a[0] == b[0] {
        before_text(a.drop_first(), b.drop_first())
    } else {
        a[0] < b[0]
    }
}

/// No text stands before itself.
pub proof fn lemma_order_irreflexive(a: Seq<char>)
    ensures
        !before_text(a, a),
    decreases a.len(),
{
    if a.len() > 0 {
        lemma_order_irreflexive(a.drop_first());
    }
}

/// Of two texts that differ, one stands before the other, and only one.
pub proof fn lemma_order_total(a: Seq<char>, b: Seq<char>)
    ensures
        a == b || before_text(a, b) || before_text(b, a),
        !(before_text(a, b) && before_text(b, a)),
    decreases a.len(),
{
    if a.len() == 0 {
        if b.len() == 0 {
            assert(a =~= b);
        }
    } else if b.len() == 0 {
    } else if a[0] == b[0] {
        lemma_order_total(a.drop_first(), b.drop_first());
        if a.drop_first() == b.drop_first() {
            assert(a =~= seq![a[0]] + a.drop_first());
            assert(b =~= seq![b[0]] + b.drop_first());
        }
    }
}

/// The order of texts is transitive.
pub proof fn lemma_order_transitive(a: Seq<char>, b: Seq<char>, c: Seq<char>)
    requires
        before_text(a, b),
        before_text(b, c),
    ensures
        before_text(a, c),
    decreases a.len(),
{
    if a.len() > 0 && b.len() > 0 && c.len() > 0 && a[0] == b[0] && b[0] == c[0] {
        lemma_order_transitive(a.drop_first(), b.drop_first(), c.drop_first());
    }
}

/// Whether `a` stands before `b`.
pub fn precedes(a: &str, b: &str) -> (r: bool)
    ensures
        r == before_text(a@, b@),
{
    let x: Vec<char> = chars_of(a);
    let y: Vec<char> = chars_of(b);
    let mut i: usize = 0;
    assert(a@.skip(0) =~= a@);
    assert(b@.skip(0) =~= b@);
    while i < x.len() && i < y.len()
        invariant
            i <= x@.len(),
            i <= y@.len(),
            x@ == a@,
            y@ == b@,
            before_text(a@.skip(i as int), b@.skip(i as int)) == before_text(a@, b@),
        decreases x@.len() - i,
    {
        if x[i] != y[i] {
            return x[i] < y[i];
        }
        assert(a@.skip(i as int).drop_first() =~= a@.skip(i + 1));
        assert(b@.skip(i as int).drop_first() =~= b@.skip(i + 1));
        i = i + 1;
    }
    i < y.len()
}

/// Whether each text stands before every later one, so that none occurs twice.
pub open spec fn ascending(s: Seq<Seq<char>>) -> bool {
    forall|i: int, j: int|
        0 <= i < j < s.len() ==> before_text(#[trigger] s[i], #[trigger] s[j])
}

/// Whether `s` holds exactly the texts of `t`.
pub open spec fn same_texts(s: Seq<Seq<char>>, t: Seq<Seq<char>>) -> bool {
    forall|x: Seq<char>| s.contains(x) <==> t.contains(x)
}

/// Inserts `x` where it belongs; a text that is there already stays alone.
pub fn insert_sorted(v: &mut Vec<String>, x: &String)
    requires
        ascending(views(old(v)@)),
    ensures
        ascending(views(final(v)@)),
        same_texts(views(final(v)@), views(old(v)@).push(x@)),
{
    let mut i: usize = 0;
    while i < v.len() && precedes(&v[i], x)
        invariant
            i <= v@.len(),
            v@ == old(v)@,
            forall|k: int| 0 <= k < i ==> before_text(#[trigger] v@[k]@, x@),
        decreases v@.len() - i,
    {
        i = i + 1;
    }
    let ghost before = v@;
    if i < v.len() && v[i] == *x {
        assert forall|t: Seq<char>|
            views(before).contains(t) <==> views(before).push(x@).contains(t) by {
            if views(before).contains(t) {
                let k = choose|k: int| 0 <= k < views(before).len() && views(before)[k] == t;
                assert(views(before).push(x@)[k] == t);
            }
            if views(before).push(x@).contains(t) {
                let k = choose|k: int|
                    0 <= k < views(before).push(x@).len() && views(before).push(x@)[k] == t;
                if k == before.len() {
                    assert(views(before)[i as int] == t);
                } else {
                    assert(views(before)[k] == t);
                }
            }
        }
        return;
    }
    v.insert(i, x.clone());
    let ghost after = v@;
    proof {
        let a = views(after);
        let b = views(before);
        assert(after == before.insert(i as int, after[i as int]));
        assert(a[i as int] == x@);
        assert forall|m: int, n: int| 0 <= m < n < a.len() implies before_text(
            #[trigger] a[m],
            #[trigger] a[n],
        ) by {
            if m < i && n == i {
                assert(before_text(before[m]@, x@));
            } else if m == i {
                lemma_order_total(before[i as int]@, x@);
                if n > i + 1 {
                    assert(before_text(b[i as int], b[n - 1]));
                    lemma_order_transitive(x@, b[i as int], b[n - 1]);
                }
                assert(a[n] == b[n - 1]);
            } else {
                let m0 = if m < i { m } else { m - 1 };
                let n0 = if n < i { n } else { n - 1 };
                assert(a[m] == b[m0]);
                assert(a[n] == b[n0]);
                assert(before_text(b[m0], b[n0]));
            }
        }
        assert forall|t: Seq<char>| a.contains(t) <==> b.push(x@).contains(t) by {
            if a.contains(t) {
                let k = choose|k: int| 0 <= k < a.len() && a[k] == t;
                if k == i {
                    assert(b.push(x@)[b.len() as int] == t);
                } else {
                    let k0 = if k < i { k } else { k - 1 };
                    assert(b.push(x@)[k0] == t);
                }
            }
            if b.push(x@).contains(t) {
                let k = choose|k: int| 0 <= k < b.push(x@).len() && b.push(x@)[k] == t;
                if k == b.len() {
                    assert(a[i as int] == t);
                } else {
                    let k1 = if k < i { k } else { k + 1 };
                    assert(a[k1] == t);
                }
            }
        }
    }
}

/// The list in ascending order that holds the texts of `s`.
pub open spec fn listed(s: Seq<Seq<char>>) -> Seq<Seq<char>> {
    choose|t: Seq<Seq<char>>| ascending(t) && same_texts(t, s)
}

/// There is only one list in ascending order that holds the texts of another.
pub proof fn lemma_listed(s: Seq<Seq<char>>, t: Seq<Seq<char>>)
    requires
        ascending(t),
        same_texts(t, s),
    ensures
        listed(s) == t,
{
    let l = listed(s);
    assert(ascending(l) && same_texts(l, s));
    lemma_ascending_unique(l, t);
}

/// Sorts texts and drops repetitions.
pub fn sorted_texts(v: &Vec<String>) -> (r: Vec<String>)
    ensures
        ascending(views(r@)),
        same_texts(views(r@), views(v@)),
        views(r@) == listed(views(v@)),
{
    let mut out: Vec<String> = Vec::new();
    let mut i: usize = 0;
    proof {
        assert(views(out@) =~= views(v@).take(0));
    }
    while i < v.len()
        invariant
            i <= v@.len(),
            ascending(views(out@)),
            same_texts(views(out@), views(v@).take(i as int)),
        decreases v@.len() - i,
    {
        let ghost was = views(out@);
        insert_sorted(&mut out, &v[i]);
        proof {
            let t = views(v@).take(i as int);
            let x = v@[i as int]@;
            assert(views(v@).take(i + 1) =~= t.push(x));
            assert forall|y: Seq<char>| was.push(x).contains(y) <==> t.push(x).contains(y) by {
                lemma_push_contains(was, x, y);
                lemma_push_contains(t, x, y);
            }
        }
        i = i + 1;
    }
    assert(views(v@).take(i as int) =~= views(v@));
    proof {
        lemma_listed(views(v@), views(out@));
    }
    out
}

proof fn lemma_push_contains(s: Seq<Seq<char>>, x: Seq<char>, y: Seq<char>)
    ensures
        s.push(x).contains(y) <==> s.contains(y) || x == y,
{
    if s.contains(y) {
        let k = choose|k: int| 0 <= k < s.len() && s[k] == y;
        assert(s.push(x)[k] == y);
    }
    if x == y {
        assert(s.push(x)[s.len() as int] == y);
    }
    if s.push(x).contains(y) && x != y {
        let k = choose|k: int| 0 <= k < s.push(x).len() && s.push(x)[k] == y;
        assert(s[k] == y);
    }
}

/// A list in ascending order is determined by the texts it holds.
pub proof fn lemma_ascending_unique(s: Seq<Seq<char>>, t: Seq<Seq<char>>)
    requires
        ascending(s),
        ascending(t),
        same_texts(s, t),
    ensures
        s == t,
    decreases s.len(),
{
    if s.len() == 0 {
        if t.len() > 0 {
            assert(t.contains(t[0]));
            assert(s.contains(t[0]));
        }
        assert(s =~= t);
    } else {
        assert(s.contains(s.last()));
        assert(t.contains(s.last()));
        assert(t.contains(t.last()));
        assert(s.contains(t.last()));
        let i = choose|i: int| 0 <= i < t.len() && t[i] == s.last();
        let j = choose|j: int| 0 <= j < s.len() && s[j] == t.last();
        if i < t.len() - 1 && j < s.len() - 1 {
            assert(before_text(t[i], t[t.len() - 1]));
            assert(before_text(s[j], s[s.len() - 1]));
            lemma_order_total(s.last(), t.last());
            assert(false);
        }
        assert(s.last() == t.last());
        let s1 = s.drop_last();
        let t1 = t.drop_last();
        assert forall|x: Seq<char>| s1.contains(x) <==> t1.contains(x) by {
            lemma_drop_last_contains(s, x);
            lemma_drop_last_contains(t, x);
        }
        lemma_ascending_unique(s1, t1);
        assert(s =~= s1.push(s.last()));
        assert(t =~= t1.push(t.last()));
    }
}

proof fn lemma_drop_last_contains(s: Seq<Seq<char>>, x: Seq<char>)
    requires
        ascending(s),
        s.len() > 0,
    ensures
        s.drop_last().contains(x) <==> s.contains(x) && x != s.last(),
{
    if s.drop_last().contains(x) {
        let k = choose|k: int| 0 <= k < s.drop_last().len() && s.drop_last()[k] == x;
        assert(s[k] == x);
        assert(before_text(s[k], s[s.len() - 1]));
        lemma_order_irreflexive(x);
    }
    if s.contains(x) && x != s.last() {
        let k = choose|k: int| 0 <= k < s.len() && s[k] == x;
        assert(s.drop_last()[k] == x);
    }
}

} // verus!
