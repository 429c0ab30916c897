//! Text operations over the sequence of characters of a string.
//!
//! Every function here is stated over `Seq<char>`, the view of `str` and
//! `String`, so that the parsers built on it can be specified without speaking
//! of byte offsets.

use vstd::prelude::*;

verus! {

/// `String::push`: appends one character to the end of the string.
pub assume_specification[ String::push ](s: &mut String, c: char)
    ensures
        final(s)@ == old(s)@.push(c),
;

/// The views of a list of strings.
pub open spec fn views(v: Seq<String>) -> Seq<Seq<char>> {
    v.map_values(|s: String| s@)
}

pub broadcast proof fn lemma_views_push(v: Seq<String>, s: String)
    ensures
        #[trigger] views(v.push(s)) == views(v).push(s@),
{
    assert(views(v.push(s)) =~= views(v).push(s@));
}

pub proof fn lemma_views_empty()
    ensures
        views(Seq::<String>::empty()) == Seq::<Seq<char>>::empty(),
{
    assert(views(Seq::<String>::empty()) =~= Seq::<Seq<char>>::empty());
}

/// Whether a string has no characters.
pub fn empty(s: &str) -> (r: bool)
    ensures
        r == (s@.len() == 0),
{
    s.is_empty()
}

/// Whether a list of strings holds a text.
pub fn has_item(v: &Vec<String>, x: &str) -> (r: bool)
    ensures
        r == views(v@).contains(x@),
{
    let mut i: usize = 0;
    while i < v.len()
        invariant
            i <= v@.len(),
            forall|k: int| 0 <= k < i ==> #[trigger] views(v@)[k] != x@,
        decreases v@.len() - i,
    {
        if same(&v[i], x) {
            assert(views(v@)[i as int] == x@);
            return true;
        }
        i = i + 1;
    }
    false
}

/// What a list holds after one more item.
pub proof fn lemma_push_contains(s: Seq<Seq<char>>, x: Seq<char>, y: Seq<char>)
    ensures
        s.push(x).contains(y) <==> s.contains(y) || x == y,
{
    if s.contains(y) {
        let k = choose|k: int| 0 <= k < s.len() && s[k] == y;
        assert(s.push(x)[k] == y);
    }
    if x == y {
        assert(s.push(x)[s.len() as int] == y);
    }
    if s.push(x).contains(y) {
        let k = choose|k: int| 0 <= k < s.push(x).len() && s.push(x)[k] == y;
        if k < s.len() {
            assert(s[k] == y);
        }
    }
}

/// A copy of a list of strings.
pub fn copied(v: &Vec<String>) -> (r: Vec<String>)
    ensures
        views(r@) == views(v@),
{
    let mut out: Vec<String> = Vec::new();
    let mut i: usize = 0;
    while i < v.len()
        invariant
            i <= v@.len(),
            views(out@) == views(v@).take(i as int),
        decreases v@.len() - i,
    {
        broadcast use lemma_views_push;

        out.push(v[i].clone());
        i = i + 1;
        assert(views(v@).take(i as int) =~= views(v@).take(i - 1).push(views(v@)[i - 1]));
    }
    assert(views(v@).take(i as int) =~= views(v@));
    out
}

/// The characters of a string, as a vector.
pub fn chars_of(s: &str) -> (r: Vec<char>)
    ensures
        r@ == s@,
{
    let mut out: Vec<char> = Vec::new();
    for c in it: s.chars()
        invariant
            out@ == it.seq().take(it.index() as int),
            it.seq() == s@,
    {
        out.push(c);
    }
    out
}

/// The string made of the characters `v[from..to]`.
pub fn slice_string(v: &Vec<char>, from: usize, to: usize) -> (r: String)
    requires
        from <= to <= v@.len(),
    ensures
        r@ == v@.subrange(from as int, to as int),
{
    let mut out: String = String::new();
    let mut i: usize = from;
    while i < to
        invariant
            from <= i <= to <= v@.len(),
            out@ == v@.subrange(from as int, i as int),
        decreases to - i,
    {
        out.push(v[i]);
        i = i + 1;
        assert(v@.subrange(from as int, i as int) =~= v@.subrange(from as int, i - 1).push(
            v@[i - 1],
        ));
    }
    out
}

/// A text as `{:?}` writes it: between quotation marks, with escapes.
pub uninterp spec fn debug_text(s: Seq<char>) -> Seq<char>;

/// `<str as std::fmt::Debug>::fmt`, through `format!`: the result is a function of
/// the text.
#[verifier::external_body]
pub(crate) fn debug_form(s: &str) -> (r: String)
    ensures
        r@ == debug_text(s@),
{
    format!("{:?}", s)
}

/// Whether two strings have the same characters.
pub fn same(a: &str, b: &str) -> (r: bool)
    ensures
        r == (a@ == b@),
{
    let x: String = a.to_owned();
    let y: String = b.to_owned();
    x == y
}

/// Concatenation of two strings.
pub fn cat2(a: &str, b: &str) -> (r: String)
    ensures
        r@ == a@ + b@,
{
    let mut out: String = a.to_owned();
    out.append(b);
    out
}

/// Concatenation of three strings.
pub fn cat3(a: &str, b: &str, c: &str) -> (r: String)
    ensures
        r@ == a@ + b@ + c@,
{
    let mut out: String = a.to_owned();
    out.append(b);
    out.append(c);
    out
}

/// Concatenation of four strings.
pub fn cat4(a: &str, b: &str, c: &str, d: &str) -> (r: String)
    ensures
        r@ == a@ + b@ + c@ + d@,
{
    let mut out: String = cat3(a, b, c);
    out.append(d);
    out
}

/// Concatenation of five strings.
pub fn cat5(a: &str, b: &str, c: &str, d: &str, e: &str) -> (r: String)
    ensures
        r@ == a@ + b@ + c@ + d@ + e@,
{
    let mut out: String = cat4(a, b, c, d);
    out.append(e);
    out
}

// ---------------------------------------------------------------------------
// Character classes

/// The characters with the Unicode property White_Space.
pub open spec fn is_blank(c: char) -> bool {
    let n = c as u32;
    ||| 0x09 <= n <= 0x0d
    ||| n == 0x20
    ||| n == 0x85
    ||| n == 0xa0
    ||| n == 0x1680
    ||| 0x2000 <= n <= 0x200a
    ||| n == 0x2028
    ||| n == 0x2029
    ||| n == 0x202f
    ||| n == 0x205f
    ||| n == 0x3000
}

pub fn blank(c: char) -> (r: bool)
    ensures
        r == is_blank(c),
{
    let n: u32 = c as u32;
    (0x09 <= n && n <= 0x0d) || n == 0x20 || n == 0x85 || n == 0xa0 || n == 0x1680 || (0x2000 <= n
        && n <= 0x200a) || n == 0x2028 || n == 0x2029 || n == 0x202f || n == 0x205f || n == 0x3000
}

pub open spec fn is_digit(c: char) -> bool {
    '0' <= c <= '9'
}

pub fn digit(c: char) -> (r: bool)
    ensures
        r == is_digit(c),
{
    '0' <= c && c <= '9'
}

/// ASCII letters and digits.
pub open spec fn is_alphanumeric(c: char) -> bool {
    ('0' <= c <= '9') || ('a' <= c <= 'z') || ('A' <= c <= 'Z')
}

pub fn alphanumeric(c: char) -> (r: bool)
    ensures
        r == is_alphanumeric(c),
{
    ('0' <= c && c <= '9') || ('a' <= c && c <= 'z') || ('A' <= c && c <= 'Z')
}

// ---------------------------------------------------------------------------
// Prefixes, suffixes and occurrences

pub open spec fn starts_with(s: Seq<char>, p: Seq<char>) -> bool {
    p.len() <= s.len() && s.take(p.len() as int) == p
}

pub open spec fn ends_with(s: Seq<char>, p: Seq<char>) -> bool {
    p.len() <= s.len() && s.skip(s.len() - p.len()) == p
}

/// Whether `p` stands in `s` at index `i`.
pub open spec fn occurs_at(s: Seq<char>, p: Seq<char>, i: int) -> bool {
    0 <= i && i + p.len() <= s.len() && s.subrange(i, i + p.len()) == p
}

/// The least index not before `from` at which `p` stands in `s`.
pub open spec fn find_from(s: Seq<char>, p: Seq<char>, from: nat) -> Option<nat>
    decreases s.len() - from,
{
    if from + p.len() > s.len() {
        None
    } else if occurs_at(s, p, from as int) {
        Some(from)
    } else if from >= s.len() {
        None
    } else {
        find_from(s, p, from + 1)
    }
}

/// The least index at which `p` stands in `s`.
pub open spec fn find(s: Seq<char>, p: Seq<char>) -> Option<nat> {
    find_from(s, p, 0)
}

/// Whether `p` stands somewhere in `s`.
pub open spec fn contains(s: Seq<char>, p: Seq<char>) -> bool {
    find(s, p) is Some
}

/// `find_from` returns the least occurrence, and misses none.
pub proof fn lemma_find_from(s: Seq<char>, p: Seq<char>, from: nat)
    ensures
        match find_from(s, p, from) {
            Some(i) => from <= i && occurs_at(s, p, i as int) && forall|j: int|
                from <= j < i ==> !occurs_at(s, p, j),
            None => forall|j: int| from <= j ==> !occurs_at(s, p, j),
        },
    decreases s.len() - from,
{
    if from + p.len() > s.len() {
    } else if occurs_at(s, p, from as int) {
    } else if from >= s.len() {
    } else {
        lemma_find_from(s, p, from + 1);
    }
}

/// Where a text stands and does not stand before, there it is found.
pub proof fn lemma_found(s: Seq<char>, p: Seq<char>, i: nat)
    requires
        occurs_at(s, p, i as int),
        forall|j: int| 0 <= j < i ==> !occurs_at(s, p, j),
    ensures
        find(s, p) == Some(i),
{
    lemma_find_from(s, p, 0);
}

/// What does not stand anywhere is not found.
pub proof fn lemma_not_found(s: Seq<char>, p: Seq<char>)
    requires
        forall|j: int| !occurs_at(s, p, j),
    ensures
        find(s, p) is None,
{
    lemma_find_from(s, p, 0);
}

fn matches_at(s: &Vec<char>, p: &Vec<char>, at: usize) -> (r: bool)
    requires
        at <= s@.len(),
    ensures
        r == occurs_at(s@, p@, at as int),
{
    if p.len() > s.len() - at {
        return false;
    }
    let mut i: usize = 0;
    while i < p.len()
        invariant
            i <= p@.len(),
            at + p.len() <= s.len(),
            forall|k: int| 0 <= k < i ==> s@[at + k] == p@[k],
        decreases p@.len() - i,
    {
        if s[at + i] != p[i] {
            assert(s@.subrange(at as int, at + p@.len())[i as int] != p@[i as int]);
            return false;
        }
        i = i + 1;
    }
    assert(s@.subrange(at as int, at + p@.len()) =~= p@);
    true
}

fn find_in(s: &Vec<char>, p: &Vec<char>, from: usize) -> (r: Option<usize>)
    requires
        from <= s@.len(),
    ensures
        r is Some <==> find_from(s@, p@, from as nat) is Some,
        r is Some ==> r->0 as nat == find_from(s@, p@, from as nat)->0,
{
    let mut i: usize = from;
    loop
        invariant
            from <= i <= s@.len(),
            find_from(s@, p@, from as nat) == find_from(s@, p@, i as nat),
        decreases s@.len() - i,
    {
        if p.len() > s.len() - i {
            return None;
        }
        if matches_at(s, p, i) {
            return Some(i);
        }
        if i >= s.len() {
            return None;
        }
        i = i + 1;
    }
}

/// The least index (in characters) at which `p` stands in `s`.
pub fn position(s: &str, p: &str) -> (r: Option<usize>)
    ensures
        r is Some <==> find(s@, p@) is Some,
        r is Some ==> r->0 as nat == find(s@, p@)->0,
{
    find_in(&chars_of(s), &chars_of(p), 0)
}

pub fn has_text(s: &str, p: &str) -> (r: bool)
    ensures
        r == contains(s@, p@),
{
    position(s, p).is_some()
}

pub fn has_prefix(s: &str, p: &str) -> (r: bool)
    ensures
        r == starts_with(s@, p@),
{
    let r: bool = matches_at(&chars_of(s), &chars_of(p), 0);
    assert(p@.len() <= s@.len() ==> s@.subrange(0, p@.len() as int) =~= s@.take(p@.len() as int));
    r
}

pub fn has_suffix(s: &str, p: &str) -> (r: bool)
    ensures
        r == ends_with(s@, p@),
{
    let cs: Vec<char> = chars_of(s);
    let cp: Vec<char> = chars_of(p);
    if cp.len() > cs.len() {
        return false;
    }
    let at: usize = cs.len() - cp.len();
    let r: bool = matches_at(&cs, &cp, at);
    assert(s@.subrange(at as int, at + p@.len()) =~= s@.skip(s@.len() - p@.len()));
    r
}

/// `s` without the prefix `p`, when it has that prefix.
pub open spec fn strip_prefix(s: Seq<char>, p: Seq<char>) -> Option<Seq<char>> {
    if starts_with(s, p) {
        Some(s.skip(p.len() as int))
    } else {
        None
    }
}

/// `s` without the suffix `p`, when it has that suffix.
pub open spec fn strip_suffix(s: Seq<char>, p: Seq<char>) -> Option<Seq<char>> {
    if ends_with(s, p) {
        Some(s.take(s.len() - p.len()))
    } else {
        None
    }
}

/// The view of an optional string.
pub open spec fn opt(o: Option<String>) -> Option<Seq<char>> {
    match o {
        Some(s) => Some(s@),
        None => None,
    }
}

pub fn without_prefix(s: &str, p: &str) -> (r: Option<String>)
    ensures
        opt(r) == strip_prefix(s@, p@),
{
    if has_prefix(s, p) {
        let cs: Vec<char> = chars_of(s);
        let n: usize = chars_of(p).len();
        let out: String = slice_string(&cs, n, cs.len());
        assert(out@ =~= s@.skip(p@.len() as int));
        Some(out)
    } else {
        None
    }
}

pub fn without_suffix(s: &str, p: &str) -> (r: Option<String>)
    ensures
        opt(r) == strip_suffix(s@, p@),
{
    if has_suffix(s, p) {
        let cs: Vec<char> = chars_of(s);
        let n: usize = chars_of(p).len();
        let out: String = slice_string(&cs, 0, cs.len() - n);
        assert(out@ =~= s@.take(s@.len() - p@.len()));
        Some(out)
    } else {
        None
    }
}

/// The text before and the text after the first occurrence of `p`.
pub open spec fn split_once(s: Seq<char>, p: Seq<char>) -> Option<(Seq<char>, Seq<char>)> {
    match find(s, p) {
        Some(i) => Some((s.take(i as int), s.skip((i + p.len()) as int))),
        None => None,
    }
}

pub fn cut_once(s: &str, p: &str) -> (r: Option<(String, String)>)
    ensures
        r is Some <==> split_once(s@, p@) is Some,
        r is Some ==> ((r->0).0@, (r->0).1@) == split_once(s@, p@)->0,
{
    let cs: Vec<char> = chars_of(s);
    let cp: Vec<char> = chars_of(p);
    match find_in(&cs, &cp, 0) {
        None => None,
        Some(i) => {
            proof {
                lemma_find_from(s@, p@, 0);
            }
            let n: usize = cs.len();
            let a: String = slice_string(&cs, 0, i);
            let b: String = slice_string(&cs, i + cp.len(), n);
            assert(a@ =~= s@.take(i as int));
            assert(b@ =~= s@.skip(i + p@.len()));
            Some((a, b))
        },
    }
}

/// The text before the first occurrence of `p`, or all of `s`.
pub open spec fn before(s: Seq<char>, p: Seq<char>) -> Seq<char> {
    match find(s, p) {
        Some(i) => s.take(i as int),
        None => s,
    }
}

pub fn head(s: &str, p: &str) -> (r: String)
    ensures
        r@ == before(s@, p@),
{
    match cut_once(s, p) {
        Some(parts) => parts.0,
        None => s.to_owned(),
    }
}

/// What stands between the first occurrence of `p` and the second (or the end).
pub open spec fn second_piece(s: Seq<char>, p: Seq<char>) -> Option<Seq<char>> {
    match split_once(s, p) {
        Some(parts) => Some(before(parts.1, p)),
        None => None,
    }
}

pub fn between(s: &str, p: &str) -> (r: Option<String>)
    ensures
        opt(r) == second_piece(s@, p@),
{
    match cut_once(s, p) {
        Some(parts) => Some(head(&parts.1, p)),
        None => None,
    }
}

/// `s` with every occurrence of `from`, read left to right, replaced by `to`.
pub open spec fn replace_all(s: Seq<char>, from: Seq<char>, to: Seq<char>) -> Seq<char>
    decreases s.len(),
{
    match find(s, from) {
        Some(i) => if from.len() == 0 || i + from.len() > s.len() {
            s
        } else {
            s.take(i as int) + to + replace_all(s.skip((i + from.len()) as int), from, to)
        },
        None => s,
    }
}

pub fn replaced(s: &str, from: &str, to: &str) -> (r: String)
    requires
        from@.len() > 0,
    ensures
        r@ == replace_all(s@, from@, to@),
{
    let mut out: String = String::new();
    let mut rest: String = s.to_owned();
    loop
        invariant
            from@.len() > 0,
            out@ + replace_all(rest@, from@, to@) == replace_all(s@, from@, to@),
        decreases rest@.len(),
    {
        match cut_once(&rest, from) {
            None => {
                out.append(&rest);
                return out;
            },
            Some(parts) => {
                proof {
                    lemma_find_from(rest@, from@, 0);
                }
                let ghost was = out@;
                out.append(&parts.0);
                out.append(to);
                assert(out@ + replace_all(parts.1@, from@, to@) =~= was + (parts.0@ + to@
                    + replace_all(parts.1@, from@, to@)));
                rest = parts.1;
            },
        }
    }
}

/// Where the text to replace does not stand, nothing changes.
pub proof fn lemma_nothing_replaced(s: Seq<char>, from: Seq<char>, to: Seq<char>)
    requires
        forall|j: int| !occurs_at(s, from, j),
    ensures
        replace_all(s, from, to) == s,
{
    lemma_not_found(s, from);
}

/// Where the text to replace stands once, the other text takes its place.
pub proof fn lemma_replaced_once(a: Seq<char>, from: Seq<char>, b: Seq<char>, to: Seq<char>)
    requires
        from.len() > 0,
        forall|j: int| occurs_at(a + from + b, from, j) ==> j == a.len(),
    ensures
        replace_all(a + from + b, from, to) == a + to + b,
{
    let s = a + from + b;
    assert(s.subrange(a.len() as int, (a.len() + from.len()) as int) =~= from);
    lemma_found(s, from, a.len());
    assert(s.take(a.len() as int) =~= a);
    assert(s.skip((a.len() + from.len()) as int) =~= b);
    assert forall|j: int| !occurs_at(b, from, j) by {
        if occurs_at(b, from, j) {
            let k: int = a.len() + from.len() + j;
            assert(s.subrange(k, k + from.len()) =~= b.subrange(j, j + from.len()));
            assert(occurs_at(s, from, k));
        }
    }
    lemma_nothing_replaced(b, from, to);
}

} // verus!
