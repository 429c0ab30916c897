//! Splitting text: separators, words, lines, trimming and joining.

use crate::text::{blank, chars_of, is_blank, lemma_views_empty, slice_string, views};
use vstd::prelude::*;

verus! {

broadcast use crate::text::lemma_views_push;

/// A class of separator characters.
pub enum Sep {
    /// One character.
    Is(char),
    /// White space.
    Blank,
    /// Any of three characters.
    AnyOf(char, char, char),
}

/// Whether `c` separates.
pub open spec fn separates(sep: Sep, c: char) -> bool {
    match sep {
        Sep::Is(x) => c == x,
        Sep::Blank => is_blank(c),
        Sep::AnyOf(x, y, z) => c == x || c == y || c == z,
    }
}

fn hits(sep: &Sep, c: char) -> (r: bool)
    ensures
        r == separates(*sep, c),
{
    match sep {
        Sep::Is(x) => c == *x,
        Sep::Blank => blank(c),
        Sep::AnyOf(x, y, z) => c == *x || c == *y || c == *z,
    }
}

/// The pieces of `s` between separators: one more than there are separators.
pub open spec fn pieces(s: Seq<char>, sep: Sep) -> Seq<Seq<char>>
    decreases s.len(),
{
    if s.len() == 0 {
        seq![Seq::empty()]
    } else {
        let done = pieces(s.drop_last(), sep);
        if separates(sep, s.last()) {
            done.push(Seq::empty())
        } else {
            done.drop_last().push(done.last().push(s.last()))
        }
    }
}

/// There is always at least one piece.
pub proof fn lemma_pieces_nonempty(s: Seq<char>, sep: Sep)
    ensures
        pieces(s, sep).len() > 0,
    decreases s.len(),
{
    if s.len() > 0 {
        lemma_pieces_nonempty(s.drop_last(), sep);
    }
}

proof fn lemma_pieces_step(s: Seq<char>, sep: Sep, i: int)
    requires
        0 <= i < s.len(),
    ensures
        s.take(i + 1).drop_last() == s.take(i),
        s.take(i + 1).last() == s[i],
        pieces(s.take(i), sep).len() > 0,
{
    assert(s.take(i + 1).drop_last() =~= s.take(i));
    lemma_pieces_nonempty(s.take(i), sep);
}

/// Splits at every separator, keeping empty pieces.
pub fn split(s: &str, sep: &Sep) -> (r: Vec<String>)
    ensures
        views(r@) == pieces(s@, *sep),
        r@.len() > 0,
{
    let cs: Vec<char> = chars_of(s);
    let mut done: Vec<String> = Vec::new();
    let mut cur: String = String::new();
    let mut i: usize = 0;
    proof {
        lemma_views_empty();
        assert(cs@.take(0) =~= Seq::<char>::empty());
        assert(views(done@).push(cur@) =~= seq![Seq::<char>::empty()]);
    }
    while i < cs.len()
        invariant
            i <= cs@.len(),
            cs@ == s@,
            views(done@).push(cur@) == pieces(s@.take(i as int), *sep),
        decreases cs@.len() - i,
    {
        proof {
            lemma_pieces_step(s@, *sep, i as int);
            assert(views(done@).push(cur@).drop_last() =~= views(done@));
            assert(views(done@).push(cur@).last() == cur@);
        }
        if hits(sep, cs[i]) {
            done.push(cur);
            cur = String::new();
        } else {
            cur.push(cs[i]);
        }
        i = i + 1;
    }
    assert(s@.take(i as int) =~= s@);
    done.push(cur);
    done
}

/// The pieces that are not empty.
pub open spec fn nonempty(ps: Seq<Seq<char>>) -> Seq<Seq<char>>
    decreases ps.len(),
{
    if ps.len() == 0 {
        Seq::empty()
    } else if ps.last().len() == 0 {
        nonempty(ps.drop_last())
    } else {
        nonempty(ps.drop_last()).push(ps.last())
    }
}

/// The words of `s`: its maximal runs of characters that do not separate.
pub open spec fn words(s: Seq<char>, sep: Sep) -> Seq<Seq<char>> {
    nonempty(pieces(s, sep))
}

/// Splits at every separator and drops the empty pieces.
pub fn split_words(s: &str, sep: &Sep) -> (r: Vec<String>)
    ensures
        views(r@) == words(s@, *sep),
{
    let all: Vec<String> = split(s, sep);
    let mut out: Vec<String> = Vec::new();
    let mut i: usize = 0;
    proof {
        lemma_views_empty();
        assert(views(all@).take(0) =~= Seq::<Seq<char>>::empty());
    }
    while i < all.len()
        invariant
            i <= all@.len(),
            views(out@) == nonempty(views(all@).take(i as int)),
        decreases all@.len() - i,
    {
        proof {
            let v = views(all@);
            assert(v.take(i + 1).drop_last() =~= v.take(i as int));
            assert(v.take(i + 1).last() == all@[i as int]@);
        }
        if !all[i].as_str().is_empty() {
            out.push(all[i].clone());
        }
        i = i + 1;
    }
    assert(views(all@).take(i as int) =~= views(all@));
    out
}

/// The first word of `s`, if there is one.
pub open spec fn first_word(s: Seq<char>) -> Option<Seq<char>> {
    let w = words(s, Sep::Blank);
    if w.len() > 0 {
        Some(w[0])
    } else {
        None
    }
}

/// The first word of `s`, or `s` itself when it is blank.
pub open spec fn first_word_or_all(s: Seq<char>) -> Seq<char> {
    match first_word(s) {
        Some(w) => w,
        None => s,
    }
}

pub fn leading_word(s: &str) -> (r: Option<String>)
    ensures
        crate::text::opt(r) == first_word(s@),
{
    let w: Vec<String> = split_words(s, &Sep::Blank);
    if w.len() > 0 {
        assert(views(w@)[0] == w@[0]@);
        Some(w[0].clone())
    } else {
        None
    }
}

pub fn leading_word_or_all(s: &str) -> (r: String)
    ensures
        r@ == first_word_or_all(s@),
{
    match leading_word(s) {
        Some(w) => w,
        None => s.to_owned(),
    }
}

/// A line without the carriage return that ends it.
pub open spec fn chop_cr(l: Seq<char>) -> Seq<char> {
    if l.len() > 0 && l.last() == '\r' {
        l.drop_last()
    } else {
        l
    }
}

pub open spec fn chop_all(ls: Seq<Seq<char>>) -> Seq<Seq<char>>
    decreases ls.len(),
{
    if ls.len() == 0 {
        Seq::empty()
    } else {
        chop_all(ls.drop_last()).push(chop_cr(ls.last()))
    }
}

/// The lines of `s`. A line ends in a line feed, or in a carriage return and a
/// line feed; the last line may end with the text.
pub open spec fn lines_of(s: Seq<char>) -> Seq<Seq<char>> {
    let p = pieces(s, Sep::Is('\n'));
    let ended = chop_all(p.drop_last());
    if p.last().len() == 0 {
        ended
    } else {
        ended.push(p.last())
    }
}

/// The pieces of two texts that a separator joins are those of the one followed
/// by those of the other.
pub proof fn lemma_pieces_joined(a: Seq<char>, c: char, b: Seq<char>, sep: Sep)
    requires
        separates(sep, c),
    ensures
        pieces(a.push(c) + b, sep) == pieces(a, sep) + pieces(b, sep),
    decreases b.len(),
{
    if b.len() == 0 {
        assert(a.push(c) + b =~= a.push(c));
        assert(a.push(c).drop_last() =~= a);
        assert(pieces(a, sep).push(Seq::empty()) =~= pieces(a, sep) + seq![Seq::<char>::empty()]);
    } else {
        let s = a.push(c) + b;
        let rest = b.drop_last();
        assert(s.drop_last() =~= a.push(c) + rest);
        lemma_pieces_joined(a, c, rest, sep);
        lemma_pieces_nonempty(rest, sep);
        let done = pieces(a, sep) + pieces(rest, sep);
        assert(done.last() == pieces(rest, sep).last());
        assert(done.drop_last() =~= pieces(a, sep) + pieces(rest, sep).drop_last());
        assert(pieces(s, sep) =~= pieces(a, sep) + pieces(b, sep));
    }
}

proof fn lemma_chop_all_joined(x: Seq<Seq<char>>, y: Seq<Seq<char>>)
    ensures
        chop_all(x + y) == chop_all(x) + chop_all(y),
    decreases y.len(),
{
    if y.len() == 0 {
        assert(x + y =~= x);
    } else {
        assert((x + y).drop_last() =~= x + y.drop_last());
        lemma_chop_all_joined(x, y.drop_last());
    }
}

/// The lines of two texts with an empty line between them: those of the one, the
/// empty line, and those of the other. A text that ends its last line has one
/// more empty line there.
pub proof fn lemma_lines_joined(a: Seq<char>, b: Seq<char>)
    requires
        a.len() == 0 || a.last() != '\r',
    ensures
        ({
            let whole = lines_of(a.push('\n').push('\n') + b);
            let gap = seq![Seq::<char>::empty()];
            whole == lines_of(a) + gap + lines_of(b) || whole == lines_of(a) + gap + gap
                + lines_of(b)
        }),
{
    let sep = Sep::Is('\n');
    let gap = seq![Seq::<char>::empty()];
    let pa = pieces(a, sep);
    let pb = pieces(b, sep);
    lemma_pieces_nonempty(a, sep);
    lemma_pieces_nonempty(b, sep);
    let none = Seq::<char>::empty();
    assert(pieces(none, sep) =~= gap);
    lemma_pieces_joined(a, '\n', none, sep);
    assert(a.push('\n') + none =~= a.push('\n'));
    lemma_pieces_joined(a.push('\n'), '\n', b, sep);
    let whole = pieces(a.push('\n').push('\n') + b, sep);
    assert(whole == pa + gap + pb);
    assert(whole.last() == pb.last());
    assert(whole.drop_last() =~= pa + gap + pb.drop_last());
    lemma_chop_all_joined(pa + gap, pb.drop_last());
    lemma_chop_all_joined(pa, gap);
    assert(gap.drop_last() =~= Seq::<Seq<char>>::empty());
    assert(chop_all(gap.drop_last()) =~= Seq::<Seq<char>>::empty());
    assert(chop_all(gap) =~= gap);
    assert(chop_cr(pa.last()) == pa.last()) by {
        if pa.last().len() > 0 {
            lemma_pieces_nonempty(a.drop_last(), sep);
            assert(pa.last().last() == a.last());
        }
    }
    assert(chop_all(pa) == chop_all(pa.drop_last()).push(pa.last()));
    let joined = lines_of(a.push('\n').push('\n') + b);
    if pa.last().len() == 0 {
        assert(pa.last() =~= none);
        assert(joined =~= lines_of(a) + gap + gap + lines_of(b));
    } else {
        assert(joined =~= lines_of(a) + gap + lines_of(b));
    }
}

fn chop(l: &str) -> (r: String)
    ensures
        r@ == chop_cr(l@),
{
    let cs: Vec<char> = chars_of(l);
    let n: usize = cs.len();
    if n > 0 && cs[n - 1] == '\r' {
        let out: String = slice_string(&cs, 0, n - 1);
        assert(out@ =~= l@.drop_last());
        out
    } else {
        l.to_owned()
    }
}

pub fn lines(s: &str) -> (r: Vec<String>)
    ensures
        views(r@) == lines_of(s@),
{
    let all: Vec<String> = split(s, &Sep::Is('\n'));
    let mut out: Vec<String> = Vec::new();
    let last: usize = all.len() - 1;
    let mut i: usize = 0;
    proof {
        lemma_views_empty();
        assert(views(all@).take(0) =~= Seq::<Seq<char>>::empty());
    }
    while i < last
        invariant
            last == all@.len() - 1,
            i <= last,
            views(out@) == chop_all(views(all@).take(i as int)),
        decreases last - i,
    {
        proof {
            let v = views(all@);
            assert(v.take(i + 1).drop_last() =~= v.take(i as int));
            assert(v.take(i + 1).last() == all@[i as int]@);
        }
        out.push(chop(&all[i]));
        i = i + 1;
    }
    assert(views(all@).take(last as int) =~= views(all@).drop_last());
    assert(views(all@).last() == all@[last as int]@);
    if !all[last].as_str().is_empty() {
        out.push(all[last].clone());
    }
    out
}

/// `s` without the white space it starts with.
pub open spec fn trim_start(s: Seq<char>) -> Seq<char>
    decreases s.len(),
{
    if s.len() > 0 && is_blank(s[0]) {
        trim_start(s.drop_first())
    } else {
        s
    }
}

/// `s` without the white space it ends with.
pub open spec fn trim_end(s: Seq<char>) -> Seq<char>
    decreases s.len(),
{
    if s.len() > 0 && is_blank(s.last()) {
        trim_end(s.drop_last())
    } else {
        s
    }
}

/// `s` without the white space around it.
pub open spec fn trim(s: Seq<char>) -> Seq<char> {
    trim_end(trim_start(s))
}

pub fn trimmed_start(s: &str) -> (r: String)
    ensures
        r@ == trim_start(s@),
{
    let cs: Vec<char> = chars_of(s);
    let mut i: usize = 0;
    assert(s@.skip(0) =~= s@);
    while i < cs.len() && blank(cs[i])
        invariant
            i <= cs@.len(),
            cs@ == s@,
            trim_start(s@.skip(i as int)) == trim_start(s@),
        decreases cs@.len() - i,
    {
        assert(s@.skip(i as int).drop_first() =~= s@.skip(i + 1));
        i = i + 1;
    }
    let n: usize = cs.len();
    let out: String = slice_string(&cs, i, n);
    assert(out@ =~= s@.skip(i as int));
    out
}

pub fn trimmed_end(s: &str) -> (r: String)
    ensures
        r@ == trim_end(s@),
{
    let cs: Vec<char> = chars_of(s);
    let mut n: usize = cs.len();
    assert(s@.take(n as int) =~= s@);
    while n > 0 && blank(cs[n - 1])
        invariant
            n <= cs@.len(),
            cs@ == s@,
            trim_end(s@.take(n as int)) == trim_end(s@),
        decreases n,
    {
        assert(s@.take(n as int).drop_last() =~= s@.take(n - 1));
        n = n - 1;
    }
    let out: String = slice_string(&cs, 0, n);
    assert(out@ =~= s@.take(n as int));
    out
}

pub fn trimmed(s: &str) -> (r: String)
    ensures
        r@ == trim(s@),
{
    trimmed_end(&trimmed_start(s))
}

/// `s` without the run of `c` that it ends with.
pub open spec fn trim_end_char(s: Seq<char>, c: char) -> Seq<char>
    decreases s.len(),
{
    if s.len() > 0 && s.last() == c {
        trim_end_char(s.drop_last(), c)
    } else {
        s
    }
}

pub fn trimmed_end_char(s: &str, c: char) -> (r: String)
    ensures
        r@ == trim_end_char(s@, c),
{
    let cs: Vec<char> = chars_of(s);
    let mut n: usize = cs.len();
    assert(s@.take(n as int) =~= s@);
    while n > 0 && cs[n - 1] == c
        invariant
            n <= cs@.len(),
            cs@ == s@,
            trim_end_char(s@.take(n as int), c) == trim_end_char(s@, c),
        decreases n,
    {
        assert(s@.take(n as int).drop_last() =~= s@.take(n - 1));
        n = n - 1;
    }
    let out: String = slice_string(&cs, 0, n);
    assert(out@ =~= s@.take(n as int));
    out
}

/// `s` without the run of `c` that it starts with.
pub open spec fn trim_start_char(s: Seq<char>, c: char) -> Seq<char>
    decreases s.len(),
{
    if s.len() > 0 && s[0] == c {
        trim_start_char(s.drop_first(), c)
    } else {
        s
    }
}

pub fn trimmed_start_char(s: &str, c: char) -> (r: String)
    ensures
        r@ == trim_start_char(s@, c),
{
    let cs: Vec<char> = chars_of(s);
    let mut i: usize = 0;
    assert(s@.skip(0) =~= s@);
    while i < cs.len() && cs[i] == c
        invariant
            i <= cs@.len(),
            cs@ == s@,
            trim_start_char(s@.skip(i as int), c) == trim_start_char(s@, c),
        decreases cs@.len() - i,
    {
        assert(s@.skip(i as int).drop_first() =~= s@.skip(i + 1));
        i = i + 1;
    }
    let n: usize = cs.len();
    let out: String = slice_string(&cs, i, n);
    assert(out@ =~= s@.skip(i as int));
    out
}

/// The texts of `ps` with `sep` between each two of them.
pub open spec fn joined(ps: Seq<Seq<char>>, sep: Seq<char>) -> Seq<char>
    decreases ps.len(),
{
    if ps.len() == 0 {
        Seq::empty()
    } else if ps.len() == 1 {
        ps[0]
    } else {
        joined(ps.drop_last(), sep) + sep + ps.last()
    }
}

/// Joins `v[from..to]`.
pub fn join(v: &Vec<String>, from: usize, to: usize, sep: &str) -> (r: String)
    requires
        from <= to <= v@.len(),
    ensures
        r@ == joined(views(v@).subrange(from as int, to as int), sep@),
{
    let mut out: String = String::new();
    let mut i: usize = from;
    while i < to
        invariant
            from <= i <= to <= v@.len(),
            out@ == joined(views(v@).subrange(from as int, i as int), sep@),
        decreases to - i,
    {
        proof {
            let now = views(v@).subrange(from as int, i as int);
            let next = views(v@).subrange(from as int, i + 1);
            assert(next.drop_last() =~= now);
            assert(next.last() == v@[i as int]@);
            if i == from {
                assert(Seq::<char>::empty() + v@[i as int]@ =~= v@[i as int]@);
            }
        }
        if i > from {
            out.append(sep);
        }
        out.append(&v[i]);
        i = i + 1;
    }
    out
}

} // verus!
