//! The order of versions of RPM packages.

use crate::number::{digit_value, digits_value};
use crate::order::{before_text, lemma_order_total, lemma_order_transitive, precedes};
use crate::text::{alphanumeric, chars_of, digit, is_alphanumeric, is_digit, slice_string};
use vstd::prelude::*;

verus! {

/// How one version stands to another.
#[derive(Debug, Clone, Copy, PartialEq, Eq, Structural)]
pub enum Order {
    Less,
    Equal,
    Greater,
}

/// How the second stands to the first.
pub open spec fn reversed(o: Order) -> Order {
    match o {
        Order::Less => Order::Greater,
        Order::Equal => Order::Equal,
        Order::Greater => Order::Less,
    }
}

/// Whether a character counts in a version. All others separate.
pub open spec fn counts(c: char) -> bool {
    is_alphanumeric(c) || c == '~' || c == '^'
}

/// A version from its next character that counts on.
pub open spec fn from_next(s: Seq<char>) -> Seq<char>
    decreases s.len(),
{
    if s.len() == 0 || counts(s[0]) {
        s
    } else {
        from_next(s.drop_first())
    }
}

/// How many digits a text starts with.
pub open spec fn digits_at_start(s: Seq<char>) -> nat
    decreases s.len(),
{
    if s.len() == 0 || !is_digit(s[0]) {
        0
    } else {
        1 + digits_at_start(s.drop_first())
    }
}

pub open spec fn is_letter(c: char) -> bool {
    is_alphanumeric(c) && !is_digit(c)
}

/// How many letters a text starts with.
pub open spec fn letters_at_start(s: Seq<char>) -> nat
    decreases s.len(),
{
    if s.len() == 0 || !is_letter(s[0]) {
        0
    } else {
        1 + letters_at_start(s.drop_first())
    }
}

pub open spec fn order_numbers(a: int, b: int) -> Order {
    if a < b {
        Order::Less
    } else if a > b {
        Order::Greater
    } else {
        Order::Equal
    }
}

pub open spec fn order_words(a: Seq<char>, b: Seq<char>) -> Order {
    if before_text(a, b) {
        Order::Less
    } else if before_text(b, a) {
        Order::Greater
    } else {
        Order::Equal
    }
}

/// What follows the separators is no longer than the whole, and starts with a
/// character that counts.
pub proof fn lemma_next_shorter(s: Seq<char>)
    ensures
        from_next(s).len() <= s.len(),
        from_next(s).len() > 0 ==> counts(from_next(s)[0]),
        from_next(from_next(s)) == from_next(s),
    decreases s.len(),
{
    if s.len() > 0 && !counts(s[0]) {
        lemma_next_shorter(s.drop_first());
    }
}

/// A run is part of the text, and there is one where the text starts with it.
pub proof fn lemma_runs(s: Seq<char>)
    ensures
        digits_at_start(s) <= s.len(),
        letters_at_start(s) <= s.len(),
        s.len() > 0 && is_digit(s[0]) ==> digits_at_start(s) > 0,
        s.len() > 0 && is_letter(s[0]) ==> letters_at_start(s) > 0,
        forall|i: int| 0 <= i < digits_at_start(s) ==> is_digit(#[trigger] s[i]),
    decreases s.len(),
{
    if s.len() > 0 {
        lemma_runs(s.drop_first());
        assert forall|i: int| 0 <= i < digits_at_start(s) implies is_digit(#[trigger] s[i]) by {
            if i > 0 {
                assert(s[i] == s.drop_first()[i - 1]);
            }
        }
    }
}

/// What a version goes on with, in ascending order: a tilde, nothing, a caret,
/// letters or digits.
pub open spec fn rank(s: Seq<char>) -> int {
    if s.len() == 0 {
        1
    } else if s[0] == '~' {
        0
    } else if s[0] == '^' {
        2
    } else if is_digit(s[0]) {
        4
    } else {
        3
    }
}

/// How many characters a version goes on with that belong together.
pub open spec fn part_len(s: Seq<char>) -> nat {
    if rank(s) == 1 {
        0
    } else if rank(s) == 4 {
        digits_at_start(s)
    } else if rank(s) == 3 {
        letters_at_start(s)
    } else {
        1
    }
}

/// The first part of a version.
pub open spec fn part(s: Seq<char>) -> Seq<char> {
    s.take(part_len(s) as int)
}

/// A version after its first part.
pub open spec fn rest(s: Seq<char>) -> Seq<char> {
    s.skip(part_len(s) as int)
}

/// How the first parts of two versions stand to each other: by what they are, then
/// digits as numbers and letters by their order.
pub open spec fn order_parts(x: Seq<char>, y: Seq<char>) -> Order {
    if rank(x) != rank(y) {
        order_numbers(rank(x), rank(y))
    } else if rank(x) == 4 {
        order_numbers(digits_value(part(x)), digits_value(part(y)))
    } else if rank(x) == 3 {
        order_words(part(x), part(y))
    } else {
        Order::Equal
    }
}

/// A part of a version that counts has characters, and is part of it.
pub proof fn lemma_part(s: Seq<char>)
    requires
        s.len() > 0 ==> counts(s[0]),
    ensures
        part_len(s) <= s.len(),
        s.len() > 0 ==> part_len(s) > 0,
{
    lemma_runs(s);
}

/// How two versions stand to each other: they are compared part by part, and the
/// first parts that differ decide. Characters that do not count separate parts.
pub open spec fn order_versions(a: Seq<char>, b: Seq<char>) -> Order
    decreases a.len() + b.len(),
{
    let x = from_next(a);
    let y = from_next(b);
    proof {
        lemma_next_shorter(a);
        lemma_next_shorter(b);
        lemma_part(x);
        lemma_part(y);
    }
    match order_parts(x, y) {
        Order::Equal => if x.len() == 0 || y.len() == 0 {
            Order::Equal
        } else {
            order_versions(rest(x), rest(y))
        },
        o => o,
    }
}

/// The order of versions does not depend on which one comes first.
pub proof fn lemma_order_of_versions_reverses(a: Seq<char>, b: Seq<char>)
    ensures
        order_versions(a, b) == reversed(order_versions(b, a)),
    decreases a.len() + b.len(),
{
    let x = from_next(a);
    let y = from_next(b);
    lemma_next_shorter(a);
    lemma_next_shorter(b);
    lemma_part(x);
    lemma_part(y);
    lemma_order_total(part(x), part(y));
    if x.len() > 0 && y.len() > 0 && order_parts(x, y) is Equal {
        lemma_order_of_versions_reverses(rest(x), rest(y));
    }
}

/// A version is the same as itself.
pub proof fn lemma_order_of_versions_reflexive(a: Seq<char>)
    ensures
        order_versions(a, a) == Order::Equal,
{
    lemma_order_of_versions_reverses(a, a);
}

proof fn lemma_parts_transitive(x: Seq<char>, y: Seq<char>, z: Seq<char>)
    requires
        !(order_parts(x, y) is Greater),
        !(order_parts(y, z) is Greater),
    ensures
        !(order_parts(x, z) is Greater),
        order_parts(x, z) is Equal <==> order_parts(x, y) is Equal && order_parts(y, z) is Equal,
{
    lemma_order_total(part(x), part(y));
    lemma_order_total(part(y), part(z));
    lemma_order_total(part(x), part(z));
    if before_text(part(x), part(y)) && before_text(part(y), part(z)) {
        lemma_order_transitive(part(x), part(y), part(z));
    }
}

/// The order of versions is transitive.
pub proof fn lemma_order_of_versions_transitive(a: Seq<char>, b: Seq<char>, c: Seq<char>)
    requires
        !(order_versions(a, b) is Greater),
        !(order_versions(b, c) is Greater),
    ensures
        !(order_versions(a, c) is Greater),
        order_versions(a, c) is Equal <==> order_versions(a, b) is Equal && order_versions(
            b,
            c,
        ) is Equal,
    decreases a.len() + b.len() + c.len(),
{
    let x = from_next(a);
    let y = from_next(b);
    let z = from_next(c);
    lemma_next_shorter(a);
    lemma_next_shorter(b);
    lemma_next_shorter(c);
    lemma_part(x);
    lemma_part(y);
    lemma_part(z);
    lemma_parts_transitive(x, y, z);
    if x.len() > 0 && y.len() > 0 && z.len() > 0 && order_parts(x, y) is Equal && order_parts(
        y,
        z,
    ) is Equal {
        lemma_order_of_versions_transitive(rest(x), rest(y), rest(z));
    }
}

/// How two builds stand to each other: by epoch, then by version, then by release.
pub open spec fn order_builds(
    epoch: i64,
    version: Seq<char>,
    release: Seq<char>,
    other_epoch: i64,
    other_version: Seq<char>,
    other_release: Seq<char>,
) -> Order {
    match order_numbers(epoch as int, other_epoch as int) {
        Order::Equal => match order_versions(version, other_version) {
            Order::Equal => order_versions(release, other_release),
            o => o,
        },
        o => o,
    }
}

fn next_at(cs: &Vec<char>, i: usize) -> (r: usize)
    requires
        i <= cs@.len(),
    ensures
        i <= r <= cs@.len(),
        cs@.skip(r as int) == from_next(cs@.skip(i as int)),
        r < cs@.len() ==> counts(cs@[r as int]),
{
    let mut k: usize = i;
    while k < cs.len() && !(alphanumeric(cs[k]) || cs[k] == '~' || cs[k] == '^')
        invariant
            i <= k <= cs@.len(),
            from_next(cs@.skip(i as int)) == from_next(cs@.skip(k as int)),
        decreases cs@.len() - k,
    {
        assert(cs@.skip(k as int).drop_first() =~= cs@.skip(k + 1));
        k = k + 1;
    }
    k
}

fn digits_from(cs: &Vec<char>, i: usize) -> (r: usize)
    requires
        i <= cs@.len(),
    ensures
        i <= r <= cs@.len(),
        r - i == digits_at_start(cs@.skip(i as int)),
{
    let mut k: usize = i;
    while k < cs.len() && digit(cs[k])
        invariant
            i <= k <= cs@.len(),
            digits_at_start(cs@.skip(i as int)) == (k - i) + digits_at_start(cs@.skip(k as int)),
        decreases cs@.len() - k,
    {
        assert(cs@.skip(k as int).drop_first() =~= cs@.skip(k + 1));
        k = k + 1;
    }
    k
}

fn letters_from(cs: &Vec<char>, i: usize) -> (r: usize)
    requires
        i <= cs@.len(),
    ensures
        i <= r <= cs@.len(),
        r - i == letters_at_start(cs@.skip(i as int)),
{
    let mut k: usize = i;
    while k < cs.len() && alphanumeric(cs[k]) && !digit(cs[k])
        invariant
            i <= k <= cs@.len(),
            letters_at_start(cs@.skip(i as int)) == (k - i) + letters_at_start(
                cs@.skip(k as int),
            ),
        decreases cs@.len() - k,
    {
        assert(cs@.skip(k as int).drop_first() =~= cs@.skip(k + 1));
        k = k + 1;
    }
    k
}

/// The value of the digits of `s`, as if zeros stood before them to make `n` of them,
/// up to the first `i`.
spec fn padded_value(s: Seq<char>, n: int, i: int) -> int {
    if i <= n - s.len() {
        0
    } else {
        digits_value(s.take(i - (n - s.len())))
    }
}

proof fn lemma_padded_step(s: Seq<char>, n: int, i: int)
    requires
        0 <= i < n,
        s.len() <= n,
    ensures
        padded_value(s, n, i + 1) == padded_value(s, n, i) * 10 + (if i < n - s.len() {
            0
        } else {
            digit_value(s[i - (n - s.len())])
        }),
{
    if i >= n - s.len() {
        let k = i - (n - s.len());
        let t = s.take(k + 1);
        assert(t.drop_last() =~= s.take(k));
        assert(t.last() == s[k]);
        assert(digits_value(t) == digits_value(s.take(k)) * 10 + digit_value(s[k]));
        assert(s.take(0) =~= Seq::<char>::empty());
        assert(digits_value(s.take(0)) == 0);
        assert(padded_value(s, n, i + 1) == digits_value(t));
    }
}

fn compare_digits(a: &Vec<char>, b: &Vec<char>) -> (r: Order)
    requires
        forall|i: int| 0 <= i < a@.len() ==> is_digit(#[trigger] a@[i]),
        forall|i: int| 0 <= i < b@.len() ==> is_digit(#[trigger] b@[i]),
    ensures
        r == order_numbers(digits_value(a@), digits_value(b@)),
{
    let n: usize = if a.len() < b.len() {
        b.len()
    } else {
        a.len()
    };
    let pad_a: usize = n - a.len();
    let pad_b: usize = n - b.len();
    let mut order: Order = Order::Equal;
    let mut i: usize = 0;
    assert(a@.take(0) =~= Seq::<char>::empty());
    assert(b@.take(0) =~= Seq::<char>::empty());
    while i < n
        invariant
            i <= n,
            a@.len() <= n,
            b@.len() <= n,
            pad_a == n - a@.len(),
            pad_b == n - b@.len(),
            forall|k: int| 0 <= k < a@.len() ==> is_digit(#[trigger] a@[k]),
            forall|k: int| 0 <= k < b@.len() ==> is_digit(#[trigger] b@[k]),
            order == order_numbers(
                padded_value(a@, n as int, i as int),
                padded_value(b@, n as int, i as int),
            ),
        decreases n - i,
    {
        proof {
            lemma_padded_step(a@, n as int, i as int);
            lemma_padded_step(b@, n as int, i as int);
        }
        let x: char = if i < pad_a {
            '0'
        } else {
            a[i - pad_a]
        };
        let y: char = if i < pad_b {
            '0'
        } else {
            b[i - pad_b]
        };
        if matches!(order, Order::Equal) {
            if x < y {
                order = Order::Less;
            } else if y < x {
                order = Order::Greater;
            }
        }
        i = i + 1;
    }
    assert(a@.take(a@.len() as int) =~= a@);
    assert(b@.take(b@.len() as int) =~= b@);
    order
}

fn compare_words(a: &str, b: &str) -> (r: Order)
    ensures
        r == order_words(a@, b@),
{
    if precedes(a, b) {
        Order::Less
    } else if precedes(b, a) {
        Order::Greater
    } else {
        Order::Equal
    }
}

/// The first part of a version, what it is, and where it ends.
struct Ranked {
    rank: u8,
    text: String,
    end: usize,
}

fn first_part(cs: &Vec<char>, i: usize) -> (r: Ranked)
    requires
        i <= cs@.len(),
        i < cs@.len() ==> counts(cs@[i as int]),
    ensures
        r.rank == rank(cs@.skip(i as int)),
        r.text@ == part(cs@.skip(i as int)),
        r.end == i + part_len(cs@.skip(i as int)),
        r.end <= cs@.len(),
{
    let ghost s = cs@.skip(i as int);
    proof {
        lemma_part(s);
    }
    if i >= cs.len() {
        assert(part(s) =~= Seq::<char>::empty());
        return Ranked { rank: 1, text: String::new(), end: i };
    }
    let (rank, end): (u8, usize) = if cs[i] == '~' {
        (0, i + 1)
    } else if cs[i] == '^' {
        (2, i + 1)
    } else if digit(cs[i]) {
        (4, digits_from(cs, i))
    } else {
        (3, letters_from(cs, i))
    };
    let text: String = slice_string(cs, i, end);
    assert(text@ =~= part(s));
    Ranked { rank, text, end }
}

fn compare_parts(
    p: &Ranked,
    q: &Ranked,
    Ghost(x): Ghost<Seq<char>>,
    Ghost(y): Ghost<Seq<char>>,
) -> (r: Order)
    requires
        p.rank == rank(x),
        p.text@ == part(x),
        q.rank == rank(y),
        q.text@ == part(y),
    ensures
        r == order_parts(x, y),
{
    if p.rank < q.rank {
        return Order::Less;
    }
    if p.rank > q.rank {
        return Order::Greater;
    }
    if p.rank == 4 {
        let a: Vec<char> = chars_of(&p.text);
        let b: Vec<char> = chars_of(&q.text);
        proof {
            lemma_runs(x);
            lemma_runs(y);
        }
        return compare_digits(&a, &b);
    }
    if p.rank == 3 {
        return compare_words(&p.text, &q.text);
    }
    Order::Equal
}

/// Compares two versions.
pub fn compare_versions(a: &str, b: &str) -> (r: Order)
    ensures
        r == order_versions(a@, b@),
{
    let xs: Vec<char> = chars_of(a);
    let ys: Vec<char> = chars_of(b);
    let mut i: usize = 0;
    let mut j: usize = 0;
    assert(xs@.skip(0) =~= a@);
    assert(ys@.skip(0) =~= b@);
    loop
        invariant
            i <= xs@.len(),
            j <= ys@.len(),
            order_versions(a@, b@) == order_versions(xs@.skip(i as int), ys@.skip(j as int)),
        decreases xs@.len() - i + ys@.len() - j,
    {
        i = next_at(&xs, i);
        j = next_at(&ys, j);
        let ghost x = xs@.skip(i as int);
        let ghost y = ys@.skip(j as int);
        proof {
            lemma_next_shorter(x);
            lemma_next_shorter(y);
        }
        let p: Ranked = first_part(&xs, i);
        let q: Ranked = first_part(&ys, j);
        proof {
            lemma_part(x);
            lemma_part(y);
            if x.len() > 0 && y.len() > 0 {
                assert(rest(x) =~= xs@.skip(p.end as int));
                assert(rest(y) =~= ys@.skip(q.end as int));
            }
        }
        let order: Order = compare_parts(&p, &q, Ghost(x), Ghost(y));
        if !matches!(order, Order::Equal) {
            return order;
        }
        if i >= xs.len() || j >= ys.len() {
            return Order::Equal;
        }
        i = p.end;
        j = q.end;
    }
}

/// Compares two builds.
pub fn compare_builds(
    epoch: i64,
    version: &str,
    release: &str,
    other_epoch: i64,
    other_version: &str,
    other_release: &str,
) -> (r: Order)
    ensures
        r == order_builds(
            epoch,
            version@,
            release@,
            other_epoch,
            other_version@,
            other_release@,
        ),
{
    if epoch < other_epoch {
        return Order::Less;
    }
    if epoch > other_epoch {
        return Order::Greater;
    }
    let order: Order = compare_versions(version, other_version);
    if matches!(order, Order::Equal) {
        compare_versions(release, other_release)
    } else {
        order
    }
}

} // verus!
