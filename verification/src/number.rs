//! Decimal and hexadecimal notation.

use crate::text::{chars_of, digit, is_digit};
use vstd::prelude::*;

verus! {

pub open spec fn digit_value(c: char) -> int {
    (c as u32) - ('0' as u32)
}

/// Whether `s` holds decimal digits only.
pub open spec fn all_digits(s: Seq<char>) -> bool {
    forall|i: int| 0 <= i < s.len() ==> is_digit(#[trigger] s[i])
}

/// The number that a run of decimal digits denotes.
pub open spec fn digits_value(s: Seq<char>) -> int
    decreases s.len(),
{
    if s.len() == 0 {
        0
    } else {
        digits_value(s.drop_last()) * 10 + digit_value(s.last())
    }
}

/// `s` after its sign.
pub open spec fn unsigned_part(s: Seq<char>) -> Seq<char> {
    if s.len() > 0 && (s[0] == '-' || s[0] == '+') {
        s.skip(1)
    } else {
        s
    }
}

/// The number that `s` denotes: an optional sign and at least one digit.
pub open spec fn signed_value(s: Seq<char>) -> Option<int> {
    let d = unsigned_part(s);
    if d.len() == 0 || !all_digits(d) {
        None
    } else if s[0] == '-' {
        Some(-digits_value(d))
    } else {
        Some(digits_value(d))
    }
}

/// The number that `s` denotes, when it is one of `i64`.
pub open spec fn i64_value(s: Seq<char>) -> Option<i64> {
    match signed_value(s) {
        Some(n) => if i64::MIN <= n <= i64::MAX {
            Some(n as i64)
        } else {
            None
        },
        None => None,
    }
}

proof fn lemma_value_grows(s: Seq<char>, i: int)
    requires
        all_digits(s),
        0 <= i <= s.len(),
    ensures
        0 <= digits_value(s.take(i)) <= digits_value(s),
    decreases s.len(),
{
    if i == s.len() {
        assert(s.take(i) =~= s);
        if s.len() > 0 {
            lemma_value_grows(s.drop_last(), s.len() - 1);
            assert(s.drop_last().take(s.len() - 1) =~= s.drop_last());
        }
    } else {
        lemma_value_grows(s.drop_last(), i);
        assert(s.drop_last().take(i) =~= s.take(i));
    }
}

proof fn lemma_value_step(s: Seq<char>, i: int)
    requires
        0 <= i < s.len(),
    ensures
        digits_value(s.take(i + 1)) == digits_value(s.take(i)) * 10 + digit_value(s[i]),
{
    assert(s.take(i + 1).drop_last() =~= s.take(i));
}

/// The value of the digits `cs[from..]`, unless it is above the magnitude of
/// `i64::MIN`.
fn magnitude(cs: &Vec<char>, from: usize, Ghost(d): Ghost<Seq<char>>) -> (r: Option<u64>)
    requires
        from <= cs@.len(),
        d == cs@.skip(from as int),
        all_digits(d),
    ensures
        match r {
            Some(m) => m == digits_value(d) && m <= 0x8000_0000_0000_0000,
            None => digits_value(d) > 0x8000_0000_0000_0000,
        },
{
    let n: usize = cs.len();
    let mut acc: u64 = 0;
    let mut j: usize = from;
    assert(d.take(0) =~= Seq::<char>::empty());
    while j < n
        invariant
            from <= j <= n,
            n == cs@.len(),
            d == cs@.skip(from as int),
            all_digits(d),
            acc == digits_value(d.take(j - from)),
            acc <= 0x8000_0000_0000_0000,
        decreases n - j,
    {
        let c: char = cs[j];
        proof {
            assert(d[j - from] == c);
            assert(is_digit(c));
            lemma_value_step(d, j - from);
            lemma_value_grows(d, j - from + 1);
        }
        let v: u64 = c as u64 - '0' as u64;
        let next: u128 = acc as u128 * 10 + v as u128;
        if next > 0x8000_0000_0000_0000 {
            return None;
        }
        acc = next as u64;
        j = j + 1;
    }
    assert(d.take(n - from) =~= d);
    Some(acc)
}

/// Reads an `i64` in decimal notation.
pub fn parse_i64(s: &str) -> (r: Option<i64>)
    ensures
        r == i64_value(s@),
{
    let cs: Vec<char> = chars_of(s);
    let n: usize = cs.len();
    let mut from: usize = 0;
    let mut negative: bool = false;
    if n > 0 && (cs[0] == '-' || cs[0] == '+') {
        negative = cs[0] == '-';
        from = 1;
    }
    let ghost d = unsigned_part(s@);
    assert(d =~= s@.skip(from as int));
    if from == n {
        return None;
    }
    let mut i: usize = from;
    while i < n
        invariant
            from <= i <= n,
            n == cs@.len(),
            cs@ == s@,
            d == s@.skip(from as int),
            d == unsigned_part(s@),
            forall|k: int| 0 <= k < i - from ==> is_digit(#[trigger] d[k]),
        decreases n - i,
    {
        if !digit(cs[i]) {
            assert(d[i - from] == cs@[i as int]);
            assert(!all_digits(d));
            return None;
        }
        i = i + 1;
    }
    assert(all_digits(d));
    let acc: u64 = match magnitude(&cs, from, Ghost(d)) {
        None => return None,
        Some(m) => m,
    };
    if negative {
        if acc == 0x8000_0000_0000_0000 {
            Some(i64::MIN)
        } else {
            Some(-(acc as i64))
        }
    } else if acc == 0x8000_0000_0000_0000 {
        None
    } else {
        Some(acc as i64)
    }
}

/// The number that `s` denotes without a minus sign, when it is one of `usize`.
pub open spec fn usize_value(s: Seq<char>) -> Option<usize> {
    if s.len() > 0 && s[0] == '-' {
        None
    } else {
        match signed_value(s) {
            Some(n) => if n <= usize::MAX {
                Some(n as usize)
            } else {
                None
            },
            None => None,
        }
    }
}

/// Reads a `usize` in decimal notation.
pub fn parse_usize(s: &str) -> (r: Option<usize>)
    ensures
        r == usize_value(s@),
{
    let cs: Vec<char> = chars_of(s);
    let n: usize = cs.len();
    if n > 0 && cs[0] == '-' {
        return None;
    }
    let from: usize = if n > 0 && cs[0] == '+' {
        1
    } else {
        0
    };
    let ghost d = unsigned_part(s@);
    assert(d =~= s@.skip(from as int));
    if from >= n {
        return None;
    }
    let mut acc: usize = 0;
    let mut fits: bool = true;
    let mut j: usize = from;
    assert(d.take(0) =~= Seq::<char>::empty());
    while j < n
        invariant
            from <= j <= n,
            n == cs@.len(),
            cs@ == s@,
            from <= 1,
            from < n,
            d == unsigned_part(s@),
            d == s@.skip(from as int),
            !(s@[0] == '-'),
            all_digits(d.take(j - from)),
            fits ==> acc == digits_value(d.take(j - from)),
            !fits ==> digits_value(d.take(j - from)) > usize::MAX,
        decreases n - j,
    {
        let c: char = cs[j];
        assert(d[j - from] == c);
        if !digit(c) {
            assert(!all_digits(d));
            return None;
        }
        proof {
            lemma_value_step(d, j - from);
            assert(d.take(j - from + 1) =~= d.take(j - from).push(c));
            lemma_value_grows(d.take(j - from), 0);
        }
        if fits {
            let v: u128 = c as u128 - '0' as u128;
            let next: u128 = acc as u128 * 10 + v;
            if next > usize::MAX as u128 {
                fits = false;
            } else {
                acc = next as usize;
            }
        }
        j = j + 1;
    }
    assert(d.take(n - from) =~= d);
    if fits {
        Some(acc)
    } else {
        None
    }
}


/// The decimal notation of a natural number.
pub open spec fn decimal(n: nat) -> Seq<char>
    decreases n,
{
    if n < 10 {
        seq![digit_char(n)]
    } else {
        decimal(n / 10).push(digit_char(n % 10))
    }
}

pub open spec fn digit_char(n: nat) -> char {
    (('0' as u32) + n) as char
}

/// The decimal notation of an integer.
pub open spec fn integer(n: int) -> Seq<char> {
    if n < 0 {
        seq!['-'] + decimal((-n) as nat)
    } else {
        decimal(n as nat)
    }
}

fn digit_of(n: u64) -> (r: char)
    requires
        n < 10,
    ensures
        r == digit_char(n as nat),
{
    (48u8 + n as u8) as char
}

/// Writes a natural number in decimal notation.
pub fn decimal_of(n: u64) -> (r: String)
    ensures
        r@ == decimal(n as nat),
    decreases n,
{
    if n < 10 {
        let mut out: String = String::new();
        out.push(digit_of(n));
        assert(out@ =~= decimal(n as nat));
        out
    } else {
        let mut out: String = decimal_of(n / 10);
        out.push(digit_of(n % 10));
        out
    }
}

/// Writes an integer in decimal notation.
pub fn integer_of(n: i64) -> (r: String)
    ensures
        r@ == integer(n as int),
{
    if n < 0 {
        let m: u64 = (-(n + 1)) as u64 + 1;
        let mut out: String = String::new();
        out.push('-');
        out.append(&decimal_of(m));
        assert(out@ =~= seq!['-'] + decimal(m as nat));
        out
    } else {
        decimal_of(n as u64)
    }
}

pub open spec fn hex_char(n: int) -> char {
    if n < 10 {
        (('0' as u32) + n) as char
    } else {
        (('a' as u32) + n - 10) as char
    }
}

/// The lower-case hexadecimal notation of bytes, two characters for each.
pub open spec fn hex(b: Seq<u8>) -> Seq<char>
    decreases b.len(),
{
    if b.len() == 0 {
        Seq::empty()
    } else {
        hex(b.drop_last()).push(hex_char(b.last() as int / 16)).push(
            hex_char(b.last() as int % 16),
        )
    }
}

fn hex_of(n: u8) -> (r: char)
    requires
        n < 16,
    ensures
        r == hex_char(n as int),
{
    if n < 10 {
        (48u8 + n) as char
    } else {
        (97u8 + (n - 10)) as char
    }
}

pub fn hex_string(b: &[u8]) -> (r: String)
    ensures
        r@ == hex(b@),
{
    let mut out: String = String::new();
    let mut i: usize = 0;
    assert(b@.take(0) =~= Seq::<u8>::empty());
    while i < b.len()
        invariant
            i <= b@.len(),
            out@ == hex(b@.take(i as int)),
        decreases b@.len() - i,
    {
        out.push(hex_of(b[i] / 16));
        out.push(hex_of(b[i] % 16));
        assert(b@.take(i + 1).drop_last() =~= b@.take(i as int));
        i = i + 1;
    }
    assert(b@.take(i as int) =~= b@);
    out
}

// ---------------------------------------------------------------------------
// The notation of floating-point literals

/// The number of digits that `s` has from index `i` on without a break.
pub open spec fn digit_run(s: Seq<char>, i: int) -> int
    decreases s.len() - i,
{
    if 0 <= i < s.len() && is_digit(s[i]) {
        1 + digit_run(s, i + 1)
    } else {
        0
    }
}

/// Whether `s` from index `i` on is nothing, or an exponent: `e` or `E`, an
/// optional sign and at least one digit.
pub open spec fn ends_or_exponent(s: Seq<char>, i: int) -> bool {
    if i >= s.len() {
        i == s.len()
    } else if s[i] == 'e' || s[i] == 'E' {
        let j = if i + 1 < s.len() && (s[i + 1] == '+' || s[i + 1] == '-') {
            i + 2
        } else {
            i + 1
        };
        digit_run(s, j) > 0 && j + digit_run(s, j) == s.len()
    } else {
        false
    }
}

/// Whether `s` is a decimal number: digits with an optional point before,
/// between or after them, and an optional exponent.
pub open spec fn is_decimal_literal(s: Seq<char>) -> bool {
    let a = digit_run(s, 0);
    if a < s.len() && s[a] == '.' {
        let b = digit_run(s, a + 1);
        a + b > 0 && ends_or_exponent(s, a + 1 + b)
    } else {
        a > 0 && ends_or_exponent(s, a)
    }
}

/// Whether the letters of `s`, in either case, spell `word` (given in lower case).
pub open spec fn spells(s: Seq<char>, word: Seq<char>) -> bool {
    s.len() == word.len() && forall|i: int|
        0 <= i < s.len() ==> crate::casing::ascii_lower(#[trigger] s[i]) == word[i]
}

/// Whether `s` is written as a floating-point literal: an optional sign, then a
/// decimal number, or `inf`, `infinity` or `nan` in any case.
pub open spec fn is_float_literal(s: Seq<char>) -> bool {
    let d = unsigned_part(s);
    ||| is_decimal_literal(d)
    ||| spells(d, "inf"@)
    ||| spells(d, "infinity"@)
    ||| spells(d, "nan"@)
}

fn run_from(s: &Vec<char>, i: usize) -> (r: usize)
    requires
        i <= s@.len(),
    ensures
        r as int == digit_run(s@, i as int),
        i + r <= s@.len(),
{
    let mut j: usize = i;
    while j < s.len() && digit(s[j])
        invariant
            i <= j <= s@.len(),
            digit_run(s@, i as int) == (j - i) + digit_run(s@, j as int),
        decreases s@.len() - j,
    {
        j = j + 1;
    }
    j - i
}

fn exponent_at(s: &Vec<char>, i: usize) -> (r: bool)
    requires
        i <= s@.len(),
    ensures
        r == ends_or_exponent(s@, i as int),
{
    let n: usize = s.len();
    if i == n {
        true
    } else if s[i] == 'e' || s[i] == 'E' {
        let j: usize = if n - i > 1 && (s[i + 1] == '+' || s[i + 1] == '-') {
            i + 2
        } else {
            i + 1
        };
        let k: usize = run_from(s, j);
        k > 0 && j + k == n
    } else {
        false
    }
}

fn spelled(s: &Vec<char>, word: &Vec<char>) -> (r: bool)
    ensures
        r == spells(s@, word@),
{
    if s.len() != word.len() {
        return false;
    }
    let mut i: usize = 0;
    while i < s.len()
        invariant
            i <= s@.len(),
            s@.len() == word@.len(),
            forall|k: int|
                0 <= k < i ==> crate::casing::ascii_lower(#[trigger] s@[k]) == word@[k],
        decreases s@.len() - i,
    {
        let c: char = s[i];
        let low: char = if 'A' <= c && c <= 'Z' {
            (c as u8 + 32) as char
        } else {
            c
        };
        assert(low == crate::casing::ascii_lower(c));
        if low != word[i] {
            return false;
        }
        i = i + 1;
    }
    true
}

/// Whether `s` is written as a floating-point literal.
pub fn float_literal(s: &str) -> (r: bool)
    ensures
        r == is_float_literal(s@),
{
    let all: Vec<char> = chars_of(s);
    let d: Vec<char> = if all.len() > 0 && (all[0] == '-' || all[0] == '+') {
        let mut rest: Vec<char> = Vec::new();
        let mut i: usize = 1;
        while i < all.len()
            invariant
                1 <= i <= all@.len(),
                rest@ == all@.subrange(1, i as int),
            decreases all@.len() - i,
        {
            rest.push(all[i]);
            assert(all@.subrange(1, i + 1) =~= all@.subrange(1, i as int).push(all@[i as int]));
            i = i + 1;
        }
        assert(rest@ =~= all@.skip(1));
        rest
    } else {
        all
    };
    assert(d@ == unsigned_part(s@));
    let a: usize = run_from(&d, 0);
    let number: bool = if a < d.len() && d[a] == '.' {
        let b: usize = run_from(&d, a + 1);
        (a > 0 || b > 0) && exponent_at(&d, a + 1 + b)
    } else {
        a > 0 && exponent_at(&d, a)
    };
    number || spelled(&d, &chars_of("inf")) || spelled(&d, &chars_of("infinity")) || spelled(
        &d,
        &chars_of("nan"),
    )
}

} // verus!
