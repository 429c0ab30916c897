//! Percent-encoding of text in IRIs and request paths.

use crate::text::is_alphanumeric;
use vstd::prelude::*;
use vstd::utf8::encode_utf8;

verus! {

/// Which bytes stand for themselves. Every other byte is written as `%` and two
/// hexadecimal digits.
pub enum Keep {
    /// ASCII letters and digits.
    Alphanumeric,
    /// ASCII letters and digits, `-`, `.`, `_` and `~`.
    Unreserved,
    /// What [`Keep::Unreserved`] keeps, and `@`.
    Segment,
}

pub open spec fn keeps(k: Keep, b: u8) -> bool {
    ||| (b < 128 && is_alphanumeric(b as char))
    ||| (!(k is Alphanumeric) && (b == 45 || b == 46 || b == 95 || b == 126))
    ||| (k is Segment && b == 64)
}

pub open spec fn upper_hex(n: int) -> char {
    if n < 10 {
        (48 + n) as char
    } else {
        (65 + n - 10) as char
    }
}

/// The three characters that stand for one byte.
pub open spec fn escaped_byte(b: u8) -> Seq<char> {
    seq!['%', upper_hex(b as int / 16), upper_hex(b as int % 16)]
}

/// `percent_encoding::percent_encode_byte`: the byte as `%` and two upper-case
/// hexadecimal digits.
pub assume_specification[ percent_encoding::percent_encode_byte ](byte: u8) -> (r: &'static str)
    ensures
        r@ == escaped_byte(byte),
;

/// The percent-encoding of bytes.
pub open spec fn percent_encode(bytes: Seq<u8>, k: Keep) -> Seq<char>
    decreases bytes.len(),
{
    if bytes.len() == 0 {
        Seq::empty()
    } else {
        let done = percent_encode(bytes.drop_last(), k);
        if keeps(k, bytes.last()) {
            done.push(bytes.last() as char)
        } else {
            done + escaped_byte(bytes.last())
        }
    }
}

/// The percent-encoding of the UTF-8 bytes of a text.
pub open spec fn encoded(s: Seq<char>, k: Keep) -> Seq<char> {
    percent_encode(encode_utf8(s), k)
}

pub fn percent_encoded(s: &str, k: &Keep) -> (r: String)
    ensures
        r@ == encoded(s@, *k),
{
    let bytes: &[u8] = s.as_bytes();
    let mut out: String = String::new();
    let mut i: usize = 0;
    assert(bytes@.take(0) =~= Seq::<u8>::empty());
    while i < bytes.len()
        invariant
            i <= bytes@.len(),
            out@ == percent_encode(bytes@.take(i as int), *k),
        decreases bytes@.len() - i,
    {
        let b: u8 = bytes[i];
        let extra: bool = match k {
            Keep::Alphanumeric => false,
            Keep::Unreserved => b == 45 || b == 46 || b == 95 || b == 126,
            Keep::Segment => b == 45 || b == 46 || b == 64 || b == 95 || b == 126,
        };
        assert(bytes@.take(i + 1).drop_last() =~= bytes@.take(i as int));
        if (b < 128 && crate::text::alphanumeric(b as char)) || extra {
            out.push(b as char);
        } else {
            out.append(percent_encoding::percent_encode_byte(b));
        }
        i = i + 1;
    }
    assert(bytes@.take(i as int) =~= bytes@);
    out
}

proof fn lemma_encoding_splits(a: Seq<u8>, b: Seq<u8>, k: Keep)
    ensures
        percent_encode(a + b, k) == percent_encode(a, k) + percent_encode(b, k),
    decreases b.len(),
{
    if b.len() == 0 {
        assert(a + b =~= a);
        assert(percent_encode(a, k) + percent_encode(b, k) =~= percent_encode(a, k));
    } else {
        assert((a + b).drop_last() =~= a + b.drop_last());
        lemma_encoding_splits(a, b.drop_last(), k);
        let last = if keeps(k, b.last()) {
            seq![b.last() as char]
        } else {
            escaped_byte(b.last())
        };
        assert(percent_encode(a + b, k) =~= percent_encode(a + b.drop_last(), k) + last);
        assert(percent_encode(b, k) =~= percent_encode(b.drop_last(), k) + last);
        assert(percent_encode(a + b, k) =~= percent_encode(a, k) + percent_encode(b, k));
    }
}

/// The encoding of one byte.
spec fn encoded_byte(b: u8, k: Keep) -> Seq<char> {
    if keeps(k, b) {
        seq![b as char]
    } else {
        escaped_byte(b)
    }
}

proof fn lemma_encoding_of_first(a: Seq<u8>, k: Keep)
    requires
        a.len() > 0,
    ensures
        percent_encode(a, k) == encoded_byte(a[0], k) + percent_encode(a.drop_first(), k),
{
    let first = seq![a[0]];
    assert(a =~= first + a.drop_first());
    lemma_encoding_splits(first, a.drop_first(), k);
    assert(first.drop_last() =~= Seq::<u8>::empty());
    assert(percent_encode(first.drop_last(), k) =~= Seq::<char>::empty());
    assert(percent_encode(first, k) =~= encoded_byte(a[0], k));
}

/// Bytes that differ have encodings that differ.
pub proof fn lemma_encoding_is_injective(a: Seq<u8>, b: Seq<u8>, k: Keep)
    requires
        percent_encode(a, k) == percent_encode(b, k),
    ensures
        a == b,
    decreases a.len(),
{
    if a.len() > 0 {
        lemma_encoding_of_first(a, k);
    }
    if b.len() > 0 {
        lemma_encoding_of_first(b, k);
    }
    if a.len() == 0 || b.len() == 0 {
        assert(b.len() > 0 ==> encoded_byte(b[0], k).len() > 0);
        assert(a.len() > 0 ==> encoded_byte(a[0], k).len() > 0);
        assert(percent_encode(a, k).len() == 0);
        assert(a =~= b);
    } else {
        let x = percent_encode(a, k);
        let p = encoded_byte(a[0], k);
        let q = encoded_byte(b[0], k);
        assert(x[0] == p[0] && x[0] == q[0]);
        assert(keeps(k, a[0]) == keeps(k, b[0]));
        if !keeps(k, a[0]) {
            assert(x[1] == p[1] && x[1] == q[1]);
            assert(x[2] == p[2] && x[2] == q[2]);
            assert(a[0] as int / 16 == b[0] as int / 16);
            assert(a[0] as int % 16 == b[0] as int % 16);
        }
        assert(a[0] == b[0]);
        assert(x.skip(p.len() as int) =~= percent_encode(a.drop_first(), k));
        assert(x.skip(p.len() as int) =~= percent_encode(b.drop_first(), k));
        lemma_encoding_is_injective(a.drop_first(), b.drop_first(), k);
        assert(a =~= seq![a[0]] + a.drop_first());
        assert(b =~= seq![b[0]] + b.drop_first());
    }
}

/// Texts that differ have encodings that differ.
pub proof fn lemma_encoded_texts_differ(a: Seq<char>, b: Seq<char>, k: Keep)
    requires
        a != b,
    ensures
        encoded(a, k) != encoded(b, k),
{
    if encoded(a, k) == encoded(b, k) {
        lemma_encoding_is_injective(encode_utf8(a), encode_utf8(b), k);
        vstd::utf8::encode_utf8_decode_utf8(a);
        vstd::utf8::encode_utf8_decode_utf8(b);
    }
}

} // verus!
