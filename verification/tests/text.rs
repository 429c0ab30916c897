use pg_collect::number::{float_literal, hex_string, parse_i64, parse_usize};
use pg_collect::order::precedes;
use pg_collect::percent::{percent_encoded, Keep};
use pg_collect::split::{
    join, leading_word, leading_word_or_all, lines, split, split_words, trimmed, trimmed_end,
    trimmed_end_char, trimmed_start, trimmed_start_char, Sep,
};
use pg_collect::text::{
    alphanumeric, between, blank, chars_of, cut_once, digit, has_prefix, has_suffix, has_text,
    head, position, replaced, same, slice_string, without_prefix, without_suffix,
};

const SAMPLES: [&str; 28] = [
    "",
    " ",
    "a",
    "ab",
    "aba",
    "a,b,,c",
    ",,",
    "  leading and trailing  ",
    "tab\tand\nline\r\nfeeds\n",
    "\n\n",
    "one\r",
    "one\r\ntwo",
    "no feed at end\nlast",
    "é à ü",
    "\u{a0}non breaking\u{3000}",
    "日本語 テキスト",
    "python3-requests",
    "https://example.org/a/b?c=d",
    "key: value: more",
    "aaaa",
    "abab",
    "x::y::z",
    "-1",
    "+7",
    "9223372036854775807",
    "1.5e10",
    "////",
    "a b\u{2003}c",
];

const PATTERNS: [&str; 12] = ["", "a", "ab", ",", "::", "://", " ", "é", "本", "aa", "\n", "zzz"];

#[test]
fn characters_are_classed_as_documented() {
    for n in 0u32..0x3100 {
        if let Some(c) = char::from_u32(n) {
            assert_eq!(blank(c), c.is_whitespace(), "{n:x}");
            assert_eq!(digit(c), c.is_ascii_digit(), "{n:x}");
            assert_eq!(alphanumeric(c), c.is_ascii_alphanumeric(), "{n:x}");
        }
    }
}

#[test]
fn texts_are_searched_as_documented() {
    for s in SAMPLES {
        for p in PATTERNS {
            assert_eq!(has_text(s, p), s.contains(p), "{s:?} {p:?}");
            assert_eq!(has_prefix(s, p), s.starts_with(p), "{s:?} {p:?}");
            assert_eq!(has_suffix(s, p), s.ends_with(p), "{s:?} {p:?}");
            assert_eq!(without_prefix(s, p).as_deref(), s.strip_prefix(p), "{s:?} {p:?}");
            assert_eq!(without_suffix(s, p).as_deref(), s.strip_suffix(p), "{s:?} {p:?}");
            let cut = cut_once(s, p);
            let expected = s.split_once(p).map(|(a, b)| (a.to_string(), b.to_string()));
            assert_eq!(cut, expected, "{s:?} {p:?}");
            let at = s.find(p).map(|i| s[..i].chars().count());
            assert_eq!(position(s, p), at, "{s:?} {p:?}");
            if !p.is_empty() {
                assert_eq!(head(s, p), s.split(p).next().unwrap(), "{s:?} {p:?}");
                assert_eq!(between(s, p).as_deref(), s.split(p).nth(1), "{s:?} {p:?}");
                assert_eq!(replaced(s, p, "<>"), s.replace(p, "<>"), "{s:?} {p:?}");
                assert_eq!(replaced(s, p, ""), s.replace(p, ""), "{s:?} {p:?}");
            }
        }
        for t in SAMPLES {
            assert_eq!(same(s, t), s == t);
            assert_eq!(precedes(s, t), s < t, "{s:?} {t:?}");
        }
    }
}

#[test]
fn texts_are_split_as_documented() {
    for s in SAMPLES {
        for c in [',', 'a', ':', '/', '\n', 'é'] {
            let expected: Vec<String> = s.split(c).map(|x| x.to_string()).collect();
            assert_eq!(split(s, &Sep::Is(c)), expected, "{s:?} {c:?}");
            assert_eq!(trimmed_end_char(s, c), s.trim_end_matches(c), "{s:?} {c:?}");
            assert_eq!(trimmed_start_char(s, c), s.trim_start_matches(c), "{s:?} {c:?}");
            let three: Vec<String> =
                s.split([c, '-', '.']).map(|x| x.to_string()).collect();
            assert_eq!(split(s, &Sep::AnyOf(c, '-', '.')), three, "{s:?} {c:?}");
        }
        let words: Vec<String> = s.split_whitespace().map(|x| x.to_string()).collect();
        assert_eq!(split_words(s, &Sep::Blank), words, "{s:?}");
        assert_eq!(leading_word(s).as_deref(), s.split_whitespace().next(), "{s:?}");
        assert_eq!(leading_word_or_all(s), s.split_whitespace().next().unwrap_or(s), "{s:?}");
        let all: Vec<String> = s.lines().map(|x| x.to_string()).collect();
        assert_eq!(lines(s), all, "{s:?}");
        assert_eq!(trimmed(s), s.trim(), "{s:?}");
        assert_eq!(trimmed_start(s), s.trim_start(), "{s:?}");
        assert_eq!(trimmed_end(s), s.trim_end(), "{s:?}");
        assert_eq!(join(&words, 0, words.len(), "-"), words.join("-"), "{s:?}");
        let chars = chars_of(s);
        assert_eq!(slice_string(&chars, 0, chars.len()), s);
    }
}

#[test]
fn numbers_are_read_as_documented() {
    let written = [
        "0", "-0", "+0", "007", "12a", "1_000", "18446744073709551615", "18446744073709551616",
        "-9223372036854775809", "--1", "+-1", "１",
    ];
    for s in SAMPLES.iter().chain(written.iter()) {
        assert_eq!(parse_i64(s), s.parse::<i64>().ok(), "{s:?}");
        assert_eq!(parse_usize(s), s.parse::<usize>().ok(), "{s:?}");
    }
}

#[test]
fn floating_point_literals_are_told_as_documented() {
    let written = [
        "1", "1.", ".1", ".", "-1.5", "+1.5", "1e5", "1E5", "1e+5", "1e-5", "1e", "e5", "1.e5",
        ".e5", "inf", "-inf", "+INF", "infinity", "Infinity", "nan", "NaN", "-nan", "in", "1..2",
        "1e5.0", "1_0", "0x10", "3.10", "4.0.0", "infinit",
    ];
    for s in SAMPLES.iter().chain(written.iter()) {
        assert_eq!(float_literal(s), s.parse::<f64>().is_ok(), "{s:?}");
    }
}

#[test]
fn bytes_are_written_in_hexadecimal() {
    assert_eq!(hex_string(&[0, 15, 16, 255]), "000f10ff");
    assert_eq!(hex_string(&[]), "");
}

#[test]
fn encodings_are_those_of_the_library_in_use() {
    for s in SAMPLES {
        let expected =
            percent_encoding::utf8_percent_encode(s, percent_encoding::NON_ALPHANUMERIC)
                .to_string();
        assert_eq!(percent_encoded(s, &Keep::Alphanumeric), expected, "{s:?}");
        let unreserved = percent_encoding::NON_ALPHANUMERIC
            .remove(b'-')
            .remove(b'.')
            .remove(b'_')
            .remove(b'~');
        let expected = percent_encoding::percent_encode(
            s.as_bytes(),
            Box::leak(Box::new(unreserved)),
        )
        .to_string();
        assert_eq!(percent_encoded(s, &Keep::Unreserved), expected, "{s:?}");
    }
}
