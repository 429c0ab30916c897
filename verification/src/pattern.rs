//! Regular expressions.
//!
//! What a pattern finds in a text is named, not described: the functions that
//! follow a match are stated over these names.

use crate::text::views;
use regex::Regex;
use vstd::prelude::*;

verus! {

/// The groups of the first match of a pattern in a text, group 0 being the whole
/// match. `None` where nothing matches or the pattern is not a valid one.
pub uninterp spec fn regex_captures(pattern: Seq<char>, text: Seq<char>) -> Option<
    Seq<Option<Seq<char>>>,
>;

/// The groups of every match of a pattern in a text, in order.
pub uninterp spec fn regex_captures_all(pattern: Seq<char>, text: Seq<char>) -> Seq<
    Seq<Option<Seq<char>>>,
>;

/// The texts of every match of a pattern in a text, in order.
pub uninterp spec fn regex_finds(pattern: Seq<char>, text: Seq<char>) -> Seq<Seq<char>>;

/// Whether a pattern matches somewhere in a text.
pub uninterp spec fn regex_matches(pattern: Seq<char>, text: Seq<char>) -> bool;

/// The groups of one match.
pub open spec fn groups_of(v: Seq<Option<String>>) -> Seq<Option<Seq<char>>> {
    v.map_values(|g: Option<String>| crate::text::opt(g))
}

pub open spec fn maybe_groups(o: Option<Vec<Option<String>>>) -> Option<Seq<Option<Seq<char>>>> {
    match o {
        Some(v) => Some(groups_of(v@)),
        None => None,
    }
}

pub open spec fn all_groups(v: Seq<Vec<Option<String>>>) -> Seq<Seq<Option<Seq<char>>>> {
    v.map_values(|g: Vec<Option<String>>| groups_of(g@))
}

/// Group `i` of a match; `None` where it took no part in the match.
pub open spec fn group(g: Seq<Option<Seq<char>>>, i: int) -> Option<Seq<char>> {
    if 0 <= i < g.len() {
        g[i]
    } else {
        None
    }
}

/// Group `i` of the first match of a pattern in a text.
pub open spec fn first_group(pattern: Seq<char>, text: Seq<char>, i: int) -> Option<Seq<char>> {
    match regex_captures(pattern, text) {
        Some(g) => group(g, i),
        None => None,
    }
}

/// `regex::Regex::captures` on a pattern compiled by `Regex::new`: the result is
/// a function of the pattern and the text.
#[verifier::external_body]
pub(crate) fn captures(pattern: &str, text: &str) -> (r: Option<Vec<Option<String>>>)
    ensures
        maybe_groups(r) == regex_captures(pattern@, text@),
{
    let re = Regex::new(pattern).ok()?;
    let found = re.captures(text)?;
    Some(found.iter().map(|g| g.map(|m| m.as_str().to_string())).collect())
}

/// `regex::Regex::captures_iter` on a pattern compiled by `Regex::new`: the
/// result is a function of the pattern and the text.
#[verifier::external_body]
pub(crate) fn captures_all(pattern: &str, text: &str) -> (r: Vec<Vec<Option<String>>>)
    ensures
        all_groups(r@) == regex_captures_all(pattern@, text@),
{
    match Regex::new(pattern) {
        Ok(re) => re.captures_iter(text).map(
            |found| found.iter().map(|g| g.map(|m| m.as_str().to_string())).collect(),
        ).collect(),
        Err(_) => Vec::new(),
    }
}

/// `regex::Regex::find_iter` on a pattern compiled by `Regex::new`: the result
/// is a function of the pattern and the text.
#[verifier::external_body]
pub(crate) fn finds(pattern: &str, text: &str) -> (r: Vec<String>)
    ensures
        views(r@) == regex_finds(pattern@, text@),
{
    match Regex::new(pattern) {
        Ok(re) => re.find_iter(text).map(|m| m.as_str().to_string()).collect(),
        Err(_) => Vec::new(),
    }
}

/// `regex::Regex::is_match` on a pattern compiled by `Regex::new`: the result is
/// a function of the pattern and the text.
#[verifier::external_body]
pub(crate) fn is_match(pattern: &str, text: &str) -> (r: bool)
    ensures
        r == regex_matches(pattern@, text@),
{
    match Regex::new(pattern) {
        Ok(re) => re.is_match(text),
        Err(_) => false,
    }
}

/// A copy of group `i` of a match.
pub fn group_at(g: &Vec<Option<String>>, i: usize) -> (r: Option<String>)
    ensures
        crate::text::opt(r) == group(groups_of(g@), i as int),
{
    if i < g.len() {
        assert(groups_of(g@)[i as int] == crate::text::opt(g@[i as int]));
        match &g[i] {
            Some(s) => Some(s.clone()),
            None => None,
        }
    } else {
        None
    }
}

/// Group `i` of a match, nothing where it took no part in it.
pub open spec fn group_text(g: Seq<Option<Seq<char>>>, i: int) -> Seq<char> {
    match group(g, i) {
        Some(s) => s,
        None => Seq::empty(),
    }
}

pub fn group_or_empty(g: &Vec<Option<String>>, i: usize) -> (r: String)
    ensures
        r@ == group_text(groups_of(g@), i as int),
{
    match group_at(g, i) {
        Some(s) => s,
        None => String::new(),
    }
}

/// Group `i` of the first match of `pattern` in `text`.
pub fn captured(pattern: &str, text: &str, i: usize) -> (r: Option<String>)
    ensures
        crate::text::opt(r) == first_group(pattern@, text@, i as int),
{
    match captures(pattern, text) {
        Some(g) => group_at(&g, i),
        None => None,
    }
}

} // verus!
