//! RPM spec files: what is read out of them.

use crate::casing::{lowercase, to_lowercase};
use crate::ecosystem::{
    by_source, by_source_prefix, detect_by_source, detect_by_source_prefix, found, seen, stripped,
    strip_ecosystem_prefix, texts, Detected, EcosystemDetection,
};
use crate::number::{float_literal, is_float_literal};
use crate::pattern::{
    captured, captures_all, first_group, group, group_at, groups_of, is_match, regex_captures_all,
    regex_matches,
};
use crate::split::{split, split_words, trim, trimmed, Sep};
use crate::text::{
    contains, has_prefix, has_text, lemma_nothing_replaced, lemma_replaced_once, occurs_at, opt,
    replace_all, replaced, starts_with, views,
};
use vstd::prelude::*;

verus! {

broadcast use crate::text::lemma_views_push;

/// The line that names the first source.
pub const SOURCE0: &'static str = r"(?im)^Source0?\s*:\s*(.+)$";

/// The lines that name sources.
pub const SOURCES: &'static str = r"(?im)^Source\d*\s*:\s*(.+)$";

/// The lines that name patches.
pub const PATCHES: &'static str = r"(?im)^Patch\d*\s*:\s*(.+)$";

/// The macro that holds the commit the sources were taken from.
pub const COMMIT: &'static str =
    r"(?m)^%(?:global|define)\s+(?:commit|githash|gitcommit)\s+([0-9a-f]{7,40})";

pub const URL: &'static str = r"(?im)^URL\s*:\s*(.+)$";

pub const NAME: &'static str = r"(?im)^Name\s*:\s*(.+)$";

pub const VERSION: &'static str = r"(?im)^Version\s*:\s*(.+)$";

pub const BUILD_REQUIRES: &'static str = r"(?im)^BuildRequires\s*:\s*(.+)$";

/// A requirement on a Python distribution.
pub const PYTHON3DIST: &'static str = r"python3dist\(([^)]+)\)";

/// A requirement on a Perl module.
pub const PERL: &'static str = r"perl\(([^)]+)\)";

/// The head of a changelog entry: date, name and address.
pub const CHANGELOG_ENTRY: &'static str =
    r"(?m)^\*\s+\w+\s+(\w+\s+\d+\s+\d{4})\s+(.+?)\s+<([^>]+)>\s*[-–]";

/// A changelog entry.
pub struct ChangelogEntry {
    pub date: String,
    pub name: String,
    pub email: String,
}

/// What a changelog entry says.
#[verifier::ext_equal]
pub struct Entry {
    pub date: Seq<char>,
    pub name: Seq<char>,
    pub email: Seq<char>,
}

impl View for ChangelogEntry {
    type V = Entry;

    open spec fn view(&self) -> Entry {
        Entry { date: self.date@, name: self.name@, email: self.email@ }
    }
}

/// What a spec file holds.
pub struct SpecData {
    pub source0_url: Option<String>,
    pub all_sources: Vec<String>,
    pub patches: Vec<String>,
    pub commit_hash: Option<String>,
    pub url_field: Option<String>,
    pub name: Option<String>,
    pub version: Option<String>,
    pub build_requires: Vec<String>,
    pub changelog_entries: Vec<ChangelogEntry>,
}

/// What a spec file holds, by its views.
#[verifier::ext_equal]
pub struct SpecText {
    pub source0_url: Option<Seq<char>>,
    pub all_sources: Seq<Seq<char>>,
    pub patches: Seq<Seq<char>>,
    pub commit_hash: Option<Seq<char>>,
    pub url_field: Option<Seq<char>>,
    pub name: Option<Seq<char>>,
    pub version: Option<Seq<char>>,
    pub build_requires: Seq<Seq<char>>,
    pub changelog_entries: Seq<Entry>,
}

impl View for SpecData {
    type V = SpecText;

    open spec fn view(&self) -> SpecText {
        SpecText {
            source0_url: opt(self.source0_url),
            all_sources: views(self.all_sources@),
            patches: views(self.patches@),
            commit_hash: opt(self.commit_hash),
            url_field: opt(self.url_field),
            name: opt(self.name),
            version: opt(self.version),
            build_requires: views(self.build_requires@),
            changelog_entries: self.changelog_entries@.map_values(|e: ChangelogEntry| e@),
        }
    }
}

pub open spec fn trim_opt(o: Option<Seq<char>>) -> Option<Seq<char>> {
    match o {
        Some(s) => Some(trim(s)),
        None => None,
    }
}

fn trimmed_opt(o: Option<String>) -> (r: Option<String>)
    ensures
        opt(r) == trim_opt(opt(o)),
{
    match o {
        Some(s) => Some(trimmed(&s)),
        None => None,
    }
}

/// A text, or nothing where there is none.
pub open spec fn or_empty(o: Option<Seq<char>>) -> Seq<char> {
    match o {
        Some(s) => s,
        None => Seq::empty(),
    }
}

fn text_or_empty(o: Option<String>) -> (r: String)
    ensures
        r@ == or_empty(opt(o)),
{
    match o {
        Some(s) => s,
        None => String::new(),
    }
}

/// The first group of every match, trimmed.
pub open spec fn field_values(matches: Seq<Seq<Option<Seq<char>>>>) -> Seq<Seq<char>>
    decreases matches.len(),
{
    if matches.len() == 0 {
        Seq::empty()
    } else {
        field_values(matches.drop_last()).push(trim(or_empty(group(matches.last(), 1))))
    }
}

/// The entries that the matches of the changelog pattern give.
pub open spec fn entries_of(matches: Seq<Seq<Option<Seq<char>>>>) -> Seq<Entry>
    decreases matches.len(),
{
    if matches.len() == 0 {
        Seq::empty()
    } else {
        let g = matches.last();
        entries_of(matches.drop_last()).push(
            Entry {
                date: or_empty(group(g, 1)),
                name: or_empty(group(g, 2)),
                email: or_empty(group(g, 3)),
            },
        )
    }
}

/// The fields that the matches of the field patterns give.
pub fn values_of(matches: &Vec<Vec<Option<String>>>) -> (r: Vec<String>)
    ensures
        views(r@) == field_values(crate::pattern::all_groups(matches@)),
{
    let mut out: Vec<String> = Vec::new();
    let mut i: usize = 0;
    let ghost all = crate::pattern::all_groups(matches@);
    proof {
        crate::text::lemma_views_empty();
        assert(all.take(0) =~= Seq::<Seq<Option<Seq<char>>>>::empty());
    }
    while i < matches.len()
        invariant
            i <= matches@.len(),
            all == crate::pattern::all_groups(matches@),
            views(out@) == field_values(all.take(i as int)),
        decreases matches@.len() - i,
    {
        proof {
            assert(all.take(i + 1).drop_last() =~= all.take(i as int));
            assert(all.take(i + 1).last() == groups_of(matches@[i as int]@));
        }
        out.push(trimmed(&text_or_empty(group_at(&matches[i], 1))));
        i = i + 1;
    }
    assert(all.take(i as int) =~= all);
    out
}

/// The changelog that the matches of the entry pattern give.
pub fn changelog_of(matches: &Vec<Vec<Option<String>>>) -> (r: Vec<ChangelogEntry>)
    ensures
        r@.map_values(|e: ChangelogEntry| e@) == entries_of(crate::pattern::all_groups(matches@)),
{
    let mut out: Vec<ChangelogEntry> = Vec::new();
    let mut i: usize = 0;
    let ghost all = crate::pattern::all_groups(matches@);
    proof {
        assert(all.take(0) =~= Seq::<Seq<Option<Seq<char>>>>::empty());
        assert(out@.map_values(|e: ChangelogEntry| e@) =~= Seq::<Entry>::empty());
    }
    while i < matches.len()
        invariant
            i <= matches@.len(),
            all == crate::pattern::all_groups(matches@),
            out@.map_values(|e: ChangelogEntry| e@) == entries_of(all.take(i as int)),
        decreases matches@.len() - i,
    {
        proof {
            assert(all.take(i + 1).drop_last() =~= all.take(i as int));
            assert(all.take(i + 1).last() == groups_of(matches@[i as int]@));
        }
        let ghost was = out@;
        let entry: ChangelogEntry = ChangelogEntry {
            date: text_or_empty(group_at(&matches[i], 1)),
            name: text_or_empty(group_at(&matches[i], 2)),
            email: text_or_empty(group_at(&matches[i], 3)),
        };
        out.push(entry);
        assert(out@.map_values(|e: ChangelogEntry| e@) =~= was.map_values(
            |e: ChangelogEntry| e@,
        ).push(entry@));
        i = i + 1;
    }
    assert(all.take(i as int) =~= all);
    out
}

/// What a spec file with this content holds.
pub open spec fn spec_of(content: Seq<char>) -> SpecText {
    SpecText {
        source0_url: trim_opt(first_group(SOURCE0@, content, 1)),
        all_sources: field_values(regex_captures_all(SOURCES@, content)),
        patches: field_values(regex_captures_all(PATCHES@, content)),
        commit_hash: trim_opt(first_group(COMMIT@, content, 1)),
        url_field: trim_opt(first_group(URL@, content, 1)),
        name: trim_opt(first_group(NAME@, content, 1)),
        version: trim_opt(first_group(VERSION@, content, 1)),
        build_requires: field_values(regex_captures_all(BUILD_REQUIRES@, content)),
        changelog_entries: entries_of(regex_captures_all(CHANGELOG_ENTRY@, content)),
    }
}

/// Parses a spec file.
pub fn parse_spec(content: &str) -> (r: SpecData)
    ensures
        r@ == spec_of(content@),
{
    SpecData {
        source0_url: trimmed_opt(captured(SOURCE0, content, 1)),
        all_sources: values_of(&captures_all(SOURCES, content)),
        patches: values_of(&captures_all(PATCHES, content)),
        commit_hash: trimmed_opt(captured(COMMIT, content, 1)),
        url_field: trimmed_opt(captured(URL, content, 1)),
        name: trimmed_opt(captured(NAME, content, 1)),
        version: trimmed_opt(captured(VERSION, content, 1)),
        build_requires: values_of(&captures_all(BUILD_REQUIRES, content)),
        changelog_entries: changelog_of(&captures_all(CHANGELOG_ENTRY, content)),
    }
}

// ---------------------------------------------------------------------------
// Macros

/// `s` with a macro replaced by its value, where it has one.
pub open spec fn expand_one(s: Seq<char>, name: Seq<char>, value: Option<Seq<char>>) -> Seq<char> {
    match value {
        Some(v) => replace_all(s, name, v),
        None => s,
    }
}

/// `url` with the well-known macros of a spec file expanded, one after another.
pub open spec fn expanded(url: Seq<char>, spec: SpecText) -> Seq<char> {
    let s = expand_one(url, "%{name}"@, spec.name);
    let s = expand_one(s, "%name"@, spec.name);
    let s = expand_one(s, "%{version}"@, spec.version);
    let s = expand_one(s, "%version"@, spec.version);
    let s = expand_one(s, "%{url}"@, spec.url_field);
    expand_one(s, "%{commit}"@, spec.commit_hash)
}

fn expand(s: String, name: &str, value: &Option<String>) -> (r: String)
    requires
        name@.len() > 0,
    ensures
        r@ == expand_one(s@, name@, opt(*value)),
{
    match value {
        Some(v) => replaced(&s, name, v),
        None => s,
    }
}

/// Expands the well-known macros of a spec file in a URL.
pub fn expand_macros(url: &str, spec: &SpecData) -> (r: String)
    ensures
        r@ == expanded(url@, spec@),
{
    proof {
        reveal_strlit("%{name}");
        reveal_strlit("%name");
        reveal_strlit("%{version}");
        reveal_strlit("%version");
        reveal_strlit("%{url}");
        reveal_strlit("%{commit}");
    }
    let s: String = expand(url.to_owned(), "%{name}", &spec.name);
    let s: String = expand(s, "%name", &spec.name);
    let s: String = expand(s, "%{version}", &spec.version);
    let s: String = expand(s, "%version", &spec.version);
    let s: String = expand(s, "%{url}", &spec.url_field);
    expand(s, "%{commit}", &spec.commit_hash)
}

/// Whether a text is one of the well-known macros.
pub open spec fn is_macro(m: Seq<char>) -> bool {
    ||| m == "%{name}"@
    ||| m == "%name"@
    ||| m == "%{version}"@
    ||| m == "%version"@
    ||| m == "%{url}"@
    ||| m == "%{commit}"@
}

/// Whether `m` is the only macro of `a + m + b`, and with `value` in its place there is
/// none.
pub open spec fn is_only_macro(a: Seq<char>, m: Seq<char>, b: Seq<char>, value: Seq<char>) -> bool {
    &&& forall|x: Seq<char>, j: int| #[trigger]
        occurs_at(a + m + b, x, j) && is_macro(x) ==> x == m && j == a.len()
    &&& forall|x: Seq<char>, j: int| is_macro(x) ==> !#[trigger] occurs_at(a + value + b, x, j)
}

proof fn lemma_macros_differ()
    ensures
        "%{name}"@ != "%name"@,
        "%{name}"@ != "%{version}"@,
        "%{name}"@ != "%version"@,
        "%{name}"@ != "%{url}"@,
        "%{name}"@ != "%{commit}"@,
        "%name"@ != "%{version}"@,
        "%name"@ != "%version"@,
        "%name"@ != "%{url}"@,
        "%name"@ != "%{commit}"@,
        "%{version}"@ != "%version"@,
        "%{version}"@ != "%{url}"@,
        "%{version}"@ != "%{commit}"@,
        "%version"@ != "%{url}"@,
        "%version"@ != "%{commit}"@,
        "%{url}"@ != "%{commit}"@,
        forall|m: Seq<char>| is_macro(m) ==> m.len() > 0,
{
    reveal_strlit("%{name}");
    reveal_strlit("%name");
    reveal_strlit("%{version}");
    reveal_strlit("%version");
    reveal_strlit("%{url}");
    reveal_strlit("%{commit}");
    assert("%{name}"@.len() == 7 && "%name"@.len() == 5 && "%{version}"@.len() == 10);
    assert("%version"@.len() == 8 && "%{url}"@.len() == 6 && "%{commit}"@.len() == 9);
}

proof fn lemma_expand_other(
    a: Seq<char>,
    m: Seq<char>,
    b: Seq<char>,
    value: Seq<char>,
    x: Seq<char>,
    y: Option<Seq<char>>,
)
    requires
        is_only_macro(a, m, b, value),
        is_macro(x),
    ensures
        x != m ==> expand_one(a + m + b, x, y) == a + m + b,
        expand_one(a + value + b, x, y) == a + value + b,
{
    if let Some(v) = y {
        if x != m {
            lemma_nothing_replaced(a + m + b, x, v);
        }
        lemma_nothing_replaced(a + value + b, x, v);
    }
}

/// Each macro stands for its own field: the name, the version, the address or the commit
/// of the spec file takes its place, and the rest of the text stays.
pub proof fn lemma_macros_stand_for_fields(
    a: Seq<char>,
    m: Seq<char>,
    b: Seq<char>,
    spec: SpecText,
    value: Seq<char>,
)
    requires
        is_macro(m),
        is_only_macro(a, m, b, value),
    ensures
        (m == "%{name}"@ || m == "%name"@) && spec.name == Some(value) ==> expanded(a + m + b, spec)
            == a + value + b,
        (m == "%{version}"@ || m == "%version"@) && spec.version == Some(value) ==> expanded(
            a + m + b,
            spec,
        ) == a + value + b,
        m == "%{url}"@ && spec.url_field == Some(value) ==> expanded(a + m + b, spec) == a + value
            + b,
        m == "%{commit}"@ && spec.commit_hash == Some(value) ==> expanded(a + m + b, spec) == a
            + value + b,
        (m == "%{name}"@ || m == "%name"@) && spec.name is None ==> expanded(a + m + b, spec) == a
            + m + b,
        (m == "%{version}"@ || m == "%version"@) && spec.version is None ==> expanded(
            a + m + b,
            spec,
        ) == a + m + b,
        m == "%{url}"@ && spec.url_field is None ==> expanded(a + m + b, spec) == a + m + b,
        m == "%{commit}"@ && spec.commit_hash is None ==> expanded(a + m + b, spec) == a + m + b,
{
    lemma_macros_differ();
    lemma_expand_other(a, m, b, value, "%{name}"@, spec.name);
    lemma_expand_other(a, m, b, value, "%name"@, spec.name);
    lemma_expand_other(a, m, b, value, "%{version}"@, spec.version);
    lemma_expand_other(a, m, b, value, "%version"@, spec.version);
    lemma_expand_other(a, m, b, value, "%{url}"@, spec.url_field);
    lemma_expand_other(a, m, b, value, "%{commit}"@, spec.commit_hash);
    assert forall|j: int| occurs_at(a + m + b, m, j) implies j == a.len() by {}
    lemma_replaced_once(a, m, b, value);
}

/// A text without a macro stays as it is.
pub proof fn lemma_text_without_macros(url: Seq<char>, spec: SpecText)
    requires
        forall|x: Seq<char>, j: int| is_macro(x) ==> !#[trigger] occurs_at(url, x, j),
    ensures
        expanded(url, spec) == url,
{
    if let Some(v) = spec.name {
        lemma_nothing_replaced(url, "%{name}"@, v);
        lemma_nothing_replaced(url, "%name"@, v);
    }
    if let Some(v) = spec.version {
        lemma_nothing_replaced(url, "%{version}"@, v);
        lemma_nothing_replaced(url, "%version"@, v);
    }
    if let Some(v) = spec.url_field {
        lemma_nothing_replaced(url, "%{url}"@, v);
    }
    if let Some(v) = spec.commit_hash {
        lemma_nothing_replaced(url, "%{commit}"@, v);
    }
}

// ---------------------------------------------------------------------------
// Build requirements

/// Whether a word of a requirement line names a package: not a comparison, not a
/// number, and not a macro that cannot be resolved.
pub open spec fn names_requirement(word: Seq<char>) -> bool {
    &&& word.len() > 0
    &&& !starts_with(word, ">"@)
    &&& !starts_with(word, "<"@)
    &&& !starts_with(word, "="@)
    &&& !is_float_literal(word)
    &&& (!contains(word, "%{"@) || contains(word, "python3dist"@) || contains(word, "perl("@))
}

/// Whether a word is a comparison, so that the next one is a version.
pub open spec fn is_comparison(word: Seq<char>) -> bool {
    word.len() > 0 && forall|i: int|
        0 <= i < word.len() ==> #[trigger] word[i] == '<' || word[i] == '>' || word[i] == '='
}

/// The package names among the words of one requirement or more. What follows a
/// comparison is a version and is left out.
pub open spec fn requirement_words(words: Seq<Seq<char>>) -> Seq<Seq<char>>
    decreases words.len(),
{
    if words.len() == 0 {
        Seq::empty()
    } else {
        let done = requirement_words(words.drop_last());
        if names_requirement(words.last()) && !(words.len() > 1 && is_comparison(
            words[words.len() - 2],
        )) {
            done.push(words.last())
        } else {
            done
        }
    }
}

/// The package names in the parts of a line.
pub open spec fn requirements_of(parts: Seq<Seq<char>>) -> Seq<Seq<char>>
    decreases parts.len(),
{
    if parts.len() == 0 {
        Seq::empty()
    } else {
        requirements_of(parts.drop_last()) + requirement_words(
            crate::split::words(parts.last(), Sep::Blank),
        )
    }
}

/// The package names in a requirement line, which commas and white space
/// separate.
pub open spec fn requirements(line: Seq<char>) -> Seq<Seq<char>> {
    requirements_of(crate::split::pieces(line, Sep::Is(',')))
}

fn compares(word: &str) -> (r: bool)
    ensures
        r == is_comparison(word@),
{
    let cs: Vec<char> = crate::text::chars_of(word);
    let mut i: usize = 0;
    while i < cs.len()
        invariant
            i <= cs@.len(),
            cs@ == word@,
            forall|j: int|
                0 <= j < i ==> #[trigger] cs@[j] == '<' || cs@[j] == '>' || cs@[j] == '=',
        decreases cs@.len() - i,
    {
        if !(cs[i] == '<' || cs[i] == '>' || cs[i] == '=') {
            return false;
        }
        i = i + 1;
    }
    cs.len() > 0
}

/// Adds the package names in a part of a requirement line.
fn add_requirements(out: &mut Vec<String>, part: &str)
    ensures
        views(final(out)@) == views(old(out)@) + requirement_words(
            crate::split::words(part@, Sep::Blank),
        ),
{
    let words: Vec<String> = split_words(part, &Sep::Blank);
    let ghost before = views(out@);
    let mut after_comparison: bool = false;
    let mut i: usize = 0;
    proof {
        assert(views(words@).take(0) =~= Seq::<Seq<char>>::empty());
        assert(before + Seq::<Seq<char>>::empty() =~= before);
    }
    while i < words.len()
        invariant
            i <= words@.len(),
            after_comparison == (i > 0 && is_comparison(views(words@)[i - 1])),
            views(out@) == before + requirement_words(views(words@).take(i as int)),
        decreases words@.len() - i,
    {
        proof {
            let v = views(words@);
            assert(v.take(i + 1).drop_last() =~= v.take(i as int));
            assert(v.take(i + 1).last() == words@[i as int]@);
            if i > 0 {
                assert(v.take(i + 1)[i - 1] == v[i - 1]);
            }
        }
        let word: String = words[i].clone();
        let skip: bool = word.as_str().is_empty() || has_prefix(&word, ">") || has_prefix(
            &word,
            "<",
        ) || has_prefix(&word, "=") || float_literal(&word) || (has_text(&word, "%{") && !has_text(
            &word,
            "python3dist",
        ) && !has_text(&word, "perl("));
        let keep: bool = !skip && !after_comparison;
        after_comparison = compares(&word);
        if keep {
            out.push(word);
            assert(views(out@) =~= before + requirement_words(views(words@).take(i + 1)));
        }
        i = i + 1;
    }
    assert(views(words@).take(i as int) =~= views(words@));
}

/// Parses a requirement line into package names.
pub fn parse_buildrequires(line: &str) -> (r: Vec<String>)
    ensures
        views(r@) == requirements(line@),
{
    let parts: Vec<String> = split(line, &Sep::Is(','));
    let mut out: Vec<String> = Vec::new();
    let mut i: usize = 0;
    proof {
        crate::text::lemma_views_empty();
        assert(views(parts@).take(0) =~= Seq::<Seq<char>>::empty());
    }
    while i < parts.len()
        invariant
            i <= parts@.len(),
            views(out@) == requirements_of(views(parts@).take(i as int)),
        decreases parts@.len() - i,
    {
        proof {
            let v = views(parts@);
            assert(v.take(i + 1).drop_last() =~= v.take(i as int));
            assert(v.take(i + 1).last() == parts@[i as int]@);
        }
        add_requirements(&mut out, &parts[i]);
        i = i + 1;
    }
    assert(views(parts@).take(i as int) =~= views(parts@));
    out
}

// ---------------------------------------------------------------------------
// The ecosystem that a spec file points to

/// What the first requirement on a Python distribution or a Perl module says,
/// from requirement `i` on.
pub open spec fn by_requirement(lines: Seq<Seq<char>>, name: Seq<char>, i: int) -> Option<Detected>
    decreases lines.len() - i,
{
    if i < 0 || i >= lines.len() {
        None
    } else if regex_matches(PYTHON3DIST@, lines[i]) {
        found("pypi"@, stripped(name, seq!["python3-"@, "python-"@]), "buildrequires-macro"@)
    } else if regex_matches(PERL@, lines[i]) {
        found("cpan"@, stripped(name, seq!["perl-"@]), "buildrequires-macro"@)
    } else {
        by_requirement(lines, name, i + 1)
    }
}

/// What a spec file says of the upstream ecosystem: the domain of `Source0`
/// first, then the requirements, then the prefix of the name.
pub open spec fn by_spec(spec: SpecText, name: Seq<char>) -> Option<Detected> {
    let first = match spec.source0_url {
        Some(url) => by_source(lowercase(expanded(url, spec)), name),
        None => None,
    };
    match first {
        Some(d) => Some(d),
        None => match by_requirement(spec.build_requires, name, 0) {
            Some(d) => Some(d),
            None => by_source_prefix(name),
        },
    }
}

fn detect_by_requirement(lines: &Vec<String>, source_name: &str) -> (r: Option<EcosystemDetection>)
    ensures
        seen(r) == by_requirement(views(lines@), source_name@, 0),
{
    let mut i: usize = 0;
    while i < lines.len()
        invariant
            i <= lines@.len(),
            by_requirement(views(lines@), source_name@, 0) == by_requirement(
                views(lines@),
                source_name@,
                i as int,
            ),
        decreases lines@.len() - i,
    {
        assert(views(lines@)[i as int] == lines@[i as int]@);
        if is_match(PYTHON3DIST, &lines[i]) {
            assert(texts(["python3-", "python-"]@) =~= seq!["python3-"@, "python-"@]);
            return Some(
                EcosystemDetection {
                    ecosystem: "pypi",
                    package_name: Some(
                        strip_ecosystem_prefix(source_name, &["python3-", "python-"]),
                    ),
                    detection_method: "buildrequires-macro",
                },
            );
        }
        if is_match(PERL, &lines[i]) {
            assert(texts(["perl-"]@) =~= seq!["perl-"@]);
            return Some(
                EcosystemDetection {
                    ecosystem: "cpan",
                    package_name: Some(strip_ecosystem_prefix(source_name, &["perl-"])),
                    detection_method: "buildrequires-macro",
                },
            );
        }
        i = i + 1;
    }
    None
}

/// Detects the upstream ecosystem of a source package from its spec file.
pub fn detect_ecosystem(spec: &SpecData, source_name: &str) -> (r: Option<EcosystemDetection>)
    ensures
        seen(r) == by_spec(spec@, source_name@),
{
    if let Some(source0) = &spec.source0_url {
        let lower: String = to_lowercase(&expand_macros(source0, spec));
        let first: Option<EcosystemDetection> = detect_by_source(&lower, source_name);
        if first.is_some() {
            return first;
        }
    }
    let second: Option<EcosystemDetection> = detect_by_requirement(
        &spec.build_requires,
        source_name,
    );
    if second.is_some() {
        return second;
    }
    detect_by_source_prefix(source_name)
}

} // verus!
