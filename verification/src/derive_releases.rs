//! The dates of the latest releases of packages, out of when they were built.

use crate::calendar::{format_utc, utc_formatted, DATE};
use crate::casing::{lowercase, to_lowercase};
use crate::failure::{CollectError, Failure};
use crate::ntriples::{date, line, pkg, valid_iri, Fact, NTriplesWriter, Sheet, PKG};
use crate::number::{i64_value, parse_i64, parse_usize, usize_value};
use crate::order::{before_text, lemma_order_irreflexive, lemma_order_total, precedes};
use crate::split::{lines, lines_of};
use crate::text::{
    cat2, cat3, chars_of, contains, find, has_prefix, has_text, lemma_find_from, occurs_at, opt,
    position, slice_string, starts_with, views,
};
use crate::textmap::{
    as_map, distinct_keys, field, field_maps, lemma_put_is_insert, put, Fields, TextMap,
};
use vstd::prelude::*;
use vstd::utf8::{encode_scalar, encode_utf8};

verus! {

broadcast use crate::text::lemma_views_push;

// ---------------------------------------------------------------------------
// Ecosystems

/// Which packages a graph holds.
#[derive(Debug, Clone, Copy, PartialEq, Eq, Structural)]
pub enum Ecosystem {
    Rpm,
    Alpine,
    Unsupported,
}

/// Which packages a graph holds, by its name in lower case.
pub open spec fn ecosystem_named(lower: Seq<char>) -> Ecosystem {
    if contains(lower, "fedora"@) || contains(lower, "rhel"@) || contains(lower, "centos"@)
        || contains(lower, "opensuse"@) {
        Ecosystem::Rpm
    } else if contains(lower, "alpine"@) {
        Ecosystem::Alpine
    } else {
        Ecosystem::Unsupported
    }
}

/// Which packages a graph holds, by its name.
pub fn detect_ecosystem(graph_uri: &str) -> (r: Ecosystem)
    ensures
        r == ecosystem_named(lowercase(graph_uri@)),
{
    ecosystem_of(&to_lowercase(graph_uri))
}

/// Which packages a graph holds, by its name in lower case.
pub fn ecosystem_of(lower: &str) -> (r: Ecosystem)
    ensures
        r == ecosystem_named(lower@),
{
    if has_text(lower, "fedora") || has_text(lower, "rhel") || has_text(lower, "centos")
        || has_text(lower, "opensuse") {
        Ecosystem::Rpm
    } else if has_text(lower, "alpine") {
        Ecosystem::Alpine
    } else {
        Ecosystem::Unsupported
    }
}

// ---------------------------------------------------------------------------
// Dates

/// Whether the first `k` characters of a text are its first ten bytes.
pub open spec fn is_date_prefix(s: Seq<char>, k: int) -> bool {
    0 <= k <= s.len() && encode_utf8(s.take(k)).len() == 10
}

/// Whether a text is shorter than ten bytes, or has a character that ends with the
/// tenth.
pub open spec fn has_date_prefix(s: Seq<char>) -> bool {
    encode_utf8(s).len() < 10 || exists|k: int| is_date_prefix(s, k)
}

/// The date that a point in time starts with: its first ten bytes.
pub open spec fn date_in(s: Seq<char>) -> Option<Seq<char>> {
    if encode_utf8(s).len() >= 10 {
        Some(s.take(choose|k: int| is_date_prefix(s, k)))
    } else {
        None
    }
}

proof fn lemma_bytes_push(s: Seq<char>, c: char)
    ensures
        encode_utf8(s.push(c)).len() == encode_utf8(s).len() + encode_scalar(c as u32).len(),
    decreases s.len(),
{
    if s.len() == 0 {
        assert(s.push(c).drop_first() =~= s);
    } else {
        assert(s.push(c).drop_first() =~= s.drop_first().push(c));
        lemma_bytes_push(s.drop_first(), c);
    }
}

proof fn lemma_bytes_grow(s: Seq<char>, i: int, j: int)
    requires
        0 <= i <= j <= s.len(),
    ensures
        encode_utf8(s.take(i)).len() + (j - i) <= encode_utf8(s.take(j)).len(),
    decreases j - i,
{
    if i < j {
        lemma_bytes_grow(s, i, j - 1);
        assert(s.take(j) =~= s.take(j - 1).push(s[j - 1]));
        lemma_bytes_push(s.take(j - 1), s[j - 1]);
        assert(encode_scalar(s[j - 1] as u32).len() >= 1);
    }
}

fn width(c: char) -> (r: usize)
    ensures
        r == encode_scalar(c as u32).len(),
{
    let n: u32 = c as u32;
    if n <= 0x7f {
        1
    } else if n <= 0x7ff {
        2
    } else if n <= 0xffff {
        3
    } else {
        4
    }
}

/// How many characters are the first ten bytes of a text.
fn date_chars(s: &str) -> (r: Option<usize>)
    ensures
        match r {
            Some(k) => is_date_prefix(s@, k as int),
            None => forall|k: int| !is_date_prefix(s@, k),
        },
{
    let cs: Vec<char> = chars_of(s);
    let mut k: usize = 0;
    let mut bytes: usize = 0;
    assert(s@.take(0) =~= Seq::<char>::empty());
    while k < cs.len() && bytes < 10
        invariant
            k <= cs@.len(),
            cs@ == s@,
            bytes <= 13,
            bytes == encode_utf8(s@.take(k as int)).len(),
            k > 0 ==> encode_utf8(s@.take(k - 1)).len() < 10,
        decreases cs@.len() - k,
    {
        proof {
            assert(s@.take(k + 1) =~= s@.take(k as int).push(s@[k as int]));
            lemma_bytes_push(s@.take(k as int), s@[k as int]);
        }
        bytes = bytes + width(cs[k]);
        k = k + 1;
    }
    proof {
        assert forall|j: int| bytes != 10 implies !is_date_prefix(s@, j) by {
            if is_date_prefix(s@, j) {
                if j <= k - 1 {
                    lemma_bytes_grow(s@, j, k - 1);
                } else if j > k {
                    lemma_bytes_grow(s@, k as int, j);
                }
            }
        }
    }
    if bytes == 10 {
        Some(k)
    } else {
        None
    }
}

/// The date that a point in time starts with.
pub fn datetime_to_date(s: &str) -> (r: Option<String>)
    requires
        has_date_prefix(s@),
    ensures
        opt(r) == date_in(s@),
{
    if s.as_bytes().len() < 10 {
        return None;
    }
    match date_chars(s) {
        Some(k) => {
            let cs: Vec<char> = chars_of(s);
            proof {
                let j = choose|j: int| is_date_prefix(s@, j);
                if j < k {
                    lemma_bytes_grow(s@, j, k as int);
                } else {
                    lemma_bytes_grow(s@, k as int, j);
                }
                assert(cs@.subrange(0, k as int) =~= s@.take(k as int));
            }
            Some(slice_string(&cs, 0, k))
        },
        None => None,
    }
}

/// The date of a second: seconds count from 1970.
pub fn epoch_to_date(epoch: i64) -> (r: Option<String>)
    ensures
        opt(r) == utc_formatted(epoch, DATE@),
{
    format_utc(epoch, DATE)
}

// ---------------------------------------------------------------------------
// Queries

/// When the packages of a graph of RPM packages were built.
pub open spec fn rpm_query(graph: Seq<char>) -> Seq<char> {
    "PREFIX pkg: <https://purl.org/packagegraph/ontology/core#>\nPREFIX rpm: <https://purl.org/packagegraph/ontology/rpm#>\n\nSELECT ?identity (MAX(?bt) AS ?maxBuildTime)\nWHERE {\n  GRAPH <"@
        + graph
        + "> {\n    ?pkg pkg:isVersionOf ?identity .\n    ?pkg rpm:buildTime ?bt .\n  }\n}\nGROUP BY ?identity"@
}

/// When the packages of a graph of Alpine packages were built.
pub open spec fn alpine_query(graph: Seq<char>) -> Seq<char> {
    "PREFIX pkg: <https://purl.org/packagegraph/ontology/core#>\nPREFIX apk: <https://purl.org/packagegraph/ontology/apk#>\n\nSELECT ?identity (MAX(?bd) AS ?maxBuildDate)\nWHERE {\n  GRAPH <"@
        + graph
        + "> {\n    ?pkg pkg:isVersionOf ?identity .\n    ?pkg apk:buildDate ?bd .\n  }\n}\nGROUP BY ?identity"@
}

/// How many packages a graph has.
pub open spec fn identity_query(graph: Seq<char>) -> Seq<char> {
    "PREFIX pkg: <https://purl.org/packagegraph/ontology/core#>\n\nSELECT (COUNT(DISTINCT ?identity) AS ?count)\nWHERE {\n  GRAPH <"@
        + graph + "> {\n    ?pkg pkg:isVersionOf ?identity .\n  }\n}"@
}

/// What to ask about a graph.
pub open spec fn query_for(graph: Seq<char>) -> Seq<char> {
    match ecosystem_named(lowercase(graph)) {
        Ecosystem::Rpm => rpm_query(graph),
        Ecosystem::Alpine => alpine_query(graph),
        Ecosystem::Unsupported => identity_query(graph),
    }
}

/// What to ask about a graph.
pub fn graph_query(graph: &str) -> (r: String)
    ensures
        r@ == query_for(graph@),
{
    match detect_ecosystem(graph) {
        Ecosystem::Rpm => cat3(
            "PREFIX pkg: <https://purl.org/packagegraph/ontology/core#>\nPREFIX rpm: <https://purl.org/packagegraph/ontology/rpm#>\n\nSELECT ?identity (MAX(?bt) AS ?maxBuildTime)\nWHERE {\n  GRAPH <",
            graph,
            "> {\n    ?pkg pkg:isVersionOf ?identity .\n    ?pkg rpm:buildTime ?bt .\n  }\n}\nGROUP BY ?identity",
        ),
        Ecosystem::Alpine => cat3(
            "PREFIX pkg: <https://purl.org/packagegraph/ontology/core#>\nPREFIX apk: <https://purl.org/packagegraph/ontology/apk#>\n\nSELECT ?identity (MAX(?bd) AS ?maxBuildDate)\nWHERE {\n  GRAPH <",
            graph,
            "> {\n    ?pkg pkg:isVersionOf ?identity .\n    ?pkg apk:buildDate ?bd .\n  }\n}\nGROUP BY ?identity",
        ),
        Ecosystem::Unsupported => cat3(
            "PREFIX pkg: <https://purl.org/packagegraph/ontology/core#>\n\nSELECT (COUNT(DISTINCT ?identity) AS ?count)\nWHERE {\n  GRAPH <",
            graph,
            "> {\n    ?pkg pkg:isVersionOf ?identity .\n  }\n}",
        ),
    }
}

// ---------------------------------------------------------------------------
// Rows

/// The package and the date of a row about an RPM package.
pub open spec fn rpm_date(row: Map<Seq<char>, Seq<char>>) -> Option<(Seq<char>, Seq<char>)> {
    match (field(row, "identity"@), field(row, "maxBuildTime"@)) {
        (Some(identity), Some(time)) => match date_in(time) {
            Some(d) => Some((identity, d)),
            None => None,
        },
        _ => None,
    }
}

/// The package and the date of a row about an Alpine package.
pub open spec fn alpine_date(row: Map<Seq<char>, Seq<char>>) -> Option<(Seq<char>, Seq<char>)> {
    match (field(row, "identity"@), field(row, "maxBuildDate"@)) {
        (Some(identity), Some(text)) => match i64_value(text) {
            Some(epoch) => match utc_formatted(epoch, DATE@) {
                Some(d) => Some((identity, d)),
                None => None,
            },
            None => None,
        },
        _ => None,
    }
}

/// The package and the date of a row about a package of an ecosystem.
pub open spec fn row_date(e: Ecosystem, row: Map<Seq<char>, Seq<char>>) -> Option<
    (Seq<char>, Seq<char>),
> {
    match e {
        Ecosystem::Rpm => rpm_date(row),
        Ecosystem::Alpine => alpine_date(row),
        Ecosystem::Unsupported => None,
    }
}

/// The dates in the first `n` rows: the last row about a package counts.
pub open spec fn dates_in(e: Ecosystem, rows: Seq<Map<Seq<char>, Seq<char>>>, n: nat) -> Seq<
    (Seq<char>, Seq<char>),
>
    decreases n,
{
    if n == 0 {
        Seq::empty()
    } else {
        let rest = dates_in(e, rows, (n - 1) as nat);
        match row_date(e, rows[n - 1]) {
            Some((identity, d)) => put(rest, identity, d),
            None => rest,
        }
    }
}

/// Whether every point in time in rows about RPM packages has a date.
pub open spec fn times_split(rows: Seq<Map<Seq<char>, Seq<char>>>) -> bool {
    forall|i: int|
        0 <= i < rows.len() && (#[trigger] rows[i]).contains_key("identity"@)
            && rows[i].contains_key("maxBuildTime"@) ==> has_date_prefix(rows[i]["maxBuildTime"@])
}

/// Whether every point in time in rows about RPM packages has a date.
pub fn has_splitting_times(rows: &Vec<Fields>) -> (r: bool)
    ensures
        r == times_split(field_maps(rows@)),
{
    let ghost maps = field_maps(rows@);
    let mut i: usize = 0;
    while i < rows.len()
        invariant
            i <= rows.len(),
            maps == field_maps(rows@),
            forall|k: int|
                0 <= k < i && (#[trigger] maps[k]).contains_key("identity"@)
                    && maps[k].contains_key("maxBuildTime"@) ==> has_date_prefix(
                    maps[k]["maxBuildTime"@],
                ),
        decreases rows.len() - i,
    {
        assert(maps[i as int] == rows@[i as int]@);
        if rows[i].contains_key("identity") {
            if let Some(time) = rows[i].get("maxBuildTime") {
                if time.as_str().as_bytes().len() >= 10 && date_chars(time).is_none() {
                    assert(!has_date_prefix(maps[i as int]["maxBuildTime"@]));
                    return false;
                }
            }
        }
        i = i + 1;
    }
    true
}

fn date_of_row(e: Ecosystem, row: &Fields) -> (r: Option<(String, String)>)
    requires
        e is Rpm && row@.contains_key("identity"@) && row@.contains_key("maxBuildTime"@)
            ==> has_date_prefix(row@["maxBuildTime"@]),
    ensures
        match r {
            Some(p) => row_date(e, row@) == Some((p.0@, p.1@)),
            None => row_date(e, row@) is None,
        },
{
    let identity: String = match row.get("identity") {
        Some(i) => i.clone(),
        None => {
            return None;
        },
    };
    let found: Option<String> = match e {
        Ecosystem::Rpm => match row.get("maxBuildTime") {
            Some(time) => datetime_to_date(time),
            None => None,
        },
        Ecosystem::Alpine => match row.get("maxBuildDate") {
            Some(text) => match parse_i64(text) {
                Some(epoch) => epoch_to_date(epoch),
                None => None,
            },
            None => None,
        },
        Ecosystem::Unsupported => None,
    };
    match found {
        Some(d) => Some((identity, d)),
        None => None,
    }
}

/// The dates in rows about packages of an ecosystem.
pub fn collect_dates(e: Ecosystem, rows: &Vec<Fields>) -> (r: Fields)
    requires
        e is Rpm ==> times_split(field_maps(rows@)),
    ensures
        r.order() == dates_in(e, field_maps(rows@), rows@.len()),
        r.order().len() <= rows@.len(),
{
    let ghost maps = field_maps(rows@);
    let mut out: Fields = TextMap::new();
    assert(out.order() =~= Seq::empty());
    let mut i: usize = 0;
    while i < rows.len()
        invariant
            i <= rows.len(),
            maps == field_maps(rows@),
            e is Rpm ==> times_split(maps),
            out.order() == dates_in(e, maps, i as nat),
            out.order().len() <= i,
        decreases rows.len() - i,
    {
        assert(maps[i as int] == rows@[i as int]@);
        if let Some((identity, d)) = date_of_row(e, &rows[i]) {
            proof {
                lemma_put_len(out.order(), identity@, d@);
            }
            out.insert(identity, d);
        }
        i = i + 1;
    }
    out
}

proof fn lemma_put_len(e: Seq<(Seq<char>, Seq<char>)>, k: Seq<char>, v: Seq<char>)
    ensures
        put(e, k, v).len() <= e.len() + 1,
    decreases e.len(),
{
    if e.len() > 0 && e[0].0 != k {
        lemma_put_len(e.skip(1), k, v);
    }
}

/// How many packages a row counts.
pub open spec fn count_in_rows(rows: Seq<Map<Seq<char>, Seq<char>>>) -> nat {
    if rows.len() == 0 {
        0
    } else {
        match field(rows[0], "count"@) {
            Some(text) => match usize_value(text) {
                Some(n) => n as nat,
                None => 0,
            },
            None => 0,
        }
    }
}

/// How many packages a graph has.
pub fn count_identities(rows: &Vec<Fields>) -> (r: usize)
    ensures
        r == count_in_rows(field_maps(rows@)),
{
    if rows.len() == 0 {
        return 0;
    }
    assert(field_maps(rows@)[0] == rows@[0]@);
    match rows[0].get("count") {
        Some(text) => match parse_usize(text) {
            Some(n) => n,
            None => 0,
        },
        None => 0,
    }
}

// ---------------------------------------------------------------------------
// Merging

/// The dates with one more: the later of two dates of a package counts.
pub open spec fn later_kept(
    e: Seq<(Seq<char>, Seq<char>)>,
    identity: Seq<char>,
    d: Seq<char>,
) -> Seq<(Seq<char>, Seq<char>)> {
    match field(as_map::<String>(e), identity) {
        Some(known) => if before_text(known, d) {
            put(e, identity, d)
        } else {
            e
        },
        None => put(e, identity, d),
    }
}

/// The dates with the first `n` of some more.
pub open spec fn dates_merged(
    e: Seq<(Seq<char>, Seq<char>)>,
    more: Seq<(Seq<char>, Seq<char>)>,
    n: nat,
) -> Seq<(Seq<char>, Seq<char>)>
    decreases n,
{
    if n == 0 {
        e
    } else {
        later_kept(dates_merged(e, more, (n - 1) as nat), more[n - 1].0, more[n - 1].1)
    }
}

fn keep_later(dates: &mut Fields, identity: &str, d: &str)
    ensures
        final(dates).order() == later_kept(old(dates).order(), identity@, d@),
{
    let newer: bool = match dates.get(identity) {
        Some(known) => precedes(known, d),
        None => true,
    };
    if newer {
        dates.insert(identity.to_owned(), d.to_owned());
    }
}

fn merge_dates(dates: &mut Fields, more: &Fields)
    ensures
        final(dates).order() == dates_merged(
            old(dates).order(),
            more.order(),
            more.order().len(),
        ),
{
    let ghost e0 = dates.order();
    let mut i: usize = 0;
    while i < more.len()
        invariant
            i <= more.order().len(),
            dates.order() == dates_merged(e0, more.order(), i as nat),
        decreases more.order().len() - i,
    {
        keep_later(dates, more.key_at(i), more.value_at(i));
        i = i + 1;
    }
}

/// The later of two dates of a package counts, and the dates of the others stay.
pub proof fn lemma_later_date_counts(
    e: Seq<(Seq<char>, Seq<char>)>,
    identity: Seq<char>,
    d: Seq<char>,
    other: Seq<char>,
)
    requires
        distinct_keys(e),
    ensures
        distinct_keys(later_kept(e, identity, d)),
        ({
            let was = as_map::<String>(e);
            let now = as_map::<String>(later_kept(e, identity, d));
            &&& now.contains_key(identity)
            &&& now[identity] == d || (was.contains_key(identity) && now[identity]
                == was[identity])
            &&& !before_text(now[identity], d)
            &&& was.contains_key(identity) ==> !before_text(now[identity], was[identity])
            &&& other != identity ==> field(now, other) == field(was, other)
        }),
{
    lemma_put_is_insert::<String>(e, identity, d);
    lemma_order_irreflexive(d);
    if let Some(known) = field(as_map::<String>(e), identity) {
        lemma_order_total(known, d);
        lemma_order_irreflexive(known);
    }
}

proof fn lemma_merging_keeps_keys_distinct(
    e: Seq<(Seq<char>, Seq<char>)>,
    more: Seq<(Seq<char>, Seq<char>)>,
    n: nat,
)
    requires
        distinct_keys(e),
    ensures
        distinct_keys(dates_merged(e, more, n)),
    decreases n,
{
    if n > 0 {
        lemma_merging_keeps_keys_distinct(e, more, (n - 1) as nat);
        let rest = dates_merged(e, more, (n - 1) as nat);
        lemma_later_date_counts(rest, more[n - 1].0, more[n - 1].1, more[n - 1].0);
    }
}

/// A package has one date, in however many graphs it occurs.
pub proof fn lemma_one_date_for_each_package(
    r: DatesRun,
    graphs: Seq<Seq<char>>,
    replies: Seq<Result<Vec<Fields>, CollectError>>,
    i: int,
)
    requires
        distinct_keys(r.dates),
    ensures
        distinct_keys(graphs_taken(r, graphs, replies, i).0.dates),
    decreases graphs.len() - i,
{
    if 0 <= i < graphs.len() {
        if let Ok(rows) = replies[i] {
            let e = ecosystem_named(lowercase(graphs[i]));
            let maps = field_maps(rows@);
            let more = dates_in(e, maps, maps.len());
            lemma_merging_keeps_keys_distinct(r.dates, more, more.len());
            lemma_one_date_for_each_package(graph_taken(r, e, maps), graphs, replies, i + 1);
        }
    }
}

/// How many packages of each ecosystem have dates.
#[derive(Debug, Default)]
pub struct EcosystemBreakdown {
    pub rpm: usize,
    pub alpine: usize,
    pub unsupported: usize,
}

/// What a run came to.
#[derive(Debug)]
pub struct DeriveReport {
    pub total_identities: usize,
    pub derived: usize,
    pub unsupported: usize,
    pub triples: usize,
    pub by_ecosystem: EcosystemBreakdown,
}

/// What a run over graphs has come to.
#[verifier::ext_equal]
pub struct DatesRun {
    pub dates: Seq<(Seq<char>, Seq<char>)>,
    pub rpm: nat,
    pub alpine: nat,
    pub unsupported: nat,
}

pub open spec fn blank_run() -> DatesRun {
    DatesRun { dates: Seq::empty(), rpm: 0, alpine: 0, unsupported: 0 }
}

/// The state after one more graph.
pub open spec fn graph_taken(
    r: DatesRun,
    e: Ecosystem,
    rows: Seq<Map<Seq<char>, Seq<char>>>,
) -> DatesRun {
    let more = dates_in(e, rows, rows.len());
    match e {
        Ecosystem::Rpm => DatesRun {
            dates: dates_merged(r.dates, more, more.len()),
            rpm: r.rpm + more.len(),
            ..r
        },
        Ecosystem::Alpine => DatesRun {
            dates: dates_merged(r.dates, more, more.len()),
            alpine: r.alpine + more.len(),
            ..r
        },
        Ecosystem::Unsupported => DatesRun { unsupported: r.unsupported + count_in_rows(rows), ..r },
    }
}

/// The state after the graphs from `i` on, and why there is no answer about one.
pub open spec fn graphs_taken(
    r: DatesRun,
    graphs: Seq<Seq<char>>,
    replies: Seq<Result<Vec<Fields>, CollectError>>,
    i: int,
) -> (DatesRun, Option<Failure>)
    decreases graphs.len() - i,
{
    if i < 0 || i >= graphs.len() {
        (r, None)
    } else {
        match replies[i] {
            Err(e) => (r, Some(e@)),
            Ok(rows) => graphs_taken(
                graph_taken(r, ecosystem_named(lowercase(graphs[i])), field_maps(rows@)),
                graphs,
                replies,
                i + 1,
            ),
        }
    }
}

/// Whether the counts of a run fit the machine.
pub open spec fn counts_fit(r: DatesRun) -> bool {
    r.rpm <= usize::MAX && r.alpine <= usize::MAX && r.unsupported <= usize::MAX
}

/// Counts only grow.
pub proof fn lemma_counts_grow(
    r: DatesRun,
    graphs: Seq<Seq<char>>,
    replies: Seq<Result<Vec<Fields>, CollectError>>,
    i: int,
)
    ensures
        ({
            let s = graphs_taken(r, graphs, replies, i).0;
            s.rpm >= r.rpm && s.alpine >= r.alpine && s.unsupported >= r.unsupported
        }),
    decreases graphs.len() - i,
{
    if 0 <= i < graphs.len() {
        if let Ok(rows) = replies[i] {
            lemma_counts_grow(
                graph_taken(r, ecosystem_named(lowercase(graphs[i])), field_maps(rows@)),
                graphs,
                replies,
                i + 1,
            );
        }
    }
}

/// Whether the answers about graphs of RPM packages have dates.
pub open spec fn replies_split(
    graphs: Seq<Seq<char>>,
    replies: Seq<Result<Vec<Fields>, CollectError>>,
) -> bool {
    forall|i: int|
        0 <= i < replies.len() && (#[trigger] replies[i]) is Ok && ecosystem_named(
            lowercase(graphs[i]),
        ) is Rpm ==> times_split(field_maps(replies[i]->Ok_0@))
}

/// The first `n` dates as statements.
pub open spec fn with_dates(w: Sheet, dates: Seq<(Seq<char>, Seq<char>)>, n: nat) -> Sheet
    decreases n,
{
    if n == 0 {
        w
    } else {
        date(
            with_dates(w, dates, (n - 1) as nat),
            dates[n - 1].0,
            pkg("lastReleaseDate"@),
            dates[n - 1].1,
        )
    }
}

/// Emits dates.
pub fn emit_dates(writer: &mut NTriplesWriter, dates: &Fields) -> (r: usize)
    ensures
        final(writer)@ == with_dates(old(writer)@, dates.order(), dates.order().len()),
        r == dates.order().len(),
{
    let mut i: usize = 0;
    while i < dates.len()
        invariant
            i <= dates.order().len(),
            writer@ == with_dates(old(writer)@, dates.order(), i as nat),
        decreases dates.order().len() - i,
    {
        writer.write_date(dates.key_at(i), &cat2(PKG, "lastReleaseDate"), dates.value_at(i));
        i = i + 1;
    }
    i
}

/// Derives the dates of the latest releases.
pub struct ReleaseDeriver {
    pub endpoint: String,
}

impl ReleaseDeriver {
    pub fn new(endpoint: &str) -> (r: Self)
        ensures
            r.endpoint@ == endpoint@,
    {
        ReleaseDeriver { endpoint: endpoint.to_owned() }
    }

    /// Derives the date of the latest release of each package, given what
    /// [`graph_query`] gave for each graph, and emits them. Writes nothing where there
    /// is an error. Returns `None` where the counts do not fit the machine, and then
    /// writes nothing.
    pub fn derive(
        &self,
        writer: &mut NTriplesWriter,
        graphs: &Vec<String>,
        replies: &Vec<Result<Vec<Fields>, CollectError>>,
    ) -> (r: Option<Result<DeriveReport, CollectError>>)
        requires
            graphs@.len() == replies@.len(),
            replies_split(views(graphs@), replies@),
        ensures
            ({
                let (run, error) = graphs_taken(blank_run(), views(graphs@), replies@, 0);
                let n = run.dates.len();
                if !counts_fit(run) || (error is None && n + run.unsupported > usize::MAX) {
                    r is None && final(writer)@ == old(writer)@
                } else {
                    match error {
                        Some(e) => r is Some && r->0 is Err && r->0->Err_0@ == e
                            && final(writer)@ == old(writer)@,
                        None => {
                            &&& r is Some && r->0 is Ok
                            &&& final(writer)@ == with_dates(old(writer)@, run.dates, n)
                            &&& r->0->Ok_0.total_identities == n + run.unsupported
                            &&& r->0->Ok_0.derived == n
                            &&& r->0->Ok_0.unsupported == run.unsupported
                            &&& r->0->Ok_0.triples == n
                            &&& r->0->Ok_0.by_ecosystem.rpm == run.rpm
                            &&& r->0->Ok_0.by_ecosystem.alpine == run.alpine
                            &&& r->0->Ok_0.by_ecosystem.unsupported == run.unsupported
                        },
                    }
                }
            }),
    {
        let mut dates: Fields = TextMap::new();
        let mut rpm: usize = 0;
        let mut alpine: usize = 0;
        let mut unsupported: usize = 0;
        let mut i: usize = 0;
        let ghost texts = views(graphs@);
        assert(dates.order() =~= Seq::empty());
        while i < graphs.len()
            invariant
                i <= graphs.len(),
                texts == views(graphs@),
                graphs@.len() == replies@.len(),
                replies_split(texts, replies@),
                writer@ == old(writer)@,
                graphs_taken(blank_run(), texts, replies@, 0) == graphs_taken(
                    (DatesRun {
                        dates: dates.order(),
                        rpm: rpm as nat,
                        alpine: alpine as nat,
                        unsupported: unsupported as nat,
                    }),
                    texts,
                    replies@,
                    i as int,
                ),
            decreases graphs.len() - i,
        {
            assert(texts[i as int] == graphs@[i as int]@);
            let ghost r0 = DatesRun {
                dates: dates.order(),
                rpm: rpm as nat,
                alpine: alpine as nat,
                unsupported: unsupported as nat,
            };
            proof {
                lemma_counts_grow(r0, texts, replies@, i as int);
            }
            match &replies[i] {
                Err(e) => {
                    return Some(Err(e.copied()));
                },
                Ok(rows) => {
                    let kind: Ecosystem = detect_ecosystem(&graphs[i]);
                    assert(field_maps(rows@).len() == rows@.len());
                    proof {
                        lemma_counts_grow(
                            graph_taken(r0, kind, field_maps(rows@)),
                            texts,
                            replies@,
                            i + 1,
                        );
                    }
                    match kind {
                        Ecosystem::Unsupported => {
                            match unsupported.checked_add(count_identities(rows)) {
                                Some(n) => {
                                    unsupported = n;
                                },
                                None => {
                                    return None;
                                },
                            }
                        },
                        Ecosystem::Rpm => {
                            let more: Fields = collect_dates(kind, rows);
                            match rpm.checked_add(more.len()) {
                                Some(n) => {
                                    rpm = n;
                                },
                                None => {
                                    return None;
                                },
                            }
                            merge_dates(&mut dates, &more);
                        },
                        Ecosystem::Alpine => {
                            let more: Fields = collect_dates(kind, rows);
                            match alpine.checked_add(more.len()) {
                                Some(n) => {
                                    alpine = n;
                                },
                                None => {
                                    return None;
                                },
                            }
                            merge_dates(&mut dates, &more);
                        },
                    }
                },
            }
            i = i + 1;
        }
        let derived: usize = dates.len();
        match derived.checked_add(unsupported) {
            None => None,
            Some(total_identities) => {
                let triples: usize = emit_dates(writer, &dates);
                Some(
                    Ok(
                        DeriveReport {
                            total_identities,
                            derived,
                            unsupported,
                            triples,
                            by_ecosystem: EcosystemBreakdown { rpm, alpine, unsupported },
                        },
                    ),
                )
            },
        }
    }
}

// ---------------------------------------------------------------------------
// Subjects

/// The subject of a line of N-Triples.
pub open spec fn subject_in(l: Seq<char>) -> Option<Seq<char>> {
    match find(l, "> "@) {
        Some(end) => if starts_with(l, "<"@) {
            Some(l.subrange(1, end as int))
        } else {
            None
        },
        None => None,
    }
}

/// The subjects of the first `n` lines.
pub open spec fn subjects_of(ls: Seq<Seq<char>>, n: nat) -> Seq<Seq<char>>
    decreases n,
{
    if n == 0 {
        Seq::empty()
    } else {
        let rest = subjects_of(ls, (n - 1) as nat);
        match subject_in(ls[n - 1]) {
            Some(s) => rest.push(s),
            None => rest,
        }
    }
}

fn subject_of_line(l: &str) -> (r: Option<String>)
    ensures
        opt(r) == subject_in(l@),
{
    if !has_prefix(l, "<") {
        return None;
    }
    match position(l, "> ") {
        Some(end) => {
            proof {
                lemma_find_from(l@, "> "@, 0);
                reveal_strlit("<");
                reveal_strlit("> ");
                assert(l@.take(1)[0] == '<');
                assert(l@.subrange(end as int, end + 2)[0] == '>');
            }
            let cs: Vec<char> = chars_of(l);
            Some(slice_string(&cs, 1, end))
        },
        None => None,
    }
}

/// The subjects of the lines of a file of N-Triples.
pub fn extract_identity_uris(text: &str) -> (r: Vec<String>)
    ensures
        views(r@) == subjects_of(lines_of(text@), lines_of(text@).len()),
{
    let all: Vec<String> = lines(text);
    let ghost texts = views(all@);
    let mut out: Vec<String> = Vec::new();
    let mut i: usize = 0;
    proof {
        crate::text::lemma_views_empty();
    }
    while i < all.len()
        invariant
            i <= all.len(),
            texts == views(all@),
            views(out@) == subjects_of(texts, i as nat),
        decreases all.len() - i,
    {
        assert(texts[i as int] == all@[i as int]@);
        if let Some(s) = subject_of_line(&all[i]) {
            out.push(s);
        }
        i = i + 1;
    }
    out
}

/// The subject that is read from the line of a date is the package that the date was
/// written for.
pub proof fn lemma_subject_is_read_back(
    s: Seq<char>,
    p: Seq<char>,
    value: Seq<char>,
    datatype: Seq<char>,
    graph: Option<Seq<char>>,
)
    requires
        valid_iri(s),
    ensures
        subject_in(line(Fact::Typed { s, p, value, datatype }, graph)) == Some(s),
{
    let l = line(Fact::Typed { s, p, value, datatype }, graph);
    reveal_strlit("<");
    reveal_strlit(">");
    reveal_strlit(" ");
    reveal_strlit("> ");
    let n = s.len() as int;
    assert(l[0] == '<');
    assert(forall|i: int| 0 <= i < n ==> l[i + 1] == s[i]);
    assert(l[n + 1] == '>');
    assert(l[n + 2] == ' ');
    assert(l.subrange(n + 1, n + 3) =~= "> "@);
    assert(occurs_at(l, "> "@, n + 1));
    lemma_find_from(l, "> "@, 0);
    let end = find(l, "> "@)->0 as int;
    assert(find(l, "> "@) is Some);
    assert(l.subrange(end, end + 2)[0] == '>');
    assert(l[end] == '>');
    if end < n + 1 {
        if end > 0 {
            assert(l[end] == s[end - 1]);
        }
    }
    assert(end == n + 1);
    assert(l.take(1) =~= "<"@);
    assert(l.subrange(1, end) =~= s);
}

} // verus!
