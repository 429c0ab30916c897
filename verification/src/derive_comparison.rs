//! How the builds of a distribution compare with those of the one that it rebuilds.
//!
//! For each name the newest build is assessed against the builds upstream: whether
//! there are any, how faithful it is, and how far it has drifted. What the
//! assessments say is decided elsewhere; here builds are selected, assessments are
//! written and counted, and the derived graph is put in place of the one in use.

use crate::cached_fetch::{Outcome, Query};
use crate::failure::{
    error_of, failure_of, invalid, invalid_data, invalid_if, invalid_when, unit_outcome,
    CollectError, Failure,
};
use crate::ntriples::{
    blank_sheet, boolean, datetime, define, fact, link, literal, pkg, rendered, text_of, truth,
    typed, xsd, Fact, NTriplesWriter, Sheet, DATA, PKG, XSD,
};
use crate::number::{decimal, decimal_of, parse_usize, usize_value};
use crate::order::{
    ascending, before_text, insert_sorted, lemma_listed, lemma_order_irreflexive,
    lemma_order_transitive, listed, precedes, sorted_texts,
};
use crate::percent::{lemma_encoded_texts_differ, Keep};
use crate::reading::{
    group_reading, group_tally, said, tally, times_said, to_any, to_each, to_iri, to_text, to_truth,
    Term,
};
use crate::rpmver::{
    compare_builds, lemma_order_of_versions_reverses, lemma_order_of_versions_transitive,
    order_builds, order_versions, Order,
};
use crate::split::{join, joined};
use crate::staging::{
    all_checks, assessment_count_query, assessment_subjects_query, atomic_swap_update, check_view,
    check_views, count_assessments, count_distributions, distribution_count_query,
    select_snapshots, select_subjects, snapshot_subjects_query, staging_checks, swap_update,
    StagingCheck,
};
use crate::text::{
    alphanumeric, cat2, cat3, cat5, chars_of, cut_once, debug_form, debug_text, has_item,
    has_prefix, is_alphanumeric, lemma_views_empty, opt, same, split_once, starts_with, views,
};
use crate::textmap::{field, field_maps, Fields, TextMap};
use crate::uris::{enc, encode, RDFS_LABEL, RDF_TYPE};
use crate::xml::{lemma_pairs_push, pairs_of};
use vstd::prelude::*;

verus! {

broadcast use crate::text::lemma_views_push;

/// The method by which assessments are made.
pub const ASSESSMENT_METHOD: &'static str = "rebuild-norm/v1-nostream";

// ---------------------------------------------------------------------------
// Pairs

/// A graph of rebuilds, and the graph of what they rebuild.
pub struct Pair {
    pub rebuild_graph: String,
    pub rhel_graph: String,
}

/// What a [`Pair`] says.
#[verifier::ext_equal]
pub struct PairText {
    pub rebuild_graph: Seq<char>,
    pub rhel_graph: Seq<char>,
}

impl View for Pair {
    type V = PairText;

    open spec fn view(&self) -> PairText {
        PairText {
            rebuild_graph: self.rebuild_graph@,
            rhel_graph: self.rhel_graph@,
        }
    }
}

/// The views of a list of records.
pub open spec fn pair_views(v: Seq<Pair>) -> Seq<PairText> {
    v.map_values(|x: Pair| x@)
}

/// Whether a character cannot stand in the reference to a graph.
pub open spec fn breaks_iri(c: char) -> bool {
    ||| c == '<' || c == '>' || c == '"' || c == '{' || c == '}' || c == '|'
    ||| c == '\\' || c == '^' || c == '`'
    ||| c == ' ' || c == '\t' || c == '\n' || c == '\u{c}' || c == '\r'
}

fn breaks(c: char) -> (r: bool)
    ensures
        r == breaks_iri(c),
{
    c == '<' || c == '>' || c == '"' || c == '{' || c == '}' || c == '|' || c == '\\' || c == '^'
        || c == '`' || c == ' ' || c == '\t' || c == '\n' || c == '\u{c}' || c == '\r'
}

pub open spec fn is_absolute(iri: Seq<char>) -> bool {
    starts_with(iri, "http://"@) || starts_with(iri, "https://"@)
}

pub open spec fn is_broken(iri: Seq<char>) -> bool {
    exists|i: int| 0 <= i < iri.len() && breaks_iri(#[trigger] iri[i])
}

/// What is wrong with the reference to a graph.
pub open spec fn graph_fault(iri: Seq<char>) -> Option<Seq<char>> {
    if !is_absolute(iri) {
        Some("--pair IRIs must be absolute, got: "@ + iri)
    } else if is_broken(iri) {
        Some(
            "--pair IRIs must not contain <, >, \", {, }, |, \\, ^, backtick, or whitespace, got: "@
                + iri,
        )
    } else {
        None
    }
}

fn fault_of_graph(iri: &str) -> (r: Option<String>)
    ensures
        opt(r) == graph_fault(iri@),
{
    if !(has_prefix(iri, "http://") || has_prefix(iri, "https://")) {
        return Some(cat2("--pair IRIs must be absolute, got: ", iri));
    }
    let cs: Vec<char> = chars_of(iri);
    let mut i: usize = 0;
    while i < cs.len()
        invariant
            i <= cs@.len(),
            cs@ == iri@,
            is_absolute(iri@),
            forall|k: int| 0 <= k < i ==> !breaks_iri(#[trigger] iri@[k]),
        decreases cs@.len() - i,
    {
        if breaks(cs[i]) {
            assert(breaks_iri(iri@[i as int]));
            return Some(
                cat2(
                    "--pair IRIs must not contain <, >, \", {, }, |, \\, ^, backtick, or whitespace, got: ",
                    iri,
                ),
            );
        }
        i = i + 1;
    }
    None
}

/// The pair that a text denotes: two references to graphs with a sign of equality
/// between them.
pub open spec fn pair_in(s: Seq<char>) -> Result<PairText, Failure> {
    match split_once(s, "="@) {
        None => Err(invalid_data("--pair must be rebuild=rhel, got: "@ + s)),
        Some(kv) => match graph_fault(kv.0) {
            Some(e) => Err(invalid_data(e)),
            None => match graph_fault(kv.1) {
                Some(e) => Err(invalid_data(e)),
                None => Ok(PairText { rebuild_graph: kv.0, rhel_graph: kv.1 }),
            },
        },
    }
}

pub open spec fn pair_outcome(r: Result<Pair, CollectError>) -> Result<PairText, Failure> {
    match r {
        Ok(p) => Ok(p@),
        Err(e) => Err(e@),
    }
}

/// Parses a pair of graphs.
pub fn parse_pair(s: &str) -> (r: Result<Pair, CollectError>)
    ensures
        pair_outcome(r) == pair_in(s@),
{
    match cut_once(s, "=") {
        None => Err(invalid(cat2("--pair must be rebuild=rhel, got: ", s))),
        Some((rebuild_graph, rhel_graph)) => {
            if let Some(e) = fault_of_graph(&rebuild_graph) {
                return Err(invalid(e));
            }
            if let Some(e) = fault_of_graph(&rhel_graph) {
                return Err(invalid(e));
            }
            Ok(Pair { rebuild_graph, rhel_graph })
        },
    }
}

/// Whether a text can name a run: it is not empty, and has nothing but letters,
/// digits, dots, underscores and hyphens.
pub open spec fn is_run_token(t: Seq<char>) -> bool {
    t.len() > 0 && forall|i: int|
        0 <= i < t.len() ==> is_alphanumeric(#[trigger] t[i]) || t[i] == '.' || t[i] == '_'
            || t[i] == '-'
}

pub fn valid_run_token(t: &str) -> (r: bool)
    ensures
        r == is_run_token(t@),
{
    let cs: Vec<char> = chars_of(t);
    if cs.len() == 0 {
        return false;
    }
    let mut i: usize = 0;
    while i < cs.len()
        invariant
            i <= cs@.len(),
            cs@ == t@,
            forall|k: int|
                0 <= k < i ==> is_alphanumeric(#[trigger] t@[k]) || t@[k] == '.' || t@[k] == '_'
                    || t@[k] == '-',
        decreases cs@.len() - i,
    {
        if !(alphanumeric(cs[i]) || cs[i] == '.' || cs[i] == '_' || cs[i] == '-') {
            return false;
        }
        i = i + 1;
    }
    true
}

// ---------------------------------------------------------------------------
// Builds

/// A build of a source package.
#[derive(Debug, Clone, PartialEq)]
pub struct Build {
    pub node_uri: String,
    pub epoch: i64,
    pub version: String,
    pub release: String,
}

/// What a [`Build`] says.
#[verifier::ext_equal]
pub struct BuildText {
    pub node_uri: Seq<char>,
    pub epoch: i64,
    pub version: Seq<char>,
    pub release: Seq<char>,
}

impl View for Build {
    type V = BuildText;

    open spec fn view(&self) -> BuildText {
        BuildText {
            node_uri: self.node_uri@,
            epoch: self.epoch,
            version: self.version@,
            release: self.release@,
        }
    }
}

/// The views of a list of records.
pub open spec fn build_views(v: Seq<Build>) -> Seq<BuildText> {
    v.map_values(|x: Build| x@)
}

/// A row about a source package and one of the packages built from it.
pub struct SourceRow {
    pub name: String,
    pub uri: String,
    pub epoch: i64,
    pub version: String,
    pub release: String,
}

/// What a [`SourceRow`] says.
#[verifier::ext_equal]
pub struct RowText {
    pub name: Seq<char>,
    pub uri: Seq<char>,
    pub epoch: i64,
    pub version: Seq<char>,
    pub release: Seq<char>,
}

impl View for SourceRow {
    type V = RowText;

    open spec fn view(&self) -> RowText {
        RowText {
            name: self.name@,
            uri: self.uri@,
            epoch: self.epoch,
            version: self.version@,
            release: self.release@,
        }
    }
}

/// The views of a list of records.
pub open spec fn source_row_views(v: Seq<SourceRow>) -> Seq<RowText> {
    v.map_values(|x: SourceRow| x@)
}

/// Builds with the names of their source packages.
pub open spec fn named_views(v: Seq<(String, Build)>) -> Seq<(Seq<char>, BuildText)> {
    v.map_values(|p: (String, Build)| (p.0@, p.1@))
}

/// Where the build of a source package is.
pub open spec fn build_at(
    builds: Seq<(Seq<char>, BuildText)>,
    uri: Seq<char>,
    i: int,
) -> Option<int>
    decreases builds.len() - i,
{
    if i < 0 || i >= builds.len() {
        None
    } else if builds[i].1.node_uri == uri {
        Some(i)
    } else {
        build_at(builds, uri, i + 1)
    }
}

/// The builds after one more row: a source package has one build, with the greatest
/// epoch among its rows.
pub open spec fn row_added(
    builds: Seq<(Seq<char>, BuildText)>,
    row: RowText,
) -> Seq<(Seq<char>, BuildText)> {
    match build_at(builds, row.uri, 0) {
        Some(i) => {
            let (name, b) = builds[i];
            if row.epoch > b.epoch {
                builds.update(i, (name, BuildText { epoch: row.epoch, ..b }))
            } else {
                builds
            }
        },
        None => builds.push(
            (
                row.name,
                BuildText {
                    node_uri: row.uri,
                    epoch: row.epoch,
                    version: row.version,
                    release: row.release,
                },
            ),
        ),
    }
}

/// The builds that the first `n` rows give.
pub open spec fn rows_added(rows: Seq<RowText>, n: nat) -> Seq<(Seq<char>, BuildText)>
    decreases n,
{
    if n == 0 {
        Seq::empty()
    } else {
        row_added(rows_added(rows, (n - 1) as nat), rows[n - 1])
    }
}

proof fn lemma_build_at(builds: Seq<(Seq<char>, BuildText)>, uri: Seq<char>, i: int)
    requires
        0 <= i,
    ensures
        match build_at(builds, uri, i) {
            Some(k) => i <= k < builds.len() && builds[k].1.node_uri == uri,
            None => forall|k: int| i <= k < builds.len() ==> (#[trigger] builds[k]).1.node_uri != uri,
        },
    decreases builds.len() - i,
{
    if i < builds.len() && builds[i].1.node_uri != uri {
        lemma_build_at(builds, uri, i + 1);
    }
}

/// Rows about the same source package give one build, and its epoch is the greatest
/// of theirs.
pub proof fn lemma_one_build_for_each_source(rows: Seq<RowText>, n: nat)
    requires
        n <= rows.len(),
    ensures
        forall|i: int, j: int|
            0 <= i < j < rows_added(rows, n).len() ==> (#[trigger] rows_added(rows, n)[i]).1.node_uri
                != (#[trigger] rows_added(rows, n)[j]).1.node_uri,
        forall|k: int|
            0 <= k < n ==> has_build((#[trigger] rows[k]).uri, rows[k].epoch, rows_added(rows, n)),
        forall|i: int|
            0 <= i < rows_added(rows, n).len() ==> has_row(
                (#[trigger] rows_added(rows, n)[i]).1.node_uri,
                rows_added(rows, n)[i].1.epoch,
                rows,
                n,
            ),
    decreases n,
{
    if n > 0 {
        lemma_one_build_for_each_source(rows, (n - 1) as nat);
        let was = rows_added(rows, (n - 1) as nat);
        let now = rows_added(rows, n);
        let row = rows[n - 1];
        lemma_build_at(was, row.uri, 0);
        match build_at(was, row.uri, 0) {
            Some(at) => {
                assert(now[at].1.node_uri == row.uri && now[at].1.epoch >= row.epoch);
            },
            None => {
                assert(now[was.len() as int].1.node_uri == row.uri);
            },
        }
        assert forall|k: int| 0 <= k < n implies has_build(
            (#[trigger] rows[k]).uri,
            rows[k].epoch,
            now,
        ) by {
            if k < n - 1 {
                assert(has_build(rows[k].uri, rows[k].epoch, was));
                let i: int = choose|i: int|
                    0 <= i < was.len() && (#[trigger] was[i]).1.node_uri == rows[k].uri
                        && was[i].1.epoch >= rows[k].epoch;
                assert(now[i].1.node_uri == rows[k].uri && now[i].1.epoch >= rows[k].epoch);
            }
        }
        assert forall|i: int| 0 <= i < now.len() implies has_row(
            (#[trigger] now[i]).1.node_uri,
            now[i].1.epoch,
            rows,
            n,
        ) by {
            if i < was.len() && was[i] == now[i] {
                assert(has_row(was[i].1.node_uri, was[i].1.epoch, rows, (n - 1) as nat));
                let k = choose|k: int|
                    0 <= k < n - 1 && (#[trigger] rows[k]).uri == was[i].1.node_uri
                        && rows[k].epoch == was[i].1.epoch;
                assert(rows[k].uri == now[i].1.node_uri);
            } else {
                assert(rows[n - 1].uri == now[i].1.node_uri);
            }
        }
    }
}

/// Whether a source package has a build with at least some epoch.
pub open spec fn has_build(
    uri: Seq<char>,
    epoch: i64,
    builds: Seq<(Seq<char>, BuildText)>,
) -> bool {
    exists|i: int|
        0 <= i < builds.len() && (#[trigger] builds[i]).1.node_uri == uri && builds[i].1.epoch
            >= epoch
}

/// Whether one of the first `n` rows is about a source package and has some epoch.
pub open spec fn has_row(uri: Seq<char>, epoch: i64, rows: Seq<RowText>, n: nat) -> bool {
    exists|k: int| 0 <= k < n && (#[trigger] rows[k]).uri == uri && rows[k].epoch == epoch
}

/// Collapses rows about the same source package.
pub fn aggregate_source_rows(rows: &Vec<SourceRow>) -> (r: Vec<(String, Build)>)
    ensures
        named_views(r@) == rows_added(source_row_views(rows@), rows@.len()),
{
    let mut out: Vec<(String, Build)> = Vec::new();
    let mut i: usize = 0;
    let ghost texts = source_row_views(rows@);
    assert(named_views(out@) =~= Seq::empty());
    while i < rows.len()
        invariant
            i <= rows.len(),
            texts == source_row_views(rows@),
            named_views(out@) == rows_added(texts, i as nat),
        decreases rows.len() - i,
    {
        let row: &SourceRow = &rows[i];
        assert(texts[i as int] == row@);
        let ghost was = named_views(out@);
        let mut k: usize = 0;
        while k < out.len() && !same(&out[k].1.node_uri, &row.uri)
            invariant
                k <= out@.len(),
                was == named_views(out@),
                build_at(was, row.uri@, 0) == build_at(was, row.uri@, k as int),
            decreases out@.len() - k,
        {
            assert(was[k as int].1 == out@[k as int].1@);
            k = k + 1;
        }
        if k < out.len() {
            assert(was[k as int].1 == out@[k as int].1@);
            if row.epoch > out[k].1.epoch {
                let name: String = out[k].0.clone();
                let b: Build = Build {
                    node_uri: out[k].1.node_uri.clone(),
                    epoch: row.epoch,
                    version: out[k].1.version.clone(),
                    release: out[k].1.release.clone(),
                };
                out.set(k, (name, b));
                assert(named_views(out@) =~= row_added(was, row@));
            }
        } else {
            let b: Build = Build {
                node_uri: row.uri.clone(),
                epoch: row.epoch,
                version: row.version.clone(),
                release: row.release.clone(),
            };
            out.push((row.name.clone(), b));
            assert(named_views(out@) =~= row_added(was, row@));
        }
        i = i + 1;
    }
    out
}

// ---------------------------------------------------------------------------
// Selection

/// Whether a build goes before another: it is newer, or as new and first by its
/// identifier.
pub open spec fn goes_before(b: BuildText, a: BuildText) -> bool {
    match order_builds(b.epoch, b.version, b.release, a.epoch, a.version, a.release) {
        Order::Greater => true,
        Order::Equal => before_text(b.node_uri, a.node_uri),
        Order::Less => false,
    }
}

/// The newest build of a name among the first `n`.
pub open spec fn newest(
    builds: Seq<(Seq<char>, BuildText)>,
    name: Seq<char>,
    n: nat,
) -> Option<BuildText>
    decreases n,
{
    if n == 0 {
        None
    } else {
        let rest = newest(builds, name, (n - 1) as nat);
        let (other, b) = builds[n - 1];
        if other != name {
            rest
        } else {
            match rest {
                None => Some(b),
                Some(a) => if goes_before(b, a) {
                    Some(b)
                } else {
                    Some(a)
                },
            }
        }
    }
}

proof fn lemma_chain(x: BuildText, y: BuildText, z: BuildText)
    requires
        goes_before(x, y),
        goes_before(y, z),
    ensures
        goes_before(x, z),
{
    lemma_order_of_versions_reverses(x.version, y.version);
    lemma_order_of_versions_reverses(y.version, z.version);
    lemma_order_of_versions_reverses(x.version, z.version);
    lemma_order_of_versions_reverses(x.release, y.release);
    lemma_order_of_versions_reverses(y.release, z.release);
    lemma_order_of_versions_reverses(x.release, z.release);
    if !(order_versions(z.version, y.version) is Greater) && !(order_versions(
        y.version,
        x.version,
    ) is Greater) {
        lemma_order_of_versions_transitive(z.version, y.version, x.version);
    }
    if !(order_versions(z.release, y.release) is Greater) && !(order_versions(
        y.release,
        x.release,
    ) is Greater) {
        lemma_order_of_versions_transitive(z.release, y.release, x.release);
    }
    if before_text(x.node_uri, y.node_uri) && before_text(y.node_uri, z.node_uri) {
        lemma_order_transitive(x.node_uri, y.node_uri, z.node_uri);
    }
}

/// No build of a name goes before the newest one.
pub proof fn lemma_newest_is_newest(
    builds: Seq<(Seq<char>, BuildText)>,
    name: Seq<char>,
    n: nat,
    k: int,
)
    requires
        n <= builds.len(),
        0 <= k < n,
        builds[k].0 == name,
    ensures
        newest(builds, name, n) is Some,
        !goes_before(builds[k].1, newest(builds, name, n)->0),
    decreases n,
{
    let (other, b) = builds[n - 1];
    if k < n - 1 {
        lemma_newest_is_newest(builds, name, (n - 1) as nat, k);
        let a = newest(builds, name, (n - 1) as nat)->0;
        if other == name && goes_before(b, a) && goes_before(builds[k].1, b) {
            lemma_chain(builds[k].1, b, a);
        }
    } else {
        lemma_not_before_itself(b);
    }
}

proof fn lemma_not_before_itself(b: BuildText)
    ensures
        !goes_before(b, b),
{
    lemma_order_of_versions_reverses(b.version, b.version);
    lemma_order_of_versions_reverses(b.release, b.release);
    lemma_order_irreflexive(b.node_uri);
}

/// The names of the first `n` builds, each once, in order of appearance.
pub open spec fn names_in(builds: Seq<(Seq<char>, BuildText)>, n: nat) -> Seq<Seq<char>>
    decreases n,
{
    if n == 0 {
        Seq::empty()
    } else {
        let rest = names_in(builds, (n - 1) as nat);
        if rest.contains(builds[n - 1].0) {
            rest
        } else {
            rest.push(builds[n - 1].0)
        }
    }
}

/// The builds of a name among the first `n`, in order.
pub open spec fn builds_named(
    builds: Seq<(Seq<char>, BuildText)>,
    name: Seq<char>,
    n: nat,
) -> Seq<BuildText>
    decreases n,
{
    if n == 0 {
        Seq::empty()
    } else {
        let rest = builds_named(builds, name, (n - 1) as nat);
        if builds[n - 1].0 == name {
            rest.push(builds[n - 1].1)
        } else {
            rest
        }
    }
}

/// What is known of a pair of graphs.
pub struct PairData {
    pub rebuild_dist: String,
    pub rhel_dist: String,
    pub rhel_graph: String,
    pub rebuild_builds: Vec<(String, Build)>,
    pub rhel_builds: Vec<(String, Build)>,
}

/// What a [`PairData`] says.
#[verifier::ext_equal]
pub struct PairFacts {
    pub rebuild_dist: Seq<char>,
    pub rhel_dist: Seq<char>,
    pub rhel_graph: Seq<char>,
    pub rebuild_builds: Seq<(Seq<char>, BuildText)>,
    pub rhel_builds: Seq<(Seq<char>, BuildText)>,
}

impl View for PairData {
    type V = PairFacts;

    open spec fn view(&self) -> PairFacts {
        PairFacts {
            rebuild_dist: self.rebuild_dist@,
            rhel_dist: self.rhel_dist@,
            rhel_graph: self.rhel_graph@,
            rebuild_builds: named_views(self.rebuild_builds@),
            rhel_builds: named_views(self.rhel_builds@),
        }
    }
}

pub open spec fn pair_facts(v: Seq<PairData>) -> Seq<PairFacts> {
    v.map_values(|p: PairData| p@)
}

/// The newest build of a name, and the builds upstream to assess it against.
pub struct Selection {
    pub newest: Build,
    pub upstream: Vec<Build>,
}

/// What a [`Selection`] says.
#[verifier::ext_equal]
pub struct Selected {
    pub newest: BuildText,
    pub upstream: Seq<BuildText>,
}

impl View for Selection {
    type V = Selected;

    open spec fn view(&self) -> Selected {
        Selected { newest: self.newest@, upstream: build_views(self.upstream@) }
    }
}

pub open spec fn selection_views(v: Seq<Selection>) -> Seq<Selected> {
    v.map_values(|s: Selection| s@)
}

/// The names to assess in a pair of graphs.
pub open spec fn assessed_names(p: PairFacts) -> Seq<Seq<char>> {
    names_in(p.rebuild_builds, p.rebuild_builds.len())
}

/// What is selected for a name.
pub open spec fn selected(p: PairFacts, name: Seq<char>) -> Selected {
    Selected {
        newest: newest(p.rebuild_builds, name, p.rebuild_builds.len())->0,
        upstream: builds_named(p.rhel_builds, name, p.rhel_builds.len()),
    }
}

/// What is selected in a pair of graphs.
pub open spec fn selections(p: PairFacts) -> Seq<Selected> {
    Seq::new(assessed_names(p).len(), |i: int| selected(p, assessed_names(p)[i]))
}

fn copied_build(b: &Build) -> (r: Build)
    ensures
        r@ == b@,
{
    Build {
        node_uri: b.node_uri.clone(),
        epoch: b.epoch,
        version: b.version.clone(),
        release: b.release.clone(),
    }
}

fn precedes_build(b: &Build, a: &Build) -> (r: bool)
    ensures
        r == goes_before(b@, a@),
{
    match compare_builds(b.epoch, &b.version, &b.release, a.epoch, &a.version, &a.release) {
        Order::Greater => true,
        Order::Equal => precedes(&b.node_uri, &a.node_uri),
        Order::Less => false,
    }
}

fn distinct_names(builds: &Vec<(String, Build)>) -> (r: Vec<String>)
    ensures
        views(r@) == names_in(named_views(builds@), builds@.len()),
{
    let mut out: Vec<String> = Vec::new();
    let mut i: usize = 0;
    let ghost texts = named_views(builds@);
    proof {
        lemma_views_empty();
    }
    while i < builds.len()
        invariant
            i <= builds.len(),
            texts == named_views(builds@),
            views(out@) == names_in(texts, i as nat),
        decreases builds.len() - i,
    {
        assert(texts[i as int].0 == builds@[i as int].0@);
        if !has_item(&out, &builds[i].0) {
            out.push(builds[i].0.clone());
        }
        i = i + 1;
    }
    out
}

fn newest_of(builds: &Vec<(String, Build)>, name: &str) -> (r: Option<Build>)
    ensures
        match r {
            Some(b) => newest(named_views(builds@), name@, builds@.len()) == Some(b@),
            None => newest(named_views(builds@), name@, builds@.len()) is None,
        },
{
    let mut best: Option<usize> = None;
    let mut i: usize = 0;
    let ghost texts = named_views(builds@);
    while i < builds.len()
        invariant
            i <= builds.len(),
            texts == named_views(builds@),
            match best {
                Some(k) => k < builds@.len() && newest(texts, name@, i as nat) == Some(
                    builds@[k as int].1@,
                ),
                None => newest(texts, name@, i as nat) is None,
            },
        decreases builds.len() - i,
    {
        assert(texts[i as int] == (builds@[i as int].0@, builds@[i as int].1@));
        if same(&builds[i].0, name) {
            best = match best {
                None => Some(i),
                Some(k) => if precedes_build(&builds[i].1, &builds[k].1) {
                    Some(i)
                } else {
                    Some(k)
                },
            };
        }
        i = i + 1;
    }
    match best {
        Some(k) => Some(copied_build(&builds[k].1)),
        None => None,
    }
}

fn all_named(builds: &Vec<(String, Build)>, name: &str) -> (r: Vec<Build>)
    ensures
        build_views(r@) == builds_named(named_views(builds@), name@, builds@.len()),
{
    let mut out: Vec<Build> = Vec::new();
    let mut i: usize = 0;
    let ghost texts = named_views(builds@);
    assert(build_views(out@) =~= Seq::empty());
    while i < builds.len()
        invariant
            i <= builds.len(),
            texts == named_views(builds@),
            build_views(out@) == builds_named(texts, name@, i as nat),
        decreases builds.len() - i,
    {
        assert(texts[i as int] == (builds@[i as int].0@, builds@[i as int].1@));
        if same(&builds[i].0, name) {
            let ghost was = out@;
            let b: Build = copied_build(&builds[i].1);
            out.push(b);
            assert(build_views(out@) =~= build_views(was).push(b@));
        }
        i = i + 1;
    }
    out
}

proof fn lemma_names_have_builds(builds: Seq<(Seq<char>, BuildText)>, n: nat, i: int)
    requires
        n <= builds.len(),
        0 <= i < names_in(builds, n).len(),
    ensures
        newest(builds, names_in(builds, n)[i], n) is Some,
    decreases n,
{
    if n > 0 {
        let rest = names_in(builds, (n - 1) as nat);
        if i < rest.len() {
            lemma_names_have_builds(builds, (n - 1) as nat, i);
        }
    }
}

/// Selects the newest build of each name in a pair of graphs.
pub fn select_builds(p: &PairData) -> (r: Vec<Selection>)
    ensures
        selection_views(r@) == selections(p@),
{
    let names: Vec<String> = distinct_names(&p.rebuild_builds);
    let mut out: Vec<Selection> = Vec::new();
    let mut i: usize = 0;
    let ghost texts = views(names@);
    while i < names.len()
        invariant
            i <= names.len(),
            texts == views(names@),
            texts == assessed_names(p@),
            out@.len() == i,
            forall|k: int| 0 <= k < i ==> (#[trigger] out@[k])@ == selected(p@, texts[k]),
        decreases names.len() - i,
    {
        assert(texts[i as int] == names@[i as int]@);
        proof {
            lemma_names_have_builds(
                p@.rebuild_builds,
                p@.rebuild_builds.len(),
                i as int,
            );
        }
        if let Some(newest) = newest_of(&p.rebuild_builds, &names[i]) {
            let upstream: Vec<Build> = all_named(&p.rhel_builds, &names[i]);
            out.push(Selection { newest, upstream });
        }
        i = i + 1;
    }
    assert(selection_views(out@) =~= selections(p@));
    out
}

// ---------------------------------------------------------------------------
// Assessments

/// How faithful a build is to what it rebuilds.
pub struct Fidelity {
    pub concept: String,
    pub confidence: String,
    pub baseline: Option<String>,
    pub ambiguous_candidates: Vec<String>,
}

/// What a [`Fidelity`] says.
#[verifier::ext_equal]
pub struct FidelityText {
    pub concept: Seq<char>,
    pub confidence: Seq<char>,
    pub baseline: Option<Seq<char>>,
    pub ambiguous_candidates: Seq<Seq<char>>,
}

impl View for Fidelity {
    type V = FidelityText;

    open spec fn view(&self) -> FidelityText {
        FidelityText {
            concept: self.concept@,
            confidence: self.confidence@,
            baseline: crate::text::opt(self.baseline),
            ambiguous_candidates: crate::text::views(self.ambiguous_candidates@),
        }
    }
}

/// How far a build has drifted from what it rebuilds.
pub struct Drift {
    pub concept: String,
    pub compared_against: String,
}

/// What a [`Drift`] says.
#[verifier::ext_equal]
pub struct DriftText {
    pub concept: Seq<char>,
    pub compared_against: Seq<char>,
}

impl View for Drift {
    type V = DriftText;

    open spec fn view(&self) -> DriftText {
        DriftText {
            concept: self.concept@,
            compared_against: self.compared_against@,
        }
    }
}

/// What is known of a build against those upstream.
pub struct Assessment {
    pub has_upstream_counterpart: bool,
    pub fidelity: Option<Fidelity>,
    pub drift: Option<Drift>,
}

/// What a [`Assessment`] says.
#[verifier::ext_equal]
pub struct AssessmentText {
    pub has_upstream_counterpart: bool,
    pub fidelity: Option<FidelityText>,
    pub drift: Option<DriftText>,
}

impl View for Assessment {
    type V = AssessmentText;

    open spec fn view(&self) -> AssessmentText {
        AssessmentText {
            has_upstream_counterpart: self.has_upstream_counterpart,
            fidelity: match self.fidelity { Some(x) => Some(x@), None => None },
            drift: match self.drift { Some(x) => Some(x@), None => None },
        }
    }
}

/// The views of a list of records.
pub open spec fn assessment_views(v: Seq<Assessment>) -> Seq<AssessmentText> {
    v.map_values(|x: Assessment| x@)
}

/// The assessment of a build in a run.
pub open spec fn assessment_node(node: Seq<char>, run_token: Seq<char>) -> Seq<char> {
    node + "/assessment/"@ + enc(run_token)
}

/// The identifier of the assessment of a build. It is that of the run: another run
/// has another.
pub fn assessment_iri(node_uri: &str, run_token: &str) -> (r: String)
    ensures
        r@ == assessment_node(node_uri@, run_token@),
{
    cat3(node_uri, "/assessment/", &encode(run_token))
}

/// The snapshot of a graph in a run.
pub open spec fn snapshot_node(graph: Seq<char>, run_token: Seq<char>) -> Seq<char> {
    DATA@ + "snapshot/"@ + ASSESSMENT_METHOD@ + "/"@ + enc(graph) + "/"@ + enc(run_token)
}

/// The identifier of the state of a graph that a run saw.
pub fn snapshot_iri(upstream_graph: &str, run_token: &str) -> (r: String)
    ensures
        r@ == snapshot_node(upstream_graph@, run_token@),
{
    let mut iri: String = cat5(
        DATA,
        "snapshot/",
        ASSESSMENT_METHOD,
        "/",
        &encode(upstream_graph),
    );
    iri.append("/");
    iri.append(&encode(run_token));
    iri
}

/// A build that may be the one that was rebuilt.
pub open spec fn with_candidate(w: Sheet, node: Seq<char>, candidate: Seq<char>) -> Sheet {
    link(w, node, pkg("ambiguousCandidate"@), candidate)
}

/// The first `n` of `items`, in order.
pub open spec fn with_each_candidate(
    w: Sheet,
    node: Seq<char>,
    items: Seq<Seq<char>>,
    n: nat,
) -> Sheet
    decreases n,
{
    if n == 0 {
        w
    } else {
        with_candidate(with_each_candidate(w, node, items, (n - 1) as nat), node, items[n - 1])
    }
}

/// A build that may be the one that was rebuilt.
pub fn emit_candidate(writer: &mut NTriplesWriter, node: &str, candidate: &str) -> (r: usize)
    ensures
        final(writer)@ == with_candidate(old(writer)@, node@, candidate@),
        r == final(writer)@.log.len() - old(writer)@.log.len(),
{
    let start: usize = writer.len();
    writer.write_triple(node, &cat2(PKG, "ambiguousCandidate"), candidate);
    writer.len() - start
}

/// How faithful a build is.
pub open spec fn with_fidelity(w: Sheet, node: Seq<char>, f: FidelityText) -> Sheet {
    let w = link(w, node, pkg("rebuildFidelity"@), PKG@ + f.concept);
    let w = typed(w, node, pkg("assessmentConfidence"@), f.confidence, xsd("decimal"@));
    let w = match f.baseline {
        Some(b) => {
            link(w, node, pkg("fidelityBaseline"@), b)
        },
        None => w,
    };
    with_each_candidate(w, node, f.ambiguous_candidates, f.ambiguous_candidates.len())
}

/// How faithful a build is.
pub fn emit_fidelity(writer: &mut NTriplesWriter, node: &str, f: &Fidelity) -> (r: usize)
    ensures
        final(writer)@ == with_fidelity(old(writer)@, node@, f@),
        r == final(writer)@.log.len() - old(writer)@.log.len(),
{
    let start: usize = writer.len();
    writer.write_triple(node, &cat2(PKG, "rebuildFidelity"), &cat2(PKG, &f.concept));
    writer.write_typed_literal(
        node,
        &cat2(PKG, "assessmentConfidence"),
        &f.confidence,
        &cat2(XSD, "decimal"),
    );
    if let Some(b) = &f.baseline {
        writer.write_triple(node, &cat2(PKG, "fidelityBaseline"), b);
    }
    let ghost before_candidate = writer@;
    let mut i: usize = 0;
    while i < f.ambiguous_candidates.len()
        invariant
            i <= f.ambiguous_candidates.len(),
            before_candidate.log.len() <= writer@.log.len(),
            writer@ == with_each_candidate(
                before_candidate,
                node@,
                views(f.ambiguous_candidates@),
                i as nat,
            ),
        decreases f.ambiguous_candidates.len() - i,
    {
        emit_candidate(writer, node, &f.ambiguous_candidates[i]);
        i = i + 1;
    }
    writer.len() - start
}

/// An assessment. Lineage is never confirmed.
pub open spec fn with_assessment(
    w: Sheet,
    build: Seq<char>,
    snapshot: Seq<char>,
    assessed_at: Seq<char>,
    run_token: Seq<char>,
    a: AssessmentText,
) -> Sheet {
    let node = assessment_node(build, run_token);
    let w = link(w, node, RDF_TYPE@, pkg("RebuildAssessment"@));
    let w = link(w, node, pkg("assessmentOf"@), build);
    let w = datetime(w, node, pkg("assessedAt"@), assessed_at);
    let w = literal(w, node, pkg("assessmentMethod"@), ASSESSMENT_METHOD@);
    let w = link(w, node, pkg("assessedAgainstSnapshot"@), snapshot);
    let w = boolean(w, node, pkg("hasUpstreamCounterpart"@), a.has_upstream_counterpart);
    let w = boolean(w, node, pkg("lineageConfirmed"@), false);
    let w = match a.fidelity {
        Some(f) => {
            with_fidelity(w, node, f)
        },
        None => w,
    };
    let w = match a.drift {
        Some(d) => {
            let w = link(w, node, pkg("rebuildDrift"@), PKG@ + d.concept);
            link(w, node, pkg("comparedAgainst"@), d.compared_against)
        },
        None => w,
    };
    w
}

/// An assessment. Lineage is never confirmed.
pub fn emit_assessment(
    writer: &mut NTriplesWriter,
    build: &str,
    snapshot: &str,
    assessed_at: &str,
    run_token: &str,
    a: &Assessment,
) -> (r: usize)
    ensures
        final(writer)@ == with_assessment(
            old(writer)@,
            build@,
            snapshot@,
            assessed_at@,
            run_token@,
            a@,
        ),
        r == final(writer)@.log.len() - old(writer)@.log.len(),
        r >= 1,
{
    let start: usize = writer.len();
    let node: String = assessment_iri(build, run_token);
    writer.write_triple(&node, RDF_TYPE, &cat2(PKG, "RebuildAssessment"));
    writer.write_triple(&node, &cat2(PKG, "assessmentOf"), build);
    writer.write_datetime(&node, &cat2(PKG, "assessedAt"), assessed_at);
    writer.write_literal(&node, &cat2(PKG, "assessmentMethod"), ASSESSMENT_METHOD);
    writer.write_triple(&node, &cat2(PKG, "assessedAgainstSnapshot"), snapshot);
    writer.write_boolean(&node, &cat2(PKG, "hasUpstreamCounterpart"), a.has_upstream_counterpart);
    writer.write_boolean(&node, &cat2(PKG, "lineageConfirmed"), false);
    if let Some(f) = &a.fidelity {
        emit_fidelity(writer, &node, f);
    }
    if let Some(d) = &a.drift {
        writer.write_triple(&node, &cat2(PKG, "rebuildDrift"), &cat2(PKG, &d.concept));
        writer.write_triple(&node, &cat2(PKG, "comparedAgainst"), &d.compared_against);
    }
    writer.len() - start
}

/// The label of a snapshot.
pub open spec fn snapshot_label(graph: Seq<char>, run_token: Seq<char>) -> Seq<char> {
    "Upstream snapshot for "@ + ASSESSMENT_METHOD@ + ", graph "@ + graph + ", run "@ + run_token
}

fn label_of_snapshot(graph: &str, run_token: &str) -> (r: String)
    ensures
        r@ == snapshot_label(graph@, run_token@),
{
    let mut label: String = cat5(
        "Upstream snapshot for ",
        ASSESSMENT_METHOD,
        ", graph ",
        graph,
        ", run ",
    );
    label.append(run_token);
    label
}

/// The state of a graph that a run saw, described once.
pub open spec fn with_snapshot(
    w: Sheet,
    graph: Seq<char>,
    run_token: Seq<char>,
    assessed_at: Seq<char>,
) -> Sheet {
    let node = snapshot_node(graph, run_token);
    let w = define(w, Fact::Link { s: node, p: RDF_TYPE@, o: pkg("DataSnapshot"@) });
    let label = snapshot_label(graph, run_token);
    let w = define(w, Fact::Text { s: node, p: RDFS_LABEL@, value: label });
    let w = define(
        w,
        Fact::Typed { s: node, p: pkg("snapshotTimestamp"@), value: assessed_at, datatype: xsd("dateTime"@) },
    );
    let w = define(w, Fact::Text { s: node, p: pkg("snapshotSource"@), value: graph });
    w
}

/// The state of a graph that a run saw, described once.
pub fn emit_snapshot(
    writer: &mut NTriplesWriter,
    graph: &str,
    run_token: &str,
    assessed_at: &str,
) -> (r: usize)
    ensures
        final(writer)@ == with_snapshot(old(writer)@, graph@, run_token@, assessed_at@),
        r == final(writer)@.log.len() - old(writer)@.log.len(),
{
    let start: usize = writer.len();
    let node: String = snapshot_iri(graph, run_token);
    writer.write_triple_once(&node, RDF_TYPE, &cat2(PKG, "DataSnapshot"));
    let label: String = label_of_snapshot(graph, run_token);
    writer.write_literal_once(&node, RDFS_LABEL, &label);
    writer.write_datetime_once(&node, &cat2(PKG, "snapshotTimestamp"), assessed_at);
    writer.write_literal_once(&node, &cat2(PKG, "snapshotSource"), graph);
    writer.len() - start
}

/// That a distribution is derived from another.
pub open spec fn with_derivation(w: Sheet, rebuild: Seq<char>, upstream: Seq<char>) -> Sheet {
    link(w, rebuild, pkg("derivedFromDistribution"@), upstream)
}

/// That a distribution is derived from another.
pub fn emit_derivation(writer: &mut NTriplesWriter, rebuild: &str, upstream: &str) -> (r: usize)
    ensures
        final(writer)@ == with_derivation(old(writer)@, rebuild@, upstream@),
        r == final(writer)@.log.len() - old(writer)@.log.len(),
        r >= 1,
{
    let start: usize = writer.len();
    writer.write_triple(rebuild, &cat2(PKG, "derivedFromDistribution"), upstream);
    writer.len() - start
}

// ---------------------------------------------------------------------------
// Reports

/// A number of assessments.
#[derive(Debug)]
pub struct Count {
    pub n: usize,
}

impl View for Count {
    type V = nat;

    open spec fn view(&self) -> nat {
        self.n as nat
    }
}

/// What a run came to.
pub struct RebuildReport {
    pub pairs: usize,
    pub assessments: usize,
    pub presence_true: usize,
    pub presence_false: usize,
    /// How many assessments have each kind of fidelity.
    pub fidelity_counts: TextMap<Count>,
    /// How many assessments have each kind of drift.
    pub drift_counts: TextMap<Count>,
    /// How many assessments have candidates in place of a baseline.
    pub ambiguous_count: usize,
    /// How many derivations of distributions there are.
    pub distribution_count: usize,
    /// The builds that were assessed, in ascending order.
    pub assessment_subjects: Vec<String>,
    /// The snapshots that they were assessed against, in ascending order.
    pub snapshot_subjects: Vec<String>,
    pub triples: usize,
}

/// What a [`RebuildReport`] says, but for the number of statements.
#[verifier::ext_equal]
pub struct ReportText {
    pub assessments: nat,
    pub presence_true: nat,
    pub presence_false: nat,
    pub fidelity_counts: Map<Seq<char>, nat>,
    pub drift_counts: Map<Seq<char>, nat>,
    pub ambiguous_count: nat,
    pub distribution_count: nat,
    pub assessment_subjects: Seq<Seq<char>>,
    pub snapshot_subjects: Seq<Seq<char>>,
}

impl View for RebuildReport {
    type V = ReportText;

    open spec fn view(&self) -> ReportText {
        ReportText {
            assessments: self.assessments as nat,
            presence_true: self.presence_true as nat,
            presence_false: self.presence_false as nat,
            fidelity_counts: self.fidelity_counts@,
            drift_counts: self.drift_counts@,
            ambiguous_count: self.ambiguous_count as nat,
            distribution_count: self.distribution_count as nat,
            assessment_subjects: views(self.assessment_subjects@),
            snapshot_subjects: views(self.snapshot_subjects@),
        }
    }
}

pub open spec fn blank_report() -> ReportText {
    ReportText {
        assessments: 0,
        presence_true: 0,
        presence_false: 0,
        fidelity_counts: Map::empty(),
        drift_counts: Map::empty(),
        ambiguous_count: 0,
        distribution_count: 0,
        assessment_subjects: Seq::empty(),
        snapshot_subjects: Seq::empty(),
    }
}

pub open spec fn count_of(m: Map<Seq<char>, nat>, k: Seq<char>) -> nat {
    if m.contains_key(k) {
        m[k]
    } else {
        0
    }
}

/// A tally with one more.
pub open spec fn counted(m: Map<Seq<char>, nat>, k: Seq<char>) -> Map<Seq<char>, nat> {
    m.insert(k, count_of(m, k) + 1)
}

/// The report after one more assessment. Fidelity and drift count where there is a
/// counterpart.
pub open spec fn assessment_counted(
    r: ReportText,
    build: Seq<char>,
    a: AssessmentText,
) -> ReportText {
    let present = a.has_upstream_counterpart;
    ReportText {
        assessments: r.assessments + 1,
        presence_true: r.presence_true + if present {
            1nat
        } else {
            0nat
        },
        presence_false: r.presence_false + if present {
            0nat
        } else {
            1nat
        },
        fidelity_counts: match a.fidelity {
            Some(f) => if present {
                counted(r.fidelity_counts, f.concept)
            } else {
                r.fidelity_counts
            },
            None => r.fidelity_counts,
        },
        drift_counts: match a.drift {
            Some(d) => if present {
                counted(r.drift_counts, d.concept)
            } else {
                r.drift_counts
            },
            None => r.drift_counts,
        },
        ambiguous_count: r.ambiguous_count + match a.fidelity {
            Some(f) => if present && f.ambiguous_candidates.len() > 0 {
                1nat
            } else {
                0nat
            },
            None => 0nat,
        },
        assessment_subjects: listed(r.assessment_subjects.push(build)),
        ..r
    }
}

/// What a run has come to.
#[verifier::ext_equal]
pub struct Derivation {
    pub sheet: Sheet,
    pub report: ReportText,
    /// The derivations of distributions that were written.
    pub derivations: Seq<(Seq<char>, Seq<char>)>,
}

/// The state after one more assessment.
pub open spec fn assessed(
    d: Derivation,
    build: Seq<char>,
    snapshot: Seq<char>,
    run_token: Seq<char>,
    assessed_at: Seq<char>,
    a: AssessmentText,
) -> Derivation {
    Derivation {
        sheet: with_assessment(d.sheet, build, snapshot, assessed_at, run_token, a),
        report: assessment_counted(d.report, build, a),
        ..d
    }
}

/// The state after the first `n` assessments of a pair of graphs.
pub open spec fn all_assessed(
    d: Derivation,
    p: PairFacts,
    assessments: Seq<AssessmentText>,
    run_token: Seq<char>,
    assessed_at: Seq<char>,
    n: nat,
) -> Derivation
    decreases n,
{
    if n == 0 {
        d
    } else {
        assessed(
            all_assessed(d, p, assessments, run_token, assessed_at, (n - 1) as nat),
            selections(p)[n - 1].newest.node_uri,
            snapshot_node(p.rhel_graph, run_token),
            run_token,
            assessed_at,
            assessments[n - 1],
        )
    }
}

/// The state after what a pair of graphs begins with: the derivation of its
/// distribution, once, and the snapshot of its upstream.
pub open spec fn pair_opened(
    d: Derivation,
    p: PairFacts,
    run_token: Seq<char>,
    assessed_at: Seq<char>,
) -> Derivation {
    let key = (p.rebuild_dist, p.rhel_dist);
    let known = d.derivations.contains(key);
    let sheet = if known {
        d.sheet
    } else {
        with_derivation(d.sheet, p.rebuild_dist, p.rhel_dist)
    };
    Derivation {
        sheet: with_snapshot(sheet, p.rhel_graph, run_token, assessed_at),
        report: ReportText {
            distribution_count: d.report.distribution_count + if known {
                0nat
            } else {
                1nat
            },
            snapshot_subjects: listed(
                d.report.snapshot_subjects.push(snapshot_node(p.rhel_graph, run_token)),
            ),
            ..d.report
        },
        derivations: if known {
            d.derivations
        } else {
            d.derivations.push(key)
        },
    }
}

/// The state after the first `n` pairs of graphs.
pub open spec fn pairs_derived(
    pairs: Seq<PairFacts>,
    assessments: Seq<Seq<AssessmentText>>,
    run_token: Seq<char>,
    assessed_at: Seq<char>,
    n: nat,
) -> Derivation
    decreases n,
{
    if n == 0 {
        Derivation { sheet: blank_sheet(None), report: blank_report(), derivations: Seq::empty() }
    } else {
        let d = pairs_derived(pairs, assessments, run_token, assessed_at, (n - 1) as nat);
        let p = pairs[n - 1];
        all_assessed(
            pair_opened(d, p, run_token, assessed_at),
            p,
            assessments[n - 1],
            run_token,
            assessed_at,
            selections(p).len(),
        )
    }
}

pub open spec fn assessment_lists(v: Seq<Vec<Assessment>>) -> Seq<Seq<AssessmentText>> {
    v.map_values(|l: Vec<Assessment>| assessment_views(l@))
}

/// Whether there is one assessment for each selected build.
pub open spec fn matched(
    pairs: Seq<PairFacts>,
    assessments: Seq<Seq<AssessmentText>>,
) -> bool {
    &&& pairs.len() == assessments.len()
    &&& forall|i: int|
        0 <= i < pairs.len() ==> (#[trigger] assessments[i]).len() == selections(pairs[i]).len()
}

/// Whether the counts of a report agree with each other, and with a number of
/// statements.
pub open spec fn consistent(r: ReportText, statements: nat) -> bool {
    &&& r.assessments == r.presence_true + r.presence_false
    &&& r.assessments + r.distribution_count <= statements
    &&& r.ambiguous_count <= r.presence_true
    &&& forall|k: Seq<char>| #[trigger] count_of(r.fidelity_counts, k) <= r.presence_true
    &&& forall|k: Seq<char>| #[trigger] count_of(r.drift_counts, k) <= r.presence_true
}

fn count_up(m: &mut TextMap<Count>, k: &str)
    requires
        count_of(old(m)@, k@) < usize::MAX,
    ensures
        final(m)@ == counted(old(m)@, k@),
{
    let n: usize = match m.get(k) {
        Some(c) => c.n,
        None => 0,
    };
    m.insert(k.to_owned(), Count { n: n + 1 });
}

proof fn lemma_counted_bound(m: Map<Seq<char>, nat>, k: Seq<char>, bound: nat)
    requires
        forall|x: Seq<char>| #[trigger] count_of(m, x) <= bound,
    ensures
        forall|x: Seq<char>| #[trigger] count_of(counted(m, k), x) <= bound + 1,
{
    assert forall|x: Seq<char>| #[trigger] count_of(counted(m, k), x) <= bound + 1 by {
        assert(count_of(m, x) <= bound);
        assert(count_of(m, k) <= bound);
    }
}

fn add_item(v: &mut Vec<String>, x: String)
    requires
        ascending(views(old(v)@)),
    ensures
        views(final(v)@) == listed(views(old(v)@).push(x@)),
        ascending(views(final(v)@)),
{
    let ghost was = views(v@);
    insert_sorted(v, &x);
    proof {
        lemma_listed(was.push(x@), views(v@));
    }
}

impl RebuildReport {
    fn new(pairs: usize) -> (r: Self)
        ensures
            r@ == blank_report(),
            r.pairs == pairs,
    {
        proof {
            lemma_views_empty();
        }
        RebuildReport {
            pairs,
            assessments: 0,
            presence_true: 0,
            presence_false: 0,
            fidelity_counts: TextMap::new(),
            drift_counts: TextMap::new(),
            ambiguous_count: 0,
            distribution_count: 0,
            assessment_subjects: Vec::new(),
            snapshot_subjects: Vec::new(),
            triples: 0,
        }
    }

    /// Counts an assessment.
    fn count(&mut self, build: &str, a: &Assessment, Ghost(statements): Ghost<nat>)
        requires
            consistent(old(self)@, statements),
            statements < usize::MAX,
            ascending(old(self)@.assessment_subjects),
        ensures
            final(self)@ == assessment_counted(old(self)@, build@, a@),
            consistent(final(self)@, statements + 1),
            ascending(final(self)@.assessment_subjects),
            final(self).pairs == old(self).pairs,
    {
        let ghost was = self@;
        proof {
            assert(forall|k: Seq<char>| #[trigger]
                count_of(was.fidelity_counts, k) <= was.presence_true);
            assert(forall|k: Seq<char>| #[trigger]
                count_of(was.drift_counts, k) <= was.presence_true);
            if a@.fidelity is Some {
                lemma_counted_bound(
                    was.fidelity_counts,
                    a@.fidelity->0.concept,
                    was.presence_true,
                );
            }
            if a@.drift is Some {
                lemma_counted_bound(was.drift_counts, a@.drift->0.concept, was.presence_true);
            }
        }
        self.assessments = self.assessments + 1;
        add_item(&mut self.assessment_subjects, build.to_owned());
        if a.has_upstream_counterpart {
            self.presence_true = self.presence_true + 1;
            if let Some(f) = &a.fidelity {
                count_up(&mut self.fidelity_counts, &f.concept);
                assert(a@.fidelity->0.ambiguous_candidates.len() == f.ambiguous_candidates@.len());
                if f.ambiguous_candidates.len() > 0 {
                    self.ambiguous_count = self.ambiguous_count + 1;
                }
            }
            if let Some(d) = &a.drift {
                count_up(&mut self.drift_counts, &d.concept);
            }
        } else {
            self.presence_false = self.presence_false + 1;
        }
        assert(self@ == assessment_counted(was, build@, a@));
        assert forall|k: Seq<char>| #[trigger]
            count_of(self@.fidelity_counts, k) <= self@.presence_true by {
            assert(count_of(was.fidelity_counts, k) <= was.presence_true);
        }
        assert forall|k: Seq<char>| #[trigger]
            count_of(self@.drift_counts, k) <= self@.presence_true by {
            assert(count_of(was.drift_counts, k) <= was.presence_true);
        }
    }
}

fn has_derivation(v: &Vec<(String, String)>, a: &str, b: &str) -> (r: bool)
    ensures
        r == pairs_of(v@).contains((a@, b@)),
{
    let mut i: usize = 0;
    while i < v.len()
        invariant
            i <= v@.len(),
            forall|k: int| 0 <= k < i ==> #[trigger] pairs_of(v@)[k] != (a@, b@),
        decreases v@.len() - i,
    {
        assert(pairs_of(v@)[i as int] == (v@[i as int].0@, v@[i as int].1@));
        if same(&v[i].0, a) && same(&v[i].1, b) {
            return true;
        }
        i = i + 1;
    }
    false
}

fn open_pair(
    writer: &mut NTriplesWriter,
    report: &mut RebuildReport,
    derivations: &mut Vec<(String, String)>,
    p: &PairData,
    run_token: &str,
    assessed_at: &str,
)
    requires
        consistent(old(report)@, old(writer)@.log.len()),
        ascending(old(report)@.assessment_subjects),
        ascending(old(report)@.snapshot_subjects),
    ensures
        (Derivation {
            sheet: final(writer)@,
            report: final(report)@,
            derivations: pairs_of(final(derivations)@),
        }) == pair_opened(
            (Derivation {
                sheet: old(writer)@,
                report: old(report)@,
                derivations: pairs_of(old(derivations)@),
            }),
            p@,
            run_token@,
            assessed_at@,
        ),
        consistent(final(report)@, final(writer)@.log.len()),
        ascending(final(report)@.assessment_subjects),
        ascending(final(report)@.snapshot_subjects),
        final(report).pairs == old(report).pairs,
{
    if !has_derivation(derivations, &p.rebuild_dist, &p.rhel_dist) {
        emit_derivation(writer, &p.rebuild_dist, &p.rhel_dist);
        let now: usize = writer.len();
        assert(report.distribution_count < now);
        report.distribution_count = report.distribution_count + 1;
        let key: (String, String) = (p.rebuild_dist.clone(), p.rhel_dist.clone());
        proof {
            lemma_pairs_push(derivations@, key);
        }
        derivations.push(key);
    }
    let snapshot: String = snapshot_iri(&p.rhel_graph, run_token);
    add_item(&mut report.snapshot_subjects, snapshot);
    let n: usize = emit_snapshot(writer, &p.rhel_graph, run_token, assessed_at);
    let end: usize = writer.len();
    assert(end >= n);
}

/// Renders the assessments of pairs of graphs, given one for each build that
/// [`select_builds`] selects, and counts them.
pub fn build_report(
    pairs_data: &Vec<PairData>,
    assessments: &Vec<Vec<Assessment>>,
    run_token: &str,
    assessed_at: &str,
) -> (r: (String, RebuildReport))
    requires
        matched(pair_facts(pairs_data@), assessment_lists(assessments@)),
    ensures
        ({
            let d = pairs_derived(
                pair_facts(pairs_data@),
                assessment_lists(assessments@),
                run_token@,
                assessed_at@,
                pairs_data@.len(),
            );
            &&& r.0@ == text_of(rendered(d.sheet.log, d.sheet.graph))
            &&& r.1@ == d.report
            &&& r.1.pairs == pairs_data@.len()
            &&& r.1.triples == d.sheet.log.len()
            &&& consistent(d.report, d.sheet.log.len())
        }),
{
    let mut writer: NTriplesWriter = NTriplesWriter::new();
    let mut report: RebuildReport = RebuildReport::new(pairs_data.len());
    let mut derivations: Vec<(String, String)> = Vec::new();
    let ghost pairs = pair_facts(pairs_data@);
    let ghost lists = assessment_lists(assessments@);
    assert(pairs_of(derivations@) =~= Seq::empty());
    let mut i: usize = 0;
    while i < pairs_data.len()
        invariant
            i <= pairs_data.len(),
            pairs == pair_facts(pairs_data@),
            lists == assessment_lists(assessments@),
            matched(pairs, lists),
            report.pairs == pairs_data@.len(),
            consistent(report@, writer@.log.len()),
            ascending(report@.assessment_subjects),
            ascending(report@.snapshot_subjects),
            (Derivation {
                sheet: writer@,
                report: report@,
                derivations: pairs_of(derivations@),
            }) == pairs_derived(pairs, lists, run_token@, assessed_at@, i as nat),
        decreases pairs_data.len() - i,
    {
        let p: &PairData = &pairs_data[i];
        assert(pairs[i as int] == p@);
        assert(lists[i as int] == assessment_views(assessments@[i as int]@));
        open_pair(&mut writer, &mut report, &mut derivations, p, run_token, assessed_at);
        let snapshot: String = snapshot_iri(&p.rhel_graph, run_token);
        let chosen: Vec<Selection> = select_builds(p);
        let list: &Vec<Assessment> = &assessments[i];
        let ghost d0 = Derivation {
            sheet: writer@,
            report: report@,
            derivations: pairs_of(derivations@),
        };
        let ghost texts = assessment_views(list@);
        assert(selection_views(chosen@).len() == chosen@.len());
        assert(texts.len() == list@.len());
        let mut k: usize = 0;
        while k < chosen.len()
            invariant
                k <= chosen.len(),
                chosen@.len() == list@.len(),
                selection_views(chosen@) == selections(p@),
                texts == assessment_views(list@),
                snapshot@ == snapshot_node(p@.rhel_graph, run_token@),
                report.pairs == pairs_data@.len(),
                consistent(report@, writer@.log.len()),
                ascending(report@.assessment_subjects),
                ascending(report@.snapshot_subjects),
                (Derivation {
                    sheet: writer@,
                    report: report@,
                    derivations: pairs_of(derivations@),
                }) == all_assessed(d0, p@, texts, run_token@, assessed_at@, k as nat),
            decreases chosen.len() - k,
        {
            assert(selection_views(chosen@)[k as int] == chosen@[k as int]@);
            assert(texts[k as int] == list@[k as int]@);
            let ghost before = writer@.log.len();
            let build: &String = &chosen[k].newest.node_uri;
            emit_assessment(&mut writer, build, &snapshot, assessed_at, run_token, &list[k]);
            let now: usize = writer.len();
            assert(before < now);
            report.count(build, &list[k], Ghost(before));
            k = k + 1;
        }
        i = i + 1;
    }
    report.triples = writer.len();
    (writer.into_string(), report)
}

// ---------------------------------------------------------------------------
// Laws of what is written

/// Another run has other assessments of the same build.
pub proof fn lemma_assessments_belong_to_runs(node: Seq<char>, a: Seq<char>, b: Seq<char>)
    requires
        a != b,
    ensures
        assessment_node(node, a) != assessment_node(node, b),
{
    lemma_encoded_texts_differ(a, b, Keep::Segment);
    let head = node + "/assessment/"@;
    if assessment_node(node, a) == assessment_node(node, b) {
        assert(assessment_node(node, a).skip(head.len() as int) =~= enc(a));
        assert(assessment_node(node, b).skip(head.len() as int) =~= enc(b));
    }
}

/// Another run has other snapshots of the same graph.
pub proof fn lemma_snapshots_belong_to_runs(graph: Seq<char>, a: Seq<char>, b: Seq<char>)
    requires
        a != b,
    ensures
        snapshot_node(graph, a) != snapshot_node(graph, b),
{
    lemma_encoded_texts_differ(a, b, Keep::Segment);
    let head = DATA@ + "snapshot/"@ + ASSESSMENT_METHOD@ + "/"@ + enc(graph) + "/"@;
    if snapshot_node(graph, a) == snapshot_node(graph, b) {
        assert(snapshot_node(graph, a).skip(head.len() as int) =~= enc(a));
        assert(snapshot_node(graph, b).skip(head.len() as int) =~= enc(b));
    }
}

/// Whether a statement claims that a package descends from another: that it is a
/// rebuild, that lineage is confirmed, or that there is evidence for it.
pub open spec fn claims_lineage(f: Fact) -> bool {
    match f {
        Fact::Link { s, p, o } => p == pkg("rebuildOf"@) || p == pkg("lineageEvidence"@),
        Fact::Text { s, p, value } => p == pkg("rebuildOf"@) || p == pkg("lineageEvidence"@),
        Fact::Typed { s, p, value, datatype } => p == pkg("rebuildOf"@) || p == pkg(
            "lineageEvidence"@,
        ) || (p == pkg("lineageConfirmed"@) && value == truth(true)),
        _ => true,
    }
}

/// Whether no statement of a sheet claims lineage.
pub open spec fn claims_nothing(w: Sheet) -> bool {
    forall|i: int| 0 <= i < w.log.len() ==> !claims_lineage(#[trigger] w.log[i])
}

proof fn lemma_property_differs(a: Seq<char>, b: Seq<char>)
    requires
        a.len() != b.len() || (a.len() > 0 && a[0] != b[0]),
    ensures
        pkg(a) != pkg(b),
{
    if pkg(a) == pkg(b) {
        assert(pkg(a).skip(PKG@.len() as int) =~= a);
        assert(pkg(b).skip(PKG@.len() as int) =~= b);
    }
}

proof fn lemma_harmless(a: Seq<char>)
    requires
        a.len() > 0,
        a[0] != 'l',
        a.len() != 9,
    ensures
        pkg(a) != pkg("rebuildOf"@),
        pkg(a) != pkg("lineageEvidence"@),
        pkg(a) != pkg("lineageConfirmed"@),
{
    reveal_strlit("rebuildOf");
    reveal_strlit("lineageEvidence");
    reveal_strlit("lineageConfirmed");
    lemma_property_differs(a, "rebuildOf"@);
    lemma_property_differs(a, "lineageEvidence"@);
    lemma_property_differs(a, "lineageConfirmed"@);
}

proof fn lemma_outside_core(p: Seq<char>)
    requires
        p == RDF_TYPE@ || p == RDFS_LABEL@,
    ensures
        p != pkg("rebuildOf"@),
        p != pkg("lineageEvidence"@),
        p != pkg("lineageConfirmed"@),
{
    reveal_strlit("http://www.w3.org/1999/02/22-rdf-syntax-ns#type");
    reveal_strlit("http://www.w3.org/2000/01/rdf-schema#label");
    reveal_strlit("https://purl.org/packagegraph/ontology/core#");
    assert(p[4] == ':');
    assert(PKG@[4] == 's');
    assert(pkg("rebuildOf"@)[4] == 's');
    assert(pkg("lineageEvidence"@)[4] == 's');
    assert(pkg("lineageConfirmed"@)[4] == 's');
}

proof fn lemma_confirmation()
    ensures
        pkg("lineageConfirmed"@) != pkg("rebuildOf"@),
        pkg("lineageConfirmed"@) != pkg("lineageEvidence"@),
        truth(false) != truth(true),
{
    reveal_strlit("rebuildOf");
    reveal_strlit("lineageEvidence");
    reveal_strlit("lineageConfirmed");
    reveal_strlit("true");
    reveal_strlit("false");
    lemma_property_differs("lineageConfirmed"@, "rebuildOf"@);
    lemma_property_differs("lineageConfirmed"@, "lineageEvidence"@);
    assert("true"@.len() == 4);
    assert("false"@.len() == 5);
}

proof fn lemma_harmless_properties()
    ensures
        forall|p: Seq<char>|
            #[trigger] is_own_property(p) ==> p != pkg("rebuildOf"@) && p != pkg(
                "lineageEvidence"@,
            ) && p != pkg("lineageConfirmed"@),
{
    reveal_strlit("assessmentOf");
    reveal_strlit("assessedAt");
    reveal_strlit("assessmentMethod");
    reveal_strlit("assessedAgainstSnapshot");
    reveal_strlit("hasUpstreamCounterpart");
    reveal_strlit("rebuildFidelity");
    reveal_strlit("assessmentConfidence");
    reveal_strlit("fidelityBaseline");
    reveal_strlit("ambiguousCandidate");
    reveal_strlit("rebuildDrift");
    reveal_strlit("comparedAgainst");
    reveal_strlit("derivedFromDistribution");
    reveal_strlit("snapshotTimestamp");
    reveal_strlit("snapshotSource");
    lemma_harmless("assessmentOf"@);
    lemma_harmless("assessedAt"@);
    lemma_harmless("assessmentMethod"@);
    lemma_harmless("assessedAgainstSnapshot"@);
    lemma_harmless("hasUpstreamCounterpart"@);
    lemma_harmless("rebuildFidelity"@);
    lemma_harmless("assessmentConfidence"@);
    lemma_harmless("fidelityBaseline"@);
    lemma_harmless("ambiguousCandidate"@);
    lemma_harmless("rebuildDrift"@);
    lemma_harmless("comparedAgainst"@);
    lemma_harmless("derivedFromDistribution"@);
    lemma_harmless("snapshotTimestamp"@);
    lemma_harmless("snapshotSource"@);
    lemma_outside_core(RDF_TYPE@);
    lemma_outside_core(RDFS_LABEL@);
}

/// Whether a property is one of those that a run writes, but for the one that says
/// whether lineage is confirmed.
spec fn is_own_property(p: Seq<char>) -> bool {
    ||| p == RDF_TYPE@ || p == RDFS_LABEL@
    ||| p == pkg("assessmentOf"@) || p == pkg("assessedAt"@) || p == pkg("assessmentMethod"@)
    ||| p == pkg("assessedAgainstSnapshot"@) || p == pkg("hasUpstreamCounterpart"@)
    ||| p == pkg("rebuildFidelity"@) || p == pkg("assessmentConfidence"@)
    ||| p == pkg("fidelityBaseline"@) || p == pkg("ambiguousCandidate"@)
    ||| p == pkg("rebuildDrift"@) || p == pkg("comparedAgainst"@)
    ||| p == pkg("derivedFromDistribution"@) || p == pkg("snapshotTimestamp"@)
    ||| p == pkg("snapshotSource"@)
}

/// Whether a statement is one that a run writes.
spec fn is_own_statement(f: Fact) -> bool {
    match f {
        Fact::Link { s, p, o } => is_own_property(p),
        Fact::Text { s, p, value } => is_own_property(p),
        Fact::Typed { s, p, value, datatype } => is_own_property(p) || (p == pkg(
            "lineageConfirmed"@,
        ) && value == truth(false)),
        _ => false,
    }
}

proof fn lemma_own_statement(f: Fact)
    requires
        is_own_statement(f),
    ensures
        !claims_lineage(f),
{
    lemma_harmless_properties();
    lemma_confirmation();
}

proof fn lemma_statement_kept(w: Sheet, f: Fact)
    requires
        claims_nothing(w),
        is_own_statement(f),
    ensures
        claims_nothing(fact(w, f)),
        claims_nothing(define(w, f)),
{
    lemma_own_statement(f);
    assert forall|i: int| 0 <= i < fact(w, f).log.len() implies !claims_lineage(
        #[trigger] fact(w, f).log[i],
    ) by {
        if i < w.log.len() {
            assert(fact(w, f).log[i] == w.log[i]);
        }
    }
}

proof fn lemma_candidates_claim_nothing(
    w: Sheet,
    node: Seq<char>,
    items: Seq<Seq<char>>,
    n: nat,
)
    requires
        claims_nothing(w),
    ensures
        claims_nothing(with_each_candidate(w, node, items, n)),
    decreases n,
{
    if n > 0 {
        lemma_candidates_claim_nothing(w, node, items, (n - 1) as nat);
        let before = with_each_candidate(w, node, items, (n - 1) as nat);
        lemma_statement_kept(
            before,
            Fact::Link { s: node, p: pkg("ambiguousCandidate"@), o: items[n - 1] },
        );
    }
}

proof fn lemma_fidelity_claims_nothing(w: Sheet, node: Seq<char>, f: FidelityText)
    requires
        claims_nothing(w),
    ensures
        claims_nothing(with_fidelity(w, node, f)),
{
    let a = Fact::Link { s: node, p: pkg("rebuildFidelity"@), o: PKG@ + f.concept };
    lemma_statement_kept(w, a);
    let w = fact(w, a);
    let b = Fact::Typed {
        s: node,
        p: pkg("assessmentConfidence"@),
        value: f.confidence,
        datatype: xsd("decimal"@),
    };
    lemma_statement_kept(w, b);
    let w = fact(w, b);
    match f.baseline {
        Some(x) => {
            let c = Fact::Link { s: node, p: pkg("fidelityBaseline"@), o: x };
            lemma_statement_kept(w, c);
            lemma_candidates_claim_nothing(
                fact(w, c),
                node,
                f.ambiguous_candidates,
                f.ambiguous_candidates.len(),
            );
        },
        None => {
            lemma_candidates_claim_nothing(
                w,
                node,
                f.ambiguous_candidates,
                f.ambiguous_candidates.len(),
            );
        },
    }
}

proof fn lemma_assessment_claims_nothing(
    w: Sheet,
    build: Seq<char>,
    snapshot: Seq<char>,
    assessed_at: Seq<char>,
    run_token: Seq<char>,
    a: AssessmentText,
)
    requires
        claims_nothing(w),
    ensures
        claims_nothing(with_assessment(w, build, snapshot, assessed_at, run_token, a)),
{
    let node = assessment_node(build, run_token);
    let f1 = Fact::Link { s: node, p: RDF_TYPE@, o: pkg("RebuildAssessment"@) };
    lemma_statement_kept(w, f1);
    let w = fact(w, f1);
    let f2 = Fact::Link { s: node, p: pkg("assessmentOf"@), o: build };
    lemma_statement_kept(w, f2);
    let w = fact(w, f2);
    let f3 = Fact::Typed {
        s: node,
        p: pkg("assessedAt"@),
        value: assessed_at,
        datatype: xsd("dateTime"@),
    };
    lemma_statement_kept(w, f3);
    let w = fact(w, f3);
    let f4 = Fact::Text { s: node, p: pkg("assessmentMethod"@), value: ASSESSMENT_METHOD@ };
    lemma_statement_kept(w, f4);
    let w = fact(w, f4);
    let f5 = Fact::Link { s: node, p: pkg("assessedAgainstSnapshot"@), o: snapshot };
    lemma_statement_kept(w, f5);
    let w = fact(w, f5);
    let f6 = Fact::Typed {
        s: node,
        p: pkg("hasUpstreamCounterpart"@),
        value: truth(a.has_upstream_counterpart),
        datatype: xsd("boolean"@),
    };
    lemma_statement_kept(w, f6);
    let w = fact(w, f6);
    let f7 = Fact::Typed {
        s: node,
        p: pkg("lineageConfirmed"@),
        value: truth(false),
        datatype: xsd("boolean"@),
    };
    lemma_statement_kept(w, f7);
    let w = fact(w, f7);
    let w = match a.fidelity {
        Some(f) => {
            lemma_fidelity_claims_nothing(w, node, f);
            with_fidelity(w, node, f)
        },
        None => w,
    };
    if let Some(d) = a.drift {
        let g1 = Fact::Link { s: node, p: pkg("rebuildDrift"@), o: PKG@ + d.concept };
        lemma_statement_kept(w, g1);
        let g2 = Fact::Link { s: node, p: pkg("comparedAgainst"@), o: d.compared_against };
        lemma_statement_kept(fact(w, g1), g2);
    }
}

proof fn lemma_opening_claims_nothing(
    d: Derivation,
    p: PairFacts,
    run_token: Seq<char>,
    assessed_at: Seq<char>,
)
    requires
        claims_nothing(d.sheet),
    ensures
        claims_nothing(pair_opened(d, p, run_token, assessed_at).sheet),
{
    let w = d.sheet;
    let f0 = Fact::Link {
        s: p.rebuild_dist,
        p: pkg("derivedFromDistribution"@),
        o: p.rhel_dist,
    };
    lemma_statement_kept(w, f0);
    let w = if d.derivations.contains((p.rebuild_dist, p.rhel_dist)) {
        w
    } else {
        fact(w, f0)
    };
    let node = snapshot_node(p.rhel_graph, run_token);
    let f1 = Fact::Link { s: node, p: RDF_TYPE@, o: pkg("DataSnapshot"@) };
    lemma_statement_kept(w, f1);
    let w = define(w, f1);
    let f2 = Fact::Text {
        s: node,
        p: RDFS_LABEL@,
        value: snapshot_label(p.rhel_graph, run_token),
    };
    lemma_statement_kept(w, f2);
    let w = define(w, f2);
    let f3 = Fact::Typed {
        s: node,
        p: pkg("snapshotTimestamp"@),
        value: assessed_at,
        datatype: xsd("dateTime"@),
    };
    lemma_statement_kept(w, f3);
    let w = define(w, f3);
    let f4 = Fact::Text { s: node, p: pkg("snapshotSource"@), value: p.rhel_graph };
    lemma_statement_kept(w, f4);
}

proof fn lemma_assessments_claim_nothing(
    d: Derivation,
    p: PairFacts,
    assessments: Seq<AssessmentText>,
    run_token: Seq<char>,
    assessed_at: Seq<char>,
    n: nat,
)
    requires
        claims_nothing(d.sheet),
    ensures
        claims_nothing(all_assessed(d, p, assessments, run_token, assessed_at, n).sheet),
    decreases n,
{
    if n > 0 {
        lemma_assessments_claim_nothing(
            d,
            p,
            assessments,
            run_token,
            assessed_at,
            (n - 1) as nat,
        );
        lemma_assessment_claims_nothing(
            all_assessed(d, p, assessments, run_token, assessed_at, (n - 1) as nat).sheet,
            selections(p)[n - 1].newest.node_uri,
            snapshot_node(p.rhel_graph, run_token),
            assessed_at,
            run_token,
            assessments[n - 1],
        );
    }
}

/// A run never claims lineage, whatever the assessments say.
pub proof fn lemma_no_lineage_is_claimed(
    pairs: Seq<PairFacts>,
    assessments: Seq<Seq<AssessmentText>>,
    run_token: Seq<char>,
    assessed_at: Seq<char>,
    n: nat,
)
    ensures
        claims_nothing(pairs_derived(pairs, assessments, run_token, assessed_at, n).sheet),
    decreases n,
{
    if n > 0 {
        lemma_no_lineage_is_claimed(pairs, assessments, run_token, assessed_at, (n - 1) as nat);
        let d = pairs_derived(pairs, assessments, run_token, assessed_at, (n - 1) as nat);
        let p = pairs[n - 1];
        lemma_opening_claims_nothing(d, p, run_token, assessed_at);
        lemma_assessments_claim_nothing(
            pair_opened(d, p, run_token, assessed_at),
            p,
            assessments[n - 1],
            run_token,
            assessed_at,
            selections(p).len(),
        );
    }
}

// ---------------------------------------------------------------------------
// What a run says

proof fn lemma_candidates_said(
    w: Sheet,
    node: Seq<char>,
    items: Seq<Seq<char>>,
    n: nat,
    p: Seq<char>,
)
    requires
        n <= items.len(),
    ensures
        said(with_each_candidate(w, node, items, n).log, p) == said(w.log, p) + if p == pkg(
            "ambiguousCandidate"@,
        ) {
            to_each(node, items.take(n as int))
        } else {
            Seq::empty()
        },
    decreases n,
{
    broadcast use group_reading;

    if n > 0 {
        lemma_candidates_said(w, node, items, (n - 1) as nat, p);
        assert(to_each(node, items.take(n as int)) =~= to_each(node, items.take(n - 1)).push(
            to_iri(node, items[n - 1]),
        ));
    } else {
        assert(to_each(node, items.take(0)) =~= Seq::empty());
    }
}

/// What an account of fidelity says: the concept of the vocabulary, how sure that is,
/// what it was measured against where that is known, and every candidate; by no other
/// property anything.
pub proof fn lemma_fidelity_told(w: Sheet, node: Seq<char>, f: FidelityText)
    ensures
        ({
            let before = w.log;
            let after = with_fidelity(w, node, f).log;
            &&& said(after, pkg("rebuildFidelity"@)) == said(before, pkg("rebuildFidelity"@))
                + seq![to_iri(node, PKG@ + f.concept)]
            &&& said(after, pkg("assessmentConfidence"@)) == said(
                before,
                pkg("assessmentConfidence"@),
            ) + seq![(Term::Iri(node), Term::Typed(f.confidence, xsd("decimal"@)))]
            &&& said(after, pkg("fidelityBaseline"@)) == said(before, pkg("fidelityBaseline"@))
                + to_any(node, f.baseline)
            &&& said(after, pkg("ambiguousCandidate"@)) == said(before, pkg("ambiguousCandidate"@))
                + to_each(node, f.ambiguous_candidates)
            &&& forall|p: Seq<char>|
                p != pkg("rebuildFidelity"@) && p != pkg("assessmentConfidence"@) && p != pkg(
                    "fidelityBaseline"@,
                ) && p != pkg("ambiguousCandidate"@) ==> #[trigger] said(after, p) == said(
                    before,
                    p,
                )
        }),
{
    broadcast use group_reading;

    reveal_strlit("rebuildFidelity");
    reveal_strlit("assessmentConfidence");
    reveal_strlit("fidelityBaseline");
    reveal_strlit("ambiguousCandidate");
    let c = f.ambiguous_candidates;
    assert(c.take(c.len() as int) =~= c);
    let w1 = link(w, node, pkg("rebuildFidelity"@), PKG@ + f.concept);
    let w2 = typed(w1, node, pkg("assessmentConfidence"@), f.confidence, xsd("decimal"@));
    let w3 = match f.baseline {
        Some(b) => link(w2, node, pkg("fidelityBaseline"@), b),
        None => w2,
    };
    assert forall|p: Seq<char>| #[trigger]
        said(with_fidelity(w, node, f).log, p) == said(w3.log, p) + if p == pkg(
            "ambiguousCandidate"@,
        ) {
            to_each(node, c)
        } else {
            Seq::empty()
        } by {
        lemma_candidates_said(w3, node, c, c.len(), p);
    }
    assert forall|p: Seq<char>|
        p != pkg("rebuildFidelity"@) && p != pkg("assessmentConfidence"@) && p != pkg(
            "fidelityBaseline"@,
        ) implies said(w3.log, p) == said(w.log, p) by {}
}

/// What an assessment says. It is of its build, at its time and by the method of this
/// library, against its snapshot; whether there is a counterpart; that no lineage is
/// confirmed; and the fidelity and the drift that it holds, where it holds them.
pub proof fn lemma_assessment_told(
    w: Sheet,
    build: Seq<char>,
    snapshot: Seq<char>,
    assessed_at: Seq<char>,
    run_token: Seq<char>,
    a: AssessmentText,
)
    ensures
        ({
            let before = w.log;
            let after = with_assessment(w, build, snapshot, assessed_at, run_token, a).log;
            let node = assessment_node(build, run_token);
            &&& said(after, RDF_TYPE@) == said(before, RDF_TYPE@) + seq![
                to_iri(node, pkg("RebuildAssessment"@)),
            ]
            &&& said(after, pkg("assessmentOf"@)) == said(before, pkg("assessmentOf"@)) + seq![
                to_iri(node, build),
            ]
            &&& said(after, pkg("assessedAt"@)) == said(before, pkg("assessedAt"@)) + seq![
                (Term::Iri(node), Term::Typed(assessed_at, xsd("dateTime"@))),
            ]
            &&& said(after, pkg("assessmentMethod"@)) == said(before, pkg("assessmentMethod"@))
                + seq![to_text(node, ASSESSMENT_METHOD@)]
            &&& said(after, pkg("assessedAgainstSnapshot"@)) == said(
                before,
                pkg("assessedAgainstSnapshot"@),
            ) + seq![to_iri(node, snapshot)]
            &&& said(after, pkg("hasUpstreamCounterpart"@)) == said(
                before,
                pkg("hasUpstreamCounterpart"@),
            ) + seq![to_truth(node, a.has_upstream_counterpart)]
            &&& said(after, pkg("lineageConfirmed"@)) == said(before, pkg("lineageConfirmed"@))
                + seq![to_truth(node, false)]
            &&& said(after, pkg("rebuildFidelity"@)) == said(before, pkg("rebuildFidelity"@)) + (
            match a.fidelity {
                Some(f) => seq![to_iri(node, PKG@ + f.concept)],
                None => Seq::empty(),
            })
            &&& said(after, pkg("fidelityBaseline"@)) == said(before, pkg("fidelityBaseline"@)) + (
            match a.fidelity {
                Some(f) => to_any(node, f.baseline),
                None => Seq::empty(),
            })
            &&& said(after, pkg("ambiguousCandidate"@)) == said(before, pkg("ambiguousCandidate"@))
                + (match a.fidelity {
                Some(f) => to_each(node, f.ambiguous_candidates),
                None => Seq::empty(),
            })
            &&& said(after, pkg("rebuildDrift"@)) == said(before, pkg("rebuildDrift"@)) + (
            match a.drift {
                Some(d) => seq![to_iri(node, PKG@ + d.concept)],
                None => Seq::empty(),
            })
            &&& said(after, pkg("comparedAgainst"@)) == said(before, pkg("comparedAgainst"@)) + (
            match a.drift {
                Some(d) => seq![to_iri(node, d.compared_against)],
                None => Seq::empty(),
            })
            &&& said(after, pkg("derivedFromDistribution"@)) == said(
                before,
                pkg("derivedFromDistribution"@),
            )
        }),
{
    broadcast use group_reading;

    reveal_strlit("rebuildDrift");
    reveal_strlit("comparedAgainst");
    reveal_strlit("assessmentOf");
    reveal_strlit("assessedAt");
    reveal_strlit("assessmentMethod");
    reveal_strlit("assessedAgainstSnapshot");
    reveal_strlit("hasUpstreamCounterpart");
    reveal_strlit("lineageConfirmed");
    reveal_strlit("rebuildFidelity");
    reveal_strlit("assessmentConfidence");
    reveal_strlit("fidelityBaseline");
    reveal_strlit("ambiguousCandidate");
    reveal_strlit("derivedFromDistribution");
    let node = assessment_node(build, run_token);
    let w1 = link(w, node, RDF_TYPE@, pkg("RebuildAssessment"@));
    let w2 = link(w1, node, pkg("assessmentOf"@), build);
    let w3 = datetime(w2, node, pkg("assessedAt"@), assessed_at);
    let w4 = literal(w3, node, pkg("assessmentMethod"@), ASSESSMENT_METHOD@);
    let w5 = link(w4, node, pkg("assessedAgainstSnapshot"@), snapshot);
    let w6 = boolean(w5, node, pkg("hasUpstreamCounterpart"@), a.has_upstream_counterpart);
    let w7 = boolean(w6, node, pkg("lineageConfirmed"@), false);
    if let Some(f) = a.fidelity {
        lemma_fidelity_told(w7, node, f);
    }
    let w8 = match a.fidelity {
        Some(f) => with_fidelity(w7, node, f),
        None => w7,
    };
    let after = with_assessment(w, build, snapshot, assessed_at, run_token, a).log;
    if let Some(d) = a.drift {
        let w9 = link(w8, node, pkg("rebuildDrift"@), PKG@ + d.concept);
        assert(after == link(w9, node, pkg("comparedAgainst"@), d.compared_against).log);
        assert(said(after, pkg("rebuildDrift"@)) == said(w8.log, pkg("rebuildDrift"@)) + seq![
            to_iri(node, PKG@ + d.concept),
        ]);
    } else {
        assert(after == w8.log);
    }
    assert(said(after, pkg("rebuildFidelity"@)) == said(w8.log, pkg("rebuildFidelity"@)));
    assert(said(after, pkg("fidelityBaseline"@)) == said(w8.log, pkg("fidelityBaseline"@)));
    assert(said(after, pkg("ambiguousCandidate"@)) == said(w8.log, pkg("ambiguousCandidate"@)));
}

/// What a pair of graphs begins with says: that the distribution is derived from the
/// other, where that was not said before, and of assessments nothing.
pub proof fn lemma_opening_told(
    d: Derivation,
    p: PairFacts,
    run_token: Seq<char>,
    assessed_at: Seq<char>,
)
    ensures
        ({
            let before = d.sheet.log;
            let after = pair_opened(d, p, run_token, assessed_at).sheet.log;
            let derived = pkg("derivedFromDistribution"@);
            &&& said(after, derived) == said(before, derived) + if d.derivations.contains(
                (p.rebuild_dist, p.rhel_dist),
            ) {
                Seq::empty()
            } else {
                seq![to_iri(p.rebuild_dist, p.rhel_dist)]
            }
            &&& said(after, pkg("assessmentOf"@)) == said(before, pkg("assessmentOf"@))
            &&& said(after, pkg("hasUpstreamCounterpart"@)) == said(
                before,
                pkg("hasUpstreamCounterpart"@),
            )
            &&& said(after, pkg("rebuildFidelity"@)) == said(before, pkg("rebuildFidelity"@))
            &&& said(after, pkg("rebuildDrift"@)) == said(before, pkg("rebuildDrift"@))
        }),
{
    broadcast use group_reading;

    reveal_strlit("derivedFromDistribution");
    reveal_strlit("assessmentOf");
    reveal_strlit("hasUpstreamCounterpart");
    reveal_strlit("rebuildFidelity");
    reveal_strlit("rebuildDrift");
    reveal_strlit("snapshotTimestamp");
    reveal_strlit("snapshotSource");
}

/// Whether fidelity and drift are known only of a build with a counterpart.
pub open spec fn founded(a: AssessmentText) -> bool {
    a.fidelity is Some || a.drift is Some ==> a.has_upstream_counterpart
}

/// Whether the counts of a report are those of what the statements say.
pub open spec fn counts_what_is_said(r: ReportText, log: Seq<Fact>) -> bool {
    &&& r.assessments == said(log, pkg("assessmentOf"@)).len()
    &&& r.presence_true == times_said(
        log,
        pkg("hasUpstreamCounterpart"@),
        Term::Typed("true"@, xsd("boolean"@)),
    )
    &&& r.presence_false == times_said(
        log,
        pkg("hasUpstreamCounterpart"@),
        Term::Typed("false"@, xsd("boolean"@)),
    )
    &&& r.distribution_count == said(log, pkg("derivedFromDistribution"@)).len()
    &&& forall|c: Seq<char>| #[trigger]
        count_of(r.fidelity_counts, c) == times_said(
            log,
            pkg("rebuildFidelity"@),
            Term::Iri(PKG@ + c),
        )
    &&& forall|c: Seq<char>| #[trigger]
        count_of(r.drift_counts, c) == times_said(
            log,
            pkg("rebuildDrift"@),
            Term::Iri(PKG@ + c),
        )
}

proof fn lemma_concepts_differ(a: Seq<char>, b: Seq<char>)
    ensures
        PKG@ + a == PKG@ + b <==> a == b,
{
    assert((PKG@ + a).skip(PKG@.len() as int) =~= a);
    assert((PKG@ + b).skip(PKG@.len() as int) =~= b);
}

proof fn lemma_assessments_counted(
    d: Derivation,
    p: PairFacts,
    assessments: Seq<AssessmentText>,
    run_token: Seq<char>,
    assessed_at: Seq<char>,
    n: nat,
)
    requires
        counts_what_is_said(d.report, d.sheet.log),
        n <= assessments.len(),
        forall|i: int| 0 <= i < assessments.len() ==> founded(#[trigger] assessments[i]),
    ensures
        ({
            let e = all_assessed(d, p, assessments, run_token, assessed_at, n);
            counts_what_is_said(e.report, e.sheet.log)
        }),
    decreases n,
{
    broadcast use group_tally;

    if n > 0 {
        lemma_assessments_counted(d, p, assessments, run_token, assessed_at, (n - 1) as nat);
        let e = all_assessed(d, p, assessments, run_token, assessed_at, (n - 1) as nat);
        let a = assessments[n - 1];
        let build = selections(p)[n - 1].newest.node_uri;
        let f = all_assessed(d, p, assessments, run_token, assessed_at, n);
        lemma_assessment_told(
            e.sheet,
            build,
            snapshot_node(p.rhel_graph, run_token),
            assessed_at,
            run_token,
            a,
        );
        reveal_strlit("true");
        reveal_strlit("false");
        assert("true"@.len() != "false"@.len());
        assert forall|c: Seq<char>| #[trigger]
            count_of(f.report.fidelity_counts, c) == times_said(
                f.sheet.log,
                pkg("rebuildFidelity"@),
                Term::Iri(PKG@ + c),
            ) by {
            assert(count_of(e.report.fidelity_counts, c) == times_said(
                e.sheet.log,
                pkg("rebuildFidelity"@),
                Term::Iri(PKG@ + c),
            ));
            if let Some(x) = a.fidelity {
                lemma_concepts_differ(x.concept, c);
            }
        }
        assert forall|c: Seq<char>| #[trigger]
            count_of(f.report.drift_counts, c) == times_said(
                f.sheet.log,
                pkg("rebuildDrift"@),
                Term::Iri(PKG@ + c),
            ) by {
            assert(count_of(e.report.drift_counts, c) == times_said(
                e.sheet.log,
                pkg("rebuildDrift"@),
                Term::Iri(PKG@ + c),
            ));
            if let Some(x) = a.drift {
                lemma_concepts_differ(x.concept, c);
            }
        }
    }
}

/// The counts of a report are those of what the text says: as many assessments, builds
/// with and without a counterpart, derivations of distributions, and, for each concept
/// of fidelity and of drift, as many as the report has under it.
pub proof fn lemma_report_counts_what_is_said(
    pairs: Seq<PairFacts>,
    assessments: Seq<Seq<AssessmentText>>,
    run_token: Seq<char>,
    assessed_at: Seq<char>,
    n: nat,
)
    requires
        matched(pairs, assessments),
        n <= pairs.len(),
        forall|k: int, i: int|
            0 <= k < pairs.len() && 0 <= i < assessments[k].len() ==> founded(
                #[trigger] assessments[k][i],
            ),
    ensures
        ({
            let d = pairs_derived(pairs, assessments, run_token, assessed_at, n);
            counts_what_is_said(d.report, d.sheet.log)
        }),
    decreases n,
{
    broadcast use group_tally;

    if n > 0 {
        lemma_report_counts_what_is_said(
            pairs,
            assessments,
            run_token,
            assessed_at,
            (n - 1) as nat,
        );
        let d = pairs_derived(pairs, assessments, run_token, assessed_at, (n - 1) as nat);
        let p = pairs[n - 1];
        let o = pair_opened(d, p, run_token, assessed_at);
        lemma_opening_told(d, p, run_token, assessed_at);
        assert(counts_what_is_said(o.report, o.sheet.log));
        lemma_assessments_counted(
            o,
            p,
            assessments[n - 1],
            run_token,
            assessed_at,
            selections(p).len(),
        );
    }
}

/// Whether a statement by `rebuildDrift` is that of the assessment of a selected build.
pub open spec fn is_drift_of(
    x: (Term, Term),
    pairs: Seq<PairFacts>,
    assessments: Seq<Seq<AssessmentText>>,
    run_token: Seq<char>,
    k: int,
    i: int,
) -> bool {
    match assessments[k][i].drift {
        Some(d) => x == to_iri(
            assessment_node(selections(pairs[k])[i].newest.node_uri, run_token),
            PKG@ + d.concept,
        ),
        None => false,
    }
}

proof fn lemma_drift_of_a_pair(
    d: Derivation,
    pairs: Seq<PairFacts>,
    assessments: Seq<Seq<AssessmentText>>,
    run_token: Seq<char>,
    assessed_at: Seq<char>,
    k: int,
    n: nat,
)
    ensures
        ({
            let before = said(d.sheet.log, pkg("rebuildDrift"@));
            let after = said(
                all_assessed(d, pairs[k], assessments[k], run_token, assessed_at, n).sheet.log,
                pkg("rebuildDrift"@),
            );
            &&& forall|x: (Term, Term)| before.contains(x) ==> #[trigger] after.contains(x)
            &&& forall|x: (Term, Term), i: int|
                0 <= i < n && #[trigger] is_drift_of(x, pairs, assessments, run_token, k, i)
                    ==> after.contains(x)
            &&& forall|x: (Term, Term)| #[trigger]
                after.contains(x) ==> before.contains(x) || exists|i: int|
                    0 <= i < n && is_drift_of(x, pairs, assessments, run_token, k, i)
        }),
    decreases n,
{
    if n > 0 {
        let m: nat = (n - 1) as nat;
        lemma_drift_of_a_pair(d, pairs, assessments, run_token, assessed_at, k, m);
        let p = pairs[k];
        let e = all_assessed(d, p, assessments[k], run_token, assessed_at, m);
        let f = all_assessed(d, p, assessments[k], run_token, assessed_at, n);
        let a = assessments[k][m as int];
        lemma_assessment_told(
            e.sheet,
            selections(p)[m as int].newest.node_uri,
            snapshot_node(p.rhel_graph, run_token),
            assessed_at,
            run_token,
            a,
        );
        let mid = said(e.sheet.log, pkg("rebuildDrift"@));
        let after = said(f.sheet.log, pkg("rebuildDrift"@));
        assert forall|x: (Term, Term)| mid.contains(x) implies after.contains(x) by {
            let j: int = mid.index_of(x);
            assert(after[j] == x);
        }
        assert forall|x: (Term, Term), i: int|
            0 <= i < n && #[trigger] is_drift_of(
                x,
                pairs,
                assessments,
                run_token,
                k,
                i,
            ) implies after.contains(x) by {
            if i == m {
                assert(after[mid.len() as int] == x);
            } else {
                assert(mid.contains(x));
            }
        }
        assert forall|x: (Term, Term)| #[trigger] after.contains(x) implies said(
            d.sheet.log,
            pkg("rebuildDrift"@),
        ).contains(x) || exists|i: int|
            0 <= i < n && is_drift_of(x, pairs, assessments, run_token, k, i) by {
            let j: int = after.index_of(x);
            if j < mid.len() {
                assert(mid[j] == x);
                assert(mid.contains(x));
            } else {
                assert(is_drift_of(x, pairs, assessments, run_token, k, m as int));
            }
        }
    }
}

/// Every selected build whose assessment holds a drift has it in the text, as the concept
/// of the vocabulary; and no drift is in the text but of such a build.
pub proof fn lemma_drift_is_told(
    pairs: Seq<PairFacts>,
    assessments: Seq<Seq<AssessmentText>>,
    run_token: Seq<char>,
    assessed_at: Seq<char>,
    n: nat,
)
    ensures
        ({
            let told = said(
                pairs_derived(pairs, assessments, run_token, assessed_at, n).sheet.log,
                pkg("rebuildDrift"@),
            );
            &&& forall|k: int, i: int|
                0 <= k < n && 0 <= i < selections(pairs[k]).len() ==> (
                #[trigger] assessments[k][i].drift matches Some(d) ==> told.contains(
                    to_iri(
                        assessment_node(selections(pairs[k])[i].newest.node_uri, run_token),
                        PKG@ + d.concept,
                    ),
                ))
            &&& forall|x: (Term, Term)| #[trigger]
                told.contains(x) ==> exists|k: int, i: int|
                    0 <= k < n && 0 <= i < selections(pairs[k]).len() && #[trigger] is_drift_of(
                        x,
                        pairs,
                        assessments,
                        run_token,
                        k,
                        i,
                    )
        }),
    decreases n,
{
    if n > 0 {
        let m: nat = (n - 1) as nat;
        lemma_drift_is_told(pairs, assessments, run_token, assessed_at, m);
        let d = pairs_derived(pairs, assessments, run_token, assessed_at, m);
        let p = pairs[m as int];
        lemma_opening_told(d, p, run_token, assessed_at);
        let o = pair_opened(d, p, run_token, assessed_at);
        let size: nat = selections(p).len();
        lemma_drift_of_a_pair(o, pairs, assessments, run_token, assessed_at, m as int, size);
        let before = said(d.sheet.log, pkg("rebuildDrift"@));
        let told = said(
            pairs_derived(pairs, assessments, run_token, assessed_at, n).sheet.log,
            pkg("rebuildDrift"@),
        );
        assert forall|k: int, i: int|
            0 <= k < n && 0 <= i < selections(pairs[k]).len() implies (
        #[trigger] assessments[k][i].drift matches Some(x) ==> told.contains(
            to_iri(
                assessment_node(selections(pairs[k])[i].newest.node_uri, run_token),
                PKG@ + x.concept,
            ),
        )) by {
            if let Some(x) = assessments[k][i].drift {
                let y = to_iri(
                    assessment_node(selections(pairs[k])[i].newest.node_uri, run_token),
                    PKG@ + x.concept,
                );
                if k == m {
                    assert(is_drift_of(y, pairs, assessments, run_token, k, i));
                } else {
                    assert(before.contains(y));
                }
                assert(told.contains(y));
            }
        }
        assert forall|x: (Term, Term)| #[trigger] told.contains(x) implies exists|k: int, i: int|
            0 <= k < n && 0 <= i < selections(pairs[k]).len() && #[trigger] is_drift_of(
                x,
                pairs,
                assessments,
                run_token,
                k,
                i,
            ) by {
            if before.contains(x) {
                let (k, i) = choose|k: int, i: int|
                    0 <= k < m && 0 <= i < selections(pairs[k]).len() && #[trigger] is_drift_of(
                        x,
                        pairs,
                        assessments,
                        run_token,
                        k,
                        i,
                    );
                assert(0 <= k < n && is_drift_of(x, pairs, assessments, run_token, k, i));
            } else {
                let i: int = choose|i: int|
                    0 <= i < size && is_drift_of(x, pairs, assessments, run_token, m as int, i);
                assert(is_drift_of(x, pairs, assessments, run_token, m as int, i));
            }
        }
    }
}

// ---------------------------------------------------------------------------
// The deriver

/// The terms of the vocabulary that a run needs.
pub open spec fn needed_terms() -> Seq<Seq<char>> {
    seq![
        "RebuildAssessment"@,
        "assessmentOf"@,
        "hasUpstreamCounterpart"@,
        "rebuildFidelity"@,
        "rebuildDrift"@,
        "fidelityBaseline"@,
        "comparedAgainst"@,
        "assessedAgainstSnapshot"@,
        "lineageConfirmed"@,
        "RebuildFidelityScheme"@,
        "RebuildDriftScheme"@,
    ]
}

pub fn rebuild_terms() -> (r: Vec<String>)
    ensures
        views(r@) == needed_terms(),
{
    let mut v: Vec<String> = Vec::new();
    v.push("RebuildAssessment".to_owned());
    v.push("assessmentOf".to_owned());
    v.push("hasUpstreamCounterpart".to_owned());
    v.push("rebuildFidelity".to_owned());
    v.push("rebuildDrift".to_owned());
    v.push("fidelityBaseline".to_owned());
    v.push("comparedAgainst".to_owned());
    v.push("assessedAgainstSnapshot".to_owned());
    v.push("lineageConfirmed".to_owned());
    v.push("RebuildFidelityScheme".to_owned());
    v.push("RebuildDriftScheme".to_owned());
    assert(views(v@) =~= needed_terms());
    v
}

/// What was learned of a graph before a run.
pub struct GraphReply {
    pub rows: Result<Vec<SourceRow>, CollectError>,
    pub distribution: Result<String, CollectError>,
}

/// Why a term is missing, given how many rows the query for it gave.
pub open spec fn term_fault(term: Seq<char>, reply: Result<usize, CollectError>) -> Option<
    Failure,
> {
    match reply {
        Err(e) => Some(e@),
        Ok(n) => if n == 0 {
            Some(
                invalid_data(
                    "rebuild-assessment vocabulary term pkg:"@ + term
                        + " is not declared. Sync ontology PR #5 (v0.13.0-reified) and load the TBox before running this deriver."@,
                ),
            )
        } else {
            None
        },
    }
}

/// The first fault among the terms from `i` on.
pub open spec fn terms_fault(
    terms: Seq<Seq<char>>,
    replies: Seq<Result<usize, CollectError>>,
    i: int,
) -> Option<Failure>
    decreases terms.len() - i,
{
    if i < 0 || i >= terms.len() {
        None
    } else {
        match term_fault(terms[i], replies[i]) {
            Some(e) => Some(e),
            None => terms_fault(terms, replies, i + 1),
        }
    }
}

/// The graphs of the first `n` pairs, in order.
pub open spec fn graphs_in(pairs: Seq<PairText>, n: nat) -> Seq<Seq<char>>
    decreases n,
{
    if n == 0 {
        Seq::empty()
    } else {
        graphs_in(pairs, (n - 1) as nat).push(pairs[n - 1].rebuild_graph).push(
            pairs[n - 1].rhel_graph,
        )
    }
}

/// The graphs of pairs, each once, in ascending order.
pub open spec fn graphs_of(pairs: Seq<PairText>) -> Seq<Seq<char>> {
    listed(graphs_in(pairs, pairs.len()))
}

pub fn distinct_graphs(pairs: &Vec<Pair>) -> (r: Vec<String>)
    ensures
        views(r@) == graphs_of(pair_views(pairs@)),
{
    let mut all: Vec<String> = Vec::new();
    let mut i: usize = 0;
    let ghost texts = pair_views(pairs@);
    proof {
        lemma_views_empty();
    }
    while i < pairs.len()
        invariant
            i <= pairs.len(),
            texts == pair_views(pairs@),
            views(all@) == graphs_in(texts, i as nat),
        decreases pairs.len() - i,
    {
        assert(texts[i as int] == pairs@[i as int]@);
        all.push(pairs[i].rebuild_graph.clone());
        all.push(pairs[i].rhel_graph.clone());
        i = i + 1;
    }
    sorted_texts(&all)
}

/// Why a graph is not ready: it has too few source packages, or no distribution.
pub open spec fn graph_unready(
    graph: Seq<char>,
    reply: GraphReply,
    min_sources: usize,
) -> Option<Failure> {
    match reply.rows {
        Err(e) => Some(e@),
        Ok(rows) => {
            let n = rows_added(source_row_views(rows@), rows@.len()).len();
            if n < min_sources {
                Some(
                    invalid_data(
                        "graph "@ + graph + " has "@ + decimal(n) + " source builds (< min "@
                            + decimal(min_sources as nat)
                            + "); refusing to derive from an empty/truncated graph"@,
                    ),
                )
            } else {
                match reply.distribution {
                    Err(e) => Some(e@),
                    Ok(_) => None,
                }
            }
        },
    }
}

/// The first fault among the graphs from `i` on.
pub open spec fn graphs_unready(
    graphs: Seq<Seq<char>>,
    replies: Seq<GraphReply>,
    min_sources: usize,
    i: int,
) -> Option<Failure>
    decreases graphs.len() - i,
{
    if i < 0 || i >= graphs.len() {
        None
    } else {
        match graph_unready(graphs[i], replies[i], min_sources) {
            Some(e) => Some(e),
            None => graphs_unready(graphs, replies, min_sources, i + 1),
        }
    }
}

fn unready_graph(graph: &str, reply: &GraphReply, min_sources: usize) -> (r: Option<CollectError>)
    ensures
        failure_of(r) == graph_unready(graph@, *reply, min_sources),
{
    match &reply.rows {
        Err(e) => Some(e.copied()),
        Ok(rows) => {
            let builds: Vec<(String, Build)> = aggregate_source_rows(rows);
            assert(named_views(builds@).len() == builds@.len());
            if builds.len() < min_sources {
                let mut e: String = cat5(
                    "graph ",
                    graph,
                    " has ",
                    &decimal_of(builds.len() as u64),
                    " source builds (< min ",
                );
                e.append(&decimal_of(min_sources as u64));
                e.append("); refusing to derive from an empty/truncated graph");
                Some(invalid(e))
            } else {
                match &reply.distribution {
                    Err(e) => Some(e.copied()),
                    Ok(_) => None,
                }
            }
        },
    }
}

/// Whether the graph of rebuilds of one of the first `n` pairs is a given one.
pub open spec fn is_rebuilt(pairs: Seq<PairText>, graph: Seq<char>, n: nat) -> bool {
    exists|k: int| 0 <= k < n && (#[trigger] pairs[k]).rebuild_graph == graph
}

/// The first of the pairs from `i` on whose graph of rebuilds occurs before it.
pub open spec fn repeated_pair(pairs: Seq<PairText>, i: int) -> Option<Seq<char>>
    decreases pairs.len() - i,
{
    if i < 0 || i >= pairs.len() {
        None
    } else if is_rebuilt(pairs, pairs[i].rebuild_graph, i as nat) {
        Some(pairs[i].rebuild_graph)
    } else {
        repeated_pair(pairs, i + 1)
    }
}

/// The first of the pairs from `i` on with one graph on both sides.
pub open spec fn reflexive_pair(pairs: Seq<PairText>, i: int) -> Option<Seq<char>>
    decreases pairs.len() - i,
{
    if i < 0 || i >= pairs.len() {
        None
    } else if pairs[i].rebuild_graph == pairs[i].rhel_graph {
        Some(pairs[i].rebuild_graph)
    } else {
        reflexive_pair(pairs, i + 1)
    }
}

/// What is wrong with pairs: a graph of rebuilds has one upstream, and that is
/// another graph.
pub open spec fn pairs_fault(pairs: Seq<PairText>) -> Option<Seq<char>> {
    match repeated_pair(pairs, 0) {
        Some(g) => Some(
            "rebuild graph "@ + g
                + " appears in more than one pair; a rebuild graph must map to exactly one upstream"@,
        ),
        None => match reflexive_pair(pairs, 0) {
            Some(g) => Some(
                "pair rebuild_graph and rhel_graph are the same graph ("@ + g
                    + "); a rebuild graph cannot be its own upstream"@,
            ),
            None => None,
        },
    }
}

fn rebuilt_before(pairs: &Vec<Pair>, n: usize) -> (r: bool)
    requires
        n < pairs@.len(),
    ensures
        r == is_rebuilt(pair_views(pairs@), pairs@[n as int]@.rebuild_graph, n as nat),
{
    let mut k: usize = 0;
    let ghost texts = pair_views(pairs@);
    while k < n
        invariant
            k <= n < pairs@.len(),
            texts == pair_views(pairs@),
            forall|j: int|
                0 <= j < k ==> (#[trigger] texts[j]).rebuild_graph
                    != pairs@[n as int]@.rebuild_graph,
        decreases n - k,
    {
        assert(texts[k as int] == pairs@[k as int]@);
        if same(&pairs[k].rebuild_graph, &pairs[n].rebuild_graph) {
            return true;
        }
        k = k + 1;
    }
    false
}

/// Checks that each graph of rebuilds has one upstream, and that it is another graph.
pub fn check_pairs(pairs: &Vec<Pair>) -> (r: Result<(), CollectError>)
    ensures
        unit_outcome(r) == invalid_if(pairs_fault(pair_views(pairs@))),
{
    let ghost texts = pair_views(pairs@);
    let mut i: usize = 0;
    while i < pairs.len()
        invariant
            i <= pairs.len(),
            texts == pair_views(pairs@),
            repeated_pair(texts, 0) == repeated_pair(texts, i as int),
        decreases pairs.len() - i,
    {
        assert(texts[i as int] == pairs@[i as int]@);
        if rebuilt_before(pairs, i) {
            return Err(
                invalid(
                    cat3(
                        "rebuild graph ",
                        &pairs[i].rebuild_graph,
                        " appears in more than one pair; a rebuild graph must map to exactly one upstream",
                    ),
                ),
            );
        }
        i = i + 1;
    }
    let mut j: usize = 0;
    while j < pairs.len()
        invariant
            j <= pairs.len(),
            texts == pair_views(pairs@),
            repeated_pair(texts, 0) is None,
            reflexive_pair(texts, 0) == reflexive_pair(texts, j as int),
        decreases pairs.len() - j,
    {
        assert(texts[j as int] == pairs@[j as int]@);
        if same(&pairs[j].rebuild_graph, &pairs[j].rhel_graph) {
            return Err(
                invalid(
                    cat3(
                        "pair rebuild_graph and rhel_graph are the same graph (",
                        &pairs[j].rebuild_graph,
                        "); a rebuild graph cannot be its own upstream",
                    ),
                ),
            );
        }
        j = j + 1;
    }
    Ok(())
}

proof fn lemma_repeated_pair(pairs: Seq<PairText>, i: int)
    requires
        0 <= i <= pairs.len(),
    ensures
        repeated_pair(pairs, i) is None <==> forall|k: int|
            #![trigger pairs[k]]
            i <= k < pairs.len() ==> !is_rebuilt(pairs, pairs[k].rebuild_graph, k as nat),
    decreases pairs.len() - i,
{
    if i < pairs.len() {
        lemma_repeated_pair(pairs, i + 1);
        let at = pairs[i];
    }
}

proof fn lemma_reflexive_pair(pairs: Seq<PairText>, i: int)
    requires
        0 <= i <= pairs.len(),
    ensures
        reflexive_pair(pairs, i) is None <==> forall|k: int|
            #![trigger pairs[k]]
            i <= k < pairs.len() ==> pairs[k].rebuild_graph != pairs[k].rhel_graph,
    decreases pairs.len() - i,
{
    if i < pairs.len() {
        lemma_reflexive_pair(pairs, i + 1);
        let at = pairs[i];
    }
}

/// Pairs are accepted if and only if no graph of rebuilds occurs twice and none
/// is its own upstream.
pub proof fn lemma_accepted_pairs(pairs: Seq<PairText>)
    ensures
        pairs_fault(pairs) is None <==> {
            &&& forall|i: int, j: int|
                #![trigger pairs[i], pairs[j]]
                0 <= i < j < pairs.len() ==> pairs[i].rebuild_graph != pairs[j].rebuild_graph
            &&& forall|i: int|
                #![trigger pairs[i]]
                0 <= i < pairs.len() ==> pairs[i].rebuild_graph != pairs[i].rhel_graph
        },
{
    lemma_repeated_pair(pairs, 0);
    lemma_reflexive_pair(pairs, 0);
    if repeated_pair(pairs, 0) is None {
        assert forall|i: int, j: int| #![trigger pairs[i], pairs[j]] 0 <= i < j < pairs.len() implies
            pairs[i].rebuild_graph != pairs[j].rebuild_graph by {
            assert(!is_rebuilt(pairs, pairs[j].rebuild_graph, j as nat));
        }
    }
}

/// Derives the comparison of rebuilds with what they rebuild.
pub struct RebuildComparisonDeriver {
    pub endpoint: String,
}

/// What a run must find in the graph that it loaded.
pub struct LoadExpectations<'a> {
    pub assessments: usize,
    pub distribution_count: usize,
    pub subjects: &'a Vec<String>,
    pub snapshots: &'a Vec<String>,
    pub rhel_graphs: &'a Vec<String>,
}

/// Where the loading of a derived graph stands.
#[derive(Debug)]
pub enum LoadState {
    /// What an earlier attempt left is to be dropped.
    Drop,
    /// The file is to be loaded.
    Load,
    /// A query that counts is to be asked: the assessments, the distributions, and
    /// what must not be there.
    Count { index: usize },
    /// What was assessed is to be listed.
    Subjects,
    /// What it was assessed against is to be listed.
    Snapshots,
    /// The loaded graph is to take the place of the one in use.
    Swap,
    /// Something failed: the loaded graph is to be dropped.
    Cleanup { error: CollectError },
    Done { result: Result<(), CollectError> },
}

/// An answer to what loading a derived graph waits for.
pub enum LoadEvent {
    Outcome(Result<(), CollectError>),
    Rows(Result<Vec<Fields>, CollectError>),
}

/// What a [`LoadState`] says.
#[verifier::ext_equal]
pub enum LoadStage {
    Drop,
    Load,
    Count { index: usize },
    Subjects,
    Snapshots,
    Swap,
    Cleanup { error: Failure },
    Done { error: Option<Failure> },
}

impl View for LoadState {
    type V = LoadStage;

    open spec fn view(&self) -> LoadStage {
        match *self {
            LoadState::Drop => LoadStage::Drop,
            LoadState::Load => LoadStage::Load,
            LoadState::Count { index } => LoadStage::Count { index },
            LoadState::Subjects => LoadStage::Subjects,
            LoadState::Snapshots => LoadStage::Snapshots,
            LoadState::Swap => LoadStage::Swap,
            LoadState::Cleanup { error } => LoadStage::Cleanup { error: error@ },
            LoadState::Done { result } => LoadStage::Done { error: unit_outcome(result) },
        }
    }
}

/// What loading a derived graph needs next.
#[derive(Debug)]
pub enum LoadAction {
    DropGraph { graph: String },
    LoadFile { graph: String },
    Query { text: String },
    /// An update that must not be tried again.
    Update { text: String },
    Nothing,
}

/// What loading needs next, over views.
pub enum LoadNeed {
    DropGraph(Seq<char>),
    LoadFile(Seq<char>),
    Query(Seq<char>),
    Update(Seq<char>),
    Nothing,
}

pub open spec fn need_of(a: LoadAction) -> LoadNeed {
    match a {
        LoadAction::DropGraph { graph } => LoadNeed::DropGraph(graph@),
        LoadAction::LoadFile { graph } => LoadNeed::LoadFile(graph@),
        LoadAction::Query { text } => LoadNeed::Query(text@),
        LoadAction::Update { text } => LoadNeed::Update(text@),
        LoadAction::Nothing => LoadNeed::Nothing,
    }
}

/// The graph that a run loads into.
pub open spec fn staging_graph(prod: Seq<char>, run_token: Seq<char>) -> Seq<char> {
    prod + "-staging-"@ + run_token
}

pub fn staging_name(prod_graph: &str, run_token: &str) -> (r: String)
    ensures
        r@ == staging_graph(prod_graph@, run_token@),
{
    cat3(prod_graph, "-staging-", run_token)
}

/// How many queries that count there are.
pub open spec fn count_queries(expect: LoadExpectations, staging: Seq<char>) -> nat {
    2 + all_checks(staging, views(expect.rhel_graphs@)).len()
}

/// The text of a query that counts.
pub open spec fn count_query(
    expect: LoadExpectations,
    staging: Seq<char>,
    index: usize,
) -> Seq<char> {
    if index == 0 {
        count_assessments(staging)
    } else if index == 1 {
        count_distributions(staging)
    } else {
        all_checks(staging, views(expect.rhel_graphs@))[index - 2].1
    }
}

/// What to do in a stage.
pub open spec fn load_need(
    expect: LoadExpectations,
    prod: Seq<char>,
    staging: Seq<char>,
    stage: LoadStage,
) -> LoadNeed {
    match stage {
        LoadStage::Drop => LoadNeed::DropGraph(staging),
        LoadStage::Load => LoadNeed::LoadFile(staging),
        LoadStage::Count { index } => LoadNeed::Query(count_query(expect, staging, index)),
        LoadStage::Subjects => LoadNeed::Query(select_subjects(staging)),
        LoadStage::Snapshots => LoadNeed::Query(select_snapshots(staging)),
        LoadStage::Swap => LoadNeed::Update(swap_update(prod, staging)),
        LoadStage::Cleanup { error } => LoadNeed::DropGraph(staging),
        LoadStage::Done { error } => LoadNeed::Nothing,
    }
}

/// The count in the rows of a query.
pub open spec fn count_in(rows: Seq<Map<Seq<char>, Seq<char>>>) -> Option<usize> {
    if rows.len() == 0 {
        None
    } else {
        match field(rows[0], "c"@) {
            Some(text) => usize_value(text),
            None => None,
        }
    }
}

/// What is wrong with a count.
pub open spec fn count_fault(
    expect: LoadExpectations,
    staging: Seq<char>,
    index: usize,
    n: usize,
) -> Option<Seq<char>> {
    if index == 0 {
        if n == expect.assessments {
            None
        } else {
            Some(
                "staging graph has "@ + decimal(n as nat)
                    + " pkg:RebuildAssessment nodes but derive emitted "@ + decimal(
                    expect.assessments as nat,
                ) + " (truncation/partial-load guard); aborting, prod untouched"@,
            )
        }
    } else if index == 1 {
        if n == expect.distribution_count {
            None
        } else {
            Some(
                "staging graph has "@ + decimal(n as nat)
                    + " pkg:derivedFromDistribution triples but derive emitted "@ + decimal(
                    expect.distribution_count as nat,
                ) + " (distribution-coverage guard); aborting, prod untouched"@,
            )
        }
    } else if n == 0 {
        None
    } else {
        Some(
            "staging graph failed check ("@ + decimal(n as nat) + "): "@ + all_checks(
                staging,
                views(expect.rhel_graphs@),
            )[index - 2].0 + "; aborting, prod untouched"@,
        )
    }
}

/// The subjects in the first `n` rows of a query.
pub open spec fn subjects_in(rows: Seq<Map<Seq<char>, Seq<char>>>, n: nat) -> Seq<Seq<char>>
    decreases n,
{
    if n == 0 {
        Seq::empty()
    } else {
        let rest = subjects_in(rows, (n - 1) as nat);
        match field(rows[n - 1], "s"@) {
            Some(s) => rest.push(s),
            None => rest,
        }
    }
}

/// The first `limit` of the texts of a list that another list does not hold.
pub open spec fn lacking(a: Seq<Seq<char>>, b: Seq<Seq<char>>, n: nat, limit: nat) -> Seq<Seq<char>>
    decreases n,
{
    if n == 0 {
        Seq::empty()
    } else {
        let rest = lacking(a, b, (n - 1) as nat, limit);
        if rest.len() < limit && !b.contains(a[n - 1]) {
            rest.push(a[n - 1])
        } else {
            rest
        }
    }
}

/// A list of texts as `{:?}` writes it.
pub open spec fn debug_list(items: Seq<Seq<char>>) -> Seq<char> {
    "["@ + joined(Seq::new(items.len(), |i: int| debug_text(items[i])), ", "@) + "]"@
}

/// What is wrong with the subjects in the rows of a query: they must be those that
/// the run wrote, no more and no fewer.
pub open spec fn subjects_fault(
    what: Seq<char>,
    rows: Seq<Map<Seq<char>, Seq<char>>>,
    expected: Seq<Seq<char>>,
) -> Option<Seq<char>> {
    let actual = listed(subjects_in(rows, rows.len()));
    let wanted = listed(expected);
    if actual == wanted {
        None
    } else {
        Some(
            "staging "@ + what + " do not match the set derive emitted ("@ + decimal(actual.len())
                + " in staging vs "@ + decimal(wanted.len()) + " expected); unexpected: "@
                + debug_list(lacking(actual, wanted, actual.len(), 5)) + "; missing: "@
                + debug_list(lacking(wanted, actual, wanted.len(), 5))
                + "; aborting, prod untouched"@,
        )
    }
}

/// Where loading a derived graph begins: a run must have a name that can stand in
/// the reference to a graph.
pub open spec fn load_start(run_token: Seq<char>) -> LoadStage {
    if is_run_token(run_token) {
        LoadStage::Drop
    } else {
        LoadStage::Done {
            error: Some(
                invalid_data(
                    "run token "@ + debug_text(run_token)
                        + " is invalid; must match ^[A-Za-z0-9._-]+$"@,
                ),
            ),
        }
    }
}

pub open spec fn cleanup_if(fault: Option<Failure>, next: LoadStage) -> LoadStage {
    match fault {
        Some(error) => LoadStage::Cleanup { error },
        None => next,
    }
}

/// The stage after the last one passed.
pub open spec fn after_count(
    expect: LoadExpectations,
    staging: Seq<char>,
    index: usize,
) -> LoadStage {
    if index + 1 < count_queries(expect, staging) {
        LoadStage::Count { index: (index + 1) as usize }
    } else {
        LoadStage::Subjects
    }
}

/// The next stage. Whatever fails once something may have been loaded leads to the
/// removal of it. An answer to something else changes nothing.
pub open spec fn load_next(
    expect: LoadExpectations,
    staging: Seq<char>,
    s: LoadState,
    event: LoadEvent,
) -> LoadStage {
    match (s, event) {
        (LoadState::Drop, LoadEvent::Outcome(r)) => match unit_outcome(r) {
            None => LoadStage::Load,
            Some(e) => LoadStage::Done { error: Some(e) },
        },
        (LoadState::Load, LoadEvent::Outcome(r)) => cleanup_if(
            unit_outcome(r),
            LoadStage::Count { index: 0 },
        ),
        (LoadState::Count { index }, LoadEvent::Rows(Ok(rows))) => match count_in(
            field_maps(rows@),
        ) {
            None => LoadStage::Cleanup {
                error: invalid_data("staging validation query returned no numeric ?c binding"@),
            },
            Some(n) => cleanup_if(
                invalid_if(count_fault(expect, staging, index, n)),
                after_count(expect, staging, index),
            ),
        },
        (LoadState::Subjects, LoadEvent::Rows(Ok(rows))) => cleanup_if(
            invalid_if(
                subjects_fault("assessmentOf subjects"@, field_maps(rows@), views(expect.subjects@)),
            ),
            LoadStage::Snapshots,
        ),
        (LoadState::Snapshots, LoadEvent::Rows(Ok(rows))) => cleanup_if(
            invalid_if(
                subjects_fault(
                    "assessedAgainstSnapshot values"@,
                    field_maps(rows@),
                    views(expect.snapshots@),
                ),
            ),
            LoadStage::Swap,
        ),
        (LoadState::Count { index }, LoadEvent::Rows(Err(e))) => LoadStage::Cleanup { error: e@ },
        (LoadState::Subjects, LoadEvent::Rows(Err(e))) => LoadStage::Cleanup { error: e@ },
        (LoadState::Snapshots, LoadEvent::Rows(Err(e))) => LoadStage::Cleanup { error: e@ },
        (LoadState::Swap, LoadEvent::Outcome(r)) => cleanup_if(
            unit_outcome(r),
            LoadStage::Done { error: None },
        ),
        (LoadState::Cleanup { error }, LoadEvent::Outcome(_)) => LoadStage::Done {
            error: Some(error@),
        },
        _ => s@,
    }
}

fn staging_count(rows: &Vec<Fields>) -> (r: Option<usize>)
    ensures
        r == count_in(field_maps(rows@)),
{
    if rows.len() == 0 {
        return None;
    }
    assert(field_maps(rows@)[0] == rows@[0]@);
    match rows[0].get("c") {
        Some(text) => parse_usize(text),
        None => None,
    }
}

fn staging_subjects(rows: &Vec<Fields>) -> (r: Vec<String>)
    ensures
        views(r@) == listed(subjects_in(field_maps(rows@), rows@.len())),
{
    let mut all: Vec<String> = Vec::new();
    let mut i: usize = 0;
    let ghost maps = field_maps(rows@);
    proof {
        lemma_views_empty();
    }
    while i < rows.len()
        invariant
            i <= rows.len(),
            maps == field_maps(rows@),
            views(all@) == subjects_in(maps, i as nat),
        decreases rows.len() - i,
    {
        assert(maps[i as int] == rows@[i as int]@);
        if let Some(s) = rows[i].get("s") {
            all.push(s.clone());
        }
        i = i + 1;
    }
    sorted_texts(&all)
}

fn first_lacking(a: &Vec<String>, b: &Vec<String>, limit: usize) -> (r: Vec<String>)
    ensures
        views(r@) == lacking(views(a@), views(b@), a@.len(), limit as nat),
{
    let mut out: Vec<String> = Vec::new();
    let mut i: usize = 0;
    let ghost texts = views(a@);
    proof {
        lemma_views_empty();
    }
    while i < a.len()
        invariant
            i <= a.len(),
            texts == views(a@),
            views(out@) == lacking(texts, views(b@), i as nat, limit as nat),
        decreases a.len() - i,
    {
        assert(texts[i as int] == a@[i as int]@);
        assert(views(out@).len() == out@.len());
        if out.len() < limit && !has_item(b, &a[i]) {
            out.push(a[i].clone());
        }
        i = i + 1;
    }
    out
}

fn debug_of(items: &Vec<String>) -> (r: String)
    ensures
        r@ == debug_list(views(items@)),
{
    let mut out: Vec<String> = Vec::new();
    let mut i: usize = 0;
    let ghost texts = views(items@);
    while i < items.len()
        invariant
            i <= items.len(),
            out@.len() == i,
            texts == views(items@),
            forall|k: int| 0 <= k < i ==> (#[trigger] out@[k])@ == debug_text(texts[k]),
        decreases items.len() - i,
    {
        assert(texts[i as int] == items@[i as int]@);
        out.push(debug_form(&items[i]));
        i = i + 1;
    }
    let end: usize = out.len();
    assert(views(out@).subrange(0, end as int) =~= Seq::new(
        texts.len(),
        |k: int| debug_text(texts[k]),
    ));
    cat3("[", &join(&out, 0, end, ", "), "]")
}

fn fault_of_subjects(what: &str, rows: &Vec<Fields>, expected: &Vec<String>) -> (r: Option<String>)
    ensures
        opt(r) == subjects_fault(what@, field_maps(rows@), views(expected@)),
{
    let actual: Vec<String> = staging_subjects(rows);
    let wanted: Vec<String> = sorted_texts(expected);
    assert(field_maps(rows@).len() == rows@.len());
    assert(views(actual@).len() == actual@.len());
    assert(views(wanted@).len() == wanted@.len());
    if same_lists(&actual, &wanted) {
        return None;
    }
    let mut e: String = cat5(
        "staging ",
        what,
        " do not match the set derive emitted (",
        &decimal_of(actual.len() as u64),
        " in staging vs ",
    );
    e.append(&decimal_of(wanted.len() as u64));
    e.append(" expected); unexpected: ");
    e.append(&debug_of(&first_lacking(&actual, &wanted, 5)));
    e.append("; missing: ");
    e.append(&debug_of(&first_lacking(&wanted, &actual, 5)));
    e.append("; aborting, prod untouched");
    Some(e)
}

fn same_lists(a: &Vec<String>, b: &Vec<String>) -> (r: bool)
    ensures
        r == (views(a@) == views(b@)),
{
    assert(views(a@).len() == a@.len());
    assert(views(b@).len() == b@.len());
    if a.len() != b.len() {
        return false;
    }
    let mut i: usize = 0;
    while i < a.len()
        invariant
            i <= a@.len(),
            a@.len() == b@.len(),
            forall|k: int| 0 <= k < i ==> views(a@)[k] == #[trigger] views(b@)[k],
        decreases a@.len() - i,
    {
        assert(views(a@)[i as int] == a@[i as int]@);
        assert(views(b@)[i as int] == b@[i as int]@);
        if !same(&a[i], &b[i]) {
            return false;
        }
        i = i + 1;
    }
    assert(views(a@) =~= views(b@));
    true
}

fn cleaning(fault: Option<CollectError>, next: LoadState) -> (r: LoadState)
    ensures
        r@ == cleanup_if(failure_of(fault), next@),
{
    match fault {
        Some(error) => LoadState::Cleanup { error },
        None => next,
    }
}

fn fault_of_count(
    expect: &LoadExpectations,
    checks: &Vec<StagingCheck>,
    index: usize,
    n: usize,
    Ghost(staging): Ghost<Seq<char>>,
) -> (r: Option<String>)
    requires
        check_views(checks@) == all_checks(staging, views(expect.rhel_graphs@)),
        index < 2 + checks@.len(),
    ensures
        opt(r) == count_fault(*expect, staging, index, n),
{
    if index == 0 {
        if n == expect.assessments {
            return None;
        }
        return Some(
            cat5(
                "staging graph has ",
                &decimal_of(n as u64),
                " pkg:RebuildAssessment nodes but derive emitted ",
                &decimal_of(expect.assessments as u64),
                " (truncation/partial-load guard); aborting, prod untouched",
            ),
        );
    }
    if index == 1 {
        if n == expect.distribution_count {
            return None;
        }
        return Some(
            cat5(
                "staging graph has ",
                &decimal_of(n as u64),
                " pkg:derivedFromDistribution triples but derive emitted ",
                &decimal_of(expect.distribution_count as u64),
                " (distribution-coverage guard); aborting, prod untouched",
            ),
        );
    }
    if n == 0 {
        return None;
    }
    assert(check_views(checks@)[index - 2] == check_view(checks@[index - 2]));
    Some(
        cat5(
            "staging graph failed check (",
            &decimal_of(n as u64),
            "): ",
            &checks[index - 2].description,
            "; aborting, prod untouched",
        ),
    )
}

impl RebuildComparisonDeriver {
    pub fn new(endpoint: &str) -> (r: Self)
        ensures
            r.endpoint@ == endpoint@,
    {
        RebuildComparisonDeriver { endpoint: endpoint.to_owned() }
    }

    /// Checks that the vocabulary is there, given how many rows the query for each of
    /// [`rebuild_terms`] gave.
    pub fn check_ontology_terms(&self, replies: &Vec<Result<usize, CollectError>>) -> (r: Result<
        (),
        CollectError,
    >)
        requires
            replies@.len() == needed_terms().len(),
        ensures
            unit_outcome(r) == terms_fault(needed_terms(), replies@, 0),
    {
        let terms: Vec<String> = rebuild_terms();
        let ghost texts = needed_terms();
        let mut i: usize = 0;
        while i < terms.len()
            invariant
                i <= terms.len(),
                texts == views(terms@),
                texts == needed_terms(),
                replies@.len() == texts.len(),
                terms_fault(texts, replies@, 0) == terms_fault(texts, replies@, i as int),
            decreases terms.len() - i,
        {
            assert(texts[i as int] == terms@[i as int]@);
            match &replies[i] {
                Err(e) => {
                    return Err(e.copied());
                },
                Ok(n) => {
                    if *n == 0 {
                        return Err(
                            invalid(cat3(
                                "rebuild-assessment vocabulary term pkg:",
                                &terms[i],
                                " is not declared. Sync ontology PR #5 (v0.13.0-reified) and load the TBox before running this deriver.",
                            )),
                        );
                    }
                },
            }
            i = i + 1;
        }
        Ok(())
    }

    /// Checks that no graph is empty or cut off, given what was learned of each of
    /// [`distinct_graphs`].
    pub fn check_readiness(
        &self,
        pairs: &Vec<Pair>,
        replies: &Vec<GraphReply>,
        min_sources: usize,
    ) -> (r: Result<(), CollectError>)
        requires
            replies@.len() == graphs_of(pair_views(pairs@)).len(),
        ensures
            unit_outcome(r) == graphs_unready(
                graphs_of(pair_views(pairs@)),
                replies@,
                min_sources,
                0,
            ),
    {
        let graphs: Vec<String> = distinct_graphs(pairs);
        let ghost texts = graphs_of(pair_views(pairs@));
        let mut i: usize = 0;
        while i < graphs.len()
            invariant
                i <= graphs.len(),
                texts == views(graphs@),
                texts == graphs_of(pair_views(pairs@)),
                replies@.len() == texts.len(),
                graphs_unready(texts, replies@, min_sources, 0) == graphs_unready(
                    texts,
                    replies@,
                    min_sources,
                    i as int,
                ),
            decreases graphs.len() - i,
        {
            assert(texts[i as int] == graphs@[i as int]@);
            if let Some(e) = unready_graph(&graphs[i], &replies[i], min_sources) {
                return Err(e);
            }
            i = i + 1;
        }
        assert(views(graphs@).len() == graphs@.len());
        Ok(())
    }

    /// Derives the comparison, given what is known of each pair and the assessment of
    /// each build that [`select_builds`] selects. Returns the statements and a report.
    pub fn derive(
        &self,
        pairs: &Vec<Pair>,
        pairs_data: &Vec<PairData>,
        assessments: &Vec<Vec<Assessment>>,
        run_token: &str,
        assessed_at: &str,
    ) -> (r: Result<(String, RebuildReport), CollectError>)
        requires
            pairs_fault(pair_views(pairs@)) is None ==> {
                &&& pairs@.len() == pairs_data@.len()
                &&& forall|i: int|
                    0 <= i < pairs@.len() ==> (#[trigger] pairs_data@[i]).rhel_graph@
                        == pairs@[i].rhel_graph@
                &&& matched(pair_facts(pairs_data@), assessment_lists(assessments@))
            },
        ensures
            match pairs_fault(pair_views(pairs@)) {
                Some(e) => r is Err && r->Err_0@ == invalid_data(e),
                None => {
                    let d = pairs_derived(
                        pair_facts(pairs_data@),
                        assessment_lists(assessments@),
                        run_token@,
                        assessed_at@,
                        pairs_data@.len(),
                    );
                    &&& r is Ok
                    &&& (r->Ok_0).0@ == text_of(rendered(d.sheet.log, d.sheet.graph))
                    &&& (r->Ok_0).1@ == d.report
                    &&& (r->Ok_0).1.pairs == pairs_data@.len()
                    &&& (r->Ok_0).1.triples == d.sheet.log.len()
                },
            },
    {
        match check_pairs(pairs) {
            Err(e) => Err(e),
            Ok(_) => Ok(build_report(pairs_data, assessments, run_token, assessed_at)),
        }
    }

    /// Where loading a derived graph begins.
    pub fn begin_load(&self, run_token: &str) -> (r: LoadState)
        ensures
            r@ == load_start(run_token@),
    {
        if valid_run_token(run_token) {
            LoadState::Drop
        } else {
            LoadState::Done {
                result: Err(
                    invalid(
                        cat3(
                            "run token ",
                            &debug_form(run_token),
                            " is invalid; must match ^[A-Za-z0-9._-]+$",
                        ),
                    ),
                ),
            }
        }
    }

    /// What loading a derived graph needs next.
    pub fn load_action(
        &self,
        expect: &LoadExpectations,
        prod_graph: &str,
        run_token: &str,
        s: &LoadState,
    ) -> (r: LoadAction)
        requires
            s@ is Count ==> s@->index < count_queries(
                *expect,
                staging_graph(prod_graph@, run_token@),
            ),
        ensures
            need_of(r) == load_need(
                *expect,
                prod_graph@,
                staging_graph(prod_graph@, run_token@),
                s@,
            ),
    {
        let staging: String = staging_name(prod_graph, run_token);
        match s {
            LoadState::Drop => LoadAction::DropGraph { graph: staging },
            LoadState::Load => LoadAction::LoadFile { graph: staging },
            LoadState::Count { index } => {
                let i: usize = *index;
                if i == 0 {
                    LoadAction::Query { text: assessment_count_query(&staging) }
                } else if i == 1 {
                    LoadAction::Query { text: distribution_count_query(&staging) }
                } else {
                    let checks: Vec<StagingCheck> = staging_checks(&staging, expect.rhel_graphs);
                    assert(check_views(checks@)[i - 2] == check_view(checks@[i - 2]));
                    LoadAction::Query { text: checks[i - 2].query.clone() }
                }
            },
            LoadState::Subjects => LoadAction::Query { text: assessment_subjects_query(&staging) },
            LoadState::Snapshots => LoadAction::Query { text: snapshot_subjects_query(&staging) },
            LoadState::Swap => LoadAction::Update { text: atomic_swap_update(prod_graph, &staging) },
            LoadState::Cleanup { error: _ } => LoadAction::DropGraph { graph: staging },
            LoadState::Done { result: _ } => LoadAction::Nothing,
        }
    }

    /// Takes the answer to what loading a derived graph waits for.
    pub fn load_atomic(
        &self,
        expect: &LoadExpectations,
        prod_graph: &str,
        run_token: &str,
        s: LoadState,
        event: LoadEvent,
    ) -> (r: LoadState)
        requires
            s@ is Count ==> s@->index < count_queries(
                *expect,
                staging_graph(prod_graph@, run_token@),
            ),
        ensures
            r@ == load_next(*expect, staging_graph(prod_graph@, run_token@), s, event),
            r@ is Count ==> r@->index < count_queries(
                *expect,
                staging_graph(prod_graph@, run_token@),
            ),
    {
        let staging: String = staging_name(prod_graph, run_token);
        match event {
            LoadEvent::Outcome(outcome) => match s {
                LoadState::Drop => match outcome {
                    Ok(_) => LoadState::Load,
                    Err(e) => LoadState::Done { result: Err(e) },
                },
                LoadState::Load => cleaning(error_of(outcome), LoadState::Count { index: 0 }),
                LoadState::Swap => cleaning(
                    error_of(outcome),
                    LoadState::Done { result: Ok(()) },
                ),
                LoadState::Cleanup { error } => LoadState::Done { result: Err(error) },
                other => other,
            },
            LoadEvent::Rows(Err(e)) => match s {
                LoadState::Count { index: _ } => LoadState::Cleanup { error: e },
                LoadState::Subjects => LoadState::Cleanup { error: e },
                LoadState::Snapshots => LoadState::Cleanup { error: e },
                other => other,
            },
            LoadEvent::Rows(Ok(rows)) => match s {
                LoadState::Count { index } => {
                    let checks: Vec<StagingCheck> = staging_checks(&staging, expect.rhel_graphs);
                    assert(check_views(checks@).len() == checks@.len());
                    match staging_count(&rows) {
                        None => LoadState::Cleanup {
                            error: invalid(
                                "staging validation query returned no numeric ?c binding".to_owned(),
                            ),
                        },
                        Some(n) => {
                            let next: LoadState = if index < 1 || index - 1 < checks.len() {
                                LoadState::Count { index: index + 1 }
                            } else {
                                LoadState::Subjects
                            };
                            cleaning(
                                invalid_when(
                                    fault_of_count(expect, &checks, index, n, Ghost(staging@)),
                                ),
                                next,
                            )
                        },
                    }
                },
                LoadState::Subjects => cleaning(
                    invalid_when(
                        fault_of_subjects("assessmentOf subjects", &rows, expect.subjects),
                    ),
                    LoadState::Snapshots,
                ),
                LoadState::Snapshots => cleaning(
                    invalid_when(
                        fault_of_subjects(
                            "assessedAgainstSnapshot values",
                            &rows,
                            expect.snapshots,
                        ),
                    ),
                    LoadState::Swap,
                ),
                other => other,
            },
        }
    }
}

// ---------------------------------------------------------------------------
// Laws of loading

/// The graph in use is replaced only after every check passed: each stage is reached
/// from the one before it, and only by an answer without a fault.
pub proof fn lemma_swap_needs_every_check(
    expect: LoadExpectations,
    staging: Seq<char>,
    s: LoadState,
    event: LoadEvent,
)
    ensures
        ({
            let next = load_next(expect, staging, s, event);
            &&& next is Swap && !(s is Swap) ==> s is Snapshots && event is Rows
                && event->Rows_0 is Ok && subjects_fault(
                "assessedAgainstSnapshot values"@,
                field_maps(event->Rows_0->Ok_0@),
                views(expect.snapshots@),
            ) is None
            &&& next is Snapshots && !(s is Snapshots) ==> s is Subjects && event is Rows
                && event->Rows_0 is Ok && subjects_fault(
                "assessmentOf subjects"@,
                field_maps(event->Rows_0->Ok_0@),
                views(expect.subjects@),
            ) is None
            &&& next is Subjects && !(s is Subjects) ==> s is Count && s->Count_index + 1
                >= count_queries(expect, staging) && passes(expect, staging, s->Count_index, event)
            &&& next is Count && next != s@ ==> (s is Load && next->index == 0) || (s is Count
                && next->index == s->Count_index + 1 && passes(
                expect,
                staging,
                s->Count_index,
                event,
            ))
        }),
{
}

/// Whether the answer to a query that counts is the one that is expected.
pub open spec fn passes(
    expect: LoadExpectations,
    staging: Seq<char>,
    index: usize,
    event: LoadEvent,
) -> bool {
    &&& event is Rows
    &&& event->Rows_0 is Ok
    &&& count_in(field_maps(event->Rows_0->Ok_0@)) is Some
    &&& count_fault(
        expect,
        staging,
        index,
        count_in(field_maps(event->Rows_0->Ok_0@))->0,
    ) is None
}

/// A failure after something may have been loaded ends with the removal of it, and
/// with the first error.
pub proof fn lemma_failures_leave_nothing_behind(
    expect: LoadExpectations,
    staging: Seq<char>,
    s: LoadState,
    event: LoadEvent,
)
    ensures
        ({
            let next = load_next(expect, staging, s, event);
            next is Done && !(s is Done) && next->Done_error is Some ==> s is Drop || (
            s is Cleanup && next->Done_error == Some(s->Cleanup_error@))
        }),
{
}

} // verus!
