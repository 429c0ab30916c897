//! Debian and its derivatives.

use crate::archive::{gunzip_lines, gunzipped_lines, GzLines};
use crate::collect_bodhi::maybe_pair;
use crate::cran::is_continuation;
use crate::deps::{contact_of, split_contact, MAINTAINER};
use crate::ecosystem::{by_name, detect_ecosystem_by_name};
use crate::failure::{invalid, invalid_data, CollectError, Failure};
use crate::forge::{
    emit_dq_issue, emit_forge_triples, emit_upstream_repo, extract_forge_url, forge_url,
    with_dq_issue, with_forge, with_upstream_repo,
};
use crate::ntriples::{
    bnode_id, bnode_label, bnode_literal, bnode_object, bnode_subject, link, literal, number_if,
    pkg, typed, xsd, NTriplesWriter, Sheet, DATA, PKG, XSD,
};
use crate::number::{i64_value, parse_i64};
use crate::pattern::{
    captures, group, group_at, group_or_empty, group_text, maybe_groups, regex_captures,
};
use crate::reading::{group_deb, group_reading, said, to_each, to_iri, where_so};
use crate::split::{
    first_word_or_all, leading_word_or_all, lines, lines_of, pieces, split, trim, trim_end_char,
    trimmed, trimmed_end_char, Sep,
};
use crate::text::{
    before, cat2, cat3, cat4, cat5, contains, cut_once, empty, has_item, has_prefix, has_text,
    head, lemma_found, lemma_not_found, lemma_views_empty, lemma_views_push, occurs_at, opt, same,
    split_once, strip_prefix, views,
    without_prefix,
};
use crate::textmap::{
    field, field_maps, lemma_field_maps_push, values_at, values_for, Fields, TextMap, Texts,
};
use crate::uris::{
    arch_iri, arch_uri, dep_type_iri, dep_type_uri, distro_iri, distro_uri, ecosystem_iri,
    ecosystem_uri, enc, encode, format_purl, identity_iri, maintainer_iri, maintainer_uri,
    package_identity_uri, package_iri, package_uri, purl, release_iri, release_uri, repo_iri,
    repo_uri, source_iri, source_uri, version_iri, version_uri, DEB, FOAF, RDFS_LABEL, RDF_TYPE,
    VCS,
};
use crate::xml::{lemma_pairs_push, pairs_of};
use vstd::prelude::*;

verus! {

broadcast use crate::text::lemma_views_push;

/// The pattern of a dependency: a name, and maybe a constraint in brackets.
pub const DEPENDENCY: &'static str = r"([\w.-]+)(?:\s+\(([^)]+)\))?";

/// The pattern of a constraint: an operator and a version.
pub const CONSTRAINT: &'static str = r"^\s*([<>=]+)\s*(.+)$";

/// The pattern of a source: a name, and maybe a version in brackets.
pub const SOURCE: &'static str = r"^([^\s]+)(?:\s+\(([^)]+)\))?$";

/// A collector of one component of a distribution.
pub struct DebianCollector {
    pub repo_url: String,
    pub distro_name: String,
    pub distribution: String,
    pub component: String,
    pub repo_type: String,
}

/// A release.
pub struct ReleaseInfo {
    pub codename: String,
    pub suite: String,
    pub origin: String,
}

/// What a [`ReleaseInfo`] says.
#[verifier::ext_equal]
pub struct ReleaseText {
    pub codename: Seq<char>,
    pub suite: Seq<char>,
    pub origin: Seq<char>,
}

impl View for ReleaseInfo {
    type V = ReleaseText;

    open spec fn view(&self) -> ReleaseText {
        ReleaseText {
            codename: self.codename@,
            suite: self.suite@,
            origin: self.origin@,
        }
    }
}

// ---------------------------------------------------------------------------
// Names

/// The name of a distribution for people.
pub open spec fn display_name(distro: Seq<char>) -> Seq<char> {
    if distro == "debian"@ {
        "Debian"@
    } else if distro == "ubuntu"@ {
        "Ubuntu"@
    } else {
        distro
    }
}

pub fn distro_display_name(distro_id: &str) -> (r: String)
    ensures
        r@ == display_name(distro_id@),
{
    if same(distro_id, "debian") {
        "Debian".to_owned()
    } else if same(distro_id, "ubuntu") {
        "Ubuntu".to_owned()
    } else {
        distro_id.to_owned()
    }
}

/// What a repository holds, by its address.
pub open spec fn repo_kind(url: Seq<char>) -> Seq<char> {
    if contains(url, "security"@) {
        "security"@
    } else if contains(url, "updates"@) {
        "updates"@
    } else if contains(url, "proposed"@) {
        "proposed"@
    } else {
        "release"@
    }
}

pub fn infer_repo_type_debian(url: &str) -> (r: String)
    ensures
        r@ == repo_kind(url@),
{
    if has_text(url, "security") {
        "security".to_owned()
    } else if has_text(url, "updates") {
        "updates".to_owned()
    } else if has_text(url, "proposed") {
        "proposed".to_owned()
    } else {
        "release".to_owned()
    }
}

/// The name of an architecture: what follows the last hyphen.
pub open spec fn arch_name(arch: Seq<char>) -> Seq<char> {
    pieces(arch, Sep::Is('-')).last()
}

pub fn name_of_arch(arch: &str) -> (r: String)
    ensures
        r@ == arch_name(arch@),
{
    let parts: Vec<String> = split(arch, &Sep::Is('-'));
    assert(views(parts@).last() == parts@[parts@.len() - 1]@);
    parts[parts.len() - 1].clone()
}

// ---------------------------------------------------------------------------
// The release file

/// What the first `n` lines of a release file say.
pub open spec fn release_state(lines: Seq<Seq<char>>, n: nat) -> (
    Option<Seq<char>>,
    Option<Seq<char>>,
    Option<Seq<char>>,
)
    decreases n,
{
    if n == 0 {
        (None, None, None)
    } else {
        let (codename, suite, origin) = release_state(lines, (n - 1) as nat);
        let line = lines[n - 1];
        match strip_prefix(line, "Codename:"@) {
            Some(v) => (Some(trim(v)), suite, origin),
            None => match strip_prefix(line, "Suite:"@) {
                Some(v) => (codename, Some(trim(v)), origin),
                None => match strip_prefix(line, "Origin:"@) {
                    Some(v) => (codename, suite, Some(trim(v))),
                    None => (codename, suite, origin),
                },
            },
        }
    }
}

/// The release that a release file describes: codename, suite and origin. All
/// three are needed.
pub open spec fn release_of(text: Seq<char>) -> Result<ReleaseText, Failure> {
    let lines = lines_of(text);
    match release_state(lines, lines.len()) {
        (Some(codename), Some(suite), Some(origin)) => Ok(
            ReleaseText { codename, suite, origin },
        ),
        _ => Err(invalid_data("Incomplete release information"@)),
    }
}

pub open spec fn release_outcome(r: Result<ReleaseInfo, CollectError>) -> Result<
    ReleaseText,
    Failure,
> {
    match r {
        Ok(x) => Ok(x@),
        Err(e) => Err(e@),
    }
}

/// Parses a release file.
pub fn parse_release(text: &str) -> (r: Result<ReleaseInfo, CollectError>)
    ensures
        release_outcome(r) == release_of(text@),
{
    let all: Vec<String> = lines(text);
    let mut codename: Option<String> = None;
    let mut suite: Option<String> = None;
    let mut origin: Option<String> = None;
    let mut i: usize = 0;
    let ghost texts = views(all@);
    while i < all.len()
        invariant
            i <= all.len(),
            texts == views(all@),
            (opt(codename), opt(suite), opt(origin)) == release_state(texts, i as nat),
        decreases all.len() - i,
    {
        assert(texts[i as int] == all@[i as int]@);
        if let Some(v) = without_prefix(&all[i], "Codename:") {
            codename = Some(trimmed(&v));
        } else if let Some(v) = without_prefix(&all[i], "Suite:") {
            suite = Some(trimmed(&v));
        } else if let Some(v) = without_prefix(&all[i], "Origin:") {
            origin = Some(trimmed(&v));
        }
        i = i + 1;
    }
    match (codename, suite, origin) {
        (Some(codename), Some(suite), Some(origin)) => Ok(ReleaseInfo { codename, suite, origin }),
        _ => Err(invalid("Incomplete release information".to_owned())),
    }
}

// ---------------------------------------------------------------------------
// Indexes

/// The state of reading an index: the records that were ended by an empty line,
/// the one that is being read, and its last field.
#[verifier::ext_equal]
pub struct IndexState {
    pub done: Seq<Map<Seq<char>, Seq<char>>>,
    pub current: Map<Seq<char>, Seq<char>>,
    pub key: Seq<char>,
}

/// Whether a record names a package and its version.
pub open spec fn is_package(m: Map<Seq<char>, Seq<char>>) -> bool {
    m.contains_key("Package"@) && m.contains_key("Version"@)
}

/// Whether a record is one of an index: it names a package, and its version where
/// that is asked for.
pub open spec fn is_listed(m: Map<Seq<char>, Seq<char>>, versioned: bool) -> bool {
    m.contains_key("Package"@) && (versioned ==> m.contains_key("Version"@))
}

/// The state after one more line. A line that starts with white space goes on
/// with the last field.
pub open spec fn index_line(s: IndexState, line: Seq<char>, versioned: bool) -> IndexState {
    if line.len() == 0 {
        IndexState {
            done: if is_listed(s.current, versioned) {
                s.done.push(s.current)
            } else {
                s.done
            },
            current: Map::empty(),
            key: Seq::empty(),
        }
    } else if is_continuation(line) {
        if s.key.len() > 0 && s.current.contains_key(s.key) {
            IndexState {
                current: s.current.insert(s.key, s.current[s.key] + " "@ + trim(line)),
                ..s
            }
        } else {
            s
        }
    } else {
        match split_once(line, ":"@) {
            Some(kv) => IndexState {
                current: s.current.insert(trim(kv.0), trim(kv.1)),
                key: trim(kv.0),
                ..s
            },
            None => s,
        }
    }
}

pub open spec fn index_state(lines: Seq<Seq<char>>, n: nat, versioned: bool) -> IndexState
    decreases n,
{
    if n == 0 {
        IndexState { done: Seq::empty(), current: Map::empty(), key: Seq::empty() }
    } else {
        index_line(index_state(lines, (n - 1) as nat, versioned), lines[n - 1], versioned)
    }
}

/// The packages in the lines of an index that are ended by an empty line.
pub open spec fn ended_records(lines: Seq<Seq<char>>, versioned: bool) -> Seq<
    Map<Seq<char>, Seq<char>>,
> {
    index_state(lines, lines.len(), versioned).done
}

/// The package at the end of an index that no empty line ends.
pub open spec fn open_record(lines: Seq<Seq<char>>, versioned: bool) -> Option<
    Map<Seq<char>, Seq<char>>,
> {
    let current = index_state(lines, lines.len(), versioned).current;
    if is_listed(current, versioned) {
        Some(current)
    } else {
        None
    }
}

pub open spec fn maybe_fields(f: Option<Fields>) -> Option<Map<Seq<char>, Seq<char>>> {
    match f {
        Some(m) => Some(m@),
        None => None,
    }
}

/// The records of an index.
pub struct IndexRecords {
    pub ended: Vec<Fields>,
    pub open: Option<Fields>,
}

fn is_listed_record(m: &Fields, versioned: bool) -> (r: bool)
    ensures
        r == is_listed(m@, versioned),
{
    m.contains_key("Package") && (!versioned || m.contains_key("Version"))
}

fn continued_value(m: &Fields, key: &str, line: &str) -> (r: Option<String>)
    ensures
        opt(r) == (if key@.len() > 0 && m@.contains_key(key@) {
            Some(m@[key@] + " "@ + trim(line@))
        } else {
            None
        }),
{
    if empty(key) {
        return None;
    }
    match m.get(key) {
        Some(v) => Some(cat3(v, " ", &trimmed(line))),
        None => None,
    }
}

/// Parses the lines of an index.
pub fn parse_index(lines: &Vec<String>, versioned: bool) -> (r: IndexRecords)
    ensures
        field_maps(r.ended@) == ended_records(views(lines@), versioned),
        maybe_fields(r.open) == open_record(views(lines@), versioned),
        forall|i: int|
            0 <= i < r.ended@.len() ==> is_listed((#[trigger] r.ended@[i])@, versioned),
        r.ended@.len() <= lines@.len(),
        r.open is Some ==> r.ended@.len() < lines@.len(),
{
    let mut ended: Vec<Fields> = Vec::new();
    let mut current: Fields = TextMap::new();
    let mut key: String = String::new();
    let mut i: usize = 0;
    let ghost texts = views(lines@);
    assert(field_maps(ended@) =~= Seq::empty());
    assert(key@ =~= Seq::empty());
    while i < lines.len()
        invariant
            i <= lines.len(),
            texts == views(lines@),
            forall|k: int|
                0 <= k < ended@.len() ==> is_listed((#[trigger] ended@[k])@, versioned),
            ended@.len() <= i,
            current@.contains_key("Package"@) ==> ended@.len() < i,
            (IndexState { done: field_maps(ended@), current: current@, key: key@ }) == index_state(
                texts,
                i as nat,
                versioned,
            ),
        decreases lines.len() - i,
    {
        let line: &String = &lines[i];
        assert(texts[i as int] == line@);
        if empty(line) {
            if is_listed_record(&current, versioned) {
                proof {
                    lemma_field_maps_push(ended@, current);
                }
                ended.push(current);
            }
            current = TextMap::new();
            key = String::new();
            assert(key@ =~= Seq::empty());
        } else if has_prefix(line, " ") || has_prefix(line, "\t") {
            if let Some(v) = continued_value(&current, &key, line) {
                current.insert(key.clone(), v);
            }
        } else if let Some((k, v)) = cut_once(line, ":") {
            key = trimmed(&k);
            current.insert(key.clone(), trimmed(&v));
        }
        i = i + 1;
    }
    let open: Option<Fields> = if is_listed_record(&current, versioned) {
        Some(current)
    } else {
        None
    };
    IndexRecords { ended, open }
}

// ---------------------------------------------------------------------------
// Dependencies

/// The sign that stands for an operator.
pub open spec fn operator_sign(op: Seq<char>) -> Seq<char> {
    if op == "<<"@ {
        "<"@
    } else if op == "<="@ {
        "≤"@
    } else if op == "="@ {
        "="@
    } else if op == ">="@ {
        "≥"@
    } else if op == ">>"@ {
        ">"@
    } else {
        op
    }
}

fn sign_of_operator(op: &str) -> (r: String)
    ensures
        r@ == operator_sign(op@),
{
    if same(op, "<<") {
        "<".to_owned()
    } else if same(op, "<=") {
        "≤".to_owned()
    } else if same(op, "=") {
        "=".to_owned()
    } else if same(op, ">=") {
        "≥".to_owned()
    } else if same(op, ">>") {
        ">".to_owned()
    } else {
        op.to_owned()
    }
}

/// The operator and the version in the groups of [`CONSTRAINT`].
pub open spec fn constraint_in(groups: Option<Seq<Option<Seq<char>>>>) -> Option<
    (Seq<char>, Seq<char>),
> {
    match groups {
        Some(g) => Some((operator_sign(group_text(g, 1)), trim(group_text(g, 2)))),
        None => None,
    }
}

/// Takes a constraint apart, given the groups of its pattern.
pub fn split_constraint(groups: &Option<Vec<Option<String>>>) -> (r: Option<(String, String)>)
    ensures
        maybe_pair(r) == constraint_in(maybe_groups(*groups)),
{
    match groups {
        Some(g) => Some(
            (sign_of_operator(&group_or_empty(g, 1)), trimmed(&group_or_empty(g, 2))),
        ),
        None => None,
    }
}

/// A constraint on a version.
pub struct VersionLimit {
    pub operator: String,
    pub value: String,
}

/// What a [`VersionLimit`] says.
#[verifier::ext_equal]
pub struct Limit {
    pub operator: Seq<char>,
    pub value: Seq<char>,
}

impl View for VersionLimit {
    type V = Limit;

    open spec fn view(&self) -> Limit {
        Limit {
            operator: self.operator@,
            value: self.value@,
        }
    }
}

/// The constraint that a text states, where it states one.
pub open spec fn limit_in(text: Seq<char>) -> Option<Limit> {
    match constraint_in(regex_captures(CONSTRAINT@, text)) {
        Some(p) => Some(Limit { operator: p.0, value: p.1 }),
        None => None,
    }
}

pub open spec fn limit_view(l: Option<VersionLimit>) -> Option<Limit> {
    match l {
        Some(x) => Some(x@),
        None => None,
    }
}

/// The constraint that a text states.
pub fn parse_version_constraint(text: &str) -> (r: Option<VersionLimit>)
    ensures
        limit_view(r) == limit_in(text@),
{
    match split_constraint(&captures(CONSTRAINT, text)) {
        Some((operator, value)) => Some(VersionLimit { operator, value }),
        None => None,
    }
}

/// One dependency of a package: links, a node of its own, and its constraint.
#[verifier::opaque]
pub open spec fn with_dependency(
    w: Sheet,
    c: DebianCollector,
    package: Seq<char>,
    name: Seq<char>,
    limit: Limit,
    limited: bool,
    kind: Seq<char>,
    property: Seq<char>,
    codename: Seq<char>,
    arch: Seq<char>,
) -> Sheet {
    let target = identity_iri(c.distro_name@, codename, arch, name);
    let w = link(w, target, RDF_TYPE@, pkg("PackageIdentity"@));
    let w = literal(w, target, pkg("packageName"@), name);
    let w = if kind == "conflicts"@ || kind == "breaks"@ {
        link(w, package, pkg("directlyConflictsWith"@), target)
    } else {
        link(w, package, pkg("directlyDependsOn"@), target)
    };
    let w = link(w, package, property, target);
    let node = bnode_label("dep"@, package + "_"@ + name);
    let w = bnode_subject(w, node, RDF_TYPE@, pkg("Dependency"@));
    let w = bnode_subject(w, node, pkg("dependencyTarget"@), target);
    let w = bnode_subject(w, node, pkg("dependencyType"@), dep_type_iri(kind));
    let w = bnode_object(w, package, pkg("hasDependency"@), node);
    let w = if limited {
        let mark = bnode_label("constraint"@, node + "_"@ + limit.value);
        let w = bnode_subject(w, mark, RDF_TYPE@, pkg("VersionConstraint"@));
        let w = bnode_literal(w, mark, pkg("versionConstraintOperator"@), limit.operator);
        let w = bnode_literal(w, mark, pkg("versionConstraintValue"@), limit.value);
        bnode_subject(w, node, pkg("hasVersionConstraint"@), "_"@ + mark)
    } else {
        w
    };
    w
}

impl DebianCollector {
    /// One dependency of a package: links, a node of its own, and its constraint.
    pub fn emit_dependency(
        &self,
        writer: &mut NTriplesWriter,
        package: &str,
        name: &str,
        limit: &VersionLimit,
        limited: bool,
        kind: &str,
        property: &str,
        codename: &str,
        arch: &str,
    ) -> (r: usize)
        ensures
            final(writer)@ == with_dependency(
                old(writer)@,
                *self,
                package@,
                name@,
                limit@,
                limited,
                kind@,
                property@,
                codename@,
                arch@,
            ),
            r == final(writer)@.log.len() - old(writer)@.log.len(),
    {
        proof {
            reveal(with_dependency);
        }
        let start: usize = writer.len();
        let target: String = package_identity_uri(&self.distro_name, codename, arch, name);
        writer.write_triple(&target, RDF_TYPE, &cat2(PKG, "PackageIdentity"));
        writer.write_literal(&target, &cat2(PKG, "packageName"), name);
        if same(kind, "conflicts") || same(kind, "breaks") {
            writer.write_triple(package, &cat2(PKG, "directlyConflictsWith"), &target);
        } else {
            writer.write_triple(package, &cat2(PKG, "directlyDependsOn"), &target);
        }
        writer.write_triple(package, property, &target);
        let node: String = bnode_id("dep", &cat3(package, "_", name));
        writer.write_bnode_subject(&node, RDF_TYPE, &cat2(PKG, "Dependency"));
        writer.write_bnode_subject(&node, &cat2(PKG, "dependencyTarget"), &target);
        writer.write_bnode_subject(&node, &cat2(PKG, "dependencyType"), &dep_type_uri(kind));
        writer.write_bnode_object(package, &cat2(PKG, "hasDependency"), &node);
        if limited {
            let mark: String = bnode_id("constraint", &cat3(&node, "_", &limit.value));
            writer.write_bnode_subject(&mark, RDF_TYPE, &cat2(PKG, "VersionConstraint"));
            writer.write_bnode_literal(
                &mark,
                &cat2(PKG, "versionConstraintOperator"),
                &limit.operator,
            );
            writer.write_bnode_literal(&mark, &cat2(PKG, "versionConstraintValue"), &limit.value);
            writer.write_bnode_subject(
                &node,
                &cat2(PKG, "hasVersionConstraint"),
                &cat2("_", &mark),
            );
        }
        writer.len() - start
    }
}

/// The first alternative of an entry of a dependency field.
pub open spec fn first_alternative(entry: Seq<char>) -> Seq<char> {
    trim(before(entry, "|"@))
}

pub open spec fn no_limit() -> Limit {
    Limit { operator: Seq::empty(), value: Seq::empty() }
}

/// The constraint in group 2 of [`DEPENDENCY`].
pub open spec fn group_limit(g: Seq<Option<Seq<char>>>) -> Option<Limit> {
    match group(g, 2) {
        Some(text) => limit_in(text),
        None => None,
    }
}

/// An entry of a dependency field, taken apart by [`DEPENDENCY`]. One that does
/// not match gives nothing.
pub open spec fn with_dependency_entry(
    w: Sheet,
    c: DebianCollector,
    package: Seq<char>,
    kind: Seq<char>,
    property: Seq<char>,
    codename: Seq<char>,
    arch: Seq<char>,
    entry: Seq<char>,
) -> Sheet {
    match regex_captures(DEPENDENCY@, first_alternative(entry)) {
        Some(g) => with_dependency(
            w,
            c,
            package,
            group_text(g, 1),
            match group_limit(g) {
                Some(l) => l,
                None => no_limit(),
            },
            group_limit(g) is Some,
            kind,
            property,
            codename,
            arch,
        ),
        None => w,
    }
}

/// The first `n` of `items`, in order.
pub open spec fn with_each_dependency_entry(
    w: Sheet,
    c: DebianCollector,
    package: Seq<char>,
    kind: Seq<char>,
    property: Seq<char>,
    codename: Seq<char>,
    arch: Seq<char>,
    items: Seq<Seq<char>>,
    n: nat,
) -> Sheet
    decreases n,
{
    if n == 0 {
        w
    } else {
        with_dependency_entry(
            with_each_dependency_entry(
                w,
                c,
                package,
                kind,
                property,
                codename,
                arch,
                items,
                (n - 1) as nat,
            ),
            c,
            package,
            kind,
            property,
            codename,
            arch,
            items[n - 1],
        )
    }
}

impl DebianCollector {
    fn emit_dependency_entry(
        &self,
        writer: &mut NTriplesWriter,
        package: &str,
        kind: &str,
        property: &str,
        codename: &str,
        arch: &str,
        entry: &str,
    ) -> (r: usize)
        ensures
            final(writer)@ == with_dependency_entry(
                old(writer)@,
                *self,
                package@,
                kind@,
                property@,
                codename@,
                arch@,
                entry@,
            ),
            r == final(writer)@.log.len() - old(writer)@.log.len(),
    {
        let first: String = trimmed(&head(entry, "|"));
        match captures(DEPENDENCY, &first) {
            Some(g) => {
                let name: String = group_or_empty(&g, 1);
                let limit: Option<VersionLimit> = match group_at(&g, 2) {
                    Some(text) => parse_version_constraint(&text),
                    None => None,
                };
                match limit {
                    Some(l) => self.emit_dependency(
                        writer,
                        package,
                        &name,
                        &l,
                        true,
                        kind,
                        property,
                        codename,
                        arch,
                    ),
                    None => {
                        let none: VersionLimit = VersionLimit {
                            operator: String::new(),
                            value: String::new(),
                        };
                        assert(none@ =~= no_limit());
                        self.emit_dependency(
                            writer,
                            package,
                            &name,
                            &none,
                            false,
                            kind,
                            property,
                            codename,
                            arch,
                        )
                    },
                }
            },
            None => 0,
        }
    }
}

/// The dependencies in a field. Of alternatives the first one counts.
pub open spec fn with_dependency_field(
    w: Sheet,
    c: DebianCollector,
    package: Seq<char>,
    deps: Seq<char>,
    kind: Seq<char>,
    property: Seq<char>,
    codename: Seq<char>,
    arch: Seq<char>,
) -> Sheet {
    let entries = pieces(deps, Sep::Is(','));
    with_each_dependency_entry(
        w,
        c,
        package,
        kind,
        property,
        codename,
        arch,
        entries,
        entries.len(),
    )
}

impl DebianCollector {
    /// The dependencies in a field. Of alternatives the first one counts.
    pub fn parse_and_emit_dependencies(
        &self,
        writer: &mut NTriplesWriter,
        package: &str,
        deps: &str,
        kind: &str,
        property: &str,
        codename: &str,
        arch: &str,
    ) -> (r: usize)
        ensures
            final(writer)@ == with_dependency_field(
                old(writer)@,
                *self,
                package@,
                deps@,
                kind@,
                property@,
                codename@,
                arch@,
            ),
            r == final(writer)@.log.len() - old(writer)@.log.len(),
    {
        let start: usize = writer.len();
        let entries: Vec<String> = split(deps, &Sep::Is(','));
        let ghost before_dependency_entry = writer@;
        let mut i: usize = 0;
        while i < entries.len()
            invariant
                i <= entries.len(),
                before_dependency_entry.log.len() <= writer@.log.len(),
                writer@ == with_each_dependency_entry(
                    before_dependency_entry,
                    *self,
                    package@,
                    kind@,
                    property@,
                    codename@,
                    arch@,
                    views(entries@),
                    i as nat,
                ),
            decreases entries.len() - i,
        {
            self.emit_dependency_entry(
                writer,
                package,
                kind,
                property,
                codename,
                arch,
                &entries[i],
            );
            i = i + 1;
        }
        writer.len() - start
    }
}

/// A name that a package provides, as an identity and as a capability.
pub open spec fn with_provided(
    w: Sheet,
    c: DebianCollector,
    package: Seq<char>,
    codename: Seq<char>,
    arch: Seq<char>,
    part: Seq<char>,
) -> Sheet {
    let provided = trim(part);
    let w = if provided.len() > 0 {
        let name = first_word_or_all(provided);
        let target = identity_iri(c.distro_name@, codename, arch, name);
        let w = link(w, target, RDF_TYPE@, pkg("PackageIdentity"@));
        let w = literal(w, target, pkg("packageName"@), name);
        let w = link(w, package, pkg("directlyProvides"@), target);
        let w = link(w, package, DEB@ + "debProvides"@, target);
        let cap = DATA@ + "capability/"@ + enc(name);
        let w = link(w, cap, RDF_TYPE@, pkg("Capability"@));
        let w = literal(w, cap, pkg("capabilityName"@), name);
        link(w, package, pkg("providesCapability"@), cap)
    } else {
        w
    };
    w
}

/// The first `n` of `items`, in order.
pub open spec fn with_each_provided(
    w: Sheet,
    c: DebianCollector,
    package: Seq<char>,
    codename: Seq<char>,
    arch: Seq<char>,
    items: Seq<Seq<char>>,
    n: nat,
) -> Sheet
    decreases n,
{
    if n == 0 {
        w
    } else {
        with_provided(
            with_each_provided(w, c, package, codename, arch, items, (n - 1) as nat),
            c,
            package,
            codename,
            arch,
            items[n - 1],
        )
    }
}

impl DebianCollector {
    /// A name that a package provides, as an identity and as a capability.
    pub fn emit_provided(
        &self,
        writer: &mut NTriplesWriter,
        package: &str,
        codename: &str,
        arch: &str,
        part: &str,
    ) -> (r: usize)
        ensures
            final(writer)@ == with_provided(old(writer)@, *self, package@, codename@, arch@, part@),
            r == final(writer)@.log.len() - old(writer)@.log.len(),
    {
        let start: usize = writer.len();
        let provided: String = trimmed(part);
        if !empty(&provided) {
            let name: String = leading_word_or_all(&provided);
            let target: String = package_identity_uri(&self.distro_name, codename, arch, &name);
            writer.write_triple(&target, RDF_TYPE, &cat2(PKG, "PackageIdentity"));
            writer.write_literal(&target, &cat2(PKG, "packageName"), &name);
            writer.write_triple(package, &cat2(PKG, "directlyProvides"), &target);
            writer.write_triple(package, &cat2(DEB, "debProvides"), &target);
            let cap: String = cat3(DATA, "capability/", &encode(&name));
            writer.write_triple(&cap, RDF_TYPE, &cat2(PKG, "Capability"));
            writer.write_literal(&cap, &cat2(PKG, "capabilityName"), &name);
            writer.write_triple(package, &cat2(PKG, "providesCapability"), &cap);
        }
        writer.len() - start
    }
}

/// The other packages that a package names.
pub open spec fn with_dependency_triples(
    w: Sheet,
    c: DebianCollector,
    package: Seq<char>,
    fields: Map<Seq<char>,
    Seq<char>>,
    codename: Seq<char>,
    arch: Seq<char>,
) -> Sheet {
    let w = match field(fields, "Depends"@) {
        Some(x) => {
            with_dependency_field(
                w,
                c,
                package,
                x,
                "runtime"@,
                DEB@ + "debDepends"@,
                codename,
                arch,
            )
        },
        None => w,
    };
    let w = match field(fields, "Pre-Depends"@) {
        Some(x) => {
            with_dependency_field(
                w,
                c,
                package,
                x,
                "runtime"@,
                DEB@ + "debDepends"@,
                codename,
                arch,
            )
        },
        None => w,
    };
    let w = match field(fields, "Recommends"@) {
        Some(x) => {
            with_dependency_field(
                w,
                c,
                package,
                x,
                "recommends"@,
                DEB@ + "debRecommends"@,
                codename,
                arch,
            )
        },
        None => w,
    };
    let w = match field(fields, "Suggests"@) {
        Some(x) => {
            with_dependency_field(
                w,
                c,
                package,
                x,
                "suggests"@,
                DEB@ + "debSuggests"@,
                codename,
                arch,
            )
        },
        None => w,
    };
    let w = match field(fields, "Conflicts"@) {
        Some(x) => {
            with_dependency_field(
                w,
                c,
                package,
                x,
                "conflicts"@,
                DEB@ + "debConflicts"@,
                codename,
                arch,
            )
        },
        None => w,
    };
    let w = match field(fields, "Breaks"@) {
        Some(x) => {
            with_dependency_field(
                w,
                c,
                package,
                x,
                "breaks"@,
                DEB@ + "debConflicts"@,
                codename,
                arch,
            )
        },
        None => w,
    };
    let w = match field(fields, "Provides"@) {
        Some(x) => {
            let parts = pieces(x, Sep::Is(','));
            with_each_provided(w, c, package, codename, arch, parts, parts.len())
        },
        None => w,
    };
    w
}

impl DebianCollector {
    /// The other packages that a package names.
    pub fn emit_dependency_triples(
        &self,
        writer: &mut NTriplesWriter,
        package: &str,
        fields: &Fields,
        codename: &str,
        arch: &str,
    ) -> (r: usize)
        ensures
            final(writer)@ == with_dependency_triples(
                old(writer)@,
                *self,
                package@,
                fields@,
                codename@,
                arch@,
            ),
            r == final(writer)@.log.len() - old(writer)@.log.len(),
    {
        let start: usize = writer.len();
        if let Some(x) = fields.get("Depends") {
            self.parse_and_emit_dependencies(
                writer,
                package,
                x,
                "runtime",
                &cat2(DEB, "debDepends"),
                codename,
                arch,
            );
        }
        if let Some(x) = fields.get("Pre-Depends") {
            self.parse_and_emit_dependencies(
                writer,
                package,
                x,
                "runtime",
                &cat2(DEB, "debDepends"),
                codename,
                arch,
            );
        }
        if let Some(x) = fields.get("Recommends") {
            self.parse_and_emit_dependencies(
                writer,
                package,
                x,
                "recommends",
                &cat2(DEB, "debRecommends"),
                codename,
                arch,
            );
        }
        if let Some(x) = fields.get("Suggests") {
            self.parse_and_emit_dependencies(
                writer,
                package,
                x,
                "suggests",
                &cat2(DEB, "debSuggests"),
                codename,
                arch,
            );
        }
        if let Some(x) = fields.get("Conflicts") {
            self.parse_and_emit_dependencies(
                writer,
                package,
                x,
                "conflicts",
                &cat2(DEB, "debConflicts"),
                codename,
                arch,
            );
        }
        if let Some(x) = fields.get("Breaks") {
            self.parse_and_emit_dependencies(
                writer,
                package,
                x,
                "breaks",
                &cat2(DEB, "debConflicts"),
                codename,
                arch,
            );
        }
        if let Some(x) = fields.get("Provides") {
            let parts: Vec<String> = split(x, &Sep::Is(','));
            let ghost before_provided = writer@;
            let mut i: usize = 0;
            while i < parts.len()
                invariant
                    i <= parts.len(),
                    before_provided.log.len() <= writer@.log.len(),
                    writer@ == with_each_provided(
                        before_provided,
                        *self,
                        package@,
                        codename@,
                        arch@,
                        views(parts@),
                        i as nat,
                    ),
                decreases parts.len() - i,
            {
                self.emit_provided(writer, package, codename, arch, &parts[i]);
                i = i + 1;
            }
        }
        writer.len() - start
    }
}

// ---------------------------------------------------------------------------
// Packages

// ---------------------------------------------------------------------------
// What is said of the packages that a package names

/// Of alternatives the first one counts: what stands before the first bar.
pub proof fn lemma_first_alternative(first: Seq<char>, others: Seq<char>)
    requires
        !first.contains('|'),
    ensures
        first_alternative(first + "|"@ + others) == trim(first),
        first_alternative(first) == trim(first),
{
    reveal_strlit("|");
    let entry = first + "|"@ + others;
    assert(entry.subrange(first.len() as int, first.len() as int + 1) =~= "|"@);
    assert forall|j: int| 0 <= j < first.len() implies !occurs_at(entry, "|"@, j) by {
        assert(entry[j] == first[j]);
        if occurs_at(entry, "|"@, j) {
            assert(entry.subrange(j, j + 1)[0] == '|');
        }
    }
    lemma_found(entry, "|"@, first.len());
    assert(entry.take(first.len() as int) =~= first);
    assert forall|j: int| !occurs_at(first, "|"@, j) by {
        if occurs_at(first, "|"@, j) {
            assert(first.subrange(j, j + 1)[0] == '|');
            assert(first[j] == '|');
        }
    }
    lemma_not_found(first, "|"@);
}

/// The packages that the first `n` entries of a dependency field name.
pub open spec fn names_in_entries(items: Seq<Seq<char>>, n: nat) -> Seq<Seq<char>>
    decreases n,
{
    if n == 0 {
        Seq::empty()
    } else {
        let names = names_in_entries(items, (n - 1) as nat);
        match regex_captures(DEPENDENCY@, first_alternative(items[n - 1])) {
            Some(g) => names.push(group_text(g, 1)),
            None => names,
        }
    }
}

/// The packages that a dependency field names.
pub open spec fn names_in_field(fields: Map<Seq<char>, Seq<char>>, key: Seq<char>) -> Seq<
    Seq<char>,
> {
    match field(fields, key) {
        Some(x) => names_in_entries(pieces(x, Sep::Is(',')), pieces(x, Sep::Is(',')).len()),
        None => Seq::empty(),
    }
}

/// The names that a package provides.
pub open spec fn names_provided(items: Seq<Seq<char>>, n: nat) -> Seq<Seq<char>>
    decreases n,
{
    if n == 0 {
        Seq::empty()
    } else {
        let names = names_provided(items, (n - 1) as nat);
        if trim(items[n - 1]).len() > 0 {
            names.push(first_word_or_all(trim(items[n - 1])))
        } else {
            names
        }
    }
}

/// The identities of packages of a release.
pub open spec fn identities(
    c: DebianCollector,
    codename: Seq<char>,
    arch: Seq<char>,
    names: Seq<Seq<char>>,
) -> Seq<Seq<char>> {
    names.map_values(|name: Seq<char>| identity_iri(c.distro_name@, codename, arch, name))
}

spec fn is_conflict(kind: Seq<char>) -> bool {
    kind == "conflicts"@ || kind == "breaks"@
}

/// Whether `p` is one of the properties by which packages name packages.
spec fn names_packages(p: Seq<char>) -> bool {
    ||| p == pkg("directlyDependsOn"@)
    ||| p == pkg("directlyConflictsWith"@)
    ||| p == pkg("directlyProvides"@)
    ||| exists|x: Seq<char>| p == #[trigger] (DEB@ + x)
}

/// Whether a dependency is told by `p`.
spec fn is_told_by(kind: Seq<char>, local: Seq<char>, p: Seq<char>) -> bool {
    ||| p == pkg("directlyDependsOn"@) && !is_conflict(kind)
    ||| p == pkg("directlyConflictsWith"@) && is_conflict(kind)
    ||| p == DEB@ + local
}

proof fn lemma_dependency_said(
    w: Sheet,
    c: DebianCollector,
    package: Seq<char>,
    name: Seq<char>,
    limit: Limit,
    limited: bool,
    kind: Seq<char>,
    local: Seq<char>,
    codename: Seq<char>,
    arch: Seq<char>,
    p: Seq<char>,
)
    requires
        names_packages(p),
    ensures
        said(
            with_dependency(
                w,
                c,
                package,
                name,
                limit,
                limited,
                kind,
                DEB@ + local,
                codename,
                arch,
            ).log,
            p,
        ) == said(w.log, p) + if is_told_by(kind, local, p) {
            seq![to_iri(package, identity_iri(c.distro_name@, codename, arch, name))]
        } else {
            Seq::empty()
        },
{
    broadcast use {group_reading, group_deb};

    reveal(with_dependency);
    reveal_strlit("directlyDependsOn");
    reveal_strlit("directlyConflictsWith");
    reveal_strlit("directlyProvides");
    reveal_strlit("packageName");
    reveal_strlit("dependencyTarget");
    reveal_strlit("dependencyType");
    reveal_strlit("hasDependency");
    reveal_strlit("versionConstraintOperator");
    reveal_strlit("versionConstraintValue");
    reveal_strlit("hasVersionConstraint");
}

proof fn lemma_entries_said(
    w: Sheet,
    c: DebianCollector,
    package: Seq<char>,
    kind: Seq<char>,
    local: Seq<char>,
    codename: Seq<char>,
    arch: Seq<char>,
    items: Seq<Seq<char>>,
    n: nat,
    p: Seq<char>,
)
    requires
        names_packages(p),
    ensures
        said(
            with_each_dependency_entry(
                w,
                c,
                package,
                kind,
                DEB@ + local,
                codename,
                arch,
                items,
                n,
            ).log,
            p,
        ) == said(w.log, p) + if is_told_by(kind, local, p) {
            to_each(package, identities(c, codename, arch, names_in_entries(items, n)))
        } else {
            Seq::empty()
        },
    decreases n,
{
    if n > 0 {
        let m: nat = (n - 1) as nat;
        lemma_entries_said(w, c, package, kind, local, codename, arch, items, m, p);
        let v = with_each_dependency_entry(
            w,
            c,
            package,
            kind,
            DEB@ + local,
            codename,
            arch,
            items,
            m,
        );
        if let Some(g) = regex_captures(DEPENDENCY@, first_alternative(items[n - 1])) {
            let limit = match group_limit(g) {
                Some(l) => l,
                None => no_limit(),
            };
            let limited = group_limit(g) is Some;
            let name = group_text(g, 1);
            lemma_dependency_said(
                v,
                c,
                package,
                name,
                limit,
                limited,
                kind,
                local,
                codename,
                arch,
                p,
            );
            assert(to_each(package, identities(c, codename, arch, names_in_entries(items, n)))
                =~= to_each(package, identities(c, codename, arch, names_in_entries(items, m)))
                + seq![to_iri(package, identity_iri(c.distro_name@, codename, arch, name))]);
        }
    } else {
        assert(to_each(package, identities(c, codename, arch, names_in_entries(items, 0)))
            =~= Seq::empty());
    }
}

proof fn lemma_field_said(
    w: Sheet,
    c: DebianCollector,
    package: Seq<char>,
    fields: Map<Seq<char>, Seq<char>>,
    key: Seq<char>,
    kind: Seq<char>,
    local: Seq<char>,
    codename: Seq<char>,
    arch: Seq<char>,
    p: Seq<char>,
)
    requires
        names_packages(p),
    ensures
        said(
            match field(fields, key) {
                Some(x) => with_dependency_field(
                    w,
                    c,
                    package,
                    x,
                    kind,
                    DEB@ + local,
                    codename,
                    arch,
                ),
                None => w,
            }.log,
            p,
        ) == said(w.log, p) + if is_told_by(kind, local, p) {
            to_each(package, identities(c, codename, arch, names_in_field(fields, key)))
        } else {
            Seq::empty()
        },
{
    if let Some(x) = field(fields, key) {
        let items = pieces(x, Sep::Is(','));
        lemma_entries_said(
            w,
            c,
            package,
            kind,
            local,
            codename,
            arch,
            items,
            items.len(),
            p,
        );
    } else {
        assert(to_each(package, identities(c, codename, arch, names_in_field(fields, key)))
            =~= Seq::empty());
    }
}

proof fn lemma_provided_said(
    w: Sheet,
    c: DebianCollector,
    package: Seq<char>,
    codename: Seq<char>,
    arch: Seq<char>,
    items: Seq<Seq<char>>,
    n: nat,
    p: Seq<char>,
)
    requires
        names_packages(p),
    ensures
        said(with_each_provided(w, c, package, codename, arch, items, n).log, p) == said(w.log, p)
            + if p == pkg("directlyProvides"@) || p == DEB@ + "debProvides"@ {
            to_each(package, identities(c, codename, arch, names_provided(items, n)))
        } else {
            Seq::empty()
        },
    decreases n,
{
    broadcast use {group_reading, group_deb};

    if n > 0 {
        let m: nat = (n - 1) as nat;
        lemma_provided_said(w, c, package, codename, arch, items, m, p);
        reveal_strlit("directlyDependsOn");
        reveal_strlit("directlyConflictsWith");
        reveal_strlit("directlyProvides");
        reveal_strlit("packageName");
        reveal_strlit("capabilityName");
        reveal_strlit("providesCapability");
        if trim(items[n - 1]).len() > 0 {
            let name = first_word_or_all(trim(items[n - 1]));
            assert(to_each(package, identities(c, codename, arch, names_provided(items, n)))
                =~= to_each(package, identities(c, codename, arch, names_provided(items, m)))
                + seq![to_iri(package, identity_iri(c.distro_name@, codename, arch, name))]);
        }
    } else {
        assert(to_each(package, identities(c, codename, arch, names_provided(items, 0)))
            =~= Seq::empty());
    }
}

proof fn lemma_conflict_kinds()
    ensures
        !is_conflict("runtime"@),
        !is_conflict("recommends"@),
        !is_conflict("suggests"@),
        is_conflict("conflicts"@),
        is_conflict("breaks"@),
{
    reveal_strlit("runtime");
    reveal_strlit("recommends");
    reveal_strlit("suggests");
    reveal_strlit("conflicts");
    reveal_strlit("breaks");
    assert("runtime"@.len() == 7);
    assert("recommends"@.len() == 10);
    assert("suggests"@.len() == 8);
    assert("conflicts"@.len() == 9);
    assert("breaks"@.len() == 6);
}

proof fn lemma_all_fields_said(
    w: Sheet,
    c: DebianCollector,
    package: Seq<char>,
    fields: Map<Seq<char>, Seq<char>>,
    codename: Seq<char>,
    arch: Seq<char>,
    p: Seq<char>,
)
    requires
        names_packages(p),
    ensures
        ({
            let of = |key: Seq<char>|
                to_each(package, identities(c, codename, arch, names_in_field(fields, key)));
            let provided = match field(fields, "Provides"@) {
                Some(x) => to_each(
                    package,
                    identities(
                        c,
                        codename,
                        arch,
                        names_provided(pieces(x, Sep::Is(',')), pieces(x, Sep::Is(',')).len()),
                    ),
                ),
                None => Seq::empty(),
            };
            said(with_dependency_triples(w, c, package, fields, codename, arch).log, p) == said(
                w.log,
                p,
            ) + where_so(is_told_by("runtime"@, "debDepends"@, p), of("Depends"@)) + where_so(
                is_told_by("runtime"@, "debDepends"@, p),
                of("Pre-Depends"@),
            ) + where_so(
                is_told_by("recommends"@, "debRecommends"@, p),
                of("Recommends"@),
            ) + where_so(is_told_by("suggests"@, "debSuggests"@, p), of("Suggests"@)) + where_so(
                is_told_by("conflicts"@, "debConflicts"@, p),
                of("Conflicts"@),
            ) + where_so(is_told_by("breaks"@, "debConflicts"@, p), of("Breaks"@)) + where_so(
                p == pkg("directlyProvides"@) || p == DEB@ + "debProvides"@,
                provided,
            )
        }),
{
    let w1 = match field(fields, "Depends"@) {
        Some(x) => with_dependency_field(w, c, package, x, "runtime"@, DEB@ + "debDepends"@, codename, arch),
        None => w,
    };
    let w2 = match field(fields, "Pre-Depends"@) {
        Some(x) => with_dependency_field(w1, c, package, x, "runtime"@, DEB@ + "debDepends"@, codename, arch),
        None => w1,
    };
    let w3 = match field(fields, "Recommends"@) {
        Some(x) => with_dependency_field(w2, c, package, x, "recommends"@, DEB@ + "debRecommends"@, codename, arch),
        None => w2,
    };
    let w4 = match field(fields, "Suggests"@) {
        Some(x) => with_dependency_field(w3, c, package, x, "suggests"@, DEB@ + "debSuggests"@, codename, arch),
        None => w3,
    };
    let w5 = match field(fields, "Conflicts"@) {
        Some(x) => with_dependency_field(w4, c, package, x, "conflicts"@, DEB@ + "debConflicts"@, codename, arch),
        None => w4,
    };
    let w6 = match field(fields, "Breaks"@) {
        Some(x) => with_dependency_field(w5, c, package, x, "breaks"@, DEB@ + "debConflicts"@, codename, arch),
        None => w5,
    };
    lemma_field_said(w, c, package, fields, "Depends"@, "runtime"@, "debDepends"@, codename, arch, p);
    lemma_field_said(w1, c, package, fields, "Pre-Depends"@, "runtime"@, "debDepends"@, codename, arch, p);
    lemma_field_said(w2, c, package, fields, "Recommends"@, "recommends"@, "debRecommends"@, codename, arch, p);
    lemma_field_said(w3, c, package, fields, "Suggests"@, "suggests"@, "debSuggests"@, codename, arch, p);
    lemma_field_said(w4, c, package, fields, "Conflicts"@, "conflicts"@, "debConflicts"@, codename, arch, p);
    lemma_field_said(w5, c, package, fields, "Breaks"@, "breaks"@, "debConflicts"@, codename, arch, p);
    if let Some(x) = field(fields, "Provides"@) {
        let parts = pieces(x, Sep::Is(','));
        lemma_provided_said(w6, c, package, codename, arch, parts, parts.len(), p);
    }
}

/// What a record says of other packages. The package depends on the packages that
/// `Depends`, `Pre-Depends`, `Recommends` and `Suggests` name, and on no other; it
/// conflicts with those that `Conflicts` and `Breaks` name, and with no other; and it
/// provides those of `Provides`. Each kind is told by its own property too.
pub proof fn lemma_named_packages_told(
    w: Sheet,
    c: DebianCollector,
    package: Seq<char>,
    fields: Map<Seq<char>, Seq<char>>,
    codename: Seq<char>,
    arch: Seq<char>,
)
    ensures
        ({
            let before = w.log;
            let after = with_dependency_triples(w, c, package, fields, codename, arch).log;
            let of = |key: Seq<char>|
                to_each(package, identities(c, codename, arch, names_in_field(fields, key)));
            let provided = match field(fields, "Provides"@) {
                Some(x) => to_each(
                    package,
                    identities(
                        c,
                        codename,
                        arch,
                        names_provided(pieces(x, Sep::Is(',')), pieces(x, Sep::Is(',')).len()),
                    ),
                ),
                None => Seq::empty(),
            };
            &&& said(after, pkg("directlyDependsOn"@)) == said(before, pkg("directlyDependsOn"@))
                + of("Depends"@) + of("Pre-Depends"@) + of("Recommends"@) + of("Suggests"@)
            &&& said(after, pkg("directlyConflictsWith"@)) == said(
                before,
                pkg("directlyConflictsWith"@),
            ) + of("Conflicts"@) + of("Breaks"@)
            &&& said(after, pkg("directlyProvides"@)) == said(before, pkg("directlyProvides"@))
                + provided
            &&& said(after, DEB@ + "debDepends"@) == said(before, DEB@ + "debDepends"@) + of(
                "Depends"@,
            ) + of("Pre-Depends"@)
            &&& said(after, DEB@ + "debRecommends"@) == said(before, DEB@ + "debRecommends"@) + of(
                "Recommends"@,
            )
            &&& said(after, DEB@ + "debSuggests"@) == said(before, DEB@ + "debSuggests"@) + of(
                "Suggests"@,
            )
            &&& said(after, DEB@ + "debConflicts"@) == said(before, DEB@ + "debConflicts"@) + of(
                "Conflicts"@,
            ) + of("Breaks"@)
            &&& said(after, DEB@ + "debProvides"@) == said(before, DEB@ + "debProvides"@)
                + provided
        }),
{
    broadcast use {group_reading, group_deb};

    reveal_strlit("directlyDependsOn");
    reveal_strlit("directlyConflictsWith");
    reveal_strlit("directlyProvides");
    reveal_strlit("debDepends");
    reveal_strlit("debRecommends");
    reveal_strlit("debSuggests");
    reveal_strlit("debConflicts");
    reveal_strlit("debProvides");
    lemma_conflict_kinds();
    lemma_all_fields_said(w, c, package, fields, codename, arch, pkg("directlyDependsOn"@));
    lemma_all_fields_said(w, c, package, fields, codename, arch, pkg("directlyConflictsWith"@));
    lemma_all_fields_said(w, c, package, fields, codename, arch, pkg("directlyProvides"@));
    lemma_all_fields_said(w, c, package, fields, codename, arch, DEB@ + "debDepends"@);
    lemma_all_fields_said(w, c, package, fields, codename, arch, DEB@ + "debRecommends"@);
    lemma_all_fields_said(w, c, package, fields, codename, arch, DEB@ + "debSuggests"@);
    lemma_all_fields_said(w, c, package, fields, codename, arch, DEB@ + "debConflicts"@);
    lemma_all_fields_said(w, c, package, fields, codename, arch, DEB@ + "debProvides"@);
}

/// Who maintains a package.
pub open spec fn with_person(
    w: Sheet,
    package: Seq<char>,
    name: Seq<char>,
    email: Seq<char>,
) -> Sheet {
    let person = maintainer_iri(email);
    let w = link(w, person, RDF_TYPE@, pkg("Person"@));
    let w = literal(w, person, FOAF@ + "name"@, name);
    let w = literal(w, person, RDFS_LABEL@, name);
    let w = link(w, person, FOAF@ + "mbox"@, "mailto:"@ + email);
    link(w, package, pkg("maintainedBy"@), person)
}

/// Who maintains a package.
pub fn emit_person(
    writer: &mut NTriplesWriter,
    package: &str,
    name: &str,
    email: &str,
) -> (r: usize)
    ensures
        final(writer)@ == with_person(old(writer)@, package@, name@, email@),
        r == final(writer)@.log.len() - old(writer)@.log.len(),
{
    let start: usize = writer.len();
    let person: String = maintainer_uri(email);
    writer.write_triple(&person, RDF_TYPE, &cat2(PKG, "Person"));
    writer.write_literal(&person, &cat2(FOAF, "name"), name);
    writer.write_literal(&person, RDFS_LABEL, name);
    writer.write_triple(&person, &cat2(FOAF, "mbox"), &cat2("mailto:", email));
    writer.write_triple(package, &cat2(PKG, "maintainedBy"), &person);
    writer.len() - start
}

/// Who maintains a package, where the field has a name and an address.
pub open spec fn with_maintainer_triples(w: Sheet, package: Seq<char>, text: Seq<char>) -> Sheet {
    let w = match contact_of(regex_captures(MAINTAINER@, text)) {
        Some(who) => {
            with_person(w, package, who.name, who.email)
        },
        None => w,
    };
    w
}

/// Who maintains a package, where the field has a name and an address.
pub fn emit_maintainer_triples(writer: &mut NTriplesWriter, package: &str, text: &str) -> (r: usize)
    ensures
        final(writer)@ == with_maintainer_triples(old(writer)@, package@, text@),
        r == final(writer)@.log.len() - old(writer)@.log.len(),
{
    let start: usize = writer.len();
    if let Some(who) = split_contact(&captures(MAINTAINER, text)) {
        emit_person(writer, package, &who.name, &who.email);
    }
    writer.len() - start
}

/// A source with its version.
pub struct SourceName {
    pub name: String,
    pub version: String,
}

/// What a [`SourceName`] says.
#[verifier::ext_equal]
pub struct SourceText {
    pub name: Seq<char>,
    pub version: Seq<char>,
}

impl View for SourceName {
    type V = SourceText;

    open spec fn view(&self) -> SourceText {
        SourceText {
            name: self.name@,
            version: self.version@,
        }
    }
}

/// The source in the groups of [`SOURCE`]: the version is that of the package
/// where the field has none. A field that does not match is a name.
pub open spec fn source_in(
    groups: Option<Seq<Option<Seq<char>>>>,
    text: Seq<char>,
    version: Seq<char>,
) -> SourceText {
    match groups {
        Some(g) => SourceText {
            name: group_text(g, 1),
            version: match group(g, 2) {
                Some(v) => v,
                None => version,
            },
        },
        None => SourceText { name: text, version },
    }
}

/// Takes a source apart, given the groups of its pattern.
pub fn split_source(groups: &Option<Vec<Option<String>>>, text: &str, version: &str) -> (r:
    SourceName)
    ensures
        r@ == source_in(maybe_groups(*groups), text@, version@),
{
    match groups {
        Some(g) => SourceName {
            name: group_or_empty(g, 1),
            version: match group_at(g, 2) {
                Some(v) => v,
                None => version.to_owned(),
            },
        },
        None => SourceName { name: text.to_owned(), version: version.to_owned() },
    }
}

/// The source of a package: what its `Source` field says, its own name and
/// version where it has none.
pub open spec fn source_of(
    fields: Map<Seq<char>, Seq<char>>,
    name: Seq<char>,
    version: Seq<char>,
) -> SourceText {
    match field(fields, "Source"@) {
        Some(text) => source_in(regex_captures(SOURCE@, text), text, version),
        None => SourceText { name, version },
    }
}

fn find_source(fields: &Fields, name: &str, version: &str) -> (r: SourceName)
    ensures
        r@ == source_of(fields@, name@, version@),
{
    match fields.get("Source") {
        Some(text) => split_source(&captures(SOURCE, text), text, version),
        None => SourceName { name: name.to_owned(), version: version.to_owned() },
    }
}

/// The source that a package was built from.
pub open spec fn with_source_package_triples(
    w: Sheet,
    c: DebianCollector,
    package: Seq<char>,
    source: SourceText,
    codename: Seq<char>,
) -> Sheet {
    let src = source_iri(c.distro_name@, codename, source.name, source.version);
    let w = link(w, src, RDF_TYPE@, pkg("SourcePackage"@));
    let w = literal(w, src, pkg("packageName"@), source.name);
    let ver = version_iri(c.distro_name@, codename, source.name, source.version);
    let w = link(w, ver, RDF_TYPE@, pkg("Version"@));
    let w = literal(w, ver, pkg("versionString"@), source.version);
    let w = link(w, src, pkg("hasVersion"@), ver);
    link(w, package, pkg("builtFromSource"@), src)
}

impl DebianCollector {
    /// The source that a package was built from.
    pub fn emit_source_package_triples(
        &self,
        writer: &mut NTriplesWriter,
        package: &str,
        source: &SourceName,
        codename: &str,
    ) -> (r: usize)
        ensures
            final(writer)@ == with_source_package_triples(
                old(writer)@,
                *self,
                package@,
                source@,
                codename@,
            ),
            r == final(writer)@.log.len() - old(writer)@.log.len(),
    {
        let start: usize = writer.len();
        let src: String = source_uri(&self.distro_name, codename, &source.name, &source.version);
        writer.write_triple(&src, RDF_TYPE, &cat2(PKG, "SourcePackage"));
        writer.write_literal(&src, &cat2(PKG, "packageName"), &source.name);
        let ver: String = version_uri(&self.distro_name, codename, &source.name, &source.version);
        writer.write_triple(&ver, RDF_TYPE, &cat2(PKG, "Version"));
        writer.write_literal(&ver, &cat2(PKG, "versionString"), &source.version);
        writer.write_triple(&src, &cat2(PKG, "hasVersion"), &ver);
        writer.write_triple(package, &cat2(PKG, "builtFromSource"), &src);
        writer.len() - start
    }
}

/// A detected ecosystem, and a note on how sure the detection is.
pub open spec fn with_detection(
    w: Sheet,
    identity: Seq<char>,
    package_name: Seq<char>,
    ecosystem: Seq<char>,
    upstream: Option<Seq<char>>,
    method: Seq<char>,
) -> Sheet {
    let node = ecosystem_iri(ecosystem);
    let w = link(w, identity, pkg("upstreamEcosystem"@), node);
    let w = link(w, node, RDF_TYPE@, pkg("Ecosystem"@));
    let w = literal(w, node, RDFS_LABEL@, ecosystem);
    let w = match upstream {
        Some(name) => {
            literal(w, identity, pkg("upstreamPackageName"@), name)
        },
        None => w,
    };
    let w = if method == "homepage-domain"@ {
        with_dq_issue(w, "debian"@, "ecosystem"@, package_name, "ecosystem-detected-high"@, "info"@)
    } else {
        with_dq_issue(
            w,
            "debian"@,
            "ecosystem"@,
            package_name,
            "ecosystem-detected-medium"@,
            "info"@,
        )
    };
    w
}

/// A detected ecosystem, and a note on how sure the detection is.
pub fn emit_detection(
    writer: &mut NTriplesWriter,
    identity: &str,
    package_name: &str,
    ecosystem: &str,
    upstream: &Option<String>,
    method: &str,
) -> (r: usize)
    ensures
        final(writer)@ == with_detection(
            old(writer)@,
            identity@,
            package_name@,
            ecosystem@,
            opt(*upstream),
            method@,
        ),
        r == final(writer)@.log.len() - old(writer)@.log.len(),
{
    let start: usize = writer.len();
    let node: String = ecosystem_uri(ecosystem);
    writer.write_triple(identity, &cat2(PKG, "upstreamEcosystem"), &node);
    writer.write_triple(&node, RDF_TYPE, &cat2(PKG, "Ecosystem"));
    writer.write_literal(&node, RDFS_LABEL, ecosystem);
    if let Some(name) = &(*upstream) {
        writer.write_literal(identity, &cat2(PKG, "upstreamPackageName"), name);
    }
    if same(method, "homepage-domain") {
        emit_dq_issue(
            writer,
            "debian",
            "ecosystem",
            package_name,
            "ecosystem-detected-high",
            "info",
        );
    } else {
        emit_dq_issue(
            writer,
            "debian",
            "ecosystem",
            package_name,
            "ecosystem-detected-medium",
            "info",
        );
    }
    writer.len() - start
}

/// The ecosystem that a package comes from, where one is detected.
pub open spec fn with_ecosystem_enrichment(
    w: Sheet,
    package_name: Seq<char>,
    identity: Seq<char>,
    homepage: Option<Seq<char>>,
) -> Sheet {
    match by_name(package_name, homepage) {
        Some(d) => with_detection(
            w,
            identity,
            package_name,
            d.ecosystem,
            d.package_name,
            d.method,
        ),
        None => w,
    }
}

pub fn emit_ecosystem_enrichment(
    writer: &mut NTriplesWriter,
    package_name: &str,
    identity: &str,
    homepage: &Option<String>,
) -> (r: usize)
    ensures
        final(writer)@ == with_ecosystem_enrichment(
            old(writer)@,
            package_name@,
            identity@,
            opt(*homepage),
        ),
        r == final(writer)@.log.len() - old(writer)@.log.len(),
{
    let page: Option<&str> = match homepage {
        Some(h) => Some(h.as_str()),
        None => None,
    };
    match detect_ecosystem_by_name(package_name, page) {
        Some(d) => emit_detection(
            writer,
            identity,
            package_name,
            d.ecosystem,
            &d.package_name,
            d.detection_method,
        ),
        None => 0,
    }
}

/// The repositories that a package names: that of its upstream, that of its
/// packaging and the page for browsing it; or a note on why there is none.
pub open spec fn with_forge_enrichment(
    w: Sheet,
    package_name: Seq<char>,
    identity: Seq<char>,
    fields: Map<Seq<char>,
    Seq<char>>,
) -> Sheet {
    let w = match field(fields, "Homepage"@) {
        Some(homepage) => {
            let w = match forge_url(homepage) {
                Some(url) => {
                    with_upstream_repo(w, identity, url)
                },
                None => {
                    with_dq_issue(
                        w,
                        "debian"@,
                        "homepage"@,
                        homepage,
                        "homepage-no-forge-match"@,
                        "info"@,
                    )
                },
            };
            w
        },
        None => {
            with_dq_issue(w, "debian"@, "homepage"@, package_name, "missing-homepage"@, "info"@)
        },
    };
    let w = match field(fields, "Vcs-Git"@) {
        Some(vcs) => {
            let address = first_word_or_all(vcs);
            let w = match forge_url(address) {
                Some(url) => {
                    let repo = repo_iri(url);
                    let w = link(w, identity, pkg("packagingRepository"@), repo);
                    let w = link(w, repo, RDF_TYPE@, VCS@ + "Repository"@);
                    with_forge(w, repo, url)
                },
                None => {
                    with_dq_issue(
                        w,
                        "debian"@,
                        "vcs-git"@,
                        address,
                        "vcs-git-no-forge-match"@,
                        "info"@,
                    )
                },
            };
            w
        },
        None => w,
    };
    let w = match field(fields, "Vcs-Browser"@) {
        Some(browser) => {
            let w = match forge_url(browser) {
                Some(url) => {
                    let repo = repo_iri(url);
                    literal(w, repo, VCS@ + "repositoryBrowser"@, browser)
                },
                None => w,
            };
            w
        },
        None => w,
    };
    w
}

/// The repositories that a package names: that of its upstream, that of its
/// packaging and the page for browsing it; or a note on why there is none.
pub fn emit_forge_enrichment(
    writer: &mut NTriplesWriter,
    package_name: &str,
    identity: &str,
    fields: &Fields,
) -> (r: usize)
    ensures
        final(writer)@ == with_forge_enrichment(old(writer)@, package_name@, identity@, fields@),
        r == final(writer)@.log.len() - old(writer)@.log.len(),
{
    let start: usize = writer.len();
    if let Some(homepage) = fields.get("Homepage") {
        if let Some(url) = extract_forge_url(homepage) {
            emit_upstream_repo(writer, identity, &url);
        } else {
            emit_dq_issue(
                writer,
                "debian",
                "homepage",
                homepage,
                "homepage-no-forge-match",
                "info",
            );
        }
    } else {
        emit_dq_issue(writer, "debian", "homepage", package_name, "missing-homepage", "info");
    }
    if let Some(vcs) = fields.get("Vcs-Git") {
        let address: String = leading_word_or_all(vcs);
        if let Some(url) = extract_forge_url(&address) {
            let repo: String = repo_uri(&url);
            writer.write_triple(identity, &cat2(PKG, "packagingRepository"), &repo);
            writer.write_triple(&repo, RDF_TYPE, &cat2(VCS, "Repository"));
            emit_forge_triples(writer, &repo, &url);
        } else {
            emit_dq_issue(writer, "debian", "vcs-git", &address, "vcs-git-no-forge-match", "info");
        }
    }
    if let Some(browser) = fields.get("Vcs-Browser") {
        if let Some(url) = extract_forge_url(browser) {
            let repo: String = repo_uri(&url);
            writer.write_literal(&repo, &cat2(VCS, "repositoryBrowser"), browser);
        }
    }
    writer.len() - start
}

/// The installed size of a package in bytes; the field gives it in kilobytes.
pub open spec fn install_size(fields: Map<Seq<char>, Seq<char>>) -> Option<int> {
    match field(fields, "Installed-Size"@) {
        Some(text) => match i64_value(text) {
            Some(kb) => Some(kb * 1024),
            None => None,
        },
        None => None,
    }
}

/// Whether the installed size of a package is within the range of sizes.
pub open spec fn size_fits(fields: Map<Seq<char>, Seq<char>>) -> bool {
    match install_size(fields) {
        Some(n) => i64::MIN <= n <= i64::MAX,
        None => true,
    }
}

pub fn has_fitting_size(fields: &Fields) -> (r: bool)
    ensures
        r == size_fits(fields@),
{
    match fields.get("Installed-Size") {
        Some(text) => match parse_i64(text) {
            Some(kb) => -9007199254740992 <= kb && kb <= 9007199254740991,
            None => true,
        },
        None => true,
    }
}

fn install_size_of(fields: &Fields) -> (r: Option<i64>)
    requires
        size_fits(fields@),
    ensures
        match r {
            Some(n) => install_size(fields@) == Some(n as int),
            None => install_size(fields@) is None,
        },
{
    match fields.get("Installed-Size") {
        Some(text) => match parse_i64(text) {
            Some(kb) => Some(kb * 1024),
            None => None,
        },
        None => None,
    }
}

/// What describes a package by itself.
pub open spec fn with_package_core(
    w: Sheet,
    c: DebianCollector,
    package: Seq<char>,
    identity: Seq<char>,
    fields: Map<Seq<char>,
    Seq<char>>,
    name: Seq<char>,
    version: Seq<char>,
    codename: Seq<char>,
    suite: Seq<char>,
    arch: Seq<char>,
    size: Option<i64>,
) -> Sheet {
    let w = link(w, package, RDF_TYPE@, pkg("BinaryPackage"@));
    let w = link(w, package, RDF_TYPE@, DEB@ + "BinaryPackage"@);
    let w = link(w, identity, RDF_TYPE@, pkg("PackageIdentity"@));
    let w = literal(w, identity, pkg("packageName"@), name);
    let w = link(w, package, pkg("isVersionOf"@), identity);
    let locator = purl("deb"@, c.distro_name@, name, version, arch);
    let w = typed(w, identity, pkg("purl"@), locator, xsd("anyURI"@));
    let w = literal(w, package, pkg("packageName"@), name);
    let ver = version_iri(c.distro_name@, codename, name, version);
    let w = link(w, ver, RDF_TYPE@, pkg("Version"@));
    let w = literal(w, ver, pkg("versionString"@), version);
    let w = link(w, package, pkg("hasVersion"@), ver);
    let w = link(w, package, pkg("targetArchitecture"@), arch_iri(arch));
    let w = link(w, package, pkg("partOfDistribution"@), distro_iri(c.distro_name@));
    let w = link(w, package, pkg("partOfRelease"@), release_iri(c.distro_name@, codename));
    let w = match field(fields, "Description"@) {
        Some(x) => {
            literal(w, package, pkg("description"@), x)
        },
        None => w,
    };
    let w = match field(fields, "Homepage"@) {
        Some(x) => {
            literal(w, package, pkg("homepage"@), x)
        },
        None => w,
    };
    let w = number_if(w, package, pkg("installSize"@), size);
    let w = match field(fields, "Size"@) {
        Some(x) => {
            number_if(w, package, pkg("packageSize"@), i64_value(x))
        },
        None => w,
    };
    let w = match field(fields, "SHA256"@) {
        Some(x) => {
            literal(w, package, pkg("checksum"@), x)
        },
        None => w,
    };
    let w = literal(w, package, DEB@ + "inSuite"@, suite);
    let w = literal(w, package, DEB@ + "inComponent"@, c.component@);
    let w = match field(fields, "Maintainer"@) {
        Some(x) => {
            with_maintainer_triples(w, package, x)
        },
        None => w,
    };
    w
}

impl DebianCollector {
    /// What describes a package by itself.
    pub fn emit_package_core(
        &self,
        writer: &mut NTriplesWriter,
        package: &str,
        identity: &str,
        fields: &Fields,
        name: &str,
        version: &str,
        codename: &str,
        suite: &str,
        arch: &str,
        size: Option<i64>,
    ) -> (r: usize)
        ensures
            final(writer)@ == with_package_core(
                old(writer)@,
                *self,
                package@,
                identity@,
                fields@,
                name@,
                version@,
                codename@,
                suite@,
                arch@,
                size,
            ),
            r == final(writer)@.log.len() - old(writer)@.log.len(),
            r >= 1,
    {
        let start: usize = writer.len();
        writer.write_triple(package, RDF_TYPE, &cat2(PKG, "BinaryPackage"));
        writer.write_triple(package, RDF_TYPE, &cat2(DEB, "BinaryPackage"));
        writer.write_triple(identity, RDF_TYPE, &cat2(PKG, "PackageIdentity"));
        writer.write_literal(identity, &cat2(PKG, "packageName"), name);
        writer.write_triple(package, &cat2(PKG, "isVersionOf"), identity);
        let locator: String = format_purl("deb", &self.distro_name, name, version, arch);
        writer.write_typed_literal(identity, &cat2(PKG, "purl"), &locator, &cat2(XSD, "anyURI"));
        writer.write_literal(package, &cat2(PKG, "packageName"), name);
        let ver: String = version_uri(&self.distro_name, codename, name, version);
        writer.write_triple(&ver, RDF_TYPE, &cat2(PKG, "Version"));
        writer.write_literal(&ver, &cat2(PKG, "versionString"), version);
        writer.write_triple(package, &cat2(PKG, "hasVersion"), &ver);
        writer.write_triple(package, &cat2(PKG, "targetArchitecture"), &arch_uri(arch));
        writer.write_triple(
            package,
            &cat2(PKG, "partOfDistribution"),
            &distro_uri(&self.distro_name),
        );
        writer.write_triple(
            package,
            &cat2(PKG, "partOfRelease"),
            &release_uri(&self.distro_name, codename),
        );
        if let Some(x) = fields.get("Description") {
            writer.write_literal(package, &cat2(PKG, "description"), x);
        }
        if let Some(x) = fields.get("Homepage") {
            writer.write_literal(package, &cat2(PKG, "homepage"), x);
        }
        writer.write_integer_if(package, &cat2(PKG, "installSize"), size);
        if let Some(x) = fields.get("Size") {
            writer.write_integer_if(package, &cat2(PKG, "packageSize"), parse_i64(x));
        }
        if let Some(x) = fields.get("SHA256") {
            writer.write_literal(package, &cat2(PKG, "checksum"), x);
        }
        writer.write_literal(package, &cat2(DEB, "inSuite"), suite);
        writer.write_literal(package, &cat2(DEB, "inComponent"), &self.component);
        if let Some(x) = fields.get("Maintainer") {
            emit_maintainer_triples(writer, package, x);
        }
        writer.len() - start
    }
}

/// Everything that the record of a package gives.
#[verifier::opaque]
pub open spec fn with_named_package(
    w: Sheet,
    c: DebianCollector,
    fields: Map<Seq<char>,
    Seq<char>>,
    name: Seq<char>,
    version: Seq<char>,
    source: SourceText,
    homepage: Option<Seq<char>>,
    codename: Seq<char>,
    suite: Seq<char>,
    arch: Seq<char>,
    size: Option<i64>,
) -> Sheet {
    let package = package_iri(c.distro_name@, codename, arch, name, version);
    let identity = identity_iri(c.distro_name@, codename, arch, name);
    let w = with_package_core(
        w,
        c,
        package,
        identity,
        fields,
        name,
        version,
        codename,
        suite,
        arch,
        size,
    );
    let w = with_source_package_triples(w, c, package, source, codename);
    let w = with_ecosystem_enrichment(w, name, identity, homepage);
    let w = with_forge_enrichment(w, name, identity, fields);
    with_dependency_triples(w, c, package, fields, codename, arch)
}

impl DebianCollector {
    /// Everything that the record of a package gives.
    pub fn emit_named_package(
        &self,
        writer: &mut NTriplesWriter,
        fields: &Fields,
        name: &str,
        version: &str,
        source: &SourceName,
        homepage: &Option<String>,
        codename: &str,
        suite: &str,
        arch: &str,
        size: Option<i64>,
    ) -> (r: usize)
        ensures
            final(writer)@ == with_named_package(
                old(writer)@,
                *self,
                fields@,
                name@,
                version@,
                source@,
                opt(*homepage),
                codename@,
                suite@,
                arch@,
                size,
            ),
            r == final(writer)@.log.len() - old(writer)@.log.len(),
            r >= 1,
    {
        proof {
            reveal(with_named_package);
        }
        let start: usize = writer.len();
        let package: String = package_uri(&self.distro_name, codename, arch, name, version);
        let identity: String = package_identity_uri(&self.distro_name, codename, arch, name);
        self.emit_package_core(
            writer,
            &package,
            &identity,
            fields,
            name,
            version,
            codename,
            suite,
            arch,
            size,
        );
        self.emit_source_package_triples(writer, &package, source, codename);
        emit_ecosystem_enrichment(writer, name, &identity, &(*homepage));
        emit_forge_enrichment(writer, name, &identity, fields);
        self.emit_dependency_triples(writer, &package, fields, codename, arch);
        writer.len() - start
    }
}

/// Where a record stands in a distribution.
pub struct IndexScope {
    pub codename: String,
    pub suite: String,
    pub arch: String,
}

/// What a [`IndexScope`] says.
#[verifier::ext_equal]
pub struct ScopeText {
    pub codename: Seq<char>,
    pub suite: Seq<char>,
    pub arch: Seq<char>,
}

impl View for IndexScope {
    type V = ScopeText;

    open spec fn view(&self) -> ScopeText {
        ScopeText {
            codename: self.codename@,
            suite: self.suite@,
            arch: self.arch@,
        }
    }
}

/// Everything that the record of a package gives.
pub open spec fn with_package_triples(
    w: Sheet,
    c: DebianCollector,
    fields: Map<Seq<char>, Seq<char>>,
    scope: ScopeText,
) -> Sheet {
    let name = fields["Package"@];
    let version = fields["Version"@];
    with_named_package(
        w,
        c,
        fields,
        name,
        version,
        source_of(fields, name, version),
        field(fields, "Homepage"@),
        scope.codename,
        scope.suite,
        scope.arch,
        match install_size(fields) {
            Some(n) => Some(n as i64),
            None => None,
        },
    )
}

fn homepage_of(fields: &Fields) -> (r: Option<String>)
    ensures
        opt(r) == field(fields@, "Homepage"@),
{
    match fields.get("Homepage") {
        Some(h) => Some(h.clone()),
        None => None,
    }
}

impl DebianCollector {
    /// Emits the package of a record.
    pub fn emit_package_triples(
        &self,
        writer: &mut NTriplesWriter,
        fields: &Fields,
        scope: &IndexScope,
    ) -> (r: usize)
        requires
            is_package(fields@),
            size_fits(fields@),
        ensures
            final(writer)@ == with_package_triples(old(writer)@, *self, fields@, scope@),
            r == final(writer)@.log.len() - old(writer)@.log.len(),
            r >= 1,
    {
        let name: String = match fields.get("Package") {
            Some(n) => n.clone(),
            None => String::new(),
        };
        let version: String = match fields.get("Version") {
            Some(v) => v.clone(),
            None => String::new(),
        };
        let source: SourceName = find_source(fields, &name, &version);
        self.emit_named_package(
            writer,
            fields,
            &name,
            &version,
            &source,
            &homepage_of(fields),
            &scope.codename,
            &scope.suite,
            &scope.arch,
            install_size_of(fields),
        )
    }
}

// ---------------------------------------------------------------------------
// Tracking

/// What is known of the sources of the packages that were emitted.
pub struct SourceTracking {
    /// Their names, each once.
    pub names: Vec<String>,
    /// The identities of the packages that were built from each.
    pub identities: TextMap<Texts>,
    /// Their packaging repositories.
    pub vcs_urls: Fields,
    /// Their identifiers.
    pub uris: Fields,
}

/// What a [`SourceTracking`] holds.
#[verifier::ext_equal]
pub struct KnownSources {
    pub names: Seq<Seq<char>>,
    pub identities: Map<Seq<char>, Seq<Seq<char>>>,
    pub vcs_urls: Map<Seq<char>, Seq<char>>,
    pub uris: Map<Seq<char>, Seq<char>>,
}

impl View for SourceTracking {
    type V = KnownSources;

    open spec fn view(&self) -> KnownSources {
        KnownSources {
            names: views(self.names@),
            identities: self.identities@,
            vcs_urls: self.vcs_urls@,
            uris: self.uris@,
        }
    }
}

pub open spec fn nothing_known() -> KnownSources {
    KnownSources {
        names: Seq::empty(),
        identities: Map::empty(),
        vcs_urls: Map::empty(),
        uris: Map::empty(),
    }
}

/// What is known after one more package.
pub open spec fn learned(
    t: KnownSources,
    c: DebianCollector,
    fields: Map<Seq<char>, Seq<char>>,
    scope: ScopeText,
) -> KnownSources {
    let name = fields["Package"@];
    let source = source_of(fields, name, fields["Version"@]);
    let identity = identity_iri(c.distro_name@, scope.codename, scope.arch, name);
    KnownSources {
        names: if t.names.contains(source.name) {
            t.names
        } else {
            t.names.push(source.name)
        },
        identities: t.identities.insert(
            source.name,
            values_at(t.identities, source.name).push(identity),
        ),
        vcs_urls: match field(fields, "Vcs-Git"@) {
            Some(vcs) => t.vcs_urls.insert(source.name, first_word_or_all(vcs)),
            None => t.vcs_urls,
        },
        uris: t.uris.insert(
            source.name,
            source_iri(c.distro_name@, scope.codename, source.name, source.version),
        ),
    }
}

impl SourceTracking {
    pub fn new() -> (r: Self)
        ensures
            r@ == nothing_known(),
    {
        proof {
            lemma_views_empty();
        }
        SourceTracking {
            names: Vec::new(),
            identities: TextMap::new(),
            vcs_urls: TextMap::new(),
            uris: TextMap::new(),
        }
    }
}

impl DebianCollector {
    fn track(&self, t: &mut SourceTracking, fields: &Fields, scope: &IndexScope)
        requires
            is_package(fields@),
        ensures
            final(t)@ == learned(old(t)@, *self, fields@, scope@),
    {
        let name: String = match fields.get("Package") {
            Some(n) => n.clone(),
            None => String::new(),
        };
        let version: String = match fields.get("Version") {
            Some(v) => v.clone(),
            None => String::new(),
        };
        let source: SourceName = find_source(fields, &name, &version);
        let identity: String = package_identity_uri(
            &self.distro_name,
            &scope.codename,
            &scope.arch,
            &name,
        );
        if !has_item(&t.names, &source.name) {
            let ghost was = t.names@;
            t.names.push(source.name.clone());
            proof {
                lemma_views_push(was, t.names@.last());
                assert(t.names@ =~= was.push(t.names@.last()));
            }
        }
        let mut list: Vec<String> = values_for(&t.identities, &source.name);
        list.push(identity);
        t.identities.insert(source.name.clone(), Texts { items: list });
        if let Some(vcs) = fields.get("Vcs-Git") {
            t.vcs_urls.insert(source.name.clone(), leading_word_or_all(vcs));
        }
        let src: String = source_uri(
            &self.distro_name,
            &scope.codename,
            &source.name,
            &source.version,
        );
        t.uris.insert(source.name, src);
    }

    /// Emits the package of a record, and keeps what it says of its source.
    pub fn emit_package_triples_with_tracking(
        &self,
        writer: &mut NTriplesWriter,
        fields: &Fields,
        scope: &IndexScope,
        tracking: &mut SourceTracking,
    ) -> (r: usize)
        requires
            is_package(fields@),
            size_fits(fields@),
        ensures
            final(writer)@ == with_package_triples(old(writer)@, *self, fields@, scope@),
            final(tracking)@ == learned(old(tracking)@, *self, fields@, scope@),
            r == final(writer)@.log.len() - old(writer)@.log.len(),
            r >= 1,
    {
        let n: usize = self.emit_package_triples(writer, fields, scope);
        self.track(tracking, fields, scope);
        n
    }
}

// ---------------------------------------------------------------------------
// Runs

/// Whether a package is for every architecture.
pub open spec fn is_arch_all(fields: Map<Seq<char>, Seq<char>>) -> bool {
    field(fields, "Architecture"@) == Some("all"@)
}

/// A package by name and version.
pub open spec fn key_of(fields: Map<Seq<char>, Seq<char>>) -> (Seq<char>, Seq<char>) {
    (fields["Package"@], fields["Version"@])
}

/// What a run over indexes has come to.
#[verifier::ext_equal]
pub struct DebRun {
    pub sheet: Sheet,
    pub known: KnownSources,
    /// The packages for every architecture that were emitted.
    pub seen: Seq<(Seq<char>, Seq<char>)>,
    pub count: nat,
}

/// How a run over an index ends.
pub enum Ending {
    /// All its records were read.
    Complete,
    /// The limit was reached.
    Limited,
    Failed(Seq<char>),
}

pub open spec fn size_error() -> Seq<char> {
    "Installed-Size out of range"@
}

/// Whether a record is skipped: a package for every architecture is emitted with
/// the first architecture that has it.
pub open spec fn is_repeat(r: DebRun, fields: Map<Seq<char>, Seq<char>>, secondary: bool) -> bool {
    is_arch_all(fields) && secondary && r.seen.contains(key_of(fields))
}

/// The state after a record that is not skipped.
pub open spec fn record_emitted(
    r: DebRun,
    c: DebianCollector,
    fields: Map<Seq<char>, Seq<char>>,
    scope: ScopeText,
) -> DebRun {
    DebRun {
        sheet: with_package_triples(r.sheet, c, fields, scope),
        known: learned(r.known, c, fields, scope),
        seen: if is_arch_all(fields) && !r.seen.contains(key_of(fields)) {
            r.seen.push(key_of(fields))
        } else {
            r.seen
        },
        count: r.count + 1,
    }
}

pub open spec fn limit_reached(limit: Option<usize>, count: nat) -> bool {
    match limit {
        Some(n) => count >= n,
        None => false,
    }
}

/// The state after the records from `i` on. The limit counts once a record was
/// emitted.
pub open spec fn records_emitted(
    r: DebRun,
    c: DebianCollector,
    records: Seq<Map<Seq<char>, Seq<char>>>,
    i: int,
    scope: ScopeText,
    secondary: bool,
    limit: Option<usize>,
) -> (DebRun, Ending)
    decreases records.len() - i,
{
    if i < 0 || i >= records.len() {
        (r, Ending::Complete)
    } else if is_repeat(r, records[i], secondary) {
        records_emitted(r, c, records, i + 1, scope, secondary, limit)
    } else if !size_fits(records[i]) {
        (r, Ending::Failed(size_error()))
    } else {
        let next = record_emitted(r, c, records[i], scope);
        if limit_reached(limit, next.count) {
            (next, Ending::Limited)
        } else {
            records_emitted(next, c, records, i + 1, scope, secondary, limit)
        }
    }
}

/// The state after an index, given its lines and why there are no more, where it
/// cannot be read to its end. A record at the end that no empty line ends is
/// emitted while the limit is not reached.
pub open spec fn index_emitted(
    r: DebRun,
    c: DebianCollector,
    lines: Seq<Seq<char>>,
    error: Option<Seq<char>>,
    scope: ScopeText,
    secondary: bool,
    limit: Option<usize>,
) -> (DebRun, Ending) {
    let (s, ending) = records_emitted(
        r,
        c,
        ended_records(lines, true),
        0,
        scope,
        secondary,
        limit,
    );
    match ending {
        Ending::Complete => match error {
            Some(e) => (s, Ending::Failed(e)),
            None => match open_record(lines, true) {
                Some(fields) => if is_repeat(s, fields, secondary) || limit_reached(
                    limit,
                    s.count,
                ) {
                    (s, Ending::Complete)
                } else if !size_fits(fields) {
                    (s, Ending::Failed(size_error()))
                } else {
                    (record_emitted(s, c, fields, scope), Ending::Complete)
                },
                None => (s, Ending::Complete),
            },
        },
        _ => (s, ending),
    }
}

/// The packages for every architecture that were emitted.
pub struct SeenPackages {
    pub keys: Vec<(String, String)>,
}

impl View for SeenPackages {
    type V = Seq<(Seq<char>, Seq<char>)>;

    open spec fn view(&self) -> Seq<(Seq<char>, Seq<char>)> {
        pairs_of(self.keys@)
    }
}

impl SeenPackages {
    pub fn new() -> (r: Self)
        ensures
            r@ == Seq::<(Seq<char>, Seq<char>)>::empty(),
    {
        let r: SeenPackages = SeenPackages { keys: Vec::new() };
        assert(r@ =~= Seq::empty());
        r
    }

    /// Whether a package was emitted.
    pub fn contains(&self, name: &str, version: &str) -> (r: bool)
        ensures
            r == self@.contains((name@, version@)),
    {
        let mut i: usize = 0;
        while i < self.keys.len()
            invariant
                i <= self.keys.len(),
                forall|k: int| 0 <= k < i ==> #[trigger] self@[k] != (name@, version@),
            decreases self.keys.len() - i,
        {
            assert(self@[i as int] == (self.keys@[i as int].0@, self.keys@[i as int].1@));
            if same(&self.keys[i].0, name) && same(&self.keys[i].1, version) {
                return true;
            }
            i = i + 1;
        }
        false
    }

    /// Adds a package.
    pub fn insert(&mut self, name: &str, version: &str)
        ensures
            final(self)@ == if old(self)@.contains((name@, version@)) {
                old(self)@
            } else {
                old(self)@.push((name@, version@))
            },
    {
        if !self.contains(name, version) {
            let ghost was = self.keys@;
            let key: (String, String) = (name.to_owned(), version.to_owned());
            proof {
                lemma_pairs_push(was, key);
            }
            self.keys.push(key);
        }
    }
}

fn key_field(fields: &Fields, key: &str) -> (r: String)
    requires
        fields@.contains_key(key@),
    ensures
        r@ == fields@[key@],
{
    match fields.get(key) {
        Some(v) => v.clone(),
        None => String::new(),
    }
}

fn for_every_arch(fields: &Fields) -> (r: bool)
    ensures
        r == is_arch_all(fields@),
{
    match fields.get("Architecture") {
        Some(a) => same(a, "all"),
        None => false,
    }
}

fn reaches(limit: Option<usize>, count: usize) -> (r: bool)
    ensures
        r == limit_reached(limit, count as nat),
{
    match limit {
        Some(n) => count >= n,
        None => false,
    }
}

impl DebianCollector {
    fn emit_record(
        &self,
        writer: &mut NTriplesWriter,
        fields: &Fields,
        scope: &IndexScope,
        tracking: &mut SourceTracking,
        seen: &mut SeenPackages,
        Ghost(count): Ghost<nat>,
    )
        requires
            is_package(fields@),
            size_fits(fields@),
        ensures
            (DebRun {
                sheet: final(writer)@,
                known: final(tracking)@,
                seen: final(seen)@,
                count: count + 1,
            }) == record_emitted(
                (DebRun {
                    sheet: old(writer)@,
                    known: old(tracking)@,
                    seen: old(seen)@,
                    count,
                }),
                *self,
                fields@,
                scope@,
            ),
            final(writer)@.log.len() >= old(writer)@.log.len() + 1,
    {
        self.emit_package_triples_with_tracking(writer, fields, scope, tracking);
        if for_every_arch(fields) {
            seen.insert(&key_field(fields, "Package"), &key_field(fields, "Version"));
        }
    }

    /// Emits the packages of an index, given its lines and why there are no more,
    /// where it cannot be read to its end. Returns how many packages were emitted
    /// and how many statements they gave.
    pub fn process_index(
        &self,
        writer: &mut NTriplesWriter,
        lines: &Vec<String>,
        error: &Option<String>,
        scope: &IndexScope,
        seen: &mut SeenPackages,
        tracking: &mut SourceTracking,
        secondary: bool,
        limit: Option<usize>,
    ) -> (r: Result<(usize, usize), String>)
        ensures
            ({
                let r0 = DebRun {
                    sheet: old(writer)@,
                    known: old(tracking)@,
                    seen: old(seen)@,
                    count: 0,
                };
                let (s, ending) = index_emitted(
                    r0,
                    *self,
                    views(lines@),
                    opt(*error),
                    scope@,
                    secondary,
                    limit,
                );
                &&& final(writer)@ == s.sheet
                &&& final(tracking)@ == s.known
                &&& final(seen)@ == s.seen
                &&& final(writer)@.log.len() >= old(writer)@.log.len() + s.count
                &&& match ending {
                    Ending::Failed(e) => r is Err && r->Err_0@ == e,
                    _ => r is Ok && (r->Ok_0).0 == s.count && (r->Ok_0).1
                        == final(writer)@.log.len() - old(writer)@.log.len(),
                }
            }),
    {
        let start: usize = writer.len();
        let records: IndexRecords = parse_index(lines, true);
        let ghost all = field_maps(records.ended@);
        let ghost r0 = DebRun { sheet: writer@, known: tracking@, seen: seen@, count: 0 };
        let mut count: usize = 0;
        let mut i: usize = 0;
        while i < records.ended.len()
            invariant
                i <= records.ended.len(),
                count <= i,
                all == field_maps(records.ended@),
                all == ended_records(views(lines@), true),
                start == old(writer)@.log.len(),
                start + count <= writer@.log.len(),
                forall|k: int|
                    0 <= k < records.ended@.len() ==> is_package((#[trigger] records.ended@[k])@),
                r0 == (DebRun {
                    sheet: old(writer)@,
                    known: old(tracking)@,
                    seen: old(seen)@,
                    count: 0,
                }),
                records_emitted(r0, *self, all, 0, scope@, secondary, limit) == records_emitted(
                    (DebRun {
                        sheet: writer@,
                        known: tracking@,
                        seen: seen@,
                        count: count as nat,
                    }),
                    *self,
                    all,
                    i as int,
                    scope@,
                    secondary,
                    limit,
                ),
            decreases records.ended.len() - i,
        {
            let fields: &Fields = &records.ended[i];
            assert(all[i as int] == fields@);
            let skip: bool = for_every_arch(fields) && secondary && seen.contains(
                &key_field(fields, "Package"),
                &key_field(fields, "Version"),
            );
            if !skip {
                if !has_fitting_size(fields) {
                    return Err("Installed-Size out of range".to_owned());
                }
                self.emit_record(writer, fields, scope, tracking, seen, Ghost(count as nat));
                count = count + 1;
                if reaches(limit, count) {
                    return Ok((count, writer.len() - start));
                }
            }
            i = i + 1;
        }
        if let Some(e) = error {
            return Err(e.clone());
        }
        if let Some(fields) = &records.open {
            let skip: bool = for_every_arch(fields) && secondary && seen.contains(
                &key_field(fields, "Package"),
                &key_field(fields, "Version"),
            );
            if !skip && !reaches(limit, count) {
                if !has_fitting_size(fields) {
                    return Err("Installed-Size out of range".to_owned());
                }
                self.emit_record(writer, fields, scope, tracking, seen, Ghost(count as nat));
                let now: usize = writer.len();
                assert(count < now);
                count = count + 1;
            }
        }
        Ok((count, writer.len() - start))
    }

    /// Emits the packages of a downloaded index.
    pub fn collect_with_writer(
        &self,
        writer: &mut NTriplesWriter,
        bytes: &[u8],
        scope: &IndexScope,
        seen: &mut SeenPackages,
        tracking: &mut SourceTracking,
        secondary: bool,
        limit: Option<usize>,
    ) -> (r: Result<(usize, usize), String>)
        ensures
            ({
                let r0 = DebRun {
                    sheet: old(writer)@,
                    known: old(tracking)@,
                    seen: old(seen)@,
                    count: 0,
                };
                let (lines, error) = gunzipped_lines(bytes@);
                let (s, ending) = index_emitted(
                    r0,
                    *self,
                    lines,
                    error,
                    scope@,
                    secondary,
                    limit,
                );
                &&& final(writer)@ == s.sheet
                &&& final(tracking)@ == s.known
                &&& final(seen)@ == s.seen
                &&& final(writer)@.log.len() >= old(writer)@.log.len() + s.count
                &&& match ending {
                    Ending::Failed(e) => r is Err && r->Err_0@ == e,
                    _ => r is Ok && (r->Ok_0).0 == s.count && (r->Ok_0).1
                        == final(writer)@.log.len() - old(writer)@.log.len(),
                }
            }),
    {
        let read: GzLines = gunzip_lines(bytes);
        self.process_index(
            writer,
            &read.lines,
            &read.error,
            scope,
            seen,
            tracking,
            secondary,
            limit,
        )
    }
}

/// A package for every architecture that was emitted is skipped with every later
/// architecture.
pub proof fn lemma_arch_all_is_emitted_once(
    r: DebRun,
    c: DebianCollector,
    fields: Map<Seq<char>, Seq<char>>,
    scope: ScopeText,
)
    requires
        is_arch_all(fields),
    ensures
        is_repeat(record_emitted(r, c, fields, scope), fields, true),
{
    if !r.seen.contains(key_of(fields)) {
        assert(r.seen.push(key_of(fields))[r.seen.len() as int] == key_of(fields));
    }
}

// ---------------------------------------------------------------------------
// The distribution

pub open spec fn with_architecture(w: Sheet, arch: Seq<char>) -> Sheet {
    let name = arch_name(arch);
    let node = arch_iri(name);
    let w = link(w, node, RDF_TYPE@, pkg("Architecture"@));
    literal(w, node, pkg("architectureName"@), name)
}

/// The first `n` of `items`, in order.
pub open spec fn with_each_architecture(w: Sheet, items: Seq<Seq<char>>, n: nat) -> Sheet
    decreases n,
{
    if n == 0 {
        w
    } else {
        with_architecture(with_each_architecture(w, items, (n - 1) as nat), items[n - 1])
    }
}

pub fn emit_architecture(writer: &mut NTriplesWriter, arch: &str) -> (r: usize)
    ensures
        final(writer)@ == with_architecture(old(writer)@, arch@),
        r == final(writer)@.log.len() - old(writer)@.log.len(),
{
    let start: usize = writer.len();
    let name: String = name_of_arch(arch);
    let node: String = arch_uri(&name);
    writer.write_triple(&node, RDF_TYPE, &cat2(PKG, "Architecture"));
    writer.write_literal(&node, &cat2(PKG, "architectureName"), &name);
    writer.len() - start
}

/// The distribution, its release and its architectures.
pub open spec fn with_distribution_metadata(
    w: Sheet,
    c: DebianCollector,
    info: ReleaseText,
    arches: Seq<Seq<char>>,
) -> Sheet {
    let dist = distro_iri(c.distro_name@);
    let w = link(w, dist, RDF_TYPE@, pkg("Distribution"@));
    let w = literal(w, dist, pkg("distributionName"@), c.distro_name@);
    let label = display_name(c.distro_name@);
    let w = literal(w, dist, RDFS_LABEL@, label);
    let rel = release_iri(c.distro_name@, info.codename);
    let w = link(w, rel, RDF_TYPE@, pkg("DistributionRelease"@));
    let w = literal(w, rel, pkg("releaseCodename"@), info.codename);
    let w = literal(w, rel, pkg("releaseSuite"@), info.suite);
    let w = literal(w, rel, pkg("releaseOrigin"@), info.origin);
    let w = link(w, rel, pkg("partOfDistribution"@), dist);
    let w = literal(w, rel, pkg("repoType"@), c.repo_type@);
    let w = literal(w, rel, pkg("repoSourceURL"@), c.repo_url@);
    with_each_architecture(w, arches, arches.len())
}

impl DebianCollector {
    /// The distribution, its release and its architectures.
    pub fn emit_distribution_metadata(
        &self,
        writer: &mut NTriplesWriter,
        info: &ReleaseInfo,
        arches: &Vec<String>,
    ) -> (r: usize)
        ensures
            final(writer)@ == with_distribution_metadata(
                old(writer)@,
                *self,
                info@,
                views(arches@),
            ),
            r == final(writer)@.log.len() - old(writer)@.log.len(),
    {
        let start: usize = writer.len();
        let dist: String = distro_uri(&self.distro_name);
        writer.write_triple(&dist, RDF_TYPE, &cat2(PKG, "Distribution"));
        writer.write_literal(&dist, &cat2(PKG, "distributionName"), &self.distro_name);
        let label: String = distro_display_name(&self.distro_name);
        writer.write_literal(&dist, RDFS_LABEL, &label);
        let rel: String = release_uri(&self.distro_name, &info.codename);
        writer.write_triple(&rel, RDF_TYPE, &cat2(PKG, "DistributionRelease"));
        writer.write_literal(&rel, &cat2(PKG, "releaseCodename"), &info.codename);
        writer.write_literal(&rel, &cat2(PKG, "releaseSuite"), &info.suite);
        writer.write_literal(&rel, &cat2(PKG, "releaseOrigin"), &info.origin);
        writer.write_triple(&rel, &cat2(PKG, "partOfDistribution"), &dist);
        writer.write_literal(&rel, &cat2(PKG, "repoType"), &self.repo_type);
        writer.write_literal(&rel, &cat2(PKG, "repoSourceURL"), &self.repo_url);
        let ghost before_architecture = writer@;
        let mut i: usize = 0;
        while i < arches.len()
            invariant
                i <= arches.len(),
                before_architecture.log.len() <= writer@.log.len(),
                writer@ == with_each_architecture(before_architecture, views(arches@), i as nat),
            decreases arches.len() - i,
        {
            emit_architecture(writer, &arches[i]);
            i = i + 1;
        }
        writer.len() - start
    }
}

/// Where the release file is.
pub open spec fn release_address(c: DebianCollector) -> Seq<char> {
    trim_end_char(c.repo_url@, '/') + "/dists/"@ + c.distribution@ + "/Release"@
}

/// Where the index of an architecture is.
pub open spec fn index_address(c: DebianCollector, arch: Seq<char>) -> Seq<char> {
    trim_end_char(c.repo_url@, '/') + "/dists/"@ + c.distribution@ + "/"@ + c.component@ + "/"@
        + arch + "/Packages.gz"@
}

/// The state after the indexes of the architectures from `i` on, the statements
/// and packages of all of them counted together.
pub open spec fn arches_emitted(
    r: DebRun,
    c: DebianCollector,
    info: ReleaseText,
    arches: Seq<Seq<char>>,
    downloads: Seq<Vec<u8>>,
    i: int,
) -> (DebRun, Option<Seq<char>>)
    decreases arches.len() - i,
{
    if i < 0 || i >= arches.len() {
        (r, None)
    } else {
        let (lines, error) = gunzipped_lines(downloads[i]@);
        let scope = ScopeText {
            codename: info.codename,
            suite: info.suite,
            arch: arch_name(arches[i]),
        };
        let (s, ending) = index_emitted(
            DebRun { count: 0, ..r },
            c,
            lines,
            error,
            scope,
            i > 0,
            None,
        );
        let next = DebRun { count: r.count + s.count, ..s };
        match ending {
            Ending::Failed(e) => (next, Some(e)),
            _ => arches_emitted(next, c, info, arches, downloads, i + 1),
        }
    }
}

impl DebianCollector {
    pub fn new(
        repo_url: String,
        distro_name: String,
        distribution: String,
        component: String,
    ) -> (r: Self)
        ensures
            r.repo_url == repo_url,
            r.distro_name == distro_name,
            r.distribution == distribution,
            r.component == component,
            r.repo_type@ == repo_kind(repo_url@),
    {
        let repo_type: String = infer_repo_type_debian(&repo_url);
        DebianCollector { repo_url, distro_name, distribution, component, repo_type }
    }

    pub fn release_url(&self) -> (r: String)
        ensures
            r@ == release_address(*self),
    {
        cat4(
            &trimmed_end_char(&self.repo_url, '/'),
            "/dists/",
            &self.distribution,
            "/Release",
        )
    }

    pub fn packages_url(&self, arch: &str) -> (r: String)
        ensures
            r@ == index_address(*self, arch@),
    {
        let mut url: String = cat5(
            &trimmed_end_char(&self.repo_url, '/'),
            "/dists/",
            &self.distribution,
            "/",
            &self.component,
        );
        url.append("/");
        url.append(arch);
        url.append("/Packages.gz");
        url
    }

    /// The release that a release file describes.
    pub fn get_release_info(&self, text: &str) -> (r: Result<ReleaseInfo, CollectError>)
        ensures
            release_outcome(r) == release_of(text@),
    {
        parse_release(text)
    }

    /// Emits a distribution, given its release and the downloaded index of each
    /// architecture. Returns how many packages were emitted, and how many
    /// statements beside those of the distribution.
    pub fn collect(
        &self,
        writer: &mut NTriplesWriter,
        info: &ReleaseInfo,
        arches: &Vec<String>,
        downloads: &Vec<Vec<u8>>,
    ) -> (r: Result<(usize, usize), String>)
        requires
            arches@.len() == downloads@.len(),
        ensures
            ({
                let head = with_distribution_metadata(
                    old(writer)@,
                    *self,
                    info@,
                    views(arches@),
                );
                let r0 = DebRun {
                    sheet: head,
                    known: nothing_known(),
                    seen: Seq::empty(),
                    count: 0,
                };
                let (s, error) = arches_emitted(
                    r0,
                    *self,
                    info@,
                    views(arches@),
                    downloads@,
                    0,
                );
                &&& final(writer)@ == s.sheet
                &&& match error {
                    Some(e) => r is Err && r->Err_0@ == e,
                    None => r is Ok && (r->Ok_0).0 == s.count && (r->Ok_0).1
                        == final(writer)@.log.len() - head.log.len(),
                }
            }),
    {
        self.emit_distribution_metadata(writer, info, arches);
        let start: usize = writer.len();
        let mut seen: SeenPackages = SeenPackages::new();
        let mut tracking: SourceTracking = SourceTracking::new();
        let mut packages: usize = 0;
        let mut i: usize = 0;
        let ghost names = views(arches@);
        let ghost head = writer@;
        let ghost r0 = DebRun { sheet: head, known: tracking@, seen: seen@, count: 0 };
        while i < arches.len()
            invariant
                i <= arches.len(),
                arches@.len() == downloads@.len(),
                names == views(arches@),
                head == with_distribution_metadata(old(writer)@, *self, info@, names),
                start == head.log.len(),
                start + packages <= writer@.log.len(),
                r0 == (DebRun {
                    sheet: head,
                    known: nothing_known(),
                    seen: Seq::empty(),
                    count: 0,
                }),
                arches_emitted(r0, *self, info@, names, downloads@, 0) == arches_emitted(
                    (DebRun {
                        sheet: writer@,
                        known: tracking@,
                        seen: seen@,
                        count: packages as nat,
                    }),
                    *self,
                    info@,
                    names,
                    downloads@,
                    i as int,
                ),
            decreases arches.len() - i,
        {
            assert(names[i as int] == arches@[i as int]@);
            let scope: IndexScope = IndexScope {
                codename: info.codename.clone(),
                suite: info.suite.clone(),
                arch: name_of_arch(&arches[i]),
            };
            match self.collect_with_writer(
                writer,
                &downloads[i],
                &scope,
                &mut seen,
                &mut tracking,
                i > 0,
                None,
            ) {
                Ok((n, _triples)) => {
                    let now: usize = writer.len();
                    assert(packages + n <= now);
                    packages = packages + n;
                },
                Err(e) => {
                    return Err(e);
                },
            }
            i = i + 1;
        }
        Ok((packages, writer.len() - start))
    }
}

// ---------------------------------------------------------------------------
// Retries

/// What came of a request.
#[derive(Debug, Clone, Copy, PartialEq, Eq, Structural)]
pub enum HttpOutcome {
    Success,
    ServerError,
    OtherStatus,
    NetworkError,
}

/// What to do about it.
#[derive(Debug, Clone, Copy, PartialEq, Eq, Structural)]
pub enum RetryChoice {
    Use,
    /// Wait for some milliseconds, then try again.
    Retry { wait_ms: u64 },
    Fail,
}

/// A server that errs and a network that breaks are tried again, each time after
/// twice the wait; nothing else is.
pub open spec fn retry_choice(retries: u32, max_retries: u32, outcome: HttpOutcome) -> RetryChoice {
    match outcome {
        HttpOutcome::Success => RetryChoice::Use,
        HttpOutcome::OtherStatus => RetryChoice::Fail,
        _ => if retries < max_retries {
            RetryChoice::Retry { wait_ms: (1000 * vstd::arithmetic::power2::pow2((retries + 1) as nat)) as u64 }
        } else {
            RetryChoice::Fail
        },
    }
}

/// What to do after a request, having tried again `retries` times.
pub fn choose_retry(retries: u32, max_retries: u32, outcome: HttpOutcome) -> (r: RetryChoice)
    requires
        max_retries <= 54,
    ensures
        r == retry_choice(retries, max_retries, outcome),
{
    match outcome {
        HttpOutcome::Success => RetryChoice::Use,
        HttpOutcome::OtherStatus => RetryChoice::Fail,
        _ => if retries < max_retries {
            RetryChoice::Retry { wait_ms: 1000 * doubled(retries + 1) }
        } else {
            RetryChoice::Fail
        },
    }
}

fn doubled(n: u32) -> (r: u64)
    requires
        n <= 54,
    ensures
        r == vstd::arithmetic::power2::pow2(n as nat),
        r <= 0x40_0000_0000_0000,
{
    let mut v: u64 = 1;
    let mut i: u32 = 0;
    proof {
        vstd::arithmetic::power2::lemma2_to64();
        vstd::arithmetic::power2::lemma_pow2_adds(32, 22);
    }
    assert(vstd::arithmetic::power2::pow2(54) == 0x40_0000_0000_0000);
    while i < n
        invariant
            i <= n <= 54,
            v == vstd::arithmetic::power2::pow2(i as nat),
            vstd::arithmetic::power2::pow2(54) == 0x40_0000_0000_0000,
            v <= 0x40_0000_0000_0000,
        decreases n - i,
    {
        proof {
            vstd::arithmetic::power2::lemma_pow2_unfold((i + 1) as nat);
            if i + 1 < 54 {
                vstd::arithmetic::power2::lemma_pow2_strictly_increases((i + 1) as nat, 54);
            }
        }
        v = v * 2;
        i = i + 1;
    }
    v
}

} // verus!
