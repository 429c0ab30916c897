//! Alpine Linux: package indexes and the security database.

use crate::archive::{
    gunzip, gunzipped, tar_entries, tar_items, tar_listing, TarEntry, TarItem,
};
use crate::deps::{
    contact_of, dependency_of, split_contact, split_dependency, Dep, Dependency, MAINTAINER,
};
use crate::failure::{
    text_outcome, unreadable, unreadable_data, CollectError, ErrorKind, Failure,
};
use crate::forge::{emit_dq_issue, with_dq_issue};
use crate::ntriples::{
    bnode_id, bnode_label, bnode_literal, bnode_object, bnode_subject, bnode_to_bnode, link,
    literal, number_if, pkg, NTriplesWriter, Sheet, DATA, PKG,
};
use crate::number::{i64_value, parse_i64};
use crate::pattern::{captures, regex_captures};
use crate::percent::{encoded, percent_encoded, Keep};
use crate::split::{
    lemma_lines_joined, lines, lines_of, split_words, trim_end_char, trimmed_end_char, words, Sep,
};
use crate::text::{
    before, cat2, cat3, cat5, cut_once, empty, has_prefix, head, same, split_once, starts_with,
    views,
};
use crate::textmap::{field, field_maps, lemma_field_maps_push, Fields, TextMap};
use crate::uris::{
    arch_iri, arch_uri, dep_type_iri, dep_type_uri, distro_iri, distro_uri, identity_iri,
    is_numeric_release, maintainer_iri, maintainer_uri, numeric_release, package_identity_uri,
    package_iri, package_uri, release_iri, release_uri, source_iri, source_uri, spdx_iri,
    spdx_license_uri, version_iri, version_uri, APK, FOAF, RDFS_LABEL, RDF_TYPE, SEC,
};
use vstd::prelude::*;

verus! {

broadcast use crate::text::lemma_views_push;

/// The pattern that takes a dependency apart.
pub const DEPENDENCY: &'static str = r"^([a-zA-Z0-9_.+-]+)([><=!~]+)?(.+)?$";

/// A collector of one branch of Alpine Linux.
pub struct AlpineCollector {
    pub mirror_url: String,
    pub distro_name: String,
    pub branch: String,
    pub repos: Vec<String>,
    pub arch: String,
}

// ---------------------------------------------------------------------------
// The index

/// Records read so far, and the record that is being read.
pub open spec fn apk_state(lines: Seq<Seq<char>>, n: nat) -> (
    Seq<Map<Seq<char>, Seq<char>>>,
    Map<Seq<char>, Seq<char>>,
)
    decreases n,
{
    if n == 0 {
        (Seq::empty(), Map::empty())
    } else {
        let (done, current) = apk_state(lines, (n - 1) as nat);
        let line = lines[n - 1];
        if line.len() == 0 {
            if current == Map::<Seq<char>, Seq<char>>::empty() {
                (done, current)
            } else {
                (done.push(current), Map::empty())
            }
        } else {
            match split_once(line, ":"@) {
                Some(kv) => (done, current.insert(kv.0, kv.1)),
                None => (done, current),
            }
        }
    }
}

/// The records of an index: runs of `key:value` lines, separated by empty lines.
/// The last value of a key counts.
pub open spec fn apk_records(content: Seq<char>) -> Seq<Map<Seq<char>, Seq<char>>> {
    let lines = lines_of(content);
    let (done, current) = apk_state(lines, lines.len());
    if current == Map::<Seq<char>, Seq<char>>::empty() {
        done
    } else {
        done.push(current)
    }
}

proof fn lemma_state_of_prefix(x: Seq<Seq<char>>, y: Seq<Seq<char>>, n: nat)
    requires
        n <= x.len(),
    ensures
        apk_state(x + y, n) == apk_state(x, n),
    decreases n,
{
    if n > 0 {
        lemma_state_of_prefix(x, y, (n - 1) as nat);
        assert((x + y)[n - 1] == x[n - 1]);
    }
}

/// Where no record is open after some lines, the records of the lines that follow
/// come after those read so far.
proof fn lemma_state_of_rest(x: Seq<Seq<char>>, y: Seq<Seq<char>>, n: nat)
    requires
        n <= y.len(),
        apk_state(x, x.len()).1 == Map::<Seq<char>, Seq<char>>::empty(),
    ensures
        apk_state(x + y, x.len() + n) == (
            apk_state(x, x.len()).0 + apk_state(y, n).0,
            apk_state(y, n).1,
        ),
    decreases n,
{
    let done = apk_state(x, x.len()).0;
    if n == 0 {
        lemma_state_of_prefix(x, y, x.len());
        assert(done + apk_state(y, 0).0 =~= done);
    } else {
        lemma_state_of_rest(x, y, (n - 1) as nat);
        assert((x + y)[x.len() + n - 1] == y[n - 1]);
        let (rest, current) = apk_state(y, (n - 1) as nat);
        assert(done + rest.push(current) =~= (done + rest).push(current));
    }
}

proof fn lemma_state_after_gap(x: Seq<Seq<char>>)
    ensures
        ({
            let gap = seq![Seq::<char>::empty()];
            let (done, current) = apk_state(x, x.len());
            apk_state(x + gap, (x + gap).len()) == (
                if current == Map::<Seq<char>, Seq<char>>::empty() {
                    done
                } else {
                    done.push(current)
                },
                Map::<Seq<char>, Seq<char>>::empty(),
            )
        }),
{
    let gap = seq![Seq::<char>::empty()];
    lemma_state_of_prefix(x, gap, x.len());
    assert((x + gap)[x.len() as int] == Seq::<char>::empty());
}

/// The records of two indexes with an empty line between them are those of the one
/// followed by those of the other: records share no fields, keep their order, and
/// the last one needs no empty line after it.
pub proof fn lemma_joined_indexes(a: Seq<char>, b: Seq<char>)
    requires
        a.len() == 0 || a.last() != '\r',
    ensures
        apk_records(a + "\n\n"@ + b) == apk_records(a) + apk_records(b),
{
    reveal_strlit("\n\n");
    assert(a + "\n\n"@ + b =~= a.push('\n').push('\n') + b);
    lemma_lines_joined(a, b);
    let gap = seq![Seq::<char>::empty()];
    let la = lines_of(a);
    let lb = lines_of(b);
    let whole = lines_of(a + "\n\n"@ + b);
    lemma_state_after_gap(la);
    lemma_state_after_gap(la + gap);
    let head = if whole == la + gap + lb {
        la + gap
    } else {
        la + gap + gap
    };
    assert(whole == head + lb);
    lemma_state_of_rest(head, lb, lb.len());
    let (done, current) = apk_state(lb, lb.len());
    assert(apk_records(a) + done.push(current) =~= (apk_records(a) + done).push(current));
}

proof fn lemma_state_has_no_empty_record(lines: Seq<Seq<char>>, n: nat, i: int)
    requires
        0 <= i < apk_state(lines, n).0.len(),
    ensures
        apk_state(lines, n).0[i] != Map::<Seq<char>, Seq<char>>::empty(),
    decreases n,
{
    if n > 0 {
        let done = apk_state(lines, (n - 1) as nat).0;
        if i < done.len() {
            lemma_state_has_no_empty_record(lines, (n - 1) as nat, i);
        }
    }
}

/// No record of an index is empty.
pub proof fn lemma_no_record_is_empty(content: Seq<char>, i: int)
    requires
        0 <= i < apk_records(content).len(),
    ensures
        apk_records(content)[i] != Map::<Seq<char>, Seq<char>>::empty(),
{
    let lines = lines_of(content);
    let done = apk_state(lines, lines.len()).0;
    if i < done.len() {
        lemma_state_has_no_empty_record(lines, lines.len(), i);
    }
}

/// Parses the text of an index into one map of fields for each package.
pub fn parse_apkindex(content: &str) -> (r: Vec<Fields>)
    ensures
        field_maps(r@) == apk_records(content@),
{
    let all: Vec<String> = lines(content);
    let mut packages: Vec<Fields> = Vec::new();
    let mut current: Fields = TextMap::new();
    let mut i: usize = 0;
    let ghost texts = views(all@);
    assert(field_maps(packages@) =~= Seq::empty());
    while i < all.len()
        invariant
            i <= all.len(),
            texts == views(all@),
            (field_maps(packages@), current@) == apk_state(texts, i as nat),
        decreases all.len() - i,
    {
        assert(texts[i as int] == all@[i as int]@);
        if empty(&all[i]) {
            if !current.is_empty() {
                proof {
                    lemma_field_maps_push(packages@, current);
                }
                packages.push(current);
                current = TextMap::new();
            }
        } else if let Some((key, value)) = cut_once(&all[i], ":") {
            current.insert(key, value);
        }
        i = i + 1;
    }
    if !current.is_empty() {
        proof {
            lemma_field_maps_push(packages@, current);
        }
        packages.push(current);
    }
    packages
}

/// Where the index of a repository is.
pub open spec fn index_url(c: AlpineCollector, repo: Seq<char>) -> Seq<char> {
    trim_end_char(c.mirror_url@, '/') + "/"@ + c.branch@ + "/"@ + repo + "/"@ + c.arch@
        + "/APKINDEX.tar.gz"@
}

/// Where the security database of a repository is.
pub open spec fn secdb_url(c: AlpineCollector, repo: Seq<char>) -> Seq<char> {
    "https://secdb.alpinelinux.org/"@ + c.branch@ + "/"@ + repo + ".json"@
}

/// The error about an archive without an index.
pub open spec fn no_index() -> Failure {
    Failure { kind: ErrorKind::NotFound, message: "APKINDEX not found in archive"@ }
}

fn missing_index() -> (r: CollectError)
    ensures
        r@ == no_index(),
{
    CollectError::new(ErrorKind::NotFound, "APKINDEX not found in archive".to_owned())
}

/// The index in an archive, from item `i` on.
pub open spec fn index_in(items: Seq<TarEntry>, i: int) -> Result<Seq<char>, Failure>
    decreases items.len() - i,
{
    if i < 0 || i >= items.len() {
        Err(no_index())
    } else {
        match items[i] {
            TarEntry::Broken(e) => Err(unreadable_data(e)),
            TarEntry::Entry { path, text } => if path == "APKINDEX"@ {
                match text {
                    Err(e) => Err(unreadable_data(e)),
                    Ok(t) => if t.len() == 0 {
                        Err(no_index())
                    } else {
                        Ok(t)
                    },
                }
            } else {
                index_in(items, i + 1)
            },
        }
    }
}

/// Finds the index among the items of an archive.
pub fn find_index(items: &Vec<TarItem>) -> (r: Result<String, CollectError>)
    ensures
        text_outcome(r) == index_in(tar_entries(items@), 0),
{
    let mut i: usize = 0;
    let ghost all = tar_entries(items@);
    while i < items.len()
        invariant
            i <= items.len(),
            all == tar_entries(items@),
            index_in(all, 0) == index_in(all, i as int),
        decreases items.len() - i,
    {
        assert(all[i as int] == items@[i as int]@);
        match &items[i] {
            TarItem::Broken(e) => {
                return Err(unreadable(e.clone()));
            },
            TarItem::Entry { path, text } => {
                if same(path, "APKINDEX") {
                    return match text {
                        Err(e) => Err(unreadable(e.clone())),
                        Ok(t) => if empty(t) {
                            Err(missing_index())
                        } else {
                            Ok(t.clone())
                        },
                    };
                }
            },
        }
        i = i + 1;
    }
    Err(missing_index())
}

/// The text of the index that a downloaded file holds.
pub open spec fn index_of(bytes: Seq<u8>) -> Result<Seq<char>, Failure> {
    match gunzipped(bytes) {
        Err(e) => Err(unreadable_data(e)),
        Ok(tar) => index_in(tar_listing(tar), 0),
    }
}

/// Unpacks the index out of a downloaded file.
pub fn unpack_index(bytes: &[u8]) -> (r: Result<String, CollectError>)
    ensures
        text_outcome(r) == index_of(bytes@),
{
    match gunzip(bytes) {
        Err(e) => Err(unreadable(e)),
        Ok(tar) => find_index(&tar_items(&tar)),
    }
}

// ---------------------------------------------------------------------------
// Statements

/// The distribution, its release and its architecture.
pub open spec fn with_distribution_metadata(w: Sheet, c: AlpineCollector) -> Sheet {
    let dist = distro_iri(c.distro_name@);
    let rel = release_iri(c.distro_name@, c.branch@);
    let arch = arch_iri(c.arch@);
    let w = link(w, dist, RDF_TYPE@, pkg("Distribution"@));
    let w = literal(w, dist, pkg("projectName"@), "Alpine Linux"@);
    let w = literal(w, dist, RDFS_LABEL@, "Alpine"@);
    let w = link(w, rel, RDF_TYPE@, pkg("DistributionRelease"@));
    let w = if numeric_release(c.branch@) {
        literal(w, rel, pkg("releaseVersion"@), c.branch@)
    } else {
        literal(w, rel, pkg("releaseCodename"@), c.branch@)
    };
    let w = link(w, rel, pkg("partOfDistribution"@), dist);
    let w = link(w, arch, RDF_TYPE@, pkg("Architecture"@));
    literal(w, arch, pkg("packageName"@), c.arch@)
}

impl AlpineCollector {
    /// The distribution, its release and its architecture.
    pub fn emit_distribution_metadata(&self, writer: &mut NTriplesWriter) -> (r: usize)
        ensures
            final(writer)@ == with_distribution_metadata(old(writer)@, *self),
            r == final(writer)@.log.len() - old(writer)@.log.len(),
    {
        let start: usize = writer.len();
        let dist: String = distro_uri(&self.distro_name);
        let rel: String = release_uri(&self.distro_name, &self.branch);
        let arch: String = arch_uri(&self.arch);
        writer.write_triple(&dist, RDF_TYPE, &cat2(PKG, "Distribution"));
        writer.write_literal(&dist, &cat2(PKG, "projectName"), "Alpine Linux");
        writer.write_literal(&dist, RDFS_LABEL, "Alpine");
        writer.write_triple(&rel, RDF_TYPE, &cat2(PKG, "DistributionRelease"));
        if is_numeric_release(&self.branch) {
            writer.write_literal(&rel, &cat2(PKG, "releaseVersion"), &self.branch);
        } else {
            writer.write_literal(&rel, &cat2(PKG, "releaseCodename"), &self.branch);
        }
        writer.write_triple(&rel, &cat2(PKG, "partOfDistribution"), &dist);
        writer.write_triple(&arch, RDF_TYPE, &cat2(PKG, "Architecture"));
        writer.write_literal(&arch, &cat2(PKG, "packageName"), &self.arch);
        writer.len() - start
    }
}

/// One dependency of a package, as a link and as a node of its own.
pub open spec fn with_dependency(
    w: Sheet,
    c: AlpineCollector,
    package: Seq<char>,
    kind: Seq<char>,
    d: Dep,
) -> Sheet {
    let target = identity_iri(c.distro_name@, c.branch@, c.arch@, d.name);
    let w = link(w, package, pkg("directlyDependsOn"@), target);
    let node = bnode_label(kind, package + "-"@ + d.name);
    let w = bnode_object(w, package, pkg("hasDependency"@), node);
    let w = bnode_subject(w, node, RDF_TYPE@, pkg("Dependency"@));
    let w = bnode_subject(w, node, pkg("dependencyTarget"@), target);
    let w = bnode_subject(w, node, pkg("dependencyType"@), dep_type_iri(kind));
    let w = match d.operator {
        Some(op) => {
            let w = match d.value {
                Some(value) => {
                    let limit = bnode_label("constraint"@, package + "-"@ + d.name);
                    let w = bnode_to_bnode(w, node, pkg("hasVersionConstraint"@), limit);
                    let w = bnode_subject(w, limit, RDF_TYPE@, pkg("VersionConstraint"@));
                    let w = bnode_literal(w, limit, pkg("versionConstraintOperator"@), op);
                    bnode_literal(w, limit, pkg("versionConstraintValue"@), value)
                },
                None => w,
            };
            w
        },
        None => w,
    };
    w
}

impl AlpineCollector {
    /// One dependency of a package, as a link and as a node of its own.
    pub fn emit_dependency(
        &self,
        writer: &mut NTriplesWriter,
        package: &str,
        kind: &str,
        d: &Dependency,
    ) -> (r: usize)
        ensures
            final(writer)@ == with_dependency(old(writer)@, *self, package@, kind@, d@),
            r == final(writer)@.log.len() - old(writer)@.log.len(),
    {
        let start: usize = writer.len();
        let target: String = package_identity_uri(
            &self.distro_name,
            &self.branch,
            &self.arch,
            &d.name,
        );
        writer.write_triple(package, &cat2(PKG, "directlyDependsOn"), &target);
        let node: String = bnode_id(kind, &cat3(package, "-", &d.name));
        writer.write_bnode_object(package, &cat2(PKG, "hasDependency"), &node);
        writer.write_bnode_subject(&node, RDF_TYPE, &cat2(PKG, "Dependency"));
        writer.write_bnode_subject(&node, &cat2(PKG, "dependencyTarget"), &target);
        writer.write_bnode_subject(&node, &cat2(PKG, "dependencyType"), &dep_type_uri(kind));
        if let Some(op) = &d.operator {
            if let Some(value) = &d.value {
                let limit: String = bnode_id("constraint", &cat3(package, "-", &d.name));
                writer.write_bnode_to_bnode(&node, &cat2(PKG, "hasVersionConstraint"), &limit);
                writer.write_bnode_subject(&limit, RDF_TYPE, &cat2(PKG, "VersionConstraint"));
                writer.write_bnode_literal(&limit, &cat2(PKG, "versionConstraintOperator"), op);
                writer.write_bnode_literal(&limit, &cat2(PKG, "versionConstraintValue"), value);
            }
        }
        writer.len() - start
    }
}

/// Whether a word of a list of dependencies is skipped: a conflict, or a shared
/// library.
pub open spec fn is_virtual(word: Seq<char>) -> bool {
    starts_with(word, "!"@) || starts_with(word, "so:"@)
}

/// One word of a list of dependencies. Conflicts and shared libraries are skipped.
pub open spec fn with_dependency_word(
    w: Sheet,
    c: AlpineCollector,
    package: Seq<char>,
    kind: Seq<char>,
    word: Seq<char>,
) -> Sheet {
    let w = if !is_virtual(word) {
        with_dependency_match(w, c, package, kind, word)
    } else {
        w
    };
    w
}

/// The first `n` of `items`, in order.
pub open spec fn with_each_dependency_word(
    w: Sheet,
    c: AlpineCollector,
    package: Seq<char>,
    kind: Seq<char>,
    items: Seq<Seq<char>>,
    n: nat,
) -> Sheet
    decreases n,
{
    if n == 0 {
        w
    } else {
        with_dependency_word(
            with_each_dependency_word(w, c, package, kind, items, (n - 1) as nat),
            c,
            package,
            kind,
            items[n - 1],
        )
    }
}

impl AlpineCollector {
    /// One word of a list of dependencies. Conflicts and shared libraries are skipped.
    pub fn emit_dependency_word(
        &self,
        writer: &mut NTriplesWriter,
        package: &str,
        kind: &str,
        word: &str,
    ) -> (r: usize)
        ensures
            final(writer)@ == with_dependency_word(old(writer)@, *self, package@, kind@, word@),
            r == final(writer)@.log.len() - old(writer)@.log.len(),
    {
        let start: usize = writer.len();
        if !has_prefix(word, "!") && !has_prefix(word, "so:") {
            self.emit_dependency_match(writer, package, kind, word);
        }
        writer.len() - start
    }
}

/// The dependencies in a list of words.
pub open spec fn with_dependencies(
    w: Sheet,
    c: AlpineCollector,
    package: Seq<char>,
    list: Seq<char>,
    kind: Seq<char>,
) -> Sheet {
    let entries = words(list, Sep::Blank);
    with_each_dependency_word(w, c, package, kind, entries, entries.len())
}

impl AlpineCollector {
    /// The dependencies in a list of words.
    pub fn emit_dependencies(
        &self,
        writer: &mut NTriplesWriter,
        package: &str,
        list: &str,
        kind: &str,
    ) -> (r: usize)
        ensures
            final(writer)@ == with_dependencies(old(writer)@, *self, package@, list@, kind@),
            r == final(writer)@.log.len() - old(writer)@.log.len(),
    {
        let start: usize = writer.len();
        let entries: Vec<String> = split_words(list, &Sep::Blank);
        let ghost before_dependency_word = writer@;
        let mut i: usize = 0;
        while i < entries.len()
            invariant
                i <= entries.len(),
                before_dependency_word.log.len() <= writer@.log.len(),
                writer@ == with_each_dependency_word(
                    before_dependency_word,
                    *self,
                    package@,
                    kind@,
                    views(entries@),
                    i as nat,
                ),
            decreases entries.len() - i,
        {
            self.emit_dependency_word(writer, package, kind, &entries[i]);
            i = i + 1;
        }
        writer.len() - start
    }
}

/// Who maintains a package.
pub open spec fn with_maintainer(
    w: Sheet,
    package: Seq<char>,
    name: Seq<char>,
    email: Seq<char>,
) -> Sheet {
    let person = maintainer_iri(email);
    let w = link(w, person, RDF_TYPE@, pkg("Person"@));
    let w = literal(w, person, FOAF@ + "name"@, name);
    let w = literal(w, person, RDFS_LABEL@, name);
    link(w, package, pkg("maintainedBy"@), person)
}

/// Who maintains a package.
pub fn emit_maintainer(
    writer: &mut NTriplesWriter,
    package: &str,
    name: &str,
    email: &str,
) -> (r: usize)
    ensures
        final(writer)@ == with_maintainer(old(writer)@, package@, name@, email@),
        r == final(writer)@.log.len() - old(writer)@.log.len(),
{
    let start: usize = writer.len();
    let person: String = maintainer_uri(email);
    writer.write_triple(&person, RDF_TYPE, &cat2(PKG, "Person"));
    writer.write_literal(&person, &cat2(FOAF, "name"), name);
    writer.write_literal(&person, RDFS_LABEL, name);
    writer.write_triple(package, &cat2(PKG, "maintainedBy"), &person);
    writer.len() - start
}

pub open spec fn with_provided(w: Sheet, package: Seq<char>, word: Seq<char>) -> Sheet {
    literal(w, package, pkg("provides"@), before(word, "="@))
}

/// The first `n` of `items`, in order.
pub open spec fn with_each_provided(
    w: Sheet,
    package: Seq<char>,
    items: Seq<Seq<char>>,
    n: nat,
) -> Sheet
    decreases n,
{
    if n == 0 {
        w
    } else {
        with_provided(with_each_provided(w, package, items, (n - 1) as nat), package, items[n - 1])
    }
}

pub fn emit_provided(writer: &mut NTriplesWriter, package: &str, word: &str) -> (r: usize)
    ensures
        final(writer)@ == with_provided(old(writer)@, package@, word@),
        r == final(writer)@.log.len() - old(writer)@.log.len(),
{
    let start: usize = writer.len();
    writer.write_literal(package, &cat2(PKG, "provides"), &head(word, "="));
    writer.len() - start
}

pub open spec fn with_replaced(w: Sheet, package: Seq<char>, word: Seq<char>) -> Sheet {
    literal(w, package, pkg("replaces"@), word)
}

/// The first `n` of `items`, in order.
pub open spec fn with_each_replaced(
    w: Sheet,
    package: Seq<char>,
    items: Seq<Seq<char>>,
    n: nat,
) -> Sheet
    decreases n,
{
    if n == 0 {
        w
    } else {
        with_replaced(with_each_replaced(w, package, items, (n - 1) as nat), package, items[n - 1])
    }
}

pub fn emit_replaced(writer: &mut NTriplesWriter, package: &str, word: &str) -> (r: usize)
    ensures
        final(writer)@ == with_replaced(old(writer)@, package@, word@),
        r == final(writer)@.log.len() - old(writer)@.log.len(),
{
    let start: usize = writer.len();
    writer.write_literal(package, &cat2(PKG, "replaces"), word);
    writer.len() - start
}

/// A package, without the lists of other packages that it names.
pub open spec fn with_package_core(
    w: Sheet,
    c: AlpineCollector,
    fields: Map<Seq<char>,
    Seq<char>>,
    repo: Seq<char>,
    name: Seq<char>,
    version: Seq<char>,
) -> Sheet {
    let package = package_iri(c.distro_name@, c.branch@, c.arch@, name, version);
    let identity = identity_iri(c.distro_name@, c.branch@, c.arch@, name);
    let w = link(w, package, RDF_TYPE@, pkg("BinaryPackage"@));
    let w = link(w, package, RDF_TYPE@, APK@ + "ApkPackage"@);
    let w = link(w, identity, RDF_TYPE@, pkg("PackageIdentity"@));
    let w = literal(w, identity, pkg("packageName"@), name);
    let w = link(w, package, pkg("isVersionOf"@), identity);
    let w = literal(w, package, pkg("packageName"@), name);
    let ver = version_iri(c.distro_name@, c.branch@, name, version);
    let w = link(w, ver, RDF_TYPE@, pkg("Version"@));
    let w = literal(w, ver, pkg("versionString"@), version);
    let w = link(w, package, pkg("hasVersion"@), ver);
    let arch = arch_iri(c.arch@);
    let w = link(w, package, pkg("targetArchitecture"@), arch);
    let dist = distro_iri(c.distro_name@);
    let rel = release_iri(c.distro_name@, c.branch@);
    let w = link(w, package, pkg("partOfDistribution"@), dist);
    let w = link(w, package, pkg("partOfRelease"@), rel);
    let w = literal(w, package, APK@ + "repoName"@, repo);
    let w = match field(fields, "T"@) {
        Some(x) => {
            literal(w, package, pkg("description"@), x)
        },
        None => w,
    };
    let w = match field(fields, "U"@) {
        Some(x) => {
            literal(w, package, pkg("homepage"@), x)
        },
        None => w,
    };
    let w = match field(fields, "L"@) {
        Some(x) => {
            let w = literal(w, package, pkg("licenseName"@), x);
            let license = spdx_iri(x);
            let w = link(w, package, pkg("hasLicense"@), license);
            link(w, license, RDF_TYPE@, pkg("License"@))
        },
        None => w,
    };
    let w = match field(fields, "S"@) {
        Some(x) => {
            number_if(w, package, pkg("packageSize"@), i64_value(x))
        },
        None => w,
    };
    let w = match field(fields, "I"@) {
        Some(x) => {
            number_if(w, package, pkg("installSize"@), i64_value(x))
        },
        None => w,
    };
    let w = match field(fields, "C"@) {
        Some(x) => {
            literal(w, package, pkg("checksum"@), x)
        },
        None => w,
    };
    let w = match field(fields, "t"@) {
        Some(x) => {
            literal(w, package, APK@ + "buildDate"@, x)
        },
        None => w,
    };
    w
}

impl AlpineCollector {
    /// A package, without the lists of other packages that it names.
    pub fn emit_package_core(
        &self,
        writer: &mut NTriplesWriter,
        fields: &Fields,
        repo: &str,
        name: &str,
        version: &str,
    ) -> (r: usize)
        ensures
            final(writer)@ == with_package_core(
                old(writer)@,
                *self,
                fields@,
                repo@,
                name@,
                version@,
            ),
            r == final(writer)@.log.len() - old(writer)@.log.len(),
            r >= 13,
    {
        let start: usize = writer.len();
        let package: String = package_uri(
            &self.distro_name,
            &self.branch,
            &self.arch,
            name,
            version,
        );
        let identity: String = package_identity_uri(
            &self.distro_name,
            &self.branch,
            &self.arch,
            name,
        );
        writer.write_triple(&package, RDF_TYPE, &cat2(PKG, "BinaryPackage"));
        writer.write_triple(&package, RDF_TYPE, &cat2(APK, "ApkPackage"));
        writer.write_triple(&identity, RDF_TYPE, &cat2(PKG, "PackageIdentity"));
        writer.write_literal(&identity, &cat2(PKG, "packageName"), name);
        writer.write_triple(&package, &cat2(PKG, "isVersionOf"), &identity);
        writer.write_literal(&package, &cat2(PKG, "packageName"), name);
        let ver: String = version_uri(&self.distro_name, &self.branch, name, version);
        writer.write_triple(&ver, RDF_TYPE, &cat2(PKG, "Version"));
        writer.write_literal(&ver, &cat2(PKG, "versionString"), version);
        writer.write_triple(&package, &cat2(PKG, "hasVersion"), &ver);
        let arch: String = arch_uri(&self.arch);
        writer.write_triple(&package, &cat2(PKG, "targetArchitecture"), &arch);
        let dist: String = distro_uri(&self.distro_name);
        let rel: String = release_uri(&self.distro_name, &self.branch);
        writer.write_triple(&package, &cat2(PKG, "partOfDistribution"), &dist);
        writer.write_triple(&package, &cat2(PKG, "partOfRelease"), &rel);
        writer.write_literal(&package, &cat2(APK, "repoName"), repo);
        if let Some(x) = fields.get("T") {
            writer.write_literal(&package, &cat2(PKG, "description"), x);
        }
        if let Some(x) = fields.get("U") {
            writer.write_literal(&package, &cat2(PKG, "homepage"), x);
        }
        if let Some(x) = fields.get("L") {
            writer.write_literal(&package, &cat2(PKG, "licenseName"), x);
            let license: String = spdx_license_uri(x);
            writer.write_triple(&package, &cat2(PKG, "hasLicense"), &license);
            writer.write_triple(&license, RDF_TYPE, &cat2(PKG, "License"));
        }
        if let Some(x) = fields.get("S") {
            writer.write_integer_if(&package, &cat2(PKG, "packageSize"), parse_i64(x));
        }
        if let Some(x) = fields.get("I") {
            writer.write_integer_if(&package, &cat2(PKG, "installSize"), parse_i64(x));
        }
        if let Some(x) = fields.get("C") {
            writer.write_literal(&package, &cat2(PKG, "checksum"), x);
        }
        if let Some(x) = fields.get("t") {
            writer.write_literal(&package, &cat2(APK, "buildDate"), x);
        }
        writer.len() - start
    }
}

/// Everything that the record of a package gives, given its name and version.
pub open spec fn with_named_package(
    w: Sheet,
    c: AlpineCollector,
    fields: Map<Seq<char>,
    Seq<char>>,
    repo: Seq<char>,
    name: Seq<char>,
    version: Seq<char>,
) -> Sheet {
    let w = with_package_core(w, c, fields, repo, name, version);
    let package = package_iri(c.distro_name@, c.branch@, c.arch@, name, version);
    let w = match field(fields, "m"@) {
        Some(x) => {
            let w = match contact_of(regex_captures(MAINTAINER@, x)) {
                Some(who) => {
                    with_maintainer(w, package, who.name, who.email)
                },
                None => w,
            };
            w
        },
        None => w,
    };
    let w = match field(fields, "o"@) {
        Some(x) => {
            let src = source_iri(c.distro_name@, c.branch@, x, version);
            let w = link(w, src, RDF_TYPE@, pkg("SourcePackage"@));
            let w = literal(w, src, pkg("packageName"@), x);
            let w = link(w, package, pkg("builtFromSource"@), src);
            literal(w, package, APK@ + "apkOrigin"@, x)
        },
        None => w,
    };
    let w = match field(fields, "D"@) {
        Some(x) => {
            with_dependencies(w, c, package, x, "depends"@)
        },
        None => w,
    };
    let w = match field(fields, "p"@) {
        Some(x) => {
            let entries = words(x, Sep::Blank);
            with_each_provided(w, package, entries, entries.len())
        },
        None => w,
    };
    let w = match field(fields, "i"@) {
        Some(x) => {
            literal(w, package, APK@ + "installIf"@, x)
        },
        None => w,
    };
    let w = match field(fields, "r"@) {
        Some(x) => {
            let entries = words(x, Sep::Blank);
            with_each_replaced(w, package, entries, entries.len())
        },
        None => w,
    };
    w
}

impl AlpineCollector {
    /// Everything that the record of a package gives, given its name and version.
    pub fn emit_named_package(
        &self,
        writer: &mut NTriplesWriter,
        fields: &Fields,
        repo: &str,
        name: &str,
        version: &str,
    ) -> (r: usize)
        ensures
            final(writer)@ == with_named_package(
                old(writer)@,
                *self,
                fields@,
                repo@,
                name@,
                version@,
            ),
            r == final(writer)@.log.len() - old(writer)@.log.len(),
            r >= 13,
    {
        let start: usize = writer.len();
        self.emit_package_core(writer, fields, repo, name, version);
        let package: String = package_uri(
            &self.distro_name,
            &self.branch,
            &self.arch,
            name,
            version,
        );
        if let Some(x) = fields.get("m") {
            if let Some(who) = split_contact(&captures(MAINTAINER, x)) {
                emit_maintainer(writer, &package, &who.name, &who.email);
            }
        }
        if let Some(x) = fields.get("o") {
            let src: String = source_uri(&self.distro_name, &self.branch, x, version);
            writer.write_triple(&src, RDF_TYPE, &cat2(PKG, "SourcePackage"));
            writer.write_literal(&src, &cat2(PKG, "packageName"), x);
            writer.write_triple(&package, &cat2(PKG, "builtFromSource"), &src);
            writer.write_literal(&package, &cat2(APK, "apkOrigin"), x);
        }
        if let Some(x) = fields.get("D") {
            self.emit_dependencies(writer, &package, x, "depends");
        }
        if let Some(x) = fields.get("p") {
            let entries: Vec<String> = split_words(x, &Sep::Blank);
            let ghost before_provided = writer@;
            let mut i: usize = 0;
            while i < entries.len()
                invariant
                    i <= entries.len(),
                    before_provided.log.len() <= writer@.log.len(),
                    writer@ == with_each_provided(
                        before_provided,
                        package@,
                        views(entries@),
                        i as nat,
                    ),
                decreases entries.len() - i,
            {
                emit_provided(writer, &package, &entries[i]);
                i = i + 1;
            }
        }
        if let Some(x) = fields.get("i") {
            writer.write_literal(&package, &cat2(APK, "installIf"), x);
        }
        if let Some(x) = fields.get("r") {
            let entries: Vec<String> = split_words(x, &Sep::Blank);
            let ghost before_replaced = writer@;
            let mut i: usize = 0;
            while i < entries.len()
                invariant
                    i <= entries.len(),
                    before_replaced.log.len() <= writer@.log.len(),
                    writer@ == with_each_replaced(
                        before_replaced,
                        package@,
                        views(entries@),
                        i as nat,
                    ),
                decreases entries.len() - i,
            {
                emit_replaced(writer, &package, &entries[i]);
                i = i + 1;
            }
        }
        writer.len() - start
    }
}

/// Everything that the record of a package gives. A record without a name or a
/// version gives a note alone.
pub open spec fn with_package_triples(
    w: Sheet,
    c: AlpineCollector,
    fields: Map<Seq<char>,
    Seq<char>>,
    repo: Seq<char>,
) -> Sheet {
    let w = match field(fields, "P"@) {
        Some(name) => {
            let w = match field(fields, "V"@) {
                Some(version) => {
                    with_named_package(w, c, fields, repo, name, version)
                },
                None => {
                    with_dq_issue(
                        w,
                        "alpine-collector"@,
                        "package_version"@,
                        name,
                        "missing_field"@,
                        "high"@,
                    )
                },
            };
            w
        },
        None => {
            with_dq_issue(
                w,
                "alpine-collector"@,
                "package_name"@,
                "<missing>"@,
                "missing_field"@,
                "high"@,
            )
        },
    };
    w
}

impl AlpineCollector {
    /// Everything that the record of a package gives. A record without a name or a
    /// version gives a note alone.
    pub fn emit_package_triples(
        &self,
        writer: &mut NTriplesWriter,
        fields: &Fields,
        repo: &str,
    ) -> (r: usize)
        ensures
            final(writer)@ == with_package_triples(old(writer)@, *self, fields@, repo@),
            r == final(writer)@.log.len() - old(writer)@.log.len(),
            r >= 6,
    {
        let start: usize = writer.len();
        if let Some(name) = fields.get("P") {
            if let Some(version) = fields.get("V") {
                self.emit_named_package(writer, fields, repo, name, version);
            } else {
                emit_dq_issue(
                    writer,
                    "alpine-collector",
                    "package_version",
                    name,
                    "missing_field",
                    "high",
                );
            }
        } else {
            emit_dq_issue(
                writer,
                "alpine-collector",
                "package_name",
                "<missing>",
                "missing_field",
                "high",
            );
        }
        writer.len() - start
    }
}

pub open spec fn with_packages(
    w: Sheet,
    c: AlpineCollector,
    records: Seq<Map<Seq<char>, Seq<char>>>,
    repo: Seq<char>,
    n: nat,
) -> Sheet
    decreases n,
{
    if n == 0 {
        w
    } else {
        with_package_triples(
            with_packages(w, c, records, repo, (n - 1) as nat),
            c,
            records[n - 1],
            repo,
        )
    }
}

/// The word of a dependency list, taken apart by [`DEPENDENCY`].
pub open spec fn with_dependency_match(
    w: Sheet,
    c: AlpineCollector,
    package: Seq<char>,
    kind: Seq<char>,
    word: Seq<char>,
) -> Sheet {
    with_dependency(
        w,
        c,
        package,
        kind,
        dependency_of(regex_captures(DEPENDENCY@, word), word),
    )
}

/// What a repository gives: how many packages, and their statements; or why its
/// index cannot be read.
pub open spec fn repo_packages(bytes: Seq<u8>) -> Result<
    Seq<Map<Seq<char>, Seq<char>>>,
    Failure,
> {
    match index_of(bytes) {
        Ok(text) => Ok(apk_records(text)),
        Err(e) => Err(e),
    }
}

impl AlpineCollector {
    pub fn new(
        mirror_url: String,
        distro_name: String,
        branch: String,
        repos: Vec<String>,
        arch: String,
    ) -> (r: Self)
        ensures
            r.mirror_url == mirror_url,
            r.distro_name == distro_name,
            r.branch == branch,
            r.repos == repos,
            r.arch == arch,
    {
        AlpineCollector { mirror_url, distro_name, branch, repos, arch }
    }

    pub fn apkindex_url(&self, repo: &str) -> (r: String)
        ensures
            r@ == index_url(*self, repo@),
    {
        let mut url: String = cat5(
            &trimmed_end_char(&self.mirror_url, '/'),
            "/",
            &self.branch,
            "/",
            repo,
        );
        url.append("/");
        url.append(&self.arch);
        url.append("/APKINDEX.tar.gz");
        url
    }

    pub fn secdb_address(&self, repo: &str) -> (r: String)
        ensures
            r@ == secdb_url(*self, repo@),
    {
        cat5("https://secdb.alpinelinux.org/", &self.branch, "/", repo, ".json")
    }

    fn emit_dependency_match(
        &self,
        writer: &mut NTriplesWriter,
        package: &str,
        kind: &str,
        word: &str,
    ) -> (r: usize)
        ensures
            final(writer)@ == with_dependency_match(
                old(writer)@,
                *self,
                package@,
                kind@,
                word@,
            ),
            r == final(writer)@.log.len() - old(writer)@.log.len(),
    {
        let d: Dependency = split_dependency(&captures(DEPENDENCY, word), word);
        self.emit_dependency(writer, package, kind, &d)
    }

    /// Emits the packages of an index.
    pub fn emit_packages(
        &self,
        writer: &mut NTriplesWriter,
        packages: &Vec<Fields>,
        repo: &str,
    ) -> (r: usize)
        ensures
            final(writer)@ == with_packages(
                old(writer)@,
                *self,
                field_maps(packages@),
                repo@,
                packages@.len(),
            ),
            r == final(writer)@.log.len() - old(writer)@.log.len(),
            r >= packages@.len(),
    {
        let start: usize = writer.len();
        let ghost before = writer@;
        let mut i: usize = 0;
        while i < packages.len()
            invariant
                i <= packages.len(),
                before.log.len() + i <= writer@.log.len(),
                writer@ == with_packages(before, *self, field_maps(packages@), repo@, i as nat),
            decreases packages.len() - i,
        {
            self.emit_package_triples(writer, &packages[i], repo);
            assert(field_maps(packages@)[i as int] == packages@[i as int]@);
            i = i + 1;
        }
        writer.len() - start
    }

    /// Reads the index of a repository out of a downloaded file, and emits its
    /// packages.
    pub fn process_repo(&self, writer: &mut NTriplesWriter, repo: &str, bytes: &[u8]) -> (r: Result<
        (usize, usize),
        CollectError,
    >)
        ensures
            match repo_packages(bytes@) {
                Ok(records) => r is Ok && final(writer)@ == with_packages(
                    old(writer)@,
                    *self,
                    records,
                    repo@,
                    records.len(),
                ) && (r->Ok_0).0 == records.len() && (r->Ok_0).1 == final(writer)@.log.len()
                    - old(writer)@.log.len() && (r->Ok_0).0 <= (r->Ok_0).1,
                Err(e) => r is Err && r->Err_0@ == e && final(writer)@ == old(writer)@,
            },
    {
        match unpack_index(bytes) {
            Err(e) => Err(e),
            Ok(text) => {
                let packages: Vec<Fields> = parse_apkindex(&text);
                let n: usize = self.emit_packages(writer, &packages, repo);
                assert(field_maps(packages@).len() == packages@.len());
                Ok((packages.len(), n))
            },
        }
    }
}

// ---------------------------------------------------------------------------
// The security database

/// The vulnerabilities that a version of a package fixes.
pub struct SecFix {
    pub version: String,
    pub cves: Vec<String>,
}

/// What a [`SecFix`] says.
#[verifier::ext_equal]
pub struct Fix {
    pub version: Seq<char>,
    pub cves: Seq<Seq<char>>,
}

impl View for SecFix {
    type V = Fix;

    open spec fn view(&self) -> Fix {
        Fix {
            version: self.version@,
            cves: crate::text::views(self.cves@),
        }
    }
}

/// The views of a list of records.
pub open spec fn sec_fix_views(v: Seq<SecFix>) -> Seq<Fix> {
    v.map_values(|x: SecFix| x@)
}

/// A package in the security database.
pub struct SecdbPkg {
    pub name: String,
    pub secfixes: Vec<SecFix>,
}

/// What a [`SecdbPkg`] says.
#[verifier::ext_equal]
pub struct FixedPackage {
    pub name: Seq<char>,
    pub secfixes: Seq<Fix>,
}

impl View for SecdbPkg {
    type V = FixedPackage;

    open spec fn view(&self) -> FixedPackage {
        FixedPackage {
            name: self.name@,
            secfixes: sec_fix_views(self.secfixes@),
        }
    }
}

/// The views of a list of records.
pub open spec fn secdb_pkg_views(v: Seq<SecdbPkg>) -> Seq<FixedPackage> {
    v.map_values(|x: SecdbPkg| x@)
}

/// The security database of a repository.
pub struct SecdbDistro {
    pub packages: Vec<SecdbPkg>,
}

/// What a [`SecdbDistro`] says.
#[verifier::ext_equal]
pub struct SecurityDb {
    pub packages: Seq<FixedPackage>,
}

impl View for SecdbDistro {
    type V = SecurityDb;

    open spec fn view(&self) -> SecurityDb {
        SecurityDb {
            packages: secdb_pkg_views(self.packages@),
        }
    }
}

/// One vulnerability that a version of a package fixes. Entries that are no CVE
/// are skipped.
pub open spec fn with_secfix_cve(
    w: Sheet,
    c: AlpineCollector,
    name: Seq<char>,
    version: Seq<char>,
    id: Seq<char>,
) -> Sheet {
    let w = if starts_with(id, "CVE-"@) {
        let cve = DATA@ + "cve/"@ + encoded(id, Keep::Alphanumeric);
        let w = link(w, cve, RDF_TYPE@, SEC@ + "Vulnerability"@);
        let w = literal(w, cve, SEC@ + "cveId"@, id);
        let fixed = version_iri(c.distro_name@, c.branch@, name, version);
        let w = link(w, cve, SEC@ + "fixedInVersion"@, fixed);
        let identity = identity_iri(c.distro_name@, c.branch@, c.arch@, name);
        link(w, cve, SEC@ + "affectsPackage"@, identity)
    } else {
        w
    };
    w
}

/// The first `n` of `items`, in order.
pub open spec fn with_each_secfix_cve(
    w: Sheet,
    c: AlpineCollector,
    name: Seq<char>,
    version: Seq<char>,
    items: Seq<Seq<char>>,
    n: nat,
) -> Sheet
    decreases n,
{
    if n == 0 {
        w
    } else {
        with_secfix_cve(
            with_each_secfix_cve(w, c, name, version, items, (n - 1) as nat),
            c,
            name,
            version,
            items[n - 1],
        )
    }
}

impl AlpineCollector {
    /// One vulnerability that a version of a package fixes. Entries that are no CVE
    /// are skipped.
    pub fn emit_secfix_cve(
        &self,
        writer: &mut NTriplesWriter,
        name: &str,
        version: &str,
        id: &str,
    ) -> (r: usize)
        ensures
            final(writer)@ == with_secfix_cve(old(writer)@, *self, name@, version@, id@),
            r == final(writer)@.log.len() - old(writer)@.log.len(),
    {
        let start: usize = writer.len();
        if has_prefix(id, "CVE-") {
            let cve: String = cat3(DATA, "cve/", &percent_encoded(id, &Keep::Alphanumeric));
            writer.write_triple(&cve, RDF_TYPE, &cat2(SEC, "Vulnerability"));
            writer.write_literal(&cve, &cat2(SEC, "cveId"), id);
            let fixed: String = version_uri(&self.distro_name, &self.branch, name, version);
            writer.write_triple(&cve, &cat2(SEC, "fixedInVersion"), &fixed);
            let identity: String = package_identity_uri(
                &self.distro_name,
                &self.branch,
                &self.arch,
                name,
            );
            writer.write_triple(&cve, &cat2(SEC, "affectsPackage"), &identity);
        }
        writer.len() - start
    }
}

pub open spec fn with_secfix(w: Sheet, c: AlpineCollector, name: Seq<char>, fix: Fix) -> Sheet {
    with_each_secfix_cve(w, c, name, fix.version, fix.cves, fix.cves.len())
}

/// The first `n` of `items`, in order.
pub open spec fn with_each_secfix(
    w: Sheet,
    c: AlpineCollector,
    name: Seq<char>,
    items: Seq<Fix>,
    n: nat,
) -> Sheet
    decreases n,
{
    if n == 0 {
        w
    } else {
        with_secfix(with_each_secfix(w, c, name, items, (n - 1) as nat), c, name, items[n - 1])
    }
}

impl AlpineCollector {
    pub fn emit_secfix(&self, writer: &mut NTriplesWriter, name: &str, fix: &SecFix) -> (r: usize)
        ensures
            final(writer)@ == with_secfix(old(writer)@, *self, name@, fix@),
            r == final(writer)@.log.len() - old(writer)@.log.len(),
    {
        let start: usize = writer.len();
        let ghost before_secfix_cve = writer@;
        let mut i: usize = 0;
        while i < fix.cves.len()
            invariant
                i <= fix.cves.len(),
                before_secfix_cve.log.len() <= writer@.log.len(),
                writer@ == with_each_secfix_cve(
                    before_secfix_cve,
                    *self,
                    name@,
                    fix.version@,
                    views(fix.cves@),
                    i as nat,
                ),
            decreases fix.cves.len() - i,
        {
            self.emit_secfix_cve(writer, name, &fix.version, &fix.cves[i]);
            i = i + 1;
        }
        writer.len() - start
    }
}

pub open spec fn with_secdb_package(w: Sheet, c: AlpineCollector, package: FixedPackage) -> Sheet {
    with_each_secfix(w, c, package.name, package.secfixes, package.secfixes.len())
}

/// The first `n` of `items`, in order.
pub open spec fn with_each_secdb_package(
    w: Sheet,
    c: AlpineCollector,
    items: Seq<FixedPackage>,
    n: nat,
) -> Sheet
    decreases n,
{
    if n == 0 {
        w
    } else {
        with_secdb_package(with_each_secdb_package(w, c, items, (n - 1) as nat), c, items[n - 1])
    }
}

impl AlpineCollector {
    pub fn emit_secdb_package(&self, writer: &mut NTriplesWriter, package: &SecdbPkg) -> (r: usize)
        ensures
            final(writer)@ == with_secdb_package(old(writer)@, *self, package@),
            r == final(writer)@.log.len() - old(writer)@.log.len(),
    {
        let start: usize = writer.len();
        let ghost before_secfix = writer@;
        let mut i: usize = 0;
        while i < package.secfixes.len()
            invariant
                i <= package.secfixes.len(),
                before_secfix.log.len() <= writer@.log.len(),
                writer@ == with_each_secfix(
                    before_secfix,
                    *self,
                    package.name@,
                    sec_fix_views(package.secfixes@),
                    i as nat,
                ),
            decreases package.secfixes.len() - i,
        {
            self.emit_secfix(writer, &package.name, &package.secfixes[i]);
            i = i + 1;
        }
        writer.len() - start
    }
}

/// The vulnerabilities that the packages of a repository fix.
pub open spec fn with_secdb_triples(w: Sheet, c: AlpineCollector, db: SecurityDb) -> Sheet {
    with_each_secdb_package(w, c, db.packages, db.packages.len())
}

impl AlpineCollector {
    /// The vulnerabilities that the packages of a repository fix.
    pub fn emit_secdb_triples(&self, writer: &mut NTriplesWriter, db: &SecdbDistro) -> (r: usize)
        ensures
            final(writer)@ == with_secdb_triples(old(writer)@, *self, db@),
            r == final(writer)@.log.len() - old(writer)@.log.len(),
    {
        let start: usize = writer.len();
        let ghost before_secdb_package = writer@;
        let mut i: usize = 0;
        while i < db.packages.len()
            invariant
                i <= db.packages.len(),
                before_secdb_package.log.len() <= writer@.log.len(),
                writer@ == with_each_secdb_package(
                    before_secdb_package,
                    *self,
                    secdb_pkg_views(db.packages@),
                    i as nat,
                ),
            decreases db.packages.len() - i,
        {
            self.emit_secdb_package(writer, &db.packages[i]);
            i = i + 1;
        }
        writer.len() - start
    }
}

// ---------------------------------------------------------------------------
// A run

/// A downloaded index, or why there is none.
pub enum RepoIndex {
    Bytes(Vec<u8>),
    Failed(String),
}

/// A downloaded security database, or why there is none.
pub enum SecdbReply {
    Found(SecdbDistro),
    Failed(String),
}

pub open spec fn with_repo_error(w: Sheet, repo: Seq<char>, message: Seq<char>) -> Sheet {
    with_dq_issue(
        w,
        "alpine-collector"@,
        "repo_"@ + repo,
        message,
        "parse_error"@,
        "high"@,
    )
}

pub open spec fn with_repo(
    w: Sheet,
    c: AlpineCollector,
    repo: Seq<char>,
    index: RepoIndex,
) -> Sheet {
    match index {
        RepoIndex::Bytes(bytes) => match repo_packages(bytes@) {
            Ok(records) => with_packages(w, c, records, repo, records.len()),
            Err(e) => with_repo_error(w, repo, e.message),
        },
        RepoIndex::Failed(e) => with_repo_error(w, repo, e@),
    }
}

/// How many packages a repository gives.
pub open spec fn repo_count(index: RepoIndex) -> nat {
    match index {
        RepoIndex::Bytes(bytes) => match repo_packages(bytes@) {
            Ok(records) => records.len(),
            Err(e) => 0,
        },
        RepoIndex::Failed(e) => 0,
    }
}

pub open spec fn with_repos(
    w: Sheet,
    c: AlpineCollector,
    indexes: Seq<RepoIndex>,
    n: nat,
) -> Sheet
    decreases n,
{
    if n == 0 {
        w
    } else {
        with_repo(
            with_repos(w, c, indexes, (n - 1) as nat),
            c,
            c.repos@[n - 1]@,
            indexes[n - 1],
        )
    }
}

pub open spec fn repos_count(indexes: Seq<RepoIndex>, n: nat) -> nat
    decreases n,
{
    if n == 0 {
        0
    } else {
        repos_count(indexes, (n - 1) as nat) + repo_count(indexes[n - 1])
    }
}

pub open spec fn with_secdb(
    w: Sheet,
    c: AlpineCollector,
    repo: Seq<char>,
    reply: SecdbReply,
) -> Sheet {
    match reply {
        SecdbReply::Found(db) => with_secdb_triples(w, c, db@),
        SecdbReply::Failed(e) => with_dq_issue(
            w,
            "alpine-collector"@,
            "secdb_"@ + repo,
            e@,
            "fetch_error"@,
            "medium"@,
        ),
    }
}

pub open spec fn with_secdbs(
    w: Sheet,
    c: AlpineCollector,
    replies: Seq<SecdbReply>,
    n: nat,
) -> Sheet
    decreases n,
{
    if n == 0 {
        w
    } else {
        with_secdb(
            with_secdbs(w, c, replies, (n - 1) as nat),
            c,
            c.repos@[n - 1]@,
            replies[n - 1],
        )
    }
}

impl AlpineCollector {
    /// Emits what a repository gives; a failure is recorded as an issue.
    pub fn collect_repo(&self, writer: &mut NTriplesWriter, repo: &str, index: &RepoIndex) -> (r:
        usize)
        ensures
            final(writer)@ == with_repo(old(writer)@, *self, repo@, *index),
            r == repo_count(*index),
            r <= final(writer)@.log.len() - old(writer)@.log.len(),
    {
        let message: String = match index {
            RepoIndex::Bytes(bytes) => match self.process_repo(writer, repo, bytes) {
                Ok((packages, _triples)) => {
                    return packages;
                },
                Err(e) => e.message,
            },
            RepoIndex::Failed(e) => e.clone(),
        };
        emit_dq_issue(
            writer,
            "alpine-collector",
            &cat2("repo_", repo),
            &message,
            "parse_error",
            "high",
        );
        0
    }

    /// Emits the security databases of the repositories, one for each; a failure
    /// is recorded as an issue.
    pub fn collect_secdb(
        &self,
        writer: &mut NTriplesWriter,
        replies: &Vec<SecdbReply>,
    ) -> (r: usize)
        requires
            replies@.len() == self.repos@.len(),
        ensures
            final(writer)@ == with_secdbs(old(writer)@, *self, replies@, replies@.len()),
            r == final(writer)@.log.len() - old(writer)@.log.len(),
    {
        let start: usize = writer.len();
        let ghost before = writer@;
        let mut i: usize = 0;
        while i < replies.len()
            invariant
                i <= replies.len(),
                replies@.len() == self.repos@.len(),
                before.log.len() <= writer@.log.len(),
                writer@ == with_secdbs(before, *self, replies@, i as nat),
            decreases replies.len() - i,
        {
            match &replies[i] {
                SecdbReply::Found(db) => {
                    self.emit_secdb_triples(writer, db);
                },
                SecdbReply::Failed(e) => {
                    emit_dq_issue(
                        writer,
                        "alpine-collector",
                        &cat2("secdb_", &self.repos[i]),
                        e,
                        "fetch_error",
                        "medium",
                    );
                },
            }
            i = i + 1;
        }
        writer.len() - start
    }

    /// Emits everything that the repositories give: the distribution, the
    /// packages and the vulnerabilities. Returns how many packages there are, and
    /// how many statements beside those of the distribution.
    pub fn collect(
        &self,
        writer: &mut NTriplesWriter,
        indexes: &Vec<RepoIndex>,
        replies: &Vec<SecdbReply>,
    ) -> (r: (usize, usize))
        requires
            indexes@.len() == self.repos@.len(),
            replies@.len() == self.repos@.len(),
        ensures
            ({
                let head = with_distribution_metadata(old(writer)@, *self);
                let body = with_repos(head, *self, indexes@, indexes@.len());
                &&& final(writer)@ == with_secdbs(body, *self, replies@, replies@.len())
                &&& r.0 == repos_count(indexes@, indexes@.len())
                &&& r.1 == final(writer)@.log.len() - head.log.len()
            }),
    {
        self.emit_distribution_metadata(writer);
        let start: usize = writer.len();
        let ghost head = writer@;
        let mut packages: usize = 0;
        let mut i: usize = 0;
        while i < indexes.len()
            invariant
                i <= indexes.len(),
                indexes@.len() == self.repos@.len(),
                head.log.len() + packages <= writer@.log.len(),
                packages == repos_count(indexes@, i as nat),
                writer@ == with_repos(head, *self, indexes@, i as nat),
            decreases indexes.len() - i,
        {
            let n: usize = self.collect_repo(writer, &self.repos[i], &indexes[i]);
            let now: usize = writer.len();
            assert(packages + n <= now);
            packages = packages + n;
            i = i + 1;
        }
        self.collect_secdb(writer, replies);
        (packages, writer.len() - start)
    }
}

} // verus!
