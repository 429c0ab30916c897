//! Conda channels.

use crate::ecosystem::chop_prefix;
use crate::ntriples::{
    bnode_id, bnode_label, bnode_literal, bnode_object, bnode_subject, bnode_to_bnode, link,
    literal, literal_if, number_if, pkg, NTriplesWriter, Sheet, PKG,
};
use crate::pattern::{captures, group_or_empty, group_text, maybe_groups, regex_captures};
use crate::split::{trim, trim_end_char, trimmed, trimmed_end_char};
use crate::text::{
    cat2, cat3, cat4, empty, has_item, has_prefix, opt, same, starts_with, views,
    without_prefix,
};
use crate::uris::{
    dep_type_iri, dep_type_uri, distro_iri, distro_uri, ecosystem_iri, ecosystem_uri, identity_iri,
    package_identity_uri, package_iri, package_uri, release_iri, release_uri, spdx_iri,
    spdx_license_uri, version_iri, version_uri, CONDA, RDFS_LABEL, RDF_TYPE,
};
use vstd::prelude::*;

verus! {

broadcast use crate::text::lemma_views_push;

/// The pattern that takes a dependency apart: a name and a constraint.
pub const REQUIREMENT: &'static str = r"^([a-zA-Z0-9_.-]+)\s*(.*)$";

/// A collector of one subdirectory of a channel.
pub struct CondaCollector {
    pub distro_name: String,
    pub release_name: String,
    pub channel_url: String,
    pub subdir: String,
    pub graph_uri: Option<String>,
}

/// A package of a channel.
pub struct CondaPackageEntry {
    pub name: String,
    pub version: String,
    pub build: Option<String>,
    pub build_number: Option<i64>,
    pub depends: Vec<String>,
    pub license: Option<String>,
    pub subdir: Option<String>,
    pub timestamp: Option<i64>,
    pub md5: Option<String>,
    pub sha256: Option<String>,
    pub size: Option<i64>,
}

/// What a [`CondaPackageEntry`] says.
#[verifier::ext_equal]
pub struct CondaPackage {
    pub name: Seq<char>,
    pub version: Seq<char>,
    pub build: Option<Seq<char>>,
    pub build_number: Option<i64>,
    pub depends: Seq<Seq<char>>,
    pub license: Option<Seq<char>>,
    pub subdir: Option<Seq<char>>,
    pub timestamp: Option<i64>,
    pub md5: Option<Seq<char>>,
    pub sha256: Option<Seq<char>>,
    pub size: Option<i64>,
}

impl View for CondaPackageEntry {
    type V = CondaPackage;

    open spec fn view(&self) -> CondaPackage {
        CondaPackage {
            name: self.name@,
            version: self.version@,
            build: crate::text::opt(self.build),
            build_number: self.build_number,
            depends: crate::text::views(self.depends@),
            license: crate::text::opt(self.license),
            subdir: crate::text::opt(self.subdir),
            timestamp: self.timestamp,
            md5: crate::text::opt(self.md5),
            sha256: crate::text::opt(self.sha256),
            size: self.size,
        }
    }
}

/// The views of a list of records.
pub open spec fn conda_package_entry_views(v: Seq<CondaPackageEntry>) -> Seq<CondaPackage> {
    v.map_values(|x: CondaPackageEntry| x@)
}

/// A requirement of a package.
pub struct Requirement {
    pub name: String,
    pub constraint: String,
}

/// What a [`Requirement`] says.
#[verifier::ext_equal]
pub struct Needed {
    pub name: Seq<char>,
    pub constraint: Seq<char>,
}

impl View for Requirement {
    type V = Needed;

    open spec fn view(&self) -> Needed {
        Needed {
            name: self.name@,
            constraint: self.constraint@,
        }
    }
}

/// The requirement in the groups of [`REQUIREMENT`].
pub open spec fn needed_in(groups: Option<Seq<Option<Seq<char>>>>) -> Option<Needed> {
    match groups {
        Some(g) => Some(Needed { name: group_text(g, 1), constraint: trim(group_text(g, 2)) }),
        None => None,
    }
}

pub open spec fn needed_view(r: Option<Requirement>) -> Option<Needed> {
    match r {
        Some(x) => Some(x@),
        None => None,
    }
}

pub fn split_requirement(groups: &Option<Vec<Option<String>>>) -> (r: Option<Requirement>)
    ensures
        needed_view(r) == needed_in(maybe_groups(*groups)),
{
    match groups {
        Some(g) => Some(
            Requirement { name: group_or_empty(g, 1), constraint: trimmed(&group_or_empty(g, 2)) },
        ),
        None => None,
    }
}

/// The requirement that a text states, where it states one.
pub open spec fn needed(text: Seq<char>) -> Option<Needed> {
    needed_in(regex_captures(REQUIREMENT@, text))
}

fn requirement_in(text: &str) -> (r: Option<Requirement>)
    ensures
        needed_view(r) == needed(text@),
{
    split_requirement(&captures(REQUIREMENT, text))
}

/// Whether one of the first `n` requirements is on Python.
pub open spec fn wants_python(depends: Seq<Seq<char>>, n: nat) -> bool
    decreases n,
{
    if n == 0 {
        false
    } else {
        ||| wants_python(depends, (n - 1) as nat)
        ||| match needed(depends[n - 1]) {
            Some(x) => starts_with(x.name, "python"@),
            None => false,
        }
    }
}

fn needs_python(depends: &Vec<String>) -> (r: bool)
    ensures
        r == wants_python(views(depends@), depends@.len()),
{
    let mut found: bool = false;
    let mut i: usize = 0;
    while i < depends.len()
        invariant
            i <= depends.len(),
            found == wants_python(views(depends@), i as nat),
        decreases depends.len() - i,
    {
        assert(views(depends@)[i as int] == depends@[i as int]@);
        if let Some(x) = requirement_in(&depends[i]) {
            if has_prefix(&x.name, "python") {
                found = true;
            }
        }
        i = i + 1;
    }
    found
}

/// The ecosystem that a package of a channel comes from.
pub open spec fn upstream_of(name: Seq<char>, python: bool) -> Option<Seq<char>> {
    if python {
        Some("pypi"@)
    } else if starts_with(name, "r-"@) {
        Some("cran"@)
    } else if starts_with(name, "rust-"@) {
        Some("cargo"@)
    } else {
        None
    }
}

/// The name of a package in the ecosystem that it comes from.
pub open spec fn upstream_name(name: Seq<char>) -> Seq<char> {
    if starts_with(name, "r-"@) {
        chop_prefix(name, "r-"@)
    } else if starts_with(name, "rust-"@) {
        chop_prefix(name, "rust-"@)
    } else {
        name
    }
}

pub fn detect_upstream(name: &str, python: bool) -> (r: Option<String>)
    ensures
        opt(r) == upstream_of(name@, python),
{
    if python {
        Some("pypi".to_owned())
    } else if has_prefix(name, "r-") {
        Some("cran".to_owned())
    } else if has_prefix(name, "rust-") {
        Some("cargo".to_owned())
    } else {
        None
    }
}

pub fn name_upstream(name: &str) -> (r: String)
    ensures
        r@ == upstream_name(name@),
{
    if let Some(rest) = without_prefix(name, "r-") {
        return rest;
    }
    if let Some(rest) = without_prefix(name, "rust-") {
        return rest;
    }
    name.to_owned()
}

/// The channel as a distribution, and its one release.
pub open spec fn with_distribution_metadata(w: Sheet, c: CondaCollector) -> Sheet {
    let dist = distro_iri(c.distro_name@);
    let rel = release_iri(c.distro_name@, c.release_name@);
    let w = link(w, dist, RDF_TYPE@, pkg("Distribution"@));
    let w = literal(w, dist, RDFS_LABEL@, "Conda"@);
    let w = literal(w, dist, pkg("projectName"@), "conda-forge"@);
    let w = link(w, rel, RDF_TYPE@, pkg("DistributionRelease"@));
    let w = literal(w, rel, pkg("releaseCodename"@), "conda-forge"@);
    link(w, rel, pkg("partOfDistribution"@), dist)
}

impl CondaCollector {
    /// The channel as a distribution, and its one release.
    pub fn emit_distribution_metadata(&self, writer: &mut NTriplesWriter) -> (r: usize)
        ensures
            final(writer)@ == with_distribution_metadata(old(writer)@, *self),
            r == final(writer)@.log.len() - old(writer)@.log.len(),
    {
        let start: usize = writer.len();
        let dist: String = distro_uri(&self.distro_name);
        let rel: String = release_uri(&self.distro_name, &self.release_name);
        writer.write_triple(&dist, RDF_TYPE, &cat2(PKG, "Distribution"));
        writer.write_literal(&dist, RDFS_LABEL, "Conda");
        writer.write_literal(&dist, &cat2(PKG, "projectName"), "conda-forge");
        writer.write_triple(&rel, RDF_TYPE, &cat2(PKG, "DistributionRelease"));
        writer.write_literal(&rel, &cat2(PKG, "releaseCodename"), "conda-forge");
        writer.write_triple(&rel, &cat2(PKG, "partOfDistribution"), &dist);
        writer.len() - start
    }
}

/// One requirement of a package, as a link and as a node of its own.
pub open spec fn with_requirement(
    w: Sheet,
    c: CondaCollector,
    package: Seq<char>,
    need: Needed,
) -> Sheet {
    let target = identity_iri(c.distro_name@, c.release_name@, c.subdir@, need.name);
    let w = link(w, package, pkg("directlyDependsOn"@), target);
    let node = bnode_label("depends"@, package + "-"@ + need.name);
    let w = bnode_object(w, package, pkg("hasDependency"@), node);
    let w = bnode_subject(w, node, RDF_TYPE@, pkg("Dependency"@));
    let w = bnode_subject(w, node, pkg("dependencyTarget"@), target);
    let w = bnode_subject(w, node, pkg("dependencyType"@), dep_type_iri("run"@));
    let w = if need.constraint.len() > 0 {
        let limit = bnode_label("constraint"@, package + "-"@ + need.name);
        let w = bnode_to_bnode(w, node, pkg("hasVersionConstraint"@), limit);
        let w = bnode_subject(w, limit, RDF_TYPE@, pkg("VersionConstraint"@));
        let w = bnode_literal(w, limit, pkg("versionConstraintOperator"@), "conda"@);
        bnode_literal(w, limit, pkg("versionConstraintValue"@), need.constraint)
    } else {
        w
    };
    w
}

impl CondaCollector {
    /// One requirement of a package, as a link and as a node of its own.
    pub fn emit_requirement(
        &self,
        writer: &mut NTriplesWriter,
        package: &str,
        need: &Requirement,
    ) -> (r: usize)
        ensures
            final(writer)@ == with_requirement(old(writer)@, *self, package@, need@),
            r == final(writer)@.log.len() - old(writer)@.log.len(),
    {
        let start: usize = writer.len();
        let target: String = package_identity_uri(
            &self.distro_name,
            &self.release_name,
            &self.subdir,
            &need.name,
        );
        writer.write_triple(package, &cat2(PKG, "directlyDependsOn"), &target);
        let node: String = bnode_id("depends", &cat3(package, "-", &need.name));
        writer.write_bnode_object(package, &cat2(PKG, "hasDependency"), &node);
        writer.write_bnode_subject(&node, RDF_TYPE, &cat2(PKG, "Dependency"));
        writer.write_bnode_subject(&node, &cat2(PKG, "dependencyTarget"), &target);
        writer.write_bnode_subject(&node, &cat2(PKG, "dependencyType"), &dep_type_uri("run"));
        if !empty(&need.constraint) {
            let limit: String = bnode_id("constraint", &cat3(package, "-", &need.name));
            writer.write_bnode_to_bnode(&node, &cat2(PKG, "hasVersionConstraint"), &limit);
            writer.write_bnode_subject(&limit, RDF_TYPE, &cat2(PKG, "VersionConstraint"));
            writer.write_bnode_literal(&limit, &cat2(PKG, "versionConstraintOperator"), "conda");
            writer.write_bnode_literal(
                &limit,
                &cat2(PKG, "versionConstraintValue"),
                &need.constraint,
            );
        }
        writer.len() - start
    }
}

/// What a text that states a requirement gives; nothing where it states none.
pub open spec fn with_stated_requirement(
    w: Sheet,
    c: CondaCollector,
    package: Seq<char>,
    text: Seq<char>,
) -> Sheet {
    let w = match needed(text) {
        Some(need) => {
            with_requirement(w, c, package, need)
        },
        None => w,
    };
    w
}

/// The first `n` of `items`, in order.
pub open spec fn with_each_stated_requirement(
    w: Sheet,
    c: CondaCollector,
    package: Seq<char>,
    items: Seq<Seq<char>>,
    n: nat,
) -> Sheet
    decreases n,
{
    if n == 0 {
        w
    } else {
        with_stated_requirement(
            with_each_stated_requirement(w, c, package, items, (n - 1) as nat),
            c,
            package,
            items[n - 1],
        )
    }
}

impl CondaCollector {
    /// What a text that states a requirement gives; nothing where it states none.
    pub fn emit_stated_requirement(
        &self,
        writer: &mut NTriplesWriter,
        package: &str,
        text: &str,
    ) -> (r: usize)
        ensures
            final(writer)@ == with_stated_requirement(old(writer)@, *self, package@, text@),
            r == final(writer)@.log.len() - old(writer)@.log.len(),
    {
        let start: usize = writer.len();
        if let Some(need) = requirement_in(text) {
            self.emit_requirement(writer, package, &need);
        }
        writer.len() - start
    }
}

/// The ecosystem that a package comes from, and its name there.
pub open spec fn with_upstream(
    w: Sheet,
    package: Seq<char>,
    name: Seq<char>,
    ecosystem: Seq<char>,
) -> Sheet {
    let node = ecosystem_iri(ecosystem);
    let w = link(w, package, pkg("upstreamEcosystem"@), node);
    let w = link(w, node, RDF_TYPE@, pkg("Ecosystem"@));
    let upstream = upstream_name(name);
    literal(w, package, pkg("upstreamPackageName"@), upstream)
}

/// The ecosystem that a package comes from, and its name there.
pub fn emit_upstream(
    writer: &mut NTriplesWriter,
    package: &str,
    name: &str,
    ecosystem: &str,
) -> (r: usize)
    ensures
        final(writer)@ == with_upstream(old(writer)@, package@, name@, ecosystem@),
        r == final(writer)@.log.len() - old(writer)@.log.len(),
{
    let start: usize = writer.len();
    let node: String = ecosystem_uri(ecosystem);
    writer.write_triple(package, &cat2(PKG, "upstreamEcosystem"), &node);
    writer.write_triple(&node, RDF_TYPE, &cat2(PKG, "Ecosystem"));
    let upstream: String = name_upstream(name);
    writer.write_literal(package, &cat2(PKG, "upstreamPackageName"), &upstream);
    writer.len() - start
}

/// What describes a package by itself.
pub open spec fn with_package_core(
    w: Sheet,
    c: CondaCollector,
    package: Seq<char>,
    entry: CondaPackage,
) -> Sheet {
    let identity = identity_iri(c.distro_name@, c.release_name@, c.subdir@, entry.name);
    let w = link(w, package, RDF_TYPE@, pkg("Package"@));
    let w = link(w, package, RDF_TYPE@, CONDA@ + "CondaPackage"@);
    let w = link(w, identity, RDF_TYPE@, pkg("PackageIdentity"@));
    let w = literal(w, identity, pkg("packageName"@), entry.name);
    let w = link(w, package, pkg("isVersionOf"@), identity);
    let w = literal(w, package, pkg("packageName"@), entry.name);
    let ver = version_iri(c.distro_name@, c.release_name@, entry.name, entry.version);
    let w = link(w, ver, RDF_TYPE@, pkg("Version"@));
    let w = literal(w, ver, pkg("versionString"@), entry.version);
    let w = link(w, package, pkg("hasVersion"@), ver);
    let dist = distro_iri(c.distro_name@);
    let w = link(w, package, pkg("partOfDistribution"@), dist);
    let w = literal_if(w, package, CONDA@ + "buildString"@, entry.build);
    let w = number_if(w, package, CONDA@ + "buildNumber"@, entry.build_number);
    let w = match entry.license {
        Some(license) => {
            let w = literal(w, package, pkg("licenseName"@), license);
            let node = spdx_iri(license);
            let w = link(w, package, pkg("hasLicense"@), node);
            link(w, node, RDF_TYPE@, pkg("License"@))
        },
        None => w,
    };
    let w = literal_if(w, package, CONDA@ + "subdirectory"@, entry.subdir);
    let w = number_if(w, package, CONDA@ + "timestamp"@, entry.timestamp);
    let w = literal_if(w, package, pkg("checksum"@), entry.sha256);
    number_if(w, package, pkg("packageSize"@), entry.size)
}

impl CondaCollector {
    /// What describes a package by itself.
    pub fn emit_package_core(
        &self,
        writer: &mut NTriplesWriter,
        package: &str,
        entry: &CondaPackageEntry,
    ) -> (r: usize)
        ensures
            final(writer)@ == with_package_core(old(writer)@, *self, package@, entry@),
            r == final(writer)@.log.len() - old(writer)@.log.len(),
            r >= 1,
    {
        let start: usize = writer.len();
        let identity: String = package_identity_uri(
            &self.distro_name,
            &self.release_name,
            &self.subdir,
            &entry.name,
        );
        writer.write_triple(package, RDF_TYPE, &cat2(PKG, "Package"));
        writer.write_triple(package, RDF_TYPE, &cat2(CONDA, "CondaPackage"));
        writer.write_triple(&identity, RDF_TYPE, &cat2(PKG, "PackageIdentity"));
        writer.write_literal(&identity, &cat2(PKG, "packageName"), &entry.name);
        writer.write_triple(package, &cat2(PKG, "isVersionOf"), &identity);
        writer.write_literal(package, &cat2(PKG, "packageName"), &entry.name);
        let ver: String = version_uri(
            &self.distro_name,
            &self.release_name,
            &entry.name,
            &entry.version,
        );
        writer.write_triple(&ver, RDF_TYPE, &cat2(PKG, "Version"));
        writer.write_literal(&ver, &cat2(PKG, "versionString"), &entry.version);
        writer.write_triple(package, &cat2(PKG, "hasVersion"), &ver);
        let dist: String = distro_uri(&self.distro_name);
        writer.write_triple(package, &cat2(PKG, "partOfDistribution"), &dist);
        writer.write_literal_if(package, &cat2(CONDA, "buildString"), &entry.build);
        writer.write_integer_if(package, &cat2(CONDA, "buildNumber"), entry.build_number);
        if let Some(license) = &entry.license {
            writer.write_literal(package, &cat2(PKG, "licenseName"), license);
            let node: String = spdx_license_uri(license);
            writer.write_triple(package, &cat2(PKG, "hasLicense"), &node);
            writer.write_triple(&node, RDF_TYPE, &cat2(PKG, "License"));
        }
        writer.write_literal_if(package, &cat2(CONDA, "subdirectory"), &entry.subdir);
        writer.write_integer_if(package, &cat2(CONDA, "timestamp"), entry.timestamp);
        writer.write_literal_if(package, &cat2(PKG, "checksum"), &entry.sha256);
        writer.write_integer_if(package, &cat2(PKG, "packageSize"), entry.size);
        writer.len() - start
    }
}

/// Everything that the entry of a package gives.
pub open spec fn with_package_triples(w: Sheet, c: CondaCollector, entry: CondaPackage) -> Sheet {
    let package = package_iri(
        c.distro_name@,
        c.release_name@,
        c.subdir@,
        entry.name,
        entry.version,
    );
    let w = with_package_core(w, c, package, entry);
    let w = with_each_stated_requirement(w, c, package, entry.depends, entry.depends.len());
    let w = match upstream_of(entry.name, wants_python(entry.depends, entry.depends.len())) {
        Some(ecosystem) => {
            with_upstream(w, package, entry.name, ecosystem)
        },
        None => w,
    };
    w
}

impl CondaCollector {
    /// Everything that the entry of a package gives.
    pub fn emit_package_triples(
        &self,
        writer: &mut NTriplesWriter,
        entry: &CondaPackageEntry,
    ) -> (r: usize)
        ensures
            final(writer)@ == with_package_triples(old(writer)@, *self, entry@),
            r == final(writer)@.log.len() - old(writer)@.log.len(),
            r >= 1,
    {
        let start: usize = writer.len();
        let package: String = package_uri(
            &self.distro_name,
            &self.release_name,
            &self.subdir,
            &entry.name,
            &entry.version,
        );
        self.emit_package_core(writer, &package, entry);
        let ghost before_stated_requirement = writer@;
        let mut i: usize = 0;
        while i < entry.depends.len()
            invariant
                i <= entry.depends.len(),
                before_stated_requirement.log.len() <= writer@.log.len(),
                writer@ == with_each_stated_requirement(
                    before_stated_requirement,
                    *self,
                    package@,
                    views(entry.depends@),
                    i as nat,
                ),
            decreases entry.depends.len() - i,
        {
            self.emit_stated_requirement(writer, &package, &entry.depends[i]);
            i = i + 1;
        }
        if let Some(ecosystem) = detect_upstream(&entry.name, needs_python(&entry.depends)) {
            emit_upstream(writer, &package, &entry.name, &ecosystem);
        }
        writer.len() - start
    }
}

// ---------------------------------------------------------------------------
// A run

/// The key under which the files of a package count as one: its name and version.
pub open spec fn entry_key(e: CondaPackage) -> (Seq<char>, Seq<char>) {
    (e.name, e.version)
}

/// Whether an entry is taken: it is asked for, and no entry before it has its
/// key and was asked for.
pub open spec fn taken(
    entries: Seq<CondaPackage>,
    wanted: Option<Seq<Seq<char>>>,
    i: int,
) -> bool {
    &&& asked_for(wanted, entries[i].name)
    &&& forall|j: int|
        0 <= j < i ==> !(asked_for(wanted, (#[trigger] entries[j]).name) && entry_key(entries[j])
            == entry_key(entries[i]))
}

/// Whether a name is asked for; without a list every name is.
pub open spec fn asked_for(wanted: Option<Seq<Seq<char>>>, name: Seq<char>) -> bool {
    match wanted {
        Some(names) => names.contains(name),
        None => true,
    }
}

/// Whether one of the entries at these indexes has the key of entry `i`.
pub open spec fn known_at(entries: Seq<CondaPackage>, seen: Seq<usize>, i: int) -> bool {
    exists|k: int|
        0 <= k < seen.len() && entry_key(entries[#[trigger] seen[k] as int]) == entry_key(
            entries[i],
        )
}

/// Whether these indexes are of entries before `i` that are asked for, and each key
/// of such an entry is at one of them.
pub open spec fn are_seen(
    entries: Seq<CondaPackage>,
    wanted: Option<Seq<Seq<char>>>,
    seen: Seq<usize>,
    i: int,
) -> bool {
    &&& i <= entries.len()
    &&& forall|k: int|
        0 <= k < seen.len() ==> (#[trigger] seen[k]) < i && asked_for(
            wanted,
            entries[seen[k] as int].name,
        )
    &&& forall|j: int|
        0 <= j < i && asked_for(wanted, (#[trigger] entries[j]).name) ==> known_at(
            entries,
            seen,
            j,
        )
}

proof fn lemma_known_is_not_taken(
    entries: Seq<CondaPackage>,
    wanted: Option<Seq<Seq<char>>>,
    seen: Seq<usize>,
    i: int,
)
    requires
        0 <= i < entries.len(),
        are_seen(entries, wanted, seen, i),
    ensures
        taken(entries, wanted, i) <==> asked_for(wanted, entries[i].name) && !known_at(
            entries,
            seen,
            i,
        ),
{
    if known_at(entries, seen, i) {
        let k = choose|k: int|
            0 <= k < seen.len() && entry_key(entries[#[trigger] seen[k] as int]) == entry_key(
                entries[i],
            );
        let earlier = entries[seen[k] as int];
        assert(asked_for(wanted, earlier.name));
    } else {
        assert forall|j: int| 0 <= j < i implies !(asked_for(wanted, (#[trigger] entries[j]).name)
            && entry_key(entries[j]) == entry_key(entries[i])) by {
            if asked_for(wanted, entries[j].name) && entry_key(entries[j]) == entry_key(entries[i]) {
                assert(known_at(entries, seen, j));
                let k = choose|k: int|
                    0 <= k < seen.len() && entry_key(entries[#[trigger] seen[k] as int])
                        == entry_key(entries[j]);
                assert(entry_key(entries[seen[k] as int]) == entry_key(entries[i]));
            }
        }
    }
}

proof fn lemma_seen_step(
    entries: Seq<CondaPackage>,
    wanted: Option<Seq<Seq<char>>>,
    seen: Seq<usize>,
    i: int,
)
    requires
        0 <= i < entries.len(),
        i <= usize::MAX,
        are_seen(entries, wanted, seen, i),
    ensures
        are_seen(
            entries,
            wanted,
            if taken(entries, wanted, i) {
                seen.push(i as usize)
            } else {
                seen
            },
            i + 1,
        ),
{
    lemma_known_is_not_taken(entries, wanted, seen, i);
    let next = if taken(entries, wanted, i) {
        seen.push(i as usize)
    } else {
        seen
    };
    assert forall|j: int| 0 <= j < i + 1 && asked_for(wanted, (#[trigger] entries[j]).name) implies
        known_at(entries, next, j) by {
        if j < i {
            assert(known_at(entries, seen, j));
            let k = choose|k: int|
                0 <= k < seen.len() && entry_key(entries[#[trigger] seen[k] as int]) == entry_key(
                    entries[j],
                );
            assert(next[k] == seen[k]);
        } else if taken(entries, wanted, i) {
            assert(next[seen.len() as int] == i);
        }
    }
}

fn is_known(entries: &Vec<CondaPackageEntry>, seen: &Vec<usize>, i: usize) -> (r: bool)
    requires
        i < entries@.len(),
        forall|k: int| 0 <= k < seen@.len() ==> (#[trigger] seen@[k]) < entries@.len(),
    ensures
        r == known_at(conda_package_entry_views(entries@), seen@, i as int),
{
    let ghost all = conda_package_entry_views(entries@);
    let mut k: usize = 0;
    while k < seen.len()
        invariant
            k <= seen@.len(),
            i < entries@.len(),
            all == conda_package_entry_views(entries@),
            forall|m: int| 0 <= m < seen@.len() ==> (#[trigger] seen@[m]) < entries@.len(),
            forall|m: int|
                0 <= m < k ==> entry_key(all[#[trigger] seen@[m] as int]) != entry_key(
                    all[i as int],
                ),
        decreases seen@.len() - k,
    {
        let earlier: &CondaPackageEntry = &entries[seen[k]];
        assert(all[seen@[k as int] as int] == earlier@);
        assert(all[i as int] == entries@[i as int]@);
        if same(&earlier.name, &entries[i].name) && same(&earlier.version, &entries[i].version) {
            assert(entry_key(all[seen@[k as int] as int]) == entry_key(all[i as int]));
            return true;
        }
        k = k + 1;
    }
    false
}

pub open spec fn with_entries(
    w: Sheet,
    c: CondaCollector,
    entries: Seq<CondaPackage>,
    wanted: Option<Seq<Seq<char>>>,
    n: nat,
) -> Sheet
    decreases n,
{
    if n == 0 {
        w
    } else {
        let before = with_entries(w, c, entries, wanted, (n - 1) as nat);
        if taken(entries, wanted, n - 1) {
            with_package_triples(before, c, entries[n - 1])
        } else {
            before
        }
    }
}

/// How many of the first `n` entries are taken.
pub open spec fn taken_count(
    entries: Seq<CondaPackage>,
    wanted: Option<Seq<Seq<char>>>,
    n: nat,
) -> nat
    decreases n,
{
    if n == 0 {
        0
    } else {
        taken_count(entries, wanted, (n - 1) as nat) + if taken(entries, wanted, n - 1) {
            1nat
        } else {
            0nat
        }
    }
}

pub open spec fn wanted_view(names: Option<&Vec<String>>) -> Option<Seq<Seq<char>>> {
    match names {
        Some(v) => Some(views(v@)),
        None => None,
    }
}

/// Where the index of a channel is.
pub open spec fn repodata_url(c: CondaCollector) -> Seq<char> {
    trim_end_char(c.channel_url@, '/') + "/"@ + c.subdir@ + "/repodata.json"@
}

impl CondaCollector {
    pub fn new(
        distro_name: String,
        release_name: String,
        channel_url: String,
        subdir: String,
    ) -> (r: Self)
        ensures
            r.distro_name == distro_name,
            r.release_name == release_name,
            r.channel_url == channel_url,
            r.subdir == subdir,
            r.graph_uri is None,
    {
        CondaCollector { distro_name, release_name, channel_url, subdir, graph_uri: None }
    }

    /// The collector with the graph that its statements belong to.
    pub fn with_graph(self, graph_uri: Option<String>) -> (r: Self)
        ensures
            r == (CondaCollector { graph_uri, ..self }),
    {
        CondaCollector {
            distro_name: self.distro_name,
            release_name: self.release_name,
            channel_url: self.channel_url,
            subdir: self.subdir,
            graph_uri,
        }
    }

    pub fn index_url(&self) -> (r: String)
        ensures
            r@ == repodata_url(*self),
    {
        cat4(&trimmed_end_char(&self.channel_url, '/'), "/", &self.subdir, "/repodata.json")
    }

    /// Emits the entries that are asked for, one for each name and version.
    fn emit_entries(
        &self,
        writer: &mut NTriplesWriter,
        entries: &Vec<CondaPackageEntry>,
        wanted: Option<&Vec<String>>,
    ) -> (r: (usize, usize))
        ensures
            ({
                let all = conda_package_entry_views(entries@);
                let head = with_distribution_metadata(old(writer)@, *self);
                &&& final(writer)@ == with_entries(
                    head,
                    *self,
                    all,
                    wanted_view(wanted),
                    all.len(),
                )
                &&& r.0 == taken_count(all, wanted_view(wanted), all.len())
                &&& r.1 == final(writer)@.log.len() - head.log.len()
            }),
    {
        self.emit_distribution_metadata(writer);
        let start: usize = writer.len();
        let ghost head = writer@;
        let ghost all = conda_package_entry_views(entries@);
        let ghost names = wanted_view(wanted);
        let mut seen: Vec<usize> = Vec::new();
        let mut packages: usize = 0;
        let mut i: usize = 0;
        while i < entries.len()
            invariant
                i <= entries.len(),
                all == conda_package_entry_views(entries@),
                names == wanted_view(wanted),
                packages <= i,
                head.log.len() <= writer@.log.len(),
                packages == taken_count(all, names, i as nat),
                are_seen(all, names, seen@, i as int),
                writer@ == with_entries(head, *self, all, names, i as nat),
            decreases entries.len() - i,
        {
            let entry: &CondaPackageEntry = &entries[i];
            let ghost was = seen@;
            assert(all[i as int] == entry@);
            let asked: bool = match wanted {
                Some(list) => has_item(list, &entry.name),
                None => true,
            };
            let known: bool = is_known(entries, &seen, i);
            proof {
                lemma_known_is_not_taken(all, names, seen@, i as int);
            }
            if asked && !known {
                seen.push(i);
                self.emit_package_triples(writer, entry);
                packages = packages + 1;
            }
            proof {
                lemma_seen_step(all, names, was, i as int);
                assert(seen@ == if asked && !known {
                    was.push(i)
                } else {
                    was
                });
            }
            i = i + 1;
        }
        (packages, writer.len() - start)
    }

    /// Emits a channel: the files of a package count once.
    pub fn collect_full(
        &self,
        writer: &mut NTriplesWriter,
        entries: &Vec<CondaPackageEntry>,
    ) -> (r: (usize, usize))
        ensures
            ({
                let all = conda_package_entry_views(entries@);
                let head = with_distribution_metadata(old(writer)@, *self);
                &&& final(writer)@ == with_entries(head, *self, all, None, all.len())
                &&& r.0 == taken_count(all, None, all.len())
                &&& r.1 == final(writer)@.log.len() - head.log.len()
            }),
    {
        self.emit_entries(writer, entries, None)
    }

    /// Emits the packages of a channel that a list names.
    pub fn collect_seeded(
        &self,
        writer: &mut NTriplesWriter,
        names: &Vec<String>,
        entries: &Vec<CondaPackageEntry>,
    ) -> (r: (usize, usize))
        ensures
            ({
                let all = conda_package_entry_views(entries@);
                let head = with_distribution_metadata(old(writer)@, *self);
                let wanted = Some(views(names@));
                &&& final(writer)@ == with_entries(head, *self, all, wanted, all.len())
                &&& r.0 == taken_count(all, wanted, all.len())
                &&& r.1 == final(writer)@.log.len() - head.log.len()
            }),
    {
        self.emit_entries(writer, entries, Some(names))
    }
}

/// Nothing that is asked for is lost: for each entry that is, one with its name and
/// version is taken.
pub proof fn lemma_each_is_taken(
    entries: Seq<CondaPackage>,
    wanted: Option<Seq<Seq<char>>>,
    i: int,
)
    requires
        0 <= i < entries.len(),
        asked_for(wanted, entries[i].name),
    ensures
        exists|j: int|
            0 <= j <= i && #[trigger] taken(entries, wanted, j) && entries[j].name
                == entries[i].name && entries[j].version == entries[i].version,
    decreases i,
{
    if !taken(entries, wanted, i) {
        let j = choose|j: int|
            0 <= j < i && asked_for(wanted, (#[trigger] entries[j]).name) && entry_key(entries[j])
                == entry_key(entries[i]);
        lemma_each_is_taken(entries, wanted, j);
    }
}

/// No two entries that are taken have the same name and version.
pub proof fn lemma_taken_once(
    entries: Seq<CondaPackage>,
    wanted: Option<Seq<Seq<char>>>,
    i: int,
    j: int,
)
    requires
        0 <= i < j < entries.len(),
        taken(entries, wanted, i),
        taken(entries, wanted, j),
    ensures
        entries[i].name != entries[j].name || entries[i].version != entries[j].version,
{
}

} // verus!
