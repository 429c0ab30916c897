//! The shared emitter: statements from package records.

use crate::forge::{emit_upstream_project, extract_forge_url, forge_url, with_upstream_project};
use crate::ir::{
    dependency_ir_views, maintainer_ir_views, DependencyIr, Depends, MaintainerIr, Maintains,
    Metadata, Named, PackageInfo, PackageIr, PackageMetadataIr, Record, Scope, ScopeIr,
    SourcePackageRef, SourceRef,
};
use crate::ntriples::{
    bnode_id, bnode_label, bnode_literal, bnode_object, bnode_subject, define, link, literal,
    number, pkg, Fact, NTriplesWriter, Sheet, PKG,
};
use crate::text::{cat2, cat3, contains, empty, has_text, opt};
use crate::uris::{
    arch_iri, arch_uri, dep_type_iri, dep_type_uri, distgit_iri, distro_iri, distro_uri,
    fedora_distgit_uri, identity_iri, is_numeric_release, maintainer_iri, maintainer_name_iri,
    maintainer_name_uri, maintainer_uri, numeric_release, package_identity_uri, package_iri,
    package_uri, release_iri, release_uri, repo_iri, repo_uri, source_iri, source_uri, version_iri,
    version_uri, FOAF, RDFS_LABEL, RDF_TYPE, VCS,
};
use vstd::prelude::*;

verus! {

/// What to emit beside the statements that every package gets.
pub struct EmitPolicy {
    /// The type of the packages of an ecosystem.
    pub ecosystem_type_uri: Option<String>,
    /// Whether to link the packaging repository (dist-git) of a package.
    pub emit_packaging_repo: bool,
}

/// What a [`EmitPolicy`] says.
#[verifier::ext_equal]
pub struct Policy {
    pub ecosystem_type_uri: Option<Seq<char>>,
    pub emit_packaging_repo: bool,
}

impl View for EmitPolicy {
    type V = Policy;

    open spec fn view(&self) -> Policy {
        Policy {
            ecosystem_type_uri: crate::text::opt(self.ecosystem_type_uri),
            emit_packaging_repo: self.emit_packaging_repo,
        }
    }
}

impl Default for EmitPolicy {
    fn default() -> (r: Self)
        ensures
            r@ == (Policy { ecosystem_type_uri: None, emit_packaging_repo: false }),
    {
        EmitPolicy { ecosystem_type_uri: None, emit_packaging_repo: false }
    }
}

/// A package identity: its type, its name and its label. The name is not the
/// name of a versioned package, which is another property.
pub open spec fn with_package_identity(w: Sheet, identity: Seq<char>, name: Seq<char>) -> Sheet {
    let w = link(w, identity, RDF_TYPE@, pkg("PackageIdentity"@));
    let w = literal(w, identity, pkg("identityName"@), name);
    literal(w, identity, RDFS_LABEL@, name + " Package Identity"@)
}

/// A package identity: its type, its name and its label. The name is not the
/// name of a versioned package, which is another property.
pub fn write_package_identity(writer: &mut NTriplesWriter, identity: &str, name: &str) -> (r: usize)
    ensures
        final(writer)@ == with_package_identity(old(writer)@, identity@, name@),
        r == final(writer)@.log.len() - old(writer)@.log.len(),
        r >= 3,
{
    let start: usize = writer.len();
    writer.write_triple(identity, RDF_TYPE, &cat2(PKG, "PackageIdentity"));
    writer.write_literal(identity, &cat2(PKG, "identityName"), name);
    writer.write_literal(identity, RDFS_LABEL, &cat2(name, " Package Identity"));
    writer.len() - start
}

/// A package identity, defined once in a writer however often it is referred to.
pub open spec fn with_package_identity_once(
    w: Sheet,
    identity: Seq<char>,
    name: Seq<char>,
) -> Sheet {
    let w = define(w, Fact::Link { s: identity, p: RDF_TYPE@, o: pkg("PackageIdentity"@) });
    let w = define(w, Fact::Text { s: identity, p: pkg("identityName"@), value: name });
    let w = define(
        w,
        Fact::Text { s: identity, p: RDFS_LABEL@, value: name + " Package Identity"@ },
    );
    w
}

/// A package identity, defined once in a writer however often it is referred to.
pub fn write_package_identity_once(
    writer: &mut NTriplesWriter,
    identity: &str,
    name: &str,
) -> (r: usize)
    ensures
        final(writer)@ == with_package_identity_once(old(writer)@, identity@, name@),
        r == final(writer)@.log.len() - old(writer)@.log.len(),
{
    let start: usize = writer.len();
    writer.write_triple_once(identity, RDF_TYPE, &cat2(PKG, "PackageIdentity"));
    writer.write_literal_once(identity, &cat2(PKG, "identityName"), name);
    writer.write_literal_once(identity, RDFS_LABEL, &cat2(name, " Package Identity"));
    writer.len() - start
}

/// The statements that define an identity.
pub open spec fn identity_facts(identity: Seq<char>, name: Seq<char>) -> Seq<Fact> {
    seq![
        Fact::Link { s: identity, p: RDF_TYPE@, o: pkg("PackageIdentity"@) },
        Fact::Text { s: identity, p: pkg("identityName"@), value: name },
        Fact::Text { s: identity, p: RDFS_LABEL@, value: name + " Package Identity"@ },
    ]
}

/// A second reference to an identity writes nothing.
pub proof fn lemma_identity_is_defined_once(w: Sheet, identity: Seq<char>, name: Seq<char>)
    ensures
        ({
            let once = with_package_identity_once(w, identity, name);
            with_package_identity_once(once, identity, name) == once
        }),
{
    let facts = identity_facts(identity, name);
    let w1 = define(w, facts[0]);
    let w2 = define(w1, facts[1]);
    let w3 = define(w2, facts[2]);
    lemma_defined_stays(w, facts[0], facts[1]);
    lemma_defined_stays(w1, facts[0], facts[1]);
    lemma_defined_stays(w2, facts[0], facts[2]);
    lemma_defined_stays(w2, facts[1], facts[2]);
    lemma_now_defined(w, facts[0]);
    lemma_now_defined(w1, facts[1]);
    lemma_now_defined(w2, facts[2]);
    assert(with_package_identity_once(w, identity, name) == w3);
}

proof fn lemma_now_defined(w: Sheet, f: Fact)
    ensures
        define(w, f).defined.contains(f),
{
    if !w.defined.contains(f) {
        assert(define(w, f).defined[w.defined.len() as int] == f);
    }
}

proof fn lemma_defined_stays(w: Sheet, f: Fact, g: Fact)
    ensures
        w.defined.contains(f) ==> define(w, g).defined.contains(f),
{
    if w.defined.contains(f) {
        let k = choose|k: int| 0 <= k < w.defined.len() && w.defined[k] == f;
        assert(define(w, g).defined[k] == f);
    }
}

/// An identity never carries the name of a versioned package.
pub proof fn lemma_identity_has_no_package_name(w: Sheet, identity: Seq<char>, name: Seq<char>)
    ensures
        ({
            let after = with_package_identity(w, identity, name);
            &&& after.log == w.log + identity_facts(identity, name)
            &&& forall|i: int|
                w.log.len() <= i < after.log.len() ==> !(#[trigger] after.log[i] is Text
                    && after.log[i]->Text_p == pkg("packageName"@))
        }),
{
    let after = with_package_identity(w, identity, name);
    assert(after.log =~= w.log + identity_facts(identity, name));
    assert(pkg("identityName"@) != pkg("packageName"@)) by {
        reveal_strlit("identityName");
        reveal_strlit("packageName");
        assert(pkg("identityName"@).len() != pkg("packageName"@).len());
    }
    assert(RDFS_LABEL@ != pkg("packageName"@)) by {
        reveal_strlit("http://www.w3.org/2000/01/rdf-schema#label");
        reveal_strlit("https://purl.org/packagegraph/ontology/core#");
        assert(RDFS_LABEL@[4] != pkg("packageName"@)[4]);
    }
}

/// The identifier of a maintainer: by address where one is known, by name
/// otherwise.
pub open spec fn maintainer_node(m: Maintains) -> Seq<char> {
    match m.email {
        Some(email) => maintainer_iri(email),
        None => maintainer_name_iri(m.name),
    }
}

fn node_of_maintainer(m: &MaintainerIr) -> (r: String)
    ensures
        r@ == maintainer_node(m@),
{
    match &m.email {
        Some(email) => maintainer_uri(email),
        None => maintainer_name_uri(&m.name),
    }
}

/// Who maintains a package.
pub open spec fn with_maintainer(w: Sheet, package: Seq<char>, m: Maintains) -> Sheet {
    let person = maintainer_node(m);
    let w = link(w, person, RDF_TYPE@, pkg("Person"@));
    let w = literal(w, person, FOAF@ + "name"@, m.name);
    let w = literal(w, person, RDFS_LABEL@, m.name);
    let w = match m.email {
        Some(email) => {
            let w = if contains(email, "@"@) {
                link(w, person, FOAF@ + "mbox"@, "mailto:"@ + email)
            } else {
                w
            };
            w
        },
        None => w,
    };
    link(w, package, pkg("maintainedBy"@), person)
}

/// The first `n` of `items`, in order.
pub open spec fn with_each_maintainer(
    w: Sheet,
    package: Seq<char>,
    items: Seq<Maintains>,
    n: nat,
) -> Sheet
    decreases n,
{
    if n == 0 {
        w
    } else {
        with_maintainer(
            with_each_maintainer(w, package, items, (n - 1) as nat),
            package,
            items[n - 1],
        )
    }
}

/// Who maintains a package.
pub fn emit_maintainer(writer: &mut NTriplesWriter, package: &str, m: &MaintainerIr) -> (r: usize)
    ensures
        final(writer)@ == with_maintainer(old(writer)@, package@, m@),
        r == final(writer)@.log.len() - old(writer)@.log.len(),
{
    let start: usize = writer.len();
    let person: String = node_of_maintainer(m);
    writer.write_triple(&person, RDF_TYPE, &cat2(PKG, "Person"));
    writer.write_literal(&person, &cat2(FOAF, "name"), &m.name);
    writer.write_literal(&person, RDFS_LABEL, &m.name);
    if let Some(email) = &m.email {
        if has_text(email, "@") {
            writer.write_triple(&person, &cat2(FOAF, "mbox"), &cat2("mailto:", email));
        }
    }
    writer.write_triple(package, &cat2(PKG, "maintainedBy"), &person);
    writer.len() - start
}

/// One dependency of a package, as a link and as a node of its own.
pub open spec fn with_dependency(
    w: Sheet,
    package: Seq<char>,
    d: Depends,
    distro: Seq<char>,
    release: Seq<char>,
    arch: Seq<char>,
) -> Sheet {
    let target = identity_iri(distro, release, arch, d.name);
    let node = bnode_label("dep"@, package + d.name + d.dep_type);
    let w = bnode_object(w, package, pkg("hasDependency"@), node);
    let w = bnode_subject(w, node, RDF_TYPE@, pkg("Dependency"@));
    let w = bnode_subject(w, node, pkg("dependencyTarget"@), target);
    let w = bnode_subject(w, node, pkg("dependencyType"@), dep_type_iri(d.dep_type));
    let w = match d.version_constraint {
        Some(limit) => {
            bnode_literal(w, node, pkg("versionConstraint"@), limit)
        },
        None => w,
    };
    link(w, package, pkg("directlyDependsOn"@), target)
}

/// The first `n` of `items`, in order.
pub open spec fn with_each_dependency(
    w: Sheet,
    package: Seq<char>,
    distro: Seq<char>,
    release: Seq<char>,
    arch: Seq<char>,
    items: Seq<Depends>,
    n: nat,
) -> Sheet
    decreases n,
{
    if n == 0 {
        w
    } else {
        with_dependency(
            with_each_dependency(w, package, distro, release, arch, items, (n - 1) as nat),
            package,
            items[n - 1],
            distro,
            release,
            arch,
        )
    }
}

/// One dependency of a package, as a link and as a node of its own.
pub fn emit_dependency(
    writer: &mut NTriplesWriter,
    package: &str,
    d: &DependencyIr,
    distro: &str,
    release: &str,
    arch: &str,
) -> (r: usize)
    ensures
        final(writer)@ == with_dependency(old(writer)@, package@, d@, distro@, release@, arch@),
        r == final(writer)@.log.len() - old(writer)@.log.len(),
{
    let start: usize = writer.len();
    let target: String = package_identity_uri(distro, release, arch, &d.name);
    let node: String = bnode_id("dep", &cat3(package, &d.name, &d.dep_type));
    writer.write_bnode_object(package, &cat2(PKG, "hasDependency"), &node);
    writer.write_bnode_subject(&node, RDF_TYPE, &cat2(PKG, "Dependency"));
    writer.write_bnode_subject(&node, &cat2(PKG, "dependencyTarget"), &target);
    writer.write_bnode_subject(&node, &cat2(PKG, "dependencyType"), &dep_type_uri(&d.dep_type));
    if let Some(limit) = &d.version_constraint {
        writer.write_bnode_literal(&node, &cat2(PKG, "versionConstraint"), limit);
    }
    writer.write_triple(package, &cat2(PKG, "directlyDependsOn"), &target);
    writer.len() - start
}

/// The description of a package, its summary where it has none.
pub open spec fn description_of(m: Metadata) -> Option<Seq<char>> {
    match m.description {
        Some(d) => Some(d),
        None => m.summary,
    }
}

fn best_description(m: &PackageMetadataIr) -> (r: Option<String>)
    ensures
        opt(r) == description_of(m@),
{
    match &m.description {
        Some(d) => Some(d.clone()),
        None => match &m.summary {
            Some(s) => Some(s.clone()),
            None => None,
        },
    }
}

/// What describes a package, and the upstream repository that its homepage
/// points into. The repository belongs to the identity; the hub of the upstream
/// project is found through the repository.
pub open spec fn with_metadata(
    w: Sheet,
    package: Seq<char>,
    identity: Seq<char>,
    m: Metadata,
) -> Sheet {
    let w = match description_of(m) {
        Some(text) => {
            literal(w, package, pkg("description"@), text)
        },
        None => w,
    };
    let w = match m.homepage {
        Some(homepage) => {
            let w = literal(w, package, pkg("homepage"@), homepage);
            let w = match forge_url(homepage) {
                Some(url) => {
                    let repo = repo_iri(url);
                    let w = link(w, identity, pkg("upstreamRepository"@), repo);
                    let w = link(w, repo, RDF_TYPE@, VCS@ + "Repository"@);
                    with_upstream_project(w, url)
                },
                None => w,
            };
            w
        },
        None => w,
    };
    w
}

/// What describes a package, and the upstream repository that its homepage
/// points into. The repository belongs to the identity; the hub of the upstream
/// project is found through the repository.
pub fn emit_metadata(
    writer: &mut NTriplesWriter,
    package: &str,
    identity: &str,
    m: &PackageMetadataIr,
) -> (r: usize)
    ensures
        final(writer)@ == with_metadata(old(writer)@, package@, identity@, m@),
        r == final(writer)@.log.len() - old(writer)@.log.len(),
{
    let start: usize = writer.len();
    if let Some(text) = best_description(m) {
        writer.write_literal(package, &cat2(PKG, "description"), &text);
    }
    if let Some(homepage) = &m.homepage {
        writer.write_literal(package, &cat2(PKG, "homepage"), homepage);
        if let Some(url) = extract_forge_url(homepage) {
            let repo: String = repo_uri(&url);
            writer.write_triple(identity, &cat2(PKG, "upstreamRepository"), &repo);
            writer.write_triple(&repo, RDF_TYPE, &cat2(VCS, "Repository"));
            emit_upstream_project(writer, &url);
        }
    }
    writer.len() - start
}

/// The version of a source package, that of the package where it has none.
pub open spec fn source_version_of(s: SourceRef, version: Seq<char>) -> Seq<char> {
    match s.version {
        Some(v) => v,
        None => version,
    }
}

fn version_of_source(s: &SourcePackageRef, version: &str) -> (r: String)
    ensures
        r@ == source_version_of(s@, version@),
{
    match &s.version {
        Some(v) => v.clone(),
        None => version.to_owned(),
    }
}

/// The source package that a package was built from.
pub open spec fn with_source_package(
    w: Sheet,
    package: Seq<char>,
    scope: Scope,
    s: SourceRef,
    version: Seq<char>,
) -> Sheet {
    let src_version = source_version_of(s, version);
    let src = source_iri(scope.distro, scope.release, s.name, src_version);
    let w = link(w, src, RDF_TYPE@, pkg("SourcePackage"@));
    let w = literal(w, src, pkg("packageName"@), s.name);
    link(w, package, pkg("builtFromSource"@), src)
}

/// The source package that a package was built from.
pub fn emit_source_package(
    writer: &mut NTriplesWriter,
    package: &str,
    scope: &ScopeIr,
    s: &SourcePackageRef,
    version: &str,
) -> (r: usize)
    ensures
        final(writer)@ == with_source_package(old(writer)@, package@, scope@, s@, version@),
        r == final(writer)@.log.len() - old(writer)@.log.len(),
{
    let start: usize = writer.len();
    let src_version: String = version_of_source(s, version);
    let src: String = source_uri(&scope.distro, &scope.release, &s.name, &src_version);
    writer.write_triple(&src, RDF_TYPE, &cat2(PKG, "SourcePackage"));
    writer.write_literal(&src, &cat2(PKG, "packageName"), &s.name);
    writer.write_triple(package, &cat2(PKG, "builtFromSource"), &src);
    writer.len() - start
}

/// What names a package: its types, identity, version, architecture,
/// distribution and release.
pub open spec fn with_package_core(
    w: Sheet,
    package: Seq<char>,
    identity: Seq<char>,
    scope: Scope,
    p: Named,
    policy: Policy,
) -> Sheet {
    let w = link(w, package, RDF_TYPE@, pkg("BinaryPackage"@));
    let w = match policy.ecosystem_type_uri {
        Some(kind) => {
            link(w, package, RDF_TYPE@, kind)
        },
        None => w,
    };
    let w = with_package_identity(w, identity, p.name);
    let w = link(w, package, pkg("isVersionOf"@), identity);
    let w = literal(w, package, pkg("packageName"@), p.name);
    let ver = version_iri(scope.distro, scope.release, p.name, p.full_version);
    let w = link(w, ver, RDF_TYPE@, pkg("Version"@));
    let w = literal(w, ver, pkg("versionString"@), p.full_version);
    let w = link(w, package, pkg("hasVersion"@), ver);
    let w = if p.epoch != 0 {
        with_epoch(w, ver, p.epoch)
    } else {
        w
    };
    let arch = arch_iri(p.arch);
    let w = link(w, package, pkg("targetArchitecture"@), arch);
    let dist = distro_iri(scope.distro);
    let w = link(w, package, pkg("partOfDistribution"@), dist);
    let w = if scope.release.len() > 0 {
        let rel = release_iri(scope.distro, scope.release);
        link(w, package, pkg("partOfRelease"@), rel)
    } else {
        w
    };
    w
}

/// What names a package: its types, identity, version, architecture,
/// distribution and release.
pub fn emit_package_core(
    writer: &mut NTriplesWriter,
    package: &str,
    identity: &str,
    scope: &ScopeIr,
    p: &PackageInfo,
    policy: &EmitPolicy,
) -> (r: usize)
    ensures
        final(writer)@ == with_package_core(old(writer)@, package@, identity@, scope@, p@, policy@),
        r == final(writer)@.log.len() - old(writer)@.log.len(),
        r >= 1,
{
    let start: usize = writer.len();
    writer.write_triple(package, RDF_TYPE, &cat2(PKG, "BinaryPackage"));
    if let Some(kind) = &policy.ecosystem_type_uri {
        writer.write_triple(package, RDF_TYPE, kind);
    }
    write_package_identity(writer, identity, &p.name);
    writer.write_triple(package, &cat2(PKG, "isVersionOf"), identity);
    writer.write_literal(package, &cat2(PKG, "packageName"), &p.name);
    let ver: String = version_uri(&scope.distro, &scope.release, &p.name, &p.full_version);
    writer.write_triple(&ver, RDF_TYPE, &cat2(PKG, "Version"));
    writer.write_literal(&ver, &cat2(PKG, "versionString"), &p.full_version);
    writer.write_triple(package, &cat2(PKG, "hasVersion"), &ver);
    if p.epoch != 0 {
        emit_epoch(writer, &ver, p.epoch);
    }
    let arch: String = arch_uri(&p.arch);
    writer.write_triple(package, &cat2(PKG, "targetArchitecture"), &arch);
    let dist: String = distro_uri(&scope.distro);
    writer.write_triple(package, &cat2(PKG, "partOfDistribution"), &dist);
    if !empty(&scope.release) {
        let rel: String = release_uri(&scope.distro, &scope.release);
        writer.write_triple(package, &cat2(PKG, "partOfRelease"), &rel);
    }
    writer.len() - start
}

pub open spec fn with_epoch(w: Sheet, version: Seq<char>, epoch: i32) -> Sheet {
    number(w, version, pkg("epoch"@), epoch as int)
}

fn emit_epoch(writer: &mut NTriplesWriter, version: &str, epoch: i32)
    ensures
        final(writer)@ == with_epoch(old(writer)@, version@, epoch),
{
    writer.write_integer(version, &cat2(PKG, "epoch"), epoch as i64);
}

pub open spec fn with_maintainers(w: Sheet, package: Seq<char>, ir: Record) -> Sheet {
    with_each_maintainer(w, package, ir.maintainers, ir.maintainers.len())
}

pub fn emit_maintainers(writer: &mut NTriplesWriter, package: &str, ir: &PackageIr) -> (r: usize)
    ensures
        final(writer)@ == with_maintainers(old(writer)@, package@, ir@),
        r == final(writer)@.log.len() - old(writer)@.log.len(),
{
    let start: usize = writer.len();
    let ghost before_maintainer = writer@;
    let mut i: usize = 0;
    while i < ir.maintainers.len()
        invariant
            i <= ir.maintainers.len(),
            before_maintainer.log.len() <= writer@.log.len(),
            writer@ == with_each_maintainer(
                before_maintainer,
                package@,
                maintainer_ir_views(ir.maintainers@),
                i as nat,
            ),
        decreases ir.maintainers.len() - i,
    {
        emit_maintainer(writer, package, &ir.maintainers[i]);
        i = i + 1;
    }
    writer.len() - start
}

pub open spec fn with_dependencies(w: Sheet, package: Seq<char>, ir: Record) -> Sheet {
    with_each_dependency(
        w,
        package,
        ir.scope.distro,
        ir.scope.release,
        ir.package.arch,
        ir.dependencies,
        ir.dependencies.len(),
    )
}

pub fn emit_dependencies(writer: &mut NTriplesWriter, package: &str, ir: &PackageIr) -> (r: usize)
    ensures
        final(writer)@ == with_dependencies(old(writer)@, package@, ir@),
        r == final(writer)@.log.len() - old(writer)@.log.len(),
{
    let start: usize = writer.len();
    let ghost before_dependency = writer@;
    let mut i: usize = 0;
    while i < ir.dependencies.len()
        invariant
            i <= ir.dependencies.len(),
            before_dependency.log.len() <= writer@.log.len(),
            writer@ == with_each_dependency(
                before_dependency,
                package@,
                ir.scope.distro@,
                ir.scope.release@,
                ir.package.arch@,
                dependency_ir_views(ir.dependencies@),
                i as nat,
            ),
        decreases ir.dependencies.len() - i,
    {
        emit_dependency(
            writer,
            package,
            &ir.dependencies[i],
            &ir.scope.distro,
            &ir.scope.release,
            &ir.package.arch,
        );
        i = i + 1;
    }
    writer.len() - start
}

/// The packaging repository of a package: its repository on dist-git.
pub open spec fn with_packaging_repo(
    w: Sheet,
    identity: Seq<char>,
    distro: Seq<char>,
    name: Seq<char>,
) -> Sheet {
    let distgit = distgit_iri(distro, name);
    let w = link(w, identity, pkg("packagingRepository"@), distgit);
    link(w, distgit, RDF_TYPE@, VCS@ + "Repository"@)
}

pub fn emit_packaging_repo(
    writer: &mut NTriplesWriter,
    identity: &str,
    distro: &str,
    name: &str,
) -> (r: usize)
    ensures
        final(writer)@ == with_packaging_repo(old(writer)@, identity@, distro@, name@),
        r == final(writer)@.log.len() - old(writer)@.log.len(),
{
    let start: usize = writer.len();
    let distgit: String = fedora_distgit_uri(distro, name);
    writer.write_triple(identity, &cat2(PKG, "packagingRepository"), &distgit);
    writer.write_triple(&distgit, RDF_TYPE, &cat2(VCS, "Repository"));
    writer.len() - start
}

/// Everything that a package record gives. The packaging repository is linked
/// where the policy says so.
pub open spec fn with_rdf(w: Sheet, ir: Record, policy: Policy) -> Sheet {
    let package = package_iri(
        ir.scope.distro,
        ir.scope.release,
        ir.package.arch,
        ir.package.name,
        ir.package.full_version,
    );
    let identity = identity_iri(
        ir.scope.distro,
        ir.scope.release,
        ir.package.arch,
        ir.package.name,
    );
    let w = with_package_core(w, package, identity, ir.scope, ir.package, policy);
    let w = with_maintainers(w, package, ir);
    let w = match ir.metadata {
        Some(m) => {
            with_metadata(w, package, identity, m)
        },
        None => w,
    };
    let w = match ir.source_package {
        Some(s) => {
            with_source_package(w, package, ir.scope, s, ir.package.full_version)
        },
        None => w,
    };
    let w = with_dependencies(w, package, ir);
    let w = if policy.emit_packaging_repo {
        with_packaging_repo(w, identity, ir.scope.distro, ir.package.name)
    } else {
        w
    };
    w
}

/// Everything that a package record gives. The packaging repository is linked
/// where the policy says so.
pub fn emit_rdf(ir: &PackageIr, writer: &mut NTriplesWriter, policy: &EmitPolicy) -> (r: usize)
    ensures
        final(writer)@ == with_rdf(old(writer)@, ir@, policy@),
        r == final(writer)@.log.len() - old(writer)@.log.len(),
{
    let start: usize = writer.len();
    let package: String = package_uri(
        &ir.scope.distro,
        &ir.scope.release,
        &ir.package.arch,
        &ir.package.name,
        &ir.package.full_version,
    );
    let identity: String = package_identity_uri(
        &ir.scope.distro,
        &ir.scope.release,
        &ir.package.arch,
        &ir.package.name,
    );
    emit_package_core(writer, &package, &identity, &ir.scope, &ir.package, policy);
    emit_maintainers(writer, &package, ir);
    if let Some(m) = &ir.metadata {
        emit_metadata(writer, &package, &identity, m);
    }
    if let Some(s) = &ir.source_package {
        emit_source_package(writer, &package, &ir.scope, s, &ir.package.full_version);
    }
    emit_dependencies(writer, &package, ir);
    if policy.emit_packaging_repo {
        emit_packaging_repo(writer, &identity, &ir.scope.distro, &ir.package.name);
    }
    writer.len() - start
}

/// A distribution and one of its releases.
pub open spec fn with_distribution_metadata(
    w: Sheet,
    distro: Seq<char>,
    release: Seq<char>,
    display_name: Seq<char>,
) -> Sheet {
    let dist = distro_iri(distro);
    let rel = release_iri(distro, release);
    let w = link(w, dist, RDF_TYPE@, pkg("Distribution"@));
    let w = literal(w, dist, pkg("distributionName"@), distro);
    let w = literal(w, dist, RDFS_LABEL@, display_name);
    let w = link(w, rel, RDF_TYPE@, pkg("DistributionRelease"@));
    let w = if numeric_release(release) {
        literal(w, rel, pkg("releaseVersion"@), release)
    } else {
        literal(w, rel, pkg("releaseCodename"@), release)
    };
    link(w, rel, pkg("partOfDistribution"@), dist)
}

/// A distribution and one of its releases.
pub fn emit_distribution_metadata(
    writer: &mut NTriplesWriter,
    distro: &str,
    release: &str,
    display_name: &str,
) -> (r: usize)
    ensures
        final(writer)@ == with_distribution_metadata(
            old(writer)@,
            distro@,
            release@,
            display_name@,
        ),
        r == final(writer)@.log.len() - old(writer)@.log.len(),
{
    let start: usize = writer.len();
    let dist: String = distro_uri(distro);
    let rel: String = release_uri(distro, release);
    writer.write_triple(&dist, RDF_TYPE, &cat2(PKG, "Distribution"));
    writer.write_literal(&dist, &cat2(PKG, "distributionName"), distro);
    writer.write_literal(&dist, RDFS_LABEL, display_name);
    writer.write_triple(&rel, RDF_TYPE, &cat2(PKG, "DistributionRelease"));
    if is_numeric_release(release) {
        writer.write_literal(&rel, &cat2(PKG, "releaseVersion"), release);
    } else {
        writer.write_literal(&rel, &cat2(PKG, "releaseCodename"), release);
    }
    writer.write_triple(&rel, &cat2(PKG, "partOfDistribution"), &dist);
    writer.len() - start
}

} // verus!
