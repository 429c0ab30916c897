//! The vocabularies of the graph, and the IRIs of its resources.

use crate::casing::{lowercase, to_lowercase};
use crate::ntriples::{pkg, DATA, PKG};
use crate::percent::{encoded, percent_encoded, Keep};
use crate::split::trimmed;
use crate::text::{cat2, cat3, has_text, replaced, same};
use vstd::prelude::*;

verus! {

pub const RDF_TYPE: &'static str = "http://www.w3.org/1999/02/22-rdf-syntax-ns#type";

pub const RDFS_LABEL: &'static str = "http://www.w3.org/2000/01/rdf-schema#label";

pub const FOAF: &'static str = "http://xmlns.com/foaf/0.1/";

pub const PROV: &'static str = "http://www.w3.org/ns/prov#";

pub const RPM: &'static str = "https://purl.org/packagegraph/ontology/rpm#";

pub const DEB: &'static str = "https://purl.org/packagegraph/ontology/deb#";

pub const APK: &'static str = "https://purl.org/packagegraph/ontology/apk#";

pub const ARCH: &'static str = "https://purl.org/packagegraph/ontology/arch#";

pub const BUILDROOT: &'static str = "https://purl.org/packagegraph/ontology/buildroot#";

pub const CARGO: &'static str = "https://purl.org/packagegraph/ontology/cargo#";

pub const CHOCO: &'static str = "https://purl.org/packagegraph/ontology/chocolatey#";

pub const CONDA: &'static str = "https://purl.org/packagegraph/ontology/conda#";

pub const CPAN: &'static str = "https://purl.org/packagegraph/ontology/cpan#";

pub const CRAN: &'static str = "https://purl.org/packagegraph/ontology/cran#";

pub const OPENWRT: &'static str = "https://purl.org/packagegraph/ontology/opkg#";

pub const SEC: &'static str = "https://purl.org/packagegraph/ontology/security#";

pub const VCS: &'static str = "https://purl.org/packagegraph/ontology/vcs#";

/// A text as it stands in one segment of an IRI.
pub open spec fn enc(s: Seq<char>) -> Seq<char> {
    encoded(s, Keep::Segment)
}

pub fn encode(s: &str) -> (r: String)
    ensures
        r@ == enc(s@),
{
    percent_encoded(s, &Keep::Segment)
}

/// The IRI of a resource of `kind` that one segment names.
pub open spec fn res1(kind: Seq<char>, a: Seq<char>) -> Seq<char> {
    DATA@ + kind + "/"@ + enc(a)
}

/// The IRI of a resource one segment below another.
pub open spec fn below(parent: Seq<char>, a: Seq<char>) -> Seq<char> {
    parent + "/"@ + enc(a)
}

fn resource(kind: &str, a: &str) -> (r: String)
    ensures
        r@ == res1(kind@, a@),
{
    let mut out: String = cat3(DATA, kind, "/");
    out.append(&encode(a));
    out
}

fn child(parent: &str, a: &str) -> (r: String)
    ensures
        r@ == below(parent@, a@),
{
    cat3(parent, "/", &encode(a))
}

pub open spec fn distro_iri(distro: Seq<char>) -> Seq<char> {
    res1("distro"@, distro)
}

pub fn distro_uri(distro: &str) -> (r: String)
    ensures
        r@ == distro_iri(distro@),
{
    resource("distro", distro)
}

pub open spec fn release_iri(distro: Seq<char>, release: Seq<char>) -> Seq<char> {
    below(res1("release"@, distro), release)
}

pub fn release_uri(distro: &str, release: &str) -> (r: String)
    ensures
        r@ == release_iri(distro@, release@),
{
    child(&resource("release", distro), release)
}

pub open spec fn arch_iri(arch: Seq<char>) -> Seq<char> {
    res1("arch"@, arch)
}

pub fn arch_uri(arch: &str) -> (r: String)
    ensures
        r@ == arch_iri(arch@),
{
    resource("arch", arch)
}

/// The IRI of a package whatever its version.
pub open spec fn identity_iri(
    distro: Seq<char>,
    release: Seq<char>,
    arch: Seq<char>,
    name: Seq<char>,
) -> Seq<char> {
    below(below(below(res1("identity"@, distro), release), arch), name)
}

pub fn package_identity_uri(distro: &str, release: &str, arch: &str, name: &str) -> (r: String)
    ensures
        r@ == identity_iri(distro@, release@, arch@, name@),
{
    child(&child(&child(&resource("identity", distro), release), arch), name)
}

/// The IRI of one version of a package.
pub open spec fn package_iri(
    distro: Seq<char>,
    release: Seq<char>,
    arch: Seq<char>,
    name: Seq<char>,
    version: Seq<char>,
) -> Seq<char> {
    below(below(below(below(res1("pkg"@, distro), release), arch), name), version)
}

pub fn package_uri(distro: &str, release: &str, arch: &str, name: &str, version: &str) -> (r:
    String)
    ensures
        r@ == package_iri(distro@, release@, arch@, name@, version@),
{
    child(&child(&child(&child(&resource("pkg", distro), release), arch), name), version)
}

pub open spec fn version_iri(
    distro: Seq<char>,
    release: Seq<char>,
    name: Seq<char>,
    version: Seq<char>,
) -> Seq<char> {
    below(below(below(res1("version"@, distro), release), name), version)
}

pub fn version_uri(distro: &str, release: &str, name: &str, version: &str) -> (r: String)
    ensures
        r@ == version_iri(distro@, release@, name@, version@),
{
    child(&child(&child(&resource("version", distro), release), name), version)
}

pub open spec fn source_iri(
    distro: Seq<char>,
    release: Seq<char>,
    name: Seq<char>,
    version: Seq<char>,
) -> Seq<char> {
    below(below(below(res1("src"@, distro), release), name), version)
}

pub fn source_uri(distro: &str, release: &str, name: &str, version: &str) -> (r: String)
    ensures
        r@ == source_iri(distro@, release@, name@, version@),
{
    child(&child(&child(&resource("src", distro), release), name), version)
}

/// The IRI of a maintainer who has an address.
pub open spec fn maintainer_iri(email: Seq<char>) -> Seq<char> {
    res1("maintainer"@, email)
}

pub fn maintainer_uri(email: &str) -> (r: String)
    ensures
        r@ == maintainer_iri(email@),
{
    resource("maintainer", email)
}

/// The IRI of a maintainer of whom only the name is known.
pub open spec fn maintainer_name_iri(name: Seq<char>) -> Seq<char> {
    res1("maintainer/name"@, name)
}

pub fn maintainer_name_uri(name: &str) -> (r: String)
    ensures
        r@ == maintainer_name_iri(name@),
{
    resource("maintainer/name", name)
}

pub open spec fn repo_iri(url: Seq<char>) -> Seq<char> {
    res1("repo"@, url)
}

pub fn repo_uri(url: &str) -> (r: String)
    ensures
        r@ == repo_iri(url@),
{
    resource("repo", url)
}

/// The IRI of the upstream project that a key names.
pub open spec fn upstream_iri(key: Seq<char>) -> Seq<char> {
    res1("upstream"@, key)
}

pub fn upstream_uri(key: &str) -> (r: String)
    ensures
        r@ == upstream_iri(key@),
{
    resource("upstream", key)
}

pub open spec fn ecosystem_iri(name: Seq<char>) -> Seq<char> {
    res1("ecosystem"@, name)
}

pub fn ecosystem_uri(name: &str) -> (r: String)
    ensures
        r@ == ecosystem_iri(name@),
{
    resource("ecosystem", name)
}

pub open spec fn cve_iri(id: Seq<char>) -> Seq<char> {
    res1("cve"@, id)
}

pub fn cve_entity_uri(id: &str) -> (r: String)
    ensures
        r@ == cve_iri(id@),
{
    resource("cve", id)
}

pub open spec fn spdx_iri(license: Seq<char>) -> Seq<char> {
    "https://spdx.org/licenses/"@ + enc(license)
}

pub fn spdx_license_uri(license: &str) -> (r: String)
    ensures
        r@ == spdx_iri(license@),
{
    cat2("https://spdx.org/licenses/", &encode(license))
}

/// The property that a kind of dependency stands for.
pub open spec fn dep_type_iri(kind: Seq<char>) -> Seq<char> {
    if kind == "build"@ || kind == "host"@ {
        pkg("buildDependsOn"@)
    } else if kind == "recommends"@ {
        pkg("recommends"@)
    } else if kind == "suggests"@ {
        pkg("suggests"@)
    } else if kind == "conflicts"@ || kind == "breaks"@ {
        pkg("conflictsWith"@)
    } else {
        pkg("dependsOn"@)
    }
}

pub fn dep_type_uri(kind: &str) -> (r: String)
    ensures
        r@ == dep_type_iri(kind@),
{
    if same(kind, "build") || same(kind, "host") {
        cat2(PKG, "buildDependsOn")
    } else if same(kind, "recommends") {
        cat2(PKG, "recommends")
    } else if same(kind, "suggests") {
        cat2(PKG, "suggests")
    } else if same(kind, "conflicts") || same(kind, "breaks") {
        cat2(PKG, "conflictsWith")
    } else {
        cat2(PKG, "dependsOn")
    }
}

/// A concept of the security vocabulary.
pub open spec fn sec_concept(kind: Seq<char>, name: Seq<char>) -> Seq<char> {
    SEC@ + kind + name
}

pub fn advisory_category_uri(name: &str) -> (r: String)
    ensures
        r@ == sec_concept("category-"@, name@),
{
    cat3(SEC, "category-", name)
}

pub fn range_type_uri(name: &str) -> (r: String)
    ensures
        r@ == sec_concept("range-"@, name@),
{
    cat3(SEC, "range-", name)
}

pub fn event_type_uri(name: &str) -> (r: String)
    ensures
        r@ == sec_concept("event-"@, name@),
{
    cat3(SEC, "event-", name)
}

/// The concept of a severity, where the name is one.
pub open spec fn severity_iri(name: Seq<char>) -> Option<Seq<char>> {
    if name == "critical"@ || name == "high"@ || name == "medium"@ || name == "low"@ {
        Some(sec_concept("severity-"@, name))
    } else if name == "normal"@ {
        Some(sec_concept("severity-"@, "medium"@))
    } else {
        None
    }
}

pub fn severity_concept_uri(name: &str) -> (r: Option<String>)
    ensures
        crate::text::opt(r) == severity_iri(name@),
{
    if same(name, "critical") || same(name, "high") || same(name, "medium") || same(name, "low") {
        Some(cat3(SEC, "severity-", name))
    } else if same(name, "normal") {
        Some(cat3(SEC, "severity-", "medium"))
    } else {
        None
    }
}

/// The packaging repository of a source package.
pub open spec fn distgit_iri(distro: Seq<char>, name: Seq<char>) -> Seq<char> {
    if distro == "centos-stream"@ {
        repo_iri("https://gitlab.com/redhat/centos-stream/rpms/"@ + name)
    } else {
        repo_iri("https://src.fedoraproject.org/rpms/"@ + name)
    }
}

pub fn fedora_distgit_uri(distro: &str, name: &str) -> (r: String)
    ensures
        r@ == distgit_iri(distro@, name@),
{
    if same(distro, "centos-stream") {
        repo_uri(&cat2("https://gitlab.com/redhat/centos-stream/rpms/", name))
    } else {
        repo_uri(&cat2("https://src.fedoraproject.org/rpms/", name))
    }
}

/// Whether a release is named by a number.
pub open spec fn numeric_release(release: Seq<char>) -> bool {
    release.len() > 0 && forall|i: int|
        0 <= i < release.len() ==> crate::text::is_digit(#[trigger] release[i]) || release[i] == '.'
}

pub fn is_numeric_release(release: &str) -> (r: bool)
    ensures
        r == numeric_release(release@),
{
    let cs: Vec<char> = crate::text::chars_of(release);
    let mut i: usize = 0;
    while i < cs.len()
        invariant
            i <= cs@.len(),
            cs@ == release@,
            forall|k: int|
                0 <= k < i ==> crate::text::is_digit(#[trigger] cs@[k]) || cs@[k] == '.',
        decreases cs@.len() - i,
    {
        if !crate::text::digit(cs[i]) && cs[i] != '.' {
            assert(!crate::text::is_digit(release@[i as int]));
            return false;
        }
        i = i + 1;
    }
    cs.len() > 0
}

/// The package URL of one version of a package of a distribution.
pub open spec fn purl(
    kind: Seq<char>,
    namespace: Seq<char>,
    name: Seq<char>,
    version: Seq<char>,
    arch: Seq<char>,
) -> Seq<char> {
    "pkg:"@ + kind + "/"@ + enc(namespace) + "/"@ + enc(name) + "@"@ + enc(version) + "?arch="@
        + enc(arch)
}

pub fn format_purl(kind: &str, namespace: &str, name: &str, version: &str, arch: &str) -> (r:
    String)
    ensures
        r@ == purl(kind@, namespace@, name@, version@, arch@),
{
    let mut out: String = cat3("pkg:", kind, "/");
    out.append(&encode(namespace));
    out.append("/");
    out.append(&encode(name));
    out.append("@");
    out.append(&encode(version));
    out.append("?arch=");
    out.append(&encode(arch));
    out
}

/// An address in the form in which it is compared: in lower case, without white
/// space around it, with a spelled-out `at` and `dot` written as signs.
pub open spec fn plain_email(email: Seq<char>) -> Seq<char> {
    crate::text::replace_all(
        crate::text::replace_all(lowercase(crate::split::trim(email)), " at "@, "@"@),
        " dot "@,
        "."@,
    )
}

pub fn normalize_email(email: &str) -> (r: String)
    ensures
        r@ == plain_email(email@),
{
    proof {
        reveal_strlit(" at ");
        reveal_strlit(" dot ");
    }
    replaced(&replaced(&to_lowercase(&trimmed(email)), " at ", "@"), " dot ", ".")
}

/// The IRI of a person, where the address has a sign between its halves.
pub open spec fn person_iri(email: Seq<char>) -> Option<Seq<char>> {
    if crate::text::contains(plain_email(email), "@"@) {
        Some(res1("person"@, plain_email(email)))
    } else {
        None
    }
}

pub fn person_uri_from_email(email: &str) -> (r: Option<String>)
    ensures
        crate::text::opt(r) == person_iri(email@),
{
    let plain: String = normalize_email(email);
    if has_text(&plain, "@") {
        Some(resource("person", &plain))
    } else {
        None
    }
}

} // verus!
