//! Repositories on known forges, and the records that several collectors share.

use crate::ntriples::{link, literal, pkg, NTriplesWriter, Sheet, DATA, PKG};
use crate::split::{pieces, split, Sep};
use crate::text::{cat2, cat3, cut_once, same, split_once, strip_suffix, views};
use crate::uris::{
    enc, encode, repo_iri, repo_uri, res1, upstream_iri, upstream_uri, RDF_TYPE, VCS,
};
use vstd::prelude::*;

verus! {

/// The software that runs a known forge.
pub open spec fn forge_software(host: Seq<char>) -> Option<Seq<char>> {
    if host == "github.com"@ {
        Some("github"@)
    } else if host == "gitlab.com"@ || host == "salsa.debian.org"@ || host == "gitlab.gnome.org"@
        || host == "gitlab.freedesktop.org"@ {
        Some("gitlab"@)
    } else if host == "codeberg.org"@ {
        Some("forgejo"@)
    } else if host == "bitbucket.org"@ {
        Some("bitbucket"@)
    } else {
        None
    }
}

fn software_of(host: &str) -> (r: Option<String>)
    ensures
        crate::text::opt(r) == forge_software(host@),
{
    if same(host, "github.com") {
        Some("github".to_owned())
    } else if same(host, "gitlab.com") || same(host, "salsa.debian.org") || same(
        host,
        "gitlab.gnome.org",
    ) || same(host, "gitlab.freedesktop.org") {
        Some("gitlab".to_owned())
    } else if same(host, "codeberg.org") {
        Some("forgejo".to_owned())
    } else if same(host, "bitbucket.org") {
        Some("bitbucket".to_owned())
    } else {
        None
    }
}

/// The name of a repository without the suffix that clone URLs carry.
pub open spec fn bare_repo(name: Seq<char>) -> Seq<char> {
    match strip_suffix(name, ".git"@) {
        Some(n) => n,
        None => name,
    }
}

/// A repository on a forge.
pub struct Repo {
    /// The host of the forge.
    pub host: String,
    /// The owner and the name, with a slash between them.
    pub slug: String,
}

/// The host and the slug of the repository that a URL points into.
pub open spec fn forge_repo(url: Seq<char>) -> Option<(Seq<char>, Seq<char>)> {
    match split_once(url, "://"@) {
        None => None,
        Some(parts) => {
            let segments = pieces(parts.1, Sep::Is('/'));
            if segments.len() < 3 || forge_software(segments[0]) is None || segments[1].len() == 0
                || bare_repo(segments[2]).len() == 0 {
                None
            } else {
                Some((segments[0], segments[1] + "/"@ + bare_repo(segments[2])))
            }
        },
    }
}

/// The canonical URL of a repository.
pub open spec fn canonical_url(repo: (Seq<char>, Seq<char>)) -> Seq<char> {
    "https://"@ + repo.0 + "/"@ + repo.1
}

/// The canonical URL of the repository that a URL points into, where its host is
/// a known forge.
pub open spec fn forge_url(url: Seq<char>) -> Option<Seq<char>> {
    match forge_repo(url) {
        Some(repo) => Some(canonical_url(repo)),
        None => None,
    }
}

pub fn extract_repo(url: &str) -> (r: Option<Repo>)
    ensures
        r is Some <==> forge_repo(url@) is Some,
        r is Some ==> forge_repo(url@) == Some(((r->0).host@, (r->0).slug@)),
{
    match cut_once(url, "://") {
        None => None,
        Some(parts) => {
            let segments: Vec<String> = split(&parts.1, &Sep::Is('/'));
            assert(forall|i: int|
                0 <= i < segments@.len() ==> views(segments@)[i] == #[trigger] segments@[i]@);
            if segments.len() < 3 {
                return None;
            }
            if software_of(&segments[0]).is_none() || segments[1].as_str().is_empty() {
                return None;
            }
            let name: String = match crate::text::without_suffix(&segments[2], ".git") {
                Some(n) => n,
                None => segments[2].clone(),
            };
            if name.as_str().is_empty() {
                return None;
            }
            Some(Repo { host: segments[0].clone(), slug: cat3(&segments[1], "/", &name) })
        },
    }
}

pub fn extract_forge_url(url: &str) -> (r: Option<String>)
    ensures
        crate::text::opt(r) == forge_url(url@),
{
    match extract_repo(url) {
        Some(repo) => Some(crate::text::cat4("https://", &repo.host, "/", &repo.slug)),
        None => None,
    }
}

/// The owner and the name in a repository URL; the URL itself where it has none.
pub open spec fn project_name(url: Seq<char>) -> Seq<char> {
    match forge_repo(url) {
        Some(repo) => repo.1,
        None => url,
    }
}

pub fn project_name_from_repo_url(url: &str) -> (r: String)
    ensures
        r@ == project_name(url@),
{
    match extract_repo(url) {
        Some(repo) => repo.slug,
        None => url.to_owned(),
    }
}

/// The hub of an upstream project, keyed by the URL of its repository. The hub
/// is linked to the repository alone.
pub open spec fn with_upstream_project(w: Sheet, url: Seq<char>) -> Sheet {
    let hub = upstream_iri(url);
    let w = link(w, hub, RDF_TYPE@, pkg("UpstreamProject"@));
    let w = literal(w, hub, pkg("projectName"@), project_name(url));
    link(w, hub, pkg("projectRepository"@), repo_iri(url))
}

pub fn emit_upstream_project(writer: &mut NTriplesWriter, url: &str) -> (r: usize)
    ensures
        final(writer)@ == with_upstream_project(old(writer)@, url@),
        r == 3,
{
    let hub: String = upstream_uri(url);
    writer.write_triple(&hub, RDF_TYPE, &cat2(PKG, "UpstreamProject"));
    writer.write_literal(&hub, &cat2(PKG, "projectName"), &project_name_from_repo_url(url));
    writer.write_triple(&hub, &cat2(PKG, "projectRepository"), &repo_uri(url));
    3
}

pub open spec fn host_of(url: Seq<char>) -> Seq<char> {
    match forge_repo(url) {
        Some(repo) => repo.0,
        None => url,
    }
}

pub open spec fn software_or_unknown(host: Seq<char>) -> Seq<char> {
    match forge_software(host) {
        Some(x) => x,
        None => "unknown"@,
    }
}

/// The forge that hosts a repository.
pub open spec fn with_forge(w: Sheet, repo: Seq<char>, url: Seq<char>) -> Sheet {
    let host = host_of(url);
    let forge = res1("forge"@, host);
    let w = link(w, repo, VCS@ + "hostedOn"@, forge);
    let w = link(w, forge, RDF_TYPE@, VCS@ + "Forge"@);
    let w = literal(w, forge, VCS@ + "forgeUrl"@, "https://"@ + host);
    literal(w, forge, VCS@ + "forgeSoftware"@, software_or_unknown(host))
}

pub fn emit_forge_triples(writer: &mut NTriplesWriter, repo: &str, url: &str) -> (r: usize)
    ensures
        final(writer)@ == with_forge(old(writer)@, repo@, url@),
        r == 4,
{
    let host: String = match extract_repo(url) {
        Some(x) => x.host,
        None => url.to_owned(),
    };
    let software: String = match software_of(&host) {
        Some(x) => x,
        None => "unknown".to_owned(),
    };
    let mut forge: String = cat3(DATA, "forge", "/");
    forge.append(&encode(&host));
    writer.write_triple(repo, &cat2(VCS, "hostedOn"), &forge);
    writer.write_triple(&forge, RDF_TYPE, &cat2(VCS, "Forge"));
    writer.write_literal(&forge, &cat2(VCS, "forgeUrl"), &cat2("https://", &host));
    writer.write_literal(&forge, &cat2(VCS, "forgeSoftware"), &software);
    4
}

/// The upstream repository of a package identity, its forge and its project.
pub open spec fn with_upstream_repo(w: Sheet, identity: Seq<char>, url: Seq<char>) -> Sheet {
    let repo = repo_iri(url);
    let w = link(w, identity, pkg("upstreamRepository"@), repo);
    let w = link(w, repo, RDF_TYPE@, VCS@ + "Repository"@);
    let w = literal(w, repo, VCS@ + "repositoryURL"@, url);
    let w = with_forge(w, repo, url);
    with_upstream_project(w, url)
}

pub fn emit_upstream_repo(writer: &mut NTriplesWriter, identity: &str, url: &str) -> (r: usize)
    ensures
        final(writer)@ == with_upstream_repo(old(writer)@, identity@, url@),
        r == 10,
{
    let repo: String = repo_uri(url);
    writer.write_triple(identity, &cat2(PKG, "upstreamRepository"), &repo);
    writer.write_triple(&repo, RDF_TYPE, &cat2(VCS, "Repository"));
    writer.write_literal(&repo, &cat2(VCS, "repositoryURL"), url);
    emit_forge_triples(writer, &repo, url);
    emit_upstream_project(writer, url);
    10
}

/// The node of an issue: the collector, the field, the issue and the value.
pub open spec fn issue_iri(
    collector: Seq<char>,
    field: Seq<char>,
    value: Seq<char>,
    issue: Seq<char>,
) -> Seq<char> {
    res1("dq"@, collector) + "/"@ + enc(field) + "/"@ + enc(issue) + "/"@ + enc(value)
}

/// A data-quality issue: what a collector found wrong or noteworthy in a field.
pub open spec fn with_dq_issue(
    w: Sheet,
    collector: Seq<char>,
    field: Seq<char>,
    value: Seq<char>,
    issue: Seq<char>,
    severity: Seq<char>,
) -> Sheet {
    let node = issue_iri(collector, field, value, issue);
    let w = link(w, node, RDF_TYPE@, pkg("DataQualityIssue"@));
    let w = literal(w, node, pkg("dqCollector"@), collector);
    let w = literal(w, node, pkg("dqField"@), field);
    let w = literal(w, node, pkg("dqValue"@), value);
    let w = literal(w, node, pkg("dqIssueType"@), issue);
    literal(w, node, pkg("dqSeverity"@), severity)
}

pub fn emit_dq_issue(
    writer: &mut NTriplesWriter,
    collector: &str,
    field: &str,
    value: &str,
    issue: &str,
    severity: &str,
) -> (r: usize)
    ensures
        final(writer)@ == with_dq_issue(
            old(writer)@,
            collector@,
            field@,
            value@,
            issue@,
            severity@,
        ),
        r == 6,
{
    let mut node: String = cat3(DATA, "dq", "/");
    node.append(&encode(collector));
    node.append("/");
    node.append(&encode(field));
    node.append("/");
    node.append(&encode(issue));
    node.append("/");
    node.append(&encode(value));
    writer.write_triple(&node, RDF_TYPE, &cat2(PKG, "DataQualityIssue"));
    writer.write_literal(&node, &cat2(PKG, "dqCollector"), collector);
    writer.write_literal(&node, &cat2(PKG, "dqField"), field);
    writer.write_literal(&node, &cat2(PKG, "dqValue"), value);
    writer.write_literal(&node, &cat2(PKG, "dqIssueType"), issue);
    writer.write_literal(&node, &cat2(PKG, "dqSeverity"), severity);
    6
}

} // verus!
