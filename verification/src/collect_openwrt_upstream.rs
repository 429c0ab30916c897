//! The upstream projects of OpenWrt packages, by where their sources come from.

use crate::forge::{
    extract_forge_url, forge_url, project_name, project_name_from_repo_url, with_upstream_project,
};
use crate::ntriples::{link, literal, pkg, NTriplesWriter, Sheet, PKG};
use crate::text::{cat2, has_item, lemma_views_empty, opt, same, views};
use crate::textmap::{field, Fields, TextMap};
use crate::uris::{repo_iri, repo_uri, upstream_iri, upstream_uri, RDF_TYPE};
use vstd::prelude::*;

verus! {

broadcast use crate::text::lemma_views_push;

/// Where the source of a package comes from.
pub struct OpenWrtPackageMeta {
    pub source_url: Option<String>,
    pub source_proto: Option<String>,
    pub source_hash: Option<String>,
}

/// What a [`OpenWrtPackageMeta`] says.
#[verifier::ext_equal]
pub struct SourceMeta {
    pub source_url: Option<Seq<char>>,
    pub source_proto: Option<Seq<char>>,
    pub source_hash: Option<Seq<char>>,
}

impl View for OpenWrtPackageMeta {
    type V = SourceMeta;

    open spec fn view(&self) -> SourceMeta {
        SourceMeta {
            source_url: crate::text::opt(self.source_url),
            source_proto: crate::text::opt(self.source_proto),
            source_hash: crate::text::opt(self.source_hash),
        }
    }
}

/// Makes upstream projects out of the places that sources come from.
pub struct OpenwrtUpstreamCollector {
    pub distro_name: String,
    pub release_name: String,
}

/// Whether a source is a checkout.
pub open spec fn is_checkout(proto: Option<Seq<char>>) -> bool {
    proto == Some("git"@)
}

fn comes_by_git(proto: &Option<String>) -> (r: bool)
    ensures
        r == is_checkout(opt(*proto)),
{
    match proto {
        Some(p) => same(p, "git"),
        None => false,
    }
}

/// The repository of a source: only a checkout has one, and only on a known forge.
pub open spec fn source_repo(url: Seq<char>, proto: Option<Seq<char>>) -> Option<Seq<char>> {
    if is_checkout(proto) {
        forge_url(url)
    } else {
        None
    }
}

fn repo_of_source(url: &str, proto: &Option<String>) -> (r: Option<String>)
    ensures
        opt(r) == source_repo(url@, opt(*proto)),
{
    if comes_by_git(proto) {
        extract_forge_url(url)
    } else {
        None
    }
}

/// The upstream project of a source: that of its repository, or one of its own
/// under the name of the package.
pub open spec fn project_of(name: Seq<char>, repo: Option<Seq<char>>) -> Seq<char> {
    match repo {
        Some(u) => upstream_iri(u),
        None => upstream_iri("openwrt/"@ + name),
    }
}

fn project_for(name: &str, repo: &Option<String>) -> (r: String)
    ensures
        r@ == project_of(name@, opt(*repo)),
{
    match repo {
        Some(u) => upstream_uri(u),
        None => upstream_uri(&cat2("openwrt/", name)),
    }
}

/// An upstream project: its name, and its repository or the address of an archive.
pub open spec fn with_source_project(
    w: Sheet,
    name: Seq<char>,
    url: Seq<char>,
    proto: Option<Seq<char>>,
    repo: Option<Seq<char>>,
) -> Sheet {
    let project = project_of(name, repo);
    let w = link(w, project, RDF_TYPE@, pkg("UpstreamProject"@));
    let w = match repo {
        Some(u) => {
            let slug = project_name(u);
            literal(w, project, pkg("projectName"@), slug)
        },
        None => {
            literal(w, project, pkg("projectName"@), name)
        },
    };
    let w = if is_checkout(proto) {
        let w = match repo {
            Some(u) => {
                link(w, project, pkg("projectRepository"@), repo_iri(u))
            },
            None => w,
        };
        w
    } else {
        literal(w, project, pkg("projectUrl"@), url)
    };
    w
}

/// An upstream project: its name, and its repository or the address of an archive.
pub fn emit_source_project(
    writer: &mut NTriplesWriter,
    name: &str,
    url: &str,
    proto: &Option<String>,
    repo: &Option<String>,
) -> (r: usize)
    ensures
        final(writer)@ == with_source_project(old(writer)@, name@, url@, opt(*proto), opt(*repo)),
        r == final(writer)@.log.len() - old(writer)@.log.len(),
{
    let start: usize = writer.len();
    let project: String = project_for(name, repo);
    writer.write_triple(&project, RDF_TYPE, &cat2(PKG, "UpstreamProject"));
    if let Some(u) = &(*repo) {
        let slug: String = project_name_from_repo_url(u);
        writer.write_literal(&project, &cat2(PKG, "projectName"), &slug);
    } else {
        writer.write_literal(&project, &cat2(PKG, "projectName"), name);
    }
    if comes_by_git(proto) {
        if let Some(u) = &(*repo) {
            writer.write_triple(&project, &cat2(PKG, "projectRepository"), &repo_uri(u));
        }
    } else {
        writer.write_literal(&project, &cat2(PKG, "projectUrl"), url);
    }
    writer.len() - start
}

/// A package whose source is on a known forge has the project that every other
/// package with that repository has, described in the same words.
pub proof fn lemma_projects_converge(
    w: Sheet,
    name: Seq<char>,
    url: Seq<char>,
    repo: Seq<char>,
)
    requires
        forge_url(url) == Some(repo),
    ensures
        with_source_project(
            w,
            name,
            url,
            Some("git"@),
            source_repo(url, Some("git"@)),
        ) == with_upstream_project(w, repo),
        project_of(name, source_repo(url, Some("git"@))) == upstream_iri(repo),
{
}

/// The package whose source a package is built from.
pub open spec fn effective_name(parents: Map<Seq<char>, Seq<char>>, name: Seq<char>) -> Seq<char> {
    match field(parents, name) {
        Some(p) => p,
        None => name,
    }
}

/// What a run over packages has come to: the statements, and the packages whose
/// projects were described.
#[verifier::ext_equal]
pub struct UpstreamRun {
    pub sheet: Sheet,
    pub described: Seq<Seq<char>>,
}

/// The state after one more package. A project is described once, and every
/// package of it is linked to it.
pub open spec fn package_linked(
    r: UpstreamRun,
    package: (Seq<char>, Seq<char>),
    metas: Map<Seq<char>, SourceMeta>,
    parents: Map<Seq<char>, Seq<char>>,
) -> UpstreamRun {
    let name = effective_name(parents, package.0);
    if !metas.contains_key(name) {
        r
    } else {
        let meta = metas[name];
        match meta.source_url {
            None => r,
            Some(url) => {
                let repo = source_repo(url, meta.source_proto);
                let project = project_of(name, repo);
                let known = r.described.contains(name);
                let sheet = if known {
                    r.sheet
                } else {
                    with_source_project(r.sheet, name, url, meta.source_proto, repo)
                };
                UpstreamRun {
                    sheet: link(sheet, package.1, pkg("hasUpstreamProject"@), project),
                    described: if known {
                        r.described
                    } else {
                        r.described.push(name)
                    },
                }
            },
        }
    }
}

/// The state after the first `n` packages.
pub open spec fn packages_linked(
    r: UpstreamRun,
    packages: Seq<(Seq<char>, Seq<char>)>,
    n: nat,
    metas: Map<Seq<char>, SourceMeta>,
    parents: Map<Seq<char>, Seq<char>>,
) -> UpstreamRun
    decreases n,
{
    if n == 0 {
        r
    } else {
        package_linked(
            packages_linked(r, packages, (n - 1) as nat, metas, parents),
            packages[n - 1],
            metas,
            parents,
        )
    }
}

fn parent_or_self(parents: &Fields, name: &str) -> (r: String)
    ensures
        r@ == effective_name(parents@, name@),
{
    match parents.get(name) {
        Some(p) => p.clone(),
        None => name.to_owned(),
    }
}

impl OpenwrtUpstreamCollector {
    pub fn new(distro_name: String, release_name: String) -> (r: Self)
        ensures
            r.distro_name == distro_name,
            r.release_name == release_name,
    {
        OpenwrtUpstreamCollector { distro_name, release_name }
    }

    fn link_package(
        &self,
        writer: &mut NTriplesWriter,
        described: &mut Vec<String>,
        name: &str,
        package: &str,
        parsed_meta: &TextMap<OpenWrtPackageMeta>,
        parent_map: &Fields,
    )
        ensures
            (UpstreamRun { sheet: final(writer)@, described: views(final(described)@) })
                == package_linked(
                (UpstreamRun { sheet: old(writer)@, described: views(old(described)@) }),
                (name@, package@),
                parsed_meta@,
                parent_map@,
            ),
            final(writer)@.log.len() >= old(writer)@.log.len(),
    {
        let effective: String = parent_or_self(parent_map, name);
        if let Some(meta) = parsed_meta.get(&effective) {
            if let Some(url) = &meta.source_url {
                let repo: Option<String> = repo_of_source(url, &meta.source_proto);
                let project: String = project_for(&effective, &repo);
                if !has_item(described, &effective) {
                    emit_source_project(writer, &effective, url, &meta.source_proto, &repo);
                    described.push(effective);
                }
                writer.write_triple(package, &cat2(PKG, "hasUpstreamProject"), &project);
            }
        }
    }

    /// Links packages to upstream projects, given where the sources come from and
    /// which package each subpackage belongs to. Returns how many statements that
    /// gave.
    pub fn collect(
        &self,
        writer: &mut NTriplesWriter,
        identity_map: &Fields,
        parsed_meta: &TextMap<OpenWrtPackageMeta>,
        parent_map: &Fields,
    ) -> (r: usize)
        ensures
            final(writer)@ == packages_linked(
                (UpstreamRun { sheet: old(writer)@, described: Seq::empty() }),
                identity_map.order(),
                identity_map.order().len(),
                parsed_meta@,
                parent_map@,
            ).sheet,
            r == final(writer)@.log.len() - old(writer)@.log.len(),
    {
        let start: usize = writer.len();
        let mut described: Vec<String> = Vec::new();
        let mut i: usize = 0;
        proof {
            lemma_views_empty();
        }
        let ghost r0 = UpstreamRun { sheet: writer@, described: Seq::empty() };
        while i < identity_map.len()
            invariant
                i <= identity_map.order().len(),
                start == old(writer)@.log.len(),
                start <= writer@.log.len(),
                r0 == (UpstreamRun { sheet: old(writer)@, described: Seq::empty() }),
                (UpstreamRun { sheet: writer@, described: views(described@) }) == packages_linked(
                    r0,
                    identity_map.order(),
                    i as nat,
                    parsed_meta@,
                    parent_map@,
                ),
            decreases identity_map.order().len() - i,
        {
            self.link_package(
                writer,
                &mut described,
                identity_map.key_at(i),
                identity_map.value_at(i),
                parsed_meta,
                parent_map,
            );
            i = i + 1;
        }
        writer.len() - start
    }
}

} // verus!
