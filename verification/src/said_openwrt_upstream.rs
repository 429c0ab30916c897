//! What is said of the upstream of OpenWrt packages.

use crate::collect_openwrt_upstream::{
    effective_name, is_checkout, package_linked, project_of, source_repo, with_source_project,
    SourceMeta, UpstreamRun,
};
use crate::forge::project_name;
use crate::ntriples::{link, literal, pkg, Fact, Sheet};
use crate::reading::{group_reading, group_writes, said, to_iri, to_text, where_so};
use crate::uris::{repo_iri, RDF_TYPE};
use vstd::prelude::*;

verus! {

#[verifier::opaque]
spec fn source_project_step_1(
    w: Sheet,
    name: Seq<char>,
    repo: Option<Seq<char>>,
    project: Seq<char>,
) -> Sheet {
    match repo {
        Some(u) => { let slug = project_name(u); literal(w, project, pkg("projectName"@), slug) },
        None => { literal(w, project, pkg("projectName"@), name) },
    }
}

proof fn lemma_source_project_step_1(
    w: Sheet,
    name: Seq<char>,
    repo: Option<Seq<char>>,
    project: Seq<char>,
)
    ensures
        ({
            let first = w.log;
            let last = source_project_step_1(w, name, repo, project).log;
            &&& said(last, pkg("projectName"@)) == said(first, pkg("projectName"@))
                + (
                    match repo {
                        Some(u) => seq![to_text(project, project_name(u))],
                        None => Seq::empty(),
                    }
                )
                + (match repo {Some(u) => Seq::empty(), None => seq![to_text(project, name)]})
            &&& forall|q: Seq<char>|
                q != pkg("projectName"@) ==> #[trigger] said(last, q) == said(first, q)
        }),
{
    broadcast use group_reading;

    reveal(source_project_step_1);
    reveal_strlit("projectName");
}

#[verifier::opaque]
spec fn source_project_step_2(
    w: Sheet,
    url: Seq<char>,
    proto: Option<Seq<char>>,
    repo: Option<Seq<char>>,
    project: Seq<char>,
) -> Sheet {
    if is_checkout(proto) {
        let w = match repo {
            Some(u) => { link(w, project, pkg("projectRepository"@), repo_iri(u)) },
            None => w,
        };
        w
    } else {
        literal(w, project, pkg("projectUrl"@), url)
    }
}

proof fn lemma_source_project_step_2(
    w: Sheet,
    url: Seq<char>,
    proto: Option<Seq<char>>,
    repo: Option<Seq<char>>,
    project: Seq<char>,
)
    ensures
        ({
            let first = w.log;
            let last = source_project_step_2(w, url, proto, repo, project).log;
            &&& said(last, pkg("projectRepository"@)) == said(first, pkg("projectRepository"@))
                + where_so(
                    is_checkout(proto),
                    (
                        match repo {
                            Some(u) => seq![to_iri(project, repo_iri(u))],
                            None => Seq::empty(),
                        }
                    ),
                )
            &&& said(last, pkg("projectUrl"@)) == said(first, pkg("projectUrl"@))
                + where_so(!(is_checkout(proto)), seq![to_text(project, url)])
            &&& forall|q: Seq<char>|
                q != pkg("projectRepository"@) && q != pkg("projectUrl"@)
                    ==> #[trigger] said(last, q) == said(first, q)
        }),
{
    broadcast use group_reading;

    reveal(source_project_step_2);
    reveal_strlit("projectRepository");
    reveal_strlit("projectUrl");
}

/// What is said of an upstream project: its name, which is that of its repository where
/// that is known, and its repository where sources are checked out, its address else.
pub open spec fn source_project_told(
    first: Seq<Fact>,
    last: Seq<Fact>,
    name: Seq<char>,
    url: Seq<char>,
    proto: Option<Seq<char>>,
    repo: Option<Seq<char>>,
) -> bool {
    let project = project_of(name, repo);
    &&& said(last, RDF_TYPE@) == said(first, RDF_TYPE@)
        + seq![to_iri(project, pkg("UpstreamProject"@))]
    &&& said(last, pkg("projectName"@)) == said(first, pkg("projectName"@))
        + (match repo {Some(u) => seq![to_text(project, project_name(u))], None => Seq::empty()})
        + (match repo {Some(u) => Seq::empty(), None => seq![to_text(project, name)]})
    &&& said(last, pkg("projectRepository"@)) == said(first, pkg("projectRepository"@))
        + where_so(
            is_checkout(proto),
            (match repo {Some(u) => seq![to_iri(project, repo_iri(u))], None => Seq::empty()}),
        )
    &&& said(last, pkg("projectUrl"@)) == said(first, pkg("projectUrl"@))
        + where_so(!(is_checkout(proto)), seq![to_text(project, url)])
    &&& forall|q: Seq<char>|
        q != RDF_TYPE@
            && q != pkg("projectName"@)
            && q != pkg("projectRepository"@)
            && q != pkg("projectUrl"@)
            ==> #[trigger] said(last, q) == said(first, q)
}

proof fn lemma_source_project_in_steps(
    w: Sheet,
    name: Seq<char>,
    url: Seq<char>,
    proto: Option<Seq<char>>,
    repo: Option<Seq<char>>,
)
    ensures
        with_source_project(w, name, url, proto, repo) == ({
            let project = project_of(name, repo);
            let w = link(w, project, RDF_TYPE@, pkg("UpstreamProject"@));
            let w = source_project_step_1(w, name, repo, project);
            let w = source_project_step_2(w, url, proto, repo, project);
            w
        }),
{
    reveal(source_project_step_1);
    reveal(source_project_step_2);
}

proof fn lemma_source_project_steps(
    w: Sheet,
    name: Seq<char>,
    url: Seq<char>,
    proto: Option<Seq<char>>,
    repo: Option<Seq<char>>,
)
    ensures
        source_project_told(w.log, ({
            let project = project_of(name, repo);
            let w = link(w, project, RDF_TYPE@, pkg("UpstreamProject"@));
            let w = source_project_step_1(w, name, repo, project);
            let w = source_project_step_2(w, url, proto, repo, project);
            w
        }).log, name, url, proto, repo),
{
    broadcast use group_writes;

    reveal_strlit("projectName");
    reveal_strlit("projectRepository");
    reveal_strlit("projectUrl");
    let project = project_of(name, repo);
    let w1 = link(w, project, RDF_TYPE@, pkg("UpstreamProject"@));
    let w2 = source_project_step_1(w1, name, repo, project);
    lemma_source_project_step_1(w1, name, repo, project);
    let w3 = source_project_step_2(w2, url, proto, repo, project);
    lemma_source_project_step_2(w2, url, proto, repo, project);
}

/// What [`with_source_project`] writes says what [`source_project_told`] states.
pub proof fn lemma_source_project_told(
    w: Sheet,
    name: Seq<char>,
    url: Seq<char>,
    proto: Option<Seq<char>>,
    repo: Option<Seq<char>>,
)
    ensures
        source_project_told(
            w.log,
            with_source_project(w, name, url, proto, repo).log,
            name,
            url,
            proto,
            repo,
        ),
{
    lemma_source_project_in_steps(w, name, url, proto, repo);
    lemma_source_project_steps(w, name, url, proto, repo);
}

/// A package whose source is known to come from somewhere has that project upstream, and
/// no other; a package of which nothing is known has none.
pub proof fn lemma_package_linked_told(
    r: UpstreamRun,
    package: (Seq<char>, Seq<char>),
    metas: Map<Seq<char>, SourceMeta>,
    parents: Map<Seq<char>, Seq<char>>,
)
    ensures
        ({
            let first = r.sheet.log;
            let last = package_linked(r, package, metas, parents).sheet.log;
            let name = effective_name(parents, package.0);
            &&& metas.contains_key(name) && metas[name].source_url is Some ==> {
                let meta = metas[name];
                let repo = source_repo(meta.source_url->0, meta.source_proto);
                said(last, pkg("hasUpstreamProject"@)) == said(first, pkg("hasUpstreamProject"@))
                    + seq![to_iri(package.1, project_of(name, repo))]
            }
            &&& !(metas.contains_key(name) && metas[name].source_url is Some) ==> last == first
        }),
{
    broadcast use group_writes;

    reveal_strlit("hasUpstreamProject");
    reveal_strlit("projectName");
    reveal_strlit("projectRepository");
    reveal_strlit("projectUrl");
    let name = effective_name(parents, package.0);
    if metas.contains_key(name) {
        let meta = metas[name];
        if let Some(url) = meta.source_url {
            let repo = source_repo(url, meta.source_proto);
            lemma_source_project_told(r.sheet, name, url, meta.source_proto, repo);
        }
    }
}

/// A package that is a part of another one stands for that one.
pub proof fn lemma_parts_stand_for_wholes(
    parents: Map<Seq<char>, Seq<char>>,
    name: Seq<char>,
)
    ensures
        parents.contains_key(name) ==> effective_name(parents, name) == parents[name],
        !parents.contains_key(name) ==> effective_name(parents, name) == name,
{
}

} // verus!
