//! What is said of forges, repositories and faults in the data.

use crate::forge::{
    host_of, issue_iri, project_name, software_or_unknown, with_dq_issue, with_forge,
    with_upstream_project, with_upstream_repo,
};
use crate::ntriples::{link, literal, pkg, Fact, Sheet};
use crate::reading::{group_vcs, group_writes, said, to_iri, to_text};
use crate::uris::{repo_iri, res1, upstream_iri, RDF_TYPE, VCS};
use vstd::prelude::*;

verus! {

/// What is said of an upstream project: what it is, its name and its repository.
pub open spec fn upstream_project_told(
    first: Seq<Fact>,
    last: Seq<Fact>,
    url: Seq<char>,
) -> bool {
    let hub = upstream_iri(url);
    &&& said(last, RDF_TYPE@) == said(first, RDF_TYPE@) + seq![to_iri(hub, pkg("UpstreamProject"@))]
    &&& said(last, pkg("projectName"@)) == said(first, pkg("projectName"@))
        + seq![to_text(hub, project_name(url))]
    &&& said(last, pkg("projectRepository"@)) == said(first, pkg("projectRepository"@))
        + seq![to_iri(hub, repo_iri(url))]
    &&& forall|q: Seq<char>|
        q != RDF_TYPE@ && q != pkg("projectName"@) && q != pkg("projectRepository"@)
            ==> #[trigger] said(last, q) == said(first, q)
}

proof fn lemma_upstream_project_in_steps(w: Sheet, url: Seq<char>)
    ensures
        with_upstream_project(w, url) == ({
            let hub = upstream_iri(url);
            let w = link(w, hub, RDF_TYPE@, pkg("UpstreamProject"@));
            let w = literal(w, hub, pkg("projectName"@), project_name(url));
            let w = link(w, hub, pkg("projectRepository"@), repo_iri(url));
            w
        }),
{
}

proof fn lemma_upstream_project_steps(w: Sheet, url: Seq<char>)
    ensures
        upstream_project_told(w.log, ({
            let hub = upstream_iri(url);
            let w = link(w, hub, RDF_TYPE@, pkg("UpstreamProject"@));
            let w = literal(w, hub, pkg("projectName"@), project_name(url));
            let w = link(w, hub, pkg("projectRepository"@), repo_iri(url));
            w
        }).log, url),
{
    broadcast use group_writes;

    reveal_strlit("projectName");
    reveal_strlit("projectRepository");
    let hub = upstream_iri(url);
    let w1 = link(w, hub, RDF_TYPE@, pkg("UpstreamProject"@));
    let w2 = literal(w1, hub, pkg("projectName"@), project_name(url));
    let w3 = link(w2, hub, pkg("projectRepository"@), repo_iri(url));
}

/// What [`with_upstream_project`] writes says what [`upstream_project_told`] states.
pub proof fn lemma_upstream_project_told(
    w: Sheet,
    url: Seq<char>,
)
    ensures
        upstream_project_told(w.log, with_upstream_project(w, url).log, url),
{
    lemma_upstream_project_in_steps(w, url);
    lemma_upstream_project_steps(w, url);
}

/// What is said of the forge of a repository: that it hosts it, its address and its
/// software.
pub open spec fn forge_told(
    first: Seq<Fact>,
    last: Seq<Fact>,
    repo: Seq<char>,
    url: Seq<char>,
) -> bool {
    let host = host_of(url);
    let forge = res1("forge"@, host);
    &&& said(last, VCS@ + "hostedOn"@) == said(first, VCS@ + "hostedOn"@)
        + seq![to_iri(repo, forge)]
    &&& said(last, RDF_TYPE@) == said(first, RDF_TYPE@) + seq![to_iri(forge, VCS@ + "Forge"@)]
    &&& said(last, VCS@ + "forgeUrl"@) == said(first, VCS@ + "forgeUrl"@)
        + seq![to_text(forge, "https://"@ + host)]
    &&& said(last, VCS@ + "forgeSoftware"@) == said(first, VCS@ + "forgeSoftware"@)
        + seq![to_text(forge, software_or_unknown(host))]
    &&& forall|q: Seq<char>|
        q != VCS@ + "hostedOn"@
            && q != RDF_TYPE@
            && q != VCS@ + "forgeUrl"@
            && q != VCS@ + "forgeSoftware"@
            ==> #[trigger] said(last, q) == said(first, q)
}

proof fn lemma_forge_in_steps(w: Sheet, repo: Seq<char>, url: Seq<char>)
    ensures
        with_forge(w, repo, url) == ({
            let host = host_of(url);
            let forge = res1("forge"@, host);
            let w = link(w, repo, VCS@ + "hostedOn"@, forge);
            let w = link(w, forge, RDF_TYPE@, VCS@ + "Forge"@);
            let w = literal(w, forge, VCS@ + "forgeUrl"@, "https://"@ + host);
            let w = literal(w, forge, VCS@ + "forgeSoftware"@, software_or_unknown(host));
            w
        }),
{
}

proof fn lemma_forge_steps(w: Sheet, repo: Seq<char>, url: Seq<char>)
    ensures
        forge_told(w.log, ({
            let host = host_of(url);
            let forge = res1("forge"@, host);
            let w = link(w, repo, VCS@ + "hostedOn"@, forge);
            let w = link(w, forge, RDF_TYPE@, VCS@ + "Forge"@);
            let w = literal(w, forge, VCS@ + "forgeUrl"@, "https://"@ + host);
            let w = literal(w, forge, VCS@ + "forgeSoftware"@, software_or_unknown(host));
            w
        }).log, repo, url),
{
    broadcast use {group_writes, group_vcs};

    reveal_strlit("hostedOn");
    reveal_strlit("forgeUrl");
    reveal_strlit("forgeSoftware");
    let host = host_of(url);
    let forge = res1("forge"@, host);
    let w1 = link(w, repo, VCS@ + "hostedOn"@, forge);
    let w2 = link(w1, forge, RDF_TYPE@, VCS@ + "Forge"@);
    let w3 = literal(w2, forge, VCS@ + "forgeUrl"@, "https://"@ + host);
    let w4 = literal(w3, forge, VCS@ + "forgeSoftware"@, software_or_unknown(host));
}

/// What [`with_forge`] writes says what [`forge_told`] states.
pub proof fn lemma_forge_told(
    w: Sheet,
    repo: Seq<char>,
    url: Seq<char>,
)
    ensures
        forge_told(w.log, with_forge(w, repo, url).log, repo, url),
{
    lemma_forge_in_steps(w, repo, url);
    lemma_forge_steps(w, repo, url);
}

/// What is said of the repository of a package: that it is the one upstream, its address,
/// its forge and its project.
pub open spec fn upstream_repo_told(
    first: Seq<Fact>,
    last: Seq<Fact>,
    identity: Seq<char>,
    url: Seq<char>,
) -> bool {
    let repo = repo_iri(url);
    &&& said(last, pkg("upstreamRepository"@)) == said(first, pkg("upstreamRepository"@))
        + seq![to_iri(identity, repo)]
    &&& said(last, RDF_TYPE@) == said(first, RDF_TYPE@)
        + seq![to_iri(repo, VCS@ + "Repository"@)]
        + seq![to_iri(res1("forge"@, host_of(url)), VCS@ + "Forge"@)]
        + seq![to_iri(upstream_iri(url), pkg("UpstreamProject"@))]
    &&& said(last, VCS@ + "repositoryURL"@) == said(first, VCS@ + "repositoryURL"@)
        + seq![to_text(repo, url)]
    &&& said(last, VCS@ + "hostedOn"@) == said(first, VCS@ + "hostedOn"@)
        + seq![to_iri(repo, res1("forge"@, host_of(url)))]
    &&& said(last, VCS@ + "forgeUrl"@) == said(first, VCS@ + "forgeUrl"@)
        + seq![to_text(res1("forge"@, host_of(url)), "https://"@ + host_of(url))]
    &&& said(last, VCS@ + "forgeSoftware"@) == said(first, VCS@ + "forgeSoftware"@)
        + seq![to_text(res1("forge"@, host_of(url)), software_or_unknown(host_of(url)))]
    &&& said(last, pkg("projectName"@)) == said(first, pkg("projectName"@))
        + seq![to_text(upstream_iri(url), project_name(url))]
    &&& said(last, pkg("projectRepository"@)) == said(first, pkg("projectRepository"@))
        + seq![to_iri(upstream_iri(url), repo_iri(url))]
    &&& forall|q: Seq<char>|
        q != pkg("upstreamRepository"@)
            && q != RDF_TYPE@
            && q != VCS@ + "repositoryURL"@
            && q != VCS@ + "hostedOn"@
            && q != VCS@ + "forgeUrl"@
            && q != VCS@ + "forgeSoftware"@
            && q != pkg("projectName"@)
            && q != pkg("projectRepository"@)
            ==> #[trigger] said(last, q) == said(first, q)
}

proof fn lemma_upstream_repo_in_steps(w: Sheet, identity: Seq<char>, url: Seq<char>)
    ensures
        with_upstream_repo(w, identity, url) == ({
            let repo = repo_iri(url);
            let w = link(w, identity, pkg("upstreamRepository"@), repo);
            let w = link(w, repo, RDF_TYPE@, VCS@ + "Repository"@);
            let w = literal(w, repo, VCS@ + "repositoryURL"@, url);
            let w = with_forge(w, repo, url);
            let w = with_upstream_project(w, url);
            w
        }),
{
}

proof fn lemma_upstream_repo_steps(w: Sheet, identity: Seq<char>, url: Seq<char>)
    ensures
        upstream_repo_told(w.log, ({
            let repo = repo_iri(url);
            let w = link(w, identity, pkg("upstreamRepository"@), repo);
            let w = link(w, repo, RDF_TYPE@, VCS@ + "Repository"@);
            let w = literal(w, repo, VCS@ + "repositoryURL"@, url);
            let w = with_forge(w, repo, url);
            let w = with_upstream_project(w, url);
            w
        }).log, identity, url),
{
    broadcast use {group_writes, group_vcs};

    reveal_strlit("upstreamRepository");
    reveal_strlit("repositoryURL");
    reveal_strlit("hostedOn");
    reveal_strlit("forgeUrl");
    reveal_strlit("forgeSoftware");
    reveal_strlit("projectName");
    reveal_strlit("projectRepository");
    let repo = repo_iri(url);
    let w1 = link(w, identity, pkg("upstreamRepository"@), repo);
    let w2 = link(w1, repo, RDF_TYPE@, VCS@ + "Repository"@);
    let w3 = literal(w2, repo, VCS@ + "repositoryURL"@, url);
    let w4 = with_forge(w3, repo, url);
    lemma_forge_told(w3, repo, url);
    let w5 = with_upstream_project(w4, url);
    lemma_upstream_project_told(w4, url);
}

/// What [`with_upstream_repo`] writes says what [`upstream_repo_told`] states.
pub proof fn lemma_upstream_repo_told(
    w: Sheet,
    identity: Seq<char>,
    url: Seq<char>,
)
    ensures
        upstream_repo_told(w.log, with_upstream_repo(w, identity, url).log, identity, url),
{
    lemma_upstream_repo_in_steps(w, identity, url);
    lemma_upstream_repo_steps(w, identity, url);
}

/// What is said of a fault in the data: who found it, in which field, in which value, which
/// one it is and how grave it is.
pub open spec fn dq_issue_told(
    first: Seq<Fact>,
    last: Seq<Fact>,
    collector: Seq<char>,
    field: Seq<char>,
    value: Seq<char>,
    issue: Seq<char>,
    severity: Seq<char>,
) -> bool {
    let node = issue_iri(collector, field, value, issue);
    &&& said(last, RDF_TYPE@) == said(first, RDF_TYPE@)
        + seq![to_iri(node, pkg("DataQualityIssue"@))]
    &&& said(last, pkg("dqCollector"@)) == said(first, pkg("dqCollector"@))
        + seq![to_text(node, collector)]
    &&& said(last, pkg("dqField"@)) == said(first, pkg("dqField"@)) + seq![to_text(node, field)]
    &&& said(last, pkg("dqValue"@)) == said(first, pkg("dqValue"@)) + seq![to_text(node, value)]
    &&& said(last, pkg("dqIssueType"@)) == said(first, pkg("dqIssueType"@))
        + seq![to_text(node, issue)]
    &&& said(last, pkg("dqSeverity"@)) == said(first, pkg("dqSeverity"@))
        + seq![to_text(node, severity)]
    &&& forall|q: Seq<char>|
        q != RDF_TYPE@
            && q != pkg("dqCollector"@)
            && q != pkg("dqField"@)
            && q != pkg("dqValue"@)
            && q != pkg("dqIssueType"@)
            && q != pkg("dqSeverity"@)
            ==> #[trigger] said(last, q) == said(first, q)
}

proof fn lemma_dq_issue_in_steps(
    w: Sheet,
    collector: Seq<char>,
    field: Seq<char>,
    value: Seq<char>,
    issue: Seq<char>,
    severity: Seq<char>,
)
    ensures
        with_dq_issue(w, collector, field, value, issue, severity) == ({
            let node = issue_iri(collector, field, value, issue);
            let w = link(w, node, RDF_TYPE@, pkg("DataQualityIssue"@));
            let w = literal(w, node, pkg("dqCollector"@), collector);
            let w = literal(w, node, pkg("dqField"@), field);
            let w = literal(w, node, pkg("dqValue"@), value);
            let w = literal(w, node, pkg("dqIssueType"@), issue);
            let w = literal(w, node, pkg("dqSeverity"@), severity);
            w
        }),
{
}

proof fn lemma_dq_issue_steps(
    w: Sheet,
    collector: Seq<char>,
    field: Seq<char>,
    value: Seq<char>,
    issue: Seq<char>,
    severity: Seq<char>,
)
    ensures
        dq_issue_told(w.log, ({
            let node = issue_iri(collector, field, value, issue);
            let w = link(w, node, RDF_TYPE@, pkg("DataQualityIssue"@));
            let w = literal(w, node, pkg("dqCollector"@), collector);
            let w = literal(w, node, pkg("dqField"@), field);
            let w = literal(w, node, pkg("dqValue"@), value);
            let w = literal(w, node, pkg("dqIssueType"@), issue);
            let w = literal(w, node, pkg("dqSeverity"@), severity);
            w
        }).log, collector, field, value, issue, severity),
{
    broadcast use group_writes;

    reveal_strlit("dqCollector");
    reveal_strlit("dqField");
    reveal_strlit("dqValue");
    reveal_strlit("dqIssueType");
    reveal_strlit("dqSeverity");
    let node = issue_iri(collector, field, value, issue);
    let w1 = link(w, node, RDF_TYPE@, pkg("DataQualityIssue"@));
    let w2 = literal(w1, node, pkg("dqCollector"@), collector);
    let w3 = literal(w2, node, pkg("dqField"@), field);
    let w4 = literal(w3, node, pkg("dqValue"@), value);
    let w5 = literal(w4, node, pkg("dqIssueType"@), issue);
    let w6 = literal(w5, node, pkg("dqSeverity"@), severity);
}

/// What [`with_dq_issue`] writes says what [`dq_issue_told`] states.
pub proof fn lemma_dq_issue_told(
    w: Sheet,
    collector: Seq<char>,
    field: Seq<char>,
    value: Seq<char>,
    issue: Seq<char>,
    severity: Seq<char>,
)
    ensures
        dq_issue_told(
            w.log,
            with_dq_issue(w, collector, field, value, issue, severity).log,
            collector,
            field,
            value,
            issue,
            severity,
        ),
{
    lemma_dq_issue_in_steps(w, collector, field, value, issue, severity);
    lemma_dq_issue_steps(w, collector, field, value, issue, severity);
}

} // verus!
