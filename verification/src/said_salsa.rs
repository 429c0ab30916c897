//! What is said of Debian packages on Salsa.

use crate::collect_salsa::{
    first_address, reply_text, repository_in, wants_watch, watch_upstream, with_debian_changelog,
    with_debian_watch, with_each_identity_repo, with_each_metadata_line, with_each_registry_name,
    with_identity_repo, with_identity_repos, with_metadata_line, with_registry_name,
    with_registry_names, with_salsa_package, with_signer, with_upstream_metadata, SIGNED_BY,
    SalsaProgress, Upstream,
};
use crate::deps::{contact_of, Person};
use crate::derive_releases::Ecosystem;
use crate::forge::{forge_url, issue_iri, with_dq_issue};
use crate::ntriples::{link, literal, pkg, Fact, Sheet};
use crate::pattern::regex_captures;
use crate::reading::{
    group_foaf, group_reading, group_vcs, group_writes, in_turn, said, to_iri, to_text, where_so,
};
use crate::said_forge::{lemma_dq_issue_told, lemma_upstream_repo_told};
use crate::split::{lines, lines_of, trim};
use crate::uris::{ecosystem_iri, maintainer_iri, repo_iri, FOAF, RDFS_LABEL, RDF_TYPE};
use vstd::prelude::*;

verus! {

proof fn lemma_identity_repo_told(w: Sheet, url: Seq<char>, identity: Seq<char>)
    ensures
        ({
            let first = w.log;
            let last = with_identity_repo(w, url, identity).log;
            &&& said(last, pkg("upstreamRepository"@)) == said(first, pkg("upstreamRepository"@))
                + seq![to_iri(identity, repo_iri(url))]
            &&& said(last, pkg("upstreamEcosystem"@)) == said(first, pkg("upstreamEcosystem"@))
            &&& said(last, pkg("upstreamPackageName"@)) == said(first, pkg("upstreamPackageName"@))
            &&& said(last, pkg("maintainedBy"@)) == said(first, pkg("maintainedBy"@))
            &&& said(last, pkg("maintains"@)) == said(first, pkg("maintains"@))
            &&& said(last, pkg("dqField"@)) == said(first, pkg("dqField"@))
            &&& said(last, pkg("dqValue"@)) == said(first, pkg("dqValue"@))
            &&& said(last, pkg("dqIssueType"@)) == said(first, pkg("dqIssueType"@))
        }),
{
    broadcast use {group_reading, group_vcs};

    reveal_strlit("upstreamRepository");
    reveal_strlit("repositoryURL");
    reveal_strlit("hostedOn");
    reveal_strlit("forgeUrl");
    reveal_strlit("forgeSoftware");
    reveal_strlit("projectName");
    reveal_strlit("projectRepository");
    reveal_strlit("upstreamEcosystem");
    reveal_strlit("upstreamPackageName");
    reveal_strlit("maintainedBy");
    reveal_strlit("maintains");
    reveal_strlit("dqField");
    reveal_strlit("dqValue");
    reveal_strlit("dqIssueType");
    lemma_upstream_repo_told(w, identity, url);
}

proof fn lemma_each_identity_repo_told(w: Sheet, url: Seq<char>, items: Seq<Seq<char>>, n: nat)
    ensures
        ({
            let first = w.log;
            let last = with_each_identity_repo(w, url, items, n).log;
            &&& said(last, pkg("upstreamRepository"@)) == said(first, pkg("upstreamRepository"@))
                + in_turn(|k: int| seq![to_iri((items[k]), repo_iri(url))], n)
            &&& said(last, pkg("upstreamEcosystem"@)) == said(first, pkg("upstreamEcosystem"@))
            &&& said(last, pkg("upstreamPackageName"@)) == said(first, pkg("upstreamPackageName"@))
            &&& said(last, pkg("maintainedBy"@)) == said(first, pkg("maintainedBy"@))
            &&& said(last, pkg("maintains"@)) == said(first, pkg("maintains"@))
            &&& said(last, pkg("dqField"@)) == said(first, pkg("dqField"@))
            &&& said(last, pkg("dqValue"@)) == said(first, pkg("dqValue"@))
            &&& said(last, pkg("dqIssueType"@)) == said(first, pkg("dqIssueType"@))
        }),
    decreases n,
{
    broadcast use group_writes;

    reveal_strlit("upstreamRepository");
    reveal_strlit("upstreamEcosystem");
    reveal_strlit("upstreamPackageName");
    reveal_strlit("maintainedBy");
    reveal_strlit("maintains");
    reveal_strlit("dqField");
    reveal_strlit("dqValue");
    reveal_strlit("dqIssueType");
    if n > 0 {
        lemma_each_identity_repo_told(w, url, items, (n - 1) as nat);
        lemma_identity_repo_told(
            with_each_identity_repo(w, url, items, (n - 1) as nat),
            url,
            items[n - 1],
        );
    }
}

proof fn lemma_metadata_line_told(w: Sheet, identities: Seq<Seq<char>>, line: Seq<char>)
    ensures
        ({
            let first = w.log;
            let last = with_metadata_line(w, identities, line).log;
            &&& said(last, pkg("upstreamRepository"@)) == said(first, pkg("upstreamRepository"@))
                + (
                    match repository_in(line) {
                        Some(url) => (
                            match forge_url(url) {
                                Some(repo) => in_turn(
                                    |k: int| seq![to_iri((identities[k]), repo_iri(repo))],
                                    (identities.len()),
                                ),
                                None => Seq::empty(),
                            }
                        ),
                        None => Seq::empty(),
                    }
                )
            &&& said(last, pkg("upstreamEcosystem"@)) == said(first, pkg("upstreamEcosystem"@))
            &&& said(last, pkg("upstreamPackageName"@)) == said(first, pkg("upstreamPackageName"@))
            &&& said(last, pkg("maintainedBy"@)) == said(first, pkg("maintainedBy"@))
            &&& said(last, pkg("maintains"@)) == said(first, pkg("maintains"@))
            &&& said(last, pkg("dqField"@)) == said(first, pkg("dqField"@))
                + (
                    match repository_in(line) {
                        Some(url) => (
                            match forge_url(url) {
                                Some(repo) => Seq::empty(),
                                None => seq![
                                    to_text(
                                        issue_iri(
                                            ("debian-salsa"@),
                                            ("upstream-metadata"@),
                                            url,
                                            ("upstream-metadata-no-repo"@),
                                        ),
                                        ("upstream-metadata"@),
                                    ),
                                ],
                            }
                        ),
                        None => Seq::empty(),
                    }
                )
            &&& said(last, pkg("dqValue"@)) == said(first, pkg("dqValue"@))
                + (
                    match repository_in(line) {
                        Some(url) => (
                            match forge_url(url) {
                                Some(repo) => Seq::empty(),
                                None => seq![
                                    to_text(
                                        issue_iri(
                                            ("debian-salsa"@),
                                            ("upstream-metadata"@),
                                            url,
                                            ("upstream-metadata-no-repo"@),
                                        ),
                                        url,
                                    ),
                                ],
                            }
                        ),
                        None => Seq::empty(),
                    }
                )
            &&& said(last, pkg("dqIssueType"@)) == said(first, pkg("dqIssueType"@))
                + (
                    match repository_in(line) {
                        Some(url) => (
                            match forge_url(url) {
                                Some(repo) => Seq::empty(),
                                None => seq![
                                    to_text(
                                        issue_iri(
                                            ("debian-salsa"@),
                                            ("upstream-metadata"@),
                                            url,
                                            ("upstream-metadata-no-repo"@),
                                        ),
                                        ("upstream-metadata-no-repo"@),
                                    ),
                                ],
                            }
                        ),
                        None => Seq::empty(),
                    }
                )
        }),
{
    broadcast use group_reading;

    reveal_strlit("upstreamRepository");
    reveal_strlit("dqCollector");
    reveal_strlit("dqField");
    reveal_strlit("dqValue");
    reveal_strlit("dqIssueType");
    reveal_strlit("dqSeverity");
    reveal_strlit("upstreamEcosystem");
    reveal_strlit("upstreamPackageName");
    reveal_strlit("maintainedBy");
    reveal_strlit("maintains");
    match repository_in(line) {
        Some(url) => {
            match forge_url(url) {
                Some(repo) => {
                    lemma_each_identity_repo_told(w, repo, identities, identities.len());
                },
                None => {
                    lemma_dq_issue_told(
                        w,
                        "debian-salsa"@,
                        "upstream-metadata"@,
                        url,
                        "upstream-metadata-no-repo"@,
                        "info"@,
                    );
                },
            }
        },
        None => {
        },
    }
}

proof fn lemma_each_metadata_line_told(
    w: Sheet,
    identities: Seq<Seq<char>>,
    items: Seq<Seq<char>>,
    n: nat,
)
    ensures
        ({
            let first = w.log;
            let last = with_each_metadata_line(w, identities, items, n).log;
            &&& said(last, pkg("upstreamRepository"@)) == said(first, pkg("upstreamRepository"@))
                + in_turn(
                    |j: int|
                        (
                            match repository_in((items[j])) {
                                Some(url) => (
                                    match forge_url(url) {
                                        Some(repo) => in_turn(
                                            |k: int| seq![to_iri((identities[k]), repo_iri(repo))],
                                            (identities.len()),
                                        ),
                                        None => Seq::empty(),
                                    }
                                ),
                                None => Seq::empty(),
                            }
                        ),
                    n,
                )
            &&& said(last, pkg("upstreamEcosystem"@)) == said(first, pkg("upstreamEcosystem"@))
            &&& said(last, pkg("upstreamPackageName"@)) == said(first, pkg("upstreamPackageName"@))
            &&& said(last, pkg("maintainedBy"@)) == said(first, pkg("maintainedBy"@))
            &&& said(last, pkg("maintains"@)) == said(first, pkg("maintains"@))
            &&& said(last, pkg("dqField"@)) == said(first, pkg("dqField"@))
                + in_turn(
                    |j: int|
                        (
                            match repository_in((items[j])) {
                                Some(url) => (
                                    match forge_url(url) {
                                        Some(repo) => Seq::empty(),
                                        None => seq![
                                            to_text(
                                                issue_iri(
                                                    ("debian-salsa"@),
                                                    ("upstream-metadata"@),
                                                    url,
                                                    ("upstream-metadata-no-repo"@),
                                                ),
                                                ("upstream-metadata"@),
                                            ),
                                        ],
                                    }
                                ),
                                None => Seq::empty(),
                            }
                        ),
                    n,
                )
            &&& said(last, pkg("dqValue"@)) == said(first, pkg("dqValue"@))
                + in_turn(
                    |j: int|
                        (
                            match repository_in((items[j])) {
                                Some(url) => (
                                    match forge_url(url) {
                                        Some(repo) => Seq::empty(),
                                        None => seq![
                                            to_text(
                                                issue_iri(
                                                    ("debian-salsa"@),
                                                    ("upstream-metadata"@),
                                                    url,
                                                    ("upstream-metadata-no-repo"@),
                                                ),
                                                url,
                                            ),
                                        ],
                                    }
                                ),
                                None => Seq::empty(),
                            }
                        ),
                    n,
                )
            &&& said(last, pkg("dqIssueType"@)) == said(first, pkg("dqIssueType"@))
                + in_turn(
                    |j: int|
                        (
                            match repository_in((items[j])) {
                                Some(url) => (
                                    match forge_url(url) {
                                        Some(repo) => Seq::empty(),
                                        None => seq![
                                            to_text(
                                                issue_iri(
                                                    ("debian-salsa"@),
                                                    ("upstream-metadata"@),
                                                    url,
                                                    ("upstream-metadata-no-repo"@),
                                                ),
                                                ("upstream-metadata-no-repo"@),
                                            ),
                                        ],
                                    }
                                ),
                                None => Seq::empty(),
                            }
                        ),
                    n,
                )
        }),
    decreases n,
{
    broadcast use group_writes;

    reveal_strlit("upstreamRepository");
    reveal_strlit("dqField");
    reveal_strlit("dqValue");
    reveal_strlit("dqIssueType");
    reveal_strlit("upstreamEcosystem");
    reveal_strlit("upstreamPackageName");
    reveal_strlit("maintainedBy");
    reveal_strlit("maintains");
    if n > 0 {
        lemma_each_metadata_line_told(w, identities, items, (n - 1) as nat);
        lemma_metadata_line_told(
            with_each_metadata_line(w, identities, items, (n - 1) as nat),
            identities,
            items[n - 1],
        );
    }
}

proof fn lemma_upstream_metadata_told(w: Sheet, metadata: Seq<char>, identities: Seq<Seq<char>>)
    ensures
        ({
            let first = w.log;
            let last = with_upstream_metadata(w, metadata, identities).log;
            let lines = lines_of(metadata);
            &&& said(last, pkg("upstreamRepository"@)) == said(first, pkg("upstreamRepository"@))
                + in_turn(
                    |j: int|
                        (
                            match repository_in((lines[j])) {
                                Some(url) => (
                                    match forge_url(url) {
                                        Some(repo) => in_turn(
                                            |k: int| seq![to_iri((identities[k]), repo_iri(repo))],
                                            (identities.len()),
                                        ),
                                        None => Seq::empty(),
                                    }
                                ),
                                None => Seq::empty(),
                            }
                        ),
                    (lines.len()),
                )
            &&& said(last, pkg("upstreamEcosystem"@)) == said(first, pkg("upstreamEcosystem"@))
            &&& said(last, pkg("upstreamPackageName"@)) == said(first, pkg("upstreamPackageName"@))
            &&& said(last, pkg("maintainedBy"@)) == said(first, pkg("maintainedBy"@))
            &&& said(last, pkg("maintains"@)) == said(first, pkg("maintains"@))
            &&& said(last, pkg("dqField"@)) == said(first, pkg("dqField"@))
                + in_turn(
                    |j: int|
                        (
                            match repository_in((lines[j])) {
                                Some(url) => (
                                    match forge_url(url) {
                                        Some(repo) => Seq::empty(),
                                        None => seq![
                                            to_text(
                                                issue_iri(
                                                    ("debian-salsa"@),
                                                    ("upstream-metadata"@),
                                                    url,
                                                    ("upstream-metadata-no-repo"@),
                                                ),
                                                ("upstream-metadata"@),
                                            ),
                                        ],
                                    }
                                ),
                                None => Seq::empty(),
                            }
                        ),
                    (lines.len()),
                )
            &&& said(last, pkg("dqValue"@)) == said(first, pkg("dqValue"@))
                + in_turn(
                    |j: int|
                        (
                            match repository_in((lines[j])) {
                                Some(url) => (
                                    match forge_url(url) {
                                        Some(repo) => Seq::empty(),
                                        None => seq![
                                            to_text(
                                                issue_iri(
                                                    ("debian-salsa"@),
                                                    ("upstream-metadata"@),
                                                    url,
                                                    ("upstream-metadata-no-repo"@),
                                                ),
                                                url,
                                            ),
                                        ],
                                    }
                                ),
                                None => Seq::empty(),
                            }
                        ),
                    (lines.len()),
                )
            &&& said(last, pkg("dqIssueType"@)) == said(first, pkg("dqIssueType"@))
                + in_turn(
                    |j: int|
                        (
                            match repository_in((lines[j])) {
                                Some(url) => (
                                    match forge_url(url) {
                                        Some(repo) => Seq::empty(),
                                        None => seq![
                                            to_text(
                                                issue_iri(
                                                    ("debian-salsa"@),
                                                    ("upstream-metadata"@),
                                                    url,
                                                    ("upstream-metadata-no-repo"@),
                                                ),
                                                ("upstream-metadata-no-repo"@),
                                            ),
                                        ],
                                    }
                                ),
                                None => Seq::empty(),
                            }
                        ),
                    (lines.len()),
                )
        }),
{
    broadcast use group_reading;

    reveal_strlit("upstreamRepository");
    reveal_strlit("dqField");
    reveal_strlit("dqValue");
    reveal_strlit("dqIssueType");
    reveal_strlit("upstreamEcosystem");
    reveal_strlit("upstreamPackageName");
    reveal_strlit("maintainedBy");
    reveal_strlit("maintains");
    let lines = lines_of(metadata);
    lemma_each_metadata_line_told(w, identities, lines, lines.len());
}

/// What is said of a package that is taken from a registry: the registry, and the name
/// there.
pub open spec fn registry_name_told(
    first: Seq<Fact>,
    last: Seq<Fact>,
    ecosystem: Seq<char>,
    name: Seq<char>,
    identity: Seq<char>,
) -> bool {
    let node = ecosystem_iri(ecosystem);
    &&& said(last, pkg("upstreamEcosystem"@)) == said(first, pkg("upstreamEcosystem"@))
        + seq![to_iri(identity, node)]
    &&& said(last, RDF_TYPE@) == said(first, RDF_TYPE@) + seq![to_iri(node, pkg("Ecosystem"@))]
    &&& said(last, RDFS_LABEL@) == said(first, RDFS_LABEL@) + seq![to_text(node, ecosystem)]
    &&& said(last, pkg("upstreamPackageName"@)) == said(first, pkg("upstreamPackageName"@))
        + seq![to_text(identity, name)]
    &&& forall|q: Seq<char>|
        q != pkg("upstreamEcosystem"@)
            && q != RDF_TYPE@
            && q != RDFS_LABEL@
            && q != pkg("upstreamPackageName"@)
            ==> #[trigger] said(last, q) == said(first, q)
}

proof fn lemma_registry_name_in_steps(
    w: Sheet,
    ecosystem: Seq<char>,
    name: Seq<char>,
    identity: Seq<char>,
)
    ensures
        with_registry_name(w, ecosystem, name, identity) == ({
            let node = ecosystem_iri(ecosystem);
            let w = link(w, identity, pkg("upstreamEcosystem"@), node);
            let w = link(w, node, RDF_TYPE@, pkg("Ecosystem"@));
            let w = literal(w, node, RDFS_LABEL@, ecosystem);
            let w = literal(w, identity, pkg("upstreamPackageName"@), name);
            w
        }),
{
}

proof fn lemma_registry_name_steps(
    w: Sheet,
    ecosystem: Seq<char>,
    name: Seq<char>,
    identity: Seq<char>,
)
    ensures
        registry_name_told(w.log, ({
            let node = ecosystem_iri(ecosystem);
            let w = link(w, identity, pkg("upstreamEcosystem"@), node);
            let w = link(w, node, RDF_TYPE@, pkg("Ecosystem"@));
            let w = literal(w, node, RDFS_LABEL@, ecosystem);
            let w = literal(w, identity, pkg("upstreamPackageName"@), name);
            w
        }).log, ecosystem, name, identity),
{
    broadcast use group_writes;

    reveal_strlit("upstreamEcosystem");
    reveal_strlit("upstreamPackageName");
    let node = ecosystem_iri(ecosystem);
    let w1 = link(w, identity, pkg("upstreamEcosystem"@), node);
    let w2 = link(w1, node, RDF_TYPE@, pkg("Ecosystem"@));
    let w3 = literal(w2, node, RDFS_LABEL@, ecosystem);
    let w4 = literal(w3, identity, pkg("upstreamPackageName"@), name);
}

/// What [`with_registry_name`] writes says what [`registry_name_told`] states.
pub proof fn lemma_registry_name_told(
    w: Sheet,
    ecosystem: Seq<char>,
    name: Seq<char>,
    identity: Seq<char>,
)
    ensures
        registry_name_told(
            w.log,
            with_registry_name(w, ecosystem, name, identity).log,
            ecosystem,
            name,
            identity,
        ),
{
    lemma_registry_name_in_steps(w, ecosystem, name, identity);
    lemma_registry_name_steps(w, ecosystem, name, identity);
}

proof fn lemma_each_registry_name_told(
    w: Sheet,
    ecosystem: Seq<char>,
    name: Seq<char>,
    items: Seq<Seq<char>>,
    n: nat,
)
    ensures
        ({
            let first = w.log;
            let last = with_each_registry_name(w, ecosystem, name, items, n).log;
            &&& said(last, pkg("upstreamRepository"@)) == said(first, pkg("upstreamRepository"@))
            &&& said(last, pkg("upstreamEcosystem"@)) == said(first, pkg("upstreamEcosystem"@))
                + in_turn(|k: int| seq![to_iri((items[k]), ecosystem_iri(ecosystem))], n)
            &&& said(last, pkg("upstreamPackageName"@)) == said(first, pkg("upstreamPackageName"@))
                + in_turn(|k: int| seq![to_text((items[k]), name)], n)
            &&& said(last, pkg("maintainedBy"@)) == said(first, pkg("maintainedBy"@))
            &&& said(last, pkg("maintains"@)) == said(first, pkg("maintains"@))
            &&& said(last, pkg("dqField"@)) == said(first, pkg("dqField"@))
            &&& said(last, pkg("dqValue"@)) == said(first, pkg("dqValue"@))
            &&& said(last, pkg("dqIssueType"@)) == said(first, pkg("dqIssueType"@))
        }),
    decreases n,
{
    broadcast use group_writes;

    reveal_strlit("upstreamEcosystem");
    reveal_strlit("upstreamPackageName");
    reveal_strlit("upstreamRepository");
    reveal_strlit("maintainedBy");
    reveal_strlit("maintains");
    reveal_strlit("dqField");
    reveal_strlit("dqValue");
    reveal_strlit("dqIssueType");
    if n > 0 {
        lemma_each_registry_name_told(w, ecosystem, name, items, (n - 1) as nat);
        lemma_registry_name_told(
            with_each_registry_name(w, ecosystem, name, items, (n - 1) as nat),
            ecosystem,
            name,
            items[n - 1],
        );
    }
}

proof fn lemma_registry_names_told(
    w: Sheet,
    ecosystem: Seq<char>,
    name: Seq<char>,
    identities: Seq<Seq<char>>,
)
    ensures
        ({
            let first = w.log;
            let last = with_registry_names(w, ecosystem, name, identities).log;
            &&& said(last, pkg("upstreamRepository"@)) == said(first, pkg("upstreamRepository"@))
            &&& said(last, pkg("upstreamEcosystem"@)) == said(first, pkg("upstreamEcosystem"@))
                + in_turn(
                    |k: int| seq![to_iri((identities[k]), ecosystem_iri(ecosystem))],
                    (identities.len()),
                )
            &&& said(last, pkg("upstreamPackageName"@)) == said(first, pkg("upstreamPackageName"@))
                + in_turn(|k: int| seq![to_text((identities[k]), name)], (identities.len()))
            &&& said(last, pkg("maintainedBy"@)) == said(first, pkg("maintainedBy"@))
            &&& said(last, pkg("maintains"@)) == said(first, pkg("maintains"@))
            &&& said(last, pkg("dqField"@)) == said(first, pkg("dqField"@))
            &&& said(last, pkg("dqValue"@)) == said(first, pkg("dqValue"@))
            &&& said(last, pkg("dqIssueType"@)) == said(first, pkg("dqIssueType"@))
        }),
{
    broadcast use group_reading;

    reveal_strlit("upstreamEcosystem");
    reveal_strlit("upstreamPackageName");
    reveal_strlit("upstreamRepository");
    reveal_strlit("maintainedBy");
    reveal_strlit("maintains");
    reveal_strlit("dqField");
    reveal_strlit("dqValue");
    reveal_strlit("dqIssueType");
    lemma_each_registry_name_told(w, ecosystem, name, identities, identities.len());
}

proof fn lemma_identity_repos_told(w: Sheet, url: Seq<char>, identities: Seq<Seq<char>>)
    ensures
        ({
            let first = w.log;
            let last = with_identity_repos(w, url, identities).log;
            &&& said(last, pkg("upstreamRepository"@)) == said(first, pkg("upstreamRepository"@))
                + in_turn(|k: int| seq![to_iri((identities[k]), repo_iri(url))], (identities.len()))
            &&& said(last, pkg("upstreamEcosystem"@)) == said(first, pkg("upstreamEcosystem"@))
            &&& said(last, pkg("upstreamPackageName"@)) == said(first, pkg("upstreamPackageName"@))
            &&& said(last, pkg("maintainedBy"@)) == said(first, pkg("maintainedBy"@))
            &&& said(last, pkg("maintains"@)) == said(first, pkg("maintains"@))
            &&& said(last, pkg("dqField"@)) == said(first, pkg("dqField"@))
            &&& said(last, pkg("dqValue"@)) == said(first, pkg("dqValue"@))
            &&& said(last, pkg("dqIssueType"@)) == said(first, pkg("dqIssueType"@))
        }),
{
    broadcast use group_reading;

    reveal_strlit("upstreamRepository");
    reveal_strlit("upstreamEcosystem");
    reveal_strlit("upstreamPackageName");
    reveal_strlit("maintainedBy");
    reveal_strlit("maintains");
    reveal_strlit("dqField");
    reveal_strlit("dqValue");
    reveal_strlit("dqIssueType");
    lemma_each_identity_repo_told(w, url, identities, identities.len());
}

proof fn lemma_debian_watch_told(w: Sheet, watch: Seq<char>, identities: Seq<Seq<char>>)
    ensures
        ({
            let first = w.log;
            let last = with_debian_watch(w, watch, identities).log;
            &&& said(last, pkg("upstreamRepository"@)) == said(first, pkg("upstreamRepository"@))
                + (
                    match watch_upstream(lines_of(watch), 0) {
                        Some(Upstream::Registry(ecosystem, name)) => Seq::empty(),
                        Some(Upstream::Forge(url)) => in_turn(
                            |k: int| seq![to_iri((identities[k]), repo_iri(url))],
                            (identities.len()),
                        ),
                        None => Seq::empty(),
                    }
                )
            &&& said(last, pkg("upstreamEcosystem"@)) == said(first, pkg("upstreamEcosystem"@))
                + (
                    match watch_upstream(lines_of(watch), 0) {
                        Some(Upstream::Registry(ecosystem, name)) => in_turn(
                            |k: int| seq![to_iri((identities[k]), ecosystem_iri(ecosystem))],
                            (identities.len()),
                        ),
                        Some(Upstream::Forge(url)) => Seq::empty(),
                        None => Seq::empty(),
                    }
                )
            &&& said(last, pkg("upstreamPackageName"@)) == said(first, pkg("upstreamPackageName"@))
                + (
                    match watch_upstream(lines_of(watch), 0) {
                        Some(Upstream::Registry(ecosystem, name)) => in_turn(
                            |k: int| seq![to_text((identities[k]), name)],
                            (identities.len()),
                        ),
                        Some(Upstream::Forge(url)) => Seq::empty(),
                        None => Seq::empty(),
                    }
                )
            &&& said(last, pkg("maintainedBy"@)) == said(first, pkg("maintainedBy"@))
            &&& said(last, pkg("maintains"@)) == said(first, pkg("maintains"@))
            &&& said(last, pkg("dqField"@)) == said(first, pkg("dqField"@))
                + (
                    match watch_upstream(lines_of(watch), 0) {
                        Some(Upstream::Registry(ecosystem, name)) => Seq::empty(),
                        Some(Upstream::Forge(url)) => Seq::empty(),
                        None => where_so(
                            trim(watch).len() > 0,
                            seq![
                                to_text(
                                    issue_iri(
                                        ("debian-salsa"@),
                                        ("watch"@),
                                        first_address(lines_of(watch), 0),
                                        ("watch-file-no-upstream"@),
                                    ),
                                    ("watch"@),
                                ),
                            ],
                        ),
                    }
                )
            &&& said(last, pkg("dqValue"@)) == said(first, pkg("dqValue"@))
                + (
                    match watch_upstream(lines_of(watch), 0) {
                        Some(Upstream::Registry(ecosystem, name)) => Seq::empty(),
                        Some(Upstream::Forge(url)) => Seq::empty(),
                        None => where_so(
                            trim(watch).len() > 0,
                            seq![
                                to_text(
                                    issue_iri(
                                        ("debian-salsa"@),
                                        ("watch"@),
                                        first_address(lines_of(watch), 0),
                                        ("watch-file-no-upstream"@),
                                    ),
                                    first_address(lines_of(watch), 0),
                                ),
                            ],
                        ),
                    }
                )
            &&& said(last, pkg("dqIssueType"@)) == said(first, pkg("dqIssueType"@))
                + (
                    match watch_upstream(lines_of(watch), 0) {
                        Some(Upstream::Registry(ecosystem, name)) => Seq::empty(),
                        Some(Upstream::Forge(url)) => Seq::empty(),
                        None => where_so(
                            trim(watch).len() > 0,
                            seq![
                                to_text(
                                    issue_iri(
                                        ("debian-salsa"@),
                                        ("watch"@),
                                        first_address(lines_of(watch), 0),
                                        ("watch-file-no-upstream"@),
                                    ),
                                    ("watch-file-no-upstream"@),
                                ),
                            ],
                        ),
                    }
                )
        }),
{
    broadcast use group_reading;

    reveal_strlit("upstreamEcosystem");
    reveal_strlit("upstreamPackageName");
    reveal_strlit("upstreamRepository");
    reveal_strlit("dqCollector");
    reveal_strlit("dqField");
    reveal_strlit("dqValue");
    reveal_strlit("dqIssueType");
    reveal_strlit("dqSeverity");
    reveal_strlit("maintainedBy");
    reveal_strlit("maintains");
    match watch_upstream(lines_of(watch), 0) {
        Some(Upstream::Registry(ecosystem, name)) => {
            lemma_registry_names_told(w, ecosystem, name, identities);
        },
        Some(Upstream::Forge(url)) => {
            lemma_identity_repos_told(w, url, identities);
        },
        None => {
            if trim(watch).len() > 0 {
                lemma_dq_issue_told(
                    w,
                    "debian-salsa"@,
                    "watch"@,
                    first_address(lines_of(watch), 0),
                    "watch-file-no-upstream"@,
                    "info"@,
                );
            } else {
            }
        },
    }
}

#[verifier::opaque]
spec fn signer_step_1(w: Sheet, source: Option<Seq<char>>, person: Seq<char>) -> Sheet {
    match source {
        Some(src) => {
            let w = link(w, src, pkg("maintainedBy"@), person);
            link(w, person, pkg("maintains"@), src)
        },
        None => w,
    }
}

proof fn lemma_signer_step_1(w: Sheet, source: Option<Seq<char>>, person: Seq<char>)
    ensures
        ({
            let first = w.log;
            let last = signer_step_1(w, source, person).log;
            &&& said(last, pkg("maintainedBy"@)) == said(first, pkg("maintainedBy"@))
                + (match source {Some(src) => seq![to_iri(src, person)], None => Seq::empty()})
            &&& said(last, pkg("maintains"@)) == said(first, pkg("maintains"@))
                + (match source {Some(src) => seq![to_iri(person, src)], None => Seq::empty()})
            &&& forall|q: Seq<char>|
                q != pkg("maintainedBy"@) && q != pkg("maintains"@)
                    ==> #[trigger] said(last, q) == said(first, q)
        }),
{
    broadcast use group_reading;

    reveal(signer_step_1);
    reveal_strlit("maintainedBy");
    reveal_strlit("maintains");
}

/// What is said of who signed a change: that they are a person, with their name and
/// address, and that they maintain the source, where one is known.
pub open spec fn signer_told(
    first: Seq<Fact>,
    last: Seq<Fact>,
    name: Seq<char>,
    email: Seq<char>,
    source: Option<Seq<char>>,
) -> bool {
    let person = maintainer_iri(email);
    &&& said(last, RDF_TYPE@) == said(first, RDF_TYPE@) + seq![to_iri(person, pkg("Person"@))]
    &&& said(last, FOAF@ + "name"@) == said(first, FOAF@ + "name"@) + seq![to_text(person, name)]
    &&& said(last, RDFS_LABEL@) == said(first, RDFS_LABEL@) + seq![to_text(person, name)]
    &&& said(last, FOAF@ + "mbox"@) == said(first, FOAF@ + "mbox"@)
        + seq![to_iri(person, "mailto:"@ + email)]
    &&& said(last, pkg("maintainedBy"@)) == said(first, pkg("maintainedBy"@))
        + (match source {Some(src) => seq![to_iri(src, person)], None => Seq::empty()})
    &&& said(last, pkg("maintains"@)) == said(first, pkg("maintains"@))
        + (match source {Some(src) => seq![to_iri(person, src)], None => Seq::empty()})
    &&& forall|q: Seq<char>|
        q != RDF_TYPE@
            && q != FOAF@ + "name"@
            && q != RDFS_LABEL@
            && q != FOAF@ + "mbox"@
            && q != pkg("maintainedBy"@)
            && q != pkg("maintains"@)
            ==> #[trigger] said(last, q) == said(first, q)
}

proof fn lemma_signer_in_steps(
    w: Sheet,
    name: Seq<char>,
    email: Seq<char>,
    source: Option<Seq<char>>,
)
    ensures
        with_signer(w, name, email, source) == ({
            let person = maintainer_iri(email);
            let w = link(w, person, RDF_TYPE@, pkg("Person"@));
            let w = literal(w, person, FOAF@ + "name"@, name);
            let w = literal(w, person, RDFS_LABEL@, name);
            let w = link(w, person, FOAF@ + "mbox"@, "mailto:"@ + email);
            let w = signer_step_1(w, source, person);
            w
        }),
{
    reveal(signer_step_1);
}

proof fn lemma_signer_steps(w: Sheet, name: Seq<char>, email: Seq<char>, source: Option<Seq<char>>)
    ensures
        signer_told(w.log, ({
            let person = maintainer_iri(email);
            let w = link(w, person, RDF_TYPE@, pkg("Person"@));
            let w = literal(w, person, FOAF@ + "name"@, name);
            let w = literal(w, person, RDFS_LABEL@, name);
            let w = link(w, person, FOAF@ + "mbox"@, "mailto:"@ + email);
            let w = signer_step_1(w, source, person);
            w
        }).log, name, email, source),
{
    broadcast use {group_writes, group_foaf};

    reveal_strlit("name");
    reveal_strlit("mbox");
    reveal_strlit("maintainedBy");
    reveal_strlit("maintains");
    let person = maintainer_iri(email);
    let w1 = link(w, person, RDF_TYPE@, pkg("Person"@));
    let w2 = literal(w1, person, FOAF@ + "name"@, name);
    let w3 = literal(w2, person, RDFS_LABEL@, name);
    let w4 = link(w3, person, FOAF@ + "mbox"@, "mailto:"@ + email);
    let w5 = signer_step_1(w4, source, person);
    lemma_signer_step_1(w4, source, person);
}

/// What [`with_signer`] writes says what [`signer_told`] states.
pub proof fn lemma_signer_told(
    w: Sheet,
    name: Seq<char>,
    email: Seq<char>,
    source: Option<Seq<char>>,
)
    ensures
        signer_told(w.log, with_signer(w, name, email, source).log, name, email, source),
{
    lemma_signer_in_steps(w, name, email, source);
    lemma_signer_steps(w, name, email, source);
}

proof fn lemma_debian_changelog_told(w: Sheet, changelog: Seq<char>, source: Option<Seq<char>>)
    ensures
        ({
            let first = w.log;
            let last = with_debian_changelog(w, changelog, source).log;
            &&& said(last, pkg("upstreamRepository"@)) == said(first, pkg("upstreamRepository"@))
            &&& said(last, pkg("upstreamEcosystem"@)) == said(first, pkg("upstreamEcosystem"@))
            &&& said(last, pkg("upstreamPackageName"@)) == said(first, pkg("upstreamPackageName"@))
            &&& said(last, pkg("maintainedBy"@)) == said(first, pkg("maintainedBy"@))
                + (
                    match contact_of(regex_captures(SIGNED_BY@, changelog)) {
                        Some(who) => (
                            match source {
                                Some(src) => seq![to_iri(src, maintainer_iri(who.email))],
                                None => Seq::empty(),
                            }
                        ),
                        None => Seq::empty(),
                    }
                )
            &&& said(last, pkg("maintains"@)) == said(first, pkg("maintains"@))
                + (
                    match contact_of(regex_captures(SIGNED_BY@, changelog)) {
                        Some(who) => (
                            match source {
                                Some(src) => seq![to_iri(maintainer_iri(who.email), src)],
                                None => Seq::empty(),
                            }
                        ),
                        None => Seq::empty(),
                    }
                )
            &&& said(last, pkg("dqField"@)) == said(first, pkg("dqField"@))
            &&& said(last, pkg("dqValue"@)) == said(first, pkg("dqValue"@))
            &&& said(last, pkg("dqIssueType"@)) == said(first, pkg("dqIssueType"@))
        }),
{
    broadcast use {group_reading, group_foaf};

    reveal_strlit("name");
    reveal_strlit("mbox");
    reveal_strlit("maintainedBy");
    reveal_strlit("maintains");
    reveal_strlit("upstreamRepository");
    reveal_strlit("upstreamEcosystem");
    reveal_strlit("upstreamPackageName");
    reveal_strlit("dqField");
    reveal_strlit("dqValue");
    reveal_strlit("dqIssueType");
    match contact_of(regex_captures(SIGNED_BY@, changelog)) {
        Some(who) => {
            lemma_signer_told(w, who.name, who.email, source);
        },
        None => {
        },
    }
}

#[verifier::opaque]
spec fn salsa_package_step_1(
    w: Sheet,
    name: Seq<char>,
    s: SalsaProgress,
    identities: Seq<Seq<char>>,
    source: Option<Seq<char>>,
    emit_maintainers: bool,
) -> Sheet {
    if s.branch is None {
        with_dq_issue(
            w,
            "debian-salsa"@,
            "branch-detection"@,
            name,
            "salsa-fetch-failed"@,
            "warning"@,
        )
    } else {
        let w = match reply_text(s.metadata) {
            Some(text) => with_upstream_metadata(w, text, identities),
            None => w,
        };
        let w = match reply_text(s.watch) {
            Some(text) => if wants_watch(reply_text(s.metadata), identities.len()) {
                with_debian_watch(w, text, identities)
            } else {
                w
            },
            None => w,
        };
        match reply_text(s.changelog) {
            Some(text) => if emit_maintainers { with_debian_changelog(w, text, source) } else { w },
            None => w,
        }
    }
}

proof fn lemma_salsa_package_step_1(
    w: Sheet,
    name: Seq<char>,
    s: SalsaProgress,
    identities: Seq<Seq<char>>,
    source: Option<Seq<char>>,
    emit_maintainers: bool,
)
    ensures
        ({
            let first = w.log;
            let last = salsa_package_step_1(w, name, s, identities, source, emit_maintainers).log;
            &&& said(last, pkg("upstreamRepository"@)) == said(first, pkg("upstreamRepository"@))
                + where_so(
                    !(s.branch is None),
                    (
                        match reply_text(s.metadata) {
                            Some(text) => in_turn(
                                |j: int|
                                    (
                                        match repository_in((lines_of(text)[j])) {
                                            Some(url) => (
                                                match forge_url(url) {
                                                    Some(repo) => in_turn(
                                                        |k: int|
                                                            seq![
                                                                to_iri(
                                                                    (identities[k]),
                                                                    repo_iri(repo),
                                                                ),
                                                            ],
                                                        (identities.len()),
                                                    ),
                                                    None => Seq::empty(),
                                                }
                                            ),
                                            None => Seq::empty(),
                                        }
                                    ),
                                (lines_of(text).len()),
                            ),
                            None => Seq::empty(),
                        }
                    ),
                )
                + where_so(
                    !(s.branch is None),
                    (
                        match reply_text(s.watch) {
                            Some(text) => where_so(
                                wants_watch(reply_text(s.metadata), identities.len()),
                                (
                                    match watch_upstream(lines_of(text), 0) {
                                        Some(Upstream::Registry(ecosystem, name)) => Seq::empty(),
                                        Some(Upstream::Forge(url)) => in_turn(
                                            |k: int| seq![to_iri((identities[k]), repo_iri(url))],
                                            (identities.len()),
                                        ),
                                        None => Seq::empty(),
                                    }
                                ),
                            ),
                            None => Seq::empty(),
                        }
                    ),
                )
            &&& said(last, pkg("upstreamEcosystem"@)) == said(first, pkg("upstreamEcosystem"@))
                + where_so(
                    !(s.branch is None),
                    (
                        match reply_text(s.watch) {
                            Some(text) => where_so(
                                wants_watch(reply_text(s.metadata), identities.len()),
                                (
                                    match watch_upstream(lines_of(text), 0) {
                                        Some(Upstream::Registry(ecosystem, name)) => in_turn(
                                            |k: int|
                                                seq![
                                                    to_iri(
                                                        (identities[k]),
                                                        ecosystem_iri(ecosystem),
                                                    ),
                                                ],
                                            (identities.len()),
                                        ),
                                        Some(Upstream::Forge(url)) => Seq::empty(),
                                        None => Seq::empty(),
                                    }
                                ),
                            ),
                            None => Seq::empty(),
                        }
                    ),
                )
            &&& said(last, pkg("upstreamPackageName"@)) == said(first, pkg("upstreamPackageName"@))
                + where_so(
                    !(s.branch is None),
                    (
                        match reply_text(s.watch) {
                            Some(text) => where_so(
                                wants_watch(reply_text(s.metadata), identities.len()),
                                (
                                    match watch_upstream(lines_of(text), 0) {
                                        Some(Upstream::Registry(ecosystem, name)) => in_turn(
                                            |k: int| seq![to_text((identities[k]), name)],
                                            (identities.len()),
                                        ),
                                        Some(Upstream::Forge(url)) => Seq::empty(),
                                        None => Seq::empty(),
                                    }
                                ),
                            ),
                            None => Seq::empty(),
                        }
                    ),
                )
            &&& said(last, pkg("maintainedBy"@)) == said(first, pkg("maintainedBy"@))
                + where_so(
                    !(s.branch is None),
                    (
                        match reply_text(s.changelog) {
                            Some(text) => where_so(
                                emit_maintainers,
                                (
                                    match contact_of(regex_captures(SIGNED_BY@, text)) {
                                        Some(who) => (
                                            match source {
                                                Some(src) => seq![
                                                    to_iri(src, maintainer_iri(who.email)),
                                                ],
                                                None => Seq::empty(),
                                            }
                                        ),
                                        None => Seq::empty(),
                                    }
                                ),
                            ),
                            None => Seq::empty(),
                        }
                    ),
                )
            &&& said(last, pkg("maintains"@)) == said(first, pkg("maintains"@))
                + where_so(
                    !(s.branch is None),
                    (
                        match reply_text(s.changelog) {
                            Some(text) => where_so(
                                emit_maintainers,
                                (
                                    match contact_of(regex_captures(SIGNED_BY@, text)) {
                                        Some(who) => (
                                            match source {
                                                Some(src) => seq![
                                                    to_iri(maintainer_iri(who.email), src),
                                                ],
                                                None => Seq::empty(),
                                            }
                                        ),
                                        None => Seq::empty(),
                                    }
                                ),
                            ),
                            None => Seq::empty(),
                        }
                    ),
                )
            &&& said(last, pkg("dqField"@)) == said(first, pkg("dqField"@))
                + where_so(
                    s.branch is None,
                    seq![
                        to_text(
                            issue_iri(
                                ("debian-salsa"@),
                                ("branch-detection"@),
                                name,
                                ("salsa-fetch-failed"@),
                            ),
                            ("branch-detection"@),
                        ),
                    ],
                )
                + where_so(
                    !(s.branch is None),
                    (
                        match reply_text(s.metadata) {
                            Some(text) => in_turn(
                                |j: int|
                                    (
                                        match repository_in((lines_of(text)[j])) {
                                            Some(url) => (
                                                match forge_url(url) {
                                                    Some(repo) => Seq::empty(),
                                                    None => seq![
                                                        to_text(
                                                            issue_iri(
                                                                ("debian-salsa"@),
                                                                ("upstream-metadata"@),
                                                                url,
                                                                ("upstream-metadata-no-repo"@),
                                                            ),
                                                            ("upstream-metadata"@),
                                                        ),
                                                    ],
                                                }
                                            ),
                                            None => Seq::empty(),
                                        }
                                    ),
                                (lines_of(text).len()),
                            ),
                            None => Seq::empty(),
                        }
                    ),
                )
                + where_so(
                    !(s.branch is None),
                    (
                        match reply_text(s.watch) {
                            Some(text) => where_so(
                                wants_watch(reply_text(s.metadata), identities.len()),
                                (
                                    match watch_upstream(lines_of(text), 0) {
                                        Some(Upstream::Registry(ecosystem, name)) => Seq::empty(),
                                        Some(Upstream::Forge(url)) => Seq::empty(),
                                        None => where_so(
                                            trim(text).len() > 0,
                                            seq![
                                                to_text(
                                                    issue_iri(
                                                        ("debian-salsa"@),
                                                        ("watch"@),
                                                        first_address(lines_of(text), 0),
                                                        ("watch-file-no-upstream"@),
                                                    ),
                                                    ("watch"@),
                                                ),
                                            ],
                                        ),
                                    }
                                ),
                            ),
                            None => Seq::empty(),
                        }
                    ),
                )
            &&& said(last, pkg("dqValue"@)) == said(first, pkg("dqValue"@))
                + where_so(
                    s.branch is None,
                    seq![
                        to_text(
                            issue_iri(
                                ("debian-salsa"@),
                                ("branch-detection"@),
                                name,
                                ("salsa-fetch-failed"@),
                            ),
                            name,
                        ),
                    ],
                )
                + where_so(
                    !(s.branch is None),
                    (
                        match reply_text(s.metadata) {
                            Some(text) => in_turn(
                                |j: int|
                                    (
                                        match repository_in((lines_of(text)[j])) {
                                            Some(url) => (
                                                match forge_url(url) {
                                                    Some(repo) => Seq::empty(),
                                                    None => seq![
                                                        to_text(
                                                            issue_iri(
                                                                ("debian-salsa"@),
                                                                ("upstream-metadata"@),
                                                                url,
                                                                ("upstream-metadata-no-repo"@),
                                                            ),
                                                            url,
                                                        ),
                                                    ],
                                                }
                                            ),
                                            None => Seq::empty(),
                                        }
                                    ),
                                (lines_of(text).len()),
                            ),
                            None => Seq::empty(),
                        }
                    ),
                )
                + where_so(
                    !(s.branch is None),
                    (
                        match reply_text(s.watch) {
                            Some(text) => where_so(
                                wants_watch(reply_text(s.metadata), identities.len()),
                                (
                                    match watch_upstream(lines_of(text), 0) {
                                        Some(Upstream::Registry(ecosystem, name)) => Seq::empty(),
                                        Some(Upstream::Forge(url)) => Seq::empty(),
                                        None => where_so(
                                            trim(text).len() > 0,
                                            seq![
                                                to_text(
                                                    issue_iri(
                                                        ("debian-salsa"@),
                                                        ("watch"@),
                                                        first_address(lines_of(text), 0),
                                                        ("watch-file-no-upstream"@),
                                                    ),
                                                    first_address(lines_of(text), 0),
                                                ),
                                            ],
                                        ),
                                    }
                                ),
                            ),
                            None => Seq::empty(),
                        }
                    ),
                )
            &&& said(last, pkg("dqIssueType"@)) == said(first, pkg("dqIssueType"@))
                + where_so(
                    s.branch is None,
                    seq![
                        to_text(
                            issue_iri(
                                ("debian-salsa"@),
                                ("branch-detection"@),
                                name,
                                ("salsa-fetch-failed"@),
                            ),
                            ("salsa-fetch-failed"@),
                        ),
                    ],
                )
                + where_so(
                    !(s.branch is None),
                    (
                        match reply_text(s.metadata) {
                            Some(text) => in_turn(
                                |j: int|
                                    (
                                        match repository_in((lines_of(text)[j])) {
                                            Some(url) => (
                                                match forge_url(url) {
                                                    Some(repo) => Seq::empty(),
                                                    None => seq![
                                                        to_text(
                                                            issue_iri(
                                                                ("debian-salsa"@),
                                                                ("upstream-metadata"@),
                                                                url,
                                                                ("upstream-metadata-no-repo"@),
                                                            ),
                                                            ("upstream-metadata-no-repo"@),
                                                        ),
                                                    ],
                                                }
                                            ),
                                            None => Seq::empty(),
                                        }
                                    ),
                                (lines_of(text).len()),
                            ),
                            None => Seq::empty(),
                        }
                    ),
                )
                + where_so(
                    !(s.branch is None),
                    (
                        match reply_text(s.watch) {
                            Some(text) => where_so(
                                wants_watch(reply_text(s.metadata), identities.len()),
                                (
                                    match watch_upstream(lines_of(text), 0) {
                                        Some(Upstream::Registry(ecosystem, name)) => Seq::empty(),
                                        Some(Upstream::Forge(url)) => Seq::empty(),
                                        None => where_so(
                                            trim(text).len() > 0,
                                            seq![
                                                to_text(
                                                    issue_iri(
                                                        ("debian-salsa"@),
                                                        ("watch"@),
                                                        first_address(lines_of(text), 0),
                                                        ("watch-file-no-upstream"@),
                                                    ),
                                                    ("watch-file-no-upstream"@),
                                                ),
                                            ],
                                        ),
                                    }
                                ),
                            ),
                            None => Seq::empty(),
                        }
                    ),
                )
        }),
{
    broadcast use group_reading;

    reveal(salsa_package_step_1);
    reveal_strlit("dqCollector");
    reveal_strlit("dqField");
    reveal_strlit("dqValue");
    reveal_strlit("dqIssueType");
    reveal_strlit("dqSeverity");
    reveal_strlit("upstreamRepository");
    reveal_strlit("upstreamEcosystem");
    reveal_strlit("upstreamPackageName");
    reveal_strlit("maintainedBy");
    reveal_strlit("maintains");
    if s.branch is None {
        lemma_dq_issue_told(
            w,
            "debian-salsa"@,
            "branch-detection"@,
            name,
            "salsa-fetch-failed"@,
            "warning"@,
        );
    } else {
        match reply_text(s.metadata) {
            Some(text) => {
                lemma_upstream_metadata_told(w, text, identities);
            },
            None => {
            },
        }
        match reply_text(s.watch) {
            Some(text) => {
                if wants_watch(reply_text(s.metadata), identities.len()) {
                    lemma_debian_watch_told(
                        match reply_text(s.metadata) {
                            Some(text) => with_upstream_metadata(w, text, identities),
                            None => w,
                        },
                        text,
                        identities,
                    );
                } else {
                }
            },
            None => {
            },
        }
        match reply_text(s.changelog) {
            Some(text) => {
                if emit_maintainers {
                    lemma_debian_changelog_told(
                        match reply_text(s.watch) {
                            Some(text) => if wants_watch(reply_text(s.metadata), identities.len()) {
                                with_debian_watch(
                                    match reply_text(s.metadata) {
                                        Some(text) => with_upstream_metadata(w, text, identities),
                                        None => w,
                                    },
                                    text,
                                    identities,
                                )
                            } else {
                                match reply_text(s.metadata) {
                                    Some(text) => with_upstream_metadata(w, text, identities),
                                    None => w,
                                }
                            },
                            None => match reply_text(s.metadata) {
                                Some(text) => with_upstream_metadata(w, text, identities),
                                None => w,
                            },
                        },
                        text,
                        source,
                    );
                } else {
                }
            },
            None => {
            },
        }
    }
}

/// Everything that is said of a package on Salsa: that no branch of it was found, or else
/// what its metadata says of the upstream, what its watch file says of it, where the
/// metadata says nothing, and, where that is asked for, who signed the latest change.
pub open spec fn salsa_package_told(
    first: Seq<Fact>,
    last: Seq<Fact>,
    name: Seq<char>,
    s: SalsaProgress,
    identities: Seq<Seq<char>>,
    source: Option<Seq<char>>,
    emit_maintainers: bool,
) -> bool {
    &&& said(last, pkg("upstreamRepository"@)) == said(first, pkg("upstreamRepository"@))
        + where_so(
            !(s.branch is None),
            (
                match reply_text(s.metadata) {
                    Some(text) => in_turn(
                        |j: int|
                            (
                                match repository_in((lines_of(text)[j])) {
                                    Some(url) => (
                                        match forge_url(url) {
                                            Some(repo) => in_turn(
                                                |k: int|
                                                    seq![to_iri((identities[k]), repo_iri(repo))],
                                                (identities.len()),
                                            ),
                                            None => Seq::empty(),
                                        }
                                    ),
                                    None => Seq::empty(),
                                }
                            ),
                        (lines_of(text).len()),
                    ),
                    None => Seq::empty(),
                }
            ),
        )
        + where_so(
            !(s.branch is None),
            (
                match reply_text(s.watch) {
                    Some(text) => where_so(
                        wants_watch(reply_text(s.metadata), identities.len()),
                        (
                            match watch_upstream(lines_of(text), 0) {
                                Some(Upstream::Registry(ecosystem, name)) => Seq::empty(),
                                Some(Upstream::Forge(url)) => in_turn(
                                    |k: int| seq![to_iri((identities[k]), repo_iri(url))],
                                    (identities.len()),
                                ),
                                None => Seq::empty(),
                            }
                        ),
                    ),
                    None => Seq::empty(),
                }
            ),
        )
    &&& said(last, pkg("upstreamEcosystem"@)) == said(first, pkg("upstreamEcosystem"@))
        + where_so(
            !(s.branch is None),
            (
                match reply_text(s.watch) {
                    Some(text) => where_so(
                        wants_watch(reply_text(s.metadata), identities.len()),
                        (
                            match watch_upstream(lines_of(text), 0) {
                                Some(Upstream::Registry(ecosystem, name)) => in_turn(
                                    |k: int|
                                        seq![to_iri((identities[k]), ecosystem_iri(ecosystem))],
                                    (identities.len()),
                                ),
                                Some(Upstream::Forge(url)) => Seq::empty(),
                                None => Seq::empty(),
                            }
                        ),
                    ),
                    None => Seq::empty(),
                }
            ),
        )
    &&& said(last, pkg("upstreamPackageName"@)) == said(first, pkg("upstreamPackageName"@))
        + where_so(
            !(s.branch is None),
            (
                match reply_text(s.watch) {
                    Some(text) => where_so(
                        wants_watch(reply_text(s.metadata), identities.len()),
                        (
                            match watch_upstream(lines_of(text), 0) {
                                Some(Upstream::Registry(ecosystem, name)) => in_turn(
                                    |k: int| seq![to_text((identities[k]), name)],
                                    (identities.len()),
                                ),
                                Some(Upstream::Forge(url)) => Seq::empty(),
                                None => Seq::empty(),
                            }
                        ),
                    ),
                    None => Seq::empty(),
                }
            ),
        )
    &&& said(last, pkg("maintainedBy"@)) == said(first, pkg("maintainedBy"@))
        + where_so(
            !(s.branch is None),
            (
                match reply_text(s.changelog) {
                    Some(text) => where_so(
                        emit_maintainers,
                        (
                            match contact_of(regex_captures(SIGNED_BY@, text)) {
                                Some(who) => (
                                    match source {
                                        Some(src) => seq![to_iri(src, maintainer_iri(who.email))],
                                        None => Seq::empty(),
                                    }
                                ),
                                None => Seq::empty(),
                            }
                        ),
                    ),
                    None => Seq::empty(),
                }
            ),
        )
    &&& said(last, pkg("maintains"@)) == said(first, pkg("maintains"@))
        + where_so(
            !(s.branch is None),
            (
                match reply_text(s.changelog) {
                    Some(text) => where_so(
                        emit_maintainers,
                        (
                            match contact_of(regex_captures(SIGNED_BY@, text)) {
                                Some(who) => (
                                    match source {
                                        Some(src) => seq![to_iri(maintainer_iri(who.email), src)],
                                        None => Seq::empty(),
                                    }
                                ),
                                None => Seq::empty(),
                            }
                        ),
                    ),
                    None => Seq::empty(),
                }
            ),
        )
    &&& said(last, pkg("dqField"@)) == said(first, pkg("dqField"@))
        + where_so(
            s.branch is None,
            seq![
                to_text(
                    issue_iri(
                        ("debian-salsa"@),
                        ("branch-detection"@),
                        name,
                        ("salsa-fetch-failed"@),
                    ),
                    ("branch-detection"@),
                ),
            ],
        )
        + where_so(
            !(s.branch is None),
            (
                match reply_text(s.metadata) {
                    Some(text) => in_turn(
                        |j: int|
                            (
                                match repository_in((lines_of(text)[j])) {
                                    Some(url) => (
                                        match forge_url(url) {
                                            Some(repo) => Seq::empty(),
                                            None => seq![
                                                to_text(
                                                    issue_iri(
                                                        ("debian-salsa"@),
                                                        ("upstream-metadata"@),
                                                        url,
                                                        ("upstream-metadata-no-repo"@),
                                                    ),
                                                    ("upstream-metadata"@),
                                                ),
                                            ],
                                        }
                                    ),
                                    None => Seq::empty(),
                                }
                            ),
                        (lines_of(text).len()),
                    ),
                    None => Seq::empty(),
                }
            ),
        )
        + where_so(
            !(s.branch is None),
            (
                match reply_text(s.watch) {
                    Some(text) => where_so(
                        wants_watch(reply_text(s.metadata), identities.len()),
                        (
                            match watch_upstream(lines_of(text), 0) {
                                Some(Upstream::Registry(ecosystem, name)) => Seq::empty(),
                                Some(Upstream::Forge(url)) => Seq::empty(),
                                None => where_so(
                                    trim(text).len() > 0,
                                    seq![
                                        to_text(
                                            issue_iri(
                                                ("debian-salsa"@),
                                                ("watch"@),
                                                first_address(lines_of(text), 0),
                                                ("watch-file-no-upstream"@),
                                            ),
                                            ("watch"@),
                                        ),
                                    ],
                                ),
                            }
                        ),
                    ),
                    None => Seq::empty(),
                }
            ),
        )
    &&& said(last, pkg("dqValue"@)) == said(first, pkg("dqValue"@))
        + where_so(
            s.branch is None,
            seq![
                to_text(
                    issue_iri(
                        ("debian-salsa"@),
                        ("branch-detection"@),
                        name,
                        ("salsa-fetch-failed"@),
                    ),
                    name,
                ),
            ],
        )
        + where_so(
            !(s.branch is None),
            (
                match reply_text(s.metadata) {
                    Some(text) => in_turn(
                        |j: int|
                            (
                                match repository_in((lines_of(text)[j])) {
                                    Some(url) => (
                                        match forge_url(url) {
                                            Some(repo) => Seq::empty(),
                                            None => seq![
                                                to_text(
                                                    issue_iri(
                                                        ("debian-salsa"@),
                                                        ("upstream-metadata"@),
                                                        url,
                                                        ("upstream-metadata-no-repo"@),
                                                    ),
                                                    url,
                                                ),
                                            ],
                                        }
                                    ),
                                    None => Seq::empty(),
                                }
                            ),
                        (lines_of(text).len()),
                    ),
                    None => Seq::empty(),
                }
            ),
        )
        + where_so(
            !(s.branch is None),
            (
                match reply_text(s.watch) {
                    Some(text) => where_so(
                        wants_watch(reply_text(s.metadata), identities.len()),
                        (
                            match watch_upstream(lines_of(text), 0) {
                                Some(Upstream::Registry(ecosystem, name)) => Seq::empty(),
                                Some(Upstream::Forge(url)) => Seq::empty(),
                                None => where_so(
                                    trim(text).len() > 0,
                                    seq![
                                        to_text(
                                            issue_iri(
                                                ("debian-salsa"@),
                                                ("watch"@),
                                                first_address(lines_of(text), 0),
                                                ("watch-file-no-upstream"@),
                                            ),
                                            first_address(lines_of(text), 0),
                                        ),
                                    ],
                                ),
                            }
                        ),
                    ),
                    None => Seq::empty(),
                }
            ),
        )
    &&& said(last, pkg("dqIssueType"@)) == said(first, pkg("dqIssueType"@))
        + where_so(
            s.branch is None,
            seq![
                to_text(
                    issue_iri(
                        ("debian-salsa"@),
                        ("branch-detection"@),
                        name,
                        ("salsa-fetch-failed"@),
                    ),
                    ("salsa-fetch-failed"@),
                ),
            ],
        )
        + where_so(
            !(s.branch is None),
            (
                match reply_text(s.metadata) {
                    Some(text) => in_turn(
                        |j: int|
                            (
                                match repository_in((lines_of(text)[j])) {
                                    Some(url) => (
                                        match forge_url(url) {
                                            Some(repo) => Seq::empty(),
                                            None => seq![
                                                to_text(
                                                    issue_iri(
                                                        ("debian-salsa"@),
                                                        ("upstream-metadata"@),
                                                        url,
                                                        ("upstream-metadata-no-repo"@),
                                                    ),
                                                    ("upstream-metadata-no-repo"@),
                                                ),
                                            ],
                                        }
                                    ),
                                    None => Seq::empty(),
                                }
                            ),
                        (lines_of(text).len()),
                    ),
                    None => Seq::empty(),
                }
            ),
        )
        + where_so(
            !(s.branch is None),
            (
                match reply_text(s.watch) {
                    Some(text) => where_so(
                        wants_watch(reply_text(s.metadata), identities.len()),
                        (
                            match watch_upstream(lines_of(text), 0) {
                                Some(Upstream::Registry(ecosystem, name)) => Seq::empty(),
                                Some(Upstream::Forge(url)) => Seq::empty(),
                                None => where_so(
                                    trim(text).len() > 0,
                                    seq![
                                        to_text(
                                            issue_iri(
                                                ("debian-salsa"@),
                                                ("watch"@),
                                                first_address(lines_of(text), 0),
                                                ("watch-file-no-upstream"@),
                                            ),
                                            ("watch-file-no-upstream"@),
                                        ),
                                    ],
                                ),
                            }
                        ),
                    ),
                    None => Seq::empty(),
                }
            ),
        )
}

proof fn lemma_salsa_package_in_steps(
    w: Sheet,
    name: Seq<char>,
    s: SalsaProgress,
    identities: Seq<Seq<char>>,
    source: Option<Seq<char>>,
    emit_maintainers: bool,
)
    ensures
        with_salsa_package(w, name, s, identities, source, emit_maintainers) == ({
            let w = salsa_package_step_1(w, name, s, identities, source, emit_maintainers);
            w
        }),
{
    reveal(salsa_package_step_1);
}

proof fn lemma_salsa_package_steps(
    w: Sheet,
    name: Seq<char>,
    s: SalsaProgress,
    identities: Seq<Seq<char>>,
    source: Option<Seq<char>>,
    emit_maintainers: bool,
)
    ensures
        salsa_package_told(w.log, ({
            let w = salsa_package_step_1(w, name, s, identities, source, emit_maintainers);
            w
        }).log, name, s, identities, source, emit_maintainers),
{
    broadcast use group_writes;

    reveal_strlit("dqCollector");
    reveal_strlit("dqField");
    reveal_strlit("dqValue");
    reveal_strlit("dqIssueType");
    reveal_strlit("dqSeverity");
    reveal_strlit("upstreamRepository");
    reveal_strlit("upstreamEcosystem");
    reveal_strlit("upstreamPackageName");
    reveal_strlit("maintainedBy");
    reveal_strlit("maintains");
    let w1 = salsa_package_step_1(w, name, s, identities, source, emit_maintainers);
    lemma_salsa_package_step_1(w, name, s, identities, source, emit_maintainers);
}

/// What [`with_salsa_package`] writes says what [`salsa_package_told`] states.
pub proof fn lemma_salsa_package_told(
    w: Sheet,
    name: Seq<char>,
    s: SalsaProgress,
    identities: Seq<Seq<char>>,
    source: Option<Seq<char>>,
    emit_maintainers: bool,
)
    ensures
        salsa_package_told(
            w.log,
            with_salsa_package(w, name, s, identities, source, emit_maintainers).log,
            name,
            s,
            identities,
            source,
            emit_maintainers,
        ),
{
    lemma_salsa_package_in_steps(w, name, s, identities, source, emit_maintainers);
    lemma_salsa_package_steps(w, name, s, identities, source, emit_maintainers);
}

} // verus!
