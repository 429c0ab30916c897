//! What is said of spec files.

use crate::collect_spec::{
    all_requirements, confidence, last_segment, patch_iri, version_or_unknown, with_buildrequires,
    with_changelog, with_changelog_entry, with_commit, with_detection, with_each_patch,
    with_each_repo_link, with_each_spec_source, with_each_upstream_package, with_ecosystem,
    with_patch, with_repo_link, with_requirements, with_source0, with_spec, with_spec_source,
    with_upstream_package, SpecCollector,
};
use crate::deps::Person;
use crate::derive_releases::Ecosystem;
use crate::forge::{forge_url, host_of, issue_iri, software_or_unknown, with_dq_issue, with_forge};
use crate::ntriples::{link, literal, pkg, DATA, Fact, Sheet};
use crate::reading::{
    group_foaf, group_prov, group_reading, group_rpm, group_vcs, group_writes, in_turn,
    maybe_literal, said, text_if, to_iri, to_text, where_so, Term,
};
use crate::said_forge::{lemma_dq_issue_told, lemma_forge_told};
use crate::spec_file::{by_spec, expanded, SpecText};
use crate::text::contains;
use crate::uris::{
    identity_iri, person_iri, plain_email, repo_iri, res1, source_iri, FOAF, PROV, RDFS_LABEL,
    RDF_TYPE, RPM, VCS,
};
use vstd::prelude::*;

verus! {

proof fn lemma_repo_link_told(w: Sheet, repo: Seq<char>, identity: Seq<char>)
    ensures
        ({
            let first = w.log;
            let last = with_repo_link(w, repo, identity).log;
            &&& said(last, pkg("upstreamRepository"@)) == said(first, pkg("upstreamRepository"@))
                + seq![to_iri(identity, repo)]
            &&& forall|q: Seq<char>|
                q != pkg("upstreamRepository"@) ==> #[trigger] said(last, q) == said(first, q)
        }),
{
    broadcast use group_reading;

    reveal_strlit("upstreamRepository");
}

proof fn lemma_each_repo_link_told(w: Sheet, repo: Seq<char>, items: Seq<Seq<char>>, n: nat)
    ensures
        ({
            let first = w.log;
            let last = with_each_repo_link(w, repo, items, n).log;
            &&& said(last, pkg("upstreamRepository"@)) == said(first, pkg("upstreamRepository"@))
                + in_turn(|k: int| seq![to_iri((items[k]), repo)], n)
            &&& forall|q: Seq<char>|
                q != pkg("upstreamRepository"@) ==> #[trigger] said(last, q) == said(first, q)
        }),
    decreases n,
{
    broadcast use group_writes;

    reveal_strlit("upstreamRepository");
    if n > 0 {
        lemma_each_repo_link_told(w, repo, items, (n - 1) as nat);
        lemma_repo_link_told(
            with_each_repo_link(w, repo, items, (n - 1) as nat),
            repo,
            items[n - 1],
        );
    }
}

#[verifier::opaque]
spec fn source0_step_1(
    w: Sheet,
    spec: SpecText,
    source_name: Seq<char>,
    identities: Seq<Seq<char>>,
) -> Sheet {
    match spec.source0_url {
        Some(source0) => {
            let url = expanded(source0, spec);
            let w = if contains(url, "%{"@) || contains(url, "%("@) {
                with_dq_issue(w, "collect-spec"@, "source0"@, url, "unexpanded-macro"@, "info"@)
            } else {
                w
            };
            let w = match forge_url(url) {
                Some(repo_url) => {
                    let repo = repo_iri(repo_url);
                    let w = with_each_repo_link(w, repo, identities, identities.len());
                    with_forge(w, repo, repo_url)
                },
                None => {
                    let w = if !contains(url, "%{"@) {
                        with_dq_issue(
                            w,
                            "collect-spec"@,
                            "source0"@,
                            url,
                            "no-forge-match"@,
                            "info"@,
                        )
                    } else {
                        w
                    };
                    w
                },
            };
            w
        },
        None => {
            with_dq_issue(w, "collect-spec"@, "source0"@, source_name, "missing-source0"@, "info"@)
        },
    }
}

proof fn lemma_source0_step_1(
    w: Sheet,
    spec: SpecText,
    source_name: Seq<char>,
    identities: Seq<Seq<char>>,
)
    ensures
        ({
            let first = w.log;
            let last = source0_step_1(w, spec, source_name, identities).log;
            &&& said(last, RDF_TYPE@) == said(first, RDF_TYPE@)
                + (
                    match spec.source0_url {
                        Some(source0) => where_so(
                            contains(expanded(source0, spec), "%{"@) || contains(
                                expanded(source0, spec),
                                "%("@,
                            ),
                            seq![
                                to_iri(
                                    issue_iri(
                                        ("collect-spec"@),
                                        ("source0"@),
                                        expanded(source0, spec),
                                        ("unexpanded-macro"@),
                                    ),
                                    pkg("DataQualityIssue"@),
                                ),
                            ],
                        ),
                        None => Seq::empty(),
                    }
                )
                + (
                    match spec.source0_url {
                        Some(source0) => (
                            match forge_url(expanded(source0, spec)) {
                                Some(repo_url) => seq![
                                    to_iri(res1("forge"@, host_of(repo_url)), VCS@ + "Forge"@),
                                ],
                                None => Seq::empty(),
                            }
                        ),
                        None => Seq::empty(),
                    }
                )
                + (
                    match spec.source0_url {
                        Some(source0) => (
                            match forge_url(expanded(source0, spec)) {
                                Some(repo_url) => Seq::empty(),
                                None => where_so(
                                    !contains(expanded(source0, spec), "%{"@),
                                    seq![
                                        to_iri(
                                            issue_iri(
                                                ("collect-spec"@),
                                                ("source0"@),
                                                expanded(source0, spec),
                                                ("no-forge-match"@),
                                            ),
                                            pkg("DataQualityIssue"@),
                                        ),
                                    ],
                                ),
                            }
                        ),
                        None => Seq::empty(),
                    }
                )
                + (
                    match spec.source0_url {
                        Some(source0) => Seq::empty(),
                        None => seq![
                            to_iri(
                                issue_iri(
                                    ("collect-spec"@),
                                    ("source0"@),
                                    source_name,
                                    ("missing-source0"@),
                                ),
                                pkg("DataQualityIssue"@),
                            ),
                        ],
                    }
                )
            &&& said(last, pkg("dqCollector"@)) == said(first, pkg("dqCollector"@))
                + (
                    match spec.source0_url {
                        Some(source0) => where_so(
                            contains(expanded(source0, spec), "%{"@) || contains(
                                expanded(source0, spec),
                                "%("@,
                            ),
                            seq![
                                to_text(
                                    issue_iri(
                                        ("collect-spec"@),
                                        ("source0"@),
                                        expanded(source0, spec),
                                        ("unexpanded-macro"@),
                                    ),
                                    ("collect-spec"@),
                                ),
                            ],
                        ),
                        None => Seq::empty(),
                    }
                )
                + (
                    match spec.source0_url {
                        Some(source0) => (
                            match forge_url(expanded(source0, spec)) {
                                Some(repo_url) => Seq::empty(),
                                None => where_so(
                                    !contains(expanded(source0, spec), "%{"@),
                                    seq![
                                        to_text(
                                            issue_iri(
                                                ("collect-spec"@),
                                                ("source0"@),
                                                expanded(source0, spec),
                                                ("no-forge-match"@),
                                            ),
                                            ("collect-spec"@),
                                        ),
                                    ],
                                ),
                            }
                        ),
                        None => Seq::empty(),
                    }
                )
                + (
                    match spec.source0_url {
                        Some(source0) => Seq::empty(),
                        None => seq![
                            to_text(
                                issue_iri(
                                    ("collect-spec"@),
                                    ("source0"@),
                                    source_name,
                                    ("missing-source0"@),
                                ),
                                ("collect-spec"@),
                            ),
                        ],
                    }
                )
            &&& said(last, pkg("dqField"@)) == said(first, pkg("dqField"@))
                + (
                    match spec.source0_url {
                        Some(source0) => where_so(
                            contains(expanded(source0, spec), "%{"@) || contains(
                                expanded(source0, spec),
                                "%("@,
                            ),
                            seq![
                                to_text(
                                    issue_iri(
                                        ("collect-spec"@),
                                        ("source0"@),
                                        expanded(source0, spec),
                                        ("unexpanded-macro"@),
                                    ),
                                    ("source0"@),
                                ),
                            ],
                        ),
                        None => Seq::empty(),
                    }
                )
                + (
                    match spec.source0_url {
                        Some(source0) => (
                            match forge_url(expanded(source0, spec)) {
                                Some(repo_url) => Seq::empty(),
                                None => where_so(
                                    !contains(expanded(source0, spec), "%{"@),
                                    seq![
                                        to_text(
                                            issue_iri(
                                                ("collect-spec"@),
                                                ("source0"@),
                                                expanded(source0, spec),
                                                ("no-forge-match"@),
                                            ),
                                            ("source0"@),
                                        ),
                                    ],
                                ),
                            }
                        ),
                        None => Seq::empty(),
                    }
                )
                + (
                    match spec.source0_url {
                        Some(source0) => Seq::empty(),
                        None => seq![
                            to_text(
                                issue_iri(
                                    ("collect-spec"@),
                                    ("source0"@),
                                    source_name,
                                    ("missing-source0"@),
                                ),
                                ("source0"@),
                            ),
                        ],
                    }
                )
            &&& said(last, pkg("dqValue"@)) == said(first, pkg("dqValue"@))
                + (
                    match spec.source0_url {
                        Some(source0) => where_so(
                            contains(expanded(source0, spec), "%{"@) || contains(
                                expanded(source0, spec),
                                "%("@,
                            ),
                            seq![
                                to_text(
                                    issue_iri(
                                        ("collect-spec"@),
                                        ("source0"@),
                                        expanded(source0, spec),
                                        ("unexpanded-macro"@),
                                    ),
                                    expanded(source0, spec),
                                ),
                            ],
                        ),
                        None => Seq::empty(),
                    }
                )
                + (
                    match spec.source0_url {
                        Some(source0) => (
                            match forge_url(expanded(source0, spec)) {
                                Some(repo_url) => Seq::empty(),
                                None => where_so(
                                    !contains(expanded(source0, spec), "%{"@),
                                    seq![
                                        to_text(
                                            issue_iri(
                                                ("collect-spec"@),
                                                ("source0"@),
                                                expanded(source0, spec),
                                                ("no-forge-match"@),
                                            ),
                                            expanded(source0, spec),
                                        ),
                                    ],
                                ),
                            }
                        ),
                        None => Seq::empty(),
                    }
                )
                + (
                    match spec.source0_url {
                        Some(source0) => Seq::empty(),
                        None => seq![
                            to_text(
                                issue_iri(
                                    ("collect-spec"@),
                                    ("source0"@),
                                    source_name,
                                    ("missing-source0"@),
                                ),
                                source_name,
                            ),
                        ],
                    }
                )
            &&& said(last, pkg("dqIssueType"@)) == said(first, pkg("dqIssueType"@))
                + (
                    match spec.source0_url {
                        Some(source0) => where_so(
                            contains(expanded(source0, spec), "%{"@) || contains(
                                expanded(source0, spec),
                                "%("@,
                            ),
                            seq![
                                to_text(
                                    issue_iri(
                                        ("collect-spec"@),
                                        ("source0"@),
                                        expanded(source0, spec),
                                        ("unexpanded-macro"@),
                                    ),
                                    ("unexpanded-macro"@),
                                ),
                            ],
                        ),
                        None => Seq::empty(),
                    }
                )
                + (
                    match spec.source0_url {
                        Some(source0) => (
                            match forge_url(expanded(source0, spec)) {
                                Some(repo_url) => Seq::empty(),
                                None => where_so(
                                    !contains(expanded(source0, spec), "%{"@),
                                    seq![
                                        to_text(
                                            issue_iri(
                                                ("collect-spec"@),
                                                ("source0"@),
                                                expanded(source0, spec),
                                                ("no-forge-match"@),
                                            ),
                                            ("no-forge-match"@),
                                        ),
                                    ],
                                ),
                            }
                        ),
                        None => Seq::empty(),
                    }
                )
                + (
                    match spec.source0_url {
                        Some(source0) => Seq::empty(),
                        None => seq![
                            to_text(
                                issue_iri(
                                    ("collect-spec"@),
                                    ("source0"@),
                                    source_name,
                                    ("missing-source0"@),
                                ),
                                ("missing-source0"@),
                            ),
                        ],
                    }
                )
            &&& said(last, pkg("dqSeverity"@)) == said(first, pkg("dqSeverity"@))
                + (
                    match spec.source0_url {
                        Some(source0) => where_so(
                            contains(expanded(source0, spec), "%{"@) || contains(
                                expanded(source0, spec),
                                "%("@,
                            ),
                            seq![
                                to_text(
                                    issue_iri(
                                        ("collect-spec"@),
                                        ("source0"@),
                                        expanded(source0, spec),
                                        ("unexpanded-macro"@),
                                    ),
                                    ("info"@),
                                ),
                            ],
                        ),
                        None => Seq::empty(),
                    }
                )
                + (
                    match spec.source0_url {
                        Some(source0) => (
                            match forge_url(expanded(source0, spec)) {
                                Some(repo_url) => Seq::empty(),
                                None => where_so(
                                    !contains(expanded(source0, spec), "%{"@),
                                    seq![
                                        to_text(
                                            issue_iri(
                                                ("collect-spec"@),
                                                ("source0"@),
                                                expanded(source0, spec),
                                                ("no-forge-match"@),
                                            ),
                                            ("info"@),
                                        ),
                                    ],
                                ),
                            }
                        ),
                        None => Seq::empty(),
                    }
                )
                + (
                    match spec.source0_url {
                        Some(source0) => Seq::empty(),
                        None => seq![
                            to_text(
                                issue_iri(
                                    ("collect-spec"@),
                                    ("source0"@),
                                    source_name,
                                    ("missing-source0"@),
                                ),
                                ("info"@),
                            ),
                        ],
                    }
                )
            &&& said(last, pkg("upstreamRepository"@)) == said(first, pkg("upstreamRepository"@))
                + (
                    match spec.source0_url {
                        Some(source0) => (
                            match forge_url(expanded(source0, spec)) {
                                Some(repo_url) => in_turn(
                                    |k: int| seq![to_iri((identities[k]), repo_iri(repo_url))],
                                    (identities.len()),
                                ),
                                None => Seq::empty(),
                            }
                        ),
                        None => Seq::empty(),
                    }
                )
            &&& said(last, VCS@ + "hostedOn"@) == said(first, VCS@ + "hostedOn"@)
                + (
                    match spec.source0_url {
                        Some(source0) => (
                            match forge_url(expanded(source0, spec)) {
                                Some(repo_url) => seq![
                                    to_iri(repo_iri(repo_url), res1("forge"@, host_of(repo_url))),
                                ],
                                None => Seq::empty(),
                            }
                        ),
                        None => Seq::empty(),
                    }
                )
            &&& said(last, VCS@ + "forgeUrl"@) == said(first, VCS@ + "forgeUrl"@)
                + (
                    match spec.source0_url {
                        Some(source0) => (
                            match forge_url(expanded(source0, spec)) {
                                Some(repo_url) => seq![
                                    to_text(
                                        res1("forge"@, host_of(repo_url)),
                                        "https://"@ + host_of(repo_url),
                                    ),
                                ],
                                None => Seq::empty(),
                            }
                        ),
                        None => Seq::empty(),
                    }
                )
            &&& said(last, VCS@ + "forgeSoftware"@) == said(first, VCS@ + "forgeSoftware"@)
                + (
                    match spec.source0_url {
                        Some(source0) => (
                            match forge_url(expanded(source0, spec)) {
                                Some(repo_url) => seq![
                                    to_text(
                                        res1("forge"@, host_of(repo_url)),
                                        software_or_unknown(host_of(repo_url)),
                                    ),
                                ],
                                None => Seq::empty(),
                            }
                        ),
                        None => Seq::empty(),
                    }
                )
            &&& forall|q: Seq<char>|
                q != RDF_TYPE@
                    && q != pkg("dqCollector"@)
                    && q != pkg("dqField"@)
                    && q != pkg("dqValue"@)
                    && q != pkg("dqIssueType"@)
                    && q != pkg("dqSeverity"@)
                    && q != pkg("upstreamRepository"@)
                    && q != VCS@ + "hostedOn"@
                    && q != VCS@ + "forgeUrl"@
                    && q != VCS@ + "forgeSoftware"@
                    ==> #[trigger] said(last, q) == said(first, q)
        }),
{
    broadcast use {group_reading, group_vcs};

    reveal(source0_step_1);
    reveal_strlit("dqCollector");
    reveal_strlit("dqField");
    reveal_strlit("dqValue");
    reveal_strlit("dqIssueType");
    reveal_strlit("dqSeverity");
    reveal_strlit("upstreamRepository");
    reveal_strlit("hostedOn");
    reveal_strlit("forgeUrl");
    reveal_strlit("forgeSoftware");
    match spec.source0_url {
        Some(source0) => {
            let url = expanded(source0, spec);
            if contains(url, "%{"@) || contains(url, "%("@) {
                lemma_dq_issue_told(
                    w,
                    "collect-spec"@,
                    "source0"@,
                    url,
                    "unexpanded-macro"@,
                    "info"@,
                );
            } else {
            }
            match forge_url(url) {
                Some(repo_url) => {
                    let repo = repo_iri(repo_url);
                    lemma_each_repo_link_told(
                        if contains(url, "%{"@) || contains(url, "%("@) {
                            with_dq_issue(
                                w,
                                "collect-spec"@,
                                "source0"@,
                                url,
                                "unexpanded-macro"@,
                                "info"@,
                            )
                        } else {
                            w
                        },
                        repo,
                        identities,
                        identities.len(),
                    );
                    lemma_forge_told(
                        with_each_repo_link(
                            if contains(url, "%{"@) || contains(url, "%("@) {
                                with_dq_issue(
                                    w,
                                    "collect-spec"@,
                                    "source0"@,
                                    url,
                                    "unexpanded-macro"@,
                                    "info"@,
                                )
                            } else {
                                w
                            },
                            repo,
                            identities,
                            identities.len(),
                        ),
                        repo,
                        repo_url,
                    );
                },
                None => {
                    if !contains(url, "%{"@) {
                        lemma_dq_issue_told(
                            if contains(url, "%{"@) || contains(url, "%("@) {
                                with_dq_issue(
                                    w,
                                    "collect-spec"@,
                                    "source0"@,
                                    url,
                                    "unexpanded-macro"@,
                                    "info"@,
                                )
                            } else {
                                w
                            },
                            "collect-spec"@,
                            "source0"@,
                            url,
                            "no-forge-match"@,
                            "info"@,
                        );
                    } else {
                    }
                },
            }
        },
        None => {
            lemma_dq_issue_told(
                w,
                "collect-spec"@,
                "source0"@,
                source_name,
                "missing-source0"@,
                "info"@,
            );
        },
    }
}

/// What is said of the first source of a package: the repository that it is, for every
/// identity, with its forge; and each fault in it.
pub open spec fn source0_told(
    first: Seq<Fact>,
    last: Seq<Fact>,
    spec: SpecText,
    source_name: Seq<char>,
    identities: Seq<Seq<char>>,
) -> bool {
    &&& said(last, RDF_TYPE@) == said(first, RDF_TYPE@)
        + (
            match spec.source0_url {
                Some(source0) => where_so(
                    contains(expanded(source0, spec), "%{"@) || contains(
                        expanded(source0, spec),
                        "%("@,
                    ),
                    seq![
                        to_iri(
                            issue_iri(
                                ("collect-spec"@),
                                ("source0"@),
                                expanded(source0, spec),
                                ("unexpanded-macro"@),
                            ),
                            pkg("DataQualityIssue"@),
                        ),
                    ],
                ),
                None => Seq::empty(),
            }
        )
        + (
            match spec.source0_url {
                Some(source0) => (
                    match forge_url(expanded(source0, spec)) {
                        Some(repo_url) => seq![
                            to_iri(res1("forge"@, host_of(repo_url)), VCS@ + "Forge"@),
                        ],
                        None => Seq::empty(),
                    }
                ),
                None => Seq::empty(),
            }
        )
        + (
            match spec.source0_url {
                Some(source0) => (
                    match forge_url(expanded(source0, spec)) {
                        Some(repo_url) => Seq::empty(),
                        None => where_so(
                            !contains(expanded(source0, spec), "%{"@),
                            seq![
                                to_iri(
                                    issue_iri(
                                        ("collect-spec"@),
                                        ("source0"@),
                                        expanded(source0, spec),
                                        ("no-forge-match"@),
                                    ),
                                    pkg("DataQualityIssue"@),
                                ),
                            ],
                        ),
                    }
                ),
                None => Seq::empty(),
            }
        )
        + (
            match spec.source0_url {
                Some(source0) => Seq::empty(),
                None => seq![
                    to_iri(
                        issue_iri(
                            ("collect-spec"@),
                            ("source0"@),
                            source_name,
                            ("missing-source0"@),
                        ),
                        pkg("DataQualityIssue"@),
                    ),
                ],
            }
        )
    &&& said(last, pkg("dqCollector"@)) == said(first, pkg("dqCollector"@))
        + (
            match spec.source0_url {
                Some(source0) => where_so(
                    contains(expanded(source0, spec), "%{"@) || contains(
                        expanded(source0, spec),
                        "%("@,
                    ),
                    seq![
                        to_text(
                            issue_iri(
                                ("collect-spec"@),
                                ("source0"@),
                                expanded(source0, spec),
                                ("unexpanded-macro"@),
                            ),
                            ("collect-spec"@),
                        ),
                    ],
                ),
                None => Seq::empty(),
            }
        )
        + (
            match spec.source0_url {
                Some(source0) => (
                    match forge_url(expanded(source0, spec)) {
                        Some(repo_url) => Seq::empty(),
                        None => where_so(
                            !contains(expanded(source0, spec), "%{"@),
                            seq![
                                to_text(
                                    issue_iri(
                                        ("collect-spec"@),
                                        ("source0"@),
                                        expanded(source0, spec),
                                        ("no-forge-match"@),
                                    ),
                                    ("collect-spec"@),
                                ),
                            ],
                        ),
                    }
                ),
                None => Seq::empty(),
            }
        )
        + (
            match spec.source0_url {
                Some(source0) => Seq::empty(),
                None => seq![
                    to_text(
                        issue_iri(
                            ("collect-spec"@),
                            ("source0"@),
                            source_name,
                            ("missing-source0"@),
                        ),
                        ("collect-spec"@),
                    ),
                ],
            }
        )
    &&& said(last, pkg("dqField"@)) == said(first, pkg("dqField"@))
        + (
            match spec.source0_url {
                Some(source0) => where_so(
                    contains(expanded(source0, spec), "%{"@) || contains(
                        expanded(source0, spec),
                        "%("@,
                    ),
                    seq![
                        to_text(
                            issue_iri(
                                ("collect-spec"@),
                                ("source0"@),
                                expanded(source0, spec),
                                ("unexpanded-macro"@),
                            ),
                            ("source0"@),
                        ),
                    ],
                ),
                None => Seq::empty(),
            }
        )
        + (
            match spec.source0_url {
                Some(source0) => (
                    match forge_url(expanded(source0, spec)) {
                        Some(repo_url) => Seq::empty(),
                        None => where_so(
                            !contains(expanded(source0, spec), "%{"@),
                            seq![
                                to_text(
                                    issue_iri(
                                        ("collect-spec"@),
                                        ("source0"@),
                                        expanded(source0, spec),
                                        ("no-forge-match"@),
                                    ),
                                    ("source0"@),
                                ),
                            ],
                        ),
                    }
                ),
                None => Seq::empty(),
            }
        )
        + (
            match spec.source0_url {
                Some(source0) => Seq::empty(),
                None => seq![
                    to_text(
                        issue_iri(
                            ("collect-spec"@),
                            ("source0"@),
                            source_name,
                            ("missing-source0"@),
                        ),
                        ("source0"@),
                    ),
                ],
            }
        )
    &&& said(last, pkg("dqValue"@)) == said(first, pkg("dqValue"@))
        + (
            match spec.source0_url {
                Some(source0) => where_so(
                    contains(expanded(source0, spec), "%{"@) || contains(
                        expanded(source0, spec),
                        "%("@,
                    ),
                    seq![
                        to_text(
                            issue_iri(
                                ("collect-spec"@),
                                ("source0"@),
                                expanded(source0, spec),
                                ("unexpanded-macro"@),
                            ),
                            expanded(source0, spec),
                        ),
                    ],
                ),
                None => Seq::empty(),
            }
        )
        + (
            match spec.source0_url {
                Some(source0) => (
                    match forge_url(expanded(source0, spec)) {
                        Some(repo_url) => Seq::empty(),
                        None => where_so(
                            !contains(expanded(source0, spec), "%{"@),
                            seq![
                                to_text(
                                    issue_iri(
                                        ("collect-spec"@),
                                        ("source0"@),
                                        expanded(source0, spec),
                                        ("no-forge-match"@),
                                    ),
                                    expanded(source0, spec),
                                ),
                            ],
                        ),
                    }
                ),
                None => Seq::empty(),
            }
        )
        + (
            match spec.source0_url {
                Some(source0) => Seq::empty(),
                None => seq![
                    to_text(
                        issue_iri(
                            ("collect-spec"@),
                            ("source0"@),
                            source_name,
                            ("missing-source0"@),
                        ),
                        source_name,
                    ),
                ],
            }
        )
    &&& said(last, pkg("dqIssueType"@)) == said(first, pkg("dqIssueType"@))
        + (
            match spec.source0_url {
                Some(source0) => where_so(
                    contains(expanded(source0, spec), "%{"@) || contains(
                        expanded(source0, spec),
                        "%("@,
                    ),
                    seq![
                        to_text(
                            issue_iri(
                                ("collect-spec"@),
                                ("source0"@),
                                expanded(source0, spec),
                                ("unexpanded-macro"@),
                            ),
                            ("unexpanded-macro"@),
                        ),
                    ],
                ),
                None => Seq::empty(),
            }
        )
        + (
            match spec.source0_url {
                Some(source0) => (
                    match forge_url(expanded(source0, spec)) {
                        Some(repo_url) => Seq::empty(),
                        None => where_so(
                            !contains(expanded(source0, spec), "%{"@),
                            seq![
                                to_text(
                                    issue_iri(
                                        ("collect-spec"@),
                                        ("source0"@),
                                        expanded(source0, spec),
                                        ("no-forge-match"@),
                                    ),
                                    ("no-forge-match"@),
                                ),
                            ],
                        ),
                    }
                ),
                None => Seq::empty(),
            }
        )
        + (
            match spec.source0_url {
                Some(source0) => Seq::empty(),
                None => seq![
                    to_text(
                        issue_iri(
                            ("collect-spec"@),
                            ("source0"@),
                            source_name,
                            ("missing-source0"@),
                        ),
                        ("missing-source0"@),
                    ),
                ],
            }
        )
    &&& said(last, pkg("dqSeverity"@)) == said(first, pkg("dqSeverity"@))
        + (
            match spec.source0_url {
                Some(source0) => where_so(
                    contains(expanded(source0, spec), "%{"@) || contains(
                        expanded(source0, spec),
                        "%("@,
                    ),
                    seq![
                        to_text(
                            issue_iri(
                                ("collect-spec"@),
                                ("source0"@),
                                expanded(source0, spec),
                                ("unexpanded-macro"@),
                            ),
                            ("info"@),
                        ),
                    ],
                ),
                None => Seq::empty(),
            }
        )
        + (
            match spec.source0_url {
                Some(source0) => (
                    match forge_url(expanded(source0, spec)) {
                        Some(repo_url) => Seq::empty(),
                        None => where_so(
                            !contains(expanded(source0, spec), "%{"@),
                            seq![
                                to_text(
                                    issue_iri(
                                        ("collect-spec"@),
                                        ("source0"@),
                                        expanded(source0, spec),
                                        ("no-forge-match"@),
                                    ),
                                    ("info"@),
                                ),
                            ],
                        ),
                    }
                ),
                None => Seq::empty(),
            }
        )
        + (
            match spec.source0_url {
                Some(source0) => Seq::empty(),
                None => seq![
                    to_text(
                        issue_iri(
                            ("collect-spec"@),
                            ("source0"@),
                            source_name,
                            ("missing-source0"@),
                        ),
                        ("info"@),
                    ),
                ],
            }
        )
    &&& said(last, pkg("upstreamRepository"@)) == said(first, pkg("upstreamRepository"@))
        + (
            match spec.source0_url {
                Some(source0) => (
                    match forge_url(expanded(source0, spec)) {
                        Some(repo_url) => in_turn(
                            |k: int| seq![to_iri((identities[k]), repo_iri(repo_url))],
                            (identities.len()),
                        ),
                        None => Seq::empty(),
                    }
                ),
                None => Seq::empty(),
            }
        )
    &&& said(last, VCS@ + "hostedOn"@) == said(first, VCS@ + "hostedOn"@)
        + (
            match spec.source0_url {
                Some(source0) => (
                    match forge_url(expanded(source0, spec)) {
                        Some(repo_url) => seq![
                            to_iri(repo_iri(repo_url), res1("forge"@, host_of(repo_url))),
                        ],
                        None => Seq::empty(),
                    }
                ),
                None => Seq::empty(),
            }
        )
    &&& said(last, VCS@ + "forgeUrl"@) == said(first, VCS@ + "forgeUrl"@)
        + (
            match spec.source0_url {
                Some(source0) => (
                    match forge_url(expanded(source0, spec)) {
                        Some(repo_url) => seq![
                            to_text(
                                res1("forge"@, host_of(repo_url)),
                                "https://"@ + host_of(repo_url),
                            ),
                        ],
                        None => Seq::empty(),
                    }
                ),
                None => Seq::empty(),
            }
        )
    &&& said(last, VCS@ + "forgeSoftware"@) == said(first, VCS@ + "forgeSoftware"@)
        + (
            match spec.source0_url {
                Some(source0) => (
                    match forge_url(expanded(source0, spec)) {
                        Some(repo_url) => seq![
                            to_text(
                                res1("forge"@, host_of(repo_url)),
                                software_or_unknown(host_of(repo_url)),
                            ),
                        ],
                        None => Seq::empty(),
                    }
                ),
                None => Seq::empty(),
            }
        )
    &&& forall|q: Seq<char>|
        q != RDF_TYPE@
            && q != pkg("dqCollector"@)
            && q != pkg("dqField"@)
            && q != pkg("dqValue"@)
            && q != pkg("dqIssueType"@)
            && q != pkg("dqSeverity"@)
            && q != pkg("upstreamRepository"@)
            && q != VCS@ + "hostedOn"@
            && q != VCS@ + "forgeUrl"@
            && q != VCS@ + "forgeSoftware"@
            ==> #[trigger] said(last, q) == said(first, q)
}

proof fn lemma_source0_in_steps(
    w: Sheet,
    spec: SpecText,
    source_name: Seq<char>,
    identities: Seq<Seq<char>>,
)
    ensures
        with_source0(w, spec, source_name, identities) == ({
            let w = source0_step_1(w, spec, source_name, identities);
            w
        }),
{
    reveal(source0_step_1);
}

proof fn lemma_source0_steps(
    w: Sheet,
    spec: SpecText,
    source_name: Seq<char>,
    identities: Seq<Seq<char>>,
)
    ensures
        source0_told(w.log, ({
            let w = source0_step_1(w, spec, source_name, identities);
            w
        }).log, spec, source_name, identities),
{
    broadcast use {group_writes, group_vcs};

    reveal_strlit("dqCollector");
    reveal_strlit("dqField");
    reveal_strlit("dqValue");
    reveal_strlit("dqIssueType");
    reveal_strlit("dqSeverity");
    reveal_strlit("upstreamRepository");
    reveal_strlit("hostedOn");
    reveal_strlit("forgeUrl");
    reveal_strlit("forgeSoftware");
    let w1 = source0_step_1(w, spec, source_name, identities);
    lemma_source0_step_1(w, spec, source_name, identities);
}

/// What [`with_source0`] writes says what [`source0_told`] states.
pub proof fn lemma_source0_told(
    w: Sheet,
    spec: SpecText,
    source_name: Seq<char>,
    identities: Seq<Seq<char>>,
)
    ensures
        source0_told(
            w.log,
            with_source0(w, spec, source_name, identities).log,
            spec,
            source_name,
            identities,
        ),
{
    lemma_source0_in_steps(w, spec, source_name, identities);
    lemma_source0_steps(w, spec, source_name, identities);
}

proof fn lemma_spec_source_told(w: Sheet, src: Seq<char>, url: Seq<char>)
    ensures
        ({
            let first = w.log;
            let last = with_spec_source(w, src, url).log;
            &&& said(last, RPM@ + "hasSpecSource"@) == said(first, RPM@ + "hasSpecSource"@)
                + seq![to_text(src, url)]
            &&& forall|q: Seq<char>|
                q != RPM@ + "hasSpecSource"@ ==> #[trigger] said(last, q) == said(first, q)
        }),
{
    broadcast use {group_reading, group_rpm};

    reveal_strlit("hasSpecSource");
}

proof fn lemma_each_spec_source_told(w: Sheet, src: Seq<char>, items: Seq<Seq<char>>, n: nat)
    ensures
        ({
            let first = w.log;
            let last = with_each_spec_source(w, src, items, n).log;
            &&& said(last, RPM@ + "hasSpecSource"@) == said(first, RPM@ + "hasSpecSource"@)
                + in_turn(|k: int| seq![to_text(src, (items[k]))], n)
            &&& forall|q: Seq<char>|
                q != RPM@ + "hasSpecSource"@ ==> #[trigger] said(last, q) == said(first, q)
        }),
    decreases n,
{
    broadcast use {group_writes, group_rpm};

    reveal_strlit("hasSpecSource");
    if n > 0 {
        lemma_each_spec_source_told(w, src, items, (n - 1) as nat);
        lemma_spec_source_told(
            with_each_spec_source(w, src, items, (n - 1) as nat),
            src,
            items[n - 1],
        );
    }
}

/// What is said of a patch of a package.
pub open spec fn patch_told(
    first: Seq<Fact>,
    last: Seq<Fact>,
    c: SpecCollector,
    src: Seq<char>,
    source_name: Seq<char>,
    idx: usize,
    url: Seq<char>,
) -> bool {
    let name = last_segment(url);
    let patch = patch_iri(c, source_name, idx, name);
    &&& said(last, RDF_TYPE@) == said(first, RDF_TYPE@) + seq![to_iri(patch, RPM@ + "Patch"@)]
    &&& said(last, RPM@ + "patchName"@) == said(first, RPM@ + "patchName"@)
        + seq![to_text(patch, name)]
    &&& said(last, RPM@ + "hasPatch"@) == said(first, RPM@ + "hasPatch"@) + seq![to_iri(src, patch)]
    &&& forall|q: Seq<char>|
        q != RDF_TYPE@ && q != RPM@ + "patchName"@ && q != RPM@ + "hasPatch"@
            ==> #[trigger] said(last, q) == said(first, q)
}

proof fn lemma_patch_in_steps(
    w: Sheet,
    c: SpecCollector,
    src: Seq<char>,
    source_name: Seq<char>,
    idx: usize,
    url: Seq<char>,
)
    ensures
        with_patch(w, c, src, source_name, idx, url) == ({
            let name = last_segment(url);
            let patch = patch_iri(c, source_name, idx, name);
            let w = link(w, patch, RDF_TYPE@, RPM@ + "Patch"@);
            let w = literal(w, patch, RPM@ + "patchName"@, name);
            let w = link(w, src, RPM@ + "hasPatch"@, patch);
            w
        }),
{
}

proof fn lemma_patch_steps(
    w: Sheet,
    c: SpecCollector,
    src: Seq<char>,
    source_name: Seq<char>,
    idx: usize,
    url: Seq<char>,
)
    ensures
        patch_told(w.log, ({
            let name = last_segment(url);
            let patch = patch_iri(c, source_name, idx, name);
            let w = link(w, patch, RDF_TYPE@, RPM@ + "Patch"@);
            let w = literal(w, patch, RPM@ + "patchName"@, name);
            let w = link(w, src, RPM@ + "hasPatch"@, patch);
            w
        }).log, c, src, source_name, idx, url),
{
    broadcast use {group_writes, group_rpm};

    reveal_strlit("patchName");
    reveal_strlit("hasPatch");
    let name = last_segment(url);
    let patch = patch_iri(c, source_name, idx, name);
    let w1 = link(w, patch, RDF_TYPE@, RPM@ + "Patch"@);
    let w2 = literal(w1, patch, RPM@ + "patchName"@, name);
    let w3 = link(w2, src, RPM@ + "hasPatch"@, patch);
}

/// What [`with_patch`] writes says what [`patch_told`] states.
pub proof fn lemma_patch_told(
    w: Sheet,
    c: SpecCollector,
    src: Seq<char>,
    source_name: Seq<char>,
    idx: usize,
    url: Seq<char>,
)
    ensures
        patch_told(
            w.log,
            with_patch(w, c, src, source_name, idx, url).log,
            c,
            src,
            source_name,
            idx,
            url,
        ),
{
    lemma_patch_in_steps(w, c, src, source_name, idx, url);
    lemma_patch_steps(w, c, src, source_name, idx, url);
}

proof fn lemma_each_patch_told(
    w: Sheet,
    c: SpecCollector,
    src: Seq<char>,
    source_name: Seq<char>,
    items: Seq<Seq<char>>,
    n: nat,
)
    ensures
        ({
            let first = w.log;
            let last = with_each_patch(w, c, src, source_name, items, n).log;
            &&& said(last, RDF_TYPE@) == said(first, RDF_TYPE@)
                + in_turn(
                    |k: int|
                        seq![
                            to_iri(
                                patch_iri(c, source_name, ((k) as usize), last_segment((items[k]))),
                                RPM@ + "Patch"@,
                            ),
                        ],
                    n,
                )
            &&& said(last, RPM@ + "patchName"@) == said(first, RPM@ + "patchName"@)
                + in_turn(
                    |k: int|
                        seq![
                            to_text(
                                patch_iri(c, source_name, ((k) as usize), last_segment((items[k]))),
                                last_segment((items[k])),
                            ),
                        ],
                    n,
                )
            &&& said(last, RPM@ + "hasPatch"@) == said(first, RPM@ + "hasPatch"@)
                + in_turn(
                    |k: int|
                        seq![
                            to_iri(
                                src,
                                patch_iri(c, source_name, ((k) as usize), last_segment((items[k]))),
                            ),
                        ],
                    n,
                )
            &&& forall|q: Seq<char>|
                q != RDF_TYPE@ && q != RPM@ + "patchName"@ && q != RPM@ + "hasPatch"@
                    ==> #[trigger] said(last, q) == said(first, q)
        }),
    decreases n,
{
    broadcast use {group_writes, group_rpm};

    reveal_strlit("patchName");
    reveal_strlit("hasPatch");
    if n > 0 {
        lemma_each_patch_told(w, c, src, source_name, items, (n - 1) as nat);
        lemma_patch_told(
            with_each_patch(w, c, src, source_name, items, (n - 1) as nat),
            c,
            src,
            source_name,
            (n - 1) as usize,
            items[n - 1],
        );
    }
}

/// What is said of the commit that a package is derived from.
pub open spec fn commit_told(
    first: Seq<Fact>,
    last: Seq<Fact>,
    src: Seq<char>,
    commit: Seq<char>,
) -> bool {
    let node = DATA@ + "commit/"@ + commit;
    &&& said(last, RDF_TYPE@) == said(first, RDF_TYPE@) + seq![to_iri(node, VCS@ + "Commit"@)]
    &&& said(last, VCS@ + "commitHash"@) == said(first, VCS@ + "commitHash"@)
        + seq![to_text(node, commit)]
    &&& said(last, pkg("derivedFromCommit"@)) == said(first, pkg("derivedFromCommit"@))
        + seq![to_iri(src, node)]
    &&& forall|q: Seq<char>|
        q != RDF_TYPE@ && q != VCS@ + "commitHash"@ && q != pkg("derivedFromCommit"@)
            ==> #[trigger] said(last, q) == said(first, q)
}

proof fn lemma_commit_in_steps(w: Sheet, src: Seq<char>, commit: Seq<char>)
    ensures
        with_commit(w, src, commit) == ({
            let node = DATA@ + "commit/"@ + commit;
            let w = link(w, node, RDF_TYPE@, VCS@ + "Commit"@);
            let w = literal(w, node, VCS@ + "commitHash"@, commit);
            let w = link(w, src, pkg("derivedFromCommit"@), node);
            w
        }),
{
}

proof fn lemma_commit_steps(w: Sheet, src: Seq<char>, commit: Seq<char>)
    ensures
        commit_told(w.log, ({
            let node = DATA@ + "commit/"@ + commit;
            let w = link(w, node, RDF_TYPE@, VCS@ + "Commit"@);
            let w = literal(w, node, VCS@ + "commitHash"@, commit);
            let w = link(w, src, pkg("derivedFromCommit"@), node);
            w
        }).log, src, commit),
{
    broadcast use {group_writes, group_vcs};

    reveal_strlit("commitHash");
    reveal_strlit("derivedFromCommit");
    let node = DATA@ + "commit/"@ + commit;
    let w1 = link(w, node, RDF_TYPE@, VCS@ + "Commit"@);
    let w2 = literal(w1, node, VCS@ + "commitHash"@, commit);
    let w3 = link(w2, src, pkg("derivedFromCommit"@), node);
}

/// What [`with_commit`] writes says what [`commit_told`] states.
pub proof fn lemma_commit_told(
    w: Sheet,
    src: Seq<char>,
    commit: Seq<char>,
)
    ensures
        commit_told(w.log, with_commit(w, src, commit).log, src, commit),
{
    lemma_commit_in_steps(w, src, commit);
    lemma_commit_steps(w, src, commit);
}

/// What is said of the ecosystem that a package is taken from, and of the name there, where
/// one is known.
pub open spec fn upstream_package_told(
    first: Seq<Fact>,
    last: Seq<Fact>,
    ecosystem: Seq<char>,
    name: Option<Seq<char>>,
    identity: Seq<char>,
) -> bool {
    &&& said(last, pkg("upstreamEcosystem"@)) == said(first, pkg("upstreamEcosystem"@))
        + seq![to_iri(identity, ecosystem)]
    &&& said(last, pkg("upstreamPackageName"@)) == said(first, pkg("upstreamPackageName"@))
        + text_if(identity, name)
    &&& forall|q: Seq<char>|
        q != pkg("upstreamEcosystem"@) && q != pkg("upstreamPackageName"@)
            ==> #[trigger] said(last, q) == said(first, q)
}

proof fn lemma_upstream_package_in_steps(
    w: Sheet,
    ecosystem: Seq<char>,
    name: Option<Seq<char>>,
    identity: Seq<char>,
)
    ensures
        with_upstream_package(w, ecosystem, name, identity) == ({
            let w = link(w, identity, pkg("upstreamEcosystem"@), ecosystem);
            let w = maybe_literal(w, identity, pkg("upstreamPackageName"@), name);
            w
        }),
{
    reveal(maybe_literal);
}

proof fn lemma_upstream_package_steps(
    w: Sheet,
    ecosystem: Seq<char>,
    name: Option<Seq<char>>,
    identity: Seq<char>,
)
    ensures
        upstream_package_told(w.log, ({
            let w = link(w, identity, pkg("upstreamEcosystem"@), ecosystem);
            let w = maybe_literal(w, identity, pkg("upstreamPackageName"@), name);
            w
        }).log, ecosystem, name, identity),
{
    broadcast use group_writes;

    reveal_strlit("upstreamEcosystem");
    reveal_strlit("upstreamPackageName");
    let w1 = link(w, identity, pkg("upstreamEcosystem"@), ecosystem);
    let w2 = maybe_literal(w1, identity, pkg("upstreamPackageName"@), name);
}

/// What [`with_upstream_package`] writes says what [`upstream_package_told`] states.
pub proof fn lemma_upstream_package_told(
    w: Sheet,
    ecosystem: Seq<char>,
    name: Option<Seq<char>>,
    identity: Seq<char>,
)
    ensures
        upstream_package_told(
            w.log,
            with_upstream_package(w, ecosystem, name, identity).log,
            ecosystem,
            name,
            identity,
        ),
{
    lemma_upstream_package_in_steps(w, ecosystem, name, identity);
    lemma_upstream_package_steps(w, ecosystem, name, identity);
}

proof fn lemma_each_upstream_package_told(
    w: Sheet,
    ecosystem: Seq<char>,
    name: Option<Seq<char>>,
    items: Seq<Seq<char>>,
    n: nat,
)
    ensures
        ({
            let first = w.log;
            let last = with_each_upstream_package(w, ecosystem, name, items, n).log;
            &&& said(last, pkg("upstreamEcosystem"@)) == said(first, pkg("upstreamEcosystem"@))
                + in_turn(|k: int| seq![to_iri((items[k]), ecosystem)], n)
            &&& said(last, pkg("upstreamPackageName"@)) == said(first, pkg("upstreamPackageName"@))
                + in_turn(|k: int| text_if((items[k]), name), n)
            &&& forall|q: Seq<char>|
                q != pkg("upstreamEcosystem"@) && q != pkg("upstreamPackageName"@)
                    ==> #[trigger] said(last, q) == said(first, q)
        }),
    decreases n,
{
    broadcast use group_writes;

    reveal_strlit("upstreamEcosystem");
    reveal_strlit("upstreamPackageName");
    if n > 0 {
        lemma_each_upstream_package_told(w, ecosystem, name, items, (n - 1) as nat);
        lemma_upstream_package_told(
            with_each_upstream_package(w, ecosystem, name, items, (n - 1) as nat),
            ecosystem,
            name,
            items[n - 1],
        );
    }
}

#[verifier::opaque]
spec fn detection_step_1(
    w: Sheet,
    name: Option<Seq<char>>,
    identities: Seq<Seq<char>>,
    node: Seq<char>,
) -> Sheet {
    with_each_upstream_package(w, node, name, identities, identities.len())
}

proof fn lemma_detection_step_1(
    w: Sheet,
    name: Option<Seq<char>>,
    identities: Seq<Seq<char>>,
    node: Seq<char>,
)
    ensures
        ({
            let first = w.log;
            let last = detection_step_1(w, name, identities, node).log;
            &&& said(last, pkg("upstreamEcosystem"@)) == said(first, pkg("upstreamEcosystem"@))
                + in_turn(|k: int| seq![to_iri((identities[k]), node)], (identities.len()))
            &&& said(last, pkg("upstreamPackageName"@)) == said(first, pkg("upstreamPackageName"@))
                + in_turn(|k: int| text_if((identities[k]), name), (identities.len()))
            &&& forall|q: Seq<char>|
                q != pkg("upstreamEcosystem"@) && q != pkg("upstreamPackageName"@)
                    ==> #[trigger] said(last, q) == said(first, q)
        }),
{
    broadcast use group_reading;

    reveal(detection_step_1);
    reveal_strlit("upstreamEcosystem");
    reveal_strlit("upstreamPackageName");
    lemma_each_upstream_package_told(w, node, name, identities, identities.len());
}

/// What is said of the ecosystem that was detected.
pub open spec fn detection_told(
    first: Seq<Fact>,
    last: Seq<Fact>,
    ecosystem: Seq<char>,
    name: Option<Seq<char>>,
    method: Seq<char>,
    source_name: Seq<char>,
    identities: Seq<Seq<char>>,
) -> bool {
    let node = DATA@ + "ecosystem/"@ + ecosystem;
    let value = ecosystem + ":"@ + source_name + " via "@ + method;
    let sure = confidence(method);
    &&& said(last, RDF_TYPE@) == said(first, RDF_TYPE@)
        + seq![to_iri(node, pkg("Ecosystem"@))]
        + seq![
            to_iri(
                issue_iri(
                    ("collect-spec"@),
                    ("ecosystem-detection"@),
                    value,
                    ("ecosystem-detected-"@ + sure),
                ),
                pkg("DataQualityIssue"@),
            ),
        ]
    &&& said(last, RDFS_LABEL@) == said(first, RDFS_LABEL@) + seq![to_text(node, ecosystem)]
    &&& said(last, pkg("upstreamEcosystem"@)) == said(first, pkg("upstreamEcosystem"@))
        + in_turn(|k: int| seq![to_iri((identities[k]), node)], (identities.len()))
    &&& said(last, pkg("upstreamPackageName"@)) == said(first, pkg("upstreamPackageName"@))
        + in_turn(|k: int| text_if((identities[k]), name), (identities.len()))
    &&& said(last, pkg("dqCollector"@)) == said(first, pkg("dqCollector"@))
        + seq![
            to_text(
                issue_iri(
                    ("collect-spec"@),
                    ("ecosystem-detection"@),
                    value,
                    ("ecosystem-detected-"@ + sure),
                ),
                ("collect-spec"@),
            ),
        ]
    &&& said(last, pkg("dqField"@)) == said(first, pkg("dqField"@))
        + seq![
            to_text(
                issue_iri(
                    ("collect-spec"@),
                    ("ecosystem-detection"@),
                    value,
                    ("ecosystem-detected-"@ + sure),
                ),
                ("ecosystem-detection"@),
            ),
        ]
    &&& said(last, pkg("dqValue"@)) == said(first, pkg("dqValue"@))
        + seq![
            to_text(
                issue_iri(
                    ("collect-spec"@),
                    ("ecosystem-detection"@),
                    value,
                    ("ecosystem-detected-"@ + sure),
                ),
                value,
            ),
        ]
    &&& said(last, pkg("dqIssueType"@)) == said(first, pkg("dqIssueType"@))
        + seq![
            to_text(
                issue_iri(
                    ("collect-spec"@),
                    ("ecosystem-detection"@),
                    value,
                    ("ecosystem-detected-"@ + sure),
                ),
                ("ecosystem-detected-"@ + sure),
            ),
        ]
    &&& said(last, pkg("dqSeverity"@)) == said(first, pkg("dqSeverity"@))
        + seq![
            to_text(
                issue_iri(
                    ("collect-spec"@),
                    ("ecosystem-detection"@),
                    value,
                    ("ecosystem-detected-"@ + sure),
                ),
                ("info"@),
            ),
        ]
    &&& forall|q: Seq<char>|
        q != RDF_TYPE@
            && q != RDFS_LABEL@
            && q != pkg("upstreamEcosystem"@)
            && q != pkg("upstreamPackageName"@)
            && q != pkg("dqCollector"@)
            && q != pkg("dqField"@)
            && q != pkg("dqValue"@)
            && q != pkg("dqIssueType"@)
            && q != pkg("dqSeverity"@)
            ==> #[trigger] said(last, q) == said(first, q)
}

proof fn lemma_detection_in_steps(
    w: Sheet,
    ecosystem: Seq<char>,
    name: Option<Seq<char>>,
    method: Seq<char>,
    source_name: Seq<char>,
    identities: Seq<Seq<char>>,
)
    ensures
        with_detection(w, ecosystem, name, method, source_name, identities) == ({
            let node = DATA@ + "ecosystem/"@ + ecosystem;
            let w = link(w, node, RDF_TYPE@, pkg("Ecosystem"@));
            let w = literal(w, node, RDFS_LABEL@, ecosystem);
            let w = detection_step_1(w, name, identities, node);
            let value = ecosystem + ":"@ + source_name + " via "@ + method;
            let sure = confidence(method);
            let w = with_dq_issue(
                w,
                "collect-spec"@,
                "ecosystem-detection"@,
                value,
                "ecosystem-detected-"@ + sure,
                "info"@,
            );
            w
        }),
{
    reveal(detection_step_1);
}

proof fn lemma_detection_steps(
    w: Sheet,
    ecosystem: Seq<char>,
    name: Option<Seq<char>>,
    method: Seq<char>,
    source_name: Seq<char>,
    identities: Seq<Seq<char>>,
)
    ensures
        detection_told(w.log, ({
            let node = DATA@ + "ecosystem/"@ + ecosystem;
            let w = link(w, node, RDF_TYPE@, pkg("Ecosystem"@));
            let w = literal(w, node, RDFS_LABEL@, ecosystem);
            let w = detection_step_1(w, name, identities, node);
            let value = ecosystem + ":"@ + source_name + " via "@ + method;
            let sure = confidence(method);
            let w = with_dq_issue(
                w,
                "collect-spec"@,
                "ecosystem-detection"@,
                value,
                "ecosystem-detected-"@ + sure,
                "info"@,
            );
            w
        }).log, ecosystem, name, method, source_name, identities),
{
    broadcast use group_writes;

    reveal_strlit("upstreamEcosystem");
    reveal_strlit("upstreamPackageName");
    reveal_strlit("dqCollector");
    reveal_strlit("dqField");
    reveal_strlit("dqValue");
    reveal_strlit("dqIssueType");
    reveal_strlit("dqSeverity");
    let node = DATA@ + "ecosystem/"@ + ecosystem;
    let w1 = link(w, node, RDF_TYPE@, pkg("Ecosystem"@));
    let w2 = literal(w1, node, RDFS_LABEL@, ecosystem);
    let w3 = detection_step_1(w2, name, identities, node);
    lemma_detection_step_1(w2, name, identities, node);
    let value = ecosystem + ":"@ + source_name + " via "@ + method;
    let sure = confidence(method);
    let w4 = with_dq_issue(
        w3,
        "collect-spec"@,
        "ecosystem-detection"@,
        value,
        "ecosystem-detected-"@ + sure,
        "info"@,
    );
    lemma_dq_issue_told(
        w3,
        "collect-spec"@,
        "ecosystem-detection"@,
        value,
        "ecosystem-detected-"@ + sure,
        "info"@,
    );
}

/// What [`with_detection`] writes says what [`detection_told`] states.
pub proof fn lemma_detection_told(
    w: Sheet,
    ecosystem: Seq<char>,
    name: Option<Seq<char>>,
    method: Seq<char>,
    source_name: Seq<char>,
    identities: Seq<Seq<char>>,
)
    ensures
        detection_told(
            w.log,
            with_detection(w, ecosystem, name, method, source_name, identities).log,
            ecosystem,
            name,
            method,
            source_name,
            identities,
        ),
{
    lemma_detection_in_steps(w, ecosystem, name, method, source_name, identities);
    lemma_detection_steps(w, ecosystem, name, method, source_name, identities);
}

#[verifier::opaque]
spec fn changelog_entry_step_1(
    w: Sheet,
    src: Seq<char>,
    name: Seq<char>,
    address: Seq<char>,
) -> Sheet {
    match person_iri(address) {
        Some(person) => {
            let email = plain_email(address);
            let w = link(w, person, RDF_TYPE@, pkg("Person"@));
            let w = literal(w, person, FOAF@ + "name"@, name);
            let w = literal(w, person, FOAF@ + "mbox"@, "mailto:"@ + email);
            let w = link(w, src, PROV@ + "wasAttributedTo"@, person);
            let w = if address != email {
                with_dq_issue(
                    w,
                    "spec-changelog"@,
                    "obfuscated-email"@,
                    address,
                    "email-normalized"@,
                    "info"@,
                )
            } else {
                w
            };
            w
        },
        None => {
            with_dq_issue(
                w,
                "spec-changelog"@,
                "invalid-email"@,
                address,
                "email-unparseable"@,
                "warning"@,
            )
        },
    }
}

proof fn lemma_changelog_entry_step_1(w: Sheet, src: Seq<char>, name: Seq<char>, address: Seq<char>)
    ensures
        ({
            let first = w.log;
            let last = changelog_entry_step_1(w, src, name, address).log;
            &&& said(last, RDF_TYPE@) == said(first, RDF_TYPE@)
                + (
                    match person_iri(address) {
                        Some(person) => seq![to_iri(person, pkg("Person"@))],
                        None => Seq::empty(),
                    }
                )
                + (
                    match person_iri(address) {
                        Some(person) => where_so(
                            address != plain_email(address),
                            seq![
                                to_iri(
                                    issue_iri(
                                        ("spec-changelog"@),
                                        ("obfuscated-email"@),
                                        address,
                                        ("email-normalized"@),
                                    ),
                                    pkg("DataQualityIssue"@),
                                ),
                            ],
                        ),
                        None => Seq::empty(),
                    }
                )
                + (
                    match person_iri(address) {
                        Some(person) => Seq::empty(),
                        None => seq![
                            to_iri(
                                issue_iri(
                                    ("spec-changelog"@),
                                    ("invalid-email"@),
                                    address,
                                    ("email-unparseable"@),
                                ),
                                pkg("DataQualityIssue"@),
                            ),
                        ],
                    }
                )
            &&& said(last, FOAF@ + "name"@) == said(first, FOAF@ + "name"@)
                + (
                    match person_iri(address) {
                        Some(person) => seq![to_text(person, name)],
                        None => Seq::empty(),
                    }
                )
            &&& said(last, FOAF@ + "mbox"@) == said(first, FOAF@ + "mbox"@)
                + (
                    match person_iri(address) {
                        Some(person) => seq![to_text(person, "mailto:"@ + plain_email(address))],
                        None => Seq::empty(),
                    }
                )
            &&& said(last, PROV@ + "wasAttributedTo"@) == said(first, PROV@ + "wasAttributedTo"@)
                + (
                    match person_iri(address) {
                        Some(person) => seq![to_iri(src, person)],
                        None => Seq::empty(),
                    }
                )
            &&& said(last, pkg("dqCollector"@)) == said(first, pkg("dqCollector"@))
                + (
                    match person_iri(address) {
                        Some(person) => where_so(
                            address != plain_email(address),
                            seq![
                                to_text(
                                    issue_iri(
                                        ("spec-changelog"@),
                                        ("obfuscated-email"@),
                                        address,
                                        ("email-normalized"@),
                                    ),
                                    ("spec-changelog"@),
                                ),
                            ],
                        ),
                        None => Seq::empty(),
                    }
                )
                + (
                    match person_iri(address) {
                        Some(person) => Seq::empty(),
                        None => seq![
                            to_text(
                                issue_iri(
                                    ("spec-changelog"@),
                                    ("invalid-email"@),
                                    address,
                                    ("email-unparseable"@),
                                ),
                                ("spec-changelog"@),
                            ),
                        ],
                    }
                )
            &&& said(last, pkg("dqField"@)) == said(first, pkg("dqField"@))
                + (
                    match person_iri(address) {
                        Some(person) => where_so(
                            address != plain_email(address),
                            seq![
                                to_text(
                                    issue_iri(
                                        ("spec-changelog"@),
                                        ("obfuscated-email"@),
                                        address,
                                        ("email-normalized"@),
                                    ),
                                    ("obfuscated-email"@),
                                ),
                            ],
                        ),
                        None => Seq::empty(),
                    }
                )
                + (
                    match person_iri(address) {
                        Some(person) => Seq::empty(),
                        None => seq![
                            to_text(
                                issue_iri(
                                    ("spec-changelog"@),
                                    ("invalid-email"@),
                                    address,
                                    ("email-unparseable"@),
                                ),
                                ("invalid-email"@),
                            ),
                        ],
                    }
                )
            &&& said(last, pkg("dqValue"@)) == said(first, pkg("dqValue"@))
                + (
                    match person_iri(address) {
                        Some(person) => where_so(
                            address != plain_email(address),
                            seq![
                                to_text(
                                    issue_iri(
                                        ("spec-changelog"@),
                                        ("obfuscated-email"@),
                                        address,
                                        ("email-normalized"@),
                                    ),
                                    address,
                                ),
                            ],
                        ),
                        None => Seq::empty(),
                    }
                )
                + (
                    match person_iri(address) {
                        Some(person) => Seq::empty(),
                        None => seq![
                            to_text(
                                issue_iri(
                                    ("spec-changelog"@),
                                    ("invalid-email"@),
                                    address,
                                    ("email-unparseable"@),
                                ),
                                address,
                            ),
                        ],
                    }
                )
            &&& said(last, pkg("dqIssueType"@)) == said(first, pkg("dqIssueType"@))
                + (
                    match person_iri(address) {
                        Some(person) => where_so(
                            address != plain_email(address),
                            seq![
                                to_text(
                                    issue_iri(
                                        ("spec-changelog"@),
                                        ("obfuscated-email"@),
                                        address,
                                        ("email-normalized"@),
                                    ),
                                    ("email-normalized"@),
                                ),
                            ],
                        ),
                        None => Seq::empty(),
                    }
                )
                + (
                    match person_iri(address) {
                        Some(person) => Seq::empty(),
                        None => seq![
                            to_text(
                                issue_iri(
                                    ("spec-changelog"@),
                                    ("invalid-email"@),
                                    address,
                                    ("email-unparseable"@),
                                ),
                                ("email-unparseable"@),
                            ),
                        ],
                    }
                )
            &&& said(last, pkg("dqSeverity"@)) == said(first, pkg("dqSeverity"@))
                + (
                    match person_iri(address) {
                        Some(person) => where_so(
                            address != plain_email(address),
                            seq![
                                to_text(
                                    issue_iri(
                                        ("spec-changelog"@),
                                        ("obfuscated-email"@),
                                        address,
                                        ("email-normalized"@),
                                    ),
                                    ("info"@),
                                ),
                            ],
                        ),
                        None => Seq::empty(),
                    }
                )
                + (
                    match person_iri(address) {
                        Some(person) => Seq::empty(),
                        None => seq![
                            to_text(
                                issue_iri(
                                    ("spec-changelog"@),
                                    ("invalid-email"@),
                                    address,
                                    ("email-unparseable"@),
                                ),
                                ("warning"@),
                            ),
                        ],
                    }
                )
            &&& forall|q: Seq<char>|
                q != RDF_TYPE@
                    && q != FOAF@ + "name"@
                    && q != FOAF@ + "mbox"@
                    && q != PROV@ + "wasAttributedTo"@
                    && q != pkg("dqCollector"@)
                    && q != pkg("dqField"@)
                    && q != pkg("dqValue"@)
                    && q != pkg("dqIssueType"@)
                    && q != pkg("dqSeverity"@)
                    ==> #[trigger] said(last, q) == said(first, q)
        }),
{
    broadcast use {group_reading, group_foaf, group_prov};

    reveal(changelog_entry_step_1);
    reveal_strlit("name");
    reveal_strlit("mbox");
    reveal_strlit("wasAttributedTo");
    reveal_strlit("dqCollector");
    reveal_strlit("dqField");
    reveal_strlit("dqValue");
    reveal_strlit("dqIssueType");
    reveal_strlit("dqSeverity");
    match person_iri(address) {
        Some(person) => {
            let email = plain_email(address);
            if address != email {
                lemma_dq_issue_told(
                    link(
                        literal(
                            literal(
                                link(w, person, RDF_TYPE@, pkg("Person"@)),
                                person,
                                FOAF@ + "name"@,
                                name,
                            ),
                            person,
                            FOAF@ + "mbox"@,
                            "mailto:"@ + email,
                        ),
                        src,
                        PROV@ + "wasAttributedTo"@,
                        person,
                    ),
                    "spec-changelog"@,
                    "obfuscated-email"@,
                    address,
                    "email-normalized"@,
                    "info"@,
                );
            } else {
            }
        },
        None => {
            lemma_dq_issue_told(
                w,
                "spec-changelog"@,
                "invalid-email"@,
                address,
                "email-unparseable"@,
                "warning"@,
            );
        },
    }
}

/// What is said of an entry of a changelog: who the source is attributed to, where the
/// address is one, and each fault in the address.
pub open spec fn changelog_entry_told(
    first: Seq<Fact>,
    last: Seq<Fact>,
    src: Seq<char>,
    name: Seq<char>,
    address: Seq<char>,
) -> bool {
    &&& said(last, RDF_TYPE@) == said(first, RDF_TYPE@)
        + (
            match person_iri(address) {
                Some(person) => seq![to_iri(person, pkg("Person"@))],
                None => Seq::empty(),
            }
        )
        + (
            match person_iri(address) {
                Some(person) => where_so(
                    address != plain_email(address),
                    seq![
                        to_iri(
                            issue_iri(
                                ("spec-changelog"@),
                                ("obfuscated-email"@),
                                address,
                                ("email-normalized"@),
                            ),
                            pkg("DataQualityIssue"@),
                        ),
                    ],
                ),
                None => Seq::empty(),
            }
        )
        + (
            match person_iri(address) {
                Some(person) => Seq::empty(),
                None => seq![
                    to_iri(
                        issue_iri(
                            ("spec-changelog"@),
                            ("invalid-email"@),
                            address,
                            ("email-unparseable"@),
                        ),
                        pkg("DataQualityIssue"@),
                    ),
                ],
            }
        )
    &&& said(last, FOAF@ + "name"@) == said(first, FOAF@ + "name"@)
        + (
            match person_iri(address) {
                Some(person) => seq![to_text(person, name)],
                None => Seq::empty(),
            }
        )
    &&& said(last, FOAF@ + "mbox"@) == said(first, FOAF@ + "mbox"@)
        + (
            match person_iri(address) {
                Some(person) => seq![to_text(person, "mailto:"@ + plain_email(address))],
                None => Seq::empty(),
            }
        )
    &&& said(last, PROV@ + "wasAttributedTo"@) == said(first, PROV@ + "wasAttributedTo"@)
        + (
            match person_iri(address) {
                Some(person) => seq![to_iri(src, person)],
                None => Seq::empty(),
            }
        )
    &&& said(last, pkg("dqCollector"@)) == said(first, pkg("dqCollector"@))
        + (
            match person_iri(address) {
                Some(person) => where_so(
                    address != plain_email(address),
                    seq![
                        to_text(
                            issue_iri(
                                ("spec-changelog"@),
                                ("obfuscated-email"@),
                                address,
                                ("email-normalized"@),
                            ),
                            ("spec-changelog"@),
                        ),
                    ],
                ),
                None => Seq::empty(),
            }
        )
        + (
            match person_iri(address) {
                Some(person) => Seq::empty(),
                None => seq![
                    to_text(
                        issue_iri(
                            ("spec-changelog"@),
                            ("invalid-email"@),
                            address,
                            ("email-unparseable"@),
                        ),
                        ("spec-changelog"@),
                    ),
                ],
            }
        )
    &&& said(last, pkg("dqField"@)) == said(first, pkg("dqField"@))
        + (
            match person_iri(address) {
                Some(person) => where_so(
                    address != plain_email(address),
                    seq![
                        to_text(
                            issue_iri(
                                ("spec-changelog"@),
                                ("obfuscated-email"@),
                                address,
                                ("email-normalized"@),
                            ),
                            ("obfuscated-email"@),
                        ),
                    ],
                ),
                None => Seq::empty(),
            }
        )
        + (
            match person_iri(address) {
                Some(person) => Seq::empty(),
                None => seq![
                    to_text(
                        issue_iri(
                            ("spec-changelog"@),
                            ("invalid-email"@),
                            address,
                            ("email-unparseable"@),
                        ),
                        ("invalid-email"@),
                    ),
                ],
            }
        )
    &&& said(last, pkg("dqValue"@)) == said(first, pkg("dqValue"@))
        + (
            match person_iri(address) {
                Some(person) => where_so(
                    address != plain_email(address),
                    seq![
                        to_text(
                            issue_iri(
                                ("spec-changelog"@),
                                ("obfuscated-email"@),
                                address,
                                ("email-normalized"@),
                            ),
                            address,
                        ),
                    ],
                ),
                None => Seq::empty(),
            }
        )
        + (
            match person_iri(address) {
                Some(person) => Seq::empty(),
                None => seq![
                    to_text(
                        issue_iri(
                            ("spec-changelog"@),
                            ("invalid-email"@),
                            address,
                            ("email-unparseable"@),
                        ),
                        address,
                    ),
                ],
            }
        )
    &&& said(last, pkg("dqIssueType"@)) == said(first, pkg("dqIssueType"@))
        + (
            match person_iri(address) {
                Some(person) => where_so(
                    address != plain_email(address),
                    seq![
                        to_text(
                            issue_iri(
                                ("spec-changelog"@),
                                ("obfuscated-email"@),
                                address,
                                ("email-normalized"@),
                            ),
                            ("email-normalized"@),
                        ),
                    ],
                ),
                None => Seq::empty(),
            }
        )
        + (
            match person_iri(address) {
                Some(person) => Seq::empty(),
                None => seq![
                    to_text(
                        issue_iri(
                            ("spec-changelog"@),
                            ("invalid-email"@),
                            address,
                            ("email-unparseable"@),
                        ),
                        ("email-unparseable"@),
                    ),
                ],
            }
        )
    &&& said(last, pkg("dqSeverity"@)) == said(first, pkg("dqSeverity"@))
        + (
            match person_iri(address) {
                Some(person) => where_so(
                    address != plain_email(address),
                    seq![
                        to_text(
                            issue_iri(
                                ("spec-changelog"@),
                                ("obfuscated-email"@),
                                address,
                                ("email-normalized"@),
                            ),
                            ("info"@),
                        ),
                    ],
                ),
                None => Seq::empty(),
            }
        )
        + (
            match person_iri(address) {
                Some(person) => Seq::empty(),
                None => seq![
                    to_text(
                        issue_iri(
                            ("spec-changelog"@),
                            ("invalid-email"@),
                            address,
                            ("email-unparseable"@),
                        ),
                        ("warning"@),
                    ),
                ],
            }
        )
    &&& forall|q: Seq<char>|
        q != RDF_TYPE@
            && q != FOAF@ + "name"@
            && q != FOAF@ + "mbox"@
            && q != PROV@ + "wasAttributedTo"@
            && q != pkg("dqCollector"@)
            && q != pkg("dqField"@)
            && q != pkg("dqValue"@)
            && q != pkg("dqIssueType"@)
            && q != pkg("dqSeverity"@)
            ==> #[trigger] said(last, q) == said(first, q)
}

proof fn lemma_changelog_entry_in_steps(
    w: Sheet,
    src: Seq<char>,
    name: Seq<char>,
    address: Seq<char>,
)
    ensures
        with_changelog_entry(w, src, name, address) == ({
            let w = changelog_entry_step_1(w, src, name, address);
            w
        }),
{
    reveal(changelog_entry_step_1);
}

proof fn lemma_changelog_entry_steps(w: Sheet, src: Seq<char>, name: Seq<char>, address: Seq<char>)
    ensures
        changelog_entry_told(w.log, ({
            let w = changelog_entry_step_1(w, src, name, address);
            w
        }).log, src, name, address),
{
    broadcast use {group_writes, group_foaf, group_prov};

    reveal_strlit("name");
    reveal_strlit("mbox");
    reveal_strlit("wasAttributedTo");
    reveal_strlit("dqCollector");
    reveal_strlit("dqField");
    reveal_strlit("dqValue");
    reveal_strlit("dqIssueType");
    reveal_strlit("dqSeverity");
    let w1 = changelog_entry_step_1(w, src, name, address);
    lemma_changelog_entry_step_1(w, src, name, address);
}

/// What [`with_changelog_entry`] writes says what [`changelog_entry_told`] states.
pub proof fn lemma_changelog_entry_told(
    w: Sheet,
    src: Seq<char>,
    name: Seq<char>,
    address: Seq<char>,
)
    ensures
        changelog_entry_told(
            w.log,
            with_changelog_entry(w, src, name, address).log,
            src,
            name,
            address,
        ),
{
    lemma_changelog_entry_in_steps(w, src, name, address);
    lemma_changelog_entry_steps(w, src, name, address);
}

/// What is said of what a source requires to be built, each package once.
pub open spec fn requirement_rows(
    c: SpecCollector,
    src: Seq<char>,
    names: Seq<Seq<char>>,
    n: nat,
) -> Seq<(Term, Term)>
    decreases n,
{
    if n == 0 {
        Seq::empty()
    } else {
        requirement_rows(c, src, names, (n - 1) as nat) + where_so(
            !names.take(n - 1).contains(names[n - 1]),
            seq![to_iri(src, identity_iri(c.distro@, c.release@, "noarch"@, names[n - 1]))],
        )
    }
}

proof fn lemma_requirements_told(
    w: Sheet,
    c: SpecCollector,
    src: Seq<char>,
    names: Seq<Seq<char>>,
    n: nat,
)
    ensures
        ({
            let first = w.log;
            let last = with_requirements(w, c, src, names, n).log;
            &&& said(last, pkg("buildDependsOn"@)) == said(first, pkg("buildDependsOn"@))
                + requirement_rows(c, src, names, n)
            &&& forall|q: Seq<char>|
                q != pkg("buildDependsOn"@) ==> #[trigger] said(last, q) == said(first, q)
        }),
    decreases n,
{
    broadcast use group_writes;

    if n > 0 {
        lemma_requirements_told(w, c, src, names, (n - 1) as nat);
    }
}

proof fn lemma_buildrequires_told(
    w: Sheet,
    c: SpecCollector,
    spec: SpecText,
    source_name: Seq<char>,
)
    ensures
        ({
            let first = w.log;
            let last = with_buildrequires(w, c, spec, source_name).log;
            let src = source_iri(c.distro@, c.release@, source_name, version_or_unknown(spec));
            let names = all_requirements(spec.build_requires, spec.build_requires.len());
            &&& said(last, pkg("buildDependsOn"@)) == said(first, pkg("buildDependsOn"@))
                + requirement_rows(c, src, names, (names.len()))
            &&& forall|q: Seq<char>|
                q != pkg("buildDependsOn"@) ==> #[trigger] said(last, q) == said(first, q)
        }),
{
    broadcast use group_reading;

    reveal_strlit("buildDependsOn");
    let src = source_iri(c.distro@, c.release@, source_name, version_or_unknown(spec));
    let names = all_requirements(spec.build_requires, spec.build_requires.len());
    lemma_requirements_told(w, c, src, names, names.len());
}

proof fn lemma_changelog_told(w: Sheet, c: SpecCollector, spec: SpecText, source_name: Seq<char>)
    ensures
        ({
            let first = w.log;
            let last = with_changelog(w, c, spec, source_name).log;
            let src = source_iri(c.distro@, c.release@, source_name, version_or_unknown(spec));
            &&& said(last, RDF_TYPE@) == said(first, RDF_TYPE@)
                + where_so(
                    spec.changelog_entries.len() > 0,
                    (
                        match person_iri((spec.changelog_entries[0].email)) {
                            Some(person) => seq![to_iri(person, pkg("Person"@))],
                            None => Seq::empty(),
                        }
                    ),
                )
                + where_so(
                    spec.changelog_entries.len() > 0,
                    (
                        match person_iri((spec.changelog_entries[0].email)) {
                            Some(person) => where_so(
                                (spec.changelog_entries[0].email) != plain_email(
                                    (spec.changelog_entries[0].email),
                                ),
                                seq![
                                    to_iri(
                                        issue_iri(
                                            ("spec-changelog"@),
                                            ("obfuscated-email"@),
                                            (spec.changelog_entries[0].email),
                                            ("email-normalized"@),
                                        ),
                                        pkg("DataQualityIssue"@),
                                    ),
                                ],
                            ),
                            None => Seq::empty(),
                        }
                    ),
                )
                + where_so(
                    spec.changelog_entries.len() > 0,
                    (
                        match person_iri((spec.changelog_entries[0].email)) {
                            Some(person) => Seq::empty(),
                            None => seq![
                                to_iri(
                                    issue_iri(
                                        ("spec-changelog"@),
                                        ("invalid-email"@),
                                        (spec.changelog_entries[0].email),
                                        ("email-unparseable"@),
                                    ),
                                    pkg("DataQualityIssue"@),
                                ),
                            ],
                        }
                    ),
                )
            &&& said(last, FOAF@ + "name"@) == said(first, FOAF@ + "name"@)
                + where_so(
                    spec.changelog_entries.len() > 0,
                    (
                        match person_iri((spec.changelog_entries[0].email)) {
                            Some(person) => seq![to_text(person, (spec.changelog_entries[0].name))],
                            None => Seq::empty(),
                        }
                    ),
                )
            &&& said(last, FOAF@ + "mbox"@) == said(first, FOAF@ + "mbox"@)
                + where_so(
                    spec.changelog_entries.len() > 0,
                    (
                        match person_iri((spec.changelog_entries[0].email)) {
                            Some(person) => seq![
                                to_text(
                                    person,
                                    "mailto:"@ + plain_email((spec.changelog_entries[0].email)),
                                ),
                            ],
                            None => Seq::empty(),
                        }
                    ),
                )
            &&& said(last, PROV@ + "wasAttributedTo"@) == said(first, PROV@ + "wasAttributedTo"@)
                + where_so(
                    spec.changelog_entries.len() > 0,
                    (
                        match person_iri((spec.changelog_entries[0].email)) {
                            Some(person) => seq![to_iri(src, person)],
                            None => Seq::empty(),
                        }
                    ),
                )
            &&& said(last, pkg("dqCollector"@)) == said(first, pkg("dqCollector"@))
                + where_so(
                    spec.changelog_entries.len() > 0,
                    (
                        match person_iri((spec.changelog_entries[0].email)) {
                            Some(person) => where_so(
                                (spec.changelog_entries[0].email) != plain_email(
                                    (spec.changelog_entries[0].email),
                                ),
                                seq![
                                    to_text(
                                        issue_iri(
                                            ("spec-changelog"@),
                                            ("obfuscated-email"@),
                                            (spec.changelog_entries[0].email),
                                            ("email-normalized"@),
                                        ),
                                        ("spec-changelog"@),
                                    ),
                                ],
                            ),
                            None => Seq::empty(),
                        }
                    ),
                )
                + where_so(
                    spec.changelog_entries.len() > 0,
                    (
                        match person_iri((spec.changelog_entries[0].email)) {
                            Some(person) => Seq::empty(),
                            None => seq![
                                to_text(
                                    issue_iri(
                                        ("spec-changelog"@),
                                        ("invalid-email"@),
                                        (spec.changelog_entries[0].email),
                                        ("email-unparseable"@),
                                    ),
                                    ("spec-changelog"@),
                                ),
                            ],
                        }
                    ),
                )
            &&& said(last, pkg("dqField"@)) == said(first, pkg("dqField"@))
                + where_so(
                    spec.changelog_entries.len() > 0,
                    (
                        match person_iri((spec.changelog_entries[0].email)) {
                            Some(person) => where_so(
                                (spec.changelog_entries[0].email) != plain_email(
                                    (spec.changelog_entries[0].email),
                                ),
                                seq![
                                    to_text(
                                        issue_iri(
                                            ("spec-changelog"@),
                                            ("obfuscated-email"@),
                                            (spec.changelog_entries[0].email),
                                            ("email-normalized"@),
                                        ),
                                        ("obfuscated-email"@),
                                    ),
                                ],
                            ),
                            None => Seq::empty(),
                        }
                    ),
                )
                + where_so(
                    spec.changelog_entries.len() > 0,
                    (
                        match person_iri((spec.changelog_entries[0].email)) {
                            Some(person) => Seq::empty(),
                            None => seq![
                                to_text(
                                    issue_iri(
                                        ("spec-changelog"@),
                                        ("invalid-email"@),
                                        (spec.changelog_entries[0].email),
                                        ("email-unparseable"@),
                                    ),
                                    ("invalid-email"@),
                                ),
                            ],
                        }
                    ),
                )
            &&& said(last, pkg("dqValue"@)) == said(first, pkg("dqValue"@))
                + where_so(
                    spec.changelog_entries.len() > 0,
                    (
                        match person_iri((spec.changelog_entries[0].email)) {
                            Some(person) => where_so(
                                (spec.changelog_entries[0].email) != plain_email(
                                    (spec.changelog_entries[0].email),
                                ),
                                seq![
                                    to_text(
                                        issue_iri(
                                            ("spec-changelog"@),
                                            ("obfuscated-email"@),
                                            (spec.changelog_entries[0].email),
                                            ("email-normalized"@),
                                        ),
                                        (spec.changelog_entries[0].email),
                                    ),
                                ],
                            ),
                            None => Seq::empty(),
                        }
                    ),
                )
                + where_so(
                    spec.changelog_entries.len() > 0,
                    (
                        match person_iri((spec.changelog_entries[0].email)) {
                            Some(person) => Seq::empty(),
                            None => seq![
                                to_text(
                                    issue_iri(
                                        ("spec-changelog"@),
                                        ("invalid-email"@),
                                        (spec.changelog_entries[0].email),
                                        ("email-unparseable"@),
                                    ),
                                    (spec.changelog_entries[0].email),
                                ),
                            ],
                        }
                    ),
                )
            &&& said(last, pkg("dqIssueType"@)) == said(first, pkg("dqIssueType"@))
                + where_so(
                    spec.changelog_entries.len() > 0,
                    (
                        match person_iri((spec.changelog_entries[0].email)) {
                            Some(person) => where_so(
                                (spec.changelog_entries[0].email) != plain_email(
                                    (spec.changelog_entries[0].email),
                                ),
                                seq![
                                    to_text(
                                        issue_iri(
                                            ("spec-changelog"@),
                                            ("obfuscated-email"@),
                                            (spec.changelog_entries[0].email),
                                            ("email-normalized"@),
                                        ),
                                        ("email-normalized"@),
                                    ),
                                ],
                            ),
                            None => Seq::empty(),
                        }
                    ),
                )
                + where_so(
                    spec.changelog_entries.len() > 0,
                    (
                        match person_iri((spec.changelog_entries[0].email)) {
                            Some(person) => Seq::empty(),
                            None => seq![
                                to_text(
                                    issue_iri(
                                        ("spec-changelog"@),
                                        ("invalid-email"@),
                                        (spec.changelog_entries[0].email),
                                        ("email-unparseable"@),
                                    ),
                                    ("email-unparseable"@),
                                ),
                            ],
                        }
                    ),
                )
            &&& said(last, pkg("dqSeverity"@)) == said(first, pkg("dqSeverity"@))
                + where_so(
                    spec.changelog_entries.len() > 0,
                    (
                        match person_iri((spec.changelog_entries[0].email)) {
                            Some(person) => where_so(
                                (spec.changelog_entries[0].email) != plain_email(
                                    (spec.changelog_entries[0].email),
                                ),
                                seq![
                                    to_text(
                                        issue_iri(
                                            ("spec-changelog"@),
                                            ("obfuscated-email"@),
                                            (spec.changelog_entries[0].email),
                                            ("email-normalized"@),
                                        ),
                                        ("info"@),
                                    ),
                                ],
                            ),
                            None => Seq::empty(),
                        }
                    ),
                )
                + where_so(
                    spec.changelog_entries.len() > 0,
                    (
                        match person_iri((spec.changelog_entries[0].email)) {
                            Some(person) => Seq::empty(),
                            None => seq![
                                to_text(
                                    issue_iri(
                                        ("spec-changelog"@),
                                        ("invalid-email"@),
                                        (spec.changelog_entries[0].email),
                                        ("email-unparseable"@),
                                    ),
                                    ("warning"@),
                                ),
                            ],
                        }
                    ),
                )
            &&& forall|q: Seq<char>|
                q != RDF_TYPE@
                    && q != FOAF@ + "name"@
                    && q != FOAF@ + "mbox"@
                    && q != PROV@ + "wasAttributedTo"@
                    && q != pkg("dqCollector"@)
                    && q != pkg("dqField"@)
                    && q != pkg("dqValue"@)
                    && q != pkg("dqIssueType"@)
                    && q != pkg("dqSeverity"@)
                    ==> #[trigger] said(last, q) == said(first, q)
        }),
{
    broadcast use {group_reading, group_foaf, group_prov};

    reveal_strlit("name");
    reveal_strlit("mbox");
    reveal_strlit("wasAttributedTo");
    reveal_strlit("dqCollector");
    reveal_strlit("dqField");
    reveal_strlit("dqValue");
    reveal_strlit("dqIssueType");
    reveal_strlit("dqSeverity");
    let src = source_iri(c.distro@, c.release@, source_name, version_or_unknown(spec));
    if spec.changelog_entries.len() > 0 {
        lemma_changelog_entry_told(
            w,
            src,
            spec.changelog_entries[0].name,
            spec.changelog_entries[0].email,
        );
    } else {
    }
}

proof fn lemma_ecosystem_told(
    w: Sheet,
    spec: SpecText,
    source_name: Seq<char>,
    identities: Seq<Seq<char>>,
)
    ensures
        ({
            let first = w.log;
            let last = with_ecosystem(w, spec, source_name, identities).log;
            &&& said(last, RDF_TYPE@) == said(first, RDF_TYPE@)
                + (
                    match by_spec(spec, source_name) {
                        Some(d) => seq![
                            to_iri((DATA@ + "ecosystem/"@ + d.ecosystem), pkg("Ecosystem"@)),
                        ],
                        None => Seq::empty(),
                    }
                )
                + (
                    match by_spec(spec, source_name) {
                        Some(d) => seq![
                            to_iri(
                                issue_iri(
                                    ("collect-spec"@),
                                    ("ecosystem-detection"@),
                                    (d.ecosystem + ":"@ + source_name + " via "@ + d.method),
                                    ("ecosystem-detected-"@ + confidence(d.method)),
                                ),
                                pkg("DataQualityIssue"@),
                            ),
                        ],
                        None => Seq::empty(),
                    }
                )
            &&& said(last, RDFS_LABEL@) == said(first, RDFS_LABEL@)
                + (
                    match by_spec(spec, source_name) {
                        Some(d) => seq![
                            to_text((DATA@ + "ecosystem/"@ + d.ecosystem), d.ecosystem),
                        ],
                        None => Seq::empty(),
                    }
                )
            &&& said(last, pkg("upstreamEcosystem"@)) == said(first, pkg("upstreamEcosystem"@))
                + (
                    match by_spec(spec, source_name) {
                        Some(d) => in_turn(
                            |k: int|
                                seq![to_iri((identities[k]), (DATA@ + "ecosystem/"@ + d.ecosystem))],
                            (identities.len()),
                        ),
                        None => Seq::empty(),
                    }
                )
            &&& said(last, pkg("upstreamPackageName"@)) == said(first, pkg("upstreamPackageName"@))
                + (
                    match by_spec(spec, source_name) {
                        Some(d) => in_turn(
                            |k: int| text_if((identities[k]), d.package_name),
                            (identities.len()),
                        ),
                        None => Seq::empty(),
                    }
                )
            &&& said(last, pkg("dqCollector"@)) == said(first, pkg("dqCollector"@))
                + (
                    match by_spec(spec, source_name) {
                        Some(d) => seq![
                            to_text(
                                issue_iri(
                                    ("collect-spec"@),
                                    ("ecosystem-detection"@),
                                    (d.ecosystem + ":"@ + source_name + " via "@ + d.method),
                                    ("ecosystem-detected-"@ + confidence(d.method)),
                                ),
                                ("collect-spec"@),
                            ),
                        ],
                        None => Seq::empty(),
                    }
                )
            &&& said(last, pkg("dqField"@)) == said(first, pkg("dqField"@))
                + (
                    match by_spec(spec, source_name) {
                        Some(d) => seq![
                            to_text(
                                issue_iri(
                                    ("collect-spec"@),
                                    ("ecosystem-detection"@),
                                    (d.ecosystem + ":"@ + source_name + " via "@ + d.method),
                                    ("ecosystem-detected-"@ + confidence(d.method)),
                                ),
                                ("ecosystem-detection"@),
                            ),
                        ],
                        None => Seq::empty(),
                    }
                )
            &&& said(last, pkg("dqValue"@)) == said(first, pkg("dqValue"@))
                + (
                    match by_spec(spec, source_name) {
                        Some(d) => seq![
                            to_text(
                                issue_iri(
                                    ("collect-spec"@),
                                    ("ecosystem-detection"@),
                                    (d.ecosystem + ":"@ + source_name + " via "@ + d.method),
                                    ("ecosystem-detected-"@ + confidence(d.method)),
                                ),
                                (d.ecosystem + ":"@ + source_name + " via "@ + d.method),
                            ),
                        ],
                        None => Seq::empty(),
                    }
                )
            &&& said(last, pkg("dqIssueType"@)) == said(first, pkg("dqIssueType"@))
                + (
                    match by_spec(spec, source_name) {
                        Some(d) => seq![
                            to_text(
                                issue_iri(
                                    ("collect-spec"@),
                                    ("ecosystem-detection"@),
                                    (d.ecosystem + ":"@ + source_name + " via "@ + d.method),
                                    ("ecosystem-detected-"@ + confidence(d.method)),
                                ),
                                ("ecosystem-detected-"@ + confidence(d.method)),
                            ),
                        ],
                        None => Seq::empty(),
                    }
                )
            &&& said(last, pkg("dqSeverity"@)) == said(first, pkg("dqSeverity"@))
                + (
                    match by_spec(spec, source_name) {
                        Some(d) => seq![
                            to_text(
                                issue_iri(
                                    ("collect-spec"@),
                                    ("ecosystem-detection"@),
                                    (d.ecosystem + ":"@ + source_name + " via "@ + d.method),
                                    ("ecosystem-detected-"@ + confidence(d.method)),
                                ),
                                ("info"@),
                            ),
                        ],
                        None => Seq::empty(),
                    }
                )
            &&& forall|q: Seq<char>|
                q != RDF_TYPE@
                    && q != RDFS_LABEL@
                    && q != pkg("upstreamEcosystem"@)
                    && q != pkg("upstreamPackageName"@)
                    && q != pkg("dqCollector"@)
                    && q != pkg("dqField"@)
                    && q != pkg("dqValue"@)
                    && q != pkg("dqIssueType"@)
                    && q != pkg("dqSeverity"@)
                    ==> #[trigger] said(last, q) == said(first, q)
        }),
{
    broadcast use group_reading;

    reveal_strlit("upstreamEcosystem");
    reveal_strlit("upstreamPackageName");
    reveal_strlit("dqCollector");
    reveal_strlit("dqField");
    reveal_strlit("dqValue");
    reveal_strlit("dqIssueType");
    reveal_strlit("dqSeverity");
    match by_spec(spec, source_name) {
        Some(d) => {
            lemma_detection_told(w, d.ecosystem, d.package_name, d.method, source_name, identities);
        },
        None => {
        },
    }
}

#[verifier::opaque]
spec fn spec_step_1(
    w: Sheet,
    spec: SpecText,
    source_name: Seq<char>,
    identities: Seq<Seq<char>>,
) -> Sheet {
    with_source0(w, spec, source_name, identities)
}

proof fn lemma_spec_step_1(
    w: Sheet,
    spec: SpecText,
    source_name: Seq<char>,
    identities: Seq<Seq<char>>,
)
    ensures
        ({
            let first = w.log;
            let last = spec_step_1(w, spec, source_name, identities).log;
            &&& said(last, pkg("upstreamRepository"@)) == said(first, pkg("upstreamRepository"@))
                + (
                    match spec.source0_url {
                        Some(source0) => (
                            match forge_url(expanded(source0, spec)) {
                                Some(repo_url) => in_turn(
                                    |k: int| seq![to_iri((identities[k]), repo_iri(repo_url))],
                                    (identities.len()),
                                ),
                                None => Seq::empty(),
                            }
                        ),
                        None => Seq::empty(),
                    }
                )
            &&& said(last, pkg("upstreamEcosystem"@)) == said(first, pkg("upstreamEcosystem"@))
            &&& said(last, pkg("upstreamPackageName"@)) == said(first, pkg("upstreamPackageName"@))
            &&& said(last, RPM@ + "hasSpecSource"@) == said(first, RPM@ + "hasSpecSource"@)
            &&& said(last, RPM@ + "hasPatch"@) == said(first, RPM@ + "hasPatch"@)
            &&& said(last, pkg("derivedFromCommit"@)) == said(first, pkg("derivedFromCommit"@))
            &&& said(last, pkg("buildDependsOn"@)) == said(first, pkg("buildDependsOn"@))
            &&& said(last, PROV@ + "wasAttributedTo"@) == said(first, PROV@ + "wasAttributedTo"@)
        }),
{
    broadcast use {group_reading, group_prov, group_rpm, group_vcs};

    reveal(spec_step_1);
    reveal_strlit("dqCollector");
    reveal_strlit("dqField");
    reveal_strlit("dqValue");
    reveal_strlit("dqIssueType");
    reveal_strlit("dqSeverity");
    reveal_strlit("upstreamRepository");
    reveal_strlit("hostedOn");
    reveal_strlit("forgeUrl");
    reveal_strlit("forgeSoftware");
    reveal_strlit("upstreamEcosystem");
    reveal_strlit("upstreamPackageName");
    reveal_strlit("hasSpecSource");
    reveal_strlit("hasPatch");
    reveal_strlit("derivedFromCommit");
    reveal_strlit("buildDependsOn");
    reveal_strlit("wasAttributedTo");
    lemma_source0_told(w, spec, source_name, identities);
}

#[verifier::opaque]
spec fn spec_step_2(w: Sheet, spec: SpecText, src: Seq<char>) -> Sheet {
    with_each_spec_source(w, src, spec.all_sources, spec.all_sources.len())
}

proof fn lemma_spec_step_2(w: Sheet, spec: SpecText, src: Seq<char>)
    ensures
        ({
            let first = w.log;
            let last = spec_step_2(w, spec, src).log;
            &&& said(last, pkg("upstreamRepository"@)) == said(first, pkg("upstreamRepository"@))
            &&& said(last, pkg("upstreamEcosystem"@)) == said(first, pkg("upstreamEcosystem"@))
            &&& said(last, pkg("upstreamPackageName"@)) == said(first, pkg("upstreamPackageName"@))
            &&& said(last, RPM@ + "hasSpecSource"@) == said(first, RPM@ + "hasSpecSource"@)
                + in_turn(
                    |k: int| seq![to_text(src, (spec.all_sources[k]))],
                    (spec.all_sources.len()),
                )
            &&& said(last, RPM@ + "hasPatch"@) == said(first, RPM@ + "hasPatch"@)
            &&& said(last, pkg("derivedFromCommit"@)) == said(first, pkg("derivedFromCommit"@))
            &&& said(last, pkg("buildDependsOn"@)) == said(first, pkg("buildDependsOn"@))
            &&& said(last, PROV@ + "wasAttributedTo"@) == said(first, PROV@ + "wasAttributedTo"@)
        }),
{
    broadcast use {group_reading, group_prov, group_rpm};

    reveal(spec_step_2);
    reveal_strlit("hasSpecSource");
    reveal_strlit("upstreamRepository");
    reveal_strlit("upstreamEcosystem");
    reveal_strlit("upstreamPackageName");
    reveal_strlit("hasPatch");
    reveal_strlit("derivedFromCommit");
    reveal_strlit("buildDependsOn");
    reveal_strlit("wasAttributedTo");
    lemma_each_spec_source_told(w, src, spec.all_sources, spec.all_sources.len());
}

#[verifier::opaque]
spec fn spec_step_3(
    w: Sheet,
    c: SpecCollector,
    spec: SpecText,
    source_name: Seq<char>,
    src: Seq<char>,
) -> Sheet {
    with_each_patch(w, c, src, source_name, spec.patches, spec.patches.len())
}

proof fn lemma_spec_step_3(
    w: Sheet,
    c: SpecCollector,
    spec: SpecText,
    source_name: Seq<char>,
    src: Seq<char>,
)
    ensures
        ({
            let first = w.log;
            let last = spec_step_3(w, c, spec, source_name, src).log;
            &&& said(last, pkg("upstreamRepository"@)) == said(first, pkg("upstreamRepository"@))
            &&& said(last, pkg("upstreamEcosystem"@)) == said(first, pkg("upstreamEcosystem"@))
            &&& said(last, pkg("upstreamPackageName"@)) == said(first, pkg("upstreamPackageName"@))
            &&& said(last, RPM@ + "hasSpecSource"@) == said(first, RPM@ + "hasSpecSource"@)
            &&& said(last, RPM@ + "hasPatch"@) == said(first, RPM@ + "hasPatch"@)
                + in_turn(
                    |k: int|
                        seq![
                            to_iri(
                                src,
                                patch_iri(
                                    c,
                                    source_name,
                                    ((k) as usize),
                                    last_segment((spec.patches[k])),
                                ),
                            ),
                        ],
                    (spec.patches.len()),
                )
            &&& said(last, pkg("derivedFromCommit"@)) == said(first, pkg("derivedFromCommit"@))
            &&& said(last, pkg("buildDependsOn"@)) == said(first, pkg("buildDependsOn"@))
            &&& said(last, PROV@ + "wasAttributedTo"@) == said(first, PROV@ + "wasAttributedTo"@)
        }),
{
    broadcast use {group_reading, group_prov, group_rpm};

    reveal(spec_step_3);
    reveal_strlit("patchName");
    reveal_strlit("hasPatch");
    reveal_strlit("upstreamRepository");
    reveal_strlit("upstreamEcosystem");
    reveal_strlit("upstreamPackageName");
    reveal_strlit("hasSpecSource");
    reveal_strlit("derivedFromCommit");
    reveal_strlit("buildDependsOn");
    reveal_strlit("wasAttributedTo");
    lemma_each_patch_told(w, c, src, source_name, spec.patches, spec.patches.len());
}

#[verifier::opaque]
spec fn spec_step_4(w: Sheet, spec: SpecText, src: Seq<char>) -> Sheet {
    match spec.commit_hash { Some(commit) => { with_commit(w, src, commit) }, None => w, }
}

proof fn lemma_spec_step_4(w: Sheet, spec: SpecText, src: Seq<char>)
    ensures
        ({
            let first = w.log;
            let last = spec_step_4(w, spec, src).log;
            &&& said(last, pkg("upstreamRepository"@)) == said(first, pkg("upstreamRepository"@))
            &&& said(last, pkg("upstreamEcosystem"@)) == said(first, pkg("upstreamEcosystem"@))
            &&& said(last, pkg("upstreamPackageName"@)) == said(first, pkg("upstreamPackageName"@))
            &&& said(last, RPM@ + "hasSpecSource"@) == said(first, RPM@ + "hasSpecSource"@)
            &&& said(last, RPM@ + "hasPatch"@) == said(first, RPM@ + "hasPatch"@)
            &&& said(last, pkg("derivedFromCommit"@)) == said(first, pkg("derivedFromCommit"@))
                + (
                    match spec.commit_hash {
                        Some(commit) => seq![to_iri(src, (DATA@ + "commit/"@ + commit))],
                        None => Seq::empty(),
                    }
                )
            &&& said(last, pkg("buildDependsOn"@)) == said(first, pkg("buildDependsOn"@))
            &&& said(last, PROV@ + "wasAttributedTo"@) == said(first, PROV@ + "wasAttributedTo"@)
        }),
{
    broadcast use {group_reading, group_prov, group_rpm, group_vcs};

    reveal(spec_step_4);
    reveal_strlit("commitHash");
    reveal_strlit("derivedFromCommit");
    reveal_strlit("upstreamRepository");
    reveal_strlit("upstreamEcosystem");
    reveal_strlit("upstreamPackageName");
    reveal_strlit("hasSpecSource");
    reveal_strlit("hasPatch");
    reveal_strlit("buildDependsOn");
    reveal_strlit("wasAttributedTo");
    match spec.commit_hash {
        Some(commit) => {
            lemma_commit_told(w, src, commit);
        },
        None => {
        },
    }
}

#[verifier::opaque]
spec fn spec_step_5(
    w: Sheet,
    spec: SpecText,
    source_name: Seq<char>,
    identities: Seq<Seq<char>>,
    in_existing_ecosystem: bool,
) -> Sheet {
    if !in_existing_ecosystem { with_ecosystem(w, spec, source_name, identities) } else { w }
}

proof fn lemma_spec_step_5(
    w: Sheet,
    spec: SpecText,
    source_name: Seq<char>,
    identities: Seq<Seq<char>>,
    in_existing_ecosystem: bool,
)
    ensures
        ({
            let first = w.log;
            let last = spec_step_5(w, spec, source_name, identities, in_existing_ecosystem).log;
            &&& said(last, pkg("upstreamRepository"@)) == said(first, pkg("upstreamRepository"@))
            &&& said(last, pkg("upstreamEcosystem"@)) == said(first, pkg("upstreamEcosystem"@))
                + where_so(
                    !in_existing_ecosystem,
                    (
                        match by_spec(spec, source_name) {
                            Some(d) => in_turn(
                                |k: int|
                                    seq![
                                        to_iri(
                                            (identities[k]),
                                            (DATA@ + "ecosystem/"@ + d.ecosystem),
                                        ),
                                    ],
                                (identities.len()),
                            ),
                            None => Seq::empty(),
                        }
                    ),
                )
            &&& said(last, pkg("upstreamPackageName"@)) == said(first, pkg("upstreamPackageName"@))
                + where_so(
                    !in_existing_ecosystem,
                    (
                        match by_spec(spec, source_name) {
                            Some(d) => in_turn(
                                |k: int| text_if((identities[k]), d.package_name),
                                (identities.len()),
                            ),
                            None => Seq::empty(),
                        }
                    ),
                )
            &&& said(last, RPM@ + "hasSpecSource"@) == said(first, RPM@ + "hasSpecSource"@)
            &&& said(last, RPM@ + "hasPatch"@) == said(first, RPM@ + "hasPatch"@)
            &&& said(last, pkg("derivedFromCommit"@)) == said(first, pkg("derivedFromCommit"@))
            &&& said(last, pkg("buildDependsOn"@)) == said(first, pkg("buildDependsOn"@))
            &&& said(last, PROV@ + "wasAttributedTo"@) == said(first, PROV@ + "wasAttributedTo"@)
        }),
{
    broadcast use {group_reading, group_prov, group_rpm};

    reveal(spec_step_5);
    reveal_strlit("upstreamEcosystem");
    reveal_strlit("upstreamPackageName");
    reveal_strlit("dqCollector");
    reveal_strlit("dqField");
    reveal_strlit("dqValue");
    reveal_strlit("dqIssueType");
    reveal_strlit("dqSeverity");
    reveal_strlit("upstreamRepository");
    reveal_strlit("hasSpecSource");
    reveal_strlit("hasPatch");
    reveal_strlit("derivedFromCommit");
    reveal_strlit("buildDependsOn");
    reveal_strlit("wasAttributedTo");
    if !in_existing_ecosystem {
        lemma_ecosystem_told(w, spec, source_name, identities);
    } else {
    }
}

#[verifier::opaque]
spec fn spec_step_6(
    w: Sheet,
    c: SpecCollector,
    spec: SpecText,
    source_name: Seq<char>,
    buildrequires: bool,
) -> Sheet {
    if buildrequires { with_buildrequires(w, c, spec, source_name) } else { w }
}

proof fn lemma_spec_step_6(
    w: Sheet,
    c: SpecCollector,
    spec: SpecText,
    source_name: Seq<char>,
    buildrequires: bool,
)
    ensures
        ({
            let first = w.log;
            let last = spec_step_6(w, c, spec, source_name, buildrequires).log;
            &&& said(last, pkg("upstreamRepository"@)) == said(first, pkg("upstreamRepository"@))
            &&& said(last, pkg("upstreamEcosystem"@)) == said(first, pkg("upstreamEcosystem"@))
            &&& said(last, pkg("upstreamPackageName"@)) == said(first, pkg("upstreamPackageName"@))
            &&& said(last, RPM@ + "hasSpecSource"@) == said(first, RPM@ + "hasSpecSource"@)
            &&& said(last, RPM@ + "hasPatch"@) == said(first, RPM@ + "hasPatch"@)
            &&& said(last, pkg("derivedFromCommit"@)) == said(first, pkg("derivedFromCommit"@))
            &&& said(last, pkg("buildDependsOn"@)) == said(first, pkg("buildDependsOn"@))
                + where_so(
                    buildrequires,
                    requirement_rows(
                        c,
                        source_iri(c.distro@, c.release@, source_name, version_or_unknown(spec)),
                        all_requirements(spec.build_requires, spec.build_requires.len()),
                        (all_requirements(spec.build_requires, spec.build_requires.len()).len()),
                    ),
                )
            &&& said(last, PROV@ + "wasAttributedTo"@) == said(first, PROV@ + "wasAttributedTo"@)
        }),
{
    broadcast use {group_reading, group_prov, group_rpm};

    reveal(spec_step_6);
    reveal_strlit("buildDependsOn");
    reveal_strlit("upstreamRepository");
    reveal_strlit("upstreamEcosystem");
    reveal_strlit("upstreamPackageName");
    reveal_strlit("hasSpecSource");
    reveal_strlit("hasPatch");
    reveal_strlit("derivedFromCommit");
    reveal_strlit("wasAttributedTo");
    if buildrequires {
        lemma_buildrequires_told(w, c, spec, source_name);
    } else {
    }
}

#[verifier::opaque]
spec fn spec_step_7(
    w: Sheet,
    c: SpecCollector,
    spec: SpecText,
    source_name: Seq<char>,
    maintainers: bool,
) -> Sheet {
    if maintainers { with_changelog(w, c, spec, source_name) } else { w }
}

proof fn lemma_spec_step_7(
    w: Sheet,
    c: SpecCollector,
    spec: SpecText,
    source_name: Seq<char>,
    maintainers: bool,
)
    ensures
        ({
            let first = w.log;
            let last = spec_step_7(w, c, spec, source_name, maintainers).log;
            &&& said(last, pkg("upstreamRepository"@)) == said(first, pkg("upstreamRepository"@))
            &&& said(last, pkg("upstreamEcosystem"@)) == said(first, pkg("upstreamEcosystem"@))
            &&& said(last, pkg("upstreamPackageName"@)) == said(first, pkg("upstreamPackageName"@))
            &&& said(last, RPM@ + "hasSpecSource"@) == said(first, RPM@ + "hasSpecSource"@)
            &&& said(last, RPM@ + "hasPatch"@) == said(first, RPM@ + "hasPatch"@)
            &&& said(last, pkg("derivedFromCommit"@)) == said(first, pkg("derivedFromCommit"@))
            &&& said(last, pkg("buildDependsOn"@)) == said(first, pkg("buildDependsOn"@))
            &&& said(last, PROV@ + "wasAttributedTo"@) == said(first, PROV@ + "wasAttributedTo"@)
                + where_so(
                    maintainers,
                    where_so(
                        spec.changelog_entries.len() > 0,
                        (
                            match person_iri((spec.changelog_entries[0].email)) {
                                Some(person) => seq![
                                    to_iri(
                                        source_iri(
                                            c.distro@,
                                            c.release@,
                                            source_name,
                                            version_or_unknown(spec),
                                        ),
                                        person,
                                    ),
                                ],
                                None => Seq::empty(),
                            }
                        ),
                    ),
                )
        }),
{
    broadcast use {group_reading, group_foaf, group_prov, group_rpm};

    reveal(spec_step_7);
    reveal_strlit("name");
    reveal_strlit("mbox");
    reveal_strlit("wasAttributedTo");
    reveal_strlit("dqCollector");
    reveal_strlit("dqField");
    reveal_strlit("dqValue");
    reveal_strlit("dqIssueType");
    reveal_strlit("dqSeverity");
    reveal_strlit("upstreamRepository");
    reveal_strlit("upstreamEcosystem");
    reveal_strlit("upstreamPackageName");
    reveal_strlit("hasSpecSource");
    reveal_strlit("hasPatch");
    reveal_strlit("derivedFromCommit");
    reveal_strlit("buildDependsOn");
    if maintainers {
        lemma_changelog_told(w, c, spec, source_name);
    } else {
    }
}

/// Everything that is said of a spec file: its first source, its sources, its patches and
/// its commit; the ecosystem, unless the source is of one already; and, where that is asked
/// for, what it requires to be built and who the latest change is by.
pub open spec fn spec_told(
    first: Seq<Fact>,
    last: Seq<Fact>,
    c: SpecCollector,
    spec: SpecText,
    source_name: Seq<char>,
    identities: Seq<Seq<char>>,
    in_existing_ecosystem: bool,
    buildrequires: bool,
    maintainers: bool,
) -> bool {
    let version = version_or_unknown(spec);
    let src = source_iri(c.distro@, c.release@, source_name, version);
    &&& said(last, pkg("upstreamRepository"@)) == said(first, pkg("upstreamRepository"@))
        + (
            match spec.source0_url {
                Some(source0) => (
                    match forge_url(expanded(source0, spec)) {
                        Some(repo_url) => in_turn(
                            |k: int| seq![to_iri((identities[k]), repo_iri(repo_url))],
                            (identities.len()),
                        ),
                        None => Seq::empty(),
                    }
                ),
                None => Seq::empty(),
            }
        )
    &&& said(last, pkg("upstreamEcosystem"@)) == said(first, pkg("upstreamEcosystem"@))
        + where_so(
            !in_existing_ecosystem,
            (
                match by_spec(spec, source_name) {
                    Some(d) => in_turn(
                        |k: int|
                            seq![to_iri((identities[k]), (DATA@ + "ecosystem/"@ + d.ecosystem))],
                        (identities.len()),
                    ),
                    None => Seq::empty(),
                }
            ),
        )
    &&& said(last, pkg("upstreamPackageName"@)) == said(first, pkg("upstreamPackageName"@))
        + where_so(
            !in_existing_ecosystem,
            (
                match by_spec(spec, source_name) {
                    Some(d) => in_turn(
                        |k: int| text_if((identities[k]), d.package_name),
                        (identities.len()),
                    ),
                    None => Seq::empty(),
                }
            ),
        )
    &&& said(last, RPM@ + "hasSpecSource"@) == said(first, RPM@ + "hasSpecSource"@)
        + in_turn(|k: int| seq![to_text(src, (spec.all_sources[k]))], (spec.all_sources.len()))
    &&& said(last, RPM@ + "hasPatch"@) == said(first, RPM@ + "hasPatch"@)
        + in_turn(
            |k: int|
                seq![
                    to_iri(
                        src,
                        patch_iri(c, source_name, ((k) as usize), last_segment((spec.patches[k]))),
                    ),
                ],
            (spec.patches.len()),
        )
    &&& said(last, pkg("derivedFromCommit"@)) == said(first, pkg("derivedFromCommit"@))
        + (
            match spec.commit_hash {
                Some(commit) => seq![to_iri(src, (DATA@ + "commit/"@ + commit))],
                None => Seq::empty(),
            }
        )
    &&& said(last, pkg("buildDependsOn"@)) == said(first, pkg("buildDependsOn"@))
        + where_so(
            buildrequires,
            requirement_rows(
                c,
                source_iri(c.distro@, c.release@, source_name, version_or_unknown(spec)),
                all_requirements(spec.build_requires, spec.build_requires.len()),
                (all_requirements(spec.build_requires, spec.build_requires.len()).len()),
            ),
        )
    &&& said(last, PROV@ + "wasAttributedTo"@) == said(first, PROV@ + "wasAttributedTo"@)
        + where_so(
            maintainers,
            where_so(
                spec.changelog_entries.len() > 0,
                (
                    match person_iri((spec.changelog_entries[0].email)) {
                        Some(person) => seq![
                            to_iri(
                                source_iri(
                                    c.distro@,
                                    c.release@,
                                    source_name,
                                    version_or_unknown(spec),
                                ),
                                person,
                            ),
                        ],
                        None => Seq::empty(),
                    }
                ),
            ),
        )
}

proof fn lemma_spec_in_steps(
    w: Sheet,
    c: SpecCollector,
    spec: SpecText,
    source_name: Seq<char>,
    identities: Seq<Seq<char>>,
    in_existing_ecosystem: bool,
    buildrequires: bool,
    maintainers: bool,
)
    ensures
        with_spec(
            w,
            c,
            spec,
            source_name,
            identities,
            in_existing_ecosystem,
            buildrequires,
            maintainers,
        )
            == ({
            let w = spec_step_1(w, spec, source_name, identities);
            let version = version_or_unknown(spec);
            let src = source_iri(c.distro@, c.release@, source_name, version);
            let w = spec_step_2(w, spec, src);
            let w = spec_step_3(w, c, spec, source_name, src);
            let w = spec_step_4(w, spec, src);
            let w = spec_step_5(w, spec, source_name, identities, in_existing_ecosystem);
            let w = spec_step_6(w, c, spec, source_name, buildrequires);
            let w = spec_step_7(w, c, spec, source_name, maintainers);
            w
        }),
{
    reveal(spec_step_1);
    reveal(spec_step_2);
    reveal(spec_step_3);
    reveal(spec_step_4);
    reveal(spec_step_5);
    reveal(spec_step_6);
    reveal(spec_step_7);
}

proof fn lemma_spec_steps(
    w: Sheet,
    c: SpecCollector,
    spec: SpecText,
    source_name: Seq<char>,
    identities: Seq<Seq<char>>,
    in_existing_ecosystem: bool,
    buildrequires: bool,
    maintainers: bool,
)
    ensures
        spec_told(w.log, ({
            let w = spec_step_1(w, spec, source_name, identities);
            let version = version_or_unknown(spec);
            let src = source_iri(c.distro@, c.release@, source_name, version);
            let w = spec_step_2(w, spec, src);
            let w = spec_step_3(w, c, spec, source_name, src);
            let w = spec_step_4(w, spec, src);
            let w = spec_step_5(w, spec, source_name, identities, in_existing_ecosystem);
            let w = spec_step_6(w, c, spec, source_name, buildrequires);
            let w = spec_step_7(w, c, spec, source_name, maintainers);
            w
        }).log, c, spec, source_name, identities, in_existing_ecosystem, buildrequires, maintainers),
{
    broadcast use {group_writes, group_foaf, group_prov, group_rpm, group_vcs};

    reveal_strlit("dqCollector");
    reveal_strlit("dqField");
    reveal_strlit("dqValue");
    reveal_strlit("dqIssueType");
    reveal_strlit("dqSeverity");
    reveal_strlit("upstreamRepository");
    reveal_strlit("hostedOn");
    reveal_strlit("forgeUrl");
    reveal_strlit("forgeSoftware");
    reveal_strlit("hasSpecSource");
    reveal_strlit("patchName");
    reveal_strlit("hasPatch");
    reveal_strlit("commitHash");
    reveal_strlit("derivedFromCommit");
    reveal_strlit("upstreamEcosystem");
    reveal_strlit("upstreamPackageName");
    reveal_strlit("buildDependsOn");
    reveal_strlit("name");
    reveal_strlit("mbox");
    reveal_strlit("wasAttributedTo");
    let w1 = spec_step_1(w, spec, source_name, identities);
    lemma_spec_step_1(w, spec, source_name, identities);
    let version = version_or_unknown(spec);
    let src = source_iri(c.distro@, c.release@, source_name, version);
    let w2 = spec_step_2(w1, spec, src);
    lemma_spec_step_2(w1, spec, src);
    let w3 = spec_step_3(w2, c, spec, source_name, src);
    lemma_spec_step_3(w2, c, spec, source_name, src);
    let w4 = spec_step_4(w3, spec, src);
    lemma_spec_step_4(w3, spec, src);
    let w5 = spec_step_5(w4, spec, source_name, identities, in_existing_ecosystem);
    lemma_spec_step_5(w4, spec, source_name, identities, in_existing_ecosystem);
    let w6 = spec_step_6(w5, c, spec, source_name, buildrequires);
    lemma_spec_step_6(w5, c, spec, source_name, buildrequires);
    let w7 = spec_step_7(w6, c, spec, source_name, maintainers);
    lemma_spec_step_7(w6, c, spec, source_name, maintainers);
}

/// What [`with_spec`] writes says what [`spec_told`] states.
pub proof fn lemma_spec_told(
    w: Sheet,
    c: SpecCollector,
    spec: SpecText,
    source_name: Seq<char>,
    identities: Seq<Seq<char>>,
    in_existing_ecosystem: bool,
    buildrequires: bool,
    maintainers: bool,
)
    ensures
        spec_told(
            w.log,
            with_spec(
                w,
                c,
                spec,
                source_name,
                identities,
                in_existing_ecosystem,
                buildrequires,
                maintainers,
            ).log,
            c,
            spec,
            source_name,
            identities,
            in_existing_ecosystem,
            buildrequires,
            maintainers,
        ),
{
    lemma_spec_in_steps(
        w,
        c,
        spec,
        source_name,
        identities,
        in_existing_ecosystem,
        buildrequires,
        maintainers,
    );
    lemma_spec_steps(
        w,
        c,
        spec,
        source_name,
        identities,
        in_existing_ecosystem,
        buildrequires,
        maintainers,
    );
}

} // verus!
