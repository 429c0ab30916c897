//! What is said of Bodhi advisories.

use crate::collect_bodhi::{
    advisory_iri, iso_date, nvr_of, too_old, with_advisories, with_advisory, with_advisory_cve,
    with_advisory_cves, with_advisory_date, with_advisory_head, with_build, with_builds,
    with_each_advisory_cve, with_each_package_link, with_nvr_issue, with_package_link, Advisory,
    Binaries, BodhiCollector, NvrReply,
};
use crate::forge::issue_iri;
use crate::ntriples::{link, literal, pkg, xsd, Fact, Sheet};
use crate::reading::{
    group_reading, group_sec, group_writes, in_turn, said, to_each, to_iri, to_text, where_so, Term,
};
use crate::said_forge::lemma_dq_issue_told;
use crate::text::opt;
use crate::uris::{cve_iri, sec_concept, RDF_TYPE, SEC};
use vstd::prelude::*;

verus! {

proof fn lemma_package_link_told(w: Sheet, advisory: Seq<char>, package: Seq<char>)
    ensures
        ({
            let first = w.log;
            let last = with_package_link(w, advisory, package).log;
            &&& said(last, SEC@ + "advisoryForPackage"@) == said(first, SEC@ + "advisoryForPackage"@)
                + seq![to_iri(advisory, package)]
            &&& forall|q: Seq<char>|
                q != SEC@ + "advisoryForPackage"@ ==> #[trigger] said(last, q) == said(first, q)
        }),
{
    broadcast use {group_reading, group_sec};

    reveal_strlit("advisoryForPackage");
}

proof fn lemma_each_package_link_told(w: Sheet, advisory: Seq<char>, items: Seq<Seq<char>>, n: nat)
    ensures
        ({
            let first = w.log;
            let last = with_each_package_link(w, advisory, items, n).log;
            &&& said(last, SEC@ + "advisoryForPackage"@) == said(first, SEC@ + "advisoryForPackage"@)
                + in_turn(|k: int| seq![to_iri(advisory, (items[k]))], n)
            &&& forall|q: Seq<char>|
                q != SEC@ + "advisoryForPackage"@ ==> #[trigger] said(last, q) == said(first, q)
        }),
    decreases n,
{
    broadcast use {group_writes, group_sec};

    reveal_strlit("advisoryForPackage");
    if n > 0 {
        lemma_each_package_link_told(w, advisory, items, (n - 1) as nat);
        lemma_package_link_told(
            with_each_package_link(w, advisory, items, (n - 1) as nat),
            advisory,
            items[n - 1],
        );
    }
}

proof fn lemma_nvr_issue_told(w: Sheet, nvr: Seq<char>, issue: Seq<char>, severity: Seq<char>)
    ensures
        ({
            let first = w.log;
            let last = with_nvr_issue(w, nvr, issue, severity).log;
            &&& said(last, RDF_TYPE@) == said(first, RDF_TYPE@)
                + seq![
                    to_iri(
                        issue_iri(("bodhi-collector"@), ("nvr"@), nvr, issue),
                        pkg("DataQualityIssue"@),
                    ),
                ]
            &&& said(last, pkg("dqCollector"@)) == said(first, pkg("dqCollector"@))
                + seq![
                    to_text(
                        issue_iri(("bodhi-collector"@), ("nvr"@), nvr, issue),
                        ("bodhi-collector"@),
                    ),
                ]
            &&& said(last, pkg("dqField"@)) == said(first, pkg("dqField"@))
                + seq![to_text(issue_iri(("bodhi-collector"@), ("nvr"@), nvr, issue), ("nvr"@))]
            &&& said(last, pkg("dqValue"@)) == said(first, pkg("dqValue"@))
                + seq![to_text(issue_iri(("bodhi-collector"@), ("nvr"@), nvr, issue), nvr)]
            &&& said(last, pkg("dqIssueType"@)) == said(first, pkg("dqIssueType"@))
                + seq![to_text(issue_iri(("bodhi-collector"@), ("nvr"@), nvr, issue), issue)]
            &&& said(last, pkg("dqSeverity"@)) == said(first, pkg("dqSeverity"@))
                + seq![to_text(issue_iri(("bodhi-collector"@), ("nvr"@), nvr, issue), severity)]
            &&& forall|q: Seq<char>|
                q != RDF_TYPE@
                    && q != pkg("dqCollector"@)
                    && q != pkg("dqField"@)
                    && q != pkg("dqValue"@)
                    && q != pkg("dqIssueType"@)
                    && q != pkg("dqSeverity"@)
                    ==> #[trigger] said(last, q) == said(first, q)
        }),
{
    broadcast use group_reading;

    reveal_strlit("dqCollector");
    reveal_strlit("dqField");
    reveal_strlit("dqValue");
    reveal_strlit("dqIssueType");
    reveal_strlit("dqSeverity");
    lemma_dq_issue_told(w, "bodhi-collector"@, "nvr"@, nvr, issue, severity);
}

proof fn lemma_build_told(w: Sheet, advisory: Seq<char>, nvr: Seq<char>, reply: Binaries)
    ensures
        ({
            let first = w.log;
            let last = with_build(w, advisory, nvr, reply).log;
            &&& said(last, RDF_TYPE@) == said(first, RDF_TYPE@)
                + where_so(
                    nvr_of(nvr) is None,
                    seq![
                        to_iri(
                            issue_iri(("bodhi-collector"@), ("nvr"@), nvr, ("nvr-parse-failed"@)),
                            pkg("DataQualityIssue"@),
                        ),
                    ],
                )
                + where_so(
                    !(nvr_of(nvr) is None),
                    (
                        match reply {
                            Binaries::Found(packages) => where_so(
                                !(packages.len() > 0),
                                seq![
                                    to_iri(
                                        issue_iri(
                                            ("bodhi-collector"@),
                                            ("nvr"@),
                                            nvr,
                                            ("nvr-unresolved"@),
                                        ),
                                        pkg("DataQualityIssue"@),
                                    ),
                                ],
                            ),
                            Binaries::Failed => Seq::empty(),
                        }
                    ),
                )
                + where_so(
                    !(nvr_of(nvr) is None),
                    (
                        match reply {
                            Binaries::Found(packages) => Seq::empty(),
                            Binaries::Failed => seq![
                                to_iri(
                                    issue_iri(
                                        ("bodhi-collector"@),
                                        ("nvr"@),
                                        nvr,
                                        ("nvr-query-failed"@),
                                    ),
                                    pkg("DataQualityIssue"@),
                                ),
                            ],
                        }
                    ),
                )
            &&& said(last, pkg("dqCollector"@)) == said(first, pkg("dqCollector"@))
                + where_so(
                    nvr_of(nvr) is None,
                    seq![
                        to_text(
                            issue_iri(("bodhi-collector"@), ("nvr"@), nvr, ("nvr-parse-failed"@)),
                            ("bodhi-collector"@),
                        ),
                    ],
                )
                + where_so(
                    !(nvr_of(nvr) is None),
                    (
                        match reply {
                            Binaries::Found(packages) => where_so(
                                !(packages.len() > 0),
                                seq![
                                    to_text(
                                        issue_iri(
                                            ("bodhi-collector"@),
                                            ("nvr"@),
                                            nvr,
                                            ("nvr-unresolved"@),
                                        ),
                                        ("bodhi-collector"@),
                                    ),
                                ],
                            ),
                            Binaries::Failed => Seq::empty(),
                        }
                    ),
                )
                + where_so(
                    !(nvr_of(nvr) is None),
                    (
                        match reply {
                            Binaries::Found(packages) => Seq::empty(),
                            Binaries::Failed => seq![
                                to_text(
                                    issue_iri(
                                        ("bodhi-collector"@),
                                        ("nvr"@),
                                        nvr,
                                        ("nvr-query-failed"@),
                                    ),
                                    ("bodhi-collector"@),
                                ),
                            ],
                        }
                    ),
                )
            &&& said(last, pkg("dqField"@)) == said(first, pkg("dqField"@))
                + where_so(
                    nvr_of(nvr) is None,
                    seq![
                        to_text(
                            issue_iri(("bodhi-collector"@), ("nvr"@), nvr, ("nvr-parse-failed"@)),
                            ("nvr"@),
                        ),
                    ],
                )
                + where_so(
                    !(nvr_of(nvr) is None),
                    (
                        match reply {
                            Binaries::Found(packages) => where_so(
                                !(packages.len() > 0),
                                seq![
                                    to_text(
                                        issue_iri(
                                            ("bodhi-collector"@),
                                            ("nvr"@),
                                            nvr,
                                            ("nvr-unresolved"@),
                                        ),
                                        ("nvr"@),
                                    ),
                                ],
                            ),
                            Binaries::Failed => Seq::empty(),
                        }
                    ),
                )
                + where_so(
                    !(nvr_of(nvr) is None),
                    (
                        match reply {
                            Binaries::Found(packages) => Seq::empty(),
                            Binaries::Failed => seq![
                                to_text(
                                    issue_iri(
                                        ("bodhi-collector"@),
                                        ("nvr"@),
                                        nvr,
                                        ("nvr-query-failed"@),
                                    ),
                                    ("nvr"@),
                                ),
                            ],
                        }
                    ),
                )
            &&& said(last, pkg("dqValue"@)) == said(first, pkg("dqValue"@))
                + where_so(
                    nvr_of(nvr) is None,
                    seq![
                        to_text(
                            issue_iri(("bodhi-collector"@), ("nvr"@), nvr, ("nvr-parse-failed"@)),
                            nvr,
                        ),
                    ],
                )
                + where_so(
                    !(nvr_of(nvr) is None),
                    (
                        match reply {
                            Binaries::Found(packages) => where_so(
                                !(packages.len() > 0),
                                seq![
                                    to_text(
                                        issue_iri(
                                            ("bodhi-collector"@),
                                            ("nvr"@),
                                            nvr,
                                            ("nvr-unresolved"@),
                                        ),
                                        nvr,
                                    ),
                                ],
                            ),
                            Binaries::Failed => Seq::empty(),
                        }
                    ),
                )
                + where_so(
                    !(nvr_of(nvr) is None),
                    (
                        match reply {
                            Binaries::Found(packages) => Seq::empty(),
                            Binaries::Failed => seq![
                                to_text(
                                    issue_iri(
                                        ("bodhi-collector"@),
                                        ("nvr"@),
                                        nvr,
                                        ("nvr-query-failed"@),
                                    ),
                                    nvr,
                                ),
                            ],
                        }
                    ),
                )
            &&& said(last, pkg("dqIssueType"@)) == said(first, pkg("dqIssueType"@))
                + where_so(
                    nvr_of(nvr) is None,
                    seq![
                        to_text(
                            issue_iri(("bodhi-collector"@), ("nvr"@), nvr, ("nvr-parse-failed"@)),
                            ("nvr-parse-failed"@),
                        ),
                    ],
                )
                + where_so(
                    !(nvr_of(nvr) is None),
                    (
                        match reply {
                            Binaries::Found(packages) => where_so(
                                !(packages.len() > 0),
                                seq![
                                    to_text(
                                        issue_iri(
                                            ("bodhi-collector"@),
                                            ("nvr"@),
                                            nvr,
                                            ("nvr-unresolved"@),
                                        ),
                                        ("nvr-unresolved"@),
                                    ),
                                ],
                            ),
                            Binaries::Failed => Seq::empty(),
                        }
                    ),
                )
                + where_so(
                    !(nvr_of(nvr) is None),
                    (
                        match reply {
                            Binaries::Found(packages) => Seq::empty(),
                            Binaries::Failed => seq![
                                to_text(
                                    issue_iri(
                                        ("bodhi-collector"@),
                                        ("nvr"@),
                                        nvr,
                                        ("nvr-query-failed"@),
                                    ),
                                    ("nvr-query-failed"@),
                                ),
                            ],
                        }
                    ),
                )
            &&& said(last, pkg("dqSeverity"@)) == said(first, pkg("dqSeverity"@))
                + where_so(
                    nvr_of(nvr) is None,
                    seq![
                        to_text(
                            issue_iri(("bodhi-collector"@), ("nvr"@), nvr, ("nvr-parse-failed"@)),
                            ("warning"@),
                        ),
                    ],
                )
                + where_so(
                    !(nvr_of(nvr) is None),
                    (
                        match reply {
                            Binaries::Found(packages) => where_so(
                                !(packages.len() > 0),
                                seq![
                                    to_text(
                                        issue_iri(
                                            ("bodhi-collector"@),
                                            ("nvr"@),
                                            nvr,
                                            ("nvr-unresolved"@),
                                        ),
                                        ("info"@),
                                    ),
                                ],
                            ),
                            Binaries::Failed => Seq::empty(),
                        }
                    ),
                )
                + where_so(
                    !(nvr_of(nvr) is None),
                    (
                        match reply {
                            Binaries::Found(packages) => Seq::empty(),
                            Binaries::Failed => seq![
                                to_text(
                                    issue_iri(
                                        ("bodhi-collector"@),
                                        ("nvr"@),
                                        nvr,
                                        ("nvr-query-failed"@),
                                    ),
                                    ("warning"@),
                                ),
                            ],
                        }
                    ),
                )
            &&& said(last, SEC@ + "advisoryForPackage"@) == said(first, SEC@ + "advisoryForPackage"@)
                + where_so(
                    !(nvr_of(nvr) is None),
                    (
                        match reply {
                            Binaries::Found(packages) => where_so(
                                packages.len() > 0,
                                in_turn(
                                    |k: int| seq![to_iri(advisory, (packages[k]))],
                                    (packages.len()),
                                ),
                            ),
                            Binaries::Failed => Seq::empty(),
                        }
                    ),
                )
            &&& forall|q: Seq<char>|
                q != RDF_TYPE@
                    && q != pkg("dqCollector"@)
                    && q != pkg("dqField"@)
                    && q != pkg("dqValue"@)
                    && q != pkg("dqIssueType"@)
                    && q != pkg("dqSeverity"@)
                    && q != SEC@ + "advisoryForPackage"@
                    ==> #[trigger] said(last, q) == said(first, q)
        }),
{
    broadcast use {group_reading, group_sec};

    reveal_strlit("dqCollector");
    reveal_strlit("dqField");
    reveal_strlit("dqValue");
    reveal_strlit("dqIssueType");
    reveal_strlit("dqSeverity");
    reveal_strlit("advisoryForPackage");
    if nvr_of(nvr) is None {
        lemma_nvr_issue_told(w, nvr, "nvr-parse-failed"@, "warning"@);
    } else {
        match reply {
            Binaries::Found(packages) => {
                if packages.len() > 0 {
                    lemma_each_package_link_told(w, advisory, packages, packages.len());
                } else {
                    lemma_nvr_issue_told(w, nvr, "nvr-unresolved"@, "info"@);
                }
            },
            Binaries::Failed => {
                lemma_nvr_issue_told(w, nvr, "nvr-query-failed"@, "warning"@);
            },
        }
    }
}

proof fn lemma_builds_told(
    w: Sheet,
    advisory: Seq<char>,
    nvrs: Seq<Seq<char>>,
    replies: Seq<NvrReply>,
    n: nat,
)
    ensures
        ({
            let first = w.log;
            let last = with_builds(w, advisory, nvrs, replies, n).log;
            &&& said(last, RDF_TYPE@) == said(first, RDF_TYPE@)
                + in_turn(
                    |j: int|
                        where_so(
                            nvr_of((nvrs[j])) is None,
                            seq![
                                to_iri(
                                    issue_iri(
                                        ("bodhi-collector"@),
                                        ("nvr"@),
                                        (nvrs[j]),
                                        ("nvr-parse-failed"@),
                                    ),
                                    pkg("DataQualityIssue"@),
                                ),
                            ],
                        )
                            + where_so(
                                !(nvr_of((nvrs[j])) is None),
                                (
                                    match (replies[j]@) {
                                        Binaries::Found(packages) => where_so(
                                            !(packages.len() > 0),
                                            seq![
                                                to_iri(
                                                    issue_iri(
                                                        ("bodhi-collector"@),
                                                        ("nvr"@),
                                                        (nvrs[j]),
                                                        ("nvr-unresolved"@),
                                                    ),
                                                    pkg("DataQualityIssue"@),
                                                ),
                                            ],
                                        ),
                                        Binaries::Failed => Seq::empty(),
                                    }
                                ),
                            )
                            + where_so(
                                !(nvr_of((nvrs[j])) is None),
                                (
                                    match (replies[j]@) {
                                        Binaries::Found(packages) => Seq::empty(),
                                        Binaries::Failed => seq![
                                            to_iri(
                                                issue_iri(
                                                    ("bodhi-collector"@),
                                                    ("nvr"@),
                                                    (nvrs[j]),
                                                    ("nvr-query-failed"@),
                                                ),
                                                pkg("DataQualityIssue"@),
                                            ),
                                        ],
                                    }
                                ),
                            ),
                    n,
                )
            &&& said(last, pkg("dqCollector"@)) == said(first, pkg("dqCollector"@))
                + in_turn(
                    |j: int|
                        where_so(
                            nvr_of((nvrs[j])) is None,
                            seq![
                                to_text(
                                    issue_iri(
                                        ("bodhi-collector"@),
                                        ("nvr"@),
                                        (nvrs[j]),
                                        ("nvr-parse-failed"@),
                                    ),
                                    ("bodhi-collector"@),
                                ),
                            ],
                        )
                            + where_so(
                                !(nvr_of((nvrs[j])) is None),
                                (
                                    match (replies[j]@) {
                                        Binaries::Found(packages) => where_so(
                                            !(packages.len() > 0),
                                            seq![
                                                to_text(
                                                    issue_iri(
                                                        ("bodhi-collector"@),
                                                        ("nvr"@),
                                                        (nvrs[j]),
                                                        ("nvr-unresolved"@),
                                                    ),
                                                    ("bodhi-collector"@),
                                                ),
                                            ],
                                        ),
                                        Binaries::Failed => Seq::empty(),
                                    }
                                ),
                            )
                            + where_so(
                                !(nvr_of((nvrs[j])) is None),
                                (
                                    match (replies[j]@) {
                                        Binaries::Found(packages) => Seq::empty(),
                                        Binaries::Failed => seq![
                                            to_text(
                                                issue_iri(
                                                    ("bodhi-collector"@),
                                                    ("nvr"@),
                                                    (nvrs[j]),
                                                    ("nvr-query-failed"@),
                                                ),
                                                ("bodhi-collector"@),
                                            ),
                                        ],
                                    }
                                ),
                            ),
                    n,
                )
            &&& said(last, pkg("dqField"@)) == said(first, pkg("dqField"@))
                + in_turn(
                    |j: int|
                        where_so(
                            nvr_of((nvrs[j])) is None,
                            seq![
                                to_text(
                                    issue_iri(
                                        ("bodhi-collector"@),
                                        ("nvr"@),
                                        (nvrs[j]),
                                        ("nvr-parse-failed"@),
                                    ),
                                    ("nvr"@),
                                ),
                            ],
                        )
                            + where_so(
                                !(nvr_of((nvrs[j])) is None),
                                (
                                    match (replies[j]@) {
                                        Binaries::Found(packages) => where_so(
                                            !(packages.len() > 0),
                                            seq![
                                                to_text(
                                                    issue_iri(
                                                        ("bodhi-collector"@),
                                                        ("nvr"@),
                                                        (nvrs[j]),
                                                        ("nvr-unresolved"@),
                                                    ),
                                                    ("nvr"@),
                                                ),
                                            ],
                                        ),
                                        Binaries::Failed => Seq::empty(),
                                    }
                                ),
                            )
                            + where_so(
                                !(nvr_of((nvrs[j])) is None),
                                (
                                    match (replies[j]@) {
                                        Binaries::Found(packages) => Seq::empty(),
                                        Binaries::Failed => seq![
                                            to_text(
                                                issue_iri(
                                                    ("bodhi-collector"@),
                                                    ("nvr"@),
                                                    (nvrs[j]),
                                                    ("nvr-query-failed"@),
                                                ),
                                                ("nvr"@),
                                            ),
                                        ],
                                    }
                                ),
                            ),
                    n,
                )
            &&& said(last, pkg("dqValue"@)) == said(first, pkg("dqValue"@))
                + in_turn(
                    |j: int|
                        where_so(
                            nvr_of((nvrs[j])) is None,
                            seq![
                                to_text(
                                    issue_iri(
                                        ("bodhi-collector"@),
                                        ("nvr"@),
                                        (nvrs[j]),
                                        ("nvr-parse-failed"@),
                                    ),
                                    (nvrs[j]),
                                ),
                            ],
                        )
                            + where_so(
                                !(nvr_of((nvrs[j])) is None),
                                (
                                    match (replies[j]@) {
                                        Binaries::Found(packages) => where_so(
                                            !(packages.len() > 0),
                                            seq![
                                                to_text(
                                                    issue_iri(
                                                        ("bodhi-collector"@),
                                                        ("nvr"@),
                                                        (nvrs[j]),
                                                        ("nvr-unresolved"@),
                                                    ),
                                                    (nvrs[j]),
                                                ),
                                            ],
                                        ),
                                        Binaries::Failed => Seq::empty(),
                                    }
                                ),
                            )
                            + where_so(
                                !(nvr_of((nvrs[j])) is None),
                                (
                                    match (replies[j]@) {
                                        Binaries::Found(packages) => Seq::empty(),
                                        Binaries::Failed => seq![
                                            to_text(
                                                issue_iri(
                                                    ("bodhi-collector"@),
                                                    ("nvr"@),
                                                    (nvrs[j]),
                                                    ("nvr-query-failed"@),
                                                ),
                                                (nvrs[j]),
                                            ),
                                        ],
                                    }
                                ),
                            ),
                    n,
                )
            &&& said(last, pkg("dqIssueType"@)) == said(first, pkg("dqIssueType"@))
                + in_turn(
                    |j: int|
                        where_so(
                            nvr_of((nvrs[j])) is None,
                            seq![
                                to_text(
                                    issue_iri(
                                        ("bodhi-collector"@),
                                        ("nvr"@),
                                        (nvrs[j]),
                                        ("nvr-parse-failed"@),
                                    ),
                                    ("nvr-parse-failed"@),
                                ),
                            ],
                        )
                            + where_so(
                                !(nvr_of((nvrs[j])) is None),
                                (
                                    match (replies[j]@) {
                                        Binaries::Found(packages) => where_so(
                                            !(packages.len() > 0),
                                            seq![
                                                to_text(
                                                    issue_iri(
                                                        ("bodhi-collector"@),
                                                        ("nvr"@),
                                                        (nvrs[j]),
                                                        ("nvr-unresolved"@),
                                                    ),
                                                    ("nvr-unresolved"@),
                                                ),
                                            ],
                                        ),
                                        Binaries::Failed => Seq::empty(),
                                    }
                                ),
                            )
                            + where_so(
                                !(nvr_of((nvrs[j])) is None),
                                (
                                    match (replies[j]@) {
                                        Binaries::Found(packages) => Seq::empty(),
                                        Binaries::Failed => seq![
                                            to_text(
                                                issue_iri(
                                                    ("bodhi-collector"@),
                                                    ("nvr"@),
                                                    (nvrs[j]),
                                                    ("nvr-query-failed"@),
                                                ),
                                                ("nvr-query-failed"@),
                                            ),
                                        ],
                                    }
                                ),
                            ),
                    n,
                )
            &&& said(last, pkg("dqSeverity"@)) == said(first, pkg("dqSeverity"@))
                + in_turn(
                    |j: int|
                        where_so(
                            nvr_of((nvrs[j])) is None,
                            seq![
                                to_text(
                                    issue_iri(
                                        ("bodhi-collector"@),
                                        ("nvr"@),
                                        (nvrs[j]),
                                        ("nvr-parse-failed"@),
                                    ),
                                    ("warning"@),
                                ),
                            ],
                        )
                            + where_so(
                                !(nvr_of((nvrs[j])) is None),
                                (
                                    match (replies[j]@) {
                                        Binaries::Found(packages) => where_so(
                                            !(packages.len() > 0),
                                            seq![
                                                to_text(
                                                    issue_iri(
                                                        ("bodhi-collector"@),
                                                        ("nvr"@),
                                                        (nvrs[j]),
                                                        ("nvr-unresolved"@),
                                                    ),
                                                    ("info"@),
                                                ),
                                            ],
                                        ),
                                        Binaries::Failed => Seq::empty(),
                                    }
                                ),
                            )
                            + where_so(
                                !(nvr_of((nvrs[j])) is None),
                                (
                                    match (replies[j]@) {
                                        Binaries::Found(packages) => Seq::empty(),
                                        Binaries::Failed => seq![
                                            to_text(
                                                issue_iri(
                                                    ("bodhi-collector"@),
                                                    ("nvr"@),
                                                    (nvrs[j]),
                                                    ("nvr-query-failed"@),
                                                ),
                                                ("warning"@),
                                            ),
                                        ],
                                    }
                                ),
                            ),
                    n,
                )
            &&& said(last, SEC@ + "advisoryForPackage"@) == said(first, SEC@ + "advisoryForPackage"@)
                + in_turn(
                    |j: int|
                        where_so(
                            !(nvr_of((nvrs[j])) is None),
                            (
                                match (replies[j]@) {
                                    Binaries::Found(packages) => where_so(
                                        packages.len() > 0,
                                        in_turn(
                                            |k: int| seq![to_iri(advisory, (packages[k]))],
                                            (packages.len()),
                                        ),
                                    ),
                                    Binaries::Failed => Seq::empty(),
                                }
                            ),
                        ),
                    n,
                )
            &&& forall|q: Seq<char>|
                q != RDF_TYPE@
                    && q != pkg("dqCollector"@)
                    && q != pkg("dqField"@)
                    && q != pkg("dqValue"@)
                    && q != pkg("dqIssueType"@)
                    && q != pkg("dqSeverity"@)
                    && q != SEC@ + "advisoryForPackage"@
                    ==> #[trigger] said(last, q) == said(first, q)
        }),
    decreases n,
{
    broadcast use {group_writes, group_sec};

    reveal_strlit("dqCollector");
    reveal_strlit("dqField");
    reveal_strlit("dqValue");
    reveal_strlit("dqIssueType");
    reveal_strlit("dqSeverity");
    reveal_strlit("advisoryForPackage");
    if n > 0 {
        lemma_builds_told(w, advisory, nvrs, replies, (n - 1) as nat);
        lemma_build_told(
            with_builds(w, advisory, nvrs, replies, (n - 1) as nat),
            advisory,
            nvrs[n - 1],
            replies[n - 1]@,
        );
    }
}

proof fn lemma_advisory_cve_told(w: Sheet, advisory: Seq<char>, id: Seq<char>)
    ensures
        ({
            let first = w.log;
            let last = with_advisory_cve(w, advisory, id).log;
            &&& said(last, SEC@ + "addressesVulnerability"@)
                == said(first, SEC@ + "addressesVulnerability"@)
                + seq![to_iri(advisory, cve_iri(id))]
            &&& forall|q: Seq<char>|
                q != SEC@ + "addressesVulnerability"@ ==> #[trigger] said(last, q) == said(first, q)
        }),
{
    broadcast use {group_reading, group_sec};

    reveal_strlit("addressesVulnerability");
}

proof fn lemma_each_advisory_cve_told(w: Sheet, advisory: Seq<char>, items: Seq<Seq<char>>, n: nat)
    ensures
        ({
            let first = w.log;
            let last = with_each_advisory_cve(w, advisory, items, n).log;
            &&& said(last, SEC@ + "addressesVulnerability"@)
                == said(first, SEC@ + "addressesVulnerability"@)
                + in_turn(|k: int| seq![to_iri(advisory, cve_iri((items[k])))], n)
            &&& forall|q: Seq<char>|
                q != SEC@ + "addressesVulnerability"@ ==> #[trigger] said(last, q) == said(first, q)
        }),
    decreases n,
{
    broadcast use {group_writes, group_sec};

    reveal_strlit("addressesVulnerability");
    if n > 0 {
        lemma_each_advisory_cve_told(w, advisory, items, (n - 1) as nat);
        lemma_advisory_cve_told(
            with_each_advisory_cve(w, advisory, items, (n - 1) as nat),
            advisory,
            items[n - 1],
        );
    }
}

proof fn lemma_advisory_cves_told(w: Sheet, advisory: Seq<char>, cves: Seq<Seq<char>>)
    ensures
        ({
            let first = w.log;
            let last = with_advisory_cves(w, advisory, cves).log;
            &&& said(last, SEC@ + "addressesVulnerability"@)
                == said(first, SEC@ + "addressesVulnerability"@)
                + in_turn(|k: int| seq![to_iri(advisory, cve_iri((cves[k])))], (cves.len()))
            &&& forall|q: Seq<char>|
                q != SEC@ + "addressesVulnerability"@ ==> #[trigger] said(last, q) == said(first, q)
        }),
{
    broadcast use {group_reading, group_sec};

    reveal_strlit("addressesVulnerability");
    lemma_each_advisory_cve_told(w, advisory, cves, cves.len());
}

proof fn lemma_advisory_date_told(w: Sheet, advisory: Seq<char>, date: Seq<char>)
    ensures
        ({
            let first = w.log;
            let last = with_advisory_date(w, advisory, date).log;
            &&& said(last, SEC@ + "advisoryDate"@) == said(first, SEC@ + "advisoryDate"@)
                + (
                    match iso_date(date) {
                        Ok(iso) => seq![(Term::Iri(advisory), Term::Typed(iso, xsd("dateTime"@)))],
                        Err(_) => Seq::empty(),
                    }
                )
            &&& forall|q: Seq<char>|
                q != SEC@ + "advisoryDate"@ ==> #[trigger] said(last, q) == said(first, q)
        }),
{
    broadcast use {group_reading, group_sec};

    reveal_strlit("advisoryDate");
    match iso_date(date) {
        Ok(iso) => {
        },
        Err(_) => {
        },
    }
}

/// What is said of an advisory itself: what it is, its name, that it is of security, and
/// its date, where it is one.
pub open spec fn advisory_head_told(
    first: Seq<Fact>,
    last: Seq<Fact>,
    advisory: Seq<char>,
    a: Advisory,
) -> bool {
    let category = sec_concept("category-"@, "security"@);
    &&& said(last, RDF_TYPE@) == said(first, RDF_TYPE@)
        + seq![to_iri(advisory, SEC@ + "SecurityAdvisory"@)]
    &&& said(last, SEC@ + "advisoryId"@) == said(first, SEC@ + "advisoryId"@)
        + seq![to_text(advisory, a.id)]
    &&& said(last, SEC@ + "advisoryType"@) == said(first, SEC@ + "advisoryType"@)
        + seq![to_iri(advisory, category)]
    &&& said(last, SEC@ + "advisoryDate"@) == said(first, SEC@ + "advisoryDate"@)
        + (
            match iso_date(a.date) {
                Ok(iso) => seq![(Term::Iri(advisory), Term::Typed(iso, xsd("dateTime"@)))],
                Err(_) => Seq::empty(),
            }
        )
    &&& forall|q: Seq<char>|
        q != RDF_TYPE@
            && q != SEC@ + "advisoryId"@
            && q != SEC@ + "advisoryType"@
            && q != SEC@ + "advisoryDate"@
            ==> #[trigger] said(last, q) == said(first, q)
}

proof fn lemma_advisory_head_in_steps(w: Sheet, advisory: Seq<char>, a: Advisory)
    ensures
        with_advisory_head(w, advisory, a) == ({
            let w = link(w, advisory, RDF_TYPE@, SEC@ + "SecurityAdvisory"@);
            let w = literal(w, advisory, SEC@ + "advisoryId"@, a.id);
            let category = sec_concept("category-"@, "security"@);
            let w = link(w, advisory, SEC@ + "advisoryType"@, category);
            let w = with_advisory_date(w, advisory, a.date);
            w
        }),
{
}

proof fn lemma_advisory_head_steps(w: Sheet, advisory: Seq<char>, a: Advisory)
    ensures
        advisory_head_told(w.log, ({
            let w = link(w, advisory, RDF_TYPE@, SEC@ + "SecurityAdvisory"@);
            let w = literal(w, advisory, SEC@ + "advisoryId"@, a.id);
            let category = sec_concept("category-"@, "security"@);
            let w = link(w, advisory, SEC@ + "advisoryType"@, category);
            let w = with_advisory_date(w, advisory, a.date);
            w
        }).log, advisory, a),
{
    broadcast use {group_writes, group_sec};

    reveal_strlit("advisoryId");
    reveal_strlit("advisoryType");
    reveal_strlit("advisoryDate");
    let w1 = link(w, advisory, RDF_TYPE@, SEC@ + "SecurityAdvisory"@);
    let w2 = literal(w1, advisory, SEC@ + "advisoryId"@, a.id);
    let category = sec_concept("category-"@, "security"@);
    let w3 = link(w2, advisory, SEC@ + "advisoryType"@, category);
    let w4 = with_advisory_date(w3, advisory, a.date);
    lemma_advisory_date_told(w3, advisory, a.date);
}

/// What [`with_advisory_head`] writes says what [`advisory_head_told`] states.
pub proof fn lemma_advisory_head_told(
    w: Sheet,
    advisory: Seq<char>,
    a: Advisory,
)
    ensures
        advisory_head_told(w.log, with_advisory_head(w, advisory, a).log, advisory, a),
{
    lemma_advisory_head_in_steps(w, advisory, a);
    lemma_advisory_head_steps(w, advisory, a);
}

#[verifier::opaque]
spec fn advisory_step_1(w: Sheet, a: Advisory, replies: Seq<NvrReply>, node: Seq<char>) -> Sheet {
    with_builds(w, node, a.nvrs, replies, a.nvrs.len())
}

proof fn lemma_advisory_step_1(w: Sheet, a: Advisory, replies: Seq<NvrReply>, node: Seq<char>)
    ensures
        ({
            let first = w.log;
            let last = advisory_step_1(w, a, replies, node).log;
            &&& said(last, SEC@ + "advisoryId"@) == said(first, SEC@ + "advisoryId"@)
            &&& said(last, SEC@ + "advisoryForPackage"@) == said(first, SEC@ + "advisoryForPackage"@)
                + in_turn(
                    |j: int|
                        where_so(
                            !(nvr_of((a.nvrs[j])) is None),
                            (
                                match (replies[j]@) {
                                    Binaries::Found(packages) => where_so(
                                        packages.len() > 0,
                                        in_turn(
                                            |k: int| seq![to_iri(node, (packages[k]))],
                                            (packages.len()),
                                        ),
                                    ),
                                    Binaries::Failed => Seq::empty(),
                                }
                            ),
                        ),
                    (a.nvrs.len()),
                )
            &&& said(last, SEC@ + "addressesVulnerability"@)
                == said(first, SEC@ + "addressesVulnerability"@)
            &&& said(last, pkg("dqIssueType"@)) == said(first, pkg("dqIssueType"@))
                + in_turn(
                    |j: int|
                        where_so(
                            nvr_of((a.nvrs[j])) is None,
                            seq![
                                to_text(
                                    issue_iri(
                                        ("bodhi-collector"@),
                                        ("nvr"@),
                                        (a.nvrs[j]),
                                        ("nvr-parse-failed"@),
                                    ),
                                    ("nvr-parse-failed"@),
                                ),
                            ],
                        )
                            + where_so(
                                !(nvr_of((a.nvrs[j])) is None),
                                (
                                    match (replies[j]@) {
                                        Binaries::Found(packages) => where_so(
                                            !(packages.len() > 0),
                                            seq![
                                                to_text(
                                                    issue_iri(
                                                        ("bodhi-collector"@),
                                                        ("nvr"@),
                                                        (a.nvrs[j]),
                                                        ("nvr-unresolved"@),
                                                    ),
                                                    ("nvr-unresolved"@),
                                                ),
                                            ],
                                        ),
                                        Binaries::Failed => Seq::empty(),
                                    }
                                ),
                            )
                            + where_so(
                                !(nvr_of((a.nvrs[j])) is None),
                                (
                                    match (replies[j]@) {
                                        Binaries::Found(packages) => Seq::empty(),
                                        Binaries::Failed => seq![
                                            to_text(
                                                issue_iri(
                                                    ("bodhi-collector"@),
                                                    ("nvr"@),
                                                    (a.nvrs[j]),
                                                    ("nvr-query-failed"@),
                                                ),
                                                ("nvr-query-failed"@),
                                            ),
                                        ],
                                    }
                                ),
                            ),
                    (a.nvrs.len()),
                )
            &&& said(last, pkg("dqValue"@)) == said(first, pkg("dqValue"@))
                + in_turn(
                    |j: int|
                        where_so(
                            nvr_of((a.nvrs[j])) is None,
                            seq![
                                to_text(
                                    issue_iri(
                                        ("bodhi-collector"@),
                                        ("nvr"@),
                                        (a.nvrs[j]),
                                        ("nvr-parse-failed"@),
                                    ),
                                    (a.nvrs[j]),
                                ),
                            ],
                        )
                            + where_so(
                                !(nvr_of((a.nvrs[j])) is None),
                                (
                                    match (replies[j]@) {
                                        Binaries::Found(packages) => where_so(
                                            !(packages.len() > 0),
                                            seq![
                                                to_text(
                                                    issue_iri(
                                                        ("bodhi-collector"@),
                                                        ("nvr"@),
                                                        (a.nvrs[j]),
                                                        ("nvr-unresolved"@),
                                                    ),
                                                    (a.nvrs[j]),
                                                ),
                                            ],
                                        ),
                                        Binaries::Failed => Seq::empty(),
                                    }
                                ),
                            )
                            + where_so(
                                !(nvr_of((a.nvrs[j])) is None),
                                (
                                    match (replies[j]@) {
                                        Binaries::Found(packages) => Seq::empty(),
                                        Binaries::Failed => seq![
                                            to_text(
                                                issue_iri(
                                                    ("bodhi-collector"@),
                                                    ("nvr"@),
                                                    (a.nvrs[j]),
                                                    ("nvr-query-failed"@),
                                                ),
                                                (a.nvrs[j]),
                                            ),
                                        ],
                                    }
                                ),
                            ),
                    (a.nvrs.len()),
                )
        }),
{
    broadcast use {group_reading, group_sec};

    reveal(advisory_step_1);
    reveal_strlit("dqCollector");
    reveal_strlit("dqField");
    reveal_strlit("dqValue");
    reveal_strlit("dqIssueType");
    reveal_strlit("dqSeverity");
    reveal_strlit("advisoryForPackage");
    reveal_strlit("advisoryId");
    reveal_strlit("addressesVulnerability");
    lemma_builds_told(w, node, a.nvrs, replies, a.nvrs.len());
}

/// Everything that is said of an advisory: what is said of it itself, the packages that its
/// builds are found as, each build that is not found as a fault in the data, and the
/// vulnerabilities that it addresses.
pub open spec fn advisory_told(
    first: Seq<Fact>,
    last: Seq<Fact>,
    c: BodhiCollector,
    a: Advisory,
    replies: Seq<NvrReply>,
) -> bool {
    let node = advisory_iri(c.graph_release@, a.id);
    &&& said(last, SEC@ + "advisoryId"@) == said(first, SEC@ + "advisoryId"@)
        + seq![to_text(node, a.id)]
    &&& said(last, SEC@ + "advisoryForPackage"@) == said(first, SEC@ + "advisoryForPackage"@)
        + in_turn(
            |j: int|
                where_so(
                    !(nvr_of((a.nvrs[j])) is None),
                    (
                        match (replies[j]@) {
                            Binaries::Found(packages) => where_so(
                                packages.len() > 0,
                                in_turn(
                                    |k: int| seq![to_iri(node, (packages[k]))],
                                    (packages.len()),
                                ),
                            ),
                            Binaries::Failed => Seq::empty(),
                        }
                    ),
                ),
            (a.nvrs.len()),
        )
    &&& said(last, SEC@ + "addressesVulnerability"@) == said(first, SEC@ + "addressesVulnerability"@)
        + in_turn(|k: int| seq![to_iri(node, cve_iri((a.cves[k])))], (a.cves.len()))
    &&& said(last, pkg("dqIssueType"@)) == said(first, pkg("dqIssueType"@))
        + in_turn(
            |j: int|
                where_so(
                    nvr_of((a.nvrs[j])) is None,
                    seq![
                        to_text(
                            issue_iri(
                                ("bodhi-collector"@),
                                ("nvr"@),
                                (a.nvrs[j]),
                                ("nvr-parse-failed"@),
                            ),
                            ("nvr-parse-failed"@),
                        ),
                    ],
                )
                    + where_so(
                        !(nvr_of((a.nvrs[j])) is None),
                        (
                            match (replies[j]@) {
                                Binaries::Found(packages) => where_so(
                                    !(packages.len() > 0),
                                    seq![
                                        to_text(
                                            issue_iri(
                                                ("bodhi-collector"@),
                                                ("nvr"@),
                                                (a.nvrs[j]),
                                                ("nvr-unresolved"@),
                                            ),
                                            ("nvr-unresolved"@),
                                        ),
                                    ],
                                ),
                                Binaries::Failed => Seq::empty(),
                            }
                        ),
                    )
                    + where_so(
                        !(nvr_of((a.nvrs[j])) is None),
                        (
                            match (replies[j]@) {
                                Binaries::Found(packages) => Seq::empty(),
                                Binaries::Failed => seq![
                                    to_text(
                                        issue_iri(
                                            ("bodhi-collector"@),
                                            ("nvr"@),
                                            (a.nvrs[j]),
                                            ("nvr-query-failed"@),
                                        ),
                                        ("nvr-query-failed"@),
                                    ),
                                ],
                            }
                        ),
                    ),
            (a.nvrs.len()),
        )
    &&& said(last, pkg("dqValue"@)) == said(first, pkg("dqValue"@))
        + in_turn(
            |j: int|
                where_so(
                    nvr_of((a.nvrs[j])) is None,
                    seq![
                        to_text(
                            issue_iri(
                                ("bodhi-collector"@),
                                ("nvr"@),
                                (a.nvrs[j]),
                                ("nvr-parse-failed"@),
                            ),
                            (a.nvrs[j]),
                        ),
                    ],
                )
                    + where_so(
                        !(nvr_of((a.nvrs[j])) is None),
                        (
                            match (replies[j]@) {
                                Binaries::Found(packages) => where_so(
                                    !(packages.len() > 0),
                                    seq![
                                        to_text(
                                            issue_iri(
                                                ("bodhi-collector"@),
                                                ("nvr"@),
                                                (a.nvrs[j]),
                                                ("nvr-unresolved"@),
                                            ),
                                            (a.nvrs[j]),
                                        ),
                                    ],
                                ),
                                Binaries::Failed => Seq::empty(),
                            }
                        ),
                    )
                    + where_so(
                        !(nvr_of((a.nvrs[j])) is None),
                        (
                            match (replies[j]@) {
                                Binaries::Found(packages) => Seq::empty(),
                                Binaries::Failed => seq![
                                    to_text(
                                        issue_iri(
                                            ("bodhi-collector"@),
                                            ("nvr"@),
                                            (a.nvrs[j]),
                                            ("nvr-query-failed"@),
                                        ),
                                        (a.nvrs[j]),
                                    ),
                                ],
                            }
                        ),
                    ),
            (a.nvrs.len()),
        )
}

proof fn lemma_advisory_in_steps(w: Sheet, c: BodhiCollector, a: Advisory, replies: Seq<NvrReply>)
    ensures
        with_advisory(w, c, a, replies) == ({
            let node = advisory_iri(c.graph_release@, a.id);
            let w = with_advisory_head(w, node, a);
            let w = advisory_step_1(w, a, replies, node);
            let w = with_advisory_cves(w, node, a.cves);
            w
        }),
{
    reveal(advisory_step_1);
}

proof fn lemma_advisory_steps(w: Sheet, c: BodhiCollector, a: Advisory, replies: Seq<NvrReply>)
    ensures
        advisory_told(w.log, ({
            let node = advisory_iri(c.graph_release@, a.id);
            let w = with_advisory_head(w, node, a);
            let w = advisory_step_1(w, a, replies, node);
            let w = with_advisory_cves(w, node, a.cves);
            w
        }).log, c, a, replies),
{
    broadcast use {group_writes, group_sec};

    reveal_strlit("advisoryId");
    reveal_strlit("advisoryType");
    reveal_strlit("advisoryDate");
    reveal_strlit("dqCollector");
    reveal_strlit("dqField");
    reveal_strlit("dqValue");
    reveal_strlit("dqIssueType");
    reveal_strlit("dqSeverity");
    reveal_strlit("advisoryForPackage");
    reveal_strlit("addressesVulnerability");
    let node = advisory_iri(c.graph_release@, a.id);
    let w1 = with_advisory_head(w, node, a);
    lemma_advisory_head_told(w, node, a);
    let w2 = advisory_step_1(w1, a, replies, node);
    lemma_advisory_step_1(w1, a, replies, node);
    let w3 = with_advisory_cves(w2, node, a.cves);
    lemma_advisory_cves_told(w2, node, a.cves);
}

/// What [`with_advisory`] writes says what [`advisory_told`] states.
pub proof fn lemma_advisory_told(
    w: Sheet,
    c: BodhiCollector,
    a: Advisory,
    replies: Seq<NvrReply>,
)
    ensures
        advisory_told(w.log, with_advisory(w, c, a, replies).log, c, a, replies),
{
    lemma_advisory_in_steps(w, c, a, replies);
    lemma_advisory_steps(w, c, a, replies);
}

/// The advisories that are said are those that are not too old, in order, and no other;
/// each with the vulnerabilities that it addresses.
pub proof fn lemma_advisories_told(
    w: Sheet,
    c: BodhiCollector,
    advisories: Seq<Advisory>,
    replies: Seq<Vec<NvrReply>>,
    n: nat,
)
    ensures
        ({
            let first = w.log;
            let last = with_advisories(w, c, advisories, replies, n).log;
            let since = opt(c.since);
            let release = c.graph_release@;
            &&& said(last, SEC@ + "advisoryId"@) == said(first, SEC@ + "advisoryId"@) + in_turn(
                |i: int|
                    where_so(
                        !too_old(since, advisories[i].date),
                        seq![to_text(advisory_iri(release, advisories[i].id), advisories[i].id)],
                    ),
                n,
            )
            &&& said(last, SEC@ + "addressesVulnerability"@) == said(
                first,
                SEC@ + "addressesVulnerability"@,
            ) + in_turn(
                |i: int|
                    where_so(
                        !too_old(since, advisories[i].date),
                        to_each(
                            advisory_iri(release, advisories[i].id),
                            advisories[i].cves.map_values(|id: Seq<char>| cve_iri(id)),
                        ),
                    ),
                n,
            )
        }),
    decreases n,
{
    broadcast use {group_writes, group_sec};

    if n > 0 {
        lemma_advisories_told(w, c, advisories, replies, (n - 1) as nat);
        let v = with_advisories(w, c, advisories, replies, (n - 1) as nat);
        let a = advisories[n - 1];
        if !too_old(opt(c.since), a.date) {
            lemma_advisory_told(v, c, a, replies[n - 1]@);
            lemma_each_addressed(advisory_iri(c.graph_release@, a.id), a.cves, a.cves.len());
            assert(a.cves.take(a.cves.len() as int) =~= a.cves);
        }
    }
}

proof fn lemma_each_addressed(node: Seq<char>, cves: Seq<Seq<char>>, n: nat)
    requires
        n <= cves.len(),
    ensures
        in_turn(|k: int| seq![to_iri(node, cve_iri(cves[k]))], n) == to_each(
            node,
            cves.take(n as int).map_values(|id: Seq<char>| cve_iri(id)),
        ),
    decreases n,
{
    if n > 0 {
        lemma_each_addressed(node, cves, (n - 1) as nat);
        assert(to_each(node, cves.take(n as int).map_values(|id: Seq<char>| cve_iri(id))) =~= to_each(
            node,
            cves.take(n - 1).map_values(|id: Seq<char>| cve_iri(id)),
        ) + seq![to_iri(node, cve_iri(cves[n - 1]))]);
    } else {
        assert(
            to_each(node, cves.take(0).map_values(|id: Seq<char>| cve_iri(id))) =~= Seq::empty()
        );
    }
}

} // verus!
