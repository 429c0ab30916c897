//! What is said of Debian packages.

use crate::debian::{
    arch_name, display_name, identities, lemma_named_packages_told, names_in_field,
    with_architecture, with_dependency, with_detection, with_distribution_metadata,
    with_each_architecture, with_ecosystem_enrichment, with_forge_enrichment,
    with_maintainer_triples, with_named_package, with_package_core, with_person,
    with_source_package_triples, DebianCollector, Limit, ReleaseText, SourceText,
};
use crate::deps::{contact_of, MAINTAINER, Person};
use crate::derive_releases::Ecosystem;
use crate::ecosystem::by_name;
use crate::forge::{
    forge_url, host_of, issue_iri, project_name, software_or_unknown, with_dq_issue, with_forge,
    with_upstream_repo,
};
use crate::ir::Depends;
use crate::ntriples::{bnode_label, link, literal, number_if, pkg, typed, xsd, Fact, Sheet};
use crate::number::i64_value;
use crate::pattern::regex_captures;
use crate::reading::{
    group_deb, group_foaf, group_reading, group_vcs, group_writes, in_turn, maybe_literal,
    maybe_number, number_if_any, said, text_if, to_each, to_iri, to_text, where_so, Term,
};
use crate::said_forge::{lemma_dq_issue_told, lemma_forge_told, lemma_upstream_repo_told};
use crate::split::first_word_or_all;
use crate::textmap::field;
use crate::uris::{
    arch_iri, dep_type_iri, distro_iri, ecosystem_iri, identity_iri, maintainer_iri, package_iri,
    purl, release_iri, repo_iri, res1, source_iri, upstream_iri, version_iri, DEB, FOAF, RDFS_LABEL,
    RDF_TYPE, VCS,
};
use vstd::prelude::*;

verus! {

/// What is said of who maintains a package: that they are a person, with their name and
/// address, and that they maintain it.
pub open spec fn person_told(
    first: Seq<Fact>,
    last: Seq<Fact>,
    package: Seq<char>,
    name: Seq<char>,
    email: Seq<char>,
) -> bool {
    let person = maintainer_iri(email);
    &&& said(last, RDF_TYPE@) == said(first, RDF_TYPE@) + seq![to_iri(person, pkg("Person"@))]
    &&& said(last, FOAF@ + "name"@) == said(first, FOAF@ + "name"@) + seq![to_text(person, name)]
    &&& said(last, RDFS_LABEL@) == said(first, RDFS_LABEL@) + seq![to_text(person, name)]
    &&& said(last, FOAF@ + "mbox"@) == said(first, FOAF@ + "mbox"@)
        + seq![to_iri(person, "mailto:"@ + email)]
    &&& said(last, pkg("maintainedBy"@)) == said(first, pkg("maintainedBy"@))
        + seq![to_iri(package, person)]
    &&& forall|q: Seq<char>|
        q != RDF_TYPE@
            && q != FOAF@ + "name"@
            && q != RDFS_LABEL@
            && q != FOAF@ + "mbox"@
            && q != pkg("maintainedBy"@)
            ==> #[trigger] said(last, q) == said(first, q)
}

proof fn lemma_person_in_steps(w: Sheet, package: Seq<char>, name: Seq<char>, email: Seq<char>)
    ensures
        with_person(w, package, name, email) == ({
            let person = maintainer_iri(email);
            let w = link(w, person, RDF_TYPE@, pkg("Person"@));
            let w = literal(w, person, FOAF@ + "name"@, name);
            let w = literal(w, person, RDFS_LABEL@, name);
            let w = link(w, person, FOAF@ + "mbox"@, "mailto:"@ + email);
            let w = link(w, package, pkg("maintainedBy"@), person);
            w
        }),
{
}

proof fn lemma_person_steps(w: Sheet, package: Seq<char>, name: Seq<char>, email: Seq<char>)
    ensures
        person_told(w.log, ({
            let person = maintainer_iri(email);
            let w = link(w, person, RDF_TYPE@, pkg("Person"@));
            let w = literal(w, person, FOAF@ + "name"@, name);
            let w = literal(w, person, RDFS_LABEL@, name);
            let w = link(w, person, FOAF@ + "mbox"@, "mailto:"@ + email);
            let w = link(w, package, pkg("maintainedBy"@), person);
            w
        }).log, package, name, email),
{
    broadcast use {group_writes, group_foaf};

    reveal_strlit("name");
    reveal_strlit("mbox");
    reveal_strlit("maintainedBy");
    let person = maintainer_iri(email);
    let w1 = link(w, person, RDF_TYPE@, pkg("Person"@));
    let w2 = literal(w1, person, FOAF@ + "name"@, name);
    let w3 = literal(w2, person, RDFS_LABEL@, name);
    let w4 = link(w3, person, FOAF@ + "mbox"@, "mailto:"@ + email);
    let w5 = link(w4, package, pkg("maintainedBy"@), person);
}

/// What [`with_person`] writes says what [`person_told`] states.
pub proof fn lemma_person_told(
    w: Sheet,
    package: Seq<char>,
    name: Seq<char>,
    email: Seq<char>,
)
    ensures
        person_told(w.log, with_person(w, package, name, email).log, package, name, email),
{
    lemma_person_in_steps(w, package, name, email);
    lemma_person_steps(w, package, name, email);
}

proof fn lemma_maintainer_told(w: Sheet, package: Seq<char>, text: Seq<char>)
    ensures
        ({
            let first = w.log;
            let last = with_maintainer_triples(w, package, text).log;
            &&& said(last, RDF_TYPE@) == said(first, RDF_TYPE@)
                + (
                    match contact_of(regex_captures(MAINTAINER@, text)) {
                        Some(who) => seq![to_iri(maintainer_iri(who.email), pkg("Person"@))],
                        None => Seq::empty(),
                    }
                )
            &&& said(last, FOAF@ + "name"@) == said(first, FOAF@ + "name"@)
                + (
                    match contact_of(regex_captures(MAINTAINER@, text)) {
                        Some(who) => seq![to_text(maintainer_iri(who.email), who.name)],
                        None => Seq::empty(),
                    }
                )
            &&& said(last, RDFS_LABEL@) == said(first, RDFS_LABEL@)
                + (
                    match contact_of(regex_captures(MAINTAINER@, text)) {
                        Some(who) => seq![to_text(maintainer_iri(who.email), who.name)],
                        None => Seq::empty(),
                    }
                )
            &&& said(last, FOAF@ + "mbox"@) == said(first, FOAF@ + "mbox"@)
                + (
                    match contact_of(regex_captures(MAINTAINER@, text)) {
                        Some(who) => seq![
                            to_iri(maintainer_iri(who.email), "mailto:"@ + who.email),
                        ],
                        None => Seq::empty(),
                    }
                )
            &&& said(last, pkg("maintainedBy"@)) == said(first, pkg("maintainedBy"@))
                + (
                    match contact_of(regex_captures(MAINTAINER@, text)) {
                        Some(who) => seq![to_iri(package, maintainer_iri(who.email))],
                        None => Seq::empty(),
                    }
                )
            &&& forall|q: Seq<char>|
                q != RDF_TYPE@
                    && q != FOAF@ + "name"@
                    && q != RDFS_LABEL@
                    && q != FOAF@ + "mbox"@
                    && q != pkg("maintainedBy"@)
                    ==> #[trigger] said(last, q) == said(first, q)
        }),
{
    broadcast use {group_reading, group_foaf};

    reveal_strlit("name");
    reveal_strlit("mbox");
    reveal_strlit("maintainedBy");
    match contact_of(regex_captures(MAINTAINER@, text)) {
        Some(who) => {
            lemma_person_told(w, package, who.name, who.email);
        },
        None => {
        },
    }
}

/// What is said of the source that a package is built from, and of its version.
pub open spec fn source_package_told(
    first: Seq<Fact>,
    last: Seq<Fact>,
    c: DebianCollector,
    package: Seq<char>,
    source: SourceText,
    codename: Seq<char>,
) -> bool {
    let src = source_iri(c.distro_name@, codename, source.name, source.version);
    let ver = version_iri(c.distro_name@, codename, source.name, source.version);
    &&& said(last, RDF_TYPE@) == said(first, RDF_TYPE@)
        + seq![to_iri(src, pkg("SourcePackage"@))]
        + seq![to_iri(ver, pkg("Version"@))]
    &&& said(last, pkg("packageName"@)) == said(first, pkg("packageName"@))
        + seq![to_text(src, source.name)]
    &&& said(last, pkg("versionString"@)) == said(first, pkg("versionString"@))
        + seq![to_text(ver, source.version)]
    &&& said(last, pkg("hasVersion"@)) == said(first, pkg("hasVersion"@)) + seq![to_iri(src, ver)]
    &&& said(last, pkg("builtFromSource"@)) == said(first, pkg("builtFromSource"@))
        + seq![to_iri(package, src)]
    &&& forall|q: Seq<char>|
        q != RDF_TYPE@
            && q != pkg("packageName"@)
            && q != pkg("versionString"@)
            && q != pkg("hasVersion"@)
            && q != pkg("builtFromSource"@)
            ==> #[trigger] said(last, q) == said(first, q)
}

proof fn lemma_source_package_in_steps(
    w: Sheet,
    c: DebianCollector,
    package: Seq<char>,
    source: SourceText,
    codename: Seq<char>,
)
    ensures
        with_source_package_triples(w, c, package, source, codename) == ({
            let src = source_iri(c.distro_name@, codename, source.name, source.version);
            let w = link(w, src, RDF_TYPE@, pkg("SourcePackage"@));
            let w = literal(w, src, pkg("packageName"@), source.name);
            let ver = version_iri(c.distro_name@, codename, source.name, source.version);
            let w = link(w, ver, RDF_TYPE@, pkg("Version"@));
            let w = literal(w, ver, pkg("versionString"@), source.version);
            let w = link(w, src, pkg("hasVersion"@), ver);
            let w = link(w, package, pkg("builtFromSource"@), src);
            w
        }),
{
}

proof fn lemma_source_package_steps(
    w: Sheet,
    c: DebianCollector,
    package: Seq<char>,
    source: SourceText,
    codename: Seq<char>,
)
    ensures
        source_package_told(w.log, ({
            let src = source_iri(c.distro_name@, codename, source.name, source.version);
            let w = link(w, src, RDF_TYPE@, pkg("SourcePackage"@));
            let w = literal(w, src, pkg("packageName"@), source.name);
            let ver = version_iri(c.distro_name@, codename, source.name, source.version);
            let w = link(w, ver, RDF_TYPE@, pkg("Version"@));
            let w = literal(w, ver, pkg("versionString"@), source.version);
            let w = link(w, src, pkg("hasVersion"@), ver);
            let w = link(w, package, pkg("builtFromSource"@), src);
            w
        }).log, c, package, source, codename),
{
    broadcast use group_writes;

    reveal_strlit("packageName");
    reveal_strlit("versionString");
    reveal_strlit("hasVersion");
    reveal_strlit("builtFromSource");
    let src = source_iri(c.distro_name@, codename, source.name, source.version);
    let w1 = link(w, src, RDF_TYPE@, pkg("SourcePackage"@));
    let w2 = literal(w1, src, pkg("packageName"@), source.name);
    let ver = version_iri(c.distro_name@, codename, source.name, source.version);
    let w3 = link(w2, ver, RDF_TYPE@, pkg("Version"@));
    let w4 = literal(w3, ver, pkg("versionString"@), source.version);
    let w5 = link(w4, src, pkg("hasVersion"@), ver);
    let w6 = link(w5, package, pkg("builtFromSource"@), src);
}

/// What [`with_source_package_triples`] writes says what [`source_package_told`] states.
pub proof fn lemma_source_package_told(
    w: Sheet,
    c: DebianCollector,
    package: Seq<char>,
    source: SourceText,
    codename: Seq<char>,
)
    ensures
        source_package_told(
            w.log,
            with_source_package_triples(w, c, package, source, codename).log,
            c,
            package,
            source,
            codename,
        ),
{
    lemma_source_package_in_steps(w, c, package, source, codename);
    lemma_source_package_steps(w, c, package, source, codename);
}

#[verifier::opaque]
spec fn detection_step_1(
    w: Sheet,
    package_name: Seq<char>,
    ecosystem: Seq<char>,
    method: Seq<char>,
) -> Sheet {
    if method == "homepage-domain"@ {
        with_dq_issue(w, "debian"@, "ecosystem"@, package_name, "ecosystem-detected-high"@, "info"@)
    } else {
        with_dq_issue(
            w,
            "debian"@,
            "ecosystem"@,
            package_name,
            "ecosystem-detected-medium"@,
            "info"@,
        )
    }
}

proof fn lemma_detection_step_1(
    w: Sheet,
    package_name: Seq<char>,
    ecosystem: Seq<char>,
    method: Seq<char>,
)
    ensures
        ({
            let first = w.log;
            let last = detection_step_1(w, package_name, ecosystem, method).log;
            &&& said(last, RDF_TYPE@) == said(first, RDF_TYPE@)
                + where_so(
                    method == "homepage-domain"@,
                    seq![
                        to_iri(
                            issue_iri(
                                ("debian"@),
                                ("ecosystem"@),
                                package_name,
                                ("ecosystem-detected-high"@),
                            ),
                            pkg("DataQualityIssue"@),
                        ),
                    ],
                )
                + where_so(
                    !(method == "homepage-domain"@),
                    seq![
                        to_iri(
                            issue_iri(
                                ("debian"@),
                                ("ecosystem"@),
                                package_name,
                                ("ecosystem-detected-medium"@),
                            ),
                            pkg("DataQualityIssue"@),
                        ),
                    ],
                )
            &&& said(last, pkg("dqCollector"@)) == said(first, pkg("dqCollector"@))
                + where_so(
                    method == "homepage-domain"@,
                    seq![
                        to_text(
                            issue_iri(
                                ("debian"@),
                                ("ecosystem"@),
                                package_name,
                                ("ecosystem-detected-high"@),
                            ),
                            ("debian"@),
                        ),
                    ],
                )
                + where_so(
                    !(method == "homepage-domain"@),
                    seq![
                        to_text(
                            issue_iri(
                                ("debian"@),
                                ("ecosystem"@),
                                package_name,
                                ("ecosystem-detected-medium"@),
                            ),
                            ("debian"@),
                        ),
                    ],
                )
            &&& said(last, pkg("dqField"@)) == said(first, pkg("dqField"@))
                + where_so(
                    method == "homepage-domain"@,
                    seq![
                        to_text(
                            issue_iri(
                                ("debian"@),
                                ("ecosystem"@),
                                package_name,
                                ("ecosystem-detected-high"@),
                            ),
                            ("ecosystem"@),
                        ),
                    ],
                )
                + where_so(
                    !(method == "homepage-domain"@),
                    seq![
                        to_text(
                            issue_iri(
                                ("debian"@),
                                ("ecosystem"@),
                                package_name,
                                ("ecosystem-detected-medium"@),
                            ),
                            ("ecosystem"@),
                        ),
                    ],
                )
            &&& said(last, pkg("dqValue"@)) == said(first, pkg("dqValue"@))
                + where_so(
                    method == "homepage-domain"@,
                    seq![
                        to_text(
                            issue_iri(
                                ("debian"@),
                                ("ecosystem"@),
                                package_name,
                                ("ecosystem-detected-high"@),
                            ),
                            package_name,
                        ),
                    ],
                )
                + where_so(
                    !(method == "homepage-domain"@),
                    seq![
                        to_text(
                            issue_iri(
                                ("debian"@),
                                ("ecosystem"@),
                                package_name,
                                ("ecosystem-detected-medium"@),
                            ),
                            package_name,
                        ),
                    ],
                )
            &&& said(last, pkg("dqIssueType"@)) == said(first, pkg("dqIssueType"@))
                + where_so(
                    method == "homepage-domain"@,
                    seq![
                        to_text(
                            issue_iri(
                                ("debian"@),
                                ("ecosystem"@),
                                package_name,
                                ("ecosystem-detected-high"@),
                            ),
                            ("ecosystem-detected-high"@),
                        ),
                    ],
                )
                + where_so(
                    !(method == "homepage-domain"@),
                    seq![
                        to_text(
                            issue_iri(
                                ("debian"@),
                                ("ecosystem"@),
                                package_name,
                                ("ecosystem-detected-medium"@),
                            ),
                            ("ecosystem-detected-medium"@),
                        ),
                    ],
                )
            &&& said(last, pkg("dqSeverity"@)) == said(first, pkg("dqSeverity"@))
                + where_so(
                    method == "homepage-domain"@,
                    seq![
                        to_text(
                            issue_iri(
                                ("debian"@),
                                ("ecosystem"@),
                                package_name,
                                ("ecosystem-detected-high"@),
                            ),
                            ("info"@),
                        ),
                    ],
                )
                + where_so(
                    !(method == "homepage-domain"@),
                    seq![
                        to_text(
                            issue_iri(
                                ("debian"@),
                                ("ecosystem"@),
                                package_name,
                                ("ecosystem-detected-medium"@),
                            ),
                            ("info"@),
                        ),
                    ],
                )
            &&& forall|q: Seq<char>|
                q != RDF_TYPE@
                    && q != pkg("dqCollector"@)
                    && q != pkg("dqField"@)
                    && q != pkg("dqValue"@)
                    && q != pkg("dqIssueType"@)
                    && q != pkg("dqSeverity"@)
                    ==> #[trigger] said(last, q) == said(first, q)
        }),
{
    broadcast use group_reading;

    reveal(detection_step_1);
    reveal_strlit("dqCollector");
    reveal_strlit("dqField");
    reveal_strlit("dqValue");
    reveal_strlit("dqIssueType");
    reveal_strlit("dqSeverity");
    if method == "homepage-domain"@ {
        lemma_dq_issue_told(
            w,
            "debian"@,
            "ecosystem"@,
            package_name,
            "ecosystem-detected-high"@,
            "info"@,
        );
    } else {
        lemma_dq_issue_told(
            w,
            "debian"@,
            "ecosystem"@,
            package_name,
            "ecosystem-detected-medium"@,
            "info"@,
        );
    }
}

/// What is said of the ecosystem that was detected: that the package is taken from it, the
/// name there, where one is known, and how sure that is.
pub open spec fn detection_told(
    first: Seq<Fact>,
    last: Seq<Fact>,
    identity: Seq<char>,
    package_name: Seq<char>,
    ecosystem: Seq<char>,
    upstream: Option<Seq<char>>,
    method: Seq<char>,
) -> bool {
    let node = ecosystem_iri(ecosystem);
    &&& said(last, pkg("upstreamEcosystem"@)) == said(first, pkg("upstreamEcosystem"@))
        + seq![to_iri(identity, node)]
    &&& said(last, RDF_TYPE@) == said(first, RDF_TYPE@)
        + seq![to_iri(node, pkg("Ecosystem"@))]
        + where_so(
            method == "homepage-domain"@,
            seq![
                to_iri(
                    issue_iri(
                        ("debian"@),
                        ("ecosystem"@),
                        package_name,
                        ("ecosystem-detected-high"@),
                    ),
                    pkg("DataQualityIssue"@),
                ),
            ],
        )
        + where_so(
            !(method == "homepage-domain"@),
            seq![
                to_iri(
                    issue_iri(
                        ("debian"@),
                        ("ecosystem"@),
                        package_name,
                        ("ecosystem-detected-medium"@),
                    ),
                    pkg("DataQualityIssue"@),
                ),
            ],
        )
    &&& said(last, RDFS_LABEL@) == said(first, RDFS_LABEL@) + seq![to_text(node, ecosystem)]
    &&& said(last, pkg("upstreamPackageName"@)) == said(first, pkg("upstreamPackageName"@))
        + text_if(identity, upstream)
    &&& said(last, pkg("dqCollector"@)) == said(first, pkg("dqCollector"@))
        + where_so(
            method == "homepage-domain"@,
            seq![
                to_text(
                    issue_iri(
                        ("debian"@),
                        ("ecosystem"@),
                        package_name,
                        ("ecosystem-detected-high"@),
                    ),
                    ("debian"@),
                ),
            ],
        )
        + where_so(
            !(method == "homepage-domain"@),
            seq![
                to_text(
                    issue_iri(
                        ("debian"@),
                        ("ecosystem"@),
                        package_name,
                        ("ecosystem-detected-medium"@),
                    ),
                    ("debian"@),
                ),
            ],
        )
    &&& said(last, pkg("dqField"@)) == said(first, pkg("dqField"@))
        + where_so(
            method == "homepage-domain"@,
            seq![
                to_text(
                    issue_iri(
                        ("debian"@),
                        ("ecosystem"@),
                        package_name,
                        ("ecosystem-detected-high"@),
                    ),
                    ("ecosystem"@),
                ),
            ],
        )
        + where_so(
            !(method == "homepage-domain"@),
            seq![
                to_text(
                    issue_iri(
                        ("debian"@),
                        ("ecosystem"@),
                        package_name,
                        ("ecosystem-detected-medium"@),
                    ),
                    ("ecosystem"@),
                ),
            ],
        )
    &&& said(last, pkg("dqValue"@)) == said(first, pkg("dqValue"@))
        + where_so(
            method == "homepage-domain"@,
            seq![
                to_text(
                    issue_iri(
                        ("debian"@),
                        ("ecosystem"@),
                        package_name,
                        ("ecosystem-detected-high"@),
                    ),
                    package_name,
                ),
            ],
        )
        + where_so(
            !(method == "homepage-domain"@),
            seq![
                to_text(
                    issue_iri(
                        ("debian"@),
                        ("ecosystem"@),
                        package_name,
                        ("ecosystem-detected-medium"@),
                    ),
                    package_name,
                ),
            ],
        )
    &&& said(last, pkg("dqIssueType"@)) == said(first, pkg("dqIssueType"@))
        + where_so(
            method == "homepage-domain"@,
            seq![
                to_text(
                    issue_iri(
                        ("debian"@),
                        ("ecosystem"@),
                        package_name,
                        ("ecosystem-detected-high"@),
                    ),
                    ("ecosystem-detected-high"@),
                ),
            ],
        )
        + where_so(
            !(method == "homepage-domain"@),
            seq![
                to_text(
                    issue_iri(
                        ("debian"@),
                        ("ecosystem"@),
                        package_name,
                        ("ecosystem-detected-medium"@),
                    ),
                    ("ecosystem-detected-medium"@),
                ),
            ],
        )
    &&& said(last, pkg("dqSeverity"@)) == said(first, pkg("dqSeverity"@))
        + where_so(
            method == "homepage-domain"@,
            seq![
                to_text(
                    issue_iri(
                        ("debian"@),
                        ("ecosystem"@),
                        package_name,
                        ("ecosystem-detected-high"@),
                    ),
                    ("info"@),
                ),
            ],
        )
        + where_so(
            !(method == "homepage-domain"@),
            seq![
                to_text(
                    issue_iri(
                        ("debian"@),
                        ("ecosystem"@),
                        package_name,
                        ("ecosystem-detected-medium"@),
                    ),
                    ("info"@),
                ),
            ],
        )
    &&& forall|q: Seq<char>|
        q != pkg("upstreamEcosystem"@)
            && q != RDF_TYPE@
            && q != RDFS_LABEL@
            && q != pkg("upstreamPackageName"@)
            && q != pkg("dqCollector"@)
            && q != pkg("dqField"@)
            && q != pkg("dqValue"@)
            && q != pkg("dqIssueType"@)
            && q != pkg("dqSeverity"@)
            ==> #[trigger] said(last, q) == said(first, q)
}

proof fn lemma_detection_in_steps(
    w: Sheet,
    identity: Seq<char>,
    package_name: Seq<char>,
    ecosystem: Seq<char>,
    upstream: Option<Seq<char>>,
    method: Seq<char>,
)
    ensures
        with_detection(w, identity, package_name, ecosystem, upstream, method) == ({
            let node = ecosystem_iri(ecosystem);
            let w = link(w, identity, pkg("upstreamEcosystem"@), node);
            let w = link(w, node, RDF_TYPE@, pkg("Ecosystem"@));
            let w = literal(w, node, RDFS_LABEL@, ecosystem);
            let w = maybe_literal(w, identity, pkg("upstreamPackageName"@), upstream);
            let w = detection_step_1(w, package_name, ecosystem, method);
            w
        }),
{
    reveal(maybe_literal);
    reveal(detection_step_1);
}

proof fn lemma_detection_steps(
    w: Sheet,
    identity: Seq<char>,
    package_name: Seq<char>,
    ecosystem: Seq<char>,
    upstream: Option<Seq<char>>,
    method: Seq<char>,
)
    ensures
        detection_told(w.log, ({
            let node = ecosystem_iri(ecosystem);
            let w = link(w, identity, pkg("upstreamEcosystem"@), node);
            let w = link(w, node, RDF_TYPE@, pkg("Ecosystem"@));
            let w = literal(w, node, RDFS_LABEL@, ecosystem);
            let w = maybe_literal(w, identity, pkg("upstreamPackageName"@), upstream);
            let w = detection_step_1(w, package_name, ecosystem, method);
            w
        }).log, identity, package_name, ecosystem, upstream, method),
{
    broadcast use group_writes;

    reveal_strlit("upstreamEcosystem");
    reveal_strlit("upstreamPackageName");
    reveal_strlit("dqCollector");
    reveal_strlit("dqField");
    reveal_strlit("dqValue");
    reveal_strlit("dqIssueType");
    reveal_strlit("dqSeverity");
    let node = ecosystem_iri(ecosystem);
    let w1 = link(w, identity, pkg("upstreamEcosystem"@), node);
    let w2 = link(w1, node, RDF_TYPE@, pkg("Ecosystem"@));
    let w3 = literal(w2, node, RDFS_LABEL@, ecosystem);
    let w4 = maybe_literal(w3, identity, pkg("upstreamPackageName"@), upstream);
    let w5 = detection_step_1(w4, package_name, ecosystem, method);
    lemma_detection_step_1(w4, package_name, ecosystem, method);
}

/// What [`with_detection`] writes says what [`detection_told`] states.
pub proof fn lemma_detection_told(
    w: Sheet,
    identity: Seq<char>,
    package_name: Seq<char>,
    ecosystem: Seq<char>,
    upstream: Option<Seq<char>>,
    method: Seq<char>,
)
    ensures
        detection_told(
            w.log,
            with_detection(w, identity, package_name, ecosystem, upstream, method).log,
            identity,
            package_name,
            ecosystem,
            upstream,
            method,
        ),
{
    lemma_detection_in_steps(w, identity, package_name, ecosystem, upstream, method);
    lemma_detection_steps(w, identity, package_name, ecosystem, upstream, method);
}

proof fn lemma_ecosystem_enrichment_told(
    w: Sheet,
    package_name: Seq<char>,
    identity: Seq<char>,
    homepage: Option<Seq<char>>,
)
    ensures
        ({
            let first = w.log;
            let last = with_ecosystem_enrichment(w, package_name, identity, homepage).log;
            &&& said(last, pkg("upstreamEcosystem"@)) == said(first, pkg("upstreamEcosystem"@))
                + (
                    match by_name(package_name, homepage) {
                        Some(d) => seq![to_iri(identity, ecosystem_iri(d.ecosystem))],
                        None => Seq::empty(),
                    }
                )
            &&& said(last, RDF_TYPE@) == said(first, RDF_TYPE@)
                + (
                    match by_name(package_name, homepage) {
                        Some(d) => seq![to_iri(ecosystem_iri(d.ecosystem), pkg("Ecosystem"@))],
                        None => Seq::empty(),
                    }
                )
                + (
                    match by_name(package_name, homepage) {
                        Some(d) => where_so(
                            d.method == "homepage-domain"@,
                            seq![
                                to_iri(
                                    issue_iri(
                                        ("debian"@),
                                        ("ecosystem"@),
                                        package_name,
                                        ("ecosystem-detected-high"@),
                                    ),
                                    pkg("DataQualityIssue"@),
                                ),
                            ],
                        ),
                        None => Seq::empty(),
                    }
                )
                + (
                    match by_name(package_name, homepage) {
                        Some(d) => where_so(
                            !(d.method == "homepage-domain"@),
                            seq![
                                to_iri(
                                    issue_iri(
                                        ("debian"@),
                                        ("ecosystem"@),
                                        package_name,
                                        ("ecosystem-detected-medium"@),
                                    ),
                                    pkg("DataQualityIssue"@),
                                ),
                            ],
                        ),
                        None => Seq::empty(),
                    }
                )
            &&& said(last, RDFS_LABEL@) == said(first, RDFS_LABEL@)
                + (
                    match by_name(package_name, homepage) {
                        Some(d) => seq![to_text(ecosystem_iri(d.ecosystem), d.ecosystem)],
                        None => Seq::empty(),
                    }
                )
            &&& said(last, pkg("upstreamPackageName"@)) == said(first, pkg("upstreamPackageName"@))
                + (
                    match by_name(package_name, homepage) {
                        Some(d) => text_if(identity, d.package_name),
                        None => Seq::empty(),
                    }
                )
            &&& said(last, pkg("dqCollector"@)) == said(first, pkg("dqCollector"@))
                + (
                    match by_name(package_name, homepage) {
                        Some(d) => where_so(
                            d.method == "homepage-domain"@,
                            seq![
                                to_text(
                                    issue_iri(
                                        ("debian"@),
                                        ("ecosystem"@),
                                        package_name,
                                        ("ecosystem-detected-high"@),
                                    ),
                                    ("debian"@),
                                ),
                            ],
                        ),
                        None => Seq::empty(),
                    }
                )
                + (
                    match by_name(package_name, homepage) {
                        Some(d) => where_so(
                            !(d.method == "homepage-domain"@),
                            seq![
                                to_text(
                                    issue_iri(
                                        ("debian"@),
                                        ("ecosystem"@),
                                        package_name,
                                        ("ecosystem-detected-medium"@),
                                    ),
                                    ("debian"@),
                                ),
                            ],
                        ),
                        None => Seq::empty(),
                    }
                )
            &&& said(last, pkg("dqField"@)) == said(first, pkg("dqField"@))
                + (
                    match by_name(package_name, homepage) {
                        Some(d) => where_so(
                            d.method == "homepage-domain"@,
                            seq![
                                to_text(
                                    issue_iri(
                                        ("debian"@),
                                        ("ecosystem"@),
                                        package_name,
                                        ("ecosystem-detected-high"@),
                                    ),
                                    ("ecosystem"@),
                                ),
                            ],
                        ),
                        None => Seq::empty(),
                    }
                )
                + (
                    match by_name(package_name, homepage) {
                        Some(d) => where_so(
                            !(d.method == "homepage-domain"@),
                            seq![
                                to_text(
                                    issue_iri(
                                        ("debian"@),
                                        ("ecosystem"@),
                                        package_name,
                                        ("ecosystem-detected-medium"@),
                                    ),
                                    ("ecosystem"@),
                                ),
                            ],
                        ),
                        None => Seq::empty(),
                    }
                )
            &&& said(last, pkg("dqValue"@)) == said(first, pkg("dqValue"@))
                + (
                    match by_name(package_name, homepage) {
                        Some(d) => where_so(
                            d.method == "homepage-domain"@,
                            seq![
                                to_text(
                                    issue_iri(
                                        ("debian"@),
                                        ("ecosystem"@),
                                        package_name,
                                        ("ecosystem-detected-high"@),
                                    ),
                                    package_name,
                                ),
                            ],
                        ),
                        None => Seq::empty(),
                    }
                )
                + (
                    match by_name(package_name, homepage) {
                        Some(d) => where_so(
                            !(d.method == "homepage-domain"@),
                            seq![
                                to_text(
                                    issue_iri(
                                        ("debian"@),
                                        ("ecosystem"@),
                                        package_name,
                                        ("ecosystem-detected-medium"@),
                                    ),
                                    package_name,
                                ),
                            ],
                        ),
                        None => Seq::empty(),
                    }
                )
            &&& said(last, pkg("dqIssueType"@)) == said(first, pkg("dqIssueType"@))
                + (
                    match by_name(package_name, homepage) {
                        Some(d) => where_so(
                            d.method == "homepage-domain"@,
                            seq![
                                to_text(
                                    issue_iri(
                                        ("debian"@),
                                        ("ecosystem"@),
                                        package_name,
                                        ("ecosystem-detected-high"@),
                                    ),
                                    ("ecosystem-detected-high"@),
                                ),
                            ],
                        ),
                        None => Seq::empty(),
                    }
                )
                + (
                    match by_name(package_name, homepage) {
                        Some(d) => where_so(
                            !(d.method == "homepage-domain"@),
                            seq![
                                to_text(
                                    issue_iri(
                                        ("debian"@),
                                        ("ecosystem"@),
                                        package_name,
                                        ("ecosystem-detected-medium"@),
                                    ),
                                    ("ecosystem-detected-medium"@),
                                ),
                            ],
                        ),
                        None => Seq::empty(),
                    }
                )
            &&& said(last, pkg("dqSeverity"@)) == said(first, pkg("dqSeverity"@))
                + (
                    match by_name(package_name, homepage) {
                        Some(d) => where_so(
                            d.method == "homepage-domain"@,
                            seq![
                                to_text(
                                    issue_iri(
                                        ("debian"@),
                                        ("ecosystem"@),
                                        package_name,
                                        ("ecosystem-detected-high"@),
                                    ),
                                    ("info"@),
                                ),
                            ],
                        ),
                        None => Seq::empty(),
                    }
                )
                + (
                    match by_name(package_name, homepage) {
                        Some(d) => where_so(
                            !(d.method == "homepage-domain"@),
                            seq![
                                to_text(
                                    issue_iri(
                                        ("debian"@),
                                        ("ecosystem"@),
                                        package_name,
                                        ("ecosystem-detected-medium"@),
                                    ),
                                    ("info"@),
                                ),
                            ],
                        ),
                        None => Seq::empty(),
                    }
                )
            &&& forall|q: Seq<char>|
                q != pkg("upstreamEcosystem"@)
                    && q != RDF_TYPE@
                    && q != RDFS_LABEL@
                    && q != pkg("upstreamPackageName"@)
                    && q != pkg("dqCollector"@)
                    && q != pkg("dqField"@)
                    && q != pkg("dqValue"@)
                    && q != pkg("dqIssueType"@)
                    && q != pkg("dqSeverity"@)
                    ==> #[trigger] said(last, q) == said(first, q)
        }),
{
    broadcast use group_reading;

    reveal_strlit("upstreamEcosystem");
    reveal_strlit("upstreamPackageName");
    reveal_strlit("dqCollector");
    reveal_strlit("dqField");
    reveal_strlit("dqValue");
    reveal_strlit("dqIssueType");
    reveal_strlit("dqSeverity");
    match by_name(package_name, homepage) {
        Some(d) => {
            lemma_detection_told(w, identity, package_name, d.ecosystem, d.package_name, d.method);
        },
        None => {
        },
    }
}

#[verifier::opaque]
spec fn forge_enrichment_step_1(
    w: Sheet,
    package_name: Seq<char>,
    identity: Seq<char>,
    fields: Map<Seq<char>, Seq<char>>,
) -> Sheet {
    match field(fields, "Homepage"@) {
        Some(homepage) => {
            let w = match forge_url(homepage) {
                Some(url) => { with_upstream_repo(w, identity, url) },
                None => {
                    with_dq_issue(
                        w,
                        "debian"@,
                        "homepage"@,
                        homepage,
                        "homepage-no-forge-match"@,
                        "info"@,
                    )
                },
            };
            w
        },
        None => {
            with_dq_issue(w, "debian"@, "homepage"@, package_name, "missing-homepage"@, "info"@)
        },
    }
}

proof fn lemma_forge_enrichment_step_1(
    w: Sheet,
    package_name: Seq<char>,
    identity: Seq<char>,
    fields: Map<Seq<char>, Seq<char>>,
)
    ensures
        ({
            let first = w.log;
            let last = forge_enrichment_step_1(w, package_name, identity, fields).log;
            &&& said(last, pkg("upstreamRepository"@)) == said(first, pkg("upstreamRepository"@))
                + (
                    match field(fields, "Homepage"@) {
                        Some(homepage) => (
                            match forge_url(homepage) {
                                Some(url) => seq![to_iri(identity, repo_iri(url))],
                                None => Seq::empty(),
                            }
                        ),
                        None => Seq::empty(),
                    }
                )
            &&& said(last, RDF_TYPE@) == said(first, RDF_TYPE@)
                + (
                    match field(fields, "Homepage"@) {
                        Some(homepage) => (
                            match forge_url(homepage) {
                                Some(url) => seq![to_iri(repo_iri(url), VCS@ + "Repository"@)],
                                None => Seq::empty(),
                            }
                        ),
                        None => Seq::empty(),
                    }
                )
                + (
                    match field(fields, "Homepage"@) {
                        Some(homepage) => (
                            match forge_url(homepage) {
                                Some(url) => seq![
                                    to_iri(res1("forge"@, host_of(url)), VCS@ + "Forge"@),
                                ],
                                None => Seq::empty(),
                            }
                        ),
                        None => Seq::empty(),
                    }
                )
                + (
                    match field(fields, "Homepage"@) {
                        Some(homepage) => (
                            match forge_url(homepage) {
                                Some(url) => seq![
                                    to_iri(upstream_iri(url), pkg("UpstreamProject"@)),
                                ],
                                None => Seq::empty(),
                            }
                        ),
                        None => Seq::empty(),
                    }
                )
                + (
                    match field(fields, "Homepage"@) {
                        Some(homepage) => (
                            match forge_url(homepage) {
                                Some(url) => Seq::empty(),
                                None => seq![
                                    to_iri(
                                        issue_iri(
                                            ("debian"@),
                                            ("homepage"@),
                                            homepage,
                                            ("homepage-no-forge-match"@),
                                        ),
                                        pkg("DataQualityIssue"@),
                                    ),
                                ],
                            }
                        ),
                        None => Seq::empty(),
                    }
                )
                + (
                    match field(fields, "Homepage"@) {
                        Some(homepage) => Seq::empty(),
                        None => seq![
                            to_iri(
                                issue_iri(
                                    ("debian"@),
                                    ("homepage"@),
                                    package_name,
                                    ("missing-homepage"@),
                                ),
                                pkg("DataQualityIssue"@),
                            ),
                        ],
                    }
                )
            &&& said(last, VCS@ + "repositoryURL"@) == said(first, VCS@ + "repositoryURL"@)
                + (
                    match field(fields, "Homepage"@) {
                        Some(homepage) => (
                            match forge_url(homepage) {
                                Some(url) => seq![to_text(repo_iri(url), url)],
                                None => Seq::empty(),
                            }
                        ),
                        None => Seq::empty(),
                    }
                )
            &&& said(last, VCS@ + "hostedOn"@) == said(first, VCS@ + "hostedOn"@)
                + (
                    match field(fields, "Homepage"@) {
                        Some(homepage) => (
                            match forge_url(homepage) {
                                Some(url) => seq![
                                    to_iri(repo_iri(url), res1("forge"@, host_of(url))),
                                ],
                                None => Seq::empty(),
                            }
                        ),
                        None => Seq::empty(),
                    }
                )
            &&& said(last, VCS@ + "forgeUrl"@) == said(first, VCS@ + "forgeUrl"@)
                + (
                    match field(fields, "Homepage"@) {
                        Some(homepage) => (
                            match forge_url(homepage) {
                                Some(url) => seq![
                                    to_text(
                                        res1("forge"@, host_of(url)),
                                        "https://"@ + host_of(url),
                                    ),
                                ],
                                None => Seq::empty(),
                            }
                        ),
                        None => Seq::empty(),
                    }
                )
            &&& said(last, VCS@ + "forgeSoftware"@) == said(first, VCS@ + "forgeSoftware"@)
                + (
                    match field(fields, "Homepage"@) {
                        Some(homepage) => (
                            match forge_url(homepage) {
                                Some(url) => seq![
                                    to_text(
                                        res1("forge"@, host_of(url)),
                                        software_or_unknown(host_of(url)),
                                    ),
                                ],
                                None => Seq::empty(),
                            }
                        ),
                        None => Seq::empty(),
                    }
                )
            &&& said(last, pkg("projectName"@)) == said(first, pkg("projectName"@))
                + (
                    match field(fields, "Homepage"@) {
                        Some(homepage) => (
                            match forge_url(homepage) {
                                Some(url) => seq![to_text(upstream_iri(url), project_name(url))],
                                None => Seq::empty(),
                            }
                        ),
                        None => Seq::empty(),
                    }
                )
            &&& said(last, pkg("projectRepository"@)) == said(first, pkg("projectRepository"@))
                + (
                    match field(fields, "Homepage"@) {
                        Some(homepage) => (
                            match forge_url(homepage) {
                                Some(url) => seq![to_iri(upstream_iri(url), repo_iri(url))],
                                None => Seq::empty(),
                            }
                        ),
                        None => Seq::empty(),
                    }
                )
            &&& said(last, pkg("dqCollector"@)) == said(first, pkg("dqCollector"@))
                + (
                    match field(fields, "Homepage"@) {
                        Some(homepage) => (
                            match forge_url(homepage) {
                                Some(url) => Seq::empty(),
                                None => seq![
                                    to_text(
                                        issue_iri(
                                            ("debian"@),
                                            ("homepage"@),
                                            homepage,
                                            ("homepage-no-forge-match"@),
                                        ),
                                        ("debian"@),
                                    ),
                                ],
                            }
                        ),
                        None => Seq::empty(),
                    }
                )
                + (
                    match field(fields, "Homepage"@) {
                        Some(homepage) => Seq::empty(),
                        None => seq![
                            to_text(
                                issue_iri(
                                    ("debian"@),
                                    ("homepage"@),
                                    package_name,
                                    ("missing-homepage"@),
                                ),
                                ("debian"@),
                            ),
                        ],
                    }
                )
            &&& said(last, pkg("dqField"@)) == said(first, pkg("dqField"@))
                + (
                    match field(fields, "Homepage"@) {
                        Some(homepage) => (
                            match forge_url(homepage) {
                                Some(url) => Seq::empty(),
                                None => seq![
                                    to_text(
                                        issue_iri(
                                            ("debian"@),
                                            ("homepage"@),
                                            homepage,
                                            ("homepage-no-forge-match"@),
                                        ),
                                        ("homepage"@),
                                    ),
                                ],
                            }
                        ),
                        None => Seq::empty(),
                    }
                )
                + (
                    match field(fields, "Homepage"@) {
                        Some(homepage) => Seq::empty(),
                        None => seq![
                            to_text(
                                issue_iri(
                                    ("debian"@),
                                    ("homepage"@),
                                    package_name,
                                    ("missing-homepage"@),
                                ),
                                ("homepage"@),
                            ),
                        ],
                    }
                )
            &&& said(last, pkg("dqValue"@)) == said(first, pkg("dqValue"@))
                + (
                    match field(fields, "Homepage"@) {
                        Some(homepage) => (
                            match forge_url(homepage) {
                                Some(url) => Seq::empty(),
                                None => seq![
                                    to_text(
                                        issue_iri(
                                            ("debian"@),
                                            ("homepage"@),
                                            homepage,
                                            ("homepage-no-forge-match"@),
                                        ),
                                        homepage,
                                    ),
                                ],
                            }
                        ),
                        None => Seq::empty(),
                    }
                )
                + (
                    match field(fields, "Homepage"@) {
                        Some(homepage) => Seq::empty(),
                        None => seq![
                            to_text(
                                issue_iri(
                                    ("debian"@),
                                    ("homepage"@),
                                    package_name,
                                    ("missing-homepage"@),
                                ),
                                package_name,
                            ),
                        ],
                    }
                )
            &&& said(last, pkg("dqIssueType"@)) == said(first, pkg("dqIssueType"@))
                + (
                    match field(fields, "Homepage"@) {
                        Some(homepage) => (
                            match forge_url(homepage) {
                                Some(url) => Seq::empty(),
                                None => seq![
                                    to_text(
                                        issue_iri(
                                            ("debian"@),
                                            ("homepage"@),
                                            homepage,
                                            ("homepage-no-forge-match"@),
                                        ),
                                        ("homepage-no-forge-match"@),
                                    ),
                                ],
                            }
                        ),
                        None => Seq::empty(),
                    }
                )
                + (
                    match field(fields, "Homepage"@) {
                        Some(homepage) => Seq::empty(),
                        None => seq![
                            to_text(
                                issue_iri(
                                    ("debian"@),
                                    ("homepage"@),
                                    package_name,
                                    ("missing-homepage"@),
                                ),
                                ("missing-homepage"@),
                            ),
                        ],
                    }
                )
            &&& said(last, pkg("dqSeverity"@)) == said(first, pkg("dqSeverity"@))
                + (
                    match field(fields, "Homepage"@) {
                        Some(homepage) => (
                            match forge_url(homepage) {
                                Some(url) => Seq::empty(),
                                None => seq![
                                    to_text(
                                        issue_iri(
                                            ("debian"@),
                                            ("homepage"@),
                                            homepage,
                                            ("homepage-no-forge-match"@),
                                        ),
                                        ("info"@),
                                    ),
                                ],
                            }
                        ),
                        None => Seq::empty(),
                    }
                )
                + (
                    match field(fields, "Homepage"@) {
                        Some(homepage) => Seq::empty(),
                        None => seq![
                            to_text(
                                issue_iri(
                                    ("debian"@),
                                    ("homepage"@),
                                    package_name,
                                    ("missing-homepage"@),
                                ),
                                ("info"@),
                            ),
                        ],
                    }
                )
            &&& forall|q: Seq<char>|
                q != pkg("upstreamRepository"@)
                    && q != RDF_TYPE@
                    && q != VCS@ + "repositoryURL"@
                    && q != VCS@ + "hostedOn"@
                    && q != VCS@ + "forgeUrl"@
                    && q != VCS@ + "forgeSoftware"@
                    && q != pkg("projectName"@)
                    && q != pkg("projectRepository"@)
                    && q != pkg("dqCollector"@)
                    && q != pkg("dqField"@)
                    && q != pkg("dqValue"@)
                    && q != pkg("dqIssueType"@)
                    && q != pkg("dqSeverity"@)
                    ==> #[trigger] said(last, q) == said(first, q)
        }),
{
    broadcast use {group_reading, group_vcs};

    reveal(forge_enrichment_step_1);
    reveal_strlit("upstreamRepository");
    reveal_strlit("repositoryURL");
    reveal_strlit("hostedOn");
    reveal_strlit("forgeUrl");
    reveal_strlit("forgeSoftware");
    reveal_strlit("projectName");
    reveal_strlit("projectRepository");
    reveal_strlit("dqCollector");
    reveal_strlit("dqField");
    reveal_strlit("dqValue");
    reveal_strlit("dqIssueType");
    reveal_strlit("dqSeverity");
    match field(fields, "Homepage"@) {
        Some(homepage) => {
            match forge_url(homepage) {
                Some(url) => {
                    lemma_upstream_repo_told(w, identity, url);
                },
                None => {
                    lemma_dq_issue_told(
                        w,
                        "debian"@,
                        "homepage"@,
                        homepage,
                        "homepage-no-forge-match"@,
                        "info"@,
                    );
                },
            }
        },
        None => {
            lemma_dq_issue_told(
                w,
                "debian"@,
                "homepage"@,
                package_name,
                "missing-homepage"@,
                "info"@,
            );
        },
    }
}

#[verifier::opaque]
spec fn forge_enrichment_step_2(
    w: Sheet,
    identity: Seq<char>,
    fields: Map<Seq<char>, Seq<char>>,
) -> Sheet {
    match field(fields, "Vcs-Git"@) {
        Some(vcs) => {
            let address = first_word_or_all(vcs);
            let w = match forge_url(address) {
                Some(url) => {
                    let repo = repo_iri(url);
                    let w = link(w, identity, pkg("packagingRepository"@), repo);
                    let w = link(w, repo, RDF_TYPE@, VCS@ + "Repository"@);
                    with_forge(w, repo, url)
                },
                None => {
                    with_dq_issue(
                        w,
                        "debian"@,
                        "vcs-git"@,
                        address,
                        "vcs-git-no-forge-match"@,
                        "info"@,
                    )
                },
            };
            w
        },
        None => w,
    }
}

proof fn lemma_forge_enrichment_step_2(
    w: Sheet,
    identity: Seq<char>,
    fields: Map<Seq<char>, Seq<char>>,
)
    ensures
        ({
            let first = w.log;
            let last = forge_enrichment_step_2(w, identity, fields).log;
            &&& said(last, pkg("packagingRepository"@)) == said(first, pkg("packagingRepository"@))
                + (
                    match field(fields, "Vcs-Git"@) {
                        Some(vcs) => (
                            match forge_url(first_word_or_all(vcs)) {
                                Some(url) => seq![to_iri(identity, repo_iri(url))],
                                None => Seq::empty(),
                            }
                        ),
                        None => Seq::empty(),
                    }
                )
            &&& said(last, RDF_TYPE@) == said(first, RDF_TYPE@)
                + (
                    match field(fields, "Vcs-Git"@) {
                        Some(vcs) => (
                            match forge_url(first_word_or_all(vcs)) {
                                Some(url) => seq![to_iri(repo_iri(url), VCS@ + "Repository"@)],
                                None => Seq::empty(),
                            }
                        ),
                        None => Seq::empty(),
                    }
                )
                + (
                    match field(fields, "Vcs-Git"@) {
                        Some(vcs) => (
                            match forge_url(first_word_or_all(vcs)) {
                                Some(url) => seq![
                                    to_iri(res1("forge"@, host_of(url)), VCS@ + "Forge"@),
                                ],
                                None => Seq::empty(),
                            }
                        ),
                        None => Seq::empty(),
                    }
                )
                + (
                    match field(fields, "Vcs-Git"@) {
                        Some(vcs) => (
                            match forge_url(first_word_or_all(vcs)) {
                                Some(url) => Seq::empty(),
                                None => seq![
                                    to_iri(
                                        issue_iri(
                                            ("debian"@),
                                            ("vcs-git"@),
                                            first_word_or_all(vcs),
                                            ("vcs-git-no-forge-match"@),
                                        ),
                                        pkg("DataQualityIssue"@),
                                    ),
                                ],
                            }
                        ),
                        None => Seq::empty(),
                    }
                )
            &&& said(last, VCS@ + "hostedOn"@) == said(first, VCS@ + "hostedOn"@)
                + (
                    match field(fields, "Vcs-Git"@) {
                        Some(vcs) => (
                            match forge_url(first_word_or_all(vcs)) {
                                Some(url) => seq![
                                    to_iri(repo_iri(url), res1("forge"@, host_of(url))),
                                ],
                                None => Seq::empty(),
                            }
                        ),
                        None => Seq::empty(),
                    }
                )
            &&& said(last, VCS@ + "forgeUrl"@) == said(first, VCS@ + "forgeUrl"@)
                + (
                    match field(fields, "Vcs-Git"@) {
                        Some(vcs) => (
                            match forge_url(first_word_or_all(vcs)) {
                                Some(url) => seq![
                                    to_text(
                                        res1("forge"@, host_of(url)),
                                        "https://"@ + host_of(url),
                                    ),
                                ],
                                None => Seq::empty(),
                            }
                        ),
                        None => Seq::empty(),
                    }
                )
            &&& said(last, VCS@ + "forgeSoftware"@) == said(first, VCS@ + "forgeSoftware"@)
                + (
                    match field(fields, "Vcs-Git"@) {
                        Some(vcs) => (
                            match forge_url(first_word_or_all(vcs)) {
                                Some(url) => seq![
                                    to_text(
                                        res1("forge"@, host_of(url)),
                                        software_or_unknown(host_of(url)),
                                    ),
                                ],
                                None => Seq::empty(),
                            }
                        ),
                        None => Seq::empty(),
                    }
                )
            &&& said(last, pkg("dqCollector"@)) == said(first, pkg("dqCollector"@))
                + (
                    match field(fields, "Vcs-Git"@) {
                        Some(vcs) => (
                            match forge_url(first_word_or_all(vcs)) {
                                Some(url) => Seq::empty(),
                                None => seq![
                                    to_text(
                                        issue_iri(
                                            ("debian"@),
                                            ("vcs-git"@),
                                            first_word_or_all(vcs),
                                            ("vcs-git-no-forge-match"@),
                                        ),
                                        ("debian"@),
                                    ),
                                ],
                            }
                        ),
                        None => Seq::empty(),
                    }
                )
            &&& said(last, pkg("dqField"@)) == said(first, pkg("dqField"@))
                + (
                    match field(fields, "Vcs-Git"@) {
                        Some(vcs) => (
                            match forge_url(first_word_or_all(vcs)) {
                                Some(url) => Seq::empty(),
                                None => seq![
                                    to_text(
                                        issue_iri(
                                            ("debian"@),
                                            ("vcs-git"@),
                                            first_word_or_all(vcs),
                                            ("vcs-git-no-forge-match"@),
                                        ),
                                        ("vcs-git"@),
                                    ),
                                ],
                            }
                        ),
                        None => Seq::empty(),
                    }
                )
            &&& said(last, pkg("dqValue"@)) == said(first, pkg("dqValue"@))
                + (
                    match field(fields, "Vcs-Git"@) {
                        Some(vcs) => (
                            match forge_url(first_word_or_all(vcs)) {
                                Some(url) => Seq::empty(),
                                None => seq![
                                    to_text(
                                        issue_iri(
                                            ("debian"@),
                                            ("vcs-git"@),
                                            first_word_or_all(vcs),
                                            ("vcs-git-no-forge-match"@),
                                        ),
                                        first_word_or_all(vcs),
                                    ),
                                ],
                            }
                        ),
                        None => Seq::empty(),
                    }
                )
            &&& said(last, pkg("dqIssueType"@)) == said(first, pkg("dqIssueType"@))
                + (
                    match field(fields, "Vcs-Git"@) {
                        Some(vcs) => (
                            match forge_url(first_word_or_all(vcs)) {
                                Some(url) => Seq::empty(),
                                None => seq![
                                    to_text(
                                        issue_iri(
                                            ("debian"@),
                                            ("vcs-git"@),
                                            first_word_or_all(vcs),
                                            ("vcs-git-no-forge-match"@),
                                        ),
                                        ("vcs-git-no-forge-match"@),
                                    ),
                                ],
                            }
                        ),
                        None => Seq::empty(),
                    }
                )
            &&& said(last, pkg("dqSeverity"@)) == said(first, pkg("dqSeverity"@))
                + (
                    match field(fields, "Vcs-Git"@) {
                        Some(vcs) => (
                            match forge_url(first_word_or_all(vcs)) {
                                Some(url) => Seq::empty(),
                                None => seq![
                                    to_text(
                                        issue_iri(
                                            ("debian"@),
                                            ("vcs-git"@),
                                            first_word_or_all(vcs),
                                            ("vcs-git-no-forge-match"@),
                                        ),
                                        ("info"@),
                                    ),
                                ],
                            }
                        ),
                        None => Seq::empty(),
                    }
                )
            &&& forall|q: Seq<char>|
                q != pkg("packagingRepository"@)
                    && q != RDF_TYPE@
                    && q != VCS@ + "hostedOn"@
                    && q != VCS@ + "forgeUrl"@
                    && q != VCS@ + "forgeSoftware"@
                    && q != pkg("dqCollector"@)
                    && q != pkg("dqField"@)
                    && q != pkg("dqValue"@)
                    && q != pkg("dqIssueType"@)
                    && q != pkg("dqSeverity"@)
                    ==> #[trigger] said(last, q) == said(first, q)
        }),
{
    broadcast use {group_reading, group_vcs};

    reveal(forge_enrichment_step_2);
    reveal_strlit("packagingRepository");
    reveal_strlit("hostedOn");
    reveal_strlit("forgeUrl");
    reveal_strlit("forgeSoftware");
    reveal_strlit("dqCollector");
    reveal_strlit("dqField");
    reveal_strlit("dqValue");
    reveal_strlit("dqIssueType");
    reveal_strlit("dqSeverity");
    match field(fields, "Vcs-Git"@) {
        Some(vcs) => {
            let address = first_word_or_all(vcs);
            match forge_url(address) {
                Some(url) => {
                    let repo = repo_iri(url);
                    lemma_forge_told(
                        link(
                            link(w, identity, pkg("packagingRepository"@), repo),
                            repo,
                            RDF_TYPE@,
                            VCS@ + "Repository"@,
                        ),
                        repo,
                        url,
                    );
                },
                None => {
                    lemma_dq_issue_told(
                        w,
                        "debian"@,
                        "vcs-git"@,
                        address,
                        "vcs-git-no-forge-match"@,
                        "info"@,
                    );
                },
            }
        },
        None => {
        },
    }
}

#[verifier::opaque]
spec fn forge_enrichment_step_3(w: Sheet, fields: Map<Seq<char>, Seq<char>>) -> Sheet {
    match field(fields, "Vcs-Browser"@) {
        Some(browser) => {
            let w = match forge_url(browser) {
                Some(url) => {
                    let repo = repo_iri(url);
                    literal(w, repo, VCS@ + "repositoryBrowser"@, browser)
                },
                None => w,
            };
            w
        },
        None => w,
    }
}

proof fn lemma_forge_enrichment_step_3(w: Sheet, fields: Map<Seq<char>, Seq<char>>)
    ensures
        ({
            let first = w.log;
            let last = forge_enrichment_step_3(w, fields).log;
            &&& said(last, VCS@ + "repositoryBrowser"@) == said(first, VCS@ + "repositoryBrowser"@)
                + (
                    match field(fields, "Vcs-Browser"@) {
                        Some(browser) => (
                            match forge_url(browser) {
                                Some(url) => seq![to_text(repo_iri(url), browser)],
                                None => Seq::empty(),
                            }
                        ),
                        None => Seq::empty(),
                    }
                )
            &&& forall|q: Seq<char>|
                q != VCS@ + "repositoryBrowser"@ ==> #[trigger] said(last, q) == said(first, q)
        }),
{
    broadcast use {group_reading, group_vcs};

    reveal(forge_enrichment_step_3);
    reveal_strlit("repositoryBrowser");
}

/// What is said of the forges that a package names: its homepage is the repository
/// upstream, `Vcs-Git` the one of the packaging, `Vcs-Browser` a view of that; and each
/// fault in them.
pub open spec fn forge_enrichment_told(
    first: Seq<Fact>,
    last: Seq<Fact>,
    package_name: Seq<char>,
    identity: Seq<char>,
    fields: Map<Seq<char>, Seq<char>>,
) -> bool {
    &&& said(last, pkg("upstreamRepository"@)) == said(first, pkg("upstreamRepository"@))
        + (
            match field(fields, "Homepage"@) {
                Some(homepage) => (
                    match forge_url(homepage) {
                        Some(url) => seq![to_iri(identity, repo_iri(url))],
                        None => Seq::empty(),
                    }
                ),
                None => Seq::empty(),
            }
        )
    &&& said(last, RDF_TYPE@) == said(first, RDF_TYPE@)
        + (
            match field(fields, "Homepage"@) {
                Some(homepage) => (
                    match forge_url(homepage) {
                        Some(url) => seq![to_iri(repo_iri(url), VCS@ + "Repository"@)],
                        None => Seq::empty(),
                    }
                ),
                None => Seq::empty(),
            }
        )
        + (
            match field(fields, "Homepage"@) {
                Some(homepage) => (
                    match forge_url(homepage) {
                        Some(url) => seq![to_iri(res1("forge"@, host_of(url)), VCS@ + "Forge"@)],
                        None => Seq::empty(),
                    }
                ),
                None => Seq::empty(),
            }
        )
        + (
            match field(fields, "Homepage"@) {
                Some(homepage) => (
                    match forge_url(homepage) {
                        Some(url) => seq![to_iri(upstream_iri(url), pkg("UpstreamProject"@))],
                        None => Seq::empty(),
                    }
                ),
                None => Seq::empty(),
            }
        )
        + (
            match field(fields, "Homepage"@) {
                Some(homepage) => (
                    match forge_url(homepage) {
                        Some(url) => Seq::empty(),
                        None => seq![
                            to_iri(
                                issue_iri(
                                    ("debian"@),
                                    ("homepage"@),
                                    homepage,
                                    ("homepage-no-forge-match"@),
                                ),
                                pkg("DataQualityIssue"@),
                            ),
                        ],
                    }
                ),
                None => Seq::empty(),
            }
        )
        + (
            match field(fields, "Homepage"@) {
                Some(homepage) => Seq::empty(),
                None => seq![
                    to_iri(
                        issue_iri(("debian"@), ("homepage"@), package_name, ("missing-homepage"@)),
                        pkg("DataQualityIssue"@),
                    ),
                ],
            }
        )
        + (
            match field(fields, "Vcs-Git"@) {
                Some(vcs) => (
                    match forge_url(first_word_or_all(vcs)) {
                        Some(url) => seq![to_iri(repo_iri(url), VCS@ + "Repository"@)],
                        None => Seq::empty(),
                    }
                ),
                None => Seq::empty(),
            }
        )
        + (
            match field(fields, "Vcs-Git"@) {
                Some(vcs) => (
                    match forge_url(first_word_or_all(vcs)) {
                        Some(url) => seq![to_iri(res1("forge"@, host_of(url)), VCS@ + "Forge"@)],
                        None => Seq::empty(),
                    }
                ),
                None => Seq::empty(),
            }
        )
        + (
            match field(fields, "Vcs-Git"@) {
                Some(vcs) => (
                    match forge_url(first_word_or_all(vcs)) {
                        Some(url) => Seq::empty(),
                        None => seq![
                            to_iri(
                                issue_iri(
                                    ("debian"@),
                                    ("vcs-git"@),
                                    first_word_or_all(vcs),
                                    ("vcs-git-no-forge-match"@),
                                ),
                                pkg("DataQualityIssue"@),
                            ),
                        ],
                    }
                ),
                None => Seq::empty(),
            }
        )
    &&& said(last, VCS@ + "repositoryURL"@) == said(first, VCS@ + "repositoryURL"@)
        + (
            match field(fields, "Homepage"@) {
                Some(homepage) => (
                    match forge_url(homepage) {
                        Some(url) => seq![to_text(repo_iri(url), url)],
                        None => Seq::empty(),
                    }
                ),
                None => Seq::empty(),
            }
        )
    &&& said(last, VCS@ + "hostedOn"@) == said(first, VCS@ + "hostedOn"@)
        + (
            match field(fields, "Homepage"@) {
                Some(homepage) => (
                    match forge_url(homepage) {
                        Some(url) => seq![to_iri(repo_iri(url), res1("forge"@, host_of(url)))],
                        None => Seq::empty(),
                    }
                ),
                None => Seq::empty(),
            }
        )
        + (
            match field(fields, "Vcs-Git"@) {
                Some(vcs) => (
                    match forge_url(first_word_or_all(vcs)) {
                        Some(url) => seq![to_iri(repo_iri(url), res1("forge"@, host_of(url)))],
                        None => Seq::empty(),
                    }
                ),
                None => Seq::empty(),
            }
        )
    &&& said(last, VCS@ + "forgeUrl"@) == said(first, VCS@ + "forgeUrl"@)
        + (
            match field(fields, "Homepage"@) {
                Some(homepage) => (
                    match forge_url(homepage) {
                        Some(url) => seq![
                            to_text(res1("forge"@, host_of(url)), "https://"@ + host_of(url)),
                        ],
                        None => Seq::empty(),
                    }
                ),
                None => Seq::empty(),
            }
        )
        + (
            match field(fields, "Vcs-Git"@) {
                Some(vcs) => (
                    match forge_url(first_word_or_all(vcs)) {
                        Some(url) => seq![
                            to_text(res1("forge"@, host_of(url)), "https://"@ + host_of(url)),
                        ],
                        None => Seq::empty(),
                    }
                ),
                None => Seq::empty(),
            }
        )
    &&& said(last, VCS@ + "forgeSoftware"@) == said(first, VCS@ + "forgeSoftware"@)
        + (
            match field(fields, "Homepage"@) {
                Some(homepage) => (
                    match forge_url(homepage) {
                        Some(url) => seq![
                            to_text(
                                res1("forge"@, host_of(url)),
                                software_or_unknown(host_of(url)),
                            ),
                        ],
                        None => Seq::empty(),
                    }
                ),
                None => Seq::empty(),
            }
        )
        + (
            match field(fields, "Vcs-Git"@) {
                Some(vcs) => (
                    match forge_url(first_word_or_all(vcs)) {
                        Some(url) => seq![
                            to_text(
                                res1("forge"@, host_of(url)),
                                software_or_unknown(host_of(url)),
                            ),
                        ],
                        None => Seq::empty(),
                    }
                ),
                None => Seq::empty(),
            }
        )
    &&& said(last, pkg("projectName"@)) == said(first, pkg("projectName"@))
        + (
            match field(fields, "Homepage"@) {
                Some(homepage) => (
                    match forge_url(homepage) {
                        Some(url) => seq![to_text(upstream_iri(url), project_name(url))],
                        None => Seq::empty(),
                    }
                ),
                None => Seq::empty(),
            }
        )
    &&& said(last, pkg("projectRepository"@)) == said(first, pkg("projectRepository"@))
        + (
            match field(fields, "Homepage"@) {
                Some(homepage) => (
                    match forge_url(homepage) {
                        Some(url) => seq![to_iri(upstream_iri(url), repo_iri(url))],
                        None => Seq::empty(),
                    }
                ),
                None => Seq::empty(),
            }
        )
    &&& said(last, pkg("dqCollector"@)) == said(first, pkg("dqCollector"@))
        + (
            match field(fields, "Homepage"@) {
                Some(homepage) => (
                    match forge_url(homepage) {
                        Some(url) => Seq::empty(),
                        None => seq![
                            to_text(
                                issue_iri(
                                    ("debian"@),
                                    ("homepage"@),
                                    homepage,
                                    ("homepage-no-forge-match"@),
                                ),
                                ("debian"@),
                            ),
                        ],
                    }
                ),
                None => Seq::empty(),
            }
        )
        + (
            match field(fields, "Homepage"@) {
                Some(homepage) => Seq::empty(),
                None => seq![
                    to_text(
                        issue_iri(("debian"@), ("homepage"@), package_name, ("missing-homepage"@)),
                        ("debian"@),
                    ),
                ],
            }
        )
        + (
            match field(fields, "Vcs-Git"@) {
                Some(vcs) => (
                    match forge_url(first_word_or_all(vcs)) {
                        Some(url) => Seq::empty(),
                        None => seq![
                            to_text(
                                issue_iri(
                                    ("debian"@),
                                    ("vcs-git"@),
                                    first_word_or_all(vcs),
                                    ("vcs-git-no-forge-match"@),
                                ),
                                ("debian"@),
                            ),
                        ],
                    }
                ),
                None => Seq::empty(),
            }
        )
    &&& said(last, pkg("dqField"@)) == said(first, pkg("dqField"@))
        + (
            match field(fields, "Homepage"@) {
                Some(homepage) => (
                    match forge_url(homepage) {
                        Some(url) => Seq::empty(),
                        None => seq![
                            to_text(
                                issue_iri(
                                    ("debian"@),
                                    ("homepage"@),
                                    homepage,
                                    ("homepage-no-forge-match"@),
                                ),
                                ("homepage"@),
                            ),
                        ],
                    }
                ),
                None => Seq::empty(),
            }
        )
        + (
            match field(fields, "Homepage"@) {
                Some(homepage) => Seq::empty(),
                None => seq![
                    to_text(
                        issue_iri(("debian"@), ("homepage"@), package_name, ("missing-homepage"@)),
                        ("homepage"@),
                    ),
                ],
            }
        )
        + (
            match field(fields, "Vcs-Git"@) {
                Some(vcs) => (
                    match forge_url(first_word_or_all(vcs)) {
                        Some(url) => Seq::empty(),
                        None => seq![
                            to_text(
                                issue_iri(
                                    ("debian"@),
                                    ("vcs-git"@),
                                    first_word_or_all(vcs),
                                    ("vcs-git-no-forge-match"@),
                                ),
                                ("vcs-git"@),
                            ),
                        ],
                    }
                ),
                None => Seq::empty(),
            }
        )
    &&& said(last, pkg("dqValue"@)) == said(first, pkg("dqValue"@))
        + (
            match field(fields, "Homepage"@) {
                Some(homepage) => (
                    match forge_url(homepage) {
                        Some(url) => Seq::empty(),
                        None => seq![
                            to_text(
                                issue_iri(
                                    ("debian"@),
                                    ("homepage"@),
                                    homepage,
                                    ("homepage-no-forge-match"@),
                                ),
                                homepage,
                            ),
                        ],
                    }
                ),
                None => Seq::empty(),
            }
        )
        + (
            match field(fields, "Homepage"@) {
                Some(homepage) => Seq::empty(),
                None => seq![
                    to_text(
                        issue_iri(("debian"@), ("homepage"@), package_name, ("missing-homepage"@)),
                        package_name,
                    ),
                ],
            }
        )
        + (
            match field(fields, "Vcs-Git"@) {
                Some(vcs) => (
                    match forge_url(first_word_or_all(vcs)) {
                        Some(url) => Seq::empty(),
                        None => seq![
                            to_text(
                                issue_iri(
                                    ("debian"@),
                                    ("vcs-git"@),
                                    first_word_or_all(vcs),
                                    ("vcs-git-no-forge-match"@),
                                ),
                                first_word_or_all(vcs),
                            ),
                        ],
                    }
                ),
                None => Seq::empty(),
            }
        )
    &&& said(last, pkg("dqIssueType"@)) == said(first, pkg("dqIssueType"@))
        + (
            match field(fields, "Homepage"@) {
                Some(homepage) => (
                    match forge_url(homepage) {
                        Some(url) => Seq::empty(),
                        None => seq![
                            to_text(
                                issue_iri(
                                    ("debian"@),
                                    ("homepage"@),
                                    homepage,
                                    ("homepage-no-forge-match"@),
                                ),
                                ("homepage-no-forge-match"@),
                            ),
                        ],
                    }
                ),
                None => Seq::empty(),
            }
        )
        + (
            match field(fields, "Homepage"@) {
                Some(homepage) => Seq::empty(),
                None => seq![
                    to_text(
                        issue_iri(("debian"@), ("homepage"@), package_name, ("missing-homepage"@)),
                        ("missing-homepage"@),
                    ),
                ],
            }
        )
        + (
            match field(fields, "Vcs-Git"@) {
                Some(vcs) => (
                    match forge_url(first_word_or_all(vcs)) {
                        Some(url) => Seq::empty(),
                        None => seq![
                            to_text(
                                issue_iri(
                                    ("debian"@),
                                    ("vcs-git"@),
                                    first_word_or_all(vcs),
                                    ("vcs-git-no-forge-match"@),
                                ),
                                ("vcs-git-no-forge-match"@),
                            ),
                        ],
                    }
                ),
                None => Seq::empty(),
            }
        )
    &&& said(last, pkg("dqSeverity"@)) == said(first, pkg("dqSeverity"@))
        + (
            match field(fields, "Homepage"@) {
                Some(homepage) => (
                    match forge_url(homepage) {
                        Some(url) => Seq::empty(),
                        None => seq![
                            to_text(
                                issue_iri(
                                    ("debian"@),
                                    ("homepage"@),
                                    homepage,
                                    ("homepage-no-forge-match"@),
                                ),
                                ("info"@),
                            ),
                        ],
                    }
                ),
                None => Seq::empty(),
            }
        )
        + (
            match field(fields, "Homepage"@) {
                Some(homepage) => Seq::empty(),
                None => seq![
                    to_text(
                        issue_iri(("debian"@), ("homepage"@), package_name, ("missing-homepage"@)),
                        ("info"@),
                    ),
                ],
            }
        )
        + (
            match field(fields, "Vcs-Git"@) {
                Some(vcs) => (
                    match forge_url(first_word_or_all(vcs)) {
                        Some(url) => Seq::empty(),
                        None => seq![
                            to_text(
                                issue_iri(
                                    ("debian"@),
                                    ("vcs-git"@),
                                    first_word_or_all(vcs),
                                    ("vcs-git-no-forge-match"@),
                                ),
                                ("info"@),
                            ),
                        ],
                    }
                ),
                None => Seq::empty(),
            }
        )
    &&& said(last, pkg("packagingRepository"@)) == said(first, pkg("packagingRepository"@))
        + (
            match field(fields, "Vcs-Git"@) {
                Some(vcs) => (
                    match forge_url(first_word_or_all(vcs)) {
                        Some(url) => seq![to_iri(identity, repo_iri(url))],
                        None => Seq::empty(),
                    }
                ),
                None => Seq::empty(),
            }
        )
    &&& said(last, VCS@ + "repositoryBrowser"@) == said(first, VCS@ + "repositoryBrowser"@)
        + (
            match field(fields, "Vcs-Browser"@) {
                Some(browser) => (
                    match forge_url(browser) {
                        Some(url) => seq![to_text(repo_iri(url), browser)],
                        None => Seq::empty(),
                    }
                ),
                None => Seq::empty(),
            }
        )
    &&& forall|q: Seq<char>|
        q != pkg("upstreamRepository"@)
            && q != RDF_TYPE@
            && q != VCS@ + "repositoryURL"@
            && q != VCS@ + "hostedOn"@
            && q != VCS@ + "forgeUrl"@
            && q != VCS@ + "forgeSoftware"@
            && q != pkg("projectName"@)
            && q != pkg("projectRepository"@)
            && q != pkg("dqCollector"@)
            && q != pkg("dqField"@)
            && q != pkg("dqValue"@)
            && q != pkg("dqIssueType"@)
            && q != pkg("dqSeverity"@)
            && q != pkg("packagingRepository"@)
            && q != VCS@ + "repositoryBrowser"@
            ==> #[trigger] said(last, q) == said(first, q)
}

proof fn lemma_forge_enrichment_in_steps(
    w: Sheet,
    package_name: Seq<char>,
    identity: Seq<char>,
    fields: Map<Seq<char>, Seq<char>>,
)
    ensures
        with_forge_enrichment(w, package_name, identity, fields) == ({
            let w = forge_enrichment_step_1(w, package_name, identity, fields);
            let w = forge_enrichment_step_2(w, identity, fields);
            let w = forge_enrichment_step_3(w, fields);
            w
        }),
{
    reveal(forge_enrichment_step_1);
    reveal(forge_enrichment_step_2);
    reveal(forge_enrichment_step_3);
}

proof fn lemma_forge_enrichment_steps(
    w: Sheet,
    package_name: Seq<char>,
    identity: Seq<char>,
    fields: Map<Seq<char>, Seq<char>>,
)
    ensures
        forge_enrichment_told(w.log, ({
            let w = forge_enrichment_step_1(w, package_name, identity, fields);
            let w = forge_enrichment_step_2(w, identity, fields);
            let w = forge_enrichment_step_3(w, fields);
            w
        }).log, package_name, identity, fields),
{
    broadcast use {group_writes, group_vcs};

    reveal_strlit("upstreamRepository");
    reveal_strlit("repositoryURL");
    reveal_strlit("hostedOn");
    reveal_strlit("forgeUrl");
    reveal_strlit("forgeSoftware");
    reveal_strlit("projectName");
    reveal_strlit("projectRepository");
    reveal_strlit("dqCollector");
    reveal_strlit("dqField");
    reveal_strlit("dqValue");
    reveal_strlit("dqIssueType");
    reveal_strlit("dqSeverity");
    reveal_strlit("packagingRepository");
    reveal_strlit("repositoryBrowser");
    let w1 = forge_enrichment_step_1(w, package_name, identity, fields);
    lemma_forge_enrichment_step_1(w, package_name, identity, fields);
    let w2 = forge_enrichment_step_2(w1, identity, fields);
    lemma_forge_enrichment_step_2(w1, identity, fields);
    let w3 = forge_enrichment_step_3(w2, fields);
    lemma_forge_enrichment_step_3(w2, fields);
}

/// What [`with_forge_enrichment`] writes says what [`forge_enrichment_told`] states.
pub proof fn lemma_forge_enrichment_told(
    w: Sheet,
    package_name: Seq<char>,
    identity: Seq<char>,
    fields: Map<Seq<char>, Seq<char>>,
)
    ensures
        forge_enrichment_told(
            w.log,
            with_forge_enrichment(w, package_name, identity, fields).log,
            package_name,
            identity,
            fields,
        ),
{
    lemma_forge_enrichment_in_steps(w, package_name, identity, fields);
    lemma_forge_enrichment_steps(w, package_name, identity, fields);
}

#[verifier::opaque]
spec fn package_core_step_1(
    w: Sheet,
    package: Seq<char>,
    fields: Map<Seq<char>, Seq<char>>,
) -> Sheet {
    match field(fields, "Size"@) {
        Some(x) => { number_if(w, package, pkg("packageSize"@), i64_value(x)) },
        None => w,
    }
}

proof fn lemma_package_core_step_1(w: Sheet, package: Seq<char>, fields: Map<Seq<char>, Seq<char>>)
    ensures
        ({
            let first = w.log;
            let last = package_core_step_1(w, package, fields).log;
            &&& said(last, pkg("packageSize"@)) == said(first, pkg("packageSize"@))
                + (
                    match field(fields, "Size"@) {
                        Some(x) => number_if_any(package, i64_value(x)),
                        None => Seq::empty(),
                    }
                )
            &&& forall|q: Seq<char>|
                q != pkg("packageSize"@) ==> #[trigger] said(last, q) == said(first, q)
        }),
{
    broadcast use group_reading;

    reveal(package_core_step_1);
    reveal_strlit("packageSize");
}

#[verifier::opaque]
spec fn package_core_step_2(
    w: Sheet,
    package: Seq<char>,
    fields: Map<Seq<char>, Seq<char>>,
) -> Sheet {
    match field(fields, "Maintainer"@) {
        Some(x) => { with_maintainer_triples(w, package, x) },
        None => w,
    }
}

proof fn lemma_package_core_step_2(w: Sheet, package: Seq<char>, fields: Map<Seq<char>, Seq<char>>)
    ensures
        ({
            let first = w.log;
            let last = package_core_step_2(w, package, fields).log;
            &&& said(last, RDF_TYPE@) == said(first, RDF_TYPE@)
                + (
                    match field(fields, "Maintainer"@) {
                        Some(x) => (
                            match contact_of(regex_captures(MAINTAINER@, x)) {
                                Some(who) => seq![
                                    to_iri(maintainer_iri(who.email), pkg("Person"@)),
                                ],
                                None => Seq::empty(),
                            }
                        ),
                        None => Seq::empty(),
                    }
                )
            &&& said(last, FOAF@ + "name"@) == said(first, FOAF@ + "name"@)
                + (
                    match field(fields, "Maintainer"@) {
                        Some(x) => (
                            match contact_of(regex_captures(MAINTAINER@, x)) {
                                Some(who) => seq![to_text(maintainer_iri(who.email), who.name)],
                                None => Seq::empty(),
                            }
                        ),
                        None => Seq::empty(),
                    }
                )
            &&& said(last, RDFS_LABEL@) == said(first, RDFS_LABEL@)
                + (
                    match field(fields, "Maintainer"@) {
                        Some(x) => (
                            match contact_of(regex_captures(MAINTAINER@, x)) {
                                Some(who) => seq![to_text(maintainer_iri(who.email), who.name)],
                                None => Seq::empty(),
                            }
                        ),
                        None => Seq::empty(),
                    }
                )
            &&& said(last, FOAF@ + "mbox"@) == said(first, FOAF@ + "mbox"@)
                + (
                    match field(fields, "Maintainer"@) {
                        Some(x) => (
                            match contact_of(regex_captures(MAINTAINER@, x)) {
                                Some(who) => seq![
                                    to_iri(maintainer_iri(who.email), "mailto:"@ + who.email),
                                ],
                                None => Seq::empty(),
                            }
                        ),
                        None => Seq::empty(),
                    }
                )
            &&& said(last, pkg("maintainedBy"@)) == said(first, pkg("maintainedBy"@))
                + (
                    match field(fields, "Maintainer"@) {
                        Some(x) => (
                            match contact_of(regex_captures(MAINTAINER@, x)) {
                                Some(who) => seq![to_iri(package, maintainer_iri(who.email))],
                                None => Seq::empty(),
                            }
                        ),
                        None => Seq::empty(),
                    }
                )
            &&& forall|q: Seq<char>|
                q != RDF_TYPE@
                    && q != FOAF@ + "name"@
                    && q != RDFS_LABEL@
                    && q != FOAF@ + "mbox"@
                    && q != pkg("maintainedBy"@)
                    ==> #[trigger] said(last, q) == said(first, q)
        }),
{
    broadcast use {group_reading, group_foaf};

    reveal(package_core_step_2);
    reveal_strlit("name");
    reveal_strlit("mbox");
    reveal_strlit("maintainedBy");
    match field(fields, "Maintainer"@) {
        Some(x) => {
            lemma_maintainer_told(w, package, x);
        },
        None => {
        },
    }
}

/// What is said of a package itself: what it is, its name and version and the identity that
/// it is a version of, its architecture, distribution and release, its suite and component,
/// and each field that it has by the property of that field.
pub open spec fn package_core_told(
    first: Seq<Fact>,
    last: Seq<Fact>,
    c: DebianCollector,
    package: Seq<char>,
    identity: Seq<char>,
    fields: Map<Seq<char>, Seq<char>>,
    name: Seq<char>,
    version: Seq<char>,
    codename: Seq<char>,
    suite: Seq<char>,
    arch: Seq<char>,
    size: Option<i64>,
) -> bool {
    let locator = purl("deb"@, c.distro_name@, name, version, arch);
    let ver = version_iri(c.distro_name@, codename, name, version);
    &&& said(last, RDF_TYPE@) == said(first, RDF_TYPE@)
        + seq![to_iri(package, pkg("BinaryPackage"@))]
        + seq![to_iri(package, DEB@ + "BinaryPackage"@)]
        + seq![to_iri(identity, pkg("PackageIdentity"@))]
        + seq![to_iri(ver, pkg("Version"@))]
        + (
            match field(fields, "Maintainer"@) {
                Some(x) => (
                    match contact_of(regex_captures(MAINTAINER@, x)) {
                        Some(who) => seq![to_iri(maintainer_iri(who.email), pkg("Person"@))],
                        None => Seq::empty(),
                    }
                ),
                None => Seq::empty(),
            }
        )
    &&& said(last, pkg("packageName"@)) == said(first, pkg("packageName"@))
        + seq![to_text(identity, name)]
        + seq![to_text(package, name)]
    &&& said(last, pkg("isVersionOf"@)) == said(first, pkg("isVersionOf"@))
        + seq![to_iri(package, identity)]
    &&& said(last, pkg("purl"@)) == said(first, pkg("purl"@))
        + seq![(Term::Iri(identity), Term::Typed(locator, xsd("anyURI"@)))]
    &&& said(last, pkg("versionString"@)) == said(first, pkg("versionString"@))
        + seq![to_text(ver, version)]
    &&& said(last, pkg("hasVersion"@)) == said(first, pkg("hasVersion"@))
        + seq![to_iri(package, ver)]
    &&& said(last, pkg("targetArchitecture"@)) == said(first, pkg("targetArchitecture"@))
        + seq![to_iri(package, arch_iri(arch))]
    &&& said(last, pkg("partOfDistribution"@)) == said(first, pkg("partOfDistribution"@))
        + seq![to_iri(package, distro_iri(c.distro_name@))]
    &&& said(last, pkg("partOfRelease"@)) == said(first, pkg("partOfRelease"@))
        + seq![to_iri(package, release_iri(c.distro_name@, codename))]
    &&& said(last, pkg("description"@)) == said(first, pkg("description"@))
        + text_if(package, field(fields, "Description"@))
    &&& said(last, pkg("homepage"@)) == said(first, pkg("homepage"@))
        + text_if(package, field(fields, "Homepage"@))
    &&& said(last, pkg("installSize"@)) == said(first, pkg("installSize"@))
        + number_if_any(package, size)
    &&& said(last, pkg("packageSize"@)) == said(first, pkg("packageSize"@))
        + (
            match field(fields, "Size"@) {
                Some(x) => number_if_any(package, i64_value(x)),
                None => Seq::empty(),
            }
        )
    &&& said(last, pkg("checksum"@)) == said(first, pkg("checksum"@))
        + text_if(package, field(fields, "SHA256"@))
    &&& said(last, DEB@ + "inSuite"@) == said(first, DEB@ + "inSuite"@)
        + seq![to_text(package, suite)]
    &&& said(last, DEB@ + "inComponent"@) == said(first, DEB@ + "inComponent"@)
        + seq![to_text(package, c.component@)]
    &&& said(last, FOAF@ + "name"@) == said(first, FOAF@ + "name"@)
        + (
            match field(fields, "Maintainer"@) {
                Some(x) => (
                    match contact_of(regex_captures(MAINTAINER@, x)) {
                        Some(who) => seq![to_text(maintainer_iri(who.email), who.name)],
                        None => Seq::empty(),
                    }
                ),
                None => Seq::empty(),
            }
        )
    &&& said(last, RDFS_LABEL@) == said(first, RDFS_LABEL@)
        + (
            match field(fields, "Maintainer"@) {
                Some(x) => (
                    match contact_of(regex_captures(MAINTAINER@, x)) {
                        Some(who) => seq![to_text(maintainer_iri(who.email), who.name)],
                        None => Seq::empty(),
                    }
                ),
                None => Seq::empty(),
            }
        )
    &&& said(last, FOAF@ + "mbox"@) == said(first, FOAF@ + "mbox"@)
        + (
            match field(fields, "Maintainer"@) {
                Some(x) => (
                    match contact_of(regex_captures(MAINTAINER@, x)) {
                        Some(who) => seq![
                            to_iri(maintainer_iri(who.email), "mailto:"@ + who.email),
                        ],
                        None => Seq::empty(),
                    }
                ),
                None => Seq::empty(),
            }
        )
    &&& said(last, pkg("maintainedBy"@)) == said(first, pkg("maintainedBy"@))
        + (
            match field(fields, "Maintainer"@) {
                Some(x) => (
                    match contact_of(regex_captures(MAINTAINER@, x)) {
                        Some(who) => seq![to_iri(package, maintainer_iri(who.email))],
                        None => Seq::empty(),
                    }
                ),
                None => Seq::empty(),
            }
        )
    &&& forall|q: Seq<char>|
        q != RDF_TYPE@
            && q != pkg("packageName"@)
            && q != pkg("isVersionOf"@)
            && q != pkg("purl"@)
            && q != pkg("versionString"@)
            && q != pkg("hasVersion"@)
            && q != pkg("targetArchitecture"@)
            && q != pkg("partOfDistribution"@)
            && q != pkg("partOfRelease"@)
            && q != pkg("description"@)
            && q != pkg("homepage"@)
            && q != pkg("installSize"@)
            && q != pkg("packageSize"@)
            && q != pkg("checksum"@)
            && q != DEB@ + "inSuite"@
            && q != DEB@ + "inComponent"@
            && q != FOAF@ + "name"@
            && q != RDFS_LABEL@
            && q != FOAF@ + "mbox"@
            && q != pkg("maintainedBy"@)
            ==> #[trigger] said(last, q) == said(first, q)
}

proof fn lemma_package_core_in_steps(
    w: Sheet,
    c: DebianCollector,
    package: Seq<char>,
    identity: Seq<char>,
    fields: Map<Seq<char>, Seq<char>>,
    name: Seq<char>,
    version: Seq<char>,
    codename: Seq<char>,
    suite: Seq<char>,
    arch: Seq<char>,
    size: Option<i64>,
)
    ensures
        with_package_core(
            w,
            c,
            package,
            identity,
            fields,
            name,
            version,
            codename,
            suite,
            arch,
            size,
        )
            == ({
            let w = link(w, package, RDF_TYPE@, pkg("BinaryPackage"@));
            let w = link(w, package, RDF_TYPE@, DEB@ + "BinaryPackage"@);
            let w = link(w, identity, RDF_TYPE@, pkg("PackageIdentity"@));
            let w = literal(w, identity, pkg("packageName"@), name);
            let w = link(w, package, pkg("isVersionOf"@), identity);
            let locator = purl("deb"@, c.distro_name@, name, version, arch);
            let w = typed(w, identity, pkg("purl"@), locator, xsd("anyURI"@));
            let w = literal(w, package, pkg("packageName"@), name);
            let ver = version_iri(c.distro_name@, codename, name, version);
            let w = link(w, ver, RDF_TYPE@, pkg("Version"@));
            let w = literal(w, ver, pkg("versionString"@), version);
            let w = link(w, package, pkg("hasVersion"@), ver);
            let w = link(w, package, pkg("targetArchitecture"@), arch_iri(arch));
            let w = link(w, package, pkg("partOfDistribution"@), distro_iri(c.distro_name@));
            let w = link(w, package, pkg("partOfRelease"@), release_iri(c.distro_name@, codename));
            let w = maybe_literal(w, package, pkg("description"@), field(fields, "Description"@));
            let w = maybe_literal(w, package, pkg("homepage"@), field(fields, "Homepage"@));
            let w = maybe_number(w, package, pkg("installSize"@), size);
            let w = package_core_step_1(w, package, fields);
            let w = maybe_literal(w, package, pkg("checksum"@), field(fields, "SHA256"@));
            let w = literal(w, package, DEB@ + "inSuite"@, suite);
            let w = literal(w, package, DEB@ + "inComponent"@, c.component@);
            let w = package_core_step_2(w, package, fields);
            w
        }),
{
    reveal(maybe_literal);
    reveal(maybe_number);
    reveal(package_core_step_1);
    reveal(package_core_step_2);
}

proof fn lemma_package_core_steps(
    w: Sheet,
    c: DebianCollector,
    package: Seq<char>,
    identity: Seq<char>,
    fields: Map<Seq<char>, Seq<char>>,
    name: Seq<char>,
    version: Seq<char>,
    codename: Seq<char>,
    suite: Seq<char>,
    arch: Seq<char>,
    size: Option<i64>,
)
    ensures
        package_core_told(w.log, ({
            let w = link(w, package, RDF_TYPE@, pkg("BinaryPackage"@));
            let w = link(w, package, RDF_TYPE@, DEB@ + "BinaryPackage"@);
            let w = link(w, identity, RDF_TYPE@, pkg("PackageIdentity"@));
            let w = literal(w, identity, pkg("packageName"@), name);
            let w = link(w, package, pkg("isVersionOf"@), identity);
            let locator = purl("deb"@, c.distro_name@, name, version, arch);
            let w = typed(w, identity, pkg("purl"@), locator, xsd("anyURI"@));
            let w = literal(w, package, pkg("packageName"@), name);
            let ver = version_iri(c.distro_name@, codename, name, version);
            let w = link(w, ver, RDF_TYPE@, pkg("Version"@));
            let w = literal(w, ver, pkg("versionString"@), version);
            let w = link(w, package, pkg("hasVersion"@), ver);
            let w = link(w, package, pkg("targetArchitecture"@), arch_iri(arch));
            let w = link(w, package, pkg("partOfDistribution"@), distro_iri(c.distro_name@));
            let w = link(w, package, pkg("partOfRelease"@), release_iri(c.distro_name@, codename));
            let w = maybe_literal(w, package, pkg("description"@), field(fields, "Description"@));
            let w = maybe_literal(w, package, pkg("homepage"@), field(fields, "Homepage"@));
            let w = maybe_number(w, package, pkg("installSize"@), size);
            let w = package_core_step_1(w, package, fields);
            let w = maybe_literal(w, package, pkg("checksum"@), field(fields, "SHA256"@));
            let w = literal(w, package, DEB@ + "inSuite"@, suite);
            let w = literal(w, package, DEB@ + "inComponent"@, c.component@);
            let w = package_core_step_2(w, package, fields);
            w
        }).log, c, package, identity, fields, name, version, codename, suite, arch, size),
{
    broadcast use {group_writes, group_deb, group_foaf};

    reveal_strlit("packageName");
    reveal_strlit("isVersionOf");
    reveal_strlit("purl");
    reveal_strlit("versionString");
    reveal_strlit("hasVersion");
    reveal_strlit("targetArchitecture");
    reveal_strlit("partOfDistribution");
    reveal_strlit("partOfRelease");
    reveal_strlit("description");
    reveal_strlit("homepage");
    reveal_strlit("installSize");
    reveal_strlit("packageSize");
    reveal_strlit("checksum");
    reveal_strlit("inSuite");
    reveal_strlit("inComponent");
    reveal_strlit("name");
    reveal_strlit("mbox");
    reveal_strlit("maintainedBy");
    let w1 = link(w, package, RDF_TYPE@, pkg("BinaryPackage"@));
    let w2 = link(w1, package, RDF_TYPE@, DEB@ + "BinaryPackage"@);
    let w3 = link(w2, identity, RDF_TYPE@, pkg("PackageIdentity"@));
    let w4 = literal(w3, identity, pkg("packageName"@), name);
    let w5 = link(w4, package, pkg("isVersionOf"@), identity);
    let locator = purl("deb"@, c.distro_name@, name, version, arch);
    let w6 = typed(w5, identity, pkg("purl"@), locator, xsd("anyURI"@));
    let w7 = literal(w6, package, pkg("packageName"@), name);
    let ver = version_iri(c.distro_name@, codename, name, version);
    let w8 = link(w7, ver, RDF_TYPE@, pkg("Version"@));
    let w9 = literal(w8, ver, pkg("versionString"@), version);
    let w10 = link(w9, package, pkg("hasVersion"@), ver);
    let w11 = link(w10, package, pkg("targetArchitecture"@), arch_iri(arch));
    let w12 = link(w11, package, pkg("partOfDistribution"@), distro_iri(c.distro_name@));
    let w13 = link(w12, package, pkg("partOfRelease"@), release_iri(c.distro_name@, codename));
    let w14 = maybe_literal(w13, package, pkg("description"@), field(fields, "Description"@));
    let w15 = maybe_literal(w14, package, pkg("homepage"@), field(fields, "Homepage"@));
    let w16 = maybe_number(w15, package, pkg("installSize"@), size);
    let w17 = package_core_step_1(w16, package, fields);
    lemma_package_core_step_1(w16, package, fields);
    let w18 = maybe_literal(w17, package, pkg("checksum"@), field(fields, "SHA256"@));
    let w19 = literal(w18, package, DEB@ + "inSuite"@, suite);
    let w20 = literal(w19, package, DEB@ + "inComponent"@, c.component@);
    let w21 = package_core_step_2(w20, package, fields);
    lemma_package_core_step_2(w20, package, fields);
}

/// What [`with_package_core`] writes says what [`package_core_told`] states.
pub proof fn lemma_package_core_told(
    w: Sheet,
    c: DebianCollector,
    package: Seq<char>,
    identity: Seq<char>,
    fields: Map<Seq<char>, Seq<char>>,
    name: Seq<char>,
    version: Seq<char>,
    codename: Seq<char>,
    suite: Seq<char>,
    arch: Seq<char>,
    size: Option<i64>,
)
    ensures
        package_core_told(
            w.log,
            with_package_core(
                w,
                c,
                package,
                identity,
                fields,
                name,
                version,
                codename,
                suite,
                arch,
                size,
            ).log,
            c,
            package,
            identity,
            fields,
            name,
            version,
            codename,
            suite,
            arch,
            size,
        ),
{
    lemma_package_core_in_steps(
        w,
        c,
        package,
        identity,
        fields,
        name,
        version,
        codename,
        suite,
        arch,
        size,
    );
    lemma_package_core_steps(
        w,
        c,
        package,
        identity,
        fields,
        name,
        version,
        codename,
        suite,
        arch,
        size,
    );
}

/// What is said of an architecture.
pub open spec fn architecture_told(
    first: Seq<Fact>,
    last: Seq<Fact>,
    arch: Seq<char>,
) -> bool {
    let name = arch_name(arch);
    let node = arch_iri(name);
    &&& said(last, RDF_TYPE@) == said(first, RDF_TYPE@) + seq![to_iri(node, pkg("Architecture"@))]
    &&& said(last, pkg("architectureName"@)) == said(first, pkg("architectureName"@))
        + seq![to_text(node, name)]
    &&& forall|q: Seq<char>|
        q != RDF_TYPE@ && q != pkg("architectureName"@)
            ==> #[trigger] said(last, q) == said(first, q)
}

proof fn lemma_architecture_in_steps(w: Sheet, arch: Seq<char>)
    ensures
        with_architecture(w, arch) == ({
            let name = arch_name(arch);
            let node = arch_iri(name);
            let w = link(w, node, RDF_TYPE@, pkg("Architecture"@));
            let w = literal(w, node, pkg("architectureName"@), name);
            w
        }),
{
}

proof fn lemma_architecture_steps(w: Sheet, arch: Seq<char>)
    ensures
        architecture_told(w.log, ({
            let name = arch_name(arch);
            let node = arch_iri(name);
            let w = link(w, node, RDF_TYPE@, pkg("Architecture"@));
            let w = literal(w, node, pkg("architectureName"@), name);
            w
        }).log, arch),
{
    broadcast use group_writes;

    reveal_strlit("architectureName");
    let name = arch_name(arch);
    let node = arch_iri(name);
    let w1 = link(w, node, RDF_TYPE@, pkg("Architecture"@));
    let w2 = literal(w1, node, pkg("architectureName"@), name);
}

/// What [`with_architecture`] writes says what [`architecture_told`] states.
pub proof fn lemma_architecture_told(
    w: Sheet,
    arch: Seq<char>,
)
    ensures
        architecture_told(w.log, with_architecture(w, arch).log, arch),
{
    lemma_architecture_in_steps(w, arch);
    lemma_architecture_steps(w, arch);
}

proof fn lemma_each_architecture_told(w: Sheet, items: Seq<Seq<char>>, n: nat)
    ensures
        ({
            let first = w.log;
            let last = with_each_architecture(w, items, n).log;
            &&& said(last, RDF_TYPE@) == said(first, RDF_TYPE@)
                + in_turn(
                    |k: int| seq![to_iri(arch_iri(arch_name((items[k]))), pkg("Architecture"@))],
                    n,
                )
            &&& said(last, pkg("architectureName"@)) == said(first, pkg("architectureName"@))
                + in_turn(
                    |k: int| seq![to_text(arch_iri(arch_name((items[k]))), arch_name((items[k])))],
                    n,
                )
            &&& forall|q: Seq<char>|
                q != RDF_TYPE@ && q != pkg("architectureName"@)
                    ==> #[trigger] said(last, q) == said(first, q)
        }),
    decreases n,
{
    broadcast use group_writes;

    reveal_strlit("architectureName");
    if n > 0 {
        lemma_each_architecture_told(w, items, (n - 1) as nat);
        lemma_architecture_told(with_each_architecture(w, items, (n - 1) as nat), items[n - 1]);
    }
}

/// What is said of the distribution, its release and its architectures.
pub open spec fn distribution_told(
    first: Seq<Fact>,
    last: Seq<Fact>,
    c: DebianCollector,
    info: ReleaseText,
    arches: Seq<Seq<char>>,
) -> bool {
    let dist = distro_iri(c.distro_name@);
    let label = display_name(c.distro_name@);
    let rel = release_iri(c.distro_name@, info.codename);
    &&& said(last, RDF_TYPE@) == said(first, RDF_TYPE@)
        + seq![to_iri(dist, pkg("Distribution"@))]
        + seq![to_iri(rel, pkg("DistributionRelease"@))]
        + in_turn(
            |k: int| seq![to_iri(arch_iri(arch_name((arches[k]))), pkg("Architecture"@))],
            (arches.len()),
        )
    &&& said(last, pkg("distributionName"@)) == said(first, pkg("distributionName"@))
        + seq![to_text(dist, c.distro_name@)]
    &&& said(last, RDFS_LABEL@) == said(first, RDFS_LABEL@) + seq![to_text(dist, label)]
    &&& said(last, pkg("releaseCodename"@)) == said(first, pkg("releaseCodename"@))
        + seq![to_text(rel, info.codename)]
    &&& said(last, pkg("releaseSuite"@)) == said(first, pkg("releaseSuite"@))
        + seq![to_text(rel, info.suite)]
    &&& said(last, pkg("releaseOrigin"@)) == said(first, pkg("releaseOrigin"@))
        + seq![to_text(rel, info.origin)]
    &&& said(last, pkg("partOfDistribution"@)) == said(first, pkg("partOfDistribution"@))
        + seq![to_iri(rel, dist)]
    &&& said(last, pkg("repoType"@)) == said(first, pkg("repoType"@))
        + seq![to_text(rel, c.repo_type@)]
    &&& said(last, pkg("repoSourceURL"@)) == said(first, pkg("repoSourceURL"@))
        + seq![to_text(rel, c.repo_url@)]
    &&& said(last, pkg("architectureName"@)) == said(first, pkg("architectureName"@))
        + in_turn(
            |k: int| seq![to_text(arch_iri(arch_name((arches[k]))), arch_name((arches[k])))],
            (arches.len()),
        )
    &&& forall|q: Seq<char>|
        q != RDF_TYPE@
            && q != pkg("distributionName"@)
            && q != RDFS_LABEL@
            && q != pkg("releaseCodename"@)
            && q != pkg("releaseSuite"@)
            && q != pkg("releaseOrigin"@)
            && q != pkg("partOfDistribution"@)
            && q != pkg("repoType"@)
            && q != pkg("repoSourceURL"@)
            && q != pkg("architectureName"@)
            ==> #[trigger] said(last, q) == said(first, q)
}

proof fn lemma_distribution_in_steps(
    w: Sheet,
    c: DebianCollector,
    info: ReleaseText,
    arches: Seq<Seq<char>>,
)
    ensures
        with_distribution_metadata(w, c, info, arches) == ({
            let dist = distro_iri(c.distro_name@);
            let w = link(w, dist, RDF_TYPE@, pkg("Distribution"@));
            let w = literal(w, dist, pkg("distributionName"@), c.distro_name@);
            let label = display_name(c.distro_name@);
            let w = literal(w, dist, RDFS_LABEL@, label);
            let rel = release_iri(c.distro_name@, info.codename);
            let w = link(w, rel, RDF_TYPE@, pkg("DistributionRelease"@));
            let w = literal(w, rel, pkg("releaseCodename"@), info.codename);
            let w = literal(w, rel, pkg("releaseSuite"@), info.suite);
            let w = literal(w, rel, pkg("releaseOrigin"@), info.origin);
            let w = link(w, rel, pkg("partOfDistribution"@), dist);
            let w = literal(w, rel, pkg("repoType"@), c.repo_type@);
            let w = literal(w, rel, pkg("repoSourceURL"@), c.repo_url@);
            let w = with_each_architecture(w, arches, arches.len());
            w
        }),
{
}

proof fn lemma_distribution_steps(
    w: Sheet,
    c: DebianCollector,
    info: ReleaseText,
    arches: Seq<Seq<char>>,
)
    ensures
        distribution_told(w.log, ({
            let dist = distro_iri(c.distro_name@);
            let w = link(w, dist, RDF_TYPE@, pkg("Distribution"@));
            let w = literal(w, dist, pkg("distributionName"@), c.distro_name@);
            let label = display_name(c.distro_name@);
            let w = literal(w, dist, RDFS_LABEL@, label);
            let rel = release_iri(c.distro_name@, info.codename);
            let w = link(w, rel, RDF_TYPE@, pkg("DistributionRelease"@));
            let w = literal(w, rel, pkg("releaseCodename"@), info.codename);
            let w = literal(w, rel, pkg("releaseSuite"@), info.suite);
            let w = literal(w, rel, pkg("releaseOrigin"@), info.origin);
            let w = link(w, rel, pkg("partOfDistribution"@), dist);
            let w = literal(w, rel, pkg("repoType"@), c.repo_type@);
            let w = literal(w, rel, pkg("repoSourceURL"@), c.repo_url@);
            let w = with_each_architecture(w, arches, arches.len());
            w
        }).log, c, info, arches),
{
    broadcast use group_writes;

    reveal_strlit("distributionName");
    reveal_strlit("releaseCodename");
    reveal_strlit("releaseSuite");
    reveal_strlit("releaseOrigin");
    reveal_strlit("partOfDistribution");
    reveal_strlit("repoType");
    reveal_strlit("repoSourceURL");
    reveal_strlit("architectureName");
    let dist = distro_iri(c.distro_name@);
    let w1 = link(w, dist, RDF_TYPE@, pkg("Distribution"@));
    let w2 = literal(w1, dist, pkg("distributionName"@), c.distro_name@);
    let label = display_name(c.distro_name@);
    let w3 = literal(w2, dist, RDFS_LABEL@, label);
    let rel = release_iri(c.distro_name@, info.codename);
    let w4 = link(w3, rel, RDF_TYPE@, pkg("DistributionRelease"@));
    let w5 = literal(w4, rel, pkg("releaseCodename"@), info.codename);
    let w6 = literal(w5, rel, pkg("releaseSuite"@), info.suite);
    let w7 = literal(w6, rel, pkg("releaseOrigin"@), info.origin);
    let w8 = link(w7, rel, pkg("partOfDistribution"@), dist);
    let w9 = literal(w8, rel, pkg("repoType"@), c.repo_type@);
    let w10 = literal(w9, rel, pkg("repoSourceURL"@), c.repo_url@);
    let w11 = with_each_architecture(w10, arches, arches.len());
    lemma_each_architecture_told(w10, arches, arches.len());
}

/// What [`with_distribution_metadata`] writes says what [`distribution_told`] states.
pub proof fn lemma_distribution_told(
    w: Sheet,
    c: DebianCollector,
    info: ReleaseText,
    arches: Seq<Seq<char>>,
)
    ensures
        distribution_told(
            w.log,
            with_distribution_metadata(w, c, info, arches).log,
            c,
            info,
            arches,
        ),
{
    lemma_distribution_in_steps(w, c, info, arches);
    lemma_distribution_steps(w, c, info, arches);
}

/// What is said of a dependency through a node of its own: which package it is on, of which
/// kind it is, and, where there is one, the constraint.
pub proof fn lemma_dependency_node_told(
    w: Sheet,
    c: DebianCollector,
    package: Seq<char>,
    name: Seq<char>,
    limit: Limit,
    limited: bool,
    kind: Seq<char>,
    local: Seq<char>,
    codename: Seq<char>,
    arch: Seq<char>,
)
    ensures
        ({
            let first = w.log;
            let last = with_dependency(
                w,
                c,
                package,
                name,
                limit,
                limited,
                kind,
                DEB@ + local,
                codename,
                arch,
            ).log;
            let target = identity_iri(c.distro_name@, codename, arch, name);
            let node = bnode_label("dep"@, package + "_"@ + name);
            let mark = bnode_label("constraint"@, node + "_"@ + limit.value);
            &&& said(last, pkg("packageName"@)) == said(first, pkg("packageName"@)) + seq![
                to_text(target, name),
            ]
            &&& said(last, pkg("hasDependency"@)) == said(first, pkg("hasDependency"@)) + seq![
                (Term::Iri(package), Term::Node(node)),
            ]
            &&& said(last, pkg("dependencyTarget"@)) == said(first, pkg("dependencyTarget"@))
                + seq![(Term::Node(node), Term::Iri(target))]
            &&& said(last, pkg("dependencyType"@)) == said(first, pkg("dependencyType"@)) + seq![
                (Term::Node(node), Term::Iri(dep_type_iri(kind))),
            ]
            &&& said(last, pkg("versionConstraintOperator"@)) == said(
                first,
                pkg("versionConstraintOperator"@),
            ) + where_so(limited, seq![(Term::Node(mark), Term::Text(limit.operator))])
            &&& said(last, pkg("versionConstraintValue"@)) == said(
                first,
                pkg("versionConstraintValue"@),
            ) + where_so(limited, seq![(Term::Node(mark), Term::Text(limit.value))])
            &&& said(last, pkg("hasVersionConstraint"@)) == said(
                first,
                pkg("hasVersionConstraint"@),
            ) + where_so(limited, seq![(Term::Node(node), Term::Iri("_"@ + mark))])
        }),
{
    broadcast use {group_reading, group_deb};

    reveal(with_dependency);
    reveal_strlit("directlyDependsOn");
    reveal_strlit("directlyConflictsWith");
    reveal_strlit("packageName");
    reveal_strlit("dependencyTarget");
    reveal_strlit("dependencyType");
    reveal_strlit("hasDependency");
    reveal_strlit("versionConstraintOperator");
    reveal_strlit("versionConstraintValue");
    reveal_strlit("hasVersionConstraint");
}

/// What a record says of other packages is what is said of the package: it depends on the
/// packages that `Depends`, `Pre-Depends`, `Recommends` and `Suggests` name, conflicts with
/// those of `Conflicts` and `Breaks`, and with no other.
pub proof fn lemma_package_relations_told(
    w: Sheet,
    c: DebianCollector,
    fields: Map<Seq<char>, Seq<char>>,
    name: Seq<char>,
    version: Seq<char>,
    source: SourceText,
    homepage: Option<Seq<char>>,
    codename: Seq<char>,
    suite: Seq<char>,
    arch: Seq<char>,
    size: Option<i64>,
)
    ensures
        ({
            let first = w.log;
            let last = with_named_package(
                w,
                c,
                fields,
                name,
                version,
                source,
                homepage,
                codename,
                suite,
                arch,
                size,
            ).log;
            let package = package_iri(c.distro_name@, codename, arch, name, version);
            let of = |key: Seq<char>|
                to_each(package, identities(c, codename, arch, names_in_field(fields, key)));
            &&& said(last, pkg("directlyDependsOn"@)) == said(first, pkg("directlyDependsOn"@))
                + of("Depends"@) + of("Pre-Depends"@) + of("Recommends"@) + of("Suggests"@)
            &&& said(last, pkg("directlyConflictsWith"@)) == said(
                first,
                pkg("directlyConflictsWith"@),
            ) + of("Conflicts"@) + of("Breaks"@)
        }),
{
    broadcast use {group_writes, group_deb};

    reveal(with_named_package);
    let package = package_iri(c.distro_name@, codename, arch, name, version);
    let identity = identity_iri(c.distro_name@, codename, arch, name);
    let w1 = with_package_core(
        w,
        c,
        package,
        identity,
        fields,
        name,
        version,
        codename,
        suite,
        arch,
        size,
    );
    let w2 = with_source_package_triples(w1, c, package, source, codename);
    let w3 = with_ecosystem_enrichment(w2, name, identity, homepage);
    let w4 = with_forge_enrichment(w3, name, identity, fields);
    lemma_relations_of_the_rest(
        w,
        c,
        package,
        identity,
        fields,
        name,
        version,
        source,
        homepage,
        codename,
        suite,
        arch,
        size,
        "directlyDependsOn"@,
    );
    lemma_relations_of_the_rest(
        w,
        c,
        package,
        identity,
        fields,
        name,
        version,
        source,
        homepage,
        codename,
        suite,
        arch,
        size,
        "directlyConflictsWith"@,
    );
    lemma_named_packages_told(w4, c, package, fields, codename, arch);
}

proof fn lemma_relations_of_the_rest(
    w: Sheet,
    c: DebianCollector,
    package: Seq<char>,
    identity: Seq<char>,
    fields: Map<Seq<char>, Seq<char>>,
    name: Seq<char>,
    version: Seq<char>,
    source: SourceText,
    homepage: Option<Seq<char>>,
    codename: Seq<char>,
    suite: Seq<char>,
    arch: Seq<char>,
    size: Option<i64>,
    local: Seq<char>,
)
    requires
        local == "directlyDependsOn"@ || local == "directlyConflictsWith"@,
    ensures
        ({
            let w1 = with_package_core(
                w,
                c,
                package,
                identity,
                fields,
                name,
                version,
                codename,
                suite,
                arch,
                size,
            );
            let w2 = with_source_package_triples(w1, c, package, source, codename);
            let w3 = with_ecosystem_enrichment(w2, name, identity, homepage);
            let w4 = with_forge_enrichment(w3, name, identity, fields);
            said(w4.log, pkg(local)) == said(w.log, pkg(local))
        }),
{
    broadcast use {group_writes, group_deb, group_vcs, group_foaf};

    let w1 = with_package_core(
        w,
        c,
        package,
        identity,
        fields,
        name,
        version,
        codename,
        suite,
        arch,
        size,
    );
    let w2 = with_source_package_triples(w1, c, package, source, codename);
    let w3 = with_ecosystem_enrichment(w2, name, identity, homepage);
    lemma_package_core_told(
        w,
        c,
        package,
        identity,
        fields,
        name,
        version,
        codename,
        suite,
        arch,
        size,
    );
    lemma_source_package_told(w1, c, package, source, codename);
    lemma_ecosystem_enrichment_told(w2, name, identity, homepage);
    lemma_forge_enrichment_told(w3, name, identity, fields);
    reveal_strlit("directlyDependsOn");
    reveal_strlit("directlyConflictsWith");
    reveal_strlit("packageName");
    reveal_strlit("isVersionOf");
    reveal_strlit("purl");
    reveal_strlit("versionString");
    reveal_strlit("hasVersion");
    reveal_strlit("targetArchitecture");
    reveal_strlit("partOfDistribution");
    reveal_strlit("partOfRelease");
    reveal_strlit("description");
    reveal_strlit("homepage");
    reveal_strlit("installSize");
    reveal_strlit("packageSize");
    reveal_strlit("checksum");
    reveal_strlit("inSuite");
    reveal_strlit("inComponent");
    reveal_strlit("name");
    reveal_strlit("mbox");
    reveal_strlit("maintainedBy");
    reveal_strlit("builtFromSource");
    reveal_strlit("upstreamEcosystem");
    reveal_strlit("upstreamPackageName");
    reveal_strlit("dqCollector");
    reveal_strlit("dqField");
    reveal_strlit("dqValue");
    reveal_strlit("dqIssueType");
    reveal_strlit("dqSeverity");
    reveal_strlit("upstreamRepository");
    reveal_strlit("repositoryURL");
    reveal_strlit("hostedOn");
    reveal_strlit("forgeUrl");
    reveal_strlit("forgeSoftware");
    reveal_strlit("projectName");
    reveal_strlit("projectRepository");
    reveal_strlit("packagingRepository");
    reveal_strlit("repositoryBrowser");
}

} // verus!
