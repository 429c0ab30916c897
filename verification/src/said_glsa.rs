//! What is said of GLSA advisories.

use crate::collect_bodhi::with_each_package_link;
use crate::collect_glsa::{
    announced_before, resolved, with_advisory_head, with_affected_range, with_each_affected_range,
    with_each_vulnerability, with_fix, with_glsas, with_links, with_vulnerability, Affected,
    AtomReply, Glsa, GlsaCollector,
};
use crate::ntriples::{
    bnode_label, bnode_literal, bnode_object, bnode_subject, bnode_to_bnode, datetime, link,
    literal, xsd, DATA, Fact, Sheet,
};
use crate::order::lemma_order_irreflexive;
use crate::reading::{
    group_reading, group_sec, group_writes, in_turn, said, to_each, to_iri, to_text, where_so, Term,
};
use crate::text::opt;
use crate::uris::{cve_iri, sec_concept, severity_iri, RDF_TYPE, SEC};
use vstd::prelude::*;

verus! {

proof fn lemma_fix_event_told(w: Sheet, range: Seq<char>, ranges: Seq<(Seq<char>, Seq<char>)>)
    ensures
        ({
            let first = w.log;
            let last = with_fix(w, range, ranges).log;
            &&& said(last, SEC@ + "hasRangeEvent"@) == said(first, SEC@ + "hasRangeEvent"@)
                + where_so(
                    !(ranges.len() == 0),
                    seq![(Term::Node(range), Term::Node((range + "_fix0"@)))],
                )
            &&& said(last, RDF_TYPE@) == said(first, RDF_TYPE@)
                + where_so(
                    !(ranges.len() == 0),
                    seq![(Term::Node((range + "_fix0"@)), Term::Iri(SEC@ + "RangeEvent"@))],
                )
            &&& said(last, SEC@ + "eventType"@) == said(first, SEC@ + "eventType"@)
                + where_so(
                    !(ranges.len() == 0),
                    seq![
                        (
                            Term::Node((range + "_fix0"@)),
                            Term::Iri(sec_concept("event-"@, "fixed"@)),
                        ),
                    ],
                )
            &&& said(last, SEC@ + "eventVersion"@) == said(first, SEC@ + "eventVersion"@)
                + where_so(
                    !(ranges.len() == 0),
                    seq![(Term::Node((range + "_fix0"@)), Term::Text(ranges[0].1))],
                )
            &&& forall|q: Seq<char>|
                q != SEC@ + "hasRangeEvent"@
                    && q != RDF_TYPE@
                    && q != SEC@ + "eventType"@
                    && q != SEC@ + "eventVersion"@
                    ==> #[trigger] said(last, q) == said(first, q)
        }),
{
    broadcast use {group_reading, group_sec};

    reveal_strlit("hasRangeEvent");
    reveal_strlit("eventType");
    reveal_strlit("eventVersion");
    if ranges.len() == 0 {
    } else {
        let node = range + "_fix0"@;
    }
}

/// What is said of the range of versions that a vulnerability affects.
pub open spec fn range_of_versions_told(
    first: Seq<Fact>,
    last: Seq<Fact>,
    vulnerability: Seq<char>,
    id: Seq<char>,
    package: Affected,
) -> bool {
    let range = bnode_label("ar"@, id + "_"@ + package.atom);
    let kind = sec_concept("range-"@, "ECOSYSTEM"@);
    let intro = range + "_intro"@;
    let introduced = sec_concept("event-"@, "introduced"@);
    &&& said(last, SEC@ + "hasAffectedRange"@) == said(first, SEC@ + "hasAffectedRange"@)
        + seq![(Term::Iri(vulnerability), Term::Node(range))]
    &&& said(last, RDF_TYPE@) == said(first, RDF_TYPE@)
        + seq![(Term::Node(range), Term::Iri(SEC@ + "AffectedRange"@))]
        + seq![(Term::Node(intro), Term::Iri(SEC@ + "RangeEvent"@))]
        + where_so(
            !(package.unaffected_ranges.len() == 0),
            seq![(Term::Node((range + "_fix0"@)), Term::Iri(SEC@ + "RangeEvent"@))],
        )
    &&& said(last, SEC@ + "rangeType"@) == said(first, SEC@ + "rangeType"@)
        + seq![(Term::Node(range), Term::Iri(kind))]
    &&& said(last, SEC@ + "hasRangeEvent"@) == said(first, SEC@ + "hasRangeEvent"@)
        + seq![(Term::Node(range), Term::Node(intro))]
        + where_so(
            !(package.unaffected_ranges.len() == 0),
            seq![(Term::Node(range), Term::Node((range + "_fix0"@)))],
        )
    &&& said(last, SEC@ + "eventType"@) == said(first, SEC@ + "eventType"@)
        + seq![(Term::Node(intro), Term::Iri(introduced))]
        + where_so(
            !(package.unaffected_ranges.len() == 0),
            seq![(Term::Node((range + "_fix0"@)), Term::Iri(sec_concept("event-"@, "fixed"@)))],
        )
    &&& said(last, SEC@ + "eventVersion"@) == said(first, SEC@ + "eventVersion"@)
        + seq![(Term::Node(intro), Term::Text("0"@))]
        + where_so(
            !(package.unaffected_ranges.len() == 0),
            seq![(Term::Node((range + "_fix0"@)), Term::Text(package.unaffected_ranges[0].1))],
        )
    &&& forall|q: Seq<char>|
        q != SEC@ + "hasAffectedRange"@
            && q != RDF_TYPE@
            && q != SEC@ + "rangeType"@
            && q != SEC@ + "hasRangeEvent"@
            && q != SEC@ + "eventType"@
            && q != SEC@ + "eventVersion"@
            ==> #[trigger] said(last, q) == said(first, q)
}

proof fn lemma_range_of_versions_in_steps(
    w: Sheet,
    vulnerability: Seq<char>,
    id: Seq<char>,
    package: Affected,
)
    ensures
        with_affected_range(w, vulnerability, id, package) == ({
            let range = bnode_label("ar"@, id + "_"@ + package.atom);
            let w = bnode_object(w, vulnerability, SEC@ + "hasAffectedRange"@, range);
            let w = bnode_subject(w, range, RDF_TYPE@, SEC@ + "AffectedRange"@);
            let kind = sec_concept("range-"@, "ECOSYSTEM"@);
            let w = bnode_subject(w, range, SEC@ + "rangeType"@, kind);
            let intro = range + "_intro"@;
            let w = bnode_to_bnode(w, range, SEC@ + "hasRangeEvent"@, intro);
            let w = bnode_subject(w, intro, RDF_TYPE@, SEC@ + "RangeEvent"@);
            let introduced = sec_concept("event-"@, "introduced"@);
            let w = bnode_subject(w, intro, SEC@ + "eventType"@, introduced);
            let w = bnode_literal(w, intro, SEC@ + "eventVersion"@, "0"@);
            let w = with_fix(w, range, package.unaffected_ranges);
            w
        }),
{
}

proof fn lemma_range_of_versions_steps(
    w: Sheet,
    vulnerability: Seq<char>,
    id: Seq<char>,
    package: Affected,
)
    ensures
        range_of_versions_told(w.log, ({
            let range = bnode_label("ar"@, id + "_"@ + package.atom);
            let w = bnode_object(w, vulnerability, SEC@ + "hasAffectedRange"@, range);
            let w = bnode_subject(w, range, RDF_TYPE@, SEC@ + "AffectedRange"@);
            let kind = sec_concept("range-"@, "ECOSYSTEM"@);
            let w = bnode_subject(w, range, SEC@ + "rangeType"@, kind);
            let intro = range + "_intro"@;
            let w = bnode_to_bnode(w, range, SEC@ + "hasRangeEvent"@, intro);
            let w = bnode_subject(w, intro, RDF_TYPE@, SEC@ + "RangeEvent"@);
            let introduced = sec_concept("event-"@, "introduced"@);
            let w = bnode_subject(w, intro, SEC@ + "eventType"@, introduced);
            let w = bnode_literal(w, intro, SEC@ + "eventVersion"@, "0"@);
            let w = with_fix(w, range, package.unaffected_ranges);
            w
        }).log, vulnerability, id, package),
{
    broadcast use {group_writes, group_sec};

    reveal_strlit("hasAffectedRange");
    reveal_strlit("rangeType");
    reveal_strlit("hasRangeEvent");
    reveal_strlit("eventType");
    reveal_strlit("eventVersion");
    let range = bnode_label("ar"@, id + "_"@ + package.atom);
    let w1 = bnode_object(w, vulnerability, SEC@ + "hasAffectedRange"@, range);
    let w2 = bnode_subject(w1, range, RDF_TYPE@, SEC@ + "AffectedRange"@);
    let kind = sec_concept("range-"@, "ECOSYSTEM"@);
    let w3 = bnode_subject(w2, range, SEC@ + "rangeType"@, kind);
    let intro = range + "_intro"@;
    let w4 = bnode_to_bnode(w3, range, SEC@ + "hasRangeEvent"@, intro);
    let w5 = bnode_subject(w4, intro, RDF_TYPE@, SEC@ + "RangeEvent"@);
    let introduced = sec_concept("event-"@, "introduced"@);
    let w6 = bnode_subject(w5, intro, SEC@ + "eventType"@, introduced);
    let w7 = bnode_literal(w6, intro, SEC@ + "eventVersion"@, "0"@);
    let w8 = with_fix(w7, range, package.unaffected_ranges);
    lemma_fix_event_told(w7, range, package.unaffected_ranges);
}

/// What [`with_affected_range`] writes says what [`range_of_versions_told`] states.
pub proof fn lemma_range_of_versions_told(
    w: Sheet,
    vulnerability: Seq<char>,
    id: Seq<char>,
    package: Affected,
)
    ensures
        range_of_versions_told(
            w.log,
            with_affected_range(w, vulnerability, id, package).log,
            vulnerability,
            id,
            package,
        ),
{
    lemma_range_of_versions_in_steps(w, vulnerability, id, package);
    lemma_range_of_versions_steps(w, vulnerability, id, package);
}

proof fn lemma_each_affected_range_told(
    w: Sheet,
    vulnerability: Seq<char>,
    id: Seq<char>,
    items: Seq<Affected>,
    n: nat,
)
    ensures
        ({
            let first = w.log;
            let last = with_each_affected_range(w, vulnerability, id, items, n).log;
            &&& said(last, SEC@ + "hasAffectedRange"@) == said(first, SEC@ + "hasAffectedRange"@)
                + in_turn(
                    |k: int|
                        seq![
                            (
                                Term::Iri(vulnerability),
                                Term::Node(bnode_label("ar"@, id + "_"@ + (items[k]).atom)),
                            ),
                        ],
                    n,
                )
            &&& said(last, RDF_TYPE@) == said(first, RDF_TYPE@)
                + in_turn(
                    |k: int|
                        seq![
                            (
                                Term::Node(bnode_label("ar"@, id + "_"@ + (items[k]).atom)),
                                Term::Iri(SEC@ + "AffectedRange"@),
                            ),
                        ]
                            + seq![
                                (
                                    Term::Node(
                                        (
                                            bnode_label("ar"@, id + "_"@ + (items[k]).atom)
                                                + "_intro"@
                                        ),
                                    ),
                                    Term::Iri(SEC@ + "RangeEvent"@),
                                ),
                            ]
                            + where_so(
                                !((items[k]).unaffected_ranges.len() == 0),
                                seq![
                                    (
                                        Term::Node(
                                            (
                                                bnode_label("ar"@, id + "_"@ + (items[k]).atom)
                                                    + "_fix0"@
                                            ),
                                        ),
                                        Term::Iri(SEC@ + "RangeEvent"@),
                                    ),
                                ],
                            ),
                    n,
                )
            &&& said(last, SEC@ + "rangeType"@) == said(first, SEC@ + "rangeType"@)
                + in_turn(
                    |k: int|
                        seq![
                            (
                                Term::Node(bnode_label("ar"@, id + "_"@ + (items[k]).atom)),
                                Term::Iri(sec_concept("range-"@, "ECOSYSTEM"@)),
                            ),
                        ],
                    n,
                )
            &&& said(last, SEC@ + "hasRangeEvent"@) == said(first, SEC@ + "hasRangeEvent"@)
                + in_turn(
                    |k: int|
                        seq![
                            (
                                Term::Node(bnode_label("ar"@, id + "_"@ + (items[k]).atom)),
                                Term::Node(
                                    (bnode_label("ar"@, id + "_"@ + (items[k]).atom) + "_intro"@),
                                ),
                            ),
                        ]
                            + where_so(
                                !((items[k]).unaffected_ranges.len() == 0),
                                seq![
                                    (
                                        Term::Node(bnode_label("ar"@, id + "_"@ + (items[k]).atom)),
                                        Term::Node(
                                            (
                                                bnode_label("ar"@, id + "_"@ + (items[k]).atom)
                                                    + "_fix0"@
                                            ),
                                        ),
                                    ),
                                ],
                            ),
                    n,
                )
            &&& said(last, SEC@ + "eventType"@) == said(first, SEC@ + "eventType"@)
                + in_turn(
                    |k: int|
                        seq![
                            (
                                Term::Node(
                                    (bnode_label("ar"@, id + "_"@ + (items[k]).atom) + "_intro"@),
                                ),
                                Term::Iri(sec_concept("event-"@, "introduced"@)),
                            ),
                        ]
                            + where_so(
                                !((items[k]).unaffected_ranges.len() == 0),
                                seq![
                                    (
                                        Term::Node(
                                            (
                                                bnode_label("ar"@, id + "_"@ + (items[k]).atom)
                                                    + "_fix0"@
                                            ),
                                        ),
                                        Term::Iri(sec_concept("event-"@, "fixed"@)),
                                    ),
                                ],
                            ),
                    n,
                )
            &&& said(last, SEC@ + "eventVersion"@) == said(first, SEC@ + "eventVersion"@)
                + in_turn(
                    |k: int|
                        seq![
                            (
                                Term::Node(
                                    (bnode_label("ar"@, id + "_"@ + (items[k]).atom) + "_intro"@),
                                ),
                                Term::Text("0"@),
                            ),
                        ]
                            + where_so(
                                !((items[k]).unaffected_ranges.len() == 0),
                                seq![
                                    (
                                        Term::Node(
                                            (
                                                bnode_label("ar"@, id + "_"@ + (items[k]).atom)
                                                    + "_fix0"@
                                            ),
                                        ),
                                        Term::Text((items[k]).unaffected_ranges[0].1),
                                    ),
                                ],
                            ),
                    n,
                )
            &&& forall|q: Seq<char>|
                q != SEC@ + "hasAffectedRange"@
                    && q != RDF_TYPE@
                    && q != SEC@ + "rangeType"@
                    && q != SEC@ + "hasRangeEvent"@
                    && q != SEC@ + "eventType"@
                    && q != SEC@ + "eventVersion"@
                    ==> #[trigger] said(last, q) == said(first, q)
        }),
    decreases n,
{
    broadcast use {group_writes, group_sec};

    reveal_strlit("hasAffectedRange");
    reveal_strlit("rangeType");
    reveal_strlit("hasRangeEvent");
    reveal_strlit("eventType");
    reveal_strlit("eventVersion");
    if n > 0 {
        lemma_each_affected_range_told(w, vulnerability, id, items, (n - 1) as nat);
        lemma_range_of_versions_told(
            with_each_affected_range(w, vulnerability, id, items, (n - 1) as nat),
            vulnerability,
            id,
            items[n - 1],
        );
    }
}

proof fn lemma_vulnerability_told(w: Sheet, advisory: Seq<char>, a: Glsa, id: Seq<char>)
    ensures
        ({
            let first = w.log;
            let last = with_vulnerability(w, advisory, a, id).log;
            &&& said(last, SEC@ + "addressesVulnerability"@)
                == said(first, SEC@ + "addressesVulnerability"@)
                + seq![to_iri(advisory, cve_iri(id))]
            &&& said(last, SEC@ + "hasAffectedRange"@) == said(first, SEC@ + "hasAffectedRange"@)
                + in_turn(
                    |k: int|
                        seq![
                            (
                                Term::Iri(cve_iri(id)),
                                Term::Node(
                                    bnode_label("ar"@, a.id + "_"@ + (a.affected_packages[k]).atom),
                                ),
                            ),
                        ],
                    (a.affected_packages.len()),
                )
            &&& said(last, RDF_TYPE@) == said(first, RDF_TYPE@)
                + in_turn(
                    |k: int|
                        seq![
                            (
                                Term::Node(
                                    bnode_label("ar"@, a.id + "_"@ + (a.affected_packages[k]).atom),
                                ),
                                Term::Iri(SEC@ + "AffectedRange"@),
                            ),
                        ]
                            + seq![
                                (
                                    Term::Node(
                                        (
                                            bnode_label(
                                                "ar"@,
                                                a.id + "_"@ + (a.affected_packages[k]).atom,
                                            )
                                                + "_intro"@
                                        ),
                                    ),
                                    Term::Iri(SEC@ + "RangeEvent"@),
                                ),
                            ]
                            + where_so(
                                !((a.affected_packages[k]).unaffected_ranges.len() == 0),
                                seq![
                                    (
                                        Term::Node(
                                            (
                                                bnode_label(
                                                    "ar"@,
                                                    a.id + "_"@ + (a.affected_packages[k]).atom,
                                                )
                                                    + "_fix0"@
                                            ),
                                        ),
                                        Term::Iri(SEC@ + "RangeEvent"@),
                                    ),
                                ],
                            ),
                    (a.affected_packages.len()),
                )
            &&& said(last, SEC@ + "rangeType"@) == said(first, SEC@ + "rangeType"@)
                + in_turn(
                    |k: int|
                        seq![
                            (
                                Term::Node(
                                    bnode_label("ar"@, a.id + "_"@ + (a.affected_packages[k]).atom),
                                ),
                                Term::Iri(sec_concept("range-"@, "ECOSYSTEM"@)),
                            ),
                        ],
                    (a.affected_packages.len()),
                )
            &&& said(last, SEC@ + "hasRangeEvent"@) == said(first, SEC@ + "hasRangeEvent"@)
                + in_turn(
                    |k: int|
                        seq![
                            (
                                Term::Node(
                                    bnode_label("ar"@, a.id + "_"@ + (a.affected_packages[k]).atom),
                                ),
                                Term::Node(
                                    (
                                        bnode_label(
                                            "ar"@,
                                            a.id + "_"@ + (a.affected_packages[k]).atom,
                                        )
                                            + "_intro"@
                                    ),
                                ),
                            ),
                        ]
                            + where_so(
                                !((a.affected_packages[k]).unaffected_ranges.len() == 0),
                                seq![
                                    (
                                        Term::Node(
                                            bnode_label(
                                                "ar"@,
                                                a.id + "_"@ + (a.affected_packages[k]).atom,
                                            ),
                                        ),
                                        Term::Node(
                                            (
                                                bnode_label(
                                                    "ar"@,
                                                    a.id + "_"@ + (a.affected_packages[k]).atom,
                                                )
                                                    + "_fix0"@
                                            ),
                                        ),
                                    ),
                                ],
                            ),
                    (a.affected_packages.len()),
                )
            &&& said(last, SEC@ + "eventType"@) == said(first, SEC@ + "eventType"@)
                + in_turn(
                    |k: int|
                        seq![
                            (
                                Term::Node(
                                    (
                                        bnode_label(
                                            "ar"@,
                                            a.id + "_"@ + (a.affected_packages[k]).atom,
                                        )
                                            + "_intro"@
                                    ),
                                ),
                                Term::Iri(sec_concept("event-"@, "introduced"@)),
                            ),
                        ]
                            + where_so(
                                !((a.affected_packages[k]).unaffected_ranges.len() == 0),
                                seq![
                                    (
                                        Term::Node(
                                            (
                                                bnode_label(
                                                    "ar"@,
                                                    a.id + "_"@ + (a.affected_packages[k]).atom,
                                                )
                                                    + "_fix0"@
                                            ),
                                        ),
                                        Term::Iri(sec_concept("event-"@, "fixed"@)),
                                    ),
                                ],
                            ),
                    (a.affected_packages.len()),
                )
            &&& said(last, SEC@ + "eventVersion"@) == said(first, SEC@ + "eventVersion"@)
                + in_turn(
                    |k: int|
                        seq![
                            (
                                Term::Node(
                                    (
                                        bnode_label(
                                            "ar"@,
                                            a.id + "_"@ + (a.affected_packages[k]).atom,
                                        )
                                            + "_intro"@
                                    ),
                                ),
                                Term::Text("0"@),
                            ),
                        ]
                            + where_so(
                                !((a.affected_packages[k]).unaffected_ranges.len() == 0),
                                seq![
                                    (
                                        Term::Node(
                                            (
                                                bnode_label(
                                                    "ar"@,
                                                    a.id + "_"@ + (a.affected_packages[k]).atom,
                                                )
                                                    + "_fix0"@
                                            ),
                                        ),
                                        Term::Text((a.affected_packages[k]).unaffected_ranges[0].1),
                                    ),
                                ],
                            ),
                    (a.affected_packages.len()),
                )
            &&& forall|q: Seq<char>|
                q != SEC@ + "addressesVulnerability"@
                    && q != SEC@ + "hasAffectedRange"@
                    && q != RDF_TYPE@
                    && q != SEC@ + "rangeType"@
                    && q != SEC@ + "hasRangeEvent"@
                    && q != SEC@ + "eventType"@
                    && q != SEC@ + "eventVersion"@
                    ==> #[trigger] said(last, q) == said(first, q)
        }),
{
    broadcast use {group_reading, group_sec};

    reveal_strlit("addressesVulnerability");
    reveal_strlit("hasAffectedRange");
    reveal_strlit("rangeType");
    reveal_strlit("hasRangeEvent");
    reveal_strlit("eventType");
    reveal_strlit("eventVersion");
    let cve = cve_iri(id);
    lemma_each_affected_range_told(
        link(w, advisory, SEC@ + "addressesVulnerability"@, cve),
        cve,
        a.id,
        a.affected_packages,
        a.affected_packages.len(),
    );
}

proof fn lemma_each_vulnerability_told(
    w: Sheet,
    advisory: Seq<char>,
    a: Glsa,
    items: Seq<Seq<char>>,
    n: nat,
)
    ensures
        ({
            let first = w.log;
            let last = with_each_vulnerability(w, advisory, a, items, n).log;
            &&& said(last, SEC@ + "addressesVulnerability"@)
                == said(first, SEC@ + "addressesVulnerability"@)
                + in_turn(|j: int| seq![to_iri(advisory, cve_iri((items[j])))], n)
            &&& said(last, SEC@ + "hasAffectedRange"@) == said(first, SEC@ + "hasAffectedRange"@)
                + in_turn(
                    |j: int|
                        in_turn(
                            |k: int|
                                seq![
                                    (
                                        Term::Iri(cve_iri((items[j]))),
                                        Term::Node(
                                            bnode_label(
                                                "ar"@,
                                                a.id + "_"@ + (a.affected_packages[k]).atom,
                                            ),
                                        ),
                                    ),
                                ],
                            (a.affected_packages.len()),
                        ),
                    n,
                )
            &&& said(last, RDF_TYPE@) == said(first, RDF_TYPE@)
                + in_turn(
                    |j: int|
                        in_turn(
                            |k: int|
                                seq![
                                    (
                                        Term::Node(
                                            bnode_label(
                                                "ar"@,
                                                a.id + "_"@ + (a.affected_packages[k]).atom,
                                            ),
                                        ),
                                        Term::Iri(SEC@ + "AffectedRange"@),
                                    ),
                                ]
                                    + seq![
                                        (
                                            Term::Node(
                                                (
                                                    bnode_label(
                                                        "ar"@,
                                                        a.id + "_"@ + (a.affected_packages[k]).atom,
                                                    )
                                                        + "_intro"@
                                                ),
                                            ),
                                            Term::Iri(SEC@ + "RangeEvent"@),
                                        ),
                                    ]
                                    + where_so(
                                        !((a.affected_packages[k]).unaffected_ranges.len() == 0),
                                        seq![
                                            (
                                                Term::Node(
                                                    (
                                                        bnode_label(
                                                            "ar"@,
                                                            a.id
                                                                + "_"@
                                                                + (a.affected_packages[k]).atom,
                                                        )
                                                            + "_fix0"@
                                                    ),
                                                ),
                                                Term::Iri(SEC@ + "RangeEvent"@),
                                            ),
                                        ],
                                    ),
                            (a.affected_packages.len()),
                        ),
                    n,
                )
            &&& said(last, SEC@ + "rangeType"@) == said(first, SEC@ + "rangeType"@)
                + in_turn(
                    |j: int|
                        in_turn(
                            |k: int|
                                seq![
                                    (
                                        Term::Node(
                                            bnode_label(
                                                "ar"@,
                                                a.id + "_"@ + (a.affected_packages[k]).atom,
                                            ),
                                        ),
                                        Term::Iri(sec_concept("range-"@, "ECOSYSTEM"@)),
                                    ),
                                ],
                            (a.affected_packages.len()),
                        ),
                    n,
                )
            &&& said(last, SEC@ + "hasRangeEvent"@) == said(first, SEC@ + "hasRangeEvent"@)
                + in_turn(
                    |j: int|
                        in_turn(
                            |k: int|
                                seq![
                                    (
                                        Term::Node(
                                            bnode_label(
                                                "ar"@,
                                                a.id + "_"@ + (a.affected_packages[k]).atom,
                                            ),
                                        ),
                                        Term::Node(
                                            (
                                                bnode_label(
                                                    "ar"@,
                                                    a.id + "_"@ + (a.affected_packages[k]).atom,
                                                )
                                                    + "_intro"@
                                            ),
                                        ),
                                    ),
                                ]
                                    + where_so(
                                        !((a.affected_packages[k]).unaffected_ranges.len() == 0),
                                        seq![
                                            (
                                                Term::Node(
                                                    bnode_label(
                                                        "ar"@,
                                                        a.id + "_"@ + (a.affected_packages[k]).atom,
                                                    ),
                                                ),
                                                Term::Node(
                                                    (
                                                        bnode_label(
                                                            "ar"@,
                                                            a.id
                                                                + "_"@
                                                                + (a.affected_packages[k]).atom,
                                                        )
                                                            + "_fix0"@
                                                    ),
                                                ),
                                            ),
                                        ],
                                    ),
                            (a.affected_packages.len()),
                        ),
                    n,
                )
            &&& said(last, SEC@ + "eventType"@) == said(first, SEC@ + "eventType"@)
                + in_turn(
                    |j: int|
                        in_turn(
                            |k: int|
                                seq![
                                    (
                                        Term::Node(
                                            (
                                                bnode_label(
                                                    "ar"@,
                                                    a.id + "_"@ + (a.affected_packages[k]).atom,
                                                )
                                                    + "_intro"@
                                            ),
                                        ),
                                        Term::Iri(sec_concept("event-"@, "introduced"@)),
                                    ),
                                ]
                                    + where_so(
                                        !((a.affected_packages[k]).unaffected_ranges.len() == 0),
                                        seq![
                                            (
                                                Term::Node(
                                                    (
                                                        bnode_label(
                                                            "ar"@,
                                                            a.id
                                                                + "_"@
                                                                + (a.affected_packages[k]).atom,
                                                        )
                                                            + "_fix0"@
                                                    ),
                                                ),
                                                Term::Iri(sec_concept("event-"@, "fixed"@)),
                                            ),
                                        ],
                                    ),
                            (a.affected_packages.len()),
                        ),
                    n,
                )
            &&& said(last, SEC@ + "eventVersion"@) == said(first, SEC@ + "eventVersion"@)
                + in_turn(
                    |j: int|
                        in_turn(
                            |k: int|
                                seq![
                                    (
                                        Term::Node(
                                            (
                                                bnode_label(
                                                    "ar"@,
                                                    a.id + "_"@ + (a.affected_packages[k]).atom,
                                                )
                                                    + "_intro"@
                                            ),
                                        ),
                                        Term::Text("0"@),
                                    ),
                                ]
                                    + where_so(
                                        !((a.affected_packages[k]).unaffected_ranges.len() == 0),
                                        seq![
                                            (
                                                Term::Node(
                                                    (
                                                        bnode_label(
                                                            "ar"@,
                                                            a.id
                                                                + "_"@
                                                                + (a.affected_packages[k]).atom,
                                                        )
                                                            + "_fix0"@
                                                    ),
                                                ),
                                                Term::Text(
                                                    (a.affected_packages[k]).unaffected_ranges[0].1,
                                                ),
                                            ),
                                        ],
                                    ),
                            (a.affected_packages.len()),
                        ),
                    n,
                )
            &&& forall|q: Seq<char>|
                q != SEC@ + "addressesVulnerability"@
                    && q != SEC@ + "hasAffectedRange"@
                    && q != RDF_TYPE@
                    && q != SEC@ + "rangeType"@
                    && q != SEC@ + "hasRangeEvent"@
                    && q != SEC@ + "eventType"@
                    && q != SEC@ + "eventVersion"@
                    ==> #[trigger] said(last, q) == said(first, q)
        }),
    decreases n,
{
    broadcast use {group_writes, group_sec};

    reveal_strlit("addressesVulnerability");
    reveal_strlit("hasAffectedRange");
    reveal_strlit("rangeType");
    reveal_strlit("hasRangeEvent");
    reveal_strlit("eventType");
    reveal_strlit("eventVersion");
    if n > 0 {
        lemma_each_vulnerability_told(w, advisory, a, items, (n - 1) as nat);
        lemma_vulnerability_told(
            with_each_vulnerability(w, advisory, a, items, (n - 1) as nat),
            advisory,
            a,
            items[n - 1],
        );
    }
}

#[verifier::opaque]
spec fn advisory_head_step_1(w: Sheet, advisory: Seq<char>, a: Glsa) -> Sheet {
    match a.severity {
        Some(name) => {
            let w = match severity_iri(name) {
                Some(severity) => { link(w, advisory, SEC@ + "advisorySeverity"@, severity) },
                None => w,
            };
            w
        },
        None => w,
    }
}

proof fn lemma_advisory_head_step_1(w: Sheet, advisory: Seq<char>, a: Glsa)
    ensures
        ({
            let first = w.log;
            let last = advisory_head_step_1(w, advisory, a).log;
            &&& said(last, SEC@ + "advisorySeverity"@) == said(first, SEC@ + "advisorySeverity"@)
                + (
                    match a.severity {
                        Some(name) => (
                            match severity_iri(name) {
                                Some(severity) => seq![to_iri(advisory, severity)],
                                None => Seq::empty(),
                            }
                        ),
                        None => Seq::empty(),
                    }
                )
            &&& forall|q: Seq<char>|
                q != SEC@ + "advisorySeverity"@ ==> #[trigger] said(last, q) == said(first, q)
        }),
{
    broadcast use {group_reading, group_sec};

    reveal(advisory_head_step_1);
    reveal_strlit("advisorySeverity");
}

/// What is said of an advisory itself: what it is, its name, that it is of security, its
/// date and its severity, where that is known; and the vulnerabilities that it addresses,
/// with the ranges of versions that they affect.
pub open spec fn advisory_head_told(
    first: Seq<Fact>,
    last: Seq<Fact>,
    advisory: Seq<char>,
    a: Glsa,
) -> bool {
    let category = sec_concept("category-"@, "security"@);
    &&& said(last, RDF_TYPE@) == said(first, RDF_TYPE@)
        + seq![to_iri(advisory, SEC@ + "SecurityAdvisory"@)]
        + in_turn(
            |j: int|
                in_turn(
                    |k: int|
                        seq![
                            (
                                Term::Node(
                                    bnode_label("ar"@, a.id + "_"@ + (a.affected_packages[k]).atom),
                                ),
                                Term::Iri(SEC@ + "AffectedRange"@),
                            ),
                        ]
                            + seq![
                                (
                                    Term::Node(
                                        (
                                            bnode_label(
                                                "ar"@,
                                                a.id + "_"@ + (a.affected_packages[k]).atom,
                                            )
                                                + "_intro"@
                                        ),
                                    ),
                                    Term::Iri(SEC@ + "RangeEvent"@),
                                ),
                            ]
                            + where_so(
                                !((a.affected_packages[k]).unaffected_ranges.len() == 0),
                                seq![
                                    (
                                        Term::Node(
                                            (
                                                bnode_label(
                                                    "ar"@,
                                                    a.id + "_"@ + (a.affected_packages[k]).atom,
                                                )
                                                    + "_fix0"@
                                            ),
                                        ),
                                        Term::Iri(SEC@ + "RangeEvent"@),
                                    ),
                                ],
                            ),
                    (a.affected_packages.len()),
                ),
            (a.cves.len()),
        )
    &&& said(last, SEC@ + "advisoryId"@) == said(first, SEC@ + "advisoryId"@)
        + seq![to_text(advisory, a.id)]
    &&& said(last, SEC@ + "advisoryType"@) == said(first, SEC@ + "advisoryType"@)
        + seq![to_iri(advisory, category)]
    &&& said(last, SEC@ + "advisoryDate"@) == said(first, SEC@ + "advisoryDate"@)
        + seq![(Term::Iri(advisory), Term::Typed(a.date + "T00:00:00Z"@, xsd("dateTime"@)))]
    &&& said(last, SEC@ + "advisorySeverity"@) == said(first, SEC@ + "advisorySeverity"@)
        + (
            match a.severity {
                Some(name) => (
                    match severity_iri(name) {
                        Some(severity) => seq![to_iri(advisory, severity)],
                        None => Seq::empty(),
                    }
                ),
                None => Seq::empty(),
            }
        )
    &&& said(last, SEC@ + "addressesVulnerability"@) == said(first, SEC@ + "addressesVulnerability"@)
        + in_turn(|j: int| seq![to_iri(advisory, cve_iri((a.cves[j])))], (a.cves.len()))
    &&& said(last, SEC@ + "hasAffectedRange"@) == said(first, SEC@ + "hasAffectedRange"@)
        + in_turn(
            |j: int|
                in_turn(
                    |k: int|
                        seq![
                            (
                                Term::Iri(cve_iri((a.cves[j]))),
                                Term::Node(
                                    bnode_label("ar"@, a.id + "_"@ + (a.affected_packages[k]).atom),
                                ),
                            ),
                        ],
                    (a.affected_packages.len()),
                ),
            (a.cves.len()),
        )
    &&& said(last, SEC@ + "rangeType"@) == said(first, SEC@ + "rangeType"@)
        + in_turn(
            |j: int|
                in_turn(
                    |k: int|
                        seq![
                            (
                                Term::Node(
                                    bnode_label("ar"@, a.id + "_"@ + (a.affected_packages[k]).atom),
                                ),
                                Term::Iri(sec_concept("range-"@, "ECOSYSTEM"@)),
                            ),
                        ],
                    (a.affected_packages.len()),
                ),
            (a.cves.len()),
        )
    &&& said(last, SEC@ + "hasRangeEvent"@) == said(first, SEC@ + "hasRangeEvent"@)
        + in_turn(
            |j: int|
                in_turn(
                    |k: int|
                        seq![
                            (
                                Term::Node(
                                    bnode_label("ar"@, a.id + "_"@ + (a.affected_packages[k]).atom),
                                ),
                                Term::Node(
                                    (
                                        bnode_label(
                                            "ar"@,
                                            a.id + "_"@ + (a.affected_packages[k]).atom,
                                        )
                                            + "_intro"@
                                    ),
                                ),
                            ),
                        ]
                            + where_so(
                                !((a.affected_packages[k]).unaffected_ranges.len() == 0),
                                seq![
                                    (
                                        Term::Node(
                                            bnode_label(
                                                "ar"@,
                                                a.id + "_"@ + (a.affected_packages[k]).atom,
                                            ),
                                        ),
                                        Term::Node(
                                            (
                                                bnode_label(
                                                    "ar"@,
                                                    a.id + "_"@ + (a.affected_packages[k]).atom,
                                                )
                                                    + "_fix0"@
                                            ),
                                        ),
                                    ),
                                ],
                            ),
                    (a.affected_packages.len()),
                ),
            (a.cves.len()),
        )
    &&& said(last, SEC@ + "eventType"@) == said(first, SEC@ + "eventType"@)
        + in_turn(
            |j: int|
                in_turn(
                    |k: int|
                        seq![
                            (
                                Term::Node(
                                    (
                                        bnode_label(
                                            "ar"@,
                                            a.id + "_"@ + (a.affected_packages[k]).atom,
                                        )
                                            + "_intro"@
                                    ),
                                ),
                                Term::Iri(sec_concept("event-"@, "introduced"@)),
                            ),
                        ]
                            + where_so(
                                !((a.affected_packages[k]).unaffected_ranges.len() == 0),
                                seq![
                                    (
                                        Term::Node(
                                            (
                                                bnode_label(
                                                    "ar"@,
                                                    a.id + "_"@ + (a.affected_packages[k]).atom,
                                                )
                                                    + "_fix0"@
                                            ),
                                        ),
                                        Term::Iri(sec_concept("event-"@, "fixed"@)),
                                    ),
                                ],
                            ),
                    (a.affected_packages.len()),
                ),
            (a.cves.len()),
        )
    &&& said(last, SEC@ + "eventVersion"@) == said(first, SEC@ + "eventVersion"@)
        + in_turn(
            |j: int|
                in_turn(
                    |k: int|
                        seq![
                            (
                                Term::Node(
                                    (
                                        bnode_label(
                                            "ar"@,
                                            a.id + "_"@ + (a.affected_packages[k]).atom,
                                        )
                                            + "_intro"@
                                    ),
                                ),
                                Term::Text("0"@),
                            ),
                        ]
                            + where_so(
                                !((a.affected_packages[k]).unaffected_ranges.len() == 0),
                                seq![
                                    (
                                        Term::Node(
                                            (
                                                bnode_label(
                                                    "ar"@,
                                                    a.id + "_"@ + (a.affected_packages[k]).atom,
                                                )
                                                    + "_fix0"@
                                            ),
                                        ),
                                        Term::Text((a.affected_packages[k]).unaffected_ranges[0].1),
                                    ),
                                ],
                            ),
                    (a.affected_packages.len()),
                ),
            (a.cves.len()),
        )
    &&& forall|q: Seq<char>|
        q != RDF_TYPE@
            && q != SEC@ + "advisoryId"@
            && q != SEC@ + "advisoryType"@
            && q != SEC@ + "advisoryDate"@
            && q != SEC@ + "advisorySeverity"@
            && q != SEC@ + "addressesVulnerability"@
            && q != SEC@ + "hasAffectedRange"@
            && q != SEC@ + "rangeType"@
            && q != SEC@ + "hasRangeEvent"@
            && q != SEC@ + "eventType"@
            && q != SEC@ + "eventVersion"@
            ==> #[trigger] said(last, q) == said(first, q)
}

proof fn lemma_advisory_head_in_steps(w: Sheet, advisory: Seq<char>, a: Glsa)
    ensures
        with_advisory_head(w, advisory, a) == ({
            let w = link(w, advisory, RDF_TYPE@, SEC@ + "SecurityAdvisory"@);
            let w = literal(w, advisory, SEC@ + "advisoryId"@, a.id);
            let category = sec_concept("category-"@, "security"@);
            let w = link(w, advisory, SEC@ + "advisoryType"@, category);
            let w = datetime(w, advisory, SEC@ + "advisoryDate"@, a.date + "T00:00:00Z"@);
            let w = advisory_head_step_1(w, advisory, a);
            let w = with_each_vulnerability(w, advisory, a, a.cves, a.cves.len());
            w
        }),
{
    reveal(advisory_head_step_1);
}

proof fn lemma_advisory_head_steps(w: Sheet, advisory: Seq<char>, a: Glsa)
    ensures
        advisory_head_told(w.log, ({
            let w = link(w, advisory, RDF_TYPE@, SEC@ + "SecurityAdvisory"@);
            let w = literal(w, advisory, SEC@ + "advisoryId"@, a.id);
            let category = sec_concept("category-"@, "security"@);
            let w = link(w, advisory, SEC@ + "advisoryType"@, category);
            let w = datetime(w, advisory, SEC@ + "advisoryDate"@, a.date + "T00:00:00Z"@);
            let w = advisory_head_step_1(w, advisory, a);
            let w = with_each_vulnerability(w, advisory, a, a.cves, a.cves.len());
            w
        }).log, advisory, a),
{
    broadcast use {group_writes, group_sec};

    reveal_strlit("advisoryId");
    reveal_strlit("advisoryType");
    reveal_strlit("advisoryDate");
    reveal_strlit("advisorySeverity");
    reveal_strlit("addressesVulnerability");
    reveal_strlit("hasAffectedRange");
    reveal_strlit("rangeType");
    reveal_strlit("hasRangeEvent");
    reveal_strlit("eventType");
    reveal_strlit("eventVersion");
    let w1 = link(w, advisory, RDF_TYPE@, SEC@ + "SecurityAdvisory"@);
    let w2 = literal(w1, advisory, SEC@ + "advisoryId"@, a.id);
    let category = sec_concept("category-"@, "security"@);
    let w3 = link(w2, advisory, SEC@ + "advisoryType"@, category);
    let w4 = datetime(w3, advisory, SEC@ + "advisoryDate"@, a.date + "T00:00:00Z"@);
    let w5 = advisory_head_step_1(w4, advisory, a);
    lemma_advisory_head_step_1(w4, advisory, a);
    let w6 = with_each_vulnerability(w5, advisory, a, a.cves, a.cves.len());
    lemma_each_vulnerability_told(w5, advisory, a, a.cves, a.cves.len());
}

/// What [`with_advisory_head`] writes says what [`advisory_head_told`] states.
pub proof fn lemma_advisory_head_told(
    w: Sheet,
    advisory: Seq<char>,
    a: Glsa,
)
    ensures
        advisory_head_told(w.log, with_advisory_head(w, advisory, a).log, advisory, a),
{
    lemma_advisory_head_in_steps(w, advisory, a);
    lemma_advisory_head_steps(w, advisory, a);
}

proof fn lemma_package_links_said(w: Sheet, advisory: Seq<char>, items: Seq<Seq<char>>, n: nat)
    requires
        n <= items.len(),
    ensures
        ({
            let first = w.log;
            let last = with_each_package_link(w, advisory, items, n).log;
            &&& said(last, SEC@ + "advisoryForPackage"@) == said(
                first,
                SEC@ + "advisoryForPackage"@,
            ) + to_each(advisory, items.take(n as int))
            &&& forall|q: Seq<char>|
                q != SEC@ + "advisoryForPackage"@ ==> #[trigger] said(last, q) == said(first, q)
        }),
    decreases n,
{
    broadcast use {group_writes, group_sec};

    if n > 0 {
        lemma_package_links_said(w, advisory, items, (n - 1) as nat);
        assert(to_each(advisory, items.take(n as int)) =~= to_each(advisory, items.take(n - 1))
            + seq![to_iri(advisory, items[n - 1])]);
    } else {
        assert(to_each(advisory, items.take(0)) =~= Seq::empty());
    }
}

/// An advisory is linked to every package that its atoms resolve to, and to no other.
pub proof fn lemma_links_told(w: Sheet, advisory: Seq<char>, replies: Seq<AtomReply>, n: nat)
    ensures
        ({
            let first = w.log;
            let last = with_links(w, advisory, replies, n).log;
            &&& said(last, SEC@ + "advisoryForPackage"@) == said(
                first,
                SEC@ + "advisoryForPackage"@,
            ) + in_turn(|i: int| to_each(advisory, resolved(replies[i])), n)
            &&& forall|q: Seq<char>|
                q != SEC@ + "advisoryForPackage"@ ==> #[trigger] said(last, q) == said(first, q)
        }),
    decreases n,
{
    if n > 0 {
        lemma_links_told(w, advisory, replies, (n - 1) as nat);
        let packages = resolved(replies[n - 1]);
        lemma_package_links_said(
            with_links(w, advisory, replies, (n - 1) as nat),
            advisory,
            packages,
            packages.len(),
        );
        assert(packages.take(packages.len() as int) =~= packages);
    }
}

/// The advisories that are said are those of the date from which on they count and later
/// ones, in order, each linked to the packages of its atoms; and no other.
pub proof fn lemma_advisories_told(
    w: Sheet,
    c: GlsaCollector,
    advisories: Seq<Glsa>,
    replies: Seq<Vec<AtomReply>>,
    n: nat,
)
    ensures
        ({
            let first = w.log;
            let last = with_glsas(w, c, advisories, replies, n).log;
            let since = opt(c.since);
            &&& said(last, SEC@ + "advisoryId"@) == said(first, SEC@ + "advisoryId"@) + in_turn(
                |i: int|
                    where_so(
                        !announced_before(since, advisories[i].date),
                        seq![
                            to_text(
                                DATA@ + "advisory/gentoo/"@ + advisories[i].id,
                                advisories[i].id,
                            ),
                        ],
                    ),
                n,
            )
            &&& said(last, SEC@ + "advisoryForPackage"@) == said(
                first,
                SEC@ + "advisoryForPackage"@,
            ) + in_turn(
                |i: int|
                    where_so(
                        !announced_before(since, advisories[i].date),
                        in_turn(
                            |k: int|
                                to_each(
                                    DATA@ + "advisory/gentoo/"@ + advisories[i].id,
                                    resolved(replies[i]@[k]),
                                ),
                            replies[i]@.len(),
                        ),
                    ),
                n,
            )
        }),
    decreases n,
{
    broadcast use {group_writes, group_sec};

    if n > 0 {
        lemma_advisories_told(w, c, advisories, replies, (n - 1) as nat);
        let v = with_glsas(w, c, advisories, replies, (n - 1) as nat);
        let a = advisories[n - 1];
        if !announced_before(opt(c.since), a.date) {
            let node = DATA@ + "advisory/gentoo/"@ + a.id;
            let answers = replies[n - 1]@;
            lemma_advisory_head_told(v, node, a);
            let u = with_advisory_head(v, node, a);
            lemma_links_told(u, node, answers, answers.len());
            reveal_strlit("advisoryId");
            reveal_strlit("advisoryForPackage");
            reveal_strlit("advisoryType");
            reveal_strlit("advisoryDate");
            reveal_strlit("advisorySeverity");
            reveal_strlit("addressesVulnerability");
            reveal_strlit("hasAffectedRange");
            reveal_strlit("rangeType");
            reveal_strlit("hasRangeEvent");
            reveal_strlit("eventType");
            reveal_strlit("eventVersion");
            assert(said(u.log, SEC@ + "advisoryForPackage"@) == said(
                v.log,
                SEC@ + "advisoryForPackage"@,
            ));
        }
    }
}

/// No advisory of the date from which on they count is left out, nor any where there is
/// no such date.
pub proof fn lemma_dates_that_count(date: Seq<char>)
    ensures
        !announced_before(Some(date), date),
        !announced_before(None, date),
{
    lemma_order_irreflexive(date);
}

} // verus!
