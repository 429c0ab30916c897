//! What is said of Alpine packages.

use crate::alpine::{
    is_virtual, with_dependencies, with_dependency, with_dependency_match, with_dependency_word,
    with_distribution_metadata, with_each_dependency_word, with_each_provided, with_each_replaced,
    with_each_secdb_package, with_each_secfix, with_each_secfix_cve, with_maintainer,
    with_named_package, with_package_core, with_package_triples, with_provided, with_replaced,
    with_secdb_package, with_secdb_triples, with_secfix, with_secfix_cve, AlpineCollector,
    DEPENDENCY, Fix, FixedPackage, SecurityDb,
};
use crate::collect_bodhi::CVE;
use crate::deps::{contact_of, dependency_of, Dep, Dependency, MAINTAINER, Person};
use crate::forge::{issue_iri, with_dq_issue};
use crate::ntriples::{
    bnode_label, bnode_literal, bnode_object, bnode_subject, bnode_to_bnode, link, literal,
    number_if, pkg, DATA, Fact, Sheet,
};
use crate::number::i64_value;
use crate::pattern::regex_captures;
use crate::percent::{encoded, Keep};
use crate::reading::{
    group_apk, group_foaf, group_reading, group_sec, group_writes, in_turn, maybe_literal,
    number_if_any, said, text_if, to_iri, to_text, where_so, Term,
};
use crate::said_forge::lemma_dq_issue_told;
use crate::split::{words, Sep};
use crate::text::{before, starts_with};
use crate::textmap::field;
use crate::uris::{
    arch_iri, dep_type_iri, distro_iri, identity_iri, maintainer_iri, numeric_release, package_iri,
    release_iri, source_iri, spdx_iri, version_iri, APK, FOAF, RDFS_LABEL, RDF_TYPE, SEC,
};
use vstd::prelude::*;

verus! {

#[verifier::opaque]
spec fn dependency_step_1(w: Sheet, package: Seq<char>, d: Dep, node: Seq<char>) -> Sheet {
    match d.operator {
        Some(op) => {
            let w = match d.value {
                Some(value) => {
                    let limit = bnode_label("constraint"@, package + "-"@ + d.name);
                    let w = bnode_to_bnode(w, node, pkg("hasVersionConstraint"@), limit);
                    let w = bnode_subject(w, limit, RDF_TYPE@, pkg("VersionConstraint"@));
                    let w = bnode_literal(w, limit, pkg("versionConstraintOperator"@), op);
                    bnode_literal(w, limit, pkg("versionConstraintValue"@), value)
                },
                None => w,
            };
            w
        },
        None => w,
    }
}

proof fn lemma_dependency_step_1(w: Sheet, package: Seq<char>, d: Dep, node: Seq<char>)
    ensures
        ({
            let first = w.log;
            let last = dependency_step_1(w, package, d, node).log;
            &&& said(last, pkg("hasVersionConstraint"@)) == said(first, pkg("hasVersionConstraint"@))
                + (
                    match d.operator {
                        Some(op) => (
                            match d.value {
                                Some(value) => seq![
                                    (
                                        Term::Node(node),
                                        Term::Node(
                                            bnode_label("constraint"@, package + "-"@ + d.name),
                                        ),
                                    ),
                                ],
                                None => Seq::empty(),
                            }
                        ),
                        None => Seq::empty(),
                    }
                )
            &&& said(last, RDF_TYPE@) == said(first, RDF_TYPE@)
                + (
                    match d.operator {
                        Some(op) => (
                            match d.value {
                                Some(value) => seq![
                                    (
                                        Term::Node(
                                            bnode_label("constraint"@, package + "-"@ + d.name),
                                        ),
                                        Term::Iri(pkg("VersionConstraint"@)),
                                    ),
                                ],
                                None => Seq::empty(),
                            }
                        ),
                        None => Seq::empty(),
                    }
                )
            &&& said(last, pkg("versionConstraintOperator"@))
                == said(first, pkg("versionConstraintOperator"@))
                + (
                    match d.operator {
                        Some(op) => (
                            match d.value {
                                Some(value) => seq![
                                    (
                                        Term::Node(
                                            bnode_label("constraint"@, package + "-"@ + d.name),
                                        ),
                                        Term::Text(op),
                                    ),
                                ],
                                None => Seq::empty(),
                            }
                        ),
                        None => Seq::empty(),
                    }
                )
            &&& said(last, pkg("versionConstraintValue"@))
                == said(first, pkg("versionConstraintValue"@))
                + (
                    match d.operator {
                        Some(op) => (
                            match d.value {
                                Some(value) => seq![
                                    (
                                        Term::Node(
                                            bnode_label("constraint"@, package + "-"@ + d.name),
                                        ),
                                        Term::Text(value),
                                    ),
                                ],
                                None => Seq::empty(),
                            }
                        ),
                        None => Seq::empty(),
                    }
                )
            &&& forall|q: Seq<char>|
                q != pkg("hasVersionConstraint"@)
                    && q != RDF_TYPE@
                    && q != pkg("versionConstraintOperator"@)
                    && q != pkg("versionConstraintValue"@)
                    ==> #[trigger] said(last, q) == said(first, q)
        }),
{
    broadcast use group_reading;

    reveal(dependency_step_1);
    reveal_strlit("hasVersionConstraint");
    reveal_strlit("versionConstraintOperator");
    reveal_strlit("versionConstraintValue");
}

/// What is said of a dependency: that the package depends on the identity of what is named,
/// directly and through a node of its own, which has the kind and, where both parts of it
/// are known, the constraint.
pub open spec fn dependency_told(
    first: Seq<Fact>,
    last: Seq<Fact>,
    c: AlpineCollector,
    package: Seq<char>,
    kind: Seq<char>,
    d: Dep,
) -> bool {
    let target = identity_iri(c.distro_name@, c.branch@, c.arch@, d.name);
    let node = bnode_label(kind, package + "-"@ + d.name);
    &&& said(last, pkg("directlyDependsOn"@)) == said(first, pkg("directlyDependsOn"@))
        + seq![to_iri(package, target)]
    &&& said(last, pkg("hasDependency"@)) == said(first, pkg("hasDependency"@))
        + seq![(Term::Iri(package), Term::Node(node))]
    &&& said(last, RDF_TYPE@) == said(first, RDF_TYPE@)
        + seq![(Term::Node(node), Term::Iri(pkg("Dependency"@)))]
        + (
            match d.operator {
                Some(op) => (
                    match d.value {
                        Some(value) => seq![
                            (
                                Term::Node(bnode_label("constraint"@, package + "-"@ + d.name)),
                                Term::Iri(pkg("VersionConstraint"@)),
                            ),
                        ],
                        None => Seq::empty(),
                    }
                ),
                None => Seq::empty(),
            }
        )
    &&& said(last, pkg("dependencyTarget"@)) == said(first, pkg("dependencyTarget"@))
        + seq![(Term::Node(node), Term::Iri(target))]
    &&& said(last, pkg("dependencyType"@)) == said(first, pkg("dependencyType"@))
        + seq![(Term::Node(node), Term::Iri(dep_type_iri(kind)))]
    &&& said(last, pkg("hasVersionConstraint"@)) == said(first, pkg("hasVersionConstraint"@))
        + (
            match d.operator {
                Some(op) => (
                    match d.value {
                        Some(value) => seq![
                            (
                                Term::Node(node),
                                Term::Node(bnode_label("constraint"@, package + "-"@ + d.name)),
                            ),
                        ],
                        None => Seq::empty(),
                    }
                ),
                None => Seq::empty(),
            }
        )
    &&& said(last, pkg("versionConstraintOperator"@)) == said(first, pkg("versionConstraintOperator"@))
        + (
            match d.operator {
                Some(op) => (
                    match d.value {
                        Some(value) => seq![
                            (
                                Term::Node(bnode_label("constraint"@, package + "-"@ + d.name)),
                                Term::Text(op),
                            ),
                        ],
                        None => Seq::empty(),
                    }
                ),
                None => Seq::empty(),
            }
        )
    &&& said(last, pkg("versionConstraintValue"@)) == said(first, pkg("versionConstraintValue"@))
        + (
            match d.operator {
                Some(op) => (
                    match d.value {
                        Some(value) => seq![
                            (
                                Term::Node(bnode_label("constraint"@, package + "-"@ + d.name)),
                                Term::Text(value),
                            ),
                        ],
                        None => Seq::empty(),
                    }
                ),
                None => Seq::empty(),
            }
        )
    &&& forall|q: Seq<char>|
        q != pkg("directlyDependsOn"@)
            && q != pkg("hasDependency"@)
            && q != RDF_TYPE@
            && q != pkg("dependencyTarget"@)
            && q != pkg("dependencyType"@)
            && q != pkg("hasVersionConstraint"@)
            && q != pkg("versionConstraintOperator"@)
            && q != pkg("versionConstraintValue"@)
            ==> #[trigger] said(last, q) == said(first, q)
}

proof fn lemma_dependency_in_steps(
    w: Sheet,
    c: AlpineCollector,
    package: Seq<char>,
    kind: Seq<char>,
    d: Dep,
)
    ensures
        with_dependency(w, c, package, kind, d) == ({
            let target = identity_iri(c.distro_name@, c.branch@, c.arch@, d.name);
            let w = link(w, package, pkg("directlyDependsOn"@), target);
            let node = bnode_label(kind, package + "-"@ + d.name);
            let w = bnode_object(w, package, pkg("hasDependency"@), node);
            let w = bnode_subject(w, node, RDF_TYPE@, pkg("Dependency"@));
            let w = bnode_subject(w, node, pkg("dependencyTarget"@), target);
            let w = bnode_subject(w, node, pkg("dependencyType"@), dep_type_iri(kind));
            let w = dependency_step_1(w, package, d, node);
            w
        }),
{
    reveal(dependency_step_1);
}

proof fn lemma_dependency_steps(
    w: Sheet,
    c: AlpineCollector,
    package: Seq<char>,
    kind: Seq<char>,
    d: Dep,
)
    ensures
        dependency_told(w.log, ({
            let target = identity_iri(c.distro_name@, c.branch@, c.arch@, d.name);
            let w = link(w, package, pkg("directlyDependsOn"@), target);
            let node = bnode_label(kind, package + "-"@ + d.name);
            let w = bnode_object(w, package, pkg("hasDependency"@), node);
            let w = bnode_subject(w, node, RDF_TYPE@, pkg("Dependency"@));
            let w = bnode_subject(w, node, pkg("dependencyTarget"@), target);
            let w = bnode_subject(w, node, pkg("dependencyType"@), dep_type_iri(kind));
            let w = dependency_step_1(w, package, d, node);
            w
        }).log, c, package, kind, d),
{
    broadcast use group_writes;

    reveal_strlit("directlyDependsOn");
    reveal_strlit("hasDependency");
    reveal_strlit("dependencyTarget");
    reveal_strlit("dependencyType");
    reveal_strlit("hasVersionConstraint");
    reveal_strlit("versionConstraintOperator");
    reveal_strlit("versionConstraintValue");
    let target = identity_iri(c.distro_name@, c.branch@, c.arch@, d.name);
    let w1 = link(w, package, pkg("directlyDependsOn"@), target);
    let node = bnode_label(kind, package + "-"@ + d.name);
    let w2 = bnode_object(w1, package, pkg("hasDependency"@), node);
    let w3 = bnode_subject(w2, node, RDF_TYPE@, pkg("Dependency"@));
    let w4 = bnode_subject(w3, node, pkg("dependencyTarget"@), target);
    let w5 = bnode_subject(w4, node, pkg("dependencyType"@), dep_type_iri(kind));
    let w6 = dependency_step_1(w5, package, d, node);
    lemma_dependency_step_1(w5, package, d, node);
}

/// What [`with_dependency`] writes says what [`dependency_told`] states.
pub proof fn lemma_dependency_told(
    w: Sheet,
    c: AlpineCollector,
    package: Seq<char>,
    kind: Seq<char>,
    d: Dep,
)
    ensures
        dependency_told(w.log, with_dependency(w, c, package, kind, d).log, c, package, kind, d),
{
    lemma_dependency_in_steps(w, c, package, kind, d);
    lemma_dependency_steps(w, c, package, kind, d);
}

proof fn lemma_dependency_match_told(
    w: Sheet,
    c: AlpineCollector,
    package: Seq<char>,
    kind: Seq<char>,
    word: Seq<char>,
)
    ensures
        ({
            let first = w.log;
            let last = with_dependency_match(w, c, package, kind, word).log;
            &&& said(last, pkg("directlyDependsOn"@)) == said(first, pkg("directlyDependsOn"@))
                + seq![
                    to_iri(
                        package,
                        identity_iri(
                            c.distro_name@,
                            c.branch@,
                            c.arch@,
                            dependency_of(regex_captures(DEPENDENCY@, word), word).name,
                        ),
                    ),
                ]
            &&& said(last, pkg("hasDependency"@)) == said(first, pkg("hasDependency"@))
                + seq![
                    (
                        Term::Iri(package),
                        Term::Node(
                            bnode_label(
                                kind,
                                package
                                    + "-"@
                                    + dependency_of(regex_captures(DEPENDENCY@, word), word).name,
                            ),
                        ),
                    ),
                ]
            &&& said(last, RDF_TYPE@) == said(first, RDF_TYPE@)
                + seq![
                    (
                        Term::Node(
                            bnode_label(
                                kind,
                                package
                                    + "-"@
                                    + dependency_of(regex_captures(DEPENDENCY@, word), word).name,
                            ),
                        ),
                        Term::Iri(pkg("Dependency"@)),
                    ),
                ]
                + (
                    match dependency_of(regex_captures(DEPENDENCY@, word), word).operator {
                        Some(op) => (
                            match dependency_of(regex_captures(DEPENDENCY@, word), word).value {
                                Some(value) => seq![
                                    (
                                        Term::Node(
                                            bnode_label(
                                                "constraint"@,
                                                package
                                                    + "-"@
                                                    + dependency_of(
                                                        regex_captures(DEPENDENCY@, word),
                                                        word,
                                                    ).name,
                                            ),
                                        ),
                                        Term::Iri(pkg("VersionConstraint"@)),
                                    ),
                                ],
                                None => Seq::empty(),
                            }
                        ),
                        None => Seq::empty(),
                    }
                )
            &&& said(last, pkg("dependencyTarget"@)) == said(first, pkg("dependencyTarget"@))
                + seq![
                    (
                        Term::Node(
                            bnode_label(
                                kind,
                                package
                                    + "-"@
                                    + dependency_of(regex_captures(DEPENDENCY@, word), word).name,
                            ),
                        ),
                        Term::Iri(
                            identity_iri(
                                c.distro_name@,
                                c.branch@,
                                c.arch@,
                                dependency_of(regex_captures(DEPENDENCY@, word), word).name,
                            ),
                        ),
                    ),
                ]
            &&& said(last, pkg("dependencyType"@)) == said(first, pkg("dependencyType"@))
                + seq![
                    (
                        Term::Node(
                            bnode_label(
                                kind,
                                package
                                    + "-"@
                                    + dependency_of(regex_captures(DEPENDENCY@, word), word).name,
                            ),
                        ),
                        Term::Iri(dep_type_iri(kind)),
                    ),
                ]
            &&& said(last, pkg("hasVersionConstraint"@)) == said(first, pkg("hasVersionConstraint"@))
                + (
                    match dependency_of(regex_captures(DEPENDENCY@, word), word).operator {
                        Some(op) => (
                            match dependency_of(regex_captures(DEPENDENCY@, word), word).value {
                                Some(value) => seq![
                                    (
                                        Term::Node(
                                            bnode_label(
                                                kind,
                                                package
                                                    + "-"@
                                                    + dependency_of(
                                                        regex_captures(DEPENDENCY@, word),
                                                        word,
                                                    ).name,
                                            ),
                                        ),
                                        Term::Node(
                                            bnode_label(
                                                "constraint"@,
                                                package
                                                    + "-"@
                                                    + dependency_of(
                                                        regex_captures(DEPENDENCY@, word),
                                                        word,
                                                    ).name,
                                            ),
                                        ),
                                    ),
                                ],
                                None => Seq::empty(),
                            }
                        ),
                        None => Seq::empty(),
                    }
                )
            &&& said(last, pkg("versionConstraintOperator"@))
                == said(first, pkg("versionConstraintOperator"@))
                + (
                    match dependency_of(regex_captures(DEPENDENCY@, word), word).operator {
                        Some(op) => (
                            match dependency_of(regex_captures(DEPENDENCY@, word), word).value {
                                Some(value) => seq![
                                    (
                                        Term::Node(
                                            bnode_label(
                                                "constraint"@,
                                                package
                                                    + "-"@
                                                    + dependency_of(
                                                        regex_captures(DEPENDENCY@, word),
                                                        word,
                                                    ).name,
                                            ),
                                        ),
                                        Term::Text(op),
                                    ),
                                ],
                                None => Seq::empty(),
                            }
                        ),
                        None => Seq::empty(),
                    }
                )
            &&& said(last, pkg("versionConstraintValue"@))
                == said(first, pkg("versionConstraintValue"@))
                + (
                    match dependency_of(regex_captures(DEPENDENCY@, word), word).operator {
                        Some(op) => (
                            match dependency_of(regex_captures(DEPENDENCY@, word), word).value {
                                Some(value) => seq![
                                    (
                                        Term::Node(
                                            bnode_label(
                                                "constraint"@,
                                                package
                                                    + "-"@
                                                    + dependency_of(
                                                        regex_captures(DEPENDENCY@, word),
                                                        word,
                                                    ).name,
                                            ),
                                        ),
                                        Term::Text(value),
                                    ),
                                ],
                                None => Seq::empty(),
                            }
                        ),
                        None => Seq::empty(),
                    }
                )
            &&& forall|q: Seq<char>|
                q != pkg("directlyDependsOn"@)
                    && q != pkg("hasDependency"@)
                    && q != RDF_TYPE@
                    && q != pkg("dependencyTarget"@)
                    && q != pkg("dependencyType"@)
                    && q != pkg("hasVersionConstraint"@)
                    && q != pkg("versionConstraintOperator"@)
                    && q != pkg("versionConstraintValue"@)
                    ==> #[trigger] said(last, q) == said(first, q)
        }),
{
    broadcast use group_reading;

    reveal_strlit("directlyDependsOn");
    reveal_strlit("hasDependency");
    reveal_strlit("dependencyTarget");
    reveal_strlit("dependencyType");
    reveal_strlit("hasVersionConstraint");
    reveal_strlit("versionConstraintOperator");
    reveal_strlit("versionConstraintValue");
    lemma_dependency_told(
        w,
        c,
        package,
        kind,
        dependency_of(regex_captures(DEPENDENCY@, word), word),
    );
}

proof fn lemma_dependency_word_told(
    w: Sheet,
    c: AlpineCollector,
    package: Seq<char>,
    kind: Seq<char>,
    word: Seq<char>,
)
    ensures
        ({
            let first = w.log;
            let last = with_dependency_word(w, c, package, kind, word).log;
            &&& said(last, pkg("directlyDependsOn"@)) == said(first, pkg("directlyDependsOn"@))
                + where_so(
                    !is_virtual(word),
                    seq![
                        to_iri(
                            package,
                            identity_iri(
                                c.distro_name@,
                                c.branch@,
                                c.arch@,
                                dependency_of(regex_captures(DEPENDENCY@, word), word).name,
                            ),
                        ),
                    ],
                )
            &&& said(last, pkg("hasDependency"@)) == said(first, pkg("hasDependency"@))
                + where_so(
                    !is_virtual(word),
                    seq![
                        (
                            Term::Iri(package),
                            Term::Node(
                                bnode_label(
                                    kind,
                                    package
                                        + "-"@
                                        + dependency_of(
                                            regex_captures(DEPENDENCY@, word),
                                            word,
                                        ).name,
                                ),
                            ),
                        ),
                    ],
                )
            &&& said(last, RDF_TYPE@) == said(first, RDF_TYPE@)
                + where_so(
                    !is_virtual(word),
                    seq![
                        (
                            Term::Node(
                                bnode_label(
                                    kind,
                                    package
                                        + "-"@
                                        + dependency_of(
                                            regex_captures(DEPENDENCY@, word),
                                            word,
                                        ).name,
                                ),
                            ),
                            Term::Iri(pkg("Dependency"@)),
                        ),
                    ],
                )
                + where_so(
                    !is_virtual(word),
                    (
                        match dependency_of(regex_captures(DEPENDENCY@, word), word).operator {
                            Some(op) => (
                                match dependency_of(regex_captures(DEPENDENCY@, word), word).value {
                                    Some(value) => seq![
                                        (
                                            Term::Node(
                                                bnode_label(
                                                    "constraint"@,
                                                    package
                                                        + "-"@
                                                        + dependency_of(
                                                            regex_captures(DEPENDENCY@, word),
                                                            word,
                                                        ).name,
                                                ),
                                            ),
                                            Term::Iri(pkg("VersionConstraint"@)),
                                        ),
                                    ],
                                    None => Seq::empty(),
                                }
                            ),
                            None => Seq::empty(),
                        }
                    ),
                )
            &&& said(last, pkg("dependencyTarget"@)) == said(first, pkg("dependencyTarget"@))
                + where_so(
                    !is_virtual(word),
                    seq![
                        (
                            Term::Node(
                                bnode_label(
                                    kind,
                                    package
                                        + "-"@
                                        + dependency_of(
                                            regex_captures(DEPENDENCY@, word),
                                            word,
                                        ).name,
                                ),
                            ),
                            Term::Iri(
                                identity_iri(
                                    c.distro_name@,
                                    c.branch@,
                                    c.arch@,
                                    dependency_of(regex_captures(DEPENDENCY@, word), word).name,
                                ),
                            ),
                        ),
                    ],
                )
            &&& said(last, pkg("dependencyType"@)) == said(first, pkg("dependencyType"@))
                + where_so(
                    !is_virtual(word),
                    seq![
                        (
                            Term::Node(
                                bnode_label(
                                    kind,
                                    package
                                        + "-"@
                                        + dependency_of(
                                            regex_captures(DEPENDENCY@, word),
                                            word,
                                        ).name,
                                ),
                            ),
                            Term::Iri(dep_type_iri(kind)),
                        ),
                    ],
                )
            &&& said(last, pkg("hasVersionConstraint"@)) == said(first, pkg("hasVersionConstraint"@))
                + where_so(
                    !is_virtual(word),
                    (
                        match dependency_of(regex_captures(DEPENDENCY@, word), word).operator {
                            Some(op) => (
                                match dependency_of(regex_captures(DEPENDENCY@, word), word).value {
                                    Some(value) => seq![
                                        (
                                            Term::Node(
                                                bnode_label(
                                                    kind,
                                                    package
                                                        + "-"@
                                                        + dependency_of(
                                                            regex_captures(DEPENDENCY@, word),
                                                            word,
                                                        ).name,
                                                ),
                                            ),
                                            Term::Node(
                                                bnode_label(
                                                    "constraint"@,
                                                    package
                                                        + "-"@
                                                        + dependency_of(
                                                            regex_captures(DEPENDENCY@, word),
                                                            word,
                                                        ).name,
                                                ),
                                            ),
                                        ),
                                    ],
                                    None => Seq::empty(),
                                }
                            ),
                            None => Seq::empty(),
                        }
                    ),
                )
            &&& said(last, pkg("versionConstraintOperator"@))
                == said(first, pkg("versionConstraintOperator"@))
                + where_so(
                    !is_virtual(word),
                    (
                        match dependency_of(regex_captures(DEPENDENCY@, word), word).operator {
                            Some(op) => (
                                match dependency_of(regex_captures(DEPENDENCY@, word), word).value {
                                    Some(value) => seq![
                                        (
                                            Term::Node(
                                                bnode_label(
                                                    "constraint"@,
                                                    package
                                                        + "-"@
                                                        + dependency_of(
                                                            regex_captures(DEPENDENCY@, word),
                                                            word,
                                                        ).name,
                                                ),
                                            ),
                                            Term::Text(op),
                                        ),
                                    ],
                                    None => Seq::empty(),
                                }
                            ),
                            None => Seq::empty(),
                        }
                    ),
                )
            &&& said(last, pkg("versionConstraintValue"@))
                == said(first, pkg("versionConstraintValue"@))
                + where_so(
                    !is_virtual(word),
                    (
                        match dependency_of(regex_captures(DEPENDENCY@, word), word).operator {
                            Some(op) => (
                                match dependency_of(regex_captures(DEPENDENCY@, word), word).value {
                                    Some(value) => seq![
                                        (
                                            Term::Node(
                                                bnode_label(
                                                    "constraint"@,
                                                    package
                                                        + "-"@
                                                        + dependency_of(
                                                            regex_captures(DEPENDENCY@, word),
                                                            word,
                                                        ).name,
                                                ),
                                            ),
                                            Term::Text(value),
                                        ),
                                    ],
                                    None => Seq::empty(),
                                }
                            ),
                            None => Seq::empty(),
                        }
                    ),
                )
            &&& forall|q: Seq<char>|
                q != pkg("directlyDependsOn"@)
                    && q != pkg("hasDependency"@)
                    && q != RDF_TYPE@
                    && q != pkg("dependencyTarget"@)
                    && q != pkg("dependencyType"@)
                    && q != pkg("hasVersionConstraint"@)
                    && q != pkg("versionConstraintOperator"@)
                    && q != pkg("versionConstraintValue"@)
                    ==> #[trigger] said(last, q) == said(first, q)
        }),
{
    broadcast use group_reading;

    reveal_strlit("directlyDependsOn");
    reveal_strlit("hasDependency");
    reveal_strlit("dependencyTarget");
    reveal_strlit("dependencyType");
    reveal_strlit("hasVersionConstraint");
    reveal_strlit("versionConstraintOperator");
    reveal_strlit("versionConstraintValue");
    if !is_virtual(word) {
        lemma_dependency_match_told(w, c, package, kind, word);
    } else {
    }
}

proof fn lemma_dependency_words_told(
    w: Sheet,
    c: AlpineCollector,
    package: Seq<char>,
    kind: Seq<char>,
    items: Seq<Seq<char>>,
    n: nat,
)
    ensures
        ({
            let first = w.log;
            let last = with_each_dependency_word(w, c, package, kind, items, n).log;
            &&& said(last, pkg("directlyDependsOn"@)) == said(first, pkg("directlyDependsOn"@))
                + in_turn(
                    |k: int|
                        where_so(
                            !is_virtual((items[k])),
                            seq![
                                to_iri(
                                    package,
                                    identity_iri(
                                        c.distro_name@,
                                        c.branch@,
                                        c.arch@,
                                        dependency_of(
                                            regex_captures(DEPENDENCY@, (items[k])),
                                            (items[k]),
                                        ).name,
                                    ),
                                ),
                            ],
                        ),
                    n,
                )
            &&& said(last, pkg("hasDependency"@)) == said(first, pkg("hasDependency"@))
                + in_turn(
                    |k: int|
                        where_so(
                            !is_virtual((items[k])),
                            seq![
                                (
                                    Term::Iri(package),
                                    Term::Node(
                                        bnode_label(
                                            kind,
                                            package
                                                + "-"@
                                                + dependency_of(
                                                    regex_captures(DEPENDENCY@, (items[k])),
                                                    (items[k]),
                                                ).name,
                                        ),
                                    ),
                                ),
                            ],
                        ),
                    n,
                )
            &&& said(last, RDF_TYPE@) == said(first, RDF_TYPE@)
                + in_turn(
                    |k: int|
                        where_so(
                            !is_virtual((items[k])),
                            seq![
                                (
                                    Term::Node(
                                        bnode_label(
                                            kind,
                                            package
                                                + "-"@
                                                + dependency_of(
                                                    regex_captures(DEPENDENCY@, (items[k])),
                                                    (items[k]),
                                                ).name,
                                        ),
                                    ),
                                    Term::Iri(pkg("Dependency"@)),
                                ),
                            ],
                        )
                            + where_so(
                                !is_virtual((items[k])),
                                (
                                    match dependency_of(regex_captures(DEPENDENCY@, (items[k])), (items[k])).operator {
                                        Some(op) => (
                                            match dependency_of(regex_captures(DEPENDENCY@, (items[k])), (items[k])).value {
                                                Some(value) => seq![
                                                    (
                                                        Term::Node(
                                                            bnode_label(
                                                                "constraint"@,
                                                                package
                                                                    + "-"@
                                                                    + dependency_of(
                                                                        regex_captures(
                                                                            DEPENDENCY@,
                                                                            (items[k]),
                                                                        ),
                                                                        (items[k]),
                                                                    ).name,
                                                            ),
                                                        ),
                                                        Term::Iri(pkg("VersionConstraint"@)),
                                                    ),
                                                ],
                                                None => Seq::empty(),
                                            }
                                        ),
                                        None => Seq::empty(),
                                    }
                                ),
                            ),
                    n,
                )
            &&& said(last, pkg("dependencyTarget"@)) == said(first, pkg("dependencyTarget"@))
                + in_turn(
                    |k: int|
                        where_so(
                            !is_virtual((items[k])),
                            seq![
                                (
                                    Term::Node(
                                        bnode_label(
                                            kind,
                                            package
                                                + "-"@
                                                + dependency_of(
                                                    regex_captures(DEPENDENCY@, (items[k])),
                                                    (items[k]),
                                                ).name,
                                        ),
                                    ),
                                    Term::Iri(
                                        identity_iri(
                                            c.distro_name@,
                                            c.branch@,
                                            c.arch@,
                                            dependency_of(
                                                regex_captures(DEPENDENCY@, (items[k])),
                                                (items[k]),
                                            ).name,
                                        ),
                                    ),
                                ),
                            ],
                        ),
                    n,
                )
            &&& said(last, pkg("dependencyType"@)) == said(first, pkg("dependencyType"@))
                + in_turn(
                    |k: int|
                        where_so(
                            !is_virtual((items[k])),
                            seq![
                                (
                                    Term::Node(
                                        bnode_label(
                                            kind,
                                            package
                                                + "-"@
                                                + dependency_of(
                                                    regex_captures(DEPENDENCY@, (items[k])),
                                                    (items[k]),
                                                ).name,
                                        ),
                                    ),
                                    Term::Iri(dep_type_iri(kind)),
                                ),
                            ],
                        ),
                    n,
                )
            &&& said(last, pkg("hasVersionConstraint"@)) == said(first, pkg("hasVersionConstraint"@))
                + in_turn(
                    |k: int|
                        where_so(
                            !is_virtual((items[k])),
                            (
                                match dependency_of(regex_captures(DEPENDENCY@, (items[k])), (items[k])).operator {
                                    Some(op) => (
                                        match dependency_of(regex_captures(DEPENDENCY@, (items[k])), (items[k])).value {
                                            Some(value) => seq![
                                                (
                                                    Term::Node(
                                                        bnode_label(
                                                            kind,
                                                            package
                                                                + "-"@
                                                                + dependency_of(
                                                                    regex_captures(
                                                                        DEPENDENCY@,
                                                                        (items[k]),
                                                                    ),
                                                                    (items[k]),
                                                                ).name,
                                                        ),
                                                    ),
                                                    Term::Node(
                                                        bnode_label(
                                                            "constraint"@,
                                                            package
                                                                + "-"@
                                                                + dependency_of(
                                                                    regex_captures(
                                                                        DEPENDENCY@,
                                                                        (items[k]),
                                                                    ),
                                                                    (items[k]),
                                                                ).name,
                                                        ),
                                                    ),
                                                ),
                                            ],
                                            None => Seq::empty(),
                                        }
                                    ),
                                    None => Seq::empty(),
                                }
                            ),
                        ),
                    n,
                )
            &&& said(last, pkg("versionConstraintOperator"@))
                == said(first, pkg("versionConstraintOperator"@))
                + in_turn(
                    |k: int|
                        where_so(
                            !is_virtual((items[k])),
                            (
                                match dependency_of(regex_captures(DEPENDENCY@, (items[k])), (items[k])).operator {
                                    Some(op) => (
                                        match dependency_of(regex_captures(DEPENDENCY@, (items[k])), (items[k])).value {
                                            Some(value) => seq![
                                                (
                                                    Term::Node(
                                                        bnode_label(
                                                            "constraint"@,
                                                            package
                                                                + "-"@
                                                                + dependency_of(
                                                                    regex_captures(
                                                                        DEPENDENCY@,
                                                                        (items[k]),
                                                                    ),
                                                                    (items[k]),
                                                                ).name,
                                                        ),
                                                    ),
                                                    Term::Text(op),
                                                ),
                                            ],
                                            None => Seq::empty(),
                                        }
                                    ),
                                    None => Seq::empty(),
                                }
                            ),
                        ),
                    n,
                )
            &&& said(last, pkg("versionConstraintValue"@))
                == said(first, pkg("versionConstraintValue"@))
                + in_turn(
                    |k: int|
                        where_so(
                            !is_virtual((items[k])),
                            (
                                match dependency_of(regex_captures(DEPENDENCY@, (items[k])), (items[k])).operator {
                                    Some(op) => (
                                        match dependency_of(regex_captures(DEPENDENCY@, (items[k])), (items[k])).value {
                                            Some(value) => seq![
                                                (
                                                    Term::Node(
                                                        bnode_label(
                                                            "constraint"@,
                                                            package
                                                                + "-"@
                                                                + dependency_of(
                                                                    regex_captures(
                                                                        DEPENDENCY@,
                                                                        (items[k]),
                                                                    ),
                                                                    (items[k]),
                                                                ).name,
                                                        ),
                                                    ),
                                                    Term::Text(value),
                                                ),
                                            ],
                                            None => Seq::empty(),
                                        }
                                    ),
                                    None => Seq::empty(),
                                }
                            ),
                        ),
                    n,
                )
            &&& forall|q: Seq<char>|
                q != pkg("directlyDependsOn"@)
                    && q != pkg("hasDependency"@)
                    && q != RDF_TYPE@
                    && q != pkg("dependencyTarget"@)
                    && q != pkg("dependencyType"@)
                    && q != pkg("hasVersionConstraint"@)
                    && q != pkg("versionConstraintOperator"@)
                    && q != pkg("versionConstraintValue"@)
                    ==> #[trigger] said(last, q) == said(first, q)
        }),
    decreases n,
{
    broadcast use group_writes;

    reveal_strlit("directlyDependsOn");
    reveal_strlit("hasDependency");
    reveal_strlit("dependencyTarget");
    reveal_strlit("dependencyType");
    reveal_strlit("hasVersionConstraint");
    reveal_strlit("versionConstraintOperator");
    reveal_strlit("versionConstraintValue");
    if n > 0 {
        lemma_dependency_words_told(w, c, package, kind, items, (n - 1) as nat);
        lemma_dependency_word_told(
            with_each_dependency_word(w, c, package, kind, items, (n - 1) as nat),
            c,
            package,
            kind,
            items[n - 1],
        );
    }
}

proof fn lemma_dependencies_told(
    w: Sheet,
    c: AlpineCollector,
    package: Seq<char>,
    list: Seq<char>,
    kind: Seq<char>,
)
    ensures
        ({
            let first = w.log;
            let last = with_dependencies(w, c, package, list, kind).log;
            let entries = words(list, Sep::Blank);
            &&& said(last, pkg("directlyDependsOn"@)) == said(first, pkg("directlyDependsOn"@))
                + in_turn(
                    |k: int|
                        where_so(
                            !is_virtual((entries[k])),
                            seq![
                                to_iri(
                                    package,
                                    identity_iri(
                                        c.distro_name@,
                                        c.branch@,
                                        c.arch@,
                                        dependency_of(
                                            regex_captures(DEPENDENCY@, (entries[k])),
                                            (entries[k]),
                                        ).name,
                                    ),
                                ),
                            ],
                        ),
                    (entries.len()),
                )
            &&& said(last, pkg("hasDependency"@)) == said(first, pkg("hasDependency"@))
                + in_turn(
                    |k: int|
                        where_so(
                            !is_virtual((entries[k])),
                            seq![
                                (
                                    Term::Iri(package),
                                    Term::Node(
                                        bnode_label(
                                            kind,
                                            package
                                                + "-"@
                                                + dependency_of(
                                                    regex_captures(DEPENDENCY@, (entries[k])),
                                                    (entries[k]),
                                                ).name,
                                        ),
                                    ),
                                ),
                            ],
                        ),
                    (entries.len()),
                )
            &&& said(last, RDF_TYPE@) == said(first, RDF_TYPE@)
                + in_turn(
                    |k: int|
                        where_so(
                            !is_virtual((entries[k])),
                            seq![
                                (
                                    Term::Node(
                                        bnode_label(
                                            kind,
                                            package
                                                + "-"@
                                                + dependency_of(
                                                    regex_captures(DEPENDENCY@, (entries[k])),
                                                    (entries[k]),
                                                ).name,
                                        ),
                                    ),
                                    Term::Iri(pkg("Dependency"@)),
                                ),
                            ],
                        )
                            + where_so(
                                !is_virtual((entries[k])),
                                (
                                    match dependency_of(regex_captures(DEPENDENCY@, (entries[k])), (entries[k])).operator {
                                        Some(op) => (
                                            match dependency_of(regex_captures(DEPENDENCY@, (entries[k])), (entries[k])).value {
                                                Some(value) => seq![
                                                    (
                                                        Term::Node(
                                                            bnode_label(
                                                                "constraint"@,
                                                                package
                                                                    + "-"@
                                                                    + dependency_of(
                                                                        regex_captures(
                                                                            DEPENDENCY@,
                                                                            (entries[k]),
                                                                        ),
                                                                        (entries[k]),
                                                                    ).name,
                                                            ),
                                                        ),
                                                        Term::Iri(pkg("VersionConstraint"@)),
                                                    ),
                                                ],
                                                None => Seq::empty(),
                                            }
                                        ),
                                        None => Seq::empty(),
                                    }
                                ),
                            ),
                    (entries.len()),
                )
            &&& said(last, pkg("dependencyTarget"@)) == said(first, pkg("dependencyTarget"@))
                + in_turn(
                    |k: int|
                        where_so(
                            !is_virtual((entries[k])),
                            seq![
                                (
                                    Term::Node(
                                        bnode_label(
                                            kind,
                                            package
                                                + "-"@
                                                + dependency_of(
                                                    regex_captures(DEPENDENCY@, (entries[k])),
                                                    (entries[k]),
                                                ).name,
                                        ),
                                    ),
                                    Term::Iri(
                                        identity_iri(
                                            c.distro_name@,
                                            c.branch@,
                                            c.arch@,
                                            dependency_of(
                                                regex_captures(DEPENDENCY@, (entries[k])),
                                                (entries[k]),
                                            ).name,
                                        ),
                                    ),
                                ),
                            ],
                        ),
                    (entries.len()),
                )
            &&& said(last, pkg("dependencyType"@)) == said(first, pkg("dependencyType"@))
                + in_turn(
                    |k: int|
                        where_so(
                            !is_virtual((entries[k])),
                            seq![
                                (
                                    Term::Node(
                                        bnode_label(
                                            kind,
                                            package
                                                + "-"@
                                                + dependency_of(
                                                    regex_captures(DEPENDENCY@, (entries[k])),
                                                    (entries[k]),
                                                ).name,
                                        ),
                                    ),
                                    Term::Iri(dep_type_iri(kind)),
                                ),
                            ],
                        ),
                    (entries.len()),
                )
            &&& said(last, pkg("hasVersionConstraint"@)) == said(first, pkg("hasVersionConstraint"@))
                + in_turn(
                    |k: int|
                        where_so(
                            !is_virtual((entries[k])),
                            (
                                match dependency_of(regex_captures(DEPENDENCY@, (entries[k])), (entries[k])).operator {
                                    Some(op) => (
                                        match dependency_of(regex_captures(DEPENDENCY@, (entries[k])), (entries[k])).value {
                                            Some(value) => seq![
                                                (
                                                    Term::Node(
                                                        bnode_label(
                                                            kind,
                                                            package
                                                                + "-"@
                                                                + dependency_of(
                                                                    regex_captures(
                                                                        DEPENDENCY@,
                                                                        (entries[k]),
                                                                    ),
                                                                    (entries[k]),
                                                                ).name,
                                                        ),
                                                    ),
                                                    Term::Node(
                                                        bnode_label(
                                                            "constraint"@,
                                                            package
                                                                + "-"@
                                                                + dependency_of(
                                                                    regex_captures(
                                                                        DEPENDENCY@,
                                                                        (entries[k]),
                                                                    ),
                                                                    (entries[k]),
                                                                ).name,
                                                        ),
                                                    ),
                                                ),
                                            ],
                                            None => Seq::empty(),
                                        }
                                    ),
                                    None => Seq::empty(),
                                }
                            ),
                        ),
                    (entries.len()),
                )
            &&& said(last, pkg("versionConstraintOperator"@))
                == said(first, pkg("versionConstraintOperator"@))
                + in_turn(
                    |k: int|
                        where_so(
                            !is_virtual((entries[k])),
                            (
                                match dependency_of(regex_captures(DEPENDENCY@, (entries[k])), (entries[k])).operator {
                                    Some(op) => (
                                        match dependency_of(regex_captures(DEPENDENCY@, (entries[k])), (entries[k])).value {
                                            Some(value) => seq![
                                                (
                                                    Term::Node(
                                                        bnode_label(
                                                            "constraint"@,
                                                            package
                                                                + "-"@
                                                                + dependency_of(
                                                                    regex_captures(
                                                                        DEPENDENCY@,
                                                                        (entries[k]),
                                                                    ),
                                                                    (entries[k]),
                                                                ).name,
                                                        ),
                                                    ),
                                                    Term::Text(op),
                                                ),
                                            ],
                                            None => Seq::empty(),
                                        }
                                    ),
                                    None => Seq::empty(),
                                }
                            ),
                        ),
                    (entries.len()),
                )
            &&& said(last, pkg("versionConstraintValue"@))
                == said(first, pkg("versionConstraintValue"@))
                + in_turn(
                    |k: int|
                        where_so(
                            !is_virtual((entries[k])),
                            (
                                match dependency_of(regex_captures(DEPENDENCY@, (entries[k])), (entries[k])).operator {
                                    Some(op) => (
                                        match dependency_of(regex_captures(DEPENDENCY@, (entries[k])), (entries[k])).value {
                                            Some(value) => seq![
                                                (
                                                    Term::Node(
                                                        bnode_label(
                                                            "constraint"@,
                                                            package
                                                                + "-"@
                                                                + dependency_of(
                                                                    regex_captures(
                                                                        DEPENDENCY@,
                                                                        (entries[k]),
                                                                    ),
                                                                    (entries[k]),
                                                                ).name,
                                                        ),
                                                    ),
                                                    Term::Text(value),
                                                ),
                                            ],
                                            None => Seq::empty(),
                                        }
                                    ),
                                    None => Seq::empty(),
                                }
                            ),
                        ),
                    (entries.len()),
                )
            &&& forall|q: Seq<char>|
                q != pkg("directlyDependsOn"@)
                    && q != pkg("hasDependency"@)
                    && q != RDF_TYPE@
                    && q != pkg("dependencyTarget"@)
                    && q != pkg("dependencyType"@)
                    && q != pkg("hasVersionConstraint"@)
                    && q != pkg("versionConstraintOperator"@)
                    && q != pkg("versionConstraintValue"@)
                    ==> #[trigger] said(last, q) == said(first, q)
        }),
{
    broadcast use group_reading;

    reveal_strlit("directlyDependsOn");
    reveal_strlit("hasDependency");
    reveal_strlit("dependencyTarget");
    reveal_strlit("dependencyType");
    reveal_strlit("hasVersionConstraint");
    reveal_strlit("versionConstraintOperator");
    reveal_strlit("versionConstraintValue");
    let entries = words(list, Sep::Blank);
    lemma_dependency_words_told(w, c, package, kind, entries, entries.len());
}

proof fn lemma_provided_told(w: Sheet, package: Seq<char>, word: Seq<char>)
    ensures
        ({
            let first = w.log;
            let last = with_provided(w, package, word).log;
            &&& said(last, pkg("provides"@)) == said(first, pkg("provides"@))
                + seq![to_text(package, before(word, "="@))]
            &&& forall|q: Seq<char>|
                q != pkg("provides"@) ==> #[trigger] said(last, q) == said(first, q)
        }),
{
    broadcast use group_reading;

    reveal_strlit("provides");
}

proof fn lemma_provided_words_told(w: Sheet, package: Seq<char>, items: Seq<Seq<char>>, n: nat)
    ensures
        ({
            let first = w.log;
            let last = with_each_provided(w, package, items, n).log;
            &&& said(last, pkg("provides"@)) == said(first, pkg("provides"@))
                + in_turn(|k: int| seq![to_text(package, before((items[k]), "="@))], n)
            &&& forall|q: Seq<char>|
                q != pkg("provides"@) ==> #[trigger] said(last, q) == said(first, q)
        }),
    decreases n,
{
    broadcast use group_writes;

    reveal_strlit("provides");
    if n > 0 {
        lemma_provided_words_told(w, package, items, (n - 1) as nat);
        lemma_provided_told(
            with_each_provided(w, package, items, (n - 1) as nat),
            package,
            items[n - 1],
        );
    }
}

proof fn lemma_replaced_told(w: Sheet, package: Seq<char>, word: Seq<char>)
    ensures
        ({
            let first = w.log;
            let last = with_replaced(w, package, word).log;
            &&& said(last, pkg("replaces"@)) == said(first, pkg("replaces"@))
                + seq![to_text(package, word)]
            &&& forall|q: Seq<char>|
                q != pkg("replaces"@) ==> #[trigger] said(last, q) == said(first, q)
        }),
{
    broadcast use group_reading;

    reveal_strlit("replaces");
}

proof fn lemma_replaced_words_told(w: Sheet, package: Seq<char>, items: Seq<Seq<char>>, n: nat)
    ensures
        ({
            let first = w.log;
            let last = with_each_replaced(w, package, items, n).log;
            &&& said(last, pkg("replaces"@)) == said(first, pkg("replaces"@))
                + in_turn(|k: int| seq![to_text(package, (items[k]))], n)
            &&& forall|q: Seq<char>|
                q != pkg("replaces"@) ==> #[trigger] said(last, q) == said(first, q)
        }),
    decreases n,
{
    broadcast use group_writes;

    reveal_strlit("replaces");
    if n > 0 {
        lemma_replaced_words_told(w, package, items, (n - 1) as nat);
        lemma_replaced_told(
            with_each_replaced(w, package, items, (n - 1) as nat),
            package,
            items[n - 1],
        );
    }
}

#[verifier::opaque]
spec fn package_core_step_1(
    w: Sheet,
    fields: Map<Seq<char>, Seq<char>>,
    package: Seq<char>,
) -> Sheet {
    match field(fields, "L"@) {
        Some(x) => {
            let w = literal(w, package, pkg("licenseName"@), x);
            let license = spdx_iri(x);
            let w = link(w, package, pkg("hasLicense"@), license);
            link(w, license, RDF_TYPE@, pkg("License"@))
        },
        None => w,
    }
}

proof fn lemma_package_core_step_1(w: Sheet, fields: Map<Seq<char>, Seq<char>>, package: Seq<char>)
    ensures
        ({
            let first = w.log;
            let last = package_core_step_1(w, fields, package).log;
            &&& said(last, pkg("licenseName"@)) == said(first, pkg("licenseName"@))
                + (
                    match field(fields, "L"@) {
                        Some(x) => seq![to_text(package, x)],
                        None => Seq::empty(),
                    }
                )
            &&& said(last, pkg("hasLicense"@)) == said(first, pkg("hasLicense"@))
                + (
                    match field(fields, "L"@) {
                        Some(x) => seq![to_iri(package, spdx_iri(x))],
                        None => Seq::empty(),
                    }
                )
            &&& said(last, RDF_TYPE@) == said(first, RDF_TYPE@)
                + (
                    match field(fields, "L"@) {
                        Some(x) => seq![to_iri(spdx_iri(x), pkg("License"@))],
                        None => Seq::empty(),
                    }
                )
            &&& forall|q: Seq<char>|
                q != pkg("licenseName"@) && q != pkg("hasLicense"@) && q != RDF_TYPE@
                    ==> #[trigger] said(last, q) == said(first, q)
        }),
{
    broadcast use group_reading;

    reveal(package_core_step_1);
    reveal_strlit("licenseName");
    reveal_strlit("hasLicense");
}

#[verifier::opaque]
spec fn package_core_step_2(
    w: Sheet,
    fields: Map<Seq<char>, Seq<char>>,
    package: Seq<char>,
) -> Sheet {
    match field(fields, "S"@) {
        Some(x) => { number_if(w, package, pkg("packageSize"@), i64_value(x)) },
        None => w,
    }
}

proof fn lemma_package_core_step_2(w: Sheet, fields: Map<Seq<char>, Seq<char>>, package: Seq<char>)
    ensures
        ({
            let first = w.log;
            let last = package_core_step_2(w, fields, package).log;
            &&& said(last, pkg("packageSize"@)) == said(first, pkg("packageSize"@))
                + (
                    match field(fields, "S"@) {
                        Some(x) => number_if_any(package, i64_value(x)),
                        None => Seq::empty(),
                    }
                )
            &&& forall|q: Seq<char>|
                q != pkg("packageSize"@) ==> #[trigger] said(last, q) == said(first, q)
        }),
{
    broadcast use group_reading;

    reveal(package_core_step_2);
    reveal_strlit("packageSize");
}

#[verifier::opaque]
spec fn package_core_step_3(
    w: Sheet,
    fields: Map<Seq<char>, Seq<char>>,
    package: Seq<char>,
) -> Sheet {
    match field(fields, "I"@) {
        Some(x) => { number_if(w, package, pkg("installSize"@), i64_value(x)) },
        None => w,
    }
}

proof fn lemma_package_core_step_3(w: Sheet, fields: Map<Seq<char>, Seq<char>>, package: Seq<char>)
    ensures
        ({
            let first = w.log;
            let last = package_core_step_3(w, fields, package).log;
            &&& said(last, pkg("installSize"@)) == said(first, pkg("installSize"@))
                + (
                    match field(fields, "I"@) {
                        Some(x) => number_if_any(package, i64_value(x)),
                        None => Seq::empty(),
                    }
                )
            &&& forall|q: Seq<char>|
                q != pkg("installSize"@) ==> #[trigger] said(last, q) == said(first, q)
        }),
{
    broadcast use group_reading;

    reveal(package_core_step_3);
    reveal_strlit("installSize");
}

/// What is said of a package itself: what it is, its name and version and the identity that
/// it is a version of, its architecture, distribution, release and repository, and each
/// field that it has by the property of that field.
pub open spec fn package_core_told(
    first: Seq<Fact>,
    last: Seq<Fact>,
    c: AlpineCollector,
    fields: Map<Seq<char>, Seq<char>>,
    repo: Seq<char>,
    name: Seq<char>,
    version: Seq<char>,
) -> bool {
    let package = package_iri(c.distro_name@, c.branch@, c.arch@, name, version);
    let identity = identity_iri(c.distro_name@, c.branch@, c.arch@, name);
    let ver = version_iri(c.distro_name@, c.branch@, name, version);
    let arch = arch_iri(c.arch@);
    let dist = distro_iri(c.distro_name@);
    let rel = release_iri(c.distro_name@, c.branch@);
    &&& said(last, RDF_TYPE@) == said(first, RDF_TYPE@)
        + seq![to_iri(package, pkg("BinaryPackage"@))]
        + seq![to_iri(package, APK@ + "ApkPackage"@)]
        + seq![to_iri(identity, pkg("PackageIdentity"@))]
        + seq![to_iri(ver, pkg("Version"@))]
        + (
            match field(fields, "L"@) {
                Some(x) => seq![to_iri(spdx_iri(x), pkg("License"@))],
                None => Seq::empty(),
            }
        )
    &&& said(last, pkg("packageName"@)) == said(first, pkg("packageName"@))
        + seq![to_text(identity, name)]
        + seq![to_text(package, name)]
    &&& said(last, pkg("isVersionOf"@)) == said(first, pkg("isVersionOf"@))
        + seq![to_iri(package, identity)]
    &&& said(last, pkg("versionString"@)) == said(first, pkg("versionString"@))
        + seq![to_text(ver, version)]
    &&& said(last, pkg("hasVersion"@)) == said(first, pkg("hasVersion"@))
        + seq![to_iri(package, ver)]
    &&& said(last, pkg("targetArchitecture"@)) == said(first, pkg("targetArchitecture"@))
        + seq![to_iri(package, arch)]
    &&& said(last, pkg("partOfDistribution"@)) == said(first, pkg("partOfDistribution"@))
        + seq![to_iri(package, dist)]
    &&& said(last, pkg("partOfRelease"@)) == said(first, pkg("partOfRelease"@))
        + seq![to_iri(package, rel)]
    &&& said(last, APK@ + "repoName"@) == said(first, APK@ + "repoName"@)
        + seq![to_text(package, repo)]
    &&& said(last, pkg("description"@)) == said(first, pkg("description"@))
        + text_if(package, field(fields, "T"@))
    &&& said(last, pkg("homepage"@)) == said(first, pkg("homepage"@))
        + text_if(package, field(fields, "U"@))
    &&& said(last, pkg("licenseName"@)) == said(first, pkg("licenseName"@))
        + (match field(fields, "L"@) {Some(x) => seq![to_text(package, x)], None => Seq::empty()})
    &&& said(last, pkg("hasLicense"@)) == said(first, pkg("hasLicense"@))
        + (
            match field(fields, "L"@) {
                Some(x) => seq![to_iri(package, spdx_iri(x))],
                None => Seq::empty(),
            }
        )
    &&& said(last, pkg("packageSize"@)) == said(first, pkg("packageSize"@))
        + (
            match field(fields, "S"@) {
                Some(x) => number_if_any(package, i64_value(x)),
                None => Seq::empty(),
            }
        )
    &&& said(last, pkg("installSize"@)) == said(first, pkg("installSize"@))
        + (
            match field(fields, "I"@) {
                Some(x) => number_if_any(package, i64_value(x)),
                None => Seq::empty(),
            }
        )
    &&& said(last, pkg("checksum"@)) == said(first, pkg("checksum"@))
        + text_if(package, field(fields, "C"@))
    &&& said(last, APK@ + "buildDate"@) == said(first, APK@ + "buildDate"@)
        + text_if(package, field(fields, "t"@))
    &&& forall|q: Seq<char>|
        q != RDF_TYPE@
            && q != pkg("packageName"@)
            && q != pkg("isVersionOf"@)
            && q != pkg("versionString"@)
            && q != pkg("hasVersion"@)
            && q != pkg("targetArchitecture"@)
            && q != pkg("partOfDistribution"@)
            && q != pkg("partOfRelease"@)
            && q != APK@ + "repoName"@
            && q != pkg("description"@)
            && q != pkg("homepage"@)
            && q != pkg("licenseName"@)
            && q != pkg("hasLicense"@)
            && q != pkg("packageSize"@)
            && q != pkg("installSize"@)
            && q != pkg("checksum"@)
            && q != APK@ + "buildDate"@
            ==> #[trigger] said(last, q) == said(first, q)
}

proof fn lemma_package_core_in_steps(
    w: Sheet,
    c: AlpineCollector,
    fields: Map<Seq<char>, Seq<char>>,
    repo: Seq<char>,
    name: Seq<char>,
    version: Seq<char>,
)
    ensures
        with_package_core(w, c, fields, repo, name, version) == ({
            let package = package_iri(c.distro_name@, c.branch@, c.arch@, name, version);
            let identity = identity_iri(c.distro_name@, c.branch@, c.arch@, name);
            let w = link(w, package, RDF_TYPE@, pkg("BinaryPackage"@));
            let w = link(w, package, RDF_TYPE@, APK@ + "ApkPackage"@);
            let w = link(w, identity, RDF_TYPE@, pkg("PackageIdentity"@));
            let w = literal(w, identity, pkg("packageName"@), name);
            let w = link(w, package, pkg("isVersionOf"@), identity);
            let w = literal(w, package, pkg("packageName"@), name);
            let ver = version_iri(c.distro_name@, c.branch@, name, version);
            let w = link(w, ver, RDF_TYPE@, pkg("Version"@));
            let w = literal(w, ver, pkg("versionString"@), version);
            let w = link(w, package, pkg("hasVersion"@), ver);
            let arch = arch_iri(c.arch@);
            let w = link(w, package, pkg("targetArchitecture"@), arch);
            let dist = distro_iri(c.distro_name@);
            let rel = release_iri(c.distro_name@, c.branch@);
            let w = link(w, package, pkg("partOfDistribution"@), dist);
            let w = link(w, package, pkg("partOfRelease"@), rel);
            let w = literal(w, package, APK@ + "repoName"@, repo);
            let w = maybe_literal(w, package, pkg("description"@), field(fields, "T"@));
            let w = maybe_literal(w, package, pkg("homepage"@), field(fields, "U"@));
            let w = package_core_step_1(w, fields, package);
            let w = package_core_step_2(w, fields, package);
            let w = package_core_step_3(w, fields, package);
            let w = maybe_literal(w, package, pkg("checksum"@), field(fields, "C"@));
            let w = maybe_literal(w, package, APK@ + "buildDate"@, field(fields, "t"@));
            w
        }),
{
    reveal(maybe_literal);
    reveal(package_core_step_1);
    reveal(package_core_step_2);
    reveal(package_core_step_3);
}

proof fn lemma_package_core_steps(
    w: Sheet,
    c: AlpineCollector,
    fields: Map<Seq<char>, Seq<char>>,
    repo: Seq<char>,
    name: Seq<char>,
    version: Seq<char>,
)
    ensures
        package_core_told(w.log, ({
            let package = package_iri(c.distro_name@, c.branch@, c.arch@, name, version);
            let identity = identity_iri(c.distro_name@, c.branch@, c.arch@, name);
            let w = link(w, package, RDF_TYPE@, pkg("BinaryPackage"@));
            let w = link(w, package, RDF_TYPE@, APK@ + "ApkPackage"@);
            let w = link(w, identity, RDF_TYPE@, pkg("PackageIdentity"@));
            let w = literal(w, identity, pkg("packageName"@), name);
            let w = link(w, package, pkg("isVersionOf"@), identity);
            let w = literal(w, package, pkg("packageName"@), name);
            let ver = version_iri(c.distro_name@, c.branch@, name, version);
            let w = link(w, ver, RDF_TYPE@, pkg("Version"@));
            let w = literal(w, ver, pkg("versionString"@), version);
            let w = link(w, package, pkg("hasVersion"@), ver);
            let arch = arch_iri(c.arch@);
            let w = link(w, package, pkg("targetArchitecture"@), arch);
            let dist = distro_iri(c.distro_name@);
            let rel = release_iri(c.distro_name@, c.branch@);
            let w = link(w, package, pkg("partOfDistribution"@), dist);
            let w = link(w, package, pkg("partOfRelease"@), rel);
            let w = literal(w, package, APK@ + "repoName"@, repo);
            let w = maybe_literal(w, package, pkg("description"@), field(fields, "T"@));
            let w = maybe_literal(w, package, pkg("homepage"@), field(fields, "U"@));
            let w = package_core_step_1(w, fields, package);
            let w = package_core_step_2(w, fields, package);
            let w = package_core_step_3(w, fields, package);
            let w = maybe_literal(w, package, pkg("checksum"@), field(fields, "C"@));
            let w = maybe_literal(w, package, APK@ + "buildDate"@, field(fields, "t"@));
            w
        }).log, c, fields, repo, name, version),
{
    broadcast use {group_writes, group_apk};

    reveal_strlit("packageName");
    reveal_strlit("isVersionOf");
    reveal_strlit("versionString");
    reveal_strlit("hasVersion");
    reveal_strlit("targetArchitecture");
    reveal_strlit("partOfDistribution");
    reveal_strlit("partOfRelease");
    reveal_strlit("repoName");
    reveal_strlit("description");
    reveal_strlit("homepage");
    reveal_strlit("licenseName");
    reveal_strlit("hasLicense");
    reveal_strlit("packageSize");
    reveal_strlit("installSize");
    reveal_strlit("checksum");
    reveal_strlit("buildDate");
    let package = package_iri(c.distro_name@, c.branch@, c.arch@, name, version);
    let identity = identity_iri(c.distro_name@, c.branch@, c.arch@, name);
    let w1 = link(w, package, RDF_TYPE@, pkg("BinaryPackage"@));
    let w2 = link(w1, package, RDF_TYPE@, APK@ + "ApkPackage"@);
    let w3 = link(w2, identity, RDF_TYPE@, pkg("PackageIdentity"@));
    let w4 = literal(w3, identity, pkg("packageName"@), name);
    let w5 = link(w4, package, pkg("isVersionOf"@), identity);
    let w6 = literal(w5, package, pkg("packageName"@), name);
    let ver = version_iri(c.distro_name@, c.branch@, name, version);
    let w7 = link(w6, ver, RDF_TYPE@, pkg("Version"@));
    let w8 = literal(w7, ver, pkg("versionString"@), version);
    let w9 = link(w8, package, pkg("hasVersion"@), ver);
    let arch = arch_iri(c.arch@);
    let w10 = link(w9, package, pkg("targetArchitecture"@), arch);
    let dist = distro_iri(c.distro_name@);
    let rel = release_iri(c.distro_name@, c.branch@);
    let w11 = link(w10, package, pkg("partOfDistribution"@), dist);
    let w12 = link(w11, package, pkg("partOfRelease"@), rel);
    let w13 = literal(w12, package, APK@ + "repoName"@, repo);
    let w14 = maybe_literal(w13, package, pkg("description"@), field(fields, "T"@));
    let w15 = maybe_literal(w14, package, pkg("homepage"@), field(fields, "U"@));
    let w16 = package_core_step_1(w15, fields, package);
    lemma_package_core_step_1(w15, fields, package);
    let w17 = package_core_step_2(w16, fields, package);
    lemma_package_core_step_2(w16, fields, package);
    let w18 = package_core_step_3(w17, fields, package);
    lemma_package_core_step_3(w17, fields, package);
    let w19 = maybe_literal(w18, package, pkg("checksum"@), field(fields, "C"@));
    let w20 = maybe_literal(w19, package, APK@ + "buildDate"@, field(fields, "t"@));
}

/// What [`with_package_core`] writes says what [`package_core_told`] states.
pub proof fn lemma_package_core_told(
    w: Sheet,
    c: AlpineCollector,
    fields: Map<Seq<char>, Seq<char>>,
    repo: Seq<char>,
    name: Seq<char>,
    version: Seq<char>,
)
    ensures
        package_core_told(
            w.log,
            with_package_core(w, c, fields, repo, name, version).log,
            c,
            fields,
            repo,
            name,
            version,
        ),
{
    lemma_package_core_in_steps(w, c, fields, repo, name, version);
    lemma_package_core_steps(w, c, fields, repo, name, version);
}

/// What is said of who maintains a package: that they are a person, with their name, and
/// that they maintain it.
pub open spec fn maintainer_told(
    first: Seq<Fact>,
    last: Seq<Fact>,
    package: Seq<char>,
    name: Seq<char>,
    email: Seq<char>,
) -> bool {
    let person = maintainer_iri(email);
    &&& said(last, RDF_TYPE@) == said(first, RDF_TYPE@) + seq![to_iri(person, pkg("Person"@))]
    &&& said(last, FOAF@ + "name"@) == said(first, FOAF@ + "name"@) + seq![to_text(person, name)]
    &&& said(last, RDFS_LABEL@) == said(first, RDFS_LABEL@) + seq![to_text(person, name)]
    &&& said(last, pkg("maintainedBy"@)) == said(first, pkg("maintainedBy"@))
        + seq![to_iri(package, person)]
    &&& forall|q: Seq<char>|
        q != RDF_TYPE@ && q != FOAF@ + "name"@ && q != RDFS_LABEL@ && q != pkg("maintainedBy"@)
            ==> #[trigger] said(last, q) == said(first, q)
}

proof fn lemma_maintainer_in_steps(w: Sheet, package: Seq<char>, name: Seq<char>, email: Seq<char>)
    ensures
        with_maintainer(w, package, name, email) == ({
            let person = maintainer_iri(email);
            let w = link(w, person, RDF_TYPE@, pkg("Person"@));
            let w = literal(w, person, FOAF@ + "name"@, name);
            let w = literal(w, person, RDFS_LABEL@, name);
            let w = link(w, package, pkg("maintainedBy"@), person);
            w
        }),
{
}

proof fn lemma_maintainer_steps(w: Sheet, package: Seq<char>, name: Seq<char>, email: Seq<char>)
    ensures
        maintainer_told(w.log, ({
            let person = maintainer_iri(email);
            let w = link(w, person, RDF_TYPE@, pkg("Person"@));
            let w = literal(w, person, FOAF@ + "name"@, name);
            let w = literal(w, person, RDFS_LABEL@, name);
            let w = link(w, package, pkg("maintainedBy"@), person);
            w
        }).log, package, name, email),
{
    broadcast use {group_writes, group_foaf};

    reveal_strlit("name");
    reveal_strlit("maintainedBy");
    let person = maintainer_iri(email);
    let w1 = link(w, person, RDF_TYPE@, pkg("Person"@));
    let w2 = literal(w1, person, FOAF@ + "name"@, name);
    let w3 = literal(w2, person, RDFS_LABEL@, name);
    let w4 = link(w3, package, pkg("maintainedBy"@), person);
}

/// What [`with_maintainer`] writes says what [`maintainer_told`] states.
pub proof fn lemma_maintainer_told(
    w: Sheet,
    package: Seq<char>,
    name: Seq<char>,
    email: Seq<char>,
)
    ensures
        maintainer_told(w.log, with_maintainer(w, package, name, email).log, package, name, email),
{
    lemma_maintainer_in_steps(w, package, name, email);
    lemma_maintainer_steps(w, package, name, email);
}

#[verifier::opaque]
spec fn package_step_1(w: Sheet, fields: Map<Seq<char>, Seq<char>>, package: Seq<char>) -> Sheet {
    match field(fields, "m"@) {
        Some(x) => {
            let w = match contact_of(regex_captures(MAINTAINER@, x)) {
                Some(who) => { with_maintainer(w, package, who.name, who.email) },
                None => w,
            };
            w
        },
        None => w,
    }
}

proof fn lemma_package_step_1(w: Sheet, fields: Map<Seq<char>, Seq<char>>, package: Seq<char>)
    ensures
        ({
            let first = w.log;
            let last = package_step_1(w, fields, package).log;
            &&& said(last, pkg("packageName"@)) == said(first, pkg("packageName"@))
            &&& said(last, pkg("isVersionOf"@)) == said(first, pkg("isVersionOf"@))
            &&& said(last, pkg("hasVersion"@)) == said(first, pkg("hasVersion"@))
            &&& said(last, pkg("maintainedBy"@)) == said(first, pkg("maintainedBy"@))
                + (
                    match field(fields, "m"@) {
                        Some(x) => (
                            match contact_of(regex_captures(MAINTAINER@, x)) {
                                Some(who) => seq![to_iri(package, maintainer_iri(who.email))],
                                None => Seq::empty(),
                            }
                        ),
                        None => Seq::empty(),
                    }
                )
            &&& said(last, pkg("builtFromSource"@)) == said(first, pkg("builtFromSource"@))
            &&& said(last, pkg("directlyDependsOn"@)) == said(first, pkg("directlyDependsOn"@))
            &&& said(last, pkg("dependencyType"@)) == said(first, pkg("dependencyType"@))
            &&& said(last, pkg("provides"@)) == said(first, pkg("provides"@))
            &&& said(last, pkg("replaces"@)) == said(first, pkg("replaces"@))
            &&& said(last, APK@ + "apkOrigin"@) == said(first, APK@ + "apkOrigin"@)
            &&& said(last, APK@ + "installIf"@) == said(first, APK@ + "installIf"@)
            &&& said(last, pkg("dqField"@)) == said(first, pkg("dqField"@))
            &&& said(last, pkg("dqIssueType"@)) == said(first, pkg("dqIssueType"@))
        }),
{
    broadcast use {group_reading, group_apk, group_foaf};

    reveal(package_step_1);
    reveal_strlit("name");
    reveal_strlit("maintainedBy");
    reveal_strlit("packageName");
    reveal_strlit("isVersionOf");
    reveal_strlit("hasVersion");
    reveal_strlit("builtFromSource");
    reveal_strlit("directlyDependsOn");
    reveal_strlit("dependencyType");
    reveal_strlit("provides");
    reveal_strlit("replaces");
    reveal_strlit("apkOrigin");
    reveal_strlit("installIf");
    reveal_strlit("dqField");
    reveal_strlit("dqIssueType");
    match field(fields, "m"@) {
        Some(x) => {
            match contact_of(regex_captures(MAINTAINER@, x)) {
                Some(who) => {
                    lemma_maintainer_told(w, package, who.name, who.email);
                },
                None => {
                },
            }
        },
        None => {
        },
    }
}

#[verifier::opaque]
spec fn package_step_2(
    w: Sheet,
    c: AlpineCollector,
    fields: Map<Seq<char>, Seq<char>>,
    version: Seq<char>,
    package: Seq<char>,
) -> Sheet {
    match field(fields, "o"@) {
        Some(x) => {
            let src = source_iri(c.distro_name@, c.branch@, x, version);
            let w = link(w, src, RDF_TYPE@, pkg("SourcePackage"@));
            let w = literal(w, src, pkg("packageName"@), x);
            let w = link(w, package, pkg("builtFromSource"@), src);
            literal(w, package, APK@ + "apkOrigin"@, x)
        },
        None => w,
    }
}

proof fn lemma_package_step_2(
    w: Sheet,
    c: AlpineCollector,
    fields: Map<Seq<char>, Seq<char>>,
    version: Seq<char>,
    package: Seq<char>,
)
    ensures
        ({
            let first = w.log;
            let last = package_step_2(w, c, fields, version, package).log;
            &&& said(last, pkg("packageName"@)) == said(first, pkg("packageName"@))
                + (
                    match field(fields, "o"@) {
                        Some(x) => seq![
                            to_text(source_iri(c.distro_name@, c.branch@, x, version), x),
                        ],
                        None => Seq::empty(),
                    }
                )
            &&& said(last, pkg("isVersionOf"@)) == said(first, pkg("isVersionOf"@))
            &&& said(last, pkg("hasVersion"@)) == said(first, pkg("hasVersion"@))
            &&& said(last, pkg("maintainedBy"@)) == said(first, pkg("maintainedBy"@))
            &&& said(last, pkg("builtFromSource"@)) == said(first, pkg("builtFromSource"@))
                + (
                    match field(fields, "o"@) {
                        Some(x) => seq![
                            to_iri(package, source_iri(c.distro_name@, c.branch@, x, version)),
                        ],
                        None => Seq::empty(),
                    }
                )
            &&& said(last, pkg("directlyDependsOn"@)) == said(first, pkg("directlyDependsOn"@))
            &&& said(last, pkg("dependencyType"@)) == said(first, pkg("dependencyType"@))
            &&& said(last, pkg("provides"@)) == said(first, pkg("provides"@))
            &&& said(last, pkg("replaces"@)) == said(first, pkg("replaces"@))
            &&& said(last, APK@ + "apkOrigin"@) == said(first, APK@ + "apkOrigin"@)
                + (
                    match field(fields, "o"@) {
                        Some(x) => seq![to_text(package, x)],
                        None => Seq::empty(),
                    }
                )
            &&& said(last, APK@ + "installIf"@) == said(first, APK@ + "installIf"@)
            &&& said(last, pkg("dqField"@)) == said(first, pkg("dqField"@))
            &&& said(last, pkg("dqIssueType"@)) == said(first, pkg("dqIssueType"@))
        }),
{
    broadcast use {group_reading, group_apk};

    reveal(package_step_2);
    reveal_strlit("packageName");
    reveal_strlit("builtFromSource");
    reveal_strlit("apkOrigin");
    reveal_strlit("isVersionOf");
    reveal_strlit("hasVersion");
    reveal_strlit("maintainedBy");
    reveal_strlit("directlyDependsOn");
    reveal_strlit("dependencyType");
    reveal_strlit("provides");
    reveal_strlit("replaces");
    reveal_strlit("installIf");
    reveal_strlit("dqField");
    reveal_strlit("dqIssueType");
}

#[verifier::opaque]
spec fn package_step_3(
    w: Sheet,
    c: AlpineCollector,
    fields: Map<Seq<char>, Seq<char>>,
    package: Seq<char>,
) -> Sheet {
    match field(fields, "D"@) {
        Some(x) => { with_dependencies(w, c, package, x, "depends"@) },
        None => w,
    }
}

proof fn lemma_package_step_3(
    w: Sheet,
    c: AlpineCollector,
    fields: Map<Seq<char>, Seq<char>>,
    package: Seq<char>,
)
    ensures
        ({
            let first = w.log;
            let last = package_step_3(w, c, fields, package).log;
            &&& said(last, pkg("packageName"@)) == said(first, pkg("packageName"@))
            &&& said(last, pkg("isVersionOf"@)) == said(first, pkg("isVersionOf"@))
            &&& said(last, pkg("hasVersion"@)) == said(first, pkg("hasVersion"@))
            &&& said(last, pkg("maintainedBy"@)) == said(first, pkg("maintainedBy"@))
            &&& said(last, pkg("builtFromSource"@)) == said(first, pkg("builtFromSource"@))
            &&& said(last, pkg("directlyDependsOn"@)) == said(first, pkg("directlyDependsOn"@))
                + (
                    match field(fields, "D"@) {
                        Some(x) => in_turn(
                            |k: int|
                                where_so(
                                    !is_virtual((words(x, Sep::Blank)[k])),
                                    seq![
                                        to_iri(
                                            package,
                                            identity_iri(
                                                c.distro_name@,
                                                c.branch@,
                                                c.arch@,
                                                dependency_of(
                                                    regex_captures(
                                                        DEPENDENCY@,
                                                        (words(x, Sep::Blank)[k]),
                                                    ),
                                                    (words(x, Sep::Blank)[k]),
                                                ).name,
                                            ),
                                        ),
                                    ],
                                ),
                            (words(x, Sep::Blank).len()),
                        ),
                        None => Seq::empty(),
                    }
                )
            &&& said(last, pkg("dependencyType"@)) == said(first, pkg("dependencyType"@))
                + (
                    match field(fields, "D"@) {
                        Some(x) => in_turn(
                            |k: int|
                                where_so(
                                    !is_virtual((words(x, Sep::Blank)[k])),
                                    seq![
                                        (
                                            Term::Node(
                                                bnode_label(
                                                    ("depends"@),
                                                    package
                                                        + "-"@
                                                        + dependency_of(
                                                            regex_captures(
                                                                DEPENDENCY@,
                                                                (words(x, Sep::Blank)[k]),
                                                            ),
                                                            (words(x, Sep::Blank)[k]),
                                                        ).name,
                                                ),
                                            ),
                                            Term::Iri(dep_type_iri(("depends"@))),
                                        ),
                                    ],
                                ),
                            (words(x, Sep::Blank).len()),
                        ),
                        None => Seq::empty(),
                    }
                )
            &&& said(last, pkg("provides"@)) == said(first, pkg("provides"@))
            &&& said(last, pkg("replaces"@)) == said(first, pkg("replaces"@))
            &&& said(last, APK@ + "apkOrigin"@) == said(first, APK@ + "apkOrigin"@)
            &&& said(last, APK@ + "installIf"@) == said(first, APK@ + "installIf"@)
            &&& said(last, pkg("dqField"@)) == said(first, pkg("dqField"@))
            &&& said(last, pkg("dqIssueType"@)) == said(first, pkg("dqIssueType"@))
        }),
{
    broadcast use {group_reading, group_apk};

    reveal(package_step_3);
    reveal_strlit("directlyDependsOn");
    reveal_strlit("hasDependency");
    reveal_strlit("dependencyTarget");
    reveal_strlit("dependencyType");
    reveal_strlit("hasVersionConstraint");
    reveal_strlit("versionConstraintOperator");
    reveal_strlit("versionConstraintValue");
    reveal_strlit("packageName");
    reveal_strlit("isVersionOf");
    reveal_strlit("hasVersion");
    reveal_strlit("maintainedBy");
    reveal_strlit("builtFromSource");
    reveal_strlit("provides");
    reveal_strlit("replaces");
    reveal_strlit("apkOrigin");
    reveal_strlit("installIf");
    reveal_strlit("dqField");
    reveal_strlit("dqIssueType");
    match field(fields, "D"@) {
        Some(x) => {
            lemma_dependencies_told(w, c, package, x, "depends"@);
        },
        None => {
        },
    }
}

#[verifier::opaque]
spec fn package_step_4(w: Sheet, fields: Map<Seq<char>, Seq<char>>, package: Seq<char>) -> Sheet {
    match field(fields, "p"@) {
        Some(x) => {
            let entries = words(x, Sep::Blank);
            with_each_provided(w, package, entries, entries.len())
        },
        None => w,
    }
}

proof fn lemma_package_step_4(w: Sheet, fields: Map<Seq<char>, Seq<char>>, package: Seq<char>)
    ensures
        ({
            let first = w.log;
            let last = package_step_4(w, fields, package).log;
            &&& said(last, pkg("packageName"@)) == said(first, pkg("packageName"@))
            &&& said(last, pkg("isVersionOf"@)) == said(first, pkg("isVersionOf"@))
            &&& said(last, pkg("hasVersion"@)) == said(first, pkg("hasVersion"@))
            &&& said(last, pkg("maintainedBy"@)) == said(first, pkg("maintainedBy"@))
            &&& said(last, pkg("builtFromSource"@)) == said(first, pkg("builtFromSource"@))
            &&& said(last, pkg("directlyDependsOn"@)) == said(first, pkg("directlyDependsOn"@))
            &&& said(last, pkg("dependencyType"@)) == said(first, pkg("dependencyType"@))
            &&& said(last, pkg("provides"@)) == said(first, pkg("provides"@))
                + (
                    match field(fields, "p"@) {
                        Some(x) => in_turn(
                            |k: int|
                                seq![to_text(package, before((words(x, Sep::Blank)[k]), "="@))],
                            (words(x, Sep::Blank).len()),
                        ),
                        None => Seq::empty(),
                    }
                )
            &&& said(last, pkg("replaces"@)) == said(first, pkg("replaces"@))
            &&& said(last, APK@ + "apkOrigin"@) == said(first, APK@ + "apkOrigin"@)
            &&& said(last, APK@ + "installIf"@) == said(first, APK@ + "installIf"@)
            &&& said(last, pkg("dqField"@)) == said(first, pkg("dqField"@))
            &&& said(last, pkg("dqIssueType"@)) == said(first, pkg("dqIssueType"@))
        }),
{
    broadcast use {group_reading, group_apk};

    reveal(package_step_4);
    reveal_strlit("provides");
    reveal_strlit("packageName");
    reveal_strlit("isVersionOf");
    reveal_strlit("hasVersion");
    reveal_strlit("maintainedBy");
    reveal_strlit("builtFromSource");
    reveal_strlit("directlyDependsOn");
    reveal_strlit("dependencyType");
    reveal_strlit("replaces");
    reveal_strlit("apkOrigin");
    reveal_strlit("installIf");
    reveal_strlit("dqField");
    reveal_strlit("dqIssueType");
    match field(fields, "p"@) {
        Some(x) => {
            let entries = words(x, Sep::Blank);
            lemma_provided_words_told(w, package, entries, entries.len());
        },
        None => {
        },
    }
}

#[verifier::opaque]
spec fn package_step_5(w: Sheet, fields: Map<Seq<char>, Seq<char>>, package: Seq<char>) -> Sheet {
    match field(fields, "r"@) {
        Some(x) => {
            let entries = words(x, Sep::Blank);
            with_each_replaced(w, package, entries, entries.len())
        },
        None => w,
    }
}

proof fn lemma_package_step_5(w: Sheet, fields: Map<Seq<char>, Seq<char>>, package: Seq<char>)
    ensures
        ({
            let first = w.log;
            let last = package_step_5(w, fields, package).log;
            &&& said(last, pkg("packageName"@)) == said(first, pkg("packageName"@))
            &&& said(last, pkg("isVersionOf"@)) == said(first, pkg("isVersionOf"@))
            &&& said(last, pkg("hasVersion"@)) == said(first, pkg("hasVersion"@))
            &&& said(last, pkg("maintainedBy"@)) == said(first, pkg("maintainedBy"@))
            &&& said(last, pkg("builtFromSource"@)) == said(first, pkg("builtFromSource"@))
            &&& said(last, pkg("directlyDependsOn"@)) == said(first, pkg("directlyDependsOn"@))
            &&& said(last, pkg("dependencyType"@)) == said(first, pkg("dependencyType"@))
            &&& said(last, pkg("provides"@)) == said(first, pkg("provides"@))
            &&& said(last, pkg("replaces"@)) == said(first, pkg("replaces"@))
                + (
                    match field(fields, "r"@) {
                        Some(x) => in_turn(
                            |k: int| seq![to_text(package, (words(x, Sep::Blank)[k]))],
                            (words(x, Sep::Blank).len()),
                        ),
                        None => Seq::empty(),
                    }
                )
            &&& said(last, APK@ + "apkOrigin"@) == said(first, APK@ + "apkOrigin"@)
            &&& said(last, APK@ + "installIf"@) == said(first, APK@ + "installIf"@)
            &&& said(last, pkg("dqField"@)) == said(first, pkg("dqField"@))
            &&& said(last, pkg("dqIssueType"@)) == said(first, pkg("dqIssueType"@))
        }),
{
    broadcast use {group_reading, group_apk};

    reveal(package_step_5);
    reveal_strlit("replaces");
    reveal_strlit("packageName");
    reveal_strlit("isVersionOf");
    reveal_strlit("hasVersion");
    reveal_strlit("maintainedBy");
    reveal_strlit("builtFromSource");
    reveal_strlit("directlyDependsOn");
    reveal_strlit("dependencyType");
    reveal_strlit("provides");
    reveal_strlit("apkOrigin");
    reveal_strlit("installIf");
    reveal_strlit("dqField");
    reveal_strlit("dqIssueType");
    match field(fields, "r"@) {
        Some(x) => {
            let entries = words(x, Sep::Blank);
            lemma_replaced_words_told(w, package, entries, entries.len());
        },
        None => {
        },
    }
}

/// Everything that is said of a package with a name and a version: what is said of it
/// itself, who maintains it, the source that it is built from, what it depends on, what it
/// provides and replaces, and when it is installed by itself.
pub open spec fn package_told(
    first: Seq<Fact>,
    last: Seq<Fact>,
    c: AlpineCollector,
    fields: Map<Seq<char>, Seq<char>>,
    repo: Seq<char>,
    name: Seq<char>,
    version: Seq<char>,
) -> bool {
    let package = package_iri(c.distro_name@, c.branch@, c.arch@, name, version);
    &&& said(last, pkg("packageName"@)) == said(first, pkg("packageName"@))
        + seq![to_text(identity_iri(c.distro_name@, c.branch@, c.arch@, name), name)]
        + seq![to_text(package_iri(c.distro_name@, c.branch@, c.arch@, name, version), name)]
        + (
            match field(fields, "o"@) {
                Some(x) => seq![to_text(source_iri(c.distro_name@, c.branch@, x, version), x)],
                None => Seq::empty(),
            }
        )
    &&& said(last, pkg("isVersionOf"@)) == said(first, pkg("isVersionOf"@))
        + seq![
            to_iri(
                package_iri(c.distro_name@, c.branch@, c.arch@, name, version),
                identity_iri(c.distro_name@, c.branch@, c.arch@, name),
            ),
        ]
    &&& said(last, pkg("hasVersion"@)) == said(first, pkg("hasVersion"@))
        + seq![
            to_iri(
                package_iri(c.distro_name@, c.branch@, c.arch@, name, version),
                version_iri(c.distro_name@, c.branch@, name, version),
            ),
        ]
    &&& said(last, pkg("maintainedBy"@)) == said(first, pkg("maintainedBy"@))
        + (
            match field(fields, "m"@) {
                Some(x) => (
                    match contact_of(regex_captures(MAINTAINER@, x)) {
                        Some(who) => seq![to_iri(package, maintainer_iri(who.email))],
                        None => Seq::empty(),
                    }
                ),
                None => Seq::empty(),
            }
        )
    &&& said(last, pkg("builtFromSource"@)) == said(first, pkg("builtFromSource"@))
        + (
            match field(fields, "o"@) {
                Some(x) => seq![to_iri(package, source_iri(c.distro_name@, c.branch@, x, version))],
                None => Seq::empty(),
            }
        )
    &&& said(last, pkg("directlyDependsOn"@)) == said(first, pkg("directlyDependsOn"@))
        + (
            match field(fields, "D"@) {
                Some(x) => in_turn(
                    |k: int|
                        where_so(
                            !is_virtual((words(x, Sep::Blank)[k])),
                            seq![
                                to_iri(
                                    package,
                                    identity_iri(
                                        c.distro_name@,
                                        c.branch@,
                                        c.arch@,
                                        dependency_of(
                                            regex_captures(DEPENDENCY@, (words(x, Sep::Blank)[k])),
                                            (words(x, Sep::Blank)[k]),
                                        ).name,
                                    ),
                                ),
                            ],
                        ),
                    (words(x, Sep::Blank).len()),
                ),
                None => Seq::empty(),
            }
        )
    &&& said(last, pkg("dependencyType"@)) == said(first, pkg("dependencyType"@))
        + (
            match field(fields, "D"@) {
                Some(x) => in_turn(
                    |k: int|
                        where_so(
                            !is_virtual((words(x, Sep::Blank)[k])),
                            seq![
                                (
                                    Term::Node(
                                        bnode_label(
                                            ("depends"@),
                                            package
                                                + "-"@
                                                + dependency_of(
                                                    regex_captures(
                                                        DEPENDENCY@,
                                                        (words(x, Sep::Blank)[k]),
                                                    ),
                                                    (words(x, Sep::Blank)[k]),
                                                ).name,
                                        ),
                                    ),
                                    Term::Iri(dep_type_iri(("depends"@))),
                                ),
                            ],
                        ),
                    (words(x, Sep::Blank).len()),
                ),
                None => Seq::empty(),
            }
        )
    &&& said(last, pkg("provides"@)) == said(first, pkg("provides"@))
        + (
            match field(fields, "p"@) {
                Some(x) => in_turn(
                    |k: int| seq![to_text(package, before((words(x, Sep::Blank)[k]), "="@))],
                    (words(x, Sep::Blank).len()),
                ),
                None => Seq::empty(),
            }
        )
    &&& said(last, pkg("replaces"@)) == said(first, pkg("replaces"@))
        + (
            match field(fields, "r"@) {
                Some(x) => in_turn(
                    |k: int| seq![to_text(package, (words(x, Sep::Blank)[k]))],
                    (words(x, Sep::Blank).len()),
                ),
                None => Seq::empty(),
            }
        )
    &&& said(last, APK@ + "apkOrigin"@) == said(first, APK@ + "apkOrigin"@)
        + (match field(fields, "o"@) {Some(x) => seq![to_text(package, x)], None => Seq::empty()})
    &&& said(last, APK@ + "installIf"@) == said(first, APK@ + "installIf"@)
        + text_if(package, field(fields, "i"@))
    &&& said(last, pkg("dqField"@)) == said(first, pkg("dqField"@))
    &&& said(last, pkg("dqIssueType"@)) == said(first, pkg("dqIssueType"@))
}

proof fn lemma_package_in_steps(
    w: Sheet,
    c: AlpineCollector,
    fields: Map<Seq<char>, Seq<char>>,
    repo: Seq<char>,
    name: Seq<char>,
    version: Seq<char>,
)
    ensures
        with_named_package(w, c, fields, repo, name, version) == ({
            let w = with_package_core(w, c, fields, repo, name, version);
            let package = package_iri(c.distro_name@, c.branch@, c.arch@, name, version);
            let w = package_step_1(w, fields, package);
            let w = package_step_2(w, c, fields, version, package);
            let w = package_step_3(w, c, fields, package);
            let w = package_step_4(w, fields, package);
            let w = maybe_literal(w, package, APK@ + "installIf"@, field(fields, "i"@));
            let w = package_step_5(w, fields, package);
            w
        }),
{
    reveal(maybe_literal);
    reveal(package_step_1);
    reveal(package_step_2);
    reveal(package_step_3);
    reveal(package_step_4);
    reveal(package_step_5);
}

proof fn lemma_package_steps(
    w: Sheet,
    c: AlpineCollector,
    fields: Map<Seq<char>, Seq<char>>,
    repo: Seq<char>,
    name: Seq<char>,
    version: Seq<char>,
)
    ensures
        package_told(w.log, ({
            let w = with_package_core(w, c, fields, repo, name, version);
            let package = package_iri(c.distro_name@, c.branch@, c.arch@, name, version);
            let w = package_step_1(w, fields, package);
            let w = package_step_2(w, c, fields, version, package);
            let w = package_step_3(w, c, fields, package);
            let w = package_step_4(w, fields, package);
            let w = maybe_literal(w, package, APK@ + "installIf"@, field(fields, "i"@));
            let w = package_step_5(w, fields, package);
            w
        }).log, c, fields, repo, name, version),
{
    broadcast use {group_writes, group_apk, group_foaf};

    reveal_strlit("packageName");
    reveal_strlit("isVersionOf");
    reveal_strlit("versionString");
    reveal_strlit("hasVersion");
    reveal_strlit("targetArchitecture");
    reveal_strlit("partOfDistribution");
    reveal_strlit("partOfRelease");
    reveal_strlit("repoName");
    reveal_strlit("description");
    reveal_strlit("homepage");
    reveal_strlit("licenseName");
    reveal_strlit("hasLicense");
    reveal_strlit("packageSize");
    reveal_strlit("installSize");
    reveal_strlit("checksum");
    reveal_strlit("buildDate");
    reveal_strlit("name");
    reveal_strlit("maintainedBy");
    reveal_strlit("builtFromSource");
    reveal_strlit("apkOrigin");
    reveal_strlit("directlyDependsOn");
    reveal_strlit("hasDependency");
    reveal_strlit("dependencyTarget");
    reveal_strlit("dependencyType");
    reveal_strlit("hasVersionConstraint");
    reveal_strlit("versionConstraintOperator");
    reveal_strlit("versionConstraintValue");
    reveal_strlit("provides");
    reveal_strlit("installIf");
    reveal_strlit("replaces");
    reveal_strlit("dqField");
    reveal_strlit("dqIssueType");
    let w1 = with_package_core(w, c, fields, repo, name, version);
    lemma_package_core_told(w, c, fields, repo, name, version);
    let package = package_iri(c.distro_name@, c.branch@, c.arch@, name, version);
    let w2 = package_step_1(w1, fields, package);
    lemma_package_step_1(w1, fields, package);
    let w3 = package_step_2(w2, c, fields, version, package);
    lemma_package_step_2(w2, c, fields, version, package);
    let w4 = package_step_3(w3, c, fields, package);
    lemma_package_step_3(w3, c, fields, package);
    let w5 = package_step_4(w4, fields, package);
    lemma_package_step_4(w4, fields, package);
    let w6 = maybe_literal(w5, package, APK@ + "installIf"@, field(fields, "i"@));
    let w7 = package_step_5(w6, fields, package);
    lemma_package_step_5(w6, fields, package);
}

/// What [`with_named_package`] writes says what [`package_told`] states.
pub proof fn lemma_package_told(
    w: Sheet,
    c: AlpineCollector,
    fields: Map<Seq<char>, Seq<char>>,
    repo: Seq<char>,
    name: Seq<char>,
    version: Seq<char>,
)
    ensures
        package_told(
            w.log,
            with_named_package(w, c, fields, repo, name, version).log,
            c,
            fields,
            repo,
            name,
            version,
        ),
{
    lemma_package_in_steps(w, c, fields, repo, name, version);
    lemma_package_steps(w, c, fields, repo, name, version);
}

#[verifier::opaque]
spec fn distribution_step_1(w: Sheet, c: AlpineCollector, rel: Seq<char>) -> Sheet {
    if numeric_release(c.branch@) {
        literal(w, rel, pkg("releaseVersion"@), c.branch@)
    } else {
        literal(w, rel, pkg("releaseCodename"@), c.branch@)
    }
}

proof fn lemma_distribution_step_1(w: Sheet, c: AlpineCollector, rel: Seq<char>)
    ensures
        ({
            let first = w.log;
            let last = distribution_step_1(w, c, rel).log;
            &&& said(last, pkg("releaseVersion"@)) == said(first, pkg("releaseVersion"@))
                + where_so(numeric_release(c.branch@), seq![to_text(rel, c.branch@)])
            &&& said(last, pkg("releaseCodename"@)) == said(first, pkg("releaseCodename"@))
                + where_so(!(numeric_release(c.branch@)), seq![to_text(rel, c.branch@)])
            &&& forall|q: Seq<char>|
                q != pkg("releaseVersion"@) && q != pkg("releaseCodename"@)
                    ==> #[trigger] said(last, q) == said(first, q)
        }),
{
    broadcast use group_reading;

    reveal(distribution_step_1);
    reveal_strlit("releaseVersion");
    reveal_strlit("releaseCodename");
}

/// What is said of the distribution, its release and its architecture.
pub open spec fn distribution_told(
    first: Seq<Fact>,
    last: Seq<Fact>,
    c: AlpineCollector,
) -> bool {
    let dist = distro_iri(c.distro_name@);
    let rel = release_iri(c.distro_name@, c.branch@);
    let arch = arch_iri(c.arch@);
    &&& said(last, RDF_TYPE@) == said(first, RDF_TYPE@)
        + seq![to_iri(dist, pkg("Distribution"@))]
        + seq![to_iri(rel, pkg("DistributionRelease"@))]
        + seq![to_iri(arch, pkg("Architecture"@))]
    &&& said(last, pkg("projectName"@)) == said(first, pkg("projectName"@))
        + seq![to_text(dist, "Alpine Linux"@)]
    &&& said(last, RDFS_LABEL@) == said(first, RDFS_LABEL@) + seq![to_text(dist, "Alpine"@)]
    &&& said(last, pkg("releaseVersion"@)) == said(first, pkg("releaseVersion"@))
        + where_so(numeric_release(c.branch@), seq![to_text(rel, c.branch@)])
    &&& said(last, pkg("releaseCodename"@)) == said(first, pkg("releaseCodename"@))
        + where_so(!(numeric_release(c.branch@)), seq![to_text(rel, c.branch@)])
    &&& said(last, pkg("partOfDistribution"@)) == said(first, pkg("partOfDistribution"@))
        + seq![to_iri(rel, dist)]
    &&& said(last, pkg("packageName"@)) == said(first, pkg("packageName"@))
        + seq![to_text(arch, c.arch@)]
    &&& forall|q: Seq<char>|
        q != RDF_TYPE@
            && q != pkg("projectName"@)
            && q != RDFS_LABEL@
            && q != pkg("releaseVersion"@)
            && q != pkg("releaseCodename"@)
            && q != pkg("partOfDistribution"@)
            && q != pkg("packageName"@)
            ==> #[trigger] said(last, q) == said(first, q)
}

proof fn lemma_distribution_in_steps(w: Sheet, c: AlpineCollector)
    ensures
        with_distribution_metadata(w, c) == ({
            let dist = distro_iri(c.distro_name@);
            let rel = release_iri(c.distro_name@, c.branch@);
            let arch = arch_iri(c.arch@);
            let w = link(w, dist, RDF_TYPE@, pkg("Distribution"@));
            let w = literal(w, dist, pkg("projectName"@), "Alpine Linux"@);
            let w = literal(w, dist, RDFS_LABEL@, "Alpine"@);
            let w = link(w, rel, RDF_TYPE@, pkg("DistributionRelease"@));
            let w = distribution_step_1(w, c, rel);
            let w = link(w, rel, pkg("partOfDistribution"@), dist);
            let w = link(w, arch, RDF_TYPE@, pkg("Architecture"@));
            let w = literal(w, arch, pkg("packageName"@), c.arch@);
            w
        }),
{
    reveal(distribution_step_1);
}

proof fn lemma_distribution_steps(w: Sheet, c: AlpineCollector)
    ensures
        distribution_told(w.log, ({
            let dist = distro_iri(c.distro_name@);
            let rel = release_iri(c.distro_name@, c.branch@);
            let arch = arch_iri(c.arch@);
            let w = link(w, dist, RDF_TYPE@, pkg("Distribution"@));
            let w = literal(w, dist, pkg("projectName"@), "Alpine Linux"@);
            let w = literal(w, dist, RDFS_LABEL@, "Alpine"@);
            let w = link(w, rel, RDF_TYPE@, pkg("DistributionRelease"@));
            let w = distribution_step_1(w, c, rel);
            let w = link(w, rel, pkg("partOfDistribution"@), dist);
            let w = link(w, arch, RDF_TYPE@, pkg("Architecture"@));
            let w = literal(w, arch, pkg("packageName"@), c.arch@);
            w
        }).log, c),
{
    broadcast use group_writes;

    reveal_strlit("projectName");
    reveal_strlit("releaseVersion");
    reveal_strlit("releaseCodename");
    reveal_strlit("partOfDistribution");
    reveal_strlit("packageName");
    let dist = distro_iri(c.distro_name@);
    let rel = release_iri(c.distro_name@, c.branch@);
    let arch = arch_iri(c.arch@);
    let w1 = link(w, dist, RDF_TYPE@, pkg("Distribution"@));
    let w2 = literal(w1, dist, pkg("projectName"@), "Alpine Linux"@);
    let w3 = literal(w2, dist, RDFS_LABEL@, "Alpine"@);
    let w4 = link(w3, rel, RDF_TYPE@, pkg("DistributionRelease"@));
    let w5 = distribution_step_1(w4, c, rel);
    lemma_distribution_step_1(w4, c, rel);
    let w6 = link(w5, rel, pkg("partOfDistribution"@), dist);
    let w7 = link(w6, arch, RDF_TYPE@, pkg("Architecture"@));
    let w8 = literal(w7, arch, pkg("packageName"@), c.arch@);
}

/// What [`with_distribution_metadata`] writes says what [`distribution_told`] states.
pub proof fn lemma_distribution_told(
    w: Sheet,
    c: AlpineCollector,
)
    ensures
        distribution_told(w.log, with_distribution_metadata(w, c).log, c),
{
    lemma_distribution_in_steps(w, c);
    lemma_distribution_steps(w, c);
}

#[verifier::opaque]
spec fn secfix_cve_step_1(
    w: Sheet,
    c: AlpineCollector,
    name: Seq<char>,
    version: Seq<char>,
    id: Seq<char>,
) -> Sheet {
    if starts_with(id, "CVE-"@) {
        let cve = DATA@ + "cve/"@ + encoded(id, Keep::Alphanumeric);
        let w = link(w, cve, RDF_TYPE@, SEC@ + "Vulnerability"@);
        let w = literal(w, cve, SEC@ + "cveId"@, id);
        let fixed = version_iri(c.distro_name@, c.branch@, name, version);
        let w = link(w, cve, SEC@ + "fixedInVersion"@, fixed);
        let identity = identity_iri(c.distro_name@, c.branch@, c.arch@, name);
        link(w, cve, SEC@ + "affectsPackage"@, identity)
    } else {
        w
    }
}

proof fn lemma_secfix_cve_step_1(
    w: Sheet,
    c: AlpineCollector,
    name: Seq<char>,
    version: Seq<char>,
    id: Seq<char>,
)
    ensures
        ({
            let first = w.log;
            let last = secfix_cve_step_1(w, c, name, version, id).log;
            &&& said(last, RDF_TYPE@) == said(first, RDF_TYPE@)
                + where_so(
                    starts_with(id, "CVE-"@),
                    seq![
                        to_iri(
                            (DATA@ + "cve/"@ + encoded(id, Keep::Alphanumeric)),
                            SEC@ + "Vulnerability"@,
                        ),
                    ],
                )
            &&& said(last, SEC@ + "cveId"@) == said(first, SEC@ + "cveId"@)
                + where_so(
                    starts_with(id, "CVE-"@),
                    seq![to_text((DATA@ + "cve/"@ + encoded(id, Keep::Alphanumeric)), id)],
                )
            &&& said(last, SEC@ + "fixedInVersion"@) == said(first, SEC@ + "fixedInVersion"@)
                + where_so(
                    starts_with(id, "CVE-"@),
                    seq![
                        to_iri(
                            (DATA@ + "cve/"@ + encoded(id, Keep::Alphanumeric)),
                            version_iri(c.distro_name@, c.branch@, name, version),
                        ),
                    ],
                )
            &&& said(last, SEC@ + "affectsPackage"@) == said(first, SEC@ + "affectsPackage"@)
                + where_so(
                    starts_with(id, "CVE-"@),
                    seq![
                        to_iri(
                            (DATA@ + "cve/"@ + encoded(id, Keep::Alphanumeric)),
                            identity_iri(c.distro_name@, c.branch@, c.arch@, name),
                        ),
                    ],
                )
            &&& forall|q: Seq<char>|
                q != RDF_TYPE@
                    && q != SEC@ + "cveId"@
                    && q != SEC@ + "fixedInVersion"@
                    && q != SEC@ + "affectsPackage"@
                    ==> #[trigger] said(last, q) == said(first, q)
        }),
{
    broadcast use {group_reading, group_sec};

    reveal(secfix_cve_step_1);
    reveal_strlit("cveId");
    reveal_strlit("fixedInVersion");
    reveal_strlit("affectsPackage");
}

/// What is said of a vulnerability that a version of a package fixes: what it is, its name,
/// the version that it is fixed in and the package that it affects; of anything else that
/// is listed, nothing.
pub open spec fn secfix_cve_told(
    first: Seq<Fact>,
    last: Seq<Fact>,
    c: AlpineCollector,
    name: Seq<char>,
    version: Seq<char>,
    id: Seq<char>,
) -> bool {
    &&& said(last, RDF_TYPE@) == said(first, RDF_TYPE@)
        + where_so(
            starts_with(id, "CVE-"@),
            seq![
                to_iri(
                    (DATA@ + "cve/"@ + encoded(id, Keep::Alphanumeric)),
                    SEC@ + "Vulnerability"@,
                ),
            ],
        )
    &&& said(last, SEC@ + "cveId"@) == said(first, SEC@ + "cveId"@)
        + where_so(
            starts_with(id, "CVE-"@),
            seq![to_text((DATA@ + "cve/"@ + encoded(id, Keep::Alphanumeric)), id)],
        )
    &&& said(last, SEC@ + "fixedInVersion"@) == said(first, SEC@ + "fixedInVersion"@)
        + where_so(
            starts_with(id, "CVE-"@),
            seq![
                to_iri(
                    (DATA@ + "cve/"@ + encoded(id, Keep::Alphanumeric)),
                    version_iri(c.distro_name@, c.branch@, name, version),
                ),
            ],
        )
    &&& said(last, SEC@ + "affectsPackage"@) == said(first, SEC@ + "affectsPackage"@)
        + where_so(
            starts_with(id, "CVE-"@),
            seq![
                to_iri(
                    (DATA@ + "cve/"@ + encoded(id, Keep::Alphanumeric)),
                    identity_iri(c.distro_name@, c.branch@, c.arch@, name),
                ),
            ],
        )
    &&& forall|q: Seq<char>|
        q != RDF_TYPE@
            && q != SEC@ + "cveId"@
            && q != SEC@ + "fixedInVersion"@
            && q != SEC@ + "affectsPackage"@
            ==> #[trigger] said(last, q) == said(first, q)
}

proof fn lemma_secfix_cve_in_steps(
    w: Sheet,
    c: AlpineCollector,
    name: Seq<char>,
    version: Seq<char>,
    id: Seq<char>,
)
    ensures
        with_secfix_cve(w, c, name, version, id) == ({
            let w = secfix_cve_step_1(w, c, name, version, id);
            w
        }),
{
    reveal(secfix_cve_step_1);
}

proof fn lemma_secfix_cve_steps(
    w: Sheet,
    c: AlpineCollector,
    name: Seq<char>,
    version: Seq<char>,
    id: Seq<char>,
)
    ensures
        secfix_cve_told(w.log, ({
            let w = secfix_cve_step_1(w, c, name, version, id);
            w
        }).log, c, name, version, id),
{
    broadcast use {group_writes, group_sec};

    reveal_strlit("cveId");
    reveal_strlit("fixedInVersion");
    reveal_strlit("affectsPackage");
    let w1 = secfix_cve_step_1(w, c, name, version, id);
    lemma_secfix_cve_step_1(w, c, name, version, id);
}

/// What [`with_secfix_cve`] writes says what [`secfix_cve_told`] states.
pub proof fn lemma_secfix_cve_told(
    w: Sheet,
    c: AlpineCollector,
    name: Seq<char>,
    version: Seq<char>,
    id: Seq<char>,
)
    ensures
        secfix_cve_told(w.log, with_secfix_cve(w, c, name, version, id).log, c, name, version, id),
{
    lemma_secfix_cve_in_steps(w, c, name, version, id);
    lemma_secfix_cve_steps(w, c, name, version, id);
}

proof fn lemma_each_secfix_cve_told(
    w: Sheet,
    c: AlpineCollector,
    name: Seq<char>,
    version: Seq<char>,
    items: Seq<Seq<char>>,
    n: nat,
)
    ensures
        ({
            let first = w.log;
            let last = with_each_secfix_cve(w, c, name, version, items, n).log;
            &&& said(last, RDF_TYPE@) == said(first, RDF_TYPE@)
                + in_turn(
                    |k: int|
                        where_so(
                            starts_with((items[k]), "CVE-"@),
                            seq![
                                to_iri(
                                    (DATA@ + "cve/"@ + encoded((items[k]), Keep::Alphanumeric)),
                                    SEC@ + "Vulnerability"@,
                                ),
                            ],
                        ),
                    n,
                )
            &&& said(last, SEC@ + "cveId"@) == said(first, SEC@ + "cveId"@)
                + in_turn(
                    |k: int|
                        where_so(
                            starts_with((items[k]), "CVE-"@),
                            seq![
                                to_text(
                                    (DATA@ + "cve/"@ + encoded((items[k]), Keep::Alphanumeric)),
                                    (items[k]),
                                ),
                            ],
                        ),
                    n,
                )
            &&& said(last, SEC@ + "fixedInVersion"@) == said(first, SEC@ + "fixedInVersion"@)
                + in_turn(
                    |k: int|
                        where_so(
                            starts_with((items[k]), "CVE-"@),
                            seq![
                                to_iri(
                                    (DATA@ + "cve/"@ + encoded((items[k]), Keep::Alphanumeric)),
                                    version_iri(c.distro_name@, c.branch@, name, version),
                                ),
                            ],
                        ),
                    n,
                )
            &&& said(last, SEC@ + "affectsPackage"@) == said(first, SEC@ + "affectsPackage"@)
                + in_turn(
                    |k: int|
                        where_so(
                            starts_with((items[k]), "CVE-"@),
                            seq![
                                to_iri(
                                    (DATA@ + "cve/"@ + encoded((items[k]), Keep::Alphanumeric)),
                                    identity_iri(c.distro_name@, c.branch@, c.arch@, name),
                                ),
                            ],
                        ),
                    n,
                )
            &&& forall|q: Seq<char>|
                q != RDF_TYPE@
                    && q != SEC@ + "cveId"@
                    && q != SEC@ + "fixedInVersion"@
                    && q != SEC@ + "affectsPackage"@
                    ==> #[trigger] said(last, q) == said(first, q)
        }),
    decreases n,
{
    broadcast use {group_writes, group_sec};

    reveal_strlit("cveId");
    reveal_strlit("fixedInVersion");
    reveal_strlit("affectsPackage");
    if n > 0 {
        lemma_each_secfix_cve_told(w, c, name, version, items, (n - 1) as nat);
        lemma_secfix_cve_told(
            with_each_secfix_cve(w, c, name, version, items, (n - 1) as nat),
            c,
            name,
            version,
            items[n - 1],
        );
    }
}

proof fn lemma_secfix_told(w: Sheet, c: AlpineCollector, name: Seq<char>, fix: Fix)
    ensures
        ({
            let first = w.log;
            let last = with_secfix(w, c, name, fix).log;
            &&& said(last, RDF_TYPE@) == said(first, RDF_TYPE@)
                + in_turn(
                    |k: int|
                        where_so(
                            starts_with((fix.cves[k]), "CVE-"@),
                            seq![
                                to_iri(
                                    (DATA@ + "cve/"@ + encoded((fix.cves[k]), Keep::Alphanumeric)),
                                    SEC@ + "Vulnerability"@,
                                ),
                            ],
                        ),
                    (fix.cves.len()),
                )
            &&& said(last, SEC@ + "cveId"@) == said(first, SEC@ + "cveId"@)
                + in_turn(
                    |k: int|
                        where_so(
                            starts_with((fix.cves[k]), "CVE-"@),
                            seq![
                                to_text(
                                    (DATA@ + "cve/"@ + encoded((fix.cves[k]), Keep::Alphanumeric)),
                                    (fix.cves[k]),
                                ),
                            ],
                        ),
                    (fix.cves.len()),
                )
            &&& said(last, SEC@ + "fixedInVersion"@) == said(first, SEC@ + "fixedInVersion"@)
                + in_turn(
                    |k: int|
                        where_so(
                            starts_with((fix.cves[k]), "CVE-"@),
                            seq![
                                to_iri(
                                    (DATA@ + "cve/"@ + encoded((fix.cves[k]), Keep::Alphanumeric)),
                                    version_iri(c.distro_name@, c.branch@, name, fix.version),
                                ),
                            ],
                        ),
                    (fix.cves.len()),
                )
            &&& said(last, SEC@ + "affectsPackage"@) == said(first, SEC@ + "affectsPackage"@)
                + in_turn(
                    |k: int|
                        where_so(
                            starts_with((fix.cves[k]), "CVE-"@),
                            seq![
                                to_iri(
                                    (DATA@ + "cve/"@ + encoded((fix.cves[k]), Keep::Alphanumeric)),
                                    identity_iri(c.distro_name@, c.branch@, c.arch@, name),
                                ),
                            ],
                        ),
                    (fix.cves.len()),
                )
            &&& forall|q: Seq<char>|
                q != RDF_TYPE@
                    && q != SEC@ + "cveId"@
                    && q != SEC@ + "fixedInVersion"@
                    && q != SEC@ + "affectsPackage"@
                    ==> #[trigger] said(last, q) == said(first, q)
        }),
{
    broadcast use {group_reading, group_sec};

    reveal_strlit("cveId");
    reveal_strlit("fixedInVersion");
    reveal_strlit("affectsPackage");
    lemma_each_secfix_cve_told(w, c, name, fix.version, fix.cves, fix.cves.len());
}

proof fn lemma_each_secfix_told(
    w: Sheet,
    c: AlpineCollector,
    name: Seq<char>,
    items: Seq<Fix>,
    n: nat,
)
    ensures
        ({
            let first = w.log;
            let last = with_each_secfix(w, c, name, items, n).log;
            &&& said(last, RDF_TYPE@) == said(first, RDF_TYPE@)
                + in_turn(
                    |j: int|
                        in_turn(
                            |k: int|
                                where_so(
                                    starts_with(((items[j]).cves[k]), "CVE-"@),
                                    seq![
                                        to_iri(
                                            (
                                                DATA@
                                                    + "cve/"@
                                                    + encoded(
                                                        ((items[j]).cves[k]),
                                                        Keep::Alphanumeric,
                                                    )
                                            ),
                                            SEC@ + "Vulnerability"@,
                                        ),
                                    ],
                                ),
                            ((items[j]).cves.len()),
                        ),
                    n,
                )
            &&& said(last, SEC@ + "cveId"@) == said(first, SEC@ + "cveId"@)
                + in_turn(
                    |j: int|
                        in_turn(
                            |k: int|
                                where_so(
                                    starts_with(((items[j]).cves[k]), "CVE-"@),
                                    seq![
                                        to_text(
                                            (
                                                DATA@
                                                    + "cve/"@
                                                    + encoded(
                                                        ((items[j]).cves[k]),
                                                        Keep::Alphanumeric,
                                                    )
                                            ),
                                            ((items[j]).cves[k]),
                                        ),
                                    ],
                                ),
                            ((items[j]).cves.len()),
                        ),
                    n,
                )
            &&& said(last, SEC@ + "fixedInVersion"@) == said(first, SEC@ + "fixedInVersion"@)
                + in_turn(
                    |j: int|
                        in_turn(
                            |k: int|
                                where_so(
                                    starts_with(((items[j]).cves[k]), "CVE-"@),
                                    seq![
                                        to_iri(
                                            (
                                                DATA@
                                                    + "cve/"@
                                                    + encoded(
                                                        ((items[j]).cves[k]),
                                                        Keep::Alphanumeric,
                                                    )
                                            ),
                                            version_iri(
                                                c.distro_name@,
                                                c.branch@,
                                                name,
                                                (items[j]).version,
                                            ),
                                        ),
                                    ],
                                ),
                            ((items[j]).cves.len()),
                        ),
                    n,
                )
            &&& said(last, SEC@ + "affectsPackage"@) == said(first, SEC@ + "affectsPackage"@)
                + in_turn(
                    |j: int|
                        in_turn(
                            |k: int|
                                where_so(
                                    starts_with(((items[j]).cves[k]), "CVE-"@),
                                    seq![
                                        to_iri(
                                            (
                                                DATA@
                                                    + "cve/"@
                                                    + encoded(
                                                        ((items[j]).cves[k]),
                                                        Keep::Alphanumeric,
                                                    )
                                            ),
                                            identity_iri(c.distro_name@, c.branch@, c.arch@, name),
                                        ),
                                    ],
                                ),
                            ((items[j]).cves.len()),
                        ),
                    n,
                )
            &&& forall|q: Seq<char>|
                q != RDF_TYPE@
                    && q != SEC@ + "cveId"@
                    && q != SEC@ + "fixedInVersion"@
                    && q != SEC@ + "affectsPackage"@
                    ==> #[trigger] said(last, q) == said(first, q)
        }),
    decreases n,
{
    broadcast use {group_writes, group_sec};

    reveal_strlit("cveId");
    reveal_strlit("fixedInVersion");
    reveal_strlit("affectsPackage");
    if n > 0 {
        lemma_each_secfix_told(w, c, name, items, (n - 1) as nat);
        lemma_secfix_told(
            with_each_secfix(w, c, name, items, (n - 1) as nat),
            c,
            name,
            items[n - 1],
        );
    }
}

proof fn lemma_secdb_package_told(w: Sheet, c: AlpineCollector, package: FixedPackage)
    ensures
        ({
            let first = w.log;
            let last = with_secdb_package(w, c, package).log;
            &&& said(last, RDF_TYPE@) == said(first, RDF_TYPE@)
                + in_turn(
                    |j: int|
                        in_turn(
                            |k: int|
                                where_so(
                                    starts_with(((package.secfixes[j]).cves[k]), "CVE-"@),
                                    seq![
                                        to_iri(
                                            (
                                                DATA@
                                                    + "cve/"@
                                                    + encoded(
                                                        ((package.secfixes[j]).cves[k]),
                                                        Keep::Alphanumeric,
                                                    )
                                            ),
                                            SEC@ + "Vulnerability"@,
                                        ),
                                    ],
                                ),
                            ((package.secfixes[j]).cves.len()),
                        ),
                    (package.secfixes.len()),
                )
            &&& said(last, SEC@ + "cveId"@) == said(first, SEC@ + "cveId"@)
                + in_turn(
                    |j: int|
                        in_turn(
                            |k: int|
                                where_so(
                                    starts_with(((package.secfixes[j]).cves[k]), "CVE-"@),
                                    seq![
                                        to_text(
                                            (
                                                DATA@
                                                    + "cve/"@
                                                    + encoded(
                                                        ((package.secfixes[j]).cves[k]),
                                                        Keep::Alphanumeric,
                                                    )
                                            ),
                                            ((package.secfixes[j]).cves[k]),
                                        ),
                                    ],
                                ),
                            ((package.secfixes[j]).cves.len()),
                        ),
                    (package.secfixes.len()),
                )
            &&& said(last, SEC@ + "fixedInVersion"@) == said(first, SEC@ + "fixedInVersion"@)
                + in_turn(
                    |j: int|
                        in_turn(
                            |k: int|
                                where_so(
                                    starts_with(((package.secfixes[j]).cves[k]), "CVE-"@),
                                    seq![
                                        to_iri(
                                            (
                                                DATA@
                                                    + "cve/"@
                                                    + encoded(
                                                        ((package.secfixes[j]).cves[k]),
                                                        Keep::Alphanumeric,
                                                    )
                                            ),
                                            version_iri(
                                                c.distro_name@,
                                                c.branch@,
                                                package.name,
                                                (package.secfixes[j]).version,
                                            ),
                                        ),
                                    ],
                                ),
                            ((package.secfixes[j]).cves.len()),
                        ),
                    (package.secfixes.len()),
                )
            &&& said(last, SEC@ + "affectsPackage"@) == said(first, SEC@ + "affectsPackage"@)
                + in_turn(
                    |j: int|
                        in_turn(
                            |k: int|
                                where_so(
                                    starts_with(((package.secfixes[j]).cves[k]), "CVE-"@),
                                    seq![
                                        to_iri(
                                            (
                                                DATA@
                                                    + "cve/"@
                                                    + encoded(
                                                        ((package.secfixes[j]).cves[k]),
                                                        Keep::Alphanumeric,
                                                    )
                                            ),
                                            identity_iri(
                                                c.distro_name@,
                                                c.branch@,
                                                c.arch@,
                                                package.name,
                                            ),
                                        ),
                                    ],
                                ),
                            ((package.secfixes[j]).cves.len()),
                        ),
                    (package.secfixes.len()),
                )
            &&& forall|q: Seq<char>|
                q != RDF_TYPE@
                    && q != SEC@ + "cveId"@
                    && q != SEC@ + "fixedInVersion"@
                    && q != SEC@ + "affectsPackage"@
                    ==> #[trigger] said(last, q) == said(first, q)
        }),
{
    broadcast use {group_reading, group_sec};

    reveal_strlit("cveId");
    reveal_strlit("fixedInVersion");
    reveal_strlit("affectsPackage");
    lemma_each_secfix_told(w, c, package.name, package.secfixes, package.secfixes.len());
}

proof fn lemma_each_secdb_package_told(
    w: Sheet,
    c: AlpineCollector,
    items: Seq<FixedPackage>,
    n: nat,
)
    ensures
        ({
            let first = w.log;
            let last = with_each_secdb_package(w, c, items, n).log;
            &&& said(last, RDF_TYPE@) == said(first, RDF_TYPE@)
                + in_turn(
                    |i: int|
                        in_turn(
                            |j: int|
                                in_turn(
                                    |k: int|
                                        where_so(
                                            starts_with(
                                                (((items[i]).secfixes[j]).cves[k]),
                                                "CVE-"@,
                                            ),
                                            seq![
                                                to_iri(
                                                    (
                                                        DATA@
                                                            + "cve/"@
                                                            + encoded(
                                                                (((items[i]).secfixes[j]).cves[k]),
                                                                Keep::Alphanumeric,
                                                            )
                                                    ),
                                                    SEC@ + "Vulnerability"@,
                                                ),
                                            ],
                                        ),
                                    (((items[i]).secfixes[j]).cves.len()),
                                ),
                            ((items[i]).secfixes.len()),
                        ),
                    n,
                )
            &&& said(last, SEC@ + "cveId"@) == said(first, SEC@ + "cveId"@)
                + in_turn(
                    |i: int|
                        in_turn(
                            |j: int|
                                in_turn(
                                    |k: int|
                                        where_so(
                                            starts_with(
                                                (((items[i]).secfixes[j]).cves[k]),
                                                "CVE-"@,
                                            ),
                                            seq![
                                                to_text(
                                                    (
                                                        DATA@
                                                            + "cve/"@
                                                            + encoded(
                                                                (((items[i]).secfixes[j]).cves[k]),
                                                                Keep::Alphanumeric,
                                                            )
                                                    ),
                                                    (((items[i]).secfixes[j]).cves[k]),
                                                ),
                                            ],
                                        ),
                                    (((items[i]).secfixes[j]).cves.len()),
                                ),
                            ((items[i]).secfixes.len()),
                        ),
                    n,
                )
            &&& said(last, SEC@ + "fixedInVersion"@) == said(first, SEC@ + "fixedInVersion"@)
                + in_turn(
                    |i: int|
                        in_turn(
                            |j: int|
                                in_turn(
                                    |k: int|
                                        where_so(
                                            starts_with(
                                                (((items[i]).secfixes[j]).cves[k]),
                                                "CVE-"@,
                                            ),
                                            seq![
                                                to_iri(
                                                    (
                                                        DATA@
                                                            + "cve/"@
                                                            + encoded(
                                                                (((items[i]).secfixes[j]).cves[k]),
                                                                Keep::Alphanumeric,
                                                            )
                                                    ),
                                                    version_iri(
                                                        c.distro_name@,
                                                        c.branch@,
                                                        (items[i]).name,
                                                        ((items[i]).secfixes[j]).version,
                                                    ),
                                                ),
                                            ],
                                        ),
                                    (((items[i]).secfixes[j]).cves.len()),
                                ),
                            ((items[i]).secfixes.len()),
                        ),
                    n,
                )
            &&& said(last, SEC@ + "affectsPackage"@) == said(first, SEC@ + "affectsPackage"@)
                + in_turn(
                    |i: int|
                        in_turn(
                            |j: int|
                                in_turn(
                                    |k: int|
                                        where_so(
                                            starts_with(
                                                (((items[i]).secfixes[j]).cves[k]),
                                                "CVE-"@,
                                            ),
                                            seq![
                                                to_iri(
                                                    (
                                                        DATA@
                                                            + "cve/"@
                                                            + encoded(
                                                                (((items[i]).secfixes[j]).cves[k]),
                                                                Keep::Alphanumeric,
                                                            )
                                                    ),
                                                    identity_iri(
                                                        c.distro_name@,
                                                        c.branch@,
                                                        c.arch@,
                                                        (items[i]).name,
                                                    ),
                                                ),
                                            ],
                                        ),
                                    (((items[i]).secfixes[j]).cves.len()),
                                ),
                            ((items[i]).secfixes.len()),
                        ),
                    n,
                )
            &&& forall|q: Seq<char>|
                q != RDF_TYPE@
                    && q != SEC@ + "cveId"@
                    && q != SEC@ + "fixedInVersion"@
                    && q != SEC@ + "affectsPackage"@
                    ==> #[trigger] said(last, q) == said(first, q)
        }),
    decreases n,
{
    broadcast use {group_writes, group_sec};

    reveal_strlit("cveId");
    reveal_strlit("fixedInVersion");
    reveal_strlit("affectsPackage");
    if n > 0 {
        lemma_each_secdb_package_told(w, c, items, (n - 1) as nat);
        lemma_secdb_package_told(
            with_each_secdb_package(w, c, items, (n - 1) as nat),
            c,
            items[n - 1],
        );
    }
}

proof fn lemma_secdb_triples_told(w: Sheet, c: AlpineCollector, db: SecurityDb)
    ensures
        ({
            let first = w.log;
            let last = with_secdb_triples(w, c, db).log;
            &&& said(last, RDF_TYPE@) == said(first, RDF_TYPE@)
                + in_turn(
                    |i: int|
                        in_turn(
                            |j: int|
                                in_turn(
                                    |k: int|
                                        where_so(
                                            starts_with(
                                                (((db.packages[i]).secfixes[j]).cves[k]),
                                                "CVE-"@,
                                            ),
                                            seq![
                                                to_iri(
                                                    (
                                                        DATA@
                                                            + "cve/"@
                                                            + encoded(
                                                                (
                                                                    (
                                                                        (db.packages[i]).secfixes[j]
                                                                    ).cves[k]
                                                                ),
                                                                Keep::Alphanumeric,
                                                            )
                                                    ),
                                                    SEC@ + "Vulnerability"@,
                                                ),
                                            ],
                                        ),
                                    (((db.packages[i]).secfixes[j]).cves.len()),
                                ),
                            ((db.packages[i]).secfixes.len()),
                        ),
                    (db.packages.len()),
                )
            &&& said(last, SEC@ + "cveId"@) == said(first, SEC@ + "cveId"@)
                + in_turn(
                    |i: int|
                        in_turn(
                            |j: int|
                                in_turn(
                                    |k: int|
                                        where_so(
                                            starts_with(
                                                (((db.packages[i]).secfixes[j]).cves[k]),
                                                "CVE-"@,
                                            ),
                                            seq![
                                                to_text(
                                                    (
                                                        DATA@
                                                            + "cve/"@
                                                            + encoded(
                                                                (
                                                                    (
                                                                        (db.packages[i]).secfixes[j]
                                                                    ).cves[k]
                                                                ),
                                                                Keep::Alphanumeric,
                                                            )
                                                    ),
                                                    (((db.packages[i]).secfixes[j]).cves[k]),
                                                ),
                                            ],
                                        ),
                                    (((db.packages[i]).secfixes[j]).cves.len()),
                                ),
                            ((db.packages[i]).secfixes.len()),
                        ),
                    (db.packages.len()),
                )
            &&& said(last, SEC@ + "fixedInVersion"@) == said(first, SEC@ + "fixedInVersion"@)
                + in_turn(
                    |i: int|
                        in_turn(
                            |j: int|
                                in_turn(
                                    |k: int|
                                        where_so(
                                            starts_with(
                                                (((db.packages[i]).secfixes[j]).cves[k]),
                                                "CVE-"@,
                                            ),
                                            seq![
                                                to_iri(
                                                    (
                                                        DATA@
                                                            + "cve/"@
                                                            + encoded(
                                                                (
                                                                    (
                                                                        (db.packages[i]).secfixes[j]
                                                                    ).cves[k]
                                                                ),
                                                                Keep::Alphanumeric,
                                                            )
                                                    ),
                                                    version_iri(
                                                        c.distro_name@,
                                                        c.branch@,
                                                        (db.packages[i]).name,
                                                        ((db.packages[i]).secfixes[j]).version,
                                                    ),
                                                ),
                                            ],
                                        ),
                                    (((db.packages[i]).secfixes[j]).cves.len()),
                                ),
                            ((db.packages[i]).secfixes.len()),
                        ),
                    (db.packages.len()),
                )
            &&& said(last, SEC@ + "affectsPackage"@) == said(first, SEC@ + "affectsPackage"@)
                + in_turn(
                    |i: int|
                        in_turn(
                            |j: int|
                                in_turn(
                                    |k: int|
                                        where_so(
                                            starts_with(
                                                (((db.packages[i]).secfixes[j]).cves[k]),
                                                "CVE-"@,
                                            ),
                                            seq![
                                                to_iri(
                                                    (
                                                        DATA@
                                                            + "cve/"@
                                                            + encoded(
                                                                (
                                                                    (
                                                                        (db.packages[i]).secfixes[j]
                                                                    ).cves[k]
                                                                ),
                                                                Keep::Alphanumeric,
                                                            )
                                                    ),
                                                    identity_iri(
                                                        c.distro_name@,
                                                        c.branch@,
                                                        c.arch@,
                                                        (db.packages[i]).name,
                                                    ),
                                                ),
                                            ],
                                        ),
                                    (((db.packages[i]).secfixes[j]).cves.len()),
                                ),
                            ((db.packages[i]).secfixes.len()),
                        ),
                    (db.packages.len()),
                )
            &&& forall|q: Seq<char>|
                q != RDF_TYPE@
                    && q != SEC@ + "cveId"@
                    && q != SEC@ + "fixedInVersion"@
                    && q != SEC@ + "affectsPackage"@
                    ==> #[trigger] said(last, q) == said(first, q)
        }),
{
    broadcast use {group_reading, group_sec};

    reveal_strlit("cveId");
    reveal_strlit("fixedInVersion");
    reveal_strlit("affectsPackage");
    lemma_each_secdb_package_told(w, c, db.packages, db.packages.len());
}

#[verifier::opaque]
spec fn record_step_1(
    w: Sheet,
    c: AlpineCollector,
    fields: Map<Seq<char>, Seq<char>>,
    repo: Seq<char>,
) -> Sheet {
    match field(fields, "P"@) {
        Some(name) => {
            let w = match field(fields, "V"@) {
                Some(version) => { with_named_package(w, c, fields, repo, name, version) },
                None => {
                    with_dq_issue(
                        w,
                        "alpine-collector"@,
                        "package_version"@,
                        name,
                        "missing_field"@,
                        "high"@,
                    )
                },
            };
            w
        },
        None => {
            with_dq_issue(
                w,
                "alpine-collector"@,
                "package_name"@,
                "<missing>"@,
                "missing_field"@,
                "high"@,
            )
        },
    }
}

proof fn lemma_record_step_1(
    w: Sheet,
    c: AlpineCollector,
    fields: Map<Seq<char>, Seq<char>>,
    repo: Seq<char>,
)
    ensures
        ({
            let first = w.log;
            let last = record_step_1(w, c, fields, repo).log;
            &&& said(last, pkg("packageName"@)) == said(first, pkg("packageName"@))
                + (
                    match field(fields, "P"@) {
                        Some(name) => (
                            match field(fields, "V"@) {
                                Some(version) => seq![
                                    to_text(
                                        identity_iri(c.distro_name@, c.branch@, c.arch@, name),
                                        name,
                                    ),
                                ],
                                None => Seq::empty(),
                            }
                        ),
                        None => Seq::empty(),
                    }
                )
                + (
                    match field(fields, "P"@) {
                        Some(name) => (
                            match field(fields, "V"@) {
                                Some(version) => seq![
                                    to_text(
                                        package_iri(
                                            c.distro_name@,
                                            c.branch@,
                                            c.arch@,
                                            name,
                                            version,
                                        ),
                                        name,
                                    ),
                                ],
                                None => Seq::empty(),
                            }
                        ),
                        None => Seq::empty(),
                    }
                )
                + (
                    match field(fields, "P"@) {
                        Some(name) => (
                            match field(fields, "V"@) {
                                Some(version) => (
                                    match field(fields, "o"@) {
                                        Some(x) => seq![
                                            to_text(
                                                source_iri(c.distro_name@, c.branch@, x, version),
                                                x,
                                            ),
                                        ],
                                        None => Seq::empty(),
                                    }
                                ),
                                None => Seq::empty(),
                            }
                        ),
                        None => Seq::empty(),
                    }
                )
            &&& said(last, pkg("isVersionOf"@)) == said(first, pkg("isVersionOf"@))
                + (
                    match field(fields, "P"@) {
                        Some(name) => (
                            match field(fields, "V"@) {
                                Some(version) => seq![
                                    to_iri(
                                        package_iri(
                                            c.distro_name@,
                                            c.branch@,
                                            c.arch@,
                                            name,
                                            version,
                                        ),
                                        identity_iri(c.distro_name@, c.branch@, c.arch@, name),
                                    ),
                                ],
                                None => Seq::empty(),
                            }
                        ),
                        None => Seq::empty(),
                    }
                )
            &&& said(last, pkg("directlyDependsOn"@)) == said(first, pkg("directlyDependsOn"@))
                + (
                    match field(fields, "P"@) {
                        Some(name) => (
                            match field(fields, "V"@) {
                                Some(version) => (
                                    match field(fields, "D"@) {
                                        Some(x) => in_turn(
                                            |k: int|
                                                where_so(
                                                    !is_virtual((words(x, Sep::Blank)[k])),
                                                    seq![
                                                        to_iri(
                                                            package_iri(
                                                                c.distro_name@,
                                                                c.branch@,
                                                                c.arch@,
                                                                name,
                                                                version,
                                                            ),
                                                            identity_iri(
                                                                c.distro_name@,
                                                                c.branch@,
                                                                c.arch@,
                                                                dependency_of(
                                                                    regex_captures(
                                                                        DEPENDENCY@,
                                                                        (words(x, Sep::Blank)[k]),
                                                                    ),
                                                                    (words(x, Sep::Blank)[k]),
                                                                ).name,
                                                            ),
                                                        ),
                                                    ],
                                                ),
                                            (words(x, Sep::Blank).len()),
                                        ),
                                        None => Seq::empty(),
                                    }
                                ),
                                None => Seq::empty(),
                            }
                        ),
                        None => Seq::empty(),
                    }
                )
            &&& said(last, pkg("dqField"@)) == said(first, pkg("dqField"@))
                + (
                    match field(fields, "P"@) {
                        Some(name) => (
                            match field(fields, "V"@) {
                                Some(version) => Seq::empty(),
                                None => seq![
                                    to_text(
                                        issue_iri(
                                            ("alpine-collector"@),
                                            ("package_version"@),
                                            name,
                                            ("missing_field"@),
                                        ),
                                        ("package_version"@),
                                    ),
                                ],
                            }
                        ),
                        None => Seq::empty(),
                    }
                )
                + (
                    match field(fields, "P"@) {
                        Some(name) => Seq::empty(),
                        None => seq![
                            to_text(
                                issue_iri(
                                    ("alpine-collector"@),
                                    ("package_name"@),
                                    ("<missing>"@),
                                    ("missing_field"@),
                                ),
                                ("package_name"@),
                            ),
                        ],
                    }
                )
            &&& said(last, pkg("dqIssueType"@)) == said(first, pkg("dqIssueType"@))
                + (
                    match field(fields, "P"@) {
                        Some(name) => (
                            match field(fields, "V"@) {
                                Some(version) => Seq::empty(),
                                None => seq![
                                    to_text(
                                        issue_iri(
                                            ("alpine-collector"@),
                                            ("package_version"@),
                                            name,
                                            ("missing_field"@),
                                        ),
                                        ("missing_field"@),
                                    ),
                                ],
                            }
                        ),
                        None => Seq::empty(),
                    }
                )
                + (
                    match field(fields, "P"@) {
                        Some(name) => Seq::empty(),
                        None => seq![
                            to_text(
                                issue_iri(
                                    ("alpine-collector"@),
                                    ("package_name"@),
                                    ("<missing>"@),
                                    ("missing_field"@),
                                ),
                                ("missing_field"@),
                            ),
                        ],
                    }
                )
        }),
{
    broadcast use {group_reading, group_apk};

    reveal(record_step_1);
    reveal_strlit("packageName");
    reveal_strlit("isVersionOf");
    reveal_strlit("hasVersion");
    reveal_strlit("maintainedBy");
    reveal_strlit("builtFromSource");
    reveal_strlit("apkOrigin");
    reveal_strlit("directlyDependsOn");
    reveal_strlit("dependencyType");
    reveal_strlit("provides");
    reveal_strlit("installIf");
    reveal_strlit("replaces");
    reveal_strlit("dqCollector");
    reveal_strlit("dqField");
    reveal_strlit("dqValue");
    reveal_strlit("dqIssueType");
    reveal_strlit("dqSeverity");
    match field(fields, "P"@) {
        Some(name) => {
            match field(fields, "V"@) {
                Some(version) => {
                    lemma_package_told(w, c, fields, repo, name, version);
                },
                None => {
                    lemma_dq_issue_told(
                        w,
                        "alpine-collector"@,
                        "package_version"@,
                        name,
                        "missing_field"@,
                        "high"@,
                    );
                },
            }
        },
        None => {
            lemma_dq_issue_told(
                w,
                "alpine-collector"@,
                "package_name"@,
                "<missing>"@,
                "missing_field"@,
                "high"@,
            );
        },
    }
}

/// What is said of a record: of the package that it names with a version everything, of one
/// without a version or a name that this is a fault in the data.
pub open spec fn record_told(
    first: Seq<Fact>,
    last: Seq<Fact>,
    c: AlpineCollector,
    fields: Map<Seq<char>, Seq<char>>,
    repo: Seq<char>,
) -> bool {
    &&& said(last, pkg("packageName"@)) == said(first, pkg("packageName"@))
        + (
            match field(fields, "P"@) {
                Some(name) => (
                    match field(fields, "V"@) {
                        Some(version) => seq![
                            to_text(identity_iri(c.distro_name@, c.branch@, c.arch@, name), name),
                        ],
                        None => Seq::empty(),
                    }
                ),
                None => Seq::empty(),
            }
        )
        + (
            match field(fields, "P"@) {
                Some(name) => (
                    match field(fields, "V"@) {
                        Some(version) => seq![
                            to_text(
                                package_iri(c.distro_name@, c.branch@, c.arch@, name, version),
                                name,
                            ),
                        ],
                        None => Seq::empty(),
                    }
                ),
                None => Seq::empty(),
            }
        )
        + (
            match field(fields, "P"@) {
                Some(name) => (
                    match field(fields, "V"@) {
                        Some(version) => (
                            match field(fields, "o"@) {
                                Some(x) => seq![
                                    to_text(source_iri(c.distro_name@, c.branch@, x, version), x),
                                ],
                                None => Seq::empty(),
                            }
                        ),
                        None => Seq::empty(),
                    }
                ),
                None => Seq::empty(),
            }
        )
    &&& said(last, pkg("isVersionOf"@)) == said(first, pkg("isVersionOf"@))
        + (
            match field(fields, "P"@) {
                Some(name) => (
                    match field(fields, "V"@) {
                        Some(version) => seq![
                            to_iri(
                                package_iri(c.distro_name@, c.branch@, c.arch@, name, version),
                                identity_iri(c.distro_name@, c.branch@, c.arch@, name),
                            ),
                        ],
                        None => Seq::empty(),
                    }
                ),
                None => Seq::empty(),
            }
        )
    &&& said(last, pkg("directlyDependsOn"@)) == said(first, pkg("directlyDependsOn"@))
        + (
            match field(fields, "P"@) {
                Some(name) => (
                    match field(fields, "V"@) {
                        Some(version) => (
                            match field(fields, "D"@) {
                                Some(x) => in_turn(
                                    |k: int|
                                        where_so(
                                            !is_virtual((words(x, Sep::Blank)[k])),
                                            seq![
                                                to_iri(
                                                    package_iri(
                                                        c.distro_name@,
                                                        c.branch@,
                                                        c.arch@,
                                                        name,
                                                        version,
                                                    ),
                                                    identity_iri(
                                                        c.distro_name@,
                                                        c.branch@,
                                                        c.arch@,
                                                        dependency_of(
                                                            regex_captures(
                                                                DEPENDENCY@,
                                                                (words(x, Sep::Blank)[k]),
                                                            ),
                                                            (words(x, Sep::Blank)[k]),
                                                        ).name,
                                                    ),
                                                ),
                                            ],
                                        ),
                                    (words(x, Sep::Blank).len()),
                                ),
                                None => Seq::empty(),
                            }
                        ),
                        None => Seq::empty(),
                    }
                ),
                None => Seq::empty(),
            }
        )
    &&& said(last, pkg("dqField"@)) == said(first, pkg("dqField"@))
        + (
            match field(fields, "P"@) {
                Some(name) => (
                    match field(fields, "V"@) {
                        Some(version) => Seq::empty(),
                        None => seq![
                            to_text(
                                issue_iri(
                                    ("alpine-collector"@),
                                    ("package_version"@),
                                    name,
                                    ("missing_field"@),
                                ),
                                ("package_version"@),
                            ),
                        ],
                    }
                ),
                None => Seq::empty(),
            }
        )
        + (
            match field(fields, "P"@) {
                Some(name) => Seq::empty(),
                None => seq![
                    to_text(
                        issue_iri(
                            ("alpine-collector"@),
                            ("package_name"@),
                            ("<missing>"@),
                            ("missing_field"@),
                        ),
                        ("package_name"@),
                    ),
                ],
            }
        )
    &&& said(last, pkg("dqIssueType"@)) == said(first, pkg("dqIssueType"@))
        + (
            match field(fields, "P"@) {
                Some(name) => (
                    match field(fields, "V"@) {
                        Some(version) => Seq::empty(),
                        None => seq![
                            to_text(
                                issue_iri(
                                    ("alpine-collector"@),
                                    ("package_version"@),
                                    name,
                                    ("missing_field"@),
                                ),
                                ("missing_field"@),
                            ),
                        ],
                    }
                ),
                None => Seq::empty(),
            }
        )
        + (
            match field(fields, "P"@) {
                Some(name) => Seq::empty(),
                None => seq![
                    to_text(
                        issue_iri(
                            ("alpine-collector"@),
                            ("package_name"@),
                            ("<missing>"@),
                            ("missing_field"@),
                        ),
                        ("missing_field"@),
                    ),
                ],
            }
        )
}

proof fn lemma_record_in_steps(
    w: Sheet,
    c: AlpineCollector,
    fields: Map<Seq<char>, Seq<char>>,
    repo: Seq<char>,
)
    ensures
        with_package_triples(w, c, fields, repo) == ({
            let w = record_step_1(w, c, fields, repo);
            w
        }),
{
    reveal(record_step_1);
}

proof fn lemma_record_steps(
    w: Sheet,
    c: AlpineCollector,
    fields: Map<Seq<char>, Seq<char>>,
    repo: Seq<char>,
)
    ensures
        record_told(w.log, ({
            let w = record_step_1(w, c, fields, repo);
            w
        }).log, c, fields, repo),
{
    broadcast use {group_writes, group_apk};

    reveal_strlit("packageName");
    reveal_strlit("isVersionOf");
    reveal_strlit("hasVersion");
    reveal_strlit("maintainedBy");
    reveal_strlit("builtFromSource");
    reveal_strlit("apkOrigin");
    reveal_strlit("directlyDependsOn");
    reveal_strlit("dependencyType");
    reveal_strlit("provides");
    reveal_strlit("installIf");
    reveal_strlit("replaces");
    reveal_strlit("dqCollector");
    reveal_strlit("dqField");
    reveal_strlit("dqValue");
    reveal_strlit("dqIssueType");
    reveal_strlit("dqSeverity");
    let w1 = record_step_1(w, c, fields, repo);
    lemma_record_step_1(w, c, fields, repo);
}

/// What [`with_package_triples`] writes says what [`record_told`] states.
pub proof fn lemma_record_told(
    w: Sheet,
    c: AlpineCollector,
    fields: Map<Seq<char>, Seq<char>>,
    repo: Seq<char>,
)
    ensures
        record_told(w.log, with_package_triples(w, c, fields, repo).log, c, fields, repo),
{
    lemma_record_in_steps(w, c, fields, repo);
    lemma_record_steps(w, c, fields, repo);
}

} // verus!
