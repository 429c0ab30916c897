//! What is said of Arch packages.

use crate::arch::{
    aur_version, optional_names, unversioned, with_arch_deps, with_arch_package_triples,
    with_aur_package_triples, with_conflict, with_dependency, with_dependency_entry,
    with_distribution_metadata, with_each_conflict, with_each_dependency_entry,
    with_each_license_name, with_each_provided, with_each_replaced, with_license_name,
    with_maintainer, with_package_core, with_package_details, with_provided, with_relations,
    with_replaced, ArchCollector, AurText, DEPENDENCY,
};
use crate::deps::{contact_of, dependency_of, Dep, Dependency, MAINTAINER};
use crate::ntriples::{
    bnode_label, bnode_literal, bnode_object, bnode_subject, boolean, link, literal, number_if, pkg,
    Fact, Sheet,
};
use crate::number::i64_value;
use crate::pattern::regex_captures;
use crate::reading::{
    group_arch, group_foaf, group_reading, group_writes, in_turn, maybe_literal, maybe_number,
    number_if_any, said, text_if, to_iri, to_text, to_truth, where_so, Term,
};
use crate::spec_file::{NAME, URL, VERSION};
use crate::text::before;
use crate::textmap::{first_value, values_at};
use crate::uris::{
    arch_iri, distro_iri, identity_iri, maintainer_iri, package_iri, release_iri, version_iri, ARCH,
    FOAF, RDF_TYPE,
};
use vstd::prelude::*;

verus! {

/// What is said of the distribution and its release.
pub open spec fn distribution_told(
    first: Seq<Fact>,
    last: Seq<Fact>,
    c: ArchCollector,
) -> bool {
    let dist = distro_iri("arch"@);
    let rel = release_iri("arch"@, "rolling"@);
    let arch = arch_iri("x86_64"@);
    &&& said(last, RDF_TYPE@) == said(first, RDF_TYPE@)
        + seq![to_iri(dist, pkg("Distribution"@))]
        + seq![to_iri(rel, pkg("DistributionRelease"@))]
        + seq![to_iri(arch, pkg("Architecture"@))]
    &&& said(last, pkg("projectName"@)) == said(first, pkg("projectName"@))
        + seq![to_text(dist, "Arch Linux"@)]
    &&& said(last, pkg("releaseCodename"@)) == said(first, pkg("releaseCodename"@))
        + seq![to_text(rel, "rolling"@)]
    &&& said(last, pkg("partOfDistribution"@)) == said(first, pkg("partOfDistribution"@))
        + seq![to_iri(rel, dist)]
    &&& forall|q: Seq<char>|
        q != RDF_TYPE@
            && q != pkg("projectName"@)
            && q != pkg("releaseCodename"@)
            && q != pkg("partOfDistribution"@)
            ==> #[trigger] said(last, q) == said(first, q)
}

proof fn lemma_distribution_in_steps(w: Sheet, c: ArchCollector)
    ensures
        with_distribution_metadata(w, c) == ({
            let dist = distro_iri("arch"@);
            let rel = release_iri("arch"@, "rolling"@);
            let arch = arch_iri("x86_64"@);
            let w = link(w, dist, RDF_TYPE@, pkg("Distribution"@));
            let w = literal(w, dist, pkg("projectName"@), "Arch Linux"@);
            let w = link(w, rel, RDF_TYPE@, pkg("DistributionRelease"@));
            let w = literal(w, rel, pkg("releaseCodename"@), "rolling"@);
            let w = link(w, rel, pkg("partOfDistribution"@), dist);
            let w = link(w, arch, RDF_TYPE@, pkg("Architecture"@));
            w
        }),
{
}

proof fn lemma_distribution_steps(w: Sheet, c: ArchCollector)
    ensures
        distribution_told(w.log, ({
            let dist = distro_iri("arch"@);
            let rel = release_iri("arch"@, "rolling"@);
            let arch = arch_iri("x86_64"@);
            let w = link(w, dist, RDF_TYPE@, pkg("Distribution"@));
            let w = literal(w, dist, pkg("projectName"@), "Arch Linux"@);
            let w = link(w, rel, RDF_TYPE@, pkg("DistributionRelease"@));
            let w = literal(w, rel, pkg("releaseCodename"@), "rolling"@);
            let w = link(w, rel, pkg("partOfDistribution"@), dist);
            let w = link(w, arch, RDF_TYPE@, pkg("Architecture"@));
            w
        }).log, c),
{
    broadcast use group_writes;

    reveal_strlit("projectName");
    reveal_strlit("releaseCodename");
    reveal_strlit("partOfDistribution");
    let dist = distro_iri("arch"@);
    let rel = release_iri("arch"@, "rolling"@);
    let arch = arch_iri("x86_64"@);
    let w1 = link(w, dist, RDF_TYPE@, pkg("Distribution"@));
    let w2 = literal(w1, dist, pkg("projectName"@), "Arch Linux"@);
    let w3 = link(w2, rel, RDF_TYPE@, pkg("DistributionRelease"@));
    let w4 = literal(w3, rel, pkg("releaseCodename"@), "rolling"@);
    let w5 = link(w4, rel, pkg("partOfDistribution"@), dist);
    let w6 = link(w5, arch, RDF_TYPE@, pkg("Architecture"@));
}

/// What [`with_distribution_metadata`] writes says what [`distribution_told`] states.
pub proof fn lemma_distribution_told(
    w: Sheet,
    c: ArchCollector,
)
    ensures
        distribution_told(w.log, with_distribution_metadata(w, c).log, c),
{
    lemma_distribution_in_steps(w, c);
    lemma_distribution_steps(w, c);
}

#[verifier::opaque]
spec fn dependency_step_1(w: Sheet, package: Seq<char>, d: Dep, node: Seq<char>) -> Sheet {
    match d.operator {
        Some(op) => {
            let w = match d.value {
                Some(value) => {
                    let limit = bnode_label("constraint"@, package + "-"@ + d.name);
                    let w = bnode_object(w, node, pkg("hasVersionConstraint"@), limit);
                    let w = bnode_subject(w, limit, RDF_TYPE@, pkg("VersionConstraint"@));
                    let w = bnode_literal(w, limit, pkg("versionConstraintOperator"@), op);
                    bnode_literal(w, limit, pkg("versionConstraintValue"@), value)
                },
                None => w,
            };
            w
        },
        None => w,
    }
}

proof fn lemma_dependency_step_1(w: Sheet, package: Seq<char>, d: Dep, node: Seq<char>)
    ensures
        ({
            let first = w.log;
            let last = dependency_step_1(w, package, d, node).log;
            &&& said(last, pkg("hasVersionConstraint"@)) == said(first, pkg("hasVersionConstraint"@))
                + (
                    match d.operator {
                        Some(op) => (
                            match d.value {
                                Some(value) => seq![
                                    (
                                        Term::Iri(node),
                                        Term::Node(
                                            bnode_label("constraint"@, package + "-"@ + d.name),
                                        ),
                                    ),
                                ],
                                None => Seq::empty(),
                            }
                        ),
                        None => Seq::empty(),
                    }
                )
            &&& said(last, RDF_TYPE@) == said(first, RDF_TYPE@)
                + (
                    match d.operator {
                        Some(op) => (
                            match d.value {
                                Some(value) => seq![
                                    (
                                        Term::Node(
                                            bnode_label("constraint"@, package + "-"@ + d.name),
                                        ),
                                        Term::Iri(pkg("VersionConstraint"@)),
                                    ),
                                ],
                                None => Seq::empty(),
                            }
                        ),
                        None => Seq::empty(),
                    }
                )
            &&& said(last, pkg("versionConstraintOperator"@))
                == said(first, pkg("versionConstraintOperator"@))
                + (
                    match d.operator {
                        Some(op) => (
                            match d.value {
                                Some(value) => seq![
                                    (
                                        Term::Node(
                                            bnode_label("constraint"@, package + "-"@ + d.name),
                                        ),
                                        Term::Text(op),
                                    ),
                                ],
                                None => Seq::empty(),
                            }
                        ),
                        None => Seq::empty(),
                    }
                )
            &&& said(last, pkg("versionConstraintValue"@))
                == said(first, pkg("versionConstraintValue"@))
                + (
                    match d.operator {
                        Some(op) => (
                            match d.value {
                                Some(value) => seq![
                                    (
                                        Term::Node(
                                            bnode_label("constraint"@, package + "-"@ + d.name),
                                        ),
                                        Term::Text(value),
                                    ),
                                ],
                                None => Seq::empty(),
                            }
                        ),
                        None => Seq::empty(),
                    }
                )
            &&& forall|q: Seq<char>|
                q != pkg("hasVersionConstraint"@)
                    && q != RDF_TYPE@
                    && q != pkg("versionConstraintOperator"@)
                    && q != pkg("versionConstraintValue"@)
                    ==> #[trigger] said(last, q) == said(first, q)
        }),
{
    broadcast use group_reading;

    reveal(dependency_step_1);
    reveal_strlit("hasVersionConstraint");
    reveal_strlit("versionConstraintOperator");
    reveal_strlit("versionConstraintValue");
}

/// What is said of a dependency: that the package depends on the identity of what is named,
/// directly and through a node of its own, which has the kind and, where both parts of it
/// are known, the constraint.
pub open spec fn dependency_told(
    first: Seq<Fact>,
    last: Seq<Fact>,
    package: Seq<char>,
    kind: Seq<char>,
    d: Dep,
) -> bool {
    let target = identity_iri("arch"@, "rolling"@, "x86_64"@, d.name);
    let node = bnode_label(kind, package + "-"@ + d.name);
    &&& said(last, pkg("directlyDependsOn"@)) == said(first, pkg("directlyDependsOn"@))
        + seq![to_iri(package, target)]
    &&& said(last, pkg("hasDependency"@)) == said(first, pkg("hasDependency"@))
        + seq![(Term::Iri(package), Term::Node(node))]
    &&& said(last, RDF_TYPE@) == said(first, RDF_TYPE@)
        + seq![(Term::Node(node), Term::Iri(pkg("Dependency"@)))]
        + (
            match d.operator {
                Some(op) => (
                    match d.value {
                        Some(value) => seq![
                            (
                                Term::Node(bnode_label("constraint"@, package + "-"@ + d.name)),
                                Term::Iri(pkg("VersionConstraint"@)),
                            ),
                        ],
                        None => Seq::empty(),
                    }
                ),
                None => Seq::empty(),
            }
        )
    &&& said(last, pkg("dependencyTarget"@)) == said(first, pkg("dependencyTarget"@))
        + seq![(Term::Node(node), Term::Iri(target))]
    &&& said(last, pkg("dependencyType"@)) == said(first, pkg("dependencyType"@))
        + seq![(Term::Node(node), Term::Text(kind))]
    &&& said(last, pkg("hasVersionConstraint"@)) == said(first, pkg("hasVersionConstraint"@))
        + (
            match d.operator {
                Some(op) => (
                    match d.value {
                        Some(value) => seq![
                            (
                                Term::Iri(node),
                                Term::Node(bnode_label("constraint"@, package + "-"@ + d.name)),
                            ),
                        ],
                        None => Seq::empty(),
                    }
                ),
                None => Seq::empty(),
            }
        )
    &&& said(last, pkg("versionConstraintOperator"@)) == said(first, pkg("versionConstraintOperator"@))
        + (
            match d.operator {
                Some(op) => (
                    match d.value {
                        Some(value) => seq![
                            (
                                Term::Node(bnode_label("constraint"@, package + "-"@ + d.name)),
                                Term::Text(op),
                            ),
                        ],
                        None => Seq::empty(),
                    }
                ),
                None => Seq::empty(),
            }
        )
    &&& said(last, pkg("versionConstraintValue"@)) == said(first, pkg("versionConstraintValue"@))
        + (
            match d.operator {
                Some(op) => (
                    match d.value {
                        Some(value) => seq![
                            (
                                Term::Node(bnode_label("constraint"@, package + "-"@ + d.name)),
                                Term::Text(value),
                            ),
                        ],
                        None => Seq::empty(),
                    }
                ),
                None => Seq::empty(),
            }
        )
    &&& forall|q: Seq<char>|
        q != pkg("directlyDependsOn"@)
            && q != pkg("hasDependency"@)
            && q != RDF_TYPE@
            && q != pkg("dependencyTarget"@)
            && q != pkg("dependencyType"@)
            && q != pkg("hasVersionConstraint"@)
            && q != pkg("versionConstraintOperator"@)
            && q != pkg("versionConstraintValue"@)
            ==> #[trigger] said(last, q) == said(first, q)
}

proof fn lemma_dependency_in_steps(w: Sheet, package: Seq<char>, kind: Seq<char>, d: Dep)
    ensures
        with_dependency(w, package, kind, d) == ({
            let target = identity_iri("arch"@, "rolling"@, "x86_64"@, d.name);
            let w = link(w, package, pkg("directlyDependsOn"@), target);
            let node = bnode_label(kind, package + "-"@ + d.name);
            let w = bnode_object(w, package, pkg("hasDependency"@), node);
            let w = bnode_subject(w, node, RDF_TYPE@, pkg("Dependency"@));
            let w = bnode_subject(w, node, pkg("dependencyTarget"@), target);
            let w = bnode_literal(w, node, pkg("dependencyType"@), kind);
            let w = dependency_step_1(w, package, d, node);
            w
        }),
{
    reveal(dependency_step_1);
}

proof fn lemma_dependency_steps(w: Sheet, package: Seq<char>, kind: Seq<char>, d: Dep)
    ensures
        dependency_told(w.log, ({
            let target = identity_iri("arch"@, "rolling"@, "x86_64"@, d.name);
            let w = link(w, package, pkg("directlyDependsOn"@), target);
            let node = bnode_label(kind, package + "-"@ + d.name);
            let w = bnode_object(w, package, pkg("hasDependency"@), node);
            let w = bnode_subject(w, node, RDF_TYPE@, pkg("Dependency"@));
            let w = bnode_subject(w, node, pkg("dependencyTarget"@), target);
            let w = bnode_literal(w, node, pkg("dependencyType"@), kind);
            let w = dependency_step_1(w, package, d, node);
            w
        }).log, package, kind, d),
{
    broadcast use group_writes;

    reveal_strlit("directlyDependsOn");
    reveal_strlit("hasDependency");
    reveal_strlit("dependencyTarget");
    reveal_strlit("dependencyType");
    reveal_strlit("hasVersionConstraint");
    reveal_strlit("versionConstraintOperator");
    reveal_strlit("versionConstraintValue");
    let target = identity_iri("arch"@, "rolling"@, "x86_64"@, d.name);
    let w1 = link(w, package, pkg("directlyDependsOn"@), target);
    let node = bnode_label(kind, package + "-"@ + d.name);
    let w2 = bnode_object(w1, package, pkg("hasDependency"@), node);
    let w3 = bnode_subject(w2, node, RDF_TYPE@, pkg("Dependency"@));
    let w4 = bnode_subject(w3, node, pkg("dependencyTarget"@), target);
    let w5 = bnode_literal(w4, node, pkg("dependencyType"@), kind);
    let w6 = dependency_step_1(w5, package, d, node);
    lemma_dependency_step_1(w5, package, d, node);
}

/// What [`with_dependency`] writes says what [`dependency_told`] states.
pub proof fn lemma_dependency_told(
    w: Sheet,
    package: Seq<char>,
    kind: Seq<char>,
    d: Dep,
)
    ensures
        dependency_told(w.log, with_dependency(w, package, kind, d).log, package, kind, d),
{
    lemma_dependency_in_steps(w, package, kind, d);
    lemma_dependency_steps(w, package, kind, d);
}

proof fn lemma_dependency_entry_told(
    w: Sheet,
    package: Seq<char>,
    kind: Seq<char>,
    entry: Seq<char>,
)
    ensures
        ({
            let first = w.log;
            let last = with_dependency_entry(w, package, kind, entry).log;
            &&& said(last, pkg("directlyDependsOn"@)) == said(first, pkg("directlyDependsOn"@))
                + seq![
                    to_iri(
                        package,
                        identity_iri(
                            "arch"@,
                            "rolling"@,
                            "x86_64"@,
                            dependency_of(regex_captures(DEPENDENCY@, entry), entry).name,
                        ),
                    ),
                ]
            &&& said(last, pkg("hasDependency"@)) == said(first, pkg("hasDependency"@))
                + seq![
                    (
                        Term::Iri(package),
                        Term::Node(
                            bnode_label(
                                kind,
                                package
                                    + "-"@
                                    + dependency_of(regex_captures(DEPENDENCY@, entry), entry).name,
                            ),
                        ),
                    ),
                ]
            &&& said(last, RDF_TYPE@) == said(first, RDF_TYPE@)
                + seq![
                    (
                        Term::Node(
                            bnode_label(
                                kind,
                                package
                                    + "-"@
                                    + dependency_of(regex_captures(DEPENDENCY@, entry), entry).name,
                            ),
                        ),
                        Term::Iri(pkg("Dependency"@)),
                    ),
                ]
                + (
                    match dependency_of(regex_captures(DEPENDENCY@, entry), entry).operator {
                        Some(op) => (
                            match dependency_of(regex_captures(DEPENDENCY@, entry), entry).value {
                                Some(value) => seq![
                                    (
                                        Term::Node(
                                            bnode_label(
                                                "constraint"@,
                                                package
                                                    + "-"@
                                                    + dependency_of(
                                                        regex_captures(DEPENDENCY@, entry),
                                                        entry,
                                                    ).name,
                                            ),
                                        ),
                                        Term::Iri(pkg("VersionConstraint"@)),
                                    ),
                                ],
                                None => Seq::empty(),
                            }
                        ),
                        None => Seq::empty(),
                    }
                )
            &&& said(last, pkg("dependencyTarget"@)) == said(first, pkg("dependencyTarget"@))
                + seq![
                    (
                        Term::Node(
                            bnode_label(
                                kind,
                                package
                                    + "-"@
                                    + dependency_of(regex_captures(DEPENDENCY@, entry), entry).name,
                            ),
                        ),
                        Term::Iri(
                            identity_iri(
                                "arch"@,
                                "rolling"@,
                                "x86_64"@,
                                dependency_of(regex_captures(DEPENDENCY@, entry), entry).name,
                            ),
                        ),
                    ),
                ]
            &&& said(last, pkg("dependencyType"@)) == said(first, pkg("dependencyType"@))
                + seq![
                    (
                        Term::Node(
                            bnode_label(
                                kind,
                                package
                                    + "-"@
                                    + dependency_of(regex_captures(DEPENDENCY@, entry), entry).name,
                            ),
                        ),
                        Term::Text(kind),
                    ),
                ]
            &&& said(last, pkg("hasVersionConstraint"@)) == said(first, pkg("hasVersionConstraint"@))
                + (
                    match dependency_of(regex_captures(DEPENDENCY@, entry), entry).operator {
                        Some(op) => (
                            match dependency_of(regex_captures(DEPENDENCY@, entry), entry).value {
                                Some(value) => seq![
                                    (
                                        Term::Iri(
                                            bnode_label(
                                                kind,
                                                package
                                                    + "-"@
                                                    + dependency_of(
                                                        regex_captures(DEPENDENCY@, entry),
                                                        entry,
                                                    ).name,
                                            ),
                                        ),
                                        Term::Node(
                                            bnode_label(
                                                "constraint"@,
                                                package
                                                    + "-"@
                                                    + dependency_of(
                                                        regex_captures(DEPENDENCY@, entry),
                                                        entry,
                                                    ).name,
                                            ),
                                        ),
                                    ),
                                ],
                                None => Seq::empty(),
                            }
                        ),
                        None => Seq::empty(),
                    }
                )
            &&& said(last, pkg("versionConstraintOperator"@))
                == said(first, pkg("versionConstraintOperator"@))
                + (
                    match dependency_of(regex_captures(DEPENDENCY@, entry), entry).operator {
                        Some(op) => (
                            match dependency_of(regex_captures(DEPENDENCY@, entry), entry).value {
                                Some(value) => seq![
                                    (
                                        Term::Node(
                                            bnode_label(
                                                "constraint"@,
                                                package
                                                    + "-"@
                                                    + dependency_of(
                                                        regex_captures(DEPENDENCY@, entry),
                                                        entry,
                                                    ).name,
                                            ),
                                        ),
                                        Term::Text(op),
                                    ),
                                ],
                                None => Seq::empty(),
                            }
                        ),
                        None => Seq::empty(),
                    }
                )
            &&& said(last, pkg("versionConstraintValue"@))
                == said(first, pkg("versionConstraintValue"@))
                + (
                    match dependency_of(regex_captures(DEPENDENCY@, entry), entry).operator {
                        Some(op) => (
                            match dependency_of(regex_captures(DEPENDENCY@, entry), entry).value {
                                Some(value) => seq![
                                    (
                                        Term::Node(
                                            bnode_label(
                                                "constraint"@,
                                                package
                                                    + "-"@
                                                    + dependency_of(
                                                        regex_captures(DEPENDENCY@, entry),
                                                        entry,
                                                    ).name,
                                            ),
                                        ),
                                        Term::Text(value),
                                    ),
                                ],
                                None => Seq::empty(),
                            }
                        ),
                        None => Seq::empty(),
                    }
                )
            &&& forall|q: Seq<char>|
                q != pkg("directlyDependsOn"@)
                    && q != pkg("hasDependency"@)
                    && q != RDF_TYPE@
                    && q != pkg("dependencyTarget"@)
                    && q != pkg("dependencyType"@)
                    && q != pkg("hasVersionConstraint"@)
                    && q != pkg("versionConstraintOperator"@)
                    && q != pkg("versionConstraintValue"@)
                    ==> #[trigger] said(last, q) == said(first, q)
        }),
{
    broadcast use group_reading;

    reveal_strlit("directlyDependsOn");
    reveal_strlit("hasDependency");
    reveal_strlit("dependencyTarget");
    reveal_strlit("dependencyType");
    reveal_strlit("hasVersionConstraint");
    reveal_strlit("versionConstraintOperator");
    reveal_strlit("versionConstraintValue");
    lemma_dependency_told(
        w,
        package,
        kind,
        dependency_of(regex_captures(DEPENDENCY@, entry), entry),
    );
}

proof fn lemma_dependency_entries_told(
    w: Sheet,
    package: Seq<char>,
    kind: Seq<char>,
    items: Seq<Seq<char>>,
    n: nat,
)
    ensures
        ({
            let first = w.log;
            let last = with_each_dependency_entry(w, package, kind, items, n).log;
            &&& said(last, pkg("directlyDependsOn"@)) == said(first, pkg("directlyDependsOn"@))
                + in_turn(
                    |k: int|
                        seq![
                            to_iri(
                                package,
                                identity_iri(
                                    "arch"@,
                                    "rolling"@,
                                    "x86_64"@,
                                    dependency_of(
                                        regex_captures(DEPENDENCY@, (items[k])),
                                        (items[k]),
                                    ).name,
                                ),
                            ),
                        ],
                    n,
                )
            &&& said(last, pkg("hasDependency"@)) == said(first, pkg("hasDependency"@))
                + in_turn(
                    |k: int|
                        seq![
                            (
                                Term::Iri(package),
                                Term::Node(
                                    bnode_label(
                                        kind,
                                        package
                                            + "-"@
                                            + dependency_of(
                                                regex_captures(DEPENDENCY@, (items[k])),
                                                (items[k]),
                                            ).name,
                                    ),
                                ),
                            ),
                        ],
                    n,
                )
            &&& said(last, RDF_TYPE@) == said(first, RDF_TYPE@)
                + in_turn(
                    |k: int|
                        seq![
                            (
                                Term::Node(
                                    bnode_label(
                                        kind,
                                        package
                                            + "-"@
                                            + dependency_of(
                                                regex_captures(DEPENDENCY@, (items[k])),
                                                (items[k]),
                                            ).name,
                                    ),
                                ),
                                Term::Iri(pkg("Dependency"@)),
                            ),
                        ]
                            + (
                                match dependency_of(regex_captures(DEPENDENCY@, (items[k])), (items[k])).operator {
                                    Some(op) => (
                                        match dependency_of(regex_captures(DEPENDENCY@, (items[k])), (items[k])).value {
                                            Some(value) => seq![
                                                (
                                                    Term::Node(
                                                        bnode_label(
                                                            "constraint"@,
                                                            package
                                                                + "-"@
                                                                + dependency_of(
                                                                    regex_captures(
                                                                        DEPENDENCY@,
                                                                        (items[k]),
                                                                    ),
                                                                    (items[k]),
                                                                ).name,
                                                        ),
                                                    ),
                                                    Term::Iri(pkg("VersionConstraint"@)),
                                                ),
                                            ],
                                            None => Seq::empty(),
                                        }
                                    ),
                                    None => Seq::empty(),
                                }
                            ),
                    n,
                )
            &&& said(last, pkg("dependencyTarget"@)) == said(first, pkg("dependencyTarget"@))
                + in_turn(
                    |k: int|
                        seq![
                            (
                                Term::Node(
                                    bnode_label(
                                        kind,
                                        package
                                            + "-"@
                                            + dependency_of(
                                                regex_captures(DEPENDENCY@, (items[k])),
                                                (items[k]),
                                            ).name,
                                    ),
                                ),
                                Term::Iri(
                                    identity_iri(
                                        "arch"@,
                                        "rolling"@,
                                        "x86_64"@,
                                        dependency_of(
                                            regex_captures(DEPENDENCY@, (items[k])),
                                            (items[k]),
                                        ).name,
                                    ),
                                ),
                            ),
                        ],
                    n,
                )
            &&& said(last, pkg("dependencyType"@)) == said(first, pkg("dependencyType"@))
                + in_turn(
                    |k: int|
                        seq![
                            (
                                Term::Node(
                                    bnode_label(
                                        kind,
                                        package
                                            + "-"@
                                            + dependency_of(
                                                regex_captures(DEPENDENCY@, (items[k])),
                                                (items[k]),
                                            ).name,
                                    ),
                                ),
                                Term::Text(kind),
                            ),
                        ],
                    n,
                )
            &&& said(last, pkg("hasVersionConstraint"@)) == said(first, pkg("hasVersionConstraint"@))
                + in_turn(
                    |k: int|
                        (
                            match dependency_of(regex_captures(DEPENDENCY@, (items[k])), (items[k])).operator {
                                Some(op) => (
                                    match dependency_of(regex_captures(DEPENDENCY@, (items[k])), (items[k])).value {
                                        Some(value) => seq![
                                            (
                                                Term::Iri(
                                                    bnode_label(
                                                        kind,
                                                        package
                                                            + "-"@
                                                            + dependency_of(
                                                                regex_captures(
                                                                    DEPENDENCY@,
                                                                    (items[k]),
                                                                ),
                                                                (items[k]),
                                                            ).name,
                                                    ),
                                                ),
                                                Term::Node(
                                                    bnode_label(
                                                        "constraint"@,
                                                        package
                                                            + "-"@
                                                            + dependency_of(
                                                                regex_captures(
                                                                    DEPENDENCY@,
                                                                    (items[k]),
                                                                ),
                                                                (items[k]),
                                                            ).name,
                                                    ),
                                                ),
                                            ),
                                        ],
                                        None => Seq::empty(),
                                    }
                                ),
                                None => Seq::empty(),
                            }
                        ),
                    n,
                )
            &&& said(last, pkg("versionConstraintOperator"@))
                == said(first, pkg("versionConstraintOperator"@))
                + in_turn(
                    |k: int|
                        (
                            match dependency_of(regex_captures(DEPENDENCY@, (items[k])), (items[k])).operator {
                                Some(op) => (
                                    match dependency_of(regex_captures(DEPENDENCY@, (items[k])), (items[k])).value {
                                        Some(value) => seq![
                                            (
                                                Term::Node(
                                                    bnode_label(
                                                        "constraint"@,
                                                        package
                                                            + "-"@
                                                            + dependency_of(
                                                                regex_captures(
                                                                    DEPENDENCY@,
                                                                    (items[k]),
                                                                ),
                                                                (items[k]),
                                                            ).name,
                                                    ),
                                                ),
                                                Term::Text(op),
                                            ),
                                        ],
                                        None => Seq::empty(),
                                    }
                                ),
                                None => Seq::empty(),
                            }
                        ),
                    n,
                )
            &&& said(last, pkg("versionConstraintValue"@))
                == said(first, pkg("versionConstraintValue"@))
                + in_turn(
                    |k: int|
                        (
                            match dependency_of(regex_captures(DEPENDENCY@, (items[k])), (items[k])).operator {
                                Some(op) => (
                                    match dependency_of(regex_captures(DEPENDENCY@, (items[k])), (items[k])).value {
                                        Some(value) => seq![
                                            (
                                                Term::Node(
                                                    bnode_label(
                                                        "constraint"@,
                                                        package
                                                            + "-"@
                                                            + dependency_of(
                                                                regex_captures(
                                                                    DEPENDENCY@,
                                                                    (items[k]),
                                                                ),
                                                                (items[k]),
                                                            ).name,
                                                    ),
                                                ),
                                                Term::Text(value),
                                            ),
                                        ],
                                        None => Seq::empty(),
                                    }
                                ),
                                None => Seq::empty(),
                            }
                        ),
                    n,
                )
            &&& forall|q: Seq<char>|
                q != pkg("directlyDependsOn"@)
                    && q != pkg("hasDependency"@)
                    && q != RDF_TYPE@
                    && q != pkg("dependencyTarget"@)
                    && q != pkg("dependencyType"@)
                    && q != pkg("hasVersionConstraint"@)
                    && q != pkg("versionConstraintOperator"@)
                    && q != pkg("versionConstraintValue"@)
                    ==> #[trigger] said(last, q) == said(first, q)
        }),
    decreases n,
{
    broadcast use group_writes;

    reveal_strlit("directlyDependsOn");
    reveal_strlit("hasDependency");
    reveal_strlit("dependencyTarget");
    reveal_strlit("dependencyType");
    reveal_strlit("hasVersionConstraint");
    reveal_strlit("versionConstraintOperator");
    reveal_strlit("versionConstraintValue");
    if n > 0 {
        lemma_dependency_entries_told(w, package, kind, items, (n - 1) as nat);
        lemma_dependency_entry_told(
            with_each_dependency_entry(w, package, kind, items, (n - 1) as nat),
            package,
            kind,
            items[n - 1],
        );
    }
}

proof fn lemma_arch_deps_told(
    w: Sheet,
    c: ArchCollector,
    package: Seq<char>,
    deps: Seq<Seq<char>>,
    kind: Seq<char>,
)
    ensures
        ({
            let first = w.log;
            let last = with_arch_deps(w, c, package, deps, kind).log;
            &&& said(last, pkg("directlyDependsOn"@)) == said(first, pkg("directlyDependsOn"@))
                + in_turn(
                    |k: int|
                        seq![
                            to_iri(
                                package,
                                identity_iri(
                                    "arch"@,
                                    "rolling"@,
                                    "x86_64"@,
                                    dependency_of(
                                        regex_captures(DEPENDENCY@, (deps[k])),
                                        (deps[k]),
                                    ).name,
                                ),
                            ),
                        ],
                    (deps.len()),
                )
            &&& said(last, pkg("hasDependency"@)) == said(first, pkg("hasDependency"@))
                + in_turn(
                    |k: int|
                        seq![
                            (
                                Term::Iri(package),
                                Term::Node(
                                    bnode_label(
                                        kind,
                                        package
                                            + "-"@
                                            + dependency_of(
                                                regex_captures(DEPENDENCY@, (deps[k])),
                                                (deps[k]),
                                            ).name,
                                    ),
                                ),
                            ),
                        ],
                    (deps.len()),
                )
            &&& said(last, RDF_TYPE@) == said(first, RDF_TYPE@)
                + in_turn(
                    |k: int|
                        seq![
                            (
                                Term::Node(
                                    bnode_label(
                                        kind,
                                        package
                                            + "-"@
                                            + dependency_of(
                                                regex_captures(DEPENDENCY@, (deps[k])),
                                                (deps[k]),
                                            ).name,
                                    ),
                                ),
                                Term::Iri(pkg("Dependency"@)),
                            ),
                        ]
                            + (
                                match dependency_of(regex_captures(DEPENDENCY@, (deps[k])), (deps[k])).operator {
                                    Some(op) => (
                                        match dependency_of(regex_captures(DEPENDENCY@, (deps[k])), (deps[k])).value {
                                            Some(value) => seq![
                                                (
                                                    Term::Node(
                                                        bnode_label(
                                                            "constraint"@,
                                                            package
                                                                + "-"@
                                                                + dependency_of(
                                                                    regex_captures(
                                                                        DEPENDENCY@,
                                                                        (deps[k]),
                                                                    ),
                                                                    (deps[k]),
                                                                ).name,
                                                        ),
                                                    ),
                                                    Term::Iri(pkg("VersionConstraint"@)),
                                                ),
                                            ],
                                            None => Seq::empty(),
                                        }
                                    ),
                                    None => Seq::empty(),
                                }
                            ),
                    (deps.len()),
                )
            &&& said(last, pkg("dependencyTarget"@)) == said(first, pkg("dependencyTarget"@))
                + in_turn(
                    |k: int|
                        seq![
                            (
                                Term::Node(
                                    bnode_label(
                                        kind,
                                        package
                                            + "-"@
                                            + dependency_of(
                                                regex_captures(DEPENDENCY@, (deps[k])),
                                                (deps[k]),
                                            ).name,
                                    ),
                                ),
                                Term::Iri(
                                    identity_iri(
                                        "arch"@,
                                        "rolling"@,
                                        "x86_64"@,
                                        dependency_of(
                                            regex_captures(DEPENDENCY@, (deps[k])),
                                            (deps[k]),
                                        ).name,
                                    ),
                                ),
                            ),
                        ],
                    (deps.len()),
                )
            &&& said(last, pkg("dependencyType"@)) == said(first, pkg("dependencyType"@))
                + in_turn(
                    |k: int|
                        seq![
                            (
                                Term::Node(
                                    bnode_label(
                                        kind,
                                        package
                                            + "-"@
                                            + dependency_of(
                                                regex_captures(DEPENDENCY@, (deps[k])),
                                                (deps[k]),
                                            ).name,
                                    ),
                                ),
                                Term::Text(kind),
                            ),
                        ],
                    (deps.len()),
                )
            &&& said(last, pkg("hasVersionConstraint"@)) == said(first, pkg("hasVersionConstraint"@))
                + in_turn(
                    |k: int|
                        (
                            match dependency_of(regex_captures(DEPENDENCY@, (deps[k])), (deps[k])).operator {
                                Some(op) => (
                                    match dependency_of(regex_captures(DEPENDENCY@, (deps[k])), (deps[k])).value {
                                        Some(value) => seq![
                                            (
                                                Term::Iri(
                                                    bnode_label(
                                                        kind,
                                                        package
                                                            + "-"@
                                                            + dependency_of(
                                                                regex_captures(
                                                                    DEPENDENCY@,
                                                                    (deps[k]),
                                                                ),
                                                                (deps[k]),
                                                            ).name,
                                                    ),
                                                ),
                                                Term::Node(
                                                    bnode_label(
                                                        "constraint"@,
                                                        package
                                                            + "-"@
                                                            + dependency_of(
                                                                regex_captures(
                                                                    DEPENDENCY@,
                                                                    (deps[k]),
                                                                ),
                                                                (deps[k]),
                                                            ).name,
                                                    ),
                                                ),
                                            ),
                                        ],
                                        None => Seq::empty(),
                                    }
                                ),
                                None => Seq::empty(),
                            }
                        ),
                    (deps.len()),
                )
            &&& said(last, pkg("versionConstraintOperator"@))
                == said(first, pkg("versionConstraintOperator"@))
                + in_turn(
                    |k: int|
                        (
                            match dependency_of(regex_captures(DEPENDENCY@, (deps[k])), (deps[k])).operator {
                                Some(op) => (
                                    match dependency_of(regex_captures(DEPENDENCY@, (deps[k])), (deps[k])).value {
                                        Some(value) => seq![
                                            (
                                                Term::Node(
                                                    bnode_label(
                                                        "constraint"@,
                                                        package
                                                            + "-"@
                                                            + dependency_of(
                                                                regex_captures(
                                                                    DEPENDENCY@,
                                                                    (deps[k]),
                                                                ),
                                                                (deps[k]),
                                                            ).name,
                                                    ),
                                                ),
                                                Term::Text(op),
                                            ),
                                        ],
                                        None => Seq::empty(),
                                    }
                                ),
                                None => Seq::empty(),
                            }
                        ),
                    (deps.len()),
                )
            &&& said(last, pkg("versionConstraintValue"@))
                == said(first, pkg("versionConstraintValue"@))
                + in_turn(
                    |k: int|
                        (
                            match dependency_of(regex_captures(DEPENDENCY@, (deps[k])), (deps[k])).operator {
                                Some(op) => (
                                    match dependency_of(regex_captures(DEPENDENCY@, (deps[k])), (deps[k])).value {
                                        Some(value) => seq![
                                            (
                                                Term::Node(
                                                    bnode_label(
                                                        "constraint"@,
                                                        package
                                                            + "-"@
                                                            + dependency_of(
                                                                regex_captures(
                                                                    DEPENDENCY@,
                                                                    (deps[k]),
                                                                ),
                                                                (deps[k]),
                                                            ).name,
                                                    ),
                                                ),
                                                Term::Text(value),
                                            ),
                                        ],
                                        None => Seq::empty(),
                                    }
                                ),
                                None => Seq::empty(),
                            }
                        ),
                    (deps.len()),
                )
            &&& forall|q: Seq<char>|
                q != pkg("directlyDependsOn"@)
                    && q != pkg("hasDependency"@)
                    && q != RDF_TYPE@
                    && q != pkg("dependencyTarget"@)
                    && q != pkg("dependencyType"@)
                    && q != pkg("hasVersionConstraint"@)
                    && q != pkg("versionConstraintOperator"@)
                    && q != pkg("versionConstraintValue"@)
                    ==> #[trigger] said(last, q) == said(first, q)
        }),
{
    broadcast use group_reading;

    reveal_strlit("directlyDependsOn");
    reveal_strlit("hasDependency");
    reveal_strlit("dependencyTarget");
    reveal_strlit("dependencyType");
    reveal_strlit("hasVersionConstraint");
    reveal_strlit("versionConstraintOperator");
    reveal_strlit("versionConstraintValue");
    lemma_dependency_entries_told(w, package, kind, deps, deps.len());
}

/// What is said of who maintains a package.
pub open spec fn maintainer_told(
    first: Seq<Fact>,
    last: Seq<Fact>,
    package: Seq<char>,
    name: Seq<char>,
    email: Seq<char>,
) -> bool {
    let person = maintainer_iri(email);
    &&& said(last, RDF_TYPE@) == said(first, RDF_TYPE@) + seq![to_iri(person, pkg("Maintainer"@))]
    &&& said(last, FOAF@ + "name"@) == said(first, FOAF@ + "name"@) + seq![to_text(person, name)]
    &&& said(last, pkg("maintainedBy"@)) == said(first, pkg("maintainedBy"@))
        + seq![to_iri(package, person)]
    &&& forall|q: Seq<char>|
        q != RDF_TYPE@ && q != FOAF@ + "name"@ && q != pkg("maintainedBy"@)
            ==> #[trigger] said(last, q) == said(first, q)
}

proof fn lemma_maintainer_in_steps(w: Sheet, package: Seq<char>, name: Seq<char>, email: Seq<char>)
    ensures
        with_maintainer(w, package, name, email) == ({
            let person = maintainer_iri(email);
            let w = link(w, person, RDF_TYPE@, pkg("Maintainer"@));
            let w = literal(w, person, FOAF@ + "name"@, name);
            let w = link(w, package, pkg("maintainedBy"@), person);
            w
        }),
{
}

proof fn lemma_maintainer_steps(w: Sheet, package: Seq<char>, name: Seq<char>, email: Seq<char>)
    ensures
        maintainer_told(w.log, ({
            let person = maintainer_iri(email);
            let w = link(w, person, RDF_TYPE@, pkg("Maintainer"@));
            let w = literal(w, person, FOAF@ + "name"@, name);
            let w = link(w, package, pkg("maintainedBy"@), person);
            w
        }).log, package, name, email),
{
    broadcast use {group_writes, group_foaf};

    reveal_strlit("name");
    reveal_strlit("maintainedBy");
    let person = maintainer_iri(email);
    let w1 = link(w, person, RDF_TYPE@, pkg("Maintainer"@));
    let w2 = literal(w1, person, FOAF@ + "name"@, name);
    let w3 = link(w2, package, pkg("maintainedBy"@), person);
}

/// What [`with_maintainer`] writes says what [`maintainer_told`] states.
pub proof fn lemma_maintainer_told(
    w: Sheet,
    package: Seq<char>,
    name: Seq<char>,
    email: Seq<char>,
)
    ensures
        maintainer_told(w.log, with_maintainer(w, package, name, email).log, package, name, email),
{
    lemma_maintainer_in_steps(w, package, name, email);
    lemma_maintainer_steps(w, package, name, email);
}

proof fn lemma_license_name_told(w: Sheet, package: Seq<char>, license: Seq<char>)
    ensures
        ({
            let first = w.log;
            let last = with_license_name(w, package, license).log;
            &&& said(last, pkg("licenseName"@)) == said(first, pkg("licenseName"@))
                + seq![to_text(package, license)]
            &&& forall|q: Seq<char>|
                q != pkg("licenseName"@) ==> #[trigger] said(last, q) == said(first, q)
        }),
{
    broadcast use group_reading;

    reveal_strlit("licenseName");
}

proof fn lemma_each_license_name_told(w: Sheet, package: Seq<char>, items: Seq<Seq<char>>, n: nat)
    ensures
        ({
            let first = w.log;
            let last = with_each_license_name(w, package, items, n).log;
            &&& said(last, pkg("licenseName"@)) == said(first, pkg("licenseName"@))
                + in_turn(|k: int| seq![to_text(package, (items[k]))], n)
            &&& forall|q: Seq<char>|
                q != pkg("licenseName"@) ==> #[trigger] said(last, q) == said(first, q)
        }),
    decreases n,
{
    broadcast use group_writes;

    reveal_strlit("licenseName");
    if n > 0 {
        lemma_each_license_name_told(w, package, items, (n - 1) as nat);
        lemma_license_name_told(
            with_each_license_name(w, package, items, (n - 1) as nat),
            package,
            items[n - 1],
        );
    }
}

proof fn lemma_conflict_told(w: Sheet, package: Seq<char>, entry: Seq<char>)
    ensures
        ({
            let first = w.log;
            let last = with_conflict(w, package, entry).log;
            let name = unversioned(entry);
            &&& said(last, pkg("conflicts"@)) == said(first, pkg("conflicts"@))
                + seq![to_text(package, name)]
            &&& forall|q: Seq<char>|
                q != pkg("conflicts"@) ==> #[trigger] said(last, q) == said(first, q)
        }),
{
    broadcast use group_reading;

    reveal_strlit("conflicts");
    let name = unversioned(entry);
}

proof fn lemma_each_conflict_told(w: Sheet, package: Seq<char>, items: Seq<Seq<char>>, n: nat)
    ensures
        ({
            let first = w.log;
            let last = with_each_conflict(w, package, items, n).log;
            &&& said(last, pkg("conflicts"@)) == said(first, pkg("conflicts"@))
                + in_turn(|k: int| seq![to_text(package, unversioned((items[k])))], n)
            &&& forall|q: Seq<char>|
                q != pkg("conflicts"@) ==> #[trigger] said(last, q) == said(first, q)
        }),
    decreases n,
{
    broadcast use group_writes;

    reveal_strlit("conflicts");
    if n > 0 {
        lemma_each_conflict_told(w, package, items, (n - 1) as nat);
        lemma_conflict_told(
            with_each_conflict(w, package, items, (n - 1) as nat),
            package,
            items[n - 1],
        );
    }
}

proof fn lemma_replaced_told(w: Sheet, package: Seq<char>, entry: Seq<char>)
    ensures
        ({
            let first = w.log;
            let last = with_replaced(w, package, entry).log;
            &&& said(last, pkg("replaces"@)) == said(first, pkg("replaces"@))
                + seq![to_text(package, entry)]
            &&& forall|q: Seq<char>|
                q != pkg("replaces"@) ==> #[trigger] said(last, q) == said(first, q)
        }),
{
    broadcast use group_reading;

    reveal_strlit("replaces");
}

proof fn lemma_each_replaced_told(w: Sheet, package: Seq<char>, items: Seq<Seq<char>>, n: nat)
    ensures
        ({
            let first = w.log;
            let last = with_each_replaced(w, package, items, n).log;
            &&& said(last, pkg("replaces"@)) == said(first, pkg("replaces"@))
                + in_turn(|k: int| seq![to_text(package, (items[k]))], n)
            &&& forall|q: Seq<char>|
                q != pkg("replaces"@) ==> #[trigger] said(last, q) == said(first, q)
        }),
    decreases n,
{
    broadcast use group_writes;

    reveal_strlit("replaces");
    if n > 0 {
        lemma_each_replaced_told(w, package, items, (n - 1) as nat);
        lemma_replaced_told(
            with_each_replaced(w, package, items, (n - 1) as nat),
            package,
            items[n - 1],
        );
    }
}

proof fn lemma_provided_told(w: Sheet, package: Seq<char>, entry: Seq<char>)
    ensures
        ({
            let first = w.log;
            let last = with_provided(w, package, entry).log;
            &&& said(last, pkg("provides"@)) == said(first, pkg("provides"@))
                + seq![to_text(package, before(entry, "="@))]
            &&& forall|q: Seq<char>|
                q != pkg("provides"@) ==> #[trigger] said(last, q) == said(first, q)
        }),
{
    broadcast use group_reading;

    reveal_strlit("provides");
}

proof fn lemma_each_provided_told(w: Sheet, package: Seq<char>, items: Seq<Seq<char>>, n: nat)
    ensures
        ({
            let first = w.log;
            let last = with_each_provided(w, package, items, n).log;
            &&& said(last, pkg("provides"@)) == said(first, pkg("provides"@))
                + in_turn(|k: int| seq![to_text(package, before((items[k]), "="@))], n)
            &&& forall|q: Seq<char>|
                q != pkg("provides"@) ==> #[trigger] said(last, q) == said(first, q)
        }),
    decreases n,
{
    broadcast use group_writes;

    reveal_strlit("provides");
    if n > 0 {
        lemma_each_provided_told(w, package, items, (n - 1) as nat);
        lemma_provided_told(
            with_each_provided(w, package, items, (n - 1) as nat),
            package,
            items[n - 1],
        );
    }
}

#[verifier::opaque]
spec fn package_details_step_1(
    w: Sheet,
    fields: Map<Seq<char>, Seq<Seq<char>>>,
    package: Seq<char>,
) -> Sheet {
    match first_value(fields, "%ISIZE%"@) {
        Some(x) => { number_if(w, package, pkg("installSize"@), i64_value(x)) },
        None => w,
    }
}

proof fn lemma_package_details_step_1(
    w: Sheet,
    fields: Map<Seq<char>, Seq<Seq<char>>>,
    package: Seq<char>,
)
    ensures
        ({
            let first = w.log;
            let last = package_details_step_1(w, fields, package).log;
            &&& said(last, pkg("installSize"@)) == said(first, pkg("installSize"@))
                + (
                    match first_value(fields, "%ISIZE%"@) {
                        Some(x) => number_if_any(package, i64_value(x)),
                        None => Seq::empty(),
                    }
                )
            &&& forall|q: Seq<char>|
                q != pkg("installSize"@) ==> #[trigger] said(last, q) == said(first, q)
        }),
{
    broadcast use group_reading;

    reveal(package_details_step_1);
    reveal_strlit("installSize");
}

#[verifier::opaque]
spec fn package_details_step_2(
    w: Sheet,
    fields: Map<Seq<char>, Seq<Seq<char>>>,
    package: Seq<char>,
) -> Sheet {
    match first_value(fields, "%CSIZE%"@) {
        Some(x) => { number_if(w, package, pkg("packageSize"@), i64_value(x)) },
        None => w,
    }
}

proof fn lemma_package_details_step_2(
    w: Sheet,
    fields: Map<Seq<char>, Seq<Seq<char>>>,
    package: Seq<char>,
)
    ensures
        ({
            let first = w.log;
            let last = package_details_step_2(w, fields, package).log;
            &&& said(last, pkg("packageSize"@)) == said(first, pkg("packageSize"@))
                + (
                    match first_value(fields, "%CSIZE%"@) {
                        Some(x) => number_if_any(package, i64_value(x)),
                        None => Seq::empty(),
                    }
                )
            &&& forall|q: Seq<char>|
                q != pkg("packageSize"@) ==> #[trigger] said(last, q) == said(first, q)
        }),
{
    broadcast use group_reading;

    reveal(package_details_step_2);
    reveal_strlit("packageSize");
}

#[verifier::opaque]
spec fn package_details_step_3(
    w: Sheet,
    fields: Map<Seq<char>, Seq<Seq<char>>>,
    package: Seq<char>,
) -> Sheet {
    match first_value(fields, "%PACKAGER%"@) {
        Some(x) => {
            let w = match contact_of(regex_captures(MAINTAINER@, x)) {
                Some(who) => { with_maintainer(w, package, who.name, who.email) },
                None => w,
            };
            w
        },
        None => w,
    }
}

proof fn lemma_package_details_step_3(
    w: Sheet,
    fields: Map<Seq<char>, Seq<Seq<char>>>,
    package: Seq<char>,
)
    ensures
        ({
            let first = w.log;
            let last = package_details_step_3(w, fields, package).log;
            &&& said(last, RDF_TYPE@) == said(first, RDF_TYPE@)
                + (
                    match first_value(fields, "%PACKAGER%"@) {
                        Some(x) => (
                            match contact_of(regex_captures(MAINTAINER@, x)) {
                                Some(who) => seq![
                                    to_iri(maintainer_iri(who.email), pkg("Maintainer"@)),
                                ],
                                None => Seq::empty(),
                            }
                        ),
                        None => Seq::empty(),
                    }
                )
            &&& said(last, FOAF@ + "name"@) == said(first, FOAF@ + "name"@)
                + (
                    match first_value(fields, "%PACKAGER%"@) {
                        Some(x) => (
                            match contact_of(regex_captures(MAINTAINER@, x)) {
                                Some(who) => seq![to_text(maintainer_iri(who.email), who.name)],
                                None => Seq::empty(),
                            }
                        ),
                        None => Seq::empty(),
                    }
                )
            &&& said(last, pkg("maintainedBy"@)) == said(first, pkg("maintainedBy"@))
                + (
                    match first_value(fields, "%PACKAGER%"@) {
                        Some(x) => (
                            match contact_of(regex_captures(MAINTAINER@, x)) {
                                Some(who) => seq![to_iri(package, maintainer_iri(who.email))],
                                None => Seq::empty(),
                            }
                        ),
                        None => Seq::empty(),
                    }
                )
            &&& forall|q: Seq<char>|
                q != RDF_TYPE@ && q != FOAF@ + "name"@ && q != pkg("maintainedBy"@)
                    ==> #[trigger] said(last, q) == said(first, q)
        }),
{
    broadcast use {group_reading, group_foaf};

    reveal(package_details_step_3);
    reveal_strlit("name");
    reveal_strlit("maintainedBy");
    match first_value(fields, "%PACKAGER%"@) {
        Some(x) => {
            match contact_of(regex_captures(MAINTAINER@, x)) {
                Some(who) => {
                    lemma_maintainer_told(w, package, who.name, who.email);
                },
                None => {
                },
            }
        },
        None => {
        },
    }
}

/// What is said of the sizes, the checksum, the date and the packager of a package.
pub open spec fn package_details_told(
    first: Seq<Fact>,
    last: Seq<Fact>,
    fields: Map<Seq<char>, Seq<Seq<char>>>,
    package: Seq<char>,
) -> bool {
    &&& said(last, pkg("installSize"@)) == said(first, pkg("installSize"@))
        + (
            match first_value(fields, "%ISIZE%"@) {
                Some(x) => number_if_any(package, i64_value(x)),
                None => Seq::empty(),
            }
        )
    &&& said(last, pkg("packageSize"@)) == said(first, pkg("packageSize"@))
        + (
            match first_value(fields, "%CSIZE%"@) {
                Some(x) => number_if_any(package, i64_value(x)),
                None => Seq::empty(),
            }
        )
    &&& said(last, pkg("checksum"@)) == said(first, pkg("checksum"@))
        + text_if(package, first_value(fields, "%SHA256SUM%"@))
    &&& said(last, ARCH@ + "lastModified"@) == said(first, ARCH@ + "lastModified"@)
        + text_if(package, first_value(fields, "%BUILDDATE%"@))
    &&& said(last, RDF_TYPE@) == said(first, RDF_TYPE@)
        + (
            match first_value(fields, "%PACKAGER%"@) {
                Some(x) => (
                    match contact_of(regex_captures(MAINTAINER@, x)) {
                        Some(who) => seq![to_iri(maintainer_iri(who.email), pkg("Maintainer"@))],
                        None => Seq::empty(),
                    }
                ),
                None => Seq::empty(),
            }
        )
    &&& said(last, FOAF@ + "name"@) == said(first, FOAF@ + "name"@)
        + (
            match first_value(fields, "%PACKAGER%"@) {
                Some(x) => (
                    match contact_of(regex_captures(MAINTAINER@, x)) {
                        Some(who) => seq![to_text(maintainer_iri(who.email), who.name)],
                        None => Seq::empty(),
                    }
                ),
                None => Seq::empty(),
            }
        )
    &&& said(last, pkg("maintainedBy"@)) == said(first, pkg("maintainedBy"@))
        + (
            match first_value(fields, "%PACKAGER%"@) {
                Some(x) => (
                    match contact_of(regex_captures(MAINTAINER@, x)) {
                        Some(who) => seq![to_iri(package, maintainer_iri(who.email))],
                        None => Seq::empty(),
                    }
                ),
                None => Seq::empty(),
            }
        )
    &&& forall|q: Seq<char>|
        q != pkg("installSize"@)
            && q != pkg("packageSize"@)
            && q != pkg("checksum"@)
            && q != ARCH@ + "lastModified"@
            && q != RDF_TYPE@
            && q != FOAF@ + "name"@
            && q != pkg("maintainedBy"@)
            ==> #[trigger] said(last, q) == said(first, q)
}

proof fn lemma_package_details_in_steps(
    w: Sheet,
    fields: Map<Seq<char>, Seq<Seq<char>>>,
    package: Seq<char>,
)
    ensures
        with_package_details(w, fields, package) == ({
            let w = package_details_step_1(w, fields, package);
            let w = package_details_step_2(w, fields, package);
            let w = maybe_literal(w, package, pkg("checksum"@), first_value(fields, "%SHA256SUM%"@));
            let w = maybe_literal(
                w,
                package,
                ARCH@ + "lastModified"@,
                first_value(fields, "%BUILDDATE%"@),
            );
            let w = package_details_step_3(w, fields, package);
            w
        }),
{
    reveal(maybe_literal);
    reveal(package_details_step_1);
    reveal(package_details_step_2);
    reveal(package_details_step_3);
}

proof fn lemma_package_details_steps(
    w: Sheet,
    fields: Map<Seq<char>, Seq<Seq<char>>>,
    package: Seq<char>,
)
    ensures
        package_details_told(w.log, ({
            let w = package_details_step_1(w, fields, package);
            let w = package_details_step_2(w, fields, package);
            let w = maybe_literal(w, package, pkg("checksum"@), first_value(fields, "%SHA256SUM%"@));
            let w = maybe_literal(
                w,
                package,
                ARCH@ + "lastModified"@,
                first_value(fields, "%BUILDDATE%"@),
            );
            let w = package_details_step_3(w, fields, package);
            w
        }).log, fields, package),
{
    broadcast use {group_writes, group_arch, group_foaf};

    reveal_strlit("installSize");
    reveal_strlit("packageSize");
    reveal_strlit("checksum");
    reveal_strlit("lastModified");
    reveal_strlit("name");
    reveal_strlit("maintainedBy");
    let w1 = package_details_step_1(w, fields, package);
    lemma_package_details_step_1(w, fields, package);
    let w2 = package_details_step_2(w1, fields, package);
    lemma_package_details_step_2(w1, fields, package);
    let w3 = maybe_literal(w2, package, pkg("checksum"@), first_value(fields, "%SHA256SUM%"@));
    let w4 = maybe_literal(
        w3,
        package,
        ARCH@ + "lastModified"@,
        first_value(fields, "%BUILDDATE%"@),
    );
    let w5 = package_details_step_3(w4, fields, package);
    lemma_package_details_step_3(w4, fields, package);
}

/// What [`with_package_details`] writes says what [`package_details_told`] states.
pub proof fn lemma_package_details_told(
    w: Sheet,
    fields: Map<Seq<char>, Seq<Seq<char>>>,
    package: Seq<char>,
)
    ensures
        package_details_told(w.log, with_package_details(w, fields, package).log, fields, package),
{
    lemma_package_details_in_steps(w, fields, package);
    lemma_package_details_steps(w, fields, package);
}

#[verifier::opaque]
spec fn package_core_step_1(
    w: Sheet,
    fields: Map<Seq<char>, Seq<Seq<char>>>,
    package: Seq<char>,
) -> Sheet {
    match first_value(fields, "%ARCH%"@) {
        Some(x) => { link(w, package, pkg("targetArchitecture"@), arch_iri(x)) },
        None => w,
    }
}

proof fn lemma_package_core_step_1(
    w: Sheet,
    fields: Map<Seq<char>, Seq<Seq<char>>>,
    package: Seq<char>,
)
    ensures
        ({
            let first = w.log;
            let last = package_core_step_1(w, fields, package).log;
            &&& said(last, pkg("targetArchitecture"@)) == said(first, pkg("targetArchitecture"@))
                + (
                    match first_value(fields, "%ARCH%"@) {
                        Some(x) => seq![to_iri(package, arch_iri(x))],
                        None => Seq::empty(),
                    }
                )
            &&& forall|q: Seq<char>|
                q != pkg("targetArchitecture"@) ==> #[trigger] said(last, q) == said(first, q)
        }),
{
    broadcast use group_reading;

    reveal(package_core_step_1);
    reveal_strlit("targetArchitecture");
}

/// What is said of a package itself: what it is, its name and version and the identity that
/// it is a version of, its distribution and release, and each field that it has by the
/// property of that field.
pub open spec fn package_core_told(
    first: Seq<Fact>,
    last: Seq<Fact>,
    fields: Map<Seq<char>, Seq<Seq<char>>>,
    repo: Seq<char>,
    package: Seq<char>,
    name: Seq<char>,
    version: Seq<char>,
) -> bool {
    let identity = identity_iri("arch"@, "rolling"@, "x86_64"@, name);
    let ver = version_iri("arch"@, "rolling"@, name, version);
    let dist = distro_iri("arch"@);
    let rel = release_iri("arch"@, "rolling"@);
    let licenses = values_at(fields, "%LICENSE%"@);
    &&& said(last, RDF_TYPE@) == said(first, RDF_TYPE@)
        + seq![to_iri(package, pkg("BinaryPackage"@))]
        + seq![to_iri(package, ARCH@ + "ArchPackage"@)]
        + seq![to_iri(identity, pkg("PackageIdentity"@))]
        + seq![to_iri(ver, pkg("Version"@))]
        + (
            match first_value(fields, "%PACKAGER%"@) {
                Some(x) => (
                    match contact_of(regex_captures(MAINTAINER@, x)) {
                        Some(who) => seq![to_iri(maintainer_iri(who.email), pkg("Maintainer"@))],
                        None => Seq::empty(),
                    }
                ),
                None => Seq::empty(),
            }
        )
    &&& said(last, pkg("packageName"@)) == said(first, pkg("packageName"@))
        + seq![to_text(identity, name)]
        + seq![to_text(package, name)]
    &&& said(last, pkg("isVersionOf"@)) == said(first, pkg("isVersionOf"@))
        + seq![to_iri(package, identity)]
    &&& said(last, pkg("versionString"@)) == said(first, pkg("versionString"@))
        + seq![to_text(ver, version)]
    &&& said(last, pkg("hasVersion"@)) == said(first, pkg("hasVersion"@))
        + seq![to_iri(package, ver)]
    &&& said(last, pkg("partOfDistribution"@)) == said(first, pkg("partOfDistribution"@))
        + seq![to_iri(package, dist)]
    &&& said(last, pkg("partOfRelease"@)) == said(first, pkg("partOfRelease"@))
        + seq![to_iri(package, rel)]
    &&& said(last, pkg("targetArchitecture"@)) == said(first, pkg("targetArchitecture"@))
        + (
            match first_value(fields, "%ARCH%"@) {
                Some(x) => seq![to_iri(package, arch_iri(x))],
                None => Seq::empty(),
            }
        )
    &&& said(last, ARCH@ + "inGroup"@) == said(first, ARCH@ + "inGroup"@)
        + seq![to_text(package, repo)]
    &&& said(last, pkg("description"@)) == said(first, pkg("description"@))
        + text_if(package, first_value(fields, "%DESC%"@))
    &&& said(last, pkg("homepage"@)) == said(first, pkg("homepage"@))
        + text_if(package, first_value(fields, "%URL%"@))
    &&& said(last, pkg("licenseName"@)) == said(first, pkg("licenseName"@))
        + in_turn(|k: int| seq![to_text(package, (licenses[k]))], (licenses.len()))
    &&& said(last, pkg("installSize"@)) == said(first, pkg("installSize"@))
        + (
            match first_value(fields, "%ISIZE%"@) {
                Some(x) => number_if_any(package, i64_value(x)),
                None => Seq::empty(),
            }
        )
    &&& said(last, pkg("packageSize"@)) == said(first, pkg("packageSize"@))
        + (
            match first_value(fields, "%CSIZE%"@) {
                Some(x) => number_if_any(package, i64_value(x)),
                None => Seq::empty(),
            }
        )
    &&& said(last, pkg("checksum"@)) == said(first, pkg("checksum"@))
        + text_if(package, first_value(fields, "%SHA256SUM%"@))
    &&& said(last, ARCH@ + "lastModified"@) == said(first, ARCH@ + "lastModified"@)
        + text_if(package, first_value(fields, "%BUILDDATE%"@))
    &&& said(last, FOAF@ + "name"@) == said(first, FOAF@ + "name"@)
        + (
            match first_value(fields, "%PACKAGER%"@) {
                Some(x) => (
                    match contact_of(regex_captures(MAINTAINER@, x)) {
                        Some(who) => seq![to_text(maintainer_iri(who.email), who.name)],
                        None => Seq::empty(),
                    }
                ),
                None => Seq::empty(),
            }
        )
    &&& said(last, pkg("maintainedBy"@)) == said(first, pkg("maintainedBy"@))
        + (
            match first_value(fields, "%PACKAGER%"@) {
                Some(x) => (
                    match contact_of(regex_captures(MAINTAINER@, x)) {
                        Some(who) => seq![to_iri(package, maintainer_iri(who.email))],
                        None => Seq::empty(),
                    }
                ),
                None => Seq::empty(),
            }
        )
    &&& forall|q: Seq<char>|
        q != RDF_TYPE@
            && q != pkg("packageName"@)
            && q != pkg("isVersionOf"@)
            && q != pkg("versionString"@)
            && q != pkg("hasVersion"@)
            && q != pkg("partOfDistribution"@)
            && q != pkg("partOfRelease"@)
            && q != pkg("targetArchitecture"@)
            && q != ARCH@ + "inGroup"@
            && q != pkg("description"@)
            && q != pkg("homepage"@)
            && q != pkg("licenseName"@)
            && q != pkg("installSize"@)
            && q != pkg("packageSize"@)
            && q != pkg("checksum"@)
            && q != ARCH@ + "lastModified"@
            && q != FOAF@ + "name"@
            && q != pkg("maintainedBy"@)
            ==> #[trigger] said(last, q) == said(first, q)
}

proof fn lemma_package_core_in_steps(
    w: Sheet,
    fields: Map<Seq<char>, Seq<Seq<char>>>,
    repo: Seq<char>,
    package: Seq<char>,
    name: Seq<char>,
    version: Seq<char>,
)
    ensures
        with_package_core(w, fields, repo, package, name, version) == ({
            let identity = identity_iri("arch"@, "rolling"@, "x86_64"@, name);
            let w = link(w, package, RDF_TYPE@, pkg("BinaryPackage"@));
            let w = link(w, package, RDF_TYPE@, ARCH@ + "ArchPackage"@);
            let w = link(w, identity, RDF_TYPE@, pkg("PackageIdentity"@));
            let w = literal(w, identity, pkg("packageName"@), name);
            let w = link(w, package, pkg("isVersionOf"@), identity);
            let w = literal(w, package, pkg("packageName"@), name);
            let ver = version_iri("arch"@, "rolling"@, name, version);
            let w = link(w, ver, RDF_TYPE@, pkg("Version"@));
            let w = literal(w, ver, pkg("versionString"@), version);
            let w = link(w, package, pkg("hasVersion"@), ver);
            let dist = distro_iri("arch"@);
            let rel = release_iri("arch"@, "rolling"@);
            let w = link(w, package, pkg("partOfDistribution"@), dist);
            let w = link(w, package, pkg("partOfRelease"@), rel);
            let w = package_core_step_1(w, fields, package);
            let w = literal(w, package, ARCH@ + "inGroup"@, repo);
            let w = maybe_literal(w, package, pkg("description"@), first_value(fields, "%DESC%"@));
            let w = maybe_literal(w, package, pkg("homepage"@), first_value(fields, "%URL%"@));
            let licenses = values_at(fields, "%LICENSE%"@);
            let w = with_each_license_name(w, package, licenses, licenses.len());
            let w = with_package_details(w, fields, package);
            w
        }),
{
    reveal(maybe_literal);
    reveal(package_core_step_1);
}

proof fn lemma_package_core_steps(
    w: Sheet,
    fields: Map<Seq<char>, Seq<Seq<char>>>,
    repo: Seq<char>,
    package: Seq<char>,
    name: Seq<char>,
    version: Seq<char>,
)
    ensures
        package_core_told(w.log, ({
            let identity = identity_iri("arch"@, "rolling"@, "x86_64"@, name);
            let w = link(w, package, RDF_TYPE@, pkg("BinaryPackage"@));
            let w = link(w, package, RDF_TYPE@, ARCH@ + "ArchPackage"@);
            let w = link(w, identity, RDF_TYPE@, pkg("PackageIdentity"@));
            let w = literal(w, identity, pkg("packageName"@), name);
            let w = link(w, package, pkg("isVersionOf"@), identity);
            let w = literal(w, package, pkg("packageName"@), name);
            let ver = version_iri("arch"@, "rolling"@, name, version);
            let w = link(w, ver, RDF_TYPE@, pkg("Version"@));
            let w = literal(w, ver, pkg("versionString"@), version);
            let w = link(w, package, pkg("hasVersion"@), ver);
            let dist = distro_iri("arch"@);
            let rel = release_iri("arch"@, "rolling"@);
            let w = link(w, package, pkg("partOfDistribution"@), dist);
            let w = link(w, package, pkg("partOfRelease"@), rel);
            let w = package_core_step_1(w, fields, package);
            let w = literal(w, package, ARCH@ + "inGroup"@, repo);
            let w = maybe_literal(w, package, pkg("description"@), first_value(fields, "%DESC%"@));
            let w = maybe_literal(w, package, pkg("homepage"@), first_value(fields, "%URL%"@));
            let licenses = values_at(fields, "%LICENSE%"@);
            let w = with_each_license_name(w, package, licenses, licenses.len());
            let w = with_package_details(w, fields, package);
            w
        }).log, fields, repo, package, name, version),
{
    broadcast use {group_writes, group_arch, group_foaf};

    reveal_strlit("packageName");
    reveal_strlit("isVersionOf");
    reveal_strlit("versionString");
    reveal_strlit("hasVersion");
    reveal_strlit("partOfDistribution");
    reveal_strlit("partOfRelease");
    reveal_strlit("targetArchitecture");
    reveal_strlit("inGroup");
    reveal_strlit("description");
    reveal_strlit("homepage");
    reveal_strlit("licenseName");
    reveal_strlit("installSize");
    reveal_strlit("packageSize");
    reveal_strlit("checksum");
    reveal_strlit("lastModified");
    reveal_strlit("name");
    reveal_strlit("maintainedBy");
    let identity = identity_iri("arch"@, "rolling"@, "x86_64"@, name);
    let w1 = link(w, package, RDF_TYPE@, pkg("BinaryPackage"@));
    let w2 = link(w1, package, RDF_TYPE@, ARCH@ + "ArchPackage"@);
    let w3 = link(w2, identity, RDF_TYPE@, pkg("PackageIdentity"@));
    let w4 = literal(w3, identity, pkg("packageName"@), name);
    let w5 = link(w4, package, pkg("isVersionOf"@), identity);
    let w6 = literal(w5, package, pkg("packageName"@), name);
    let ver = version_iri("arch"@, "rolling"@, name, version);
    let w7 = link(w6, ver, RDF_TYPE@, pkg("Version"@));
    let w8 = literal(w7, ver, pkg("versionString"@), version);
    let w9 = link(w8, package, pkg("hasVersion"@), ver);
    let dist = distro_iri("arch"@);
    let rel = release_iri("arch"@, "rolling"@);
    let w10 = link(w9, package, pkg("partOfDistribution"@), dist);
    let w11 = link(w10, package, pkg("partOfRelease"@), rel);
    let w12 = package_core_step_1(w11, fields, package);
    lemma_package_core_step_1(w11, fields, package);
    let w13 = literal(w12, package, ARCH@ + "inGroup"@, repo);
    let w14 = maybe_literal(w13, package, pkg("description"@), first_value(fields, "%DESC%"@));
    let w15 = maybe_literal(w14, package, pkg("homepage"@), first_value(fields, "%URL%"@));
    let licenses = values_at(fields, "%LICENSE%"@);
    let w16 = with_each_license_name(w15, package, licenses, licenses.len());
    lemma_each_license_name_told(w15, package, licenses, licenses.len());
    let w17 = with_package_details(w16, fields, package);
    lemma_package_details_told(w16, fields, package);
}

/// What [`with_package_core`] writes says what [`package_core_told`] states.
pub proof fn lemma_package_core_told(
    w: Sheet,
    fields: Map<Seq<char>, Seq<Seq<char>>>,
    repo: Seq<char>,
    package: Seq<char>,
    name: Seq<char>,
    version: Seq<char>,
)
    ensures
        package_core_told(
            w.log,
            with_package_core(w, fields, repo, package, name, version).log,
            fields,
            repo,
            package,
            name,
            version,
        ),
{
    lemma_package_core_in_steps(w, fields, repo, package, name, version);
    lemma_package_core_steps(w, fields, repo, package, name, version);
}

/// What is said of the other packages that a package names: what it depends on, at run
/// time, to be built and optionally, what it conflicts with, what it replaces and what it
/// provides.
pub open spec fn relations_told(
    first: Seq<Fact>,
    last: Seq<Fact>,
    c: ArchCollector,
    fields: Map<Seq<char>, Seq<Seq<char>>>,
    package: Seq<char>,
) -> bool {
    let depends = values_at(fields, "%DEPENDS%"@);
    let make = values_at(fields, "%MAKEDEPENDS%"@);
    let optional = optional_names(values_at(fields, "%OPTDEPENDS%"@));
    let conflicts = values_at(fields, "%CONFLICTS%"@);
    let replaces = values_at(fields, "%REPLACES%"@);
    let provides = values_at(fields, "%PROVIDES%"@);
    &&& said(last, pkg("packageName"@)) == said(first, pkg("packageName"@))
    &&& said(last, pkg("isVersionOf"@)) == said(first, pkg("isVersionOf"@))
    &&& said(last, pkg("hasVersion"@)) == said(first, pkg("hasVersion"@))
    &&& said(last, pkg("licenseName"@)) == said(first, pkg("licenseName"@))
    &&& said(last, pkg("maintainedBy"@)) == said(first, pkg("maintainedBy"@))
    &&& said(last, pkg("directlyDependsOn"@)) == said(first, pkg("directlyDependsOn"@))
        + in_turn(
            |k: int|
                seq![
                    to_iri(
                        package,
                        identity_iri(
                            "arch"@,
                            "rolling"@,
                            "x86_64"@,
                            dependency_of(
                                regex_captures(DEPENDENCY@, (depends[k])),
                                (depends[k]),
                            ).name,
                        ),
                    ),
                ],
            (depends.len()),
        )
        + in_turn(
            |k: int|
                seq![
                    to_iri(
                        package,
                        identity_iri(
                            "arch"@,
                            "rolling"@,
                            "x86_64"@,
                            dependency_of(regex_captures(DEPENDENCY@, (make[k])), (make[k])).name,
                        ),
                    ),
                ],
            (make.len()),
        )
        + in_turn(
            |k: int|
                seq![
                    to_iri(
                        package,
                        identity_iri(
                            "arch"@,
                            "rolling"@,
                            "x86_64"@,
                            dependency_of(
                                regex_captures(DEPENDENCY@, (optional[k])),
                                (optional[k]),
                            ).name,
                        ),
                    ),
                ],
            (optional.len()),
        )
    &&& said(last, pkg("dependencyType"@)) == said(first, pkg("dependencyType"@))
        + in_turn(
            |k: int|
                seq![
                    (
                        Term::Node(
                            bnode_label(
                                ("depends"@),
                                package
                                    + "-"@
                                    + dependency_of(
                                        regex_captures(DEPENDENCY@, (depends[k])),
                                        (depends[k]),
                                    ).name,
                            ),
                        ),
                        Term::Text(("depends"@)),
                    ),
                ],
            (depends.len()),
        )
        + in_turn(
            |k: int|
                seq![
                    (
                        Term::Node(
                            bnode_label(
                                ("makedepends"@),
                                package
                                    + "-"@
                                    + dependency_of(
                                        regex_captures(DEPENDENCY@, (make[k])),
                                        (make[k]),
                                    ).name,
                            ),
                        ),
                        Term::Text(("makedepends"@)),
                    ),
                ],
            (make.len()),
        )
        + in_turn(
            |k: int|
                seq![
                    (
                        Term::Node(
                            bnode_label(
                                ("optdepends"@),
                                package
                                    + "-"@
                                    + dependency_of(
                                        regex_captures(DEPENDENCY@, (optional[k])),
                                        (optional[k]),
                                    ).name,
                            ),
                        ),
                        Term::Text(("optdepends"@)),
                    ),
                ],
            (optional.len()),
        )
    &&& said(last, pkg("conflicts"@)) == said(first, pkg("conflicts"@))
        + in_turn(|k: int| seq![to_text(package, unversioned((conflicts[k])))], (conflicts.len()))
    &&& said(last, pkg("replaces"@)) == said(first, pkg("replaces"@))
        + in_turn(|k: int| seq![to_text(package, (replaces[k]))], (replaces.len()))
    &&& said(last, pkg("provides"@)) == said(first, pkg("provides"@))
        + in_turn(|k: int| seq![to_text(package, before((provides[k]), "="@))], (provides.len()))
}

proof fn lemma_relations_in_steps(
    w: Sheet,
    c: ArchCollector,
    fields: Map<Seq<char>, Seq<Seq<char>>>,
    package: Seq<char>,
)
    ensures
        with_relations(w, c, fields, package) == ({
            let depends = values_at(fields, "%DEPENDS%"@);
            let w = with_arch_deps(w, c, package, depends, "depends"@);
            let make = values_at(fields, "%MAKEDEPENDS%"@);
            let w = with_arch_deps(w, c, package, make, "makedepends"@);
            let optional = optional_names(values_at(fields, "%OPTDEPENDS%"@));
            let w = with_arch_deps(w, c, package, optional, "optdepends"@);
            let conflicts = values_at(fields, "%CONFLICTS%"@);
            let w = with_each_conflict(w, package, conflicts, conflicts.len());
            let replaces = values_at(fields, "%REPLACES%"@);
            let w = with_each_replaced(w, package, replaces, replaces.len());
            let provides = values_at(fields, "%PROVIDES%"@);
            let w = with_each_provided(w, package, provides, provides.len());
            w
        }),
{
}

proof fn lemma_relations_steps(
    w: Sheet,
    c: ArchCollector,
    fields: Map<Seq<char>, Seq<Seq<char>>>,
    package: Seq<char>,
)
    ensures
        relations_told(w.log, ({
            let depends = values_at(fields, "%DEPENDS%"@);
            let w = with_arch_deps(w, c, package, depends, "depends"@);
            let make = values_at(fields, "%MAKEDEPENDS%"@);
            let w = with_arch_deps(w, c, package, make, "makedepends"@);
            let optional = optional_names(values_at(fields, "%OPTDEPENDS%"@));
            let w = with_arch_deps(w, c, package, optional, "optdepends"@);
            let conflicts = values_at(fields, "%CONFLICTS%"@);
            let w = with_each_conflict(w, package, conflicts, conflicts.len());
            let replaces = values_at(fields, "%REPLACES%"@);
            let w = with_each_replaced(w, package, replaces, replaces.len());
            let provides = values_at(fields, "%PROVIDES%"@);
            let w = with_each_provided(w, package, provides, provides.len());
            w
        }).log, c, fields, package),
{
    broadcast use group_writes;

    reveal_strlit("directlyDependsOn");
    reveal_strlit("hasDependency");
    reveal_strlit("dependencyTarget");
    reveal_strlit("dependencyType");
    reveal_strlit("hasVersionConstraint");
    reveal_strlit("versionConstraintOperator");
    reveal_strlit("versionConstraintValue");
    reveal_strlit("conflicts");
    reveal_strlit("replaces");
    reveal_strlit("provides");
    reveal_strlit("packageName");
    reveal_strlit("isVersionOf");
    reveal_strlit("hasVersion");
    reveal_strlit("licenseName");
    reveal_strlit("maintainedBy");
    let depends = values_at(fields, "%DEPENDS%"@);
    let w1 = with_arch_deps(w, c, package, depends, "depends"@);
    lemma_arch_deps_told(w, c, package, depends, "depends"@);
    let make = values_at(fields, "%MAKEDEPENDS%"@);
    let w2 = with_arch_deps(w1, c, package, make, "makedepends"@);
    lemma_arch_deps_told(w1, c, package, make, "makedepends"@);
    let optional = optional_names(values_at(fields, "%OPTDEPENDS%"@));
    let w3 = with_arch_deps(w2, c, package, optional, "optdepends"@);
    lemma_arch_deps_told(w2, c, package, optional, "optdepends"@);
    let conflicts = values_at(fields, "%CONFLICTS%"@);
    let w4 = with_each_conflict(w3, package, conflicts, conflicts.len());
    lemma_each_conflict_told(w3, package, conflicts, conflicts.len());
    let replaces = values_at(fields, "%REPLACES%"@);
    let w5 = with_each_replaced(w4, package, replaces, replaces.len());
    lemma_each_replaced_told(w4, package, replaces, replaces.len());
    let provides = values_at(fields, "%PROVIDES%"@);
    let w6 = with_each_provided(w5, package, provides, provides.len());
    lemma_each_provided_told(w5, package, provides, provides.len());
}

/// What [`with_relations`] writes says what [`relations_told`] states.
pub proof fn lemma_relations_told(
    w: Sheet,
    c: ArchCollector,
    fields: Map<Seq<char>, Seq<Seq<char>>>,
    package: Seq<char>,
)
    ensures
        relations_told(w.log, with_relations(w, c, fields, package).log, c, fields, package),
{
    lemma_relations_in_steps(w, c, fields, package);
    lemma_relations_steps(w, c, fields, package);
}

#[verifier::opaque]
spec fn arch_package_step_1(
    w: Sheet,
    c: ArchCollector,
    fields: Map<Seq<char>, Seq<Seq<char>>>,
    repo: Seq<char>,
) -> Sheet {
    match first_value(fields, "%NAME%"@) {
        Some(name) => {
            let w = match first_value(fields, "%VERSION%"@) {
                Some(version) => {
                    let package = package_iri("arch"@, "rolling"@, "x86_64"@, name, version);
                    let w = with_package_core(w, fields, repo, package, name, version);
                    with_relations(w, c, fields, package)
                },
                None => w,
            };
            w
        },
        None => w,
    }
}

proof fn lemma_arch_package_step_1(
    w: Sheet,
    c: ArchCollector,
    fields: Map<Seq<char>, Seq<Seq<char>>>,
    repo: Seq<char>,
)
    ensures
        ({
            let first = w.log;
            let last = arch_package_step_1(w, c, fields, repo).log;
            &&& said(last, pkg("packageName"@)) == said(first, pkg("packageName"@))
                + (
                    match first_value(fields, "%NAME%"@) {
                        Some(name) => (
                            match first_value(fields, "%VERSION%"@) {
                                Some(version) => seq![
                                    to_text(
                                        identity_iri("arch"@, "rolling"@, "x86_64"@, name),
                                        name,
                                    ),
                                ],
                                None => Seq::empty(),
                            }
                        ),
                        None => Seq::empty(),
                    }
                )
                + (
                    match first_value(fields, "%NAME%"@) {
                        Some(name) => (
                            match first_value(fields, "%VERSION%"@) {
                                Some(version) => seq![
                                    to_text(
                                        package_iri("arch"@, "rolling"@, "x86_64"@, name, version),
                                        name,
                                    ),
                                ],
                                None => Seq::empty(),
                            }
                        ),
                        None => Seq::empty(),
                    }
                )
            &&& said(last, pkg("isVersionOf"@)) == said(first, pkg("isVersionOf"@))
                + (
                    match first_value(fields, "%NAME%"@) {
                        Some(name) => (
                            match first_value(fields, "%VERSION%"@) {
                                Some(version) => seq![
                                    to_iri(
                                        package_iri("arch"@, "rolling"@, "x86_64"@, name, version),
                                        identity_iri("arch"@, "rolling"@, "x86_64"@, name),
                                    ),
                                ],
                                None => Seq::empty(),
                            }
                        ),
                        None => Seq::empty(),
                    }
                )
            &&& said(last, pkg("hasVersion"@)) == said(first, pkg("hasVersion"@))
                + (
                    match first_value(fields, "%NAME%"@) {
                        Some(name) => (
                            match first_value(fields, "%VERSION%"@) {
                                Some(version) => seq![
                                    to_iri(
                                        package_iri("arch"@, "rolling"@, "x86_64"@, name, version),
                                        version_iri("arch"@, "rolling"@, name, version),
                                    ),
                                ],
                                None => Seq::empty(),
                            }
                        ),
                        None => Seq::empty(),
                    }
                )
            &&& said(last, pkg("licenseName"@)) == said(first, pkg("licenseName"@))
                + (
                    match first_value(fields, "%NAME%"@) {
                        Some(name) => (
                            match first_value(fields, "%VERSION%"@) {
                                Some(version) => in_turn(
                                    |k: int|
                                        seq![
                                            to_text(
                                                package_iri(
                                                    "arch"@,
                                                    "rolling"@,
                                                    "x86_64"@,
                                                    name,
                                                    version,
                                                ),
                                                (values_at(fields, "%LICENSE%"@)[k]),
                                            ),
                                        ],
                                    (values_at(fields, "%LICENSE%"@).len()),
                                ),
                                None => Seq::empty(),
                            }
                        ),
                        None => Seq::empty(),
                    }
                )
            &&& said(last, pkg("maintainedBy"@)) == said(first, pkg("maintainedBy"@))
                + (
                    match first_value(fields, "%NAME%"@) {
                        Some(name) => (
                            match first_value(fields, "%VERSION%"@) {
                                Some(version) => (
                                    match first_value(fields, "%PACKAGER%"@) {
                                        Some(x) => (
                                            match contact_of(regex_captures(MAINTAINER@, x)) {
                                                Some(who) => seq![
                                                    to_iri(
                                                        package_iri(
                                                            "arch"@,
                                                            "rolling"@,
                                                            "x86_64"@,
                                                            name,
                                                            version,
                                                        ),
                                                        maintainer_iri(who.email),
                                                    ),
                                                ],
                                                None => Seq::empty(),
                                            }
                                        ),
                                        None => Seq::empty(),
                                    }
                                ),
                                None => Seq::empty(),
                            }
                        ),
                        None => Seq::empty(),
                    }
                )
            &&& said(last, pkg("directlyDependsOn"@)) == said(first, pkg("directlyDependsOn"@))
                + (
                    match first_value(fields, "%NAME%"@) {
                        Some(name) => (
                            match first_value(fields, "%VERSION%"@) {
                                Some(version) => in_turn(
                                    |k: int|
                                        seq![
                                            to_iri(
                                                package_iri(
                                                    "arch"@,
                                                    "rolling"@,
                                                    "x86_64"@,
                                                    name,
                                                    version,
                                                ),
                                                identity_iri(
                                                    "arch"@,
                                                    "rolling"@,
                                                    "x86_64"@,
                                                    dependency_of(
                                                        regex_captures(
                                                            DEPENDENCY@,
                                                            (values_at(fields, "%DEPENDS%"@)[k]),
                                                        ),
                                                        (values_at(fields, "%DEPENDS%"@)[k]),
                                                    ).name,
                                                ),
                                            ),
                                        ],
                                    (values_at(fields, "%DEPENDS%"@).len()),
                                ),
                                None => Seq::empty(),
                            }
                        ),
                        None => Seq::empty(),
                    }
                )
                + (
                    match first_value(fields, "%NAME%"@) {
                        Some(name) => (
                            match first_value(fields, "%VERSION%"@) {
                                Some(version) => in_turn(
                                    |k: int|
                                        seq![
                                            to_iri(
                                                package_iri(
                                                    "arch"@,
                                                    "rolling"@,
                                                    "x86_64"@,
                                                    name,
                                                    version,
                                                ),
                                                identity_iri(
                                                    "arch"@,
                                                    "rolling"@,
                                                    "x86_64"@,
                                                    dependency_of(
                                                        regex_captures(
                                                            DEPENDENCY@,
                                                            (
                                                                values_at(
                                                                    fields,
                                                                    "%MAKEDEPENDS%"@,
                                                                )[k]
                                                            ),
                                                        ),
                                                        (values_at(fields, "%MAKEDEPENDS%"@)[k]),
                                                    ).name,
                                                ),
                                            ),
                                        ],
                                    (values_at(fields, "%MAKEDEPENDS%"@).len()),
                                ),
                                None => Seq::empty(),
                            }
                        ),
                        None => Seq::empty(),
                    }
                )
                + (
                    match first_value(fields, "%NAME%"@) {
                        Some(name) => (
                            match first_value(fields, "%VERSION%"@) {
                                Some(version) => in_turn(
                                    |k: int|
                                        seq![
                                            to_iri(
                                                package_iri(
                                                    "arch"@,
                                                    "rolling"@,
                                                    "x86_64"@,
                                                    name,
                                                    version,
                                                ),
                                                identity_iri(
                                                    "arch"@,
                                                    "rolling"@,
                                                    "x86_64"@,
                                                    dependency_of(
                                                        regex_captures(
                                                            DEPENDENCY@,
                                                            (
                                                                optional_names(
                                                                    values_at(
                                                                        fields,
                                                                        "%OPTDEPENDS%"@,
                                                                    ),
                                                                )[k]
                                                            ),
                                                        ),
                                                        (
                                                            optional_names(
                                                                values_at(fields, "%OPTDEPENDS%"@),
                                                            )[k]
                                                        ),
                                                    ).name,
                                                ),
                                            ),
                                        ],
                                    (optional_names(values_at(fields, "%OPTDEPENDS%"@)).len()),
                                ),
                                None => Seq::empty(),
                            }
                        ),
                        None => Seq::empty(),
                    }
                )
            &&& said(last, pkg("dependencyType"@)) == said(first, pkg("dependencyType"@))
                + (
                    match first_value(fields, "%NAME%"@) {
                        Some(name) => (
                            match first_value(fields, "%VERSION%"@) {
                                Some(version) => in_turn(
                                    |k: int|
                                        seq![
                                            (
                                                Term::Node(
                                                    bnode_label(
                                                        ("depends"@),
                                                        package_iri(
                                                            "arch"@,
                                                            "rolling"@,
                                                            "x86_64"@,
                                                            name,
                                                            version,
                                                        )
                                                            + "-"@
                                                            + dependency_of(
                                                                regex_captures(
                                                                    DEPENDENCY@,
                                                                    (
                                                                        values_at(
                                                                            fields,
                                                                            "%DEPENDS%"@,
                                                                        )[k]
                                                                    ),
                                                                ),
                                                                (
                                                                    values_at(
                                                                        fields,
                                                                        "%DEPENDS%"@,
                                                                    )[k]
                                                                ),
                                                            ).name,
                                                    ),
                                                ),
                                                Term::Text(("depends"@)),
                                            ),
                                        ],
                                    (values_at(fields, "%DEPENDS%"@).len()),
                                ),
                                None => Seq::empty(),
                            }
                        ),
                        None => Seq::empty(),
                    }
                )
                + (
                    match first_value(fields, "%NAME%"@) {
                        Some(name) => (
                            match first_value(fields, "%VERSION%"@) {
                                Some(version) => in_turn(
                                    |k: int|
                                        seq![
                                            (
                                                Term::Node(
                                                    bnode_label(
                                                        ("makedepends"@),
                                                        package_iri(
                                                            "arch"@,
                                                            "rolling"@,
                                                            "x86_64"@,
                                                            name,
                                                            version,
                                                        )
                                                            + "-"@
                                                            + dependency_of(
                                                                regex_captures(
                                                                    DEPENDENCY@,
                                                                    (
                                                                        values_at(
                                                                            fields,
                                                                            "%MAKEDEPENDS%"@,
                                                                        )[k]
                                                                    ),
                                                                ),
                                                                (
                                                                    values_at(
                                                                        fields,
                                                                        "%MAKEDEPENDS%"@,
                                                                    )[k]
                                                                ),
                                                            ).name,
                                                    ),
                                                ),
                                                Term::Text(("makedepends"@)),
                                            ),
                                        ],
                                    (values_at(fields, "%MAKEDEPENDS%"@).len()),
                                ),
                                None => Seq::empty(),
                            }
                        ),
                        None => Seq::empty(),
                    }
                )
                + (
                    match first_value(fields, "%NAME%"@) {
                        Some(name) => (
                            match first_value(fields, "%VERSION%"@) {
                                Some(version) => in_turn(
                                    |k: int|
                                        seq![
                                            (
                                                Term::Node(
                                                    bnode_label(
                                                        ("optdepends"@),
                                                        package_iri(
                                                            "arch"@,
                                                            "rolling"@,
                                                            "x86_64"@,
                                                            name,
                                                            version,
                                                        )
                                                            + "-"@
                                                            + dependency_of(
                                                                regex_captures(
                                                                    DEPENDENCY@,
                                                                    (
                                                                        optional_names(
                                                                            values_at(
                                                                                fields,
                                                                                "%OPTDEPENDS%"@,
                                                                            ),
                                                                        )[k]
                                                                    ),
                                                                ),
                                                                (
                                                                    optional_names(
                                                                        values_at(
                                                                            fields,
                                                                            "%OPTDEPENDS%"@,
                                                                        ),
                                                                    )[k]
                                                                ),
                                                            ).name,
                                                    ),
                                                ),
                                                Term::Text(("optdepends"@)),
                                            ),
                                        ],
                                    (optional_names(values_at(fields, "%OPTDEPENDS%"@)).len()),
                                ),
                                None => Seq::empty(),
                            }
                        ),
                        None => Seq::empty(),
                    }
                )
            &&& said(last, pkg("conflicts"@)) == said(first, pkg("conflicts"@))
                + (
                    match first_value(fields, "%NAME%"@) {
                        Some(name) => (
                            match first_value(fields, "%VERSION%"@) {
                                Some(version) => in_turn(
                                    |k: int|
                                        seq![
                                            to_text(
                                                package_iri(
                                                    "arch"@,
                                                    "rolling"@,
                                                    "x86_64"@,
                                                    name,
                                                    version,
                                                ),
                                                unversioned((values_at(fields, "%CONFLICTS%"@)[k])),
                                            ),
                                        ],
                                    (values_at(fields, "%CONFLICTS%"@).len()),
                                ),
                                None => Seq::empty(),
                            }
                        ),
                        None => Seq::empty(),
                    }
                )
            &&& said(last, pkg("replaces"@)) == said(first, pkg("replaces"@))
                + (
                    match first_value(fields, "%NAME%"@) {
                        Some(name) => (
                            match first_value(fields, "%VERSION%"@) {
                                Some(version) => in_turn(
                                    |k: int|
                                        seq![
                                            to_text(
                                                package_iri(
                                                    "arch"@,
                                                    "rolling"@,
                                                    "x86_64"@,
                                                    name,
                                                    version,
                                                ),
                                                (values_at(fields, "%REPLACES%"@)[k]),
                                            ),
                                        ],
                                    (values_at(fields, "%REPLACES%"@).len()),
                                ),
                                None => Seq::empty(),
                            }
                        ),
                        None => Seq::empty(),
                    }
                )
            &&& said(last, pkg("provides"@)) == said(first, pkg("provides"@))
                + (
                    match first_value(fields, "%NAME%"@) {
                        Some(name) => (
                            match first_value(fields, "%VERSION%"@) {
                                Some(version) => in_turn(
                                    |k: int|
                                        seq![
                                            to_text(
                                                package_iri(
                                                    "arch"@,
                                                    "rolling"@,
                                                    "x86_64"@,
                                                    name,
                                                    version,
                                                ),
                                                before((values_at(fields, "%PROVIDES%"@)[k]), "="@),
                                            ),
                                        ],
                                    (values_at(fields, "%PROVIDES%"@).len()),
                                ),
                                None => Seq::empty(),
                            }
                        ),
                        None => Seq::empty(),
                    }
                )
        }),
{
    broadcast use {group_reading, group_arch, group_foaf};

    reveal(arch_package_step_1);
    reveal_strlit("packageName");
    reveal_strlit("isVersionOf");
    reveal_strlit("versionString");
    reveal_strlit("hasVersion");
    reveal_strlit("partOfDistribution");
    reveal_strlit("partOfRelease");
    reveal_strlit("targetArchitecture");
    reveal_strlit("inGroup");
    reveal_strlit("description");
    reveal_strlit("homepage");
    reveal_strlit("licenseName");
    reveal_strlit("installSize");
    reveal_strlit("packageSize");
    reveal_strlit("checksum");
    reveal_strlit("lastModified");
    reveal_strlit("name");
    reveal_strlit("maintainedBy");
    reveal_strlit("directlyDependsOn");
    reveal_strlit("dependencyType");
    reveal_strlit("conflicts");
    reveal_strlit("replaces");
    reveal_strlit("provides");
    match first_value(fields, "%NAME%"@) {
        Some(name) => {
            match first_value(fields, "%VERSION%"@) {
                Some(version) => {
                    let package = package_iri("arch"@, "rolling"@, "x86_64"@, name, version);
                    lemma_package_core_told(w, fields, repo, package, name, version);
                    lemma_relations_told(
                        with_package_core(w, fields, repo, package, name, version),
                        c,
                        fields,
                        package,
                    );
                },
                None => {
                },
            }
        },
        None => {
        },
    }
}

/// Everything that is said of a package of the repositories.
pub open spec fn arch_package_told(
    first: Seq<Fact>,
    last: Seq<Fact>,
    c: ArchCollector,
    fields: Map<Seq<char>, Seq<Seq<char>>>,
    repo: Seq<char>,
) -> bool {
    &&& said(last, pkg("packageName"@)) == said(first, pkg("packageName"@))
        + (
            match first_value(fields, "%NAME%"@) {
                Some(name) => (
                    match first_value(fields, "%VERSION%"@) {
                        Some(version) => seq![
                            to_text(identity_iri("arch"@, "rolling"@, "x86_64"@, name), name),
                        ],
                        None => Seq::empty(),
                    }
                ),
                None => Seq::empty(),
            }
        )
        + (
            match first_value(fields, "%NAME%"@) {
                Some(name) => (
                    match first_value(fields, "%VERSION%"@) {
                        Some(version) => seq![
                            to_text(
                                package_iri("arch"@, "rolling"@, "x86_64"@, name, version),
                                name,
                            ),
                        ],
                        None => Seq::empty(),
                    }
                ),
                None => Seq::empty(),
            }
        )
    &&& said(last, pkg("isVersionOf"@)) == said(first, pkg("isVersionOf"@))
        + (
            match first_value(fields, "%NAME%"@) {
                Some(name) => (
                    match first_value(fields, "%VERSION%"@) {
                        Some(version) => seq![
                            to_iri(
                                package_iri("arch"@, "rolling"@, "x86_64"@, name, version),
                                identity_iri("arch"@, "rolling"@, "x86_64"@, name),
                            ),
                        ],
                        None => Seq::empty(),
                    }
                ),
                None => Seq::empty(),
            }
        )
    &&& said(last, pkg("hasVersion"@)) == said(first, pkg("hasVersion"@))
        + (
            match first_value(fields, "%NAME%"@) {
                Some(name) => (
                    match first_value(fields, "%VERSION%"@) {
                        Some(version) => seq![
                            to_iri(
                                package_iri("arch"@, "rolling"@, "x86_64"@, name, version),
                                version_iri("arch"@, "rolling"@, name, version),
                            ),
                        ],
                        None => Seq::empty(),
                    }
                ),
                None => Seq::empty(),
            }
        )
    &&& said(last, pkg("licenseName"@)) == said(first, pkg("licenseName"@))
        + (
            match first_value(fields, "%NAME%"@) {
                Some(name) => (
                    match first_value(fields, "%VERSION%"@) {
                        Some(version) => in_turn(
                            |k: int|
                                seq![
                                    to_text(
                                        package_iri("arch"@, "rolling"@, "x86_64"@, name, version),
                                        (values_at(fields, "%LICENSE%"@)[k]),
                                    ),
                                ],
                            (values_at(fields, "%LICENSE%"@).len()),
                        ),
                        None => Seq::empty(),
                    }
                ),
                None => Seq::empty(),
            }
        )
    &&& said(last, pkg("maintainedBy"@)) == said(first, pkg("maintainedBy"@))
        + (
            match first_value(fields, "%NAME%"@) {
                Some(name) => (
                    match first_value(fields, "%VERSION%"@) {
                        Some(version) => (
                            match first_value(fields, "%PACKAGER%"@) {
                                Some(x) => (
                                    match contact_of(regex_captures(MAINTAINER@, x)) {
                                        Some(who) => seq![
                                            to_iri(
                                                package_iri(
                                                    "arch"@,
                                                    "rolling"@,
                                                    "x86_64"@,
                                                    name,
                                                    version,
                                                ),
                                                maintainer_iri(who.email),
                                            ),
                                        ],
                                        None => Seq::empty(),
                                    }
                                ),
                                None => Seq::empty(),
                            }
                        ),
                        None => Seq::empty(),
                    }
                ),
                None => Seq::empty(),
            }
        )
    &&& said(last, pkg("directlyDependsOn"@)) == said(first, pkg("directlyDependsOn"@))
        + (
            match first_value(fields, "%NAME%"@) {
                Some(name) => (
                    match first_value(fields, "%VERSION%"@) {
                        Some(version) => in_turn(
                            |k: int|
                                seq![
                                    to_iri(
                                        package_iri("arch"@, "rolling"@, "x86_64"@, name, version),
                                        identity_iri(
                                            "arch"@,
                                            "rolling"@,
                                            "x86_64"@,
                                            dependency_of(
                                                regex_captures(
                                                    DEPENDENCY@,
                                                    (values_at(fields, "%DEPENDS%"@)[k]),
                                                ),
                                                (values_at(fields, "%DEPENDS%"@)[k]),
                                            ).name,
                                        ),
                                    ),
                                ],
                            (values_at(fields, "%DEPENDS%"@).len()),
                        ),
                        None => Seq::empty(),
                    }
                ),
                None => Seq::empty(),
            }
        )
        + (
            match first_value(fields, "%NAME%"@) {
                Some(name) => (
                    match first_value(fields, "%VERSION%"@) {
                        Some(version) => in_turn(
                            |k: int|
                                seq![
                                    to_iri(
                                        package_iri("arch"@, "rolling"@, "x86_64"@, name, version),
                                        identity_iri(
                                            "arch"@,
                                            "rolling"@,
                                            "x86_64"@,
                                            dependency_of(
                                                regex_captures(
                                                    DEPENDENCY@,
                                                    (values_at(fields, "%MAKEDEPENDS%"@)[k]),
                                                ),
                                                (values_at(fields, "%MAKEDEPENDS%"@)[k]),
                                            ).name,
                                        ),
                                    ),
                                ],
                            (values_at(fields, "%MAKEDEPENDS%"@).len()),
                        ),
                        None => Seq::empty(),
                    }
                ),
                None => Seq::empty(),
            }
        )
        + (
            match first_value(fields, "%NAME%"@) {
                Some(name) => (
                    match first_value(fields, "%VERSION%"@) {
                        Some(version) => in_turn(
                            |k: int|
                                seq![
                                    to_iri(
                                        package_iri("arch"@, "rolling"@, "x86_64"@, name, version),
                                        identity_iri(
                                            "arch"@,
                                            "rolling"@,
                                            "x86_64"@,
                                            dependency_of(
                                                regex_captures(
                                                    DEPENDENCY@,
                                                    (
                                                        optional_names(
                                                            values_at(fields, "%OPTDEPENDS%"@),
                                                        )[k]
                                                    ),
                                                ),
                                                (
                                                    optional_names(
                                                        values_at(fields, "%OPTDEPENDS%"@),
                                                    )[k]
                                                ),
                                            ).name,
                                        ),
                                    ),
                                ],
                            (optional_names(values_at(fields, "%OPTDEPENDS%"@)).len()),
                        ),
                        None => Seq::empty(),
                    }
                ),
                None => Seq::empty(),
            }
        )
    &&& said(last, pkg("dependencyType"@)) == said(first, pkg("dependencyType"@))
        + (
            match first_value(fields, "%NAME%"@) {
                Some(name) => (
                    match first_value(fields, "%VERSION%"@) {
                        Some(version) => in_turn(
                            |k: int|
                                seq![
                                    (
                                        Term::Node(
                                            bnode_label(
                                                ("depends"@),
                                                package_iri(
                                                    "arch"@,
                                                    "rolling"@,
                                                    "x86_64"@,
                                                    name,
                                                    version,
                                                )
                                                    + "-"@
                                                    + dependency_of(
                                                        regex_captures(
                                                            DEPENDENCY@,
                                                            (values_at(fields, "%DEPENDS%"@)[k]),
                                                        ),
                                                        (values_at(fields, "%DEPENDS%"@)[k]),
                                                    ).name,
                                            ),
                                        ),
                                        Term::Text(("depends"@)),
                                    ),
                                ],
                            (values_at(fields, "%DEPENDS%"@).len()),
                        ),
                        None => Seq::empty(),
                    }
                ),
                None => Seq::empty(),
            }
        )
        + (
            match first_value(fields, "%NAME%"@) {
                Some(name) => (
                    match first_value(fields, "%VERSION%"@) {
                        Some(version) => in_turn(
                            |k: int|
                                seq![
                                    (
                                        Term::Node(
                                            bnode_label(
                                                ("makedepends"@),
                                                package_iri(
                                                    "arch"@,
                                                    "rolling"@,
                                                    "x86_64"@,
                                                    name,
                                                    version,
                                                )
                                                    + "-"@
                                                    + dependency_of(
                                                        regex_captures(
                                                            DEPENDENCY@,
                                                            (
                                                                values_at(
                                                                    fields,
                                                                    "%MAKEDEPENDS%"@,
                                                                )[k]
                                                            ),
                                                        ),
                                                        (values_at(fields, "%MAKEDEPENDS%"@)[k]),
                                                    ).name,
                                            ),
                                        ),
                                        Term::Text(("makedepends"@)),
                                    ),
                                ],
                            (values_at(fields, "%MAKEDEPENDS%"@).len()),
                        ),
                        None => Seq::empty(),
                    }
                ),
                None => Seq::empty(),
            }
        )
        + (
            match first_value(fields, "%NAME%"@) {
                Some(name) => (
                    match first_value(fields, "%VERSION%"@) {
                        Some(version) => in_turn(
                            |k: int|
                                seq![
                                    (
                                        Term::Node(
                                            bnode_label(
                                                ("optdepends"@),
                                                package_iri(
                                                    "arch"@,
                                                    "rolling"@,
                                                    "x86_64"@,
                                                    name,
                                                    version,
                                                )
                                                    + "-"@
                                                    + dependency_of(
                                                        regex_captures(
                                                            DEPENDENCY@,
                                                            (
                                                                optional_names(
                                                                    values_at(
                                                                        fields,
                                                                        "%OPTDEPENDS%"@,
                                                                    ),
                                                                )[k]
                                                            ),
                                                        ),
                                                        (
                                                            optional_names(
                                                                values_at(fields, "%OPTDEPENDS%"@),
                                                            )[k]
                                                        ),
                                                    ).name,
                                            ),
                                        ),
                                        Term::Text(("optdepends"@)),
                                    ),
                                ],
                            (optional_names(values_at(fields, "%OPTDEPENDS%"@)).len()),
                        ),
                        None => Seq::empty(),
                    }
                ),
                None => Seq::empty(),
            }
        )
    &&& said(last, pkg("conflicts"@)) == said(first, pkg("conflicts"@))
        + (
            match first_value(fields, "%NAME%"@) {
                Some(name) => (
                    match first_value(fields, "%VERSION%"@) {
                        Some(version) => in_turn(
                            |k: int|
                                seq![
                                    to_text(
                                        package_iri("arch"@, "rolling"@, "x86_64"@, name, version),
                                        unversioned((values_at(fields, "%CONFLICTS%"@)[k])),
                                    ),
                                ],
                            (values_at(fields, "%CONFLICTS%"@).len()),
                        ),
                        None => Seq::empty(),
                    }
                ),
                None => Seq::empty(),
            }
        )
    &&& said(last, pkg("replaces"@)) == said(first, pkg("replaces"@))
        + (
            match first_value(fields, "%NAME%"@) {
                Some(name) => (
                    match first_value(fields, "%VERSION%"@) {
                        Some(version) => in_turn(
                            |k: int|
                                seq![
                                    to_text(
                                        package_iri("arch"@, "rolling"@, "x86_64"@, name, version),
                                        (values_at(fields, "%REPLACES%"@)[k]),
                                    ),
                                ],
                            (values_at(fields, "%REPLACES%"@).len()),
                        ),
                        None => Seq::empty(),
                    }
                ),
                None => Seq::empty(),
            }
        )
    &&& said(last, pkg("provides"@)) == said(first, pkg("provides"@))
        + (
            match first_value(fields, "%NAME%"@) {
                Some(name) => (
                    match first_value(fields, "%VERSION%"@) {
                        Some(version) => in_turn(
                            |k: int|
                                seq![
                                    to_text(
                                        package_iri("arch"@, "rolling"@, "x86_64"@, name, version),
                                        before((values_at(fields, "%PROVIDES%"@)[k]), "="@),
                                    ),
                                ],
                            (values_at(fields, "%PROVIDES%"@).len()),
                        ),
                        None => Seq::empty(),
                    }
                ),
                None => Seq::empty(),
            }
        )
}

proof fn lemma_arch_package_in_steps(
    w: Sheet,
    c: ArchCollector,
    fields: Map<Seq<char>, Seq<Seq<char>>>,
    repo: Seq<char>,
)
    ensures
        with_arch_package_triples(w, c, fields, repo) == ({
            let w = arch_package_step_1(w, c, fields, repo);
            w
        }),
{
    reveal(arch_package_step_1);
}

proof fn lemma_arch_package_steps(
    w: Sheet,
    c: ArchCollector,
    fields: Map<Seq<char>, Seq<Seq<char>>>,
    repo: Seq<char>,
)
    ensures
        arch_package_told(w.log, ({
            let w = arch_package_step_1(w, c, fields, repo);
            w
        }).log, c, fields, repo),
{
    broadcast use {group_writes, group_arch, group_foaf};

    reveal_strlit("packageName");
    reveal_strlit("isVersionOf");
    reveal_strlit("versionString");
    reveal_strlit("hasVersion");
    reveal_strlit("partOfDistribution");
    reveal_strlit("partOfRelease");
    reveal_strlit("targetArchitecture");
    reveal_strlit("inGroup");
    reveal_strlit("description");
    reveal_strlit("homepage");
    reveal_strlit("licenseName");
    reveal_strlit("installSize");
    reveal_strlit("packageSize");
    reveal_strlit("checksum");
    reveal_strlit("lastModified");
    reveal_strlit("name");
    reveal_strlit("maintainedBy");
    reveal_strlit("directlyDependsOn");
    reveal_strlit("dependencyType");
    reveal_strlit("conflicts");
    reveal_strlit("replaces");
    reveal_strlit("provides");
    let w1 = arch_package_step_1(w, c, fields, repo);
    lemma_arch_package_step_1(w, c, fields, repo);
}

/// What [`with_arch_package_triples`] writes says what [`arch_package_told`] states.
pub proof fn lemma_arch_package_told(
    w: Sheet,
    c: ArchCollector,
    fields: Map<Seq<char>, Seq<Seq<char>>>,
    repo: Seq<char>,
)
    ensures
        arch_package_told(
            w.log,
            with_arch_package_triples(w, c, fields, repo).log,
            c,
            fields,
            repo,
        ),
{
    lemma_arch_package_in_steps(w, c, fields, repo);
    lemma_arch_package_steps(w, c, fields, repo);
}

#[verifier::opaque]
spec fn aur_package_step_1(w: Sheet, entry: AurText, package: Seq<char>) -> Sheet {
    if entry.out_of_date is Some { boolean(w, package, ARCH@ + "outOfDate"@, true) } else { w }
}

proof fn lemma_aur_package_step_1(w: Sheet, entry: AurText, package: Seq<char>)
    ensures
        ({
            let first = w.log;
            let last = aur_package_step_1(w, entry, package).log;
            &&& said(last, pkg("packageName"@)) == said(first, pkg("packageName"@))
            &&& said(last, pkg("versionString"@)) == said(first, pkg("versionString"@))
            &&& said(last, pkg("isVersionOf"@)) == said(first, pkg("isVersionOf"@))
            &&& said(last, pkg("description"@)) == said(first, pkg("description"@))
            &&& said(last, pkg("homepage"@)) == said(first, pkg("homepage"@))
            &&& said(last, pkg("licenseName"@)) == said(first, pkg("licenseName"@))
            &&& said(last, pkg("maintainedBy"@)) == said(first, pkg("maintainedBy"@))
            &&& said(last, pkg("directlyDependsOn"@)) == said(first, pkg("directlyDependsOn"@))
            &&& said(last, pkg("dependencyType"@)) == said(first, pkg("dependencyType"@))
            &&& said(last, ARCH@ + "aurVotes"@) == said(first, ARCH@ + "aurVotes"@)
            &&& said(last, ARCH@ + "aurPopularity"@) == said(first, ARCH@ + "aurPopularity"@)
            &&& said(last, ARCH@ + "outOfDate"@) == said(first, ARCH@ + "outOfDate"@)
                + where_so(entry.out_of_date is Some, seq![to_truth(package, true)])
        }),
{
    broadcast use {group_reading, group_arch};

    reveal(aur_package_step_1);
    reveal_strlit("outOfDate");
    reveal_strlit("packageName");
    reveal_strlit("versionString");
    reveal_strlit("isVersionOf");
    reveal_strlit("description");
    reveal_strlit("homepage");
    reveal_strlit("licenseName");
    reveal_strlit("maintainedBy");
    reveal_strlit("directlyDependsOn");
    reveal_strlit("dependencyType");
    reveal_strlit("aurVotes");
    reveal_strlit("aurPopularity");
}

#[verifier::opaque]
spec fn aur_package_step_2(w: Sheet, entry: AurText, package: Seq<char>) -> Sheet {
    match entry.maintainer {
        Some(who) => { with_maintainer(w, package, who, who + "@aur.archlinux.org"@) },
        None => w,
    }
}

proof fn lemma_aur_package_step_2(w: Sheet, entry: AurText, package: Seq<char>)
    ensures
        ({
            let first = w.log;
            let last = aur_package_step_2(w, entry, package).log;
            &&& said(last, pkg("packageName"@)) == said(first, pkg("packageName"@))
            &&& said(last, pkg("versionString"@)) == said(first, pkg("versionString"@))
            &&& said(last, pkg("isVersionOf"@)) == said(first, pkg("isVersionOf"@))
            &&& said(last, pkg("description"@)) == said(first, pkg("description"@))
            &&& said(last, pkg("homepage"@)) == said(first, pkg("homepage"@))
            &&& said(last, pkg("licenseName"@)) == said(first, pkg("licenseName"@))
            &&& said(last, pkg("maintainedBy"@)) == said(first, pkg("maintainedBy"@))
                + (
                    match entry.maintainer {
                        Some(who) => seq![
                            to_iri(package, maintainer_iri((who + "@aur.archlinux.org"@))),
                        ],
                        None => Seq::empty(),
                    }
                )
            &&& said(last, pkg("directlyDependsOn"@)) == said(first, pkg("directlyDependsOn"@))
            &&& said(last, pkg("dependencyType"@)) == said(first, pkg("dependencyType"@))
            &&& said(last, ARCH@ + "aurVotes"@) == said(first, ARCH@ + "aurVotes"@)
            &&& said(last, ARCH@ + "aurPopularity"@) == said(first, ARCH@ + "aurPopularity"@)
            &&& said(last, ARCH@ + "outOfDate"@) == said(first, ARCH@ + "outOfDate"@)
        }),
{
    broadcast use {group_reading, group_arch, group_foaf};

    reveal(aur_package_step_2);
    reveal_strlit("name");
    reveal_strlit("maintainedBy");
    reveal_strlit("packageName");
    reveal_strlit("versionString");
    reveal_strlit("isVersionOf");
    reveal_strlit("description");
    reveal_strlit("homepage");
    reveal_strlit("licenseName");
    reveal_strlit("directlyDependsOn");
    reveal_strlit("dependencyType");
    reveal_strlit("aurVotes");
    reveal_strlit("aurPopularity");
    reveal_strlit("outOfDate");
    match entry.maintainer {
        Some(who) => {
            lemma_maintainer_told(w, package, who, who + "@aur.archlinux.org"@);
        },
        None => {
        },
    }
}

/// Everything that is said of a package of the user repository.
pub open spec fn aur_package_told(
    first: Seq<Fact>,
    last: Seq<Fact>,
    c: ArchCollector,
    entry: AurText,
) -> bool {
    let version = aur_version(entry);
    let package = package_iri("arch"@, "aur"@, "x86_64"@, entry.name, version);
    let identity = identity_iri("arch"@, "aur"@, "x86_64"@, entry.name);
    let ver = version_iri("arch"@, "aur"@, entry.name, version);
    let dist = distro_iri("arch"@);
    &&& said(last, pkg("packageName"@)) == said(first, pkg("packageName"@))
        + seq![to_text(identity, entry.name)]
        + seq![to_text(package, entry.name)]
    &&& said(last, pkg("versionString"@)) == said(first, pkg("versionString"@))
        + seq![to_text(ver, version)]
    &&& said(last, pkg("isVersionOf"@)) == said(first, pkg("isVersionOf"@))
        + seq![to_iri(package, identity)]
    &&& said(last, pkg("description"@)) == said(first, pkg("description"@))
        + text_if(package, entry.description)
    &&& said(last, pkg("homepage"@)) == said(first, pkg("homepage"@)) + text_if(package, entry.url)
    &&& said(last, pkg("licenseName"@)) == said(first, pkg("licenseName"@))
        + in_turn(|k: int| seq![to_text(package, (entry.license[k]))], (entry.license.len()))
    &&& said(last, pkg("maintainedBy"@)) == said(first, pkg("maintainedBy"@))
        + (
            match entry.maintainer {
                Some(who) => seq![to_iri(package, maintainer_iri((who + "@aur.archlinux.org"@)))],
                None => Seq::empty(),
            }
        )
    &&& said(last, pkg("directlyDependsOn"@)) == said(first, pkg("directlyDependsOn"@))
        + in_turn(
            |k: int|
                seq![
                    to_iri(
                        package,
                        identity_iri(
                            "arch"@,
                            "rolling"@,
                            "x86_64"@,
                            dependency_of(
                                regex_captures(DEPENDENCY@, (entry.depends[k])),
                                (entry.depends[k]),
                            ).name,
                        ),
                    ),
                ],
            (entry.depends.len()),
        )
        + in_turn(
            |k: int|
                seq![
                    to_iri(
                        package,
                        identity_iri(
                            "arch"@,
                            "rolling"@,
                            "x86_64"@,
                            dependency_of(
                                regex_captures(DEPENDENCY@, (entry.make_depends[k])),
                                (entry.make_depends[k]),
                            ).name,
                        ),
                    ),
                ],
            (entry.make_depends.len()),
        )
    &&& said(last, pkg("dependencyType"@)) == said(first, pkg("dependencyType"@))
        + in_turn(
            |k: int|
                seq![
                    (
                        Term::Node(
                            bnode_label(
                                ("depends"@),
                                package
                                    + "-"@
                                    + dependency_of(
                                        regex_captures(DEPENDENCY@, (entry.depends[k])),
                                        (entry.depends[k]),
                                    ).name,
                            ),
                        ),
                        Term::Text(("depends"@)),
                    ),
                ],
            (entry.depends.len()),
        )
        + in_turn(
            |k: int|
                seq![
                    (
                        Term::Node(
                            bnode_label(
                                ("makedepends"@),
                                package
                                    + "-"@
                                    + dependency_of(
                                        regex_captures(DEPENDENCY@, (entry.make_depends[k])),
                                        (entry.make_depends[k]),
                                    ).name,
                            ),
                        ),
                        Term::Text(("makedepends"@)),
                    ),
                ],
            (entry.make_depends.len()),
        )
    &&& said(last, ARCH@ + "aurVotes"@) == said(first, ARCH@ + "aurVotes"@)
        + number_if_any(package, entry.num_votes)
    &&& said(last, ARCH@ + "aurPopularity"@) == said(first, ARCH@ + "aurPopularity"@)
        + text_if(package, entry.popularity)
    &&& said(last, ARCH@ + "outOfDate"@) == said(first, ARCH@ + "outOfDate"@)
        + where_so(entry.out_of_date is Some, seq![to_truth(package, true)])
}

proof fn lemma_aur_package_in_steps(w: Sheet, c: ArchCollector, entry: AurText)
    ensures
        with_aur_package_triples(w, c, entry) == ({
            let version = aur_version(entry);
            let package = package_iri("arch"@, "aur"@, "x86_64"@, entry.name, version);
            let identity = identity_iri("arch"@, "aur"@, "x86_64"@, entry.name);
            let w = link(w, package, RDF_TYPE@, pkg("BinaryPackage"@));
            let w = link(w, package, RDF_TYPE@, ARCH@ + "ArchPackage"@);
            let w = link(w, package, RDF_TYPE@, ARCH@ + "AUR"@);
            let w = link(w, identity, RDF_TYPE@, pkg("PackageIdentity"@));
            let w = literal(w, identity, pkg("packageName"@), entry.name);
            let w = link(w, package, pkg("isVersionOf"@), identity);
            let w = literal(w, package, pkg("packageName"@), entry.name);
            let ver = version_iri("arch"@, "aur"@, entry.name, version);
            let w = link(w, ver, RDF_TYPE@, pkg("Version"@));
            let w = literal(w, ver, pkg("versionString"@), version);
            let w = link(w, package, pkg("hasVersion"@), ver);
            let dist = distro_iri("arch"@);
            let w = link(w, package, pkg("partOfDistribution"@), dist);
            let w = maybe_literal(w, package, pkg("description"@), entry.description);
            let w = maybe_literal(w, package, pkg("homepage"@), entry.url);
            let w = maybe_number(w, package, ARCH@ + "aurVotes"@, entry.num_votes);
            let w = maybe_literal(w, package, ARCH@ + "aurPopularity"@, entry.popularity);
            let w = aur_package_step_1(w, entry, package);
            let w = aur_package_step_2(w, entry, package);
            let w = with_arch_deps(w, c, package, entry.depends, "depends"@);
            let w = with_arch_deps(w, c, package, entry.make_depends, "makedepends"@);
            let w = with_each_license_name(w, package, entry.license, entry.license.len());
            w
        }),
{
    reveal(maybe_literal);
    reveal(maybe_number);
    reveal(aur_package_step_1);
    reveal(aur_package_step_2);
}

proof fn lemma_aur_package_steps(w: Sheet, c: ArchCollector, entry: AurText)
    ensures
        aur_package_told(w.log, ({
            let version = aur_version(entry);
            let package = package_iri("arch"@, "aur"@, "x86_64"@, entry.name, version);
            let identity = identity_iri("arch"@, "aur"@, "x86_64"@, entry.name);
            let w = link(w, package, RDF_TYPE@, pkg("BinaryPackage"@));
            let w = link(w, package, RDF_TYPE@, ARCH@ + "ArchPackage"@);
            let w = link(w, package, RDF_TYPE@, ARCH@ + "AUR"@);
            let w = link(w, identity, RDF_TYPE@, pkg("PackageIdentity"@));
            let w = literal(w, identity, pkg("packageName"@), entry.name);
            let w = link(w, package, pkg("isVersionOf"@), identity);
            let w = literal(w, package, pkg("packageName"@), entry.name);
            let ver = version_iri("arch"@, "aur"@, entry.name, version);
            let w = link(w, ver, RDF_TYPE@, pkg("Version"@));
            let w = literal(w, ver, pkg("versionString"@), version);
            let w = link(w, package, pkg("hasVersion"@), ver);
            let dist = distro_iri("arch"@);
            let w = link(w, package, pkg("partOfDistribution"@), dist);
            let w = maybe_literal(w, package, pkg("description"@), entry.description);
            let w = maybe_literal(w, package, pkg("homepage"@), entry.url);
            let w = maybe_number(w, package, ARCH@ + "aurVotes"@, entry.num_votes);
            let w = maybe_literal(w, package, ARCH@ + "aurPopularity"@, entry.popularity);
            let w = aur_package_step_1(w, entry, package);
            let w = aur_package_step_2(w, entry, package);
            let w = with_arch_deps(w, c, package, entry.depends, "depends"@);
            let w = with_arch_deps(w, c, package, entry.make_depends, "makedepends"@);
            let w = with_each_license_name(w, package, entry.license, entry.license.len());
            w
        }).log, c, entry),
{
    broadcast use {group_writes, group_arch, group_foaf};

    reveal_strlit("packageName");
    reveal_strlit("isVersionOf");
    reveal_strlit("versionString");
    reveal_strlit("hasVersion");
    reveal_strlit("partOfDistribution");
    reveal_strlit("description");
    reveal_strlit("homepage");
    reveal_strlit("aurVotes");
    reveal_strlit("aurPopularity");
    reveal_strlit("outOfDate");
    reveal_strlit("name");
    reveal_strlit("maintainedBy");
    reveal_strlit("directlyDependsOn");
    reveal_strlit("hasDependency");
    reveal_strlit("dependencyTarget");
    reveal_strlit("dependencyType");
    reveal_strlit("hasVersionConstraint");
    reveal_strlit("versionConstraintOperator");
    reveal_strlit("versionConstraintValue");
    reveal_strlit("licenseName");
    let version = aur_version(entry);
    let package = package_iri("arch"@, "aur"@, "x86_64"@, entry.name, version);
    let identity = identity_iri("arch"@, "aur"@, "x86_64"@, entry.name);
    let w1 = link(w, package, RDF_TYPE@, pkg("BinaryPackage"@));
    let w2 = link(w1, package, RDF_TYPE@, ARCH@ + "ArchPackage"@);
    let w3 = link(w2, package, RDF_TYPE@, ARCH@ + "AUR"@);
    let w4 = link(w3, identity, RDF_TYPE@, pkg("PackageIdentity"@));
    let w5 = literal(w4, identity, pkg("packageName"@), entry.name);
    let w6 = link(w5, package, pkg("isVersionOf"@), identity);
    let w7 = literal(w6, package, pkg("packageName"@), entry.name);
    let ver = version_iri("arch"@, "aur"@, entry.name, version);
    let w8 = link(w7, ver, RDF_TYPE@, pkg("Version"@));
    let w9 = literal(w8, ver, pkg("versionString"@), version);
    let w10 = link(w9, package, pkg("hasVersion"@), ver);
    let dist = distro_iri("arch"@);
    let w11 = link(w10, package, pkg("partOfDistribution"@), dist);
    let w12 = maybe_literal(w11, package, pkg("description"@), entry.description);
    let w13 = maybe_literal(w12, package, pkg("homepage"@), entry.url);
    let w14 = maybe_number(w13, package, ARCH@ + "aurVotes"@, entry.num_votes);
    let w15 = maybe_literal(w14, package, ARCH@ + "aurPopularity"@, entry.popularity);
    let w16 = aur_package_step_1(w15, entry, package);
    lemma_aur_package_step_1(w15, entry, package);
    let w17 = aur_package_step_2(w16, entry, package);
    lemma_aur_package_step_2(w16, entry, package);
    let w18 = with_arch_deps(w17, c, package, entry.depends, "depends"@);
    lemma_arch_deps_told(w17, c, package, entry.depends, "depends"@);
    let w19 = with_arch_deps(w18, c, package, entry.make_depends, "makedepends"@);
    lemma_arch_deps_told(w18, c, package, entry.make_depends, "makedepends"@);
    let w20 = with_each_license_name(w19, package, entry.license, entry.license.len());
    lemma_each_license_name_told(w19, package, entry.license, entry.license.len());
}

/// What [`with_aur_package_triples`] writes says what [`aur_package_told`] states.
pub proof fn lemma_aur_package_told(
    w: Sheet,
    c: ArchCollector,
    entry: AurText,
)
    ensures
        aur_package_told(w.log, with_aur_package_triples(w, c, entry).log, c, entry),
{
    lemma_aur_package_in_steps(w, c, entry);
    lemma_aur_package_steps(w, c, entry);
}

} // verus!
