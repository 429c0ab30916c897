//! What is said of Conda packages.

use crate::conda::{
    needed, upstream_name, upstream_of, wants_python, with_each_stated_requirement,
    with_package_core, with_package_triples, with_requirement, with_stated_requirement,
    with_upstream, CondaCollector, CondaPackage, Needed,
};
use crate::ntriples::{
    bnode_label, bnode_literal, bnode_object, bnode_subject, bnode_to_bnode, link, literal, pkg,
    Fact, Sheet,
};
use crate::reading::{
    group_conda, group_reading, group_writes, in_turn, maybe_literal, maybe_number, number_if_any,
    said, text_if, to_iri, to_text, where_so, Term,
};
use crate::text::starts_with;
use crate::uris::{
    dep_type_iri, distro_iri, ecosystem_iri, identity_iri, package_iri, spdx_iri, version_iri,
    CONDA, RDF_TYPE,
};
use vstd::prelude::*;

verus! {

#[verifier::opaque]
spec fn requirement_step_1(w: Sheet, package: Seq<char>, need: Needed, node: Seq<char>) -> Sheet {
    if need.constraint.len() > 0 {
        let limit = bnode_label("constraint"@, package + "-"@ + need.name);
        let w = bnode_to_bnode(w, node, pkg("hasVersionConstraint"@), limit);
        let w = bnode_subject(w, limit, RDF_TYPE@, pkg("VersionConstraint"@));
        let w = bnode_literal(w, limit, pkg("versionConstraintOperator"@), "conda"@);
        bnode_literal(w, limit, pkg("versionConstraintValue"@), need.constraint)
    } else {
        w
    }
}

proof fn lemma_requirement_step_1(w: Sheet, package: Seq<char>, need: Needed, node: Seq<char>)
    ensures
        ({
            let first = w.log;
            let last = requirement_step_1(w, package, need, node).log;
            &&& said(last, pkg("hasVersionConstraint"@)) == said(first, pkg("hasVersionConstraint"@))
                + where_so(
                    need.constraint.len() > 0,
                    seq![
                        (
                            Term::Node(node),
                            Term::Node(bnode_label("constraint"@, package + "-"@ + need.name)),
                        ),
                    ],
                )
            &&& said(last, RDF_TYPE@) == said(first, RDF_TYPE@)
                + where_so(
                    need.constraint.len() > 0,
                    seq![
                        (
                            Term::Node(bnode_label("constraint"@, package + "-"@ + need.name)),
                            Term::Iri(pkg("VersionConstraint"@)),
                        ),
                    ],
                )
            &&& said(last, pkg("versionConstraintOperator"@))
                == said(first, pkg("versionConstraintOperator"@))
                + where_so(
                    need.constraint.len() > 0,
                    seq![
                        (
                            Term::Node(bnode_label("constraint"@, package + "-"@ + need.name)),
                            Term::Text("conda"@),
                        ),
                    ],
                )
            &&& said(last, pkg("versionConstraintValue"@))
                == said(first, pkg("versionConstraintValue"@))
                + where_so(
                    need.constraint.len() > 0,
                    seq![
                        (
                            Term::Node(bnode_label("constraint"@, package + "-"@ + need.name)),
                            Term::Text(need.constraint),
                        ),
                    ],
                )
            &&& forall|p: Seq<char>|
                p != pkg("hasVersionConstraint"@)
                    && p != RDF_TYPE@
                    && p != pkg("versionConstraintOperator"@)
                    && p != pkg("versionConstraintValue"@)
                    ==> #[trigger] said(last, p) == said(first, p)
        }),
{
    broadcast use group_reading;

    reveal(requirement_step_1);
    reveal_strlit("hasVersionConstraint");
    reveal_strlit("versionConstraintOperator");
    reveal_strlit("versionConstraintValue");
}

/// What is said of a requirement: that the package depends on the identity of what it
/// names, directly and through a node of its own, with the constraint where there is one.
pub open spec fn requirement_told(
    first: Seq<Fact>,
    last: Seq<Fact>,
    c: CondaCollector,
    package: Seq<char>,
    need: Needed,
) -> bool {
    let target = identity_iri(c.distro_name@, c.release_name@, c.subdir@, need.name);
    let node = bnode_label("depends"@, package + "-"@ + need.name);
    &&& said(last, pkg("directlyDependsOn"@)) == said(first, pkg("directlyDependsOn"@))
        + seq![to_iri(package, target)]
    &&& said(last, pkg("hasDependency"@)) == said(first, pkg("hasDependency"@))
        + seq![(Term::Iri(package), Term::Node(node))]
    &&& said(last, RDF_TYPE@) == said(first, RDF_TYPE@)
        + seq![(Term::Node(node), Term::Iri(pkg("Dependency"@)))]
        + where_so(
            need.constraint.len() > 0,
            seq![
                (
                    Term::Node(bnode_label("constraint"@, package + "-"@ + need.name)),
                    Term::Iri(pkg("VersionConstraint"@)),
                ),
            ],
        )
    &&& said(last, pkg("dependencyTarget"@)) == said(first, pkg("dependencyTarget"@))
        + seq![(Term::Node(node), Term::Iri(target))]
    &&& said(last, pkg("dependencyType"@)) == said(first, pkg("dependencyType"@))
        + seq![(Term::Node(node), Term::Iri(dep_type_iri("run"@)))]
    &&& said(last, pkg("hasVersionConstraint"@)) == said(first, pkg("hasVersionConstraint"@))
        + where_so(
            need.constraint.len() > 0,
            seq![
                (
                    Term::Node(node),
                    Term::Node(bnode_label("constraint"@, package + "-"@ + need.name)),
                ),
            ],
        )
    &&& said(last, pkg("versionConstraintOperator"@)) == said(first, pkg("versionConstraintOperator"@))
        + where_so(
            need.constraint.len() > 0,
            seq![
                (
                    Term::Node(bnode_label("constraint"@, package + "-"@ + need.name)),
                    Term::Text("conda"@),
                ),
            ],
        )
    &&& said(last, pkg("versionConstraintValue"@)) == said(first, pkg("versionConstraintValue"@))
        + where_so(
            need.constraint.len() > 0,
            seq![
                (
                    Term::Node(bnode_label("constraint"@, package + "-"@ + need.name)),
                    Term::Text(need.constraint),
                ),
            ],
        )
    &&& forall|p: Seq<char>|
        p != pkg("directlyDependsOn"@)
            && p != pkg("hasDependency"@)
            && p != RDF_TYPE@
            && p != pkg("dependencyTarget"@)
            && p != pkg("dependencyType"@)
            && p != pkg("hasVersionConstraint"@)
            && p != pkg("versionConstraintOperator"@)
            && p != pkg("versionConstraintValue"@)
            ==> #[trigger] said(last, p) == said(first, p)
}

proof fn lemma_requirement_in_steps(w: Sheet, c: CondaCollector, package: Seq<char>, need: Needed)
    ensures
        with_requirement(w, c, package, need) == ({
            let target = identity_iri(c.distro_name@, c.release_name@, c.subdir@, need.name);
            let w = link(w, package, pkg("directlyDependsOn"@), target);
            let node = bnode_label("depends"@, package + "-"@ + need.name);
            let w = bnode_object(w, package, pkg("hasDependency"@), node);
            let w = bnode_subject(w, node, RDF_TYPE@, pkg("Dependency"@));
            let w = bnode_subject(w, node, pkg("dependencyTarget"@), target);
            let w = bnode_subject(w, node, pkg("dependencyType"@), dep_type_iri("run"@));
            let w = requirement_step_1(w, package, need, node);
            w
        }),
{
    reveal(requirement_step_1);
}

proof fn lemma_requirement_steps(w: Sheet, c: CondaCollector, package: Seq<char>, need: Needed)
    ensures
        requirement_told(w.log, ({
            let target = identity_iri(c.distro_name@, c.release_name@, c.subdir@, need.name);
            let w = link(w, package, pkg("directlyDependsOn"@), target);
            let node = bnode_label("depends"@, package + "-"@ + need.name);
            let w = bnode_object(w, package, pkg("hasDependency"@), node);
            let w = bnode_subject(w, node, RDF_TYPE@, pkg("Dependency"@));
            let w = bnode_subject(w, node, pkg("dependencyTarget"@), target);
            let w = bnode_subject(w, node, pkg("dependencyType"@), dep_type_iri("run"@));
            let w = requirement_step_1(w, package, need, node);
            w
        }).log, c, package, need),
{
    broadcast use group_writes;

    reveal_strlit("directlyDependsOn");
    reveal_strlit("hasDependency");
    reveal_strlit("dependencyTarget");
    reveal_strlit("dependencyType");
    reveal_strlit("hasVersionConstraint");
    reveal_strlit("versionConstraintOperator");
    reveal_strlit("versionConstraintValue");
    let target = identity_iri(c.distro_name@, c.release_name@, c.subdir@, need.name);
    let w1 = link(w, package, pkg("directlyDependsOn"@), target);
    let node = bnode_label("depends"@, package + "-"@ + need.name);
    let w2 = bnode_object(w1, package, pkg("hasDependency"@), node);
    let w3 = bnode_subject(w2, node, RDF_TYPE@, pkg("Dependency"@));
    let w4 = bnode_subject(w3, node, pkg("dependencyTarget"@), target);
    let w5 = bnode_subject(w4, node, pkg("dependencyType"@), dep_type_iri("run"@));
    let w6 = requirement_step_1(w5, package, need, node);
    lemma_requirement_step_1(w5, package, need, node);
}

/// What [`with_requirement`] writes says what [`requirement_told`] states.
pub proof fn lemma_requirement_told(
    w: Sheet,
    c: CondaCollector,
    package: Seq<char>,
    need: Needed,
)
    ensures
        requirement_told(w.log, with_requirement(w, c, package, need).log, c, package, need),
{
    lemma_requirement_in_steps(w, c, package, need);
    lemma_requirement_steps(w, c, package, need);
}

proof fn lemma_stated_requirement_told(
    w: Sheet,
    c: CondaCollector,
    package: Seq<char>,
    text: Seq<char>,
)
    ensures
        ({
            let first = w.log;
            let last = with_stated_requirement(w, c, package, text).log;
            &&& said(last, pkg("directlyDependsOn"@)) == said(first, pkg("directlyDependsOn"@))
                + (
                    match needed(text) {
                        Some(need) => seq![
                            to_iri(
                                package,
                                identity_iri(c.distro_name@, c.release_name@, c.subdir@, need.name),
                            ),
                        ],
                        None => Seq::empty(),
                    }
                )
            &&& said(last, pkg("hasDependency"@)) == said(first, pkg("hasDependency"@))
                + (
                    match needed(text) {
                        Some(need) => seq![
                            (
                                Term::Iri(package),
                                Term::Node(bnode_label("depends"@, package + "-"@ + need.name)),
                            ),
                        ],
                        None => Seq::empty(),
                    }
                )
            &&& said(last, RDF_TYPE@) == said(first, RDF_TYPE@)
                + (
                    match needed(text) {
                        Some(need) => seq![
                            (
                                Term::Node(bnode_label("depends"@, package + "-"@ + need.name)),
                                Term::Iri(pkg("Dependency"@)),
                            ),
                        ],
                        None => Seq::empty(),
                    }
                )
                + (
                    match needed(text) {
                        Some(need) => where_so(
                            need.constraint.len() > 0,
                            seq![
                                (
                                    Term::Node(
                                        bnode_label("constraint"@, package + "-"@ + need.name),
                                    ),
                                    Term::Iri(pkg("VersionConstraint"@)),
                                ),
                            ],
                        ),
                        None => Seq::empty(),
                    }
                )
            &&& said(last, pkg("dependencyTarget"@)) == said(first, pkg("dependencyTarget"@))
                + (
                    match needed(text) {
                        Some(need) => seq![
                            (
                                Term::Node(bnode_label("depends"@, package + "-"@ + need.name)),
                                Term::Iri(
                                    identity_iri(
                                        c.distro_name@,
                                        c.release_name@,
                                        c.subdir@,
                                        need.name,
                                    ),
                                ),
                            ),
                        ],
                        None => Seq::empty(),
                    }
                )
            &&& said(last, pkg("dependencyType"@)) == said(first, pkg("dependencyType"@))
                + (
                    match needed(text) {
                        Some(need) => seq![
                            (
                                Term::Node(bnode_label("depends"@, package + "-"@ + need.name)),
                                Term::Iri(dep_type_iri("run"@)),
                            ),
                        ],
                        None => Seq::empty(),
                    }
                )
            &&& said(last, pkg("hasVersionConstraint"@)) == said(first, pkg("hasVersionConstraint"@))
                + (
                    match needed(text) {
                        Some(need) => where_so(
                            need.constraint.len() > 0,
                            seq![
                                (
                                    Term::Node(bnode_label("depends"@, package + "-"@ + need.name)),
                                    Term::Node(
                                        bnode_label("constraint"@, package + "-"@ + need.name),
                                    ),
                                ),
                            ],
                        ),
                        None => Seq::empty(),
                    }
                )
            &&& said(last, pkg("versionConstraintOperator"@))
                == said(first, pkg("versionConstraintOperator"@))
                + (
                    match needed(text) {
                        Some(need) => where_so(
                            need.constraint.len() > 0,
                            seq![
                                (
                                    Term::Node(
                                        bnode_label("constraint"@, package + "-"@ + need.name),
                                    ),
                                    Term::Text("conda"@),
                                ),
                            ],
                        ),
                        None => Seq::empty(),
                    }
                )
            &&& said(last, pkg("versionConstraintValue"@))
                == said(first, pkg("versionConstraintValue"@))
                + (
                    match needed(text) {
                        Some(need) => where_so(
                            need.constraint.len() > 0,
                            seq![
                                (
                                    Term::Node(
                                        bnode_label("constraint"@, package + "-"@ + need.name),
                                    ),
                                    Term::Text(need.constraint),
                                ),
                            ],
                        ),
                        None => Seq::empty(),
                    }
                )
            &&& forall|p: Seq<char>|
                p != pkg("directlyDependsOn"@)
                    && p != pkg("hasDependency"@)
                    && p != RDF_TYPE@
                    && p != pkg("dependencyTarget"@)
                    && p != pkg("dependencyType"@)
                    && p != pkg("hasVersionConstraint"@)
                    && p != pkg("versionConstraintOperator"@)
                    && p != pkg("versionConstraintValue"@)
                    ==> #[trigger] said(last, p) == said(first, p)
        }),
{
    broadcast use group_reading;

    reveal_strlit("directlyDependsOn");
    reveal_strlit("hasDependency");
    reveal_strlit("dependencyTarget");
    reveal_strlit("dependencyType");
    reveal_strlit("hasVersionConstraint");
    reveal_strlit("versionConstraintOperator");
    reveal_strlit("versionConstraintValue");
    match needed(text) {
        Some(need) => {
            lemma_requirement_told(w, c, package, need);
        },
        None => {
        },
    }
}

proof fn lemma_stated_requirements_told(
    w: Sheet,
    c: CondaCollector,
    package: Seq<char>,
    items: Seq<Seq<char>>,
    n: nat,
)
    ensures
        ({
            let first = w.log;
            let last = with_each_stated_requirement(w, c, package, items, n).log;
            &&& said(last, pkg("directlyDependsOn"@)) == said(first, pkg("directlyDependsOn"@))
                + in_turn(
                    |k: int|
                        (
                            match needed((items[k])) {
                                Some(need) => seq![
                                    to_iri(
                                        package,
                                        identity_iri(
                                            c.distro_name@,
                                            c.release_name@,
                                            c.subdir@,
                                            need.name,
                                        ),
                                    ),
                                ],
                                None => Seq::empty(),
                            }
                        ),
                    n,
                )
            &&& said(last, pkg("hasDependency"@)) == said(first, pkg("hasDependency"@))
                + in_turn(
                    |k: int|
                        (
                            match needed((items[k])) {
                                Some(need) => seq![
                                    (
                                        Term::Iri(package),
                                        Term::Node(
                                            bnode_label("depends"@, package + "-"@ + need.name),
                                        ),
                                    ),
                                ],
                                None => Seq::empty(),
                            }
                        ),
                    n,
                )
            &&& said(last, RDF_TYPE@) == said(first, RDF_TYPE@)
                + in_turn(
                    |k: int|
                        (
                            match needed((items[k])) {
                                Some(need) => seq![
                                    (
                                        Term::Node(
                                            bnode_label("depends"@, package + "-"@ + need.name),
                                        ),
                                        Term::Iri(pkg("Dependency"@)),
                                    ),
                                ],
                                None => Seq::empty(),
                            }
                        )
                            + (
                                match needed((items[k])) {
                                    Some(need) => where_so(
                                        need.constraint.len() > 0,
                                        seq![
                                            (
                                                Term::Node(
                                                    bnode_label(
                                                        "constraint"@,
                                                        package + "-"@ + need.name,
                                                    ),
                                                ),
                                                Term::Iri(pkg("VersionConstraint"@)),
                                            ),
                                        ],
                                    ),
                                    None => Seq::empty(),
                                }
                            ),
                    n,
                )
            &&& said(last, pkg("dependencyTarget"@)) == said(first, pkg("dependencyTarget"@))
                + in_turn(
                    |k: int|
                        (
                            match needed((items[k])) {
                                Some(need) => seq![
                                    (
                                        Term::Node(
                                            bnode_label("depends"@, package + "-"@ + need.name),
                                        ),
                                        Term::Iri(
                                            identity_iri(
                                                c.distro_name@,
                                                c.release_name@,
                                                c.subdir@,
                                                need.name,
                                            ),
                                        ),
                                    ),
                                ],
                                None => Seq::empty(),
                            }
                        ),
                    n,
                )
            &&& said(last, pkg("dependencyType"@)) == said(first, pkg("dependencyType"@))
                + in_turn(
                    |k: int|
                        (
                            match needed((items[k])) {
                                Some(need) => seq![
                                    (
                                        Term::Node(
                                            bnode_label("depends"@, package + "-"@ + need.name),
                                        ),
                                        Term::Iri(dep_type_iri("run"@)),
                                    ),
                                ],
                                None => Seq::empty(),
                            }
                        ),
                    n,
                )
            &&& said(last, pkg("hasVersionConstraint"@)) == said(first, pkg("hasVersionConstraint"@))
                + in_turn(
                    |k: int|
                        (
                            match needed((items[k])) {
                                Some(need) => where_so(
                                    need.constraint.len() > 0,
                                    seq![
                                        (
                                            Term::Node(
                                                bnode_label("depends"@, package + "-"@ + need.name),
                                            ),
                                            Term::Node(
                                                bnode_label(
                                                    "constraint"@,
                                                    package + "-"@ + need.name,
                                                ),
                                            ),
                                        ),
                                    ],
                                ),
                                None => Seq::empty(),
                            }
                        ),
                    n,
                )
            &&& said(last, pkg("versionConstraintOperator"@))
                == said(first, pkg("versionConstraintOperator"@))
                + in_turn(
                    |k: int|
                        (
                            match needed((items[k])) {
                                Some(need) => where_so(
                                    need.constraint.len() > 0,
                                    seq![
                                        (
                                            Term::Node(
                                                bnode_label(
                                                    "constraint"@,
                                                    package + "-"@ + need.name,
                                                ),
                                            ),
                                            Term::Text("conda"@),
                                        ),
                                    ],
                                ),
                                None => Seq::empty(),
                            }
                        ),
                    n,
                )
            &&& said(last, pkg("versionConstraintValue"@))
                == said(first, pkg("versionConstraintValue"@))
                + in_turn(
                    |k: int|
                        (
                            match needed((items[k])) {
                                Some(need) => where_so(
                                    need.constraint.len() > 0,
                                    seq![
                                        (
                                            Term::Node(
                                                bnode_label(
                                                    "constraint"@,
                                                    package + "-"@ + need.name,
                                                ),
                                            ),
                                            Term::Text(need.constraint),
                                        ),
                                    ],
                                ),
                                None => Seq::empty(),
                            }
                        ),
                    n,
                )
            &&& forall|p: Seq<char>|
                p != pkg("directlyDependsOn"@)
                    && p != pkg("hasDependency"@)
                    && p != RDF_TYPE@
                    && p != pkg("dependencyTarget"@)
                    && p != pkg("dependencyType"@)
                    && p != pkg("hasVersionConstraint"@)
                    && p != pkg("versionConstraintOperator"@)
                    && p != pkg("versionConstraintValue"@)
                    ==> #[trigger] said(last, p) == said(first, p)
        }),
    decreases n,
{
    broadcast use group_writes;

    reveal_strlit("directlyDependsOn");
    reveal_strlit("hasDependency");
    reveal_strlit("dependencyTarget");
    reveal_strlit("dependencyType");
    reveal_strlit("hasVersionConstraint");
    reveal_strlit("versionConstraintOperator");
    reveal_strlit("versionConstraintValue");
    if n > 0 {
        lemma_stated_requirements_told(w, c, package, items, (n - 1) as nat);
        lemma_stated_requirement_told(
            with_each_stated_requirement(w, c, package, items, (n - 1) as nat),
            c,
            package,
            items[n - 1],
        );
    }
}

#[verifier::opaque]
spec fn package_core_step_1(w: Sheet, package: Seq<char>, entry: CondaPackage) -> Sheet {
    match entry.license {
        Some(license) => {
            let w = literal(w, package, pkg("licenseName"@), license);
            let node = spdx_iri(license);
            let w = link(w, package, pkg("hasLicense"@), node);
            link(w, node, RDF_TYPE@, pkg("License"@))
        },
        None => w,
    }
}

proof fn lemma_package_core_step_1(w: Sheet, package: Seq<char>, entry: CondaPackage)
    ensures
        ({
            let first = w.log;
            let last = package_core_step_1(w, package, entry).log;
            &&& said(last, pkg("licenseName"@)) == said(first, pkg("licenseName"@))
                + (
                    match entry.license {
                        Some(license) => seq![to_text(package, license)],
                        None => Seq::empty(),
                    }
                )
            &&& said(last, pkg("hasLicense"@)) == said(first, pkg("hasLicense"@))
                + (
                    match entry.license {
                        Some(license) => seq![to_iri(package, spdx_iri(license))],
                        None => Seq::empty(),
                    }
                )
            &&& said(last, RDF_TYPE@) == said(first, RDF_TYPE@)
                + (
                    match entry.license {
                        Some(license) => seq![to_iri(spdx_iri(license), pkg("License"@))],
                        None => Seq::empty(),
                    }
                )
            &&& forall|p: Seq<char>|
                p != pkg("licenseName"@) && p != pkg("hasLicense"@) && p != RDF_TYPE@
                    ==> #[trigger] said(last, p) == said(first, p)
        }),
{
    broadcast use group_reading;

    reveal(package_core_step_1);
    reveal_strlit("licenseName");
    reveal_strlit("hasLicense");
}

/// What is said of a package itself: what it is, its name and version and the identity that
/// it is a version of, its distribution, and its build, license, place, time, checksum and
/// size, where they are known.
pub open spec fn package_core_told(
    first: Seq<Fact>,
    last: Seq<Fact>,
    c: CondaCollector,
    package: Seq<char>,
    entry: CondaPackage,
) -> bool {
    let identity = identity_iri(c.distro_name@, c.release_name@, c.subdir@, entry.name);
    let ver = version_iri(c.distro_name@, c.release_name@, entry.name, entry.version);
    let dist = distro_iri(c.distro_name@);
    &&& said(last, RDF_TYPE@) == said(first, RDF_TYPE@)
        + seq![to_iri(package, pkg("Package"@))]
        + seq![to_iri(package, CONDA@ + "CondaPackage"@)]
        + seq![to_iri(identity, pkg("PackageIdentity"@))]
        + seq![to_iri(ver, pkg("Version"@))]
        + (
            match entry.license {
                Some(license) => seq![to_iri(spdx_iri(license), pkg("License"@))],
                None => Seq::empty(),
            }
        )
    &&& said(last, pkg("packageName"@)) == said(first, pkg("packageName"@))
        + seq![to_text(identity, entry.name)]
        + seq![to_text(package, entry.name)]
    &&& said(last, pkg("isVersionOf"@)) == said(first, pkg("isVersionOf"@))
        + seq![to_iri(package, identity)]
    &&& said(last, pkg("versionString"@)) == said(first, pkg("versionString"@))
        + seq![to_text(ver, entry.version)]
    &&& said(last, pkg("hasVersion"@)) == said(first, pkg("hasVersion"@))
        + seq![to_iri(package, ver)]
    &&& said(last, pkg("partOfDistribution"@)) == said(first, pkg("partOfDistribution"@))
        + seq![to_iri(package, dist)]
    &&& said(last, CONDA@ + "buildString"@) == said(first, CONDA@ + "buildString"@)
        + text_if(package, entry.build)
    &&& said(last, CONDA@ + "buildNumber"@) == said(first, CONDA@ + "buildNumber"@)
        + number_if_any(package, entry.build_number)
    &&& said(last, pkg("licenseName"@)) == said(first, pkg("licenseName"@))
        + (
            match entry.license {
                Some(license) => seq![to_text(package, license)],
                None => Seq::empty(),
            }
        )
    &&& said(last, pkg("hasLicense"@)) == said(first, pkg("hasLicense"@))
        + (
            match entry.license {
                Some(license) => seq![to_iri(package, spdx_iri(license))],
                None => Seq::empty(),
            }
        )
    &&& said(last, CONDA@ + "subdirectory"@) == said(first, CONDA@ + "subdirectory"@)
        + text_if(package, entry.subdir)
    &&& said(last, CONDA@ + "timestamp"@) == said(first, CONDA@ + "timestamp"@)
        + number_if_any(package, entry.timestamp)
    &&& said(last, pkg("checksum"@)) == said(first, pkg("checksum"@))
        + text_if(package, entry.sha256)
    &&& said(last, pkg("packageSize"@)) == said(first, pkg("packageSize"@))
        + number_if_any(package, entry.size)
    &&& forall|p: Seq<char>|
        p != RDF_TYPE@
            && p != pkg("packageName"@)
            && p != pkg("isVersionOf"@)
            && p != pkg("versionString"@)
            && p != pkg("hasVersion"@)
            && p != pkg("partOfDistribution"@)
            && p != CONDA@ + "buildString"@
            && p != CONDA@ + "buildNumber"@
            && p != pkg("licenseName"@)
            && p != pkg("hasLicense"@)
            && p != CONDA@ + "subdirectory"@
            && p != CONDA@ + "timestamp"@
            && p != pkg("checksum"@)
            && p != pkg("packageSize"@)
            ==> #[trigger] said(last, p) == said(first, p)
}

proof fn lemma_package_core_in_steps(
    w: Sheet,
    c: CondaCollector,
    package: Seq<char>,
    entry: CondaPackage,
)
    ensures
        with_package_core(w, c, package, entry) == ({
            let identity = identity_iri(c.distro_name@, c.release_name@, c.subdir@, entry.name);
            let w = link(w, package, RDF_TYPE@, pkg("Package"@));
            let w = link(w, package, RDF_TYPE@, CONDA@ + "CondaPackage"@);
            let w = link(w, identity, RDF_TYPE@, pkg("PackageIdentity"@));
            let w = literal(w, identity, pkg("packageName"@), entry.name);
            let w = link(w, package, pkg("isVersionOf"@), identity);
            let w = literal(w, package, pkg("packageName"@), entry.name);
            let ver = version_iri(c.distro_name@, c.release_name@, entry.name, entry.version);
            let w = link(w, ver, RDF_TYPE@, pkg("Version"@));
            let w = literal(w, ver, pkg("versionString"@), entry.version);
            let w = link(w, package, pkg("hasVersion"@), ver);
            let dist = distro_iri(c.distro_name@);
            let w = link(w, package, pkg("partOfDistribution"@), dist);
            let w = maybe_literal(w, package, CONDA@ + "buildString"@, entry.build);
            let w = maybe_number(w, package, CONDA@ + "buildNumber"@, entry.build_number);
            let w = package_core_step_1(w, package, entry);
            let w = maybe_literal(w, package, CONDA@ + "subdirectory"@, entry.subdir);
            let w = maybe_number(w, package, CONDA@ + "timestamp"@, entry.timestamp);
            let w = maybe_literal(w, package, pkg("checksum"@), entry.sha256);
            let w = maybe_number(w, package, pkg("packageSize"@), entry.size);
            w
        }),
{
    reveal(maybe_literal);
    reveal(maybe_number);
    reveal(package_core_step_1);
}

proof fn lemma_package_core_steps(
    w: Sheet,
    c: CondaCollector,
    package: Seq<char>,
    entry: CondaPackage,
)
    ensures
        package_core_told(w.log, ({
            let identity = identity_iri(c.distro_name@, c.release_name@, c.subdir@, entry.name);
            let w = link(w, package, RDF_TYPE@, pkg("Package"@));
            let w = link(w, package, RDF_TYPE@, CONDA@ + "CondaPackage"@);
            let w = link(w, identity, RDF_TYPE@, pkg("PackageIdentity"@));
            let w = literal(w, identity, pkg("packageName"@), entry.name);
            let w = link(w, package, pkg("isVersionOf"@), identity);
            let w = literal(w, package, pkg("packageName"@), entry.name);
            let ver = version_iri(c.distro_name@, c.release_name@, entry.name, entry.version);
            let w = link(w, ver, RDF_TYPE@, pkg("Version"@));
            let w = literal(w, ver, pkg("versionString"@), entry.version);
            let w = link(w, package, pkg("hasVersion"@), ver);
            let dist = distro_iri(c.distro_name@);
            let w = link(w, package, pkg("partOfDistribution"@), dist);
            let w = maybe_literal(w, package, CONDA@ + "buildString"@, entry.build);
            let w = maybe_number(w, package, CONDA@ + "buildNumber"@, entry.build_number);
            let w = package_core_step_1(w, package, entry);
            let w = maybe_literal(w, package, CONDA@ + "subdirectory"@, entry.subdir);
            let w = maybe_number(w, package, CONDA@ + "timestamp"@, entry.timestamp);
            let w = maybe_literal(w, package, pkg("checksum"@), entry.sha256);
            let w = maybe_number(w, package, pkg("packageSize"@), entry.size);
            w
        }).log, c, package, entry),
{
    broadcast use {group_writes, group_conda};

    reveal_strlit("packageName");
    reveal_strlit("isVersionOf");
    reveal_strlit("versionString");
    reveal_strlit("hasVersion");
    reveal_strlit("partOfDistribution");
    reveal_strlit("buildString");
    reveal_strlit("buildNumber");
    reveal_strlit("licenseName");
    reveal_strlit("hasLicense");
    reveal_strlit("subdirectory");
    reveal_strlit("timestamp");
    reveal_strlit("checksum");
    reveal_strlit("packageSize");
    let identity = identity_iri(c.distro_name@, c.release_name@, c.subdir@, entry.name);
    let w1 = link(w, package, RDF_TYPE@, pkg("Package"@));
    let w2 = link(w1, package, RDF_TYPE@, CONDA@ + "CondaPackage"@);
    let w3 = link(w2, identity, RDF_TYPE@, pkg("PackageIdentity"@));
    let w4 = literal(w3, identity, pkg("packageName"@), entry.name);
    let w5 = link(w4, package, pkg("isVersionOf"@), identity);
    let w6 = literal(w5, package, pkg("packageName"@), entry.name);
    let ver = version_iri(c.distro_name@, c.release_name@, entry.name, entry.version);
    let w7 = link(w6, ver, RDF_TYPE@, pkg("Version"@));
    let w8 = literal(w7, ver, pkg("versionString"@), entry.version);
    let w9 = link(w8, package, pkg("hasVersion"@), ver);
    let dist = distro_iri(c.distro_name@);
    let w10 = link(w9, package, pkg("partOfDistribution"@), dist);
    let w11 = maybe_literal(w10, package, CONDA@ + "buildString"@, entry.build);
    let w12 = maybe_number(w11, package, CONDA@ + "buildNumber"@, entry.build_number);
    let w13 = package_core_step_1(w12, package, entry);
    lemma_package_core_step_1(w12, package, entry);
    let w14 = maybe_literal(w13, package, CONDA@ + "subdirectory"@, entry.subdir);
    let w15 = maybe_number(w14, package, CONDA@ + "timestamp"@, entry.timestamp);
    let w16 = maybe_literal(w15, package, pkg("checksum"@), entry.sha256);
    let w17 = maybe_number(w16, package, pkg("packageSize"@), entry.size);
}

/// What [`with_package_core`] writes says what [`package_core_told`] states.
pub proof fn lemma_package_core_told(
    w: Sheet,
    c: CondaCollector,
    package: Seq<char>,
    entry: CondaPackage,
)
    ensures
        package_core_told(w.log, with_package_core(w, c, package, entry).log, c, package, entry),
{
    lemma_package_core_in_steps(w, c, package, entry);
    lemma_package_core_steps(w, c, package, entry);
}

/// What is said of where a package comes from: the ecosystem, and the name there.
pub open spec fn upstream_told(
    first: Seq<Fact>,
    last: Seq<Fact>,
    package: Seq<char>,
    name: Seq<char>,
    ecosystem: Seq<char>,
) -> bool {
    let node = ecosystem_iri(ecosystem);
    let upstream = upstream_name(name);
    &&& said(last, pkg("upstreamEcosystem"@)) == said(first, pkg("upstreamEcosystem"@))
        + seq![to_iri(package, node)]
    &&& said(last, RDF_TYPE@) == said(first, RDF_TYPE@) + seq![to_iri(node, pkg("Ecosystem"@))]
    &&& said(last, pkg("upstreamPackageName"@)) == said(first, pkg("upstreamPackageName"@))
        + seq![to_text(package, upstream)]
    &&& forall|p: Seq<char>|
        p != pkg("upstreamEcosystem"@) && p != RDF_TYPE@ && p != pkg("upstreamPackageName"@)
            ==> #[trigger] said(last, p) == said(first, p)
}

proof fn lemma_upstream_in_steps(
    w: Sheet,
    package: Seq<char>,
    name: Seq<char>,
    ecosystem: Seq<char>,
)
    ensures
        with_upstream(w, package, name, ecosystem) == ({
            let node = ecosystem_iri(ecosystem);
            let w = link(w, package, pkg("upstreamEcosystem"@), node);
            let w = link(w, node, RDF_TYPE@, pkg("Ecosystem"@));
            let upstream = upstream_name(name);
            let w = literal(w, package, pkg("upstreamPackageName"@), upstream);
            w
        }),
{
}

proof fn lemma_upstream_steps(w: Sheet, package: Seq<char>, name: Seq<char>, ecosystem: Seq<char>)
    ensures
        upstream_told(w.log, ({
            let node = ecosystem_iri(ecosystem);
            let w = link(w, package, pkg("upstreamEcosystem"@), node);
            let w = link(w, node, RDF_TYPE@, pkg("Ecosystem"@));
            let upstream = upstream_name(name);
            let w = literal(w, package, pkg("upstreamPackageName"@), upstream);
            w
        }).log, package, name, ecosystem),
{
    broadcast use group_writes;

    reveal_strlit("upstreamEcosystem");
    reveal_strlit("upstreamPackageName");
    let node = ecosystem_iri(ecosystem);
    let w1 = link(w, package, pkg("upstreamEcosystem"@), node);
    let w2 = link(w1, node, RDF_TYPE@, pkg("Ecosystem"@));
    let upstream = upstream_name(name);
    let w3 = literal(w2, package, pkg("upstreamPackageName"@), upstream);
}

/// What [`with_upstream`] writes says what [`upstream_told`] states.
pub proof fn lemma_upstream_told(
    w: Sheet,
    package: Seq<char>,
    name: Seq<char>,
    ecosystem: Seq<char>,
)
    ensures
        upstream_told(
            w.log,
            with_upstream(w, package, name, ecosystem).log,
            package,
            name,
            ecosystem,
        ),
{
    lemma_upstream_in_steps(w, package, name, ecosystem);
    lemma_upstream_steps(w, package, name, ecosystem);
}

#[verifier::opaque]
spec fn package_step_1(w: Sheet, entry: CondaPackage, package: Seq<char>) -> Sheet {
    match upstream_of(entry.name, wants_python(entry.depends, entry.depends.len())) {
        Some(ecosystem) => { with_upstream(w, package, entry.name, ecosystem) },
        None => w,
    }
}

proof fn lemma_package_step_1(w: Sheet, entry: CondaPackage, package: Seq<char>)
    ensures
        ({
            let first = w.log;
            let last = package_step_1(w, entry, package).log;
            &&& said(last, pkg("upstreamEcosystem"@)) == said(first, pkg("upstreamEcosystem"@))
                + (
                    match upstream_of(entry.name, wants_python(entry.depends, entry.depends.len())) {
                        Some(ecosystem) => seq![to_iri(package, ecosystem_iri(ecosystem))],
                        None => Seq::empty(),
                    }
                )
            &&& said(last, RDF_TYPE@) == said(first, RDF_TYPE@)
                + (
                    match upstream_of(entry.name, wants_python(entry.depends, entry.depends.len())) {
                        Some(ecosystem) => seq![
                            to_iri(ecosystem_iri(ecosystem), pkg("Ecosystem"@)),
                        ],
                        None => Seq::empty(),
                    }
                )
            &&& said(last, pkg("upstreamPackageName"@)) == said(first, pkg("upstreamPackageName"@))
                + (
                    match upstream_of(entry.name, wants_python(entry.depends, entry.depends.len())) {
                        Some(ecosystem) => seq![to_text(package, upstream_name(entry.name))],
                        None => Seq::empty(),
                    }
                )
            &&& forall|p: Seq<char>|
                p != pkg("upstreamEcosystem"@) && p != RDF_TYPE@ && p != pkg("upstreamPackageName"@)
                    ==> #[trigger] said(last, p) == said(first, p)
        }),
{
    broadcast use group_reading;

    reveal(package_step_1);
    reveal_strlit("upstreamEcosystem");
    reveal_strlit("upstreamPackageName");
    match upstream_of(entry.name, wants_python(entry.depends, entry.depends.len())) {
        Some(ecosystem) => {
            lemma_upstream_told(w, package, entry.name, ecosystem);
        },
        None => {
        },
    }
}

/// Everything that is said of a package: what is said of it itself, that it depends on
/// every package that its requirements name, and on no other, and the ecosystem that it is
/// taken from, where one is known.
pub open spec fn package_told(
    first: Seq<Fact>,
    last: Seq<Fact>,
    c: CondaCollector,
    entry: CondaPackage,
) -> bool {
    let package = package_iri(c.distro_name@, c.release_name@, c.subdir@, entry.name, entry.version);
    &&& said(last, RDF_TYPE@) == said(first, RDF_TYPE@)
        + seq![to_iri(package, pkg("Package"@))]
        + seq![to_iri(package, CONDA@ + "CondaPackage"@)]
        + seq![
            to_iri(
                identity_iri(c.distro_name@, c.release_name@, c.subdir@, entry.name),
                pkg("PackageIdentity"@),
            ),
        ]
        + seq![
            to_iri(
                version_iri(c.distro_name@, c.release_name@, entry.name, entry.version),
                pkg("Version"@),
            ),
        ]
        + (
            match entry.license {
                Some(license) => seq![to_iri(spdx_iri(license), pkg("License"@))],
                None => Seq::empty(),
            }
        )
        + in_turn(
            |k: int|
                (
                    match needed((entry.depends[k])) {
                        Some(need) => seq![
                            (
                                Term::Node(bnode_label("depends"@, package + "-"@ + need.name)),
                                Term::Iri(pkg("Dependency"@)),
                            ),
                        ],
                        None => Seq::empty(),
                    }
                )
                    + (
                        match needed((entry.depends[k])) {
                            Some(need) => where_so(
                                need.constraint.len() > 0,
                                seq![
                                    (
                                        Term::Node(
                                            bnode_label("constraint"@, package + "-"@ + need.name),
                                        ),
                                        Term::Iri(pkg("VersionConstraint"@)),
                                    ),
                                ],
                            ),
                            None => Seq::empty(),
                        }
                    ),
            (entry.depends.len()),
        )
        + (
            match upstream_of(entry.name, wants_python(entry.depends, entry.depends.len())) {
                Some(ecosystem) => seq![to_iri(ecosystem_iri(ecosystem), pkg("Ecosystem"@))],
                None => Seq::empty(),
            }
        )
    &&& said(last, pkg("packageName"@)) == said(first, pkg("packageName"@))
        + seq![
            to_text(
                identity_iri(c.distro_name@, c.release_name@, c.subdir@, entry.name),
                entry.name,
            ),
        ]
        + seq![to_text(package, entry.name)]
    &&& said(last, pkg("isVersionOf"@)) == said(first, pkg("isVersionOf"@))
        + seq![
            to_iri(package, identity_iri(c.distro_name@, c.release_name@, c.subdir@, entry.name)),
        ]
    &&& said(last, pkg("versionString"@)) == said(first, pkg("versionString"@))
        + seq![
            to_text(
                version_iri(c.distro_name@, c.release_name@, entry.name, entry.version),
                entry.version,
            ),
        ]
    &&& said(last, pkg("hasVersion"@)) == said(first, pkg("hasVersion"@))
        + seq![
            to_iri(
                package,
                version_iri(c.distro_name@, c.release_name@, entry.name, entry.version),
            ),
        ]
    &&& said(last, pkg("partOfDistribution"@)) == said(first, pkg("partOfDistribution"@))
        + seq![to_iri(package, distro_iri(c.distro_name@))]
    &&& said(last, CONDA@ + "buildString"@) == said(first, CONDA@ + "buildString"@)
        + text_if(package, entry.build)
    &&& said(last, CONDA@ + "buildNumber"@) == said(first, CONDA@ + "buildNumber"@)
        + number_if_any(package, entry.build_number)
    &&& said(last, pkg("licenseName"@)) == said(first, pkg("licenseName"@))
        + (
            match entry.license {
                Some(license) => seq![to_text(package, license)],
                None => Seq::empty(),
            }
        )
    &&& said(last, pkg("hasLicense"@)) == said(first, pkg("hasLicense"@))
        + (
            match entry.license {
                Some(license) => seq![to_iri(package, spdx_iri(license))],
                None => Seq::empty(),
            }
        )
    &&& said(last, CONDA@ + "subdirectory"@) == said(first, CONDA@ + "subdirectory"@)
        + text_if(package, entry.subdir)
    &&& said(last, CONDA@ + "timestamp"@) == said(first, CONDA@ + "timestamp"@)
        + number_if_any(package, entry.timestamp)
    &&& said(last, pkg("checksum"@)) == said(first, pkg("checksum"@))
        + text_if(package, entry.sha256)
    &&& said(last, pkg("packageSize"@)) == said(first, pkg("packageSize"@))
        + number_if_any(package, entry.size)
    &&& said(last, pkg("directlyDependsOn"@)) == said(first, pkg("directlyDependsOn"@))
        + in_turn(
            |k: int|
                (
                    match needed((entry.depends[k])) {
                        Some(need) => seq![
                            to_iri(
                                package,
                                identity_iri(c.distro_name@, c.release_name@, c.subdir@, need.name),
                            ),
                        ],
                        None => Seq::empty(),
                    }
                ),
            (entry.depends.len()),
        )
    &&& said(last, pkg("hasDependency"@)) == said(first, pkg("hasDependency"@))
        + in_turn(
            |k: int|
                (
                    match needed((entry.depends[k])) {
                        Some(need) => seq![
                            (
                                Term::Iri(package),
                                Term::Node(bnode_label("depends"@, package + "-"@ + need.name)),
                            ),
                        ],
                        None => Seq::empty(),
                    }
                ),
            (entry.depends.len()),
        )
    &&& said(last, pkg("dependencyTarget"@)) == said(first, pkg("dependencyTarget"@))
        + in_turn(
            |k: int|
                (
                    match needed((entry.depends[k])) {
                        Some(need) => seq![
                            (
                                Term::Node(bnode_label("depends"@, package + "-"@ + need.name)),
                                Term::Iri(
                                    identity_iri(
                                        c.distro_name@,
                                        c.release_name@,
                                        c.subdir@,
                                        need.name,
                                    ),
                                ),
                            ),
                        ],
                        None => Seq::empty(),
                    }
                ),
            (entry.depends.len()),
        )
    &&& said(last, pkg("dependencyType"@)) == said(first, pkg("dependencyType"@))
        + in_turn(
            |k: int|
                (
                    match needed((entry.depends[k])) {
                        Some(need) => seq![
                            (
                                Term::Node(bnode_label("depends"@, package + "-"@ + need.name)),
                                Term::Iri(dep_type_iri("run"@)),
                            ),
                        ],
                        None => Seq::empty(),
                    }
                ),
            (entry.depends.len()),
        )
    &&& said(last, pkg("hasVersionConstraint"@)) == said(first, pkg("hasVersionConstraint"@))
        + in_turn(
            |k: int|
                (
                    match needed((entry.depends[k])) {
                        Some(need) => where_so(
                            need.constraint.len() > 0,
                            seq![
                                (
                                    Term::Node(bnode_label("depends"@, package + "-"@ + need.name)),
                                    Term::Node(
                                        bnode_label("constraint"@, package + "-"@ + need.name),
                                    ),
                                ),
                            ],
                        ),
                        None => Seq::empty(),
                    }
                ),
            (entry.depends.len()),
        )
    &&& said(last, pkg("versionConstraintOperator"@)) == said(first, pkg("versionConstraintOperator"@))
        + in_turn(
            |k: int|
                (
                    match needed((entry.depends[k])) {
                        Some(need) => where_so(
                            need.constraint.len() > 0,
                            seq![
                                (
                                    Term::Node(
                                        bnode_label("constraint"@, package + "-"@ + need.name),
                                    ),
                                    Term::Text("conda"@),
                                ),
                            ],
                        ),
                        None => Seq::empty(),
                    }
                ),
            (entry.depends.len()),
        )
    &&& said(last, pkg("versionConstraintValue"@)) == said(first, pkg("versionConstraintValue"@))
        + in_turn(
            |k: int|
                (
                    match needed((entry.depends[k])) {
                        Some(need) => where_so(
                            need.constraint.len() > 0,
                            seq![
                                (
                                    Term::Node(
                                        bnode_label("constraint"@, package + "-"@ + need.name),
                                    ),
                                    Term::Text(need.constraint),
                                ),
                            ],
                        ),
                        None => Seq::empty(),
                    }
                ),
            (entry.depends.len()),
        )
    &&& said(last, pkg("upstreamEcosystem"@)) == said(first, pkg("upstreamEcosystem"@))
        + (
            match upstream_of(entry.name, wants_python(entry.depends, entry.depends.len())) {
                Some(ecosystem) => seq![to_iri(package, ecosystem_iri(ecosystem))],
                None => Seq::empty(),
            }
        )
    &&& said(last, pkg("upstreamPackageName"@)) == said(first, pkg("upstreamPackageName"@))
        + (
            match upstream_of(entry.name, wants_python(entry.depends, entry.depends.len())) {
                Some(ecosystem) => seq![to_text(package, upstream_name(entry.name))],
                None => Seq::empty(),
            }
        )
    &&& forall|p: Seq<char>|
        p != RDF_TYPE@
            && p != pkg("packageName"@)
            && p != pkg("isVersionOf"@)
            && p != pkg("versionString"@)
            && p != pkg("hasVersion"@)
            && p != pkg("partOfDistribution"@)
            && p != CONDA@ + "buildString"@
            && p != CONDA@ + "buildNumber"@
            && p != pkg("licenseName"@)
            && p != pkg("hasLicense"@)
            && p != CONDA@ + "subdirectory"@
            && p != CONDA@ + "timestamp"@
            && p != pkg("checksum"@)
            && p != pkg("packageSize"@)
            && p != pkg("directlyDependsOn"@)
            && p != pkg("hasDependency"@)
            && p != pkg("dependencyTarget"@)
            && p != pkg("dependencyType"@)
            && p != pkg("hasVersionConstraint"@)
            && p != pkg("versionConstraintOperator"@)
            && p != pkg("versionConstraintValue"@)
            && p != pkg("upstreamEcosystem"@)
            && p != pkg("upstreamPackageName"@)
            ==> #[trigger] said(last, p) == said(first, p)
}

proof fn lemma_package_in_steps(w: Sheet, c: CondaCollector, entry: CondaPackage)
    ensures
        with_package_triples(w, c, entry) == ({
            let package = package_iri(
                c.distro_name@,
                c.release_name@,
                c.subdir@,
                entry.name,
                entry.version,
            );
            let w = with_package_core(w, c, package, entry);
            let w = with_each_stated_requirement(w, c, package, entry.depends, entry.depends.len());
            let w = package_step_1(w, entry, package);
            w
        }),
{
    reveal(package_step_1);
}

proof fn lemma_package_steps(w: Sheet, c: CondaCollector, entry: CondaPackage)
    ensures
        package_told(w.log, ({
            let package = package_iri(
                c.distro_name@,
                c.release_name@,
                c.subdir@,
                entry.name,
                entry.version,
            );
            let w = with_package_core(w, c, package, entry);
            let w = with_each_stated_requirement(w, c, package, entry.depends, entry.depends.len());
            let w = package_step_1(w, entry, package);
            w
        }).log, c, entry),
{
    broadcast use {group_writes, group_conda};

    reveal_strlit("packageName");
    reveal_strlit("isVersionOf");
    reveal_strlit("versionString");
    reveal_strlit("hasVersion");
    reveal_strlit("partOfDistribution");
    reveal_strlit("buildString");
    reveal_strlit("buildNumber");
    reveal_strlit("licenseName");
    reveal_strlit("hasLicense");
    reveal_strlit("subdirectory");
    reveal_strlit("timestamp");
    reveal_strlit("checksum");
    reveal_strlit("packageSize");
    reveal_strlit("directlyDependsOn");
    reveal_strlit("hasDependency");
    reveal_strlit("dependencyTarget");
    reveal_strlit("dependencyType");
    reveal_strlit("hasVersionConstraint");
    reveal_strlit("versionConstraintOperator");
    reveal_strlit("versionConstraintValue");
    reveal_strlit("upstreamEcosystem");
    reveal_strlit("upstreamPackageName");
    let package = package_iri(c.distro_name@, c.release_name@, c.subdir@, entry.name, entry.version);
    let w1 = with_package_core(w, c, package, entry);
    lemma_package_core_told(w, c, package, entry);
    let w2 = with_each_stated_requirement(w1, c, package, entry.depends, entry.depends.len());
    lemma_stated_requirements_told(w1, c, package, entry.depends, entry.depends.len());
    let w3 = package_step_1(w2, entry, package);
    lemma_package_step_1(w2, entry, package);
}

/// What [`with_package_triples`] writes says what [`package_told`] states.
pub proof fn lemma_package_told(
    w: Sheet,
    c: CondaCollector,
    entry: CondaPackage,
)
    ensures
        package_told(w.log, with_package_triples(w, c, entry).log, c, entry),
{
    lemma_package_in_steps(w, c, entry);
    lemma_package_steps(w, c, entry);
}

/// Which ecosystem a package is taken from: one that needs Python is of PyPI, whatever it
/// is called; else the prefix of its name decides.
pub proof fn lemma_upstream(depends: Seq<Seq<char>>, name: Seq<char>, rest: Seq<char>)
    ensures
        (exists|i: int|
            0 <= i < depends.len() && (#[trigger] needed(depends[i]) matches Some(x)
                && starts_with(x.name, "python"@))) ==> upstream_of(
            name,
            wants_python(depends, depends.len()),
        ) == Some("pypi"@),
        (forall|i: int|
            0 <= i < depends.len() ==> !(#[trigger] needed(depends[i]) matches Some(x)
                && starts_with(x.name, "python"@))) ==> {
            let python = wants_python(depends, depends.len());
            &&& upstream_of("r-"@ + rest, python) == Some("cran"@)
            &&& upstream_of("rust-"@ + rest, python) == Some("cargo"@)
        },
        upstream_name("r-"@ + rest) == rest,
        upstream_name("rust-"@ + rest) == rest,
        !starts_with(name, "r-"@) && !starts_with(name, "rust-"@) ==> upstream_name(name) == name,
{
    lemma_wants_python(depends, depends.len());
    reveal_strlit("r-");
    reveal_strlit("rust-");
    let r = "r-"@ + rest;
    let rust = "rust-"@ + rest;
    assert(r.take(2) =~= "r-"@);
    assert(rust.take(5) =~= "rust-"@);
    assert(rust.take(2)[1] == 'u');
    assert(r.skip(2) =~= rest);
    assert(rust.skip(5) =~= rest);
}

proof fn lemma_wants_python(depends: Seq<Seq<char>>, n: nat)
    requires
        n <= depends.len(),
    ensures
        wants_python(depends, n) == exists|i: int|
            0 <= i < n && (#[trigger] needed(depends[i]) matches Some(x) && starts_with(
                x.name,
                "python"@,
            )),
    decreases n,
{
    if n > 0 {
        lemma_wants_python(depends, (n - 1) as nat);
        let last = needed(depends[n - 1]);
    }
}

} // verus!
