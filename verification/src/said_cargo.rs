//! What is said of crates.

use crate::cargo_collect::{
    crate_dep_views, dep_kind, stable_version, version_at, with_crate_dep, with_crate_deps,
    with_crate_triples, with_crate_version, with_distribution_metadata, with_each_crate_dep,
    with_each_feature, with_feature, with_listed_version, CargoCollector, CrateDep, CrateNeed,
    CrateRelease, CrateReply,
};
use crate::ntriples::{
    bnode_label, bnode_literal, bnode_object, bnode_subject, link, literal, pkg, Fact, Sheet,
};
use crate::reading::{
    group_cargo, group_reading, group_writes, in_turn, maybe_literal, maybe_number, number_if_any,
    said, text_if, to_iri, to_text, where_so, Term,
};
use crate::uris::{distro_iri, identity_iri, package_iri, release_iri, version_iri, CARGO, RDF_TYPE};
use vstd::prelude::*;

verus! {

/// What is said of the distribution and its release.
pub open spec fn distribution_told(
    first: Seq<Fact>,
    last: Seq<Fact>,
    c: CargoCollector,
) -> bool {
    let dist = distro_iri("cargo"@);
    let rel = release_iri("cargo"@, "crates.io"@);
    &&& said(last, RDF_TYPE@) == said(first, RDF_TYPE@)
        + seq![to_iri(dist, pkg("Distribution"@))]
        + seq![to_iri(rel, pkg("DistributionRelease"@))]
    &&& said(last, pkg("projectName"@)) == said(first, pkg("projectName"@))
        + seq![to_text(dist, "crates.io"@)]
    &&& said(last, pkg("releaseCodename"@)) == said(first, pkg("releaseCodename"@))
        + seq![to_text(rel, "crates.io"@)]
    &&& said(last, pkg("partOfDistribution"@)) == said(first, pkg("partOfDistribution"@))
        + seq![to_iri(rel, dist)]
    &&& forall|q: Seq<char>|
        q != RDF_TYPE@
            && q != pkg("projectName"@)
            && q != pkg("releaseCodename"@)
            && q != pkg("partOfDistribution"@)
            ==> #[trigger] said(last, q) == said(first, q)
}

proof fn lemma_distribution_in_steps(w: Sheet, c: CargoCollector)
    ensures
        with_distribution_metadata(w, c) == ({
            let dist = distro_iri("cargo"@);
            let rel = release_iri("cargo"@, "crates.io"@);
            let w = link(w, dist, RDF_TYPE@, pkg("Distribution"@));
            let w = literal(w, dist, pkg("projectName"@), "crates.io"@);
            let w = link(w, rel, RDF_TYPE@, pkg("DistributionRelease"@));
            let w = literal(w, rel, pkg("releaseCodename"@), "crates.io"@);
            let w = link(w, rel, pkg("partOfDistribution"@), dist);
            w
        }),
{
}

proof fn lemma_distribution_steps(w: Sheet, c: CargoCollector)
    ensures
        distribution_told(w.log, ({
            let dist = distro_iri("cargo"@);
            let rel = release_iri("cargo"@, "crates.io"@);
            let w = link(w, dist, RDF_TYPE@, pkg("Distribution"@));
            let w = literal(w, dist, pkg("projectName"@), "crates.io"@);
            let w = link(w, rel, RDF_TYPE@, pkg("DistributionRelease"@));
            let w = literal(w, rel, pkg("releaseCodename"@), "crates.io"@);
            let w = link(w, rel, pkg("partOfDistribution"@), dist);
            w
        }).log, c),
{
    broadcast use group_writes;

    reveal_strlit("projectName");
    reveal_strlit("releaseCodename");
    reveal_strlit("partOfDistribution");
    let dist = distro_iri("cargo"@);
    let rel = release_iri("cargo"@, "crates.io"@);
    let w1 = link(w, dist, RDF_TYPE@, pkg("Distribution"@));
    let w2 = literal(w1, dist, pkg("projectName"@), "crates.io"@);
    let w3 = link(w2, rel, RDF_TYPE@, pkg("DistributionRelease"@));
    let w4 = literal(w3, rel, pkg("releaseCodename"@), "crates.io"@);
    let w5 = link(w4, rel, pkg("partOfDistribution"@), dist);
}

/// What [`with_distribution_metadata`] writes says what [`distribution_told`] states.
pub proof fn lemma_distribution_told(
    w: Sheet,
    c: CargoCollector,
)
    ensures
        distribution_told(w.log, with_distribution_metadata(w, c).log, c),
{
    lemma_distribution_in_steps(w, c);
    lemma_distribution_steps(w, c);
}

#[verifier::opaque]
spec fn crate_dep_step_1(w: Sheet, package: Seq<char>, dep: CrateNeed, node: Seq<char>) -> Sheet {
    if dep.req.len() > 0 {
        let limit = bnode_label("constraint"@, package + "-"@ + dep.crate_id);
        let w = bnode_object(w, node, pkg("hasVersionConstraint"@), limit);
        let w = bnode_subject(w, limit, RDF_TYPE@, pkg("VersionConstraint"@));
        let w = bnode_literal(w, limit, pkg("versionConstraintOperator"@), "semver"@);
        bnode_literal(w, limit, pkg("versionConstraintValue"@), dep.req)
    } else {
        w
    }
}

proof fn lemma_crate_dep_step_1(w: Sheet, package: Seq<char>, dep: CrateNeed, node: Seq<char>)
    ensures
        ({
            let first = w.log;
            let last = crate_dep_step_1(w, package, dep, node).log;
            &&& said(last, pkg("hasVersionConstraint"@)) == said(first, pkg("hasVersionConstraint"@))
                + where_so(
                    dep.req.len() > 0,
                    seq![
                        (
                            Term::Iri(node),
                            Term::Node(bnode_label("constraint"@, package + "-"@ + dep.crate_id)),
                        ),
                    ],
                )
            &&& said(last, RDF_TYPE@) == said(first, RDF_TYPE@)
                + where_so(
                    dep.req.len() > 0,
                    seq![
                        (
                            Term::Node(bnode_label("constraint"@, package + "-"@ + dep.crate_id)),
                            Term::Iri(pkg("VersionConstraint"@)),
                        ),
                    ],
                )
            &&& said(last, pkg("versionConstraintOperator"@))
                == said(first, pkg("versionConstraintOperator"@))
                + where_so(
                    dep.req.len() > 0,
                    seq![
                        (
                            Term::Node(bnode_label("constraint"@, package + "-"@ + dep.crate_id)),
                            Term::Text("semver"@),
                        ),
                    ],
                )
            &&& said(last, pkg("versionConstraintValue"@))
                == said(first, pkg("versionConstraintValue"@))
                + where_so(
                    dep.req.len() > 0,
                    seq![
                        (
                            Term::Node(bnode_label("constraint"@, package + "-"@ + dep.crate_id)),
                            Term::Text(dep.req),
                        ),
                    ],
                )
            &&& forall|q: Seq<char>|
                q != pkg("hasVersionConstraint"@)
                    && q != RDF_TYPE@
                    && q != pkg("versionConstraintOperator"@)
                    && q != pkg("versionConstraintValue"@)
                    ==> #[trigger] said(last, q) == said(first, q)
        }),
{
    broadcast use group_reading;

    reveal(crate_dep_step_1);
    reveal_strlit("hasVersionConstraint");
    reveal_strlit("versionConstraintOperator");
    reveal_strlit("versionConstraintValue");
}

/// What is said of a dependency: that the crate depends on the identity of what is named,
/// directly and through a node of its own, which has the kind and, where it has one, the
/// requirement.
pub open spec fn crate_dep_told(
    first: Seq<Fact>,
    last: Seq<Fact>,
    package: Seq<char>,
    dep: CrateNeed,
) -> bool {
    let kind = dep_kind(dep.kind);
    let target = identity_iri("cargo"@, "crates.io"@, "any"@, dep.crate_id);
    let node = bnode_label(kind, package + "-"@ + dep.crate_id);
    &&& said(last, pkg("directlyDependsOn"@)) == said(first, pkg("directlyDependsOn"@))
        + seq![to_iri(package, target)]
    &&& said(last, pkg("hasDependency"@)) == said(first, pkg("hasDependency"@))
        + seq![(Term::Iri(package), Term::Node(node))]
    &&& said(last, RDF_TYPE@) == said(first, RDF_TYPE@)
        + seq![(Term::Node(node), Term::Iri(pkg("Dependency"@)))]
        + where_so(
            dep.req.len() > 0,
            seq![
                (
                    Term::Node(bnode_label("constraint"@, package + "-"@ + dep.crate_id)),
                    Term::Iri(pkg("VersionConstraint"@)),
                ),
            ],
        )
    &&& said(last, pkg("dependencyTarget"@)) == said(first, pkg("dependencyTarget"@))
        + seq![(Term::Node(node), Term::Iri(target))]
    &&& said(last, pkg("dependencyType"@)) == said(first, pkg("dependencyType"@))
        + seq![(Term::Node(node), Term::Text(kind))]
    &&& said(last, pkg("hasVersionConstraint"@)) == said(first, pkg("hasVersionConstraint"@))
        + where_so(
            dep.req.len() > 0,
            seq![
                (
                    Term::Iri(node),
                    Term::Node(bnode_label("constraint"@, package + "-"@ + dep.crate_id)),
                ),
            ],
        )
    &&& said(last, pkg("versionConstraintOperator"@)) == said(first, pkg("versionConstraintOperator"@))
        + where_so(
            dep.req.len() > 0,
            seq![
                (
                    Term::Node(bnode_label("constraint"@, package + "-"@ + dep.crate_id)),
                    Term::Text("semver"@),
                ),
            ],
        )
    &&& said(last, pkg("versionConstraintValue"@)) == said(first, pkg("versionConstraintValue"@))
        + where_so(
            dep.req.len() > 0,
            seq![
                (
                    Term::Node(bnode_label("constraint"@, package + "-"@ + dep.crate_id)),
                    Term::Text(dep.req),
                ),
            ],
        )
    &&& forall|q: Seq<char>|
        q != pkg("directlyDependsOn"@)
            && q != pkg("hasDependency"@)
            && q != RDF_TYPE@
            && q != pkg("dependencyTarget"@)
            && q != pkg("dependencyType"@)
            && q != pkg("hasVersionConstraint"@)
            && q != pkg("versionConstraintOperator"@)
            && q != pkg("versionConstraintValue"@)
            ==> #[trigger] said(last, q) == said(first, q)
}

proof fn lemma_crate_dep_in_steps(w: Sheet, package: Seq<char>, dep: CrateNeed)
    ensures
        with_crate_dep(w, package, dep) == ({
            let kind = dep_kind(dep.kind);
            let target = identity_iri("cargo"@, "crates.io"@, "any"@, dep.crate_id);
            let w = link(w, package, pkg("directlyDependsOn"@), target);
            let node = bnode_label(kind, package + "-"@ + dep.crate_id);
            let w = bnode_object(w, package, pkg("hasDependency"@), node);
            let w = bnode_subject(w, node, RDF_TYPE@, pkg("Dependency"@));
            let w = bnode_subject(w, node, pkg("dependencyTarget"@), target);
            let w = bnode_literal(w, node, pkg("dependencyType"@), kind);
            let w = crate_dep_step_1(w, package, dep, node);
            w
        }),
{
    reveal(crate_dep_step_1);
}

proof fn lemma_crate_dep_steps(w: Sheet, package: Seq<char>, dep: CrateNeed)
    ensures
        crate_dep_told(w.log, ({
            let kind = dep_kind(dep.kind);
            let target = identity_iri("cargo"@, "crates.io"@, "any"@, dep.crate_id);
            let w = link(w, package, pkg("directlyDependsOn"@), target);
            let node = bnode_label(kind, package + "-"@ + dep.crate_id);
            let w = bnode_object(w, package, pkg("hasDependency"@), node);
            let w = bnode_subject(w, node, RDF_TYPE@, pkg("Dependency"@));
            let w = bnode_subject(w, node, pkg("dependencyTarget"@), target);
            let w = bnode_literal(w, node, pkg("dependencyType"@), kind);
            let w = crate_dep_step_1(w, package, dep, node);
            w
        }).log, package, dep),
{
    broadcast use group_writes;

    reveal_strlit("directlyDependsOn");
    reveal_strlit("hasDependency");
    reveal_strlit("dependencyTarget");
    reveal_strlit("dependencyType");
    reveal_strlit("hasVersionConstraint");
    reveal_strlit("versionConstraintOperator");
    reveal_strlit("versionConstraintValue");
    let kind = dep_kind(dep.kind);
    let target = identity_iri("cargo"@, "crates.io"@, "any"@, dep.crate_id);
    let w1 = link(w, package, pkg("directlyDependsOn"@), target);
    let node = bnode_label(kind, package + "-"@ + dep.crate_id);
    let w2 = bnode_object(w1, package, pkg("hasDependency"@), node);
    let w3 = bnode_subject(w2, node, RDF_TYPE@, pkg("Dependency"@));
    let w4 = bnode_subject(w3, node, pkg("dependencyTarget"@), target);
    let w5 = bnode_literal(w4, node, pkg("dependencyType"@), kind);
    let w6 = crate_dep_step_1(w5, package, dep, node);
    lemma_crate_dep_step_1(w5, package, dep, node);
}

/// What [`with_crate_dep`] writes says what [`crate_dep_told`] states.
pub proof fn lemma_crate_dep_told(
    w: Sheet,
    package: Seq<char>,
    dep: CrateNeed,
)
    ensures
        crate_dep_told(w.log, with_crate_dep(w, package, dep).log, package, dep),
{
    lemma_crate_dep_in_steps(w, package, dep);
    lemma_crate_dep_steps(w, package, dep);
}

proof fn lemma_each_crate_dep_told(w: Sheet, package: Seq<char>, items: Seq<CrateNeed>, n: nat)
    ensures
        ({
            let first = w.log;
            let last = with_each_crate_dep(w, package, items, n).log;
            &&& said(last, pkg("directlyDependsOn"@)) == said(first, pkg("directlyDependsOn"@))
                + in_turn(
                    |k: int|
                        seq![
                            to_iri(
                                package,
                                identity_iri("cargo"@, "crates.io"@, "any"@, (items[k]).crate_id),
                            ),
                        ],
                    n,
                )
            &&& said(last, pkg("hasDependency"@)) == said(first, pkg("hasDependency"@))
                + in_turn(
                    |k: int|
                        seq![
                            (
                                Term::Iri(package),
                                Term::Node(
                                    bnode_label(
                                        dep_kind((items[k]).kind),
                                        package + "-"@ + (items[k]).crate_id,
                                    ),
                                ),
                            ),
                        ],
                    n,
                )
            &&& said(last, RDF_TYPE@) == said(first, RDF_TYPE@)
                + in_turn(
                    |k: int|
                        seq![
                            (
                                Term::Node(
                                    bnode_label(
                                        dep_kind((items[k]).kind),
                                        package + "-"@ + (items[k]).crate_id,
                                    ),
                                ),
                                Term::Iri(pkg("Dependency"@)),
                            ),
                        ]
                            + where_so(
                                (items[k]).req.len() > 0,
                                seq![
                                    (
                                        Term::Node(
                                            bnode_label(
                                                "constraint"@,
                                                package + "-"@ + (items[k]).crate_id,
                                            ),
                                        ),
                                        Term::Iri(pkg("VersionConstraint"@)),
                                    ),
                                ],
                            ),
                    n,
                )
            &&& said(last, pkg("dependencyTarget"@)) == said(first, pkg("dependencyTarget"@))
                + in_turn(
                    |k: int|
                        seq![
                            (
                                Term::Node(
                                    bnode_label(
                                        dep_kind((items[k]).kind),
                                        package + "-"@ + (items[k]).crate_id,
                                    ),
                                ),
                                Term::Iri(
                                    identity_iri(
                                        "cargo"@,
                                        "crates.io"@,
                                        "any"@,
                                        (items[k]).crate_id,
                                    ),
                                ),
                            ),
                        ],
                    n,
                )
            &&& said(last, pkg("dependencyType"@)) == said(first, pkg("dependencyType"@))
                + in_turn(
                    |k: int|
                        seq![
                            (
                                Term::Node(
                                    bnode_label(
                                        dep_kind((items[k]).kind),
                                        package + "-"@ + (items[k]).crate_id,
                                    ),
                                ),
                                Term::Text(dep_kind((items[k]).kind)),
                            ),
                        ],
                    n,
                )
            &&& said(last, pkg("hasVersionConstraint"@)) == said(first, pkg("hasVersionConstraint"@))
                + in_turn(
                    |k: int|
                        where_so(
                            (items[k]).req.len() > 0,
                            seq![
                                (
                                    Term::Iri(
                                        bnode_label(
                                            dep_kind((items[k]).kind),
                                            package + "-"@ + (items[k]).crate_id,
                                        ),
                                    ),
                                    Term::Node(
                                        bnode_label(
                                            "constraint"@,
                                            package + "-"@ + (items[k]).crate_id,
                                        ),
                                    ),
                                ),
                            ],
                        ),
                    n,
                )
            &&& said(last, pkg("versionConstraintOperator"@))
                == said(first, pkg("versionConstraintOperator"@))
                + in_turn(
                    |k: int|
                        where_so(
                            (items[k]).req.len() > 0,
                            seq![
                                (
                                    Term::Node(
                                        bnode_label(
                                            "constraint"@,
                                            package + "-"@ + (items[k]).crate_id,
                                        ),
                                    ),
                                    Term::Text("semver"@),
                                ),
                            ],
                        ),
                    n,
                )
            &&& said(last, pkg("versionConstraintValue"@))
                == said(first, pkg("versionConstraintValue"@))
                + in_turn(
                    |k: int|
                        where_so(
                            (items[k]).req.len() > 0,
                            seq![
                                (
                                    Term::Node(
                                        bnode_label(
                                            "constraint"@,
                                            package + "-"@ + (items[k]).crate_id,
                                        ),
                                    ),
                                    Term::Text((items[k]).req),
                                ),
                            ],
                        ),
                    n,
                )
            &&& forall|q: Seq<char>|
                q != pkg("directlyDependsOn"@)
                    && q != pkg("hasDependency"@)
                    && q != RDF_TYPE@
                    && q != pkg("dependencyTarget"@)
                    && q != pkg("dependencyType"@)
                    && q != pkg("hasVersionConstraint"@)
                    && q != pkg("versionConstraintOperator"@)
                    && q != pkg("versionConstraintValue"@)
                    ==> #[trigger] said(last, q) == said(first, q)
        }),
    decreases n,
{
    broadcast use group_writes;

    reveal_strlit("directlyDependsOn");
    reveal_strlit("hasDependency");
    reveal_strlit("dependencyTarget");
    reveal_strlit("dependencyType");
    reveal_strlit("hasVersionConstraint");
    reveal_strlit("versionConstraintOperator");
    reveal_strlit("versionConstraintValue");
    if n > 0 {
        lemma_each_crate_dep_told(w, package, items, (n - 1) as nat);
        lemma_crate_dep_told(
            with_each_crate_dep(w, package, items, (n - 1) as nat),
            package,
            items[n - 1],
        );
    }
}

proof fn lemma_feature_told(w: Sheet, package: Seq<char>, name: Seq<char>)
    ensures
        ({
            let first = w.log;
            let last = with_feature(w, package, name).log;
            &&& said(last, CARGO@ + "featureName"@) == said(first, CARGO@ + "featureName"@)
                + seq![to_text(package, name)]
            &&& forall|q: Seq<char>|
                q != CARGO@ + "featureName"@ ==> #[trigger] said(last, q) == said(first, q)
        }),
{
    broadcast use {group_reading, group_cargo};

    reveal_strlit("featureName");
}

proof fn lemma_each_feature_told(w: Sheet, package: Seq<char>, items: Seq<Seq<char>>, n: nat)
    ensures
        ({
            let first = w.log;
            let last = with_each_feature(w, package, items, n).log;
            &&& said(last, CARGO@ + "featureName"@) == said(first, CARGO@ + "featureName"@)
                + in_turn(|k: int| seq![to_text(package, (items[k]))], n)
            &&& forall|q: Seq<char>|
                q != CARGO@ + "featureName"@ ==> #[trigger] said(last, q) == said(first, q)
        }),
    decreases n,
{
    broadcast use {group_writes, group_cargo};

    reveal_strlit("featureName");
    if n > 0 {
        lemma_each_feature_told(w, package, items, (n - 1) as nat);
        lemma_feature_told(
            with_each_feature(w, package, items, (n - 1) as nat),
            package,
            items[n - 1],
        );
    }
}

/// What is said of a version of a crate: its edition, the compiler that it needs, and its
/// features.
pub open spec fn crate_version_told(
    first: Seq<Fact>,
    last: Seq<Fact>,
    package: Seq<char>,
    v: CrateRelease,
) -> bool {
    &&& said(last, CARGO@ + "edition"@) == said(first, CARGO@ + "edition"@)
        + text_if(package, v.edition)
    &&& said(last, CARGO@ + "msrv"@) == said(first, CARGO@ + "msrv"@)
        + text_if(package, v.rust_version)
    &&& said(last, CARGO@ + "featureName"@) == said(first, CARGO@ + "featureName"@)
        + in_turn(|k: int| seq![to_text(package, (v.features[k]))], (v.features.len()))
    &&& forall|q: Seq<char>|
        q != CARGO@ + "edition"@ && q != CARGO@ + "msrv"@ && q != CARGO@ + "featureName"@
            ==> #[trigger] said(last, q) == said(first, q)
}

proof fn lemma_crate_version_in_steps(w: Sheet, package: Seq<char>, v: CrateRelease)
    ensures
        with_crate_version(w, package, v) == ({
            let w = maybe_literal(w, package, CARGO@ + "edition"@, v.edition);
            let w = maybe_literal(w, package, CARGO@ + "msrv"@, v.rust_version);
            let w = with_each_feature(w, package, v.features, v.features.len());
            w
        }),
{
    reveal(maybe_literal);
}

proof fn lemma_crate_version_steps(w: Sheet, package: Seq<char>, v: CrateRelease)
    ensures
        crate_version_told(w.log, ({
            let w = maybe_literal(w, package, CARGO@ + "edition"@, v.edition);
            let w = maybe_literal(w, package, CARGO@ + "msrv"@, v.rust_version);
            let w = with_each_feature(w, package, v.features, v.features.len());
            w
        }).log, package, v),
{
    broadcast use {group_writes, group_cargo};

    reveal_strlit("edition");
    reveal_strlit("msrv");
    reveal_strlit("featureName");
    let w1 = maybe_literal(w, package, CARGO@ + "edition"@, v.edition);
    let w2 = maybe_literal(w1, package, CARGO@ + "msrv"@, v.rust_version);
    let w3 = with_each_feature(w2, package, v.features, v.features.len());
    lemma_each_feature_told(w2, package, v.features, v.features.len());
}

/// What [`with_crate_version`] writes says what [`crate_version_told`] states.
pub proof fn lemma_crate_version_told(
    w: Sheet,
    package: Seq<char>,
    v: CrateRelease,
)
    ensures
        crate_version_told(w.log, with_crate_version(w, package, v).log, package, v),
{
    lemma_crate_version_in_steps(w, package, v);
    lemma_crate_version_steps(w, package, v);
}

proof fn lemma_listed_version_told(
    w: Sheet,
    package: Seq<char>,
    reply: CrateReply,
    version: Seq<char>,
)
    ensures
        ({
            let first = w.log;
            let last = with_listed_version(w, package, reply, version).log;
            &&& said(last, CARGO@ + "edition"@) == said(first, CARGO@ + "edition"@)
                + (
                    match version_at(reply.versions, version, 0) {
                        Some(v) => text_if(package, v.edition),
                        None => Seq::empty(),
                    }
                )
            &&& said(last, CARGO@ + "msrv"@) == said(first, CARGO@ + "msrv"@)
                + (
                    match version_at(reply.versions, version, 0) {
                        Some(v) => text_if(package, v.rust_version),
                        None => Seq::empty(),
                    }
                )
            &&& said(last, CARGO@ + "featureName"@) == said(first, CARGO@ + "featureName"@)
                + (
                    match version_at(reply.versions, version, 0) {
                        Some(v) => in_turn(
                            |k: int| seq![to_text(package, (v.features[k]))],
                            (v.features.len()),
                        ),
                        None => Seq::empty(),
                    }
                )
            &&& forall|q: Seq<char>|
                q != CARGO@ + "edition"@ && q != CARGO@ + "msrv"@ && q != CARGO@ + "featureName"@
                    ==> #[trigger] said(last, q) == said(first, q)
        }),
{
    broadcast use {group_reading, group_cargo};

    reveal_strlit("edition");
    reveal_strlit("msrv");
    reveal_strlit("featureName");
    match version_at(reply.versions, version, 0) {
        Some(v) => {
            lemma_crate_version_told(w, package, v);
        },
        None => {
        },
    }
}

proof fn lemma_crate_deps_told(w: Sheet, package: Seq<char>, deps: Vec<CrateDep>)
    ensures
        ({
            let first = w.log;
            let last = with_crate_deps(w, package, deps).log;
            &&& said(last, pkg("directlyDependsOn"@)) == said(first, pkg("directlyDependsOn"@))
                + in_turn(
                    |k: int|
                        seq![
                            to_iri(
                                package,
                                identity_iri(
                                    "cargo"@,
                                    "crates.io"@,
                                    "any"@,
                                    (crate_dep_views(deps@)[k]).crate_id,
                                ),
                            ),
                        ],
                    (crate_dep_views(deps@).len()),
                )
            &&& said(last, pkg("hasDependency"@)) == said(first, pkg("hasDependency"@))
                + in_turn(
                    |k: int|
                        seq![
                            (
                                Term::Iri(package),
                                Term::Node(
                                    bnode_label(
                                        dep_kind((crate_dep_views(deps@)[k]).kind),
                                        package + "-"@ + (crate_dep_views(deps@)[k]).crate_id,
                                    ),
                                ),
                            ),
                        ],
                    (crate_dep_views(deps@).len()),
                )
            &&& said(last, RDF_TYPE@) == said(first, RDF_TYPE@)
                + in_turn(
                    |k: int|
                        seq![
                            (
                                Term::Node(
                                    bnode_label(
                                        dep_kind((crate_dep_views(deps@)[k]).kind),
                                        package + "-"@ + (crate_dep_views(deps@)[k]).crate_id,
                                    ),
                                ),
                                Term::Iri(pkg("Dependency"@)),
                            ),
                        ]
                            + where_so(
                                (crate_dep_views(deps@)[k]).req.len() > 0,
                                seq![
                                    (
                                        Term::Node(
                                            bnode_label(
                                                "constraint"@,
                                                package
                                                    + "-"@
                                                    + (crate_dep_views(deps@)[k]).crate_id,
                                            ),
                                        ),
                                        Term::Iri(pkg("VersionConstraint"@)),
                                    ),
                                ],
                            ),
                    (crate_dep_views(deps@).len()),
                )
            &&& said(last, pkg("dependencyTarget"@)) == said(first, pkg("dependencyTarget"@))
                + in_turn(
                    |k: int|
                        seq![
                            (
                                Term::Node(
                                    bnode_label(
                                        dep_kind((crate_dep_views(deps@)[k]).kind),
                                        package + "-"@ + (crate_dep_views(deps@)[k]).crate_id,
                                    ),
                                ),
                                Term::Iri(
                                    identity_iri(
                                        "cargo"@,
                                        "crates.io"@,
                                        "any"@,
                                        (crate_dep_views(deps@)[k]).crate_id,
                                    ),
                                ),
                            ),
                        ],
                    (crate_dep_views(deps@).len()),
                )
            &&& said(last, pkg("dependencyType"@)) == said(first, pkg("dependencyType"@))
                + in_turn(
                    |k: int|
                        seq![
                            (
                                Term::Node(
                                    bnode_label(
                                        dep_kind((crate_dep_views(deps@)[k]).kind),
                                        package + "-"@ + (crate_dep_views(deps@)[k]).crate_id,
                                    ),
                                ),
                                Term::Text(dep_kind((crate_dep_views(deps@)[k]).kind)),
                            ),
                        ],
                    (crate_dep_views(deps@).len()),
                )
            &&& said(last, pkg("hasVersionConstraint"@)) == said(first, pkg("hasVersionConstraint"@))
                + in_turn(
                    |k: int|
                        where_so(
                            (crate_dep_views(deps@)[k]).req.len() > 0,
                            seq![
                                (
                                    Term::Iri(
                                        bnode_label(
                                            dep_kind((crate_dep_views(deps@)[k]).kind),
                                            package + "-"@ + (crate_dep_views(deps@)[k]).crate_id,
                                        ),
                                    ),
                                    Term::Node(
                                        bnode_label(
                                            "constraint"@,
                                            package + "-"@ + (crate_dep_views(deps@)[k]).crate_id,
                                        ),
                                    ),
                                ),
                            ],
                        ),
                    (crate_dep_views(deps@).len()),
                )
            &&& said(last, pkg("versionConstraintOperator"@))
                == said(first, pkg("versionConstraintOperator"@))
                + in_turn(
                    |k: int|
                        where_so(
                            (crate_dep_views(deps@)[k]).req.len() > 0,
                            seq![
                                (
                                    Term::Node(
                                        bnode_label(
                                            "constraint"@,
                                            package + "-"@ + (crate_dep_views(deps@)[k]).crate_id,
                                        ),
                                    ),
                                    Term::Text("semver"@),
                                ),
                            ],
                        ),
                    (crate_dep_views(deps@).len()),
                )
            &&& said(last, pkg("versionConstraintValue"@))
                == said(first, pkg("versionConstraintValue"@))
                + in_turn(
                    |k: int|
                        where_so(
                            (crate_dep_views(deps@)[k]).req.len() > 0,
                            seq![
                                (
                                    Term::Node(
                                        bnode_label(
                                            "constraint"@,
                                            package + "-"@ + (crate_dep_views(deps@)[k]).crate_id,
                                        ),
                                    ),
                                    Term::Text((crate_dep_views(deps@)[k]).req),
                                ),
                            ],
                        ),
                    (crate_dep_views(deps@).len()),
                )
            &&& forall|q: Seq<char>|
                q != pkg("directlyDependsOn"@)
                    && q != pkg("hasDependency"@)
                    && q != RDF_TYPE@
                    && q != pkg("dependencyTarget"@)
                    && q != pkg("dependencyType"@)
                    && q != pkg("hasVersionConstraint"@)
                    && q != pkg("versionConstraintOperator"@)
                    && q != pkg("versionConstraintValue"@)
                    ==> #[trigger] said(last, q) == said(first, q)
        }),
{
    broadcast use group_reading;

    reveal_strlit("directlyDependsOn");
    reveal_strlit("hasDependency");
    reveal_strlit("dependencyTarget");
    reveal_strlit("dependencyType");
    reveal_strlit("hasVersionConstraint");
    reveal_strlit("versionConstraintOperator");
    reveal_strlit("versionConstraintValue");
    lemma_each_crate_dep_told(w, package, crate_dep_views(deps@), crate_dep_views(deps@).len());
}

#[verifier::opaque]
spec fn crate_step_1(w: Sheet, reply: CrateReply, version: Seq<char>, package: Seq<char>) -> Sheet {
    with_listed_version(w, package, reply, version)
}

proof fn lemma_crate_step_1(w: Sheet, reply: CrateReply, version: Seq<char>, package: Seq<char>)
    ensures
        ({
            let first = w.log;
            let last = crate_step_1(w, reply, version, package).log;
            &&& said(last, CARGO@ + "edition"@) == said(first, CARGO@ + "edition"@)
                + (
                    match version_at(reply.versions, version, 0) {
                        Some(v) => text_if(package, v.edition),
                        None => Seq::empty(),
                    }
                )
            &&& said(last, CARGO@ + "msrv"@) == said(first, CARGO@ + "msrv"@)
                + (
                    match version_at(reply.versions, version, 0) {
                        Some(v) => text_if(package, v.rust_version),
                        None => Seq::empty(),
                    }
                )
            &&& said(last, CARGO@ + "featureName"@) == said(first, CARGO@ + "featureName"@)
                + (
                    match version_at(reply.versions, version, 0) {
                        Some(v) => in_turn(
                            |k: int| seq![to_text(package, (v.features[k]))],
                            (v.features.len()),
                        ),
                        None => Seq::empty(),
                    }
                )
            &&& forall|q: Seq<char>|
                q != CARGO@ + "edition"@ && q != CARGO@ + "msrv"@ && q != CARGO@ + "featureName"@
                    ==> #[trigger] said(last, q) == said(first, q)
        }),
{
    broadcast use {group_reading, group_cargo};

    reveal(crate_step_1);
    reveal_strlit("edition");
    reveal_strlit("msrv");
    reveal_strlit("featureName");
    lemma_listed_version_told(w, package, reply, version);
}

/// Everything that is said of a crate: what it is, its name and version and the identity
/// that it is a version of, each field that it has by the property of that field, what the
/// listed version has, and what it depends on.
pub open spec fn crate_told(
    first: Seq<Fact>,
    last: Seq<Fact>,
    c: CargoCollector,
    reply: CrateReply,
    deps: Vec<CrateDep>,
) -> bool {
    let version = stable_version(reply.crate_data);
    let package = package_iri("cargo"@, "crates.io"@, "any"@, reply.crate_data.name, version);
    let identity = identity_iri("cargo"@, "crates.io"@, "any"@, reply.crate_data.name);
    let ver = version_iri("cargo"@, "crates.io"@, reply.crate_data.name, version);
    let dist = distro_iri("cargo"@);
    &&& said(last, RDF_TYPE@) == said(first, RDF_TYPE@)
        + seq![to_iri(package, pkg("Package"@))]
        + seq![to_iri(package, CARGO@ + "Crate"@)]
        + seq![to_iri(identity, pkg("PackageIdentity"@))]
        + seq![to_iri(ver, pkg("Version"@))]
        + in_turn(
            |k: int|
                seq![
                    (
                        Term::Node(
                            bnode_label(
                                dep_kind((crate_dep_views(deps@)[k]).kind),
                                package + "-"@ + (crate_dep_views(deps@)[k]).crate_id,
                            ),
                        ),
                        Term::Iri(pkg("Dependency"@)),
                    ),
                ]
                    + where_so(
                        (crate_dep_views(deps@)[k]).req.len() > 0,
                        seq![
                            (
                                Term::Node(
                                    bnode_label(
                                        "constraint"@,
                                        package + "-"@ + (crate_dep_views(deps@)[k]).crate_id,
                                    ),
                                ),
                                Term::Iri(pkg("VersionConstraint"@)),
                            ),
                        ],
                    ),
            (crate_dep_views(deps@).len()),
        )
    &&& said(last, pkg("packageName"@)) == said(first, pkg("packageName"@))
        + seq![to_text(identity, reply.crate_data.name)]
        + seq![to_text(package, reply.crate_data.name)]
    &&& said(last, pkg("isVersionOf"@)) == said(first, pkg("isVersionOf"@))
        + seq![to_iri(package, identity)]
    &&& said(last, pkg("versionString"@)) == said(first, pkg("versionString"@))
        + seq![to_text(ver, version)]
    &&& said(last, pkg("hasVersion"@)) == said(first, pkg("hasVersion"@))
        + seq![to_iri(package, ver)]
    &&& said(last, pkg("partOfDistribution"@)) == said(first, pkg("partOfDistribution"@))
        + seq![to_iri(package, dist)]
    &&& said(last, pkg("description"@)) == said(first, pkg("description"@))
        + text_if(package, reply.crate_data.description)
    &&& said(last, pkg("homepage"@)) == said(first, pkg("homepage"@))
        + text_if(package, reply.crate_data.homepage)
    &&& said(last, pkg("projectUrl"@)) == said(first, pkg("projectUrl"@))
        + text_if(package, reply.crate_data.repository)
    &&& said(last, pkg("licenseName"@)) == said(first, pkg("licenseName"@))
        + text_if(package, reply.crate_data.license)
    &&& said(last, CARGO@ + "downloads"@) == said(first, CARGO@ + "downloads"@)
        + number_if_any(package, reply.crate_data.downloads)
    &&& said(last, CARGO@ + "edition"@) == said(first, CARGO@ + "edition"@)
        + (
            match version_at(reply.versions, version, 0) {
                Some(v) => text_if(package, v.edition),
                None => Seq::empty(),
            }
        )
    &&& said(last, CARGO@ + "msrv"@) == said(first, CARGO@ + "msrv"@)
        + (
            match version_at(reply.versions, version, 0) {
                Some(v) => text_if(package, v.rust_version),
                None => Seq::empty(),
            }
        )
    &&& said(last, CARGO@ + "featureName"@) == said(first, CARGO@ + "featureName"@)
        + (
            match version_at(reply.versions, version, 0) {
                Some(v) => in_turn(
                    |k: int| seq![to_text(package, (v.features[k]))],
                    (v.features.len()),
                ),
                None => Seq::empty(),
            }
        )
    &&& said(last, pkg("directlyDependsOn"@)) == said(first, pkg("directlyDependsOn"@))
        + in_turn(
            |k: int|
                seq![
                    to_iri(
                        package,
                        identity_iri(
                            "cargo"@,
                            "crates.io"@,
                            "any"@,
                            (crate_dep_views(deps@)[k]).crate_id,
                        ),
                    ),
                ],
            (crate_dep_views(deps@).len()),
        )
    &&& said(last, pkg("hasDependency"@)) == said(first, pkg("hasDependency"@))
        + in_turn(
            |k: int|
                seq![
                    (
                        Term::Iri(package),
                        Term::Node(
                            bnode_label(
                                dep_kind((crate_dep_views(deps@)[k]).kind),
                                package + "-"@ + (crate_dep_views(deps@)[k]).crate_id,
                            ),
                        ),
                    ),
                ],
            (crate_dep_views(deps@).len()),
        )
    &&& said(last, pkg("dependencyTarget"@)) == said(first, pkg("dependencyTarget"@))
        + in_turn(
            |k: int|
                seq![
                    (
                        Term::Node(
                            bnode_label(
                                dep_kind((crate_dep_views(deps@)[k]).kind),
                                package + "-"@ + (crate_dep_views(deps@)[k]).crate_id,
                            ),
                        ),
                        Term::Iri(
                            identity_iri(
                                "cargo"@,
                                "crates.io"@,
                                "any"@,
                                (crate_dep_views(deps@)[k]).crate_id,
                            ),
                        ),
                    ),
                ],
            (crate_dep_views(deps@).len()),
        )
    &&& said(last, pkg("dependencyType"@)) == said(first, pkg("dependencyType"@))
        + in_turn(
            |k: int|
                seq![
                    (
                        Term::Node(
                            bnode_label(
                                dep_kind((crate_dep_views(deps@)[k]).kind),
                                package + "-"@ + (crate_dep_views(deps@)[k]).crate_id,
                            ),
                        ),
                        Term::Text(dep_kind((crate_dep_views(deps@)[k]).kind)),
                    ),
                ],
            (crate_dep_views(deps@).len()),
        )
    &&& said(last, pkg("hasVersionConstraint"@)) == said(first, pkg("hasVersionConstraint"@))
        + in_turn(
            |k: int|
                where_so(
                    (crate_dep_views(deps@)[k]).req.len() > 0,
                    seq![
                        (
                            Term::Iri(
                                bnode_label(
                                    dep_kind((crate_dep_views(deps@)[k]).kind),
                                    package + "-"@ + (crate_dep_views(deps@)[k]).crate_id,
                                ),
                            ),
                            Term::Node(
                                bnode_label(
                                    "constraint"@,
                                    package + "-"@ + (crate_dep_views(deps@)[k]).crate_id,
                                ),
                            ),
                        ),
                    ],
                ),
            (crate_dep_views(deps@).len()),
        )
    &&& said(last, pkg("versionConstraintOperator"@)) == said(first, pkg("versionConstraintOperator"@))
        + in_turn(
            |k: int|
                where_so(
                    (crate_dep_views(deps@)[k]).req.len() > 0,
                    seq![
                        (
                            Term::Node(
                                bnode_label(
                                    "constraint"@,
                                    package + "-"@ + (crate_dep_views(deps@)[k]).crate_id,
                                ),
                            ),
                            Term::Text("semver"@),
                        ),
                    ],
                ),
            (crate_dep_views(deps@).len()),
        )
    &&& said(last, pkg("versionConstraintValue"@)) == said(first, pkg("versionConstraintValue"@))
        + in_turn(
            |k: int|
                where_so(
                    (crate_dep_views(deps@)[k]).req.len() > 0,
                    seq![
                        (
                            Term::Node(
                                bnode_label(
                                    "constraint"@,
                                    package + "-"@ + (crate_dep_views(deps@)[k]).crate_id,
                                ),
                            ),
                            Term::Text((crate_dep_views(deps@)[k]).req),
                        ),
                    ],
                ),
            (crate_dep_views(deps@).len()),
        )
    &&& forall|q: Seq<char>|
        q != RDF_TYPE@
            && q != pkg("packageName"@)
            && q != pkg("isVersionOf"@)
            && q != pkg("versionString"@)
            && q != pkg("hasVersion"@)
            && q != pkg("partOfDistribution"@)
            && q != pkg("description"@)
            && q != pkg("homepage"@)
            && q != pkg("projectUrl"@)
            && q != pkg("licenseName"@)
            && q != CARGO@ + "downloads"@
            && q != CARGO@ + "edition"@
            && q != CARGO@ + "msrv"@
            && q != CARGO@ + "featureName"@
            && q != pkg("directlyDependsOn"@)
            && q != pkg("hasDependency"@)
            && q != pkg("dependencyTarget"@)
            && q != pkg("dependencyType"@)
            && q != pkg("hasVersionConstraint"@)
            && q != pkg("versionConstraintOperator"@)
            && q != pkg("versionConstraintValue"@)
            ==> #[trigger] said(last, q) == said(first, q)
}

proof fn lemma_crate_in_steps(w: Sheet, c: CargoCollector, reply: CrateReply, deps: Vec<CrateDep>)
    ensures
        with_crate_triples(w, c, reply, deps) == ({
            let version = stable_version(reply.crate_data);
            let package = package_iri(
                "cargo"@,
                "crates.io"@,
                "any"@,
                reply.crate_data.name,
                version,
            );
            let identity = identity_iri("cargo"@, "crates.io"@, "any"@, reply.crate_data.name);
            let w = link(w, package, RDF_TYPE@, pkg("Package"@));
            let w = link(w, package, RDF_TYPE@, CARGO@ + "Crate"@);
            let w = link(w, identity, RDF_TYPE@, pkg("PackageIdentity"@));
            let w = literal(w, identity, pkg("packageName"@), reply.crate_data.name);
            let w = link(w, package, pkg("isVersionOf"@), identity);
            let w = literal(w, package, pkg("packageName"@), reply.crate_data.name);
            let ver = version_iri("cargo"@, "crates.io"@, reply.crate_data.name, version);
            let w = link(w, ver, RDF_TYPE@, pkg("Version"@));
            let w = literal(w, ver, pkg("versionString"@), version);
            let w = link(w, package, pkg("hasVersion"@), ver);
            let dist = distro_iri("cargo"@);
            let w = link(w, package, pkg("partOfDistribution"@), dist);
            let w = maybe_literal(w, package, pkg("description"@), reply.crate_data.description);
            let w = maybe_literal(w, package, pkg("homepage"@), reply.crate_data.homepage);
            let w = maybe_literal(w, package, pkg("projectUrl"@), reply.crate_data.repository);
            let w = maybe_literal(w, package, pkg("licenseName"@), reply.crate_data.license);
            let w = maybe_number(w, package, CARGO@ + "downloads"@, reply.crate_data.downloads);
            let w = crate_step_1(w, reply, version, package);
            let w = with_crate_deps(w, package, deps);
            w
        }),
{
    reveal(maybe_literal);
    reveal(maybe_number);
    reveal(crate_step_1);
}

proof fn lemma_crate_steps(w: Sheet, c: CargoCollector, reply: CrateReply, deps: Vec<CrateDep>)
    ensures
        crate_told(w.log, ({
            let version = stable_version(reply.crate_data);
            let package = package_iri(
                "cargo"@,
                "crates.io"@,
                "any"@,
                reply.crate_data.name,
                version,
            );
            let identity = identity_iri("cargo"@, "crates.io"@, "any"@, reply.crate_data.name);
            let w = link(w, package, RDF_TYPE@, pkg("Package"@));
            let w = link(w, package, RDF_TYPE@, CARGO@ + "Crate"@);
            let w = link(w, identity, RDF_TYPE@, pkg("PackageIdentity"@));
            let w = literal(w, identity, pkg("packageName"@), reply.crate_data.name);
            let w = link(w, package, pkg("isVersionOf"@), identity);
            let w = literal(w, package, pkg("packageName"@), reply.crate_data.name);
            let ver = version_iri("cargo"@, "crates.io"@, reply.crate_data.name, version);
            let w = link(w, ver, RDF_TYPE@, pkg("Version"@));
            let w = literal(w, ver, pkg("versionString"@), version);
            let w = link(w, package, pkg("hasVersion"@), ver);
            let dist = distro_iri("cargo"@);
            let w = link(w, package, pkg("partOfDistribution"@), dist);
            let w = maybe_literal(w, package, pkg("description"@), reply.crate_data.description);
            let w = maybe_literal(w, package, pkg("homepage"@), reply.crate_data.homepage);
            let w = maybe_literal(w, package, pkg("projectUrl"@), reply.crate_data.repository);
            let w = maybe_literal(w, package, pkg("licenseName"@), reply.crate_data.license);
            let w = maybe_number(w, package, CARGO@ + "downloads"@, reply.crate_data.downloads);
            let w = crate_step_1(w, reply, version, package);
            let w = with_crate_deps(w, package, deps);
            w
        }).log, c, reply, deps),
{
    broadcast use {group_writes, group_cargo};

    reveal_strlit("packageName");
    reveal_strlit("isVersionOf");
    reveal_strlit("versionString");
    reveal_strlit("hasVersion");
    reveal_strlit("partOfDistribution");
    reveal_strlit("description");
    reveal_strlit("homepage");
    reveal_strlit("projectUrl");
    reveal_strlit("licenseName");
    reveal_strlit("downloads");
    reveal_strlit("edition");
    reveal_strlit("msrv");
    reveal_strlit("featureName");
    reveal_strlit("directlyDependsOn");
    reveal_strlit("hasDependency");
    reveal_strlit("dependencyTarget");
    reveal_strlit("dependencyType");
    reveal_strlit("hasVersionConstraint");
    reveal_strlit("versionConstraintOperator");
    reveal_strlit("versionConstraintValue");
    let version = stable_version(reply.crate_data);
    let package = package_iri("cargo"@, "crates.io"@, "any"@, reply.crate_data.name, version);
    let identity = identity_iri("cargo"@, "crates.io"@, "any"@, reply.crate_data.name);
    let w1 = link(w, package, RDF_TYPE@, pkg("Package"@));
    let w2 = link(w1, package, RDF_TYPE@, CARGO@ + "Crate"@);
    let w3 = link(w2, identity, RDF_TYPE@, pkg("PackageIdentity"@));
    let w4 = literal(w3, identity, pkg("packageName"@), reply.crate_data.name);
    let w5 = link(w4, package, pkg("isVersionOf"@), identity);
    let w6 = literal(w5, package, pkg("packageName"@), reply.crate_data.name);
    let ver = version_iri("cargo"@, "crates.io"@, reply.crate_data.name, version);
    let w7 = link(w6, ver, RDF_TYPE@, pkg("Version"@));
    let w8 = literal(w7, ver, pkg("versionString"@), version);
    let w9 = link(w8, package, pkg("hasVersion"@), ver);
    let dist = distro_iri("cargo"@);
    let w10 = link(w9, package, pkg("partOfDistribution"@), dist);
    let w11 = maybe_literal(w10, package, pkg("description"@), reply.crate_data.description);
    let w12 = maybe_literal(w11, package, pkg("homepage"@), reply.crate_data.homepage);
    let w13 = maybe_literal(w12, package, pkg("projectUrl"@), reply.crate_data.repository);
    let w14 = maybe_literal(w13, package, pkg("licenseName"@), reply.crate_data.license);
    let w15 = maybe_number(w14, package, CARGO@ + "downloads"@, reply.crate_data.downloads);
    let w16 = crate_step_1(w15, reply, version, package);
    lemma_crate_step_1(w15, reply, version, package);
    let w17 = with_crate_deps(w16, package, deps);
    lemma_crate_deps_told(w16, package, deps);
}

/// What [`with_crate_triples`] writes says what [`crate_told`] states.
pub proof fn lemma_crate_told(
    w: Sheet,
    c: CargoCollector,
    reply: CrateReply,
    deps: Vec<CrateDep>,
)
    ensures
        crate_told(w.log, with_crate_triples(w, c, reply, deps).log, c, reply, deps),
{
    lemma_crate_in_steps(w, c, reply, deps);
    lemma_crate_steps(w, c, reply, deps);
}

} // verus!
