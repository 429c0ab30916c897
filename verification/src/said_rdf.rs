//! What is said of packages of every kind.

use crate::deps::{Dependency, Person};
use crate::emit::rdf::{
    description_of, maintainer_node, source_version_of, with_dependencies, with_dependency,
    with_distribution_metadata, with_each_dependency, with_each_maintainer, with_epoch,
    with_maintainer, with_maintainers, with_metadata, with_package_core, with_package_identity,
    with_packaging_repo, with_rdf, with_source_package, Policy,
};
use crate::forge::{forge_url, project_name, with_upstream_project};
use crate::ir::{Depends, Maintains, Metadata, Named, Record, Scope, SourceRef};
use crate::ntriples::{
    bnode_label, bnode_literal, bnode_object, bnode_subject, link, literal, pkg, Fact, Sheet,
};
use crate::reading::{
    group_foaf, group_reading, group_writes, in_turn, maybe_literal, said, text_if, to_iri,
    to_number, to_text, where_so, Term,
};
use crate::said_forge::lemma_upstream_project_told;
use crate::text::contains;
use crate::uris::{
    arch_iri, dep_type_iri, distgit_iri, distro_iri, identity_iri, numeric_release, package_iri,
    release_iri, repo_iri, source_iri, upstream_iri, version_iri, FOAF, RDFS_LABEL, RDF_TYPE, VCS,
};
use vstd::prelude::*;

verus! {

/// What is said of the identity of a package.
pub open spec fn package_identity_told(
    first: Seq<Fact>,
    last: Seq<Fact>,
    identity: Seq<char>,
    name: Seq<char>,
) -> bool {
    &&& said(last, RDF_TYPE@) == said(first, RDF_TYPE@)
        + seq![to_iri(identity, pkg("PackageIdentity"@))]
    &&& said(last, pkg("identityName"@)) == said(first, pkg("identityName"@))
        + seq![to_text(identity, name)]
    &&& said(last, RDFS_LABEL@) == said(first, RDFS_LABEL@)
        + seq![to_text(identity, name + " Package Identity"@)]
    &&& forall|q: Seq<char>|
        q != RDF_TYPE@ && q != pkg("identityName"@) && q != RDFS_LABEL@
            ==> #[trigger] said(last, q) == said(first, q)
}

proof fn lemma_package_identity_in_steps(w: Sheet, identity: Seq<char>, name: Seq<char>)
    ensures
        with_package_identity(w, identity, name) == ({
            let w = link(w, identity, RDF_TYPE@, pkg("PackageIdentity"@));
            let w = literal(w, identity, pkg("identityName"@), name);
            let w = literal(w, identity, RDFS_LABEL@, name + " Package Identity"@);
            w
        }),
{
}

proof fn lemma_package_identity_steps(w: Sheet, identity: Seq<char>, name: Seq<char>)
    ensures
        package_identity_told(w.log, ({
            let w = link(w, identity, RDF_TYPE@, pkg("PackageIdentity"@));
            let w = literal(w, identity, pkg("identityName"@), name);
            let w = literal(w, identity, RDFS_LABEL@, name + " Package Identity"@);
            w
        }).log, identity, name),
{
    broadcast use group_writes;

    reveal_strlit("identityName");
    let w1 = link(w, identity, RDF_TYPE@, pkg("PackageIdentity"@));
    let w2 = literal(w1, identity, pkg("identityName"@), name);
    let w3 = literal(w2, identity, RDFS_LABEL@, name + " Package Identity"@);
}

/// What [`with_package_identity`] writes says what [`package_identity_told`] states.
pub proof fn lemma_package_identity_told(
    w: Sheet,
    identity: Seq<char>,
    name: Seq<char>,
)
    ensures
        package_identity_told(w.log, with_package_identity(w, identity, name).log, identity, name),
{
    lemma_package_identity_in_steps(w, identity, name);
    lemma_package_identity_steps(w, identity, name);
}

#[verifier::opaque]
spec fn maintainer_step_1(w: Sheet, m: Maintains, person: Seq<char>) -> Sheet {
    match m.email {
        Some(email) => {
            let w = if contains(email, "@"@) {
                link(w, person, FOAF@ + "mbox"@, "mailto:"@ + email)
            } else {
                w
            };
            w
        },
        None => w,
    }
}

proof fn lemma_maintainer_step_1(w: Sheet, m: Maintains, person: Seq<char>)
    ensures
        ({
            let first = w.log;
            let last = maintainer_step_1(w, m, person).log;
            &&& said(last, FOAF@ + "mbox"@) == said(first, FOAF@ + "mbox"@)
                + (
                    match m.email {
                        Some(email) => where_so(
                            contains(email, "@"@),
                            seq![to_iri(person, "mailto:"@ + email)],
                        ),
                        None => Seq::empty(),
                    }
                )
            &&& forall|q: Seq<char>|
                q != FOAF@ + "mbox"@ ==> #[trigger] said(last, q) == said(first, q)
        }),
{
    broadcast use {group_reading, group_foaf};

    reveal(maintainer_step_1);
    reveal_strlit("mbox");
}

/// What is said of who maintains a package: that they are a person, with their name and,
/// where they have one, their address, and that they maintain it.
pub open spec fn maintainer_told(
    first: Seq<Fact>,
    last: Seq<Fact>,
    package: Seq<char>,
    m: Maintains,
) -> bool {
    let person = maintainer_node(m);
    &&& said(last, RDF_TYPE@) == said(first, RDF_TYPE@) + seq![to_iri(person, pkg("Person"@))]
    &&& said(last, FOAF@ + "name"@) == said(first, FOAF@ + "name"@) + seq![to_text(person, m.name)]
    &&& said(last, RDFS_LABEL@) == said(first, RDFS_LABEL@) + seq![to_text(person, m.name)]
    &&& said(last, FOAF@ + "mbox"@) == said(first, FOAF@ + "mbox"@)
        + (
            match m.email {
                Some(email) => where_so(
                    contains(email, "@"@),
                    seq![to_iri(person, "mailto:"@ + email)],
                ),
                None => Seq::empty(),
            }
        )
    &&& said(last, pkg("maintainedBy"@)) == said(first, pkg("maintainedBy"@))
        + seq![to_iri(package, person)]
    &&& forall|q: Seq<char>|
        q != RDF_TYPE@
            && q != FOAF@ + "name"@
            && q != RDFS_LABEL@
            && q != FOAF@ + "mbox"@
            && q != pkg("maintainedBy"@)
            ==> #[trigger] said(last, q) == said(first, q)
}

proof fn lemma_maintainer_in_steps(w: Sheet, package: Seq<char>, m: Maintains)
    ensures
        with_maintainer(w, package, m) == ({
            let person = maintainer_node(m);
            let w = link(w, person, RDF_TYPE@, pkg("Person"@));
            let w = literal(w, person, FOAF@ + "name"@, m.name);
            let w = literal(w, person, RDFS_LABEL@, m.name);
            let w = maintainer_step_1(w, m, person);
            let w = link(w, package, pkg("maintainedBy"@), person);
            w
        }),
{
    reveal(maintainer_step_1);
}

proof fn lemma_maintainer_steps(w: Sheet, package: Seq<char>, m: Maintains)
    ensures
        maintainer_told(w.log, ({
            let person = maintainer_node(m);
            let w = link(w, person, RDF_TYPE@, pkg("Person"@));
            let w = literal(w, person, FOAF@ + "name"@, m.name);
            let w = literal(w, person, RDFS_LABEL@, m.name);
            let w = maintainer_step_1(w, m, person);
            let w = link(w, package, pkg("maintainedBy"@), person);
            w
        }).log, package, m),
{
    broadcast use {group_writes, group_foaf};

    reveal_strlit("name");
    reveal_strlit("mbox");
    reveal_strlit("maintainedBy");
    let person = maintainer_node(m);
    let w1 = link(w, person, RDF_TYPE@, pkg("Person"@));
    let w2 = literal(w1, person, FOAF@ + "name"@, m.name);
    let w3 = literal(w2, person, RDFS_LABEL@, m.name);
    let w4 = maintainer_step_1(w3, m, person);
    lemma_maintainer_step_1(w3, m, person);
    let w5 = link(w4, package, pkg("maintainedBy"@), person);
}

/// What [`with_maintainer`] writes says what [`maintainer_told`] states.
pub proof fn lemma_maintainer_told(
    w: Sheet,
    package: Seq<char>,
    m: Maintains,
)
    ensures
        maintainer_told(w.log, with_maintainer(w, package, m).log, package, m),
{
    lemma_maintainer_in_steps(w, package, m);
    lemma_maintainer_steps(w, package, m);
}

proof fn lemma_each_maintainer_told(w: Sheet, package: Seq<char>, items: Seq<Maintains>, n: nat)
    ensures
        ({
            let first = w.log;
            let last = with_each_maintainer(w, package, items, n).log;
            &&& said(last, RDF_TYPE@) == said(first, RDF_TYPE@)
                + in_turn(|k: int| seq![to_iri(maintainer_node((items[k])), pkg("Person"@))], n)
            &&& said(last, FOAF@ + "name"@) == said(first, FOAF@ + "name"@)
                + in_turn(|k: int| seq![to_text(maintainer_node((items[k])), (items[k]).name)], n)
            &&& said(last, RDFS_LABEL@) == said(first, RDFS_LABEL@)
                + in_turn(|k: int| seq![to_text(maintainer_node((items[k])), (items[k]).name)], n)
            &&& said(last, FOAF@ + "mbox"@) == said(first, FOAF@ + "mbox"@)
                + in_turn(
                    |k: int|
                        (
                            match (items[k]).email {
                                Some(email) => where_so(
                                    contains(email, "@"@),
                                    seq![to_iri(maintainer_node((items[k])), "mailto:"@ + email)],
                                ),
                                None => Seq::empty(),
                            }
                        ),
                    n,
                )
            &&& said(last, pkg("maintainedBy"@)) == said(first, pkg("maintainedBy"@))
                + in_turn(|k: int| seq![to_iri(package, maintainer_node((items[k])))], n)
            &&& forall|q: Seq<char>|
                q != RDF_TYPE@
                    && q != FOAF@ + "name"@
                    && q != RDFS_LABEL@
                    && q != FOAF@ + "mbox"@
                    && q != pkg("maintainedBy"@)
                    ==> #[trigger] said(last, q) == said(first, q)
        }),
    decreases n,
{
    broadcast use {group_writes, group_foaf};

    reveal_strlit("name");
    reveal_strlit("mbox");
    reveal_strlit("maintainedBy");
    if n > 0 {
        lemma_each_maintainer_told(w, package, items, (n - 1) as nat);
        lemma_maintainer_told(
            with_each_maintainer(w, package, items, (n - 1) as nat),
            package,
            items[n - 1],
        );
    }
}

#[verifier::opaque]
spec fn dependency_step_1(w: Sheet, d: Depends, node: Seq<char>) -> Sheet {
    match d.version_constraint {
        Some(limit) => { bnode_literal(w, node, pkg("versionConstraint"@), limit) },
        None => w,
    }
}

proof fn lemma_dependency_step_1(w: Sheet, d: Depends, node: Seq<char>)
    ensures
        ({
            let first = w.log;
            let last = dependency_step_1(w, d, node).log;
            &&& said(last, pkg("versionConstraint"@)) == said(first, pkg("versionConstraint"@))
                + (
                    match d.version_constraint {
                        Some(limit) => seq![(Term::Node(node), Term::Text(limit))],
                        None => Seq::empty(),
                    }
                )
            &&& forall|q: Seq<char>|
                q != pkg("versionConstraint"@) ==> #[trigger] said(last, q) == said(first, q)
        }),
{
    broadcast use group_reading;

    reveal(dependency_step_1);
    reveal_strlit("versionConstraint");
}

/// What is said of a dependency: that the package depends on the identity of what is named,
/// directly and through a node of its own, which has the kind and, where it has one, the
/// constraint.
pub open spec fn dependency_told(
    first: Seq<Fact>,
    last: Seq<Fact>,
    package: Seq<char>,
    d: Depends,
    distro: Seq<char>,
    release: Seq<char>,
    arch: Seq<char>,
) -> bool {
    let target = identity_iri(distro, release, arch, d.name);
    let node = bnode_label("dep"@, package + d.name + d.dep_type);
    &&& said(last, pkg("hasDependency"@)) == said(first, pkg("hasDependency"@))
        + seq![(Term::Iri(package), Term::Node(node))]
    &&& said(last, RDF_TYPE@) == said(first, RDF_TYPE@)
        + seq![(Term::Node(node), Term::Iri(pkg("Dependency"@)))]
    &&& said(last, pkg("dependencyTarget"@)) == said(first, pkg("dependencyTarget"@))
        + seq![(Term::Node(node), Term::Iri(target))]
    &&& said(last, pkg("dependencyType"@)) == said(first, pkg("dependencyType"@))
        + seq![(Term::Node(node), Term::Iri(dep_type_iri(d.dep_type)))]
    &&& said(last, pkg("versionConstraint"@)) == said(first, pkg("versionConstraint"@))
        + (
            match d.version_constraint {
                Some(limit) => seq![(Term::Node(node), Term::Text(limit))],
                None => Seq::empty(),
            }
        )
    &&& said(last, pkg("directlyDependsOn"@)) == said(first, pkg("directlyDependsOn"@))
        + seq![to_iri(package, target)]
    &&& forall|q: Seq<char>|
        q != pkg("hasDependency"@)
            && q != RDF_TYPE@
            && q != pkg("dependencyTarget"@)
            && q != pkg("dependencyType"@)
            && q != pkg("versionConstraint"@)
            && q != pkg("directlyDependsOn"@)
            ==> #[trigger] said(last, q) == said(first, q)
}

proof fn lemma_dependency_in_steps(
    w: Sheet,
    package: Seq<char>,
    d: Depends,
    distro: Seq<char>,
    release: Seq<char>,
    arch: Seq<char>,
)
    ensures
        with_dependency(w, package, d, distro, release, arch) == ({
            let target = identity_iri(distro, release, arch, d.name);
            let node = bnode_label("dep"@, package + d.name + d.dep_type);
            let w = bnode_object(w, package, pkg("hasDependency"@), node);
            let w = bnode_subject(w, node, RDF_TYPE@, pkg("Dependency"@));
            let w = bnode_subject(w, node, pkg("dependencyTarget"@), target);
            let w = bnode_subject(w, node, pkg("dependencyType"@), dep_type_iri(d.dep_type));
            let w = dependency_step_1(w, d, node);
            let w = link(w, package, pkg("directlyDependsOn"@), target);
            w
        }),
{
    reveal(dependency_step_1);
}

proof fn lemma_dependency_steps(
    w: Sheet,
    package: Seq<char>,
    d: Depends,
    distro: Seq<char>,
    release: Seq<char>,
    arch: Seq<char>,
)
    ensures
        dependency_told(w.log, ({
            let target = identity_iri(distro, release, arch, d.name);
            let node = bnode_label("dep"@, package + d.name + d.dep_type);
            let w = bnode_object(w, package, pkg("hasDependency"@), node);
            let w = bnode_subject(w, node, RDF_TYPE@, pkg("Dependency"@));
            let w = bnode_subject(w, node, pkg("dependencyTarget"@), target);
            let w = bnode_subject(w, node, pkg("dependencyType"@), dep_type_iri(d.dep_type));
            let w = dependency_step_1(w, d, node);
            let w = link(w, package, pkg("directlyDependsOn"@), target);
            w
        }).log, package, d, distro, release, arch),
{
    broadcast use group_writes;

    reveal_strlit("hasDependency");
    reveal_strlit("dependencyTarget");
    reveal_strlit("dependencyType");
    reveal_strlit("versionConstraint");
    reveal_strlit("directlyDependsOn");
    let target = identity_iri(distro, release, arch, d.name);
    let node = bnode_label("dep"@, package + d.name + d.dep_type);
    let w1 = bnode_object(w, package, pkg("hasDependency"@), node);
    let w2 = bnode_subject(w1, node, RDF_TYPE@, pkg("Dependency"@));
    let w3 = bnode_subject(w2, node, pkg("dependencyTarget"@), target);
    let w4 = bnode_subject(w3, node, pkg("dependencyType"@), dep_type_iri(d.dep_type));
    let w5 = dependency_step_1(w4, d, node);
    lemma_dependency_step_1(w4, d, node);
    let w6 = link(w5, package, pkg("directlyDependsOn"@), target);
}

/// What [`with_dependency`] writes says what [`dependency_told`] states.
pub proof fn lemma_dependency_told(
    w: Sheet,
    package: Seq<char>,
    d: Depends,
    distro: Seq<char>,
    release: Seq<char>,
    arch: Seq<char>,
)
    ensures
        dependency_told(
            w.log,
            with_dependency(w, package, d, distro, release, arch).log,
            package,
            d,
            distro,
            release,
            arch,
        ),
{
    lemma_dependency_in_steps(w, package, d, distro, release, arch);
    lemma_dependency_steps(w, package, d, distro, release, arch);
}

proof fn lemma_each_dependency_told(
    w: Sheet,
    package: Seq<char>,
    distro: Seq<char>,
    release: Seq<char>,
    arch: Seq<char>,
    items: Seq<Depends>,
    n: nat,
)
    ensures
        ({
            let first = w.log;
            let last = with_each_dependency(w, package, distro, release, arch, items, n).log;
            &&& said(last, pkg("hasDependency"@)) == said(first, pkg("hasDependency"@))
                + in_turn(
                    |k: int|
                        seq![
                            (
                                Term::Iri(package),
                                Term::Node(
                                    bnode_label(
                                        "dep"@,
                                        package + (items[k]).name + (items[k]).dep_type,
                                    ),
                                ),
                            ),
                        ],
                    n,
                )
            &&& said(last, RDF_TYPE@) == said(first, RDF_TYPE@)
                + in_turn(
                    |k: int|
                        seq![
                            (
                                Term::Node(
                                    bnode_label(
                                        "dep"@,
                                        package + (items[k]).name + (items[k]).dep_type,
                                    ),
                                ),
                                Term::Iri(pkg("Dependency"@)),
                            ),
                        ],
                    n,
                )
            &&& said(last, pkg("dependencyTarget"@)) == said(first, pkg("dependencyTarget"@))
                + in_turn(
                    |k: int|
                        seq![
                            (
                                Term::Node(
                                    bnode_label(
                                        "dep"@,
                                        package + (items[k]).name + (items[k]).dep_type,
                                    ),
                                ),
                                Term::Iri(identity_iri(distro, release, arch, (items[k]).name)),
                            ),
                        ],
                    n,
                )
            &&& said(last, pkg("dependencyType"@)) == said(first, pkg("dependencyType"@))
                + in_turn(
                    |k: int|
                        seq![
                            (
                                Term::Node(
                                    bnode_label(
                                        "dep"@,
                                        package + (items[k]).name + (items[k]).dep_type,
                                    ),
                                ),
                                Term::Iri(dep_type_iri((items[k]).dep_type)),
                            ),
                        ],
                    n,
                )
            &&& said(last, pkg("versionConstraint"@)) == said(first, pkg("versionConstraint"@))
                + in_turn(
                    |k: int|
                        (
                            match (items[k]).version_constraint {
                                Some(limit) => seq![
                                    (
                                        Term::Node(
                                            bnode_label(
                                                "dep"@,
                                                package + (items[k]).name + (items[k]).dep_type,
                                            ),
                                        ),
                                        Term::Text(limit),
                                    ),
                                ],
                                None => Seq::empty(),
                            }
                        ),
                    n,
                )
            &&& said(last, pkg("directlyDependsOn"@)) == said(first, pkg("directlyDependsOn"@))
                + in_turn(
                    |k: int|
                        seq![to_iri(package, identity_iri(distro, release, arch, (items[k]).name))],
                    n,
                )
            &&& forall|q: Seq<char>|
                q != pkg("hasDependency"@)
                    && q != RDF_TYPE@
                    && q != pkg("dependencyTarget"@)
                    && q != pkg("dependencyType"@)
                    && q != pkg("versionConstraint"@)
                    && q != pkg("directlyDependsOn"@)
                    ==> #[trigger] said(last, q) == said(first, q)
        }),
    decreases n,
{
    broadcast use group_writes;

    reveal_strlit("hasDependency");
    reveal_strlit("dependencyTarget");
    reveal_strlit("dependencyType");
    reveal_strlit("versionConstraint");
    reveal_strlit("directlyDependsOn");
    if n > 0 {
        lemma_each_dependency_told(w, package, distro, release, arch, items, (n - 1) as nat);
        lemma_dependency_told(
            with_each_dependency(w, package, distro, release, arch, items, (n - 1) as nat),
            package,
            items[n - 1],
            distro,
            release,
            arch,
        );
    }
}

#[verifier::opaque]
spec fn metadata_step_1(w: Sheet, package: Seq<char>, identity: Seq<char>, m: Metadata) -> Sheet {
    match m.homepage {
        Some(homepage) => {
            let w = literal(w, package, pkg("homepage"@), homepage);
            let w = match forge_url(homepage) {
                Some(url) => {
                    let repo = repo_iri(url);
                    let w = link(w, identity, pkg("upstreamRepository"@), repo);
                    let w = link(w, repo, RDF_TYPE@, VCS@ + "Repository"@);
                    with_upstream_project(w, url)
                },
                None => w,
            };
            w
        },
        None => w,
    }
}

proof fn lemma_metadata_step_1(w: Sheet, package: Seq<char>, identity: Seq<char>, m: Metadata)
    ensures
        ({
            let first = w.log;
            let last = metadata_step_1(w, package, identity, m).log;
            &&& said(last, pkg("homepage"@)) == said(first, pkg("homepage"@))
                + (
                    match m.homepage {
                        Some(homepage) => seq![to_text(package, homepage)],
                        None => Seq::empty(),
                    }
                )
            &&& said(last, pkg("upstreamRepository"@)) == said(first, pkg("upstreamRepository"@))
                + (
                    match m.homepage {
                        Some(homepage) => (
                            match forge_url(homepage) {
                                Some(url) => seq![to_iri(identity, repo_iri(url))],
                                None => Seq::empty(),
                            }
                        ),
                        None => Seq::empty(),
                    }
                )
            &&& said(last, RDF_TYPE@) == said(first, RDF_TYPE@)
                + (
                    match m.homepage {
                        Some(homepage) => (
                            match forge_url(homepage) {
                                Some(url) => seq![to_iri(repo_iri(url), VCS@ + "Repository"@)],
                                None => Seq::empty(),
                            }
                        ),
                        None => Seq::empty(),
                    }
                )
                + (
                    match m.homepage {
                        Some(homepage) => (
                            match forge_url(homepage) {
                                Some(url) => seq![
                                    to_iri(upstream_iri(url), pkg("UpstreamProject"@)),
                                ],
                                None => Seq::empty(),
                            }
                        ),
                        None => Seq::empty(),
                    }
                )
            &&& said(last, pkg("projectName"@)) == said(first, pkg("projectName"@))
                + (
                    match m.homepage {
                        Some(homepage) => (
                            match forge_url(homepage) {
                                Some(url) => seq![to_text(upstream_iri(url), project_name(url))],
                                None => Seq::empty(),
                            }
                        ),
                        None => Seq::empty(),
                    }
                )
            &&& said(last, pkg("projectRepository"@)) == said(first, pkg("projectRepository"@))
                + (
                    match m.homepage {
                        Some(homepage) => (
                            match forge_url(homepage) {
                                Some(url) => seq![to_iri(upstream_iri(url), repo_iri(url))],
                                None => Seq::empty(),
                            }
                        ),
                        None => Seq::empty(),
                    }
                )
            &&& forall|q: Seq<char>|
                q != pkg("homepage"@)
                    && q != pkg("upstreamRepository"@)
                    && q != RDF_TYPE@
                    && q != pkg("projectName"@)
                    && q != pkg("projectRepository"@)
                    ==> #[trigger] said(last, q) == said(first, q)
        }),
{
    broadcast use group_reading;

    reveal(metadata_step_1);
    reveal_strlit("homepage");
    reveal_strlit("upstreamRepository");
    reveal_strlit("projectName");
    reveal_strlit("projectRepository");
    match m.homepage {
        Some(homepage) => {
            match forge_url(homepage) {
                Some(url) => {
                    let repo = repo_iri(url);
                    lemma_upstream_project_told(
                        link(
                            link(
                                literal(w, package, pkg("homepage"@), homepage),
                                identity,
                                pkg("upstreamRepository"@),
                                repo,
                            ),
                            repo,
                            RDF_TYPE@,
                            VCS@ + "Repository"@,
                        ),
                        url,
                    );
                },
                None => {
                },
            }
        },
        None => {
        },
    }
}

/// What is said of the description and the homepage of a package, and of the repository
/// that the homepage is, where it is one.
pub open spec fn metadata_told(
    first: Seq<Fact>,
    last: Seq<Fact>,
    package: Seq<char>,
    identity: Seq<char>,
    m: Metadata,
) -> bool {
    &&& said(last, pkg("description"@)) == said(first, pkg("description"@))
        + text_if(package, description_of(m))
    &&& said(last, pkg("homepage"@)) == said(first, pkg("homepage"@))
        + (
            match m.homepage {
                Some(homepage) => seq![to_text(package, homepage)],
                None => Seq::empty(),
            }
        )
    &&& said(last, pkg("upstreamRepository"@)) == said(first, pkg("upstreamRepository"@))
        + (
            match m.homepage {
                Some(homepage) => (
                    match forge_url(homepage) {
                        Some(url) => seq![to_iri(identity, repo_iri(url))],
                        None => Seq::empty(),
                    }
                ),
                None => Seq::empty(),
            }
        )
    &&& said(last, RDF_TYPE@) == said(first, RDF_TYPE@)
        + (
            match m.homepage {
                Some(homepage) => (
                    match forge_url(homepage) {
                        Some(url) => seq![to_iri(repo_iri(url), VCS@ + "Repository"@)],
                        None => Seq::empty(),
                    }
                ),
                None => Seq::empty(),
            }
        )
        + (
            match m.homepage {
                Some(homepage) => (
                    match forge_url(homepage) {
                        Some(url) => seq![to_iri(upstream_iri(url), pkg("UpstreamProject"@))],
                        None => Seq::empty(),
                    }
                ),
                None => Seq::empty(),
            }
        )
    &&& said(last, pkg("projectName"@)) == said(first, pkg("projectName"@))
        + (
            match m.homepage {
                Some(homepage) => (
                    match forge_url(homepage) {
                        Some(url) => seq![to_text(upstream_iri(url), project_name(url))],
                        None => Seq::empty(),
                    }
                ),
                None => Seq::empty(),
            }
        )
    &&& said(last, pkg("projectRepository"@)) == said(first, pkg("projectRepository"@))
        + (
            match m.homepage {
                Some(homepage) => (
                    match forge_url(homepage) {
                        Some(url) => seq![to_iri(upstream_iri(url), repo_iri(url))],
                        None => Seq::empty(),
                    }
                ),
                None => Seq::empty(),
            }
        )
    &&& forall|q: Seq<char>|
        q != pkg("description"@)
            && q != pkg("homepage"@)
            && q != pkg("upstreamRepository"@)
            && q != RDF_TYPE@
            && q != pkg("projectName"@)
            && q != pkg("projectRepository"@)
            ==> #[trigger] said(last, q) == said(first, q)
}

proof fn lemma_metadata_in_steps(w: Sheet, package: Seq<char>, identity: Seq<char>, m: Metadata)
    ensures
        with_metadata(w, package, identity, m) == ({
            let w = maybe_literal(w, package, pkg("description"@), description_of(m));
            let w = metadata_step_1(w, package, identity, m);
            w
        }),
{
    reveal(maybe_literal);
    reveal(metadata_step_1);
}

proof fn lemma_metadata_steps(w: Sheet, package: Seq<char>, identity: Seq<char>, m: Metadata)
    ensures
        metadata_told(w.log, ({
            let w = maybe_literal(w, package, pkg("description"@), description_of(m));
            let w = metadata_step_1(w, package, identity, m);
            w
        }).log, package, identity, m),
{
    broadcast use group_writes;

    reveal_strlit("description");
    reveal_strlit("homepage");
    reveal_strlit("upstreamRepository");
    reveal_strlit("projectName");
    reveal_strlit("projectRepository");
    let w1 = maybe_literal(w, package, pkg("description"@), description_of(m));
    let w2 = metadata_step_1(w1, package, identity, m);
    lemma_metadata_step_1(w1, package, identity, m);
}

/// What [`with_metadata`] writes says what [`metadata_told`] states.
pub proof fn lemma_metadata_told(
    w: Sheet,
    package: Seq<char>,
    identity: Seq<char>,
    m: Metadata,
)
    ensures
        metadata_told(w.log, with_metadata(w, package, identity, m).log, package, identity, m),
{
    lemma_metadata_in_steps(w, package, identity, m);
    lemma_metadata_steps(w, package, identity, m);
}

/// What is said of the source that a package is built from.
pub open spec fn source_package_told(
    first: Seq<Fact>,
    last: Seq<Fact>,
    package: Seq<char>,
    scope: Scope,
    s: SourceRef,
    version: Seq<char>,
) -> bool {
    let src_version = source_version_of(s, version);
    let src = source_iri(scope.distro, scope.release, s.name, src_version);
    &&& said(last, RDF_TYPE@) == said(first, RDF_TYPE@) + seq![to_iri(src, pkg("SourcePackage"@))]
    &&& said(last, pkg("packageName"@)) == said(first, pkg("packageName"@))
        + seq![to_text(src, s.name)]
    &&& said(last, pkg("builtFromSource"@)) == said(first, pkg("builtFromSource"@))
        + seq![to_iri(package, src)]
    &&& forall|q: Seq<char>|
        q != RDF_TYPE@ && q != pkg("packageName"@) && q != pkg("builtFromSource"@)
            ==> #[trigger] said(last, q) == said(first, q)
}

proof fn lemma_source_package_in_steps(
    w: Sheet,
    package: Seq<char>,
    scope: Scope,
    s: SourceRef,
    version: Seq<char>,
)
    ensures
        with_source_package(w, package, scope, s, version) == ({
            let src_version = source_version_of(s, version);
            let src = source_iri(scope.distro, scope.release, s.name, src_version);
            let w = link(w, src, RDF_TYPE@, pkg("SourcePackage"@));
            let w = literal(w, src, pkg("packageName"@), s.name);
            let w = link(w, package, pkg("builtFromSource"@), src);
            w
        }),
{
}

proof fn lemma_source_package_steps(
    w: Sheet,
    package: Seq<char>,
    scope: Scope,
    s: SourceRef,
    version: Seq<char>,
)
    ensures
        source_package_told(w.log, ({
            let src_version = source_version_of(s, version);
            let src = source_iri(scope.distro, scope.release, s.name, src_version);
            let w = link(w, src, RDF_TYPE@, pkg("SourcePackage"@));
            let w = literal(w, src, pkg("packageName"@), s.name);
            let w = link(w, package, pkg("builtFromSource"@), src);
            w
        }).log, package, scope, s, version),
{
    broadcast use group_writes;

    reveal_strlit("packageName");
    reveal_strlit("builtFromSource");
    let src_version = source_version_of(s, version);
    let src = source_iri(scope.distro, scope.release, s.name, src_version);
    let w1 = link(w, src, RDF_TYPE@, pkg("SourcePackage"@));
    let w2 = literal(w1, src, pkg("packageName"@), s.name);
    let w3 = link(w2, package, pkg("builtFromSource"@), src);
}

/// What [`with_source_package`] writes says what [`source_package_told`] states.
pub proof fn lemma_source_package_told(
    w: Sheet,
    package: Seq<char>,
    scope: Scope,
    s: SourceRef,
    version: Seq<char>,
)
    ensures
        source_package_told(
            w.log,
            with_source_package(w, package, scope, s, version).log,
            package,
            scope,
            s,
            version,
        ),
{
    lemma_source_package_in_steps(w, package, scope, s, version);
    lemma_source_package_steps(w, package, scope, s, version);
}

proof fn lemma_epoch_told(w: Sheet, version: Seq<char>, epoch: i32)
    ensures
        ({
            let first = w.log;
            let last = with_epoch(w, version, epoch).log;
            &&& said(last, pkg("epoch"@)) == said(first, pkg("epoch"@))
                + seq![to_number(version, epoch as int)]
            &&& forall|q: Seq<char>|
                q != pkg("epoch"@) ==> #[trigger] said(last, q) == said(first, q)
        }),
{
    broadcast use group_reading;

    reveal_strlit("epoch");
}

#[verifier::opaque]
spec fn package_core_step_1(w: Sheet, package: Seq<char>, policy: Policy) -> Sheet {
    match policy.ecosystem_type_uri {
        Some(kind) => { link(w, package, RDF_TYPE@, kind) },
        None => w,
    }
}

proof fn lemma_package_core_step_1(w: Sheet, package: Seq<char>, policy: Policy)
    ensures
        ({
            let first = w.log;
            let last = package_core_step_1(w, package, policy).log;
            &&& said(last, RDF_TYPE@) == said(first, RDF_TYPE@)
                + (
                    match policy.ecosystem_type_uri {
                        Some(kind) => seq![to_iri(package, kind)],
                        None => Seq::empty(),
                    }
                )
            &&& forall|q: Seq<char>|
                q != RDF_TYPE@ ==> #[trigger] said(last, q) == said(first, q)
        }),
{
    broadcast use group_reading;

    reveal(package_core_step_1);
}

#[verifier::opaque]
spec fn package_core_step_2(w: Sheet, p: Named, ver: Seq<char>) -> Sheet {
    if p.epoch != 0 { with_epoch(w, ver, p.epoch) } else { w }
}

proof fn lemma_package_core_step_2(w: Sheet, p: Named, ver: Seq<char>)
    ensures
        ({
            let first = w.log;
            let last = package_core_step_2(w, p, ver).log;
            &&& said(last, pkg("epoch"@)) == said(first, pkg("epoch"@))
                + where_so(p.epoch != 0, seq![to_number(ver, p.epoch as int)])
            &&& forall|q: Seq<char>|
                q != pkg("epoch"@) ==> #[trigger] said(last, q) == said(first, q)
        }),
{
    broadcast use group_reading;

    reveal(package_core_step_2);
    reveal_strlit("epoch");
    if p.epoch != 0 {
        lemma_epoch_told(w, ver, p.epoch);
    } else {
    }
}

#[verifier::opaque]
spec fn package_core_step_3(w: Sheet, package: Seq<char>, scope: Scope) -> Sheet {
    if scope.release.len() > 0 {
        let rel = release_iri(scope.distro, scope.release);
        link(w, package, pkg("partOfRelease"@), rel)
    } else {
        w
    }
}

proof fn lemma_package_core_step_3(w: Sheet, package: Seq<char>, scope: Scope)
    ensures
        ({
            let first = w.log;
            let last = package_core_step_3(w, package, scope).log;
            &&& said(last, pkg("partOfRelease"@)) == said(first, pkg("partOfRelease"@))
                + where_so(
                    scope.release.len() > 0,
                    seq![to_iri(package, release_iri(scope.distro, scope.release))],
                )
            &&& forall|q: Seq<char>|
                q != pkg("partOfRelease"@) ==> #[trigger] said(last, q) == said(first, q)
        }),
{
    broadcast use group_reading;

    reveal(package_core_step_3);
    reveal_strlit("partOfRelease");
}

/// What is said of a package itself: what it is, its name and version and the identity that
/// it is a version of, its architecture, distribution and release.
pub open spec fn package_core_told(
    first: Seq<Fact>,
    last: Seq<Fact>,
    package: Seq<char>,
    identity: Seq<char>,
    scope: Scope,
    p: Named,
    policy: Policy,
) -> bool {
    let ver = version_iri(scope.distro, scope.release, p.name, p.full_version);
    let arch = arch_iri(p.arch);
    let dist = distro_iri(scope.distro);
    &&& said(last, RDF_TYPE@) == said(first, RDF_TYPE@)
        + seq![to_iri(package, pkg("BinaryPackage"@))]
        + (
            match policy.ecosystem_type_uri {
                Some(kind) => seq![to_iri(package, kind)],
                None => Seq::empty(),
            }
        )
        + seq![to_iri(identity, pkg("PackageIdentity"@))]
        + seq![to_iri(ver, pkg("Version"@))]
    &&& said(last, pkg("identityName"@)) == said(first, pkg("identityName"@))
        + seq![to_text(identity, p.name)]
    &&& said(last, RDFS_LABEL@) == said(first, RDFS_LABEL@)
        + seq![to_text(identity, p.name + " Package Identity"@)]
    &&& said(last, pkg("isVersionOf"@)) == said(first, pkg("isVersionOf"@))
        + seq![to_iri(package, identity)]
    &&& said(last, pkg("packageName"@)) == said(first, pkg("packageName"@))
        + seq![to_text(package, p.name)]
    &&& said(last, pkg("versionString"@)) == said(first, pkg("versionString"@))
        + seq![to_text(ver, p.full_version)]
    &&& said(last, pkg("hasVersion"@)) == said(first, pkg("hasVersion"@))
        + seq![to_iri(package, ver)]
    &&& said(last, pkg("epoch"@)) == said(first, pkg("epoch"@))
        + where_so(p.epoch != 0, seq![to_number(ver, p.epoch as int)])
    &&& said(last, pkg("targetArchitecture"@)) == said(first, pkg("targetArchitecture"@))
        + seq![to_iri(package, arch)]
    &&& said(last, pkg("partOfDistribution"@)) == said(first, pkg("partOfDistribution"@))
        + seq![to_iri(package, dist)]
    &&& said(last, pkg("partOfRelease"@)) == said(first, pkg("partOfRelease"@))
        + where_so(
            scope.release.len() > 0,
            seq![to_iri(package, release_iri(scope.distro, scope.release))],
        )
    &&& forall|q: Seq<char>|
        q != RDF_TYPE@
            && q != pkg("identityName"@)
            && q != RDFS_LABEL@
            && q != pkg("isVersionOf"@)
            && q != pkg("packageName"@)
            && q != pkg("versionString"@)
            && q != pkg("hasVersion"@)
            && q != pkg("epoch"@)
            && q != pkg("targetArchitecture"@)
            && q != pkg("partOfDistribution"@)
            && q != pkg("partOfRelease"@)
            ==> #[trigger] said(last, q) == said(first, q)
}

proof fn lemma_package_core_in_steps(
    w: Sheet,
    package: Seq<char>,
    identity: Seq<char>,
    scope: Scope,
    p: Named,
    policy: Policy,
)
    ensures
        with_package_core(w, package, identity, scope, p, policy) == ({
            let w = link(w, package, RDF_TYPE@, pkg("BinaryPackage"@));
            let w = package_core_step_1(w, package, policy);
            let w = with_package_identity(w, identity, p.name);
            let w = link(w, package, pkg("isVersionOf"@), identity);
            let w = literal(w, package, pkg("packageName"@), p.name);
            let ver = version_iri(scope.distro, scope.release, p.name, p.full_version);
            let w = link(w, ver, RDF_TYPE@, pkg("Version"@));
            let w = literal(w, ver, pkg("versionString"@), p.full_version);
            let w = link(w, package, pkg("hasVersion"@), ver);
            let w = package_core_step_2(w, p, ver);
            let arch = arch_iri(p.arch);
            let w = link(w, package, pkg("targetArchitecture"@), arch);
            let dist = distro_iri(scope.distro);
            let w = link(w, package, pkg("partOfDistribution"@), dist);
            let w = package_core_step_3(w, package, scope);
            w
        }),
{
    reveal(package_core_step_1);
    reveal(package_core_step_2);
    reveal(package_core_step_3);
}

proof fn lemma_package_core_steps(
    w: Sheet,
    package: Seq<char>,
    identity: Seq<char>,
    scope: Scope,
    p: Named,
    policy: Policy,
)
    ensures
        package_core_told(w.log, ({
            let w = link(w, package, RDF_TYPE@, pkg("BinaryPackage"@));
            let w = package_core_step_1(w, package, policy);
            let w = with_package_identity(w, identity, p.name);
            let w = link(w, package, pkg("isVersionOf"@), identity);
            let w = literal(w, package, pkg("packageName"@), p.name);
            let ver = version_iri(scope.distro, scope.release, p.name, p.full_version);
            let w = link(w, ver, RDF_TYPE@, pkg("Version"@));
            let w = literal(w, ver, pkg("versionString"@), p.full_version);
            let w = link(w, package, pkg("hasVersion"@), ver);
            let w = package_core_step_2(w, p, ver);
            let arch = arch_iri(p.arch);
            let w = link(w, package, pkg("targetArchitecture"@), arch);
            let dist = distro_iri(scope.distro);
            let w = link(w, package, pkg("partOfDistribution"@), dist);
            let w = package_core_step_3(w, package, scope);
            w
        }).log, package, identity, scope, p, policy),
{
    broadcast use group_writes;

    reveal_strlit("identityName");
    reveal_strlit("isVersionOf");
    reveal_strlit("packageName");
    reveal_strlit("versionString");
    reveal_strlit("hasVersion");
    reveal_strlit("epoch");
    reveal_strlit("targetArchitecture");
    reveal_strlit("partOfDistribution");
    reveal_strlit("partOfRelease");
    let w1 = link(w, package, RDF_TYPE@, pkg("BinaryPackage"@));
    let w2 = package_core_step_1(w1, package, policy);
    lemma_package_core_step_1(w1, package, policy);
    let w3 = with_package_identity(w2, identity, p.name);
    lemma_package_identity_told(w2, identity, p.name);
    let w4 = link(w3, package, pkg("isVersionOf"@), identity);
    let w5 = literal(w4, package, pkg("packageName"@), p.name);
    let ver = version_iri(scope.distro, scope.release, p.name, p.full_version);
    let w6 = link(w5, ver, RDF_TYPE@, pkg("Version"@));
    let w7 = literal(w6, ver, pkg("versionString"@), p.full_version);
    let w8 = link(w7, package, pkg("hasVersion"@), ver);
    let w9 = package_core_step_2(w8, p, ver);
    lemma_package_core_step_2(w8, p, ver);
    let arch = arch_iri(p.arch);
    let w10 = link(w9, package, pkg("targetArchitecture"@), arch);
    let dist = distro_iri(scope.distro);
    let w11 = link(w10, package, pkg("partOfDistribution"@), dist);
    let w12 = package_core_step_3(w11, package, scope);
    lemma_package_core_step_3(w11, package, scope);
}

/// What [`with_package_core`] writes says what [`package_core_told`] states.
pub proof fn lemma_package_core_told(
    w: Sheet,
    package: Seq<char>,
    identity: Seq<char>,
    scope: Scope,
    p: Named,
    policy: Policy,
)
    ensures
        package_core_told(
            w.log,
            with_package_core(w, package, identity, scope, p, policy).log,
            package,
            identity,
            scope,
            p,
            policy,
        ),
{
    lemma_package_core_in_steps(w, package, identity, scope, p, policy);
    lemma_package_core_steps(w, package, identity, scope, p, policy);
}

proof fn lemma_maintainers_told(w: Sheet, package: Seq<char>, ir: Record)
    ensures
        ({
            let first = w.log;
            let last = with_maintainers(w, package, ir).log;
            &&& said(last, RDF_TYPE@) == said(first, RDF_TYPE@)
                + in_turn(
                    |k: int| seq![to_iri(maintainer_node((ir.maintainers[k])), pkg("Person"@))],
                    (ir.maintainers.len()),
                )
            &&& said(last, FOAF@ + "name"@) == said(first, FOAF@ + "name"@)
                + in_turn(
                    |k: int|
                        seq![
                            to_text(maintainer_node((ir.maintainers[k])), (ir.maintainers[k]).name),
                        ],
                    (ir.maintainers.len()),
                )
            &&& said(last, RDFS_LABEL@) == said(first, RDFS_LABEL@)
                + in_turn(
                    |k: int|
                        seq![
                            to_text(maintainer_node((ir.maintainers[k])), (ir.maintainers[k]).name),
                        ],
                    (ir.maintainers.len()),
                )
            &&& said(last, FOAF@ + "mbox"@) == said(first, FOAF@ + "mbox"@)
                + in_turn(
                    |k: int|
                        (
                            match (ir.maintainers[k]).email {
                                Some(email) => where_so(
                                    contains(email, "@"@),
                                    seq![
                                        to_iri(
                                            maintainer_node((ir.maintainers[k])),
                                            "mailto:"@ + email,
                                        ),
                                    ],
                                ),
                                None => Seq::empty(),
                            }
                        ),
                    (ir.maintainers.len()),
                )
            &&& said(last, pkg("maintainedBy"@)) == said(first, pkg("maintainedBy"@))
                + in_turn(
                    |k: int| seq![to_iri(package, maintainer_node((ir.maintainers[k])))],
                    (ir.maintainers.len()),
                )
            &&& forall|q: Seq<char>|
                q != RDF_TYPE@
                    && q != FOAF@ + "name"@
                    && q != RDFS_LABEL@
                    && q != FOAF@ + "mbox"@
                    && q != pkg("maintainedBy"@)
                    ==> #[trigger] said(last, q) == said(first, q)
        }),
{
    broadcast use {group_reading, group_foaf};

    reveal_strlit("name");
    reveal_strlit("mbox");
    reveal_strlit("maintainedBy");
    lemma_each_maintainer_told(w, package, ir.maintainers, ir.maintainers.len());
}

proof fn lemma_dependencies_told(w: Sheet, package: Seq<char>, ir: Record)
    ensures
        ({
            let first = w.log;
            let last = with_dependencies(w, package, ir).log;
            &&& said(last, pkg("hasDependency"@)) == said(first, pkg("hasDependency"@))
                + in_turn(
                    |k: int|
                        seq![
                            (
                                Term::Iri(package),
                                Term::Node(
                                    bnode_label(
                                        "dep"@,
                                        package
                                            + (ir.dependencies[k]).name
                                            + (ir.dependencies[k]).dep_type,
                                    ),
                                ),
                            ),
                        ],
                    (ir.dependencies.len()),
                )
            &&& said(last, RDF_TYPE@) == said(first, RDF_TYPE@)
                + in_turn(
                    |k: int|
                        seq![
                            (
                                Term::Node(
                                    bnode_label(
                                        "dep"@,
                                        package
                                            + (ir.dependencies[k]).name
                                            + (ir.dependencies[k]).dep_type,
                                    ),
                                ),
                                Term::Iri(pkg("Dependency"@)),
                            ),
                        ],
                    (ir.dependencies.len()),
                )
            &&& said(last, pkg("dependencyTarget"@)) == said(first, pkg("dependencyTarget"@))
                + in_turn(
                    |k: int|
                        seq![
                            (
                                Term::Node(
                                    bnode_label(
                                        "dep"@,
                                        package
                                            + (ir.dependencies[k]).name
                                            + (ir.dependencies[k]).dep_type,
                                    ),
                                ),
                                Term::Iri(
                                    identity_iri(
                                        ir.scope.distro,
                                        ir.scope.release,
                                        ir.package.arch,
                                        (ir.dependencies[k]).name,
                                    ),
                                ),
                            ),
                        ],
                    (ir.dependencies.len()),
                )
            &&& said(last, pkg("dependencyType"@)) == said(first, pkg("dependencyType"@))
                + in_turn(
                    |k: int|
                        seq![
                            (
                                Term::Node(
                                    bnode_label(
                                        "dep"@,
                                        package
                                            + (ir.dependencies[k]).name
                                            + (ir.dependencies[k]).dep_type,
                                    ),
                                ),
                                Term::Iri(dep_type_iri((ir.dependencies[k]).dep_type)),
                            ),
                        ],
                    (ir.dependencies.len()),
                )
            &&& said(last, pkg("versionConstraint"@)) == said(first, pkg("versionConstraint"@))
                + in_turn(
                    |k: int|
                        (
                            match (ir.dependencies[k]).version_constraint {
                                Some(limit) => seq![
                                    (
                                        Term::Node(
                                            bnode_label(
                                                "dep"@,
                                                package
                                                    + (ir.dependencies[k]).name
                                                    + (ir.dependencies[k]).dep_type,
                                            ),
                                        ),
                                        Term::Text(limit),
                                    ),
                                ],
                                None => Seq::empty(),
                            }
                        ),
                    (ir.dependencies.len()),
                )
            &&& said(last, pkg("directlyDependsOn"@)) == said(first, pkg("directlyDependsOn"@))
                + in_turn(
                    |k: int|
                        seq![
                            to_iri(
                                package,
                                identity_iri(
                                    ir.scope.distro,
                                    ir.scope.release,
                                    ir.package.arch,
                                    (ir.dependencies[k]).name,
                                ),
                            ),
                        ],
                    (ir.dependencies.len()),
                )
            &&& forall|q: Seq<char>|
                q != pkg("hasDependency"@)
                    && q != RDF_TYPE@
                    && q != pkg("dependencyTarget"@)
                    && q != pkg("dependencyType"@)
                    && q != pkg("versionConstraint"@)
                    && q != pkg("directlyDependsOn"@)
                    ==> #[trigger] said(last, q) == said(first, q)
        }),
{
    broadcast use group_reading;

    reveal_strlit("hasDependency");
    reveal_strlit("dependencyTarget");
    reveal_strlit("dependencyType");
    reveal_strlit("versionConstraint");
    reveal_strlit("directlyDependsOn");
    lemma_each_dependency_told(
        w,
        package,
        ir.scope.distro,
        ir.scope.release,
        ir.package.arch,
        ir.dependencies,
        ir.dependencies.len(),
    );
}

/// What is said of where a package is packaged.
pub open spec fn packaging_repo_told(
    first: Seq<Fact>,
    last: Seq<Fact>,
    identity: Seq<char>,
    distro: Seq<char>,
    name: Seq<char>,
) -> bool {
    let distgit = distgit_iri(distro, name);
    &&& said(last, pkg("packagingRepository"@)) == said(first, pkg("packagingRepository"@))
        + seq![to_iri(identity, distgit)]
    &&& said(last, RDF_TYPE@) == said(first, RDF_TYPE@)
        + seq![to_iri(distgit, VCS@ + "Repository"@)]
    &&& forall|q: Seq<char>|
        q != pkg("packagingRepository"@) && q != RDF_TYPE@
            ==> #[trigger] said(last, q) == said(first, q)
}

proof fn lemma_packaging_repo_in_steps(
    w: Sheet,
    identity: Seq<char>,
    distro: Seq<char>,
    name: Seq<char>,
)
    ensures
        with_packaging_repo(w, identity, distro, name) == ({
            let distgit = distgit_iri(distro, name);
            let w = link(w, identity, pkg("packagingRepository"@), distgit);
            let w = link(w, distgit, RDF_TYPE@, VCS@ + "Repository"@);
            w
        }),
{
}

proof fn lemma_packaging_repo_steps(
    w: Sheet,
    identity: Seq<char>,
    distro: Seq<char>,
    name: Seq<char>,
)
    ensures
        packaging_repo_told(w.log, ({
            let distgit = distgit_iri(distro, name);
            let w = link(w, identity, pkg("packagingRepository"@), distgit);
            let w = link(w, distgit, RDF_TYPE@, VCS@ + "Repository"@);
            w
        }).log, identity, distro, name),
{
    broadcast use group_writes;

    reveal_strlit("packagingRepository");
    let distgit = distgit_iri(distro, name);
    let w1 = link(w, identity, pkg("packagingRepository"@), distgit);
    let w2 = link(w1, distgit, RDF_TYPE@, VCS@ + "Repository"@);
}

/// What [`with_packaging_repo`] writes says what [`packaging_repo_told`] states.
pub proof fn lemma_packaging_repo_told(
    w: Sheet,
    identity: Seq<char>,
    distro: Seq<char>,
    name: Seq<char>,
)
    ensures
        packaging_repo_told(
            w.log,
            with_packaging_repo(w, identity, distro, name).log,
            identity,
            distro,
            name,
        ),
{
    lemma_packaging_repo_in_steps(w, identity, distro, name);
    lemma_packaging_repo_steps(w, identity, distro, name);
}

#[verifier::opaque]
spec fn rdf_step_1(
    w: Sheet,
    ir: Record,
    policy: Policy,
    package: Seq<char>,
    identity: Seq<char>,
) -> Sheet {
    with_package_core(w, package, identity, ir.scope, ir.package, policy)
}

proof fn lemma_rdf_step_1(
    w: Sheet,
    ir: Record,
    policy: Policy,
    package: Seq<char>,
    identity: Seq<char>,
)
    ensures
        ({
            let first = w.log;
            let last = rdf_step_1(w, ir, policy, package, identity).log;
            &&& said(last, pkg("packageName"@)) == said(first, pkg("packageName"@))
                + seq![to_text(package, ir.package.name)]
            &&& said(last, pkg("isVersionOf"@)) == said(first, pkg("isVersionOf"@))
                + seq![to_iri(package, identity)]
            &&& said(last, pkg("versionString"@)) == said(first, pkg("versionString"@))
                + seq![
                    to_text(
                        version_iri(
                            ir.scope.distro,
                            ir.scope.release,
                            ir.package.name,
                            ir.package.full_version,
                        ),
                        ir.package.full_version,
                    ),
                ]
            &&& said(last, pkg("maintainedBy"@)) == said(first, pkg("maintainedBy"@))
            &&& said(last, pkg("description"@)) == said(first, pkg("description"@))
            &&& said(last, pkg("homepage"@)) == said(first, pkg("homepage"@))
            &&& said(last, pkg("upstreamRepository"@)) == said(first, pkg("upstreamRepository"@))
            &&& said(last, pkg("builtFromSource"@)) == said(first, pkg("builtFromSource"@))
            &&& said(last, pkg("directlyDependsOn"@)) == said(first, pkg("directlyDependsOn"@))
            &&& said(last, pkg("dependencyType"@)) == said(first, pkg("dependencyType"@))
            &&& said(last, pkg("packagingRepository"@)) == said(first, pkg("packagingRepository"@))
        }),
{
    broadcast use group_reading;

    reveal(rdf_step_1);
    reveal_strlit("identityName");
    reveal_strlit("isVersionOf");
    reveal_strlit("packageName");
    reveal_strlit("versionString");
    reveal_strlit("hasVersion");
    reveal_strlit("epoch");
    reveal_strlit("targetArchitecture");
    reveal_strlit("partOfDistribution");
    reveal_strlit("partOfRelease");
    reveal_strlit("maintainedBy");
    reveal_strlit("description");
    reveal_strlit("homepage");
    reveal_strlit("upstreamRepository");
    reveal_strlit("builtFromSource");
    reveal_strlit("directlyDependsOn");
    reveal_strlit("dependencyType");
    reveal_strlit("packagingRepository");
    lemma_package_core_told(w, package, identity, ir.scope, ir.package, policy);
}

#[verifier::opaque]
spec fn rdf_step_2(w: Sheet, ir: Record, package: Seq<char>) -> Sheet {
    with_maintainers(w, package, ir)
}

proof fn lemma_rdf_step_2(w: Sheet, ir: Record, package: Seq<char>)
    ensures
        ({
            let first = w.log;
            let last = rdf_step_2(w, ir, package).log;
            &&& said(last, pkg("packageName"@)) == said(first, pkg("packageName"@))
            &&& said(last, pkg("isVersionOf"@)) == said(first, pkg("isVersionOf"@))
            &&& said(last, pkg("versionString"@)) == said(first, pkg("versionString"@))
            &&& said(last, pkg("maintainedBy"@)) == said(first, pkg("maintainedBy"@))
                + in_turn(
                    |k: int| seq![to_iri(package, maintainer_node((ir.maintainers[k])))],
                    (ir.maintainers.len()),
                )
            &&& said(last, pkg("description"@)) == said(first, pkg("description"@))
            &&& said(last, pkg("homepage"@)) == said(first, pkg("homepage"@))
            &&& said(last, pkg("upstreamRepository"@)) == said(first, pkg("upstreamRepository"@))
            &&& said(last, pkg("builtFromSource"@)) == said(first, pkg("builtFromSource"@))
            &&& said(last, pkg("directlyDependsOn"@)) == said(first, pkg("directlyDependsOn"@))
            &&& said(last, pkg("dependencyType"@)) == said(first, pkg("dependencyType"@))
            &&& said(last, pkg("packagingRepository"@)) == said(first, pkg("packagingRepository"@))
        }),
{
    broadcast use {group_reading, group_foaf};

    reveal(rdf_step_2);
    reveal_strlit("name");
    reveal_strlit("mbox");
    reveal_strlit("maintainedBy");
    reveal_strlit("packageName");
    reveal_strlit("isVersionOf");
    reveal_strlit("versionString");
    reveal_strlit("description");
    reveal_strlit("homepage");
    reveal_strlit("upstreamRepository");
    reveal_strlit("builtFromSource");
    reveal_strlit("directlyDependsOn");
    reveal_strlit("dependencyType");
    reveal_strlit("packagingRepository");
    lemma_maintainers_told(w, package, ir);
}

#[verifier::opaque]
spec fn rdf_step_3(w: Sheet, ir: Record, package: Seq<char>, identity: Seq<char>) -> Sheet {
    match ir.metadata { Some(m) => { with_metadata(w, package, identity, m) }, None => w, }
}

proof fn lemma_rdf_step_3(w: Sheet, ir: Record, package: Seq<char>, identity: Seq<char>)
    ensures
        ({
            let first = w.log;
            let last = rdf_step_3(w, ir, package, identity).log;
            &&& said(last, pkg("packageName"@)) == said(first, pkg("packageName"@))
            &&& said(last, pkg("isVersionOf"@)) == said(first, pkg("isVersionOf"@))
            &&& said(last, pkg("versionString"@)) == said(first, pkg("versionString"@))
            &&& said(last, pkg("maintainedBy"@)) == said(first, pkg("maintainedBy"@))
            &&& said(last, pkg("description"@)) == said(first, pkg("description"@))
                + (
                    match ir.metadata {
                        Some(m) => text_if(package, description_of(m)),
                        None => Seq::empty(),
                    }
                )
            &&& said(last, pkg("homepage"@)) == said(first, pkg("homepage"@))
                + (
                    match ir.metadata {
                        Some(m) => (
                            match m.homepage {
                                Some(homepage) => seq![to_text(package, homepage)],
                                None => Seq::empty(),
                            }
                        ),
                        None => Seq::empty(),
                    }
                )
            &&& said(last, pkg("upstreamRepository"@)) == said(first, pkg("upstreamRepository"@))
                + (
                    match ir.metadata {
                        Some(m) => (
                            match m.homepage {
                                Some(homepage) => (
                                    match forge_url(homepage) {
                                        Some(url) => seq![to_iri(identity, repo_iri(url))],
                                        None => Seq::empty(),
                                    }
                                ),
                                None => Seq::empty(),
                            }
                        ),
                        None => Seq::empty(),
                    }
                )
            &&& said(last, pkg("builtFromSource"@)) == said(first, pkg("builtFromSource"@))
            &&& said(last, pkg("directlyDependsOn"@)) == said(first, pkg("directlyDependsOn"@))
            &&& said(last, pkg("dependencyType"@)) == said(first, pkg("dependencyType"@))
            &&& said(last, pkg("packagingRepository"@)) == said(first, pkg("packagingRepository"@))
        }),
{
    broadcast use group_reading;

    reveal(rdf_step_3);
    reveal_strlit("description");
    reveal_strlit("homepage");
    reveal_strlit("upstreamRepository");
    reveal_strlit("projectName");
    reveal_strlit("projectRepository");
    reveal_strlit("packageName");
    reveal_strlit("isVersionOf");
    reveal_strlit("versionString");
    reveal_strlit("maintainedBy");
    reveal_strlit("builtFromSource");
    reveal_strlit("directlyDependsOn");
    reveal_strlit("dependencyType");
    reveal_strlit("packagingRepository");
    match ir.metadata {
        Some(m) => {
            lemma_metadata_told(w, package, identity, m);
        },
        None => {
        },
    }
}

#[verifier::opaque]
spec fn rdf_step_4(w: Sheet, ir: Record, package: Seq<char>) -> Sheet {
    match ir.source_package {
        Some(s) => { with_source_package(w, package, ir.scope, s, ir.package.full_version) },
        None => w,
    }
}

proof fn lemma_rdf_step_4(w: Sheet, ir: Record, package: Seq<char>)
    ensures
        ({
            let first = w.log;
            let last = rdf_step_4(w, ir, package).log;
            &&& said(last, pkg("packageName"@)) == said(first, pkg("packageName"@))
                + (
                    match ir.source_package {
                        Some(s) => seq![
                            to_text(
                                source_iri(
                                    ir.scope.distro,
                                    ir.scope.release,
                                    s.name,
                                    source_version_of(s, ir.package.full_version),
                                ),
                                s.name,
                            ),
                        ],
                        None => Seq::empty(),
                    }
                )
            &&& said(last, pkg("isVersionOf"@)) == said(first, pkg("isVersionOf"@))
            &&& said(last, pkg("versionString"@)) == said(first, pkg("versionString"@))
            &&& said(last, pkg("maintainedBy"@)) == said(first, pkg("maintainedBy"@))
            &&& said(last, pkg("description"@)) == said(first, pkg("description"@))
            &&& said(last, pkg("homepage"@)) == said(first, pkg("homepage"@))
            &&& said(last, pkg("upstreamRepository"@)) == said(first, pkg("upstreamRepository"@))
            &&& said(last, pkg("builtFromSource"@)) == said(first, pkg("builtFromSource"@))
                + (
                    match ir.source_package {
                        Some(s) => seq![
                            to_iri(
                                package,
                                source_iri(
                                    ir.scope.distro,
                                    ir.scope.release,
                                    s.name,
                                    source_version_of(s, ir.package.full_version),
                                ),
                            ),
                        ],
                        None => Seq::empty(),
                    }
                )
            &&& said(last, pkg("directlyDependsOn"@)) == said(first, pkg("directlyDependsOn"@))
            &&& said(last, pkg("dependencyType"@)) == said(first, pkg("dependencyType"@))
            &&& said(last, pkg("packagingRepository"@)) == said(first, pkg("packagingRepository"@))
        }),
{
    broadcast use group_reading;

    reveal(rdf_step_4);
    reveal_strlit("packageName");
    reveal_strlit("builtFromSource");
    reveal_strlit("isVersionOf");
    reveal_strlit("versionString");
    reveal_strlit("maintainedBy");
    reveal_strlit("description");
    reveal_strlit("homepage");
    reveal_strlit("upstreamRepository");
    reveal_strlit("directlyDependsOn");
    reveal_strlit("dependencyType");
    reveal_strlit("packagingRepository");
    match ir.source_package {
        Some(s) => {
            lemma_source_package_told(w, package, ir.scope, s, ir.package.full_version);
        },
        None => {
        },
    }
}

#[verifier::opaque]
spec fn rdf_step_5(w: Sheet, ir: Record, package: Seq<char>) -> Sheet {
    with_dependencies(w, package, ir)
}

proof fn lemma_rdf_step_5(w: Sheet, ir: Record, package: Seq<char>)
    ensures
        ({
            let first = w.log;
            let last = rdf_step_5(w, ir, package).log;
            &&& said(last, pkg("packageName"@)) == said(first, pkg("packageName"@))
            &&& said(last, pkg("isVersionOf"@)) == said(first, pkg("isVersionOf"@))
            &&& said(last, pkg("versionString"@)) == said(first, pkg("versionString"@))
            &&& said(last, pkg("maintainedBy"@)) == said(first, pkg("maintainedBy"@))
            &&& said(last, pkg("description"@)) == said(first, pkg("description"@))
            &&& said(last, pkg("homepage"@)) == said(first, pkg("homepage"@))
            &&& said(last, pkg("upstreamRepository"@)) == said(first, pkg("upstreamRepository"@))
            &&& said(last, pkg("builtFromSource"@)) == said(first, pkg("builtFromSource"@))
            &&& said(last, pkg("directlyDependsOn"@)) == said(first, pkg("directlyDependsOn"@))
                + in_turn(
                    |k: int|
                        seq![
                            to_iri(
                                package,
                                identity_iri(
                                    ir.scope.distro,
                                    ir.scope.release,
                                    ir.package.arch,
                                    (ir.dependencies[k]).name,
                                ),
                            ),
                        ],
                    (ir.dependencies.len()),
                )
            &&& said(last, pkg("dependencyType"@)) == said(first, pkg("dependencyType"@))
                + in_turn(
                    |k: int|
                        seq![
                            (
                                Term::Node(
                                    bnode_label(
                                        "dep"@,
                                        package
                                            + (ir.dependencies[k]).name
                                            + (ir.dependencies[k]).dep_type,
                                    ),
                                ),
                                Term::Iri(dep_type_iri((ir.dependencies[k]).dep_type)),
                            ),
                        ],
                    (ir.dependencies.len()),
                )
            &&& said(last, pkg("packagingRepository"@)) == said(first, pkg("packagingRepository"@))
        }),
{
    broadcast use group_reading;

    reveal(rdf_step_5);
    reveal_strlit("hasDependency");
    reveal_strlit("dependencyTarget");
    reveal_strlit("dependencyType");
    reveal_strlit("versionConstraint");
    reveal_strlit("directlyDependsOn");
    reveal_strlit("packageName");
    reveal_strlit("isVersionOf");
    reveal_strlit("versionString");
    reveal_strlit("maintainedBy");
    reveal_strlit("description");
    reveal_strlit("homepage");
    reveal_strlit("upstreamRepository");
    reveal_strlit("builtFromSource");
    reveal_strlit("packagingRepository");
    lemma_dependencies_told(w, package, ir);
}

#[verifier::opaque]
spec fn rdf_step_6(w: Sheet, ir: Record, policy: Policy, identity: Seq<char>) -> Sheet {
    if policy.emit_packaging_repo {
        with_packaging_repo(w, identity, ir.scope.distro, ir.package.name)
    } else {
        w
    }
}

proof fn lemma_rdf_step_6(w: Sheet, ir: Record, policy: Policy, identity: Seq<char>)
    ensures
        ({
            let first = w.log;
            let last = rdf_step_6(w, ir, policy, identity).log;
            &&& said(last, pkg("packageName"@)) == said(first, pkg("packageName"@))
            &&& said(last, pkg("isVersionOf"@)) == said(first, pkg("isVersionOf"@))
            &&& said(last, pkg("versionString"@)) == said(first, pkg("versionString"@))
            &&& said(last, pkg("maintainedBy"@)) == said(first, pkg("maintainedBy"@))
            &&& said(last, pkg("description"@)) == said(first, pkg("description"@))
            &&& said(last, pkg("homepage"@)) == said(first, pkg("homepage"@))
            &&& said(last, pkg("upstreamRepository"@)) == said(first, pkg("upstreamRepository"@))
            &&& said(last, pkg("builtFromSource"@)) == said(first, pkg("builtFromSource"@))
            &&& said(last, pkg("directlyDependsOn"@)) == said(first, pkg("directlyDependsOn"@))
            &&& said(last, pkg("dependencyType"@)) == said(first, pkg("dependencyType"@))
            &&& said(last, pkg("packagingRepository"@)) == said(first, pkg("packagingRepository"@))
                + where_so(
                    policy.emit_packaging_repo,
                    seq![to_iri(identity, distgit_iri(ir.scope.distro, ir.package.name))],
                )
        }),
{
    broadcast use group_reading;

    reveal(rdf_step_6);
    reveal_strlit("packagingRepository");
    reveal_strlit("packageName");
    reveal_strlit("isVersionOf");
    reveal_strlit("versionString");
    reveal_strlit("maintainedBy");
    reveal_strlit("description");
    reveal_strlit("homepage");
    reveal_strlit("upstreamRepository");
    reveal_strlit("builtFromSource");
    reveal_strlit("directlyDependsOn");
    reveal_strlit("dependencyType");
    if policy.emit_packaging_repo {
        lemma_packaging_repo_told(w, identity, ir.scope.distro, ir.package.name);
    } else {
    }
}

/// Everything that is said of a package, whatever kind it is of.
pub open spec fn rdf_told(
    first: Seq<Fact>,
    last: Seq<Fact>,
    ir: Record,
    policy: Policy,
) -> bool {
    let package = package_iri(
        ir.scope.distro,
        ir.scope.release,
        ir.package.arch,
        ir.package.name,
        ir.package.full_version,
    );
    let identity = identity_iri(ir.scope.distro, ir.scope.release, ir.package.arch, ir.package.name);
    &&& said(last, pkg("packageName"@)) == said(first, pkg("packageName"@))
        + seq![to_text(package, ir.package.name)]
        + (
            match ir.source_package {
                Some(s) => seq![
                    to_text(
                        source_iri(
                            ir.scope.distro,
                            ir.scope.release,
                            s.name,
                            source_version_of(s, ir.package.full_version),
                        ),
                        s.name,
                    ),
                ],
                None => Seq::empty(),
            }
        )
    &&& said(last, pkg("isVersionOf"@)) == said(first, pkg("isVersionOf"@))
        + seq![to_iri(package, identity)]
    &&& said(last, pkg("versionString"@)) == said(first, pkg("versionString"@))
        + seq![
            to_text(
                version_iri(
                    ir.scope.distro,
                    ir.scope.release,
                    ir.package.name,
                    ir.package.full_version,
                ),
                ir.package.full_version,
            ),
        ]
    &&& said(last, pkg("maintainedBy"@)) == said(first, pkg("maintainedBy"@))
        + in_turn(
            |k: int| seq![to_iri(package, maintainer_node((ir.maintainers[k])))],
            (ir.maintainers.len()),
        )
    &&& said(last, pkg("description"@)) == said(first, pkg("description"@))
        + (match ir.metadata {Some(m) => text_if(package, description_of(m)), None => Seq::empty()})
    &&& said(last, pkg("homepage"@)) == said(first, pkg("homepage"@))
        + (
            match ir.metadata {
                Some(m) => (
                    match m.homepage {
                        Some(homepage) => seq![to_text(package, homepage)],
                        None => Seq::empty(),
                    }
                ),
                None => Seq::empty(),
            }
        )
    &&& said(last, pkg("upstreamRepository"@)) == said(first, pkg("upstreamRepository"@))
        + (
            match ir.metadata {
                Some(m) => (
                    match m.homepage {
                        Some(homepage) => (
                            match forge_url(homepage) {
                                Some(url) => seq![to_iri(identity, repo_iri(url))],
                                None => Seq::empty(),
                            }
                        ),
                        None => Seq::empty(),
                    }
                ),
                None => Seq::empty(),
            }
        )
    &&& said(last, pkg("builtFromSource"@)) == said(first, pkg("builtFromSource"@))
        + (
            match ir.source_package {
                Some(s) => seq![
                    to_iri(
                        package,
                        source_iri(
                            ir.scope.distro,
                            ir.scope.release,
                            s.name,
                            source_version_of(s, ir.package.full_version),
                        ),
                    ),
                ],
                None => Seq::empty(),
            }
        )
    &&& said(last, pkg("directlyDependsOn"@)) == said(first, pkg("directlyDependsOn"@))
        + in_turn(
            |k: int|
                seq![
                    to_iri(
                        package,
                        identity_iri(
                            ir.scope.distro,
                            ir.scope.release,
                            ir.package.arch,
                            (ir.dependencies[k]).name,
                        ),
                    ),
                ],
            (ir.dependencies.len()),
        )
    &&& said(last, pkg("dependencyType"@)) == said(first, pkg("dependencyType"@))
        + in_turn(
            |k: int|
                seq![
                    (
                        Term::Node(
                            bnode_label(
                                "dep"@,
                                package + (ir.dependencies[k]).name + (ir.dependencies[k]).dep_type,
                            ),
                        ),
                        Term::Iri(dep_type_iri((ir.dependencies[k]).dep_type)),
                    ),
                ],
            (ir.dependencies.len()),
        )
    &&& said(last, pkg("packagingRepository"@)) == said(first, pkg("packagingRepository"@))
        + where_so(
            policy.emit_packaging_repo,
            seq![to_iri(identity, distgit_iri(ir.scope.distro, ir.package.name))],
        )
}

proof fn lemma_rdf_in_steps(w: Sheet, ir: Record, policy: Policy)
    ensures
        with_rdf(w, ir, policy) == ({
            let package = package_iri(
                ir.scope.distro,
                ir.scope.release,
                ir.package.arch,
                ir.package.name,
                ir.package.full_version,
            );
            let identity = identity_iri(
                ir.scope.distro,
                ir.scope.release,
                ir.package.arch,
                ir.package.name,
            );
            let w = rdf_step_1(w, ir, policy, package, identity);
            let w = rdf_step_2(w, ir, package);
            let w = rdf_step_3(w, ir, package, identity);
            let w = rdf_step_4(w, ir, package);
            let w = rdf_step_5(w, ir, package);
            let w = rdf_step_6(w, ir, policy, identity);
            w
        }),
{
    reveal(rdf_step_1);
    reveal(rdf_step_2);
    reveal(rdf_step_3);
    reveal(rdf_step_4);
    reveal(rdf_step_5);
    reveal(rdf_step_6);
}

proof fn lemma_rdf_steps(w: Sheet, ir: Record, policy: Policy)
    ensures
        rdf_told(w.log, ({
            let package = package_iri(
                ir.scope.distro,
                ir.scope.release,
                ir.package.arch,
                ir.package.name,
                ir.package.full_version,
            );
            let identity = identity_iri(
                ir.scope.distro,
                ir.scope.release,
                ir.package.arch,
                ir.package.name,
            );
            let w = rdf_step_1(w, ir, policy, package, identity);
            let w = rdf_step_2(w, ir, package);
            let w = rdf_step_3(w, ir, package, identity);
            let w = rdf_step_4(w, ir, package);
            let w = rdf_step_5(w, ir, package);
            let w = rdf_step_6(w, ir, policy, identity);
            w
        }).log, ir, policy),
{
    broadcast use {group_writes, group_foaf};

    reveal_strlit("identityName");
    reveal_strlit("isVersionOf");
    reveal_strlit("packageName");
    reveal_strlit("versionString");
    reveal_strlit("hasVersion");
    reveal_strlit("epoch");
    reveal_strlit("targetArchitecture");
    reveal_strlit("partOfDistribution");
    reveal_strlit("partOfRelease");
    reveal_strlit("name");
    reveal_strlit("mbox");
    reveal_strlit("maintainedBy");
    reveal_strlit("description");
    reveal_strlit("homepage");
    reveal_strlit("upstreamRepository");
    reveal_strlit("projectName");
    reveal_strlit("projectRepository");
    reveal_strlit("builtFromSource");
    reveal_strlit("hasDependency");
    reveal_strlit("dependencyTarget");
    reveal_strlit("dependencyType");
    reveal_strlit("versionConstraint");
    reveal_strlit("directlyDependsOn");
    reveal_strlit("packagingRepository");
    let package = package_iri(
        ir.scope.distro,
        ir.scope.release,
        ir.package.arch,
        ir.package.name,
        ir.package.full_version,
    );
    let identity = identity_iri(ir.scope.distro, ir.scope.release, ir.package.arch, ir.package.name);
    let w1 = rdf_step_1(w, ir, policy, package, identity);
    lemma_rdf_step_1(w, ir, policy, package, identity);
    let w2 = rdf_step_2(w1, ir, package);
    lemma_rdf_step_2(w1, ir, package);
    let w3 = rdf_step_3(w2, ir, package, identity);
    lemma_rdf_step_3(w2, ir, package, identity);
    let w4 = rdf_step_4(w3, ir, package);
    lemma_rdf_step_4(w3, ir, package);
    let w5 = rdf_step_5(w4, ir, package);
    lemma_rdf_step_5(w4, ir, package);
    let w6 = rdf_step_6(w5, ir, policy, identity);
    lemma_rdf_step_6(w5, ir, policy, identity);
}

/// What [`with_rdf`] writes says what [`rdf_told`] states.
pub proof fn lemma_rdf_told(
    w: Sheet,
    ir: Record,
    policy: Policy,
)
    ensures
        rdf_told(w.log, with_rdf(w, ir, policy).log, ir, policy),
{
    lemma_rdf_in_steps(w, ir, policy);
    lemma_rdf_steps(w, ir, policy);
}

#[verifier::opaque]
spec fn distribution_step_1(w: Sheet, release: Seq<char>, rel: Seq<char>) -> Sheet {
    if numeric_release(release) {
        literal(w, rel, pkg("releaseVersion"@), release)
    } else {
        literal(w, rel, pkg("releaseCodename"@), release)
    }
}

proof fn lemma_distribution_step_1(w: Sheet, release: Seq<char>, rel: Seq<char>)
    ensures
        ({
            let first = w.log;
            let last = distribution_step_1(w, release, rel).log;
            &&& said(last, pkg("releaseVersion"@)) == said(first, pkg("releaseVersion"@))
                + where_so(numeric_release(release), seq![to_text(rel, release)])
            &&& said(last, pkg("releaseCodename"@)) == said(first, pkg("releaseCodename"@))
                + where_so(!(numeric_release(release)), seq![to_text(rel, release)])
            &&& forall|q: Seq<char>|
                q != pkg("releaseVersion"@) && q != pkg("releaseCodename"@)
                    ==> #[trigger] said(last, q) == said(first, q)
        }),
{
    broadcast use group_reading;

    reveal(distribution_step_1);
    reveal_strlit("releaseVersion");
    reveal_strlit("releaseCodename");
}

/// What is said of a distribution and its release.
pub open spec fn distribution_told(
    first: Seq<Fact>,
    last: Seq<Fact>,
    distro: Seq<char>,
    release: Seq<char>,
    display_name: Seq<char>,
) -> bool {
    let dist = distro_iri(distro);
    let rel = release_iri(distro, release);
    &&& said(last, RDF_TYPE@) == said(first, RDF_TYPE@)
        + seq![to_iri(dist, pkg("Distribution"@))]
        + seq![to_iri(rel, pkg("DistributionRelease"@))]
    &&& said(last, pkg("distributionName"@)) == said(first, pkg("distributionName"@))
        + seq![to_text(dist, distro)]
    &&& said(last, RDFS_LABEL@) == said(first, RDFS_LABEL@) + seq![to_text(dist, display_name)]
    &&& said(last, pkg("releaseVersion"@)) == said(first, pkg("releaseVersion"@))
        + where_so(numeric_release(release), seq![to_text(rel, release)])
    &&& said(last, pkg("releaseCodename"@)) == said(first, pkg("releaseCodename"@))
        + where_so(!(numeric_release(release)), seq![to_text(rel, release)])
    &&& said(last, pkg("partOfDistribution"@)) == said(first, pkg("partOfDistribution"@))
        + seq![to_iri(rel, dist)]
    &&& forall|q: Seq<char>|
        q != RDF_TYPE@
            && q != pkg("distributionName"@)
            && q != RDFS_LABEL@
            && q != pkg("releaseVersion"@)
            && q != pkg("releaseCodename"@)
            && q != pkg("partOfDistribution"@)
            ==> #[trigger] said(last, q) == said(first, q)
}

proof fn lemma_distribution_in_steps(
    w: Sheet,
    distro: Seq<char>,
    release: Seq<char>,
    display_name: Seq<char>,
)
    ensures
        with_distribution_metadata(w, distro, release, display_name) == ({
            let dist = distro_iri(distro);
            let rel = release_iri(distro, release);
            let w = link(w, dist, RDF_TYPE@, pkg("Distribution"@));
            let w = literal(w, dist, pkg("distributionName"@), distro);
            let w = literal(w, dist, RDFS_LABEL@, display_name);
            let w = link(w, rel, RDF_TYPE@, pkg("DistributionRelease"@));
            let w = distribution_step_1(w, release, rel);
            let w = link(w, rel, pkg("partOfDistribution"@), dist);
            w
        }),
{
    reveal(distribution_step_1);
}

proof fn lemma_distribution_steps(
    w: Sheet,
    distro: Seq<char>,
    release: Seq<char>,
    display_name: Seq<char>,
)
    ensures
        distribution_told(w.log, ({
            let dist = distro_iri(distro);
            let rel = release_iri(distro, release);
            let w = link(w, dist, RDF_TYPE@, pkg("Distribution"@));
            let w = literal(w, dist, pkg("distributionName"@), distro);
            let w = literal(w, dist, RDFS_LABEL@, display_name);
            let w = link(w, rel, RDF_TYPE@, pkg("DistributionRelease"@));
            let w = distribution_step_1(w, release, rel);
            let w = link(w, rel, pkg("partOfDistribution"@), dist);
            w
        }).log, distro, release, display_name),
{
    broadcast use group_writes;

    reveal_strlit("distributionName");
    reveal_strlit("releaseVersion");
    reveal_strlit("releaseCodename");
    reveal_strlit("partOfDistribution");
    let dist = distro_iri(distro);
    let rel = release_iri(distro, release);
    let w1 = link(w, dist, RDF_TYPE@, pkg("Distribution"@));
    let w2 = literal(w1, dist, pkg("distributionName"@), distro);
    let w3 = literal(w2, dist, RDFS_LABEL@, display_name);
    let w4 = link(w3, rel, RDF_TYPE@, pkg("DistributionRelease"@));
    let w5 = distribution_step_1(w4, release, rel);
    lemma_distribution_step_1(w4, release, rel);
    let w6 = link(w5, rel, pkg("partOfDistribution"@), dist);
}

/// What [`with_distribution_metadata`] writes says what [`distribution_told`] states.
pub proof fn lemma_distribution_told(
    w: Sheet,
    distro: Seq<char>,
    release: Seq<char>,
    display_name: Seq<char>,
)
    ensures
        distribution_told(
            w.log,
            with_distribution_metadata(w, distro, release, display_name).log,
            distro,
            release,
            display_name,
        ),
{
    lemma_distribution_in_steps(w, distro, release, display_name);
    lemma_distribution_steps(w, distro, release, display_name);
}

} // verus!
