//! What is said of Buildroot packages.

use crate::buildroot::{
    version_or_zero, with_build_settings, with_dependency, with_distribution_metadata,
    with_each_dependency, with_package_triples, BuildrootCollector, BuildrootPackage, Described,
};
use crate::ntriples::{
    bnode_label, bnode_object, bnode_subject, boolean, link, literal, pkg, Fact, Sheet,
};
use crate::reading::{
    group_buildroot, group_reading, group_writes, in_turn, maybe_literal, said, text_if, to_iri,
    to_text, to_truth, where_so, Term,
};
use crate::uris::{
    dep_type_iri, distro_iri, identity_iri, package_iri, release_iri, spdx_iri, version_iri,
    BUILDROOT, RDF_TYPE,
};
use vstd::prelude::*;

verus! {

/// What is said of the distribution and its release.
pub open spec fn distribution_told(
    first: Seq<Fact>,
    last: Seq<Fact>,
    c: BuildrootCollector,
) -> bool {
    let dist = distro_iri(c.distro_name@);
    let rel = release_iri(c.distro_name@, c.release_name@);
    &&& said(last, RDF_TYPE@) == said(first, RDF_TYPE@)
        + seq![to_iri(dist, pkg("Distribution"@))]
        + seq![to_iri(rel, pkg("DistributionRelease"@))]
    &&& said(last, pkg("projectName"@)) == said(first, pkg("projectName"@))
        + seq![to_text(dist, "Buildroot"@)]
    &&& said(last, pkg("releaseCodename"@)) == said(first, pkg("releaseCodename"@))
        + seq![to_text(rel, "buildroot"@)]
    &&& said(last, pkg("partOfDistribution"@)) == said(first, pkg("partOfDistribution"@))
        + seq![to_iri(rel, dist)]
    &&& forall|q: Seq<char>|
        q != RDF_TYPE@
            && q != pkg("projectName"@)
            && q != pkg("releaseCodename"@)
            && q != pkg("partOfDistribution"@)
            ==> #[trigger] said(last, q) == said(first, q)
}

proof fn lemma_distribution_in_steps(w: Sheet, c: BuildrootCollector)
    ensures
        with_distribution_metadata(w, c) == ({
            let dist = distro_iri(c.distro_name@);
            let rel = release_iri(c.distro_name@, c.release_name@);
            let w = link(w, dist, RDF_TYPE@, pkg("Distribution"@));
            let w = literal(w, dist, pkg("projectName"@), "Buildroot"@);
            let w = link(w, rel, RDF_TYPE@, pkg("DistributionRelease"@));
            let w = literal(w, rel, pkg("releaseCodename"@), "buildroot"@);
            let w = link(w, rel, pkg("partOfDistribution"@), dist);
            w
        }),
{
}

proof fn lemma_distribution_steps(w: Sheet, c: BuildrootCollector)
    ensures
        distribution_told(w.log, ({
            let dist = distro_iri(c.distro_name@);
            let rel = release_iri(c.distro_name@, c.release_name@);
            let w = link(w, dist, RDF_TYPE@, pkg("Distribution"@));
            let w = literal(w, dist, pkg("projectName"@), "Buildroot"@);
            let w = link(w, rel, RDF_TYPE@, pkg("DistributionRelease"@));
            let w = literal(w, rel, pkg("releaseCodename"@), "buildroot"@);
            let w = link(w, rel, pkg("partOfDistribution"@), dist);
            w
        }).log, c),
{
    broadcast use group_writes;

    reveal_strlit("projectName");
    reveal_strlit("releaseCodename");
    reveal_strlit("partOfDistribution");
    let dist = distro_iri(c.distro_name@);
    let rel = release_iri(c.distro_name@, c.release_name@);
    let w1 = link(w, dist, RDF_TYPE@, pkg("Distribution"@));
    let w2 = literal(w1, dist, pkg("projectName"@), "Buildroot"@);
    let w3 = link(w2, rel, RDF_TYPE@, pkg("DistributionRelease"@));
    let w4 = literal(w3, rel, pkg("releaseCodename"@), "buildroot"@);
    let w5 = link(w4, rel, pkg("partOfDistribution"@), dist);
}

/// What [`with_distribution_metadata`] writes says what [`distribution_told`] states.
pub proof fn lemma_distribution_told(
    w: Sheet,
    c: BuildrootCollector,
)
    ensures
        distribution_told(w.log, with_distribution_metadata(w, c).log, c),
{
    lemma_distribution_in_steps(w, c);
    lemma_distribution_steps(w, c);
}

/// What is said of a dependency: that the package depends on the identity of what is named,
/// directly and through a node of its own, which has the kind.
pub open spec fn dependency_told(
    first: Seq<Fact>,
    last: Seq<Fact>,
    c: BuildrootCollector,
    package: Seq<char>,
    kind: Seq<char>,
    dep: Seq<char>,
) -> bool {
    let target = identity_iri(c.distro_name@, c.release_name@, "any"@, dep);
    let node = bnode_label("dep"@, package + "-"@ + dep);
    &&& said(last, pkg("directlyDependsOn"@)) == said(first, pkg("directlyDependsOn"@))
        + seq![to_iri(package, target)]
    &&& said(last, pkg("hasDependency"@)) == said(first, pkg("hasDependency"@))
        + seq![(Term::Iri(package), Term::Node(node))]
    &&& said(last, RDF_TYPE@) == said(first, RDF_TYPE@)
        + seq![(Term::Node(node), Term::Iri(pkg("Dependency"@)))]
    &&& said(last, pkg("dependencyTarget"@)) == said(first, pkg("dependencyTarget"@))
        + seq![(Term::Node(node), Term::Iri(target))]
    &&& said(last, pkg("dependencyType"@)) == said(first, pkg("dependencyType"@))
        + seq![(Term::Node(node), Term::Iri(dep_type_iri(kind)))]
    &&& forall|q: Seq<char>|
        q != pkg("directlyDependsOn"@)
            && q != pkg("hasDependency"@)
            && q != RDF_TYPE@
            && q != pkg("dependencyTarget"@)
            && q != pkg("dependencyType"@)
            ==> #[trigger] said(last, q) == said(first, q)
}

proof fn lemma_dependency_in_steps(
    w: Sheet,
    c: BuildrootCollector,
    package: Seq<char>,
    kind: Seq<char>,
    dep: Seq<char>,
)
    ensures
        with_dependency(w, c, package, kind, dep) == ({
            let target = identity_iri(c.distro_name@, c.release_name@, "any"@, dep);
            let w = link(w, package, pkg("directlyDependsOn"@), target);
            let node = bnode_label("dep"@, package + "-"@ + dep);
            let w = bnode_object(w, package, pkg("hasDependency"@), node);
            let w = bnode_subject(w, node, RDF_TYPE@, pkg("Dependency"@));
            let w = bnode_subject(w, node, pkg("dependencyTarget"@), target);
            let w = bnode_subject(w, node, pkg("dependencyType"@), dep_type_iri(kind));
            w
        }),
{
}

proof fn lemma_dependency_steps(
    w: Sheet,
    c: BuildrootCollector,
    package: Seq<char>,
    kind: Seq<char>,
    dep: Seq<char>,
)
    ensures
        dependency_told(w.log, ({
            let target = identity_iri(c.distro_name@, c.release_name@, "any"@, dep);
            let w = link(w, package, pkg("directlyDependsOn"@), target);
            let node = bnode_label("dep"@, package + "-"@ + dep);
            let w = bnode_object(w, package, pkg("hasDependency"@), node);
            let w = bnode_subject(w, node, RDF_TYPE@, pkg("Dependency"@));
            let w = bnode_subject(w, node, pkg("dependencyTarget"@), target);
            let w = bnode_subject(w, node, pkg("dependencyType"@), dep_type_iri(kind));
            w
        }).log, c, package, kind, dep),
{
    broadcast use group_writes;

    reveal_strlit("directlyDependsOn");
    reveal_strlit("hasDependency");
    reveal_strlit("dependencyTarget");
    reveal_strlit("dependencyType");
    let target = identity_iri(c.distro_name@, c.release_name@, "any"@, dep);
    let w1 = link(w, package, pkg("directlyDependsOn"@), target);
    let node = bnode_label("dep"@, package + "-"@ + dep);
    let w2 = bnode_object(w1, package, pkg("hasDependency"@), node);
    let w3 = bnode_subject(w2, node, RDF_TYPE@, pkg("Dependency"@));
    let w4 = bnode_subject(w3, node, pkg("dependencyTarget"@), target);
    let w5 = bnode_subject(w4, node, pkg("dependencyType"@), dep_type_iri(kind));
}

/// What [`with_dependency`] writes says what [`dependency_told`] states.
pub proof fn lemma_dependency_told(
    w: Sheet,
    c: BuildrootCollector,
    package: Seq<char>,
    kind: Seq<char>,
    dep: Seq<char>,
)
    ensures
        dependency_told(
            w.log,
            with_dependency(w, c, package, kind, dep).log,
            c,
            package,
            kind,
            dep,
        ),
{
    lemma_dependency_in_steps(w, c, package, kind, dep);
    lemma_dependency_steps(w, c, package, kind, dep);
}

proof fn lemma_each_dependency_told(
    w: Sheet,
    c: BuildrootCollector,
    package: Seq<char>,
    kind: Seq<char>,
    items: Seq<Seq<char>>,
    n: nat,
)
    ensures
        ({
            let first = w.log;
            let last = with_each_dependency(w, c, package, kind, items, n).log;
            &&& said(last, pkg("directlyDependsOn"@)) == said(first, pkg("directlyDependsOn"@))
                + in_turn(
                    |k: int|
                        seq![
                            to_iri(
                                package,
                                identity_iri(c.distro_name@, c.release_name@, "any"@, (items[k])),
                            ),
                        ],
                    n,
                )
            &&& said(last, pkg("hasDependency"@)) == said(first, pkg("hasDependency"@))
                + in_turn(
                    |k: int|
                        seq![
                            (
                                Term::Iri(package),
                                Term::Node(bnode_label("dep"@, package + "-"@ + (items[k]))),
                            ),
                        ],
                    n,
                )
            &&& said(last, RDF_TYPE@) == said(first, RDF_TYPE@)
                + in_turn(
                    |k: int|
                        seq![
                            (
                                Term::Node(bnode_label("dep"@, package + "-"@ + (items[k]))),
                                Term::Iri(pkg("Dependency"@)),
                            ),
                        ],
                    n,
                )
            &&& said(last, pkg("dependencyTarget"@)) == said(first, pkg("dependencyTarget"@))
                + in_turn(
                    |k: int|
                        seq![
                            (
                                Term::Node(bnode_label("dep"@, package + "-"@ + (items[k]))),
                                Term::Iri(
                                    identity_iri(
                                        c.distro_name@,
                                        c.release_name@,
                                        "any"@,
                                        (items[k]),
                                    ),
                                ),
                            ),
                        ],
                    n,
                )
            &&& said(last, pkg("dependencyType"@)) == said(first, pkg("dependencyType"@))
                + in_turn(
                    |k: int|
                        seq![
                            (
                                Term::Node(bnode_label("dep"@, package + "-"@ + (items[k]))),
                                Term::Iri(dep_type_iri(kind)),
                            ),
                        ],
                    n,
                )
            &&& forall|q: Seq<char>|
                q != pkg("directlyDependsOn"@)
                    && q != pkg("hasDependency"@)
                    && q != RDF_TYPE@
                    && q != pkg("dependencyTarget"@)
                    && q != pkg("dependencyType"@)
                    ==> #[trigger] said(last, q) == said(first, q)
        }),
    decreases n,
{
    broadcast use group_writes;

    reveal_strlit("directlyDependsOn");
    reveal_strlit("hasDependency");
    reveal_strlit("dependencyTarget");
    reveal_strlit("dependencyType");
    if n > 0 {
        lemma_each_dependency_told(w, c, package, kind, items, (n - 1) as nat);
        lemma_dependency_told(
            with_each_dependency(w, c, package, kind, items, (n - 1) as nat),
            c,
            package,
            kind,
            items[n - 1],
        );
    }
}

#[verifier::opaque]
spec fn build_settings_step_1(w: Sheet, package: Seq<char>, p: Described) -> Sheet {
    if p.install_staging { boolean(w, package, BUILDROOT@ + "installStaging"@, true) } else { w }
}

proof fn lemma_build_settings_step_1(w: Sheet, package: Seq<char>, p: Described)
    ensures
        ({
            let first = w.log;
            let last = build_settings_step_1(w, package, p).log;
            &&& said(last, BUILDROOT@ + "installStaging"@)
                == said(first, BUILDROOT@ + "installStaging"@)
                + where_so(p.install_staging, seq![to_truth(package, true)])
            &&& forall|q: Seq<char>|
                q != BUILDROOT@ + "installStaging"@ ==> #[trigger] said(last, q) == said(first, q)
        }),
{
    broadcast use {group_reading, group_buildroot};

    reveal(build_settings_step_1);
    reveal_strlit("installStaging");
}

#[verifier::opaque]
spec fn build_settings_step_2(w: Sheet, package: Seq<char>, p: Described) -> Sheet {
    if p.install_target { boolean(w, package, BUILDROOT@ + "installTarget"@, true) } else { w }
}

proof fn lemma_build_settings_step_2(w: Sheet, package: Seq<char>, p: Described)
    ensures
        ({
            let first = w.log;
            let last = build_settings_step_2(w, package, p).log;
            &&& said(last, BUILDROOT@ + "installTarget"@) == said(first, BUILDROOT@ + "installTarget"@)
                + where_so(p.install_target, seq![to_truth(package, true)])
            &&& forall|q: Seq<char>|
                q != BUILDROOT@ + "installTarget"@ ==> #[trigger] said(last, q) == said(first, q)
        }),
{
    broadcast use {group_reading, group_buildroot};

    reveal(build_settings_step_2);
    reveal_strlit("installTarget");
}

/// What is said of how a package is built: each setting that it has by the property of that
/// setting.
pub open spec fn build_settings_told(
    first: Seq<Fact>,
    last: Seq<Fact>,
    package: Seq<char>,
    p: Described,
) -> bool {
    &&& said(last, BUILDROOT@ + "site"@) == said(first, BUILDROOT@ + "site"@)
        + text_if(package, p.site)
    &&& said(last, BUILDROOT@ + "siteMethod"@) == said(first, BUILDROOT@ + "siteMethod"@)
        + text_if(package, p.site_method)
    &&& said(last, BUILDROOT@ + "source"@) == said(first, BUILDROOT@ + "source"@)
        + text_if(package, p.source)
    &&& said(last, BUILDROOT@ + "licenseFiles"@) == said(first, BUILDROOT@ + "licenseFiles"@)
        + text_if(package, p.license_files)
    &&& said(last, BUILDROOT@ + "cpeVendor"@) == said(first, BUILDROOT@ + "cpeVendor"@)
        + text_if(package, p.cpe_vendor)
    &&& said(last, BUILDROOT@ + "cpeProduct"@) == said(first, BUILDROOT@ + "cpeProduct"@)
        + text_if(package, p.cpe_product)
    &&& said(last, BUILDROOT@ + "configOpts"@) == said(first, BUILDROOT@ + "configOpts"@)
        + text_if(package, p.conf_opts)
    &&& said(last, BUILDROOT@ + "infrastructure"@) == said(first, BUILDROOT@ + "infrastructure"@)
        + text_if(package, p.infrastructure)
    &&& said(last, BUILDROOT@ + "installStaging"@) == said(first, BUILDROOT@ + "installStaging"@)
        + where_so(p.install_staging, seq![to_truth(package, true)])
    &&& said(last, BUILDROOT@ + "installTarget"@) == said(first, BUILDROOT@ + "installTarget"@)
        + where_so(p.install_target, seq![to_truth(package, true)])
    &&& forall|q: Seq<char>|
        q != BUILDROOT@ + "site"@
            && q != BUILDROOT@ + "siteMethod"@
            && q != BUILDROOT@ + "source"@
            && q != BUILDROOT@ + "licenseFiles"@
            && q != BUILDROOT@ + "cpeVendor"@
            && q != BUILDROOT@ + "cpeProduct"@
            && q != BUILDROOT@ + "configOpts"@
            && q != BUILDROOT@ + "infrastructure"@
            && q != BUILDROOT@ + "installStaging"@
            && q != BUILDROOT@ + "installTarget"@
            ==> #[trigger] said(last, q) == said(first, q)
}

proof fn lemma_build_settings_in_steps(w: Sheet, package: Seq<char>, p: Described)
    ensures
        with_build_settings(w, package, p) == ({
            let w = maybe_literal(w, package, BUILDROOT@ + "site"@, p.site);
            let w = maybe_literal(w, package, BUILDROOT@ + "siteMethod"@, p.site_method);
            let w = maybe_literal(w, package, BUILDROOT@ + "source"@, p.source);
            let w = maybe_literal(w, package, BUILDROOT@ + "licenseFiles"@, p.license_files);
            let w = maybe_literal(w, package, BUILDROOT@ + "cpeVendor"@, p.cpe_vendor);
            let w = maybe_literal(w, package, BUILDROOT@ + "cpeProduct"@, p.cpe_product);
            let w = maybe_literal(w, package, BUILDROOT@ + "configOpts"@, p.conf_opts);
            let w = maybe_literal(w, package, BUILDROOT@ + "infrastructure"@, p.infrastructure);
            let w = build_settings_step_1(w, package, p);
            let w = build_settings_step_2(w, package, p);
            w
        }),
{
    reveal(maybe_literal);
    reveal(build_settings_step_1);
    reveal(build_settings_step_2);
}

proof fn lemma_build_settings_steps(w: Sheet, package: Seq<char>, p: Described)
    ensures
        build_settings_told(w.log, ({
            let w = maybe_literal(w, package, BUILDROOT@ + "site"@, p.site);
            let w = maybe_literal(w, package, BUILDROOT@ + "siteMethod"@, p.site_method);
            let w = maybe_literal(w, package, BUILDROOT@ + "source"@, p.source);
            let w = maybe_literal(w, package, BUILDROOT@ + "licenseFiles"@, p.license_files);
            let w = maybe_literal(w, package, BUILDROOT@ + "cpeVendor"@, p.cpe_vendor);
            let w = maybe_literal(w, package, BUILDROOT@ + "cpeProduct"@, p.cpe_product);
            let w = maybe_literal(w, package, BUILDROOT@ + "configOpts"@, p.conf_opts);
            let w = maybe_literal(w, package, BUILDROOT@ + "infrastructure"@, p.infrastructure);
            let w = build_settings_step_1(w, package, p);
            let w = build_settings_step_2(w, package, p);
            w
        }).log, package, p),
{
    broadcast use {group_writes, group_buildroot};

    reveal_strlit("site");
    reveal_strlit("siteMethod");
    reveal_strlit("source");
    reveal_strlit("licenseFiles");
    reveal_strlit("cpeVendor");
    reveal_strlit("cpeProduct");
    reveal_strlit("configOpts");
    reveal_strlit("infrastructure");
    reveal_strlit("installStaging");
    reveal_strlit("installTarget");
    let w1 = maybe_literal(w, package, BUILDROOT@ + "site"@, p.site);
    let w2 = maybe_literal(w1, package, BUILDROOT@ + "siteMethod"@, p.site_method);
    let w3 = maybe_literal(w2, package, BUILDROOT@ + "source"@, p.source);
    let w4 = maybe_literal(w3, package, BUILDROOT@ + "licenseFiles"@, p.license_files);
    let w5 = maybe_literal(w4, package, BUILDROOT@ + "cpeVendor"@, p.cpe_vendor);
    let w6 = maybe_literal(w5, package, BUILDROOT@ + "cpeProduct"@, p.cpe_product);
    let w7 = maybe_literal(w6, package, BUILDROOT@ + "configOpts"@, p.conf_opts);
    let w8 = maybe_literal(w7, package, BUILDROOT@ + "infrastructure"@, p.infrastructure);
    let w9 = build_settings_step_1(w8, package, p);
    lemma_build_settings_step_1(w8, package, p);
    let w10 = build_settings_step_2(w9, package, p);
    lemma_build_settings_step_2(w9, package, p);
}

/// What [`with_build_settings`] writes says what [`build_settings_told`] states.
pub proof fn lemma_build_settings_told(
    w: Sheet,
    package: Seq<char>,
    p: Described,
)
    ensures
        build_settings_told(w.log, with_build_settings(w, package, p).log, package, p),
{
    lemma_build_settings_in_steps(w, package, p);
    lemma_build_settings_steps(w, package, p);
}

#[verifier::opaque]
spec fn package_step_1(w: Sheet, p: Described, package: Seq<char>) -> Sheet {
    match p.license {
        Some(license) => {
            let w = literal(w, package, pkg("licenseName"@), license);
            let node = spdx_iri(license);
            let w = link(w, package, pkg("hasLicense"@), node);
            link(w, node, RDF_TYPE@, pkg("License"@))
        },
        None => w,
    }
}

proof fn lemma_package_step_1(w: Sheet, p: Described, package: Seq<char>)
    ensures
        ({
            let first = w.log;
            let last = package_step_1(w, p, package).log;
            &&& said(last, pkg("licenseName"@)) == said(first, pkg("licenseName"@))
                + (
                    match p.license {
                        Some(license) => seq![to_text(package, license)],
                        None => Seq::empty(),
                    }
                )
            &&& said(last, pkg("hasLicense"@)) == said(first, pkg("hasLicense"@))
                + (
                    match p.license {
                        Some(license) => seq![to_iri(package, spdx_iri(license))],
                        None => Seq::empty(),
                    }
                )
            &&& said(last, RDF_TYPE@) == said(first, RDF_TYPE@)
                + (
                    match p.license {
                        Some(license) => seq![to_iri(spdx_iri(license), pkg("License"@))],
                        None => Seq::empty(),
                    }
                )
            &&& forall|q: Seq<char>|
                q != pkg("licenseName"@) && q != pkg("hasLicense"@) && q != RDF_TYPE@
                    ==> #[trigger] said(last, q) == said(first, q)
        }),
{
    broadcast use group_reading;

    reveal(package_step_1);
    reveal_strlit("licenseName");
    reveal_strlit("hasLicense");
}

#[verifier::opaque]
spec fn package_step_2(w: Sheet, p: Described, package: Seq<char>) -> Sheet {
    with_build_settings(w, package, p)
}

proof fn lemma_package_step_2(w: Sheet, p: Described, package: Seq<char>)
    ensures
        ({
            let first = w.log;
            let last = package_step_2(w, p, package).log;
            &&& said(last, BUILDROOT@ + "site"@) == said(first, BUILDROOT@ + "site"@)
                + text_if(package, p.site)
            &&& said(last, BUILDROOT@ + "siteMethod"@) == said(first, BUILDROOT@ + "siteMethod"@)
                + text_if(package, p.site_method)
            &&& said(last, BUILDROOT@ + "source"@) == said(first, BUILDROOT@ + "source"@)
                + text_if(package, p.source)
            &&& said(last, BUILDROOT@ + "licenseFiles"@) == said(first, BUILDROOT@ + "licenseFiles"@)
                + text_if(package, p.license_files)
            &&& said(last, BUILDROOT@ + "cpeVendor"@) == said(first, BUILDROOT@ + "cpeVendor"@)
                + text_if(package, p.cpe_vendor)
            &&& said(last, BUILDROOT@ + "cpeProduct"@) == said(first, BUILDROOT@ + "cpeProduct"@)
                + text_if(package, p.cpe_product)
            &&& said(last, BUILDROOT@ + "configOpts"@) == said(first, BUILDROOT@ + "configOpts"@)
                + text_if(package, p.conf_opts)
            &&& said(last, BUILDROOT@ + "infrastructure"@)
                == said(first, BUILDROOT@ + "infrastructure"@)
                + text_if(package, p.infrastructure)
            &&& said(last, BUILDROOT@ + "installStaging"@)
                == said(first, BUILDROOT@ + "installStaging"@)
                + where_so(p.install_staging, seq![to_truth(package, true)])
            &&& said(last, BUILDROOT@ + "installTarget"@) == said(first, BUILDROOT@ + "installTarget"@)
                + where_so(p.install_target, seq![to_truth(package, true)])
            &&& forall|q: Seq<char>|
                q != BUILDROOT@ + "site"@
                    && q != BUILDROOT@ + "siteMethod"@
                    && q != BUILDROOT@ + "source"@
                    && q != BUILDROOT@ + "licenseFiles"@
                    && q != BUILDROOT@ + "cpeVendor"@
                    && q != BUILDROOT@ + "cpeProduct"@
                    && q != BUILDROOT@ + "configOpts"@
                    && q != BUILDROOT@ + "infrastructure"@
                    && q != BUILDROOT@ + "installStaging"@
                    && q != BUILDROOT@ + "installTarget"@
                    ==> #[trigger] said(last, q) == said(first, q)
        }),
{
    broadcast use {group_reading, group_buildroot};

    reveal(package_step_2);
    reveal_strlit("site");
    reveal_strlit("siteMethod");
    reveal_strlit("source");
    reveal_strlit("licenseFiles");
    reveal_strlit("cpeVendor");
    reveal_strlit("cpeProduct");
    reveal_strlit("configOpts");
    reveal_strlit("infrastructure");
    reveal_strlit("installStaging");
    reveal_strlit("installTarget");
    lemma_build_settings_told(w, package, p);
}

#[verifier::opaque]
spec fn package_step_3(w: Sheet, c: BuildrootCollector, p: Described, package: Seq<char>) -> Sheet {
    with_each_dependency(w, c, package, "build"@, p.dependencies, p.dependencies.len())
}

proof fn lemma_package_step_3(w: Sheet, c: BuildrootCollector, p: Described, package: Seq<char>)
    ensures
        ({
            let first = w.log;
            let last = package_step_3(w, c, p, package).log;
            &&& said(last, pkg("directlyDependsOn"@)) == said(first, pkg("directlyDependsOn"@))
                + in_turn(
                    |k: int|
                        seq![
                            to_iri(
                                package,
                                identity_iri(
                                    c.distro_name@,
                                    c.release_name@,
                                    "any"@,
                                    (p.dependencies[k]),
                                ),
                            ),
                        ],
                    (p.dependencies.len()),
                )
            &&& said(last, pkg("hasDependency"@)) == said(first, pkg("hasDependency"@))
                + in_turn(
                    |k: int|
                        seq![
                            (
                                Term::Iri(package),
                                Term::Node(
                                    bnode_label("dep"@, package + "-"@ + (p.dependencies[k])),
                                ),
                            ),
                        ],
                    (p.dependencies.len()),
                )
            &&& said(last, RDF_TYPE@) == said(first, RDF_TYPE@)
                + in_turn(
                    |k: int|
                        seq![
                            (
                                Term::Node(
                                    bnode_label("dep"@, package + "-"@ + (p.dependencies[k])),
                                ),
                                Term::Iri(pkg("Dependency"@)),
                            ),
                        ],
                    (p.dependencies.len()),
                )
            &&& said(last, pkg("dependencyTarget"@)) == said(first, pkg("dependencyTarget"@))
                + in_turn(
                    |k: int|
                        seq![
                            (
                                Term::Node(
                                    bnode_label("dep"@, package + "-"@ + (p.dependencies[k])),
                                ),
                                Term::Iri(
                                    identity_iri(
                                        c.distro_name@,
                                        c.release_name@,
                                        "any"@,
                                        (p.dependencies[k]),
                                    ),
                                ),
                            ),
                        ],
                    (p.dependencies.len()),
                )
            &&& said(last, pkg("dependencyType"@)) == said(first, pkg("dependencyType"@))
                + in_turn(
                    |k: int|
                        seq![
                            (
                                Term::Node(
                                    bnode_label("dep"@, package + "-"@ + (p.dependencies[k])),
                                ),
                                Term::Iri(dep_type_iri(("build"@))),
                            ),
                        ],
                    (p.dependencies.len()),
                )
            &&& forall|q: Seq<char>|
                q != pkg("directlyDependsOn"@)
                    && q != pkg("hasDependency"@)
                    && q != RDF_TYPE@
                    && q != pkg("dependencyTarget"@)
                    && q != pkg("dependencyType"@)
                    ==> #[trigger] said(last, q) == said(first, q)
        }),
{
    broadcast use group_reading;

    reveal(package_step_3);
    reveal_strlit("directlyDependsOn");
    reveal_strlit("hasDependency");
    reveal_strlit("dependencyTarget");
    reveal_strlit("dependencyType");
    lemma_each_dependency_told(w, c, package, "build"@, p.dependencies, p.dependencies.len());
}

#[verifier::opaque]
spec fn package_step_4(w: Sheet, c: BuildrootCollector, p: Described, package: Seq<char>) -> Sheet {
    with_each_dependency(w, c, package, "host"@, p.host_dependencies, p.host_dependencies.len())
}

proof fn lemma_package_step_4(w: Sheet, c: BuildrootCollector, p: Described, package: Seq<char>)
    ensures
        ({
            let first = w.log;
            let last = package_step_4(w, c, p, package).log;
            &&& said(last, pkg("directlyDependsOn"@)) == said(first, pkg("directlyDependsOn"@))
                + in_turn(
                    |k: int|
                        seq![
                            to_iri(
                                package,
                                identity_iri(
                                    c.distro_name@,
                                    c.release_name@,
                                    "any"@,
                                    (p.host_dependencies[k]),
                                ),
                            ),
                        ],
                    (p.host_dependencies.len()),
                )
            &&& said(last, pkg("hasDependency"@)) == said(first, pkg("hasDependency"@))
                + in_turn(
                    |k: int|
                        seq![
                            (
                                Term::Iri(package),
                                Term::Node(
                                    bnode_label("dep"@, package + "-"@ + (p.host_dependencies[k])),
                                ),
                            ),
                        ],
                    (p.host_dependencies.len()),
                )
            &&& said(last, RDF_TYPE@) == said(first, RDF_TYPE@)
                + in_turn(
                    |k: int|
                        seq![
                            (
                                Term::Node(
                                    bnode_label("dep"@, package + "-"@ + (p.host_dependencies[k])),
                                ),
                                Term::Iri(pkg("Dependency"@)),
                            ),
                        ],
                    (p.host_dependencies.len()),
                )
            &&& said(last, pkg("dependencyTarget"@)) == said(first, pkg("dependencyTarget"@))
                + in_turn(
                    |k: int|
                        seq![
                            (
                                Term::Node(
                                    bnode_label("dep"@, package + "-"@ + (p.host_dependencies[k])),
                                ),
                                Term::Iri(
                                    identity_iri(
                                        c.distro_name@,
                                        c.release_name@,
                                        "any"@,
                                        (p.host_dependencies[k]),
                                    ),
                                ),
                            ),
                        ],
                    (p.host_dependencies.len()),
                )
            &&& said(last, pkg("dependencyType"@)) == said(first, pkg("dependencyType"@))
                + in_turn(
                    |k: int|
                        seq![
                            (
                                Term::Node(
                                    bnode_label("dep"@, package + "-"@ + (p.host_dependencies[k])),
                                ),
                                Term::Iri(dep_type_iri(("host"@))),
                            ),
                        ],
                    (p.host_dependencies.len()),
                )
            &&& forall|q: Seq<char>|
                q != pkg("directlyDependsOn"@)
                    && q != pkg("hasDependency"@)
                    && q != RDF_TYPE@
                    && q != pkg("dependencyTarget"@)
                    && q != pkg("dependencyType"@)
                    ==> #[trigger] said(last, q) == said(first, q)
        }),
{
    broadcast use group_reading;

    reveal(package_step_4);
    reveal_strlit("directlyDependsOn");
    reveal_strlit("hasDependency");
    reveal_strlit("dependencyTarget");
    reveal_strlit("dependencyType");
    lemma_each_dependency_told(
        w,
        c,
        package,
        "host"@,
        p.host_dependencies,
        p.host_dependencies.len(),
    );
}

/// Everything that is said of a package: what it is, its name and version and the identity
/// that it is a version of, its license, its settings, and what it depends on, to be built
/// and on the host.
pub open spec fn package_told(
    first: Seq<Fact>,
    last: Seq<Fact>,
    c: BuildrootCollector,
    p: Described,
) -> bool {
    let version = version_or_zero(p);
    let package = package_iri(c.distro_name@, c.release_name@, "any"@, p.name, version);
    let identity = identity_iri(c.distro_name@, c.release_name@, "any"@, p.name);
    let dist = distro_iri(c.distro_name@);
    let rel = release_iri(c.distro_name@, c.release_name@);
    let ver = version_iri(c.distro_name@, c.release_name@, p.name, version);
    &&& said(last, RDF_TYPE@) == said(first, RDF_TYPE@)
        + seq![to_iri(package, pkg("SourcePackage"@))]
        + seq![to_iri(package, BUILDROOT@ + "BuildrootPackage"@)]
        + seq![to_iri(identity, pkg("PackageIdentity"@))]
        + seq![to_iri(ver, pkg("Version"@))]
        + (
            match p.license {
                Some(license) => seq![to_iri(spdx_iri(license), pkg("License"@))],
                None => Seq::empty(),
            }
        )
        + in_turn(
            |k: int|
                seq![
                    (
                        Term::Node(bnode_label("dep"@, package + "-"@ + (p.dependencies[k]))),
                        Term::Iri(pkg("Dependency"@)),
                    ),
                ],
            (p.dependencies.len()),
        )
        + in_turn(
            |k: int|
                seq![
                    (
                        Term::Node(bnode_label("dep"@, package + "-"@ + (p.host_dependencies[k]))),
                        Term::Iri(pkg("Dependency"@)),
                    ),
                ],
            (p.host_dependencies.len()),
        )
    &&& said(last, pkg("packageName"@)) == said(first, pkg("packageName"@))
        + seq![to_text(package, p.name)]
        + seq![to_text(identity, p.name)]
    &&& said(last, pkg("isVersionOf"@)) == said(first, pkg("isVersionOf"@))
        + seq![to_iri(package, identity)]
    &&& said(last, pkg("versionString"@)) == said(first, pkg("versionString"@))
        + seq![to_text(ver, version)]
    &&& said(last, pkg("hasVersion"@)) == said(first, pkg("hasVersion"@))
        + seq![to_iri(package, ver)]
    &&& said(last, pkg("partOfDistribution"@)) == said(first, pkg("partOfDistribution"@))
        + seq![to_iri(package, dist)]
    &&& said(last, pkg("partOfRelease"@)) == said(first, pkg("partOfRelease"@))
        + seq![to_iri(package, rel)]
    &&& said(last, pkg("licenseName"@)) == said(first, pkg("licenseName"@))
        + (match p.license {Some(license) => seq![to_text(package, license)], None => Seq::empty()})
    &&& said(last, pkg("hasLicense"@)) == said(first, pkg("hasLicense"@))
        + (
            match p.license {
                Some(license) => seq![to_iri(package, spdx_iri(license))],
                None => Seq::empty(),
            }
        )
    &&& said(last, BUILDROOT@ + "site"@) == said(first, BUILDROOT@ + "site"@)
        + text_if(package, p.site)
    &&& said(last, BUILDROOT@ + "siteMethod"@) == said(first, BUILDROOT@ + "siteMethod"@)
        + text_if(package, p.site_method)
    &&& said(last, BUILDROOT@ + "source"@) == said(first, BUILDROOT@ + "source"@)
        + text_if(package, p.source)
    &&& said(last, BUILDROOT@ + "licenseFiles"@) == said(first, BUILDROOT@ + "licenseFiles"@)
        + text_if(package, p.license_files)
    &&& said(last, BUILDROOT@ + "cpeVendor"@) == said(first, BUILDROOT@ + "cpeVendor"@)
        + text_if(package, p.cpe_vendor)
    &&& said(last, BUILDROOT@ + "cpeProduct"@) == said(first, BUILDROOT@ + "cpeProduct"@)
        + text_if(package, p.cpe_product)
    &&& said(last, BUILDROOT@ + "configOpts"@) == said(first, BUILDROOT@ + "configOpts"@)
        + text_if(package, p.conf_opts)
    &&& said(last, BUILDROOT@ + "infrastructure"@) == said(first, BUILDROOT@ + "infrastructure"@)
        + text_if(package, p.infrastructure)
    &&& said(last, BUILDROOT@ + "installStaging"@) == said(first, BUILDROOT@ + "installStaging"@)
        + where_so(p.install_staging, seq![to_truth(package, true)])
    &&& said(last, BUILDROOT@ + "installTarget"@) == said(first, BUILDROOT@ + "installTarget"@)
        + where_so(p.install_target, seq![to_truth(package, true)])
    &&& said(last, pkg("directlyDependsOn"@)) == said(first, pkg("directlyDependsOn"@))
        + in_turn(
            |k: int|
                seq![
                    to_iri(
                        package,
                        identity_iri(c.distro_name@, c.release_name@, "any"@, (p.dependencies[k])),
                    ),
                ],
            (p.dependencies.len()),
        )
        + in_turn(
            |k: int|
                seq![
                    to_iri(
                        package,
                        identity_iri(
                            c.distro_name@,
                            c.release_name@,
                            "any"@,
                            (p.host_dependencies[k]),
                        ),
                    ),
                ],
            (p.host_dependencies.len()),
        )
    &&& said(last, pkg("hasDependency"@)) == said(first, pkg("hasDependency"@))
        + in_turn(
            |k: int|
                seq![
                    (
                        Term::Iri(package),
                        Term::Node(bnode_label("dep"@, package + "-"@ + (p.dependencies[k]))),
                    ),
                ],
            (p.dependencies.len()),
        )
        + in_turn(
            |k: int|
                seq![
                    (
                        Term::Iri(package),
                        Term::Node(bnode_label("dep"@, package + "-"@ + (p.host_dependencies[k]))),
                    ),
                ],
            (p.host_dependencies.len()),
        )
    &&& said(last, pkg("dependencyTarget"@)) == said(first, pkg("dependencyTarget"@))
        + in_turn(
            |k: int|
                seq![
                    (
                        Term::Node(bnode_label("dep"@, package + "-"@ + (p.dependencies[k]))),
                        Term::Iri(
                            identity_iri(
                                c.distro_name@,
                                c.release_name@,
                                "any"@,
                                (p.dependencies[k]),
                            ),
                        ),
                    ),
                ],
            (p.dependencies.len()),
        )
        + in_turn(
            |k: int|
                seq![
                    (
                        Term::Node(bnode_label("dep"@, package + "-"@ + (p.host_dependencies[k]))),
                        Term::Iri(
                            identity_iri(
                                c.distro_name@,
                                c.release_name@,
                                "any"@,
                                (p.host_dependencies[k]),
                            ),
                        ),
                    ),
                ],
            (p.host_dependencies.len()),
        )
    &&& said(last, pkg("dependencyType"@)) == said(first, pkg("dependencyType"@))
        + in_turn(
            |k: int|
                seq![
                    (
                        Term::Node(bnode_label("dep"@, package + "-"@ + (p.dependencies[k]))),
                        Term::Iri(dep_type_iri(("build"@))),
                    ),
                ],
            (p.dependencies.len()),
        )
        + in_turn(
            |k: int|
                seq![
                    (
                        Term::Node(bnode_label("dep"@, package + "-"@ + (p.host_dependencies[k]))),
                        Term::Iri(dep_type_iri(("host"@))),
                    ),
                ],
            (p.host_dependencies.len()),
        )
    &&& forall|q: Seq<char>|
        q != RDF_TYPE@
            && q != pkg("packageName"@)
            && q != pkg("isVersionOf"@)
            && q != pkg("versionString"@)
            && q != pkg("hasVersion"@)
            && q != pkg("partOfDistribution"@)
            && q != pkg("partOfRelease"@)
            && q != pkg("licenseName"@)
            && q != pkg("hasLicense"@)
            && q != BUILDROOT@ + "site"@
            && q != BUILDROOT@ + "siteMethod"@
            && q != BUILDROOT@ + "source"@
            && q != BUILDROOT@ + "licenseFiles"@
            && q != BUILDROOT@ + "cpeVendor"@
            && q != BUILDROOT@ + "cpeProduct"@
            && q != BUILDROOT@ + "configOpts"@
            && q != BUILDROOT@ + "infrastructure"@
            && q != BUILDROOT@ + "installStaging"@
            && q != BUILDROOT@ + "installTarget"@
            && q != pkg("directlyDependsOn"@)
            && q != pkg("hasDependency"@)
            && q != pkg("dependencyTarget"@)
            && q != pkg("dependencyType"@)
            ==> #[trigger] said(last, q) == said(first, q)
}

proof fn lemma_package_in_steps(w: Sheet, c: BuildrootCollector, p: Described)
    ensures
        with_package_triples(w, c, p) == ({
            let version = version_or_zero(p);
            let package = package_iri(c.distro_name@, c.release_name@, "any"@, p.name, version);
            let identity = identity_iri(c.distro_name@, c.release_name@, "any"@, p.name);
            let dist = distro_iri(c.distro_name@);
            let rel = release_iri(c.distro_name@, c.release_name@);
            let w = link(w, package, RDF_TYPE@, pkg("SourcePackage"@));
            let w = link(w, package, RDF_TYPE@, BUILDROOT@ + "BuildrootPackage"@);
            let w = literal(w, package, pkg("packageName"@), p.name);
            let w = link(w, identity, RDF_TYPE@, pkg("PackageIdentity"@));
            let w = literal(w, identity, pkg("packageName"@), p.name);
            let w = link(w, package, pkg("isVersionOf"@), identity);
            let ver = version_iri(c.distro_name@, c.release_name@, p.name, version);
            let w = link(w, ver, RDF_TYPE@, pkg("Version"@));
            let w = literal(w, ver, pkg("versionString"@), version);
            let w = link(w, package, pkg("hasVersion"@), ver);
            let w = link(w, package, pkg("partOfDistribution"@), dist);
            let w = link(w, package, pkg("partOfRelease"@), rel);
            let w = package_step_1(w, p, package);
            let w = package_step_2(w, p, package);
            let w = package_step_3(w, c, p, package);
            let w = package_step_4(w, c, p, package);
            w
        }),
{
    reveal(package_step_1);
    reveal(package_step_2);
    reveal(package_step_3);
    reveal(package_step_4);
}

proof fn lemma_package_steps(w: Sheet, c: BuildrootCollector, p: Described)
    ensures
        package_told(w.log, ({
            let version = version_or_zero(p);
            let package = package_iri(c.distro_name@, c.release_name@, "any"@, p.name, version);
            let identity = identity_iri(c.distro_name@, c.release_name@, "any"@, p.name);
            let dist = distro_iri(c.distro_name@);
            let rel = release_iri(c.distro_name@, c.release_name@);
            let w = link(w, package, RDF_TYPE@, pkg("SourcePackage"@));
            let w = link(w, package, RDF_TYPE@, BUILDROOT@ + "BuildrootPackage"@);
            let w = literal(w, package, pkg("packageName"@), p.name);
            let w = link(w, identity, RDF_TYPE@, pkg("PackageIdentity"@));
            let w = literal(w, identity, pkg("packageName"@), p.name);
            let w = link(w, package, pkg("isVersionOf"@), identity);
            let ver = version_iri(c.distro_name@, c.release_name@, p.name, version);
            let w = link(w, ver, RDF_TYPE@, pkg("Version"@));
            let w = literal(w, ver, pkg("versionString"@), version);
            let w = link(w, package, pkg("hasVersion"@), ver);
            let w = link(w, package, pkg("partOfDistribution"@), dist);
            let w = link(w, package, pkg("partOfRelease"@), rel);
            let w = package_step_1(w, p, package);
            let w = package_step_2(w, p, package);
            let w = package_step_3(w, c, p, package);
            let w = package_step_4(w, c, p, package);
            w
        }).log, c, p),
{
    broadcast use {group_writes, group_buildroot};

    reveal_strlit("packageName");
    reveal_strlit("isVersionOf");
    reveal_strlit("versionString");
    reveal_strlit("hasVersion");
    reveal_strlit("partOfDistribution");
    reveal_strlit("partOfRelease");
    reveal_strlit("licenseName");
    reveal_strlit("hasLicense");
    reveal_strlit("site");
    reveal_strlit("siteMethod");
    reveal_strlit("source");
    reveal_strlit("licenseFiles");
    reveal_strlit("cpeVendor");
    reveal_strlit("cpeProduct");
    reveal_strlit("configOpts");
    reveal_strlit("infrastructure");
    reveal_strlit("installStaging");
    reveal_strlit("installTarget");
    reveal_strlit("directlyDependsOn");
    reveal_strlit("hasDependency");
    reveal_strlit("dependencyTarget");
    reveal_strlit("dependencyType");
    let version = version_or_zero(p);
    let package = package_iri(c.distro_name@, c.release_name@, "any"@, p.name, version);
    let identity = identity_iri(c.distro_name@, c.release_name@, "any"@, p.name);
    let dist = distro_iri(c.distro_name@);
    let rel = release_iri(c.distro_name@, c.release_name@);
    let w1 = link(w, package, RDF_TYPE@, pkg("SourcePackage"@));
    let w2 = link(w1, package, RDF_TYPE@, BUILDROOT@ + "BuildrootPackage"@);
    let w3 = literal(w2, package, pkg("packageName"@), p.name);
    let w4 = link(w3, identity, RDF_TYPE@, pkg("PackageIdentity"@));
    let w5 = literal(w4, identity, pkg("packageName"@), p.name);
    let w6 = link(w5, package, pkg("isVersionOf"@), identity);
    let ver = version_iri(c.distro_name@, c.release_name@, p.name, version);
    let w7 = link(w6, ver, RDF_TYPE@, pkg("Version"@));
    let w8 = literal(w7, ver, pkg("versionString"@), version);
    let w9 = link(w8, package, pkg("hasVersion"@), ver);
    let w10 = link(w9, package, pkg("partOfDistribution"@), dist);
    let w11 = link(w10, package, pkg("partOfRelease"@), rel);
    let w12 = package_step_1(w11, p, package);
    lemma_package_step_1(w11, p, package);
    let w13 = package_step_2(w12, p, package);
    lemma_package_step_2(w12, p, package);
    let w14 = package_step_3(w13, c, p, package);
    lemma_package_step_3(w13, c, p, package);
    let w15 = package_step_4(w14, c, p, package);
    lemma_package_step_4(w14, c, p, package);
}

/// What [`with_package_triples`] writes says what [`package_told`] states.
pub proof fn lemma_package_told(
    w: Sheet,
    c: BuildrootCollector,
    p: Described,
)
    ensures
        package_told(w.log, with_package_triples(w, c, p).log, c, p),
{
    lemma_package_in_steps(w, c, p);
    lemma_package_steps(w, c, p);
}

} // verus!
