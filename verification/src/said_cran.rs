//! What is said of CRAN packages.

use crate::casing::lowercase;
use crate::cran::{
    with_description, with_distribution_metadata, with_each_needed, with_needed,
    with_package_triples, Cran, CranCollector, CranPackage,
};
use crate::ntriples::{boolean, link, literal, pkg, Fact, Sheet};
use crate::reading::{
    group_cran, group_reading, group_writes, in_turn, maybe_literal, said, text_if, to_iri, to_text,
    to_truth, where_so,
};
use crate::uris::{
    distro_iri, identity_iri, package_iri, release_iri, spdx_iri, version_iri, CRAN, RDFS_LABEL,
    RDF_TYPE,
};
use vstd::prelude::*;

verus! {

/// What is said of the distribution and its release.
pub open spec fn distribution_told(
    first: Seq<Fact>,
    last: Seq<Fact>,
    c: CranCollector,
) -> bool {
    let dist = distro_iri("cran"@);
    let rel = release_iri("cran"@, "cran"@);
    &&& said(last, RDF_TYPE@) == said(first, RDF_TYPE@)
        + seq![to_iri(dist, pkg("Distribution"@))]
        + seq![to_iri(rel, pkg("DistributionRelease"@))]
    &&& said(last, RDFS_LABEL@) == said(first, RDFS_LABEL@) + seq![to_text(dist, "CRAN"@)]
    &&& said(last, pkg("projectName"@)) == said(first, pkg("projectName"@))
        + seq![to_text(dist, "CRAN"@)]
    &&& said(last, pkg("releaseCodename"@)) == said(first, pkg("releaseCodename"@))
        + seq![to_text(rel, "cran"@)]
    &&& said(last, pkg("partOfDistribution"@)) == said(first, pkg("partOfDistribution"@))
        + seq![to_iri(rel, dist)]
    &&& forall|q: Seq<char>|
        q != RDF_TYPE@
            && q != RDFS_LABEL@
            && q != pkg("projectName"@)
            && q != pkg("releaseCodename"@)
            && q != pkg("partOfDistribution"@)
            ==> #[trigger] said(last, q) == said(first, q)
}

proof fn lemma_distribution_in_steps(w: Sheet, c: CranCollector)
    ensures
        with_distribution_metadata(w, c) == ({
            let dist = distro_iri("cran"@);
            let rel = release_iri("cran"@, "cran"@);
            let w = link(w, dist, RDF_TYPE@, pkg("Distribution"@));
            let w = literal(w, dist, RDFS_LABEL@, "CRAN"@);
            let w = literal(w, dist, pkg("projectName"@), "CRAN"@);
            let w = link(w, rel, RDF_TYPE@, pkg("DistributionRelease"@));
            let w = literal(w, rel, pkg("releaseCodename"@), "cran"@);
            let w = link(w, rel, pkg("partOfDistribution"@), dist);
            w
        }),
{
}

proof fn lemma_distribution_steps(w: Sheet, c: CranCollector)
    ensures
        distribution_told(w.log, ({
            let dist = distro_iri("cran"@);
            let rel = release_iri("cran"@, "cran"@);
            let w = link(w, dist, RDF_TYPE@, pkg("Distribution"@));
            let w = literal(w, dist, RDFS_LABEL@, "CRAN"@);
            let w = literal(w, dist, pkg("projectName"@), "CRAN"@);
            let w = link(w, rel, RDF_TYPE@, pkg("DistributionRelease"@));
            let w = literal(w, rel, pkg("releaseCodename"@), "cran"@);
            let w = link(w, rel, pkg("partOfDistribution"@), dist);
            w
        }).log, c),
{
    broadcast use group_writes;

    reveal_strlit("projectName");
    reveal_strlit("releaseCodename");
    reveal_strlit("partOfDistribution");
    let dist = distro_iri("cran"@);
    let rel = release_iri("cran"@, "cran"@);
    let w1 = link(w, dist, RDF_TYPE@, pkg("Distribution"@));
    let w2 = literal(w1, dist, RDFS_LABEL@, "CRAN"@);
    let w3 = literal(w2, dist, pkg("projectName"@), "CRAN"@);
    let w4 = link(w3, rel, RDF_TYPE@, pkg("DistributionRelease"@));
    let w5 = literal(w4, rel, pkg("releaseCodename"@), "cran"@);
    let w6 = link(w5, rel, pkg("partOfDistribution"@), dist);
}

/// What [`with_distribution_metadata`] writes says what [`distribution_told`] states.
pub proof fn lemma_distribution_told(
    w: Sheet,
    c: CranCollector,
)
    ensures
        distribution_told(w.log, with_distribution_metadata(w, c).log, c),
{
    lemma_distribution_in_steps(w, c);
    lemma_distribution_steps(w, c);
}

proof fn lemma_needed_told(w: Sheet, package: Seq<char>, name: Seq<char>)
    ensures
        ({
            let first = w.log;
            let last = with_needed(w, package, name).log;
            &&& said(last, pkg("directlyDependsOn"@)) == said(first, pkg("directlyDependsOn"@))
                + seq![to_iri(package, identity_iri("cran"@, "cran"@, "any"@, name))]
            &&& forall|q: Seq<char>|
                q != pkg("directlyDependsOn"@) ==> #[trigger] said(last, q) == said(first, q)
        }),
{
    broadcast use group_reading;

    reveal_strlit("directlyDependsOn");
}

proof fn lemma_each_needed_told(w: Sheet, package: Seq<char>, items: Seq<Seq<char>>, n: nat)
    ensures
        ({
            let first = w.log;
            let last = with_each_needed(w, package, items, n).log;
            &&& said(last, pkg("directlyDependsOn"@)) == said(first, pkg("directlyDependsOn"@))
                + in_turn(
                    |k: int|
                        seq![to_iri(package, identity_iri("cran"@, "cran"@, "any"@, (items[k])))],
                    n,
                )
            &&& forall|q: Seq<char>|
                q != pkg("directlyDependsOn"@) ==> #[trigger] said(last, q) == said(first, q)
        }),
    decreases n,
{
    broadcast use group_writes;

    reveal_strlit("directlyDependsOn");
    if n > 0 {
        lemma_each_needed_told(w, package, items, (n - 1) as nat);
        lemma_needed_told(
            with_each_needed(w, package, items, (n - 1) as nat),
            package,
            items[n - 1],
        );
    }
}

#[verifier::opaque]
spec fn description_step_1(w: Sheet, package: Seq<char>, p: Cran) -> Sheet {
    match p.license {
        Some(license) => {
            let w = literal(w, package, pkg("licenseName"@), license);
            let node = spdx_iri(license);
            let w = link(w, package, pkg("hasLicense"@), node);
            link(w, node, RDF_TYPE@, pkg("License"@))
        },
        None => w,
    }
}

proof fn lemma_description_step_1(w: Sheet, package: Seq<char>, p: Cran)
    ensures
        ({
            let first = w.log;
            let last = description_step_1(w, package, p).log;
            &&& said(last, pkg("licenseName"@)) == said(first, pkg("licenseName"@))
                + (
                    match p.license {
                        Some(license) => seq![to_text(package, license)],
                        None => Seq::empty(),
                    }
                )
            &&& said(last, pkg("hasLicense"@)) == said(first, pkg("hasLicense"@))
                + (
                    match p.license {
                        Some(license) => seq![to_iri(package, spdx_iri(license))],
                        None => Seq::empty(),
                    }
                )
            &&& said(last, RDF_TYPE@) == said(first, RDF_TYPE@)
                + (
                    match p.license {
                        Some(license) => seq![to_iri(spdx_iri(license), pkg("License"@))],
                        None => Seq::empty(),
                    }
                )
            &&& forall|q: Seq<char>|
                q != pkg("licenseName"@) && q != pkg("hasLicense"@) && q != RDF_TYPE@
                    ==> #[trigger] said(last, q) == said(first, q)
        }),
{
    broadcast use group_reading;

    reveal(description_step_1);
    reveal_strlit("licenseName");
    reveal_strlit("hasLicense");
}

#[verifier::opaque]
spec fn description_step_2(w: Sheet, package: Seq<char>, p: Cran) -> Sheet {
    match p.needs_compilation {
        Some(answer) => {
            let lower = lowercase(answer);
            let w = if lower == "yes"@ {
                boolean(w, package, CRAN@ + "needsCompilation"@, true)
            } else {
                boolean(w, package, CRAN@ + "needsCompilation"@, false)
            };
            w
        },
        None => w,
    }
}

proof fn lemma_description_step_2(w: Sheet, package: Seq<char>, p: Cran)
    ensures
        ({
            let first = w.log;
            let last = description_step_2(w, package, p).log;
            &&& said(last, CRAN@ + "needsCompilation"@) == said(first, CRAN@ + "needsCompilation"@)
                + (
                    match p.needs_compilation {
                        Some(answer) => where_so(
                            lowercase(answer) == "yes"@,
                            seq![to_truth(package, true)],
                        ),
                        None => Seq::empty(),
                    }
                )
                + (
                    match p.needs_compilation {
                        Some(answer) => where_so(
                            !(lowercase(answer) == "yes"@),
                            seq![to_truth(package, false)],
                        ),
                        None => Seq::empty(),
                    }
                )
            &&& forall|q: Seq<char>|
                q != CRAN@ + "needsCompilation"@ ==> #[trigger] said(last, q) == said(first, q)
        }),
{
    broadcast use {group_reading, group_cran};

    reveal(description_step_2);
    reveal_strlit("needsCompilation");
}

/// What is said of the description of a package: each field that it has by the property of
/// that field.
pub open spec fn description_told(
    first: Seq<Fact>,
    last: Seq<Fact>,
    package: Seq<char>,
    p: Cran,
) -> bool {
    &&& said(last, CRAN@ + "title"@) == said(first, CRAN@ + "title"@) + text_if(package, p.title)
    &&& said(last, pkg("description"@)) == said(first, pkg("description"@))
        + text_if(package, p.description)
    &&& said(last, pkg("licenseName"@)) == said(first, pkg("licenseName"@))
        + (match p.license {Some(license) => seq![to_text(package, license)], None => Seq::empty()})
    &&& said(last, pkg("hasLicense"@)) == said(first, pkg("hasLicense"@))
        + (
            match p.license {
                Some(license) => seq![to_iri(package, spdx_iri(license))],
                None => Seq::empty(),
            }
        )
    &&& said(last, RDF_TYPE@) == said(first, RDF_TYPE@)
        + (
            match p.license {
                Some(license) => seq![to_iri(spdx_iri(license), pkg("License"@))],
                None => Seq::empty(),
            }
        )
    &&& said(last, CRAN@ + "author"@) == said(first, CRAN@ + "author"@) + text_if(package, p.author)
    &&& said(last, CRAN@ + "maintainer"@) == said(first, CRAN@ + "maintainer"@)
        + text_if(package, p.maintainer)
    &&& said(last, pkg("homepage"@)) == said(first, pkg("homepage"@)) + text_if(package, p.url)
    &&& said(last, CRAN@ + "needsCompilation"@) == said(first, CRAN@ + "needsCompilation"@)
        + (
            match p.needs_compilation {
                Some(answer) => where_so(
                    lowercase(answer) == "yes"@,
                    seq![to_truth(package, true)],
                ),
                None => Seq::empty(),
            }
        )
        + (
            match p.needs_compilation {
                Some(answer) => where_so(
                    !(lowercase(answer) == "yes"@),
                    seq![to_truth(package, false)],
                ),
                None => Seq::empty(),
            }
        )
    &&& said(last, CRAN@ + "systemRequirements"@) == said(first, CRAN@ + "systemRequirements"@)
        + text_if(package, p.system_requirements)
    &&& said(last, CRAN@ + "priority"@) == said(first, CRAN@ + "priority"@)
        + text_if(package, p.priority)
    &&& forall|q: Seq<char>|
        q != CRAN@ + "title"@
            && q != pkg("description"@)
            && q != pkg("licenseName"@)
            && q != pkg("hasLicense"@)
            && q != RDF_TYPE@
            && q != CRAN@ + "author"@
            && q != CRAN@ + "maintainer"@
            && q != pkg("homepage"@)
            && q != CRAN@ + "needsCompilation"@
            && q != CRAN@ + "systemRequirements"@
            && q != CRAN@ + "priority"@
            ==> #[trigger] said(last, q) == said(first, q)
}

proof fn lemma_description_in_steps(w: Sheet, package: Seq<char>, p: Cran)
    ensures
        with_description(w, package, p) == ({
            let w = maybe_literal(w, package, CRAN@ + "title"@, p.title);
            let w = maybe_literal(w, package, pkg("description"@), p.description);
            let w = description_step_1(w, package, p);
            let w = maybe_literal(w, package, CRAN@ + "author"@, p.author);
            let w = maybe_literal(w, package, CRAN@ + "maintainer"@, p.maintainer);
            let w = maybe_literal(w, package, pkg("homepage"@), p.url);
            let w = description_step_2(w, package, p);
            let w = maybe_literal(w, package, CRAN@ + "systemRequirements"@, p.system_requirements);
            let w = maybe_literal(w, package, CRAN@ + "priority"@, p.priority);
            w
        }),
{
    reveal(maybe_literal);
    reveal(description_step_1);
    reveal(description_step_2);
}

proof fn lemma_description_steps(w: Sheet, package: Seq<char>, p: Cran)
    ensures
        description_told(w.log, ({
            let w = maybe_literal(w, package, CRAN@ + "title"@, p.title);
            let w = maybe_literal(w, package, pkg("description"@), p.description);
            let w = description_step_1(w, package, p);
            let w = maybe_literal(w, package, CRAN@ + "author"@, p.author);
            let w = maybe_literal(w, package, CRAN@ + "maintainer"@, p.maintainer);
            let w = maybe_literal(w, package, pkg("homepage"@), p.url);
            let w = description_step_2(w, package, p);
            let w = maybe_literal(w, package, CRAN@ + "systemRequirements"@, p.system_requirements);
            let w = maybe_literal(w, package, CRAN@ + "priority"@, p.priority);
            w
        }).log, package, p),
{
    broadcast use {group_writes, group_cran};

    reveal_strlit("title");
    reveal_strlit("description");
    reveal_strlit("licenseName");
    reveal_strlit("hasLicense");
    reveal_strlit("author");
    reveal_strlit("maintainer");
    reveal_strlit("homepage");
    reveal_strlit("needsCompilation");
    reveal_strlit("systemRequirements");
    reveal_strlit("priority");
    let w1 = maybe_literal(w, package, CRAN@ + "title"@, p.title);
    let w2 = maybe_literal(w1, package, pkg("description"@), p.description);
    let w3 = description_step_1(w2, package, p);
    lemma_description_step_1(w2, package, p);
    let w4 = maybe_literal(w3, package, CRAN@ + "author"@, p.author);
    let w5 = maybe_literal(w4, package, CRAN@ + "maintainer"@, p.maintainer);
    let w6 = maybe_literal(w5, package, pkg("homepage"@), p.url);
    let w7 = description_step_2(w6, package, p);
    lemma_description_step_2(w6, package, p);
    let w8 = maybe_literal(w7, package, CRAN@ + "systemRequirements"@, p.system_requirements);
    let w9 = maybe_literal(w8, package, CRAN@ + "priority"@, p.priority);
}

/// What [`with_description`] writes says what [`description_told`] states.
pub proof fn lemma_description_told(
    w: Sheet,
    package: Seq<char>,
    p: Cran,
)
    ensures
        description_told(w.log, with_description(w, package, p).log, package, p),
{
    lemma_description_in_steps(w, package, p);
    lemma_description_steps(w, package, p);
}

#[verifier::opaque]
spec fn package_step_1(w: Sheet, p: Cran, package: Seq<char>) -> Sheet {
    with_description(w, package, p)
}

proof fn lemma_package_step_1(w: Sheet, p: Cran, package: Seq<char>)
    ensures
        ({
            let first = w.log;
            let last = package_step_1(w, p, package).log;
            &&& said(last, CRAN@ + "title"@) == said(first, CRAN@ + "title"@)
                + text_if(package, p.title)
            &&& said(last, pkg("description"@)) == said(first, pkg("description"@))
                + text_if(package, p.description)
            &&& said(last, pkg("licenseName"@)) == said(first, pkg("licenseName"@))
                + (
                    match p.license {
                        Some(license) => seq![to_text(package, license)],
                        None => Seq::empty(),
                    }
                )
            &&& said(last, pkg("hasLicense"@)) == said(first, pkg("hasLicense"@))
                + (
                    match p.license {
                        Some(license) => seq![to_iri(package, spdx_iri(license))],
                        None => Seq::empty(),
                    }
                )
            &&& said(last, RDF_TYPE@) == said(first, RDF_TYPE@)
                + (
                    match p.license {
                        Some(license) => seq![to_iri(spdx_iri(license), pkg("License"@))],
                        None => Seq::empty(),
                    }
                )
            &&& said(last, CRAN@ + "author"@) == said(first, CRAN@ + "author"@)
                + text_if(package, p.author)
            &&& said(last, CRAN@ + "maintainer"@) == said(first, CRAN@ + "maintainer"@)
                + text_if(package, p.maintainer)
            &&& said(last, pkg("homepage"@)) == said(first, pkg("homepage"@))
                + text_if(package, p.url)
            &&& said(last, CRAN@ + "needsCompilation"@) == said(first, CRAN@ + "needsCompilation"@)
                + (
                    match p.needs_compilation {
                        Some(answer) => where_so(
                            lowercase(answer) == "yes"@,
                            seq![to_truth(package, true)],
                        ),
                        None => Seq::empty(),
                    }
                )
                + (
                    match p.needs_compilation {
                        Some(answer) => where_so(
                            !(lowercase(answer) == "yes"@),
                            seq![to_truth(package, false)],
                        ),
                        None => Seq::empty(),
                    }
                )
            &&& said(last, CRAN@ + "systemRequirements"@) == said(first, CRAN@ + "systemRequirements"@)
                + text_if(package, p.system_requirements)
            &&& said(last, CRAN@ + "priority"@) == said(first, CRAN@ + "priority"@)
                + text_if(package, p.priority)
            &&& forall|q: Seq<char>|
                q != CRAN@ + "title"@
                    && q != pkg("description"@)
                    && q != pkg("licenseName"@)
                    && q != pkg("hasLicense"@)
                    && q != RDF_TYPE@
                    && q != CRAN@ + "author"@
                    && q != CRAN@ + "maintainer"@
                    && q != pkg("homepage"@)
                    && q != CRAN@ + "needsCompilation"@
                    && q != CRAN@ + "systemRequirements"@
                    && q != CRAN@ + "priority"@
                    ==> #[trigger] said(last, q) == said(first, q)
        }),
{
    broadcast use {group_reading, group_cran};

    reveal(package_step_1);
    reveal_strlit("title");
    reveal_strlit("description");
    reveal_strlit("licenseName");
    reveal_strlit("hasLicense");
    reveal_strlit("author");
    reveal_strlit("maintainer");
    reveal_strlit("homepage");
    reveal_strlit("needsCompilation");
    reveal_strlit("systemRequirements");
    reveal_strlit("priority");
    lemma_description_told(w, package, p);
}

/// Everything that is said of a package: what it is, its name and version and the identity
/// that it is a version of, its description, and that it depends on what it depends on and
/// on what it imports.
pub open spec fn package_told(
    first: Seq<Fact>,
    last: Seq<Fact>,
    c: CranCollector,
    p: Cran,
) -> bool {
    let package = package_iri("cran"@, "cran"@, "any"@, p.package, p.version);
    let identity = identity_iri("cran"@, "cran"@, "any"@, p.package);
    let ver = version_iri("cran"@, "cran"@, p.package, p.version);
    let dist = distro_iri("cran"@);
    &&& said(last, RDF_TYPE@) == said(first, RDF_TYPE@)
        + seq![to_iri(package, pkg("Package"@))]
        + seq![to_iri(package, CRAN@ + "CranPackage"@)]
        + seq![to_iri(identity, pkg("PackageIdentity"@))]
        + seq![to_iri(ver, pkg("Version"@))]
        + (
            match p.license {
                Some(license) => seq![to_iri(spdx_iri(license), pkg("License"@))],
                None => Seq::empty(),
            }
        )
    &&& said(last, pkg("packageName"@)) == said(first, pkg("packageName"@))
        + seq![to_text(identity, p.package)]
        + seq![to_text(package, p.package)]
    &&& said(last, pkg("isVersionOf"@)) == said(first, pkg("isVersionOf"@))
        + seq![to_iri(package, identity)]
    &&& said(last, pkg("versionString"@)) == said(first, pkg("versionString"@))
        + seq![to_text(ver, p.version)]
    &&& said(last, pkg("hasVersion"@)) == said(first, pkg("hasVersion"@))
        + seq![to_iri(package, ver)]
    &&& said(last, pkg("partOfDistribution"@)) == said(first, pkg("partOfDistribution"@))
        + seq![to_iri(package, dist)]
    &&& said(last, CRAN@ + "title"@) == said(first, CRAN@ + "title"@) + text_if(package, p.title)
    &&& said(last, pkg("description"@)) == said(first, pkg("description"@))
        + text_if(package, p.description)
    &&& said(last, pkg("licenseName"@)) == said(first, pkg("licenseName"@))
        + (match p.license {Some(license) => seq![to_text(package, license)], None => Seq::empty()})
    &&& said(last, pkg("hasLicense"@)) == said(first, pkg("hasLicense"@))
        + (
            match p.license {
                Some(license) => seq![to_iri(package, spdx_iri(license))],
                None => Seq::empty(),
            }
        )
    &&& said(last, CRAN@ + "author"@) == said(first, CRAN@ + "author"@) + text_if(package, p.author)
    &&& said(last, CRAN@ + "maintainer"@) == said(first, CRAN@ + "maintainer"@)
        + text_if(package, p.maintainer)
    &&& said(last, pkg("homepage"@)) == said(first, pkg("homepage"@)) + text_if(package, p.url)
    &&& said(last, CRAN@ + "needsCompilation"@) == said(first, CRAN@ + "needsCompilation"@)
        + (
            match p.needs_compilation {
                Some(answer) => where_so(
                    lowercase(answer) == "yes"@,
                    seq![to_truth(package, true)],
                ),
                None => Seq::empty(),
            }
        )
        + (
            match p.needs_compilation {
                Some(answer) => where_so(
                    !(lowercase(answer) == "yes"@),
                    seq![to_truth(package, false)],
                ),
                None => Seq::empty(),
            }
        )
    &&& said(last, CRAN@ + "systemRequirements"@) == said(first, CRAN@ + "systemRequirements"@)
        + text_if(package, p.system_requirements)
    &&& said(last, CRAN@ + "priority"@) == said(first, CRAN@ + "priority"@)
        + text_if(package, p.priority)
    &&& said(last, pkg("directlyDependsOn"@)) == said(first, pkg("directlyDependsOn"@))
        + in_turn(
            |k: int| seq![to_iri(package, identity_iri("cran"@, "cran"@, "any"@, (p.depends[k])))],
            (p.depends.len()),
        )
        + in_turn(
            |k: int| seq![to_iri(package, identity_iri("cran"@, "cran"@, "any"@, (p.imports[k])))],
            (p.imports.len()),
        )
    &&& forall|q: Seq<char>|
        q != RDF_TYPE@
            && q != pkg("packageName"@)
            && q != pkg("isVersionOf"@)
            && q != pkg("versionString"@)
            && q != pkg("hasVersion"@)
            && q != pkg("partOfDistribution"@)
            && q != CRAN@ + "title"@
            && q != pkg("description"@)
            && q != pkg("licenseName"@)
            && q != pkg("hasLicense"@)
            && q != CRAN@ + "author"@
            && q != CRAN@ + "maintainer"@
            && q != pkg("homepage"@)
            && q != CRAN@ + "needsCompilation"@
            && q != CRAN@ + "systemRequirements"@
            && q != CRAN@ + "priority"@
            && q != pkg("directlyDependsOn"@)
            ==> #[trigger] said(last, q) == said(first, q)
}

proof fn lemma_package_in_steps(w: Sheet, c: CranCollector, p: Cran)
    ensures
        with_package_triples(w, c, p) == ({
            let package = package_iri("cran"@, "cran"@, "any"@, p.package, p.version);
            let identity = identity_iri("cran"@, "cran"@, "any"@, p.package);
            let w = link(w, package, RDF_TYPE@, pkg("Package"@));
            let w = link(w, package, RDF_TYPE@, CRAN@ + "CranPackage"@);
            let w = link(w, identity, RDF_TYPE@, pkg("PackageIdentity"@));
            let w = literal(w, identity, pkg("packageName"@), p.package);
            let w = link(w, package, pkg("isVersionOf"@), identity);
            let w = literal(w, package, pkg("packageName"@), p.package);
            let ver = version_iri("cran"@, "cran"@, p.package, p.version);
            let w = link(w, ver, RDF_TYPE@, pkg("Version"@));
            let w = literal(w, ver, pkg("versionString"@), p.version);
            let w = link(w, package, pkg("hasVersion"@), ver);
            let dist = distro_iri("cran"@);
            let w = link(w, package, pkg("partOfDistribution"@), dist);
            let w = package_step_1(w, p, package);
            let w = with_each_needed(w, package, p.depends, p.depends.len());
            let w = with_each_needed(w, package, p.imports, p.imports.len());
            w
        }),
{
    reveal(package_step_1);
}

proof fn lemma_package_steps(w: Sheet, c: CranCollector, p: Cran)
    ensures
        package_told(w.log, ({
            let package = package_iri("cran"@, "cran"@, "any"@, p.package, p.version);
            let identity = identity_iri("cran"@, "cran"@, "any"@, p.package);
            let w = link(w, package, RDF_TYPE@, pkg("Package"@));
            let w = link(w, package, RDF_TYPE@, CRAN@ + "CranPackage"@);
            let w = link(w, identity, RDF_TYPE@, pkg("PackageIdentity"@));
            let w = literal(w, identity, pkg("packageName"@), p.package);
            let w = link(w, package, pkg("isVersionOf"@), identity);
            let w = literal(w, package, pkg("packageName"@), p.package);
            let ver = version_iri("cran"@, "cran"@, p.package, p.version);
            let w = link(w, ver, RDF_TYPE@, pkg("Version"@));
            let w = literal(w, ver, pkg("versionString"@), p.version);
            let w = link(w, package, pkg("hasVersion"@), ver);
            let dist = distro_iri("cran"@);
            let w = link(w, package, pkg("partOfDistribution"@), dist);
            let w = package_step_1(w, p, package);
            let w = with_each_needed(w, package, p.depends, p.depends.len());
            let w = with_each_needed(w, package, p.imports, p.imports.len());
            w
        }).log, c, p),
{
    broadcast use {group_writes, group_cran};

    reveal_strlit("packageName");
    reveal_strlit("isVersionOf");
    reveal_strlit("versionString");
    reveal_strlit("hasVersion");
    reveal_strlit("partOfDistribution");
    reveal_strlit("title");
    reveal_strlit("description");
    reveal_strlit("licenseName");
    reveal_strlit("hasLicense");
    reveal_strlit("author");
    reveal_strlit("maintainer");
    reveal_strlit("homepage");
    reveal_strlit("needsCompilation");
    reveal_strlit("systemRequirements");
    reveal_strlit("priority");
    reveal_strlit("directlyDependsOn");
    let package = package_iri("cran"@, "cran"@, "any"@, p.package, p.version);
    let identity = identity_iri("cran"@, "cran"@, "any"@, p.package);
    let w1 = link(w, package, RDF_TYPE@, pkg("Package"@));
    let w2 = link(w1, package, RDF_TYPE@, CRAN@ + "CranPackage"@);
    let w3 = link(w2, identity, RDF_TYPE@, pkg("PackageIdentity"@));
    let w4 = literal(w3, identity, pkg("packageName"@), p.package);
    let w5 = link(w4, package, pkg("isVersionOf"@), identity);
    let w6 = literal(w5, package, pkg("packageName"@), p.package);
    let ver = version_iri("cran"@, "cran"@, p.package, p.version);
    let w7 = link(w6, ver, RDF_TYPE@, pkg("Version"@));
    let w8 = literal(w7, ver, pkg("versionString"@), p.version);
    let w9 = link(w8, package, pkg("hasVersion"@), ver);
    let dist = distro_iri("cran"@);
    let w10 = link(w9, package, pkg("partOfDistribution"@), dist);
    let w11 = package_step_1(w10, p, package);
    lemma_package_step_1(w10, p, package);
    let w12 = with_each_needed(w11, package, p.depends, p.depends.len());
    lemma_each_needed_told(w11, package, p.depends, p.depends.len());
    let w13 = with_each_needed(w12, package, p.imports, p.imports.len());
    lemma_each_needed_told(w12, package, p.imports, p.imports.len());
}

/// What [`with_package_triples`] writes says what [`package_told`] states.
pub proof fn lemma_package_told(
    w: Sheet,
    c: CranCollector,
    p: Cran,
)
    ensures
        package_told(w.log, with_package_triples(w, c, p).log, c, p),
{
    lemma_package_in_steps(w, c, p);
    lemma_package_steps(w, c, p);
}

} // verus!
