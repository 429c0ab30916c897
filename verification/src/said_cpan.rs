//! What is said of CPAN distributions.

use crate::cpan::{
    with_distribution_metadata, with_distribution_triples, with_each_license, with_each_need,
    with_license, with_need, CpanCollector, CpanNeed, CpanRelease,
};
use crate::emit::rdf::with_package_identity;
use crate::ntriples::{link, literal, pkg, Fact, Sheet};
use crate::reading::{
    group_cpan, group_reading, group_writes, in_turn, maybe_literal, said, text_if, to_iri, to_text,
    where_so,
};
use crate::said_rdf::lemma_package_identity_told;
use crate::uris::{
    distro_iri, identity_iri, package_iri, release_iri, repo_iri, spdx_iri, version_iri, CPAN,
    RDFS_LABEL, RDF_TYPE,
};
use vstd::prelude::*;

verus! {

/// What is said of the distribution and its release.
pub open spec fn distribution_told(
    first: Seq<Fact>,
    last: Seq<Fact>,
    c: CpanCollector,
) -> bool {
    let dist = distro_iri("cpan"@);
    let rel = release_iri("cpan"@, "cpan"@);
    &&& said(last, RDF_TYPE@) == said(first, RDF_TYPE@)
        + seq![to_iri(dist, pkg("Distribution"@))]
        + seq![to_iri(rel, pkg("DistributionRelease"@))]
    &&& said(last, pkg("projectName"@)) == said(first, pkg("projectName"@))
        + seq![to_text(dist, "CPAN"@)]
    &&& said(last, pkg("releaseCodename"@)) == said(first, pkg("releaseCodename"@))
        + seq![to_text(rel, "cpan"@)]
    &&& said(last, pkg("partOfDistribution"@)) == said(first, pkg("partOfDistribution"@))
        + seq![to_iri(rel, dist)]
    &&& forall|q: Seq<char>|
        q != RDF_TYPE@
            && q != pkg("projectName"@)
            && q != pkg("releaseCodename"@)
            && q != pkg("partOfDistribution"@)
            ==> #[trigger] said(last, q) == said(first, q)
}

proof fn lemma_distribution_in_steps(w: Sheet, c: CpanCollector)
    ensures
        with_distribution_metadata(w, c) == ({
            let dist = distro_iri("cpan"@);
            let rel = release_iri("cpan"@, "cpan"@);
            let w = link(w, dist, RDF_TYPE@, pkg("Distribution"@));
            let w = literal(w, dist, pkg("projectName"@), "CPAN"@);
            let w = link(w, rel, RDF_TYPE@, pkg("DistributionRelease"@));
            let w = literal(w, rel, pkg("releaseCodename"@), "cpan"@);
            let w = link(w, rel, pkg("partOfDistribution"@), dist);
            w
        }),
{
}

proof fn lemma_distribution_steps(w: Sheet, c: CpanCollector)
    ensures
        distribution_told(w.log, ({
            let dist = distro_iri("cpan"@);
            let rel = release_iri("cpan"@, "cpan"@);
            let w = link(w, dist, RDF_TYPE@, pkg("Distribution"@));
            let w = literal(w, dist, pkg("projectName"@), "CPAN"@);
            let w = link(w, rel, RDF_TYPE@, pkg("DistributionRelease"@));
            let w = literal(w, rel, pkg("releaseCodename"@), "cpan"@);
            let w = link(w, rel, pkg("partOfDistribution"@), dist);
            w
        }).log, c),
{
    broadcast use group_writes;

    reveal_strlit("projectName");
    reveal_strlit("releaseCodename");
    reveal_strlit("partOfDistribution");
    let dist = distro_iri("cpan"@);
    let rel = release_iri("cpan"@, "cpan"@);
    let w1 = link(w, dist, RDF_TYPE@, pkg("Distribution"@));
    let w2 = literal(w1, dist, pkg("projectName"@), "CPAN"@);
    let w3 = link(w2, rel, RDF_TYPE@, pkg("DistributionRelease"@));
    let w4 = literal(w3, rel, pkg("releaseCodename"@), "cpan"@);
    let w5 = link(w4, rel, pkg("partOfDistribution"@), dist);
}

/// What [`with_distribution_metadata`] writes says what [`distribution_told`] states.
pub proof fn lemma_distribution_told(
    w: Sheet,
    c: CpanCollector,
)
    ensures
        distribution_told(w.log, with_distribution_metadata(w, c).log, c),
{
    lemma_distribution_in_steps(w, c);
    lemma_distribution_steps(w, c);
}

/// What is said of a license of a package.
pub open spec fn license_told(
    first: Seq<Fact>,
    last: Seq<Fact>,
    package: Seq<char>,
    license: Seq<char>,
) -> bool {
    let node = spdx_iri(license);
    &&& said(last, pkg("licenseName"@)) == said(first, pkg("licenseName"@))
        + seq![to_text(package, license)]
    &&& said(last, pkg("hasLicense"@)) == said(first, pkg("hasLicense"@))
        + seq![to_iri(package, node)]
    &&& said(last, RDF_TYPE@) == said(first, RDF_TYPE@) + seq![to_iri(node, pkg("License"@))]
    &&& forall|q: Seq<char>|
        q != pkg("licenseName"@) && q != pkg("hasLicense"@) && q != RDF_TYPE@
            ==> #[trigger] said(last, q) == said(first, q)
}

proof fn lemma_license_in_steps(w: Sheet, package: Seq<char>, license: Seq<char>)
    ensures
        with_license(w, package, license) == ({
            let w = literal(w, package, pkg("licenseName"@), license);
            let node = spdx_iri(license);
            let w = link(w, package, pkg("hasLicense"@), node);
            let w = link(w, node, RDF_TYPE@, pkg("License"@));
            w
        }),
{
}

proof fn lemma_license_steps(w: Sheet, package: Seq<char>, license: Seq<char>)
    ensures
        license_told(w.log, ({
            let w = literal(w, package, pkg("licenseName"@), license);
            let node = spdx_iri(license);
            let w = link(w, package, pkg("hasLicense"@), node);
            let w = link(w, node, RDF_TYPE@, pkg("License"@));
            w
        }).log, package, license),
{
    broadcast use group_writes;

    reveal_strlit("licenseName");
    reveal_strlit("hasLicense");
    let w1 = literal(w, package, pkg("licenseName"@), license);
    let node = spdx_iri(license);
    let w2 = link(w1, package, pkg("hasLicense"@), node);
    let w3 = link(w2, node, RDF_TYPE@, pkg("License"@));
}

/// What [`with_license`] writes says what [`license_told`] states.
pub proof fn lemma_license_told(
    w: Sheet,
    package: Seq<char>,
    license: Seq<char>,
)
    ensures
        license_told(w.log, with_license(w, package, license).log, package, license),
{
    lemma_license_in_steps(w, package, license);
    lemma_license_steps(w, package, license);
}

proof fn lemma_each_license_told(w: Sheet, package: Seq<char>, items: Seq<Seq<char>>, n: nat)
    ensures
        ({
            let first = w.log;
            let last = with_each_license(w, package, items, n).log;
            &&& said(last, pkg("licenseName"@)) == said(first, pkg("licenseName"@))
                + in_turn(|k: int| seq![to_text(package, (items[k]))], n)
            &&& said(last, pkg("hasLicense"@)) == said(first, pkg("hasLicense"@))
                + in_turn(|k: int| seq![to_iri(package, spdx_iri((items[k])))], n)
            &&& said(last, RDF_TYPE@) == said(first, RDF_TYPE@)
                + in_turn(|k: int| seq![to_iri(spdx_iri((items[k])), pkg("License"@))], n)
            &&& forall|q: Seq<char>|
                q != pkg("licenseName"@) && q != pkg("hasLicense"@) && q != RDF_TYPE@
                    ==> #[trigger] said(last, q) == said(first, q)
        }),
    decreases n,
{
    broadcast use group_writes;

    reveal_strlit("licenseName");
    reveal_strlit("hasLicense");
    if n > 0 {
        lemma_each_license_told(w, package, items, (n - 1) as nat);
        lemma_license_told(
            with_each_license(w, package, items, (n - 1) as nat),
            package,
            items[n - 1],
        );
    }
}

proof fn lemma_need_told(w: Sheet, package: Seq<char>, need: CpanNeed)
    ensures
        ({
            let first = w.log;
            let last = with_need(w, package, need).log;
            &&& said(last, pkg("directlyDependsOn"@)) == said(first, pkg("directlyDependsOn"@))
                + where_so(
                    need.phase == "runtime"@ && need.relationship == "requires"@,
                    seq![to_iri(package, identity_iri("cpan"@, "cpan"@, "any"@, need.module))],
                )
            &&& forall|q: Seq<char>|
                q != pkg("directlyDependsOn"@) ==> #[trigger] said(last, q) == said(first, q)
        }),
{
    broadcast use group_reading;

    reveal_strlit("directlyDependsOn");
    if need.phase == "runtime"@ && need.relationship == "requires"@ {
    } else {
    }
}

proof fn lemma_each_need_told(w: Sheet, package: Seq<char>, items: Seq<CpanNeed>, n: nat)
    ensures
        ({
            let first = w.log;
            let last = with_each_need(w, package, items, n).log;
            &&& said(last, pkg("directlyDependsOn"@)) == said(first, pkg("directlyDependsOn"@))
                + in_turn(
                    |k: int|
                        where_so(
                            (items[k]).phase == "runtime"@
                                && (items[k]).relationship == "requires"@,
                            seq![
                                to_iri(
                                    package,
                                    identity_iri("cpan"@, "cpan"@, "any"@, (items[k]).module),
                                ),
                            ],
                        ),
                    n,
                )
            &&& forall|q: Seq<char>|
                q != pkg("directlyDependsOn"@) ==> #[trigger] said(last, q) == said(first, q)
        }),
    decreases n,
{
    broadcast use group_writes;

    reveal_strlit("directlyDependsOn");
    if n > 0 {
        lemma_each_need_told(w, package, items, (n - 1) as nat);
        lemma_need_told(with_each_need(w, package, items, (n - 1) as nat), package, items[n - 1]);
    }
}

#[verifier::opaque]
spec fn release_step_1(w: Sheet, release: CpanRelease, package: Seq<char>) -> Sheet {
    match release.repository_url {
        Some(url) => { link(w, package, pkg("hasRepository"@), repo_iri(url)) },
        None => w,
    }
}

proof fn lemma_release_step_1(w: Sheet, release: CpanRelease, package: Seq<char>)
    ensures
        ({
            let first = w.log;
            let last = release_step_1(w, release, package).log;
            &&& said(last, pkg("hasRepository"@)) == said(first, pkg("hasRepository"@))
                + (
                    match release.repository_url {
                        Some(url) => seq![to_iri(package, repo_iri(url))],
                        None => Seq::empty(),
                    }
                )
            &&& forall|q: Seq<char>|
                q != pkg("hasRepository"@) ==> #[trigger] said(last, q) == said(first, q)
        }),
{
    broadcast use group_reading;

    reveal(release_step_1);
    reveal_strlit("hasRepository");
}

/// Everything that is said of a release: what it is, its name and version and the identity
/// that it is a version of, its author, its licenses, its repository, and that it depends
/// on every module that it requires at run time, and on no other.
pub open spec fn release_told(
    first: Seq<Fact>,
    last: Seq<Fact>,
    c: CpanCollector,
    release: CpanRelease,
) -> bool {
    let package = package_iri("cpan"@, "cpan"@, "any"@, release.distribution, release.version);
    let identity = identity_iri("cpan"@, "cpan"@, "any"@, release.distribution);
    let ver = version_iri("cpan"@, "cpan"@, release.distribution, release.version);
    let dist = distro_iri("cpan"@);
    &&& said(last, RDF_TYPE@) == said(first, RDF_TYPE@)
        + seq![to_iri(package, pkg("Package"@))]
        + seq![to_iri(package, CPAN@ + "Distribution"@)]
        + seq![to_iri(identity, pkg("PackageIdentity"@))]
        + seq![to_iri(ver, pkg("Version"@))]
        + in_turn(
            |k: int| seq![to_iri(spdx_iri((release.license[k])), pkg("License"@))],
            (release.license.len()),
        )
    &&& said(last, pkg("identityName"@)) == said(first, pkg("identityName"@))
        + seq![to_text(identity, release.distribution)]
    &&& said(last, RDFS_LABEL@) == said(first, RDFS_LABEL@)
        + seq![to_text(identity, release.distribution + " Package Identity"@)]
    &&& said(last, pkg("isVersionOf"@)) == said(first, pkg("isVersionOf"@))
        + seq![to_iri(package, identity)]
    &&& said(last, pkg("packageName"@)) == said(first, pkg("packageName"@))
        + seq![to_text(package, release.distribution)]
    &&& said(last, pkg("versionString"@)) == said(first, pkg("versionString"@))
        + seq![to_text(ver, release.version)]
    &&& said(last, pkg("hasVersion"@)) == said(first, pkg("hasVersion"@))
        + seq![to_iri(package, ver)]
    &&& said(last, pkg("partOfDistribution"@)) == said(first, pkg("partOfDistribution"@))
        + seq![to_iri(package, dist)]
    &&& said(last, CPAN@ + "authorPAUSEID"@) == said(first, CPAN@ + "authorPAUSEID"@)
        + seq![to_text(package, release.author)]
    &&& said(last, CPAN@ + "abstractText"@) == said(first, CPAN@ + "abstractText"@)
        + text_if(package, release.abstract_text)
    &&& said(last, CPAN@ + "maturity"@) == said(first, CPAN@ + "maturity"@)
        + text_if(package, release.status)
    &&& said(last, pkg("licenseName"@)) == said(first, pkg("licenseName"@))
        + in_turn(|k: int| seq![to_text(package, (release.license[k]))], (release.license.len()))
    &&& said(last, pkg("hasLicense"@)) == said(first, pkg("hasLicense"@))
        + in_turn(
            |k: int| seq![to_iri(package, spdx_iri((release.license[k])))],
            (release.license.len()),
        )
    &&& said(last, pkg("homepage"@)) == said(first, pkg("homepage"@))
        + text_if(package, release.homepage)
    &&& said(last, pkg("hasRepository"@)) == said(first, pkg("hasRepository"@))
        + (
            match release.repository_url {
                Some(url) => seq![to_iri(package, repo_iri(url))],
                None => Seq::empty(),
            }
        )
    &&& said(last, pkg("directlyDependsOn"@)) == said(first, pkg("directlyDependsOn"@))
        + in_turn(
            |k: int|
                where_so(
                    (release.dependency[k]).phase == "runtime"@
                        && (release.dependency[k]).relationship == "requires"@,
                    seq![
                        to_iri(
                            package,
                            identity_iri("cpan"@, "cpan"@, "any"@, (release.dependency[k]).module),
                        ),
                    ],
                ),
            (release.dependency.len()),
        )
    &&& forall|q: Seq<char>|
        q != RDF_TYPE@
            && q != pkg("identityName"@)
            && q != RDFS_LABEL@
            && q != pkg("isVersionOf"@)
            && q != pkg("packageName"@)
            && q != pkg("versionString"@)
            && q != pkg("hasVersion"@)
            && q != pkg("partOfDistribution"@)
            && q != CPAN@ + "authorPAUSEID"@
            && q != CPAN@ + "abstractText"@
            && q != CPAN@ + "maturity"@
            && q != pkg("licenseName"@)
            && q != pkg("hasLicense"@)
            && q != pkg("homepage"@)
            && q != pkg("hasRepository"@)
            && q != pkg("directlyDependsOn"@)
            ==> #[trigger] said(last, q) == said(first, q)
}

proof fn lemma_release_in_steps(w: Sheet, c: CpanCollector, release: CpanRelease)
    ensures
        with_distribution_triples(w, c, release) == ({
            let package = package_iri(
                "cpan"@,
                "cpan"@,
                "any"@,
                release.distribution,
                release.version,
            );
            let identity = identity_iri("cpan"@, "cpan"@, "any"@, release.distribution);
            let w = link(w, package, RDF_TYPE@, pkg("Package"@));
            let w = link(w, package, RDF_TYPE@, CPAN@ + "Distribution"@);
            let w = with_package_identity(w, identity, release.distribution);
            let w = link(w, package, pkg("isVersionOf"@), identity);
            let w = literal(w, package, pkg("packageName"@), release.distribution);
            let ver = version_iri("cpan"@, "cpan"@, release.distribution, release.version);
            let w = link(w, ver, RDF_TYPE@, pkg("Version"@));
            let w = literal(w, ver, pkg("versionString"@), release.version);
            let w = link(w, package, pkg("hasVersion"@), ver);
            let dist = distro_iri("cpan"@);
            let w = link(w, package, pkg("partOfDistribution"@), dist);
            let w = literal(w, package, CPAN@ + "authorPAUSEID"@, release.author);
            let w = maybe_literal(w, package, CPAN@ + "abstractText"@, release.abstract_text);
            let w = maybe_literal(w, package, CPAN@ + "maturity"@, release.status);
            let w = with_each_license(w, package, release.license, release.license.len());
            let w = maybe_literal(w, package, pkg("homepage"@), release.homepage);
            let w = release_step_1(w, release, package);
            let w = with_each_need(w, package, release.dependency, release.dependency.len());
            w
        }),
{
    reveal(maybe_literal);
    reveal(release_step_1);
}

proof fn lemma_release_steps(w: Sheet, c: CpanCollector, release: CpanRelease)
    ensures
        release_told(w.log, ({
            let package = package_iri(
                "cpan"@,
                "cpan"@,
                "any"@,
                release.distribution,
                release.version,
            );
            let identity = identity_iri("cpan"@, "cpan"@, "any"@, release.distribution);
            let w = link(w, package, RDF_TYPE@, pkg("Package"@));
            let w = link(w, package, RDF_TYPE@, CPAN@ + "Distribution"@);
            let w = with_package_identity(w, identity, release.distribution);
            let w = link(w, package, pkg("isVersionOf"@), identity);
            let w = literal(w, package, pkg("packageName"@), release.distribution);
            let ver = version_iri("cpan"@, "cpan"@, release.distribution, release.version);
            let w = link(w, ver, RDF_TYPE@, pkg("Version"@));
            let w = literal(w, ver, pkg("versionString"@), release.version);
            let w = link(w, package, pkg("hasVersion"@), ver);
            let dist = distro_iri("cpan"@);
            let w = link(w, package, pkg("partOfDistribution"@), dist);
            let w = literal(w, package, CPAN@ + "authorPAUSEID"@, release.author);
            let w = maybe_literal(w, package, CPAN@ + "abstractText"@, release.abstract_text);
            let w = maybe_literal(w, package, CPAN@ + "maturity"@, release.status);
            let w = with_each_license(w, package, release.license, release.license.len());
            let w = maybe_literal(w, package, pkg("homepage"@), release.homepage);
            let w = release_step_1(w, release, package);
            let w = with_each_need(w, package, release.dependency, release.dependency.len());
            w
        }).log, c, release),
{
    broadcast use {group_writes, group_cpan};

    reveal_strlit("identityName");
    reveal_strlit("isVersionOf");
    reveal_strlit("packageName");
    reveal_strlit("versionString");
    reveal_strlit("hasVersion");
    reveal_strlit("partOfDistribution");
    reveal_strlit("authorPAUSEID");
    reveal_strlit("abstractText");
    reveal_strlit("maturity");
    reveal_strlit("licenseName");
    reveal_strlit("hasLicense");
    reveal_strlit("homepage");
    reveal_strlit("hasRepository");
    reveal_strlit("directlyDependsOn");
    let package = package_iri("cpan"@, "cpan"@, "any"@, release.distribution, release.version);
    let identity = identity_iri("cpan"@, "cpan"@, "any"@, release.distribution);
    let w1 = link(w, package, RDF_TYPE@, pkg("Package"@));
    let w2 = link(w1, package, RDF_TYPE@, CPAN@ + "Distribution"@);
    let w3 = with_package_identity(w2, identity, release.distribution);
    lemma_package_identity_told(w2, identity, release.distribution);
    let w4 = link(w3, package, pkg("isVersionOf"@), identity);
    let w5 = literal(w4, package, pkg("packageName"@), release.distribution);
    let ver = version_iri("cpan"@, "cpan"@, release.distribution, release.version);
    let w6 = link(w5, ver, RDF_TYPE@, pkg("Version"@));
    let w7 = literal(w6, ver, pkg("versionString"@), release.version);
    let w8 = link(w7, package, pkg("hasVersion"@), ver);
    let dist = distro_iri("cpan"@);
    let w9 = link(w8, package, pkg("partOfDistribution"@), dist);
    let w10 = literal(w9, package, CPAN@ + "authorPAUSEID"@, release.author);
    let w11 = maybe_literal(w10, package, CPAN@ + "abstractText"@, release.abstract_text);
    let w12 = maybe_literal(w11, package, CPAN@ + "maturity"@, release.status);
    let w13 = with_each_license(w12, package, release.license, release.license.len());
    lemma_each_license_told(w12, package, release.license, release.license.len());
    let w14 = maybe_literal(w13, package, pkg("homepage"@), release.homepage);
    let w15 = release_step_1(w14, release, package);
    lemma_release_step_1(w14, release, package);
    let w16 = with_each_need(w15, package, release.dependency, release.dependency.len());
    lemma_each_need_told(w15, package, release.dependency, release.dependency.len());
}

/// What [`with_distribution_triples`] writes says what [`release_told`] states.
pub proof fn lemma_release_told(
    w: Sheet,
    c: CpanCollector,
    release: CpanRelease,
)
    ensures
        release_told(w.log, with_distribution_triples(w, c, release).log, c, release),
{
    lemma_release_in_steps(w, c, release);
    lemma_release_steps(w, c, release);
}

} // verus!
