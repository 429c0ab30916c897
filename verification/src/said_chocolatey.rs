//! What is said of Chocolatey packages.

use crate::chocolatey::{
    with_distribution_metadata, with_package_triples, Choco, ChocolateyCollector, ChocolateyPackage,
};
use crate::ntriples::{boolean, link, literal, pkg, Fact, Sheet};
use crate::reading::{
    group_choco, group_reading, group_writes, maybe_literal, maybe_number, number_if_any, said,
    text_if, to_iri, to_text, to_truth, where_so,
};
use crate::uris::{distro_iri, identity_iri, package_iri, release_iri, version_iri, CHOCO, RDF_TYPE};
use vstd::prelude::*;

verus! {

/// What is said of the distribution and its release.
pub open spec fn distribution_told(
    first: Seq<Fact>,
    last: Seq<Fact>,
    c: ChocolateyCollector,
) -> bool {
    let dist = distro_iri("chocolatey"@);
    let rel = release_iri("chocolatey"@, "community"@);
    &&& said(last, RDF_TYPE@) == said(first, RDF_TYPE@)
        + seq![to_iri(dist, pkg("Distribution"@))]
        + seq![to_iri(rel, pkg("DistributionRelease"@))]
    &&& said(last, pkg("projectName"@)) == said(first, pkg("projectName"@))
        + seq![to_text(dist, "Chocolatey"@)]
    &&& said(last, pkg("releaseCodename"@)) == said(first, pkg("releaseCodename"@))
        + seq![to_text(rel, "community"@)]
    &&& said(last, pkg("partOfDistribution"@)) == said(first, pkg("partOfDistribution"@))
        + seq![to_iri(rel, dist)]
    &&& forall|q: Seq<char>|
        q != RDF_TYPE@
            && q != pkg("projectName"@)
            && q != pkg("releaseCodename"@)
            && q != pkg("partOfDistribution"@)
            ==> #[trigger] said(last, q) == said(first, q)
}

proof fn lemma_distribution_in_steps(w: Sheet, c: ChocolateyCollector)
    ensures
        with_distribution_metadata(w, c) == ({
            let dist = distro_iri("chocolatey"@);
            let rel = release_iri("chocolatey"@, "community"@);
            let w = link(w, dist, RDF_TYPE@, pkg("Distribution"@));
            let w = literal(w, dist, pkg("projectName"@), "Chocolatey"@);
            let w = link(w, rel, RDF_TYPE@, pkg("DistributionRelease"@));
            let w = literal(w, rel, pkg("releaseCodename"@), "community"@);
            let w = link(w, rel, pkg("partOfDistribution"@), dist);
            w
        }),
{
}

proof fn lemma_distribution_steps(w: Sheet, c: ChocolateyCollector)
    ensures
        distribution_told(w.log, ({
            let dist = distro_iri("chocolatey"@);
            let rel = release_iri("chocolatey"@, "community"@);
            let w = link(w, dist, RDF_TYPE@, pkg("Distribution"@));
            let w = literal(w, dist, pkg("projectName"@), "Chocolatey"@);
            let w = link(w, rel, RDF_TYPE@, pkg("DistributionRelease"@));
            let w = literal(w, rel, pkg("releaseCodename"@), "community"@);
            let w = link(w, rel, pkg("partOfDistribution"@), dist);
            w
        }).log, c),
{
    broadcast use group_writes;

    reveal_strlit("projectName");
    reveal_strlit("releaseCodename");
    reveal_strlit("partOfDistribution");
    let dist = distro_iri("chocolatey"@);
    let rel = release_iri("chocolatey"@, "community"@);
    let w1 = link(w, dist, RDF_TYPE@, pkg("Distribution"@));
    let w2 = literal(w1, dist, pkg("projectName"@), "Chocolatey"@);
    let w3 = link(w2, rel, RDF_TYPE@, pkg("DistributionRelease"@));
    let w4 = literal(w3, rel, pkg("releaseCodename"@), "community"@);
    let w5 = link(w4, rel, pkg("partOfDistribution"@), dist);
}

/// What [`with_distribution_metadata`] writes says what [`distribution_told`] states.
pub proof fn lemma_distribution_told(
    w: Sheet,
    c: ChocolateyCollector,
)
    ensures
        distribution_told(w.log, with_distribution_metadata(w, c).log, c),
{
    lemma_distribution_in_steps(w, c);
    lemma_distribution_steps(w, c);
}

#[verifier::opaque]
spec fn package_step_1(w: Sheet, p: Choco, package: Seq<char>) -> Sheet {
    if p.is_prerelease { boolean(w, package, CHOCO@ + "isPrerelease"@, true) } else { w }
}

proof fn lemma_package_step_1(w: Sheet, p: Choco, package: Seq<char>)
    ensures
        ({
            let first = w.log;
            let last = package_step_1(w, p, package).log;
            &&& said(last, CHOCO@ + "isPrerelease"@) == said(first, CHOCO@ + "isPrerelease"@)
                + where_so(p.is_prerelease, seq![to_truth(package, true)])
            &&& forall|q: Seq<char>|
                q != CHOCO@ + "isPrerelease"@ ==> #[trigger] said(last, q) == said(first, q)
        }),
{
    broadcast use {group_reading, group_choco};

    reveal(package_step_1);
    reveal_strlit("isPrerelease");
}

/// Everything that is said of a package: what it is, its name and version and the identity
/// that it is a version of, and each field that it has by the property of that field.
pub open spec fn package_told(
    first: Seq<Fact>,
    last: Seq<Fact>,
    c: ChocolateyCollector,
    p: Choco,
) -> bool {
    let package = package_iri("chocolatey"@, "community"@, "windows"@, p.id, p.version);
    let identity = identity_iri("chocolatey"@, "community"@, "windows"@, p.id);
    let ver = version_iri("chocolatey"@, "community"@, p.id, p.version);
    let dist = distro_iri("chocolatey"@);
    &&& said(last, RDF_TYPE@) == said(first, RDF_TYPE@)
        + seq![to_iri(package, pkg("Package"@))]
        + seq![to_iri(package, CHOCO@ + "ChocolateyPackage"@)]
        + seq![to_iri(identity, pkg("PackageIdentity"@))]
        + seq![to_iri(ver, pkg("Version"@))]
    &&& said(last, pkg("packageName"@)) == said(first, pkg("packageName"@))
        + seq![to_text(identity, p.id)]
        + seq![to_text(package, p.id)]
    &&& said(last, pkg("isVersionOf"@)) == said(first, pkg("isVersionOf"@))
        + seq![to_iri(package, identity)]
    &&& said(last, pkg("versionString"@)) == said(first, pkg("versionString"@))
        + seq![to_text(ver, p.version)]
    &&& said(last, pkg("hasVersion"@)) == said(first, pkg("hasVersion"@))
        + seq![to_iri(package, ver)]
    &&& said(last, pkg("partOfDistribution"@)) == said(first, pkg("partOfDistribution"@))
        + seq![to_iri(package, dist)]
    &&& said(last, pkg("description"@)) == said(first, pkg("description"@))
        + text_if(package, p.title)
    &&& said(last, CHOCO@ + "authors"@) == said(first, CHOCO@ + "authors"@)
        + text_if(package, p.authors)
    &&& said(last, pkg("checksum"@)) == said(first, pkg("checksum"@))
        + text_if(package, p.package_hash)
    &&& said(last, CHOCO@ + "downloadCount"@) == said(first, CHOCO@ + "downloadCount"@)
        + number_if_any(package, p.download_count)
    &&& said(last, CHOCO@ + "isPrerelease"@) == said(first, CHOCO@ + "isPrerelease"@)
        + where_so(p.is_prerelease, seq![to_truth(package, true)])
    &&& forall|q: Seq<char>|
        q != RDF_TYPE@
            && q != pkg("packageName"@)
            && q != pkg("isVersionOf"@)
            && q != pkg("versionString"@)
            && q != pkg("hasVersion"@)
            && q != pkg("partOfDistribution"@)
            && q != pkg("description"@)
            && q != CHOCO@ + "authors"@
            && q != pkg("checksum"@)
            && q != CHOCO@ + "downloadCount"@
            && q != CHOCO@ + "isPrerelease"@
            ==> #[trigger] said(last, q) == said(first, q)
}

proof fn lemma_package_in_steps(w: Sheet, c: ChocolateyCollector, p: Choco)
    ensures
        with_package_triples(w, c, p) == ({
            let package = package_iri("chocolatey"@, "community"@, "windows"@, p.id, p.version);
            let identity = identity_iri("chocolatey"@, "community"@, "windows"@, p.id);
            let w = link(w, package, RDF_TYPE@, pkg("Package"@));
            let w = link(w, package, RDF_TYPE@, CHOCO@ + "ChocolateyPackage"@);
            let w = link(w, identity, RDF_TYPE@, pkg("PackageIdentity"@));
            let w = literal(w, identity, pkg("packageName"@), p.id);
            let w = link(w, package, pkg("isVersionOf"@), identity);
            let w = literal(w, package, pkg("packageName"@), p.id);
            let ver = version_iri("chocolatey"@, "community"@, p.id, p.version);
            let w = link(w, ver, RDF_TYPE@, pkg("Version"@));
            let w = literal(w, ver, pkg("versionString"@), p.version);
            let w = link(w, package, pkg("hasVersion"@), ver);
            let dist = distro_iri("chocolatey"@);
            let w = link(w, package, pkg("partOfDistribution"@), dist);
            let w = maybe_literal(w, package, pkg("description"@), p.title);
            let w = maybe_literal(w, package, CHOCO@ + "authors"@, p.authors);
            let w = maybe_literal(w, package, pkg("checksum"@), p.package_hash);
            let w = maybe_number(w, package, CHOCO@ + "downloadCount"@, p.download_count);
            let w = package_step_1(w, p, package);
            w
        }),
{
    reveal(maybe_literal);
    reveal(maybe_number);
    reveal(package_step_1);
}

proof fn lemma_package_steps(w: Sheet, c: ChocolateyCollector, p: Choco)
    ensures
        package_told(w.log, ({
            let package = package_iri("chocolatey"@, "community"@, "windows"@, p.id, p.version);
            let identity = identity_iri("chocolatey"@, "community"@, "windows"@, p.id);
            let w = link(w, package, RDF_TYPE@, pkg("Package"@));
            let w = link(w, package, RDF_TYPE@, CHOCO@ + "ChocolateyPackage"@);
            let w = link(w, identity, RDF_TYPE@, pkg("PackageIdentity"@));
            let w = literal(w, identity, pkg("packageName"@), p.id);
            let w = link(w, package, pkg("isVersionOf"@), identity);
            let w = literal(w, package, pkg("packageName"@), p.id);
            let ver = version_iri("chocolatey"@, "community"@, p.id, p.version);
            let w = link(w, ver, RDF_TYPE@, pkg("Version"@));
            let w = literal(w, ver, pkg("versionString"@), p.version);
            let w = link(w, package, pkg("hasVersion"@), ver);
            let dist = distro_iri("chocolatey"@);
            let w = link(w, package, pkg("partOfDistribution"@), dist);
            let w = maybe_literal(w, package, pkg("description"@), p.title);
            let w = maybe_literal(w, package, CHOCO@ + "authors"@, p.authors);
            let w = maybe_literal(w, package, pkg("checksum"@), p.package_hash);
            let w = maybe_number(w, package, CHOCO@ + "downloadCount"@, p.download_count);
            let w = package_step_1(w, p, package);
            w
        }).log, c, p),
{
    broadcast use {group_writes, group_choco};

    reveal_strlit("packageName");
    reveal_strlit("isVersionOf");
    reveal_strlit("versionString");
    reveal_strlit("hasVersion");
    reveal_strlit("partOfDistribution");
    reveal_strlit("description");
    reveal_strlit("authors");
    reveal_strlit("checksum");
    reveal_strlit("downloadCount");
    reveal_strlit("isPrerelease");
    let package = package_iri("chocolatey"@, "community"@, "windows"@, p.id, p.version);
    let identity = identity_iri("chocolatey"@, "community"@, "windows"@, p.id);
    let w1 = link(w, package, RDF_TYPE@, pkg("Package"@));
    let w2 = link(w1, package, RDF_TYPE@, CHOCO@ + "ChocolateyPackage"@);
    let w3 = link(w2, identity, RDF_TYPE@, pkg("PackageIdentity"@));
    let w4 = literal(w3, identity, pkg("packageName"@), p.id);
    let w5 = link(w4, package, pkg("isVersionOf"@), identity);
    let w6 = literal(w5, package, pkg("packageName"@), p.id);
    let ver = version_iri("chocolatey"@, "community"@, p.id, p.version);
    let w7 = link(w6, ver, RDF_TYPE@, pkg("Version"@));
    let w8 = literal(w7, ver, pkg("versionString"@), p.version);
    let w9 = link(w8, package, pkg("hasVersion"@), ver);
    let dist = distro_iri("chocolatey"@);
    let w10 = link(w9, package, pkg("partOfDistribution"@), dist);
    let w11 = maybe_literal(w10, package, pkg("description"@), p.title);
    let w12 = maybe_literal(w11, package, CHOCO@ + "authors"@, p.authors);
    let w13 = maybe_literal(w12, package, pkg("checksum"@), p.package_hash);
    let w14 = maybe_number(w13, package, CHOCO@ + "downloadCount"@, p.download_count);
    let w15 = package_step_1(w14, p, package);
    lemma_package_step_1(w14, p, package);
}

/// What [`with_package_triples`] writes says what [`package_told`] states.
pub proof fn lemma_package_told(
    w: Sheet,
    c: ChocolateyCollector,
    p: Choco,
)
    ensures
        package_told(w.log, with_package_triples(w, c, p).log, c, p),
{
    lemma_package_in_steps(w, c, p);
    lemma_package_steps(w, c, p);
}

} // verus!
