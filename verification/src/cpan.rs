//! The Comprehensive Perl Archive Network.

use crate::cargo_collect::{backoff, power, RetryStep, MAX_ATTEMPTS};
use crate::emit::rdf::{with_package_identity, write_package_identity};
use crate::ntriples::{link, literal, literal_if, pkg, NTriplesWriter, Sheet, PKG};
use crate::order::{ascending, same_texts, sorted_texts};
use crate::split::{join, joined, lines, lines_of, trim, trimmed};
use crate::text::{cat2, cat3, empty, has_prefix, lemma_views_empty, same, starts_with, views};
use crate::uris::{
    distro_iri, distro_uri, identity_iri, package_identity_uri, package_iri, package_uri,
    release_iri, release_uri, repo_iri, repo_uri, spdx_iri, spdx_license_uri, version_iri,
    version_uri, CPAN, RDF_TYPE,
};
use vstd::prelude::*;

verus! {

broadcast use crate::text::lemma_views_push;

/// What a release depends on.
pub struct MetaCpanDependency {
    pub module: String,
    pub phase: String,
    pub relationship: String,
    pub version: Option<String>,
}

/// What a [`MetaCpanDependency`] says.
#[verifier::ext_equal]
pub struct CpanNeed {
    pub module: Seq<char>,
    pub phase: Seq<char>,
    pub relationship: Seq<char>,
    pub version: Option<Seq<char>>,
}

impl View for MetaCpanDependency {
    type V = CpanNeed;

    open spec fn view(&self) -> CpanNeed {
        CpanNeed {
            module: self.module@,
            phase: self.phase@,
            relationship: self.relationship@,
            version: crate::text::opt(self.version),
        }
    }
}

/// The views of a list of records.
pub open spec fn meta_cpan_dependency_views(v: Seq<MetaCpanDependency>) -> Seq<CpanNeed> {
    v.map_values(|x: MetaCpanDependency| x@)
}

/// A release of a distribution.
pub struct MetaCpanRelease {
    pub distribution: String,
    pub version: String,
    pub abstract_text: Option<String>,
    pub author: String,
    pub status: Option<String>,
    pub license: Vec<String>,
    pub dependency: Vec<MetaCpanDependency>,
    pub homepage: Option<String>,
    pub repository_url: Option<String>,
}

/// What a [`MetaCpanRelease`] says.
#[verifier::ext_equal]
pub struct CpanRelease {
    pub distribution: Seq<char>,
    pub version: Seq<char>,
    pub abstract_text: Option<Seq<char>>,
    pub author: Seq<char>,
    pub status: Option<Seq<char>>,
    pub license: Seq<Seq<char>>,
    pub dependency: Seq<CpanNeed>,
    pub homepage: Option<Seq<char>>,
    pub repository_url: Option<Seq<char>>,
}

impl View for MetaCpanRelease {
    type V = CpanRelease;

    open spec fn view(&self) -> CpanRelease {
        CpanRelease {
            distribution: self.distribution@,
            version: self.version@,
            abstract_text: crate::text::opt(self.abstract_text),
            author: self.author@,
            status: crate::text::opt(self.status),
            license: crate::text::views(self.license@),
            dependency: meta_cpan_dependency_views(self.dependency@),
            homepage: crate::text::opt(self.homepage),
            repository_url: crate::text::opt(self.repository_url),
        }
    }
}

/// A collector of releases.
pub struct CpanCollector {
    pub api_base: String,
    pub graph_uri: Option<String>,
    pub stats: TransportStats,
}

/// What the requests of a run came to.
#[derive(Debug, Clone, Copy, PartialEq, Eq, Structural)]
pub struct TransportStats {
    pub requests: u64,
    pub retries: u64,
    pub failures: u64,
}

// ---------------------------------------------------------------------------
// Requests

/// What one request for a release came to.
#[derive(Debug, Clone, Copy, PartialEq, Eq, Structural)]
pub enum ReleaseRequest {
    /// A body of some kind.
    Answered,
    /// There is no such release.
    Missing,
    /// Too many requests, with the delay that the server asks for, in seconds.
    Limited { retry_after: Option<u64> },
    /// Another status, which would come again.
    Refused,
    /// The server failed, or the request did not get through.
    Broken,
}

/// The milliseconds to wait before the next attempt.
pub open spec fn pause(attempt: u32, request: ReleaseRequest) -> u64 {
    match request {
        ReleaseRequest::Limited { retry_after: Some(secs) } => (1000 * secs) as u64,
        _ => (1000 * backoff(attempt)) as u64,
    }
}

/// What to do after attempt number `attempt`: a limit and a failure are tried again
/// while there are attempts left.
pub open spec fn release_step(attempt: u32, request: ReleaseRequest) -> RetryStep {
    match request {
        ReleaseRequest::Answered => RetryStep::Use,
        ReleaseRequest::Missing => RetryStep::Missing,
        ReleaseRequest::Refused => RetryStep::GiveUp,
        _ => if attempt + 1 < MAX_ATTEMPTS {
            RetryStep::Wait { ms: pause(attempt, request) }
        } else {
            RetryStep::GiveUp
        },
    }
}

pub open spec fn one_more(n: u64) -> u64 {
    if n < u64::MAX {
        (n + 1) as u64
    } else {
        n
    }
}

/// The counts after one more request.
pub open spec fn request_counted(s: TransportStats, step: RetryStep) -> TransportStats {
    TransportStats {
        requests: one_more(s.requests),
        retries: if step is Wait {
            one_more(s.retries)
        } else {
            s.retries
        },
        failures: if step is GiveUp {
            one_more(s.failures)
        } else {
            s.failures
        },
    }
}

/// A release is asked for a limited number of times: the last attempt is not
/// followed by another.
pub proof fn lemma_attempts_are_limited(attempt: u32, request: ReleaseRequest)
    requires
        attempt + 1 >= MAX_ATTEMPTS,
    ensures
        !(release_step(attempt, request) is Wait),
{
}

// ---------------------------------------------------------------------------
// Seeds

/// Whether a line of a seed file names a package.
pub open spec fn is_seed(line: Seq<char>) -> bool {
    trim(line).len() > 0 && !starts_with(trim(line), "#"@)
}

pub open spec fn seeds_in(lines: Seq<Seq<char>>) -> Seq<Seq<char>>
    decreases lines.len(),
{
    if lines.len() == 0 {
        Seq::empty()
    } else {
        let done = seeds_in(lines.drop_last());
        if is_seed(lines.last()) {
            done.push(trim(lines.last()))
        } else {
            done
        }
    }
}

/// The names in the text of a seed file, one a line, in their order. Empty lines and
/// comments are passed over.
pub fn read_seed_file(content: &str) -> (r: Vec<String>)
    ensures
        views(r@) == seeds_in(lines_of(content@)),
{
    let all: Vec<String> = lines(content);
    let mut names: Vec<String> = Vec::new();
    let mut i: usize = 0;
    let ghost texts = views(all@);
    proof {
        lemma_views_empty();
        assert(texts.take(0) =~= Seq::empty());
    }
    while i < all.len()
        invariant
            i <= all.len(),
            texts == views(all@),
            views(names@) == seeds_in(texts.take(i as int)),
        decreases all.len() - i,
    {
        proof {
            assert(texts.take(i + 1).drop_last() =~= texts.take(i as int));
            assert(texts.take(i + 1).last() == all@[i as int]@);
        }
        let name: String = trimmed(&all[i]);
        if !empty(&name) && !has_prefix(&name, "#") {
            names.push(name);
        }
        i = i + 1;
    }
    assert(texts.take(i as int) =~= texts);
    names
}

/// The names in the text of a seed file: in ascending order, each once.
pub fn read_cpan_seed_file(content: &str) -> (r: Vec<String>)
    ensures
        ascending(views(r@)),
        same_texts(views(r@), seeds_in(lines_of(content@))),
{
    sorted_texts(&read_seed_file(content))
}

/// The names to collect, given those that were discovered: what a seed file with one
/// of them on each line gives.
pub fn discovered_seeds(names: &Vec<String>) -> (r: Vec<String>)
    ensures
        ascending(views(r@)),
        same_texts(views(r@), seeds_in(lines_of(joined(views(names@), "\n"@)))),
{
    let end: usize = names.len();
    assert(views(names@).subrange(0, end as int) =~= views(names@));
    read_cpan_seed_file(&join(names, 0, end, "\n"))
}

// ---------------------------------------------------------------------------
// Statements

/// The archive as a distribution, and its one release.
pub open spec fn with_distribution_metadata(w: Sheet, c: CpanCollector) -> Sheet {
    let dist = distro_iri("cpan"@);
    let rel = release_iri("cpan"@, "cpan"@);
    let w = link(w, dist, RDF_TYPE@, pkg("Distribution"@));
    let w = literal(w, dist, pkg("projectName"@), "CPAN"@);
    let w = link(w, rel, RDF_TYPE@, pkg("DistributionRelease"@));
    let w = literal(w, rel, pkg("releaseCodename"@), "cpan"@);
    link(w, rel, pkg("partOfDistribution"@), dist)
}

impl CpanCollector {
    /// The archive as a distribution, and its one release.
    pub fn emit_distribution_metadata(&self, writer: &mut NTriplesWriter) -> (r: usize)
        ensures
            final(writer)@ == with_distribution_metadata(old(writer)@, *self),
            r == final(writer)@.log.len() - old(writer)@.log.len(),
    {
        let start: usize = writer.len();
        let dist: String = distro_uri("cpan");
        let rel: String = release_uri("cpan", "cpan");
        writer.write_triple(&dist, RDF_TYPE, &cat2(PKG, "Distribution"));
        writer.write_literal(&dist, &cat2(PKG, "projectName"), "CPAN");
        writer.write_triple(&rel, RDF_TYPE, &cat2(PKG, "DistributionRelease"));
        writer.write_literal(&rel, &cat2(PKG, "releaseCodename"), "cpan");
        writer.write_triple(&rel, &cat2(PKG, "partOfDistribution"), &dist);
        writer.len() - start
    }
}

pub open spec fn with_license(w: Sheet, package: Seq<char>, license: Seq<char>) -> Sheet {
    let w = literal(w, package, pkg("licenseName"@), license);
    let node = spdx_iri(license);
    let w = link(w, package, pkg("hasLicense"@), node);
    link(w, node, RDF_TYPE@, pkg("License"@))
}

/// The first `n` of `items`, in order.
pub open spec fn with_each_license(
    w: Sheet,
    package: Seq<char>,
    items: Seq<Seq<char>>,
    n: nat,
) -> Sheet
    decreases n,
{
    if n == 0 {
        w
    } else {
        with_license(with_each_license(w, package, items, (n - 1) as nat), package, items[n - 1])
    }
}

pub fn emit_license(writer: &mut NTriplesWriter, package: &str, license: &str) -> (r: usize)
    ensures
        final(writer)@ == with_license(old(writer)@, package@, license@),
        r == final(writer)@.log.len() - old(writer)@.log.len(),
{
    let start: usize = writer.len();
    writer.write_literal(package, &cat2(PKG, "licenseName"), license);
    let node: String = spdx_license_uri(license);
    writer.write_triple(package, &cat2(PKG, "hasLicense"), &node);
    writer.write_triple(&node, RDF_TYPE, &cat2(PKG, "License"));
    writer.len() - start
}

/// A dependency: those that a release requires at run time count.
pub open spec fn with_need(w: Sheet, package: Seq<char>, need: CpanNeed) -> Sheet {
    let w = if need.phase == "runtime"@ && need.relationship == "requires"@ {
        link(
            w,
            package,
            pkg("directlyDependsOn"@),
            identity_iri("cpan"@, "cpan"@, "any"@, need.module),
        )
    } else {
        w
    };
    w
}

/// The first `n` of `items`, in order.
pub open spec fn with_each_need(w: Sheet, package: Seq<char>, items: Seq<CpanNeed>, n: nat) -> Sheet
    decreases n,
{
    if n == 0 {
        w
    } else {
        with_need(with_each_need(w, package, items, (n - 1) as nat), package, items[n - 1])
    }
}

/// A dependency: those that a release requires at run time count.
pub fn emit_need(
    writer: &mut NTriplesWriter,
    package: &str,
    need: &MetaCpanDependency,
) -> (r: usize)
    ensures
        final(writer)@ == with_need(old(writer)@, package@, need@),
        r == final(writer)@.log.len() - old(writer)@.log.len(),
{
    let start: usize = writer.len();
    if same(&need.phase, "runtime") && same(&need.relationship, "requires") {
        writer.write_triple(
            package,
            &cat2(PKG, "directlyDependsOn"),
            &package_identity_uri("cpan", "cpan", "any", &need.module),
        );
    }
    writer.len() - start
}

/// Everything that a release gives.
pub open spec fn with_distribution_triples(
    w: Sheet,
    c: CpanCollector,
    release: CpanRelease,
) -> Sheet {
    let package = package_iri("cpan"@, "cpan"@, "any"@, release.distribution, release.version);
    let identity = identity_iri("cpan"@, "cpan"@, "any"@, release.distribution);
    let w = link(w, package, RDF_TYPE@, pkg("Package"@));
    let w = link(w, package, RDF_TYPE@, CPAN@ + "Distribution"@);
    let w = with_package_identity(w, identity, release.distribution);
    let w = link(w, package, pkg("isVersionOf"@), identity);
    let w = literal(w, package, pkg("packageName"@), release.distribution);
    let ver = version_iri("cpan"@, "cpan"@, release.distribution, release.version);
    let w = link(w, ver, RDF_TYPE@, pkg("Version"@));
    let w = literal(w, ver, pkg("versionString"@), release.version);
    let w = link(w, package, pkg("hasVersion"@), ver);
    let dist = distro_iri("cpan"@);
    let w = link(w, package, pkg("partOfDistribution"@), dist);
    let w = literal(w, package, CPAN@ + "authorPAUSEID"@, release.author);
    let w = literal_if(w, package, CPAN@ + "abstractText"@, release.abstract_text);
    let w = literal_if(w, package, CPAN@ + "maturity"@, release.status);
    let w = with_each_license(w, package, release.license, release.license.len());
    let w = literal_if(w, package, pkg("homepage"@), release.homepage);
    let w = match release.repository_url {
        Some(url) => {
            link(w, package, pkg("hasRepository"@), repo_iri(url))
        },
        None => w,
    };
    with_each_need(w, package, release.dependency, release.dependency.len())
}

impl CpanCollector {
    /// Everything that a release gives.
    pub fn emit_distribution_triples(
        &self,
        writer: &mut NTriplesWriter,
        release: &MetaCpanRelease,
    ) -> (r: usize)
        ensures
            final(writer)@ == with_distribution_triples(old(writer)@, *self, release@),
            r == final(writer)@.log.len() - old(writer)@.log.len(),
            r >= 1,
    {
        let start: usize = writer.len();
        let package: String = package_uri(
            "cpan",
            "cpan",
            "any",
            &release.distribution,
            &release.version,
        );
        let identity: String = package_identity_uri("cpan", "cpan", "any", &release.distribution);
        writer.write_triple(&package, RDF_TYPE, &cat2(PKG, "Package"));
        writer.write_triple(&package, RDF_TYPE, &cat2(CPAN, "Distribution"));
        write_package_identity(writer, &identity, &release.distribution);
        writer.write_triple(&package, &cat2(PKG, "isVersionOf"), &identity);
        writer.write_literal(&package, &cat2(PKG, "packageName"), &release.distribution);
        let ver: String = version_uri("cpan", "cpan", &release.distribution, &release.version);
        writer.write_triple(&ver, RDF_TYPE, &cat2(PKG, "Version"));
        writer.write_literal(&ver, &cat2(PKG, "versionString"), &release.version);
        writer.write_triple(&package, &cat2(PKG, "hasVersion"), &ver);
        let dist: String = distro_uri("cpan");
        writer.write_triple(&package, &cat2(PKG, "partOfDistribution"), &dist);
        writer.write_literal(&package, &cat2(CPAN, "authorPAUSEID"), &release.author);
        writer.write_literal_if(&package, &cat2(CPAN, "abstractText"), &release.abstract_text);
        writer.write_literal_if(&package, &cat2(CPAN, "maturity"), &release.status);
        let ghost before_license = writer@;
        let mut i: usize = 0;
        while i < release.license.len()
            invariant
                i <= release.license.len(),
                before_license.log.len() <= writer@.log.len(),
                writer@ == with_each_license(
                    before_license,
                    package@,
                    views(release.license@),
                    i as nat,
                ),
            decreases release.license.len() - i,
        {
            emit_license(writer, &package, &release.license[i]);
            i = i + 1;
        }
        writer.write_literal_if(&package, &cat2(PKG, "homepage"), &release.homepage);
        if let Some(url) = &release.repository_url {
            writer.write_triple(&package, &cat2(PKG, "hasRepository"), &repo_uri(url));
        }
        let ghost before_need = writer@;
        let mut i: usize = 0;
        while i < release.dependency.len()
            invariant
                i <= release.dependency.len(),
                before_need.log.len() <= writer@.log.len(),
                writer@ == with_each_need(
                    before_need,
                    package@,
                    meta_cpan_dependency_views(release.dependency@),
                    i as nat,
                ),
            decreases release.dependency.len() - i,
        {
            emit_need(writer, &package, &release.dependency[i]);
            i = i + 1;
        }
        writer.len() - start
    }
}

/// What a request for a release returned.
pub enum ReleaseReply {
    Found(MetaCpanRelease),
    Failed(String),
}

/// The releases among the first `n` replies.
pub open spec fn with_releases(
    w: Sheet,
    c: CpanCollector,
    replies: Seq<ReleaseReply>,
    n: nat,
) -> Sheet
    decreases n,
{
    if n == 0 {
        w
    } else {
        let before = with_releases(w, c, replies, (n - 1) as nat);
        match replies[n - 1] {
            ReleaseReply::Found(release) => with_distribution_triples(before, c, release@),
            ReleaseReply::Failed(_) => before,
        }
    }
}

/// How many of the first `n` replies hold a release.
pub open spec fn found_count(replies: Seq<ReleaseReply>, n: nat) -> nat
    decreases n,
{
    if n == 0 {
        0
    } else {
        found_count(replies, (n - 1) as nat) + if replies[n - 1] is Found {
            1nat
        } else {
            0nat
        }
    }
}

impl CpanCollector {
    pub fn new(api_base: String) -> (r: Self)
        ensures
            r.api_base == api_base,
            r.graph_uri is None,
            r.stats == (TransportStats { requests: 0, retries: 0, failures: 0 }),
    {
        CpanCollector {
            api_base,
            graph_uri: None,
            stats: TransportStats { requests: 0, retries: 0, failures: 0 },
        }
    }

    /// The collector with the graph that its statements belong to.
    pub fn with_graph(self, graph_uri: Option<String>) -> (r: Self)
        ensures
            r == (CpanCollector { graph_uri, ..self }),
    {
        CpanCollector { api_base: self.api_base, graph_uri, stats: self.stats }
    }

    /// What the requests so far came to.
    pub fn transport_stats(&self) -> (r: TransportStats)
        ensures
            r == self.stats,
    {
        self.stats
    }

    /// Counts a request for a release, and says what to do after it.
    pub fn fetch_release_with_retry(&mut self, attempt: u32, request: &ReleaseRequest) -> (r:
        RetryStep)
        requires
            attempt < MAX_ATTEMPTS,
            match *request {
                ReleaseRequest::Limited { retry_after: Some(secs) } => secs * 1000 <= u64::MAX,
                _ => true,
            },
        ensures
            r == release_step(attempt, *request),
            *final(self) == (CpanCollector {
                stats: request_counted(old(self).stats, r),
                ..*old(self)
            }),
    {
        let wait: u64 = power(attempt);
        let ms: u64 = match request {
            ReleaseRequest::Limited { retry_after: Some(secs) } => *secs * 1000,
            _ => 1000 * wait,
        };
        let step: RetryStep = match request {
            ReleaseRequest::Answered => RetryStep::Use,
            ReleaseRequest::Missing => RetryStep::Missing,
            ReleaseRequest::Refused => RetryStep::GiveUp,
            _ => if attempt < MAX_ATTEMPTS - 1 {
                RetryStep::Wait { ms }
            } else {
                RetryStep::GiveUp
            },
        };
        self.stats.requests = self.stats.requests.saturating_add(1);
        match step {
            RetryStep::Wait { ms: _ } => {
                self.stats.retries = self.stats.retries.saturating_add(1);
            },
            RetryStep::GiveUp => {
                self.stats.failures = self.stats.failures.saturating_add(1);
            },
            _ => {},
        }
        step
    }

    /// Where the release of a distribution is.
    pub fn release_url(&self, name: &str) -> (r: String)
        ensures
            r@ == self.api_base@ + "/v1/release/"@ + name@,
    {
        cat3(&self.api_base, "/v1/release/", name)
    }

    /// What a request is said to have failed with: a missing release is named by
    /// its distribution.
    pub fn failure_message(&self, name: &str, missing: bool, error: &str) -> (r: String)
        ensures
            r@ == if missing {
                "404: "@ + name@
            } else {
                error@
            },
    {
        if missing {
            cat2("404: ", name)
        } else {
            error.to_owned()
        }
    }

    /// Emits the archive, given the reply for each name. Returns how many releases
    /// there are, and how many statements beside those of the distribution.
    pub fn collect(&self, writer: &mut NTriplesWriter, replies: &Vec<ReleaseReply>) -> (r: (
        usize,
        usize,
    ))
        ensures
            ({
                let head = with_distribution_metadata(old(writer)@, *self);
                &&& final(writer)@ == with_releases(head, *self, replies@, replies@.len())
                &&& r.0 == found_count(replies@, replies@.len())
                &&& r.1 == final(writer)@.log.len() - head.log.len()
            }),
    {
        self.emit_distribution_metadata(writer);
        let start: usize = writer.len();
        let ghost head = writer@;
        let mut count: usize = 0;
        let mut i: usize = 0;
        while i < replies.len()
            invariant
                i <= replies.len(),
                count <= i,
                head.log.len() <= writer@.log.len(),
                count == found_count(replies@, i as nat),
                writer@ == with_releases(head, *self, replies@, i as nat),
            decreases replies.len() - i,
        {
            match &replies[i] {
                ReleaseReply::Found(release) => {
                    self.emit_distribution_triples(writer, release);
                    count = count + 1;
                },
                ReleaseReply::Failed(_) => {},
            }
            i = i + 1;
        }
        (count, writer.len() - start)
    }
}

} // verus!
