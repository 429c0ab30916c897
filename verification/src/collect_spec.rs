//! Spec files of a distribution: where they are fetched from, what a fetch
//! amounts to, and the statements that a spec file gives.

use crate::ecosystem::Detected;
use crate::forge::{
    emit_dq_issue, emit_forge_triples, extract_forge_url, forge_url, with_dq_issue, with_forge,
};
use crate::ntriples::{
    blank_sheet, fragment_of, link, literal, pkg, replayed, Fragment, FragmentText, NTriplesWriter,
    Sheet, DATA, PKG,
};
use crate::number::{decimal, decimal_of};
use crate::order::{ascending, same_texts, sorted_texts};
use crate::spec_file::{
    by_spec, detect_ecosystem, expand_macros, expanded, parse_buildrequires, parse_spec,
    requirements, spec_of, SpecData, SpecText,
};
use crate::split::{pieces, split, trim_end_char, trimmed_end_char, Sep};
use crate::text::{
    cat2, cat3, cat4, cat5, chars_of, contains, copied, find, has_item, has_text,
    lemma_push_contains, opt, position, same, slice_string, views,
};
use crate::textmap::{TextMap, Texts};
use crate::uris::{
    enc, encode, identity_iri, normalize_email, package_identity_uri, person_iri,
    person_uri_from_email, plain_email, repo_iri, repo_uri, source_iri, source_uri, FOAF, PROV,
    RDFS_LABEL, RDF_TYPE, RPM, VCS,
};
use vstd::prelude::*;

verus! {

/// The version of what this stage emits. It changes with every change of the
/// emitted statements.
pub const SPEC_SCHEMA_VERSION: &'static str = "spec-v1";

// ---------------------------------------------------------------------------
// Fetching

/// What trying every candidate URL for one source package came to.
pub enum SpecFetchResult {
    Found(String),
    /// Every candidate was definitively missing.
    NotFound,
    /// At least one candidate failed inconclusively and none succeeded.
    RetryableFailure(String),
}

/// Whether a derived item may be kept for later runs.
#[derive(Debug, Clone, Copy, PartialEq, Eq, Structural)]
pub enum Cacheability {
    Complete,
    Retryable,
}

/// What one candidate URL produced.
pub enum CandidateOutcome {
    Found(String),
    /// A definitive 404.
    Missing,
    /// A transport error, a server error or a malformed body.
    Inconclusive(String),
}

/// What a fetch came to.
pub enum Fetched {
    Found(Seq<char>),
    NotFound,
    RetryableFailure(Seq<char>),
}

impl View for SpecFetchResult {
    type V = Fetched;

    open spec fn view(&self) -> Fetched {
        match self {
            SpecFetchResult::Found(c) => Fetched::Found(c@),
            SpecFetchResult::NotFound => Fetched::NotFound,
            SpecFetchResult::RetryableFailure(d) => Fetched::RetryableFailure(d@),
        }
    }
}

/// The content of the first candidate from `i` on that was found.
pub open spec fn first_found(outcomes: Seq<CandidateOutcome>, i: int) -> Option<Seq<char>>
    decreases outcomes.len() - i,
{
    if i < 0 || i >= outcomes.len() {
        None
    } else {
        match outcomes[i] {
            CandidateOutcome::Found(c) => Some(c@),
            _ => first_found(outcomes, i + 1),
        }
    }
}

/// What the last of the first `n` candidates that failed inconclusively said.
pub open spec fn last_inconclusive(outcomes: Seq<CandidateOutcome>, n: int) -> Option<Seq<char>>
    decreases n,
{
    if n <= 0 || n > outcomes.len() {
        None
    } else {
        match outcomes[n - 1] {
            CandidateOutcome::Inconclusive(d) => Some(d@),
            _ => last_inconclusive(outcomes, n - 1),
        }
    }
}

pub open spec fn inconclusive_message(
    source_name: Seq<char>,
    url_count: usize,
    detail: Seq<char>,
) -> Seq<char> {
    "spec fetch inconclusive for "@ + source_name + " across "@ + decimal(url_count as nat)
        + " URLs: "@ + detail
}

/// The answer for one source package: a found file wins; without one, an
/// inconclusive candidate makes the whole answer inconclusive.
pub open spec fn aggregated(
    source_name: Seq<char>,
    url_count: usize,
    outcomes: Seq<CandidateOutcome>,
) -> Fetched {
    match first_found(outcomes, 0) {
        Some(c) => Fetched::Found(c),
        None => match last_inconclusive(outcomes, outcomes.len() as int) {
            Some(d) => Fetched::RetryableFailure(
                inconclusive_message(source_name, url_count, d),
            ),
            None => Fetched::NotFound,
        },
    }
}

/// Reduces the outcomes of the candidates to one answer for a source package.
pub fn aggregate_candidates(
    source_name: &str,
    url_count: usize,
    outcomes: &Vec<CandidateOutcome>,
) -> (r: SpecFetchResult)
    ensures
        r@ == aggregated(source_name@, url_count, outcomes@),
{
    let mut inconclusive: Option<&String> = None;
    let mut i: usize = 0;
    while i < outcomes.len()
        invariant
            i <= outcomes@.len(),
            first_found(outcomes@, 0) == first_found(outcomes@, i as int),
            match inconclusive {
                Some(d) => last_inconclusive(outcomes@, i as int) == Some(d@),
                None => last_inconclusive(outcomes@, i as int) is None,
            },
        decreases outcomes@.len() - i,
    {
        match &outcomes[i] {
            CandidateOutcome::Found(c) => {
                return SpecFetchResult::Found(c.clone());
            },
            CandidateOutcome::Missing => {},
            CandidateOutcome::Inconclusive(d) => {
                inconclusive = Some(d);
            },
        }
        i = i + 1;
    }
    match inconclusive {
        Some(detail) => {
            let mut message: String = cat4(
                "spec fetch inconclusive for ",
                source_name,
                " across ",
                &decimal_of(url_count as u64),
            );
            message.append(" URLs: ");
            message.append(detail);
            SpecFetchResult::RetryableFailure(message)
        },
        None => SpecFetchResult::NotFound,
    }
}

/// A package is definitively without a spec file exactly where every candidate
/// was definitively missing.
pub proof fn lemma_not_found_needs_every_candidate(
    source_name: Seq<char>,
    url_count: usize,
    outcomes: Seq<CandidateOutcome>,
)
    ensures
        aggregated(source_name, url_count, outcomes) is NotFound <==> forall|i: int|
            0 <= i < outcomes.len() ==> #[trigger] outcomes[i] is Missing,
{
    lemma_first_found(outcomes, 0);
    lemma_last_inconclusive(outcomes, outcomes.len() as int);
    if forall|i: int| 0 <= i < outcomes.len() ==> #[trigger] outcomes[i] is Missing {
    } else {
        let i = choose|i: int| 0 <= i < outcomes.len() && !(#[trigger] outcomes[i] is Missing);
        assert(outcomes[i] is Found || outcomes[i] is Inconclusive);
    }
}

proof fn lemma_first_found(outcomes: Seq<CandidateOutcome>, i: int)
    requires
        0 <= i,
    ensures
        first_found(outcomes, i) is None <==> forall|k: int|
            i <= k < outcomes.len() ==> !(#[trigger] outcomes[k] is Found),
    decreases outcomes.len() - i,
{
    if i < outcomes.len() {
        lemma_first_found(outcomes, i + 1);
    }
}

proof fn lemma_last_inconclusive(outcomes: Seq<CandidateOutcome>, n: int)
    requires
        0 <= n <= outcomes.len(),
    ensures
        last_inconclusive(outcomes, n) is None <==> forall|k: int|
            0 <= k < n ==> !(#[trigger] outcomes[k] is Inconclusive),
    decreases n,
{
    if n > 0 {
        lemma_last_inconclusive(outcomes, n - 1);
    }
}

/// The path of a URL, `/` where it has none.
pub open spec fn path_of(url: Seq<char>) -> Seq<char> {
    match find(url, "://"@) {
        Some(i) => {
            let rest = url.skip(i as int + 3);
            match find(rest, "/"@) {
                Some(j) => rest.skip(j as int),
                None => "/"@,
            }
        },
        None => "/"@,
    }
}

/// `url` with its scheme and authority replaced by `base`.
pub open spec fn at_origin(url: Seq<char>, base: Seq<char>) -> Seq<char> {
    trim_end_char(base, '/') + path_of(url)
}

fn url_path(url: &str) -> (r: String)
    ensures
        r@ == path_of(url@),
{
    proof {
        reveal_strlit("://");
        crate::text::lemma_find_from(url@, "://"@, 0);
    }
    match position(url, "://") {
        Some(i) => {
            let cs: Vec<char> = chars_of(url);
            let end: usize = cs.len();
            let rest: String = slice_string(&cs, i + 3, end);
            assert(rest@ =~= url@.skip(i as int + 3));
            proof {
                reveal_strlit("/");
                crate::text::lemma_find_from(rest@, "/"@, 0);
            }
            match position(&rest, "/") {
                Some(j) => {
                    let ds: Vec<char> = chars_of(&rest);
                    let path: String = slice_string(&ds, j, ds.len());
                    assert(path@ =~= rest@.skip(j as int));
                    path
                },
                None => "/".to_owned(),
            }
        },
        None => "/".to_owned(),
    }
}

/// Replaces the scheme and authority of `url` by `base`, keeping its path.
pub fn rewrite_origin(url: &str, base: &str) -> (r: String)
    ensures
        r@ == at_origin(url@, base@),
{
    cat2(&trimmed_end_char(base, '/'), &url_path(url))
}

/// A collector of spec files.
pub struct SpecCollector {
    pub distro: String,
    pub release: String,
    /// The origin to fetch from in place of the public one of the distribution.
    pub dist_git_base: Option<String>,
}

/// The branch that holds a Fedora release.
pub open spec fn fedora_branch(release: Seq<char>) -> Seq<char> {
    if release == "rawhide"@ {
        "rawhide"@
    } else {
        "f"@ + release
    }
}

pub open spec fn fedora_spec_url(name: Seq<char>, branch: Seq<char>) -> Seq<char> {
    "https://src.fedoraproject.org/rpms/"@ + name + "/raw/"@ + branch + "/f/"@ + name + ".spec"@
}

pub open spec fn centos_spec_url(name: Seq<char>, branch: Seq<char>) -> Seq<char> {
    "https://gitlab.com/redhat/centos-stream/rpms/"@ + name + "/-/raw/"@ + branch + "/"@ + name
        + ".spec"@
}

/// The public URLs at which the spec file of a source package may be, in the
/// order in which they are tried.
pub open spec fn public_urls(
    distro: Seq<char>,
    release: Seq<char>,
    name: Seq<char>,
) -> Seq<Seq<char>> {
    if distro == "fedora"@ {
        seq![
            fedora_spec_url(name, fedora_branch(release)),
            fedora_spec_url(name, "rawhide"@),
            fedora_spec_url(name, "main"@),
        ]
    } else if distro == "centos-stream"@ {
        seq![
            centos_spec_url(name, "c"@ + release + "s"@),
            centos_spec_url(name, "main"@),
        ]
    } else {
        Seq::empty()
    }
}

/// The URLs at which the spec file of a source package is sought. Another origin
/// moves the public URLs, and adds none.
pub open spec fn candidate_urls(c: SpecCollector, name: Seq<char>) -> Seq<Seq<char>> {
    let urls = public_urls(c.distro@, c.release@, name);
    match c.dist_git_base {
        Some(base) => urls.map_values(|u: Seq<char>| at_origin(u, base@)),
        None => urls,
    }
}

fn fedora_url(name: &str, branch: &str) -> (r: String)
    ensures
        r@ == fedora_spec_url(name@, branch@),
{
    let mut url: String = cat5("https://src.fedoraproject.org/rpms/", name, "/raw/", branch, "/f/");
    url.append(name);
    url.append(".spec");
    url
}

fn centos_url(name: &str, branch: &str) -> (r: String)
    ensures
        r@ == centos_spec_url(name@, branch@),
{
    let mut url: String = cat5(
        "https://gitlab.com/redhat/centos-stream/rpms/",
        name,
        "/-/raw/",
        branch,
        "/",
    );
    url.append(name);
    url.append(".spec");
    url
}

impl SpecCollector {
    /// A collector; an empty origin counts as none.
    pub fn new(distro: &str, release: &str, dist_git_base: Option<String>) -> (r: Self)
        ensures
            r.distro@ == distro@,
            r.release@ == release@,
            opt(r.dist_git_base) == match dist_git_base {
                Some(b) => if b@.len() == 0 {
                    None
                } else {
                    Some(b@)
                },
                None => None,
            },
    {
        let base: Option<String> = match dist_git_base {
            Some(b) => if b.as_str().is_empty() {
                None
            } else {
                Some(b)
            },
            None => None,
        };
        SpecCollector { distro: distro.to_owned(), release: release.to_owned(), dist_git_base: base }
    }

    pub fn public_spec_urls(&self, source_name: &str) -> (r: Vec<String>)
        ensures
            views(r@) == public_urls(self.distro@, self.release@, source_name@),
    {
        let mut urls: Vec<String> = Vec::new();
        if same(&self.distro, "fedora") {
            let branch: String = if same(&self.release, "rawhide") {
                "rawhide".to_owned()
            } else {
                cat2("f", &self.release)
            };
            urls.push(fedora_url(source_name, &branch));
            urls.push(fedora_url(source_name, "rawhide"));
            urls.push(fedora_url(source_name, "main"));
        } else if same(&self.distro, "centos-stream") {
            urls.push(centos_url(source_name, &cat3("c", &self.release, "s")));
            urls.push(centos_url(source_name, "main"));
        }
        assert(views(urls@) =~= public_urls(self.distro@, self.release@, source_name@));
        urls
    }

    pub fn spec_urls(&self, source_name: &str) -> (r: Vec<String>)
        ensures
            views(r@) == candidate_urls(*self, source_name@),
    {
        let urls: Vec<String> = self.public_spec_urls(source_name);
        match &self.dist_git_base {
            Some(base) => {
                let mut moved: Vec<String> = Vec::new();
                let mut i: usize = 0;
                while i < urls.len()
                    invariant
                        i <= urls.len(),
                        moved@.len() == i,
                        forall|k: int|
                            0 <= k < i ==> (#[trigger] moved@[k])@ == at_origin(
                                urls@[k]@,
                                base@,
                            ),
                    decreases urls.len() - i,
                {
                    moved.push(rewrite_origin(&urls[i], base));
                    i = i + 1;
                }
                proof {
                    let public = public_urls(self.distro@, self.release@, source_name@);
                    assert forall|k: int| 0 <= k < moved@.len() implies #[trigger] views(moved@)[k]
                        == public.map_values(|u: Seq<char>| at_origin(u, base@))[k] by {
                        assert(moved@[k]@ == at_origin(urls@[k]@, base@));
                        assert(views(urls@)[k] == urls@[k]@);
                    }
                    assert(views(moved@) =~= candidate_urls(*self, source_name@));
                }
                moved
            },
            None => urls,
        }
    }

    /// The URL to try next, given what the earlier ones produced: none after a
    /// success, and none once all were tried.
    pub fn next_candidate(&self, source_name: &str, outcomes: &Vec<CandidateOutcome>) -> (r: Option<
        String,
    >)
        ensures
            opt(r) == (if first_found(outcomes@, 0) is None && outcomes@.len() < candidate_urls(
                *self,
                source_name@,
            ).len() {
                Some(candidate_urls(*self, source_name@)[outcomes@.len() as int])
            } else {
                None
            }),
    {
        let urls: Vec<String> = self.spec_urls(source_name);
        let mut i: usize = 0;
        while i < outcomes.len()
            invariant
                i <= outcomes@.len(),
                first_found(outcomes@, 0) == first_found(outcomes@, i as int),
            decreases outcomes@.len() - i,
        {
            if let CandidateOutcome::Found(_) = &outcomes[i] {
                return None;
            }
            i = i + 1;
        }
        if outcomes.len() < urls.len() {
            assert(views(urls@)[outcomes@.len() as int] == urls@[outcomes@.len() as int]@);
            Some(urls[outcomes.len()].clone())
        } else {
            None
        }
    }

    /// The answer for a source package, given what the candidates produced.
    pub fn fetch_spec(&self, source_name: &str, outcomes: &Vec<CandidateOutcome>) -> (r:
        SpecFetchResult)
        ensures
            r@ == aggregated(
                source_name@,
                candidate_urls(*self, source_name@).len() as usize,
                outcomes@,
            ),
    {
        let urls: Vec<String> = self.spec_urls(source_name);
        assert(views(urls@).len() == urls@.len());
        aggregate_candidates(source_name, urls.len(), outcomes)
    }
}

// ---------------------------------------------------------------------------
// Statements

/// The version of a spec file, `unknown` where it has none.
pub open spec fn version_or_unknown(spec: SpecText) -> Seq<char> {
    match spec.version {
        Some(v) => v,
        None => "unknown"@,
    }
}

fn spec_version(spec: &SpecData) -> (r: String)
    ensures
        r@ == version_or_unknown(spec@),
{
    match &spec.version {
        Some(v) => v.clone(),
        None => "unknown".to_owned(),
    }
}

pub open spec fn with_repo_link(w: Sheet, repo: Seq<char>, identity: Seq<char>) -> Sheet {
    link(w, identity, pkg("upstreamRepository"@), repo)
}

/// The first `n` of `items`, in order.
pub open spec fn with_each_repo_link(
    w: Sheet,
    repo: Seq<char>,
    items: Seq<Seq<char>>,
    n: nat,
) -> Sheet
    decreases n,
{
    if n == 0 {
        w
    } else {
        with_repo_link(with_each_repo_link(w, repo, items, (n - 1) as nat), repo, items[n - 1])
    }
}

pub fn emit_repo_link(writer: &mut NTriplesWriter, repo: &str, identity: &str) -> (r: usize)
    ensures
        final(writer)@ == with_repo_link(old(writer)@, repo@, identity@),
        r == final(writer)@.log.len() - old(writer)@.log.len(),
{
    let start: usize = writer.len();
    writer.write_triple(identity, &cat2(PKG, "upstreamRepository"), repo);
    writer.len() - start
}

/// What the first source of a spec file gives: its repository, or a note on why
/// it gives none.
pub open spec fn with_source0(
    w: Sheet,
    spec: SpecText,
    source_name: Seq<char>,
    identities: Seq<Seq<char>>,
) -> Sheet {
    let w = match spec.source0_url {
        Some(source0) => {
            let url = expanded(source0, spec);
            let w = if contains(url, "%{"@) || contains(url, "%("@) {
                with_dq_issue(w, "collect-spec"@, "source0"@, url, "unexpanded-macro"@, "info"@)
            } else {
                w
            };
            let w = match forge_url(url) {
                Some(repo_url) => {
                    let repo = repo_iri(repo_url);
                    let w = with_each_repo_link(w, repo, identities, identities.len());
                    with_forge(w, repo, repo_url)
                },
                None => {
                    let w = if !contains(url, "%{"@) {
                        with_dq_issue(
                            w,
                            "collect-spec"@,
                            "source0"@,
                            url,
                            "no-forge-match"@,
                            "info"@,
                        )
                    } else {
                        w
                    };
                    w
                },
            };
            w
        },
        None => {
            with_dq_issue(w, "collect-spec"@, "source0"@, source_name, "missing-source0"@, "info"@)
        },
    };
    w
}

/// What the first source of a spec file gives: its repository, or a note on why
/// it gives none.
pub fn emit_source0(
    writer: &mut NTriplesWriter,
    spec: &SpecData,
    source_name: &str,
    identities: &Vec<String>,
) -> (r: usize)
    ensures
        final(writer)@ == with_source0(old(writer)@, spec@, source_name@, views(identities@)),
        r == final(writer)@.log.len() - old(writer)@.log.len(),
{
    let start: usize = writer.len();
    if let Some(source0) = &spec.source0_url {
        let url: String = expand_macros(source0, spec);
        if has_text(&url, "%{") || has_text(&url, "%(") {
            emit_dq_issue(writer, "collect-spec", "source0", &url, "unexpanded-macro", "info");
        }
        if let Some(repo_url) = extract_forge_url(&url) {
            let repo: String = repo_uri(&repo_url);
            let ghost before_repo_link = writer@;
            let mut i: usize = 0;
            while i < identities.len()
                invariant
                    i <= identities.len(),
                    before_repo_link.log.len() <= writer@.log.len(),
                    writer@ == with_each_repo_link(
                        before_repo_link,
                        repo@,
                        views(identities@),
                        i as nat,
                    ),
                decreases identities.len() - i,
            {
                emit_repo_link(writer, &repo, &identities[i]);
                i = i + 1;
            }
            emit_forge_triples(writer, &repo, &repo_url);
        } else {
            if !has_text(&url, "%{") {
                emit_dq_issue(writer, "collect-spec", "source0", &url, "no-forge-match", "info");
            }
        }
    } else {
        emit_dq_issue(writer, "collect-spec", "source0", source_name, "missing-source0", "info");
    }
    writer.len() - start
}

pub open spec fn with_spec_source(w: Sheet, src: Seq<char>, url: Seq<char>) -> Sheet {
    literal(w, src, RPM@ + "hasSpecSource"@, url)
}

/// The first `n` of `items`, in order.
pub open spec fn with_each_spec_source(
    w: Sheet,
    src: Seq<char>,
    items: Seq<Seq<char>>,
    n: nat,
) -> Sheet
    decreases n,
{
    if n == 0 {
        w
    } else {
        with_spec_source(with_each_spec_source(w, src, items, (n - 1) as nat), src, items[n - 1])
    }
}

pub fn emit_spec_source(writer: &mut NTriplesWriter, src: &str, url: &str) -> (r: usize)
    ensures
        final(writer)@ == with_spec_source(old(writer)@, src@, url@),
        r == final(writer)@.log.len() - old(writer)@.log.len(),
{
    let start: usize = writer.len();
    writer.write_literal(src, &cat2(RPM, "hasSpecSource"), url);
    writer.len() - start
}

/// The last segment of a path.
pub open spec fn last_segment(path: Seq<char>) -> Seq<char> {
    pieces(path, Sep::Is('/')).last()
}

pub fn final_segment(path: &str) -> (r: String)
    ensures
        r@ == last_segment(path@),
{
    let parts: Vec<String> = split(path, &Sep::Is('/'));
    assert(views(parts@).last() == parts@[parts@.len() - 1]@);
    parts[parts.len() - 1].clone()
}

pub open spec fn patch_iri(
    c: SpecCollector,
    source_name: Seq<char>,
    idx: usize,
    name: Seq<char>,
) -> Seq<
    char,
> {
    DATA@ + "patch/"@ + enc(c.distro@) + "/"@ + enc(c.release@) + "/"@ + enc(source_name) + "/"@
        + decimal(idx as nat) + "-"@ + enc(name)
}

impl SpecCollector {
    fn patch_uri(&self, source_name: &str, idx: usize, name: &str) -> (r: String)
        ensures
            r@ == patch_iri(*self, source_name@, idx, name@),
    {
        let mut uri: String = cat5(
            DATA,
            "patch/",
            &encode(&self.distro),
            "/",
            &encode(&self.release),
        );
        uri.append("/");
        uri.append(&encode(source_name));
        uri.append("/");
        uri.append(&decimal_of(idx as u64));
        uri.append("-");
        uri.append(&encode(name));
        uri
    }
}

/// One patch of a source package.
pub open spec fn with_patch(
    w: Sheet,
    c: SpecCollector,
    src: Seq<char>,
    source_name: Seq<char>,
    idx: usize,
    url: Seq<char>,
) -> Sheet {
    let name = last_segment(url);
    let patch = patch_iri(c, source_name, idx, name);
    let w = link(w, patch, RDF_TYPE@, RPM@ + "Patch"@);
    let w = literal(w, patch, RPM@ + "patchName"@, name);
    link(w, src, RPM@ + "hasPatch"@, patch)
}

/// The first `n` of `items`, in order.
pub open spec fn with_each_patch(
    w: Sheet,
    c: SpecCollector,
    src: Seq<char>,
    source_name: Seq<char>,
    items: Seq<Seq<char>>,
    n: nat,
) -> Sheet
    decreases n,
{
    if n == 0 {
        w
    } else {
        with_patch(
            with_each_patch(w, c, src, source_name, items, (n - 1) as nat),
            c,
            src,
            source_name,
            (n - 1) as usize,
            items[n - 1],
        )
    }
}

impl SpecCollector {
    /// One patch of a source package.
    pub fn emit_patch(
        &self,
        writer: &mut NTriplesWriter,
        src: &str,
        source_name: &str,
        idx: usize,
        url: &str,
    ) -> (r: usize)
        ensures
            final(writer)@ == with_patch(old(writer)@, *self, src@, source_name@, idx, url@),
            r == final(writer)@.log.len() - old(writer)@.log.len(),
    {
        let start: usize = writer.len();
        let name: String = final_segment(url);
        let patch: String = self.patch_uri(source_name, idx, &name);
        writer.write_triple(&patch, RDF_TYPE, &cat2(RPM, "Patch"));
        writer.write_literal(&patch, &cat2(RPM, "patchName"), &name);
        writer.write_triple(src, &cat2(RPM, "hasPatch"), &patch);
        writer.len() - start
    }
}

/// The commit that the sources were taken from.
pub open spec fn with_commit(w: Sheet, src: Seq<char>, commit: Seq<char>) -> Sheet {
    let node = DATA@ + "commit/"@ + commit;
    let w = link(w, node, RDF_TYPE@, VCS@ + "Commit"@);
    let w = literal(w, node, VCS@ + "commitHash"@, commit);
    link(w, src, pkg("derivedFromCommit"@), node)
}

/// The commit that the sources were taken from.
pub fn emit_commit(writer: &mut NTriplesWriter, src: &str, commit: &str) -> (r: usize)
    ensures
        final(writer)@ == with_commit(old(writer)@, src@, commit@),
        r == final(writer)@.log.len() - old(writer)@.log.len(),
{
    let start: usize = writer.len();
    let node: String = cat2(&cat2(DATA, "commit/"), commit);
    writer.write_triple(&node, RDF_TYPE, &cat2(VCS, "Commit"));
    writer.write_literal(&node, &cat2(VCS, "commitHash"), commit);
    writer.write_triple(src, &cat2(PKG, "derivedFromCommit"), &node);
    writer.len() - start
}

/// How sure a way of detection is.
pub open spec fn confidence(method: Seq<char>) -> Seq<char> {
    if method == "source0-domain"@ || method == "buildrequires-macro"@ {
        "high"@
    } else if method == "name-prefix"@ {
        "medium"@
    } else {
        "low"@
    }
}

fn confidence_of(method: &str) -> (r: String)
    ensures
        r@ == confidence(method@),
{
    if same(method, "source0-domain") || same(method, "buildrequires-macro") {
        "high".to_owned()
    } else if same(method, "name-prefix") {
        "medium".to_owned()
    } else {
        "low".to_owned()
    }
}

/// The upstream ecosystem of one identity, and the name there where it is known.
pub open spec fn with_upstream_package(
    w: Sheet,
    ecosystem: Seq<char>,
    name: Option<Seq<char>>,
    identity: Seq<char>,
) -> Sheet {
    let w = link(w, identity, pkg("upstreamEcosystem"@), ecosystem);
    let w = match name {
        Some(n) => {
            literal(w, identity, pkg("upstreamPackageName"@), n)
        },
        None => w,
    };
    w
}

/// The first `n` of `items`, in order.
pub open spec fn with_each_upstream_package(
    w: Sheet,
    ecosystem: Seq<char>,
    name: Option<Seq<char>>,
    items: Seq<Seq<char>>,
    n: nat,
) -> Sheet
    decreases n,
{
    if n == 0 {
        w
    } else {
        with_upstream_package(
            with_each_upstream_package(w, ecosystem, name, items, (n - 1) as nat),
            ecosystem,
            name,
            items[n - 1],
        )
    }
}

/// The upstream ecosystem of one identity, and the name there where it is known.
pub fn emit_upstream_package(
    writer: &mut NTriplesWriter,
    ecosystem: &str,
    name: &Option<String>,
    identity: &str,
) -> (r: usize)
    ensures
        final(writer)@ == with_upstream_package(old(writer)@, ecosystem@, opt(*name), identity@),
        r == final(writer)@.log.len() - old(writer)@.log.len(),
{
    let start: usize = writer.len();
    writer.write_triple(identity, &cat2(PKG, "upstreamEcosystem"), ecosystem);
    if let Some(n) = &(*name) {
        writer.write_literal(identity, &cat2(PKG, "upstreamPackageName"), n);
    }
    writer.len() - start
}

/// A detected ecosystem, on every identity, and a note on how it was detected.
pub open spec fn with_detection(
    w: Sheet,
    ecosystem: Seq<char>,
    name: Option<Seq<char>>,
    method: Seq<char>,
    source_name: Seq<char>,
    identities: Seq<Seq<char>>,
) -> Sheet {
    let node = DATA@ + "ecosystem/"@ + ecosystem;
    let w = link(w, node, RDF_TYPE@, pkg("Ecosystem"@));
    let w = literal(w, node, RDFS_LABEL@, ecosystem);
    let w = with_each_upstream_package(w, node, name, identities, identities.len());
    let value = ecosystem + ":"@ + source_name + " via "@ + method;
    let sure = confidence(method);
    with_dq_issue(
        w,
        "collect-spec"@,
        "ecosystem-detection"@,
        value,
        "ecosystem-detected-"@ + sure,
        "info"@,
    )
}

/// A detected ecosystem, on every identity, and a note on how it was detected.
pub fn emit_detection(
    writer: &mut NTriplesWriter,
    ecosystem: &str,
    name: &Option<String>,
    method: &str,
    source_name: &str,
    identities: &Vec<String>,
) -> (r: usize)
    ensures
        final(writer)@ == with_detection(
            old(writer)@,
            ecosystem@,
            opt(*name),
            method@,
            source_name@,
            views(identities@),
        ),
        r == final(writer)@.log.len() - old(writer)@.log.len(),
{
    let start: usize = writer.len();
    let node: String = cat2(&cat2(DATA, "ecosystem/"), ecosystem);
    writer.write_triple(&node, RDF_TYPE, &cat2(PKG, "Ecosystem"));
    writer.write_literal(&node, RDFS_LABEL, ecosystem);
    let ghost before_upstream_package = writer@;
    let mut i: usize = 0;
    while i < identities.len()
        invariant
            i <= identities.len(),
            before_upstream_package.log.len() <= writer@.log.len(),
            writer@ == with_each_upstream_package(
                before_upstream_package,
                node@,
                opt(*name),
                views(identities@),
                i as nat,
            ),
        decreases identities.len() - i,
    {
        emit_upstream_package(writer, &node, &(*name), &identities[i]);
        i = i + 1;
    }
    let value: String = cat5(ecosystem, ":", source_name, " via ", method);
    let sure: String = confidence_of(method);
    emit_dq_issue(
        writer,
        "collect-spec",
        "ecosystem-detection",
        &value,
        &cat2("ecosystem-detected-", &sure),
        "info",
    );
    writer.len() - start
}

/// The ecosystem that a spec file points to, where it points to one.
pub open spec fn with_ecosystem(
    w: Sheet,
    spec: SpecText,
    source_name: Seq<char>,
    identities: Seq<Seq<char>>,
) -> Sheet {
    match by_spec(spec, source_name) {
        Some(d) => with_detection(
            w,
            d.ecosystem,
            d.package_name,
            d.method,
            source_name,
            identities,
        ),
        None => w,
    }
}

pub fn emit_ecosystem_triples(
    writer: &mut NTriplesWriter,
    spec: &SpecData,
    source_name: &str,
    identities: &Vec<String>,
) -> (r: usize)
    ensures
        final(writer)@ == with_ecosystem(old(writer)@, spec@, source_name@, views(identities@)),
        r == final(writer)@.log.len() - old(writer)@.log.len(),
{
    match detect_ecosystem(spec, source_name) {
        Some(d) => emit_detection(
            writer,
            d.ecosystem,
            &d.package_name,
            d.detection_method,
            source_name,
            identities,
        ),
        None => 0,
    }
}

/// The requirements of all lines, in order.
pub open spec fn all_requirements(lines: Seq<Seq<char>>, n: nat) -> Seq<Seq<char>>
    decreases n,
{
    if n == 0 {
        Seq::empty()
    } else {
        all_requirements(lines, (n - 1) as nat) + requirements(lines[n - 1])
    }
}

fn requirement_list(lines: &Vec<String>) -> (r: Vec<String>)
    ensures
        views(r@) == all_requirements(views(lines@), lines@.len()),
{
    let mut out: Vec<String> = Vec::new();
    let mut i: usize = 0;
    proof {
        crate::text::lemma_views_empty();
    }
    while i < lines.len()
        invariant
            i <= lines.len(),
            views(out@) == all_requirements(views(lines@), i as nat),
        decreases lines.len() - i,
    {
        let mut found: Vec<String> = parse_buildrequires(&lines[i]);
        let ghost was = out@;
        let ghost got = found@;
        out.append(&mut found);
        assert(views(was + got) =~= views(was) + views(got));
        assert(views(lines@)[i as int] == lines@[i as int]@);
        i = i + 1;
    }
    out
}

/// The build requirements of a source package, each once, as links to the
/// identities that they name.
pub open spec fn with_requirements(
    w: Sheet,
    c: SpecCollector,
    src: Seq<char>,
    names: Seq<Seq<char>>,
    n: nat,
) -> Sheet
    decreases n,
{
    if n == 0 {
        w
    } else {
        let before = with_requirements(w, c, src, names, (n - 1) as nat);
        let name = names[n - 1];
        if names.take(n - 1).contains(name) {
            before
        } else {
            link(
                before,
                src,
                pkg("buildDependsOn"@),
                identity_iri(c.distro@, c.release@, "noarch"@, name),
            )
        }
    }
}

pub open spec fn with_buildrequires(
    w: Sheet,
    c: SpecCollector,
    spec: SpecText,
    source_name: Seq<char>,
) -> Sheet {
    let src = source_iri(c.distro@, c.release@, source_name, version_or_unknown(spec));
    let names = all_requirements(spec.build_requires, spec.build_requires.len());
    with_requirements(w, c, src, names, names.len())
}

impl SpecCollector {
    pub fn emit_buildrequires_triples(
        &self,
        writer: &mut NTriplesWriter,
        spec: &SpecData,
        source_name: &str,
    ) -> (r: usize)
        ensures
            final(writer)@ == with_buildrequires(old(writer)@, *self, spec@, source_name@),
            r == final(writer)@.log.len() - old(writer)@.log.len(),
    {
        let start: usize = writer.len();
        let src: String = source_uri(&self.distro, &self.release, source_name, &spec_version(spec));
        let names: Vec<String> = requirement_list(&spec.build_requires);
        let ghost before = writer@;
        let ghost all = views(names@);
        let mut seen: Vec<String> = Vec::new();
        let mut i: usize = 0;
        proof {
            crate::text::lemma_views_empty();
        }
        while i < names.len()
            invariant
                i <= names.len(),
                all == views(names@),
                start <= writer@.log.len(),
                forall|x: Seq<char>|
                    views(seen@).contains(x) <==> all.take(i as int).contains(x),
                writer@ == with_requirements(before, *self, src@, all, i as nat),
            decreases names.len() - i,
        {
            assert(all[i as int] == names@[i as int]@);
            let ghost was = seen@;
            let known: bool = has_item(&seen, &names[i]);
            if !known {
                let target: String = package_identity_uri(
                    &self.distro,
                    &self.release,
                    "noarch",
                    &names[i],
                );
                writer.write_triple(&src, &cat2(PKG, "buildDependsOn"), &target);
                seen.push(names[i].clone());
            }
            proof {
                let x0 = all[i as int];
                assert(all.take(i + 1) =~= all.take(i as int).push(x0));
                assert(!known ==> views(seen@) == views(was).push(x0)) by {
                    crate::text::lemma_views_push(was, seen@.last());
                    assert(!known ==> seen@ =~= was.push(seen@.last()));
                }
                assert forall|x: Seq<char>|
                    views(seen@).contains(x) <==> all.take(i + 1).contains(x) by {
                    lemma_push_contains(all.take(i as int), x0, x);
                    lemma_push_contains(views(was), x0, x);
                }
            }
            i = i + 1;
        }
        writer.len() - start
    }
}

/// Who made the latest entry of the changelog.
pub open spec fn with_changelog_entry(
    w: Sheet,
    src: Seq<char>,
    name: Seq<char>,
    address: Seq<char>,
) -> Sheet {
    let w = match person_iri(address) {
        Some(person) => {
            let email = plain_email(address);
            let w = link(w, person, RDF_TYPE@, pkg("Person"@));
            let w = literal(w, person, FOAF@ + "name"@, name);
            let w = literal(w, person, FOAF@ + "mbox"@, "mailto:"@ + email);
            let w = link(w, src, PROV@ + "wasAttributedTo"@, person);
            let w = if address != email {
                with_dq_issue(
                    w,
                    "spec-changelog"@,
                    "obfuscated-email"@,
                    address,
                    "email-normalized"@,
                    "info"@,
                )
            } else {
                w
            };
            w
        },
        None => {
            with_dq_issue(
                w,
                "spec-changelog"@,
                "invalid-email"@,
                address,
                "email-unparseable"@,
                "warning"@,
            )
        },
    };
    w
}

/// Who made the latest entry of the changelog.
pub fn emit_changelog_entry(
    writer: &mut NTriplesWriter,
    src: &str,
    name: &str,
    address: &str,
) -> (r: usize)
    ensures
        final(writer)@ == with_changelog_entry(old(writer)@, src@, name@, address@),
        r == final(writer)@.log.len() - old(writer)@.log.len(),
{
    let start: usize = writer.len();
    if let Some(person) = person_uri_from_email(address) {
        let email: String = normalize_email(address);
        writer.write_triple(&person, RDF_TYPE, &cat2(PKG, "Person"));
        writer.write_literal(&person, &cat2(FOAF, "name"), name);
        writer.write_literal(&person, &cat2(FOAF, "mbox"), &cat2("mailto:", &email));
        writer.write_triple(src, &cat2(PROV, "wasAttributedTo"), &person);
        if !same(address, &email) {
            emit_dq_issue(
                writer,
                "spec-changelog",
                "obfuscated-email",
                address,
                "email-normalized",
                "info",
            );
        }
    } else {
        emit_dq_issue(
            writer,
            "spec-changelog",
            "invalid-email",
            address,
            "email-unparseable",
            "warning",
        );
    }
    writer.len() - start
}

pub open spec fn with_changelog(
    w: Sheet,
    c: SpecCollector,
    spec: SpecText,
    source_name: Seq<char>,
) -> Sheet {
    let src = source_iri(c.distro@, c.release@, source_name, version_or_unknown(spec));
    if spec.changelog_entries.len() > 0 {
        with_changelog_entry(
            w,
            src,
            spec.changelog_entries[0].name,
            spec.changelog_entries[0].email,
        )
    } else {
        w
    }
}

impl SpecCollector {
    /// The build attribution that the latest changelog entry gives.
    pub fn emit_changelog_triples(
        &self,
        writer: &mut NTriplesWriter,
        spec: &SpecData,
        source_name: &str,
    ) -> (r: usize)
        ensures
            final(writer)@ == with_changelog(old(writer)@, *self, spec@, source_name@),
            r == final(writer)@.log.len() - old(writer)@.log.len(),
    {
        let src: String = source_uri(&self.distro, &self.release, source_name, &spec_version(spec));
        if spec.changelog_entries.len() > 0 {
            assert(spec@.changelog_entries[0] == spec.changelog_entries@[0]@);
            emit_changelog_entry(
                writer,
                &src,
                &spec.changelog_entries[0].name,
                &spec.changelog_entries[0].email,
            )
        } else {
            0
        }
    }
}

/// Everything that the spec file of a source package gives.
pub open spec fn with_spec(
    w: Sheet,
    c: SpecCollector,
    spec: SpecText,
    source_name: Seq<char>,
    identities: Seq<Seq<char>>,
    in_existing_ecosystem: bool,
    buildrequires: bool,
    maintainers: bool,
) -> Sheet {
    let w = with_source0(w, spec, source_name, identities);
    let version = version_or_unknown(spec);
    let src = source_iri(c.distro@, c.release@, source_name, version);
    let w = with_each_spec_source(w, src, spec.all_sources, spec.all_sources.len());
    let w = with_each_patch(w, c, src, source_name, spec.patches, spec.patches.len());
    let w = match spec.commit_hash {
        Some(commit) => {
            with_commit(w, src, commit)
        },
        None => w,
    };
    let w = if !in_existing_ecosystem {
        with_ecosystem(w, spec, source_name, identities)
    } else {
        w
    };
    let w = if buildrequires {
        with_buildrequires(w, c, spec, source_name)
    } else {
        w
    };
    let w = if maintainers {
        with_changelog(w, c, spec, source_name)
    } else {
        w
    };
    w
}

impl SpecCollector {
    /// Everything that the spec file of a source package gives.
    pub fn emit_spec(
        &self,
        writer: &mut NTriplesWriter,
        spec: &SpecData,
        source_name: &str,
        identities: &Vec<String>,
        in_existing_ecosystem: bool,
        buildrequires: bool,
        maintainers: bool,
    ) -> (r: usize)
        ensures
            final(writer)@ == with_spec(
                old(writer)@,
                *self,
                spec@,
                source_name@,
                views(identities@),
                in_existing_ecosystem,
                buildrequires,
                maintainers,
            ),
            r == final(writer)@.log.len() - old(writer)@.log.len(),
    {
        let start: usize = writer.len();
        emit_source0(writer, spec, source_name, identities);
        let version: String = spec_version(spec);
        let src: String = source_uri(&self.distro, &self.release, source_name, &version);
        let ghost before_spec_source = writer@;
        let mut i: usize = 0;
        while i < spec.all_sources.len()
            invariant
                i <= spec.all_sources.len(),
                before_spec_source.log.len() <= writer@.log.len(),
                writer@ == with_each_spec_source(
                    before_spec_source,
                    src@,
                    views(spec.all_sources@),
                    i as nat,
                ),
            decreases spec.all_sources.len() - i,
        {
            emit_spec_source(writer, &src, &spec.all_sources[i]);
            i = i + 1;
        }
        let ghost before_patch = writer@;
        let mut i: usize = 0;
        while i < spec.patches.len()
            invariant
                i <= spec.patches.len(),
                before_patch.log.len() <= writer@.log.len(),
                writer@ == with_each_patch(
                    before_patch,
                    *self,
                    src@,
                    source_name@,
                    views(spec.patches@),
                    i as nat,
                ),
            decreases spec.patches.len() - i,
        {
            self.emit_patch(writer, &src, source_name, i, &spec.patches[i]);
            i = i + 1;
        }
        if let Some(commit) = &spec.commit_hash {
            emit_commit(writer, &src, commit);
        }
        if !in_existing_ecosystem {
            emit_ecosystem_triples(writer, spec, source_name, identities);
        }
        if buildrequires {
            self.emit_buildrequires_triples(writer, spec, source_name);
        }
        if maintainers {
            self.emit_changelog_triples(writer, spec, source_name);
        }
        writer.len() - start
    }
}

// ---------------------------------------------------------------------------
// Items

/// What to emit of a spec file.
#[derive(Debug, Clone, Copy, PartialEq, Eq, Structural)]
pub struct SpecOptions {
    pub buildrequires: bool,
    pub maintainers: bool,
}

/// The identities of a source package; none where the map has none.
pub open spec fn identities_of(map: Map<Seq<char>, Seq<Seq<char>>>, name: Seq<char>) -> Seq<
    Seq<char>,
> {
    if map.contains_key(name) {
        map[name]
    } else {
        Seq::empty()
    }
}

fn identity_list(map: &TextMap<Texts>, name: &str) -> (r: Vec<String>)
    ensures
        views(r@) == identities_of(map@, name@),
{
    match map.get(name) {
        Some(list) => copied(&list.items),
        None => {
            proof {
                crate::text::lemma_views_empty();
            }
            Vec::new()
        },
    }
}

/// What a spec file with this content gives.
pub open spec fn with_spec_content(
    w: Sheet,
    c: SpecCollector,
    name: Seq<char>,
    content: Seq<char>,
    identities: Seq<Seq<char>>,
    in_existing_ecosystem: bool,
    o: SpecOptions,
) -> Sheet {
    with_spec(
        w,
        c,
        spec_of(content),
        name,
        identities,
        in_existing_ecosystem,
        o.buildrequires,
        o.maintainers,
    )
}

/// What the answer for a source package gives: its spec file, or a note that
/// there is none.
pub open spec fn with_answer(
    w: Sheet,
    c: SpecCollector,
    name: Seq<char>,
    answer: Fetched,
    identities: Seq<Seq<char>>,
    in_existing_ecosystem: bool,
    o: SpecOptions,
) -> Sheet {
    match answer {
        Fetched::Found(content) => with_spec_content(
            w,
            c,
            name,
            content,
            identities,
            in_existing_ecosystem,
            o,
        ),
        _ => with_dq_issue(
            w,
            "collect-spec"@,
            "spec-file"@,
            name,
            "spec-fetch-failed"@,
            "warning"@,
        ),
    }
}

/// A missing file is an answer and may be kept; an inconclusive fetch is none.
pub open spec fn cacheability(answer: Fetched) -> Cacheability {
    match answer {
        Fetched::RetryableFailure(_) => Cacheability::Retryable,
        _ => Cacheability::Complete,
    }
}

impl SpecCollector {
    /// Derives the statements of a fetched spec file.
    pub fn process_spec_with_content(
        &self,
        writer: &mut NTriplesWriter,
        source_name: &str,
        content: &str,
        identities: &Vec<String>,
        in_existing_ecosystem: bool,
        options: SpecOptions,
    ) -> (r: usize)
        ensures
            final(writer)@ == with_spec_content(
                old(writer)@,
                *self,
                source_name@,
                content@,
                views(identities@),
                in_existing_ecosystem,
                options,
            ),
            r == final(writer)@.log.len() - old(writer)@.log.len(),
    {
        let spec: SpecData = parse_spec(content);
        self.emit_spec(
            writer,
            &spec,
            source_name,
            identities,
            in_existing_ecosystem,
            options.buildrequires,
            options.maintainers,
        )
    }

    /// Derives the statements of an answer, and tells whether they may be kept.
    pub fn process_spec_classified(
        &self,
        writer: &mut NTriplesWriter,
        source_name: &str,
        answer: &SpecFetchResult,
        identities: &Vec<String>,
        in_existing_ecosystem: bool,
        options: SpecOptions,
    ) -> (r: (usize, Cacheability))
        ensures
            final(writer)@ == with_answer(
                old(writer)@,
                *self,
                source_name@,
                answer@,
                views(identities@),
                in_existing_ecosystem,
                options,
            ),
            r.0 == final(writer)@.log.len() - old(writer)@.log.len(),
            r.1 == cacheability(answer@),
    {
        match answer {
            SpecFetchResult::Found(content) => {
                let n: usize = self.process_spec_with_content(
                    writer,
                    source_name,
                    content,
                    identities,
                    in_existing_ecosystem,
                    options,
                );
                (n, Cacheability::Complete)
            },
            SpecFetchResult::NotFound => {
                let n: usize = emit_dq_issue(
                    writer,
                    "collect-spec",
                    "spec-file",
                    source_name,
                    "spec-fetch-failed",
                    "warning",
                );
                (n, Cacheability::Complete)
            },
            SpecFetchResult::RetryableFailure(_) => {
                let n: usize = emit_dq_issue(
                    writer,
                    "collect-spec",
                    "spec-file",
                    source_name,
                    "spec-fetch-failed",
                    "warning",
                );
                (n, Cacheability::Retryable)
            },
        }
    }

    /// Derives the fragment of one source package. It is rendered without a
    /// graph, so that it can be replayed into any.
    pub fn derive_fragment(
        &self,
        source_name: &str,
        answer: &SpecFetchResult,
        identity_map: &TextMap<Texts>,
        existing: &Vec<String>,
        options: SpecOptions,
    ) -> (r: SpecItem)
        ensures
            r@ == derived(
                *self,
                source_name@,
                answer@,
                identity_map@,
                views(existing@),
                options,
            ),
    {
        let mut scratch: NTriplesWriter = NTriplesWriter::new();
        let identities: Vec<String> = identity_list(identity_map, source_name);
        let known: bool = has_item(existing, source_name);
        let (_n, keep): (usize, Cacheability) = self.process_spec_classified(
            &mut scratch,
            source_name,
            answer,
            &identities,
            known,
            options,
        );
        proof {
            lemma_answer_frame(
                blank_sheet(None),
                *self,
                source_name@,
                answer@,
                views(identities@),
                known,
                options,
            );
        }
        SpecItem::Done { fragment: scratch.into_fragment(), cacheability: keep }
    }
}

/// What the fragment of a source package depends on beside its spec file. A fragment
/// that was kept counts only where this is the same.
#[derive(Debug, Clone, PartialEq)]
pub struct CheckpointContext {
    pub distro: String,
    pub release: String,
    pub identities: Vec<String>,
    pub in_existing_ecosystem: bool,
    pub emit_buildrequires: bool,
    pub emit_maintainers: bool,
}

impl SpecCollector {
    /// What the fragment of a source package depends on.
    pub fn checkpoint_context(
        &self,
        source_name: &str,
        identity_map: &TextMap<Texts>,
        existing: &Vec<String>,
        options: SpecOptions,
    ) -> (r: CheckpointContext)
        ensures
            r.distro@ == self.distro@,
            r.release@ == self.release@,
            views(r.identities@) == identities_of(identity_map@, source_name@),
            r.in_existing_ecosystem == views(existing@).contains(source_name@),
            r.emit_buildrequires == options.buildrequires,
            r.emit_maintainers == options.maintainers,
    {
        CheckpointContext {
            distro: self.distro.clone(),
            release: self.release.clone(),
            identities: identity_list(identity_map, source_name),
            in_existing_ecosystem: has_item(existing, source_name),
            emit_buildrequires: options.buildrequires,
            emit_maintainers: options.maintainers,
        }
    }
}

/// Where the context is the same, so is the fragment: it depends on nothing else of
/// the run.
pub proof fn lemma_same_context_same_fragment(
    c: SpecCollector,
    name: Seq<char>,
    answer: Fetched,
    identity_map: Map<Seq<char>, Seq<Seq<char>>>,
    other_map: Map<Seq<char>, Seq<Seq<char>>>,
    existing: Seq<Seq<char>>,
    others: Seq<Seq<char>>,
    o: SpecOptions,
)
    requires
        identities_of(identity_map, name) == identities_of(other_map, name),
        existing.contains(name) == others.contains(name),
    ensures
        derived(c, name, answer, identity_map, existing, o) == derived(
            c,
            name,
            answer,
            other_map,
            others,
            o,
        ),
{
}

/// One item of a run: its fragment, derived now or kept from an earlier run, or
/// the fact that neither could be had.
pub enum SpecItem {
    Done { fragment: Fragment, cacheability: Cacheability },
    Failed,
}

/// What a [`SpecItem`] says.
pub enum Item {
    Done { fragment: FragmentText, cacheability: Cacheability },
    Failed,
}

impl View for SpecItem {
    type V = Item;

    open spec fn view(&self) -> Item {
        match self {
            SpecItem::Done { fragment, cacheability } => Item::Done {
                fragment: fragment@,
                cacheability: *cacheability,
            },
            SpecItem::Failed => Item::Failed,
        }
    }
}

pub open spec fn derived(
    c: SpecCollector,
    name: Seq<char>,
    answer: Fetched,
    identity_map: Map<Seq<char>, Seq<Seq<char>>>,
    existing: Seq<Seq<char>>,
    o: SpecOptions,
) -> Item {
    let w = with_answer(
        blank_sheet(None),
        c,
        name,
        answer,
        identities_of(identity_map, name),
        existing.contains(name),
        o,
    );
    Item::Done { fragment: fragment_of(w.log), cacheability: cacheability(answer) }
}

// Statements written by the functions of this module touch the log alone.

/// Whether two sheets differ in their logs alone.
pub open spec fn same_frame(a: Sheet, b: Sheet) -> bool {
    a.graph == b.graph && a.carried_skips == b.carried_skips && a.carried_inverses
        == b.carried_inverses
}

proof fn lemma_links_frame(w: Sheet, repo: Seq<char>, items: Seq<Seq<char>>, n: nat)
    ensures
        same_frame(w, with_each_repo_link(w, repo, items, n)),
    decreases n,
{
    if n > 0 {
        lemma_links_frame(w, repo, items, (n - 1) as nat);
    }
}

proof fn lemma_sources_frame(w: Sheet, src: Seq<char>, items: Seq<Seq<char>>, n: nat)
    ensures
        same_frame(w, with_each_spec_source(w, src, items, n)),
    decreases n,
{
    if n > 0 {
        lemma_sources_frame(w, src, items, (n - 1) as nat);
    }
}

proof fn lemma_patches_frame(
    w: Sheet,
    c: SpecCollector,
    src: Seq<char>,
    name: Seq<char>,
    items: Seq<Seq<char>>,
    n: nat,
)
    ensures
        same_frame(w, with_each_patch(w, c, src, name, items, n)),
    decreases n,
{
    if n > 0 {
        lemma_patches_frame(w, c, src, name, items, (n - 1) as nat);
    }
}

proof fn lemma_upstream_frame(
    w: Sheet,
    ecosystem: Seq<char>,
    name: Option<Seq<char>>,
    items: Seq<Seq<char>>,
    n: nat,
)
    ensures
        same_frame(w, with_each_upstream_package(w, ecosystem, name, items, n)),
    decreases n,
{
    if n > 0 {
        lemma_upstream_frame(w, ecosystem, name, items, (n - 1) as nat);
    }
}

proof fn lemma_requirements_frame(
    w: Sheet,
    c: SpecCollector,
    src: Seq<char>,
    names: Seq<Seq<char>>,
    n: nat,
)
    ensures
        same_frame(w, with_requirements(w, c, src, names, n)),
    decreases n,
{
    if n > 0 {
        lemma_requirements_frame(w, c, src, names, (n - 1) as nat);
    }
}

proof fn lemma_source0_frame(
    w: Sheet,
    spec: SpecText,
    name: Seq<char>,
    identities: Seq<Seq<char>>,
)
    ensures
        same_frame(w, with_source0(w, spec, name, identities)),
{
    match spec.source0_url {
        Some(source0) => {
            let url = expanded(source0, spec);
            let w1 = if contains(url, "%{"@) || contains(url, "%("@) {
                with_dq_issue(w, "collect-spec"@, "source0"@, url, "unexpanded-macro"@, "info"@)
            } else {
                w
            };
            match forge_url(url) {
                Some(repo_url) => lemma_links_frame(
                    w1,
                    repo_iri(repo_url),
                    identities,
                    identities.len(),
                ),
                None => {},
            }
        },
        None => {},
    }
}

proof fn lemma_detection_frame(
    w: Sheet,
    d: Detected,
    name: Seq<char>,
    identities: Seq<Seq<char>>,
)
    ensures
        same_frame(
            w,
            with_detection(w, d.ecosystem, d.package_name, d.method, name, identities),
        ),
{
    let node = DATA@ + "ecosystem/"@ + d.ecosystem;
    let w1 = literal(
        link(w, node, RDF_TYPE@, pkg("Ecosystem"@)),
        node,
        RDFS_LABEL@,
        d.ecosystem,
    );
    lemma_upstream_frame(w1, node, d.package_name, identities, identities.len());
}

proof fn lemma_answer_frame(
    w: Sheet,
    c: SpecCollector,
    name: Seq<char>,
    answer: Fetched,
    identities: Seq<Seq<char>>,
    known: bool,
    o: SpecOptions,
)
    ensures
        same_frame(w, with_answer(w, c, name, answer, identities, known, o)),
{
    match answer {
        Fetched::Found(content) => {
            let spec = spec_of(content);
            let w0 = with_source0(w, spec, name, identities);
            lemma_source0_frame(w, spec, name, identities);
            let src = source_iri(c.distro@, c.release@, name, version_or_unknown(spec));
            let w1 = with_each_spec_source(w0, src, spec.all_sources, spec.all_sources.len());
            lemma_sources_frame(w0, src, spec.all_sources, spec.all_sources.len());
            let w2 = with_each_patch(w1, c, src, name, spec.patches, spec.patches.len());
            lemma_patches_frame(w1, c, src, name, spec.patches, spec.patches.len());
            let w3 = match spec.commit_hash {
                Some(h) => with_commit(w2, src, h),
                None => w2,
            };
            let w4 = if known {
                w3
            } else {
                with_ecosystem(w3, spec, name, identities)
            };
            match by_spec(spec, name) {
                Some(d) => lemma_detection_frame(w3, d, name, identities),
                None => {},
            }
            let names = all_requirements(spec.build_requires, spec.build_requires.len());
            lemma_requirements_frame(w4, c, src, names, names.len());
        },
        _ => {},
    }
}

// ---------------------------------------------------------------------------
// Runs

/// How a stage of a run went, item by item.
pub struct StageReport {
    pub stage: String,
    /// Whether a run may not be published without this stage.
    pub required: bool,
    pub attempted: usize,
    pub completed: usize,
    pub retryable: usize,
    pub failed: usize,
}

/// The state of a run over the items of a stage.
#[verifier::ext_equal]
pub struct Run {
    pub sheet: Sheet,
    /// Items that gave at least one statement.
    pub specs: nat,
    /// Statements over all items.
    pub triples: nat,
    pub completed: nat,
    pub retryable: nat,
    pub failed: nat,
}

pub open spec fn item_done(r: Run, fragment: FragmentText, keep: Cacheability) -> Run {
    Run {
        sheet: replayed(r.sheet, fragment),
        specs: r.specs + if fragment.logical_triples > 0 {
            1nat
        } else {
            0nat
        },
        triples: r.triples + fragment.logical_triples,
        completed: r.completed + if keep == Cacheability::Complete {
            1nat
        } else {
            0nat
        },
        retryable: r.retryable + if keep == Cacheability::Retryable {
            1nat
        } else {
            0nat
        },
        failed: r.failed,
    }
}

pub open spec fn stepped(r: Run, item: Item) -> Run {
    match item {
        Item::Done { fragment, cacheability } => item_done(r, fragment, cacheability),
        Item::Failed => Run { failed: r.failed + 1, ..r },
    }
}

pub open spec fn fresh_run(w: Sheet) -> Run {
    Run { sheet: w, specs: 0, triples: 0, completed: 0, retryable: 0, failed: 0 }
}

/// The state after the first `n` items.
pub open spec fn run_of(w: Sheet, items: Seq<Item>, n: nat) -> Run
    decreases n,
{
    if n == 0 {
        fresh_run(w)
    } else {
        stepped(run_of(w, items, (n - 1) as nat), items[n - 1])
    }
}

/// An item of a run, with the name of its source package.
pub struct NamedItem {
    pub name: String,
    pub item: SpecItem,
}

pub open spec fn items_view(items: Seq<NamedItem>) -> Seq<Item> {
    items.map_values(|x: NamedItem| x.item@)
}

pub open spec fn item_names(items: Seq<NamedItem>) -> Seq<Seq<char>> {
    items.map_values(|x: NamedItem| x.name@)
}

/// Every item of a run is accounted for: it completed, may be retried or failed.
pub proof fn lemma_every_item_is_accounted_for(w: Sheet, items: Seq<Item>, n: nat)
    requires
        n <= items.len(),
    ensures
        ({
            let r = run_of(w, items, n);
            &&& r.completed + r.retryable + r.failed == n
            &&& r.specs <= n
        }),
    decreases n,
{
    if n > 0 {
        lemma_every_item_is_accounted_for(w, items, (n - 1) as nat);
    }
}

/// The counters of a run grow from item to item.
pub proof fn lemma_run_grows(w: Sheet, items: Seq<Item>, m: nat, n: nat)
    requires
        m <= n <= items.len(),
    ensures
        run_of(w, items, m).triples <= run_of(w, items, n).triples,
        run_of(w, items, m).sheet.carried_skips <= run_of(w, items, n).sheet.carried_skips,
        run_of(w, items, m).sheet.carried_inverses <= run_of(w, items, n).sheet.carried_inverses,
    decreases n,
{
    if m < n {
        lemma_run_grows(w, items, m, (n - 1) as nat);
    }
}

/// Whether the counters of a run fit the machine.
pub open spec fn run_fits(r: Run) -> bool {
    r.triples <= usize::MAX && r.sheet.carried_skips <= usize::MAX && r.sheet.carried_inverses
        <= usize::MAX
}

/// Two runs over the same names take them in the same order, however the names are
/// listed and however often one is repeated.
pub proof fn lemma_names_determine_the_order(
    names: Seq<Seq<char>>,
    others: Seq<Seq<char>>,
    first: Seq<Seq<char>>,
    second: Seq<Seq<char>>,
)
    requires
        same_texts(names, others),
        ascending(first) && same_texts(first, names),
        ascending(second) && same_texts(second, others),
    ensures
        first == second,
{
    crate::order::lemma_ascending_unique(first, second);
}

/// The names of the source packages in the order in which a run takes them:
/// ascending, each once, so that two runs over the same names write the same
/// lines in the same order.
pub fn ordered_names(srpm_names: &Vec<String>) -> (r: Vec<String>)
    ensures
        ascending(views(r@)),
        same_texts(views(r@), views(srpm_names@)),
{
    sorted_texts(srpm_names)
}

impl SpecCollector {
    /// Replays the items of a stage, in the order of their names, and reports how they
    /// went. The names are those that [`ordered_names`] gives.
    pub fn collect_checkpointed(&self, writer: &mut NTriplesWriter, items: &Vec<NamedItem>) -> (r: (
        usize,
        usize,
        StageReport,
    ))
        requires
            ascending(item_names(items@)),
            run_fits(run_of(old(writer)@, items_view(items@), items@.len())),
        ensures
            ({
                let run = run_of(old(writer)@, items_view(items@), items@.len());
                &&& final(writer)@ == run.sheet
                &&& r.0 == run.specs
                &&& r.1 == run.triples
                &&& (r.2).stage@ == "spec"@
                &&& !(r.2).required
                &&& (r.2).attempted == items@.len()
                &&& (r.2).completed == run.completed
                &&& (r.2).retryable == run.retryable
                &&& (r.2).failed == run.failed
            }),
    {
        let mut specs: usize = 0;
        let mut triples: usize = 0;
        let mut completed: usize = 0;
        let mut retryable: usize = 0;
        let mut failed: usize = 0;
        let mut i: usize = 0;
        let ghost all = items_view(items@);
        let ghost w0 = writer@;
        while i < items.len()
            invariant
                i <= items.len(),
                all == items_view(items@),
                run_fits(run_of(w0, all, items@.len())),
                ({
                    let run = run_of(w0, all, i as nat);
                    &&& writer@ == run.sheet
                    &&& specs == run.specs
                    &&& triples == run.triples
                    &&& completed == run.completed
                    &&& retryable == run.retryable
                    &&& failed == run.failed
                }),
            decreases items.len() - i,
        {
            proof {
                assert(all[i as int] == items@[i as int].item@);
                lemma_every_item_is_accounted_for(w0, all, i as nat);
                lemma_run_grows(w0, all, (i + 1) as nat, items@.len());
            }
            match &items[i].item {
                SpecItem::Done { fragment, cacheability } => {
                    writer.replay(fragment);
                    match cacheability {
                        Cacheability::Complete => {
                            completed = completed + 1;
                        },
                        Cacheability::Retryable => {
                            retryable = retryable + 1;
                        },
                    }
                    if fragment.logical_triples > 0 {
                        specs = specs + 1;
                        triples = triples + fragment.logical_triples;
                    }
                },
                SpecItem::Failed => {
                    failed = failed + 1;
                },
            }
            i = i + 1;
        }
        let report: StageReport = StageReport {
            stage: "spec".to_owned(),
            required: false,
            attempted: items.len(),
            completed,
            retryable,
            failed,
        };
        (specs, triples, report)
    }
}

/// The items that the answers for a list of names give.
pub open spec fn all_derived(
    c: SpecCollector,
    names: Seq<Seq<char>>,
    answers: Seq<SpecFetchResult>,
    identity_map: Map<Seq<char>, Seq<Seq<char>>>,
    existing: Seq<Seq<char>>,
    o: SpecOptions,
) -> Seq<Item> {
    Seq::new(
        names.len(),
        |i: int| derived(c, names[i], answers[i]@, identity_map, existing, o),
    )
}

impl SpecCollector {
    /// Collects the spec files of a list of source packages, given the answer for
    /// each name of [`ordered_names`]. Returns `None` where the counts of the run
    /// do not fit the machine, and then writes nothing.
    pub fn collect(
        &self,
        writer: &mut NTriplesWriter,
        ordered: &Vec<String>,
        answers: &Vec<SpecFetchResult>,
        identity_map: &TextMap<Texts>,
        existing: &Vec<String>,
        options: SpecOptions,
    ) -> (r: Option<(usize, usize)>)
        requires
            ascending(views(ordered@)),
            ordered@.len() == answers@.len(),
        ensures
            ({
                let items = all_derived(
                    *self,
                    views(ordered@),
                    answers@,
                    identity_map@,
                    views(existing@),
                    options,
                );
                let run = run_of(old(writer)@, items, items.len());
                &&& r is Some <==> run_fits(run)
                &&& r is Some ==> final(writer)@ == run.sheet && (r->0).0 == run.specs && (r->0).1
                    == run.triples
                &&& r is None ==> final(writer)@ == old(writer)@
            }),
    {
        let mut items: Vec<NamedItem> = Vec::new();
        let mut i: usize = 0;
        let ghost all = all_derived(
            *self,
            views(ordered@),
            answers@,
            identity_map@,
            views(existing@),
            options,
        );
        while i < ordered.len()
            invariant
                i <= ordered.len(),
                ordered@.len() == answers@.len(),
                all == all_derived(
                    *self,
                    views(ordered@),
                    answers@,
                    identity_map@,
                    views(existing@),
                    options,
                ),
                items_view(items@) == all.take(i as int),
                item_names(items@) == views(ordered@).take(i as int),
            decreases ordered.len() - i,
        {
            let item: SpecItem = self.derive_fragment(
                &ordered[i],
                &answers[i],
                identity_map,
                existing,
                options,
            );
            proof {
                assert(views(ordered@)[i as int] == ordered@[i as int]@);
                assert(all.take(i + 1) =~= all.take(i as int).push(all[i as int]));
                assert(views(ordered@).take(i + 1) =~= views(ordered@).take(i as int).push(
                    views(ordered@)[i as int],
                ));
            }
            let ghost was = items@;
            let named: NamedItem = NamedItem { name: ordered[i].clone(), item };
            let ghost added = named;
            items.push(named);
            assert(items_view(items@) =~= items_view(was).push(added.item@));
            assert(item_names(items@) =~= item_names(was).push(added.name@));
            i = i + 1;
        }
        assert(items_view(items@) =~= all);
        assert(item_names(items@) =~= views(ordered@));
        if !counts_fit(writer, &items) {
            return None;
        }
        let (specs, triples, _report): (usize, usize, StageReport) = self.collect_checkpointed(
            writer,
            &items,
        );
        Some((specs, triples))
    }
}

/// Whether the counters of a run over these items fit the machine.
pub fn counts_fit(writer: &NTriplesWriter, items: &Vec<NamedItem>) -> (r: bool)
    ensures
        r == run_fits(run_of(writer@, items_view(items@), items@.len())),
{
    let mut triples: usize = 0;
    let mut skips: usize = writer.carried_skips();
    let mut inverses: usize = writer.carried_inverses();
    let mut i: usize = 0;
    let ghost all = items_view(items@);
    while i < items.len()
        invariant
            i <= items.len(),
            all == items_view(items@),
            ({
                let run = run_of(writer@, all, i as nat);
                &&& triples == run.triples
                &&& skips == run.sheet.carried_skips
                &&& inverses == run.sheet.carried_inverses
            }),
        decreases items.len() - i,
    {
        proof {
            assert(all[i as int] == items@[i as int].item@);
            lemma_run_grows(writer@, all, (i + 1) as nat, items@.len());
        }
        if let SpecItem::Done { fragment, cacheability } = &items[i].item {
            if fragment.logical_triples > usize::MAX - triples || fragment.skipped_invalid_iri
                > usize::MAX - skips || fragment.auto_inverses > usize::MAX - inverses {
                return false;
            }
            triples = triples + fragment.logical_triples;
            skips = skips + fragment.skipped_invalid_iri;
            inverses = inverses + fragment.auto_inverses;
        }
        i = i + 1;
    }
    true
}

} // verus!
