//! The registry of Rust crates.

use crate::ntriples::{
    bnode_id, bnode_label, bnode_literal, bnode_object, bnode_subject, link, literal, literal_if,
    number_if, pkg, NTriplesWriter, Sheet, PKG,
};
use crate::text::{
    cat2, cat3, cat5, empty, has_item, lemma_views_empty, lemma_views_push, opt, same, views,
};
use crate::textmap::TextMap;
use crate::uris::{
    distro_iri, distro_uri, identity_iri, package_identity_uri, package_iri, package_uri,
    release_iri, release_uri, version_iri, version_uri, CARGO, RDF_TYPE,
};
use vstd::prelude::*;

verus! {

broadcast use crate::text::lemma_views_push;

/// How often a request is made before it is given up.
pub const MAX_ATTEMPTS: u32 = 5;

/// The longest delay between crates, in milliseconds.
pub const MAX_DELAY_MS: u64 = 5000;

/// A version of a crate.
pub struct CrateVersion {
    pub num: String,
    pub edition: Option<String>,
    pub rust_version: Option<String>,
    /// The names of its features.
    pub features: Vec<String>,
}

/// What a [`CrateVersion`] says.
#[verifier::ext_equal]
pub struct CrateRelease {
    pub num: Seq<char>,
    pub edition: Option<Seq<char>>,
    pub rust_version: Option<Seq<char>>,
    pub features: Seq<Seq<char>>,
}

impl View for CrateVersion {
    type V = CrateRelease;

    open spec fn view(&self) -> CrateRelease {
        CrateRelease {
            num: self.num@,
            edition: crate::text::opt(self.edition),
            rust_version: crate::text::opt(self.rust_version),
            features: crate::text::views(self.features@),
        }
    }
}

/// The views of a list of records.
pub open spec fn crate_version_views(v: Seq<CrateVersion>) -> Seq<CrateRelease> {
    v.map_values(|x: CrateVersion| x@)
}

/// A crate.
pub struct CrateData {
    pub name: String,
    pub description: Option<String>,
    pub license: Option<String>,
    pub homepage: Option<String>,
    pub repository: Option<String>,
    pub downloads: Option<i64>,
    pub max_stable_version: Option<String>,
}

/// What a [`CrateData`] says.
#[verifier::ext_equal]
pub struct CrateText {
    pub name: Seq<char>,
    pub description: Option<Seq<char>>,
    pub license: Option<Seq<char>>,
    pub homepage: Option<Seq<char>>,
    pub repository: Option<Seq<char>>,
    pub downloads: Option<i64>,
    pub max_stable_version: Option<Seq<char>>,
}

impl View for CrateData {
    type V = CrateText;

    open spec fn view(&self) -> CrateText {
        CrateText {
            name: self.name@,
            description: crate::text::opt(self.description),
            license: crate::text::opt(self.license),
            homepage: crate::text::opt(self.homepage),
            repository: crate::text::opt(self.repository),
            downloads: self.downloads,
            max_stable_version: crate::text::opt(self.max_stable_version),
        }
    }
}

/// A crate with its versions.
pub struct CratesResponse {
    pub crate_data: CrateData,
    pub versions: Vec<CrateVersion>,
}

/// What a [`CratesResponse`] says.
#[verifier::ext_equal]
pub struct CrateReply {
    pub crate_data: CrateText,
    pub versions: Seq<CrateRelease>,
}

impl View for CratesResponse {
    type V = CrateReply;

    open spec fn view(&self) -> CrateReply {
        CrateReply {
            crate_data: self.crate_data@,
            versions: crate_version_views(self.versions@),
        }
    }
}

/// What a crate depends on.
pub struct CrateDep {
    pub crate_id: String,
    pub req: String,
    pub kind: String,
    pub optional: bool,
}

/// What a [`CrateDep`] says.
#[verifier::ext_equal]
pub struct CrateNeed {
    pub crate_id: Seq<char>,
    pub req: Seq<char>,
    pub kind: Seq<char>,
    pub optional: bool,
}

impl View for CrateDep {
    type V = CrateNeed;

    open spec fn view(&self) -> CrateNeed {
        CrateNeed {
            crate_id: self.crate_id@,
            req: self.req@,
            kind: self.kind@,
            optional: self.optional,
        }
    }
}

/// The views of a list of records.
pub open spec fn crate_dep_views(v: Seq<CrateDep>) -> Seq<CrateNeed> {
    v.map_values(|x: CrateDep| x@)
}

/// A collector of crates.
pub struct CargoCollector {}

// ---------------------------------------------------------------------------
// The crawl

/// A walk over crates and their dependencies, nearest first.
pub struct Crawl {
    /// The crates to look at, in order.
    queue: Vec<String>,
    /// How many of them were taken.
    taken: usize,
    /// The crates that were looked at.
    visited: Vec<String>,
    /// How far each known crate is from a seed.
    depths: TextMap<Depth>,
}

/// A distance.
pub struct Depth {
    pub value: u32,
}

impl View for Depth {
    type V = u32;

    open spec fn view(&self) -> u32 {
        self.value
    }
}

/// What a [`Crawl`] holds.
#[verifier::ext_equal]
pub struct CrawlState {
    pub queue: Seq<Seq<char>>,
    pub visited: Seq<Seq<char>>,
    pub depths: Map<Seq<char>, u32>,
}

impl View for Crawl {
    type V = CrawlState;

    closed spec fn view(&self) -> CrawlState {
        CrawlState {
            queue: views(self.queue@).skip(self.taken as int),
            visited: views(self.visited@),
            depths: self.depths@,
        }
    }
}

impl Crawl {
    #[verifier::type_invariant]
    spec fn within_queue(&self) -> bool {
        self.taken <= self.queue@.len()
    }
}

/// The distances of the first `n` seeds.
pub open spec fn seed_depths(seeds: Seq<Seq<char>>, n: nat) -> Map<Seq<char>, u32>
    decreases n,
{
    if n == 0 {
        Map::empty()
    } else {
        seed_depths(seeds, (n - 1) as nat).insert(seeds[n - 1], 0u32)
    }
}

pub open spec fn crawl_start(seeds: Seq<Seq<char>>) -> CrawlState {
    CrawlState {
        queue: seeds,
        visited: Seq::empty(),
        depths: seed_depths(seeds, seeds.len()),
    }
}

/// The state after the next crate is taken, and that crate. Crates that were
/// looked at before are passed over. `None` where no crate is left, or where the
/// next one is beyond the limit.
pub open spec fn crawl_next(s: CrawlState, max_packages: usize) -> (CrawlState, Option<Seq<char>>)
    decreases s.queue.len(),
{
    if s.queue.len() == 0 {
        (s, None)
    } else {
        let name = s.queue[0];
        let rest = CrawlState { queue: s.queue.skip(1), ..s };
        if s.visited.contains(name) {
            crawl_next(rest, max_packages)
        } else {
            let now = CrawlState { visited: s.visited.push(name), ..rest };
            if now.visited.len() > max_packages {
                (now, None)
            } else {
                (now, Some(name))
            }
        }
    }
}

/// How far a crate is from a seed.
pub open spec fn depth_of(s: CrawlState, name: Seq<char>) -> u32 {
    if s.depths.contains_key(name) {
        s.depths[name]
    } else {
        0
    }
}

/// Whether a dependency is to be looked at: it is not for development alone, and
/// it is not known yet.
pub open spec fn is_new(s: CrawlState, dep: CrateNeed) -> bool {
    dep.kind != "dev"@ && !s.visited.contains(dep.crate_id) && !s.depths.contains_key(dep.crate_id)
}

/// The state with the first `n` dependencies of a crate added.
pub open spec fn crawl_added(s: CrawlState, deps: Seq<CrateNeed>, depth: u32, n: nat) -> CrawlState
    decreases n,
{
    if n == 0 {
        s
    } else {
        let before = crawl_added(s, deps, depth, (n - 1) as nat);
        let dep = deps[n - 1];
        if is_new(before, dep) {
            CrawlState {
                queue: before.queue.push(dep.crate_id),
                depths: before.depths.insert(dep.crate_id, (depth + 1) as u32),
                ..before
            }
        } else {
            before
        }
    }
}

/// The state with the dependencies of a crate added, where the crate is nearer
/// than the limit.
pub open spec fn crawl_expanded(
    s: CrawlState,
    name: Seq<char>,
    deps: Seq<CrateNeed>,
    max_depth: u32,
) -> CrawlState {
    if depth_of(s, name) < max_depth {
        crawl_added(s, deps, depth_of(s, name), deps.len())
    } else {
        s
    }
}

impl Crawl {
    /// A walk that starts at seeds.
    pub fn new(seeds: Vec<String>) -> (r: Self)
        ensures
            r@ == crawl_start(views(seeds@)),
    {
        let mut depths: TextMap<Depth> = TextMap::new();
        let mut i: usize = 0;
        let ghost all = views(seeds@);
        while i < seeds.len()
            invariant
                i <= seeds.len(),
                all == views(seeds@),
                depths@ == seed_depths(all, i as nat),
            decreases seeds.len() - i,
        {
            assert(all[i as int] == seeds@[i as int]@);
            depths.insert(seeds[i].clone(), Depth { value: 0 });
            i = i + 1;
        }
        proof {
            lemma_views_empty();
            assert(all.skip(0) =~= all);
        }
        Crawl { queue: seeds, taken: 0, visited: Vec::new(), depths }
    }

    /// The next crate to look at.
    pub fn next(&mut self, max_packages: usize) -> (r: Option<String>)
        ensures
            (final(self)@, opt(r)) == crawl_next(old(self)@, max_packages),
    {
        proof {
            use_type_invariant(&*self);
        }
        let ghost s0 = self@;
        let mut taken: usize = self.taken;
        while taken < self.queue.len()
            invariant
                taken <= self.queue@.len(),
                *self == *old(self),
                s0 == old(self)@,
                crawl_next(s0, max_packages) == crawl_next(
                    (CrawlState {
                        queue: views(self.queue@).skip(taken as int),
                        visited: views(self.visited@),
                        depths: self.depths@,
                    }),
                    max_packages,
                ),
            decreases self.queue@.len() - taken,
        {
            let name: String = self.queue[taken].clone();
            proof {
                let q = views(self.queue@);
                assert(q.skip(taken as int)[0] == name@);
                assert(q.skip(taken as int).skip(1) =~= q.skip(taken + 1));
            }
            taken = taken + 1;
            if !has_item(&self.visited, &name) {
                proof {
                    use_type_invariant(&*self);
                    lemma_views_push(self.visited@, name);
                }
                let again: String = name.clone();
                let mut visited: Vec<String> = Vec::new();
                std::mem::swap(&mut visited, &mut self.visited);
                let ghost was = visited@;
                visited.push(again);
                assert(views(visited@) == views(was).push(name@));
                let over: bool = visited.len() > max_packages;
                self.visited = visited;
                self.taken = taken;
                return if over {
                    None
                } else {
                    Some(name)
                };
            }
        }
        assert(views(self.queue@).skip(taken as int).len() == 0);
        self.taken = taken;
        None
    }

    /// How many crates were looked at.
    pub fn visited_count(&self) -> (r: usize)
        ensures
            r == self@.visited.len(),
    {
        self.visited.len()
    }

    fn distance(&self, name: &str) -> (r: u32)
        ensures
            r == depth_of(self@, name@),
    {
        match self.depths.get(name) {
            Some(d) => d.value,
            None => 0,
        }
    }

    /// Adds the dependencies of a crate to those to be looked at.
    pub fn expand(&mut self, name: &str, deps: &Vec<CrateDep>, max_depth: u32)
        ensures
            final(self)@ == crawl_expanded(
                old(self)@,
                name@,
                crate_dep_views(deps@),
                max_depth,
            ),
    {
        let depth: u32 = self.distance(name);
        if depth >= max_depth {
            return;
        }
        let ghost s0 = self@;
        let ghost all = crate_dep_views(deps@);
        let mut i: usize = 0;
        while i < deps.len()
            invariant
                i <= deps.len(),
                depth < max_depth,
                all == crate_dep_views(deps@),
                self@ == crawl_added(s0, all, depth, i as nat),
            decreases deps.len() - i,
        {
            let dep: &CrateDep = &deps[i];
            assert(all[i as int] == dep@);
            if !same(&dep.kind, "dev") && !has_item(&self.visited, &dep.crate_id)
                && !self.depths.contains_key(&dep.crate_id) {
                proof {
                    use_type_invariant(&*self);
                }
                let ghost q = self.queue@;
                let mut queue: Vec<String> = Vec::new();
                let mut depths: TextMap<Depth> = TextMap::new();
                let taken: usize = self.taken;
                self.taken = 0;
                std::mem::swap(&mut queue, &mut self.queue);
                std::mem::swap(&mut depths, &mut self.depths);
                depths.insert(dep.crate_id.clone(), Depth { value: depth + 1 });
                queue.push(dep.crate_id.clone());
                proof {
                    assert(views(queue@) == views(q).push(dep.crate_id@)) by {
                        lemma_views_push(q, queue@.last());
                        assert(queue@ =~= q.push(queue@.last()));
                    }
                    assert(views(q).push(dep.crate_id@).skip(taken as int) =~= views(q).skip(
                        taken as int,
                    ).push(dep.crate_id@));
                }
                self.queue = queue;
                self.depths = depths;
                self.taken = taken;
            }
            i = i + 1;
        }
    }
}

/// Whether no crate was looked at twice.
pub open spec fn visited_once(s: CrawlState) -> bool {
    forall|i: int, j: int| 0 <= i < j < s.visited.len() ==> s.visited[i] != s.visited[j]
}

/// Whether no known crate is farther than the limit.
pub open spec fn within_depth(s: CrawlState, max_depth: u32) -> bool {
    forall|k: Seq<char>| s.depths.contains_key(k) ==> #[trigger] s.depths[k] <= max_depth
}

/// Taking the next crate keeps every crate looked at once, returns a crate that
/// was not looked at before, and returns none beyond the limit.
pub proof fn lemma_next_is_fresh(s: CrawlState, max_packages: usize)
    requires
        visited_once(s),
    ensures
        ({
            let (t, r) = crawl_next(s, max_packages);
            &&& visited_once(t)
            &&& t.depths == s.depths
            &&& match r {
                Some(name) => !s.visited.contains(name) && t.visited == s.visited.push(name)
                    && t.visited.len() <= max_packages,
                None => true,
            }
        }),
    decreases s.queue.len(),
{
    if s.queue.len() > 0 {
        let rest = CrawlState { queue: s.queue.skip(1), ..s };
        if s.visited.contains(s.queue[0]) {
            lemma_next_is_fresh(rest, max_packages);
        } else {
            let t = s.visited.push(s.queue[0]);
            assert forall|i: int, j: int| 0 <= i < j < t.len() implies t[i] != t[j] by {
                if j == s.visited.len() {
                    assert(s.visited.contains(s.visited[i]));
                }
            }
        }
    }
}

/// A walk never goes farther from its seeds than the limit.
pub proof fn lemma_depth_is_bounded(
    s: CrawlState,
    name: Seq<char>,
    deps: Seq<CrateNeed>,
    max_depth: u32,
)
    requires
        within_depth(s, max_depth),
    ensures
        within_depth(crawl_expanded(s, name, deps, max_depth), max_depth),
        crawl_expanded(s, name, deps, max_depth).visited == s.visited,
{
    if depth_of(s, name) < max_depth {
        lemma_added_depth(s, deps, depth_of(s, name), deps.len(), max_depth);
    }
}

proof fn lemma_added_depth(
    s: CrawlState,
    deps: Seq<CrateNeed>,
    depth: u32,
    n: nat,
    max_depth: u32,
)
    requires
        within_depth(s, max_depth),
        depth < max_depth,
    ensures
        within_depth(crawl_added(s, deps, depth, n), max_depth),
        crawl_added(s, deps, depth, n).visited == s.visited,
    decreases n,
{
    if n > 0 {
        lemma_added_depth(s, deps, depth, (n - 1) as nat, max_depth);
    }
}

// ---------------------------------------------------------------------------
// What a walk reaches

/// Whether a walk has heard of a crate.
pub open spec fn is_known(s: CrawlState, name: Seq<char>) -> bool {
    s.visited.contains(name) || s.depths.contains_key(name)
}

proof fn lemma_added(s: CrawlState, deps: Seq<CrateNeed>, depth: u32, n: nat)
    requires
        n <= deps.len(),
        depth < u32::MAX,
    ensures
        ({
            let t = crawl_added(s, deps, depth, n);
            &&& t.visited == s.visited
            &&& s.queue.len() <= t.queue.len() && t.queue.take(s.queue.len() as int) == s.queue
            &&& forall|x: Seq<char>| #[trigger]
                s.depths.contains_key(x) ==> t.depths.contains_key(x) && t.depths[x]
                    == s.depths[x]
            &&& forall|i: int|
                0 <= i < n && (#[trigger] deps[i]).kind != "dev"@ ==> {
                    &&& is_known(t, deps[i].crate_id)
                    &&& !is_known(s, deps[i].crate_id) ==> {
                        &&& t.queue.contains(deps[i].crate_id)
                        &&& t.depths.contains_key(deps[i].crate_id)
                        &&& t.depths[deps[i].crate_id] == depth + 1
                    }
                }
            &&& forall|j: int|
                s.queue.len() <= j < t.queue.len() ==> {
                    &&& !is_known(s, #[trigger] t.queue[j])
                    &&& t.depths.contains_key(t.queue[j])
                    &&& t.depths[t.queue[j]] == depth + 1
                    &&& exists|i: int|
                        0 <= i < n && (#[trigger] deps[i]).kind != "dev"@ && deps[i].crate_id
                            == t.queue[j]
                }
            &&& forall|x: Seq<char>| #[trigger]
                t.depths.contains_key(x) ==> s.depths.contains_key(x) || exists|j: int|
                    s.queue.len() <= j < t.queue.len() && #[trigger] t.queue[j] == x
        }),
    decreases n,
{
    if n > 0 {
        let m: nat = (n - 1) as nat;
        lemma_added(s, deps, depth, m);
        let u = crawl_added(s, deps, depth, m);
        let t = crawl_added(s, deps, depth, n);
        let id = deps[n - 1].crate_id;
        if is_new(u, deps[n - 1]) {
            assert(t.queue == u.queue.push(id));
            assert(t.queue[u.queue.len() as int] == id);
            assert forall|i: int| 0 <= i < n && (#[trigger] deps[i]).kind != "dev"@ implies {
                &&& is_known(t, deps[i].crate_id)
                &&& !is_known(s, deps[i].crate_id) ==> {
                    &&& t.queue.contains(deps[i].crate_id)
                    &&& t.depths.contains_key(deps[i].crate_id)
                    &&& t.depths[deps[i].crate_id] == depth + 1
                }
            } by {
                if i < m && !is_known(s, deps[i].crate_id) {
                    let j: int = u.queue.index_of(deps[i].crate_id);
                    assert(t.queue[j] == deps[i].crate_id);
                }
            }
            assert forall|x: Seq<char>| #[trigger]
                t.depths.contains_key(x) implies s.depths.contains_key(x) || exists|j: int|
                s.queue.len() <= j < t.queue.len() && #[trigger] t.queue[j] == x by {
                if x != id && !s.depths.contains_key(x) {
                    let j: int = choose|j: int|
                        s.queue.len() <= j < u.queue.len() && #[trigger] u.queue[j] == x;
                    assert(t.queue[j] == x);
                }
            }
            assert forall|j: int| s.queue.len() <= j < t.queue.len() implies {
                &&& !is_known(s, #[trigger] t.queue[j])
                &&& t.depths.contains_key(t.queue[j])
                &&& t.depths[t.queue[j]] == depth + 1
                &&& exists|i: int|
                    0 <= i < n && (#[trigger] deps[i]).kind != "dev"@ && deps[i].crate_id
                        == t.queue[j]
            } by {
                if j < u.queue.len() {
                    assert(t.queue[j] == u.queue[j]);
                } else {
                    assert(deps[m as int].crate_id == t.queue[j]);
                }
            }
        }
    }
}

/// What looking at a crate adds. Nearer than the limit, every dependency that is not for
/// development alone is known from then on, and one that was not known before waits at
/// one step more; nothing else is added. At the limit nothing is.
pub proof fn lemma_dependencies_are_followed(
    s: CrawlState,
    name: Seq<char>,
    deps: Seq<CrateNeed>,
    max_depth: u32,
)
    ensures
        ({
            let t = crawl_expanded(s, name, deps, max_depth);
            let depth = depth_of(s, name);
            &&& depth >= max_depth ==> t == s
            &&& forall|i: int|
                depth < max_depth && 0 <= i < deps.len() && (#[trigger] deps[i]).kind != "dev"@
                    ==> {
                    &&& is_known(t, deps[i].crate_id)
                    &&& !is_known(s, deps[i].crate_id) ==> {
                        &&& t.queue.contains(deps[i].crate_id)
                        &&& t.depths.contains_key(deps[i].crate_id)
                        &&& t.depths[deps[i].crate_id] == depth + 1
                    }
                }
            &&& t.queue.take(s.queue.len() as int) == s.queue
            &&& forall|j: int|
                s.queue.len() <= j < t.queue.len() ==> {
                    &&& !is_known(s, #[trigger] t.queue[j])
                    &&& exists|i: int|
                        0 <= i < deps.len() && (#[trigger] deps[i]).kind != "dev"@
                            && deps[i].crate_id == t.queue[j]
                }
        }),
{
    assert(s.queue.take(s.queue.len() as int) =~= s.queue);
    if depth_of(s, name) < max_depth {
        lemma_added(s, deps, depth_of(s, name), deps.len());
    }
}

/// Whether a crate needs another one, not for development alone.
pub open spec fn needs(
    replies: Map<Seq<char>, Seq<CrateNeed>>,
    name: Seq<char>,
    other: Seq<char>,
) -> bool {
    &&& replies.contains_key(name)
    &&& exists|i: int|
        0 <= i < replies[name].len() && (#[trigger] replies[name][i]).kind != "dev"@
            && replies[name][i].crate_id == other
}

/// A walk after one more crate: the next one is taken and, where its dependencies could be
/// fetched, they are added.
pub open spec fn crawl_step(
    s: CrawlState,
    replies: Map<Seq<char>, Seq<CrateNeed>>,
    max_packages: usize,
    max_depth: u32,
) -> CrawlState {
    let (t, r) = crawl_next(s, max_packages);
    match r {
        Some(name) => if replies.contains_key(name) {
            crawl_expanded(t, name, replies[name], max_depth)
        } else {
            t
        },
        None => t,
    }
}

/// A walk after `n` crates.
pub open spec fn crawled(
    seeds: Seq<Seq<char>>,
    replies: Map<Seq<char>, Seq<CrateNeed>>,
    max_packages: usize,
    max_depth: u32,
    n: nat,
) -> CrawlState
    decreases n,
{
    if n == 0 {
        crawl_start(seeds)
    } else {
        crawl_step(
            crawled(seeds, replies, max_packages, max_depth, (n - 1) as nat),
            replies,
            max_packages,
            max_depth,
        )
    }
}

/// Whether every known crate was looked at or waits, and those that wait do so nearest
/// first, at most one step apart and no nearer than any that was looked at.
spec fn waits_in_order(s: CrawlState) -> bool {
    &&& forall|x: Seq<char>| #[trigger]
        s.depths.contains_key(x) ==> s.visited.contains(x) || s.queue.contains(x)
    &&& forall|j: int| 0 <= j < s.visited.len() ==> s.depths.contains_key(#[trigger] s.visited[j])
    &&& forall|j: int| 0 <= j < s.queue.len() ==> s.depths.contains_key(#[trigger] s.queue[j])
    &&& forall|i: int, j: int|
        0 <= i <= j < s.queue.len() ==> s.depths[#[trigger] s.queue[i]]
            <= s.depths[#[trigger] s.queue[j]] <= s.depths[s.queue[i]] + 1
    &&& forall|i: int, j: int|
        0 <= i < s.visited.len() && 0 <= j < s.queue.len() ==> s.depths[#[trigger] s.visited[i]]
            <= s.depths[#[trigger] s.queue[j]]
}

/// Whether what the first `n` crates that were looked at need is known, and at most one
/// step farther.
spec fn followed(
    s: CrawlState,
    replies: Map<Seq<char>, Seq<CrateNeed>>,
    max_depth: u32,
    n: nat,
) -> bool {
    forall|i: int, y: Seq<char>|
        0 <= i < n && #[trigger] needs(replies, s.visited[i], y) && s.depths[s.visited[i]]
            < max_depth ==> s.depths.contains_key(y) && s.depths[y] <= s.depths[s.visited[i]] + 1
}

proof fn lemma_next_in_order(
    s: CrawlState,
    replies: Map<Seq<char>, Seq<CrateNeed>>,
    max_packages: usize,
    max_depth: u32,
)
    requires
        waits_in_order(s),
        followed(s, replies, max_depth, s.visited.len()),
    ensures
        ({
            let (t, r) = crawl_next(s, max_packages);
            &&& waits_in_order(t)
            &&& t.depths == s.depths
            &&& followed(t, replies, max_depth, s.visited.len())
            &&& match r {
                Some(name) => {
                    &&& t.visited == s.visited.push(name)
                    &&& forall|j: int|
                        0 <= j < t.queue.len() ==> t.depths[#[trigger] t.queue[j]]
                            <= t.depths[name] + 1
                    &&& forall|j: int|
                        0 <= j < t.visited.len() ==> t.depths[#[trigger] t.visited[j]]
                            <= t.depths[name]
                },
                None => {
                    ||| t.visited == s.visited && t.queue.len() == 0
                    ||| t.visited.len() > max_packages
                },
            }
        }),
    decreases s.queue.len(),
{
    if s.queue.len() > 0 {
        let name = s.queue[0];
        let rest = CrawlState { queue: s.queue.skip(1), ..s };
        assert forall|x: Seq<char>| s.queue.contains(x) && x != name implies rest.queue.contains(
            x,
        ) by {
            let j: int = s.queue.index_of(x);
            assert(rest.queue[j - 1] == x);
        }
        assert forall|j: int| 0 <= j < rest.queue.len() implies rest.queue[j] == s.queue[j + 1] by {}
        if s.visited.contains(name) {
            assert(waits_in_order(rest));
            lemma_next_in_order(rest, replies, max_packages, max_depth);
        } else {
            let now = CrawlState { visited: s.visited.push(name), ..rest };
            assert forall|x: Seq<char>| #[trigger] now.depths.contains_key(x) implies
                now.visited.contains(x) || now.queue.contains(x) by {
                if x == name {
                    assert(now.visited[s.visited.len() as int] == name);
                } else if s.visited.contains(x) {
                    let j: int = s.visited.index_of(x);
                    assert(now.visited[j] == x);
                }
            }
            assert(waits_in_order(now));
            assert(followed(now, replies, max_depth, s.visited.len())) by {
                assert forall|i: int, y: Seq<char>|
                    0 <= i < s.visited.len() && #[trigger] needs(
                        replies,
                        now.visited[i],
                        y,
                    ) && now.depths[now.visited[i]] < max_depth implies now.depths.contains_key(y)
                    && now.depths[y] <= now.depths[now.visited[i]] + 1 by {
                    assert(now.visited[i] == s.visited[i]);
                }
            }
        }
    }
}

proof fn lemma_step_in_order(
    s: CrawlState,
    replies: Map<Seq<char>, Seq<CrateNeed>>,
    max_packages: usize,
    max_depth: u32,
)
    requires
        waits_in_order(s),
        followed(s, replies, max_depth, s.visited.len()),
    ensures
        ({
            let t = crawl_step(s, replies, max_packages, max_depth);
            ||| t.visited.len() > max_packages
            ||| waits_in_order(t) && followed(t, replies, max_depth, t.visited.len())
        }),
{
    lemma_next_in_order(s, replies, max_packages, max_depth);
    let (u, r) = crawl_next(s, max_packages);
    if let Some(name) = r {
        let t = crawl_step(s, replies, max_packages, max_depth);
        assert(u.visited[s.visited.len() as int] == name);
        assert(u.depths.contains_key(name));
        if replies.contains_key(name) && u.depths[name] < max_depth {
            let deps = replies[name];
            let depth = u.depths[name];
            lemma_added(u, deps, depth, deps.len());
            assert(t == crawl_added(u, deps, depth, deps.len()));
            assert forall|j: int| 0 <= j < u.queue.len() implies t.queue[j] == u.queue[j] by {
                assert(t.queue.take(u.queue.len() as int)[j] == u.queue[j]);
            }
            assert forall|x: Seq<char>| u.queue.contains(x) implies t.queue.contains(x) by {
                let j: int = u.queue.index_of(x);
                assert(t.queue[j] == x);
            }
            assert(waits_in_order(t));
            assert forall|i: int, y: Seq<char>|
                0 <= i < t.visited.len() && #[trigger] needs(
                    replies,
                    t.visited[i],
                    y,
                ) && t.depths[t.visited[i]] < max_depth implies t.depths.contains_key(y)
                && t.depths[y] <= t.depths[t.visited[i]] + 1 by {
                if t.visited[i] == name {
                    let k: int = choose|k: int|
                        0 <= k < replies[name].len() && (#[trigger] replies[name][k]).kind
                            != "dev"@ && replies[name][k].crate_id == y;
                    assert(deps[k].crate_id == y);
                    assert(is_known(t, y));
                    if u.visited.contains(y) {
                        let j: int = u.visited.index_of(y);
                        assert(u.depths[u.visited[j]] <= u.depths[name]);
                    } else if u.depths.contains_key(y) {
                        assert(u.queue.contains(y));
                        let j: int = u.queue.index_of(y);
                        assert(u.depths[u.queue[j]] <= u.depths[name] + 1);
                    }
                } else {
                    assert(i < s.visited.len());
                    assert(needs(replies, u.visited[i], y));
                }
            }
        } else {
            assert(t == u);
            assert forall|i: int, y: Seq<char>|
                0 <= i < t.visited.len() && #[trigger] needs(
                    replies,
                    t.visited[i],
                    y,
                ) && t.depths[t.visited[i]] < max_depth implies t.depths.contains_key(y)
                && t.depths[y] <= t.depths[t.visited[i]] + 1 by {
                if i < s.visited.len() {
                    assert(needs(replies, u.visited[i], y));
                }
            }
        }
    }
}

proof fn lemma_seeds_known(seeds: Seq<Seq<char>>, n: nat)
    requires
        n <= seeds.len(),
    ensures
        forall|j: int| 0 <= j < n ==> seed_depths(seeds, n).contains_key(#[trigger] seeds[j]),
        forall|x: Seq<char>| #[trigger]
            seed_depths(seeds, n).contains_key(x) ==> seeds.contains(x) && seed_depths(seeds, n)[x]
                == 0,
    decreases n,
{
    if n > 0 {
        lemma_seeds_known(seeds, (n - 1) as nat);
        assert(seeds.contains(seeds[n - 1]));
        let before = seed_depths(seeds, (n - 1) as nat);
        assert forall|x: Seq<char>| #[trigger] seed_depths(seeds, n).contains_key(x) implies
            seeds.contains(x) && seed_depths(seeds, n)[x] == 0 by {
            assert(x == seeds[n - 1] || before.contains_key(x));
        }
    }
}

proof fn lemma_walk_in_order(
    seeds: Seq<Seq<char>>,
    replies: Map<Seq<char>, Seq<CrateNeed>>,
    max_packages: usize,
    max_depth: u32,
    n: nat,
)
    ensures
        ({
            let s = crawled(seeds, replies, max_packages, max_depth, n);
            ||| s.visited.len() > max_packages
            ||| {
                &&& waits_in_order(s)
                &&& followed(s, replies, max_depth, s.visited.len())
                &&& forall|j: int|
                    0 <= j < seeds.len() ==> s.depths.contains_key(#[trigger] seeds[j])
                        && s.depths[seeds[j]] == 0
            }
        }),
    decreases n,
{
    lemma_seeds_known(seeds, seeds.len());
    if n > 0 {
        lemma_walk_in_order(seeds, replies, max_packages, max_depth, (n - 1) as nat);
        let s = crawled(seeds, replies, max_packages, max_depth, (n - 1) as nat);
        let t = crawled(seeds, replies, max_packages, max_depth, n);
        lemma_visits_stay(s, replies, max_packages, max_depth);
        if s.visited.len() <= max_packages {
            lemma_step_in_order(s, replies, max_packages, max_depth);
            lemma_next_in_order(s, replies, max_packages, max_depth);
            let (u, r) = crawl_next(s, max_packages);
            if let Some(name) = r {
                if replies.contains_key(name) && depth_of(u, name) < max_depth {
                    let deps = replies[name];
                    lemma_added(u, deps, depth_of(u, name), deps.len());
                    assert forall|j: int| 0 <= j < seeds.len() implies t.depths.contains_key(
                        #[trigger] seeds[j],
                    ) && t.depths[seeds[j]] == 0 by {
                        assert(u.depths.contains_key(seeds[j]));
                    }
                }
            }
        }
    } else {
        let s = crawl_start(seeds);
        assert forall|x: Seq<char>| #[trigger] s.depths.contains_key(x) implies s.queue.contains(
            x,
        ) by {}
    }
}

/// A walk forgets no crate that it looked at.
pub proof fn lemma_visits_stay(
    s: CrawlState,
    replies: Map<Seq<char>, Seq<CrateNeed>>,
    max_packages: usize,
    max_depth: u32,
)
    ensures
        s.visited.len() <= crawl_step(s, replies, max_packages, max_depth).visited.len(),
    decreases s.queue.len(),
{
    if s.queue.len() > 0 {
        let rest = CrawlState { queue: s.queue.skip(1), ..s };
        if s.visited.contains(s.queue[0]) {
            lemma_visits_stay(rest, replies, max_packages, max_depth);
        } else {
            let (t, r) = crawl_next(s, max_packages);
            if let Some(name) = r {
                if replies.contains_key(name) && depth_of(t, name) < max_depth {
                    lemma_added(t, replies[name], depth_of(t, name), replies[name].len());
                }
            }
        }
    }
}

/// A walk that came to its end below the limit on crates has looked at every crate that
/// can be reached from a seed in at most `max_depth` steps, each from a crate to one that
/// it needs, not for development alone.
pub proof fn lemma_walk_reaches(
    seeds: Seq<Seq<char>>,
    replies: Map<Seq<char>, Seq<CrateNeed>>,
    max_packages: usize,
    max_depth: u32,
    n: nat,
    path: Seq<Seq<char>>,
    i: int,
)
    requires
        ({
            let (t, r) = crawl_next(
                crawled(seeds, replies, max_packages, max_depth, n),
                max_packages,
            );
            r is None && t.visited.len() <= max_packages
        }),
        0 <= i < path.len() <= max_depth + 1,
        seeds.contains(path[0]),
        forall|k: int| 0 <= k < path.len() - 1 ==> needs(replies, #[trigger] path[k], path[k + 1]),
    ensures
        crawled(seeds, replies, max_packages, max_depth, n).visited.contains(path[i]),
        crawled(seeds, replies, max_packages, max_depth, n).depths.contains_key(path[i]),
        crawled(seeds, replies, max_packages, max_depth, n).depths[path[i]] <= i,
    decreases i,
{
    let s = crawled(seeds, replies, max_packages, max_depth, n);
    let (t, r) = crawl_next(s, max_packages);
    lemma_walk_in_order(seeds, replies, max_packages, max_depth, n);
    lemma_visits_stay(s, replies, max_packages, max_depth);
    lemma_next_in_order(s, replies, max_packages, max_depth);
    if i > 0 {
        lemma_walk_reaches(seeds, replies, max_packages, max_depth, n, path, i - 1);
        let j: int = s.visited.index_of(path[i - 1]);
        assert(needs(replies, s.visited[j], path[i]));
    } else {
        let j: int = seeds.index_of(path[0]);
        assert(seeds[j] == path[0]);
    }
    assert(s.depths.contains_key(path[i]));
    assert(t.depths.contains_key(path[i]));
}

// ---------------------------------------------------------------------------
// Retries

/// What came of a request.
pub enum Reply {
    /// Too many requests, with the delay that the server asks for, in seconds.
    Limited { retry_after: Option<u64> },
    /// There is no such thing.
    Missing,
    /// A body of some kind.
    Body,
    /// The request did not get through.
    Broken,
}

/// What to do about it.
#[derive(Debug, Clone, Copy, PartialEq, Eq, Structural)]
pub enum RetryStep {
    /// Wait for some milliseconds, then go on to the next attempt.
    Wait { ms: u64 },
    /// Fail: there is no such thing.
    Missing,
    /// Use the body.
    Use,
    /// Fail with the error of the request.
    GiveUp,
}

/// Two to the power of an attempt.
pub open spec fn backoff(attempt: u32) -> u64
    decreases attempt,
{
    if attempt == 0 {
        1
    } else {
        (2 * backoff((attempt - 1) as u32)) as u64
    }
}

pub(crate) fn power(attempt: u32) -> (r: u64)
    requires
        attempt < MAX_ATTEMPTS,
    ensures
        r == backoff(attempt),
        r <= 16,
{
    proof {
        reveal_with_fuel(backoff, 6);
    }
    if attempt == 0 {
        1
    } else if attempt == 1 {
        2
    } else if attempt == 2 {
        4
    } else if attempt == 3 {
        8
    } else {
        16
    }
}

pub open spec fn retry_decision(attempt: u32, reply: Reply) -> RetryStep {
    match reply {
        Reply::Limited { retry_after } => RetryStep::Wait {
            ms: (1000 * match retry_after {
                Some(secs) => secs,
                None => backoff(attempt),
            }) as u64,
        },
        Reply::Missing => RetryStep::Missing,
        Reply::Body => RetryStep::Use,
        Reply::Broken => if attempt < MAX_ATTEMPTS - 1 {
            RetryStep::Wait { ms: (1000 * backoff(attempt)) as u64 }
        } else {
            RetryStep::GiveUp
        },
    }
}

/// The delay between crates after a reply: a limit doubles it, up to the longest.
pub open spec fn next_delay(delay_ms: u64, reply: Reply) -> u64 {
    if reply is Limited {
        if delay_ms * 2 < MAX_DELAY_MS {
            (delay_ms * 2) as u64
        } else {
            MAX_DELAY_MS
        }
    } else {
        delay_ms
    }
}

/// What to do after attempt number `attempt` of a request, and the delay between
/// crates from then on.
pub fn retry_step(attempt: u32, reply: &Reply, delay_ms: u64) -> (r: (RetryStep, u64))
    requires
        attempt < MAX_ATTEMPTS,
        delay_ms <= MAX_DELAY_MS,
        match *reply {
            Reply::Limited { retry_after: Some(secs) } => secs * 1000 <= u64::MAX,
            _ => true,
        },
    ensures
        r.0 == retry_decision(attempt, *reply),
        r.1 == next_delay(delay_ms, *reply),
        r.1 <= MAX_DELAY_MS,
{
    let wait: u64 = power(attempt);
    match reply {
        Reply::Limited { retry_after } => {
            let secs: u64 = match retry_after {
                Some(s) => *s,
                None => wait,
            };
            let delay: u64 = if delay_ms * 2 < MAX_DELAY_MS {
                delay_ms * 2
            } else {
                MAX_DELAY_MS
            };
            (RetryStep::Wait { ms: secs * 1000 }, delay)
        },
        Reply::Missing => (RetryStep::Missing, delay_ms),
        Reply::Body => (RetryStep::Use, delay_ms),
        Reply::Broken => if attempt < MAX_ATTEMPTS - 1 {
            (RetryStep::Wait { ms: 1000 * wait }, delay_ms)
        } else {
            (RetryStep::GiveUp, delay_ms)
        },
    }
}

// ---------------------------------------------------------------------------
// Requests

/// The version that the statements are about.
pub open spec fn stable_version(data: CrateText) -> Seq<char> {
    match data.max_stable_version {
        Some(v) => v,
        None => "0.0.0"@,
    }
}

fn stable_version_of(data: &CrateData) -> (r: String)
    ensures
        r@ == stable_version(data@),
{
    match &data.max_stable_version {
        Some(v) => v.clone(),
        None => "0.0.0".to_owned(),
    }
}

/// Where a crate is described.
pub fn crate_url(name: &str) -> (r: String)
    ensures
        r@ == "https://crates.io/api/v1/crates/"@ + name@,
{
    cat2("https://crates.io/api/v1/crates/", name)
}

/// The version whose dependencies are asked for: the newest stable one, the first
/// one where there is none.
pub open spec fn deps_version(reply: CrateReply) -> Seq<char> {
    match reply.crate_data.max_stable_version {
        Some(v) => v,
        None => if reply.versions.len() > 0 {
            reply.versions[0].num
        } else {
            "0.0.0"@
        },
    }
}

/// Where the dependencies of a crate are.
pub fn deps_url(name: &str, reply: &CratesResponse) -> (r: String)
    ensures
        r@ == "https://crates.io/api/v1/crates/"@ + name@ + "/"@ + deps_version(reply@)
            + "/dependencies"@,
{
    let version: String = match &reply.crate_data.max_stable_version {
        Some(v) => v.clone(),
        None => if reply.versions.len() > 0 {
            assert(reply@.versions[0] == reply.versions@[0]@);
            reply.versions[0].num.clone()
        } else {
            "0.0.0".to_owned()
        },
    };
    cat5("https://crates.io/api/v1/crates/", name, "/", &version, "/dependencies")
}

// ---------------------------------------------------------------------------
// Statements

/// The registry as a distribution, and its one release.
pub open spec fn with_distribution_metadata(w: Sheet, c: CargoCollector) -> Sheet {
    let dist = distro_iri("cargo"@);
    let rel = release_iri("cargo"@, "crates.io"@);
    let w = link(w, dist, RDF_TYPE@, pkg("Distribution"@));
    let w = literal(w, dist, pkg("projectName"@), "crates.io"@);
    let w = link(w, rel, RDF_TYPE@, pkg("DistributionRelease"@));
    let w = literal(w, rel, pkg("releaseCodename"@), "crates.io"@);
    link(w, rel, pkg("partOfDistribution"@), dist)
}

impl CargoCollector {
    /// The registry as a distribution, and its one release.
    pub fn emit_distribution_metadata(&self, writer: &mut NTriplesWriter) -> (r: usize)
        ensures
            final(writer)@ == with_distribution_metadata(old(writer)@, *self),
            r == final(writer)@.log.len() - old(writer)@.log.len(),
    {
        let start: usize = writer.len();
        let dist: String = distro_uri("cargo");
        let rel: String = release_uri("cargo", "crates.io");
        writer.write_triple(&dist, RDF_TYPE, &cat2(PKG, "Distribution"));
        writer.write_literal(&dist, &cat2(PKG, "projectName"), "crates.io");
        writer.write_triple(&rel, RDF_TYPE, &cat2(PKG, "DistributionRelease"));
        writer.write_literal(&rel, &cat2(PKG, "releaseCodename"), "crates.io");
        writer.write_triple(&rel, &cat2(PKG, "partOfDistribution"), &dist);
        writer.len() - start
    }
}

/// The kind of a dependency.
pub open spec fn dep_kind(kind: Seq<char>) -> Seq<char> {
    if kind == "dev"@ {
        "dev_depends"@
    } else if kind == "build"@ {
        "build_depends"@
    } else {
        "depends"@
    }
}

fn kind_of_dep(kind: &str) -> (r: String)
    ensures
        r@ == dep_kind(kind@),
{
    if same(kind, "dev") {
        "dev_depends".to_owned()
    } else if same(kind, "build") {
        "build_depends".to_owned()
    } else {
        "depends".to_owned()
    }
}

/// One dependency of a crate, as a link and as a node of its own.
pub open spec fn with_crate_dep(w: Sheet, package: Seq<char>, dep: CrateNeed) -> Sheet {
    let kind = dep_kind(dep.kind);
    let target = identity_iri("cargo"@, "crates.io"@, "any"@, dep.crate_id);
    let w = link(w, package, pkg("directlyDependsOn"@), target);
    let node = bnode_label(kind, package + "-"@ + dep.crate_id);
    let w = bnode_object(w, package, pkg("hasDependency"@), node);
    let w = bnode_subject(w, node, RDF_TYPE@, pkg("Dependency"@));
    let w = bnode_subject(w, node, pkg("dependencyTarget"@), target);
    let w = bnode_literal(w, node, pkg("dependencyType"@), kind);
    let w = if dep.req.len() > 0 {
        let limit = bnode_label("constraint"@, package + "-"@ + dep.crate_id);
        let w = bnode_object(w, node, pkg("hasVersionConstraint"@), limit);
        let w = bnode_subject(w, limit, RDF_TYPE@, pkg("VersionConstraint"@));
        let w = bnode_literal(w, limit, pkg("versionConstraintOperator"@), "semver"@);
        bnode_literal(w, limit, pkg("versionConstraintValue"@), dep.req)
    } else {
        w
    };
    w
}

/// The first `n` of `items`, in order.
pub open spec fn with_each_crate_dep(
    w: Sheet,
    package: Seq<char>,
    items: Seq<CrateNeed>,
    n: nat,
) -> Sheet
    decreases n,
{
    if n == 0 {
        w
    } else {
        with_crate_dep(
            with_each_crate_dep(w, package, items, (n - 1) as nat),
            package,
            items[n - 1],
        )
    }
}

/// One dependency of a crate, as a link and as a node of its own.
pub fn emit_crate_dep(writer: &mut NTriplesWriter, package: &str, dep: &CrateDep) -> (r: usize)
    ensures
        final(writer)@ == with_crate_dep(old(writer)@, package@, dep@),
        r == final(writer)@.log.len() - old(writer)@.log.len(),
{
    let start: usize = writer.len();
    let kind: String = kind_of_dep(&dep.kind);
    let target: String = package_identity_uri("cargo", "crates.io", "any", &dep.crate_id);
    writer.write_triple(package, &cat2(PKG, "directlyDependsOn"), &target);
    let node: String = bnode_id(&kind, &cat3(package, "-", &dep.crate_id));
    writer.write_bnode_object(package, &cat2(PKG, "hasDependency"), &node);
    writer.write_bnode_subject(&node, RDF_TYPE, &cat2(PKG, "Dependency"));
    writer.write_bnode_subject(&node, &cat2(PKG, "dependencyTarget"), &target);
    writer.write_bnode_literal(&node, &cat2(PKG, "dependencyType"), &kind);
    if !empty(&dep.req) {
        let limit: String = bnode_id("constraint", &cat3(package, "-", &dep.crate_id));
        writer.write_bnode_object(&node, &cat2(PKG, "hasVersionConstraint"), &limit);
        writer.write_bnode_subject(&limit, RDF_TYPE, &cat2(PKG, "VersionConstraint"));
        writer.write_bnode_literal(&limit, &cat2(PKG, "versionConstraintOperator"), "semver");
        writer.write_bnode_literal(&limit, &cat2(PKG, "versionConstraintValue"), &dep.req);
    }
    writer.len() - start
}

pub open spec fn with_feature(w: Sheet, package: Seq<char>, name: Seq<char>) -> Sheet {
    literal(w, package, CARGO@ + "featureName"@, name)
}

/// The first `n` of `items`, in order.
pub open spec fn with_each_feature(
    w: Sheet,
    package: Seq<char>,
    items: Seq<Seq<char>>,
    n: nat,
) -> Sheet
    decreases n,
{
    if n == 0 {
        w
    } else {
        with_feature(with_each_feature(w, package, items, (n - 1) as nat), package, items[n - 1])
    }
}

pub fn emit_feature(writer: &mut NTriplesWriter, package: &str, name: &str) -> (r: usize)
    ensures
        final(writer)@ == with_feature(old(writer)@, package@, name@),
        r == final(writer)@.log.len() - old(writer)@.log.len(),
{
    let start: usize = writer.len();
    writer.write_literal(package, &cat2(CARGO, "featureName"), name);
    writer.len() - start
}

/// What only one version of a crate has.
pub open spec fn with_crate_version(w: Sheet, package: Seq<char>, v: CrateRelease) -> Sheet {
    let w = literal_if(w, package, CARGO@ + "edition"@, v.edition);
    let w = literal_if(w, package, CARGO@ + "msrv"@, v.rust_version);
    with_each_feature(w, package, v.features, v.features.len())
}

/// What only one version of a crate has.
pub fn emit_crate_version(
    writer: &mut NTriplesWriter,
    package: &str,
    v: &CrateVersion,
) -> (r: usize)
    ensures
        final(writer)@ == with_crate_version(old(writer)@, package@, v@),
        r == final(writer)@.log.len() - old(writer)@.log.len(),
{
    let start: usize = writer.len();
    writer.write_literal_if(package, &cat2(CARGO, "edition"), &v.edition);
    writer.write_literal_if(package, &cat2(CARGO, "msrv"), &v.rust_version);
    let ghost before_feature = writer@;
    let mut i: usize = 0;
    while i < v.features.len()
        invariant
            i <= v.features.len(),
            before_feature.log.len() <= writer@.log.len(),
            writer@ == with_each_feature(before_feature, package@, views(v.features@), i as nat),
        decreases v.features.len() - i,
    {
        emit_feature(writer, package, &v.features[i]);
        i = i + 1;
    }
    writer.len() - start
}

/// The first version with a number, from `i` on.
pub open spec fn version_at(
    versions: Seq<CrateRelease>,
    num: Seq<char>,
    i: int,
) -> Option<CrateRelease>
    decreases versions.len() - i,
{
    if i < 0 || i >= versions.len() {
        None
    } else if versions[i].num == num {
        Some(versions[i])
    } else {
        version_at(versions, num, i + 1)
    }
}

fn find_version(versions: &Vec<CrateVersion>, num: &str) -> (r: Option<usize>)
    ensures
        match r {
            Some(k) => k < versions@.len() && version_at(
                crate_version_views(versions@),
                num@,
                0,
            ) == Some(versions@[k as int]@),
            None => version_at(crate_version_views(versions@), num@, 0) is None,
        },
{
    let mut i: usize = 0;
    let ghost all = crate_version_views(versions@);
    while i < versions.len()
        invariant
            i <= versions.len(),
            all == crate_version_views(versions@),
            version_at(all, num@, 0) == version_at(all, num@, i as int),
        decreases versions.len() - i,
    {
        assert(all[i as int] == versions@[i as int]@);
        if same(&versions[i].num, num) {
            return Some(i);
        }
        i = i + 1;
    }
    None
}

/// What the listed version of a crate adds.
pub open spec fn with_listed_version(
    w: Sheet,
    package: Seq<char>,
    reply: CrateReply,
    version: Seq<char>,
) -> Sheet {
    match version_at(reply.versions, version, 0) {
        Some(v) => with_crate_version(w, package, v),
        None => w,
    }
}

fn emit_listed_version(
    writer: &mut NTriplesWriter,
    package: &str,
    reply: &CratesResponse,
    version: &str,
) -> (r: usize)
    ensures
        final(writer)@ == with_listed_version(old(writer)@, package@, reply@, version@),
        r == final(writer)@.log.len() - old(writer)@.log.len(),
{
    match find_version(&reply.versions, version) {
        Some(i) => emit_crate_version(writer, package, &reply.versions[i]),
        None => 0,
    }
}

pub open spec fn with_crate_deps(w: Sheet, package: Seq<char>, deps: Vec<CrateDep>) -> Sheet {
    with_each_crate_dep(w, package, crate_dep_views(deps@), crate_dep_views(deps@).len())
}

pub fn emit_crate_deps(
    writer: &mut NTriplesWriter,
    package: &str,
    deps: &Vec<CrateDep>,
) -> (r: usize)
    ensures
        final(writer)@ == with_crate_deps(old(writer)@, package@, *deps),
        r == final(writer)@.log.len() - old(writer)@.log.len(),
{
    let start: usize = writer.len();
    let ghost before_crate_dep = writer@;
    let mut i: usize = 0;
    while i < deps.len()
        invariant
            i <= deps.len(),
            before_crate_dep.log.len() <= writer@.log.len(),
            writer@ == with_each_crate_dep(
                before_crate_dep,
                package@,
                crate_dep_views(deps@),
                i as nat,
            ),
        decreases deps.len() - i,
    {
        emit_crate_dep(writer, package, &deps[i]);
        i = i + 1;
    }
    writer.len() - start
}

/// Everything that a crate gives, with the dependencies of its version.
pub open spec fn with_crate_triples(
    w: Sheet,
    c: CargoCollector,
    reply: CrateReply,
    deps: Vec<CrateDep>,
) -> Sheet {
    let version = stable_version(reply.crate_data);
    let package = package_iri("cargo"@, "crates.io"@, "any"@, reply.crate_data.name, version);
    let identity = identity_iri("cargo"@, "crates.io"@, "any"@, reply.crate_data.name);
    let w = link(w, package, RDF_TYPE@, pkg("Package"@));
    let w = link(w, package, RDF_TYPE@, CARGO@ + "Crate"@);
    let w = link(w, identity, RDF_TYPE@, pkg("PackageIdentity"@));
    let w = literal(w, identity, pkg("packageName"@), reply.crate_data.name);
    let w = link(w, package, pkg("isVersionOf"@), identity);
    let w = literal(w, package, pkg("packageName"@), reply.crate_data.name);
    let ver = version_iri("cargo"@, "crates.io"@, reply.crate_data.name, version);
    let w = link(w, ver, RDF_TYPE@, pkg("Version"@));
    let w = literal(w, ver, pkg("versionString"@), version);
    let w = link(w, package, pkg("hasVersion"@), ver);
    let dist = distro_iri("cargo"@);
    let w = link(w, package, pkg("partOfDistribution"@), dist);
    let w = literal_if(w, package, pkg("description"@), reply.crate_data.description);
    let w = literal_if(w, package, pkg("homepage"@), reply.crate_data.homepage);
    let w = literal_if(w, package, pkg("projectUrl"@), reply.crate_data.repository);
    let w = literal_if(w, package, pkg("licenseName"@), reply.crate_data.license);
    let w = number_if(w, package, CARGO@ + "downloads"@, reply.crate_data.downloads);
    let w = with_listed_version(w, package, reply, version);
    with_crate_deps(w, package, deps)
}

impl CargoCollector {
    /// Everything that a crate gives, with the dependencies of its version.
    pub fn emit_crate_triples(
        &self,
        writer: &mut NTriplesWriter,
        reply: &CratesResponse,
        deps: &Vec<CrateDep>,
    ) -> (r: usize)
        ensures
            final(writer)@ == with_crate_triples(old(writer)@, *self, reply@, *deps),
            r == final(writer)@.log.len() - old(writer)@.log.len(),
            r >= 1,
    {
        let start: usize = writer.len();
        let version: String = stable_version_of(&reply.crate_data);
        let package: String = package_uri(
            "cargo",
            "crates.io",
            "any",
            &reply.crate_data.name,
            &version,
        );
        let identity: String = package_identity_uri(
            "cargo",
            "crates.io",
            "any",
            &reply.crate_data.name,
        );
        writer.write_triple(&package, RDF_TYPE, &cat2(PKG, "Package"));
        writer.write_triple(&package, RDF_TYPE, &cat2(CARGO, "Crate"));
        writer.write_triple(&identity, RDF_TYPE, &cat2(PKG, "PackageIdentity"));
        writer.write_literal(&identity, &cat2(PKG, "packageName"), &reply.crate_data.name);
        writer.write_triple(&package, &cat2(PKG, "isVersionOf"), &identity);
        writer.write_literal(&package, &cat2(PKG, "packageName"), &reply.crate_data.name);
        let ver: String = version_uri("cargo", "crates.io", &reply.crate_data.name, &version);
        writer.write_triple(&ver, RDF_TYPE, &cat2(PKG, "Version"));
        writer.write_literal(&ver, &cat2(PKG, "versionString"), &version);
        writer.write_triple(&package, &cat2(PKG, "hasVersion"), &ver);
        let dist: String = distro_uri("cargo");
        writer.write_triple(&package, &cat2(PKG, "partOfDistribution"), &dist);
        writer.write_literal_if(&package, &cat2(PKG, "description"), &reply.crate_data.description);
        writer.write_literal_if(&package, &cat2(PKG, "homepage"), &reply.crate_data.homepage);
        writer.write_literal_if(&package, &cat2(PKG, "projectUrl"), &reply.crate_data.repository);
        writer.write_literal_if(&package, &cat2(PKG, "licenseName"), &reply.crate_data.license);
        writer.write_integer_if(&package, &cat2(CARGO, "downloads"), reply.crate_data.downloads);
        emit_listed_version(writer, &package, reply, &version);
        emit_crate_deps(writer, &package, deps);
        writer.len() - start
    }
}

impl CargoCollector {
    pub fn new() -> (r: Self)
        ensures
            r == (CargoCollector {}),
    {
        CargoCollector {  }
    }

    /// Goes on with a walk after a name of [`Crawl::next`] was asked for: emits the
    /// crate that came with its dependencies, where one came, and puts what it needs
    /// into the queue. Returns how many crates and how many statements that gives.
    pub fn collect(
        &self,
        writer: &mut NTriplesWriter,
        crawl: &mut Crawl,
        name: &str,
        reply: &Option<(CratesResponse, Vec<CrateDep>)>,
        max_depth: u32,
    ) -> (r: (usize, usize))
        ensures
            match *reply {
                Some(found) => {
                    &&& final(writer)@ == with_crate_triples(
                        old(writer)@,
                        *self,
                        found.0@,
                        found.1,
                    )
                    &&& final(crawl)@ == crawl_expanded(
                        old(crawl)@,
                        name@,
                        crate_dep_views(found.1@),
                        max_depth,
                    )
                    &&& r.0 == 1
                },
                None => final(writer)@ == old(writer)@ && final(crawl)@ == old(crawl)@ && r.0 == 0,
            },
            r.1 == final(writer)@.log.len() - old(writer)@.log.len(),
    {
        match reply {
            Some(found) => {
                let triples: usize = self.emit_crate_triples(writer, &found.0, &found.1);
                crawl.expand(name, &found.1, max_depth);
                (1, triples)
            },
            None => (0, 0),
        }
    }
}

} // verus!
