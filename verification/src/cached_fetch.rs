//! Fetching through a cache: conditional requests, validation of bodies, caching of
//! what is missing, and old bodies where the network fails.
//!
//! A fetch is a state that asks for one thing at a time: an entry of the cache, a
//! verdict on a body, or a reply from the network. [`CachedFetcher::fetch`] takes
//! the state and the answer, and gives the next state and what to do to the cache.

use crate::text::opt;
use vstd::prelude::*;

verus! {

// ---------------------------------------------------------------------------
// Errors, responses and entries

/// Why a fetch failed.
#[derive(Debug)]
pub enum FetchError {
    /// There was no response.
    Transport { url: String, detail: String },
    HttpStatus { url: String, status: u16 },
    NotFound { url: String },
    /// The body of a response is not valid.
    InvalidResponse { url: String, detail: String },
    /// The cache holds a response that it should not hold.
    UnexpectedCachedStatus { url: String, status: u16 },
    Parse { url: String, detail: String },
}

/// What a [`FetchError`] says.
#[verifier::ext_equal]
pub enum Fault {
    Transport { url: Seq<char>, detail: Seq<char> },
    HttpStatus { url: Seq<char>, status: u16 },
    NotFound { url: Seq<char> },
    InvalidResponse { url: Seq<char>, detail: Seq<char> },
    UnexpectedCachedStatus { url: Seq<char>, status: u16 },
    Parse { url: Seq<char>, detail: Seq<char> },
}

impl View for FetchError {
    type V = Fault;

    open spec fn view(&self) -> Fault {
        match *self {
            FetchError::Transport { url, detail } => Fault::Transport {
                url: url@,
                detail: detail@,
            },
            FetchError::HttpStatus { url, status } => Fault::HttpStatus { url: url@, status },
            FetchError::NotFound { url } => Fault::NotFound { url: url@ },
            FetchError::InvalidResponse { url, detail } => Fault::InvalidResponse {
                url: url@,
                detail: detail@,
            },
            FetchError::UnexpectedCachedStatus { url, status } => Fault::UnexpectedCachedStatus {
                url: url@,
                status,
            },
            FetchError::Parse { url, detail } => Fault::Parse { url: url@, detail: detail@ },
        }
    }
}

/// A response from the network.
#[derive(Debug)]
pub struct HttpResponse {
    pub status: u16,
    pub bytes: Vec<u8>,
    pub etag: Option<String>,
}

/// What an [`HttpResponse`] says.
#[verifier::ext_equal]
pub struct Response {
    pub status: u16,
    pub bytes: Seq<u8>,
    pub etag: Option<Seq<char>>,
}

impl View for HttpResponse {
    type V = Response;

    open spec fn view(&self) -> Response {
        Response { status: self.status, bytes: self.bytes@, etag: opt(self.etag) }
    }
}

/// A response that the cache holds.
#[derive(Debug)]
pub struct CacheEntry {
    pub status_code: u16,
    pub body: Vec<u8>,
    pub etag: Option<String>,
}

/// What a [`CacheEntry`] says.
#[verifier::ext_equal]
pub struct Entry {
    pub status_code: u16,
    pub body: Seq<u8>,
    pub etag: Option<Seq<char>>,
}

impl View for CacheEntry {
    type V = Entry;

    open spec fn view(&self) -> Entry {
        Entry { status_code: self.status_code, body: self.body@, etag: opt(self.etag) }
    }
}

pub open spec fn entry_view(e: Option<CacheEntry>) -> Option<Entry> {
    match e {
        Some(x) => Some(x@),
        None => None,
    }
}

/// The outcome of a fetch.
#[derive(Debug)]
pub struct FetchOutcome {
    /// Whether the network was asked, whatever came of it.
    pub was_network_hit: bool,
    /// The body, or why there is none.
    pub result: Result<Vec<u8>, FetchError>,
}

/// What a [`FetchOutcome`] says.
#[verifier::ext_equal]
pub struct Outcome {
    pub was_network_hit: bool,
    pub result: Result<Seq<u8>, Fault>,
}

impl View for FetchOutcome {
    type V = Outcome;

    open spec fn view(&self) -> Outcome {
        Outcome {
            was_network_hit: self.was_network_hit,
            result: match self.result {
                Ok(b) => Ok(b@),
                Err(e) => Err(e@),
            },
        }
    }
}

// ---------------------------------------------------------------------------
// States, answers and effects

/// What a fetch waits for.
#[derive(Debug)]
pub enum FetchState {
    /// The entry that the cache holds, where it is fresh.
    AwaitFresh,
    /// A verdict on the body of a fresh entry.
    CheckFresh { body: Vec<u8> },
    /// The entry that the cache holds, however old.
    AwaitStale,
    /// A reply from the network.
    AwaitReply { stale: Option<CacheEntry> },
    /// A verdict on an old body that may stand in for a reply.
    CheckFallback { error: FetchError, body: Vec<u8> },
    /// A verdict on the body of a response.
    CheckReply { body: Vec<u8>, etag: Option<String> },
    /// A verdict on an old body that the network confirmed.
    CheckStale { body: Vec<u8>, etag: Option<String> },
    /// A reply to the request without conditions that follows a useless reply.
    AwaitRetry,
    Done { outcome: FetchOutcome },
}

/// What a [`FetchState`] says.
#[verifier::ext_equal]
pub enum Phase {
    AwaitFresh,
    CheckFresh { body: Seq<u8> },
    AwaitStale,
    AwaitReply { stale: Option<Entry> },
    CheckFallback { error: Fault, body: Seq<u8> },
    CheckReply { body: Seq<u8>, etag: Option<Seq<char>> },
    CheckStale { body: Seq<u8>, etag: Option<Seq<char>> },
    AwaitRetry,
    Done { outcome: Outcome },
}

impl View for FetchState {
    type V = Phase;

    open spec fn view(&self) -> Phase {
        match *self {
            FetchState::AwaitFresh => Phase::AwaitFresh,
            FetchState::CheckFresh { body } => Phase::CheckFresh { body: body@ },
            FetchState::AwaitStale => Phase::AwaitStale,
            FetchState::AwaitReply { stale } => Phase::AwaitReply { stale: entry_view(stale) },
            FetchState::CheckFallback { error, body } => Phase::CheckFallback {
                error: error@,
                body: body@,
            },
            FetchState::CheckReply { body, etag } => Phase::CheckReply {
                body: body@,
                etag: opt(etag),
            },
            FetchState::CheckStale { body, etag } => Phase::CheckStale {
                body: body@,
                etag: opt(etag),
            },
            FetchState::AwaitRetry => Phase::AwaitRetry,
            FetchState::Done { outcome } => Phase::Done { outcome: outcome@ },
        }
    }
}

/// An answer to what a fetch waits for.
#[derive(Debug)]
pub enum FetchEvent {
    Entry(Option<CacheEntry>),
    Verdict(Result<(), String>),
    Reply(Result<HttpResponse, FetchError>),
}

/// What a [`FetchEvent`] says.
#[verifier::ext_equal]
pub enum Answer {
    Entry(Option<Entry>),
    Verdict(Result<(), Seq<char>>),
    Reply(Result<Response, Fault>),
}

impl View for FetchEvent {
    type V = Answer;

    open spec fn view(&self) -> Answer {
        match *self {
            FetchEvent::Entry(e) => Answer::Entry(entry_view(e)),
            FetchEvent::Verdict(Ok(u)) => Answer::Verdict(Ok(u)),
            FetchEvent::Verdict(Err(d)) => Answer::Verdict(Err(d@)),
            FetchEvent::Reply(Ok(r)) => Answer::Reply(Ok(r@)),
            FetchEvent::Reply(Err(e)) => Answer::Reply(Err(e@)),
        }
    }
}

/// What to do to the cache.
#[derive(Debug)]
pub enum CacheEffect {
    Keep,
    Evict,
    /// Store a response for some seconds; without a number, for as long as the
    /// cache likes.
    Put { body: Vec<u8>, etag: Option<String>, status: u16, ttl: Option<u64> },
    /// Make the entry fresh again.
    Touch { etag: Option<String> },
}

/// What a [`CacheEffect`] says.
#[verifier::ext_equal]
pub enum Effect {
    Keep,
    Evict,
    Put { body: Seq<u8>, etag: Option<Seq<char>>, status: u16, ttl: Option<u64> },
    Touch { etag: Option<Seq<char>> },
}

impl View for CacheEffect {
    type V = Effect;

    open spec fn view(&self) -> Effect {
        match *self {
            CacheEffect::Keep => Effect::Keep,
            CacheEffect::Evict => Effect::Evict,
            CacheEffect::Put { body, etag, status, ttl } => Effect::Put {
                body: body@,
                etag: opt(etag),
                status,
                ttl,
            },
            CacheEffect::Touch { etag } => Effect::Touch { etag: opt(etag) },
        }
    }
}

/// The next state, and what to do to the cache first.
#[derive(Debug)]
pub struct FetchStep {
    pub effect: CacheEffect,
    pub state: FetchState,
}

pub open spec fn step_view(s: FetchStep) -> (Effect, Phase) {
    (s.effect@, s.state@)
}

/// What to ask for in a state.
#[derive(Debug)]
pub enum FetchRequest {
    ReadFresh,
    ReadStale,
    /// Have the body of [`FetchState::pending_body`] judged.
    Validate,
    /// Ask the network, under the condition that the response changed where there
    /// is a tag.
    Get { etag: Option<String> },
    /// Nothing: the fetch is over.
    Nothing,
}

// ---------------------------------------------------------------------------
// The machine

/// A fetcher over a cache.
#[derive(Debug)]
pub struct CachedFetcher {
    /// For how many seconds a missing page stays missing.
    pub negative_ttl: u64,
    /// Whether the network is always asked.
    pub refresh: bool,
}

pub open spec fn failed(hit: bool, error: Fault) -> Phase {
    Phase::Done { outcome: Outcome { was_network_hit: hit, result: Err(error) } }
}

pub open spec fn fetched(hit: bool, body: Seq<u8>) -> Phase {
    Phase::Done { outcome: Outcome { was_network_hit: hit, result: Ok(body) } }
}

/// A fetch begins with the fresh entry, unless the network is always asked.
pub open spec fn start(c: CachedFetcher) -> Phase {
    if c.refresh {
        Phase::AwaitStale
    } else {
        Phase::AwaitFresh
    }
}

/// After a fresh entry: one that says that the page is missing is believed, a body
/// is checked, and anything else is an error.
pub open spec fn after_fresh(url: Seq<char>, entry: Option<Entry>) -> (Effect, Phase) {
    match entry {
        None => (Effect::Keep, Phase::AwaitStale),
        Some(e) => if e.status_code == 404 {
            (Effect::Keep, failed(false, Fault::NotFound { url }))
        } else if e.status_code == 200 {
            (Effect::Keep, Phase::CheckFresh { body: e.body })
        } else {
            (
                Effect::Keep,
                failed(false, Fault::UnexpectedCachedStatus { url, status: e.status_code }),
            )
        },
    }
}

/// After a response to a request without conditions.
pub open spec fn after_plain_response(
    c: CachedFetcher,
    url: Seq<char>,
    response: Response,
) -> (Effect, Phase) {
    if response.status == 200 {
        (Effect::Keep, Phase::CheckReply { body: response.bytes, etag: response.etag })
    } else if response.status == 404 {
        (
            Effect::Put {
                body: Seq::empty(),
                etag: response.etag,
                status: 404,
                ttl: Some(c.negative_ttl),
            },
            failed(true, Fault::NotFound { url }),
        )
    } else {
        (Effect::Keep, failed(true, Fault::HttpStatus { url, status: response.status }))
    }
}

/// After a response: one that confirms an old entry makes it fresh again, one that
/// confirms nothing is asked for again without conditions.
pub open spec fn after_response(
    c: CachedFetcher,
    url: Seq<char>,
    response: Response,
    stale: Option<Entry>,
    was_conditional: bool,
) -> (Effect, Phase) {
    if response.status == 304 {
        match stale {
            Some(e) => if !was_conditional {
                (Effect::Keep, Phase::AwaitRetry)
            } else if e.status_code == 200 {
                (Effect::Keep, Phase::CheckStale { body: e.body, etag: response.etag })
            } else if e.status_code == 404 {
                (Effect::Touch { etag: response.etag }, failed(true, Fault::NotFound { url }))
            } else {
                (
                    Effect::Keep,
                    failed(true, Fault::UnexpectedCachedStatus { url, status: e.status_code }),
                )
            },
            None => (Effect::Keep, Phase::AwaitRetry),
        }
    } else {
        after_plain_response(c, url, response)
    }
}

/// After a failed request: an old body may stand in where there was no response.
pub open spec fn after_failure(error: Fault, stale: Option<Entry>) -> (Effect, Phase) {
    match stale {
        Some(e) => if error is Transport && e.status_code == 200 {
            (Effect::Keep, Phase::CheckFallback { error, body: e.body })
        } else {
            (Effect::Keep, failed(true, error))
        },
        None => (Effect::Keep, failed(true, error)),
    }
}

/// After a verdict on the body that a phase holds.
pub open spec fn after_verdict(
    url: Seq<char>,
    ttl: Option<u64>,
    phase: Phase,
    verdict: Result<(), Seq<char>>,
) -> (Effect, Phase) {
    match phase {
        Phase::CheckFresh { body } => match verdict {
            Ok(_) => (Effect::Keep, fetched(false, body)),
            Err(_) => (Effect::Evict, Phase::AwaitStale),
        },
        Phase::CheckReply { body, etag } => match verdict {
            Ok(_) => (Effect::Put { body, etag, status: 200, ttl }, fetched(true, body)),
            Err(detail) => (
                Effect::Keep,
                failed(true, Fault::InvalidResponse { url, detail }),
            ),
        },
        Phase::CheckStale { body, etag } => match verdict {
            Ok(_) => (Effect::Touch { etag }, fetched(true, body)),
            Err(_) => (Effect::Evict, Phase::AwaitRetry),
        },
        Phase::CheckFallback { error, body } => match verdict {
            Ok(_) => (Effect::Keep, fetched(true, body)),
            Err(_) => (Effect::Keep, failed(true, error)),
        },
        _ => (Effect::Keep, phase),
    }
}

pub open spec fn tag_of(stale: Option<Entry>) -> Option<Seq<char>> {
    match stale {
        Some(e) => e.etag,
        None => None,
    }
}

/// Whether an answer is one to what a phase waits for.
pub open spec fn answers(phase: Phase, answer: Answer) -> bool {
    match phase {
        Phase::AwaitFresh | Phase::AwaitStale => answer is Entry,
        Phase::AwaitReply { .. } | Phase::AwaitRetry => answer is Reply,
        Phase::Done { .. } => false,
        _ => answer is Verdict,
    }
}

/// The next phase, and what to do to the cache first. An answer to something else
/// changes nothing.
pub open spec fn advance(
    c: CachedFetcher,
    url: Seq<char>,
    ttl: Option<u64>,
    phase: Phase,
    answer: Answer,
) -> (Effect, Phase) {
    match (phase, answer) {
        (Phase::AwaitFresh, Answer::Entry(entry)) => after_fresh(url, entry),
        (Phase::AwaitStale, Answer::Entry(stale)) => (Effect::Keep, Phase::AwaitReply { stale }),
        (Phase::AwaitReply { stale }, Answer::Reply(Ok(response))) => after_response(
            c,
            url,
            response,
            stale,
            tag_of(stale) is Some,
        ),
        (Phase::AwaitReply { stale }, Answer::Reply(Err(error))) => after_failure(error, stale),
        (Phase::AwaitRetry, Answer::Reply(Ok(response))) => after_plain_response(
            c,
            url,
            response,
        ),
        (Phase::AwaitRetry, Answer::Reply(Err(error))) => (Effect::Keep, failed(true, error)),
        (_, Answer::Verdict(verdict)) => after_verdict(url, ttl, phase, verdict),
        _ => (Effect::Keep, phase),
    }
}

/// The body that waits for a verdict.
pub open spec fn body_to_check(phase: Phase) -> Option<Seq<u8>> {
    match phase {
        Phase::CheckFresh { body } => Some(body),
        Phase::CheckFallback { body, .. } => Some(body),
        Phase::CheckReply { body, .. } => Some(body),
        Phase::CheckStale { body, .. } => Some(body),
        _ => None,
    }
}

/// What to ask for in a phase, over views.
pub enum Query {
    ReadFresh,
    ReadStale,
    Validate,
    Get(Option<Seq<char>>),
    Nothing,
}

pub open spec fn query_of(phase: Phase) -> Query {
    match phase {
        Phase::AwaitFresh => Query::ReadFresh,
        Phase::AwaitStale => Query::ReadStale,
        Phase::AwaitReply { stale } => Query::Get(tag_of(stale)),
        Phase::AwaitRetry => Query::Get(None),
        Phase::Done { .. } => Query::Nothing,
        _ => Query::Validate,
    }
}

pub open spec fn request_view(r: FetchRequest) -> Query {
    match r {
        FetchRequest::ReadFresh => Query::ReadFresh,
        FetchRequest::ReadStale => Query::ReadStale,
        FetchRequest::Validate => Query::Validate,
        FetchRequest::Get { etag } => Query::Get(opt(etag)),
        FetchRequest::Nothing => Query::Nothing,
    }
}

/// A read of the cache that fails counts as one that finds nothing.
pub fn entry_or_miss(read: Result<Option<CacheEntry>, String>) -> (r: Option<CacheEntry>)
    ensures
        match read {
            Ok(entry) => r == entry,
            Err(_) => r is None,
        },
{
    match read {
        Ok(entry) => entry,
        Err(_) => None,
    }
}

impl FetchState {
    /// The body that waits for a verdict.
    pub fn pending_body(&self) -> (r: Option<&Vec<u8>>)
        ensures
            match r {
                Some(b) => body_to_check(self@) == Some(b@),
                None => body_to_check(self@) is None,
            },
    {
        match self {
            FetchState::CheckFresh { body } => Some(body),
            FetchState::CheckFallback { error: _, body } => Some(body),
            FetchState::CheckReply { body, etag: _ } => Some(body),
            FetchState::CheckStale { body, etag: _ } => Some(body),
            _ => None,
        }
    }

    /// What to ask for.
    pub fn request(&self) -> (r: FetchRequest)
        ensures
            request_view(r) == query_of(self@),
    {
        match self {
            FetchState::AwaitFresh => FetchRequest::ReadFresh,
            FetchState::AwaitStale => FetchRequest::ReadStale,
            FetchState::AwaitReply { stale } => {
                let etag: Option<String> = match stale {
                    Some(e) => e.etag.clone(),
                    None => None,
                };
                FetchRequest::Get { etag }
            },
            FetchState::AwaitRetry => FetchRequest::Get { etag: None },
            FetchState::Done { outcome: _ } => FetchRequest::Nothing,
            _ => FetchRequest::Validate,
        }
    }
}

fn failing(effect: CacheEffect, hit: bool, error: FetchError) -> (r: FetchStep)
    ensures
        step_view(r) == (effect@, failed(hit, error@)),
{
    FetchStep {
        effect,
        state: FetchState::Done {
            outcome: FetchOutcome { was_network_hit: hit, result: Err(error) },
        },
    }
}

fn fetching(effect: CacheEffect, hit: bool, body: Vec<u8>) -> (r: FetchStep)
    ensures
        step_view(r) == (effect@, fetched(hit, body@)),
{
    FetchStep {
        effect,
        state: FetchState::Done {
            outcome: FetchOutcome { was_network_hit: hit, result: Ok(body) },
        },
    }
}

fn going_on(state: FetchState) -> (r: FetchStep)
    ensures
        step_view(r) == (Effect::Keep, state@),
{
    FetchStep { effect: CacheEffect::Keep, state }
}

fn copied_bytes(v: &Vec<u8>) -> (r: Vec<u8>)
    ensures
        r@ == v@,
{
    let mut out: Vec<u8> = Vec::new();
    let mut i: usize = 0;
    while i < v.len()
        invariant
            i <= v.len(),
            out@ == v@.take(i as int),
        decreases v.len() - i,
    {
        out.push(v[i]);
        assert(v@.take(i + 1) =~= v@.take(i as int).push(v@[i as int]));
        i = i + 1;
    }
    assert(v@.take(v@.len() as int) =~= v@);
    out
}

impl CachedFetcher {
    pub fn new(negative_ttl: u64, refresh: bool) -> (r: Self)
        ensures
            r.negative_ttl == negative_ttl,
            r.refresh == refresh,
    {
        CachedFetcher { negative_ttl, refresh }
    }

    /// The state in which a fetch begins.
    pub fn begin(&self) -> (r: FetchState)
        ensures
            r@ == start(*self),
    {
        if self.refresh {
            FetchState::AwaitStale
        } else {
            FetchState::AwaitFresh
        }
    }

    fn handle_fresh(&self, url: &str, entry: Option<CacheEntry>) -> (r: FetchStep)
        ensures
            step_view(r) == after_fresh(url@, entry_view(entry)),
    {
        match entry {
            None => going_on(FetchState::AwaitStale),
            Some(e) => if e.status_code == 404 {
                failing(CacheEffect::Keep, false, FetchError::NotFound { url: url.to_owned() })
            } else if e.status_code == 200 {
                going_on(FetchState::CheckFresh { body: e.body })
            } else {
                failing(
                    CacheEffect::Keep,
                    false,
                    FetchError::UnexpectedCachedStatus {
                        url: url.to_owned(),
                        status: e.status_code,
                    },
                )
            },
        }
    }

    /// Takes a response to a request without conditions.
    pub fn handle_unconditional_response(&self, url: &str, response: HttpResponse) -> (r:
        FetchStep)
        ensures
            step_view(r) == after_plain_response(*self, url@, response@),
    {
        if response.status == 200 {
            going_on(FetchState::CheckReply { body: response.bytes, etag: response.etag })
        } else if response.status == 404 {
            let body: Vec<u8> = Vec::new();
            assert(body@ =~= Seq::<u8>::empty());
            failing(
                CacheEffect::Put {
                    body,
                    etag: response.etag,
                    status: 404,
                    ttl: Some(self.negative_ttl),
                },
                true,
                FetchError::NotFound { url: url.to_owned() },
            )
        } else {
            failing(
                CacheEffect::Keep,
                true,
                FetchError::HttpStatus { url: url.to_owned(), status: response.status },
            )
        }
    }

    /// Takes a response to a request that may have had a condition.
    pub fn handle_response(
        &self,
        url: &str,
        response: HttpResponse,
        stale: Option<CacheEntry>,
        was_conditional: bool,
    ) -> (r: FetchStep)
        ensures
            step_view(r) == after_response(
                *self,
                url@,
                response@,
                entry_view(stale),
                was_conditional,
            ),
    {
        if response.status != 304 {
            return self.handle_unconditional_response(url, response);
        }
        match stale {
            Some(e) => if !was_conditional {
                going_on(FetchState::AwaitRetry)
            } else if e.status_code == 200 {
                going_on(FetchState::CheckStale { body: e.body, etag: response.etag })
            } else if e.status_code == 404 {
                failing(
                    CacheEffect::Touch { etag: response.etag },
                    true,
                    FetchError::NotFound { url: url.to_owned() },
                )
            } else {
                failing(
                    CacheEffect::Keep,
                    true,
                    FetchError::UnexpectedCachedStatus {
                        url: url.to_owned(),
                        status: e.status_code,
                    },
                )
            },
            None => going_on(FetchState::AwaitRetry),
        }
    }

    fn handle_failure(&self, error: FetchError, stale: Option<CacheEntry>) -> (r: FetchStep)
        ensures
            step_view(r) == after_failure(error@, entry_view(stale)),
    {
        let lost: bool = matches!(error, FetchError::Transport { .. });
        match stale {
            Some(e) => if lost && e.status_code == 200 {
                going_on(FetchState::CheckFallback { error, body: e.body })
            } else {
                failing(CacheEffect::Keep, true, error)
            },
            None => failing(CacheEffect::Keep, true, error),
        }
    }

    fn handle_verdict(
        &self,
        url: &str,
        ttl: Option<u64>,
        state: FetchState,
        verdict: Result<(), String>,
    ) -> (r: FetchStep)
        ensures
            step_view(r) == after_verdict(
                url@,
                ttl,
                state@,
                match verdict {
                    Ok(u) => Ok(u),
                    Err(d) => Err(d@),
                },
            ),
    {
        match state {
            FetchState::CheckFresh { body } => match verdict {
                Ok(_) => fetching(CacheEffect::Keep, false, body),
                Err(_) => FetchStep {
                    effect: CacheEffect::Evict,
                    state: FetchState::AwaitStale,
                },
            },
            FetchState::CheckReply { body, etag } => match verdict {
                Ok(_) => {
                    let stored: Vec<u8> = copied_bytes(&body);
                    fetching(CacheEffect::Put { body: stored, etag, status: 200, ttl }, true, body)
                },
                Err(detail) => failing(
                    CacheEffect::Keep,
                    true,
                    FetchError::InvalidResponse { url: url.to_owned(), detail },
                ),
            },
            FetchState::CheckStale { body, etag } => match verdict {
                Ok(_) => fetching(CacheEffect::Touch { etag }, true, body),
                Err(_) => FetchStep {
                    effect: CacheEffect::Evict,
                    state: FetchState::AwaitRetry,
                },
            },
            FetchState::CheckFallback { error, body } => match verdict {
                Ok(_) => fetching(CacheEffect::Keep, true, body),
                Err(_) => failing(CacheEffect::Keep, true, error),
            },
            other => going_on(other),
        }
    }

    /// Takes the answer to what a fetch waits for: the next state, and what to do
    /// to the cache first. `ttl` is for how many seconds a valid body is stored.
    pub fn fetch(
        &self,
        url: &str,
        ttl: Option<u64>,
        state: FetchState,
        event: FetchEvent,
    ) -> (r: FetchStep)
        ensures
            step_view(r) == advance(*self, url@, ttl, state@, event@),
    {
        match event {
            FetchEvent::Verdict(verdict) => self.handle_verdict(url, ttl, state, verdict),
            FetchEvent::Entry(entry) => match state {
                FetchState::AwaitFresh => self.handle_fresh(url, entry),
                FetchState::AwaitStale => going_on(FetchState::AwaitReply { stale: entry }),
                other => going_on(other),
            },
            FetchEvent::Reply(reply) => match state {
                FetchState::AwaitReply { stale } => match reply {
                    Ok(response) => {
                        let was_conditional: bool = match &stale {
                            Some(e) => e.etag.is_some(),
                            None => false,
                        };
                        self.handle_response(url, response, stale, was_conditional)
                    },
                    Err(error) => self.handle_failure(error, stale),
                },
                FetchState::AwaitRetry => match reply {
                    Ok(response) => self.handle_unconditional_response(url, response),
                    Err(error) => failing(CacheEffect::Keep, true, error),
                },
                other => going_on(other),
            },
        }
    }
}

// ---------------------------------------------------------------------------
// Laws

/// Whether an answer says that a body is valid.
pub open spec fn is_approval(answer: Answer) -> bool {
    answer is Verdict && answer->Verdict_0 is Ok
}

/// Only valid bodies and missing pages are stored: a body that was judged valid, as
/// it came, under the time that was asked for; and the page as missing, without a
/// body, under the time for missing pages.
pub proof fn lemma_what_is_stored(
    c: CachedFetcher,
    url: Seq<char>,
    ttl: Option<u64>,
    phase: Phase,
    answer: Answer,
)
    ensures
        match advance(c, url, ttl, phase, answer).0 {
            Effect::Put { body, etag, status, ttl: time } => {
                ||| status == 200 && time == ttl && phase == (Phase::CheckReply { body, etag })
                    && is_approval(answer)
                ||| status == 404 && time == Some(c.negative_ttl) && body.len() == 0
                    && answer is Reply
            },
            _ => true,
        },
{
}

/// How many more answers a phase can ask for.
pub open spec fn answers_left(phase: Phase) -> nat {
    match phase {
        Phase::AwaitFresh => 6,
        Phase::CheckFresh { .. } => 5,
        Phase::AwaitStale => 4,
        Phase::AwaitReply { .. } => 3,
        Phase::CheckStale { .. } => 3,
        Phase::AwaitRetry => 2,
        Phase::CheckReply { .. } => 1,
        Phase::CheckFallback { .. } => 1,
        Phase::Done { .. } => 0,
    }
}

/// How many more requests to the network a phase can make.
pub open spec fn requests_left(phase: Phase) -> nat {
    match phase {
        Phase::AwaitFresh | Phase::CheckFresh { .. } | Phase::AwaitStale => 2,
        Phase::AwaitReply { .. } => 2,
        Phase::CheckStale { .. } | Phase::AwaitRetry => 1,
        _ => 0,
    }
}

/// A fetch asks the network at most twice, and it ends.
pub proof fn lemma_fetch_ends(
    c: CachedFetcher,
    url: Seq<char>,
    ttl: Option<u64>,
    phase: Phase,
    answer: Answer,
)
    requires
        answers(phase, answer),
    ensures
        ({
            let next = advance(c, url, ttl, phase, answer).1;
            &&& decreases_to!(requests_left(phase), answers_left(phase) => requests_left(
                next,
            ), answers_left(next))
            &&& query_of(phase) is Get ==> requests_left(next) < requests_left(phase)
        }),
{
}

/// The network counts as asked exactly where it was: a fetch that ends before the
/// first request says so, and every other says that it was asked.
pub proof fn lemma_network_hit(
    c: CachedFetcher,
    url: Seq<char>,
    ttl: Option<u64>,
    phase: Phase,
    answer: Answer,
)
    requires
        answers(phase, answer),
    ensures
        match advance(c, url, ttl, phase, answer).1 {
            Phase::Done { outcome } => outcome.was_network_hit == !(phase is AwaitFresh
                || phase is CheckFresh),
            _ => true,
        },
{
}

/// An old body stands in for a response only where there was none: any other
/// failure is handed on at once.
pub proof fn lemma_only_lost_responses_fall_back(
    c: CachedFetcher,
    url: Seq<char>,
    ttl: Option<u64>,
    stale: Option<Entry>,
    error: Fault,
)
    requires
        !(error is Transport),
    ensures
        advance(c, url, ttl, Phase::AwaitReply { stale }, Answer::Reply(Err(error))) == (
            Effect::Keep,
            failed(true, error),
        ),
{
}

/// A body is returned only after it was judged valid, and it is the body that was
/// judged.
pub proof fn lemma_only_valid_bodies(
    c: CachedFetcher,
    url: Seq<char>,
    ttl: Option<u64>,
    phase: Phase,
    answer: Answer,
)
    requires
        answers(phase, answer),
    ensures
        match advance(c, url, ttl, phase, answer).1 {
            Phase::Done { outcome } => outcome.result is Ok ==> is_approval(answer)
                && body_to_check(phase) == Some(outcome.result->Ok_0),
            _ => true,
        },
{
}

} // verus!
