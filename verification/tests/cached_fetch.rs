use pg_collect::cached_fetch::{
    entry_or_miss, CacheEffect, CacheEntry, CachedFetcher, FetchError, FetchEvent, FetchOutcome,
    FetchRequest, FetchState, HttpResponse,
};
use std::collections::HashMap;

/// A cache in memory with a clock of its own.
struct MemoryCache {
    now: u64,
    unreadable: bool,
    entries: HashMap<String, Stored>,
}

#[derive(Clone)]
struct Stored {
    body: Vec<u8>,
    etag: Option<String>,
    status_code: u16,
    at: u64,
    ttl: Option<u64>,
}

impl Stored {
    fn entry(&self) -> CacheEntry {
        CacheEntry {
            status_code: self.status_code,
            body: self.body.clone(),
            etag: self.etag.clone(),
        }
    }
}

impl MemoryCache {
    fn put(&mut self, url: &str, body: &[u8], etag: Option<&str>, status: u16, ttl: Option<u64>) {
        let stored = Stored {
            body: body.to_vec(),
            etag: etag.map(|e| e.to_string()),
            status_code: status,
            at: self.now,
            ttl,
        };
        self.entries.insert(url.to_string(), stored);
    }

    fn get_stale(&self, url: &str) -> Option<Stored> {
        self.entries.get(url).cloned()
    }

    fn get_fresh(&self, url: &str) -> Option<Stored> {
        self.get_stale(url).filter(|s| match s.ttl {
            Some(ttl) => self.now < s.at + ttl,
            None => true,
        })
    }

    fn read(&self, found: Option<Stored>) -> Result<Option<CacheEntry>, String> {
        if self.unreadable {
            Err("permission denied".to_string())
        } else {
            Ok(found.map(|s| s.entry()))
        }
    }

    fn apply(&mut self, url: &str, effect: CacheEffect) {
        match effect {
            CacheEffect::Keep => {}
            CacheEffect::Evict => {
                self.entries.remove(url);
            }
            CacheEffect::Put { body, etag, status, ttl } => {
                self.put(url, &body, etag.as_deref(), status, ttl)
            }
            CacheEffect::Touch { etag } => {
                let now = self.now;
                if let Some(s) = self.entries.get_mut(url) {
                    s.at = now;
                    if etag.is_some() {
                        s.etag = etag;
                    }
                }
            }
        }
    }
}

/// Runs fetches against a cache in memory.
struct Runner {
    fetcher: CachedFetcher,
    cache: MemoryCache,
}

fn make_fetcher(now: u64, negative_ttl: u64, refresh: bool) -> Runner {
    Runner {
        fetcher: CachedFetcher::new(negative_ttl, refresh),
        cache: MemoryCache { now, unreadable: false, entries: HashMap::new() },
    }
}

impl Runner {
    fn fetch<G>(
        &mut self,
        url: &str,
        ttl: Option<u64>,
        validate: &dyn Fn(&[u8]) -> Result<(), String>,
        mut http_get: G,
    ) -> FetchOutcome
    where
        G: FnMut(&str, Option<&str>) -> Result<HttpResponse, FetchError>,
    {
        let mut state = self.fetcher.begin();
        loop {
            let event = match state.request() {
                FetchRequest::ReadFresh => {
                    FetchEvent::Entry(entry_or_miss(self.cache.read(self.cache.get_fresh(url))))
                }
                FetchRequest::ReadStale => {
                    FetchEvent::Entry(entry_or_miss(self.cache.read(self.cache.get_stale(url))))
                }
                FetchRequest::Validate => {
                    FetchEvent::Verdict(validate(state.pending_body().unwrap()))
                }
                FetchRequest::Get { etag } => FetchEvent::Reply(http_get(url, etag.as_deref())),
                FetchRequest::Nothing => match state {
                    FetchState::Done { outcome } => return outcome,
                    other => panic!("nothing to ask for in {other:?}"),
                },
            };
            let step = self.fetcher.fetch(url, ttl, state, event);
            self.cache.apply(url, step.effect);
            state = step.state;
        }
    }
}

fn ok_validator(body: &[u8]) -> Result<(), String> {
    if body.is_empty() {
        Err("empty body".to_string())
    } else {
        Ok(())
    }
}

fn always_valid(_body: &[u8]) -> Result<(), String> {
    Ok(())
}

fn always_invalid(_body: &[u8]) -> Result<(), String> {
    Err("always invalid".to_string())
}

fn json_validator(body: &[u8]) -> Result<(), String> {
    serde_json::from_slice::<serde_json::Value>(body)
        .map(|_| ())
        .map_err(|e| format!("invalid JSON: {}", e))
}

fn xml_validator(body: &[u8]) -> Result<(), String> {
    let s = std::str::from_utf8(body).map_err(|e| format!("not UTF-8: {}", e))?;
    if s.starts_with('<') {
        Ok(())
    } else {
        Err("does not look like XML".to_string())
    }
}

#[test]
fn test_fresh_cache_hit_200() {
                    let mut fetcher = make_fetcher(1_000_000, 3600, false);
    fetcher.cache.put(
            "http://example.com/pkg",
            b"cached-body",
            Some("\"etag-1\""),
            200,
            Some(3600),
        );

    let outcome = fetcher.fetch(
        "http://example.com/pkg",
        Some(3600),
        &ok_validator,
        |_url, _etag| {
            panic!("should not make network request on fresh cache hit");
        },
    );

    assert!(!outcome.was_network_hit);
    assert_eq!(outcome.result.unwrap(), b"cached-body");
}


#[test]
fn test_fresh_cache_hit_200_invalid_body_refetches() {
                    let mut fetcher = make_fetcher(1_000_000, 3600, false);
    fetcher.cache.put(
            "http://example.com/pkg",
            b"bad-cached-body",
            None,
            200,
            Some(3600),
        );
    let outcome = fetcher.fetch(
        "http://example.com/pkg",
        Some(3600),
        &always_invalid,
        |_url, _etag| {
            Ok(HttpResponse {
                status: 200,
                bytes: b"also-invalid".to_vec(),
                etag: None,
            })
        },
    );

    assert!(outcome.was_network_hit);
    match outcome.result {
        Err(FetchError::InvalidResponse { .. }) => {}
        other => panic!("expected InvalidResponse, got {:?}", other.err()),
    }
}


#[test]
fn test_fresh_cache_hit_404() {
                    let mut fetcher = make_fetcher(1_000_000, 3600, false);
    fetcher.cache.put(
            "http://example.com/missing",
            b"",
            None,
            404,
            Some(3600),
        );

    let outcome = fetcher.fetch(
        "http://example.com/missing",
        None,
        &always_valid,
        |_url, _etag| {
            panic!("should not make network request for cached 404");
        },
    );

    assert!(
        !outcome.was_network_hit,
        "cached 404 should not be a network hit"
    );
    match outcome.result {
        Err(FetchError::NotFound { url }) => {
            assert_eq!(url, "http://example.com/missing");
        }
        other => panic!("expected NotFound, got {:?}", other.err()),
    }
}


#[test]
fn test_was_network_hit_on_network_404() {
                    let mut fetcher = make_fetcher(1_000_000, 3600, false);

    let outcome = fetcher.fetch(
        "http://example.com/gone",
        None,
        &always_valid,
        |_url, _etag| {
            Ok(HttpResponse {
                status: 404,
                bytes: vec![],
                etag: None,
            })
        },
    );

    assert!(
        outcome.was_network_hit,
        "network 404 must report was_network_hit=true"
    );
    assert!(matches!(outcome.result, Err(FetchError::NotFound { .. })));
}

#[test]
fn test_was_network_hit_on_transport_error() {
                    let mut fetcher = make_fetcher(1_000_000, 3600, false);

    let outcome = fetcher.fetch(
        "http://example.com/pkg",
        None,
        &ok_validator,
        |url, _etag| {
                            Err(FetchError::Transport { url: url.to_string(), detail: "connection refused".to_string() })
        },
    );

    assert!(
        outcome.was_network_hit,
        "transport error must report was_network_hit=true"
    );
    assert!(matches!(outcome.result, Err(FetchError::Transport { .. })));
}


#[test]
fn test_cache_miss_200() {
                    let mut fetcher = make_fetcher(1_000_000, 3600, false);

    let outcome = fetcher.fetch(
        "http://example.com/pkg",
        Some(86400),
        &ok_validator,
        |_url, etag| {
            assert!(etag.is_none(), "no etag on cache miss");
            Ok(HttpResponse {
                status: 200,
                bytes: b"fresh-from-network".to_vec(),
                etag: Some("\"new-etag\"".to_string()),
            })
        },
    );

    assert!(outcome.was_network_hit);
    assert_eq!(outcome.result.unwrap(), b"fresh-from-network");
    let cached = fetcher.cache.get_fresh("http://example.com/pkg");
    assert!(cached.is_some());
    assert_eq!(cached.unwrap().body, b"fresh-from-network");
}


#[test]
fn test_cache_miss_404_negative_cache() {
                    let mut fetcher = make_fetcher(1_000_000, 1800, false);

    let outcome = fetcher.fetch(
        "http://example.com/gone",
        None,
        &always_valid,
        |_url, _etag| {
            Ok(HttpResponse {
                status: 404,
                bytes: vec![],
                etag: None,
            })
        },
    );

    assert!(outcome.was_network_hit);
    assert!(matches!(outcome.result, Err(FetchError::NotFound { .. })));
    let cached = fetcher.cache.get_fresh("http://example.com/gone");
    assert!(cached.is_some());
    assert_eq!(cached.unwrap().status_code, 404);
}


#[test]
fn test_304_with_valid_stale_body() {
                    let mut fetcher = make_fetcher(1_000_000, 3600, false);
    fetcher.cache.put(
            "http://example.com/pkg",
            b"stale-body",
            Some("\"etag-1\""),
            200,
            Some(60),
        );

    fetcher.cache.now += 120; // Expire it

    let outcome = fetcher.fetch(
        "http://example.com/pkg",
        Some(3600),
        &ok_validator,
        |_url, etag| {
            assert_eq!(etag, Some("\"etag-1\""), "should send stale ETag");
            Ok(HttpResponse {
                status: 304,
                bytes: vec![],
                etag: Some("\"etag-1\"".to_string()),
            })
        },
    );

    assert!(outcome.was_network_hit, "304 counts as a network hit");
    assert_eq!(outcome.result.unwrap(), b"stale-body");
    let fresh = fetcher.cache.get_fresh("http://example.com/pkg");
    assert!(fresh.is_some(), "entry should be fresh after 304 touch");
}


#[test]
fn test_304_with_invalid_stale_body_retries() {
                    let mut fetcher = make_fetcher(1_000_000, 3600, false);
    fetcher.cache.put(
            "http://example.com/pkg",
            b"",
            Some("\"etag-old\""),
            200,
            Some(60),
        );

    fetcher.cache.now += 120;

    let mut call_count = 0u32;
    let outcome = fetcher.fetch(
        "http://example.com/pkg",
        Some(3600),
        &ok_validator,
        |_url, etag| {
            call_count += 1;
            if call_count == 1 {
                assert_eq!(etag, Some("\"etag-old\""));
                Ok(HttpResponse {
                    status: 304,
                    bytes: vec![],
                    etag: Some("\"etag-old\"".to_string()),
                })
            } else {
                assert!(etag.is_none(), "retry should be unconditional");
                Ok(HttpResponse {
                    status: 200,
                    bytes: b"fresh-valid-body".to_vec(),
                    etag: Some("\"etag-new\"".to_string()),
                })
            }
        },
    );

    assert!(outcome.was_network_hit);
    assert_eq!(outcome.result.unwrap(), b"fresh-valid-body");
    assert_eq!(call_count, 2, "should have made two requests");
}


#[test]
fn test_304_without_stale_entry_retries() {
                    let mut fetcher = make_fetcher(1_000_000, 3600, false);

    let mut call_count = 0u32;
    let outcome = fetcher.fetch(
        "http://example.com/pkg",
        Some(3600),
        &ok_validator,
        |_url, _etag| {
            call_count += 1;
            if call_count == 1 {
                Ok(HttpResponse {
                    status: 304,
                    bytes: vec![],
                    etag: None,
                })
            } else {
                Ok(HttpResponse {
                    status: 200,
                    bytes: b"actual-body".to_vec(),
                    etag: None,
                })
            }
        },
    );

    assert_eq!(outcome.result.unwrap(), b"actual-body");
    assert_eq!(call_count, 2);
}


#[test]
fn test_transport_error_stale_200_fallback() {
                    let mut fetcher = make_fetcher(1_000_000, 3600, false);
    fetcher.cache.put(
            "http://example.com/pkg",
            b"stale-but-valid",
            None,
            200,
            Some(60),
        );

    fetcher.cache.now += 120;

    let outcome = fetcher.fetch(
        "http://example.com/pkg",
        None,
        &ok_validator,
        |url, _etag| {
                            Err(FetchError::Transport { url: url.to_string(), detail: "connection refused".to_string() })
        },
    );

    assert!(
        outcome.was_network_hit,
        "network was attempted even though it failed"
    );
    assert_eq!(outcome.result.unwrap(), b"stale-but-valid");
}


#[test]
fn test_transport_error_stale_404_propagates() {
                    let mut fetcher = make_fetcher(1_000_000, 3600, false);
    fetcher.cache.put(
            "http://example.com/gone",
            b"",
            None,
            404,
            Some(60),
        );

    fetcher.cache.now += 120;

    let outcome = fetcher.fetch(
        "http://example.com/gone",
        None,
        &always_valid,
        |url, _etag| {
                            Err(FetchError::Transport { url: url.to_string(), detail: "connection refused".to_string() })
        },
    );

    assert!(outcome.was_network_hit);
    assert!(matches!(outcome.result, Err(FetchError::Transport { .. })));
}


#[test]
fn test_transport_error_no_stale_propagates() {
                    let mut fetcher = make_fetcher(1_000_000, 3600, false);

    let outcome = fetcher.fetch(
        "http://example.com/pkg",
        None,
        &ok_validator,
        |url, _etag| {
                            Err(FetchError::Transport { url: url.to_string(), detail: "connection refused".to_string() })
        },
    );

    assert!(outcome.was_network_hit);
    assert!(matches!(outcome.result, Err(FetchError::Transport { .. })));
}


#[test]
fn test_http_429_does_not_use_stale_fallback() {
                    let mut fetcher = make_fetcher(1_000_000, 3600, false);
    fetcher.cache.put(
            "http://example.com/pkg",
            b"stale-data",
            None,
            200,
            Some(60),
        );

    fetcher.cache.now += 120;

    let outcome = fetcher.fetch(
        "http://example.com/pkg",
        None,
        &ok_validator,
        |url, _etag| {
            Err(FetchError::HttpStatus {
                url: url.to_string(),
                status: 429,
            })
        },
    );

    assert!(outcome.was_network_hit);
    match outcome.result {
        Err(FetchError::HttpStatus { status: 429, .. }) => {}
        other => panic!(
            "expected HttpStatus 429 (not stale fallback), got {:?}",
            other.err()
        ),
    }
}

#[test]
fn test_http_401_does_not_use_stale_fallback() {
                    let mut fetcher = make_fetcher(1_000_000, 3600, false);
    fetcher.cache.put(
            "http://example.com/pkg",
            b"stale-data",
            None,
            200,
            Some(60),
        );

    fetcher.cache.now += 120;

    let outcome = fetcher.fetch(
        "http://example.com/pkg",
        None,
        &ok_validator,
        |url, _etag| {
            Err(FetchError::HttpStatus {
                url: url.to_string(),
                status: 401,
            })
        },
    );

    assert!(outcome.was_network_hit);
    match outcome.result {
        Err(FetchError::HttpStatus { status: 401, .. }) => {}
        other => panic!(
            "expected HttpStatus 401 (not stale fallback), got {:?}",
            other.err()
        ),
    }
}


#[test]
fn test_5xx_never_cached() {
                    let mut fetcher = make_fetcher(1_000_000, 3600, false);

    let outcome = fetcher.fetch(
        "http://example.com/pkg",
        None,
        &always_valid,
        |_url, _etag| {
            Ok(HttpResponse {
                status: 503,
                bytes: b"service unavailable".to_vec(),
                etag: None,
            })
        },
    );

    assert!(matches!(
        outcome.result,
        Err(FetchError::HttpStatus { status: 503, .. })
    ));
    assert!(fetcher.cache.get_stale("http://example.com/pkg")
        .is_none());
}

#[test]
fn test_429_never_cached() {
                    let mut fetcher = make_fetcher(1_000_000, 3600, false);

    let outcome = fetcher.fetch(
        "http://example.com/pkg",
        None,
        &always_valid,
        |_url, _etag| {
            Ok(HttpResponse {
                status: 429,
                bytes: b"rate limited".to_vec(),
                etag: None,
            })
        },
    );

    assert!(matches!(
        outcome.result,
        Err(FetchError::HttpStatus { status: 429, .. })
    ));
    assert!(fetcher.cache.get_stale("http://example.com/pkg")
        .is_none());
}


#[test]
fn test_invalid_200_never_cached() {
                    let mut fetcher = make_fetcher(1_000_000, 3600, false);

    let outcome = fetcher.fetch(
        "http://example.com/pkg",
        Some(3600),
        &always_invalid,
        |_url, _etag| {
            Ok(HttpResponse {
                status: 200,
                bytes: b"invalid-data".to_vec(),
                etag: None,
            })
        },
    );

    assert!(matches!(
        outcome.result,
        Err(FetchError::InvalidResponse { .. })
    ));
    assert!(fetcher.cache.get_stale("http://example.com/pkg")
        .is_none());
}


#[test]
fn test_was_network_hit_false_on_fresh_cache() {
                    let mut fetcher = make_fetcher(1_000_000, 3600, false);

    fetcher.cache.put(
            "http://example.com/pkg",
            b"data",
            None,
            200,
            Some(3600),
        );

    let outcome = fetcher.fetch("http://example.com/pkg", None, &ok_validator, |_, _| {
        panic!("should not call network");
    });

    assert!(!outcome.was_network_hit);
    assert!(outcome.result.is_ok());
}

#[test]
fn test_was_network_hit_true_on_cache_miss() {
                    let mut fetcher = make_fetcher(1_000_000, 3600, false);

    let outcome = fetcher.fetch("http://example.com/pkg", None, &ok_validator, |_, _| {
        Ok(HttpResponse {
            status: 200,
            bytes: b"from-network".to_vec(),
            etag: None,
        })
    });

    assert!(outcome.was_network_hit);
    assert_eq!(outcome.result.unwrap(), b"from-network");
}


#[test]
fn test_refresh_skips_fresh_cache() {
                    let mut fetcher = make_fetcher(1_000_000, 3600, true);
    fetcher.cache.put(
            "http://example.com/pkg",
            b"old-data",
            Some("\"old-etag\""),
            200,
            Some(3600),
        );

    let outcome = fetcher.fetch(
        "http://example.com/pkg",
        Some(3600),
        &ok_validator,
        |_url, etag| {
            assert_eq!(etag, Some("\"old-etag\""));
            Ok(HttpResponse {
                status: 200,
                bytes: b"refreshed-data".to_vec(),
                etag: Some("\"new-etag\"".to_string()),
            })
        },
    );

    assert!(outcome.was_network_hit);
    assert_eq!(outcome.result.unwrap(), b"refreshed-data");
}


#[test]
fn test_cross_format_validator_evicts_and_refetches() {
                    let mut fetcher = make_fetcher(1_000_000, 3600, false);
    fetcher.cache.put(
            "http://example.com/artifact",
            b"{\"type\":\"search\"}",
            None,
            200,
            Some(3600),
        );
    let outcome = fetcher.fetch(
        "http://example.com/artifact",
        Some(3600),
        &json_validator,
        |_url, _etag| {
            panic!("should not hit network for valid JSON cache");
        },
    );
    assert!(!outcome.was_network_hit);
    assert_eq!(outcome.result.unwrap(), b"{\"type\":\"search\"}");
    let outcome = fetcher.fetch(
        "http://example.com/artifact",
        Some(3600),
        &xml_validator,
        |_url, _etag| {
            Ok(HttpResponse {
                status: 200,
                bytes: b"<pom>content</pom>".to_vec(),
                etag: None,
            })
        },
    );

    assert!(
        outcome.was_network_hit,
        "XML validator should reject cached JSON and re-fetch"
    );
    assert_eq!(outcome.result.unwrap(), b"<pom>content</pom>");
    let cached = fetcher.cache.get_fresh("http://example.com/artifact")
        .expect("XML body should be cached");
    assert_eq!(cached.body, b"<pom>content</pom>");
}


#[test]
fn test_cache_read_error_degrades_to_miss() {
    let mut fetcher = make_fetcher(1_000_000, 3600, false);
    fetcher.cache.put("http://example.com/pkg", b"cached-data", None, 200, Some(3600));
    fetcher.cache.unreadable = true;

    let outcome = fetcher.fetch(
        "http://example.com/pkg",
        Some(3600),
        &ok_validator,
        |_url, _etag| {
            Ok(HttpResponse { status: 200, bytes: b"from-network".to_vec(), etag: None })
        },
    );

    assert!(outcome.was_network_hit, "read error should degrade to cache miss");
    assert_eq!(outcome.result.unwrap(), b"from-network");
}

#[test]
fn test_unsolicited_304_triggers_retry() {
                    let mut fetcher = make_fetcher(1_000_000, 3600, false);
    fetcher.cache.put(
            "http://example.com/pkg",
            b"no-etag-body",
            None, // no ETag
            200,
            Some(60),
        );

    fetcher.cache.now += 120;

    let mut call_count = 0u32;
    let outcome = fetcher.fetch(
        "http://example.com/pkg",
        Some(3600),
        &ok_validator,
        |_url, etag| {
            call_count += 1;
            if call_count == 1 {
                assert!(etag.is_none(), "no ETag means no If-None-Match");
                Ok(HttpResponse {
                    status: 304,
                    bytes: vec![],
                    etag: None,
                })
            } else {
                assert!(etag.is_none(), "retry should be unconditional");
                Ok(HttpResponse {
                    status: 200,
                    bytes: b"proper-response".to_vec(),
                    etag: None,
                })
            }
        },
    );

    assert!(outcome.was_network_hit);
    assert_eq!(outcome.result.unwrap(), b"proper-response");
    assert_eq!(call_count, 2, "unsolicited 304 should trigger a retry");
}


#[test]
fn test_304_confirms_cached_404() {
                    let mut fetcher = make_fetcher(1_000_000, 3600, false);
    fetcher.cache.put(
            "http://example.com/gone",
            b"",
            Some("\"404-etag\""),
            404,
            Some(60),
        );

    fetcher.cache.now += 120;

    let mut call_count = 0u32;
    let outcome = fetcher.fetch(
        "http://example.com/gone",
        None,
        &always_valid,
        |_url, etag| {
            call_count += 1;
            assert_eq!(etag, Some("\"404-etag\""), "should send stale 404's ETag");
            Ok(HttpResponse {
                status: 304,
                bytes: vec![],
                etag: Some("\"404-etag\"".to_string()),
            })
        },
    );

    assert!(outcome.was_network_hit, "304 is a network hit");
    assert_eq!(call_count, 1, "should NOT retry -- 304 confirms the 404");
    match outcome.result {
        Err(FetchError::NotFound { url }) => {
            assert_eq!(url, "http://example.com/gone");
        }
        other => panic!("expected NotFound, got {:?}", other.err()),
    }
    let cached = fetcher.cache.get_fresh("http://example.com/gone");
    assert!(
        cached.is_some(),
        "404 entry should be fresh after 304 touch"
    );
    assert_eq!(cached.unwrap().status_code, 404);
}


#[test]
fn test_invalid_stale_body_plus_transport_failure() {
                    let mut fetcher = make_fetcher(1_000_000, 3600, false);
    fetcher.cache.put(
            "http://example.com/pkg",
            b"",
            None,
            200,
            Some(60),
        );

    fetcher.cache.now += 120;

    let outcome = fetcher.fetch(
        "http://example.com/pkg",
        None,
        &ok_validator,
        |url, _etag| {
                            Err(FetchError::Transport { url: url.to_string(), detail: "connection refused".to_string() })
        },
    );
    assert!(outcome.was_network_hit);
    assert!(
        matches!(outcome.result, Err(FetchError::Transport { .. })),
        "invalid stale body should not be used as fallback"
    );
}

#[test]
fn test_304_always_reports_was_network_hit() {
                    let mut fetcher = make_fetcher(1_000_000, 3600, false);
    fetcher.cache.put(
            "http://example.com/pkg",
            b"data",
            Some("\"etag\""),
            200,
            Some(60),
        );

    fetcher.cache.now += 120;

    let outcome = fetcher.fetch(
        "http://example.com/pkg",
        Some(3600),
        &ok_validator,
        |_url, _etag| {
            Ok(HttpResponse {
                status: 304,
                bytes: vec![],
                etag: Some("\"etag\"".to_string()),
            })
        },
    );

    assert!(
        outcome.was_network_hit,
        "304 must always set was_network_hit=true"
    );
    assert!(outcome.result.is_ok());
}

#[test]
fn test_403_not_cached_returns_http_status() {
                    let mut fetcher = make_fetcher(1_000_000, 3600, false);

    let outcome = fetcher.fetch(
        "http://example.com/forbidden",
        None,
        &always_valid,
        |_url, _etag| {
            Ok(HttpResponse {
                status: 403,
                bytes: b"forbidden".to_vec(),
                etag: None,
            })
        },
    );

    assert!(outcome.was_network_hit);
    match outcome.result {
        Err(FetchError::HttpStatus { status: 403, .. }) => {}
        other => panic!("expected HttpStatus 403, got {:?}", other.err()),
    }
    assert!(fetcher.cache.get_stale("http://example.com/forbidden")
        .is_none());
}

#[test]
fn test_unexpected_cached_status_on_fresh_hit() {
                    let mut fetcher = make_fetcher(1_000_000, 3600, false);
    fetcher.cache.put(
            "http://example.com/weird",
            b"server-error-body",
            None,
            500,
            Some(3600),
        );

    let outcome = fetcher.fetch(
        "http://example.com/weird",
        None,
        &always_valid,
        |_url, _etag| {
            panic!("should not reach network for UnexpectedCachedStatus");
        },
    );

    assert!(!outcome.was_network_hit);
    match outcome.result {
        Err(FetchError::UnexpectedCachedStatus { status: 500, .. }) => {}
        other => panic!("expected UnexpectedCachedStatus 500, got {:?}", other.err()),
    }
}

#[test]
fn test_failed_revalidation_falls_back_to_stale() {
                    let mut fetcher = make_fetcher(1_000_000, 3600, false);
    fetcher.cache.put(
            "http://example.com/pkg",
            b"stale-revalidation-body",
            Some("\"reval-etag\""),
            200,
            Some(60),
        );

    fetcher.cache.now += 120;
    let outcome = fetcher.fetch(
        "http://example.com/pkg",
        None,
        &ok_validator,
        |url, etag| {
            assert_eq!(
                etag,
                Some("\"reval-etag\""),
                "should attempt conditional GET with stale ETag"
            );
                            Err(FetchError::Transport { url: url.to_string(), detail: "connection refused".to_string() })
        },
    );
    assert!(
        outcome.was_network_hit,
        "failed revalidation is still a network hit"
    );
    assert_eq!(
        outcome.result.unwrap(),
        b"stale-revalidation-body",
        "stale body should be returned on failed revalidation"
    );
}

#[test]
fn an_answer_to_something_else_changes_nothing() {
    let fetcher = CachedFetcher::new(60, false);
    let step = fetcher.fetch("u", None, fetcher.begin(), FetchEvent::Verdict(Ok(())));
    assert!(matches!(step.effect, CacheEffect::Keep));
    assert!(matches!(step.state, FetchState::AwaitFresh));
}

#[test]
fn a_missing_page_is_stored_under_the_time_for_missing_pages() {
    let fetcher = CachedFetcher::new(1800, false);
    let response = HttpResponse { status: 404, bytes: b"gone".to_vec(), etag: None };
    let step = fetcher.handle_unconditional_response("u", response);
    match step.effect {
        CacheEffect::Put { body, etag, status, ttl } => {
            assert!(body.is_empty());
            assert_eq!(etag, None);
            assert_eq!(status, 404);
            assert_eq!(ttl, Some(1800));
        }
        other => panic!("expected Put, got {other:?}"),
    }
}

#[test]
fn a_parse_error_is_handed_on_without_an_old_body() {
    let mut fetcher = make_fetcher(1_000_000, 3600, false);
    fetcher.cache.put("u", b"old", None, 200, Some(60));
    fetcher.cache.now += 120;
    let outcome = fetcher.fetch("u", None, &always_valid, |url, _etag| {
        Err(FetchError::Parse { url: url.to_string(), detail: "bad".to_string() })
    });
    assert!(matches!(outcome.result, Err(FetchError::Parse { .. })));
}

#[test]
fn a_failing_retry_is_handed_on() {
    let mut fetcher = make_fetcher(1_000_000, 3600, false);
    let mut calls = 0;
    let outcome = fetcher.fetch("u", None, &always_valid, |url, _etag| {
        calls += 1;
        if calls == 1 {
            Ok(HttpResponse { status: 304, bytes: vec![], etag: None })
        } else {
            Err(FetchError::HttpStatus { url: url.to_string(), status: 502 })
        }
    });
    assert_eq!(calls, 2);
    assert!(matches!(outcome.result, Err(FetchError::HttpStatus { status: 502, .. })));
}
