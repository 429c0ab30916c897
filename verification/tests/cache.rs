use pg_collect::cache::{
    encode_path, file_name, host_from_endpoint, region_from_endpoint, sign_at, sign_s3_request,
    CacheLookup, FileCache, MinioConfig,
};
use pg_collect::digest::sha256_hex;
use std::collections::BTreeMap;

fn config(endpoint: &str) -> MinioConfig {
    MinioConfig {
        endpoint: endpoint.to_string(),
        bucket: "examplebucket".to_string(),
        access_key: "minioadmin".to_string(),
        secret_key: "minioadmin".to_string(),
    }
}

#[test]
fn a_host_is_what_stands_between_the_scheme_and_the_path() {
    assert_eq!(host_from_endpoint("https://s3.fr-par.scw.cloud"), "s3.fr-par.scw.cloud");
    assert_eq!(host_from_endpoint("https://s3.fr-par.scw.cloud/x/y"), "s3.fr-par.scw.cloud");
    assert_eq!(host_from_endpoint("localhost:9000/x"), "localhost:9000");
}

#[test]
fn a_region_is_recognised_on_one_cloud_only() {
    assert_eq!(region_from_endpoint("https://s3.fr-par.scw.cloud"), "fr-par");
    assert_eq!(region_from_endpoint("https://s3.eu-west-1.amazonaws.com"), "us-east-1");
    assert_eq!(region_from_endpoint("http://localhost:9000"), "us-east-1");
    assert_eq!(region_from_endpoint("https://files.fr-par.scw.cloud"), "us-east-1");
}

#[test]
fn a_path_keeps_its_separators() {
    assert_eq!(encode_path("/b/cache/a b.json"), "/b/cache/a%20b.json");
    assert_eq!(encode_path("a+b/é~-_."), "a%2Bb/%C3%A9~-_.");
}

#[test]
fn a_digest_is_the_one_that_is_published() {
    assert_eq!(
        sha256_hex(b""),
        "e3b0c44298fc1c149afbf4c8996fb92427ae41e4649b934ca495991b7852b855"
    );
    assert_eq!(
        sha256_hex(b"abc"),
        "ba7816bf8f01cfea414140de5dae2223b00361a396177a9cb410ff61f20015ad"
    );
}

#[test]
fn a_signature_covers_the_request() {
    let c = config("https://s3.fr-par.scw.cloud");
    let signed = sign_at(&c, "GET", "/examplebucket/k", b"", "20130524T000000Z", "20130524");
    assert_eq!(signed.amz_date, "20130524T000000Z");
    assert_eq!(
        signed.payload_hash,
        "e3b0c44298fc1c149afbf4c8996fb92427ae41e4649b934ca495991b7852b855"
    );
    let head = "AWS4-HMAC-SHA256 Credential=minioadmin/20130524/fr-par/s3/aws4_request, SignedHeaders=host;x-amz-content-sha256;x-amz-date, Signature=";
    assert!(signed.authorization.starts_with(head), "{}", signed.authorization);
    let signature = &signed.authorization[head.len()..];
    assert_eq!(
        signature,
        "85a3cbd551aaec7637cdd8590d819de7cc0dce13edd11578fd57d2113ab2cb13"
    );
    let other = sign_at(&c, "PUT", "/examplebucket/k", b"", "20130524T000000Z", "20130524");
    assert_ne!(other.authorization, signed.authorization);
    let other = sign_at(&c, "GET", "/examplebucket/k", b"x", "20130524T000000Z", "20130524");
    assert_ne!(other.authorization, signed.authorization);
}

#[test]
fn a_second_gives_the_dates_of_a_signature() {
    let c = config("http://localhost:9000");
    let at = sign_at(&c, "GET", "/b/k", b"", "20130524T000000Z", "20130524");
    let by_second = sign_s3_request(&c, "GET", "/b/k", b"", 1369353600).unwrap();
    assert_eq!(by_second.authorization, at.authorization);
    assert_eq!(by_second.amz_date, "20130524T000000Z");
    assert!(sign_s3_request(&c, "GET", "/b/k", b"", i64::MAX).is_none());
}

#[test]
fn a_key_is_named_by_its_digest() {
    let cache = FileCache::new("test".to_string(), 24, None);
    let key = "repo:openssl/openssl";
    let file = "a0cbe6ea4175bdb9ca5484214927bc41d09801a9e191af96e752df8ae90a0184.json";
    assert_eq!(file_name(key), file);
    assert_eq!(cache.minio_key(key), format!("cache/test/{file}"));
    let a = cache.object_address(&config("http://h"), key);
    assert_eq!(a.url, format!("http://h/examplebucket/cache/test/{file}"));
    assert_eq!(a.canonical_uri, format!("/examplebucket/cache/test/{file}"));
}

#[test]
fn a_file_is_good_for_its_time() {
    let cache = FileCache::new("test".to_string(), 24, None);
    assert!(!cache.is_expired(86400, 0));
    assert!(cache.is_expired(86400, 1));
    assert!(cache.is_expired(86401, 0));
    assert!(FileCache::new("test".to_string(), 0, None).is_expired(0, 10_000_000));
}

#[test]
fn the_file_is_tried_before_the_store() {
    let local = FileCache::new("test".to_string(), 24, None);
    let shared = FileCache::new("test".to_string(), 24, Some(config("http://h")));
    let start = CacheLookup::AwaitLocal;
    assert_eq!(local.get(start, true), CacheLookup::Found { store: false });
    assert_eq!(local.get(start, false), CacheLookup::Missing);
    assert_eq!(shared.get(start, true), CacheLookup::Found { store: false });
    let asked = shared.get(start, false);
    assert_eq!(asked, CacheLookup::AwaitRemote);
    assert_eq!(shared.get(asked, true), CacheLookup::Found { store: true });
    assert_eq!(shared.get(asked, false), CacheLookup::Missing);
}

/// Files and objects in memory around the decisions of a cache.
struct Disk {
    cache: FileCache,
    files: BTreeMap<String, (u64, u32, String)>,
    objects: BTreeMap<String, String>,
    asked: usize,
}

impl Disk {
    fn new(ttl_hours: u64, minio: Option<MinioConfig>) -> Self {
        Disk {
            cache: FileCache::new("test".to_string(), ttl_hours, minio),
            files: BTreeMap::new(),
            objects: BTreeMap::new(),
            asked: 0,
        }
    }

    fn put(&mut self, key: &str, value: &str) {
        self.files.insert(file_name(key), (0, 0, value.to_string()));
    }

    fn age(&mut self, secs: u64, nanos: u32) {
        for entry in self.files.values_mut() {
            entry.0 += secs;
            entry.1 += nanos;
        }
    }

    fn get(&mut self, key: &str) -> Option<serde_json::Value> {
        let mut body: Option<String> = None;
        let mut state = CacheLookup::AwaitLocal;
        loop {
            let found = match state {
                CacheLookup::AwaitLocal => {
                    body = self
                        .files
                        .get(&file_name(key))
                        .filter(|f| !self.cache.is_expired(f.0, f.1))
                        .map(|f| f.2.clone());
                    body.is_some()
                }
                CacheLookup::AwaitRemote => {
                    self.asked += 1;
                    body = self.objects.get(&self.cache.minio_key(key)).cloned();
                    body.is_some()
                }
                CacheLookup::Found { store } => {
                    let text = body.unwrap();
                    if store {
                        self.put(key, &text);
                    }
                    return Some(serde_json::from_str(&text).unwrap());
                }
                CacheLookup::Missing => return None,
            };
            state = self.cache.get(state, found);
        }
    }
}

#[test]
fn test_cache_put_and_get() {
    let mut cache = Disk::new(24, None);
    cache.put("repo:openssl/openssl", r#"{"stars": 42, "language": "Rust"}"#);

    let result = cache.get("repo:openssl/openssl");
    assert!(result.is_some(), "Should find cached value");
    assert_eq!(result.unwrap()["stars"], 42);
}

#[test]
fn test_cache_miss() {
    let mut cache = Disk::new(24, None);
    let result = cache.get("nonexistent");
    assert!(result.is_none(), "Should return None for missing key");
}

#[test]
fn test_cache_expired() {
    let mut cache = Disk::new(0, None);
    cache.put("key", r#"{"data": "old"}"#);
    cache.age(0, 10_000_000);
    let result = cache.get("key");
    assert!(result.is_none(), "Should return None for expired entry");
}

#[test]
fn test_cache_different_keys() {
    let mut cache = Disk::new(24, None);
    cache.put("key1", r#"{"id": 1}"#);
    cache.put("key2", r#"{"id": 2}"#);

    assert_eq!(cache.get("key1").unwrap()["id"], 1);
    assert_eq!(cache.get("key2").unwrap()["id"], 2);
}

#[test]
fn test_minio_fallback_on_local_miss() {
    let minio_config = MinioConfig {
        endpoint: "http://127.0.0.1:9000".to_string(),
        bucket: "test-bucket".to_string(),
        access_key: "minioadmin".to_string(),
        secret_key: "minioadmin".to_string(),
    };
    let mut cache = Disk::new(24, Some(minio_config));
    let key = cache.cache.minio_key("remote-key");
    cache.objects.insert(key, r#"{"from": "minio"}"#.to_string());

    let result = cache.get("remote-key");
    assert_eq!(cache.asked, 1);
    assert!(result.is_some(), "Should fall back to Minio");
    assert_eq!(result.unwrap()["from"], "minio");

    let local = cache.get("remote-key");
    assert!(local.is_some(), "Should be cached locally after Minio fetch");
    assert_eq!(cache.asked, 1);
}
