//! A cache of replies in files, shared through an object store.
//!
//! The store speaks S3: requests to it are signed with the fourth version of the
//! signature that Amazon defines.

use crate::calendar::{format_utc, utc_formatted, DAY, STAMP};
use crate::digest::{hmac_code, hmac_sha256, sha256, sha256_hex};
use crate::number::{hex, hex_string};
use crate::percent::{encoded, percent_encoded, Keep};
use crate::split::{join, joined, pieces, split, Sep};
use crate::text::{
    before, between, cat2, cat4, cat5, ends_with, has_suffix, head, same, second_piece, views,
};
use vstd::prelude::*;
use vstd::utf8::encode_utf8;

verus! {

broadcast use crate::text::lemma_views_push;

/// An object store.
#[derive(Debug, Clone)]
pub struct MinioConfig {
    pub endpoint: String,
    pub bucket: String,
    pub access_key: String,
    pub secret_key: String,
}

// ---------------------------------------------------------------------------
// Endpoints

/// The host of an endpoint.
pub open spec fn endpoint_host(endpoint: Seq<char>) -> Seq<char> {
    match second_piece(endpoint, "://"@) {
        Some(rest) => before(rest, "/"@),
        None => before(endpoint, "/"@),
    }
}

pub fn host_from_endpoint(endpoint: &str) -> (r: String)
    ensures
        r@ == endpoint_host(endpoint@),
{
    match between(endpoint, "://") {
        Some(rest) => head(&rest, "/"),
        None => head(endpoint, "/"),
    }
}

/// The region of an endpoint: the second label of a host whose first is `s3`, on the
/// cloud where hosts are named that way.
pub open spec fn endpoint_region(endpoint: Seq<char>) -> Seq<char> {
    let host = endpoint_host(endpoint);
    let parts = pieces(host, Sep::Is('.'));
    if parts.len() >= 2 && parts[0] == "s3"@ && ends_with(host, ".scw.cloud"@) {
        parts[1]
    } else {
        "us-east-1"@
    }
}

pub fn region_from_endpoint(endpoint: &str) -> (r: String)
    ensures
        r@ == endpoint_region(endpoint@),
{
    let host: String = host_from_endpoint(endpoint);
    let parts: Vec<String> = split(&host, &Sep::Is('.'));
    assert(forall|i: int| 0 <= i < parts@.len() ==> views(parts@)[i] == #[trigger] parts@[i]@);
    if parts.len() >= 2 && same(&parts[0], "s3") && has_suffix(&host, ".scw.cloud") {
        parts[1].clone()
    } else {
        "us-east-1".to_owned()
    }
}

/// The encodings of the segments of a path.
pub open spec fn encoded_segments(segments: Seq<Seq<char>>) -> Seq<Seq<char>> {
    Seq::new(segments.len(), |i: int| encoded(segments[i], Keep::Unreserved))
}

/// A path with its segments encoded.
pub open spec fn encoded_path(path: Seq<char>) -> Seq<char> {
    joined(encoded_segments(pieces(path, Sep::Is('/'))), "/"@)
}

pub fn encode_path(path: &str) -> (r: String)
    ensures
        r@ == encoded_path(path@),
{
    let segments: Vec<String> = split(path, &Sep::Is('/'));
    let ghost texts = views(segments@);
    let mut out: Vec<String> = Vec::new();
    let mut i: usize = 0;
    while i < segments.len()
        invariant
            i <= segments.len(),
            out@.len() == i,
            texts == views(segments@),
            forall|k: int|
                0 <= k < i ==> (#[trigger] out@[k])@ == encoded(texts[k], Keep::Unreserved),
        decreases segments.len() - i,
    {
        assert(texts[i as int] == segments@[i as int]@);
        out.push(percent_encoded(&segments[i], &Keep::Unreserved));
        i = i + 1;
    }
    assert(views(out@) =~= encoded_segments(texts));
    let end: usize = out.len();
    assert(views(out@).subrange(0, end as int) =~= views(out@));
    join(&out, 0, end, "/")
}

// ---------------------------------------------------------------------------
// Signatures

/// The headers that a signature covers.
pub const SIGNED_HEADERS: &'static str = "host;x-amz-content-sha256;x-amz-date";

/// The request in the form that is signed.
pub open spec fn canonical_request(
    config: MinioConfig,
    method: Seq<char>,
    uri: Seq<char>,
    payload: Seq<u8>,
    amz_date: Seq<char>,
) -> Seq<char> {
    let hash = hex(sha256(payload));
    let headers = "host:"@ + endpoint_host(config.endpoint@) + "\nx-amz-content-sha256:"@ + hash
        + "\nx-amz-date:"@ + amz_date + "\n"@;
    method + "\n"@ + encoded_path(uri) + "\n\n"@ + headers + "\n"@ + SIGNED_HEADERS@ + "\n"@ + hash
}

/// What a signature is valid for: a day, a region and a service.
pub open spec fn credential_scope(config: MinioConfig, date_stamp: Seq<char>) -> Seq<char> {
    date_stamp + "/"@ + endpoint_region(config.endpoint@) + "/s3/aws4_request"@
}

/// The text that is signed.
pub open spec fn string_to_sign(
    config: MinioConfig,
    request: Seq<char>,
    amz_date: Seq<char>,
    date_stamp: Seq<char>,
) -> Seq<char> {
    "AWS4-HMAC-SHA256\n"@ + amz_date + "\n"@ + credential_scope(config, date_stamp) + "\n"@ + hex(
        sha256(encode_utf8(request)),
    )
}

/// The key of a day, a region and a service.
pub open spec fn signing_key(config: MinioConfig, date_stamp: Seq<char>) -> Seq<u8> {
    let of_date = hmac_code(encode_utf8("AWS4"@ + config.secret_key@), encode_utf8(date_stamp));
    let of_region = hmac_code(of_date, encode_utf8(endpoint_region(config.endpoint@)));
    let of_service = hmac_code(of_region, encode_utf8("s3"@));
    hmac_code(of_service, encode_utf8("aws4_request"@))
}

/// The header that carries the signature of a request.
pub open spec fn authorization(
    config: MinioConfig,
    method: Seq<char>,
    uri: Seq<char>,
    payload: Seq<u8>,
    amz_date: Seq<char>,
    date_stamp: Seq<char>,
) -> Seq<char> {
    let request = canonical_request(config, method, uri, payload, amz_date);
    let text = string_to_sign(config, request, amz_date, date_stamp);
    let signature = hex(hmac_code(signing_key(config, date_stamp), encode_utf8(text)));
    "AWS4-HMAC-SHA256 Credential="@ + config.access_key@ + "/"@ + credential_scope(
        config,
        date_stamp,
    ) + ", SignedHeaders="@ + SIGNED_HEADERS@ + ", Signature="@ + signature
}

/// The headers that a request must carry.
#[derive(Debug)]
pub struct SignedHeaders {
    pub authorization: String,
    pub amz_date: String,
    pub payload_hash: String,
}

fn request_text(
    config: &MinioConfig,
    method: &str,
    uri: &str,
    payload: &[u8],
    amz_date: &str,
) -> (r: String)
    ensures
        r@ == canonical_request(*config, method@, uri@, payload@, amz_date@),
{
    let hash: String = sha256_hex(payload);
    let mut headers: String = cat5(
        "host:",
        &host_from_endpoint(&config.endpoint),
        "\nx-amz-content-sha256:",
        &hash,
        "\nx-amz-date:",
    );
    headers.append(amz_date);
    headers.append("\n");
    let mut out: String = cat5(method, "\n", &encode_path(uri), "\n\n", &headers);
    out.append("\n");
    out.append(SIGNED_HEADERS);
    out.append("\n");
    out.append(&hash);
    out
}

fn scope_text(config: &MinioConfig, date_stamp: &str) -> (r: String)
    ensures
        r@ == credential_scope(*config, date_stamp@),
{
    cat4(date_stamp, "/", &region_from_endpoint(&config.endpoint), "/s3/aws4_request")
}

fn key_bytes(config: &MinioConfig, date_stamp: &str) -> (r: Vec<u8>)
    ensures
        r@ == signing_key(*config, date_stamp@),
{
    let secret: String = cat2("AWS4", &config.secret_key);
    let of_date: Vec<u8> = hmac_sha256(secret.as_str().as_bytes(), date_stamp.as_bytes());
    let region: String = region_from_endpoint(&config.endpoint);
    let of_region: Vec<u8> = hmac_sha256(&of_date, region.as_str().as_bytes());
    let of_service: Vec<u8> = hmac_sha256(&of_region, "s3".as_bytes());
    hmac_sha256(&of_service, "aws4_request".as_bytes())
}

/// Signs a request, given the time of it as a time stamp and as a day.
pub fn sign_at(
    config: &MinioConfig,
    method: &str,
    canonical_uri: &str,
    payload: &[u8],
    amz_date: &str,
    date_stamp: &str,
) -> (r: SignedHeaders)
    ensures
        r.authorization@ == authorization(
            *config,
            method@,
            canonical_uri@,
            payload@,
            amz_date@,
            date_stamp@,
        ),
        r.amz_date@ == amz_date@,
        r.payload_hash@ == hex(sha256(payload@)),
{
    let request: String = request_text(config, method, canonical_uri, payload, amz_date);
    let scope: String = scope_text(config, date_stamp);
    let mut text: String = cat5("AWS4-HMAC-SHA256\n", amz_date, "\n", &scope, "\n");
    text.append(&sha256_hex(request.as_str().as_bytes()));
    let code: Vec<u8> = hmac_sha256(&key_bytes(config, date_stamp), text.as_str().as_bytes());
    let mut header: String = cat5(
        "AWS4-HMAC-SHA256 Credential=",
        &config.access_key,
        "/",
        &scope,
        ", SignedHeaders=",
    );
    header.append(SIGNED_HEADERS);
    header.append(", Signature=");
    header.append(&hex_string(&code));
    SignedHeaders {
        authorization: header,
        amz_date: amz_date.to_owned(),
        payload_hash: sha256_hex(payload),
    }
}

/// Signs a request that is made at a second: seconds count from 1970. There is no
/// signature for a time that has no date.
pub fn sign_s3_request(
    config: &MinioConfig,
    method: &str,
    canonical_uri: &str,
    payload: &[u8],
    secs: i64,
) -> (r: Option<SignedHeaders>)
    ensures
        match (utc_formatted(secs, STAMP@), utc_formatted(secs, DAY@)) {
            (Some(amz_date), Some(date_stamp)) => {
                &&& r is Some
                &&& r->0.authorization@ == authorization(
                    *config,
                    method@,
                    canonical_uri@,
                    payload@,
                    amz_date,
                    date_stamp,
                )
                &&& r->0.amz_date@ == amz_date
                &&& r->0.payload_hash@ == hex(sha256(payload@))
            },
            _ => r is None,
        },
{
    match (format_utc(secs, STAMP), format_utc(secs, DAY)) {
        (Some(amz_date), Some(date_stamp)) => Some(
            sign_at(config, method, canonical_uri, payload, &amz_date, &date_stamp),
        ),
        _ => None,
    }
}

// ---------------------------------------------------------------------------
// The cache

/// A cache of replies in files, and maybe in an object store.
#[derive(Debug)]
pub struct FileCache {
    pub enricher_name: String,
    /// For how many seconds a file is good.
    pub ttl_secs: u64,
    pub minio: Option<MinioConfig>,
}

/// Where a lookup stands.
#[derive(Debug, Clone, Copy, PartialEq, Eq, Structural)]
pub enum CacheLookup {
    /// The file is to be read.
    AwaitLocal,
    /// The object store is to be asked.
    AwaitRemote,
    /// There is a value, which is to be stored in the file where it is not from there.
    Found { store: bool },
    Missing,
}

/// The file is tried first, then the object store where there is one.
pub open spec fn next_lookup(remote: bool, s: CacheLookup, found: bool) -> CacheLookup {
    match s {
        CacheLookup::AwaitLocal => if found {
            CacheLookup::Found { store: false }
        } else if remote {
            CacheLookup::AwaitRemote
        } else {
            CacheLookup::Missing
        },
        CacheLookup::AwaitRemote => if found {
            CacheLookup::Found { store: true }
        } else {
            CacheLookup::Missing
        },
        _ => s,
    }
}

/// The name of the file of a key: the SHA-256 digest of the key.
pub open spec fn file_name_of(key: Seq<char>) -> Seq<char> {
    hex(sha256(encode_utf8(key))) + ".json"@
}

/// The name of the object of a key.
pub open spec fn object_name_of(enricher: Seq<char>, key: Seq<char>) -> Seq<char> {
    "cache/"@ + enricher + "/"@ + file_name_of(key)
}

/// A request for an object: where it goes, and the path that is signed.
#[derive(Debug)]
pub struct ObjectAddress {
    pub url: String,
    pub canonical_uri: String,
}

pub fn file_name(key: &str) -> (r: String)
    ensures
        r@ == file_name_of(key@),
{
    cat2(&sha256_hex(key.as_bytes()), ".json")
}

impl FileCache {
    pub fn new(enricher_name: String, ttl_hours: u64, minio: Option<MinioConfig>) -> (r: Self)
        requires
            ttl_hours * 3600 <= u64::MAX,
        ensures
            r.enricher_name == enricher_name,
            r.ttl_secs == ttl_hours * 3600,
            r.minio == minio,
    {
        FileCache { enricher_name, ttl_secs: ttl_hours * 3600, minio }
    }

    /// Whether a file of some age is too old.
    pub fn is_expired(&self, age_secs: u64, age_nanos: u32) -> (r: bool)
        requires
            age_nanos < 1000000000,
        ensures
            r == (age_secs * 1000000000 + age_nanos > self.ttl_secs * 1000000000),
    {
        age_secs > self.ttl_secs || (age_secs == self.ttl_secs && age_nanos > 0)
    }

    /// Goes on with a lookup, given whether what was asked for was found.
    pub fn get(&self, s: CacheLookup, found: bool) -> (r: CacheLookup)
        ensures
            r == next_lookup(self.minio is Some, s, found),
    {
        match s {
            CacheLookup::AwaitLocal => if found {
                CacheLookup::Found { store: false }
            } else if self.minio.is_some() {
                CacheLookup::AwaitRemote
            } else {
                CacheLookup::Missing
            },
            CacheLookup::AwaitRemote => if found {
                CacheLookup::Found { store: true }
            } else {
                CacheLookup::Missing
            },
            _ => s,
        }
    }

    /// The object of a key.
    pub fn minio_key(&self, key: &str) -> (r: String)
        ensures
            r@ == object_name_of(self.enricher_name@, key@),
    {
        cat4("cache/", &self.enricher_name, "/", &file_name(key))
    }

    /// Where the object of a key is in a store.
    pub fn object_address(&self, config: &MinioConfig, key: &str) -> (r: ObjectAddress)
        ensures
            r.url@ == config.endpoint@ + "/"@ + config.bucket@ + "/"@ + object_name_of(
                self.enricher_name@,
                key@,
            ),
            r.canonical_uri@ == "/"@ + config.bucket@ + "/"@ + object_name_of(
                self.enricher_name@,
                key@,
            ),
    {
        let object: String = self.minio_key(key);
        ObjectAddress {
            url: cat5(&config.endpoint, "/", &config.bucket, "/", &object),
            canonical_uri: cat4("/", &config.bucket, "/", &object),
        }
    }
}

/// A lookup asks the object store only after the file, only where there is a store,
/// and ends after at most two answers.
pub proof fn lemma_lookup_order(remote: bool, first: bool, second: bool)
    ensures
        next_lookup(remote, CacheLookup::AwaitLocal, first) == CacheLookup::AwaitRemote <==> !first
            && remote,
        ({
            let s = next_lookup(
                remote,
                next_lookup(remote, CacheLookup::AwaitLocal, first),
                second,
            );
            &&& s is Found || s is Missing
            &&& s is Found <==> first || (remote && second)
            &&& s == (CacheLookup::Found { store: true }) <==> !first && remote && second
        }),
{
}

} // verus!
