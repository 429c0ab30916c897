//! Compressed data and archives.
//!
//! What a decoder makes of some bytes is named, not described.

use flate2::read::{GzDecoder, MultiGzDecoder};
use std::io::{BufRead, BufReader, Read};
use tar::Archive;
use vstd::prelude::*;

verus! {

/// What reading an archive comes upon next.
pub enum TarItem {
    /// An entry with its path, and its content where that is text.
    Entry { path: String, text: Result<String, String> },
    /// The archive cannot be read on.
    Broken(String),
}

/// What a [`TarItem`] says.
pub enum TarEntry {
    Entry { path: Seq<char>, text: Result<Seq<char>, Seq<char>> },
    Broken(Seq<char>),
}

/// The views of the two sides of a result.
pub open spec fn outcome(r: Result<String, String>) -> Result<Seq<char>, Seq<char>> {
    match r {
        Ok(x) => Ok(x@),
        Err(e) => Err(e@),
    }
}

impl View for TarItem {
    type V = TarEntry;

    open spec fn view(&self) -> TarEntry {
        match self {
            TarItem::Entry { path, text } => TarEntry::Entry { path: path@, text: outcome(*text) },
            TarItem::Broken(e) => TarEntry::Broken(e@),
        }
    }
}

pub open spec fn tar_entries(v: Seq<TarItem>) -> Seq<TarEntry> {
    v.map_values(|x: TarItem| x@)
}

/// The bytes of the members of a gzip file, one after another, or what is wrong
/// with it.
pub uninterp spec fn gunzipped(bytes: Seq<u8>) -> Result<Seq<u8>, Seq<char>>;

/// The text in the first member of a gzip file, or what is wrong with it.
pub uninterp spec fn gunzipped_text(bytes: Seq<u8>) -> Result<Seq<char>, Seq<char>>;

/// The lines of the text in the first member of a gzip file, up to its end or to
/// the place where it cannot be read on, and what is wrong there.
pub uninterp spec fn gunzipped_lines(bytes: Seq<u8>) -> (Seq<Seq<char>>, Option<Seq<char>>);

/// What reading a tar archive comes upon, in order.
pub uninterp spec fn tar_listing(bytes: Seq<u8>) -> Seq<TarEntry>;

/// What reading a gzipped tar archive comes upon, in order.
pub uninterp spec fn tar_gz_listing(bytes: Seq<u8>) -> Seq<TarEntry>;

pub open spec fn bytes_outcome(r: Result<Vec<u8>, String>) -> Result<Seq<u8>, Seq<char>> {
    match r {
        Ok(x) => Ok(x@),
        Err(e) => Err(e@),
    }
}

/// `flate2::read::MultiGzDecoder`, read to its end: the result is a function of
/// the bytes.
#[verifier::external_body]
pub(crate) fn gunzip(bytes: &[u8]) -> (r: Result<Vec<u8>, String>)
    ensures
        bytes_outcome(r) == gunzipped(bytes@),
{
    let mut out = Vec::new();
    MultiGzDecoder::new(bytes).read_to_end(&mut out).map_err(|e| e.to_string())?;
    Ok(out)
}

/// `flate2::read::GzDecoder`, read to its end as text: the result is a function
/// of the bytes.
#[verifier::external_body]
pub(crate) fn gunzip_text(bytes: &[u8]) -> (r: Result<String, String>)
    ensures
        outcome(r) == gunzipped_text(bytes@),
{
    let mut out = String::new();
    GzDecoder::new(bytes).read_to_string(&mut out).map_err(|e| e.to_string())?;
    Ok(out)
}

/// Lines that were read, and what stopped the reading before the end.
pub struct GzLines {
    pub lines: Vec<String>,
    pub error: Option<String>,
}

/// `flate2::read::GzDecoder`, read line by line up to its end or its first error:
/// the result is a function of the bytes.
#[verifier::external_body]
pub(crate) fn gunzip_lines(bytes: &[u8]) -> (r: GzLines)
    ensures
        (crate::text::views(r.lines@), crate::text::opt(r.error)) == gunzipped_lines(bytes@),
{
    let mut lines = Vec::new();
    for line in BufReader::new(GzDecoder::new(bytes)).lines() {
        match line {
            Ok(line) => lines.push(line),
            Err(e) => return GzLines { lines, error: Some(e.to_string()) },
        }
    }
    GzLines { lines, error: None }
}

/// `tar::Archive::entries`, each entry with its `path_bytes` and its content read
/// as text: the result is a function of the bytes.
#[verifier::external_body]
pub(crate) fn tar_items(bytes: &[u8]) -> (r: Vec<TarItem>)
    ensures
        tar_entries(r@) == tar_listing(bytes@),
{
    let mut archive = Archive::new(bytes);
    let entries = match archive.entries() {
        Ok(entries) => entries,
        Err(e) => return vec![TarItem::Broken(e.to_string())],
    };
    entries.map(|entry| match entry {
        Ok(mut e) => {
            let path = String::from_utf8_lossy(&e.path_bytes()).to_string();
            let mut text = String::new();
            let read = e.read_to_string(&mut text).map_err(|x| x.to_string());
            TarItem::Entry { path, text: read.map(|_| text) }
        },
        Err(e) => TarItem::Broken(e.to_string()),
    }).collect()
}

/// `tar::Archive::entries` over `flate2::read::GzDecoder`, each entry with its
/// `path_bytes` and its content read as text: the result is a function of the bytes.
#[verifier::external_body]
pub(crate) fn tar_gz_items(bytes: &[u8]) -> (r: Vec<TarItem>)
    ensures
        tar_entries(r@) == tar_gz_listing(bytes@),
{
    let mut archive = Archive::new(GzDecoder::new(bytes));
    let entries = match archive.entries() {
        Ok(entries) => entries,
        Err(e) => return vec![TarItem::Broken(e.to_string())],
    };
    entries.map(|entry| match entry {
        Ok(mut e) => {
            let path = String::from_utf8_lossy(&e.path_bytes()).to_string();
            let mut text = String::new();
            let read = e.read_to_string(&mut text).map_err(|x| x.to_string());
            TarItem::Entry { path, text: read.map(|_| text) }
        },
        Err(e) => TarItem::Broken(e.to_string()),
    }).collect()
}

} // verus!
