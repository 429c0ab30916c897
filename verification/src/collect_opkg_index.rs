//! Binary packages of OpenWrt, from the indexes of its feeds.

use crate::archive::{gunzip_lines, gunzipped_lines, GzLines};
use crate::failure::{
    invalid, invalid_data, unreadable, unreadable_data, CollectError, Failure,
};
use crate::ntriples::{link, literal, number_if, pkg, typed, xsd, NTriplesWriter, Sheet, PKG, XSD};
use crate::number::{i64_value, integer, integer_of, parse_i64};
use crate::split::{
    pieces, split, split_words, trim, trim_start_char, trimmed, trimmed_start_char, words, Sep,
};
use crate::text::{
    before, cat2, cat5, cut_once, empty, has_prefix, head, lemma_views_empty, opt, split_once,
    starts_with, views,
};
use crate::textmap::{field, field_maps, lemma_field_maps_push, Fields, TextMap};
use crate::uris::{
    arch_iri, arch_uri, identity_iri, package_identity_uri, package_iri, package_uri, OPENWRT,
    RDF_TYPE,
};
use vstd::prelude::*;

verus! {

broadcast use crate::text::lemma_views_push;

/// A collector of the feeds of one release and architecture.
pub struct OpkgIndexCollector {
    pub distro_name: String,
    pub release_name: String,
    pub release_url: String,
    pub arch: String,
}

/// The feeds of a release, in the order in which they are read.
pub open spec fn feed_names() -> Seq<Seq<char>> {
    seq!["packages"@, "luci"@, "routing"@, "telephony"@, "base"@]
}

pub fn feeds() -> (r: Vec<String>)
    ensures
        views(r@) == feed_names(),
{
    let mut v: Vec<String> = Vec::new();
    v.push("packages".to_owned());
    v.push("luci".to_owned());
    v.push("routing".to_owned());
    v.push("telephony".to_owned());
    v.push("base".to_owned());
    assert(views(v@) =~= feed_names());
    v
}

/// Where the index of a feed is.
pub open spec fn feed_address(c: OpkgIndexCollector, feed: Seq<char>) -> Seq<char> {
    c.release_url@ + "/packages/"@ + c.arch@ + "/"@ + feed + "/Packages.gz"@
}

// ---------------------------------------------------------------------------
// Statements

/// The words in the first `n` parts of a list of dependencies, up to the version of
/// each part.
pub open spec fn needs_in(parts: Seq<Seq<char>>, n: nat) -> Seq<Seq<char>>
    decreases n,
{
    if n == 0 {
        Seq::empty()
    } else {
        needs_in(parts, (n - 1) as nat) + words(before(parts[n - 1], "("@), Sep::Blank)
    }
}

/// The entries of a list of dependencies, which commas and white space separate. A
/// version in brackets is left out.
pub open spec fn need_entries(list: Seq<char>) -> Seq<Seq<char>> {
    let parts = pieces(list, Sep::Is(','));
    needs_in(parts, parts.len())
}

fn entries_of_needs(list: &str) -> (r: Vec<String>)
    ensures
        views(r@) == need_entries(list@),
{
    let parts: Vec<String> = split(list, &Sep::Is(','));
    let ghost all = views(parts@);
    let mut out: Vec<String> = Vec::new();
    let mut i: usize = 0;
    proof {
        lemma_views_empty();
    }
    while i < parts.len()
        invariant
            i <= parts.len(),
            all == views(parts@),
            views(out@) == needs_in(all, i as nat),
        decreases parts.len() - i,
    {
        assert(all[i as int] == parts@[i as int]@);
        let mut more: Vec<String> = split_words(&head(&parts[i], "("), &Sep::Blank);
        let ghost was = out@;
        let ghost got = more@;
        out.append(&mut more);
        assert(views(was + got) =~= views(was) + views(got));
        i = i + 1;
    }
    out
}

/// The name in a dependency: without the sign that it is required.
pub open spec fn needed_name(raw: Seq<char>) -> Seq<char> {
    trim_start_char(raw, '+')
}

/// Whether a dependency is one: it is not empty and no conflict.
pub open spec fn is_need(raw: Seq<char>) -> bool {
    needed_name(raw).len() > 0 && !starts_with(needed_name(raw), "-"@)
}

fn name_of_need(raw: &str) -> (r: Option<String>)
    ensures
        opt(r) == (if is_need(raw@) {
            Some(needed_name(raw@))
        } else {
            None
        }),
{
    let dep: String = trimmed_start_char(raw, '+');
    if empty(&dep) || has_prefix(&dep, "-") {
        None
    } else {
        Some(dep)
    }
}

/// One dependency of a package.
pub open spec fn with_need(
    w: Sheet,
    c: OpkgIndexCollector,
    package: Seq<char>,
    arch: Seq<char>,
    raw: Seq<char>,
) -> Sheet {
    let w = match if is_need(raw) { Some(needed_name(raw)) } else { None } {
        Some(name) => {
            link(
                w,
                package,
                pkg("directlyDependsOn"@),
                identity_iri(c.distro_name@, c.release_name@, arch, name),
            )
        },
        None => w,
    };
    w
}

/// The first `n` of `items`, in order.
pub open spec fn with_each_need(
    w: Sheet,
    c: OpkgIndexCollector,
    package: Seq<char>,
    arch: Seq<char>,
    items: Seq<Seq<char>>,
    n: nat,
) -> Sheet
    decreases n,
{
    if n == 0 {
        w
    } else {
        with_need(
            with_each_need(w, c, package, arch, items, (n - 1) as nat),
            c,
            package,
            arch,
            items[n - 1],
        )
    }
}

impl OpkgIndexCollector {
    /// One dependency of a package.
    pub fn emit_need(
        &self,
        writer: &mut NTriplesWriter,
        package: &str,
        arch: &str,
        raw: &str,
    ) -> (r: usize)
        ensures
            final(writer)@ == with_need(old(writer)@, *self, package@, arch@, raw@),
            r == final(writer)@.log.len() - old(writer)@.log.len(),
    {
        let start: usize = writer.len();
        if let Some(name) = name_of_need(raw) {
            writer.write_triple(
                package,
                &cat2(PKG, "directlyDependsOn"),
                &package_identity_uri(&self.distro_name, &self.release_name, arch, &name),
            );
        }
        writer.len() - start
    }
}

/// The architecture of a package, that of the collector where it has none.
pub open spec fn package_arch(
    c: OpkgIndexCollector,
    fields: Map<Seq<char>,
    Seq<char>>,
) -> Seq<char> {
    match field(fields, "Architecture"@) {
        Some(a) => a,
        None => c.arch@,
    }
}

impl OpkgIndexCollector {
    fn arch_of(&self, fields: &Fields) -> (r: String)
        ensures
            r@ == package_arch(*self, fields@),
    {
        match fields.get("Architecture") {
            Some(a) => a.clone(),
            None => self.arch.clone(),
        }
    }
}

/// Architecture, checksum, sizes and file of a package.
pub open spec fn with_binary_details(
    w: Sheet,
    package: Seq<char>,
    fields: Map<Seq<char>,
    Seq<char>>,
) -> Sheet {
    let w = match field(fields, "Architecture"@) {
        Some(arch) => {
            let node = arch_iri(arch);
            let w = link(w, package, pkg("targetArchitecture"@), node);
            let w = link(w, node, RDF_TYPE@, pkg("Architecture"@));
            literal(w, node, pkg("architectureName"@), arch)
        },
        None => w,
    };
    let w = match field(fields, "SHA256sum"@) {
        Some(sum) => {
            let node = package + "#sha256"@;
            let w = link(w, package, pkg("hasChecksum"@), node);
            let w = link(w, node, RDF_TYPE@, pkg("Checksum"@));
            let w = literal(w, node, pkg("checksumAlgorithm"@), "SHA256"@);
            literal(w, node, pkg("checksumValue"@), sum)
        },
        None => w,
    };
    let w = match field(fields, "Installed-Size"@) {
        Some(size) => {
            number_if(w, package, OPENWRT@ + "installedSize"@, i64_value(size))
        },
        None => w,
    };
    let w = match field(fields, "Size"@) {
        Some(size) => {
            let w = match i64_value(size) {
                Some(n) => {
                    let text = integer(n as int);
                    typed(w, package, pkg("packageSize"@), text, xsd("long"@))
                },
                None => w,
            };
            w
        },
        None => w,
    };
    let w = match field(fields, "Filename"@) {
        Some(file) => {
            literal(w, package, OPENWRT@ + "opkgFilename"@, file)
        },
        None => w,
    };
    w
}

/// Architecture, checksum, sizes and file of a package.
pub fn emit_binary_details(
    writer: &mut NTriplesWriter,
    package: &str,
    fields: &Fields,
) -> (r: usize)
    ensures
        final(writer)@ == with_binary_details(old(writer)@, package@, fields@),
        r == final(writer)@.log.len() - old(writer)@.log.len(),
{
    let start: usize = writer.len();
    if let Some(arch) = fields.get("Architecture") {
        let node: String = arch_uri(arch);
        writer.write_triple(package, &cat2(PKG, "targetArchitecture"), &node);
        writer.write_triple(&node, RDF_TYPE, &cat2(PKG, "Architecture"));
        writer.write_literal(&node, &cat2(PKG, "architectureName"), arch);
    }
    if let Some(sum) = fields.get("SHA256sum") {
        let node: String = cat2(package, "#sha256");
        writer.write_triple(package, &cat2(PKG, "hasChecksum"), &node);
        writer.write_triple(&node, RDF_TYPE, &cat2(PKG, "Checksum"));
        writer.write_literal(&node, &cat2(PKG, "checksumAlgorithm"), "SHA256");
        writer.write_literal(&node, &cat2(PKG, "checksumValue"), sum);
    }
    if let Some(size) = fields.get("Installed-Size") {
        writer.write_integer_if(package, &cat2(OPENWRT, "installedSize"), parse_i64(size));
    }
    if let Some(size) = fields.get("Size") {
        if let Some(n) = parse_i64(size) {
            let text: String = integer_of(n);
            writer.write_typed_literal(
                package,
                &cat2(PKG, "packageSize"),
                &text,
                &cat2(XSD, "long"),
            );
        }
    }
    if let Some(file) = fields.get("Filename") {
        writer.write_literal(package, &cat2(OPENWRT, "opkgFilename"), file);
    }
    writer.len() - start
}

/// Everything that the record of a package gives, given its name and version.
#[verifier::opaque]
pub open spec fn with_named_binary(
    w: Sheet,
    c: OpkgIndexCollector,
    fields: Map<Seq<char>,
    Seq<char>>,
    sources: Map<Seq<char>,
    Seq<char>>,
    name: Seq<char>,
    version: Seq<char>,
) -> Sheet {
    let arch = package_arch(c, fields);
    let package = package_iri(c.distro_name@, c.release_name@, arch, name, version);
    let identity = identity_iri(c.distro_name@, c.release_name@, arch, name);
    let w = link(w, package, RDF_TYPE@, OPENWRT@ + "BinaryIPK"@);
    let w = literal(w, package, pkg("packageName"@), name);
    let w = link(w, identity, RDF_TYPE@, pkg("PackageIdentity"@));
    let w = literal(w, identity, pkg("packageName"@), name);
    let w = link(w, package, pkg("isVersionOf"@), identity);
    let w = with_built_from(w, package, sources, name);
    let w = with_binary_details(w, package, fields);
    let w = match field(fields, "Depends"@) {
        Some(depends) => {
            let entries = need_entries(depends);
            with_each_need(w, c, package, arch, entries, entries.len())
        },
        None => w,
    };
    w
}

impl OpkgIndexCollector {
    /// Everything that the record of a package gives, given its name and version.
    pub fn emit_named_binary(
        &self,
        writer: &mut NTriplesWriter,
        fields: &Fields,
        sources: &Fields,
        name: &str,
        version: &str,
    ) -> (r: usize)
        ensures
            final(writer)@ == with_named_binary(
                old(writer)@,
                *self,
                fields@,
                sources@,
                name@,
                version@,
            ),
            r == final(writer)@.log.len() - old(writer)@.log.len(),
            r >= 1,
    {
        proof {
            reveal(with_named_binary);
        }
        let start: usize = writer.len();
        let arch: String = self.arch_of(fields);
        let package: String = package_uri(
            &self.distro_name,
            &self.release_name,
            &arch,
            name,
            version,
        );
        let identity: String = package_identity_uri(
            &self.distro_name,
            &self.release_name,
            &arch,
            name,
        );
        writer.write_triple(&package, RDF_TYPE, &cat2(OPENWRT, "BinaryIPK"));
        writer.write_literal(&package, &cat2(PKG, "packageName"), name);
        writer.write_triple(&identity, RDF_TYPE, &cat2(PKG, "PackageIdentity"));
        writer.write_literal(&identity, &cat2(PKG, "packageName"), name);
        writer.write_triple(&package, &cat2(PKG, "isVersionOf"), &identity);
        emit_built_from(writer, &package, sources, name);
        emit_binary_details(writer, &package, fields);
        if let Some(depends) = fields.get("Depends") {
            let entries: Vec<String> = entries_of_needs(depends);
            let ghost before_need = writer@;
            let mut i: usize = 0;
            while i < entries.len()
                invariant
                    i <= entries.len(),
                    before_need.log.len() <= writer@.log.len(),
                    writer@ == with_each_need(
                        before_need,
                        *self,
                        package@,
                        arch@,
                        views(entries@),
                        i as nat,
                    ),
                decreases entries.len() - i,
            {
                self.emit_need(writer, &package, &arch, &entries[i]);
                i = i + 1;
            }
        }
        writer.len() - start
    }
}

/// The source that a package was built from, where it is known.
pub open spec fn with_built_from(
    w: Sheet,
    package: Seq<char>,
    sources: Map<Seq<char>, Seq<char>>,
    name: Seq<char>,
) -> Sheet {
    match field(sources, name) {
        Some(source) => link(w, package, pkg("builtFromSource"@), source),
        None => w,
    }
}

fn emit_built_from(writer: &mut NTriplesWriter, package: &str, sources: &Fields, name: &str) -> (r:
    usize)
    ensures
        final(writer)@ == with_built_from(old(writer)@, package@, sources@, name@),
        r == final(writer)@.log.len() - old(writer)@.log.len(),
{
    match sources.get(name) {
        Some(source) => {
            writer.write_triple(package, &cat2(PKG, "builtFromSource"), source);
            1
        },
        None => 0,
    }
}

// ---------------------------------------------------------------------------
// Indexes

/// What reading indexes has come to: the statements, the packages by checksum and
/// their number.
#[verifier::ext_equal]
pub struct OpkgState {
    pub sheet: Sheet,
    pub digests: Map<Seq<char>, Seq<char>>,
    pub count: nat,
}

/// Why the record of a package cannot be used.
pub open spec fn binary_error(fields: Map<Seq<char>, Seq<char>>) -> Option<Failure> {
    if !fields.contains_key("Package"@) {
        Some(invalid_data("Missing Package field"@))
    } else if !fields.contains_key("Version"@) {
        Some(invalid_data("Missing Version field"@))
    } else {
        None
    }
}

/// The digests with that of a package added, where it has one.
pub open spec fn digest_added(
    digests: Map<Seq<char>, Seq<char>>,
    c: OpkgIndexCollector,
    fields: Map<Seq<char>, Seq<char>>,
) -> Map<Seq<char>, Seq<char>> {
    match field(fields, "SHA256sum"@) {
        Some(sum) => digests.insert(
            "sha256:"@ + sum,
            package_iri(
                c.distro_name@,
                c.release_name@,
                package_arch(c, fields),
                fields["Package"@],
                fields["Version"@],
            ),
        ),
        None => digests,
    }
}

/// The state after one more package.
pub open spec fn package_added(
    s: OpkgState,
    c: OpkgIndexCollector,
    sources: Map<Seq<char>, Seq<char>>,
    fields: Map<Seq<char>, Seq<char>>,
) -> OpkgState {
    OpkgState {
        sheet: with_named_binary(
            s.sheet,
            c,
            fields,
            sources,
            fields["Package"@],
            fields["Version"@],
        ),
        digests: digest_added(s.digests, c, fields),
        count: s.count + 1,
    }
}

/// The state after the packages from `i` on, and why reading stopped, where it
/// did.
pub open spec fn packages_added(
    s: OpkgState,
    c: OpkgIndexCollector,
    sources: Map<Seq<char>, Seq<char>>,
    records: Seq<Map<Seq<char>, Seq<char>>>,
    i: int,
) -> (OpkgState, Option<Failure>)
    decreases records.len() - i,
{
    if i < 0 || i >= records.len() {
        (s, None)
    } else {
        match binary_error(records[i]) {
            Some(e) => (s, Some(e)),
            None => packages_added(
                package_added(s, c, sources, records[i]),
                c,
                sources,
                records,
                i + 1,
            ),
        }
    }
}

/// Records read so far, and the record that is being read.
pub open spec fn stanza_state(lines: Seq<Seq<char>>, n: nat) -> (
    Seq<Map<Seq<char>, Seq<char>>>,
    Map<Seq<char>, Seq<char>>,
)
    decreases n,
{
    if n == 0 {
        (Seq::empty(), Map::empty())
    } else {
        let (done, current) = stanza_state(lines, (n - 1) as nat);
        let line = lines[n - 1];
        if trim(line).len() == 0 {
            if current == Map::<Seq<char>, Seq<char>>::empty() {
                (done, current)
            } else {
                (done.push(current), Map::empty())
            }
        } else {
            match split_once(line, ":"@) {
                Some(kv) => (done, current.insert(kv.0, trim(kv.1))),
                None => (done, current),
            }
        }
    }
}

/// The records in the lines of an index: runs of `field: value` lines, separated
/// by blank lines. A record that is not ended by a blank line counts where the
/// lines are complete.
pub open spec fn stanzas(lines: Seq<Seq<char>>, complete: bool) -> Seq<Map<Seq<char>, Seq<char>>> {
    let (done, current) = stanza_state(lines, lines.len());
    if !complete || current == Map::<Seq<char>, Seq<char>>::empty() {
        done
    } else {
        done.push(current)
    }
}

/// Parses the lines of an index.
pub fn parse_stanzas(lines: &Vec<String>, complete: bool) -> (r: Vec<Fields>)
    ensures
        field_maps(r@) == stanzas(views(lines@), complete),
{
    let mut records: Vec<Fields> = Vec::new();
    let mut current: Fields = TextMap::new();
    let mut i: usize = 0;
    let ghost texts = views(lines@);
    assert(field_maps(records@) =~= Seq::empty());
    while i < lines.len()
        invariant
            i <= lines.len(),
            texts == views(lines@),
            (field_maps(records@), current@) == stanza_state(texts, i as nat),
        decreases lines.len() - i,
    {
        assert(texts[i as int] == lines@[i as int]@);
        if empty(&trimmed(&lines[i])) {
            if !current.is_empty() {
                proof {
                    lemma_field_maps_push(records@, current);
                }
                records.push(current);
                current = TextMap::new();
            }
        } else if let Some((key, value)) = cut_once(&lines[i], ":") {
            current.insert(key, trimmed(&value));
        }
        i = i + 1;
    }
    if complete && !current.is_empty() {
        proof {
            lemma_field_maps_push(records@, current);
        }
        records.push(current);
    }
    records
}

/// What reading an index comes to: the state, and why reading stopped, where it
/// did.
pub open spec fn index_read(
    s: OpkgState,
    c: OpkgIndexCollector,
    sources: Map<Seq<char>, Seq<char>>,
    lines: Seq<Seq<char>>,
    error: Option<Seq<char>>,
) -> (OpkgState, Option<Failure>) {
    let (t, stopped) = packages_added(s, c, sources, stanzas(lines, error is None), 0);
    match stopped {
        Some(e) => (t, Some(e)),
        None => match error {
            Some(e) => (t, Some(unreadable_data(e))),
            None => (t, None),
        },
    }
}

/// What a request for the index of a feed returned.
pub enum FeedReply {
    Bytes(Vec<u8>),
    /// Not every release has every feed.
    NotFound,
    Failed(CollectError),
}

/// What reading the feeds from `i` on comes to.
pub open spec fn feeds_read(
    s: OpkgState,
    c: OpkgIndexCollector,
    sources: Map<Seq<char>, Seq<char>>,
    replies: Seq<FeedReply>,
    i: int,
) -> (OpkgState, Option<Failure>)
    decreases replies.len() - i,
{
    if i < 0 || i >= replies.len() {
        (s, None)
    } else {
        match replies[i] {
            FeedReply::NotFound => feeds_read(s, c, sources, replies, i + 1),
            FeedReply::Failed(e) => (s, Some(e@)),
            FeedReply::Bytes(bytes) => {
                let (lines, error) = gunzipped_lines(bytes@);
                let (t, stopped) = index_read(s, c, sources, lines, error);
                match stopped {
                    Some(e) => (t, Some(e)),
                    None => feeds_read(t, c, sources, replies, i + 1),
                }
            },
        }
    }
}

impl OpkgIndexCollector {
    pub fn new(
        distro_name: String,
        release_name: String,
        release_url: String,
        arch: String,
    ) -> (r: Self)
        ensures
            r.distro_name == distro_name,
            r.release_name == release_name,
            r.release_url == release_url,
            r.arch == arch,
    {
        OpkgIndexCollector { distro_name, release_name, release_url, arch }
    }

    pub fn feed_url(&self, feed: &str) -> (r: String)
        ensures
            r@ == feed_address(*self, feed@),
    {
        let mut url: String = cat5(&self.release_url, "/packages/", &self.arch, "/", feed);
        url.append("/Packages.gz");
        url
    }

    /// Emits a package, and keeps its identifier under its checksum.
    pub fn emit_binary_package(
        &self,
        writer: &mut NTriplesWriter,
        fields: &Fields,
        identity_map: &Fields,
        digest_map: &mut Fields,
    ) -> (r: Result<usize, CollectError>)
        ensures
            match binary_error(fields@) {
                Some(e) => r is Err && r->Err_0@ == e && final(writer)@ == old(writer)@
                    && final(digest_map)@ == old(digest_map)@,
                None => r is Ok && final(writer)@ == with_named_binary(
                    old(writer)@,
                    *self,
                    fields@,
                    identity_map@,
                    fields@["Package"@],
                    fields@["Version"@],
                ) && final(digest_map)@ == digest_added(old(digest_map)@, *self, fields@) && r->Ok_0
                    == final(writer)@.log.len() - old(writer)@.log.len() && r->Ok_0 >= 1,
            },
    {
        let name: &String = match fields.get("Package") {
            Some(n) => n,
            None => {
                return Err(invalid("Missing Package field".to_owned()));
            },
        };
        let version: &String = match fields.get("Version") {
            Some(v) => v,
            None => {
                return Err(invalid("Missing Version field".to_owned()));
            },
        };
        let n: usize = self.emit_named_binary(writer, fields, identity_map, name, version);
        if let Some(sum) = fields.get("SHA256sum") {
            let package: String = package_uri(
                &self.distro_name,
                &self.release_name,
                &self.arch_of(fields),
                name,
                version,
            );
            digest_map.insert(cat2("sha256:", sum), package);
        }
        Ok(n)
    }

    /// Emits the packages in the lines of an index. `error` says why there are no
    /// more lines, where the index cannot be read to its end.
    pub fn parse_packages_from_reader(
        &self,
        lines: &Vec<String>,
        error: &Option<String>,
        writer: &mut NTriplesWriter,
        identity_map: &Fields,
        digest_map: &mut Fields,
    ) -> (r: Result<usize, CollectError>)
        ensures
            ({
                let s0 = OpkgState { sheet: old(writer)@, digests: old(digest_map)@, count: 0 };
                let (s, stopped) = index_read(
                    s0,
                    *self,
                    identity_map@,
                    views(lines@),
                    opt(*error),
                );
                &&& final(writer)@ == s.sheet
                &&& final(digest_map)@ == s.digests
                &&& final(writer)@.log.len() >= old(writer)@.log.len() + s.count
                &&& match stopped {
                    Some(e) => r is Err && r->Err_0@ == e,
                    None => r is Ok && r->Ok_0 == s.count,
                }
            }),
    {
        let records: Vec<Fields> = parse_stanzas(lines, error.is_none());
        let ghost all = field_maps(records@);
        let ghost s0 = OpkgState { sheet: writer@, digests: digest_map@, count: 0 };
        let mut i: usize = 0;
        while i < records.len()
            invariant
                i <= records.len(),
                all == field_maps(records@),
                all == stanzas(views(lines@), opt(*error) is None),
                s0 == (OpkgState { sheet: old(writer)@, digests: old(digest_map)@, count: 0 }),
                s0.sheet.log.len() + i <= writer@.log.len(),
                packages_added(s0, *self, identity_map@, all, 0) == packages_added(
                    (OpkgState { sheet: writer@, digests: digest_map@, count: i as nat }),
                    *self,
                    identity_map@,
                    all,
                    i as int,
                ),
            decreases records.len() - i,
        {
            assert(all[i as int] == records@[i as int]@);
            match self.emit_binary_package(writer, &records[i], identity_map, digest_map) {
                Ok(_) => {},
                Err(e) => {
                    return Err(e);
                },
            }
            i = i + 1;
        }
        match error {
            Some(e) => Err(unreadable(e.clone())),
            None => Ok(i),
        }
    }

    /// Emits the packages of the feeds, given the reply for each. Returns how many
    /// packages there are, and their identifiers by checksum.
    pub fn collect(
        &self,
        writer: &mut NTriplesWriter,
        identity_map: &Fields,
        replies: &Vec<FeedReply>,
    ) -> (r: Result<(usize, Fields), CollectError>)
        ensures
            ({
                let s0 = OpkgState { sheet: old(writer)@, digests: Map::empty(), count: 0 };
                let (s, stopped) = feeds_read(s0, *self, identity_map@, replies@, 0);
                &&& final(writer)@ == s.sheet
                &&& match stopped {
                    Some(e) => r is Err && r->Err_0@ == e,
                    None => r is Ok && (r->Ok_0).0 == s.count && (r->Ok_0).1@ == s.digests,
                }
            }),
    {
        let mut digests: Fields = TextMap::new();
        let mut count: usize = 0;
        let mut i: usize = 0;
        let ghost s0 = OpkgState { sheet: writer@, digests: digests@, count: 0 };
        while i < replies.len()
            invariant
                i <= replies.len(),
                s0 == (OpkgState { sheet: old(writer)@, digests: Map::empty(), count: 0 }),
                s0.sheet.log.len() + count <= writer@.log.len(),
                feeds_read(s0, *self, identity_map@, replies@, 0) == feeds_read(
                    (OpkgState { sheet: writer@, digests: digests@, count: count as nat }),
                    *self,
                    identity_map@,
                    replies@,
                    i as int,
                ),
            decreases replies.len() - i,
        {
            match &replies[i] {
                FeedReply::NotFound => {},
                FeedReply::Failed(e) => {
                    return Err(e.copied());
                },
                FeedReply::Bytes(bytes) => {
                    let read: GzLines = gunzip_lines(bytes);
                    let ghost s = OpkgState {
                        sheet: writer@,
                        digests: digests@,
                        count: count as nat,
                    };
                    proof {
                        lemma_count_is_relative(
                            s,
                            *self,
                            identity_map@,
                            stanzas(views(read.lines@), read.error is None),
                            0,
                        );
                    }
                    match self.parse_packages_from_reader(
                        &read.lines,
                        &read.error,
                        writer,
                        identity_map,
                        &mut digests,
                    ) {
                        Ok(n) => {
                            let now: usize = writer.len();
                            assert(count + n <= now);
                            count = count + n;
                        },
                        Err(e) => {
                            return Err(e);
                        },
                    }
                },
            }
            i = i + 1;
        }
        Ok((count, digests))
    }
}

proof fn lemma_count_is_relative(
    s: OpkgState,
    c: OpkgIndexCollector,
    sources: Map<Seq<char>, Seq<char>>,
    records: Seq<Map<Seq<char>, Seq<char>>>,
    i: int,
)
    ensures
        ({
            let fresh = OpkgState { count: 0, ..s };
            let (a, e) = packages_added(s, c, sources, records, i);
            let (b, f) = packages_added(fresh, c, sources, records, i);
            &&& e == f
            &&& a.sheet == b.sheet
            &&& a.digests == b.digests
            &&& a.count == s.count + b.count
        }),
    decreases records.len() - i,
{
    if 0 <= i < records.len() && binary_error(records[i]) is None {
        let fresh = OpkgState { count: 0, ..s };
        let next = package_added(s, c, sources, records[i]);
        let other = package_added(fresh, c, sources, records[i]);
        lemma_count_is_relative(next, c, sources, records, i + 1);
        lemma_count_is_relative(other, c, sources, records, i + 1);
        assert(OpkgState { count: 0, ..next } == OpkgState { count: 0, ..other });
    }
}

} // verus!
