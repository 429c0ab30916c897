//! The Chocolatey gallery.

use crate::ntriples::{
    boolean, link, literal, literal_if, number_if, pkg, NTriplesWriter, Sheet, PKG,
};
use crate::number::{decimal, decimal_of, i64_value, parse_i64};
use crate::spec_file::or_empty;
use crate::split::{trim, trim_end_char, trimmed, trimmed_end_char};
use crate::text::{cat2, cat5, empty, opt, same};
use crate::uris::{
    distro_iri, distro_uri, identity_iri, package_identity_uri, package_iri, package_uri,
    release_iri, release_uri, version_iri, version_uri, CHOCO, RDF_TYPE,
};
use crate::xml::{node_views, nodes_of, xml_nodes, Node, XmlNode};
use vstd::prelude::*;

verus! {

/// A package of the gallery.
pub struct ChocolateyPackage {
    pub id: String,
    pub version: String,
    pub title: Option<String>,
    pub description: Option<String>,
    pub authors: Option<String>,
    pub package_hash: Option<String>,
    pub package_hash_algorithm: Option<String>,
    pub download_count: Option<i64>,
    pub version_download_count: Option<i64>,
    pub is_prerelease: bool,
}

/// What a [`ChocolateyPackage`] says.
#[verifier::ext_equal]
pub struct Choco {
    pub id: Seq<char>,
    pub version: Seq<char>,
    pub title: Option<Seq<char>>,
    pub description: Option<Seq<char>>,
    pub authors: Option<Seq<char>>,
    pub package_hash: Option<Seq<char>>,
    pub package_hash_algorithm: Option<Seq<char>>,
    pub download_count: Option<i64>,
    pub version_download_count: Option<i64>,
    pub is_prerelease: bool,
}

impl View for ChocolateyPackage {
    type V = Choco;

    open spec fn view(&self) -> Choco {
        Choco {
            id: self.id@,
            version: self.version@,
            title: crate::text::opt(self.title),
            description: crate::text::opt(self.description),
            authors: crate::text::opt(self.authors),
            package_hash: crate::text::opt(self.package_hash),
            package_hash_algorithm: crate::text::opt(self.package_hash_algorithm),
            download_count: self.download_count,
            version_download_count: self.version_download_count,
            is_prerelease: self.is_prerelease,
        }
    }
}

/// The views of a list of records.
pub open spec fn chocolatey_package_views(v: Seq<ChocolateyPackage>) -> Seq<Choco> {
    v.map_values(|x: ChocolateyPackage| x@)
}

/// A collector of a gallery.
pub struct ChocolateyCollector {
    pub api_url: String,
}

// ---------------------------------------------------------------------------
// The feed

pub open spec fn blank_choco() -> Choco {
    Choco {
        id: Seq::empty(),
        version: Seq::empty(),
        title: None,
        description: None,
        authors: None,
        package_hash: None,
        package_hash_algorithm: None,
        download_count: None,
        version_download_count: None,
        is_prerelease: false,
    }
}

fn blank_package() -> (r: ChocolateyPackage)
    ensures
        r@ == blank_choco(),
{
    let p: ChocolateyPackage = ChocolateyPackage {
        id: String::new(),
        version: String::new(),
        title: None,
        description: None,
        authors: None,
        package_hash: None,
        package_hash_algorithm: None,
        download_count: None,
        version_download_count: None,
        is_prerelease: false,
    };
    assert(p.id@ =~= Seq::empty());
    assert(p.version@ =~= Seq::empty());
    p
}

/// The package with a property set. A property that says nothing of it changes
/// nothing.
pub open spec fn property_set(p: Choco, element: Seq<char>, text: Seq<char>) -> Choco {
    if element == "d:Id"@ {
        Choco { id: text, ..p }
    } else if element == "d:Version"@ {
        Choco { version: text, ..p }
    } else if element == "d:Title"@ {
        Choco { title: Some(text), ..p }
    } else if element == "d:Description"@ {
        Choco { description: Some(text), ..p }
    } else if element == "d:Authors"@ {
        Choco { authors: Some(text), ..p }
    } else if element == "d:PackageHash"@ {
        Choco { package_hash: Some(text), ..p }
    } else if element == "d:PackageHashAlgorithm"@ {
        Choco { package_hash_algorithm: Some(text), ..p }
    } else if element == "d:DownloadCount"@ {
        Choco { download_count: i64_value(text), ..p }
    } else if element == "d:VersionDownloadCount"@ {
        Choco { version_download_count: i64_value(text), ..p }
    } else if element == "d:IsPrerelease"@ {
        Choco { is_prerelease: text == "true"@, ..p }
    } else {
        p
    }
}

fn set_property(p: &mut ChocolateyPackage, element: &str, text: String)
    ensures
        final(p)@ == property_set(old(p)@, element@, text@),
{
    if same(element, "d:Id") {
        p.id = text;
    } else if same(element, "d:Version") {
        p.version = text;
    } else if same(element, "d:Title") {
        p.title = Some(text);
    } else if same(element, "d:Description") {
        p.description = Some(text);
    } else if same(element, "d:Authors") {
        p.authors = Some(text);
    } else if same(element, "d:PackageHash") {
        p.package_hash = Some(text);
    } else if same(element, "d:PackageHashAlgorithm") {
        p.package_hash_algorithm = Some(text);
    } else if same(element, "d:DownloadCount") {
        p.download_count = parse_i64(&text);
    } else if same(element, "d:VersionDownloadCount") {
        p.version_download_count = parse_i64(&text);
    } else if same(element, "d:IsPrerelease") {
        p.is_prerelease = same(&text, "true");
    }
}

/// The state of reading a feed.
#[verifier::ext_equal]
pub struct ODataState {
    pub done: Seq<Choco>,
    pub current: Choco,
    pub in_properties: bool,
    /// The element that was opened last, nothing after one was closed.
    pub element: Seq<char>,
}

pub open spec fn odata_start() -> ODataState {
    ODataState {
        done: Seq::empty(),
        current: blank_choco(),
        in_properties: false,
        element: Seq::empty(),
    }
}

/// The state after one more node.
pub open spec fn odata_step(s: ODataState, node: Node) -> ODataState {
    match node {
        Node::Open { name, attributes, closed } => if closed {
            s
        } else if name == "entry"@ {
            ODataState { element: name, current: blank_choco(), ..s }
        } else if name == "m:properties"@ {
            ODataState { element: name, in_properties: true, ..s }
        } else {
            ODataState { element: name, ..s }
        },
        Node::Close(name) => if name == "entry"@ {
            ODataState {
                done: if s.current.id.len() > 0 {
                    s.done.push(s.current)
                } else {
                    s.done
                },
                current: blank_choco(),
                element: Seq::empty(),
                ..s
            }
        } else if name == "m:properties"@ {
            ODataState { in_properties: false, element: Seq::empty(), ..s }
        } else {
            ODataState { element: Seq::empty(), ..s }
        },
        Node::Text(t) => {
            let text = trim(or_empty(t));
            if s.in_properties && text.len() > 0 {
                ODataState { current: property_set(s.current, s.element, text), ..s }
            } else {
                s
            }
        },
        _ => s,
    }
}

/// The packages in a feed, from node `i` on. Where the feed is not well formed,
/// the packages before that place count.
pub open spec fn odata_from(nodes: Seq<Node>, i: int, s: ODataState) -> Seq<Choco>
    decreases nodes.len() - i,
{
    if i < 0 || i >= nodes.len() || nodes[i] is Failed {
        s.done
    } else {
        odata_from(nodes, i + 1, odata_step(s, nodes[i]))
    }
}

/// Reads the packages out of the nodes of a feed.
pub fn read_odata(nodes: &Vec<XmlNode>) -> (r: Vec<ChocolateyPackage>)
    ensures
        chocolatey_package_views(r@) == odata_from(node_views(nodes@), 0, odata_start()),
{
    let mut done: Vec<ChocolateyPackage> = Vec::new();
    let mut current: ChocolateyPackage = blank_package();
    let mut in_properties: bool = false;
    let mut element: String = String::new();
    let mut i: usize = 0;
    let ghost all = node_views(nodes@);
    assert(chocolatey_package_views(done@) =~= Seq::empty());
    assert(element@ =~= Seq::empty());
    while i < nodes.len()
        invariant
            i <= nodes.len(),
            all == node_views(nodes@),
            odata_from(all, 0, odata_start()) == odata_from(
                all,
                i as int,
                (ODataState {
                    done: chocolatey_package_views(done@),
                    current: current@,
                    in_properties,
                    element: element@,
                }),
            ),
        decreases nodes.len() - i,
    {
        assert(all[i as int] == nodes@[i as int]@);
        match &nodes[i] {
            XmlNode::Failed(_) => {
                return done;
            },
            XmlNode::Open { name, attributes, closed } => {
                if !*closed {
                    element = name.clone();
                    if same(name, "entry") {
                        current = blank_package();
                    } else if same(name, "m:properties") {
                        in_properties = true;
                    }
                }
            },
            XmlNode::Close(name) => {
                if same(name, "entry") {
                    if !empty(&current.id) {
                        proof {
                            assert(chocolatey_package_views(done@.push(current))
                                =~= chocolatey_package_views(done@).push(current@));
                        }
                        done.push(current);
                    }
                    current = blank_package();
                } else if same(name, "m:properties") {
                    in_properties = false;
                }
                element = String::new();
                assert(element@ =~= Seq::empty());
            },
            XmlNode::Text(t) => {
                let raw: String = match t {
                    Some(x) => x.clone(),
                    None => String::new(),
                };
                assert(raw@ == or_empty(opt(*t)));
                let text: String = trimmed(&raw);
                if in_properties && !empty(&text) {
                    set_property(&mut current, &element, text);
                }
            },
            XmlNode::Other => {},
        }
        i = i + 1;
    }
    done
}

/// The address of a page of the gallery.
pub open spec fn page_address(api: Seq<char>, skip: u64, top: u64) -> Seq<char> {
    trim_end_char(api, '/') + "/Packages()?$filter=IsLatestVersion eq true&$top="@ + decimal(
        top as nat,
    ) + "&$skip="@ + decimal(skip as nat) + "&$orderby=Id"@
}

impl ChocolateyCollector {
    pub fn new(api_url: String) -> (r: Self)
        ensures
            r.api_url == api_url,
    {
        ChocolateyCollector { api_url }
    }

    /// How many packages to skip after a page with so many. An empty page is the last
    /// one.
    pub fn next_skip(skip: u64, found: usize) -> (r: Option<u64>)
        ensures
            r == if found == 0 || skip + found > u64::MAX {
                None
            } else {
                Some((skip + found) as u64)
            },
    {
        if found == 0 {
            None
        } else {
            skip.checked_add(found as u64)
        }
    }

    pub fn page_url(&self, skip: u64, top: u64) -> (r: String)
        ensures
            r@ == page_address(self.api_url@, skip, top),
    {
        let mut url: String = cat5(
            &trimmed_end_char(&self.api_url, '/'),
            "/Packages()?$filter=IsLatestVersion eq true&$top=",
            &decimal_of(top),
            "&$skip=",
            &decimal_of(skip),
        );
        url.append("&$orderby=Id");
        url
    }

    /// Reads the packages out of a page of the gallery.
    pub fn parse_odata_feed(&self, xml: &str) -> (r: Vec<ChocolateyPackage>)
        ensures
            chocolatey_package_views(r@) == odata_from(nodes_of(xml@), 0, odata_start()),
    {
        read_odata(&xml_nodes(xml))
    }
}

// ---------------------------------------------------------------------------
// Statements

/// The gallery as a distribution, and its one release.
pub open spec fn with_distribution_metadata(w: Sheet, c: ChocolateyCollector) -> Sheet {
    let dist = distro_iri("chocolatey"@);
    let rel = release_iri("chocolatey"@, "community"@);
    let w = link(w, dist, RDF_TYPE@, pkg("Distribution"@));
    let w = literal(w, dist, pkg("projectName"@), "Chocolatey"@);
    let w = link(w, rel, RDF_TYPE@, pkg("DistributionRelease"@));
    let w = literal(w, rel, pkg("releaseCodename"@), "community"@);
    link(w, rel, pkg("partOfDistribution"@), dist)
}

impl ChocolateyCollector {
    /// The gallery as a distribution, and its one release.
    pub fn emit_distribution_metadata(&self, writer: &mut NTriplesWriter) -> (r: usize)
        ensures
            final(writer)@ == with_distribution_metadata(old(writer)@, *self),
            r == final(writer)@.log.len() - old(writer)@.log.len(),
    {
        let start: usize = writer.len();
        let dist: String = distro_uri("chocolatey");
        let rel: String = release_uri("chocolatey", "community");
        writer.write_triple(&dist, RDF_TYPE, &cat2(PKG, "Distribution"));
        writer.write_literal(&dist, &cat2(PKG, "projectName"), "Chocolatey");
        writer.write_triple(&rel, RDF_TYPE, &cat2(PKG, "DistributionRelease"));
        writer.write_literal(&rel, &cat2(PKG, "releaseCodename"), "community");
        writer.write_triple(&rel, &cat2(PKG, "partOfDistribution"), &dist);
        writer.len() - start
    }
}

/// Everything that a package of the gallery gives.
pub open spec fn with_package_triples(w: Sheet, c: ChocolateyCollector, p: Choco) -> Sheet {
    let package = package_iri("chocolatey"@, "community"@, "windows"@, p.id, p.version);
    let identity = identity_iri("chocolatey"@, "community"@, "windows"@, p.id);
    let w = link(w, package, RDF_TYPE@, pkg("Package"@));
    let w = link(w, package, RDF_TYPE@, CHOCO@ + "ChocolateyPackage"@);
    let w = link(w, identity, RDF_TYPE@, pkg("PackageIdentity"@));
    let w = literal(w, identity, pkg("packageName"@), p.id);
    let w = link(w, package, pkg("isVersionOf"@), identity);
    let w = literal(w, package, pkg("packageName"@), p.id);
    let ver = version_iri("chocolatey"@, "community"@, p.id, p.version);
    let w = link(w, ver, RDF_TYPE@, pkg("Version"@));
    let w = literal(w, ver, pkg("versionString"@), p.version);
    let w = link(w, package, pkg("hasVersion"@), ver);
    let dist = distro_iri("chocolatey"@);
    let w = link(w, package, pkg("partOfDistribution"@), dist);
    let w = literal_if(w, package, pkg("description"@), p.title);
    let w = literal_if(w, package, CHOCO@ + "authors"@, p.authors);
    let w = literal_if(w, package, pkg("checksum"@), p.package_hash);
    let w = number_if(w, package, CHOCO@ + "downloadCount"@, p.download_count);
    let w = if p.is_prerelease {
        boolean(w, package, CHOCO@ + "isPrerelease"@, true)
    } else {
        w
    };
    w
}

/// The first `n` of `items`, in order.
pub open spec fn with_each_package_triples(
    w: Sheet,
    c: ChocolateyCollector,
    items: Seq<Choco>,
    n: nat,
) -> Sheet
    decreases n,
{
    if n == 0 {
        w
    } else {
        with_package_triples(
            with_each_package_triples(w, c, items, (n - 1) as nat),
            c,
            items[n - 1],
        )
    }
}

impl ChocolateyCollector {
    /// Everything that a package of the gallery gives.
    pub fn emit_package_triples(
        &self,
        writer: &mut NTriplesWriter,
        p: &ChocolateyPackage,
    ) -> (r: usize)
        ensures
            final(writer)@ == with_package_triples(old(writer)@, *self, p@),
            r == final(writer)@.log.len() - old(writer)@.log.len(),
            r >= 1,
    {
        let start: usize = writer.len();
        let package: String = package_uri("chocolatey", "community", "windows", &p.id, &p.version);
        let identity: String = package_identity_uri("chocolatey", "community", "windows", &p.id);
        writer.write_triple(&package, RDF_TYPE, &cat2(PKG, "Package"));
        writer.write_triple(&package, RDF_TYPE, &cat2(CHOCO, "ChocolateyPackage"));
        writer.write_triple(&identity, RDF_TYPE, &cat2(PKG, "PackageIdentity"));
        writer.write_literal(&identity, &cat2(PKG, "packageName"), &p.id);
        writer.write_triple(&package, &cat2(PKG, "isVersionOf"), &identity);
        writer.write_literal(&package, &cat2(PKG, "packageName"), &p.id);
        let ver: String = version_uri("chocolatey", "community", &p.id, &p.version);
        writer.write_triple(&ver, RDF_TYPE, &cat2(PKG, "Version"));
        writer.write_literal(&ver, &cat2(PKG, "versionString"), &p.version);
        writer.write_triple(&package, &cat2(PKG, "hasVersion"), &ver);
        let dist: String = distro_uri("chocolatey");
        writer.write_triple(&package, &cat2(PKG, "partOfDistribution"), &dist);
        writer.write_literal_if(&package, &cat2(PKG, "description"), &p.title);
        writer.write_literal_if(&package, &cat2(CHOCO, "authors"), &p.authors);
        writer.write_literal_if(&package, &cat2(PKG, "checksum"), &p.package_hash);
        writer.write_integer_if(&package, &cat2(CHOCO, "downloadCount"), p.download_count);
        if p.is_prerelease {
            writer.write_boolean(&package, &cat2(CHOCO, "isPrerelease"), true);
        }
        writer.len() - start
    }
}

/// The packages of all pages, in order.
pub open spec fn with_packages(
    w: Sheet,
    c: ChocolateyCollector,
    packages: Vec<ChocolateyPackage>,
) -> Sheet {
    with_each_package_triples(
        w,
        c,
        chocolatey_package_views(packages@),
        chocolatey_package_views(packages@).len(),
    )
}

impl ChocolateyCollector {
    /// The packages of all pages, in order.
    pub fn emit_packages(
        &self,
        writer: &mut NTriplesWriter,
        packages: &Vec<ChocolateyPackage>,
    ) -> (r: usize)
        ensures
            final(writer)@ == with_packages(old(writer)@, *self, *packages),
            r == final(writer)@.log.len() - old(writer)@.log.len(),
    {
        let start: usize = writer.len();
        let ghost before_package_triples = writer@;
        let mut i: usize = 0;
        while i < packages.len()
            invariant
                i <= packages.len(),
                before_package_triples.log.len() <= writer@.log.len(),
                writer@ == with_each_package_triples(
                    before_package_triples,
                    *self,
                    chocolatey_package_views(packages@),
                    i as nat,
                ),
            decreases packages.len() - i,
        {
            self.emit_package_triples(writer, &packages[i]);
            i = i + 1;
        }
        writer.len() - start
    }
}

impl ChocolateyCollector {
    /// Emits the gallery, given the packages of all its pages. Returns how many
    /// packages there are, and how many statements beside those of the
    /// distribution.
    pub fn collect(&self, writer: &mut NTriplesWriter, packages: &Vec<ChocolateyPackage>) -> (r: (
        usize,
        usize,
    ))
        ensures
            ({
                let head = with_distribution_metadata(old(writer)@, *self);
                &&& final(writer)@ == with_packages(head, *self, *packages)
                &&& r.0 == packages@.len()
                &&& r.1 == final(writer)@.log.len() - head.log.len()
            }),
    {
        self.emit_distribution_metadata(writer);
        let n: usize = self.emit_packages(writer, packages);
        (packages.len(), n)
    }
}

} // verus!
