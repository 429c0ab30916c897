//! The Comprehensive R Archive Network.

use crate::archive::{gunzip_lines, gunzipped_lines, GzLines};
use crate::casing::{lowercase, to_lowercase};
use crate::ntriples::{boolean, link, literal, literal_if, pkg, NTriplesWriter, Sheet, PKG};
use crate::spec_file::or_empty;
use crate::split::{
    first_word, leading_word, pieces, split, trim, trim_end_char, trimmed, trimmed_end_char, Sep,
};
use crate::text::{
    cat2, cat3, cut_once, empty, has_prefix, lemma_views_empty, same, split_once, starts_with,
    views,
};
use crate::uris::{
    distro_iri, distro_uri, identity_iri, package_identity_uri, package_iri, package_uri,
    release_iri, release_uri, spdx_iri, spdx_license_uri, version_iri, version_uri, CRAN,
    RDFS_LABEL, RDF_TYPE,
};
use vstd::prelude::*;

verus! {

broadcast use crate::text::lemma_views_push;

/// A package of the archive.
pub struct CranPackage {
    pub package: String,
    pub version: String,
    pub depends: Vec<String>,
    pub imports: Vec<String>,
    pub suggests: Vec<String>,
    pub linking_to: Vec<String>,
    pub enhances: Vec<String>,
    pub license: Option<String>,
    pub needs_compilation: Option<String>,
    pub title: Option<String>,
    pub description: Option<String>,
    pub author: Option<String>,
    pub maintainer: Option<String>,
    pub url: Option<String>,
    pub system_requirements: Option<String>,
    pub priority: Option<String>,
}

/// What a [`CranPackage`] says.
#[verifier::ext_equal]
pub struct Cran {
    pub package: Seq<char>,
    pub version: Seq<char>,
    pub depends: Seq<Seq<char>>,
    pub imports: Seq<Seq<char>>,
    pub suggests: Seq<Seq<char>>,
    pub linking_to: Seq<Seq<char>>,
    pub enhances: Seq<Seq<char>>,
    pub license: Option<Seq<char>>,
    pub needs_compilation: Option<Seq<char>>,
    pub title: Option<Seq<char>>,
    pub description: Option<Seq<char>>,
    pub author: Option<Seq<char>>,
    pub maintainer: Option<Seq<char>>,
    pub url: Option<Seq<char>>,
    pub system_requirements: Option<Seq<char>>,
    pub priority: Option<Seq<char>>,
}

impl View for CranPackage {
    type V = Cran;

    open spec fn view(&self) -> Cran {
        Cran {
            package: self.package@,
            version: self.version@,
            depends: crate::text::views(self.depends@),
            imports: crate::text::views(self.imports@),
            suggests: crate::text::views(self.suggests@),
            linking_to: crate::text::views(self.linking_to@),
            enhances: crate::text::views(self.enhances@),
            license: crate::text::opt(self.license),
            needs_compilation: crate::text::opt(self.needs_compilation),
            title: crate::text::opt(self.title),
            description: crate::text::opt(self.description),
            author: crate::text::opt(self.author),
            maintainer: crate::text::opt(self.maintainer),
            url: crate::text::opt(self.url),
            system_requirements: crate::text::opt(self.system_requirements),
            priority: crate::text::opt(self.priority),
        }
    }
}

/// The views of a list of records.
pub open spec fn cran_package_views(v: Seq<CranPackage>) -> Seq<Cran> {
    v.map_values(|x: CranPackage| x@)
}

/// A collector of a mirror.
pub struct CranCollector {
    pub mirror_url: String,
    pub graph_uri: Option<String>,
}

// ---------------------------------------------------------------------------
// The index

pub open spec fn blank_cran() -> Cran {
    Cran {
        package: Seq::empty(),
        version: Seq::empty(),
        depends: Seq::empty(),
        imports: Seq::empty(),
        suggests: Seq::empty(),
        linking_to: Seq::empty(),
        enhances: Seq::empty(),
        license: None,
        needs_compilation: None,
        title: None,
        description: None,
        author: None,
        maintainer: None,
        url: None,
        system_requirements: None,
        priority: None,
    }
}

impl Default for CranPackage {
    fn default() -> (r: Self)
        ensures
            r@ == blank_cran(),
    {
        proof {
            lemma_views_empty();
        }
        let p: CranPackage = CranPackage {
            package: String::new(),
            version: String::new(),
            depends: Vec::new(),
            imports: Vec::new(),
            suggests: Vec::new(),
            linking_to: Vec::new(),
            enhances: Vec::new(),
            license: None,
            needs_compilation: None,
            title: None,
            description: None,
            author: None,
            maintainer: None,
            url: None,
            system_requirements: None,
            priority: None,
        };
        assert(p.package@ =~= Seq::empty());
        assert(p.version@ =~= Seq::empty());
        p
    }
}

/// The name in an entry of a list: its first word.
pub open spec fn entry_name(entry: Seq<char>) -> Seq<char> {
    trim(or_empty(first_word(trim(entry))))
}

pub open spec fn names_in(entries: Seq<Seq<char>>) -> Seq<Seq<char>>
    decreases entries.len(),
{
    if entries.len() == 0 {
        Seq::empty()
    } else {
        let done = names_in(entries.drop_last());
        let name = entry_name(entries.last());
        if name.len() > 0 && name != "R"@ {
            done.push(name)
        } else {
            done
        }
    }
}

/// The names in a list, without versions, and without R itself.
pub open spec fn dep_names(value: Seq<char>) -> Seq<Seq<char>> {
    names_in(pieces(value, Sep::Is(',')))
}

/// `p` with a field set. A field that says nothing of the package changes nothing.
pub open spec fn field_set(p: Cran, key: Seq<char>, value: Seq<char>) -> Cran {
    if key == "Package"@ {
        Cran { package: value, ..p }
    } else if key == "Version"@ {
        Cran { version: value, ..p }
    } else if key == "Depends"@ {
        Cran { depends: dep_names(value), ..p }
    } else if key == "Imports"@ {
        Cran { imports: dep_names(value), ..p }
    } else if key == "Suggests"@ {
        Cran { suggests: dep_names(value), ..p }
    } else if key == "LinkingTo"@ {
        Cran { linking_to: dep_names(value), ..p }
    } else if key == "Enhances"@ {
        Cran { enhances: dep_names(value), ..p }
    } else if key == "License"@ {
        Cran { license: Some(value), ..p }
    } else if key == "NeedsCompilation"@ {
        Cran { needs_compilation: Some(value), ..p }
    } else if key == "Title"@ {
        Cran { title: Some(value), ..p }
    } else if key == "Description"@ {
        Cran { description: Some(value), ..p }
    } else if key == "Author"@ {
        Cran { author: Some(value), ..p }
    } else if key == "Maintainer"@ {
        Cran { maintainer: Some(value), ..p }
    } else if key == "URL"@ {
        Cran { url: Some(value), ..p }
    } else if key == "SystemRequirements"@ {
        Cran { system_requirements: Some(value), ..p }
    } else if key == "Priority"@ {
        Cran { priority: Some(value), ..p }
    } else {
        p
    }
}

/// The state of reading the index: the packages so far, the one that is being
/// read, and its field that is being read.
#[verifier::ext_equal]
pub struct CranState {
    pub done: Seq<Cran>,
    pub current: Cran,
    pub field: Seq<char>,
    pub value: Seq<char>,
}

/// `p` with the field that is being read set, where there is one.
pub open spec fn flushed(s: CranState) -> Cran {
    if s.field.len() > 0 {
        field_set(s.current, s.field, s.value)
    } else {
        s.current
    }
}

pub open spec fn is_continuation(line: Seq<char>) -> bool {
    starts_with(line, " "@) || starts_with(line, "\t"@)
}

/// The state after one more line. An empty line ends a package whose name is
/// known; a field is set when the next one begins.
pub open spec fn line_read(s: CranState, line: Seq<char>) -> CranState {
    if line.len() == 0 {
        if s.current.package.len() > 0 {
            CranState {
                done: s.done.push(flushed(s)),
                current: blank_cran(),
                field: Seq::empty(),
                value: if s.field.len() > 0 {
                    Seq::empty()
                } else {
                    s.value
                },
            }
        } else {
            s
        }
    } else if is_continuation(line) {
        CranState { value: s.value + " "@ + trim(line), ..s }
    } else {
        match split_once(line, ":"@) {
            Some(kv) => CranState {
                current: flushed(s),
                field: trim(kv.0),
                value: trim(kv.1),
                ..s
            },
            None => s,
        }
    }
}

pub open spec fn cran_state(lines: Seq<Seq<char>>, n: nat) -> CranState
    decreases n,
{
    if n == 0 {
        CranState {
            done: Seq::empty(),
            current: blank_cran(),
            field: Seq::empty(),
            value: Seq::empty(),
        }
    } else {
        line_read(cran_state(lines, (n - 1) as nat), lines[n - 1])
    }
}

/// The packages in the lines of an index.
pub open spec fn cran_packages(lines: Seq<Seq<char>>) -> Seq<Cran> {
    let s = cran_state(lines, lines.len());
    if s.current.package.len() > 0 {
        s.done.push(flushed(s))
    } else {
        s.done
    }
}

/// Where the index of a mirror is.
pub open spec fn index_address(mirror: Seq<char>) -> Seq<char> {
    trim_end_char(mirror, '/') + "/src/contrib/PACKAGES.gz"@
}

impl CranCollector {
    pub fn new(mirror_url: String) -> (r: Self)
        ensures
            r.mirror_url == mirror_url,
            r.graph_uri is None,
    {
        CranCollector { mirror_url, graph_uri: None }
    }

    /// The collector with the graph that its statements belong to.
    pub fn with_graph(self, graph_uri: Option<String>) -> (r: Self)
        ensures
            r == (CranCollector { graph_uri, ..self }),
    {
        CranCollector { mirror_url: self.mirror_url, graph_uri }
    }

    pub fn packages_url(&self) -> (r: String)
        ensures
            r@ == index_address(self.mirror_url@),
    {
        cat2(&trimmed_end_char(&self.mirror_url, '/'), "/src/contrib/PACKAGES.gz")
    }

    /// The names in a list of dependencies.
    pub fn parse_dep_list(&self, value: &str) -> (r: Vec<String>)
        ensures
            views(r@) == dep_names(value@),
    {
        let entries: Vec<String> = split(value, &Sep::Is(','));
        let mut out: Vec<String> = Vec::new();
        let mut i: usize = 0;
        let ghost all = views(entries@);
        proof {
            lemma_views_empty();
            assert(all.take(0) =~= Seq::empty());
        }
        while i < entries.len()
            invariant
                i <= entries.len(),
                all == views(entries@),
                views(out@) == names_in(all.take(i as int)),
            decreases entries.len() - i,
        {
            proof {
                assert(all.take(i + 1).drop_last() =~= all.take(i as int));
                assert(all.take(i + 1).last() == entries@[i as int]@);
            }
            let word: String = match leading_word(&trimmed(&entries[i])) {
                Some(w) => w,
                None => String::new(),
            };
            assert(word@ == or_empty(first_word(trim(entries@[i as int]@))));
            let name: String = trimmed(&word);
            if !empty(&name) && !same(&name, "R") {
                out.push(name);
            }
            i = i + 1;
        }
        assert(all.take(i as int) =~= all);
        out
    }

    fn set_field(&self, p: CranPackage, key: &str, value: &str) -> (r: CranPackage)
        ensures
            r@ == field_set(p@, key@, value@),
    {
        let mut p: CranPackage = p;
        if same(key, "Package") {
            p.package = value.to_owned();
        } else if same(key, "Version") {
            p.version = value.to_owned();
        } else if same(key, "Depends") {
            p.depends = self.parse_dep_list(value);
        } else if same(key, "Imports") {
            p.imports = self.parse_dep_list(value);
        } else if same(key, "Suggests") {
            p.suggests = self.parse_dep_list(value);
        } else if same(key, "LinkingTo") {
            p.linking_to = self.parse_dep_list(value);
        } else if same(key, "Enhances") {
            p.enhances = self.parse_dep_list(value);
        } else if same(key, "License") {
            p.license = Some(value.to_owned());
        } else if same(key, "NeedsCompilation") {
            p.needs_compilation = Some(value.to_owned());
        } else if same(key, "Title") {
            p.title = Some(value.to_owned());
        } else if same(key, "Description") {
            p.description = Some(value.to_owned());
        } else if same(key, "Author") {
            p.author = Some(value.to_owned());
        } else if same(key, "Maintainer") {
            p.maintainer = Some(value.to_owned());
        } else if same(key, "URL") {
            p.url = Some(value.to_owned());
        } else if same(key, "SystemRequirements") {
            p.system_requirements = Some(value.to_owned());
        } else if same(key, "Priority") {
            p.priority = Some(value.to_owned());
        }
        p
    }

    fn flush(&self, p: CranPackage, field: &str, value: &str) -> (r: CranPackage)
        ensures
            r@ == (if field@.len() > 0 {
                field_set(p@, field@, value@)
            } else {
                p@
            }),
    {
        if empty(field) {
            p
        } else {
            self.set_field(p, field, value)
        }
    }

    /// Parses the lines of an index.
    pub fn parse_packages_file(&self, lines: &Vec<String>) -> (r: Vec<CranPackage>)
        ensures
            cran_package_views(r@) == cran_packages(views(lines@)),
    {
        let mut done: Vec<CranPackage> = Vec::new();
        let mut current: CranPackage = CranPackage::default();
        let mut field: String = String::new();
        let mut value: String = String::new();
        let mut i: usize = 0;
        let ghost all = views(lines@);
        assert(cran_package_views(done@) =~= Seq::empty());
        assert(field@ =~= Seq::empty());
        assert(value@ =~= Seq::empty());
        while i < lines.len()
            invariant
                i <= lines.len(),
                all == views(lines@),
                (CranState {
                    done: cran_package_views(done@),
                    current: current@,
                    field: field@,
                    value: value@,
                }) == cran_state(all, i as nat),
            decreases lines.len() - i,
        {
            let line: &String = &lines[i];
            let ghost s = cran_state(all, i as nat);
            assert(all[i as int] == line@);
            if empty(line) {
                if !empty(&current.package) {
                    let package: CranPackage = self.flush(current, &field, &value);
                    if !empty(&field) {
                        field = String::new();
                        value = String::new();
                    }
                    assert(field@ =~= Seq::empty());
                    assert(s.field.len() > 0 ==> value@ =~= Seq::empty());
                    assert(cran_package_views(done@.push(package)) =~= cran_package_views(
                        done@,
                    ).push(package@));
                    done.push(package);
                    current = CranPackage::default();
                }
            } else if has_prefix(line, " ") || has_prefix(line, "\t") {
                value = cat3(&value, " ", &trimmed(line));
            } else if let Some((k, v)) = cut_once(line, ":") {
                current = self.flush(current, &field, &value);
                field = trimmed(&k);
                value = trimmed(&v);
            }
            i = i + 1;
        }
        if !empty(&current.package) {
            let package: CranPackage = self.flush(current, &field, &value);
            assert(cran_package_views(done@.push(package)) =~= cran_package_views(done@).push(
                package@,
            ));
            done.push(package);
        }
        done
    }
}

// ---------------------------------------------------------------------------
// Statements

/// The archive as a distribution, and its one release.
pub open spec fn with_distribution_metadata(w: Sheet, c: CranCollector) -> Sheet {
    let dist = distro_iri("cran"@);
    let rel = release_iri("cran"@, "cran"@);
    let w = link(w, dist, RDF_TYPE@, pkg("Distribution"@));
    let w = literal(w, dist, RDFS_LABEL@, "CRAN"@);
    let w = literal(w, dist, pkg("projectName"@), "CRAN"@);
    let w = link(w, rel, RDF_TYPE@, pkg("DistributionRelease"@));
    let w = literal(w, rel, pkg("releaseCodename"@), "cran"@);
    link(w, rel, pkg("partOfDistribution"@), dist)
}

impl CranCollector {
    /// The archive as a distribution, and its one release.
    pub fn emit_distribution_metadata(&self, writer: &mut NTriplesWriter) -> (r: usize)
        ensures
            final(writer)@ == with_distribution_metadata(old(writer)@, *self),
            r == final(writer)@.log.len() - old(writer)@.log.len(),
    {
        let start: usize = writer.len();
        let dist: String = distro_uri("cran");
        let rel: String = release_uri("cran", "cran");
        writer.write_triple(&dist, RDF_TYPE, &cat2(PKG, "Distribution"));
        writer.write_literal(&dist, RDFS_LABEL, "CRAN");
        writer.write_literal(&dist, &cat2(PKG, "projectName"), "CRAN");
        writer.write_triple(&rel, RDF_TYPE, &cat2(PKG, "DistributionRelease"));
        writer.write_literal(&rel, &cat2(PKG, "releaseCodename"), "cran");
        writer.write_triple(&rel, &cat2(PKG, "partOfDistribution"), &dist);
        writer.len() - start
    }
}

pub open spec fn with_needed(w: Sheet, package: Seq<char>, name: Seq<char>) -> Sheet {
    link(w, package, pkg("directlyDependsOn"@), identity_iri("cran"@, "cran"@, "any"@, name))
}

/// The first `n` of `items`, in order.
pub open spec fn with_each_needed(
    w: Sheet,
    package: Seq<char>,
    items: Seq<Seq<char>>,
    n: nat,
) -> Sheet
    decreases n,
{
    if n == 0 {
        w
    } else {
        with_needed(with_each_needed(w, package, items, (n - 1) as nat), package, items[n - 1])
    }
}

pub fn emit_needed(writer: &mut NTriplesWriter, package: &str, name: &str) -> (r: usize)
    ensures
        final(writer)@ == with_needed(old(writer)@, package@, name@),
        r == final(writer)@.log.len() - old(writer)@.log.len(),
{
    let start: usize = writer.len();
    writer.write_triple(
        package,
        &cat2(PKG, "directlyDependsOn"),
        &package_identity_uri("cran", "cran", "any", name),
    );
    writer.len() - start
}

/// What describes a package.
pub open spec fn with_description(w: Sheet, package: Seq<char>, p: Cran) -> Sheet {
    let w = literal_if(w, package, CRAN@ + "title"@, p.title);
    let w = literal_if(w, package, pkg("description"@), p.description);
    let w = match p.license {
        Some(license) => {
            let w = literal(w, package, pkg("licenseName"@), license);
            let node = spdx_iri(license);
            let w = link(w, package, pkg("hasLicense"@), node);
            link(w, node, RDF_TYPE@, pkg("License"@))
        },
        None => w,
    };
    let w = literal_if(w, package, CRAN@ + "author"@, p.author);
    let w = literal_if(w, package, CRAN@ + "maintainer"@, p.maintainer);
    let w = literal_if(w, package, pkg("homepage"@), p.url);
    let w = match p.needs_compilation {
        Some(answer) => {
            let lower = lowercase(answer);
            let w = if lower == "yes"@ {
                boolean(w, package, CRAN@ + "needsCompilation"@, true)
            } else {
                boolean(w, package, CRAN@ + "needsCompilation"@, false)
            };
            w
        },
        None => w,
    };
    let w = literal_if(w, package, CRAN@ + "systemRequirements"@, p.system_requirements);
    literal_if(w, package, CRAN@ + "priority"@, p.priority)
}

/// What describes a package.
pub fn emit_description(writer: &mut NTriplesWriter, package: &str, p: &CranPackage) -> (r: usize)
    ensures
        final(writer)@ == with_description(old(writer)@, package@, p@),
        r == final(writer)@.log.len() - old(writer)@.log.len(),
{
    let start: usize = writer.len();
    writer.write_literal_if(package, &cat2(CRAN, "title"), &p.title);
    writer.write_literal_if(package, &cat2(PKG, "description"), &p.description);
    if let Some(license) = &p.license {
        writer.write_literal(package, &cat2(PKG, "licenseName"), license);
        let node: String = spdx_license_uri(license);
        writer.write_triple(package, &cat2(PKG, "hasLicense"), &node);
        writer.write_triple(&node, RDF_TYPE, &cat2(PKG, "License"));
    }
    writer.write_literal_if(package, &cat2(CRAN, "author"), &p.author);
    writer.write_literal_if(package, &cat2(CRAN, "maintainer"), &p.maintainer);
    writer.write_literal_if(package, &cat2(PKG, "homepage"), &p.url);
    if let Some(answer) = &p.needs_compilation {
        let lower: String = to_lowercase(answer);
        if same(&lower, "yes") {
            writer.write_boolean(package, &cat2(CRAN, "needsCompilation"), true);
        } else {
            writer.write_boolean(package, &cat2(CRAN, "needsCompilation"), false);
        }
    }
    writer.write_literal_if(package, &cat2(CRAN, "systemRequirements"), &p.system_requirements);
    writer.write_literal_if(package, &cat2(CRAN, "priority"), &p.priority);
    writer.len() - start
}

/// Everything that a package of the archive gives.
pub open spec fn with_package_triples(w: Sheet, c: CranCollector, p: Cran) -> Sheet {
    let package = package_iri("cran"@, "cran"@, "any"@, p.package, p.version);
    let identity = identity_iri("cran"@, "cran"@, "any"@, p.package);
    let w = link(w, package, RDF_TYPE@, pkg("Package"@));
    let w = link(w, package, RDF_TYPE@, CRAN@ + "CranPackage"@);
    let w = link(w, identity, RDF_TYPE@, pkg("PackageIdentity"@));
    let w = literal(w, identity, pkg("packageName"@), p.package);
    let w = link(w, package, pkg("isVersionOf"@), identity);
    let w = literal(w, package, pkg("packageName"@), p.package);
    let ver = version_iri("cran"@, "cran"@, p.package, p.version);
    let w = link(w, ver, RDF_TYPE@, pkg("Version"@));
    let w = literal(w, ver, pkg("versionString"@), p.version);
    let w = link(w, package, pkg("hasVersion"@), ver);
    let dist = distro_iri("cran"@);
    let w = link(w, package, pkg("partOfDistribution"@), dist);
    let w = with_description(w, package, p);
    let w = with_each_needed(w, package, p.depends, p.depends.len());
    with_each_needed(w, package, p.imports, p.imports.len())
}

/// The first `n` of `items`, in order.
pub open spec fn with_each_package_triples(
    w: Sheet,
    c: CranCollector,
    items: Seq<Cran>,
    n: nat,
) -> Sheet
    decreases n,
{
    if n == 0 {
        w
    } else {
        with_package_triples(
            with_each_package_triples(w, c, items, (n - 1) as nat),
            c,
            items[n - 1],
        )
    }
}

impl CranCollector {
    /// Everything that a package of the archive gives.
    pub fn emit_package_triples(&self, writer: &mut NTriplesWriter, p: &CranPackage) -> (r: usize)
        ensures
            final(writer)@ == with_package_triples(old(writer)@, *self, p@),
            r == final(writer)@.log.len() - old(writer)@.log.len(),
            r >= 1,
    {
        let start: usize = writer.len();
        let package: String = package_uri("cran", "cran", "any", &p.package, &p.version);
        let identity: String = package_identity_uri("cran", "cran", "any", &p.package);
        writer.write_triple(&package, RDF_TYPE, &cat2(PKG, "Package"));
        writer.write_triple(&package, RDF_TYPE, &cat2(CRAN, "CranPackage"));
        writer.write_triple(&identity, RDF_TYPE, &cat2(PKG, "PackageIdentity"));
        writer.write_literal(&identity, &cat2(PKG, "packageName"), &p.package);
        writer.write_triple(&package, &cat2(PKG, "isVersionOf"), &identity);
        writer.write_literal(&package, &cat2(PKG, "packageName"), &p.package);
        let ver: String = version_uri("cran", "cran", &p.package, &p.version);
        writer.write_triple(&ver, RDF_TYPE, &cat2(PKG, "Version"));
        writer.write_literal(&ver, &cat2(PKG, "versionString"), &p.version);
        writer.write_triple(&package, &cat2(PKG, "hasVersion"), &ver);
        let dist: String = distro_uri("cran");
        writer.write_triple(&package, &cat2(PKG, "partOfDistribution"), &dist);
        emit_description(writer, &package, p);
        let ghost before_needed = writer@;
        let mut i: usize = 0;
        while i < p.depends.len()
            invariant
                i <= p.depends.len(),
                before_needed.log.len() <= writer@.log.len(),
                writer@ == with_each_needed(before_needed, package@, views(p.depends@), i as nat),
            decreases p.depends.len() - i,
        {
            emit_needed(writer, &package, &p.depends[i]);
            i = i + 1;
        }
        let ghost before_needed = writer@;
        let mut i: usize = 0;
        while i < p.imports.len()
            invariant
                i <= p.imports.len(),
                before_needed.log.len() <= writer@.log.len(),
                writer@ == with_each_needed(before_needed, package@, views(p.imports@), i as nat),
            decreases p.imports.len() - i,
        {
            emit_needed(writer, &package, &p.imports[i]);
            i = i + 1;
        }
        writer.len() - start
    }
}

/// The packages of an index.
pub open spec fn with_packages(w: Sheet, c: CranCollector, packages: Vec<CranPackage>) -> Sheet {
    with_each_package_triples(
        w,
        c,
        cran_package_views(packages@),
        cran_package_views(packages@).len(),
    )
}

impl CranCollector {
    /// The packages of an index.
    pub fn emit_packages(
        &self,
        writer: &mut NTriplesWriter,
        packages: &Vec<CranPackage>,
    ) -> (r: usize)
        ensures
            final(writer)@ == with_packages(old(writer)@, *self, *packages),
            r == final(writer)@.log.len() - old(writer)@.log.len(),
    {
        let start: usize = writer.len();
        let ghost before_package_triples = writer@;
        let mut i: usize = 0;
        while i < packages.len()
            invariant
                i <= packages.len(),
                before_package_triples.log.len() <= writer@.log.len(),
                writer@ == with_each_package_triples(
                    before_package_triples,
                    *self,
                    cran_package_views(packages@),
                    i as nat,
                ),
            decreases packages.len() - i,
        {
            self.emit_package_triples(writer, &packages[i]);
            i = i + 1;
        }
        writer.len() - start
    }
}

impl CranCollector {
    /// Emits the archive, given its downloaded index. Returns how many packages
    /// there are, and how many statements beside those of the distribution; or why
    /// the index cannot be read.
    pub fn collect(&self, writer: &mut NTriplesWriter, bytes: &[u8]) -> (r: Result<
        (usize, usize),
        String,
    >)
        ensures
            ({
                let head = with_distribution_metadata(old(writer)@, *self);
                let (lines, error) = gunzipped_lines(bytes@);
                let packages = cran_packages(lines);
                match error {
                    Some(e) => r is Err && r->Err_0@ == e && final(writer)@ == head,
                    None => r is Ok && final(writer)@ == with_each_package_triples(
                        head,
                        *self,
                        packages,
                        packages.len(),
                    ) && (r->Ok_0).0 == packages.len() && (r->Ok_0).1 == final(writer)@.log.len()
                        - head.log.len(),
                }
            }),
    {
        self.emit_distribution_metadata(writer);
        let read: GzLines = gunzip_lines(bytes);
        match read.error {
            Some(e) => Err(e),
            None => {
                let packages: Vec<CranPackage> = self.parse_packages_file(&read.lines);
                assert(cran_package_views(packages@).len() == packages@.len());
                let n: usize = self.emit_packages(writer, &packages);
                Ok((packages.len(), n))
            },
        }
    }
}

} // verus!
