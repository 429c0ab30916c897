//! The source packages of Debian: what they are built with, and who uploads them.

use crate::archive::{gunzip_lines, gunzipped_lines, GzLines};
use crate::debian::{
    ended_records, first_alternative, is_listed, open_record, parse_index, IndexRecords,
    KnownSources, SourceTracking,
};
use crate::deps::{contact_views, Contact, Person};
use crate::forge::{emit_dq_issue, with_dq_issue};
use crate::ntriples::{link, literal, pkg, NTriplesWriter, Sheet, PKG};
use crate::pattern::{
    all_groups, captured, captures_all, first_group, group_or_empty, group_text, groups_of,
    regex_captures_all,
};
use crate::split::{pieces, split, trim, trim_end_char, trimmed, trimmed_end_char, Sep};
use crate::text::{cat2, cat5, empty, has_item, head, opt, same, views};
use crate::textmap::{field, field_maps, values_at, values_for, Fields, TextMap, Texts};
use crate::uris::{
    ecosystem_iri, ecosystem_uri, identity_iri, maintainer_iri, maintainer_uri,
    package_identity_uri, repo_iri, repo_uri, DEB, FOAF, RDFS_LABEL, RDF_TYPE,
};
use vstd::prelude::*;

verus! {

broadcast use crate::text::lemma_views_push;

/// The pattern of the name that a build dependency starts with.
pub const BUILD_DEPENDENCY: &'static str = r"^([\w.-]+)";

/// The pattern of an uploader: a name with an address in angle brackets.
pub const UPLOADER: &'static str = r"([^<,]+?)\s*<(.+?)>";

/// A collector of the source index of one component of a distribution.
pub struct SourcesCollector {
    pub repo_url: String,
    pub distro: String,
    pub distribution: String,
    pub component: String,
}

/// The property of a build dependency, by its short name.
pub open spec fn build_property(short: Seq<char>) -> Seq<char> {
    if short == "deb:buildDependsIndep"@ {
        DEB@ + "buildDependsIndep"@
    } else {
        DEB@ + "buildDepends"@
    }
}

fn property_of(short: &str) -> (r: String)
    ensures
        r@ == build_property(short@),
{
    if same(short, "deb:buildDependsIndep") {
        cat2(DEB, "buildDependsIndep")
    } else {
        cat2(DEB, "buildDepends")
    }
}

/// The first alternative of an entry, as the package that it names, where it
/// names one.
pub open spec fn with_build_dep(
    w: Sheet,
    c: SourcesCollector,
    source: Seq<char>,
    codename: Seq<char>,
    property: Seq<char>,
    entry: Seq<char>,
) -> Sheet {
    let first = first_alternative(entry);
    let w = match first_group(BUILD_DEPENDENCY@, first, 1) {
        Some(name) => {
            let target = identity_iri(c.distro@, codename, "source"@, name);
            let w = link(w, target, RDF_TYPE@, pkg("PackageIdentity"@));
            let w = literal(w, target, pkg("packageName"@), name);
            link(w, source, property, target)
        },
        None => w,
    };
    w
}

/// The first `n` of `items`, in order.
pub open spec fn with_each_build_dep(
    w: Sheet,
    c: SourcesCollector,
    source: Seq<char>,
    codename: Seq<char>,
    property: Seq<char>,
    items: Seq<Seq<char>>,
    n: nat,
) -> Sheet
    decreases n,
{
    if n == 0 {
        w
    } else {
        with_build_dep(
            with_each_build_dep(w, c, source, codename, property, items, (n - 1) as nat),
            c,
            source,
            codename,
            property,
            items[n - 1],
        )
    }
}

impl SourcesCollector {
    /// The first alternative of an entry, as the package that it names, where it
    /// names one.
    pub fn emit_build_dep(
        &self,
        writer: &mut NTriplesWriter,
        source: &str,
        codename: &str,
        property: &str,
        entry: &str,
    ) -> (r: usize)
        ensures
            final(writer)@ == with_build_dep(
                old(writer)@,
                *self,
                source@,
                codename@,
                property@,
                entry@,
            ),
            r == final(writer)@.log.len() - old(writer)@.log.len(),
    {
        let start: usize = writer.len();
        let first: String = trimmed(&head(entry, "|"));
        if let Some(name) = captured(BUILD_DEPENDENCY, &first, 1) {
            let target: String = package_identity_uri(&self.distro, codename, "source", &name);
            writer.write_triple(&target, RDF_TYPE, &cat2(PKG, "PackageIdentity"));
            writer.write_literal(&target, &cat2(PKG, "packageName"), &name);
            writer.write_triple(source, property, &target);
        }
        writer.len() - start
    }
}

/// What a source package is built with.
pub open spec fn with_build_deps(
    w: Sheet,
    c: SourcesCollector,
    source: Seq<char>,
    deps: Seq<char>,
    codename: Seq<char>,
    short: Seq<char>,
) -> Sheet {
    let entries = pieces(deps, Sep::Is(','));
    let property = build_property(short);
    with_each_build_dep(w, c, source, codename, property, entries, entries.len())
}

impl SourcesCollector {
    /// What a source package is built with.
    pub fn emit_build_deps(
        &self,
        writer: &mut NTriplesWriter,
        source: &str,
        deps: &str,
        codename: &str,
        short: &str,
    ) -> (r: usize)
        ensures
            final(writer)@ == with_build_deps(
                old(writer)@,
                *self,
                source@,
                deps@,
                codename@,
                short@,
            ),
            r == final(writer)@.log.len() - old(writer)@.log.len(),
    {
        let start: usize = writer.len();
        let entries: Vec<String> = split(deps, &Sep::Is(','));
        let property: String = property_of(short);
        let ghost before_build_dep = writer@;
        let mut i: usize = 0;
        while i < entries.len()
            invariant
                i <= entries.len(),
                before_build_dep.log.len() <= writer@.log.len(),
                writer@ == with_each_build_dep(
                    before_build_dep,
                    *self,
                    source@,
                    codename@,
                    property@,
                    views(entries@),
                    i as nat,
                ),
            decreases entries.len() - i,
        {
            self.emit_build_dep(writer, source, codename, &property, &entries[i]);
            i = i + 1;
        }
        writer.len() - start
    }
}

/// The people in the groups of [`UPLOADER`].
pub open spec fn people_in(matches: Seq<Seq<Option<Seq<char>>>>) -> Seq<Person> {
    Seq::new(
        matches.len(),
        |i: int|
            Person {
                name: trim(group_text(matches[i], 1)),
                email: trim(group_text(matches[i], 2)),
            },
    )
}

/// The people, given the groups of their pattern.
pub fn people(matches: &Vec<Vec<Option<String>>>) -> (r: Vec<Contact>)
    ensures
        contact_views(r@) == people_in(all_groups(matches@)),
{
    let mut out: Vec<Contact> = Vec::new();
    let mut i: usize = 0;
    let ghost all = people_in(all_groups(matches@));
    while i < matches.len()
        invariant
            i <= matches.len(),
            out@.len() == i,
            all == people_in(all_groups(matches@)),
            forall|k: int| 0 <= k < i ==> (#[trigger] out@[k])@ == all[k],
        decreases matches.len() - i,
    {
        assert(all_groups(matches@)[i as int] == groups_of(matches@[i as int]@));
        out.push(
            Contact {
                name: trimmed(&group_or_empty(&matches[i], 1)),
                email: trimmed(&group_or_empty(&matches[i], 2)),
            },
        );
        i = i + 1;
    }
    assert(contact_views(out@) =~= all);
    out
}

/// One who uploads a package, linked to its packaging repository.
pub open spec fn with_uploader(w: Sheet, repo: Option<Seq<char>>, who: Person) -> Sheet {
    let person = maintainer_iri(who.email);
    let w = link(w, person, RDF_TYPE@, pkg("Person"@));
    let w = literal(w, person, FOAF@ + "name"@, who.name);
    let w = literal(w, person, RDFS_LABEL@, who.name);
    let w = link(w, person, FOAF@ + "mbox"@, "mailto:"@ + who.email);
    let w = match repo {
        Some(url) => {
            let place = repo_iri(url);
            let w = link(w, place, pkg("hasContributor"@), person);
            link(w, person, pkg("contributesTo"@), place)
        },
        None => w,
    };
    w
}

/// The first `n` of `items`, in order.
pub open spec fn with_each_uploader(
    w: Sheet,
    repo: Option<Seq<char>>,
    items: Seq<Person>,
    n: nat,
) -> Sheet
    decreases n,
{
    if n == 0 {
        w
    } else {
        with_uploader(with_each_uploader(w, repo, items, (n - 1) as nat), repo, items[n - 1])
    }
}

/// One who uploads a package, linked to its packaging repository.
pub fn emit_uploader(
    writer: &mut NTriplesWriter,
    repo: &Option<String>,
    who: &Contact,
) -> (r: usize)
    ensures
        final(writer)@ == with_uploader(old(writer)@, opt(*repo), who@),
        r == final(writer)@.log.len() - old(writer)@.log.len(),
{
    let start: usize = writer.len();
    let person: String = maintainer_uri(&who.email);
    writer.write_triple(&person, RDF_TYPE, &cat2(PKG, "Person"));
    writer.write_literal(&person, &cat2(FOAF, "name"), &who.name);
    writer.write_literal(&person, RDFS_LABEL, &who.name);
    writer.write_triple(&person, &cat2(FOAF, "mbox"), &cat2("mailto:", &who.email));
    if let Some(url) = &(*repo) {
        let place: String = repo_uri(url);
        writer.write_triple(&place, &cat2(PKG, "hasContributor"), &person);
        writer.write_triple(&person, &cat2(PKG, "contributesTo"), &place);
    }
    writer.len() - start
}

/// Those who upload a package.
pub open spec fn with_uploaders_triples(
    w: Sheet,
    name: Seq<char>,
    uploaders: Seq<char>,
    vcs_urls: Map<Seq<char>, Seq<char>>,
) -> Sheet {
    let all = people_in(regex_captures_all(UPLOADER@, uploaders));
    with_each_uploader(w, field(vcs_urls, name), all, all.len())
}

pub fn emit_uploaders_triples(
    writer: &mut NTriplesWriter,
    name: &str,
    uploaders: &str,
    vcs_urls: &Fields,
) -> (r: usize)
    ensures
        final(writer)@ == with_uploaders_triples(old(writer)@, name@, uploaders@, vcs_urls@),
        r == final(writer)@.log.len() - old(writer)@.log.len(),
{
    let start: usize = writer.len();
    let repo: Option<String> = match vcs_urls.get(name) {
        Some(url) => Some(url.clone()),
        None => None,
    };
    let all: Vec<Contact> = people(&captures_all(UPLOADER, uploaders));
    let ghost views_of = contact_views(all@);
    let mut i: usize = 0;
    while i < all.len()
        invariant
            i <= all.len(),
            views_of == contact_views(all@),
            start == old(writer)@.log.len(),
            start <= writer@.log.len(),
            writer@ == with_each_uploader(old(writer)@, opt(repo), views_of, i as nat),
        decreases all.len() - i,
    {
        assert(views_of[i as int] == all@[i as int]@);
        emit_uploader(writer, &repo, &all[i]);
        i = i + 1;
    }
    writer.len() - start
}

/// The module that a package is a binding of.
pub open spec fn with_module(w: Sheet, path: Seq<char>, identity: Seq<char>) -> Sheet {
    let node = ecosystem_iri("gomod"@);
    let w = link(w, identity, pkg("upstreamEcosystem"@), node);
    let w = link(w, node, RDF_TYPE@, pkg("Ecosystem"@));
    let w = literal(w, node, RDFS_LABEL@, "gomod"@);
    literal(w, identity, pkg("upstreamPackageName"@), path)
}

/// The first `n` of `items`, in order.
pub open spec fn with_each_module(w: Sheet, path: Seq<char>, items: Seq<Seq<char>>, n: nat) -> Sheet
    decreases n,
{
    if n == 0 {
        w
    } else {
        with_module(with_each_module(w, path, items, (n - 1) as nat), path, items[n - 1])
    }
}

/// The module that a package is a binding of.
pub fn emit_module(writer: &mut NTriplesWriter, path: &str, identity: &str) -> (r: usize)
    ensures
        final(writer)@ == with_module(old(writer)@, path@, identity@),
        r == final(writer)@.log.len() - old(writer)@.log.len(),
{
    let start: usize = writer.len();
    let node: String = ecosystem_uri("gomod");
    writer.write_triple(identity, &cat2(PKG, "upstreamEcosystem"), &node);
    writer.write_triple(&node, RDF_TYPE, &cat2(PKG, "Ecosystem"));
    writer.write_literal(&node, RDFS_LABEL, "gomod");
    writer.write_literal(identity, &cat2(PKG, "upstreamPackageName"), path);
    writer.len() - start
}

/// The module path of a source package, on it and on the packages built from it.
pub open spec fn with_module_path(
    w: Sheet,
    source: Seq<char>,
    path: Seq<char>,
    identities: Seq<Seq<char>>,
) -> Sheet {
    let w = if path.len() > 0 {
        let w = with_each_module(w, path, identities, identities.len());
        literal(w, source, pkg("upstreamPackageName"@), path)
    } else {
        w
    };
    w
}

/// The module path of a source package, on it and on the packages built from it.
pub fn emit_module_path(
    writer: &mut NTriplesWriter,
    source: &str,
    path: &str,
    identities: &Vec<String>,
) -> (r: usize)
    ensures
        final(writer)@ == with_module_path(old(writer)@, source@, path@, views(identities@)),
        r == final(writer)@.log.len() - old(writer)@.log.len(),
{
    let start: usize = writer.len();
    if !empty(path) {
        let ghost before_module = writer@;
        let mut i: usize = 0;
        while i < identities.len()
            invariant
                i <= identities.len(),
                before_module.log.len() <= writer@.log.len(),
                writer@ == with_each_module(before_module, path@, views(identities@), i as nat),
            decreases identities.len() - i,
        {
            emit_module(writer, path, &identities[i]);
            i = i + 1;
        }
        writer.write_literal(source, &cat2(PKG, "upstreamPackageName"), path);
    }
    writer.len() - start
}

/// Everything that the record of a source package gives.
pub open spec fn with_source_record(
    w: Sheet,
    c: SourcesCollector,
    fields: Map<Seq<char>,
    Seq<char>>,
    name: Seq<char>,
    source: Seq<char>,
    identities: Seq<Seq<char>>,
    vcs_urls: Map<Seq<char>,
    Seq<char>>,
    codename: Seq<char>,
    emit_builddeps: bool,
    emit_uploaders: bool,
) -> Sheet {
    let w = match field(fields, "Go-Import-Path"@) {
        Some(path) => {
            with_module_path(w, source, trim(path), identities)
        },
        None => w,
    };
    let w = if emit_builddeps {
        let w = match field(fields, "Build-Depends"@) {
            Some(deps) => {
                with_build_deps(w, c, source, deps, codename, "deb:buildDepends"@)
            },
            None => w,
        };
        let w = match field(fields, "Build-Depends-Indep"@) {
            Some(deps) => {
                with_build_deps(w, c, source, deps, codename, "deb:buildDependsIndep"@)
            },
            None => w,
        };
        let w = match field(fields, "Build-Depends-Arch"@) {
            Some(deps) => {
                with_build_deps(w, c, source, deps, codename, "deb:buildDepends"@)
            },
            None => w,
        };
        w
    } else {
        w
    };
    let w = if emit_uploaders {
        let w = match field(fields, "Uploaders"@) {
            Some(people) => {
                with_uploaders_triples(w, name, people, vcs_urls)
            },
            None => w,
        };
        w
    } else {
        w
    };
    w
}

impl SourcesCollector {
    /// Everything that the record of a source package gives.
    pub fn emit_source_record(
        &self,
        writer: &mut NTriplesWriter,
        fields: &Fields,
        name: &str,
        source: &str,
        identities: &Vec<String>,
        vcs_urls: &Fields,
        codename: &str,
        emit_builddeps: bool,
        emit_uploaders: bool,
    ) -> (r: usize)
        ensures
            final(writer)@ == with_source_record(
                old(writer)@,
                *self,
                fields@,
                name@,
                source@,
                views(identities@),
                vcs_urls@,
                codename@,
                emit_builddeps,
                emit_uploaders,
            ),
            r == final(writer)@.log.len() - old(writer)@.log.len(),
    {
        let start: usize = writer.len();
        if let Some(path) = fields.get("Go-Import-Path") {
            emit_module_path(writer, source, &trimmed(path), identities);
        }
        if emit_builddeps {
            if let Some(deps) = fields.get("Build-Depends") {
                self.emit_build_deps(writer, source, deps, codename, "deb:buildDepends");
            }
            if let Some(deps) = fields.get("Build-Depends-Indep") {
                self.emit_build_deps(writer, source, deps, codename, "deb:buildDependsIndep");
            }
            if let Some(deps) = fields.get("Build-Depends-Arch") {
                self.emit_build_deps(writer, source, deps, codename, "deb:buildDepends");
            }
        }
        if emit_uploaders {
            if let Some(people) = fields.get("Uploaders") {
                emit_uploaders_triples(writer, name, people, vcs_urls);
            }
        }
        writer.len() - start
    }
}

/// Everything that the record of a known source package gives; nothing for one
/// that is not known.
pub open spec fn with_source_triples(
    w: Sheet,
    c: SourcesCollector,
    fields: Map<Seq<char>, Seq<char>>,
    name: Seq<char>,
    uris: Map<Seq<char>, Seq<char>>,
    identities: Map<Seq<char>, Seq<Seq<char>>>,
    vcs_urls: Map<Seq<char>, Seq<char>>,
    codename: Seq<char>,
    emit_builddeps: bool,
    emit_uploaders: bool,
) -> Sheet {
    match field(uris, name) {
        Some(source) => with_source_record(
            w,
            c,
            fields,
            name,
            source,
            values_at(identities, name),
            vcs_urls,
            codename,
            emit_builddeps,
            emit_uploaders,
        ),
        None => w,
    }
}

/// What is asked of a run over an index.
pub struct SourcesWanted {
    pub codename: String,
    pub emit_builddeps: bool,
    pub emit_uploaders: bool,
}

/// The state of a run over an index: the statements, and how many source packages
/// were taken.
#[verifier::ext_equal]
pub struct SourcesRun {
    pub sheet: Sheet,
    pub count: nat,
}

/// The state after one more record. Only source packages of known packages count.
pub open spec fn source_taken(
    r: SourcesRun,
    c: SourcesCollector,
    fields: Map<Seq<char>, Seq<char>>,
    known: KnownSources,
    wanted: SourcesWanted,
) -> SourcesRun {
    let name = fields["Package"@];
    if known.names.contains(name) {
        SourcesRun {
            sheet: with_source_triples(
                r.sheet,
                c,
                fields,
                name,
                known.uris,
                known.identities,
                known.vcs_urls,
                wanted.codename@,
                wanted.emit_builddeps,
                wanted.emit_uploaders,
            ),
            count: r.count + 1,
        }
    } else {
        r
    }
}

/// The state after the first `n` records.
pub open spec fn sources_taken(
    r: SourcesRun,
    c: SourcesCollector,
    records: Seq<Map<Seq<char>, Seq<char>>>,
    n: nat,
    known: KnownSources,
    wanted: SourcesWanted,
) -> SourcesRun
    decreases n,
{
    if n == 0 {
        r
    } else {
        source_taken(
            sources_taken(r, c, records, (n - 1) as nat, known, wanted),
            c,
            records[n - 1],
            known,
            wanted,
        )
    }
}

/// The state after an index, and why it could not be read to its end.
pub open spec fn index_taken(
    r: SourcesRun,
    c: SourcesCollector,
    lines: Seq<Seq<char>>,
    error: Option<Seq<char>>,
    known: KnownSources,
    wanted: SourcesWanted,
) -> SourcesRun {
    let records = ended_records(lines, false);
    let s = sources_taken(r, c, records, records.len(), known, wanted);
    if error is Some {
        s
    } else {
        match open_record(lines, false) {
            Some(fields) => source_taken(s, c, fields, known, wanted),
            None => s,
        }
    }
}

/// Where the source index is.
pub open spec fn sources_address(c: SourcesCollector) -> Seq<char> {
    trim_end_char(c.repo_url@, '/') + "/dists/"@ + c.distribution@ + "/"@ + c.component@
        + "/source/Sources.gz"@
}

impl SourcesCollector {
    pub fn new(
        repo_url: String,
        distro: String,
        distribution: String,
        component: String,
    ) -> (r: Self)
        ensures
            r.repo_url == repo_url,
            r.distro == distro,
            r.distribution == distribution,
            r.component == component,
    {
        SourcesCollector { repo_url, distro, distribution, component }
    }

    pub fn sources_url(&self) -> (r: String)
        ensures
            r@ == sources_address(*self),
    {
        let mut url: String = cat5(
            &trimmed_end_char(&self.repo_url, '/'),
            "/dists/",
            &self.distribution,
            "/",
            &self.component,
        );
        url.append("/source/Sources.gz");
        url
    }

    /// Emits a source package.
    pub fn emit_source_triples(
        &self,
        writer: &mut NTriplesWriter,
        fields: &Fields,
        name: &str,
        source_pkg_uris: &Fields,
        source_identity_map: &TextMap<Texts>,
        vcs_urls: &Fields,
        codename: &str,
        emit_builddeps: bool,
        emit_uploaders: bool,
    ) -> (r: usize)
        ensures
            final(writer)@ == with_source_triples(
                old(writer)@,
                *self,
                fields@,
                name@,
                source_pkg_uris@,
                source_identity_map@,
                vcs_urls@,
                codename@,
                emit_builddeps,
                emit_uploaders,
            ),
            r == final(writer)@.log.len() - old(writer)@.log.len(),
    {
        match source_pkg_uris.get(name) {
            Some(source) => self.emit_source_record(
                writer,
                fields,
                name,
                source,
                &values_for(source_identity_map, name),
                vcs_urls,
                codename,
                emit_builddeps,
                emit_uploaders,
            ),
            None => 0,
        }
    }

    fn take_source(
        &self,
        writer: &mut NTriplesWriter,
        fields: &Fields,
        known: &SourceTracking,
        wanted: &SourcesWanted,
        Ghost(count): Ghost<nat>,
    ) -> (r: bool)
        requires
            fields@.contains_key("Package"@),
        ensures
            (SourcesRun { sheet: final(writer)@, count: count + if r {
                1nat
            } else {
                0nat
            } }) == source_taken(
                (SourcesRun { sheet: old(writer)@, count }),
                *self,
                fields@,
                known@,
                *wanted,
            ),
            final(writer)@.log.len() >= old(writer)@.log.len(),
    {
        let name: String = match fields.get("Package") {
            Some(n) => n.clone(),
            None => String::new(),
        };
        if has_item(&known.names, &name) {
            self.emit_source_triples(
                writer,
                fields,
                &name,
                &known.uris,
                &known.identities,
                &known.vcs_urls,
                &wanted.codename,
                wanted.emit_builddeps,
                wanted.emit_uploaders,
            );
            true
        } else {
            false
        }
    }

    /// Emits the source packages of an index, given its lines and why there are no
    /// more, where it cannot be read to its end. Returns how many source packages
    /// were taken and how many statements they gave.
    pub fn process_index(
        &self,
        writer: &mut NTriplesWriter,
        lines: &Vec<String>,
        error: &Option<String>,
        known: &SourceTracking,
        wanted: &SourcesWanted,
    ) -> (r: Result<(usize, usize), String>)
        ensures
            ({
                let s = index_taken(
                    (SourcesRun { sheet: old(writer)@, count: 0 }),
                    *self,
                    views(lines@),
                    opt(*error),
                    known@,
                    *wanted,
                );
                &&& final(writer)@ == s.sheet
                &&& match opt(*error) {
                    Some(e) => r is Err && r->Err_0@ == e,
                    None => r is Ok && (r->Ok_0).0 == s.count && (r->Ok_0).1
                        == final(writer)@.log.len() - old(writer)@.log.len(),
                }
            }),
    {
        let start: usize = writer.len();
        let records: IndexRecords = parse_index(lines, false);
        let ghost all = field_maps(records.ended@);
        let ghost r0 = SourcesRun { sheet: writer@, count: 0 };
        let mut count: usize = 0;
        let mut i: usize = 0;
        while i < records.ended.len()
            invariant
                i <= records.ended.len(),
                count <= i,
                all == field_maps(records.ended@),
                start == old(writer)@.log.len(),
                start <= writer@.log.len(),
                r0 == (SourcesRun { sheet: old(writer)@, count: 0 }),
                forall|k: int|
                    0 <= k < records.ended@.len() ==> is_listed(
                        (#[trigger] records.ended@[k])@,
                        false,
                    ),
                (SourcesRun { sheet: writer@, count: count as nat }) == sources_taken(
                    r0,
                    *self,
                    all,
                    i as nat,
                    known@,
                    *wanted,
                ),
            decreases records.ended.len() - i,
        {
            let fields: &Fields = &records.ended[i];
            assert(all[i as int] == fields@);
            if self.take_source(writer, fields, known, wanted, Ghost(count as nat)) {
                count = count + 1;
            }
            i = i + 1;
        }
        if let Some(e) = error {
            return Err(e.clone());
        }
        if let Some(fields) = &records.open {
            let end: usize = lines.len();
            assert(count < end);
            if self.take_source(writer, fields, known, wanted, Ghost(count as nat)) {
                count = count + 1;
            }
        }
        Ok((count, writer.len() - start))
    }

    /// Emits the source packages of a downloaded index. Where there is none, that
    /// is noted.
    pub fn collect(
        &self,
        writer: &mut NTriplesWriter,
        download: &Option<Vec<u8>>,
        known: &SourceTracking,
        wanted: &SourcesWanted,
    ) -> (r: Result<(usize, usize), String>)
        ensures
            match *download {
                None => {
                    &&& final(writer)@ == with_dq_issue(
                        old(writer)@,
                        "debian-sources"@,
                        "sources-gz"@,
                        self.distribution@,
                        "sources-gz-unavailable"@,
                        "warning"@,
                    )
                    &&& r == Ok::<(usize, usize), String>((0usize, 6usize))
                },
                Some(bytes) => {
                    let (lines, error) = gunzipped_lines(bytes@);
                    let s = index_taken(
                        (SourcesRun { sheet: old(writer)@, count: 0 }),
                        *self,
                        lines,
                        error,
                        known@,
                        *wanted,
                    );
                    &&& final(writer)@ == s.sheet
                    &&& match error {
                        Some(e) => r is Err && r->Err_0@ == e,
                        None => r is Ok && (r->Ok_0).0 == s.count && (r->Ok_0).1
                            == final(writer)@.log.len() - old(writer)@.log.len(),
                    }
                },
            },
    {
        match download {
            None => Ok(
                (
                    0,
                    emit_dq_issue(
                        writer,
                        "debian-sources",
                        "sources-gz",
                        &self.distribution,
                        "sources-gz-unavailable",
                        "warning",
                    ),
                ),
            ),
            Some(bytes) => {
                let read: GzLines = gunzip_lines(bytes);
                self.process_index(writer, &read.lines, &read.error, known, wanted)
            },
        }
    }
}

} // verus!
