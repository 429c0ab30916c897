//! Arch Linux: package databases and the user repository.

use crate::archive::{
    gunzip_text, gunzipped_text, tar_entries, tar_gz_items, tar_gz_listing, TarEntry, TarItem,
};
use crate::deps::{
    contact_of, dependency_of, split_contact, split_dependency, Dep, Dependency, MAINTAINER,
};
use crate::ntriples::{
    bnode_id, bnode_label, bnode_literal, bnode_object, bnode_subject, boolean, link, literal,
    literal_if, number_if, pkg, NTriplesWriter, Sheet, PKG,
};
use crate::number::{i64_value, parse_i64};
use crate::pattern::{captures, regex_captures};
use crate::split::{
    lines, lines_of, pieces, split, trim, trim_end_char, trimmed, trimmed_end_char, Sep,
};
use crate::text::{
    before, cat2, cat3, cat5, copied, cut_once, empty, ends_with, has_prefix, has_suffix, head,
    lemma_views_empty, opt, same, split_once, starts_with, views,
};
use crate::textmap::{as_map, first_of, first_value, put, values_at, values_for, TextMap, Texts};
use crate::uris::{
    arch_iri, arch_uri, distro_iri, distro_uri, identity_iri, maintainer_iri, maintainer_uri,
    package_identity_uri, package_iri, package_uri, release_iri, release_uri, version_iri,
    version_uri, ARCH, FOAF, RDF_TYPE,
};
use vstd::prelude::*;

verus! {

broadcast use crate::text::lemma_views_push;

/// The pattern that takes a dependency apart.
pub const DEPENDENCY: &'static str = r"^([a-zA-Z0-9_.@+-]+)([><=]+)?(.+)?$";

/// How many packages one request to the user repository names.
pub const AUR_BATCH: usize = 100;

/// A collector of repositories of Arch Linux.
pub struct ArchCollector {
    pub mirror_url: String,
    pub repos: Vec<String>,
    pub include_aur: bool,
}

// ---------------------------------------------------------------------------
// Databases

/// The sections read so far, the section that is being read, and its values.
#[verifier::ext_equal]
pub struct DescState {
    pub sections: Map<Seq<char>, Seq<Seq<char>>>,
    pub key: Option<Seq<char>>,
    pub values: Seq<Seq<char>>,
}

pub open spec fn is_header(line: Seq<char>) -> bool {
    starts_with(line, "%"@) && ends_with(line, "%"@)
}

pub open spec fn desc_state(lines: Seq<Seq<char>>, n: nat) -> DescState
    decreases n,
{
    if n == 0 {
        DescState { sections: Map::empty(), key: None, values: Seq::empty() }
    } else {
        let s = desc_state(lines, (n - 1) as nat);
        let line = lines[n - 1];
        if is_header(line) {
            match s.key {
                Some(k) => DescState {
                    sections: s.sections.insert(k, s.values),
                    key: Some(line),
                    values: Seq::empty(),
                },
                None => DescState { key: Some(line), ..s },
            }
        } else if line.len() > 0 {
            DescState { values: s.values.push(line), ..s }
        } else {
            s
        }
    }
}

/// The sections of a description: each has a header between percent signs and
/// the lines below it that are not empty. The last section with a header counts.
pub open spec fn desc_sections(content: Seq<char>) -> Map<Seq<char>, Seq<Seq<char>>> {
    let lines = lines_of(content);
    let s = desc_state(lines, lines.len());
    match s.key {
        Some(k) => s.sections.insert(k, s.values),
        None => s.sections,
    }
}

/// Parses a description into its sections.
pub fn parse_desc_file(content: &str) -> (r: TextMap<Texts>)
    ensures
        r@ == desc_sections(content@),
{
    let all: Vec<String> = lines(content);
    let mut sections: TextMap<Texts> = TextMap::new();
    let mut key: Option<String> = None;
    let mut values: Vec<String> = Vec::new();
    let mut i: usize = 0;
    let ghost texts = views(all@);
    proof {
        lemma_views_empty();
    }
    while i < all.len()
        invariant
            i <= all.len(),
            texts == views(all@),
            sections@ == desc_state(texts, i as nat).sections,
            opt(key) == desc_state(texts, i as nat).key,
            views(values@) == desc_state(texts, i as nat).values,
        decreases all.len() - i,
    {
        proof {
            assert(texts[i as int] == all@[i as int]@);
            lemma_views_empty();
        }
        let line: &String = &all[i];
        if has_prefix(line, "%") && has_suffix(line, "%") {
            if let Some(k) = key {
                sections.insert(k, Texts { items: values });
                values = Vec::new();
            }
            key = Some(line.clone());
        } else if !empty(line) {
            values.push(line.clone());
        }
        i = i + 1;
    }
    if let Some(k) = key {
        sections.insert(k, Texts { items: values });
    }
    sections
}

/// The packages of a database, by their directories.
pub type Packages = TextMap<TextMap<Texts>>;

pub type Sections = Map<Seq<char>, Seq<Seq<char>>>;

/// The sections known for a directory.
pub open spec fn sections_at(e: Seq<(Seq<char>, Sections)>, dir: Seq<char>) -> Sections {
    let m = as_map::<TextMap<Texts>>(e);
    if m.contains_key(dir) {
        m[dir]
    } else {
        Map::empty()
    }
}

/// The packages in the first `n` items of an archive, in the order in which
/// their directories come up; or why the archive cannot be read. Descriptions
/// are in the files `desc` and `depends` of a directory; a section of a later
/// file takes the place of one that is already known.
pub open spec fn packages_in(items: Seq<TarEntry>, n: nat) -> Result<
    Seq<(Seq<char>, Sections)>,
    Seq<char>,
>
    decreases n,
{
    if n == 0 {
        Ok(Seq::empty())
    } else {
        match packages_in(items, (n - 1) as nat) {
            Err(e) => Err(e),
            Ok(done) => match items[n - 1] {
                TarEntry::Broken(e) => Err(e),
                TarEntry::Entry { path, text } => match split_once(path, "/"@) {
                    None => Ok(done),
                    Some(parts) => if parts.1 != "desc"@ && parts.1 != "depends"@ {
                        Ok(done)
                    } else {
                        match text {
                            Err(e) => Err(e),
                            Ok(t) => Ok(
                                put(
                                    done,
                                    parts.0,
                                    sections_at(done, parts.0).union_prefer_right(
                                        desc_sections(t),
                                    ),
                                ),
                            ),
                        }
                    },
                },
            },
        }
    }
}

proof fn lemma_packages_error(items: Seq<TarEntry>, m: nat, n: nat)
    requires
        m <= n,
        packages_in(items, m) is Err,
    ensures
        packages_in(items, n) == packages_in(items, m),
    decreases n,
{
    if m < n {
        lemma_packages_error(items, m, (n - 1) as nat);
    }
}

proof fn lemma_as_map_push(e: Seq<(Seq<char>, Seq<Seq<char>>)>, i: int)
    requires
        0 <= i < e.len(),
    ensures
        as_map::<Texts>(e.take(i + 1)) == as_map::<Texts>(e.take(i)).insert(e[i].0, e[i].1),
{
    assert(e.take(i + 1).drop_last() =~= e.take(i));
}

/// Adds copies of the entries of one map to another.
fn merge_into(target: &mut TextMap<Texts>, source: &TextMap<Texts>)
    ensures
        final(target)@ == old(target)@.union_prefer_right(source@),
{
    let mut i: usize = 0;
    let ghost e = source.order();
    let ghost base = target@;
    assert(as_map::<Texts>(e.take(0)) =~= Map::empty());
    assert(base.union_prefer_right(as_map::<Texts>(e.take(0))) =~= base);
    while i < source.len()
        invariant
            i <= e.len(),
            e == source.order(),
            target@ == base.union_prefer_right(as_map::<Texts>(e.take(i as int))),
        decreases e.len() - i,
    {
        let value: Texts = Texts { items: copied(&source.value_at(i).items) };
        let ghost v = value@;
        target.insert(source.key_at(i).clone(), value);
        proof {
            assert(v == e[i as int].1);
            lemma_as_map_push(e, i as int);
            assert(base.union_prefer_right(as_map::<Texts>(e.take(i as int))).insert(e[i as int].0, v)
                =~= base.union_prefer_right(as_map::<Texts>(e.take(i + 1))));
        }
        i = i + 1;
    }
    assert(e.take(i as int) =~= e);
}

pub open spec fn grouped(r: Result<Packages, String>) -> Result<
    Seq<(Seq<char>, Sections)>,
    Seq<char>,
> {
    match r {
        Ok(p) => Ok(p.order()),
        Err(e) => Err(e@),
    }
}

/// Groups the descriptions in an archive by package.
pub fn group_packages(items: &Vec<TarItem>) -> (r: Result<Packages, String>)
    ensures
        grouped(r) == packages_in(tar_entries(items@), items@.len()),
{
    let mut packages: Packages = TextMap::new();
    let mut i: usize = 0;
    let ghost all = tar_entries(items@);
    assert(packages.order() =~= Seq::empty());
    while i < items.len()
        invariant
            i <= items.len(),
            all == tar_entries(items@),
            packages_in(all, i as nat) == Ok::<Seq<(Seq<char>, Sections)>, Seq<char>>(
                packages.order(),
            ),
        decreases items.len() - i,
    {
        proof {
            assert(all[i as int] == items@[i as int]@);
            if packages_in(all, (i + 1) as nat) is Err {
                lemma_packages_error(all, (i + 1) as nat, items@.len());
            }
        }
        match &items[i] {
            TarItem::Broken(e) => {
                return Err(e.clone());
            },
            TarItem::Entry { path, text } => {
                if let Some((dir, file)) = cut_once(path, "/") {
                    if same(&file, "desc") || same(&file, "depends") {
                        match text {
                            Err(e) => {
                                return Err(e.clone());
                            },
                            Ok(t) => {
                                let sections: TextMap<Texts> = parse_desc_file(t);
                                let mut known: TextMap<Texts> = TextMap::new();
                                if let Some(before) = packages.get(&dir) {
                                    merge_into(&mut known, before);
                                    assert(Map::<Seq<char>, Seq<Seq<char>>>::empty()
                                        .union_prefer_right(before@) =~= before@);
                                }
                                merge_into(&mut known, &sections);
                                packages.insert(dir, known);
                            },
                        }
                    }
                }
            },
        }
        i = i + 1;
    }
    Ok(packages)
}

// ---------------------------------------------------------------------------
// Statements

/// The distribution, its one release and its architecture.
pub open spec fn with_distribution_metadata(w: Sheet, c: ArchCollector) -> Sheet {
    let dist = distro_iri("arch"@);
    let rel = release_iri("arch"@, "rolling"@);
    let arch = arch_iri("x86_64"@);
    let w = link(w, dist, RDF_TYPE@, pkg("Distribution"@));
    let w = literal(w, dist, pkg("projectName"@), "Arch Linux"@);
    let w = link(w, rel, RDF_TYPE@, pkg("DistributionRelease"@));
    let w = literal(w, rel, pkg("releaseCodename"@), "rolling"@);
    let w = link(w, rel, pkg("partOfDistribution"@), dist);
    link(w, arch, RDF_TYPE@, pkg("Architecture"@))
}

impl ArchCollector {
    /// The distribution, its one release and its architecture.
    pub fn emit_distribution_metadata(&self, writer: &mut NTriplesWriter) -> (r: usize)
        ensures
            final(writer)@ == with_distribution_metadata(old(writer)@, *self),
            r == final(writer)@.log.len() - old(writer)@.log.len(),
    {
        let start: usize = writer.len();
        let dist: String = distro_uri("arch");
        let rel: String = release_uri("arch", "rolling");
        let arch: String = arch_uri("x86_64");
        writer.write_triple(&dist, RDF_TYPE, &cat2(PKG, "Distribution"));
        writer.write_literal(&dist, &cat2(PKG, "projectName"), "Arch Linux");
        writer.write_triple(&rel, RDF_TYPE, &cat2(PKG, "DistributionRelease"));
        writer.write_literal(&rel, &cat2(PKG, "releaseCodename"), "rolling");
        writer.write_triple(&rel, &cat2(PKG, "partOfDistribution"), &dist);
        writer.write_triple(&arch, RDF_TYPE, &cat2(PKG, "Architecture"));
        writer.len() - start
    }
}

/// One dependency of a package, as a link and as a node of its own.
pub open spec fn with_dependency(w: Sheet, package: Seq<char>, kind: Seq<char>, d: Dep) -> Sheet {
    let target = identity_iri("arch"@, "rolling"@, "x86_64"@, d.name);
    let w = link(w, package, pkg("directlyDependsOn"@), target);
    let node = bnode_label(kind, package + "-"@ + d.name);
    let w = bnode_object(w, package, pkg("hasDependency"@), node);
    let w = bnode_subject(w, node, RDF_TYPE@, pkg("Dependency"@));
    let w = bnode_subject(w, node, pkg("dependencyTarget"@), target);
    let w = bnode_literal(w, node, pkg("dependencyType"@), kind);
    let w = match d.operator {
        Some(op) => {
            let w = match d.value {
                Some(value) => {
                    let limit = bnode_label("constraint"@, package + "-"@ + d.name);
                    let w = bnode_object(w, node, pkg("hasVersionConstraint"@), limit);
                    let w = bnode_subject(w, limit, RDF_TYPE@, pkg("VersionConstraint"@));
                    let w = bnode_literal(w, limit, pkg("versionConstraintOperator"@), op);
                    bnode_literal(w, limit, pkg("versionConstraintValue"@), value)
                },
                None => w,
            };
            w
        },
        None => w,
    };
    w
}

/// One dependency of a package, as a link and as a node of its own.
pub fn emit_dependency(
    writer: &mut NTriplesWriter,
    package: &str,
    kind: &str,
    d: &Dependency,
) -> (r: usize)
    ensures
        final(writer)@ == with_dependency(old(writer)@, package@, kind@, d@),
        r == final(writer)@.log.len() - old(writer)@.log.len(),
{
    let start: usize = writer.len();
    let target: String = package_identity_uri("arch", "rolling", "x86_64", &d.name);
    writer.write_triple(package, &cat2(PKG, "directlyDependsOn"), &target);
    let node: String = bnode_id(kind, &cat3(package, "-", &d.name));
    writer.write_bnode_object(package, &cat2(PKG, "hasDependency"), &node);
    writer.write_bnode_subject(&node, RDF_TYPE, &cat2(PKG, "Dependency"));
    writer.write_bnode_subject(&node, &cat2(PKG, "dependencyTarget"), &target);
    writer.write_bnode_literal(&node, &cat2(PKG, "dependencyType"), kind);
    if let Some(op) = &d.operator {
        if let Some(value) = &d.value {
            let limit: String = bnode_id("constraint", &cat3(package, "-", &d.name));
            writer.write_bnode_object(&node, &cat2(PKG, "hasVersionConstraint"), &limit);
            writer.write_bnode_subject(&limit, RDF_TYPE, &cat2(PKG, "VersionConstraint"));
            writer.write_bnode_literal(&limit, &cat2(PKG, "versionConstraintOperator"), op);
            writer.write_bnode_literal(&limit, &cat2(PKG, "versionConstraintValue"), value);
        }
    }
    writer.len() - start
}

/// A dependency as a database writes it, taken apart by [`DEPENDENCY`].
pub open spec fn with_dependency_entry(
    w: Sheet,
    package: Seq<char>,
    kind: Seq<char>,
    entry: Seq<char>,
) -> Sheet {
    with_dependency(w, package, kind, dependency_of(regex_captures(DEPENDENCY@, entry), entry))
}

/// The first `n` of `items`, in order.
pub open spec fn with_each_dependency_entry(
    w: Sheet,
    package: Seq<char>,
    kind: Seq<char>,
    items: Seq<Seq<char>>,
    n: nat,
) -> Sheet
    decreases n,
{
    if n == 0 {
        w
    } else {
        with_dependency_entry(
            with_each_dependency_entry(w, package, kind, items, (n - 1) as nat),
            package,
            kind,
            items[n - 1],
        )
    }
}

pub fn emit_dependency_entry(
    writer: &mut NTriplesWriter,
    package: &str,
    kind: &str,
    entry: &str,
) -> (r:
    usize)
    ensures
        final(writer)@ == with_dependency_entry(old(writer)@, package@, kind@, entry@),
        r == final(writer)@.log.len() - old(writer)@.log.len(),
{
    let d: Dependency = split_dependency(&captures(DEPENDENCY, entry), entry);
    emit_dependency(writer, package, kind, &d)
}

/// The dependencies of one kind.
pub open spec fn with_arch_deps(
    w: Sheet,
    c: ArchCollector,
    package: Seq<char>,
    deps: Seq<Seq<char>>,
    kind: Seq<char>,
) -> Sheet {
    with_each_dependency_entry(w, package, kind, deps, deps.len())
}

impl ArchCollector {
    /// The dependencies of one kind.
    pub fn emit_arch_deps(
        &self,
        writer: &mut NTriplesWriter,
        package: &str,
        deps: &Vec<String>,
        kind: &str,
    ) -> (r: usize)
        ensures
            final(writer)@ == with_arch_deps(old(writer)@, *self, package@, views(deps@), kind@),
            r == final(writer)@.log.len() - old(writer)@.log.len(),
    {
        let start: usize = writer.len();
        let ghost before_dependency_entry = writer@;
        let mut i: usize = 0;
        while i < deps.len()
            invariant
                i <= deps.len(),
                before_dependency_entry.log.len() <= writer@.log.len(),
                writer@ == with_each_dependency_entry(
                    before_dependency_entry,
                    package@,
                    kind@,
                    views(deps@),
                    i as nat,
                ),
            decreases deps.len() - i,
        {
            emit_dependency_entry(writer, package, kind, &deps[i]);
            i = i + 1;
        }
        writer.len() - start
    }
}

/// Who maintains a package.
pub open spec fn with_maintainer(
    w: Sheet,
    package: Seq<char>,
    name: Seq<char>,
    email: Seq<char>,
) -> Sheet {
    let person = maintainer_iri(email);
    let w = link(w, person, RDF_TYPE@, pkg("Maintainer"@));
    let w = literal(w, person, FOAF@ + "name"@, name);
    link(w, package, pkg("maintainedBy"@), person)
}

/// Who maintains a package.
pub fn emit_maintainer(
    writer: &mut NTriplesWriter,
    package: &str,
    name: &str,
    email: &str,
) -> (r: usize)
    ensures
        final(writer)@ == with_maintainer(old(writer)@, package@, name@, email@),
        r == final(writer)@.log.len() - old(writer)@.log.len(),
{
    let start: usize = writer.len();
    let person: String = maintainer_uri(email);
    writer.write_triple(&person, RDF_TYPE, &cat2(PKG, "Maintainer"));
    writer.write_literal(&person, &cat2(FOAF, "name"), name);
    writer.write_triple(package, &cat2(PKG, "maintainedBy"), &person);
    writer.len() - start
}

pub open spec fn with_license_name(w: Sheet, package: Seq<char>, license: Seq<char>) -> Sheet {
    literal(w, package, pkg("licenseName"@), license)
}

/// The first `n` of `items`, in order.
pub open spec fn with_each_license_name(
    w: Sheet,
    package: Seq<char>,
    items: Seq<Seq<char>>,
    n: nat,
) -> Sheet
    decreases n,
{
    if n == 0 {
        w
    } else {
        with_license_name(
            with_each_license_name(w, package, items, (n - 1) as nat),
            package,
            items[n - 1],
        )
    }
}

pub fn emit_license_name(writer: &mut NTriplesWriter, package: &str, license: &str) -> (r: usize)
    ensures
        final(writer)@ == with_license_name(old(writer)@, package@, license@),
        r == final(writer)@.log.len() - old(writer)@.log.len(),
{
    let start: usize = writer.len();
    writer.write_literal(package, &cat2(PKG, "licenseName"), license);
    writer.len() - start
}

/// A name up to the first comparison sign.
pub open spec fn unversioned(entry: Seq<char>) -> Seq<char> {
    pieces(entry, Sep::AnyOf('>', '<', '='))[0]
}

fn without_version(entry: &str) -> (r: String)
    ensures
        r@ == unversioned(entry@),
{
    let parts: Vec<String> = split(entry, &Sep::AnyOf('>', '<', '='));
    assert(views(parts@)[0] == parts@[0]@);
    parts[0].clone()
}

pub open spec fn with_conflict(w: Sheet, package: Seq<char>, entry: Seq<char>) -> Sheet {
    let name = unversioned(entry);
    literal(w, package, pkg("conflicts"@), name)
}

/// The first `n` of `items`, in order.
pub open spec fn with_each_conflict(
    w: Sheet,
    package: Seq<char>,
    items: Seq<Seq<char>>,
    n: nat,
) -> Sheet
    decreases n,
{
    if n == 0 {
        w
    } else {
        with_conflict(with_each_conflict(w, package, items, (n - 1) as nat), package, items[n - 1])
    }
}

pub fn emit_conflict(writer: &mut NTriplesWriter, package: &str, entry: &str) -> (r: usize)
    ensures
        final(writer)@ == with_conflict(old(writer)@, package@, entry@),
        r == final(writer)@.log.len() - old(writer)@.log.len(),
{
    let start: usize = writer.len();
    let name: String = without_version(entry);
    writer.write_literal(package, &cat2(PKG, "conflicts"), &name);
    writer.len() - start
}

pub open spec fn with_replaced(w: Sheet, package: Seq<char>, entry: Seq<char>) -> Sheet {
    literal(w, package, pkg("replaces"@), entry)
}

/// The first `n` of `items`, in order.
pub open spec fn with_each_replaced(
    w: Sheet,
    package: Seq<char>,
    items: Seq<Seq<char>>,
    n: nat,
) -> Sheet
    decreases n,
{
    if n == 0 {
        w
    } else {
        with_replaced(with_each_replaced(w, package, items, (n - 1) as nat), package, items[n - 1])
    }
}

pub fn emit_replaced(writer: &mut NTriplesWriter, package: &str, entry: &str) -> (r: usize)
    ensures
        final(writer)@ == with_replaced(old(writer)@, package@, entry@),
        r == final(writer)@.log.len() - old(writer)@.log.len(),
{
    let start: usize = writer.len();
    writer.write_literal(package, &cat2(PKG, "replaces"), entry);
    writer.len() - start
}

pub open spec fn with_provided(w: Sheet, package: Seq<char>, entry: Seq<char>) -> Sheet {
    literal(w, package, pkg("provides"@), before(entry, "="@))
}

/// The first `n` of `items`, in order.
pub open spec fn with_each_provided(
    w: Sheet,
    package: Seq<char>,
    items: Seq<Seq<char>>,
    n: nat,
) -> Sheet
    decreases n,
{
    if n == 0 {
        w
    } else {
        with_provided(with_each_provided(w, package, items, (n - 1) as nat), package, items[n - 1])
    }
}

pub fn emit_provided(writer: &mut NTriplesWriter, package: &str, entry: &str) -> (r: usize)
    ensures
        final(writer)@ == with_provided(old(writer)@, package@, entry@),
        r == final(writer)@.log.len() - old(writer)@.log.len(),
{
    let start: usize = writer.len();
    writer.write_literal(package, &cat2(PKG, "provides"), &head(entry, "="));
    writer.len() - start
}

/// The names of optional dependencies, without their descriptions.
pub open spec fn optional_names(deps: Seq<Seq<char>>) -> Seq<Seq<char>> {
    deps.map_values(|d: Seq<char>| trim(before(d, ":"@)))
}

fn names_of_optional(deps: &Vec<String>) -> (r: Vec<String>)
    ensures
        views(r@) == optional_names(views(deps@)),
{
    let mut out: Vec<String> = Vec::new();
    let mut i: usize = 0;
    proof {
        lemma_views_empty();
        assert(optional_names(views(deps@)).take(0) =~= Seq::empty());
    }
    while i < deps.len()
        invariant
            i <= deps.len(),
            views(out@) == optional_names(views(deps@)).take(i as int),
        decreases deps.len() - i,
    {
        let name: String = trimmed(&head(&deps[i], ":"));
        proof {
            let all = optional_names(views(deps@));
            assert(all.take(i + 1) =~= all.take(i as int).push(all[i as int]));
            assert(views(deps@)[i as int] == deps@[i as int]@);
        }
        out.push(name);
        i = i + 1;
    }
    assert(optional_names(views(deps@)).take(i as int) =~= optional_names(views(deps@)));
    out
}

/// Sizes, checksum, date and packager of a package.
pub open spec fn with_package_details(
    w: Sheet,
    fields: Map<Seq<char>,
    Seq<Seq<char>>>,
    package: Seq<char>,
) -> Sheet {
    let w = match first_value(fields, "%ISIZE%"@) {
        Some(x) => {
            number_if(w, package, pkg("installSize"@), i64_value(x))
        },
        None => w,
    };
    let w = match first_value(fields, "%CSIZE%"@) {
        Some(x) => {
            number_if(w, package, pkg("packageSize"@), i64_value(x))
        },
        None => w,
    };
    let w = match first_value(fields, "%SHA256SUM%"@) {
        Some(x) => {
            literal(w, package, pkg("checksum"@), x)
        },
        None => w,
    };
    let w = match first_value(fields, "%BUILDDATE%"@) {
        Some(x) => {
            literal(w, package, ARCH@ + "lastModified"@, x)
        },
        None => w,
    };
    let w = match first_value(fields, "%PACKAGER%"@) {
        Some(x) => {
            let w = match contact_of(regex_captures(MAINTAINER@, x)) {
                Some(who) => {
                    with_maintainer(w, package, who.name, who.email)
                },
                None => w,
            };
            w
        },
        None => w,
    };
    w
}

/// Sizes, checksum, date and packager of a package.
pub fn emit_package_details(
    writer: &mut NTriplesWriter,
    fields: &TextMap<Texts>,
    package: &str,
) -> (r: usize)
    ensures
        final(writer)@ == with_package_details(old(writer)@, fields@, package@),
        r == final(writer)@.log.len() - old(writer)@.log.len(),
{
    let start: usize = writer.len();
    if let Some(x) = first_of(fields, "%ISIZE%") {
        writer.write_integer_if(package, &cat2(PKG, "installSize"), parse_i64(&x));
    }
    if let Some(x) = first_of(fields, "%CSIZE%") {
        writer.write_integer_if(package, &cat2(PKG, "packageSize"), parse_i64(&x));
    }
    if let Some(x) = first_of(fields, "%SHA256SUM%") {
        writer.write_literal(package, &cat2(PKG, "checksum"), &x);
    }
    if let Some(x) = first_of(fields, "%BUILDDATE%") {
        writer.write_literal(package, &cat2(ARCH, "lastModified"), &x);
    }
    if let Some(x) = first_of(fields, "%PACKAGER%") {
        if let Some(who) = split_contact(&captures(MAINTAINER, &x)) {
            emit_maintainer(writer, package, &who.name, &who.email);
        }
    }
    writer.len() - start
}

/// What describes a package by itself.
pub open spec fn with_package_core(
    w: Sheet,
    fields: Map<Seq<char>,
    Seq<Seq<char>>>,
    repo: Seq<char>,
    package: Seq<char>,
    name: Seq<char>,
    version: Seq<char>,
) -> Sheet {
    let identity = identity_iri("arch"@, "rolling"@, "x86_64"@, name);
    let w = link(w, package, RDF_TYPE@, pkg("BinaryPackage"@));
    let w = link(w, package, RDF_TYPE@, ARCH@ + "ArchPackage"@);
    let w = link(w, identity, RDF_TYPE@, pkg("PackageIdentity"@));
    let w = literal(w, identity, pkg("packageName"@), name);
    let w = link(w, package, pkg("isVersionOf"@), identity);
    let w = literal(w, package, pkg("packageName"@), name);
    let ver = version_iri("arch"@, "rolling"@, name, version);
    let w = link(w, ver, RDF_TYPE@, pkg("Version"@));
    let w = literal(w, ver, pkg("versionString"@), version);
    let w = link(w, package, pkg("hasVersion"@), ver);
    let dist = distro_iri("arch"@);
    let rel = release_iri("arch"@, "rolling"@);
    let w = link(w, package, pkg("partOfDistribution"@), dist);
    let w = link(w, package, pkg("partOfRelease"@), rel);
    let w = match first_value(fields, "%ARCH%"@) {
        Some(x) => {
            link(w, package, pkg("targetArchitecture"@), arch_iri(x))
        },
        None => w,
    };
    let w = literal(w, package, ARCH@ + "inGroup"@, repo);
    let w = match first_value(fields, "%DESC%"@) {
        Some(x) => {
            literal(w, package, pkg("description"@), x)
        },
        None => w,
    };
    let w = match first_value(fields, "%URL%"@) {
        Some(x) => {
            literal(w, package, pkg("homepage"@), x)
        },
        None => w,
    };
    let licenses = values_at(fields, "%LICENSE%"@);
    let w = with_each_license_name(w, package, licenses, licenses.len());
    with_package_details(w, fields, package)
}

/// What describes a package by itself.
pub fn emit_package_core(
    writer: &mut NTriplesWriter,
    fields: &TextMap<Texts>,
    repo: &str,
    package: &str,
    name: &str,
    version: &str,
) -> (r: usize)
    ensures
        final(writer)@ == with_package_core(
            old(writer)@,
            fields@,
            repo@,
            package@,
            name@,
            version@,
        ),
        r == final(writer)@.log.len() - old(writer)@.log.len(),
        r >= 1,
{
    let start: usize = writer.len();
    let identity: String = package_identity_uri("arch", "rolling", "x86_64", name);
    writer.write_triple(package, RDF_TYPE, &cat2(PKG, "BinaryPackage"));
    writer.write_triple(package, RDF_TYPE, &cat2(ARCH, "ArchPackage"));
    writer.write_triple(&identity, RDF_TYPE, &cat2(PKG, "PackageIdentity"));
    writer.write_literal(&identity, &cat2(PKG, "packageName"), name);
    writer.write_triple(package, &cat2(PKG, "isVersionOf"), &identity);
    writer.write_literal(package, &cat2(PKG, "packageName"), name);
    let ver: String = version_uri("arch", "rolling", name, version);
    writer.write_triple(&ver, RDF_TYPE, &cat2(PKG, "Version"));
    writer.write_literal(&ver, &cat2(PKG, "versionString"), version);
    writer.write_triple(package, &cat2(PKG, "hasVersion"), &ver);
    let dist: String = distro_uri("arch");
    let rel: String = release_uri("arch", "rolling");
    writer.write_triple(package, &cat2(PKG, "partOfDistribution"), &dist);
    writer.write_triple(package, &cat2(PKG, "partOfRelease"), &rel);
    if let Some(x) = first_of(fields, "%ARCH%") {
        writer.write_triple(package, &cat2(PKG, "targetArchitecture"), &arch_uri(&x));
    }
    writer.write_literal(package, &cat2(ARCH, "inGroup"), repo);
    if let Some(x) = first_of(fields, "%DESC%") {
        writer.write_literal(package, &cat2(PKG, "description"), &x);
    }
    if let Some(x) = first_of(fields, "%URL%") {
        writer.write_literal(package, &cat2(PKG, "homepage"), &x);
    }
    let licenses: Vec<String> = values_for(fields, "%LICENSE%");
    let ghost before_license_name = writer@;
    let mut i: usize = 0;
    while i < licenses.len()
        invariant
            i <= licenses.len(),
            before_license_name.log.len() <= writer@.log.len(),
            writer@ == with_each_license_name(
                before_license_name,
                package@,
                views(licenses@),
                i as nat,
            ),
        decreases licenses.len() - i,
    {
        emit_license_name(writer, package, &licenses[i]);
        i = i + 1;
    }
    emit_package_details(writer, fields, package);
    writer.len() - start
}

/// The other packages that a package names.
pub open spec fn with_relations(
    w: Sheet,
    c: ArchCollector,
    fields: Map<Seq<char>,
    Seq<Seq<char>>>,
    package: Seq<char>,
) -> Sheet {
    let depends = values_at(fields, "%DEPENDS%"@);
    let w = with_arch_deps(w, c, package, depends, "depends"@);
    let make = values_at(fields, "%MAKEDEPENDS%"@);
    let w = with_arch_deps(w, c, package, make, "makedepends"@);
    let optional = optional_names(values_at(fields, "%OPTDEPENDS%"@));
    let w = with_arch_deps(w, c, package, optional, "optdepends"@);
    let conflicts = values_at(fields, "%CONFLICTS%"@);
    let w = with_each_conflict(w, package, conflicts, conflicts.len());
    let replaces = values_at(fields, "%REPLACES%"@);
    let w = with_each_replaced(w, package, replaces, replaces.len());
    let provides = values_at(fields, "%PROVIDES%"@);
    with_each_provided(w, package, provides, provides.len())
}

impl ArchCollector {
    /// The other packages that a package names.
    pub fn emit_relations(
        &self,
        writer: &mut NTriplesWriter,
        fields: &TextMap<Texts>,
        package: &str,
    ) -> (r: usize)
        ensures
            final(writer)@ == with_relations(old(writer)@, *self, fields@, package@),
            r == final(writer)@.log.len() - old(writer)@.log.len(),
    {
        let start: usize = writer.len();
        let depends: Vec<String> = values_for(fields, "%DEPENDS%");
        self.emit_arch_deps(writer, package, &depends, "depends");
        let make: Vec<String> = values_for(fields, "%MAKEDEPENDS%");
        self.emit_arch_deps(writer, package, &make, "makedepends");
        let optional: Vec<String> = names_of_optional(&values_for(fields, "%OPTDEPENDS%"));
        self.emit_arch_deps(writer, package, &optional, "optdepends");
        let conflicts: Vec<String> = values_for(fields, "%CONFLICTS%");
        let ghost before_conflict = writer@;
        let mut i: usize = 0;
        while i < conflicts.len()
            invariant
                i <= conflicts.len(),
                before_conflict.log.len() <= writer@.log.len(),
                writer@ == with_each_conflict(
                    before_conflict,
                    package@,
                    views(conflicts@),
                    i as nat,
                ),
            decreases conflicts.len() - i,
        {
            emit_conflict(writer, package, &conflicts[i]);
            i = i + 1;
        }
        let replaces: Vec<String> = values_for(fields, "%REPLACES%");
        let ghost before_replaced = writer@;
        let mut i: usize = 0;
        while i < replaces.len()
            invariant
                i <= replaces.len(),
                before_replaced.log.len() <= writer@.log.len(),
                writer@ == with_each_replaced(
                    before_replaced,
                    package@,
                    views(replaces@),
                    i as nat,
                ),
            decreases replaces.len() - i,
        {
            emit_replaced(writer, package, &replaces[i]);
            i = i + 1;
        }
        let provides: Vec<String> = values_for(fields, "%PROVIDES%");
        let ghost before_provided = writer@;
        let mut i: usize = 0;
        while i < provides.len()
            invariant
                i <= provides.len(),
                before_provided.log.len() <= writer@.log.len(),
                writer@ == with_each_provided(
                    before_provided,
                    package@,
                    views(provides@),
                    i as nat,
                ),
            decreases provides.len() - i,
        {
            emit_provided(writer, package, &provides[i]);
            i = i + 1;
        }
        writer.len() - start
    }
}

/// Everything that the sections of a package give; nothing without a name and a
/// version.
pub open spec fn with_arch_package_triples(
    w: Sheet,
    c: ArchCollector,
    fields: Map<Seq<char>,
    Seq<Seq<char>>>,
    repo: Seq<char>,
) -> Sheet {
    let w = match first_value(fields, "%NAME%"@) {
        Some(name) => {
            let w = match first_value(fields, "%VERSION%"@) {
                Some(version) => {
                    let package = package_iri("arch"@, "rolling"@, "x86_64"@, name, version);
                    let w = with_package_core(w, fields, repo, package, name, version);
                    with_relations(w, c, fields, package)
                },
                None => w,
            };
            w
        },
        None => w,
    };
    w
}

impl ArchCollector {
    /// Everything that the sections of a package give; nothing without a name and a
    /// version.
    pub fn emit_arch_package_triples(
        &self,
        writer: &mut NTriplesWriter,
        fields: &TextMap<Texts>,
        repo: &str,
    ) -> (r: usize)
        ensures
            final(writer)@ == with_arch_package_triples(old(writer)@, *self, fields@, repo@),
            r == final(writer)@.log.len() - old(writer)@.log.len(),
    {
        let start: usize = writer.len();
        if let Some(name) = first_of(fields, "%NAME%") {
            if let Some(version) = first_of(fields, "%VERSION%") {
                let package: String = package_uri("arch", "rolling", "x86_64", &name, &version);
                emit_package_core(writer, fields, repo, &package, &name, &version);
                self.emit_relations(writer, fields, &package);
            }
        }
        writer.len() - start
    }
}

pub open spec fn with_packages(
    w: Sheet,
    c: ArchCollector,
    packages: Seq<(Seq<char>, Sections)>,
    repo: Seq<char>,
    n: nat,
) -> Sheet
    decreases n,
{
    if n == 0 {
        w
    } else {
        with_arch_package_triples(
            with_packages(w, c, packages, repo, (n - 1) as nat),
            c,
            packages[n - 1].1,
            repo,
        )
    }
}

/// The packages in a downloaded database.
pub open spec fn database(bytes: Seq<u8>) -> Result<Seq<(Seq<char>, Sections)>, Seq<char>> {
    packages_in(tar_gz_listing(bytes), tar_gz_listing(bytes).len())
}

/// Where the database of a repository is.
pub open spec fn database_url(c: ArchCollector, repo: Seq<char>) -> Seq<char> {
    trim_end_char(c.mirror_url@, '/') + "/"@ + repo + "/os/x86_64/"@ + repo + ".db.tar.gz"@
}

impl ArchCollector {
    pub fn new(mirror_url: String, repos: Vec<String>, include_aur: bool) -> (r: Self)
        ensures
            r.mirror_url == mirror_url,
            r.repos == repos,
            r.include_aur == include_aur,
    {
        ArchCollector { mirror_url, repos, include_aur }
    }

    pub fn repo_url(&self, repo: &str) -> (r: String)
        ensures
            r@ == database_url(*self, repo@),
    {
        let mut url: String = cat5(
            &trimmed_end_char(&self.mirror_url, '/'),
            "/",
            repo,
            "/os/x86_64/",
            repo,
        );
        url.append(".db.tar.gz");
        url
    }

    /// Emits the packages of a repository.
    pub fn emit_packages(&self, writer: &mut NTriplesWriter, packages: &Packages, repo: &str) -> (r:
        usize)
        ensures
            final(writer)@ == with_packages(
                old(writer)@,
                *self,
                packages.order(),
                repo@,
                packages.order().len(),
            ),
            r == final(writer)@.log.len() - old(writer)@.log.len(),
    {
        let start: usize = writer.len();
        let ghost before = writer@;
        let mut i: usize = 0;
        while i < packages.len()
            invariant
                i <= packages.order().len(),
                before.log.len() <= writer@.log.len(),
                writer@ == with_packages(before, *self, packages.order(), repo@, i as nat),
            decreases packages.order().len() - i,
        {
            self.emit_arch_package_triples(writer, packages.value_at(i), repo);
            i = i + 1;
        }
        writer.len() - start
    }

    /// Reads a downloaded database, and emits its packages.
    pub fn process_repo(&self, writer: &mut NTriplesWriter, repo: &str, bytes: &[u8]) -> (r: Result<
        (usize, usize),
        String,
    >)
        ensures
            match database(bytes@) {
                Ok(packages) => r is Ok && final(writer)@ == with_packages(
                    old(writer)@,
                    *self,
                    packages,
                    repo@,
                    packages.len(),
                ) && (r->Ok_0).0 == packages.len() && (r->Ok_0).1 == final(writer)@.log.len()
                    - old(writer)@.log.len(),
                Err(e) => r is Err && r->Err_0@ == e && final(writer)@ == old(writer)@,
            },
    {
        let items: Vec<TarItem> = tar_gz_items(bytes);
        assert(tar_entries(items@).len() == items@.len());
        match group_packages(&items) {
            Err(e) => Err(e),
            Ok(packages) => {
                let n: usize = self.emit_packages(writer, &packages, repo);
                Ok((packages.len(), n))
            },
        }
    }
}

// ---------------------------------------------------------------------------
// The user repository

/// A package of the user repository.
pub struct AurPackage {
    pub name: String,
    pub version: Option<String>,
    pub description: Option<String>,
    pub url: Option<String>,
    pub maintainer: Option<String>,
    pub num_votes: Option<i64>,
    /// The popularity, as it is written.
    pub popularity: Option<String>,
    pub out_of_date: Option<i64>,
    pub depends: Vec<String>,
    pub make_depends: Vec<String>,
    pub license: Vec<String>,
}

/// What a [`AurPackage`] says.
#[verifier::ext_equal]
pub struct AurText {
    pub name: Seq<char>,
    pub version: Option<Seq<char>>,
    pub description: Option<Seq<char>>,
    pub url: Option<Seq<char>>,
    pub maintainer: Option<Seq<char>>,
    pub num_votes: Option<i64>,
    pub popularity: Option<Seq<char>>,
    pub out_of_date: Option<i64>,
    pub depends: Seq<Seq<char>>,
    pub make_depends: Seq<Seq<char>>,
    pub license: Seq<Seq<char>>,
}

impl View for AurPackage {
    type V = AurText;

    open spec fn view(&self) -> AurText {
        AurText {
            name: self.name@,
            version: crate::text::opt(self.version),
            description: crate::text::opt(self.description),
            url: crate::text::opt(self.url),
            maintainer: crate::text::opt(self.maintainer),
            num_votes: self.num_votes,
            popularity: crate::text::opt(self.popularity),
            out_of_date: self.out_of_date,
            depends: crate::text::views(self.depends@),
            make_depends: crate::text::views(self.make_depends@),
            license: crate::text::views(self.license@),
        }
    }
}

/// The views of a list of records.
pub open spec fn aur_package_views(v: Seq<AurPackage>) -> Seq<AurText> {
    v.map_values(|x: AurPackage| x@)
}

pub open spec fn aur_version(package: AurText) -> Seq<char> {
    match package.version {
        Some(v) => v,
        None => "unknown"@,
    }
}

fn version_of(package: &AurPackage) -> (r: String)
    ensures
        r@ == aur_version(package@),
{
    match &package.version {
        Some(v) => v.clone(),
        None => "unknown".to_owned(),
    }
}

/// Everything that a package of the user repository gives.
pub open spec fn with_aur_package_triples(w: Sheet, c: ArchCollector, entry: AurText) -> Sheet {
    let version = aur_version(entry);
    let package = package_iri("arch"@, "aur"@, "x86_64"@, entry.name, version);
    let identity = identity_iri("arch"@, "aur"@, "x86_64"@, entry.name);
    let w = link(w, package, RDF_TYPE@, pkg("BinaryPackage"@));
    let w = link(w, package, RDF_TYPE@, ARCH@ + "ArchPackage"@);
    let w = link(w, package, RDF_TYPE@, ARCH@ + "AUR"@);
    let w = link(w, identity, RDF_TYPE@, pkg("PackageIdentity"@));
    let w = literal(w, identity, pkg("packageName"@), entry.name);
    let w = link(w, package, pkg("isVersionOf"@), identity);
    let w = literal(w, package, pkg("packageName"@), entry.name);
    let ver = version_iri("arch"@, "aur"@, entry.name, version);
    let w = link(w, ver, RDF_TYPE@, pkg("Version"@));
    let w = literal(w, ver, pkg("versionString"@), version);
    let w = link(w, package, pkg("hasVersion"@), ver);
    let dist = distro_iri("arch"@);
    let w = link(w, package, pkg("partOfDistribution"@), dist);
    let w = literal_if(w, package, pkg("description"@), entry.description);
    let w = literal_if(w, package, pkg("homepage"@), entry.url);
    let w = number_if(w, package, ARCH@ + "aurVotes"@, entry.num_votes);
    let w = literal_if(w, package, ARCH@ + "aurPopularity"@, entry.popularity);
    let w = if entry.out_of_date is Some {
        boolean(w, package, ARCH@ + "outOfDate"@, true)
    } else {
        w
    };
    let w = match entry.maintainer {
        Some(who) => {
            with_maintainer(w, package, who, who + "@aur.archlinux.org"@)
        },
        None => w,
    };
    let w = with_arch_deps(w, c, package, entry.depends, "depends"@);
    let w = with_arch_deps(w, c, package, entry.make_depends, "makedepends"@);
    with_each_license_name(w, package, entry.license, entry.license.len())
}

impl ArchCollector {
    /// Everything that a package of the user repository gives.
    pub fn emit_aur_package_triples(
        &self,
        writer: &mut NTriplesWriter,
        entry: &AurPackage,
    ) -> (r: usize)
        ensures
            final(writer)@ == with_aur_package_triples(old(writer)@, *self, entry@),
            r == final(writer)@.log.len() - old(writer)@.log.len(),
            r >= 1,
    {
        let start: usize = writer.len();
        let version: String = version_of(entry);
        let package: String = package_uri("arch", "aur", "x86_64", &entry.name, &version);
        let identity: String = package_identity_uri("arch", "aur", "x86_64", &entry.name);
        writer.write_triple(&package, RDF_TYPE, &cat2(PKG, "BinaryPackage"));
        writer.write_triple(&package, RDF_TYPE, &cat2(ARCH, "ArchPackage"));
        writer.write_triple(&package, RDF_TYPE, &cat2(ARCH, "AUR"));
        writer.write_triple(&identity, RDF_TYPE, &cat2(PKG, "PackageIdentity"));
        writer.write_literal(&identity, &cat2(PKG, "packageName"), &entry.name);
        writer.write_triple(&package, &cat2(PKG, "isVersionOf"), &identity);
        writer.write_literal(&package, &cat2(PKG, "packageName"), &entry.name);
        let ver: String = version_uri("arch", "aur", &entry.name, &version);
        writer.write_triple(&ver, RDF_TYPE, &cat2(PKG, "Version"));
        writer.write_literal(&ver, &cat2(PKG, "versionString"), &version);
        writer.write_triple(&package, &cat2(PKG, "hasVersion"), &ver);
        let dist: String = distro_uri("arch");
        writer.write_triple(&package, &cat2(PKG, "partOfDistribution"), &dist);
        writer.write_literal_if(&package, &cat2(PKG, "description"), &entry.description);
        writer.write_literal_if(&package, &cat2(PKG, "homepage"), &entry.url);
        writer.write_integer_if(&package, &cat2(ARCH, "aurVotes"), entry.num_votes);
        writer.write_literal_if(&package, &cat2(ARCH, "aurPopularity"), &entry.popularity);
        if entry.out_of_date.is_some() {
            writer.write_boolean(&package, &cat2(ARCH, "outOfDate"), true);
        }
        if let Some(who) = &entry.maintainer {
            emit_maintainer(writer, &package, who, &cat2(who, "@aur.archlinux.org"));
        }
        self.emit_arch_deps(writer, &package, &entry.depends, "depends");
        self.emit_arch_deps(writer, &package, &entry.make_depends, "makedepends");
        let ghost before_license_name = writer@;
        let mut i: usize = 0;
        while i < entry.license.len()
            invariant
                i <= entry.license.len(),
                before_license_name.log.len() <= writer@.log.len(),
                writer@ == with_each_license_name(
                    before_license_name,
                    package@,
                    views(entry.license@),
                    i as nat,
                ),
            decreases entry.license.len() - i,
        {
            emit_license_name(writer, &package, &entry.license[i]);
            i = i + 1;
        }
        writer.len() - start
    }
}

/// Whether a line of the package list names a package.
pub open spec fn names_package(line: Seq<char>) -> bool {
    line.len() > 0 && !starts_with(line, "#"@)
}

pub open spec fn listed_names(lines: Seq<Seq<char>>) -> Seq<Seq<char>>
    decreases lines.len(),
{
    if lines.len() == 0 {
        Seq::empty()
    } else {
        let done = listed_names(lines.drop_last());
        if names_package(lines.last()) {
            done.push(lines.last())
        } else {
            done
        }
    }
}

/// The names in the text of the package list.
pub fn parse_aur_list(content: &str) -> (r: Vec<String>)
    ensures
        views(r@) == listed_names(lines_of(content@)),
{
    let all: Vec<String> = lines(content);
    let mut names: Vec<String> = Vec::new();
    let mut i: usize = 0;
    let ghost texts = views(all@);
    proof {
        lemma_views_empty();
        assert(texts.take(0) =~= Seq::empty());
    }
    while i < all.len()
        invariant
            i <= all.len(),
            texts == views(all@),
            views(names@) == listed_names(texts.take(i as int)),
        decreases all.len() - i,
    {
        proof {
            assert(texts.take(i + 1).drop_last() =~= texts.take(i as int));
            assert(texts.take(i + 1).last() == all@[i as int]@);
        }
        if !empty(&all[i]) && !has_prefix(&all[i], "#") {
            names.push(all[i].clone());
        }
        i = i + 1;
    }
    assert(texts.take(i as int) =~= texts);
    names
}

pub open spec fn names_outcome(
    r: Result<Vec<String>,
    String>,
) -> Result<Seq<Seq<char>>, Seq<char>> {
    match r {
        Ok(v) => Ok(views(v@)),
        Err(e) => Err(e@),
    }
}

/// The names in a downloaded package list.
pub fn unpack_aur_list(bytes: &[u8]) -> (r: Result<Vec<String>, String>)
    ensures
        names_outcome(r) == match gunzipped_text(bytes@) {
            Ok(text) => Ok(listed_names(lines_of(text))),
            Err(e) => Err(e),
        },
{
    match gunzip_text(bytes) {
        Ok(text) => Ok(parse_aur_list(&text)),
        Err(e) => Err(e),
    }
}

/// The arguments of a request for a list of names.
pub open spec fn aur_arguments(names: Seq<Seq<char>>) -> Seq<char>
    decreases names.len(),
{
    if names.len() == 0 {
        Seq::empty()
    } else if names.len() == 1 {
        "arg[]="@ + names[0]
    } else {
        aur_arguments(names.drop_last()) + "&"@ + "arg[]="@ + names.last()
    }
}

/// The request for the names `names[from..to]`.
pub fn aur_info_url(names: &Vec<String>, from: usize, to: usize) -> (r: String)
    requires
        from <= to <= names@.len(),
    ensures
        r@ == "https://aur.archlinux.org/rpc/v5/info?"@ + aur_arguments(
            views(names@).subrange(from as int, to as int),
        ),
{
    let mut arguments: String = String::new();
    let mut i: usize = from;
    let ghost all = views(names@);
    assert(all.subrange(from as int, from as int) =~= Seq::empty());
    while i < to
        invariant
            from <= i <= to <= names@.len(),
            all == views(names@),
            arguments@ == aur_arguments(all.subrange(from as int, i as int)),
        decreases to - i,
    {
        proof {
            let now = all.subrange(from as int, i + 1);
            assert(now.drop_last() =~= all.subrange(from as int, i as int));
            assert(now.last() == names@[i as int]@);
        }
        if i > from {
            arguments.append("&");
        }
        arguments.append("arg[]=");
        arguments.append(&names[i]);
        assert(i == from ==> arguments@ =~= "arg[]="@ + names@[i as int]@);
        i = i + 1;
    }
    cat2("https://aur.archlinux.org/rpc/v5/info?", &arguments)
}

/// The range of names that the request that starts at `from` covers.
pub fn next_batch(len: usize, from: usize) -> (r: usize)
    requires
        from <= len,
    ensures
        r == if from + AUR_BATCH <= len {
            from + AUR_BATCH
        } else {
            len as int
        },
        from < len ==> r > from,
{
    if len - from >= AUR_BATCH {
        from + AUR_BATCH
    } else {
        len
    }
}

// ---------------------------------------------------------------------------
// A run

/// A downloaded database, or the fact that there is none.
pub enum RepoDatabase {
    Bytes(Vec<u8>),
    Failed,
}

pub open spec fn with_repo(w: Sheet, c: ArchCollector, repo: Seq<char>, db: RepoDatabase) -> Sheet {
    match db {
        RepoDatabase::Bytes(bytes) => match database(bytes@) {
            Ok(packages) => with_packages(w, c, packages, repo, packages.len()),
            Err(e) => w,
        },
        RepoDatabase::Failed => w,
    }
}

pub open spec fn repo_count(db: RepoDatabase) -> nat {
    match db {
        RepoDatabase::Bytes(bytes) => match database(bytes@) {
            Ok(packages) => packages.len(),
            Err(e) => 0,
        },
        RepoDatabase::Failed => 0,
    }
}

pub open spec fn with_aur(w: Sheet, c: ArchCollector, packages: Seq<AurText>, n: nat) -> Sheet
    decreases n,
{
    if n == 0 {
        w
    } else {
        with_aur_package_triples(with_aur(w, c, packages, (n - 1) as nat), c, packages[n - 1])
    }
}

impl ArchCollector {
    /// Emits what a repository gives; one that cannot be had or read gives nothing.
    pub fn collect_repo(&self, writer: &mut NTriplesWriter, repo: &str, db: &RepoDatabase) -> (r: (
        usize,
        usize,
    ))
        ensures
            final(writer)@ == with_repo(old(writer)@, *self, repo@, *db),
            r.0 == repo_count(*db),
            r.1 == final(writer)@.log.len() - old(writer)@.log.len(),
    {
        match db {
            RepoDatabase::Bytes(bytes) => match self.process_repo(writer, repo, bytes) {
                Ok(counts) => counts,
                Err(_) => (0, 0),
            },
            RepoDatabase::Failed => (0, 0),
        }
    }

    /// Emits packages of the user repository.
    pub fn process_aur(&self, writer: &mut NTriplesWriter, packages: &Vec<AurPackage>) -> (r: (
        usize,
        usize,
    ))
        ensures
            final(writer)@ == with_aur(
                old(writer)@,
                *self,
                aur_package_views(packages@),
                packages@.len(),
            ),
            r.0 == packages@.len(),
            r.1 == final(writer)@.log.len() - old(writer)@.log.len(),
    {
        let start: usize = writer.len();
        let ghost before = writer@;
        let mut i: usize = 0;
        while i < packages.len()
            invariant
                i <= packages.len(),
                before.log.len() <= writer@.log.len(),
                writer@ == with_aur(before, *self, aur_package_views(packages@), i as nat),
            decreases packages.len() - i,
        {
            self.emit_aur_package_triples(writer, &packages[i]);
            assert(aur_package_views(packages@)[i as int] == packages@[i as int]@);
            i = i + 1;
        }
        (packages.len(), writer.len() - start)
    }
}

/// What the first `n` repositories give.
pub open spec fn with_repos(w: Sheet, c: ArchCollector, dbs: Seq<RepoDatabase>, n: nat) -> Sheet
    decreases n,
{
    if n == 0 {
        w
    } else {
        with_repo(with_repos(w, c, dbs, (n - 1) as nat), c, c.repos@[n - 1]@, dbs[n - 1])
    }
}

/// How many packages the first `n` repositories hold.
pub open spec fn repos_count(dbs: Seq<RepoDatabase>, n: nat) -> nat
    decreases n,
{
    if n == 0 {
        0
    } else {
        repos_count(dbs, (n - 1) as nat) + repo_count(dbs[n - 1])
    }
}

/// The packages of the user repository that a run takes: those that came, where
/// they are asked for.
pub open spec fn taken_from_aur(c: ArchCollector, aur: Option<Vec<AurPackage>>) -> Seq<AurText> {
    match aur {
        Some(packages) => if c.include_aur {
            aur_package_views(packages@)
        } else {
            Seq::empty()
        },
        None => Seq::empty(),
    }
}

impl ArchCollector {
    fn emit_repos(&self, writer: &mut NTriplesWriter, databases: &Vec<RepoDatabase>) -> (r: Option<
        usize,
    >)
        requires
            databases@.len() == self.repos@.len(),
        ensures
            final(writer)@ == with_repos(old(writer)@, *self, databases@, databases@.len()),
            old(writer)@.log.len() <= final(writer)@.log.len(),
            r is Some <==> repos_count(databases@, databases@.len()) <= usize::MAX,
            r is Some ==> r->0 == repos_count(databases@, databases@.len()),
    {
        let ghost before = writer@;
        let mut packages: Option<usize> = Some(0);
        let mut i: usize = 0;
        while i < databases.len()
            invariant
                i <= databases.len(),
                databases@.len() == self.repos@.len(),
                before.log.len() <= writer@.log.len(),
                packages is Some <==> repos_count(databases@, i as nat) <= usize::MAX,
                packages is Some ==> packages->0 == repos_count(databases@, i as nat),
                writer@ == with_repos(before, *self, databases@, i as nat),
            decreases databases.len() - i,
        {
            let counts: (usize, usize) = self.collect_repo(writer, &self.repos[i], &databases[i]);
            packages = match packages {
                Some(n) => n.checked_add(counts.0),
                None => None,
            };
            i = i + 1;
        }
        packages
    }

    fn emit_aur(&self, writer: &mut NTriplesWriter, aur: &Option<Vec<AurPackage>>) -> (r: usize)
        ensures
            ({
                let taken = taken_from_aur(*self, *aur);
                &&& final(writer)@ == with_aur(old(writer)@, *self, taken, taken.len())
                &&& r == taken.len()
            }),
            old(writer)@.log.len() <= final(writer)@.log.len(),
    {
        match aur {
            Some(found) => if self.include_aur {
                self.process_aur(writer, found);
                found.len()
            } else {
                0
            },
            None => 0,
        }
    }

    /// Emits everything that the repositories and the user repository give. Returns
    /// how many packages there are, and how many statements beside those of the
    /// distribution; nothing where the packages are too many to count.
    pub fn collect(
        &self,
        writer: &mut NTriplesWriter,
        databases: &Vec<RepoDatabase>,
        aur: &Option<Vec<AurPackage>>,
    ) -> (r: Option<(usize, usize)>)
        requires
            databases@.len() == self.repos@.len(),
        ensures
            ({
                let head = with_distribution_metadata(old(writer)@, *self);
                let body = with_repos(head, *self, databases@, databases@.len());
                let taken = taken_from_aur(*self, *aur);
                let total = repos_count(databases@, databases@.len()) + taken.len();
                &&& final(writer)@ == with_aur(body, *self, taken, taken.len())
                &&& r is Some <==> total <= usize::MAX
                &&& r is Some ==> (r->0).0 == total && (r->0).1 == final(writer)@.log.len()
                    - head.log.len()
            }),
    {
        self.emit_distribution_metadata(writer);
        let start: usize = writer.len();
        let packages: Option<usize> = self.emit_repos(writer, databases);
        let taken: usize = self.emit_aur(writer, aur);
        match packages {
            Some(n) => match n.checked_add(taken) {
                Some(total) => Some((total, writer.len() - start)),
                None => None,
            },
            None => None,
        }
    }
}

} // verus!
