//! Buildroot: the makefiles of packages.

use crate::casing::{to_uppercase, uppercase};
use crate::ntriples::{
    bnode_id, bnode_label, bnode_object, bnode_subject, boolean, link, literal, literal_if, pkg,
    NTriplesWriter, Sheet, PKG,
};
use crate::pattern::{captured, first_group};
use crate::split::{
    lines, lines_of, split_words, trim, trim_end, trim_end_char, trim_start, trimmed, trimmed_end,
    trimmed_end_char, trimmed_start, words, Sep,
};
use crate::text::{
    cat2, cat3, cut_once, empty, ends_with, has_prefix, has_suffix, lemma_views_empty, opt,
    replace_all, replaced, same, split_once, starts_with, strip_prefix, views, without_prefix,
};
use crate::uris::{
    dep_type_iri, dep_type_uri, distro_iri, distro_uri, identity_iri, package_identity_uri,
    package_iri, package_uri, release_iri, release_uri, spdx_iri, spdx_license_uri, version_iri,
    version_uri, BUILDROOT, RDF_TYPE,
};
use vstd::prelude::*;

verus! {

broadcast use crate::text::lemma_views_push;

/// The line that names the infrastructure of a package.
pub const INFRASTRUCTURE: &'static str = r"\$\(eval\s+\$\(([a-z0-9-]+)\)\)";

/// A package as its makefile describes it.
pub struct BuildrootPackage {
    pub name: String,
    pub version: Option<String>,
    pub source: Option<String>,
    pub site: Option<String>,
    pub site_method: Option<String>,
    pub license: Option<String>,
    pub license_files: Option<String>,
    pub dependencies: Vec<String>,
    pub host_dependencies: Vec<String>,
    pub install_staging: bool,
    pub install_target: bool,
    pub cpe_vendor: Option<String>,
    pub cpe_product: Option<String>,
    pub conf_opts: Option<String>,
    pub infrastructure: Option<String>,
}

/// What a [`BuildrootPackage`] says.
#[verifier::ext_equal]
pub struct Described {
    pub name: Seq<char>,
    pub version: Option<Seq<char>>,
    pub source: Option<Seq<char>>,
    pub site: Option<Seq<char>>,
    pub site_method: Option<Seq<char>>,
    pub license: Option<Seq<char>>,
    pub license_files: Option<Seq<char>>,
    pub dependencies: Seq<Seq<char>>,
    pub host_dependencies: Seq<Seq<char>>,
    pub install_staging: bool,
    pub install_target: bool,
    pub cpe_vendor: Option<Seq<char>>,
    pub cpe_product: Option<Seq<char>>,
    pub conf_opts: Option<Seq<char>>,
    pub infrastructure: Option<Seq<char>>,
}

impl View for BuildrootPackage {
    type V = Described;

    open spec fn view(&self) -> Described {
        Described {
            name: self.name@,
            version: crate::text::opt(self.version),
            source: crate::text::opt(self.source),
            site: crate::text::opt(self.site),
            site_method: crate::text::opt(self.site_method),
            license: crate::text::opt(self.license),
            license_files: crate::text::opt(self.license_files),
            dependencies: crate::text::views(self.dependencies@),
            host_dependencies: crate::text::views(self.host_dependencies@),
            install_staging: self.install_staging,
            install_target: self.install_target,
            cpe_vendor: crate::text::opt(self.cpe_vendor),
            cpe_product: crate::text::opt(self.cpe_product),
            conf_opts: crate::text::opt(self.conf_opts),
            infrastructure: crate::text::opt(self.infrastructure),
        }
    }
}

/// A collector of a Buildroot tree.
pub struct BuildrootCollector {
    pub distro_name: String,
    pub release_name: String,
    pub repo_path: String,
    pub graph_uri: Option<String>,
}

// ---------------------------------------------------------------------------
// Makefiles

/// A package of which nothing but the name is known.
pub open spec fn undescribed(name: Seq<char>) -> Described {
    Described {
        name,
        version: None,
        source: None,
        site: None,
        site_method: None,
        license: None,
        license_files: None,
        dependencies: Seq::empty(),
        host_dependencies: Seq::empty(),
        install_staging: false,
        install_target: false,
        cpe_vendor: None,
        cpe_product: None,
        conf_opts: None,
        infrastructure: None,
    }
}

/// The prefix of the variables of a package: `lib-foo` has `LIB_FOO`.
pub open spec fn variable_prefix(name: Seq<char>) -> Seq<char> {
    replace_all(uppercase(name), "-"@, "_"@) + "_"@
}

pub fn prefix_of(name: &str) -> (r: String)
    ensures
        r@ == variable_prefix(name@),
{
    proof {
        reveal_strlit("-");
    }
    cat2(&replaced(&to_uppercase(name), "-", "_"), "_")
}

/// The words that do, or do not, name a package for the build host.
pub open spec fn host_words(ws: Seq<Seq<char>>, host: bool) -> Seq<Seq<char>>
    decreases ws.len(),
{
    if ws.len() == 0 {
        Seq::empty()
    } else {
        let done = host_words(ws.drop_last(), host);
        if starts_with(ws.last(), "host-"@) == host {
            done.push(ws.last())
        } else {
            done
        }
    }
}

/// `p` with more dependencies; those for the build host are kept apart.
pub open spec fn depending_on(p: Described, ws: Seq<Seq<char>>) -> Described {
    Described {
        dependencies: p.dependencies + host_words(ws, false),
        host_dependencies: p.host_dependencies + host_words(ws, true),
        ..p
    }
}

/// `p` with a variable assigned. Variables that say nothing of the package
/// change nothing.
pub open spec fn assigned(p: Described, var: Seq<char>, value: Seq<char>) -> Described {
    if var == "VERSION"@ {
        Described { version: Some(value), ..p }
    } else if var == "SOURCE"@ {
        Described { source: Some(value), ..p }
    } else if var == "SITE"@ {
        Described { site: Some(value), ..p }
    } else if var == "SITE_METHOD"@ {
        Described { site_method: Some(value), ..p }
    } else if var == "LICENSE"@ {
        Described { license: Some(value), ..p }
    } else if var == "LICENSE_FILES"@ {
        Described { license_files: Some(value), ..p }
    } else if var == "DEPENDENCIES"@ {
        depending_on(p, words(value, Sep::Blank))
    } else if var == "HOST_DEPENDENCIES"@ {
        Described { host_dependencies: p.host_dependencies + words(value, Sep::Blank), ..p }
    } else if var == "INSTALL_STAGING"@ {
        Described { install_staging: trim(value) == "YES"@, ..p }
    } else if var == "INSTALL_TARGET"@ {
        Described { install_target: trim(value) == "YES"@, ..p }
    } else if var == "CPE_ID_VENDOR"@ {
        Described { cpe_vendor: Some(value), ..p }
    } else if var == "CPE_ID_PRODUCT"@ {
        Described { cpe_product: Some(value), ..p }
    } else if var == "CONF_OPTS"@ {
        Described { conf_opts: Some(value), ..p }
    } else {
        p
    }
}

/// `p` after a whole line, with its continuations joined to it.
pub open spec fn after_line(p: Described, prefix: Seq<char>, line: Seq<char>) -> Described {
    match strip_prefix(trim_start(line), prefix) {
        Some(rest) => match split_once(rest, "="@) {
            Some(parts) => assigned(p, trim(parts.0), trim(parts.1)),
            None => p,
        },
        None => p,
    }
}

/// A package, and the beginning of a line that goes on.
#[verifier::ext_equal]
pub struct MkState {
    pub package: Described,
    pub continued: Seq<char>,
}

pub open spec fn goes_on(line: Seq<char>) -> bool {
    ends_with(trim_end(line), "\\"@)
}

pub open spec fn line_joined(s: MkState, prefix: Seq<char>, line: Seq<char>) -> MkState {
    let full = if s.continued.len() == 0 {
        trim(line)
    } else {
        s.continued + line
    };
    if s.continued.len() > 0 && goes_on(line) {
        MkState { continued: trim_end_char(full, '\\'), ..s }
    } else if goes_on(full) {
        MkState { continued: trim_end_char(full, '\\'), ..s }
    } else {
        MkState { package: after_line(s.package, prefix, full), continued: Seq::empty() }
    }
}

/// The state after one more line, given the infrastructure that the line names.
pub open spec fn line_read(
    s: MkState,
    prefix: Seq<char>,
    line: Seq<char>,
    infrastructure: Option<Seq<char>>,
) -> MkState {
    let p = match infrastructure {
        Some(x) => Described { infrastructure: Some(x), ..s.package },
        None => s.package,
    };
    line_joined(MkState { package: p, ..s }, prefix, line)
}

pub open spec fn mk_state(name: Seq<char>, lines: Seq<Seq<char>>, n: nat) -> MkState
    decreases n,
{
    if n == 0 {
        MkState { package: undescribed(name), continued: Seq::empty() }
    } else {
        line_read(
            mk_state(name, lines, (n - 1) as nat),
            variable_prefix(name),
            lines[n - 1],
            first_group(INFRASTRUCTURE@, lines[n - 1], 1),
        )
    }
}

/// The package that a makefile describes.
pub open spec fn described(name: Seq<char>, content: Seq<char>) -> Described {
    let lines = lines_of(content);
    mk_state(name, lines, lines.len()).package
}

fn blank_package(name: &str) -> (r: BuildrootPackage)
    ensures
        r@ == undescribed(name@),
{
    proof {
        lemma_views_empty();
    }
    BuildrootPackage {
        name: name.to_owned(),
        version: None,
        source: None,
        site: None,
        site_method: None,
        license: None,
        license_files: None,
        dependencies: Vec::new(),
        host_dependencies: Vec::new(),
        install_staging: false,
        install_target: false,
        cpe_vendor: None,
        cpe_product: None,
        conf_opts: None,
        infrastructure: None,
    }
}

fn add_dependencies(p: &mut BuildrootPackage, value: &str)
    ensures
        final(p)@ == depending_on(old(p)@, words(value@, Sep::Blank)),
{
    let ws: Vec<String> = split_words(value, &Sep::Blank);
    let mut i: usize = 0;
    let ghost all = views(ws@);
    let ghost p0 = p@;
    assert(all.take(0) =~= Seq::empty());
    assert(p0.dependencies + Seq::<Seq<char>>::empty() =~= p0.dependencies);
    assert(p0.host_dependencies + Seq::<Seq<char>>::empty() =~= p0.host_dependencies);
    while i < ws.len()
        invariant
            i <= ws.len(),
            all == views(ws@),
            p@ == (Described {
                dependencies: p0.dependencies + host_words(all.take(i as int), false),
                host_dependencies: p0.host_dependencies + host_words(all.take(i as int), true),
                ..p0
            }),
        decreases ws.len() - i,
    {
        proof {
            assert(all.take(i + 1).drop_last() =~= all.take(i as int));
            assert(all.take(i + 1).last() == ws@[i as int]@);
        }
        let ghost deps = host_words(all.take(i as int), false);
        let ghost hosts = host_words(all.take(i as int), true);
        let ghost word = ws@[i as int]@;
        if has_prefix(&ws[i], "host-") {
            p.host_dependencies.push(ws[i].clone());
            assert(p0.host_dependencies + hosts.push(word) =~= (p0.host_dependencies + hosts).push(
                word,
            ));
        } else {
            p.dependencies.push(ws[i].clone());
            assert(p0.dependencies + deps.push(word) =~= (p0.dependencies + deps).push(word));
        }
        i = i + 1;
    }
    assert(all.take(i as int) =~= all);
}

/// Assigns a variable of a package.
fn assign(p: &mut BuildrootPackage, var: &str, value: String)
    ensures
        final(p)@ == assigned(old(p)@, var@, value@),
{
    if same(var, "VERSION") {
        p.version = Some(value);
    } else if same(var, "SOURCE") {
        p.source = Some(value);
    } else if same(var, "SITE") {
        p.site = Some(value);
    } else if same(var, "SITE_METHOD") {
        p.site_method = Some(value);
    } else if same(var, "LICENSE") {
        p.license = Some(value);
    } else if same(var, "LICENSE_FILES") {
        p.license_files = Some(value);
    } else if same(var, "DEPENDENCIES") {
        add_dependencies(p, &value);
    } else if same(var, "HOST_DEPENDENCIES") {
        let mut ws: Vec<String> = split_words(&value, &Sep::Blank);
        let ghost was = p.host_dependencies@;
        let ghost got = ws@;
        p.host_dependencies.append(&mut ws);
        assert(views(was + got) =~= views(was) + views(got));
    } else if same(var, "INSTALL_STAGING") {
        p.install_staging = same(&trimmed(&value), "YES");
    } else if same(var, "INSTALL_TARGET") {
        p.install_target = same(&trimmed(&value), "YES");
    } else if same(var, "CPE_ID_VENDOR") {
        p.cpe_vendor = Some(value);
    } else if same(var, "CPE_ID_PRODUCT") {
        p.cpe_product = Some(value);
    } else if same(var, "CONF_OPTS") {
        p.conf_opts = Some(value);
    }
}

fn take_line(p: &mut BuildrootPackage, prefix: &str, line: &str)
    ensures
        final(p)@ == after_line(old(p)@, prefix@, line@),
{
    if let Some(rest) = without_prefix(&trimmed_start(line), prefix) {
        if let Some((var, value)) = cut_once(&rest, "=") {
            assign(p, &trimmed(&var), trimmed(&value));
        }
    }
}

/// Reads one line of a makefile, given the infrastructure that it names.
pub fn read_line(
    p: &mut BuildrootPackage,
    continued: &mut String,
    prefix: &str,
    line: &str,
    infrastructure: Option<String>,
)
    ensures
        (MkState { package: final(p)@, continued: final(continued)@ }) == line_read(
            (MkState { package: old(p)@, continued: old(continued)@ }),
            prefix@,
            line@,
            opt(infrastructure),
        ),
{
    if infrastructure.is_some() {
        p.infrastructure = infrastructure;
    }
    let fresh: bool = empty(continued);
    let full: String = if fresh {
        trimmed(line)
    } else {
        cat2(continued, line)
    };
    let open: bool = if fresh {
        false
    } else {
        has_suffix(&trimmed_end(line), "\\")
    };
    if open || has_suffix(&trimmed_end(&full), "\\") {
        *continued = trimmed_end_char(&full, '\\');
    } else {
        take_line(p, prefix, &full);
        *continued = String::new();
    }
}

impl BuildrootCollector {
    pub fn new(distro_name: String, release_name: String, repo_path: String) -> (r: Self)
        ensures
            r.distro_name == distro_name,
            r.release_name == release_name,
            r.repo_path == repo_path,
            r.graph_uri is None,
    {
        BuildrootCollector { distro_name, release_name, repo_path, graph_uri: None }
    }

    /// The collector with the graph that its statements belong to.
    pub fn with_graph(self, graph_uri: Option<String>) -> (r: Self)
        ensures
            r == (BuildrootCollector { graph_uri, ..self }),
    {
        BuildrootCollector {
            distro_name: self.distro_name,
            release_name: self.release_name,
            repo_path: self.repo_path,
            graph_uri,
        }
    }

    /// Reads the makefile of a package.
    pub fn parse_package(&self, name: &str, content: &str) -> (r: BuildrootPackage)
        ensures
            r@ == described(name@, content@),
    {
        let all: Vec<String> = lines(content);
        let prefix: String = prefix_of(name);
        let mut p: BuildrootPackage = blank_package(name);
        let mut continued: String = String::new();
        let mut i: usize = 0;
        let ghost texts = views(all@);
        assert(continued@ =~= Seq::empty());
        while i < all.len()
            invariant
                i <= all.len(),
                texts == views(all@),
                prefix@ == variable_prefix(name@),
                (MkState { package: p@, continued: continued@ }) == mk_state(
                    name@,
                    texts,
                    i as nat,
                ),
            decreases all.len() - i,
        {
            assert(texts[i as int] == all@[i as int]@);
            let infrastructure: Option<String> = captured(INFRASTRUCTURE, &all[i], 1);
            read_line(&mut p, &mut continued, &prefix, &all[i], infrastructure);
            i = i + 1;
        }
        p
    }
}

// ---------------------------------------------------------------------------
// Statements

/// The distribution and its release.
pub open spec fn with_distribution_metadata(w: Sheet, c: BuildrootCollector) -> Sheet {
    let dist = distro_iri(c.distro_name@);
    let rel = release_iri(c.distro_name@, c.release_name@);
    let w = link(w, dist, RDF_TYPE@, pkg("Distribution"@));
    let w = literal(w, dist, pkg("projectName"@), "Buildroot"@);
    let w = link(w, rel, RDF_TYPE@, pkg("DistributionRelease"@));
    let w = literal(w, rel, pkg("releaseCodename"@), "buildroot"@);
    link(w, rel, pkg("partOfDistribution"@), dist)
}

impl BuildrootCollector {
    /// The distribution and its release.
    pub fn emit_distribution_metadata(&self, writer: &mut NTriplesWriter) -> (r: usize)
        ensures
            final(writer)@ == with_distribution_metadata(old(writer)@, *self),
            r == final(writer)@.log.len() - old(writer)@.log.len(),
    {
        let start: usize = writer.len();
        let dist: String = distro_uri(&self.distro_name);
        let rel: String = release_uri(&self.distro_name, &self.release_name);
        writer.write_triple(&dist, RDF_TYPE, &cat2(PKG, "Distribution"));
        writer.write_literal(&dist, &cat2(PKG, "projectName"), "Buildroot");
        writer.write_triple(&rel, RDF_TYPE, &cat2(PKG, "DistributionRelease"));
        writer.write_literal(&rel, &cat2(PKG, "releaseCodename"), "buildroot");
        writer.write_triple(&rel, &cat2(PKG, "partOfDistribution"), &dist);
        writer.len() - start
    }
}

/// The version of a package, `0` where it has none.
pub open spec fn version_or_zero(p: Described) -> Seq<char> {
    match p.version {
        Some(v) => v,
        None => "0"@,
    }
}

fn package_version(p: &BuildrootPackage) -> (r: String)
    ensures
        r@ == version_or_zero(p@),
{
    match &p.version {
        Some(v) => v.clone(),
        None => "0".to_owned(),
    }
}

/// One dependency of a package, as a link and as a node of its own.
pub open spec fn with_dependency(
    w: Sheet,
    c: BuildrootCollector,
    package: Seq<char>,
    kind: Seq<char>,
    dep: Seq<char>,
) -> Sheet {
    let target = identity_iri(c.distro_name@, c.release_name@, "any"@, dep);
    let w = link(w, package, pkg("directlyDependsOn"@), target);
    let node = bnode_label("dep"@, package + "-"@ + dep);
    let w = bnode_object(w, package, pkg("hasDependency"@), node);
    let w = bnode_subject(w, node, RDF_TYPE@, pkg("Dependency"@));
    let w = bnode_subject(w, node, pkg("dependencyTarget"@), target);
    bnode_subject(w, node, pkg("dependencyType"@), dep_type_iri(kind))
}

/// The first `n` of `items`, in order.
pub open spec fn with_each_dependency(
    w: Sheet,
    c: BuildrootCollector,
    package: Seq<char>,
    kind: Seq<char>,
    items: Seq<Seq<char>>,
    n: nat,
) -> Sheet
    decreases n,
{
    if n == 0 {
        w
    } else {
        with_dependency(
            with_each_dependency(w, c, package, kind, items, (n - 1) as nat),
            c,
            package,
            kind,
            items[n - 1],
        )
    }
}

impl BuildrootCollector {
    /// One dependency of a package, as a link and as a node of its own.
    pub fn emit_dependency(
        &self,
        writer: &mut NTriplesWriter,
        package: &str,
        kind: &str,
        dep: &str,
    ) -> (r: usize)
        ensures
            final(writer)@ == with_dependency(old(writer)@, *self, package@, kind@, dep@),
            r == final(writer)@.log.len() - old(writer)@.log.len(),
    {
        let start: usize = writer.len();
        let target: String = package_identity_uri(
            &self.distro_name,
            &self.release_name,
            "any",
            dep,
        );
        writer.write_triple(package, &cat2(PKG, "directlyDependsOn"), &target);
        let node: String = bnode_id("dep", &cat3(package, "-", dep));
        writer.write_bnode_object(package, &cat2(PKG, "hasDependency"), &node);
        writer.write_bnode_subject(&node, RDF_TYPE, &cat2(PKG, "Dependency"));
        writer.write_bnode_subject(&node, &cat2(PKG, "dependencyTarget"), &target);
        writer.write_bnode_subject(&node, &cat2(PKG, "dependencyType"), &dep_type_uri(kind));
        writer.len() - start
    }
}

/// What the makefile of a package says of its build.
pub open spec fn with_build_settings(w: Sheet, package: Seq<char>, p: Described) -> Sheet {
    let w = literal_if(w, package, BUILDROOT@ + "site"@, p.site);
    let w = literal_if(w, package, BUILDROOT@ + "siteMethod"@, p.site_method);
    let w = literal_if(w, package, BUILDROOT@ + "source"@, p.source);
    let w = literal_if(w, package, BUILDROOT@ + "licenseFiles"@, p.license_files);
    let w = literal_if(w, package, BUILDROOT@ + "cpeVendor"@, p.cpe_vendor);
    let w = literal_if(w, package, BUILDROOT@ + "cpeProduct"@, p.cpe_product);
    let w = literal_if(w, package, BUILDROOT@ + "configOpts"@, p.conf_opts);
    let w = literal_if(w, package, BUILDROOT@ + "infrastructure"@, p.infrastructure);
    let w = if p.install_staging {
        boolean(w, package, BUILDROOT@ + "installStaging"@, true)
    } else {
        w
    };
    let w = if p.install_target {
        boolean(w, package, BUILDROOT@ + "installTarget"@, true)
    } else {
        w
    };
    w
}

/// What the makefile of a package says of its build.
pub fn emit_build_settings(
    writer: &mut NTriplesWriter,
    package: &str,
    p: &BuildrootPackage,
) -> (r: usize)
    ensures
        final(writer)@ == with_build_settings(old(writer)@, package@, p@),
        r == final(writer)@.log.len() - old(writer)@.log.len(),
{
    let start: usize = writer.len();
    writer.write_literal_if(package, &cat2(BUILDROOT, "site"), &p.site);
    writer.write_literal_if(package, &cat2(BUILDROOT, "siteMethod"), &p.site_method);
    writer.write_literal_if(package, &cat2(BUILDROOT, "source"), &p.source);
    writer.write_literal_if(package, &cat2(BUILDROOT, "licenseFiles"), &p.license_files);
    writer.write_literal_if(package, &cat2(BUILDROOT, "cpeVendor"), &p.cpe_vendor);
    writer.write_literal_if(package, &cat2(BUILDROOT, "cpeProduct"), &p.cpe_product);
    writer.write_literal_if(package, &cat2(BUILDROOT, "configOpts"), &p.conf_opts);
    writer.write_literal_if(package, &cat2(BUILDROOT, "infrastructure"), &p.infrastructure);
    if p.install_staging {
        writer.write_boolean(package, &cat2(BUILDROOT, "installStaging"), true);
    }
    if p.install_target {
        writer.write_boolean(package, &cat2(BUILDROOT, "installTarget"), true);
    }
    writer.len() - start
}

/// Everything that the makefile of a package gives.
pub open spec fn with_package_triples(w: Sheet, c: BuildrootCollector, p: Described) -> Sheet {
    let version = version_or_zero(p);
    let package = package_iri(c.distro_name@, c.release_name@, "any"@, p.name, version);
    let identity = identity_iri(c.distro_name@, c.release_name@, "any"@, p.name);
    let dist = distro_iri(c.distro_name@);
    let rel = release_iri(c.distro_name@, c.release_name@);
    let w = link(w, package, RDF_TYPE@, pkg("SourcePackage"@));
    let w = link(w, package, RDF_TYPE@, BUILDROOT@ + "BuildrootPackage"@);
    let w = literal(w, package, pkg("packageName"@), p.name);
    let w = link(w, identity, RDF_TYPE@, pkg("PackageIdentity"@));
    let w = literal(w, identity, pkg("packageName"@), p.name);
    let w = link(w, package, pkg("isVersionOf"@), identity);
    let ver = version_iri(c.distro_name@, c.release_name@, p.name, version);
    let w = link(w, ver, RDF_TYPE@, pkg("Version"@));
    let w = literal(w, ver, pkg("versionString"@), version);
    let w = link(w, package, pkg("hasVersion"@), ver);
    let w = link(w, package, pkg("partOfDistribution"@), dist);
    let w = link(w, package, pkg("partOfRelease"@), rel);
    let w = match p.license {
        Some(license) => {
            let w = literal(w, package, pkg("licenseName"@), license);
            let node = spdx_iri(license);
            let w = link(w, package, pkg("hasLicense"@), node);
            link(w, node, RDF_TYPE@, pkg("License"@))
        },
        None => w,
    };
    let w = with_build_settings(w, package, p);
    let w = with_each_dependency(w, c, package, "build"@, p.dependencies, p.dependencies.len());
    with_each_dependency(w, c, package, "host"@, p.host_dependencies, p.host_dependencies.len())
}

impl BuildrootCollector {
    /// Everything that the makefile of a package gives.
    pub fn emit_package_triples(
        &self,
        writer: &mut NTriplesWriter,
        p: &BuildrootPackage,
    ) -> (r: usize)
        ensures
            final(writer)@ == with_package_triples(old(writer)@, *self, p@),
            r == final(writer)@.log.len() - old(writer)@.log.len(),
            r >= 1,
    {
        let start: usize = writer.len();
        let version: String = package_version(p);
        let package: String = package_uri(
            &self.distro_name,
            &self.release_name,
            "any",
            &p.name,
            &version,
        );
        let identity: String = package_identity_uri(
            &self.distro_name,
            &self.release_name,
            "any",
            &p.name,
        );
        let dist: String = distro_uri(&self.distro_name);
        let rel: String = release_uri(&self.distro_name, &self.release_name);
        writer.write_triple(&package, RDF_TYPE, &cat2(PKG, "SourcePackage"));
        writer.write_triple(&package, RDF_TYPE, &cat2(BUILDROOT, "BuildrootPackage"));
        writer.write_literal(&package, &cat2(PKG, "packageName"), &p.name);
        writer.write_triple(&identity, RDF_TYPE, &cat2(PKG, "PackageIdentity"));
        writer.write_literal(&identity, &cat2(PKG, "packageName"), &p.name);
        writer.write_triple(&package, &cat2(PKG, "isVersionOf"), &identity);
        let ver: String = version_uri(&self.distro_name, &self.release_name, &p.name, &version);
        writer.write_triple(&ver, RDF_TYPE, &cat2(PKG, "Version"));
        writer.write_literal(&ver, &cat2(PKG, "versionString"), &version);
        writer.write_triple(&package, &cat2(PKG, "hasVersion"), &ver);
        writer.write_triple(&package, &cat2(PKG, "partOfDistribution"), &dist);
        writer.write_triple(&package, &cat2(PKG, "partOfRelease"), &rel);
        if let Some(license) = &p.license {
            writer.write_literal(&package, &cat2(PKG, "licenseName"), license);
            let node: String = spdx_license_uri(license);
            writer.write_triple(&package, &cat2(PKG, "hasLicense"), &node);
            writer.write_triple(&node, RDF_TYPE, &cat2(PKG, "License"));
        }
        emit_build_settings(writer, &package, p);
        let ghost before_dependency = writer@;
        let mut i: usize = 0;
        while i < p.dependencies.len()
            invariant
                i <= p.dependencies.len(),
                before_dependency.log.len() <= writer@.log.len(),
                writer@ == with_each_dependency(
                    before_dependency,
                    *self,
                    package@,
                    "build"@,
                    views(p.dependencies@),
                    i as nat,
                ),
            decreases p.dependencies.len() - i,
        {
            self.emit_dependency(writer, &package, "build", &p.dependencies[i]);
            i = i + 1;
        }
        let ghost before_dependency = writer@;
        let mut i: usize = 0;
        while i < p.host_dependencies.len()
            invariant
                i <= p.host_dependencies.len(),
                before_dependency.log.len() <= writer@.log.len(),
                writer@ == with_each_dependency(
                    before_dependency,
                    *self,
                    package@,
                    "host"@,
                    views(p.host_dependencies@),
                    i as nat,
                ),
            decreases p.host_dependencies.len() - i,
        {
            self.emit_dependency(writer, &package, "host", &p.host_dependencies[i]);
            i = i + 1;
        }
        writer.len() - start
    }
}

// ---------------------------------------------------------------------------
// A run

/// The makefile of a package.
pub struct Makefile {
    pub name: String,
    pub content: String,
}

/// What a [`Makefile`] says.
#[verifier::ext_equal]
pub struct MakefileText {
    pub name: Seq<char>,
    pub content: Seq<char>,
}

impl View for Makefile {
    type V = MakefileText;

    open spec fn view(&self) -> MakefileText {
        MakefileText {
            name: self.name@,
            content: self.content@,
        }
    }
}

/// The views of a list of records.
pub open spec fn makefile_views(v: Seq<Makefile>) -> Seq<MakefileText> {
    v.map_values(|x: Makefile| x@)
}

pub open spec fn with_makefile(w: Sheet, c: BuildrootCollector, file: MakefileText) -> Sheet {
    with_described(w, c, file.name, file.content)
}

/// The first `n` of `items`, in order.
pub open spec fn with_each_makefile(
    w: Sheet,
    c: BuildrootCollector,
    items: Seq<MakefileText>,
    n: nat,
) -> Sheet
    decreases n,
{
    if n == 0 {
        w
    } else {
        with_makefile(with_each_makefile(w, c, items, (n - 1) as nat), c, items[n - 1])
    }
}

impl BuildrootCollector {
    pub fn emit_makefile(&self, writer: &mut NTriplesWriter, file: &Makefile) -> (r: usize)
        ensures
            final(writer)@ == with_makefile(old(writer)@, *self, file@),
            r == final(writer)@.log.len() - old(writer)@.log.len(),
            r >= 1,
    {
        let start: usize = writer.len();
        self.emit_described(writer, &file.name, &file.content);
        writer.len() - start
    }
}

/// The statements of the package that a makefile describes.
pub open spec fn with_described(
    w: Sheet,
    c: BuildrootCollector,
    name: Seq<char>,
    content: Seq<char>,
) -> Sheet {
    with_package_triples(w, c, described(name, content))
}

/// Whether a directory is that of a package.
pub fn is_package_dir(name: &str) -> (r: bool)
    ensures
        r == !starts_with(name@, "."@),
{
    !has_prefix(name, ".")
}

impl BuildrootCollector {
    fn emit_described(&self, writer: &mut NTriplesWriter, name: &str, content: &str) -> (r: usize)
        ensures
            final(writer)@ == with_described(old(writer)@, *self, name@, content@),
            r == final(writer)@.log.len() - old(writer)@.log.len(),
            r >= 1,
    {
        let p: BuildrootPackage = self.parse_package(name, content);
        self.emit_package_triples(writer, &p)
    }

    /// Emits the packages of a tree, given their makefiles. Returns how many
    /// packages there are, and how many statements beside those of the
    /// distribution.
    pub fn collect(&self, writer: &mut NTriplesWriter, files: &Vec<Makefile>) -> (r: (usize, usize))
        ensures
            ({
                let head = with_distribution_metadata(old(writer)@, *self);
                &&& final(writer)@ == with_each_makefile(
                    head,
                    *self,
                    makefile_views(files@),
                    files@.len(),
                )
                &&& r.0 == files@.len()
                &&& r.1 == final(writer)@.log.len() - head.log.len()
            }),
    {
        self.emit_distribution_metadata(writer);
        let start: usize = writer.len();
        let ghost head = writer@;
        let mut i: usize = 0;
        while i < files.len()
            invariant
                i <= files.len(),
                head.log.len() <= writer@.log.len(),
                writer@ == with_each_makefile(head, *self, makefile_views(files@), i as nat),
            decreases files.len() - i,
        {
            self.emit_makefile(writer, &files[i]);
            assert(makefile_views(files@)[i as int] == files@[i as int]@);
            i = i + 1;
        }
        (files.len(), writer.len() - start)
    }
}

} // verus!
