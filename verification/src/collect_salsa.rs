//! What the packaging repositories of Debian say of the upstream of a package.

use crate::casing::{lowercase, to_lowercase};
use crate::collect_spec::{final_segment, last_segment};
use crate::debian::{KnownSources, SourceTracking};
use crate::deps::{contact_of, split_contact};
use crate::forge::{
    emit_dq_issue, emit_upstream_repo, extract_forge_url, forge_url, with_dq_issue,
    with_upstream_repo,
};
use crate::ntriples::{link, literal, pkg, NTriplesWriter, Sheet, PKG};
use crate::pattern::{captures, group_or_empty, group_text, maybe_groups, regex_captures};
use crate::split::{
    first_word, join, joined, leading_word, lines, lines_of, pieces, split, trim, trim_end_char,
    trimmed, trimmed_end_char, Sep,
};
use crate::text::{
    before, between, cat2, cat3, cat5, chars_of, contains, cut_once, digit, empty, has_prefix,
    has_text, head, is_digit, opt, same, second_piece, slice_string, split_once, starts_with,
    views,
};
use crate::textmap::{field, values_at, values_for};
use crate::uris::{
    ecosystem_iri, ecosystem_uri, maintainer_iri, maintainer_uri, FOAF, RDFS_LABEL, RDF_TYPE,
};
use vstd::prelude::*;

verus! {

broadcast use crate::text::lemma_views_push;

/// The pattern of the address of a packaging repository: its group and its project.
pub const SALSA_URL: &'static str = r"salsa\.debian\.org/([^/]+)/([^/]+?)(?:\.git)?$";

/// The pattern of the line that ends an entry of a changelog.
pub const SIGNED_BY: &'static str = r"--\s*([^<]+?)\s*<(.+?)>\s+";

/// A collector of the packaging repositories for one distribution.
pub struct SalsaCollector {
    pub dist: String,
}

// ---------------------------------------------------------------------------
// Registries

/// The first part of a path.
pub open spec fn first_part(path: Seq<char>) -> Seq<char> {
    before(path, "/"@)
}

/// A name from a registry, where there is one.
pub open spec fn named(ecosystem: Seq<char>, name: Seq<char>) -> Option<(Seq<char>, Seq<char>)> {
    if name.len() > 0 {
        Some((ecosystem, name))
    } else {
        None
    }
}

/// The outcome of looking for a name: the search goes on, or it is over.
pub enum Lookup {
    Next,
    Over(Option<(Seq<char>, Seq<char>)>),
}

/// A name ends the search; an empty one does not.
pub open spec fn over_if_named(ecosystem: Seq<char>, name: Seq<char>) -> Lookup {
    match named(ecosystem, name) {
        Some(n) => Lookup::Over(Some(n)),
        None => Lookup::Next,
    }
}

/// Names on the mirror that Debian keeps of the Python index. `lower` is the
/// address in lower case.
pub open spec fn pypi_mirror(url: Seq<char>, lower: Seq<char>) -> Lookup {
    if contains(lower, "pypi.debian.net/"@) {
        match second_piece(url, "pypi.debian.net/"@) {
            Some(after) => over_if_named("pypi"@, first_part(after)),
            None => Lookup::Over(None),
        }
    } else {
        Lookup::Next
    }
}

/// Names in the sources of the Python index.
pub open spec fn pypi_source(url: Seq<char>, lower: Seq<char>) -> Lookup {
    if contains(lower, "pypi.org/"@) || contains(lower, "files.pythonhosted.org/"@) {
        match second_piece(url, "/packages/source/"@) {
            Some(after) => {
                let parts = pieces(after, Sep::Is('/'));
                if parts.len() >= 2 {
                    Lookup::Over(Some(("pypi"@, parts[1])))
                } else {
                    Lookup::Next
                }
            },
            None => Lookup::Next,
        }
    } else {
        Lookup::Next
    }
}

/// Names in the pages of projects on the Python index.
pub open spec fn pypi_page(url: Seq<char>, lower: Seq<char>) -> Lookup {
    if contains(lower, "pypi.org/project/"@) {
        match second_piece(url, "/project/"@) {
            Some(after) => over_if_named("pypi"@, first_part(after)),
            None => Lookup::Next,
        }
    } else {
        Lookup::Next
    }
}

/// Names in the sources and the pages of the Python index.
pub open spec fn pypi_index(url: Seq<char>, lower: Seq<char>) -> Lookup {
    or_else(pypi_source(url, lower), pypi_page(url, lower))
}

/// Names on the registry of npm, with their scope.
pub open spec fn npm_registry(url: Seq<char>, lower: Seq<char>) -> Lookup {
    if contains(lower, "registry.npmjs.org/"@) {
        match second_piece(url, "registry.npmjs.org/"@) {
            Some(after) => if starts_with(after, "@"@) {
                match split_once(after, "/"@) {
                    Some(kv) => Lookup::Over(
                        Some(("npm"@, kv.0 + "/"@ + first_part(kv.1))),
                    ),
                    None => Lookup::Next,
                }
            } else if first_part(after) == "-"@ {
                Lookup::Next
            } else {
                over_if_named("npm"@, first_part(after))
            },
            None => Lookup::Over(None),
        }
    } else {
        Lookup::Next
    }
}

/// Names in the pages of gems.
pub open spec fn gem_page(url: Seq<char>) -> Lookup {
    match second_piece(url, "rubygems.org/gems/"@) {
        Some(after) => over_if_named("rubygems"@, trim_end_char(first_part(after), '/')),
        None => Lookup::Next,
    }
}

/// Whether a version, or a group that stands for one, begins with this character.
pub open spec fn begins_version(c: char) -> bool {
    is_digit(c) || c == '('
}

/// The first hyphen from `i` on that a version follows; the end of the text where
/// there is none.
pub open spec fn version_hyphen(text: Seq<char>, i: int) -> int
    decreases text.len() - i,
{
    if i < 0 || i + 1 >= text.len() {
        text.len() as int
    } else if text[i] == '-' && begins_version(text[i + 1]) {
        i
    } else {
        version_hyphen(text, i + 1)
    }
}

/// A name without the version that follows it.
pub open spec fn without_version(text: Seq<char>) -> Seq<char> {
    text.take(version_hyphen(text, 0))
}

/// The name of a gem: what stands before the version, or before the first hyphen
/// where nothing looks like a version.
pub open spec fn gem_name(file: Seq<char>) -> Seq<char> {
    if version_hyphen(file, 0) < file.len() {
        without_version(file)
    } else {
        before(file, "-"@)
    }
}

/// Names in the downloads and the pages of gems.
pub open spec fn gem_registry(url: Seq<char>, lower: Seq<char>) -> Lookup {
    if contains(lower, "rubygems.org/"@) {
        match second_piece(url, "rubygems.org/downloads/"@) {
            Some(after) => if gem_name(after).len() > 0 {
                Lookup::Over(Some(("rubygems"@, gem_name(after))))
            } else {
                gem_page(url)
            },
            None => gem_page(url),
        }
    } else {
        Lookup::Next
    }
}

/// Names on the registry of crates.
pub open spec fn crate_registry(url: Seq<char>, lower: Seq<char>) -> Lookup {
    if contains(lower, "crates.io/"@) {
        match second_piece(url, "/crates/"@) {
            Some(after) => over_if_named("cargo"@, first_part(after)),
            None => Lookup::Next,
        }
    } else {
        Lookup::Next
    }
}

/// Names on the registry of Haskell packages.
pub open spec fn hackage_registry(url: Seq<char>, lower: Seq<char>) -> Lookup {
    if contains(lower, "hackage.haskell.org/package/"@) {
        match second_piece(url, "hackage.haskell.org/package/"@) {
            Some(after) => over_if_named("hackage"@, trim_end_char(without_version(after), '/')),
            None => Lookup::Over(None),
        }
    } else {
        Lookup::Next
    }
}

/// The name of a distribution: what stands before the last hyphen.
pub open spec fn distribution_of(file: Seq<char>) -> Option<Seq<char>> {
    let parts = pieces(file, Sep::Is('-'));
    if parts.len() < 2 {
        None
    } else {
        let name = joined(parts.drop_last(), "-"@);
        if name.len() > 0 {
            Some(name)
        } else {
            None
        }
    }
}

/// Names on the archives of Perl distributions.
pub open spec fn cpan_archive(url: Seq<char>, lower: Seq<char>) -> Lookup {
    if contains(lower, "cpan.metacpan.org/"@) || contains(lower, "search.cpan.org/"@) {
        match distribution_of(last_segment(url)) {
            Some(name) => Lookup::Over(Some(("cpan"@, name))),
            None => Lookup::Next,
        }
    } else {
        Lookup::Next
    }
}

pub open spec fn or_else(first: Lookup, second: Lookup) -> Lookup {
    match first {
        Lookup::Next => second,
        _ => first,
    }
}

/// The ecosystem and the name of a package, by the address of its releases on a
/// registry.
pub open spec fn registry_name(url: Seq<char>) -> Option<(Seq<char>, Seq<char>)> {
    name_on_registry(url, lowercase(url))
}

/// The ecosystem and the name of a package, by the address of its releases and its
/// form in lower case. The registries are tried in order.
pub open spec fn name_on_registry(url: Seq<char>, lower: Seq<char>) -> Option<
    (Seq<char>, Seq<char>),
> {
    let found = or_else(
        pypi_mirror(url, lower),
        or_else(
            pypi_index(url, lower),
            or_else(
                npm_registry(url, lower),
                or_else(
                    gem_registry(url, lower),
                    or_else(
                        crate_registry(url, lower),
                        or_else(hackage_registry(url, lower), cpan_archive(url, lower)),
                    ),
                ),
            ),
        ),
    );
    match found {
        Lookup::Next => None,
        Lookup::Over(n) => n,
    }
}

/// A name on a registry.
pub struct RegistryName {
    pub ecosystem: &'static str,
    pub name: String,
}

pub open spec fn registry_view(r: Option<RegistryName>) -> Option<(Seq<char>, Seq<char>)> {
    match r {
        Some(x) => Some((x.ecosystem@, x.name@)),
        None => None,
    }
}

/// The outcome of looking for a name on one registry.
pub enum LookupResult {
    Next,
    Over(Option<RegistryName>),
}

pub open spec fn lookup_view(r: LookupResult) -> Lookup {
    match r {
        LookupResult::Next => Lookup::Next,
        LookupResult::Over(n) => Lookup::Over(registry_view(n)),
    }
}

fn over_when_named(ecosystem: &'static str, name: String) -> (r: LookupResult)
    ensures
        lookup_view(r) == over_if_named(ecosystem@, name@),
{
    if empty(&name) {
        LookupResult::Next
    } else {
        LookupResult::Over(Some(RegistryName { ecosystem, name }))
    }
}

fn look_pypi_mirror(url: &str, lower: &str) -> (r: LookupResult)
    ensures
        lookup_view(r) == pypi_mirror(url@, lower@),
{
    if has_text(lower, "pypi.debian.net/") {
        match between(url, "pypi.debian.net/") {
            Some(after) => over_when_named("pypi", head(&after, "/")),
            None => LookupResult::Over(None),
        }
    } else {
        LookupResult::Next
    }
}

fn look_pypi_source(url: &str, lower: &str) -> (r: LookupResult)
    ensures
        lookup_view(r) == pypi_source(url@, lower@),
{
    if has_text(lower, "pypi.org/") || has_text(lower, "files.pythonhosted.org/") {
        match between(url, "/packages/source/") {
            Some(after) => {
                let parts: Vec<String> = split(&after, &Sep::Is('/'));
                if parts.len() >= 2 {
                    assert(views(parts@)[1] == parts@[1]@);
                    LookupResult::Over(
                        Some(RegistryName { ecosystem: "pypi", name: parts[1].clone() }),
                    )
                } else {
                    LookupResult::Next
                }
            },
            None => LookupResult::Next,
        }
    } else {
        LookupResult::Next
    }
}

fn look_pypi_page(url: &str, lower: &str) -> (r: LookupResult)
    ensures
        lookup_view(r) == pypi_page(url@, lower@),
{
    if has_text(lower, "pypi.org/project/") {
        match between(url, "/project/") {
            Some(after) => over_when_named("pypi", head(&after, "/")),
            None => LookupResult::Next,
        }
    } else {
        LookupResult::Next
    }
}

fn look_npm_registry(url: &str, lower: &str) -> (r: LookupResult)
    ensures
        lookup_view(r) == npm_registry(url@, lower@),
{
    if has_text(lower, "registry.npmjs.org/") {
        match between(url, "registry.npmjs.org/") {
            Some(after) => {
                let first: String = head(&after, "/");
                if has_prefix(&after, "@") {
                    match cut_once(&after, "/") {
                        Some((scope, rest)) => LookupResult::Over(
                            Some(
                                RegistryName {
                                    ecosystem: "npm",
                                    name: cat3(&scope, "/", &head(&rest, "/")),
                                },
                            ),
                        ),
                        None => LookupResult::Next,
                    }
                } else if same(&first, "-") {
                    LookupResult::Next
                } else {
                    over_when_named("npm", first)
                }
            },
            None => LookupResult::Over(None),
        }
    } else {
        LookupResult::Next
    }
}

proof fn lemma_version_hyphen(text: Seq<char>, i: int)
    requires
        0 <= i <= text.len(),
    ensures
        i <= version_hyphen(text, i) <= text.len(),
    decreases text.len() - i,
{
    if i + 1 < text.len() {
        lemma_version_hyphen(text, i + 1);
    }
}

fn unversioned(text: &str) -> (r: String)
    ensures
        r@ == without_version(text@),
        r@.len() == version_hyphen(text@, 0),
{
    let cs: Vec<char> = chars_of(text);
    let n: usize = cs.len();
    proof {
        lemma_version_hyphen(text@, 0);
    }
    let mut i: usize = 0;
    while i < n && !(cs[i] == '-' && i < n - 1 && (digit(cs[i + 1]) || cs[i + 1] == '('))
        invariant
            i <= n,
            n == cs@.len(),
            cs@ == text@,
            version_hyphen(text@, 0) == version_hyphen(text@, i as int),
        decreases n - i,
    {
        i = i + 1;
    }
    let name: String = slice_string(&cs, 0, i);
    assert(name@ =~= without_version(text@));
    name
}

fn gem_of(file: &str) -> (r: String)
    ensures
        r@ == gem_name(file@),
{
    let name: String = unversioned(file);
    proof {
        lemma_version_hyphen(file@, 0);
    }
    if same(&name, file) {
        head(file, "-")
    } else {
        assert(file@.take(file@.len() as int) =~= file@);
        name
    }
}

fn look_gem_page(url: &str) -> (r: LookupResult)
    ensures
        lookup_view(r) == gem_page(url@),
{
    match between(url, "rubygems.org/gems/") {
        Some(after) => over_when_named("rubygems", trimmed_end_char(&head(&after, "/"), '/')),
        None => LookupResult::Next,
    }
}

fn look_gem_registry(url: &str, lower: &str) -> (r: LookupResult)
    ensures
        lookup_view(r) == gem_registry(url@, lower@),
{
    if has_text(lower, "rubygems.org/") {
        match between(url, "rubygems.org/downloads/") {
            Some(after) => {
                let name: String = gem_of(&after);
                if !empty(&name) {
                    LookupResult::Over(Some(RegistryName { ecosystem: "rubygems", name }))
                } else {
                    look_gem_page(url)
                }
            },
            None => look_gem_page(url),
        }
    } else {
        LookupResult::Next
    }
}

fn look_crate_registry(url: &str, lower: &str) -> (r: LookupResult)
    ensures
        lookup_view(r) == crate_registry(url@, lower@),
{
    if has_text(lower, "crates.io/") {
        match between(url, "/crates/") {
            Some(after) => over_when_named("cargo", head(&after, "/")),
            None => LookupResult::Next,
        }
    } else {
        LookupResult::Next
    }
}

fn look_hackage_registry(url: &str, lower: &str) -> (r: LookupResult)
    ensures
        lookup_view(r) == hackage_registry(url@, lower@),
{
    if has_text(lower, "hackage.haskell.org/package/") {
        match between(url, "hackage.haskell.org/package/") {
            Some(after) => over_when_named("hackage", trimmed_end_char(&unversioned(&after), '/')),
            None => LookupResult::Over(None),
        }
    } else {
        LookupResult::Next
    }
}

fn distribution_name(file: &str) -> (r: Option<String>)
    ensures
        opt(r) == distribution_of(file@),
{
    let parts: Vec<String> = split(file, &Sep::Is('-'));
    if parts.len() < 2 {
        return None;
    }
    let end: usize = parts.len() - 1;
    let name: String = join(&parts, 0, end, "-");
    assert(views(parts@).subrange(0, end as int) =~= views(parts@).drop_last());
    if empty(&name) {
        None
    } else {
        Some(name)
    }
}

fn look_cpan_archive(url: &str, lower: &str) -> (r: LookupResult)
    ensures
        lookup_view(r) == cpan_archive(url@, lower@),
{
    if has_text(lower, "cpan.metacpan.org/") || has_text(lower, "search.cpan.org/") {
        match distribution_name(&final_segment(url)) {
            Some(name) => LookupResult::Over(Some(RegistryName { ecosystem: "cpan", name })),
            None => LookupResult::Next,
        }
    } else {
        LookupResult::Next
    }
}

/// The ecosystem and the name of a package, by the address of its releases.
pub fn extract_registry_name(url: &str) -> (r: Option<RegistryName>)
    ensures
        registry_view(r) == registry_name(url@),
{
    find_on_registry(url, &to_lowercase(url))
}

/// The ecosystem and the name of a package, by the address of its releases and its
/// form in lower case.
pub fn find_on_registry(url: &str, lower: &str) -> (r: Option<RegistryName>)
    ensures
        registry_view(r) == name_on_registry(url@, lower@),
{
    if let LookupResult::Over(n) = look_pypi_mirror(url, lower) {
        return n;
    }
    if let LookupResult::Over(n) = look_pypi_source(url, lower) {
        return n;
    }
    if let LookupResult::Over(n) = look_pypi_page(url, lower) {
        return n;
    }
    if let LookupResult::Over(n) = look_npm_registry(url, lower) {
        return n;
    }
    if let LookupResult::Over(n) = look_gem_registry(url, lower) {
        return n;
    }
    if let LookupResult::Over(n) = look_crate_registry(url, lower) {
        return n;
    }
    if let LookupResult::Over(n) = look_hackage_registry(url, lower) {
        return n;
    }
    match look_cpan_archive(url, lower) {
        LookupResult::Over(n) => n,
        LookupResult::Next => None,
    }
}

// ---------------------------------------------------------------------------
// Upstream metadata

/// The repository that a line of upstream metadata names.
pub open spec fn repository_in(line: Seq<char>) -> Option<Seq<char>> {
    match split_once(line, ":"@) {
        Some(kv) => if trim(kv.0) == "Repository"@ && trim(kv.1).len() > 0 {
            Some(trim(kv.1))
        } else {
            None
        },
        None => None,
    }
}

fn repository_of_line(line: &str) -> (r: Option<String>)
    ensures
        opt(r) == repository_in(line@),
{
    match cut_once(line, ":") {
        Some((key, value)) => {
            let url: String = trimmed(&value);
            if same(&trimmed(&key), "Repository") && !empty(&url) {
                Some(url)
            } else {
                None
            }
        },
        None => None,
    }
}

/// The upstream repository of a package.
pub open spec fn with_identity_repo(w: Sheet, url: Seq<char>, identity: Seq<char>) -> Sheet {
    with_upstream_repo(w, identity, url)
}

/// The first `n` of `items`, in order.
pub open spec fn with_each_identity_repo(
    w: Sheet,
    url: Seq<char>,
    items: Seq<Seq<char>>,
    n: nat,
) -> Sheet
    decreases n,
{
    if n == 0 {
        w
    } else {
        with_identity_repo(
            with_each_identity_repo(w, url, items, (n - 1) as nat),
            url,
            items[n - 1],
        )
    }
}

/// The upstream repository of a package.
pub fn emit_identity_repo(writer: &mut NTriplesWriter, url: &str, identity: &str) -> (r: usize)
    ensures
        final(writer)@ == with_identity_repo(old(writer)@, url@, identity@),
        r == final(writer)@.log.len() - old(writer)@.log.len(),
{
    let start: usize = writer.len();
    emit_upstream_repo(writer, identity, url);
    writer.len() - start
}

pub open spec fn with_metadata_line(
    w: Sheet,
    identities: Seq<Seq<char>>,
    line: Seq<char>,
) -> Sheet {
    let w = match repository_in(line) {
        Some(url) => {
            let w = match forge_url(url) {
                Some(repo) => {
                    with_each_identity_repo(w, repo, identities, identities.len())
                },
                None => {
                    with_dq_issue(
                        w,
                        "debian-salsa"@,
                        "upstream-metadata"@,
                        url,
                        "upstream-metadata-no-repo"@,
                        "info"@,
                    )
                },
            };
            w
        },
        None => w,
    };
    w
}

/// The first `n` of `items`, in order.
pub open spec fn with_each_metadata_line(
    w: Sheet,
    identities: Seq<Seq<char>>,
    items: Seq<Seq<char>>,
    n: nat,
) -> Sheet
    decreases n,
{
    if n == 0 {
        w
    } else {
        with_metadata_line(
            with_each_metadata_line(w, identities, items, (n - 1) as nat),
            identities,
            items[n - 1],
        )
    }
}

pub fn emit_metadata_line(
    writer: &mut NTriplesWriter,
    identities: &Vec<String>,
    line: &str,
) -> (r: usize)
    ensures
        final(writer)@ == with_metadata_line(old(writer)@, views(identities@), line@),
        r == final(writer)@.log.len() - old(writer)@.log.len(),
{
    let start: usize = writer.len();
    if let Some(url) = repository_of_line(line) {
        if let Some(repo) = extract_forge_url(&url) {
            let ghost before_identity_repo = writer@;
            let mut i: usize = 0;
            while i < identities.len()
                invariant
                    i <= identities.len(),
                    before_identity_repo.log.len() <= writer@.log.len(),
                    writer@ == with_each_identity_repo(
                        before_identity_repo,
                        repo@,
                        views(identities@),
                        i as nat,
                    ),
                decreases identities.len() - i,
            {
                emit_identity_repo(writer, &repo, &identities[i]);
                i = i + 1;
            }
        } else {
            emit_dq_issue(
                writer,
                "debian-salsa",
                "upstream-metadata",
                &url,
                "upstream-metadata-no-repo",
                "info",
            );
        }
    }
    writer.len() - start
}

/// Whether a line of upstream metadata names a repository on a known forge.
pub open spec fn names_forge(line: Seq<char>) -> bool {
    match repository_in(line) {
        Some(url) => forge_url(url) is Some,
        None => false,
    }
}

/// How many statements about repositories the first `n` lines of upstream metadata
/// give, for a number of packages.
pub open spec fn repo_facts(lines: Seq<Seq<char>>, n: nat, packages: nat) -> nat
    decreases n,
{
    if n == 0 {
        0
    } else {
        repo_facts(lines, (n - 1) as nat, packages) + if names_forge(lines[n - 1]) {
            10 * packages
        } else {
            0
        }
    }
}

/// What the upstream metadata of a package gives.
pub open spec fn with_upstream_metadata(
    w: Sheet,
    metadata: Seq<char>,
    identities: Seq<Seq<char>>,
) -> Sheet {
    let lines = lines_of(metadata);
    with_each_metadata_line(w, identities, lines, lines.len())
}

pub open spec fn metadata_facts(metadata: Seq<char>, packages: nat) -> nat {
    repo_facts(lines_of(metadata), lines_of(metadata).len(), packages)
}

proof fn lemma_repos_add(w: Sheet, url: Seq<char>, identities: Seq<Seq<char>>, n: nat)
    ensures
        with_each_identity_repo(w, url, identities, n).log.len() == w.log.len() + 10 * n,
    decreases n,
{
    if n > 0 {
        lemma_repos_add(w, url, identities, (n - 1) as nat);
    }
}

fn names_known_forge(line: &str) -> (r: bool)
    ensures
        r == names_forge(line@),
{
    match repository_of_line(line) {
        Some(url) => extract_forge_url(&url).is_some(),
        None => false,
    }
}

/// Emits what the upstream metadata of a package says. Returns how many statements
/// are about repositories, and how many there are.
pub fn parse_upstream_metadata(
    writer: &mut NTriplesWriter,
    metadata: &str,
    identities: &Vec<String>,
) -> (r: (usize, usize))
    ensures
        final(writer)@ == with_upstream_metadata(old(writer)@, metadata@, views(identities@)),
        r.0 == metadata_facts(metadata@, identities@.len()),
        r.1 == final(writer)@.log.len() - old(writer)@.log.len(),
        r.0 <= r.1,
{
    let start: usize = writer.len();
    let all: Vec<String> = lines(metadata);
    let ghost texts = views(all@);
    let ghost ids = views(identities@);
    let mut repos: usize = 0;
    let mut i: usize = 0;
    while i < all.len()
        invariant
            i <= all.len(),
            texts == views(all@),
            ids == views(identities@),
            start == old(writer)@.log.len(),
            start + repos <= writer@.log.len(),
            repos == repo_facts(texts, i as nat, identities@.len()),
            writer@ == with_each_metadata_line(old(writer)@, ids, texts, i as nat),
        decreases all.len() - i,
    {
        assert(texts[i as int] == all@[i as int]@);
        let ghost was = writer@;
        let n: usize = emit_metadata_line(writer, identities, &all[i]);
        if names_known_forge(&all[i]) {
            let now: usize = writer.len();
            proof {
                lemma_repos_add(
                    was,
                    forge_url(repository_in(texts[i as int])->0)->0,
                    ids,
                    ids.len(),
                );
            }
            repos = repos + n;
        }
        i = i + 1;
    }
    (repos, writer.len() - start)
}

// ---------------------------------------------------------------------------
// Watch files

/// Whether a line of a watch file says where releases are.
pub open spec fn is_watch_line(line: Seq<char>) -> bool {
    let line = trim(line);
    !starts_with(line, "#"@) && !starts_with(line, "version="@) && line.len() > 0
}

fn watches(line: &str) -> (r: bool)
    ensures
        r == is_watch_line(line@),
{
    let line: String = trimmed(line);
    !has_prefix(&line, "#") && !has_prefix(&line, "version=") && !empty(&line)
}

/// The address of a repository, without the page of its releases.
pub open spec fn without_release_page(url: Seq<char>) -> Seq<char> {
    if contains(url, "/releases"@) {
        before(url, "/releases"@)
    } else if contains(url, "/archive"@) {
        before(url, "/archive"@)
    } else if contains(url, "/download"@) {
        before(url, "/download"@)
    } else {
        url
    }
}

fn base_of_releases(url: &str) -> (r: String)
    ensures
        r@ == without_release_page(url@),
{
    if has_text(url, "/releases") {
        head(url, "/releases")
    } else if has_text(url, "/archive") {
        head(url, "/archive")
    } else if has_text(url, "/download") {
        head(url, "/download")
    } else {
        url.to_owned()
    }
}

/// What a watch file says of the upstream.
pub enum Upstream {
    Registry(Seq<char>, Seq<char>),
    Forge(Seq<char>),
}

/// What a line of a watch file says: a registry counts before a forge.
pub open spec fn line_upstream(line: Seq<char>) -> Option<Upstream> {
    if !is_watch_line(line) {
        None
    } else {
        match first_word(trim(line)) {
            None => None,
            Some(url) => match registry_name(url) {
                Some(n) => Some(Upstream::Registry(n.0, n.1)),
                None => match forge_url(without_release_page(url)) {
                    Some(repo) => Some(Upstream::Forge(repo)),
                    None => None,
                },
            },
        }
    }
}

/// What the lines from `i` on say: the first that says something counts.
pub open spec fn watch_upstream(lines: Seq<Seq<char>>, i: int) -> Option<Upstream>
    decreases lines.len() - i,
{
    if i < 0 || i >= lines.len() {
        None
    } else {
        match line_upstream(lines[i]) {
            Some(u) => Some(u),
            None => watch_upstream(lines, i + 1),
        }
    }
}

/// The address in the first line that should hold one.
pub open spec fn first_address(lines: Seq<Seq<char>>, i: int) -> Seq<char>
    decreases lines.len() - i,
{
    if i < 0 || i >= lines.len() {
        "(unparseable)"@
    } else if is_watch_line(lines[i]) {
        match first_word(lines[i]) {
            Some(word) => word,
            None => "(unparseable)"@,
        }
    } else {
        first_address(lines, i + 1)
    }
}

/// What was found in a watch file.
pub enum FoundUpstream {
    Registry(RegistryName),
    Forge(String),
}

pub open spec fn found_view(f: Option<FoundUpstream>) -> Option<Upstream> {
    match f {
        Some(FoundUpstream::Registry(n)) => Some(Upstream::Registry(n.ecosystem@, n.name@)),
        Some(FoundUpstream::Forge(url)) => Some(Upstream::Forge(url@)),
        None => None,
    }
}

fn find_in_line(line: &str) -> (r: Option<FoundUpstream>)
    ensures
        found_view(r) == line_upstream(line@),
{
    if !watches(line) {
        return None;
    }
    match leading_word(&trimmed(line)) {
        None => None,
        Some(url) => match extract_registry_name(&url) {
            Some(n) => Some(FoundUpstream::Registry(n)),
            None => match extract_forge_url(&base_of_releases(&url)) {
                Some(repo) => Some(FoundUpstream::Forge(repo)),
                None => None,
            },
        },
    }
}

/// What a watch file says of the upstream.
pub fn find_upstream(watch: &str) -> (r: Option<FoundUpstream>)
    ensures
        found_view(r) == watch_upstream(lines_of(watch@), 0),
{
    let all: Vec<String> = lines(watch);
    let ghost texts = views(all@);
    let mut i: usize = 0;
    while i < all.len()
        invariant
            i <= all.len(),
            texts == views(all@),
            texts == lines_of(watch@),
            watch_upstream(texts, 0) == watch_upstream(texts, i as int),
        decreases all.len() - i,
    {
        assert(texts[i as int] == all@[i as int]@);
        let found: Option<FoundUpstream> = find_in_line(&all[i]);
        if found.is_some() {
            return found;
        }
        i = i + 1;
    }
    None
}

fn address_of_watch(watch: &str) -> (r: String)
    ensures
        r@ == first_address(lines_of(watch@), 0),
{
    let all: Vec<String> = lines(watch);
    let ghost texts = views(all@);
    let mut i: usize = 0;
    while i < all.len()
        invariant
            i <= all.len(),
            texts == views(all@),
            texts == lines_of(watch@),
            first_address(texts, 0) == first_address(texts, i as int),
        decreases all.len() - i,
    {
        assert(texts[i as int] == all@[i as int]@);
        if watches(&all[i]) {
            return match leading_word(&all[i]) {
                Some(word) => word,
                None => "(unparseable)".to_owned(),
            };
        }
        i = i + 1;
    }
    "(unparseable)".to_owned()
}

/// The ecosystem of a package, and its name there.
pub open spec fn with_registry_name(
    w: Sheet,
    ecosystem: Seq<char>,
    name: Seq<char>,
    identity: Seq<char>,
) -> Sheet {
    let node = ecosystem_iri(ecosystem);
    let w = link(w, identity, pkg("upstreamEcosystem"@), node);
    let w = link(w, node, RDF_TYPE@, pkg("Ecosystem"@));
    let w = literal(w, node, RDFS_LABEL@, ecosystem);
    literal(w, identity, pkg("upstreamPackageName"@), name)
}

/// The first `n` of `items`, in order.
pub open spec fn with_each_registry_name(
    w: Sheet,
    ecosystem: Seq<char>,
    name: Seq<char>,
    items: Seq<Seq<char>>,
    n: nat,
) -> Sheet
    decreases n,
{
    if n == 0 {
        w
    } else {
        with_registry_name(
            with_each_registry_name(w, ecosystem, name, items, (n - 1) as nat),
            ecosystem,
            name,
            items[n - 1],
        )
    }
}

/// The ecosystem of a package, and its name there.
pub fn emit_registry_name(
    writer: &mut NTriplesWriter,
    ecosystem: &str,
    name: &str,
    identity: &str,
) -> (r: usize)
    ensures
        final(writer)@ == with_registry_name(old(writer)@, ecosystem@, name@, identity@),
        r == final(writer)@.log.len() - old(writer)@.log.len(),
{
    let start: usize = writer.len();
    let node: String = ecosystem_uri(ecosystem);
    writer.write_triple(identity, &cat2(PKG, "upstreamEcosystem"), &node);
    writer.write_triple(&node, RDF_TYPE, &cat2(PKG, "Ecosystem"));
    writer.write_literal(&node, RDFS_LABEL, ecosystem);
    writer.write_literal(identity, &cat2(PKG, "upstreamPackageName"), name);
    writer.len() - start
}

pub open spec fn with_registry_names(
    w: Sheet,
    ecosystem: Seq<char>,
    name: Seq<char>,
    identities: Seq<Seq<char>>,
) -> Sheet {
    with_each_registry_name(w, ecosystem, name, identities, identities.len())
}

pub fn emit_registry_names(
    writer: &mut NTriplesWriter,
    ecosystem: &str,
    name: &str,
    identities: &Vec<String>,
) -> (r: usize)
    ensures
        final(writer)@ == with_registry_names(old(writer)@, ecosystem@, name@, views(identities@)),
        r == final(writer)@.log.len() - old(writer)@.log.len(),
{
    let start: usize = writer.len();
    let ghost before_registry_name = writer@;
    let mut i: usize = 0;
    while i < identities.len()
        invariant
            i <= identities.len(),
            before_registry_name.log.len() <= writer@.log.len(),
            writer@ == with_each_registry_name(
                before_registry_name,
                ecosystem@,
                name@,
                views(identities@),
                i as nat,
            ),
        decreases identities.len() - i,
    {
        emit_registry_name(writer, ecosystem, name, &identities[i]);
        i = i + 1;
    }
    writer.len() - start
}

pub open spec fn with_identity_repos(
    w: Sheet,
    url: Seq<char>,
    identities: Seq<Seq<char>>,
) -> Sheet {
    with_each_identity_repo(w, url, identities, identities.len())
}

pub fn emit_identity_repos(
    writer: &mut NTriplesWriter,
    url: &str,
    identities: &Vec<String>,
) -> (r: usize)
    ensures
        final(writer)@ == with_identity_repos(old(writer)@, url@, views(identities@)),
        r == final(writer)@.log.len() - old(writer)@.log.len(),
{
    let start: usize = writer.len();
    let ghost before_identity_repo = writer@;
    let mut i: usize = 0;
    while i < identities.len()
        invariant
            i <= identities.len(),
            before_identity_repo.log.len() <= writer@.log.len(),
            writer@ == with_each_identity_repo(
                before_identity_repo,
                url@,
                views(identities@),
                i as nat,
            ),
        decreases identities.len() - i,
    {
        emit_identity_repo(writer, url, &identities[i]);
        i = i + 1;
    }
    writer.len() - start
}

/// What a watch file gives: its upstream, or a note that it names none.
pub open spec fn with_debian_watch(
    w: Sheet,
    watch: Seq<char>,
    identities: Seq<Seq<char>>,
) -> Sheet {
    match watch_upstream(lines_of(watch), 0) {
        Some(Upstream::Registry(ecosystem, name)) => with_registry_names(
            w,
            ecosystem,
            name,
            identities,
        ),
        Some(Upstream::Forge(url)) => with_identity_repos(w, url, identities),
        None => if trim(watch).len() > 0 {
            with_dq_issue(
                w,
                "debian-salsa"@,
                "watch"@,
                first_address(lines_of(watch), 0),
                "watch-file-no-upstream"@,
                "info"@,
            )
        } else {
            w
        },
    }
}

/// Emits what a watch file says of the upstream.
pub fn parse_debian_watch(
    writer: &mut NTriplesWriter,
    watch: &str,
    identities: &Vec<String>,
) -> (r: usize)
    ensures
        final(writer)@ == with_debian_watch(old(writer)@, watch@, views(identities@)),
        r == final(writer)@.log.len() - old(writer)@.log.len(),
{
    match find_upstream(watch) {
        Some(FoundUpstream::Registry(n)) => emit_registry_names(
            writer,
            n.ecosystem,
            &n.name,
            identities,
        ),
        Some(FoundUpstream::Forge(url)) => emit_identity_repos(writer, &url, identities),
        None => if !empty(&trimmed(watch)) {
            emit_dq_issue(
                writer,
                "debian-salsa",
                "watch",
                &address_of_watch(watch),
                "watch-file-no-upstream",
                "info",
            )
        } else {
            0
        },
    }
}

// ---------------------------------------------------------------------------
// Changelogs

/// Who signed the latest entry of a changelog, linked to the source package.
pub open spec fn with_signer(
    w: Sheet,
    name: Seq<char>,
    email: Seq<char>,
    source: Option<Seq<char>>,
) -> Sheet {
    let person = maintainer_iri(email);
    let w = link(w, person, RDF_TYPE@, pkg("Person"@));
    let w = literal(w, person, FOAF@ + "name"@, name);
    let w = literal(w, person, RDFS_LABEL@, name);
    let w = link(w, person, FOAF@ + "mbox"@, "mailto:"@ + email);
    let w = match source {
        Some(src) => {
            let w = link(w, src, pkg("maintainedBy"@), person);
            link(w, person, pkg("maintains"@), src)
        },
        None => w,
    };
    w
}

/// Who signed the latest entry of a changelog, linked to the source package.
pub fn emit_signer(
    writer: &mut NTriplesWriter,
    name: &str,
    email: &str,
    source: &Option<String>,
) -> (r: usize)
    ensures
        final(writer)@ == with_signer(old(writer)@, name@, email@, opt(*source)),
        r == final(writer)@.log.len() - old(writer)@.log.len(),
{
    let start: usize = writer.len();
    let person: String = maintainer_uri(email);
    writer.write_triple(&person, RDF_TYPE, &cat2(PKG, "Person"));
    writer.write_literal(&person, &cat2(FOAF, "name"), name);
    writer.write_literal(&person, RDFS_LABEL, name);
    writer.write_triple(&person, &cat2(FOAF, "mbox"), &cat2("mailto:", email));
    if let Some(src) = &(*source) {
        writer.write_triple(src, &cat2(PKG, "maintainedBy"), &person);
        writer.write_triple(&person, &cat2(PKG, "maintains"), src);
    }
    writer.len() - start
}

/// Emits who signed the latest entry of a changelog.
pub open spec fn with_debian_changelog(
    w: Sheet,
    changelog: Seq<char>,
    source: Option<Seq<char>>,
) -> Sheet {
    let w = match contact_of(regex_captures(SIGNED_BY@, changelog)) {
        Some(who) => {
            with_signer(w, who.name, who.email, source)
        },
        None => w,
    };
    w
}

/// Emits who signed the latest entry of a changelog.
pub fn parse_debian_changelog(
    writer: &mut NTriplesWriter,
    changelog: &str,
    source: &Option<String>,
) -> (r: usize)
    ensures
        final(writer)@ == with_debian_changelog(old(writer)@, changelog@, opt(*source)),
        r == final(writer)@.log.len() - old(writer)@.log.len(),
{
    let start: usize = writer.len();
    if let Some(who) = split_contact(&captures(SIGNED_BY, changelog)) {
        emit_signer(writer, &who.name, &who.email, &(*source));
    }
    writer.len() - start
}

// ---------------------------------------------------------------------------
// Packages

/// A packaging repository.
pub struct SalsaProject {
    pub group: String,
    pub project: String,
}

/// What a [`SalsaProject`] says.
#[verifier::ext_equal]
pub struct Project {
    pub group: Seq<char>,
    pub project: Seq<char>,
}

impl View for SalsaProject {
    type V = Project;

    open spec fn view(&self) -> Project {
        Project {
            group: self.group@,
            project: self.project@,
        }
    }
}

/// The group and the project in the groups of [`SALSA_URL`].
pub open spec fn project_in(groups: Option<Seq<Option<Seq<char>>>>) -> Option<Project> {
    match groups {
        Some(g) => Some(Project { group: group_text(g, 1), project: group_text(g, 2) }),
        None => None,
    }
}

pub open spec fn project_view(p: Option<SalsaProject>) -> Option<Project> {
    match p {
        Some(x) => Some(x@),
        None => None,
    }
}

/// Takes the address of a packaging repository apart, given the groups of its
/// pattern.
pub fn split_salsa_url(groups: &Option<Vec<Option<String>>>) -> (r: Option<SalsaProject>)
    ensures
        project_view(r) == project_in(maybe_groups(*groups)),
{
    match groups {
        Some(g) => Some(
            SalsaProject { group: group_or_empty(g, 1), project: group_or_empty(g, 2) },
        ),
        None => None,
    }
}

/// The packaging repository at an address.
pub fn parse_salsa_url(url: &str) -> (r: Option<SalsaProject>)
    ensures
        project_view(r) == project_in(regex_captures(SALSA_URL@, url@)),
{
    split_salsa_url(&captures(SALSA_URL, url))
}

/// The repository to ask about a source package: it has an address on the forge
/// of Debian, and packages are built from it.
pub open spec fn target_of(name: Seq<char>, known: KnownSources) -> Option<Project> {
    match field(known.vcs_urls, name) {
        None => None,
        Some(url) => if !contains(url, "salsa.debian.org"@) || values_at(
            known.identities,
            name,
        ).len() == 0 {
            None
        } else {
            project_in(regex_captures(SALSA_URL@, url))
        },
    }
}

/// The branches that may hold the packaging, in the order in which they are tried.
pub open spec fn branches(dist: Seq<char>) -> Seq<Seq<char>> {
    seq!["debian/"@ + dist, "debian/latest"@, "debian/main"@, "master"@]
}

/// The address of a file in a packaging repository.
pub open spec fn raw_address(p: Project, branch: Seq<char>, path: Seq<char>) -> Seq<char> {
    "https://salsa.debian.org/"@ + p.group + "/"@ + p.project + "/-/raw/"@ + branch + "/"@ + path
}

/// What came of asking for a file.
pub enum FileReply {
    /// It was not asked for.
    Pending,
    Missing,
    Text(String),
}

pub open spec fn reply_text(r: FileReply) -> Option<Seq<char>> {
    match r {
        FileReply::Text(t) => Some(t@),
        _ => None,
    }
}

/// What is known of a packaging repository so far.
pub struct SalsaProgress {
    /// The branch that holds the packaging.
    pub branch: Option<String>,
    /// How many branches were tried in vain.
    pub tried: usize,
    pub metadata: FileReply,
    pub watch: FileReply,
    pub changelog: FileReply,
}

/// What to do next about a packaging repository.
pub enum SalsaAction {
    /// Try whether a branch holds the packaging, by asking for an address.
    Probe { branch: String, url: String },
    /// Ask for a file.
    FetchMetadata { url: String },
    FetchWatch { url: String },
    FetchChangelog { url: String },
    /// Nothing more is needed.
    Done,
}

/// What to do next, over views.
pub enum NextStep {
    Probe(Seq<char>, Seq<char>),
    FetchMetadata(Seq<char>),
    FetchWatch(Seq<char>),
    FetchChangelog(Seq<char>),
    Done,
}

pub open spec fn action_view(a: SalsaAction) -> NextStep {
    match a {
        SalsaAction::Probe { branch, url } => NextStep::Probe(branch@, url@),
        SalsaAction::FetchMetadata { url } => NextStep::FetchMetadata(url@),
        SalsaAction::FetchWatch { url } => NextStep::FetchWatch(url@),
        SalsaAction::FetchChangelog { url } => NextStep::FetchChangelog(url@),
        SalsaAction::Done => NextStep::Done,
    }
}

/// Whether the watch file matters: it does where the metadata gave no repository.
pub open spec fn wants_watch(metadata: Option<Seq<char>>, packages: nat) -> bool {
    match metadata {
        Some(text) => metadata_facts(text, packages) == 0,
        None => true,
    }
}

/// The next step: find the branch, then ask for the files that matter.
pub open spec fn next_step(
    c: SalsaCollector,
    p: Project,
    s: SalsaProgress,
    packages: nat,
    emit_maintainers: bool,
) -> NextStep {
    match s.branch {
        None => if s.tried < 4 {
            let branch = branches(c.dist@)[s.tried as int];
            NextStep::Probe(branch, raw_address(p, branch, "debian/control"@))
        } else {
            NextStep::Done
        },
        Some(branch) => if s.metadata is Pending {
            NextStep::FetchMetadata(raw_address(p, branch@, "debian/upstream/metadata"@))
        } else if wants_watch(reply_text(s.metadata), packages) && s.watch is Pending {
            NextStep::FetchWatch(raw_address(p, branch@, "debian/watch"@))
        } else if emit_maintainers && s.changelog is Pending {
            NextStep::FetchChangelog(raw_address(p, branch@, "debian/changelog"@))
        } else {
            NextStep::Done
        },
    }
}

/// What is known of a packaging repository gives: its upstream and who signed the
/// latest entry; or a note that it could not be read.
pub open spec fn with_salsa_package(
    w: Sheet,
    name: Seq<char>,
    s: SalsaProgress,
    identities: Seq<Seq<char>>,
    source: Option<Seq<char>>,
    emit_maintainers: bool,
) -> Sheet {
    if s.branch is None {
        with_dq_issue(
            w,
            "debian-salsa"@,
            "branch-detection"@,
            name,
            "salsa-fetch-failed"@,
            "warning"@,
        )
    } else {
        let w = match reply_text(s.metadata) {
            Some(text) => with_upstream_metadata(w, text, identities),
            None => w,
        };
        let w = match reply_text(s.watch) {
            Some(text) => if wants_watch(reply_text(s.metadata), identities.len()) {
                with_debian_watch(w, text, identities)
            } else {
                w
            },
            None => w,
        };
        match reply_text(s.changelog) {
            Some(text) => if emit_maintainers {
                with_debian_changelog(w, text, source)
            } else {
                w
            },
            None => w,
        }
    }
}

/// A watch file says nothing where the metadata names a repository on a known
/// forge for a package.
pub proof fn lemma_metadata_goes_before_watch(
    w: Sheet,
    name: Seq<char>,
    s: SalsaProgress,
    t: SalsaProgress,
    identities: Seq<Seq<char>>,
    source: Option<Seq<char>>,
    emit_maintainers: bool,
)
    requires
        s.branch == t.branch,
        s.metadata == t.metadata,
        s.changelog == t.changelog,
        !wants_watch(reply_text(s.metadata), identities.len()),
    ensures
        with_salsa_package(w, name, s, identities, source, emit_maintainers)
            == with_salsa_package(w, name, t, identities, source, emit_maintainers),
{
}

/// The state of a run over source packages.
#[verifier::ext_equal]
pub struct SalsaRun {
    pub sheet: Sheet,
    pub count: nat,
}

pub open spec fn salsa_taken(
    r: SalsaRun,
    name: Seq<char>,
    s: SalsaProgress,
    known: KnownSources,
    emit_maintainers: bool,
) -> SalsaRun {
    match target_of(name, known) {
        None => r,
        Some(p) => SalsaRun {
            sheet: with_salsa_package(
                r.sheet,
                name,
                s,
                values_at(known.identities, name),
                field(known.uris, name),
                emit_maintainers,
            ),
            count: r.count + 1,
        },
    }
}

/// The state after the first `n` source packages.
pub open spec fn salsas_taken(
    r: SalsaRun,
    names: Seq<Seq<char>>,
    replies: Seq<SalsaProgress>,
    n: nat,
    known: KnownSources,
    emit_maintainers: bool,
) -> SalsaRun
    decreases n,
{
    if n == 0 {
        r
    } else {
        salsa_taken(
            salsas_taken(r, names, replies, (n - 1) as nat, known, emit_maintainers),
            names[n - 1],
            replies[n - 1],
            known,
            emit_maintainers,
        )
    }
}

fn raw_url(p: &SalsaProject, branch: &str, path: &str) -> (r: String)
    ensures
        r@ == raw_address(p@, branch@, path@),
{
    let mut url: String = cat5("https://salsa.debian.org/", &p.group, "/", &p.project, "/-/raw/");
    url.append(branch);
    url.append("/");
    url.append(path);
    url
}

fn gives_no_repo(metadata: &FileReply, packages: usize) -> (r: bool)
    ensures
        r == wants_watch(reply_text(*metadata), packages as nat),
{
    match metadata {
        FileReply::Text(text) => {
            let all: Vec<String> = lines(text);
            let ghost texts = views(all@);
            let mut i: usize = 0;
            while i < all.len()
                invariant
                    i <= all.len(),
                    texts == views(all@),
                    texts == lines_of(text@),
                    reply_text(*metadata) == Some(text@),
                    repo_facts(texts, i as nat, packages as nat) == 0,
                decreases all.len() - i,
            {
                assert(texts[i as int] == all@[i as int]@);
                if names_known_forge(&all[i]) && packages > 0 {
                    proof {
                        lemma_facts_grow(texts, (i + 1) as nat, texts.len(), packages as nat);
                    }
                    return false;
                }
                i = i + 1;
            }
            true
        },
        _ => true,
    }
}

proof fn lemma_facts_grow(lines: Seq<Seq<char>>, m: nat, n: nat, packages: nat)
    requires
        m <= n,
    ensures
        repo_facts(lines, m, packages) <= repo_facts(lines, n, packages),
    decreases n,
{
    if m < n {
        lemma_facts_grow(lines, m, (n - 1) as nat, packages);
    }
}

/// The repository to ask about a source package.
pub fn salsa_target(name: &str, known: &SourceTracking) -> (r: Option<SalsaProject>)
    ensures
        project_view(r) == target_of(name@, known@),
{
    match known.vcs_urls.get(name) {
        None => None,
        Some(url) => {
            if !has_text(url, "salsa.debian.org") {
                return None;
            }
            let identities: Vec<String> = values_for(&known.identities, name);
            assert(views(identities@).len() == identities@.len());
            if identities.len() == 0 {
                return None;
            }
            parse_salsa_url(url)
        },
    }
}

impl SalsaCollector {
    pub fn new(dist: String) -> (r: Self)
        ensures
            r.dist == dist,
    {
        SalsaCollector { dist }
    }

    /// What to do next about a packaging repository, given what is known of it.
    pub fn next_action(
        &self,
        p: &SalsaProject,
        s: &SalsaProgress,
        packages: usize,
        emit_maintainers: bool,
    ) -> (r: SalsaAction)
        ensures
            action_view(r) == next_step(*self, p@, *s, packages as nat, emit_maintainers),
    {
        match &s.branch {
            None => {
                if s.tried < 4 {
                    let branch: String = if s.tried == 0 {
                        cat2("debian/", &self.dist)
                    } else if s.tried == 1 {
                        "debian/latest".to_owned()
                    } else if s.tried == 2 {
                        "debian/main".to_owned()
                    } else {
                        "master".to_owned()
                    };
                    let url: String = raw_url(p, &branch, "debian/control");
                    SalsaAction::Probe { branch, url }
                } else {
                    SalsaAction::Done
                }
            },
            Some(branch) => {
                if matches!(s.metadata, FileReply::Pending) {
                    SalsaAction::FetchMetadata {
                        url: raw_url(p, branch, "debian/upstream/metadata"),
                    }
                } else if matches!(s.watch, FileReply::Pending) && gives_no_repo(
                    &s.metadata,
                    packages,
                ) {
                    SalsaAction::FetchWatch { url: raw_url(p, branch, "debian/watch") }
                } else if emit_maintainers && matches!(s.changelog, FileReply::Pending) {
                    SalsaAction::FetchChangelog { url: raw_url(p, branch, "debian/changelog") }
                } else {
                    SalsaAction::Done
                }
            },
        }
    }

    /// Emits what is known of a packaging repository.
    pub fn process_salsa_package(
        &self,
        writer: &mut NTriplesWriter,
        name: &str,
        s: &SalsaProgress,
        identities: &Vec<String>,
        source: &Option<String>,
        emit_maintainers: bool,
    ) -> (r: usize)
        ensures
            final(writer)@ == with_salsa_package(
                old(writer)@,
                name@,
                *s,
                views(identities@),
                opt(*source),
                emit_maintainers,
            ),
            r == final(writer)@.log.len() - old(writer)@.log.len(),
    {
        let start: usize = writer.len();
        if s.branch.is_none() {
            return emit_dq_issue(
                writer,
                "debian-salsa",
                "branch-detection",
                name,
                "salsa-fetch-failed",
                "warning",
            );
        }
        if let FileReply::Text(text) = &s.metadata {
            parse_upstream_metadata(writer, text, identities);
        }
        if let FileReply::Text(text) = &s.watch {
            if gives_no_repo(&s.metadata, identities.len()) {
                parse_debian_watch(writer, text, identities);
            }
        }
        if let FileReply::Text(text) = &s.changelog {
            if emit_maintainers {
                parse_debian_changelog(writer, text, source);
            }
        }
        writer.len() - start
    }

    /// Emits what is known of the packaging repositories of source packages. Returns
    /// how many repositories were asked about and how many statements that gave.
    pub fn collect(
        &self,
        writer: &mut NTriplesWriter,
        known: &SourceTracking,
        replies: &Vec<SalsaProgress>,
        emit_maintainers: bool,
    ) -> (r: (usize, usize))
        requires
            replies@.len() == known.names@.len(),
        ensures
            ({
                let s = salsas_taken(
                    (SalsaRun { sheet: old(writer)@, count: 0 }),
                    known@.names,
                    replies@,
                    known@.names.len(),
                    known@,
                    emit_maintainers,
                );
                &&& final(writer)@ == s.sheet
                &&& r.0 == s.count
                &&& r.1 == final(writer)@.log.len() - old(writer)@.log.len()
            }),
    {
        let start: usize = writer.len();
        let mut count: usize = 0;
        let mut i: usize = 0;
        let ghost r0 = SalsaRun { sheet: writer@, count: 0 };
        while i < known.names.len()
            invariant
                i <= known.names.len(),
                count <= i,
                replies@.len() == known.names@.len(),
                start == old(writer)@.log.len(),
                start <= writer@.log.len(),
                r0 == (SalsaRun { sheet: old(writer)@, count: 0 }),
                (SalsaRun { sheet: writer@, count: count as nat }) == salsas_taken(
                    r0,
                    known@.names,
                    replies@,
                    i as nat,
                    known@,
                    emit_maintainers,
                ),
            decreases known.names.len() - i,
        {
            let name: &String = &known.names[i];
            assert(known@.names[i as int] == name@);
            if salsa_target(name, known).is_some() {
                let source: Option<String> = match known.uris.get(name) {
                    Some(u) => Some(u.clone()),
                    None => None,
                };
                let identities: Vec<String> = values_for(&known.identities, name);
                self.process_salsa_package(
                    writer,
                    name,
                    &replies[i],
                    &identities,
                    &source,
                    emit_maintainers,
                );
                count = count + 1;
            }
            i = i + 1;
        }
        (count, writer.len() - start)
    }
}

} // verus!
