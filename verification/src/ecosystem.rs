//! The upstream ecosystem of a packaged project: which registry it comes from,
//! and under which name.

use crate::casing::{lowercase, to_lowercase};
use crate::text::{contains, ends_with, has_text, has_prefix, has_suffix, starts_with};
use vstd::prelude::*;

verus! {

// ---------------------------------------------------------------------------
// Packaging prefixes

/// A packaging prefix has to end in a separator to be one: `python3-` is a
/// convention, `py` is two letters that a great many upstream names begin with.
pub open spec fn anchored(prefix: Seq<char>) -> bool {
    prefix.len() > 0 && (prefix.last() == '-' || prefix.last() == '_' || prefix.last() == '.')
}

pub fn is_anchored_prefix(prefix: &str) -> (r: bool)
    ensures
        r == anchored(prefix@),
{
    let cs: Vec<char> = crate::text::chars_of(prefix);
    let n: usize = cs.len();
    n > 0 && (cs[n - 1] == '-' || cs[n - 1] == '_' || cs[n - 1] == '.')
}

pub open spec fn texts(v: Seq<&str>) -> Seq<Seq<char>> {
    v.map_values(|s: &str| s@)
}

/// Whether a prefix is anchored and `name` starts with it.
pub open spec fn applies(name: Seq<char>, prefix: Seq<char>) -> bool {
    anchored(prefix) && starts_with(name, prefix)
}

/// The length of the longest prefix that applies; 0 where none does.
pub open spec fn longest(name: Seq<char>, prefixes: Seq<Seq<char>>) -> nat
    decreases prefixes.len(),
{
    if prefixes.len() == 0 {
        0
    } else {
        let rest = longest(name, prefixes.drop_last());
        if applies(name, prefixes.last()) && prefixes.last().len() > rest {
            prefixes.last().len()
        } else {
            rest
        }
    }
}

/// `name` without the longest of the prefixes that applies. A prefix that would
/// consume the whole name is declined.
pub open spec fn stripped(name: Seq<char>, prefixes: Seq<Seq<char>>) -> Seq<char> {
    let n = longest(name, prefixes);
    if n < name.len() {
        name.skip(n as int)
    } else {
        name
    }
}

/// No prefix that applies is longer than the longest, and the longest is one of
/// those that apply, if any does.
pub proof fn lemma_longest(name: Seq<char>, prefixes: Seq<Seq<char>>)
    ensures
        forall|p: Seq<char>| #[trigger]
            prefixes.contains(p) && applies(name, p) ==> p.len() <= longest(name, prefixes),
        longest(name, prefixes) > 0 ==> exists|p: Seq<char>| #[trigger]
            prefixes.contains(p) && applies(name, p) && p.len() == longest(name, prefixes),
    decreases prefixes.len(),
{
    if prefixes.len() > 0 {
        let rest = prefixes.drop_last();
        let last = prefixes.last();
        lemma_longest(name, rest);
        assert(prefixes.contains(last)) by {
            assert(prefixes[prefixes.len() - 1] == last);
        }
        assert forall|p: Seq<char>| #[trigger] prefixes.contains(p) && applies(name, p) implies p.len()
            <= longest(name, prefixes) by {
            let i = choose|i: int| 0 <= i < prefixes.len() && prefixes[i] == p;
            if i < prefixes.len() - 1 {
                assert(rest[i] == p);
                assert(rest.contains(p));
            }
        }
        if longest(name, prefixes) > 0 && longest(name, prefixes) == longest(name, rest) {
            let p = choose|p: Seq<char>| #[trigger]
                rest.contains(p) && applies(name, p) && p.len() == longest(name, rest);
            let i = choose|i: int| 0 <= i < rest.len() && rest[i] == p;
            assert(prefixes[i] == p);
            assert(prefixes.contains(p));
        }
    }
}

/// The longest matching prefix wins whatever the order of the list: two lists
/// with the same prefixes strip alike.
pub proof fn lemma_prefix_order_is_irrelevant(
    name: Seq<char>,
    a: Seq<Seq<char>>,
    b: Seq<Seq<char>>,
)
    requires
        forall|p: Seq<char>| a.contains(p) <==> b.contains(p),
    ensures
        stripped(name, a) == stripped(name, b),
{
    lemma_longest(name, a);
    lemma_longest(name, b);
    if longest(name, a) > 0 {
        let p = choose|p: Seq<char>| #[trigger]
            a.contains(p) && applies(name, p) && p.len() == longest(name, a);
        assert(b.contains(p) && applies(name, p));
    }
    if longest(name, b) > 0 {
        let p = choose|p: Seq<char>| #[trigger]
            b.contains(p) && applies(name, p) && p.len() == longest(name, b);
        assert(a.contains(p) && applies(name, p));
    }
}

/// Stripping never gives an empty name for a name that is not empty, and takes
/// away nothing but a prefix.
pub proof fn lemma_stripped_is_a_name(name: Seq<char>, prefixes: Seq<Seq<char>>)
    requires
        name.len() > 0,
    ensures
        stripped(name, prefixes).len() > 0,
        ends_with(name, stripped(name, prefixes)),
{
    let n = longest(name, prefixes);
    if n < name.len() {
        assert(name.skip(name.len() - (name.len() - n)) == name.skip(n as int));
    } else {
        assert(name.skip(0) =~= name);
    }
}

/// A name that no listed prefix starts is left as it is.
pub proof fn lemma_other_names_are_kept(name: Seq<char>, prefixes: Seq<Seq<char>>)
    requires
        forall|p: Seq<char>| prefixes.contains(p) ==> !applies(name, p),
    ensures
        stripped(name, prefixes) == name,
{
    lemma_longest(name, prefixes);
    assert(name.skip(0) =~= name);
}

/// Strips a known packaging prefix from the name of a package, which leaves the
/// upstream name. Prefixes that are not anchored are ignored.
pub fn strip_ecosystem_prefix(source_name: &str, prefixes: &[&str]) -> (r: String)
    ensures
        r@ == stripped(source_name@, texts(prefixes@)),
{
    let name: Vec<char> = crate::text::chars_of(source_name);
    let mut best: usize = 0;
    let mut i: usize = 0;
    assert(texts(prefixes@).take(0) =~= Seq::<Seq<char>>::empty());
    while i < prefixes.len()
        invariant
            i <= prefixes@.len(),
            name@ == source_name@,
            best <= name@.len(),
            best == longest(source_name@, texts(prefixes@).take(i as int)),
        decreases prefixes@.len() - i,
    {
        let prefix: &str = prefixes[i];
        proof {
            let t = texts(prefixes@);
            assert(t.take(i + 1).drop_last() =~= t.take(i as int));
            assert(t.take(i + 1).last() == prefix@);
        }
        if is_anchored_prefix(prefix) && has_prefix(source_name, prefix) {
            let n: usize = crate::text::chars_of(prefix).len();
            if n > best {
                best = n;
            }
        }
        i = i + 1;
    }
    assert(texts(prefixes@).take(i as int) =~= texts(prefixes@));
    let n: usize = name.len();
    if best < n {
        let out: String = crate::text::slice_string(&name, best, n);
        assert(out@ =~= source_name@.skip(best as int));
        out
    } else {
        source_name.to_owned()
    }
}

/// Whether every prefix of a list is anchored.
pub open spec fn all_anchored(prefixes: Seq<Seq<char>>) -> bool {
    forall|i: int| 0 <= i < prefixes.len() ==> anchored(#[trigger] prefixes[i])
}

/// [`strip_ecosystem_prefix`] with a list written down in this file, every one
/// of which is anchored to a separator.
fn strip_listed(source_name: &str, prefixes: &[&str]) -> (r: String)
    requires
        all_anchored(texts(prefixes@)),
    ensures
        r@ == stripped(source_name@, texts(prefixes@)),
{
    strip_ecosystem_prefix(source_name, prefixes)
}

/// The name of a Perl distribution without the decoration that packaging gives
/// it: `lib..-perl`, where something stands between, else `perl-..`.
pub open spec fn perl_name(name: Seq<char>) -> Seq<char> {
    if starts_with(name, "lib"@) && ends_with(name, "-perl"@) && name.len() > "lib"@.len()
        + "-perl"@.len() {
        name.subrange("lib"@.len() as int, name.len() - "-perl"@.len())
    } else {
        stripped(name, seq!["perl-"@])
    }
}

/// Strips Perl packaging decoration, whichever distribution applied it. Both
/// tokens go only when the whole shape is present: a bare `lib` is no prefix.
pub fn strip_perl_packaging(package_name: &str) -> (r: String)
    ensures
        r@ == perl_name(package_name@),
{
    proof {
        reveal_strlit("lib");
        reveal_strlit("-perl");
        reveal_strlit("perl-");
        assert(texts(["perl-"]@) =~= seq!["perl-"@]);
    }
    if has_prefix(package_name, "lib") && has_suffix(package_name, "-perl") {
        let cs: Vec<char> = crate::text::chars_of(package_name);
        let n: usize = cs.len();
        if n > 8 {
            return crate::text::slice_string(&cs, 3, n - 5);
        }
    }
    strip_listed(package_name, &["perl-"])
}

/// `s` without a suffix, if it has it.
pub open spec fn chop_suffix(s: Seq<char>, suffix: Seq<char>) -> Seq<char> {
    match crate::text::strip_suffix(s, suffix) {
        Some(t) => t,
        None => s,
    }
}

/// `s` without a prefix, if it has it.
pub open spec fn chop_prefix(s: Seq<char>, prefix: Seq<char>) -> Seq<char> {
    match crate::text::strip_prefix(s, prefix) {
        Some(t) => t,
        None => s,
    }
}

fn chopped_suffix(s: &str, suffix: &str) -> (r: String)
    ensures
        r@ == chop_suffix(s@, suffix@),
{
    match crate::text::without_suffix(s, suffix) {
        Some(t) => t,
        None => s.to_owned(),
    }
}

fn chopped_prefix(s: &str, prefix: &str) -> (r: String)
    ensures
        r@ == chop_prefix(s@, prefix@),
{
    match crate::text::without_prefix(s, prefix) {
        Some(t) => t,
        None => s.to_owned(),
    }
}

/// The name of a crate in a Debian package name: what stands before `-dev` and
/// before the first `+`, which starts the name of a feature.
pub open spec fn crate_name(name: Seq<char>) -> Seq<char> {
    crate::text::before(chop_suffix(name, "-dev"@), "+"@)
}

pub fn normalize_librust_crate_name(name: &str) -> (r: String)
    ensures
        r@ == crate_name(name@),
{
    crate::text::head(&chopped_suffix(name, "-dev"), "+")
}

// ---------------------------------------------------------------------------
// The upstream ecosystem of a package

/// An upstream ecosystem, and how it was found.
pub struct EcosystemDetection {
    pub ecosystem: &'static str,
    /// The name of the package in that ecosystem, where it is known.
    pub package_name: Option<String>,
    /// `source0-domain`, `homepage-domain` and `buildrequires-macro` are strong
    /// evidence; `name-prefix` is weaker.
    pub detection_method: &'static str,
}

/// What a detection says.
#[verifier::ext_equal]
pub struct Detected {
    pub ecosystem: Seq<char>,
    pub package_name: Option<Seq<char>>,
    pub method: Seq<char>,
}

impl View for EcosystemDetection {
    type V = Detected;

    open spec fn view(&self) -> Detected {
        Detected {
            ecosystem: self.ecosystem@,
            package_name: crate::text::opt(self.package_name),
            method: self.detection_method@,
        }
    }
}

pub open spec fn seen(d: Option<EcosystemDetection>) -> Option<Detected> {
    match d {
        Some(x) => Some(x@),
        None => None,
    }
}

pub open spec fn found(ecosystem: Seq<char>, name: Seq<char>, method: Seq<char>) -> Option<
    Detected,
> {
    Some(Detected { ecosystem, package_name: Some(name), method })
}

fn detection(
    ecosystem: &'static str,
    name: String,
    method: &'static str,
) -> (r: Option<EcosystemDetection>)
    ensures
        seen(r) == found(ecosystem@, name@, method@),
{
    Some(EcosystemDetection { ecosystem, package_name: Some(name), detection_method: method })
}

/// A `golang-` prefix names the ecosystem and nothing more: the module path was
/// flattened into the package name, and that cannot be undone.
pub open spec fn go_only() -> Detected {
    Detected { ecosystem: "gomod"@, package_name: None, method: "name-prefix"@ }
}

fn go_ecosystem_only() -> (r: Option<EcosystemDetection>)
    ensures
        seen(r) == Some(go_only()),
{
    Some(
        EcosystemDetection {
            ecosystem: "gomod",
            package_name: None,
            detection_method: "name-prefix",
        },
    )
}

/// The ecosystem whose registry a URL, in lower case, names.
pub open spec fn registry_of(url: Seq<char>) -> Option<Seq<char>> {
    if contains(url, "files.pythonhosted.org"@) || contains(url, "pypi.org"@) || contains(
        url,
        "pypi.io"@,
    ) {
        Some("pypi"@)
    } else if contains(url, "rubygems.org"@) {
        Some("rubygems"@)
    } else if contains(url, "crates.io"@) || contains(url, "static.crates.io"@) {
        Some("cargo"@)
    } else if contains(url, "registry.npmjs.org"@) || contains(url, "npmjs.com"@) {
        Some("npm"@)
    } else if contains(url, "cpan.metacpan.org"@) || contains(url, "search.cpan.org"@) || contains(
        url,
        "cpan.org"@,
    ) {
        Some("cpan"@)
    } else if contains(url, "hackage.haskell.org"@) {
        Some("hackage"@)
    } else if contains(url, "hex.pm"@) {
        Some("hex"@)
    } else {
        None
    }
}

/// The ecosystem that the domain of a homepage, in lower case, names: the
/// registries, and the two archives of R packages.
pub open spec fn homepage_registry(url: Seq<char>) -> Option<Seq<char>> {
    match registry_of(url) {
        Some(e) => Some(e),
        None => if contains(url, "cran.r-project.org"@) {
            Some("cran"@)
        } else if contains(url, "bioconductor.org"@) {
            Some("bioconductor"@)
        } else {
            None
        },
    }
}

/// The upstream name of an RPM source package whose sources come from the
/// registry of an ecosystem.
pub open spec fn source_upstream(ecosystem: Seq<char>, name: Seq<char>) -> Seq<char> {
    if ecosystem == "pypi"@ {
        stripped(name, seq!["python3-"@, "python-"@])
    } else if ecosystem == "rubygems"@ {
        stripped(name, seq!["rubygem-"@])
    } else if ecosystem == "cargo"@ {
        stripped(name, seq!["rust-"@])
    } else if ecosystem == "npm"@ {
        stripped(name, seq!["nodejs-"@, "npm-"@])
    } else if ecosystem == "cpan"@ {
        stripped(name, seq!["perl-"@])
    } else if ecosystem == "hackage"@ {
        stripped(name, seq!["ghc-"@])
    } else {
        name
    }
}

/// The upstream name of a Debian package whose homepage is in an ecosystem.
pub open spec fn homepage_upstream(ecosystem: Seq<char>, name: Seq<char>) -> Seq<char> {
    if ecosystem == "pypi"@ {
        stripped(name, seq!["python3-"@, "python-"@])
    } else if ecosystem == "rubygems"@ {
        stripped(name, seq!["rubygem-"@, "ruby-"@])
    } else if ecosystem == "cargo"@ {
        crate_name(stripped(name, seq!["rust-"@, "librust-"@]))
    } else if ecosystem == "npm"@ {
        stripped(name, seq!["nodejs-"@, "npm-"@, "node-"@])
    } else if ecosystem == "cpan"@ {
        perl_name(name)
    } else if ecosystem == "hackage"@ {
        stripped(name, seq!["ghc-"@, "libghc-"@])
    } else if ecosystem == "cran"@ {
        stripped(name, seq!["r-cran-"@])
    } else if ecosystem == "bioconductor"@ {
        stripped(name, seq!["r-bioc-"@])
    } else {
        name
    }
}

/// What the domain of `Source0` says, given the URL in lower case.
pub open spec fn by_source(lower: Seq<char>, name: Seq<char>) -> Option<Detected> {
    match registry_of(lower) {
        Some(e) => found(e, source_upstream(e, name), "source0-domain"@),
        None => None,
    }
}

/// What the domain of a homepage says, given the URL in lower case.
pub open spec fn by_homepage(lower: Seq<char>, name: Seq<char>) -> Option<Detected> {
    match homepage_registry(lower) {
        Some(e) => found(e, homepage_upstream(e, name), "homepage-domain"@),
        None => None,
    }
}

/// What the prefix of an RPM source package says.
pub open spec fn by_source_prefix(name: Seq<char>) -> Option<Detected> {
    if starts_with(name, "python3-"@) || starts_with(name, "python-"@) {
        found("pypi"@, stripped(name, seq!["python3-"@, "python-"@]), "name-prefix"@)
    } else if starts_with(name, "perl-"@) {
        found("cpan"@, stripped(name, seq!["perl-"@]), "name-prefix"@)
    } else if starts_with(name, "rubygem-"@) {
        found("rubygems"@, stripped(name, seq!["rubygem-"@]), "name-prefix"@)
    } else if starts_with(name, "rust-"@) {
        found("cargo"@, stripped(name, seq!["rust-"@]), "name-prefix"@)
    } else if starts_with(name, "ghc-"@) {
        found("hackage"@, stripped(name, seq!["ghc-"@]), "name-prefix"@)
    } else if starts_with(name, "golang-"@) {
        Some(go_only())
    } else if starts_with(name, "nodejs-"@) {
        found("npm"@, stripped(name, seq!["nodejs-"@]), "name-prefix"@)
    } else {
        None
    }
}

/// What the shape of a Debian package name says.
pub open spec fn by_package_prefix(name: Seq<char>) -> Option<Detected> {
    if starts_with(name, "python3-"@) || starts_with(name, "python-"@) {
        found("pypi"@, stripped(name, seq!["python3-"@, "python-"@]), "name-prefix"@)
    } else if ends_with(name, "-perl"@) && starts_with(name, "lib"@) {
        found("cpan"@, perl_name(name), "name-prefix"@)
    } else if starts_with(name, "ruby-"@) {
        found("rubygems"@, stripped(name, seq!["ruby-"@]), "name-prefix"@)
    } else if starts_with(name, "librust-"@) && ends_with(name, "-dev"@) {
        found(
            "cargo"@,
            crate_name(chop_suffix(chop_prefix(name, "librust-"@), "-dev"@)),
            "name-prefix"@,
        )
    } else if starts_with(name, "node-"@) {
        found("npm"@, stripped(name, seq!["node-"@]), "name-prefix"@)
    } else if starts_with(name, "golang-"@) {
        Some(go_only())
    } else if starts_with(name, "r-cran-"@) {
        found("cran"@, stripped(name, seq!["r-cran-"@]), "name-prefix"@)
    } else if starts_with(name, "r-bioc-"@) {
        found("bioconductor"@, stripped(name, seq!["r-bioc-"@]), "name-prefix"@)
    } else if starts_with(name, "libghc-"@) && ends_with(name, "-dev"@) {
        found(
            "hackage"@,
            chop_suffix(chop_prefix(name, "libghc-"@), "-dev"@),
            "name-prefix"@,
        )
    } else if starts_with(name, "ghc-"@) {
        found("hackage"@, stripped(name, seq!["ghc-"@]), "name-prefix"@)
    } else if starts_with(name, "elpa-"@) {
        found("elpa"@, stripped(name, seq!["elpa-"@]), "name-prefix"@)
    } else {
        None
    }
}

/// Looks at the domain of `Source0`; `lower` is its URL in lower case.
pub fn detect_by_source(lower: &str, source_name: &str) -> (r: Option<EcosystemDetection>)
    ensures
        seen(r) == by_source(lower@, source_name@),
{
    proof {
        lemma_ecosystems_differ();
    }
    proof {
        reveal_strlit("ghc-");
        reveal_strlit("nodejs-");
        reveal_strlit("npm-");
        reveal_strlit("perl-");
        reveal_strlit("python-");
        reveal_strlit("python3-");
        reveal_strlit("rubygem-");
        reveal_strlit("rust-");
        assert(texts(["python3-", "python-"]@) =~= seq!["python3-"@, "python-"@]);
        assert(texts(["rubygem-"]@) =~= seq!["rubygem-"@]);
        assert(texts(["rust-"]@) =~= seq!["rust-"@]);
        assert(texts(["nodejs-", "npm-"]@) =~= seq!["nodejs-"@, "npm-"@]);
        assert(texts(["perl-"]@) =~= seq!["perl-"@]);
        assert(texts(["ghc-"]@) =~= seq!["ghc-"@]);
    }
    if has_text(lower, "files.pythonhosted.org") || has_text(lower, "pypi.org") || has_text(lower, "pypi.io") {
        detection("pypi", strip_listed(source_name, &["python3-", "python-"]), "source0-domain")
    } else if has_text(lower, "rubygems.org") {
        detection("rubygems", strip_listed(source_name, &["rubygem-"]), "source0-domain")
    } else if has_text(lower, "crates.io") || has_text(lower, "static.crates.io") {
        detection("cargo", strip_listed(source_name, &["rust-"]), "source0-domain")
    } else if has_text(lower, "registry.npmjs.org") || has_text(lower, "npmjs.com") {
        detection("npm", strip_listed(source_name, &["nodejs-", "npm-"]), "source0-domain")
    } else if has_text(lower, "cpan.metacpan.org") || has_text(lower, "search.cpan.org") || has_text(
        lower,
        "cpan.org",
    ) {
        detection("cpan", strip_listed(source_name, &["perl-"]), "source0-domain")
    } else if has_text(lower, "hackage.haskell.org") {
        detection("hackage", strip_listed(source_name, &["ghc-"]), "source0-domain")
    } else if has_text(lower, "hex.pm") {
        detection("hex", source_name.to_owned(), "source0-domain")
    } else {
        None
    }
}

/// Looks at the prefix of an RPM source package.
pub fn detect_by_source_prefix(source_name: &str) -> (r: Option<EcosystemDetection>)
    ensures
        seen(r) == by_source_prefix(source_name@),
{
    proof {
        reveal_strlit("ghc-");
        reveal_strlit("nodejs-");
        reveal_strlit("perl-");
        reveal_strlit("python-");
        reveal_strlit("python3-");
        reveal_strlit("rubygem-");
        reveal_strlit("rust-");
        assert(texts(["python3-", "python-"]@) =~= seq!["python3-"@, "python-"@]);
        assert(texts(["perl-"]@) =~= seq!["perl-"@]);
        assert(texts(["rubygem-"]@) =~= seq!["rubygem-"@]);
        assert(texts(["rust-"]@) =~= seq!["rust-"@]);
        assert(texts(["ghc-"]@) =~= seq!["ghc-"@]);
        assert(texts(["nodejs-"]@) =~= seq!["nodejs-"@]);
    }
    if has_prefix(source_name, "python3-") || has_prefix(source_name, "python-") {
        detection("pypi", strip_listed(source_name, &["python3-", "python-"]), "name-prefix")
    } else if has_prefix(source_name, "perl-") {
        detection("cpan", strip_listed(source_name, &["perl-"]), "name-prefix")
    } else if has_prefix(source_name, "rubygem-") {
        detection("rubygems", strip_listed(source_name, &["rubygem-"]), "name-prefix")
    } else if has_prefix(source_name, "rust-") {
        detection("cargo", strip_listed(source_name, &["rust-"]), "name-prefix")
    } else if has_prefix(source_name, "ghc-") {
        detection("hackage", strip_listed(source_name, &["ghc-"]), "name-prefix")
    } else if has_prefix(source_name, "golang-") {
        go_ecosystem_only()
    } else if has_prefix(source_name, "nodejs-") {
        detection("npm", strip_listed(source_name, &["nodejs-"]), "name-prefix")
    } else {
        None
    }
}

/// Looks at the domain of a homepage; `lower` is its URL in lower case.
pub fn detect_by_homepage(lower: &str, package_name: &str) -> (r: Option<EcosystemDetection>)
    ensures
        seen(r) == by_homepage(lower@, package_name@),
{
    proof {
        lemma_ecosystems_differ();
    }
    proof {
        reveal_strlit("ghc-");
        reveal_strlit("libghc-");
        reveal_strlit("librust-");
        reveal_strlit("node-");
        reveal_strlit("nodejs-");
        reveal_strlit("npm-");
        reveal_strlit("python-");
        reveal_strlit("python3-");
        reveal_strlit("r-bioc-");
        reveal_strlit("r-cran-");
        reveal_strlit("ruby-");
        reveal_strlit("rubygem-");
        reveal_strlit("rust-");
        assert(texts(["python3-", "python-"]@) =~= seq!["python3-"@, "python-"@]);
        assert(texts(["rubygem-", "ruby-"]@) =~= seq!["rubygem-"@, "ruby-"@]);
        assert(texts(["rust-", "librust-"]@) =~= seq!["rust-"@, "librust-"@]);
        assert(texts(["nodejs-", "npm-", "node-"]@) =~= seq!["nodejs-"@, "npm-"@, "node-"@]);
        assert(texts(["ghc-", "libghc-"]@) =~= seq!["ghc-"@, "libghc-"@]);
        assert(texts(["r-cran-"]@) =~= seq!["r-cran-"@]);
        assert(texts(["r-bioc-"]@) =~= seq!["r-bioc-"@]);
    }
    if has_text(lower, "files.pythonhosted.org") || has_text(lower, "pypi.org") || has_text(lower, "pypi.io") {
        detection("pypi", strip_listed(package_name, &["python3-", "python-"]), "homepage-domain")
    } else if has_text(lower, "rubygems.org") {
        detection("rubygems", strip_listed(package_name, &["rubygem-", "ruby-"]), "homepage-domain")
    } else if has_text(lower, "crates.io") || has_text(lower, "static.crates.io") {
        let plain: String = strip_listed(package_name, &["rust-", "librust-"]);
        detection("cargo", normalize_librust_crate_name(&plain), "homepage-domain")
    } else if has_text(lower, "registry.npmjs.org") || has_text(lower, "npmjs.com") {
        detection(
            "npm",
            strip_listed(package_name, &["nodejs-", "npm-", "node-"]),
            "homepage-domain",
        )
    } else if has_text(lower, "cpan.metacpan.org") || has_text(lower, "search.cpan.org") || has_text(
        lower,
        "cpan.org",
    ) {
        detection("cpan", strip_perl_packaging(package_name), "homepage-domain")
    } else if has_text(lower, "hackage.haskell.org") {
        detection("hackage", strip_listed(package_name, &["ghc-", "libghc-"]), "homepage-domain")
    } else if has_text(lower, "hex.pm") {
        detection("hex", package_name.to_owned(), "homepage-domain")
    } else if has_text(lower, "cran.r-project.org") {
        detection("cran", strip_listed(package_name, &["r-cran-"]), "homepage-domain")
    } else if has_text(lower, "bioconductor.org") {
        detection("bioconductor", strip_listed(package_name, &["r-bioc-"]), "homepage-domain")
    } else {
        None
    }
}

/// Looks at the shape of a Debian package name.
pub fn detect_by_package_prefix(package_name: &str) -> (r: Option<EcosystemDetection>)
    ensures
        seen(r) == by_package_prefix(package_name@),
{
    proof {
        reveal_strlit("elpa-");
        reveal_strlit("ghc-");
        reveal_strlit("node-");
        reveal_strlit("python-");
        reveal_strlit("python3-");
        reveal_strlit("r-bioc-");
        reveal_strlit("r-cran-");
        reveal_strlit("ruby-");
        assert(texts(["python3-", "python-"]@) =~= seq!["python3-"@, "python-"@]);
        assert(texts(["ruby-"]@) =~= seq!["ruby-"@]);
        assert(texts(["node-"]@) =~= seq!["node-"@]);
        assert(texts(["r-cran-"]@) =~= seq!["r-cran-"@]);
        assert(texts(["r-bioc-"]@) =~= seq!["r-bioc-"@]);
        assert(texts(["ghc-"]@) =~= seq!["ghc-"@]);
        assert(texts(["elpa-"]@) =~= seq!["elpa-"@]);
    }
    if has_prefix(package_name, "python3-") || has_prefix(package_name, "python-") {
        detection("pypi", strip_listed(package_name, &["python3-", "python-"]), "name-prefix")
    } else if has_suffix(package_name, "-perl") && has_prefix(package_name, "lib") {
        detection("cpan", strip_perl_packaging(package_name), "name-prefix")
    } else if has_prefix(package_name, "ruby-") {
        detection("rubygems", strip_listed(package_name, &["ruby-"]), "name-prefix")
    } else if has_prefix(package_name, "librust-") && has_suffix(package_name, "-dev") {
        let inner: String = chopped_suffix(&chopped_prefix(package_name, "librust-"), "-dev");
        detection("cargo", normalize_librust_crate_name(&inner), "name-prefix")
    } else if has_prefix(package_name, "node-") {
        detection("npm", strip_listed(package_name, &["node-"]), "name-prefix")
    } else if has_prefix(package_name, "golang-") {
        go_ecosystem_only()
    } else if has_prefix(package_name, "r-cran-") {
        detection("cran", strip_listed(package_name, &["r-cran-"]), "name-prefix")
    } else if has_prefix(package_name, "r-bioc-") {
        detection("bioconductor", strip_listed(package_name, &["r-bioc-"]), "name-prefix")
    } else if has_prefix(package_name, "libghc-") && has_suffix(package_name, "-dev") {
        let inner: String = chopped_suffix(&chopped_prefix(package_name, "libghc-"), "-dev");
        detection("hackage", inner, "name-prefix")
    } else if has_prefix(package_name, "ghc-") {
        detection("hackage", strip_listed(package_name, &["ghc-"]), "name-prefix")
    } else if has_prefix(package_name, "elpa-") {
        detection("elpa", strip_listed(package_name, &["elpa-"]), "name-prefix")
    } else {
        None
    }
}

/// What the name of a Debian package and its homepage say: the domain of the
/// homepage first, the shape of the name otherwise.
pub open spec fn by_name(name: Seq<char>, homepage: Option<Seq<char>>) -> Option<Detected> {
    let first = match homepage {
        Some(url) => by_homepage(lowercase(url), name),
        None => None,
    };
    match first {
        Some(d) => Some(d),
        None => by_package_prefix(name),
    }
}

/// Detects the upstream ecosystem of a Debian package, which has neither build
/// requirements nor a `Source0` to look at.
pub fn detect_ecosystem_by_name(
    package_name: &str,
    homepage_url: Option<&str>,
) -> (r: Option<EcosystemDetection>)
    ensures
        seen(r) == by_name(
            package_name@,
            match homepage_url {
                Some(u) => Some(u@),
                None => None,
            },
        ),
{
    if let Some(homepage) = homepage_url {
        let first: Option<EcosystemDetection> = detect_by_homepage(
            &to_lowercase(homepage),
            package_name,
        );
        if first.is_some() {
            return first;
        }
    }
    detect_by_package_prefix(package_name)
}

/// Where both the homepage and the name of a package say that it comes from
/// CPAN, they agree on its upstream name.
pub proof fn lemma_cpan_strategies_agree(name: Seq<char>, lower: Seq<char>)
    requires
        by_homepage(lower, name) matches Some(d) && d.ecosystem == "cpan"@,
        by_package_prefix(name) matches Some(d) && d.ecosystem == "cpan"@,
    ensures
        by_homepage(lower, name)->0.package_name == by_package_prefix(name)->0.package_name,
{
    lemma_ecosystems_differ();
}

/// A name whose ecosystem is Go never gets an upstream name, whichever way the
/// ecosystem was found.
pub proof fn lemma_go_has_no_name(name: Seq<char>, homepage: Option<Seq<char>>)
    requires
        by_name(name, homepage) matches Some(d) && d.ecosystem == "gomod"@,
    ensures
        by_name(name, homepage)->0.package_name is None,
{
    lemma_ecosystems_differ();
}

proof fn lemma_ecosystems_differ()
    ensures
        "pypi"@ != "rubygems"@,
        "pypi"@ != "cargo"@,
        "pypi"@ != "npm"@,
        "pypi"@ != "cpan"@,
        "pypi"@ != "hackage"@,
        "pypi"@ != "hex"@,
        "pypi"@ != "cran"@,
        "pypi"@ != "bioconductor"@,
        "pypi"@ != "gomod"@,
        "pypi"@ != "elpa"@,
        "rubygems"@ != "cargo"@,
        "rubygems"@ != "npm"@,
        "rubygems"@ != "cpan"@,
        "rubygems"@ != "hackage"@,
        "rubygems"@ != "hex"@,
        "rubygems"@ != "cran"@,
        "rubygems"@ != "bioconductor"@,
        "rubygems"@ != "gomod"@,
        "rubygems"@ != "elpa"@,
        "cargo"@ != "npm"@,
        "cargo"@ != "cpan"@,
        "cargo"@ != "hackage"@,
        "cargo"@ != "hex"@,
        "cargo"@ != "cran"@,
        "cargo"@ != "bioconductor"@,
        "cargo"@ != "gomod"@,
        "cargo"@ != "elpa"@,
        "npm"@ != "cpan"@,
        "npm"@ != "hackage"@,
        "npm"@ != "hex"@,
        "npm"@ != "cran"@,
        "npm"@ != "bioconductor"@,
        "npm"@ != "gomod"@,
        "npm"@ != "elpa"@,
        "cpan"@ != "hackage"@,
        "cpan"@ != "hex"@,
        "cpan"@ != "cran"@,
        "cpan"@ != "bioconductor"@,
        "cpan"@ != "gomod"@,
        "cpan"@ != "elpa"@,
        "hackage"@ != "hex"@,
        "hackage"@ != "cran"@,
        "hackage"@ != "bioconductor"@,
        "hackage"@ != "gomod"@,
        "hackage"@ != "elpa"@,
        "hex"@ != "cran"@,
        "hex"@ != "bioconductor"@,
        "hex"@ != "gomod"@,
        "hex"@ != "elpa"@,
        "cran"@ != "bioconductor"@,
        "cran"@ != "gomod"@,
        "cran"@ != "elpa"@,
        "bioconductor"@ != "gomod"@,
        "bioconductor"@ != "elpa"@,
        "gomod"@ != "elpa"@,
{
    reveal_strlit("pypi");
    reveal_strlit("rubygems");
    reveal_strlit("cargo");
    reveal_strlit("npm");
    reveal_strlit("cpan");
    reveal_strlit("hackage");
    reveal_strlit("hex");
    reveal_strlit("cran");
    reveal_strlit("bioconductor");
    reveal_strlit("gomod");
    reveal_strlit("elpa");
    assert("pypi"@.len() != "rubygems"@.len());
    assert("pypi"@.len() != "cargo"@.len());
    assert("pypi"@.len() != "npm"@.len());
    assert("pypi"@[0] != "cpan"@[0]);
    assert("pypi"@.len() != "hackage"@.len());
    assert("pypi"@.len() != "hex"@.len());
    assert("pypi"@[0] != "cran"@[0]);
    assert("pypi"@.len() != "bioconductor"@.len());
    assert("pypi"@.len() != "gomod"@.len());
    assert("pypi"@[0] != "elpa"@[0]);
    assert("rubygems"@.len() != "cargo"@.len());
    assert("rubygems"@.len() != "npm"@.len());
    assert("rubygems"@.len() != "cpan"@.len());
    assert("rubygems"@.len() != "hackage"@.len());
    assert("rubygems"@.len() != "hex"@.len());
    assert("rubygems"@.len() != "cran"@.len());
    assert("rubygems"@.len() != "bioconductor"@.len());
    assert("rubygems"@.len() != "gomod"@.len());
    assert("rubygems"@.len() != "elpa"@.len());
    assert("cargo"@.len() != "npm"@.len());
    assert("cargo"@.len() != "cpan"@.len());
    assert("cargo"@.len() != "hackage"@.len());
    assert("cargo"@.len() != "hex"@.len());
    assert("cargo"@.len() != "cran"@.len());
    assert("cargo"@.len() != "bioconductor"@.len());
    assert("cargo"@[0] != "gomod"@[0]);
    assert("cargo"@.len() != "elpa"@.len());
    assert("npm"@.len() != "cpan"@.len());
    assert("npm"@.len() != "hackage"@.len());
    assert("npm"@[0] != "hex"@[0]);
    assert("npm"@.len() != "cran"@.len());
    assert("npm"@.len() != "bioconductor"@.len());
    assert("npm"@.len() != "gomod"@.len());
    assert("npm"@.len() != "elpa"@.len());
    assert("cpan"@.len() != "hackage"@.len());
    assert("cpan"@.len() != "hex"@.len());
    assert("cpan"@[1] != "cran"@[1]);
    assert("cpan"@.len() != "bioconductor"@.len());
    assert("cpan"@.len() != "gomod"@.len());
    assert("cpan"@[0] != "elpa"@[0]);
    assert("hackage"@.len() != "hex"@.len());
    assert("hackage"@.len() != "cran"@.len());
    assert("hackage"@.len() != "bioconductor"@.len());
    assert("hackage"@.len() != "gomod"@.len());
    assert("hackage"@.len() != "elpa"@.len());
    assert("hex"@.len() != "cran"@.len());
    assert("hex"@.len() != "bioconductor"@.len());
    assert("hex"@.len() != "gomod"@.len());
    assert("hex"@.len() != "elpa"@.len());
    assert("cran"@.len() != "bioconductor"@.len());
    assert("cran"@.len() != "gomod"@.len());
    assert("cran"@[0] != "elpa"@[0]);
    assert("bioconductor"@.len() != "gomod"@.len());
    assert("bioconductor"@.len() != "elpa"@.len());
    assert("gomod"@.len() != "elpa"@.len());
}

} // verus!
