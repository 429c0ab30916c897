//! What is said of Debian packages only.

use crate::emit::debian_ext::{with_debian_extras, with_debian_facts};
use crate::forge::forge_url;
use crate::ir::{extra_text, Extra, Record};
use crate::ntriples::{link, number_if, pkg, Fact, Sheet};
use crate::number::i64_value;
use crate::reading::{
    group_deb, group_reading, group_writes, maybe_literal, number_if_any, said, text_if, to_iri,
};
use crate::split::first_word_or_all;
use crate::uris::{identity_iri, package_iri, repo_iri, DEB, RDF_TYPE, VCS};
use vstd::prelude::*;

verus! {

#[verifier::opaque]
spec fn debian_facts_step_1(w: Sheet, extra: Map<Seq<char>, Extra>, package: Seq<char>) -> Sheet {
    match extra_text(extra, "installed_size_kb"@) {
        Some(size) => { number_if(w, package, DEB@ + "installedSize"@, i64_value(size)) },
        None => w,
    }
}

proof fn lemma_debian_facts_step_1(w: Sheet, extra: Map<Seq<char>, Extra>, package: Seq<char>)
    ensures
        ({
            let first = w.log;
            let last = debian_facts_step_1(w, extra, package).log;
            &&& said(last, DEB@ + "installedSize"@) == said(first, DEB@ + "installedSize"@)
                + (
                    match extra_text(extra, "installed_size_kb"@) {
                        Some(size) => number_if_any(package, i64_value(size)),
                        None => Seq::empty(),
                    }
                )
            &&& forall|q: Seq<char>|
                q != DEB@ + "installedSize"@ ==> #[trigger] said(last, q) == said(first, q)
        }),
{
    broadcast use {group_reading, group_deb};

    reveal(debian_facts_step_1);
    reveal_strlit("installedSize");
}

#[verifier::opaque]
spec fn debian_facts_step_2(w: Sheet, extra: Map<Seq<char>, Extra>, identity: Seq<char>) -> Sheet {
    match extra_text(extra, "vcs_git"@) {
        Some(vcs) => {
            let address = first_word_or_all(vcs);
            let w = match forge_url(address) {
                Some(url) => {
                    let repo = repo_iri(url);
                    let w = link(w, identity, pkg("packagingRepository"@), repo);
                    link(w, repo, RDF_TYPE@, VCS@ + "Repository"@)
                },
                None => w,
            };
            w
        },
        None => w,
    }
}

proof fn lemma_debian_facts_step_2(w: Sheet, extra: Map<Seq<char>, Extra>, identity: Seq<char>)
    ensures
        ({
            let first = w.log;
            let last = debian_facts_step_2(w, extra, identity).log;
            &&& said(last, pkg("packagingRepository"@)) == said(first, pkg("packagingRepository"@))
                + (
                    match extra_text(extra, "vcs_git"@) {
                        Some(vcs) => (
                            match forge_url(first_word_or_all(vcs)) {
                                Some(url) => seq![to_iri(identity, repo_iri(url))],
                                None => Seq::empty(),
                            }
                        ),
                        None => Seq::empty(),
                    }
                )
            &&& said(last, RDF_TYPE@) == said(first, RDF_TYPE@)
                + (
                    match extra_text(extra, "vcs_git"@) {
                        Some(vcs) => (
                            match forge_url(first_word_or_all(vcs)) {
                                Some(url) => seq![to_iri(repo_iri(url), VCS@ + "Repository"@)],
                                None => Seq::empty(),
                            }
                        ),
                        None => Seq::empty(),
                    }
                )
            &&& forall|q: Seq<char>|
                q != pkg("packagingRepository"@) && q != RDF_TYPE@
                    ==> #[trigger] said(last, q) == said(first, q)
        }),
{
    broadcast use group_reading;

    reveal(debian_facts_step_2);
    reveal_strlit("packagingRepository");
}

/// What is said of a Debian package only: that it is one, its suite, its component, its
/// size, and the repository that it is packaged in, where that is one of a forge.
pub open spec fn debian_facts_told(
    first: Seq<Fact>,
    last: Seq<Fact>,
    ir: Record,
    extra: Map<Seq<char>, Extra>,
) -> bool {
    let package = package_iri(
        ir.scope.distro,
        ir.scope.release,
        ir.package.arch,
        ir.package.name,
        ir.package.full_version,
    );
    let identity = identity_iri(ir.scope.distro, ir.scope.release, ir.package.arch, ir.package.name);
    &&& said(last, RDF_TYPE@) == said(first, RDF_TYPE@)
        + seq![to_iri(package, DEB@ + "BinaryPackage"@)]
        + (
            match extra_text(extra, "vcs_git"@) {
                Some(vcs) => (
                    match forge_url(first_word_or_all(vcs)) {
                        Some(url) => seq![to_iri(repo_iri(url), VCS@ + "Repository"@)],
                        None => Seq::empty(),
                    }
                ),
                None => Seq::empty(),
            }
        )
    &&& said(last, DEB@ + "inSuite"@) == said(first, DEB@ + "inSuite"@)
        + text_if(package, extra_text(extra, "suite"@))
    &&& said(last, DEB@ + "inComponent"@) == said(first, DEB@ + "inComponent"@)
        + text_if(package, extra_text(extra, "component"@))
    &&& said(last, DEB@ + "installedSize"@) == said(first, DEB@ + "installedSize"@)
        + (
            match extra_text(extra, "installed_size_kb"@) {
                Some(size) => number_if_any(package, i64_value(size)),
                None => Seq::empty(),
            }
        )
    &&& said(last, pkg("packagingRepository"@)) == said(first, pkg("packagingRepository"@))
        + (
            match extra_text(extra, "vcs_git"@) {
                Some(vcs) => (
                    match forge_url(first_word_or_all(vcs)) {
                        Some(url) => seq![to_iri(identity, repo_iri(url))],
                        None => Seq::empty(),
                    }
                ),
                None => Seq::empty(),
            }
        )
    &&& forall|q: Seq<char>|
        q != RDF_TYPE@
            && q != DEB@ + "inSuite"@
            && q != DEB@ + "inComponent"@
            && q != DEB@ + "installedSize"@
            && q != pkg("packagingRepository"@)
            ==> #[trigger] said(last, q) == said(first, q)
}

proof fn lemma_debian_facts_in_steps(w: Sheet, ir: Record, extra: Map<Seq<char>, Extra>)
    ensures
        with_debian_facts(w, ir, extra) == ({
            let package = package_iri(
                ir.scope.distro,
                ir.scope.release,
                ir.package.arch,
                ir.package.name,
                ir.package.full_version,
            );
            let identity = identity_iri(
                ir.scope.distro,
                ir.scope.release,
                ir.package.arch,
                ir.package.name,
            );
            let w = link(w, package, RDF_TYPE@, DEB@ + "BinaryPackage"@);
            let w = maybe_literal(w, package, DEB@ + "inSuite"@, extra_text(extra, "suite"@));
            let w = maybe_literal(
                w,
                package,
                DEB@ + "inComponent"@,
                extra_text(extra, "component"@),
            );
            let w = debian_facts_step_1(w, extra, package);
            let w = debian_facts_step_2(w, extra, identity);
            w
        }),
{
    reveal(maybe_literal);
    reveal(debian_facts_step_1);
    reveal(debian_facts_step_2);
}

proof fn lemma_debian_facts_steps(w: Sheet, ir: Record, extra: Map<Seq<char>, Extra>)
    ensures
        debian_facts_told(w.log, ({
            let package = package_iri(
                ir.scope.distro,
                ir.scope.release,
                ir.package.arch,
                ir.package.name,
                ir.package.full_version,
            );
            let identity = identity_iri(
                ir.scope.distro,
                ir.scope.release,
                ir.package.arch,
                ir.package.name,
            );
            let w = link(w, package, RDF_TYPE@, DEB@ + "BinaryPackage"@);
            let w = maybe_literal(w, package, DEB@ + "inSuite"@, extra_text(extra, "suite"@));
            let w = maybe_literal(
                w,
                package,
                DEB@ + "inComponent"@,
                extra_text(extra, "component"@),
            );
            let w = debian_facts_step_1(w, extra, package);
            let w = debian_facts_step_2(w, extra, identity);
            w
        }).log, ir, extra),
{
    broadcast use {group_writes, group_deb};

    reveal_strlit("inSuite");
    reveal_strlit("inComponent");
    reveal_strlit("installedSize");
    reveal_strlit("packagingRepository");
    let package = package_iri(
        ir.scope.distro,
        ir.scope.release,
        ir.package.arch,
        ir.package.name,
        ir.package.full_version,
    );
    let identity = identity_iri(ir.scope.distro, ir.scope.release, ir.package.arch, ir.package.name);
    let w1 = link(w, package, RDF_TYPE@, DEB@ + "BinaryPackage"@);
    let w2 = maybe_literal(w1, package, DEB@ + "inSuite"@, extra_text(extra, "suite"@));
    let w3 = maybe_literal(w2, package, DEB@ + "inComponent"@, extra_text(extra, "component"@));
    let w4 = debian_facts_step_1(w3, extra, package);
    lemma_debian_facts_step_1(w3, extra, package);
    let w5 = debian_facts_step_2(w4, extra, identity);
    lemma_debian_facts_step_2(w4, extra, identity);
}

/// What [`with_debian_facts`] writes says what [`debian_facts_told`] states.
pub proof fn lemma_debian_facts_told(
    w: Sheet,
    ir: Record,
    extra: Map<Seq<char>, Extra>,
)
    ensures
        debian_facts_told(w.log, with_debian_facts(w, ir, extra).log, ir, extra),
{
    lemma_debian_facts_in_steps(w, ir, extra);
    lemma_debian_facts_steps(w, ir, extra);
}

proof fn lemma_debian_extras_told(w: Sheet, ir: Record)
    ensures
        ({
            let first = w.log;
            let last = with_debian_extras(w, ir).log;
            &&& said(last, RDF_TYPE@) == said(first, RDF_TYPE@)
                + (
                    match ir.collector_specific {
                        Some(extra) => seq![
                            to_iri(
                                package_iri(
                                    ir.scope.distro,
                                    ir.scope.release,
                                    ir.package.arch,
                                    ir.package.name,
                                    ir.package.full_version,
                                ),
                                DEB@ + "BinaryPackage"@,
                            ),
                        ],
                        None => Seq::empty(),
                    }
                )
                + (
                    match ir.collector_specific {
                        Some(extra) => (
                            match extra_text(extra, "vcs_git"@) {
                                Some(vcs) => (
                                    match forge_url(first_word_or_all(vcs)) {
                                        Some(url) => seq![
                                            to_iri(repo_iri(url), VCS@ + "Repository"@),
                                        ],
                                        None => Seq::empty(),
                                    }
                                ),
                                None => Seq::empty(),
                            }
                        ),
                        None => Seq::empty(),
                    }
                )
            &&& said(last, DEB@ + "inSuite"@) == said(first, DEB@ + "inSuite"@)
                + (
                    match ir.collector_specific {
                        Some(extra) => text_if(
                            package_iri(
                                ir.scope.distro,
                                ir.scope.release,
                                ir.package.arch,
                                ir.package.name,
                                ir.package.full_version,
                            ),
                            extra_text(extra, "suite"@),
                        ),
                        None => Seq::empty(),
                    }
                )
            &&& said(last, DEB@ + "inComponent"@) == said(first, DEB@ + "inComponent"@)
                + (
                    match ir.collector_specific {
                        Some(extra) => text_if(
                            package_iri(
                                ir.scope.distro,
                                ir.scope.release,
                                ir.package.arch,
                                ir.package.name,
                                ir.package.full_version,
                            ),
                            extra_text(extra, "component"@),
                        ),
                        None => Seq::empty(),
                    }
                )
            &&& said(last, DEB@ + "installedSize"@) == said(first, DEB@ + "installedSize"@)
                + (
                    match ir.collector_specific {
                        Some(extra) => (
                            match extra_text(extra, "installed_size_kb"@) {
                                Some(size) => number_if_any(
                                    package_iri(
                                        ir.scope.distro,
                                        ir.scope.release,
                                        ir.package.arch,
                                        ir.package.name,
                                        ir.package.full_version,
                                    ),
                                    i64_value(size),
                                ),
                                None => Seq::empty(),
                            }
                        ),
                        None => Seq::empty(),
                    }
                )
            &&& said(last, pkg("packagingRepository"@)) == said(first, pkg("packagingRepository"@))
                + (
                    match ir.collector_specific {
                        Some(extra) => (
                            match extra_text(extra, "vcs_git"@) {
                                Some(vcs) => (
                                    match forge_url(first_word_or_all(vcs)) {
                                        Some(url) => seq![
                                            to_iri(
                                                identity_iri(
                                                    ir.scope.distro,
                                                    ir.scope.release,
                                                    ir.package.arch,
                                                    ir.package.name,
                                                ),
                                                repo_iri(url),
                                            ),
                                        ],
                                        None => Seq::empty(),
                                    }
                                ),
                                None => Seq::empty(),
                            }
                        ),
                        None => Seq::empty(),
                    }
                )
            &&& forall|q: Seq<char>|
                q != RDF_TYPE@
                    && q != DEB@ + "inSuite"@
                    && q != DEB@ + "inComponent"@
                    && q != DEB@ + "installedSize"@
                    && q != pkg("packagingRepository"@)
                    ==> #[trigger] said(last, q) == said(first, q)
        }),
{
    broadcast use {group_reading, group_deb};

    reveal_strlit("inSuite");
    reveal_strlit("inComponent");
    reveal_strlit("installedSize");
    reveal_strlit("packagingRepository");
    match ir.collector_specific {
        Some(extra) => {
            lemma_debian_facts_told(w, ir, extra);
        },
        None => {
        },
    }
}

} // verus!
