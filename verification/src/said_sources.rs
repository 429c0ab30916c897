//! What is said of Debian sources.

use crate::collect_sources::{
    people_in, with_build_deps, with_each_build_dep, with_each_module, with_each_uploader,
    with_module, with_module_path, with_source_record, with_uploader, with_uploaders_triples,
    BUILD_DEPENDENCY, SourcesCollector, UPLOADER,
};
use crate::debian::first_alternative;
use crate::deps::Person;
use crate::derive_comparison::Build;
use crate::derive_releases::Ecosystem;
use crate::ir::Depends;
use crate::ntriples::{link, literal, pkg, Fact, Sheet};
use crate::pattern::{first_group, regex_captures_all};
use crate::reading::{
    group_deb, group_foaf, group_reading, group_writes, in_turn, said, to_each, to_iri, to_text,
    where_so, Term,
};
use crate::split::{pieces, trim, Sep};
use crate::textmap::field;
use crate::uris::{
    ecosystem_iri, identity_iri, maintainer_iri, repo_iri, DEB, FOAF, RDFS_LABEL, RDF_TYPE,
};
use vstd::prelude::*;

verus! {

#[verifier::opaque]
spec fn uploader_step_1(w: Sheet, repo: Option<Seq<char>>, person: Seq<char>) -> Sheet {
    match repo {
        Some(url) => {
            let place = repo_iri(url);
            let w = link(w, place, pkg("hasContributor"@), person);
            link(w, person, pkg("contributesTo"@), place)
        },
        None => w,
    }
}

proof fn lemma_uploader_step_1(w: Sheet, repo: Option<Seq<char>>, person: Seq<char>)
    ensures
        ({
            let first = w.log;
            let last = uploader_step_1(w, repo, person).log;
            &&& said(last, pkg("hasContributor"@)) == said(first, pkg("hasContributor"@))
                + (
                    match repo {
                        Some(url) => seq![to_iri(repo_iri(url), person)],
                        None => Seq::empty(),
                    }
                )
            &&& said(last, pkg("contributesTo"@)) == said(first, pkg("contributesTo"@))
                + (
                    match repo {
                        Some(url) => seq![to_iri(person, repo_iri(url))],
                        None => Seq::empty(),
                    }
                )
            &&& forall|q: Seq<char>|
                q != pkg("hasContributor"@) && q != pkg("contributesTo"@)
                    ==> #[trigger] said(last, q) == said(first, q)
        }),
{
    broadcast use group_reading;

    reveal(uploader_step_1);
    reveal_strlit("hasContributor");
    reveal_strlit("contributesTo");
}

/// What is said of an uploader: that they are a person, with their name and address, and
/// that they contribute to the repository, where one is known.
pub open spec fn uploader_told(
    first: Seq<Fact>,
    last: Seq<Fact>,
    repo: Option<Seq<char>>,
    who: Person,
) -> bool {
    let person = maintainer_iri(who.email);
    &&& said(last, RDF_TYPE@) == said(first, RDF_TYPE@) + seq![to_iri(person, pkg("Person"@))]
    &&& said(last, FOAF@ + "name"@) == said(first, FOAF@ + "name"@)
        + seq![to_text(person, who.name)]
    &&& said(last, RDFS_LABEL@) == said(first, RDFS_LABEL@) + seq![to_text(person, who.name)]
    &&& said(last, FOAF@ + "mbox"@) == said(first, FOAF@ + "mbox"@)
        + seq![to_iri(person, "mailto:"@ + who.email)]
    &&& said(last, pkg("hasContributor"@)) == said(first, pkg("hasContributor"@))
        + (match repo {Some(url) => seq![to_iri(repo_iri(url), person)], None => Seq::empty()})
    &&& said(last, pkg("contributesTo"@)) == said(first, pkg("contributesTo"@))
        + (match repo {Some(url) => seq![to_iri(person, repo_iri(url))], None => Seq::empty()})
    &&& forall|q: Seq<char>|
        q != RDF_TYPE@
            && q != FOAF@ + "name"@
            && q != RDFS_LABEL@
            && q != FOAF@ + "mbox"@
            && q != pkg("hasContributor"@)
            && q != pkg("contributesTo"@)
            ==> #[trigger] said(last, q) == said(first, q)
}

proof fn lemma_uploader_in_steps(w: Sheet, repo: Option<Seq<char>>, who: Person)
    ensures
        with_uploader(w, repo, who) == ({
            let person = maintainer_iri(who.email);
            let w = link(w, person, RDF_TYPE@, pkg("Person"@));
            let w = literal(w, person, FOAF@ + "name"@, who.name);
            let w = literal(w, person, RDFS_LABEL@, who.name);
            let w = link(w, person, FOAF@ + "mbox"@, "mailto:"@ + who.email);
            let w = uploader_step_1(w, repo, person);
            w
        }),
{
    reveal(uploader_step_1);
}

proof fn lemma_uploader_steps(w: Sheet, repo: Option<Seq<char>>, who: Person)
    ensures
        uploader_told(w.log, ({
            let person = maintainer_iri(who.email);
            let w = link(w, person, RDF_TYPE@, pkg("Person"@));
            let w = literal(w, person, FOAF@ + "name"@, who.name);
            let w = literal(w, person, RDFS_LABEL@, who.name);
            let w = link(w, person, FOAF@ + "mbox"@, "mailto:"@ + who.email);
            let w = uploader_step_1(w, repo, person);
            w
        }).log, repo, who),
{
    broadcast use {group_writes, group_foaf};

    reveal_strlit("name");
    reveal_strlit("mbox");
    reveal_strlit("hasContributor");
    reveal_strlit("contributesTo");
    let person = maintainer_iri(who.email);
    let w1 = link(w, person, RDF_TYPE@, pkg("Person"@));
    let w2 = literal(w1, person, FOAF@ + "name"@, who.name);
    let w3 = literal(w2, person, RDFS_LABEL@, who.name);
    let w4 = link(w3, person, FOAF@ + "mbox"@, "mailto:"@ + who.email);
    let w5 = uploader_step_1(w4, repo, person);
    lemma_uploader_step_1(w4, repo, person);
}

/// What [`with_uploader`] writes says what [`uploader_told`] states.
pub proof fn lemma_uploader_told(
    w: Sheet,
    repo: Option<Seq<char>>,
    who: Person,
)
    ensures
        uploader_told(w.log, with_uploader(w, repo, who).log, repo, who),
{
    lemma_uploader_in_steps(w, repo, who);
    lemma_uploader_steps(w, repo, who);
}

proof fn lemma_each_uploader_told(w: Sheet, repo: Option<Seq<char>>, items: Seq<Person>, n: nat)
    ensures
        ({
            let first = w.log;
            let last = with_each_uploader(w, repo, items, n).log;
            &&& said(last, RDF_TYPE@) == said(first, RDF_TYPE@)
                + in_turn(
                    |k: int| seq![to_iri(maintainer_iri((items[k]).email), pkg("Person"@))],
                    n,
                )
            &&& said(last, FOAF@ + "name"@) == said(first, FOAF@ + "name"@)
                + in_turn(
                    |k: int| seq![to_text(maintainer_iri((items[k]).email), (items[k]).name)],
                    n,
                )
            &&& said(last, RDFS_LABEL@) == said(first, RDFS_LABEL@)
                + in_turn(
                    |k: int| seq![to_text(maintainer_iri((items[k]).email), (items[k]).name)],
                    n,
                )
            &&& said(last, FOAF@ + "mbox"@) == said(first, FOAF@ + "mbox"@)
                + in_turn(
                    |k: int|
                        seq![
                            to_iri(maintainer_iri((items[k]).email), "mailto:"@ + (items[k]).email),
                        ],
                    n,
                )
            &&& said(last, pkg("hasContributor"@)) == said(first, pkg("hasContributor"@))
                + in_turn(
                    |k: int|
                        (
                            match repo {
                                Some(url) => seq![
                                    to_iri(repo_iri(url), maintainer_iri((items[k]).email)),
                                ],
                                None => Seq::empty(),
                            }
                        ),
                    n,
                )
            &&& said(last, pkg("contributesTo"@)) == said(first, pkg("contributesTo"@))
                + in_turn(
                    |k: int|
                        (
                            match repo {
                                Some(url) => seq![
                                    to_iri(maintainer_iri((items[k]).email), repo_iri(url)),
                                ],
                                None => Seq::empty(),
                            }
                        ),
                    n,
                )
            &&& forall|q: Seq<char>|
                q != RDF_TYPE@
                    && q != FOAF@ + "name"@
                    && q != RDFS_LABEL@
                    && q != FOAF@ + "mbox"@
                    && q != pkg("hasContributor"@)
                    && q != pkg("contributesTo"@)
                    ==> #[trigger] said(last, q) == said(first, q)
        }),
    decreases n,
{
    broadcast use {group_writes, group_foaf};

    reveal_strlit("name");
    reveal_strlit("mbox");
    reveal_strlit("hasContributor");
    reveal_strlit("contributesTo");
    if n > 0 {
        lemma_each_uploader_told(w, repo, items, (n - 1) as nat);
        lemma_uploader_told(with_each_uploader(w, repo, items, (n - 1) as nat), repo, items[n - 1]);
    }
}

proof fn lemma_uploaders_told(
    w: Sheet,
    name: Seq<char>,
    uploaders: Seq<char>,
    vcs_urls: Map<Seq<char>, Seq<char>>,
)
    ensures
        ({
            let first = w.log;
            let last = with_uploaders_triples(w, name, uploaders, vcs_urls).log;
            let all = people_in(regex_captures_all(UPLOADER@, uploaders));
            let repo = field(vcs_urls, name);
            &&& said(last, RDF_TYPE@) == said(first, RDF_TYPE@)
                + in_turn(
                    |k: int| seq![to_iri(maintainer_iri((all[k]).email), pkg("Person"@))],
                    (all.len()),
                )
            &&& said(last, FOAF@ + "name"@) == said(first, FOAF@ + "name"@)
                + in_turn(
                    |k: int| seq![to_text(maintainer_iri((all[k]).email), (all[k]).name)],
                    (all.len()),
                )
            &&& said(last, RDFS_LABEL@) == said(first, RDFS_LABEL@)
                + in_turn(
                    |k: int| seq![to_text(maintainer_iri((all[k]).email), (all[k]).name)],
                    (all.len()),
                )
            &&& said(last, FOAF@ + "mbox"@) == said(first, FOAF@ + "mbox"@)
                + in_turn(
                    |k: int|
                        seq![to_iri(maintainer_iri((all[k]).email), "mailto:"@ + (all[k]).email)],
                    (all.len()),
                )
            &&& said(last, pkg("hasContributor"@)) == said(first, pkg("hasContributor"@))
                + in_turn(
                    |k: int|
                        (
                            match repo {
                                Some(url) => seq![
                                    to_iri(repo_iri(url), maintainer_iri((all[k]).email)),
                                ],
                                None => Seq::empty(),
                            }
                        ),
                    (all.len()),
                )
            &&& said(last, pkg("contributesTo"@)) == said(first, pkg("contributesTo"@))
                + in_turn(
                    |k: int|
                        (
                            match repo {
                                Some(url) => seq![
                                    to_iri(maintainer_iri((all[k]).email), repo_iri(url)),
                                ],
                                None => Seq::empty(),
                            }
                        ),
                    (all.len()),
                )
            &&& forall|q: Seq<char>|
                q != RDF_TYPE@
                    && q != FOAF@ + "name"@
                    && q != RDFS_LABEL@
                    && q != FOAF@ + "mbox"@
                    && q != pkg("hasContributor"@)
                    && q != pkg("contributesTo"@)
                    ==> #[trigger] said(last, q) == said(first, q)
        }),
{
    broadcast use {group_reading, group_foaf};

    reveal_strlit("name");
    reveal_strlit("mbox");
    reveal_strlit("hasContributor");
    reveal_strlit("contributesTo");
    let all = people_in(regex_captures_all(UPLOADER@, uploaders));
    lemma_each_uploader_told(w, field(vcs_urls, name), all, all.len());
}

/// What is said of a module: that the package is taken from it.
pub open spec fn module_told(
    first: Seq<Fact>,
    last: Seq<Fact>,
    path: Seq<char>,
    identity: Seq<char>,
) -> bool {
    let node = ecosystem_iri("gomod"@);
    &&& said(last, pkg("upstreamEcosystem"@)) == said(first, pkg("upstreamEcosystem"@))
        + seq![to_iri(identity, node)]
    &&& said(last, RDF_TYPE@) == said(first, RDF_TYPE@) + seq![to_iri(node, pkg("Ecosystem"@))]
    &&& said(last, RDFS_LABEL@) == said(first, RDFS_LABEL@) + seq![to_text(node, "gomod"@)]
    &&& said(last, pkg("upstreamPackageName"@)) == said(first, pkg("upstreamPackageName"@))
        + seq![to_text(identity, path)]
    &&& forall|q: Seq<char>|
        q != pkg("upstreamEcosystem"@)
            && q != RDF_TYPE@
            && q != RDFS_LABEL@
            && q != pkg("upstreamPackageName"@)
            ==> #[trigger] said(last, q) == said(first, q)
}

proof fn lemma_module_in_steps(w: Sheet, path: Seq<char>, identity: Seq<char>)
    ensures
        with_module(w, path, identity) == ({
            let node = ecosystem_iri("gomod"@);
            let w = link(w, identity, pkg("upstreamEcosystem"@), node);
            let w = link(w, node, RDF_TYPE@, pkg("Ecosystem"@));
            let w = literal(w, node, RDFS_LABEL@, "gomod"@);
            let w = literal(w, identity, pkg("upstreamPackageName"@), path);
            w
        }),
{
}

proof fn lemma_module_steps(w: Sheet, path: Seq<char>, identity: Seq<char>)
    ensures
        module_told(w.log, ({
            let node = ecosystem_iri("gomod"@);
            let w = link(w, identity, pkg("upstreamEcosystem"@), node);
            let w = link(w, node, RDF_TYPE@, pkg("Ecosystem"@));
            let w = literal(w, node, RDFS_LABEL@, "gomod"@);
            let w = literal(w, identity, pkg("upstreamPackageName"@), path);
            w
        }).log, path, identity),
{
    broadcast use group_writes;

    reveal_strlit("upstreamEcosystem");
    reveal_strlit("upstreamPackageName");
    let node = ecosystem_iri("gomod"@);
    let w1 = link(w, identity, pkg("upstreamEcosystem"@), node);
    let w2 = link(w1, node, RDF_TYPE@, pkg("Ecosystem"@));
    let w3 = literal(w2, node, RDFS_LABEL@, "gomod"@);
    let w4 = literal(w3, identity, pkg("upstreamPackageName"@), path);
}

/// What [`with_module`] writes says what [`module_told`] states.
pub proof fn lemma_module_told(
    w: Sheet,
    path: Seq<char>,
    identity: Seq<char>,
)
    ensures
        module_told(w.log, with_module(w, path, identity).log, path, identity),
{
    lemma_module_in_steps(w, path, identity);
    lemma_module_steps(w, path, identity);
}

proof fn lemma_each_module_told(w: Sheet, path: Seq<char>, items: Seq<Seq<char>>, n: nat)
    ensures
        ({
            let first = w.log;
            let last = with_each_module(w, path, items, n).log;
            &&& said(last, pkg("upstreamEcosystem"@)) == said(first, pkg("upstreamEcosystem"@))
                + in_turn(|k: int| seq![to_iri((items[k]), ecosystem_iri("gomod"@))], n)
            &&& said(last, RDF_TYPE@) == said(first, RDF_TYPE@)
                + in_turn(|k: int| seq![to_iri(ecosystem_iri("gomod"@), pkg("Ecosystem"@))], n)
            &&& said(last, RDFS_LABEL@) == said(first, RDFS_LABEL@)
                + in_turn(|k: int| seq![to_text(ecosystem_iri("gomod"@), "gomod"@)], n)
            &&& said(last, pkg("upstreamPackageName"@)) == said(first, pkg("upstreamPackageName"@))
                + in_turn(|k: int| seq![to_text((items[k]), path)], n)
            &&& forall|q: Seq<char>|
                q != pkg("upstreamEcosystem"@)
                    && q != RDF_TYPE@
                    && q != RDFS_LABEL@
                    && q != pkg("upstreamPackageName"@)
                    ==> #[trigger] said(last, q) == said(first, q)
        }),
    decreases n,
{
    broadcast use group_writes;

    reveal_strlit("upstreamEcosystem");
    reveal_strlit("upstreamPackageName");
    if n > 0 {
        lemma_each_module_told(w, path, items, (n - 1) as nat);
        lemma_module_told(with_each_module(w, path, items, (n - 1) as nat), path, items[n - 1]);
    }
}

#[verifier::opaque]
spec fn module_path_step_1(
    w: Sheet,
    source: Seq<char>,
    path: Seq<char>,
    identities: Seq<Seq<char>>,
) -> Sheet {
    if path.len() > 0 {
        let w = with_each_module(w, path, identities, identities.len());
        literal(w, source, pkg("upstreamPackageName"@), path)
    } else {
        w
    }
}

proof fn lemma_module_path_step_1(
    w: Sheet,
    source: Seq<char>,
    path: Seq<char>,
    identities: Seq<Seq<char>>,
)
    ensures
        ({
            let first = w.log;
            let last = module_path_step_1(w, source, path, identities).log;
            &&& said(last, pkg("upstreamEcosystem"@)) == said(first, pkg("upstreamEcosystem"@))
                + where_so(
                    path.len() > 0,
                    in_turn(
                        |k: int| seq![to_iri((identities[k]), ecosystem_iri("gomod"@))],
                        (identities.len()),
                    ),
                )
            &&& said(last, RDF_TYPE@) == said(first, RDF_TYPE@)
                + where_so(
                    path.len() > 0,
                    in_turn(
                        |k: int| seq![to_iri(ecosystem_iri("gomod"@), pkg("Ecosystem"@))],
                        (identities.len()),
                    ),
                )
            &&& said(last, RDFS_LABEL@) == said(first, RDFS_LABEL@)
                + where_so(
                    path.len() > 0,
                    in_turn(
                        |k: int| seq![to_text(ecosystem_iri("gomod"@), "gomod"@)],
                        (identities.len()),
                    ),
                )
            &&& said(last, pkg("upstreamPackageName"@)) == said(first, pkg("upstreamPackageName"@))
                + where_so(
                    path.len() > 0,
                    in_turn(|k: int| seq![to_text((identities[k]), path)], (identities.len())),
                )
                + where_so(path.len() > 0, seq![to_text(source, path)])
            &&& forall|q: Seq<char>|
                q != pkg("upstreamEcosystem"@)
                    && q != RDF_TYPE@
                    && q != RDFS_LABEL@
                    && q != pkg("upstreamPackageName"@)
                    ==> #[trigger] said(last, q) == said(first, q)
        }),
{
    broadcast use group_reading;

    reveal(module_path_step_1);
    reveal_strlit("upstreamEcosystem");
    reveal_strlit("upstreamPackageName");
    if path.len() > 0 {
        lemma_each_module_told(w, path, identities, identities.len());
    } else {
    }
}

/// What is said of a module path that is not empty: it is the name upstream of the source
/// and of every package that is built from it.
pub open spec fn module_path_told(
    first: Seq<Fact>,
    last: Seq<Fact>,
    source: Seq<char>,
    path: Seq<char>,
    identities: Seq<Seq<char>>,
) -> bool {
    &&& said(last, pkg("upstreamEcosystem"@)) == said(first, pkg("upstreamEcosystem"@))
        + where_so(
            path.len() > 0,
            in_turn(
                |k: int| seq![to_iri((identities[k]), ecosystem_iri("gomod"@))],
                (identities.len()),
            ),
        )
    &&& said(last, RDF_TYPE@) == said(first, RDF_TYPE@)
        + where_so(
            path.len() > 0,
            in_turn(
                |k: int| seq![to_iri(ecosystem_iri("gomod"@), pkg("Ecosystem"@))],
                (identities.len()),
            ),
        )
    &&& said(last, RDFS_LABEL@) == said(first, RDFS_LABEL@)
        + where_so(
            path.len() > 0,
            in_turn(|k: int| seq![to_text(ecosystem_iri("gomod"@), "gomod"@)], (identities.len())),
        )
    &&& said(last, pkg("upstreamPackageName"@)) == said(first, pkg("upstreamPackageName"@))
        + where_so(
            path.len() > 0,
            in_turn(|k: int| seq![to_text((identities[k]), path)], (identities.len())),
        )
        + where_so(path.len() > 0, seq![to_text(source, path)])
    &&& forall|q: Seq<char>|
        q != pkg("upstreamEcosystem"@)
            && q != RDF_TYPE@
            && q != RDFS_LABEL@
            && q != pkg("upstreamPackageName"@)
            ==> #[trigger] said(last, q) == said(first, q)
}

proof fn lemma_module_path_in_steps(
    w: Sheet,
    source: Seq<char>,
    path: Seq<char>,
    identities: Seq<Seq<char>>,
)
    ensures
        with_module_path(w, source, path, identities) == ({
            let w = module_path_step_1(w, source, path, identities);
            w
        }),
{
    reveal(module_path_step_1);
}

proof fn lemma_module_path_steps(
    w: Sheet,
    source: Seq<char>,
    path: Seq<char>,
    identities: Seq<Seq<char>>,
)
    ensures
        module_path_told(w.log, ({
            let w = module_path_step_1(w, source, path, identities);
            w
        }).log, source, path, identities),
{
    broadcast use group_writes;

    reveal_strlit("upstreamEcosystem");
    reveal_strlit("upstreamPackageName");
    let w1 = module_path_step_1(w, source, path, identities);
    lemma_module_path_step_1(w, source, path, identities);
}

/// What [`with_module_path`] writes says what [`module_path_told`] states.
pub proof fn lemma_module_path_told(
    w: Sheet,
    source: Seq<char>,
    path: Seq<char>,
    identities: Seq<Seq<char>>,
)
    ensures
        module_path_told(
            w.log,
            with_module_path(w, source, path, identities).log,
            source,
            path,
            identities,
        ),
{
    lemma_module_path_in_steps(w, source, path, identities);
    lemma_module_path_steps(w, source, path, identities);
}

/// The packages that the first `n` entries of a list of build dependencies name.
pub open spec fn names_needed(items: Seq<Seq<char>>, n: nat) -> Seq<Seq<char>>
    decreases n,
{
    if n == 0 {
        Seq::empty()
    } else {
        let names = names_needed(items, (n - 1) as nat);
        match first_group(BUILD_DEPENDENCY@, first_alternative(items[n - 1]), 1) {
            Some(name) => names.push(name),
            None => names,
        }
    }
}

/// Links from a source to the identities of packages.
pub open spec fn to_needed(
    c: SourcesCollector,
    source: Seq<char>,
    codename: Seq<char>,
    names: Seq<Seq<char>>,
) -> Seq<(Term, Term)> {
    to_each(
        source,
        names.map_values(|name: Seq<char>| identity_iri(c.distro@, codename, "source"@, name)),
    )
}

proof fn lemma_build_deps_said(
    w: Sheet,
    c: SourcesCollector,
    source: Seq<char>,
    codename: Seq<char>,
    local: Seq<char>,
    items: Seq<Seq<char>>,
    n: nat,
    x: Seq<char>,
)
    ensures
        said(
            with_each_build_dep(w, c, source, codename, DEB@ + local, items, n).log,
            DEB@ + x,
        ) == said(w.log, DEB@ + x) + where_so(
            x == local,
            to_needed(c, source, codename, names_needed(items, n)),
        ),
    decreases n,
{
    broadcast use {group_writes, group_deb};

    if n > 0 {
        let m: nat = (n - 1) as nat;
        lemma_build_deps_said(w, c, source, codename, local, items, m, x);
        let v = with_each_build_dep(w, c, source, codename, DEB@ + local, items, m);
        if let Some(name) = first_group(
            BUILD_DEPENDENCY@,
            first_alternative(items[n - 1]),
            1,
        ) {
            let target = identity_iri(c.distro@, codename, "source"@, name);
            let v1 = link(v, target, RDF_TYPE@, pkg("PackageIdentity"@));
            let v2 = literal(v1, target, pkg("packageName"@), name);
            let v3 = link(v2, source, DEB@ + local, target);
            assert(said(v3.log, DEB@ + x) == said(v.log, DEB@ + x) + where_so(
                x == local,
                seq![to_iri(source, target)],
            ));
            assert(to_needed(c, source, codename, names_needed(items, n)) =~= to_needed(
                c,
                source,
                codename,
                names_needed(items, m),
            ) + seq![to_iri(source, target)]);
        }
    } else {
        assert(to_needed(c, source, codename, names_needed(items, 0)) =~= Seq::empty());
    }
}

/// What the build dependencies of a source say: a list of those of every architecture is
/// told by one property, any other by the other, and the source is linked to each package
/// that an entry names, in order, and to no other.
pub proof fn lemma_build_deps_told(
    w: Sheet,
    c: SourcesCollector,
    source: Seq<char>,
    deps: Seq<char>,
    codename: Seq<char>,
    short: Seq<char>,
)
    ensures
        ({
            let first = w.log;
            let last = with_build_deps(w, c, source, deps, codename, short).log;
            let entries = pieces(deps, Sep::Is(','));
            let links = to_needed(c, source, codename, names_needed(entries, entries.len()));
            &&& said(last, DEB@ + "buildDependsIndep"@) == said(
                first,
                DEB@ + "buildDependsIndep"@,
            ) + where_so(short == "deb:buildDependsIndep"@, links)
            &&& said(last, DEB@ + "buildDepends"@) == said(first, DEB@ + "buildDepends"@)
                + where_so(short != "deb:buildDependsIndep"@, links)
        }),
{
    broadcast use {group_writes, group_deb};

    reveal_strlit("buildDepends");
    reveal_strlit("buildDependsIndep");
    let items = pieces(deps, Sep::Is(','));
    let n: nat = items.len();
    lemma_build_deps_said(w, c, source, codename, "buildDepends"@, items, n, "buildDepends"@);
    lemma_build_deps_said(w, c, source, codename, "buildDepends"@, items, n, "buildDependsIndep"@);
    lemma_build_deps_said(w, c, source, codename, "buildDependsIndep"@, items, n, "buildDepends"@);
    lemma_build_deps_said(
        w,
        c,
        source,
        codename,
        "buildDependsIndep"@,
        items,
        n,
        "buildDependsIndep"@,
    );
    assert("buildDepends"@.len() != "buildDependsIndep"@.len());
}

/// The links of a field of build dependencies.
pub open spec fn needed_in_field(
    c: SourcesCollector,
    source: Seq<char>,
    codename: Seq<char>,
    fields: Map<Seq<char>, Seq<char>>,
    key: Seq<char>,
) -> Seq<(Term, Term)> {
    match field(fields, key) {
        Some(deps) => {
            let entries = pieces(deps, Sep::Is(','));
            to_needed(c, source, codename, names_needed(entries, entries.len()))
        },
        None => Seq::empty(),
    }
}

/// What a record of a source says of build dependencies, where they are asked for: those of
/// `Build-Depends` and `Build-Depends-Arch` are told by one property, those of
/// `Build-Depends-Indep` by the other; where they are not asked for, nothing.
pub proof fn lemma_build_fields_told(
    w: Sheet,
    c: SourcesCollector,
    fields: Map<Seq<char>, Seq<char>>,
    name: Seq<char>,
    source: Seq<char>,
    identities: Seq<Seq<char>>,
    vcs_urls: Map<Seq<char>, Seq<char>>,
    codename: Seq<char>,
    emit_builddeps: bool,
    emit_uploaders: bool,
)
    ensures
        ({
            let first = w.log;
            let last = with_source_record(
                w,
                c,
                fields,
                name,
                source,
                identities,
                vcs_urls,
                codename,
                emit_builddeps,
                emit_uploaders,
            ).log;
            let of = |key: Seq<char>| needed_in_field(c, source, codename, fields, key);
            &&& said(last, DEB@ + "buildDepends"@) == said(first, DEB@ + "buildDepends"@)
                + where_so(emit_builddeps, of("Build-Depends"@)) + where_so(
                emit_builddeps,
                of("Build-Depends-Arch"@),
            )
            &&& said(last, DEB@ + "buildDependsIndep"@) == said(first, DEB@ + "buildDependsIndep"@)
                + where_so(emit_builddeps, of("Build-Depends-Indep"@))
        }),
{
    let w1 = match field(fields, "Go-Import-Path"@) {
        Some(path) => with_module_path(w, source, trim(path), identities),
        None => w,
    };
    let w2 = match field(fields, "Build-Depends"@) {
        Some(deps) => with_build_deps(w1, c, source, deps, codename, "deb:buildDepends"@),
        None => w1,
    };
    let w3 = match field(fields, "Build-Depends-Indep"@) {
        Some(deps) => with_build_deps(w2, c, source, deps, codename, "deb:buildDependsIndep"@),
        None => w2,
    };
    let w4 = match field(fields, "Build-Depends-Arch"@) {
        Some(deps) => with_build_deps(w3, c, source, deps, codename, "deb:buildDepends"@),
        None => w3,
    };
    lemma_short_names_differ();
    lemma_path_is_no_dependency(w, source, fields, identities, "buildDepends"@);
    lemma_path_is_no_dependency(w, source, fields, identities, "buildDependsIndep"@);
    if let Some(deps) = field(fields, "Build-Depends"@) {
        lemma_build_deps_told(w1, c, source, deps, codename, "deb:buildDepends"@);
    }
    if let Some(deps) = field(fields, "Build-Depends-Indep"@) {
        lemma_build_deps_told(w2, c, source, deps, codename, "deb:buildDependsIndep"@);
    }
    if let Some(deps) = field(fields, "Build-Depends-Arch"@) {
        lemma_build_deps_told(w3, c, source, deps, codename, "deb:buildDepends"@);
    }
    let w5 = if emit_builddeps {
        w4
    } else {
        w1
    };
    lemma_uploaders_are_no_dependencies(w5, name, fields, vcs_urls, "buildDepends"@);
    lemma_uploaders_are_no_dependencies(w5, name, fields, vcs_urls, "buildDependsIndep"@);
}

proof fn lemma_short_names_differ()
    ensures
        "deb:buildDepends"@ != "deb:buildDependsIndep"@,
{
    reveal_strlit("deb:buildDepends");
    reveal_strlit("deb:buildDependsIndep");
    assert("deb:buildDepends"@.len() != "deb:buildDependsIndep"@.len());
}

proof fn lemma_path_is_no_dependency(
    w: Sheet,
    source: Seq<char>,
    fields: Map<Seq<char>, Seq<char>>,
    identities: Seq<Seq<char>>,
    x: Seq<char>,
)
    ensures
        said(
            match field(fields, "Go-Import-Path"@) {
                Some(path) => with_module_path(w, source, trim(path), identities),
                None => w,
            }.log,
            DEB@ + x,
        ) == said(w.log, DEB@ + x),
{
    broadcast use {group_writes, group_deb};

    if let Some(path) = field(fields, "Go-Import-Path"@) {
        lemma_module_path_told(w, source, trim(path), identities);
    }
}

proof fn lemma_uploaders_are_no_dependencies(
    w: Sheet,
    name: Seq<char>,
    fields: Map<Seq<char>, Seq<char>>,
    vcs_urls: Map<Seq<char>, Seq<char>>,
    x: Seq<char>,
)
    ensures
        said(
            match field(fields, "Uploaders"@) {
                Some(people) => with_uploaders_triples(w, name, people, vcs_urls),
                None => w,
            }.log,
            DEB@ + x,
        ) == said(w.log, DEB@ + x),
{
    broadcast use {group_writes, group_deb, group_foaf};

    if let Some(people) = field(fields, "Uploaders"@) {
        lemma_uploaders_told(w, name, people, vcs_urls);
    }
}

} // verus!
