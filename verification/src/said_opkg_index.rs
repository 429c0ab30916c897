//! What is said of opkg packages.

use crate::collect_opkg_index::{
    is_need, need_entries, needed_name, package_arch, with_binary_details, with_built_from,
    with_each_need, with_named_binary, with_need, OpkgIndexCollector,
};
use crate::ir::Depends;
use crate::ntriples::{link, literal, number_if, pkg, typed, xsd, Fact, Sheet};
use crate::number::{i64_value, integer};
use crate::reading::{
    group_openwrt, group_reading, group_writes, in_turn, maybe_literal, number_if_any, said,
    text_if, to_iri, to_text, Term,
};
use crate::textmap::field;
use crate::uris::{arch_iri, identity_iri, package_iri, OPENWRT, RDF_TYPE};
use vstd::prelude::*;

verus! {

proof fn lemma_need_told(
    w: Sheet,
    c: OpkgIndexCollector,
    package: Seq<char>,
    arch: Seq<char>,
    raw: Seq<char>,
)
    ensures
        ({
            let first = w.log;
            let last = with_need(w, c, package, arch, raw).log;
            &&& said(last, pkg("directlyDependsOn"@)) == said(first, pkg("directlyDependsOn"@))
                + (
                    match if is_need(raw) { Some(needed_name(raw)) } else { None } {
                        Some(name) => seq![
                            to_iri(
                                package,
                                identity_iri(c.distro_name@, c.release_name@, arch, name),
                            ),
                        ],
                        None => Seq::empty(),
                    }
                )
            &&& forall|q: Seq<char>|
                q != pkg("directlyDependsOn"@) ==> #[trigger] said(last, q) == said(first, q)
        }),
{
    broadcast use group_reading;

    reveal_strlit("directlyDependsOn");
    match if is_need(raw) { Some(needed_name(raw)) } else { None } {
        Some(name) => {
        },
        None => {
        },
    }
}

proof fn lemma_each_need_told(
    w: Sheet,
    c: OpkgIndexCollector,
    package: Seq<char>,
    arch: Seq<char>,
    items: Seq<Seq<char>>,
    n: nat,
)
    ensures
        ({
            let first = w.log;
            let last = with_each_need(w, c, package, arch, items, n).log;
            &&& said(last, pkg("directlyDependsOn"@)) == said(first, pkg("directlyDependsOn"@))
                + in_turn(
                    |k: int|
                        (
                            match if is_need((items[k])) { Some(needed_name((items[k]))) } else { None } {
                                Some(name) => seq![
                                    to_iri(
                                        package,
                                        identity_iri(c.distro_name@, c.release_name@, arch, name),
                                    ),
                                ],
                                None => Seq::empty(),
                            }
                        ),
                    n,
                )
            &&& forall|q: Seq<char>|
                q != pkg("directlyDependsOn"@) ==> #[trigger] said(last, q) == said(first, q)
        }),
    decreases n,
{
    broadcast use group_writes;

    reveal_strlit("directlyDependsOn");
    if n > 0 {
        lemma_each_need_told(w, c, package, arch, items, (n - 1) as nat);
        lemma_need_told(
            with_each_need(w, c, package, arch, items, (n - 1) as nat),
            c,
            package,
            arch,
            items[n - 1],
        );
    }
}

#[verifier::opaque]
spec fn binary_details_step_1(
    w: Sheet,
    package: Seq<char>,
    fields: Map<Seq<char>, Seq<char>>,
) -> Sheet {
    match field(fields, "Architecture"@) {
        Some(arch) => {
            let node = arch_iri(arch);
            let w = link(w, package, pkg("targetArchitecture"@), node);
            let w = link(w, node, RDF_TYPE@, pkg("Architecture"@));
            literal(w, node, pkg("architectureName"@), arch)
        },
        None => w,
    }
}

proof fn lemma_binary_details_step_1(
    w: Sheet,
    package: Seq<char>,
    fields: Map<Seq<char>, Seq<char>>,
)
    ensures
        ({
            let first = w.log;
            let last = binary_details_step_1(w, package, fields).log;
            &&& said(last, pkg("targetArchitecture"@)) == said(first, pkg("targetArchitecture"@))
                + (
                    match field(fields, "Architecture"@) {
                        Some(arch) => seq![to_iri(package, arch_iri(arch))],
                        None => Seq::empty(),
                    }
                )
            &&& said(last, RDF_TYPE@) == said(first, RDF_TYPE@)
                + (
                    match field(fields, "Architecture"@) {
                        Some(arch) => seq![to_iri(arch_iri(arch), pkg("Architecture"@))],
                        None => Seq::empty(),
                    }
                )
            &&& said(last, pkg("architectureName"@)) == said(first, pkg("architectureName"@))
                + (
                    match field(fields, "Architecture"@) {
                        Some(arch) => seq![to_text(arch_iri(arch), arch)],
                        None => Seq::empty(),
                    }
                )
            &&& forall|q: Seq<char>|
                q != pkg("targetArchitecture"@) && q != RDF_TYPE@ && q != pkg("architectureName"@)
                    ==> #[trigger] said(last, q) == said(first, q)
        }),
{
    broadcast use group_reading;

    reveal(binary_details_step_1);
    reveal_strlit("targetArchitecture");
    reveal_strlit("architectureName");
}

#[verifier::opaque]
spec fn binary_details_step_2(
    w: Sheet,
    package: Seq<char>,
    fields: Map<Seq<char>, Seq<char>>,
) -> Sheet {
    match field(fields, "SHA256sum"@) {
        Some(sum) => {
            let node = package + "#sha256"@;
            let w = link(w, package, pkg("hasChecksum"@), node);
            let w = link(w, node, RDF_TYPE@, pkg("Checksum"@));
            let w = literal(w, node, pkg("checksumAlgorithm"@), "SHA256"@);
            literal(w, node, pkg("checksumValue"@), sum)
        },
        None => w,
    }
}

proof fn lemma_binary_details_step_2(
    w: Sheet,
    package: Seq<char>,
    fields: Map<Seq<char>, Seq<char>>,
)
    ensures
        ({
            let first = w.log;
            let last = binary_details_step_2(w, package, fields).log;
            &&& said(last, pkg("hasChecksum"@)) == said(first, pkg("hasChecksum"@))
                + (
                    match field(fields, "SHA256sum"@) {
                        Some(sum) => seq![to_iri(package, (package + "#sha256"@))],
                        None => Seq::empty(),
                    }
                )
            &&& said(last, RDF_TYPE@) == said(first, RDF_TYPE@)
                + (
                    match field(fields, "SHA256sum"@) {
                        Some(sum) => seq![to_iri((package + "#sha256"@), pkg("Checksum"@))],
                        None => Seq::empty(),
                    }
                )
            &&& said(last, pkg("checksumAlgorithm"@)) == said(first, pkg("checksumAlgorithm"@))
                + (
                    match field(fields, "SHA256sum"@) {
                        Some(sum) => seq![to_text((package + "#sha256"@), "SHA256"@)],
                        None => Seq::empty(),
                    }
                )
            &&& said(last, pkg("checksumValue"@)) == said(first, pkg("checksumValue"@))
                + (
                    match field(fields, "SHA256sum"@) {
                        Some(sum) => seq![to_text((package + "#sha256"@), sum)],
                        None => Seq::empty(),
                    }
                )
            &&& forall|q: Seq<char>|
                q != pkg("hasChecksum"@)
                    && q != RDF_TYPE@
                    && q != pkg("checksumAlgorithm"@)
                    && q != pkg("checksumValue"@)
                    ==> #[trigger] said(last, q) == said(first, q)
        }),
{
    broadcast use group_reading;

    reveal(binary_details_step_2);
    reveal_strlit("hasChecksum");
    reveal_strlit("checksumAlgorithm");
    reveal_strlit("checksumValue");
}

#[verifier::opaque]
spec fn binary_details_step_3(
    w: Sheet,
    package: Seq<char>,
    fields: Map<Seq<char>, Seq<char>>,
) -> Sheet {
    match field(fields, "Installed-Size"@) {
        Some(size) => { number_if(w, package, OPENWRT@ + "installedSize"@, i64_value(size)) },
        None => w,
    }
}

proof fn lemma_binary_details_step_3(
    w: Sheet,
    package: Seq<char>,
    fields: Map<Seq<char>, Seq<char>>,
)
    ensures
        ({
            let first = w.log;
            let last = binary_details_step_3(w, package, fields).log;
            &&& said(last, OPENWRT@ + "installedSize"@) == said(first, OPENWRT@ + "installedSize"@)
                + (
                    match field(fields, "Installed-Size"@) {
                        Some(size) => number_if_any(package, i64_value(size)),
                        None => Seq::empty(),
                    }
                )
            &&& forall|q: Seq<char>|
                q != OPENWRT@ + "installedSize"@ ==> #[trigger] said(last, q) == said(first, q)
        }),
{
    broadcast use {group_reading, group_openwrt};

    reveal(binary_details_step_3);
    reveal_strlit("installedSize");
}

#[verifier::opaque]
spec fn binary_details_step_4(
    w: Sheet,
    package: Seq<char>,
    fields: Map<Seq<char>, Seq<char>>,
) -> Sheet {
    match field(fields, "Size"@) {
        Some(size) => {
            let w = match i64_value(size) {
                Some(n) => {
                    let text = integer(n as int);
                    typed(w, package, pkg("packageSize"@), text, xsd("long"@))
                },
                None => w,
            };
            w
        },
        None => w,
    }
}

proof fn lemma_binary_details_step_4(
    w: Sheet,
    package: Seq<char>,
    fields: Map<Seq<char>, Seq<char>>,
)
    ensures
        ({
            let first = w.log;
            let last = binary_details_step_4(w, package, fields).log;
            &&& said(last, pkg("packageSize"@)) == said(first, pkg("packageSize"@))
                + (
                    match field(fields, "Size"@) {
                        Some(size) => (
                            match i64_value(size) {
                                Some(n) => seq![
                                    (
                                        Term::Iri(package),
                                        Term::Typed(integer(n as int), xsd("long"@)),
                                    ),
                                ],
                                None => Seq::empty(),
                            }
                        ),
                        None => Seq::empty(),
                    }
                )
            &&& forall|q: Seq<char>|
                q != pkg("packageSize"@) ==> #[trigger] said(last, q) == said(first, q)
        }),
{
    broadcast use group_reading;

    reveal(binary_details_step_4);
    reveal_strlit("packageSize");
}

/// What is said of the architecture, the checksum, the sizes and the file of a package.
pub open spec fn binary_details_told(
    first: Seq<Fact>,
    last: Seq<Fact>,
    package: Seq<char>,
    fields: Map<Seq<char>, Seq<char>>,
) -> bool {
    &&& said(last, pkg("targetArchitecture"@)) == said(first, pkg("targetArchitecture"@))
        + (
            match field(fields, "Architecture"@) {
                Some(arch) => seq![to_iri(package, arch_iri(arch))],
                None => Seq::empty(),
            }
        )
    &&& said(last, RDF_TYPE@) == said(first, RDF_TYPE@)
        + (
            match field(fields, "Architecture"@) {
                Some(arch) => seq![to_iri(arch_iri(arch), pkg("Architecture"@))],
                None => Seq::empty(),
            }
        )
        + (
            match field(fields, "SHA256sum"@) {
                Some(sum) => seq![to_iri((package + "#sha256"@), pkg("Checksum"@))],
                None => Seq::empty(),
            }
        )
    &&& said(last, pkg("architectureName"@)) == said(first, pkg("architectureName"@))
        + (
            match field(fields, "Architecture"@) {
                Some(arch) => seq![to_text(arch_iri(arch), arch)],
                None => Seq::empty(),
            }
        )
    &&& said(last, pkg("hasChecksum"@)) == said(first, pkg("hasChecksum"@))
        + (
            match field(fields, "SHA256sum"@) {
                Some(sum) => seq![to_iri(package, (package + "#sha256"@))],
                None => Seq::empty(),
            }
        )
    &&& said(last, pkg("checksumAlgorithm"@)) == said(first, pkg("checksumAlgorithm"@))
        + (
            match field(fields, "SHA256sum"@) {
                Some(sum) => seq![to_text((package + "#sha256"@), "SHA256"@)],
                None => Seq::empty(),
            }
        )
    &&& said(last, pkg("checksumValue"@)) == said(first, pkg("checksumValue"@))
        + (
            match field(fields, "SHA256sum"@) {
                Some(sum) => seq![to_text((package + "#sha256"@), sum)],
                None => Seq::empty(),
            }
        )
    &&& said(last, OPENWRT@ + "installedSize"@) == said(first, OPENWRT@ + "installedSize"@)
        + (
            match field(fields, "Installed-Size"@) {
                Some(size) => number_if_any(package, i64_value(size)),
                None => Seq::empty(),
            }
        )
    &&& said(last, pkg("packageSize"@)) == said(first, pkg("packageSize"@))
        + (
            match field(fields, "Size"@) {
                Some(size) => (
                    match i64_value(size) {
                        Some(n) => seq![
                            (Term::Iri(package), Term::Typed(integer(n as int), xsd("long"@))),
                        ],
                        None => Seq::empty(),
                    }
                ),
                None => Seq::empty(),
            }
        )
    &&& said(last, OPENWRT@ + "opkgFilename"@) == said(first, OPENWRT@ + "opkgFilename"@)
        + text_if(package, field(fields, "Filename"@))
    &&& forall|q: Seq<char>|
        q != pkg("targetArchitecture"@)
            && q != RDF_TYPE@
            && q != pkg("architectureName"@)
            && q != pkg("hasChecksum"@)
            && q != pkg("checksumAlgorithm"@)
            && q != pkg("checksumValue"@)
            && q != OPENWRT@ + "installedSize"@
            && q != pkg("packageSize"@)
            && q != OPENWRT@ + "opkgFilename"@
            ==> #[trigger] said(last, q) == said(first, q)
}

proof fn lemma_binary_details_in_steps(
    w: Sheet,
    package: Seq<char>,
    fields: Map<Seq<char>, Seq<char>>,
)
    ensures
        with_binary_details(w, package, fields) == ({
            let w = binary_details_step_1(w, package, fields);
            let w = binary_details_step_2(w, package, fields);
            let w = binary_details_step_3(w, package, fields);
            let w = binary_details_step_4(w, package, fields);
            let w = maybe_literal(
                w,
                package,
                OPENWRT@ + "opkgFilename"@,
                field(fields, "Filename"@),
            );
            w
        }),
{
    reveal(maybe_literal);
    reveal(binary_details_step_1);
    reveal(binary_details_step_2);
    reveal(binary_details_step_3);
    reveal(binary_details_step_4);
}

proof fn lemma_binary_details_steps(w: Sheet, package: Seq<char>, fields: Map<Seq<char>, Seq<char>>)
    ensures
        binary_details_told(w.log, ({
            let w = binary_details_step_1(w, package, fields);
            let w = binary_details_step_2(w, package, fields);
            let w = binary_details_step_3(w, package, fields);
            let w = binary_details_step_4(w, package, fields);
            let w = maybe_literal(
                w,
                package,
                OPENWRT@ + "opkgFilename"@,
                field(fields, "Filename"@),
            );
            w
        }).log, package, fields),
{
    broadcast use {group_writes, group_openwrt};

    reveal_strlit("targetArchitecture");
    reveal_strlit("architectureName");
    reveal_strlit("hasChecksum");
    reveal_strlit("checksumAlgorithm");
    reveal_strlit("checksumValue");
    reveal_strlit("installedSize");
    reveal_strlit("packageSize");
    reveal_strlit("opkgFilename");
    let w1 = binary_details_step_1(w, package, fields);
    lemma_binary_details_step_1(w, package, fields);
    let w2 = binary_details_step_2(w1, package, fields);
    lemma_binary_details_step_2(w1, package, fields);
    let w3 = binary_details_step_3(w2, package, fields);
    lemma_binary_details_step_3(w2, package, fields);
    let w4 = binary_details_step_4(w3, package, fields);
    lemma_binary_details_step_4(w3, package, fields);
    let w5 = maybe_literal(w4, package, OPENWRT@ + "opkgFilename"@, field(fields, "Filename"@));
}

/// What [`with_binary_details`] writes says what [`binary_details_told`] states.
pub proof fn lemma_binary_details_told(
    w: Sheet,
    package: Seq<char>,
    fields: Map<Seq<char>, Seq<char>>,
)
    ensures
        binary_details_told(w.log, with_binary_details(w, package, fields).log, package, fields),
{
    lemma_binary_details_in_steps(w, package, fields);
    lemma_binary_details_steps(w, package, fields);
}

#[verifier::opaque]
spec fn built_from_step_1(
    w: Sheet,
    package: Seq<char>,
    sources: Map<Seq<char>, Seq<char>>,
    name: Seq<char>,
) -> Sheet {
    match field(sources, name) {
        Some(source) => link(w, package, pkg("builtFromSource"@), source),
        None => w,
    }
}

proof fn lemma_built_from_step_1(
    w: Sheet,
    package: Seq<char>,
    sources: Map<Seq<char>, Seq<char>>,
    name: Seq<char>,
)
    ensures
        ({
            let first = w.log;
            let last = built_from_step_1(w, package, sources, name).log;
            &&& said(last, pkg("builtFromSource"@)) == said(first, pkg("builtFromSource"@))
                + (
                    match field(sources, name) {
                        Some(source) => seq![to_iri(package, source)],
                        None => Seq::empty(),
                    }
                )
            &&& forall|q: Seq<char>|
                q != pkg("builtFromSource"@) ==> #[trigger] said(last, q) == said(first, q)
        }),
{
    broadcast use group_reading;

    reveal(built_from_step_1);
    reveal_strlit("builtFromSource");
}

/// What is said of the source that a package is built from, where one is known.
pub open spec fn built_from_told(
    first: Seq<Fact>,
    last: Seq<Fact>,
    package: Seq<char>,
    sources: Map<Seq<char>, Seq<char>>,
    name: Seq<char>,
) -> bool {
    &&& said(last, pkg("builtFromSource"@)) == said(first, pkg("builtFromSource"@))
        + (
            match field(sources, name) {
                Some(source) => seq![to_iri(package, source)],
                None => Seq::empty(),
            }
        )
    &&& forall|q: Seq<char>|
        q != pkg("builtFromSource"@) ==> #[trigger] said(last, q) == said(first, q)
}

proof fn lemma_built_from_in_steps(
    w: Sheet,
    package: Seq<char>,
    sources: Map<Seq<char>, Seq<char>>,
    name: Seq<char>,
)
    ensures
        with_built_from(w, package, sources, name) == ({
            let w = built_from_step_1(w, package, sources, name);
            w
        }),
{
    reveal(built_from_step_1);
}

proof fn lemma_built_from_steps(
    w: Sheet,
    package: Seq<char>,
    sources: Map<Seq<char>, Seq<char>>,
    name: Seq<char>,
)
    ensures
        built_from_told(w.log, ({
            let w = built_from_step_1(w, package, sources, name);
            w
        }).log, package, sources, name),
{
    broadcast use group_writes;

    reveal_strlit("builtFromSource");
    let w1 = built_from_step_1(w, package, sources, name);
    lemma_built_from_step_1(w, package, sources, name);
}

/// What [`with_built_from`] writes says what [`built_from_told`] states.
pub proof fn lemma_built_from_told(
    w: Sheet,
    package: Seq<char>,
    sources: Map<Seq<char>, Seq<char>>,
    name: Seq<char>,
)
    ensures
        built_from_told(
            w.log,
            with_built_from(w, package, sources, name).log,
            package,
            sources,
            name,
        ),
{
    lemma_built_from_in_steps(w, package, sources, name);
    lemma_built_from_steps(w, package, sources, name);
}

#[verifier::opaque]
spec fn binary_step_1(
    w: Sheet,
    sources: Map<Seq<char>, Seq<char>>,
    name: Seq<char>,
    package: Seq<char>,
) -> Sheet {
    with_built_from(w, package, sources, name)
}

proof fn lemma_binary_step_1(
    w: Sheet,
    sources: Map<Seq<char>, Seq<char>>,
    name: Seq<char>,
    package: Seq<char>,
)
    ensures
        ({
            let first = w.log;
            let last = binary_step_1(w, sources, name, package).log;
            &&& said(last, pkg("builtFromSource"@)) == said(first, pkg("builtFromSource"@))
                + (
                    match field(sources, name) {
                        Some(source) => seq![to_iri(package, source)],
                        None => Seq::empty(),
                    }
                )
            &&& forall|q: Seq<char>|
                q != pkg("builtFromSource"@) ==> #[trigger] said(last, q) == said(first, q)
        }),
{
    broadcast use group_reading;

    reveal(binary_step_1);
    reveal_strlit("builtFromSource");
    lemma_built_from_told(w, package, sources, name);
}

#[verifier::opaque]
spec fn binary_step_2(w: Sheet, fields: Map<Seq<char>, Seq<char>>, package: Seq<char>) -> Sheet {
    with_binary_details(w, package, fields)
}

proof fn lemma_binary_step_2(w: Sheet, fields: Map<Seq<char>, Seq<char>>, package: Seq<char>)
    ensures
        ({
            let first = w.log;
            let last = binary_step_2(w, fields, package).log;
            &&& said(last, pkg("targetArchitecture"@)) == said(first, pkg("targetArchitecture"@))
                + (
                    match field(fields, "Architecture"@) {
                        Some(arch) => seq![to_iri(package, arch_iri(arch))],
                        None => Seq::empty(),
                    }
                )
            &&& said(last, RDF_TYPE@) == said(first, RDF_TYPE@)
                + (
                    match field(fields, "Architecture"@) {
                        Some(arch) => seq![to_iri(arch_iri(arch), pkg("Architecture"@))],
                        None => Seq::empty(),
                    }
                )
                + (
                    match field(fields, "SHA256sum"@) {
                        Some(sum) => seq![to_iri((package + "#sha256"@), pkg("Checksum"@))],
                        None => Seq::empty(),
                    }
                )
            &&& said(last, pkg("architectureName"@)) == said(first, pkg("architectureName"@))
                + (
                    match field(fields, "Architecture"@) {
                        Some(arch) => seq![to_text(arch_iri(arch), arch)],
                        None => Seq::empty(),
                    }
                )
            &&& said(last, pkg("hasChecksum"@)) == said(first, pkg("hasChecksum"@))
                + (
                    match field(fields, "SHA256sum"@) {
                        Some(sum) => seq![to_iri(package, (package + "#sha256"@))],
                        None => Seq::empty(),
                    }
                )
            &&& said(last, pkg("checksumAlgorithm"@)) == said(first, pkg("checksumAlgorithm"@))
                + (
                    match field(fields, "SHA256sum"@) {
                        Some(sum) => seq![to_text((package + "#sha256"@), "SHA256"@)],
                        None => Seq::empty(),
                    }
                )
            &&& said(last, pkg("checksumValue"@)) == said(first, pkg("checksumValue"@))
                + (
                    match field(fields, "SHA256sum"@) {
                        Some(sum) => seq![to_text((package + "#sha256"@), sum)],
                        None => Seq::empty(),
                    }
                )
            &&& said(last, OPENWRT@ + "installedSize"@) == said(first, OPENWRT@ + "installedSize"@)
                + (
                    match field(fields, "Installed-Size"@) {
                        Some(size) => number_if_any(package, i64_value(size)),
                        None => Seq::empty(),
                    }
                )
            &&& said(last, pkg("packageSize"@)) == said(first, pkg("packageSize"@))
                + (
                    match field(fields, "Size"@) {
                        Some(size) => (
                            match i64_value(size) {
                                Some(n) => seq![
                                    (
                                        Term::Iri(package),
                                        Term::Typed(integer(n as int), xsd("long"@)),
                                    ),
                                ],
                                None => Seq::empty(),
                            }
                        ),
                        None => Seq::empty(),
                    }
                )
            &&& said(last, OPENWRT@ + "opkgFilename"@) == said(first, OPENWRT@ + "opkgFilename"@)
                + text_if(package, field(fields, "Filename"@))
            &&& forall|q: Seq<char>|
                q != pkg("targetArchitecture"@)
                    && q != RDF_TYPE@
                    && q != pkg("architectureName"@)
                    && q != pkg("hasChecksum"@)
                    && q != pkg("checksumAlgorithm"@)
                    && q != pkg("checksumValue"@)
                    && q != OPENWRT@ + "installedSize"@
                    && q != pkg("packageSize"@)
                    && q != OPENWRT@ + "opkgFilename"@
                    ==> #[trigger] said(last, q) == said(first, q)
        }),
{
    broadcast use {group_reading, group_openwrt};

    reveal(binary_step_2);
    reveal_strlit("targetArchitecture");
    reveal_strlit("architectureName");
    reveal_strlit("hasChecksum");
    reveal_strlit("checksumAlgorithm");
    reveal_strlit("checksumValue");
    reveal_strlit("installedSize");
    reveal_strlit("packageSize");
    reveal_strlit("opkgFilename");
    lemma_binary_details_told(w, package, fields);
}

#[verifier::opaque]
spec fn binary_step_3(
    w: Sheet,
    c: OpkgIndexCollector,
    fields: Map<Seq<char>, Seq<char>>,
    arch: Seq<char>,
    package: Seq<char>,
) -> Sheet {
    match field(fields, "Depends"@) {
        Some(depends) => {
            let entries = need_entries(depends);
            with_each_need(w, c, package, arch, entries, entries.len())
        },
        None => w,
    }
}

proof fn lemma_binary_step_3(
    w: Sheet,
    c: OpkgIndexCollector,
    fields: Map<Seq<char>, Seq<char>>,
    arch: Seq<char>,
    package: Seq<char>,
)
    ensures
        ({
            let first = w.log;
            let last = binary_step_3(w, c, fields, arch, package).log;
            &&& said(last, pkg("directlyDependsOn"@)) == said(first, pkg("directlyDependsOn"@))
                + (
                    match field(fields, "Depends"@) {
                        Some(depends) => in_turn(
                            |k: int|
                                (
                                    match if is_need((need_entries(depends)[k])) { Some(needed_name((need_entries(depends)[k]))) } else { None } {
                                        Some(name) => seq![
                                            to_iri(
                                                package,
                                                identity_iri(
                                                    c.distro_name@,
                                                    c.release_name@,
                                                    arch,
                                                    name,
                                                ),
                                            ),
                                        ],
                                        None => Seq::empty(),
                                    }
                                ),
                            (need_entries(depends).len()),
                        ),
                        None => Seq::empty(),
                    }
                )
            &&& forall|q: Seq<char>|
                q != pkg("directlyDependsOn"@) ==> #[trigger] said(last, q) == said(first, q)
        }),
{
    broadcast use group_reading;

    reveal(binary_step_3);
    reveal_strlit("directlyDependsOn");
    match field(fields, "Depends"@) {
        Some(depends) => {
            let entries = need_entries(depends);
            lemma_each_need_told(w, c, package, arch, entries, entries.len());
        },
        None => {
        },
    }
}

/// Everything that is said of a package: what it is, its name and the identity that it is a
/// version of, the source that it is built from, its details, and that it depends on every
/// package that it needs, and on no other.
pub open spec fn binary_told(
    first: Seq<Fact>,
    last: Seq<Fact>,
    c: OpkgIndexCollector,
    fields: Map<Seq<char>, Seq<char>>,
    sources: Map<Seq<char>, Seq<char>>,
    name: Seq<char>,
    version: Seq<char>,
) -> bool {
    let arch = package_arch(c, fields);
    let package = package_iri(c.distro_name@, c.release_name@, arch, name, version);
    let identity = identity_iri(c.distro_name@, c.release_name@, arch, name);
    &&& said(last, RDF_TYPE@) == said(first, RDF_TYPE@)
        + seq![to_iri(package, OPENWRT@ + "BinaryIPK"@)]
        + seq![to_iri(identity, pkg("PackageIdentity"@))]
        + (
            match field(fields, "Architecture"@) {
                Some(arch) => seq![to_iri(arch_iri(arch), pkg("Architecture"@))],
                None => Seq::empty(),
            }
        )
        + (
            match field(fields, "SHA256sum"@) {
                Some(sum) => seq![to_iri((package + "#sha256"@), pkg("Checksum"@))],
                None => Seq::empty(),
            }
        )
    &&& said(last, pkg("packageName"@)) == said(first, pkg("packageName"@))
        + seq![to_text(package, name)]
        + seq![to_text(identity, name)]
    &&& said(last, pkg("isVersionOf"@)) == said(first, pkg("isVersionOf"@))
        + seq![to_iri(package, identity)]
    &&& said(last, pkg("builtFromSource"@)) == said(first, pkg("builtFromSource"@))
        + (
            match field(sources, name) {
                Some(source) => seq![to_iri(package, source)],
                None => Seq::empty(),
            }
        )
    &&& said(last, pkg("targetArchitecture"@)) == said(first, pkg("targetArchitecture"@))
        + (
            match field(fields, "Architecture"@) {
                Some(arch) => seq![to_iri(package, arch_iri(arch))],
                None => Seq::empty(),
            }
        )
    &&& said(last, pkg("architectureName"@)) == said(first, pkg("architectureName"@))
        + (
            match field(fields, "Architecture"@) {
                Some(arch) => seq![to_text(arch_iri(arch), arch)],
                None => Seq::empty(),
            }
        )
    &&& said(last, pkg("hasChecksum"@)) == said(first, pkg("hasChecksum"@))
        + (
            match field(fields, "SHA256sum"@) {
                Some(sum) => seq![to_iri(package, (package + "#sha256"@))],
                None => Seq::empty(),
            }
        )
    &&& said(last, pkg("checksumAlgorithm"@)) == said(first, pkg("checksumAlgorithm"@))
        + (
            match field(fields, "SHA256sum"@) {
                Some(sum) => seq![to_text((package + "#sha256"@), "SHA256"@)],
                None => Seq::empty(),
            }
        )
    &&& said(last, pkg("checksumValue"@)) == said(first, pkg("checksumValue"@))
        + (
            match field(fields, "SHA256sum"@) {
                Some(sum) => seq![to_text((package + "#sha256"@), sum)],
                None => Seq::empty(),
            }
        )
    &&& said(last, OPENWRT@ + "installedSize"@) == said(first, OPENWRT@ + "installedSize"@)
        + (
            match field(fields, "Installed-Size"@) {
                Some(size) => number_if_any(package, i64_value(size)),
                None => Seq::empty(),
            }
        )
    &&& said(last, pkg("packageSize"@)) == said(first, pkg("packageSize"@))
        + (
            match field(fields, "Size"@) {
                Some(size) => (
                    match i64_value(size) {
                        Some(n) => seq![
                            (Term::Iri(package), Term::Typed(integer(n as int), xsd("long"@))),
                        ],
                        None => Seq::empty(),
                    }
                ),
                None => Seq::empty(),
            }
        )
    &&& said(last, OPENWRT@ + "opkgFilename"@) == said(first, OPENWRT@ + "opkgFilename"@)
        + text_if(package, field(fields, "Filename"@))
    &&& said(last, pkg("directlyDependsOn"@)) == said(first, pkg("directlyDependsOn"@))
        + (
            match field(fields, "Depends"@) {
                Some(depends) => in_turn(
                    |k: int|
                        (
                            match if is_need((need_entries(depends)[k])) { Some(needed_name((need_entries(depends)[k]))) } else { None } {
                                Some(name) => seq![
                                    to_iri(
                                        package,
                                        identity_iri(c.distro_name@, c.release_name@, arch, name),
                                    ),
                                ],
                                None => Seq::empty(),
                            }
                        ),
                    (need_entries(depends).len()),
                ),
                None => Seq::empty(),
            }
        )
    &&& forall|q: Seq<char>|
        q != RDF_TYPE@
            && q != pkg("packageName"@)
            && q != pkg("isVersionOf"@)
            && q != pkg("builtFromSource"@)
            && q != pkg("targetArchitecture"@)
            && q != pkg("architectureName"@)
            && q != pkg("hasChecksum"@)
            && q != pkg("checksumAlgorithm"@)
            && q != pkg("checksumValue"@)
            && q != OPENWRT@ + "installedSize"@
            && q != pkg("packageSize"@)
            && q != OPENWRT@ + "opkgFilename"@
            && q != pkg("directlyDependsOn"@)
            ==> #[trigger] said(last, q) == said(first, q)
}

proof fn lemma_binary_in_steps(
    w: Sheet,
    c: OpkgIndexCollector,
    fields: Map<Seq<char>, Seq<char>>,
    sources: Map<Seq<char>, Seq<char>>,
    name: Seq<char>,
    version: Seq<char>,
)
    ensures
        with_named_binary(w, c, fields, sources, name, version) == ({
            let arch = package_arch(c, fields);
            let package = package_iri(c.distro_name@, c.release_name@, arch, name, version);
            let identity = identity_iri(c.distro_name@, c.release_name@, arch, name);
            let w = link(w, package, RDF_TYPE@, OPENWRT@ + "BinaryIPK"@);
            let w = literal(w, package, pkg("packageName"@), name);
            let w = link(w, identity, RDF_TYPE@, pkg("PackageIdentity"@));
            let w = literal(w, identity, pkg("packageName"@), name);
            let w = link(w, package, pkg("isVersionOf"@), identity);
            let w = binary_step_1(w, sources, name, package);
            let w = binary_step_2(w, fields, package);
            let w = binary_step_3(w, c, fields, arch, package);
            w
        }),
{
    reveal(with_named_binary);
    reveal(binary_step_1);
    reveal(binary_step_2);
    reveal(binary_step_3);
}

proof fn lemma_binary_steps(
    w: Sheet,
    c: OpkgIndexCollector,
    fields: Map<Seq<char>, Seq<char>>,
    sources: Map<Seq<char>, Seq<char>>,
    name: Seq<char>,
    version: Seq<char>,
)
    ensures
        binary_told(w.log, ({
            let arch = package_arch(c, fields);
            let package = package_iri(c.distro_name@, c.release_name@, arch, name, version);
            let identity = identity_iri(c.distro_name@, c.release_name@, arch, name);
            let w = link(w, package, RDF_TYPE@, OPENWRT@ + "BinaryIPK"@);
            let w = literal(w, package, pkg("packageName"@), name);
            let w = link(w, identity, RDF_TYPE@, pkg("PackageIdentity"@));
            let w = literal(w, identity, pkg("packageName"@), name);
            let w = link(w, package, pkg("isVersionOf"@), identity);
            let w = binary_step_1(w, sources, name, package);
            let w = binary_step_2(w, fields, package);
            let w = binary_step_3(w, c, fields, arch, package);
            w
        }).log, c, fields, sources, name, version),
{
    broadcast use {group_writes, group_openwrt};

    reveal_strlit("packageName");
    reveal_strlit("isVersionOf");
    reveal_strlit("builtFromSource");
    reveal_strlit("targetArchitecture");
    reveal_strlit("architectureName");
    reveal_strlit("hasChecksum");
    reveal_strlit("checksumAlgorithm");
    reveal_strlit("checksumValue");
    reveal_strlit("installedSize");
    reveal_strlit("packageSize");
    reveal_strlit("opkgFilename");
    reveal_strlit("directlyDependsOn");
    let arch = package_arch(c, fields);
    let package = package_iri(c.distro_name@, c.release_name@, arch, name, version);
    let identity = identity_iri(c.distro_name@, c.release_name@, arch, name);
    let w1 = link(w, package, RDF_TYPE@, OPENWRT@ + "BinaryIPK"@);
    let w2 = literal(w1, package, pkg("packageName"@), name);
    let w3 = link(w2, identity, RDF_TYPE@, pkg("PackageIdentity"@));
    let w4 = literal(w3, identity, pkg("packageName"@), name);
    let w5 = link(w4, package, pkg("isVersionOf"@), identity);
    let w6 = binary_step_1(w5, sources, name, package);
    lemma_binary_step_1(w5, sources, name, package);
    let w7 = binary_step_2(w6, fields, package);
    lemma_binary_step_2(w6, fields, package);
    let w8 = binary_step_3(w7, c, fields, arch, package);
    lemma_binary_step_3(w7, c, fields, arch, package);
}

/// What [`with_named_binary`] writes says what [`binary_told`] states.
pub proof fn lemma_binary_told(
    w: Sheet,
    c: OpkgIndexCollector,
    fields: Map<Seq<char>, Seq<char>>,
    sources: Map<Seq<char>, Seq<char>>,
    name: Seq<char>,
    version: Seq<char>,
)
    ensures
        binary_told(
            w.log,
            with_named_binary(w, c, fields, sources, name, version).log,
            c,
            fields,
            sources,
            name,
            version,
        ),
{
    lemma_binary_in_steps(w, c, fields, sources, name, version);
    lemma_binary_steps(w, c, fields, sources, name, version);
}

} // verus!
