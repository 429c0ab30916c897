//! What is said of RPM packages only.

use crate::emit::rdf::with_packaging_repo;
use crate::emit::rpm_ext::{with_rpm_extras, with_rpm_facts};
use crate::ir::{extra_integer, extra_text, Extra, Record};
use crate::ntriples::{link, number, pkg, Fact, Sheet};
use crate::reading::{
    group_reading, group_rpm, group_writes, maybe_literal, said, text_if, to_iri, to_number,
    where_so,
};
use crate::said_rdf::lemma_packaging_repo_told;
use crate::uris::{distgit_iri, identity_iri, package_iri, RDF_TYPE, RPM, VCS};
use vstd::prelude::*;

verus! {

#[verifier::opaque]
spec fn rpm_facts_step_1(w: Sheet, extra: Map<Seq<char>, Extra>, package: Seq<char>) -> Sheet {
    match extra_integer(extra, "rpm_epoch"@) {
        Some(epoch) => {
            let w = if epoch != 0 { number(w, package, RPM@ + "epoch"@, epoch as int) } else { w };
            w
        },
        None => w,
    }
}

proof fn lemma_rpm_facts_step_1(w: Sheet, extra: Map<Seq<char>, Extra>, package: Seq<char>)
    ensures
        ({
            let first = w.log;
            let last = rpm_facts_step_1(w, extra, package).log;
            &&& said(last, RPM@ + "epoch"@) == said(first, RPM@ + "epoch"@)
                + (
                    match extra_integer(extra, "rpm_epoch"@) {
                        Some(epoch) => where_so(epoch != 0, seq![to_number(package, epoch as int)]),
                        None => Seq::empty(),
                    }
                )
            &&& forall|q: Seq<char>|
                q != RPM@ + "epoch"@ ==> #[trigger] said(last, q) == said(first, q)
        }),
{
    broadcast use {group_reading, group_rpm};

    reveal(rpm_facts_step_1);
    reveal_strlit("epoch");
}

/// What is said of an RPM package only: that it is one, its source, its group, its epoch
/// where it is not zero, and where it is packaged.
pub open spec fn rpm_facts_told(
    first: Seq<Fact>,
    last: Seq<Fact>,
    ir: Record,
    extra: Map<Seq<char>, Extra>,
) -> bool {
    let package = package_iri(
        ir.scope.distro,
        ir.scope.release,
        ir.package.arch,
        ir.package.name,
        ir.package.full_version,
    );
    let identity = identity_iri(ir.scope.distro, ir.scope.release, ir.package.arch, ir.package.name);
    &&& said(last, RDF_TYPE@) == said(first, RDF_TYPE@)
        + seq![to_iri(package, RPM@ + "BinaryRPM"@)]
        + seq![to_iri(distgit_iri(ir.scope.distro, ir.package.name), VCS@ + "Repository"@)]
    &&& said(last, RPM@ + "sourceRPM"@) == said(first, RPM@ + "sourceRPM"@)
        + text_if(package, extra_text(extra, "source_rpm"@))
    &&& said(last, RPM@ + "RPMGroup"@) == said(first, RPM@ + "RPMGroup"@)
        + text_if(package, extra_text(extra, "rpm_group"@))
    &&& said(last, RPM@ + "epoch"@) == said(first, RPM@ + "epoch"@)
        + (
            match extra_integer(extra, "rpm_epoch"@) {
                Some(epoch) => where_so(epoch != 0, seq![to_number(package, epoch as int)]),
                None => Seq::empty(),
            }
        )
    &&& said(last, pkg("packagingRepository"@)) == said(first, pkg("packagingRepository"@))
        + seq![to_iri(identity, distgit_iri(ir.scope.distro, ir.package.name))]
    &&& forall|q: Seq<char>|
        q != RDF_TYPE@
            && q != RPM@ + "sourceRPM"@
            && q != RPM@ + "RPMGroup"@
            && q != RPM@ + "epoch"@
            && q != pkg("packagingRepository"@)
            ==> #[trigger] said(last, q) == said(first, q)
}

proof fn lemma_rpm_facts_in_steps(w: Sheet, ir: Record, extra: Map<Seq<char>, Extra>)
    ensures
        with_rpm_facts(w, ir, extra) == ({
            let package = package_iri(
                ir.scope.distro,
                ir.scope.release,
                ir.package.arch,
                ir.package.name,
                ir.package.full_version,
            );
            let w = link(w, package, RDF_TYPE@, RPM@ + "BinaryRPM"@);
            let w = maybe_literal(w, package, RPM@ + "sourceRPM"@, extra_text(extra, "source_rpm"@));
            let w = maybe_literal(w, package, RPM@ + "RPMGroup"@, extra_text(extra, "rpm_group"@));
            let w = rpm_facts_step_1(w, extra, package);
            let identity = identity_iri(
                ir.scope.distro,
                ir.scope.release,
                ir.package.arch,
                ir.package.name,
            );
            let w = with_packaging_repo(w, identity, ir.scope.distro, ir.package.name);
            w
        }),
{
    reveal(maybe_literal);
    reveal(rpm_facts_step_1);
}

proof fn lemma_rpm_facts_steps(w: Sheet, ir: Record, extra: Map<Seq<char>, Extra>)
    ensures
        rpm_facts_told(w.log, ({
            let package = package_iri(
                ir.scope.distro,
                ir.scope.release,
                ir.package.arch,
                ir.package.name,
                ir.package.full_version,
            );
            let w = link(w, package, RDF_TYPE@, RPM@ + "BinaryRPM"@);
            let w = maybe_literal(w, package, RPM@ + "sourceRPM"@, extra_text(extra, "source_rpm"@));
            let w = maybe_literal(w, package, RPM@ + "RPMGroup"@, extra_text(extra, "rpm_group"@));
            let w = rpm_facts_step_1(w, extra, package);
            let identity = identity_iri(
                ir.scope.distro,
                ir.scope.release,
                ir.package.arch,
                ir.package.name,
            );
            let w = with_packaging_repo(w, identity, ir.scope.distro, ir.package.name);
            w
        }).log, ir, extra),
{
    broadcast use {group_writes, group_rpm};

    reveal_strlit("sourceRPM");
    reveal_strlit("RPMGroup");
    reveal_strlit("epoch");
    reveal_strlit("packagingRepository");
    let package = package_iri(
        ir.scope.distro,
        ir.scope.release,
        ir.package.arch,
        ir.package.name,
        ir.package.full_version,
    );
    let w1 = link(w, package, RDF_TYPE@, RPM@ + "BinaryRPM"@);
    let w2 = maybe_literal(w1, package, RPM@ + "sourceRPM"@, extra_text(extra, "source_rpm"@));
    let w3 = maybe_literal(w2, package, RPM@ + "RPMGroup"@, extra_text(extra, "rpm_group"@));
    let w4 = rpm_facts_step_1(w3, extra, package);
    lemma_rpm_facts_step_1(w3, extra, package);
    let identity = identity_iri(ir.scope.distro, ir.scope.release, ir.package.arch, ir.package.name);
    let w5 = with_packaging_repo(w4, identity, ir.scope.distro, ir.package.name);
    lemma_packaging_repo_told(w4, identity, ir.scope.distro, ir.package.name);
}

/// What [`with_rpm_facts`] writes says what [`rpm_facts_told`] states.
pub proof fn lemma_rpm_facts_told(
    w: Sheet,
    ir: Record,
    extra: Map<Seq<char>, Extra>,
)
    ensures
        rpm_facts_told(w.log, with_rpm_facts(w, ir, extra).log, ir, extra),
{
    lemma_rpm_facts_in_steps(w, ir, extra);
    lemma_rpm_facts_steps(w, ir, extra);
}

proof fn lemma_rpm_extras_told(w: Sheet, ir: Record)
    ensures
        ({
            let first = w.log;
            let last = with_rpm_extras(w, ir).log;
            &&& said(last, RDF_TYPE@) == said(first, RDF_TYPE@)
                + (
                    match ir.collector_specific {
                        Some(extra) => seq![
                            to_iri(
                                package_iri(
                                    ir.scope.distro,
                                    ir.scope.release,
                                    ir.package.arch,
                                    ir.package.name,
                                    ir.package.full_version,
                                ),
                                RPM@ + "BinaryRPM"@,
                            ),
                        ],
                        None => Seq::empty(),
                    }
                )
                + (
                    match ir.collector_specific {
                        Some(extra) => seq![
                            to_iri(
                                distgit_iri(ir.scope.distro, ir.package.name),
                                VCS@ + "Repository"@,
                            ),
                        ],
                        None => Seq::empty(),
                    }
                )
            &&& said(last, RPM@ + "sourceRPM"@) == said(first, RPM@ + "sourceRPM"@)
                + (
                    match ir.collector_specific {
                        Some(extra) => text_if(
                            package_iri(
                                ir.scope.distro,
                                ir.scope.release,
                                ir.package.arch,
                                ir.package.name,
                                ir.package.full_version,
                            ),
                            extra_text(extra, "source_rpm"@),
                        ),
                        None => Seq::empty(),
                    }
                )
            &&& said(last, RPM@ + "RPMGroup"@) == said(first, RPM@ + "RPMGroup"@)
                + (
                    match ir.collector_specific {
                        Some(extra) => text_if(
                            package_iri(
                                ir.scope.distro,
                                ir.scope.release,
                                ir.package.arch,
                                ir.package.name,
                                ir.package.full_version,
                            ),
                            extra_text(extra, "rpm_group"@),
                        ),
                        None => Seq::empty(),
                    }
                )
            &&& said(last, RPM@ + "epoch"@) == said(first, RPM@ + "epoch"@)
                + (
                    match ir.collector_specific {
                        Some(extra) => (
                            match extra_integer(extra, "rpm_epoch"@) {
                                Some(epoch) => where_so(
                                    epoch != 0,
                                    seq![
                                        to_number(
                                            package_iri(
                                                ir.scope.distro,
                                                ir.scope.release,
                                                ir.package.arch,
                                                ir.package.name,
                                                ir.package.full_version,
                                            ),
                                            epoch as int,
                                        ),
                                    ],
                                ),
                                None => Seq::empty(),
                            }
                        ),
                        None => Seq::empty(),
                    }
                )
            &&& said(last, pkg("packagingRepository"@)) == said(first, pkg("packagingRepository"@))
                + (
                    match ir.collector_specific {
                        Some(extra) => seq![
                            to_iri(
                                identity_iri(
                                    ir.scope.distro,
                                    ir.scope.release,
                                    ir.package.arch,
                                    ir.package.name,
                                ),
                                distgit_iri(ir.scope.distro, ir.package.name),
                            ),
                        ],
                        None => Seq::empty(),
                    }
                )
            &&& forall|q: Seq<char>|
                q != RDF_TYPE@
                    && q != RPM@ + "sourceRPM"@
                    && q != RPM@ + "RPMGroup"@
                    && q != RPM@ + "epoch"@
                    && q != pkg("packagingRepository"@)
                    ==> #[trigger] said(last, q) == said(first, q)
        }),
{
    broadcast use {group_reading, group_rpm};

    reveal_strlit("sourceRPM");
    reveal_strlit("RPMGroup");
    reveal_strlit("epoch");
    reveal_strlit("packagingRepository");
    match ir.collector_specific {
        Some(extra) => {
            lemma_rpm_facts_told(w, ir, extra);
        },
        None => {
        },
    }
}

} // verus!
