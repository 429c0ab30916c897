//! What only RPM packages have.

use crate::emit::rdf::{emit_packaging_repo, with_packaging_repo};
use crate::ir::{
    extra_integer, extra_text, integer_under, text_under, Extra, PackageIr, Record, Scalar,
};
use crate::ntriples::{link, literal, number, NTriplesWriter, Sheet};
use crate::text::cat2;
use crate::textmap::TextMap;
use crate::uris::{
    identity_iri, package_identity_uri, package_iri, package_uri, RDF_TYPE, RPM,
};
use vstd::prelude::*;

verus! {

/// What the collector of RPM packages adds to a record.
pub open spec fn with_rpm_facts(w: Sheet, ir: Record, extra: Map<Seq<char>, Extra>) -> Sheet {
    let package = package_iri(
        ir.scope.distro,
        ir.scope.release,
        ir.package.arch,
        ir.package.name,
        ir.package.full_version,
    );
    let w = link(w, package, RDF_TYPE@, RPM@ + "BinaryRPM"@);
    let w = match extra_text(extra, "source_rpm"@) {
        Some(srpm) => {
            literal(w, package, RPM@ + "sourceRPM"@, srpm)
        },
        None => w,
    };
    let w = match extra_text(extra, "rpm_group"@) {
        Some(group) => {
            literal(w, package, RPM@ + "RPMGroup"@, group)
        },
        None => w,
    };
    let w = match extra_integer(extra, "rpm_epoch"@) {
        Some(epoch) => {
            let w = if epoch != 0 {
                number(w, package, RPM@ + "epoch"@, epoch as int)
            } else {
                w
            };
            w
        },
        None => w,
    };
    let identity = identity_iri(
        ir.scope.distro,
        ir.scope.release,
        ir.package.arch,
        ir.package.name,
    );
    with_packaging_repo(w, identity, ir.scope.distro, ir.package.name)
}

/// What the collector of RPM packages adds to a record.
pub fn emit_rpm_facts(
    writer: &mut NTriplesWriter,
    ir: &PackageIr,
    extra: &TextMap<Scalar>,
) -> (r: usize)
    ensures
        final(writer)@ == with_rpm_facts(old(writer)@, ir@, extra@),
        r == final(writer)@.log.len() - old(writer)@.log.len(),
{
    let start: usize = writer.len();
    let package: String = package_uri(
        &ir.scope.distro,
        &ir.scope.release,
        &ir.package.arch,
        &ir.package.name,
        &ir.package.full_version,
    );
    writer.write_triple(&package, RDF_TYPE, &cat2(RPM, "BinaryRPM"));
    if let Some(srpm) = text_under(extra, "source_rpm") {
        writer.write_literal(&package, &cat2(RPM, "sourceRPM"), &srpm);
    }
    if let Some(group) = text_under(extra, "rpm_group") {
        writer.write_literal(&package, &cat2(RPM, "RPMGroup"), &group);
    }
    if let Some(epoch) = integer_under(extra, "rpm_epoch") {
        if epoch != 0 {
            writer.write_integer(&package, &cat2(RPM, "epoch"), epoch);
        }
    }
    let identity: String = package_identity_uri(
        &ir.scope.distro,
        &ir.scope.release,
        &ir.package.arch,
        &ir.package.name,
    );
    emit_packaging_repo(writer, &identity, &ir.scope.distro, &ir.package.name);
    writer.len() - start
}

/// What the collector of RPM packages adds to a record, where it adds anything.
pub open spec fn with_rpm_extras(w: Sheet, ir: Record) -> Sheet {
    let w = match ir.collector_specific {
        Some(extra) => {
            with_rpm_facts(w, ir, extra)
        },
        None => w,
    };
    w
}

/// What the collector of RPM packages adds to a record, where it adds anything.
pub fn emit_rpm_extras(ir: &PackageIr, writer: &mut NTriplesWriter) -> (r: usize)
    ensures
        final(writer)@ == with_rpm_extras(old(writer)@, ir@),
        r == final(writer)@.log.len() - old(writer)@.log.len(),
{
    let start: usize = writer.len();
    if let Some(extra) = &ir.collector_specific {
        emit_rpm_facts(writer, ir, extra);
    }
    writer.len() - start
}

} // verus!
