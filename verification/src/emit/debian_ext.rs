//! What only Debian packages have.

use crate::forge::{extract_forge_url, forge_url};
use crate::ir::{extra_text, text_under, Extra, PackageIr, Record, Scalar};
use crate::ntriples::{link, literal, number_if, pkg, NTriplesWriter, Sheet, PKG};
use crate::number::{i64_value, parse_i64};
use crate::split::{first_word_or_all, leading_word_or_all};
use crate::text::cat2;
use crate::textmap::TextMap;
use crate::uris::{
    identity_iri, package_identity_uri, package_iri, package_uri, repo_iri, repo_uri, DEB,
    RDF_TYPE, VCS,
};
use vstd::prelude::*;

verus! {

/// What the collector of Debian packages adds to a record.
pub open spec fn with_debian_facts(w: Sheet, ir: Record, extra: Map<Seq<char>, Extra>) -> Sheet {
    let package = package_iri(
        ir.scope.distro,
        ir.scope.release,
        ir.package.arch,
        ir.package.name,
        ir.package.full_version,
    );
    let identity = identity_iri(
        ir.scope.distro,
        ir.scope.release,
        ir.package.arch,
        ir.package.name,
    );
    let w = link(w, package, RDF_TYPE@, DEB@ + "BinaryPackage"@);
    let w = match extra_text(extra, "suite"@) {
        Some(suite) => {
            literal(w, package, DEB@ + "inSuite"@, suite)
        },
        None => w,
    };
    let w = match extra_text(extra, "component"@) {
        Some(component) => {
            literal(w, package, DEB@ + "inComponent"@, component)
        },
        None => w,
    };
    let w = match extra_text(extra, "installed_size_kb"@) {
        Some(size) => {
            number_if(w, package, DEB@ + "installedSize"@, i64_value(size))
        },
        None => w,
    };
    let w = match extra_text(extra, "vcs_git"@) {
        Some(vcs) => {
            let address = first_word_or_all(vcs);
            let w = match forge_url(address) {
                Some(url) => {
                    let repo = repo_iri(url);
                    let w = link(w, identity, pkg("packagingRepository"@), repo);
                    link(w, repo, RDF_TYPE@, VCS@ + "Repository"@)
                },
                None => w,
            };
            w
        },
        None => w,
    };
    w
}

/// What the collector of Debian packages adds to a record.
pub fn emit_debian_facts(
    writer: &mut NTriplesWriter,
    ir: &PackageIr,
    extra: &TextMap<Scalar>,
) -> (r: usize)
    ensures
        final(writer)@ == with_debian_facts(old(writer)@, ir@, extra@),
        r == final(writer)@.log.len() - old(writer)@.log.len(),
{
    let start: usize = writer.len();
    let package: String = package_uri(
        &ir.scope.distro,
        &ir.scope.release,
        &ir.package.arch,
        &ir.package.name,
        &ir.package.full_version,
    );
    let identity: String = package_identity_uri(
        &ir.scope.distro,
        &ir.scope.release,
        &ir.package.arch,
        &ir.package.name,
    );
    writer.write_triple(&package, RDF_TYPE, &cat2(DEB, "BinaryPackage"));
    if let Some(suite) = text_under(extra, "suite") {
        writer.write_literal(&package, &cat2(DEB, "inSuite"), &suite);
    }
    if let Some(component) = text_under(extra, "component") {
        writer.write_literal(&package, &cat2(DEB, "inComponent"), &component);
    }
    if let Some(size) = text_under(extra, "installed_size_kb") {
        writer.write_integer_if(&package, &cat2(DEB, "installedSize"), parse_i64(&size));
    }
    if let Some(vcs) = text_under(extra, "vcs_git") {
        let address: String = leading_word_or_all(&vcs);
        if let Some(url) = extract_forge_url(&address) {
            let repo: String = repo_uri(&url);
            writer.write_triple(&identity, &cat2(PKG, "packagingRepository"), &repo);
            writer.write_triple(&repo, RDF_TYPE, &cat2(VCS, "Repository"));
        }
    }
    writer.len() - start
}

/// What the collector of Debian packages adds to a record, where it adds anything.
pub open spec fn with_debian_extras(w: Sheet, ir: Record) -> Sheet {
    let w = match ir.collector_specific {
        Some(extra) => {
            with_debian_facts(w, ir, extra)
        },
        None => w,
    };
    w
}

/// What the collector of Debian packages adds to a record, where it adds anything.
pub fn emit_debian_extras(ir: &PackageIr, writer: &mut NTriplesWriter) -> (r: usize)
    ensures
        final(writer)@ == with_debian_extras(old(writer)@, ir@),
        r == final(writer)@.log.len() - old(writer)@.log.len(),
{
    let start: usize = writer.len();
    if let Some(extra) = &ir.collector_specific {
        emit_debian_facts(writer, ir, extra);
    }
    writer.len() - start
}

} // verus!
