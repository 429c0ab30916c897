//! Package records, as the collectors hand them to the shared emitter.

use crate::text::opt;
use crate::textmap::TextMap;
use vstd::prelude::*;

verus! {

/// The version of the form of these records.
pub const IR_SCHEMA_VERSION: u32 = 1;

/// Where a record comes from.
pub struct ScopeIr {
    pub collector: String,
    pub distro: String,
    pub release: String,
    pub repo: Option<String>,
    pub arch: String,
}

/// What a [`ScopeIr`] says.
#[verifier::ext_equal]
pub struct Scope {
    pub collector: Seq<char>,
    pub distro: Seq<char>,
    pub release: Seq<char>,
    pub repo: Option<Seq<char>>,
    pub arch: Seq<char>,
}

impl View for ScopeIr {
    type V = Scope;

    open spec fn view(&self) -> Scope {
        Scope {
            collector: self.collector@,
            distro: self.distro@,
            release: self.release@,
            repo: crate::text::opt(self.repo),
            arch: self.arch@,
        }
    }
}

/// What names a package.
pub struct PackageInfo {
    pub kind: String,
    pub name: String,
    pub epoch: i32,
    pub version: String,
    pub release: Option<String>,
    pub full_version: String,
    pub arch: String,
}

/// What a [`PackageInfo`] says.
#[verifier::ext_equal]
pub struct Named {
    pub kind: Seq<char>,
    pub name: Seq<char>,
    pub epoch: i32,
    pub version: Seq<char>,
    pub release: Option<Seq<char>>,
    pub full_version: Seq<char>,
    pub arch: Seq<char>,
}

impl View for PackageInfo {
    type V = Named;

    open spec fn view(&self) -> Named {
        Named {
            kind: self.kind@,
            name: self.name@,
            epoch: self.epoch,
            version: self.version@,
            release: crate::text::opt(self.release),
            full_version: self.full_version@,
            arch: self.arch@,
        }
    }
}

/// The source package that a package was built from.
pub struct SourcePackageRef {
    pub name: String,
    pub version: Option<String>,
    pub release: Option<String>,
}

/// What a [`SourcePackageRef`] says.
#[verifier::ext_equal]
pub struct SourceRef {
    pub name: Seq<char>,
    pub version: Option<Seq<char>>,
    pub release: Option<Seq<char>>,
}

impl View for SourcePackageRef {
    type V = SourceRef;

    open spec fn view(&self) -> SourceRef {
        SourceRef {
            name: self.name@,
            version: crate::text::opt(self.version),
            release: crate::text::opt(self.release),
        }
    }
}

/// Who maintains a package.
pub struct MaintainerIr {
    pub name: String,
    pub email: Option<String>,
    pub role_hint: Option<String>,
}

/// What a [`MaintainerIr`] says.
#[verifier::ext_equal]
pub struct Maintains {
    pub name: Seq<char>,
    pub email: Option<Seq<char>>,
    pub role_hint: Option<Seq<char>>,
}

impl View for MaintainerIr {
    type V = Maintains;

    open spec fn view(&self) -> Maintains {
        Maintains {
            name: self.name@,
            email: crate::text::opt(self.email),
            role_hint: crate::text::opt(self.role_hint),
        }
    }
}

/// The views of a list of records.
pub open spec fn maintainer_ir_views(v: Seq<MaintainerIr>) -> Seq<Maintains> {
    v.map_values(|x: MaintainerIr| x@)
}

/// What a package depends on.
pub struct DependencyIr {
    pub name: String,
    pub dep_type: String,
    pub version_constraint: Option<String>,
    pub flags: Option<String>,
}

/// What a [`DependencyIr`] says.
#[verifier::ext_equal]
pub struct Depends {
    pub name: Seq<char>,
    pub dep_type: Seq<char>,
    pub version_constraint: Option<Seq<char>>,
    pub flags: Option<Seq<char>>,
}

impl View for DependencyIr {
    type V = Depends;

    open spec fn view(&self) -> Depends {
        Depends {
            name: self.name@,
            dep_type: self.dep_type@,
            version_constraint: crate::text::opt(self.version_constraint),
            flags: crate::text::opt(self.flags),
        }
    }
}

/// The views of a list of records.
pub open spec fn dependency_ir_views(v: Seq<DependencyIr>) -> Seq<Depends> {
    v.map_values(|x: DependencyIr| x@)
}

/// What describes a package.
pub struct PackageMetadataIr {
    pub summary: Option<String>,
    pub description: Option<String>,
    pub homepage: Option<String>,
    pub license: Option<String>,
    pub checksum: Option<String>,
    pub size_bytes: Option<u64>,
}

/// What a [`PackageMetadataIr`] says.
#[verifier::ext_equal]
pub struct Metadata {
    pub summary: Option<Seq<char>>,
    pub description: Option<Seq<char>>,
    pub homepage: Option<Seq<char>>,
    pub license: Option<Seq<char>>,
    pub checksum: Option<Seq<char>>,
    pub size_bytes: Option<u64>,
}

impl View for PackageMetadataIr {
    type V = Metadata;

    open spec fn view(&self) -> Metadata {
        Metadata {
            summary: crate::text::opt(self.summary),
            description: crate::text::opt(self.description),
            homepage: crate::text::opt(self.homepage),
            license: crate::text::opt(self.license),
            checksum: crate::text::opt(self.checksum),
            size_bytes: self.size_bytes,
        }
    }
}

/// A value that a collector adds to a record.
pub enum Scalar {
    Text(String),
    Integer(i64),
    /// A value of another kind.
    Other,
}

/// What a [`Scalar`] says.
pub enum Extra {
    Text(Seq<char>),
    Integer(i64),
    Other,
}

impl View for Scalar {
    type V = Extra;

    open spec fn view(&self) -> Extra {
        match self {
            Scalar::Text(s) => Extra::Text(s@),
            Scalar::Integer(n) => Extra::Integer(*n),
            Scalar::Other => Extra::Other,
        }
    }
}

/// The text under a key.
pub open spec fn extra_text(m: Map<Seq<char>, Extra>, key: Seq<char>) -> Option<Seq<char>> {
    if m.contains_key(key) {
        match m[key] {
            Extra::Text(s) => Some(s),
            _ => None,
        }
    } else {
        None
    }
}

/// The integer under a key.
pub open spec fn extra_integer(m: Map<Seq<char>, Extra>, key: Seq<char>) -> Option<i64> {
    if m.contains_key(key) {
        match m[key] {
            Extra::Integer(n) => Some(n),
            _ => None,
        }
    } else {
        None
    }
}

pub fn text_under(m: &TextMap<Scalar>, key: &str) -> (r: Option<String>)
    ensures
        opt(r) == extra_text(m@, key@),
{
    match m.get(key) {
        Some(Scalar::Text(s)) => Some(s.clone()),
        _ => None,
    }
}

pub fn integer_under(m: &TextMap<Scalar>, key: &str) -> (r: Option<i64>)
    ensures
        r == extra_integer(m@, key@),
{
    match m.get(key) {
        Some(Scalar::Integer(n)) => Some(*n),
        _ => None,
    }
}

/// A package record.
pub struct PackageIr {
    pub ir_schema: u32,
    pub scope: ScopeIr,
    pub package: PackageInfo,
    pub source_package: Option<SourcePackageRef>,
    pub maintainers: Vec<MaintainerIr>,
    pub dependencies: Vec<DependencyIr>,
    pub metadata: Option<PackageMetadataIr>,
    /// What only one collector knows.
    pub collector_specific: Option<TextMap<Scalar>>,
}

/// What a [`PackageIr`] says.
#[verifier::ext_equal]
pub struct Record {
    pub ir_schema: u32,
    pub scope: Scope,
    pub package: Named,
    pub source_package: Option<SourceRef>,
    pub maintainers: Seq<Maintains>,
    pub dependencies: Seq<Depends>,
    pub metadata: Option<Metadata>,
    pub collector_specific: Option<Map<Seq<char>, Extra>>,
}

impl View for PackageIr {
    type V = Record;

    open spec fn view(&self) -> Record {
        Record {
            ir_schema: self.ir_schema,
            scope: self.scope@,
            package: self.package@,
            source_package: match self.source_package {
                Some(x) => Some(x@),
                None => None,
            },
            maintainers: maintainer_ir_views(self.maintainers@),
            dependencies: dependency_ir_views(self.dependencies@),
            metadata: match self.metadata {
                Some(x) => Some(x@),
                None => None,
            },
            collector_specific: match self.collector_specific {
                Some(x) => Some(x@),
                None => None,
            },
        }
    }
}

} // verus!
