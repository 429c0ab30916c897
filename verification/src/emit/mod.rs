//! Statements from package records.

pub mod debian_ext;
pub mod rdf;
pub mod rpm_ext;
