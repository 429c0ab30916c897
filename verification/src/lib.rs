//! Collectors that turn package metadata into statements of a package graph.

pub mod alpine;
pub mod arch;
pub mod archive;
pub mod buildroot;
pub mod cache;
pub mod cached_fetch;
pub mod calendar;
pub mod cargo_collect;
pub mod casing;
pub mod checkpoint_generation;
pub mod chocolatey;
pub mod choices;
pub mod collect_bodhi;
pub mod collect_glsa;
pub mod collect_openwrt_upstream;
pub mod collect_opkg_index;
pub mod collect_salsa;
pub mod collect_sources;
pub mod collect_spec;
pub mod conda;
pub mod cpan;
pub mod cran;
pub mod debian;
pub mod deps;
pub mod derive_comparison;
pub mod derive_releases;
pub mod digest;
pub mod ecosystem;
pub mod emit;
pub mod failure;
pub mod forge;
pub mod ir;
pub mod ntriples;
pub mod number;
pub mod order;
pub mod pattern;
pub mod percent;
pub mod reading;
pub mod records_read;
pub mod rpmver;
pub mod said_alpine;
pub mod said_arch;
pub mod said_bodhi;
pub mod said_buildroot;
pub mod said_cargo;
pub mod said_chocolatey;
pub mod said_conda;
pub mod said_cpan;
pub mod said_cran;
pub mod said_debian;
pub mod said_debian_ext;
pub mod said_forge;
pub mod said_glsa;
pub mod said_openwrt_upstream;
pub mod said_opkg_index;
pub mod said_rdf;
pub mod said_rpm_ext;
pub mod said_releases;
pub mod said_salsa;
pub mod said_sources;
pub mod said_spec;
pub mod spec_file;
pub mod split;
pub mod staging;
pub mod text;
pub mod textmap;
pub mod uris;
pub mod xml;
