use pg_collect::buildroot::{is_package_dir, prefix_of, BuildrootCollector, Makefile};
use pg_collect::ntriples::NTriplesWriter;

fn collector() -> BuildrootCollector {
    BuildrootCollector::new("buildroot".into(), "buildroot".into(), "/tmp/buildroot".into())
}

fn makefile(name: &str, content: &str) -> Makefile {
    Makefile { name: name.to_string(), content: content.to_string() }
}

#[test]
fn test_parse_simple_package() {
    let content = r#"
LIBFOO_VERSION = 1.2.3
LIBFOO_SITE = https://example.com/releases
LIBFOO_SITE_METHOD = wget
LIBFOO_LICENSE = MIT
LIBFOO_LICENSE_FILES = COPYING
LIBFOO_DEPENDENCIES = zlib openssl
"#;
    let mut writer = NTriplesWriter::new();
    let (packages, triples) = collector().collect(&mut writer, &vec![makefile("libfoo", content)]);

    assert_eq!(packages, 1, "Should collect 1 package");
    assert!(triples > 0, "Should emit triples");

    let content = writer.into_string();
    assert!(content.contains("core#SourcePackage"), "Should have SourcePackage type");
    assert!(content.contains("buildroot#BuildrootPackage"), "Should have BuildrootPackage type");
    assert!(content.contains("versionString"), "Should use versionString on Version node");
    assert!(content.contains("\"1.2.3\""), "Should have version");
    assert!(content.contains("licenseName"), "Should use licenseName property");
    assert!(content.contains("\"MIT\""), "Should have LICENSE");
    assert!(content.contains("\"https://example.com/releases\""), "Should have SITE");
    assert!(content.contains("isVersionOf"), "Should use isVersionOf for identity");
    assert!(content.contains("partOfDistribution"), "Should link to distribution");
    assert!(content.contains("partOfRelease"), "Should link to release");
    assert!(!content.contains("packageVersion"), "Should NOT use packageVersion");
}

#[test]
fn test_host_dependencies() {
    let content = r#"
FOO_VERSION = 1.0
FOO_LICENSE = GPL-2.0
FOO_DEPENDENCIES = libbar host-pkgconf
"#;
    let mut writer = NTriplesWriter::new();
    collector().collect(&mut writer, &vec![makefile("foo", content)]);
    let content = writer.into_string();

    assert!(
        content.contains("core#buildDependsOn"),
        "Should have buildDependsOn dependency type for build deps"
    );
    assert!(
        content.contains("core#buildDependsOn"),
        "Should have buildDependsOn dependency type for host- prefix"
    );
}

#[test]
fn test_package_name_to_prefix() {
    let content = r#"
LIB_FOO_VERSION = 2.0
LIB_FOO_LICENSE = BSD-3-Clause
"#;
    let mut writer = NTriplesWriter::new();
    let (packages, _) = collector().collect(&mut writer, &vec![makefile("lib-foo", content)]);
    assert_eq!(packages, 1, "Should parse package with dash in name");
    assert!(
        writer.into_string().contains("\"2.0\""),
        "Should extract version from LIB_FOO_ prefix"
    );
    assert_eq!(prefix_of("lib-foo"), "LIB_FOO_");
}

#[test]
fn a_line_can_be_continued() {
    let p = collector().parse_package(
        "foo",
        "FOO_VERSION = 1.0\nFOO_DEPENDENCIES = \\\n\tzlib \\\n\thost-pkgconf\nFOO_INSTALL_STAGING = YES\n$(eval $(cmake-package))\n",
    );
    assert_eq!(p.version.as_deref(), Some("1.0"));
    let all: Vec<String> =
        p.dependencies.iter().chain(p.host_dependencies.iter()).cloned().collect();
    assert!(all.iter().any(|d| d == "zlib"), "{all:?}");
    assert!(all.iter().any(|d| d.ends_with("pkgconf")), "{all:?}");
    assert!(p.install_staging);
}

#[test]
fn a_graph_turns_triples_into_quads() {
    let c = collector().with_graph(Some("urn:g".to_string()));
    let mut writer = NTriplesWriter::new_maybe_graph(c.graph_uri.clone());
    c.collect(&mut writer, &vec![makefile("foo", "FOO_VERSION = 1\n")]);
    assert!(writer.lines().iter().all(|l| l.ends_with(" <urn:g> .")));
}

#[test]
fn some_directories_hold_no_package() {
    assert!(is_package_dir("zlib"));
    assert!(!is_package_dir(".git"));
}
