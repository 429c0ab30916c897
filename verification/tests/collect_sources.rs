use pg_collect::collect_sources::{emit_uploaders_triples, SourcesCollector, SourcesWanted};
use pg_collect::debian::SourceTracking;
use pg_collect::ntriples::NTriplesWriter;
use pg_collect::textmap::{Fields, TextMap};
use std::io::Write;

fn collector() -> SourcesCollector {
    SourcesCollector::new(
        "http://deb.debian.org/debian".to_string(),
        "debian".to_string(),
        "trixie".to_string(),
        "main".to_string(),
    )
}

fn fields(pairs: &[(&str, &str)]) -> Fields {
    let mut f: Fields = TextMap::new();
    for (k, v) in pairs {
        f.insert(k.to_string(), v.to_string());
    }
    f
}

#[test]
fn test_sources_collector_creation() {
    let collector = collector();
    assert_eq!(collector.distro, "debian");
    assert_eq!(
        collector.sources_url(),
        "http://deb.debian.org/debian/dists/trixie/main/source/Sources.gz"
    );
}

#[test]
fn test_emit_build_deps() {
    let mut writer = NTriplesWriter::new();
    let src_pkg_uri = "https://packagegraph.github.io/d/src/debian/trixie/openssl/3.2.2-1";
    let build_deps =
        "debhelper-compat (= 13), dpkg-dev (>= 1.22.5), gcc | clang, perl:any [arch]";
    let triples = collector().emit_build_deps(
        &mut writer,
        src_pkg_uri,
        build_deps,
        "trixie",
        "deb:buildDepends",
    );
    let content = writer.into_string();

    assert!(content.contains("buildDepends"), "Should emit buildDepends predicate");
    assert!(content.contains("debhelper-compat"), "Should extract debhelper-compat");
    assert!(content.contains("dpkg-dev"), "Should extract dpkg-dev");
    assert!(content.contains("\"gcc\""), "Should extract gcc (first alternative)");
    assert!(triples > 0, "Should emit triples");
    assert!(!content.contains("clang"));
}

#[test]
fn test_emit_uploaders() {
    let mut writer = NTriplesWriter::new();
    let vcs_urls = fields(&[("openssl", "https://salsa.debian.org/debian/openssl.git")]);
    let uploaders = "Alice Developer <alice@debian.org>, Bob Maintainer <bob@example.com>";
    let triples =
        emit_uploaders_triples(&mut writer, "openssl", uploaders, &vcs_urls);
    let content = writer.into_string();

    assert!(content.contains("Person"), "Should type as Person");
    assert!(content.contains("Alice Developer"), "Should emit Alice's name");
    assert!(content.contains("Bob Maintainer"), "Should emit Bob's name");
    assert!(content.contains("mailto:alice@debian.org"), "Should emit Alice's email");
    assert!(content.contains("mailto:bob@example.com"), "Should emit Bob's email");
    assert!(content.contains("hasContributor"), "Should emit hasContributor on repo");
    assert!(content.contains("contributesTo"), "Should emit contributesTo on person");
    assert!(triples >= 12, "Should emit at least 12 triples (6 per person: 4 Person + 2 links)");
}

const MOCK_SOURCES: &str = r#"Package: openssl
Version: 3.2.2-1
Binary: openssl, libssl3t64, libssl-dev
Maintainer: Debian OpenSSL Team <pkg-openssl-devel@alioth-lists.debian.net>
Uploaders: Christoph Martin <christoph.martin@uni-mainz.de>,
 Kurt Roeckx <kurt@roeckx.be>
Build-Depends: debhelper-compat (= 13), dpkg-dev (>= 1.22.5),
 libssl-dev, perl
Build-Depends-Indep: perl
Homepage: https://www.openssl.org/
Vcs-Git: https://salsa.debian.org/debian/openssl.git

Package: curl
Version: 8.5.0-2
Binary: curl, libcurl4t64, libcurl4-openssl-dev
Maintainer: Alessandro Ghedini <ghedo@debian.org>
Build-Depends: debhelper-compat (= 13), cmake, libssl-dev
Homepage: https://curl.se

"#;

fn known() -> SourceTracking {
    let mut known = SourceTracking::new();
    known.names = vec!["openssl".to_string(), "curl".to_string()];
    known.uris = fields(&[
        ("openssl", "https://packagegraph.github.io/d/src/debian/trixie/openssl/3.2.2-1"),
        ("curl", "https://packagegraph.github.io/d/src/debian/trixie/curl/8.5.0-2"),
    ]);
    known.vcs_urls = fields(&[("openssl", "https://salsa.debian.org/debian/openssl.git")]);
    known
}

fn wanted(emit_builddeps: bool, emit_uploaders: bool) -> SourcesWanted {
    SourcesWanted { codename: "trixie".to_string(), emit_builddeps, emit_uploaders }
}

#[test]
fn test_sources_gz_stanza_parsing() {
    let mut encoder = flate2::write::GzEncoder::new(Vec::new(), flate2::Compression::default());
    encoder.write_all(MOCK_SOURCES.as_bytes()).unwrap();
    let compressed = encoder.finish().unwrap();

    let collector = SourcesCollector::new(
        "http://example.com".to_string(),
        "debian".to_string(),
        "trixie".to_string(),
        "main".to_string(),
    );
    let mut writer = NTriplesWriter::new();
    let (parsed_count, total_triples) = collector
        .collect(&mut writer, &Some(compressed), &known(), &wanted(true, true))
        .unwrap();
    let content = writer.into_string();

    assert_eq!(parsed_count, 2, "Should parse both openssl and curl");
    assert!(
        content.contains("d/src/debian/trixie/openssl"),
        "Should emit on openssl SourcePackage"
    );
    assert!(content.contains("buildDepends"), "Should emit buildDepends");
    assert!(content.contains("debhelper-compat"), "Should parse debhelper-compat");
    assert!(
        content.contains("buildDependsIndep"),
        "Should emit buildDependsIndep for openssl"
    );
    assert!(
        content.contains("Christoph Martin"),
        "Should parse Christoph from Uploaders"
    );
    assert!(
        content.contains("Kurt Roeckx"),
        "Should parse Kurt from multi-line Uploaders"
    );
    assert!(content.contains("hasContributor"), "Should link Uploaders to packaging repo");
    assert!(total_triples > 20, "Should emit significant number of triples");
}

#[test]
fn what_is_not_wanted_is_not_written() {
    let lines: Vec<String> = MOCK_SOURCES.lines().map(|l| l.to_string()).collect();
    let mut writer = NTriplesWriter::new();
    collector().process_index(&mut writer, &lines, &None, &known(), &wanted(false, false)).unwrap();
    let content = writer.into_string();
    assert!(!content.contains("buildDepends"));
    assert!(!content.contains("Kurt Roeckx"));
}

#[test]
fn a_missing_index_is_no_error() {
    let mut writer = NTriplesWriter::new();
    let r = collector().collect(&mut writer, &None, &known(), &wanted(true, true)).unwrap();
    assert_eq!(r.0, 0);
}

#[test]
fn a_package_that_no_binary_named_is_passed_over() {
    let lines: Vec<String> = MOCK_SOURCES.lines().map(|l| l.to_string()).collect();
    let mut some = known();
    some.names = vec!["curl".to_string()];
    let mut writer = NTriplesWriter::new();
    let (n, _) = collector()
        .process_index(&mut writer, &lines, &None, &some, &wanted(true, true))
        .unwrap();
    assert_eq!(n, 1);
    assert!(!writer.into_string().contains("/openssl/"));
}
