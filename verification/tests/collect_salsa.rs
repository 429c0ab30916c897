use pg_collect::collect_salsa::{
    extract_registry_name, parse_debian_changelog, parse_debian_watch, parse_salsa_url,
    parse_upstream_metadata, FileReply, SalsaAction, SalsaCollector, SalsaProgress, SalsaProject,
};
use pg_collect::ntriples::NTriplesWriter;
use pg_collect::textmap::{Fields, TextMap};

#[test]
fn test_parse_salsa_url() {
    let p = parse_salsa_url("https://salsa.debian.org/glibc-team/glibc.git").unwrap();
    assert_eq!(p.group, "glibc-team");
    assert_eq!(p.project, "glibc");

    let p = parse_salsa_url("https://salsa.debian.org/debian/openssl").unwrap();
    assert_eq!(p.group, "debian");
    assert_eq!(p.project, "openssl");

    assert!(parse_salsa_url("https://example.org/a/b").is_none());
}

fn openssl_identity() -> Vec<String> {
    vec!["https://packagegraph.github.io/d/pkg/debian/trixie/amd64/openssl".to_string()]
}

#[test]
fn test_parse_upstream_metadata() {
    let mut writer = NTriplesWriter::new();
    let metadata = r#"Name: OpenSSL
Repository: https://github.com/openssl/openssl
Bug-Database: https://github.com/openssl/openssl/issues
"#;
    let (repo_triples, total_triples) =
        parse_upstream_metadata(&mut writer, metadata, &openssl_identity());
    let content = writer.into_string();

    assert!(repo_triples > 0, "Should emit repo triples");
    assert!(total_triples > 0, "Should emit total triples");
    assert!(content.contains("upstreamRepository"), "Should emit upstreamRepository");
    assert!(content.contains("github.com/openssl/openssl"), "Should extract GitHub repo");
}

#[test]
fn test_parse_debian_watch() {
    let mut writer = NTriplesWriter::new();
    let watch = r#"version=4
https://github.com/openssl/openssl/releases .*/v?([\d.]+)\.tar\.gz
"#;
    let triples = parse_debian_watch(&mut writer, watch, &openssl_identity());
    let content = writer.into_string();

    assert!(triples > 0, "Should emit triples");
    assert!(content.contains("upstreamRepository"), "Should emit upstreamRepository from watch");
    assert!(content.contains("github.com/openssl/openssl"), "Should extract base URL");
}

#[test]
fn test_metadata_vs_watch_precedence() {
    let mut writer = NTriplesWriter::new();
    let identity_uris = vec!["https://example.org/pkg/test".to_string()];

    let metadata = "Repository: https://github.com/test/repo\n";
    let (repo_triples, _total) = parse_upstream_metadata(&mut writer, metadata, &identity_uris);
    assert!(repo_triples > 0, "Metadata should emit repo triples for github.com URL");

    let mut writer2 = NTriplesWriter::new();
    let bad_metadata = "Repository: not-a-url-at-all\nBug-Database: foo\n";
    let (bad_repo_triples, bad_total) =
        parse_upstream_metadata(&mut writer2, bad_metadata, &identity_uris);
    assert_eq!(
        bad_repo_triples, 0,
        "Non-forge metadata should emit 0 repo triples, enabling watch fallback"
    );
    assert!(bad_total > 0, "DQ annotation should still be emitted");

    let watch = "version=4\nhttps://github.com/other/watched/releases x\n";
    let progress = |metadata: &str| SalsaProgress {
        branch: Some("master".to_string()),
        tried: 0,
        metadata: FileReply::Text(metadata.to_string()),
        watch: FileReply::Text(watch.to_string()),
        changelog: FileReply::Missing,
    };
    let collector = SalsaCollector::new("trixie".to_string());
    let mut kept = NTriplesWriter::new();
    collector.process_salsa_package(
        &mut kept,
        "test",
        &progress(metadata),
        &identity_uris,
        &None,
        true,
    );
    assert!(!kept.into_string().contains("other/watched"));
    let mut fallen = NTriplesWriter::new();
    collector.process_salsa_package(
        &mut fallen,
        "test",
        &progress(bad_metadata),
        &identity_uris,
        &None,
        true,
    );
    assert!(fallen.into_string().contains("other/watched"));
}

fn nothing_yet(branch: Option<&str>) -> SalsaProgress {
    SalsaProgress {
        branch: branch.map(|b| b.to_string()),
        tried: 0,
        metadata: FileReply::Pending,
        watch: FileReply::Pending,
        changelog: FileReply::Pending,
    }
}

#[test]
fn test_branch_cache_reuse() {
    let mut branch_cache: Fields = TextMap::new();
    branch_cache.insert("debian/openssl".to_string(), "debian/trixie".to_string());

    let cached = branch_cache.get("debian/openssl");
    assert_eq!(cached, Some(&"debian/trixie".to_string()));

    let miss = branch_cache.get("debian/unknown");
    assert!(miss.is_none());

    let collector = SalsaCollector::new("trixie".to_string());
    let project = SalsaProject { group: "debian".to_string(), project: "openssl".to_string() };
    let known = nothing_yet(cached.map(|s| s.as_str()));
    assert!(matches!(
        collector.next_action(&project, &known, 1, true),
        SalsaAction::FetchMetadata { .. }
    ));
    let unknown = nothing_yet(None);
    assert!(matches!(
        collector.next_action(&project, &unknown, 1, true),
        SalsaAction::Probe { .. }
    ));
}

#[test]
fn the_branch_is_part_of_what_is_fetched() {
    let collector = SalsaCollector::new("trixie".to_string());
    let project = SalsaProject { group: "debian".to_string(), project: "openssl".to_string() };
    match collector.next_action(&project, &nothing_yet(Some("debian/trixie")), 1, true) {
        SalsaAction::FetchMetadata { url } => assert_eq!(
            url,
            "https://salsa.debian.org/debian/openssl/-/raw/debian/trixie/debian/upstream/metadata"
        ),
        _ => panic!("the metadata comes first"),
    }
}

#[test]
fn test_salsa_end_to_end_mock_flow() {
    let mut writer = NTriplesWriter::new();
    let identity_uris = openssl_identity();
    let source_pkg_uri =
        Some("https://packagegraph.github.io/d/src/debian/trixie/openssl/3.2.2-1".to_string());

    let mut total_triples = 0;

    let metadata = "Repository: https://github.com/openssl/openssl\nBug-Database: https://github.com/openssl/openssl/issues\n";
    let (repo_triples, metadata_total) =
        parse_upstream_metadata(&mut writer, metadata, &identity_uris);
    total_triples += metadata_total;
    let metadata_emitted_repo = repo_triples > 0;

    assert!(metadata_emitted_repo, "Metadata should emit upstream repo for github.com");
    assert!(
        repo_triples >= 7,
        "Should emit ~7 triples (upstreamRepository + repositoryURL + forge)"
    );
    assert!(metadata_emitted_repo, "Watch should be skipped — metadata already emitted repo");

    let changelog = "openssl (3.2.2-1) trixie; urgency=medium\n\n  * New upstream release\n\n -- Security Team <security@debian.org>  Mon, 01 Apr 2026 10:00:00 +0000\n";
    let changelog_triples = parse_debian_changelog(&mut writer, changelog, &source_pkg_uri);
    total_triples += changelog_triples;
    assert_eq!(
        changelog_triples, 6,
        "Changelog should emit 6 triples (4 Person + 2 maintainedBy/maintains)"
    );

    let content = writer.into_string();
    assert!(content.contains("upstreamRepository"), "Should have upstream repo from metadata");
    assert!(content.contains("github.com/openssl/openssl"), "Should reference GitHub");
    assert!(content.contains("hostedOn"), "Should have forge triples");
    assert!(content.contains("maintainedBy"), "Should link maintainer to SourcePackage");
    assert!(content.contains("Security Team"), "Should have changelog maintainer name");
    assert!(
        content.contains("mailto:security@debian.org"),
        "Should have changelog maintainer email"
    );
    assert!(total_triples >= 13, "Should emit at least 13 triples total (7 repo + 6 changelog)");
}

fn registry(url: &str) -> Option<(&'static str, String)> {
    extract_registry_name(url).map(|r| (r.ecosystem, r.name))
}

#[test]
fn test_extract_registry_name_pypi() {
    assert_eq!(
        registry("http://pypi.debian.net/setuptools/setuptools-(.*).tar.gz"),
        Some(("pypi", "setuptools".to_string()))
    );
    assert_eq!(
        registry("https://pypi.debian.net/requests/requests-(.*).tar.gz"),
        Some(("pypi", "requests".to_string()))
    );
}

#[test]
fn test_extract_registry_name_npm() {
    assert_eq!(
        registry("https://registry.npmjs.org/acorn/-/acorn-(.*).tgz"),
        Some(("npm", "acorn".to_string()))
    );
    assert_eq!(
        registry("https://registry.npmjs.org/@babel/core/-/core-(.*).tgz"),
        Some(("npm", "@babel/core".to_string()))
    );
}

#[test]
fn test_extract_registry_name_rubygems() {
    assert_eq!(
        registry("https://rubygems.org/downloads/nokogiri-(.*).gem"),
        Some(("rubygems", "nokogiri".to_string()))
    );
    assert_eq!(
        registry("https://rubygems.org/gems/rails/versions"),
        Some(("rubygems", "rails".to_string()))
    );
}

#[test]
fn test_extract_registry_name_cargo() {
    assert_eq!(
        registry("https://crates.io/api/v1/crates/serde/download"),
        Some(("cargo", "serde".to_string()))
    );
    assert_eq!(
        registry("https://static.crates.io/crates/tokio/tokio-(.*).crate"),
        Some(("cargo", "tokio".to_string()))
    );
}

#[test]
fn test_extract_registry_name_hackage() {
    assert_eq!(
        registry("https://hackage.haskell.org/package/aeson-2.1.0.tar.gz"),
        Some(("hackage", "aeson".to_string()))
    );
}

#[test]
fn test_extract_registry_name_none() {
    assert_eq!(registry("https://github.com/foo/bar"), None);
    assert_eq!(registry("https://example.com/foo.tar.gz"), None);
}

#[test]
fn registries_name_packages_before_their_versions() {
    let some = |ecosystem: &'static str, name: &str| Some((ecosystem, name.to_string()));
    assert_eq!(registry("https://pypi.org/project/requests/"), some("pypi", "requests"));
    assert_eq!(
        registry("https://files.pythonhosted.org/packages/source/r/requests/requests-2.31.0.tar.gz"),
        some("pypi", "requests")
    );
    assert_eq!(
        registry("https://cpan.metacpan.org/authors/id/E/EX/EXODIST/Test-Simple-1.30.tar.gz"),
        some("cpan", "Test-Simple")
    );
    assert_eq!(
        registry("https://hackage.haskell.org/package/attoparsec-iso8601-1.1.0.0.tar.gz"),
        some("hackage", "attoparsec-iso8601")
    );
    assert_eq!(
        registry("https://hackage.haskell.org/package/aeson-(.*).tar.gz"),
        some("hackage", "aeson")
    );
    assert_eq!(registry("https://hackage.haskell.org/package/lens/"), some("hackage", "lens"));
    assert_eq!(
        registry("https://rubygems.org/downloads/rspec-core-3.12.gem"),
        some("rubygems", "rspec-core")
    );
    assert_eq!(
        registry("https://rubygems.org/downloads/nokogiri-v1.gem"),
        some("rubygems", "nokogiri")
    );
}
