use pg_collect::debian::{
    choose_retry, has_fitting_size, parse_index, parse_release, parse_version_constraint,
    DebianCollector, HttpOutcome, IndexScope, RetryChoice, SeenPackages, SourceTracking,
};
use pg_collect::ntriples::NTriplesWriter;
use pg_collect::textmap::{Fields, TextMap};
use std::io::Write;

fn collector() -> DebianCollector {
    DebianCollector::new(
        "http://deb.debian.org/debian".to_string(),
        "debian".to_string(),
        "trixie".to_string(),
        "main".to_string(),
    )
}

fn scope(suite: &str, arch: &str) -> IndexScope {
    IndexScope { codename: "trixie".to_string(), suite: suite.to_string(), arch: arch.to_string() }
}

fn fields(pairs: &[(&str, &str)]) -> Fields {
    let mut f: Fields = TextMap::new();
    for (k, v) in pairs {
        f.insert(k.to_string(), v.to_string());
    }
    f
}

fn gzipped(text: &str) -> Vec<u8> {
    let mut gz = flate2::write::GzEncoder::new(Vec::new(), flate2::Compression::default());
    gz.write_all(text.as_bytes()).unwrap();
    gz.finish().unwrap()
}

const INDEX: &str = "Package: tzdata
Version: 2024a-1
Architecture: all
Maintainer: GNU Libc Maintainers <debian-glibc@lists.debian.org>
Description: time zone data
 continued here

Package: openssl
Version: 3.2.2-1
Architecture: amd64
Installed-Size: 2400
Depends: libc6 (>= 2.34), libssl3t64 (>= 3.2.2)
Homepage: https://github.com/openssl/openssl

";

#[test]
fn test_collect_with_writer_single_arch() {
    let mut writer = NTriplesWriter::new();
    let mut all_arch_seen = SeenPackages::new();
    let mut tracking = SourceTracking::new();

    let result = collector().collect_with_writer(
        &mut writer,
        &gzipped(INDEX),
        &scope("stable", "amd64"),
        &mut all_arch_seen,
        &mut tracking,
        false,
        Some(5),
    );

    assert!(result.is_ok(), "collect_with_writer should succeed");
    let (pkg_count, _triples) = result.unwrap();
    assert!(pkg_count > 0, "Should collect at least one package");
    assert_eq!(pkg_count, 2);
}

#[test]
fn test_arch_all_dedup_via_emit_tracking() {
    let collector = collector();
    let mut writer = NTriplesWriter::new();
    let mut all_arch_seen = SeenPackages::new();
    let mut tracking = SourceTracking::new();

    let pkg_data =
        fields(&[("Package", "tzdata"), ("Version", "2024a-1"), ("Architecture", "all")]);

    let triples1 = collector.emit_package_triples_with_tracking(
        &mut writer,
        &pkg_data,
        &scope("stable", "amd64"),
        &mut tracking,
    );
    all_arch_seen.insert("tzdata", "2024a-1");
    let triple_lines_after_first = writer.into_string().lines().count();

    assert!(triples1 > 0, "First arch should emit triples");
    assert!(triple_lines_after_first > 0, "Output should have triples");

    let is_arch_all = pkg_data.get("Architecture").map(|s| s.as_str()) == Some("all");
    let is_secondary = true;
    let should_skip = is_arch_all
        && is_secondary
        && all_arch_seen
            .contains(pkg_data.get("Package").unwrap(), pkg_data.get("Version").unwrap());
    assert!(should_skip, "arch:all package seen in primary should be skipped in secondary");

    let triples_again = collector.emit_package_triples_with_tracking(
        &mut writer,
        &pkg_data,
        &scope("stable", "arm64"),
        &mut tracking,
    );
    let triple_lines_after_second = writer.into_string().lines().count();

    assert!(triples_again > 0, "Non-skipped emit should produce triples");
    assert!(
        triple_lines_after_second > triple_lines_after_first,
        "Output should grow when package is NOT skipped (triple_lines: {} > {})",
        triple_lines_after_second,
        triple_lines_after_first
    );
}

#[test]
fn a_second_architecture_skips_what_fits_all() {
    let collector = collector();
    let lines: Vec<String> = INDEX.lines().map(|l| l.to_string()).collect();
    let mut seen = SeenPackages::new();
    let mut tracking = SourceTracking::new();
    let mut writer = NTriplesWriter::new();
    let first = collector
        .process_index(
            &mut writer,
            &lines,
            &None,
            &scope("stable", "amd64"),
            &mut seen,
            &mut tracking,
            false,
            None,
        )
        .unwrap();
    assert_eq!(first.0, 2);
    assert!(seen.contains("tzdata", "2024a-1"));
    let mut second = NTriplesWriter::new();
    let r = collector
        .process_index(
            &mut second,
            &lines,
            &None,
            &scope("stable", "arm64"),
            &mut seen,
            &mut tracking,
            true,
            None,
        )
        .unwrap();
    assert_eq!(r.0, 1);
    assert!(!second.into_string().contains("\"tzdata\""));
    assert!(second.into_string().contains("\"openssl\""));
}

#[test]
fn test_homepage_forge_triples() {
    let mut writer = NTriplesWriter::new();
    let pkg_data = fields(&[
        ("Package", "openssl"),
        ("Version", "3.2.2-1"),
        ("Homepage", "https://github.com/openssl/openssl"),
        ("Architecture", "amd64"),
    ]);
    collector().emit_package_triples(&mut writer, &pkg_data, &scope("testing", "amd64"));
    let content = writer.into_string();

    assert!(content.contains("hostedOn"), "Should emit hostedOn triple for GitHub");
    assert!(content.contains("Forge"), "Should emit Forge entity");
    assert!(content.contains("forgeSoftware"), "Should emit forgeSoftware triple");
}

#[test]
fn test_vcs_git_forge_triples() {
    let mut writer = NTriplesWriter::new();
    let pkg_data = fields(&[
        ("Package", "libc6"),
        ("Version", "2.36-9"),
        ("Vcs-Git", "https://salsa.debian.org/glibc-team/glibc.git -b trixie"),
        ("Architecture", "amd64"),
    ]);
    collector().emit_package_triples(&mut writer, &pkg_data, &scope("testing", "amd64"));
    let content = writer.into_string();

    assert!(content.contains("packagingRepository"), "Should emit packagingRepository");
    assert!(content.contains("hostedOn"), "Should emit hostedOn triple for salsa");
    assert!(content.contains("salsa.debian.org"), "Should reference salsa.debian.org forge");
}

#[test]
fn test_ecosystem_detection_python3() {
    let mut writer = NTriplesWriter::new();
    let pkg_data = fields(&[
        ("Package", "python3-requests"),
        ("Version", "2.31.0-1"),
        ("Homepage", "https://pypi.org/project/requests/"),
        ("Architecture", "all"),
    ]);
    collector().emit_package_triples(&mut writer, &pkg_data, &scope("testing", "all"));
    let content = writer.into_string();

    assert!(content.contains("upstreamEcosystem"), "Should detect PyPI ecosystem");
    assert!(content.contains("ecosystem/pypi"), "Should reference pypi ecosystem");
    assert!(content.contains("upstreamPackageName"), "Should emit upstream package name");
    assert!(
        content.contains("\"requests\""),
        "Should extract 'requests' from python3-requests"
    );
}

#[test]
fn a_release_file_names_its_release() {
    let info = parse_release("Origin: Debian\nSuite: testing\nCodename: trixie\n").unwrap();
    assert_eq!(info.codename, "trixie");
    assert_eq!(info.suite, "testing");
    assert_eq!(info.origin, "Debian");
}

#[test]
fn constraints_are_taken_apart() {
    for (stated, operator) in
        [("<<", "<"), ("<=", "≤"), ("=", "="), (">=", "≥"), (">>", ">"), ("<>", "<>")]
    {
        let limit = parse_version_constraint(&format!("{stated} 2.34 ")).unwrap();
        assert_eq!(limit.operator, operator);
        assert_eq!(limit.value, "2.34");
    }
    assert!(parse_version_constraint("nothing").is_none());
}

#[test]
fn an_index_ends_with_or_without_an_empty_line() {
    let lines: Vec<String> =
        "Package: a\nVersion: 1\n\nPackage: b\nVersion: 2".lines().map(|l| l.to_string()).collect();
    let records = parse_index(&lines, true);
    assert_eq!(records.ended.len(), 1);
    assert_eq!(records.open.unwrap().get("Package").unwrap(), "b");
}

#[test]
fn a_size_that_does_not_fit_is_an_error() {
    let index = format!("Package: a\nVersion: 1\nInstalled-Size: {}\n\n", i64::MAX);
    assert!(!has_fitting_size(&fields(&[("Installed-Size", &i64::MAX.to_string())])));
    assert!(has_fitting_size(&fields(&[("Installed-Size", "2400")])));
    let mut writer = NTriplesWriter::new();
    let r = collector().collect_with_writer(
        &mut writer,
        &gzipped(&index),
        &scope("stable", "amd64"),
        &mut SeenPackages::new(),
        &mut SourceTracking::new(),
        false,
        None,
    );
    assert_eq!(r.unwrap_err(), "Installed-Size out of range");
}

#[test]
fn an_index_that_is_not_packed_is_an_error() {
    let r = collector().collect_with_writer(
        &mut NTriplesWriter::new(),
        b"Package: a\n",
        &scope("stable", "amd64"),
        &mut SeenPackages::new(),
        &mut SourceTracking::new(),
        false,
        None,
    );
    assert!(r.is_err());
}

#[test]
fn only_servers_and_networks_are_tried_again() {
    assert_eq!(choose_retry(0, 3, HttpOutcome::Success), RetryChoice::Use);
    assert_eq!(choose_retry(0, 3, HttpOutcome::OtherStatus), RetryChoice::Fail);
    assert_eq!(choose_retry(0, 3, HttpOutcome::ServerError), RetryChoice::Retry { wait_ms: 2000 });
    assert_eq!(choose_retry(2, 3, HttpOutcome::NetworkError), RetryChoice::Retry { wait_ms: 8000 });
    assert_eq!(choose_retry(3, 3, HttpOutcome::NetworkError), RetryChoice::Fail);
    assert_eq!(
        choose_retry(53, 54, HttpOutcome::ServerError),
        RetryChoice::Retry { wait_ms: 18_014_398_509_481_984_000 }
    );
}
