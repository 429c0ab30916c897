use pg_collect::cargo_collect::{RetryStep, MAX_ATTEMPTS};
use pg_collect::cpan::{
    discovered_seeds, read_cpan_seed_file, read_seed_file, CpanCollector, MetaCpanDependency,
    MetaCpanRelease, ReleaseReply, ReleaseRequest, TransportStats,
};
use pg_collect::ntriples::NTriplesWriter;

fn text(v: &serde_json::Value) -> Option<String> {
    v.as_str().map(|s| s.to_string())
}

fn release(json: &str) -> Result<MetaCpanRelease, String> {
    let v: serde_json::Value = serde_json::from_str(json).map_err(|e| e.to_string())?;
    Ok(MetaCpanRelease {
        distribution: text(&v["distribution"]).unwrap(),
        version: text(&v["version"]).unwrap(),
        abstract_text: text(&v["abstract"]),
        author: text(&v["author"]).unwrap(),
        status: text(&v["status"]),
        license: v["license"]
            .as_array()
            .map(|a| a.iter().map(|l| text(l).unwrap()).collect())
            .unwrap_or_default(),
        dependency: vec![],
        homepage: None,
        repository_url: None,
    })
}

#[test]
fn test_read_cpan_seed_file() {
    let names = read_cpan_seed_file("# Comment\nMoose\n\nDBI\n");
    assert_eq!(names.len(), 2);
    assert_eq!(names[0], "DBI");
    assert_eq!(names[1], "Moose");
}

#[test]
fn test_metacpan_release_deserialization() {
    let json = r#"{
            "distribution": "Moose",
            "version": "2.2206",
            "abstract": "A postmodern object system for Perl 5",
            "author": "ETHER",
            "status": "latest",
            "license": ["perl_5"],
            "dependency": []
        }"#;

    let release = release(json).unwrap();
    assert_eq!(release.distribution, "Moose");
    assert_eq!(release.version, "2.2206");
    assert_eq!(release.author, "ETHER");
}

fn dbi() -> MetaCpanRelease {
    MetaCpanRelease {
        distribution: "DBI".to_string(),
        version: "1.643".to_string(),
        abstract_text: Some("Database independent interface for Perl".to_string()),
        author: "TIMB".to_string(),
        status: Some("latest".to_string()),
        license: vec!["perl_5".to_string()],
        dependency: vec![],
        homepage: None,
        repository_url: None,
    }
}

#[test]
fn test_emit_cpan_distribution_dual_typing() {
    let collector = CpanCollector::new("https://fastapi.metacpan.org".into());
    let mut writer = NTriplesWriter::new();
    let triples = collector.emit_distribution_triples(&mut writer, &dbi());
    let content = writer.into_string();

    assert!(content.contains("core#Package"));
    assert!(content.contains("cpan#Distribution"));
    assert!(content.contains("\"DBI\""));
    assert!(content.contains("\"1.643\""));
    assert!(content.contains("cpan#authorPAUSEID"));
    assert!(content.contains("\"TIMB\""));
    assert!(triples > 10);
    assert_eq!(triples, writer.len());
}

#[test]
fn characterize_cpan_returns_release_on_200() {
    let c = CpanCollector::new("http://127.0.0.1:1234".into());
    assert_eq!(c.release_url("Try-Tiny"), "http://127.0.0.1:1234/v1/release/Try-Tiny");
    let rel = release(r#"{"distribution":"Try-Tiny","version":"0.31","author":"ETHER"}"#)
        .expect("200 should yield a release");
    assert_eq!(rel.distribution, "Try-Tiny");
    assert_eq!(rel.version, "0.31");
    let mut writer = NTriplesWriter::new();
    let (n, _) = c.collect(&mut writer, &vec![ReleaseReply::Found(rel)]);
    assert_eq!(n, 1);
    assert!(writer.into_string().contains("\"Try-Tiny\""));
}

#[test]
fn characterize_cpan_404_is_terminal() {
    let c = CpanCollector::new("http://127.0.0.1:1234".into());
    assert_eq!(c.release_url("No-Such-Dist"), "http://127.0.0.1:1234/v1/release/No-Such-Dist");
    let err = c.failure_message("No-Such-Dist", true, "not found");
    assert_eq!(err, "404: No-Such-Dist");
}

#[test]
fn characterize_cpan_malformed_body_is_a_parse_error() {
    let c = CpanCollector::new("http://127.0.0.1:1234".into());
    assert_eq!(c.release_url("Bad-Dist"), "http://127.0.0.1:1234/v1/release/Bad-Dist");
    let parse_error = release("{not json").err().unwrap();
    let err = c.failure_message("Bad-Dist", false, &parse_error);
    assert!(!err.starts_with("404:"), "got: {err}");
}

#[test]
fn a_missing_release_is_passed_over() {
    let c = CpanCollector::new("http://h".into());
    let mut writer = NTriplesWriter::new();
    let replies = vec![ReleaseReply::Failed("404: A".to_string()), ReleaseReply::Found(dbi())];
    let (n, triples) = c.collect(&mut writer, &replies);
    assert_eq!(n, 1);
    let mut head = NTriplesWriter::new();
    c.emit_distribution_metadata(&mut head);
    assert_eq!(triples + head.len(), writer.len());
}

#[test]
fn what_a_release_needs_is_written() {
    let c = CpanCollector::new("http://h".into());
    let mut rel = dbi();
    let need = |module: &str, phase: &str| MetaCpanDependency {
        module: module.to_string(),
        phase: phase.to_string(),
        relationship: "requires".to_string(),
        version: Some("0.98".to_string()),
    };
    rel.dependency = vec![need("Test::More", "test"), need("Try::Tiny", "runtime")];
    let mut without = NTriplesWriter::new();
    let mut with = NTriplesWriter::new();
    c.emit_distribution_triples(&mut without, &dbi());
    c.emit_distribution_triples(&mut with, &rel);
    assert!(with.len() > without.len());
    assert!(with.into_string().contains("Tiny"));
    assert!(!with.into_string().contains("More"));
}

#[test]
fn seeds_keep_their_order_where_nothing_sorts_them() {
    let content = "zlib\n# a comment\n\n  serde \nzlib\n";
    assert_eq!(read_seed_file(content), vec!["zlib", "serde", "zlib"]);
    assert_eq!(read_cpan_seed_file(content), vec!["serde", "zlib"]);
    let found = vec!["Moose".to_string(), " ".to_string(), "JSON".to_string(), "Moose".to_string()];
    assert_eq!(discovered_seeds(&found), vec!["JSON", "Moose"]);
}

#[test]
fn characterize_cpan_429_is_retried_then_succeeds() {
    let mut c = CpanCollector::new("http://127.0.0.1:1234".into());
    assert_eq!(c.release_url("Slow-Dist"), "http://127.0.0.1:1234/v1/release/Slow-Dist");
    let limited = ReleaseRequest::Limited { retry_after: Some(1) };
    assert_eq!(c.fetch_release_with_retry(0, &limited), RetryStep::Wait { ms: 1000 });
    assert_eq!(c.fetch_release_with_retry(1, &ReleaseRequest::Answered), RetryStep::Use);
    assert_eq!(c.transport_stats(), TransportStats { requests: 2, retries: 1, failures: 0 });
    let rel =
        release(r#"{"distribution":"Slow-Dist","version":"1.0","author":"X"}"#).unwrap();
    assert_eq!(rel.distribution, "Slow-Dist");
}

#[test]
fn requests_are_counted_and_given_up() {
    let mut c = CpanCollector::new("http://h".into());
    let plain = ReleaseRequest::Limited { retry_after: None };
    assert_eq!(c.fetch_release_with_retry(2, &plain), RetryStep::Wait { ms: 4000 });
    let broken = ReleaseRequest::Broken;
    assert_eq!(c.fetch_release_with_retry(3, &broken), RetryStep::Wait { ms: 8000 });
    assert_eq!(c.fetch_release_with_retry(MAX_ATTEMPTS - 1, &broken), RetryStep::GiveUp);
    assert_eq!(c.fetch_release_with_retry(MAX_ATTEMPTS - 1, &plain), RetryStep::GiveUp);
    assert_eq!(c.fetch_release_with_retry(0, &ReleaseRequest::Refused), RetryStep::GiveUp);
    assert_eq!(c.fetch_release_with_retry(0, &ReleaseRequest::Missing), RetryStep::Missing);
    let counts = TransportStats { requests: 6, retries: 2, failures: 3 };
    assert_eq!(c.transport_stats(), counts);
    assert_eq!(c.with_graph(Some("urn:g".to_string())).transport_stats(), counts);
}
