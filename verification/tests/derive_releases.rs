use pg_collect::derive_releases::{
    collect_dates, count_identities, datetime_to_date, detect_ecosystem, epoch_to_date,
    extract_identity_uris, graph_query, has_splitting_times, Ecosystem, ReleaseDeriver,
};
use pg_collect::failure::{CollectError, ErrorKind};
use pg_collect::ntriples::NTriplesWriter;
use pg_collect::textmap::{Fields, TextMap};

#[test]
fn test_datetime_to_date() {
    assert_eq!(datetime_to_date("2024-04-18T16:00:00Z"), Some("2024-04-18".to_string()));
    assert_eq!(datetime_to_date("2026-01-15T08:30:45Z"), Some("2026-01-15".to_string()));
    assert_eq!(datetime_to_date(""), None);
    assert_eq!(datetime_to_date("2024"), None);
}

#[test]
fn a_date_is_ten_bytes_not_ten_characters() {
    assert_eq!(datetime_to_date("éé345678"), Some("éé345678".to_string()));
    assert_eq!(datetime_to_date("éé345678T"), Some("éé345678".to_string()));
    assert_eq!(datetime_to_date("éé34567"), None);
}

#[test]
fn test_epoch_to_date() {
    assert_eq!(epoch_to_date(1713456000), Some("2024-04-18".to_string()));
    assert_eq!(epoch_to_date(0), Some("1970-01-01".to_string()));
    assert_eq!(epoch_to_date(-1), Some("1969-12-31".to_string()));
    assert_eq!(epoch_to_date(i64::MAX), None);
}

#[test]
fn test_detect_ecosystem() {
    assert_eq!(
        detect_ecosystem("https://packagegraph.github.io/graph/fedora/43"),
        Ecosystem::Rpm
    );
    assert_eq!(detect_ecosystem("https://packagegraph.github.io/graph/rhel/9"), Ecosystem::Rpm);
    assert_eq!(
        detect_ecosystem("https://packagegraph.github.io/graph/centos-stream/10"),
        Ecosystem::Rpm
    );
    assert_eq!(
        detect_ecosystem("https://packagegraph.github.io/graph/opensuse/tumbleweed"),
        Ecosystem::Rpm
    );
    assert_eq!(
        detect_ecosystem("https://packagegraph.github.io/graph/alpine/v3.20"),
        Ecosystem::Alpine
    );
    assert_eq!(
        detect_ecosystem("https://packagegraph.github.io/graph/debian/trixie"),
        Ecosystem::Unsupported
    );
    assert_eq!(detect_ecosystem("https://x/graph/FEDORA/43"), Ecosystem::Rpm);
}

fn fields(pairs: &[(&str, &str)]) -> Fields {
    let mut f: Fields = TextMap::new();
    for (k, v) in pairs {
        f.insert(k.to_string(), v.to_string());
    }
    f
}

#[test]
fn the_later_date_of_a_package_counts_across_graphs() {
    let deriver = ReleaseDeriver::new("http://h");
    let graphs = vec![
        "https://x/graph/fedora/43".to_string(),
        "https://x/graph/fedora/43-updates".to_string(),
        "https://x/graph/alpine/v3.20".to_string(),
        "https://x/graph/debian/trixie".to_string(),
    ];
    let replies = vec![
        Ok(vec![
            fields(&[("identity", "urn:a"), ("maxBuildTime", "2024-04-18T16:00:00Z")]),
            fields(&[("identity", "urn:b"), ("maxBuildTime", "2025-01-01T00:00:00Z")]),
            fields(&[("identity", "urn:c"), ("maxBuildTime", "2025")]),
        ]),
        Ok(vec![
            fields(&[("identity", "urn:a"), ("maxBuildTime", "2024-06-01T00:00:00Z")]),
            fields(&[("identity", "urn:b"), ("maxBuildTime", "2023-01-01T00:00:00Z")]),
        ]),
        Ok(vec![
            fields(&[("identity", "urn:d"), ("maxBuildDate", "1713456000")]),
            fields(&[("identity", "urn:e"), ("maxBuildDate", "soon")]),
        ]),
        Ok(vec![fields(&[("count", "7")])]),
    ];
    let mut w = NTriplesWriter::new();
    let report = deriver.derive(&mut w, &graphs, &replies).unwrap().unwrap();
    let p = "https://purl.org/packagegraph/ontology/core#lastReleaseDate";
    let d = "http://www.w3.org/2001/XMLSchema#date";
    assert_eq!(
        w.into_string(),
        format!(
            "<urn:a> <{p}> \"2024-06-01\"^^<{d}> .\n<urn:b> <{p}> \"2025-01-01\"^^<{d}> .\n<urn:d> <{p}> \"2024-04-18\"^^<{d}> .\n"
        )
    );
    assert_eq!(report.derived, 3);
    assert_eq!(report.triples, 3);
    assert_eq!(report.unsupported, 7);
    assert_eq!(report.total_identities, 10);
    assert_eq!(report.by_ecosystem.rpm, 4);
    assert_eq!(report.by_ecosystem.alpine, 1);
    assert_eq!(report.by_ecosystem.unsupported, 7);
    assert_eq!(extract_identity_uris(&w.into_string()), vec!["urn:a", "urn:b", "urn:d"]);
}

#[test]
fn a_failing_query_stops_a_run_before_anything_is_written() {
    let deriver = ReleaseDeriver::new("http://h");
    let graphs = vec!["https://x/fedora".to_string(), "https://x/rhel".to_string()];
    let replies = vec![
        Ok(vec![fields(&[("identity", "urn:a"), ("maxBuildTime", "2024-04-18T16:00:00Z")])]),
        Err(CollectError::new(ErrorKind::Other, "HTTP 503".to_string())),
    ];
    let mut w = NTriplesWriter::new();
    let err = deriver.derive(&mut w, &graphs, &replies).unwrap().unwrap_err();
    assert_eq!((err.kind, err.message.as_str()), (ErrorKind::Other, "HTTP 503"));
    assert_eq!(w.len(), 0);
}

#[test]
fn counts_that_do_not_fit_are_refused() {
    let deriver = ReleaseDeriver::new("http://h");
    let graphs = vec!["https://x/debian".to_string(), "https://x/arch".to_string()];
    let max = usize::MAX.to_string();
    let replies = vec![Ok(vec![fields(&[("count", &max)])]), Ok(vec![fields(&[("count", "1")])])];
    let mut w = NTriplesWriter::new();
    assert!(deriver.derive(&mut w, &graphs, &replies).is_none());
}

#[test]
fn a_count_that_is_no_number_is_zero() {
    assert_eq!(count_identities(&vec![]), 0);
    assert_eq!(count_identities(&vec![fields(&[("count", "-1")])]), 0);
    assert_eq!(count_identities(&vec![fields(&[("count", "+12")])]), 12);
    assert_eq!(count_identities(&vec![fields(&[("other", "1")])]), 0);
}

#[test]
fn the_last_row_about_a_package_counts() {
    let rows = vec![
        fields(&[("identity", "urn:a"), ("maxBuildTime", "2024-04-18T16:00:00Z")]),
        fields(&[("identity", "urn:a"), ("maxBuildTime", "2020-01-01T00:00:00Z")]),
        fields(&[("identity", "urn:b")]),
    ];
    assert!(has_splitting_times(&rows));
    let dates = collect_dates(Ecosystem::Rpm, &rows);
    assert_eq!(dates.len(), 1);
    assert_eq!(dates.get("urn:a").unwrap(), "2020-01-01");
    assert!(!has_splitting_times(&vec![fields(&[
        ("identity", "urn:a"),
        ("maxBuildTime", "2024-04-1é")
    ])]));
}

#[test]
fn each_ecosystem_has_its_query() {
    assert!(graph_query("https://x/fedora").contains("rpm:buildTime"));
    assert!(graph_query("https://x/alpine").contains("apk:buildDate"));
    assert!(graph_query("https://x/debian").contains("COUNT(DISTINCT ?identity)"));
    assert!(graph_query("https://x/debian").contains("GRAPH <https://x/debian> {"));
}

#[test]
fn lines_without_a_subject_are_passed_over() {
    let text = "<a> <p> \"v\" .\n_:b <p> \"v\" .\n\n<broken\n<c> <p> <o> .\n";
    assert_eq!(extract_identity_uris(text), vec!["a", "c"]);
}
