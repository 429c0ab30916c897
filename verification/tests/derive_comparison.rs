use pg_collect::derive_comparison::{
    aggregate_source_rows, assessment_iri, build_report, check_pairs, distinct_graphs, parse_pair,
    rebuild_terms, select_builds, snapshot_iri, staging_name, valid_run_token, Assessment, Build,
    Drift, Fidelity, GraphReply, LoadAction, LoadEvent, LoadExpectations, LoadState, Pair, PairData,
    RebuildComparisonDeriver, RebuildReport, SourceRow,
};
use pg_collect::failure::{CollectError, ErrorKind};
use pg_collect::ntriples::{PKG, XSD};
use pg_collect::staging::{
    assessment_count_query, assessment_subjects_query, at_most_one_check, atomic_swap_update,
    datatype_check, distribution_count_query, exactly_one_check, snapshot_subjects_query,
    staging_checks, term_type_query,
};
use pg_collect::textmap::{Fields, TextMap};

#[test]
fn parse_pair_requires_absolute_iris() {
    let p = parse_pair("https://x/graph/almalinux/9=https://x/graph/rhel/9").unwrap();
    assert!(p.rebuild_graph.ends_with("almalinux/9"));
    assert!(parse_pair("almalinux/9=rhel/9").is_err());
    assert!(parse_pair("https://x/a").is_err());
}

#[test]
fn parse_pair_rejects_iri_injection_chars() {
    assert!(parse_pair("https://x/graph/a>evil=https://x/graph/rhel/9").is_err());
    assert!(parse_pair("https://x/graph/a=https://x/graph/rhel>9").is_err());
    assert!(parse_pair("https://x/graph/a b=https://x/graph/rhel/9").is_err());
    assert!(parse_pair("https://x/graph/almalinux/9=https://x/graph/rhel/9").is_ok());
}

#[test]
fn a_pair_says_what_is_wrong_with_it() {
    assert_eq!(
        parse_pair("https://x/a").err().unwrap().message,
        "--pair must be rebuild=rhel, got: https://x/a"
    );
    assert_eq!(
        parse_pair("https://x/a=ftp://b").err().unwrap().message,
        "--pair IRIs must be absolute, got: ftp://b"
    );
    assert_eq!(
        parse_pair("https://x/a=https://b\\c").err().unwrap().message,
        "--pair IRIs must not contain <, >, \", {, }, |, \\, ^, backtick, or whitespace, got: https://b\\c"
    );
}

#[test]
fn atomic_swap_update_replaces_prod_from_staging() {
    let u = atomic_swap_update(
        "https://packagegraph.github.io/graph/derived/rhel-rebuilds",
        "https://packagegraph.github.io/graph/derived/rhel-rebuilds-staging-RUN1",
    );
    assert!(u.contains(
        "DROP SILENT GRAPH <https://packagegraph.github.io/graph/derived/rhel-rebuilds>"
    ));
    assert!(u.contains("COPY <https://packagegraph.github.io/graph/derived/rhel-rebuilds-staging-RUN1> TO <https://packagegraph.github.io/graph/derived/rhel-rebuilds>"));
    assert!(u.contains("DROP SILENT GRAPH <https://packagegraph.github.io/graph/derived/rhel-rebuilds-staging-RUN1>"));
    assert_eq!(
        atomic_swap_update("p", "s"),
        "DROP SILENT GRAPH <p> ;\nCOPY <s> TO <p> ;\nDROP SILENT GRAPH <s>"
    );
}

#[test]
fn ontology_gate_checks_the_reified_terms() {
    let terms = rebuild_terms();
    for term in &terms {
        let q = term_type_query(term);
        assert!(q.contains(term.as_str()), "gate query for {term} must reference it");
    }
    assert_eq!(terms.len(), 11);
    assert!(terms.contains(&"RebuildAssessment".to_string()));
    assert!(terms.contains(&"assessedAgainstSnapshot".to_string()));
    assert!(terms.contains(&"RebuildFidelityScheme".to_string()));
    assert!(terms.contains(&"RebuildDriftScheme".to_string()));
    assert!(!terms.contains(&"rebuildTrackingStatus".to_string()));
    assert_eq!(
        term_type_query("x"),
        format!("SELECT ?p WHERE {{ <{PKG}x> a ?p }} LIMIT 1")
    );
}

fn lost(message: &str) -> CollectError {
    CollectError::new(ErrorKind::Other, message.to_string())
}

fn pair(rebuild: &str, rhel: &str) -> Pair {
    Pair { rebuild_graph: rebuild.to_string(), rhel_graph: rhel.to_string() }
}

#[test]
fn derive_rejects_a_pair_whose_rebuild_and_upstream_graph_are_the_same() {
    let deriver = RebuildComparisonDeriver::new("http://127.0.0.1:1/unused");
    let pairs = vec![pair("https://x/graph/rhel/9", "https://x/graph/rhel/9")];
    let err = deriver
        .derive(&pairs, &vec![], &vec![], "run-1", "2026-09-04T00:00:00Z")
        .err()
        .unwrap();
    assert_eq!(err.kind, ErrorKind::InvalidData);
    assert!(err.message.contains("cannot be its own upstream"));
}

#[test]
fn derive_rejects_duplicate_rebuild_graphs() {
    let deriver = RebuildComparisonDeriver::new("http://127.0.0.1:0/none");
    let pairs = vec![
        pair("https://x/graph/alma/9", "https://x/graph/rhel/9"),
        pair("https://x/graph/alma/9", "https://x/graph/rhel/10"),
    ];
    let err = deriver
        .derive(&pairs, &vec![], &vec![], "run-1", "2026-09-04T00:00:00Z")
        .err()
        .unwrap();
    assert_eq!(err.kind, ErrorKind::InvalidData);
    assert!(
        err.message.contains("https://x/graph/alma/9"),
        "error must name the duplicate: {err:?}"
    );
    assert!(check_pairs(&vec![pair("https://a", "https://b"), pair("https://c", "https://b")])
        .is_ok());
}

#[test]
fn valid_run_token_rejects_whitespace_and_injection() {
    assert!(!valid_run_token("has space"));
    assert!(!valid_run_token("evil>graph"));
    assert!(!valid_run_token(""));
    assert!(!valid_run_token("bad/slash"));
    assert!(!valid_run_token("bad{brace"));
    assert!(valid_run_token("1735689600-deriver-abc123"));
    assert!(valid_run_token("RUN.1_v2-final"));
}

#[test]
fn exactly_one_and_at_most_one_checks_reference_the_predicate() {
    let (_, q1) = exactly_one_check("urn:staging", "assessmentOf");
    assert!(q1.contains("pkg:assessmentOf"));
    assert!(q1.contains("HAVING(?n != 1)"));
    let (_, q2) = at_most_one_check("urn:staging", "rebuildFidelity");
    assert!(q2.contains("pkg:rebuildFidelity"));
    assert!(q2.contains("HAVING(?n > 1)"));
}

#[test]
fn datatype_check_references_predicate_and_type() {
    let (_, q) = datatype_check("urn:staging", "assessedAt", &format!("{XSD}dateTime"));
    assert!(q.contains("pkg:assessedAt"));
    assert!(q.contains("xsd") || q.contains("XMLSchema"));
}

#[test]
fn staging_checks_cover_the_new_shape() {
    let checks = staging_checks("urn:staging", &vec!["urn:rhel9".to_string()]);
    let descs: Vec<&str> = checks.iter().map(|c| c.description.as_str()).collect();
    for expected in [
        "concept outside RebuildFidelityScheme",
        "concept outside RebuildDriftScheme",
        "hasUpstreamCounterpart=false",
        "hasUpstreamCounterpart=true",
        "rebuildDrift present",
        "matched fidelity",
        "fidelity-unknown",
        "ambiguousCandidate",
        "self-baseline",
        "unexpected",
        "pkg:DataSnapshot",
        "rdfs:label",
        "pkg:rebuildOf",
        "lineageConfirmed",
        "lineageEvidence",
    ] {
        assert!(
            descs.iter().any(|d| d.contains(expected)),
            "missing a staging check whose description mentions {expected:?}; got {descs:?}"
        );
    }
    assert_eq!(checks.len(), 35);
}

#[test]
fn snapshot_label_check_rejects_empty_and_whitespace_labels_not_just_absence() {
    let checks = staging_checks("urn:staging", &vec!["urn:rhel9".to_string()]);
    let label_check = checks
        .iter()
        .find(|c| c.description.contains("rdfs:label"))
        .expect("a staging check must reference rdfs:label");
    assert!(
        label_check.query.contains("STRLEN") || label_check.query.contains("strlen"),
        "the rdfs:label check must filter on label length/content, not just presence; got: {}",
        label_check.query
    );
    assert!(label_check.query.contains("REPLACE(STR(?l), \"^\\\\s+|\\\\s+$\", \"\")"));
}

#[test]
fn snapshot_type_check_scopes_not_exists_to_the_staging_graph() {
    let checks = staging_checks("urn:staging", &vec!["urn:rhel9".to_string()]);
    let type_check = checks
        .iter()
        .find(|c| c.description.contains("pkg:DataSnapshot"))
        .expect("a staging check must reference pkg:DataSnapshot");
    assert!(
        type_check.query.contains("GRAPH <urn:staging> { ?s a pkg:DataSnapshot }")
            || type_check.query.matches("GRAPH <urn:staging>").count() >= 2,
        "the pkg:DataSnapshot type check's FILTER NOT EXISTS must explicitly \
         re-scope to GRAPH <staging>, not rely on outer-scope inheritance \
         (which does not hold on a non-union dataset); got: {}",
        type_check.query
    );
}

#[test]
fn a_baseline_must_be_in_one_of_the_upstream_graphs() {
    let graphs = vec!["urn:a".to_string(), "urn:b".to_string()];
    let checks = staging_checks("urn:staging", &graphs);
    let check = checks.iter().find(|c| c.description.starts_with("unexpected")).unwrap();
    assert!(check.query.ends_with(
        "FILTER NOT EXISTS { { GRAPH <urn:a> { ?b a pkg:SourcePackage } } UNION { GRAPH <urn:b> { ?b a pkg:SourcePackage } } } }"
    ));
    let check = checks.iter().find(|c| c.description.contains("RebuildDriftScheme")).unwrap();
    assert!(check.query.contains(
        "(pkg:drift-even, pkg:drift-ahead, pkg:drift-behind, pkg:drift-version-equivalent)"
    ));
}

fn row(name: &str, uri: &str, epoch: i64, version: &str, release: &str) -> SourceRow {
    SourceRow {
        name: name.to_string(),
        uri: uri.to_string(),
        epoch,
        version: version.to_string(),
        release: release.to_string(),
    }
}

#[test]
fn epoch_aggregation_collapses_rows_taking_max_epoch() {
    let rows = vec![
        row("openssl", "src:openssl", 0, "3.5.5", "6.el9"),
        row("openssl", "src:openssl", 1, "3.5.5", "6.el9"),
    ];
    let out = aggregate_source_rows(&rows);
    assert_eq!(out.len(), 1, "same source URI must collapse to one Build");
    assert_eq!(out[0].0, "openssl");
    assert_eq!(out[0].1.epoch, 1, "epoch must be the MAX across rows");
    assert_eq!(out[0].1.version, "3.5.5");
    assert_eq!(out[0].1.release, "6.el9");
}

#[test]
fn iris_are_scoped_to_run_token() {
    let a1 = assessment_iri("https://x/src/rhel/9/foo/1.0-1", "run-1");
    let a2 = assessment_iri("https://x/src/rhel/9/foo/1.0-1", "run-2");
    assert_ne!(a1, a2);
    assert!(a1.starts_with("https://x/src/rhel/9/foo/1.0-1/assessment/"));

    let s1 = snapshot_iri("https://x/graph/rhel/9", "run-1");
    let s2 = snapshot_iri("https://x/graph/rhel/9", "run-2");
    assert_ne!(s1, s2);
    assert_eq!(snapshot_iri("https://x/graph/rhel/9", "run-1"), s1);
}

fn build(uri: &str, epoch: i64, version: &str, release: &str) -> Build {
    Build {
        node_uri: uri.to_string(),
        epoch,
        version: version.to_string(),
        release: release.to_string(),
    }
}

fn matching(concept: &str, confidence: &str, baseline: &str) -> Fidelity {
    Fidelity {
        concept: concept.to_string(),
        confidence: confidence.to_string(),
        baseline: Some(baseline.to_string()),
        ambiguous_candidates: vec![],
    }
}

fn unknown(confidence: &str, candidates: &[&str]) -> Fidelity {
    Fidelity {
        concept: "fidelity-unknown".to_string(),
        confidence: confidence.to_string(),
        baseline: None,
        ambiguous_candidates: candidates.iter().map(|c| c.to_string()).collect(),
    }
}

fn drifting(concept: &str, against: &str) -> Drift {
    Drift { concept: concept.to_string(), compared_against: against.to_string() }
}

fn absent() -> Assessment {
    Assessment { has_upstream_counterpart: false, fidelity: None, drift: None }
}

fn present(fidelity: Fidelity, drift: Drift) -> Assessment {
    Assessment { has_upstream_counterpart: true, fidelity: Some(fidelity), drift: Some(drift) }
}

fn total(counts: &TextMap<pg_collect::derive_comparison::Count>) -> usize {
    (0..counts.len()).map(|i| counts.value_at(i).n).sum()
}

#[test]
fn build_report_end_to_end_case_coverage() {
    let pairs_data = vec![PairData {
        rebuild_dist: "https://x/d/distro/almalinux".into(),
        rhel_dist: "https://x/d/distro/rhel".into(),
        rhel_graph: "https://x/graph/rhel/9".into(),
        rebuild_builds: vec![
            ("openssl".into(), build("alma:openssl", 0, "3.5.5", "6.el9_8")),
            ("bar".into(), build("alma:bar", 0, "1.0", "1.el9")),
            ("rocky-logos".into(), build("alma:rocky-logos", 0, "90", "1.el9")),
        ],
        rhel_builds: vec![
            ("openssl".into(), build("rhel:openssl", 0, "3.5.5", "6.el9_8")),
            ("bar".into(), build("rhel:bar", 0, "1.2", "1.el9")),
        ],
    }];
    let chosen = select_builds(&pairs_data[0]);
    assert_eq!(chosen.len(), 3);
    assert_eq!(chosen[0].newest.node_uri, "alma:openssl");
    assert_eq!(chosen[0].upstream.len(), 1);
    assert!(chosen[2].upstream.is_empty());
    let assessments = vec![vec![
        present(
            matching("fidelity-exact", "1.0", "rhel:openssl"),
            drifting("drift-even", "rhel:openssl"),
        ),
        present(unknown("0.0", &[]), drifting("drift-behind", "rhel:bar")),
        absent(),
    ]];

    let (nt, report) = build_report(&pairs_data, &assessments, "run-abc", "2026-09-04T00:00:00Z");

    assert_eq!(report.pairs, 1);
    assert_eq!(report.assessments, 3);
    assert_eq!(report.presence_true, 2);
    assert_eq!(report.presence_false, 1);
    assert_eq!(report.assessment_subjects.len(), 3);
    assert_eq!(report.assessment_subjects.len(), report.assessments);
    assert_eq!(total(&report.fidelity_counts), report.presence_true);
    assert_eq!(total(&report.drift_counts), report.presence_true);
    assert_eq!(report.distribution_count, 1);
    assert_eq!(report.snapshot_subjects.len(), 1);
    assert_eq!(report.triples, nt.lines().count());

    assert_eq!(nt.matches("<http://www.w3.org/1999/02/22-rdf-syntax-ns#type> <https://purl.org/packagegraph/ontology/core#DataSnapshot>").count(), 1);
    assert!(nt.contains("#snapshotTimestamp> \"2026-09-04T00:00:00Z\"^^<http://www.w3.org/2001/XMLSchema#dateTime>"));
    assert!(nt.contains("#snapshotSource> \"https://x/graph/rhel/9\""));
    assert!(!nt.contains("#rebuildOf>"));
    assert!(!nt.contains("lineageConfirmed> \"true\""));
    assert!(!nt.contains("#lineageEvidence>"));
    assert!(nt.contains("\"rebuild-norm/v1-nostream\""));
    assert!(!nt.contains("\"rebuild-norm/v1\""));
    assert!(nt.contains("#fidelityBaseline> <rhel:openssl>"));
    assert!(nt.contains("#fidelity-exact>"));
    assert!(nt.contains("#drift-even>"));
    let rocky_assessment_prefix = "alma:rocky-logos/assessment/";
    assert!(nt
        .lines()
        .any(|l| l.contains(rocky_assessment_prefix)
            && l.contains("hasUpstreamCounterpart> \"false\"")));
}

#[test]
fn dedup_writer_collapses_repeated_snapshot_definition() {
    let make_pair = |rb_dist: &str| PairData {
        rebuild_dist: rb_dist.into(),
        rhel_dist: "https://x/d/distro/rhel".into(),
        rhel_graph: "https://x/graph/rhel/9".into(),
        rebuild_builds: vec![("foo".into(), build(&format!("{rb_dist}:foo"), 0, "1.0", "1.el9"))],
        rhel_builds: vec![("foo".into(), build("rhel:foo", 0, "1.0", "1.el9"))],
    };
    let pairs_data =
        vec![make_pair("https://x/d/distro/almalinux"), make_pair("https://x/d/distro/rocky")];
    let exact = || {
        vec![present(
            matching("fidelity-exact", "1.0", "rhel:foo"),
            drifting("drift-even", "rhel:foo"),
        )]
    };
    let (nt, report) =
        build_report(&pairs_data, &vec![exact(), exact()], "run-1", "2026-09-04T00:00:00Z");
    assert_eq!(report.snapshot_subjects.len(), 1);
    assert_eq!(nt.matches("<http://www.w3.org/1999/02/22-rdf-syntax-ns#type> <https://purl.org/packagegraph/ontology/core#DataSnapshot>").count(), 1);
    assert_eq!(nt.matches("http://www.w3.org/2000/01/rdf-schema#label>").count(), 1);
    assert_eq!(nt.matches("#snapshotTimestamp>").count(), 1);
    assert_eq!(nt.matches("#snapshotSource>").count(), 1);
    assert!(nt.contains("#snapshotSource> \"https://x/graph/rhel/9\""));
    assert_eq!(report.distribution_count, 2);
    assert_eq!(report.fidelity_counts.get("fidelity-exact").unwrap().n, 2);
}

#[test]
fn ambiguous_tie_emits_multiple_candidates_and_no_baseline() {
    let pairs_data = vec![PairData {
        rebuild_dist: "https://x/d/distro/almalinux".into(),
        rhel_dist: "https://x/d/distro/rhel".into(),
        rhel_graph: "https://x/graph/rhel/9".into(),
        rebuild_builds: vec![("tied-pkg".into(), build("alma:tied-pkg", 0, "1.0", "1.el9"))],
        rhel_builds: vec![
            ("tied-pkg".into(), build("rhel:tied-pkg-a", 0, "1.0", "1.el9")),
            ("tied-pkg".into(), build("rhel:tied-pkg-b", 0, "1.0", "1.el9")),
        ],
    }];
    let upstream = &select_builds(&pairs_data[0])[0].upstream;
    assert_eq!(upstream.len(), 2);
    let assessments = vec![vec![present(
        unknown("0.5", &["rhel:tied-pkg-a", "rhel:tied-pkg-b"]),
        drifting("drift-even", "rhel:tied-pkg-a"),
    )]];

    let (nt, report) =
        build_report(&pairs_data, &assessments, "run-token", "2026-09-08T00:00:00Z");

    assert_eq!(report.ambiguous_count, 1);

    let assessment = assessment_iri("alma:tied-pkg", "run-token");
    let subject_tag = format!("<{assessment}>");
    let lines: Vec<&str> = nt.lines().filter(|l| l.starts_with(&subject_tag)).collect();
    assert!(!lines.is_empty());

    assert_eq!(lines.iter().filter(|l| l.contains("#rebuildFidelity>")).count(), 1);
    assert!(lines.iter().any(|l| l.contains(
        "#rebuildFidelity> <https://purl.org/packagegraph/ontology/core#fidelity-unknown>"
    )));

    assert_eq!(lines.iter().filter(|l| l.contains("#assessmentConfidence>")).count(), 1);
    assert!(lines.iter().any(|l| l.contains(
        "#assessmentConfidence> \"0.5\"^^<http://www.w3.org/2001/XMLSchema#decimal>"
    )));

    assert_eq!(lines.iter().filter(|l| l.contains("#ambiguousCandidate>")).count(), 2);
    assert!(lines.iter().any(|l| l.contains("#ambiguousCandidate> <rhel:tied-pkg-a>")));
    assert!(lines.iter().any(|l| l.contains("#ambiguousCandidate> <rhel:tied-pkg-b>")));

    assert!(!lines.iter().any(|l| l.contains("#fidelityBaseline>")));
}

#[test]
fn the_newest_build_of_a_name_is_selected() {
    let p = PairData {
        rebuild_dist: "d".into(),
        rhel_dist: "u".into(),
        rhel_graph: "g".into(),
        rebuild_builds: vec![
            ("a".into(), build("a:1", 0, "1.9", "1")),
            ("a".into(), build("a:2", 0, "1.10", "1")),
            ("b".into(), build("b:2", 0, "1", "1")),
            ("b".into(), build("b:1", 0, "1", "1")),
            ("a".into(), build("a:3", 0, "1.10~rc1", "9")),
        ],
        rhel_builds: vec![("b".into(), build("u:1", 0, "1", "1"))],
    };
    let chosen = select_builds(&p);
    assert_eq!(chosen.len(), 2);
    assert_eq!(chosen[0].newest.node_uri, "a:2");
    assert!(chosen[0].upstream.is_empty());
    assert_eq!(chosen[1].newest.node_uri, "b:1");
    assert_eq!(chosen[1].upstream[0].node_uri, "u:1");
}

fn report_of(nothing: &Vec<PairData>) -> RebuildReport {
    build_report(nothing, &vec![], "run", "2026-01-01T00:00:00Z").1
}

#[test]
fn nothing_to_compare_gives_an_empty_report() {
    let report = report_of(&vec![]);
    assert_eq!(report.pairs, 0);
    assert_eq!(report.triples, 0);
    assert_eq!(report.assessments, 0);
    assert!(report.fidelity_counts.is_empty());
}

#[test]
fn every_term_must_be_declared() {
    let deriver = RebuildComparisonDeriver::new("http://h");
    let all = |n: usize| -> Vec<Result<usize, CollectError>> { (0..11).map(|_| Ok(n)).collect() };
    assert!(deriver.check_ontology_terms(&all(1)).is_ok());
    let mut replies = all(1);
    replies[3] = Ok(0);
    let err = deriver.check_ontology_terms(&replies).unwrap_err();
    assert_eq!(err.kind, ErrorKind::InvalidData);
    assert!(err.message.starts_with("rebuild-assessment vocabulary term pkg:rebuildFidelity is not declared."));
    replies[1] = Err(lost("down"));
    let err = deriver.check_ontology_terms(&replies).unwrap_err();
    assert_eq!((err.kind, err.message.as_str()), (ErrorKind::Other, "down"));
}

#[test]
fn a_graph_with_too_few_sources_is_not_ready() {
    let deriver = RebuildComparisonDeriver::new("http://h");
    let pairs = vec![pair("https://b", "https://a"), pair("https://c", "https://a")];
    assert_eq!(distinct_graphs(&pairs), vec!["https://a", "https://b", "https://c"]);
    let reply = |n: i64| GraphReply {
        rows: Ok((0..n).map(|i| row("x", &format!("s:{i}"), 0, "1", "1")).collect()),
        distribution: Ok("d".to_string()),
    };
    assert!(deriver.check_readiness(&pairs, &vec![reply(2), reply(2), reply(2)], 2).is_ok());
    let err =
        deriver.check_readiness(&pairs, &vec![reply(2), reply(1), reply(2)], 2).unwrap_err();
    assert_eq!(err.kind, ErrorKind::InvalidData);
    assert_eq!(
        err.message,
        "graph https://b has 1 source builds (< min 2); refusing to derive from an empty/truncated graph"
    );
    let reply_without = GraphReply { rows: Ok(vec![]), distribution: Err(lost("no distribution")) };
    let err = deriver.check_readiness(&pairs, &vec![reply_without, reply(1), reply(2)], 0).unwrap_err();
    assert_eq!(err.message, "no distribution");
    let reply_without = GraphReply { rows: Err(lost("timeout")), distribution: Ok("d".to_string()) };
    let err = deriver.check_readiness(&pairs, &vec![reply_without, reply(1), reply(2)], 0).unwrap_err();
    assert_eq!(err.message, "timeout");
    assert_eq!(err.kind, ErrorKind::Other);
}

/// A store that answers as it is told.
struct Store {
    assessments: usize,
    distributions: usize,
    failing: Option<String>,
    subjects: Vec<String>,
    snapshots: Vec<String>,
    log: Vec<String>,
    broken: Option<&'static str>,
}

fn counted(n: usize) -> Vec<Fields> {
    let mut f: Fields = TextMap::new();
    f.insert("c".to_string(), n.to_string());
    vec![f]
}

fn listed(items: &Vec<String>) -> Vec<Fields> {
    items
        .iter()
        .map(|s| {
            let mut f: Fields = TextMap::new();
            f.insert("s".to_string(), s.clone());
            f
        })
        .collect()
}

impl Store {
    fn outcome(&mut self, what: &'static str, graph: &str) -> Result<(), CollectError> {
        self.log.push(format!("{what} {graph}"));
        if self.broken == Some(what) {
            Err(lost(&format!("{what} failed")))
        } else {
            Ok(())
        }
    }

    fn query(&mut self, text: &str) -> Result<Vec<Fields>, CollectError> {
        let staging = "prod-staging-run1";
        if text == assessment_count_query(staging) {
            Ok(counted(self.assessments))
        } else if text == distribution_count_query(staging) {
            Ok(counted(self.distributions))
        } else if text == assessment_subjects_query(staging) {
            Ok(listed(&self.subjects))
        } else if text == snapshot_subjects_query(staging) {
            Ok(listed(&self.snapshots))
        } else if self.failing.as_deref() == Some(text) {
            Ok(counted(2))
        } else {
            Ok(counted(0))
        }
    }
}

fn good_store() -> Store {
    Store {
        assessments: 2,
        distributions: 1,
        failing: None,
        subjects: vec!["b".to_string(), "a".to_string()],
        snapshots: vec!["s".to_string()],
        log: vec![],
        broken: None,
    }
}

fn load(store: &mut Store, run_token: &str) -> Result<(), CollectError> {
    let deriver = RebuildComparisonDeriver::new("http://h");
    let subjects = vec!["a".to_string(), "b".to_string()];
    let snapshots = vec!["s".to_string()];
    let rhel_graphs = vec!["urn:rhel".to_string()];
    let expect = LoadExpectations {
        assessments: 2,
        distribution_count: 1,
        subjects: &subjects,
        snapshots: &snapshots,
        rhel_graphs: &rhel_graphs,
    };
    let mut state = deriver.begin_load(run_token);
    loop {
        let event = match deriver.load_action(&expect, "prod", run_token, &state) {
            LoadAction::DropGraph { graph } => LoadEvent::Outcome(store.outcome("drop", &graph)),
            LoadAction::LoadFile { graph } => LoadEvent::Outcome(store.outcome("load", &graph)),
            LoadAction::Query { text } => LoadEvent::Rows(store.query(&text)),
            LoadAction::Update { text } => {
                assert_eq!(text, atomic_swap_update("prod", "prod-staging-run1"));
                LoadEvent::Outcome(store.outcome("swap", "prod"))
            }
            LoadAction::Nothing => match state {
                LoadState::Done { result } => return result,
                other => panic!("nothing to do in {other:?}"),
            },
        };
        state = deriver.load_atomic(&expect, "prod", run_token, state, event);
    }
}

#[test]
fn a_good_graph_takes_the_place_of_the_one_in_use() {
    let mut store = good_store();
    assert!(load(&mut store, "run1").is_ok());
    assert_eq!(
        store.log,
        vec!["drop prod-staging-run1", "load prod-staging-run1", "swap prod"]
    );
    assert_eq!(staging_name("prod", "run1"), "prod-staging-run1");
}

#[test]
fn a_bad_run_token_does_nothing() {
    let mut store = good_store();
    let err = load(&mut store, "a b").unwrap_err();
    assert_eq!(err.kind, ErrorKind::InvalidData);
    assert_eq!(err.message, "run token \"a b\" is invalid; must match ^[A-Za-z0-9._-]+$");
    assert!(store.log.is_empty());
}

#[test]
fn a_truncated_graph_is_dropped_and_prod_is_untouched() {
    let mut store = good_store();
    store.assessments = 1;
    let err = load(&mut store, "run1").unwrap_err();
    assert_eq!(err.kind, ErrorKind::InvalidData);
    assert_eq!(err.message, "staging graph has 1 pkg:RebuildAssessment nodes but derive emitted 2 (truncation/partial-load guard); aborting, prod untouched");
    assert_eq!(
        store.log,
        vec!["drop prod-staging-run1", "load prod-staging-run1", "drop prod-staging-run1"]
    );
    let mut store = good_store();
    store.distributions = 0;
    let err = load(&mut store, "run1").unwrap_err();
    assert_eq!(err.kind, ErrorKind::InvalidData);
    assert_eq!(err.message, "staging graph has 0 pkg:derivedFromDistribution triples but derive emitted 1 (distribution-coverage guard); aborting, prod untouched");
    assert!(!store.log.contains(&"swap prod".to_string()));
}

#[test]
fn every_staging_check_can_stop_the_swap() {
    for check in staging_checks("prod-staging-run1", &vec!["urn:rhel".to_string()]) {
        let mut store = good_store();
        store.failing = Some(check.query.clone());
        let err = load(&mut store, "run1").unwrap_err();
        assert_eq!(
            err.message,
            format!("staging graph failed check (2): {}; aborting, prod untouched", check.description)
        );
        assert!(!store.log.contains(&"swap prod".to_string()));
        assert_eq!(store.log.last().unwrap(), "drop prod-staging-run1");
    }
}

#[test]
fn other_subjects_than_those_written_stop_the_swap() {
    let mut store = good_store();
    store.subjects = vec!["a".to_string(), "x\"y".to_string()];
    let err = load(&mut store, "run1").unwrap_err();
    assert_eq!(err.kind, ErrorKind::InvalidData);
    assert_eq!(err.message, "staging assessmentOf subjects do not match the set derive emitted (2 in staging vs 2 expected); unexpected: [\"x\\\"y\"]; missing: [\"b\"]; aborting, prod untouched");
    let mut store = good_store();
    store.snapshots = vec![];
    let err = load(&mut store, "run1").unwrap_err();
    assert_eq!(err.kind, ErrorKind::InvalidData);
    assert_eq!(err.message, "staging assessedAgainstSnapshot values do not match the set derive emitted (0 in staging vs 1 expected); unexpected: []; missing: [\"s\"]; aborting, prod untouched");
    assert!(!store.log.contains(&"swap prod".to_string()));
}

#[test]
fn a_failing_load_or_swap_leaves_nothing_behind() {
    for what in ["load", "swap"] {
        let mut store = good_store();
        store.broken = Some(what);
        assert_eq!(load(&mut store, "run1").unwrap_err().message, format!("{what} failed"));
        assert_eq!(store.log.last().unwrap(), "drop prod-staging-run1");
    }
    let mut store = good_store();
    store.broken = Some("drop");
    assert_eq!(load(&mut store, "run1").unwrap_err().message, "drop failed");
    assert_eq!(store.log, vec!["drop prod-staging-run1"]);
}
