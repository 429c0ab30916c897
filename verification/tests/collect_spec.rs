use pg_collect::collect_spec::{
    aggregate_candidates, ordered_names, rewrite_origin, CandidateOutcome, Cacheability, NamedItem,
    SpecCollector, SpecFetchResult, SpecItem, SpecOptions,
};
use pg_collect::ecosystem::{
    detect_ecosystem_by_name, is_anchored_prefix, strip_ecosystem_prefix, strip_perl_packaging,
};
use pg_collect::ntriples::{Fragment, NTriplesWriter, DATA};
use pg_collect::spec_file::{
    detect_ecosystem, expand_macros, parse_buildrequires, parse_spec, SpecData,
};
use pg_collect::textmap::{TextMap, Texts};

const SAMPLE_SPEC: &str = r#"
Name:           python-requests
Version:        2.31.0
Release:        1.fc43
Summary:        HTTP library for Python
URL:            https://requests.readthedocs.io
Source0:        https://files.pythonhosted.org/packages/source/r/requests/requests-%{version}.tar.gz

BuildRequires:  python3-devel
BuildRequires:  python3dist(pytest) >= 7.0
BuildRequires:  python3dist(urllib3) >= 1.26

%description
Python HTTP library.

%changelog
* Wed Apr 23 2026 Alice Developer <alice@fedoraproject.org> - 2.31.0-1
- Update to 2.31.0

* Mon Jan 15 2024 Bob Maintainer <bob@fedoraproject.org> - 2.28.0-1
- Initial package
"#;

const GITHUB_SPEC: &str = r#"
Name:           openssl
Version:        3.2.1
Release:        1.fc43
URL:            https://www.openssl.org
%global commit abc123def456

Source0:        https://github.com/openssl/openssl/archive/%{commit}/openssl-%{commit}.tar.gz

BuildRequires:  gcc
BuildRequires:  perl(Test::More)

%changelog
* Mon Apr 21 2026 Security Team <security@fedoraproject.org> - 3.2.1-1
- Security update
"#;

#[test]
fn test_parse_spec_source0() {
    let spec = parse_spec(SAMPLE_SPEC);
    assert!(spec.source0_url.is_some());
    assert!(spec.source0_url.unwrap().contains("pythonhosted.org"));
    assert_eq!(spec.name, Some("python-requests".to_string()));
    assert_eq!(spec.version, Some("2.31.0".to_string()));
}

#[test]
fn test_parse_spec_commit() {
    let spec = parse_spec(GITHUB_SPEC);
    assert_eq!(spec.commit_hash, Some("abc123def456".to_string()));
}

#[test]
fn test_parse_spec_buildrequires() {
    let spec = parse_spec(SAMPLE_SPEC);
    assert_eq!(spec.build_requires.len(), 3);
    assert!(spec.build_requires[0].contains("python3-devel"));
}

#[test]
fn test_parse_spec_changelog() {
    let spec = parse_spec(SAMPLE_SPEC);
    assert_eq!(spec.changelog_entries.len(), 2);
    assert_eq!(spec.changelog_entries[0].name, "Alice Developer");
    assert_eq!(spec.changelog_entries[0].email, "alice@fedoraproject.org");
    assert_eq!(spec.changelog_entries[1].name, "Bob Maintainer");
}

#[test]
fn test_expand_macros() {
    let spec = parse_spec(GITHUB_SPEC);
    let source0 = spec.source0_url.as_ref().unwrap();
    let expanded = expand_macros(source0, &spec);
    assert!(expanded.contains("abc123def456"), "Commit macro should be expanded");
    assert!(expanded.contains("openssl"), "Name macro should be expanded");
    assert!(!expanded.contains("%{commit}"), "Macro should not remain");
}

#[test]
fn test_detect_ecosystem_pypi_source0() {
    let spec = parse_spec(SAMPLE_SPEC);
    let detection = detect_ecosystem(&spec, "python-requests").unwrap();
    assert_eq!(detection.ecosystem, "pypi");
    assert_eq!(detection.package_name, Some("requests".to_string()));
}

#[test]
fn test_detect_ecosystem_cpan_buildrequires() {
    let spec = parse_spec(GITHUB_SPEC);
    let detection = detect_ecosystem(&spec, "openssl");
    assert!(detection.is_some());
}

fn bare_spec(name: Option<&str>, version: Option<&str>) -> SpecData {
    SpecData {
        source0_url: None,
        all_sources: vec![],
        patches: vec![],
        commit_hash: None,
        url_field: None,
        name: name.map(|n| n.to_string()),
        version: version.map(|v| v.to_string()),
        build_requires: vec![],
        changelog_entries: vec![],
    }
}

#[test]
fn test_detect_ecosystem_name_prefix() {
    let spec = bare_spec(Some("rubygem-rails"), Some("7.0.0"));
    let detection = detect_ecosystem(&spec, "rubygem-rails").unwrap();
    assert_eq!(detection.ecosystem, "rubygems");
    assert_eq!(detection.package_name, Some("rails".to_string()));
}

#[test]
fn test_parse_buildrequires() {
    let result = parse_buildrequires("python3dist(pytest) >= 7.0");
    assert!(result.contains(&"python3dist(pytest)".to_string()));
    assert!(!result.iter().any(|r| r == ">="));
    assert!(!result.iter().any(|r| r == "7.0"));
}

#[test]
fn test_detect_ecosystem_by_name_debian_python() {
    let detection =
        detect_ecosystem_by_name("python3-requests", Some("https://pypi.org/project/requests/"))
            .unwrap();
    assert_eq!(detection.ecosystem, "pypi");
    assert_eq!(detection.package_name, Some("requests".to_string()));
}

#[test]
fn test_detect_ecosystem_by_name_debian_rust() {
    let detection = detect_ecosystem_by_name("librust-serde-dev", None).unwrap();
    assert_eq!(detection.ecosystem, "cargo");
    assert_eq!(detection.package_name, Some("serde".to_string()));
}

#[test]
fn test_detect_ecosystem_by_name_debian_rust_feature_variant() {
    let detection = detect_ecosystem_by_name("librust-adler+compiler-builtins-dev", None).unwrap();
    assert_eq!(detection.ecosystem, "cargo");
    assert_eq!(detection.package_name, Some("adler".to_string()));
}

#[test]
fn test_detect_ecosystem_by_name_debian_rust_feature_variant_with_plus_in_feature() {
    let detection = detect_ecosystem_by_name("librust-cxxbridge-flags+c++14-dev", None).unwrap();
    assert_eq!(detection.ecosystem, "cargo");
    assert_eq!(detection.package_name, Some("cxxbridge-flags".to_string()));
}

#[test]
fn test_detect_ecosystem_by_name_debian_rust_feature_variant_via_homepage() {
    let detection = detect_ecosystem_by_name(
        "librust-adler+compiler-builtins-dev",
        Some("https://crates.io/crates/adler"),
    )
    .unwrap();
    assert_eq!(detection.ecosystem, "cargo");
    assert_eq!(detection.package_name, Some("adler".to_string()));
}

#[test]
fn test_detect_ecosystem_by_name_debian_perl() {
    let detection = detect_ecosystem_by_name("libwww-perl", None).unwrap();
    assert_eq!(detection.ecosystem, "cpan");
    assert_eq!(detection.package_name, Some("www".to_string()));
}

fn pypi_spec() -> SpecData {
    let mut spec = bare_spec(None, None);
    spec.source0_url = Some("https://files.pythonhosted.org/packages/x.tar.gz".to_string());
    spec
}

const NOT_PY_PREFIXED: [&str; 5] = ["pytest", "pyyaml", "pygments", "pyparsing", "py3dns"];

#[test]
fn a_name_that_merely_starts_with_py_is_not_truncated_via_source0() {
    let spec = pypi_spec();
    for name in NOT_PY_PREFIXED {
        let detection = detect_ecosystem(&spec, name).unwrap();
        assert_eq!(detection.ecosystem, "pypi");
        assert_eq!(detection.package_name, Some(name.to_string()), "{name} was truncated");
    }
}

#[test]
fn a_name_that_merely_starts_with_py_is_not_truncated_via_homepage() {
    for name in NOT_PY_PREFIXED {
        let detection =
            detect_ecosystem_by_name(name, Some("https://pypi.org/project/x/")).unwrap();
        assert_eq!(detection.package_name, Some(name.to_string()), "{name} was truncated");
    }
}

#[test]
fn real_python_packaging_prefixes_are_still_stripped() {
    let spec = pypi_spec();
    for (packaged, upstream) in
        [("python3-requests", "requests"), ("python-dateutil", "dateutil")]
    {
        assert_eq!(
            detect_ecosystem(&spec, packaged).unwrap().package_name,
            Some(upstream.to_string())
        );
        assert_eq!(
            detect_ecosystem_by_name(packaged, Some("https://pypi.org/project/x/"))
                .unwrap()
                .package_name,
            Some(upstream.to_string())
        );
    }
}

#[test]
fn a_cpan_homepage_does_not_license_stripping_a_bare_lib() {
    let detection =
        detect_ecosystem_by_name("libreoffice", Some("https://metacpan.org/dist/x")).unwrap();
    assert_eq!(detection.ecosystem, "cpan");
    assert_eq!(detection.package_name, Some("libreoffice".to_string()));
}

#[test]
fn both_cpan_strategies_agree_on_one_package() {
    for name in ["libwww-perl", "libjson-perl", "perl-JSON"] {
        let by_homepage =
            detect_ecosystem_by_name(name, Some("https://metacpan.org/dist/x")).unwrap();
        let by_prefix = detect_ecosystem_by_name(name, None);
        assert_eq!(by_homepage.ecosystem, "cpan");
        if let Some(by_prefix) = by_prefix {
            assert_eq!(
                by_homepage.package_name, by_prefix.package_name,
                "{name} gets a different upstream name from each strategy"
            );
        }
    }
}

#[test]
fn perl_packaging_is_stripped_from_both_distro_conventions() {
    assert_eq!(strip_perl_packaging("libjson-perl"), "json");
    assert_eq!(strip_perl_packaging("perl-JSON"), "JSON");
    assert_eq!(strip_perl_packaging("perl-Test-More"), "Test-More");
    assert_eq!(strip_perl_packaging("lib-perl"), "lib-perl");
    assert_eq!(strip_perl_packaging("perl-"), "perl-");
}

#[test]
fn the_longest_matching_prefix_wins_regardless_of_order() {
    assert_eq!(
        strip_ecosystem_prefix("node-red-dashboard", &["node-", "node-red-"]),
        "dashboard"
    );
    assert_eq!(
        strip_ecosystem_prefix("node-red-dashboard", &["node-red-", "node-"]),
        "dashboard"
    );
}

#[test]
fn a_prefix_that_would_consume_the_whole_name_is_declined() {
    assert_eq!(strip_ecosystem_prefix("python3-", &["python3-"]), "python3-");
}

#[test]
fn every_prefix_list_in_this_file_is_anchored_to_a_separator() {
    let lists: [&[&str]; 28] = [
        &["python3-", "python-"],
        &["rubygem-"],
        &["rust-"],
        &["nodejs-", "npm-"],
        &["perl-"],
        &["ghc-"],
        &["python3-", "python-"],
        &["rubygem-", "ruby-"],
        &["rust-", "librust-"],
        &["nodejs-", "npm-", "node-"],
        &["perl-"],
        &["ghc-", "libghc-"],
        &["r-cran-"],
        &["r-bioc-"],
        &["python3-", "python-"],
        &["perl-"],
        &["rubygem-"],
        &["rust-"],
        &["ghc-"],
        &["nodejs-"],
        &["python3-", "python-"],
        &["ruby-"],
        &["node-"],
        &["r-cran-"],
        &["r-bioc-"],
        &["ghc-"],
        &["elpa-"],
        &["python3-", "python-"],
    ];
    let mut checked = 0;
    for list in lists {
        for prefix in list {
            checked += 1;
            assert!(
                is_anchored_prefix(prefix),
                "unanchored prefix {prefix:?}: it truncates every name that \
                 merely begins with those letters (#40)"
            );
        }
    }
    assert!(checked >= 25, "only {checked} prefixes");
    assert!(!is_anchored_prefix("py"));
    assert!(!is_anchored_prefix(""));
}

#[test]
fn test_detect_ecosystem_by_name_homepage_domain() {
    let detection =
        detect_ecosystem_by_name("some-package", Some("https://crates.io/crates/my-crate"))
            .unwrap();
    assert_eq!(detection.ecosystem, "cargo");
    assert_eq!(detection.detection_method, "homepage-domain");
}

#[test]
fn all_404s_aggregate_to_not_found() {
    let outcomes = vec![CandidateOutcome::Missing, CandidateOutcome::Missing];
    assert!(matches!(aggregate_candidates("pkg", 2, &outcomes), SpecFetchResult::NotFound));
}

#[test]
fn one_inconclusive_candidate_poisons_the_aggregate() {
    let outcomes = vec![
        CandidateOutcome::Missing,
        CandidateOutcome::Inconclusive("connection reset".into()),
    ];
    assert!(matches!(
        aggregate_candidates("pkg", 2, &outcomes),
        SpecFetchResult::RetryableFailure(_)
    ));
}

#[test]
fn a_later_success_wins_over_an_earlier_failure() {
    let outcomes = vec![
        CandidateOutcome::Inconclusive("5xx".into()),
        CandidateOutcome::Found("Name: pkg".into()),
    ];
    match aggregate_candidates("pkg", 2, &outcomes) {
        SpecFetchResult::Found(c) => assert_eq!(c, "Name: pkg"),
        _ => panic!("a successful fallback must win"),
    }
}

#[test]
fn no_candidate_urls_is_not_found() {
    assert!(matches!(aggregate_candidates("pkg", 0, &vec![]), SpecFetchResult::NotFound));
}

#[test]
fn rewrite_origin_keeps_the_path_and_replaces_the_host() {
    assert_eq!(
        rewrite_origin(
            "https://src.fedoraproject.org/rpms/zlib/raw/f44/f/zlib.spec",
            "http://127.0.0.1:8080"
        ),
        "http://127.0.0.1:8080/rpms/zlib/raw/f44/f/zlib.spec"
    );
    assert_eq!(
        rewrite_origin("https://gitlab.com/a/b.spec", "http://h:1/"),
        "http://h:1/a/b.spec"
    );
}

#[test]
fn a_golang_prefix_names_the_ecosystem_and_not_the_module() {
    let spec = bare_spec(Some("golang-github-spf13-cobra"), Some("1.8.0"));
    let by_spec = detect_ecosystem(&spec, "golang-github-spf13-cobra").unwrap();
    let by_name = detect_ecosystem_by_name("golang-github-spf13-cobra", None).unwrap();
    for detection in [by_spec, by_name] {
        assert_eq!(detection.ecosystem, "gomod");
        assert_eq!(
            detection.package_name, None,
            "a flattened distro name was recorded as a Go module path"
        );
    }
}

fn spec_collector() -> SpecCollector {
    SpecCollector::new("fedora", "44", None)
}

const NO_EXTRAS: SpecOptions = SpecOptions { buildrequires: false, maintainers: false };

fn identity_map(names: &[&str]) -> TextMap<Texts> {
    let mut map: TextMap<Texts> = TextMap::new();
    for n in names {
        let items = vec![format!("{DATA}identity/fedora/44/x86_64/{n}")];
        map.insert(n.to_string(), Texts { items });
    }
    map
}

#[test]
fn a_go_package_publishes_its_ecosystem_without_an_unusable_name() {
    let name = "golang-github-spf13-cobra";
    let collector = spec_collector();
    let content =
        format!("Name:           {name}\nVersion:        1.8.0\n%description\na package\n");

    let mut w = NTriplesWriter::new();
    collector
        .collect(
            &mut w,
            &vec![name.to_string()],
            &vec![SpecFetchResult::Found(content)],
            &identity_map(&[name]),
            &vec![],
            NO_EXTRAS,
        )
        .unwrap();
    let body = w.into_string();

    assert!(
        body.contains(&format!("upstreamEcosystem> <{DATA}ecosystem/gomod>")),
        "the ecosystem is still worth recording:\n{body}"
    );
    assert!(
        !body.contains("upstreamPackageName"),
        "a flattened distro name reached the graph as a Go module path:\n{body}"
    );
}

fn pythonhosted_spec(name: &str) -> String {
    let upstream = name.strip_prefix("python-").unwrap();
    format!(
        "Name:           {name}\n\
         Version:        1.0\n\
         Source0:        https://files.pythonhosted.org/packages/source/{upstream}.tar.gz\n\
         %description\n\
         a package\n"
    )
}

#[test]
fn a_source_package_whose_ecosystem_came_from_provides_is_not_re_derived() {
    let collector = spec_collector();
    let names = vec!["python-urllib3".to_string(), "python-requests".to_string()];
    let from_provides = vec!["python-requests".to_string()];
    let ordered = ordered_names(&names);
    assert_eq!(ordered, vec!["python-requests".to_string(), "python-urllib3".to_string()]);
    let answers: Vec<SpecFetchResult> =
        ordered.iter().map(|n| SpecFetchResult::Found(pythonhosted_spec(n))).collect();

    let mut w = NTriplesWriter::new();
    let (specs, _triples) = collector
        .collect(
            &mut w,
            &ordered,
            &answers,
            &identity_map(&["python-requests", "python-urllib3"]),
            &from_provides,
            NO_EXTRAS,
        )
        .unwrap();
    let body = w.into_string();

    assert_eq!(specs, 2, "both specs must still be fetched and processed");
    assert!(
        !body.contains("upstreamPackageName> \"requests\""),
        "the spec heuristic re-derived an upstream name the capability \
         had already stated:\n{body}"
    );
    assert!(
        body.contains("upstreamPackageName> \"urllib3\""),
        "the heuristic must still run where it is the only evidence:\n{body}"
    );
}

#[test]
fn collect_checkpointed_replays_a_prepopulated_item_without_fetching() {
    let c = SpecCollector::new("offline-test", "44", None);
    let item = SpecItem::Done {
        fragment: Fragment {
            logical_triples: 4,
            skipped_invalid_iri: 1,
            auto_inverses: 2,
            lines: vec!["<s> <p> <o> .".to_string()],
        },
        cacheability: Cacheability::Complete,
    };
    let items = vec![NamedItem { name: "glibc".to_string(), item }];
    let mut w = NTriplesWriter::new();
    let (specs, triples, report) = c.collect_checkpointed(&mut w, &items);
    assert_eq!((report.attempted, report.completed, report.retryable), (1, 1, 0));
    assert_eq!((specs, triples), (1, 4), "totals must come from the checkpoint");
    assert_eq!(w.skipped_invalid_iri(), 1, "counters must propagate on replay");
    assert_eq!(w.auto_inverses(), 2);
    assert_eq!(
        w.into_string(),
        "<s> <p> <o> .\n",
        "replayed text must reach the output writer verbatim"
    );
}

#[test]
fn fetch_spec_reports_an_unsupported_distro_as_not_found() {
    let c = SpecCollector::new("not-a-distro", "1", None);
    assert!(matches!(c.fetch_spec("anything", &vec![]), SpecFetchResult::NotFound));
    assert!(c.spec_urls("anything").is_empty());
}

#[test]
fn a_supported_distro_has_candidates_and_each_outcome_decides_the_next() {
    let c = spec_collector();
    let urls = c.spec_urls("zlib");
    assert!(!urls.is_empty());
    assert!(urls[0].contains("zlib"));
    assert_eq!(c.next_candidate("zlib", &vec![]), Some(urls[0].clone()));
    let found = vec![CandidateOutcome::Found("Name: zlib".to_string())];
    assert_eq!(c.next_candidate("zlib", &found), None);
}

#[test]
fn a_missing_spec_is_complete_and_a_failure_is_retryable() {
    let c = spec_collector();
    let ids = vec![format!("{DATA}identity/fedora/44/x86_64/zlib")];
    let mut w = NTriplesWriter::new();
    let (n, kind) =
        c.process_spec_classified(&mut w, "zlib", &SpecFetchResult::NotFound, &ids, false, NO_EXTRAS);
    assert_eq!(n, w.len());
    assert!(matches!(kind, Cacheability::Complete));
    let mut w = NTriplesWriter::new();
    let failure = SpecFetchResult::RetryableFailure("5xx".to_string());
    let (n, kind) = c.process_spec_classified(&mut w, "zlib", &failure, &ids, false, NO_EXTRAS);
    assert_eq!(n, w.len());
    assert!(matches!(kind, Cacheability::Retryable));
}

#[test]
fn what_a_fragment_depends_on_is_told() {
    let collector = spec_collector();
    let map = identity_map(&["python-requests"]);
    let existing = vec!["python-requests".to_string()];
    let known = collector.checkpoint_context("python-requests", &map, &existing, NO_EXTRAS);
    assert_eq!(known.distro, collector.distro);
    assert_eq!(known.release, collector.release);
    assert_eq!(known.identities.len(), 1);
    assert!(known.in_existing_ecosystem);
    assert!(!known.emit_buildrequires && !known.emit_maintainers);
    let other = collector.checkpoint_context("python-requests", &map, &vec![], NO_EXTRAS);
    assert!(!other.in_existing_ecosystem);
    assert_ne!(known, other);
    let unknown = collector.checkpoint_context("glibc", &map, &existing, NO_EXTRAS);
    assert!(unknown.identities.is_empty());
}

#[test]
fn versions_are_no_requirements() {
    assert_eq!(parse_buildrequires("foo >= 1.2.3"), vec!["foo"]);
    assert_eq!(parse_buildrequires("foo >= 1.2.3, bar = 2:1.0-1 baz"), vec!["foo", "bar", "baz"]);
    assert_eq!(parse_buildrequires("foo >=1.2.3 bar"), vec!["foo", "bar"]);
    assert_eq!(parse_buildrequires("foo >=, bar"), vec!["foo", "bar"]);
    assert_eq!(parse_buildrequires("gcc make"), vec!["gcc", "make"]);
}
