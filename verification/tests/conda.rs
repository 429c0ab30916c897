use pg_collect::conda::{CondaCollector, CondaPackageEntry};
use pg_collect::ntriples::NTriplesWriter;

fn text(v: &serde_json::Value) -> Option<String> {
    v.as_str().map(|s| s.to_string())
}

fn entry_of(v: &serde_json::Value) -> CondaPackageEntry {
    CondaPackageEntry {
        name: text(&v["name"]).unwrap(),
        version: text(&v["version"]).unwrap(),
        build: text(&v["build"]),
        build_number: v["build_number"].as_i64(),
        depends: v["depends"]
            .as_array()
            .map(|a| a.iter().map(|d| text(d).unwrap()).collect())
            .unwrap_or_default(),
        license: text(&v["license"]),
        subdir: text(&v["subdir"]),
        timestamp: v["timestamp"].as_i64(),
        md5: text(&v["md5"]),
        sha256: text(&v["sha256"]),
        size: v["size"].as_i64(),
    }
}

#[test]
fn test_repodata_deserialization() {
    let json = r#"{
            "packages": {
                "numpy-1.26.4-py312h8442bc7_0.tar.bz2": {
                    "name": "numpy",
                    "version": "1.26.4",
                    "build": "py312h8442bc7_0",
                    "build_number": 0,
                    "depends": ["python >=3.12,<3.13.0a0", "libblas >=3.9.0,<4.0a0"],
                    "license": "BSD-3-Clause",
                    "subdir": "linux-64",
                    "timestamp": 1714000000,
                    "size": 8000000,
                    "sha256": "abc123"
                }
            }
        }"#;
    let repodata: serde_json::Value = serde_json::from_str(json).unwrap();
    let pkgs: Vec<CondaPackageEntry> =
        repodata["packages"].as_object().unwrap().values().map(entry_of).collect();
    assert_eq!(pkgs.len(), 1);
    let numpy = &pkgs[0];
    assert_eq!(numpy.name, "numpy");
    assert_eq!(numpy.depends.len(), 2);
}

fn collector() -> CondaCollector {
    CondaCollector::new(
        "conda".into(),
        "conda-forge".into(),
        "https://conda.anaconda.org/conda-forge".into(),
        "linux-64".into(),
    )
}

fn entry(name: &str, version: &str) -> CondaPackageEntry {
    CondaPackageEntry {
        name: name.into(),
        version: version.into(),
        build: Some("py312h8442bc7_0".into()),
        build_number: Some(0),
        depends: vec!["python >=3.12".into(), "libblas >=3.9.0".into()],
        license: Some("BSD-3-Clause".into()),
        subdir: Some("linux-64".into()),
        timestamp: Some(1714000000),
        md5: None,
        sha256: Some("abc123".into()),
        size: Some(8000000),
    }
}

#[test]
fn test_emit_conda_package_dual_typing() {
    let mut writer = NTriplesWriter::new();
    let triples = collector().emit_package_triples(&mut writer, &entry("numpy", "1.26.4"));
    let content = writer.into_string();

    assert!(content.contains("core#Package"));
    assert!(content.contains("conda#CondaPackage"));
    assert!(content.contains("\"numpy\""));
    assert!(content.contains("conda#buildString"));
    assert!(content.contains("directlyDependsOn"));
    assert!(triples > 20);
    assert_eq!(triples, writer.len());
}

#[test]
fn a_run_over_the_whole_channel_takes_every_package() {
    let entries = vec![entry("numpy", "1"), entry("scipy", "2"), entry("numpy", "3")];
    let mut writer = NTriplesWriter::new();
    let (n, triples) = collector().collect_full(&mut writer, &entries);
    assert_eq!(n, 3);
    let mut head = NTriplesWriter::new();
    collector().emit_distribution_metadata(&mut head);
    assert_eq!(triples + head.len(), writer.len());
    assert!(writer.into_string().contains("\"scipy\""));
}

#[test]
fn a_seeded_run_takes_only_what_was_asked_for() {
    let entries = vec![entry("numpy", "1"), entry("scipy", "2")];
    let mut writer = NTriplesWriter::new();
    let names = vec!["scipy".to_string(), "absent".to_string()];
    let (n, _) = collector().collect_seeded(&mut writer, &names, &entries);
    assert_eq!(n, 1);
    let content = writer.into_string();
    assert!(content.contains("\"scipy\""));
    assert!(!content.contains("\"numpy\""));
}

#[test]
fn files_count_as_one_by_name_and_version() {
    let entries = vec![
        entry("a-b", "1"),
        entry("a", "b-1"),
        entry("a-b", "1"),
        entry("a", "b-1"),
        entry("a", "2"),
    ];
    let mut writer = NTriplesWriter::new();
    let (n, _) = collector().collect_full(&mut writer, &entries);
    assert_eq!(n, 3);
    let mut seeded = NTriplesWriter::new();
    let (n, _) = collector().collect_seeded(&mut seeded, &vec!["a".to_string()], &entries);
    assert_eq!(n, 2);
}
