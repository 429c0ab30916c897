use pg_collect::alpine::{
    find_index, parse_apkindex, unpack_index, AlpineCollector, RepoIndex, SecFix, SecdbDistro,
    SecdbPkg, SecdbReply,
};
use pg_collect::failure::ErrorKind;
use pg_collect::ntriples::NTriplesWriter;
use pg_collect::textmap::{Fields, TextMap};
use pg_collect::uris::{package_identity_uri, package_uri};
use std::io::Write;

const SAMPLE_APKINDEX: &str = "\
C:Q1abcdef123456==
P:curl
V:8.7.1-r0
A:x86_64
S:247432
I:1064960
T:URL retrieval utility and library
U:https://curl.se/
L:curl
o:curl
m:Natanael Copa <ncopa@alpinelinux.org>
t:1714000000
c:abc123def456
D:ca-certificates libcurl>=8.7.1-r0
p:cmd:curl=8.7.1-r0

C:Q1xyz789==
P:bash
V:5.2.26-r0
A:x86_64
S:500000
I:2000000
T:The GNU Bourne Again shell
U:https://www.gnu.org/software/bash/
L:GPL-3.0-or-later
o:bash
m:Soren Tempel <stempel@alpinelinux.org>
D:readline ncurses-libs

";

fn collector() -> AlpineCollector {
    AlpineCollector::new(
        "https://mirror.example.com/alpine".into(),
        "alpine".into(),
        "v3.20".into(),
        vec!["main".into()],
        "x86_64".into(),
    )
}

fn fields(pairs: &[(&str, &str)]) -> Fields {
    let mut f: Fields = TextMap::new();
    for (k, v) in pairs {
        f.insert(k.to_string(), v.to_string());
    }
    f
}

#[test]
fn test_parse_apkindex() {
    let packages = parse_apkindex(SAMPLE_APKINDEX);
    assert_eq!(packages.len(), 2);

    let curl = &packages[0];
    assert_eq!(curl.get("P").unwrap(), "curl");
    assert_eq!(curl.get("V").unwrap(), "8.7.1-r0");
    assert_eq!(curl.get("A").unwrap(), "x86_64");
    assert_eq!(curl.get("D").unwrap(), "ca-certificates libcurl>=8.7.1-r0");
    assert_eq!(curl.get("o").unwrap(), "curl");

    let bash = &packages[1];
    assert_eq!(bash.get("P").unwrap(), "bash");
    assert_eq!(bash.get("L").unwrap(), "GPL-3.0-or-later");
}

#[test]
fn test_emit_package_triples_produces_dual_typing() {
    let mut writer = NTriplesWriter::new();
    let pkg = fields(&[("P", "curl"), ("V", "8.7.1-r0"), ("T", "URL retrieval utility")]);

    let triples = collector().emit_package_triples(&mut writer, &pkg, "main");
    let content = writer.into_string();

    assert!(content.contains("core#BinaryPackage"));
    assert!(content.contains("apk#ApkPackage"));
    assert!(content.contains("\"curl\""));
    assert!(triples > 10);
    assert_eq!(triples, writer.len());
}

#[test]
fn test_emit_dependencies_with_version_constraint() {
    let mut writer = NTriplesWriter::new();
    let pkg_uri = package_uri("alpine", "v3.20", "x86_64", "curl", "8.7.1-r0");
    let identity_uri = package_identity_uri("alpine", "v3.20", "x86_64", "curl");
    assert_ne!(pkg_uri, identity_uri);

    let triples = collector().emit_dependencies(
        &mut writer,
        &pkg_uri,
        "libcurl>=8.7.1-r0 ca-certificates",
        "depends",
    );
    let content = writer.into_string();

    assert!(content.contains("directlyDependsOn"));
    assert!(content.contains("hasDependency"));
    assert!(content.contains("Dependency"));
    assert!(triples >= 8);
}

fn secdb(text: &str) -> SecdbDistro {
    let v: serde_json::Value = serde_json::from_str(text).unwrap();
    let mut packages = vec![];
    for entry in v["packages"].as_array().unwrap() {
        let pkg = &entry["pkg"];
        let mut secfixes = vec![];
        for (version, cves) in pkg["secfixes"].as_object().unwrap() {
            secfixes.push(SecFix {
                version: version.clone(),
                cves: cves
                    .as_array()
                    .unwrap()
                    .iter()
                    .map(|c| c.as_str().unwrap().to_string())
                    .collect(),
            });
        }
        packages.push(SecdbPkg { name: pkg["name"].as_str().unwrap().to_string(), secfixes });
    }
    SecdbDistro { packages }
}

const SECDB: &str = r#"{
            "distroversion": "v3.20",
            "reponame": "main",
            "packages": [
                {
                    "pkg": {
                        "name": "curl",
                        "secfixes": {
                            "8.7.1-r0": ["CVE-2024-2398", "CVE-2024-2379"],
                            "8.6.0-r0": ["CVE-2024-0853"]
                        }
                    }
                }
            ]
        }"#;

#[test]
fn test_secdb_parsing_and_triples() {
    let mut writer = NTriplesWriter::new();
    let triples = collector().emit_secdb_triples(&mut writer, &secdb(SECDB));
    let content = writer.into_string();

    assert!(content.contains("CVE-2024-2398"));
    assert!(content.contains("CVE-2024-2379"));
    assert!(content.contains("CVE-2024-0853"));
    assert!(content.contains("Vulnerability"));
    assert!(content.contains("fixedInVersion"));
    assert!(content.contains("affectsPackage"));
    assert_eq!(triples, 12);
}

#[test]
fn test_maintainer_parsing() {
    let mut writer = NTriplesWriter::new();
    let pkg = fields(&[
        ("P", "test"),
        ("V", "1.0-r0"),
        ("m", "Natanael Copa <ncopa@alpinelinux.org>"),
    ]);
    collector().emit_package_triples(&mut writer, &pkg, "main");
    let content = writer.into_string();

    assert!(content.contains("maintainedBy"));
    assert!(content.contains("Natanael Copa"));
    assert!(content.contains("ncopa@alpinelinux.org"));
}

#[test]
fn secfixes_are_not_cves_only() {
    let db = SecdbDistro {
        packages: vec![SecdbPkg {
            name: "x".to_string(),
            secfixes: vec![SecFix {
                version: "1".to_string(),
                cves: vec!["GHSA-1".to_string(), "CVE-2020-1".to_string()],
            }],
        }],
    };
    let mut writer = NTriplesWriter::new();
    assert_eq!(collector().emit_secdb_triples(&mut writer, &db), 4);
    assert!(!writer.into_string().contains("GHSA"));
}

fn index_archive(content: &str) -> Vec<u8> {
    let mut builder = tar::Builder::new(Vec::new());
    let mut header = tar::Header::new_gnu();
    header.set_size(content.len() as u64);
    header.set_mode(0o644);
    header.set_cksum();
    builder.append_data(&mut header, "APKINDEX", content.as_bytes()).unwrap();
    let tarred = builder.into_inner().unwrap();
    let mut gz = flate2::write::GzEncoder::new(Vec::new(), flate2::Compression::default());
    gz.write_all(&tarred).unwrap();
    gz.finish().unwrap()
}

#[test]
fn a_run_reads_every_index_it_got() {
    let c = AlpineCollector::new(
        "https://m".into(),
        "alpine".into(),
        "v3.20".into(),
        vec!["main".into(), "community".into()],
        "x86_64".into(),
    );
    assert_eq!(c.apkindex_url("main"), "https://m/v3.20/main/x86_64/APKINDEX.tar.gz");
    let mut writer = NTriplesWriter::new();
    let indexes = vec![
        RepoIndex::Bytes(index_archive(SAMPLE_APKINDEX)),
        RepoIndex::Failed("HTTP 503".to_string()),
    ];
    let replies = vec![SecdbReply::Failed("HTTP 404".to_string()), SecdbReply::Found(secdb(SECDB))];
    let (packages, triples) = c.collect(&mut writer, &indexes, &replies);
    assert_eq!(packages, 2);
    let mut head = NTriplesWriter::new();
    c.emit_distribution_metadata(&mut head);
    assert_eq!(triples + head.len(), writer.len());
    let content = writer.into_string();
    assert!(content.contains("\"bash\""));
    assert!(content.contains("CVE-2024-0853"));
}

#[test]
fn an_archive_without_an_index_is_an_error() {
    let err = find_index(&vec![]).unwrap_err();
    assert_eq!(err.kind, ErrorKind::NotFound);
    assert_eq!(err.message, "APKINDEX not found in archive");
    let mut writer = NTriplesWriter::new();
    let err = collector().process_repo(&mut writer, "main", b"not gzip").unwrap_err();
    assert_eq!(err.kind, ErrorKind::Unreadable);
    assert_eq!(writer.len(), 0);
    assert_eq!(unpack_index(&index_archive("P:a\n")).unwrap(), "P:a\n");
}

#[test]
fn a_package_without_a_version_is_passed_over() {
    let mut writer = NTriplesWriter::new();
    assert_eq!(collector().emit_package_triples(&mut writer, &fields(&[("P", "a")]), "main"), 6);
    assert!(writer.into_string().contains("DataQualityIssue"));
    assert!(!writer.into_string().contains("BinaryPackage"));
}

#[test]
fn conflicts_and_shared_libraries_are_no_dependencies() {
    let mut writer = NTriplesWriter::new();
    let none = collector().emit_dependencies(
        &mut writer,
        "urn:p",
        "!conflicting so:libc.musl-x86_64.so.1",
        "depends",
    );
    assert_eq!((none, writer.len()), (0, 0));
    let one =
        collector().emit_dependencies(&mut writer, "urn:p", "so:libz.so.1 zlib !musl", "depends");
    assert_eq!((one, writer.len()), (5, 5));
}

#[test]
fn joined_indexes_give_the_records_of_both() {
    let a = "P:one\nV:1";
    let b = "P:two\nV:2\n\nP:three\n";
    let both = parse_apkindex(&format!("{a}\n\n{b}"));
    assert_eq!(both.len(), parse_apkindex(a).len() + parse_apkindex(b).len());
    let names: Vec<Option<&String>> = both.iter().map(|f| f.get("P")).collect();
    assert_eq!(
        names,
        vec![Some(&"one".to_string()), Some(&"two".to_string()), Some(&"three".to_string())]
    );
    assert!(both[2].get("V").is_none());
}
