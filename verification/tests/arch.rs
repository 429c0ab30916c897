use pg_collect::arch::{
    aur_info_url, next_batch, parse_aur_list, parse_desc_file, ArchCollector, AurPackage,
    RepoDatabase,
};
use pg_collect::ntriples::NTriplesWriter;
use pg_collect::textmap::Texts;
use std::io::Write;

const SAMPLE_DESC: &str = "\
%FILENAME%
curl-8.7.1-3-x86_64.pkg.tar.zst

%NAME%
curl

%VERSION%
8.7.1-3

%DESC%
command line tool and library for transferring data with URLs

%URL%
https://curl.se

%LICENSE%
MIT

%ARCH%
x86_64

%BUILDDATE%
1714000000

%PACKAGER%
David Runge <dvzrv@archlinux.org>

%ISIZE%
1064960

%SHA256SUM%
abcdef1234567890
";

const SAMPLE_DEPENDS: &str = "\
%DEPENDS%
brotli
ca-certificates
krb5
libnghttp2
libnghttp3
libpsl
libssh2>=1.0
openssl
zlib
zstd

%PROVIDES%
libcurl.so=4-64

%CONFLICTS%
curl-git

%OPTDEPENDS%
libnghttp3: HTTP/3 support
";

#[test]
fn test_parse_desc_file() {
    let sections = parse_desc_file(SAMPLE_DESC);

    assert_eq!(
        sections.get("%NAME%").and_then(|v| v.items.first()).map(|s| s.as_str()),
        Some("curl")
    );
    assert_eq!(
        sections.get("%VERSION%").and_then(|v| v.items.first()).map(|s| s.as_str()),
        Some("8.7.1-3")
    );
    assert_eq!(
        sections.get("%LICENSE%").and_then(|v| v.items.first()).map(|s| s.as_str()),
        Some("MIT")
    );
}

#[test]
fn test_parse_depends_file() {
    let sections = parse_desc_file(SAMPLE_DEPENDS);

    let deps = &sections.get("%DEPENDS%").unwrap().items;
    assert!(deps.contains(&"openssl".to_string()));
    assert!(deps.contains(&"libssh2>=1.0".to_string()));

    let provides = &sections.get("%PROVIDES%").unwrap().items;
    assert!(provides.contains(&"libcurl.so=4-64".to_string()));

    let conflicts = &sections.get("%CONFLICTS%").unwrap().items;
    assert!(conflicts.contains(&"curl-git".to_string()));
}

#[test]
fn test_emit_arch_package_triples_dual_typing() {
    let collector = ArchCollector::new(
        "https://archive.archlinux.org/repos/last".into(),
        vec!["core".into()],
        false,
    );
    let mut writer = NTriplesWriter::new();

    let mut fields = parse_desc_file(SAMPLE_DESC);
    let dep_fields = parse_desc_file(SAMPLE_DEPENDS);
    for i in 0..dep_fields.len() {
        fields.insert(
            dep_fields.key_at(i).clone(),
            Texts { items: dep_fields.value_at(i).items.clone() },
        );
    }

    let triples = collector.emit_arch_package_triples(&mut writer, &fields, "core");
    let content = writer.into_string();

    assert!(content.contains("core#BinaryPackage"));
    assert!(content.contains("arch#ArchPackage"));
    assert!(content.contains("\"curl\""));
    assert!(content.contains("\"8.7.1-3\""));
    assert!(content.contains("directlyDependsOn"));
    assert!(content.contains("maintainedBy"));
    assert!(content.contains("David Runge"));
    assert!(triples > 20);
    assert_eq!(triples, writer.len());
}

fn texts(v: &serde_json::Value) -> Vec<String> {
    v.as_array()
        .map(|a| a.iter().map(|s| s.as_str().unwrap().to_string()).collect())
        .unwrap_or_default()
}

fn text(v: &serde_json::Value) -> Option<String> {
    v.as_str().map(|s| s.to_string())
}

fn aur_entry(v: &serde_json::Value) -> AurPackage {
    AurPackage {
        name: text(&v["Name"]).unwrap(),
        version: text(&v["Version"]),
        description: text(&v["Description"]),
        url: text(&v["URL"]),
        maintainer: text(&v["Maintainer"]),
        num_votes: v["NumVotes"].as_i64(),
        popularity: v["Popularity"].as_f64().map(|p| p.to_string()),
        out_of_date: v["OutOfDate"].as_i64(),
        depends: texts(&v["Depends"]),
        make_depends: texts(&v["MakeDepends"]),
        license: texts(&v["License"]),
    }
}

#[test]
fn test_aur_deserialization() {
    let json = r#"{
            "resultcount": 1,
            "results": [{
                "Name": "yay",
                "Version": "12.3.5-1",
                "Description": "Yet another yogurt. An AUR helper written in Go",
                "URL": "https://github.com/Jguer/yay",
                "Maintainer": "jguer",
                "NumVotes": 2500,
                "Popularity": 45.67,
                "OutOfDate": null,
                "Depends": ["pacman", "git"],
                "MakeDepends": ["go"],
                "License": ["GPL-3.0-or-later"]
            }]
        }"#;

    let rpc: serde_json::Value = serde_json::from_str(json).unwrap();
    let results: Vec<AurPackage> =
        rpc["results"].as_array().unwrap().iter().map(aur_entry).collect();
    assert_eq!(results.len(), 1);
    assert_eq!(results[0].name, "yay");
    assert_eq!(results[0].num_votes, Some(2500));
    assert!(results[0].out_of_date.is_none());
}

fn yay() -> AurPackage {
    AurPackage {
        name: "yay".into(),
        version: Some("12.3.5-1".into()),
        description: Some("AUR helper".into()),
        url: Some("https://github.com/Jguer/yay".into()),
        maintainer: Some("jguer".into()),
        num_votes: Some(2500),
        popularity: Some(45.67_f64.to_string()),
        out_of_date: None,
        depends: vec!["pacman".into(), "git".into()],
        make_depends: vec!["go".into()],
        license: vec!["GPL-3.0-or-later".into()],
    }
}

#[test]
fn test_emit_aur_package_triples() {
    let collector =
        ArchCollector::new("https://archive.archlinux.org/repos/last".into(), vec![], true);
    let mut writer = NTriplesWriter::new();

    let triples = collector.emit_aur_package_triples(&mut writer, &yay());
    let content = writer.into_string();

    assert!(content.contains("core#BinaryPackage"));
    assert!(content.contains("arch#ArchPackage"));
    assert!(content.contains("arch#AUR"));
    assert!(content.contains("\"yay\""));
    assert!(content.contains("aurVotes"));
    assert!(content.contains("aurPopularity"));
    assert!(triples > 15);
    assert_eq!(triples, writer.len());
}

#[test]
fn the_names_of_the_aur_are_asked_for_in_batches() {
    let names = parse_aur_list("# AUR package list\nyay\n\nparu\na+b\n");
    assert_eq!(names, vec!["yay", "paru", "a+b"]);
    let url = aur_info_url(&names, 0, 3);
    assert!(url.starts_with("https://aur.archlinux.org/rpc/"), "{url}");
    assert!(url.contains("arg[]=yay"), "{url}");
    assert!(url.contains("arg[]=paru"), "{url}");
    assert_eq!(next_batch(3, 0), 3);
    assert_eq!(next_batch(3, 3), 3);
}

fn database(files: &[(&str, &str)]) -> Vec<u8> {
    let mut builder = tar::Builder::new(Vec::new());
    for (path, content) in files {
        let mut header = tar::Header::new_gnu();
        header.set_size(content.len() as u64);
        header.set_mode(0o644);
        header.set_cksum();
        builder.append_data(&mut header, path, content.as_bytes()).unwrap();
    }
    let tarred = builder.into_inner().unwrap();
    let mut gz = flate2::write::GzEncoder::new(Vec::new(), flate2::Compression::default());
    gz.write_all(&tarred).unwrap();
    gz.finish().unwrap()
}

#[test]
fn the_files_of_a_package_are_read_together() {
    let collector = ArchCollector::new("https://m".into(), vec!["core".into()], false);
    let bytes = database(&[
        ("curl-8.7.1-3/desc", SAMPLE_DESC),
        ("curl-8.7.1-3/depends", SAMPLE_DEPENDS),
    ]);
    let mut writer = NTriplesWriter::new();
    let (packages, triples) =
        collector.collect_repo(&mut writer, "core", &RepoDatabase::Bytes(bytes));
    assert_eq!(packages, 1);
    assert_eq!(triples, writer.len());
    let content = writer.into_string();
    assert!(content.contains("\"8.7.1-3\""));
    assert!(content.contains("libssh2"));
    assert_eq!(collector.collect_repo(&mut writer, "core", &RepoDatabase::Failed), (0, 0));
    assert!(collector.process_repo(&mut writer, "core", b"no archive").is_err());
}

#[test]
fn a_run_takes_the_user_repository_only_where_it_is_asked_for() {
    let bytes = database(&[("curl-8.7.1-3/desc", SAMPLE_DESC)]);
    let run = |include_aur: bool| {
        let c = ArchCollector::new("https://m".into(), vec!["core".into()], include_aur);
        let mut writer = NTriplesWriter::new();
        let counts = c
            .collect(&mut writer, &vec![RepoDatabase::Bytes(bytes.clone())], &Some(vec![yay()]))
            .unwrap();
        let mut head = NTriplesWriter::new();
        c.emit_distribution_metadata(&mut head);
        assert_eq!(counts.1 + head.len(), writer.len());
        (counts.0, writer.into_string().contains("\"yay\""))
    };
    assert_eq!(run(true), (2, true));
    assert_eq!(run(false), (1, false));
}
