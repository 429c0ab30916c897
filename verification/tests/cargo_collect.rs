use pg_collect::cargo_collect::{
    crate_url, deps_url, retry_step, CargoCollector, CrateData, CrateDep, CrateVersion,
    CratesResponse, Crawl, Reply, RetryStep,
};
use pg_collect::ntriples::NTriplesWriter;

fn text(v: &serde_json::Value) -> Option<String> {
    v.as_str().map(|s| s.to_string())
}

fn response(json: &str) -> CratesResponse {
    let v: serde_json::Value = serde_json::from_str(json).unwrap();
    let c = &v["crate"];
    CratesResponse {
        crate_data: CrateData {
            name: text(&c["name"]).unwrap(),
            description: text(&c["description"]),
            license: text(&c["license"]),
            homepage: text(&c["homepage"]),
            repository: text(&c["repository"]),
            downloads: c["downloads"].as_i64(),
            max_stable_version: text(&c["max_stable_version"]),
        },
        versions: v["versions"]
            .as_array()
            .unwrap()
            .iter()
            .map(|x| CrateVersion {
                num: text(&x["num"]).unwrap(),
                edition: text(&x["edition"]),
                rust_version: text(&x["rust_version"]),
                features: x["features"].as_object().unwrap().keys().cloned().collect(),
            })
            .collect(),
    }
}

#[test]
fn test_crate_response_deserialization() {
    let json = r#"{
            "crate": {
                "name": "serde",
                "description": "A serialization framework",
                "license": "MIT OR Apache-2.0",
                "homepage": "https://serde.rs",
                "repository": "https://github.com/serde-rs/serde",
                "downloads": 300000000,
                "max_stable_version": "1.0.200",
                "categories": ["encoding"],
                "keywords": ["serialization"]
            },
            "versions": [{"num": "1.0.200", "edition": "2021", "rust_version": "1.56.0", "features": {"derive": ["serde_derive"]}}]
        }"#;
    let resp = response(json);
    assert_eq!(resp.crate_data.name, "serde");
    assert_eq!(resp.crate_data.max_stable_version.as_deref(), Some("1.0.200"));
    assert_eq!(resp.versions[0].edition.as_deref(), Some("2021"));
    assert_eq!(resp.versions[0].features, vec!["derive"]);
    assert_eq!(crate_url("serde"), "https://crates.io/api/v1/crates/serde");
    assert_eq!(
        deps_url("serde", &resp),
        "https://crates.io/api/v1/crates/serde/1.0.200/dependencies"
    );
}

fn serde_crate() -> CratesResponse {
    CratesResponse {
        crate_data: CrateData {
            name: "serde".into(),
            description: Some("Serialization framework".into()),
            license: Some("MIT OR Apache-2.0".into()),
            homepage: Some("https://serde.rs".into()),
            repository: Some("https://github.com/serde-rs/serde".into()),
            downloads: Some(300000000),
            max_stable_version: Some("1.0.200".into()),
        },
        versions: vec![CrateVersion {
            num: "1.0.200".into(),
            edition: Some("2021".into()),
            rust_version: Some("1.56.0".into()),
            features: vec!["derive".into(), "default".into()],
        }],
    }
}

fn dep(name: &str, kind: &str) -> CrateDep {
    CrateDep { crate_id: name.into(), req: "^1.0".into(), kind: kind.into(), optional: true }
}

#[test]
fn test_emit_crate_triples_dual_typing() {
    let mut writer = NTriplesWriter::new();
    let deps = vec![dep("serde_derive", "normal")];
    let triples = CargoCollector::new().emit_crate_triples(&mut writer, &serde_crate(), &deps);
    let content = writer.into_string();

    assert!(content.contains("core#Package"));
    assert!(content.contains("cargo#Crate"));
    assert!(content.contains("\"serde\""));
    assert!(content.contains("cargo#edition"));
    assert!(content.contains("\"2021\""));
    assert!(content.contains("cargo#msrv"));
    assert!(content.contains("directlyDependsOn"));
    assert!(content.contains("featureName"));
    assert!(triples > 20);
    assert_eq!(triples, writer.len());
}

#[test]
fn a_crawl_takes_every_crate_once() {
    let mut crawl = Crawl::new(vec!["a".to_string(), "b".to_string(), "a".to_string()]);
    assert_eq!(crawl.next(10).as_deref(), Some("a"));
    crawl.expand("a", &vec![dep("c", "normal"), dep("b", "normal")], 1);
    assert_eq!(crawl.next(10).as_deref(), Some("b"));
    crawl.expand("b", &vec![], 1);
    assert_eq!(crawl.next(10).as_deref(), Some("c"));
    crawl.expand("c", &vec![dep("d", "normal")], 1);
    assert_eq!(crawl.next(10), None);
    assert_eq!(crawl.visited_count(), 3);
}

#[test]
fn a_walk_goes_on_with_what_came() {
    let c = CargoCollector::new();
    let mut writer = NTriplesWriter::new();
    let mut crawl = Crawl::new(vec!["serde".to_string(), "gone".to_string()]);
    let mut counts = (0, 0);
    while let Some(name) = crawl.next(10) {
        let reply = match name.as_str() {
            "serde" => Some((
                serde_crate(),
                vec![dep("serde_derive", "normal"), dep("criterion", "dev")],
            )),
            _ => None,
        };
        let gained = c.collect(&mut writer, &mut crawl, &name, &reply, 1);
        counts = (counts.0 + gained.0, counts.1 + gained.1);
    }
    assert_eq!(counts, (1, writer.len()));
    assert_eq!(crawl.visited_count(), 3);
}

#[test]
fn a_crawl_has_a_limit() {
    let mut crawl = Crawl::new(vec!["a".to_string(), "b".to_string()]);
    assert_eq!(crawl.next(1).as_deref(), Some("a"));
    assert_eq!(crawl.next(1), None);
    assert_eq!(crawl.visited_count(), 2);
}

#[test]
fn a_limited_request_waits() {
    let (step, _) = retry_step(0, &Reply::Limited { retry_after: Some(7) }, 1000);
    assert!(matches!(step, RetryStep::Wait { ms: 7000 }));
    let (step, next) = retry_step(0, &Reply::Limited { retry_after: None }, 1000);
    assert!(matches!(step, RetryStep::Wait { ms: 1000 }));
    assert_eq!(next, 2000);
}
