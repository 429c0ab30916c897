use pg_collect::cran::{CranCollector, CranPackage};
use pg_collect::ntriples::NTriplesWriter;
use std::io::Write;

fn collector() -> CranCollector {
    CranCollector::new("https://cran.r-project.org".into())
}

#[test]
fn test_parse_dep_list() {
    let collector = collector();

    let result = collector.parse_dep_list("ggplot2 (>= 3.0), dplyr, tidyr (>= 1.0.0)");
    assert_eq!(result, vec!["ggplot2", "dplyr", "tidyr"]);

    let result = collector.parse_dep_list("R (>= 4.0.0)");
    assert!(result.is_empty());

    let result = collector.parse_dep_list("");
    assert!(result.is_empty());
}

const PACKAGES: &str = "Package: ggplot2\nVersion: 3.4.4\nDepends: R (>= 3.3)\nImports: cli, glue\nLicense: MIT\nNeedsCompilation: no\nTitle: Create Elegant Data Visualisations\n\nPackage: dplyr\nVersion: 1.1.4\nImports: rlang, tibble\nLicense: MIT\nNeedsCompilation: yes\n\n";

#[test]
fn test_parse_packages_file() {
    let lines: Vec<String> = PACKAGES.lines().map(|l| l.to_string()).collect();
    let packages = collector().parse_packages_file(&lines);

    assert_eq!(packages.len(), 2);
    assert_eq!(packages[0].package, "ggplot2");
    assert_eq!(packages[0].version, "3.4.4");
    assert_eq!(packages[0].imports, vec!["cli", "glue"]);
    assert_eq!(packages[0].needs_compilation, Some("no".to_string()));

    assert_eq!(packages[1].package, "dplyr");
    assert_eq!(packages[1].imports, vec!["rlang", "tibble"]);
}

#[test]
fn test_emit_cran_package_dual_typing() {
    let mut writer = NTriplesWriter::new();
    let pkg = CranPackage {
        package: "ggplot2".to_string(),
        version: "3.4.4".to_string(),
        title: Some("Create Elegant Data Visualisations".to_string()),
        license: Some("MIT".to_string()),
        needs_compilation: Some("no".to_string()),
        imports: vec!["cli".to_string(), "glue".to_string()],
        ..Default::default()
    };
    let triples = collector().emit_package_triples(&mut writer, &pkg);
    let content = writer.into_string();

    assert!(content.contains("core#Package"));
    assert!(content.contains("cran#CranPackage"));
    assert!(content.contains("\"ggplot2\""));
    assert!(content.contains("\"3.4.4\""));
    assert!(content.contains("cran#needsCompilation"));
    assert!(content.contains("\"false\""));
    assert!(triples > 10);
    assert_eq!(triples, writer.len());
}

#[test]
fn a_run_unpacks_the_index() {
    let mut gz = flate2::write::GzEncoder::new(Vec::new(), flate2::Compression::default());
    gz.write_all(PACKAGES.as_bytes()).unwrap();
    let bytes = gz.finish().unwrap();
    let mut writer = NTriplesWriter::new();
    let (n, triples) = collector().collect(&mut writer, &bytes).unwrap();
    assert_eq!(n, 2);
    let mut head = NTriplesWriter::new();
    collector().emit_distribution_metadata(&mut head);
    assert_eq!(triples + head.len(), writer.len());
    assert!(collector().collect(&mut NTriplesWriter::new(), b"plain").is_err());
}
