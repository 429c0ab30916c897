use pg_collect::collect_glsa::{
    emit_affected_range, AtomReply, GlsaAdvisory, GlsaAffectedPackage, GlsaCollector,
};
use pg_collect::ntriples::{bnode_id, NTriplesWriter};
use pg_collect::uris::{event_type_uri, range_type_uri, RDF_TYPE, SEC};

const SAMPLE_GLSA_XML: &str = r#"<?xml version="1.0" encoding="UTF-8"?>
<!DOCTYPE glsa SYSTEM "http://www.gentoo.org/dtd/glsa.dtd">
<glsa id="202601-02">
  <title>Vim, gVim: Multiple Vulnerabilities</title>
  <synopsis>Multiple vulnerabilities have been discovered in Vim and gVim.</synopsis>
  <product type="ebuild">gvim,vim,vim-core</product>
  <announced>2026-01-26</announced>
  <revised count="1">2026-01-26</revised>
  <bug>961498</bug>
  <access>local</access>
  <affected>
    <package name="app-editors/gvim" auto="yes" arch="*">
      <unaffected range="ge">9.1.1652</unaffected>
      <vulnerable range="lt">9.1.1652</vulnerable>
    </package>
    <package name="app-editors/vim" auto="yes" arch="*">
      <unaffected range="ge">9.1.1652</unaffected>
      <vulnerable range="lt">9.1.1652</vulnerable>
    </package>
  </affected>
  <impact type="high">
    <p>Multiple vulnerabilities...</p>
  </impact>
  <references>
    <uri link="https://nvd.nist.gov/vuln/detail/CVE-2025-53905">CVE-2025-53905</uri>
    <uri link="https://nvd.nist.gov/vuln/detail/CVE-2025-53906">CVE-2025-53906</uri>
  </references>
</glsa>
"#;

#[test]
fn test_parse_glsa_xml() {
    let advisory = GlsaAdvisory::from_xml(SAMPLE_GLSA_XML).expect("Should parse valid GLSA XML");

    assert_eq!(advisory.id, "GLSA-202601-02");
    assert_eq!(advisory.date, "2026-01-26");
    assert_eq!(advisory.severity, Some("high".to_string()));
    assert_eq!(advisory.cves, vec!["CVE-2025-53905", "CVE-2025-53906"]);
    assert_eq!(advisory.affected_packages.len(), 2);

    let vim_pkg = &advisory.affected_packages[0];
    assert_eq!(vim_pkg.atom, "app-editors/gvim");
    assert_eq!(vim_pkg.vulnerable_ranges, vec![("lt".to_string(), "9.1.1652".to_string())]);
    assert_eq!(vim_pkg.unaffected_ranges, vec![("ge".to_string(), "9.1.1652".to_string())]);
}

#[test]
fn test_parse_multi_package_glsa() {
    let advisory =
        GlsaAdvisory::from_xml(SAMPLE_GLSA_XML).expect("Should parse multi-package GLSA");

    assert_eq!(advisory.affected_packages.len(), 2);
    assert_eq!(advisory.affected_packages[0].atom, "app-editors/gvim");
    assert_eq!(advisory.affected_packages[1].atom, "app-editors/vim");
}

#[test]
fn test_cve_extraction_from_references() {
    let advisory = GlsaAdvisory::from_xml(SAMPLE_GLSA_XML).expect("Should parse GLSA");

    assert_eq!(advisory.cves.len(), 2);
    assert!(advisory.cves.contains(&"CVE-2025-53905".to_string()));
    assert!(advisory.cves.contains(&"CVE-2025-53906".to_string()));
}

#[test]
fn test_affected_range_emission() {
    let mut writer = NTriplesWriter::new();

    let affected_pkg = GlsaAffectedPackage {
        atom: "app-editors/vim".to_string(),
        vulnerable_ranges: vec![("lt".to_string(), "9.1.1652".to_string())],
        unaffected_ranges: vec![("ge".to_string(), "9.1.1652".to_string())],
    };

    let range_input = format!("{}_{}", "GLSA-202601-02", affected_pkg.atom);
    let range_bnode = bnode_id("ar", &range_input);

    let cve_uri = "https://packagegraph.github.io/d/cve/CVE-2025-53905";
    writer.write_bnode_object(cve_uri, &format!("{SEC}hasAffectedRange"), &range_bnode);
    writer.write_bnode_subject(&range_bnode, RDF_TYPE, &format!("{SEC}AffectedRange"));
    writer.write_bnode_subject(
        &range_bnode,
        &format!("{SEC}rangeType"),
        &range_type_uri("ECOSYSTEM"),
    );

    let intro_bnode = format!("{}_intro", range_bnode);
    writer.write_bnode_to_bnode(&range_bnode, &format!("{SEC}hasRangeEvent"), &intro_bnode);
    writer.write_bnode_subject(&intro_bnode, RDF_TYPE, &format!("{SEC}RangeEvent"));
    writer.write_bnode_subject(
        &intro_bnode,
        &format!("{SEC}eventType"),
        &event_type_uri("introduced"),
    );
    writer.write_bnode_literal(&intro_bnode, &format!("{SEC}eventVersion"), "0");

    let fix_bnode = format!("{}_fix0", range_bnode);
    writer.write_bnode_to_bnode(&range_bnode, &format!("{SEC}hasRangeEvent"), &fix_bnode);
    writer.write_bnode_subject(&fix_bnode, RDF_TYPE, &format!("{SEC}RangeEvent"));
    writer.write_bnode_subject(&fix_bnode, &format!("{SEC}eventType"), &event_type_uri("fixed"));
    writer.write_bnode_literal(&fix_bnode, &format!("{SEC}eventVersion"), "9.1.1652");

    let content = writer.into_string();

    assert!(content.contains("hasAffectedRange"));
    assert!(content.contains("AffectedRange"));
    assert!(content.contains("rangeType"));
    assert!(content.contains("hasRangeEvent"));
    assert!(content.contains("RangeEvent"));
    assert!(content.contains("event-introduced"));
    assert!(content.contains("event-fixed"));
    assert!(content.contains("eventVersion"));
}

#[test]
fn test_deterministic_blank_nodes() {
    let range_input1 = format!("{}_{}", "GLSA-202601-02", "app-editors/vim");
    let range_input2 = format!("{}_{}", "GLSA-202601-02", "app-editors/vim");

    let bnode1 = bnode_id("ar", &range_input1);
    let bnode2 = bnode_id("ar", &range_input2);

    assert_eq!(bnode1, bnode2, "Blank node IDs must be deterministic");
}

#[test]
fn an_advisory_is_written_with_its_ranges() {
    let advisory = GlsaAdvisory::from_xml(SAMPLE_GLSA_XML).unwrap();
    let collector = GlsaCollector::new(None);
    let mut writer = NTriplesWriter::new();
    let replies = vec![AtomReply::Packages(vec!["urn:gvim".to_string()]), AtomReply::Failed];
    let triples = collector.emit_advisory(&mut writer, &advisory, &replies);
    assert_eq!(triples, writer.len());
    let content = writer.into_string();
    assert!(content.contains("<urn:gvim>"));
    assert!(content.contains("event-introduced"));
    assert!(content.contains("event-fixed"));
    assert!(content.contains("\"9.1.1652\""));
    assert!(content.contains(&bnode_id("ar", "GLSA-202601-02_app-editors/vim")));
}

#[test]
fn what_is_not_an_advisory_is_not_read() {
    assert!(GlsaAdvisory::from_xml("<glsa><title>x</title></glsa>").is_none());
    assert!(GlsaAdvisory::from_xml("").is_none());
}

#[test]
fn old_advisories_are_passed_over() {
    let collector = GlsaCollector::new(Some("2026-01-01".to_string()));
    assert!(collector.is_too_old("2025-12-31"));
    assert!(!collector.is_too_old("2026-01-01"));
    assert!(!GlsaCollector::new(None).is_too_old("1999-01-01"));
}

#[test]
fn identifiers_come_from_the_link_and_the_text() {
    let document = |references: &str| {
        format!(
            "<glsa id=\"202601-09\"><announced>2026-01-26</announced>\
             <references>{references}</references></glsa>"
        )
    };
    let read = |references: &str| GlsaAdvisory::from_xml(&document(references)).unwrap().cves;
    assert_eq!(
        read("<uri link=\"https://nvd.nist.gov/vuln/detail/CVE-2025-1111\">details</uri>"),
        vec!["CVE-2025-1111"]
    );
    assert_eq!(
        read("<uri link=\"https://x/CVE-2025-1111\">CVE-2025-2222</uri>"),
        vec!["CVE-2025-2222", "CVE-2025-1111"]
    );
    assert_eq!(
        read("<uri link=\"https://x/CVE-2025-1111\">CVE-2025-1111</uri><uri link=\"https://x/CVE-2025-1111\"/>"),
        vec!["CVE-2025-1111"]
    );
}

#[test]
fn the_first_unaffected_version_is_the_fix() {
    let package = GlsaAffectedPackage {
        atom: "a/b".to_string(),
        vulnerable_ranges: vec![],
        unaffected_ranges: vec![
            ("ge".to_string(), "2.0".to_string()),
            ("rge".to_string(), "1.9.5".to_string()),
        ],
    };
    let mut writer = NTriplesWriter::new();
    let n = emit_affected_range(&mut writer, "urn:cve", "GLSA-1", &package);
    assert_eq!(n, 11);
    let content = writer.into_string();
    assert!(content.contains("\"2.0\""));
    assert!(!content.contains("1.9.5"));
    assert!(!content.contains("_fix1"));
}
