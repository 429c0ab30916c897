use pg_collect::collect_bodhi::{
    advisory_from, cves_in, parse_rfc2822_to_iso8601, BodhiAdvisory, BodhiCollector, ItemFields,
    NvrReply,
};
use pg_collect::failure::ErrorKind;
use pg_collect::ntriples::NTriplesWriter;
use pg_collect::uris::{advisory_category_uri, RDF_TYPE, SEC};

const SAMPLE_RSS_ITEM: &str = r#"
        <item>
            <title>rust-openssl-0.10.78-1.fc43 rust-openssl-sys-0.9.114-1.fc43</title>
            <link>https://bodhi.fedoraproject.org/updates/FEDORA-2026-16a3cea414</link>
            <description>
                &lt;html&gt;&lt;body&gt;
                &lt;p&gt;This update fixes CVE-2026-41564 and CVE-2026-41676.&lt;/p&gt;
                &lt;ul&gt;
                &lt;li&gt;rust-openssl-0.10.78-1.fc43&lt;/li&gt;
                &lt;li&gt;rust-openssl-sys-0.9.114-1.fc43&lt;/li&gt;
                &lt;/ul&gt;
                &lt;/body&gt;&lt;/html&gt;
            </description>
            <pubDate>Tue, 15 Apr 2026 14:23:01 +0000</pubDate>
        </item>
    "#;

#[test]
fn test_parse_rss_item() {
    let advisory =
        BodhiAdvisory::from_rss_item(SAMPLE_RSS_ITEM).expect("Should parse valid RSS item");

    assert_eq!(advisory.id, "FEDORA-2026-16a3cea414");
    assert_eq!(
        advisory.nvrs,
        vec!["rust-openssl-0.10.78-1.fc43", "rust-openssl-sys-0.9.114-1.fc43"]
    );
    assert_eq!(advisory.cves, vec!["CVE-2026-41564", "CVE-2026-41676"]);
    assert_eq!(advisory.date, "Tue, 15 Apr 2026 14:23:01 +0000");
}

#[test]
fn test_cve_extraction_from_html() {
    let html = "This update fixes CVE-2025-1234, CVE-2025-5678, and CVE-2026-99999.";
    let cves: Vec<String> = cves_in(html);

    assert_eq!(cves, vec!["CVE-2025-1234", "CVE-2025-5678", "CVE-2026-99999"]);
}

#[test]
fn test_rss_item_no_cves() {
    let xml = r#"
            <item>
                <title>bash-5.2.26-6.fc43</title>
                <link>https://bodhi.fedoraproject.org/updates/FEDORA-2026-xyz789</link>
                <description>Bugfix update with no CVE references.</description>
                <pubDate>Wed, 16 Apr 2026 10:00:00 +0000</pubDate>
            </item>
        "#;

    let advisory = BodhiAdvisory::from_rss_item(xml).expect("Should parse item without CVEs");

    assert_eq!(advisory.id, "FEDORA-2026-xyz789");
    assert_eq!(advisory.nvrs, vec!["bash-5.2.26-6.fc43"]);
    assert_eq!(advisory.cves, Vec::<String>::new());
}

#[test]
fn test_parse_nvr() {
    let (name, vr) =
        BodhiCollector::parse_nvr("openssl-3.0.9-1.fc43").expect("Should parse valid NVR");
    assert_eq!(name, "openssl");
    assert_eq!(vr, "3.0.9-1.fc43");

    let (name2, vr2) = BodhiCollector::parse_nvr("rust-openssl-sys-0.9.114-1.fc43")
        .expect("Should parse NVR with hyphens in name");
    assert_eq!(name2, "rust-openssl-sys");
    assert_eq!(vr2, "0.9.114-1.fc43");

    assert!(BodhiCollector::parse_nvr("openssl").is_none());
}

#[test]
fn test_advisory_triple_emission() {
    let mut writer = NTriplesWriter::new();

    let advisory_uri = "https://packagegraph.github.io/d/advisory/fedora/43/FEDORA-2026-test";
    let pkg_uri =
        "https://packagegraph.github.io/d/pkg/fedora/43/x86_64/openssl/3.0.9-1.fc43.x86_64";
    let cve_uri = "https://packagegraph.github.io/d/cve/CVE-2026-1234";

    writer.write_triple(advisory_uri, RDF_TYPE, &format!("{SEC}SecurityAdvisory"));
    writer.write_literal(advisory_uri, &format!("{SEC}advisoryId"), "FEDORA-2026-test");
    writer.write_triple(
        advisory_uri,
        &format!("{SEC}advisoryType"),
        &advisory_category_uri("security"),
    );
    writer.write_datetime(advisory_uri, &format!("{SEC}advisoryDate"), "2026-04-15T00:00:00Z");
    writer.write_triple(advisory_uri, &format!("{SEC}advisoryForPackage"), pkg_uri);
    writer.write_triple(advisory_uri, &format!("{SEC}addressesVulnerability"), cve_uri);

    let content = writer.into_string();

    assert!(content.contains("security#SecurityAdvisory"));
    assert!(content.contains("FEDORA-2026-test"));
    assert!(content.contains("advisoryForPackage"));
    assert!(content.contains("/pkg/fedora/43/x86_64/openssl/"));
    assert!(content.contains("addressesVulnerability"));
    assert!(content.contains("CVE-2026-1234"));
}

#[test]
fn a_date_of_a_feed_becomes_a_timestamp() {
    assert_eq!(
        parse_rfc2822_to_iso8601("Tue, 15 Apr 2026 14:23:01 +0000").unwrap(),
        "2026-04-15T14:23:01Z"
    );
    let err = parse_rfc2822_to_iso8601("yesterday").unwrap_err();
    assert_eq!(err.kind, ErrorKind::InvalidInput);
    let err = parse_rfc2822_to_iso8601("Tue, 15 Foo 2026 14:23:01 +0000").unwrap_err();
    assert_eq!((err.kind, err.message.as_str()), (ErrorKind::InvalidInput, "Unknown month: Foo"));
}

#[test]
fn an_item_without_an_identifier_is_no_advisory() {
    let item = |id: Option<&str>, title: Option<&str>| ItemFields {
        id: id.map(|s| s.to_string()),
        title: title.map(|s| s.to_string()),
        description: None,
        pub_date: Some("d".to_string()),
    };
    assert!(advisory_from(item(None, Some("a-1-1")), vec![]).is_none());
    assert!(advisory_from(item(Some("FEDORA-1"), None), vec![]).is_none());
}

#[test]
fn a_feed_is_read_item_by_item() {
    let collector = BodhiCollector::new("43".to_string(), None);
    let feed = "<rss><channel><title>updates</title><item><title>a-1-1.fc43 b-2-1.fc43</title><link>https://bodhi.fedoraproject.org/updates/FEDORA-2026-16a3cea414</link><description>Fixes CVE-2026-41676.</description><pubDate>Tue, 15 Apr 2026 14:23:01 +0000</pubDate></item><item><title>c-1-1</title></item></channel></rss>";
    let advisories = collector.parse_rss_feed(feed).unwrap();
    assert_eq!(advisories.len(), 1);
    let mut writer = NTriplesWriter::new();
    let replies = vec![vec![
        NvrReply::Binaries(vec!["urn:p1".to_string(), "urn:p2".to_string()]),
        NvrReply::Failed,
    ]];
    let (n, triples) = collector.collect(&mut writer, &advisories, &replies);
    assert_eq!(n, 1);
    assert_eq!(triples, writer.len());
    let content = writer.into_string();
    assert!(content.contains("<urn:p2>"));
    assert!(content.contains("CVE-2026-41676"));
    assert!(content.contains("2026-04-15T14:23:01Z"));
    assert!(collector.parse_rss_feed("<rss><item></rss>").is_err());
}

#[test]
fn markup_in_a_feed_hides_the_description() {
    let collector = BodhiCollector::new("43".to_string(), None);
    let feed = format!("<rss><channel>{SAMPLE_RSS_ITEM}</channel></rss>");
    let advisories = collector.parse_rss_feed(&feed).unwrap();
    assert_eq!(advisories.len(), 1);
    assert_eq!(advisories[0].id, "FEDORA-2026-16a3cea414");
    assert!(advisories[0].cves.is_empty());
}

#[test]
fn an_empty_page_is_the_last() {
    assert_eq!(BodhiCollector::next_page(1, 20), Some(2));
    assert_eq!(BodhiCollector::next_page(7, 0), None);
    assert_eq!(BodhiCollector::next_page(u64::MAX, 1), None);
}

#[test]
fn empty_parts_of_a_build_are_passed_over() {
    assert_eq!(
        BodhiCollector::parse_nvr("a--1.0-1"),
        Some(("a-".to_string(), "1.0-1".to_string()))
    );
    assert_eq!(BodhiCollector::parse_nvr("a--b"), None);
}
