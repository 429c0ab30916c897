use pg_collect::chocolatey::{ChocolateyCollector, ChocolateyPackage};
use pg_collect::ntriples::NTriplesWriter;

fn collector() -> ChocolateyCollector {
    ChocolateyCollector::new("https://community.chocolatey.org/api/v2".into())
}

const FEED: &str = r#"<?xml version="1.0"?>
<feed xmlns="http://www.w3.org/2005/Atom" xmlns:d="http://schemas.microsoft.com/ado/2007/08/dataservices" xmlns:m="http://schemas.microsoft.com/ado/2007/08/dataservices/metadata">
  <entry>
    <id>https://community.chocolatey.org/api/v2/Packages(Id='7zip',Version='23.01')</id>
    <content type="application/zip" src="https://community.chocolatey.org/api/v2/package/7zip/23.01"/>
    <m:properties>
      <d:Id>7zip</d:Id>
      <d:Version>23.01</d:Version>
      <d:Title>7-Zip</d:Title>
      <d:Description>File archiver</d:Description>
      <d:Authors>Igor Pavlov</d:Authors>
      <d:DownloadCount m:type="Edm.Int32">1000000</d:DownloadCount>
      <d:IsPrerelease m:type="Edm.Boolean">false</d:IsPrerelease>
    </m:properties>
  </entry>
</feed>"#;

#[test]
fn test_parse_odata_feed() {
    let packages = collector().parse_odata_feed(FEED);

    assert_eq!(packages.len(), 1);
    assert_eq!(packages[0].id, "7zip");
    assert_eq!(packages[0].version, "23.01");
    assert_eq!(packages[0].title, Some("7-Zip".to_string()));
    assert_eq!(packages[0].download_count, Some(1000000));
    assert!(!packages[0].is_prerelease);
}

#[test]
fn test_emit_chocolatey_package() {
    let mut writer = NTriplesWriter::new();
    let pkg = ChocolateyPackage {
        id: "7zip".to_string(),
        version: "23.01".to_string(),
        title: Some("7-Zip".to_string()),
        description: Some("File archiver".to_string()),
        authors: Some("Igor Pavlov".to_string()),
        package_hash: Some("abc123".to_string()),
        package_hash_algorithm: Some("SHA256".to_string()),
        download_count: Some(1000000),
        version_download_count: Some(50000),
        is_prerelease: false,
    };
    let triples = collector().emit_package_triples(&mut writer, &pkg);
    let content = writer.into_string();

    assert!(content.contains("core#Package"));
    assert!(content.contains("chocolatey#ChocolateyPackage"));
    assert!(content.contains("\"7zip\""));
    assert!(content.contains("chocolatey#downloadCount"));
    assert!(triples > 10);
    assert_eq!(triples, writer.len());
}

#[test]
fn a_feed_can_hold_several_entries() {
    let feed = "<feed><entry><m:properties><d:Id>a</d:Id><d:Version>1</d:Version><d:IsPrerelease>true</d:IsPrerelease></m:properties></entry><entry><d:Id>outside</d:Id></entry><entry><m:properties><d:Id>b &amp; c</d:Id><d:Version> 2 </d:Version><d:DownloadCount>many</d:DownloadCount></m:properties></entry><entry>";
    let packages = collector().parse_odata_feed(feed);
    assert_eq!(packages.len(), 2);
    assert!(packages[0].id == "a" && packages[0].is_prerelease);
    assert!(packages[1].id == "b & c" && packages[1].version == "2");
    assert_eq!(packages[1].download_count, None);
    let mut writer = NTriplesWriter::new();
    let (n, triples) = collector().collect(&mut writer, &packages);
    assert_eq!(n, packages.len());
    let mut head = NTriplesWriter::new();
    collector().emit_distribution_metadata(&mut head);
    assert_eq!(triples + head.len(), writer.len());
}

#[test]
fn what_was_seen_is_skipped() {
    assert_eq!(ChocolateyCollector::next_skip(0, 100), Some(100));
    assert_eq!(ChocolateyCollector::next_skip(100, 7), Some(107));
    assert_eq!(ChocolateyCollector::next_skip(107, 0), None);
    assert_eq!(ChocolateyCollector::next_skip(u64::MAX, 1), None);
}
