use pg_collect::collect_opkg_index::{feeds, FeedReply, OpkgIndexCollector};
use pg_collect::failure::{CollectError, ErrorKind};
use pg_collect::ntriples::NTriplesWriter;
use pg_collect::textmap::{Fields, TextMap};
use std::io::Write;

const PACKAGES: &str = "Package: testpkg
Version: 1.0-1
Depends: libc
Architecture: mips_24kc
Installed-Size: 10240
Filename: testpkg_1.0-1_mips_24kc.ipk
Size: 5000
SHA256sum: abc123
Description: Test package

Package: anotherpkg
Version: 2.0-1
Architecture: mips_24kc
Installed-Size: 20480
Filename: anotherpkg_2.0-1_mips_24kc.ipk
Size: 8000
SHA256sum: def456
Description: Another test
";

fn collector() -> OpkgIndexCollector {
    OpkgIndexCollector::new(
        "openwrt".into(),
        "24.10".into(),
        "https://downloads.openwrt.org/releases/24.10.0".into(),
        "mips_24kc".into(),
    )
}

fn lines() -> Vec<String> {
    PACKAGES.lines().map(|l| l.to_string()).collect()
}

#[test]
fn test_opkg_packages_gz_parse() {
    let mut writer = NTriplesWriter::new();

    let mut identity_map: Fields = TextMap::new();
    let source_uri = "https://packagegraph.github.io/d/pkg/openwrt/24.10/any/testpkg/1.0";
    identity_map.insert("testpkg".to_string(), source_uri.to_string());

    let mut digest_map: Fields = TextMap::new();
    let count = collector()
        .parse_packages_from_reader(&lines(), &None, &mut writer, &identity_map, &mut digest_map)
        .unwrap();

    assert_eq!(count, 2, "Should parse 2 packages");
    assert!(digest_map.contains_key("sha256:abc123"), "Should have testpkg digest");
    assert!(digest_map.contains_key("sha256:def456"), "Should have anotherpkg digest");

    let content = writer.into_string();
    assert!(content.contains("opkg#BinaryIPK"), "Should emit BinaryIPK nodes");
    assert!(content.contains("builtFromSource"), "Should link to source");
    assert!(content.contains(source_uri), "Should link testpkg to its source URI");
    assert!(content.contains("installedSize"), "Should have installed size");
    assert!(content.contains("opkgFilename"), "Should have filename");
    assert!(content.contains("hasChecksum"), "Should have checksum");
}

#[test]
fn a_feed_that_breaks_off_is_an_error() {
    let mut writer = NTriplesWriter::new();
    let mut digests: Fields = TextMap::new();
    let r = collector().parse_packages_from_reader(
        &lines(),
        &Some("broken".to_string()),
        &mut writer,
        &TextMap::new(),
        &mut digests,
    );
    let err = r.unwrap_err();
    assert_eq!((err.kind, err.message.as_str()), (ErrorKind::Unreadable, "broken"));
}

#[test]
fn feeds_that_are_missing_are_passed_over() {
    let mut gz = flate2::write::GzEncoder::new(Vec::new(), flate2::Compression::default());
    gz.write_all(PACKAGES.as_bytes()).unwrap();
    let bytes = gz.finish().unwrap();
    let all = feeds();
    let replies: Vec<FeedReply> = all
        .iter()
        .enumerate()
        .map(|(i, _)| if i == 0 { FeedReply::Bytes(bytes.clone()) } else { FeedReply::NotFound })
        .collect();
    let mut writer = NTriplesWriter::new();
    let (_, digests) = collector().collect(&mut writer, &TextMap::new(), &replies).unwrap();
    assert_eq!(digests.len(), 2);
    assert!(writer.into_string().contains("\"anotherpkg\""));
    assert!(collector().feed_url(&all[0]).starts_with("https://downloads.openwrt.org/releases/24.10.0/"));
}

#[test]
fn a_package_without_a_version_is_invalid() {
    let mut writer = NTriplesWriter::new();
    let mut digests: Fields = TextMap::new();
    let mut fields: Fields = TextMap::new();
    let none: Fields = TextMap::new();
    let err =
        collector().emit_binary_package(&mut writer, &fields, &none, &mut digests).unwrap_err();
    assert_eq!((err.kind, err.message.as_str()), (ErrorKind::InvalidData, "Missing Package field"));
    fields.insert("Package".to_string(), "a".to_string());
    let err =
        collector().emit_binary_package(&mut writer, &fields, &none, &mut digests).unwrap_err();
    assert_eq!((err.kind, err.message.as_str()), (ErrorKind::InvalidData, "Missing Version field"));
    assert_eq!(writer.len(), 0);
    let lost = FeedReply::Failed(CollectError::new(ErrorKind::Other, "timeout".to_string()));
    let err = collector().collect(&mut writer, &none, &vec![lost]).err().unwrap();
    assert_eq!((err.kind, err.message.as_str()), (ErrorKind::Other, "timeout"));
}

#[test]
fn dependencies_are_read_without_signs_and_versions() {
    let targets = |depends: &str| {
        let mut fields: Fields = TextMap::new();
        fields.insert("Package".to_string(), "p".to_string());
        fields.insert("Version".to_string(), "1".to_string());
        fields.insert("Depends".to_string(), depends.to_string());
        let mut writer = NTriplesWriter::new();
        let mut digests: Fields = TextMap::new();
        collector()
            .emit_binary_package(&mut writer, &fields, &TextMap::new(), &mut digests)
            .unwrap();
        let text = writer.into_string();
        text.lines()
            .filter(|l| l.contains("directlyDependsOn"))
            .map(|l| l.rsplit('/').next().unwrap().trim_end_matches("> .").to_string())
            .collect::<Vec<String>>()
    };
    assert_eq!(targets("libc (>= 2.0), +libssl, -conflict, "), vec!["libc", "libssl"]);
    assert_eq!(targets("libc +libssl -conflict"), vec!["libc", "libssl"]);
    assert!(targets("").is_empty());
}
