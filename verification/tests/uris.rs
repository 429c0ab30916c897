use pg_collect::ecosystem::detect_ecosystem_by_name;
use pg_collect::forge::{extract_forge_url, extract_repo, project_name_from_repo_url};
use pg_collect::number::{decimal_of, integer_of, parse_i64, parse_usize};
use pg_collect::order::sorted_texts;
use pg_collect::textmap::{Fields, TextMap};
use pg_collect::uris::{
    encode, is_numeric_release, maintainer_name_uri, maintainer_uri, normalize_email, package_uri,
};

#[test]
fn a_segment_is_percent_encoded() {
    assert_eq!(encode("a b/c"), "a%20b%2Fc");
    assert_eq!(encode("é"), "%C3%A9");
    assert_eq!(encode("A-z_0.9~"), "A-z_0.9~");
    assert_eq!(encode("g++"), "g%2B%2B");
    assert_ne!(encode("a/b"), encode("a%2Fb"));
}

#[test]
fn resources_have_stable_addresses() {
    assert_eq!(
        package_uri("fedora", "43", "x86_64", "openssl", "3.0.9-1.fc43"),
        "https://packagegraph.github.io/d/pkg/fedora/43/x86_64/openssl/3.0.9-1.fc43"
    );
    assert_eq!(
        maintainer_uri("a@b.org"),
        "https://packagegraph.github.io/d/maintainer/a@b.org"
    );
    assert_eq!(
        maintainer_name_uri("QA Group"),
        "https://packagegraph.github.io/d/maintainer/name/QA%20Group"
    );
}

#[test]
fn some_releases_are_numbers() {
    assert!(is_numeric_release("43"));
    assert!(!is_numeric_release("trixie"));
}

#[test]
fn an_address_is_lowered_and_trimmed() {
    assert_eq!(normalize_email(" Alice@Example.ORG "), "alice@example.org");
}

#[test]
fn a_repository_is_found_in_a_url() {
    assert_eq!(
        extract_forge_url("https://github.com/openssl/openssl/releases").unwrap(),
        "https://github.com/openssl/openssl"
    );
    assert_eq!(
        extract_forge_url("https://gitlab.com/a/b.git").unwrap(),
        "https://gitlab.com/a/b"
    );
    assert!(extract_forge_url("https://example.org/a/b").is_none());
    assert!(extract_forge_url("https://github.com/only").is_none());
    assert!(extract_forge_url("not a url").is_none());
    let repo = extract_repo("https://salsa.debian.org/glibc-team/glibc.git").unwrap();
    assert_eq!(repo.host, "salsa.debian.org");
    assert_eq!(repo.slug, "glibc-team/glibc");
    assert_eq!(project_name_from_repo_url("https://github.com/owner/repo"), "owner/repo");
    assert_eq!(project_name_from_repo_url("elsewhere"), "elsewhere");
}

#[test]
fn an_ecosystem_is_told_by_a_name() {
    let d = detect_ecosystem_by_name("python3-requests", None).unwrap();
    assert_eq!(d.ecosystem, "pypi");
    assert_eq!(d.package_name.as_deref(), Some("requests"));
    assert!(detect_ecosystem_by_name("bash", None).is_none());
}

#[test]
fn numbers_are_read_and_written() {
    assert_eq!(parse_i64("-42"), Some(-42));
    assert_eq!(parse_i64("+42"), Some(42));
    assert_eq!(parse_i64("9223372036854775807"), Some(i64::MAX));
    assert_eq!(parse_i64("-9223372036854775808"), Some(i64::MIN));
    assert_eq!(parse_i64("9223372036854775808"), None);
    assert_eq!(parse_i64(""), None);
    assert_eq!(parse_i64("-"), None);
    assert_eq!(parse_i64("1 "), None);
    assert_eq!(parse_usize("-0"), None);
    assert_eq!(decimal_of(0), "0");
    assert_eq!(decimal_of(u64::MAX), u64::MAX.to_string());
    assert_eq!(integer_of(i64::MIN), i64::MIN.to_string());
}

#[test]
fn texts_are_sorted_by_code_point() {
    let texts: Vec<String> =
        ["b", "a", "é", "", "ab", "B"].iter().map(|s| s.to_string()).collect();
    let mut expected = texts.clone();
    expected.sort();
    assert_eq!(sorted_texts(&texts), expected);
}

#[test]
fn a_later_value_takes_the_place_of_an_earlier_one() {
    let mut m: Fields = TextMap::new();
    m.insert("a".to_string(), "1".to_string());
    m.insert("b".to_string(), "2".to_string());
    m.insert("a".to_string(), "3".to_string());
    assert_eq!(m.len(), 2);
    assert_eq!(m.get("a").unwrap(), "3");
    assert_eq!(m.key_at(0), "a");
    assert_eq!(m.key_at(1), "b");
    assert!(m.get("c").is_none());
}
