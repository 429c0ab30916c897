use pg_collect::collect_openwrt_upstream::{OpenWrtPackageMeta, OpenwrtUpstreamCollector};
use pg_collect::forge::emit_upstream_project;
use pg_collect::ntriples::NTriplesWriter;
use pg_collect::textmap::{Fields, TextMap};
use pg_collect::uris::upstream_uri;

fn fields(pairs: &[(&str, &str)]) -> Fields {
    let mut f: Fields = TextMap::new();
    for (k, v) in pairs {
        f.insert(k.to_string(), v.to_string());
    }
    f
}

fn meta(name: &str, url: &str, proto: &str, hash: &str) -> TextMap<OpenWrtPackageMeta> {
    let mut m: TextMap<OpenWrtPackageMeta> = TextMap::new();
    m.insert(
        name.to_string(),
        OpenWrtPackageMeta {
            source_url: Some(url.to_string()),
            source_proto: Some(proto.to_string()),
            source_hash: Some(hash.to_string()),
        },
    );
    m
}

fn collector() -> OpenwrtUpstreamCollector {
    OpenwrtUpstreamCollector::new("openwrt".into(), "24.10".into())
}

#[test]
fn test_upstream_project_with_subpackages() {
    let mut writer = NTriplesWriter::new();

    let identity_map = fields(&[
        ("foo", "https://packagegraph.github.io/d/pkg/openwrt/24.10/any/foo/1.0"),
        ("foo-utils", "https://packagegraph.github.io/d/pkg/openwrt/24.10/any/foo-utils/1.0"),
    ]);
    let parsed_meta = meta("foo", "https://github.com/example/foo.git", "git", "abc123");
    let parent_map = fields(&[("foo-utils", "foo")]);

    let triples = collector().collect(&mut writer, &identity_map, &parsed_meta, &parent_map);
    assert!(triples > 0, "Should emit upstream triples");
    let content = writer.into_string();

    assert!(content.contains("UpstreamProject"), "Should emit UpstreamProject type");
    assert!(content.contains("projectName"), "Should emit projectName");
    assert!(
        content.contains("\"example/foo\""),
        "Should derive projectName from the resolved repo URL's owner/repo slug"
    );
    assert!(content.contains("hasUpstreamProject"), "Should link via hasUpstreamProject");
    assert!(content.contains("projectRepository"), "Should link to projectRepository");

    let upstream_count = content.matches("hasUpstreamProject").count();
    assert_eq!(upstream_count, 2, "Both foo and foo-utils should link to same UpstreamProject");
}

#[test]
fn test_upstream_project_distro_scoped_uri() {
    let mut writer = NTriplesWriter::new();
    let identity_map = fields(&[(
        "openssl",
        "https://packagegraph.github.io/d/pkg/openwrt/24.10/any/openssl/1.0",
    )]);
    let parsed_meta = meta(
        "openssl",
        "https://www.openssl.org/source/openssl-1.0.tar.gz",
        "default",
        "def456",
    );
    collector().collect(&mut writer, &identity_map, &parsed_meta, &fields(&[]));
    assert!(
        writer.into_string().contains("/upstream/openwrt%2Fopenssl"),
        "UpstreamProject URI should be distro-scoped"
    );
}

#[test]
fn test_upstream_project_git_source_keyed_by_repo_not_name() {
    let mut writer = NTriplesWriter::new();
    let identity_map =
        fields(&[("bar", "https://packagegraph.github.io/d/pkg/openwrt/24.10/any/bar/2.0")]);
    let parsed_meta = meta("bar", "https://github.com/example/bar.git", "git", "abc123");
    collector().collect(&mut writer, &identity_map, &parsed_meta, &fields(&[]));
    let content = writer.into_string();

    let expected_uri = upstream_uri("https://github.com/example/bar");
    assert!(
        content.contains(&expected_uri),
        "UpstreamProject should be keyed by canonical repo URL, not openwrt/{{name}}"
    );
    assert!(
        !content.contains("upstream/openwrt%2Fbar"),
        "Should NOT use the old per-name key when a forge URL resolves"
    );
}

#[test]
fn test_upstream_project_git_source_unresolvable_keeps_name_keying() {
    let mut writer = NTriplesWriter::new();
    let identity_map =
        fields(&[("baz", "https://packagegraph.github.io/d/pkg/openwrt/24.10/any/baz/1.0")]);
    let parsed_meta = meta("baz", "https://example-vcs.internal/baz.git", "git", "def456");
    collector().collect(&mut writer, &identity_map, &parsed_meta, &fields(&[]));
    let content = writer.into_string();

    assert!(content.contains("upstream/openwrt%2Fbaz"));
    assert!(!content.contains("projectRepository"));
}

#[test]
fn test_openwrt_and_forge_writer_converge_on_same_upstream_project_hub() {
    let mut openwrt_writer = NTriplesWriter::new();
    let identity_map =
        fields(&[("bar", "https://packagegraph.github.io/d/pkg/openwrt/24.10/any/bar/2.0")]);
    let parsed_meta = meta("bar", "https://github.com/example/bar.git", "git", "abc123");
    collector().collect(&mut openwrt_writer, &identity_map, &parsed_meta, &fields(&[]));
    let openwrt_content = openwrt_writer.into_string();

    let mut forge_writer = NTriplesWriter::new();
    let canonical_repo_url = "https://github.com/example/bar";
    emit_upstream_project(&mut forge_writer, canonical_repo_url);
    let forge_content = forge_writer.into_string();

    let expected_hub_uri = upstream_uri(canonical_repo_url);
    assert!(
        openwrt_content.contains(&expected_hub_uri),
        "OpenWrt writer's output should reference the shared hub IRI {expected_hub_uri}\ngot:\n{openwrt_content}"
    );
    assert!(
        forge_content.contains(&expected_hub_uri),
        "forge writer's output should reference the shared hub IRI {expected_hub_uri}\ngot:\n{forge_content}"
    );

    let expected_project_name_triple = format!(
        "<{expected_hub_uri}> <{PKG}projectName> \"example/bar\" .",
        PKG = "https://purl.org/packagegraph/ontology/core#"
    );
    assert!(
        openwrt_content.contains(&expected_project_name_triple),
        "OpenWrt writer should emit the expected projectName triple\ngot:\n{openwrt_content}"
    );
    assert!(
        forge_content.contains(&expected_project_name_triple),
        "forge writer should emit the identical projectName triple\ngot:\n{forge_content}"
    );

    assert_ne!(
        openwrt_content, forge_content,
        "Full outputs should differ (different identity subjects) even though the hub converges"
    );

    assert!(openwrt_content.contains("hasUpstreamProject"));
    assert!(!forge_content.contains("hasUpstreamProject"));
}
