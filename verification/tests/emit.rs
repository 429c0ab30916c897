use pg_collect::emit::debian_ext::emit_debian_extras;
use pg_collect::emit::rdf::{
    emit_distribution_metadata, emit_rdf, write_package_identity_once, EmitPolicy,
};
use pg_collect::emit::rpm_ext::emit_rpm_extras;
use pg_collect::ir::{
    DependencyIr, MaintainerIr, PackageInfo, PackageIr, PackageMetadataIr, Scalar, ScopeIr,
    SourcePackageRef, IR_SCHEMA_VERSION,
};
use pg_collect::ntriples::NTriplesWriter;
use pg_collect::textmap::TextMap;
use pg_collect::uris::{maintainer_name_uri, VCS};

fn sample_ir() -> PackageIr {
    PackageIr {
        ir_schema: IR_SCHEMA_VERSION,
        scope: ScopeIr {
            collector: "rpm".to_string(),
            distro: "fedora".to_string(),
            release: "43".to_string(),
            repo: Some("fedora".to_string()),
            arch: "x86_64".to_string(),
        },
        package: PackageInfo {
            kind: "binary".to_string(),
            name: "glibc".to_string(),
            epoch: 0,
            version: "2.39".to_string(),
            release: Some("17.fc43".to_string()),
            full_version: "2.39-17.fc43.x86_64".to_string(),
            arch: "x86_64".to_string(),
        },
        source_package: Some(SourcePackageRef {
            name: "glibc".to_string(),
            version: Some("2.39".to_string()),
            release: Some("17.fc43".to_string()),
        }),
        maintainers: vec![MaintainerIr {
            name: "Fedora Project".to_string(),
            email: Some("admin@fedoraproject.org".to_string()),
            role_hint: Some("maintainer".to_string()),
        }],
        dependencies: vec![DependencyIr {
            name: "glibc-common".to_string(),
            dep_type: "requires".to_string(),
            version_constraint: Some("= 2.39-17.fc43".to_string()),
            flags: None,
        }],
        metadata: Some(PackageMetadataIr {
            summary: Some("GNU C Library".to_string()),
            description: Some("The GNU libc libraries".to_string()),
            homepage: None,
            license: None,
            checksum: None,
            size_bytes: None,
        }),
        collector_specific: None,
    }
}

#[test]
fn test_emit_rdf_produces_triples() {
    let mut writer = NTriplesWriter::new();
    let ir = sample_ir();
    let policy = EmitPolicy::default();

    let count = emit_rdf(&ir, &mut writer, &policy);
    assert!(count > 10, "Should emit at least 10 triples, got {}", count);

    let content = writer.into_string();
    assert_eq!(
        count + writer.skipped_invalid_iri(),
        content.lines().count() - writer.auto_inverses(),
        "reported tally ({count}) must match logical writes \
             ({} lines - {} auto-inverses, {} skipped)",
        content.lines().count(),
        writer.auto_inverses(),
        writer.skipped_invalid_iri()
    );

    assert!(content.contains("core#BinaryPackage"), "Should type as BinaryPackage");
    assert!(content.contains("core#PackageIdentity"), "Should create PackageIdentity");
    assert!(content.contains("core#identityName"), "identity must carry pkg:identityName");
    assert!(
        content.contains("Package Identity\""),
        "identity must carry a human-readable rdfs:label"
    );
    let identity_line = content
        .lines()
        .find(|l| l.contains("core#identityName"))
        .expect("identityName triple present");
    let identity_subject = identity_line.split_whitespace().next().unwrap();
    assert!(
        !content
            .lines()
            .any(|l| l.starts_with(identity_subject) && l.contains("core#packageName")),
        "identity subject {identity_subject} must not carry pkg:packageName"
    );
    assert!(content.contains("core#isVersionOf"), "Should link isVersionOf");
    assert!(content.contains("core#hasVersion"), "Should link hasVersion");
    assert!(content.contains("core#Person"), "Should type maintainer as Person");
    assert!(content.contains("foaf/0.1/name"), "Should emit foaf:name");
    assert!(content.contains("core#maintainedBy"), "Should emit maintainedBy");
    assert!(content.contains("core#SourcePackage"), "Should emit SourcePackage");
    assert!(content.contains("core#builtFromSource"), "Should emit builtFromSource");
    assert!(content.contains("core#hasDependency"), "Should emit dependency");
    assert!(content.contains("core#directlyDependsOn"), "Should emit directlyDependsOn");
    assert!(content.contains("core#partOfDistribution"), "Should emit partOfDistribution");
}

#[test]
fn write_package_identity_once_dedupes_and_avoids_package_name() {
    let mut writer = NTriplesWriter::new();
    let uri = "https://packagegraph.github.io/data/identity/fedora/42/x86_64/libssl.so.3";
    let first = write_package_identity_once(&mut writer, uri, "libssl.so.3");
    let second = write_package_identity_once(&mut writer, uri, "libssl.so.3");

    assert_eq!(first, 3, "first reference defines the identity");
    assert_eq!(second, 0, "a second reference to the same identity must write nothing");

    let content = writer.into_string();
    assert_eq!(content.lines().count(), 3, "exactly three lines for two references");
    assert!(content.contains("core#PackageIdentity"));
    assert!(content.contains("core#identityName"));
    assert!(content.contains("Package Identity\""), "needs rdfs:label");
    assert!(
        !content.contains("core#packageName"),
        "identity must not carry pkg:packageName -- it is rdfs:domain pkg:Package"
    );
}

#[test]
fn test_emit_distribution_metadata() {
    let mut writer = NTriplesWriter::new();
    let count = emit_distribution_metadata(&mut writer, "fedora", "43", "Fedora");
    assert!(count >= 6, "Should emit at least 6 triples");

    let content = writer.into_string();
    assert!(content.contains("core#Distribution"), "Should type as Distribution");
    assert!(content.contains("core#DistributionRelease"), "Should type as DistributionRelease");
    assert!(content.contains("core#releaseVersion"), "43 is numeric → releaseVersion");
    assert!(content.contains("core#partOfDistribution"), "Should link partOfDistribution");
    assert!(content.contains("core#hasRelease"), "Should auto-emit hasRelease inverse");
    assert!(content.contains("\"Fedora\""), "Should have rdfs:label");
}

#[test]
fn test_emit_maintainer_person_typing() {
    let mut writer = NTriplesWriter::new();
    emit_rdf(&sample_ir(), &mut writer, &EmitPolicy::default());
    let content = writer.into_string();

    assert!(content.contains("core#Person"), "Must type as Person");
    assert!(!content.contains("core#Maintainer"), "Must NOT type as Maintainer");
    assert!(content.contains("\"Fedora Project\""), "Should emit name");
    assert!(content.contains("mailto:admin@fedoraproject.org"), "Should emit mbox");
}

#[test]
fn test_emit_maintainer_name_only_uses_name_uri() {
    let mut writer = NTriplesWriter::new();
    let mut ir = sample_ir();
    ir.maintainers = vec![MaintainerIr {
        name: "Debian QA Group".to_string(),
        email: None,
        role_hint: Some("maintainer".to_string()),
    }];
    emit_rdf(&ir, &mut writer, &EmitPolicy::default());
    let content = writer.into_string();

    let expected_uri = maintainer_name_uri("Debian QA Group");
    assert!(
        content.contains(&expected_uri),
        "RDF emitter must use maintainer_name_uri() for name-only entries.\n\
             Expected URI: {}\nContent:\n{}",
        expected_uri,
        content
    );
    assert!(content.contains("core#Person"), "Must type as Person");
    assert!(content.contains("\"Debian QA Group\""), "Must emit name");
    assert!(!content.contains("mailto:"), "Name-only maintainer must not have mbox");
}

#[test]
fn test_emit_rdf_upstream_repo_links_to_hub() {
    let mut writer = NTriplesWriter::new();
    let mut ir = sample_ir();
    ir.metadata = Some(PackageMetadataIr {
        summary: Some("GNU C Library".to_string()),
        description: Some("The GNU libc libraries".to_string()),
        homepage: Some("https://github.com/owner/repo".to_string()),
        license: None,
        checksum: None,
        size_bytes: None,
    });
    emit_rdf(&ir, &mut writer, &EmitPolicy::default());
    let content = writer.into_string();

    assert!(content.contains("upstreamRepository"), "existing triple must still be emitted");
    assert!(
        content.contains(&format!("{VCS}Repository")),
        "existing repo typing must be preserved"
    );
    assert!(content.contains("UpstreamProject"), "new hub triple");
    assert!(
        content.contains("\"owner/repo\""),
        "projectName should be derived from the repo URL"
    );
    assert!(!content.contains("hasUpstreamProject"));
}

fn bare_ir(
    collector: &str,
    distro: &str,
    release: &str,
    arch: &str,
    name: &str,
    version: &str,
    full: &str,
) -> PackageIr {
    PackageIr {
        ir_schema: 1,
        scope: ScopeIr {
            collector: collector.to_string(),
            distro: distro.to_string(),
            release: release.to_string(),
            repo: None,
            arch: arch.to_string(),
        },
        package: PackageInfo {
            kind: "binary".to_string(),
            name: name.to_string(),
            epoch: 0,
            version: version.to_string(),
            release: None,
            full_version: full.to_string(),
            arch: arch.to_string(),
        },
        source_package: None,
        maintainers: vec![],
        dependencies: vec![],
        metadata: None,
        collector_specific: None,
    }
}

#[test]
fn test_emit_rpm_extras() {
    let mut writer = NTriplesWriter::new();
    let mut ir = bare_ir("rpm", "fedora", "43", "x86_64", "gcc", "14.0.1", "14.0.1-1.fc43.x86_64");
    ir.scope.repo = Some("fedora".to_string());
    ir.package.release = Some("1.fc43".to_string());
    let mut extra: TextMap<Scalar> = TextMap::new();
    extra.insert("source_rpm".to_string(), Scalar::Text("gcc-14.0.1-1.fc43.src.rpm".to_string()));
    extra.insert("rpm_group".to_string(), Scalar::Text("Development/Languages".to_string()));
    extra.insert("rpm_epoch".to_string(), Scalar::Integer(0));
    ir.collector_specific = Some(extra);

    let count = emit_rpm_extras(&ir, &mut writer);
    assert!(count >= 3, "Should emit at least 3 RPM-specific triples");

    let content = writer.into_string();
    assert!(content.contains("rpm#BinaryRPM"), "Should type as BinaryRPM");
    assert!(content.contains("rpm#sourceRPM"), "Should emit sourceRPM");
    assert!(content.contains("rpm#RPMGroup"), "Should emit RPMGroup");
    assert!(content.contains("packagingRepository"), "Should emit dist-git repo");
}

#[test]
fn test_emit_rpm_extras_no_collector_specific() {
    let mut writer = NTriplesWriter::new();
    let ir = bare_ir("rpm", "fedora", "43", "x86_64", "test", "1.0", "1.0");
    let count = emit_rpm_extras(&ir, &mut writer);
    assert_eq!(count, 0, "No collector_specific → 0 extra triples");
}

#[test]
fn test_emit_debian_extras() {
    let mut writer = NTriplesWriter::new();
    let mut ir =
        bare_ir("debian", "debian", "trixie", "amd64", "libc6", "2.36-9", "2.36-9+deb13u1");
    ir.scope.repo = Some("main".to_string());
    let mut extra: TextMap<Scalar> = TextMap::new();
    for (k, v) in [
        ("suite", "testing"),
        ("component", "main"),
        ("installed_size_kb", "13456"),
        ("vcs_git", "https://salsa.debian.org/glibc-team/glibc.git -b trixie"),
    ] {
        extra.insert(k.to_string(), Scalar::Text(v.to_string()));
    }
    ir.collector_specific = Some(extra);

    let count = emit_debian_extras(&ir, &mut writer);
    assert!(count >= 4, "Should emit at least 4 Debian-specific triples");

    let content = writer.into_string();
    assert!(content.contains("deb#BinaryPackage"), "Should type as BinaryPackage");
    assert!(content.contains("deb#inSuite"), "Should emit suite");
    assert!(content.contains("deb#inComponent"), "Should emit component");
    assert!(content.contains("deb#installedSize"), "Should emit installed size");
    assert!(content.contains("packagingRepository"), "Should emit VCS repo");
}

#[test]
fn the_policy_decides_on_the_packaging_repository() {
    let with = |emit_packaging_repo: bool| {
        let mut writer = NTriplesWriter::new();
        let policy = EmitPolicy { ecosystem_type_uri: None, emit_packaging_repo };
        let n = emit_rdf(&sample_ir(), &mut writer, &policy);
        assert_eq!(n, writer.len());
        (n, writer.into_string())
    };
    let (plain, without_link) = with(false);
    assert!(!without_link.contains("packagingRepository"));
    let (more, with_link) = with(true);
    assert_eq!(more, plain + 2);
    assert!(with_link.contains("packagingRepository"));
}
