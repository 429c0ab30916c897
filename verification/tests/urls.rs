use pg_collect::alpine::AlpineCollector;
use pg_collect::arch::{unpack_aur_list, ArchCollector};
use pg_collect::chocolatey::ChocolateyCollector;
use pg_collect::collect_bodhi::BodhiCollector;
use pg_collect::collect_glsa::GlsaCollector;
use pg_collect::conda::CondaCollector;
use pg_collect::cran::CranCollector;
use pg_collect::debian::{
    distro_display_name, infer_repo_type_debian, name_of_arch, DebianCollector,
};
use pg_collect::spec_file::{detect_ecosystem, parse_spec};
use std::io::Write;

#[test]
fn every_collector_knows_where_to_look() {
    let alpine = AlpineCollector::new(
        "https://m/".into(),
        "alpine".into(),
        "v3.20".into(),
        vec![],
        "x86_64".into(),
    );
    assert_eq!(alpine.apkindex_url("main"), "https://m/v3.20/main/x86_64/APKINDEX.tar.gz");
    assert_eq!(alpine.secdb_address("main"), "https://secdb.alpinelinux.org/v3.20/main.json");

    let arch = ArchCollector::new("https://m/".into(), vec![], false);
    assert_eq!(arch.repo_url("core"), "https://m/core/os/x86_64/core.db.tar.gz");

    let choco = ChocolateyCollector::new("https://c/api/v2/".into());
    assert_eq!(
        choco.page_url(200, 100),
        "https://c/api/v2/Packages()?$filter=IsLatestVersion eq true&$top=100&$skip=200&$orderby=Id"
    );

    let bodhi = BodhiCollector::new("F43".into(), None);
    assert_eq!(
        bodhi.page_url(2),
        "https://bodhi.fedoraproject.org/rss/updates/?type=security&releases=F43&status=stable&page=2"
    );
    assert_eq!(bodhi.cache_key(2), "bodhi-F43-page-2");

    let glsa = GlsaCollector::new(None);
    assert_eq!(glsa.glsa_url("GLSA-202601-02"), "https://security.gentoo.org/glsa/202601-02.xml");
    assert_eq!(glsa.cache_key("GLSA-202601-02"), "glsa-202601-02");

    let conda =
        CondaCollector::new("conda".into(), "f".into(), "https://c/".into(), "linux-64".into());
    assert_eq!(conda.index_url(), "https://c/linux-64/repodata.json");

    let cran = CranCollector::new("https://cran/".into());
    assert_eq!(cran.packages_url(), "https://cran/src/contrib/PACKAGES.gz");

    let debian = DebianCollector::new(
        "http://deb/debian/".into(),
        "debian".into(),
        "trixie".into(),
        "main".into(),
    );
    assert_eq!(debian.release_url(), "http://deb/debian/dists/trixie/Release");
    assert!(debian.packages_url("binary-amd64").starts_with("http://deb/debian/dists/trixie/main/"));
    let err = debian.get_release_info("Codename: a\nSuite: b\n").err().unwrap();
    assert_eq!(err.kind, pg_collect::failure::ErrorKind::InvalidData);
    assert_eq!(err.message, "Incomplete release information");
}

#[test]
fn the_index_of_advisories_lists_their_identifiers() {
    let feed = "<rss><channel><link>https://security.gentoo.org/glsa</link><item><link>https://security.gentoo.org/glsa/202601-02</link></item><item><link>https://security.gentoo.org/other-page</link></item></channel></rss>";
    assert_eq!(
        GlsaCollector::new(None).parse_glsa_index(feed).unwrap(),
        vec!["GLSA-202601-02"]
    );
}

#[test]
fn queries_name_what_they_look_for() {
    let q = BodhiCollector::new("F43".into(), None).nvr_query("openssl", "3.0.9-1.fc43");
    assert!(q.contains("FILTER(STRSTARTS(?srpm, \"openssl-3.0.9-1.fc43\"))"), "{q}");
    let q = GlsaCollector::new(None).packages_query("app-editors/vim");
    assert!(q.contains("pkg:packageName \"app-editors/vim\""), "{q}");
    assert!(q.contains("GRAPH <https://packagegraph.github.io/graph/gentoo>"), "{q}");
}

#[test]
fn the_list_of_the_user_repository_is_packed() {
    let mut gz = flate2::write::GzEncoder::new(Vec::new(), flate2::Compression::default());
    gz.write_all(b"# comment\nyay\nparu\n").unwrap();
    assert_eq!(unpack_aur_list(&gz.finish().unwrap()).unwrap(), vec!["yay", "paru"]);
    assert!(unpack_aur_list(b"yay\n").is_err());
}

#[test]
fn distributions_have_names() {
    assert_eq!(distro_display_name("debian"), "Debian");
    assert_eq!(distro_display_name("ubuntu"), "Ubuntu");
    assert_eq!(name_of_arch("binary-amd64"), "amd64");
    assert_eq!(name_of_arch("amd64"), "amd64");
    assert!(!infer_repo_type_debian("http://deb.debian.org/debian").is_empty());
}

#[test]
fn build_requirements_name_an_ecosystem() {
    let spec = parse_spec("Name: x\nVersion: 1\nBuildRequires: python3dist(setuptools)\n");
    let d = detect_ecosystem(&spec, "x").unwrap();
    assert_eq!(d.ecosystem, "pypi");
    let spec = parse_spec("Name: x\nVersion: 1\nBuildRequires: perl(Test::More)\n");
    let d = detect_ecosystem(&spec, "perl-x").unwrap();
    assert_eq!(d.ecosystem, "cpan");
    let spec = parse_spec("Name: x\nVersion: 1\nBuildRequires: gcc\n");
    assert!(detect_ecosystem(&spec, "x").is_none());
}
