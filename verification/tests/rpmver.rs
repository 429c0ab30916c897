use pg_collect::rpmver::{compare_builds, compare_versions, Order};

#[test]
fn numbers_are_compared_by_value() {
    assert!(matches!(compare_versions("1.9", "1.10"), Order::Less));
    assert!(matches!(compare_versions("1.010", "1.10"), Order::Equal));
    assert!(matches!(compare_versions("2", "10"), Order::Less));
    assert!(matches!(compare_versions("1.0", "1.0"), Order::Equal));
    assert!(matches!(compare_versions("1.0.1", "1.0"), Order::Greater));
}

#[test]
fn numbers_are_newer_than_letters() {
    assert!(matches!(compare_versions("1.0a", "1.0.1"), Order::Less));
    assert!(matches!(compare_versions("1.b", "1.2"), Order::Less));
    assert!(matches!(compare_versions("1.0a", "1.0b"), Order::Less));
}

#[test]
fn a_tilde_comes_before_everything() {
    assert!(matches!(compare_versions("1.0~rc1", "1.0"), Order::Less));
    assert!(matches!(compare_versions("1.0~rc1", "1.0~rc2"), Order::Less));
    assert!(matches!(compare_versions("1.0", "1.0~rc9"), Order::Greater));
}

#[test]
fn a_caret_comes_after_the_bare_version() {
    assert!(matches!(compare_versions("1.0^", "1.0"), Order::Greater));
    assert!(matches!(compare_versions("1.0^git1", "1.0.1"), Order::Less));
    assert!(matches!(compare_versions("1.0^git1", "1.0^git2"), Order::Less));
}

#[test]
fn separators_do_not_count() {
    assert!(matches!(compare_versions("1.0", "1_0"), Order::Equal));
    assert!(matches!(compare_versions("1..0", "1.0"), Order::Equal));
}

#[test]
fn the_epoch_counts_before_the_version() {
    assert!(matches!(compare_builds(1, "1.0", "1", 0, "9.0", "1"), Order::Greater));
    assert!(matches!(compare_builds(0, "1.0", "2", 0, "1.0", "10"), Order::Less));
    assert!(matches!(compare_builds(0, "1.0", "1.el9", 0, "1.0", "1.el9"), Order::Equal));
}

#[test]
fn the_order_reverses_and_chains() {
    let sorted = ["1.0~a", "1.0", "1.0^1", "1.0a", "1.0.1", "1.1", "1.10", "2"];
    for i in 0..sorted.len() {
        for j in 0..sorted.len() {
            let there = compare_versions(sorted[i], sorted[j]);
            let back = compare_versions(sorted[j], sorted[i]);
            if i < j {
                assert!(matches!(there, Order::Less), "{} < {}", sorted[i], sorted[j]);
                assert!(matches!(back, Order::Greater), "{} > {}", sorted[j], sorted[i]);
            } else if i == j {
                assert!(matches!(there, Order::Equal));
            }
        }
    }
}
