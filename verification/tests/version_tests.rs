use fontship::version::build_version;

#[test]
fn build_version_prefers_describe_string() {
    assert_eq!(
        build_version(Some("v0.9.1-3-gdeadbee"), "0.9.1"),
        "v0.9.1-3-gdeadbee"
    );
}

#[test]
fn build_version_falls_back_to_package_version() {
    assert_eq!(build_version(None, "0.9.1"), "0.9.1");
}

#[test]
fn build_version_is_stable_across_accesses() {
    let first = build_version(Some("v1.0.0"), "1.0.0");
    let second = build_version(Some("v1.0.0"), "1.0.0");
    assert_eq!(first, second);
    let first = build_version(None, "1.0.0");
    let second = build_version(None, "1.0.0");
    assert_eq!(first, second);
}
