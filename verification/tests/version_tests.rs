use decker::version::{EngineVersion, SEMVER};

#[test]
fn semver_matches_cargo_toml() {
    assert!(!SEMVER.is_empty());
    assert!(SEMVER.contains('.'), "semver should be dotted: {SEMVER}");
}

#[test]
fn compatibility_check() {
    let a = EngineVersion::new("abc123".into());
    let b = EngineVersion::new("abc123".into());
    let c = EngineVersion::new("def456".into());

    assert!(a.is_compatible_with(&b));
    assert!(!a.is_compatible_with(&c));
}

#[test]
fn display_format() {
    let v = EngineVersion::new("abcdef1234567890".into());
    let s = v.display_string();
    assert!(s.contains(SEMVER));
    assert!(s.contains("abcdef123456"));
}

