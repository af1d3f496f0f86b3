use gdom::commands::update_policy::{is_newer_stable, is_release_artifact};

#[test]
fn only_newer_stable_versions_are_offered() {
    let installed = "0.1.0";
    for (version, expected) in [("0.1.1", true), ("0.2.0", true), ("0.1.0", false), ("0.0.9", false), ("0.2.0-rc.1", false)] {
        assert_eq!(is_newer_stable(installed, version), expected);
    }
}

#[test]
fn release_artifacts_must_belong_to_this_repository_and_version() {
    for (address, expected) in [
        ("https://github.com/phucrio/gdom/releases/download/v0.1.1/app.exe", true),
        ("http://github.com/phucrio/gdom/releases/download/v0.1.1/app.exe", false),
        ("https://github.com/other/gdom/releases/download/v0.1.1/app.exe", false),
        ("https://github.com/phucrio/gdom/releases/download/v0.2.0/app.exe", false),
        ("https://github.com@evil.example/phucrio/gdom/releases/download/v0.1.1/app.exe", false),
        ("https://github.com/phucrio/gdom/releases/download/v0.1.1/app.exe?token=secret", false),
    ] {
        assert_eq!(is_release_artifact(address, "0.1.1"), expected);
    }
}

#[test]
fn unparsable_versions_and_urls_are_never_offered() {
    assert!(!is_newer_stable("not-a-version", "1.0.0"));
    assert!(!is_newer_stable("1.0.0", "two"));
    assert!(!is_release_artifact("not a url", "0.1.1"));
    assert!(!is_release_artifact("https://github.com:8443/phucrio/gdom/releases/download/v0.1.1/app.exe", "0.1.1"));
    assert!(!is_release_artifact("https://github.com/phucrio/gdom/releases/download/v0.1.1/sub/app.exe", "0.1.1"));
}
