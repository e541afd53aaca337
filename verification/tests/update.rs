use linux_toolbox::update::{
    check_for_updates, newer_release, strip_leading, update_notice, ReleaseVersion, UpdateError,
    CURRENT_VERSION,
};

fn version(major: u64, minor: u64, patch: u64, pre: &str, build: &str) -> ReleaseVersion {
    ReleaseVersion { major, minor, patch, pre: pre.to_string(), build: build.to_string() }
}

#[test]
fn newer_tag_is_announced_without_its_prefix() {
    assert_eq!(check_for_updates("0.6.7", true, Some("v0.7.0")), Ok(Some("0.7.0".to_string())));
    assert_eq!(check_for_updates("0.6.7", true, Some("0.6.8")), Ok(Some("0.6.8".to_string())));
    assert_eq!(check_for_updates("0.6.7", true, Some("vv1.0.0")), Ok(Some("1.0.0".to_string())));
    assert_eq!(check_for_updates("0.6.7", true, Some("v0.10.0")), Ok(Some("0.10.0".to_string())));
}

#[test]
fn same_or_older_tag_is_no_update() {
    assert_eq!(check_for_updates("0.6.7", true, Some("v0.6.7")), Ok(None));
    assert_eq!(check_for_updates("0.6.7", true, Some("v0.6.6")), Ok(None));
    assert_eq!(check_for_updates("0.6.7", true, Some("0.5.99")), Ok(None));
    assert_eq!(check_for_updates(CURRENT_VERSION, true, Some("v0.6.7")), Ok(None));
}

#[test]
fn prerelease_and_build_follow_semver_order() {
    assert_eq!(check_for_updates("1.0.0", true, Some("v1.0.0-rc.1")), Ok(None));
    assert_eq!(
        check_for_updates("1.0.0-rc.1", true, Some("v1.0.0")),
        Ok(Some("1.0.0".to_string()))
    );
    assert_eq!(
        check_for_updates("1.0.0-beta.2", true, Some("v1.0.0-beta.11")),
        Ok(Some("1.0.0-beta.11".to_string()))
    );
    assert_eq!(
        check_for_updates("1.0.0-alpha.1", true, Some("1.0.0-alpha.beta+exp.7")),
        Ok(Some("1.0.0-alpha.beta+exp.7".to_string()))
    );
    assert_eq!(
        check_for_updates("1.0.0", true, Some("1.0.0+build.5")),
        Ok(Some("1.0.0+build.5".to_string()))
    );
}

#[test]
fn missing_tag_is_no_update() {
    assert_eq!(check_for_updates("0.6.7", true, None), Ok(None));
}

#[test]
fn unsuccessful_request_is_no_update() {
    assert_eq!(check_for_updates("0.6.7", false, Some("v9.9.9")), Ok(None));
    assert_eq!(check_for_updates("0.6.7", false, Some("not a version")), Ok(None));
    assert_eq!(check_for_updates("0.6.7", false, None), Ok(None));
    assert!(matches!(
        check_for_updates("0.6", false, Some("v9.9.9")),
        Err(UpdateError::CurrentVersion(_, _))
    ));
}

#[test]
fn unreadable_versions_are_errors() {
    match check_for_updates("0.6.7", true, Some("release-7")) {
        Err(UpdateError::LatestVersion(tag, reason)) => {
            assert_eq!(tag, "release-7");
            assert!(!reason.is_empty());
        }
        other => panic!("unexpected: {:?}", other),
    }
    assert!(matches!(
        check_for_updates("0.6.7", true, Some("v1.0")),
        Err(UpdateError::LatestVersion(_, _))
    ));
    assert!(matches!(
        check_for_updates("0.6.7", true, Some("")),
        Err(UpdateError::LatestVersion(_, _))
    ));
    match check_for_updates("six", true, Some("v1.0.0")) {
        Err(UpdateError::CurrentVersion(text, reason)) => {
            assert_eq!(text, "six");
            assert!(!reason.is_empty());
        }
        other => panic!("unexpected: {:?}", other),
    }
    assert!(matches!(check_for_updates("1.0.01", true, None), Err(UpdateError::CurrentVersion(_, _))));
}

#[test]
fn error_messages_name_the_version() {
    let error = UpdateError::LatestVersion("v1.x".to_string(), "bad".to_string());
    assert_eq!(error.message(), "Failed to parse latest version 'v1.x': bad");
    let error = UpdateError::CurrentVersion("0.6".to_string(), "short".to_string());
    assert_eq!(error.message(), "Failed to parse current version '0.6': short");
}

#[test]
fn failed_check_counts_as_no_update() {
    assert_eq!(update_notice(Ok(Some("0.7.0".to_string()))), Some("0.7.0".to_string()));
    assert_eq!(update_notice(Ok(None)), None);
    assert_eq!(
        update_notice(Err(UpdateError::LatestVersion("x".to_string(), "bad".to_string()))),
        None
    );
}

#[test]
fn notice_depends_on_the_comparison() {
    let latest = version(1, 2, 3, "", "");
    assert_eq!(newer_release(&latest, Some(true)), Some("1.2.3".to_string()));
    assert_eq!(newer_release(&latest, Some(false)), None);
    assert_eq!(newer_release(&latest, None), None);
}

#[test]
fn versions_are_written_as_semver_writes_them() {
    let cases = [
        version(0, 0, 0, "", ""),
        version(1, 2, 3, "", ""),
        version(10, 20, 30, "rc.1", ""),
        version(1, 0, 0, "", "build.5"),
        version(u64::MAX, 0, 7, "alpha.beta", "exp.sha.5114f85"),
    ];
    let expected = [
        "0.0.0",
        "1.2.3",
        "10.20.30-rc.1",
        "1.0.0+build.5",
        "18446744073709551615.0.7-alpha.beta+exp.sha.5114f85",
    ];
    for (case, text) in cases.iter().zip(expected) {
        assert_eq!(case.to_text(), text);
        let parsed = semver::Version::parse(text).unwrap();
        assert_eq!(case.to_text(), parsed.to_string());
        assert_eq!(case.major, parsed.major);
        assert_eq!(case.pre, parsed.pre.as_str());
        assert_eq!(case.build, parsed.build.as_str());
    }
}

#[test]
fn leading_characters_are_all_removed() {
    assert_eq!(strip_leading("v1.2.3", 'v'), "1.2.3");
    assert_eq!(strip_leading("vvv1", 'v'), "1");
    assert_eq!(strip_leading("1.v2", 'v'), "1.v2");
    assert_eq!(strip_leading("", 'v'), "");
    assert_eq!(strip_leading("vvv", 'v'), "");
    assert_eq!(strip_leading("V1", 'v'), "V1");
    assert_eq!(strip_leading("ééa", 'é'), "a");
}
