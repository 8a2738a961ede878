use git_utils::version_tag::{bump_version, next_version, parse_version_tag, Bump, TagError, Version};

fn v(a: u32, b: u32, c: u32) -> Version {
    Version { major: a, minor: b, patch: c }
}

#[test]
fn first_tag_is_one() {
    assert_eq!(next_version(None, None), Ok(v(1, 0, 0)));
    assert_eq!(next_version(None, Some("anything")), Ok(v(1, 0, 0)));
}

#[test]
fn keywords_bump() {
    assert_eq!(next_version(Some("v1.2.3"), Some("maj: rewrite")), Ok(v(2, 0, 0)));
    assert_eq!(next_version(Some("v1.2.3"), Some("mod: tweak")), Ok(v(1, 3, 3)));
    assert_eq!(next_version(Some("v1.2.3"), Some("add: feature")), Ok(v(1, 3, 3)));
    assert_eq!(next_version(Some("v1.2.3"), Some("del: old code")), Ok(v(1, 3, 3)));
    assert_eq!(next_version(Some("v1.2.3"), Some("fix: typo\n\nbody")), Ok(v(1, 2, 4)));
}

#[test]
fn unrecognized_inputs() {
    assert_eq!(next_version(Some("1.2.3"), Some("fix: x")), Err(TagError::UnrecognizedTag));
    assert_eq!(next_version(Some("v1.2"), Some("fix: x")), Err(TagError::UnrecognizedTag));
    assert_eq!(next_version(Some("v1.2.3-rc1"), Some("fix: x")), Err(TagError::UnrecognizedTag));
    assert_eq!(next_version(Some("v1.2.99999999999"), Some("fix: x")), Err(TagError::UnrecognizedTag));
    assert_eq!(next_version(Some("v1.2.3"), None), Err(TagError::NoCommitMessage));
    assert_eq!(next_version(Some("v1.2.3"), Some("Fix: x")), Err(TagError::UnrecognizedMessage));
    assert_eq!(next_version(Some("v1.2.3"), Some("feat: x")), Err(TagError::UnrecognizedMessage));
    assert_eq!(next_version(Some("v1.2.3"), Some(" fix: x")), Err(TagError::UnrecognizedMessage));
}

#[test]
fn parse_and_overflow() {
    assert_eq!(parse_version_tag("v10.0.7"), Some(v(10, 0, 7)));
    assert_eq!(parse_version_tag("v4294967295.0.0"), Some(v(u32::MAX, 0, 0)));
    assert_eq!(bump_version(v(u32::MAX, 1, 1), Bump::Major), Err(TagError::VersionOverflow));
    assert_eq!(bump_version(v(1, u32::MAX, 1), Bump::Patch), Ok(v(1, u32::MAX, 2)));
}
