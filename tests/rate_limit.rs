use git_utils::rate_limit::{snapshot_from_header, ProbeError, RateLimitSnapshot};

#[test]
fn missing_header_is_empty_snapshot() {
    assert_eq!(snapshot_from_header(None).unwrap(), RateLimitSnapshot { remaining: None });
}

#[test]
fn header_value_is_read() {
    assert_eq!(snapshot_from_header(Some("4987")).unwrap().remaining, Some(4987));
    assert_eq!(snapshot_from_header(Some("0")).unwrap().remaining, Some(0));
    assert_eq!(snapshot_from_header(Some("+12")).unwrap().remaining, Some(12));
    assert_eq!(snapshot_from_header(Some("4294967295")).unwrap().remaining, Some(u32::MAX));
}

#[test]
fn bad_header_value() {
    for v in ["", "+", "-1", "12a", " 5", "4294967296"] {
        assert!(matches!(snapshot_from_header(Some(v)), Err(ProbeError::BadHeader)), "{}", v);
    }
}
