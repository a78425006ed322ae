use tiki_terminal::github::{classify_failure, issue_number_from_url, safe_version, CliFailure};
use tiki_terminal::usage_config::ApiConfig;

#[test]
fn failure_classes() {
    assert_eq!(classify_failure(&"error: not logged in to github.com".to_string()), CliFailure::NotAuthenticated);
    assert_eq!(classify_failure(&"HTTP 401: authentication required".to_string()), CliFailure::NotAuthenticated);
    assert_eq!(classify_failure(&"fatal: not a git repository".to_string()), CliFailure::NotARepository);
    assert_eq!(classify_failure(&"no git remotes found".to_string()), CliFailure::NotARepository);
    assert_eq!(classify_failure(&"something else".to_string()), CliFailure::Other);
    assert_eq!(classify_failure(&String::new()), CliFailure::Other);
    // authentication is reported first
    assert_eq!(
        classify_failure(&"not a git repository; not logged in".to_string()),
        CliFailure::NotAuthenticated
    );
}

#[test]
fn issue_numbers_from_urls() {
    assert_eq!(issue_number_from_url(&"https://github.com/o/r/issues/123".to_string()), Some(123));
    assert_eq!(issue_number_from_url(&"77".to_string()), Some(77));
    assert_eq!(issue_number_from_url(&"https://github.com/o/r/issues/".to_string()), None);
    assert_eq!(issue_number_from_url(&"https://github.com/o/r/pull/x1".to_string()), None);
}

#[test]
fn release_versions_become_safe_file_stems() {
    assert_eq!(safe_version(&"v1.0/beta:2*?\"<>|\\".to_string()), "v1.0_beta_2_______");
    assert_eq!(safe_version(&"1.2.3".to_string()), "1.2.3");
    assert_eq!(safe_version(&String::new()), "");
}

#[test]
fn session_key_settings() {
    let mut c = ApiConfig::empty();
    assert!(!c.has_session_key());
    assert!(c.usable_session_key().is_none());
    c.set_session_key(String::new());
    assert!(!c.has_session_key());
    c.set_session_key("k1".to_string());
    assert!(c.has_session_key());
    assert_eq!(c.usable_session_key(), Some("k1".to_string()));
    c.cache_org_id("org".to_string());
    assert_eq!(c.usable_org_id(), Some("org".to_string()));
    c.set_session_key("k2".to_string());
    assert!(c.usable_org_id().is_none());
    c.cache_org_id(String::new());
    assert!(c.usable_org_id().is_none());
    c.clear_session_key();
    assert!(c.session_key.is_none() && c.org_id.is_none());
}
