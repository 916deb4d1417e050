use rauth::errors::AuthError;
use rauth::regex::{is_email_str, is_url_str, match_email, match_url, same_text};

#[test]
fn emails_are_recognised() {
    assert!(is_email_str("alice@example.com"));
    assert!(is_email_str("a.b_c+d-e%f@mail.example.org"));
    assert!(is_email_str("x@a.b"));
}

#[test]
fn malformed_emails_are_refused() {
    assert!(!is_email_str(""));
    assert!(!is_email_str("alice"));
    assert!(!is_email_str("@example.com"));
    assert!(!is_email_str("alice@"));
    assert!(!is_email_str("alice@localhost"));
    assert!(!is_email_str("alice@.example.com"));
    assert!(!is_email_str("alice@example.com."));
    assert!(!is_email_str("al ice@example.com"));
    assert!(!is_email_str("alice@exa@mple.com"));
    assert!(!is_email_str("alice@exa_mple.com"));
}

#[test]
fn match_email_reports_invalid_format() {
    assert_eq!(match_email("bob@example.com"), Ok(()));
    assert_eq!(match_email("bob"), Err(AuthError::InvalidFormat));
}

#[test]
fn urls_are_recognised() {
    assert!(is_url_str("http://example.com"));
    assert!(is_url_str("https://example.com"));
    assert!(is_url_str("https://api.example.com/v1/login?x=1"));
    assert!(is_url_str("http://a.b/"));
}

#[test]
fn malformed_urls_are_refused() {
    assert!(!is_url_str(""));
    assert!(!is_url_str("example.com"));
    assert!(!is_url_str("ftp://example.com"));
    assert!(!is_url_str("https://"));
    assert!(!is_url_str("https://localhost"));
    assert!(!is_url_str("https://.example.com"));
    assert!(!is_url_str("https://example.com/a b"));
    assert!(!is_url_str("https://exa mple.com"));
    assert!(!is_url_str("http:/example.com"));
}

#[test]
fn match_url_reports_invalid_format() {
    assert_eq!(match_url("https://example.com"), Ok(()));
    assert_eq!(match_url("example"), Err(AuthError::InvalidFormat));
}

#[test]
fn texts_compare_by_content() {
    assert!(same_text("abc", "abc"));
    assert!(same_text("", ""));
    assert!(!same_text("abc", "abd"));
    assert!(!same_text("abc", "ab"));
}
