use tiny_cloud::config::CredentialSize;
use tiny_cloud::credentials::check_validity;
use tiny_cloud::error::AuthError;
use tiny_cloud::utils::{make_url, sanitize_user};

fn sizes() -> CredentialSize {
    CredentialSize { max_username: 10, min_username: 3, max_passwd: 256, min_passwd: 8 }
}

#[test]
fn valid_credentials_pass() {
    assert_eq!(check_validity("alice", b"correcthorse", &sizes()), Ok(()));
    assert_eq!(check_validity("abc", b"123456789", &sizes()), Ok(()));
}

#[test]
fn username_size_is_checked_first() {
    assert_eq!(
        check_validity("al", b"x", &sizes()),
        Err(AuthError::BadCredentials("Accepted username size is between 3 and 10 characters".to_string()))
    );
    assert_eq!(
        check_validity("abcdefghijk", b"correcthorse", &sizes()),
        Err(AuthError::BadCredentials("Accepted username size is between 3 and 10 characters".to_string()))
    );
}

#[test]
fn password_size_is_checked() {
    assert_eq!(
        check_validity("alice", b"short", &sizes()),
        Err(AuthError::BadCredentials("Accepted password length is between 8 and 256 bytes".to_string()))
    );
}

#[test]
fn username_must_be_alphanumeric() {
    assert_eq!(
        check_validity("al:ce", b"correcthorse", &sizes()),
        Err(AuthError::BadCredentials("Username must be alphanumeric".to_string()))
    );
    assert_eq!(
        check_validity("al ce", b"correcthorse", &sizes()),
        Err(AuthError::BadCredentials("Username must be alphanumeric".to_string()))
    );
}

#[test]
fn make_url_uses_prefix() {
    assert_eq!(make_url("tcloud", "/api/info"), "/tcloud/api/info");
    assert_eq!(make_url("", "/api/info"), "/api/info");
}

#[test]
fn sanitize_user_cuts_and_filters() {
    assert_eq!(sanitize_user("al!ice", 10), "alice");
    assert_eq!(sanitize_user("abcdefghijklmnop", 10), "abcdefghij");
    assert_eq!(sanitize_user("a b", 10), "ab");
}
