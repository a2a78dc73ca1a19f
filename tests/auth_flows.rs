use tiny_cloud::api::Login;
use tiny_cloud::auth::{
    change_pwd, change_pwd_token, change_sessionid, change_totp, check, delete_user, register_user, validate_user,
};
use tiny_cloud::config::{CredentialSize, Registration};
use tiny_cloud::error::{AuthError, ServiceError, TokenError};
use tiny_cloud::store::Store;
use tiny_cloud::token::{create_token, NewToken};
use totp_rs::TOTP;

const SERVER: &str = "TinyCloud";

fn sizes() -> CredentialSize {
    CredentialSize { max_username: 10, min_username: 3, max_passwd: 256, min_passwd: 8 }
}

fn s(x: &str) -> String {
    x.to_string()
}

fn registered() -> (Store, String, String) {
    let mut store = Store::new();
    store.insert_token(s("T16CHARSxxxxxxxx"), i64::MAX, None).unwrap();
    let (totp, userid) =
        register_user(&mut store, s("alice"), b"correcthorse", s("T16CHARSxxxxxxxx"), &sizes(), SERVER).unwrap();
    (store, totp.get_url(), userid)
}

fn current_code(url: &str) -> String {
    TOTP::from_url(url).unwrap().generate_current().unwrap()
}

#[test]
fn register_alice_with_token() {
    let (store, url, userid) = registered();
    assert!(url.starts_with("otpauth://totp/TinyCloud:alice?"));
    assert!(userid.starts_with("alice:"));
    assert_eq!(store.get_all_usernames(), vec![s("alice")]);
    assert!(store.get_all_tokens().is_empty());
    assert_eq!(validate_user(&store, userid), Ok((s("alice"), false)));
}

#[test]
fn register_refuses_bad_shapes_before_the_store() {
    let mut store = Store::new();
    store.insert_token(s("tok"), i64::MAX, None).unwrap();
    let r = register_user(&mut store, s("a:b"), b"correcthorse", s("tok"), &sizes(), SERVER);
    assert!(matches!(r, Err(ServiceError::Auth(AuthError::BadCredentials(_)))));
    assert_eq!(store.get_all_tokens().len(), 1);
    assert!(store.get_all_usernames().is_empty());
}

#[test]
fn register_needs_a_token() {
    let mut store = Store::new();
    let r = register_user(&mut store, s("alice"), b"correcthorse", s("nope"), &sizes(), SERVER);
    assert!(matches!(r, Err(ServiceError::Token(TokenError::NotFound))));
    assert!(store.get_all_usernames().is_empty());
}

#[test]
fn login_alice_with_totp() {
    let (store, url, userid) = registered();
    let code = current_code(&url);
    let login = Login { user: s("alice"), password: s("correcthorse"), totp: code.clone() };
    assert_eq!(check(&store, &login, &sizes()), Ok(userid));
    if code != "000000" {
        let wrong = Login { user: s("alice"), password: s("correcthorse"), totp: s("000000") };
        assert_eq!(check(&store, &wrong, &sizes()), Err(AuthError::InvalidTOTP));
    }
}

#[test]
fn login_unknown_user() {
    let (store, _, _) = registered();
    let login = Login { user: s("mallory"), password: s("anything"), totp: s("123456") };
    assert_eq!(check(&store, &login, &sizes()), Err(AuthError::InvalidCredentials));
}

#[test]
fn login_wrong_password() {
    let (store, _, _) = registered();
    let login = Login { user: s("alice"), password: s("wronghorse"), totp: s("123456") };
    assert_eq!(check(&store, &login, &sizes()), Err(AuthError::InvalidCredentials));
}

#[test]
fn reset_password_with_token() {
    let (mut store, url, userid) = registered();
    let reg = Registration { token_duration_seconds: 86400, token_size: 16 };
    let (token, duration) =
        create_token(&mut store, &reg, NewToken { duration: Some(600), for_user: Some(s("alice")) }).unwrap();
    assert_eq!(duration, 600);
    assert_eq!(change_pwd_token(&mut store, userid.clone(), b"batterystaple", token), Ok(()));
    assert_eq!(validate_user(&store, userid), Ok((s("alice"), false)));
    let old = Login { user: s("alice"), password: s("correcthorse"), totp: current_code(&url) };
    assert_eq!(check(&store, &old, &sizes()), Err(AuthError::InvalidCredentials));
}

#[test]
fn change_password_rotates_session() {
    let (mut store, _, userid) = registered();
    assert_eq!(change_pwd(&mut store, userid.clone(), b"batterystaple", b"wronghorse"), Err(AuthError::InvalidCredentials));
    assert_eq!(change_pwd(&mut store, userid.clone(), b"batterystaple", b"correcthorse"), Ok(()));
    assert_eq!(validate_user(&store, userid), Err(AuthError::InvalidSession));
}

#[test]
fn logoutall_invalidates_old_cookie() {
    let (mut store, _, userid) = registered();
    assert_eq!(change_sessionid(&mut store, userid.clone()), Ok(()));
    assert_eq!(validate_user(&store, userid.clone()), Err(AuthError::InvalidSession));
    assert_eq!(change_sessionid(&mut store, userid), Err(AuthError::InvalidSession));
}

#[test]
fn change_totp_rotates_session() {
    let (mut store, url, userid) = registered();
    let totp = change_totp(&mut store, userid.clone(), b"correcthorse", SERVER).unwrap();
    assert_ne!(totp.get_url(), url);
    assert_eq!(validate_user(&store, userid), Err(AuthError::InvalidSession));
}

#[test]
fn delete_removes_account() {
    let (mut store, _, userid) = registered();
    assert_eq!(delete_user(&mut store, userid.clone()), Ok(()));
    assert!(store.get_auth(&s("alice")).is_none());
    assert_eq!(delete_user(&mut store, userid), Err(AuthError::InvalidSession));
}
