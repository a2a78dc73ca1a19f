use tiny_cloud::api::Login;
use tiny_cloud::auth::{add_user, change_pwd, change_pwd_token, change_pwd_token_at, change_totp, check, register_user};
use tiny_cloud::config::{session_key_bytes, CredentialSize, Registration};
use tiny_cloud::error::{AuthError, DBError, ServiceError, TokenError};
use tiny_cloud::store::Store;
use tiny_cloud::token::{check_token_at, create_token_at, NewToken};
use tiny_cloud::totp::{check as check_totp, check_outcome, generate, has_totp_prefix};
use totp_rs::TOTP;

fn s(x: &str) -> String {
    x.to_string()
}

fn sizes() -> CredentialSize {
    CredentialSize { max_username: 10, min_username: 3, max_passwd: 256, min_passwd: 8 }
}

#[test]
fn reset_token_does_not_register() {
    let mut store = Store::new();
    store.insert_token(s("reset"), i64::MAX, Some(s("alice"))).unwrap();
    assert_eq!(check_token_at(&mut store, &s("reset"), 5), Err(TokenError::InvalidPwdToken));
    assert_eq!(store.get_all_tokens().len(), 1);
    let r = register_user(&mut store, s("mallory"), b"correcthorse", s("reset"), &sizes(), "Srv");
    assert!(matches!(r, Err(ServiceError::Token(TokenError::InvalidPwdToken))));
    assert!(store.get_all_usernames().is_empty());
    assert_eq!(store.get_all_tokens().len(), 1);
}

#[test]
fn token_expiry_is_now_plus_duration() {
    let mut store = Store::new();
    let reg = Registration { token_duration_seconds: 86400, token_size: 16 };
    let r = create_token_at(&mut store, s("abc"), 1000, &reg, NewToken { duration: Some(600), for_user: Some(s("alice")) });
    assert_eq!(r, Ok((s("abc"), 600)));
    let row = store.get_token(&s("abc")).unwrap();
    assert_eq!(row.expire_date, 1600);
    assert_eq!(row.for_user, Some(s("alice")));
    let r = create_token_at(&mut store, s("def"), 1000, &reg, NewToken { duration: None, for_user: None });
    assert_eq!(r, Ok((s("def"), 86400)));
    assert_eq!(store.get_token(&s("def")).unwrap().expire_date, 87400);
    let r = create_token_at(&mut store, s("abc"), 1000, &reg, NewToken { duration: None, for_user: None });
    assert!(matches!(r, Err(DBError::ExecError(_))));
    let r = create_token_at(&mut store, s("ghi"), i64::MAX as u64, &reg, NewToken { duration: Some(1), for_user: None });
    assert!(matches!(r, Err(DBError::TimeFailure(_))));
}

#[test]
fn totp_outcomes_map_exactly() {
    assert_eq!(check_outcome(Ok(true)), Ok(()));
    assert_eq!(check_outcome(Ok(false)), Err(AuthError::InvalidTOTP));
    assert_eq!(check_outcome(Err(s("clock"))), Err(AuthError::InternalError(s("Time error: clock"))));
}

#[test]
fn totp_enrolment_names_issuer_and_account() {
    let t = generate(s("alice"), "My:Cloud").unwrap();
    assert_eq!(t.issuer(), "MyCloud");
    assert_eq!(t.account(), "alice");
    assert!(t.get_url().starts_with("otpauth://totp/MyCloud:alice?"));
    let code = TOTP::from_url(t.get_url()).unwrap().generate_current().unwrap();
    assert_eq!(check_totp(t.get_url(), &code), Ok(()));
    assert!(matches!(generate(s("a:b"), "Srv"), Err(AuthError::InternalError(_))));
}

#[test]
fn zero_period_url_is_refused() {
    let url = s("otpauth://totp/Srv:alice?secret=GEZDGNBVGY3TQOJQGEZDGNBVGY3TQOJQ&issuer=Srv&period=0");
    assert!(matches!(check_totp(url, "123456"), Err(AuthError::InternalError(_))));
}

#[test]
fn sessions_stay_distinct_on_collision() {
    let mut store = Store::new();
    for name in ["aaa", "bbb", "ccc"] {
        assert!(store.add_user(s(name), s("h"), s("t"), false).is_ok());
    }
    assert_eq!(store.add_user(s("aaa"), s("h"), s("t"), false), Err(DBError::UserExists));
    let mut sids: Vec<String> = store.get_all_users().into_iter().map(|u| u.session_id.to_string()).collect();
    sids.sort();
    sids.dedup();
    assert_eq!(sids.len(), 3);
}

#[test]
fn cli_add_user_stores_verifying_hash() {
    let mut store = Store::new();
    let totp = add_user(&mut store, s("root"), b"correcthorse", true, &sizes(), "Srv").unwrap();
    assert_eq!(store.get_auth(&s("root")).unwrap().totp, totp.get_url());
    let code = TOTP::from_url(totp.get_url()).unwrap().generate_current().unwrap();
    let login = Login { user: s("root"), password: s("correcthorse"), totp: code };
    assert!(check(&store, &login, &sizes()).is_ok());
    assert!(matches!(
        add_user(&mut store, s("root"), b"correcthorse", false, &sizes(), "Srv"),
        Err(AuthError::InvalidRegCredentials)
    ));
}

#[test]
fn taken_username_consumes_token() {
    let mut store = Store::new();
    store.add_user_with_session(s("alice"), s("h"), s("t"), false, 1).unwrap();
    store.insert_token(s("tok"), i64::MAX, None).unwrap();
    let r = register_user(&mut store, s("alice"), b"correcthorse", s("tok"), &sizes(), "Srv");
    assert!(matches!(r, Err(ServiceError::Auth(AuthError::InvalidRegCredentials))));
    assert!(store.get_all_tokens().is_empty());
}

#[test]
fn password_and_totp_changes_store_what_they_return() {
    let mut store = Store::new();
    let totp = add_user(&mut store, s("alice"), b"correcthorse", false, &sizes(), "Srv").unwrap();
    let uid = store.get_auth(&s("alice")).unwrap().userid;
    assert_eq!(change_totp(&mut store, uid.clone(), b"wronghorse", "Srv").map(|_| ()), Err(AuthError::InvalidCredentials));
    let fresh = change_totp(&mut store, uid, b"correcthorse", "Srv").unwrap();
    assert_ne!(fresh.get_url(), totp.get_url());
    assert_eq!(store.get_auth(&s("alice")).unwrap().totp, fresh.get_url());
    let uid = store.get_auth(&s("alice")).unwrap().userid;
    assert_eq!(change_pwd(&mut store, uid, b"batterystaple", b"correcthorse"), Ok(()));
    let code = TOTP::from_url(fresh.get_url()).unwrap().generate_current().unwrap();
    let login = Login { user: s("alice"), password: s("batterystaple"), totp: code };
    assert!(check(&store, &login, &sizes()).is_ok());
}

#[test]
fn session_key_needs_64_bytes() {
    assert_eq!(session_key_bytes(&[7u8; 63]), Err(s("Session secret key must be 64 bytes long")));
    assert_eq!(session_key_bytes(&[7u8; 70]), Ok(vec![7u8; 64]));
}

#[test]
fn urls_without_the_totp_host_are_refused() {
    assert!(has_totp_prefix("otpauth://totp/Srv:alice?secret=AB"));
    assert!(!has_totp_prefix("otpauth:x"));
    assert!(!has_totp_prefix("otpauth://hotp/Srv:alice"));
    assert!(matches!(check_totp(s("otpauth:x"), "123456"), Err(AuthError::InternalError(_))));
    assert!(matches!(check_totp(s("otpauth://steam/x?secret=AB"), "123456"), Err(AuthError::InternalError(_))));
}

#[test]
fn reset_with_token_at_a_given_time() {
    let mut store = Store::new();
    store.add_user_with_session(s("alice"), s("old"), s("t"), false, 4).unwrap();
    store.add_user_with_session(s("bob"), s("h"), s("t"), false, 5).unwrap();
    store.insert_token(s("reset"), 100, Some(s("alice"))).unwrap();
    assert_eq!(
        change_pwd_token_at(&mut store, s("alice:9"), s("new"), &s("reset"), 50),
        Err(ServiceError::Auth(AuthError::InvalidSession))
    );
    assert_eq!(
        change_pwd_token_at(&mut store, s("bob:5"), s("new"), &s("reset"), 50),
        Err(ServiceError::Token(TokenError::InvalidPwdToken))
    );
    assert_eq!(
        change_pwd_token_at(&mut store, s("alice:4"), s("new"), &s("nope"), 50),
        Err(ServiceError::Token(TokenError::NotFound))
    );
    assert_eq!(change_pwd_token_at(&mut store, s("alice:4"), s("new"), &s("reset"), 50), Ok(()));
    let auth = store.get_auth(&s("alice")).unwrap();
    assert_eq!((auth.userid, auth.pass_hash), (s("alice:4"), s("new")));
    assert!(store.get_all_tokens().is_empty());
    store.insert_token(s("late"), 10, Some(s("alice"))).unwrap();
    assert_eq!(
        change_pwd_token_at(&mut store, s("alice:4"), s("x"), &s("late"), 50),
        Err(ServiceError::Token(TokenError::Expired))
    );
    assert_eq!(store.get_auth(&s("alice")).unwrap().pass_hash, "new");
}

#[test]
fn reset_with_missing_token_is_not_found() {
    let mut store = Store::new();
    store.add_user_with_session(s("alice"), s("h"), s("t"), false, 4).unwrap();
    assert_eq!(
        change_pwd_token(&mut store, s("alice:4"), b"batterystaple", s("nope")),
        Err(ServiceError::Token(TokenError::NotFound))
    );
}

#[test]
fn qr_code_is_a_base64_png() {
    let t = generate(s("alice"), "Srv").unwrap();
    let qr = t.get_qr_base64().unwrap();
    assert!(qr.starts_with("iVBORw0KGgo"));
}
