use tiny_cloud::config::Registration;
use tiny_cloud::error::{DBError, TokenError};
use tiny_cloud::store::Store;
use tiny_cloud::token::{
    check_pwd_token_at, check_token, check_token_at, create_token, get_all_tokens, remove_token, NewToken,
};

fn s(x: &str) -> String {
    x.to_string()
}

#[test]
fn usernames_are_unique() {
    let mut store = Store::new();
    assert_eq!(store.add_user_with_session(s("alice"), s("h"), s("t"), false, 1), Ok(s("alice:1")));
    assert_eq!(store.add_user_with_session(s("alice"), s("h2"), s("t2"), true, 2), Err(DBError::UserExists));
    assert_eq!(store.add_user_with_session(s("bob"), s("h"), s("t"), false, 1), Err(DBError::UserExists));
    assert_eq!(store.get_all_usernames(), vec![s("alice")]);
}

#[test]
fn lookups_follow_the_rows() {
    let mut store = Store::new();
    store.add_user_with_session(s("alice"), s("hash"), s("url"), true, 77).unwrap();
    let auth = store.get_auth(&s("alice")).unwrap();
    assert_eq!(auth.userid, "alice:77");
    assert_eq!(auth.pass_hash, "hash");
    assert_eq!(auth.totp, "url");
    assert!(store.get_auth(&s("bob")).is_none());
    assert_eq!(store.userinfo(s("alice:77")), Ok(Some((s("alice"), true))));
    assert_eq!(store.userinfo(s("alice:78")), Ok(None));
    assert_eq!(store.userinfo(s("alice")), Err(DBError::InvalidUserID));
    assert_eq!(store.get_passhash(&s("alice"), 77), Some(s("hash")));
    assert_eq!(store.get_passhash(&s("alice"), 1), None);
}

#[test]
fn rotation_revokes_the_old_userid() {
    let mut store = Store::new();
    store.add_user_with_session(s("alice"), s("h"), s("t"), false, 5).unwrap();
    assert_eq!(store.change_sessionid(s("alice:5")), Ok(()));
    assert_eq!(store.userinfo(s("alice:5")), Ok(None));
    let fresh = store.get_auth(&s("alice")).unwrap().userid;
    assert_ne!(fresh, "alice:5");
    assert_eq!(store.userinfo(fresh), Ok(Some((s("alice"), false))));
    assert_eq!(store.change_sessionid(s("alice:5")), Err(DBError::InvalidUserID));
}

#[test]
fn password_and_totp_changes_need_an_account() {
    let mut store = Store::new();
    store.add_user_with_session(s("alice"), s("h"), s("t"), false, 5).unwrap();
    assert_eq!(store.change_passhash(s("alice"), s("h2")), Ok(()));
    assert_eq!(store.change_totp(s("alice"), s("t2")), Ok(()));
    let auth = store.get_auth(&s("alice")).unwrap();
    assert_eq!((auth.pass_hash, auth.totp), (s("h2"), s("t2")));
    assert_eq!(store.change_passhash(s("bob"), s("h")), Err(DBError::UserNotFound));
    assert_eq!(store.change_totp(s("bob"), s("t")), Err(DBError::UserNotFound));
}

#[test]
fn delete_needs_the_current_userid() {
    let mut store = Store::new();
    store.add_user_with_session(s("alice"), s("h"), s("t"), false, 5).unwrap();
    assert_eq!(store.delete_user(s("alice:6")), Err(DBError::InvalidUserID));
    assert_eq!(store.delete_user(s("alice:5")), Ok(()));
    assert!(store.get_auth(&s("alice")).is_none());
}

#[test]
fn token_validates_once() {
    let mut store = Store::new();
    store.insert_token(s("T16CHARSxxxxxxxx"), 1000, None).unwrap();
    assert_eq!(check_token_at(&mut store, &s("T16CHARSxxxxxxxx"), 500), Ok(()));
    assert_eq!(check_token_at(&mut store, &s("T16CHARSxxxxxxxx"), 500), Err(TokenError::NotFound));
}

#[test]
fn expired_token_purges_all_expired() {
    let mut store = Store::new();
    store.insert_token(s("old1"), 10, None).unwrap();
    store.insert_token(s("live"), 1000, None).unwrap();
    store.insert_token(s("old2"), 20, None).unwrap();
    assert_eq!(check_token_at(&mut store, &s("old1"), 500), Err(TokenError::Expired));
    let left: Vec<String> = store.get_all_tokens().into_iter().map(|t| t.token).collect();
    assert_eq!(left, vec![s("live")]);
}

#[test]
fn token_ids_increase_and_texts_are_unique() {
    let mut store = Store::new();
    assert_eq!(store.insert_token(s("a"), 1, None), Ok(1));
    assert_eq!(store.insert_token(s("b"), 1, None), Ok(2));
    assert!(matches!(store.insert_token(s("a"), 1, None), Err(DBError::ExecError(_))));
}

#[test]
fn password_token_is_scoped_to_its_user() {
    let mut store = Store::new();
    store.insert_token(s("reset"), 1000, Some(s("alice"))).unwrap();
    store.insert_token(s("register"), 1000, None).unwrap();
    assert_eq!(check_pwd_token_at(&mut store, &s("reset"), &s("bob"), 5), Err(TokenError::InvalidPwdToken));
    assert_eq!(check_pwd_token_at(&mut store, &s("register"), &s("alice"), 5), Err(TokenError::InvalidPwdToken));
    assert_eq!(check_pwd_token_at(&mut store, &s("reset"), &s("alice"), 5), Ok(()));
    assert_eq!(check_pwd_token_at(&mut store, &s("reset"), &s("alice"), 5), Err(TokenError::NotFound));
    assert_eq!(check_pwd_token_at(&mut store, &s("register"), &s("alice"), 5000), Err(TokenError::Expired));
}

#[test]
fn created_tokens_are_listed_and_removed() {
    let mut store = Store::new();
    let reg = Registration { token_duration_seconds: 86400, token_size: 16 };
    let (t, d) = create_token(&mut store, &reg, NewToken { duration: Some(600), for_user: Some(s("alice")) }).unwrap();
    assert_eq!(d, 600);
    assert_eq!(t.len(), 16);
    assert!(t.chars().all(|c| c.is_ascii_alphanumeric()));
    let (t2, d2) = create_token(&mut store, &reg, NewToken { duration: None, for_user: None }).unwrap();
    assert_eq!(d2, 86400);
    let all = get_all_tokens(&store);
    assert_eq!(all.len(), 2);
    assert_eq!(all[0].token, t);
    assert_eq!(all[0].for_user, Some(s("alice")));
    assert!(all[1].expire_date >= all[0].expire_date);
    assert_eq!(remove_token(&mut store, Some(all[0].id), None), Ok(()));
    assert_eq!(remove_token(&mut store, None, Some(t2.clone())), Ok(()));
    assert!(get_all_tokens(&store).is_empty());
    assert_eq!(check_token(&mut store, t2), Err(TokenError::NotFound));
}

#[test]
fn fresh_token_is_consumed_by_check_token() {
    let mut store = Store::new();
    let reg = Registration { token_duration_seconds: 86400, token_size: 16 };
    let (t, _) = create_token(&mut store, &reg, NewToken { duration: None, for_user: None }).unwrap();
    assert_eq!(check_token(&mut store, t.clone()), Ok(()));
    assert_eq!(check_token(&mut store, t), Err(TokenError::NotFound));
}
