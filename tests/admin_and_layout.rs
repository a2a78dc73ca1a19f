use tiny_cloud::api::{ChangeMethod, ChangePwd};
use tiny_cloud::auth::{change_password, is_admin, validate_user, AccessError};
use tiny_cloud::directories::{plugin_dirs, user_dir};
use tiny_cloud::error::{AuthError, ServiceError, TokenError};
use tiny_cloud::plugins::{PluginInfo, Plugins, User};
use tiny_cloud::store::{Store, Token, UserRow};

fn s(x: &str) -> String {
    x.to_string()
}

fn info(name: &str, admin_only: bool) -> PluginInfo {
    PluginInfo { name: s(name), source: String::new(), version: String::new(), description: String::new(), admin_only }
}

#[test]
fn only_admins_pass_the_admin_gate() {
    let mut store = Store::new();
    store.add_user_with_session(s("root"), s("h"), s("t"), true, 1).unwrap();
    store.add_user_with_session(s("alice"), s("h"), s("t"), false, 2).unwrap();
    assert_eq!(is_admin(&store, s("root:1")), Ok(()));
    assert_eq!(is_admin(&store, s("alice:2")), Err(AccessError::Forbidden));
    assert_eq!(is_admin(&store, s("alice:3")), Err(AccessError::Auth(AuthError::InvalidSession)));
}

#[test]
fn password_change_by_unknown_token_fails() {
    let mut store = Store::new();
    store.add_user_with_session(s("alice"), s("h"), s("t"), false, 2).unwrap();
    let payload = ChangePwd { new_password: s("batterystaple"), change_method: ChangeMethod::Token(s("nope")) };
    assert_eq!(change_password(&mut store, s("alice:2"), payload), Err(ServiceError::Token(TokenError::NotFound)));
    let payload = ChangePwd { new_password: s("batterystaple"), change_method: ChangeMethod::OldPassword(s("x")) };
    assert_eq!(
        change_password(&mut store, s("alice:9"), payload),
        Err(ServiceError::Auth(AuthError::InvalidSession))
    );
    assert_eq!(validate_user(&store, s("alice:2")), Ok((s("alice"), false)));
}

#[test]
fn store_round_trips_through_rows() {
    let mut store = Store::new();
    store.add_user_with_session(s("alice"), s("h"), s("t"), false, 2).unwrap();
    store.insert_token(s("tok"), 99, Some(s("alice"))).unwrap();
    let users = store.get_all_users();
    let tokens = store.get_all_tokens();
    let copy = Store::from_rows(&users, &tokens).unwrap();
    assert_eq!(copy.get_auth(&s("alice")).unwrap().userid, "alice:2");
    assert_eq!(copy.get_token(&s("tok")).unwrap().for_user, Some(s("alice")));
    let dup = vec![
        UserRow { username: s("a"), session_id: 1, pass_hash: s("h"), totp: s("t"), is_admin: false },
        UserRow { username: s("a"), session_id: 2, pass_hash: s("h"), totp: s("t"), is_admin: false },
    ];
    assert!(Store::from_rows(&dup, &Vec::<Token>::new()).is_none());
}

#[test]
fn directory_layout() {
    let plugins = Plugins::new(vec![info("archive", false), info("notes", false)]).unwrap();
    assert_eq!(user_dir("data", "alice"), "data/users/alice");
    assert_eq!(
        plugin_dirs("data", &Some(User { name: s("alice"), is_admin: false }), &plugins),
        vec![s("data/users/alice/archive"), s("data/users/alice/notes")]
    );
    assert_eq!(plugin_dirs("data/", &None, &plugins), vec![s("data/unauth/archive"), s("data/unauth/notes")]);
}
