use tiny_cloud::clock::expire_after;
use tiny_cloud::error::{AuthError, DBError, PluginError, RequestError, TokenError};
use tiny_cloud::logging::{get_filter, log_filter, LevelFilter};
use tiny_cloud::plugins::{plugin_path, ArchivePlugin, Dispatch, PluginInfo, Plugins, User};

fn info(name: &str, admin_only: bool) -> PluginInfo {
    PluginInfo {
        name: name.to_string(),
        source: String::new(),
        version: String::new(),
        description: String::new(),
        admin_only,
    }
}

fn user(name: &str, is_admin: bool) -> Option<User> {
    Some(User { name: name.to_string(), is_admin })
}

#[test]
fn admin_only_plugin_is_hidden() {
    let plugins = Plugins::new(vec![info("archive", false), info("admin", true)]).unwrap();
    let unknown = plugins.dispatch(&"nope".to_string(), &None, "data");
    assert_eq!(unknown, Dispatch::NotFound);
    assert_eq!(plugins.dispatch(&"admin".to_string(), &None, "data"), unknown);
    assert_eq!(plugins.dispatch(&"admin".to_string(), &user("alice", false), "data"), unknown);
    assert_eq!(
        plugins.dispatch(&"admin".to_string(), &user("root", true), "data"),
        Dispatch::Invoke { index: 1, data_path: "data/users/root/admin".to_string() }
    );
}

#[test]
fn data_paths_are_isolated() {
    let plugins = Plugins::new(vec![info("archive", false)]).unwrap();
    assert_eq!(
        plugins.dispatch(&"archive".to_string(), &user("alice", false), "/srv/data/"),
        Dispatch::Invoke { index: 0, data_path: "/srv/data/users/alice/archive".to_string() }
    );
    assert_eq!(
        plugins.dispatch(&"archive".to_string(), &None, "data"),
        Dispatch::Invoke { index: 0, data_path: "data/unauth/archive".to_string() }
    );
    assert_eq!(plugin_path("data", &user("bob", false), "archive"), "data/users/bob/archive");
}

#[test]
fn duplicate_plugin_names_are_refused() {
    assert!(Plugins::new(vec![info("a", false), info("a", true)]).is_none());
    let p = Plugins::new(vec![info("a", false), info("b", true)]).unwrap();
    assert_eq!(p.list().len(), 2);
}

#[test]
fn archive_plugin_describes_itself() {
    let info = ArchivePlugin::new().info();
    assert_eq!(info.name, "archive");
    assert!(!info.admin_only);
}

#[test]
fn level_names() {
    assert_eq!(get_filter("info"), Ok(LevelFilter::Info));
    assert_eq!(get_filter("trace"), Ok(LevelFilter::Trace));
    assert_eq!(
        get_filter("loud"),
        Err("'loud' is not a valid filter. Accepted values are: `off`, `trace`, `debug`, `info`, `warn`, `error`.".to_string())
    );
    assert_eq!(log_filter("debug", true), Ok(LevelFilter::Debug));
    assert_eq!(
        log_filter("debug", false),
        Err("'debug' logs are disabled on release. Compile without the `--release` flag to enable them.".to_string())
    );
    assert_eq!(log_filter("warn", false), Ok(LevelFilter::Warn));
}

#[test]
fn error_statuses() {
    assert_eq!(AuthError::BadCredentials("x".to_string()).http_code(), 400);
    assert_eq!(AuthError::InvalidSession.http_code(), 401);
    assert_eq!(AuthError::InternalError("secret".to_string()).http_code(), 500);
    assert_eq!(AuthError::InternalError("secret".to_string()).msg(), "An internal server error occurred");
    assert_eq!(AuthError::InvalidTOTP.err_type(), "InvalidTOTP");
    assert_eq!(TokenError::NotFound.http_code(), 404);
    assert_eq!(TokenError::Expired.http_code(), 410);
    assert_eq!(TokenError::InvalidPwdToken.http_code(), 403);
    assert_eq!(RequestError::Json("eof".to_string()).msg(), "Invalid JSON request: eof");
    assert_eq!(PluginError::InternalError("x".to_string()).http_code(), 500);
}

#[test]
fn store_errors_map_to_auth_errors() {
    assert_eq!(DBError::UserExists.into_auth(), AuthError::InvalidRegCredentials);
    assert_eq!(DBError::InvalidUserID.into_auth(), AuthError::InvalidSession);
    assert_eq!(
        DBError::ExecError("boom".to_string()).into_auth(),
        AuthError::InternalError("Execution of SQLite command failed: boom".to_string())
    );
    assert_eq!(DBError::UserNotFound.into_token(), TokenError::InternalError("User was not found".to_string()));
}

#[test]
fn expiry_dates() {
    assert_eq!(expire_after(1000, 600), Ok(1600));
    assert!(matches!(expire_after(i64::MAX as u64, 1), Err(DBError::TimeFailure(_))));
}
