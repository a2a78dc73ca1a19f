//! Settings of the server, as read from its configuration file.

use crate::text::concat;
use vstd::prelude::*;

verus! {

/// Where and how the server listens.
#[derive(Debug, Clone, PartialEq, Eq)]
pub struct Server {
    pub host: String,
    pub port: u16,
    pub workers: usize,
    pub is_behind_proxy: bool,
}

/// Paths of the TLS private key and certificate.
#[derive(Debug, Clone, PartialEq, Eq)]
pub struct Tls {
    pub privkey_path: String,
    pub cert_path: String,
}

/// Registration settings; their presence enables registration and tokens.
#[derive(Debug, Clone, Copy, PartialEq, Eq)]
pub struct Registration {
    pub token_duration_seconds: u64,
    pub token_size: u8,
}

/// Log levels and the optional log file.
#[derive(Debug, Clone, PartialEq, Eq)]
pub struct Logging {
    pub stdout_level: String,
    pub file: Option<String>,
    pub file_level: Option<String>,
}

/// Accepted username length (bytes) and password length (bytes).
#[derive(Debug, Clone, Copy, PartialEq, Eq)]
pub struct CredentialSize {
    pub max_username: u8,
    pub min_username: u8,
    pub max_passwd: u16,
    pub min_passwd: u16,
}

/// Cookie lifetime and the session deadlines, in minutes.
#[derive(Debug, Clone, Copy, PartialEq, Eq)]
pub struct Durations {
    pub cookie_minutes: u32,
    pub login_minutes: Option<u64>,
    pub visit_minutes: Option<u64>,
}

/// Size limits of uploads and request bodies, in bytes.
#[derive(Debug, Clone, Copy, PartialEq, Eq)]
pub struct Limits {
    pub file_upload_size: u64,
    pub payload_size: usize,
}

#[verifier::external_type_specification]
#[verifier::external_body]
#[verifier::reject_recursive_types(K)]
#[verifier::reject_recursive_types(V)]
pub struct ExTomlMap<K, V>(toml::map::Map<K, V>);

#[verifier::external_type_specification]
#[verifier::external_body]
pub struct ExTomlValue(toml::Value);

/// The whole configuration; `plugins` holds one table per plugin.
#[derive(Debug)]
pub struct Config {
    pub server_name: String,
    pub description: String,
    pub url_prefix: String,
    pub data_directory: String,
    pub session_secret_key_path: String,
    pub homepage_script: Option<String>,
    pub server: Server,
    pub logging: Logging,
    pub tls: Option<Tls>,
    pub registration: Option<Registration>,
    pub limits: Limits,
    pub duration: Durations,
    pub cred_size: CredentialSize,
    pub plugins: toml::Table,
}

impl Config {
    /// The default configuration, for a server with `workers` threads whose
    /// executable lies in `exec_dir`: files next to the executable, TLS,
    /// registration with 16-character tokens valid one day, usernames of 3 to
    /// 10 bytes and passwords of 8 to 256 bytes.
    pub fn default(plugins: toml::Table, description: String, workers: usize, exec_dir: &str) -> (r: Config)
        ensures
            r.server_name@ == "Tiny Cloud"@,
            r.url_prefix@ == "tcloud"@,
            r.data_directory@ == exec_dir@ + "/data"@,
            r.session_secret_key_path@ == exec_dir@ + "/secret.key"@,
            r.server.port == 80,
            r.server.workers == workers,
            !r.server.is_behind_proxy,
            r.registration == Some(Registration { token_size: 16, token_duration_seconds: 86400 }),
            r.cred_size == (CredentialSize { max_username: 10, min_username: 3, max_passwd: 256, min_passwd: 8 }),
            r.duration == (Durations {
                cookie_minutes: 43200,
                login_minutes: Some(43200),
                visit_minutes: Some(21600),
            }),
            r.limits == (Limits { file_upload_size: 5_000_000_000, payload_size: 4096 }),
            r.plugins == plugins,
            r.description == description,
    {
        Config {
            description,
            server_name: "Tiny Cloud".to_string(),
            url_prefix: "tcloud".to_string(),
            homepage_script: None,
            server: Server { host: "127.0.0.1".to_string(), port: 80, workers, is_behind_proxy: false },
            logging: Logging { stdout_level: "info".to_string(), file: None, file_level: None },
            tls: Some(
                Tls {
                    privkey_path: concat(exec_dir, "/privkey.pem"),
                    cert_path: concat(exec_dir, "/cert.pem"),
                },
            ),
            registration: Some(Registration { token_size: 16, token_duration_seconds: 24 * 60 * 60 }),
            data_directory: concat(exec_dir, "/data"),
            limits: Limits { file_upload_size: 5_000_000_000, payload_size: 4096 },
            duration: Durations { cookie_minutes: 43200, login_minutes: Some(43200), visit_minutes: Some(21600) },
            session_secret_key_path: concat(exec_dir, "/secret.key"),
            cred_size: CredentialSize { max_username: 10, min_username: 3, max_passwd: 256, min_passwd: 8 },
            plugins,
        }
    }
}

/// The session signing key: the first 64 bytes of the key file; a shorter
/// file is refused.
pub fn session_key_bytes(file: &[u8]) -> (r: Result<Vec<u8>, String>)
    ensures
        r is Ok <==> file@.len() >= 64,
        r matches Ok(k) ==> k@ == file@.take(64),
        r matches Err(m) ==> m@ == "Session secret key must be 64 bytes long"@,
{
    if file.len() < 64 {
        return Err("Session secret key must be 64 bytes long".to_string());
    }
    let mut key: Vec<u8> = Vec::new();
    let mut i: usize = 0;
    while i < 64
        invariant
            i <= 64,
            file@.len() >= 64,
            key@ == file@.take(i as int),
        decreases 64 - i,
    {
        key.push(file[i]);
        proof {
            assert(file@.take(i as int + 1) == file@.take(i as int).push(file@[i as int]));
        }
        i += 1;
    }
    Ok(key)
}

} // verus!
