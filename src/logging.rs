//! Log levels as named in the configuration file.

use crate::text::{concat, push_str, same_text};
use vstd::prelude::*;

verus! {

/// The most verbose level of messages that are logged.
#[derive(Debug, Clone, Copy, PartialEq, Eq)]
pub enum LevelFilter {
    Off,
    Error,
    Warn,
    Info,
    Debug,
    Trace,
}

/// The level a configuration name stands for: `off`, `trace`, `debug`,
/// `info`, `warn` or `error`.
pub open spec fn level_named(level: Seq<char>) -> Option<LevelFilter> {
    if level == "off"@ {
        Some(LevelFilter::Off)
    } else if level == "trace"@ {
        Some(LevelFilter::Trace)
    } else if level == "debug"@ {
        Some(LevelFilter::Debug)
    } else if level == "info"@ {
        Some(LevelFilter::Info)
    } else if level == "warn"@ {
        Some(LevelFilter::Warn)
    } else if level == "error"@ {
        Some(LevelFilter::Error)
    } else {
        None
    }
}

/// The text of an unknown level name.
pub open spec fn invalid_level_message(level: Seq<char>) -> Seq<char> {
    "'"@ + level
        + "' is not a valid filter. Accepted values are: `off`, `trace`, `debug`, `info`, `warn`, `error`."@
}

/// The level that a configuration name stands for.
pub fn get_filter(level: &str) -> (r: Result<LevelFilter, String>)
    ensures
        match level_named(level@) {
            Some(f) => r == Ok::<LevelFilter, String>(f),
            None => r is Err && r->Err_0@ == invalid_level_message(level@),
        },
{
    if same_text(level, "off") {
        Ok(LevelFilter::Off)
    } else if same_text(level, "trace") {
        Ok(LevelFilter::Trace)
    } else if same_text(level, "debug") {
        Ok(LevelFilter::Debug)
    } else if same_text(level, "info") {
        Ok(LevelFilter::Info)
    } else if same_text(level, "warn") {
        Ok(LevelFilter::Warn)
    } else if same_text(level, "error") {
        Ok(LevelFilter::Error)
    } else {
        let mut m = concat("'", level);
        push_str(
            &mut m,
            "' is not a valid filter. Accepted values are: `off`, `trace`, `debug`, `info`, `warn`, `error`.",
        );
        Err(m)
    }
}

/// The text of a level that a build without debug logging refuses.
pub open spec fn disabled_level_message(level: Seq<char>) -> Seq<char> {
    "'"@ + level
        + "' logs are disabled on release. Compile without the `--release` flag to enable them."@
}

/// The level that a configuration name stands for in the server's own log,
/// where `trace` and `debug` are accepted only when `debug_enabled`.
pub fn log_filter(level: &str, debug_enabled: bool) -> (r: Result<LevelFilter, String>)
    ensures
        match level_named(level@) {
            Some(f) => if !debug_enabled && (f == LevelFilter::Trace || f == LevelFilter::Debug) {
                r is Err && r->Err_0@ == disabled_level_message(level@)
            } else {
                r == Ok::<LevelFilter, String>(f)
            },
            None => r is Err && r->Err_0@ == "'"@ + level@
                + "' is not a valid log filter. Accepted values are: `off`, `trace`, `debug`, `info`, `warn`, `error`."@,
        },
{
    if !debug_enabled && (same_text(level, "trace") || same_text(level, "debug")) {
        proof {
            reveal_strlit("off");
            reveal_strlit("trace");
            reveal_strlit("debug");
        }
        let mut m = concat("'", level);
        push_str(&mut m, "' logs are disabled on release. Compile without the `--release` flag to enable them.");
        return Err(m);
    }
    match get_filter(level) {
        Ok(f) => Ok(f),
        Err(_) => {
            let mut m = concat("'", level);
            push_str(
                &mut m,
                "' is not a valid log filter. Accepted values are: `off`, `trace`, `debug`, `info`, `warn`, `error`.",
            );
            Err(m)
        },
    }
}

} // verus!
