//! Authentication, session, registration-token and plugin-dispatch core of a
//! small self-hosted cloud server, with its behaviour stated as contracts.

pub mod api;
pub mod auth;
pub mod clock;
pub mod config;
pub mod credentials;
pub mod directories;
pub mod error;
pub mod hash;
pub mod logging;
pub mod plugins;
pub mod store;
mod text;
pub mod token;
pub mod totp;
pub mod userid;
pub mod utils;
