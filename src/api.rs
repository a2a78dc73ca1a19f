//! Bodies of the authentication and token requests.

use vstd::prelude::*;

verus! {

/// `POST /api/auth/login`.
#[derive(Debug, Clone, PartialEq, Eq)]
pub struct Login {
    pub user: String,
    pub password: String,
    pub totp: String,
}

/// `POST /api/auth/register`.
#[derive(Debug, Clone, PartialEq, Eq)]
pub struct Register {
    pub user: String,
    pub password: String,
    pub token: String,
    pub totp_as_qr: bool,
}

/// How a password change is authorised: by a password-reset token, or by
/// the old password.
#[derive(Debug, Clone, PartialEq, Eq)]
pub enum ChangeMethod {
    Token(String),
    OldPassword(String),
}

/// `POST /api/auth/changepwd`.
#[derive(Debug, Clone, PartialEq, Eq)]
pub struct ChangePwd {
    pub new_password: String,
    pub change_method: ChangeMethod,
}

/// `POST /api/auth/changetotp`.
#[derive(Debug, Clone, PartialEq, Eq)]
pub struct ChangeTotp {
    pub password: String,
    pub totp_as_qr: bool,
}

} // verus!
