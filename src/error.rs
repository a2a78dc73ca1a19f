//! Error kinds of the store, the authentication service, the token service,
//! the request layer and the plugin dispatcher, with the HTTP status each maps to.

use crate::text::concat;
use vstd::prelude::*;

verus! {

/// Errors of the user and token store.
#[derive(Debug, Clone, PartialEq, Eq)]
pub enum DBError {
    IOError(String),
    ExecError(String),
    UserExists,
    UserNotFound,
    InvalidUserID,
    TimeFailure(String),
}

/// Errors of the authentication service.
#[derive(Debug, Clone, PartialEq, Eq)]
pub enum AuthError {
    InternalError(String),
    BadCredentials(String),
    InvalidCredentials,
    InvalidRegCredentials,
    InvalidSession,
    InvalidTOTP,
}

/// Errors of the registration and password-reset token service.
#[derive(Debug, Clone, PartialEq, Eq)]
pub enum TokenError {
    InternalError(String),
    NotFound,
    Expired,
    InvalidPwdToken,
}

/// Errors raised while decoding a request body or query.
#[derive(Debug, Clone, PartialEq, Eq)]
pub enum RequestError {
    Json(String),
    Query(String),
    Multipart(String),
}

/// Errors of the plugin dispatcher.
#[derive(Debug, Clone, PartialEq, Eq)]
pub enum PluginError {
    InternalError(String),
}

/// An error of one of the two services that registration and password
/// reset go through.
#[derive(Debug, Clone, PartialEq, Eq)]
pub enum ServiceError {
    Auth(AuthError),
    Token(TokenError),
}

/// Human-readable text of a store error.
pub open spec fn db_message(e: DBError) -> Seq<char> {
    match e {
        DBError::IOError(s) => "IO Error: "@ + s@,
        DBError::ExecError(s) => "Execution of SQLite command failed: "@ + s@,
        DBError::UserExists => "User already exists"@,
        DBError::UserNotFound => "User was not found"@,
        DBError::InvalidUserID => "Invalid username and/or id"@,
        DBError::TimeFailure(s) => "Time failure: "@ + s@,
    }
}

impl DBError {
    /// The text of this error.
    pub fn message(&self) -> (r: String)
        ensures
            r@ == db_message(*self),
    {
        match self {
            DBError::IOError(s) => concat("IO Error: ", s.as_str()),
            DBError::ExecError(s) => concat("Execution of SQLite command failed: ", s.as_str()),
            DBError::UserExists => "User already exists".to_string(),
            DBError::UserNotFound => "User was not found".to_string(),
            DBError::InvalidUserID => "Invalid username and/or id".to_string(),
            DBError::TimeFailure(s) => concat("Time failure: ", s.as_str()),
        }
    }

    /// The authentication error that this store error becomes: a taken
    /// username is a registration failure, a missing user or a malformed
    /// userid an invalid session, anything else an internal error.
    pub fn into_auth(self) -> (r: AuthError)
        ensures
            match self {
                DBError::UserExists => r is InvalidRegCredentials,
                DBError::InvalidUserID | DBError::UserNotFound => r is InvalidSession,
                _ => r is InternalError && r->InternalError_0@ == db_message(self),
            },
    {
        match self {
            DBError::UserExists => AuthError::InvalidRegCredentials,
            DBError::InvalidUserID | DBError::UserNotFound => AuthError::InvalidSession,
            _ => AuthError::InternalError(self.message()),
        }
    }

    /// The token-service error that this store error becomes: always internal.
    pub fn into_token(self) -> (r: TokenError)
        ensures
            r is InternalError && r->InternalError_0@ == db_message(self),
    {
        TokenError::InternalError(self.message())
    }

    /// The dispatcher error that this store error becomes: always internal.
    pub fn into_plugin(self) -> (r: PluginError)
        ensures
            r is InternalError && r->InternalError_0@ == db_message(self),
    {
        PluginError::InternalError(self.message())
    }
}

impl AuthError {
    /// The error category reported to clients.
    pub fn error(&self) -> (r: &'static str)
        ensures
            r@ == "AuthError"@,
    {
        "AuthError"
    }

    /// The variant name reported to clients.
    pub fn err_type(&self) -> (r: &'static str)
        ensures
            r@ == match self {
                AuthError::InternalError(_) => "InternalError"@,
                AuthError::BadCredentials(_) => "BadCredentials"@,
                AuthError::InvalidCredentials => "InvalidCredentials"@,
                AuthError::InvalidRegCredentials => "InvalidRegCredentials"@,
                AuthError::InvalidSession => "InvalidSession"@,
                AuthError::InvalidTOTP => "InvalidTOTP"@,
            },
    {
        match self {
            AuthError::InternalError(_) => "InternalError",
            AuthError::BadCredentials(_) => "BadCredentials",
            AuthError::InvalidCredentials => "InvalidCredentials",
            AuthError::InvalidRegCredentials => "InvalidRegCredentials",
            AuthError::InvalidSession => "InvalidSession",
            AuthError::InvalidTOTP => "InvalidTOTP",
        }
    }

    /// The message reported to clients; an internal error's detail is not
    /// among it.
    pub fn msg(&self) -> (r: String)
        ensures
            r@ == match self {
                AuthError::InternalError(_) => "An internal server error occurred"@,
                AuthError::BadCredentials(m) => "Bad credentials were given: "@ + m@,
                AuthError::InvalidCredentials => "Invalid credentials"@,
                AuthError::InvalidRegCredentials => "Invalid registration credentials"@,
                AuthError::InvalidSession => "Invalid session"@,
                AuthError::InvalidTOTP => "Invalid TOTP token"@,
            },
    {
        match self {
            AuthError::InternalError(_) => "An internal server error occurred".to_string(),
            AuthError::BadCredentials(m) => concat("Bad credentials were given: ", m.as_str()),
            AuthError::InvalidCredentials => "Invalid credentials".to_string(),
            AuthError::InvalidRegCredentials => "Invalid registration credentials".to_string(),
            AuthError::InvalidSession => "Invalid session".to_string(),
            AuthError::InvalidTOTP => "Invalid TOTP token".to_string(),
        }
    }

    /// The HTTP status: 400 for bad input, 500 for internal errors, 401 for
    /// the rest.
    pub fn http_code(&self) -> (r: u16)
        ensures
            r == match self {
                AuthError::BadCredentials(_) => 400u16,
                AuthError::InternalError(_) => 500u16,
                _ => 401u16,
            },
    {
        match self {
            AuthError::BadCredentials(_) => 400,
            AuthError::InternalError(_) => 500,
            _ => 401,
        }
    }
}

impl TokenError {
    /// The error category reported to clients.
    pub fn error(&self) -> (r: &'static str)
        ensures
            r@ == "TokenError"@,
    {
        "TokenError"
    }

    /// The variant name reported to clients.
    pub fn err_type(&self) -> (r: &'static str)
        ensures
            r@ == match self {
                TokenError::InternalError(_) => "InternalError"@,
                TokenError::NotFound => "NotFound"@,
                TokenError::Expired => "Expired"@,
                TokenError::InvalidPwdToken => "InvalidPwdToken"@,
            },
    {
        match self {
            TokenError::InternalError(_) => "InternalError",
            TokenError::NotFound => "NotFound",
            TokenError::Expired => "Expired",
            TokenError::InvalidPwdToken => "InvalidPwdToken",
        }
    }

    /// The message reported to clients.
    pub fn msg(&self) -> (r: String)
        ensures
            r@ == match self {
                TokenError::InternalError(_) => "An internal server error occurred"@,
                TokenError::NotFound => "Token was not found"@,
                TokenError::Expired => "Token expired"@,
                TokenError::InvalidPwdToken => "Invalid password token"@,
            },
    {
        match self {
            TokenError::InternalError(_) => "An internal server error occurred".to_string(),
            TokenError::NotFound => "Token was not found".to_string(),
            TokenError::Expired => "Token expired".to_string(),
            TokenError::InvalidPwdToken => "Invalid password token".to_string(),
        }
    }

    /// The HTTP status: 500 internal, 404 not found, 410 expired, 403 a
    /// reset token for another user.
    pub fn http_code(&self) -> (r: u16)
        ensures
            r == match self {
                TokenError::InternalError(_) => 500u16,
                TokenError::NotFound => 404u16,
                TokenError::Expired => 410u16,
                TokenError::InvalidPwdToken => 403u16,
            },
    {
        match self {
            TokenError::InternalError(_) => 500,
            TokenError::NotFound => 404,
            TokenError::Expired => 410,
            TokenError::InvalidPwdToken => 403,
        }
    }
}

impl RequestError {
    /// The error category reported to clients.
    pub fn error(&self) -> (r: &'static str)
        ensures
            r@ == "RequestError"@,
    {
        "RequestError"
    }

    /// The variant name reported to clients.
    pub fn err_type(&self) -> (r: &'static str)
        ensures
            r@ == match self {
                RequestError::Json(_) => "Json"@,
                RequestError::Query(_) => "Query"@,
                RequestError::Multipart(_) => "Multipart"@,
            },
    {
        match self {
            RequestError::Json(_) => "Json",
            RequestError::Query(_) => "Query",
            RequestError::Multipart(_) => "Multipart",
        }
    }

    /// The message reported to clients.
    pub fn msg(&self) -> (r: String)
        ensures
            r@ == match self {
                RequestError::Json(m) => "Invalid JSON request: "@ + m@,
                RequestError::Query(m) => "Invalid URL query: "@ + m@,
                RequestError::Multipart(m) => "Invalid Multipart request: "@ + m@,
            },
    {
        match self {
            RequestError::Json(m) => concat("Invalid JSON request: ", m.as_str()),
            RequestError::Query(m) => concat("Invalid URL query: ", m.as_str()),
            RequestError::Multipart(m) => concat("Invalid Multipart request: ", m.as_str()),
        }
    }

    /// The HTTP status: always 400.
    pub fn http_code(&self) -> (r: u16)
        ensures
            r == 400,
    {
        400
    }
}

impl PluginError {
    /// The error category reported to clients.
    pub fn error(&self) -> (r: &'static str)
        ensures
            r@ == "PluginError"@,
    {
        "PluginError"
    }

    /// The variant name reported to clients.
    pub fn err_type(&self) -> (r: &'static str)
        ensures
            r@ == "InternalError"@,
    {
        "InternalError"
    }

    /// The message reported to clients.
    pub fn msg(&self) -> (r: String)
        ensures
            r@ == "An internal server error occurred."@,
    {
        "An internal server error occurred.".to_string()
    }

    /// The HTTP status: always 500.
    pub fn http_code(&self) -> (r: u16)
        ensures
            r == 500,
    {
        500
    }
}

} // verus!
