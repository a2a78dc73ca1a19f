//! Time-based one-time passwords (RFC 6238): enrolment of a fresh secret and
//! checking a code against the current time window.

use crate::error::AuthError;
use crate::text::{concat, push_char};
use rand::RngCore;
use totp_rs::{Algorithm, TOTP};
use vstd::prelude::*;

verus! {

#[verifier::external_type_specification]
#[verifier::external_body]
pub struct ExTotp(TOTP);

/// Some character of `s` is a `:`.
pub open spec fn has_colon(s: Seq<char>) -> bool {
    s.contains(':')
}

/// What `TOTP::new` accepts: a secret of at least 16 bytes, and an issuer
/// and account without `:`.
pub open spec fn totp_params_ok(secret: Seq<u8>, issuer: Seq<char>, account: Seq<char>) -> bool {
    secret.len() >= 16 && !has_colon(issuer) && !has_colon(account)
}

/// What `TOTP::get_url` returns for a TOTP with the RFC 6238 defaults (SHA-1,
/// six digits, 30-second steps, one step of skew) and the given secret,
/// issuer and account.
pub uninterp spec fn otpauth_url(secret: Seq<u8>, issuer: Seq<char>, account: Seq<char>) -> Seq<char>;

/// Relies on `TOTP::new(Algorithm::SHA1, 6, 1, 30, secret, Some(issuer), account)`
/// and `TOTP::get_url`: the `otpauth://totp/...` url of that TOTP. `TOTP::new`
/// refuses exactly a secret shorter than 16 bytes, or an issuer or account
/// that holds `:` (six digits always pass its digit check).
#[verifier::external_body]
fn totp_url(secret: &Vec<u8>, issuer: &str, account: &str) -> (r: Option<String>)
    ensures
        r is Some <==> totp_params_ok(secret@, issuer@, account@),
        r matches Some(u) ==> u@ == otpauth_url(secret@, issuer@, account@),
{
    match TOTP::new(Algorithm::SHA1, 6, 1, 30, secret.clone(), Some(issuer.to_string()), account.to_string()) {
        Ok(t) => Some(t.get_url()),
        Err(_) => None,
    }
}

/// What `TOTP::get_qr_base64` returns for the TOTP that `otpauth_url` is of:
/// a base64-encoded PNG of the QR code of that url.
pub uninterp spec fn otpauth_qr(secret: Seq<u8>, issuer: Seq<char>, account: Seq<char>) -> Seq<char>;

/// Relies on `TOTP::new(Algorithm::SHA1, 6, 1, 30, secret, Some(issuer), account)`
/// and `TOTP::get_qr_base64`: the QR code of the url as a base64 PNG, or the
/// text of the error (a refused TOTP, a url too long for a QR code, or a PNG
/// encoding failure).
#[verifier::external_body]
fn totp_qr(secret: &Vec<u8>, issuer: &str, account: &str) -> (r: Result<String, String>)
    ensures
        r matches Ok(q) ==> q@ == otpauth_qr(secret@, issuer@, account@),
{
    match TOTP::new(Algorithm::SHA1, 6, 1, 30, secret.clone(), Some(issuer.to_string()), account.to_string()) {
        Ok(t) => t.get_qr_base64(),
        Err(e) => Err(e.to_string()),
    }
}

/// Relies on `rand::rng().fill_bytes`: sixteen random bytes.
#[verifier::external_body]
fn random_secret() -> (r: Vec<u8>)
    ensures
        r@.len() == 16,
{
    let mut secret = [0u8; 16];
    rand::rng().fill_bytes(&mut secret);
    secret.to_vec()
}

/// An enrolled TOTP: its secret, issuer, account and `otpauth` url.
#[derive(Debug)]
pub struct Totp {
    secret: Vec<u8>,
    issuer: String,
    account: String,
    url: String,
}

impl Totp {
    pub closed spec fn secret_bytes(&self) -> Seq<u8> {
        self.secret@
    }

    pub closed spec fn issuer_name(&self) -> Seq<char> {
        self.issuer@
    }

    pub closed spec fn account_name(&self) -> Seq<char> {
        self.account@
    }

    pub closed spec fn url_text(&self) -> Seq<char> {
        self.url@
    }

    /// The url is the one of the secret, issuer and account.
    pub closed spec fn wf(&self) -> bool {
        self.url@ == otpauth_url(self.secret@, self.issuer@, self.account@)
    }

    /// The `otpauth://totp/...` url, to hand to an authenticator app.
    pub fn get_url(&self) -> (r: String)
        ensures
            r@ == self.url_text(),
    {
        self.url.clone()
    }

    /// The QR code of the url, as a base64-encoded PNG; a failure to draw
    /// it is an internal error.
    pub fn get_qr_base64(&self) -> (r: Result<String, AuthError>)
        ensures
            r matches Ok(q) ==> q@ == otpauth_qr(self.secret_bytes(), self.issuer_name(), self.account_name()),
            r matches Err(e) ==> e is InternalError,
    {
        match totp_qr(&self.secret, self.issuer.as_str(), self.account.as_str()) {
            Ok(q) => Ok(q),
            Err(e) => Err(AuthError::InternalError(concat("Failed to get TOTP QR code image as base64: ", e.as_str()))),
        }
    }

    /// The issuer name.
    pub fn issuer(&self) -> (r: &str)
        ensures
            r@ == self.issuer_name(),
    {
        self.issuer.as_str()
    }

    /// The account name.
    pub fn account(&self) -> (r: &str)
        ensures
            r@ == self.account_name(),
    {
        self.account.as_str()
    }
}

/// A TOTP read back from its url, with the step length it uses.
pub struct ParsedTotp {
    totp: TOTP,
    step: u64,
}

/// The url begins with `otpauth://totp/`.
pub open spec fn totp_scheme_and_host(url: Seq<char>) -> bool {
    url.len() >= 15 && url.take(15) == "otpauth://totp/"@
}

/// Relies on `TOTP::from_url`: the TOTP that an `otpauth` url describes (with
/// its `step` field), or the text of the error. Its host check unwraps the
/// host unless it is `totp`, so the url must name that host: with the prefix
/// `otpauth://totp/` the host is exactly `totp`.
#[verifier::external_body]
fn totp_from_url(url: &str) -> Result<ParsedTotp, String>
    requires
        totp_scheme_and_host(url@),
{
    match TOTP::from_url(url) {
        Ok(t) => Ok(ParsedTotp { step: t.step, totp: t }),
        Err(e) => Err(e.to_string()),
    }
}

/// Relies on `TOTP::check_current`: whether the code is valid in the current
/// time window (one step of skew either way), or the text of a clock error.
/// It divides the time by the step, so the step must not be zero; with a step
/// of at most a day, the step before the current one exists on any clock set
/// after the second day of 1970.
#[verifier::external_body]
fn totp_check_current(totp: &ParsedTotp, token: &str) -> Result<bool, String>
    requires
        supported_step(totp.step),
{
    totp.totp.check_current(token).map_err(|e| e.to_string())
}

/// `s` without its `:` characters.
pub open spec fn without_colons(s: Seq<char>) -> Seq<char> {
    s.filter(|c: char| c != ':')
}
/// The issuer name for a server name: the name with every `:` removed.
pub fn issuer_of(server_name: &str) -> (r: String)
    ensures
        r@ == without_colons(server_name@),
{
    let n = server_name.unicode_len();
    let mut out = String::new();
    let mut i: usize = 0;
    while i < n
        invariant
            i <= n,
            n == server_name@.len(),
            out@ == without_colons(server_name@.take(i as int)),
        decreases n - i,
    {
        let c = server_name.get_char(i);
        proof {
            let t = server_name@.take(i as int + 1);
            assert(t.drop_last() == server_name@.take(i as int));
            assert(t.last() == c);
            reveal(Seq::filter);
        }
        if c != ':' {
            push_char(&mut out, c);
        }
        i += 1;
    }
    proof {
        assert(server_name@.take(i as int) == server_name@);
    }
    out
}

/// `t` is an enrolment for `user` on the server `server_name`: a 16-byte
/// secret, the server name without `:` as issuer, `user` as account, and the
/// url of those.
pub open spec fn enrolment_for(t: Totp, server_name: Seq<char>, user: Seq<char>) -> bool {
    &&& t.secret_bytes().len() == 16
    &&& t.issuer_name() == without_colons(server_name)
    &&& t.account_name() == user
    &&& t.url_text() == otpauth_url(t.secret_bytes(), t.issuer_name(), t.account_name())
}

/// Enrols a new TOTP for `user`: a random 16-byte secret, RFC 6238
/// defaults, the server name without `:` as issuer and `user` as account.
/// Refused (as an internal error) only for an account name holding `:`.
pub fn generate(user: String, server_name: &str) -> (r: Result<Totp, AuthError>)
    ensures
        r is Ok <==> !has_colon(user@),
        r matches Err(e) ==> e is InternalError,
        r matches Ok(t) ==> t.wf() && enrolment_for(t, server_name@, user@),
{
    let secret = random_secret();
    let issuer = issuer_of(server_name);
    proof {
        broadcast use vstd::seq_lib::group_filter_ensures;

        assert(!has_colon(issuer@));
    }
    match totp_url(&secret, issuer.as_str(), user.as_str()) {
        Some(url) => Ok(Totp { secret, issuer, account: user, url }),
        None => Err(AuthError::InternalError("Failed to generate new TOTP: invalid account name".to_string())),
    }
}

/// What the time check's outcome means for a login: a valid code passes, a
/// wrong one is `InvalidTOTP`, a clock failure an internal error.
pub fn check_outcome(outcome: Result<bool, String>) -> (r: Result<(), AuthError>)
    ensures
        match outcome {
            Ok(true) => r is Ok,
            Ok(false) => r matches Err(AuthError::InvalidTOTP),
            Err(m) => r matches Err(AuthError::InternalError(x)) && x@ == "Time error: "@ + m@,
        },
{
    match outcome {
        Ok(true) => Ok(()),
        Ok(false) => Err(AuthError::InvalidTOTP),
        Err(e) => Err(AuthError::InternalError(concat("Time error: ", e.as_str()))),
    }
}

/// Checks a TOTP code against the secret that `totp` (an `otpauth` url)
/// holds, in the current time window: see `check_outcome`. A url that does
/// not parse, or whose period is zero or longer than a day, is an internal
/// error.
pub fn check(totp: String, token: &str) -> (r: Result<(), AuthError>)
    ensures
        r matches Err(e) ==> e is InvalidTOTP || e is InternalError,
        !totp_scheme_and_host(totp@) ==> r matches Err(AuthError::InternalError(_)),
{
    if !has_totp_prefix(totp.as_str()) {
        return Err(AuthError::InternalError("Invalid TOTP url was given: not an otpauth://totp/ url".to_string()));
    }
    let t = match totp_from_url(totp.as_str()) {
        Ok(t) => t,
        Err(e) => {
            return Err(AuthError::InternalError(concat("Invalid TOTP url was given: ", e.as_str())));
        },
    };
    if !step_supported(t.step) {
        return Err(AuthError::InternalError("Invalid TOTP url was given: unsupported period".to_string()));
    }
    check_outcome(totp_check_current(&t, token))
}

/// Whether a url begins with `otpauth://totp/`.
pub fn has_totp_prefix(url: &str) -> (r: bool)
    ensures
        r == totp_scheme_and_host(url@),
{
    let prefix = "otpauth://totp/";
    proof {
        reveal_strlit("otpauth://totp/");
    }
    let n = url.unicode_len();
    if n < 15 {
        return false;
    }
    let mut i: usize = 0;
    while i < 15
        invariant
            i <= 15,
            n == url@.len(),
            n >= 15,
            prefix@ == "otpauth://totp/"@,
            prefix@.len() == 15,
            forall|k: int| 0 <= k < i ==> url@[k] == prefix@[k],
        decreases 15 - i,
    {
        if url.get_char(i) != prefix.get_char(i) {
            proof {
                assert(url@.take(15)[i as int] != prefix@[i as int]);
            }
            return false;
        }
        i += 1;
    }
    proof {
        assert(url@.take(15) =~= prefix@);
    }
    true
}

/// A step length that the time check can use: at least one second and at
/// most a day.
pub open spec fn supported_step(step: u64) -> bool {
    1 <= step <= 86400
}

/// Whether the time check can use a step length.
pub fn step_supported(step: u64) -> (r: bool)
    ensures
        r == supported_step(step),
{
    step >= 1 && step <= 86400
}

} // verus!
