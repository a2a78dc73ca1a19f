//! Shape checks on usernames and passwords, applied before any hashing or
//! store access.

use crate::config::CredentialSize;
use crate::error::AuthError;
use crate::text::{concat, push_str};
use crate::userid::{format_i64, format_int};
use vstd::prelude::*;
use vstd::utf8::encode_utf8;

verus! {

/// Whether `char::is_alphanumeric` holds of a character (Unicode Alphabetic or Numeric).
pub uninterp spec fn alphanumeric(c: char) -> bool;

/// ASCII letters and digits.
pub open spec fn ascii_alphanumeric(c: char) -> bool {
    ('a' <= c && c <= 'z') || ('A' <= c && c <= 'Z') || ('0' <= c && c <= '9')
}

/// Relies on `char::is_alphanumeric`; among ASCII characters it holds of
/// letters and digits alone.
#[verifier::external_body]
pub(crate) fn is_alphanumeric(c: char) -> (r: bool)
    ensures
        r == alphanumeric(c),
        (c as u32) < 128 ==> (r <==> ascii_alphanumeric(c)),
{
    c.is_alphanumeric()
}

/// Every character of `s` is alphanumeric.
pub open spec fn all_alphanumeric(s: Seq<char>) -> bool {
    forall|i: int| 0 <= i < s.len() ==> alphanumeric(#[trigger] s[i])
}

/// The username's length in bytes lies within the configured bounds.
pub open spec fn username_size_ok(u: Seq<char>, sizes: CredentialSize) -> bool {
    sizes.min_username <= encode_utf8(u).len() <= sizes.max_username
}

/// The password's length in bytes lies within the configured bounds.
pub open spec fn password_size_ok(p: Seq<u8>, sizes: CredentialSize) -> bool {
    sizes.min_passwd <= p.len() <= sizes.max_passwd
}

/// A username that may be stored: alphanumeric, of an accepted length.
pub open spec fn valid_username(u: Seq<char>, sizes: CredentialSize) -> bool {
    username_size_ok(u, sizes) && all_alphanumeric(u)
}

/// Credentials that pass the shape checks.
pub open spec fn valid_credentials(u: Seq<char>, p: Seq<u8>, sizes: CredentialSize) -> bool {
    valid_username(u, sizes) && password_size_ok(p, sizes)
}

pub open spec fn username_size_message(sizes: CredentialSize) -> Seq<char> {
    "Accepted username size is between "@ + format_int(sizes.min_username as int) + " and "@
        + format_int(sizes.max_username as int) + " characters"@
}

pub open spec fn password_size_message(sizes: CredentialSize) -> Seq<char> {
    "Accepted password length is between "@ + format_int(sizes.min_passwd as int) + " and "@
        + format_int(sizes.max_passwd as int) + " bytes"@
}

pub open spec fn alphanumeric_message() -> Seq<char> {
    "Username must be alphanumeric"@
}

/// The text of the first shape check that fails.
pub open spec fn validity_message(u: Seq<char>, p: Seq<u8>, sizes: CredentialSize) -> Seq<char> {
    if !username_size_ok(u, sizes) {
        username_size_message(sizes)
    } else if !password_size_ok(p, sizes) {
        password_size_message(sizes)
    } else {
        alphanumeric_message()
    }
}

/// `"<head><lo><mid><hi><tail>"`.
fn range_message(head: &str, lo: i64, mid: &str, hi: i64, tail: &str) -> (r: String)
    ensures
        r@ == head@ + format_int(lo as int) + mid@ + format_int(hi as int) + tail@,
{
    let mut s = concat(head, format_i64(lo).as_str());
    push_str(&mut s, mid);
    push_str(&mut s, format_i64(hi).as_str());
    push_str(&mut s, tail);
    s
}

/// Checks the shape of a username and password: username size first, then
/// password size, then that the username is alphanumeric.
pub fn check_validity(username: &str, password: &[u8], sizes: &CredentialSize) -> (r: Result<(), AuthError>)
    ensures
        r is Ok <==> valid_credentials(username@, password@, *sizes),
        r is Ok ==> !username@.contains(':'),
        r matches Err(e) ==> e is BadCredentials && e->BadCredentials_0@ == validity_message(
            username@,
            password@,
            *sizes,
        ),
{
    let user_len = username.as_bytes().len();
    let passwd_len = password.len();
    if user_len > sizes.max_username as usize || user_len < sizes.min_username as usize {
        return Err(
            AuthError::BadCredentials(
                range_message(
                    "Accepted username size is between ",
                    sizes.min_username as i64,
                    " and ",
                    sizes.max_username as i64,
                    " characters",
                ),
            ),
        );
    }
    if passwd_len > sizes.max_passwd as usize || passwd_len < sizes.min_passwd as usize {
        return Err(
            AuthError::BadCredentials(
                range_message(
                    "Accepted password length is between ",
                    sizes.min_passwd as i64,
                    " and ",
                    sizes.max_passwd as i64,
                    " bytes",
                ),
            ),
        );
    }
    let n = username.unicode_len();
    let mut i: usize = 0;
    while i < n
        invariant
            i <= n,
            n == username@.len(),
            username_size_ok(username@, *sizes),
            password_size_ok(password@, *sizes),
            forall|k: int| 0 <= k < i ==> alphanumeric(#[trigger] username@[k]),
            forall|k: int| 0 <= k < i ==> #[trigger] username@[k] != ':',
        decreases n - i,
    {
        let c = username.get_char(i);
        if !is_alphanumeric(c) {
            return Err(AuthError::BadCredentials("Username must be alphanumeric".to_string()));
        }
        proof {
            if c == ':' {
                assert(!ascii_alphanumeric(c));
            }
        }
        i += 1;
    }
    Ok(())
}

} // verus!
