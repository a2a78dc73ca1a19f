//! The token service: issuing, listing, consuming and expiring single-use
//! registration tokens and password-reset tokens.

use crate::clock::{expire_after, now};
use crate::config::Registration;
use crate::credentials::ascii_alphanumeric;
use crate::error::{DBError, TokenError};
use crate::store::{
    expired, has_token, has_token_id, lemma_consumed_once, lemma_purge_complete, token_id_index, token_index,
    unexpired, Store, Token,
};
use rand::Rng;
use vstd::prelude::*;

verus! {

/// A request for a new token: its lifetime in seconds (else the configured
/// one) and, for a password-reset token, the username it is for.
#[derive(Debug, Clone, PartialEq, Eq)]
pub struct NewToken {
    pub duration: Option<u64>,
    pub for_user: Option<String>,
}

/// The row of token `t` in `rows` (meaningful where `has_token`).
pub open spec fn token_row(rows: Seq<Token>, t: Seq<char>) -> Token {
    rows[token_index(rows, t)]
}

/// Relies on `rand::rng().sample_iter(&Alphanumeric)`: `size` characters,
/// each an ASCII letter or digit.
#[verifier::external_body]
fn gen_token(size: u8) -> (r: String)
    ensures
        r@.len() == size,
        forall|i: int| 0 <= i < r@.len() ==> ascii_alphanumeric(#[trigger] r@[i]),
{
    rand::rng().sample_iter(&rand::distr::Alphanumeric).take(size as usize).map(char::from).collect()
}

/// The lifetime a request asks for, else the configured one.
pub open spec fn requested_duration(registration: Registration, info: NewToken) -> u64 {
    match info.duration {
        Some(d) => d,
        None => registration.token_duration_seconds,
    }
}

/// Issues the token `token` at time `now` (unix seconds): it expires at
/// `now` plus the requested duration, or else the configured one. Succeeds
/// exactly when that date fits the clock's range, the text is new and an id
/// is left; returns the token and its duration.
pub fn create_token_at(
    store: &mut Store,
    token: String,
    now: u64,
    registration: &Registration,
    info: NewToken,
) -> (r: Result<(String, u64), DBError>)
    requires
        old(store).wf(),
    ensures
        final(store).wf(),
        final(store).user_rows() == old(store).user_rows(),
        r is Ok <==> now + requested_duration(*registration, info) <= i64::MAX && !has_token(
            old(store).token_rows(),
            token@,
        ) && old(store).ids_left(),
        r is Err ==> final(store).token_rows() == old(store).token_rows(),
        r matches Err(e) ==> (now + requested_duration(*registration, info) > i64::MAX && e is TimeFailure)
            || e is ExecError,
        r is Ok ==> {
            let (t, d) = r->Ok_0;
            let row = final(store).token_rows().last();
            &&& t == token
            &&& d == requested_duration(*registration, info)
            &&& final(store).token_rows().len() == old(store).token_rows().len() + 1
            &&& final(store).token_rows().drop_last() == old(store).token_rows()
            &&& !has_token_id(old(store).token_rows(), row.id)
            &&& row.token == token
            &&& row.expire_date == now + d
            &&& row.for_user == info.for_user
        },
{
    let duration = match info.duration {
        Some(d) => d,
        None => registration.token_duration_seconds,
    };
    let expire_date = match expire_after(now, duration) {
        Ok(e) => e,
        Err(e) => {
            return Err(e);
        },
    };
    let kept = token.clone();
    let ghost old_rows = store.token_rows();
    match store.insert_token(token, expire_date as i64, info.for_user) {
        Ok(_) => {
            proof {
                assert(store.token_rows().drop_last() == old_rows);
            }
            Ok((kept, duration))
        },
        Err(e) => Err(e),
    }
}

/// Issues a token: random alphanumeric text of the configured size, expiring
/// after the requested duration (or else the configured one) from now.
/// Returns the token and its duration.
pub fn create_token(store: &mut Store, registration: &Registration, info: NewToken) -> (r: Result<
    (String, u64),
    DBError,
>)
    requires
        old(store).wf(),
    ensures
        final(store).wf(),
        final(store).user_rows() == old(store).user_rows(),
        r is Err ==> final(store).token_rows() == old(store).token_rows(),
        r is Err ==> r->Err_0 is TimeFailure || r->Err_0 is ExecError,
        r is Ok ==> {
            let (t, d) = r->Ok_0;
            let row = final(store).token_rows().last();
            &&& d == requested_duration(*registration, info)
            &&& t@.len() == registration.token_size
            &&& forall|i: int| 0 <= i < t@.len() ==> ascii_alphanumeric(#[trigger] t@[i])
            &&& final(store).token_rows().len() == old(store).token_rows().len() + 1
            &&& final(store).token_rows().drop_last() == old(store).token_rows()
            &&& row.token == t
            &&& row.expire_date >= d
            &&& row.for_user == info.for_user
        },
{
    let token = gen_token(registration.token_size);
    let now = now()?;
    create_token_at(store, token, now, registration, info)
}

/// Consumes a registration token at time `now`. A missing token is
/// `NotFound` and changes nothing; an expired one is `Expired`, and every
/// token expired at `now` is purged; a live password-reset token (one with
/// `for_user`) authorises no registration: `InvalidPwdToken`, and it stays;
/// otherwise the token is deleted.
pub fn check_token_at(store: &mut Store, token: &String, now: i64) -> (r: Result<(), TokenError>)
    requires
        old(store).wf(),
    ensures
        final(store).wf(),
        final(store).user_rows() == old(store).user_rows(),
        !has_token(old(store).token_rows(), token@) ==> (r matches Err(TokenError::NotFound)
            && final(store).token_rows() == old(store).token_rows()),
        has_token(old(store).token_rows(), token@) && token_row(old(store).token_rows(), token@).expire_date
            < now ==> (r matches Err(TokenError::Expired) && final(store).token_rows() == unexpired(
            old(store).token_rows(),
            now,
        )),
        has_token(old(store).token_rows(), token@) && token_row(old(store).token_rows(), token@).expire_date
            >= now && token_row(old(store).token_rows(), token@).for_user is Some ==> (r matches Err(
            TokenError::InvalidPwdToken,
        ) && final(store).token_rows() == old(store).token_rows()),
        has_token(old(store).token_rows(), token@) && token_row(old(store).token_rows(), token@).expire_date
            >= now && token_row(old(store).token_rows(), token@).for_user is None ==> r is Ok
            && final(store).token_rows() == old(store).token_rows().remove(
            token_index(old(store).token_rows(), token@),
        ),
        r is Ok ==> !has_token(final(store).token_rows(), token@),
        r matches Err(TokenError::Expired) ==> forall|k: int|
            0 <= k < final(store).token_rows().len() ==> !expired(#[trigger] final(store).token_rows()[k], now),
{
    proof {
        store.lemma_unique();
        lemma_purge_complete(store.token_rows(), now);
    }
    match store.get_token(token) {
        None => Err(TokenError::NotFound),
        Some(t) => {
            if t.expire_date < now {
                store.remove_expired_tokens_at(now);
                Err(TokenError::Expired)
            } else if t.for_user.is_some() {
                Err(TokenError::InvalidPwdToken)
            } else {
                proof {
                    lemma_consumed_once(store.token_rows(), token@);
                }
                store.delete_token(token);
                Ok(())
            }
        },
    }
}

/// The current time as the signed seconds that token rows hold.
pub(crate) fn now_signed() -> (r: Result<i64, TokenError>)
    ensures
        r matches Err(e) ==> e is InternalError,
{
    match now() {
        Ok(n) => Ok(n as i64),
        Err(e) => Err(e.into_token()),
    }
}

/// Consumes a registration token at the current time: as `check_token_at`,
/// after a lookup that fails with `NotFound` before the clock is read.
pub fn check_token(store: &mut Store, token: String) -> (r: Result<(), TokenError>)
    requires
        old(store).wf(),
    ensures
        final(store).wf(),
        final(store).user_rows() == old(store).user_rows(),
        !has_token(old(store).token_rows(), token@) ==> (r matches Err(TokenError::NotFound)
            && final(store).token_rows() == old(store).token_rows()),
        r is Ok ==> has_token(old(store).token_rows(), token@) && token_row(old(store).token_rows(), token@).for_user
            is None && final(store).token_rows() == old(store).token_rows().remove(
            token_index(old(store).token_rows(), token@),
        ),
        r is Ok ==> !has_token(final(store).token_rows(), token@),
        has_token(old(store).token_rows(), token@) && token_row(old(store).token_rows(), token@).for_user is Some
            ==> r is Err,
        r matches Err(TokenError::InvalidPwdToken) ==> has_token(old(store).token_rows(), token@)
            && token_row(old(store).token_rows(), token@).for_user is Some && final(store).token_rows() == old(
            store,
        ).token_rows(),
        r matches Err(TokenError::Expired) ==> exists|now: i64|
            token_row(old(store).token_rows(), token@).expire_date < now && final(store).token_rows()
                == #[trigger] unexpired(old(store).token_rows(), now),
        r matches Err(TokenError::InternalError(_)) ==> final(store).token_rows() == old(store).token_rows(),
{
    if store.get_token(&token).is_none() {
        return Err(TokenError::NotFound);
    }
    let now = now_signed()?;
    check_token_at(store, &token, now)
}

/// Consumes a password-reset token for `user` at time `now`: as
/// `check_token_at`, except that a live token that is not for `user` is
/// `InvalidPwdToken` and stays.
pub fn check_pwd_token_at(store: &mut Store, token: &String, user: &String, now: i64) -> (r: Result<
    (),
    TokenError,
>)
    requires
        old(store).wf(),
    ensures
        final(store).wf(),
        final(store).user_rows() == old(store).user_rows(),
        !has_token(old(store).token_rows(), token@) ==> (r matches Err(TokenError::NotFound)
            && final(store).token_rows() == old(store).token_rows()),
        has_token(old(store).token_rows(), token@) && token_row(old(store).token_rows(), token@).expire_date
            < now ==> (r matches Err(TokenError::Expired) && final(store).token_rows() == unexpired(
            old(store).token_rows(),
            now,
        )),
        has_token(old(store).token_rows(), token@) && token_row(old(store).token_rows(), token@).expire_date
            >= now && !pwd_token_for(token_row(old(store).token_rows(), token@), user@) ==> (r matches Err(
            TokenError::InvalidPwdToken,
        ) && final(store).token_rows() == old(store).token_rows()),
        has_token(old(store).token_rows(), token@) && token_row(old(store).token_rows(), token@).expire_date
            >= now && pwd_token_for(token_row(old(store).token_rows(), token@), user@) ==> r is Ok
            && final(store).token_rows() == old(store).token_rows().remove(
            token_index(old(store).token_rows(), token@),
        ),
        r is Ok ==> !has_token(final(store).token_rows(), token@),
        r matches Err(TokenError::Expired) ==> forall|k: int|
            0 <= k < final(store).token_rows().len() ==> !expired(#[trigger] final(store).token_rows()[k], now),
{
    proof {
        store.lemma_unique();
        lemma_purge_complete(store.token_rows(), now);
        if has_token(store.token_rows(), token@) {
            lemma_consumed_once(store.token_rows(), token@);
        }
    }
    match store.get_token(token) {
        None => Err(TokenError::NotFound),
        Some(t) => {
            if t.expire_date < now {
                store.remove_expired_tokens_at(now);
                return Err(TokenError::Expired);
            }
            let matches = match &t.for_user {
                Some(u) => *u == *user,
                None => false,
            };
            if !matches {
                return Err(TokenError::InvalidPwdToken);
            }
            store.delete_token(token);
            Ok(())
        },
    }
}

/// Token row `t` is a password-reset token for `user`.
pub open spec fn pwd_token_for(t: Token, user: Seq<char>) -> bool {
    match t.for_user {
        Some(u) => u@ == user,
        None => false,
    }
}

/// Consumes a password-reset token for `user` at the current time: as
/// `check_pwd_token_at`, after a lookup that fails with `NotFound` before the
/// clock is read.
pub fn check_pwd_token(store: &mut Store, token: String, user: String) -> (r: Result<(), TokenError>)
    requires
        old(store).wf(),
    ensures
        final(store).wf(),
        final(store).user_rows() == old(store).user_rows(),
        !has_token(old(store).token_rows(), token@) ==> (r matches Err(TokenError::NotFound)
            && final(store).token_rows() == old(store).token_rows()),
        r is Ok ==> has_token(old(store).token_rows(), token@) && pwd_token_for(
            token_row(old(store).token_rows(), token@),
            user@,
        ) && final(store).token_rows() == old(store).token_rows().remove(
            token_index(old(store).token_rows(), token@),
        ),
        r matches Err(TokenError::Expired) ==> exists|now: i64|
            token_row(old(store).token_rows(), token@).expire_date < now && final(store).token_rows()
                == #[trigger] unexpired(old(store).token_rows(), now),
        r matches Err(TokenError::InvalidPwdToken) ==> !pwd_token_for(
            token_row(old(store).token_rows(), token@),
            user@,
        ) && final(store).token_rows() == old(store).token_rows(),
        r matches Err(TokenError::InternalError(_)) ==> final(store).token_rows() == old(store).token_rows(),
{
    if store.get_token(&token).is_none() {
        return Err(TokenError::NotFound);
    }
    let now = now_signed()?;
    check_pwd_token_at(store, &token, &user, now)
}

/// Deletes a token by id, or else by text; with neither, nothing happens.
pub fn remove_token(store: &mut Store, id: Option<i64>, token: Option<String>) -> (r: Result<(), TokenError>)
    requires
        old(store).wf(),
    ensures
        final(store).wf(),
        final(store).user_rows() == old(store).user_rows(),
        r is Ok,
        match (id, token) {
            (Some(i), _) => final(store).token_rows() == if has_token_id(old(store).token_rows(), i) {
                old(store).token_rows().remove(token_id_index(old(store).token_rows(), i))
            } else {
                old(store).token_rows()
            },
            (None, Some(s)) => final(store).token_rows() == if has_token(old(store).token_rows(), s@) {
                old(store).token_rows().remove(token_index(old(store).token_rows(), s@))
            } else {
                old(store).token_rows()
            },
            (None, None) => final(store).token_rows() == old(store).token_rows(),
        },
{
    if let Some(i) = id {
        store.delete_token_by_id(i);
    } else if let Some(t) = token {
        store.delete_token(&t);
    }
    Ok(())
}

/// All tokens, as `(id, token, expire_date, for_user)` in insertion order.
pub fn get_all_tokens(store: &Store) -> (r: Vec<Token>)
    ensures
        r@ == store.token_rows(),
{
    store.get_all_tokens()
}

} // verus!
