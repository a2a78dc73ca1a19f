//! The authentication service: login, registration, session validation and
//! rotation, password and TOTP changes, and account deletion, over the store.

use crate::api::{ChangeMethod, ChangePwd, Login};
use crate::config::CredentialSize;
use crate::credentials::{check_validity, valid_credentials, validity_message};
use crate::error::{AuthError, ServiceError, TokenError};
use crate::hash::{self, argon2_check};
use crate::store::{
    unexpired, with_pass_hash,
    has_session, users_unique, lemma_user_index, has_token, has_user, lemma_rotation_revokes, session_user, token_index, user_index,
    Store, UserRow,
};
use crate::token::{check_pwd_token_at, check_token, now_signed, pwd_token_for, token_row};
use crate::totp::{self, enrolment_for, Totp};
use crate::userid::{unpack, userid_name, userid_of, userid_session};
use vstd::prelude::*;
use vstd::utf8::encode_utf8;

verus! {

/// The row of `username` in `rows` (meaningful where `has_user`).
pub open spec fn user_row(rows: Seq<UserRow>, username: Seq<char>) -> UserRow {
    rows[user_index(rows, username)]
}

/// What Argon2 verification makes of the login's password against the
/// stored hash of its username.
pub open spec fn login_hash_check(rows: Seq<UserRow>, login: Login) -> Option<bool> {
    argon2_check(encode_utf8(login.password@), user_row(rows, login.user@).pass_hash@)
}

/// The login's username exists and its password matches the stored hash.
pub open spec fn password_accepted(rows: Seq<UserRow>, login: Login) -> bool {
    has_user(rows, login.user@) && login_hash_check(rows, login) == Some(true)
}

/// Checks a login's password and TOTP code and returns the account's
/// userid. Shape violations are `BadCredentials`; an unknown user or a wrong
/// password `InvalidCredentials` (after a dummy verification, so that both
/// take the same time); a wrong code `InvalidTOTP`.
pub fn check(store: &Store, login: &Login, sizes: &CredentialSize) -> (r: Result<String, AuthError>)
    requires
        store.wf(),
    ensures
        !valid_credentials(login.user@, encode_utf8(login.password@), *sizes) ==> (r matches Err(
            AuthError::BadCredentials(m),
        ) && m@ == validity_message(login.user@, encode_utf8(login.password@), *sizes)),
        r is Ok ==> valid_credentials(login.user@, encode_utf8(login.password@), *sizes)
            && password_accepted(store.user_rows(), *login) && r->Ok_0@ == userid_of(
            login.user@,
            user_row(store.user_rows(), login.user@).session_id,
        ),
        valid_credentials(login.user@, encode_utf8(login.password@), *sizes) && !has_user(
            store.user_rows(),
            login.user@,
        ) ==> r is Err && (r->Err_0 is InvalidCredentials || r->Err_0 is InternalError),
        valid_credentials(login.user@, encode_utf8(login.password@), *sizes) && has_user(
            store.user_rows(),
            login.user@,
        ) && login_hash_check(store.user_rows(), *login) is Some && login_hash_check(store.user_rows(), *login)
            != Some(true) ==> r is Err && (r->Err_0 is InvalidCredentials || r->Err_0 is InternalError),
        valid_credentials(login.user@, encode_utf8(login.password@), *sizes) && password_accepted(
            store.user_rows(),
            *login,
        ) ==> r is Ok || r->Err_0 is InvalidTOTP || r->Err_0 is InternalError,
{
    let password = login.password.as_str().as_bytes();
    if let Err(e) = check_validity(login.user.as_str(), password, sizes) {
        return Err(e);
    }
    let dummy_hash = match hash::create(password) {
        Ok(h) => h,
        Err(e) => {
            return Err(e);
        },
    };
    match store.get_auth(&login.user) {
        Some(user) => {
            if let Err(e) = hash::verify(password, user.pass_hash) {
                return Err(e);
            }
            if let Err(e) = totp::check(user.totp, login.totp.as_str()) {
                return Err(e);
            }
            Ok(user.userid)
        },
        None => {
            let _ = hash::verify(password, dummy_hash);
            Err(AuthError::InvalidCredentials)
        },
    }
}

/// Adds an account directly (as the administrator's command line does) and
/// returns its new TOTP; a taken username is `InvalidRegCredentials`.
pub fn add_user(
    store: &mut Store,
    username: String,
    password: &[u8],
    is_admin: bool,
    sizes: &CredentialSize,
    server_name: &str,
) -> (r: Result<Totp, AuthError>)
    requires
        old(store).wf(),
    ensures
        final(store).wf(),
        final(store).token_rows() == old(store).token_rows(),
        !valid_credentials(username@, password@, *sizes) ==> (r matches Err(AuthError::BadCredentials(m))
            && m@ == validity_message(username@, password@, *sizes)),
        r is Err ==> final(store).user_rows() == old(store).user_rows(),
        r matches Err(e) ==> (valid_credentials(username@, password@, *sizes) ==> (e is InvalidRegCredentials
            && has_user(old(store).user_rows(), username@)) || e is InternalError),
        valid_credentials(username@, password@, *sizes) && has_user(old(store).user_rows(), username@)
            ==> r is Err,
        r is Ok ==> {
            let rows = final(store).user_rows();
            &&& rows.drop_last() == old(store).user_rows()
            &&& rows.len() == old(store).user_rows().len() + 1
            &&& rows.last().username == username
            &&& rows.last().is_admin == is_admin
            &&& argon2_check(password@, rows.last().pass_hash@) == Some(true)
            &&& rows.last().totp@ == r->Ok_0.url_text()
            &&& enrolment_for(r->Ok_0, server_name@, username@)
        },
{
    if let Err(e) = check_validity(username.as_str(), password, sizes) {
        return Err(e);
    }
    let passwd_hash = match hash::create(password) {
        Ok(h) => h,
        Err(e) => {
            return Err(e);
        },
    };
    let totp = match totp::generate(username.clone(), server_name) {
        Ok(t) => t,
        Err(e) => {
            return Err(e);
        },
    };
    match store.add_user(username, passwd_hash, totp.get_url(), is_admin) {
        Ok(_) => Ok(totp),
        Err(e) => Err(e.into_auth()),
    }
}

/// Registers an account with a registration token and returns its new TOTP
/// and the userid for the session. The steps run in this order: shape check,
/// token lookup, hashing, token consumption, TOTP enrolment, insertion. A
/// hashing failure leaves the token in place; a taken username is
/// `InvalidRegCredentials`, and the token stays consumed.
pub fn register_user(
    store: &mut Store,
    username: String,
    password: &[u8],
    token: String,
    sizes: &CredentialSize,
    server_name: &str,
) -> (r: Result<(Totp, String), ServiceError>)
    requires
        old(store).wf(),
    ensures
        final(store).wf(),
        !valid_credentials(username@, password@, *sizes) ==> (r matches Err(
            ServiceError::Auth(AuthError::BadCredentials(m)),
        ) && m@ == validity_message(username@, password@, *sizes) && final(store).user_rows() == old(
            store,
        ).user_rows() && final(store).token_rows() == old(store).token_rows()),
        valid_credentials(username@, password@, *sizes) && !has_token(old(store).token_rows(), token@)
            ==> (r matches Err(ServiceError::Token(TokenError::NotFound)) && final(store).user_rows() == old(
            store,
        ).user_rows() && final(store).token_rows() == old(store).token_rows()),
        has_user(old(store).user_rows(), username@) ==> r is Err,
        r matches Err(ServiceError::Auth(e)) ==> (valid_credentials(username@, password@, *sizes) ==> (
        e is InvalidRegCredentials && has_user(old(store).user_rows(), username@)) || e is InternalError),
        r matches Err(ServiceError::Auth(AuthError::InternalError(_))) ==> final(store).user_rows() == old(
            store,
        ).user_rows() && final(store).token_rows() == old(store).token_rows(),
        r matches Err(ServiceError::Auth(AuthError::InvalidRegCredentials)) ==> {
            &&& has_user(old(store).user_rows(), username@)
            &&& final(store).user_rows() == old(store).user_rows()
            &&& has_token(old(store).token_rows(), token@)
            &&& final(store).token_rows() == old(store).token_rows().remove(
                token_index(old(store).token_rows(), token@),
            )
        },
        r is Ok ==> {
            let rows = final(store).user_rows();
            &&& valid_credentials(username@, password@, *sizes)
            &&& has_token(old(store).token_rows(), token@)
            &&& token_row(old(store).token_rows(), token@).for_user is None
            &&& final(store).token_rows() == old(store).token_rows().remove(
                token_index(old(store).token_rows(), token@),
            )
            &&& rows.drop_last() == old(store).user_rows()
            &&& rows.len() == old(store).user_rows().len() + 1
            &&& rows.last().username == username
            &&& !rows.last().is_admin
            &&& argon2_check(password@, rows.last().pass_hash@) == Some(true)
            &&& rows.last().totp@ == r->Ok_0.0.url_text()
            &&& enrolment_for(r->Ok_0.0, server_name@, username@)
            &&& r->Ok_0.1@ == userid_of(username@, rows.last().session_id)
        },
{
    if let Err(e) = check_validity(username.as_str(), password, sizes) {
        return Err(ServiceError::Auth(e));
    }
    if store.get_token(&token).is_none() {
        return Err(ServiceError::Token(TokenError::NotFound));
    }
    let passwd_hash = match hash::create(password) {
        Ok(h) => h,
        Err(e) => {
            return Err(ServiceError::Auth(e));
        },
    };
    if let Err(e) = check_token(store, token) {
        return Err(ServiceError::Token(e));
    }
    let totp = match totp::generate(username.clone(), server_name) {
        Ok(t) => t,
        Err(e) => {
            return Err(ServiceError::Auth(e));
        },
    };
    match store.add_user(username, passwd_hash, totp.get_url(), false) {
        Ok(userid) => Ok((totp, userid)),
        Err(e) => Err(ServiceError::Auth(e.into_auth())),
    }
}

/// Resolves a userid to its account's username and admin flag; a userid
/// that does not resolve is `InvalidSession`.
pub fn validate_user(store: &Store, userid: String) -> (r: Result<(String, bool), AuthError>)
    requires
        store.wf(),
    ensures
        r is Ok <==> session_user(store.user_rows(), userid@) is Some,
        r matches Ok((n, a)) ==> session_user(store.user_rows(), userid@) == Some((n@, a)),
        r is Err ==> r->Err_0 is InvalidSession,
{
    match store.userinfo(userid) {
        Ok(Some(info)) => Ok(info),
        Ok(None) => Err(AuthError::InvalidSession),
        Err(e) => Err(e.into_auth()),
    }
}

/// `b` is `a` with at most the session id of `name`'s row changed: the same
/// rows in the same places, and that row keeps its hash, TOTP url and flag.
pub open spec fn same_but_session(a: Seq<UserRow>, b: Seq<UserRow>, name: Seq<char>) -> bool {
    let i = user_index(a, name);
    &&& b.len() == a.len()
    &&& has_user(b, name)
    &&& user_index(b, name) == i
    &&& b[i].username == a[i].username
    &&& b[i].pass_hash == a[i].pass_hash
    &&& b[i].totp == a[i].totp
    &&& b[i].is_admin == a[i].is_admin
    &&& forall|j: int| 0 <= j < a.len() && j != i ==> b[j] == a[j]
}

/// Gives the account that `userid` designates a new session id: every
/// cookie that carries the old userid stops resolving.
pub fn change_sessionid(store: &mut Store, userid: String) -> (r: Result<(), AuthError>)
    requires
        old(store).wf(),
    ensures
        final(store).wf(),
        final(store).token_rows() == old(store).token_rows(),
        r is Err ==> final(store).user_rows() == old(store).user_rows(),
        session_user(old(store).user_rows(), userid@) is None ==> r matches Err(AuthError::InvalidSession),
        r is Ok ==> session_user(old(store).user_rows(), userid@) is Some && session_user(
            final(store).user_rows(),
            userid@,
        ) is None && has_user(final(store).user_rows(), userid_name(userid@)),
        r is Ok ==> forall|cookie: Seq<char>|
            userid_name(cookie) == userid_name(userid@) && userid_session(cookie) == userid_session(userid@)
                ==> (#[trigger] session_user(final(store).user_rows(), cookie)) is None,
        r is Ok ==> same_but_session(old(store).user_rows(), final(store).user_rows(), userid_name(userid@)),
{
    let ghost rows = store.user_rows();
    proof {
        store.lemma_unique();
    }
    match store.change_sessionid(userid.clone()) {
        Ok(()) => {
            proof {
                let s = choose|s: i64|
                    userid_session(userid@) != Some(s) && store.user_rows() == rows.update(
                        user_index(rows, userid_name(userid@)),
                        crate::store::with_session(rows[user_index(rows, userid_name(userid@))], s),
                    );
                lemma_rotation_revokes(rows, userid@, s, userid@);
                store.lemma_unique();
                lemma_user_index(store.user_rows(), user_index(rows, userid_name(userid@)));
                assert forall|cookie: Seq<char>|
                    userid_name(cookie) == userid_name(userid@) && userid_session(cookie) == userid_session(
                        userid@,
                    ) implies (#[trigger] session_user(store.user_rows(), cookie)) is None by {
                    lemma_rotation_revokes(rows, userid@, s, cookie);
                }
            }
            Ok(())
        },
        Err(e) => Err(e.into_auth()),
    }
}

/// Deletes the account that `userid` designates; `InvalidSession` where it
/// designates none.
pub fn delete_user(store: &mut Store, userid: String) -> (r: Result<(), AuthError>)
    requires
        old(store).wf(),
    ensures
        final(store).wf(),
        final(store).token_rows() == old(store).token_rows(),
        r is Ok <==> session_user(old(store).user_rows(), userid@) is Some,
        r is Err ==> r->Err_0 is InvalidSession && final(store).user_rows() == old(store).user_rows(),
        r is Ok ==> !has_user(final(store).user_rows(), userid_name(userid@)) && final(store).user_rows()
            == old(store).user_rows().remove(user_index(old(store).user_rows(), userid_name(userid@))),
{
    match store.delete_user(userid) {
        Ok(()) => Ok(()),
        Err(e) => Err(e.into_auth()),
    }
}

/// Changes the password of the account that `userid` designates, after
/// checking the old password against it, then rotates its session id.
pub fn change_pwd(store: &mut Store, userid: String, new_pwd: &[u8], old_pwd: &[u8]) -> (r: Result<
    (),
    AuthError,
>)
    requires
        old(store).wf(),
    ensures
        final(store).wf(),
        final(store).token_rows() == old(store).token_rows(),
        session_user(old(store).user_rows(), userid@) is None ==> (r matches Err(AuthError::InvalidSession)
            && final(store).user_rows() == old(store).user_rows()),
        session_user(old(store).user_rows(), userid@) is Some && argon2_check(
            old_pwd@,
            user_row(old(store).user_rows(), userid_name(userid@)).pass_hash@,
        ) != Some(true) ==> final(store).user_rows() == old(store).user_rows() && r is Err,
        session_user(old(store).user_rows(), userid@) is Some && argon2_check(
            old_pwd@,
            user_row(old(store).user_rows(), userid_name(userid@)).pass_hash@,
        ) is Some && argon2_check(old_pwd@, user_row(old(store).user_rows(), userid_name(userid@)).pass_hash@)
            != Some(true) ==> r matches Err(AuthError::InvalidCredentials),
        r is Ok ==> argon2_check(new_pwd@, user_row(final(store).user_rows(), userid_name(userid@)).pass_hash@)
            == Some(true),
        r is Ok ==> session_user(old(store).user_rows(), userid@) is Some && argon2_check(
            old_pwd@,
            user_row(old(store).user_rows(), userid_name(userid@)).pass_hash@,
        ) == Some(true) && session_user(final(store).user_rows(), userid@) is None && has_user(
            final(store).user_rows(),
            userid_name(userid@),
        ),
        r is Ok ==> forall|cookie: Seq<char>|
            userid_name(cookie) == userid_name(userid@) && userid_session(cookie) == userid_session(userid@)
                ==> (#[trigger] session_user(final(store).user_rows(), cookie)) is None,
{
    let (username, sid) = match unpack(userid.clone()) {
        Ok(p) => p,
        Err(e) => {
            return Err(e.into_auth());
        },
    };
    match store.get_passhash(&username, sid) {
        Some(pass_hash) => {
            if let Err(e) = hash::verify(old_pwd, pass_hash) {
                return Err(e);
            }
            let new_hash = match hash::create(new_pwd) {
                Ok(h) => h,
                Err(e) => {
                    return Err(e);
                },
            };
            let ghost rows = store.user_rows();
            proof {
                store.lemma_unique();
            }
            if let Err(e) = store.change_passhash(username, new_hash) {
                return Err(e.into_auth());
            }
            proof {
                assert(session_user(store.user_rows(), userid@) == session_user(rows, userid@)) by {
                    lemma_same_sessions(rows, store.user_rows(), user_index(rows, userid_name(userid@)));
                }
                store.lemma_unique();
                lemma_user_index(store.user_rows(), user_index(rows, userid_name(userid@)));
            }
            let ghost mid = store.user_rows();
            let r = change_sessionid(store, userid);
            proof {
                if r is Ok {
                    assert(user_row(store.user_rows(), userid_name(userid@)).pass_hash == user_row(
                        mid,
                        userid_name(userid@),
                    ).pass_hash);
                }
            }
            r
        },
        None => Err(AuthError::InvalidSession),
    }
}

/// Rows that differ in one row's password hash or TOTP url resolve every
/// userid alike.
proof fn lemma_same_sessions(a: Seq<UserRow>, b: Seq<UserRow>, i: int)
    requires
        users_unique(a),
        0 <= i < a.len(),
        a.len() == b.len(),
        forall|j: int| 0 <= j < a.len() && j != i ==> a[j] == b[j],
        b[i].username == a[i].username,
        b[i].session_id == a[i].session_id,
        b[i].is_admin == a[i].is_admin,
    ensures
        users_unique(b),
        forall|c: Seq<char>| #[trigger] session_user(a, c) == session_user(b, c),
{
    assert forall|x: int, y: int|
        0 <= x < b.len() && 0 <= y < b.len() && (#[trigger] b[x]).username@ == (#[trigger] b[y]).username@
            implies x == y by {
        assert(b[x].username@ == a[x].username@);
        assert(b[y].username@ == a[y].username@);
    }
    assert forall|x: int, y: int|
        0 <= x < b.len() && 0 <= y < b.len() && (#[trigger] b[x]).session_id == (#[trigger] b[y]).session_id
            implies x == y by {
        assert(b[x].session_id == a[x].session_id);
        assert(b[y].session_id == a[y].session_id);
    }
    assert forall|c: Seq<char>| #[trigger] session_user(a, c) == session_user(b, c) by {
        let n = userid_name(c);
        if let Some(sid) = userid_session(c) {
            if has_session(a, n, sid) {
                let j = choose|j: int| 0 <= j < a.len() && (#[trigger] a[j]).username@ == n && a[j].session_id == sid;
                lemma_user_index(a, j);
                assert(b[j].username@ == n);
                lemma_user_index(b, j);
                assert(has_session(b, n, sid));
            } else if has_session(b, n, sid) {
                let j = choose|j: int| 0 <= j < b.len() && (#[trigger] b[j]).username@ == n && b[j].session_id == sid;
                assert(a[j].username@ == n);
                assert(false);
            }
        }
    }
}

/// Changes the password hash of the account that `userid` designates to
/// `new_hash`, with a password-reset token for its username, at time `now`;
/// the session id stays. An unresolved userid is `InvalidSession`; the token
/// then goes as `check_pwd_token_at` says; on success the hash is replaced.
pub fn change_pwd_token_at(store: &mut Store, userid: String, new_hash: String, token: &String, now: i64) -> (r:
    Result<(), ServiceError>)
    requires
        old(store).wf(),
    ensures
        final(store).wf(),
        session_user(old(store).user_rows(), userid@) is None ==> (r matches Err(
            ServiceError::Auth(AuthError::InvalidSession),
        ) && final(store).user_rows() == old(store).user_rows() && final(store).token_rows() == old(
            store,
        ).token_rows()),
        session_user(old(store).user_rows(), userid@) is Some ==> {
            let n = userid_name(userid@);
            let rows = old(store).token_rows();
            let users = old(store).user_rows();
            &&& !has_token(rows, token@) ==> (r matches Err(ServiceError::Token(TokenError::NotFound))
                && final(store).user_rows() == users && final(store).token_rows() == rows)
            &&& has_token(rows, token@) && token_row(rows, token@).expire_date < now ==> (r matches Err(
                ServiceError::Token(TokenError::Expired),
            ) && final(store).user_rows() == users && final(store).token_rows() == unexpired(rows, now))
            &&& has_token(rows, token@) && token_row(rows, token@).expire_date >= now && !pwd_token_for(
                token_row(rows, token@),
                n,
            ) ==> (r matches Err(ServiceError::Token(TokenError::InvalidPwdToken)) && final(store).user_rows()
                == users && final(store).token_rows() == rows)
            &&& has_token(rows, token@) && token_row(rows, token@).expire_date >= now && pwd_token_for(
                token_row(rows, token@),
                n,
            ) ==> (r is Ok && final(store).token_rows() == rows.remove(token_index(rows, token@))
                && final(store).user_rows() == users.update(
                user_index(users, n),
                with_pass_hash(users[user_index(users, n)], new_hash),
            ))
        },
{
    let (username, _) = match validate_user(store, userid) {
        Ok(info) => info,
        Err(e) => {
            return Err(ServiceError::Auth(e));
        },
    };
    proof {
        store.lemma_unique();
        let users = store.user_rows();
        let n = userid_name(userid@);
        let sid = userid_session(userid@)->Some_0;
        let j = choose|j: int| 0 <= j < users.len() && (#[trigger] users[j]).username@ == n && users[j].session_id == sid;
        assert(has_user(users, n));
    }
    if let Err(e) = check_pwd_token_at(store, token, &username, now) {
        return Err(ServiceError::Token(e));
    }
    match store.change_passhash(username, new_hash) {
        Ok(()) => Ok(()),
        Err(e) => Err(ServiceError::Auth(e.into_auth())),
    }
}

/// Changes the password of the account that `userid` designates with a
/// password-reset token for its username; the session id stays. The token
/// is looked up before the password is hashed and consumed after it, so a
/// hashing failure leaves it in place.
pub fn change_pwd_token(store: &mut Store, userid: String, new_pwd: &[u8], token: String) -> (r: Result<
    (),
    ServiceError,
>)
    requires
        old(store).wf(),
    ensures
        final(store).wf(),
        session_user(old(store).user_rows(), userid@) is None ==> (r matches Err(
            ServiceError::Auth(AuthError::InvalidSession),
        ) && final(store).user_rows() == old(store).user_rows() && final(store).token_rows() == old(
            store,
        ).token_rows()),
        session_user(old(store).user_rows(), userid@) is Some && !has_token(old(store).token_rows(), token@)
            ==> (r matches Err(ServiceError::Token(TokenError::NotFound)) && final(store).user_rows() == old(
            store,
        ).user_rows() && final(store).token_rows() == old(store).token_rows()),
        r matches Err(ServiceError::Auth(AuthError::InternalError(_))) ==> final(store).user_rows() == old(
            store,
        ).user_rows() && final(store).token_rows() == old(store).token_rows(),
        r is Ok ==> {
            let n = userid_name(userid@);
            &&& session_user(old(store).user_rows(), userid@) is Some
            &&& has_token(old(store).token_rows(), token@)
            &&& pwd_token_for(token_row(old(store).token_rows(), token@), n)
            &&& final(store).token_rows() == old(store).token_rows().remove(
                token_index(old(store).token_rows(), token@),
            )
            &&& session_user(final(store).user_rows(), userid@) == session_user(old(store).user_rows(), userid@)
            &&& final(store).user_rows().len() == old(store).user_rows().len()
            &&& argon2_check(new_pwd@, user_row(final(store).user_rows(), n).pass_hash@) == Some(true)
            &&& user_row(final(store).user_rows(), n).totp == user_row(old(store).user_rows(), n).totp
        },
{
    if let Err(e) = validate_user(store, userid.clone()) {
        return Err(ServiceError::Auth(e));
    }
    if store.get_token(&token).is_none() {
        return Err(ServiceError::Token(TokenError::NotFound));
    }
    let new_hash = match hash::create(new_pwd) {
        Ok(h) => h,
        Err(e) => {
            return Err(ServiceError::Auth(e));
        },
    };
    let now = match now_signed() {
        Ok(n) => n,
        Err(e) => {
            return Err(ServiceError::Token(e));
        },
    };
    let ghost rows = store.user_rows();
    let ghost h = new_hash;
    proof {
        store.lemma_unique();
    }
    let r = change_pwd_token_at(store, userid, new_hash, &token, now);
    proof {
        if r is Ok {
            let i = user_index(rows, userid_name(userid@));
            let sid = userid_session(userid@)->Some_0;
            let j = choose|j: int| 0 <= j < rows.len() && (#[trigger] rows[j]).username@ == userid_name(userid@) && rows[j].session_id == sid;
            lemma_user_index(rows, j);
            lemma_same_sessions(rows, store.user_rows(), i);
            store.lemma_unique();
            lemma_user_index(store.user_rows(), i);
        }
    }
    r
}

/// Replaces the TOTP secret of the account that `userid` designates, after
/// checking its password, rotates its session id, and returns the new TOTP.
pub fn change_totp(store: &mut Store, userid: String, pwd: &[u8], server_name: &str) -> (r: Result<
    Totp,
    AuthError,
>)
    requires
        old(store).wf(),
    ensures
        final(store).wf(),
        final(store).token_rows() == old(store).token_rows(),
        session_user(old(store).user_rows(), userid@) is None ==> (r matches Err(AuthError::InvalidSession)
            && final(store).user_rows() == old(store).user_rows()),
        session_user(old(store).user_rows(), userid@) is Some && argon2_check(
            pwd@,
            user_row(old(store).user_rows(), userid_name(userid@)).pass_hash@,
        ) != Some(true) ==> final(store).user_rows() == old(store).user_rows() && r is Err,
        r is Ok ==> session_user(old(store).user_rows(), userid@) is Some && argon2_check(
            pwd@,
            user_row(old(store).user_rows(), userid_name(userid@)).pass_hash@,
        ) == Some(true) && session_user(final(store).user_rows(), userid@) is None && has_user(
            final(store).user_rows(),
            userid_name(userid@),
        ),
        r is Ok ==> forall|cookie: Seq<char>|
            userid_name(cookie) == userid_name(userid@) && userid_session(cookie) == userid_session(userid@)
                ==> (#[trigger] session_user(final(store).user_rows(), cookie)) is None,
        session_user(old(store).user_rows(), userid@) is Some && argon2_check(
            pwd@,
            user_row(old(store).user_rows(), userid_name(userid@)).pass_hash@,
        ) is Some && argon2_check(pwd@, user_row(old(store).user_rows(), userid_name(userid@)).pass_hash@)
            != Some(true) ==> r matches Err(AuthError::InvalidCredentials),
        r is Ok ==> {
            let n = userid_name(userid@);
            &&& user_row(final(store).user_rows(), n).totp@ == r->Ok_0.url_text()
            &&& user_row(final(store).user_rows(), n).pass_hash == user_row(old(store).user_rows(), n).pass_hash
            &&& enrolment_for(r->Ok_0, server_name@, n)
        },
{
    let (username, sid) = match unpack(userid.clone()) {
        Ok(p) => p,
        Err(e) => {
            return Err(e.into_auth());
        },
    };
    match store.get_passhash(&username, sid) {
        Some(pass_hash) => {
            if let Err(e) = hash::verify(pwd, pass_hash) {
                return Err(e);
            }
            let new_totp = match totp::generate(username.clone(), server_name) {
                Ok(t) => t,
                Err(e) => {
                    return Err(e);
                },
            };
            let ghost rows = store.user_rows();
            proof {
                store.lemma_unique();
            }
            if let Err(e) = store.change_totp(username, new_totp.get_url()) {
                return Err(e.into_auth());
            }
            proof {
                lemma_same_sessions(rows, store.user_rows(), user_index(rows, userid_name(userid@)));
                store.lemma_unique();
                lemma_user_index(store.user_rows(), user_index(rows, userid_name(userid@)));
            }
            match change_sessionid(store, userid) {
                Ok(()) => Ok(new_totp),
                Err(e) => Err(e),
            }
        },
        None => Err(AuthError::InvalidSession),
    }
}

/// Why a caller may not use an administrator's endpoint.
#[derive(Debug, Clone, PartialEq, Eq)]
pub enum AccessError {
    /// The session resolves, to an account that is not an administrator (403).
    Forbidden,
    /// The session does not resolve.
    Auth(AuthError),
}

/// Admits the caller behind `userid` only if it is an administrator.
pub fn is_admin(store: &Store, userid: String) -> (r: Result<(), AccessError>)
    requires
        store.wf(),
    ensures
        match session_user(store.user_rows(), userid@) {
            Some((_, true)) => r is Ok,
            Some((_, false)) => r == Err::<(), AccessError>(AccessError::Forbidden),
            None => r matches Err(AccessError::Auth(AuthError::InvalidSession)),
        },
{
    match validate_user(store, userid) {
        Ok((_, true)) => Ok(()),
        Ok((_, false)) => Err(AccessError::Forbidden),
        Err(e) => Err(AccessError::Auth(e)),
    }
}

/// Changes the password of the account behind `userid` in the way the
/// request names: with the old password (which rotates the session) or with
/// a password-reset token (which does not).
pub fn change_password(store: &mut Store, userid: String, payload: ChangePwd) -> (r: Result<(), ServiceError>)
    requires
        old(store).wf(),
    ensures
        final(store).wf(),
        session_user(old(store).user_rows(), userid@) is None ==> r is Err,
        r is Ok ==> session_user(old(store).user_rows(), userid@) is Some,
        r is Ok && payload.change_method is OldPassword ==> session_user(final(store).user_rows(), userid@) is None,
        r is Ok && payload.change_method is Token ==> session_user(final(store).user_rows(), userid@)
            == session_user(old(store).user_rows(), userid@),
        r is Ok ==> argon2_check(
            encode_utf8(payload.new_password@),
            user_row(final(store).user_rows(), userid_name(userid@)).pass_hash@,
        ) == Some(true),
        payload.change_method matches ChangeMethod::OldPassword(p) ==> (r is Ok ==> argon2_check(
            encode_utf8(p@),
            user_row(old(store).user_rows(), userid_name(userid@)).pass_hash@,
        ) == Some(true)),
{
    let new_password = payload.new_password.as_str().as_bytes();
    match &payload.change_method {
        ChangeMethod::OldPassword(old_password) => {
            match change_pwd(store, userid, new_password, old_password.as_str().as_bytes()) {
                Ok(()) => Ok(()),
                Err(e) => Err(ServiceError::Auth(e)),
            }
        },
        ChangeMethod::Token(token) => change_pwd_token(store, userid, new_password, token.clone()),
    }
}

} // verus!
