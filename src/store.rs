//! The store of user accounts and of registration / password-reset tokens.
//!
//! Each account row is keyed by its username and by its session id, both
//! unique; each token row by its token text and by its id, both unique. The
//! rows are seen in the order in which they were inserted.

use crate::error::DBError;
use crate::userid::{make_userid, unpack, userid_name, userid_of, userid_session};
use vstd::prelude::*;

verus! {

/// One account.
#[derive(Debug)]
pub struct UserRow {
    pub username: String,
    pub session_id: i64,
    pub pass_hash: String,
    pub totp: String,
    pub is_admin: bool,
}

/// What a login needs of an account: its userid, password hash and TOTP url.
#[derive(Debug)]
pub struct UserAuth {
    /// `"<username>:<session_id>"`, the identity kept in the session cookie.
    pub userid: String,
    pub pass_hash: String,
    pub totp: String,
}

/// One registration token (no `for_user`) or password-reset token (with it).
#[derive(Debug)]
pub struct Token {
    pub id: i64,
    pub token: String,
    pub expire_date: i64,
    pub for_user: Option<String>,
}

/// No two rows share a username, nor a session id.
pub open spec fn users_unique(rows: Seq<UserRow>) -> bool {
    &&& forall|i: int, j: int|
        0 <= i < rows.len() && 0 <= j < rows.len() && (#[trigger] rows[i]).username@ == (
        #[trigger] rows[j]).username@ ==> i == j
    &&& forall|i: int, j: int|
        0 <= i < rows.len() && 0 <= j < rows.len() && (#[trigger] rows[i]).session_id == (
        #[trigger] rows[j]).session_id ==> i == j
}

/// No two token rows share a token text, nor an id.
pub open spec fn tokens_unique(rows: Seq<Token>) -> bool {
    &&& forall|i: int, j: int|
        0 <= i < rows.len() && 0 <= j < rows.len() && (#[trigger] rows[i]).token@ == (
        #[trigger] rows[j]).token@ ==> i == j
    &&& forall|i: int, j: int|
        0 <= i < rows.len() && 0 <= j < rows.len() && (#[trigger] rows[i]).id == (
        #[trigger] rows[j]).id ==> i == j
}

/// Some row holds username `u`.
pub open spec fn has_user(rows: Seq<UserRow>, u: Seq<char>) -> bool {
    exists|i: int| 0 <= i < rows.len() && (#[trigger] rows[i]).username@ == u
}

/// The index of the row of username `u` (meaningful where `has_user`).
pub open spec fn user_index(rows: Seq<UserRow>, u: Seq<char>) -> int {
    choose|i: int| 0 <= i < rows.len() && (#[trigger] rows[i]).username@ == u
}

/// Some row holds session id `sid`.
pub open spec fn session_in_use(rows: Seq<UserRow>, sid: i64) -> bool {
    exists|i: int| 0 <= i < rows.len() && (#[trigger] rows[i]).session_id == sid
}

/// Some row holds both username `u` and session id `sid`.
pub open spec fn has_session(rows: Seq<UserRow>, u: Seq<char>, sid: i64) -> bool {
    exists|i: int| 0 <= i < rows.len() && (#[trigger] rows[i]).username@ == u && rows[i].session_id == sid
}

/// The account that a userid designates, as `(username, is_admin)`: the
/// userid must unpack, and its username and session id must match one row.
pub open spec fn session_user(rows: Seq<UserRow>, userid: Seq<char>) -> Option<(Seq<char>, bool)> {
    match userid_session(userid) {
        Some(sid) => if has_session(rows, userid_name(userid), sid) {
            Some((userid_name(userid), rows[user_index(rows, userid_name(userid))].is_admin))
        } else {
            None
        },
        None => None,
    }
}

/// The row `r` with another session id.
pub open spec fn with_session(r: UserRow, sid: i64) -> UserRow {
    UserRow {
        username: r.username,
        session_id: sid,
        pass_hash: r.pass_hash,
        totp: r.totp,
        is_admin: r.is_admin,
    }
}

/// The row `r` with another password hash.
pub open spec fn with_pass_hash(r: UserRow, h: String) -> UserRow {
    UserRow {
        username: r.username,
        session_id: r.session_id,
        pass_hash: h,
        totp: r.totp,
        is_admin: r.is_admin,
    }
}

/// The row `r` with another TOTP url.
pub open spec fn with_totp(r: UserRow, t: String) -> UserRow {
    UserRow {
        username: r.username,
        session_id: r.session_id,
        pass_hash: r.pass_hash,
        totp: t,
        is_admin: r.is_admin,
    }
}

/// In rows with unique usernames, the row found for `u` is the only one.
pub proof fn lemma_user_index(rows: Seq<UserRow>, i: int)
    requires
        users_unique(rows),
        0 <= i < rows.len(),
    ensures
        has_user(rows, rows[i].username@),
        user_index(rows, rows[i].username@) == i,
{
    let u = rows[i].username@;
    assert(has_user(rows, u));
    let j = user_index(rows, u);
    assert(rows[j].username@ == u);
}

/// The store itself.
pub struct Store {
    users: Vec<UserRow>,
    tokens: Vec<Token>,
    next_token_id: i64,
}

impl Store {
    /// The account rows, in insertion order.
    pub closed spec fn user_rows(&self) -> Seq<UserRow> {
        self.users@
    }

    /// The token rows, in insertion order.
    pub closed spec fn token_rows(&self) -> Seq<Token> {
        self.tokens@
    }

    /// Usernames and session ids are unique; token texts and ids are
    /// unique and below the next id to hand out.
    pub closed spec fn wf(&self) -> bool {
        &&& users_unique(self.users@)
        &&& tokens_unique(self.tokens@)
        &&& self.next_token_id >= 1
        &&& forall|i: int| 0 <= i < self.tokens@.len() ==> (#[trigger] self.tokens@[i]).id < self.next_token_id
    }

    /// In a well-formed store no two accounts share a username (nor a
    /// session id), and no two tokens share a text (nor an id).
    pub proof fn lemma_unique(&self)
        requires
            self.wf(),
        ensures
            users_unique(self.user_rows()),
            tokens_unique(self.token_rows()),
    {
    }

    /// An empty store.
    pub fn new() -> (r: Store)
        ensures
            r.wf(),
            r.user_rows() == Seq::<UserRow>::empty(),
            r.token_rows() == Seq::<Token>::empty(),
    {
        Store { users: Vec::new(), tokens: Vec::new(), next_token_id: 1 }
    }

    /// Index of the row of `username`, if any.
    fn find_user(&self, username: &String) -> (r: Option<usize>)
        requires
            self.wf(),
        ensures
            match r {
                Some(i) => i < self.users@.len() && self.users@[i as int].username@ == username@
                    && user_index(self.users@, username@) == i,
                None => !has_user(self.users@, username@),
            },
    {
        let mut i: usize = 0;
        while i < self.users.len()
            invariant
                self.wf(),
                i <= self.users@.len(),
                forall|k: int| 0 <= k < i ==> (#[trigger] self.users@[k]).username@ != username@,
            decreases self.users@.len() - i,
        {
            if self.users[i].username == *username {
                proof {
                    lemma_user_index(self.users@, i as int);
                }
                return Some(i);
            }
            i += 1;
        }
        None
    }

    /// Index of the row holding session id `sid`, if any.
    fn find_session(&self, sid: i64) -> (r: Option<usize>)
        ensures
            match r {
                Some(i) => i < self.users@.len() && self.users@[i as int].session_id == sid,
                None => !session_in_use(self.users@, sid),
            },
    {
        let mut i: usize = 0;
        while i < self.users.len()
            invariant
                i <= self.users@.len(),
                forall|k: int| 0 <= k < i ==> (#[trigger] self.users@[k]).session_id != sid,
            decreases self.users@.len() - i,
        {
            if self.users[i].session_id == sid {
                return Some(i);
            }
            i += 1;
        }
        None
    }

    /// Inserts an account with the given session id and returns its userid.
    /// A username or session id already in use is refused with `UserExists`,
    /// and the store is left as it was.
    pub fn add_user_with_session(
        &mut self,
        username: String,
        pass_hash: String,
        totp: String,
        is_admin: bool,
        session_id: i64,
    ) -> (r: Result<String, DBError>)
        requires
            old(self).wf(),
        ensures
            final(self).wf(),
            final(self).token_rows() == old(self).token_rows(),
            (has_user(old(self).user_rows(), username@) || session_in_use(old(self).user_rows(), session_id))
                <==> r is Err,
            r is Err ==> r->Err_0 is UserExists && final(self).user_rows() == old(self).user_rows(),
            r matches Ok(uid) ==> uid@ == userid_of(username@, session_id) && final(self).user_rows()
                == old(self).user_rows().push(
                UserRow { username, session_id, pass_hash, totp, is_admin },
            ),
    {
        if self.find_user(&username).is_some() || self.find_session(session_id).is_some() {
            return Err(DBError::UserExists);
        }
        let userid = make_userid(username.as_str(), session_id);
        let row = UserRow { username, session_id, pass_hash, totp, is_admin };
        self.users.push(row);
        Ok(userid)
    }

    /// The userid, password hash and TOTP url of `username`'s account.
    pub fn get_auth(&self, username: &String) -> (r: Option<UserAuth>)
        requires
            self.wf(),
        ensures
            r is Some <==> has_user(self.user_rows(), username@),
            r matches Some(a) ==> {
                let row = self.user_rows()[user_index(self.user_rows(), username@)];
                &&& a.userid@ == userid_of(username@, row.session_id)
                &&& a.pass_hash == row.pass_hash
                &&& a.totp == row.totp
            },
    {
        match self.find_user(username) {
            Some(i) => {
                let row = &self.users[i];
                Some(
                    UserAuth {
                        userid: make_userid(row.username.as_str(), row.session_id),
                        pass_hash: row.pass_hash.clone(),
                        totp: row.totp.clone(),
                    },
                )
            },
            None => None,
        }
    }

    /// Index of the row holding both `username` and `sid`, if any.
    fn find_session_of(&self, username: &String, sid: i64) -> (r: Option<usize>)
        requires
            self.wf(),
        ensures
            match r {
                Some(i) => i < self.users@.len() && self.users@[i as int].username@ == username@
                    && self.users@[i as int].session_id == sid && user_index(self.users@, username@) == i,
                None => !has_session(self.users@, username@, sid),
            },
    {
        match self.find_user(username) {
            Some(i) => {
                if self.users[i].session_id == sid {
                    Some(i)
                } else {
                    proof {
                        assert forall|k: int|
                            0 <= k < self.users@.len() && (#[trigger] self.users@[k]).username@
                                == username@ implies self.users@[k].session_id != sid by {
                            lemma_user_index(self.users@, k);
                        }
                    }
                    None
                }
            },
            None => None,
        }
    }

    /// The password hash of the account holding both `username` and `sid`.
    pub fn get_passhash(&self, username: &String, sid: i64) -> (r: Option<String>)
        requires
            self.wf(),
        ensures
            r is Some <==> has_session(self.user_rows(), username@, sid),
            r matches Some(h) ==> h == self.user_rows()[user_index(self.user_rows(), username@)].pass_hash,
    {
        match self.find_session_of(username, sid) {
            Some(i) => Some(self.users[i].pass_hash.clone()),
            None => None,
        }
    }

    /// The username and admin flag of the account that `userid` designates.
    /// A userid that does not unpack is refused with `InvalidUserID`.
    pub fn userinfo(&self, userid: String) -> (r: Result<Option<(String, bool)>, DBError>)
        requires
            self.wf(),
        ensures
            userid_session(userid@) is None <==> r is Err,
            r is Err ==> r->Err_0 is InvalidUserID,
            r matches Ok(o) ==> match (o, session_user(self.user_rows(), userid@)) {
                (Some((n, a)), Some((sn, sa))) => n@ == sn && a == sa,
                (None, None) => true,
                _ => false,
            },
    {
        let (username, sid) = unpack(userid)?;
        match self.find_session_of(&username, sid) {
            Some(i) => Ok(Some((username, self.users[i].is_admin))),
            None => Ok(None),
        }
    }

    /// Replaces row `i` by a row of the same username whose session id no
    /// other row holds.
    fn set_user_row(&mut self, i: usize, row: UserRow)
        requires
            old(self).wf(),
            i < old(self).users@.len(),
            row.username@ == old(self).users@[i as int].username@,
            forall|j: int|
                0 <= j < old(self).users@.len() && j != i ==> (#[trigger] old(self).users@[j]).session_id
                    != row.session_id,
        ensures
            final(self).wf(),
            final(self).users@ == old(self).users@.update(i as int, row),
            final(self).tokens@ == old(self).tokens@,
    {
        let ghost old_rows = self.users@;
        self.users.set(i, row);
        proof {
            assert forall|a: int, b: int|
                0 <= a < self.users@.len() && 0 <= b < self.users@.len() && (
                #[trigger] self.users@[a]).session_id == (#[trigger] self.users@[b]).session_id implies a
                == b by {
                if a != i && b != i {
                    assert(old_rows[a] == self.users@[a]);
                    assert(old_rows[b] == self.users@[b]);
                } else if a == i && b != i {
                    assert(old_rows[b] == self.users@[b]);
                } else if a != i && b == i {
                    assert(old_rows[a] == self.users@[a]);
                }
            }
            assert forall|a: int, b: int|
                0 <= a < self.users@.len() && 0 <= b < self.users@.len() && (
                #[trigger] self.users@[a]).username@ == (#[trigger] self.users@[b]).username@ implies a
                == b by {
                assert(self.users@[a].username@ == old_rows[a].username@);
                assert(self.users@[b].username@ == old_rows[b].username@);
            }
        }
    }

    /// Gives the account that `userid` designates the session id `new_sid`.
    /// A userid that does not unpack or designates no account is refused
    /// with `InvalidUserID`; a session id held by another account with
    /// `ExecError`.
    pub fn change_sessionid_to(&mut self, userid: String, new_sid: i64) -> (r: Result<(), DBError>)
        requires
            old(self).wf(),
        ensures
            final(self).wf(),
            final(self).token_rows() == old(self).token_rows(),
            r is Err ==> final(self).user_rows() == old(self).user_rows(),
            session_user(old(self).user_rows(), userid@) is None ==> r matches Err(DBError::InvalidUserID),
            r is Ok <==> session_user(old(self).user_rows(), userid@) is Some && (!session_in_use(
                old(self).user_rows(),
                new_sid,
            ) || userid_session(userid@) == Some(new_sid)),
            r is Ok ==> {
                let i = user_index(old(self).user_rows(), userid_name(userid@));
                final(self).user_rows() == old(self).user_rows().update(
                    i,
                    with_session(old(self).user_rows()[i], new_sid),
                )
            },
    {
        let (username, old_sid) = unpack(userid)?;
        let i = match self.find_session_of(&username, old_sid) {
            Some(i) => i,
            None => {
                return Err(DBError::InvalidUserID);
            },
        };
        if new_sid != old_sid {
            if let Some(j) = self.find_session(new_sid) {
                return Err(
                    DBError::ExecError(
                        "Failed to change session id: session id already in use".to_string(),
                    ),
                );
            }
        }
        let row = UserRow {
            username: self.users[i].username.clone(),
            session_id: new_sid,
            pass_hash: self.users[i].pass_hash.clone(),
            totp: self.users[i].totp.clone(),
            is_admin: self.users[i].is_admin,
        };
        proof {
            assert forall|j: int|
                0 <= j < self.users@.len() && j != i implies (#[trigger] self.users@[j]).session_id
                != new_sid by {
                if new_sid == old_sid {
                    assert(self.users@[i as int].session_id == old_sid);
                }
            }
        }
        self.set_user_row(i, row);
        Ok(())
    }

    /// Gives the account that `userid` designates a fresh random session id,
    /// different from its current one, so that every cookie carrying the
    /// current userid stops resolving.
    pub fn change_sessionid(&mut self, userid: String) -> (r: Result<(), DBError>)
        requires
            old(self).wf(),
        ensures
            final(self).wf(),
            final(self).token_rows() == old(self).token_rows(),
            r is Err ==> final(self).user_rows() == old(self).user_rows(),
            session_user(old(self).user_rows(), userid@) is None ==> r matches Err(DBError::InvalidUserID),
            r is Ok ==> session_user(old(self).user_rows(), userid@) is Some && exists|s: i64|
                userid_session(userid@) != Some(s) && final(self).user_rows() == old(self).user_rows().update(
                    user_index(old(self).user_rows(), userid_name(userid@)),
                    with_session(
                        old(self).user_rows()[user_index(old(self).user_rows(), userid_name(userid@))],
                        s,
                    ),
                ),
    {
        let (_, old_sid) = unpack(userid.clone())?;
        let drawn = random_session_id();
        let new_sid = if drawn != old_sid {
            drawn
        } else if drawn == i64::MAX {
            i64::MIN
        } else {
            drawn + 1
        };
        self.change_sessionid_to(userid, new_sid)
    }

    /// Replaces the password hash of `username`'s account; `UserNotFound`
    /// where there is none.
    pub fn change_passhash(&mut self, username: String, new_pwdhash: String) -> (r: Result<(), DBError>)
        requires
            old(self).wf(),
        ensures
            final(self).wf(),
            final(self).token_rows() == old(self).token_rows(),
            r is Ok <==> has_user(old(self).user_rows(), username@),
            r is Err ==> r->Err_0 is UserNotFound && final(self).user_rows() == old(self).user_rows(),
            r is Ok ==> {
                let i = user_index(old(self).user_rows(), username@);
                final(self).user_rows() == old(self).user_rows().update(
                    i,
                    with_pass_hash(old(self).user_rows()[i], new_pwdhash),
                )
            },
    {
        match self.find_user(&username) {
            Some(i) => {
                let row = UserRow {
                    username: self.users[i].username.clone(),
                    session_id: self.users[i].session_id,
                    pass_hash: new_pwdhash,
                    totp: self.users[i].totp.clone(),
                    is_admin: self.users[i].is_admin,
                };
                self.set_user_row(i, row);
                Ok(())
            },
            None => Err(DBError::UserNotFound),
        }
    }

    /// Replaces the TOTP url of `username`'s account; `UserNotFound` where
    /// there is none.
    pub fn change_totp(&mut self, username: String, new_totp: String) -> (r: Result<(), DBError>)
        requires
            old(self).wf(),
        ensures
            final(self).wf(),
            final(self).token_rows() == old(self).token_rows(),
            r is Ok <==> has_user(old(self).user_rows(), username@),
            r is Err ==> r->Err_0 is UserNotFound && final(self).user_rows() == old(self).user_rows(),
            r is Ok ==> {
                let i = user_index(old(self).user_rows(), username@);
                final(self).user_rows() == old(self).user_rows().update(
                    i,
                    with_totp(old(self).user_rows()[i], new_totp),
                )
            },
    {
        match self.find_user(&username) {
            Some(i) => {
                let row = UserRow {
                    username: self.users[i].username.clone(),
                    session_id: self.users[i].session_id,
                    pass_hash: self.users[i].pass_hash.clone(),
                    totp: new_totp,
                    is_admin: self.users[i].is_admin,
                };
                self.set_user_row(i, row);
                Ok(())
            },
            None => Err(DBError::UserNotFound),
        }
    }

    /// The usernames of all accounts, in insertion order.
    pub fn get_all_usernames(&self) -> (r: Vec<String>)
        ensures
            r@.len() == self.user_rows().len(),
            forall|i: int| 0 <= i < r@.len() ==> #[trigger] r@[i] == self.user_rows()[i].username,
    {
        let mut names: Vec<String> = Vec::new();
        let mut i: usize = 0;
        while i < self.users.len()
            invariant
                i <= self.users@.len(),
                names@.len() == i,
                forall|k: int| 0 <= k < i ==> #[trigger] names@[k] == self.users@[k].username,
            decreases self.users@.len() - i,
        {
            names.push(self.users[i].username.clone());
            i += 1;
        }
        names
    }

    /// Deletes the account that `userid` designates; `InvalidUserID` where
    /// the userid does not unpack or designates no account.
    pub fn delete_user(&mut self, userid: String) -> (r: Result<(), DBError>)
        requires
            old(self).wf(),
        ensures
            final(self).wf(),
            final(self).token_rows() == old(self).token_rows(),
            r is Ok <==> session_user(old(self).user_rows(), userid@) is Some,
            r is Err ==> r->Err_0 is InvalidUserID && final(self).user_rows() == old(self).user_rows(),
            r is Ok ==> final(self).user_rows() == old(self).user_rows().remove(
                user_index(old(self).user_rows(), userid_name(userid@)),
            ),
            r is Ok ==> !has_user(final(self).user_rows(), userid_name(userid@)),
    {
        let (username, sid) = unpack(userid)?;
        match self.find_session_of(&username, sid) {
            Some(i) => {
                let ghost old_rows = self.users@;
                self.users.remove(i);
                proof {
                    assert forall|a: int, b: int|
                        0 <= a < self.users@.len() && 0 <= b < self.users@.len() && (
                        #[trigger] self.users@[a]).session_id == (#[trigger] self.users@[b]).session_id
                            implies a == b by {
                        let a0 = if a < i { a } else { a + 1 };
                        let b0 = if b < i { b } else { b + 1 };
                        assert(self.users@[a] == old_rows[a0]);
                        assert(self.users@[b] == old_rows[b0]);
                    }
                    assert forall|a: int, b: int|
                        0 <= a < self.users@.len() && 0 <= b < self.users@.len() && (
                        #[trigger] self.users@[a]).username@ == (#[trigger] self.users@[b]).username@
                            implies a == b by {
                        let a0 = if a < i { a } else { a + 1 };
                        let b0 = if b < i { b } else { b + 1 };
                        assert(self.users@[a] == old_rows[a0]);
                        assert(self.users@[b] == old_rows[b0]);
                    }
                    assert forall|k: int| 0 <= k < self.users@.len() implies (#[trigger] self.users@[k]).username@
                        != username@ by {
                        let k0 = if k < i { k } else { k + 1 };
                        assert(self.users@[k] == old_rows[k0]);
                    }
                }
                Ok(())
            },
            None => Err(DBError::InvalidUserID),
        }
    }

    /// A session id that no account holds: the first of `i64::MIN`,
    /// `i64::MIN + 1`, ... that is free. Among as many candidates as there are
    /// accounts plus one, at least one is free.
    fn free_session_id(&self) -> (r: i64)
        requires
            self.wf(),
        ensures
            !session_in_use(self.users@, r),
    {
        let n = self.users.len();
        let mut k: usize = 0;
        let ghost mut idx: Seq<int> = Seq::empty();
        loop
            invariant
                self.wf(),
                n == self.users@.len(),
                k <= n,
                idx.len() == k,
                forall|j: int| 0 <= j < k ==> 0 <= #[trigger] idx[j] < n,
                forall|j: int|
                    0 <= j < k ==> self.users@[#[trigger] idx[j]].session_id == i64::MIN + j,
            decreases n - k,
        {
            let c = (i64::MIN as i128 + k as i128) as i64;
            match self.find_session(c) {
                None => {
                    return c;
                },
                Some(i) => {
                    proof {
                        let full = idx.push(i as int);
                        assert forall|a: int, b: int|
                            0 <= a < full.len() && 0 <= b < full.len() && a != b implies full[a] != full[b] by {
                            if full[a] == full[b] {
                                assert(self.users@[full[a]].session_id == i64::MIN + a);
                                assert(self.users@[full[b]].session_id == i64::MIN + b);
                            }
                        }
                        if k == n {
                            assert(full.no_duplicates());
                            full.unique_seq_to_set();
                            vstd::set_lib::lemma_int_range(0, n as int);
                            assert(full.to_set().subset_of(vstd::set_lib::set_int_range(0, n as int))) by {
                                assert forall|x: int| full.to_set().contains(x) implies vstd::set_lib::set_int_range(
                                    0,
                                    n as int,
                                ).contains(x) by {
                                    let j = choose|j: int| 0 <= j < full.len() && full[j] == x;
                                }
                            }
                            vstd::set_lib::lemma_len_subset(full.to_set(), vstd::set_lib::set_int_range(0, n as int));
                            assert(false);
                        }
                        idx = full;
                    }
                    k += 1;
                },
            }
        }
    }

    /// Inserts an account under a random session id (another free one where
    /// the draw is taken) and returns its userid. A username already in use
    /// is refused with `UserExists`, and the store is left as it was.
    pub fn add_user(&mut self, username: String, pass_hash: String, totp: String, is_admin: bool) -> (r: Result<
        String,
        DBError,
    >)
        requires
            old(self).wf(),
        ensures
            final(self).wf(),
            final(self).token_rows() == old(self).token_rows(),
            r is Err <==> has_user(old(self).user_rows(), username@),
            r is Err ==> r->Err_0 is UserExists && final(self).user_rows() == old(self).user_rows(),
            r is Ok ==> {
                let rows = final(self).user_rows();
                &&& rows.len() == old(self).user_rows().len() + 1
                &&& rows.drop_last() == old(self).user_rows()
                &&& rows.last() == UserRow {
                    username,
                    session_id: rows.last().session_id,
                    pass_hash,
                    totp,
                    is_admin,
                }
                &&& r->Ok_0@ == userid_of(username@, rows.last().session_id)
            },
    {
        let drawn = random_session_id();
        let sid = if self.find_session(drawn).is_some() {
            self.free_session_id()
        } else {
            drawn
        };
        let ghost old_rows = self.users@;
        let r = self.add_user_with_session(username, pass_hash, totp, is_admin, sid);
        proof {
            if r is Ok {
                assert(self.users@.drop_last() == old_rows);
            }
        }
        r
    }
}

/// A copy of an account row.
pub fn clone_user(r: &UserRow) -> (c: UserRow)
    ensures
        c == *r,
{
    UserRow {
        username: r.username.clone(),
        session_id: r.session_id,
        pass_hash: r.pass_hash.clone(),
        totp: r.totp.clone(),
        is_admin: r.is_admin,
    }
}

impl Store {
    /// All account rows, in insertion order.
    pub fn get_all_users(&self) -> (r: Vec<UserRow>)
        ensures
            r@ == self.user_rows(),
    {
        let mut out: Vec<UserRow> = Vec::new();
        let mut i: usize = 0;
        while i < self.users.len()
            invariant
                i <= self.users@.len(),
                out@ == self.users@.take(i as int),
            decreases self.users@.len() - i,
        {
            out.push(clone_user(&self.users[i]));
            proof {
                assert(self.users@.take(i as int + 1) == self.users@.take(i as int).push(self.users@[i as int]));
            }
            i += 1;
        }
        proof {
            assert(self.users@.take(i as int) == self.users@);
        }
        out
    }

    /// Appends a token row as it was saved, keeping its id; refused where its
    /// text or id is taken, or its id is the largest there is.
    fn restore_token(&mut self, t: Token) -> (r: bool)
        requires
            old(self).wf(),
        ensures
            final(self).wf(),
            final(self).users@ == old(self).users@,
            r ==> final(self).tokens@ == old(self).tokens@.push(t),
            !r ==> final(self).tokens@ == old(self).tokens@,
            r <==> !has_token(old(self).tokens@, t.token@) && !has_token_id(old(self).tokens@, t.id) && t.id
                != i64::MAX,
    {
        if self.find_token(&t.token).is_some() || self.find_token_id(t.id).is_some() || t.id == i64::MAX {
            return false;
        }
        let ghost old_rows = self.tokens@;
        if t.id >= self.next_token_id {
            self.next_token_id = t.id + 1;
        }
        self.tokens.push(t);
        proof {
            assert forall|a: int, b: int|
                0 <= a < self.tokens@.len() && 0 <= b < self.tokens@.len() && (
                #[trigger] self.tokens@[a]).id == (#[trigger] self.tokens@[b]).id implies a == b by {
                if a < old_rows.len() {
                    assert(self.tokens@[a] == old_rows[a]);
                }
                if b < old_rows.len() {
                    assert(self.tokens@[b] == old_rows[b]);
                }
            }
            assert forall|a: int, b: int|
                0 <= a < self.tokens@.len() && 0 <= b < self.tokens@.len() && (
                #[trigger] self.tokens@[a]).token@ == (#[trigger] self.tokens@[b]).token@ implies a
                == b by {
                if a < old_rows.len() {
                    assert(self.tokens@[a] == old_rows[a]);
                }
                if b < old_rows.len() {
                    assert(self.tokens@[b] == old_rows[b]);
                }
            }
            assert forall|k: int| 0 <= k < self.tokens@.len() implies (#[trigger] self.tokens@[k]).id
                < self.next_token_id by {
                if k < old_rows.len() {
                    assert(self.tokens@[k] == old_rows[k]);
                }
            }
        }
        true
    }

    /// A store holding saved rows, in the same order; none where two accounts
    /// share a username or session id, or two tokens a text or id.
    pub fn from_rows(users: &Vec<UserRow>, tokens: &Vec<Token>) -> (r: Option<Store>)
        ensures
            r matches Some(s) ==> s.wf() && s.user_rows() == users@ && s.token_rows() == tokens@,
            users_unique(users@) && tokens_unique(tokens@) && (forall|k: int|
                0 <= k < tokens@.len() ==> (#[trigger] tokens@[k]).id < i64::MAX) ==> r is Some,
    {
        let mut store = Store::new();
        let mut i: usize = 0;
        while i < users.len()
            invariant
                store.wf(),
                i <= users@.len(),
                store.users@ == users@.take(i as int),
                store.tokens@ == Seq::<Token>::empty(),
            decreases users@.len() - i,
        {
            let row = clone_user(&users[i]);
            let ghost before = store.users@;
            proof {
                if users_unique(users@) {
                    assert(!has_user(before, row.username@)) by {
                        if has_user(before, row.username@) {
                            let k = choose|k: int| 0 <= k < before.len() && (#[trigger] before[k]).username@ == row.username@;
                            assert(before[k] == users@[k]);
                        }
                    }
                    assert(!session_in_use(before, row.session_id)) by {
                        if session_in_use(before, row.session_id) {
                            let k = choose|k: int| 0 <= k < before.len() && (#[trigger] before[k]).session_id == row.session_id;
                            assert(before[k] == users@[k]);
                        }
                    }
                }
            }
            let UserRow { username, session_id, pass_hash, totp, is_admin } = row;
            if store.add_user_with_session(username, pass_hash, totp, is_admin, session_id).is_err() {
                return None;
            }
            proof {
                assert(users@.take(i as int + 1) == users@.take(i as int).push(users@[i as int]));
            }
            i += 1;
        }
        proof {
            assert(users@.take(i as int) == users@);
        }
        let mut j: usize = 0;
        while j < tokens.len()
            invariant
                store.wf(),
                j <= tokens@.len(),
                store.users@ == users@,
                store.tokens@ == tokens@.take(j as int),
            decreases tokens@.len() - j,
        {
            let t = clone_token(&tokens[j]);
            let ghost before = store.tokens@;
            proof {
                if tokens_unique(tokens@) {
                    assert(!has_token(before, t.token@)) by {
                        if has_token(before, t.token@) {
                            let k = choose|k: int| 0 <= k < before.len() && (#[trigger] before[k]).token@ == t.token@;
                            assert(before[k] == tokens@[k]);
                        }
                    }
                    assert(!has_token_id(before, t.id)) by {
                        if has_token_id(before, t.id) {
                            let k = choose|k: int| 0 <= k < before.len() && (#[trigger] before[k]).id == t.id;
                            assert(before[k] == tokens@[k]);
                        }
                    }
                    assert(t == tokens@[j as int]);
                }
            }
            if !store.restore_token(t) {
                return None;
            }
            proof {
                assert(tokens@.take(j as int + 1) == tokens@.take(j as int).push(tokens@[j as int]));
            }
            j += 1;
        }
        proof {
            assert(tokens@.take(j as int) == tokens@);
        }
        Some(store)
    }
}

/// Relies on `rand::random::<i64>`: any value may come back.
#[verifier::external_body]
fn random_session_id() -> i64 {
    rand::random::<i64>()
}

/// Some token row holds the text `t`.
pub open spec fn has_token(rows: Seq<Token>, t: Seq<char>) -> bool {
    exists|i: int| 0 <= i < rows.len() && (#[trigger] rows[i]).token@ == t
}

/// The index of the token row holding `t` (meaningful where `has_token`).
pub open spec fn token_index(rows: Seq<Token>, t: Seq<char>) -> int {
    choose|i: int| 0 <= i < rows.len() && (#[trigger] rows[i]).token@ == t
}

/// Some token row holds the id `id`.
pub open spec fn has_token_id(rows: Seq<Token>, id: i64) -> bool {
    exists|i: int| 0 <= i < rows.len() && (#[trigger] rows[i]).id == id
}

/// The index of the token row holding `id` (meaningful where `has_token_id`).
pub open spec fn token_id_index(rows: Seq<Token>, id: i64) -> int {
    choose|i: int| 0 <= i < rows.len() && (#[trigger] rows[i]).id == id
}

/// A token row is expired at `now` when its expiry date lies before `now`.
pub open spec fn expired(t: Token, now: i64) -> bool {
    t.expire_date < now
}

/// The token rows still valid at `now`, in the same order.
pub open spec fn unexpired(rows: Seq<Token>, now: i64) -> Seq<Token> {
    rows.filter(|t: Token| !expired(t, now))
}

/// In rows with unique token texts, the row found for a text is the only one.
pub proof fn lemma_token_index(rows: Seq<Token>, i: int)
    requires
        tokens_unique(rows),
        0 <= i < rows.len(),
    ensures
        has_token(rows, rows[i].token@),
        token_index(rows, rows[i].token@) == i,
        has_token_id(rows, rows[i].id),
        token_id_index(rows, rows[i].id) == i,
{
    let t = rows[i].token@;
    assert(has_token(rows, t));
    let j = token_index(rows, t);
    assert(rows[j].token@ == t);
    assert(has_token_id(rows, rows[i].id));
    let k = token_id_index(rows, rows[i].id);
    assert(rows[k].id == rows[i].id);
}

/// A copy of a token row.
pub fn clone_token(t: &Token) -> (r: Token)
    ensures
        r == *t,
{
    Token {
        id: t.id,
        token: t.token.clone(),
        expire_date: t.expire_date,
        for_user: match &t.for_user {
            Some(u) => Some(u.clone()),
            None => None,
        },
    }
}

impl Store {
    proof fn lemma_tokens_remove(&self, i: int, rows: Seq<Token>)
        requires
            self.wf(),
            0 <= i < self.tokens@.len(),
            rows == self.tokens@.remove(i),
        ensures
            tokens_unique(rows),
            forall|k: int| 0 <= k < rows.len() ==> (#[trigger] rows[k]).id < self.next_token_id,
    {
        let old_rows = self.tokens@;
        assert forall|a: int, b: int|
            0 <= a < rows.len() && 0 <= b < rows.len() && (#[trigger] rows[a]).token@ == (
            #[trigger] rows[b]).token@ implies a == b by {
            let a0 = if a < i { a } else { a + 1 };
            let b0 = if b < i { b } else { b + 1 };
            assert(rows[a] == old_rows[a0]);
            assert(rows[b] == old_rows[b0]);
        }
        assert forall|a: int, b: int|
            0 <= a < rows.len() && 0 <= b < rows.len() && (#[trigger] rows[a]).id == (
            #[trigger] rows[b]).id implies a == b by {
            let a0 = if a < i { a } else { a + 1 };
            let b0 = if b < i { b } else { b + 1 };
            assert(rows[a] == old_rows[a0]);
            assert(rows[b] == old_rows[b0]);
        }
        assert forall|k: int| 0 <= k < rows.len() implies (#[trigger] rows[k]).id < self.next_token_id by {
            let k0 = if k < i { k } else { k + 1 };
            assert(rows[k] == old_rows[k0]);
        }
    }

    /// Index of the token row holding `token`, if any.
    fn find_token(&self, token: &String) -> (r: Option<usize>)
        requires
            self.wf(),
        ensures
            match r {
                Some(i) => i < self.tokens@.len() && self.tokens@[i as int].token@ == token@
                    && token_index(self.tokens@, token@) == i,
                None => !has_token(self.tokens@, token@),
            },
    {
        let mut i: usize = 0;
        while i < self.tokens.len()
            invariant
                self.wf(),
                i <= self.tokens@.len(),
                forall|k: int| 0 <= k < i ==> (#[trigger] self.tokens@[k]).token@ != token@,
            decreases self.tokens@.len() - i,
        {
            if self.tokens[i].token == *token {
                proof {
                    lemma_token_index(self.tokens@, i as int);
                }
                return Some(i);
            }
            i += 1;
        }
        None
    }

    /// Index of the token row holding `id`, if any.
    fn find_token_id(&self, id: i64) -> (r: Option<usize>)
        requires
            self.wf(),
        ensures
            match r {
                Some(i) => i < self.tokens@.len() && self.tokens@[i as int].id == id && token_id_index(
                    self.tokens@,
                    id,
                ) == i,
                None => !has_token_id(self.tokens@, id),
            },
    {
        let mut i: usize = 0;
        while i < self.tokens.len()
            invariant
                self.wf(),
                i <= self.tokens@.len(),
                forall|k: int| 0 <= k < i ==> (#[trigger] self.tokens@[k]).id != id,
            decreases self.tokens@.len() - i,
        {
            if self.tokens[i].id == id {
                proof {
                    lemma_token_index(self.tokens@, i as int);
                }
                return Some(i);
            }
            i += 1;
        }
        None
    }

    /// An id is left to hand out to a new token row.
    pub closed spec fn ids_left(&self) -> bool {
        self.next_token_id < i64::MAX
    }

    /// Inserts a token row under a fresh id and returns that id. A token
    /// text already in use, or ids run out, is refused with `ExecError`.
    pub fn insert_token(&mut self, token: String, expire_date: i64, for_user: Option<String>) -> (r: Result<
        i64,
        DBError,
    >)
        requires
            old(self).wf(),
        ensures
            final(self).wf(),
            final(self).user_rows() == old(self).user_rows(),
            r is Ok <==> !has_token(old(self).token_rows(), token@) && old(self).ids_left(),
            r is Err ==> r->Err_0 is ExecError && final(self).token_rows() == old(self).token_rows(),
            r matches Ok(id) ==> !has_token_id(old(self).token_rows(), id) && final(self).token_rows()
                == old(self).token_rows().push(Token { id, token, expire_date, for_user }),
    {
        if self.find_token(&token).is_some() {
            return Err(DBError::ExecError("Failed to create token: token already in use".to_string()));
        }
        if self.next_token_id == i64::MAX {
            return Err(DBError::ExecError("Failed to create token: no id left".to_string()));
        }
        let id = self.next_token_id;
        let ghost old_rows = self.tokens@;
        self.tokens.push(Token { id, token, expire_date, for_user });
        self.next_token_id = id + 1;
        proof {
            assert forall|a: int, b: int|
                0 <= a < self.tokens@.len() && 0 <= b < self.tokens@.len() && (
                #[trigger] self.tokens@[a]).id == (#[trigger] self.tokens@[b]).id implies a == b by {
                if a < old_rows.len() {
                    assert(self.tokens@[a] == old_rows[a]);
                }
                if b < old_rows.len() {
                    assert(self.tokens@[b] == old_rows[b]);
                }
            }
            assert forall|a: int, b: int|
                0 <= a < self.tokens@.len() && 0 <= b < self.tokens@.len() && (
                #[trigger] self.tokens@[a]).token@ == (#[trigger] self.tokens@[b]).token@ implies a
                == b by {
                if a < old_rows.len() {
                    assert(self.tokens@[a] == old_rows[a]);
                }
                if b < old_rows.len() {
                    assert(self.tokens@[b] == old_rows[b]);
                }
            }
            assert forall|k: int| 0 <= k < self.tokens@.len() implies (#[trigger] self.tokens@[k]).id
                < self.next_token_id by {
                if k < old_rows.len() {
                    assert(self.tokens@[k] == old_rows[k]);
                }
            }
        }
        Ok(id)
    }

    /// The token row holding `token`, if any.
    pub fn get_token(&self, token: &String) -> (r: Option<Token>)
        requires
            self.wf(),
        ensures
            r is Some <==> has_token(self.token_rows(), token@),
            r matches Some(t) ==> t == self.token_rows()[token_index(self.token_rows(), token@)],
    {
        match self.find_token(token) {
            Some(i) => Some(clone_token(&self.tokens[i])),
            None => None,
        }
    }

    /// All token rows, in insertion order.
    pub fn get_all_tokens(&self) -> (r: Vec<Token>)
        ensures
            r@ == self.token_rows(),
    {
        let mut out: Vec<Token> = Vec::new();
        let mut i: usize = 0;
        while i < self.tokens.len()
            invariant
                i <= self.tokens@.len(),
                out@ == self.tokens@.take(i as int),
            decreases self.tokens@.len() - i,
        {
            out.push(clone_token(&self.tokens[i]));
            proof {
                assert(self.tokens@.take(i as int + 1) == self.tokens@.take(i as int).push(self.tokens@[i as int]));
            }
            i += 1;
        }
        proof {
            assert(self.tokens@.take(i as int) == self.tokens@);
        }
        out
    }

    /// Deletes the token row holding `token`, if any.
    pub fn delete_token(&mut self, token: &String)
        requires
            old(self).wf(),
        ensures
            final(self).wf(),
            final(self).user_rows() == old(self).user_rows(),
            !has_token(final(self).token_rows(), token@),
            has_token(old(self).token_rows(), token@) ==> final(self).token_rows() == old(self).token_rows().remove(
                token_index(old(self).token_rows(), token@),
            ),
            !has_token(old(self).token_rows(), token@) ==> final(self).token_rows() == old(self).token_rows(),
    {
        if let Some(i) = self.find_token(token) {
            proof {
                self.lemma_tokens_remove(i as int, self.tokens@.remove(i as int));
            }
            let ghost old_rows = self.tokens@;
            self.tokens.remove(i);
            proof {
                assert forall|k: int| 0 <= k < self.tokens@.len() implies (#[trigger] self.tokens@[k]).token@
                    != token@ by {
                    let k0 = if k < i { k } else { k + 1 };
                    assert(self.tokens@[k] == old_rows[k0]);
                }
            }
        }
    }

    /// Deletes the token row holding `id`, if any.
    pub fn delete_token_by_id(&mut self, id: i64)
        requires
            old(self).wf(),
        ensures
            final(self).wf(),
            final(self).user_rows() == old(self).user_rows(),
            !has_token_id(final(self).token_rows(), id),
            has_token_id(old(self).token_rows(), id) ==> final(self).token_rows() == old(
                self,
            ).token_rows().remove(token_id_index(old(self).token_rows(), id)),
            !has_token_id(old(self).token_rows(), id) ==> final(self).token_rows() == old(self).token_rows(),
    {
        if let Some(i) = self.find_token_id(id) {
            proof {
                self.lemma_tokens_remove(i as int, self.tokens@.remove(i as int));
            }
            let ghost old_rows = self.tokens@;
            self.tokens.remove(i);
            proof {
                assert forall|k: int| 0 <= k < self.tokens@.len() implies (#[trigger] self.tokens@[k]).id
                    != id by {
                    let k0 = if k < i { k } else { k + 1 };
                    assert(self.tokens@[k] == old_rows[k0]);
                }
            }
        }
    }

    /// Deletes every token row that is expired at the current time; a clock
    /// failure leaves the rows as they are.
    pub fn remove_expired_tokens(&mut self) -> (r: Result<(), DBError>)
        requires
            old(self).wf(),
        ensures
            final(self).wf(),
            final(self).user_rows() == old(self).user_rows(),
            r is Err ==> r->Err_0 is TimeFailure && final(self).token_rows() == old(self).token_rows(),
            r is Ok ==> exists|now: i64| final(self).token_rows() == #[trigger] unexpired(old(self).token_rows(), now),
    {
        let now = crate::clock::now()?;
        self.remove_expired_tokens_at(now as i64);
        Ok(())
    }

    /// Deletes every token row that is expired at `now`; the others stay,
    /// in the same order.
    pub fn remove_expired_tokens_at(&mut self, now: i64)
        requires
            old(self).wf(),
        ensures
            final(self).wf(),
            final(self).user_rows() == old(self).user_rows(),
            final(self).token_rows() == unexpired(old(self).token_rows(), now),
    {
        let mut kept: Vec<Token> = Vec::new();
        let mut i: usize = 0;
        let ghost pred = |t: Token| !expired(t, now);
        let ghost mut idx: Seq<int> = Seq::empty();
        while i < self.tokens.len()
            invariant
                self.wf(),
                i <= self.tokens@.len(),
                kept@ == self.tokens@.take(i as int).filter(pred),
                pred == (|t: Token| !expired(t, now)),
                idx.len() == kept@.len(),
                forall|k: int| 0 <= k < idx.len() ==> 0 <= #[trigger] idx[k] < i,
                forall|k: int| 0 <= k < idx.len() ==> kept@[k] == self.tokens@[#[trigger] idx[k]],
                forall|a: int, b: int| 0 <= a < b < idx.len() ==> #[trigger] idx[a] < #[trigger] idx[b],
            decreases self.tokens@.len() - i,
        {
            let ghost before = kept@;
            proof {
                let t = self.tokens@.take(i as int + 1);
                assert(t.drop_last() == self.tokens@.take(i as int));
                assert(t.last() == self.tokens@[i as int]);
                reveal(Seq::filter);
                assert(t.filter(pred) == (if pred(t.last()) {
                    before.push(t.last())
                } else {
                    before
                }));
            }
            if self.tokens[i].expire_date >= now {
                kept.push(clone_token(&self.tokens[i]));
                proof {
                    idx = idx.push(i as int);
                }
            }
            i += 1;
        }
        proof {
            assert(self.tokens@.take(i as int) == self.tokens@);
            let old_rows = self.tokens@;
            assert forall|a: int, b: int|
                0 <= a < kept@.len() && 0 <= b < kept@.len() && (#[trigger] kept@[a]).token@ == (
                #[trigger] kept@[b]).token@ implies a == b by {
                assert(kept@[a] == old_rows[idx[a]]);
                assert(kept@[b] == old_rows[idx[b]]);
                if a < b {
                    assert(idx[a] < idx[b]);
                } else if b < a {
                    assert(idx[b] < idx[a]);
                }
            }
            assert forall|a: int, b: int|
                0 <= a < kept@.len() && 0 <= b < kept@.len() && (#[trigger] kept@[a]).id == (
                #[trigger] kept@[b]).id implies a == b by {
                assert(kept@[a] == old_rows[idx[a]]);
                assert(kept@[b] == old_rows[idx[b]]);
                if a < b {
                    assert(idx[a] < idx[b]);
                } else if b < a {
                    assert(idx[b] < idx[a]);
                }
            }
            assert forall|k: int| 0 <= k < kept@.len() implies (#[trigger] kept@[k]).id < self.next_token_id by {
                assert(kept@[k] == old_rows[idx[k]]);
            }
        }
        self.tokens = kept;
    }
}

/// Rotating the session id of the account that `userid` designates, to any
/// other value, makes every userid with the same username and old session id
/// stop resolving, while the account itself stays.
pub proof fn lemma_rotation_revokes(rows: Seq<UserRow>, userid: Seq<char>, s: i64, cookie: Seq<char>)
    requires
        users_unique(rows),
        session_user(rows, userid) is Some,
        userid_session(userid) != Some(s),
        userid_name(cookie) == userid_name(userid),
        userid_session(cookie) == userid_session(userid),
    ensures
        ({
            let i = user_index(rows, userid_name(userid));
            &&& session_user(rows.update(i, with_session(rows[i], s)), cookie) is None
            &&& has_user(rows.update(i, with_session(rows[i], s)), userid_name(userid))
        }),
{
    let n = userid_name(userid);
    let sid = userid_session(userid)->Some_0;
    let i = user_index(rows, n);
    let new_rows = rows.update(i, with_session(rows[i], s));
    let j = choose|j: int| 0 <= j < rows.len() && (#[trigger] rows[j]).username@ == n && rows[j].session_id == sid;
    lemma_user_index(rows, j);
    assert(new_rows[i].username@ == n);
    assert forall|k: int| 0 <= k < new_rows.len() && (#[trigger] new_rows[k]).username@ == n implies new_rows[k].session_id
        != sid by {
        if k != i {
            assert(new_rows[k] == rows[k]);
        }
    }
}

/// A consumed token is gone: once the row of token `t` is removed from rows
/// with unique token texts, no row holds `t`, so a second use finds nothing.
pub proof fn lemma_consumed_once(rows: Seq<Token>, t: Seq<char>)
    requires
        tokens_unique(rows),
        has_token(rows, t),
    ensures
        !has_token(rows.remove(token_index(rows, t)), t),
{
    let i = token_index(rows, t);
    let after = rows.remove(i);
    assert forall|k: int| 0 <= k < after.len() implies (#[trigger] after[k]).token@ != t by {
        let k0 = if k < i { k } else { k + 1 };
        assert(after[k] == rows[k0]);
    }
}

/// After a purge at `now`, no token expired at `now` remains, and every
/// token not expired at `now` does.
pub proof fn lemma_purge_complete(rows: Seq<Token>, now: i64)
    ensures
        forall|k: int| 0 <= k < unexpired(rows, now).len() ==> !expired(#[trigger] unexpired(rows, now)[k], now),
        forall|k: int| 0 <= k < rows.len() && !expired(rows[k], now) ==> unexpired(rows, now).contains(
            #[trigger] rows[k],
        ),
{
    let pred = |t: Token| !expired(t, now);
    broadcast use vstd::seq_lib::group_filter_ensures;
    assert forall|k: int| 0 <= k < rows.len() && !expired(rows[k], now) implies unexpired(rows, now).contains(
        #[trigger] rows[k],
    ) by {
        broadcast use vstd::seq_lib::group_filter_ensures;
        assert(rows.contains(rows[k]));
        assert(pred(rows[k]));
    }
}

} // verus!
