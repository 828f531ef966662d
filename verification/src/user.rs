//! Accounts and the credential store.
//!
//! The store owns the account rows: unique id, unique username, bcrypt
//! password hash, and the current session identifier (empty means "no
//! active session"). It is the single place a token's session identifier is
//! checked against, which is what lets the server invalidate an otherwise
//! self-contained token.

use vstd::prelude::*;

use crate::errors::CustomError;

verus! {

/// An account row.
#[derive(Debug)]
pub struct User {
    pub id: i32,
    pub username: String,
    pub password: String,
    pub login_session: String,
}

/// Ghost image of an account row.
pub ghost struct UserV {
    pub id: int,
    pub username: Seq<char>,
    pub password: Seq<char>,
    pub login_session: Seq<char>,
}

impl View for User {
    type V = UserV;

    open spec fn view(&self) -> UserV {
        UserV {
            id: self.id as int,
            username: self.username@,
            password: self.password@,
            login_session: self.login_session@,
        }
    }
}

impl Clone for User {
    fn clone(&self) -> (r: User)
        ensures
            r@ == self@,
    {
        User {
            id: self.id,
            username: self.username.clone(),
            password: self.password.clone(),
            login_session: self.login_session.clone(),
        }
    }
}

/// Credentials as a client submits them: plaintext password, never stored.
pub struct ReceivedUser {
    pub username: String,
    pub password: String,
}

/// Whether some row of `s` carries `name` as its username.
pub open spec fn has_username(s: Seq<UserV>, name: Seq<char>) -> bool {
    exists|i: int| 0 <= i < s.len() && #[trigger] s[i].username == name
}

/// The index of the row carrying `name` (meaningful under `has_username`
/// and uniqueness).
pub open spec fn idx_of_username(s: Seq<UserV>, name: Seq<char>) -> int {
    choose|i: int| 0 <= i < s.len() && #[trigger] s[i].username == name
}

/// Whether some row of `s` carries `id`.
pub open spec fn has_id(s: Seq<UserV>, id: int) -> bool {
    exists|i: int| 0 <= i < s.len() && #[trigger] s[i].id == id
}

/// The index of the row carrying `id` (meaningful under `has_id` and
/// uniqueness).
pub open spec fn idx_of_id(s: Seq<UserV>, id: int) -> int {
    choose|i: int| 0 <= i < s.len() && #[trigger] s[i].id == id
}

/// The store's row invariant: usernames and ids are pairwise distinct.
pub open spec fn store_wf(s: Seq<UserV>) -> bool {
    forall|i: int, j: int|
        0 <= i < j < s.len() ==> (#[trigger] s[i]).username != (#[trigger] s[j]).username && s[i].id
            != s[j].id
}

/// The store after the row carrying `id` (if any) has its session
/// identifier replaced by `sid`; unchanged when no row carries `id`.
pub open spec fn spec_set_session(s: Seq<UserV>, id: int, sid: Seq<char>) -> Seq<UserV> {
    if has_id(s, id) {
        s.update(
            idx_of_id(s, id),
            UserV { login_session: sid, ..s[idx_of_id(s, id)] },
        )
    } else {
        s
    }
}

/// Rows of a well-formed store are told apart by any one of their ids.
pub proof fn lemma_unique_id(s: Seq<UserV>, i: int, k: int)
    requires
        store_wf(s),
        0 <= i < s.len(),
        0 <= k < s.len(),
        s[i].id == s[k].id,
    ensures
        i == k,
{
    if i < k {
        assert(s[i].id != s[k].id);
    }
    if k < i {
        assert(s[k].id != s[i].id);
    }
}

/// Rows of a well-formed store are told apart by any one of their usernames.
pub proof fn lemma_unique_username(s: Seq<UserV>, i: int, k: int)
    requires
        store_wf(s),
        0 <= i < s.len(),
        0 <= k < s.len(),
        s[i].username == s[k].username,
    ensures
        i == k,
{
    if i < k {
        assert(s[i].username != s[k].username);
    }
    if k < i {
        assert(s[k].username != s[i].username);
    }
}

/// Replacing a session identifier moves no row and changes no username, id
/// or password, so well-formedness survives it.
pub proof fn lemma_set_session_preserves_wf(s: Seq<UserV>, id: int, sid: Seq<char>)
    requires
        store_wf(s),
    ensures
        store_wf(spec_set_session(s, id, sid)),
        spec_set_session(s, id, sid).len() == s.len(),
        forall|j: int| 0 <= j < s.len() ==> (#[trigger] spec_set_session(s, id, sid)[j]).username
            == s[j].username && spec_set_session(s, id, sid)[j].id == s[j].id
            && spec_set_session(s, id, sid)[j].password == s[j].password,
{
    let t = spec_set_session(s, id, sid);
    assert forall|j: int| 0 <= j < s.len() implies (#[trigger] t[j]).username == s[j].username
        && t[j].id == s[j].id && t[j].password == s[j].password by {
        if has_id(s, id) {
            let k = idx_of_id(s, id);
            if j != k {
                assert(t[j] == s[j]);
            }
        }
    };
    assert forall|p: int, q: int| 0 <= p < q < t.len() implies (#[trigger] t[p]).username != (
    #[trigger] t[q]).username && t[p].id != t[q].id by {
        assert(s[p].username != s[q].username && s[p].id != s[q].id);
    };
}

/// The credential store: an in-memory table of account rows. Ids are handed
/// out by a monotone counter, so a deleted account's id is never reissued.
pub struct CredentialStore {
    users: Vec<User>,
    next_id: i32,
}

impl View for CredentialStore {
    type V = Seq<UserV>;

    closed spec fn view(&self) -> Seq<UserV> {
        self.users@.map_values(|u: User| u@)
    }
}

impl CredentialStore {
    /// Every id already handed out is below the counter.
    pub closed spec fn ids_below_next(&self) -> bool {
        self.next_id >= 0 && forall|i: int|
            0 <= i < self@.len() ==> 0 <= (#[trigger] self@[i]).id < self.next_id as int
    }

    /// Well-formedness: distinct rows and a counter above every id.
    pub open spec fn wf(&self) -> bool {
        store_wf(self@) && self.ids_below_next()
    }

    /// Whether the id counter is exhausted (no further account can be made).
    pub closed spec fn at_capacity(&self) -> bool {
        self.next_id == i32::MAX
    }

    pub fn new() -> (r: CredentialStore)
        ensures
            r.wf(),
            r@.len() == 0,
            !r.at_capacity(),
    {
        CredentialStore { users: Vec::new(), next_id: 0 }
    }

    /// Whether an account with this exact (case-sensitive) username exists.
    pub fn account_exists(&self, name: &str) -> (r: bool)
        ensures
            r == has_username(self@, name@),
    {
        let n = self.users.len();
        for i in 0..n
            invariant
                n == self.users.len(),
                self@.len() == self.users@.len(),
                forall|j: int| 0 <= j < i ==> (#[trigger] self@[j]).username != name@,
                forall|j: int| 0 <= j < self@.len() ==> self@[j] == self.users@[j]@,
        {
            if crate::text::str_eq(self.users[i].username.as_str(), name) {
                assert(self@[i as int].username == name@);
                return true;
            }
        }
        false
    }

    /// The account with this username, if any.
    pub fn find_account_by_username(&self, name: &str) -> (r: Option<User>)
        requires
            self.wf(),
        ensures
            match r {
                Some(u) => has_username(self@, name@) && u@ == self@[idx_of_username(self@, name@)]
                    && u@.username == name@,
                None => !has_username(self@, name@),
            },
    {
        let n = self.users.len();
        for i in 0..n
            invariant
                self.wf(),
                n == self.users.len(),
                self@.len() == self.users@.len(),
                forall|j: int| 0 <= j < i ==> (#[trigger] self@[j]).username != name@,
                forall|j: int| 0 <= j < self@.len() ==> self@[j] == self.users@[j]@,
        {
            if crate::text::str_eq(self.users[i].username.as_str(), name) {
                let u = self.users[i].clone();
                proof {
                    assert(self@[i as int].username == name@);
                    let k = idx_of_username(self@, name@);
                    assert(0 <= k < self@.len() && self@[k].username == name@);
                    lemma_unique_username(self@, i as int, k);
                }
                return Some(u);
            }
        }
        None
    }

    /// The account with this id, if any.
    pub fn find_account_by_id(&self, account_id: i32) -> (r: Option<User>)
        requires
            self.wf(),
        ensures
            match r {
                Some(u) => has_id(self@, account_id as int) && u@ == self@[idx_of_id(
                    self@,
                    account_id as int,
                )] && u@.id == account_id as int,
                None => !has_id(self@, account_id as int),
            },
    {
        let n = self.users.len();
        for i in 0..n
            invariant
                self.wf(),
                n == self.users.len(),
                self@.len() == self.users@.len(),
                forall|j: int| 0 <= j < i ==> (#[trigger] self@[j]).id != account_id as int,
                forall|j: int| 0 <= j < self@.len() ==> self@[j] == self.users@[j]@,
        {
            if self.users[i].id == account_id {
                let u = self.users[i].clone();
                proof {
                    assert(self@[i as int].id == account_id as int);
                    let k = idx_of_id(self@, account_id as int);
                    assert(0 <= k < self@.len() && self@[k].id == account_id as int);
                    lemma_unique_id(self@, i as int, k);
                }
                return Some(u);
            }
        }
        None
    }

    /// Create an account row with a fresh id, no session, and the given
    /// (already hashed) password. Refused with 409 when the username is
    /// taken, with 500 when the id counter is exhausted.
    pub fn insert_account(&mut self, username: &str, password_hash: &str) -> (r: Result<
        User,
        CustomError,
    >)
        requires
            old(self).wf(),
        ensures
            final(self).wf(),
            match r {
                Ok(u) => !has_username(old(self)@, username@) && !old(self).at_capacity()
                    && final(self)@ == old(self)@.push(u@) && u@.username == username@
                    && u@.password == password_hash@ && u@.login_session == Seq::<char>::empty(),
                Err(e) => final(self)@ == old(self)@ && (has_username(old(self)@, username@)
                    || old(self).at_capacity()) && (e@.error_status_code == 409 <==> has_username(
                    old(self)@,
                    username@,
                )) && (!has_username(old(self)@, username@) ==> e@.error_status_code == 500),
            },
    {
        if self.account_exists(username) {
            return Err(CustomError::new(409, String::from_str("Username is already taken")));
        }
        if self.next_id == i32::MAX {
            return Err(CustomError::new(500, String::from_str("Account table is full")));
        }
        let u = User {
            id: self.next_id,
            username: username.to_owned(),
            password: password_hash.to_owned(),
            login_session: String::new(),
        };
        let ghost pre = self@;
        let ret = u.clone();
        self.users.push(u);
        self.next_id = self.next_id + 1;
        proof {
            assert(self@ =~= pre.push(ret@));
            assert forall|p: int, q: int| 0 <= p < q < self@.len() implies (
            #[trigger] self@[p]).username != (#[trigger] self@[q]).username && self@[p].id
                != self@[q].id by {
                if q < pre.len() {
                    assert(pre[p].username != pre[q].username && pre[p].id != pre[q].id);
                } else {
                    assert(self@[q] == ret@);
                    assert(pre[p].username != username@) by {
                        if pre[p].username == username@ {
                            assert(has_username(pre, username@));
                        }
                    };
                    assert(0 <= pre[p].id < old(self).next_id as int);
                }
            };
            assert forall|p: int| 0 <= p < self@.len() implies 0 <= (#[trigger] self@[p]).id
                < self.next_id as int by {
                if p < pre.len() {
                    assert(0 <= pre[p].id < old(self).next_id as int);
                } else {
                    assert(self@[p] == ret@);
                }
            };
        }
        Ok(ret)
    }

    /// Replace the username and password hash of the account carrying
    /// `account_id`, keeping its id and session identifier. The caller must
    /// have ruled out that another account already holds `username`.
    /// Reports whether such an account exists.
    pub fn update_account(&mut self, account_id: i32, username: &str, password_hash: &str) -> (r:
        bool)
        requires
            old(self).wf(),
            forall|i: int|
                0 <= i < old(self)@.len() && (#[trigger] old(self)@[i]).username == username@
                    ==> old(self)@[i].id == account_id as int,
        ensures
            final(self).wf(),
            r == has_id(old(self)@, account_id as int),
            !r ==> final(self)@ == old(self)@,
            r ==> final(self)@ == old(self)@.update(
                idx_of_id(old(self)@, account_id as int),
                UserV {
                    id: account_id as int,
                    username: username@,
                    password: password_hash@,
                    login_session: old(self)@[idx_of_id(
                        old(self)@,
                        account_id as int,
                    )].login_session,
                },
            ),
    {
        let n = self.users.len();
        for i in 0..n
            invariant
                self.wf(),
                self == old(self),
                n == self.users.len(),
                self@.len() == self.users@.len(),
                forall|j: int|
                    0 <= j < old(self)@.len() && (#[trigger] old(self)@[j]).username == username@
                        ==> old(self)@[j].id == account_id as int,
                forall|j: int| 0 <= j < i ==> (#[trigger] self@[j]).id != account_id as int,
                forall|j: int| 0 <= j < self@.len() ==> self@[j] == self.users@[j]@,
        {
            if self.users[i].id == account_id {
                proof {
                    assert(self@[i as int].id == account_id as int);
                    assert(has_id(old(self)@, account_id as int));
                    let k = idx_of_id(old(self)@, account_id as int);
                    assert(0 <= k < old(self)@.len() && old(self)@[k].id == account_id as int);
                    lemma_unique_id(old(self)@, i as int, k);
                }
                let mut u = self.users.remove(i);
                u.username = username.to_owned();
                u.password = password_hash.to_owned();
                self.users.insert(i, u);
                proof {
                    let k = i as int;
                    let ghost pre = old(self)@;
                    assert(self@ =~= pre.update(
                        k,
                        UserV {
                            id: account_id as int,
                            username: username@,
                            password: password_hash@,
                            login_session: pre[k].login_session,
                        },
                    ));
                    assert forall|p: int, q: int| 0 <= p < q < self@.len() implies (
                    #[trigger] self@[p]).username != (#[trigger] self@[q]).username && self@[p].id
                        != self@[q].id by {
                        assert(pre[p].username != pre[q].username && pre[p].id != pre[q].id);
                        if p == k {
                            assert(self@[q] == pre[q]);
                            if pre[q].username == username@ {
                                assert(0 <= q < old(self)@.len() && (old(self)@[q]).username
                                    == username@ ==> (old(self)@[q]).id == account_id as int);
                                assert(pre[q].id == account_id as int);
                                lemma_unique_id(pre, q, k);
                            }
                        } else if q == k {
                            assert(self@[p] == pre[p]);
                            if pre[p].username == username@ {
                                assert(0 <= p < old(self)@.len() && (old(self)@[p]).username
                                    == username@ ==> (old(self)@[p]).id == account_id as int);
                                assert(pre[p].id == account_id as int);
                                lemma_unique_id(pre, p, k);
                            }
                        }
                    };
                    assert forall|p: int| 0 <= p < self@.len() implies 0 <= (
                    #[trigger] self@[p]).id < self.next_id as int by {
                        assert(0 <= pre[p].id < old(self).next_id as int);
                        if p != k {
                            assert(self@[p] == pre[p]);
                        }
                    };
                }
                return true;
            }
        }
        false
    }

    /// Remove and return the account carrying `account_id`, if any.
    pub fn remove_account(&mut self, account_id: i32) -> (r: Option<User>)
        requires
            old(self).wf(),
        ensures
            final(self).wf(),
            match r {
                Some(u) => has_id(old(self)@, account_id as int) && u@ == old(self)@[idx_of_id(
                    old(self)@,
                    account_id as int,
                )] && final(self)@ == old(self)@.remove(idx_of_id(old(self)@, account_id as int)),
                None => !has_id(old(self)@, account_id as int) && final(self)@ == old(self)@,
            },
    {
        let n = self.users.len();
        for i in 0..n
            invariant
                self.wf(),
                self == old(self),
                n == self.users.len(),
                self@.len() == self.users@.len(),
                forall|j: int| 0 <= j < i ==> (#[trigger] self@[j]).id != account_id as int,
                forall|j: int| 0 <= j < self@.len() ==> self@[j] == self.users@[j]@,
        {
            if self.users[i].id == account_id {
                proof {
                    assert(self@[i as int].id == account_id as int);
                    assert(has_id(old(self)@, account_id as int));
                    let k = idx_of_id(old(self)@, account_id as int);
                    assert(0 <= k < old(self)@.len() && old(self)@[k].id == account_id as int);
                    lemma_unique_id(old(self)@, i as int, k);
                }
                let u = self.users.remove(i);
                proof {
                    let k = i as int;
                    let ghost pre = old(self)@;
                    assert(self@ =~= pre.remove(k));
                    assert forall|p: int, q: int| 0 <= p < q < self@.len() implies (
                    #[trigger] self@[p]).username != (#[trigger] self@[q]).username && self@[p].id
                        != self@[q].id by {
                        let p0: int = if p < k {
                            p
                        } else {
                            p + 1
                        };
                        let q0: int = if q < k {
                            q
                        } else {
                            q + 1
                        };
                        assert(self@[p] == pre[p0] && self@[q] == pre[q0]);
                        assert(pre[p0].username != pre[q0].username && pre[p0].id != pre[q0].id);
                    };
                    assert forall|p: int| 0 <= p < self@.len() implies 0 <= (
                    #[trigger] self@[p]).id < self.next_id as int by {
                        let p0: int = if p < k {
                            p
                        } else {
                            p + 1
                        };
                        assert(self@[p] == pre[p0]);
                        assert(0 <= pre[p0].id < old(self).next_id as int);
                    };
                }
                return Some(u);
            }
        }
        None
    }

    /// Replace the session identifier of the account carrying `account_id`
    /// (an empty value clears it). Reports whether such an account exists.
    pub fn set_session_identifier(&mut self, account_id: i32, value: &str) -> (r: bool)
        requires
            old(self).wf(),
        ensures
            final(self).wf(),
            r == has_id(old(self)@, account_id as int),
            final(self)@ == spec_set_session(old(self)@, account_id as int, value@),
            final(self).at_capacity() == old(self).at_capacity(),
    {
        let n = self.users.len();
        for i in 0..n
            invariant
                self.wf(),
                self == old(self),
                n == self.users.len(),
                self@.len() == self.users@.len(),
                forall|j: int| 0 <= j < i ==> (#[trigger] self@[j]).id != account_id as int,
                forall|j: int| 0 <= j < self@.len() ==> self@[j] == self.users@[j]@,
        {
            if self.users[i].id == account_id {
                proof {
                    assert(self@[i as int].id == account_id as int);
                    assert(has_id(old(self)@, account_id as int));
                    let k = idx_of_id(old(self)@, account_id as int);
                    assert(0 <= k < old(self)@.len() && old(self)@[k].id == account_id as int);
                    lemma_unique_id(old(self)@, i as int, k);
                }
                let mut u = self.users.remove(i);
                u.login_session = value.to_owned();
                self.users.insert(i, u);
                proof {
                    assert(self@ =~= spec_set_session(old(self)@, account_id as int, value@));
                    lemma_set_session_preserves_wf(old(self)@, account_id as int, value@);
                    assert forall|p: int| 0 <= p < self@.len() implies 0 <= (
                    #[trigger] self@[p]).id < self.next_id as int by {
                        assert(self@[p].id == old(self)@[p].id);
                        assert(0 <= old(self)@[p].id < old(self).next_id as int);
                    };
                }
                return true;
            }
        }
        false
    }
}

} // verus!
