//! The append-only login audit trail: one timestamped row per login. It is
//! advisory — nothing in the session machinery depends on it — but the
//! recency query it answers is exact.

use vstd::prelude::*;

use crate::errors::CustomError;
use crate::user_token::ONE_WEEK;

verus! {

/// A recorded login: who, and when (epoch seconds).
pub struct LoginHistory {
    pub id: i32,
    pub user_id: i32,
    pub login_timestamp: i64,
}

/// Ghost image of a recorded login.
pub ghost struct LoginHistoryV {
    pub id: int,
    pub user_id: int,
    pub login_timestamp: int,
}

impl View for LoginHistory {
    type V = LoginHistoryV;

    open spec fn view(&self) -> LoginHistoryV {
        LoginHistoryV {
            id: self.id as int,
            user_id: self.user_id as int,
            login_timestamp: self.login_timestamp as int,
        }
    }
}

/// A row ready to be appended; the id is assigned by the store.
pub struct InsertableLoginHistory {
    pub user_id: i32,
    pub login_timestamp: i64,
}

/// The audit table.
pub struct LoginHistoryStore {
    rows: Vec<LoginHistory>,
}

impl View for LoginHistoryStore {
    type V = Seq<LoginHistoryV>;

    closed spec fn view(&self) -> Seq<LoginHistoryV> {
        self.rows@.map_values(|r: LoginHistory| r@)
    }
}

impl LoginHistoryStore {
    pub fn new() -> (r: LoginHistoryStore)
        ensures
            r@.len() == 0,
    {
        LoginHistoryStore { rows: Vec::new() }
    }
}

/// Whether `s` records a login of `uid` strictly within the week before
/// `now`.
pub open spec fn logged_in_within_week(s: Seq<LoginHistoryV>, uid: int, now: int) -> bool {
    exists|i: int|
        0 <= i < s.len() && (#[trigger] s[i]).user_id == uid && s[i].login_timestamp > now
            - ONE_WEEK
}

impl LoginHistory {
    /// The row recording that `u_id` logged in at `now`.
    pub fn create(u_id: &i32, now: i64) -> (r: InsertableLoginHistory)
        ensures
            r.user_id == *u_id,
            r.login_timestamp == now,
    {
        InsertableLoginHistory { user_id: *u_id, login_timestamp: now }
    }

    /// Append the record; the result is how many rows were written. A
    /// failure to write history must never fail the login that caused it,
    /// so the only refusal is a full table.
    pub fn save_login_history(
        insert_record: InsertableLoginHistory,
        store: &mut LoginHistoryStore,
    ) -> (r: Result<usize, CustomError>)
        ensures
            r matches Ok(count) ==> count == 1 && final(store)@.len() == old(store)@.len() + 1
                && final(store)@.last().user_id == insert_record.user_id as int
                && final(store)@.last().login_timestamp == insert_record.login_timestamp as int
                && forall|i: int| 0 <= i < old(store)@.len() ==> final(store)@[i] == old(store)@[i],
            r is Err ==> final(store)@ == old(store)@,
    {
        if store.rows.len() >= (i32::MAX as usize) {
            return Err(CustomError::new(500, String::from_str("History table is full")));
        }
        let row = LoginHistory {
            id: (store.rows.len() as i32),
            user_id: insert_record.user_id,
            login_timestamp: insert_record.login_timestamp,
        };
        let ghost pre = store@;
        store.rows.push(row);
        proof {
            assert(store@ =~= pre.push(row@));
        }
        Ok(1)
    }

    /// Whether the user has a recorded login strictly within the week
    /// before `now`.
    pub fn user_is_already_logged_in(u_id: &i32, store: &LoginHistoryStore, now: i64) -> (r: bool)
        requires
            now >= i64::MIN + ONE_WEEK,
        ensures
            r == logged_in_within_week(store@, *u_id as int, now as int),
    {
        let cutoff = now - ONE_WEEK;
        let n = store.rows.len();
        for i in 0..n
            invariant
                n == store.rows@.len(),
                store@.len() == store.rows@.len(),
                cutoff == now - ONE_WEEK,
                forall|j: int|
                    0 <= j < i ==> !((#[trigger] store@[j]).user_id == *u_id as int
                        && store@[j].login_timestamp > now - ONE_WEEK),
                forall|j: int| 0 <= j < store@.len() ==> store@[j] == store.rows@[j]@,
        {
            if store.rows[i].user_id == *u_id && store.rows[i].login_timestamp > cutoff {
                assert(store@[i as int].user_id == *u_id as int && store@[i as int].login_timestamp
                    > now - ONE_WEEK);
                return true;
            }
        }
        false
    }
}

} // verus!
