//! The per-account person records and their keyed create/read/update/delete
//! store. Every operation is scoped to the owning account: a record is only
//! visible to, and only mutable by, the account whose id it carries.

use vstd::prelude::*;

use crate::errors::CustomError;

verus! {

/// A person record owned by the account `user_id`.
#[derive(Debug)]
pub struct Person {
    pub id: i32,
    pub name: String,
    pub birthdate: i64,
    pub user_id: i32,
}

/// Ghost image of a person record.
pub ghost struct PersonV {
    pub id: int,
    pub name: Seq<char>,
    pub birthdate: int,
    pub user_id: int,
}

impl View for Person {
    type V = PersonV;

    open spec fn view(&self) -> PersonV {
        PersonV {
            id: self.id as int,
            name: self.name@,
            birthdate: self.birthdate as int,
            user_id: self.user_id as int,
        }
    }
}

impl Clone for Person {
    fn clone(&self) -> (r: Person)
        ensures
            r@ == self@,
    {
        Person {
            id: self.id,
            name: self.name.clone(),
            birthdate: self.birthdate,
            user_id: self.user_id,
        }
    }
}

/// A person as a client submits it; the owner is taken from the request's
/// authenticated identity, never from the payload.
pub struct ReceivedPerson {
    pub name: String,
    pub birthdate: i64,
}

/// A person row ready for insertion: the received fields plus the owner.
pub struct InsertablePerson {
    pub name: String,
    pub birthdate: i64,
    pub user_id: i32,
}

/// Whether some record of `s` carries `pid` and belongs to `uid`.
pub open spec fn has_person(s: Seq<PersonV>, pid: int, uid: int) -> bool {
    exists|i: int| 0 <= i < s.len() && (#[trigger] s[i]).id == pid && s[i].user_id == uid
}

/// The index of that record (meaningful under `has_person` and uniqueness).
pub open spec fn idx_of_person(s: Seq<PersonV>, pid: int, uid: int) -> int {
    choose|i: int| 0 <= i < s.len() && (#[trigger] s[i]).id == pid && s[i].user_id == uid
}

/// The records of `s` owned by `uid`, in store order.
pub open spec fn persons_of(s: Seq<PersonV>, uid: int) -> Seq<PersonV> {
    s.filter(|p: PersonV| p.user_id == uid)
}

/// The record invariant: pairwise distinct ids.
pub open spec fn persons_wf(s: Seq<PersonV>) -> bool {
    forall|i: int, j: int| 0 <= i < j < s.len() ==> (#[trigger] s[i]).id != (#[trigger] s[j]).id
}

/// Records of a well-formed table are told apart by their ids.
pub proof fn lemma_unique_person_id(s: Seq<PersonV>, i: int, k: int)
    requires
        persons_wf(s),
        0 <= i < s.len(),
        0 <= k < s.len(),
        s[i].id == s[k].id,
    ensures
        i == k,
{
    if i < k {
        assert(s[i].id != s[k].id);
    }
    if k < i {
        assert(s[k].id != s[i].id);
    }
}

/// Filtering a table keeps its ids pairwise distinct, and keeps only
/// elements of the original.
pub proof fn lemma_filter_keeps_distinct_ids(s: Seq<PersonV>, pred: spec_fn(PersonV) -> bool)
    requires
        persons_wf(s),
    ensures
        persons_wf(s.filter(pred)),
        forall|m: int|
            0 <= m < s.filter(pred).len() ==> exists|j: int|
                0 <= j < s.len() && s[j] == #[trigger] s.filter(pred)[m],
    decreases s.len(),
{
    reveal(Seq::filter);
    let f = s.filter(pred);
    if s.len() == 0 {
    } else {
        let dl = s.drop_last();
        assert(persons_wf(dl)) by {
            assert forall|p: int, q: int| 0 <= p < q < dl.len() implies (#[trigger] dl[p]).id != (
            #[trigger] dl[q]).id by {
                assert(dl[p] == s[p] && dl[q] == s[q]);
                assert(s[p].id != s[q].id);
            };
        };
        lemma_filter_keeps_distinct_ids(dl, pred);
        let fdl = dl.filter(pred);
        assert forall|m: int| 0 <= m < f.len() implies exists|j: int|
            0 <= j < s.len() && s[j] == #[trigger] f[m] by {
            if pred(s.last()) && m == f.len() - 1 {
                assert(s[s.len() - 1] == f[m]);
            } else {
                assert(f[m] == fdl[m]);
                let j0 = choose|j: int| 0 <= j < dl.len() && dl[j] == #[trigger] fdl[m];
                assert(s[j0] == f[m]);
            }
        };
        assert forall|p: int, q: int| 0 <= p < q < f.len() implies (#[trigger] f[p]).id != (
        #[trigger] f[q]).id by {
            if pred(s.last()) && q == f.len() - 1 {
                assert(f[p] == fdl[p]);
                let j0 = choose|j: int| 0 <= j < dl.len() && dl[j] == #[trigger] fdl[p];
                assert(s[j0] == f[p]);
                assert(s[s.len() - 1] == f[q]);
                assert(s[j0].id != s[s.len() - 1].id);
            } else {
                assert(f[p] == fdl[p] && f[q] == fdl[q]);
            }
        };
    }
}

/// The person table: an in-memory store of records with ids from a monotone
/// counter.
pub struct PersonStore {
    persons: Vec<Person>,
    next_id: i32,
}

impl View for PersonStore {
    type V = Seq<PersonV>;

    closed spec fn view(&self) -> Seq<PersonV> {
        self.persons@.map_values(|p: Person| p@)
    }
}

impl PersonStore {
    pub closed spec fn ids_below_next(&self) -> bool {
        self.next_id >= 0 && forall|i: int|
            0 <= i < self@.len() ==> 0 <= (#[trigger] self@[i]).id < self.next_id as int
    }

    pub open spec fn wf(&self) -> bool {
        persons_wf(self@) && self.ids_below_next()
    }

    pub fn new() -> (r: PersonStore)
        ensures
            r.wf(),
            r@.len() == 0,
    {
        PersonStore { persons: Vec::new(), next_id: 0 }
    }
}

impl Person {
    /// Every record owned by `uid`, in store order.
    pub fn find_all(uid: i32, store: &PersonStore) -> (r: Vec<Person>)
        ensures
            r@.map_values(|p: Person| p@) == persons_of(store@, uid as int),
    {
        broadcast use vstd::seq_lib::group_seq_lib_default;

        let mut out: Vec<Person> = Vec::new();
        let ghost pred = |p: PersonV| p.user_id == uid as int;
        let n = store.persons.len();
        proof {
            assert(store@.take(0) =~= Seq::<PersonV>::empty());
            reveal(Seq::filter);
        }
        for i in 0..n
            invariant
                n == store.persons@.len(),
                store@.len() == store.persons@.len(),
                pred == (|p: PersonV| p.user_id == uid as int),
                forall|j: int| 0 <= j < store@.len() ==> store@[j] == store.persons@[j]@,
                out@.map_values(|p: Person| p@) == store@.take(i as int).filter(pred),
        {
            proof {
                assert(store@.take(i + 1) =~= store@.take(i as int).push(store@[i as int]));
                store@.take(i as int).lemma_filter_push(store@[i as int], pred);
            }
            if store.persons[i].user_id == uid {
                let ghost pre = out@.map_values(|p: Person| p@);
                out.push(store.persons[i].clone());
                proof {
                    assert(out@.map_values(|p: Person| p@) =~= pre.push(store@[i as int]));
                }
            }
        }
        proof {
            assert(store@.take(n as int) =~= store@);
        }
        out
    }

    /// The record `person_id` if it exists and belongs to `uid`; otherwise
    /// the not-found error.
    pub fn find_by_id(uid: i32, person_id: i32, store: &PersonStore) -> (r: Result<
        Person,
        CustomError,
    >)
        requires
            store.wf(),
        ensures
            r is Ok <==> has_person(store@, person_id as int, uid as int),
            r matches Ok(p) ==> p@ == store@[idx_of_person(store@, person_id as int, uid as int)],
            r matches Err(e) ==> e@.error_status_code == 404,
    {
        let n = store.persons.len();
        for i in 0..n
            invariant
                store.wf(),
                n == store.persons@.len(),
                store@.len() == store.persons@.len(),
                forall|j: int| 0 <= j < store@.len() ==> store@[j] == store.persons@[j]@,
                forall|j: int|
                    0 <= j < i ==> !((#[trigger] store@[j]).id == person_id as int
                        && store@[j].user_id == uid as int),
        {
            if store.persons[i].id == person_id && store.persons[i].user_id == uid {
                proof {
                    assert(store@[i as int].id == person_id as int && store@[i as int].user_id
                        == uid as int);
                    let k = idx_of_person(store@, person_id as int, uid as int);
                    assert(0 <= k < store@.len() && store@[k].id == person_id as int);
                    lemma_unique_person_id(store@, i as int, k);
                }
                return Ok(store.persons[i].clone());
            }
        }
        Err(CustomError::new(404, String::from_str("Person not found")))
    }

    /// Store a new record for `uid` with a fresh id.
    pub fn create(uid: i32, received_person: &ReceivedPerson, store: &mut PersonStore) -> (r:
        Result<Person, CustomError>)
        requires
            old(store).wf(),
        ensures
            final(store).wf(),
            r matches Ok(p) ==> final(store)@ == old(store)@.push(p@) && p@.name
                == received_person.name@ && p@.birthdate == received_person.birthdate as int
                && p@.user_id == uid as int,
            r is Err ==> final(store)@ == old(store)@,
            r matches Err(e) ==> e@.error_status_code == 500,
    {
        if store.next_id == i32::MAX {
            return Err(CustomError::new(500, String::from_str("Person table is full")));
        }
        let insertable = InsertablePerson {
            name: received_person.name.clone(),
            birthdate: received_person.birthdate,
            user_id: uid,
        };
        let p = Person {
            id: store.next_id,
            name: insertable.name,
            birthdate: insertable.birthdate,
            user_id: insertable.user_id,
        };
        let ret = p.clone();
        let ghost pre = store@;
        store.persons.push(p);
        store.next_id = store.next_id + 1;
        proof {
            assert(store@ =~= pre.push(ret@));
            assert forall|p0: int, q0: int| 0 <= p0 < q0 < store@.len() implies (
            #[trigger] store@[p0]).id != (#[trigger] store@[q0]).id by {
                if q0 < pre.len() {
                    assert(pre[p0].id != pre[q0].id);
                } else {
                    assert(store@[q0] == ret@);
                    assert(0 <= pre[p0].id < old(store).next_id as int);
                }
            };
            assert forall|p0: int| 0 <= p0 < store@.len() implies 0 <= (#[trigger] store@[p0]).id
                < store.next_id as int by {
                if p0 < pre.len() {
                    assert(0 <= pre[p0].id < old(store).next_id as int);
                } else {
                    assert(store@[p0] == ret@);
                }
            };
        }
        Ok(ret)
    }

    /// Replace the name and birthdate of the record `updated_person.id`,
    /// provided it belongs to `uid`; the id and owner are kept.
    pub fn update(uid: i32, updated_person: &Person, store: &mut PersonStore) -> (r: Result<
        Person,
        CustomError,
    >)
        requires
            old(store).wf(),
        ensures
            final(store).wf(),
            r is Ok <==> has_person(old(store)@, updated_person.id as int, uid as int),
            r matches Ok(p) ==> p@.id == updated_person.id as int && p@.user_id == uid as int
                && p@.name == updated_person.name@ && p@.birthdate == updated_person.birthdate as int
                && final(store)@ == old(store)@.update(
                idx_of_person(old(store)@, updated_person.id as int, uid as int),
                p@,
            ),
            r is Err ==> final(store)@ == old(store)@,
            r matches Err(e) ==> e@.error_status_code == 404,
    {
        let n = store.persons.len();
        for i in 0..n
            invariant
                store.wf(),
                store == old(store),
                n == store.persons@.len(),
                store@.len() == store.persons@.len(),
                forall|j: int| 0 <= j < store@.len() ==> store@[j] == store.persons@[j]@,
                forall|j: int|
                    0 <= j < i ==> !((#[trigger] store@[j]).id == updated_person.id as int
                        && store@[j].user_id == uid as int),
        {
            if store.persons[i].id == updated_person.id && store.persons[i].user_id == uid {
                proof {
                    assert(store@[i as int].id == updated_person.id as int
                        && store@[i as int].user_id == uid as int);
                    assert(has_person(old(store)@, updated_person.id as int, uid as int));
                    let k = idx_of_person(old(store)@, updated_person.id as int, uid as int);
                    assert(0 <= k < old(store)@.len() && old(store)@[k].id == updated_person.id
                        as int);
                    lemma_unique_person_id(old(store)@, i as int, k);
                }
                let mut row = store.persons.remove(i);
                row.name = updated_person.name.clone();
                row.birthdate = updated_person.birthdate;
                let ret = row.clone();
                store.persons.insert(i, row);
                proof {
                    let ghost pre = old(store)@;
                    assert(store@ =~= pre.update(i as int, ret@));
                    assert forall|p0: int, q0: int| 0 <= p0 < q0 < store@.len() implies (
                    #[trigger] store@[p0]).id != (#[trigger] store@[q0]).id by {
                        assert(pre[p0].id != pre[q0].id);
                        if p0 != i as int {
                            assert(store@[p0] == pre[p0]);
                        }
                        if q0 != i as int {
                            assert(store@[q0] == pre[q0]);
                        }
                    };
                    assert forall|p0: int| 0 <= p0 < store@.len() implies 0 <= (
                    #[trigger] store@[p0]).id < store.next_id as int by {
                        assert(0 <= pre[p0].id < old(store).next_id as int);
                        if p0 != i as int {
                            assert(store@[p0] == pre[p0]);
                        }
                    };
                }
                return Ok(ret);
            }
        }
        Err(CustomError::new(404, String::from_str("Person not found")))
    }

    /// Remove and return the record `person_id`, provided it belongs to
    /// `uid`.
    pub fn delete(uid: i32, person_id: i32, store: &mut PersonStore) -> (r: Result<
        Person,
        CustomError,
    >)
        requires
            old(store).wf(),
        ensures
            final(store).wf(),
            r is Ok <==> has_person(old(store)@, person_id as int, uid as int),
            r matches Ok(p) ==> p@ == old(store)@[idx_of_person(
                old(store)@,
                person_id as int,
                uid as int,
            )] && final(store)@ == old(store)@.remove(
                idx_of_person(old(store)@, person_id as int, uid as int),
            ),
            r is Err ==> final(store)@ == old(store)@,
            r matches Err(e) ==> e@.error_status_code == 404,
    {
        let n = store.persons.len();
        for i in 0..n
            invariant
                store.wf(),
                store == old(store),
                n == store.persons@.len(),
                store@.len() == store.persons@.len(),
                forall|j: int| 0 <= j < store@.len() ==> store@[j] == store.persons@[j]@,
                forall|j: int|
                    0 <= j < i ==> !((#[trigger] store@[j]).id == person_id as int
                        && store@[j].user_id == uid as int),
        {
            if store.persons[i].id == person_id && store.persons[i].user_id == uid {
                proof {
                    assert(store@[i as int].id == person_id as int && store@[i as int].user_id
                        == uid as int);
                    assert(has_person(old(store)@, person_id as int, uid as int));
                    let k = idx_of_person(old(store)@, person_id as int, uid as int);
                    assert(0 <= k < old(store)@.len() && old(store)@[k].id == person_id as int);
                    lemma_unique_person_id(old(store)@, i as int, k);
                }
                let p = store.persons.remove(i);
                proof {
                    let ghost pre = old(store)@;
                    let k = i as int;
                    assert(store@ =~= pre.remove(k));
                    assert forall|p0: int, q0: int| 0 <= p0 < q0 < store@.len() implies (
                    #[trigger] store@[p0]).id != (#[trigger] store@[q0]).id by {
                        let a: int = if p0 < k {
                            p0
                        } else {
                            p0 + 1
                        };
                        let b: int = if q0 < k {
                            q0
                        } else {
                            q0 + 1
                        };
                        assert(store@[p0] == pre[a] && store@[q0] == pre[b]);
                        assert(pre[a].id != pre[b].id);
                    };
                    assert forall|p0: int| 0 <= p0 < store@.len() implies 0 <= (
                    #[trigger] store@[p0]).id < store.next_id as int by {
                        let a: int = if p0 < k {
                            p0
                        } else {
                            p0 + 1
                        };
                        assert(store@[p0] == pre[a]);
                        assert(0 <= pre[a].id < old(store).next_id as int);
                    };
                }
                return Ok(p);
            }
        }
        Err(CustomError::new(404, String::from_str("Person not found")))
    }

    /// Remove every record owned by `uid`; the result is how many went.
    pub fn delete_all_with_uid(uid: i32, store: &mut PersonStore) -> (r: Result<usize, CustomError>)
        requires
            old(store).wf(),
        ensures
            final(store).wf(),
            r matches Ok(count) ==> final(store)@ == old(store)@.filter(
                |p: PersonV| p.user_id != uid as int,
            ) && count as int == old(store)@.len() - final(store)@.len(),
            r is Err ==> false,
    {
        broadcast use vstd::seq_lib::group_seq_lib_default;

        let ghost pred = |p: PersonV| p.user_id != uid as int;
        let mut kept: Vec<Person> = Vec::new();
        let n = store.persons.len();
        proof {
            assert(store@.take(0) =~= Seq::<PersonV>::empty());
            reveal(Seq::filter);
        }
        for i in 0..n
            invariant
                store.wf(),
                store == old(store),
                n == store.persons@.len(),
                store@.len() == store.persons@.len(),
                pred == (|p: PersonV| p.user_id != uid as int),
                forall|j: int| 0 <= j < store@.len() ==> store@[j] == store.persons@[j]@,
                kept@.map_values(|p: Person| p@) == store@.take(i as int).filter(pred),
                kept@.len() <= i,
        {
            proof {
                assert(store@.take(i + 1) =~= store@.take(i as int).push(store@[i as int]));
                store@.take(i as int).lemma_filter_push(store@[i as int], pred);
            }
            if store.persons[i].user_id != uid {
                let ghost pre = kept@.map_values(|p: Person| p@);
                kept.push(store.persons[i].clone());
                proof {
                    assert(kept@.map_values(|p: Person| p@) =~= pre.push(store@[i as int]));
                }
            }
        }
        let removed = n - kept.len();
        let ghost pre = old(store)@;
        store.persons = kept;
        proof {
            assert(pre.take(n as int) =~= pre);
            assert(store@ == pre.filter(pred));
            lemma_filter_keeps_distinct_ids(pre, pred);
            assert forall|p0: int| 0 <= p0 < store@.len() implies 0 <= (#[trigger] store@[p0]).id
                < store.next_id as int by {
                let a = choose|j: int| 0 <= j < pre.len() && pre[j] == #[trigger] pre.filter(
                    pred,
                )[p0];
                assert(pre[a] == store@[p0]);
                assert(0 <= pre[a].id < old(store).next_id as int);
            };
        }
        Ok(removed)
    }
}

} // verus!
