use session_gate::errors::CustomError;
use session_gate::login_history::{LoginHistory, LoginHistoryStore};
use session_gate::person::{Person, PersonStore, ReceivedPerson};
use session_gate::response::ResponseBody;
use session_gate::user_token::ONE_WEEK;

fn rp(name: &str, birthdate: i64) -> ReceivedPerson {
    ReceivedPerson { name: name.to_string(), birthdate }
}

#[test]
fn create_and_find_are_scoped_to_the_owner() {
    let mut store = PersonStore::new();
    let a = Person::create(1, &rp("Ada", 100), &mut store).unwrap();
    let b = Person::create(2, &rp("Bob", 200), &mut store).unwrap();
    let c = Person::create(1, &rp("Cyd", 300), &mut store).unwrap();
    assert_ne!(a.id, b.id);
    assert_ne!(a.id, c.id);

    let mine = Person::find_all(1, &store);
    assert_eq!(mine.len(), 2);
    assert_eq!(mine[0].name, "Ada");
    assert_eq!(mine[1].name, "Cyd");

    let found = Person::find_by_id(1, a.id, &store).unwrap();
    assert_eq!(found.name, "Ada");
    let err = Person::find_by_id(2, a.id, &store).unwrap_err();
    assert_eq!(err.error_status_code, 404);
    assert_eq!(err.error_message, "Person not found");
}

#[test]
fn update_replaces_fields_but_not_ownership() {
    let mut store = PersonStore::new();
    let a = Person::create(1, &rp("Ada", 100), &mut store).unwrap();
    let changed = Person {
        id: a.id,
        name: "Ada Lovelace".to_string(),
        birthdate: 101,
        user_id: 999,
    };
    let updated = Person::update(1, &changed, &mut store).unwrap();
    assert_eq!(updated.name, "Ada Lovelace");
    assert_eq!(updated.birthdate, 101);
    assert_eq!(updated.user_id, 1);
    assert!(Person::update(2, &changed, &mut store).is_err());
}

#[test]
fn delete_removes_only_the_owners_record() {
    let mut store = PersonStore::new();
    let a = Person::create(1, &rp("Ada", 100), &mut store).unwrap();
    assert!(Person::delete(2, a.id, &mut store).is_err());
    let gone = Person::delete(1, a.id, &mut store).unwrap();
    assert_eq!(gone.name, "Ada");
    assert!(Person::find_by_id(1, a.id, &store).is_err());
}

#[test]
fn delete_all_with_uid_counts_what_went() {
    let mut store = PersonStore::new();
    Person::create(1, &rp("Ada", 100), &mut store).unwrap();
    Person::create(2, &rp("Bob", 200), &mut store).unwrap();
    Person::create(1, &rp("Cyd", 300), &mut store).unwrap();
    let removed = Person::delete_all_with_uid(1, &mut store).unwrap();
    assert_eq!(removed, 2);
    assert_eq!(Person::find_all(1, &store).len(), 0);
    assert_eq!(Person::find_all(2, &store).len(), 1);
    let removed_again = Person::delete_all_with_uid(1, &mut store).unwrap();
    assert_eq!(removed_again, 0);
}

#[test]
fn login_history_recency_query() {
    let mut store = LoginHistoryStore::new();
    let now: i64 = 10_000_000;
    let fresh = LoginHistory::create(&7, now - 10);
    assert_eq!(fresh.user_id, 7);
    assert_eq!(fresh.login_timestamp, now - 10);
    assert_eq!(LoginHistory::save_login_history(fresh, &mut store).unwrap(), 1);
    let stale = LoginHistory::create(&8, now - ONE_WEEK);
    LoginHistory::save_login_history(stale, &mut store).unwrap();

    assert!(LoginHistory::user_is_already_logged_in(&7, &store, now));
    assert!(!LoginHistory::user_is_already_logged_in(&8, &store, now));
    assert!(!LoginHistory::user_is_already_logged_in(&9, &store, now));
}

#[test]
fn error_and_response_constructors() {
    let e = CustomError::new(418, "teapot".to_string());
    assert_eq!(e.error_status_code, 418);
    assert_eq!(e.error_message, "teapot");
    let body = ResponseBody::new("done", 5_u32);
    assert_eq!(body.message, "done");
    assert_eq!(body.data, 5);
}
