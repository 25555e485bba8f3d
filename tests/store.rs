use zero2prod_core::domain::{FormData, NewSubscriber};
use zero2prod_core::errors::{FailureOrigin, StoreError, StoreTokenError, SubscribeError};
use zero2prod_core::store::{SubscriptionStatus, SubscriptionStore};
use zero2prod_core::subscriptions::{
    get_subscriber_id_from_email, insert_subscriber, store_token, subscribe_with,
};

const TOKEN_A: &str = "aaaaaaaaaaaaaaaaaaaaaaaaa";
const TOKEN_B: &str = "bbbbbbbbbbbbbbbbbbbbbbbbb";

fn new_subscriber(name: &str, email: &str) -> NewSubscriber {
    NewSubscriber::try_from(FormData {
        name: name.to_string(),
        email: email.to_string(),
    })
    .ok()
    .unwrap()
}

fn form(name: &str, email: &str) -> FormData {
    FormData {
        name: name.to_string(),
        email: email.to_string(),
    }
}

#[test]
fn staged_rows_are_invisible_until_commit() {
    let mut store = SubscriptionStore::new();
    let s = new_subscriber("le guin", "ursula_le_guin@gmail.com");
    let mut tx = store.begin();
    assert_eq!(insert_subscriber(&store, &mut tx, &s, 7, 100), Ok(7));
    assert_eq!(get_subscriber_id_from_email(&store, &tx, &s), Some(7));
    assert_eq!(store.subscriber_count(), 0);
    assert_eq!(store_token(&store, &mut tx, 7, TOKEN_A), Ok(()));
    assert_eq!(tx.commit(&mut store), Ok(()));
    assert_eq!(store.subscriber_count(), 1);
    assert_eq!(store.token_count(), 1);
    assert_eq!(store.find_subscriber_id_by_token(&TOKEN_A.to_string()), Some(7));
}

#[test]
fn dropping_a_transaction_rolls_it_back() {
    let mut store = SubscriptionStore::new();
    let s = new_subscriber("le guin", "ursula_le_guin@gmail.com");
    {
        let mut tx = store.begin();
        insert_subscriber(&store, &mut tx, &s, 7, 100).unwrap();
    }
    assert_eq!(store.subscriber_count(), 0);
    let tx = store.begin();
    assert_eq!(get_subscriber_id_from_email(&store, &tx, &s), None);
}

#[test]
fn token_for_unknown_subscriber_is_refused() {
    let store = SubscriptionStore::new();
    let mut tx = store.begin();
    assert_eq!(
        store_token(&store, &mut tx, 42, TOKEN_A),
        Err(StoreTokenError(StoreError::UnknownSubscriber))
    );
}

#[test]
fn duplicate_token_is_refused() {
    let store = SubscriptionStore::new();
    let s = new_subscriber("le guin", "ursula_le_guin@gmail.com");
    let mut tx = store.begin();
    insert_subscriber(&store, &mut tx, &s, 1, 0).unwrap();
    store_token(&store, &mut tx, 1, TOKEN_A).unwrap();
    assert_eq!(
        store_token(&store, &mut tx, 1, TOKEN_A),
        Err(StoreTokenError(StoreError::DuplicateToken))
    );
}

#[test]
fn duplicate_id_and_email_are_refused() {
    let store = SubscriptionStore::new();
    let a = new_subscriber("le guin", "ursula_le_guin@gmail.com");
    let b = new_subscriber("daniel borne", "danielborne@gmail.com");
    let mut tx = store.begin();
    insert_subscriber(&store, &mut tx, &a, 1, 0).unwrap();
    assert_eq!(
        insert_subscriber(&store, &mut tx, &b, 1, 0),
        Err(StoreError::DuplicateSubscriberId)
    );
    assert_eq!(
        insert_subscriber(&store, &mut tx, &a, 2, 0),
        Err(StoreError::DuplicateEmail)
    );
}

#[test]
fn racing_first_subscriptions_commit_once() {
    let mut store = SubscriptionStore::new();
    let s = new_subscriber("le guin", "ursula_le_guin@gmail.com");
    let mut tx1 = store.begin();
    let mut tx2 = store.begin();
    assert_eq!(get_subscriber_id_from_email(&store, &tx1, &s), None);
    assert_eq!(get_subscriber_id_from_email(&store, &tx2, &s), None);
    insert_subscriber(&store, &mut tx1, &s, 1, 0).unwrap();
    store_token(&store, &mut tx1, 1, TOKEN_A).unwrap();
    insert_subscriber(&store, &mut tx2, &s, 2, 0).unwrap();
    store_token(&store, &mut tx2, 2, TOKEN_B).unwrap();
    assert_eq!(tx1.commit(&mut store), Ok(()));
    assert_eq!(tx2.commit(&mut store), Err(StoreError::DuplicateEmail));
    assert_eq!(store.subscriber_count(), 1);
    assert_eq!(store.token_count(), 1);
}

#[test]
fn failed_commit_leaves_no_partial_rows() {
    let mut store = SubscriptionStore::new();
    let a = new_subscriber("le guin", "ursula_le_guin@gmail.com");
    let b = new_subscriber("daniel borne", "danielborne@gmail.com");
    let mut first = store.begin();
    insert_subscriber(&store, &mut first, &a, 1, 0).unwrap();
    store_token(&store, &mut first, 1, TOKEN_A).unwrap();
    let mut second = store.begin();
    insert_subscriber(&store, &mut second, &b, 2, 0).unwrap();
    store_token(&store, &mut second, 2, TOKEN_A).unwrap();
    first.commit(&mut store).unwrap();
    assert_eq!(second.commit(&mut store), Err(StoreError::DuplicateToken));
    assert_eq!(store.subscriber_count(), 1);
    assert!(store
        .subscriber_by_email(&"danielborne@gmail.com".to_string())
        .is_none());
}

#[test]
fn subscribe_with_records_the_given_values() {
    let mut store = SubscriptionStore::new();
    let email = subscribe_with(
        &mut store,
        form("le guin", "ursula_le_guin@gmail.com"),
        "http://h",
        9,
        TOKEN_A,
        1234,
    )
    .ok()
    .unwrap();
    assert_eq!(
        email.text_body,
        format!(
            "Welcome to my newsletter!\nVisit http://h/subscriptions/confirm?subscription_token={} to confirm your subscription",
            TOKEN_A
        )
    );
    let saved = store
        .subscriber_by_email(&"ursula_le_guin@gmail.com".to_string())
        .unwrap();
    assert_eq!(saved.id, 9);
    assert_eq!(saved.subscribed_at, 1234);
    assert_eq!(saved.status, SubscriptionStatus::PendingConfirmation);
    assert_eq!(store.tokens_of(9), vec![TOKEN_A.to_string()]);
}

#[test]
fn subscribe_with_reuses_the_existing_subscriber() {
    let mut store = SubscriptionStore::new();
    let f = || form("le guin", "ursula_le_guin@gmail.com");
    assert!(subscribe_with(&mut store, f(), "http://h", 9, TOKEN_A, 1).is_ok());
    assert!(subscribe_with(&mut store, f(), "http://h", 10, TOKEN_B, 2).is_ok());
    assert_eq!(store.subscriber_count(), 1);
    assert_eq!(
        store.tokens_of(9),
        vec![TOKEN_A.to_string(), TOKEN_B.to_string()]
    );
    assert!(store.tokens_of(10).is_empty());
}

#[test]
fn subscribe_with_a_taken_token_fails_and_changes_nothing() {
    let mut store = SubscriptionStore::new();
    subscribe_with(
        &mut store,
        form("le guin", "ursula_le_guin@gmail.com"),
        "http://h",
        9,
        TOKEN_A,
        1,
    )
    .ok()
    .unwrap();
    let r = subscribe_with(
        &mut store,
        form("daniel borne", "danielborne@gmail.com"),
        "http://h",
        10,
        TOKEN_A,
        2,
    );
    match r {
        Err(SubscribeError::UnexpectedError(f)) => {
            assert_eq!(f.origin, FailureOrigin::StoreToken);
            assert_eq!(f.causes.len(), 2);
        }
        _ => panic!("expected a token failure"),
    }
    assert_eq!(store.subscriber_count(), 1);
    assert_eq!(store.token_count(), 1);
}

#[test]
fn subscribe_with_a_taken_id_fails_and_changes_nothing() {
    let mut store = SubscriptionStore::new();
    subscribe_with(
        &mut store,
        form("le guin", "ursula_le_guin@gmail.com"),
        "http://h",
        9,
        TOKEN_A,
        1,
    )
    .ok()
    .unwrap();
    let r = subscribe_with(
        &mut store,
        form("daniel borne", "danielborne@gmail.com"),
        "http://h",
        9,
        TOKEN_B,
        2,
    );
    match r {
        Err(e) => {
            assert_eq!(e.status_code(), 500);
            assert_eq!(e.message(), "Failed to insert new subscriber");
        }
        Ok(_) => panic!("expected an insert failure"),
    }
    assert_eq!(store.subscriber_count(), 1);
    assert_eq!(store.token_count(), 1);
}

#[test]
fn confirming_marks_only_the_owner() {
    let mut store = SubscriptionStore::new();
    subscribe_with(&mut store, form("a", "a@b.co"), "http://h", 1, TOKEN_A, 0)
        .ok()
        .unwrap();
    subscribe_with(&mut store, form("b", "b@b.co"), "http://h", 2, TOKEN_B, 0)
        .ok()
        .unwrap();
    store.set_subscriber_confirmed(2);
    let a = store.subscriber_by_email(&"a@b.co".to_string()).unwrap();
    let b = store.subscriber_by_email(&"b@b.co".to_string()).unwrap();
    assert_eq!(a.status, SubscriptionStatus::PendingConfirmation);
    assert_eq!(b.status, SubscriptionStatus::Confirmed);
    assert_eq!(store.find_subscriber_id_by_email(&"b@b.co".to_string()), Some(2));
}
