use zero2prod_core::domain::FormData;
use zero2prod_core::email::ConfirmationEmail;
use zero2prod_core::errors::SubscribeError;
use zero2prod_core::store::{SubscriptionStatus, SubscriptionStore};
use zero2prod_core::subscriptions::{confirmation_sent, subscribe};

const BASE_URL: &str = "http://127.0.0.1:8000";

fn form(name: &str, email: &str) -> FormData {
    FormData {
        name: name.to_string(),
        email: email.to_string(),
    }
}

fn status_of(r: &Result<ConfirmationEmail, SubscribeError>) -> u16 {
    match r {
        Ok(_) => 200,
        Err(e) => e.status_code(),
    }
}

/// The link that follows `prefix` in `body`, up to the first quote or space.
fn link_after(body: &str, prefix: &str) -> String {
    let start = body.find(prefix).expect("no link in the body") + prefix.len();
    body[start..]
        .chars()
        .take_while(|c| *c != '"' && *c != ' ')
        .collect()
}

fn links_of(email: &ConfirmationEmail) -> (String, String) {
    (
        link_after(&email.html_body, "href=\""),
        link_after(&email.text_body, "Visit "),
    )
}

#[test]
fn subscriptions_subscribe_returns_200_for_valid_form_data() {
    let mut store = SubscriptionStore::new();
    let r = subscribe(&mut store, form("daniel borne", "danielborne@gmail.com"), BASE_URL);
    assert_eq!(200, status_of(&r));
    assert!(confirmation_sent(Ok(())).is_ok());
}

#[test]
fn subscribe_persists_the_new_suibscriber() {
    let mut store = SubscriptionStore::new();
    subscribe(&mut store, form("daniel borne", "danielborne@gmail.com"), BASE_URL).unwrap();

    let saved = store
        .subscriber_by_email(&"danielborne@gmail.com".to_string())
        .expect("Failed to fetch saved subscriptions");
    assert_eq!(saved.email, "danielborne@gmail.com");
    assert_eq!(saved.name, "daniel borne");
    assert_eq!(saved.status.as_str(), "pending_confirmation");
}

#[test]
fn subscribe_returns_400_when_fields_are_present_but_empty() {
    let mut store = SubscriptionStore::new();
    let test_cases = vec![
        (form("", "test_email@test.com"), "empty name"),
        (form("test_name", ""), "empty email"),
        (form("test_name", "definitely-not-email"), "invalid email"),
    ];
    for (body, description) in test_cases {
        let r = subscribe(&mut store, body, BASE_URL);
        assert_eq!(
            400,
            status_of(&r),
            "The API did not return a 400 bad request when payload was {}.",
            description
        );
    }
    assert_eq!(store.subscriber_count(), 0);
    assert_eq!(store.token_count(), 0);
}

#[test]
fn subscribe_sends_a_confirmation_email_for_valid_data() {
    let mut store = SubscriptionStore::new();
    let email = subscribe(&mut store, form("le guin", "ursula_le_guin@gmail.com"), BASE_URL).unwrap();
    assert_eq!(email.recipient, "ursula_le_guin@gmail.com");
    assert_eq!(email.subject, "Welcome!");
}

#[test]
fn subscribe_sends_a_confirmation_email_with_link() {
    let mut store = SubscriptionStore::new();
    let email = subscribe(&mut store, form("le guin", "ursula_le_guin@gmail.com"), BASE_URL).unwrap();
    let (html, plain_text) = links_of(&email);
    assert_eq!(html, plain_text);
    assert!(html.starts_with("http://127.0.0.1:8000/subscriptions/confirm?subscription_token="));
}

#[test]
fn single_user_multi_subscription_sends_multiple_emails() {
    let mut store = SubscriptionStore::new();
    let first = subscribe(&mut store, form("le guin", "ursula_le_guin@gmail.com"), BASE_URL);
    let second = subscribe(&mut store, form("le guin", "ursula_le_guin@gmail.com"), BASE_URL);
    assert_eq!(status_of(&first), 200);
    assert_eq!(status_of(&second), 200);

    let confirmation_links: Vec<(String, String)> =
        vec![links_of(&first.unwrap()), links_of(&second.unwrap())];
    assert_eq!(confirmation_links.len(), 2);
    assert_eq!(confirmation_links[0].0, confirmation_links[0].1);
    assert_eq!(confirmation_links[1].0, confirmation_links[1].1);
    assert_ne!(confirmation_links[0].1, confirmation_links[1].1);
}

#[test]
fn resubscribing_keeps_one_row_and_two_tokens() {
    let mut store = SubscriptionStore::new();
    let first = subscribe(&mut store, form("le guin", "ursula_le_guin@gmail.com"), BASE_URL).unwrap();
    let second = subscribe(&mut store, form("le guin", "ursula_le_guin@gmail.com"), BASE_URL).unwrap();
    assert_eq!(store.subscriber_count(), 1);
    assert_eq!(store.token_count(), 2);
    let saved = store
        .subscriber_by_email(&"ursula_le_guin@gmail.com".to_string())
        .unwrap();
    let tokens = store.tokens_of(saved.id);
    assert_eq!(tokens.len(), 2);
    assert_ne!(tokens[0], tokens[1]);
    assert!(links_of(&first).0.ends_with(&tokens[0]));
    assert!(links_of(&second).0.ends_with(&tokens[1]));
}

#[test]
fn subscribe_leaves_a_pending_subscriber_for_valid_input() {
    let cases = vec![
        ("a", "a@b.co"),
        ("Ursula K. Le Guin", "ursula.le.guin@example.org"),
        ("名前", "x@y.z"),
    ];
    for (name, email) in cases {
        let mut store = SubscriptionStore::new();
        subscribe(&mut store, form(name, email), BASE_URL).unwrap();
        let saved = store.subscriber_by_email(&email.to_string()).unwrap();
        assert_eq!(saved.status, SubscriptionStatus::PendingConfirmation);
        assert_eq!(saved.name, name);
    }
}

#[test]
fn malformed_input_creates_no_subscriber() {
    let long_name = "a".repeat(257);
    let cases = vec![
        form("le guin", ""),
        form("le guin", "ursula_le_guin.gmail.com"),
        form("le guin", "ursula_le_guin@gmail"),
        form("", "ursula_le_guin@gmail.com"),
        form("   \t", "ursula_le_guin@gmail.com"),
        form("le <guin>", "ursula_le_guin@gmail.com"),
        form(&long_name, "ursula_le_guin@gmail.com"),
    ];
    let mut store = SubscriptionStore::new();
    for f in cases {
        let r = subscribe(&mut store, f, BASE_URL);
        assert!(matches!(r, Err(SubscribeError::ValidationError(_))));
    }
    assert_eq!(store.subscriber_count(), 0);
    assert_eq!(store.token_count(), 0);
}

#[test]
fn rejection_carries_the_validation_message() {
    let mut store = SubscriptionStore::new();
    let r = subscribe(&mut store, form("test_name", "definitely-not-email"), BASE_URL);
    match r {
        Err(e) => {
            assert_eq!(e.message(), "definitely-not-email is not a valid subscriber email.");
            assert_eq!(e.status_code(), 400);
        }
        Ok(_) => panic!("accepted an invalid email"),
    }
    let r = subscribe(&mut store, form("", "definitely-not-email"), BASE_URL);
    match r {
        Err(e) => assert_eq!(e.message(), " is not a valid subscriber name."),
        Ok(_) => panic!("accepted an empty name"),
    }
}

#[test]
fn failed_delivery_is_an_unexpected_error() {
    let e = confirmation_sent(Err("connection refused".to_string())).unwrap_err();
    assert_eq!(e.status_code(), 500);
    assert_eq!(e.message(), "Failed to send confirmation email");
    assert_eq!(
        e.describe(),
        "Failed to send confirmation email\n\nCaused by:\n\tconnection refused\n"
    );
}

#[test]
fn new_subscribers_get_random_version_four_ids() {
    let mut store = SubscriptionStore::new();
    subscribe(&mut store, form("le guin", "ursula_le_guin@gmail.com"), BASE_URL).unwrap();
    subscribe(&mut store, form("daniel borne", "danielborne@gmail.com"), BASE_URL).unwrap();
    let a = store
        .subscriber_by_email(&"ursula_le_guin@gmail.com".to_string())
        .unwrap();
    let b = store
        .subscriber_by_email(&"danielborne@gmail.com".to_string())
        .unwrap();
    assert_eq!((a.id >> 76) & 0xf, 4);
    assert_eq!((b.id >> 76) & 0xf, 4);
    assert_ne!(a.id, b.id);
    assert!(a.subscribed_at > 1_500_000_000);
}
