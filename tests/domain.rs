use zero2prod_core::domain::{
    is_valid_email, is_valid_name, FormData, NewSubscriber, SubscriberEmail, SubscriberName,
};

#[test]
fn a_256_character_name_is_valid() {
    assert!(is_valid_name(&"ё".repeat(256)));
    assert!(SubscriberName::parse("a".repeat(256)).is_ok());
}

#[test]
fn a_name_longer_than_256_characters_is_rejected() {
    assert!(!is_valid_name(&"a".repeat(257)));
    assert!(SubscriberName::parse("a".repeat(257)).is_err());
}

#[test]
fn whitespace_only_names_are_rejected() {
    assert!(!is_valid_name(" "));
    assert!(!is_valid_name("\t\n "));
    assert!(!is_valid_name("\u{3000}\u{a0}"));
}

#[test]
fn empty_string_is_rejected() {
    assert!(!is_valid_name(""));
    assert!(!is_valid_email(""));
}

#[test]
fn names_containing_a_forbidden_character_are_rejected() {
    for c in ['/', '(', ')', '"', '<', '>', '\\', '{', '}'] {
        let name = format!("le{}guin", c);
        assert!(!is_valid_name(&name), "accepted {}", name);
    }
}

#[test]
fn a_valid_name_is_parsed_successfully() {
    let name = SubscriberName::parse("Ursula Le Guin".to_string()).unwrap();
    assert_eq!(name.as_str(), "Ursula Le Guin");
}

#[test]
fn invalid_name_message_names_the_input() {
    let e = SubscriberName::parse("a<b".to_string()).unwrap_err();
    assert_eq!(e, "a<b is not a valid subscriber name.");
}

#[test]
fn valid_emails_are_accepted() {
    for e in ["ursula_le_guin@gmail.com", "a@b.co", "first.last@sub.domain.org"] {
        assert!(is_valid_email(e), "rejected {}", e);
    }
    let email = SubscriberEmail::parse("a@b.co".to_string()).unwrap();
    assert_eq!(email.as_str(), "a@b.co");
}

#[test]
fn emails_missing_at_symbol_are_rejected() {
    assert!(!is_valid_email("ursuladomain.com"));
}

#[test]
fn emails_missing_subject_are_rejected() {
    assert!(!is_valid_email("@domain.com"));
}

#[test]
fn emails_without_a_dot_in_the_domain_are_rejected() {
    assert!(!is_valid_email("ursula@domain"));
    assert!(!is_valid_email("ursula@.com"));
    assert!(!is_valid_email("ursula@domain."));
    assert!(!is_valid_email("first.last@domain"));
}

#[test]
fn emails_with_two_at_symbols_or_whitespace_are_rejected() {
    assert!(!is_valid_email("a@b@c.com"));
    assert!(!is_valid_email("a b@c.com"));
    assert!(!is_valid_email("ab@c.com "));
}

#[test]
fn invalid_email_message_names_the_input() {
    let e = SubscriberEmail::parse("nope".to_string()).unwrap_err();
    assert_eq!(e, "nope is not a valid subscriber email.");
}

#[test]
fn the_name_is_checked_before_the_email() {
    let r = NewSubscriber::try_from(FormData {
        name: "".to_string(),
        email: "".to_string(),
    });
    assert_eq!(r.err().unwrap(), " is not a valid subscriber name.");
    let r = NewSubscriber::try_from(FormData {
        name: "le guin".to_string(),
        email: "x".to_string(),
    });
    assert_eq!(r.err().unwrap(), "x is not a valid subscriber email.");
    let ok = NewSubscriber::try_from(FormData {
        name: "le guin".to_string(),
        email: "ursula_le_guin@gmail.com".to_string(),
    })
    .ok()
    .unwrap();
    assert_eq!(ok.name.as_str(), "le guin");
    assert_eq!(ok.email.as_str(), "ursula_le_guin@gmail.com");
}
