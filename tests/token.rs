use zero2prod_core::token::{generate_subscription_token, TOKEN_LEN};

#[test]
fn tokens_are_25_alphanumeric_characters() {
    for _ in 0..50 {
        let t = generate_subscription_token();
        assert_eq!(t.chars().count(), 25);
        assert_eq!(TOKEN_LEN, 25);
        assert!(t.chars().all(|c| c.is_ascii_alphanumeric()), "{}", t);
    }
}

#[test]
fn tokens_differ() {
    let a = generate_subscription_token();
    let b = generate_subscription_token();
    assert_ne!(a, b);
}
