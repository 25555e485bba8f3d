use zero2prod_core::email::{confirmation_email, confirmation_link_for};

#[test]
fn confirmation_link_embeds_the_token() {
    assert_eq!(
        confirmation_link_for("http://localhost", "abc"),
        "http://localhost/subscriptions/confirm?subscription_token=abc"
    );
}

#[test]
fn confirmation_email_bodies_are_exact() {
    let e = confirmation_email("a@b.co", "http://localhost", "abc");
    let link = "http://localhost/subscriptions/confirm?subscription_token=abc";
    assert_eq!(e.recipient, "a@b.co");
    assert_eq!(e.subject, "Welcome!");
    assert_eq!(
        e.text_body,
        format!("Welcome to my newsletter!\nVisit {} to confirm your subscription", link)
    );
    assert_eq!(
        e.html_body,
        format!(
            "Welcome to my newsletter!<br />Click <a href=\"{}\">here</a> to confirm your subscription.",
            link
        )
    );
}
