//! The confirmation email sent after a subscription: a fixed subject and two
//! bodies, HTML and plain text, that carry the same confirmation link.

use vstd::prelude::*;
use vstd::string::*;

verus! {

pub open spec fn confirm_path() -> Seq<char> {
    "/subscriptions/confirm?subscription_token="@
}

/// The link that confirms the subscription holding `token`.
pub open spec fn confirmation_link(base_url: Seq<char>, token: Seq<char>) -> Seq<char> {
    base_url + confirm_path() + token
}

pub open spec fn welcome_subject() -> Seq<char> {
    "Welcome!"@
}

pub open spec fn text_before() -> Seq<char> {
    "Welcome to my newsletter!\nVisit "@
}

pub open spec fn text_after() -> Seq<char> {
    " to confirm your subscription"@
}

pub open spec fn html_before() -> Seq<char> {
    "Welcome to my newsletter!<br />Click <a href=\""@
}

pub open spec fn html_after() -> Seq<char> {
    "\">here</a> to confirm your subscription."@
}

pub open spec fn text_body_of(link: Seq<char>) -> Seq<char> {
    text_before() + link + text_after()
}

pub open spec fn html_body_of(link: Seq<char>) -> Seq<char> {
    html_before() + link + html_after()
}

/// `part` occurs in `s` at position `at`.
pub open spec fn occurs_at(s: Seq<char>, part: Seq<char>, at: int) -> bool {
    0 <= at && at + part.len() <= s.len() && s.subrange(at, at + part.len()) == part
}

pub open spec fn contains_text(s: Seq<char>, part: Seq<char>) -> bool {
    exists|at: int| occurs_at(s, part, at)
}

/// An email as a value.
pub struct EmailModel {
    pub recipient: Seq<char>,
    pub subject: Seq<char>,
    pub html_body: Seq<char>,
    pub text_body: Seq<char>,
}

/// The confirmation email for `recipient` that carries `token`.
pub open spec fn confirmation_email_model(
    recipient: Seq<char>,
    base_url: Seq<char>,
    token: Seq<char>,
) -> EmailModel {
    let link = confirmation_link(base_url, token);
    EmailModel {
        recipient,
        subject: welcome_subject(),
        html_body: html_body_of(link),
        text_body: text_body_of(link),
    }
}

/// An email ready to be handed to the delivery service.
#[derive(Debug)]
pub struct ConfirmationEmail {
    pub recipient: String,
    pub subject: String,
    pub html_body: String,
    pub text_body: String,
}

impl View for ConfirmationEmail {
    type V = EmailModel;

    open spec fn view(&self) -> EmailModel {
        EmailModel {
            recipient: self.recipient@,
            subject: self.subject@,
            html_body: self.html_body@,
            text_body: self.text_body@,
        }
    }
}

/// Builds the confirmation link.
pub fn confirmation_link_for(base_url: &str, token: &str) -> (r: String)
    ensures
        r@ == confirmation_link(base_url@, token@),
{
    let mut link = String::from_str(base_url);
    link.append("/subscriptions/confirm?subscription_token=");
    link.append(token);
    link
}

/// Builds the confirmation email for `recipient` that carries `token`.
pub fn confirmation_email(recipient: &str, base_url: &str, token: &str) -> (r: ConfirmationEmail)
    ensures
        r@ == confirmation_email_model(recipient@, base_url@, token@),
{
    let link = confirmation_link_for(base_url, token);
    let mut text_body = String::from_str("Welcome to my newsletter!\nVisit ");
    text_body.append(link.as_str());
    text_body.append(" to confirm your subscription");
    let mut html_body = String::from_str("Welcome to my newsletter!<br />Click <a href=\"");
    html_body.append(link.as_str());
    html_body.append("\">here</a> to confirm your subscription.");
    ConfirmationEmail {
        recipient: String::from_str(recipient),
        subject: String::from_str("Welcome!"),
        html_body,
        text_body,
    }
}

/// Both bodies of a confirmation email carry its confirmation link.
pub proof fn lemma_bodies_carry_link(recipient: Seq<char>, base_url: Seq<char>, token: Seq<char>)
    ensures
        ({
            let e = confirmation_email_model(recipient, base_url, token);
            let link = confirmation_link(base_url, token);
            &&& occurs_at(e.html_body, link, html_before().len() as int)
            &&& occurs_at(e.text_body, link, text_before().len() as int)
        }),
{
    let link = confirmation_link(base_url, token);
    assert(html_body_of(link).subrange(
        html_before().len() as int,
        (html_before().len() + link.len()) as int,
    ) == link);
    assert(text_body_of(link).subrange(
        text_before().len() as int,
        (text_before().len() + link.len()) as int,
    ) == link);
}

} // verus!
