//! The error taxonomy of the workflows and the rendering of an error together
//! with the chain of its causes.

use vstd::prelude::*;
use vstd::string::*;

verus! {

/// The lines that `error_chain_fmt` writes for the causes, outermost first.
pub open spec fn causes_text(causes: Seq<Seq<char>>) -> Seq<char>
    decreases causes.len(),
{
    if causes.len() == 0 {
        Seq::empty()
    } else {
        causes_text(causes.drop_last()) + "Caused by:\n\t"@ + causes.last() + "\n"@
    }
}

/// The report of an error: its own message on a line, an empty line, then one
/// `Caused by:` entry per cause.
pub open spec fn chain_text(message: Seq<char>, causes: Seq<Seq<char>>) -> Seq<char> {
    message + "\n\n"@ + causes_text(causes)
}

pub open spec fn texts(v: Seq<String>) -> Seq<Seq<char>> {
    v.map_values(|s: String| s@)
}

/// Renders `message` followed by the chain of `causes` (outermost first).
pub fn error_chain_fmt(message: &str, causes: &Vec<String>) -> (r: String)
    ensures
        r@ == chain_text(message@, texts(causes@)),
{
    let mut r = String::from_str(message);
    r.append("\n\n");
    let mut i: usize = 0;
    while i < causes.len()
        invariant
            i <= causes@.len(),
            r@ == chain_text(message@, texts(causes@.subrange(0, i as int))),
        decreases causes.len() - i,
    {
        proof {
            let pre = causes@.subrange(0, i as int);
            let next = causes@.subrange(0, i as int + 1);
            assert(texts(next).drop_last() == texts(pre));
            assert(texts(next).last() == causes@[i as int]@);
        }
        r.append("Caused by:\n\t");
        r.append(causes[i].as_str());
        r.append("\n");
        i = i + 1;
    }
    assert(causes@.subrange(0, causes@.len() as int) == causes@);
    r
}

/// A storage failure: a constraint of the subscription store was violated.
#[derive(PartialEq, Eq, Structural, Clone, Copy, Debug)]
pub enum StoreError {
    /// A subscriber with the same identifier already exists.
    DuplicateSubscriberId,
    /// A subscriber with the same email already exists.
    DuplicateEmail,
    /// A token with the same value already exists.
    DuplicateToken,
    /// A token refers to a subscriber that does not exist.
    UnknownSubscriber,
}

pub open spec fn store_error_text(e: StoreError) -> Seq<char> {
    match e {
        StoreError::DuplicateSubscriberId => "duplicate key value violates unique constraint on subscriptions.id"@,
        StoreError::DuplicateEmail => "duplicate key value violates unique constraint on subscriptions.email"@,
        StoreError::DuplicateToken => "duplicate key value violates unique constraint on subscriptions_tokens.subscription_token"@,
        StoreError::UnknownSubscriber => "insert on subscriptions_tokens violates foreign key constraint on subscriber_id"@,
    }
}

impl StoreError {
    pub fn message(&self) -> (r: String)
        ensures
            r@ == store_error_text(*self),
    {
        match self {
            StoreError::DuplicateSubscriberId => String::from_str(
                "duplicate key value violates unique constraint on subscriptions.id",
            ),
            StoreError::DuplicateEmail => String::from_str(
                "duplicate key value violates unique constraint on subscriptions.email",
            ),
            StoreError::DuplicateToken => String::from_str(
                "duplicate key value violates unique constraint on subscriptions_tokens.subscription_token",
            ),
            StoreError::UnknownSubscriber => String::from_str(
                "insert on subscriptions_tokens violates foreign key constraint on subscriber_id",
            ),
        }
    }
}

pub open spec fn store_token_error_text() -> Seq<char> {
    "A database error occurred while trying to store a subscription token"@
}

/// A failure to store a confirmation token, caused by a storage failure.
#[derive(PartialEq, Eq, Structural, Clone, Copy, Debug)]
pub struct StoreTokenError(pub StoreError);

impl StoreTokenError {
    pub fn message(&self) -> (r: String)
        ensures
            r@ == store_token_error_text(),
    {
        String::from_str("A database error occurred while trying to store a subscription token")
    }

    /// The storage failure behind this one.
    pub fn source(&self) -> (r: StoreError)
        ensures
            r == self.0,
    {
        self.0
    }

    /// This error followed by its causes.
    pub fn describe(&self) -> (r: String)
        ensures
            r@ == chain_text(store_token_error_text(), seq![store_error_text(self.0)]),
    {
        let mut causes: Vec<String> = Vec::new();
        causes.push(self.0.message());
        let m = self.message();
        let r = error_chain_fmt(m.as_str(), &causes);
        assert(texts(causes@) == seq![store_error_text(self.0)]);
        r
    }
}

/// The step of the subscription workflow at which an unexpected failure
/// happened.
#[derive(PartialEq, Eq, Structural, Clone, Copy, Debug)]
pub enum FailureOrigin {
    InsertSubscriber,
    StoreToken,
    Commit,
    SendEmail,
}

pub open spec fn origin_text(o: FailureOrigin) -> Seq<char> {
    match o {
        FailureOrigin::InsertSubscriber => "Failed to insert new subscriber"@,
        FailureOrigin::StoreToken => "Failed to store confirmation token for new subscriber"@,
        FailureOrigin::Commit => "Failed to commit SQL transaction to store a new subscriber"@,
        FailureOrigin::SendEmail => "Failed to send confirmation email"@,
    }
}

impl FailureOrigin {
    /// What was being done when the failure happened.
    pub fn context(&self) -> (r: String)
        ensures
            r@ == origin_text(*self),
    {
        match self {
            FailureOrigin::InsertSubscriber => String::from_str("Failed to insert new subscriber"),
            FailureOrigin::StoreToken => String::from_str(
                "Failed to store confirmation token for new subscriber",
            ),
            FailureOrigin::Commit => String::from_str(
                "Failed to commit SQL transaction to store a new subscriber",
            ),
            FailureOrigin::SendEmail => String::from_str("Failed to send confirmation email"),
        }
    }
}

/// An unexpected failure: where it happened and the messages of its causes,
/// outermost first.
#[derive(Debug)]
pub struct Failure {
    pub origin: FailureOrigin,
    pub causes: Vec<String>,
}

/// What a subscription attempt can fail with, as a value.
pub ghost enum SubscribeFailure {
    Rejected(Seq<char>),
    Failed(FailureOrigin, Seq<Seq<char>>),
}

/// The error of a subscription attempt.
#[derive(Debug)]
pub enum SubscribeError {
    /// The submitted name or email is malformed.
    ValidationError(String),
    /// Something failed after validation.
    UnexpectedError(Failure),
}

impl View for SubscribeError {
    type V = SubscribeFailure;

    open spec fn view(&self) -> SubscribeFailure {
        match self {
            SubscribeError::ValidationError(m) => SubscribeFailure::Rejected(m@),
            SubscribeError::UnexpectedError(f) => SubscribeFailure::Failed(
                f.origin,
                texts(f.causes@),
            ),
        }
    }
}

pub open spec fn failure_status(f: SubscribeFailure) -> u16 {
    match f {
        SubscribeFailure::Rejected(_) => 400,
        SubscribeFailure::Failed(_, _) => 500,
    }
}

pub open spec fn failure_message(f: SubscribeFailure) -> Seq<char> {
    match f {
        SubscribeFailure::Rejected(m) => m,
        SubscribeFailure::Failed(o, _) => origin_text(o),
    }
}

pub open spec fn failure_report(f: SubscribeFailure) -> Seq<char> {
    match f {
        SubscribeFailure::Rejected(m) => chain_text(m, Seq::empty()),
        SubscribeFailure::Failed(o, causes) => chain_text(origin_text(o), causes),
    }
}

impl SubscribeError {
    /// The HTTP status of the response: 400 for a rejection, 500 otherwise.
    pub fn status_code(&self) -> (r: u16)
        ensures
            r == failure_status(self@),
    {
        match self {
            SubscribeError::ValidationError(_) => 400,
            SubscribeError::UnexpectedError(_) => 500,
        }
    }

    /// The error's own message.
    pub fn message(&self) -> (r: String)
        ensures
            r@ == failure_message(self@),
    {
        match self {
            SubscribeError::ValidationError(m) => m.clone(),
            SubscribeError::UnexpectedError(f) => f.origin.context(),
        }
    }

    /// The error's message followed by the chain of its causes.
    pub fn describe(&self) -> (r: String)
        ensures
            r@ == failure_report(self@),
    {
        match self {
            SubscribeError::ValidationError(m) => {
                let none: Vec<String> = Vec::new();
                assert(texts(none@) == Seq::<Seq<char>>::empty());
                error_chain_fmt(m.as_str(), &none)
            },
            SubscribeError::UnexpectedError(f) => {
                let c = f.origin.context();
                error_chain_fmt(c.as_str(), &f.causes)
            },
        }
    }
}

} // verus!
