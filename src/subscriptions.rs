//! The subscription workflow: validate the form, find or insert the
//! subscriber and store a fresh token in one transaction, commit, and hand
//! back the confirmation email to deliver.

use vstd::prelude::*;
use vstd::string::*;
use crate::domain::{FormData, NewSubscriber, form_rejection};
use crate::email::{ConfirmationEmail, EmailModel, confirmation_email, confirmation_email_model};
use crate::errors::{
    Failure,
    FailureOrigin,
    StoreError,
    StoreTokenError,
    SubscribeError,
    SubscribeFailure,
    store_error_text,
    store_token_error_text,
};
use crate::store::{
    ConfirmationToken,
    StoreModel,
    Subscriber,
    SubscriberRecord,
    SubscriptionStatus,
    SubscriptionStore,
    TokenRecord,
    Transaction,
    apply_subscribers,
    apply_tokens,
    combined,
    commit_model,
    has_email,
    has_id,
    has_token,
    id_of_email,
    subscriber_conflict,
    token_conflict,
    with_subscriber,
    with_token,
    wf_model,
};
use crate::token::{generate_subscription_token, is_token};

verus! {

/// Relies on uuid's `Uuid::new_v4`, read back with `Uuid::as_u128`: a random
/// identifier whose version field is 4 and whose variant bits are `10`.
#[verifier::external_body]
fn new_subscriber_id() -> (r: u128)
    ensures
        r & 0xf000_c000_0000_0000_0000u128 == 0x4000_8000_0000_0000_0000u128,
{
    uuid::Uuid::new_v4().as_u128()
}

/// Relies on chrono's `Utc::now`, read with `DateTime::timestamp` as whole
/// seconds since the Unix epoch.
#[verifier::external_body]
fn now_timestamp() -> (r: i64) {
    chrono::Utc::now().timestamp()
}

/// The row of a new, pending subscriber.
pub open spec fn new_row(
    id: u128,
    email: Seq<char>,
    name: Seq<char>,
    now: i64,
) -> SubscriberRecord {
    SubscriberRecord {
        id,
        email,
        name,
        status: SubscriptionStatus::PendingConfirmation,
        subscribed_at: now,
    }
}

/// What a subscription attempt does, given the identifier it would give a
/// new subscriber, the token it issues and the time: the store afterwards
/// and the email to deliver, or the failure.
pub open spec fn subscribe_model(
    m: StoreModel,
    name: Seq<char>,
    email: Seq<char>,
    base_url: Seq<char>,
    id: u128,
    token: Seq<char>,
    now: i64,
) -> (StoreModel, Result<EmailModel, SubscribeFailure>) {
    if let Some(msg) = form_rejection(name, email) {
        (m, Err(SubscribeFailure::Rejected(msg)))
    } else if !has_email(m.subscribers, email) && has_id(m.subscribers, id) {
        (
            m,
            Err(
                SubscribeFailure::Failed(
                    FailureOrigin::InsertSubscriber,
                    seq![store_error_text(StoreError::DuplicateSubscriberId)],
                ),
            ),
        )
    } else if has_token(m.tokens, token) {
        (
            m,
            Err(
                SubscribeFailure::Failed(
                    FailureOrigin::StoreToken,
                    seq![store_token_error_text(), store_error_text(StoreError::DuplicateToken)],
                ),
            ),
        )
    } else {
        let m1 = if has_email(m.subscribers, email) {
            m
        } else {
            with_subscriber(m, new_row(id, email, name, now))
        };
        let sid = if has_email(m.subscribers, email) {
            id_of_email(m.subscribers, email)->0
        } else {
            id
        };
        (
            with_token(m1, TokenRecord { token, subscriber_id: sid }),
            Ok(confirmation_email_model(email, base_url, token)),
        )
    }
}

pub open spec fn outcome_view(r: Result<ConfirmationEmail, SubscribeError>) -> Result<
    EmailModel,
    SubscribeFailure,
> {
    match r {
        Ok(e) => Ok(e@),
        Err(e) => Err(e@),
    }
}

/// The identifier of the subscriber with the new subscriber's email, as the
/// transaction sees the store.
pub fn get_subscriber_id_from_email(
    store: &SubscriptionStore,
    transaction: &Transaction,
    new_subscriber: &NewSubscriber,
) -> (r: Option<u128>)
    requires
        wf_model(combined(store@, transaction@)),
    ensures
        r == id_of_email(combined(store@, transaction@).subscribers, new_subscriber.email@),
{
    let email = String::from_str(new_subscriber.email.as_str());
    transaction.find_subscriber_id_by_email(store, &email)
}

/// Stages a pending subscriber row with identifier `id`, inserted at `now`.
pub fn insert_subscriber(
    store: &SubscriptionStore,
    transaction: &mut Transaction,
    new_subscriber: &NewSubscriber,
    id: u128,
    now: i64,
) -> (r: Result<u128, StoreError>)
    ensures
        ({
            let row = new_row(id, new_subscriber.email@, new_subscriber.name@, now);
            match subscriber_conflict(combined(store@, old(transaction)@), row) {
                Some(e) => r == Err::<u128, StoreError>(e) && final(transaction)@ == old(
                    transaction,
                )@,
                None => r == Ok::<u128, StoreError>(id) && final(transaction)@ == with_subscriber(
                    old(transaction)@,
                    row,
                ),
            }
        }),
{
    let row = Subscriber {
        id,
        email: String::from_str(new_subscriber.email.as_str()),
        name: String::from_str(new_subscriber.name.as_str()),
        status: SubscriptionStatus::PendingConfirmation,
        subscribed_at: now,
    };
    match transaction.insert_subscriber_row(store, row) {
        Ok(()) => Ok(id),
        Err(e) => Err(e),
    }
}

/// Stages a token row that refers to `subscriber_id`.
pub fn store_token(
    store: &SubscriptionStore,
    transaction: &mut Transaction,
    subscriber_id: u128,
    subscription_token: &str,
) -> (r: Result<(), StoreTokenError>)
    ensures
        ({
            let t = TokenRecord { token: subscription_token@, subscriber_id };
            match token_conflict(combined(store@, old(transaction)@), t) {
                Some(e) => r == Err::<(), StoreTokenError>(StoreTokenError(e))
                    && final(transaction)@ == old(transaction)@,
                None => r is Ok && final(transaction)@ == with_token(old(transaction)@, t),
            }
        }),
{
    let row = ConfirmationToken { token: String::from_str(subscription_token), subscriber_id };
    match transaction.insert_token_row(store, row) {
        Ok(()) => Ok(()),
        Err(e) => Err(StoreTokenError(e)),
    }
}

fn unexpected(origin: FailureOrigin, causes: Vec<String>) -> (r: SubscribeError)
    ensures
        r == SubscribeError::UnexpectedError(Failure { origin, causes }),
{
    SubscribeError::UnexpectedError(Failure { origin, causes })
}

/// Runs a subscription attempt with the given new-subscriber identifier,
/// token and time; see `subscribe_model`.
pub fn subscribe_with(
    store: &mut SubscriptionStore,
    form: FormData,
    base_url: &str,
    id: u128,
    token: &str,
    now: i64,
) -> (r: Result<ConfirmationEmail, SubscribeError>)
    requires
        old(store).wf(),
    ensures
        final(store).wf(),
        (final(store)@, outcome_view(r)) == subscribe_model(
            old(store)@,
            form.name@,
            form.email@,
            base_url@,
            id,
            token@,
            now,
        ),
{
    let ghost m = store@;
    let ghost name = form.name@;
    let ghost email = form.email@;
    let new_subscriber = match NewSubscriber::try_from(form) {
        Ok(n) => n,
        Err(msg) => {
            return Err(SubscribeError::ValidationError(msg));
        },
    };
    let mut transaction = store.begin();
    proof {
        assert(combined(m, transaction@) == m);
    }
    let existing = get_subscriber_id_from_email(store, &transaction, &new_subscriber);
    let subscriber_id = match existing {
        Some(i) => i,
        None => match insert_subscriber(store, &mut transaction, &new_subscriber, id, now) {
            Ok(i) => i,
            Err(e) => {
                let mut causes: Vec<String> = Vec::new();
                causes.push(e.message());
                assert(crate::errors::texts(causes@) == seq![store_error_text(e)]);
                return Err(unexpected(FailureOrigin::InsertSubscriber, causes));
            },
        },
    };
    let ghost staged = transaction@;
    let ghost row = new_row(id, email, name, now);
    proof {
        if existing is None {
            assert(staged.subscribers == seq![row]);
            assert(combined(m, staged) == with_subscriber(m, row));
        } else {
            assert(combined(m, staged) == m);
        }
        assert(has_id(combined(m, staged).subscribers, subscriber_id)) by {
            if existing is Some {
                let k = choose|k: int|
                    0 <= k < m.subscribers.len() && (#[trigger] m.subscribers[k]).email == email;
                assert(m.subscribers[k].id == subscriber_id);
            } else {
                assert(combined(m, staged).subscribers[m.subscribers.len() as int] == row);
            }
        }
        assert(has_token(combined(m, staged).tokens, token@) == has_token(m.tokens, token@));
    }
    match store_token(store, &mut transaction, subscriber_id, token) {
        Ok(()) => {},
        Err(e) => {
            let mut causes: Vec<String> = Vec::new();
            causes.push(e.message());
            causes.push(e.0.message());
            assert(crate::errors::texts(causes@) == seq![
                store_token_error_text(),
                store_error_text(e.0),
            ]);
            return Err(unexpected(FailureOrigin::StoreToken, causes));
        },
    }
    let ghost trow = TokenRecord { token: token@, subscriber_id };
    proof {
        let staged2 = transaction@;
        let m1 = combined(m, staged);
        assert(staged2.tokens == seq![trow]);
        assert(staged2.subscribers == staged.subscribers);
        assert(token_conflict(m1, trow) is None);
        assert(seq![trow].drop_last() == Seq::<TokenRecord>::empty());
        assert(apply_tokens(m1, Seq::<TokenRecord>::empty()) == Ok::<StoreModel, StoreError>(m1));
        assert(apply_tokens(m1, staged2.tokens) == Ok::<StoreModel, StoreError>(
            with_token(m1, trow),
        ));
        if existing is None {
            assert(seq![row].drop_last() == Seq::<SubscriberRecord>::empty());
            assert(apply_subscribers(m, Seq::<SubscriberRecord>::empty()) == Ok::<
                StoreModel,
                StoreError,
            >(m));
            assert(apply_subscribers(m, staged2.subscribers) == Ok::<StoreModel, StoreError>(m1));
        } else {
            assert(staged2.subscribers == Seq::<SubscriberRecord>::empty());
            assert(apply_subscribers(m, staged2.subscribers) == Ok::<StoreModel, StoreError>(m));
        }
        assert(commit_model(m, staged2) == Ok::<StoreModel, StoreError>(with_token(m1, trow)));
    }
    match transaction.commit(store) {
        Ok(()) => {},
        Err(e) => {
            let mut causes: Vec<String> = Vec::new();
            causes.push(e.message());
            assert(crate::errors::texts(causes@) == seq![store_error_text(e)]);
            return Err(unexpected(FailureOrigin::Commit, causes));
        },
    }
    Ok(confirmation_email(new_subscriber.email.as_str(), base_url, token))
}

/// Runs a subscription attempt with a fresh identifier, a fresh random token
/// and the current time.
pub fn subscribe(store: &mut SubscriptionStore, form: FormData, base_url: &str) -> (r: Result<
    ConfirmationEmail,
    SubscribeError,
>)
    requires
        old(store).wf(),
    ensures
        final(store).wf(),
        exists|id: u128, token: Seq<char>, now: i64|
            is_token(token) && (final(store)@, outcome_view(r)) == #[trigger] subscribe_model(
                old(store)@,
                form.name@,
                form.email@,
                base_url@,
                id,
                token,
                now,
            ),
        form_rejection(form.name@, form.email@) matches Some(msg) ==> final(store)@ == old(
            store,
        )@ && outcome_view(r) == Err::<EmailModel, SubscribeFailure>(
            SubscribeFailure::Rejected(msg),
        ),
{
    let id = new_subscriber_id();
    let token = generate_subscription_token();
    let now = now_timestamp();
    let ghost name = form.name@;
    let ghost email = form.email@;
    let r = subscribe_with(store, form, base_url, id, token.as_str(), now);
    assert(is_token(token@));
    r
}

/// The outcome of delivering the confirmation email: success, or an
/// unexpected failure that carries the delivery error's message.
pub fn confirmation_sent(sent: Result<(), String>) -> (r: Result<(), SubscribeError>)
    ensures
        sent is Ok ==> r is Ok,
        sent matches Err(m) ==> (r matches Err(e) && e@ == SubscribeFailure::Failed(
            FailureOrigin::SendEmail,
            seq![m@],
        )),
{
    match sent {
        Ok(()) => Ok(()),
        Err(m) => {
            let ghost mv = m@;
            let mut causes: Vec<String> = Vec::new();
            causes.push(m);
            assert(crate::errors::texts(causes@) == seq![mv]);
            Err(unexpected(FailureOrigin::SendEmail, causes))
        },
    }
}

} // verus!
