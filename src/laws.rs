//! Properties of the workflows that relate several steps or hold of every
//! input, stated over the models of `subscriptions` and `confirm`.

use vstd::prelude::*;
use crate::confirm::{ConfirmError, confirm_outcome};
use crate::domain::{
    NAME_MAX_LEN,
    email_split_at,
    is_blank,
    is_forbidden_char,
    valid_email,
    valid_name,
};
use crate::errors::SubscribeFailure;
use crate::store::{
    StoreModel,
    SubscriptionStatus,
    TokenRecord,
    confirm_model,
    has_email,
    has_id,
    has_token,
    id_of_email,
    lemma_add_subscriber_wf,
    lemma_add_token_wf,
    owner_of_token,
    subscriber_conflict,
    token_conflict,
    wf_model,
    with_subscriber,
    with_token,
};
use crate::subscriptions::{new_row, subscribe_model};

verus! {

/// In a well-formed store the token at index `i` is owned by the subscriber
/// that its row names.
pub proof fn lemma_owner_at(m: StoreModel, i: int)
    requires
        wf_model(m),
        0 <= i < m.tokens.len(),
    ensures
        owner_of_token(m.tokens, m.tokens[i].token) == Some(m.tokens[i].subscriber_id),
{
    let t = m.tokens[i].token;
    let k = choose|k: int| 0 <= k < m.tokens.len() && (#[trigger] m.tokens[k]).token == t;
    if k < i {
        assert(m.tokens[k].token != m.tokens[i].token);
    } else if k > i {
        assert(m.tokens[i].token != m.tokens[k].token);
    }
}

/// In a well-formed store the email at index `i` belongs to the identifier of
/// that row.
pub proof fn lemma_email_at(m: StoreModel, i: int)
    requires
        wf_model(m),
        0 <= i < m.subscribers.len(),
    ensures
        id_of_email(m.subscribers, m.subscribers[i].email) == Some(m.subscribers[i].id),
{
    let e = m.subscribers[i].email;
    let k = choose|k: int| 0 <= k < m.subscribers.len() && (#[trigger] m.subscribers[k]).email == e;
    if k < i {
        assert(m.subscribers[k].email != m.subscribers[i].email);
    } else if k > i {
        assert(m.subscribers[i].email != m.subscribers[k].email);
    }
}

/// A subscription attempt keeps the store well formed.
pub proof fn lemma_subscribe_model_wf(
    m: StoreModel,
    name: Seq<char>,
    email: Seq<char>,
    base_url: Seq<char>,
    id: u128,
    token: Seq<char>,
    now: i64,
)
    requires
        wf_model(m),
    ensures
        wf_model(subscribe_model(m, name, email, base_url, id, token, now).0),
{
    let (m2, r) = subscribe_model(m, name, email, base_url, id, token, now);
    if r is Ok {
        let m1 = if has_email(m.subscribers, email) {
            m
        } else {
            with_subscriber(m, new_row(id, email, name, now))
        };
        let sid = if has_email(m.subscribers, email) {
            id_of_email(m.subscribers, email)->0
        } else {
            id
        };
        if !has_email(m.subscribers, email) {
            lemma_add_subscriber_wf(m, new_row(id, email, name, now));
            assert(m1.subscribers[m.subscribers.len() as int].id == id);
        } else {
            let k = choose|k: int|
                0 <= k < m.subscribers.len() && (#[trigger] m.subscribers[k]).email == email;
            assert(m.subscribers[k].id == sid);
        }
        assert(has_id(m1.subscribers, sid));
        assert(has_token(m1.tokens, token) == has_token(m.tokens, token));
        assert(token_conflict(m1, TokenRecord { token, subscriber_id: sid }) is None);
        lemma_add_token_wf(m1, TokenRecord { token, subscriber_id: sid });
    }
}

/// After a successful subscription with a valid name and email, the store
/// holds a subscriber with that email whose status is pending confirmation,
/// unless that email had already been confirmed. The attempt succeeds
/// whenever the new identifier and the token are not taken.
pub proof fn subscribe_leaves_subscriber_pending(
    m: StoreModel,
    name: Seq<char>,
    email: Seq<char>,
    base_url: Seq<char>,
    id: u128,
    token: Seq<char>,
    now: i64,
)
    requires
        wf_model(m),
        valid_name(name),
        valid_email(email),
        forall|i: int|
            0 <= i < m.subscribers.len() && (#[trigger] m.subscribers[i]).email == email ==> m.subscribers[i].status
                != SubscriptionStatus::Confirmed,
    ensures
        ({
            let (m2, r) = subscribe_model(m, name, email, base_url, id, token, now);
            &&& (has_email(m.subscribers, email) || !has_id(m.subscribers, id)) && !has_token(
                m.tokens,
                token,
            ) ==> r is Ok
            &&& r is Ok ==> exists|i: int|
                0 <= i < m2.subscribers.len() && (#[trigger] m2.subscribers[i]).email == email
                    && m2.subscribers[i].status == SubscriptionStatus::PendingConfirmation
        }),
{
    let (m2, r) = subscribe_model(m, name, email, base_url, id, token, now);
    if r is Ok {
        if has_email(m.subscribers, email) {
            let k = choose|k: int|
                0 <= k < m.subscribers.len() && (#[trigger] m.subscribers[k]).email == email;
            assert(m2.subscribers[k] == m.subscribers[k]);
        } else {
            let k = m.subscribers.len() as int;
            assert(m2.subscribers[k] == new_row(id, email, name, now));
        }
    }
}

/// An email that is empty, has no `@`, or has no `.` after an `@`.
pub open spec fn malformed_email(s: Seq<char>) -> bool {
    ||| s.len() == 0
    ||| forall|i: int| 0 <= i < s.len() ==> #[trigger] s[i] != '@'
    ||| forall|i: int, j: int| 0 <= i < j < s.len() && #[trigger] s[i] == '@' ==> #[trigger] s[j] != '.'
}

/// A name that is empty, only whitespace, holds a forbidden character, or is
/// longer than `NAME_MAX_LEN`.
pub open spec fn malformed_name(s: Seq<char>) -> bool {
    ||| s.len() == 0
    ||| is_blank(s)
    ||| exists|i: int| 0 <= i < s.len() && is_forbidden_char(#[trigger] s[i])
    ||| s.len() > NAME_MAX_LEN
}

/// A malformed name or email is rejected as invalid, and the store is left
/// as it was: no subscriber row is created.
pub proof fn malformed_input_is_rejected(
    m: StoreModel,
    name: Seq<char>,
    email: Seq<char>,
    base_url: Seq<char>,
    id: u128,
    token: Seq<char>,
    now: i64,
)
    requires
        malformed_name(name) || malformed_email(email),
    ensures
        subscribe_model(m, name, email, base_url, id, token, now).0 == m,
        subscribe_model(m, name, email, base_url, id, token, now).1 matches Err(
            SubscribeFailure::Rejected(_),
        ),
{
    if malformed_email(email) && valid_email(email) {
        let at = choose|at: int| email_split_at(email, at);
        let d = choose|d: int| at + 1 < d < email.len() - 1 && #[trigger] email[d] == '.';
        assert(email[at] == '@');
    }
    assert(!valid_name(name) || !valid_email(email));
}

/// Subscribing twice with the same valid email, with two distinct tokens that
/// are not taken, succeeds both times and leaves exactly one subscriber row
/// with that email, and two token rows that both lead to it.
pub proof fn resubscribing_keeps_one_subscriber(
    m: StoreModel,
    name1: Seq<char>,
    name2: Seq<char>,
    email: Seq<char>,
    base_url: Seq<char>,
    id1: u128,
    id2: u128,
    token1: Seq<char>,
    token2: Seq<char>,
    now1: i64,
    now2: i64,
)
    requires
        wf_model(m),
        valid_name(name1),
        valid_name(name2),
        valid_email(email),
        has_email(m.subscribers, email) || !has_id(m.subscribers, id1),
        !has_token(m.tokens, token1),
        !has_token(m.tokens, token2),
        token1 != token2,
    ensures
        ({
            let (m1, r1) = subscribe_model(m, name1, email, base_url, id1, token1, now1);
            let (m2, r2) = subscribe_model(m1, name2, email, base_url, id2, token2, now2);
            &&& r1 is Ok
            &&& r2 is Ok
            &&& has_email(m2.subscribers, email)
            &&& forall|i: int, j: int|
                0 <= i < m2.subscribers.len() && 0 <= j < m2.subscribers.len()
                    && (#[trigger] m2.subscribers[i]).email == email
                    && (#[trigger] m2.subscribers[j]).email == email ==> i == j
            &&& m2.subscribers.len() == m1.subscribers.len()
            &&& m2.tokens.len() == m.tokens.len() + 2
            &&& owner_of_token(m2.tokens, token1) == id_of_email(m2.subscribers, email)
            &&& owner_of_token(m2.tokens, token2) == id_of_email(m2.subscribers, email)
            &&& id_of_email(m2.subscribers, email) is Some
        }),
{
    let (m1, r1) = subscribe_model(m, name1, email, base_url, id1, token1, now1);
    lemma_subscribe_model_wf(m, name1, email, base_url, id1, token1, now1);
    assert(has_email(m1.subscribers, email)) by {
        if has_email(m.subscribers, email) {
            let k = choose|k: int|
                0 <= k < m.subscribers.len() && (#[trigger] m.subscribers[k]).email == email;
            assert(m1.subscribers[k] == m.subscribers[k]);
        } else {
            assert(m1.subscribers[m.subscribers.len() as int].email == email);
        }
    }
    let n = m.tokens.len() as int;
    assert(m1.tokens.len() == n + 1);
    assert(m1.tokens[n].token == token1);
    assert(!has_token(m1.tokens, token2)) by {
        assert forall|i: int| 0 <= i < m1.tokens.len() implies (#[trigger] m1.tokens[i]).token
            != token2 by {
            if i < n {
                assert(m1.tokens[i] == m.tokens[i]);
            }
        }
    }
    let (m2, r2) = subscribe_model(m1, name2, email, base_url, id2, token2, now2);
    lemma_subscribe_model_wf(m1, name2, email, base_url, id2, token2, now2);
    assert(m2.subscribers == m1.subscribers);
    let k = choose|k: int| 0 <= k < m1.subscribers.len() && (#[trigger] m1.subscribers[k]).email == email;
    lemma_email_at(m1, k);
    lemma_email_at(m2, k);
    let sid = m1.subscribers[k].id;
    assert(m2.tokens[n + 1] == TokenRecord { token: token2, subscriber_id: sid });
    assert(m2.tokens[n] == m1.tokens[n]);
    assert(m1.tokens[n].subscriber_id == sid) by {
        if !has_email(m.subscribers, email) {
            assert(m1.subscribers[m.subscribers.len() as int].email == email);
            lemma_email_at(m1, m.subscribers.len() as int);
        } else {
            let k0 = choose|k0: int|
                0 <= k0 < m.subscribers.len() && (#[trigger] m.subscribers[k0]).email == email;
            lemma_email_at(m, k0);
            assert(m1.subscribers[k0] == m.subscribers[k0]);
            lemma_email_at(m1, k0);
        }
    }
    lemma_owner_at(m2, n);
    lemma_owner_at(m2, n + 1);
    assert forall|i: int, j: int|
        0 <= i < m2.subscribers.len() && 0 <= j < m2.subscribers.len()
            && (#[trigger] m2.subscribers[i]).email == email
            && (#[trigger] m2.subscribers[j]).email == email implies i == j by {
        if i < j {
            assert(m2.subscribers[i].email != m2.subscribers[j].email);
        } else if j < i {
            assert(m2.subscribers[j].email != m2.subscribers[i].email);
        }
    }
}

/// Confirming with an existing token succeeds, marks the subscriber it names
/// as confirmed, and keeps the store well formed; confirming again with the
/// same token succeeds with the same subscriber and changes nothing.
pub proof fn confirming_is_idempotent(m: StoreModel, token: Seq<char>)
    requires
        wf_model(m),
        has_token(m.tokens, token),
    ensures
        ({
            let (m1, r1) = confirm_outcome(m, Some(token));
            let (m2, r2) = confirm_outcome(m1, Some(token));
            &&& r1 is Ok
            &&& wf_model(m1)
            &&& exists|i: int|
                0 <= i < m1.subscribers.len() && (#[trigger] m1.subscribers[i]).id == r1->Ok_0
                    && m1.subscribers[i].status == SubscriptionStatus::Confirmed
            &&& r2 == r1
            &&& m2 == m1
        }),
{
    let id = owner_of_token(m.tokens, token)->0;
    let m1 = confirm_model(m, id);
    let i = choose|i: int| 0 <= i < m.tokens.len() && (#[trigger] m.tokens[i]).token == token;
    assert(has_id(m.subscribers, m.tokens[i].subscriber_id));
    let w = choose|w: int|
        0 <= w < m.subscribers.len() && (#[trigger] m.subscribers[w]).id == m.tokens[i].subscriber_id;
    assert(m1.subscribers[w].id == id && m1.subscribers[w].status == SubscriptionStatus::Confirmed);
    assert(wf_model(m1)) by {
        assert forall|k: int| 0 <= k < m1.tokens.len() implies has_id(
            m1.subscribers,
            (#[trigger] m1.tokens[k]).subscriber_id,
        ) by {
            let v = choose|v: int|
                0 <= v < m.subscribers.len() && (#[trigger] m.subscribers[v]).id
                    == m.tokens[k].subscriber_id;
            assert(m1.subscribers[v].id == m.subscribers[v].id);
        }
    }
    assert(confirm_model(m1, id).subscribers =~= m1.subscribers);
}

/// Confirming without a token, or with one that no token row holds, is
/// refused as the client's fault and leaves the store as it was.
pub proof fn unknown_token_changes_nothing(m: StoreModel, token: Option<Seq<char>>)
    requires
        token matches Some(t) ==> !has_token(m.tokens, t),
    ensures
        confirm_outcome(m, token).0 == m,
        confirm_outcome(m, token).1 matches Err(e) && (e == ConfirmError::MissingToken || e
            == ConfirmError::UnknownToken),
{
}

} // verus!
