//! The confirmation handler: redeem a token and mark its subscriber as
//! confirmed.

use vstd::prelude::*;
use vstd::string::*;
use crate::store::{StoreModel, SubscriptionStore, confirm_model, owner_of_token};

verus! {

/// Why a confirmation was refused. Both are the client's fault.
#[derive(PartialEq, Eq, Structural, Clone, Copy, Debug)]
pub enum ConfirmError {
    /// The request carries no token.
    MissingToken,
    /// No token row holds the given token.
    UnknownToken,
}

impl ConfirmError {
    /// The HTTP status of the response.
    pub fn status_code(&self) -> (r: u16)
        ensures
            r == 400,
    {
        400
    }

    pub fn message(&self) -> (r: String)
        ensures
            *self == ConfirmError::MissingToken ==> r@ == "The confirmation request carries no subscription token"@,
            *self == ConfirmError::UnknownToken ==> r@ == "No subscriber holds this subscription token"@,
    {
        match self {
            ConfirmError::MissingToken => String::from_str(
                "The confirmation request carries no subscription token",
            ),
            ConfirmError::UnknownToken => String::from_str(
                "No subscriber holds this subscription token",
            ),
        }
    }
}

pub open spec fn token_view(t: Option<String>) -> Option<Seq<char>> {
    match t {
        Some(s) => Some(s@),
        None => None,
    }
}

/// What redeeming a token does: the store afterwards, and the identifier of
/// the confirmed subscriber or the refusal.
pub open spec fn confirm_outcome(m: StoreModel, token: Option<Seq<char>>) -> (
    StoreModel,
    Result<u128, ConfirmError>,
) {
    match token {
        None => (m, Err(ConfirmError::MissingToken)),
        Some(t) => match owner_of_token(m.tokens, t) {
            None => (m, Err(ConfirmError::UnknownToken)),
            Some(id) => (confirm_model(m, id), Ok(id)),
        },
    }
}

/// The identifier of the subscriber that the token refers to, if the token
/// exists.
pub fn get_subscriber_id_from_token(store: &SubscriptionStore, subscription_token: &String) -> (r:
    Option<u128>)
    requires
        store.wf(),
    ensures
        r == owner_of_token(store@.tokens, subscription_token@),
{
    store.find_subscriber_id_by_token(subscription_token)
}

/// Redeems a confirmation token.
pub fn confirm(store: &mut SubscriptionStore, subscription_token: Option<String>) -> (r: Result<
    u128,
    ConfirmError,
>)
    requires
        old(store).wf(),
    ensures
        final(store).wf(),
        (final(store)@, r) == confirm_outcome(old(store)@, token_view(subscription_token)),
{
    let token = match subscription_token {
        Some(t) => t,
        None => {
            return Err(ConfirmError::MissingToken);
        },
    };
    match get_subscriber_id_from_token(store, &token) {
        Some(id) => {
            store.set_subscriber_confirmed(id);
            Ok(id)
        },
        None => Err(ConfirmError::UnknownToken),
    }
}

} // verus!
