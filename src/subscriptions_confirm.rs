//! Redeeming a confirmation token.
use vstd::prelude::*;
use crate::text::opt_text;
use crate::models::SubscriptionStatus;
use crate::store::{
    has_id, lemma_confirm_wf, store_wf, token_owner, with_confirmed, StoreView, SubscriptionStore,
};

verus! {

/// Why a confirmation failed.
#[derive(PartialEq, Eq, Structural, Clone, Copy, Debug)]
pub enum ConfirmError {
    /// The request carries no token: answered with 400.
    MissingToken,
    /// No subscriber has the token: answered with 401.
    UnknownToken,
    /// The store failed: answered with 500.
    UnexpectedError,
}

impl ConfirmError {
    pub open spec fn spec_status_code(self) -> u16 {
        match self {
            ConfirmError::MissingToken => 400,
            ConfirmError::UnknownToken => 401,
            ConfirmError::UnexpectedError => 500,
        }
    }

    /// The HTTP status that answers the request.
    pub fn status_code(&self) -> (r: u16)
        ensures
            r == self.spec_status_code(),
    {
        match self {
            ConfirmError::MissingToken => 400,
            ConfirmError::UnknownToken => 401,
            ConfirmError::UnexpectedError => 500,
        }
    }
}

/// A request without a token is refused before any lookup.
pub fn require_token(token: Option<&str>) -> (r: Result<&str, ConfirmError>)
    ensures
        match token {
            None => r == Err::<&str, ConfirmError>(ConfirmError::MissingToken),
            Some(t) => r == Ok::<&str, ConfirmError>(t),
        },
{
    match token {
        None => Err(ConfirmError::MissingToken),
        Some(t) => Ok(t),
    }
}

/// The subscriber to confirm, given what the lookup of the token found.
pub fn resolve_token(found: Option<u128>) -> (r: Result<u128, ConfirmError>)
    ensures
        match found {
            None => r == Err::<u128, ConfirmError>(ConfirmError::UnknownToken),
            Some(id) => r == Ok::<u128, ConfirmError>(id),
        },
{
    match found {
        None => Err(ConfirmError::UnknownToken),
        Some(id) => Ok(id),
    }
}

/// The store after a confirmation request, and its answer.
pub open spec fn confirm_outcome(v: StoreView, token: Option<Seq<char>>) -> (
    StoreView,
    Result<(), ConfirmError>,
) {
    match token {
        None => (v, Err(ConfirmError::MissingToken)),
        Some(t) => match token_owner(v, t) {
            None => (v, Err(ConfirmError::UnknownToken)),
            Some(id) => (with_confirmed(v, id), Ok(())),
        },
    }
}

/// Confirms the subscriber that the token refers to. Confirming again is no
/// error and changes nothing.
pub fn confirm(store: &mut SubscriptionStore, token: Option<&str>) -> (r: Result<(), ConfirmError>)
    requires
        old(store).wf(),
    ensures
        final(store).wf(),
        (final(store)@, r) == confirm_outcome(old(store)@, opt_text(token)),
{
    let t = match require_token(token) {
        Ok(t) => t,
        Err(e) => {
            return Err(e);
        },
    };
    let id = match resolve_token(store.find_subscriber_id_by_token(t)) {
        Ok(id) => id,
        Err(e) => {
            return Err(e);
        },
    };
    store.set_subscriber_confirmed(id);
    Ok(())
}

/// Redeeming a token that the store holds confirms its subscriber; redeeming
/// it again succeeds too, changes nothing, and leaves the subscriber
/// confirmed.
pub proof fn confirming_twice_is_idempotent(v: StoreView, token: Seq<char>)
    requires
        store_wf(v),
        token_owner(v, token) is Some,
    ensures
        ({
            let (once, first) = confirm_outcome(v, Some(token));
            let (twice, second) = confirm_outcome(once, Some(token));
            let id = token_owner(v, token)->0;
            &&& first is Ok
            &&& second is Ok
            &&& twice == once
            &&& store_wf(once)
            &&& exists|i: int|
                0 <= i < once.subscriptions.len() && #[trigger] once.subscriptions[i].id == id
                    && once.subscriptions[i].status == SubscriptionStatus::Confirmed
        }),
{
    let id = token_owner(v, token)->0;
    let once = with_confirmed(v, id);
    lemma_confirm_wf(v, id);
    assert(token_owner(once, token) == token_owner(v, token));
    let twice = with_confirmed(once, id);
    assert(twice.subscriptions =~= once.subscriptions);
    let i = choose|i: int| 0 <= i < v.tokens.len() && #[trigger] v.tokens[i].0 == token;
    assert(has_id(v, v.tokens[i].1));
    let k = choose|k: int| 0 <= k < v.subscriptions.len() && #[trigger] v.subscriptions[k].id == id;
    assert(once.subscriptions[k].id == id);
}

} // verus!
