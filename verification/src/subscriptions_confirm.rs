//! The confirm workflow: the use case behind the confirmation link.
//!
//! The token from the link's query is looked up; its owner — and only
//! its owner — becomes confirmed, finally and irreversibly. A token
//! that was never issued is refused without touching any state, and
//! confirming the same token again succeeds without changing anything.

use vstd::prelude::*;

use crate::store::StoreModel;
use crate::store::SubscriptionStore;
use crate::store::lemma_token_owner_unique;
use crate::subscriptions::subscribe_result;
use crate::subscriptions::lemma_subscribe_creates_pending;

verus! {

/// The query parameters of a confirmation request.
pub struct Parameters {
    pub subscription_token: String,
}

/// Why a confirm call failed.
#[derive(Clone, Copy, PartialEq, Eq, Structural, Debug)]
pub enum ConfirmationError {
    /// The token was never issued: no subscriber is associated with it.
    UnknownToken,
    /// The status update was refused by the store. The in-memory store
    /// never refuses it; an embedding durable store may.
    PersistenceFailed,
}

impl ConfirmationError {
    /// The HTTP status the confirm endpoint answers with: an unknown
    /// token is a 401, a store failure a 500.
    pub fn status_code(&self) -> (r: u16)
        ensures
            r == (if *self is UnknownToken {
                401u16
            } else {
                500u16
            }),
    {
        match self {
            ConfirmationError::UnknownToken => 401,
            ConfirmationError::PersistenceFailed => 500,
        }
    }
}

/// The confirm workflow: succeeds exactly when the token was issued,
/// and then the token's owner — and nothing else — is marked
/// confirmed. An unknown token reports `UnknownToken` and mutates
/// nothing.
pub fn confirm(store: &mut SubscriptionStore, params: &Parameters) -> (r: Result<
    (),
    ConfirmationError,
>)
    requires
        old(store)@.wf(),
    ensures
        final(store)@.wf(),
        r is Ok <==> old(store)@.has_token(params.subscription_token@),
        r is Ok ==> final(store)@ == old(store)@.confirm(
            old(store)@.token_owner(params.subscription_token@),
        ),
        r is Err ==> final(store)@ == old(store)@ && r->Err_0
            == ConfirmationError::UnknownToken,
{
    let maybe_id = store.find_subscriber_id_by_token(&params.subscription_token);
    match maybe_id {
        None => Err(ConfirmationError::UnknownToken),
        Some(subscriber_id) => {
            proof {
                lemma_token_owner_unique(store@, params.subscription_token@, subscriber_id);
            }
            match store.mark_confirmed(subscriber_id) {
                Ok(()) => Ok(()),
                Err(_) => Err(ConfirmationError::PersistenceFailed),
            }
        },
    }
}

/// What marking a subscriber confirmed does to a well-formed store:
/// that subscriber reads back confirmed, every other row — and every
/// token — is exactly as before.
pub proof fn lemma_confirm_effect(m: StoreModel, id: u128)
    requires
        m.wf(),
        m.has_subscriber(id),
    ensures
        ({
            let c = m.confirm(id);
            &&& c.has_subscriber(id)
            &&& c.status_of(id) is Confirmed
            &&& forall|j: int|
                0 <= j < m.subscribers.len() && (#[trigger] m.subscribers[j]).id != id
                    ==> c.subscribers[j] == m.subscribers[j]
            &&& c.tokens == m.tokens
        }),
{
    let c = m.confirm(id);
    let w = m.subscriber_index(id);
    assert(c.subscribers[w].id == id);
    assert(c.has_subscriber(id));
    let i = c.subscriber_index(id);
    assert(c.subscribers[i].id == id);
    assert(m.subscribers[i].id == id);
    assert(c.subscribers[i].status is Confirmed);
}

/// The round trip the confirmation link closes: after a subscribe call
/// commits, confirming the very token it issued confirms the very
/// subscriber it created — and no other row of the store moves.
pub proof fn lemma_subscribe_round_trip(
    m: StoreModel,
    id: u128,
    email: Seq<char>,
    name: Seq<char>,
    subscribed_at: i64,
    token: Seq<char>,
)
    requires
        m.wf(),
        !m.has_subscriber(id),
        !m.has_token(token),
    ensures
        ({
            let m1 = subscribe_result(m, id, email, name, subscribed_at, token);
            let m2 = m1.confirm(m1.token_owner(token));
            &&& m1.has_token(token)
            &&& m1.token_owner(token) == id
            &&& m2.status_of(id) is Confirmed
            &&& forall|j: int|
                0 <= j < m1.subscribers.len() && (#[trigger] m1.subscribers[j]).id != id
                    ==> m2.subscribers[j] == m1.subscribers[j]
            &&& m2.tokens == m1.tokens
        }),
{
    lemma_subscribe_creates_pending(m, id, email, name, subscribed_at, token);
    let m1 = subscribe_result(m, id, email, name, subscribed_at, token);
    lemma_confirm_effect(m1, id);
}

/// Confirming the same token twice is idempotent: the token stays
/// known with the same owner, the second confirmation succeeds just
/// like the first, and it changes nothing at all.
pub proof fn lemma_confirm_idempotent(m: StoreModel, token: Seq<char>)
    requires
        m.wf(),
        m.has_token(token),
    ensures
        ({
            let owner = m.token_owner(token);
            let m1 = m.confirm(owner);
            &&& m1.has_token(token)
            &&& m1.token_owner(token) == owner
            &&& m1.confirm(owner) == m1
        }),
{
    let owner = m.token_owner(token);
    let m1 = m.confirm(owner);
    assert(m1.tokens == m.tokens);
    let m2 = m1.confirm(owner);
    assert forall|i: int| 0 <= i < m1.subscribers.len() implies m2.subscribers[i]
        == m1.subscribers[i] by {
        if m1.subscribers[i].id == owner {
            assert(m.subscribers[i].id == owner);
            assert(m1.subscribers[i].status is Confirmed);
            assert(m2.subscribers[i] =~= m1.subscribers[i]);
        }
    }
    assert(m2.subscribers =~= m1.subscribers);
    assert(m2 =~= m1);
}

} // verus!
