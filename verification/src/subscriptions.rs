//! The subscribe workflow: the use case behind `POST /subscriptions`.
//!
//! A raw form is validated, a fresh subscriber is persisted as pending
//! together with its confirmation token in one transaction, and only
//! after the commit is the confirmation email built for delivery. A
//! validation failure performs no store work at all; a failed delivery
//! never rolls the committed subscriber back.

use vstd::prelude::*;
use vstd::string::StringExecFns;

use crate::domain::NewSubscriber;
use crate::domain::subscriber_email::SubscriberEmail;
use crate::domain::subscriber_email::is_valid_email;
use crate::domain::subscriber_name::SubscriberName;
use crate::domain::subscriber_name::valid_subscriber_name;
use crate::email::DeliveryError;
use crate::email::EmailMessage;
use crate::email::EmailMessageModel;
use crate::store::StoreModel;
use crate::store::SubscriptionStore;
use crate::store::TokenModel;
use crate::store::pending_subscriber;
use crate::store::lemma_no_reference_no_tokens;
use crate::store::lemma_count_tokens_push;
use crate::store::lemma_commit_preserves_wf;
use crate::store::lemma_token_owner_unique;
use crate::store::commit_valid;
use crate::store::apply_transaction;

verus! {

/// The public base URL confirmation links are built against.
pub struct AppBaseUrl(pub String);

/// The raw subscribe form: both fields exactly as the visitor sent
/// them, before any validation.
pub struct FormData {
    pub name: String,
    pub email: String,
}

/// The mathematical image of a subscribe form.
#[verifier::ext_equal]
pub ghost struct FormModel {
    pub name: Seq<char>,
    pub email: Seq<char>,
}

impl View for FormData {
    type V = FormModel;

    open spec fn view(&self) -> FormModel {
        FormModel { name: self.name@, email: self.email@ }
    }
}

/// When a subscribe form passes both validators.
pub open spec fn subscribe_input_valid(f: FormModel) -> bool {
    &&& valid_subscriber_name(f.name)
    &&& is_valid_email(f.email)
}

impl NewSubscriber {
    /// Validates a raw form into a subscriber, name first: accepted
    /// exactly when both validators accept, reported with the first
    /// failing validator's message otherwise.
    pub fn parse(form: FormData) -> (r: Result<NewSubscriber, String>)
        ensures
            r is Ok <==> subscribe_input_valid(form@),
            r is Ok ==> r->Ok_0.name@ == form@.name && r->Ok_0.email@ == form@.email,
            r is Err && !valid_subscriber_name(form@.name) ==> r->Err_0@ == form@.name
                + " is not a valid subscriber name"@,
            r is Err && valid_subscriber_name(form@.name) ==> r->Err_0@ == form@.email
                + " is not a valid email"@,
    {
        let FormData { name, email } = form;
        let name = match SubscriberName::parse(name) {
            Ok(n) => n,
            Err(e) => {
                return Err(e);
            },
        };
        let email = match SubscriberEmail::parse(email) {
            Ok(e) => e,
            Err(e) => {
                return Err(e);
            },
        };
        Ok(NewSubscriber { email, name })
    }
}

/// Why a subscribe call failed, one variant per boundary of the
/// workflow.
#[derive(Clone, Copy, PartialEq, Eq, Structural, Debug)]
pub enum SubscribeError {
    /// The name or the email failed validation; nothing was persisted
    /// and nothing was sent.
    InvalidInput,
    /// No store transaction could be acquired. The in-memory store
    /// always grants one; an embedding durable store may not.
    StoreUnavailable,
    /// A store write or the commit was refused; the whole transaction
    /// rolled back.
    PersistenceFailed,
    /// The subscriber and token are durably committed, but the
    /// confirmation email could not be delivered.
    NotificationFailed,
}

impl SubscribeError {
    /// The HTTP status the subscribe endpoint answers with: a
    /// client-caused rejection is a 400, every infrastructure failure a
    /// 500.
    pub fn status_code(&self) -> (r: u16)
        ensures
            r == (if *self is InvalidInput {
                400u16
            } else {
                500u16
            }),
    {
        match self {
            SubscribeError::InvalidInput => 400,
            SubscribeError::StoreUnavailable => 500,
            SubscribeError::PersistenceFailed => 500,
            SubscribeError::NotificationFailed => 500,
        }
    }
}

/// The confirmation link a subscribe call mails out.
pub open spec fn confirmation_link(base_url: Seq<char>, token: Seq<char>) -> Seq<char> {
    base_url + "/subscriptions/confirm?subscription_token="@ + token
}

pub open spec fn confirmation_html_body(link: Seq<char>) -> Seq<char> {
    "Welcome to our newsletter!<br>Click <a href=\""@ + link
        + "\">here</a> to confirm your subscription."@
}

pub open spec fn confirmation_text_body(link: Seq<char>) -> Seq<char> {
    "Welcome to our newsletter!\nVisit "@ + link + " to confirm your subscription."@
}

/// The confirmation email in full: both bodies carry the identical
/// link.
pub open spec fn confirmation_email_model(
    recipient: Seq<char>,
    base_url: Seq<char>,
    token: Seq<char>,
) -> EmailMessageModel {
    EmailMessageModel {
        recipient,
        subject: "subject"@,
        html_body: confirmation_html_body(confirmation_link(base_url, token)),
        text_body: confirmation_text_body(confirmation_link(base_url, token)),
    }
}

/// Builds the confirmation email for a freshly subscribed recipient:
/// the link appears once in the HTML body and once, identically, in
/// the plain-text body.
pub fn build_confirmation_email(
    recipient: &SubscriberEmail,
    base_url: &str,
    token: &String,
) -> (m: EmailMessage)
    ensures
        m@ == confirmation_email_model(recipient@, base_url@, token@),
{
    let mut link = String::from_str(base_url);
    link.append("/subscriptions/confirm?subscription_token=");
    link.append(token.as_str());
    let mut html_body = String::from_str("Welcome to our newsletter!<br>Click <a href=\"");
    html_body.append(link.as_str());
    html_body.append("\">here</a> to confirm your subscription.");
    let mut text_body = String::from_str("Welcome to our newsletter!\nVisit ");
    text_body.append(link.as_str());
    text_body.append(" to confirm your subscription.");
    let msg = EmailMessage {
        recipient: recipient.as_str().to_owned(),
        subject: String::from_str("subject"),
        html_body,
        text_body,
    };
    proof {
        assert(msg@ =~= confirmation_email_model(recipient@, base_url@, token@));
    }
    msg
}

/// What a successful subscribe call hands back: the id under which the
/// subscriber is now durably pending, the persisted timestamp, the
/// issued token, and the confirmation email left to deliver.
#[derive(Debug)]
pub struct PendingSubscription {
    pub subscriber_id: u128,
    pub subscribed_at: i64,
    pub token: String,
    pub confirmation_email: EmailMessage,
}

/// The store a successful subscribe call leaves behind: one new
/// pending subscriber row and one new token row referencing it.
pub open spec fn subscribe_result(
    m: StoreModel,
    id: u128,
    email: Seq<char>,
    name: Seq<char>,
    subscribed_at: i64,
    token: Seq<char>,
) -> StoreModel {
    StoreModel {
        subscribers: m.subscribers.push(pending_subscriber(id, email, name, subscribed_at)),
        tokens: m.tokens.push(TokenModel { token, subscriber_id: id }),
    }
}

/// A successful subscribe call creates a pending subscriber with
/// exactly one token, owned by it alone, and leaves the store
/// well-formed.
pub proof fn lemma_subscribe_creates_pending(
    m: StoreModel,
    id: u128,
    email: Seq<char>,
    name: Seq<char>,
    subscribed_at: i64,
    token: Seq<char>,
)
    requires
        m.wf(),
        !m.has_subscriber(id),
        !m.has_token(token),
    ensures
        ({
            let m1 = subscribe_result(m, id, email, name, subscribed_at, token);
            &&& m1.wf()
            &&& m1.has_subscriber(id)
            &&& m1.status_of(id) is PendingConfirmation
            &&& m1.subscriber(id) == pending_subscriber(id, email, name, subscribed_at)
            &&& m1.has_token(token)
            &&& m1.token_owner(token) == id
            &&& m1.token_count_for(id) == 1
        }),
{
    let m1 = subscribe_result(m, id, email, name, subscribed_at, token);
    let p = pending_subscriber(id, email, name, subscribed_at);
    let t = TokenModel { token, subscriber_id: id };
    let staged = StoreModel {
        subscribers: Seq::<crate::store::SubscriberModel>::empty().push(p),
        tokens: Seq::<TokenModel>::empty().push(t),
    };
    assert(staged.has_subscriber(id)) by {
        assert(staged.subscribers[0].id == id);
    }
    assert(commit_valid(m, staged));
    lemma_commit_preserves_wf(m, staged);
    assert(m1 =~= apply_transaction(m, staged));

    let last = m1.subscribers.len() - 1;
    assert(m1.subscribers[last].id == id);
    let i = m1.subscriber_index(id);
    if i != last {
        assert(m.subscribers[i].id == id);
    }
    assert(m1.subscriber(id) == p);

    let lastt = m1.tokens.len() - 1;
    assert(m1.tokens[lastt].token == token);
    assert(m1.token_maps_to(token, id));
    lemma_token_owner_unique(m1, token, id);

    assert forall|k: int| 0 <= k < m.tokens.len() implies (#[trigger] m.tokens[k]).subscriber_id
        != id by {
        if m.tokens[k].subscriber_id == id {
            assert(m.has_subscriber(id));
        }
    }
    lemma_no_reference_no_tokens(m.tokens, id);
    lemma_count_tokens_push(m.tokens, t, id);
    assert(m1.tokens =~= m.tokens.push(t));
}

/// Relies on `uuid::Uuid::new_v4`: a freshly drawn random identifier,
/// carried as its 128-bit value. Randomness promises nothing of it.
#[verifier::external_body]
fn new_subscriber_id() -> u128 {
    uuid::Uuid::new_v4().as_u128()
}

/// Relies on `chrono::Utc::now`: the current wall-clock instant, as
/// milliseconds since the Unix epoch. The clock promises nothing of it.
#[verifier::external_body]
fn now_timestamp_millis() -> i64 {
    chrono::Utc::now().timestamp_millis()
}

/// The subscribe workflow against chosen id, timestamp and token:
/// validate, stage the pending subscriber and its token, commit both
/// atomically, and hand back the confirmation email to deliver. It
/// succeeds exactly when the input validates and neither the id nor
/// the token is already taken; on any failure the store is exactly as
/// it was — in particular, a refused token insertion undoes the
/// subscriber insertion of the same call.
pub fn subscribe_with(
    store: &mut SubscriptionStore,
    form: FormData,
    base_url: &str,
    id: u128,
    subscribed_at: i64,
    token: String,
) -> (r: Result<PendingSubscription, SubscribeError>)
    requires
        old(store)@.wf(),
    ensures
        final(store)@.wf(),
        r is Ok <==> subscribe_input_valid(form@) && !old(store)@.has_subscriber(id) && !old(
            store,
        )@.has_token(token@),
        r is Err ==> final(store)@ == old(store)@,
        !subscribe_input_valid(form@) ==> r is Err && r->Err_0 == SubscribeError::InvalidInput,
        subscribe_input_valid(form@) && r is Err ==> r->Err_0 == SubscribeError::PersistenceFailed,
        r is Ok ==> final(store)@ == subscribe_result(
            old(store)@,
            id,
            form@.email,
            form@.name,
            subscribed_at,
            token@,
        ),
        r is Ok ==> ({
            let p = r->Ok_0;
            &&& p.subscriber_id == id
            &&& p.subscribed_at == subscribed_at
            &&& p.token@ == token@
            &&& p.confirmation_email@ == confirmation_email_model(form@.email, base_url@, token@)
        }),
{
    let ghost m0 = store@;
    let ghost f = form@;
    let new_subscriber = match NewSubscriber::parse(form) {
        Ok(s) => s,
        Err(_) => {
            return Err(SubscribeError::InvalidInput);
        },
    };
    let mut tx = store.begin();
    match store.insert_subscriber(
        &mut tx,
        id,
        &new_subscriber.name,
        &new_subscriber.email,
        subscribed_at,
    ) {
        Ok(()) => {},
        Err(_) => {
            return Err(SubscribeError::PersistenceFailed);
        },
    }
    match store.store_token(&mut tx, id, &token) {
        Ok(()) => {},
        Err(_) => {
            return Err(SubscribeError::PersistenceFailed);
        },
    }
    proof {
        assert(tx@.subscribers =~= Seq::<crate::store::SubscriberModel>::empty().push(
            pending_subscriber(id, f.email, f.name, subscribed_at),
        ));
        assert(tx@.has_subscriber(id)) by {
            assert(tx@.subscribers[0].id == id);
        }
        assert(commit_valid(m0, tx@));
    }
    match store.commit(tx) {
        Ok(()) => {},
        Err(_) => {
            return Err(SubscribeError::PersistenceFailed);
        },
    }
    proof {
        assert(store@ =~= subscribe_result(m0, id, f.email, f.name, subscribed_at, token@));
    }
    let confirmation_email = build_confirmation_email(&new_subscriber.email, base_url, &token);
    Ok(PendingSubscription { subscriber_id: id, subscribed_at, token, confirmation_email })
}

/// The full subscribe workflow: draws a fresh identifier, reads the
/// clock, generates a token and runs [`subscribe_with`]. Validation
/// failures report `InvalidInput` with the store untouched; with valid
/// input the call either commits one pending subscriber with one valid
/// token, or — should the drawn id or token collide with an existing
/// row — reports `PersistenceFailed` with the store untouched.
pub fn subscribe(store: &mut SubscriptionStore, form: FormData, base_url: &str) -> (r: Result<
    PendingSubscription,
    SubscribeError,
>)
    requires
        old(store)@.wf(),
    ensures
        final(store)@.wf(),
        r is Err ==> final(store)@ == old(store)@,
        !subscribe_input_valid(form@) ==> r is Err && r->Err_0 == SubscribeError::InvalidInput,
        subscribe_input_valid(form@) && r is Err ==> r->Err_0 == SubscribeError::PersistenceFailed,
        r is Ok ==> subscribe_input_valid(form@),
        r is Ok ==> ({
            let p = r->Ok_0;
            &&& crate::token::valid_token(p.token@)
            &&& !old(store)@.has_subscriber(p.subscriber_id)
            &&& !old(store)@.has_token(p.token@)
            &&& final(store)@ == subscribe_result(
                old(store)@,
                p.subscriber_id,
                form@.email,
                form@.name,
                p.subscribed_at,
                p.token@,
            )
            &&& p.confirmation_email@ == confirmation_email_model(
                form@.email,
                base_url@,
                p.token@,
            )
        }),
{
    let id = new_subscriber_id();
    let subscribed_at = now_timestamp_millis();
    let token = crate::token::gen_subscription_token();
    subscribe_with(store, form, base_url, id, subscribed_at, token)
}

/// The decision after the gateway reports back: a failed delivery
/// surfaces as `NotificationFailed`, while the already committed
/// subscriber and token stay untouched — persistence and notification
/// are decoupled on purpose, so a transient provider failure never
/// destroys accepted registration state.
pub fn finish_notification(outcome: Result<(), DeliveryError>) -> (r: Result<(), SubscribeError>)
    ensures
        r is Ok <==> outcome is Ok,
        r is Err ==> r->Err_0 == SubscribeError::NotificationFailed,
{
    match outcome {
        Ok(()) => Ok(()),
        Err(_) => Err(SubscribeError::NotificationFailed),
    }
}

} // verus!
