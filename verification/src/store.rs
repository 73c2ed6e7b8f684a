//! The subscription store: the durable relation between subscribers and
//! their status, and between confirmation tokens and subscribers.
//!
//! The store keeps two relations. `subscribers` is keyed by a generated
//! identifier and carries the validated name and email, the subscription
//! timestamp and the status; `tokens` is keyed by the token string and
//! references the owning subscriber. Writes that belong to one workflow
//! call are staged on a [`Transaction`] and become visible all at once on
//! [`SubscriptionStore::commit`], or not at all.

use vstd::prelude::*;

verus! {

/// The lifecycle status of a subscriber. It only ever moves from
/// `PendingConfirmation` to `Confirmed`, and never back.
#[derive(Clone, Copy, PartialEq, Eq, Structural, Debug)]
pub enum SubscriberStatus {
    PendingConfirmation,
    Confirmed,
}

impl SubscriberStatus {
    /// The value the persisted `status` column holds for this status.
    pub fn as_str(&self) -> (r: &'static str)
        ensures
            *self is PendingConfirmation ==> r@ == "pending_confirmation"@,
            *self is Confirmed ==> r@ == "confirmed"@,
    {
        match self {
            SubscriberStatus::PendingConfirmation => "pending_confirmation",
            SubscriberStatus::Confirmed => "confirmed",
        }
    }
}

/// The mathematical image of one subscriber row.
#[verifier::ext_equal]
pub ghost struct SubscriberModel {
    pub id: u128,
    pub email: Seq<char>,
    pub name: Seq<char>,
    pub subscribed_at: i64,
    pub status: SubscriberStatus,
}

/// The mathematical image of one token row.
#[verifier::ext_equal]
pub ghost struct TokenModel {
    pub token: Seq<char>,
    pub subscriber_id: u128,
}

/// The mathematical image of the whole store: two sequences of rows.
/// A [`Transaction`]'s staged rows take the same shape.
#[verifier::ext_equal]
pub ghost struct StoreModel {
    pub subscribers: Seq<SubscriberModel>,
    pub tokens: Seq<TokenModel>,
}

impl StoreModel {
    pub open spec fn has_subscriber(self, id: u128) -> bool {
        exists|i: int|
            0 <= i < self.subscribers.len() && (#[trigger] self.subscribers[i]).id == id
    }

    pub open spec fn subscriber_index(self, id: u128) -> int {
        choose|i: int|
            0 <= i < self.subscribers.len() && (#[trigger] self.subscribers[i]).id == id
    }

    /// The subscriber row keyed by `id`; meaningful when
    /// `has_subscriber(id)` holds and the identifiers are unique.
    pub open spec fn subscriber(self, id: u128) -> SubscriberModel {
        self.subscribers[self.subscriber_index(id)]
    }

    pub open spec fn status_of(self, id: u128) -> SubscriberStatus {
        self.subscriber(id).status
    }

    pub open spec fn has_token(self, token: Seq<char>) -> bool {
        exists|i: int| 0 <= i < self.tokens.len() && (#[trigger] self.tokens[i]).token == token
    }

    /// Whether some token row carries exactly this token string and this
    /// owner.
    pub open spec fn token_maps_to(self, token: Seq<char>, id: u128) -> bool {
        exists|i: int|
            0 <= i < self.tokens.len() && (#[trigger] self.tokens[i]).token == token
                && self.tokens[i].subscriber_id == id
    }

    /// How many token rows reference the subscriber `id`.
    pub open spec fn token_count_for(self, id: u128) -> nat {
        count_tokens_for(self.tokens, id)
    }

    pub open spec fn token_index(self, token: Seq<char>) -> int {
        choose|i: int| 0 <= i < self.tokens.len() && (#[trigger] self.tokens[i]).token == token
    }

    /// The subscriber a token belongs to; meaningful when
    /// `has_token(token)` holds and the token strings are unique.
    pub open spec fn token_owner(self, token: Seq<char>) -> u128 {
        self.tokens[self.token_index(token)].subscriber_id
    }

    pub open spec fn unique_subscriber_ids(self) -> bool {
        forall|i: int, j: int|
            0 <= i < j < self.subscribers.len() ==> (#[trigger] self.subscribers[i]).id != (
            #[trigger] self.subscribers[j]).id
    }

    pub open spec fn unique_tokens(self) -> bool {
        forall|i: int, j: int|
            0 <= i < j < self.tokens.len() ==> (#[trigger] self.tokens[i]).token != (
            #[trigger] self.tokens[j]).token
    }

    /// Every token row references an existing subscriber row: no caller
    /// ever observes a token without its subscriber.
    pub open spec fn tokens_reference_subscribers(self) -> bool {
        forall|i: int|
            0 <= i < self.tokens.len() ==> self.has_subscriber(
                (#[trigger] self.tokens[i]).subscriber_id,
            )
    }

    /// Well-formedness of the committed store.
    pub open spec fn wf(self) -> bool {
        &&& self.unique_subscriber_ids()
        &&& self.unique_tokens()
        &&& self.tokens_reference_subscribers()
    }

    /// The store after the subscriber keyed by `id` is marked confirmed.
    /// Rows of other subscribers and all token rows stay as they are;
    /// when no row carries `id`, nothing changes.
    pub open spec fn confirm(self, id: u128) -> StoreModel {
        StoreModel {
            subscribers: Seq::new(
                self.subscribers.len(),
                |i: int|
                    if self.subscribers[i].id == id {
                        SubscriberModel { status: SubscriberStatus::Confirmed, ..self.subscribers[i] }
                    } else {
                        self.subscribers[i]
                    },
            ),
            tokens: self.tokens,
        }
    }
}

/// How many of these token rows reference the subscriber `id`.
pub open spec fn count_tokens_for(tokens: Seq<TokenModel>, id: u128) -> nat
    decreases tokens.len(),
{
    if tokens.len() == 0 {
        0
    } else {
        count_tokens_for(tokens.drop_last(), id) + if tokens.last().subscriber_id == id {
            1nat
        } else {
            0nat
        }
    }
}

/// A store in which no token references `id` counts no token for it.
pub proof fn lemma_no_reference_no_tokens(tokens: Seq<TokenModel>, id: u128)
    requires
        forall|i: int| 0 <= i < tokens.len() ==> (#[trigger] tokens[i]).subscriber_id != id,
    ensures
        count_tokens_for(tokens, id) == 0,
    decreases tokens.len(),
{
    if tokens.len() > 0 {
        lemma_no_reference_no_tokens(tokens.drop_last(), id);
    }
}

/// Appending one token row for `id` raises its count by one.
pub proof fn lemma_count_tokens_push(tokens: Seq<TokenModel>, t: TokenModel, id: u128)
    ensures
        count_tokens_for(tokens.push(t), id) == count_tokens_for(tokens, id) + if t.subscriber_id
            == id {
            1nat
        } else {
            0nat
        },
{
    assert(tokens.push(t).drop_last() =~= tokens);
}

/// One subscriber row as the store holds it.
pub struct SubscriberRecord {
    pub id: u128,
    pub email: String,
    pub name: String,
    pub subscribed_at: i64,
    pub status: SubscriberStatus,
}

impl View for SubscriberRecord {
    type V = SubscriberModel;

    open spec fn view(&self) -> SubscriberModel {
        SubscriberModel {
            id: self.id,
            email: self.email@,
            name: self.name@,
            subscribed_at: self.subscribed_at,
            status: self.status,
        }
    }
}

/// One token row as the store holds it.
pub struct TokenRecord {
    pub token: String,
    pub subscriber_id: u128,
}

impl View for TokenRecord {
    type V = TokenModel;

    open spec fn view(&self) -> TokenModel {
        TokenModel { token: self.token@, subscriber_id: self.subscriber_id }
    }
}

/// The store itself. Its abstract value is a [`StoreModel`].
pub struct SubscriptionStore {
    subscribers: Vec<SubscriberRecord>,
    tokens: Vec<TokenRecord>,
}

impl View for SubscriptionStore {
    type V = StoreModel;

    closed spec fn view(&self) -> StoreModel {
        StoreModel {
            subscribers: self.subscribers@.map_values(|r: SubscriberRecord| r@),
            tokens: self.tokens@.map_values(|r: TokenRecord| r@),
        }
    }
}

/// Why a store operation was refused.
#[derive(Clone, Copy, PartialEq, Eq, Structural, Debug)]
pub enum StoreError {
    /// A key constraint would break: a duplicate subscriber id, a
    /// duplicate token string, or a token without its subscriber.
    ConstraintViolation,
    /// A write could not be performed. The in-memory store never raises
    /// it; an embedding durable store may.
    StorageFailure,
    /// No connection could be acquired in time. The in-memory store
    /// never raises it; an embedding durable store may.
    PoolExhausted,
}

impl SubscriptionStore {
    /// A store with no subscribers and no tokens.
    pub fn new() -> (s: SubscriptionStore)
        ensures
            s@.subscribers.len() == 0,
            s@.tokens.len() == 0,
            s@.wf(),
    {
        let s = SubscriptionStore { subscribers: Vec::new(), tokens: Vec::new() };
        proof {
            assert(s@.subscribers =~= Seq::<SubscriberModel>::empty());
            assert(s@.tokens =~= Seq::<TokenModel>::empty());
        }
        s
    }

    /// Whether a subscriber row carries this id.
    pub fn has_subscriber_id(&self, id: u128) -> (r: bool)
        ensures
            r == self@.has_subscriber(id),
    {
        let n = self.subscribers.len();
        let mut i: usize = 0;
        while i < n
            invariant
                0 <= i <= n,
                n == self.subscribers@.len(),
                self@.subscribers == self.subscribers@.map_values(|r: SubscriberRecord| r@),
                forall|j: int| 0 <= j < i ==> (#[trigger] self@.subscribers[j]).id != id,
            decreases n - i,
        {
            if self.subscribers[i].id == id {
                assert(self@.subscribers[i as int].id == id);
                return true;
            }
            i = i + 1;
        }
        false
    }

    /// Whether a token row carries this token string.
    pub fn has_token(&self, token: &String) -> (r: bool)
        ensures
            r == self@.has_token(token@),
    {
        let n = self.tokens.len();
        let mut i: usize = 0;
        while i < n
            invariant
                0 <= i <= n,
                n == self.tokens@.len(),
                self@.tokens == self.tokens@.map_values(|r: TokenRecord| r@),
                forall|j: int| 0 <= j < i ==> (#[trigger] self@.tokens[j]).token != token@,
            decreases n - i,
        {
            if self.tokens[i].token.eq(token) {
                assert(self@.tokens[i as int].token == token@);
                return true;
            }
            i = i + 1;
        }
        false
    }

    /// The point lookup behind the confirm workflow: the owner of the
    /// token, or nothing when the token was never stored.
    pub fn find_subscriber_id_by_token(&self, token: &String) -> (r: Option<u128>)
        ensures
            r is Some <==> self@.has_token(token@),
            r is Some ==> self@.token_maps_to(token@, r->0),
    {
        let n = self.tokens.len();
        let mut i: usize = 0;
        while i < n
            invariant
                0 <= i <= n,
                n == self.tokens@.len(),
                self@.tokens == self.tokens@.map_values(|r: TokenRecord| r@),
                forall|j: int| 0 <= j < i ==> (#[trigger] self@.tokens[j]).token != token@,
            decreases n - i,
        {
            if self.tokens[i].token.eq(token) {
                assert(self@.tokens[i as int].token == token@);
                return Some(self.tokens[i].subscriber_id);
            }
            i = i + 1;
        }
        None
    }

    /// The idempotent status update behind the confirm workflow: every
    /// row keyed by `subscriber_id` becomes confirmed, everything else
    /// stays. Updating an absent or an already confirmed subscriber is
    /// a no-op that still succeeds.
    pub fn mark_confirmed(&mut self, subscriber_id: u128) -> (r: Result<(), StoreError>)
        ensures
            r is Ok,
            final(self)@ == old(self)@.confirm(subscriber_id),
            old(self)@.wf() ==> final(self)@.wf(),
    {
        let ghost m0 = self@;
        let n = self.subscribers.len();
        let mut i: usize = 0;
        while i < n
            invariant
                0 <= i <= n,
                n == self.subscribers@.len(),
                self@.subscribers == self.subscribers@.map_values(|r: SubscriberRecord| r@),
                self@.tokens == m0.tokens,
                self@.subscribers.len() == m0.subscribers.len(),
                forall|j: int|
                    0 <= j < i ==> self@.subscribers[j] == m0.confirm(
                        subscriber_id,
                    ).subscribers[j],
                forall|j: int| i <= j < n ==> self@.subscribers[j] == m0.subscribers[j],
            decreases n - i,
        {
            if self.subscribers[i].id == subscriber_id {
                self.subscribers[i].status = SubscriberStatus::Confirmed;
            }
            i = i + 1;
        }
        proof {
            assert(self@.subscribers =~= m0.confirm(subscriber_id).subscribers);
            assert(self@ =~= m0.confirm(subscriber_id));
            if m0.wf() {
                lemma_confirm_preserves_wf(m0, subscriber_id);
            }
        }
        Ok(())
    }

    /// How many subscriber rows the store holds.
    pub fn subscriber_count(&self) -> (n: usize)
        ensures
            n == self@.subscribers.len(),
    {
        self.subscribers.len()
    }

    /// How many token rows the store holds.
    pub fn token_count(&self) -> (n: usize)
        ensures
            n == self@.tokens.len(),
    {
        self.tokens.len()
    }

    /// The subscriber row at a position, for inspection.
    pub fn subscriber_at(&self, i: usize) -> (r: &SubscriberRecord)
        requires
            i < self@.subscribers.len(),
        ensures
            r@ == self@.subscribers[i as int],
    {
        &self.subscribers[i]
    }

    /// The subscriber row keyed by an id, for inspection.
    pub fn find_subscriber(&self, id: u128) -> (r: Option<&SubscriberRecord>)
        ensures
            r is Some <==> self@.has_subscriber(id),
            r is Some ==> r->0@.id == id && exists|i: int|
                0 <= i < self@.subscribers.len() && r->0@ == self@.subscribers[i],
    {
        let n = self.subscribers.len();
        let mut i: usize = 0;
        while i < n
            invariant
                0 <= i <= n,
                n == self.subscribers@.len(),
                self@.subscribers == self.subscribers@.map_values(|r: SubscriberRecord| r@),
                forall|j: int| 0 <= j < i ==> (#[trigger] self@.subscribers[j]).id != id,
            decreases n - i,
        {
            if self.subscribers[i].id == id {
                assert(self@.subscribers[i as int].id == id);
                return Some(&self.subscribers[i]);
            }
            i = i + 1;
        }
        None
    }
}

/// With unique token strings, any row that carries a token also names
/// its one owner: `token_owner` is well-defined.
pub proof fn lemma_token_owner_unique(m: StoreModel, token: Seq<char>, id: u128)
    requires
        m.unique_tokens(),
        m.token_maps_to(token, id),
    ensures
        m.has_token(token),
        m.token_owner(token) == id,
{
    let j = choose|j: int|
        0 <= j < m.tokens.len() && (#[trigger] m.tokens[j]).token == token
            && m.tokens[j].subscriber_id == id;
    assert(m.has_token(token));
    let i = m.token_index(token);
    if i != j {
        assert(m.tokens[i].token != m.tokens[j].token);
    }
}

/// The subscriber row a subscribe call stages: freshly created, pending
/// confirmation.
pub open spec fn pending_subscriber(
    id: u128,
    email: Seq<char>,
    name: Seq<char>,
    subscribed_at: i64,
) -> SubscriberModel {
    SubscriberModel {
        id,
        email,
        name,
        subscribed_at,
        status: SubscriberStatus::PendingConfirmation,
    }
}

/// When a transaction may commit against a store: every staged row is
/// fresh, staged rows do not collide among themselves, and every staged
/// token references a subscriber that the commit makes or leaves
/// visible.
pub open spec fn commit_valid(m: StoreModel, t: StoreModel) -> bool {
    &&& forall|i: int|
        0 <= i < t.subscribers.len() ==> !m.has_subscriber((#[trigger] t.subscribers[i]).id)
    &&& t.unique_subscriber_ids()
    &&& forall|i: int| 0 <= i < t.tokens.len() ==> !m.has_token((#[trigger] t.tokens[i]).token)
    &&& t.unique_tokens()
    &&& forall|i: int|
        0 <= i < t.tokens.len() ==> m.has_subscriber((#[trigger] t.tokens[i]).subscriber_id)
            || t.has_subscriber(t.tokens[i].subscriber_id)
}

/// The store a commit produces: the staged rows appended to the
/// existing ones.
pub open spec fn apply_transaction(m: StoreModel, t: StoreModel) -> StoreModel {
    StoreModel { subscribers: m.subscribers + t.subscribers, tokens: m.tokens + t.tokens }
}

/// A subscriber is visible after a commit exactly when the store or the
/// transaction carried it.
pub proof fn lemma_apply_has_subscriber(m: StoreModel, t: StoreModel, id: u128)
    ensures
        apply_transaction(m, t).has_subscriber(id) <==> m.has_subscriber(id) || t.has_subscriber(
            id,
        ),
{
    let a = apply_transaction(m, t);
    if m.has_subscriber(id) {
        let i = m.subscriber_index(id);
        assert(a.subscribers[i].id == id);
    }
    if t.has_subscriber(id) {
        let i = t.subscriber_index(id);
        assert(a.subscribers[m.subscribers.len() + i].id == id);
    }
    if a.has_subscriber(id) {
        let i = a.subscriber_index(id);
        if i < m.subscribers.len() {
            assert(m.subscribers[i].id == id);
        } else {
            assert(t.subscribers[i - m.subscribers.len()].id == id);
        }
    }
}

/// A valid commit against a well-formed store leaves the store
/// well-formed.
pub proof fn lemma_commit_preserves_wf(m: StoreModel, t: StoreModel)
    requires
        m.wf(),
        commit_valid(m, t),
    ensures
        apply_transaction(m, t).wf(),
{
    let a = apply_transaction(m, t);
    let ml = m.subscribers.len() as int;
    assert forall|i: int, j: int| 0 <= i < j < a.subscribers.len() implies (
    #[trigger] a.subscribers[i]).id != (#[trigger] a.subscribers[j]).id by {
        if i < ml && j < ml {
        } else if i < ml && j >= ml {
            assert(a.subscribers[j] == t.subscribers[j - ml]);
            assert(!m.has_subscriber(t.subscribers[j - ml].id));
            assert(m.subscribers[i].id != t.subscribers[j - ml].id) by {
                if m.subscribers[i].id == t.subscribers[j - ml].id {
                    assert(m.has_subscriber(t.subscribers[j - ml].id));
                }
            }
        } else {
            assert(a.subscribers[i] == t.subscribers[i - ml]);
            assert(a.subscribers[j] == t.subscribers[j - ml]);
        }
    }
    let tl = m.tokens.len() as int;
    assert forall|i: int, j: int| 0 <= i < j < a.tokens.len() implies (
    #[trigger] a.tokens[i]).token != (#[trigger] a.tokens[j]).token by {
        if i < tl && j < tl {
        } else if i < tl && j >= tl {
            assert(a.tokens[j] == t.tokens[j - tl]);
            assert(!m.has_token(t.tokens[j - tl].token));
            assert(m.tokens[i].token != t.tokens[j - tl].token) by {
                if m.tokens[i].token == t.tokens[j - tl].token {
                    assert(m.has_token(t.tokens[j - tl].token));
                }
            }
        } else {
            assert(a.tokens[i] == t.tokens[i - tl]);
            assert(a.tokens[j] == t.tokens[j - tl]);
        }
    }
    assert forall|i: int| 0 <= i < a.tokens.len() implies a.has_subscriber(
        (#[trigger] a.tokens[i]).subscriber_id,
    ) by {
        if i < tl {
            assert(a.tokens[i] == m.tokens[i]);
            assert(m.has_subscriber(m.tokens[i].subscriber_id));
            lemma_apply_has_subscriber(m, t, m.tokens[i].subscriber_id);
        } else {
            assert(a.tokens[i] == t.tokens[i - tl]);
            lemma_apply_has_subscriber(m, t, t.tokens[i - tl].subscriber_id);
        }
    }
}

/// Writes staged by one workflow call, invisible to every reader until
/// they commit together. Dropping a transaction without committing it
/// leaves the store untouched: the rollback path needs no code.
pub struct Transaction {
    staged_subscribers: Vec<SubscriberRecord>,
    staged_tokens: Vec<TokenRecord>,
}

impl View for Transaction {
    type V = StoreModel;

    closed spec fn view(&self) -> StoreModel {
        StoreModel {
            subscribers: self.staged_subscribers@.map_values(|r: SubscriberRecord| r@),
            tokens: self.staged_tokens@.map_values(|r: TokenRecord| r@),
        }
    }
}

impl Transaction {
    /// Whether a staged subscriber row carries this id.
    pub fn has_staged_subscriber(&self, id: u128) -> (r: bool)
        ensures
            r == self@.has_subscriber(id),
    {
        let n = self.staged_subscribers.len();
        let mut i: usize = 0;
        while i < n
            invariant
                0 <= i <= n,
                n == self.staged_subscribers@.len(),
                self@.subscribers == self.staged_subscribers@.map_values(
                    |r: SubscriberRecord| r@,
                ),
                forall|j: int| 0 <= j < i ==> (#[trigger] self@.subscribers[j]).id != id,
            decreases n - i,
        {
            if self.staged_subscribers[i].id == id {
                assert(self@.subscribers[i as int].id == id);
                return true;
            }
            i = i + 1;
        }
        false
    }

    /// Whether a staged token row carries this token string.
    pub fn has_staged_token(&self, token: &String) -> (r: bool)
        ensures
            r == self@.has_token(token@),
    {
        let n = self.staged_tokens.len();
        let mut i: usize = 0;
        while i < n
            invariant
                0 <= i <= n,
                n == self.staged_tokens@.len(),
                self@.tokens == self.staged_tokens@.map_values(|r: TokenRecord| r@),
                forall|j: int| 0 <= j < i ==> (#[trigger] self@.tokens[j]).token != token@,
            decreases n - i,
        {
            if self.staged_tokens[i].token.eq(token) {
                assert(self@.tokens[i as int].token == token@);
                return true;
            }
            i = i + 1;
        }
        false
    }
}

impl SubscriptionStore {
    /// Opens a transaction against this store with nothing staged yet.
    pub fn begin(&self) -> (tx: Transaction)
        ensures
            tx@.subscribers.len() == 0,
            tx@.tokens.len() == 0,
    {
        let tx = Transaction { staged_subscribers: Vec::new(), staged_tokens: Vec::new() };
        proof {
            assert(tx@.subscribers =~= Seq::<SubscriberModel>::empty());
            assert(tx@.tokens =~= Seq::<TokenModel>::empty());
        }
        tx
    }

    /// Stages a new pending subscriber row. Refused exactly when the id
    /// already names a visible or a staged subscriber.
    pub fn insert_subscriber(
        &self,
        tx: &mut Transaction,
        id: u128,
        name: &crate::domain::subscriber_name::SubscriberName,
        email: &crate::domain::subscriber_email::SubscriberEmail,
        subscribed_at: i64,
    ) -> (r: Result<(), StoreError>)
        ensures
            r is Ok <==> !self@.has_subscriber(id) && !old(tx)@.has_subscriber(id),
            r is Ok ==> final(tx)@ == (StoreModel {
                subscribers: old(tx)@.subscribers.push(
                    pending_subscriber(id, email@, name@, subscribed_at),
                ),
                tokens: old(tx)@.tokens,
            }),
            r is Err ==> final(tx)@ == old(tx)@ && r->Err_0 == StoreError::ConstraintViolation,
    {
        if self.has_subscriber_id(id) || tx.has_staged_subscriber(id) {
            return Err(StoreError::ConstraintViolation);
        }
        let record = SubscriberRecord {
            id,
            email: email.as_str().to_owned(),
            name: name.as_str().to_owned(),
            subscribed_at,
            status: SubscriberStatus::PendingConfirmation,
        };
        tx.staged_subscribers.push(record);
        proof {
            assert(tx@.subscribers =~= old(tx)@.subscribers.push(
                pending_subscriber(id, email@, name@, subscribed_at),
            ));
            assert(tx@ =~= (StoreModel {
                subscribers: old(tx)@.subscribers.push(
                    pending_subscriber(id, email@, name@, subscribed_at),
                ),
                tokens: old(tx)@.tokens,
            }));
        }
        Ok(())
    }

    /// Stages a token row for a subscriber. Refused exactly when the
    /// token string is already taken, or when neither the store nor the
    /// transaction knows the owner — a token must never exist without
    /// its subscriber.
    pub fn store_token(
        &self,
        tx: &mut Transaction,
        subscriber_id: u128,
        token: &String,
    ) -> (r: Result<(), StoreError>)
        ensures
            r is Ok <==> !self@.has_token(token@) && !old(tx)@.has_token(token@) && (
            self@.has_subscriber(subscriber_id) || old(tx)@.has_subscriber(subscriber_id)),
            r is Ok ==> final(tx)@ == (StoreModel {
                subscribers: old(tx)@.subscribers,
                tokens: old(tx)@.tokens.push(TokenModel { token: token@, subscriber_id }),
            }),
            r is Err ==> final(tx)@ == old(tx)@ && r->Err_0 == StoreError::ConstraintViolation,
    {
        if self.has_token(token) || tx.has_staged_token(token) {
            return Err(StoreError::ConstraintViolation);
        }
        if !(self.has_subscriber_id(subscriber_id) || tx.has_staged_subscriber(subscriber_id)) {
            return Err(StoreError::ConstraintViolation);
        }
        let record = TokenRecord { token: token.clone(), subscriber_id };
        tx.staged_tokens.push(record);
        proof {
            assert(tx@.tokens =~= old(tx)@.tokens.push(TokenModel { token: token@, subscriber_id }));
            assert(tx@ =~= (StoreModel {
                subscribers: old(tx)@.subscribers,
                tokens: old(tx)@.tokens.push(TokenModel { token: token@, subscriber_id }),
            }));
        }
        Ok(())
    }

    /// Whether this transaction may commit: checks every staged row
    /// against the store and against its fellow staged rows.
    fn transaction_is_valid(&self, tx: &Transaction) -> (r: bool)
        ensures
            r == commit_valid(self@, tx@),
    {
        let ns = tx.staged_subscribers.len();
        let mut i: usize = 0;
        while i < ns
            invariant
                0 <= i <= ns,
                ns == tx.staged_subscribers@.len(),
                tx@.subscribers == tx.staged_subscribers@.map_values(|r: SubscriberRecord| r@),
                forall|k: int|
                    0 <= k < i ==> !self@.has_subscriber((#[trigger] tx@.subscribers[k]).id),
                forall|k1: int, k2: int|
                    0 <= k1 < k2 < i ==> (#[trigger] tx@.subscribers[k1]).id != (
                    #[trigger] tx@.subscribers[k2]).id,
            decreases ns - i,
        {
            let id = tx.staged_subscribers[i].id;
            assert(tx@.subscribers[i as int].id == id);
            if self.has_subscriber_id(id) {
                return false;
            }
            let mut j: usize = 0;
            while j < i
                invariant
                    0 <= j <= i < ns,
                    ns == tx.staged_subscribers@.len(),
                    id == tx@.subscribers[i as int].id,
                    tx@.subscribers == tx.staged_subscribers@.map_values(
                        |r: SubscriberRecord| r@,
                    ),
                    forall|k: int| 0 <= k < j ==> (#[trigger] tx@.subscribers[k]).id != id,
                decreases i - j,
            {
                if tx.staged_subscribers[j].id == id {
                    assert(tx@.subscribers[j as int].id == id);
                    return false;
                }
                j = j + 1;
            }
            i = i + 1;
        }
        let nt = tx.staged_tokens.len();
        let mut i: usize = 0;
        while i < nt
            invariant
                0 <= i <= nt,
                nt == tx.staged_tokens@.len(),
                tx@.tokens == tx.staged_tokens@.map_values(|r: TokenRecord| r@),
                forall|k: int| 0 <= k < i ==> !self@.has_token((#[trigger] tx@.tokens[k]).token),
                forall|k1: int, k2: int|
                    0 <= k1 < k2 < i ==> (#[trigger] tx@.tokens[k1]).token != (
                    #[trigger] tx@.tokens[k2]).token,
                forall|k: int|
                    0 <= k < i ==> self@.has_subscriber(
                        (#[trigger] tx@.tokens[k]).subscriber_id,
                    ) || tx@.has_subscriber(tx@.tokens[k].subscriber_id),
            decreases nt - i,
        {
            let token_ref = &tx.staged_tokens[i].token;
            assert(tx@.tokens[i as int].token == token_ref@);
            if self.has_token(token_ref) {
                return false;
            }
            let owner = tx.staged_tokens[i].subscriber_id;
            assert(tx@.tokens[i as int].subscriber_id == owner);
            if !(self.has_subscriber_id(owner) || tx.has_staged_subscriber(owner)) {
                return false;
            }
            let mut j: usize = 0;
            while j < i
                invariant
                    0 <= j <= i < nt,
                    nt == tx.staged_tokens@.len(),
                    token_ref@ == tx@.tokens[i as int].token,
                    tx@.tokens == tx.staged_tokens@.map_values(|r: TokenRecord| r@),
                    forall|k: int| 0 <= k < j ==> (#[trigger] tx@.tokens[k]).token != token_ref@,
                decreases i - j,
            {
                if tx.staged_tokens[j].token.eq(token_ref) {
                    assert(tx@.tokens[j as int].token == token_ref@);
                    return false;
                }
                j = j + 1;
            }
            i = i + 1;
        }
        true
    }

    /// Makes the staged rows visible all at once, or none of them: the
    /// all-or-nothing boundary between a workflow call and every other
    /// reader.
    pub fn commit(&mut self, tx: Transaction) -> (r: Result<(), StoreError>)
        requires
            old(self)@.wf(),
        ensures
            final(self)@.wf(),
            r is Ok <==> commit_valid(old(self)@, tx@),
            r is Ok ==> final(self)@ == apply_transaction(old(self)@, tx@),
            r is Err ==> final(self)@ == old(self)@ && r->Err_0 == StoreError::ConstraintViolation,
    {
        if !self.transaction_is_valid(&tx) {
            return Err(StoreError::ConstraintViolation);
        }
        let ghost m0 = self@;
        let ghost t0 = tx@;
        let mut tx = tx;
        self.subscribers.append(&mut tx.staged_subscribers);
        self.tokens.append(&mut tx.staged_tokens);
        proof {
            assert(self@.subscribers =~= apply_transaction(m0, t0).subscribers);
            assert(self@.tokens =~= apply_transaction(m0, t0).tokens);
            assert(self@ =~= apply_transaction(m0, t0));
            lemma_commit_preserves_wf(m0, t0);
        }
        Ok(())
    }
}

/// One entry of the broadcast audience: a confirmed subscriber's id and
/// address.
pub struct ConfirmedSubscriber {
    pub id: u128,
    pub email: String,
}

/// The mathematical image of one broadcast-audience entry.
#[verifier::ext_equal]
pub ghost struct ConfirmedSubscriberModel {
    pub id: u128,
    pub email: Seq<char>,
}

impl View for ConfirmedSubscriber {
    type V = ConfirmedSubscriberModel;

    open spec fn view(&self) -> ConfirmedSubscriberModel {
        ConfirmedSubscriberModel { id: self.id, email: self.email@ }
    }
}

/// The broadcast audience of a store: the confirmed subscribers, in
/// store order, and nobody else.
pub open spec fn confirmed_recipients(subs: Seq<SubscriberModel>) -> Seq<ConfirmedSubscriberModel>
    decreases subs.len(),
{
    if subs.len() == 0 {
        Seq::empty()
    } else {
        let prefix = confirmed_recipients(subs.drop_last());
        if subs.last().status is Confirmed {
            prefix.push(ConfirmedSubscriberModel { id: subs.last().id, email: subs.last().email })
        } else {
            prefix
        }
    }
}

/// Whether some confirmed subscriber row carries this audience entry's
/// id and address.
pub open spec fn is_confirmed_entry_of(
    subs: Seq<SubscriberModel>,
    c: ConfirmedSubscriberModel,
) -> bool {
    exists|i: int|
        0 <= i < subs.len() && (#[trigger] subs[i]).status is Confirmed && subs[i].id == c.id
            && subs[i].email == c.email
}

proof fn lemma_entry_lift(subs: Seq<SubscriberModel>, c: ConfirmedSubscriberModel)
    requires
        subs.len() > 0,
        is_confirmed_entry_of(subs.drop_last(), c),
    ensures
        is_confirmed_entry_of(subs, c),
{
    let dl = subs.drop_last();
    let i = choose|i: int|
        0 <= i < dl.len() && (#[trigger] dl[i]).status is Confirmed && dl[i].id == c.id
            && dl[i].email == c.email;
    assert(subs[i] == dl[i]);
    assert(subs[i].status is Confirmed && subs[i].id == c.id && subs[i].email == c.email);
}

/// Every broadcast-audience entry comes from a confirmed subscriber
/// row: nobody pending, nobody unknown.
pub proof fn lemma_recipients_are_confirmed(subs: Seq<SubscriberModel>)
    ensures
        forall|k: int|
            0 <= k < confirmed_recipients(subs).len() ==> is_confirmed_entry_of(
                subs,
                #[trigger] confirmed_recipients(subs)[k],
            ),
    decreases subs.len(),
{
    if subs.len() > 0 {
        let dl = subs.drop_last();
        let r = confirmed_recipients(subs);
        let p = confirmed_recipients(dl);
        lemma_recipients_are_confirmed(dl);
        assert forall|k: int| 0 <= k < r.len() implies is_confirmed_entry_of(subs, r[k]) by {
            if k < p.len() {
                assert(r[k] == p[k]);
                assert(is_confirmed_entry_of(dl, p[k]));
                lemma_entry_lift(subs, p[k]);
            } else {
                assert(subs.last().status is Confirmed);
                assert(r[k].id == subs.last().id && r[k].email == subs.last().email);
                let w = subs.len() - 1;
                assert(subs[w] == subs.last());
                assert(subs[w].status is Confirmed && subs[w].id == r[k].id && subs[w].email
                    == r[k].email);
            }
        }
    }
}

/// An address that no confirmed subscriber carries is in no broadcast
/// audience. In particular a subscriber still pending confirmation is
/// never written to, however many broadcasts run, unless a confirmed
/// subscriber shares the very same address.
pub proof fn lemma_broadcast_skips_pending(subs: Seq<SubscriberModel>, email: Seq<char>)
    requires
        forall|i: int|
            0 <= i < subs.len() ==> ((#[trigger] subs[i]).status is Confirmed ==> subs[i].email
                != email),
    ensures
        forall|k: int|
            0 <= k < confirmed_recipients(subs).len() ==> (
            #[trigger] confirmed_recipients(subs)[k]).email != email,
    decreases subs.len(),
{
    if subs.len() > 0 {
        let dl = subs.drop_last();
        let r = confirmed_recipients(subs);
        let p = confirmed_recipients(dl);
        assert forall|i: int|
            0 <= i < dl.len() implies ((#[trigger] dl[i]).status is Confirmed ==> dl[i].email
            != email) by {
            assert(dl[i] == subs[i]);
        }
        lemma_broadcast_skips_pending(dl, email);
        assert forall|k: int| 0 <= k < r.len() implies (#[trigger] r[k]).email != email by {
            if k < p.len() {
                assert(r[k] == p[k]);
            } else {
                assert(subs.last().status is Confirmed);
                let w = subs.len() - 1;
                assert(subs[w] == subs.last());
                assert(r[k].email == subs.last().email);
            }
        }
    }
}

impl SubscriptionStore {
    /// The restartable, finite listing the broadcast workflow walks:
    /// exactly the confirmed subscribers, in store order.
    pub fn list_confirmed_subscribers(&self) -> (r: Vec<ConfirmedSubscriber>)
        ensures
            r@.map_values(|c: ConfirmedSubscriber| c@) == confirmed_recipients(self@.subscribers),
    {
        let n = self.subscribers.len();
        let mut out: Vec<ConfirmedSubscriber> = Vec::new();
        let mut i: usize = 0;
        proof {
            assert(self@.subscribers.take(0) =~= Seq::<SubscriberModel>::empty());
            assert(out@.map_values(|c: ConfirmedSubscriber| c@) =~= Seq::<
                ConfirmedSubscriberModel,
            >::empty());
        }
        while i < n
            invariant
                0 <= i <= n,
                n == self.subscribers@.len(),
                self@.subscribers == self.subscribers@.map_values(|r: SubscriberRecord| r@),
                out@.map_values(|c: ConfirmedSubscriber| c@) == confirmed_recipients(
                    self@.subscribers.take(i as int),
                ),
            decreases n - i,
        {
            let ghost prefix = self@.subscribers.take(i as int);
            proof {
                assert(self@.subscribers.take(i + 1).drop_last() =~= prefix);
                assert(self@.subscribers.take(i + 1).last() == self@.subscribers[i as int]);
            }
            if self.subscribers[i].status == SubscriberStatus::Confirmed {
                let entry = ConfirmedSubscriber {
                    id: self.subscribers[i].id,
                    email: self.subscribers[i].email.clone(),
                };
                out.push(entry);
                proof {
                    assert(out@.map_values(|c: ConfirmedSubscriber| c@) =~= confirmed_recipients(
                        self@.subscribers.take(i + 1),
                    ));
                }
            } else {
                proof {
                    assert(out@.map_values(|c: ConfirmedSubscriber| c@) =~= confirmed_recipients(
                        self@.subscribers.take(i + 1),
                    ));
                }
            }
            i = i + 1;
        }
        proof {
            assert(self@.subscribers.take(n as int) =~= self@.subscribers);
        }
        out
    }
}

/// Marking a subscriber confirmed keeps the store well-formed: ids,
/// tokens and references are untouched.
pub proof fn lemma_confirm_preserves_wf(m: StoreModel, id: u128)
    requires
        m.wf(),
    ensures
        m.confirm(id).wf(),
{
    let c = m.confirm(id);
    assert forall|i: int| 0 <= i < c.tokens.len() implies c.has_subscriber(
        (#[trigger] c.tokens[i]).subscriber_id,
    ) by {
        assert(m.has_subscriber(m.tokens[i].subscriber_id));
        let w = m.subscriber_index(m.tokens[i].subscriber_id);
        assert(c.subscribers[w].id == m.subscribers[w].id);
    }
}

} // verus!
