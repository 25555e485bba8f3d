//! The subscription store: subscriber rows and confirmation-token rows, with
//! unique identifiers, unique emails, unique tokens and referential
//! integrity, and transactions whose writes become visible together at
//! commit.

use vstd::prelude::*;
use vstd::string::*;
use crate::errors::StoreError;

verus! {

/// Whether a subscriber has followed a confirmation link.
#[derive(PartialEq, Eq, Structural, Clone, Copy, Debug)]
pub enum SubscriptionStatus {
    PendingConfirmation,
    Confirmed,
}

impl SubscriptionStatus {
    /// The name under which the status is stored.
    pub fn as_str(&self) -> (r: &'static str)
        ensures
            *self == SubscriptionStatus::PendingConfirmation ==> r@ == "pending_confirmation"@,
            *self == SubscriptionStatus::Confirmed ==> r@ == "confirmed"@,
    {
        match self {
            SubscriptionStatus::PendingConfirmation => "pending_confirmation",
            SubscriptionStatus::Confirmed => "confirmed",
        }
    }
}

/// A subscriber row as a value.
pub struct SubscriberRecord {
    pub id: u128,
    pub email: Seq<char>,
    pub name: Seq<char>,
    pub status: SubscriptionStatus,
    pub subscribed_at: i64,
}

/// A token row as a value.
pub struct TokenRecord {
    pub token: Seq<char>,
    pub subscriber_id: u128,
}

/// The contents of a store, or the writes staged by a transaction.
pub struct StoreModel {
    pub subscribers: Seq<SubscriberRecord>,
    pub tokens: Seq<TokenRecord>,
}

/// A subscriber row.
#[derive(Debug)]
pub struct Subscriber {
    pub id: u128,
    pub email: String,
    pub name: String,
    pub status: SubscriptionStatus,
    /// Seconds since the Unix epoch at insertion.
    pub subscribed_at: i64,
}

impl View for Subscriber {
    type V = SubscriberRecord;

    open spec fn view(&self) -> SubscriberRecord {
        SubscriberRecord {
            id: self.id,
            email: self.email@,
            name: self.name@,
            status: self.status,
            subscribed_at: self.subscribed_at,
        }
    }
}

impl Subscriber {
    pub fn copy(&self) -> (r: Subscriber)
        ensures
            r@ == self@,
    {
        Subscriber {
            id: self.id,
            email: self.email.clone(),
            name: self.name.clone(),
            status: self.status,
            subscribed_at: self.subscribed_at,
        }
    }
}

/// A confirmation-token row.
#[derive(Debug)]
pub struct ConfirmationToken {
    pub token: String,
    pub subscriber_id: u128,
}

impl View for ConfirmationToken {
    type V = TokenRecord;

    open spec fn view(&self) -> TokenRecord {
        TokenRecord { token: self.token@, subscriber_id: self.subscriber_id }
    }
}

impl ConfirmationToken {
    pub fn copy(&self) -> (r: ConfirmationToken)
        ensures
            r@ == self@,
    {
        ConfirmationToken { token: self.token.clone(), subscriber_id: self.subscriber_id }
    }
}

pub open spec fn has_id(subs: Seq<SubscriberRecord>, id: u128) -> bool {
    exists|i: int| 0 <= i < subs.len() && (#[trigger] subs[i]).id == id
}

pub open spec fn has_email(subs: Seq<SubscriberRecord>, email: Seq<char>) -> bool {
    exists|i: int| 0 <= i < subs.len() && (#[trigger] subs[i]).email == email
}

pub open spec fn has_token(toks: Seq<TokenRecord>, token: Seq<char>) -> bool {
    exists|i: int| 0 <= i < toks.len() && (#[trigger] toks[i]).token == token
}

/// Identifiers, emails and tokens are unique, and every token refers to an
/// existing subscriber.
pub open spec fn wf_model(m: StoreModel) -> bool {
    &&& forall|i: int, j: int|
        0 <= i < j < m.subscribers.len() ==> (#[trigger] m.subscribers[i]).id
            != (#[trigger] m.subscribers[j]).id
    &&& forall|i: int, j: int|
        0 <= i < j < m.subscribers.len() ==> (#[trigger] m.subscribers[i]).email
            != (#[trigger] m.subscribers[j]).email
    &&& forall|i: int, j: int|
        0 <= i < j < m.tokens.len() ==> (#[trigger] m.tokens[i]).token
            != (#[trigger] m.tokens[j]).token
    &&& forall|i: int|
        0 <= i < m.tokens.len() ==> has_id(m.subscribers, (#[trigger] m.tokens[i]).subscriber_id)
}

/// The identifier of the subscriber with this email, if there is one.
pub open spec fn id_of_email(subs: Seq<SubscriberRecord>, email: Seq<char>) -> Option<u128> {
    if has_email(subs, email) {
        Some(subs[choose|i: int| 0 <= i < subs.len() && (#[trigger] subs[i]).email == email].id)
    } else {
        None
    }
}

/// The identifier of the subscriber that this token refers to, if the token
/// exists.
pub open spec fn owner_of_token(toks: Seq<TokenRecord>, token: Seq<char>) -> Option<u128> {
    if has_token(toks, token) {
        Some(
            toks[choose|i: int| 0 <= i < toks.len() && (#[trigger] toks[i]).token == token].subscriber_id,
        )
    } else {
        None
    }
}

/// Why a subscriber row may not be added, if it may not.
pub open spec fn subscriber_conflict(m: StoreModel, r: SubscriberRecord) -> Option<StoreError> {
    if has_id(m.subscribers, r.id) {
        Some(StoreError::DuplicateSubscriberId)
    } else if has_email(m.subscribers, r.email) {
        Some(StoreError::DuplicateEmail)
    } else {
        None
    }
}

/// Why a token row may not be added, if it may not.
pub open spec fn token_conflict(m: StoreModel, t: TokenRecord) -> Option<StoreError> {
    if !has_id(m.subscribers, t.subscriber_id) {
        Some(StoreError::UnknownSubscriber)
    } else if has_token(m.tokens, t.token) {
        Some(StoreError::DuplicateToken)
    } else {
        None
    }
}

pub open spec fn with_subscriber(m: StoreModel, r: SubscriberRecord) -> StoreModel {
    StoreModel { subscribers: m.subscribers.push(r), tokens: m.tokens }
}

pub open spec fn with_token(m: StoreModel, t: TokenRecord) -> StoreModel {
    StoreModel { subscribers: m.subscribers, tokens: m.tokens.push(t) }
}

/// The store and the writes of a transaction seen together.
pub open spec fn combined(m: StoreModel, staged: StoreModel) -> StoreModel {
    StoreModel {
        subscribers: m.subscribers + staged.subscribers,
        tokens: m.tokens + staged.tokens,
    }
}

/// Adds the subscriber rows in order, stopping at the first conflict.
pub open spec fn apply_subscribers(m: StoreModel, rs: Seq<SubscriberRecord>) -> Result<
    StoreModel,
    StoreError,
>
    decreases rs.len(),
{
    if rs.len() == 0 {
        Ok(m)
    } else {
        match apply_subscribers(m, rs.drop_last()) {
            Ok(m2) => match subscriber_conflict(m2, rs.last()) {
                Some(e) => Err(e),
                None => Ok(with_subscriber(m2, rs.last())),
            },
            Err(e) => Err(e),
        }
    }
}

/// Adds the token rows in order, stopping at the first conflict.
pub open spec fn apply_tokens(m: StoreModel, ts: Seq<TokenRecord>) -> Result<StoreModel, StoreError>
    decreases ts.len(),
{
    if ts.len() == 0 {
        Ok(m)
    } else {
        match apply_tokens(m, ts.drop_last()) {
            Ok(m2) => match token_conflict(m2, ts.last()) {
                Some(e) => Err(e),
                None => Ok(with_token(m2, ts.last())),
            },
            Err(e) => Err(e),
        }
    }
}

/// What committing the staged writes does to a store: the subscriber rows,
/// then the token rows, each checked against the constraints.
pub open spec fn commit_model(m: StoreModel, staged: StoreModel) -> Result<StoreModel, StoreError> {
    match apply_subscribers(m, staged.subscribers) {
        Ok(m2) => apply_tokens(m2, staged.tokens),
        Err(e) => Err(e),
    }
}

pub proof fn lemma_add_subscriber_wf(m: StoreModel, r: SubscriberRecord)
    requires
        wf_model(m),
        subscriber_conflict(m, r) is None,
    ensures
        wf_model(with_subscriber(m, r)),
{
    let m2 = with_subscriber(m, r);
    assert forall|i: int| 0 <= i < m2.tokens.len() implies has_id(
        m2.subscribers,
        (#[trigger] m2.tokens[i]).subscriber_id,
    ) by {
        let k = choose|k: int|
            0 <= k < m.subscribers.len() && (#[trigger] m.subscribers[k]).id
                == m.tokens[i].subscriber_id;
        assert(m2.subscribers[k] == m.subscribers[k]);
    }
}

pub proof fn lemma_add_token_wf(m: StoreModel, t: TokenRecord)
    requires
        wf_model(m),
        token_conflict(m, t) is None,
    ensures
        wf_model(with_token(m, t)),
{
}

pub proof fn lemma_apply_subscribers_wf(m: StoreModel, rs: Seq<SubscriberRecord>)
    requires
        wf_model(m),
    ensures
        apply_subscribers(m, rs) matches Ok(m2) ==> wf_model(m2) && m2.tokens == m.tokens
            && m2.subscribers == m.subscribers + rs,
    decreases rs.len(),
{
    if rs.len() > 0 {
        lemma_apply_subscribers_wf(m, rs.drop_last());
        if let Ok(m2) = apply_subscribers(m, rs.drop_last()) {
            if subscriber_conflict(m2, rs.last()) is None {
                lemma_add_subscriber_wf(m2, rs.last());
                assert(m.subscribers + rs == (m.subscribers + rs.drop_last()).push(rs.last()));
            }
        }
    }
}

pub proof fn lemma_apply_tokens_wf(m: StoreModel, ts: Seq<TokenRecord>)
    requires
        wf_model(m),
    ensures
        apply_tokens(m, ts) matches Ok(m2) ==> wf_model(m2) && m2.subscribers == m.subscribers
            && m2.tokens == m.tokens + ts,
    decreases ts.len(),
{
    if ts.len() > 0 {
        lemma_apply_tokens_wf(m, ts.drop_last());
        if let Ok(m2) = apply_tokens(m, ts.drop_last()) {
            if token_conflict(m2, ts.last()) is None {
                lemma_add_token_wf(m2, ts.last());
                assert(m.tokens + ts == (m.tokens + ts.drop_last()).push(ts.last()));
            }
        }
    }
}

/// Once adding subscriber rows fails, adding more fails the same way.
pub proof fn lemma_apply_subscribers_err(m: StoreModel, rs: Seq<SubscriberRecord>, j: int)
    requires
        0 <= j <= rs.len(),
        apply_subscribers(m, rs.subrange(0, j)) is Err,
    ensures
        apply_subscribers(m, rs) == apply_subscribers(m, rs.subrange(0, j)),
    decreases rs.len() - j,
{
    if j < rs.len() {
        let next = rs.subrange(0, j + 1);
        assert(next.drop_last() == rs.subrange(0, j));
        lemma_apply_subscribers_err(m, rs, j + 1);
    } else {
        assert(rs.subrange(0, j) == rs);
    }
}

/// Once adding token rows fails, adding more fails the same way.
pub proof fn lemma_apply_tokens_err(m: StoreModel, ts: Seq<TokenRecord>, j: int)
    requires
        0 <= j <= ts.len(),
        apply_tokens(m, ts.subrange(0, j)) is Err,
    ensures
        apply_tokens(m, ts) == apply_tokens(m, ts.subrange(0, j)),
    decreases ts.len() - j,
{
    if j < ts.len() {
        let next = ts.subrange(0, j + 1);
        assert(next.drop_last() == ts.subrange(0, j));
        lemma_apply_tokens_err(m, ts, j + 1);
    } else {
        assert(ts.subrange(0, j) == ts);
    }
}

/// A successful commit keeps the store well formed and adds exactly the
/// staged rows.
pub proof fn lemma_commit_wf(m: StoreModel, staged: StoreModel)
    requires
        wf_model(m),
    ensures
        commit_model(m, staged) matches Ok(m2) ==> wf_model(m2) && m2 == combined(m, staged),
{
    lemma_apply_subscribers_wf(m, staged.subscribers);
    if let Ok(m1) = apply_subscribers(m, staged.subscribers) {
        lemma_apply_tokens_wf(m1, staged.tokens);
    }
}

pub open spec fn rows_view(v: Seq<Subscriber>) -> Seq<SubscriberRecord> {
    v.map_values(|s: Subscriber| s@)
}

pub open spec fn tokens_view(v: Seq<ConfirmationToken>) -> Seq<TokenRecord> {
    v.map_values(|t: ConfirmationToken| t@)
}

fn find_id(rows: &Vec<Subscriber>, id: u128) -> (r: Option<usize>)
    ensures
        r matches Some(i) ==> i < rows@.len() && rows@[i as int].id == id,
        r is None ==> !has_id(rows_view(rows@), id),
{
    let mut i: usize = 0;
    while i < rows.len()
        invariant
            i <= rows@.len(),
            forall|j: int| 0 <= j < i ==> (#[trigger] rows@[j]).id != id,
        decreases rows.len() - i,
    {
        if rows[i].id == id {
            return Some(i);
        }
        i = i + 1;
    }
    assert forall|j: int| 0 <= j < rows@.len() implies (#[trigger] rows_view(rows@)[j]).id != id by {
        assert(rows_view(rows@)[j] == rows@[j]@);
    }
    None
}

fn find_email(rows: &Vec<Subscriber>, email: &String) -> (r: Option<usize>)
    ensures
        r matches Some(i) ==> i < rows@.len() && rows@[i as int].email@ == email@,
        r is None ==> !has_email(rows_view(rows@), email@),
{
    let mut i: usize = 0;
    while i < rows.len()
        invariant
            i <= rows@.len(),
            forall|j: int| 0 <= j < i ==> (#[trigger] rows@[j]).email@ != email@,
        decreases rows.len() - i,
    {
        if rows[i].email.eq(email) {
            return Some(i);
        }
        i = i + 1;
    }
    assert forall|j: int| 0 <= j < rows@.len() implies (#[trigger] rows_view(rows@)[j]).email
        != email@ by {
        assert(rows_view(rows@)[j] == rows@[j]@);
    }
    None
}

fn find_token(rows: &Vec<ConfirmationToken>, token: &String) -> (r: Option<usize>)
    ensures
        r matches Some(i) ==> i < rows@.len() && rows@[i as int].token@ == token@,
        r is None ==> !has_token(tokens_view(rows@), token@),
{
    let mut i: usize = 0;
    while i < rows.len()
        invariant
            i <= rows@.len(),
            forall|j: int| 0 <= j < i ==> (#[trigger] rows@[j]).token@ != token@,
        decreases rows.len() - i,
    {
        if rows[i].token.eq(token) {
            return Some(i);
        }
        i = i + 1;
    }
    assert forall|j: int| 0 <= j < rows@.len() implies (#[trigger] tokens_view(rows@)[j]).token
        != token@ by {
        assert(tokens_view(rows@)[j] == rows@[j]@);
    }
    None
}

/// The token values that refer to the subscriber `id`, in order.
pub open spec fn tokens_for(toks: Seq<TokenRecord>, id: u128) -> Seq<Seq<char>>
    decreases toks.len(),
{
    if toks.len() == 0 {
        Seq::empty()
    } else if toks.last().subscriber_id == id {
        tokens_for(toks.drop_last(), id).push(toks.last().token)
    } else {
        tokens_for(toks.drop_last(), id)
    }
}

/// The store after the subscriber with this identifier is confirmed.
pub open spec fn confirm_model(m: StoreModel, id: u128) -> StoreModel {
    StoreModel {
        subscribers: m.subscribers.map_values(
            |s: SubscriberRecord|
                if s.id == id {
                    SubscriberRecord { status: SubscriptionStatus::Confirmed, ..s }
                } else {
                    s
                },
        ),
        tokens: m.tokens,
    }
}

/// Subscriber and token rows, kept well formed (see `wf_model`).
#[derive(Debug)]
pub struct SubscriptionStore {
    subscribers: Vec<Subscriber>,
    tokens: Vec<ConfirmationToken>,
}

impl View for SubscriptionStore {
    type V = StoreModel;

    closed spec fn view(&self) -> StoreModel {
        StoreModel { subscribers: rows_view(self.subscribers@), tokens: tokens_view(self.tokens@) }
    }
}

impl SubscriptionStore {
    pub open spec fn wf(&self) -> bool {
        wf_model(self@)
    }

    /// An empty store.
    pub fn new() -> (r: SubscriptionStore)
        ensures
            r@.subscribers.len() == 0,
            r@.tokens.len() == 0,
            r.wf(),
    {
        SubscriptionStore { subscribers: Vec::new(), tokens: Vec::new() }
    }

    fn add_subscriber_row(&mut self, row: Subscriber) -> (r: Result<(), StoreError>)
        ensures
            subscriber_conflict(old(self)@, row@) matches Some(e) ==> r == Err::<(), StoreError>(e)
                && final(self).subscribers@ == old(self).subscribers@,
            subscriber_conflict(old(self)@, row@) is None ==> r is Ok
                && final(self).subscribers@ == old(self).subscribers@.push(row)
                && final(self)@ == with_subscriber(old(self)@, row@),
            final(self).tokens@ == old(self).tokens@,
    {
        match find_id(&self.subscribers, row.id) {
            Some(i) => {
                assert(rows_view(self.subscribers@)[i as int] == self.subscribers@[i as int]@);
                return Err(StoreError::DuplicateSubscriberId);
            },
            None => {},
        }
        match find_email(&self.subscribers, &row.email) {
            Some(i) => {
                assert(rows_view(self.subscribers@)[i as int] == self.subscribers@[i as int]@);
                return Err(StoreError::DuplicateEmail);
            },
            None => {},
        }
        let ghost row_v = row@;
        self.subscribers.push(row);
        assert(rows_view(self.subscribers@) == rows_view(old(self).subscribers@).push(row_v));
        Ok(())
    }

    fn add_token_row(&mut self, row: ConfirmationToken) -> (r: Result<(), StoreError>)
        ensures
            token_conflict(old(self)@, row@) matches Some(e) ==> r == Err::<(), StoreError>(e)
                && final(self).tokens@ == old(self).tokens@,
            token_conflict(old(self)@, row@) is None ==> r is Ok && final(self).tokens@
                == old(self).tokens@.push(row) && final(self)@ == with_token(old(self)@, row@),
            final(self).subscribers@ == old(self).subscribers@,
    {
        match find_id(&self.subscribers, row.subscriber_id) {
            Some(i) => {
                assert(rows_view(self.subscribers@)[i as int] == self.subscribers@[i as int]@);
            },
            None => {
                return Err(StoreError::UnknownSubscriber);
            },
        }
        match find_token(&self.tokens, &row.token) {
            Some(i) => {
                assert(tokens_view(self.tokens@)[i as int] == self.tokens@[i as int]@);
                return Err(StoreError::DuplicateToken);
            },
            None => {},
        }
        let ghost row_v = row@;
        self.tokens.push(row);
        assert(tokens_view(self.tokens@) == tokens_view(old(self).tokens@).push(row_v));
        Ok(())
    }

    /// The identifier of the subscriber with this email, if there is one.
    pub fn find_subscriber_id_by_email(&self, email: &String) -> (r: Option<u128>)
        requires
            self.wf(),
        ensures
            r == id_of_email(self@.subscribers, email@),
    {
        match find_email(&self.subscribers, email) {
            Some(i) => {
                let ghost subs = self@.subscribers;
                assert(subs[i as int] == self.subscribers@[i as int]@);
                assert(has_email(subs, email@));
                let ghost k = choose|k: int| 0 <= k < subs.len() && (#[trigger] subs[k]).email == email@;
                assert(k == i) by {
                    if k < i {
                        assert(subs[k].email != subs[i as int].email);
                    } else if k > i {
                        assert(subs[i as int].email != subs[k].email);
                    }
                }
                Some(self.subscribers[i].id)
            },
            None => None,
        }
    }

    /// The identifier of the subscriber that this token refers to, if the
    /// token exists.
    pub fn find_subscriber_id_by_token(&self, token: &String) -> (r: Option<u128>)
        requires
            self.wf(),
        ensures
            r == owner_of_token(self@.tokens, token@),
    {
        match find_token(&self.tokens, token) {
            Some(i) => {
                let ghost toks = self@.tokens;
                assert(toks[i as int] == self.tokens@[i as int]@);
                assert(has_token(toks, token@));
                let ghost k = choose|k: int| 0 <= k < toks.len() && (#[trigger] toks[k]).token == token@;
                assert(k == i) by {
                    if k < i {
                        assert(toks[k].token != toks[i as int].token);
                    } else if k > i {
                        assert(toks[i as int].token != toks[k].token);
                    }
                }
                Some(self.tokens[i].subscriber_id)
            },
            None => None,
        }
    }

    /// Marks the subscriber with this identifier as confirmed; a confirmed
    /// subscriber stays confirmed.
    pub fn set_subscriber_confirmed(&mut self, id: u128)
        requires
            old(self).wf(),
        ensures
            final(self).wf(),
            final(self)@ == confirm_model(old(self)@, id),
    {
        let ghost m = self@;
        match find_id(&self.subscribers, id) {
            Some(i) => {
                let row = Subscriber {
                    id: self.subscribers[i].id,
                    email: self.subscribers[i].email.clone(),
                    name: self.subscribers[i].name.clone(),
                    status: SubscriptionStatus::Confirmed,
                    subscribed_at: self.subscribers[i].subscribed_at,
                };
                self.subscribers.set(i, row);
                let ghost m2 = confirm_model(m, id);
                assert forall|j: int| 0 <= j < m.subscribers.len() implies #[trigger] self@.subscribers[j]
                    == m2.subscribers[j] by {
                    assert(m.subscribers[j] == old(self).subscribers@[j]@);
                    assert(self@.subscribers[j] == self.subscribers@[j]@);
                    if j != i {
                        if j < i {
                            assert(m.subscribers[j].id != m.subscribers[i as int].id);
                        } else {
                            assert(m.subscribers[i as int].id != m.subscribers[j].id);
                        }
                    }
                }
                assert(self@.subscribers == m2.subscribers);
                assert forall|k: int| 0 <= k < self@.tokens.len() implies has_id(
                    self@.subscribers,
                    (#[trigger] self@.tokens[k]).subscriber_id,
                ) by {
                    let w = choose|w: int|
                        0 <= w < m.subscribers.len() && (#[trigger] m.subscribers[w]).id
                            == m.tokens[k].subscriber_id;
                    assert(self@.subscribers[w].id == m.subscribers[w].id);
                }
            },
            None => {
                assert(confirm_model(m, id).subscribers == m.subscribers);
            },
        }
    }

    /// A copy of the subscriber row with this email, if there is one.
    pub fn subscriber_by_email(&self, email: &String) -> (r: Option<Subscriber>)
        requires
            self.wf(),
        ensures
            r is Some <==> has_email(self@.subscribers, email@),
            r matches Some(s) ==> self@.subscribers.contains(s@) && s@.email == email@,
    {
        match find_email(&self.subscribers, email) {
            Some(i) => {
                assert(self@.subscribers[i as int] == self.subscribers@[i as int]@);
                Some(self.subscribers[i].copy())
            },
            None => None,
        }
    }

    /// The number of subscriber rows.
    pub fn subscriber_count(&self) -> (r: usize)
        ensures
            r == self@.subscribers.len(),
    {
        self.subscribers.len()
    }

    /// The number of token rows.
    pub fn token_count(&self) -> (r: usize)
        ensures
            r == self@.tokens.len(),
    {
        self.tokens.len()
    }

    /// The tokens that refer to this subscriber, in insertion order.
    pub fn tokens_of(&self, id: u128) -> (r: Vec<String>)
        ensures
            r@.map_values(|t: String| t@) == tokens_for(self@.tokens, id),
    {
        let mut r: Vec<String> = Vec::new();
        let mut i: usize = 0;
        while i < self.tokens.len()
            invariant
                i <= self.tokens@.len(),
                r@.map_values(|t: String| t@) == tokens_for(
                    tokens_view(self.tokens@).subrange(0, i as int),
                    id,
                ),
            decreases self.tokens.len() - i,
        {
            let ghost all = tokens_view(self.tokens@);
            assert(all.subrange(0, i as int + 1).drop_last() == all.subrange(0, i as int));
            assert(all[i as int] == self.tokens@[i as int]@);
            if self.tokens[i].subscriber_id == id {
                r.push(self.tokens[i].token.clone());
            }
            i = i + 1;
        }
        assert(tokens_view(self.tokens@).subrange(0, i as int) == self@.tokens);
        r
    }

    /// Starts a transaction on this store.
    pub fn begin(&self) -> (tx: Transaction)
        ensures
            tx@.subscribers.len() == 0,
            tx@.tokens.len() == 0,
    {
        Transaction { subscribers: Vec::new(), tokens: Vec::new() }
    }
}

/// The writes of an open transaction. Its reads see the store together with
/// these writes; the store sees them only once `commit` succeeds. Dropping
/// the transaction rolls it back.
#[derive(Debug)]
pub struct Transaction {
    subscribers: Vec<Subscriber>,
    tokens: Vec<ConfirmationToken>,
}

impl View for Transaction {
    type V = StoreModel;

    closed spec fn view(&self) -> StoreModel {
        StoreModel { subscribers: rows_view(self.subscribers@), tokens: tokens_view(self.tokens@) }
    }
}

impl Transaction {
    /// The identifier of the subscriber with this email, as the transaction
    /// sees the store.
    pub fn find_subscriber_id_by_email(&self, store: &SubscriptionStore, email: &String) -> (r:
        Option<u128>)
        requires
            wf_model(combined(store@, self@)),
        ensures
            r == id_of_email(combined(store@, self@).subscribers, email@),
    {
        let ghost subs = combined(store@, self@).subscribers;
        let ghost n = store@.subscribers.len();
        let found = match find_email(&store.subscribers, email) {
            Some(i) => {
                assert(subs[i as int] == store.subscribers@[i as int]@);
                Some(store.subscribers[i].id)
            },
            None => match find_email(&self.subscribers, email) {
                Some(i) => {
                    assert(subs[n + i] == self.subscribers@[i as int]@);
                    Some(self.subscribers[i].id)
                },
                None => {
                    assert forall|j: int| 0 <= j < subs.len() implies (#[trigger] subs[j]).email
                        != email@ by {
                        if j < n {
                            assert(subs[j] == store@.subscribers[j]);
                        } else {
                            assert(subs[j] == self@.subscribers[j - n]);
                        }
                    }
                    None
                },
            },
        };
        proof {
            if let Some(v) = found {
                let i = choose|i: int| 0 <= i < subs.len() && subs[i].email == email@ && subs[i].id == v;
                let k = choose|k: int| 0 <= k < subs.len() && (#[trigger] subs[k]).email == email@;
                assert(k == i) by {
                    if k < i {
                        assert(subs[k].email != subs[i].email);
                    } else if k > i {
                        assert(subs[i].email != subs[k].email);
                    }
                }
            }
        }
        found
    }

    /// Stages a subscriber row, unless it conflicts with a row that the
    /// transaction sees.
    pub fn insert_subscriber_row(&mut self, store: &SubscriptionStore, row: Subscriber) -> (r:
        Result<(), StoreError>)
        ensures
            r == (match subscriber_conflict(combined(store@, old(self)@), row@) {
                Some(e) => Err(e),
                None => Ok(()),
            }),
            r is Ok ==> final(self)@ == with_subscriber(old(self)@, row@),
            r is Err ==> final(self)@ == old(self)@,
    {
        let ghost c = combined(store@, self@);
        let ghost n = store@.subscribers.len();
        proof {
            assert forall|j: int| 0 <= j < c.subscribers.len() implies #[trigger] c.subscribers[j] == (
            if j < n {
                store@.subscribers[j]
            } else {
                self@.subscribers[j - n]
            }) by {}
        }
        if let Some(i) = find_id(&store.subscribers, row.id) {
            assert(c.subscribers[i as int] == store.subscribers@[i as int]@);
            return Err(StoreError::DuplicateSubscriberId);
        }
        if let Some(i) = find_id(&self.subscribers, row.id) {
            assert(c.subscribers[n + i] == self.subscribers@[i as int]@);
            return Err(StoreError::DuplicateSubscriberId);
        }
        assert(!has_id(c.subscribers, row.id)) by {
            assert forall|j: int| 0 <= j < c.subscribers.len() implies (#[trigger] c.subscribers[j]).id
                != row.id by {
                if j < n {
                    assert(c.subscribers[j] == store@.subscribers[j]);
                } else {
                    assert(c.subscribers[j] == self@.subscribers[j - n]);
                }
            }
        }
        if let Some(i) = find_email(&store.subscribers, &row.email) {
            assert(c.subscribers[i as int] == store.subscribers@[i as int]@);
            return Err(StoreError::DuplicateEmail);
        }
        if let Some(i) = find_email(&self.subscribers, &row.email) {
            assert(c.subscribers[n + i] == self.subscribers@[i as int]@);
            return Err(StoreError::DuplicateEmail);
        }
        assert(!has_email(c.subscribers, row.email@)) by {
            assert forall|j: int| 0 <= j < c.subscribers.len() implies (#[trigger] c.subscribers[j]).email
                != row.email@ by {
                if j < n {
                    assert(c.subscribers[j] == store@.subscribers[j]);
                } else {
                    assert(c.subscribers[j] == self@.subscribers[j - n]);
                }
            }
        }
        let ghost row_v = row@;
        self.subscribers.push(row);
        assert(rows_view(self.subscribers@) == rows_view(old(self).subscribers@).push(row_v));
        Ok(())
    }

    /// Stages a token row, unless it refers to a subscriber that the
    /// transaction does not see or repeats a token that it sees.
    pub fn insert_token_row(&mut self, store: &SubscriptionStore, row: ConfirmationToken) -> (r:
        Result<(), StoreError>)
        ensures
            r == (match token_conflict(combined(store@, old(self)@), row@) {
                Some(e) => Err(e),
                None => Ok(()),
            }),
            r is Ok ==> final(self)@ == with_token(old(self)@, row@),
            r is Err ==> final(self)@ == old(self)@,
    {
        let ghost c = combined(store@, self@);
        let ghost n = store@.subscribers.len();
        let ghost nt = store@.tokens.len();
        let known = match find_id(&store.subscribers, row.subscriber_id) {
            Some(i) => {
                assert(c.subscribers[i as int] == store.subscribers@[i as int]@);
                true
            },
            None => match find_id(&self.subscribers, row.subscriber_id) {
                Some(i) => {
                    assert(c.subscribers[n + i] == self.subscribers@[i as int]@);
                    true
                },
                None => {
                    assert forall|j: int| 0 <= j < c.subscribers.len() implies (#[trigger] c.subscribers[j]).id
                        != row.subscriber_id by {
                        if j < n {
                            assert(c.subscribers[j] == store@.subscribers[j]);
                        } else {
                            assert(c.subscribers[j] == self@.subscribers[j - n]);
                        }
                    }
                    false
                },
            },
        };
        if !known {
            return Err(StoreError::UnknownSubscriber);
        }
        if let Some(i) = find_token(&store.tokens, &row.token) {
            assert(c.tokens[i as int] == store.tokens@[i as int]@);
            return Err(StoreError::DuplicateToken);
        }
        if let Some(i) = find_token(&self.tokens, &row.token) {
            assert(c.tokens[nt + i] == self.tokens@[i as int]@);
            return Err(StoreError::DuplicateToken);
        }
        assert(!has_token(c.tokens, row.token@)) by {
            assert forall|j: int| 0 <= j < c.tokens.len() implies (#[trigger] c.tokens[j]).token
                != row.token@ by {
                if j < nt {
                    assert(c.tokens[j] == store@.tokens[j]);
                } else {
                    assert(c.tokens[j] == self@.tokens[j - nt]);
                }
            }
        }
        let ghost row_v = row@;
        self.tokens.push(row);
        assert(tokens_view(self.tokens@) == tokens_view(old(self).tokens@).push(row_v));
        Ok(())
    }

    /// Makes the staged writes visible in the store, all of them or, where one
    /// conflicts with the store as it now is, none.
    pub fn commit(self, store: &mut SubscriptionStore) -> (r: Result<(), StoreError>)
        requires
            old(store).wf(),
        ensures
            final(store).wf(),
            commit_model(old(store)@, self@) matches Ok(m) ==> r is Ok && final(store)@ == m,
            commit_model(old(store)@, self@) matches Err(e) ==> r == Err::<(), StoreError>(e)
                && final(store)@ == old(store)@,
    {
        let ghost m0 = store@;
        let ghost staged = self@;
        let n_subs = store.subscribers.len();
        let n_toks = store.tokens.len();
        let mut i: usize = 0;
        while i < self.subscribers.len()
            invariant
                i <= self.subscribers@.len(),
                staged == self@,
                m0 == old(store)@,
                wf_model(m0),
                n_subs <= store.subscribers@.len(),
                store.subscribers@.subrange(0, n_subs as int) == old(store).subscribers@,
                store.tokens@ == old(store).tokens@,
                n_subs == old(store).subscribers@.len(),
                n_toks == old(store).tokens@.len(),
                apply_subscribers(m0, staged.subscribers.subrange(0, i as int)) == Ok::<
                    StoreModel,
                    StoreError,
                >(store@),
            decreases self.subscribers.len() - i,
        {
            let ghost before = store@;
            let ghost pre = staged.subscribers.subrange(0, i as int + 1);
            assert(pre.drop_last() == staged.subscribers.subrange(0, i as int));
            assert(pre.last() == self.subscribers@[i as int]@);
            match store.add_subscriber_row(self.subscribers[i].copy()) {
                Ok(()) => {
                    assert(store@ == with_subscriber(before, pre.last()));
                },
                Err(e) => {
                    store.subscribers.truncate(n_subs);
                    assert(store.subscribers@ == old(store).subscribers@);
                    assert(store@ == m0);
                    proof {
                        lemma_apply_subscribers_err(m0, staged.subscribers, i as int + 1);
                    }
                    return Err(e);
                },
            }
            i = i + 1;
        }
        assert(staged.subscribers.subrange(0, i as int) == staged.subscribers);
        let ghost m1 = store@;
        let mut k: usize = 0;
        while k < self.tokens.len()
            invariant
                k <= self.tokens@.len(),
                staged == self@,
                m0 == old(store)@,
                wf_model(m0),
                n_subs <= store.subscribers@.len(),
                n_toks <= store.tokens@.len(),
                store.subscribers@.subrange(0, n_subs as int) == old(store).subscribers@,
                store.tokens@.subrange(0, n_toks as int) == old(store).tokens@,
                n_subs == old(store).subscribers@.len(),
                n_toks == old(store).tokens@.len(),
                apply_subscribers(m0, staged.subscribers) == Ok::<StoreModel, StoreError>(m1),
                apply_tokens(m1, staged.tokens.subrange(0, k as int)) == Ok::<
                    StoreModel,
                    StoreError,
                >(store@),
            decreases self.tokens.len() - k,
        {
            let ghost before = store@;
            let ghost pre = staged.tokens.subrange(0, k as int + 1);
            assert(pre.drop_last() == staged.tokens.subrange(0, k as int));
            assert(pre.last() == self.tokens@[k as int]@);
            match store.add_token_row(self.tokens[k].copy()) {
                Ok(()) => {
                    assert(store@ == with_token(before, pre.last()));
                },
                Err(e) => {
                    store.subscribers.truncate(n_subs);
                    store.tokens.truncate(n_toks);
                    assert(store.subscribers@ == old(store).subscribers@);
                    assert(store.tokens@ == old(store).tokens@);
                    assert(store@ == m0);
                    proof {
                        lemma_apply_tokens_err(m1, staged.tokens, k as int + 1);
                    }
                    return Err(e);
                },
            }
            k = k + 1;
        }
        assert(staged.tokens.subrange(0, k as int) == staged.tokens);
        proof {
            lemma_commit_wf(m0, staged);
        }
        Ok(())
    }
}

} // verus!
