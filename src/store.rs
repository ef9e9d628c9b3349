//! An in-memory credential store for subscriptions: subscribers and their
//! confirmation tokens, with the constraints that the persistent store
//! enforces (one subscriber per address, unique ids and tokens, every token
//! bound to a subscriber) and a signup that writes both rows or neither.
use vstd::prelude::*;
use crate::models::{Subscription, SubscriptionStatus, SubscriptionToken, SubscriptionView};
use crate::subscriptions::PendingSubscription;
use crate::text::str_eq;

verus! {

/// The store as plain values.
pub struct StoreView {
    pub subscriptions: Seq<SubscriptionView>,
    pub tokens: Seq<(Seq<char>, u128)>,
}

pub open spec fn has_email(v: StoreView, email: Seq<char>) -> bool {
    exists|i: int| 0 <= i < v.subscriptions.len() && #[trigger] v.subscriptions[i].email == email
}

pub open spec fn has_id(v: StoreView, id: u128) -> bool {
    exists|i: int| 0 <= i < v.subscriptions.len() && #[trigger] v.subscriptions[i].id == id
}

pub open spec fn has_token(v: StoreView, token: Seq<char>) -> bool {
    exists|i: int| 0 <= i < v.tokens.len() && #[trigger] v.tokens[i].0 == token
}

/// Ids and addresses are unique among subscribers, tokens among tokens, and
/// each token refers to a subscriber.
pub open spec fn store_wf(v: StoreView) -> bool {
    &&& forall|i: int, j: int|
        0 <= i < v.subscriptions.len() && 0 <= j < v.subscriptions.len() && i != j ==> {
            &&& #[trigger] v.subscriptions[i].id != #[trigger] v.subscriptions[j].id
            &&& v.subscriptions[i].email != v.subscriptions[j].email
        }
    &&& forall|i: int, j: int|
        0 <= i < v.tokens.len() && 0 <= j < v.tokens.len() && i != j ==> #[trigger] v.tokens[i].0
            != #[trigger] v.tokens[j].0
    &&& forall|i: int| 0 <= i < v.tokens.len() ==> has_id(v, #[trigger] v.tokens[i].1)
}

/// Which constraint a write broke.
#[derive(PartialEq, Eq, Structural, Clone, Copy, Debug)]
pub enum StoreError {
    DuplicateEmail,
    DuplicateId,
    DuplicateToken,
}

/// The outcome of the signup transaction on a store.
pub open spec fn signup_outcome(v: StoreView, sub: SubscriptionView, token: (Seq<char>, u128)) -> Result<
    StoreView,
    StoreError,
> {
    if has_email(v, sub.email) {
        Err(StoreError::DuplicateEmail)
    } else if has_id(v, sub.id) {
        Err(StoreError::DuplicateId)
    } else if has_token(v, token.0) {
        Err(StoreError::DuplicateToken)
    } else {
        Ok(StoreView { subscriptions: v.subscriptions.push(sub), tokens: v.tokens.push(token) })
    }
}

/// The subscriber that a token refers to, if the store holds the token.
pub open spec fn token_owner(v: StoreView, token: Seq<char>) -> Option<u128> {
    if has_token(v, token) {
        Some(v.tokens[choose|i: int| 0 <= i < v.tokens.len() && #[trigger] v.tokens[i].0 == token].1)
    } else {
        None
    }
}

/// A subscriber with its status set to confirmed.
pub open spec fn confirmed(s: SubscriptionView) -> SubscriptionView {
    SubscriptionView { status: SubscriptionStatus::Confirmed, ..s }
}

/// The store with the subscriber of the given id confirmed.
pub open spec fn with_confirmed(v: StoreView, id: u128) -> StoreView {
    StoreView {
        subscriptions: v.subscriptions.map_values(
            |s: SubscriptionView|
                if s.id == id {
                    confirmed(s)
                } else {
                    s
                },
        ),
        tokens: v.tokens,
    }
}

/// A signup that the constraints let through keeps the store well formed.
pub proof fn lemma_signup_wf(v: StoreView, sub: SubscriptionView, tok: (Seq<char>, u128))
    requires
        store_wf(v),
        tok.1 == sub.id,
        signup_outcome(v, sub, tok) is Ok,
    ensures
        store_wf(signup_outcome(v, sub, tok)->Ok_0),
{
    let w = signup_outcome(v, sub, tok)->Ok_0;
    assert forall|i: int| 0 <= i < w.tokens.len() implies has_id(w, #[trigger] w.tokens[i].1) by {
        if i < v.tokens.len() {
            let k = choose|k: int|
                0 <= k < v.subscriptions.len() && #[trigger] v.subscriptions[k].id == v.tokens[i].1;
            assert(w.subscriptions[k] == v.subscriptions[k]);
        } else {
            assert(w.subscriptions[v.subscriptions.len() as int] == sub);
        }
    }
    assert forall|i: int, j: int|
        0 <= i < w.subscriptions.len() && 0 <= j < w.subscriptions.len() && i != j implies {
        &&& #[trigger] w.subscriptions[i].id != #[trigger] w.subscriptions[j].id
        &&& w.subscriptions[i].email != w.subscriptions[j].email
    } by {
        let n = v.subscriptions.len() as int;
        if i == n {
            assert(w.subscriptions[j] == v.subscriptions[j]);
        } else if j == n {
            assert(w.subscriptions[i] == v.subscriptions[i]);
        }
    }
    assert forall|i: int, j: int|
        0 <= i < w.tokens.len() && 0 <= j < w.tokens.len() && i != j implies #[trigger] w.tokens[i].0
        != #[trigger] w.tokens[j].0 by {
        let n = v.tokens.len() as int;
        if i == n {
            assert(w.tokens[j] == v.tokens[j]);
        } else if j == n {
            assert(w.tokens[i] == v.tokens[i]);
        }
    }
}

/// Confirming keeps the store well formed.
pub proof fn lemma_confirm_wf(v: StoreView, id: u128)
    requires
        store_wf(v),
    ensures
        store_wf(with_confirmed(v, id)),
{
    let w = with_confirmed(v, id);
    assert forall|i: int| 0 <= i < w.tokens.len() implies has_id(w, #[trigger] w.tokens[i].1) by {
        let k = choose|k: int|
            0 <= k < v.subscriptions.len() && #[trigger] v.subscriptions[k].id == v.tokens[i].1;
        assert(w.subscriptions[k].id == v.subscriptions[k].id);
    }
    assert forall|i: int, j: int|
        0 <= i < w.subscriptions.len() && 0 <= j < w.subscriptions.len() && i != j implies {
        &&& #[trigger] w.subscriptions[i].id != #[trigger] w.subscriptions[j].id
        &&& w.subscriptions[i].email != w.subscriptions[j].email
    } by {
        assert(v.subscriptions[i].id != v.subscriptions[j].id);
    }
}

/// The subscriber with the given address, if there is one.
pub open spec fn subscriber_with_email(v: StoreView, email: Seq<char>) -> Option<SubscriptionView> {
    if has_email(v, email) {
        Some(
            v.subscriptions[choose|i: int|
                0 <= i < v.subscriptions.len() && #[trigger] v.subscriptions[i].email == email],
        )
    } else {
        None
    }
}

/// How many tokens refer to the subscriber with the given id.
pub open spec fn token_count(tokens: Seq<(Seq<char>, u128)>, id: u128) -> nat
    decreases tokens.len(),
{
    if tokens.len() == 0 {
        0
    } else {
        token_count(tokens.drop_last(), id) + if tokens.last().1 == id {
            1nat
        } else {
            0nat
        }
    }
}

/// The addresses of the confirmed subscribers, in the order of the rows.
pub open spec fn confirmed_emails_of(subs: Seq<SubscriptionView>) -> Seq<Seq<char>>
    decreases subs.len(),
{
    if subs.len() == 0 {
        Seq::empty()
    } else {
        let rest = confirmed_emails_of(subs.drop_last());
        if subs.last().status == SubscriptionStatus::Confirmed {
            rest.push(subs.last().email)
        } else {
            rest
        }
    }
}

/// A status only moves from pending to confirmed: neither a signup nor a
/// confirmation turns a confirmed subscriber back, and rows keep their place.
pub proof fn confirmed_stays_confirmed(
    v: StoreView,
    sub: SubscriptionView,
    token: (Seq<char>, u128),
    id: u128,
    i: int,
)
    requires
        0 <= i < v.subscriptions.len(),
        v.subscriptions[i].status == SubscriptionStatus::Confirmed,
    ensures
        with_confirmed(v, id).subscriptions[i].status == SubscriptionStatus::Confirmed,
        signup_outcome(v, sub, token) matches Ok(w) ==> w.subscriptions[i]
            == v.subscriptions[i],
{
}

pub struct SubscriptionStore {
    subscriptions: Vec<Subscription>,
    tokens: Vec<SubscriptionToken>,
}

impl View for SubscriptionStore {
    type V = StoreView;

    closed spec fn view(&self) -> StoreView {
        StoreView {
            subscriptions: self.subscriptions@.map_values(|s: Subscription| s@),
            tokens: self.tokens@.map_values(|t: SubscriptionToken| t@),
        }
    }
}

proof fn lemma_token_owner(v: StoreView, token: Seq<char>, i: int)
    requires
        store_wf(v),
        0 <= i < v.tokens.len(),
        v.tokens[i].0 == token,
    ensures
        token_owner(v, token) == Some(v.tokens[i].1),
{
    assert(has_token(v, token));
    let k = choose|k: int| 0 <= k < v.tokens.len() && #[trigger] v.tokens[k].0 == token;
    if k != i {
        assert(v.tokens[k].0 != v.tokens[i].0);
    }
}

impl SubscriptionStore {
    pub open spec fn wf(&self) -> bool {
        store_wf(self@)
    }

    /// An empty store.
    pub fn new() -> (r: SubscriptionStore)
        ensures
            r.wf(),
            r@.subscriptions.len() == 0,
            r@.tokens.len() == 0,
    {
        let r = SubscriptionStore { subscriptions: Vec::new(), tokens: Vec::new() };
        assert(r@.subscriptions =~= Seq::<SubscriptionView>::empty());
        assert(r@.tokens =~= Seq::<(Seq<char>, u128)>::empty());
        r
    }

    fn find_email(&self, email: &str) -> (r: bool)
        ensures
            r == has_email(self@, email@),
    {
        let mut i: usize = 0;
        while i < self.subscriptions.len()
            invariant
                i <= self.subscriptions@.len(),
                self@.subscriptions.len() == self.subscriptions@.len(),
                forall|k: int| 0 <= k < i ==> #[trigger] self@.subscriptions[k].email != email@,
            decreases self.subscriptions.len() - i,
        {
            assert(self@.subscriptions[i as int] == self.subscriptions@[i as int]@);
            if str_eq(self.subscriptions[i].email.as_str(), email) {
                assert(self@.subscriptions[i as int].email == email@);
                return true;
            }
            i = i + 1;
        }
        false
    }

    fn find_id(&self, id: u128) -> (r: bool)
        ensures
            r == has_id(self@, id),
    {
        let mut i: usize = 0;
        while i < self.subscriptions.len()
            invariant
                i <= self.subscriptions@.len(),
                self@.subscriptions.len() == self.subscriptions@.len(),
                forall|k: int| 0 <= k < i ==> #[trigger] self@.subscriptions[k].id != id,
            decreases self.subscriptions.len() - i,
        {
            assert(self@.subscriptions[i as int] == self.subscriptions@[i as int]@);
            if self.subscriptions[i].id == id {
                assert(self@.subscriptions[i as int].id == id);
                return true;
            }
            i = i + 1;
        }
        false
    }

    /// The subscriber that `token` confirms, where the store holds the token.
    pub fn find_subscriber_id_by_token(&self, token: &str) -> (r: Option<u128>)
        requires
            self.wf(),
        ensures
            r == token_owner(self@, token@),
    {
        let mut i: usize = 0;
        while i < self.tokens.len()
            invariant
                self.wf(),
                i <= self.tokens@.len(),
                self@.tokens.len() == self.tokens@.len(),
                forall|k: int| 0 <= k < i ==> #[trigger] self@.tokens[k].0 != token@,
            decreases self.tokens.len() - i,
        {
            assert(self@.tokens[i as int] == self.tokens@[i as int]@);
            if str_eq(self.tokens[i].subscription_token.as_str(), token) {
                proof {
                    lemma_token_owner(self@, token@, i as int);
                }
                return Some(self.tokens[i].subscriber_id);
            }
            i = i + 1;
        }
        None
    }

    /// The subscriber with the given address, if there is one.
    pub fn find_subscription_by_email(&self, email: &str) -> (r: Option<Subscription>)
        requires
            self.wf(),
        ensures
            match (r, subscriber_with_email(self@, email@)) {
                (Some(s), Some(t)) => s@ == t,
                (None, None) => true,
                _ => false,
            },
    {
        let mut i: usize = 0;
        while i < self.subscriptions.len()
            invariant
                self.wf(),
                i <= self.subscriptions@.len(),
                self@.subscriptions.len() == self.subscriptions@.len(),
                forall|k: int| 0 <= k < i ==> #[trigger] self@.subscriptions[k].email != email@,
            decreases self.subscriptions.len() - i,
        {
            assert(self@.subscriptions[i as int] == self.subscriptions@[i as int]@);
            if str_eq(self.subscriptions[i].email.as_str(), email) {
                proof {
                    let v = self@;
                    assert(v.subscriptions[i as int].email == email@);
                    assert(has_email(v, email@));
                    let k = choose|k: int|
                        0 <= k < v.subscriptions.len() && #[trigger] v.subscriptions[k].email
                            == email@;
                    if k != i {
                        assert(v.subscriptions[k].id != v.subscriptions[i as int].id);
                    }
                }
                return Some(self.subscriptions[i].clone());
            }
            i = i + 1;
        }
        None
    }

    /// How many tokens refer to the subscriber with the given id.
    pub fn count_tokens_for(&self, id: u128) -> (r: usize)
        ensures
            r == token_count(self@.tokens, id),
    {
        let mut n: usize = 0;
        let mut i: usize = 0;
        while i < self.tokens.len()
            invariant
                i <= self.tokens@.len(),
                self@.tokens.len() == self.tokens@.len(),
                n == token_count(self@.tokens.take(i as int), id),
                n <= i,
            decreases self.tokens.len() - i,
        {
            assert(self@.tokens.take(i + 1).drop_last() =~= self@.tokens.take(i as int));
            assert(self@.tokens[i as int] == self.tokens@[i as int]@);
            if self.tokens[i].subscriber_id == id {
                n = n + 1;
            }
            i = i + 1;
        }
        assert(self@.tokens.take(i as int) =~= self@.tokens);
        n
    }

    /// The addresses of the confirmed subscribers: the rows that a broadcast
    /// goes to.
    pub fn confirmed_emails(&self) -> (r: Vec<String>)
        ensures
            r@.map_values(|e: String| e@) == confirmed_emails_of(self@.subscriptions),
    {
        let mut r: Vec<String> = Vec::new();
        let mut i: usize = 0;
        while i < self.subscriptions.len()
            invariant
                i <= self.subscriptions@.len(),
                self@.subscriptions.len() == self.subscriptions@.len(),
                r@.map_values(|e: String| e@) == confirmed_emails_of(
                    self@.subscriptions.take(i as int),
                ),
            decreases self.subscriptions.len() - i,
        {
            let ghost before = r@;
            assert(self@.subscriptions.take(i + 1).drop_last() =~= self@.subscriptions.take(i as int));
            assert(self@.subscriptions[i as int] == self.subscriptions@[i as int]@);
            if self.subscriptions[i].status == SubscriptionStatus::Confirmed {
                r.push(self.subscriptions[i].email.clone());
                assert(r@.map_values(|e: String| e@) =~= before.map_values(|e: String| e@).push(
                    self@.subscriptions[i as int].email,
                ));
            }
            i = i + 1;
        }
        assert(self@.subscriptions.take(i as int) =~= self@.subscriptions);
        r
    }

    /// Writes a subscriber and its token in one transaction: both rows, or,
    /// where a constraint would break, neither.
    pub fn insert_subscriber_with_token(&mut self, pending: PendingSubscription) -> (r: Result<
        (),
        StoreError,
    >)
        requires
            old(self).wf(),
            pending.token.subscriber_id == pending.subscription.id,
        ensures
            final(self).wf(),
            match signup_outcome(old(self)@, pending.subscription@, pending.token@) {
                Ok(v) => r is Ok && final(self)@ == v,
                Err(e) => r == Err::<(), StoreError>(e) && final(self)@ == old(self)@,
            },
    {
        if self.find_email(pending.subscription.email.as_str()) {
            return Err(StoreError::DuplicateEmail);
        }
        if self.find_id(pending.subscription.id) {
            return Err(StoreError::DuplicateId);
        }
        if self.find_subscriber_id_by_token(pending.token.subscription_token.as_str()).is_some() {
            return Err(StoreError::DuplicateToken);
        }
        let ghost v = self@;
        let ghost sub = pending.subscription@;
        let ghost tok = pending.token@;
        self.subscriptions.push(pending.subscription);
        self.tokens.push(pending.token);
        proof {
            assert(self@.subscriptions =~= v.subscriptions.push(sub));
            assert(self@.tokens =~= v.tokens.push(tok));
            lemma_signup_wf(v, sub, tok);
        }
        Ok(())
    }

    /// Sets the status of the subscriber with the given id to confirmed. It
    /// changes nothing where there is no such subscriber, and nothing more
    /// where it is confirmed already.
    pub fn set_subscriber_confirmed(&mut self, id: u128)
        requires
            old(self).wf(),
        ensures
            final(self).wf(),
            final(self)@ == with_confirmed(old(self)@, id),
    {
        let ghost v = self@;
        let mut i: usize = 0;
        while i < self.subscriptions.len()
            invariant
                store_wf(v),
                i <= self.subscriptions@.len(),
                self.subscriptions@.len() == v.subscriptions.len(),
                self@.tokens == v.tokens,
                forall|k: int|
                    0 <= k < i ==> #[trigger] self.subscriptions@[k]@ == (if v.subscriptions[k].id
                        == id {
                        confirmed(v.subscriptions[k])
                    } else {
                        v.subscriptions[k]
                    }),
                forall|k: int|
                    i <= k < self.subscriptions@.len() ==> #[trigger] self.subscriptions@[k]@
                        == v.subscriptions[k],
            decreases self.subscriptions.len() - i,
        {
            if self.subscriptions[i].id == id {
                let mut s = self.subscriptions[i].clone();
                s.status = SubscriptionStatus::Confirmed;
                self.subscriptions.set(i, s);
                assert(self.subscriptions@[i as int]@ == confirmed(v.subscriptions[i as int]));
            }
            i = i + 1;
        }
        proof {
            let w = with_confirmed(v, id);
            assert(self@.subscriptions =~= w.subscriptions) by {
                assert forall|k: int| 0 <= k < w.subscriptions.len() implies self@.subscriptions[k]
                    == w.subscriptions[k] by {
                    assert(self@.subscriptions[k] == self.subscriptions@[k]@);
                }
            }
            assert(self@.tokens =~= w.tokens);
            lemma_confirm_wf(v, id);
        }
    }
}

} // verus!
