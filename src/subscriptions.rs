//! Signing up: validating the form, drawing the subscriber's id and
//! confirmation token, and writing the confirmation email.
use vstd::prelude::*;
use rand::Rng;
use crate::domain::{
    valid_email, valid_name, rejection, NewSubscriber, SubscriberEmail, SubscriberName,
};
use crate::models::{Subscription, SubscriptionStatus, SubscriptionToken};
use crate::models::SubscriptionView;
use crate::store::{
    has_email, has_id, has_token, lemma_signup_wf, signup_outcome, store_wf,
    subscriber_with_email, token_count, token_owner, StoreError, StoreView, SubscriptionStore,
};
use crate::text::push_char;

verus! {

/// The fields of the signup form, as sent.
pub struct FormData {
    pub name: String,
    pub email: String,
}

/// Why a signup failed.
#[derive(Debug)]
pub enum SubscribeError {
    /// The form did not validate: answered with 400.
    ValidationError(String),
    /// The store or the email transport failed: answered with 500.
    UnexpectedError(String),
}

impl SubscribeError {
    pub open spec fn spec_status_code(&self) -> u16 {
        match self {
            SubscribeError::ValidationError(_) => 400,
            SubscribeError::UnexpectedError(_) => 500,
        }
    }

    /// The HTTP status that answers the request.
    pub fn status_code(&self) -> (r: u16)
        ensures
            r == self.spec_status_code(),
    {
        match self {
            SubscribeError::ValidationError(_) => 400,
            SubscribeError::UnexpectedError(_) => 500,
        }
    }
}

/// The message that refuses a form: the address is checked first.
pub open spec fn form_rejection(name: Seq<char>, email: Seq<char>) -> Seq<char> {
    if !valid_email(email) {
        rejection(email, "email"@)
    } else {
        rejection(name, "name"@)
    }
}

impl NewSubscriber {
    /// Validates both fields of the form, the address first.
    pub fn try_from(form: FormData) -> (r: Result<NewSubscriber, String>)
        ensures
            r is Ok <==> valid_email(form.email@) && valid_name(form.name@),
            r matches Ok(s) ==> s.email@ == form.email@ && s.name@ == form.name@ && s.email.wf()
                && s.name.wf(),
            r matches Err(e) ==> e@ == form_rejection(form.name@, form.email@),
    {
        let email = SubscriberEmail::parse(form.email)?;
        let name = SubscriberName::parse(form.name)?;
        Ok(NewSubscriber { email, name })
    }
}

/// The number of characters of a confirmation token.
pub const TOKEN_LENGTH: usize = 25;

pub open spec fn is_ascii_alphanumeric(c: char) -> bool {
    ('a' <= c && c <= 'z') || ('A' <= c && c <= 'Z') || ('0' <= c && c <= '9')
}

/// A confirmation token: `TOKEN_LENGTH` ASCII letters and digits.
pub open spec fn valid_token(t: Seq<char>) -> bool {
    &&& t.len() == TOKEN_LENGTH
    &&& forall|i: int| 0 <= i < t.len() ==> is_ascii_alphanumeric(#[trigger] t[i])
}

/// Relies on `rand::distributions::Alphanumeric`, sampled with `thread_rng()`,
/// a generator fit for cryptographic use: one ASCII letter or digit, drawn
/// uniformly.
#[verifier::external_body]
fn random_alphanumeric() -> (r: u8)
    ensures
        is_ascii_alphanumeric(r as char),
{
    rand::thread_rng().sample(rand::distributions::Alphanumeric)
}

/// Draws a fresh confirmation token.
pub fn generate_subscription_token() -> (r: String)
    ensures
        valid_token(r@),
{
    let mut token = String::new();
    let mut i: usize = 0;
    while i < TOKEN_LENGTH
        invariant
            i <= TOKEN_LENGTH,
            token@.len() == i,
            forall|k: int| 0 <= k < i ==> is_ascii_alphanumeric(#[trigger] token@[k]),
        decreases TOKEN_LENGTH - i,
    {
        let b = random_alphanumeric();
        push_char(&mut token, b as char);
        i = i + 1;
    }
    token
}

/// Relies on `uuid::Uuid::new_v4` and `Uuid::as_u128`: a random UUID, with
/// version 4 and the RFC 4122 variant set in its bits.
#[verifier::external_body]
fn random_uuid() -> (r: u128)
    ensures
        (r >> 76u128) & 0xfu128 == 4,
        (r >> 62u128) & 0x3u128 == 2,
{
    uuid::Uuid::new_v4().as_u128()
}

/// Relies on `chrono::Utc::now` and `DateTime::timestamp`: the seconds since
/// the Unix epoch now. `Utc::now` panics on a clock set before the epoch, so
/// what it returns is not negative.
#[verifier::external_body]
fn now_timestamp() -> (r: i64)
    ensures
        r >= 0,
{
    chrono::Utc::now().timestamp()
}

/// What one signup writes to the store, in one transaction.
pub struct PendingSubscription {
    pub subscription: Subscription,
    pub token: SubscriptionToken,
}

impl PendingSubscription {
    /// The subscriber is new, waits for confirmation, and the token is a valid
    /// one that refers to it.
    pub open spec fn wf(&self) -> bool {
        &&& self.subscription.status == SubscriptionStatus::PendingConfirmation
        &&& valid_token(self.token.subscription_token@)
        &&& self.token.subscriber_id == self.subscription.id
        &&& self.subscription.subscribed_at >= 0
    }
}

/// Validates the form and draws what a signup writes: a subscriber waiting
/// for confirmation, with a fresh id and the time now, and a fresh token for
/// it.
pub fn prepare_subscription(form: FormData) -> (r: Result<PendingSubscription, SubscribeError>)
    ensures
        r is Ok <==> valid_email(form.email@) && valid_name(form.name@),
        r matches Ok(p) ==> p.wf() && p.subscription.email@ == form.email@
            && p.subscription.name@ == form.name@,
        r matches Err(e) ==> (e matches SubscribeError::ValidationError(m) && m@ == form_rejection(
            form.name@,
            form.email@,
        )),
{
    let new_subscriber = match NewSubscriber::try_from(form) {
        Ok(s) => s,
        Err(e) => {
            return Err(SubscribeError::ValidationError(e));
        },
    };
    let id = random_uuid();
    let subscribed_at = now_timestamp();
    let token = generate_subscription_token();
    let subscription = Subscription {
        id,
        email: String::from_str(new_subscriber.email.as_str()),
        name: String::from_str(new_subscriber.name.as_str()),
        subscribed_at,
        status: SubscriptionStatus::PendingConfirmation,
    };
    Ok(PendingSubscription {
        subscription,
        token: SubscriptionToken { subscription_token: token, subscriber_id: id },
    })
}

/// The link that confirms a subscription.
pub open spec fn confirmation_link(base_url: Seq<char>, token: Seq<char>) -> Seq<char> {
    base_url + "/subscriptions/confirm?subscription_token="@ + token
}

pub open spec fn confirmation_html(link: Seq<char>) -> Seq<char> {
    "Welcome to our newsletter!<br />Click <a href=\""@ + link
        + "\">here</a> to confirm your subscription."@
}

pub open spec fn confirmation_text(link: Seq<char>) -> Seq<char> {
    "Welcome to our newsletter!\nVisit "@ + link + " to confirm your subscription."@
}

/// An email for the transport to deliver.
pub struct OutgoingEmail {
    pub recipient: String,
    pub subject: String,
    pub html_body: String,
    pub text_body: String,
}

/// Builds the link that confirms the subscription that `token` belongs to.
pub fn build_confirmation_link(base_url: &str, token: &str) -> (r: String)
    ensures
        r@ == confirmation_link(base_url@, token@),
{
    let mut link = String::from_str(base_url);
    link.append("/subscriptions/confirm?subscription_token=");
    link.append(token);
    link
}

/// Writes the email that asks a new subscriber to confirm: subject
/// `Welcome!`, and a body in HTML and in text that both carry the link.
pub fn confirmation_email(recipient: &str, base_url: &str, token: &str) -> (r: OutgoingEmail)
    ensures
        r.recipient@ == recipient@,
        r.subject@ == "Welcome!"@,
        r.html_body@ == confirmation_html(confirmation_link(base_url@, token@)),
        r.text_body@ == confirmation_text(confirmation_link(base_url@, token@)),
{
    let link = build_confirmation_link(base_url, token);
    let mut html_body = String::from_str("Welcome to our newsletter!<br />Click <a href=\"");
    html_body.append(link.as_str());
    html_body.append("\">here</a> to confirm your subscription.");
    let mut text_body = String::from_str("Welcome to our newsletter!\nVisit ");
    text_body.append(link.as_str());
    text_body.append(" to confirm your subscription.");
    OutgoingEmail {
        recipient: String::from_str(recipient),
        subject: String::from_str("Welcome!"),
        html_body,
        text_body,
    }
}

/// `after` is `before` after a signup with the given name, address and token: a
/// subscriber waiting for confirmation was added, with the token bound to it.
pub open spec fn is_signup(
    before: StoreView,
    after: StoreView,
    name: Seq<char>,
    email: Seq<char>,
    token: Seq<char>,
) -> bool {
    let sub = after.subscriptions.last();
    &&& after.subscriptions.len() == before.subscriptions.len() + 1
    &&& sub.email == email
    &&& sub.name == name
    &&& sub.status == SubscriptionStatus::PendingConfirmation
    &&& valid_token(token)
    &&& signup_outcome(before, sub, (token, sub.id)) == Ok::<StoreView, StoreError>(after)
}

/// Writes a prepared signup to the store in one transaction and returns the
/// confirmation email to send. Where the address, the id or the token is
/// taken already, nothing is written and the signup fails as an internal
/// error: the drawn values are not replaced by new ones.
pub fn register_subscription(
    store: &mut SubscriptionStore,
    pending: PendingSubscription,
    base_url: &str,
) -> (r: Result<OutgoingEmail, SubscribeError>)
    requires
        old(store).wf(),
        pending.wf(),
    ensures
        final(store).wf(),
        match signup_outcome(old(store)@, pending.subscription@, pending.token@) {
            Ok(v) => final(store)@ == v && (r matches Ok(mail) && {
                let link = confirmation_link(base_url@, pending.token.subscription_token@);
                &&& mail.recipient@ == pending.subscription.email@
                &&& mail.subject@ == "Welcome!"@
                &&& mail.html_body@ == confirmation_html(link)
                &&& mail.text_body@ == confirmation_text(link)
            }),
            Err(_) => final(store)@ == old(store)@ && (r matches Err(
                SubscribeError::UnexpectedError(_),
            )),
        },
{
    let recipient = pending.subscription.email.clone();
    let token = pending.token.subscription_token.clone();
    match store.insert_subscriber_with_token(pending) {
        Ok(()) => Ok(confirmation_email(recipient.as_str(), base_url, token.as_str())),
        Err(_) => Err(
            SubscribeError::UnexpectedError(
                String::from_str("Failed to store the new subscriber and its confirmation token."),
            ),
        ),
    }
}

/// Signs a visitor up: validates the form, draws a fresh id and token, writes
/// the subscriber and its token in one transaction, and returns the
/// confirmation email to send. Nothing is written where the form is invalid
/// or the address is taken; on an empty store a valid form always succeeds.
pub fn subscribe(store: &mut SubscriptionStore, form: FormData, base_url: &str) -> (r: Result<
    OutgoingEmail,
    SubscribeError,
>)
    requires
        old(store).wf(),
    ensures
        final(store).wf(),
        !(valid_email(form.email@) && valid_name(form.name@)) ==> (r matches Err(
            SubscribeError::ValidationError(m),
        ) && m@ == form_rejection(form.name@, form.email@)),
        valid_email(form.email@) && valid_name(form.name@) ==> (r matches Ok(_) || r matches Err(
            SubscribeError::UnexpectedError(_),
        )),
        valid_email(form.email@) && valid_name(form.name@) && has_email(old(store)@, form.email@)
            ==> r matches Err(SubscribeError::UnexpectedError(_)),
        valid_email(form.email@) && valid_name(form.name@) && old(store)@.subscriptions.len() == 0
            ==> r is Ok,
        r is Err ==> final(store)@ == old(store)@,
        r matches Ok(mail) ==> exists|token: Seq<char>|
            {
                &&& is_signup(old(store)@, final(store)@, form.name@, form.email@, token)
                &&& mail.recipient@ == form.email@
                &&& mail.subject@ == "Welcome!"@
                &&& mail.html_body@ == confirmation_html(confirmation_link(base_url@, token))
                &&& mail.text_body@ == confirmation_text(confirmation_link(base_url@, token))
            },
{
    let pending = match prepare_subscription(form) {
        Ok(p) => p,
        Err(e) => {
            return Err(e);
        },
    };
    let ghost sub = pending.subscription@;
    let ghost tok = pending.token@;
    proof {
        let v = old(store)@;
        if v.subscriptions.len() == 0 && v.tokens.len() > 0 {
            assert(has_id(v, v.tokens[0].1));
        }
    }
    let r = register_subscription(store, pending, base_url);
    proof {
        if r is Ok {
            assert(final(store)@.subscriptions.last() == sub);
            assert(is_signup(old(store)@, final(store)@, form.name@, form.email@, tok.0));
        }
    }
    r
}

proof fn lemma_token_count_fresh(tokens: Seq<(Seq<char>, u128)>, id: u128)
    requires
        forall|i: int| 0 <= i < tokens.len() ==> #[trigger] tokens[i].1 != id,
    ensures
        token_count(tokens, id) == 0,
    decreases tokens.len(),
{
    if tokens.len() > 0 {
        lemma_token_count_fresh(tokens.drop_last(), id);
    }
}

/// Right after a signup, looking the address up finds the new subscriber,
/// waiting for confirmation, with exactly one token that refers to it: the
/// token that the signup drew.
pub proof fn signup_then_lookup(
    before: StoreView,
    after: StoreView,
    name: Seq<char>,
    email: Seq<char>,
    token: Seq<char>,
)
    requires
        store_wf(before),
        is_signup(before, after, name, email, token),
    ensures
        store_wf(after),
        subscriber_with_email(after, email) matches Some(s) && {
            &&& s.email == email
            &&& s.name == name
            &&& s.status == SubscriptionStatus::PendingConfirmation
            &&& token_count(after.tokens, s.id) == 1
            &&& token_owner(after, token) == Some(s.id)
        },
{
    let sub = after.subscriptions.last();
    let n = before.subscriptions.len() as int;
    lemma_signup_wf(before, sub, (token, sub.id));
    assert(after.subscriptions[n] == sub);
    assert(has_email(after, email));
    let k = choose|k: int|
        0 <= k < after.subscriptions.len() && #[trigger] after.subscriptions[k].email == email;
    if k != n {
        assert(after.subscriptions[k].id != after.subscriptions[n].id);
    }
    assert forall|i: int| 0 <= i < before.tokens.len() implies #[trigger] before.tokens[i].1 != sub.id by {
        if before.tokens[i].1 == sub.id {
            assert(has_id(before, before.tokens[i].1));
        }
    }
    assert(after.tokens.drop_last() =~= before.tokens);
    lemma_token_count_fresh(before.tokens, sub.id);
    let t = before.tokens.len() as int;
    assert(after.tokens[t] == (token, sub.id));
    assert(has_token(after, token));
    let j = choose|j: int| 0 <= j < after.tokens.len() && #[trigger] after.tokens[j].0 == token;
    if j != t {
        assert(after.tokens[j].0 != after.tokens[t].0);
    }
}

/// Once an address has signed up, another signup with it breaks the
/// uniqueness of addresses, whatever id and token it draws: it is refused,
/// and the store keeps exactly one subscriber with that address.
pub proof fn second_signup_with_same_address_fails(
    before: StoreView,
    after: StoreView,
    name: Seq<char>,
    email: Seq<char>,
    token: Seq<char>,
    again: SubscriptionView,
    again_token: (Seq<char>, u128),
)
    requires
        store_wf(before),
        is_signup(before, after, name, email, token),
        again.email == email,
    ensures
        signup_outcome(after, again, again_token) == Err::<StoreView, StoreError>(
            StoreError::DuplicateEmail,
        ),
        has_email(after, email),
        forall|i: int, j: int|
            0 <= i < after.subscriptions.len() && 0 <= j < after.subscriptions.len()
                && #[trigger] after.subscriptions[i].email == email
                && #[trigger] after.subscriptions[j].email == email ==> i == j,
{
    let sub = after.subscriptions.last();
    lemma_signup_wf(before, sub, (token, sub.id));
    assert(after.subscriptions[before.subscriptions.len() as int].email == email);
    assert forall|i: int, j: int|
        0 <= i < after.subscriptions.len() && 0 <= j < after.subscriptions.len()
            && #[trigger] after.subscriptions[i].email == email
            && #[trigger] after.subscriptions[j].email == email implies i == j by {
        if i != j {
            assert(after.subscriptions[i].id != after.subscriptions[j].id);
        }
    }
}

} // verus!
