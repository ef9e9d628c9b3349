use zero2prod::models::{Subscription, SubscriptionStatus, SubscriptionToken};
use zero2prod::store::{StoreError, SubscriptionStore};
use zero2prod::subscriptions::{
    build_confirmation_link, confirmation_email, register_subscription, PendingSubscription, generate_subscription_token, prepare_subscription,
    subscribe, FormData, OutgoingEmail, SubscribeError, TOKEN_LENGTH,
};
use zero2prod::subscriptions_confirm::{confirm, require_token, resolve_token, ConfirmError};

const BASE_URL: &str = "http://127.0.0.1:8000";

fn form(name: &str, email: &str) -> FormData {
    FormData { name: name.to_string(), email: email.to_string() }
}

fn le_guin() -> FormData {
    form("le guin", "ursula_le_guin@gmail.com")
}

fn token_in(mail: &OutgoingEmail) -> String {
    let marker = "subscription_token=";
    let start = mail.text_body.find(marker).unwrap() + marker.len();
    mail.text_body[start..].chars().take_while(|c| c.is_ascii_alphanumeric()).collect()
}

#[test]
fn subscriptions_subscribe_returns_a_200_for_valid_form_data() {
    let mut store = SubscriptionStore::new();
    let result = subscribe(&mut store, le_guin(), BASE_URL);
    assert!(result.is_ok());
}

#[test]
fn subscribe_persists_the_new_subscriber() {
    let mut store = SubscriptionStore::new();
    subscribe(&mut store, le_guin(), BASE_URL).unwrap();
    let saved = store.find_subscription_by_email("ursula_le_guin@gmail.com").expect("Result set was empty.");
    assert_eq!(saved.email, "ursula_le_guin@gmail.com");
    assert_eq!(saved.name, "le guin");
    assert_eq!(saved.status.as_str(), "pending_confirmation");
}

#[test]
fn subscriptions_subscribe_returns_a_500_for_duplicate_email() {
    let mut store = SubscriptionStore::new();
    assert!(subscribe(&mut store, le_guin(), BASE_URL).is_ok());
    let second = subscribe(&mut store, le_guin(), BASE_URL);
    match second {
        Err(e) => {
            assert!(matches!(e, SubscribeError::UnexpectedError(_)));
            assert_eq!(e.status_code(), 500);
        }
        Ok(_) => panic!("a second signup with the same address succeeded"),
    }
    let saved = store.find_subscription_by_email("ursula_le_guin@gmail.com").expect("Result set was empty.");
    assert_eq!(saved.name, "le guin");
    assert_eq!(store.confirmed_emails().len(), 0);
}

#[test]
fn subscriptions_subscribe_returns_a_400_when_fields_are_present_but_invalid() {
    let test_cases = vec![
        (form("", "ursula_le_guin@gmail.com"), "empty name"),
        (form("Ursula", ""), "empty email"),
        (form("Ursula", "definitely-not-an-email"), "invalid email"),
    ];
    for (invalid_body, description) in test_cases {
        let mut store = SubscriptionStore::new();
        let result = subscribe(&mut store, invalid_body, BASE_URL);
        match result {
            Err(e) => assert_eq!(e.status_code(), 400, "The API did not return a 400 Bad Request when the payload was {}.", description),
            Ok(_) => panic!("The API did not return a 400 Bad Request when the payload was {}.", description),
        }
    }
}

#[test]
fn validation_errors_name_the_rejected_value() {
    match prepare_subscription(form("Ursula", "definitely-not-an-email")) {
        Err(SubscribeError::ValidationError(m)) => {
            assert_eq!(m, "definitely-not-an-email is not a valid subscriber email.")
        }
        _ => panic!("expected a validation error"),
    }
    match prepare_subscription(form("Ursula{", "ursula@example.com")) {
        Err(SubscribeError::ValidationError(m)) => assert_eq!(m, "Ursula{ is not a valid subscriber name."),
        _ => panic!("expected a validation error"),
    }
    assert!(prepare_subscription(form("   ", "ursula@example.com")).is_err());
    assert!(prepare_subscription(form(&"a".repeat(257), "ursula@example.com")).is_err());
    assert!(prepare_subscription(form(&"a".repeat(256), "ursula@example.com")).is_ok());
}

#[test]
fn subscribe_sends_a_confirmation_email_for_valid_data() {
    let mut store = SubscriptionStore::new();
    let mail = subscribe(&mut store, le_guin(), BASE_URL).unwrap();
    assert_eq!(mail.recipient, "ursula_le_guin@gmail.com");
    assert_eq!(mail.subject, "Welcome!");
}

#[test]
fn subscribe_sends_a_confirmation_email_with_a_link() {
    let mut store = SubscriptionStore::new();
    let mail = subscribe(&mut store, le_guin(), BASE_URL).unwrap();
    let token = token_in(&mail);
    assert_eq!(token.len(), 25);
    let link = format!("{}/subscriptions/confirm?subscription_token={}", BASE_URL, token);
    assert!(mail.html_body.contains(&format!("<a href=\"{}\">", link)));
    assert!(mail.text_body.contains(&link));
}

#[test]
fn confirmation_email_has_exact_bodies() {
    let mail = confirmation_email("a@b.c", "https://x.io", "abc");
    assert_eq!(mail.recipient, "a@b.c");
    assert_eq!(mail.subject, "Welcome!");
    assert_eq!(
        mail.html_body,
        "Welcome to our newsletter!<br />Click <a href=\"https://x.io/subscriptions/confirm?subscription_token=abc\">here</a> to confirm your subscription."
    );
    assert_eq!(
        mail.text_body,
        "Welcome to our newsletter!\nVisit https://x.io/subscriptions/confirm?subscription_token=abc to confirm your subscription."
    );
    assert_eq!(
        build_confirmation_link("http://h", "T0k"),
        "http://h/subscriptions/confirm?subscription_token=T0k"
    );
}

#[test]
fn tokens_are_twenty_five_alphanumeric_characters() {
    let a = generate_subscription_token();
    let b = generate_subscription_token();
    assert_eq!(TOKEN_LENGTH, 25);
    assert_eq!(a.chars().count(), 25);
    assert!(a.chars().all(|c| c.is_ascii_alphanumeric()));
    assert_ne!(a, b);
}

#[test]
fn prepared_subscription_is_pending_with_its_token() {
    let pending = prepare_subscription(le_guin()).ok().unwrap();
    assert_eq!(pending.subscription.status, SubscriptionStatus::PendingConfirmation);
    assert_eq!(pending.token.subscriber_id, pending.subscription.id);
    assert_eq!((pending.subscription.id >> 76) & 0xf, 4);
    assert!(pending.subscription.subscribed_at > 1_600_000_000);
    let other = prepare_subscription(le_guin()).ok().unwrap();
    assert_ne!(other.subscription.id, pending.subscription.id);
}

#[test]
fn signup_then_lookup_has_exactly_one_token() {
    let mut store = SubscriptionStore::new();
    let mail = subscribe(&mut store, le_guin(), BASE_URL).unwrap();
    subscribe(&mut store, form("Ada", "ada@example.com"), BASE_URL).unwrap();
    let saved = store.find_subscription_by_email("ursula_le_guin@gmail.com").unwrap();
    assert_eq!(saved.status, SubscriptionStatus::PendingConfirmation);
    assert_eq!(store.count_tokens_for(saved.id), 1);
    assert_eq!(store.find_subscriber_id_by_token(&token_in(&mail)), Some(saved.id));
}

#[test]
fn confirmations_without_token_are_rejected_with_a_400() {
    let mut store = SubscriptionStore::new();
    let result = confirm(&mut store, None);
    assert_eq!(result, Err(ConfirmError::MissingToken));
    assert_eq!(ConfirmError::MissingToken.status_code(), 400);
}

#[test]
fn unknown_tokens_are_rejected_with_a_401() {
    let mut store = SubscriptionStore::new();
    subscribe(&mut store, le_guin(), BASE_URL).unwrap();
    let result = confirm(&mut store, Some("garbage"));
    assert_eq!(result, Err(ConfirmError::UnknownToken));
    assert_eq!(result.unwrap_err().status_code(), 401);
    assert_eq!(confirm(&mut store, Some("")), Err(ConfirmError::UnknownToken));
    assert_eq!(ConfirmError::UnexpectedError.status_code(), 500);
}

#[test]
fn confirmation_steps_decide_as_the_route_does() {
    assert_eq!(require_token(None), Err(ConfirmError::MissingToken));
    assert_eq!(require_token(Some("abc")), Ok("abc"));
    assert_eq!(resolve_token(None), Err(ConfirmError::UnknownToken));
    assert_eq!(resolve_token(Some(7)), Ok(7));
}

#[test]
fn the_link_returned_by_subscribe_returns_a_200_if_called() {
    let mut store = SubscriptionStore::new();
    let mail = subscribe(&mut store, le_guin(), BASE_URL).unwrap();
    let token = token_in(&mail);
    assert_eq!(confirm(&mut store, Some(&token)), Ok(()));
}

#[test]
fn clicking_on_the_confirmation_link_confirms_a_subscriber() {
    let mut store = SubscriptionStore::new();
    let mail = subscribe(&mut store, le_guin(), BASE_URL).unwrap();
    let token = token_in(&mail);
    confirm(&mut store, Some(&token)).unwrap();
    let saved = store.find_subscription_by_email("ursula_le_guin@gmail.com").expect("Failed to fetch saved subscription.");
    assert_eq!(saved.email, "ursula_le_guin@gmail.com");
    assert_eq!(saved.name, "le guin");
    assert_eq!(saved.status.as_str(), "confirmed");
}

#[test]
fn confirming_twice_succeeds_and_stays_confirmed() {
    let mut store = SubscriptionStore::new();
    let mail = subscribe(&mut store, le_guin(), BASE_URL).unwrap();
    let token = token_in(&mail);
    assert_eq!(confirm(&mut store, Some(&token)), Ok(()));
    assert_eq!(confirm(&mut store, Some(&token)), Ok(()));
    let saved = store.find_subscription_by_email("ursula_le_guin@gmail.com").unwrap();
    assert_eq!(saved.status, SubscriptionStatus::Confirmed);
    assert_eq!(store.confirmed_emails(), vec!["ursula_le_guin@gmail.com".to_string()]);
}

fn pending(id: u128, email: &str, token: &str) -> PendingSubscription {
    PendingSubscription {
        subscription: Subscription {
            id,
            email: email.to_string(),
            name: "n".to_string(),
            subscribed_at: 0,
            status: SubscriptionStatus::PendingConfirmation,
        },
        token: SubscriptionToken { subscription_token: token.to_string(), subscriber_id: id },
    }
}

#[test]
fn colliding_ids_and_tokens_fail_without_writing() {
    let mut store = SubscriptionStore::new();
    let first = register_subscription(&mut store, pending(1, "a@x.io", "AAAAAAAAAAAAAAAAAAAAAAAAA"), BASE_URL).unwrap();
    assert_eq!(first.recipient, "a@x.io");
    assert!(first.text_body.contains("subscription_token=AAAAAAAAAAAAAAAAAAAAAAAAA"));
    let same_token = register_subscription(&mut store, pending(2, "b@x.io", "AAAAAAAAAAAAAAAAAAAAAAAAA"), BASE_URL);
    assert_eq!(same_token.err().unwrap().status_code(), 500);
    let same_id = register_subscription(&mut store, pending(1, "c@x.io", "BBBBBBBBBBBBBBBBBBBBBBBBB"), BASE_URL);
    assert_eq!(same_id.err().unwrap().status_code(), 500);
    assert!(store.find_subscription_by_email("b@x.io").is_none());
    assert!(store.find_subscription_by_email("c@x.io").is_none());
    assert_eq!(store.find_subscriber_id_by_token("BBBBBBBBBBBBBBBBBBBBBBBBB"), None);
    assert_eq!(store.count_tokens_for(1), 1);
}

#[test]
fn store_constraint_errors_are_named() {
    let mut store = SubscriptionStore::new();
    assert_eq!(store.insert_subscriber_with_token(pending(1, "a@x.io", "T1")), Ok(()));
    assert_eq!(store.insert_subscriber_with_token(pending(2, "a@x.io", "T2")), Err(StoreError::DuplicateEmail));
    assert_eq!(store.insert_subscriber_with_token(pending(1, "b@x.io", "T2")), Err(StoreError::DuplicateId));
    assert_eq!(store.insert_subscriber_with_token(pending(2, "b@x.io", "T1")), Err(StoreError::DuplicateToken));
    store.set_subscriber_confirmed(99);
    assert!(store.confirmed_emails().is_empty());
    store.set_subscriber_confirmed(1);
    assert_eq!(store.confirmed_emails(), vec!["a@x.io".to_string()]);
}
