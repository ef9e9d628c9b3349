use argon2::PasswordHasher;
use zero2prod::authentication::{unauthorized_request_credentials, validate_credentials, User};
use zero2prod::basic_auth::parse_basic_auth;
use zero2prod::models::SubscriptionStatus;
use zero2prod::newsletters::{publish_newsletter, BodyData, Content};
use zero2prod::store::SubscriptionStore;
use zero2prod::subscriptions::{subscribe, FormData};
use zero2prod::subscriptions_confirm::confirm;

fn issue() -> BodyData {
    BodyData {
        title: "Newsletter title".to_string(),
        content: Content {
            text: "Newsletter body as plain text".to_string(),
            html: "<p>Newsletter body as HTML</p>".to_string(),
        },
    }
}

#[test]
fn signup_confirm_and_publish_end_to_end() {
    let mut store = SubscriptionStore::new();
    let form = FormData { name: "le guin".to_string(), email: "ursula_le_guin@gmail.com".to_string() };
    let mail = subscribe(&mut store, form, "http://127.0.0.1").expect("signup failed");
    assert_eq!(mail.recipient, "ursula_le_guin@gmail.com");
    let marker = "subscription_token=";
    let start = mail.text_body.find(marker).unwrap() + marker.len();
    let token: String = mail.text_body[start..].chars().take_while(|c| c.is_ascii_alphanumeric()).collect();
    assert_eq!(token.len(), 25);

    assert_eq!(confirm(&mut store, Some(&token)), Ok(()));
    let saved = store.find_subscription_by_email("ursula_le_guin@gmail.com").unwrap();
    assert_eq!(saved.status, SubscriptionStatus::Confirmed);

    let phc = argon2::Argon2::default()
        .hash_password(b"everythinghastostartsomewhere", "c29tZXNhbHRzb21lc2FsdA")
        .unwrap()
        .to_string();
    let operator = User { user_id: 9, username: "operator".to_string(), password_hash: phc };
    let header = format!("Basic {}", base64::encode("operator:everythinghastostartsomewhere"));
    let credentials = parse_basic_auth(Some(&header)).ok().unwrap();
    assert!(validate_credentials(Some(operator), credentials).is_ok());
    let sent = publish_newsletter(&store.confirmed_emails(), &issue());
    assert_eq!(sent.len(), 1);
    assert_eq!(sent[0].recipient, "ursula_le_guin@gmail.com");

    let refused = parse_basic_auth(None).err().unwrap();
    assert_eq!(refused.status_code(), 401);
    let answer = unauthorized_request_credentials();
    assert_eq!(answer.status, 401);
    assert_eq!(answer.header_name, "WWW-Authenticate");
    assert_eq!(answer.header_value, "Basic realm=\"publish\"");
}
