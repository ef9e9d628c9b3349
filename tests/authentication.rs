use argon2::PasswordHasher;
use zero2prod::authentication::{
    unauthorized_request_credentials, validate_credentials, verify_password_hash, AuthError,
    RequestBasicAuth, User, FALLBACK_PASSWORD_HASH,
};
use zero2prod::basic_auth::{parse_basic_auth, BasicAuth, CredentialsError, SecretString};

const SALT: &str = "c29tZXNhbHRzb21lc2FsdA";

fn phc_of(password: &str) -> String {
    argon2::Argon2::default().hash_password(password.as_bytes(), SALT).unwrap().to_string()
}

fn header_for(username: &str, password: &str) -> String {
    format!("Basic {}", base64::encode(format!("{}:{}", username, password)))
}

fn credentials(username: &str, password: &str) -> BasicAuth {
    BasicAuth { username: username.to_string(), password: SecretString::new(password.to_string()) }
}

fn stored(user_id: u128, username: &str, password: &str) -> User {
    User { user_id, username: username.to_string(), password_hash: phc_of(password) }
}

fn assert_challenge(r: &RequestBasicAuth) {
    assert_eq!(r.status, 401);
    assert_eq!(r.header_name, "WWW-Authenticate");
    assert_eq!(r.header_value, "Basic realm=\"publish\"");
}

#[test]
fn requests_missing_authorization_are_rejected() {
    let result = parse_basic_auth(None);
    assert_eq!(result.err(), Some(CredentialsError::MissingHeader));
    assert_challenge(&unauthorized_request_credentials());
    assert_challenge(&RequestBasicAuth::default());
}

#[test]
fn well_formed_credentials_are_read() {
    let header = header_for("operator", "pa:ss:word");
    let auth = parse_basic_auth(Some(&header)).ok().unwrap();
    assert_eq!(auth.username, "operator");
    assert_eq!(auth.password.expose_secret(), "pa:ss:word");
}

#[test]
fn malformed_credentials_are_rejected() {
    assert_eq!(parse_basic_auth(Some("Bearer abc")).err(), Some(CredentialsError::NotBasicScheme));
    assert_eq!(parse_basic_auth(Some("Basic")).err(), Some(CredentialsError::NotBasicScheme));
    assert_eq!(parse_basic_auth(Some("Basic ***")).err(), Some(CredentialsError::InvalidBase64));
    let not_utf8 = format!("Basic {}", base64::encode([0xff_u8, 0xfe, 0x3a]));
    assert_eq!(parse_basic_auth(Some(&not_utf8)).err(), Some(CredentialsError::InvalidUtf8));
    let no_colon = format!("Basic {}", base64::encode("operator"));
    assert_eq!(parse_basic_auth(Some(&no_colon)).err(), Some(CredentialsError::MissingPassword));
    let empty_user = parse_basic_auth(Some(&header_for("", "pw"))).ok().unwrap();
    assert_eq!(empty_user.username, "");
}

#[test]
fn valid_credentials_are_accepted() {
    let user = validate_credentials(Some(stored(42, "operator", "hunter42")), credentials("operator", "hunter42"))
        .ok()
        .unwrap();
    assert_eq!(user.user_id(), 42);
    assert_eq!(user.username(), "operator");
}

#[test]
fn non_existing_user_is_rejected() {
    let result = validate_credentials(None, credentials("nobody", "hunter42"));
    assert_eq!(result.err(), Some(AuthError::InvalidCredentials));
    assert_eq!(AuthError::InvalidCredentials.status_code(), 401);
}

#[test]
fn invalid_password_is_rejected() {
    let result = validate_credentials(Some(stored(42, "operator", "hunter42")), credentials("operator", "wrong"));
    assert_eq!(result.err(), Some(AuthError::InvalidCredentials));
}

#[test]
fn unknown_user_and_wrong_password_get_the_same_answer() {
    let unknown = validate_credentials(None, credentials("nobody", "x")).err().unwrap();
    let wrong = validate_credentials(Some(stored(1, "operator", "right")), credentials("operator", "x"))
        .err()
        .unwrap();
    assert_eq!(unknown, wrong);
    assert_eq!(unknown.status_code(), wrong.status_code());
}

#[test]
fn corrupted_hash_is_an_internal_error() {
    let user = User { user_id: 1, username: "operator".to_string(), password_hash: "not a phc string".to_string() };
    let result = validate_credentials(Some(user), credentials("operator", "x"));
    assert_eq!(result.err(), Some(AuthError::UnexpectedError));
    assert_eq!(AuthError::UnexpectedError.status_code(), 500);
}

#[test]
fn password_hash_check_matches_argon2() {
    let phc = SecretString::new(phc_of("s3cret"));
    assert_eq!(verify_password_hash(&phc, &SecretString::new("s3cret".to_string())), Ok(()));
    assert_eq!(
        verify_password_hash(&phc, &SecretString::new("s3cret ".to_string())),
        Err(AuthError::InvalidCredentials)
    );
    let fallback = SecretString::new(FALLBACK_PASSWORD_HASH.to_string());
    assert_eq!(
        verify_password_hash(&fallback, &SecretString::new("anything".to_string())),
        Err(AuthError::InvalidCredentials)
    );
}
