//! Checking Basic credentials against the stored password hash, and the
//! response that rejects a request for want of valid credentials.
use vstd::prelude::*;
use argon2::PasswordVerifier;
use crate::basic_auth::{BasicAuth, SecretString};

verus! {

/// Whether `password_hash::PasswordHash::new` parses a text as a PHC string.
pub uninterp spec fn phc_parses(phc: Seq<char>) -> bool;

/// Whether Argon2, with the algorithm, version, parameters and salt that a PHC
/// string records, hashes the password to the digest that the string holds.
pub uninterp spec fn argon2_accepts(password: Seq<char>, phc: Seq<char>) -> bool;

/// Relies on `PasswordHash::new` (password-hash, as re-exported by argon2):
/// whether the text parses as a PHC string.
#[verifier::external_body]
fn phc_well_formed(phc: &str) -> (r: bool)
    ensures
        r == phc_parses(phc@),
{
    argon2::PasswordHash::new(phc).is_ok()
}

/// Relies on `PasswordVerifier::verify_password` of `Argon2::default()`, which
/// takes algorithm, version and parameters from the parsed hash: whether the
/// password matches it. The text is parsed again with `PasswordHash::new`,
/// which succeeds under the precondition. The memory cost that the hash records
/// is taken to be one that the machine can allocate.
#[verifier::external_body]
fn argon2_verify(password: &str, phc: &str) -> (r: bool)
    requires
        phc_parses(phc@),
    ensures
        r == argon2_accepts(password@, phc@),
{
    match argon2::PasswordHash::new(phc) {
        Ok(hash) => argon2::Argon2::default().verify_password(password.as_bytes(), &hash).is_ok(),
        Err(_) => false,
    }
}

/// A hash in PHC format that no stored credential shares. A login with an
/// unknown username is checked against it, so that it costs as much time as a
/// login with a wrong password.
pub const FALLBACK_PASSWORD_HASH: &'static str = "$argon2id$v=19$m=15000,t=2,p=1$gZiV/M1gPc22ElAH/Jh1Hw$CWOrkoo7oJBQ/iyh7uJ0LO2aLEfrHwTWllSAxT0zRno";

/// A stored credential: the row of the users table.
pub struct User {
    pub user_id: u128,
    pub username: String,
    pub password_hash: String,
}

/// The identity that a request proved with valid credentials. Only
/// `validate_credentials` builds one.
pub struct AuthenticatedUser {
    user_id: u128,
    username: String,
}

impl AuthenticatedUser {
    pub closed spec fn spec_user_id(&self) -> u128 {
        self.user_id
    }

    pub closed spec fn spec_username(&self) -> Seq<char> {
        self.username@
    }

    pub fn user_id(&self) -> (r: u128)
        ensures
            r == self.spec_user_id(),
    {
        self.user_id
    }

    pub fn username(&self) -> (r: &str)
        ensures
            r@ == self.spec_username(),
    {
        self.username.as_str()
    }
}

/// Why credentials were not accepted.
#[derive(PartialEq, Eq, Structural, Clone, Copy, Debug)]
pub enum AuthError {
    /// The username is unknown or the password is wrong. The two are not told
    /// apart.
    InvalidCredentials,
    /// The stored hash is corrupted, or the credential store failed.
    UnexpectedError,
}

impl AuthError {
    pub open spec fn spec_status_code(self) -> u16 {
        match self {
            AuthError::InvalidCredentials => 401,
            AuthError::UnexpectedError => 500,
        }
    }

    /// The HTTP status that answers the request.
    pub fn status_code(&self) -> (r: u16)
        ensures
            r == self.spec_status_code(),
    {
        match self {
            AuthError::InvalidCredentials => 401,
            AuthError::UnexpectedError => 500,
        }
    }
}

/// The outcome of checking a password against a stored hash.
pub open spec fn password_check(password: Seq<char>, phc: Seq<char>) -> Result<(), AuthError> {
    if !phc_parses(phc) {
        Err(AuthError::UnexpectedError)
    } else if argon2_accepts(password, phc) {
        Ok(())
    } else {
        Err(AuthError::InvalidCredentials)
    }
}

/// Checks a candidate password against the stored hash. A hash that does not
/// parse is an internal error, not a failed login.
pub fn verify_password_hash(
    expected_password_hash: &SecretString,
    password_candidate: &SecretString,
) -> (r: Result<(), AuthError>)
    ensures
        r == password_check(password_candidate@, expected_password_hash@),
{
    let phc = expected_password_hash.expose_secret();
    if !phc_well_formed(phc) {
        return Err(AuthError::UnexpectedError);
    }
    if argon2_verify(password_candidate.expose_secret(), phc) {
        Ok(())
    } else {
        Err(AuthError::InvalidCredentials)
    }
}

/// The identity, as (user id, username), that credentials prove against the
/// stored credential for their username, or why they prove none.
pub open spec fn credentials_outcome(
    stored: Option<(u128, Seq<char>, Seq<char>)>,
    password: Seq<char>,
) -> Result<(u128, Seq<char>), AuthError> {
    match stored {
        None => Err(AuthError::InvalidCredentials),
        Some((id, name, phc)) => match password_check(password, phc) {
            Ok(()) => Ok((id, name)),
            Err(e) => Err(e),
        },
    }
}

/// The stored credential as plain values.
pub open spec fn stored_view(stored: Option<User>) -> Option<(u128, Seq<char>, Seq<char>)> {
    match stored {
        Some(u) => Some((u.user_id, u.username@, u.password_hash@)),
        None => None,
    }
}

/// Checks credentials against the credential that the store holds for their
/// username (`None` where it holds none). With no stored credential the
/// password is still checked, against `FALLBACK_PASSWORD_HASH`, and then
/// refused: an unknown username and a wrong password cost the same work and
/// give the same error.
pub fn validate_credentials(stored: Option<User>, basic_auth: BasicAuth) -> (r: Result<
    AuthenticatedUser,
    AuthError,
>)
    ensures
        match (r, credentials_outcome(stored_view(stored), basic_auth.password@)) {
            (Ok(u), Ok((id, name))) => u.spec_user_id() == id && u.spec_username() == name,
            (Err(e), Err(f)) => e == f,
            _ => false,
        },
{
    match stored {
        None => {
            let fallback = SecretString::new(String::from_str(FALLBACK_PASSWORD_HASH));
            let _ = verify_password_hash(&fallback, &basic_auth.password);
            Err(AuthError::InvalidCredentials)
        },
        Some(user) => {
            let expected = SecretString::new(user.password_hash);
            match verify_password_hash(&expected, &basic_auth.password) {
                Ok(()) => Ok(AuthenticatedUser { user_id: user.user_id, username: user.username }),
                Err(e) => Err(e),
            }
        },
    }
}

/// A wrong password for a known username and any password for an unknown
/// username end alike: in the same error, answered with status 401 and the
/// Basic challenge.
pub proof fn wrong_password_and_unknown_user_look_alike(
    user_id: u128,
    username: Seq<char>,
    phc: Seq<char>,
    password: Seq<char>,
)
    requires
        phc_parses(phc),
        !argon2_accepts(password, phc),
    ensures
        credentials_outcome(Some((user_id, username, phc)), password) == credentials_outcome(
            None,
            password,
        ),
        credentials_outcome(None, password) == Err::<(u128, Seq<char>), AuthError>(
            AuthError::InvalidCredentials,
        ),
        AuthError::InvalidCredentials.spec_status_code() == 401,
{
}

/// The answer to a request that lacks valid credentials: status 401 with a
/// header that asks for Basic credentials for the `publish` realm.
pub struct RequestBasicAuth {
    pub status: u16,
    pub header_name: String,
    pub header_value: String,
}

/// The header that asks the client for Basic credentials.
pub open spec fn challenge_header_name() -> Seq<char> {
    seq!['W', 'W', 'W', '-', 'A', 'u', 't', 'h', 'e', 'n', 't', 'i', 'c', 'a', 't', 'e']
}

/// Its value: `Basic realm="publish"`.
pub open spec fn challenge_header_value() -> Seq<char> {
    seq!['B', 'a', 's', 'i', 'c', ' ', 'r', 'e', 'a', 'l', 'm', '=', '"', 'p', 'u', 'b', 'l', 'i', 's', 'h', '"']
}

impl RequestBasicAuth {
    pub open spec fn is_challenge(&self) -> bool {
        &&& self.status == 401
        &&& self.header_name@ == challenge_header_name()
        &&& self.header_value@ == challenge_header_value()
    }

    pub fn new() -> (r: RequestBasicAuth)
        ensures
            r.is_challenge(),
    {
        let header_name = String::from_str("WWW-Authenticate");
        let header_value = String::from_str("Basic realm=\"publish\"");
        proof {
            reveal_strlit("WWW-Authenticate");
            reveal_strlit("Basic realm=\"publish\"");
            assert(header_name@ =~= challenge_header_name());
            assert(header_value@ =~= challenge_header_value());
        }
        RequestBasicAuth { status: 401, header_name, header_value }
    }
}

impl Default for RequestBasicAuth {
    fn default() -> (r: RequestBasicAuth)
        ensures
            r.is_challenge(),
    {
        RequestBasicAuth::new()
    }
}

/// The response for every request refused with status 401.
pub fn unauthorized_request_credentials() -> (r: RequestBasicAuth)
    ensures
        r.is_challenge(),
{
    RequestBasicAuth::new()
}

} // verus!
