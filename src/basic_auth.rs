//! Reading HTTP Basic credentials out of an `Authorization` header value.
use vstd::prelude::*;
use vstd::utf8::{decode_utf8, valid_utf8};
use crate::text::opt_text;

verus! {

/// What `base64::decode_config` with the standard alphabet and padding gives
/// for a text: the bytes it encodes, or `None` where it is no such encoding.
pub uninterp spec fn base64_standard_decoded(s: Seq<char>) -> Option<Seq<u8>>;

/// Relies on `base64::decode_config(s, base64::STANDARD)`: the decoded bytes,
/// or an error where `s` is not standard base64.
#[verifier::external_body]
fn decode_base64(s: &str) -> (r: Option<Vec<u8>>)
    ensures
        r is Some <==> base64_standard_decoded(s@) is Some,
        r matches Some(v) ==> v@ == base64_standard_decoded(s@)->0,
{
    base64::decode_config(s, base64::STANDARD).ok()
}

/// Relies on `String::from_utf8`: succeeds exactly on valid UTF-8, with the
/// characters that the bytes encode.
#[verifier::external_body]
fn string_from_utf8(b: Vec<u8>) -> (r: Option<String>)
    ensures
        r is Some <==> valid_utf8(b@),
        r matches Some(s) ==> s@ == decode_utf8(b@),
{
    String::from_utf8(b).ok()
}

/// The text in front of the credentials of the Basic scheme.
pub open spec fn basic_prefix() -> Seq<char> {
    seq!['B', 'a', 's', 'i', 'c', ' ']
}

/// Why a request carries no usable Basic credentials.
#[derive(PartialEq, Eq, Structural, Clone, Copy, Debug)]
pub enum CredentialsError {
    /// There is no `Authorization` header.
    MissingHeader,
    /// The header does not begin with `Basic `.
    NotBasicScheme,
    /// What follows the scheme is not base64.
    InvalidBase64,
    /// The decoded bytes are not UTF-8.
    InvalidUtf8,
    /// The decoded text has no `:` in front of a password.
    MissingPassword,
}

impl CredentialsError {
    /// The HTTP status that answers the request: 401 whatever the reason,
    /// with the Basic challenge.
    pub fn status_code(&self) -> (r: u16)
        ensures
            r == 401,
    {
        401
    }
}

/// Credentials as the client sent them. The password sits in a
/// `SecretString`, which has no formatting impls.
pub struct BasicAuth {
    pub username: String,
    pub password: SecretString,
}

/// A string that cannot be printed or logged by accident: it has neither
/// `Debug` nor `Display`, and its text is reached only through
/// `expose_secret`.
pub struct SecretString {
    inner: String,
}

impl View for SecretString {
    type V = Seq<char>;

    closed spec fn view(&self) -> Seq<char> {
        self.inner@
    }
}

impl SecretString {
    pub fn new(s: String) -> (r: SecretString)
        ensures
            r@ == s@,
    {
        SecretString { inner: s }
    }

    pub fn expose_secret(&self) -> (r: &str)
        ensures
            r@ == self@,
    {
        self.inner.as_str()
    }
}

/// The position of the first `:` in `s`, if there is one.
pub open spec fn first_colon(s: Seq<char>) -> Option<int> {
    if exists|i: int| 0 <= i < s.len() && s[i] == ':' {
        Some(
            choose|i: int|
                0 <= i < s.len() && s[i] == ':' && forall|j: int| 0 <= j < i ==> s[j] != ':',
        )
    } else {
        None
    }
}

/// Splits `username:password` at its first `:`; the password may hold
/// further colons.
pub open spec fn split_credentials(s: Seq<char>) -> Result<
    (Seq<char>, Seq<char>),
    CredentialsError,
> {
    match first_colon(s) {
        Some(i) => Ok((s.subrange(0, i), s.subrange(i + 1, s.len() as int))),
        None => Err(CredentialsError::MissingPassword),
    }
}

/// The credentials that a header value carries, or why it carries none.
pub open spec fn basic_credentials(header: Option<Seq<char>>) -> Result<
    (Seq<char>, Seq<char>),
    CredentialsError,
> {
    match header {
        None => Err(CredentialsError::MissingHeader),
        Some(h) => if h.len() < 6 || h.subrange(0, 6) != basic_prefix() {
            Err(CredentialsError::NotBasicScheme)
        } else {
            match base64_standard_decoded(h.subrange(6, h.len() as int)) {
                None => Err(CredentialsError::InvalidBase64),
                Some(bytes) => if !valid_utf8(bytes) {
                    Err(CredentialsError::InvalidUtf8)
                } else {
                    split_credentials(decode_utf8(bytes))
                },
            }
        },
    }
}

proof fn lemma_first_colon(s: Seq<char>, i: int)
    requires
        0 <= i < s.len(),
        s[i] == ':',
        forall|j: int| 0 <= j < i ==> s[j] != ':',
    ensures
        first_colon(s) == Some(i),
{
    let k = choose|k: int|
        0 <= k < s.len() && s[k] == ':' && forall|j: int| 0 <= j < k ==> s[j] != ':';
    assert(exists|k: int| 0 <= k < s.len() && s[k] == ':' && forall|j: int| 0 <= j < k ==> s[j] != ':');
    if k < i {
        assert(s[k] != ':');
    } else if k > i {
        assert(s[i] != ':');
    }
}

fn starts_with_basic(h: &str) -> (r: bool)
    ensures
        r == (h@.len() >= 6 && h@.subrange(0, 6) == basic_prefix()),
{
    let n = h.unicode_len();
    if n < 6 {
        return false;
    }
    let r = h.get_char(0) == 'B' && h.get_char(1) == 'a' && h.get_char(2) == 's' && h.get_char(3)
        == 'i' && h.get_char(4) == 'c' && h.get_char(5) == ' ';
    proof {
        if r {
            assert(h@.subrange(0, 6) =~= basic_prefix());
        } else {
            if h@.subrange(0, 6) == basic_prefix() {
                assert(h@.subrange(0, 6)[0] == h@[0]);
                assert(h@.subrange(0, 6)[1] == h@[1]);
                assert(h@.subrange(0, 6)[2] == h@[2]);
                assert(h@.subrange(0, 6)[3] == h@[3]);
                assert(h@.subrange(0, 6)[4] == h@[4]);
                assert(h@.subrange(0, 6)[5] == h@[5]);
            }
        }
    }
    r
}

/// Reads Basic credentials from the value of an `Authorization` header.
pub fn parse_basic_auth(header: Option<&str>) -> (r: Result<BasicAuth, CredentialsError>)
    ensures
        match (r, basic_credentials(opt_text(header))) {
            (Ok(auth), Ok((user, password))) => auth.username@ == user && auth.password@
                == password,
            (Err(e), Err(f)) => e == f,
            _ => false,
        },
{
    let h = match header {
        None => {
            return Err(CredentialsError::MissingHeader);
        },
        Some(h) => h,
    };
    if !starts_with_basic(h) {
        return Err(CredentialsError::NotBasicScheme);
    }
    let n = h.unicode_len();
    let encoded = h.substring_char(6, n);
    let bytes = match decode_base64(encoded) {
        None => {
            return Err(CredentialsError::InvalidBase64);
        },
        Some(b) => b,
    };
    let decoded = match string_from_utf8(bytes) {
        None => {
            return Err(CredentialsError::InvalidUtf8);
        },
        Some(s) => s,
    };
    let d = decoded.as_str();
    let m = d.unicode_len();
    let mut i: usize = 0;
    assert(basic_credentials(opt_text(header)) == split_credentials(d@));
    while i < m
        invariant
            basic_credentials(opt_text(header)) == split_credentials(d@),
            m == d@.len(),
            i <= m,
            forall|j: int| 0 <= j < i ==> d@[j] != ':',
        decreases m - i,
    {
        if d.get_char(i) == ':' {
            proof {
                lemma_first_colon(d@, i as int);
            }
            let username = String::from_str(d.substring_char(0, i));
            let password = String::from_str(d.substring_char(i + 1, m));
            return Ok(BasicAuth { username, password: SecretString::new(password) });
        }
        i = i + 1;
    }
    Err(CredentialsError::MissingPassword)
}

} // verus!
