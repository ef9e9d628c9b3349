//! The validated values that a subscription is made of.
use vstd::prelude::*;

verus! {

/// The whitespace characters that a name may not consist of alone, and that an
/// email address may not hold.
pub open spec fn is_space(c: char) -> bool {
    c == ' ' || c == '\t' || c == '\n' || c == '\r' || c == '\x0B' || c == '\x0C'
}

/// Characters that a subscriber name may not hold.
pub open spec fn is_forbidden_name_char(c: char) -> bool {
    c == '/' || c == '(' || c == ')' || c == '"' || c == '<' || c == '>' || c == '\\' || c
        == '{' || c == '}'
}

/// The longest subscriber name, in characters.
pub const MAX_NAME_LENGTH: usize = 256;

/// A name holds a character that is not whitespace, holds at most
/// `MAX_NAME_LENGTH` characters and none of the forbidden ones.
pub open spec fn valid_name(s: Seq<char>) -> bool {
    &&& exists|i: int| 0 <= i < s.len() && !is_space(#[trigger] s[i])
    &&& s.len() <= MAX_NAME_LENGTH
    &&& forall|i: int| 0 <= i < s.len() ==> !is_forbidden_name_char(#[trigger] s[i])
}

/// An address holds exactly one `@`, with characters on both sides of it, and
/// no whitespace.
pub open spec fn valid_email(s: Seq<char>) -> bool {
    &&& forall|j: int| 0 <= j < s.len() ==> !is_space(#[trigger] s[j])
    &&& exists|i: int|
        #![trigger s[i]]
        0 < i < s.len() - 1 && s[i] == '@' && forall|j: int|
            0 <= j < s.len() && j != i ==> #[trigger] s[j] != '@'
}

fn is_space_char(c: char) -> (r: bool)
    ensures
        r == is_space(c),
{
    c == ' ' || c == '\t' || c == '\n' || c == '\r' || c == '\x0B' || c == '\x0C'
}

/// Whether `s` is a valid subscriber name.
pub fn is_valid_name(s: &str) -> (r: bool)
    ensures
        r == valid_name(s@),
{
    let n = s.unicode_len();
    if n > MAX_NAME_LENGTH {
        return false;
    }
    let mut i: usize = 0;
    let mut non_space: bool = false;
    while i < n
        invariant
            n == s@.len(),
            i <= n,
            non_space == exists|k: int| 0 <= k < i && !is_space(#[trigger] s@[k]),
            forall|k: int| 0 <= k < i ==> !is_forbidden_name_char(#[trigger] s@[k]),
        decreases n - i,
    {
        let c = s.get_char(i);
        if c == '/' || c == '(' || c == ')' || c == '"' || c == '<' || c == '>' || c == '\\' || c
            == '{' || c == '}' {
            return false;
        }
        if !is_space_char(c) {
            non_space = true;
        }
        proof {
            if non_space {
                assert(exists|k: int| 0 <= k < i + 1 && !is_space(#[trigger] s@[k]));
            } else {
                assert forall|k: int| 0 <= k < i + 1 implies is_space(#[trigger] s@[k]) by {
                    if k < i {
                        assert(!(0 <= k < i && !is_space(s@[k])));
                    }
                }
            }
        }
        i = i + 1;
    }
    non_space
}

/// Whether `s` is a valid subscriber email address.
pub fn is_valid_email(s: &str) -> (r: bool)
    ensures
        r == valid_email(s@),
{
    let n = s.unicode_len();
    let mut i: usize = 0;
    let mut first: Option<usize> = None;
    while i < n
        invariant
            n == s@.len(),
            i <= n,
            forall|k: int| 0 <= k < i ==> !is_space(#[trigger] s@[k]),
            first is None ==> forall|k: int| 0 <= k < i ==> #[trigger] s@[k] != '@',
            first is Some ==> {
                let f = first->0 as int;
                &&& f < i
                &&& s@[f] == '@'
                &&& forall|k: int| 0 <= k < i && k != f ==> #[trigger] s@[k] != '@'
            },
        decreases n - i,
    {
        let c = s.get_char(i);
        if is_space_char(c) {
            return false;
        }
        if c == '@' {
            match first {
                Some(f) => {
                    proof {
                        assert forall|j: int| 0 < j < n - 1 && s@[j] == '@' implies exists|k: int|
                            0 <= k < n && k != j && #[trigger] s@[k] == '@' by {
                            if j == f {
                                assert(s@[i as int] == '@');
                            } else {
                                assert(s@[f as int] == '@');
                            }
                        }
                    }
                    return false;
                },
                None => {
                    first = Some(i);
                },
            }
        }
        i = i + 1;
    }
    match first {
        Some(f) => {
            if f > 0 && f + 1 < n {
                true
            } else {
                proof {
                    assert forall|j: int| 0 < j < n - 1 && s@[j] == '@' implies exists|k: int|
                        0 <= k < n && k != j && #[trigger] s@[k] == '@' by {
                        assert(j == f);
                    }
                }
                false
            }
        },
        None => {
            proof {
                if valid_email(s@) {
                    let j = choose|j: int| 0 < j < n - 1 && s@[j] == '@';
                }
            }
            false
        },
    }
}

/// A subscriber name that satisfies `valid_name`.
pub struct SubscriberName {
    name: String,
}

/// An email address that satisfies `valid_email`.
pub struct SubscriberEmail {
    email: String,
}

/// What a visitor signs up with, once both fields are validated.
pub struct NewSubscriber {
    pub email: SubscriberEmail,
    pub name: SubscriberName,
}

impl View for SubscriberName {
    type V = Seq<char>;

    closed spec fn view(&self) -> Seq<char> {
        self.name@
    }
}

impl View for SubscriberEmail {
    type V = Seq<char>;

    closed spec fn view(&self) -> Seq<char> {
        self.email@
    }
}

/// The message that rejects `s` as a value of the given kind.
pub open spec fn rejection(s: Seq<char>, kind: Seq<char>) -> Seq<char> {
    s + " is not a valid subscriber "@ + kind + "."@
}

fn rejection_message(s: &str, kind: &str) -> (r: String)
    ensures
        r@ == rejection(s@, kind@),
{
    let mut r = String::from_str(s);
    r.append(" is not a valid subscriber ");
    r.append(kind);
    r.append(".");
    r
}

impl SubscriberName {
    #[verifier::type_invariant]
    closed spec fn inv(&self) -> bool {
        valid_name(self.name@)
    }

    pub open spec fn wf(&self) -> bool {
        valid_name(self@)
    }

    /// Accepts `s` when it is a valid name; otherwise the error says why.
    pub fn parse(s: String) -> (r: Result<SubscriberName, String>)
        ensures
            r is Ok <==> valid_name(s@),
            r matches Ok(n) ==> n@ == s@ && n.wf(),
            r matches Err(e) ==> e@ == rejection(s@, "name"@),
    {
        if is_valid_name(s.as_str()) {
            Ok(SubscriberName { name: s })
        } else {
            Err(rejection_message(s.as_str(), "name"))
        }
    }

    /// The name, which is valid.
    pub fn as_str(&self) -> (r: &str)
        ensures
            r@ == self@,
            self.wf(),
    {
        proof {
            use_type_invariant(self);
        }
        self.name.as_str()
    }
}

impl SubscriberEmail {
    #[verifier::type_invariant]
    closed spec fn inv(&self) -> bool {
        valid_email(self.email@)
    }

    pub open spec fn wf(&self) -> bool {
        valid_email(self@)
    }

    /// Accepts `s` when it is a valid address; otherwise the error says why.
    pub fn parse(s: String) -> (r: Result<SubscriberEmail, String>)
        ensures
            r is Ok <==> valid_email(s@),
            r matches Ok(e) ==> e@ == s@ && e.wf(),
            r matches Err(e) ==> e@ == rejection(s@, "email"@),
    {
        if is_valid_email(s.as_str()) {
            Ok(SubscriberEmail { email: s })
        } else {
            Err(rejection_message(s.as_str(), "email"))
        }
    }

    /// The address, which is valid.
    pub fn as_str(&self) -> (r: &str)
        ensures
            r@ == self@,
            self.wf(),
    {
        proof {
            use_type_invariant(self);
        }
        self.email.as_str()
    }

}

} // verus!
