//! Bearer tokens: unguessable strings that stand for a session.

use vstd::prelude::*;
use vstd::std_specs::convert::FromSpecImpl;
use crate::error::{Error, ErrorKind, ErrorView, missing_header_text, Result};

verus! {

/// The number of characters in a token.
pub const TOKEN_LENGTH: usize = 128;

/// The header in which a client presents its token.
pub const HEADER: &'static str = "Authentication";

/// A bearer token, as a client presented it.
#[derive(Debug, PartialEq, Eq)]
pub struct UserToken {
    token: String,
}

impl View for UserToken {
    type V = Seq<char>;

    closed spec fn view(&self) -> Seq<char> {
        self.token@
    }
}

impl Clone for UserToken {
    fn clone(&self) -> (r: Self)
        ensures
            r@ == self@,
    {
        UserToken { token: self.token.clone() }
    }
}

impl From<UserToken> for String {
    fn from(f: UserToken) -> (s: String) {
        f.token
    }
}

impl FromSpecImpl<UserToken> for String {
    open spec fn obeys_from_spec() -> bool {
        true
    }

    closed spec fn from_spec(f: UserToken) -> String {
        f.token
    }
}

/// The failure of a request that presents no token.
pub open spec fn missing_credential() -> ErrorView {
    ErrorView {
        kind: ErrorKind::MissingCredential,
        source: None,
        description: Some(missing_header_text(HEADER@)),
    }
}

impl UserToken {
    /// The token `token`.
    pub fn new(token: String) -> (t: UserToken)
        ensures
            t@ == token@,
    {
        UserToken { token }
    }

    /// The token as text.
    pub fn as_str(&self) -> (s: &str)
        ensures
            s@ == self@,
    {
        self.token.as_str()
    }

    /// The token as the string that holds it.
    pub fn into_string(self) -> (s: String)
        ensures
            s@ == self@,
    {
        self.token
    }

    /// The token that a request presents in its header [`HEADER`], where
    /// `header` is what that header holds. A request without that header
    /// fails with `MissingCredential`.
    pub fn from_header(header: Option<&str>) -> (r: Result<UserToken>)
        ensures
            match header {
                Some(value) => r matches Ok(t) && t@ == value@,
                None => r matches Err(e) && e@ == missing_credential(),
            },
    {
        match header {
            Some(value) => Ok(UserToken { token: value.to_owned() }),
            None => Err(Error::builder().missing_header(HEADER).build()),
        }
    }
}

/// Whether `c` is an ASCII letter or digit.
pub open spec fn is_alphanumeric(c: char) -> bool {
    ||| '0' <= c <= '9'
    ||| 'A' <= c <= 'Z'
    ||| 'a' <= c <= 'z'
}

/// Whether `token` has the shape of a generated token: [`TOKEN_LENGTH`]
/// ASCII letters and digits.
pub open spec fn well_formed(token: Seq<char>) -> bool {
    &&& token.len() == TOKEN_LENGTH
    &&& forall|i: int| 0 <= i < token.len() ==> is_alphanumeric(#[trigger] token[i])
}

/// Calls `rand::Rng::sample` with `rand::distributions::Alphanumeric` on the
/// thread's generator: one ASCII letter or digit, each of the 62 as likely
/// as the others.
#[verifier::external_body]
fn random_alphanumeric() -> (byte: u8)
    ensures
        is_alphanumeric(byte as char),
{
    rand::Rng::sample(&mut rand::thread_rng(), rand::distributions::Alphanumeric)
}

/// A fresh token: [`TOKEN_LENGTH`] random letters and digits, each drawn
/// by itself.
pub fn generate_token() -> (token: String)
    ensures
        well_formed(token@),
{
    let mut token = String::new();
    let mut i: usize = 0;
    while i < TOKEN_LENGTH
        invariant
            i <= TOKEN_LENGTH,
            token@.len() == i,
            forall|k: int| 0 <= k < token@.len() ==> is_alphanumeric(#[trigger] token@[k]),
        decreases TOKEN_LENGTH - i,
    {
        let byte = random_alphanumeric();
        token.push(byte as char);
        i += 1;
    }
    token
}

} // verus!
