//! The shared-secret value used by the token credential scheme.

use vstd::prelude::*;

verus! {

/// An opaque secret carried by a client to prove who it is: the admin
/// shared secret, a submitted password hash, or a session handle issued
/// at login.
#[derive(Debug, PartialEq, Eq)]
pub struct Token {
    value: String,
}

impl Token {
    /// The characters of the secret.
    pub closed spec fn view(&self) -> Seq<char> {
        self.value@
    }

    pub fn new(value: String) -> (token: Token)
        ensures
            token@ == value@,
    {
        Token { value }
    }

    pub fn as_str(&self) -> (s: &str)
        ensures
            s@ == self@,
    {
        self.value.as_str()
    }

    /// Whether two secrets consist of the same characters.
    pub fn matches(&self, other: &Token) -> (eq: bool)
        ensures
            eq == (self@ == other@),
    {
        self.value == other.value
    }
}

impl Clone for Token {
    fn clone(&self) -> (result: Self)
        ensures
            result@ == self@,
    {
        Token { value: self.value.clone() }
    }
}

} // verus!
