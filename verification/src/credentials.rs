//! The identity that a probe authenticates as.

use vstd::prelude::*;
use vstd::string::*;

verus! {

/// Credentials as a mathematical value.
pub struct CredentialsView {
    pub principal: Seq<char>,
    pub secret: Seq<char>,
}

/// What `Credentials::describe` shows of a principal.
pub open spec fn redacted_description(principal: Seq<char>) -> Seq<char> {
    principal + " (secret withheld)"@
}

/// A principal and its secret. The secret leaves this type only through
/// `secret` and `duplicate`; there is no `Debug` on purpose.
#[derive(PartialEq, Eq)]
pub struct Credentials {
    principal: String,
    secret: String,
}

impl View for Credentials {
    type V = CredentialsView;

    closed spec fn view(&self) -> CredentialsView {
        CredentialsView { principal: self.principal@, secret: self.secret@ }
    }
}

impl Credentials {
    pub fn new(principal: &str, secret: &str) -> (credentials: Credentials)
        ensures
            credentials@ == (CredentialsView { principal: principal@, secret: secret@ }),
    {
        Credentials { principal: String::from_str(principal), secret: String::from_str(secret) }
    }

    pub fn principal(&self) -> (principal: &str)
        ensures
            principal@ == self@.principal,
    {
        self.principal.as_str()
    }

    pub fn secret(&self) -> (secret: &str)
        ensures
            secret@ == self@.secret,
    {
        self.secret.as_str()
    }

    /// A second copy of the same credentials.
    pub fn duplicate(&self) -> (copy: Credentials)
        ensures
            copy@ == self@,
    {
        Credentials { principal: self.principal.clone(), secret: self.secret.clone() }
    }

    /// A text fit for logs: it names the principal and is the same whatever
    /// the secret is.
    pub fn describe(&self) -> (text: String)
        ensures
            text@ == redacted_description(self@.principal),
    {
        self.principal.clone().concat(" (secret withheld)")
    }
}

} // verus!
