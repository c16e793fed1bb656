//! The two ways in which a password operation can be refused. Each error
//! carries the string that was refused.

use vstd::prelude::*;
use vstd::std_specs::cmp::PartialEqSpecImpl;
use vstd::string::StringExecFns;

verus! {

/// A candidate was rejected by the policy when a password was to be made of
/// it. Holds the rejected candidate.
#[derive(Debug, Clone)]
pub struct PasswordCreationError(pub String);

/// A candidate did not match the password it was checked against. Holds the
/// candidate.
#[derive(Debug, Clone)]
pub struct PasswordCheckError(pub String);

impl View for PasswordCreationError {
    type V = Seq<char>;

    /// The characters of the rejected candidate.
    open spec fn view(&self) -> Seq<char> {
        self.0@
    }
}

impl View for PasswordCheckError {
    type V = Seq<char>;

    /// The characters of the candidate that did not match.
    open spec fn view(&self) -> Seq<char> {
        self.0@
    }
}

impl PartialEq for PasswordCreationError {
    fn eq(&self, other: &Self) -> (same: bool) {
        self.0 == other.0
    }
}

impl PartialEqSpecImpl for PasswordCreationError {
    open spec fn obeys_eq_spec() -> bool {
        true
    }

    open spec fn eq_spec(&self, other: &Self) -> bool {
        self@ == other@
    }
}

impl PartialEq for PasswordCheckError {
    fn eq(&self, other: &Self) -> (same: bool) {
        self.0 == other.0
    }
}

impl PartialEqSpecImpl for PasswordCheckError {
    open spec fn obeys_eq_spec() -> bool {
        true
    }

    open spec fn eq_spec(&self, other: &Self) -> bool {
        self@ == other@
    }
}

impl PasswordCreationError {
    /// What follows the candidate in the error's message.
    pub open spec fn suffix() -> Seq<char> {
        " is not a valid password"@
    }

    /// The error's message: the rejected candidate, then the words that say
    /// that it is no valid password.
    pub fn message(&self) -> (text: String)
        ensures
            text@ == self@ + Self::suffix(),
    {
        let mut text = self.0.clone();
        text.append(" is not a valid password");
        text
    }
}

impl PasswordCheckError {
    /// What follows the candidate in the error's message.
    pub open spec fn suffix() -> Seq<char> {
        " does not match the password"@
    }

    /// The error's message: the candidate, then the words that say that it
    /// does not match.
    pub fn message(&self) -> (text: String)
        ensures
            text@ == self@ + Self::suffix(),
    {
        let mut text = self.0.clone();
        text.append(" does not match the password");
        text
    }
}

} // verus!
