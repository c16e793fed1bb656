//! Password policies: stateless rules that say which candidate strings may
//! become a password.

use crate::error::PasswordCreationError;
use vstd::prelude::*;
use vstd::utf8::{encode_utf8, is_ascii_chars, is_ascii_chars_encode_utf8};

verus! {

/// A rule that classifies a candidate string as acceptable or not. A policy
/// has no state: its verdict depends on the candidate alone.
pub trait PasswordPolicy {
    /// Whether the policy accepts the candidate with these characters.
    spec fn accepts(candidate: Seq<char>) -> bool;

    /// Judges `candidate`: `Ok` exactly when the policy accepts it, otherwise
    /// an error that carries the candidate.
    fn check(candidate: &str) -> (verdict: Result<(), PasswordCreationError>)
        ensures
            match verdict {
                Ok(()) => Self::accepts(candidate@),
                Err(e) => !Self::accepts(candidate@) && e@ == candidate@,
            },
    ;
}

/// The shortest length that `DefaultPasswordPolicy` accepts.
pub const MIN_LENGTH: usize = 8;

/// Accepts the candidates of at least `MIN_LENGTH` characters that are all
/// ASCII.
pub struct DefaultPasswordPolicy;

/// Accepts every candidate.
pub struct NoPasswordPolicy;

impl PasswordPolicy for DefaultPasswordPolicy {
    open spec fn accepts(candidate: Seq<char>) -> bool {
        candidate.len() >= MIN_LENGTH && is_ascii_chars(candidate)
    }

    fn check(candidate: &str) -> (verdict: Result<(), PasswordCreationError>) {
        proof {
            lemma_length_in_bytes(candidate@);
        }
        if candidate.as_bytes().len() < MIN_LENGTH {
            return Err(PasswordCreationError(candidate.to_string()));
        }
        if !candidate.is_ascii() {
            return Err(PasswordCreationError(candidate.to_string()));
        }
        Ok(())
    }
}

impl PasswordPolicy for NoPasswordPolicy {
    open spec fn accepts(candidate: Seq<char>) -> bool {
        true
    }

    fn check(_candidate: &str) -> (verdict: Result<(), PasswordCreationError>) {
        Ok(())
    }
}

/// An ASCII string has as many bytes as characters. So it makes no
/// difference to the default policy whether a candidate's length is counted
/// in characters or in the bytes of its UTF-8 encoding.
pub proof fn lemma_length_in_bytes(candidate: Seq<char>)
    ensures
        is_ascii_chars(candidate) ==> encode_utf8(candidate).len() == candidate.len(),
        DefaultPasswordPolicy::accepts(candidate) <==> encode_utf8(candidate).len() >= MIN_LENGTH
            && is_ascii_chars(candidate),
{
    if is_ascii_chars(candidate) {
        is_ascii_chars_encode_utf8(candidate);
    }
}

} // verus!
