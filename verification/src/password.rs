//! The password itself: made only from a string that its policy accepts,
//! and holding a fingerprint of that string, not the string.

use crate::error::{PasswordCheckError, PasswordCreationError};
use crate::fingerprint::{fingerprint, fingerprint_of};
use crate::policy::PasswordPolicy;
use std::marker::PhantomData;
use vstd::prelude::*;

verus! {

/// A password that passed the policy `P`. The policy is part of the type
/// and so is fixed for the value's whole life; the value cannot be changed
/// once made.
pub struct Password<P: PasswordPolicy>(u64, PhantomData<P>);

impl<P: PasswordPolicy> View for Password<P> {
    type V = u64;

    /// The fingerprint of the string that the password was made of.
    closed spec fn view(&self) -> u64 {
        self.0
    }
}

impl<P: PasswordPolicy> Password<P> {
    /// What making a password of `raw` gives: the new password's fingerprint
    /// where the policy accepts `raw`, else `raw` handed back as the error.
    pub open spec fn creation(raw: Seq<char>) -> Result<u64, Seq<char>> {
        if P::accepts(raw) {
            Ok(fingerprint_of(raw))
        } else {
            Err(raw)
        }
    }

    /// What checking `candidate` against the password gives: `Ok` where
    /// `candidate` has the password's fingerprint, else `candidate` handed
    /// back as the error.
    pub open spec fn verdict(&self, candidate: Seq<char>) -> Result<(), Seq<char>> {
        if fingerprint_of(candidate) == self@ {
            Ok(())
        } else {
            Err(candidate)
        }
    }

    /// Whether the password can have come from `new`: some string that the
    /// policy accepts has its fingerprint.
    pub open spec fn validated(&self) -> bool {
        exists|raw: Seq<char>| P::accepts(raw) && fingerprint_of(raw) == self@
    }

    /// Makes a password of `password` if the policy accepts it, and refuses
    /// with the string as the error's payload if not. The string itself is
    /// dropped: only its fingerprint is kept.
    pub fn new(password: String) -> (made: Result<Password<P>, PasswordCreationError>)
        ensures
            match made {
                Ok(p) => Self::creation(password@) == Ok::<u64, Seq<char>>(p@) && p.validated(),
                Err(e) => Self::creation(password@) == Err::<u64, Seq<char>>(e@),
            },
    {
        match P::check(password.as_str()) {
            Ok(()) => {
                let made = Password(fingerprint(password.as_str()), PhantomData);
                assert(P::accepts(password@) && fingerprint_of(password@) == made@);
                Ok(made)
            },
            Err(e) => Err(e),
        }
    }

    /// Checks `candidate` against the password: `Ok` exactly when it has the
    /// password's fingerprint, otherwise an error that carries `candidate`.
    pub fn check(&self, candidate: &str) -> (outcome: Result<(), PasswordCheckError>)
        ensures
            match outcome {
                Ok(()) => self.verdict(candidate@) == Ok::<(), Seq<char>>(()),
                Err(e) => self.verdict(candidate@) == Err::<(), Seq<char>>(e@),
            },
    {
        if fingerprint(candidate) != self.0 {
            return Err(PasswordCheckError(candidate.to_string()));
        }
        Ok(())
    }
}

} // verus!
