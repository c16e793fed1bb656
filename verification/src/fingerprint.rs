//! The fingerprint of a string: the 64-bit digest that std's default hasher
//! gives after the string has been fed to it through its `Hash` impl.

use std::collections::hash_map::DefaultHasher;
use std::hash::{Hash, Hasher};
use vstd::prelude::*;
use vstd::std_specs::hash::DefaultHasherAdditionalSpecFns;

verus! {

/// The state of a default hasher after a string has been fed to a hasher in
/// state `before` by `<str as Hash>::hash`. The states are the hasher's views:
/// the writes made so far.
pub uninterp spec fn fed(before: Seq<Seq<u8>>, s: Seq<char>) -> Seq<Seq<u8>>;

/// Calls `<str as Hash>::hash` on a `DefaultHasher`.
///
/// Trusted: the hasher's state after the call depends on nothing but its
/// state before and the characters of the string. What is written is not
/// stated.
#[verifier::external_body]
fn feed(state: &mut DefaultHasher, s: &str)
    ensures
        final(state)@ == fed(old(state)@, s@),
{
    s.hash(state);
}

/// The fingerprint of the string with characters `s`.
pub open spec fn fingerprint_of(s: Seq<char>) -> u64 {
    DefaultHasher::spec_finish(fed(Seq::empty(), s))
}

/// Computes the fingerprint of `s` with a fresh default hasher.
pub fn fingerprint(s: &str) -> (digest: u64)
    ensures
        digest == fingerprint_of(s@),
{
    let mut hasher = DefaultHasher::new();
    feed(&mut hasher, s);
    hasher.finish()
}

} // verus!
