//! What holds of passwords whatever the strings: which candidates each
//! policy lets through, and how a password answers a later check.

use crate::fingerprint::fingerprint_of;
use crate::password::Password;
use crate::policy::{
    lemma_length_in_bytes, DefaultPasswordPolicy, NoPasswordPolicy, PasswordPolicy,
};
use vstd::prelude::*;
use vstd::utf8::{encode_utf8, is_ascii_chars};

verus! {

/// Under the default policy, every all-ASCII string of at least eight
/// characters becomes a password.
pub proof fn law_default_accepts_long_ascii(raw: Seq<char>)
    requires
        raw.len() >= 8,
        is_ascii_chars(raw),
    ensures
        Password::<DefaultPasswordPolicy>::creation(raw) == Ok::<u64, Seq<char>>(
            fingerprint_of(raw),
        ),
{
}

/// Under the default policy, a string that is shorter than eight, counted
/// in characters or in bytes, or that holds a character outside ASCII, is
/// refused, and the error carries that string.
pub proof fn law_default_rejects_short_or_non_ascii(raw: Seq<char>)
    requires
        raw.len() < 8 || encode_utf8(raw).len() < 8 || !is_ascii_chars(raw),
    ensures
        Password::<DefaultPasswordPolicy>::creation(raw) == Err::<u64, Seq<char>>(raw),
{
    lemma_length_in_bytes(raw);
}

/// Under the policy that checks nothing, every string becomes a password.
pub proof fn law_no_policy_accepts_all(raw: Seq<char>)
    ensures
        Password::<NoPasswordPolicy>::creation(raw) == Ok::<u64, Seq<char>>(fingerprint_of(raw)),
{
}

/// A password matches the string that it was made of.
pub proof fn law_round_trip<P: PasswordPolicy>(made: Password<P>, raw: Seq<char>)
    requires
        Password::<P>::creation(raw) == Ok::<u64, Seq<char>>(made@),
    ensures
        made.verdict(raw) == Ok::<(), Seq<char>>(()),
{
}

/// A password refuses every other string whose fingerprint differs from
/// that of the string it was made of, and the error carries the string
/// that was refused.
pub proof fn law_mismatch_refused<P: PasswordPolicy>(
    made: Password<P>,
    raw: Seq<char>,
    other: Seq<char>,
)
    requires
        Password::<P>::creation(raw) == Ok::<u64, Seq<char>>(made@),
        other != raw,
        fingerprint_of(other) != fingerprint_of(raw),
    ensures
        made.verdict(other) == Err::<(), Seq<char>>(other),
{
}

/// Two passwords made of the same string under the same policy have the
/// same fingerprint, and so answer every check alike.
pub proof fn law_deterministic<P: PasswordPolicy>(
    first: Password<P>,
    second: Password<P>,
    raw: Seq<char>,
    candidate: Seq<char>,
)
    requires
        Password::<P>::creation(raw) == Ok::<u64, Seq<char>>(first@),
        Password::<P>::creation(raw) == Ok::<u64, Seq<char>>(second@),
    ensures
        first@ == second@,
        first.verdict(candidate) == second.verdict(candidate),
{
}

} // verus!
