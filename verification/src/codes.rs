//! Codes: from a secret and a counter to six digits.

use crate::counter::{derive_counter, time_step};
use crate::endian::{byte_range, lemma_be_round_trip};
use crate::error::Error;
use crate::format::{code_text, format_code, is_code, lemma_code_text_is_code, CODE_DIGITS};
use crate::secrets::{decode_secret, decoded_secret};
use crate::truncation::{hotp, hotp_value, moving_factor};
use vstd::prelude::*;

verus! {

/// What asking for the code of `secret` at `counter` comes to: the code, or
/// the reason why there is none.
pub open spec fn code_outcome(secret: Seq<char>, counter: u64) -> Result<Seq<char>, Error> {
    match decoded_secret(secret) {
        None => Err(Error::InvalidSecretEncoding),
        Some(key) => match hotp(key, counter) {
            Ok(value) => Ok(code_text(value, CODE_DIGITS as nat)),
            Err(e) => Err(e),
        },
    }
}

/// A result of `code` or `code_at`, with the text taken as its characters.
pub open spec fn outcome_of(result: Result<String, Error>) -> Result<Seq<char>, Error> {
    match result {
        Ok(text) => Ok(text@),
        Err(e) => Err(e),
    }
}

/// A code has six characters, each of them a decimal digit, whatever
/// the secret and the counter.
pub proof fn lemma_code_shape(secret: Seq<char>, counter: u64)
    ensures
        code_outcome(secret, counter) matches Ok(text) ==> is_code(text, CODE_DIGITS as nat),
{
    if let Some(key) = decoded_secret(secret) {
        if let Ok(value) = hotp(key, counter) {
            lemma_code_text_is_code(value, CODE_DIGITS as nat);
        }
    }
}

/// The code depends on the secret and the counter alone: two results
/// for the same secret and counter are the same.
pub proof fn lemma_code_repeats(
    secret: Seq<char>,
    counter: u64,
    first: Result<String, Error>,
    second: Result<String, Error>,
)
    requires
        outcome_of(first) == code_outcome(secret, counter),
        outcome_of(second) == code_outcome(secret, counter),
    ensures
        outcome_of(first) == outcome_of(second),
{
}

/// Two counters that differ are hashed as two messages that differ.
pub proof fn lemma_counters_apart(a: u64, b: u64)
    requires
        a != b,
    ensures
        moving_factor(a) != moving_factor(b),
{
    assert(byte_range(8) == 0x1_0000_0000_0000_0000) by {
        reveal_with_fuel(byte_range, 9);
    }
    lemma_be_round_trip(a as nat, 8);
    lemma_be_round_trip(b as nat, 8);
}

/// The code for `secret` at the counter `counter`.
pub fn code_at(secret: &str, counter: u64) -> (result: Result<String, Error>)
    ensures
        outcome_of(result) == code_outcome(secret@, counter),
        result matches Ok(text) ==> is_code(text@, CODE_DIGITS as nat),
{
    let key = match decode_secret(secret) {
        Ok(key) => key,
        Err(e) => {
            return Err(e);
        },
    };
    match hotp_value(key.as_slice(), counter) {
        Ok(value) => Ok(format_code(value, CODE_DIGITS)),
        Err(e) => Err(e),
    }
}

/// The code for `secret`: at the counter `seed` where one is given, else at
/// the present time step.
///
/// The clock is read before the secret is looked at, so a clock that fails
/// is reported whatever the secret.
pub fn code(secret: &str, seed: Option<u64>) -> (result: Result<String, Error>)
    ensures
        seed matches Some(counter) ==> outcome_of(result) == code_outcome(secret@, counter),
        seed is None ==> result == Err::<String, Error>(Error::ClockError) || exists|seconds: u64|
            outcome_of(result) == code_outcome(secret@, #[trigger] time_step(seconds)),
        result matches Ok(text) ==> is_code(text@, CODE_DIGITS as nat),
{
    let counter = match derive_counter(seed) {
        Ok(counter) => counter,
        Err(e) => {
            return Err(e);
        },
    };
    code_at(secret, counter)
}

} // verus!
