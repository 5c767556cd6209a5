//! The ways in which producing a code can fail.

use vstd::prelude::*;

verus! {

/// Why no code was produced.
#[derive(Clone, Copy, Debug, PartialEq, Eq, Structural)]
pub enum Error {
    /// The system clock reports a time before the Unix epoch.
    ClockError,
    /// The secret text is not valid base-32.
    InvalidSecretEncoding,
    /// The decoded secret cannot serve as a key for the keyed hash.
    KeyError,
}

/// The text that describes `error`.
pub open spec fn error_text(error: Error) -> Seq<char> {
    match error {
        Error::ClockError => "system clock is set before the Unix epoch"@,
        Error::InvalidSecretEncoding => "secret is not valid base-32 text"@,
        Error::KeyError => "secret cannot be used as a key"@,
    }
}

impl Error {
    /// A short description of the failure, for messages and logs.
    pub fn message(&self) -> (text: &'static str)
        ensures
            text@ == error_text(*self),
    {
        match self {
            Error::ClockError => "system clock is set before the Unix epoch",
            Error::InvalidSecretEncoding => "secret is not valid base-32 text",
            Error::KeyError => "secret cannot be used as a key",
        }
    }
}

} // verus!
