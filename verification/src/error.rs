//! The ways in which a session can fail.

use crate::decimal::{decimal, push_decimal};
use vstd::prelude::*;

verus! {

/// Why a session ended without finishing its work.
#[derive(Clone, Copy, Debug, PartialEq, Eq, Structural)]
pub enum Error {
    /// No port was given.
    MissingPort,
    /// The port that was given is not a number.
    InvalidPort,
    /// Neither a search term nor a list id was given.
    MissingSelector,
    /// A request could not be completed.
    Network,
    /// The service answered with a status other than 200; the status is kept.
    InvalidStatus(u16),
    /// The reply to a list request does not describe a list.
    Deserialization,
    /// A link could not be created.
    Filesystem,
    /// The driver reported something that the session was not waiting for.
    UnexpectedEvent,
}

/// The text that describes `error` to a person.
pub open spec fn message_text(error: Error) -> Seq<char> {
    match error {
        Error::MissingPort => "A port is required"@,
        Error::InvalidPort => "The port must be a number"@,
        Error::MissingSelector => "You must either specify a search term or a list id"@,
        Error::Network => "The request could not be completed"@,
        Error::InvalidStatus(status) => "Invalid http status: status "@ + decimal(status as nat),
        Error::Deserialization => "The reply does not describe a list"@,
        Error::Filesystem => "The link could not be created"@,
        Error::UnexpectedEvent => "The session was not waiting for this event"@,
    }
}

impl Error {
    /// A message for a person to read.
    pub fn message(&self) -> (text: String)
        ensures
            text@ == message_text(*self),
    {
        match self {
            Error::MissingPort => "A port is required".to_owned(),
            Error::InvalidPort => "The port must be a number".to_owned(),
            Error::MissingSelector => "You must either specify a search term or a list id".to_owned(),
            Error::Network => "The request could not be completed".to_owned(),
            Error::InvalidStatus(status) => {
                let mut text = "Invalid http status: status ".to_owned();
                push_decimal(&mut text, *status as u64);
                text
            },
            Error::Deserialization => "The reply does not describe a list".to_owned(),
            Error::Filesystem => "The link could not be created".to_owned(),
            Error::UnexpectedEvent => "The session was not waiting for this event".to_owned(),
        }
    }
}

} // verus!
