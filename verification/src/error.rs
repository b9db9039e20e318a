//! The ways in which a version check fails.

use vstd::prelude::*;
use vstd::string::*;

verus! {

/// Why a version check failed. No failure is retried; each is handed to the
/// caller as it arose.
#[derive(Clone, Debug, PartialEq, Eq)]
pub enum ErrorKind {
    /// The request did not go through, or its body was not the JSON that the
    /// registry sends. Carries the transport's own words.
    TransportError(String),
    /// The registry answered with JSON that holds neither a version nor an
    /// error. Carries the reason.
    MalformedResponse(String),
    /// The registry reported a problem of its own, such as an unknown
    /// package. Carries the registry's words unchanged.
    RegistryError(String),
    /// The time of the check could not be written down. Carries the store's
    /// own words.
    PersistenceError(String),
}

/// An `ErrorKind` with its text as a sequence of characters.
pub enum ErrorText {
    Transport(Seq<char>),
    Malformed(Seq<char>),
    Registry(Seq<char>),
    Persistence(Seq<char>),
}

impl View for ErrorKind {
    type V = ErrorText;

    open spec fn view(&self) -> ErrorText {
        match self {
            ErrorKind::TransportError(text) => ErrorText::Transport(text@),
            ErrorKind::MalformedResponse(reason) => ErrorText::Malformed(reason@),
            ErrorKind::RegistryError(detail) => ErrorText::Registry(detail@),
            ErrorKind::PersistenceError(text) => ErrorText::Persistence(text@),
        }
    }
}

impl ErrorText {
    /// The text that the error carries.
    pub open spec fn message(self) -> Seq<char> {
        match self {
            ErrorText::Transport(text) => text,
            ErrorText::Malformed(reason) => reason,
            ErrorText::Registry(detail) => detail,
            ErrorText::Persistence(text) => text,
        }
    }

    /// The error in one line, as a user is told of it.
    pub open spec fn description(self) -> Seq<char> {
        match self {
            ErrorText::Transport(text) => text,
            ErrorText::Malformed(reason) => "Error while parsing json: "@ + reason,
            ErrorText::Registry(detail) => "Error received from registry: "@ + detail,
            ErrorText::Persistence(text) => text,
        }
    }
}

impl ErrorKind {
    /// The text that the error carries, without a word added.
    pub fn message(&self) -> (message: String)
        ensures
            message@ == self@.message(),
    {
        match self {
            ErrorKind::TransportError(text) => text.clone(),
            ErrorKind::MalformedResponse(reason) => reason.clone(),
            ErrorKind::RegistryError(detail) => detail.clone(),
            ErrorKind::PersistenceError(text) => text.clone(),
        }
    }

    /// The error in one line, as a user is told of it.
    pub fn describe(&self) -> (description: String)
        ensures
            description@ == self@.description(),
    {
        match self {
            ErrorKind::TransportError(text) => text.clone(),
            ErrorKind::MalformedResponse(reason) => {
                let mut description = String::from_str("Error while parsing json: ");
                description.append(reason.as_str());
                description
            },
            ErrorKind::RegistryError(detail) => {
                let mut description = String::from_str("Error received from registry: ");
                description.append(detail.as_str());
                description
            },
            ErrorKind::PersistenceError(text) => text.clone(),
        }
    }
}

} // verus!
