use vstd::prelude::*;

verus! {

/// Message used when a failed response carries no readable body.
pub const FALLBACK_MESSAGE: &'static str = "no error details provided from server";

/// Message of the failure raised when a created record's identifier cannot be found.
pub const NO_IDENTIFIER_MESSAGE: &'static str = "Dataverse provided no Uuid";

/// Every way an operation of this client can fail.
#[derive(Debug, Clone, PartialEq, Eq)]
pub enum DataverseError {
    /// The authentication capability could not produce a token.
    Authentication { message: String },
    /// The request could not be sent or its answer not received.
    Transport { message: String },
    /// An outgoing entity could not be encoded.
    Encoding { message: String },
    /// An incoming payload could not be decoded.
    Decoding { message: String },
    /// The server answered with a 4xx or 5xx status.
    Server { message: String },
    /// A successful answer lacked an artifact the protocol requires.
    ProtocolViolation { message: String },
    /// Continuation was asked of a page that has no cursor.
    NoNextPage,
}

impl DataverseError {
    /// True exactly for the `Server` variant.
    pub open spec fn is_server(&self) -> bool {
        self is Server
    }

    /// The text carried by the failure; empty for `NoNextPage`.
    pub fn message(&self) -> (r: String)
        ensures
            r@ == self.message_spec(),
    {
        match self {
            DataverseError::Authentication { message } => message.clone(),
            DataverseError::Transport { message } => message.clone(),
            DataverseError::Encoding { message } => message.clone(),
            DataverseError::Decoding { message } => message.clone(),
            DataverseError::Server { message } => message.clone(),
            DataverseError::ProtocolViolation { message } => message.clone(),
            DataverseError::NoNextPage => String::new(),
        }
    }

    pub open spec fn message_spec(&self) -> Seq<char> {
        match self {
            DataverseError::Authentication { message } => message@,
            DataverseError::Transport { message } => message@,
            DataverseError::Encoding { message } => message@,
            DataverseError::Decoding { message } => message@,
            DataverseError::Server { message } => message@,
            DataverseError::ProtocolViolation { message } => message@,
            DataverseError::NoNextPage => Seq::empty(),
        }
    }
}

} // verus!
