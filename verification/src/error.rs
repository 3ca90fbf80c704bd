//! The error kinds that the pairing subsystem surfaces.

use vstd::prelude::*;
use vstd::string::*;

verus! {

/// A failure of a pairing operation.
#[derive(Debug, PartialEq, Eq)]
pub enum NetworkingError {
    /// An incoming message or a request broke a rule of the protocol.
    Protocol(String),
    /// A stream could not be read or written.
    Transport(String),
    /// A document could not be encoded or decoded.
    Serialization(String),
    /// The durable store failed.
    Storage(String),
    /// A session or a queue entry is absent.
    NotFound(String),
    /// The command channel is gone.
    ChannelClosed,
}

/// The mathematical value of a [`NetworkingError`].
pub ghost enum ErrorView {
    Protocol(Seq<char>),
    Transport(Seq<char>),
    Serialization(Seq<char>),
    Storage(Seq<char>),
    NotFound(Seq<char>),
    ChannelClosed,
}

impl ErrorView {
    /// The text shown for this error.
    pub open spec fn message(self) -> Seq<char> {
        match self {
            ErrorView::Protocol(m) => "Protocol error: "@ + m,
            ErrorView::Transport(m) => "Transport error: "@ + m,
            ErrorView::Serialization(m) => "Serialization error: "@ + m,
            ErrorView::Storage(m) => "Storage error: "@ + m,
            ErrorView::NotFound(m) => "Not found: "@ + m,
            ErrorView::ChannelClosed => "Pairing command channel closed"@,
        }
    }
}

impl View for NetworkingError {
    type V = ErrorView;

    open spec fn view(&self) -> ErrorView {
        match self {
            NetworkingError::Protocol(m) => ErrorView::Protocol(m@),
            NetworkingError::Transport(m) => ErrorView::Transport(m@),
            NetworkingError::Serialization(m) => ErrorView::Serialization(m@),
            NetworkingError::Storage(m) => ErrorView::Storage(m@),
            NetworkingError::NotFound(m) => ErrorView::NotFound(m@),
            NetworkingError::ChannelClosed => ErrorView::ChannelClosed,
        }
    }
}

impl NetworkingError {
    /// A protocol error with the given text.
    pub fn protocol(text: &str) -> (e: NetworkingError)
        ensures
            e@ == ErrorView::Protocol(text@),
    {
        NetworkingError::Protocol(text.to_string())
    }

    /// The text shown for this error: its kind, then its detail.
    pub fn message(&self) -> (text: String)
        ensures
            text@ == self@.message(),
    {
        match self {
            NetworkingError::Protocol(m) => "Protocol error: ".to_string().concat(m.as_str()),
            NetworkingError::Transport(m) => "Transport error: ".to_string().concat(m.as_str()),
            NetworkingError::Serialization(m) => "Serialization error: ".to_string().concat(
                m.as_str(),
            ),
            NetworkingError::Storage(m) => "Storage error: ".to_string().concat(m.as_str()),
            NetworkingError::NotFound(m) => "Not found: ".to_string().concat(m.as_str()),
            NetworkingError::ChannelClosed => "Pairing command channel closed".to_string(),
        }
    }
}

} // verus!
