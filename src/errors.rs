//! What can go wrong when talking to an instance.
use vstd::prelude::*;
use crate::json::DecodeError;
use crate::entities::{ServerError, ServerErrorV, NotificationId};

verus! {

/// Every failure that a call can end in.
#[derive(Debug, PartialEq, Eq)]
pub enum Error {
    /// The request did not complete; the transport's message.
    Transport(String),
    /// The server answered with its error record.
    Server(ServerError),
    /// The answer was neither the server's error record nor the value asked for.
    Decode(DecodeError),
    /// A favourite or reblog notification came without its status.
    MalformedNotification(NotificationId),
    /// The session could not be set up; what was missing.
    Config(String),
}

/// The model of an [`Error`].
pub ghost enum ErrorV {
    Transport(Seq<char>),
    Server(ServerErrorV),
    Decode(DecodeError),
    MalformedNotification(NotificationId),
    Config(Seq<char>),
}

impl View for Error {
    type V = ErrorV;

    open spec fn view(&self) -> ErrorV {
        match self {
            Error::Transport(s) => ErrorV::Transport(s@),
            Error::Server(e) => ErrorV::Server(e@),
            Error::Decode(d) => ErrorV::Decode(*d),
            Error::MalformedNotification(id) => ErrorV::MalformedNotification(*id),
            Error::Config(s) => ErrorV::Config(s@),
        }
    }
}

/// The model of the outcome of a call.
pub open spec fn result_view<T: View>(r: Result<T, Error>) -> Result<T::V, ErrorV> {
    match r {
        Ok(t) => Ok(t@),
        Err(e) => Err(e@),
    }
}

} // verus!
