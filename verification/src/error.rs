//! What can go wrong, by kind, with a message for the user.

use vstd::prelude::*;
use vstd::string::*;

verus! {

/// The kinds of failure.
#[derive(Clone, Copy, Debug, PartialEq, Eq, Structural)]
pub enum ErrorKind {
    /// No profile has the name.
    NotFound,
    /// The directories of the profile hold no image.
    NoWallpapersFound,
    /// Applying a wallpaper or listing the monitors failed or took too long.
    ExternalGatewayFailure,
    /// A request could not be decoded.
    ProtocolDecodeError,
    /// The configuration could not be saved or loaded.
    PersistenceError,
    /// The peer closed the connection, or it could not be read or written.
    Disconnected,
    /// The service answered a request with a failure.
    Rejected,
}

/// A failure: its kind and a message for the user.
#[derive(Debug, PartialEq, Eq)]
pub struct Error {
    pub kind: ErrorKind,
    pub message: String,
}

/// What a failure holds.
pub struct ErrorView {
    pub kind: ErrorKind,
    pub message: Seq<char>,
}

impl View for Error {
    type V = ErrorView;

    open spec fn view(&self) -> ErrorView {
        ErrorView { kind: self.kind, message: self.message@ }
    }
}

impl Clone for Error {
    fn clone(&self) -> (r: Self)
        ensures
            r@ == self@,
    {
        Error { kind: self.kind, message: self.message.clone() }
    }
}

impl Error {
    /// A failure of kind `kind` with the message `message`.
    pub fn new(kind: ErrorKind, message: String) -> (r: Error)
        ensures
            r@ == (ErrorView { kind, message: message@ }),
    {
        Error { kind, message }
    }

    /// The message, as a string of its own.
    pub fn to_string(&self) -> (r: String)
        ensures
            r@ == self@.message,
    {
        self.message.clone()
    }
}

} // verus!
