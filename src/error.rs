use vstd::prelude::*;

verus! {

/// The stage-independent origin of a failure.
#[derive(Debug, Copy, Clone, PartialEq, Eq, Structural)]
pub enum ErrorKind {
    /// The broker could not be reached, refused the login, or refused the queue.
    ConnectionFailure,
    /// An operation needed a connection that was never established.
    NotConnected,
    /// No definition could be obtained: from the stream, or from the files.
    ConsumerFailure,
}

/// A failure, with its origin and a human-readable message.
#[derive(Debug)]
pub struct Error {
    pub kind: ErrorKind,
    pub message: String,
}

impl Error {
    pub fn new(kind: ErrorKind, message: String) -> (r: Error)
        ensures
            r.kind == kind,
            r.message@ == message@,
    {
        Error { kind, message }
    }

    pub fn kind(&self) -> (r: ErrorKind)
        ensures
            r == self.kind,
    {
        self.kind
    }

    /// The message, as the error is shown to a reader.
    pub fn to_string(&self) -> (r: String)
        ensures
            r@ == self.message@,
    {
        self.message.clone()
    }
}

} // verus!
