use vstd::prelude::*;

verus! {

/// The classes of failure the system distinguishes: a provider or backend
/// that cannot be reached, a malformed stream or schema mismatch, a failing
/// or unknown tool call, and a malformed configuration file.
#[derive(Debug, Clone, Copy, PartialEq, Eq, Structural)]
pub enum ErrorKind {
    Connection,
    Protocol,
    Tool,
    Config,
}

/// One failure, carrying its class and a human-readable message.
#[derive(Debug)]
pub struct AppError {
    pub kind: ErrorKind,
    pub message: String,
}

impl AppError {
    /// An error of the given class with the given message.
    pub fn new(kind: ErrorKind, message: String) -> (r: AppError)
        ensures
            r.kind == kind,
            r.message == message,
    {
        AppError { kind, message }
    }

    /// The error's message, duplicated for display.
    pub fn describe(&self) -> (r: String)
        ensures
            r@ == self.message@,
    {
        self.message.clone()
    }
}

} // verus!
