//! The error type shared by every fallible step of the benchmark.

use vstd::prelude::*;

verus! {

/// What went wrong.
#[derive(Clone, Copy, Debug, PartialEq, Eq, Structural)]
pub enum ErrorKind {
    /// A file could not be opened for reading.
    FileOpen,
    /// A line of a matrix file is not a number.
    Parse,
    /// A matrix file holds another number of elements than its dimensions.
    SizeMismatch,
    /// No compute platform carries the requested name.
    PlatformNotFound,
    /// The device did not report the timestamps of a kernel run.
    ProfilingUnavailable,
    /// A command-line value is out of range.
    InvalidArgument,
    /// Any other failure, reported by its message alone.
    General,
}

/// An error with its kind and a human-readable message.
#[derive(Debug)]
pub struct GenError {
    pub kind: ErrorKind,
    pub message: String,
}

/// The result of a fallible step.
pub type GenResult<T> = Result<T, GenError>;

impl GenError {
    /// An error of kind `kind` with the message `message`.
    pub fn new(kind: ErrorKind, message: String) -> (r: GenError)
        ensures
            r.kind == kind,
            r.message@ == message@,
    {
        GenError { kind, message }
    }

    /// An error of kind `kind` whose message is the text `message`.
    pub fn with_text(kind: ErrorKind, message: &str) -> (r: GenError)
        ensures
            r.kind == kind,
            r.message@ == message@,
    {
        GenError { kind, message: message.to_owned() }
    }

    /// What went wrong.
    pub fn kind(&self) -> (r: ErrorKind)
        ensures
            r == self.kind,
    {
        self.kind
    }

    /// The message, borrowed.
    pub fn description(&self) -> (r: &str)
        ensures
            r@ == self.message@,
    {
        self.message.as_str()
    }

    /// The message, as the text shown to a user.
    pub fn to_string(&self) -> (r: String)
        ensures
            r@ == self.message@,
    {
        self.message.clone()
    }
}

/// A failure known only by its message.
impl From<String> for GenError {
    fn from(s: String) -> (r: GenError) {
        GenError { kind: ErrorKind::General, message: s }
    }
}

impl vstd::std_specs::convert::FromSpecImpl<String> for GenError {
    open spec fn obeys_from_spec() -> bool {
        true
    }

    open spec fn from_spec(s: String) -> GenError {
        GenError { kind: ErrorKind::General, message: s }
    }
}

} // verus!
