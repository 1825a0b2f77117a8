//! The error type of the library.

use vstd::prelude::*;

verus! {

/// What went wrong, as a kind that callers can branch on.
#[derive(Clone, Copy, Debug, PartialEq, Eq, Structural)]
pub enum ErrorKind {
    /// The transport could not be opened, or a stream broke.
    Transport,
    /// A call did not complete within its deadline.
    DeadlineExceeded,
    /// An envelope's type tag is not the one that the reader expects.
    TypeMismatch,
    /// An envelope lacks its metadata or its body.
    Protocol,
    /// No candidate server accepted the login.
    Auth,
    /// No parser computes a diff for the declared config type.
    UnsupportedFormat,
    /// The outbound queue is closed or the connection is abandoned.
    ChannelClosed,
    /// An argument is blank where a value is required.
    InvalidArgument,
    /// A text does not follow its format.
    Parse,
}

/// An error: its kind and a message for people.
#[derive(Clone, Debug)]
pub struct NacosError {
    pub kind: ErrorKind,
    pub message: String,
}

pub type NacosResult<T> = Result<T, NacosError>;

impl NacosError {
    /// An error of the given kind with the given message.
    pub fn msg(kind: ErrorKind, message: &str) -> (e: Self)
        ensures
            e.kind == kind,
            e.message@ == message@,
    {
        NacosError { kind, message: message.to_owned() }
    }

    /// Whether the error is an expired deadline, which callers treat apart
    /// from every other failure.
    pub fn is_timeout(&self) -> (r: bool)
        ensures
            r == (self.kind == ErrorKind::DeadlineExceeded),
    {
        self.kind == ErrorKind::DeadlineExceeded
    }

    /// The message.
    pub fn to_string(&self) -> (s: String)
        ensures
            s@ == self.message@,
    {
        self.message.clone()
    }
}

} // verus!
