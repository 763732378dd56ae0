//! How a call ends when it does not end in a response.

use vstd::prelude::*;

verus! {

/// The status codes of the remote-call protocol, in the order of their
/// numbers on the wire, `Success` being 0.
#[derive(Clone, Copy, Debug, PartialEq, Eq, Structural)]
pub enum Code {
    Success,
    Cancelled,
    Unknown,
    InvalidArgument,
    DeadlineExceeded,
    NotFound,
    AlreadyExists,
    PermissionDenied,
    ResourceExhausted,
    FailedPrecondition,
    Aborted,
    OutOfRange,
    Unimplemented,
    Internal,
    Unavailable,
    DataLoss,
    Unauthenticated,
}

/// A status as mathematics sees it.
pub struct StatusView {
    pub code: Code,
    pub message: Seq<char>,
}

/// The error that a call returns in place of a response: a code that says
/// what kind of error it is, and a text for whoever reads logs.
#[derive(Clone, Debug, PartialEq, Eq)]
pub struct Status {
    pub code: Code,
    pub message: String,
}

impl View for Status {
    type V = StatusView;

    open spec fn view(&self) -> StatusView {
        StatusView { code: self.code, message: self.message@ }
    }
}

impl Status {
    /// A status with the given code and text.
    pub fn new(code: Code, message: &str) -> (status: Status)
        ensures
            status@ == (StatusView { code, message: message@ }),
    {
        Status { code, message: message.to_owned() }
    }

    /// The named label does not exist.
    pub fn not_found(message: &str) -> (status: Status)
        ensures
            status@ == (StatusView { code: Code::NotFound, message: message@ }),
    {
        Status::new(Code::NotFound, message)
    }

    /// The request lacks something that it must hold.
    pub fn invalid_argument(message: &str) -> (status: Status)
        ensures
            status@ == (StatusView { code: Code::InvalidArgument, message: message@ }),
    {
        Status::new(Code::InvalidArgument, message)
    }

    /// The server failed in a way that the protocol has no name for.
    pub fn unknown(message: &str) -> (status: Status)
        ensures
            status@ == (StatusView { code: Code::Unknown, message: message@ }),
    {
        Status::new(Code::Unknown, message)
    }

    /// The kind of error.
    pub fn code(&self) -> (code: Code)
        ensures
            code == self@.code,
    {
        self.code
    }

    /// The text that came with the error.
    pub fn message(&self) -> (message: &str)
        ensures
            message@ == self@.message,
    {
        self.message.as_str()
    }
}

} // verus!
