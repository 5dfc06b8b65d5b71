//! The outcome of a refused request: a status code and a message.
use vstd::prelude::*;

verus! {

/// The status codes that the service answers refused requests with.
#[derive(Clone, Copy, Debug, PartialEq, Eq, Structural)]
pub enum Code {
    InvalidArgument,
    NotFound,
    AlreadyExists,
    Internal,
    ResourceExhausted,
}

/// A refused request: a status code and a message for the caller.
#[derive(Debug)]
pub struct Status {
    pub code: Code,
    pub message: String,
}

impl View for Status {
    type V = (Code, Seq<char>);

    open spec fn view(&self) -> (Code, Seq<char>) {
        (self.code, self.message@)
    }
}

impl Status {
    /// A status with the given code and message.
    pub fn new(code: Code, message: &str) -> (r: Status)
        ensures
            r@ == (code, message@),
    {
        Status { code, message: message.to_owned() }
    }

    /// A status with the given code whose message is `message`, taken by value.
    pub fn with_message(code: Code, message: String) -> (r: Status)
        ensures
            r@ == (code, message@),
    {
        Status { code, message }
    }

    /// An `InvalidArgument` status.
    pub fn invalid_argument(message: &str) -> (r: Status)
        ensures
            r@ == (Code::InvalidArgument, message@),
    {
        Status::new(Code::InvalidArgument, message)
    }

    /// A `NotFound` status.
    pub fn not_found(message: &str) -> (r: Status)
        ensures
            r@ == (Code::NotFound, message@),
    {
        Status::new(Code::NotFound, message)
    }

    /// An `AlreadyExists` status.
    pub fn already_exists(message: &str) -> (r: Status)
        ensures
            r@ == (Code::AlreadyExists, message@),
    {
        Status::new(Code::AlreadyExists, message)
    }

    /// An `Internal` status.
    pub fn internal(message: &str) -> (r: Status)
        ensures
            r@ == (Code::Internal, message@),
    {
        Status::new(Code::Internal, message)
    }

    /// A `ResourceExhausted` status.
    pub fn resource_exhausted(message: &str) -> (r: Status)
        ensures
            r@ == (Code::ResourceExhausted, message@),
    {
        Status::new(Code::ResourceExhausted, message)
    }
}

/// Whether `r` failed with exactly the status `(code, message)`.
pub open spec fn fails_with<T>(r: Result<T, Status>, code: Code, message: Seq<char>) -> bool {
    r matches Err(e) && e@ == (code, message)
}

} // verus!
