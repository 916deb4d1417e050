//! Statuses the service answers with, and reading request headers.
use vstd::prelude::*;
use crate::constants::ERR_TOKEN_REQUIRED;

verus! {

/// The kind of a failed answer.
#[derive(Debug, PartialEq, Eq, Structural, Clone, Copy)]
pub enum Code {
    NotFound,
    Unauthenticated,
    Aborted,
    Unknown,
    FailedPrecondition,
    InvalidArgument,
    Unimplemented,
}

/// A failed answer: its kind and message.
#[derive(Debug, PartialEq, Eq)]
pub struct Status {
    pub code: Code,
    pub message: String,
}

impl Status {
    pub fn new(code: Code, message: &str) -> (s: Status)
        ensures
            s.code == code,
            s.message@ == message@,
    {
        Status { code, message: message.to_owned() }
    }

    pub fn with_message(code: Code, message: String) -> (s: Status)
        ensures
            s.code == code,
            s.message == message,
    {
        Status { code, message }
    }
}

/// What a lookup of a request header found: nothing, a value that is not visible ASCII (with
/// the reason), or the value.
pub type HeaderLookup = Option<Result<String, String>>;

/// The value of a request header: `FailedPrecondition` ("token required") when it is absent,
/// `Aborted` with the reason when it is not visible ASCII.
pub fn get_header(lookup: HeaderLookup) -> (r: Result<String, Status>)
    ensures
        match lookup {
            None => r matches Err(s) && s.code == Code::FailedPrecondition && s.message@
                == ERR_TOKEN_REQUIRED@,
            Some(Err(m)) => r matches Err(s) && s.code == Code::Aborted && s.message == m,
            Some(Ok(v)) => r == Ok::<String, Status>(v),
        },
{
    match lookup {
        None => Err(Status::new(Code::FailedPrecondition, ERR_TOKEN_REQUIRED)),
        Some(Err(m)) => Err(Status::with_message(Code::Aborted, m)),
        Some(Ok(v)) => Ok(v),
    }
}

} // verus!
