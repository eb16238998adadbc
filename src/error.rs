//! The error kinds that an operation can end with.
use vstd::prelude::*;

verus! {

/// Why an operation could not be carried out.
#[derive(Debug, PartialEq, Eq, Structural, Clone, Copy)]
pub enum BlihErr {
    InvalidRequest,
    InvalidUrl,
    RequestFailed,
    NoTokenProvided,
    NoUserNameProvided,
    InvalidSshKey,
    HeaderError,
}

impl BlihErr {
    /// A short human-readable description of the error.
    pub fn message(&self) -> (r: &'static str)
        ensures
            r@ == match *self {
                BlihErr::InvalidRequest => "Invalid request"@,
                BlihErr::InvalidUrl => "Invalid Url"@,
                BlihErr::RequestFailed => "Request Failed"@,
                BlihErr::NoTokenProvided => "No token was provided"@,
                BlihErr::NoUserNameProvided => "No username was provided"@,
                BlihErr::InvalidSshKey => "Invalid sshkey file"@,
                BlihErr::HeaderError => "Error while building header"@,
            },
    {
        match *self {
            BlihErr::InvalidRequest => "Invalid request",
            BlihErr::InvalidUrl => "Invalid Url",
            BlihErr::RequestFailed => "Request Failed",
            BlihErr::NoTokenProvided => "No token was provided",
            BlihErr::NoUserNameProvided => "No username was provided",
            BlihErr::InvalidSshKey => "Invalid sshkey file",
            BlihErr::HeaderError => "Error while building header",
        }
    }
}

} // verus!
