//! The ways in which a dispatch fails, and the text each is reported with.

use vstd::prelude::*;
use vstd::string::*;
use crate::text::{decimal, push_decimal};

verus! {

/// The family that a failure belongs to.
#[derive(Debug, Clone, Copy, PartialEq, Eq, Structural)]
pub enum ErrorKind {
    /// The request description was rejected before any call was made.
    InvalidInput,
    /// The transport could not complete the call.
    NetworkError,
    /// The server answered with a status outside 200 to 299.
    HttpStatusError,
    /// The server answered with success, but the body is no JSON.
    InvalidResponse,
}

/// A failed dispatch. Every failure is final for its call.
#[derive(Debug, PartialEq, Eq)]
pub enum DispatchError {
    /// The URL is empty once surrounding white space is removed.
    EmptyUrl,
    /// The method, given here in upper case, is none of the four supported.
    UnsupportedMethod(String),
    /// The transport could not be set up; holds the transport's description.
    ClientSetup(String),
    /// The call failed in the transport; holds the transport's description.
    Network(String),
    /// The response carried this status, which is outside 200 to 299.
    HttpStatus(u16),
    /// The body of a successful response did not parse; holds the reason.
    InvalidResponse(String),
}

impl DispatchError {
    /// The family of this failure.
    pub open spec fn kind_of(&self) -> ErrorKind {
        match self {
            DispatchError::EmptyUrl => ErrorKind::InvalidInput,
            DispatchError::UnsupportedMethod(_) => ErrorKind::InvalidInput,
            DispatchError::ClientSetup(_) => ErrorKind::NetworkError,
            DispatchError::Network(_) => ErrorKind::NetworkError,
            DispatchError::HttpStatus(_) => ErrorKind::HttpStatusError,
            DispatchError::InvalidResponse(_) => ErrorKind::InvalidResponse,
        }
    }

    /// The text that this failure is reported with.
    pub open spec fn text(&self) -> Seq<char> {
        match self {
            DispatchError::EmptyUrl => "URL cannot be empty"@,
            DispatchError::UnsupportedMethod(m) => "Unsupported HTTP method: "@ + m@,
            DispatchError::ClientSetup(d) => "Failed to create HTTP client: "@ + d@,
            DispatchError::Network(d) => "Network error: "@ + d@,
            DispatchError::HttpStatus(s) => "HTTP error: "@ + decimal(*s as nat),
            DispatchError::InvalidResponse(d) => "Invalid JSON response: "@ + d@,
        }
    }

    /// The family of this failure.
    pub fn kind(&self) -> (k: ErrorKind)
        ensures
            k == self.kind_of(),
    {
        match self {
            DispatchError::EmptyUrl => ErrorKind::InvalidInput,
            DispatchError::UnsupportedMethod(_) => ErrorKind::InvalidInput,
            DispatchError::ClientSetup(_) => ErrorKind::NetworkError,
            DispatchError::Network(_) => ErrorKind::NetworkError,
            DispatchError::HttpStatus(_) => ErrorKind::HttpStatusError,
            DispatchError::InvalidResponse(_) => ErrorKind::InvalidResponse,
        }
    }

    /// The text that this failure is reported with: all that a caller of the
    /// dispatch gets to see of it.
    pub fn message(&self) -> (m: String)
        ensures
            m@ == self.text(),
    {
        match self {
            DispatchError::EmptyUrl => "URL cannot be empty".to_owned(),
            DispatchError::UnsupportedMethod(method) => {
                let mut m = "Unsupported HTTP method: ".to_owned();
                m.append(method.as_str());
                m
            },
            DispatchError::ClientSetup(description) => {
                let mut m = "Failed to create HTTP client: ".to_owned();
                m.append(description.as_str());
                m
            },
            DispatchError::Network(description) => {
                let mut m = "Network error: ".to_owned();
                m.append(description.as_str());
                m
            },
            DispatchError::HttpStatus(status) => {
                let mut m = "HTTP error: ".to_owned();
                push_decimal(&mut m, *status);
                m
            },
            DispatchError::InvalidResponse(description) => {
                let mut m = "Invalid JSON response: ".to_owned();
                m.append(description.as_str());
                m
            },
        }
    }
}

} // verus!
