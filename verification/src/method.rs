//! The four verbs that a call can be made with.

use vstd::prelude::*;
use vstd::string::*;
use crate::error::DispatchError;

verus! {

/// An HTTP verb that the dispatcher supports.
#[derive(Debug, Clone, Copy, PartialEq, Eq, Structural)]
pub enum Method {
    Get,
    Post,
    Put,
    Delete,
}

/// The verb that an upper-case name stands for, if it is one of the four.
pub open spec fn method_named(upper: Seq<char>) -> Option<Method> {
    if upper == "GET"@ {
        Some(Method::Get)
    } else if upper == "POST"@ {
        Some(Method::Post)
    } else if upper == "PUT"@ {
        Some(Method::Put)
    } else if upper == "DELETE"@ {
        Some(Method::Delete)
    } else {
        None
    }
}

impl Method {
    /// The verb's name, in upper case.
    pub open spec fn name(&self) -> Seq<char> {
        match self {
            Method::Get => "GET"@,
            Method::Post => "POST"@,
            Method::Put => "PUT"@,
            Method::Delete => "DELETE"@,
        }
    }

    /// Whether a call with this verb carries the body that was supplied.
    pub open spec fn takes_body(&self) -> bool {
        *self == Method::Post || *self == Method::Put
    }

    /// The verb's name, in upper case.
    pub fn as_str(&self) -> (s: &'static str)
        ensures
            s@ == self.name(),
    {
        match self {
            Method::Get => "GET",
            Method::Post => "POST",
            Method::Put => "PUT",
            Method::Delete => "DELETE",
        }
    }

    /// Whether a call with this verb carries the body that was supplied:
    /// POST and PUT do, GET and DELETE never.
    pub fn carries_body(&self) -> (b: bool)
        ensures
            b == self.takes_body(),
    {
        match self {
            Method::Post | Method::Put => true,
            Method::Get | Method::Delete => false,
        }
    }
}

/// Resolves a method name that is already in upper case. Any name but the
/// four is rejected, and the error holds the name as it was given.
pub fn resolve_method(upper: String) -> (r: Result<Method, DispatchError>)
    ensures
        match r {
            Ok(m) => method_named(upper@) == Some(m),
            Err(e) => method_named(upper@) is None && e == DispatchError::UnsupportedMethod(upper),
        },
{
    if upper == "GET".to_owned() {
        Ok(Method::Get)
    } else if upper == "POST".to_owned() {
        Ok(Method::Post)
    } else if upper == "PUT".to_owned() {
        Ok(Method::Put)
    } else if upper == "DELETE".to_owned() {
        Ok(Method::Delete)
    } else {
        Err(DispatchError::UnsupportedMethod(upper))
    }
}

} // verus!
