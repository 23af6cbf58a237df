//! Normalisation of one outbound JSON-over-HTTP call: validating a request
//! description, constructing the call that a transport is to make, and turning
//! what the transport reports into a response envelope or an error.
//!
//! The library performs no I/O. A caller asks [`request::plan`] for the call to
//! make and makes it. The status line and the raw headers go to
//! [`response::accept_head`], the body to [`response::parse_body`], and
//! [`response::envelope`] closes the dispatch. [`response::respond`] does the
//! three at once for a response that is already at hand.

use vstd::prelude::*;
use vstd::string::*;

pub mod text;
pub mod error;
pub mod method;
pub mod url;
pub mod request;
pub mod headers;
pub mod response;
pub mod laws;

verus! {

/// The text of the greeting for `name`.
pub open spec fn greeting(name: Seq<char>) -> Seq<char> {
    "Hello, "@ + name + "! You've been greeted from Rust!"@
}

/// Greets `name`, which is embedded as it stands.
pub fn greet(name: &str) -> (text: String)
    ensures
        text@ == greeting(name@),
{
    let mut text = "Hello, ".to_owned();
    text.append(name);
    text.append("! You've been greeted from Rust!");
    text
}

} // verus!
