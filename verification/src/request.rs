//! From a request description to the call that the transport is to make.

use vstd::prelude::*;
use vstd::string::*;
use std::collections::HashMap;
use crate::error::{DispatchError, ErrorKind};
use crate::method::{Method, method_named, resolve_method};
use crate::text::{trimmed, uppercased};
use crate::url::{build_url, full_url, pairs_of};

verus! {

/// A JSON value of `serde_json`. The library carries such values and never
/// looks inside one.
#[verifier::external_type_specification]
#[verifier::external_body]
pub struct ExJsonValue(serde_json::Value);

/// The number of seconds after which the transport gives a call up.
pub const TIMEOUT_SECS: u64 = 30;

/// What a caller asks for.
#[derive(Debug)]
pub struct RequestDescription {
    /// Where the call goes. Must hold more than white space.
    pub url: String,
    /// The verb, in any case: GET, POST, PUT or DELETE.
    pub method: String,
    /// Headers to send with the call, by name.
    pub headers: Option<HashMap<String, String>>,
    /// Query parameters, in the order in which they are to stand in the URL.
    /// A key may occur more than once.
    pub query_params: Option<Vec<(String, String)>>,
    /// A JSON body, which only POST and PUT send.
    pub body: Option<serde_json::Value>,
}

/// The one call that the transport is to make for a request.
#[derive(Debug)]
pub struct OutboundCall {
    /// The verb of the call.
    pub method: Method,
    /// The URL of the call, query string included.
    pub url: String,
    /// The headers to attach, each as the caller gave it.
    pub headers: Option<HashMap<String, String>>,
    /// The value to send as a JSON body, if any.
    pub body: Option<serde_json::Value>,
    /// The number of seconds to allow for the whole call.
    pub timeout_secs: u64,
}

/// The query parameters of a request as pairs of character sequences; none
/// where the request names none.
pub open spec fn params_of(query_params: Option<Vec<(String, String)>>) -> Seq<
    (Seq<char>, Seq<char>),
> {
    match query_params {
        Some(params) => pairs_of(params@),
        None => Seq::empty(),
    }
}

/// The body that a call with `method` carries when `body` was supplied.
pub open spec fn body_sent(method: Method, body: Option<serde_json::Value>) -> Option<
    serde_json::Value,
> {
    if method.takes_body() {
        body
    } else {
        None
    }
}

/// Whether `call` is the call that `method` and the parts of `request` other
/// than its method give.
pub open spec fn call_matches(
    call: OutboundCall,
    method: Method,
    request: RequestDescription,
) -> bool {
    &&& call.method == method
    &&& call.url@ == full_url(request.url@, params_of(request.query_params))
    &&& call.headers == request.headers
    &&& call.body == body_sent(method, request.body)
    &&& call.timeout_secs == TIMEOUT_SECS
}

/// Whether a request passes validation: its URL holds more than white space
/// and its method, in upper case, is one of the four.
pub open spec fn is_valid(request: RequestDescription) -> bool {
    trimmed(request.url@).len() > 0 && method_named(uppercased(request.method@)) is Some
}

/// Judges a URL by what is left of it once surrounding white space is
/// removed: it is rejected when nothing is left.
pub fn check_url(trimmed_url: &str) -> (r: Result<(), DispatchError>)
    ensures
        r is Ok <==> trimmed_url@.len() > 0,
        r is Err ==> r->Err_0 == DispatchError::EmptyUrl,
{
    if trimmed_url.is_empty() {
        Err(DispatchError::EmptyUrl)
    } else {
        Ok(())
    }
}

/// Puts together the call for a request whose verb has been resolved. The
/// body goes along only with POST and PUT; the headers go along as they are.
pub fn assemble(method: Method, request: RequestDescription) -> (call: OutboundCall)
    ensures
        call_matches(call, method, request),
{
    let url = match &request.query_params {
        Some(params) => build_url(request.url.as_str(), params),
        None => request.url.clone(),
    };
    let body = if method.carries_body() {
        request.body
    } else {
        None
    };
    OutboundCall { method, url, headers: request.headers, body, timeout_secs: TIMEOUT_SECS }
}

/// Whether `r` is what planning `request` gives. A URL that is blank is
/// reported first, then a method that is none of the four; any other request
/// gives its call.
pub open spec fn planned(request: RequestDescription, r: Result<OutboundCall, DispatchError>) -> bool {
    if trimmed(request.url@).len() == 0 {
        r is Err && r->Err_0 == DispatchError::EmptyUrl
    } else {
        match method_named(uppercased(request.method@)) {
            None => {
                &&& r is Err
                &&& r->Err_0 is UnsupportedMethod
                &&& r->Err_0->UnsupportedMethod_0@ == uppercased(request.method@)
            },
            Some(method) => r is Ok && call_matches(r->Ok_0, method, request),
        }
    }
}

/// Validates a request and constructs its call. Nothing is sent: a request
/// that is rejected yields no call at all.
pub fn plan(request: RequestDescription) -> (r: Result<OutboundCall, DispatchError>)
    ensures
        planned(request, r),
        r is Ok <==> is_valid(request),
        r is Err ==> r->Err_0.kind_of() == ErrorKind::InvalidInput,
{
    match check_url(request.url.as_str().trim()) {
        Err(e) => {
            return Err(e);
        },
        Ok(()) => {},
    }
    let upper = request.method.as_str().to_uppercase();
    match resolve_method(upper) {
        Err(e) => Err(e),
        Ok(method) => Ok(assemble(method, request)),
    }
}

} // verus!
