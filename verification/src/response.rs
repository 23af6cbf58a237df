//! From what the transport reports to a response envelope or an error.

use vstd::prelude::*;
use crate::error::DispatchError;
use crate::headers::{HeaderTable, RawHeader, collect_headers, collected};

verus! {

/// What a successful dispatch returns.
#[derive(Debug)]
pub struct ApiResponse {
    /// The status of the response, which is within 200 to 299.
    pub status_code: u16,
    /// The headers of the response whose values are text.
    pub headers: HeaderTable,
    /// The body of the response, parsed as JSON.
    pub body: serde_json::Value,
    /// The time that the call took, in whole milliseconds.
    pub duration_ms: u128,
}

/// The status line and headers of a response whose status was accepted.
#[derive(Debug)]
pub struct Head {
    pub status_code: u16,
    pub headers: HeaderTable,
}

/// Whether a status counts as success: it is within 200 to 299.
pub open spec fn is_success(status: u16) -> bool {
    200 <= status && status < 300
}

/// What `serde_json::from_slice` makes of a body when asked for a
/// `serde_json::Value`: the value, or the parser's description of what is
/// wrong with the bytes.
pub uninterp spec fn parsed_json(body: Seq<u8>) -> Result<serde_json::Value, Seq<char>>;

/// Whether `outcome` says what `expected` says, the value being the same or
/// the description having the same characters.
pub open spec fn same_outcome(
    outcome: Result<serde_json::Value, String>,
    expected: Result<serde_json::Value, Seq<char>>,
) -> bool {
    match outcome {
        Ok(value) => expected == Ok::<serde_json::Value, Seq<char>>(value),
        Err(reason) => expected == Err::<serde_json::Value, Seq<char>>(reason@),
    }
}

/// Calls `serde_json::from_slice`, which is not proved here, and writes its
/// error out as text. The outcome is taken to be a function of the bytes
/// alone, called [`parsed_json`]; nothing is claimed of which bytes parse.
#[verifier::external_body]
pub(crate) fn parse_json(body: &[u8]) -> (outcome: Result<serde_json::Value, String>)
    ensures
        same_outcome(outcome, parsed_json(body@)),
{
    match serde_json::from_slice::<serde_json::Value>(body) {
        Ok(value) => Ok(value),
        Err(e) => Err(e.to_string()),
    }
}

/// Tells whether a status counts as success.
pub fn status_is_success(status: u16) -> (b: bool)
    ensures
        b == is_success(status),
{
    200 <= status && status < 300
}

/// Judges the status line and headers of a response. A status outside 200 to
/// 299 ends the dispatch, whatever else the response holds: its body is not
/// to be read. Else the headers are collected and the body is wanted next.
pub fn accept_head(status: u16, lines: &Vec<RawHeader>) -> (r: Result<Head, DispatchError>)
    ensures
        r is Ok <==> is_success(status),
        match r {
            Ok(head) => head.status_code == status && head.headers@ == collected(lines@),
            Err(e) => e == DispatchError::HttpStatus(status),
        },
{
    let headers = collect_headers(lines);
    if !status_is_success(status) {
        return Err(DispatchError::HttpStatus(status));
    }
    Ok(Head { status_code: status, headers })
}

/// Judges the outcome of parsing a body: the value where the body was JSON,
/// else a failure that holds the parser's reason.
pub fn judge_body(parsed: Result<serde_json::Value, String>) -> (r: Result<
    serde_json::Value,
    DispatchError,
>)
    ensures
        match parsed {
            Ok(value) => r == Ok::<serde_json::Value, DispatchError>(value),
            Err(reason) => r == Err::<serde_json::Value, DispatchError>(
                DispatchError::InvalidResponse(reason),
            ),
        },
{
    match parsed {
        Ok(value) => Ok(value),
        Err(reason) => Err(DispatchError::InvalidResponse(reason)),
    }
}

/// Whether `r` is what reading `body` as JSON gives: the parsed value, or a
/// failure of the invalid-response kind with the parser's reason.
pub open spec fn body_read(body: Seq<u8>, r: Result<serde_json::Value, DispatchError>) -> bool {
    match parsed_json(body) {
        Ok(value) => r == Ok::<serde_json::Value, DispatchError>(value),
        Err(reason) => {
            &&& r is Err
            &&& r->Err_0 is InvalidResponse
            &&& r->Err_0->InvalidResponse_0@ == reason
        },
    }
}

/// Reads the body of a response as JSON.
pub fn parse_body(body: &[u8]) -> (r: Result<serde_json::Value, DispatchError>)
    ensures
        body_read(body@, r),
{
    judge_body(parse_json(body))
}

/// The envelope of a dispatch that succeeded: the status and headers of the
/// accepted head, the parsed body, and the time that the call took.
pub fn envelope(head: Head, body: serde_json::Value, elapsed_ms: u128) -> (e: ApiResponse)
    ensures
        e == (ApiResponse {
            status_code: head.status_code,
            headers: head.headers,
            body,
            duration_ms: elapsed_ms,
        }),
{
    ApiResponse {
        status_code: head.status_code,
        headers: head.headers,
        body,
        duration_ms: elapsed_ms,
    }
}

/// Whether `r` is what a dispatch ends in, given the accepted head, the body
/// as read, and the time taken. The time is reported only with an envelope.
pub open spec fn finished(
    r: Result<ApiResponse, DispatchError>,
    head: Head,
    body: Seq<u8>,
    elapsed_ms: u128,
) -> bool {
    match parsed_json(body) {
        Ok(value) => r == Ok::<ApiResponse, DispatchError>(
            (ApiResponse {
                status_code: head.status_code,
                headers: head.headers,
                body: value,
                duration_ms: elapsed_ms,
            }),
        ),
        Err(reason) => {
            &&& r is Err
            &&& r->Err_0 is InvalidResponse
            &&& r->Err_0->InvalidResponse_0@ == reason
        },
    }
}

/// Ends a dispatch whose status was accepted, with the body as it was read
/// and the time that the call took.
pub fn finish(head: Head, body: &[u8], elapsed_ms: u128) -> (r: Result<ApiResponse, DispatchError>)
    ensures
        finished(r, head, body@, elapsed_ms),
{
    match parse_body(body) {
        Ok(value) => Ok(envelope(head, value, elapsed_ms)),
        Err(e) => Err(e),
    }
}

/// Whether `r` is what a whole response amounts to. A status outside 200 to
/// 299 fails with that status, whatever the headers and the body are; an
/// accepted status leaves the outcome to the body.
pub open spec fn responded(
    r: Result<ApiResponse, DispatchError>,
    status: u16,
    lines: Seq<RawHeader>,
    body: Seq<u8>,
    elapsed_ms: u128,
) -> bool {
    if !is_success(status) {
        r == Err::<ApiResponse, DispatchError>(DispatchError::HttpStatus(status))
    } else {
        match parsed_json(body) {
            Ok(value) => {
                &&& r is Ok
                &&& r->Ok_0.status_code == status
                &&& r->Ok_0.headers@ == collected(lines)
                &&& r->Ok_0.body == value
                &&& r->Ok_0.duration_ms == elapsed_ms
            },
            Err(reason) => {
                &&& r is Err
                &&& r->Err_0 is InvalidResponse
                &&& r->Err_0->InvalidResponse_0@ == reason
            },
        }
    }
}

/// Turns a whole response into the result of the dispatch: the status is
/// judged first, and the body is looked at only where the status is accepted.
pub fn respond(status: u16, lines: &Vec<RawHeader>, body: &[u8], elapsed_ms: u128) -> (r: Result<
    ApiResponse,
    DispatchError,
>)
    ensures
        responded(r, status, lines@, body@, elapsed_ms),
{
    match accept_head(status, lines) {
        Err(e) => Err(e),
        Ok(head) => finish(head, body, elapsed_ms),
    }
}

} // verus!
