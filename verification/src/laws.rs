//! Laws that relate the library's functions to one another. Each is stated
//! over the spec functions that the contracts of the functions use.

use vstd::prelude::*;
use crate::error::{DispatchError, ErrorKind};
use crate::method::{Method, method_named};
use crate::request::{OutboundCall, RequestDescription, planned};
use crate::headers::{RawHeader, collected, is_text, text_of};
use crate::response::{ApiResponse, Head, finished, is_success, parsed_json, responded};
use crate::text::{decimal, trimmed, uppercased};
use crate::url::{full_url, has_query, query_string};

verus! {

/// A request whose URL is blank is rejected as invalid input, whatever else it
/// holds, and so gives no call to make.
pub proof fn law_blank_url_is_rejected(
    request: RequestDescription,
    r: Result<OutboundCall, DispatchError>,
)
    requires
        planned(request, r),
        trimmed(request.url@).len() == 0,
    ensures
        r is Err,
        r->Err_0 == DispatchError::EmptyUrl,
        r->Err_0.kind_of() == ErrorKind::InvalidInput,
{
}

/// A request whose method, in upper case, is none of GET, POST, PUT and
/// DELETE is rejected as invalid input, and so gives no call to make.
pub proof fn law_unknown_method_is_rejected(
    request: RequestDescription,
    r: Result<OutboundCall, DispatchError>,
)
    requires
        planned(request, r),
        method_named(uppercased(request.method@)) is None,
    ensures
        r is Err,
        r->Err_0.kind_of() == ErrorKind::InvalidInput,
{
}

/// Every other request gives a call: planning fails only for a blank URL or an
/// unknown method.
pub proof fn law_valid_request_gives_call(
    request: RequestDescription,
    r: Result<OutboundCall, DispatchError>,
)
    requires
        planned(request, r),
        trimmed(request.url@).len() > 0,
        method_named(uppercased(request.method@)) is Some,
    ensures
        r is Ok,
        r->Ok_0.method == method_named(uppercased(request.method@))->Some_0,
{
}

/// Parameters that are appended to a URL with a query component follow an
/// `&`; appended to a URL without one they follow a `?`.
pub proof fn law_query_joins_existing_query(url: Seq<char>, params: Seq<(Seq<char>, Seq<char>)>)
    requires
        params.len() > 0,
    ensures
        has_query(url) ==> full_url(url, params) == url.push('&') + query_string(params),
        !has_query(url) ==> full_url(url, params) == url.push('?') + query_string(params),
{
}

/// Without parameters the URL of the call is the caller's URL, unchanged.
pub proof fn law_no_params_keeps_url(url: Seq<char>)
    ensures
        full_url(url, Seq::empty()) == url,
{
}

/// A call with GET or DELETE carries no body, whatever body the request
/// supplied; a call with POST or PUT carries the body of the request.
pub proof fn law_body_goes_with_post_and_put(
    request: RequestDescription,
    r: Result<OutboundCall, DispatchError>,
)
    requires
        planned(request, r),
        r is Ok,
    ensures
        r->Ok_0.method == Method::Get || r->Ok_0.method == Method::Delete ==> r->Ok_0.body is None,
        r->Ok_0.method == Method::Post || r->Ok_0.method == Method::Put ==> r->Ok_0.body
            == request.body,
{
}

/// The text of a status failure ends in the status, written in decimal.
pub proof fn law_status_failure_names_status(status: u16)
    ensures
        DispatchError::HttpStatus(status).text() == "HTTP error: "@ + decimal(status as nat),
        DispatchError::HttpStatus(status).kind_of() == ErrorKind::HttpStatusError,
{
}

/// A dispatch whose status was accepted succeeds exactly where the body
/// parses; the envelope then holds the status and headers of the head, the
/// parsed body and the time that was handed in, and a failure is of the
/// invalid-response kind.
pub proof fn law_finish_follows_parse(
    r: Result<ApiResponse, DispatchError>,
    head: Head,
    body: Seq<u8>,
    elapsed_ms: u128,
)
    requires
        finished(r, head, body, elapsed_ms),
    ensures
        r is Ok <==> parsed_json(body) is Ok,
        r is Ok ==> r->Ok_0.status_code == head.status_code && r->Ok_0.headers == head.headers
            && r->Ok_0.duration_ms == elapsed_ms,
        r is Err ==> r->Err_0.kind_of() == ErrorKind::InvalidResponse,
{
}

/// A response whose status is outside 200 to 299 fails with that status,
/// and its headers, its body and the time taken make no difference.
pub proof fn law_failed_status_ignores_the_rest(
    status: u16,
    r1: Result<ApiResponse, DispatchError>,
    lines1: Seq<RawHeader>,
    body1: Seq<u8>,
    elapsed1: u128,
    r2: Result<ApiResponse, DispatchError>,
    lines2: Seq<RawHeader>,
    body2: Seq<u8>,
    elapsed2: u128,
)
    requires
        !is_success(status),
        responded(r1, status, lines1, body1, elapsed1),
        responded(r2, status, lines2, body2, elapsed2),
    ensures
        r1 == r2,
        r1 is Err,
        r1->Err_0 == DispatchError::HttpStatus(status),
        r1->Err_0.kind_of() == ErrorKind::HttpStatusError,
{
}

/// A response with an accepted status succeeds exactly where its body parses,
/// and its envelope reports the status, the parsed body and the time of its
/// own call.
pub proof fn law_accepted_status_follows_body(
    r: Result<ApiResponse, DispatchError>,
    status: u16,
    lines: Seq<RawHeader>,
    body: Seq<u8>,
    elapsed_ms: u128,
)
    requires
        is_success(status),
        responded(r, status, lines, body, elapsed_ms),
    ensures
        r is Ok <==> parsed_json(body) is Ok,
        r is Ok ==> r->Ok_0.status_code == status && r->Ok_0.duration_ms == elapsed_ms
            && parsed_json(body) == Ok::<serde_json::Value, Seq<char>>(r->Ok_0.body),
        r is Err ==> r->Err_0.kind_of() == ErrorKind::InvalidResponse,
{
}

/// Of header lines with one name the last whose value is text decides: a
/// further line with a text value sets its name to that text and leaves every
/// other name as it was.
pub proof fn law_later_text_line_wins(lines: Seq<RawHeader>, line: RawHeader)
    requires
        is_text(line.value@),
    ensures
        collected(lines.push(line)) == collected(lines).insert(line.name@, text_of(line.value@)),
        collected(lines.push(line))[line.name@] == text_of(line.value@),
{
    assert(lines.push(line).drop_last() == lines);
}

/// A header line whose value is no text changes nothing.
pub proof fn law_line_without_text_is_dropped(lines: Seq<RawHeader>, line: RawHeader)
    requires
        !is_text(line.value@),
    ensures
        collected(lines.push(line)) == collected(lines),
{
    assert(lines.push(line).drop_last() == lines);
}

} // verus!
