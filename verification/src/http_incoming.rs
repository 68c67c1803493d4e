//! A small HTTP service around a durable counter: reading it is a query,
//! advancing it is an update.

use crate::decimal::{decimal_digits, push_decimal};
use crate::hit_counter::{CounterError, HitCounter};
use crate::http::{headers_view, RawHttpRequest, RawHttpResponse, ResponseView};
use vstd::prelude::*;
use vstd::string::*;

verus! {

/// The lower-case equivalent of a text, as Unicode defines it.
pub uninterp spec fn lowercase_text(text: Seq<char>) -> Seq<char>;

/// Calls `str::to_lowercase`: the result is the named lower-case equivalent
/// of the text; nothing more is claimed of it.
#[verifier::external_body]
fn to_lowercase(text: &str) -> (lowered: String)
    ensures
        lowered@ == lowercase_text(text@),
{
    text.to_lowercase()
}

/// The header fields of a plain-text response.
pub open spec fn plain_text_headers() -> Seq<(Seq<char>, Seq<char>)> {
    seq![("Content-Type"@, "text/plain"@)]
}

/// The response that asks the gateway to repeat the request as an update.
pub open spec fn upgrade_view() -> ResponseView {
    ResponseView { status_code: 204, headers: seq![], body: seq![], upgrade: Some(true) }
}

/// The response to a request for a page that is not there.
pub open spec fn not_found_view() -> ResponseView {
    ResponseView {
        status_code: 404,
        headers: plain_text_headers(),
        body: "404 Page Not Found\n".spec_bytes(),
        upgrade: None,
    }
}

/// The page that shows a counter: the lead, the number in decimal, a line
/// feed.
pub open spec fn counter_page(lead: Seq<u8>, value: u64) -> ResponseView {
    ResponseView {
        status_code: 200,
        headers: plain_text_headers(),
        body: lead + decimal_digits(value as nat) + seq![10u8],
        upgrade: None,
    }
}

/// The answer to a query with the given method in lower case and the given
/// URL, while the counter stands at `value`.
pub open spec fn query_route(
    lowered_method: Seq<char>,
    url: Seq<char>,
    value: u64,
) -> ResponseView {
    if lowered_method == "post"@ {
        upgrade_view()
    } else if url == "/counter"@ {
        counter_page("counter: ".spec_bytes(), value)
    } else {
        not_found_view()
    }
}

/// The answer to an update for the given URL, where `advanced` is the
/// outcome of advancing the counter.
pub open spec fn update_route(url: Seq<char>, advanced: Result<u64, CounterError>) -> Result<
    ResponseView,
    CounterError,
> {
    if url == "/counter"@ {
        match advanced {
            Ok(value) => Ok(counter_page("updated counter: ".spec_bytes(), value)),
            Err(e) => Err(e),
        }
    } else {
        Ok(not_found_view())
    }
}

fn plain_text() -> (headers: Vec<(String, String)>)
    ensures
        headers_view(headers) == plain_text_headers(),
{
    let mut headers: Vec<(String, String)> = Vec::new();
    headers.push((String::from_str("Content-Type"), String::from_str("text/plain")));
    assert(headers_view(headers) =~= plain_text_headers());
    headers
}

fn counter_text(lead: &str, value: u64) -> (response: RawHttpResponse)
    ensures
        response@ == counter_page(lead.spec_bytes(), value),
{
    let mut body = lead.as_bytes_vec();
    push_decimal(&mut body, value);
    body.push(10u8);
    assert(body@ =~= lead.spec_bytes() + decimal_digits(value as nat) + seq![10u8]);
    RawHttpResponse { status_code: 200u16, headers: plain_text(), body, upgrade: None }
}

/// The response that asks the gateway to repeat the request as an update.
pub fn upgrade_response() -> (response: RawHttpResponse)
    ensures
        response@ == upgrade_view(),
{
    let response = RawHttpResponse {
        status_code: 204u16,
        headers: Vec::new(),
        body: Vec::new(),
        upgrade: Some(true),
    };
    assert(headers_view(response.headers) =~= seq![]);
    response
}

/// The page that shows where the counter stands.
pub fn counter_response(counter: &HitCounter) -> (response: RawHttpResponse)
    ensures
        response@ == counter_page("counter: ".spec_bytes(), counter@),
{
    counter_text("counter: ", counter.get())
}

/// The response to a request for a page that is not there.
pub fn not_found_response() -> (response: RawHttpResponse)
    ensures
        response@ == not_found_view(),
{
    RawHttpResponse {
        status_code: 404u16,
        headers: plain_text(),
        body: "404 Page Not Found\n".as_bytes_vec(),
        upgrade: None,
    }
}

/// Advances the counter and shows where it then stands. Where the counter
/// cannot be advanced it stays as it is, and the reason is returned.
pub fn update_counter_response(counter: &mut HitCounter) -> (response: Result<
    RawHttpResponse,
    CounterError,
>)
    ensures
        match response {
            Ok(page) => old(counter)@ < u64::MAX && final(counter)@ == old(counter)@ + 1 && page@
                == counter_page("updated counter: ".spec_bytes(), final(counter)@),
            Err(e) => final(counter)@ == old(counter)@ && (e == CounterError::Overflow <==> old(
                counter,
            )@ == u64::MAX),
        },
{
    let advanced = counter.increment();
    updated_counter_page(advanced)
}

/// The page for a counter that was advanced, or the reason why it was not.
pub fn updated_counter_page(advanced: Result<u64, CounterError>) -> (response: Result<
    RawHttpResponse,
    CounterError,
>)
    ensures
        match advanced {
            Ok(value) => response is Ok && response->Ok_0@ == counter_page(
                "updated counter: ".spec_bytes(),
                value,
            ),
            Err(e) => response == Err::<RawHttpResponse, CounterError>(e),
        },
{
    match advanced {
        Ok(value) => Ok(counter_text("updated counter: ", value)),
        Err(e) => Err(e),
    }
}

/// Answers a query: any `POST`, in whatever case, is sent on to become an
/// update; `/counter` shows the counter; no other page exists.
pub fn http_request(req: &RawHttpRequest, counter: &HitCounter) -> (response: RawHttpResponse)
    ensures
        response@ == query_route(lowercase_text(req.method@), req.url@, counter@),
{
    let lowered = to_lowercase(req.method.as_str());
    route_query(lowered.as_str(), req.url.as_str(), counter)
}

/// Answers a query whose method is already in lower case.
pub fn route_query(lowered_method: &str, url: &str, counter: &HitCounter) -> (response:
    RawHttpResponse)
    ensures
        response@ == query_route(lowered_method@, url@, counter@),
{
    if String::from_str(lowered_method) == String::from_str("post") {
        upgrade_response()
    } else if String::from_str(url) == String::from_str("/counter") {
        counter_response(counter)
    } else {
        not_found_response()
    }
}

/// Answers an update: `/counter` advances the counter and shows it; no other
/// page exists.
pub fn http_request_update(req: &RawHttpRequest, counter: &mut HitCounter) -> (response: Result<
    RawHttpResponse,
    CounterError,
>)
    ensures
        req.url@ != "/counter"@ ==> final(counter)@ == old(counter)@ && response is Ok
            && response->Ok_0@ == not_found_view(),
        req.url@ == "/counter"@ ==> match response {
            Ok(page) => old(counter)@ < u64::MAX && final(counter)@ == old(counter)@ + 1 && page@
                == counter_page("updated counter: ".spec_bytes(), final(counter)@),
            Err(e) => final(counter)@ == old(counter)@ && (e == CounterError::Overflow <==> old(
                counter,
            )@ == u64::MAX),
        },
{
    if req.url == String::from_str("/counter") {
        update_counter_response(counter)
    } else {
        Ok(not_found_response())
    }
}

} // verus!
