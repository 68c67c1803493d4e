//! The outgoing HTTP requests of the sample service, what a request costs,
//! and the keys its key-set endpoint answers with.

use candid::utils::encode_args;
use ic_cdk::api::management_canister::http_request::{
    CanisterHttpRequestArgument, HttpHeader, HttpMethod,
};
use vstd::prelude::*;
use vstd::string::*;

verus! {

/// Where the sample service lives.
pub const BASE_URL: &'static str = "https://tw-isid-test.web.app";

/// The largest response, in bytes, that the requests below pay for.
pub const MAX_RESPONSE_BYTES: u64 = 3000;

/// The method of an outgoing request.
#[derive(Debug, Clone, Copy, PartialEq, Eq, Structural)]
pub enum OutcallMethod {
    Get,
    Post,
}

/// An outgoing HTTP request.
#[derive(Debug, PartialEq, Eq)]
pub struct OutcallRequest {
    pub url: String,
    pub max_response_bytes: Option<u64>,
    pub method: OutcallMethod,
    pub headers: Vec<(String, String)>,
    pub body: Option<Vec<u8>>,
}

/// The view of an outgoing request.
pub struct OutcallView {
    pub url: Seq<char>,
    pub max_response_bytes: Option<u64>,
    pub method: OutcallMethod,
    pub headers: Seq<(Seq<char>, Seq<char>)>,
    pub body: Option<Seq<u8>>,
}

impl View for OutcallRequest {
    type V = OutcallView;

    open spec fn view(&self) -> OutcallView {
        OutcallView {
            url: self.url@,
            max_response_bytes: self.max_response_bytes,
            method: self.method,
            headers: Seq::new(
                self.headers@.len(),
                |i: int| (self.headers@[i].0@, self.headers@[i].1@),
            ),
            body: match self.body {
                Some(bytes) => Some(bytes@),
                None => None,
            },
        }
    }
}

/// The URL of a resource of the sample service.
pub open spec fn endpoint(resource: Seq<char>) -> Seq<char> {
    "https://tw-isid-test.web.app"@ + "/"@ + resource
}

/// A `GET` of a resource, without headers or body.
pub open spec fn get_of(resource: Seq<char>) -> OutcallView {
    OutcallView {
        url: endpoint(resource),
        max_response_bytes: Some(MAX_RESPONSE_BYTES),
        method: OutcallMethod::Get,
        headers: seq![],
        body: None,
    }
}

/// A `POST` of a URL-encoded form to a resource.
pub open spec fn form_post_of(resource: Seq<char>, form: Seq<u8>) -> OutcallView {
    OutcallView {
        url: endpoint(resource),
        max_response_bytes: Some(MAX_RESPONSE_BYTES),
        method: OutcallMethod::Post,
        headers: seq![("Content-Type"@, "application/x-www-form-urlencoded"@)],
        body: Some(form),
    }
}

/// The URL of a resource of the sample service.
pub fn endpoint_url(resource: &str) -> (url: String)
    ensures
        url@ == endpoint(resource@),
{
    String::from_str(BASE_URL).concat("/").concat(resource)
}

fn get_request_for(resource: &str) -> (request: OutcallRequest)
    ensures
        request@ == get_of(resource@),
{
    let request = OutcallRequest {
        url: endpoint_url(resource),
        max_response_bytes: Some(MAX_RESPONSE_BYTES),
        method: OutcallMethod::Get,
        headers: Vec::new(),
        body: None,
    };
    assert(request@.headers =~= seq![]);
    request
}

/// The request for the greeting.
pub fn get_request() -> (request: OutcallRequest)
    ensures
        request@ == get_of("hello?name=ho%20ge"@),
{
    get_request_for("hello?name=ho%20ge")
}

/// The request that passes its arguments in the query string.
pub fn qsget_request() -> (request: OutcallRequest)
    ensures
        request@ == get_of("qsGet?arg1=aaa%20bbb&arg2=1"@),
{
    get_request_for("qsGet?arg1=aaa%20bbb&arg2=1")
}

/// The request for the key set.
pub fn jsonget_request() -> (request: OutcallRequest)
    ensures
        request@ == get_of("jsonGet"@),
{
    get_request_for("jsonGet")
}

/// The request that posts a URL-encoded form to the adder.
pub fn formpoost_request(form: Vec<u8>) -> (request: OutcallRequest)
    ensures
        request@ == form_post_of("add"@, form@),
{
    let mut headers: Vec<(String, String)> = Vec::new();
    headers.push(
        (String::from_str("Content-Type"), String::from_str("application/x-www-form-urlencoded")),
    );
    let request = OutcallRequest {
        url: endpoint_url("add"),
        max_response_bytes: Some(MAX_RESPONSE_BYTES),
        method: OutcallMethod::Post,
        headers,
        body: Some(form),
    };
    assert(request@.headers =~= seq![
        ("Content-Type"@, "application/x-www-form-urlencoded"@),
    ]);
    request
}

/// The response size paid for where a request names none: 2 MiB.
pub const DEFAULT_MAX_RESPONSE_BYTES: u128 = 2_097_152;

/// The number of nodes the fee is reckoned for.
pub const SUBNET_NODES: u128 = 13;

/// The length of the name of the method that sends the request.
pub const METHOD_NAME_BYTES: u128 = 12;

/// The cycles to attach to an outgoing request on a subnet of 13 nodes: per
/// node a base fee of 3,000,000, 60,000 for each node, 400 for each byte of
/// the encoded argument and of the method name, and 800 for each byte the
/// response may have.
pub open spec fn required_cycles(arg_raw_len: nat, max_response_bytes: Option<u64>) -> nat {
    let response_bytes: nat = match max_response_bytes {
        Some(n) => n as nat,
        None => DEFAULT_MAX_RESPONSE_BYTES as nat,
    };
    (3_000_000 + 60_000 * 13 + (arg_raw_len + 12) * 400 + response_bytes * 800) * 13
}

/// The Candid encoding of the one-argument list that holds the request as
/// the management canister takes it.
pub uninterp spec fn candid_argument(request: OutcallView) -> Seq<u8>;

/// Calls `candid::utils::encode_args` on the request, written as an
/// `ic_cdk` `CanisterHttpRequestArgument` without a transform: the named
/// encoding of the request, or `None` where the encoder reports an error.
#[verifier::external_body]
fn encoded_argument(request: &OutcallRequest) -> (bytes: Option<Vec<u8>>)
    ensures
        bytes is Some ==> bytes->0@ == candid_argument(request@),
{
    let argument = CanisterHttpRequestArgument {
        url: request.url.clone(),
        max_response_bytes: request.max_response_bytes,
        method: match request.method {
            OutcallMethod::Get => HttpMethod::GET,
            OutcallMethod::Post => HttpMethod::POST,
        },
        headers: request.headers.iter().map(
            |(name, value)| HttpHeader { name: name.clone(), value: value.clone() },
        ).collect(),
        body: request.body.clone(),
        transform: None,
    };
    encode_args((&argument,)).ok()
}

/// The cycles to attach to an outgoing request: the fee for its encoded
/// argument and the response size it names. `None` where the request cannot
/// be encoded.
pub fn http_request_required_cycles(arg: &OutcallRequest) -> (cycles: Option<u128>)
    ensures
        cycles is Some ==> cycles->0 == required_cycles(
            candid_argument(arg@).len(),
            arg.max_response_bytes,
        ),
{
    match encoded_argument(arg) {
        Some(arg_raw) => Some(cycles_for_argument(arg_raw.len(), arg.max_response_bytes)),
        None => None,
    }
}

/// The cycles to attach to an outgoing request whose encoded argument has
/// `arg_raw_len` bytes.
pub fn cycles_for_argument(arg_raw_len: usize, max_response_bytes: Option<u64>) -> (cycles: u128)
    ensures
        cycles == required_cycles(arg_raw_len as nat, max_response_bytes),
{
    let response_bytes: u128 = match max_response_bytes {
        Some(n) => n as u128,
        None => DEFAULT_MAX_RESPONSE_BYTES,
    };
    let request_bytes: u128 = arg_raw_len as u128 + METHOD_NAME_BYTES;
    (3_000_000u128 + 60_000u128 * SUBNET_NODES + request_bytes * 400 + response_bytes * 800)
        * SUBNET_NODES
}

/// A public key in JSON Web Key form.
#[derive(Debug, PartialEq, Eq)]
pub struct JwkKey {
    pub e: String,
    pub alg: String,
    pub kty: String,
    pub kid: String,
    pub n: String,
}

} // verus!
