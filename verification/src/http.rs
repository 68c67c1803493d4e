//! Raw HTTP requests and responses as the gateway hands them over.

use vstd::prelude::*;

verus! {

/// An HTTP request as received.
#[derive(Debug, Clone)]
pub struct RawHttpRequest {
    pub method: String,
    pub url: String,
    pub headers: Vec<(String, String)>,
    pub body: Vec<u8>,
}

/// An HTTP response to send.
#[derive(Debug, PartialEq, Eq)]
pub struct RawHttpResponse {
    pub status_code: u16,
    pub headers: Vec<(String, String)>,
    pub body: Vec<u8>,
    pub upgrade: Option<bool>,
}

/// Header fields, each as the characters of its name and of its value.
pub open spec fn headers_view(headers: Vec<(String, String)>) -> Seq<(Seq<char>, Seq<char>)> {
    Seq::new(headers@.len(), |i: int| (headers@[i].0@, headers@[i].1@))
}

/// The view of a response.
pub struct ResponseView {
    pub status_code: u16,
    pub headers: Seq<(Seq<char>, Seq<char>)>,
    pub body: Seq<u8>,
    pub upgrade: Option<bool>,
}

impl View for RawHttpResponse {
    type V = ResponseView;

    open spec fn view(&self) -> ResponseView {
        ResponseView {
            status_code: self.status_code,
            headers: headers_view(self.headers),
            body: self.body@,
            upgrade: self.upgrade,
        }
    }
}

} // verus!
