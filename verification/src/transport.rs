//! What goes to the service and what comes back, as plain values. Sending is
//! left to the caller: one POST, one attempt.

use vstd::prelude::*;
use vstd::string::StringSliceAdditionalSpecFns;
use vstd::utf8::{decode_utf8, encode_utf8, valid_utf8};
use crate::error::ListError;

verus! {

/// The address that serves the list of articles.
pub const ENDPOINT: &'static str = "https://getpocket.com/v3/get";

/// The header that declares the body to be JSON.
pub const CONTENT_TYPE: &'static str = "Content-Type: application/json";

/// The method of a request.
#[derive(Clone, Copy, Debug, PartialEq, Eq, Structural)]
pub enum HttpVerb {
    Post,
}

/// A request to send.
#[derive(Clone, Debug, PartialEq, Eq)]
pub struct HttpRequest {
    pub endpoint: String,
    pub verb: HttpVerb,
    pub headers: Vec<String>,
    pub body: Vec<u8>,
}

/// The characters and bytes that an [`HttpRequest`] holds.
pub struct HttpRequestView {
    pub endpoint: Seq<char>,
    pub verb: HttpVerb,
    pub headers: Seq<Seq<char>>,
    pub body: Seq<u8>,
}

impl View for HttpRequest {
    type V = HttpRequestView;

    open spec fn view(&self) -> HttpRequestView {
        HttpRequestView {
            endpoint: self.endpoint@,
            verb: self.verb,
            headers: Seq::new(self.headers@.len(), |i: int| self.headers@[i]@),
            body: self.body@,
        }
    }
}

/// What came of sending a request.
#[derive(Clone, Debug, PartialEq, Eq)]
pub enum Reply {
    /// The service answered.
    Received { status: u32, body: Vec<u8> },
    /// No answer came.
    Failed,
}

/// The request that carries a payload: a POST to the endpoint, declared as
/// JSON, with the payload in UTF-8 as its body.
pub open spec fn request_of(payload: Seq<char>) -> HttpRequestView {
    HttpRequestView {
        endpoint: ENDPOINT@,
        verb: HttpVerb::Post,
        headers: seq![CONTENT_TYPE@],
        body: encode_utf8(payload),
    }
}

/// `std::str::Utf8Error`, of which nothing is read.
#[verifier::external_type_specification]
#[verifier::external_body]
pub struct ExUtf8Error(core::str::Utf8Error);

/// `std::str::from_utf8`: where the bytes are valid UTF-8, the string slice
/// that is made of them, and an error where they are not. This is taken from
/// the documentation of the standard library and is not proved.
pub assume_specification<'a>[ core::str::from_utf8 ](
    bytes: &'a [u8],
) -> (text: Result<&'a str, core::str::Utf8Error>)
    ensures
        match text {
            Ok(t) => valid_utf8(bytes@) && t.spec_bytes() == bytes@,
            Err(_) => !valid_utf8(bytes@),
        },
;

impl HttpRequest {
    /// Makes the request that carries a payload.
    pub fn carrying(payload: &str) -> (request: HttpRequest)
        ensures
            request@ == request_of(payload@),
    {
        let mut headers: Vec<String> = Vec::new();
        headers.push(CONTENT_TYPE.to_owned());
        let request = HttpRequest {
            endpoint: ENDPOINT.to_owned(),
            verb: HttpVerb::Post,
            headers,
            body: payload.as_bytes_vec(),
        };
        assert(request@.headers =~= seq![CONTENT_TYPE@]);
        request
    }
}

/// Reads the body of a reply as text.
pub fn decode(body: &Vec<u8>) -> (text: Result<String, ListError>)
    ensures
        match text {
            Ok(t) => valid_utf8(body@) && t@ == decode_utf8(body@) && encode_utf8(t@) == body@,
            Err(error) => !valid_utf8(body@) && error == ListError::Decoding,
        },
{
    match core::str::from_utf8(body.as_slice()) {
        Ok(text) => {
            proof {
                vstd::utf8::encode_utf8_decode_utf8(text@);
            }
            Ok(text.to_owned())
        },
        Err(_) => Err(ListError::Decoding),
    }
}

} // verus!
