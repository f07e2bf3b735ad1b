//! The call as two steps around the sending: [`prepare`] makes the request,
//! [`complete`] makes of the reply what the user is shown. Between the two
//! the caller sends the one and brings the other.

use vstd::prelude::*;
use vstd::utf8::{decode_utf8, encode_utf8, valid_utf8};
use crate::error::ListError;
use crate::json::object_text;
use crate::output::{output, shows, Output, OutputFormat};
use crate::query::{query_of, wire_members, ArticleQuery, Credentials, ListFlags, ListFlagsView};
use crate::transport::{
    decode, request_of, HttpRequest, HttpRequestView, HttpVerb, Reply, CONTENT_TYPE, ENDPOINT,
};

verus! {

/// The request that flags, a consumer key and an access token ask for.
pub open spec fn request_for(
    flags: ListFlagsView,
    consumer_key: Seq<char>,
    access_token: Seq<char>,
) -> HttpRequestView {
    request_of(object_text(wire_members(query_of(flags, consumer_key, access_token))))
}

/// Makes the request to send. With an access token there is one, whatever
/// the flags hold. Without one there is nothing to send, and that is known
/// before anything is written.
pub fn prepare(flags: &ListFlags, credentials: &Credentials) -> (step: Result<HttpRequest, ListError>)
    ensures
        match credentials.access_token {
            Some(token) => step matches Ok(request)
                && request@ == request_for(flags@, credentials.consumer_key@, token@),
            None => step == Err::<HttpRequest, ListError>(ListError::MissingAccessToken),
        },
{
    let query = ArticleQuery::from_flags(flags, credentials)?;
    let payload = query.to_json()?;
    Ok(HttpRequest::carrying(payload.as_str()))
}

/// Every request is one POST to the endpoint with the one header that
/// declares JSON; the credentials are in its body and nowhere else.
pub proof fn request_is_one_post(
    flags: ListFlagsView,
    consumer_key: Seq<char>,
    access_token: Seq<char>,
)
    ensures
        ({
            let request = request_for(flags, consumer_key, access_token);
            &&& request.endpoint == ENDPOINT@
            &&& request.verb == HttpVerb::Post
            &&& request.headers == seq![CONTENT_TYPE@]
            &&& request.body == encode_utf8(
                object_text(wire_members(query_of(flags, consumer_key, access_token))),
            )
        }),
{
}

/// Whether a result is what a reply comes to in a format. No answer is a
/// transport failure, and a body that is not UTF-8 a decoding failure. Any
/// other body is shown as the text that it is, whatever the status code.
pub open spec fn concludes(result: Result<Output, ListError>, reply: Reply, format: OutputFormat) -> bool {
    match reply {
        Reply::Failed => result == Err::<Output, ListError>(ListError::Transport),
        Reply::Received { status, body } => {
            if valid_utf8(body@) {
                shows(result, decode_utf8(body@), format)
            } else {
                result == Err::<Output, ListError>(ListError::Decoding)
            }
        },
    }
}

/// Makes of the reply what the user is shown.
pub fn complete(reply: &Reply, format: OutputFormat) -> (result: Result<Output, ListError>)
    ensures
        concludes(result, *reply, format),
{
    match reply {
        Reply::Failed => Err(ListError::Transport),
        Reply::Received { status: _, body } => {
            let json = decode(body)?;
            output(json.as_str(), format)
        },
    }
}

/// In the JSON format a body that is UTF-8 is shown byte for byte, whatever
/// the status code and whether or not the body is JSON.
pub proof fn structured_output_is_the_body(
    result: Result<Output, ListError>,
    status: u32,
    body: Vec<u8>,
)
    requires
        valid_utf8(body@),
        concludes(result, Reply::Received { status, body }, OutputFormat::Json),
    ensures
        result matches Ok(Output::Structured(text)) && encode_utf8(text@) == body@,
{
    vstd::utf8::decode_utf8_encode_utf8(body@);
}

} // verus!
