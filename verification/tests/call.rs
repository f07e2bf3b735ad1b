use pocket_list::call::{complete, prepare};
use pocket_list::error::ListError;
use pocket_list::output::{Output, OutputFormat};
use pocket_list::query::{Credentials, ListFlags};
use pocket_list::transport::{decode, HttpRequest, HttpVerb, Reply, CONTENT_TYPE, ENDPOINT};
use serde_json::Value;

fn flags(details: bool, state: &str, sort: &str) -> ListFlags {
    ListFlags {
        details,
        tag: None,
        state: Some(String::from(state)),
        sort: Some(String::from(sort)),
        search: None,
    }
}

fn credentials(token: Option<&str>) -> Credentials {
    Credentials { consumer_key: String::from("<k>"), access_token: token.map(String::from) }
}

/// Runs a call as a program would, with a transport that counts how often it
/// is asked and answers with a fixed body.
fn run(
    flags: &ListFlags,
    credentials: &Credentials,
    format: OutputFormat,
    body: &[u8],
    sent: &mut Vec<HttpRequest>,
) -> Result<Output, ListError> {
    let request = prepare(flags, credentials)?;
    sent.push(request);
    complete(&Reply::Received { status: 200, body: body.to_vec() }, format)
}

#[test]
fn prepare_builds_the_example_request() {
    let request = prepare(&flags(true, "archive", "title"), &credentials(Some("<t>"))).unwrap();
    assert_eq!(request.endpoint, "https://getpocket.com/v3/get");
    assert_eq!(request.endpoint, ENDPOINT);
    assert_eq!(request.verb, HttpVerb::Post);
    assert_eq!(request.headers, vec![String::from("Content-Type: application/json")]);
    assert_eq!(request.headers, vec![String::from(CONTENT_TYPE)]);
    let body: Value = serde_json::from_slice(&request.body).unwrap();
    let expected: Value = serde_json::from_str(
        "{\"consumer_key\":\"<k>\",\"access_token\":\"<t>\",\"state\":\"archive\",\"sort\":\"title\",\"detailType\":\"complete\"}",
    )
    .unwrap();
    assert_eq!(body, expected);
    let object = body.as_object().unwrap();
    assert!(!object.contains_key("tag"));
    assert!(!object.contains_key("search"));
}

#[test]
fn prepare_with_default_flags() {
    let given = ListFlags { details: false, tag: None, state: None, sort: None, search: None };
    let request = prepare(&given, &credentials(Some("<t>"))).unwrap();
    let body: Value = serde_json::from_slice(&request.body).unwrap();
    let expected: Value = serde_json::from_str(
        "{\"consumer_key\":\"<k>\",\"access_token\":\"<t>\",\"state\":\"unread\",\"sort\":\"newest\",\"detailType\":\"simple\"}",
    )
    .unwrap();
    assert_eq!(body, expected);
}

#[test]
fn prepare_carries_the_tag() {
    let mut given = flags(false, "all", "site");
    given.tag = Some(String::from("caf\u{e9}"));
    let request = prepare(&given, &credentials(Some("<t>"))).unwrap();
    let body: Value = serde_json::from_slice(&request.body).unwrap();
    assert_eq!(body.get("tag"), Some(&Value::String(String::from("caf\u{e9}"))));
    assert_eq!(body.get("state"), Some(&Value::String(String::from("all"))));
    assert_eq!(body.get("sort"), Some(&Value::String(String::from("site"))));
    assert_eq!(body.get("detailType"), Some(&Value::String(String::from("simple"))));
}

#[test]
fn request_carries_the_payload_as_utf8() {
    let request = HttpRequest::carrying("{\"k\":\"\u{e9}\"}");
    assert_eq!(request.body, "{\"k\":\"\u{e9}\"}".as_bytes().to_vec());
    assert_eq!(request.endpoint, ENDPOINT);
    assert_eq!(request.headers.len(), 1);
}

#[test]
fn missing_access_token_fails_before_sending() {
    let mut sent = Vec::new();
    let result = run(
        &flags(true, "archive", "title"),
        &credentials(None),
        OutputFormat::Human,
        b"{\"status\":1,\"complete\":1,\"list\":{}}",
        &mut sent,
    );
    assert_eq!(result, Err(ListError::MissingAccessToken));
    assert!(sent.is_empty());
    assert_eq!(
        prepare(&flags(false, "unread", "newest"), &credentials(None)),
        Err(ListError::MissingAccessToken)
    );
}

#[test]
fn a_call_sends_once_and_reports() {
    let mut sent = Vec::new();
    let result = run(
        &flags(false, "unread", "newest"),
        &credentials(Some("<t>")),
        OutputFormat::Human,
        b"{\"status\":1,\"complete\":1,\"list\":{\"1\":{\"item_id\":\"1\",\"resolved_title\":\"One\",\"resolved_url\":\"https://one.example\"}}}",
        &mut sent,
    );
    assert_eq!(sent.len(), 1);
    assert_eq!(
        result,
        Ok(Output::Human(vec![
            String::from("Received 1 articles."),
            String::from("1: 'One', https://one.example"),
        ]))
    );
}

#[test]
fn complete_reports_a_transport_failure() {
    assert_eq!(complete(&Reply::Failed, OutputFormat::Human), Err(ListError::Transport));
    assert_eq!(complete(&Reply::Failed, OutputFormat::Json), Err(ListError::Transport));
}

#[test]
fn complete_refuses_bytes_that_are_no_text() {
    for body in [vec![0xffu8], vec![b'{', 0xc3], vec![0xed, 0xa0, 0x80], vec![0xc0, 0x80]] {
        let reply = Reply::Received { status: 200, body };
        assert_eq!(complete(&reply, OutputFormat::Json), Err(ListError::Decoding));
        assert_eq!(complete(&reply, OutputFormat::Human), Err(ListError::Decoding));
    }
}

#[test]
fn complete_passes_the_body_through_byte_for_byte() {
    let bodies: [&[u8]; 5] = [
        b"{\"status\":1,\"complete\":1,\"list\":{}}",
        b"",
        b"<html>503</html>",
        b"{\"status\": 1, \n \"list\" : ",
        "\u{e9}\u{4e2d}\u{1f600}".as_bytes(),
    ];
    for body in bodies {
        let reply = Reply::Received { status: 200, body: body.to_vec() };
        match complete(&reply, OutputFormat::Json) {
            Ok(Output::Structured(text)) => assert_eq!(text.as_bytes(), body),
            other => panic!("{:?}", other),
        }
    }
}

#[test]
fn complete_passes_over_the_status_code() {
    let body = b"{\"status\":0,\"complete\":1,\"list\":{}}".to_vec();
    for status in [200u32, 204, 401, 500, 0] {
        let reply = Reply::Received { status, body: body.clone() };
        assert_eq!(
            complete(&reply, OutputFormat::Human),
            Ok(Output::Human(vec![String::from("Receiving articles failed.")]))
        );
        assert_eq!(
            complete(&reply, OutputFormat::Json),
            Ok(Output::Structured(String::from("{\"status\":0,\"complete\":1,\"list\":{}}")))
        );
    }
}

#[test]
fn complete_fails_on_malformed_json_in_human_format() {
    let reply = Reply::Received { status: 200, body: b"{\"status\":1".to_vec() };
    assert_eq!(complete(&reply, OutputFormat::Human), Err(ListError::Parse));
}

#[test]
fn decode_reads_utf8() {
    assert_eq!(decode(&"h\u{e9}llo".as_bytes().to_vec()), Ok(String::from("h\u{e9}llo")));
    assert_eq!(decode(&vec![]), Ok(String::new()));
    assert_eq!(decode(&vec![0x80]), Err(ListError::Decoding));
}

#[test]
fn prepare_succeeds_whatever_the_flags_hold() {
    let values = [None, Some(""), Some("archive"), Some("title"), Some("bogus \"quoted\"\n")];
    for state in values {
        for sort in values {
            for tag in values {
                for details in [false, true] {
                    let given = ListFlags {
                        details,
                        tag: tag.map(String::from),
                        state: state.map(String::from),
                        sort: sort.map(String::from),
                        search: None,
                    };
                    let request = prepare(&given, &credentials(Some("<t>"))).unwrap();
                    let body: Value = serde_json::from_slice(&request.body).unwrap();
                    let object = body.as_object().unwrap();
                    let wanted_state = if state == Some("archive") { "archive" } else { "unread" };
                    let wanted_sort = if sort == Some("title") { "title" } else { "newest" };
                    let wanted_detail = if details { "complete" } else { "simple" };
                    assert_eq!(object.get("consumer_key"), Some(&Value::String(String::from("<k>"))));
                    assert_eq!(object.get("access_token"), Some(&Value::String(String::from("<t>"))));
                    assert_eq!(object.get("state"), Some(&Value::String(String::from(wanted_state))));
                    assert_eq!(object.get("sort"), Some(&Value::String(String::from(wanted_sort))));
                    assert_eq!(object.get("detailType"), Some(&Value::String(String::from(wanted_detail))));
                    assert_eq!(object.get("tag"), tag.map(|t| Value::String(String::from(t))).as_ref());
                    assert_eq!(object.get("search"), None);
                    assert_eq!(object.len(), if tag.is_some() { 6 } else { 5 });
                    assert_eq!(request.verb, HttpVerb::Post);
                    assert_eq!(request.endpoint, ENDPOINT);
                    assert_eq!(request.headers, vec![String::from(CONTENT_TYPE)]);
                }
            }
        }
    }
}

#[test]
fn prepare_sends_an_empty_tag_as_an_empty_string() {
    let mut given = flags(false, "unread", "newest");
    given.tag = Some(String::new());
    let request = prepare(&given, &credentials(Some("<t>"))).unwrap();
    let body: Value = serde_json::from_slice(&request.body).unwrap();
    assert_eq!(body.get("tag"), Some(&Value::String(String::new())));
}

#[test]
fn tokens_show_in_the_body_under_their_key_alone() {
    let given = flags(true, "all", "site");
    let first = prepare(&given, &credentials(Some("token-one"))).unwrap();
    let second = prepare(&given, &credentials(Some("token-two"))).unwrap();
    assert_eq!(first.endpoint, second.endpoint);
    assert_eq!(first.headers, second.headers);
    assert_eq!(first.verb, second.verb);
    let mut one: Value = serde_json::from_slice(&first.body).unwrap();
    let mut two: Value = serde_json::from_slice(&second.body).unwrap();
    assert_eq!(one.get("access_token"), Some(&Value::String(String::from("token-one"))));
    assert_eq!(two.get("access_token"), Some(&Value::String(String::from("token-two"))));
    assert!(one.as_object_mut().unwrap().remove("access_token").is_some());
    assert!(two.as_object_mut().unwrap().remove("access_token").is_some());
    assert_eq!(one, two);
    assert!(!first.endpoint.contains("token-one"));
    assert!(!first.headers.iter().any(|header| header.contains("token-one")));
}
