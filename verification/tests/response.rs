use pocket_list::error::ListError;
use pocket_list::output::{output, output_human, report, Output, OutputFormat};
use pocket_list::response::{Article, ArticleListResult};
use serde_json::Value;

fn article(id: &str, title: &str, url: &str) -> Article {
    Article {
        item_id: String::from(id),
        resolved_title: String::from(title),
        resolved_url: String::from(url),
    }
}

const TWO_ARTICLES: &str = "{\"status\":1,\"complete\":1,\"list\":{\
    \"11\":{\"item_id\":\"11\",\"resolved_title\":\"First\",\"resolved_url\":\"https://a.example/1\"},\
    \"22\":{\"item_id\":\"22\",\"resolved_title\":\"\",\"resolved_url\":\"https://b.example/2\"}}}";

const REFUSED: &str = "{\"status\":0,\"complete\":1,\"list\":{\
    \"11\":{\"item_id\":\"11\",\"resolved_title\":\"First\",\"resolved_url\":\"https://a.example/1\"}}}";

#[test]
fn parse_reads_status_flag_and_articles() {
    let mut reply = ArticleListResult::parse(TWO_ARTICLES).unwrap();
    reply.list.sort_by(|a, b| a.0.cmp(&b.0));
    assert_eq!(reply.status, 1);
    assert_eq!(reply.complete, 1);
    assert_eq!(
        reply.list,
        vec![
            (String::from("11"), article("11", "First", "https://a.example/1")),
            (String::from("22"), article("22", "", "https://b.example/2")),
        ]
    );
}

#[test]
fn parse_passes_over_unknown_fields() {
    let text = "{\"since\":1700000000,\"status\":1,\"error\":null,\"complete\":0,\
        \"search_meta\":{\"search_type\":\"normal\"},\"list\":{\
        \"7\":{\"given_url\":\"https://x.example\",\"item_id\":\"7\",\"favorite\":\"0\",\
        \"resolved_title\":\"T\",\"word_count\":12,\"resolved_url\":\"https://x.example/\",\"tags\":{}}}}";
    let reply = ArticleListResult::parse(text).unwrap();
    assert_eq!(reply.status, 1);
    assert_eq!(reply.complete, 0);
    assert_eq!(reply.list, vec![(String::from("7"), article("7", "T", "https://x.example/"))]);
}

#[test]
fn parse_keeps_key_and_item_id_apart() {
    let text = "{\"status\":1,\"complete\":1,\"list\":{\
        \"key\":{\"item_id\":\"id\",\"resolved_title\":\"t\",\"resolved_url\":\"u\"}}}";
    let reply = ArticleListResult::parse(text).unwrap();
    assert_eq!(reply.list, vec![(String::from("key"), article("id", "t", "u"))]);
    assert_eq!(report(&reply), vec![String::from("Received 1 articles."), String::from("id: 't', u")]);
}

#[test]
fn parse_accepts_an_empty_list() {
    let reply = ArticleListResult::parse("{\"status\":2,\"complete\":1,\"list\":{}}").unwrap();
    assert_eq!(reply.status, 2);
    assert!(reply.list.is_empty());
}

#[test]
fn parse_accepts_the_bounds_of_the_status() {
    let reply =
        ArticleListResult::parse("{\"status\":2147483647,\"complete\":-2147483648,\"list\":{}}").unwrap();
    assert_eq!(reply.status, i32::MAX);
    assert_eq!(reply.complete, i32::MIN);
}

#[test]
fn parse_refuses_what_is_no_json() {
    for text in ["", "{", "not json", "{\"status\":1,\"complete\":1,\"list\":{}} trailing", "{'status':1}"] {
        assert_eq!(ArticleListResult::parse(text), Err(ListError::Parse));
    }
}

#[test]
fn parse_refuses_what_is_no_reply() {
    let texts = [
        "null",
        "[]",
        "\"text\"",
        "{}",
        "{\"complete\":1,\"list\":{}}",
        "{\"status\":1,\"list\":{}}",
        "{\"status\":1,\"complete\":1}",
        "{\"status\":\"1\",\"complete\":1,\"list\":{}}",
        "{\"status\":1.0,\"complete\":1,\"list\":{}}",
        "{\"status\":1,\"complete\":true,\"list\":{}}",
        "{\"status\":2147483648,\"complete\":1,\"list\":{}}",
        "{\"status\":1,\"complete\":-2147483649,\"list\":{}}",
        "{\"status\":18446744073709551615,\"complete\":1,\"list\":{}}",
        "{\"status\":1,\"complete\":1,\"list\":[]}",
        "{\"status\":1,\"complete\":1,\"list\":null}",
        "{\"status\":1,\"complete\":1,\"list\":{\"1\":null}}",
        "{\"status\":1,\"complete\":1,\"list\":{\"1\":{\"item_id\":\"1\",\"resolved_title\":\"t\"}}}",
        "{\"status\":1,\"complete\":1,\"list\":{\"1\":{\"item_id\":1,\"resolved_title\":\"t\",\"resolved_url\":\"u\"}}}",
        "{\"status\":1,\"complete\":1,\"list\":{\"1\":{\"item_id\":\"1\",\"resolved_title\":null,\"resolved_url\":\"u\"}}}",
        "{\"status\":1,\"complete\":1,\"list\":{\
            \"1\":{\"item_id\":\"1\",\"resolved_title\":\"t\",\"resolved_url\":\"u\"},\
            \"2\":{\"item_id\":\"2\",\"resolved_url\":\"u\"}}}",
    ];
    for text in texts {
        assert_eq!(ArticleListResult::parse(text), Err(ListError::Parse), "{}", text);
    }
}

#[test]
fn from_document_reads_a_built_value() {
    let mut entry = serde_json::Map::new();
    entry.insert(String::from("item_id"), Value::String(String::from("5")));
    entry.insert(String::from("resolved_title"), Value::String(String::from("Five")));
    entry.insert(String::from("resolved_url"), Value::String(String::from("https://five.example")));
    let mut list = serde_json::Map::new();
    list.insert(String::from("5"), Value::Object(entry));
    let mut document = serde_json::Map::new();
    document.insert(String::from("status"), Value::Number(serde_json::Number::from(1)));
    document.insert(String::from("complete"), Value::Number(serde_json::Number::from(0)));
    document.insert(String::from("list"), Value::Object(list));
    let reply = ArticleListResult::from_document(&Value::Object(document)).unwrap();
    assert_eq!(reply.status, 1);
    assert_eq!(reply.complete, 0);
    assert_eq!(reply.list, vec![(String::from("5"), article("5", "Five", "https://five.example"))]);
    assert_eq!(ArticleListResult::from_document(&Value::Null), Err(ListError::Parse));
}

#[test]
fn article_from_value_needs_three_strings() {
    let value: Value =
        serde_json::from_str("{\"item_id\":\"1\",\"resolved_title\":\"t\",\"resolved_url\":\"u\",\"x\":[]}").unwrap();
    assert_eq!(Article::from_value(&value), Some(article("1", "t", "u")));
    let value: Value = serde_json::from_str("{\"item_id\":\"1\",\"resolved_title\":\"t\"}").unwrap();
    assert_eq!(Article::from_value(&value), None);
    let value: Value = serde_json::from_str("[\"1\",\"t\",\"u\"]").unwrap();
    assert_eq!(Article::from_value(&value), None);
}

#[test]
fn report_counts_and_lists_the_articles() {
    let reply = ArticleListResult {
        status: 1,
        complete: 1,
        list: vec![
            (String::from("b"), article("2", "Second", "https://b.example")),
            (String::from("a"), article("1", "It's first", "https://a.example")),
        ],
    };
    assert_eq!(
        report(&reply),
        vec![
            String::from("Received 2 articles."),
            String::from("2: 'Second', https://b.example"),
            String::from("1: 'It's first', https://a.example"),
        ]
    );
}

#[test]
fn report_of_no_articles() {
    let reply = ArticleListResult { status: 1, complete: 1, list: vec![] };
    assert_eq!(report(&reply), vec![String::from("Received 0 articles.")]);
}

#[test]
fn report_of_a_refusal_lists_nothing() {
    for status in [0, 2, -1, i32::MAX] {
        let reply = ArticleListResult {
            status,
            complete: 1,
            list: vec![(String::from("a"), article("1", "First", "https://a.example"))],
        };
        assert_eq!(report(&reply), vec![String::from("Receiving articles failed.")]);
    }
}

#[test]
fn report_counts_many_articles() {
    let mut list = Vec::new();
    for i in 0..12 {
        list.push((format!("{}", i), article(&format!("{}", i), "t", "u")));
    }
    let lines = report(&ArticleListResult { status: 1, complete: 1, list });
    assert_eq!(lines.len(), 13);
    assert_eq!(lines[0], "Received 12 articles.");
    assert_eq!(lines[12], "11: 't', u");
}

#[test]
fn human_rendering_of_two_articles() {
    let lines = output_human(TWO_ARTICLES).unwrap();
    assert_eq!(lines.len(), 3);
    assert_eq!(lines[0], "Received 2 articles.");
    let mut rest = lines[1..].to_vec();
    rest.sort();
    assert_eq!(
        rest,
        vec![String::from("11: 'First', https://a.example/1"), String::from("22: '', https://b.example/2")]
    );
}

#[test]
fn human_rendering_of_a_refusal() {
    assert_eq!(output_human(REFUSED), Ok(vec![String::from("Receiving articles failed.")]));
    assert_eq!(
        output(REFUSED, OutputFormat::Human),
        Ok(Output::Human(vec![String::from("Receiving articles failed.")]))
    );
}

#[test]
fn human_rendering_fails_on_malformed_json() {
    assert_eq!(output_human("{\"status\":1,"), Err(ListError::Parse));
    assert_eq!(output("<html>", OutputFormat::Human), Err(ListError::Parse));
    assert_eq!(output("{\"status\":1}", OutputFormat::Human), Err(ListError::Parse));
}

#[test]
fn human_output_wraps_the_report() {
    match output(TWO_ARTICLES, OutputFormat::Human) {
        Ok(Output::Human(lines)) => {
            assert_eq!(lines.len(), 3);
            assert_eq!(lines[0], "Received 2 articles.");
        }
        other => panic!("{:?}", other),
    }
}

#[test]
fn structured_output_is_the_text_as_it_came() {
    for text in [TWO_ARTICLES, REFUSED, "", "not json at all", "{\"status\":", " {} \n", "\u{fffd}\u{1f600}"] {
        assert_eq!(output(text, OutputFormat::Json), Ok(Output::Structured(String::from(text))));
    }
}
