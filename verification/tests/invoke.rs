use faas3::invoke::{call_action, call_request};
use faas3::request::{Body, Method, Request};

fn json_text(request: &Request) -> String {
    match &request.body {
        Body::Json { text } => text.clone(),
        other => panic!("not a JSON body: {:?}", other),
    }
}

#[test]
fn call_request_posts_to_the_runner() {
    let request = call_request("foo", "\"x\"".to_string());
    assert_eq!(request.method, Method::Post);
    assert_eq!(request.url, "https://faas3.deno.dev/api/runner/foo");
    assert_eq!(request.body, Body::Json { text: "\"x\"".to_string() });
}

#[test]
fn call_action_sends_the_body_as_one_json_string() {
    let request = call_action("foo".to_string(), "{\"a\":1}".to_string());
    assert_eq!(request.method, Method::Post);
    assert_eq!(request.url, "https://faas3.deno.dev/api/runner/foo");
    assert_eq!(json_text(&request), "\"{\\\"a\\\":1}\"");
}

#[test]
fn call_action_encodes_plain_text() {
    let request = call_action("f".to_string(), "hello".to_string());
    assert_eq!(json_text(&request), "\"hello\"");
    assert_ne!(json_text(&request), "hello");
}

#[test]
fn call_action_encodes_the_empty_body() {
    let request = call_action("f".to_string(), String::new());
    assert_eq!(json_text(&request), "\"\"");
}

#[test]
fn call_action_escapes_controls_quotes_and_backslashes() {
    let request = call_action("f".to_string(), "a\nb\t\"c\"\\d\u{1}".to_string());
    assert_eq!(json_text(&request), "\"a\\nb\\t\\\"c\\\"\\\\d\\u0001\"");
}

#[test]
fn call_action_keeps_other_characters() {
    let request = call_action("f".to_string(), "gr\u{fc}\u{df}e / \u{1f600}".to_string());
    assert_eq!(json_text(&request), "\"gr\u{fc}\u{df}e / \u{1f600}\"");
}

#[test]
fn call_body_decodes_back_to_what_was_given() {
    for body in ["", "plain", "{\"k\": [1, 2, {\"n\": null}]}", "line\r\nbreak", "\\\"", "\u{0}\u{1f}\u{7f}"] {
        let request = call_action("echo".to_string(), body.to_string());
        let decoded: serde_json::Value =
            serde_json::from_str(&json_text(&request)).expect("the body is JSON");
        assert_eq!(decoded, serde_json::Value::String(body.to_string()));
    }
}

#[test]
fn call_action_agrees_with_call_request() {
    let direct = call_request("g", serde_json::to_string("{}").expect("a string encodes"));
    assert_eq!(call_action("g".to_string(), "{}".to_string()), direct);
}
