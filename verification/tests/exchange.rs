use cavebot::completion::{
    base_url, bearer_header, completion_url, escape_json, request_body, CompletionRequest,
};
use cavebot::decimal::u16_to_string;
use cavebot::response::{handle_response, reply_for, reply_for_response, CompletionResult, HttpOutcome};

fn response(status: u16, body: &str) -> HttpOutcome {
    HttpOutcome::Response { status, body: body.to_string() }
}

#[test]
fn completion_is_replied_verbatim() {
    let body = "{\"choices\":[{\"message\":{\"content\":\"Short summary.\"}}]}";
    let m = reply_for_response(&response(200, body));
    assert_eq!(m, Some("Short summary.".to_string()));
}

#[test]
fn completion_with_unusual_text_is_not_mutated() {
    let body = "{\"choices\":[{\"message\":{\"content\":\"A \\\"quoted\\\" line\\nwith two rows\"}}]}";
    let m = reply_for_response(&response(200, body));
    assert_eq!(m, Some("A \"quoted\" line\nwith two rows".to_string()));
}

#[test]
fn error_status_is_reported_with_its_code() {
    let m = reply_for_response(&response(429, "{\"error\":\"rate limited\"}"));
    let text = m.expect("a non-success status must be reported to the user");
    assert!(text.contains("429"));
    assert_eq!(text, "Failed to process the message: error 429");
}

#[test]
fn other_error_statuses_use_their_own_code() {
    let m = reply_for_response(&response(503, ""));
    assert_eq!(m, Some("Failed to process the message: error 503".to_string()));
}

#[test]
fn missing_completion_field_is_reported() {
    let m = reply_for_response(&response(200, "{\"choices\":[]}"));
    assert_eq!(
        m,
        Some("Failed to process the message: No completion found".to_string())
    );
}

#[test]
fn non_string_content_counts_as_missing() {
    let body = "{\"choices\":[{\"message\":{\"content\":5}}]}";
    let m = reply_for_response(&response(200, body));
    assert_eq!(
        m,
        Some("Failed to process the message: No completion found".to_string())
    );
}

#[test]
fn unparseable_body_sends_no_reply() {
    let m = reply_for_response(&response(200, "this is not json"));
    assert_eq!(m, None);
}

#[test]
fn transport_failure_sends_no_reply() {
    let m = reply_for_response(&HttpOutcome::TransportFailure);
    assert_eq!(m, None);
}

#[test]
fn classification_matches_each_case() {
    assert!(matches!(
        handle_response(&HttpOutcome::TransportFailure),
        CompletionResult::NetworkFailure
    ));
    assert!(matches!(
        handle_response(&response(500, "")),
        CompletionResult::HttpError(500)
    ));
    assert!(matches!(
        handle_response(&response(200, "{ not json")),
        CompletionResult::MalformedBody
    ));
    assert!(matches!(
        handle_response(&response(200, "{}")),
        CompletionResult::MissingContent
    ));
    match handle_response(&response(204, "{\"choices\":[{\"message\":{\"content\":\"ok\"}}]}")) {
        CompletionResult::Completion(s) => assert_eq!(s, "ok"),
        _ => panic!("expected a completion"),
    }
}

#[test]
fn reply_for_each_result_variant() {
    assert_eq!(
        reply_for(&CompletionResult::Completion("verbatim".to_string())),
        Some("verbatim".to_string())
    );
    assert_eq!(
        reply_for(&CompletionResult::HttpError(404)),
        Some("Failed to process the message: error 404".to_string())
    );
    assert_eq!(
        reply_for(&CompletionResult::MissingContent),
        Some("Failed to process the message: No completion found".to_string())
    );
    assert_eq!(reply_for(&CompletionResult::NetworkFailure), None);
    assert_eq!(reply_for(&CompletionResult::MalformedBody), None);
}

#[test]
fn decimal_rendering_is_exact() {
    assert_eq!(u16_to_string(0), "0");
    assert_eq!(u16_to_string(7), "7");
    assert_eq!(u16_to_string(10), "10");
    assert_eq!(u16_to_string(429), "429");
    assert_eq!(u16_to_string(65535), "65535");
}

#[test]
fn json_escaping_is_exact() {
    assert_eq!(escape_json("plain text"), "plain text");
    assert_eq!(escape_json("a\"b\\c"), "a\\\"b\\\\c");
    assert_eq!(escape_json("line\nbreak\r\ttab"), "line\\nbreak\\r\\ttab");
    assert_eq!(escape_json("\u{1}\u{1f}"), "\\u0001\\u001f");
    assert_eq!(escape_json("héllo ünïcode"), "héllo ünïcode");
}

#[test]
fn request_body_is_exact() {
    let req = CompletionRequest {
        model: "m1".to_string(),
        system: "do \"this\"".to_string(),
        user: "line\none".to_string(),
    };
    assert_eq!(
        request_body(&req),
        "{\"model\":\"m1\",\"messages\":[{\"role\":\"system\",\"content\":\"do \\\"this\\\"\"},{\"role\":\"user\",\"content\":\"line\\none\"}]}"
    );
}

#[test]
fn outbound_interface_is_fixed() {
    assert_eq!(base_url(), "https://api.groq.com/openai/v1");
    assert_eq!(
        completion_url(),
        "https://api.groq.com/openai/v1/chat/completions"
    );
    assert_eq!(bearer_header("abc123"), "Bearer abc123");
}

#[test]
fn request_body_round_trips_through_a_json_parser() {
    let req = CompletionRequest {
        model: "llama3-70b-8192".to_string(),
        system: "Summarize the user's message.".to_string(),
        user: "odd \"text\" with \\ and\nnewlines\u{1}".to_string(),
    };
    let body = request_body(&req);
    let v: serde_json::Value = serde_json::from_str(&body).expect("the framed body must parse");
    assert_eq!(v["model"].as_str(), Some("llama3-70b-8192"));
    assert_eq!(v["messages"][0]["role"].as_str(), Some("system"));
    assert_eq!(
        v["messages"][0]["content"].as_str(),
        Some("Summarize the user's message.")
    );
    assert_eq!(v["messages"][1]["role"].as_str(), Some("user"));
    assert_eq!(
        v["messages"][1]["content"].as_str(),
        Some("odd \"text\" with \\ and\nnewlines\u{1}")
    );
}
