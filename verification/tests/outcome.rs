use paraphrase_relay::message::{
    HttpReply, OutboundRequest, ParaphraseRequest, ParaphraseResponse, ReplyBody, UpstreamOutcome,
};
use paraphrase_relay::relay::{
    begin, finish, handle, is_success, reply_to_body, FirstStep, FALLBACK_TEXT,
};

fn answered(status: u16, body: &str) -> UpstreamOutcome {
    UpstreamOutcome::Answered { status, body: Some(body.as_bytes().to_vec()) }
}

fn paraphrased(text: &str) -> HttpReply {
    HttpReply {
        status: 200,
        body: ReplyBody::Json(ParaphraseResponse { paraphrased: text.to_string() }),
    }
}

fn failed(text: &str) -> HttpReply {
    HttpReply { status: 500, body: ReplyBody::PlainText(text.to_string()) }
}

fn completion(content: &str) -> String {
    format!("{{\"choices\":[{{\"message\":{{\"role\":\"assistant\",\"content\":\"{}\"}}}}]}}", content)
}

fn request(text: &str) -> ParaphraseRequest {
    ParaphraseRequest { text: text.to_string() }
}

#[test]
fn success_range_is_200_up_to_299() {
    assert!(is_success(200));
    assert!(is_success(201));
    assert!(is_success(204));
    assert!(is_success(299));
    assert!(!is_success(0));
    assert!(!is_success(100));
    assert!(!is_success(199));
    assert!(!is_success(300));
    assert!(!is_success(404));
    assert!(!is_success(500));
    assert!(!is_success(u16::MAX));
}

#[test]
fn completion_text_is_relayed() {
    let reply = finish(&answered(200, &completion("A fast brown fox.")));
    assert_eq!(reply, paraphrased("A fast brown fox."));
}

#[test]
fn completion_text_is_relayed_for_every_success_status() {
    for status in [200, 201, 202, 204, 250, 299] {
        assert_eq!(finish(&answered(status, &completion("ok"))), paraphrased("ok"));
    }
}

#[test]
fn completion_text_is_unescaped_by_the_parser() {
    let reply = finish(&answered(200, &completion("line\\nbreak \\\"quoted\\\" caf\\u00e9")));
    assert_eq!(reply, paraphrased("line\nbreak \"quoted\" caf\u{E9}"));
}

#[test]
fn an_empty_completion_text_is_relayed_as_it_is() {
    assert_eq!(finish(&answered(200, &completion(""))), paraphrased(""));
}

#[test]
fn only_the_first_choice_counts() {
    let body = "{\"choices\":[{\"message\":{\"content\":\"first\"}},{\"message\":{\"content\":\"second\"}}]}";
    assert_eq!(finish(&answered(200, body)), paraphrased("first"));
}

#[test]
fn other_members_of_the_answer_are_ignored() {
    let body = "{\"id\":\"c-1\",\"usage\":{\"total_tokens\":12},\"choices\":[{\"index\":0,\"finish_reason\":\"stop\",\"message\":{\"role\":\"assistant\",\"content\":\"kept\"}}],\"object\":\"chat.completion\"}";
    assert_eq!(finish(&answered(200, body)), paraphrased("kept"));
}

#[test]
fn surrounding_whitespace_is_accepted() {
    let body = format!(" \n\t{}\r\n ", completion("trimmed"));
    assert_eq!(finish(&answered(200, &body)), paraphrased("trimmed"));
}

#[test]
fn no_answer_is_a_transport_failure() {
    assert_eq!(finish(&UpstreamOutcome::Unreachable), failed("Failed to contact OpenAI"));
}

#[test]
fn status_outside_the_success_range_is_an_upstream_failure() {
    for status in [0, 100, 199, 300, 301, 400, 401, 404, 429, 500, 503, 999, u16::MAX] {
        assert_eq!(finish(&answered(status, "{\"error\":\"no\"}")), failed("OpenAI API error"));
    }
}

#[test]
fn upstream_failure_does_not_forward_the_body() {
    let reply = finish(&answered(401, &completion("must not leak")));
    assert_eq!(reply, failed("OpenAI API error"));
}

#[test]
fn upstream_failure_with_an_unread_body() {
    let outcome = UpstreamOutcome::Answered { status: 502, body: None };
    assert_eq!(finish(&outcome), failed("OpenAI API error"));
}

#[test]
fn unread_body_of_a_success_is_a_decode_failure() {
    let outcome = UpstreamOutcome::Answered { status: 200, body: None };
    assert_eq!(finish(&outcome), failed("Invalid response from OpenAI"));
}

#[test]
fn body_that_is_not_json_is_a_decode_failure() {
    let bodies = [
        "",
        "   ",
        "not json",
        "<html><body>Bad gateway</body></html>",
        "{",
        "{\"choices\":[",
        "{\"choices\":[]} trailing",
        "{'choices': []}",
        "{\"choices\":[],}",
        "[1,2,]",
        "\"unterminated",
        "nul",
        "01",
    ];
    for body in bodies {
        assert_eq!(finish(&answered(200, body)), failed("Invalid response from OpenAI"));
    }
}

#[test]
fn body_that_is_not_utf8_is_a_decode_failure() {
    let outcome = UpstreamOutcome::Answered {
        status: 200,
        body: Some(vec![b'"', 0xff, 0xfe, b'"']),
    };
    assert_eq!(finish(&outcome), failed("Invalid response from OpenAI"));
}

#[test]
fn body_nested_too_deeply_is_a_decode_failure() {
    let body = format!("{}{}", "[".repeat(200), "]".repeat(200));
    assert_eq!(finish(&answered(200, &body)), failed("Invalid response from OpenAI"));
}

#[test]
fn empty_choices_give_the_fallback() {
    assert_eq!(FALLBACK_TEXT, "Error paraphrasing");
    assert_eq!(finish(&answered(200, "{\"choices\":[]}")), paraphrased("Error paraphrasing"));
}

#[test]
fn json_of_another_shape_gives_the_fallback() {
    let bodies = [
        "{}",
        "null",
        "true",
        "42",
        "\"just a string\"",
        "[]",
        "[{\"message\":{\"content\":\"in an array\"}}]",
        "{\"choices\":null}",
        "{\"choices\":\"none\"}",
        "{\"choices\":{\"0\":{\"message\":{\"content\":\"keyed by text\"}}}}",
        "{\"choices\":[null]}",
        "{\"choices\":[[]]}",
        "{\"choices\":[{}]}",
        "{\"choices\":[{\"message\":null}]}",
        "{\"choices\":[{\"message\":\"text\"}]}",
        "{\"choices\":[{\"message\":[\"content\"]}]}",
        "{\"choices\":[{\"message\":{}}]}",
        "{\"choices\":[{\"message\":{\"role\":\"assistant\"}}]}",
        "{\"Choices\":[{\"message\":{\"content\":\"wrong case\"}}]}",
        "{\"choices\":[{},{\"message\":{\"content\":\"second only\"}}]}",
        "{\"error\":{\"message\":\"quota\"}}",
    ];
    for body in bodies {
        assert_eq!(finish(&answered(200, body)), paraphrased("Error paraphrasing"));
    }
}

#[test]
fn content_that_is_no_string_gives_the_fallback() {
    let contents = ["null", "true", "7", "1.5", "[\"text\"]", "{\"text\":\"x\"}"];
    for content in contents {
        let body = format!("{{\"choices\":[{{\"message\":{{\"content\":{}}}}}]}}", content);
        assert_eq!(finish(&answered(200, &body)), paraphrased("Error paraphrasing"));
    }
}

#[test]
fn reply_to_body_parses_and_extracts() {
    assert_eq!(reply_to_body(completion("from bytes").as_bytes()), paraphrased("from bytes"));
    assert_eq!(reply_to_body(b"{}"), paraphrased("Error paraphrasing"));
    assert_eq!(reply_to_body(b"{"), failed("Invalid response from OpenAI"));
}

#[test]
fn handler_relays_the_completion_of_a_mocked_upstream() {
    let upstream = |_: OutboundRequest| answered(200, &completion("Reworded."));
    let reply = handle(&request("Word it again."), Some("test-key"), upstream);
    assert_eq!(reply, paraphrased("Reworded."));
}

#[test]
fn handler_without_credential_does_not_call_the_upstream() {
    let upstream = |outbound: OutboundRequest| -> UpstreamOutcome {
        panic!("the upstream was called with {:?}", outbound)
    };
    assert_eq!(handle(&request("anything"), None, upstream), failed("API key not set"));
    assert_eq!(handle(&request(""), None, upstream), failed("API key not set"));
}

#[test]
fn handler_reports_a_failing_upstream() {
    let upstream = |_: OutboundRequest| answered(500, "{\"error\":\"overloaded\"}");
    assert_eq!(handle(&request("text"), Some("test-key"), upstream), failed("OpenAI API error"));
}

#[test]
fn handler_reports_an_upstream_that_sends_no_json() {
    let upstream = |_: OutboundRequest| answered(200, "Service temporarily unavailable");
    assert_eq!(
        handle(&request("text"), Some("test-key"), upstream),
        failed("Invalid response from OpenAI")
    );
}

#[test]
fn handler_falls_back_on_empty_choices() {
    let upstream = |_: OutboundRequest| answered(200, "{\"choices\":[]}");
    assert_eq!(
        handle(&request("text"), Some("test-key"), upstream),
        paraphrased("Error paraphrasing")
    );
}

#[test]
fn handler_reports_an_unreachable_upstream() {
    let upstream = |_: OutboundRequest| UpstreamOutcome::Unreachable;
    assert_eq!(
        handle(&request("text"), Some("test-key"), upstream),
        failed("Failed to contact OpenAI")
    );
}

#[test]
fn upstream_sees_the_prompt_for_the_callers_text() {
    let upstream = |outbound: OutboundRequest| {
        assert_eq!(outbound.url, "https://api.openai.com/v1/chat/completions");
        assert_eq!(outbound.authorization, "Bearer test-key");
        assert_eq!(outbound.body.model, "gpt-3.5-turbo");
        assert_eq!(outbound.body.temperature_tenths, 7);
        answered(200, &completion(&outbound.body.messages[0].content))
    };
    assert_eq!(
        handle(&request("echo me"), Some("test-key"), upstream),
        paraphrased("Paraphrase this text: echo me")
    );
}

#[test]
fn interleaved_requests_get_their_own_replies() {
    let texts: Vec<String> = (0..16).map(|n| format!("text number {}", n)).collect();
    let requests: Vec<ParaphraseRequest> = texts.iter().map(|text| request(text)).collect();
    let mut pending: Vec<(usize, OutboundRequest)> = Vec::new();
    for (n, request) in requests.iter().enumerate() {
        match begin(request, Some("test-key")) {
            FirstStep::Send(outbound) => pending.push((n, outbound)),
            FirstStep::Respond(reply) => panic!("request {} was answered early: {:?}", n, reply),
        }
    }
    pending.reverse();
    let mut replies: Vec<Option<HttpReply>> = vec![None; requests.len()];
    for (n, outbound) in pending {
        assert_eq!(outbound.body.messages[0].content, format!("Paraphrase this text: {}", texts[n]));
        let outcome = answered(200, &completion(&format!("answer number {}", n)));
        replies[n] = Some(finish(&outcome));
    }
    for (n, reply) in replies.into_iter().enumerate() {
        assert_eq!(reply, Some(paraphrased(&format!("answer number {}", n))));
    }
}
