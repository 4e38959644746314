use paraphrase_relay::error::RelayError;
use paraphrase_relay::message::{
    HttpReply, ParaphraseResponse, ReplyBody, STATUS_FAILURE, STATUS_OK,
};

#[test]
fn every_failure_has_its_fixed_text() {
    assert_eq!(RelayError::MissingCredential.message(), "API key not set");
    assert_eq!(RelayError::Transport.message(), "Failed to contact OpenAI");
    assert_eq!(RelayError::Upstream.message(), "OpenAI API error");
    assert_eq!(RelayError::Decode.message(), "Invalid response from OpenAI");
}

#[test]
fn every_failure_has_status_500() {
    assert_eq!(STATUS_FAILURE, 500);
    assert_eq!(RelayError::MissingCredential.status(), 500);
    assert_eq!(RelayError::Transport.status(), 500);
    assert_eq!(RelayError::Upstream.status(), 500);
    assert_eq!(RelayError::Decode.status(), 500);
}

#[test]
fn failure_reply_is_plain_text_with_status_500() {
    let reply = HttpReply::failure(RelayError::Upstream);
    assert_eq!(
        reply,
        HttpReply { status: 500, body: ReplyBody::PlainText("OpenAI API error".to_string()) }
    );
}

#[test]
fn failure_replies_differ_by_their_text_only() {
    let missing = HttpReply::failure(RelayError::MissingCredential);
    let transport = HttpReply::failure(RelayError::Transport);
    let decode = HttpReply::failure(RelayError::Decode);
    assert_eq!(missing.status, transport.status);
    assert_eq!(transport.status, decode.status);
    assert_eq!(missing.body, ReplyBody::PlainText("API key not set".to_string()));
    assert_eq!(transport.body, ReplyBody::PlainText("Failed to contact OpenAI".to_string()));
    assert_eq!(decode.body, ReplyBody::PlainText("Invalid response from OpenAI".to_string()));
}

#[test]
fn success_reply_is_json_with_status_200() {
    assert_eq!(STATUS_OK, 200);
    let reply = HttpReply::success("a new wording".to_string());
    assert_eq!(
        reply,
        HttpReply {
            status: 200,
            body: ReplyBody::Json(ParaphraseResponse { paraphrased: "a new wording".to_string() }),
        }
    );
}

#[test]
fn success_reply_keeps_an_empty_text() {
    let reply = HttpReply::success(String::new());
    assert_eq!(reply.status, 200);
    assert_eq!(reply.body, ReplyBody::Json(ParaphraseResponse { paraphrased: String::new() }));
}
