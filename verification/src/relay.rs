//! The relay itself: what is sent to the completion service for a request,
//! and what the caller is told for each thing that can come back.
//!
//! A request is handled in two steps with one outbound call between them.
//! [`begin`] takes the request and the credential and says whether to send an
//! [`OutboundRequest`] or to reply at once. [`finish`] takes what came of the
//! call and gives the reply. A caller that has to wait for the call between
//! the two steps takes them one by one; for a caller whose transport is a
//! plain function, [`handle`] takes both. Nothing is kept between requests.

use vstd::prelude::*;
use vstd::string::StringExecFns;
use crate::error::RelayError;
use crate::json::{
    json_model, json_parse, parse_value, value_as_str, value_at_index, value_at_key, JsonValue,
};
use crate::message::{
    failure_reply, success_reply, ChatMessage, ChatMessageView, ChatRequest, ChatRequestView,
    HttpReply, HttpReplyView, OutboundRequest, OutboundRequestView, ParaphraseRequest,
    UpstreamOutcome, UpstreamOutcomeView,
};

verus! {

/// The name of the environment variable that holds the credential.
pub const CREDENTIAL_VARIABLE: &'static str = "OPENAI_API_KEY";

/// Where every outbound request goes.
pub const COMPLETIONS_URL: &'static str = "https://api.openai.com/v1/chat/completions";

/// The media type of every outbound body.
pub const CONTENT_TYPE: &'static str = "application/json";

/// What stands before the credential in the `Authorization` header.
pub const BEARER_PREFIX: &'static str = "Bearer ";

/// The model that every outbound request selects.
pub const MODEL: &'static str = "gpt-3.5-turbo";

/// The role of the one message that an outbound request holds.
pub const ROLE: &'static str = "user";

/// What stands before the caller's text in that message.
pub const PROMPT_PREFIX: &'static str = "Paraphrase this text: ";

/// The sampling temperature of every outbound request, in tenths.
pub const TEMPERATURE_TENTHS: u32 = 7;

/// The key of the list of choices in an answer.
pub const KEY_CHOICES: &'static str = "choices";

/// The key of the message in a choice.
pub const KEY_MESSAGE: &'static str = "message";

/// The key of the content in a message.
pub const KEY_CONTENT: &'static str = "content";

/// What the caller is given where the answer holds no completion text.
pub const FALLBACK_TEXT: &'static str = "Error paraphrasing";

/// Whether a status code lies in the success range, 200 up to 299.
pub open spec fn status_is_success(status: u16) -> bool {
    200 <= status < 300
}

/// Whether a status code lies in the success range.
pub fn is_success(status: u16) -> (success: bool)
    ensures
        success == status_is_success(status),
{
    200 <= status && status < 300
}

/// The content of the message sent for `text`: the fixed prefix, then `text`
/// unchanged.
pub open spec fn prompt_for(text: Seq<char>) -> Seq<char> {
    PROMPT_PREFIX@ + text
}

/// Builds the content of the message sent for `text`.
pub fn build_prompt(text: &str) -> (prompt: String)
    ensures
        prompt@ == prompt_for(text@),
{
    String::from_str(PROMPT_PREFIX).concat(text)
}

/// The value of the `Authorization` header for `credential`: a bearer token.
pub open spec fn bearer_for(credential: Seq<char>) -> Seq<char> {
    BEARER_PREFIX@ + credential
}

/// Builds the value of the `Authorization` header for `credential`.
pub fn build_bearer(credential: &str) -> (header: String)
    ensures
        header@ == bearer_for(credential@),
{
    String::from_str(BEARER_PREFIX).concat(credential)
}

/// The request that is sent for `text` under `credential`: the fixed address,
/// the credential as a bearer token, and a body that selects the fixed model
/// and temperature and holds one message, the prompt for `text`.
pub open spec fn outbound_for(text: Seq<char>, credential: Seq<char>) -> OutboundRequestView {
    OutboundRequestView {
        url: COMPLETIONS_URL@,
        authorization: bearer_for(credential),
        content_type: CONTENT_TYPE@,
        body: ChatRequestView {
            model: MODEL@,
            messages: seq![ChatMessageView { role: ROLE@, content: prompt_for(text) }],
            temperature_tenths: TEMPERATURE_TENTHS,
        },
    }
}

/// Builds the request that is sent for `request` under `credential`.
pub fn build_outbound(request: &ParaphraseRequest, credential: &str) -> (outbound: OutboundRequest)
    ensures
        outbound@ == outbound_for(request.text@, credential@),
{
    let message = ChatMessage {
        role: String::from_str(ROLE),
        content: build_prompt(request.text.as_str()),
    };
    let mut messages: Vec<ChatMessage> = Vec::new();
    messages.push(message);
    let body = ChatRequest {
        model: String::from_str(MODEL),
        messages,
        temperature_tenths: TEMPERATURE_TENTHS,
    };
    let outbound = OutboundRequest {
        url: String::from_str(COMPLETIONS_URL),
        authorization: build_bearer(credential),
        content_type: String::from_str(CONTENT_TYPE),
        body,
    };
    assert(outbound@.body.messages =~= outbound_for(request.text@, credential@).body.messages);
    outbound
}

/// What is to be done first for a request.
#[derive(Clone, Debug, PartialEq, Eq)]
pub enum FirstStep {
    /// Send this request to the completion service, then [`finish`] with what
    /// came of it.
    Send(OutboundRequest),
    /// Reply with this at once; nothing is sent.
    Respond(HttpReply),
}

/// The view of a [`FirstStep`].
pub enum FirstStepView {
    Send(OutboundRequestView),
    Respond(HttpReplyView),
}

impl View for FirstStep {
    type V = FirstStepView;

    open spec fn view(&self) -> FirstStepView {
        match self {
            FirstStep::Send(outbound) => FirstStepView::Send(outbound@),
            FirstStep::Respond(reply) => FirstStepView::Respond(reply@),
        }
    }
}

/// The first step for `text`: without a credential the failure is reported at
/// once, with one the request for `text` is sent.
pub open spec fn first_step_for(text: Seq<char>, credential: Option<Seq<char>>) -> FirstStepView {
    match credential {
        None => FirstStepView::Respond(failure_reply(RelayError::MissingCredential)),
        Some(key) => FirstStepView::Send(outbound_for(text, key)),
    }
}

/// Decides the first step for `request`. `credential` is what the lookup of
/// [`CREDENTIAL_VARIABLE`] gave, `None` where it is not set.
pub fn begin(request: &ParaphraseRequest, credential: Option<&str>) -> (step: FirstStep)
    ensures
        step@ == first_step_for(request.text@, credential.deep_view()),
{
    match credential {
        None => FirstStep::Respond(HttpReply::failure(RelayError::MissingCredential)),
        Some(key) => FirstStep::Send(build_outbound(request, key)),
    }
}

/// The completion text of an answer: the string at `choices[0].message.content`,
/// or `None` where the document has no string there.
pub open spec fn completion_text_of(document: JsonValue) -> Option<Seq<char>> {
    document.member(KEY_CHOICES@).element(0).member(KEY_MESSAGE@).member(KEY_CONTENT@).text()
}

/// Looks up the completion text of an answer.
pub fn completion_text<'a>(document: &'a serde_json::Value) -> (text: Option<&'a str>)
    ensures
        text matches Some(found) ==> completion_text_of(json_model(*document)) == Some(found@),
        text is None ==> completion_text_of(json_model(*document)) is None,
{
    let choices = value_at_key(document, KEY_CHOICES);
    let first = value_at_index(choices, 0);
    let message = value_at_key(first, KEY_MESSAGE);
    let content = value_at_key(message, KEY_CONTENT);
    value_as_str(content)
}

/// The text handed to the caller for an answer: its completion text, or the
/// fallback where it has none.
pub open spec fn paraphrase_of(document: JsonValue) -> Seq<char> {
    match completion_text_of(document) {
        Some(found) => found,
        None => FALLBACK_TEXT@,
    }
}

/// The reply for an answer that was read as JSON. It is always a success: a
/// document of another shape gives the fallback text, not a failure.
pub fn reply_to_document(document: &serde_json::Value) -> (reply: HttpReply)
    ensures
        reply@ == success_reply(paraphrase_of(json_model(*document))),
{
    let paraphrased = match completion_text(document) {
        Some(found) => found,
        None => FALLBACK_TEXT,
    };
    HttpReply::success(paraphrased.to_owned())
}

/// The reply for what the JSON parser made of an answer's body: `None` stands
/// for a body that it rejected.
pub open spec fn reply_for_parsed(parsed: Option<JsonValue>) -> HttpReplyView {
    match parsed {
        Some(document) => success_reply(paraphrase_of(document)),
        None => failure_reply(RelayError::Decode),
    }
}

/// The reply for what the JSON parser returned for an answer's body.
pub fn reply_to_parsed(parsed: &Result<serde_json::Value, serde_json::Error>) -> (reply: HttpReply)
    ensures
        *parsed matches Ok(document) ==> reply@ == reply_for_parsed(Some(json_model(document))),
        *parsed is Err ==> reply@ == reply_for_parsed(None),
{
    match parsed {
        Ok(document) => reply_to_document(document),
        Err(_) => HttpReply::failure(RelayError::Decode),
    }
}

/// The reply for the body of an answer in the success range.
pub fn reply_to_body(body: &[u8]) -> (reply: HttpReply)
    ensures
        reply@ == reply_for_parsed(json_parse(body@)),
{
    let parsed = parse_value(body);
    reply_to_parsed(&parsed)
}

/// The reply for what came of the outbound call.
///
/// No answer is a transport failure. An answer outside the success range is
/// an upstream failure, whatever its body holds. An answer in the success
/// range whose body could not be read, or is not JSON, is a decode failure.
/// Every other answer is a success.
pub open spec fn reply_for_outcome(outcome: UpstreamOutcomeView) -> HttpReplyView {
    match outcome {
        UpstreamOutcomeView::Unreachable => failure_reply(RelayError::Transport),
        UpstreamOutcomeView::Answered { status, body } => {
            if !status_is_success(status) {
                failure_reply(RelayError::Upstream)
            } else {
                match body {
                    None => failure_reply(RelayError::Decode),
                    Some(bytes) => reply_for_parsed(json_parse(bytes)),
                }
            }
        },
    }
}

/// Decides the reply for what came of the outbound call.
pub fn finish(outcome: &UpstreamOutcome) -> (reply: HttpReply)
    ensures
        reply@ == reply_for_outcome(outcome@),
{
    match outcome {
        UpstreamOutcome::Unreachable => HttpReply::failure(RelayError::Transport),
        UpstreamOutcome::Answered { status, body } => {
            if !is_success(*status) {
                HttpReply::failure(RelayError::Upstream)
            } else {
                match body {
                    None => HttpReply::failure(RelayError::Decode),
                    Some(bytes) => reply_to_body(bytes.as_slice()),
                }
            }
        },
    }
}

/// Handles one request from beginning to end, with `send` making the
/// outbound call.
///
/// Without a credential `send` is not called and the failure is reported.
/// With one, `send` is called once, with the request that [`begin`] builds,
/// and the reply is what [`finish`] makes of the outcome that it returned.
pub fn handle(
    request: &ParaphraseRequest,
    credential: Option<&str>,
    send: impl FnOnce(OutboundRequest) -> UpstreamOutcome,
) -> (reply: HttpReply)
    requires
        forall|outbound: OutboundRequest|
            credential matches Some(key) && outbound@ == outbound_for(request.text@, key@)
                ==> send.requires((outbound,)),
    ensures
        credential is None ==> reply@ == failure_reply(RelayError::MissingCredential),
        credential matches Some(key) ==> exists|outbound: OutboundRequest, outcome: UpstreamOutcome|
            outbound@ == outbound_for(request.text@, key@)
                && #[trigger] send.ensures((outbound,), outcome)
                && reply@ == reply_for_outcome(outcome@),
{
    match begin(request, credential) {
        FirstStep::Respond(reply) => reply,
        FirstStep::Send(outbound) => {
            let outcome = send(outbound);
            finish(&outcome)
        },
    }
}

} // verus!
