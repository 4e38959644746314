//! What holds of the relay for every request and every answer.
//!
//! Each law is stated over the functions that the contracts of
//! [`begin`](crate::relay::begin) and [`finish`](crate::relay::finish) speak
//! of, so it holds of every call of the two.

use vstd::prelude::*;
use crate::error::RelayError;
use crate::json::{json_parse, JsonValue};
use crate::message::{
    failure_reply, success_reply, ChatMessageView, ReplyBodyView, UpstreamOutcomeView,
    STATUS_FAILURE, STATUS_OK,
};
use crate::relay::{
    completion_text_of, first_step_for, outbound_for, paraphrase_of, prompt_for,
    reply_for_outcome, status_is_success, FirstStepView, BEARER_PREFIX, COMPLETIONS_URL,
    CONTENT_TYPE, FALLBACK_TEXT, KEY_CHOICES, KEY_CONTENT, KEY_MESSAGE, MODEL, PROMPT_PREFIX,
    ROLE, TEMPERATURE_TENTHS,
};

verus! {

/// Whether `document` is an object whose `choices` is an array that begins
/// with an object whose `message` is an object whose `content` is the string
/// `text`.
pub open spec fn has_completion(document: JsonValue, text: Seq<char>) -> bool {
    &&& document matches JsonValue::Object(top)
    &&& top.contains_key(KEY_CHOICES@)
    &&& top[KEY_CHOICES@] matches JsonValue::Array(choices)
    &&& choices.len() > 0
    &&& choices[0] matches JsonValue::Object(choice)
    &&& choice.contains_key(KEY_MESSAGE@)
    &&& choice[KEY_MESSAGE@] matches JsonValue::Object(message)
    &&& message.contains_key(KEY_CONTENT@)
    &&& message[KEY_CONTENT@] == JsonValue::Text(text)
}

/// Whether `outcome` is an answer in the success range whose body is a JSON
/// document.
pub open spec fn answers_with_document(outcome: UpstreamOutcomeView, document: JsonValue) -> bool {
    &&& outcome matches UpstreamOutcomeView::Answered { status, body: Some(bytes) }
    &&& status_is_success(status)
    &&& json_parse(bytes) == Some(document)
}

/// The completion text of a document is `text` exactly where the document
/// has the shape that [`has_completion`] describes, with `text` as its
/// content.
pub proof fn lemma_completion_text_by_shape(document: JsonValue, text: Seq<char>)
    ensures
        completion_text_of(document) == Some(text) <==> has_completion(document, text),
{
}

/// A document has no completion text exactly where it has that shape for no
/// text at all.
pub proof fn lemma_no_completion_text_by_shape(document: JsonValue)
    ensures
        completion_text_of(document) is None <==> forall|text: Seq<char>|
            !has_completion(document, text),
{
    match completion_text_of(document) {
        Some(found) => {
            lemma_completion_text_by_shape(document, found);
        },
        None => {
            assert forall|text: Seq<char>| !has_completion(document, text) by {
                lemma_completion_text_by_shape(document, text);
            }
        },
    }
}

/// Without a credential the caller is told at once that the key is not set,
/// whatever the request holds, and no request is to be sent.
pub proof fn lemma_missing_credential_fails_at_once(text: Seq<char>)
    ensures
        first_step_for(text, None) == FirstStepView::Respond(
            failure_reply(RelayError::MissingCredential),
        ),
        !(first_step_for(text, None) is Send),
        failure_reply(RelayError::MissingCredential).status == STATUS_FAILURE,
        failure_reply(RelayError::MissingCredential).body == ReplyBodyView::PlainText(
            "API key not set"@,
        ),
{
}

/// With a credential a request is always sent, and it is the same but for the
/// caller's text and the credential: it goes to the fixed address, selects
/// the fixed model and the temperature of seven tenths, and holds a single
/// message of the fixed role whose content is the prefix followed at once by
/// the caller's text.
pub proof fn lemma_outbound_request_is_fixed(text: Seq<char>, credential: Seq<char>)
    ensures
        first_step_for(text, Some(credential)) == FirstStepView::Send(
            outbound_for(text, credential),
        ),
        outbound_for(text, credential).url == COMPLETIONS_URL@,
        outbound_for(text, credential).content_type == CONTENT_TYPE@,
        outbound_for(text, credential).authorization == BEARER_PREFIX@ + credential,
        outbound_for(text, credential).body.model == MODEL@,
        outbound_for(text, credential).body.temperature_tenths == TEMPERATURE_TENTHS,
        TEMPERATURE_TENTHS == 7,
        outbound_for(text, credential).body.messages.len() == 1,
        outbound_for(text, credential).body.messages[0] == (ChatMessageView {
            role: ROLE@,
            content: PROMPT_PREFIX@ + text,
        }),
{
}

/// The content of the message begins with the prefix, and what follows the
/// prefix is the caller's text, all of it and nothing more.
pub proof fn lemma_prompt_is_prefix_then_text(text: Seq<char>)
    ensures
        prompt_for(text).len() == PROMPT_PREFIX@.len() + text.len(),
        prompt_for(text).subrange(0, PROMPT_PREFIX@.len() as int) == PROMPT_PREFIX@,
        prompt_for(text).subrange(PROMPT_PREFIX@.len() as int, prompt_for(text).len() as int)
            == text,
{
}

/// Where no answer arrived, the caller is told that the service could not be
/// contacted.
pub proof fn lemma_unreachable_is_transport_failure()
    ensures
        reply_for_outcome(UpstreamOutcomeView::Unreachable) == failure_reply(
            RelayError::Transport,
        ),
        failure_reply(RelayError::Transport).status == STATUS_FAILURE,
        failure_reply(RelayError::Transport).body == ReplyBodyView::PlainText(
            "Failed to contact OpenAI"@,
        ),
{
}

/// An answer outside the success range is reported as an upstream failure,
/// whatever its status and its body are: nothing of either reaches the
/// caller.
pub proof fn lemma_upstream_failure_is_not_forwarded(status: u16, body: Option<Seq<u8>>)
    requires
        !status_is_success(status),
    ensures
        reply_for_outcome(UpstreamOutcomeView::Answered { status, body }) == failure_reply(
            RelayError::Upstream,
        ),
        failure_reply(RelayError::Upstream).status == STATUS_FAILURE,
        failure_reply(RelayError::Upstream).body == ReplyBodyView::PlainText(
            "OpenAI API error"@,
        ),
{
}

/// An answer in the success range whose body the JSON parser rejects is
/// reported as a decode failure.
pub proof fn lemma_invalid_json_is_decode_failure(status: u16, body: Seq<u8>)
    requires
        status_is_success(status),
        json_parse(body) is None,
    ensures
        reply_for_outcome(UpstreamOutcomeView::Answered { status, body: Some(body) })
            == failure_reply(RelayError::Decode),
        failure_reply(RelayError::Decode).status == STATUS_FAILURE,
        failure_reply(RelayError::Decode).body == ReplyBodyView::PlainText(
            "Invalid response from OpenAI"@,
        ),
{
}

/// An answer in the success range whose body could not be read is reported
/// as a decode failure too.
pub proof fn lemma_unread_body_is_decode_failure(status: u16)
    requires
        status_is_success(status),
    ensures
        reply_for_outcome(UpstreamOutcomeView::Answered { status, body: None }) == failure_reply(
            RelayError::Decode,
        ),
{
}

/// A completion is relayed. For every text and every credential the request
/// is sent; and where the answer to it lies in the success range and its
/// body is a JSON document with the completion text `completion`, the caller
/// gets status 200 and a JSON body that holds `completion`.
pub proof fn lemma_completion_is_relayed(
    text: Seq<char>,
    credential: Seq<char>,
    outcome: UpstreamOutcomeView,
    document: JsonValue,
    completion: Seq<char>,
)
    requires
        answers_with_document(outcome, document),
        has_completion(document, completion),
    ensures
        first_step_for(text, Some(credential)) is Send,
        reply_for_outcome(outcome) == success_reply(completion),
        success_reply(completion).status == STATUS_OK,
        success_reply(completion).body == (ReplyBodyView::Json { paraphrased: completion }),
{
    lemma_completion_text_by_shape(document, completion);
}

/// A document without a completion is no failure. Where the answer lies in
/// the success range and its body is a JSON document that has the shape of
/// [`has_completion`] for no text, the caller gets status 200 and the
/// fallback text.
pub proof fn lemma_missing_completion_gives_fallback(
    outcome: UpstreamOutcomeView,
    document: JsonValue,
)
    requires
        answers_with_document(outcome, document),
        forall|text: Seq<char>| !has_completion(document, text),
    ensures
        reply_for_outcome(outcome) == success_reply(FALLBACK_TEXT@),
        success_reply(FALLBACK_TEXT@).status == STATUS_OK,
        success_reply(FALLBACK_TEXT@).body == (ReplyBodyView::Json {
            paraphrased: "Error paraphrasing"@,
        }),
{
    lemma_no_completion_text_by_shape(document);
}

/// An object whose `choices` is an empty array has no completion text, and
/// neither has a document that is no object or an object without `choices`.
pub proof fn lemma_documents_without_completion(document: JsonValue)
    requires
        document matches JsonValue::Object(top) ==> !top.contains_key(KEY_CHOICES@)
            || top[KEY_CHOICES@] == JsonValue::Array(Seq::empty()),
    ensures
        forall|text: Seq<char>| !has_completion(document, text),
        completion_text_of(document) is None,
        paraphrase_of(document) == FALLBACK_TEXT@,
{
}

/// Every reply is either a success with status 200, or one of three failures
/// with status 500 and a fixed text. A failure holds nothing of the answer
/// that led to it.
pub proof fn lemma_reply_is_success_or_fixed_failure(outcome: UpstreamOutcomeView)
    ensures
        ({
            let reply = reply_for_outcome(outcome);
            ||| exists|text: Seq<char>| reply == success_reply(text)
            ||| reply == failure_reply(RelayError::Transport)
            ||| reply == failure_reply(RelayError::Upstream)
            ||| reply == failure_reply(RelayError::Decode)
        }),
{
    let reply = reply_for_outcome(outcome);
    if reply.status == STATUS_OK {
        let text = reply.body->paraphrased;
        assert(reply == success_reply(text));
    }
}

/// Replies pair with their own answers. Of two requests whose answers hold
/// the completion texts `first_text` and `second_text`, each gets its own
/// text, and where the texts differ, so do the replies.
pub proof fn lemma_replies_pair_with_their_answers(
    first: UpstreamOutcomeView,
    first_document: JsonValue,
    first_text: Seq<char>,
    second: UpstreamOutcomeView,
    second_document: JsonValue,
    second_text: Seq<char>,
)
    requires
        answers_with_document(first, first_document),
        has_completion(first_document, first_text),
        answers_with_document(second, second_document),
        has_completion(second_document, second_text),
    ensures
        reply_for_outcome(first) == success_reply(first_text),
        reply_for_outcome(second) == success_reply(second_text),
        first_text != second_text ==> reply_for_outcome(first) != reply_for_outcome(second),
{
    lemma_completion_text_by_shape(first_document, first_text);
    lemma_completion_text_by_shape(second_document, second_text);
}

} // verus!
