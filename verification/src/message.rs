//! The values that pass between the caller, the relay and the completion
//! service, each with the view that the contracts speak of.

use vstd::prelude::*;
use crate::error::RelayError;

verus! {

/// The status code of a reply that carries a paraphrased text.
pub const STATUS_OK: u16 = 200;

/// The status code of every reply that reports a failure.
pub const STATUS_FAILURE: u16 = 500;

/// What a caller asks for: a text to paraphrase. The text is taken as it is;
/// no length and no content is refused.
#[derive(Clone, Debug, PartialEq, Eq)]
pub struct ParaphraseRequest {
    pub text: String,
}

/// What a caller is given back: the paraphrased text.
#[derive(Clone, Debug, PartialEq, Eq)]
pub struct ParaphraseResponse {
    pub paraphrased: String,
}

/// The body of a reply.
#[derive(Clone, Debug, PartialEq, Eq)]
pub enum ReplyBody {
    /// A JSON object that holds the paraphrased text.
    Json(ParaphraseResponse),
    /// A short plain text that names a failure.
    PlainText(String),
}

/// The view of a [`ReplyBody`].
pub enum ReplyBodyView {
    Json { paraphrased: Seq<char> },
    PlainText(Seq<char>),
}

impl View for ReplyBody {
    type V = ReplyBodyView;

    open spec fn view(&self) -> ReplyBodyView {
        match self {
            ReplyBody::Json(response) => ReplyBodyView::Json { paraphrased: response.paraphrased@ },
            ReplyBody::PlainText(text) => ReplyBodyView::PlainText(text@),
        }
    }
}

/// The reply to a caller: a status code and a body.
#[derive(Clone, Debug, PartialEq, Eq)]
pub struct HttpReply {
    pub status: u16,
    pub body: ReplyBody,
}

/// The view of an [`HttpReply`].
pub struct HttpReplyView {
    pub status: u16,
    pub body: ReplyBodyView,
}

impl View for HttpReply {
    type V = HttpReplyView;

    open spec fn view(&self) -> HttpReplyView {
        HttpReplyView { status: self.status, body: self.body@ }
    }
}

/// The reply that carries `paraphrased`: status 200 and a JSON body.
pub open spec fn success_reply(paraphrased: Seq<char>) -> HttpReplyView {
    HttpReplyView { status: STATUS_OK, body: ReplyBodyView::Json { paraphrased } }
}

/// The reply that reports `error`: status 500 and the fixed text of the error.
pub open spec fn failure_reply(error: RelayError) -> HttpReplyView {
    HttpReplyView { status: STATUS_FAILURE, body: ReplyBodyView::PlainText(error.message_text()) }
}

impl HttpReply {
    /// The reply that hands a paraphrased text to the caller.
    pub fn success(paraphrased: String) -> (reply: HttpReply)
        ensures
            reply@ == success_reply(paraphrased@),
    {
        HttpReply { status: STATUS_OK, body: ReplyBody::Json(ParaphraseResponse { paraphrased }) }
    }

    /// The reply that reports a failure. It holds the error's fixed text and
    /// nothing of what led to it.
    pub fn failure(error: RelayError) -> (reply: HttpReply)
        ensures
            reply@ == failure_reply(error),
    {
        HttpReply { status: error.status(), body: ReplyBody::PlainText(error.message().to_owned()) }
    }
}

/// One message of a conversation with the completion service.
#[derive(Clone, Debug, PartialEq, Eq)]
pub struct ChatMessage {
    pub role: String,
    pub content: String,
}

/// The view of a [`ChatMessage`].
pub struct ChatMessageView {
    pub role: Seq<char>,
    pub content: Seq<char>,
}

impl View for ChatMessage {
    type V = ChatMessageView;

    open spec fn view(&self) -> ChatMessageView {
        ChatMessageView { role: self.role@, content: self.content@ }
    }
}

/// The body of a request to the completion service.
///
/// The sampling temperature is held in tenths, so that it is an integer here.
#[derive(Clone, Debug, PartialEq, Eq)]
pub struct ChatRequest {
    pub model: String,
    pub messages: Vec<ChatMessage>,
    pub temperature_tenths: u32,
}

/// The view of a [`ChatRequest`].
pub struct ChatRequestView {
    pub model: Seq<char>,
    pub messages: Seq<ChatMessageView>,
    pub temperature_tenths: u32,
}

impl View for ChatRequest {
    type V = ChatRequestView;

    open spec fn view(&self) -> ChatRequestView {
        ChatRequestView {
            model: self.model@,
            messages: self.messages@.map_values(|message: ChatMessage| message@),
            temperature_tenths: self.temperature_tenths,
        }
    }
}

/// A request for the completion service, to be sent as an HTTP POST.
#[derive(Clone, Debug, PartialEq, Eq)]
pub struct OutboundRequest {
    /// Where the request goes.
    pub url: String,
    /// The value of the `Authorization` header.
    pub authorization: String,
    /// The value of the `Content-Type` header.
    pub content_type: String,
    /// What the body holds, to be written as JSON.
    pub body: ChatRequest,
}

/// The view of an [`OutboundRequest`].
pub struct OutboundRequestView {
    pub url: Seq<char>,
    pub authorization: Seq<char>,
    pub content_type: Seq<char>,
    pub body: ChatRequestView,
}

impl View for OutboundRequest {
    type V = OutboundRequestView;

    open spec fn view(&self) -> OutboundRequestView {
        OutboundRequestView {
            url: self.url@,
            authorization: self.authorization@,
            content_type: self.content_type@,
            body: self.body@,
        }
    }
}

/// What came of sending an [`OutboundRequest`].
#[derive(Clone, Debug, PartialEq, Eq)]
pub enum UpstreamOutcome {
    /// The call could not be completed: no answer arrived.
    Unreachable,
    /// The service answered.
    Answered {
        /// The status code of the answer.
        status: u16,
        /// The bytes of the answer's body, or `None` where they could not be
        /// read to their end.
        body: Option<Vec<u8>>,
    },
}

/// The view of an [`UpstreamOutcome`].
pub enum UpstreamOutcomeView {
    Unreachable,
    Answered { status: u16, body: Option<Seq<u8>> },
}

impl View for UpstreamOutcome {
    type V = UpstreamOutcomeView;

    open spec fn view(&self) -> UpstreamOutcomeView {
        match self {
            UpstreamOutcome::Unreachable => UpstreamOutcomeView::Unreachable,
            UpstreamOutcome::Answered { status, body } => UpstreamOutcomeView::Answered {
                status: *status,
                body: match body {
                    Some(bytes) => Some(bytes@),
                    None => None,
                },
            },
        }
    }
}

} // verus!
