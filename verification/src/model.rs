//! The canonical data model: requests, completions, tool calls and the
//! failures of the adapter, each with its mathematical view.

use crate::json::{Json, JsonNumber, JsonView};
use vstd::prelude::*;

verus! {

/// Who speaks in a message.
#[derive(Debug, Clone, Copy, PartialEq, Eq, Structural)]
pub enum MessageRole {
    System,
    User,
    Assistant,
}

/// One message of a conversation.
#[derive(Debug, Clone, PartialEq, Eq)]
pub struct Message {
    pub role: MessageRole,
    pub content: String,
}

/// A chat request in canonical form.
#[derive(Debug, Clone, PartialEq, Eq)]
pub struct ChatCompletionsData {
    pub messages: Vec<Message>,
    pub temperature: Option<JsonNumber>,
    pub top_p: Option<JsonNumber>,
    /// Function definitions, handed through as they are.
    pub functions: Option<Vec<Json>>,
    pub stream: bool,
}

/// An embeddings request in canonical form.
#[derive(Debug, Clone, PartialEq, Eq)]
pub struct EmbeddingsData {
    pub texts: Vec<String>,
}

/// What the adapter needs to know of a model.
#[derive(Debug, Clone, PartialEq, Eq)]
pub struct Model {
    /// The name the server knows the model by.
    pub name: String,
    /// The `max_tokens` to send, where the model asks for one.
    pub max_tokens: Option<i64>,
}

/// A function invocation requested by the model.
#[derive(Debug, Clone, PartialEq, Eq)]
pub struct ToolCall {
    pub name: String,
    pub arguments: Json,
    pub id: Option<String>,
}

/// Model of [`ToolCall`].
pub struct ToolCallView {
    pub name: Seq<char>,
    pub arguments: JsonView,
    pub id: Option<Seq<char>>,
}

/// The model of an optional owned string.
pub open spec fn opt_text(s: Option<String>) -> Option<Seq<char>> {
    match s {
        Some(t) => Some(t@),
        None => None,
    }
}

impl View for ToolCall {
    type V = ToolCallView;

    open spec fn view(&self) -> ToolCallView {
        ToolCallView { name: self.name@, arguments: self.arguments@, id: opt_text(self.id) }
    }
}

impl ToolCallView {
    /// A tool call names the function it asks for: its name is not empty.
    pub open spec fn well_formed(self) -> bool {
        self.name.len() > 0
    }
}

impl ToolCall {
    /// The call of the function `name`, which is not the empty text.
    pub fn new(name: String, arguments: Json, id: Option<String>) -> (r: ToolCall)
        requires
            name@.len() > 0,
        ensures
            r@ == (ToolCallView { name: name@, arguments: arguments@, id: opt_text(id) }),
            r@.well_formed(),
    {
        ToolCall { name, arguments, id }
    }
}

/// The models of a list of tool calls, in order.
pub open spec fn calls_view(calls: Seq<ToolCall>) -> Seq<ToolCallView> {
    Seq::new(calls.len(), |i: int| calls[i]@)
}

/// The texts of a list of strings, in order.
pub open spec fn texts_view(texts: Seq<String>) -> Seq<Seq<char>> {
    Seq::new(texts.len(), |i: int| texts[i]@)
}

/// One complete chat completion.
#[derive(Debug, Clone, PartialEq, Eq)]
pub struct ChatCompletionsOutput {
    pub text: String,
    pub tool_calls: Vec<ToolCall>,
    pub id: Option<String>,
    pub input_tokens: Option<u64>,
    pub output_tokens: Option<u64>,
}

/// Model of [`ChatCompletionsOutput`].
pub struct ChatCompletionsOutputView {
    pub text: Seq<char>,
    pub tool_calls: Seq<ToolCallView>,
    pub id: Option<Seq<char>>,
    pub input_tokens: Option<u64>,
    pub output_tokens: Option<u64>,
}

impl ChatCompletionsOutputView {
    /// A completion has text or at least one tool call, and each of its
    /// tool calls has a name.
    pub open spec fn well_formed(self) -> bool {
        &&& self.text.len() > 0 || self.tool_calls.len() > 0
        &&& forall|i: int|
            0 <= i < self.tool_calls.len() ==> (#[trigger] self.tool_calls[i]).well_formed()
    }
}

impl View for ChatCompletionsOutput {
    type V = ChatCompletionsOutputView;

    open spec fn view(&self) -> ChatCompletionsOutputView {
        ChatCompletionsOutputView {
            text: self.text@,
            tool_calls: calls_view(self.tool_calls@),
            id: opt_text(self.id),
            input_tokens: self.input_tokens,
            output_tokens: self.output_tokens,
        }
    }
}

/// Why an exchange failed.
#[derive(Debug, Clone, PartialEq, Eq)]
pub enum ClientError {
    /// The server answered with a status outside 200..=299.
    HttpStatus { status: u16, message: String },
    /// A document does not have the shape it must have.
    MalformedPayload,
    /// The arguments of a tool call are not JSON.
    ArgumentParse { name: String, arguments: String },
    /// A completion with neither text nor tool calls.
    EmptyResponse { document: String },
    /// A streamed event is not JSON.
    EventParse { payload: String },
}

/// Model of [`ClientError`].
pub enum ClientErrorView {
    HttpStatus { status: u16, message: Seq<char> },
    MalformedPayload,
    ArgumentParse { name: Seq<char>, arguments: Seq<char> },
    EmptyResponse { document: Seq<char> },
    EventParse { payload: Seq<char> },
}

impl View for ClientError {
    type V = ClientErrorView;

    open spec fn view(&self) -> ClientErrorView {
        match self {
            ClientError::HttpStatus { status, message } => ClientErrorView::HttpStatus {
                status: *status,
                message: message@,
            },
            ClientError::MalformedPayload => ClientErrorView::MalformedPayload,
            ClientError::ArgumentParse { name, arguments } => ClientErrorView::ArgumentParse {
                name: name@,
                arguments: arguments@,
            },
            ClientError::EmptyResponse { document } => ClientErrorView::EmptyResponse {
                document: document@,
            },
            ClientError::EventParse { payload } => ClientErrorView::EventParse {
                payload: payload@,
            },
        }
    }
}

impl ClientErrorView {
    /// The line a person reads for this failure.
    pub open spec fn message(self) -> Seq<char> {
        match self {
            ClientErrorView::HttpStatus { status, message } => message,
            ClientErrorView::MalformedPayload => "Invalid embeddings data"@,
            ClientErrorView::ArgumentParse { name, arguments } => "Tool call '"@ + name
                + "' have non-JSON arguments '"@ + arguments + "'"@,
            ClientErrorView::EmptyResponse { document } => "Invalid response data: "@ + document,
            ClientErrorView::EventParse { payload } => "Invalid stream event: "@ + payload,
        }
    }
}

impl ClientError {
    /// The line a person reads for this failure.
    pub fn message(&self) -> (r: String)
        ensures
            r@ == self@.message(),
    {
        match self {
            ClientError::HttpStatus { status, message } => message.clone(),
            ClientError::MalformedPayload => "Invalid embeddings data".to_owned(),
            ClientError::ArgumentParse { name, arguments } => {
                let mut out = "Tool call '".to_owned();
                out.push_str(name.as_str());
                out.push_str("' have non-JSON arguments '");
                out.push_str(arguments.as_str());
                out.push_str("'");
                out
            },
            ClientError::EmptyResponse { document } => {
                let mut out = "Invalid response data: ".to_owned();
                out.push_str(document.as_str());
                out
            },
            ClientError::EventParse { payload } => {
                let mut out = "Invalid stream event: ".to_owned();
                out.push_str(payload.as_str());
                out
            },
        }
    }
}

} // verus!
