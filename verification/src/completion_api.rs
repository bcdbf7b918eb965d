//! The parts of `rig` that a completion model handles: the conversation that it is
//! given, and what it chooses.

use crate::json;
use crate::rig_api;
use rig::completion::{CompletionRequest, CompletionResponse, Usage};
use rig::message::{
    AssistantContent, Message, ToolCall, ToolFunction, ToolResultContent, UserContent,
};
use rig::streaming::{RawStreamingChoice, RawStreamingToolCall, StreamFinal};
use serde_json::Value;
use vstd::prelude::*;

verus! {

// ------------------------------------------------------------------- types

/// The outside type `rig::completion::CompletionRequest`. Its conversation is
/// [`history_of`].
#[verifier::external_type_specification]
#[verifier::external_body]
pub struct ExCompletionRequest(CompletionRequest);

/// The outside type `rig::completion::CompletionResponse`. What it holds is
/// [`response_of`].
#[verifier::external_type_specification]
#[verifier::external_body]
pub struct ExCompletionResponse(CompletionResponse);

/// The outside type `rig::message::Message`. What it says is [`message_of`].
#[verifier::external_type_specification]
#[verifier::external_body]
pub struct ExMessage(Message);

/// The outside type `rig::message::UserContent`. What it says is [`user_of`].
#[verifier::external_type_specification]
#[verifier::external_body]
pub struct ExUserContent(UserContent);

/// The outside type `rig::message::AssistantContent`. What it says is
/// [`assistant_of`].
#[verifier::external_type_specification]
#[verifier::external_body]
pub struct ExAssistantContent(AssistantContent);

/// The outside type `rig::streaming::StreamFinal`, only a parameter here.
#[verifier::external_type_specification]
#[verifier::external_body]
pub struct ExStreamFinal(StreamFinal);

/// The outside type `rig::streaming::RawStreamingChoice`. What it says, with the
/// usual last item, is [`streamed_of`].
#[verifier::external_type_specification]
#[verifier::external_body]
#[verifier::reject_recursive_types(R)]
pub struct ExRawStreamingChoice<R>(RawStreamingChoice<R>);

// ------------------------------------------------------------------- models

/// One part of what a user message says.
pub ghost enum UserModel {
    /// The result of a tool.
    ToolResult { tool: Seq<char>, content: Seq<rig_api::Block> },
    Other,
}

/// One part of what an assistant says.
pub ghost enum AssistantModel {
    /// A call of a tool.
    ToolCall { id: Seq<char>, tool: Seq<char>, args: json::Json },
    Text(Seq<char>),
    Other,
}

/// One message of a conversation.
pub ghost enum MessageModel {
    System,
    User(Seq<UserModel>),
    Assistant(Seq<AssistantModel>),
}

/// What a model answers.
pub ghost struct ResponseModel {
    pub choices: Seq<AssistantModel>,
    pub total_tokens: nat,
    pub provider: Seq<char>,
}

/// One item of a streamed answer.
pub ghost enum StreamedModel {
    ToolCall { id: Seq<char>, tool: Seq<char>, args: json::Json },
    Message(Seq<char>),
    Final { provider: Seq<char>, total_tokens: nat },
    Other,
}

/// The conversation that a request holds, oldest message first.
pub uninterp spec fn history_of(request: CompletionRequest) -> Seq<MessageModel>;

/// What a message says.
pub uninterp spec fn message_of(message: Message) -> MessageModel;

/// What a part of a user message says.
pub uninterp spec fn user_of(content: UserContent) -> UserModel;

/// What a part of an assistant message says.
pub uninterp spec fn assistant_of(content: AssistantContent) -> AssistantModel;

/// What a response holds.
pub uninterp spec fn response_of(response: CompletionResponse) -> ResponseModel;

/// What an item of a stream says.
pub uninterp spec fn streamed_of(choice: RawStreamingChoice<StreamFinal>) -> StreamedModel;

/// What each message says.
pub open spec fn messages_of(messages: Seq<Message>) -> Seq<MessageModel> {
    messages.map_values(|m: Message| message_of(m))
}

/// What each part of a user message says.
pub open spec fn users_of(content: Seq<UserContent>) -> Seq<UserModel> {
    content.map_values(|c: UserContent| user_of(c))
}

/// What each part of an assistant message says.
pub open spec fn assistants_of(content: Seq<AssistantContent>) -> Seq<AssistantModel> {
    content.map_values(|c: AssistantContent| assistant_of(c))
}

/// What each item of a stream says.
pub open spec fn stream_of(items: Seq<RawStreamingChoice<StreamFinal>>) -> Seq<StreamedModel> {
    items.map_values(|i: RawStreamingChoice<StreamFinal>| streamed_of(i))
}

/// A message, taken apart.
pub enum MessagePart {
    System,
    User(Vec<UserContent>),
    Assistant(Vec<AssistantContent>),
}

impl MessagePart {
    /// What the message says.
    pub open spec fn model(self) -> MessageModel {
        match self {
            MessagePart::System => MessageModel::System,
            MessagePart::User(content) => MessageModel::User(users_of(content@)),
            MessagePart::Assistant(content) => MessageModel::Assistant(assistants_of(content@)),
        }
    }
}

/// A part of a user message, taken apart.
pub enum UserPart {
    ToolResult { tool: String, content: Vec<ToolResultContent> },
    Other,
}

impl UserPart {
    /// What the part says.
    pub open spec fn model(self) -> UserModel {
        match self {
            UserPart::ToolResult { tool, content } => UserModel::ToolResult {
                tool: tool@,
                content: rig_api::blocks_of(content@),
            },
            UserPart::Other => UserModel::Other,
        }
    }
}

/// A block of a tool's result, taken apart.
pub enum BlockPart {
    Text(String),
    Json(Value),
    Image,
}

impl BlockPart {
    /// What the block shows.
    pub open spec fn model(self) -> rig_api::Block {
        match self {
            BlockPart::Text(text) => rig_api::Block::Text(text@),
            BlockPart::Json(value) => rig_api::Block::Json(json::json_of(value)),
            BlockPart::Image => rig_api::Block::Image,
        }
    }
}

// ------------------------------------------------------------------- the conversation

/// The `chat_history` field of `CompletionRequest`, as a copy.
#[verifier::external_body]
pub(crate) fn request_history(request: &CompletionRequest) -> (r: Vec<Message>)
    ensures
        messages_of(r@) == history_of(*request),
{
    request.chat_history.clone()
}

/// `Message`, taken apart into its parts, as copies.
#[verifier::external_body]
pub(crate) fn message_part(message: &Message) -> (r: MessagePart)
    ensures
        r.model() == message_of(*message),
{
    match message {
        Message::System { .. } => MessagePart::System,
        Message::User { content } => MessagePart::User(content.clone()),
        Message::Assistant { content, .. } => MessagePart::Assistant(content.clone()),
    }
}

/// `UserContent`, taken apart: the tool and the blocks of a tool's result, as
/// copies.
#[verifier::external_body]
pub(crate) fn user_part(content: &UserContent) -> (r: UserPart)
    ensures
        r.model() == user_of(*content),
{
    match content {
        UserContent::ToolResult(result) => UserPart::ToolResult {
            tool: result.name.clone(),
            content: result.content.clone(),
        },
        _ => UserPart::Other,
    }
}

/// `AssistantContent`, told apart: whether it is a call of a tool.
#[verifier::external_body]
pub(crate) fn is_tool_call(content: &AssistantContent) -> (r: bool)
    ensures
        r == (assistant_of(*content) is ToolCall),
{
    matches!(content, AssistantContent::ToolCall(_))
}

/// `ToolResultContent`, taken apart, as a copy.
#[verifier::external_body]
pub(crate) fn block_part(content: &ToolResultContent) -> (r: BlockPart)
    ensures
        r.model() == rig_api::block_of(*content),
{
    match content {
        ToolResultContent::Text(text) => BlockPart::Text(text.text.clone()),
        ToolResultContent::Json { value } => BlockPart::Json(value.clone()),
        ToolResultContent::Image(_) => BlockPart::Image,
    }
}

// ------------------------------------------------------------------- choices

/// `ToolCall::from_wire` with `ToolFunction::new`: a call of this tool under this
/// identifier. An empty identifier, for which one is made up, is left out.
#[verifier::external_body]
pub(crate) fn call_content(id: String, tool: String, args: Value) -> (r: AssistantContent)
    requires
        id@.len() > 0,
    ensures
        assistant_of(r) == (AssistantModel::ToolCall {
            id: id@,
            tool: tool@,
            args: json::json_of(args),
        }),
{
    AssistantContent::ToolCall(ToolCall::from_wire(id, ToolFunction::new(tool, args)))
}

/// `AssistantContent::text`: this text.
#[verifier::external_body]
pub(crate) fn text_content(text: String) -> (r: AssistantContent)
    ensures
        assistant_of(r) == AssistantModel::Text(text@),
{
    AssistantContent::text(text)
}

/// `CompletionResponse::new` with `Usage`: these choices, for this many tokens in
/// all.
#[verifier::external_body]
pub(crate) fn new_response(choices: Vec<AssistantContent>, total_tokens: u64, provider: &str) -> (r:
    CompletionResponse)
    ensures
        response_of(r) == (ResponseModel {
            choices: assistants_of(choices@),
            total_tokens: total_tokens as nat,
            provider: provider@,
        }),
{
    CompletionResponse::new(choices, Usage { total_tokens, ..Usage::new() }, provider)
}

/// `RawStreamingToolCall::new`: a call of this tool under this identifier.
#[verifier::external_body]
pub(crate) fn streamed_call(id: String, tool: String, args: Value) -> (r: RawStreamingChoice<
    StreamFinal,
>)
    requires
        id@.len() > 0,
    ensures
        streamed_of(r) == (StreamedModel::ToolCall {
            id: id@,
            tool: tool@,
            args: json::json_of(args),
        }),
{
    RawStreamingChoice::ToolCall(RawStreamingToolCall::new(id, tool, args))
}

/// `RawStreamingChoice::Message`: this text.
#[verifier::external_body]
pub(crate) fn streamed_text(text: String) -> (r: RawStreamingChoice<StreamFinal>)
    ensures
        streamed_of(r) == StreamedModel::Message(text@),
{
    RawStreamingChoice::Message(text)
}

/// `StreamFinal::new` with `Usage`: the end of a stream, for this many tokens in
/// all.
#[verifier::external_body]
pub(crate) fn streamed_end(provider: &str, total_tokens: u64) -> (r: RawStreamingChoice<
    StreamFinal,
>)
    ensures
        streamed_of(r) == (StreamedModel::Final {
            provider: provider@,
            total_tokens: total_tokens as nat,
        }),
{
    let usage = Usage { total_tokens, ..Usage::new() };
    RawStreamingChoice::FinalResponse(StreamFinal::new(provider, usage))
}

}
