//! The parts of `rig` that this crate calls: the context of a tool call, what a
//! tool hands to the model, and how it fails.

use crate::authority;
use crate::authority::RunAuthority;
use crate::json;
use crate::mcp_api;
use crate::tenuo_api;
use rig::message::ToolResultContent;
use rig::tool::{ToolContext, ToolExecutionError, ToolOutput};
use rmcp::model::{CallToolResult, MetaObject};
use serde_json::Value;
use tenuo::sdk::prelude::DecisionMetadata;
use vstd::prelude::*;

verus! {

// ------------------------------------------------------------------- types

/// The outside type `rig::tool::ToolContext`. What it holds is [`context_of`].
#[verifier::external_type_specification]
#[verifier::external_body]
pub struct ExToolContext(ToolContext);

/// The outside type `rig::tool::ToolOutput`. Its blocks are [`output_of`].
#[verifier::external_type_specification]
#[verifier::external_body]
pub struct ExToolOutput(ToolOutput);

/// The outside type `rig::message::ToolResultContent`. What it shows is
/// [`block_of`].
#[verifier::external_type_specification]
#[verifier::external_body]
pub struct ExToolResultContent(ToolResultContent);

/// The outside type `rig::tool::ToolExecutionError`. What it says is
/// [`failure_of`].
#[verifier::external_type_specification]
#[verifier::external_body]
pub struct ExToolExecutionError(ToolExecutionError);

// ------------------------------------------------------------------- models

/// One block of what a model is shown.
pub ghost enum Block {
    Text(Seq<char>),
    Json(json::Json),
    Image,
}

/// What the context of a tool call holds.
pub ghost struct ContextModel {
    /// The authority that came with the call.
    pub authority: Option<authority::RunModel>,
    /// How many other values came with it.
    pub others: nat,
    /// The decision that the host may read, never the model.
    pub decision: Option<tenuo_api::DecisionModel>,
    /// The MCP result that the host may read, never the model.
    pub mcp_result: Option<mcp_api::ResultModel>,
    /// The structured MCP content that the host may read.
    pub structured: Option<json::Json>,
    /// The MCP metadata that the host may read.
    pub meta: Option<Map<Seq<char>, json::Json>>,
}

/// How a failure is classed.
pub ghost enum FailureKind {
    InvalidArgs,
    Timeout,
    PermissionDenied,
    Provider,
}

/// What a failed tool call says.
pub ghost struct FailureModel {
    pub kind: FailureKind,
    /// What the operator reads.
    pub message: Seq<char>,
    pub code: Option<Seq<char>>,
    /// Whether the tool chose to refuse.
    pub refusal: bool,
    pub retryable: Option<bool>,
    /// What the model is shown.
    pub output: Seq<Block>,
}

/// What the context of a tool call holds.
pub uninterp spec fn context_of(context: ToolContext) -> ContextModel;

/// The blocks of an output, in order.
pub uninterp spec fn output_of(output: ToolOutput) -> Seq<Block>;

/// What one block shows.
pub uninterp spec fn block_of(content: ToolResultContent) -> Block;

/// What a failure says.
pub uninterp spec fn failure_of(error: ToolExecutionError) -> FailureModel;

/// What each block of a list shows.
pub open spec fn blocks_of(content: Seq<ToolResultContent>) -> Seq<Block> {
    content.map_values(|c: ToolResultContent| block_of(c))
}

/// A context that holds nothing.
pub open spec fn empty_context() -> ContextModel {
    ContextModel {
        authority: None,
        others: 0,
        decision: None,
        mcp_result: None,
        structured: None,
        meta: None,
    }
}

/// A failure of one kind as it is first made: the model is shown the message.
pub open spec fn new_failure(
    kind: FailureKind,
    message: Seq<char>,
    retryable: Option<bool>,
) -> FailureModel {
    FailureModel {
        kind,
        message,
        code: None,
        refusal: false,
        retryable,
        output: seq![Block::Text(message)],
    }
}

// ------------------------------------------------------------------- context

/// `ToolContext::new`: a context that holds nothing.
#[verifier::external_body]
pub(crate) fn new_context() -> (r: ToolContext)
    ensures
        context_of(r) == empty_context(),
{
    ToolContext::new()
}

/// `ToolContext::insert` of a run's authority: it is now the one that the
/// context holds, and nothing else changes.
#[verifier::external_body]
pub(crate) fn insert_authority(context: &mut ToolContext, run: RunAuthority)
    ensures
        context_of(*final(context)) == (ContextModel {
            authority: Some(run.model()),
            ..context_of(*old(context))
        }),
{
    context.insert(run);
}

/// `ToolContext::get` of a run's authority, as a copy: the one that the context
/// holds, if it holds one.
#[verifier::external_body]
pub(crate) fn get_authority(context: &ToolContext) -> (r: Option<RunAuthority>)
    ensures
        match r {
            Some(run) => context_of(*context).authority == Some(run.model()),
            None => context_of(*context).authority is None,
        },
{
    context.get::<RunAuthority>().cloned()
}

/// `ToolContext::insert_result` of a decision: the host can read it, and nothing
/// else changes.
#[verifier::external_body]
pub(crate) fn insert_decision(context: &mut ToolContext, decision: DecisionMetadata)
    ensures
        context_of(*final(context)) == (ContextModel {
            decision: Some(tenuo_api::decision_of(decision)),
            ..context_of(*old(context))
        }),
{
    context.insert_result(decision);
}

/// `ToolContext::insert_result` of an MCP result: the host can read it, and
/// nothing else changes.
#[verifier::external_body]
pub(crate) fn insert_mcp_result(context: &mut ToolContext, result: CallToolResult)
    ensures
        context_of(*final(context)) == (ContextModel {
            mcp_result: Some(mcp_api::result_of(result)),
            ..context_of(*old(context))
        }),
{
    context.insert_result(result);
}

/// `ToolContext::insert_result` of structured content: the host can read it, and
/// nothing else changes.
#[verifier::external_body]
pub(crate) fn insert_structured(context: &mut ToolContext, structured: Value)
    ensures
        context_of(*final(context)) == (ContextModel {
            structured: Some(json::json_of(structured)),
            ..context_of(*old(context))
        }),
{
    context.insert_result(structured);
}

/// `ToolContext::insert_result` of MCP metadata: the host can read it, and
/// nothing else changes.
#[verifier::external_body]
pub(crate) fn insert_meta(context: &mut ToolContext, meta: MetaObject)
    ensures
        context_of(*final(context)) == (ContextModel {
            meta: Some(mcp_api::meta_of(meta)),
            ..context_of(*old(context))
        }),
{
    context.insert_result(meta);
}

// ------------------------------------------------------------------- output

/// `ToolResultContent::text`: a block of this text.
#[verifier::external_body]
pub(crate) fn text_block(text: String) -> (r: ToolResultContent)
    ensures
        block_of(r) == Block::Text(text@),
{
    ToolResultContent::text(text)
}

/// `ToolResultContent::json`: a block of this value.
#[verifier::external_body]
pub(crate) fn json_block(value: Value) -> (r: ToolResultContent)
    ensures
        block_of(r) == Block::Json(json::json_of(value)),
{
    ToolResultContent::json(value)
}

/// `ToolOutput::text`: one block of this text.
#[verifier::external_body]
pub(crate) fn text_output(text: &str) -> (r: ToolOutput)
    ensures
        output_of(r) == seq![Block::Text(text@)],
{
    ToolOutput::text(text)
}

/// `ToolOutput::content`: these blocks in this order, refused exactly where
/// there are none.
#[verifier::external_body]
pub(crate) fn content_output(content: Vec<ToolResultContent>) -> (r: Result<ToolOutput, String>)
    ensures
        (r is Ok) == (content@.len() > 0),
        r matches Ok(output) ==> output_of(output) == blocks_of(content@),
{
    ToolOutput::content(content).map_err(|e| e.to_string())
}

// ------------------------------------------------------------------- failures

/// `ToolExecutionError::refused`: a refusal that the model is shown.
#[verifier::external_body]
pub(crate) fn refused(message: &str) -> (r: ToolExecutionError)
    ensures
        failure_of(r) == (FailureModel {
            refusal: true,
            ..new_failure(FailureKind::PermissionDenied, message@, Some(false))
        }),
{
    ToolExecutionError::refused(message)
}

/// `ToolExecutionError::invalid_args`: arguments that cannot be used.
#[verifier::external_body]
pub(crate) fn invalid_args(message: &str) -> (r: ToolExecutionError)
    ensures
        failure_of(r) == new_failure(FailureKind::InvalidArgs, message@, Some(false)),
{
    ToolExecutionError::invalid_args(message)
}

/// `ToolExecutionError::timeout`: a call that took too long and may be repeated.
#[verifier::external_body]
pub(crate) fn timeout(message: &str) -> (r: ToolExecutionError)
    ensures
        failure_of(r) == new_failure(FailureKind::Timeout, message@, Some(true)),
{
    ToolExecutionError::timeout(message)
}

/// `ToolExecutionError::provider`: a failure further on.
#[verifier::external_body]
pub(crate) fn provider(message: &str) -> (r: ToolExecutionError)
    ensures
        failure_of(r) == new_failure(FailureKind::Provider, message@, None),
{
    ToolExecutionError::provider(message)
}

/// `ToolExecutionError::with_code`: the same failure under this code.
#[verifier::external_body]
pub(crate) fn with_code(error: ToolExecutionError, code: &str) -> (r: ToolExecutionError)
    ensures
        failure_of(r) == (FailureModel { code: Some(code@), ..failure_of(error) }),
{
    error.with_code(code)
}

/// `ToolExecutionError::with_model_feedback`: the model is shown this text.
#[verifier::external_body]
pub(crate) fn with_model_feedback(error: ToolExecutionError, feedback: &str) -> (r:
    ToolExecutionError)
    ensures
        failure_of(r) == (FailureModel {
            output: seq![Block::Text(feedback@)],
            ..failure_of(error)
        }),
{
    error.with_model_feedback(feedback)
}

/// `ToolExecutionError::with_model_output`: the model is shown this output.
#[verifier::external_body]
pub(crate) fn with_model_output(error: ToolExecutionError, output: ToolOutput) -> (r:
    ToolExecutionError)
    ensures
        failure_of(r) == (FailureModel { output: output_of(output), ..failure_of(error) }),
{
    error.with_model_output(output)
}

}
