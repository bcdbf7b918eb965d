//! The parts of `rmcp` that this crate calls: requests, results and errors of
//! the Model Context Protocol.

use crate::json;
use rmcp::model::{CallToolRequestParams, CallToolResult, ContentBlock, MetaObject, RequestMetaObject};
use rmcp::service::ServiceError;
use rmcp::ErrorData;
use serde_json::Value;
use vstd::prelude::*;

verus! {

// ------------------------------------------------------------------- types

/// The outside type `rmcp::model::RequestMetaObject`. Its entries are
/// [`request_meta_of`].
#[verifier::external_type_specification]
#[verifier::external_body]
pub struct ExRequestMetaObject(RequestMetaObject);

/// The outside type `rmcp::model::MetaObject`. Its entries are [`meta_of`].
#[verifier::external_type_specification]
#[verifier::external_body]
pub struct ExMetaObject(MetaObject);

/// The outside type `rmcp::model::CallToolRequestParams`. What it asks for is
/// [`request_of`].
#[verifier::external_type_specification]
#[verifier::external_body]
pub struct ExCallToolRequestParams(CallToolRequestParams);

/// The outside type `rmcp::model::CallToolResult`. What it holds is
/// [`result_of`].
#[verifier::external_type_specification]
#[verifier::external_body]
pub struct ExCallToolResult(CallToolResult);

/// The outside type `rmcp::model::ContentBlock`. What it shows is
/// [`content_of`].
#[verifier::external_type_specification]
#[verifier::external_body]
pub struct ExContentBlock(ContentBlock);

/// The outside type `rmcp::service::ServiceError`. What it reports is
/// [`service_fault_of`].
#[verifier::external_type_specification]
#[verifier::external_body]
pub struct ExServiceError(ServiceError);

/// The outside type `rmcp::ErrorData`. What it says is [`error_of`].
#[verifier::external_type_specification]
#[verifier::external_body]
pub struct ExErrorData(ErrorData);

/// The outside type `serde_json::Map`. Its members, for values, are
/// [`members_of`].
#[verifier::external_type_specification]
#[verifier::external_body]
#[verifier::reject_recursive_types(K)]
#[verifier::reject_recursive_types(V)]
pub struct ExJsonMap<K, V>(serde_json::Map<K, V>);

// ------------------------------------------------------------------- models

/// What one block of a result shows.
pub ghost enum ContentModel {
    Text(Seq<char>),
    /// Any other block, as the JSON value it is written as.
    Value(json::Json),
    /// A block that cannot be written as JSON, and why.
    Unwritable(Seq<char>),
}

/// What a tool call returned.
pub ghost struct ResultModel {
    pub content: Seq<ContentModel>,
    pub structured: Option<json::Json>,
    pub is_error: Option<bool>,
    pub meta: Option<Map<Seq<char>, json::Json>>,
}

/// What a tool call asks for.
pub ghost struct RequestModel {
    pub tool: Seq<char>,
    pub arguments: Option<Map<Seq<char>, json::Json>>,
    pub meta: Option<Map<Seq<char>, json::Json>>,
}

/// A protocol error.
pub ghost struct ErrorModel {
    pub code: int,
    pub message: Seq<char>,
}

/// The JSON-RPC code for parameters that cannot be used.
pub open spec fn invalid_params_code() -> int {
    -32602
}

/// No entries at all.
pub open spec fn no_entries() -> Map<Seq<char>, json::Json> {
    Map::empty()
}

/// The entries of request metadata.
pub uninterp spec fn request_meta_of(meta: RequestMetaObject) -> Map<Seq<char>, json::Json>;

/// The entries of result metadata.
pub uninterp spec fn meta_of(meta: MetaObject) -> Map<Seq<char>, json::Json>;

/// The members of a JSON object.
pub uninterp spec fn members_of(map: serde_json::Map<String, Value>) -> Map<Seq<char>, json::Json>;

/// What a request asks for.
pub uninterp spec fn request_of(params: CallToolRequestParams) -> RequestModel;

/// What a result holds.
pub uninterp spec fn result_of(result: CallToolResult) -> ResultModel;

/// What a block shows.
pub uninterp spec fn content_of(block: ContentBlock) -> ContentModel;

/// What a failed request reports.
pub uninterp spec fn service_fault_of(error: ServiceError) -> ServiceFaultModel;

/// What a protocol error says.
pub uninterp spec fn error_of(error: ErrorData) -> ErrorModel;

/// What each block of a list shows.
pub open spec fn contents_of(blocks: Seq<ContentBlock>) -> Seq<ContentModel> {
    blocks.map_values(|b: ContentBlock| content_of(b))
}

/// One block of a result, taken out of the protocol.
pub enum ContentPart {
    Text(String),
    Value(Value),
    Unwritable(String),
}

impl ContentPart {
    /// What the block shows.
    pub open spec fn model(self) -> ContentModel {
        match self {
            ContentPart::Text(text) => ContentModel::Text(text@),
            ContentPart::Value(value) => ContentModel::Value(json::json_of(value)),
            ContentPart::Unwritable(text) => ContentModel::Unwritable(text@),
        }
    }
}

/// Why a request got no response.
pub struct ServiceFault {
    /// How long it waited, where it took too long.
    pub waited: Option<String>,
    /// The failure in words.
    pub text: String,
}

/// What a failed request reports.
pub ghost struct ServiceFaultModel {
    pub waited: Option<Seq<char>>,
    pub text: Seq<char>,
}

impl ServiceFault {
    /// What the failure reports.
    pub open spec fn model(self) -> ServiceFaultModel {
        ServiceFaultModel {
            waited: match self.waited {
                Some(text) => Some(text@),
                None => None,
            },
            text: self.text@,
        }
    }
}

// ------------------------------------------------------------------- requests

/// `Value::as_object`, as a copy: the members of an object, and nothing of any
/// other value.
#[verifier::external_body]
pub(crate) fn object_members(value: &Value) -> (r: Option<serde_json::Map<String, Value>>)
    ensures
        match r {
            Some(map) => json::json_of(*value) == json::Json::Object(members_of(map)),
            None => !(json::json_of(*value) is Object),
        },
{
    value.as_object().cloned()
}

/// `RequestMetaObject::new`: no entries.
#[verifier::external_body]
pub(crate) fn new_request_meta() -> (r: RequestMetaObject)
    ensures
        request_meta_of(r) == no_entries(),
{
    RequestMetaObject::new()
}

/// `serde_json::Map::insert` through `RequestMetaObject`: the entry is there.
#[verifier::external_body]
pub(crate) fn insert_request_meta(meta: &mut RequestMetaObject, key: &str, value: Value)
    ensures
        request_meta_of(*final(meta)) == request_meta_of(*old(meta)).insert(
            key@,
            json::json_of(value),
        ),
{
    meta.insert(key.to_owned(), value);
}

/// `serde_json::Map::get` through `RequestMetaObject`, as a copy: the entry under
/// this key, if there is one.
#[verifier::external_body]
pub(crate) fn get_request_meta(meta: &RequestMetaObject, key: &str) -> (r: Option<Value>)
    ensures
        match r {
            Some(value) => request_meta_of(*meta).contains_key(key@) && request_meta_of(*meta)[key@]
                == json::json_of(value),
            None => !request_meta_of(*meta).contains_key(key@),
        },
{
    meta.get(key).cloned()
}

/// `CallToolRequestParams::clone`: the same request.
#[verifier::external_body]
pub(crate) fn clone_request(params: &CallToolRequestParams) -> (r: CallToolRequestParams)
    ensures
        request_of(r) == request_of(*params),
{
    params.clone()
}

/// `CallToolRequestParams::new`: a call of this tool, with nothing else said.
#[verifier::external_body]
pub(crate) fn new_request(tool: &str) -> (r: CallToolRequestParams)
    ensures
        request_of(r) == (RequestModel { tool: tool@, arguments: None, meta: None }),
{
    CallToolRequestParams::new(tool.to_owned())
}

/// `CallToolRequestParams::with_arguments`: the call has these arguments.
#[verifier::external_body]
pub(crate) fn with_arguments(
    params: CallToolRequestParams,
    arguments: serde_json::Map<String, Value>,
) -> (r: CallToolRequestParams)
    ensures
        request_of(r) == (RequestModel {
            arguments: Some(members_of(arguments)),
            ..request_of(params)
        }),
{
    params.with_arguments(arguments)
}

/// The `meta` field of `CallToolRequestParams`, set: the call carries this
/// metadata.
#[verifier::external_body]
pub(crate) fn set_request_meta(params: &mut CallToolRequestParams, meta: RequestMetaObject)
    ensures
        request_of(*final(params)) == (RequestModel {
            meta: Some(request_meta_of(meta)),
            ..request_of(*old(params))
        }),
{
    params.meta = Some(meta);
}

// ------------------------------------------------------------------- results

/// `CallToolResult::clone`: the same result.
#[verifier::external_body]
pub(crate) fn clone_result(result: &CallToolResult) -> (r: CallToolResult)
    ensures
        result_of(r) == result_of(*result),
{
    result.clone()
}

/// The `content` field of `CallToolResult`, as a copy.
#[verifier::external_body]
pub(crate) fn result_content(result: &CallToolResult) -> (r: Vec<ContentBlock>)
    ensures
        contents_of(r@) == result_of(*result).content,
{
    result.content.clone()
}

/// The `structured_content` field of `CallToolResult`, as a copy.
#[verifier::external_body]
pub(crate) fn result_structured(result: &CallToolResult) -> (r: Option<Value>)
    ensures
        match r {
            Some(value) => result_of(*result).structured == Some(json::json_of(value)),
            None => result_of(*result).structured is None,
        },
{
    result.structured_content.clone()
}

/// The `is_error` field of `CallToolResult`.
#[verifier::external_body]
pub(crate) fn result_is_error(result: &CallToolResult) -> (r: Option<bool>)
    ensures
        r == result_of(*result).is_error,
{
    result.is_error
}

/// The `meta` field of `CallToolResult`, as a copy.
#[verifier::external_body]
pub(crate) fn result_meta(result: &CallToolResult) -> (r: Option<MetaObject>)
    ensures
        match r {
            Some(meta) => result_of(*result).meta == Some(meta_of(meta)),
            None => result_of(*result).meta is None,
        },
{
    result.meta.clone()
}

/// `ContentBlock`, taken apart: the text of a text block, and of any other block
/// what `serde_json::to_value` makes of it, or the text of its error.
#[verifier::external_body]
pub(crate) fn content_part(block: &ContentBlock) -> (r: ContentPart)
    ensures
        r.model() == content_of(*block),
{
    match block {
        ContentBlock::Text(text) => ContentPart::Text(text.text.clone()),
        other => match serde_json::to_value(other) {
            Ok(value) => ContentPart::Value(value),
            Err(error) => ContentPart::Unwritable(error.to_string()),
        },
    }
}

/// `CallToolResult::success` with `ContentBlock::text`: one block of text, not an
/// error.
#[verifier::external_body]
pub(crate) fn success_result(text: String) -> (r: CallToolResult)
    ensures
        result_of(r) == (ResultModel {
            content: seq![ContentModel::Text(text@)],
            structured: None,
            is_error: Some(false),
            meta: None,
        }),
{
    CallToolResult::success(vec![ContentBlock::text(text)])
}

/// `CallToolResult::error` with `ContentBlock::text`: one block of text, an
/// error.
#[verifier::external_body]
pub(crate) fn error_result(text: String) -> (r: CallToolResult)
    ensures
        result_of(r) == (ResultModel {
            content: seq![ContentModel::Text(text@)],
            structured: None,
            is_error: Some(true),
            meta: None,
        }),
{
    CallToolResult::error(vec![ContentBlock::text(text)])
}

// ------------------------------------------------------------------- errors

/// `ErrorData::invalid_params` without data: code -32602 and this message.
#[verifier::external_body]
pub(crate) fn invalid_params(message: String) -> (r: ErrorData)
    ensures
        error_of(r) == (ErrorModel { code: invalid_params_code(), message: message@ }),
{
    ErrorData::invalid_params(message, None)
}

/// `ServiceError`, taken apart: its `Display` text, and of a timeout the `Debug`
/// text of how long the request waited.
#[verifier::external_body]
pub(crate) fn service_fault(error: ServiceError) -> (r: ServiceFault)
    ensures
        r.model() == service_fault_of(error),
{
    let text = error.to_string();
    match error {
        ServiceError::Timeout { timeout } => ServiceFault {
            waited: Some(format!("{timeout:?}")),
            text,
        },
        _ => ServiceFault { waited: None, text },
    }
}

}
