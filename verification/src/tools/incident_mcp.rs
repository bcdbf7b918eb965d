//! Reads an incident from the MCP server, with the warrant in the metadata of the
//! request.
//!
//! The proof in the envelope is signed over the exact arguments, which do not
//! exist until the model has chosen them. So the guard comes first, only an
//! allowed call makes an envelope, and the same value is checked, signed and
//! sent. The server checks it again.

use crate::authority;
use crate::authority::{guarded_value, Reported, ToolError};
use crate::grant;
use crate::json;
use crate::mcp_api;
use crate::mcp_api::ContentPart;
use crate::rig_api;
use crate::tenuo_api;
use crate::text;
use crate::tools;
use crate::tools::ToolArguments;
use rig::message::ToolResultContent;
use rig::tool::{ToolContext, ToolOutput};
use rmcp::model::{CallToolRequestParams, CallToolResult};
use rmcp::service::ServiceError;
use serde_json::Value;
use tenuo::sdk::prelude::AuthorizedCall;
use vstd::prelude::*;

verus! {

/// The key under which a request carries its authorization.
pub const TENUO_META_KEY: &'static str = "ai.tenuo/authorization";

/// How long a request may take, in seconds.
pub const MCP_CALL_TIMEOUT_SECS: u64 = 30;

/// Which incident to read.
#[derive(Debug)]
pub struct IncidentArgs {
    /// Incident identifier, e.g. "INC-42".
    pub incident_id: String,
}

/// The JSON value of an incident identifier.
pub open spec fn incident_json(incident_id: Seq<char>) -> json::Json {
    json::object_one("incident_id"@, json::Json::Text(incident_id))
}

impl ToolArguments for IncidentArgs {
    open spec fn json(&self) -> json::Json {
        incident_json(self.incident_id@)
    }

    fn to_value(&self) -> (r: Value) {
        json::object_with_one("incident_id", json::text_value(self.incident_id.as_str()))
    }
}

/// The tool that reads an incident from the MCP server.
pub struct RemoteReadIncident;

// ------------------------------------------------------------------- results

/// The text blocks of a result, in order.
pub open spec fn texts(content: Seq<mcp_api::ContentModel>) -> Seq<Seq<char>>
    decreases content.len(),
{
    if content.len() == 0 {
        Seq::empty()
    } else {
        let before = texts(content.drop_last());
        match content.last() {
            mcp_api::ContentModel::Text(text) => before.push(text),
            _ => before,
        }
    }
}

/// The block that the model is shown for a block of a result. One that cannot be
/// written fails the call, so what stands for it here is never shown.
pub open spec fn shown_block(content: mcp_api::ContentModel) -> rig_api::Block {
    match content {
        mcp_api::ContentModel::Text(text) => rig_api::Block::Text(text),
        mcp_api::ContentModel::Value(value) => rig_api::Block::Json(value),
        mcp_api::ContentModel::Unwritable(_) => rig_api::Block::Image,
    }
}

/// The structured content of a result as a block, if there is any.
pub open spec fn structured_blocks(structured: Option<json::Json>) -> Seq<rig_api::Block> {
    match structured {
        Some(value) => seq![rig_api::Block::Json(value)],
        None => Seq::empty(),
    }
}

/// The first reason why some block cannot be written, if there is one.
pub open spec fn first_unwritable(content: Seq<mcp_api::ContentModel>) -> Option<Seq<char>>
    decreases content.len(),
{
    if content.len() == 0 {
        None
    } else {
        match first_unwritable(content.drop_last()) {
            Some(reason) => Some(reason),
            None => match content.last() {
                mcp_api::ContentModel::Unwritable(reason) => Some(reason),
                _ => None,
            },
        }
    }
}

/// What the model is shown of a result: the structured content, then each block
/// in order, and one empty text where there is neither.
pub open spec fn shown_blocks(result: mcp_api::ResultModel) -> Seq<rig_api::Block> {
    let blocks = structured_blocks(result.structured) + result.content.map_values(
        |c: mcp_api::ContentModel| shown_block(c),
    );
    if blocks.len() == 0 {
        seq![rig_api::Block::Text(""@)]
    } else {
        blocks
    }
}

/// What a result comes to: the blocks that the model is shown, or the reason why
/// they cannot be written.
pub open spec fn result_output(result: mcp_api::ResultModel) -> Result<
    Seq<rig_api::Block>,
    authority::Fault,
> {
    match first_unwritable(result.content) {
        Some(reason) => Err(
            authority::Fault::Operation("serialize MCP content: "@ + reason),
        ),
        None => Ok(shown_blocks(result)),
    }
}

/// Keeps structured and other than textual content in view of the model, without
/// flattening it.
pub fn mcp_result_output(result: &CallToolResult) -> (r: Result<ToolOutput, ToolError>)
    ensures
        match result_output(mcp_api::result_of(*result)) {
            Ok(blocks) => r is Ok && rig_api::output_of(r->Ok_0) == blocks,
            Err(fault) => r is Err && r->Err_0.model() == fault,
        },
{
    let ghost model = mcp_api::result_of(*result);
    let ghost lead = structured_blocks(model.structured);
    let ghost show = |c: mcp_api::ContentModel| shown_block(c);
    let mut content: Vec<ToolResultContent> = Vec::new();
    if let Some(structured) = mcp_api::result_structured(result) {
        content.push(rig_api::json_block(structured));
    }
    let blocks = mcp_api::result_content(result);
    assert(rig_api::blocks_of(content@) =~= lead);
    let mut i: usize = 0;
    while i < blocks.len()
        invariant
            i <= blocks@.len(),
            mcp_api::contents_of(blocks@) == model.content,
            show == (|c: mcp_api::ContentModel| shown_block(c)),
            first_unwritable(model.content.take(i as int)) is None,
            rig_api::blocks_of(content@) == lead + model.content.take(i as int).map_values(show),
            model == mcp_api::result_of(*result),
        ensures
            i == blocks@.len(),
        decreases blocks@.len() - i,
    {
        let ghost upto = model.content.take(i as int + 1);
        assert(upto.drop_last() =~= model.content.take(i as int));
        assert(upto.last() == mcp_api::content_of(blocks@[i as int]));
        let ghost shown = rig_api::blocks_of(content@);
        match mcp_api::content_part(&blocks[i]) {
            ContentPart::Text(text) => content.push(rig_api::text_block(text)),
            ContentPart::Value(value) => content.push(rig_api::json_block(value)),
            ContentPart::Unwritable(reason) => {
                let mut message = "serialize MCP content: ".to_owned();
                message.append(reason.as_str());
                proof {
                    lemma_first_unwritable(model.content, i as int + 1);
                }
                return Err(ToolError::Operation(message));
            },
        }
        proof {
            assert(rig_api::blocks_of(content@) =~= shown.push(show(upto.last())));
            assert(upto.map_values(show) =~= model.content.take(i as int).map_values(show).push(
                show(upto.last()),
            ));
            assert(rig_api::blocks_of(content@) =~= lead + upto.map_values(show));
        }
        i = i + 1;
    }
    assert(model.content.take(i as int) =~= model.content);
    if content.len() == 0 {
        Ok(rig_api::text_output(""))
    } else {
        match rig_api::content_output(content) {
            Ok(output) => Ok(output),
            Err(message) => Err(ToolError::Operation(message)),
        }
    }
}

/// The first reason found among some of the first blocks is the first of all.
proof fn lemma_first_unwritable(content: Seq<mcp_api::ContentModel>, n: int)
    requires
        0 <= n <= content.len(),
        first_unwritable(content.take(n)) is Some,
    ensures
        first_unwritable(content) == first_unwritable(content.take(n)),
    decreases content.len(),
{
    if n == content.len() {
        assert(content.take(n) =~= content);
    } else {
        assert(content.drop_last().take(n) =~= content.take(n));
        lemma_first_unwritable(content.drop_last(), n);
    }
}

/// Collects the text blocks of a result.
fn result_texts(result: &CallToolResult) -> (r: Vec<String>)
    ensures
        text::views(r@) == texts(mcp_api::result_of(*result).content),
{
    let ghost model = mcp_api::result_of(*result);
    let blocks = mcp_api::result_content(result);
    let mut out: Vec<String> = Vec::new();
    let mut i: usize = 0;
    assert(text::views(out@) =~= Seq::empty());
    assert(texts(model.content.take(0)) =~= Seq::empty());
    while i < blocks.len()
        invariant
            i <= blocks@.len(),
            mcp_api::contents_of(blocks@) == model.content,
            text::views(out@) == texts(model.content.take(i as int)),
        decreases blocks@.len() - i,
    {
        let ghost upto = model.content.take(i as int + 1);
        let ghost seen = text::views(out@);
        assert(upto.drop_last() =~= model.content.take(i as int));
        assert(upto.last() == mcp_api::content_of(blocks@[i as int]));
        if let ContentPart::Text(text) = mcp_api::content_part(&blocks[i]) {
            out.push(text);
            assert(text::views(out@) =~= seen.push(text@));
        }
        i = i + 1;
    }
    assert(model.content.take(i as int) =~= model.content);
    out
}

// ------------------------------------------------------------------- failures

/// What becomes of a request that got no response.
pub open spec fn service_error(fault: mcp_api::ServiceFaultModel) -> authority::Fault {
    match fault.waited {
        Some(waited) => authority::Fault::Timeout("MCP call exceeded "@ + waited),
        None => authority::Fault::Operation("MCP request failed: "@ + fault.text),
    }
}

/// Tells a request that took too long from one that failed.
pub fn map_service_error(error: ServiceError) -> (r: ToolError)
    ensures
        r.model() == service_error(mcp_api::service_fault_of(error)),
{
    let fault = mcp_api::service_fault(error);
    match fault.waited {
        Some(waited) => {
            let mut message = "MCP call exceeded ".to_owned();
            message.append(waited.as_str());
            ToolError::Timeout(message)
        },
        None => {
            let mut message = "MCP request failed: ".to_owned();
            message.append(fault.text.as_str());
            ToolError::Operation(message)
        },
    }
}

// ------------------------------------------------------------------- the tool

/// Whether request metadata is an envelope that holds a chain, and nothing else.
pub open spec fn carries(
    meta: Map<Seq<char>, json::Json>,
    chain: Seq<grant::WarrantModel>,
) -> bool {
    &&& meta.dom() == Set::empty().insert(TENUO_META_KEY@)
    &&& tenuo_api::envelope_holds(meta[TENUO_META_KEY@], chain)
}

/// Whether request metadata proves a call: where the envelope in it decodes, the proof
/// is that of this key over the call under this warrant.
pub open spec fn proves(
    meta: Map<Seq<char>, json::Json>,
    warrant: grant::WarrantModel,
    key: Seq<u8>,
    call: tenuo_api::CallModel,
) -> bool {
    tenuo_api::decoded(meta[TENUO_META_KEY@]) is Ok ==> tenuo_api::is_proof(
        tenuo_api::decoded_proof(meta[TENUO_META_KEY@]),
        warrant.id,
        key,
        call,
    )
}

/// A context after a result came: the untouched result, its structured content
/// and its metadata are there for the host.
pub open spec fn with_result(
    context: rig_api::ContextModel,
    result: mcp_api::ResultModel,
) -> rig_api::ContextModel {
    rig_api::ContextModel {
        mcp_result: Some(result),
        structured: if result.structured is Some {
            result.structured
        } else {
            context.structured
        },
        meta: if result.meta is Some {
            result.meta
        } else {
            context.meta
        },
        ..context
    }
}

/// What the tool makes of a result: the blocks that the model is shown, or a
/// denial that shows them.
pub open spec fn answered(result: mcp_api::ResultModel) -> Result<
    Seq<rig_api::Block>,
    authority::Fault,
> {
    match result_output(result) {
        Err(fault) => Err(fault),
        Ok(output) => if result.is_error == Some(true) {
            Err(
                authority::Fault::McpDenied {
                    message: text::joined(texts(result.content), "\n"@),
                    output,
                },
            )
        } else {
            Ok(output)
        },
    }
}

/// Whether a tool's answer is this one.
pub open spec fn answers(
    answer: Result<Seq<rig_api::Block>, authority::Fault>,
    result: Result<ToolOutput, ToolError>,
) -> bool {
    match answer {
        Ok(blocks) => result is Ok && rig_api::output_of(result->Ok_0) == blocks,
        Err(fault) => result is Err && result->Err_0.model() == fault,
    }
}

/// Whether this is what came of writing the envelope of an allowed call.
pub closed spec fn was_encoded(call: AuthorizedCall<'_>, outcome: Result<Value, String>) -> bool {
    call_ensures(tenuo_api::encode_authorized, (&call,), outcome)
}

/// What came of writing an envelope came of asking for it, over this very call.
pub(crate) proof fn law_envelopes_come_of_asking(
    call: AuthorizedCall<'_>,
    outcome: Result<Value, String>,
)
    requires
        was_encoded(call, outcome),
    ensures
        call_ensures(tenuo_api::encode_authorized, (&call,), outcome),
{
}

/// The operation of a remote read: it makes the envelope of the call that the guard has
/// allowed.
pub fn make_envelope(call: &AuthorizedCall<'_>) -> (done: Result<Value, ToolError>)
    ensures
        tenuo_api::authorized_of(*call).approvals == 0 ==> done is Ok && tenuo_api::envelope_holds(
            json::json_of(done->Ok_0),
            tenuo_api::authorized_of(*call).chain,
        ) && tenuo_api::envelope_proves(
            json::json_of(done->Ok_0),
            tenuo_api::authorized_of(*call).proof_bytes,
        ),
        match done {
            Ok(envelope) => was_encoded(*call, Ok(envelope)),
            Err(error) => error matches ToolError::Operation(text) && was_encoded(*call, Err(text)),
        },
{
    let outcome = tenuo_api::encode_authorized(call);
    assert(was_encoded(*call, outcome));
    match outcome {
        Ok(envelope) => Ok(envelope),
        Err(text) => Err(ToolError::Operation(text)),
    }
}

/// Whether a request was made, or not, as the guard's answer has it: its envelope is the
/// one that was made of the allowed call, and its failure is the guard's denial.
pub open spec fn follows_request(
    before: rig_api::ContextModel,
    after: rig_api::ContextModel,
    args: json::Json,
    result: Result<CallToolRequestParams, ToolError>,
    lines: Seq<Seq<char>>,
) -> bool {
    match result {
        Ok(params) => exists|envelope: Value|
            #![trigger json::json_of(envelope)]
            authority::follows_guard(
                before,
                after,
                "read_incident"@,
                args,
                make_envelope,
                Ok(envelope),
                lines,
            ) && mcp_api::request_of(params).meta == Some(
                Map::empty().insert(TENUO_META_KEY@, json::json_of(envelope)),
            ),
        Err(error) => authority::follows_guard(
            before,
            after,
            "read_incident"@,
            args,
            make_envelope,
            Err(error),
            lines,
        ),
    }
}

impl RemoteReadIncident {
    /// The name of the tool.
    pub const NAME: &'static str = "read_incident";

    /// What the tool is for.
    pub fn description(&self) -> (r: String)
        ensures
            r@ == "Read an incident record from the security system of record."@,
    {
        "Read an incident record from the security system of record.".to_owned()
    }

    /// The schema of the arguments, which admits no others.
    pub fn parameters(&self) -> (r: Value)
        ensures
            json::json_of(r) == json::Json::Object(
                tools::incident_schema().insert(
                    "additionalProperties"@,
                    json::Json::Bool(false),
                ),
            ),
    {
        let mut entries = tools::incident_schema_entries();
        let ghost before = entries@;
        entries.push(("additionalProperties".to_owned(), json::bool_value(false)));
        proof {
            assert(entries@.drop_last() =~= before);
            reveal_strlit("type");
            reveal_strlit("properties");
            reveal_strlit("required");
            reveal_strlit("additionalProperties");
            assert("additionalProperties"@.len() != "type"@.len());
            assert("additionalProperties"@.len() != "properties"@.len());
            assert("additionalProperties"@.len() != "required"@.len());
        }
        json::object_value(entries)
    }

    /// Makes the request, where the authority in the context allows the call: the
    /// arguments are those that were checked, and the metadata is the envelope, with
    /// the holder's proof over the same arguments.
    pub fn request(&self, context: &mut ToolContext, args: &IncidentArgs) -> (r: Reported<
        CallToolRequestParams,
    >)
        ensures
            authority::guarded_report(
                rig_api::context_of(*old(context)),
                rig_api::context_of(*final(context)),
                "read_incident"@,
                incident_json(args.incident_id@),
                authority::failure_in(r.result),
                text::views(r.lines@),
            ),
            follows_request(
                rig_api::context_of(*old(context)),
                rig_api::context_of(*final(context)),
                incident_json(args.incident_id@),
                r.result,
                text::views(r.lines@),
            ),
            r.result matches Ok(params) ==> {
                let request = mcp_api::request_of(params);
                &&& request.tool == "read_incident"@
                &&& request.arguments == Some(incident_json(args.incident_id@)->Object_0)
                &&& request.meta matches Some(meta)
                &&& carries(meta, rig_api::context_of(*old(context)).authority->Some_0.chain)
                &&& proves(
                    meta,
                    rig_api::context_of(*old(context)).authority->Some_0.chain.last(),
                    rig_api::context_of(*old(context)).authority->Some_0.chain.last().holder,
                    authority::requested("read_incident"@, incident_json(args.incident_id@)),
                )
            },
            r.result is Ok || authority::is_denial(r.result) || authority::stopped(
                rig_api::context_of(*old(context)),
                "read_incident"@,
                incident_json(args.incident_id@),
            ) is Some,
    {
        let value = args.to_value();
        let arguments = match mcp_api::object_members(&value) {
            Some(arguments) => arguments,
            None => return Reported {
                result: Err(
                    ToolError::Arguments("tool arguments must be an object".to_owned()),
                ),
                lines: Vec::new(),
            },
        };
        let checked = guarded_value(context, RemoteReadIncident::NAME, &value, make_envelope);
        let envelope = match checked.result {
            Ok(envelope) => envelope,
            Err(error) => return Reported { result: Err(error), lines: checked.lines },
        };
        let ghost made = envelope;
        let mut meta = mcp_api::new_request_meta();
        mcp_api::insert_request_meta(&mut meta, TENUO_META_KEY, envelope);
        proof {
            let entries = mcp_api::request_meta_of(meta);
            assert(entries.dom() =~= Set::empty().insert(TENUO_META_KEY@));
        }
        let mut params = mcp_api::with_arguments(
            mcp_api::new_request(RemoteReadIncident::NAME),
            arguments,
        );
        mcp_api::set_request_meta(&mut params, meta);
        assert(mcp_api::request_of(params).meta == Some(
            Map::empty().insert(TENUO_META_KEY@, json::json_of(made)),
        ));
        Reported { result: Ok(params), lines: checked.lines }
    }

    /// Keeps a result for the host, and makes of it what the model is shown: an
    /// output, or a denial.
    pub fn accept(&self, context: &mut ToolContext, result: CallToolResult) -> (r: Result<
        ToolOutput,
        ToolError,
    >)
        ensures
            rig_api::context_of(*final(context)) == with_result(
                rig_api::context_of(*old(context)),
                mcp_api::result_of(result),
            ),
            answers(answered(mcp_api::result_of(result)), r),
    {
        rig_api::insert_mcp_result(context, mcp_api::clone_result(&result));
        if let Some(structured) = mcp_api::result_structured(&result) {
            rig_api::insert_structured(context, structured);
        }
        if let Some(meta) = mcp_api::result_meta(&result) {
            rig_api::insert_meta(context, meta);
        }
        let output = match mcp_result_output(&result) {
            Ok(output) => output,
            Err(error) => return Err(error),
        };
        let is_error = match mcp_api::result_is_error(&result) {
            Some(flag) => flag,
            None => false,
        };
        if is_error {
            let message = text::join(&result_texts(&result), "\n");
            return Err(ToolError::McpDenied { message, output });
        }
        Ok(output)
    }

    /// Ends a call with what came of the request: no response, a response of
    /// another kind, or a result.
    pub fn finish(
        &self,
        context: &mut ToolContext,
        outcome: Result<Option<CallToolResult>, ServiceError>,
    ) -> (r: Result<ToolOutput, ToolError>)
        ensures
            match outcome {
                Err(error) => {
                    &&& r is Err
                    &&& r->Err_0.model() == service_error(mcp_api::service_fault_of(error))
                    &&& *final(context) == *old(context)
                },
                Ok(None) => {
                    &&& r is Err
                    &&& r->Err_0.model() == authority::Fault::Operation("unexpected MCP response"@)
                    &&& *final(context) == *old(context)
                },
                Ok(Some(result)) => {
                    &&& answers(answered(mcp_api::result_of(result)), r)
                    &&& rig_api::context_of(*final(context)) == with_result(
                        rig_api::context_of(*old(context)),
                        mcp_api::result_of(result),
                    )
                },
            },
    {
        match outcome {
            Err(error) => Err(map_service_error(error)),
            Ok(None) => Err(ToolError::Operation("unexpected MCP response".to_owned())),
            Ok(Some(result)) => self.accept(context, result),
        }
    }
}

}
