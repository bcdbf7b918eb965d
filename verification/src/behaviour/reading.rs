//! Remote reads: what a request carries, when a result is a failure, and what the model
//! is shown of it.

use crate::authority;
use crate::authority::{Fault, Reported, ToolError};
use crate::behaviour::guarding;
use crate::json;
use crate::json::Json;
use crate::mcp_api;
use crate::mcp_api::{ContentModel, ResultModel};
use crate::rig_api;
use crate::rig_api::Block;
use crate::tenuo_api;
use crate::tenuo_api::GuardFault;
use crate::text;
use crate::tools::incident_mcp;
use crate::tools::incident_mcp::{IncidentArgs, RemoteReadIncident};
use crate::tools::ToolArguments;
use rig::tool::{ToolContext, ToolOutput};
use rmcp::model::{CallToolRequestParams, CallToolResult};
use rmcp::service::ServiceError;
use serde_json::Value;
use tenuo::sdk::prelude::{AuthorizedCall, DecisionMetadata};
use vstd::prelude::*;

verus! {

// ------------------------------------------------------------------- the request

/// A request is made exactly where the guard allowed the call, of the envelope that was
/// made for it: it asks for the incident that was checked, and carries that envelope
/// under its one key and nothing else. Where none is made, the guard denied the call.
pub proof fn law_guard_decides_the_request(
    tool: &RemoteReadIncident,
    context: &mut ToolContext,
    args: &IncidentArgs,
    r: Reported<CallToolRequestParams>,
)
    requires
        call_ensures(RemoteReadIncident::request, (tool, context, args), r),
    ensures
        ({
            let before = rig_api::context_of(*old(context));
            let after = rig_api::context_of(*final(context));
            let entries = map!["incident_id"@ => Json::Text(args.incident_id@)];
            let failure = authority::failure_in(r.result);
            let lines = text::views(r.lines@);
            &&& if guarding::reaches_guard(before, "read_incident"@, Json::Object(entries)) {
                exists|outcome: Result<(Value, DecisionMetadata), GuardFault<ToolError>>|
                    #[trigger]
                    authority::guard_gave(
                        before,
                        "read_incident"@,
                        Json::Object(entries),
                        incident_mcp::make_envelope,
                        outcome,
                    ) && guarding::comes_of(
                        before,
                        after,
                        "read_incident"@,
                        Json::Object(entries),
                        outcome,
                        failure,
                        lines,
                    ) && (outcome matches Ok(pair) ==> mcp_api::request_of(r.result->Ok_0).meta
                        == Some(
                        map!["ai.tenuo/authorization"@ => json::json_of(pair.0)],
                    ))
            } else {
                guarding::is_stopped(
                    before,
                    after,
                    "read_incident"@,
                    Json::Object(entries),
                    failure,
                    lines,
                )
            }
            &&& r.result matches Ok(params) ==> mcp_api::request_of(params).tool
                == "read_incident"@ && mcp_api::request_of(params).arguments == Some(entries)
        }),
{
    let before = rig_api::context_of(*old(context));
    let after = rig_api::context_of(*final(context));
    let lines = text::views(r.lines@);
    let asked = args.json();
    match r.result {
        Ok(params) => {
            let envelope = choose|envelope: Value|
                #![trigger json::json_of(envelope)]
                authority::follows_guard(
                    before,
                    after,
                    "read_incident"@,
                    asked,
                    incident_mcp::make_envelope,
                    Ok(envelope),
                    lines,
                ) && mcp_api::request_of(params).meta == Some(
                    Map::empty().insert("ai.tenuo/authorization"@, json::json_of(envelope)),
                );
            guarding::lemma_guarded(
                before,
                after,
                "read_incident"@,
                asked,
                incident_mcp::make_envelope,
                Ok(envelope),
                lines,
            );
        },
        Err(error) => guarding::lemma_guarded(
            before,
            after,
            "read_incident"@,
            asked,
            incident_mcp::make_envelope,
            Err(error),
            lines,
        ),
    }
}

/// An envelope is the one that was written for the call, and where none could be written
/// the reason is told; where the call needs no approvals, it can be, and holds the chain
/// and the proof of the call.
pub proof fn law_envelope_holds_the_call(call: &AuthorizedCall<'_>, r: Result<Value, ToolError>)
    requires
        call_ensures(incident_mcp::make_envelope, (call,), r),
    ensures
        r matches Ok(envelope) ==> incident_mcp::was_encoded(*call, Ok(envelope)),
        r matches Err(error) ==> error matches ToolError::Operation(reason)
            && incident_mcp::was_encoded(*call, Err(reason)),
        tenuo_api::authorized_of(*call).approvals == 0 ==> {
            &&& r is Ok
            &&& !tenuo_api::is_lone(json::json_of(r->Ok_0))
            &&& tenuo_api::envelope_holds(
                json::json_of(r->Ok_0),
                tenuo_api::authorized_of(*call).chain,
            )
            &&& tenuo_api::decoded(json::json_of(r->Ok_0)) is Ok ==> tenuo_api::decoded_proof(
                json::json_of(r->Ok_0),
            ) == tenuo_api::authorized_of(*call).proof_bytes
        },
{
}

// ------------------------------------------------------------------- the result

/// Whether every block of a result can be written.
pub open spec fn is_writable(result: ResultModel) -> bool {
    forall|i: int| 0 <= i < result.content.len() ==> !((#[trigger] result.content[i]) is Unwritable)
}

/// The texts among the blocks of a result, in order.
pub open spec fn text_blocks(content: Seq<ContentModel>) -> Seq<Seq<char>> {
    content.filter(|c: ContentModel| c is Text).map_values(|c: ContentModel| c->Text_0)
}

/// Whether this is what is shown of a result: the structured content first, then each
/// block in its place, a text as that text and any other as the JSON value it is written
/// as; and one empty text where there is nothing.
pub open spec fn shows(output: Seq<Block>, result: ResultModel) -> bool {
    let lead: int = if result.structured is Some {
        1
    } else {
        0
    };
    if lead + result.content.len() == 0 {
        output == seq![Block::Text(""@)]
    } else {
        &&& output.len() == lead + result.content.len()
        &&& result.structured matches Some(value) ==> output[0] == Block::Json(value)
        &&& forall|i: int|
            0 <= i < result.content.len() ==> match #[trigger] result.content[i] {
                ContentModel::Text(text) => output[lead + i] == Block::Text(text),
                ContentModel::Value(value) => output[lead + i] == Block::Json(value),
                ContentModel::Unwritable(_) => true,
            }
    }
}

/// Whether this is the first reason why a block of a result cannot be written.
pub open spec fn is_first_reason(content: Seq<ContentModel>, reason: Seq<char>) -> bool {
    exists|i: int|
        0 <= i < content.len() && #[trigger] content[i] == ContentModel::Unwritable(reason)
            && forall|j: int| 0 <= j < i ==> !((#[trigger] content[j]) is Unwritable)
}

/// What a result must come to: where it can be written, a denial with its texts on lines
/// of their own exactly where it is flagged as an error, and else what it shows; and where
/// it cannot be written, the first reason.
pub open spec fn is_answer(result: ResultModel, r: Result<ToolOutput, ToolError>) -> bool {
    if is_writable(result) {
        match r {
            Ok(output) => result.is_error != Some(true) && shows(
                rig_api::output_of(output),
                result,
            ),
            Err(error) => {
                &&& result.is_error == Some(true)
                &&& error.model() matches Fault::McpDenied { message, output }
                &&& message == text::joined(text_blocks(result.content), "\n"@)
                &&& shows(output, result)
            },
        }
    } else {
        &&& r matches Err(error)
        &&& exists|reason: Seq<char>| #[trigger]
            is_first_reason(result.content, reason) && error.model() == Fault::Operation(
                "serialize MCP content: "@ + reason,
            )
    }
}

/// A reason is found exactly where there is one, and the first one is.
proof fn lemma_first_unwritable(content: Seq<ContentModel>)
    ensures
        incident_mcp::first_unwritable(content) is None <==> forall|i: int|
            0 <= i < content.len() ==> !((#[trigger] content[i]) is Unwritable),
        incident_mcp::first_unwritable(content) matches Some(reason) ==> is_first_reason(
            content,
            reason,
        ),
    decreases content.len(),
{
    if content.len() > 0 {
        let front = content.drop_last();
        lemma_first_unwritable(front);
        assert forall|i: int| 0 <= i < front.len() implies #[trigger] front[i] == content[i] by {}
        let n = content.len() - 1;
        if incident_mcp::first_unwritable(front) is None {
            assert forall|j: int| 0 <= j < n implies !((#[trigger] content[j]) is Unwritable) by {
                assert(!(front[j] is Unwritable));
            }
            if incident_mcp::first_unwritable(content) is Some {
                assert(content[n] is Unwritable);
            }
        } else {
            let reason = incident_mcp::first_unwritable(front)->Some_0;
            let i = choose|i: int|
                0 <= i < front.len() && #[trigger] front[i] == ContentModel::Unwritable(reason)
                    && forall|j: int| 0 <= j < i ==> !((#[trigger] front[j]) is Unwritable);
            assert(content[i] == ContentModel::Unwritable(reason));
            assert forall|j: int| 0 <= j < i implies !((#[trigger] content[j]) is Unwritable) by {
                assert(!(front[j] is Unwritable));
            }
        }
    }
}

/// The texts that are collected are the text blocks.
proof fn lemma_texts(content: Seq<ContentModel>)
    ensures
        incident_mcp::texts(content) == text_blocks(content),
    decreases content.len(),
{
    reveal(Seq::filter);
    if content.len() > 0 {
        lemma_texts(content.drop_last());
        assert(incident_mcp::texts(content) =~= text_blocks(content));
    } else {
        assert(text_blocks(content) =~= Seq::empty());
    }
}

/// What is made of a result is what it must come to.
proof fn lemma_answer(result: ResultModel, r: Result<ToolOutput, ToolError>)
    requires
        incident_mcp::answers(incident_mcp::answered(result), r),
    ensures
        is_answer(result, r),
{
    lemma_first_unwritable(result.content);
    lemma_texts(result.content);
    assert(shows(incident_mcp::shown_blocks(result), result));
}

/// What the host finds after a result came: the whole result, its structured content and
/// its metadata, with what was found before in place of what the result does not have.
pub open spec fn is_kept(
    before: rig_api::ContextModel,
    after: rig_api::ContextModel,
    result: ResultModel,
) -> bool {
    &&& after.mcp_result == Some(result)
    &&& result.structured is Some ==> after.structured == result.structured
    &&& result.structured is None ==> after.structured == before.structured
    &&& result.meta is Some ==> after.meta == result.meta
    &&& result.meta is None ==> after.meta == before.meta
    &&& after.authority == before.authority
    &&& after.decision == before.decision
    &&& after.others == before.others
}

/// A result is a failure exactly where it is flagged as one, however many blocks it has:
/// it is then a denial whose message is its texts, joined by line feeds, and which shows
/// all of it. Any other result that can be written is an output that shows all of it. The
/// host finds the result either way.
pub proof fn law_result_fails_where_it_is_flagged(
    tool: &RemoteReadIncident,
    context: &mut ToolContext,
    result: CallToolResult,
    r: Result<ToolOutput, ToolError>,
)
    requires
        call_ensures(RemoteReadIncident::accept, (tool, context, result), r),
    ensures
        is_answer(mcp_api::result_of(result), r),
        is_writable(mcp_api::result_of(result)) ==> (r is Err <==> mcp_api::result_of(
            result,
        ).is_error == Some(true)),
        is_kept(
            rig_api::context_of(*old(context)),
            rig_api::context_of(*final(context)),
            mcp_api::result_of(result),
        ),
{
    lemma_answer(mcp_api::result_of(result), r);
}

/// A call ends with what came of its request: a result is made what it must come to, a
/// response of another kind and a failed request are failed operations, and a request that
/// took too long is a timeout. Only a result leaves anything for the host.
pub proof fn law_calls_end_with_what_came(
    tool: &RemoteReadIncident,
    context: &mut ToolContext,
    outcome: Result<Option<CallToolResult>, ServiceError>,
    r: Result<ToolOutput, ToolError>,
)
    requires
        call_ensures(RemoteReadIncident::finish, (tool, context, outcome), r),
    ensures
        match outcome {
            Ok(Some(result)) => {
                &&& is_answer(mcp_api::result_of(result), r)
                &&& is_kept(
                    rig_api::context_of(*old(context)),
                    rig_api::context_of(*final(context)),
                    mcp_api::result_of(result),
                )
            },
            Ok(None) => {
                &&& r matches Err(error)
                &&& error.model() == Fault::Operation("unexpected MCP response"@)
                &&& *final(context) == *old(context)
            },
            Err(fault) => {
                &&& r matches Err(error)
                &&& is_failed_request(mcp_api::service_fault_of(fault), error.model())
                &&& *final(context) == *old(context)
            },
        },
{
    if let Ok(Some(result)) = outcome {
        lemma_answer(mcp_api::result_of(result), r);
    }
}

/// What a failed request must come to: a timeout where it took too long, and else a failed
/// operation, each with the text of the failure.
pub open spec fn is_failed_request(fault: mcp_api::ServiceFaultModel, error: Fault) -> bool {
    match fault.waited {
        Some(waited) => error == Fault::Timeout("MCP call exceeded "@ + waited),
        None => error == Fault::Operation("MCP request failed: "@ + fault.text),
    }
}

/// A request that took too long is a timeout, and any other that failed is a failed
/// operation.
pub proof fn law_failed_requests_are_told_apart(fault: ServiceError, r: ToolError)
    requires
        call_ensures(incident_mcp::map_service_error, (fault,), r),
    ensures
        is_failed_request(mcp_api::service_fault_of(fault), r.model()),
        r is Timeout <==> mcp_api::service_fault_of(fault).waited is Some,
{
}

/// What is shown of a result is all of it, or the first reason why it cannot be written.
pub proof fn law_results_are_shown_or_cannot_be_written(
    result: &CallToolResult,
    r: Result<ToolOutput, ToolError>,
)
    requires
        call_ensures(incident_mcp::mcp_result_output, (result,), r),
    ensures
        r is Ok <==> is_writable(mcp_api::result_of(*result)),
        r matches Ok(output) ==> shows(
            rig_api::output_of(output),
            mcp_api::result_of(*result),
        ),
        r matches Err(error) ==> exists|reason: Seq<char>| #[trigger]
            is_first_reason(mcp_api::result_of(*result).content, reason) && error.model()
                == Fault::Operation("serialize MCP content: "@ + reason),
{
    let model = mcp_api::result_of(*result);
    lemma_first_unwritable(model.content);
    assert(shows(incident_mcp::shown_blocks(model), model));
}

/// A denial of one text, as the server sends it, is a denial with that text as its
/// message and as all that is shown.
pub proof fn law_denial_of_one_text_is_a_denial(
    tool: &RemoteReadIncident,
    context: &mut ToolContext,
    result: CallToolResult,
    text: Seq<char>,
    r: Result<ToolOutput, ToolError>,
)
    requires
        call_ensures(RemoteReadIncident::accept, (tool, context, result), r),
        mcp_api::result_of(result).content == seq![ContentModel::Text(text)],
        mcp_api::result_of(result).structured is None,
        mcp_api::result_of(result).is_error == Some(true),
    ensures
        r is Err,
        r->Err_0.model() == (Fault::McpDenied { message: text, output: seq![Block::Text(text)] }),
{
    let model = mcp_api::result_of(result);
    lemma_answer(model, r);
    reveal_with_fuel(incident_mcp::texts, 2);
    assert(model.content.drop_last() =~= Seq::empty());
    assert(incident_mcp::texts(model.content) =~= seq![text]);
    assert(incident_mcp::shown_blocks(model) =~= seq![Block::Text(text)]);
}

/// How long a request may take, and the key that its envelope stands under.
pub proof fn law_terms_of_a_request()
    ensures
        incident_mcp::MCP_CALL_TIMEOUT_SECS == 30,
        incident_mcp::TENUO_META_KEY@ == "ai.tenuo/authorization"@,
        RemoteReadIncident::NAME@ == "read_incident"@,
{
}

}
