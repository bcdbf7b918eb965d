//! Guarded calls: the guard decides them, and nothing else does.

use crate::authority;
use crate::authority::{Fault, Reported, ToolError};
use crate::json;
use crate::json::Json;
use crate::rig_api;
use crate::tenuo_api;
use crate::tenuo_api::GuardFault;
use crate::text;
use crate::tools::incident_mcp::IncidentArgs;
use crate::tools::read_incident::ReadIncident;
use crate::tools::scale_cluster::{ScaleArgs, ScaleCluster};
use crate::tools::ToolArguments;
use rig::tool::ToolContext;
use serde_json::Value;
use tenuo::sdk::prelude::{AuthorizedCall, DecisionMetadata};
use vstd::prelude::*;

verus! {

/// Whether nothing keeps the guard from being asked: the context holds an authority, the
/// value makes arguments, and the depths of the chain can be counted.
pub open spec fn reaches_guard(
    before: rig_api::ContextModel,
    capability: Seq<char>,
    args: Json,
) -> bool {
    &&& before.authority matches Some(run) && (run.chain.len() <= 1 || run.chain[0].depth
        < u32::MAX)
    &&& tenuo_api::argument_fault(capability, args) is None
}

/// What an answer of the guard must come to: an allowed call does not fail and leaves the
/// guard's record of the decision and nothing else, a denied one fails with the guard's
/// own code and message, and each has its one line in the transcript.
pub open spec fn comes_of<T>(
    before: rig_api::ContextModel,
    after: rig_api::ContextModel,
    capability: Seq<char>,
    args: Json,
    outcome: Result<(T, DecisionMetadata), GuardFault<ToolError>>,
    failure: Option<Fault>,
    lines: Seq<Seq<char>>,
) -> bool {
    let name = text::padded(before.authority->Some_0.agent, 14);
    let subject = name + " "@ + capability + " "@ + json::json_text(args);
    match outcome {
        Ok(pair) => {
            &&& failure is None
            &&& after == (rig_api::ContextModel {
                decision: Some(tenuo_api::decision_of(pair.1)),
                ..before
            })
            &&& lines == seq!["      [tenuo] allow  "@ + subject]
        },
        Err(GuardFault::Denied { code, message }) => {
            &&& failure == Some(Fault::Denied { code: code@, message: message@ })
            &&& after == before
            &&& lines == seq!["      [tenuo] deny   "@ + subject + "  ("@ + code@ + ")"@]
        },
        Err(GuardFault::Operation(error)) => {
            &&& failure == Some(error.model())
            &&& after == before
            &&& lines == seq![
                "      [tenuo] error  "@ + name + " "@ + capability + ": "@ + authority::fault_text(
                    error.model(),
                ),
            ]
        },
        Err(GuardFault::Other) => {
            &&& failure == Some(Fault::Denied { code: "denied"@, message: "denied"@ })
            &&& after == before
            &&& lines == seq!["      [tenuo] deny   "@ + subject + "  ("@ + "denied"@ + ")"@]
        },
    }
}

/// What a call must come to where the guard is not asked: no authority comes first, then
/// a value that makes no arguments, then a chain that is too deep.
pub open spec fn is_stopped(
    before: rig_api::ContextModel,
    after: rig_api::ContextModel,
    capability: Seq<char>,
    args: Json,
    failure: Option<Fault>,
    lines: Seq<Seq<char>>,
) -> bool {
    &&& after == before
    &&& if before.authority is None {
        failure == Some(Fault::NoAuthority) && lines.len() == 0
    } else {
        match tenuo_api::argument_fault(capability, args) {
            Some(reason) => failure == Some(Fault::Arguments(reason)) && lines.len() == 0,
            None => {
                &&& failure == Some(Fault::Denied { code: "denied"@, message: "denied"@ })
                &&& lines == seq![
                    "      [tenuo] deny   "@ + text::padded(before.authority->Some_0.agent, 14)
                        + " "@ + capability + " "@ + json::json_text(args) + "  ("@ + "denied"@
                        + ")"@,
                ]
            },
        }
    }
}

/// Every answer of the guard is settled as it must be.
proof fn lemma_settlement<T>(
    before: rig_api::ContextModel,
    after: rig_api::ContextModel,
    capability: Seq<char>,
    args: Json,
    outcome: Result<(T, DecisionMetadata), GuardFault<ToolError>>,
    failure: Option<Fault>,
    lines: Seq<Seq<char>>,
)
    requires
        authority::is_settlement(before, after, capability, args, outcome, failure, lines),
    ensures
        comes_of(before, after, capability, args, outcome, failure, lines),
{
    let name = text::padded(before.authority->Some_0.agent, 14);
    let summary = json::json_text(args);
    let subject = name + " "@ + capability + " "@ + summary;
    assert("      [tenuo] allow  "@ + name + " "@ + capability + " "@ + summary
        =~= "      [tenuo] allow  "@ + subject);
    assert("      [tenuo] deny   "@ + name + " "@ + capability + " "@ + summary
        =~= "      [tenuo] deny   "@ + subject);
}

/// A guarded call is decided by the guard and by nothing else: there is an answer that
/// the guard itself gave to this call, and the result, the context and the line are what
/// this answer must come to. What the guard allows returns what the operation returned.
pub proof fn law_guard_decides<T, F: FnOnce(&AuthorizedCall<'_>) -> Result<T, ToolError>>(
    context: &mut ToolContext,
    capability: &str,
    value: &Value,
    op: F,
    r: Reported<T>,
)
    requires
        call_ensures(authority::guarded_value::<T, F>, (context, capability, value, op), r),
    ensures
        ({
            let before = rig_api::context_of(*old(context));
            let after = rig_api::context_of(*final(context));
            let args = json::json_of(*value);
            let failure = authority::failure_in(r.result);
            let lines = text::views(r.lines@);
            if reaches_guard(before, capability@, args) {
                exists|outcome: Result<(T, DecisionMetadata), GuardFault<ToolError>>| #[trigger]
                    authority::guard_gave(before, capability@, args, op, outcome) && comes_of(
                        before,
                        after,
                        capability@,
                        args,
                        outcome,
                        failure,
                        lines,
                    ) && (outcome matches Ok(pair) ==> r.result == Ok::<T, ToolError>(pair.0)) && (
                    outcome matches Err(GuardFault::Operation(error)) ==> r.result == Err::<
                        T,
                        ToolError,
                    >(error))
            } else {
                is_stopped(before, after, capability@, args, failure, lines)
            }
        }),
{
    let before = rig_api::context_of(*old(context));
    let after = rig_api::context_of(*final(context));
    lemma_guarded(
        before,
        after,
        capability@,
        json::json_of(*value),
        op,
        r.result,
        text::views(r.lines@),
    );
}

/// A call that goes as the guard has it comes to what the guard's answer must come to.
pub(crate) proof fn lemma_guarded<T, F: FnOnce(&AuthorizedCall<'_>) -> Result<T, ToolError>>(
    before: rig_api::ContextModel,
    after: rig_api::ContextModel,
    capability: Seq<char>,
    args: Json,
    op: F,
    result: Result<T, ToolError>,
    lines: Seq<Seq<char>>,
)
    requires
        authority::follows_guard(before, after, capability, args, op, result, lines),
        authority::guarded_report(
            before,
            after,
            capability,
            args,
            authority::failure_in(result),
            lines,
        ),
    ensures
        reaches_guard(before, capability, args) ==> exists|
            outcome: Result<(T, DecisionMetadata), GuardFault<ToolError>>,
        | #[trigger]
            authority::guard_gave(before, capability, args, op, outcome) && comes_of(
                before,
                after,
                capability,
                args,
                outcome,
                authority::failure_in(result),
                lines,
            ) && (outcome matches Ok(pair) ==> result == Ok::<T, ToolError>(pair.0)) && (
            outcome matches Err(GuardFault::Operation(error)) ==> result == Err::<T, ToolError>(
                error,
            )),
        !reaches_guard(before, capability, args) ==> is_stopped(
            before,
            after,
            capability,
            args,
            authority::failure_in(result),
            lines,
        ),
{
    if reaches_guard(before, capability, args) {
        let outcome = choose|outcome: Result<(T, DecisionMetadata), GuardFault<ToolError>>|
            #[trigger] authority::guard_gave(before, capability, args, op, outcome)
                && authority::is_settlement(
                before,
                after,
                capability,
                args,
                outcome,
                authority::failure_in(result),
                lines,
            ) && (outcome matches Ok(pair) ==> result == Ok::<T, ToolError>(pair.0)) && (
            outcome matches Err(GuardFault::Operation(error)) ==> result == Err::<T, ToolError>(
                error,
            ));
        lemma_settlement(
            before,
            after,
            capability,
            args,
            outcome,
            authority::failure_in(result),
            lines,
        );
        assert(authority::guard_gave(before, capability, args, op, outcome));
    }
}

/// As for a JSON value, so for arguments that are written as one: the guard decides them.
pub proof fn law_guard_decides_over_arguments<
    A: ToolArguments,
    T,
    F: FnOnce(&AuthorizedCall<'_>) -> Result<T, ToolError>,
>(context: &mut ToolContext, capability: &str, args: &A, op: F, r: Reported<T>)
    requires
        call_ensures(authority::guarded::<A, T, F>, (context, capability, args, op), r),
    ensures
        ({
            let before = rig_api::context_of(*old(context));
            let after = rig_api::context_of(*final(context));
            let failure = authority::failure_in(r.result);
            let lines = text::views(r.lines@);
            if reaches_guard(before, capability@, args.json()) {
                exists|outcome: Result<(T, DecisionMetadata), GuardFault<ToolError>>| #[trigger]
                    authority::guard_gave(before, capability@, args.json(), op, outcome)
                        && comes_of(
                        before,
                        after,
                        capability@,
                        args.json(),
                        outcome,
                        failure,
                        lines,
                    ) && (outcome matches Ok(pair) ==> r.result == Ok::<T, ToolError>(pair.0)) && (
                    outcome matches Err(GuardFault::Operation(error)) ==> r.result == Err::<
                        T,
                        ToolError,
                    >(error))
            } else {
                is_stopped(before, after, capability@, args.json(), failure, lines)
            }
        }),
{
    lemma_guarded(
        rig_api::context_of(*old(context)),
        rig_api::context_of(*final(context)),
        capability@,
        args.json(),
        op,
        r.result,
        text::views(r.lines@),
    );
}

/// Arguments that could not be written stop a call with the reason, before anything is
/// looked at; written ones are decided by the guard.
pub proof fn law_guard_decides_over_written_arguments<
    T,
    F: FnOnce(&AuthorizedCall<'_>) -> Result<T, ToolError>,
>(
    context: &mut ToolContext,
    capability: &str,
    serialized: Result<Value, String>,
    op: F,
    r: Reported<T>,
)
    requires
        call_ensures(
            authority::guarded_serialized::<T, F>,
            (context, capability, serialized, op),
            r,
        ),
    ensures
        ({
            let before = rig_api::context_of(*old(context));
            let after = rig_api::context_of(*final(context));
            let failure = authority::failure_in(r.result);
            let lines = text::views(r.lines@);
            match serialized {
                Err(reason) => after == before && lines.len() == 0 && failure == Some(
                    Fault::Arguments(reason@),
                ),
                Ok(value) => if reaches_guard(before, capability@, json::json_of(value)) {
                    exists|outcome: Result<(T, DecisionMetadata), GuardFault<ToolError>>|
                        #[trigger]
                        authority::guard_gave(
                            before,
                            capability@,
                            json::json_of(value),
                            op,
                            outcome,
                        ) && comes_of(
                            before,
                            after,
                            capability@,
                            json::json_of(value),
                            outcome,
                            failure,
                            lines,
                        ) && (outcome matches Ok(pair) ==> r.result == Ok::<T, ToolError>(pair.0))
                            && (outcome matches Err(GuardFault::Operation(error)) ==> r.result
                            == Err::<T, ToolError>(error))
                } else {
                    is_stopped(before, after, capability@, json::json_of(value), failure, lines)
                },
            }
        }),
{
    if let Ok(value) = serialized {
        lemma_guarded(
            rig_api::context_of(*old(context)),
            rig_api::context_of(*final(context)),
            capability@,
            json::json_of(value),
            op,
            r.result,
            text::views(r.lines@),
        );
    }
}

/// Whether a call failed, or not, as the guard alone decided it.
pub open spec fn is_decided_by_guard(
    before: rig_api::ContextModel,
    after: rig_api::ContextModel,
    capability: Seq<char>,
    args: Json,
    failure: Option<Fault>,
    lines: Seq<Seq<char>>,
) -> bool {
    if reaches_guard(before, capability, args) {
        exists|outcome: Result<((), DecisionMetadata), GuardFault<ToolError>>| #[trigger]
            authority::guard_gave(before, capability, args, authority::proceed, outcome)
                && comes_of(before, after, capability, args, outcome, failure, lines)
    } else {
        is_stopped(before, after, capability, args, failure, lines)
    }
}

/// A call that follows the guard's decision is decided by the guard.
pub(crate) proof fn lemma_decided(
    before: rig_api::ContextModel,
    after: rig_api::ContextModel,
    capability: Seq<char>,
    args: Json,
    failure: Option<Fault>,
    lines: Seq<Seq<char>>,
)
    requires
        authority::follows_decision(before, after, capability, args, failure, lines),
        reaches_guard(before, capability, args) || authority::guarded_report(
            before,
            after,
            capability,
            args,
            failure,
            lines,
        ),
    ensures
        is_decided_by_guard(before, after, capability, args, failure, lines),
{
    if reaches_guard(before, capability, args) {
        let outcome = choose|outcome: Result<((), DecisionMetadata), GuardFault<ToolError>>|
            #[trigger]
            authority::guard_gave(before, capability, args, authority::proceed, outcome)
                && authority::is_settlement(
                before,
                after,
                capability,
                args,
                outcome,
                failure,
                lines,
            );
        lemma_settlement(before, after, capability, args, outcome, failure, lines);
        assert(authority::guard_gave(before, capability, args, authority::proceed, outcome));
    }
}

/// Scaling fails exactly where the guard denied it, over the cluster and the count that
/// were asked for, and otherwise says which cluster was scaled to which count.
pub proof fn law_guard_decides_scaling(
    tool: &ScaleCluster,
    context: &mut ToolContext,
    args: &ScaleArgs,
    r: Reported<String>,
)
    requires
        call_ensures(ScaleCluster::call, (tool, context, args), r),
    ensures
        is_decided_by_guard(
            rig_api::context_of(*old(context)),
            rig_api::context_of(*final(context)),
            "scale_cluster"@,
            Json::Object(
                map![
                    "cluster"@ => Json::Text(args.cluster@),
                    "replicas"@ => Json::Integer(args.replicas as int),
                ],
            ),
            authority::failure_in(r.result),
            text::views(r.lines@),
        ),
        r.result matches Ok(reply) ==> reply@ == "scaled "@ + args.cluster@ + " to "@
            + text::signed_decimal(args.replicas as int) + " replicas"@,
{
    lemma_decided(
        rig_api::context_of(*old(context)),
        rig_api::context_of(*final(context)),
        "scale_cluster"@,
        args.json(),
        authority::failure_in(r.result),
        text::views(r.lines@),
    );
}

/// Reading fails exactly where the guard denied it, over the incident that was asked for,
/// and otherwise gives the record of that incident: its whole identifier, and its state.
pub proof fn law_guard_decides_reading(
    tool: &ReadIncident,
    context: &mut ToolContext,
    args: &IncidentArgs,
    r: Reported<String>,
)
    requires
        call_ensures(ReadIncident::call, (tool, context, args), r),
    ensures
        is_decided_by_guard(
            rig_api::context_of(*old(context)),
            rig_api::context_of(*final(context)),
            "read_incident"@,
            Json::Object(map!["incident_id"@ => Json::Text(args.incident_id@)]),
            authority::failure_in(r.result),
            text::views(r.lines@),
        ),
        r.result matches Ok(reply) ==> reply@ == args.incident_id@
            + ": severity=high, status=open, owner=secops"@,
{
    lemma_decided(
        rig_api::context_of(*old(context)),
        rig_api::context_of(*final(context)),
        "read_incident"@,
        args.json(),
        authority::failure_in(r.result),
        text::views(r.lines@),
    );
}

/// What the guard's record of an allowed call says: the capability, and how long the
/// chain is. Nothing else in the context changes.
pub proof fn law_allowed_call_leaves_its_decision(
    before: rig_api::ContextModel,
    after: rig_api::ContextModel,
    capability: Seq<char>,
    args: Json,
    lines: Seq<Seq<char>>,
)
    requires
        authority::guarded_report(before, after, capability, args, None, lines),
    ensures
        before.authority is Some,
        after.decision matches Some(decision) && decision.capability == capability
            && decision.chain_depth == before.authority->Some_0.chain.len(),
        after == (rig_api::ContextModel { decision: after.decision, ..before }),
{
}

/// A fresh context holds the authority of its run and nothing else.
pub proof fn law_fresh_context_holds_the_authority_alone(
    run: &authority::RunAuthority,
    r: ToolContext,
)
    requires
        call_ensures(authority::RunAuthority::context, (run,), r),
    ensures
        rig_api::context_of(r) == (rig_api::ContextModel {
            authority: Some(run.model()),
            others: 0,
            decision: None,
            mcp_result: None,
            structured: None,
            meta: None,
        }),
{
}

}
