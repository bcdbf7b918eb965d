//! What a run carries into every tool call, and the one helper that every tool
//! goes through.
//!
//! A run's authority goes into the context of a tool call once; the tool takes
//! it out again, and a call runs only where the warrant in it allows the call
//! with these arguments.

use crate::grant;
use crate::json;
use crate::rig_api;
use crate::tenuo_api;
use crate::tenuo_api::{DelegationFault, GuardFault};
use crate::text;
use crate::tools::ToolArguments;
use rig::tool::{ToolContext, ToolExecutionError, ToolOutput};
use serde_json::Value;
use std::sync::Arc;
use tenuo::sdk::prelude::{AuthorizedCall, Call, DecisionMetadata, Guard, PresentedAuthority};
use vstd::prelude::*;

verus! {

// ------------------------------------------------------------------- run authority

/// What a run's authority amounts to.
pub ghost struct RunModel {
    /// The root keys that its guard trusts.
    pub roots: Set<Seq<u8>>,
    /// The longest lifetime that its guard accepts.
    pub ceiling: Option<nat>,
    /// How its guard reports denials.
    pub reporting: tenuo_api::Reporting,
    /// The warrants that it presents, root first.
    pub chain: Seq<grant::WarrantModel>,
    /// The name it goes by in the transcript.
    pub agent: Seq<char>,
}

/// Authority for one run: the guard that decides and the chain that the caller
/// holds.
pub struct RunAuthority {
    pub guard: Arc<Guard>,
    pub authority: Arc<PresentedAuthority>,
    pub agent: String,
}

impl RunAuthority {
    /// What this authority amounts to.
    pub open spec fn model(self) -> RunModel {
        RunModel {
            roots: tenuo_api::roots_of(*self.guard),
            ceiling: tenuo_api::ceiling_of(*self.guard),
            reporting: tenuo_api::reporting_of(*self.guard),
            chain: tenuo_api::chain_of(*self.authority),
            agent: self.agent@,
        }
    }

    /// A fresh tool context that carries this authority and nothing else.
    pub fn context(&self) -> (r: ToolContext)
        ensures
            rig_api::context_of(r) == context_with(self.model()),
    {
        let mut context = rig_api::new_context();
        rig_api::insert_authority(&mut context, self.clone());
        context
    }
}

impl Clone for RunAuthority {
    fn clone(&self) -> (r: Self)
        ensures
            r.model() == self.model(),
    {
        RunAuthority {
            guard: self.guard.clone(),
            authority: self.authority.clone(),
            agent: self.agent.clone(),
        }
    }
}

/// A context that holds an authority and nothing else.
pub open spec fn context_with(run: RunModel) -> rig_api::ContextModel {
    rig_api::ContextModel { authority: Some(run), ..rig_api::empty_context() }
}

// ------------------------------------------------------------------- errors

/// Why a guarded tool failed. Denials carry only a code and a message that are
/// safe to show.
#[derive(Debug)]
pub enum ToolError {
    NoAuthority,
    Denied { code: String, message: String },
    Arguments(String),
    Timeout(String),
    Operation(String),
    McpDenied { message: String, output: ToolOutput },
}

/// What a tool error says.
pub ghost enum Fault {
    NoAuthority,
    Denied { code: Seq<char>, message: Seq<char> },
    Arguments(Seq<char>),
    Timeout(Seq<char>),
    Operation(Seq<char>),
    McpDenied { message: Seq<char>, output: Seq<rig_api::Block> },
}

/// `denied (code): message`.
pub open spec fn denial_text(code: Seq<char>, message: Seq<char>) -> Seq<char> {
    "denied ("@ + code + "): "@ + message
}

/// What an operator reads of an error.
pub open spec fn fault_text(fault: Fault) -> Seq<char> {
    match fault {
        Fault::NoAuthority => "no authority in tool context"@,
        Fault::Denied { code, message } => denial_text(code, message),
        Fault::Arguments(message) => "invalid arguments: "@ + message,
        Fault::Timeout(message) => "operation timed out: "@ + message,
        Fault::Operation(message) => "operation failed: "@ + message,
        Fault::McpDenied { message, .. } => "MCP tool denied the call: "@ + message,
    }
}

/// How an error is put to the agent runtime.
pub open spec fn execution_failure(fault: Fault) -> rig_api::FailureModel {
    match fault {
        Fault::NoAuthority => refusal(
            "denied (missing-authority): no authority was provided"@,
            "missing-authority"@,
        ),
        Fault::Denied { code, message } => refusal(denial_text(code, message), code),
        Fault::Arguments(message) => rig_api::new_failure(
            rig_api::FailureKind::InvalidArgs,
            message,
            Some(false),
        ),
        Fault::Timeout(message) => rig_api::new_failure(
            rig_api::FailureKind::Timeout,
            message,
            Some(true),
        ),
        Fault::Operation(message) => rig_api::FailureModel {
            output: seq![rig_api::Block::Text("the tool's upstream operation failed"@)],
            ..rig_api::new_failure(rig_api::FailureKind::Provider, message, None)
        },
        Fault::McpDenied { message, output } => rig_api::FailureModel {
            output,
            ..refusal(message, "mcp-tool-error"@)
        },
    }
}

/// A refusal under a code, whose message the model is shown.
pub open spec fn refusal(message: Seq<char>, code: Seq<char>) -> rig_api::FailureModel {
    rig_api::FailureModel {
        code: Some(code),
        refusal: true,
        ..rig_api::new_failure(rig_api::FailureKind::PermissionDenied, message, Some(false))
    }
}

/// Writes `denied (code): message`.
pub fn denial_message(code: &str, message: &str) -> (r: String)
    ensures
        r@ == denial_text(code@, message@),
{
    let mut out = "denied (".to_owned();
    out.append(code);
    out.append("): ");
    out.append(message);
    out
}

impl ToolError {
    /// What this error says.
    pub open spec fn model(self) -> Fault {
        match self {
            ToolError::NoAuthority => Fault::NoAuthority,
            ToolError::Denied { code, message } => Fault::Denied {
                code: code@,
                message: message@,
            },
            ToolError::Arguments(message) => Fault::Arguments(message@),
            ToolError::Timeout(message) => Fault::Timeout(message@),
            ToolError::Operation(message) => Fault::Operation(message@),
            ToolError::McpDenied { message, output } => Fault::McpDenied {
                message: message@,
                output: rig_api::output_of(output),
            },
        }
    }

    /// Puts this error to the agent runtime: denials are refusals that the model
    /// is shown, and what failed further on is kept from it.
    pub fn into_execution_error(self) -> (r: ToolExecutionError)
        ensures
            rig_api::failure_of(r) == execution_failure(self.model()),
    {
        match self {
            ToolError::NoAuthority => rig_api::with_code(
                rig_api::refused("denied (missing-authority): no authority was provided"),
                "missing-authority",
            ),
            ToolError::Denied { code, message } => {
                let text = denial_message(code.as_str(), message.as_str());
                rig_api::with_code(rig_api::refused(text.as_str()), code.as_str())
            },
            ToolError::Arguments(message) => rig_api::invalid_args(message.as_str()),
            ToolError::Timeout(message) => rig_api::timeout(message.as_str()),
            ToolError::Operation(message) => rig_api::with_model_feedback(
                rig_api::provider(message.as_str()),
                "the tool's upstream operation failed",
            ),
            ToolError::McpDenied { message, output } => rig_api::with_model_output(
                rig_api::with_code(rig_api::refused(message.as_str()), "mcp-tool-error"),
                output,
            ),
        }
    }

    /// What an operator reads of this error.
    pub fn to_text(&self) -> (r: String)
        ensures
            r@ == fault_text(self.model()),
    {
        let (mut out, detail) = match self {
            ToolError::NoAuthority => return "no authority in tool context".to_owned(),
            ToolError::Denied { code, message } => return denial_message(
                code.as_str(),
                message.as_str(),
            ),
            ToolError::Arguments(message) => ("invalid arguments: ".to_owned(), message),
            ToolError::Timeout(message) => ("operation timed out: ".to_owned(), message),
            ToolError::Operation(message) => ("operation failed: ".to_owned(), message),
            ToolError::McpDenied { message, .. } => (
                "MCP tool denied the call: ".to_owned(),
                message,
            ),
        };
        out.append(detail.as_str());
        out
    }
}

/// What becomes of a failed delegation.
pub open spec fn delegation_fault(fault: DelegationFault) -> Fault {
    match fault {
        DelegationFault::Denied { code, message } => Fault::Denied {
            code: code@,
            message: message@,
        },
        DelegationFault::Core { code, message } => Fault::Denied { code: code@, message: message@ },
        DelegationFault::Other(text) => Fault::Operation("delegate: "@ + text@),
    }
}

/// Keeps policy denials and their codes, and keeps failures of signers and of
/// authority construction out of what the model is shown.
pub fn map_delegation_error(error: DelegationFault) -> (r: ToolError)
    ensures
        r.model() == delegation_fault(error),
{
    match error {
        DelegationFault::Denied { code, message } => ToolError::Denied { code, message },
        DelegationFault::Core { code, message } => ToolError::Denied { code, message },
        DelegationFault::Other(text) => {
            let mut out = "delegate: ".to_owned();
            out.append(text.as_str());
            ToolError::Operation(out)
        },
    }
}

// ------------------------------------------------------------------- guarded calls

/// What a call gave, and the lines that it adds to the transcript.
pub struct Reported<T> {
    pub result: Result<T, ToolError>,
    pub lines: Vec<String>,
}

/// The transcript line of an allowed call.
pub open spec fn allow_line(agent: Seq<char>, capability: Seq<char>, summary: Seq<char>) -> Seq<
    char,
> {
    "      [tenuo] allow  "@ + text::padded(agent, 14) + " "@ + capability + " "@ + summary
}

/// The transcript line of a denied call.
pub open spec fn deny_line(
    agent: Seq<char>,
    capability: Seq<char>,
    summary: Seq<char>,
    code: Seq<char>,
) -> Seq<char> {
    "      [tenuo] deny   "@ + text::padded(agent, 14) + " "@ + capability + " "@ + summary + "  ("@
        + code + ")"@
}

/// The transcript line of an allowed call whose operation failed.
pub open spec fn error_line(agent: Seq<char>, capability: Seq<char>, error: Seq<char>) -> Seq<
    char,
> {
    "      [tenuo] error  "@ + text::padded(agent, 14) + " "@ + capability + ": "@ + error
}

/// Writes a heading, a padded agent name, and a capability.
fn line_start(heading: &str, agent: &str, capability: &str) -> (r: String)
    ensures
        r@ == heading@ + text::padded(agent@, 14) + " "@ + capability@,
{
    let name = text::pad(agent, 14);
    let mut out = heading.to_owned();
    out.append(name.as_str());
    out.append(" ");
    out.append(capability);
    out
}

/// What a tool makes of the guard's answer: what it returns and the line that it
/// reports.
pub open spec fn settled<T>(
    agent: Seq<char>,
    capability: Seq<char>,
    summary: Seq<char>,
    outcome: Result<(T, DecisionMetadata), GuardFault<ToolError>>,
    result: Result<(T, DecisionMetadata), ToolError>,
    line: Seq<char>,
) -> bool {
    match outcome {
        Ok(pair) => {
            &&& result == Ok::<(T, DecisionMetadata), ToolError>(pair)
            &&& line == allow_line(agent, capability, summary)
        },
        Err(GuardFault::Denied { code, message }) => {
            &&& result matches Err(error)
            &&& error.model() == (Fault::Denied { code: code@, message: message@ })
            &&& line == deny_line(agent, capability, summary, code@)
        },
        Err(GuardFault::Operation(error)) => {
            &&& result == Err::<(T, DecisionMetadata), ToolError>(error)
            &&& line == error_line(agent, capability, fault_text(error.model()))
        },
        Err(GuardFault::Other) => {
            &&& result matches Err(error)
            &&& error.model() == bare_denial()
            &&& line == deny_line(agent, capability, summary, "denied"@)
        },
    }
}

/// Turns the guard's answer into what a tool returns and reports.
pub fn settle<T>(
    agent: &str,
    capability: &str,
    summary: &str,
    outcome: Result<(T, DecisionMetadata), GuardFault<ToolError>>,
) -> (r: (Result<(T, DecisionMetadata), ToolError>, String))
    ensures
        settled(agent@, capability@, summary@, outcome, r.0, r.1@),
{
    match outcome {
        Ok(pair) => {
            let mut line = line_start("      [tenuo] allow  ", agent, capability);
            line.append(" ");
            line.append(summary);
            (Ok(pair), line)
        },
        Err(GuardFault::Denied { code, message }) => {
            let line = denied_line(agent, capability, summary, code.as_str());
            (Err(ToolError::Denied { code, message }), line)
        },
        Err(GuardFault::Operation(error)) => {
            let mut line = line_start("      [tenuo] error  ", agent, capability);
            let detail = error.to_text();
            line.append(": ");
            line.append(detail.as_str());
            (Err(error), line)
        },
        Err(GuardFault::Other) => {
            let line = denied_line(agent, capability, summary, "denied");
            (Err(ToolError::Denied { code: "denied".to_owned(), message: "denied".to_owned() }), line)
        },
    }
}

/// Writes the transcript line of a denied call.
fn denied_line(agent: &str, capability: &str, summary: &str, code: &str) -> (r: String)
    ensures
        r@ == deny_line(agent@, capability@, summary@, code@),
{
    let mut line = line_start("      [tenuo] deny   ", agent, capability);
    line.append(" ");
    line.append(summary);
    line.append("  (");
    line.append(code);
    line.append(")");
    line
}

/// What stops a guarded call before the guard is asked, if anything does: no
/// authority in the context, or arguments that are none.
pub open spec fn stopped(
    context: rig_api::ContextModel,
    capability: Seq<char>,
    args: json::Json,
) -> Option<Fault> {
    if context.authority is None {
        Some(Fault::NoAuthority)
    } else {
        match tenuo_api::argument_fault(capability, args) {
            Some(text) => Some(Fault::Arguments(text)),
            None => None,
        }
    }
}

/// The call that a capability and its JSON arguments make.
pub open spec fn requested(capability: Seq<char>, args: json::Json) -> tenuo_api::CallModel {
    tenuo_api::CallModel { capability, args: args->Object_0, signed: args->Object_0 }
}

/// Whether this is what a guard hands to the operation that it lets through: the
/// call, the run's chain, and the proof of its holder over the call.
pub open spec fn is_authorization(
    run: RunModel,
    capability: Seq<char>,
    args: json::Json,
    authorized: tenuo_api::AuthorizedModel,
) -> bool {
    tenuo_api::is_authorized_as(authorized, requested(capability, args), run.chain)
}

/// Whether a run's authority permits a call: its chain does, and none of the
/// warrants outlasts the guard's ceiling.
pub open spec fn permits(run: RunModel, capability: Seq<char>, args: json::Json) -> bool {
    &&& tenuo_api::is_permitted(run.roots, run.chain, requested(capability, args))
    &&& grant::is_within_ceiling(run.ceiling, run.chain)
}

/// Whether the guard is not asked about a chain: its depths cannot be counted.
pub open spec fn is_too_deep(chain: Seq<grant::WarrantModel>) -> bool {
    chain.len() > 1 && !tenuo_api::is_countable(chain)
}

/// The denial of a call that the guard gave no denial for.
pub open spec fn bare_denial() -> Fault {
    Fault::Denied { code: "denied"@, message: "denied"@ }
}

/// A context after an allowed call: the decision is there for the host.
pub open spec fn with_decision(
    context: rig_api::ContextModel,
    run: RunModel,
    capability: Seq<char>,
) -> rig_api::ContextModel {
    rig_api::ContextModel {
        decision: Some(
            tenuo_api::DecisionModel { capability, chain_depth: run.chain.len() },
        ),
        ..context
    }
}

/// Whether a call went through: nothing stopped it, the authority in the context
/// permits it, and the decision was left for the host.
pub open spec fn was_allowed(
    before: rig_api::ContextModel,
    after: rig_api::ContextModel,
    capability: Seq<char>,
    args: json::Json,
) -> bool {
    &&& stopped(before, capability, args) is None
    &&& permits(before.authority->Some_0, capability, args)
    &&& after == with_decision(before, before.authority->Some_0, capability)
}

/// The transcript line of a call that went through.
pub open spec fn allowed_line(
    before: rig_api::ContextModel,
    capability: Seq<char>,
    args: json::Json,
) -> Seq<char> {
    allow_line(before.authority->Some_0.agent, capability, json::json_text(args))
}

/// What a guarded call reports and leaves behind, whatever the guard decides.
///
/// Nothing is reported where the call is stopped before the guard. A chain that is
/// too deep to ask about is denied. An allowed
/// call is permitted by the run's authority, is reported as such and leaves the
/// decision for the host. A denied call is reported with its code. A call whose
/// operation failed was permitted too, and is reported with the error.
pub open spec fn guarded_report(
    before: rig_api::ContextModel,
    after: rig_api::ContextModel,
    capability: Seq<char>,
    args: json::Json,
    failure: Option<Fault>,
    lines: Seq<Seq<char>>,
) -> bool {
    match stopped(before, capability, args) {
        Some(fault) => failure == Some(fault) && lines.len() == 0 && after == before,
        None => {
            let run = before.authority->Some_0;
            let summary = json::json_text(args);
            &&& is_too_deep(run.chain) ==> failure == Some(bare_denial()) && lines == seq![
                deny_line(run.agent, capability, summary, "denied"@),
            ]
            &&& match failure {
                None => {
                    &&& was_allowed(before, after, capability, args)
                    &&& lines == seq![allowed_line(before, capability, args)]
                },
                Some(fault) => {
                    &&& after == before
                    &&& {
                        ||| fault is Denied && lines == seq![
                            deny_line(run.agent, capability, summary, fault->Denied_code),
                        ]
                        ||| permits(run, capability, args) && lines == seq![
                            error_line(run.agent, capability, fault_text(fault)),
                        ]
                    }
                },
            }
        },
    }
}

/// The error of a result, if it is one.
pub open spec fn failure_in<T>(result: Result<T, ToolError>) -> Option<Fault> {
    match result {
        Ok(_) => None,
        Err(error) => Some(error.model()),
    }
}

/// Whether a result is a denial.
pub open spec fn is_denial<T>(result: Result<T, ToolError>) -> bool {
    failure_in(result) matches Some(fault) && fault is Denied
}

/// Whether an operation, handed the authorization of this call, may have given this
/// result.
pub open spec fn ran_with<T, F: FnOnce(&AuthorizedCall<'_>) -> Result<T, ToolError>>(
    op: F,
    run: RunModel,
    capability: Seq<char>,
    args: json::Json,
    result: Result<T, ToolError>,
) -> bool {
    exists|a: &AuthorizedCall<'_>| #[trigger]
        op.ensures((a,), result) && is_authorization(
            run,
            capability,
            args,
            tenuo_api::authorized_of(*a),
        )
}

/// Whether the guard of a run, asked about a call with this operation, gave this
/// answer.
spec fn asked<T, F: FnOnce(&AuthorizedCall<'_>) -> Result<T, ToolError>>(
    run: RunAuthority,
    call: Call<'static>,
    op: F,
    outcome: Result<(T, DecisionMetadata), GuardFault<ToolError>>,
) -> bool {
    call_ensures(
        tenuo_api::guard_call::<T, ToolError, F>,
        (&*run.guard, &*run.authority, &call, op),
        outcome,
    )
}

/// Whether this is an answer that the guard itself gave: asked over the authority in
/// the context, about this capability with these arguments, to run this operation.
pub closed spec fn guard_gave<T, F: FnOnce(&AuthorizedCall<'_>) -> Result<T, ToolError>>(
    before: rig_api::ContextModel,
    capability: Seq<char>,
    args: json::Json,
    op: F,
    outcome: Result<(T, DecisionMetadata), GuardFault<ToolError>>,
) -> bool {
    exists|run: RunAuthority, call: Call<'static>| #[trigger]
        asked(run, call, op, outcome) && before.authority == Some(run.model())
            && tenuo_api::call_of(call) == requested(capability, args)
}

/// An answer that the guard gave came of asking it, over the roots, the ceiling and the
/// chain of the authority in the context, about this very call.
pub(crate) proof fn law_answers_come_of_asking<
    T,
    F: FnOnce(&AuthorizedCall<'_>) -> Result<T, ToolError>,
>(
    before: rig_api::ContextModel,
    capability: Seq<char>,
    args: json::Json,
    op: F,
    outcome: Result<(T, DecisionMetadata), GuardFault<ToolError>>,
)
    requires
        guard_gave(before, capability, args, op, outcome),
    ensures
        exists|guard: Guard, presented: PresentedAuthority, call: Call<'static>|
            #![trigger call_ensures(
                tenuo_api::guard_call::<T, ToolError, F>,
                (&guard, &presented, &call, op),
                outcome,
            )]
            {
                &&& call_ensures(
                    tenuo_api::guard_call::<T, ToolError, F>,
                    (&guard, &presented, &call, op),
                    outcome,
                )
                &&& before.authority matches Some(run)
                &&& tenuo_api::roots_of(guard) == run.roots
                &&& tenuo_api::ceiling_of(guard) == run.ceiling
                &&& tenuo_api::chain_of(presented) == run.chain
                &&& tenuo_api::call_of(call).capability == capability
                &&& tenuo_api::call_of(call).args == args->Object_0
                &&& tenuo_api::call_of(call).signed == args->Object_0
            },
{
    let (run, call): (RunAuthority, Call<'static>) = choose|
        run: RunAuthority,
        call: Call<'static>,
    | #[trigger]
        asked(run, call, op, outcome) && before.authority == Some(run.model())
            && tenuo_api::call_of(call) == requested(capability, args);
    assert(call_ensures(
        tenuo_api::guard_call::<T, ToolError, F>,
        (&*run.guard, &*run.authority, &call, op),
        outcome,
    ));
}

/// Whether a call failed, was reported and left its context as the guard's answer has
/// it.
pub open spec fn is_settlement<T>(
    before: rig_api::ContextModel,
    after: rig_api::ContextModel,
    capability: Seq<char>,
    args: json::Json,
    outcome: Result<(T, DecisionMetadata), GuardFault<ToolError>>,
    failure: Option<Fault>,
    lines: Seq<Seq<char>>,
) -> bool {
    let agent = before.authority->Some_0.agent;
    let summary = json::json_text(args);
    match outcome {
        Ok(pair) => {
            &&& failure is None
            &&& after == (rig_api::ContextModel {
                decision: Some(tenuo_api::decision_of(pair.1)),
                ..before
            })
            &&& lines == seq![allow_line(agent, capability, summary)]
        },
        Err(GuardFault::Denied { code, message }) => {
            &&& failure == Some(Fault::Denied { code: code@, message: message@ })
            &&& after == before
            &&& lines == seq![deny_line(agent, capability, summary, code@)]
        },
        Err(GuardFault::Operation(error)) => {
            &&& failure == Some(error.model())
            &&& after == before
            &&& lines == seq![error_line(agent, capability, fault_text(error.model()))]
        },
        Err(GuardFault::Other) => {
            &&& failure == Some(bare_denial())
            &&& after == before
            &&& lines == seq![deny_line(agent, capability, summary, "denied"@)]
        },
    }
}

/// Whether the guard is asked about a call: nothing stops it before, and the chain is
/// not too deep.
pub open spec fn is_asked(
    before: rig_api::ContextModel,
    capability: Seq<char>,
    args: json::Json,
) -> bool {
    stopped(before, capability, args) is None && !is_too_deep(before.authority->Some_0.chain)
}

/// Whether a result is what the guard's answer makes it: the operation's own where the
/// guard let it run, and else the guard's denial.
pub open spec fn follows_guard<T, F: FnOnce(&AuthorizedCall<'_>) -> Result<T, ToolError>>(
    before: rig_api::ContextModel,
    after: rig_api::ContextModel,
    capability: Seq<char>,
    args: json::Json,
    op: F,
    result: Result<T, ToolError>,
    lines: Seq<Seq<char>>,
) -> bool {
    is_asked(before, capability, args) ==> exists|
        outcome: Result<(T, DecisionMetadata), GuardFault<ToolError>>,
    | #[trigger]
        guard_gave(before, capability, args, op, outcome) && is_settlement(
            before,
            after,
            capability,
            args,
            outcome,
            failure_in(result),
            lines,
        ) && (outcome matches Ok(pair) ==> result == Ok::<T, ToolError>(pair.0)) && (
        outcome matches Err(GuardFault::Operation(error)) ==> result == Err::<T, ToolError>(error))
}

/// Whether a failure is what the guard's answer to a call with no operation of its own
/// makes it: none where the guard allowed the call, and else the guard's denial.
pub open spec fn follows_decision(
    before: rig_api::ContextModel,
    after: rig_api::ContextModel,
    capability: Seq<char>,
    args: json::Json,
    failure: Option<Fault>,
    lines: Seq<Seq<char>>,
) -> bool {
    is_asked(before, capability, args) ==> exists|
        outcome: Result<((), DecisionMetadata), GuardFault<ToolError>>,
    | #[trigger]
        guard_gave(before, capability, args, proceed, outcome) && is_settlement(
            before,
            after,
            capability,
            args,
            outcome,
            failure,
            lines,
        )
}

/// The operation of a call that goes on after the guard has allowed it.
pub fn proceed(_call: &AuthorizedCall<'_>) -> (r: Result<(), ToolError>)
    ensures
        r is Ok,
{
    Ok(())
}

/// Runs `op` only where the authority in the context allows the capability with
/// exactly this argument value.
///
/// On allow, the decision record goes into the part of the context that only the
/// host reads.
pub fn guarded_value<T, F: FnOnce(&AuthorizedCall<'_>) -> Result<T, ToolError>>(
    context: &mut ToolContext,
    capability: &str,
    value: &Value,
    op: F,
) -> (r: Reported<T>)
    requires
        rig_api::context_of(*old(context)).authority matches Some(run) ==> forall|
            a: &AuthorizedCall<'_>,
        |
            is_authorization(
                run,
                capability@,
                json::json_of(*value),
                tenuo_api::authorized_of(*a),
            ) ==> op.requires((a,)),
    ensures
        guarded_report(
            rig_api::context_of(*old(context)),
            rig_api::context_of(*final(context)),
            capability@,
            json::json_of(*value),
            failure_in(r.result),
            text::views(r.lines@),
        ),
        stopped(rig_api::context_of(*old(context)), capability@, json::json_of(*value)) is Some
            || is_denial(r.result) || ran_with(
            op,
            rig_api::context_of(*old(context)).authority->Some_0,
            capability@,
            json::json_of(*value),
            r.result,
        ),
        follows_guard(
            rig_api::context_of(*old(context)),
            rig_api::context_of(*final(context)),
            capability@,
            json::json_of(*value),
            op,
            r.result,
            text::views(r.lines@),
        ),
{
    let ghost before = rig_api::context_of(*context);
    let run = match rig_api::get_authority(context) {
        Some(run) => run,
        None => return Reported { result: Err(ToolError::NoAuthority), lines: Vec::new() },
    };
    let call = match tenuo_api::call_from_json(capability, value) {
        Ok(call) => call,
        Err(text) => return Reported {
            result: Err(ToolError::Arguments(text)),
            lines: Vec::new(),
        },
    };
    let summary = json::value_text(value);
    let outcome = if tenuo_api::chain_length(&run.authority) > 1 && tenuo_api::root_depth(
        &run.authority,
    ) == u32::MAX {
        Err(GuardFault::Other)
    } else {
        let answer = tenuo_api::guard_call(&run.guard, &run.authority, &call, op);
        assert(asked(run, call, op, answer));
        answer
    };
    assert(!is_too_deep(run.model().chain) ==> guard_gave(
        before,
        capability@,
        json::json_of(*value),
        op,
        outcome,
    ));
    let (settled, line) = settle(run.agent.as_str(), capability, summary.as_str(), outcome);
    let lines: Vec<String> = vec![line];
    assert(text::views(lines@) =~= seq![line@]);
    match settled {
        Ok((done, decision)) => {
            rig_api::insert_decision(context, decision);
            Reported { result: Ok(done), lines }
        },
        Err(error) => Reported { result: Err(error), lines },
    }
}

/// Runs `op` only where the authority in the context allows the capability with
/// these arguments.
pub fn guarded<A: ToolArguments, T, F: FnOnce(&AuthorizedCall<'_>) -> Result<T, ToolError>>(
    context: &mut ToolContext,
    capability: &str,
    args: &A,
    op: F,
) -> (r: Reported<T>)
    requires
        rig_api::context_of(*old(context)).authority matches Some(run) ==> forall|
            a: &AuthorizedCall<'_>,
        |
            is_authorization(run, capability@, args.json(), tenuo_api::authorized_of(*a))
                ==> op.requires((a,)),
    ensures
        guarded_report(
            rig_api::context_of(*old(context)),
            rig_api::context_of(*final(context)),
            capability@,
            args.json(),
            failure_in(r.result),
            text::views(r.lines@),
        ),
        stopped(rig_api::context_of(*old(context)), capability@, args.json()) is Some || is_denial(
            r.result,
        ) || ran_with(
            op,
            rig_api::context_of(*old(context)).authority->Some_0,
            capability@,
            args.json(),
            r.result,
        ),
        follows_guard(
            rig_api::context_of(*old(context)),
            rig_api::context_of(*final(context)),
            capability@,
            args.json(),
            op,
            r.result,
            text::views(r.lines@),
        ),
{
    let value = args.to_value();
    guarded_value(context, capability, &value, op)
}

/// As [`guarded_value`], over arguments that may have failed to serialize: then `op`
/// does not run, nothing is reported, and the context stays as it was, whatever it
/// holds.
pub fn guarded_serialized<T, F: FnOnce(&AuthorizedCall<'_>) -> Result<T, ToolError>>(
    context: &mut ToolContext,
    capability: &str,
    serialized: Result<Value, String>,
    op: F,
) -> (r: Reported<T>)
    requires
        rig_api::context_of(*old(context)).authority matches Some(run) ==> (serialized matches Ok(
            value,
        ) ==> forall|a: &AuthorizedCall<'_>|
            is_authorization(
                run,
                capability@,
                json::json_of(value),
                tenuo_api::authorized_of(*a),
            ) ==> op.requires((a,))),
    ensures
        match serialized {
            Err(text) => {
                &&& failure_in(r.result) == Some(Fault::Arguments(text@))
                &&& r.lines@.len() == 0
                &&& *final(context) == *old(context)
            },
            Ok(value) => {
                &&& guarded_report(
                    rig_api::context_of(*old(context)),
                    rig_api::context_of(*final(context)),
                    capability@,
                    json::json_of(value),
                    failure_in(r.result),
                    text::views(r.lines@),
                )
                &&& stopped(
                    rig_api::context_of(*old(context)),
                    capability@,
                    json::json_of(value),
                ) is Some || is_denial(r.result) || ran_with(
                    op,
                    rig_api::context_of(*old(context)).authority->Some_0,
                    capability@,
                    json::json_of(value),
                    r.result,
                )
                &&& follows_guard(
                    rig_api::context_of(*old(context)),
                    rig_api::context_of(*final(context)),
                    capability@,
                    json::json_of(value),
                    op,
                    r.result,
                    text::views(r.lines@),
                )
            },
        },
{
    match serialized {
        Ok(value) => guarded_value(context, capability, &value, op),
        Err(text) => Reported { result: Err(ToolError::Arguments(text)), lines: Vec::new() },
    }
}

}
