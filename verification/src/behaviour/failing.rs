//! Failures: what an operator reads of each, how each is put to the agent runtime, and
//! what the model is shown.

use crate::authority;
use crate::authority::{Fault, ToolError};
use crate::rig_api;
use crate::rig_api::{Block, FailureKind};
use crate::tenuo_api::GuardFault;
use crate::text;
use rig::tool::ToolExecutionError;
use tenuo::sdk::prelude::DecisionMetadata;
use vstd::prelude::*;

verus! {

/// A denial is written as its code and its message.
pub proof fn law_denials_read(code: &str, message: &str, r: String)
    requires
        call_ensures(authority::denial_message, (code, message), r),
    ensures
        r@ == "denied ("@ + code@ + "): "@ + message@,
{
}

/// What an operator reads of an error says what went wrong, and with which words.
pub proof fn law_errors_read(error: &ToolError, r: String)
    requires
        call_ensures(ToolError::to_text, (error,), r),
    ensures
        r@ == match *error {
            ToolError::NoAuthority => "no authority in tool context"@,
            ToolError::Denied { code, message } => "denied ("@ + code@ + "): "@ + message@,
            ToolError::Arguments(message) => "invalid arguments: "@ + message@,
            ToolError::Timeout(message) => "operation timed out: "@ + message@,
            ToolError::Operation(message) => "operation failed: "@ + message@,
            ToolError::McpDenied { message, .. } => "MCP tool denied the call: "@ + message@,
        },
        r@ == authority::fault_text(error.model()),
{
}

/// Every error is put to the agent runtime with its own kind and message; a denial is a
/// refusal under its code that may not be tried again and that the model is shown; a
/// timeout may be tried again; and what failed further on is kept from the model.
pub proof fn law_errors_are_put_to_the_runtime(error: ToolError, r: ToolExecutionError)
    requires
        call_ensures(ToolError::into_execution_error, (error,), r),
    ensures
        ({
            let failure = rig_api::failure_of(r);
            match error {
                ToolError::NoAuthority => {
                    let text = "denied (missing-authority): no authority was provided"@;
                    &&& failure.kind == FailureKind::PermissionDenied
                    &&& failure.message == text
                    &&& failure.code == Some("missing-authority"@)
                    &&& failure.refusal
                    &&& failure.retryable == Some(false)
                    &&& failure.output == seq![Block::Text(text)]
                },
                ToolError::Denied { code, message } => {
                    let text = "denied ("@ + code@ + "): "@ + message@;
                    &&& failure.kind == FailureKind::PermissionDenied
                    &&& failure.message == text
                    &&& failure.code == Some(code@)
                    &&& failure.refusal
                    &&& failure.retryable == Some(false)
                    &&& failure.output == seq![Block::Text(text)]
                },
                ToolError::Arguments(message) => {
                    &&& failure.kind == FailureKind::InvalidArgs
                    &&& failure.message == message@
                    &&& failure.code is None
                    &&& !failure.refusal
                    &&& failure.retryable == Some(false)
                    &&& failure.output == seq![Block::Text(message@)]
                },
                ToolError::Timeout(message) => {
                    &&& failure.kind == FailureKind::Timeout
                    &&& failure.message == message@
                    &&& failure.code is None
                    &&& !failure.refusal
                    &&& failure.retryable == Some(true)
                    &&& failure.output == seq![Block::Text(message@)]
                },
                ToolError::Operation(message) => {
                    &&& failure.kind == FailureKind::Provider
                    &&& failure.message == message@
                    &&& failure.code is None
                    &&& !failure.refusal
                    &&& failure.retryable is None
                    &&& failure.output == seq![
                        Block::Text("the tool's upstream operation failed"@),
                    ]
                },
                ToolError::McpDenied { message, output } => {
                    &&& failure.kind == FailureKind::PermissionDenied
                    &&& failure.message == message@
                    &&& failure.code == Some("mcp-tool-error"@)
                    &&& failure.refusal
                    &&& failure.retryable == Some(false)
                    &&& failure.output == rig_api::output_of(output)
                },
            }
        }),
{
}

/// Two failures further on are the same to the model, whatever they say.
pub proof fn law_the_model_cannot_tell_failures_apart(
    message: String,
    r: ToolExecutionError,
    other_message: String,
    other: ToolExecutionError,
)
    requires
        call_ensures(
            ToolError::into_execution_error,
            (ToolError::Operation(message),),
            r,
        ),
        call_ensures(
            ToolError::into_execution_error,
            (ToolError::Operation(other_message),),
            other,
        ),
    ensures
        rig_api::failure_of(r).output == rig_api::failure_of(other).output,
{
}

/// Every answer of the guard is settled by itself: what it allowed comes back as it is,
/// what it denied with its code and message, what failed with its own error, and each is
/// told in one line under the padded name of the agent.
pub proof fn law_answers_are_settled<T>(
    agent: &str,
    capability: &str,
    summary: &str,
    outcome: Result<(T, DecisionMetadata), GuardFault<ToolError>>,
    r: (Result<(T, DecisionMetadata), ToolError>, String),
)
    requires
        call_ensures(authority::settle::<T>, (agent, capability, summary, outcome), r),
    ensures
        ({
            let subject = text::padded(agent@, 14) + " "@ + capability@;
            match outcome {
                Ok(pair) => {
                    &&& r.0 == Ok::<(T, DecisionMetadata), ToolError>(pair)
                    &&& r.1@ == "      [tenuo] allow  "@ + subject + " "@ + summary@
                },
                Err(GuardFault::Denied { code, message }) => {
                    &&& r.0 matches Err(error)
                    &&& error.model() == (Fault::Denied { code: code@, message: message@ })
                    &&& r.1@ == "      [tenuo] deny   "@ + subject + " "@ + summary@ + "  ("@
                        + code@ + ")"@
                },
                Err(GuardFault::Operation(error)) => {
                    &&& r.0 == Err::<(T, DecisionMetadata), ToolError>(error)
                    &&& r.1@ == "      [tenuo] error  "@ + subject + ": "@
                        + authority::fault_text(error.model())
                },
                Err(GuardFault::Other) => {
                    &&& r.0 matches Err(error)
                    &&& error.model() == (Fault::Denied { code: "denied"@, message: "denied"@ })
                    &&& r.1@ == "      [tenuo] deny   "@ + subject + " "@ + summary@ + "  ("@
                        + "denied"@ + ")"@
                },
            }
        }),
{
    let name = text::padded(agent@, 14);
    let subject = name + " "@ + capability@;
    assert("      [tenuo] allow  "@ + name + " "@ + capability@ =~= "      [tenuo] allow  "@
        + subject);
    assert("      [tenuo] deny   "@ + name + " "@ + capability@ =~= "      [tenuo] deny   "@
        + subject);
    assert("      [tenuo] error  "@ + name + " "@ + capability@ =~= "      [tenuo] error  "@
        + subject);
}

}
