use rig::tool::{ToolContext, ToolErrorKind, ToolOutput};
use serde_json::Value;
use tenuo::sdk::prelude::{AuthorizedCall, DecisionMetadata};
use tenuo_rig::authority::{
    denial_message, guarded_serialized, guarded_value, map_delegation_error, settle, RunAuthority, ToolError,
};
use tenuo_rig::issuer::{
    agent_public_key, new_agent_key, orchestrator_authority, ControlPlane,
};
use tenuo_rig::tenuo_api::{DelegationFault, GuardFault};
use tenuo_rig::tools::scale_cluster::{ScaleArgs, ScaleCluster};
use tenuo_rig::tools::ToolArguments;

fn orchestrator() -> RunAuthority {
    let plane = ControlPlane::start();
    let key = new_agent_key();
    let warrant = plane
        .mint_orchestrator_warrant(&agent_public_key(&key))
        .expect("mint");
    orchestrator_authority(plane.root_public_key(), warrant, key)
        .ok()
        .expect("authority")
}

fn scale(cluster: &str, replicas: i64) -> ScaleArgs {
    ScaleArgs { cluster: cluster.to_string(), replicas }
}

#[test]
fn denial_is_a_model_visible_rig_refusal() {
    let error = ToolError::Denied {
        code: "constraint-violation".into(),
        message: "Constraint not satisfied".into(),
    }
    .into_execution_error();

    assert!(error.is_refusal());
    assert_eq!(error.code(), Some("constraint-violation"));
    assert_eq!(
        error.model_feedback(),
        Some("denied (constraint-violation): Constraint not satisfied")
    );
}

#[test]
fn operation_diagnostics_are_redacted_from_the_model() {
    let error = ToolError::Operation("upstream response contained a secret".into())
        .into_execution_error();

    assert_eq!(
        error.model_feedback(),
        Some("the tool's upstream operation failed")
    );
    assert!(!error.model_feedback().unwrap().contains("secret"));
}

#[test]
fn operation_keeps_its_message_for_the_operator() {
    let error = ToolError::Operation("upstream said no".into()).into_execution_error();
    assert_eq!(error.kind(), ToolErrorKind::Provider);
    assert_eq!(error.message(), "upstream said no");
    assert_eq!(error.retryable(), None);
    assert_eq!(error.code(), None);
    assert!(!error.is_refusal());
}

#[test]
fn missing_authority_is_a_refusal() {
    let error = ToolError::NoAuthority.into_execution_error();
    assert_eq!(error.kind(), ToolErrorKind::PermissionDenied);
    assert!(error.is_refusal());
    assert_eq!(error.code(), Some("missing-authority"));
    assert_eq!(
        error.model_feedback(),
        Some("denied (missing-authority): no authority was provided")
    );
    assert_eq!(error.retryable(), Some(false));
}

#[test]
fn arguments_and_timeouts_are_shown_as_they_are() {
    let error = ToolError::Arguments("NotAnObject".into()).into_execution_error();
    assert_eq!(error.kind(), ToolErrorKind::InvalidArgs);
    assert_eq!(error.model_feedback(), Some("NotAnObject"));
    assert_eq!(error.retryable(), Some(false));
    assert!(!error.is_refusal());

    let error = ToolError::Timeout("MCP call exceeded 30s".into()).into_execution_error();
    assert_eq!(error.kind(), ToolErrorKind::Timeout);
    assert_eq!(error.model_feedback(), Some("MCP call exceeded 30s"));
    assert_eq!(error.retryable(), Some(true));
}

#[test]
fn an_mcp_denial_shows_the_output_of_the_server() {
    let error = ToolError::McpDenied {
        message: "denied".into(),
        output: ToolOutput::json(Value::from(7)),
    }
    .into_execution_error();
    assert!(error.is_refusal());
    assert_eq!(error.code(), Some("mcp-tool-error"));
    assert_eq!(error.message(), "denied");
    assert_eq!(error.model_output().as_json(), Some(&Value::from(7)));
}

#[test]
fn errors_have_a_text_for_the_operator() {
    assert_eq!(ToolError::NoAuthority.to_text(), "no authority in tool context");
    assert_eq!(
        ToolError::Denied { code: "c".into(), message: "m".into() }.to_text(),
        "denied (c): m"
    );
    assert_eq!(ToolError::Arguments("x".into()).to_text(), "invalid arguments: x");
    assert_eq!(ToolError::Timeout("x".into()).to_text(), "operation timed out: x");
    assert_eq!(ToolError::Operation("x".into()).to_text(), "operation failed: x");
    let error = ToolError::McpDenied { message: "x".into(), output: ToolOutput::text("y") };
    assert_eq!(error.to_text(), "MCP tool denied the call: x");
    assert_eq!(denial_message("a", "b"), "denied (a): b");
}

#[test]
fn delegation_failures_keep_policy_and_hide_the_rest() {
    let denied = DelegationFault::Denied { code: "warrant-expired".into(), message: "m".into() };
    match map_delegation_error(denied) {
        ToolError::Denied { code, message } => {
            assert_eq!(code, "warrant-expired");
            assert_eq!(message, "m");
        }
        _ => panic!("not a denial"),
    }
    let core = DelegationFault::Core { code: "invalid-attenuation".into(), message: "n".into() };
    match map_delegation_error(core) {
        ToolError::Denied { code, message } => {
            assert_eq!(code, "invalid-attenuation");
            assert_eq!(message, "n");
        }
        _ => panic!("not a denial"),
    }
    let other = DelegationFault::Other("signer unavailable".into());
    match map_delegation_error(other) {
        ToolError::Operation(text) => assert_eq!(text, "delegate: signer unavailable"),
        _ => panic!("not an operation"),
    }
}

#[test]
fn a_fresh_context_holds_the_authority_and_nothing_else() {
    let run = orchestrator();
    let context = run.context();
    let held = context.get::<RunAuthority>().expect("authority");
    assert_eq!(held.agent, "orchestrator");
    assert_eq!(held.authority.holder(), run.authority.holder());
    assert_eq!(held.authority.chain().len(), 1);
    assert!(context.result::<DecisionMetadata>().is_none());
    assert!(format!("{:?}", context).contains("inbound_entries: 1"));
}

#[test]
fn a_call_without_authority_is_stopped() {
    let mut context = ToolContext::new();
    let reported = ScaleCluster.call(&mut context, &scale("staging-web", 3));
    assert!(matches!(reported.result, Err(ToolError::NoAuthority)));
    assert!(reported.lines.is_empty());
}

#[test]
fn arguments_must_be_an_object() {
    let mut context = orchestrator().context();
    let op = |_call: &AuthorizedCall<'_>| -> Result<u8, ToolError> { Ok(1) };
    let reported = guarded_value(&mut context, "scale_cluster", &Value::from(3), op);
    match reported.result {
        Err(ToolError::Arguments(text)) => assert_eq!(text, "NotAnObject"),
        _ => panic!("not refused"),
    }
    assert!(reported.lines.is_empty());
    assert!(context.result::<DecisionMetadata>().is_none());
}

#[test]
fn an_argument_that_is_too_large_is_refused() {
    let mut context = orchestrator().context();
    let long = "x".repeat(9000);
    let reported = ScaleCluster.call(&mut context, &scale(&long, 3));
    match reported.result {
        Err(ToolError::Arguments(text)) => assert_eq!(text, "ValueTooLarge"),
        _ => panic!("not refused"),
    }
}

#[test]
fn an_allowed_call_leaves_its_decision_for_the_host() {
    let mut context = orchestrator().context();
    let reported = ScaleCluster.call(&mut context, &scale("staging-web", 3));
    assert_eq!(reported.result.ok().expect("allowed"), "scaled staging-web to 3 replicas");
    let decision = context.result::<DecisionMetadata>().expect("decision");
    assert_eq!(decision.capability, "scale_cluster");
    assert_eq!(decision.chain_depth, 1);
}

#[test]
fn a_denied_call_leaves_no_decision() {
    let mut context = orchestrator().context();
    let reported = ScaleCluster.call(&mut context, &scale("staging-web", 11));
    assert!(matches!(reported.result, Err(ToolError::Denied { .. })));
    assert!(context.result::<DecisionMetadata>().is_none());
}

#[test]
fn a_failing_operation_is_reported() {
    let mut context = orchestrator().context();
    let op = |_call: &AuthorizedCall<'_>| -> Result<u8, ToolError> {
        Err(ToolError::Operation("disk full".into()))
    };
    let value = scale("staging-web", 3).to_value();
    let reported = guarded_value(&mut context, "scale_cluster", &value, op);
    match reported.result {
        Err(ToolError::Operation(text)) => assert_eq!(text, "disk full"),
        _ => panic!("not an operation"),
    }
    assert_eq!(
        reported.lines,
        vec!["      [tenuo] error  orchestrator   scale_cluster: operation failed: disk full"]
    );
}

#[test]
fn a_capability_outside_the_warrant_is_denied() {
    let mut context = orchestrator().context();
    let op = |_call: &AuthorizedCall<'_>| -> Result<u8, ToolError> { Ok(1) };
    let value = scale("staging-web", 3).to_value();
    let reported = guarded_value(&mut context, "drop_cluster", &value, op);
    assert!(matches!(reported.result, Err(ToolError::Denied { .. })));
    assert!(reported.lines[0].starts_with("      [tenuo] deny   orchestrator   drop_cluster "));
}

#[test]
fn every_answer_of_a_guard_is_settled() {
    let denied: Result<(u8, DecisionMetadata), GuardFault<ToolError>> =
        Err(GuardFault::Denied { code: "c".into(), message: "m".into() });
    let (result, line) = settle("worker[INC-42]", "read_incident", "{}", denied);
    assert!(matches!(result, Err(ToolError::Denied { .. })));
    assert_eq!(line, "      [tenuo] deny   worker[INC-42] read_incident {}  (c)");

    let failed: Result<(u8, DecisionMetadata), GuardFault<ToolError>> =
        Err(GuardFault::Operation(ToolError::NoAuthority));
    let (result, line) = settle("a", "b", "{}", failed);
    assert!(matches!(result, Err(ToolError::NoAuthority)));
    assert_eq!(line, "      [tenuo] error  a              b: no authority in tool context");

    let unknown: Result<(u8, DecisionMetadata), GuardFault<ToolError>> = Err(GuardFault::Other);
    let (result, line) = settle("a", "b", "{}", unknown);
    match result {
        Err(ToolError::Denied { code, message }) => {
            assert_eq!(code, "denied");
            assert_eq!(message, "denied");
        }
        _ => panic!("not a denial"),
    }
    assert_eq!(line, "      [tenuo] deny   a              b {}  (denied)");
}

#[test]
fn arguments_that_do_not_serialize_stop_the_call() {
    let mut context = ToolContext::new();
    let op = |_: &AuthorizedCall<'_>| -> Result<(), ToolError> { panic!("ran") };
    let failed: Result<Value, String> = Err("key must be a string".to_string());
    let reported = guarded_serialized(&mut context, "scale_cluster", failed, op);
    assert!(reported.lines.is_empty());
    match reported.result {
        Err(ToolError::Arguments(text)) => assert_eq!(text, "key must be a string"),
        _ => panic!("not an argument error"),
    }
    let mut context = orchestrator().context();
    let op = |_: &AuthorizedCall<'_>| -> Result<u8, ToolError> { Ok(7) };
    let value = Ok(scale("staging-web", 3).to_value());
    let reported = guarded_serialized(&mut context, "scale_cluster", value, op);
    assert_eq!(reported.result.ok(), Some(7));
    assert_eq!(reported.lines.len(), 1);
    assert!(context.result::<DecisionMetadata>().is_some());
}
