use rig::tool::ToolContext;
use rmcp::model::{
    CallToolResult, ContentBlock, ErrorCode, JsonObject, MetaObject, RequestMetaObject,
};
use rmcp::service::ServiceError;
use serde_json::Value;
use std::time::Duration;
use tenuo::sdk::prelude::{Call, ConstraintSet, DecisionMetadata, Warrant};
use tenuo::sdk::transport::mcp_meta::decode_meta;
use tenuo::wire::encode_base64;
use tenuo::Wildcard;
use tenuo_rig::attack::{
    attempts, bare_request, forged_request, read_reply, stolen_credential, verdict, Attack, Reply,
};
use tenuo_rig::authority::{RunAuthority, ToolError};
use tenuo_rig::issuer::{
    agent_public_key, enforcement_point, new_agent_key, orchestrator_authority, ControlPlane,
};
use tenuo_rig::server::{settle_read, IncidentServer};
use tenuo_rig::tenuo_api::GuardFault;
use tenuo_rig::tools::delegate_incident::{DelegateArgs, DelegateIncident};
use tenuo_rig::tools::delegate_subtask::{default_scope, DelegateSubtask, SubtaskArgs};
use tenuo_rig::tools::incident_mcp::{
    map_service_error, mcp_result_output, IncidentArgs, RemoteReadIncident,
    MCP_CALL_TIMEOUT_SECS, TENUO_META_KEY,
};

fn graph() -> (RunAuthority, IncidentServer) {
    let plane = ControlPlane::start();
    let key = new_agent_key();
    let warrant = plane
        .mint_orchestrator_warrant(&agent_public_key(&key))
        .expect("mint");
    let run = orchestrator_authority(plane.root_public_key(), warrant, key)
        .ok()
        .expect("authority");
    let guard = enforcement_point(plane.root_public_key()).ok().expect("guard");
    (run, IncidentServer::new(guard))
}

fn incident(incident_id: &str) -> IncidentArgs {
    IncidentArgs { incident_id: incident_id.to_string() }
}

fn text_in(result: &CallToolResult) -> String {
    result.content[0].as_text().expect("text").text.clone()
}

#[test]
fn a_request_carries_the_checked_arguments_and_the_envelope() {
    let (run, _) = graph();
    let mut context = run.context();
    let reported = RemoteReadIncident.request(&mut context, &incident("INC-42"));
    let params = reported.result.ok().expect("request");
    assert_eq!(params.name, "read_incident");
    let arguments = params.arguments.expect("arguments");
    assert_eq!(arguments.len(), 1);
    assert_eq!(arguments["incident_id"], Value::from("INC-42"));
    let meta = params.meta.expect("meta");
    assert_eq!(meta.len(), 1);
    assert!(meta[TENUO_META_KEY]["warrant"].is_string());
    assert!(meta[TENUO_META_KEY]["signature"].is_string());
    assert!(context.result::<DecisionMetadata>().is_some());
    assert_eq!(TENUO_META_KEY, "ai.tenuo/authorization");
    assert_eq!(MCP_CALL_TIMEOUT_SECS, 30);
}

#[test]
fn a_denied_call_makes_no_envelope() {
    let (run, _) = graph();
    let reported = RemoteReadIncident.request(&mut run.context(), &incident("SEC-1"));
    match reported.result {
        Err(ToolError::Denied { code, message }) => {
            assert_eq!(code, "constraint-violation");
            assert_eq!(message, "Constraint not satisfied");
        }
        _ => panic!("not denied"),
    }
}

#[test]
fn a_call_without_authority_makes_no_request() {
    let mut context = ToolContext::new();
    let reported = RemoteReadIncident.request(&mut context, &incident("INC-42"));
    assert!(matches!(reported.result, Err(ToolError::NoAuthority)));
}

#[test]
fn the_server_serves_what_the_client_asked_for() {
    let (run, server) = graph();
    let reported = RemoteReadIncident.request(&mut run.context(), &incident("INC-42"));
    let meta = reported.result.ok().expect("request").meta.expect("meta");
    let served = server.read_incident(&meta, &incident("INC-42"));
    let result = served.answer.expect("result");
    assert_eq!(result.is_error, Some(false));
    assert_eq!(
        text_in(&result),
        "INC-42: severity=high, status=open, owner=secops (served by MCP)"
    );
    assert_eq!(
        served.lines,
        vec![format!(
            "      [mcp-server] verified read_incident INC-42 for holder {} (chain depth 1)",
            run.authority.holder().fingerprint()
        )]
    );
}

#[test]
fn the_server_rejects_arguments_that_were_not_signed() {
    let (run, server) = graph();
    let reported = RemoteReadIncident.request(&mut run.context(), &incident("INC-42"));
    let meta = reported.result.ok().expect("request").meta.expect("meta");
    let served = server.read_incident(&meta, &incident("INC-43"));
    let result = served.answer.expect("result");
    assert_eq!(result.is_error, Some(true));
    assert!(text_in(&result).starts_with("denied (signature-invalid): "));
}

#[test]
fn the_server_trusts_its_own_root_alone() {
    let (run, _) = graph();
    let (_, other_server) = graph();
    let reported = RemoteReadIncident.request(&mut run.context(), &incident("INC-42"));
    let meta = reported.result.ok().expect("request").meta.expect("meta");
    let served = other_server.read_incident(&meta, &incident("INC-42"));
    let result = served.answer.expect("result");
    assert_eq!(result.is_error, Some(true));
    assert_eq!(served.lines.len(), 1);
    assert!(served.lines[0].starts_with("      [mcp-server] denied   read_incident INC-42 "));
}

#[test]
fn missing_authorization_is_a_protocol_error() {
    let (_, server) = graph();
    let served = server.read_incident(&RequestMetaObject::new(), &incident("INC-42"));
    let error = served.answer.expect_err("error");
    assert_eq!(error.code, ErrorCode::INVALID_PARAMS);
    assert_eq!(error.code.0, -32602);
    assert_eq!(error.message, "missing Tenuo authorization metadata");
    assert_eq!(
        served.lines,
        vec!["      [mcp-server] refused  read_incident INC-42: no authorization metadata"]
    );
}

#[test]
fn malformed_authorization_is_a_protocol_error() {
    let (_, server) = graph();
    let mut meta = RequestMetaObject::new();
    meta.insert(TENUO_META_KEY.to_string(), Value::from("nonsense"));
    let served = server.read_incident(&meta, &incident("INC-42"));
    let error = served.answer.expect_err("error");
    assert_eq!(error.code, ErrorCode::INVALID_PARAMS);
    assert_eq!(error.message, "bad _meta.tenuo: InvalidEncoding");
    assert!(served.lines.is_empty());
}

#[test]
fn arguments_that_are_too_large_are_a_protocol_error() {
    let (run, server) = graph();
    let reported = RemoteReadIncident.request(&mut run.context(), &incident("INC-42"));
    let meta = reported.result.ok().expect("request").meta.expect("meta");
    let served = server.read_incident(&meta, &incident(&"x".repeat(9000)));
    let error = served.answer.expect_err("error");
    assert_eq!(error.message, "ValueTooLarge");
    assert!(served.lines.is_empty());
}

#[test]
fn every_answer_of_the_servers_guard_is_settled() {
    let failed: Result<(String, DecisionMetadata), GuardFault<String>> =
        Err(GuardFault::Operation("broken".to_string()));
    let served = settle_read("INC-1", "aa", 2, failed);
    assert_eq!(text_in(&served.answer.expect("result")), "broken");
    assert!(served.lines.is_empty());
    let unknown: Result<(String, DecisionMetadata), GuardFault<String>> = Err(GuardFault::Other);
    let served = settle_read("INC-1", "aa", 2, unknown);
    assert_eq!(text_in(&served.answer.expect("result")), "denied (denied): denied");
    assert_eq!(
        served.lines,
        vec!["      [mcp-server] denied   read_incident INC-1 for holder aa: denied"]
    );
    let denied: Result<(String, DecisionMetadata), GuardFault<String>> =
        Err(GuardFault::Denied { code: "c".to_string(), message: "m".to_string() });
    let served = settle_read("INC-1", "aa", 2, denied);
    let result = served.answer.expect("result");
    assert_eq!(result.is_error, Some(true));
    assert_eq!(text_in(&result), "denied (c): m");
}

#[test]
fn the_server_says_where_the_warrant_goes() {
    let (_, server) = graph();
    assert_eq!(
        server.instructions(),
        "Incident records. Every call must carry a Tenuo warrant in _meta[\"ai.tenuo/authorization\"]."
    );
}

#[test]
fn a_result_is_shown_whole_and_kept_for_the_host() {
    let mut context = ToolContext::new();
    let mut result = CallToolResult::success(vec![
        ContentBlock::text("first"),
        ContentBlock::image("aGk=", "image/png"),
        ContentBlock::text("second"),
    ]);
    result.structured_content = Some(Value::from(5));
    let mut object = JsonObject::new();
    object.insert("trace".to_string(), Value::from("t"));
    result.meta = Some(MetaObject(object));
    let output = RemoteReadIncident
        .accept(&mut context, result.clone())
        .ok()
        .expect("output");
    let blocks = output.as_content();
    assert_eq!(blocks.len(), 4);
    assert_eq!(blocks[0].as_json(), Some(&Value::from(5)));
    assert_eq!(blocks[1].as_text(), Some("first"));
    assert_eq!(blocks[2].as_json().expect("json")["type"], Value::from("image"));
    assert_eq!(blocks[2].as_json().expect("json")["data"], Value::from("aGk="));
    assert_eq!(blocks[3].as_text(), Some("second"));
    assert_eq!(context.result::<CallToolResult>(), Some(&result));
    assert_eq!(context.result::<Value>(), Some(&Value::from(5)));
    assert_eq!(context.result::<MetaObject>(), result.meta.as_ref());
}

#[test]
fn an_empty_result_is_one_empty_text() {
    let output = mcp_result_output(&CallToolResult::success(vec![])).ok().expect("output");
    assert_eq!(output.as_text(), Some(""));
}

#[test]
fn a_null_result_is_shown_as_null() {
    let mut result = CallToolResult::success(vec![]);
    result.structured_content = Some(Value::Null);
    let output = mcp_result_output(&result).ok().expect("output");
    assert_eq!(output.as_json(), Some(&Value::Null));
}

#[test]
fn an_error_result_is_a_denial_that_shows_its_output() {
    let mut context = ToolContext::new();
    let result = CallToolResult::error(vec![
        ContentBlock::text("denied (c): m"),
        ContentBlock::image("aGk=", "image/png"),
        ContentBlock::text("more"),
    ]);
    match RemoteReadIncident.accept(&mut context, result) {
        Err(ToolError::McpDenied { message, output }) => {
            assert_eq!(message, "denied (c): m\nmore");
            assert_eq!(output.as_content().len(), 3);
        }
        _ => panic!("not a denial"),
    }
    assert!(context.result::<CallToolResult>().is_some());
    assert!(context.result::<Value>().is_none());
}

#[test]
fn a_result_without_an_error_flag_is_no_error() {
    let mut context = ToolContext::new();
    let mut result = CallToolResult::success(vec![ContentBlock::text("x")]);
    result.is_error = None;
    let output = RemoteReadIncident.accept(&mut context, result).ok().expect("output");
    assert_eq!(output.as_text(), Some("x"));
}

#[test]
fn failed_requests_are_told_apart() {
    let late = ServiceError::Timeout { timeout: Duration::from_secs(30) };
    match map_service_error(late) {
        ToolError::Timeout(text) => assert_eq!(text, "MCP call exceeded 30s"),
        _ => panic!("not a timeout"),
    }
    match map_service_error(ServiceError::TransportClosed) {
        ToolError::Operation(text) => assert_eq!(text, "MCP request failed: Transport closed"),
        _ => panic!("not an operation"),
    }
}

#[test]
fn a_request_without_a_result_fails() {
    let mut context = ToolContext::new();
    match RemoteReadIncident.finish(&mut context, Ok(None)) {
        Err(ToolError::Operation(text)) => assert_eq!(text, "unexpected MCP response"),
        _ => panic!("not an operation"),
    }
    match RemoteReadIncident.finish(&mut context, Err(ServiceError::TransportClosed)) {
        Err(ToolError::Operation(text)) => assert_eq!(text, "MCP request failed: Transport closed"),
        _ => panic!("not an operation"),
    }
    assert!(context.result::<CallToolResult>().is_none());
}

#[test]
fn a_stolen_credential_reads_one_incident() {
    let (run, server) = graph();
    let stolen = stolen_credential(&run).ok().expect("stolen");
    assert_eq!(stolen.chain.len(), 2);
    assert_eq!(stolen.chain[1].authorized_holder(), &agent_public_key(&stolen.key));
    assert!(stolen.chain[1].is_terminal());
    let params = forged_request(&stolen.chain, &stolen.key, "INC-42", "INC-42").expect("request");
    let served = server.read_incident(&params.meta.expect("meta"), &incident("INC-42"));
    assert_eq!(served.answer.expect("result").is_error, Some(false));
    let params = forged_request(&stolen.chain, &stolen.key, "INC-99", "INC-99").expect("request");
    let served = server.read_incident(&params.meta.expect("meta"), &incident("INC-99"));
    assert_eq!(
        text_in(&served.answer.expect("result")),
        "denied (constraint-violation): Constraint not satisfied"
    );
}

#[test]
fn a_forged_request_is_refused_only_for_arguments_that_are_none() {
    let (run, _) = graph();
    let stolen = stolen_credential(&run).ok().expect("stolen");
    let long = "\u{1f6a8}".repeat(2048);
    let params = forged_request(&stolen.chain, &stolen.key, &long, "INC-42").expect("request");
    assert_eq!(params.arguments.expect("arguments")["incident_id"], "INC-42");
    let longer = "x".repeat(8193);
    assert_eq!(
        forged_request(&stolen.chain, &stolen.key, &longer, "INC-42").err(),
        Some("ValueTooLarge".to_string())
    );
}

#[test]
fn an_attacker_makes_six_attempts() {
    let (run, server) = graph();
    let stolen = stolen_credential(&run).ok().expect("stolen");
    let made = attempts(&stolen, &new_agent_key()).expect("requests");
    let mut seen = vec![];
    for (attack, params) in &made {
        let asked = params.arguments.as_ref().expect("arguments")["incident_id"].clone();
        let asked = asked.as_str().expect("text").to_string();
        let served = match &params.meta {
            Some(meta) => {
                let result = server.read_incident(meta, &incident(&asked)).answer;
                text_in(&result.expect("result"))
            }
            None => "none".to_string(),
        };
        let name = match attack {
            Attack::CopiedWarrant => "copied",
            Attack::OutOfScope => "outside",
            Attack::ChangedArguments => "changed",
            Attack::ValidCall => "valid",
            Attack::Replay => "replay",
            Attack::NoWarrant => "bare",
        };
        seen.push((name, asked, served.split(':').next().expect("head").to_string()));
    }
    let expected: Vec<(&str, String, String)> = [
        ("copied", "INC-42", "denied (signature-invalid)"),
        ("outside", "INC-99", "denied (constraint-violation)"),
        ("changed", "INC-42", "denied (signature-invalid)"),
        ("valid", "INC-42", "INC-42"),
        ("replay", "INC-42", "INC-42"),
        ("bare", "INC-42", "none"),
    ]
    .iter()
    .map(|e| (e.0, e.1.to_string(), e.2.to_string()))
    .collect();
    assert_eq!(seen, expected);
    assert_eq!(made[3].1.meta, made[4].1.meta);
}

#[test]
fn a_sent_chain_and_its_proof_come_back() {
    let (run, server) = graph();
    let mut context = run.context();
    let params = RemoteReadIncident.request(&mut context, &incident("INC-42")).result;
    let meta = params.ok().expect("request").meta.expect("meta");
    let decoded = decode_meta(&meta[TENUO_META_KEY]).ok().expect("decoded");
    let sent = run.authority.chain();
    assert_eq!(decoded.chain().len(), sent.len());
    assert_eq!(decoded.chain()[0].id(), sent[0].id());
    assert_eq!(decoded.chain()[0].authorized_holder(), sent[0].authorized_holder());
    assert!(decoded.chain()[0]
        .verify_pop(
            "read_incident",
            Call::try_from_json("read_incident", &Value::from_iter([("incident_id", "INC-42")]))
                .expect("call")
                .args(),
            Some(decoded.signature()),
            30,
            5,
        )
        .is_ok());
    let served = server.read_incident(&meta, &incident("INC-42"));
    assert_eq!(served.answer.expect("result").is_error, Some(false));
    let other = server.read_incident(&meta, &incident("INC-43"));
    assert_eq!(other.answer.expect("result").is_error, Some(true));
}

#[test]
fn the_longest_chain_of_the_graph_is_read_back() {
    let (run, server) = graph();
    let id = format!("INC-{}", "\u{1f6a8}".repeat(796));
    let mut context = run.context();
    let args = DelegateArgs { incident_id: id.clone() };
    let worker = DelegateIncident.begin(&mut context, &args).result.ok().expect("worker");
    let mut context = worker.authority.context();
    let args = SubtaskArgs { incident_id: id.clone(), scope: default_scope() };
    let reader = DelegateSubtask.begin(&mut context, &args).result.ok().expect("reader");
    let chain = reader.authority.authority.chain();
    assert_eq!(chain.len(), 3);
    assert!(chain[0].payload_bytes.len() <= 2832);
    assert!(chain[1].payload_bytes.len() <= 32_992);
    assert!(chain[2].payload_bytes.len() <= 10_272);
    let mut context = reader.authority.context();
    let params = RemoteReadIncident.request(&mut context, &incident(&id)).result;
    let meta = params.ok().expect("request").meta.expect("meta");
    let served = server.read_incident(&meta, &incident(&id));
    assert_eq!(served.answer.expect("result").is_error, Some(false));
}

#[test]
fn one_warrant_outside_a_list_is_read_too() {
    let (run, server) = graph();
    let mut context = run.context();
    let params = RemoteReadIncident.request(&mut context, &incident("INC-42")).result;
    let mut meta = params.ok().expect("request").meta.expect("meta");
    let mut envelope = meta[TENUO_META_KEY].clone();
    let alone = encode_base64(&run.authority.chain()[0]).expect("encoded");
    assert_ne!(envelope["warrant"], Value::from(alone.clone()));
    envelope["warrant"] = Value::from(alone);
    meta.insert(TENUO_META_KEY.to_string(), envelope);
    let served = server.read_incident(&meta, &incident("INC-42"));
    assert_eq!(served.answer.expect("result").is_error, Some(false));
}

#[test]
fn a_warrant_beyond_the_ceiling_is_denied_on_both_sides() {
    let root = new_agent_key();
    let key = new_agent_key();
    let mut set = ConstraintSet::new();
    set.insert("incident_id", Wildcard::new());
    for (ttl, allowed) in [(3600, true), (3601, false)] {
        let warrant = Warrant::builder()
            .capability("read_incident", set.clone())
            .holder(agent_public_key(&key))
            .ttl(Duration::from_secs(ttl))
            .build(&root)
            .expect("warrant");
        let run = orchestrator_authority(agent_public_key(&root), warrant.clone(), key.clone())
            .ok()
            .expect("authority");
        let mut context = run.context();
        let reported = RemoteReadIncident.request(&mut context, &incident("INC-42"));
        assert_eq!(reported.result.is_ok(), allowed);
        let guard = enforcement_point(agent_public_key(&root)).ok().expect("guard");
        let params = forged_request(&vec![warrant], &key, "INC-42", "INC-42").expect("request");
        let served = IncidentServer::new(guard)
            .read_incident(&params.meta.expect("meta"), &incident("INC-42"));
        assert_eq!(served.answer.expect("result").is_error, Some(!allowed));
    }
}

#[test]
fn a_bare_request_carries_no_authorization() {
    let params = bare_request("INC-42");
    assert_eq!(params.name, "read_incident");
    assert!(params.meta.is_none());
    assert_eq!(params.arguments.expect("arguments")["incident_id"], Value::from("INC-42"));
}

#[test]
fn replies_are_told_apart() {
    let served = CallToolResult::success(vec![ContentBlock::text("x")]);
    assert!(matches!(read_reply(Ok(served)), Reply::Served));
    let denied = CallToolResult::error(vec![ContentBlock::text("x")]);
    assert!(matches!(read_reply(Ok(denied)), Reply::Denied));
    match read_reply(Err(ServiceError::TransportClosed)) {
        Reply::Failed(text) => assert_eq!(text, "Transport closed"),
        _ => panic!("not a failure"),
    }
}

#[test]
fn verdicts_mark_what_should_not_have_happened() {
    assert_eq!(
        verdict(&Attack::OutOfScope, &Reply::Served),
        "   !! server allowed an out-of-scope call"
    );
    assert_eq!(
        verdict(&Attack::NoWarrant, &Reply::Served),
        "   !! server accepted a call with no warrant"
    );
    assert_eq!(
        verdict(&Attack::NoWarrant, &Reply::Denied),
        "   server: refused a call with no warrant at all"
    );
    assert_eq!(
        verdict(&Attack::NoWarrant, &Reply::Failed("one\r\ntwo".to_string())),
        "   server: refused a call with no warrant at all (one)"
    );
    assert_eq!(
        verdict(&Attack::ValidCall, &Reply::Denied),
        "   !! server denied a valid call"
    );
    assert_eq!(
        verdict(&Attack::Replay, &Reply::Failed("closed".to_string())),
        "   !! server denied an identical replay (closed)"
    );
    assert_eq!(
        verdict(&Attack::CopiedWarrant, &Reply::Served),
        "   !! server accepted a copied warrant"
    );
    assert_eq!(
        verdict(&Attack::ChangedArguments, &Reply::Served),
        "   !! server accepted changed arguments"
    );
}
