use rig::completion::CompletionRequest;
use rig::message::{AssistantContent, Message, ToolResult, ToolResultContent, UserContent};
use rmcp::model::{CallToolRequestParams, CallToolResult, RequestMetaObject};
use rmcp::service::ServiceError;
use serde_json::Value;
use tenuo_rig::attack::{
    attempts, read_reply, stolen_credential, verdict,
};
use tenuo_rig::authority::{Reported, RunAuthority, ToolError};
use tenuo_rig::demo::{
    orchestrator_script, reader_script, worker_script, ORCHESTRATOR_PROMPT,
};
use tenuo_rig::issuer::{
    agent_public_key, enforcement_point, new_agent_key, orchestrator_authority, ControlPlane,
};
use tenuo_rig::models::ScriptedModel;
use tenuo_rig::root_key::{parse_root_key, root_key_text};
use tenuo_rig::server::IncidentServer;
use tenuo_rig::tools::agent_report;
use tenuo_rig::tools::delegate_incident::{DelegateArgs, DelegateIncident};
use tenuo_rig::tools::delegate_subtask::{DelegateSubtask, SubtaskArgs};
use tenuo_rig::tools::incident_mcp::{IncidentArgs, RemoteReadIncident};
use tenuo_rig::tools::scale_cluster::{ScaleArgs, ScaleCluster};

struct DemoOutput {
    stdout: String,
    stderr: String,
}

struct World {
    server: IncidentServer,
    out: Vec<String>,
    err: Vec<String>,
}

fn text_of(value: &Value, key: &str) -> String {
    value[key].as_str().expect("text").to_string()
}

fn serve(world: &mut World, params: CallToolRequestParams) -> Result<CallToolResult, ServiceError> {
    let meta = params.meta.unwrap_or_else(RequestMetaObject::new);
    let arguments = params.arguments.expect("arguments");
    let incident_id = arguments["incident_id"].as_str().expect("text").to_string();
    let served = world.server.read_incident(&meta, &IncidentArgs { incident_id });
    world.err.extend(served.lines);
    served.answer.map_err(ServiceError::McpError)
}

fn shown(result: Result<String, ToolError>) -> Vec<ToolResultContent> {
    match result {
        Ok(text) => vec![ToolResultContent::text(text)],
        Err(error) => error.into_execution_error().model_output().as_content().to_vec(),
    }
}

fn logged<T>(world: &mut World, reported: Reported<T>) -> Result<T, ToolError> {
    world.out.extend(reported.lines);
    reported.result
}

fn dispatch(
    world: &mut World,
    run: &RunAuthority,
    tool: &str,
    args: &Value,
) -> Vec<ToolResultContent> {
    let mut context = run.context();
    match tool {
        "scale_cluster" => {
            let replicas = args["replicas"].as_i64().expect("number");
            let args = ScaleArgs { cluster: text_of(args, "cluster"), replicas };
            let reported = ScaleCluster.call(&mut context, &args);
            shown(logged(world, reported))
        }
        "delegate_incident" => {
            let incident_id = text_of(args, "incident_id");
            let args = DelegateArgs { incident_id: incident_id.clone() };
            let reported = DelegateIncident.begin(&mut context, &args);
            let result = match logged(world, reported) {
                Ok(handoff) => {
                    let model = ScriptedModel::new("worker", worker_script(&incident_id));
                    agent_report(Ok(play(world, &model, &handoff.authority, &handoff.prompt)))
                }
                Err(error) => Err(error),
            };
            shown(result)
        }
        "delegate_subtask" => {
            let incident_id = text_of(args, "incident_id");
            let args = SubtaskArgs {
                incident_id: incident_id.clone(),
                scope: text_of(args, "scope"),
            };
            let reported = DelegateSubtask.begin(&mut context, &args);
            let result = match logged(world, reported) {
                Ok(handoff) => {
                    let model = ScriptedModel::new("reader", reader_script(&incident_id));
                    agent_report(Ok(play(world, &model, &handoff.authority, &handoff.prompt)))
                }
                Err(error) => Err(error),
            };
            shown(result)
        }
        "read_incident" => {
            let args = IncidentArgs { incident_id: text_of(args, "incident_id") };
            let reported = RemoteReadIncident.request(&mut context, &args);
            let output = match logged(world, reported) {
                Ok(params) => {
                    let outcome = serve(world, params).map(Some);
                    RemoteReadIncident.finish(&mut context, outcome)
                }
                Err(error) => Err(error),
            };
            match output {
                Ok(output) => output.into_content(),
                Err(error) => error.into_execution_error().model_output().as_content().to_vec(),
            }
        }
        _ => panic!("unknown tool"),
    }
}

fn request(history: &[Message]) -> CompletionRequest {
    CompletionRequest {
        model: None,
        preamble: None,
        chat_history: history.to_vec(),
        documents: vec![],
        tools: vec![],
        temperature: None,
        max_tokens: None,
        tool_choice: None,
        additional_params: None,
        output_schema: None,
        record_telemetry_content: false,
    }
}

fn play(world: &mut World, model: &ScriptedModel, run: &RunAuthority, prompt: &str) -> String {
    let mut history = vec![Message::User { content: vec![UserContent::text(prompt)] }];
    loop {
        let response = model.completion(&request(&history));
        let mut results = vec![];
        for item in &response.choice {
            match item {
                AssistantContent::Text(text) => return text.text.clone(),
                AssistantContent::ToolCall(call) => {
                    let name = &call.function.name;
                    let content = dispatch(world, run, name, &call.function.arguments);
                    results.push(UserContent::ToolResult(ToolResult {
                        call: call.id.clone(),
                        provider: call.provider.clone(),
                        name: name.clone(),
                        content,
                    }));
                }
                _ => panic!("unexpected choice"),
            }
        }
        history.push(Message::Assistant { id: None, content: response.choice.clone() });
        history.push(Message::User { content: results });
    }
}

fn demo_output() -> DemoOutput {
    let plane = ControlPlane::start();
    let key = new_agent_key();
    let warrant = plane
        .mint_orchestrator_warrant(&agent_public_key(&key))
        .expect("mint");
    let root_text = root_key_text(&plane.root_public_key());
    let run = orchestrator_authority(plane.root_public_key(), warrant, key)
        .ok()
        .expect("authority");
    let root = parse_root_key(&root_text).ok().expect("root key");
    let guard = enforcement_point(root).ok().expect("guard");
    let mut world = World { server: IncidentServer::new(guard), out: vec![], err: vec![] };

    let model = ScriptedModel::new("orchestrator", orchestrator_script());
    let answer = play(&mut world, &model, &run, ORCHESTRATOR_PROMPT);
    world.out.push(format!("   orchestrator: {answer}"));

    let stolen = stolen_credential(&run).ok().expect("stolen");
    let other_key = new_agent_key();
    for (attack, params) in attempts(&stolen, &other_key).expect("requests") {
        let reply = read_reply(serve(&mut world, params));
        world.out.push(verdict(&attack, &reply));
    }

    DemoOutput { stdout: world.out.join("\n"), stderr: world.err.join("\n") }
}

#[test]
fn rig_dispatch_enforces_argument_constraints() {
    let output = demo_output();
    assert!(output.stdout.contains(
        "[tenuo] allow  orchestrator   scale_cluster {\"cluster\":\"staging-web\",\"replicas\":3}"
    ));
    assert!(output.stdout.contains(
        "[tenuo] deny   orchestrator   scale_cluster {\"cluster\":\"production-web\",\"replicas\":20}  (constraint-violation)"
    ));
}

#[test]
fn scripted_model_reports_the_actual_model_visible_denial() {
    let output = demo_output();
    assert!(output.stdout.contains(
        "orchestrator: Staging scale succeeded. Production scale was denied: denied (constraint-violation): Constraint not satisfied."
    ));
}

#[test]
fn delegated_workers_are_isolated_and_cannot_widen_authority() {
    let output = demo_output();
    assert!(output.stdout.contains(
        "worker[INC-42] read_incident {\"incident_id\":\"INC-43\"}  (constraint-violation)"
    ));
    assert!(output.stdout.contains(
        "worker[INC-43] read_incident {\"incident_id\":\"INC-42\"}  (constraint-violation)"
    ));
    assert!(output.stdout.contains("reader[INC-42] holder="));
    assert!(output.stdout.contains("depth=3 ttl=120s terminal"));
    assert!(output.stdout.contains("denied (invalid-attenuation)"));
    assert!(output.stdout.contains("cannot attenuate Exact to Pattern"));
}

#[test]
fn mcp_server_verifies_delegated_calls_independently() {
    let output = demo_output();
    assert!(output.stderr.contains("[mcp-server] verified read_incident INC-42"));
    assert!(output.stderr.contains("[mcp-server] verified read_incident INC-43"));
    assert!(output.stderr.contains("chain depth 2"));
    assert!(output.stderr.contains("chain depth 3"));
}

#[test]
fn mcp_server_enforces_holder_binding_scope_and_argument_integrity() {
    let output = demo_output();
    assert!(output
        .stdout
        .contains("server: rejected a copied warrant signed by a different key"));
    assert!(output.stderr.contains("[mcp-server] denied   read_incident INC-99"));
    assert!(output
        .stdout
        .contains("server: bounded a compromised holder to its warrant"));
    assert!(output
        .stdout
        .contains("server: rejected a proof signed for different arguments"));
    assert!(output
        .stderr
        .contains("[mcp-server] refused  read_incident INC-42: no authorization metadata"));
    assert!(output
        .stdout
        .contains("server: refused a call with no warrant at all"));
}

#[test]
fn demo_discloses_that_identical_replay_is_accepted() {
    let output = demo_output();
    assert!(output
        .stdout
        .contains("server: accepted a valid call from the compromised holder"));
    assert!(output
        .stdout
        .contains("server: accepted an identical replay (demo has no deduplication)"));
}

#[test]
fn the_transcript_is_the_documented_one() {
    let output = demo_output();
    let lines: Vec<String> = output
        .stdout
        .lines()
        .map(|line| match line.find("holder=") {
            Some(at) => format!("{}holder=#{}", &line[..at], &line[at + 23..]),
            None => line.to_string(),
        })
        .collect();
    assert_eq!(
        lines,
        vec![
            "      [tenuo] allow  orchestrator   scale_cluster {\"cluster\":\"staging-web\",\"replicas\":3}",
            "      [tenuo] deny   orchestrator   scale_cluster {\"cluster\":\"production-web\",\"replicas\":20}  (constraint-violation)",
            "      [tenuo] allow  orchestrator   delegate_incident {\"incident_id\":\"INC-42\"}",
            "      [tenuo] child  worker[INC-42] holder=# depth=2 ttl=300s may_delegate_to_depth=2",
            "      [tenuo] allow  worker[INC-42] read_incident {\"incident_id\":\"INC-42\"}",
            "      [tenuo] deny   worker[INC-42] read_incident {\"incident_id\":\"INC-43\"}  (constraint-violation)",
            "      [tenuo] allow  worker[INC-42] delegate_subtask {\"incident_id\":\"INC-42\",\"scope\":\"incident\"}",
            "      [tenuo] child  reader[INC-42] holder=# depth=3 ttl=120s terminal",
            "      [tenuo] allow  reader[INC-42] read_incident {\"incident_id\":\"INC-42\"}",
            "      [tenuo] allow  worker[INC-42] delegate_subtask {\"incident_id\":\"INC-42\",\"scope\":\"all-incidents\"}",
            "      [tenuo] refuse worker[INC-42] mint for scope=all-incidents: denied (invalid-attenuation): incompatible constraint types: cannot attenuate Exact to Pattern",
            "      [tenuo] allow  orchestrator   delegate_incident {\"incident_id\":\"INC-43\"}",
            "      [tenuo] child  worker[INC-43] holder=# depth=2 ttl=300s may_delegate_to_depth=2",
            "      [tenuo] allow  worker[INC-43] read_incident {\"incident_id\":\"INC-43\"}",
            "      [tenuo] deny   worker[INC-43] read_incident {\"incident_id\":\"INC-42\"}  (constraint-violation)",
            "   orchestrator: Staging scale succeeded. Production scale was denied: denied (constraint-violation): Constraint not satisfied. Received 2 worker report(s).",
            "   server: rejected a copied warrant signed by a different key",
            "   server: bounded a compromised holder to its warrant",
            "   server: rejected a proof signed for different arguments",
            "   server: accepted a valid call from the compromised holder",
            "   server: accepted an identical replay (demo has no deduplication)",
            "   server: refused a call with no warrant at all (Mcp error: -32602: missing Tenuo authorization metadata)",
        ]
    );
}

#[test]
fn the_server_log_is_the_documented_one() {
    let output = demo_output();
    let lines: Vec<String> = output
        .stderr
        .lines()
        .map(|line| match line.find("holder ") {
            Some(at) => format!("{}holder #{}", &line[..at], &line[at + 23..]),
            None => line.to_string(),
        })
        .collect();
    assert_eq!(
        lines,
        vec![
            "      [mcp-server] verified read_incident INC-42 for holder # (chain depth 2)",
            "      [mcp-server] verified read_incident INC-42 for holder # (chain depth 3)",
            "      [mcp-server] verified read_incident INC-43 for holder # (chain depth 2)",
            "      [mcp-server] denied   read_incident INC-42 for holder #: signature-invalid",
            "      [mcp-server] denied   read_incident INC-99 for holder #: constraint-violation",
            "      [mcp-server] denied   read_incident INC-42 for holder #: signature-invalid",
            "      [mcp-server] verified read_incident INC-42 for holder # (chain depth 2)",
            "      [mcp-server] verified read_incident INC-42 for holder # (chain depth 2)",
            "      [mcp-server] refused  read_incident INC-42: no authorization metadata",
        ]
    );
}
