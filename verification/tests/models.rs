use rig::completion::CompletionRequest;
use rig::message::{
    AssistantContent, Message, ToolCallId, ToolResult, ToolResultContent, UserContent,
};
use rig::streaming::RawStreamingChoice;
use serde_json::Value;
use tenuo_rig::demo::{orchestrator_script, reader_script, worker_script};
use tenuo_rig::models::{respond, tool_result_texts, Responder, ScriptedModel, Step};

fn request(history: Vec<Message>) -> CompletionRequest {
    CompletionRequest {
        model: None,
        preamble: None,
        chat_history: history,
        documents: vec![],
        tools: vec![],
        temperature: None,
        max_tokens: None,
        tool_choice: None,
        additional_params: None,
        output_schema: None,
        record_telemetry_content: false,
    }
}

fn user(text: &str) -> Message {
    Message::User { content: vec![UserContent::text(text)] }
}

fn assistant(content: Vec<AssistantContent>) -> Message {
    Message::Assistant { id: None, content }
}

fn result(name: &str, content: Vec<ToolResultContent>) -> UserContent {
    UserContent::ToolResult(ToolResult {
        call: ToolCallId::new_or_mint("id"),
        provider: None,
        name: name.to_string(),
        content,
    })
}

fn pairs(list: &[(&str, &str)]) -> Vec<(String, String)> {
    list.iter().map(|p| (p.0.to_string(), p.1.to_string())).collect()
}

fn calls(steps: Vec<Step>) -> Vec<String> {
    let mut out = vec![];
    for step in steps {
        match step {
            Step::Call { tool, args } => out.push(format!("{tool} {args}")),
            Step::Calls(calls) => {
                for (tool, args) in calls {
                    out.push(format!("& {tool} {args}"));
                }
            }
            Step::Respond(_) => out.push("respond".to_string()),
        }
    }
    out
}

#[test]
fn results_are_flattened_in_order() {
    let request = request(vec![
        Message::System { content: "s".to_string() },
        user("prompt"),
        Message::User {
            content: vec![
                result("a", vec![ToolResultContent::text("one"), ToolResultContent::text("two")]),
                UserContent::text("ignored"),
                result("b", vec![ToolResultContent::json(Value::from(7))]),
            ],
        },
        assistant(vec![AssistantContent::text("ignored")]),
        Message::User {
            content: vec![result(
                "a",
                vec![ToolResultContent::image_url("http://x", None, None)],
            )],
        },
    ]);
    assert_eq!(
        tool_result_texts(&request),
        pairs(&[("a", "one\ntwo"), ("b", "7"), ("a", "[non-text result]")])
    );
}

#[test]
fn a_model_plays_one_step_in_each_turn() {
    let model = ScriptedModel::new("orchestrator", orchestrator_script());
    let mut history = vec![user("go")];
    let first = model.completion(&request(history.clone()));
    assert_eq!(first.provider, "orchestrator");
    assert_eq!(first.usage.total_tokens, 1);
    assert_eq!(first.usage.input_tokens, 0);
    assert_eq!(first.choice.len(), 1);
    match &first.choice[0] {
        AssistantContent::ToolCall(call) => {
            assert_eq!(call.id.as_str(), "orchestrator-turn-0-scale_cluster-call-0");
            assert_eq!(call.function.name, "scale_cluster");
            assert_eq!(
                call.function.arguments.to_string(),
                "{\"cluster\":\"staging-web\",\"replicas\":3}"
            );
        }
        _ => panic!("not a call"),
    }
    history.push(assistant(first.choice));
    history.push(assistant(vec![AssistantContent::text("no turn")]));
    let second = model.completion(&request(history.clone()));
    history.push(assistant(second.choice));
    let third = model.completion(&request(history.clone()));
    assert_eq!(third.choice.len(), 2);
    match &third.choice[1] {
        AssistantContent::ToolCall(call) => {
            assert_eq!(call.id.as_str(), "orchestrator-turn-2-delegate_incident-call-1");
            assert_eq!(call.function.arguments.to_string(), "{\"incident_id\":\"INC-43\"}");
        }
        _ => panic!("not a call"),
    }
    history.push(assistant(third.choice));
    let (turn, step) = model.next(&request(history.clone()));
    assert_eq!(turn, 3);
    assert!(matches!(step, Step::Respond(Responder::Orchestrator)));
}

#[test]
fn a_copy_of_a_model_plays_the_same_step() {
    let model = ScriptedModel::new("reader", reader_script("INC-42"));
    let copy = model.clone();
    let history = vec![user("go")];
    let a = model.completion(&request(history.clone()));
    let b = copy.completion(&request(history));
    assert_eq!(a.choice, b.choice);
}

#[test]
fn a_model_is_done_beyond_its_script() {
    let model = ScriptedModel::new("empty", vec![]);
    let response = model.completion(&request(vec![user("go")]));
    assert_eq!(response.choice, vec![AssistantContent::text("Done.")]);
}

#[test]
fn a_stream_holds_the_same_choices() {
    let model = ScriptedModel::new("orchestrator", orchestrator_script());
    let call = AssistantContent::tool_call("x", "t", Value::Null);
    let history = vec![user("go"), assistant(vec![call.clone()]), assistant(vec![call])];
    let items = model.stream(&request(history));
    assert_eq!(items.len(), 3);
    match &items[1] {
        RawStreamingChoice::ToolCall(call) => {
            assert_eq!(
                call.tool_id.as_ref().expect("id").as_str(),
                "orchestrator-turn-2-delegate_incident-call-1"
            );
            assert_eq!(call.name, "delegate_incident");
            assert_eq!(call.arguments.to_string(), "{\"incident_id\":\"INC-43\"}");
        }
        _ => panic!("not a call"),
    }
    match &items[2] {
        RawStreamingChoice::FinalResponse(end) => {
            assert_eq!(end.provider, "orchestrator");
            assert_eq!(end.usage.total_tokens, 1);
        }
        _ => panic!("not the end"),
    }
}

#[test]
fn a_stream_ends_with_a_message() {
    let model = ScriptedModel::new("empty", vec![]);
    let items = model.stream(&request(vec![user("go")]));
    assert_eq!(items.len(), 2);
    match &items[0] {
        RawStreamingChoice::Message(text) => assert_eq!(text, "Done."),
        _ => panic!("not a message"),
    }
}

#[test]
fn a_single_call_is_streamed() {
    let model = ScriptedModel::new("reader", reader_script("INC-9"));
    let items = model.stream(&request(vec![user("go")]));
    assert_eq!(items.len(), 2);
    match &items[0] {
        RawStreamingChoice::ToolCall(call) => {
            assert_eq!(call.arguments.to_string(), "{\"incident_id\":\"INC-9\"}");
        }
        _ => panic!("not a call"),
    }
}

#[test]
fn the_orchestrator_reports_what_it_was_told() {
    let results = pairs(&[
        ("scale_cluster", "scaled staging-web to 3 replicas"),
        ("scale_cluster", "denied (constraint-violation): Constraint not satisfied"),
        ("delegate_incident", "r1"),
        ("delegate_incident", "r2"),
    ]);
    assert_eq!(
        respond(&Responder::Orchestrator, &results),
        "Staging scale succeeded. Production scale was denied: denied (constraint-violation): Constraint not satisfied. Received 2 worker report(s)."
    );
    assert_eq!(
        respond(&Responder::Orchestrator, &vec![]),
        "Staging scale was denied: no result. Production scale was denied: no result. Received 0 worker report(s)."
    );
}

#[test]
fn workers_and_readers_report_what_they_read() {
    let results = pairs(&[
        ("read_incident", "INC-42: severity=high"),
        ("delegate_subtask", "x"),
        ("read_incident", "denied (c): m"),
    ]);
    assert_eq!(
        respond(&Responder::Worker, &results),
        "Reported: INC-42: severity=high. Peer incident: denied (c): m."
    );
    assert_eq!(
        respond(&Responder::Reader, &results),
        "Timeline collected: INC-42: severity=high."
    );
    assert_eq!(respond(&Responder::Done, &results), "Done.");
}

#[test]
fn the_scripts_are_the_documented_ones() {
    assert_eq!(
        calls(orchestrator_script()),
        vec![
            "scale_cluster {\"cluster\":\"staging-web\",\"replicas\":3}",
            "scale_cluster {\"cluster\":\"production-web\",\"replicas\":20}",
            "& delegate_incident {\"incident_id\":\"INC-42\"}",
            "& delegate_incident {\"incident_id\":\"INC-43\"}",
            "respond",
        ]
    );
    assert_eq!(
        calls(worker_script("INC-42")),
        vec![
            "read_incident {\"incident_id\":\"INC-42\"}",
            "read_incident {\"incident_id\":\"INC-43\"}",
            "delegate_subtask {\"incident_id\":\"INC-42\",\"scope\":\"incident\"}",
            "delegate_subtask {\"incident_id\":\"INC-42\",\"scope\":\"all-incidents\"}",
            "respond",
        ]
    );
    assert_eq!(
        calls(worker_script("INC-43")),
        vec![
            "read_incident {\"incident_id\":\"INC-43\"}",
            "read_incident {\"incident_id\":\"INC-42\"}",
            "respond",
        ]
    );
    assert_eq!(
        calls(reader_script("INC-42")),
        vec!["read_incident {\"incident_id\":\"INC-42\"}", "respond"]
    );
}

#[test]
fn the_identifiers_of_calls_differ() {
    let model = ScriptedModel::new("orchestrator", orchestrator_script());
    let mut history = vec![user("go")];
    let mut ids: Vec<String> = vec![];
    for _ in 0..4 {
        let choice = model.completion(&request(history.clone())).choice;
        for content in &choice {
            if let AssistantContent::ToolCall(call) = content {
                ids.push(call.id.as_str().to_string());
            }
        }
        history.push(assistant(choice));
    }
    let mut sorted = ids.clone();
    sorted.sort();
    sorted.dedup();
    assert!(ids.len() > 2);
    assert_eq!(sorted.len(), ids.len());
}
