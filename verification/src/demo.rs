//! The on-call scene: what the scripted agents play, and how they are told.

use crate::json;
use crate::models;
use crate::models::{Responder, Step};
use crate::text;
use crate::tools::delegate_incident::DelegateArgs;
use crate::tools::delegate_subtask;
use crate::tools::delegate_subtask::SubtaskArgs;
use crate::tools::incident_mcp;
use crate::tools::incident_mcp::IncidentArgs;
use crate::tools::scale_cluster;
use crate::tools::scale_cluster::ScaleArgs;
use crate::tools::ToolArguments;
use serde_json::Value;
use vstd::prelude::*;

verus! {

/// What the orchestrator is asked.
pub const ORCHESTRATOR_PROMPT: &'static str =
    "Scale staging-web to 3 replicas, then scale production-web to 20, then investigate INC-42 and INC-43 in parallel and summarize.";

/// How many turns the orchestrator has.
pub const ORCHESTRATOR_TURNS: usize = 10;

/// How many tools the orchestrator may run at once.
pub const ORCHESTRATOR_CONCURRENCY: usize = 2;

/// What the orchestrator is told of its work.
pub const ORCHESTRATOR_PREAMBLE: &'static str =
    "You are the on-call orchestrator. Use tools. Never claim an action succeeded if the tool denied it.";

/// What a worker is told of its work.
pub const WORKER_PREAMBLE: &'static str =
    "You investigate one incident. Use read_incident, and delegate_subtask for sub-steps. Report what you found and what you could not do.";

/// What a reader is told of its work.
pub const READER_PREAMBLE: &'static str =
    "You collect one incident's timeline with read_incident and report.";

/// A step that reads an incident.
pub open spec fn read_step(incident_id: Seq<char>) -> models::StepModel {
    models::StepModel::Call {
        tool: "read_incident"@,
        args: incident_mcp::incident_json(incident_id),
    }
}

/// A step that scales a cluster.
pub open spec fn scale_step(cluster: Seq<char>, replicas: int) -> models::StepModel {
    models::StepModel::Call {
        tool: "scale_cluster"@,
        args: scale_cluster::scale_json(cluster, replicas),
    }
}

/// A step that hands out a step of an incident.
pub open spec fn subtask_step(incident_id: Seq<char>, scope: Seq<char>) -> models::StepModel {
    models::StepModel::Call {
        tool: "delegate_subtask"@,
        args: delegate_subtask::subtask_json(incident_id, scope),
    }
}

/// The reader's script: read the incident, then report.
pub open spec fn reader_steps(incident_id: Seq<char>) -> Seq<models::StepModel> {
    seq![read_step(incident_id), models::StepModel::Respond(Responder::Reader)]
}

/// The incident of a worker's peer.
pub open spec fn peer_of(incident_id: Seq<char>) -> Seq<char> {
    if incident_id == "INC-42"@ {
        "INC-43"@
    } else {
        "INC-42"@
    }
}

/// The worker's script: read its own incident, then try the peer's; the worker on
/// INC-42 also hands out a step, then asks for more than it holds.
pub open spec fn worker_steps(incident_id: Seq<char>) -> Seq<models::StepModel> {
    let reads = seq![read_step(incident_id), read_step(peer_of(incident_id))];
    let steps = if incident_id == "INC-42"@ {
        reads.push(subtask_step(incident_id, "incident"@)).push(
            subtask_step(incident_id, "all-incidents"@),
        )
    } else {
        reads
    };
    steps.push(models::StepModel::Respond(Responder::Worker))
}

/// The orchestrator's script: scale staging, try production, hand out two
/// incidents at once, then summarize.
pub open spec fn orchestrator_steps() -> Seq<models::StepModel> {
    seq![
        scale_step("staging-web"@, 3),
        scale_step("production-web"@, 20),
        models::StepModel::Calls(
            seq![
                ("delegate_incident"@, incident_mcp::incident_json("INC-42"@)),
                ("delegate_incident"@, incident_mcp::incident_json("INC-43"@)),
            ],
        ),
        models::StepModel::Respond(Responder::Orchestrator),
    ]
}

/// Makes a step that reads an incident.
fn make_read(incident_id: &str) -> (r: Step)
    ensures
        r.model() == read_step(incident_id@),
{
    let args = IncidentArgs { incident_id: incident_id.to_owned() };
    Step::Call { tool: "read_incident".to_owned(), args: args.to_value() }
}

/// Makes a step that scales a cluster.
fn make_scale(cluster: &str, replicas: i64) -> (r: Step)
    ensures
        r.model() == scale_step(cluster@, replicas as int),
{
    let args = ScaleArgs { cluster: cluster.to_owned(), replicas };
    Step::Call { tool: "scale_cluster".to_owned(), args: args.to_value() }
}

/// Makes a step that hands out a step of an incident.
fn make_subtask(incident_id: &str, scope: &str) -> (r: Step)
    ensures
        r.model() == subtask_step(incident_id@, scope@),
{
    let args = SubtaskArgs { incident_id: incident_id.to_owned(), scope: scope.to_owned() };
    Step::Call { tool: "delegate_subtask".to_owned(), args: args.to_value() }
}

/// Makes the arguments that hand out an incident.
fn make_delegation(incident_id: &str) -> (r: Value)
    ensures
        json::json_of(r) == incident_mcp::incident_json(incident_id@),
{
    let args = DelegateArgs { incident_id: incident_id.to_owned() };
    args.to_value()
}

/// The reader's script.
pub fn reader_script(incident_id: &str) -> (r: Vec<Step>)
    ensures
        models::script_of(r@) == reader_steps(incident_id@),
{
    let steps: Vec<Step> = vec![make_read(incident_id), Step::Respond(Responder::Reader)];
    assert(models::script_of(steps@) =~= reader_steps(incident_id@));
    steps
}

/// The worker's script.
pub fn worker_script(incident_id: &str) -> (r: Vec<Step>)
    ensures
        models::script_of(r@) == worker_steps(incident_id@),
{
    let first = text::same(incident_id, "INC-42");
    let peer = if first {
        "INC-43"
    } else {
        "INC-42"
    };
    let mut steps: Vec<Step> = vec![make_read(incident_id), make_read(peer)];
    if first {
        steps.push(make_subtask(incident_id, "incident"));
        steps.push(make_subtask(incident_id, "all-incidents"));
    }
    steps.push(Step::Respond(Responder::Worker));
    assert(models::script_of(steps@) =~= worker_steps(incident_id@));
    steps
}

/// The orchestrator's script.
pub fn orchestrator_script() -> (r: Vec<Step>)
    ensures
        models::script_of(r@) == orchestrator_steps(),
{
    let calls: Vec<(String, Value)> = vec![
        ("delegate_incident".to_owned(), make_delegation("INC-42")),
        ("delegate_incident".to_owned(), make_delegation("INC-43")),
    ];
    assert(models::call_views(calls@) =~= seq![
        ("delegate_incident"@, incident_mcp::incident_json("INC-42"@)),
        ("delegate_incident"@, incident_mcp::incident_json("INC-43"@)),
    ]);
    let steps: Vec<Step> = vec![
        make_scale("staging-web", 3),
        make_scale("production-web", 20),
        Step::Calls(calls),
        Step::Respond(Responder::Orchestrator),
    ];
    assert(models::script_of(steps@) =~= orchestrator_steps());
    steps
}

}
