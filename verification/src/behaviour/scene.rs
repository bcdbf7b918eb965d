//! The on-call scene: what each agent plays and is told, what the attacker tries and what
//! is said of it, who provides a live model, and how the tools are described.

use crate::attack;
use crate::attack::{Attack, Reply, Stolen};
use crate::authority;
use crate::authority::{RunAuthority, ToolError};
use crate::behaviour::delegating;
use crate::demo;
use crate::grant;
use crate::issuer;
use crate::json;
use crate::json::Json;
use crate::mcp_api;
use crate::models;
use crate::models::{Responder, Step, StepModel};
use crate::provider;
use crate::provider::Provider;
use crate::tenuo_api;
use crate::tenuo_api::DelegationFault;
use crate::text;
use crate::tools::delegate_incident::DelegateIncident;
use crate::tools::delegate_subtask;
use crate::tools::delegate_subtask::DelegateSubtask;
use crate::tools::incident_mcp::RemoteReadIncident;
use crate::tools::read_incident::ReadIncident;
use crate::tools::scale_cluster::ScaleCluster;
use rmcp::model::{CallToolRequestParams, CallToolResult};
use rmcp::service::ServiceError;
use serde_json::Value;
use tenuo::sdk::prelude::{SigningKey, Warrant};
use vstd::prelude::*;

verus! {

// ------------------------------------------------------------------- scripts

/// A step that reads an incident.
pub open spec fn reads(incident_id: Seq<char>) -> StepModel {
    StepModel::Call {
        tool: "read_incident"@,
        args: Json::Object(map!["incident_id"@ => Json::Text(incident_id)]),
    }
}

/// A step that scales a cluster.
pub open spec fn scales(cluster: Seq<char>, replicas: int) -> StepModel {
    StepModel::Call {
        tool: "scale_cluster"@,
        args: Json::Object(
            map!["cluster"@ => Json::Text(cluster), "replicas"@ => Json::Integer(replicas)],
        ),
    }
}

/// A step that hands out a step of an incident.
pub open spec fn hands_out(incident_id: Seq<char>, scope: Seq<char>) -> StepModel {
    StepModel::Call {
        tool: "delegate_subtask"@,
        args: Json::Object(
            map!["incident_id"@ => Json::Text(incident_id), "scope"@ => Json::Text(scope)],
        ),
    }
}

/// A reader reads its incident, then reports.
pub proof fn law_what_a_reader_plays(incident_id: &str, r: Vec<Step>)
    requires
        call_ensures(demo::reader_script, (incident_id,), r),
    ensures
        models::script_of(r@) == seq![
            reads(incident_id@),
            StepModel::Respond(Responder::Reader),
        ],
{
}

/// A worker reads its own incident first, then tries another, reports in the end, and in
/// between hands out nothing but steps of its own incident: the worker on INC-42 one
/// within what it holds and one beyond it, and every other worker none.
pub proof fn law_what_a_worker_plays(incident_id: &str, r: Vec<Step>)
    requires
        call_ensures(demo::worker_script, (incident_id,), r),
    ensures
        ({
            let script = models::script_of(r@);
            let peer = if incident_id@ == "INC-42"@ {
                "INC-43"@
            } else {
                "INC-42"@
            };
            &&& script.len() == (if incident_id@ == "INC-42"@ {
                5int
            } else {
                3int
            })
            &&& script[0] == reads(incident_id@)
            &&& script[1] == reads(peer)
            &&& peer != incident_id@
            &&& incident_id@ == "INC-42"@ ==> script[2] == hands_out(incident_id@, "incident"@)
            &&& incident_id@ == "INC-42"@ ==> script[3] == hands_out(
                incident_id@,
                "all-incidents"@,
            )
            &&& script.last() == StepModel::Respond(Responder::Worker)
        }),
{
    reveal_strlit("INC-42");
    reveal_strlit("INC-43");
    assert("INC-42"@[5] != "INC-43"@[5]);
}

/// The orchestrator scales staging within its cap, tries production beyond it, hands out
/// two incidents at once, then reports.
pub proof fn law_what_the_orchestrator_plays(r: Vec<Step>)
    requires
        call_ensures(demo::orchestrator_script, (), r),
    ensures
        models::script_of(r@) == seq![
            scales("staging-web"@, 3),
            scales("production-web"@, 20),
            StepModel::Calls(
                seq![
                    (
                        "delegate_incident"@,
                        Json::Object(map!["incident_id"@ => Json::Text("INC-42"@)]),
                    ),
                    (
                        "delegate_incident"@,
                        Json::Object(map!["incident_id"@ => Json::Text("INC-43"@)]),
                    ),
                ],
            ),
            StepModel::Respond(Responder::Orchestrator),
        ],
{
}

/// What the agents are told, and how many turns the orchestrator has and how many tools it
/// may run at once.
pub proof fn law_what_the_agents_are_told()
    ensures
        demo::ORCHESTRATOR_PROMPT@
            == "Scale staging-web to 3 replicas, then scale production-web to 20, then investigate INC-42 and INC-43 in parallel and summarize."@,
        demo::ORCHESTRATOR_PREAMBLE@
            == "You are the on-call orchestrator. Use tools. Never claim an action succeeded if the tool denied it."@,
        demo::WORKER_PREAMBLE@
            == "You investigate one incident. Use read_incident, and delegate_subtask for sub-steps. Report what you found and what you could not do."@,
        demo::READER_PREAMBLE@
            == "You collect one incident's timeline with read_incident and report."@,
        demo::ORCHESTRATOR_TURNS == 10,
        demo::ORCHESTRATOR_CONCURRENCY == 2,
{
}

// ------------------------------------------------------------------- the attacker

/// What is taken is a chain that the guard itself minted, for a key that was drawn for it,
/// one warrant below the run's; where nothing is, the guard refused it for its own reason.
pub proof fn law_what_is_taken(run: &RunAuthority, r: Result<Stolen, ToolError>)
    requires
        call_ensures(attack::stolen_credential, (run,), r),
    ensures
        match r {
            Ok(stolen) => {
                let chain = tenuo_api::warrants_of(stolen.chain@);
                &&& issuer::is_drawn(stolen.key)
                &&& attack::guard_gave_chain(
                    *run,
                    tenuo_api::public_half(stolen.key),
                    attack::stolen_profile(),
                    Ok(stolen.chain),
                )
                &&& chain.drop_last() == run.model().chain
                &&& chain.last().holder == tenuo_api::public_half(stolen.key)
                &&& chain.last().grants == map![
                    "read_incident"@ => delegating::this_incident("INC-42"@),
                ]
                &&& chain.last().max_depth == chain.last().depth
                &&& delegating::lasts(run.model().chain.last(), chain.last(), 300)
            },
            Err(error) => if run.model().chain[0].depth < u32::MAX {
                exists|holder: Seq<u8>, reason: DelegationFault| #[trigger]
                    attack::guard_gave_chain(*run, holder, attack::stolen_profile(), Err(reason))
                        && delegating::refusal_says(reason, error.model())
            } else {
                error.model() == authority::Fault::Operation(
                    "delegate: "@ + "chain is too deep"@,
                )
            },
        },
{
    match r {
        Ok(stolen) => {
            let chain = tenuo_api::warrants_of(stolen.chain@);
            assert(chain.drop_last() =~= run.model().chain);
        },
        Err(error) => {
            if run.model().chain[0].depth < u32::MAX {
                let (holder, reason): (Seq<u8>, DelegationFault) = choose|
                    holder: Seq<u8>,
                    reason: DelegationFault,
                | #[trigger]
                    attack::guard_gave_chain(*run, holder, attack::stolen_profile(), Err(reason))
                        && error.model() == authority::delegation_fault(reason);
                assert(attack::guard_gave_chain(
                    *run,
                    holder,
                    attack::stolen_profile(),
                    Err(reason),
                ));
            }
        },
    }
}

/// A request for one incident, with these metadata or none.
pub open spec fn asks_for(
    request: mcp_api::RequestModel,
    incident_id: Seq<char>,
    has_meta: bool,
) -> bool {
    &&& request.tool == "read_incident"@
    &&& request.arguments == Some(map!["incident_id"@ => Json::Text(incident_id)])
    &&& request.meta is Some <==> has_meta
}

/// Whether a request carries a chain in its metadata, and nothing else, with the proof of
/// a key under the last warrant over a read of one incident.
pub open spec fn carries_proof(
    request: mcp_api::RequestModel,
    chain: Seq<grant::WarrantModel>,
    key: Seq<u8>,
    signed_incident: Seq<char>,
) -> bool {
    let meta = request.meta->Some_0;
    let envelope = meta["ai.tenuo/authorization"@];
    &&& meta.dom() == set!["ai.tenuo/authorization"@]
    &&& tenuo_api::envelope_holds(envelope, chain)
    &&& tenuo_api::decoded(envelope) is Ok ==> tenuo_api::is_proof(
        tenuo_api::decoded_proof(envelope),
        chain.last().id,
        key,
        tenuo_api::CallModel {
            capability: "read_incident"@,
            args: map!["incident_id"@ => Json::Text(signed_incident)],
            signed: map!["incident_id"@ => Json::Text(signed_incident)],
        },
    )
}

/// A forged request asks for the incident that is to be asked for, and proves the one that
/// is to be signed for, with the given key; it can be made for every identifier that makes
/// arguments, among them all of up to 2048 characters.
pub proof fn law_forged_requests(
    chain: &Vec<Warrant>,
    key: &SigningKey,
    signed_incident: &str,
    asked_incident: &str,
    r: Result<CallToolRequestParams, String>,
)
    requires
        call_ensures(attack::forged_request, (chain, key, signed_incident, asked_incident), r),
    ensures
        ({
            let arguments = Json::Object(
                map!["incident_id"@ => Json::Text(signed_incident@)],
            );
            &&& match tenuo_api::argument_fault("read_incident"@, arguments) {
                Some(reason) => r is Err && r->Err_0@ == reason,
                None => r is Ok,
            }
            &&& signed_incident@.len() <= 2048 ==> r is Ok
            &&& r matches Ok(params) ==> {
                let request = mcp_api::request_of(params);
                &&& asks_for(request, asked_incident@, true)
                &&& carries_proof(
                    request,
                    tenuo_api::warrants_of(chain@),
                    tenuo_api::public_half(*key),
                    signed_incident@,
                )
            }
        }),
{
}

/// A bare request asks for its incident and carries nothing.
pub proof fn law_bare_requests(incident_id: &str, r: CallToolRequestParams)
    requires
        call_ensures(attack::bare_request, (incident_id,), r),
    ensures
        asks_for(mcp_api::request_of(r), incident_id@, false),
{
}

/// What the attacker tries, in order: INC-42 with the proof of another key; INC-99 with
/// the stolen one; INC-42 with a proof over INC-99; INC-42 as it is allowed; the same
/// request once more; and INC-42 without anything.
pub proof fn law_what_the_attacker_tries(
    stolen: &Stolen,
    other: &SigningKey,
    r: Result<Vec<(Attack, CallToolRequestParams)>, String>,
)
    requires
        call_ensures(attack::attempts, (stolen, other), r),
    ensures
        r is Ok,
        ({
            let tried = r->Ok_0@;
            let chain = tenuo_api::warrants_of(stolen.chain@);
            let key = tenuo_api::public_half(stolen.key);
            let another = tenuo_api::public_half(*other);
            &&& tried.len() == 6
            &&& tried[0].0 is CopiedWarrant
            &&& asks_for(mcp_api::request_of(tried[0].1), "INC-42"@, true)
            &&& carries_proof(mcp_api::request_of(tried[0].1), chain, another, "INC-42"@)
            &&& tried[1].0 is OutOfScope
            &&& asks_for(mcp_api::request_of(tried[1].1), "INC-99"@, true)
            &&& carries_proof(mcp_api::request_of(tried[1].1), chain, key, "INC-99"@)
            &&& tried[2].0 is ChangedArguments
            &&& asks_for(mcp_api::request_of(tried[2].1), "INC-42"@, true)
            &&& carries_proof(mcp_api::request_of(tried[2].1), chain, key, "INC-99"@)
            &&& tried[3].0 is ValidCall
            &&& asks_for(mcp_api::request_of(tried[3].1), "INC-42"@, true)
            &&& carries_proof(mcp_api::request_of(tried[3].1), chain, key, "INC-42"@)
            &&& tried[4].0 is Replay
            &&& mcp_api::request_of(tried[4].1) == mcp_api::request_of(tried[3].1)
            &&& tried[5].0 is NoWarrant
            &&& asks_for(mcp_api::request_of(tried[5].1), "INC-42"@, false)
        }),
{
}

/// A reply is a denial exactly where it is a result that is flagged as an error, served
/// where it is any other result, and failed where there is none.
pub proof fn law_replies_are_told_apart(outcome: Result<CallToolResult, ServiceError>, r: Reply)
    requires
        call_ensures(attack::read_reply, (outcome,), r),
    ensures
        r is Failed <==> outcome is Err,
        r is Denied <==> (outcome matches Ok(result) && mcp_api::result_of(result).is_error
            == Some(true)),
        outcome matches Err(error) ==> r->Failed_0@ == mcp_api::service_fault_of(error).text,
{
}

/// Whether a request of this kind ought to be served: a call within the warrant, and the
/// same once more.
pub open spec fn ought_to_be_served(attack: Attack) -> bool {
    match attack {
        Attack::CopiedWarrant => false,
        Attack::OutOfScope => false,
        Attack::ChangedArguments => false,
        Attack::ValidCall => true,
        Attack::Replay => true,
        Attack::NoWarrant => false,
    }
}

/// What a verdict says without the detail of a failure: of a server that served exactly
/// what it ought to, what it did; and of any other, after two exclamation marks, what it
/// should not have done.
pub open spec fn said_of(attack: Attack, was_served: bool) -> Seq<char> {
    if was_served == ought_to_be_served(attack) {
        "   server: "@ + match attack {
            Attack::CopiedWarrant => "rejected a copied warrant signed by a different key"@,
            Attack::OutOfScope => "bounded a compromised holder to its warrant"@,
            Attack::ChangedArguments => "rejected a proof signed for different arguments"@,
            Attack::ValidCall => "accepted a valid call from the compromised holder"@,
            Attack::Replay => "accepted an identical replay (demo has no deduplication)"@,
            Attack::NoWarrant => "refused a call with no warrant at all"@,
        }
    } else {
        "   !! server "@ + match attack {
            Attack::CopiedWarrant => "accepted a copied warrant"@,
            Attack::OutOfScope => "allowed an out-of-scope call"@,
            Attack::ChangedArguments => "accepted changed arguments"@,
            Attack::ValidCall => "denied a valid call"@,
            Attack::Replay => "denied an identical replay"@,
            Attack::NoWarrant => "accepted a call with no warrant"@,
        }
    }
}

/// A verdict is what is to be said of the reply, with the first line of a failure behind
/// it in brackets.
pub proof fn law_verdicts(attack: &Attack, reply: &Reply, r: String)
    requires
        call_ensures(attack::verdict, (attack, reply), r),
    ensures
        match *reply {
            Reply::Served => r@ == said_of(*attack, true),
            Reply::Denied => r@ == said_of(*attack, false),
            Reply::Failed(reason) => r@ == said_of(*attack, false) + " ("@ + text::first_line(
                reason@,
            ) + ")"@,
        },
{
}

// ------------------------------------------------------------------- the provider

/// A provider that is asked for by name is that one or none, whatever keys there are;
/// where none is asked for, OpenAI's key decides. A name that has no provider is told.
pub proof fn law_providers(
    requested: &Option<String>,
    has_openai_key: bool,
    r: Result<Provider, String>,
)
    requires
        call_ensures(provider::select_provider, (requested, has_openai_key), r),
    ensures
        match *requested {
            None => r is Ok && (r->Ok_0 is OpenAi <==> has_openai_key),
            Some(name) => {
                &&& r matches Ok(provider) ==> name@ == (if provider is OpenAi {
                    "openai"@
                } else {
                    "anthropic"@
                })
                &&& r is Err <==> name@ != "openai"@ && name@ != "anthropic"@
                &&& r matches Err(reason) ==> reason@ == "unknown LLM_PROVIDER: "@ + name@
            },
        },
{
}

/// The model is the one that was asked for, and else the provider's default.
pub proof fn law_model_names(
    provider: &Provider,
    wanted: &Option<String>,
    anthropic_default: &str,
    r: String,
)
    requires
        call_ensures(provider::model_name, (provider, wanted, anthropic_default), r),
    ensures
        *wanted matches Some(name) ==> r@ == name@,
        *wanted is None && *provider is OpenAi ==> r@ == "gpt-4o"@,
        *wanted is None && *provider is Anthropic ==> r@ == anthropic_default@,
{
}

// ------------------------------------------------------------------- the tools

/// The tools' names and what each is for.
pub proof fn law_tools_say_what_they_are_for(
    scale: (&ScaleCluster, String),
    read: (&ReadIncident, String),
    remote: (&RemoteReadIncident, String),
    worker: (&DelegateIncident, String),
    step: (&DelegateSubtask, String),
)
    requires
        call_ensures(ScaleCluster::description, (scale.0,), scale.1),
        call_ensures(ReadIncident::description, (read.0,), read.1),
        call_ensures(RemoteReadIncident::description, (remote.0,), remote.1),
        call_ensures(DelegateIncident::description, (worker.0,), worker.1),
        call_ensures(DelegateSubtask::description, (step.0,), step.1),
    ensures
        ScaleCluster::NAME@ == "scale_cluster"@,
        ReadIncident::NAME@ == "read_incident"@,
        RemoteReadIncident::NAME@ == "read_incident"@,
        DelegateIncident::NAME@ == "delegate_incident"@,
        DelegateSubtask::NAME@ == "delegate_subtask"@,
        scale.1@ == "Scale a Kubernetes cluster to a replica count."@,
        read.1@ == "Read an incident record from the security system of record."@,
        remote.1@ == read.1@,
        worker.1@ == "Ask the incident worker agent to investigate one incident."@,
        step.1@ == "Hand one sub-step of the investigation to a reader agent."@,
{
}

/// The schema of a property that is a text, or another type.
pub open spec fn of_type(kind: Seq<char>) -> Json {
    Json::Object(map!["type"@ => Json::Text(kind)])
}

/// The entries of the schema of an object: these properties, of which these must be given.
pub open spec fn describes(
    schema: Json,
    properties: Map<Seq<char>, Json>,
    required: Seq<Seq<char>>,
    extra: Map<Seq<char>, Json>,
) -> bool {
    &&& schema matches Json::Object(entries)
    &&& entries.dom() == set!["type"@, "properties"@, "required"@].union(extra.dom())
    &&& entries["type"@] == Json::Text("object"@)
    &&& entries["properties"@] == Json::Object(properties)
    &&& entries["required"@] matches Json::Array(names)
    &&& names.len() == required.len()
    &&& forall|i: int|
        0 <= i < required.len() ==> #[trigger] names[i] == Json::Text(required[i])
    &&& forall|key: Seq<char>| #[trigger] extra.contains_key(key) ==> entries[key] == extra[key]
}

/// The schemas of the tools' arguments: what each argument is called, of which type it is,
/// and which must be given. The remote read alone says that it takes no others.
pub proof fn law_tools_describe_their_arguments(
    scale: (&ScaleCluster, Value),
    read: (&ReadIncident, Value),
    remote: (&RemoteReadIncident, Value),
    worker: (&DelegateIncident, Value),
    step: (&DelegateSubtask, Value),
)
    requires
        call_ensures(ScaleCluster::parameters, (scale.0,), scale.1),
        call_ensures(ReadIncident::parameters, (read.0,), read.1),
        call_ensures(RemoteReadIncident::parameters, (remote.0,), remote.1),
        call_ensures(DelegateIncident::parameters, (worker.0,), worker.1),
        call_ensures(DelegateSubtask::parameters, (step.0,), step.1),
    ensures
        describes(
            json::json_of(scale.1),
            map!["cluster"@ => of_type("string"@), "replicas"@ => of_type("integer"@)],
            seq!["cluster"@, "replicas"@],
            Map::empty(),
        ),
        describes(
            json::json_of(read.1),
            map!["incident_id"@ => of_type("string"@)],
            seq!["incident_id"@],
            Map::empty(),
        ),
        json::json_of(worker.1) == json::json_of(read.1),
        describes(
            json::json_of(remote.1),
            map!["incident_id"@ => of_type("string"@)],
            seq!["incident_id"@],
            map!["additionalProperties"@ => Json::Bool(false)],
        ),
        describes(
            json::json_of(step.1),
            map![
                "incident_id"@ => of_type("string"@),
                "scope"@ => Json::Object(
                    map![
                        "type"@ => Json::Text("string"@),
                        "enum"@ => Json::Array(
                            seq![Json::Text("incident"@), Json::Text("all-incidents"@)],
                        ),
                    ],
                ),
            ],
            seq!["incident_id"@],
            Map::empty(),
        ),
{
    reveal_strlit("type");
    reveal_strlit("properties");
    reveal_strlit("required");
    reveal_strlit("additionalProperties");
    assert("type"@.len() != "properties"@.len());
    assert("type"@.len() != "required"@.len());
    assert("properties"@.len() != "required"@.len());
    assert("additionalProperties"@.len() > "properties"@.len());
    assert("additionalProperties"@.len() > "required"@.len());
    assert("additionalProperties"@.len() > "type"@.len());
    let keys = set!["type"@, "properties"@, "required"@];
    let none = Map::<Seq<char>, Json>::empty();
    let extra = map!["additionalProperties"@ => Json::Bool(false)];
    assert(json::json_of(scale.1)->Object_0.dom() =~= keys.union(none.dom()));
    assert(json::json_of(read.1)->Object_0.dom() =~= keys.union(none.dom()));
    assert(json::json_of(remote.1)->Object_0.dom() =~= keys.union(extra.dom()));
    assert(json::json_of(step.1)->Object_0.dom() =~= keys.union(none.dom()));
}

/// A step whose scope is not said is one of its own incident.
pub proof fn law_default_scope_is_the_incident(r: String)
    requires
        call_ensures(delegate_subtask::default_scope, (), r),
    ensures
        r@ == "incident"@,
        r@ != "all-incidents"@,
{
    reveal_strlit("incident");
    reveal_strlit("all-incidents");
    assert("incident"@.len() != "all-incidents"@.len());
}

}
