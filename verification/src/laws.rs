//! What holds of the whole: how authority shrinks from the issuer to the last
//! reader, what each agent can and cannot do, and what the model gets to see.

use crate::authority;
use crate::constraints;
use crate::delegation;
use crate::grant;
use crate::issuer;
use crate::json;
use crate::mcp_api;
use crate::models;
use crate::completion_api;
use crate::rig_api;
use crate::server;
use crate::tenuo_api;
use crate::tenuo_api::GuardFault;
use crate::text;
use crate::tools::delegate_subtask;
use crate::tools::incident_mcp;
use crate::tools::scale_cluster;
use tenuo::sdk::prelude::DecisionMetadata;
use vstd::prelude::*;

verus! {

// ------------------------------------------------------------------- names

/// The names of the tools and of their arguments differ.
proof fn lemma_names_differ()
    ensures
        "scale_cluster"@ != "read_incident"@,
        "scale_cluster"@ != "delegate_incident"@,
        "scale_cluster"@ != "delegate_subtask"@,
        "read_incident"@ != "delegate_incident"@,
        "read_incident"@ != "delegate_subtask"@,
        "delegate_incident"@ != "delegate_subtask"@,
        "scale_cluster"@ != "*"@,
        "read_incident"@ != "*"@,
        "delegate_incident"@ != "*"@,
        "delegate_subtask"@ != "*"@,
        "cluster"@ != "replicas"@,
        "incident_id"@ != "scope"@,
{
    reveal_strlit("scale_cluster");
    reveal_strlit("read_incident");
    reveal_strlit("delegate_incident");
    reveal_strlit("delegate_subtask");
    reveal_strlit("*");
    reveal_strlit("cluster");
    reveal_strlit("replicas");
    reveal_strlit("incident_id");
    reveal_strlit("scope");
    assert("scale_cluster"@[0] != "read_incident"@[0]);
    assert("scale_cluster"@.len() != "delegate_incident"@.len());
    assert("scale_cluster"@.len() != "delegate_subtask"@.len());
    assert("read_incident"@.len() != "delegate_incident"@.len());
    assert("read_incident"@.len() != "delegate_subtask"@.len());
    assert("delegate_incident"@.len() != "delegate_subtask"@.len());
    assert("*"@.len() == 1);
    assert("cluster"@.len() != "replicas"@.len());
    assert("incident_id"@.len() != "scope"@.len());
}

/// Demands on one argument are met by an object of that one argument, exactly
/// where its value meets the demand.
proof fn lemma_one_field(field: Seq<char>, limit: grant::Limit, value: json::Json)
    ensures
        grant::satisfied(
            grant::one_field(field, limit),
            json::object_one(field, value)->Object_0,
        ) <==> grant::meets(limit, value),
{
    let fields = grant::one_field(field, limit);
    let args = json::object_one(field, value)->Object_0;
    assert(fields.limits.contains_key(field));
    if grant::meets(limit, value) {
        assert(grant::satisfied(fields, args));
    }
}

/// Demands on two arguments are met by an object of those two, exactly where both
/// values meet the demands.
proof fn lemma_two_fields(
    first: Seq<char>,
    limit: grant::Limit,
    value: json::Json,
    second: Seq<char>,
    other_limit: grant::Limit,
    other_value: json::Json,
)
    requires
        first != second,
    ensures
        grant::satisfied(
            grant::two_fields(first, limit, second, other_limit),
            json::object_two(first, value, second, other_value)->Object_0,
        ) <==> grant::meets(limit, value) && grant::meets(other_limit, other_value),
{
    let fields = grant::two_fields(first, limit, second, other_limit);
    let args = json::object_two(first, value, second, other_value)->Object_0;
    assert(fields.limits.contains_key(first));
    assert(fields.limits.contains_key(second));
    if grant::meets(limit, value) && grant::meets(other_limit, other_value) {
        assert(grant::satisfied(fields, args));
    }
}

// ------------------------------------------------------------------- what each agent may do

/// The orchestrator may scale a cluster exactly where it is a staging cluster and
/// the count is at most ten. Production is out of its reach.
pub proof fn law_orchestrator_scales_staging_only(
    warrant: grant::WarrantModel,
    cluster: Seq<char>,
    replicas: int,
)
    requires
        warrant.grants == issuer::orchestrator_grants(),
    ensures
        grant::allows(
            warrant,
            "scale_cluster"@,
            scale_cluster::scale_json(cluster, replicas)->Object_0,
        ) <==> text::starts_with(cluster, "staging-"@) && replicas <= 10,
{
    lemma_names_differ();
    assert(warrant.grants["scale_cluster"@] == constraints::scale_fields(10));
    lemma_two_fields(
        "cluster"@,
        constraints::any_staging_cluster(),
        json::Json::Text(cluster),
        "replicas"@,
        grant::Limit::AtMost(10),
        json::Json::Integer(replicas),
    );
}

/// The orchestrator may read, and hand out, exactly the incidents whose identifier
/// begins with `INC-`.
pub proof fn law_orchestrator_reaches_incidents(
    warrant: grant::WarrantModel,
    incident_id: Seq<char>,
    scope: Seq<char>,
)
    requires
        warrant.grants == issuer::orchestrator_grants(),
    ensures
        grant::allows(
            warrant,
            "read_incident"@,
            incident_mcp::incident_json(incident_id)->Object_0,
        ) <==> text::starts_with(incident_id, "INC-"@),
        grant::allows(
            warrant,
            "delegate_incident"@,
            incident_mcp::incident_json(incident_id)->Object_0,
        ) <==> text::starts_with(incident_id, "INC-"@),
        grant::allows(
            warrant,
            "delegate_subtask"@,
            delegate_subtask::subtask_json(incident_id, scope)->Object_0,
        ) <==> text::starts_with(incident_id, "INC-"@),
{
    lemma_names_differ();
    lemma_one_field(
        "incident_id"@,
        constraints::any_incident(),
        json::Json::Text(incident_id),
    );
    lemma_two_fields(
        "incident_id"@,
        constraints::any_incident(),
        json::Json::Text(incident_id),
        "scope"@,
        grant::Limit::Any,
        json::Json::Text(scope),
    );
}

/// A worker may read its own incident and no other, so that peers with the same
/// role cannot reach each other's data.
pub proof fn law_worker_reads_one_incident(
    warrant: grant::WarrantModel,
    incident_id: Seq<char>,
    asked: Seq<char>,
)
    requires
        warrant.grants == delegation::worker_grants(incident_id),
    ensures
        grant::allows(
            warrant,
            "read_incident"@,
            incident_mcp::incident_json(asked)->Object_0,
        ) <==> asked == incident_id,
{
    lemma_names_differ();
    lemma_one_field(
        "incident_id"@,
        constraints::one_incident(incident_id),
        json::Json::Text(asked),
    );
}

/// A worker may hand out steps of its own incident, whatever the scope, and of no
/// other.
pub proof fn law_worker_hands_out_one_incident(
    warrant: grant::WarrantModel,
    incident_id: Seq<char>,
    asked: Seq<char>,
    scope: Seq<char>,
)
    requires
        warrant.grants == delegation::worker_grants(incident_id),
    ensures
        grant::allows(
            warrant,
            "delegate_subtask"@,
            delegate_subtask::subtask_json(asked, scope)->Object_0,
        ) <==> asked == incident_id,
{
    lemma_names_differ();
    lemma_two_fields(
        "incident_id"@,
        constraints::one_incident(incident_id),
        json::Json::Text(asked),
        "scope"@,
        grant::Limit::Any,
        json::Json::Text(scope),
    );
}

/// A worker may call nothing but the two tools it was given.
pub proof fn law_worker_has_two_tools(
    warrant: grant::WarrantModel,
    incident_id: Seq<char>,
    capability: Seq<char>,
    args: Map<Seq<char>, json::Json>,
)
    requires
        warrant.grants == delegation::worker_grants(incident_id),
        grant::allows(warrant, capability, args),
    ensures
        capability == "read_incident"@ || capability == "delegate_subtask"@,
{
    lemma_names_differ();
}

/// A reader may call nothing but `read_incident`, and only for its own incident.
pub proof fn law_reader_reads_one_incident(
    warrant: grant::WarrantModel,
    incident_id: Seq<char>,
    capability: Seq<char>,
    asked: Seq<char>,
)
    requires
        warrant.grants == delegation::reader_grants(incident_id),
    ensures
        grant::allows(warrant, capability, incident_mcp::incident_json(asked)->Object_0) <==> (
        capability == "read_incident"@ && asked == incident_id),
{
    lemma_names_differ();
    lemma_one_field(
        "incident_id"@,
        constraints::one_incident(incident_id),
        json::Json::Text(asked),
    );
}

/// From the orchestrator to the worker to the reader there are four, two and one
/// capabilities.
pub proof fn law_capabilities_dwindle(incident_id: Seq<char>)
    ensures
        issuer::orchestrator_grants().dom().len() == 4,
        delegation::worker_grants(incident_id).dom().len() == 2,
        delegation::reader_grants(incident_id).dom().len() == 1,
        issuer::orchestrator_grants().dom().finite(),
        delegation::worker_grants(incident_id).dom().finite(),
        delegation::reader_grants(incident_id).dom().finite(),
{
    lemma_names_differ();
    let names = Set::<Seq<char>>::empty().insert("scale_cluster"@).insert("read_incident"@).insert(
        "delegate_incident"@,
    ).insert("delegate_subtask"@);
    assert(issuer::orchestrator_grants().dom() =~= names);
    let two = Set::<Seq<char>>::empty().insert("read_incident"@).insert("delegate_subtask"@);
    assert(delegation::worker_grants(incident_id).dom() =~= two);
    let one = Set::<Seq<char>>::empty().insert("read_incident"@);
    assert(delegation::reader_grants(incident_id).dom() =~= one);
}

// ------------------------------------------------------------------- delegation

/// No child can be minted that allows more than its parent: what a minted warrant
/// allows, its parent allows. The one exception is a capability that the parent
/// names and the child grants through `*` alone.
pub proof fn law_minted_warrant_allows_less(
    parent: grant::WarrantModel,
    profile: tenuo_api::ProfileModel,
    child: grant::WarrantModel,
    capability: Seq<char>,
    args: Map<Seq<char>, json::Json>,
)
    requires
        tenuo_api::is_minted(parent, profile, child),
        grant::is_decided(child),
        grant::names_alike(parent, child, capability),
        grant::allows(child, capability, args),
    ensures
        grant::allows(parent, capability, args),
{
    grant::law_narrower_warrant_allows_less(parent, child, capability, args);
}

/// A child's chain is verified where its parent's is: every link is a proper one,
/// down from the same trusted root.
pub proof fn law_child_chain_is_verified(
    parent: authority::RunModel,
    profile: tenuo_api::ProfileModel,
    child: authority::RunModel,
)
    requires
        delegation::is_child(parent, profile, child),
    ensures
        tenuo_api::is_verified(child.roots, child.chain),
        child.chain.len() == parent.chain.len() + 1,
        child.chain.drop_last() == parent.chain,
{
    assert(child.chain.drop_last() =~= parent.chain);
    assert forall|i: int| 0 <= i < child.chain.len() - 1 implies #[trigger] grant::links(
        child.chain[i],
        child.chain[i + 1],
    ) by {
        if i < parent.chain.len() - 1 {
            assert(grant::links(parent.chain[i], parent.chain[i + 1]));
            assert(child.chain[i] == parent.chain[i]);
            assert(child.chain[i + 1] == parent.chain[i + 1]);
        } else {
            assert(child.chain[i] == parent.chain.last());
            assert(child.chain[i + 1] == child.chain.last());
        }
    }
    assert(child.chain[0] == parent.chain[0]);
}

/// A child's chain says what was signed where its parent's does.
pub proof fn law_child_chain_is_as_signed(
    parent: authority::RunModel,
    profile: tenuo_api::ProfileModel,
    child: authority::RunModel,
)
    requires
        delegation::is_child(parent, profile, child),
        grant::is_as_signed(parent.chain),
    ensures
        grant::is_as_signed(child.chain),
{
    assert forall|i: int| 0 <= i < child.chain.len() implies (
    #[trigger] child.chain[i]).as_signed by {
        if i < parent.chain.len() {
            assert(child.chain[i] == parent.chain[i]);
        } else {
            assert(child.chain[i] == child.chain.last());
        }
    }
}

/// A child's chain can be read by another process where its parent's can.
pub proof fn law_child_chain_is_legible(
    parent: authority::RunModel,
    profile: tenuo_api::ProfileModel,
    child: authority::RunModel,
)
    requires
        delegation::is_child(parent, profile, child),
        grant::is_as_signed(parent.chain),
        grant::is_legible(parent.chain),
        grant::is_plain(profile.grants),
    ensures
        grant::is_legible(child.chain),
{
    assert forall|i: int| 0 <= i < child.chain.len() implies (
    #[trigger] child.chain[i]).legible by {
        if i < parent.chain.len() {
            assert(child.chain[i] == parent.chain[i]);
        } else {
            assert(parent.chain[parent.chain.len() - 1] == parent.chain.last());
            assert(child.chain[i] == child.chain.last());
        }
    }
}

/// What a child demands of the incident that it reads narrows what its parent
/// demands.
proof fn lemma_incident_narrows(
    parent: grant::WarrantModel,
    profile: tenuo_api::ProfileModel,
    child: grant::WarrantModel,
)
    requires
        tenuo_api::is_minted(parent, profile, child),
        parent.grants.contains_key("read_incident"@),
        parent.grants["read_incident"@].limits.contains_key("incident_id"@),
        profile.grants.contains_key("read_incident"@),
    ensures
        grant::narrows(
            parent.grants["read_incident"@].limits["incident_id"@],
            profile.grants["read_incident"@].limits["incident_id"@],
        ),
{
    assert(child.grants.contains_key("read_incident"@));
    assert(grant::grant_for(parent, "read_incident"@) == Some(parent.grants["read_incident"@]));
}

/// A worker that holds one incident cannot mint a child for all of them, whatever
/// else it asks for: exactly one incident does not become every incident.
pub proof fn law_worker_cannot_widen(
    worker: grant::WarrantModel,
    incident_id: Seq<char>,
    profile: tenuo_api::ProfileModel,
    child: grant::WarrantModel,
)
    requires
        worker.grants == delegation::worker_grants(incident_id),
        profile.grants == delegation::all_incident_grants(),
    ensures
        !tenuo_api::is_minted(worker, profile, child),
{
    lemma_names_differ();
    if tenuo_api::is_minted(worker, profile, child) {
        lemma_incident_narrows(worker, profile, child);
    }
}

/// A worker cannot mint a child for another incident than its own.
pub proof fn law_worker_cannot_switch_incidents(
    worker: grant::WarrantModel,
    incident_id: Seq<char>,
    other: Seq<char>,
    profile: tenuo_api::ProfileModel,
    child: grant::WarrantModel,
)
    requires
        worker.grants == delegation::worker_grants(incident_id),
        profile.grants == delegation::reader_grants(other),
        other != incident_id,
    ensures
        !tenuo_api::is_minted(worker, profile, child),
{
    lemma_names_differ();
    if tenuo_api::is_minted(worker, profile, child) {
        lemma_incident_narrows(worker, profile, child);
    }
}

/// Two workers minted below one orchestrator for different incidents are isolated:
/// neither may read or hand out the other's incident, and neither holds the
/// orchestrator's key.
pub proof fn law_siblings_are_isolated(
    parent: authority::RunModel,
    incident_id: Seq<char>,
    other: Seq<char>,
    scope: Seq<char>,
    child: authority::RunModel,
    sibling: authority::RunModel,
)
    requires
        delegation::is_child(parent, delegation::worker_profile(incident_id), child),
        delegation::is_child(parent, delegation::worker_profile(other), sibling),
        incident_id != other,
    ensures
        !grant::allows(
            child.chain.last(),
            "read_incident"@,
            incident_mcp::incident_json(other)->Object_0,
        ),
        !grant::allows(
            child.chain.last(),
            "delegate_subtask"@,
            delegate_subtask::subtask_json(other, scope)->Object_0,
        ),
        !grant::allows(
            sibling.chain.last(),
            "read_incident"@,
            incident_mcp::incident_json(incident_id)->Object_0,
        ),
        !grant::allows(
            sibling.chain.last(),
            "delegate_subtask"@,
            delegate_subtask::subtask_json(incident_id, scope)->Object_0,
        ),
        child.chain.last().holder != parent.chain.last().holder,
        sibling.chain.last().holder != parent.chain.last().holder,
{
    law_worker_reads_one_incident(child.chain.last(), incident_id, other);
    law_worker_hands_out_one_incident(child.chain.last(), incident_id, other, scope);
    law_worker_reads_one_incident(sibling.chain.last(), other, incident_id);
    law_worker_hands_out_one_incident(sibling.chain.last(), other, incident_id, scope);
}

/// The orchestrator cannot hand out a higher cap on replicas than its own.
pub proof fn law_replica_cap_cannot_grow(warrant: grant::WarrantModel, max_replicas: nat)
    requires
        warrant.grants == issuer::orchestrator_grants(),
    ensures
        delegation::cap_admits(warrant, max_replicas) <==> max_replicas <= issuer::MAX_REPLICAS,
{
    lemma_names_differ();
    assert(warrant.grants["scale_cluster"@] == constraints::scale_fields(10));
    assert(warrant.grants["scale_cluster"@].limits.contains_key("replicas"@));
}

/// Down the agents' chain, warrants last ten, five and two minutes, or less where their
/// parents expire first, the worker may delegate once more, and the reader not at all.
pub proof fn law_authority_shrinks_hop_by_hop(
    orchestrator: grant::WarrantModel,
    root: Seq<u8>,
    key: Seq<u8>,
    incident_id: Seq<char>,
    scope: Seq<char>,
    worker: grant::WarrantModel,
    reader: grant::WarrantModel,
)
    requires
        issuer::is_orchestrator_warrant(orchestrator, root, key),
        tenuo_api::is_minted(orchestrator, delegation::worker_profile(incident_id), worker),
        tenuo_api::is_minted(
            worker,
            delegation::terminal_profile(
                delegation::subtask_grants(incident_id, scope),
                delegation::READER_TTL_SECS as nat,
            ),
            reader,
        ),
    ensures
        scope != "all-incidents"@,
        reader.grants == delegation::reader_grants(incident_id),
        text::starts_with(incident_id, "INC-"@),
        orchestrator.lifetime == 600,
        worker.lifetime == 300 || (worker.lifetime < 300 && worker.expires_at
            == orchestrator.expires_at),
        reader.lifetime == 120 || (reader.lifetime < 120 && reader.expires_at
            == worker.expires_at),
        reader.expires_at <= worker.expires_at <= orchestrator.expires_at,
        orchestrator.depth == 0,
        worker.depth == 1,
        reader.depth == 2,
        !grant::is_terminal(worker),
        grant::is_terminal(reader),
        forall|child: grant::WarrantModel| !#[trigger] grant::links(reader, child),
{
    lemma_names_differ();
    if scope == "all-incidents"@ {
        law_worker_cannot_widen(
            worker,
            incident_id,
            delegation::terminal_profile(
                delegation::subtask_grants(incident_id, scope),
                delegation::READER_TTL_SECS as nat,
            ),
            reader,
        );
    }
    lemma_incident_narrows(orchestrator, delegation::worker_profile(incident_id), worker);
}

/// The warrants of this graph hold no demand that is left undecided.
pub proof fn law_agents_warrants_are_decided(warrant: grant::WarrantModel, incident_id: Seq<char>)
    requires
        warrant.grants == issuer::orchestrator_grants() || warrant.grants
            == delegation::worker_grants(incident_id) || warrant.grants
            == delegation::reader_grants(incident_id),
    ensures
        grant::is_decided(warrant),
{
    lemma_names_differ();
}

// ------------------------------------------------------------------- guarded calls

/// A call that the authority in the context does not permit never goes through: it
/// is denied, reported with the code of the denial, and leaves the context as it
/// was.
pub proof fn law_unpermitted_call_is_denied(
    before: rig_api::ContextModel,
    after: rig_api::ContextModel,
    capability: Seq<char>,
    args: json::Json,
    failure: Option<authority::Fault>,
    lines: Seq<Seq<char>>,
)
    requires
        authority::guarded_report(before, after, capability, args, failure, lines),
        authority::stopped(before, capability, args) is None,
        !authority::permits(before.authority->Some_0, capability, args),
    ensures
        failure matches Some(fault) && fault is Denied && lines == seq![
            authority::deny_line(
                before.authority->Some_0.agent,
                capability,
                json::json_text(args),
                fault->Denied_code,
            ),
        ],
        after == before,
{
}

/// Under the orchestrator's warrant, scaling a cluster outside staging, or to more
/// than ten replicas, is denied.
pub proof fn law_production_scaling_is_denied(
    before: rig_api::ContextModel,
    after: rig_api::ContextModel,
    cluster: Seq<char>,
    replicas: int,
    failure: Option<authority::Fault>,
    lines: Seq<Seq<char>>,
)
    requires
        before.authority matches Some(run) && run.chain.last().grants
            == issuer::orchestrator_grants(),
        authority::guarded_report(
            before,
            after,
            "scale_cluster"@,
            scale_cluster::scale_json(cluster, replicas),
            failure,
            lines,
        ),
        authority::stopped(
            before,
            "scale_cluster"@,
            scale_cluster::scale_json(cluster, replicas),
        ) is None,
        !text::starts_with(cluster, "staging-"@) || replicas > 10,
    ensures
        failure matches Some(fault) && fault is Denied,
        after == before,
{
    let run = before.authority->Some_0;
    law_orchestrator_scales_staging_only(run.chain.last(), cluster, replicas);
    law_unpermitted_call_is_denied(
        before,
        after,
        "scale_cluster"@,
        scale_cluster::scale_json(cluster, replicas),
        failure,
        lines,
    );
}

/// An agent that holds one incident is denied every other: the call is reported with
/// the code of the denial, leaves the context as it was, and makes no request.
pub proof fn law_another_incident_is_denied(
    before: rig_api::ContextModel,
    after: rig_api::ContextModel,
    incident_id: Seq<char>,
    asked: Seq<char>,
    failure: Option<authority::Fault>,
    lines: Seq<Seq<char>>,
)
    requires
        before.authority matches Some(run) && (run.chain.last().grants == delegation::worker_grants(
            incident_id,
        ) || run.chain.last().grants == delegation::reader_grants(incident_id)),
        asked != incident_id,
        authority::guarded_report(
            before,
            after,
            "read_incident"@,
            incident_mcp::incident_json(asked),
            failure,
            lines,
        ),
        authority::stopped(before, "read_incident"@, incident_mcp::incident_json(asked)) is None,
    ensures
        failure matches Some(fault) && fault is Denied,
        after == before,
{
    let run = before.authority->Some_0;
    if run.chain.last().grants == delegation::worker_grants(incident_id) {
        law_worker_reads_one_incident(run.chain.last(), incident_id, asked);
    } else {
        law_reader_reads_one_incident(run.chain.last(), incident_id, "read_incident"@, asked);
    }
    law_unpermitted_call_is_denied(
        before,
        after,
        "read_incident"@,
        incident_mcp::incident_json(asked),
        failure,
        lines,
    );
}

/// A guard lets no call through under a warrant that outlasts its ceiling.
pub proof fn law_lifetimes_are_held_to_the_ceiling(
    before: rig_api::ContextModel,
    after: rig_api::ContextModel,
    capability: Seq<char>,
    args: json::Json,
    failure: Option<authority::Fault>,
    lines: Seq<Seq<char>>,
    max: nat,
    i: int,
)
    requires
        authority::guarded_report(before, after, capability, args, failure, lines),
        authority::stopped(before, capability, args) is None,
        before.authority->Some_0.ceiling == Some(max),
        0 <= i < before.authority->Some_0.chain.len(),
        before.authority->Some_0.chain[i].lifetime > max,
    ensures
        failure matches Some(fault) && fault is Denied,
        after == before,
{
}

// ------------------------------------------------------------------- what the model sees

/// A denial is a refusal that the model is shown, under the code of the denial.
pub proof fn law_denial_is_shown_to_the_model(code: Seq<char>, message: Seq<char>)
    ensures
        ({
            let failure = authority::execution_failure(authority::Fault::Denied { code, message });
            &&& failure.refusal
            &&& failure.code == Some(code)
            &&& failure.output == seq![
                rig_api::Block::Text(authority::denial_text(code, message)),
            ]
        }),
{
}

/// What went wrong further on is kept from the model: it is shown the same text
/// whatever the failure says.
pub proof fn law_diagnostics_are_kept_from_the_model(message: Seq<char>)
    ensures
        authority::execution_failure(authority::Fault::Operation(message)).output == seq![
            rig_api::Block::Text("the tool's upstream operation failed"@),
        ],
        !authority::execution_failure(authority::Fault::Operation(message)).refusal,
{
}

/// The model is never shown an empty output.
pub proof fn law_results_are_never_empty(result: mcp_api::ResultModel)
    ensures
        incident_mcp::shown_blocks(result).len() > 0,
{
}

/// The model is shown everything in a result: the structured content first, then
/// each block in its place.
pub proof fn law_results_are_shown_whole(result: mcp_api::ResultModel, i: int)
    requires
        0 <= i < result.content.len(),
    ensures
        ({
            let lead: int = if result.structured is Some {
                1
            } else {
                0
            };
            let shown = incident_mcp::shown_blocks(result);
            &&& shown.len() == lead + result.content.len()
            &&& shown[lead + i] == incident_mcp::shown_block(result.content[i])
            &&& result.structured matches Some(value) ==> shown[0] == rig_api::Block::Json(value)
        }),
{
}

// ------------------------------------------------------------------- client and server

/// The server decides over the chain that the client's guard allowed the call
/// with: where the metadata of a request is the client's envelope and the server
/// does not reject it, the chain that it carries is that one, and the proof with it
/// is the one that was made. (A chain that says other than was signed is not the one
/// that travels.)
pub proof fn law_server_sees_the_clients_chain(
    meta: Map<Seq<char>, json::Json>,
    chain: Seq<grant::WarrantModel>,
    call: tenuo_api::CallModel,
    incident_id: Seq<char>,
)
    requires
        grant::is_as_signed(chain),
        incident_mcp::carries(meta, chain),
        incident_mcp::proves(meta, chain.last(), chain.last().holder, call),
        server::rejection(meta, incident_id) is None,
    ensures
        server::carried_chain(meta) == chain,
        tenuo_api::is_holders_proof(server::carried_proof(meta), chain, call),
{
}

/// What the client encodes, the server decodes: where the client's guard let a call
/// through, the chain can be sent and says what was signed, the server does not reject
/// the request, finds that chain and the holder's proof over the arguments in it, and
/// holds, where it trusts the same roots under the same ceiling, that the chain permits
/// the call. What is left to its guard is the clock.
pub proof fn law_server_reads_the_clients_envelope(
    before: rig_api::ContextModel,
    after: rig_api::ContextModel,
    meta: Map<Seq<char>, json::Json>,
    incident_id: Seq<char>,
)
    requires
        authority::was_allowed(
            before,
            after,
            "read_incident"@,
            incident_mcp::incident_json(incident_id),
        ),
        ({
            let chain = before.authority->Some_0.chain;
            &&& grant::is_sendable(chain)
            &&& grant::is_as_signed(chain)
            &&& incident_mcp::carries(meta, chain)
            &&& incident_mcp::proves(
                meta,
                chain.last(),
                chain.last().holder,
                authority::requested("read_incident"@, incident_mcp::incident_json(incident_id)),
            )
        }),
    ensures
        ({
            let run = before.authority->Some_0;
            let call = authority::requested(
                "read_incident"@,
                incident_mcp::incident_json(incident_id),
            );
            &&& server::rejection(meta, incident_id) is None
            &&& !server::carries_lone(meta)
            &&& server::carried_chain(meta) == run.chain
            &&& tenuo_api::is_permitted(run.roots, server::carried_chain(meta), call)
            &&& grant::is_within_ceiling(run.ceiling, server::carried_chain(meta))
            &&& tenuo_api::is_holders_proof(server::carried_proof(meta), run.chain, call)
        }),
{
    assert(meta.dom().contains(incident_mcp::TENUO_META_KEY@));
}

/// The grants of the agents are short where the incident's identifier is.
proof fn lemma_grants_are_short(incident_id: Seq<char>)
    requires
        incident_id.len() <= 800,
    ensures
        grant::is_short(issuer::orchestrator_grants(), 4, 2, 17),
        grant::is_short(delegation::worker_grants(incident_id), 2, 2, 800),
        grant::is_short(delegation::reader_grants(incident_id), 1, 1, 800),
{
    reveal_strlit("scale_cluster");
    reveal_strlit("read_incident");
    reveal_strlit("delegate_incident");
    reveal_strlit("delegate_subtask");
    reveal_strlit("cluster");
    reveal_strlit("replicas");
    reveal_strlit("incident_id");
    reveal_strlit("scope");
    reveal_strlit("staging-");
    reveal_strlit("INC-");
    law_capabilities_dwindle(incident_id);
    let one = Set::<Seq<char>>::empty().insert("incident_id"@);
    let two = one.insert("scope"@);
    let scale = Set::<Seq<char>>::empty().insert("cluster"@).insert("replicas"@);
    assert forall|tool: Seq<char>| #[trigger]
        issuer::orchestrator_grants().contains_key(tool) implies tool.len() <= 17
        && grant::has_short_fields(issuer::orchestrator_grants()[tool], 2, 17) by {
        let names = issuer::orchestrator_grants()[tool].limits.dom();
        assert(names =~= one || names =~= two || names =~= scale);
    }
    assert forall|tool: Seq<char>| #[trigger]
        delegation::worker_grants(incident_id).contains_key(tool) implies tool.len() <= 800
        && grant::has_short_fields(delegation::worker_grants(incident_id)[tool], 2, 800) by {
        let names = delegation::worker_grants(incident_id)[tool].limits.dom();
        assert(names =~= one || names =~= two);
    }
    assert forall|tool: Seq<char>| #[trigger]
        delegation::reader_grants(incident_id).contains_key(tool) implies tool.len() <= 800
        && grant::has_short_fields(delegation::reader_grants(incident_id)[tool], 1, 800) by {
        assert(delegation::reader_grants(incident_id)[tool].limits.dom() =~= one);
    }
}

/// Every chain of this graph can be sent, the orchestrator's, a worker's and a
/// reader's, where the keys are of good order and the incident's identifier has at most
/// 800 characters. Longer ones can make an envelope that is too long to decode.
pub proof fn law_agents_chains_can_be_sent(
    orchestrator: grant::WarrantModel,
    root: Seq<u8>,
    key: Seq<u8>,
    incident_id: Seq<char>,
    scope: Seq<char>,
    worker: grant::WarrantModel,
    reader: grant::WarrantModel,
)
    requires
        issuer::is_orchestrator_warrant(orchestrator, root, key),
        tenuo_api::key_fault(root) is None,
        tenuo_api::key_fault(key) is None,
        incident_id.len() <= 800,
        tenuo_api::is_minted(orchestrator, delegation::worker_profile(incident_id), worker),
        tenuo_api::key_fault(worker.holder) is None,
        tenuo_api::is_minted(
            worker,
            delegation::terminal_profile(
                delegation::subtask_grants(incident_id, scope),
                delegation::READER_TTL_SECS as nat,
            ),
            reader,
        ),
        tenuo_api::key_fault(reader.holder) is None,
    ensures
        grant::is_sendable(seq![orchestrator]) && grant::is_as_signed(seq![orchestrator]),
        grant::is_sendable(seq![orchestrator, worker]) && grant::is_as_signed(
            seq![orchestrator, worker],
        ),
        grant::is_sendable(seq![orchestrator, worker, reader]) && grant::is_as_signed(
            seq![orchestrator, worker, reader],
        ),
{
    law_authority_shrinks_hop_by_hop(
        orchestrator,
        root,
        key,
        incident_id,
        scope,
        worker,
        reader,
    );
    law_agents_warrants_are_decided(worker, incident_id);
    law_agents_warrants_are_decided(reader, incident_id);
    lemma_grants_are_short(incident_id);
    assert(orchestrator.size <= grant::bare_size(4, 2, 17));
    assert(worker.size <= grant::bare_size(2, 2, 800));
    assert(reader.size <= grant::bare_size(1, 1, 800));
    reveal_with_fuel(grant::written_size, 4);
    assert(seq![orchestrator, worker, reader].drop_last() =~= seq![orchestrator, worker]);
    assert(seq![orchestrator, worker].drop_last() =~= seq![orchestrator]);
    assert(seq![orchestrator].drop_last() =~= Seq::empty());
}

/// The server rejects every request without authorization.
pub proof fn law_missing_authorization_is_rejected(
    meta: Map<Seq<char>, json::Json>,
    incident_id: Seq<char>,
)
    requires
        !meta.contains_key(incident_mcp::TENUO_META_KEY@),
    ensures
        server::rejection(meta, incident_id) == Some("missing Tenuo authorization metadata"@),
{
}

/// The server serves a worker's chain its own incident and no other.
pub proof fn law_server_bounds_a_holder_to_its_warrant(
    roots: Set<Seq<u8>>,
    chain: Seq<grant::WarrantModel>,
    incident_id: Seq<char>,
    asked: Seq<char>,
    ceiling: Option<nat>,
    signature: Seq<u8>,
    served: server::Served,
)
    requires
        chain.last().grants == delegation::worker_grants(incident_id) || chain.last().grants
            == delegation::reader_grants(incident_id),
        server::is_served(roots, ceiling, chain, signature, asked, served),
    ensures
        asked == incident_id,
{
    if chain.last().grants == delegation::worker_grants(incident_id) {
        law_worker_reads_one_incident(chain.last(), incident_id, asked);
    } else {
        law_reader_reads_one_incident(chain.last(), incident_id, "read_incident"@, asked);
    }
}

/// The server keeps nothing between calls: where the guard gives the same answer to the
/// same request once more, so does the server, and an identical replay is served
/// again.
pub proof fn law_replay_is_answered_alike(
    incident_id: Seq<char>,
    holder: Seq<char>,
    depth: nat,
    first: Result<(String, DecisionMetadata), GuardFault<String>>,
    second: Result<(String, DecisionMetadata), GuardFault<String>>,
    served: server::Served,
    again: server::Served,
)
    requires
        server::settles_read(incident_id, holder, depth, first, served),
        server::settles_read(incident_id, holder, depth, second, again),
        first matches Ok(pair) ==> second is Ok && second->Ok_0.0@ == pair.0@,
        first matches Err(fault) ==> second is Err && second->Err_0 == fault,
    ensures
        served.answer is Ok,
        again.answer is Ok,
        mcp_api::result_of(served.answer->Ok_0) == mcp_api::result_of(again.answer->Ok_0),
        text::views(served.lines@) == text::views(again.lines@),
{
}

/// A request that is served twice is answered with the same text both times.
pub proof fn law_served_replay_gets_the_same_record(
    roots: Set<Seq<u8>>,
    ceiling: Option<nat>,
    chain: Seq<grant::WarrantModel>,
    signature: Seq<u8>,
    incident_id: Seq<char>,
    served: server::Served,
    again: server::Served,
)
    requires
        server::is_served(roots, ceiling, chain, signature, incident_id, served),
        server::is_served(roots, ceiling, chain, signature, incident_id, again),
    ensures
        mcp_api::result_of(served.answer->Ok_0) == mcp_api::result_of(again.answer->Ok_0),
        text::views(served.lines@) == text::views(again.lines@),
{
}

// ------------------------------------------------------------------- scripted models

/// A message that calls a tool is one more turn, and no other message is.
pub proof fn law_tool_call_is_a_turn(
    history: Seq<completion_api::MessageModel>,
    message: completion_api::MessageModel,
)
    ensures
        models::turns_in(history.push(message)) == models::turns_in(history) + (if models::is_turn(
            message,
        ) {
            1int
        } else {
            0int
        }),
{
    assert(history.push(message).drop_last() =~= history);
}

/// The results of the tools are kept in the order in which they came.
pub proof fn law_results_come_in_order(
    history: Seq<completion_api::MessageModel>,
    content: Seq<completion_api::UserModel>,
)
    ensures
        models::result_texts(history.push(completion_api::MessageModel::User(content)))
            == models::result_texts(history) + models::results_in(content),
{
    let message = completion_api::MessageModel::User(content);
    assert(history.push(message).drop_last() =~= history);
}

/// The identifiers of two calls differ, within a turn and across turns, whatever the
/// tools are.
pub proof fn law_call_ids_differ(
    model: Seq<char>,
    turn: nat,
    tool: Seq<char>,
    i: nat,
    other_turn: nat,
    other_tool: Seq<char>,
    j: nat,
)
    requires
        turn != other_turn || i != j,
    ensures
        models::call_id(model, turn, tool, i) != models::call_id(model, other_turn, other_tool, j),
{
    let id = models::call_id(model, turn, tool, i);
    let other = models::call_id(model, other_turn, other_tool, j);
    if id == other {
        reveal_strlit("-");
        reveal_strlit("-call-");
        let start = model + "-turn-"@;
        let rest = tool + "-call-"@ + text::decimal(i);
        let other_rest = other_tool + "-call-"@ + text::decimal(j);
        assert(id =~= start + (text::decimal(turn) + "-"@ + rest));
        assert(other =~= start + (text::decimal(other_turn) + "-"@ + other_rest));
        let tail = id.skip(start.len() as int);
        assert(tail =~= text::decimal(turn) + "-"@ + rest);
        assert(tail =~= text::decimal(other_turn) + "-"@ + other_rest);
        lemma_number_ends_at_dash(tail, turn, rest, other_turn, other_rest);
        let head = model + "-turn-"@ + text::decimal(turn) + "-"@ + tool + "-call"@;
        let other_head = model + "-turn-"@ + text::decimal(other_turn) + "-"@ + other_tool
            + "-call"@;
        reveal_strlit("-call");
        assert("-call-"@ =~= "-call"@ + "-"@);
        assert(id =~= head + "-"@ + text::decimal(i));
        assert(other =~= other_head + "-"@ + text::decimal(j));
        lemma_number_starts_after_dash(id, head, i, other_head, j);
    }
}

/// A number that is followed by a dash is read off the front of a text.
proof fn lemma_number_ends_at_dash(
    text: Seq<char>,
    m: nat,
    rest: Seq<char>,
    n: nat,
    other_rest: Seq<char>,
)
    requires
        text == text::decimal(m) + "-"@ + rest,
        text == text::decimal(n) + "-"@ + other_rest,
    ensures
        m == n,
{
    reveal_strlit("-");
    text::lemma_decimal(m);
    text::lemma_decimal(n);
    let a = text::decimal(m).len() as int;
    let b = text::decimal(n).len() as int;
    assert(text[a] == '-');
    assert(text[b] == '-');
    if a < b {
        assert(text[a] == text::decimal(n)[a]);
    }
    if b < a {
        assert(text[b] == text::decimal(m)[b]);
    }
    assert(text::decimal(m) =~= text.take(a));
    assert(text::decimal(n) =~= text.take(b));
    text::lemma_decimal_injective(m, n);
}

/// A number that follows a dash is read off the back of a text.
proof fn lemma_number_starts_after_dash(
    text: Seq<char>,
    head: Seq<char>,
    m: nat,
    other_head: Seq<char>,
    n: nat,
)
    requires
        text == head + "-"@ + text::decimal(m),
        text == other_head + "-"@ + text::decimal(n),
    ensures
        m == n,
{
    reveal_strlit("-");
    text::lemma_decimal(m);
    text::lemma_decimal(n);
    let a = head.len() as int;
    let b = other_head.len() as int;
    assert(text.len() == a + 1 + text::decimal(m).len());
    assert(text.len() == b + 1 + text::decimal(n).len());
    assert(text[a] == '-');
    assert(text[b] == '-');
    if a < b {
        assert(text[b] == text::decimal(m)[b - a - 1]);
    }
    if b < a {
        assert(text[a] == text::decimal(n)[a - b - 1]);
    }
    assert(text::decimal(m) =~= text.skip(a + 1));
    assert(text::decimal(n) =~= text.skip(b + 1));
    text::lemma_decimal_injective(m, n);
}

}
