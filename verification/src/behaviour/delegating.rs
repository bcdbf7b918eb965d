//! Delegation: the guard mints a child or refuses it, and nothing else decides; what a
//! child may do, how long it lasts, and how it is told.

use crate::attack;
use crate::authority;
use crate::authority::{Fault, Reported, RunAuthority, ToolError};
use crate::behaviour::guarding;
use crate::delegation;
use crate::grant;
use crate::grant::{Fields, Limit};
use crate::json::Json;
use crate::rig_api;
use crate::root_key;
use crate::tenuo_api;
use crate::tenuo_api::{DelegationFault, ProfileModel};
use crate::text;
use crate::tools;
use crate::tools::delegate_incident::{DelegateArgs, DelegateIncident};
use crate::tools::delegate_subtask::{DelegateSubtask, SubtaskArgs};
use crate::tools::{Handoff, ToolArguments};
use rig::tool::ToolContext;
use tenuo::sdk::prelude::PresentedAuthority;
use vstd::prelude::*;

verus! {

// ------------------------------------------------------------------- who decides

/// What a refusal to delegate is called: the guard's denial and a child that is too wide
/// keep their code and message, and anything else is a failed operation.
pub open spec fn refusal_says(reason: DelegationFault, fault: Fault) -> bool {
    match reason {
        DelegationFault::Denied { code, message } => fault == (Fault::Denied {
            code: code@,
            message: message@,
        }),
        DelegationFault::Core { code, message } => fault == (Fault::Denied {
            code: code@,
            message: message@,
        }),
        DelegationFault::Other(text) => fault == Fault::Operation("delegate: "@ + text@),
    }
}

/// Whether this child is one that the guard itself minted below the parent from this
/// profile, under the same roots, ceiling and reporting.
pub open spec fn is_guards_child(
    parent: authority::RunModel,
    profile: ProfileModel,
    child: authority::RunModel,
) -> bool {
    exists|minted: PresentedAuthority| #[trigger]
        delegation::guard_gave_child(parent, profile, Ok(minted)) && child.chain
            == tenuo_api::chain_of(minted) && child.roots == parent.roots && child.ceiling
            == parent.ceiling && child.reporting == parent.reporting
}

/// Whether no child was minted for a reason that the guard itself gave, or because the
/// depths of the parent cannot be counted.
pub open spec fn is_guards_refusal(
    parent: authority::RunModel,
    profile: ProfileModel,
    fault: Fault,
) -> bool {
    if parent.chain[0].depth < u32::MAX {
        exists|reason: DelegationFault| #[trigger]
            delegation::guard_gave_child(parent, profile, Err(reason)) && refusal_says(
                reason,
                fault,
            )
    } else {
        fault == Fault::Operation("delegate: "@ + "chain is too deep"@)
    }
}

/// What was minted is the guard's child.
proof fn lemma_minted(
    parent: authority::RunModel,
    profile: ProfileModel,
    child: authority::RunModel,
)
    requires
        delegation::was_minted(parent, profile, child),
    ensures
        is_guards_child(parent, profile, child),
{
    let minted = choose|minted: PresentedAuthority| #[trigger]
        delegation::guard_gave_child(parent, profile, Ok(minted)) && child == (
        authority::RunModel {
            chain: tenuo_api::chain_of(minted),
            agent: child.agent,
            ..parent
        });
    assert(delegation::guard_gave_child(parent, profile, Ok(minted)));
}

/// What was refused has the guard's reason.
proof fn lemma_refused(parent: authority::RunModel, profile: ProfileModel, fault: Fault)
    requires
        delegation::mint_failed(parent, profile, fault),
    ensures
        is_guards_refusal(parent, profile, fault),
{
    if parent.chain[0].depth < u32::MAX {
        let reason = choose|reason: DelegationFault| #[trigger]
            delegation::guard_gave_child(parent, profile, Err(reason)) && fault
                == authority::delegation_fault(reason);
        assert(delegation::guard_gave_child(parent, profile, Err(reason)));
    }
}

/// A refused delegation is told by its reason, whichever it is.
pub proof fn law_refusals_keep_their_reason(reason: DelegationFault, r: ToolError)
    requires
        call_ensures(authority::map_delegation_error, (reason,), r),
    ensures
        refusal_says(reason, r.model()),
{
}

/// A child that the guard minted is never thrown away, and a refusal never turned into a
/// child: the guard's answer is what comes back, under the name that was asked for.
pub proof fn law_answers_to_a_mint_come_back(
    parent: &RunAuthority,
    agent: String,
    outcome: Result<PresentedAuthority, DelegationFault>,
    r: Result<RunAuthority, ToolError>,
)
    requires
        call_ensures(delegation::settle_child, (parent, agent, outcome), r),
    ensures
        outcome is Ok <==> r is Ok,
        outcome matches Ok(child) ==> {
            &&& r->Ok_0.model().chain == tenuo_api::chain_of(child)
            &&& r->Ok_0.model().agent == agent@
            &&& r->Ok_0.guard == parent.guard
        },
        outcome matches Err(reason) ==> refusal_says(reason, r->Err_0.model()),
{
}

// ------------------------------------------------------------------- what a child may do

/// Demands on the incident alone: exactly this one.
pub open spec fn this_incident(incident_id: Seq<char>) -> Fields {
    Fields { limits: map!["incident_id"@ => Limit::Exact(incident_id)], open: false }
}

/// Demands on the incident alone: one whose identifier begins as incidents' do.
pub open spec fn every_incident() -> Fields {
    Fields { limits: map!["incident_id"@ => Limit::Prefix("INC-"@)], open: false }
}

/// What a worker is given: to read its incident and to hand out steps of it, for five
/// minutes, with delegation down to depth two.
pub open spec fn given_to_worker(incident_id: Seq<char>) -> ProfileModel {
    ProfileModel {
        grants: map![
            "read_incident"@ => this_incident(incident_id),
            "delegate_subtask"@ => Fields {
                limits: map![
                    "incident_id"@ => Limit::Exact(incident_id),
                    "scope"@ => Limit::Any,
                ],
                open: false,
            },
        ],
        ttl: Some(300),
        max_depth: Some(2),
        terminal: false,
    }
}

/// What the agent for a step is given: to read, for two minutes, and no delegation. The
/// scope `all-incidents` asks for every incident, and every other one for this one.
pub open spec fn given_to_reader(incident_id: Seq<char>, scope: Seq<char>) -> ProfileModel {
    ProfileModel {
        grants: map![
            "read_incident"@ => if scope == "all-incidents"@ {
                every_incident()
            } else {
                this_incident(incident_id)
            },
        ],
        ttl: Some(120),
        max_depth: None,
        terminal: true,
    }
}

/// A minted child lasts exactly as long as its profile says, unless its parent expires
/// first: then it expires with its parent.
pub proof fn law_child_lasts_as_its_profile_says(
    parent: grant::WarrantModel,
    profile: ProfileModel,
    child: grant::WarrantModel,
)
    requires
        tenuo_api::is_minted(parent, profile, child),
    ensures
        profile.ttl matches Some(ttl) ==> child.lifetime == ttl || (child.expires_at
            == parent.expires_at && child.lifetime < ttl),
        profile.ttl is None ==> child.expires_at == parent.expires_at,
        child.expires_at <= parent.expires_at,
{
}

/// Whether a child lasts so many seconds, or less where its parent expires first.
pub open spec fn lasts(
    parent: grant::WarrantModel,
    child: grant::WarrantModel,
    seconds: nat,
) -> bool {
    child.lifetime == seconds || (child.lifetime < seconds && child.expires_at
        == parent.expires_at)
}

// ------------------------------------------------------------------- the delegations

/// A worker is handed out exactly where the guard allowed the call and minted the child,
/// with what a worker is given, for five minutes or until its parent expires. Where none
/// is handed out, the guard denied the call or refused the mint, and the failure is the
/// guard's own.
pub proof fn law_guard_decides_the_worker(
    tool: &DelegateIncident,
    context: &mut ToolContext,
    args: &DelegateArgs,
    r: Reported<Handoff>,
)
    requires
        call_ensures(DelegateIncident::begin, (tool, context, args), r),
    ensures
        ({
            let before = rig_api::context_of(*old(context));
            let after = rig_api::context_of(*final(context));
            let parent = before.authority->Some_0;
            let asked = Json::Object(map!["incident_id"@ => Json::Text(args.incident_id@)]);
            let profile = given_to_worker(args.incident_id@);
            let lines = text::views(r.lines@);
            match r.result {
                Ok(handoff) => {
                    let child = handoff.authority.model();
                    &&& guarding::reaches_guard(before, "delegate_incident"@, asked)
                    &&& guarding::is_decided_by_guard(
                        before,
                        after,
                        "delegate_incident"@,
                        asked,
                        None,
                        lines.take(1),
                    )
                    &&& is_guards_child(parent, profile, child)
                    &&& child.chain.drop_last() == parent.chain
                    &&& child.chain.last().grants == profile.grants
                    &&& child.chain.last().max_depth == 2
                    &&& lasts(parent.chain.last(), child.chain.last(), 300)
                    &&& child.agent == "worker["@ + args.incident_id@ + "]"@
                    &&& handoff.prompt@ == "Investigate "@ + args.incident_id@ + " and report."@
                    &&& handoff.max_turns == 6
                    &&& lines.len() == 2
                    &&& lines[1] == "      [tenuo] child  "@ + text::padded(child.agent, 14)
                        + " holder="@ + root_key::hex_text(child.chain.last().holder.take(8))
                        + " depth="@ + text::decimal(parent.chain.len() + 1) + " "@
                        + "ttl=300s may_delegate_to_depth=2"@
                },
                Err(error) => {
                    ||| guarding::is_decided_by_guard(
                        before,
                        after,
                        "delegate_incident"@,
                        asked,
                        Some(error.model()),
                        lines,
                    )
                    ||| {
                        &&& guarding::is_decided_by_guard(
                            before,
                            after,
                            "delegate_incident"@,
                            asked,
                            None,
                            lines,
                        )
                        &&& is_guards_refusal(parent, profile, error.model())
                    }
                },
            }
        }),
{
    let before = rig_api::context_of(*old(context));
    let after = rig_api::context_of(*final(context));
    let parent = before.authority->Some_0;
    let asked = args.json();
    let profile = delegation::worker_profile(args.incident_id@);
    let lines = text::views(r.lines@);
    assert(profile == given_to_worker(args.incident_id@));
    match r.result {
        Ok(handoff) => {
            guarding::lemma_decided(
                before,
                after,
                "delegate_incident"@,
                asked,
                None,
                lines.take(1),
            );
            let child = handoff.authority.model();
            lemma_minted(parent, profile, child);
            assert(child.chain.drop_last() =~= parent.chain);
        },
        Err(error) => {
            if delegation::mint_failed(parent, profile, error.model())
                && authority::follows_decision(
                before,
                after,
                "delegate_incident"@,
                asked,
                None,
                lines,
            ) && authority::guarded_report(
                before,
                after,
                "delegate_incident"@,
                asked,
                None,
                lines,
            ) {
                guarding::lemma_decided(before, after, "delegate_incident"@, asked, None, lines);
                lemma_refused(parent, profile, error.model());
            } else {
                guarding::lemma_decided(
                    before,
                    after,
                    "delegate_incident"@,
                    asked,
                    Some(error.model()),
                    lines,
                );
            }
        },
    }
}

/// A reader is handed out exactly where the guard allowed the call and minted the child,
/// with what a reader is given, for two minutes or until its parent expires: a mint that
/// succeeds is never thrown away. Where none is handed out, the guard denied the call or
/// refused the mint, the failure is the guard's own, and a refusal is reported with the
/// scope and the reason.
pub proof fn law_guard_decides_the_reader(
    tool: &DelegateSubtask,
    context: &mut ToolContext,
    args: &SubtaskArgs,
    r: Reported<Handoff>,
)
    requires
        call_ensures(DelegateSubtask::begin, (tool, context, args), r),
    ensures
        ({
            let before = rig_api::context_of(*old(context));
            let after = rig_api::context_of(*final(context));
            let parent = before.authority->Some_0;
            let asked = Json::Object(
                map![
                    "incident_id"@ => Json::Text(args.incident_id@),
                    "scope"@ => Json::Text(args.scope@),
                ],
            );
            let profile = given_to_reader(args.incident_id@, args.scope@);
            let lines = text::views(r.lines@);
            match r.result {
                Ok(handoff) => {
                    let child = handoff.authority.model();
                    &&& guarding::reaches_guard(before, "delegate_subtask"@, asked)
                    &&& guarding::is_decided_by_guard(
                        before,
                        after,
                        "delegate_subtask"@,
                        asked,
                        None,
                        lines.take(1),
                    )
                    &&& is_guards_child(parent, profile, child)
                    &&& child.chain.drop_last() == parent.chain
                    &&& child.chain.last().grants == profile.grants
                    &&& child.chain.last().max_depth == child.chain.last().depth
                    &&& lasts(parent.chain.last(), child.chain.last(), 120)
                    &&& child.agent == "reader["@ + args.incident_id@ + "]"@
                    &&& handoff.prompt@ == "Collect the timeline for "@ + args.incident_id@ + "."@
                    &&& handoff.max_turns == 4
                    &&& lines.len() == 2
                    &&& lines[1] == "      [tenuo] child  "@ + text::padded(child.agent, 14)
                        + " holder="@ + root_key::hex_text(child.chain.last().holder.take(8))
                        + " depth="@ + text::decimal(parent.chain.len() + 1) + " "@
                        + "ttl=120s terminal"@
                },
                Err(error) => {
                    ||| guarding::is_decided_by_guard(
                        before,
                        after,
                        "delegate_subtask"@,
                        asked,
                        Some(error.model()),
                        lines,
                    )
                    ||| {
                        &&& guarding::is_decided_by_guard(
                            before,
                            after,
                            "delegate_subtask"@,
                            asked,
                            None,
                            lines.take(1),
                        )
                        &&& is_guards_refusal(parent, profile, error.model())
                        &&& lines.len() == 2
                        &&& lines[1] == "      [tenuo] refuse "@ + text::padded(parent.agent, 14)
                            + " mint for scope="@ + args.scope@ + ": "@ + authority::fault_text(
                            error.model(),
                        )
                    }
                },
            }
        }),
{
    let before = rig_api::context_of(*old(context));
    let after = rig_api::context_of(*final(context));
    let parent = before.authority->Some_0;
    let asked = args.json();
    let profile = delegation::terminal_profile(
        delegation::subtask_grants(args.incident_id@, args.scope@),
        delegation::READER_TTL_SECS as nat,
    );
    let lines = text::views(r.lines@);
    assert(profile == given_to_reader(args.incident_id@, args.scope@));
    match r.result {
        Ok(handoff) => {
            guarding::lemma_decided(
                before,
                after,
                "delegate_subtask"@,
                asked,
                None,
                lines.take(1),
            );
            let child = handoff.authority.model();
            lemma_minted(parent, profile, child);
            assert(child.chain.drop_last() =~= parent.chain);
        },
        Err(error) => {
            if authority::guarded_report(
                before,
                after,
                "delegate_subtask"@,
                asked,
                Some(error.model()),
                lines,
            ) && authority::follows_decision(
                before,
                after,
                "delegate_subtask"@,
                asked,
                Some(error.model()),
                lines,
            ) {
                guarding::lemma_decided(
                    before,
                    after,
                    "delegate_subtask"@,
                    asked,
                    Some(error.model()),
                    lines,
                );
            } else {
                guarding::lemma_decided(
                    before,
                    after,
                    "delegate_subtask"@,
                    asked,
                    None,
                    lines.take(1),
                );
                lemma_refused(parent, profile, error.model());
            }
        },
    }
}

/// An agent for one incident is the guard's child, may read that incident alone, for five
/// minutes or until its parent expires, and may not delegate; where there is none, the
/// guard refused it.
pub proof fn law_guard_decides_the_agent_for_an_incident(
    parent: &RunAuthority,
    incident_id: &str,
    r: Result<RunAuthority, ToolError>,
)
    requires
        call_ensures(delegation::child_for_incident, (parent, incident_id), r),
    ensures
        ({
            let profile = ProfileModel {
                grants: map!["read_incident"@ => this_incident(incident_id@)],
                ttl: Some(300),
                max_depth: None,
                terminal: true,
            };
            match r {
                Ok(child) => {
                    let model = child.model();
                    &&& is_guards_child(parent.model(), profile, model)
                    &&& model.chain.drop_last() == parent.model().chain
                    &&& model.chain.last().grants == profile.grants
                    &&& lasts(parent.model().chain.last(), model.chain.last(), 300)
                    &&& model.chain.last().max_depth == model.chain.last().depth
                    &&& model.agent == parent.agent@ + "/"@ + incident_id@
                },
                Err(error) => is_guards_refusal(parent.model(), profile, error.model()),
            }
        }),
{
    let profile = delegation::terminal_profile(
        delegation::reader_grants(incident_id@),
        delegation::WORKER_TTL_SECS as nat,
    );
    match r {
        Ok(child) => {
            lemma_minted(parent.model(), profile, child.model());
            assert(child.model().chain.drop_last() =~= parent.model().chain);
        },
        Err(error) => lemma_refused(parent.model(), profile, error.model()),
    }
}

/// A scaler is the guard's child, may scale staging clusters up to its cap, for five
/// minutes or until its parent expires; where there is none, the guard refused it, as it
/// must where the cap is above the parent's.
pub proof fn law_guard_decides_the_scaler(
    parent: &RunAuthority,
    max_replicas: u32,
    r: Result<RunAuthority, ToolError>,
)
    requires
        call_ensures(delegation::child_with_replicas, (parent, max_replicas), r),
    ensures
        ({
            let fields = Fields {
                limits: map![
                    "cluster"@ => Limit::Prefix("staging-"@),
                    "replicas"@ => Limit::AtMost(max_replicas as nat),
                ],
                open: false,
            };
            let profile = ProfileModel {
                grants: map!["scale_cluster"@ => fields],
                ttl: Some(300),
                max_depth: None,
                terminal: false,
            };
            let above = parent.model().chain.last();
            &&& match r {
                Ok(child) => {
                    let model = child.model();
                    &&& is_guards_child(parent.model(), profile, model)
                    &&& model.chain.drop_last() == parent.model().chain
                    &&& model.chain.last().grants == profile.grants
                    &&& lasts(above, model.chain.last(), 300)
                    &&& model.agent == parent.agent@ + "/scaler"@
                },
                Err(error) => is_guards_refusal(parent.model(), profile, error.model()),
            }
            &&& above.grants.contains_key("scale_cluster"@)
                && above.grants["scale_cluster"@].limits.contains_key("replicas"@) ==> (
            above.grants["scale_cluster"@].limits["replicas"@] matches Limit::AtMost(cap)
                ==> cap < max_replicas ==> r is Err)
        }),
{
    let profile = delegation::scaler_profile(max_replicas as nat);
    match r {
        Ok(child) => {
            lemma_minted(parent.model(), profile, child.model());
            assert(child.model().chain.drop_last() =~= parent.model().chain);
        },
        Err(error) => lemma_refused(parent.model(), profile, error.model()),
    }
}

/// A cap on replicas may be handed out exactly where it is no higher than the holder's.
pub proof fn law_caps_never_grow(warrant: grant::WarrantModel, held: nat, asked: nat)
    requires
        warrant.grants.contains_key("scale_cluster"@),
        warrant.grants["scale_cluster"@].limits.contains_key("replicas"@),
        warrant.grants["scale_cluster"@].limits["replicas"@] == Limit::AtMost(held),
    ensures
        delegation::cap_admits(warrant, asked) <==> asked <= held,
{
}

/// The credential that is taken may read INC-42 alone, for five minutes, and may not
/// delegate.
pub proof fn law_what_is_stolen()
    ensures
        attack::stolen_profile() == (ProfileModel {
            grants: map!["read_incident"@ => this_incident("INC-42"@)],
            ttl: Some(300),
            max_depth: None,
            terminal: true,
        }),
{
}

// ------------------------------------------------------------------- reports

/// What an agent reports comes back word for word, and a run that failed is a failed
/// operation.
pub proof fn law_reports_come_back(outcome: Result<String, String>, r: Result<String, ToolError>)
    requires
        call_ensures(tools::agent_report, (outcome,), r),
    ensures
        outcome is Ok <==> r is Ok,
        outcome matches Ok(report) ==> r->Ok_0@ == report@,
        outcome matches Err(reason) ==> r->Err_0.model() == Fault::Operation(reason@),
{
}

}
