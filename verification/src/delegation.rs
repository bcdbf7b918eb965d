//! Gives an agent less authority than its parent holds. Never more.

use crate::authority;
use crate::authority::{map_delegation_error, RunAuthority, ToolError};
use crate::constraints;
use crate::grant;
use crate::root_key;
use crate::tenuo_api;
use crate::tenuo_api::DelegationFault;
use crate::text;
use std::sync::Arc;
use tenuo::sdk::prelude::{DelegationProfile, Guard, PresentedAuthority};
use vstd::prelude::*;

verus! {

/// How long a worker's warrant lasts, in seconds.
pub const WORKER_TTL_SECS: u64 = 300;

/// How deep the warrants below a worker's may go.
pub const WORKER_MAX_DEPTH: u32 = 2;

/// How long a reader's warrant lasts, in seconds.
pub const READER_TTL_SECS: u64 = 120;

// ------------------------------------------------------------------- profiles

/// What a reader of one incident may do.
pub open spec fn reader_grants(incident_id: Seq<char>) -> Map<Seq<char>, grant::Fields> {
    Map::empty().insert(
        "read_incident"@,
        grant::one_field("incident_id"@, constraints::one_incident(incident_id)),
    )
}

/// What a reader of every incident might do.
pub open spec fn all_incident_grants() -> Map<Seq<char>, grant::Fields> {
    Map::empty().insert(
        "read_incident"@,
        grant::one_field("incident_id"@, constraints::any_incident()),
    )
}

/// What a worker on one incident may do: read it, and hand out a step of it.
pub open spec fn worker_grants(incident_id: Seq<char>) -> Map<Seq<char>, grant::Fields> {
    reader_grants(incident_id).insert(
        "delegate_subtask"@,
        grant::two_fields(
            "incident_id"@,
            constraints::one_incident(incident_id),
            "scope"@,
            grant::Limit::Any,
        ),
    )
}

/// What a worker on one incident is given: its capabilities for five minutes, and
/// one more delegation.
pub open spec fn worker_profile(incident_id: Seq<char>) -> tenuo_api::ProfileModel {
    tenuo_api::ProfileModel {
        grants: worker_grants(incident_id),
        ttl: Some(WORKER_TTL_SECS as nat),
        max_depth: Some(WORKER_MAX_DEPTH as nat),
        terminal: false,
    }
}

/// What a last agent in a chain is given: capabilities for some time, and no
/// delegation.
pub open spec fn terminal_profile(
    grants: Map<Seq<char>, grant::Fields>,
    ttl: nat,
) -> tenuo_api::ProfileModel {
    tenuo_api::ProfileModel { grants, ttl: Some(ttl), max_depth: None, terminal: true }
}

/// The capabilities that a sub-step asks for: every incident where the scope says
/// so, and else this one.
pub open spec fn subtask_grants(incident_id: Seq<char>, scope: Seq<char>) -> Map<
    Seq<char>,
    grant::Fields,
> {
    if scope == "all-incidents"@ {
        all_incident_grants()
    } else {
        reader_grants(incident_id)
    }
}

/// Builds what a worker on one incident is given.
pub(crate) fn new_worker_profile(incident_id: &str) -> (r: DelegationProfile)
    ensures
        tenuo_api::profile_of(r) == worker_profile(incident_id@),
{
    let profile = tenuo_api::new_profile();
    let profile = tenuo_api::profile_capability(
        profile,
        "read_incident",
        constraints::exact_incident(incident_id),
    );
    let profile = tenuo_api::profile_capability(
        profile,
        "delegate_subtask",
        constraints::with_any_scope(constraints::exact_incident(incident_id)),
    );
    let profile = tenuo_api::profile_ttl(profile, WORKER_TTL_SECS);
    tenuo_api::profile_max_depth(profile, WORKER_MAX_DEPTH)
}

/// Builds what a reader of one incident is given.
pub(crate) fn new_reader_profile(incident_id: &str, ttl: u64) -> (r: DelegationProfile)
    requires
        ttl <= tenuo_api::MAX_TTL_SECS,
    ensures
        tenuo_api::profile_of(r) == terminal_profile(reader_grants(incident_id@), ttl as nat),
{
    let profile = tenuo_api::profile_capability(
        tenuo_api::new_profile(),
        "read_incident",
        constraints::exact_incident(incident_id),
    );
    tenuo_api::profile_terminal(tenuo_api::profile_ttl(profile, ttl))
}

/// Builds what the agent for a sub-step is given.
pub(crate) fn new_subtask_profile(incident_id: &str, scope: &str) -> (r: Result<
    DelegationProfile,
    String,
>)
    ensures
        r is Ok,
        tenuo_api::profile_of(r->Ok_0) == terminal_profile(
            subtask_grants(incident_id@, scope@),
            READER_TTL_SECS as nat,
        ),
{
    if text::same(scope, "all-incidents") {
        let set = match constraints::incident_pattern() {
            Ok(set) => set,
            Err(text) => return Err(text),
        };
        let profile = tenuo_api::profile_capability(
            tenuo_api::new_profile(),
            "read_incident",
            set,
        );
        Ok(tenuo_api::profile_terminal(tenuo_api::profile_ttl(profile, READER_TTL_SECS)))
    } else {
        Ok(new_reader_profile(incident_id, READER_TTL_SECS))
    }
}

// ------------------------------------------------------------------- children

/// Whether a run's authority was minted below a parent's from a profile: the
/// same roots, ceiling and reporting, the parent's chain, which its guard has
/// verified and held to its ceiling, and one more warrant for a key of good order.
pub open spec fn is_child(
    parent: authority::RunModel,
    profile: tenuo_api::ProfileModel,
    child: authority::RunModel,
) -> bool {
    &&& child.roots == parent.roots
    &&& child.ceiling == parent.ceiling
    &&& child.reporting == parent.reporting
    &&& grant::is_within_ceiling(parent.ceiling, parent.chain)
    &&& tenuo_api::is_verified(parent.roots, parent.chain)
    &&& child.chain == parent.chain.push(child.chain.last())
    &&& tenuo_api::is_minted(parent.chain.last(), profile, child.chain.last())
    &&& tenuo_api::key_fault(child.chain.last().holder) is None
}

/// Turns the guard's answer into a named child under the same guard, or into the
/// error that a tool returns.
pub fn settle_child(
    parent: &RunAuthority,
    agent: String,
    outcome: Result<PresentedAuthority, DelegationFault>,
) -> (r: Result<RunAuthority, ToolError>)
    ensures
        match outcome {
            Ok(child) => r is Ok && r->Ok_0.guard == parent.guard && r->Ok_0.model() == (
            authority::RunModel {
                chain: tenuo_api::chain_of(child),
                agent: agent@,
                ..parent.model()
            }),
            Err(fault) => r is Err && r->Err_0.model() == authority::delegation_fault(fault),
        },
{
    match outcome {
        Ok(child) => Ok(
            RunAuthority { guard: parent.guard.clone(), authority: Arc::new(child), agent },
        ),
        Err(fault) => Err(map_delegation_error(fault)),
    }
}

/// Whether the guard of a run, asked to mint a child from a profile, gave this answer.
spec fn asked_to_mint(
    run: RunAuthority,
    profile: DelegationProfile,
    outcome: Result<PresentedAuthority, DelegationFault>,
) -> bool {
    call_ensures(tenuo_api::delegate, (&*run.guard, &*run.authority, &profile), outcome)
}

/// Whether this is an answer that the guard itself gave: asked to mint a child of this
/// authority from this profile.
pub closed spec fn guard_gave_child(
    parent: authority::RunModel,
    profile: tenuo_api::ProfileModel,
    outcome: Result<PresentedAuthority, DelegationFault>,
) -> bool {
    exists|run: RunAuthority, asked: DelegationProfile| #[trigger]
        asked_to_mint(run, asked, outcome) && run.model() == parent && tenuo_api::profile_of(asked)
            == profile
}

/// An answer that the guard gave to a mint came of asking it, over the roots and the chain
/// of the parent, for this very profile.
pub(crate) proof fn law_mints_come_of_asking(
    parent: authority::RunModel,
    profile: tenuo_api::ProfileModel,
    outcome: Result<PresentedAuthority, DelegationFault>,
)
    requires
        guard_gave_child(parent, profile, outcome),
    ensures
        exists|guard: Guard, presented: PresentedAuthority, asked: DelegationProfile|
            #![trigger call_ensures(
                tenuo_api::delegate,
                (&guard, &presented, &asked),
                outcome,
            )]
            {
                &&& call_ensures(tenuo_api::delegate, (&guard, &presented, &asked), outcome)
                &&& tenuo_api::roots_of(guard) == parent.roots
                &&& tenuo_api::ceiling_of(guard) == parent.ceiling
                &&& tenuo_api::chain_of(presented) == parent.chain
                &&& tenuo_api::profile_of(asked) == profile
            },
{
    let (run, asked): (RunAuthority, DelegationProfile) = choose|
        run: RunAuthority,
        asked: DelegationProfile,
    | #[trigger]
        asked_to_mint(run, asked, outcome) && run.model() == parent && tenuo_api::profile_of(asked)
            == profile;
    assert(call_ensures(
        tenuo_api::delegate,
        (&*run.guard, &*run.authority, &asked),
        outcome,
    ));
}

/// Whether the guard minted a child, and this authority presents its chain under the
/// same guard.
pub open spec fn was_minted(
    parent: authority::RunModel,
    profile: tenuo_api::ProfileModel,
    child: authority::RunModel,
) -> bool {
    exists|minted: PresentedAuthority| #[trigger]
        guard_gave_child(parent, profile, Ok(minted)) && child == (authority::RunModel {
            chain: tenuo_api::chain_of(minted),
            agent: child.agent,
            ..parent
        })
}

/// Whether the guard refused to mint a child, and this is what becomes of its reason.
pub open spec fn was_refused(
    parent: authority::RunModel,
    profile: tenuo_api::ProfileModel,
    fault: authority::Fault,
) -> bool {
    exists|reason: DelegationFault| #[trigger]
        guard_gave_child(parent, profile, Err(reason)) && fault == authority::delegation_fault(
            reason,
        )
}

/// Whether this is why no child was minted: the guard refused, or was not asked, as it is
/// not about a parent whose depths cannot be counted.
pub open spec fn mint_failed(
    parent: authority::RunModel,
    profile: tenuo_api::ProfileModel,
    fault: authority::Fault,
) -> bool {
    if tenuo_api::is_countable(parent.chain) {
        was_refused(parent, profile, fault)
    } else {
        fault == too_deep_fault()
    }
}

/// Whether a delegation went as the guard's answer has it: the child that it minted, or
/// its refusal.
pub open spec fn follows_mint(
    parent: authority::RunModel,
    profile: tenuo_api::ProfileModel,
    result: Result<RunAuthority, ToolError>,
) -> bool {
    match result {
        Ok(child) => was_minted(parent, profile, child.model()),
        Err(error) => mint_failed(parent, profile, error.model()),
    }
}

/// What becomes of a delegation that the guard is not asked for.
pub open spec fn too_deep_fault() -> authority::Fault {
    authority::Fault::Operation("delegate: "@ + "chain is too deep"@)
}

/// Mints a child of a run's authority under the same guard and names it. A parent
/// whose depths cannot be counted mints none.
pub(crate) fn mint_child(parent: &RunAuthority, profile: &DelegationProfile, agent: String) -> (r:
    Result<RunAuthority, ToolError>)
    ensures
        r matches Ok(child) ==> is_child(
            parent.model(),
            tenuo_api::profile_of(*profile),
            child.model(),
        ) && child.model().agent == agent@ && child.guard == parent.guard,
        follows_mint(parent.model(), tenuo_api::profile_of(*profile), r),
        r matches Err(error) ==> error is Denied || error is Operation,
        !tenuo_api::is_countable(parent.model().chain) ==> r is Err && r->Err_0.model()
            == too_deep_fault(),
{
    let outcome = if tenuo_api::root_depth(&parent.authority) == u32::MAX {
        Err(DelegationFault::Other("chain is too deep".to_owned()))
    } else {
        let answer = tenuo_api::delegate(&parent.guard, &parent.authority, profile);
        assert(asked_to_mint(*parent, *profile, answer));
        answer
    };
    let ghost answer = outcome;
    proof {
        let model = parent.model();
        if tenuo_api::is_countable(model.chain) {
            assert(guard_gave_child(model, tenuo_api::profile_of(*profile), answer));
            if answer is Ok {
                assert(answer == Ok::<PresentedAuthority, DelegationFault>(answer->Ok_0));
            } else {
                assert(answer == Err::<PresentedAuthority, DelegationFault>(answer->Err_0));
            }
        }
    }
    settle_child(parent, agent, outcome)
}

/// A child that can read exactly one incident, for five minutes, and hand out
/// nothing.
///
/// The guard checks the parent under current policy first, so that a revoked or
/// expired parent hands out nothing.
pub fn child_for_incident(parent: &RunAuthority, incident_id: &str) -> (r: Result<
    RunAuthority,
    ToolError,
>)
    ensures
        r matches Ok(child) ==> {
            &&& is_child(
                parent.model(),
                terminal_profile(reader_grants(incident_id@), WORKER_TTL_SECS as nat),
                child.model(),
            )
            &&& child.model().agent == parent.model().agent + "/"@ + incident_id@
            &&& child.guard == parent.guard
        },
        follows_mint(
            parent.model(),
            terminal_profile(reader_grants(incident_id@), WORKER_TTL_SECS as nat),
            r,
        ),
        r matches Err(error) ==> error is Denied || error is Operation,
        !tenuo_api::is_countable(parent.model().chain) ==> r is Err && r->Err_0.model()
            == too_deep_fault(),
{
    let profile = new_reader_profile(incident_id, WORKER_TTL_SECS);
    let agent = text::concat3(parent.agent.as_str(), "/", incident_id);
    mint_child(parent, &profile, agent)
}

/// What a child that scales staging clusters is given.
pub open spec fn scaler_profile(max_replicas: nat) -> tenuo_api::ProfileModel {
    tenuo_api::ProfileModel {
        grants: Map::empty().insert("scale_cluster"@, constraints::scale_fields(max_replicas)),
        ttl: Some(WORKER_TTL_SECS as nat),
        max_depth: None,
        terminal: false,
    }
}

/// Whether a warrant lets a cap on replicas be handed out: it grants scaling, and
/// its own cap, where it has one, is no lower.
pub open spec fn cap_admits(warrant: grant::WarrantModel, max_replicas: nat) -> bool {
    match grant::grant_for(warrant, "scale_cluster"@) {
        Some(fields) => fields.limits.contains_key("replicas"@) ==> grant::narrows(
            fields.limits["replicas"@],
            grant::Limit::AtMost(max_replicas),
        ),
        None => false,
    }
}

/// A child that scales staging clusters up to a cap. A cap above the parent's is
/// refused.
pub fn child_with_replicas(parent: &RunAuthority, max_replicas: u32) -> (r: Result<
    RunAuthority,
    ToolError,
>)
    ensures
        r matches Ok(child) ==> {
            &&& is_child(parent.model(), scaler_profile(max_replicas as nat), child.model())
            &&& child.model().agent == parent.model().agent + "/scaler"@
            &&& child.guard == parent.guard
        },
        follows_mint(parent.model(), scaler_profile(max_replicas as nat), r),
        !tenuo_api::is_countable(parent.model().chain) ==> r is Err && r->Err_0.model()
            == too_deep_fault(),
        !cap_admits(parent.model().chain.last(), max_replicas as nat) ==> r is Err,
        r matches Err(error) ==> error is Denied || error is Operation,
{
    let set = match constraints::staging_scale(max_replicas) {
        Ok(set) => set,
        Err(text) => return Err(ToolError::Operation(text)),
    };
    let profile = tenuo_api::profile_capability(tenuo_api::new_profile(), "scale_cluster", set);
    let profile = tenuo_api::profile_ttl(profile, WORKER_TTL_SECS);
    let mut agent = parent.agent.clone();
    agent.append("/scaler");
    let r = mint_child(parent, &profile, agent);
    proof {
        if r is Ok {
            let above = parent.model().chain.last();
            let below = r->Ok_0.model().chain.last();
            let granted = below.grants["scale_cluster"@];
            assert(below.grants.contains_key("scale_cluster"@));
            reveal_strlit("cluster");
            reveal_strlit("replicas");
            assert("cluster"@.len() != "replicas"@.len());
            assert(granted.limits["replicas"@] == grant::Limit::AtMost(max_replicas as nat));
            assert(cap_admits(above, max_replicas as nat));
        }
    }
    r
}

// ------------------------------------------------------------------- transcript

/// The transcript line of a minted child.
pub open spec fn child_line(
    label: Seq<char>,
    holder: Seq<u8>,
    depth: nat,
    terms: Seq<char>,
) -> Seq<char> {
    "      [tenuo] child  "@ + text::padded(label, 14) + " holder="@ + root_key::hex_text(
        holder.take(8),
    ) + " depth="@ + text::decimal(depth) + " "@ + terms
}

/// The transcript line of a refused child.
pub open spec fn refuse_line(agent: Seq<char>, scope: Seq<char>, error: Seq<char>) -> Seq<char> {
    "      [tenuo] refuse "@ + text::padded(agent, 14) + " mint for scope="@ + scope + ": "@ + error
}

/// Writes the transcript line of a minted child.
pub(crate) fn minted_line(child: &RunAuthority, terms: &str) -> (r: String)
    ensures
        r@ == child_line(
            child.model().agent,
            child.model().chain.last().holder,
            child.model().chain.len(),
            terms@,
        ),
{
    let holder = tenuo_api::fingerprint(&tenuo_api::authority_holder(&child.authority));
    let depth = text::decimal_text(tenuo_api::chain_length(&child.authority) as u64);
    let label = text::pad(child.agent.as_str(), 14);
    let mut line = "      [tenuo] child  ".to_owned();
    line.append(label.as_str());
    line.append(" holder=");
    line.append(holder.as_str());
    line.append(" depth=");
    line.append(depth.as_str());
    line.append(" ");
    line.append(terms);
    line
}

/// Writes the transcript line of a refused child.
pub(crate) fn refused_line(parent: &RunAuthority, scope: &str, error: &ToolError) -> (r: String)
    ensures
        r@ == refuse_line(
            parent.model().agent,
            scope@,
            authority::fault_text(error.model()),
        ),
{
    let name = text::pad(parent.agent.as_str(), 14);
    let detail = error.to_text();
    let mut line = "      [tenuo] refuse ".to_owned();
    line.append(name.as_str());
    line.append(" mint for scope=");
    line.append(scope);
    line.append(": ");
    line.append(detail.as_str());
    line
}

}
