use tenuo::sdk::prelude::{PresentedAuthority, Warrant};
use tenuo_rig::authority::{RunAuthority, ToolError};
use tenuo_rig::delegation::{child_for_incident, child_with_replicas, settle_child};
use tenuo_rig::issuer::{
    agent_public_key, new_agent_key, orchestrator_authority, ControlPlane,
};
use tenuo_rig::tenuo_api::DelegationFault;
use tenuo_rig::tools::delegate_incident::{DelegateArgs, DelegateIncident};
use tenuo_rig::tools::delegate_subtask::{default_scope, DelegateSubtask, SubtaskArgs};
use tenuo_rig::tools::incident_mcp::IncidentArgs;
use tenuo_rig::tools::read_incident::ReadIncident;
use tenuo_rig::tools::scale_cluster::{ScaleArgs, ScaleCluster};

fn mint() -> (ControlPlane, Warrant, RunAuthority) {
    let plane = ControlPlane::start();
    let key = new_agent_key();
    let warrant = plane
        .mint_orchestrator_warrant(&agent_public_key(&key))
        .expect("mint");
    let run = orchestrator_authority(plane.root_public_key(), warrant.clone(), key)
        .ok()
        .expect("authority");
    (plane, warrant, run)
}

fn worker(run: &RunAuthority, incident_id: &str) -> RunAuthority {
    let args = DelegateArgs { incident_id: incident_id.to_string() };
    let reported = DelegateIncident.begin(&mut run.context(), &args);
    reported.result.ok().expect("worker").authority
}

fn step(incident_id: &str, scope: &str) -> SubtaskArgs {
    SubtaskArgs { incident_id: incident_id.to_string(), scope: scope.to_string() }
}

fn leaf(authority: &PresentedAuthority) -> &Warrant {
    authority.leaf()
}

fn reads(run: &RunAuthority, incident_id: &str) -> bool {
    let args = IncidentArgs { incident_id: incident_id.to_string() };
    ReadIncident.call(&mut run.context(), &args).result.is_ok()
}

fn scales(run: &RunAuthority, cluster: &str, replicas: i64) -> bool {
    let args = ScaleArgs { cluster: cluster.to_string(), replicas };
    ScaleCluster.call(&mut run.context(), &args).result.is_ok()
}

#[test]
fn the_orchestrators_warrant_is_the_documented_one() {
    let (plane, warrant, run) = mint();
    assert_eq!(
        warrant.tools(),
        vec!["delegate_incident", "delegate_subtask", "read_incident", "scale_cluster"]
    );
    assert_eq!(warrant.lifetime_secs(), 600);
    assert_eq!(warrant.depth(), 0);
    assert_eq!(warrant.effective_max_depth(), 64);
    assert_eq!(warrant.issuer(), &plane.root_public_key());
    assert_eq!(warrant.authorized_holder(), run.authority.holder());
    assert_eq!(run.agent, "orchestrator");
}

#[test]
fn a_key_that_does_not_hold_the_warrant_is_refused() {
    let (plane, warrant, _) = mint();
    let refused = orchestrator_authority(plane.root_public_key(), warrant, new_agent_key());
    assert_eq!(refused.err().expect("refused"), "signer does not match leaf holder");
}

#[test]
fn the_orchestrator_scales_staging_up_to_ten() {
    let (_, _, run) = mint();
    assert!(scales(&run, "staging-web", 3));
    assert!(scales(&run, "staging-web", 10));
    assert!(scales(&run, "staging-", -1));
    assert!(!scales(&run, "staging-web", 11));
    assert!(!scales(&run, "staging", 3));
    assert!(!scales(&run, "production-web", 3));
    assert!(!scales(&run, "production-web", 20));
}

#[test]
fn a_negative_count_is_written_with_its_sign() {
    let (_, _, run) = mint();
    let args = ScaleArgs { cluster: "staging-web".to_string(), replicas: -12 };
    let reported = ScaleCluster.call(&mut run.context(), &args);
    assert_eq!(reported.result.ok().expect("allowed"), "scaled staging-web to -12 replicas");
}

#[test]
fn the_orchestrator_reads_any_incident() {
    let (_, _, run) = mint();
    assert!(reads(&run, "INC-42"));
    assert!(reads(&run, "INC-"));
    assert!(!reads(&run, "SEC-1"));
    let args = IncidentArgs { incident_id: "INC-7".to_string() };
    let reported = ReadIncident.call(&mut run.context(), &args);
    assert_eq!(
        reported.result.ok().expect("allowed"),
        "INC-7: severity=high, status=open, owner=secops"
    );
}

#[test]
fn a_worker_gets_one_incident_and_one_more_delegation() {
    let (_, _, run) = mint();
    let args = DelegateArgs { incident_id: "INC-42".to_string() };
    let reported = DelegateIncident.begin(&mut run.context(), &args);
    let handoff = reported.result.ok().expect("worker");
    assert_eq!(handoff.prompt, "Investigate INC-42 and report.");
    assert_eq!(handoff.max_turns, 6);
    assert_eq!(handoff.authority.agent, "worker[INC-42]");
    let authority = &handoff.authority.authority;
    assert_eq!(authority.chain().len(), 2);
    assert_ne!(authority.holder(), run.authority.holder());
    let warrant = leaf(authority);
    assert_eq!(warrant.tools(), vec!["delegate_subtask", "read_incident"]);
    assert!(warrant.lifetime_secs() <= 300);
    assert_eq!(warrant.depth(), 1);
    assert_eq!(warrant.effective_max_depth(), 2);
    assert!(!warrant.is_terminal());
    assert_eq!(
        reported.lines[1],
        format!(
            "      [tenuo] child  worker[INC-42] holder={} depth=2 ttl=300s may_delegate_to_depth=2",
            authority.holder().fingerprint()
        )
    );
}

#[test]
fn workers_are_isolated_from_each_other() {
    let (_, _, run) = mint();
    let first = worker(&run, "INC-42");
    let second = worker(&run, "INC-43");
    assert!(reads(&first, "INC-42"));
    assert!(!reads(&first, "INC-43"));
    assert!(reads(&second, "INC-43"));
    assert!(!reads(&second, "INC-42"));
    assert!(!scales(&first, "staging-web", 3));
    assert_ne!(first.authority.holder(), second.authority.holder());
}

#[test]
fn an_incident_outside_the_pattern_is_not_handed_out() {
    let (_, _, run) = mint();
    let args = DelegateArgs { incident_id: "SEC-1".to_string() };
    let reported = DelegateIncident.begin(&mut run.context(), &args);
    match reported.result {
        Err(ToolError::Denied { code, .. }) => assert_eq!(code, "constraint-violation"),
        _ => panic!("not denied"),
    }
    assert_eq!(reported.lines.len(), 1);
}

#[test]
fn a_worker_cannot_hand_out_incidents() {
    let (_, _, run) = mint();
    let worker = worker(&run, "INC-42");
    let args = DelegateArgs { incident_id: "INC-42".to_string() };
    let reported = DelegateIncident.begin(&mut worker.context(), &args);
    assert!(matches!(reported.result, Err(ToolError::Denied { .. })));
}

#[test]
fn handing_out_needs_authority() {
    let mut context = rig::tool::ToolContext::new();
    let args = DelegateArgs { incident_id: "INC-42".to_string() };
    let reported = DelegateIncident.begin(&mut context, &args);
    assert!(matches!(reported.result, Err(ToolError::NoAuthority)));
    let reported = DelegateSubtask.begin(&mut context, &step("INC-42", "incident"));
    assert!(matches!(reported.result, Err(ToolError::NoAuthority)));
    assert!(reported.lines.is_empty());
}

#[test]
fn a_reader_is_terminal() {
    let (_, _, run) = mint();
    let worker = worker(&run, "INC-42");
    let reported = DelegateSubtask.begin(&mut worker.context(), &step("INC-42", "incident"));
    let handoff = reported.result.ok().expect("reader");
    assert_eq!(handoff.prompt, "Collect the timeline for INC-42.");
    assert_eq!(handoff.max_turns, 4);
    assert_eq!(handoff.authority.agent, "reader[INC-42]");
    let warrant = leaf(&handoff.authority.authority);
    assert_eq!(warrant.tools(), vec!["read_incident"]);
    assert!(warrant.lifetime_secs() <= 120);
    assert_eq!(warrant.depth(), 2);
    assert!(warrant.is_terminal());
    assert!(reads(&handoff.authority, "INC-42"));
    assert!(!reads(&handoff.authority, "INC-43"));
    assert!(child_for_incident(&handoff.authority, "INC-42").is_err());
}

#[test]
fn a_worker_cannot_widen_its_scope() {
    let (_, _, run) = mint();
    let worker = worker(&run, "INC-42");
    let reported = DelegateSubtask.begin(&mut worker.context(), &step("INC-42", "all-incidents"));
    match reported.result {
        Err(ToolError::Denied { code, message }) => {
            assert_eq!(code, "invalid-attenuation");
            assert_eq!(
                message,
                "incompatible constraint types: cannot attenuate Exact to Pattern"
            );
        }
        _ => panic!("not refused"),
    }
    assert_eq!(
        reported.lines[1],
        "      [tenuo] refuse worker[INC-42] mint for scope=all-incidents: denied (invalid-attenuation): incompatible constraint types: cannot attenuate Exact to Pattern"
    );
}

#[test]
fn the_orchestrator_may_hand_out_every_incident() {
    let (_, _, run) = mint();
    let reported = DelegateSubtask.begin(&mut run.context(), &step("INC-42", "all-incidents"));
    let handoff = reported.result.ok().expect("reader");
    assert!(reads(&handoff.authority, "INC-43"));
}

#[test]
fn the_scope_is_the_incident_where_none_is_given() {
    assert_eq!(default_scope(), "incident");
}

#[test]
fn a_child_for_one_incident_is_terminal() {
    let (_, _, run) = mint();
    let child = child_for_incident(&run, "INC-42").ok().expect("child");
    assert_eq!(child.agent, "orchestrator/INC-42");
    assert!(reads(&child, "INC-42"));
    assert!(!reads(&child, "INC-43"));
    let warrant = leaf(&child.authority);
    assert!(warrant.lifetime_secs() <= 300);
    assert!(warrant.is_terminal());
    assert!(child_for_incident(&run, "SEC-1").is_err());
}

#[test]
fn a_replica_cap_cannot_grow() {
    let (_, _, run) = mint();
    let child = child_with_replicas(&run, 5).ok().expect("child");
    assert_eq!(child.agent, "orchestrator/scaler");
    assert!(scales(&child, "staging-web", 5));
    assert!(!scales(&child, "staging-web", 6));
    assert!(child_with_replicas(&run, 10).is_ok());
    match child_with_replicas(&run, 11) {
        Err(ToolError::Denied { .. }) => {}
        _ => panic!("not refused"),
    }
    assert!(child_with_replicas(&child, 6).is_err());
}

#[test]
fn an_answer_of_the_guard_makes_a_child_or_an_error() {
    let (_, _, run) = mint();
    let kept = settle_child(&run, "same".to_string(), Ok((*run.authority).clone()));
    let kept = kept.ok().expect("child");
    assert_eq!(kept.agent, "same");
    assert_eq!(kept.authority.holder(), run.authority.holder());
    let fault = DelegationFault::Other("no signer".to_string());
    match settle_child(&run, "none".to_string(), Err(fault)) {
        Err(ToolError::Operation(text)) => assert_eq!(text, "delegate: no signer"),
        _ => panic!("not an error"),
    }
}
