//! Hands one incident to a worker agent with less authority than the
//! orchestrator.
//!
//! The worker runs in a fresh context that holds nothing but the narrower chain,
//! so that it cannot reach the authority of the agent that called it.

use crate::authority;
use crate::authority::{guarded, proceed, Reported, ToolError};
use crate::delegation;
use crate::json;
use crate::rig_api;
use crate::tenuo_api;
use crate::text;
use crate::tools;
use crate::tools::incident_mcp;
use crate::tools::{Handoff, ToolArguments};
use rig::tool::ToolContext;
use serde_json::Value;
use vstd::prelude::*;

verus! {

/// Which incident to hand out.
#[derive(Debug)]
pub struct DelegateArgs {
    /// Incident the worker may investigate, e.g. "INC-42".
    pub incident_id: String,
}

impl ToolArguments for DelegateArgs {
    open spec fn json(&self) -> json::Json {
        incident_mcp::incident_json(self.incident_id@)
    }

    fn to_value(&self) -> (r: Value) {
        json::object_with_one("incident_id", json::text_value(self.incident_id.as_str()))
    }
}

/// The tool that hands an incident to a worker.
pub struct DelegateIncident;

/// How many turns a worker has.
pub const WORKER_TURNS: usize = 6;

/// The name of the worker on an incident.
pub open spec fn worker_label(incident_id: Seq<char>) -> Seq<char> {
    "worker["@ + incident_id + "]"@
}

/// What a worker is asked.
pub open spec fn worker_prompt(incident_id: Seq<char>) -> Seq<char> {
    "Investigate "@ + incident_id + " and report."@
}

/// The terms of a worker's warrant, as the transcript gives them.
pub open spec fn worker_terms() -> Seq<char> {
    "ttl=300s may_delegate_to_depth=2"@
}

impl DelegateIncident {
    /// The name of the tool.
    pub const NAME: &'static str = "delegate_incident";

    /// What the tool is for.
    pub fn description(&self) -> (r: String)
        ensures
            r@ == "Ask the incident worker agent to investigate one incident."@,
    {
        "Ask the incident worker agent to investigate one incident.".to_owned()
    }

    /// The schema of the arguments.
    pub fn parameters(&self) -> (r: Value)
        ensures
            json::json_of(r) == json::Json::Object(tools::incident_schema()),
    {
        json::object_value(tools::incident_schema_entries())
    }

    /// Mints the worker's authority, where the authority in the context allows
    /// handing out this incident.
    pub fn begin(&self, context: &mut ToolContext, args: &DelegateArgs) -> (r: Reported<Handoff>)
        ensures
            tools::follows_handoff(
                rig_api::context_of(*old(context)),
                rig_api::context_of(*final(context)),
                "delegate_incident"@,
                incident_mcp::incident_json(args.incident_id@),
                delegation::worker_profile(args.incident_id@),
                r.result,
                text::views(r.lines@),
            ),
            match r.result {
                Ok(handoff) => {
                    let before = rig_api::context_of(*old(context));
                    let child = handoff.authority.model();
                    &&& authority::was_allowed(
                        before,
                        rig_api::context_of(*final(context)),
                        "delegate_incident"@,
                        incident_mcp::incident_json(args.incident_id@),
                    )
                    &&& delegation::is_child(
                        before.authority->Some_0,
                        delegation::worker_profile(args.incident_id@),
                        child,
                    )
                    &&& child.agent == worker_label(args.incident_id@)
                    &&& tenuo_api::is_countable(before.authority->Some_0.chain)
                    &&& handoff.prompt@ == worker_prompt(args.incident_id@)
                    &&& handoff.max_turns == WORKER_TURNS
                    &&& text::views(r.lines@) == seq![
                        authority::allowed_line(
                            before,
                            "delegate_incident"@,
                            incident_mcp::incident_json(args.incident_id@),
                        ),
                        delegation::child_line(
                            child.agent,
                            child.chain.last().holder,
                            child.chain.len(),
                            worker_terms(),
                        ),
                    ]
                },
                Err(error) => {
                    ||| {
                        &&& authority::guarded_report(
                            rig_api::context_of(*old(context)),
                            rig_api::context_of(*final(context)),
                            "delegate_incident"@,
                            incident_mcp::incident_json(args.incident_id@),
                            Some(error.model()),
                            text::views(r.lines@),
                        )
                        &&& authority::follows_decision(
                            rig_api::context_of(*old(context)),
                            rig_api::context_of(*final(context)),
                            "delegate_incident"@,
                            incident_mcp::incident_json(args.incident_id@),
                            Some(error.model()),
                            text::views(r.lines@),
                        )
                    }
                    ||| {
                        &&& delegation::mint_failed(
                            rig_api::context_of(*old(context)).authority->Some_0,
                            delegation::worker_profile(args.incident_id@),
                            error.model(),
                        )
                        &&& authority::follows_decision(
                            rig_api::context_of(*old(context)),
                            rig_api::context_of(*final(context)),
                            "delegate_incident"@,
                            incident_mcp::incident_json(args.incident_id@),
                            None,
                            text::views(r.lines@),
                        )
                        &&& error is Denied || error is Operation
                        &&& !tenuo_api::is_countable(
                            rig_api::context_of(*old(context)).authority->Some_0.chain,
                        ) ==> error.model() == delegation::too_deep_fault()
                        &&& authority::guarded_report(
                            rig_api::context_of(*old(context)),
                            rig_api::context_of(*final(context)),
                            "delegate_incident"@,
                            incident_mcp::incident_json(args.incident_id@),
                            None,
                            text::views(r.lines@),
                        )
                    }
                },
            },
    {
        let parent = match rig_api::get_authority(context) {
            Some(run) => run,
            None => return Reported { result: Err(ToolError::NoAuthority), lines: Vec::new() },
        };
        let checked = guarded(context, DelegateIncident::NAME, args, proceed);
        if let Err(error) = checked.result {
            return Reported { result: Err(error), lines: checked.lines };
        }
        let mut lines = checked.lines;
        let ghost reported = text::views(lines@);
        assert(reported.take(1) =~= reported);
        let incident_id = args.incident_id.as_str();
        let profile = delegation::new_worker_profile(incident_id);
        let label = text::concat3("worker[", incident_id, "]");
        let child = match delegation::mint_child(&parent, &profile, label) {
            Ok(child) => child,
            Err(error) => return Reported { result: Err(error), lines },
        };
        lines.push(delegation::minted_line(&child, "ttl=300s may_delegate_to_depth=2"));
        assert(text::views(lines@) =~= reported.push(lines@.last()@));
        assert(text::views(lines@).take(1) =~= reported);
        let prompt = text::concat3("Investigate ", incident_id, " and report.");
        Reported {
            result: Ok(Handoff { authority: child, prompt, max_turns: WORKER_TURNS }),
            lines,
        }
    }
}

}
