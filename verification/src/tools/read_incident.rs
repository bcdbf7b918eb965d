//! Reads an incident in the agent's own process.

use crate::authority;
use crate::authority::{guarded, proceed, Reported};
use crate::json;
use crate::rig_api;
use crate::text;
use crate::tools;
use crate::tools::incident_mcp;
use crate::tools::incident_mcp::IncidentArgs;
use rig::tool::ToolContext;
use serde_json::Value;
use vstd::prelude::*;

verus! {

/// The tool that reads an incident.
pub struct ReadIncident;

/// The record of an incident.
pub open spec fn incident_text(incident_id: Seq<char>) -> Seq<char> {
    incident_id + ": severity=high, status=open, owner=secops"@
}

/// Writes the record of an incident.
pub(crate) fn incident_record(incident_id: &str) -> (r: String)
    ensures
        r@ == incident_text(incident_id@),
{
    let mut out = incident_id.to_owned();
    out.append(": severity=high, status=open, owner=secops");
    out
}

impl ReadIncident {
    /// The name of the tool.
    pub const NAME: &'static str = "read_incident";

    /// What the tool is for.
    pub fn description(&self) -> (r: String)
        ensures
            r@ == "Read an incident record from the security system of record."@,
    {
        "Read an incident record from the security system of record.".to_owned()
    }

    /// The schema of the arguments.
    pub fn parameters(&self) -> (r: Value)
        ensures
            json::json_of(r) == json::Json::Object(tools::incident_schema()),
    {
        json::object_value(tools::incident_schema_entries())
    }

    /// Reads the incident, where the authority in the context allows it.
    pub fn call(&self, context: &mut ToolContext, args: &IncidentArgs) -> (r: Reported<String>)
        ensures
            authority::guarded_report(
                rig_api::context_of(*old(context)),
                rig_api::context_of(*final(context)),
                "read_incident"@,
                incident_mcp::incident_json(args.incident_id@),
                authority::failure_in(r.result),
                text::views(r.lines@),
            ),
            authority::follows_decision(
                rig_api::context_of(*old(context)),
                rig_api::context_of(*final(context)),
                "read_incident"@,
                incident_mcp::incident_json(args.incident_id@),
                authority::failure_in(r.result),
                text::views(r.lines@),
            ),
            r.result matches Ok(done) ==> done@ == incident_text(args.incident_id@),
            r.result is Ok || authority::is_denial(r.result) || authority::stopped(
                rig_api::context_of(*old(context)),
                "read_incident"@,
                incident_mcp::incident_json(args.incident_id@),
            ) is Some,
    {
        let checked = guarded(context, ReadIncident::NAME, args, proceed);
        match checked.result {
            Ok(_) => Reported {
                result: Ok(incident_record(args.incident_id.as_str())),
                lines: checked.lines,
            },
            Err(error) => Reported { result: Err(error), lines: checked.lines },
        }
    }
}

}
