//! The tools that the agents call.
//!
//! The check is the first thing that a tool does, so that every way of
//! dispatching a tool goes through it.

pub mod delegate_incident;
pub mod delegate_subtask;
pub mod incident_mcp;
pub mod read_incident;
pub mod scale_cluster;

use crate::authority;
use crate::authority::{RunAuthority, ToolError};
use crate::delegation;
use crate::json;
use crate::rig_api;
use crate::tenuo_api;
use serde_json::Value;
use vstd::prelude::*;

verus! {

/// Arguments that are checked, signed and sent as one JSON value.
pub trait ToolArguments {
    /// The JSON value that stands for these arguments.
    spec fn json(&self) -> json::Json;

    /// The JSON value that stands for these arguments.
    fn to_value(&self) -> (r: Value)
        ensures
            json::json_of(r) == self.json(),
    ;
}

/// The schema of a property of some type: `{"type": kind}`.
pub open spec fn typed(kind: Seq<char>) -> json::Json {
    json::object_one("type"@, json::Json::Text(kind))
}

/// The schema of an object: its properties and those that must be given.
pub open spec fn object_schema(properties: json::Json, required: Seq<json::Json>) -> Map<
    Seq<char>,
    json::Json,
> {
    Map::empty().insert("type"@, json::Json::Text("object"@)).insert(
        "properties"@,
        properties,
    ).insert("required"@, json::Json::Array(required))
}

/// Builds the schema of a property of some type.
pub(crate) fn typed_value(kind: &str) -> (r: Value)
    ensures
        json::json_of(r) == typed(kind@),
{
    json::object_with_one("type", json::text_value(kind))
}

/// Whether every entry of a list is one that the schema of an object has.
pub open spec fn has_schema_keys(entries: Seq<(String, Value)>) -> bool {
    forall|i: int|
        0 <= i < entries.len() ==> #[trigger] entries[i].0@ == "type"@ || entries[i].0@
            == "properties"@ || entries[i].0@ == "required"@
}

/// Builds the schema of an object as a list of entries.
pub(crate) fn object_schema_entries(properties: Value, required: Vec<Value>) -> (r: Vec<
    (String, Value),
>)
    ensures
        json::members(r@) == object_schema(
            json::json_of(properties),
            json::contents(required@),
        ),
        json::has_distinct_keys(r@),
        has_schema_keys(r@),
{
    let entries: Vec<(String, Value)> = vec![
        ("type".to_owned(), json::text_value("object")),
        ("properties".to_owned(), properties),
        ("required".to_owned(), json::array_value(required)),
    ];
    proof {
        reveal_with_fuel(json::members, 4);
        assert(entries@.drop_last().drop_last().drop_last() =~= Seq::empty());
        reveal_strlit("type");
        reveal_strlit("properties");
        reveal_strlit("required");
        assert("type"@.len() != "properties"@.len());
        assert("type"@.len() != "required"@.len());
        assert("properties"@.len() != "required"@.len());
    }
    entries
}

/// The schema of an incident identifier.
pub open spec fn incident_schema() -> Map<Seq<char>, json::Json> {
    object_schema(
        json::object_one("incident_id"@, typed("string"@)),
        seq![json::Json::Text("incident_id"@)],
    )
}

/// Builds the schema of an incident identifier as a list of entries.
pub(crate) fn incident_schema_entries() -> (r: Vec<(String, Value)>)
    ensures
        json::members(r@) == incident_schema(),
        json::has_distinct_keys(r@),
        has_schema_keys(r@),
{
    let properties = json::object_with_one("incident_id", typed_value("string"));
    let required: Vec<Value> = vec![json::text_value("incident_id")];
    assert(json::contents(required@) =~= seq![json::Json::Text("incident_id"@)]);
    object_schema_entries(properties, required)
}

/// An agent that is to run, with the authority that it runs under.
pub struct Handoff {
    pub authority: RunAuthority,
    pub prompt: String,
    pub max_turns: usize,
}

/// Whether an agent was handed out, or not, as the guard's two answers have it: the call
/// is denied where the guard denied it, the child is the one that the guard minted, and
/// a mint fails with the guard's own reason alone.
pub open spec fn follows_handoff(
    before: rig_api::ContextModel,
    after: rig_api::ContextModel,
    capability: Seq<char>,
    args: json::Json,
    profile: tenuo_api::ProfileModel,
    result: Result<Handoff, ToolError>,
    lines: Seq<Seq<char>>,
) -> bool {
    let parent = before.authority->Some_0;
    match result {
        Ok(handoff) => {
            &&& authority::is_asked(before, capability, args)
            &&& authority::follows_decision(before, after, capability, args, None, lines.take(1))
            &&& delegation::was_minted(parent, profile, handoff.authority.model())
        },
        Err(error) => {
            ||| authority::follows_decision(
                before,
                after,
                capability,
                args,
                Some(error.model()),
                lines,
            )
            ||| {
                &&& authority::is_asked(before, capability, args)
                &&& authority::follows_decision(
                    before,
                    after,
                    capability,
                    args,
                    None,
                    lines.take(1),
                )
                &&& delegation::mint_failed(parent, profile, error.model())
            }
        },
    }
}

/// What becomes of an agent's run: its report, or a failed operation.
pub fn agent_report(outcome: Result<String, String>) -> (r: Result<String, ToolError>)
    ensures
        match outcome {
            Ok(report) => r is Ok && r->Ok_0@ == report@,
            Err(text) => r is Err && r->Err_0.model() == authority::Fault::Operation(text@),
        },
{
    match outcome {
        Ok(report) => Ok(report),
        Err(text) => Err(ToolError::Operation(text)),
    }
}

}
