//! Hands one step of an investigation from a worker to a reader.
//!
//! The reader's warrant is terminal and covers the same incident. A worker that
//! asks for more than it holds is refused when the warrant is minted, before any
//! agent runs.

use crate::authority;
use crate::authority::{guarded, proceed, Reported, ToolError};
use crate::delegation;
use crate::json;
use crate::rig_api;
use crate::tenuo_api;
use crate::text;
use crate::tools;
use crate::tools::{Handoff, ToolArguments};
use rig::tool::ToolContext;
use serde_json::Value;
use vstd::prelude::*;

verus! {

/// Which step to hand out.
#[derive(Debug)]
pub struct SubtaskArgs {
    /// Incident the sub-step concerns.
    pub incident_id: String,
    /// "incident" (default) or "all-incidents". The latter asks for more than the
    /// worker holds.
    pub scope: String,
}

/// The JSON value of an incident identifier and a scope.
pub open spec fn subtask_json(incident_id: Seq<char>, scope: Seq<char>) -> json::Json {
    json::object_two(
        "incident_id"@,
        json::Json::Text(incident_id),
        "scope"@,
        json::Json::Text(scope),
    )
}

impl ToolArguments for SubtaskArgs {
    open spec fn json(&self) -> json::Json {
        subtask_json(self.incident_id@, self.scope@)
    }

    fn to_value(&self) -> (r: Value) {
        proof {
            reveal_strlit("incident_id");
            reveal_strlit("scope");
            assert("incident_id"@.len() != "scope"@.len());
        }
        json::object_with_two(
            "incident_id",
            json::text_value(self.incident_id.as_str()),
            "scope",
            json::text_value(self.scope.as_str()),
        )
    }
}

/// The scope where none is given.
pub fn default_scope() -> (r: String)
    ensures
        r@ == "incident"@,
{
    "incident".to_owned()
}

/// The tool that hands a step to a reader.
pub struct DelegateSubtask;

/// How many turns a reader has.
pub const READER_TURNS: usize = 4;

/// The name of the reader of an incident.
pub open spec fn reader_label(incident_id: Seq<char>) -> Seq<char> {
    "reader["@ + incident_id + "]"@
}

/// What a reader is asked.
pub open spec fn reader_prompt(incident_id: Seq<char>) -> Seq<char> {
    "Collect the timeline for "@ + incident_id + "."@
}

/// The terms of a reader's warrant, as the transcript gives them.
pub open spec fn reader_terms() -> Seq<char> {
    "ttl=120s terminal"@
}

impl DelegateSubtask {
    /// The name of the tool.
    pub const NAME: &'static str = "delegate_subtask";

    /// What the tool is for.
    pub fn description(&self) -> (r: String)
        ensures
            r@ == "Hand one sub-step of the investigation to a reader agent."@,
    {
        "Hand one sub-step of the investigation to a reader agent.".to_owned()
    }

    /// The schema of the arguments.
    pub fn parameters(&self) -> (r: Value)
        ensures
            json::json_of(r) == json::Json::Object(
                tools::object_schema(
                    json::object_two(
                        "incident_id"@,
                        tools::typed("string"@),
                        "scope"@,
                        json::object_two(
                            "type"@,
                            json::Json::Text("string"@),
                            "enum"@,
                            json::Json::Array(
                                seq![
                                    json::Json::Text("incident"@),
                                    json::Json::Text("all-incidents"@),
                                ],
                            ),
                        ),
                    ),
                    seq![json::Json::Text("incident_id"@)],
                ),
            ),
    {
        let scopes: Vec<Value> = vec![
            json::text_value("incident"),
            json::text_value("all-incidents"),
        ];
        assert(json::contents(scopes@) =~= seq![
            json::Json::Text("incident"@),
            json::Json::Text("all-incidents"@),
        ]);
        proof {
            reveal_strlit("type");
            reveal_strlit("enum");
            reveal_strlit("incident_id");
            reveal_strlit("scope");
            assert("type"@[0] != "enum"@[0]);
            assert("incident_id"@.len() != "scope"@.len());
        }
        let scope = json::object_with_two(
            "type",
            json::text_value("string"),
            "enum",
            json::array_value(scopes),
        );
        let properties = json::object_with_two(
            "incident_id",
            tools::typed_value("string"),
            "scope",
            scope,
        );
        let required: Vec<Value> = vec![json::text_value("incident_id")];
        assert(json::contents(required@) =~= seq![json::Json::Text("incident_id"@)]);
        json::object_value(tools::object_schema_entries(properties, required))
    }

    /// Mints the reader's authority, where the authority in the context allows
    /// handing out this step and holds what the scope asks for.
    pub fn begin(&self, context: &mut ToolContext, args: &SubtaskArgs) -> (r: Reported<Handoff>)
        ensures
            tools::follows_handoff(
                rig_api::context_of(*old(context)),
                rig_api::context_of(*final(context)),
                "delegate_subtask"@,
                subtask_json(args.incident_id@, args.scope@),
                delegation::terminal_profile(
                    delegation::subtask_grants(args.incident_id@, args.scope@),
                    delegation::READER_TTL_SECS as nat,
                ),
                r.result,
                text::views(r.lines@),
            ),
            match r.result {
                Ok(handoff) => {
                    let before = rig_api::context_of(*old(context));
                    let child = handoff.authority.model();
                    &&& authority::was_allowed(
                        before,
                        rig_api::context_of(*final(context)),
                        "delegate_subtask"@,
                        subtask_json(args.incident_id@, args.scope@),
                    )
                    &&& delegation::is_child(
                        before.authority->Some_0,
                        delegation::terminal_profile(
                            delegation::subtask_grants(args.incident_id@, args.scope@),
                            delegation::READER_TTL_SECS as nat,
                        ),
                        child,
                    )
                    &&& child.agent == reader_label(args.incident_id@)
                    &&& tenuo_api::is_countable(before.authority->Some_0.chain)
                    &&& handoff.prompt@ == reader_prompt(args.incident_id@)
                    &&& handoff.max_turns == READER_TURNS
                    &&& text::views(r.lines@) == seq![
                        authority::allowed_line(
                            before,
                            "delegate_subtask"@,
                            subtask_json(args.incident_id@, args.scope@),
                        ),
                        delegation::child_line(
                            child.agent,
                            child.chain.last().holder,
                            child.chain.len(),
                            reader_terms(),
                        ),
                    ]
                },
                Err(error) => {
                    ||| {
                        &&& authority::guarded_report(
                            rig_api::context_of(*old(context)),
                            rig_api::context_of(*final(context)),
                            "delegate_subtask"@,
                            subtask_json(args.incident_id@, args.scope@),
                            Some(error.model()),
                            text::views(r.lines@),
                        )
                        &&& authority::follows_decision(
                            rig_api::context_of(*old(context)),
                            rig_api::context_of(*final(context)),
                            "delegate_subtask"@,
                            subtask_json(args.incident_id@, args.scope@),
                            Some(error.model()),
                            text::views(r.lines@),
                        )
                    }
                    ||| {
                        let before = rig_api::context_of(*old(context));
                        &&& authority::is_asked(
                            before,
                            "delegate_subtask"@,
                            subtask_json(args.incident_id@, args.scope@),
                        )
                        &&& delegation::mint_failed(
                            before.authority->Some_0,
                            delegation::terminal_profile(
                                delegation::subtask_grants(args.incident_id@, args.scope@),
                                delegation::READER_TTL_SECS as nat,
                            ),
                            error.model(),
                        )
                        &&& authority::follows_decision(
                            before,
                            rig_api::context_of(*final(context)),
                            "delegate_subtask"@,
                            subtask_json(args.incident_id@, args.scope@),
                            None,
                            text::views(r.lines@).take(1),
                        )
                        &&& error is Denied || error is Operation
                        &&& !tenuo_api::is_countable(before.authority->Some_0.chain)
                            ==> error.model() == delegation::too_deep_fault()
                        &&& authority::was_allowed(
                            before,
                            rig_api::context_of(*final(context)),
                            "delegate_subtask"@,
                            subtask_json(args.incident_id@, args.scope@),
                        )
                        &&& text::views(r.lines@) == seq![
                            authority::allowed_line(
                                before,
                                "delegate_subtask"@,
                                subtask_json(args.incident_id@, args.scope@),
                            ),
                            delegation::refuse_line(
                                before.authority->Some_0.agent,
                                args.scope@,
                                authority::fault_text(error.model()),
                            ),
                        ]
                    }
                },
            },
    {
        let parent = match rig_api::get_authority(context) {
            Some(run) => run,
            None => return Reported { result: Err(ToolError::NoAuthority), lines: Vec::new() },
        };
        let checked = guarded(context, DelegateSubtask::NAME, args, proceed);
        if let Err(error) = checked.result {
            return Reported { result: Err(error), lines: checked.lines };
        }
        let mut lines = checked.lines;
        let ghost reported = text::views(lines@);
        let incident_id = args.incident_id.as_str();
        let scope = args.scope.as_str();
        let label = text::concat3("reader[", incident_id, "]");
        let minted = match delegation::new_subtask_profile(incident_id, scope) {
            Ok(profile) => delegation::mint_child(&parent, &profile, label),
            Err(text) => Err(ToolError::Operation(text)),
        };
        match minted {
            Ok(child) => {
                lines.push(delegation::minted_line(&child, "ttl=120s terminal"));
                assert(text::views(lines@) =~= reported.push(lines@.last()@));
                assert(text::views(lines@).take(1) =~= reported);
                let prompt = text::concat3("Collect the timeline for ", incident_id, ".");
                Reported {
                    result: Ok(Handoff { authority: child, prompt, max_turns: READER_TURNS }),
                    lines,
                }
            },
            Err(error) => {
                lines.push(delegation::refused_line(&parent, scope, &error));
                assert(text::views(lines@) =~= reported.push(lines@.last()@));
                assert(text::views(lines@).take(1) =~= reported);
                Reported { result: Err(error), lines }
            },
        }
    }
}

}
