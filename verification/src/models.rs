//! Scripted models: a model plays one step of a script in each turn, and answers
//! in the end from the results that its tools really gave.

use crate::completion_api;
use crate::completion_api::{BlockPart, MessagePart, UserPart};
use crate::json;
use crate::rig_api;
use crate::text;
use rig::completion::{CompletionRequest, CompletionResponse};
use rig::message::{AssistantContent, Message, ToolResultContent, UserContent};
use rig::streaming::{RawStreamingChoice, StreamFinal};
use serde_json::Value;
use std::sync::Arc;
use vstd::prelude::*;

verus! {

// ------------------------------------------------------------------- results

/// The text of one block of a tool's result.
pub open spec fn block_text(block: rig_api::Block) -> Seq<char> {
    match block {
        rig_api::Block::Text(text) => text,
        rig_api::Block::Json(value) => json::json_text(value),
        rig_api::Block::Image => "[non-text result]"@,
    }
}

/// The text of a tool's result: its blocks on lines of their own.
pub open spec fn content_text(content: Seq<rig_api::Block>) -> Seq<char> {
    text::joined(content.map_values(|b: rig_api::Block| block_text(b)), "\n"@)
}

/// The tools' results in a user message, each with its tool.
pub open spec fn results_in(content: Seq<completion_api::UserModel>) -> Seq<(Seq<char>, Seq<char>)>
    decreases content.len(),
{
    if content.len() == 0 {
        Seq::empty()
    } else {
        let before = results_in(content.drop_last());
        match content.last() {
            completion_api::UserModel::ToolResult { tool, content } => before.push(
                (tool, content_text(content)),
            ),
            completion_api::UserModel::Other => before,
        }
    }
}

/// The tools' results in a conversation, each with its tool, oldest first.
pub open spec fn result_texts(history: Seq<completion_api::MessageModel>) -> Seq<
    (Seq<char>, Seq<char>),
>
    decreases history.len(),
{
    if history.len() == 0 {
        Seq::empty()
    } else {
        let before = result_texts(history.drop_last());
        match history.last() {
            completion_api::MessageModel::User(content) => before + results_in(content),
            _ => before,
        }
    }
}

/// The characters of each pair of strings.
pub open spec fn pair_views(pairs: Seq<(String, String)>) -> Seq<(Seq<char>, Seq<char>)> {
    pairs.map_values(|p: (String, String)| (p.0@, p.1@))
}

/// Writes the text of a tool's result.
fn write_content(content: &Vec<ToolResultContent>) -> (r: String)
    ensures
        r@ == content_text(rig_api::blocks_of(content@)),
{
    let ghost blocks = rig_api::blocks_of(content@);
    let ghost write = |b: rig_api::Block| block_text(b);
    let mut parts: Vec<String> = Vec::new();
    let mut i: usize = 0;
    assert(text::views(parts@) =~= blocks.take(0).map_values(write));
    while i < content.len()
        invariant
            i <= content@.len(),
            blocks == rig_api::blocks_of(content@),
            write == (|b: rig_api::Block| block_text(b)),
            text::views(parts@) == blocks.take(i as int).map_values(write),
        decreases content@.len() - i,
    {
        let ghost before = text::views(parts@);
        let part = match completion_api::block_part(&content[i]) {
            BlockPart::Text(text) => text,
            BlockPart::Json(value) => json::value_text(&value),
            BlockPart::Image => "[non-text result]".to_owned(),
        };
        assert(part@ == write(blocks[i as int]));
        parts.push(part);
        proof {
            assert(text::views(parts@) =~= before.push(part@));
            assert(blocks.take(i as int + 1).map_values(write) =~= blocks.take(i as int).map_values(
                write,
            ).push(write(blocks[i as int])));
        }
        i = i + 1;
    }
    assert(blocks.take(i as int) =~= blocks);
    text::join(&parts, "\n")
}

/// Adds the tools' results of a user message to a list.
fn add_results(content: &Vec<UserContent>, out: Vec<(String, String)>) -> (r: Vec<
    (String, String),
>)
    ensures
        pair_views(r@) == pair_views(out@) + results_in(completion_api::users_of(content@)),
{
    let ghost parts = completion_api::users_of(content@);
    let ghost start = pair_views(out@);
    let mut out = out;
    let mut i: usize = 0;
    assert(start + results_in(parts.take(0)) =~= start);
    while i < content.len()
        invariant
            i <= content@.len(),
            parts == completion_api::users_of(content@),
            pair_views(out@) == start + results_in(parts.take(i as int)),
        decreases content@.len() - i,
    {
        let ghost before = pair_views(out@);
        let ghost upto = parts.take(i as int + 1);
        assert(upto.drop_last() =~= parts.take(i as int));
        assert(upto.last() == completion_api::user_of(content@[i as int]));
        if let UserPart::ToolResult { tool, content: blocks } = completion_api::user_part(
            &content[i],
        ) {
            let result = write_content(&blocks);
            out.push((tool, result));
            assert(pair_views(out@) =~= before.push((tool@, result@)));
            assert(pair_views(out@) =~= start + results_in(upto));
        }
        i = i + 1;
    }
    assert(parts.take(i as int) =~= parts);
    out
}

/// Collects the tools' results that a model is shown, each with its tool, oldest
/// first.
pub fn tool_result_texts(request: &CompletionRequest) -> (r: Vec<(String, String)>)
    ensures
        pair_views(r@) == result_texts(completion_api::history_of(*request)),
{
    let ghost history = completion_api::history_of(*request);
    let messages: Vec<Message> = completion_api::request_history(request);
    let mut out: Vec<(String, String)> = Vec::new();
    let mut i: usize = 0;
    assert(pair_views(out@) =~= Seq::empty());
    assert(result_texts(history.take(0)) =~= Seq::empty());
    while i < messages.len()
        invariant
            i <= messages@.len(),
            completion_api::messages_of(messages@) == history,
            pair_views(out@) == result_texts(history.take(i as int)),
        decreases messages@.len() - i,
    {
        let ghost upto = history.take(i as int + 1);
        assert(upto.drop_last() =~= history.take(i as int));
        assert(upto.last() == completion_api::message_of(messages@[i as int]));
        if let MessagePart::User(content) = completion_api::message_part(&messages[i]) {
            out = add_results(&content, out);
        }
        i = i + 1;
    }
    assert(history.take(i as int) =~= history);
    out
}

// ------------------------------------------------------------------- responses

/// How a model answers in the end.
pub enum Responder {
    /// What came of scaling, and how many workers reported.
    Orchestrator,
    /// What came of reading its own incident and its peer's.
    Worker,
    /// What came of reading the incident.
    Reader,
    /// That it is done.
    Done,
}

/// The results of one tool.
pub open spec fn results_of(results: Seq<(Seq<char>, Seq<char>)>, tool: Seq<char>) -> Seq<Seq<char>>
    decreases results.len(),
{
    if results.len() == 0 {
        Seq::empty()
    } else {
        let before = results_of(results.drop_last(), tool);
        if results.last().0 == tool {
            before.push(results.last().1)
        } else {
            before
        }
    }
}

/// One of the results, or a text in place of it.
pub open spec fn result_or(results: Seq<Seq<char>>, i: int, missing: Seq<char>) -> Seq<char> {
    if 0 <= i < results.len() {
        results[i]
    } else {
        missing
    }
}

/// What a report says of scaling: that it succeeded, or how it was denied.
pub open spec fn scale_report(subject: Seq<char>, result: Seq<char>) -> Seq<char> {
    if text::starts_with(result, "scaled "@) {
        subject + " scale succeeded."@
    } else {
        subject + " scale was denied: "@ + result + "."@
    }
}

/// What a model answers, from the results that its tools gave.
pub open spec fn response_text(
    responder: Responder,
    results: Seq<(Seq<char>, Seq<char>)>,
) -> Seq<char> {
    match responder {
        Responder::Orchestrator => {
            let scales = results_of(results, "scale_cluster"@);
            let reports = results_of(results, "delegate_incident"@);
            scale_report("Staging"@, result_or(scales, 0, "no result"@)) + " "@ + scale_report(
                "Production"@,
                result_or(scales, 1, "no result"@),
            ) + " Received "@ + text::decimal(reports.len()) + " worker report(s)."@
        },
        Responder::Worker => {
            let reads = results_of(results, "read_incident"@);
            "Reported: "@ + result_or(reads, 0, "no result"@) + ". Peer incident: "@ + result_or(
                reads,
                1,
                "no result"@,
            ) + "."@
        },
        Responder::Reader => {
            let reads = results_of(results, "read_incident"@);
            "Timeline collected: "@ + result_or(reads, 0, "no result"@) + "."@
        },
        Responder::Done => "Done."@,
    }
}

/// Picks the results of one tool.
fn pick_results(results: &Vec<(String, String)>, tool: &str) -> (r: Vec<String>)
    ensures
        text::views(r@) == results_of(pair_views(results@), tool@),
{
    let ghost all = pair_views(results@);
    let mut out: Vec<String> = Vec::new();
    let mut i: usize = 0;
    assert(text::views(out@) =~= Seq::empty());
    assert(results_of(all.take(0), tool@) =~= Seq::empty());
    while i < results.len()
        invariant
            i <= results@.len(),
            all == pair_views(results@),
            text::views(out@) == results_of(all.take(i as int), tool@),
        decreases results@.len() - i,
    {
        let ghost upto = all.take(i as int + 1);
        let ghost before = text::views(out@);
        assert(upto.drop_last() =~= all.take(i as int));
        let pair = &results[i];
        assert(upto.last() == (pair.0@, pair.1@));
        if text::same(pair.0.as_str(), tool) {
            out.push(pair.1.clone());
            assert(text::views(out@) =~= before.push(pair.1@));
        }
        i = i + 1;
    }
    assert(all.take(i as int) =~= all);
    out
}

/// Takes one of the results, or a text in place of it.
fn pick_or(results: &Vec<String>, i: usize, missing: &str) -> (r: String)
    ensures
        r@ == result_or(text::views(results@), i as int, missing@),
{
    if i < results.len() {
        results[i].clone()
    } else {
        missing.to_owned()
    }
}

/// Writes what a report says of scaling.
fn write_scale_report(subject: &str, result: &str) -> (r: String)
    ensures
        r@ == scale_report(subject@, result@),
{
    let mut out = subject.to_owned();
    if text::begins_with(result, "scaled ") {
        out.append(" scale succeeded.");
    } else {
        out.append(" scale was denied: ");
        out.append(result);
        out.append(".");
    }
    out
}

/// Answers from the results that the tools gave.
pub fn respond(responder: &Responder, results: &Vec<(String, String)>) -> (r: String)
    ensures
        r@ == response_text(*responder, pair_views(results@)),
{
    match responder {
        Responder::Orchestrator => {
            let scales = pick_results(results, "scale_cluster");
            let reports = pick_results(results, "delegate_incident");
            let count = text::decimal_text(reports.len() as u64);
            let production = write_scale_report(
                "Production",
                pick_or(&scales, 1, "no result").as_str(),
            );
            let mut out = write_scale_report("Staging", pick_or(&scales, 0, "no result").as_str());
            out.append(" ");
            out.append(production.as_str());
            out.append(" Received ");
            out.append(count.as_str());
            out.append(" worker report(s).");
            assert(text::views(reports@).len() == reports@.len());
            out
        },
        Responder::Worker => {
            let reads = pick_results(results, "read_incident");
            let own = pick_or(&reads, 0, "no result");
            let peer = pick_or(&reads, 1, "no result");
            let mut out = "Reported: ".to_owned();
            out.append(own.as_str());
            out.append(". Peer incident: ");
            out.append(peer.as_str());
            out.append(".");
            out
        },
        Responder::Reader => {
            let reads = pick_results(results, "read_incident");
            text::concat3("Timeline collected: ", pick_or(&reads, 0, "no result").as_str(), ".")
        },
        Responder::Done => "Done.".to_owned(),
    }
}

// ------------------------------------------------------------------- scripts

/// What a model does in one turn.
pub enum Step {
    /// Call a tool.
    Call { tool: String, args: Value },
    /// Call several tools at once.
    Calls(Vec<(String, Value)>),
    /// Answer from the results in the conversation.
    Respond(Responder),
}

/// What a model does in one turn.
pub ghost enum StepModel {
    Call { tool: Seq<char>, args: json::Json },
    Calls(Seq<(Seq<char>, json::Json)>),
    Respond(Responder),
}

/// The tool and the arguments of each call.
pub open spec fn call_views(calls: Seq<(String, Value)>) -> Seq<(Seq<char>, json::Json)> {
    calls.map_values(|c: (String, Value)| (c.0@, json::json_of(c.1)))
}

impl Step {
    /// What the model does.
    pub open spec fn model(self) -> StepModel {
        match self {
            Step::Call { tool, args } => StepModel::Call { tool: tool@, args: json::json_of(args) },
            Step::Calls(calls) => StepModel::Calls(call_views(calls@)),
            Step::Respond(responder) => StepModel::Respond(responder),
        }
    }
}

/// What each step of a script does.
pub open spec fn script_of(steps: Seq<Step>) -> Seq<StepModel> {
    steps.map_values(|s: Step| s.model())
}

/// A model that plays a script, one step in each turn.
pub struct ScriptedModel {
    name: String,
    steps: Arc<Vec<Step>>,
}

impl Clone for ScriptedModel {
    fn clone(&self) -> (r: Self)
        ensures
            r.name() == self.name(),
            r.script() == self.script(),
    {
        ScriptedModel { name: self.name.clone(), steps: self.steps.clone() }
    }
}

/// Whether a message is a finished turn of a model: one that calls a tool.
pub open spec fn is_turn(message: completion_api::MessageModel) -> bool {
    message matches completion_api::MessageModel::Assistant(content) && exists|i: int|
        0 <= i < content.len() && (#[trigger] content[i]) is ToolCall
}

/// How many turns a model has finished in a conversation.
pub open spec fn turns_in(history: Seq<completion_api::MessageModel>) -> nat
    decreases history.len(),
{
    if history.len() == 0 {
        0
    } else if is_turn(history.last()) {
        turns_in(history.drop_last()) + 1
    } else {
        turns_in(history.drop_last())
    }
}

/// The step that a script has for a turn; beyond its end, that it is done.
pub open spec fn planned(script: Seq<StepModel>, turn: nat) -> StepModel {
    if turn < script.len() {
        script[turn as int]
    } else {
        StepModel::Respond(Responder::Done)
    }
}

/// The identifier of a call: the model, the turn, the tool, and the place of the
/// call in the turn.
pub open spec fn call_id(model: Seq<char>, turn: nat, tool: Seq<char>, i: nat) -> Seq<char> {
    model + "-turn-"@ + text::decimal(turn) + "-"@ + tool + "-call-"@ + text::decimal(i)
}

/// What a model chooses in a turn, from its step and the results so far.
pub open spec fn choices(
    model: Seq<char>,
    step: StepModel,
    turn: nat,
    results: Seq<(Seq<char>, Seq<char>)>,
) -> Seq<completion_api::AssistantModel> {
    match step {
        StepModel::Call { tool, args } => seq![
            completion_api::AssistantModel::ToolCall {
                id: call_id(model, turn, tool, 0),
                tool,
                args,
            },
        ],
        StepModel::Calls(calls) => Seq::new(
            calls.len(),
            |i: int|
                completion_api::AssistantModel::ToolCall {
                    id: call_id(model, turn, calls[i].0, i as nat),
                    tool: calls[i].0,
                    args: calls[i].1,
                },
        ),
        StepModel::Respond(responder) => seq![
            completion_api::AssistantModel::Text(response_text(responder, results)),
        ],
    }
}

/// A choice as an item of a stream.
pub open spec fn streamed(choice: completion_api::AssistantModel) -> completion_api::StreamedModel {
    match choice {
        completion_api::AssistantModel::ToolCall { id, tool, args } =>
            completion_api::StreamedModel::ToolCall { id, tool, args },
        completion_api::AssistantModel::Text(text) => completion_api::StreamedModel::Message(text),
        completion_api::AssistantModel::Other => completion_api::StreamedModel::Other,
    }
}

/// Writes the identifier of a call.
fn write_call_id(model: &str, turn: usize, tool: &str, i: usize) -> (r: String)
    ensures
        r@ == call_id(model@, turn as nat, tool@, i as nat),
        r@.len() > 0,
{
    let turn_text = text::decimal_text(turn as u64);
    let i_text = text::decimal_text(i as u64);
    let mut out = model.to_owned();
    out.append("-turn-");
    out.append(turn_text.as_str());
    out.append("-");
    out.append(tool);
    out.append("-call-");
    out.append(i_text.as_str());
    proof {
        reveal_strlit("-turn-");
    }
    out
}

/// Whether some part of an assistant message calls a tool.
fn calls_a_tool(content: &Vec<AssistantContent>) -> (r: bool)
    ensures
        r == is_turn(
            completion_api::MessageModel::Assistant(completion_api::assistants_of(content@)),
        ),
{
    let ghost parts = completion_api::assistants_of(content@);
    let mut i: usize = 0;
    while i < content.len()
        invariant
            i <= content@.len(),
            parts == completion_api::assistants_of(content@),
            forall|j: int| 0 <= j < i ==> !((#[trigger] parts[j]) is ToolCall),
        decreases content@.len() - i,
    {
        if completion_api::is_tool_call(&content[i]) {
            assert(parts[i as int] is ToolCall);
            return true;
        }
        i = i + 1;
    }
    false
}

/// Copies one step.
fn copy_step(step: &Step) -> (r: Step)
    ensures
        r.model() == step.model(),
{
    match step {
        Step::Call { tool, args } => Step::Call {
            tool: tool.clone(),
            args: json::clone_value(args),
        },
        Step::Calls(calls) => {
            let ghost all = call_views(calls@);
            let mut out: Vec<(String, Value)> = Vec::new();
            let mut i: usize = 0;
            while i < calls.len()
                invariant
                    i <= calls@.len(),
                    all == call_views(calls@),
                    call_views(out@) =~= all.take(i as int),
                decreases calls@.len() - i,
            {
                let ghost before = call_views(out@);
                let call = &calls[i];
                out.push((call.0.clone(), json::clone_value(&call.1)));
                proof {
                    assert(call_views(out@) =~= before.push(all[i as int]));
                }
                i = i + 1;
            }
            assert(all.take(i as int) =~= all);
            Step::Calls(out)
        },
        Step::Respond(Responder::Orchestrator) => Step::Respond(Responder::Orchestrator),
        Step::Respond(Responder::Worker) => Step::Respond(Responder::Worker),
        Step::Respond(Responder::Reader) => Step::Respond(Responder::Reader),
        Step::Respond(Responder::Done) => Step::Respond(Responder::Done),
    }
}

impl ScriptedModel {
    /// The name of the model.
    pub closed spec fn name(&self) -> Seq<char> {
        self.name@
    }

    /// What each step does.
    pub closed spec fn script(&self) -> Seq<StepModel> {
        script_of(self.steps@)
    }

    /// A model that plays these steps in order.
    pub fn new(name: &str, steps: Vec<Step>) -> (r: Self)
        ensures
            r.name() == name@,
            r.script() == script_of(steps@),
    {
        ScriptedModel { name: name.to_owned(), steps: Arc::new(steps) }
    }

    /// The turn that a conversation has come to, and the step for it. Both follow
    /// from the conversation alone, so that copies and repetitions do not disturb
    /// each other.
    pub fn next(&self, request: &CompletionRequest) -> (r: (usize, Step))
        ensures
            r.0 == turns_in(completion_api::history_of(*request)),
            r.1.model() == planned(self.script(), r.0 as nat),
    {
        let ghost history = completion_api::history_of(*request);
        let messages: Vec<Message> = completion_api::request_history(request);
        let mut turn: usize = 0;
        let mut i: usize = 0;
        while i < messages.len()
            invariant
                i <= messages@.len(),
                turn <= i,
                completion_api::messages_of(messages@) == history,
                turn == turns_in(history.take(i as int)),
            decreases messages@.len() - i,
        {
            let ghost upto = history.take(i as int + 1);
            assert(upto.drop_last() =~= history.take(i as int));
            assert(upto.last() == completion_api::message_of(messages@[i as int]));
            if let MessagePart::Assistant(content) = completion_api::message_part(&messages[i]) {
                if calls_a_tool(&content) {
                    turn = turn + 1;
                }
            }
            i = i + 1;
        }
        assert(history.take(i as int) =~= history);
        let step = if turn < self.steps.len() {
            copy_step(&self.steps[turn])
        } else {
            Step::Respond(Responder::Done)
        };
        (turn, step)
    }

    /// What the model chooses in a conversation.
    pub open spec fn chosen(&self, history: Seq<completion_api::MessageModel>) -> Seq<
        completion_api::AssistantModel,
    > {
        choices(
            self.name(),
            planned(self.script(), turns_in(history)),
            turns_in(history),
            result_texts(history),
        )
    }

    /// Answers a request with the next step.
    pub fn completion(&self, request: &CompletionRequest) -> (r: CompletionResponse)
        ensures
            completion_api::response_of(r) == (completion_api::ResponseModel {
                choices: self.chosen(completion_api::history_of(*request)),
                total_tokens: 1,
                provider: self.name(),
            }),
    {
        let ghost history = completion_api::history_of(*request);
        let (turn, step) = self.next(request);
        let mut out: Vec<AssistantContent> = Vec::new();
        let name = self.name.as_str();
        match step {
            Step::Call { tool, args } => {
                let id = write_call_id(name, turn, tool.as_str(), 0);
                out.push(completion_api::call_content(id, tool, args));
            },
            Step::Calls(calls) => {
                let ghost all = call_views(calls@);
                let mut i: usize = 0;
                while i < calls.len()
                    invariant
                        i <= calls@.len(),
                        name@ == self.name(),
                        all == call_views(calls@),
                        turn == turns_in(history),
                        self.chosen(history) == choices(
                            name@,
                            StepModel::Calls(all),
                            turn as nat,
                            result_texts(history),
                        ),
                        completion_api::assistants_of(out@) =~= self.chosen(history).take(i as int),
                    decreases calls@.len() - i,
                {
                    let call = &calls[i];
                    assert(all[i as int] == (call.0@, json::json_of(call.1)));
                    let id = write_call_id(name, turn, call.0.as_str(), i);
                    let ghost before = completion_api::assistants_of(out@);
                    out.push(
                        completion_api::call_content(
                            id,
                            call.0.clone(),
                            json::clone_value(&call.1),
                        ),
                    );
                    proof {
                        assert(completion_api::assistants_of(out@) =~= before.push(
                            self.chosen(history)[i as int],
                        ));
                    }
                    i = i + 1;
                }
            },
            Step::Respond(responder) => {
                let results = tool_result_texts(request);
                out.push(completion_api::text_content(respond(&responder, &results)));
            },
        }
        assert(completion_api::assistants_of(out@) =~= self.chosen(history));
        completion_api::new_response(out, 1, name)
    }

    /// Answers a request with the next step, as the items of a stream.
    pub fn stream(&self, request: &CompletionRequest) -> (r: Vec<RawStreamingChoice<StreamFinal>>)
        ensures
            completion_api::stream_of(r@) == self.chosen(
                completion_api::history_of(*request),
            ).map_values(|c: completion_api::AssistantModel| streamed(c)).push(
                completion_api::StreamedModel::Final { provider: self.name(), total_tokens: 1 },
            ),
    {
        let ghost history = completion_api::history_of(*request);
        let ghost wanted = self.chosen(history).map_values(
            |c: completion_api::AssistantModel| streamed(c),
        );
        let (turn, step) = self.next(request);
        let mut out: Vec<RawStreamingChoice<StreamFinal>> = Vec::new();
        let name = self.name.as_str();
        match step {
            Step::Call { tool, args } => {
                let id = write_call_id(name, turn, tool.as_str(), 0);
                out.push(completion_api::streamed_call(id, tool, args));
            },
            Step::Calls(calls) => {
                let ghost all = call_views(calls@);
                let mut i: usize = 0;
                while i < calls.len()
                    invariant
                        i <= calls@.len(),
                        name@ == self.name(),
                        all == call_views(calls@),
                        turn == turns_in(history),
                        self.chosen(history) == choices(
                            name@,
                            StepModel::Calls(all),
                            turn as nat,
                            result_texts(history),
                        ),
                        wanted == self.chosen(history).map_values(
                            |c: completion_api::AssistantModel| streamed(c),
                        ),
                        completion_api::stream_of(out@) =~= wanted.take(i as int),
                    decreases calls@.len() - i,
                {
                    let call = &calls[i];
                    assert(all[i as int] == (call.0@, json::json_of(call.1)));
                    let id = write_call_id(name, turn, call.0.as_str(), i);
                    let ghost before = completion_api::stream_of(out@);
                    out.push(
                        completion_api::streamed_call(
                            id,
                            call.0.clone(),
                            json::clone_value(&call.1),
                        ),
                    );
                    proof {
                        assert(completion_api::stream_of(out@) =~= before.push(wanted[i as int]));
                    }
                    i = i + 1;
                }
            },
            Step::Respond(responder) => {
                let results = tool_result_texts(request);
                out.push(completion_api::streamed_text(respond(&responder, &results)));
            },
        }
        assert(completion_api::stream_of(out@) =~= wanted);
        out.push(completion_api::streamed_end(name, 1));
        proof {
            assert(completion_api::stream_of(out@) =~= wanted.push(
                completion_api::StreamedModel::Final { provider: self.name(), total_tokens: 1 },
            ));
        }
        out
    }
}

}
