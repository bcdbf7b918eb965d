//! Scripted models: how a conversation moves one on, what a model chooses, and what it
//! answers from the results that its tools gave.

use crate::completion_api;
use crate::completion_api::{AssistantModel, MessageModel, StreamedModel, UserModel};
use crate::json;
use crate::models;
use crate::models::{Responder, ScriptedModel, Step, StepModel};
use crate::rig_api::Block;
use crate::text;
use rig::completion::{CompletionRequest, CompletionResponse};
use rig::streaming::{RawStreamingChoice, StreamFinal};
use vstd::prelude::*;

verus! {

// ------------------------------------------------------------------- results

/// What one block of a tool's result reads as.
pub open spec fn read_block(block: Block) -> Seq<char> {
    match block {
        Block::Text(text) => text,
        Block::Json(value) => json::json_text(value),
        Block::Image => "[non-text result]"@,
    }
}

/// The results of tools in a message, each with its tool and its blocks on lines of their
/// own, in order; a message that is not the user's has none.
pub open spec fn results_of_message(message: MessageModel) -> Seq<(Seq<char>, Seq<char>)> {
    match message {
        MessageModel::User(content) => content.filter(
            |u: UserModel| u is ToolResult,
        ).map_values(
            |u: UserModel|
                (
                    u->ToolResult_tool,
                    text::joined(
                        u->ToolResult_content.map_values(|b: Block| read_block(b)),
                        "\n"@,
                    ),
                ),
        ),
        _ => Seq::empty(),
    }
}

/// The text of a result is its blocks on lines of their own.
proof fn lemma_content_text(content: Seq<Block>)
    ensures
        models::content_text(content) == text::joined(
            content.map_values(|b: Block| read_block(b)),
            "\n"@,
        ),
{
    assert(content.map_values(|b: Block| models::block_text(b)) =~= content.map_values(
        |b: Block| read_block(b),
    ));
}

/// The results that are found in a user message are all of them, in order.
proof fn lemma_results_in(content: Seq<UserModel>)
    ensures
        models::results_in(content) == results_of_message(MessageModel::User(content)),
    decreases content.len(),
{
    reveal(Seq::filter);
    if content.len() > 0 {
        lemma_results_in(content.drop_last());
        if content.last() is ToolResult {
            lemma_content_text(content.last()->ToolResult_content);
        }
        assert(models::results_in(content) =~= results_of_message(MessageModel::User(content)));
    } else {
        assert(results_of_message(MessageModel::User(content)) =~= Seq::empty());
    }
}

/// A conversation that has not begun has no results, and one more message adds its own
/// results behind those that were there, which stay as they are.
pub proof fn law_messages_add_their_results(
    request: &CompletionRequest,
    results: Vec<(String, String)>,
    next: &CompletionRequest,
    next_results: Vec<(String, String)>,
    message: MessageModel,
)
    requires
        call_ensures(models::tool_result_texts, (request,), results),
        call_ensures(models::tool_result_texts, (next,), next_results),
        completion_api::history_of(*next) == completion_api::history_of(*request).push(message),
    ensures
        completion_api::history_of(*request).len() == 0 ==> results@.len() == 0,
        models::pair_views(next_results@) == models::pair_views(results@) + results_of_message(
            message,
        ),
{
    let history = completion_api::history_of(*request);
    assert(models::pair_views(results@).len() == results@.len());
    assert(history.push(message).drop_last() =~= history);
    match message {
        MessageModel::User(content) => lemma_results_in(content),
        _ => {
            assert(models::pair_views(results@) + Seq::empty() =~= models::pair_views(results@));
        },
    }
}

// ------------------------------------------------------------------- answers

/// The results of one tool, in order.
pub open spec fn results_for(results: Seq<(Seq<char>, Seq<char>)>, tool: Seq<char>) -> Seq<
    Seq<char>,
> {
    results.filter(|p: (Seq<char>, Seq<char>)| p.0 == tool).map_values(
        |p: (Seq<char>, Seq<char>)| p.1,
    )
}

/// The results that are picked are those of the tool.
proof fn lemma_results_for(results: Seq<(Seq<char>, Seq<char>)>, tool: Seq<char>)
    ensures
        models::results_of(results, tool) == results_for(results, tool),
    decreases results.len(),
{
    reveal(Seq::filter);
    if results.len() > 0 {
        lemma_results_for(results.drop_last(), tool);
        assert(models::results_of(results, tool) =~= results_for(results, tool));
    } else {
        assert(results_for(results, tool) =~= Seq::empty());
    }
}

/// One of some results, and where there is none, that there is none.
pub open spec fn nth(results: Seq<Seq<char>>, i: int) -> Seq<char> {
    if i < results.len() {
        results[i]
    } else {
        "no result"@
    }
}

/// What is said of scaling: success exactly where the tool said that it scaled, and else
/// the denial in its own words.
pub open spec fn said_of_scaling(subject: Seq<char>, result: Seq<char>) -> Seq<char> {
    if "scaled "@.is_prefix_of(result) {
        subject + " scale succeeded."@
    } else {
        subject + " scale was denied: "@ + result + "."@
    }
}

/// A model answers from the results that its tools really gave: the orchestrator tells
/// what came of the first and the second scaling and counts the reports of its workers, a
/// worker tells what came of reading its own incident and its peer's, and a reader what
/// came of reading its incident.
pub proof fn law_models_answer_from_results(
    responder: &Responder,
    results: &Vec<(String, String)>,
    r: String,
)
    requires
        call_ensures(models::respond, (responder, results), r),
    ensures
        ({
            let all = models::pair_views(results@);
            let scales = results_for(all, "scale_cluster"@);
            let reports = results_for(all, "delegate_incident"@);
            let reads = results_for(all, "read_incident"@);
            r@ == match *responder {
                Responder::Orchestrator => said_of_scaling("Staging"@, nth(scales, 0)) + " "@
                    + said_of_scaling("Production"@, nth(scales, 1)) + " Received "@
                    + text::decimal(reports.len()) + " worker report(s)."@,
                Responder::Worker => "Reported: "@ + nth(reads, 0) + ". Peer incident: "@ + nth(
                    reads,
                    1,
                ) + "."@,
                Responder::Reader => "Timeline collected: "@ + nth(reads, 0) + "."@,
                Responder::Done => "Done."@,
            }
        }),
{
    let all = models::pair_views(results@);
    lemma_results_for(all, "scale_cluster"@);
    lemma_results_for(all, "delegate_incident"@);
    lemma_results_for(all, "read_incident"@);
}

// ------------------------------------------------------------------- turns

/// Whether a message finishes a turn: the assistant's, with a call of a tool in it.
pub open spec fn finishes_a_turn(message: MessageModel) -> bool {
    message matches MessageModel::Assistant(content) && exists|i: int|
        0 <= i < content.len() && (#[trigger] content[i]) is ToolCall
}

/// A conversation begins with the first turn, a message moves it on exactly where it
/// finishes a turn, and then by one.
pub proof fn law_turns_are_counted(
    model: &ScriptedModel,
    request: &CompletionRequest,
    r: (usize, Step),
    next: &CompletionRequest,
    next_r: (usize, Step),
    message: MessageModel,
)
    requires
        call_ensures(ScriptedModel::next, (model, request), r),
        call_ensures(ScriptedModel::next, (model, next), next_r),
        completion_api::history_of(*next) == completion_api::history_of(*request).push(message),
    ensures
        completion_api::history_of(*request).len() == 0 ==> r.0 == 0,
        finishes_a_turn(message) ==> next_r.0 == r.0 + 1,
        !finishes_a_turn(message) ==> next_r.0 == r.0,
{
    let history = completion_api::history_of(*request);
    assert(history.push(message).drop_last() =~= history);
}

/// A model plays the step of its script that the turn has, and beyond its end is done.
pub proof fn law_steps_are_played_in_order(
    model: &ScriptedModel,
    request: &CompletionRequest,
    r: (usize, Step),
)
    requires
        call_ensures(ScriptedModel::next, (model, request), r),
    ensures
        r.0 < model.script().len() ==> r.1.model() == model.script()[r.0 as int],
        r.0 >= model.script().len() ==> r.1.model() == StepModel::Respond(Responder::Done),
{
}

/// A model keeps the name and the steps that it was made with, in their order.
pub proof fn law_models_keep_their_script(name: &str, steps: Vec<Step>, r: ScriptedModel, i: int)
    requires
        call_ensures(ScriptedModel::new, (name, steps), r),
    ensures
        r.name() == name@,
        r.script().len() == steps@.len(),
        0 <= i < steps@.len() ==> r.script()[i] == steps@[i].model(),
{
}

// ------------------------------------------------------------------- choices

/// The call of a tool that a model chooses: under an identifier of the model, the turn,
/// the tool and the place of the call.
pub open spec fn chosen_call(
    name: Seq<char>,
    turn: nat,
    tool: Seq<char>,
    i: nat,
    args: json::Json,
) -> AssistantModel {
    AssistantModel::ToolCall {
        id: name + "-turn-"@ + text::decimal(turn) + "-"@ + tool + "-call-"@ + text::decimal(i),
        tool,
        args,
    }
}

/// A model chooses what its step for the turn says: its one call, all its calls in order,
/// or the answer that it gives to the results in the conversation; it bills one token
/// under its own name.
pub proof fn law_models_choose_their_step(
    model: &ScriptedModel,
    request: &CompletionRequest,
    r: CompletionResponse,
    turn: usize,
    step: Step,
    results: &Vec<(String, String)>,
    responder: &Responder,
    answer: String,
)
    requires
        call_ensures(ScriptedModel::completion, (model, request), r),
        call_ensures(ScriptedModel::next, (model, request), (turn, step)),
        call_ensures(models::tool_result_texts, (request,), *results),
        call_ensures(models::respond, (responder, results), answer),
    ensures
        ({
            let response = completion_api::response_of(r);
            &&& response.total_tokens == 1
            &&& response.provider == model.name()
            &&& match step.model() {
                StepModel::Call { tool, args } => response.choices == seq![
                    chosen_call(model.name(), turn as nat, tool, 0, args),
                ],
                StepModel::Calls(calls) => {
                    &&& response.choices.len() == calls.len()
                    &&& forall|i: int|
                        0 <= i < calls.len() ==> #[trigger] response.choices[i] == chosen_call(
                            model.name(),
                            turn as nat,
                            calls[i].0,
                            i as nat,
                            calls[i].1,
                        )
                },
                StepModel::Respond(wanted) => wanted == *responder ==> response.choices == seq![
                    AssistantModel::Text(answer@),
                ],
            }
        }),
{
}

/// A stream holds what the answer in one piece would: the same choices in the same order,
/// and then its end, with the same token under the same name.
pub proof fn law_streams_hold_the_same_choices(
    model: &ScriptedModel,
    request: &CompletionRequest,
    r: CompletionResponse,
    items: Vec<RawStreamingChoice<StreamFinal>>,
)
    requires
        call_ensures(ScriptedModel::completion, (model, request), r),
        call_ensures(ScriptedModel::stream, (model, request), items),
    ensures
        ({
            let response = completion_api::response_of(r);
            let choices = response.choices;
            let stream = completion_api::stream_of(items@);
            &&& stream.len() == choices.len() + 1
            &&& forall|i: int|
                0 <= i < choices.len() ==> match #[trigger] choices[i] {
                    AssistantModel::ToolCall { id, tool, args } => stream[i] == (
                    StreamedModel::ToolCall { id, tool, args }),
                    AssistantModel::Text(text) => stream[i] == StreamedModel::Message(text),
                    AssistantModel::Other => stream[i] == StreamedModel::Other,
                }
            &&& stream.last() == (StreamedModel::Final {
                provider: response.provider,
                total_tokens: response.total_tokens,
            })
        }),
{
}

}
