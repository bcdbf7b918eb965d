//! The server: what it rejects, what it asks its guard about, and what it serves.

use crate::authority;
use crate::json::Json;
use crate::mcp_api;
use crate::mcp_api::ContentModel;
use crate::root_key;
use crate::server;
use crate::server::{IncidentServer, Served};
use crate::tenuo_api;
use crate::tenuo_api::{CallModel, GuardFault};
use crate::text;
use crate::tools::incident_mcp::IncidentArgs;
use rmcp::model::RequestMetaObject;
use tenuo::sdk::prelude::{DecisionMetadata, Guard};
use vstd::prelude::*;

verus! {

/// What the server says of an incident: its identifier, whole and first, and its state.
pub open spec fn record(incident_id: Seq<char>) -> Seq<char> {
    incident_id + ": severity=high, status=open, owner=secops (served by MCP)"@
}

/// The pieces that a record is put together from.
proof fn lemma_record(incident_id: Seq<char>)
    ensures
        server::served_text(incident_id) == record(incident_id),
{
    reveal_strlit(": severity=high, status=open, owner=secops");
    reveal_strlit(" (served by MCP)");
    reveal_strlit(": severity=high, status=open, owner=secops (served by MCP)");
    assert(": severity=high, status=open, owner=secops"@ + " (served by MCP)"@
        =~= ": severity=high, status=open, owner=secops (served by MCP)"@);
    assert(server::served_text(incident_id) =~= record(incident_id));
}

/// Whether the server answers with one text, flagged as an error or not.
pub open spec fn says(served: Served, text: Seq<char>, is_error: bool) -> bool {
    served.answer matches Ok(result) && mcp_api::result_of(result) == (mcp_api::ResultModel {
        content: seq![ContentModel::Text(text)],
        structured: None,
        is_error: Some(is_error),
        meta: None,
    })
}

/// Whether the server answers that the parameters cannot be used.
pub open spec fn rejects(served: Served, message: Seq<char>) -> bool {
    served.answer matches Err(error) && mcp_api::error_of(error) == (mcp_api::ErrorModel {
        code: -32602,
        message,
    })
}

/// The authorization in the metadata of a request.
pub open spec fn envelope_in(meta: RequestMetaObject) -> Option<Json> {
    let entries = mcp_api::request_meta_of(meta);
    if entries.contains_key("ai.tenuo/authorization"@) {
        Some(entries["ai.tenuo/authorization"@])
    } else {
        None
    }
}

/// The arguments of a read, as they are checked.
pub open spec fn arguments(incident_id: Seq<char>) -> Json {
    Json::Object(map!["incident_id"@ => Json::Text(incident_id)])
}

/// The call that a read is, as the guard is asked about it.
pub open spec fn read_call(incident_id: Seq<char>) -> CallModel {
    CallModel {
        capability: "read_incident"@,
        args: map!["incident_id"@ => Json::Text(incident_id)],
        signed: map!["incident_id"@ => Json::Text(incident_id)],
    }
}

/// What an answer of the guard must come to: the record where it allowed the call, and
/// else a text with its own code and message, flagged as an error; each is logged for the
/// holder of the chain.
pub open spec fn comes_of(
    incident_id: Seq<char>,
    holder: Seq<char>,
    depth: nat,
    outcome: Result<((), DecisionMetadata), GuardFault<String>>,
    served: Served,
) -> bool {
    let subject = "read_incident "@ + incident_id + " for holder "@ + holder;
    match outcome {
        Ok(_) => {
            &&& says(served, record(incident_id), false)
            &&& text::views(served.lines@) == seq![
                "      [mcp-server] verified "@ + subject + " (chain depth "@ + text::decimal(depth)
                    + ")"@,
            ]
        },
        Err(GuardFault::Denied { code, message }) => {
            &&& says(served, "denied ("@ + code@ + "): "@ + message@, true)
            &&& text::views(served.lines@) == seq![
                "      [mcp-server] denied   "@ + subject + ": "@ + code@,
            ]
        },
        Err(_) => {
            &&& says(served, "denied ("@ + "denied"@ + "): "@ + "denied"@, true)
            &&& text::views(served.lines@) == seq![
                "      [mcp-server] denied   "@ + subject + ": "@ + "denied"@,
            ]
        },
    }
}

/// The pieces that log lines are put together from.
proof fn lemma_log_lines(incident_id: Seq<char>, holder: Seq<char>, depth: nat, code: Seq<char>)
    ensures
        ({
            let subject = "read_incident "@ + incident_id + " for holder "@ + holder;
            &&& server::verified_line(incident_id, holder, depth)
                == "      [mcp-server] verified "@ + subject + " (chain depth "@ + text::decimal(
                depth,
            ) + ")"@
            &&& server::denied_line(incident_id, holder, code) == "      [mcp-server] denied   "@
                + subject + ": "@ + code
        }),
{
    let subject = "read_incident "@ + incident_id + " for holder "@ + holder;
    reveal_strlit("read_incident ");
    reveal_strlit("      [mcp-server] verified ");
    reveal_strlit("      [mcp-server] verified read_incident ");
    reveal_strlit("      [mcp-server] denied   ");
    reveal_strlit("      [mcp-server] denied   read_incident ");
    assert("      [mcp-server] verified "@ + "read_incident "@
        =~= "      [mcp-server] verified read_incident "@);
    assert("      [mcp-server] denied   "@ + "read_incident "@
        =~= "      [mcp-server] denied   read_incident "@);
    assert(server::verified_line(incident_id, holder, depth) =~= "      [mcp-server] verified "@
        + subject + " (chain depth "@ + text::decimal(depth) + ")"@);
    assert(server::denied_line(incident_id, holder, code) =~= "      [mcp-server] denied   "@
        + subject + ": "@ + code);
}

/// The server answers as its own guard did, and is decided by nothing else: where it does
/// not reject a request, there is an answer that the guard gave about the chain and the
/// proof in the request and about its incident, and what is served and logged is what this
/// answer must come to.
pub proof fn law_guard_decides_for_the_server(
    server: &IncidentServer,
    meta: &RequestMetaObject,
    args: &IncidentArgs,
    served: Served,
)
    requires
        call_ensures(IncidentServer::read_incident, (server, meta, args), served),
        served.answer is Ok,
    ensures
        envelope_in(*meta) is Some,
        tenuo_api::decoded(envelope_in(*meta)->Some_0) is Ok,
        tenuo_api::argument_fault("read_incident"@, arguments(args.incident_id@)) is None,
        ({
            let envelope = envelope_in(*meta)->Some_0;
            let chain = tenuo_api::decoded(envelope)->Ok_0;
            let holder = root_key::hex_text(chain.last().holder.take(8));
            if chain.len() <= 1 || chain[0].depth < u32::MAX {
                exists|outcome: Result<((), DecisionMetadata), GuardFault<String>>| #[trigger]
                    server.guard_gave(
                        chain,
                        tenuo_api::decoded_proof(envelope),
                        read_call(args.incident_id@),
                        outcome,
                    ) && comes_of(args.incident_id@, holder, chain.len(), outcome, served)
            } else {
                comes_of(args.incident_id@, holder, chain.len(), Err(GuardFault::Other), served)
            }
        }),
{
    let envelope = envelope_in(*meta)->Some_0;
    let chain = tenuo_api::decoded(envelope)->Ok_0;
    let holder = root_key::hex_text(chain.last().holder.take(8));
    let incident_id = args.incident_id@;
    let call = authority::requested("read_incident"@, arguments(incident_id));
    assert(call == read_call(incident_id));
    lemma_record(incident_id);
    lemma_log_lines(incident_id, holder, chain.len(), "denied"@);
    if !authority::is_too_deep(chain) {
        let outcome = choose|outcome: Result<((), DecisionMetadata), GuardFault<String>>|
            #[trigger]
            server.guard_gave(chain, tenuo_api::decoded_proof(envelope), call, outcome)
                && match outcome {
                Ok(_) => server::answers_with(served, server::served_text(incident_id), false)
                    && text::views(served.lines@) == seq![
                    server::verified_line(incident_id, holder, chain.len()),
                ],
                Err(GuardFault::Denied { code, message }) => server::is_denied(
                    chain,
                    incident_id,
                    served,
                    code@,
                    message@,
                ),
                Err(_) => server::is_denied(chain, incident_id, served, "denied"@, "denied"@),
            };
        assert(server.guard_gave(chain, tenuo_api::decoded_proof(envelope), call, outcome));
        if let Err(GuardFault::Denied { code, .. }) = outcome {
            lemma_log_lines(incident_id, holder, chain.len(), code@);
        }
        assert(comes_of(incident_id, holder, chain.len(), outcome, served));
    } else {
        assert(server::is_denied(chain, incident_id, served, "denied"@, "denied"@));
        assert(comes_of(incident_id, holder, chain.len(), Err(GuardFault::Other), served));
    }
}

/// The record that is served is that of the incident which was asked for: one text, the
/// whole identifier followed by the state, so that the identifier is its prefix.
pub proof fn law_served_record_names_the_incident(
    server: &IncidentServer,
    meta: &RequestMetaObject,
    args: &IncidentArgs,
    served: Served,
)
    requires
        call_ensures(IncidentServer::read_incident, (server, meta, args), served),
        served.answer matches Ok(result) && mcp_api::result_of(result).is_error != Some(true),
    ensures
        says(served, record(args.incident_id@), false),
        args.incident_id@.is_prefix_of(
            mcp_api::result_of(served.answer->Ok_0).content[0]->Text_0,
        ),
{
    let entries = mcp_api::request_meta_of(*meta);
    let incident_id = args.incident_id@;
    lemma_record(incident_id);
    if server::rejection(entries, incident_id) is None && !authority::is_too_deep(
        server::carried_chain(entries),
    ) {
        let chain = server::carried_chain(entries);
        if !server::is_served(
            server.roots(),
            server.ceiling(),
            chain,
            server::carried_proof(entries),
            incident_id,
            served,
        ) {
            let (code, message): (Seq<char>, Seq<char>) = choose|
                code: Seq<char>,
                message: Seq<char>,
            | #[trigger] server::is_denied(chain, incident_id, served, code, message);
            assert(server::is_denied(chain, incident_id, served, code, message));
            assert(false);
        }
    }
    assert(record(incident_id).take(incident_id.len() as int) =~= incident_id);
}

/// Two requests that are served the same record asked for the same incident.
pub proof fn law_records_tell_incidents_apart(
    server: &IncidentServer,
    meta: &RequestMetaObject,
    args: &IncidentArgs,
    served: Served,
    other_server: &IncidentServer,
    other_meta: &RequestMetaObject,
    other_args: &IncidentArgs,
    other_served: Served,
)
    requires
        call_ensures(IncidentServer::read_incident, (server, meta, args), served),
        call_ensures(
            IncidentServer::read_incident,
            (other_server, other_meta, other_args),
            other_served,
        ),
        served.answer matches Ok(result) && mcp_api::result_of(result).is_error != Some(true),
        other_served.answer matches Ok(result) && mcp_api::result_of(result).is_error != Some(true),
        mcp_api::result_of(served.answer->Ok_0).content == mcp_api::result_of(
            other_served.answer->Ok_0,
        ).content,
    ensures
        args.incident_id@ == other_args.incident_id@,
{
    law_served_record_names_the_incident(server, meta, args, served);
    law_served_record_names_the_incident(other_server, other_meta, other_args, other_served);
    let n = args.incident_id@.len() as int;
    let text = mcp_api::result_of(served.answer->Ok_0).content[0]->Text_0;
    let other = mcp_api::result_of(other_served.answer->Ok_0).content[0]->Text_0;
    assert(text == record(args.incident_id@));
    assert(other == record(other_args.incident_id@));
    assert(text == other);
    assert(text.len() == other.len());
    assert(text.take(n) =~= args.incident_id@);
    assert(other.take(n) =~= other_args.incident_id@);
}

/// What the server rejects before its guard is asked, and how: a request without
/// authorization, which alone is logged, one that does not decode, and one whose
/// identifier makes no arguments. It rejects nothing else.
pub proof fn law_what_the_server_rejects(
    server: &IncidentServer,
    meta: &RequestMetaObject,
    args: &IncidentArgs,
    served: Served,
)
    requires
        call_ensures(IncidentServer::read_incident, (server, meta, args), served),
        envelope_in(*meta) matches Some(envelope) ==> !tenuo_api::is_lone(envelope),
    ensures
        match envelope_in(*meta) {
            None => {
                &&& rejects(served, "missing Tenuo authorization metadata"@)
                &&& text::views(served.lines@) == seq![
                    "      [mcp-server] refused  read_incident "@ + args.incident_id@
                        + ": no authorization metadata"@,
                ]
            },
            Some(envelope) => match tenuo_api::decoded(envelope) {
                Err(reason) => {
                    &&& rejects(served, "bad _meta.tenuo: "@ + reason)
                    &&& served.lines@.len() == 0
                },
                Ok(_) => match tenuo_api::argument_fault(
                    "read_incident"@,
                    arguments(args.incident_id@),
                ) {
                    Some(reason) => rejects(served, reason) && served.lines@.len() == 0,
                    None => served.answer is Ok && served.lines@.len() == 1,
                },
            },
        },
{
    let entries = mcp_api::request_meta_of(*meta);
    let incident_id = args.incident_id@;
    assert(text::views(served.lines@).len() == served.lines@.len());
    if server::rejection(entries, incident_id) is None && !authority::is_too_deep(
        server::carried_chain(entries),
    ) {
        let chain = server::carried_chain(entries);
        if !server::is_served(
            server.roots(),
            server.ceiling(),
            chain,
            server::carried_proof(entries),
            incident_id,
            served,
        ) {
            let (code, message): (Seq<char>, Seq<char>) = choose|
                code: Seq<char>,
                message: Seq<char>,
            | #[trigger] server::is_denied(chain, incident_id, served, code, message);
            assert(server::is_denied(chain, incident_id, served, code, message));
        }
    }
}

/// An authorization that is one warrant outside a list is answered like any other, or
/// refused as one that does not decode.
pub proof fn law_lone_warrants_are_answered_or_refused(
    server: &IncidentServer,
    meta: &RequestMetaObject,
    args: &IncidentArgs,
    served: Served,
)
    requires
        call_ensures(IncidentServer::read_incident, (server, meta, args), served),
        envelope_in(*meta) matches Some(envelope) && tenuo_api::is_lone(envelope),
        served.answer is Err,
        tenuo_api::argument_fault("read_incident"@, arguments(args.incident_id@)) is None,
    ensures
        exists|reason: Seq<char>| #[trigger] rejects(served, "bad _meta.tenuo: "@ + reason),
        served.lines@.len() == 0,
{
    let entries = mcp_api::request_meta_of(*meta);
    let incident_id = args.incident_id@;
    assert(text::views(served.lines@).len() == served.lines@.len());
    if server::is_answered(server.roots(), server.ceiling(), entries, incident_id, served) {
        if server::rejection(entries, incident_id) is None && !authority::is_too_deep(
            server::carried_chain(entries),
        ) {
            let chain = server::carried_chain(entries);
            if !server::is_served(
                server.roots(),
                server.ceiling(),
                chain,
                server::carried_proof(entries),
                incident_id,
                served,
            ) {
                let (code, message): (Seq<char>, Seq<char>) = choose|
                    code: Seq<char>,
                    message: Seq<char>,
                | #[trigger] server::is_denied(chain, incident_id, served, code, message);
                assert(server::is_denied(chain, incident_id, served, code, message));
            }
        } else {
            let reason = tenuo_api::decoded(envelope_in(*meta)->Some_0)->Err_0;
            assert(rejects(served, "bad _meta.tenuo: "@ + reason));
        }
    } else {
        let reason = choose|reason: Seq<char>| #[trigger] server::is_undecoded(served, reason);
        assert(rejects(served, "bad _meta.tenuo: "@ + reason));
    }
}

/// A guard's answer about a read is settled by itself: its record comes back word for
/// word, its denial with code and message, and a failed operation with its text.
pub proof fn law_answers_to_a_read_come_back(
    incident_id: &str,
    holder: &str,
    depth: usize,
    outcome: Result<(String, DecisionMetadata), GuardFault<String>>,
    served: Served,
)
    requires
        call_ensures(server::settle_read, (incident_id, holder, depth, outcome), served),
    ensures
        match outcome {
            Ok(pair) => {
                &&& says(served, pair.0@, false)
                &&& text::views(served.lines@) == seq![
                    "      [mcp-server] verified "@ + ("read_incident "@ + incident_id@
                        + " for holder "@ + holder@) + " (chain depth "@ + text::decimal(
                        depth as nat,
                    ) + ")"@,
                ]
            },
            Err(GuardFault::Denied { code, message }) => {
                &&& says(served, "denied ("@ + code@ + "): "@ + message@, true)
                &&& text::views(served.lines@) == seq![
                    "      [mcp-server] denied   "@ + ("read_incident "@ + incident_id@
                        + " for holder "@ + holder@) + ": "@ + code@,
                ]
            },
            Err(GuardFault::Operation(error)) => says(served, error@, true)
                && served.lines@.len() == 0,
            Err(GuardFault::Other) => {
                &&& says(served, "denied ("@ + "denied"@ + "): "@ + "denied"@, true)
                &&& text::views(served.lines@) == seq![
                    "      [mcp-server] denied   "@ + ("read_incident "@ + incident_id@
                        + " for holder "@ + holder@) + ": "@ + "denied"@,
                ]
            },
        },
{
    lemma_log_lines(incident_id@, holder@, depth as nat, "denied"@);
    if let Err(GuardFault::Denied { code, .. }) = outcome {
        lemma_log_lines(incident_id@, holder@, depth as nat, code@);
    }
}

/// A server decides by the guard that it was made with.
pub proof fn law_server_keeps_its_guard(guard: Guard, r: IncidentServer)
    requires
        call_ensures(IncidentServer::new, (guard,), r),
    ensures
        r.is_guarded_by(guard),
        r.roots() == tenuo_api::roots_of(guard),
        r.ceiling() == tenuo_api::ceiling_of(guard),
{
}

/// Every client is told where a call must carry its warrant.
pub proof fn law_clients_are_told_of_the_warrant(server: &IncidentServer, r: String)
    requires
        call_ensures(IncidentServer::instructions, (server,), r),
    ensures
        r@
            == "Incident records. Every call must carry a Tenuo warrant in _meta[\"ai.tenuo/authorization\"]."@,
{
}

}
