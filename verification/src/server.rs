//! The MCP server that serves incidents.
//!
//! It trusts one root public key and holds no private one. Every call must carry
//! a chain of warrants rooted there and a proof over these exact arguments.

use crate::authority;
use crate::authority::denial_message;
use crate::grant;
use crate::json;
use crate::mcp_api;
use crate::root_key;
use crate::tenuo_api;
use crate::tenuo_api::GuardFault;
use crate::text;
use crate::tools::incident_mcp;
use crate::tools::incident_mcp::{IncidentArgs, TENUO_META_KEY};
use crate::tools::read_incident;
use crate::tools::read_incident::incident_record;
use crate::tools::ToolArguments;
use rmcp::model::{CallToolResult, RequestMetaObject};
use rmcp::ErrorData;
use std::sync::Arc;
use tenuo::sdk::prelude::{
    AuthorizedCall, Call, DecisionMetadata, Guard, ReceivedAuthorization,
};
use vstd::prelude::*;

verus! {

/// The server, with the guard that decides.
pub struct IncidentServer {
    guard: Arc<Guard>,
}

/// What the server answers, and the lines that it adds to its log.
pub struct Served {
    pub answer: Result<CallToolResult, ErrorData>,
    pub lines: Vec<String>,
}

// ------------------------------------------------------------------- log lines

/// The log line of a call without authorization.
pub open spec fn refused_line(incident_id: Seq<char>) -> Seq<char> {
    "      [mcp-server] refused  read_incident "@ + incident_id + ": no authorization metadata"@
}

/// The log line of a denied call.
pub open spec fn denied_line(
    incident_id: Seq<char>,
    holder: Seq<char>,
    code: Seq<char>,
) -> Seq<char> {
    "      [mcp-server] denied   read_incident "@ + incident_id + " for holder "@ + holder + ": "@
        + code
}

/// The log line of a verified call.
pub open spec fn verified_line(incident_id: Seq<char>, holder: Seq<char>, depth: nat) -> Seq<
    char,
> {
    "      [mcp-server] verified read_incident "@ + incident_id + " for holder "@ + holder
        + " (chain depth "@ + text::decimal(depth) + ")"@
}

/// The record that the server serves.
pub open spec fn served_text(incident_id: Seq<char>) -> Seq<char> {
    read_incident::incident_text(incident_id) + " (served by MCP)"@
}

/// Writes the log line of a denied call.
fn write_denied(incident_id: &str, holder: &str, code: &str) -> (r: String)
    ensures
        r@ == denied_line(incident_id@, holder@, code@),
{
    let mut line = "      [mcp-server] denied   read_incident ".to_owned();
    line.append(incident_id);
    line.append(" for holder ");
    line.append(holder);
    line.append(": ");
    line.append(code);
    line
}

/// Writes the log line of a verified call.
fn write_verified(incident_id: &str, holder: &str, depth: usize) -> (r: String)
    ensures
        r@ == verified_line(incident_id@, holder@, depth as nat),
{
    let count = text::decimal_text(depth as u64);
    let mut line = "      [mcp-server] verified read_incident ".to_owned();
    line.append(incident_id);
    line.append(" for holder ");
    line.append(holder);
    line.append(" (chain depth ");
    line.append(count.as_str());
    line.append(")");
    line
}

// ------------------------------------------------------------------- answers

/// A result of one text.
pub open spec fn text_result(text: Seq<char>, is_error: bool) -> mcp_api::ResultModel {
    mcp_api::ResultModel {
        content: seq![mcp_api::ContentModel::Text(text)],
        structured: None,
        is_error: Some(is_error),
        meta: None,
    }
}

/// Whether an answer is a result of this text.
pub open spec fn answers_with(served: Served, text: Seq<char>, is_error: bool) -> bool {
    served.answer is Ok && mcp_api::result_of(served.answer->Ok_0) == text_result(text, is_error)
}

/// Whether an answer is a protocol error for parameters that cannot be used.
pub open spec fn rejects_with(served: Served, message: Seq<char>) -> bool {
    served.answer is Err && mcp_api::error_of(served.answer->Err_0) == (mcp_api::ErrorModel {
        code: mcp_api::invalid_params_code(),
        message,
    })
}

/// Makes a protocol error for parameters that cannot be used.
fn reject(message: String, lines: Vec<String>) -> (r: Served)
    ensures
        rejects_with(r, message@),
        r.lines == lines,
{
    Served { answer: Err(mcp_api::invalid_params(message)), lines }
}

/// The message of the protocol error that a request gets before the guard is
/// asked, if it gets one: it carries no authorization, one that does not decode,
/// or arguments that are none. (An authorization that is one warrant outside a list
/// may be refused besides, as the clock has it.)
pub open spec fn rejection(
    meta: Map<Seq<char>, json::Json>,
    incident_id: Seq<char>,
) -> Option<Seq<char>> {
    if !meta.contains_key(TENUO_META_KEY@) {
        Some("missing Tenuo authorization metadata"@)
    } else {
        match tenuo_api::decoded(meta[TENUO_META_KEY@]) {
            Err(fault) => Some("bad _meta.tenuo: "@ + fault),
            Ok(_) => tenuo_api::argument_fault(
                "read_incident"@,
                incident_mcp::incident_json(incident_id),
            ),
        }
    }
}

/// The chain that a request carries, where it decodes.
pub open spec fn carried_chain(meta: Map<Seq<char>, json::Json>) -> Seq<grant::WarrantModel> {
    tenuo_api::decoded(meta[TENUO_META_KEY@])->Ok_0
}

/// The proof that a request carries, where it decodes.
pub open spec fn carried_proof(meta: Map<Seq<char>, json::Json>) -> Seq<u8> {
    tenuo_api::decoded_proof(meta[TENUO_META_KEY@])
}

/// The short name of the key that holds the last warrant of a chain.
pub open spec fn holder_name(chain: Seq<grant::WarrantModel>) -> Seq<char> {
    root_key::hex_text(chain.last().holder.take(8))
}

/// What the server makes of the guard's answer: the record, or a denial that an agent
/// can handle like any result of a tool, and the line that it logs.
pub open spec fn settles_read(
    incident_id: Seq<char>,
    holder: Seq<char>,
    depth: nat,
    outcome: Result<(String, DecisionMetadata), GuardFault<String>>,
    served: Served,
) -> bool {
    match outcome {
        Ok(pair) => answers_with(served, pair.0@, false) && text::views(served.lines@) == seq![
            verified_line(incident_id, holder, depth),
        ],
        Err(GuardFault::Denied { code, message }) => answers_with(
            served,
            authority::denial_text(code@, message@),
            true,
        ) && text::views(served.lines@) == seq![denied_line(incident_id, holder, code@)],
        Err(GuardFault::Operation(error)) => answers_with(served, error@, true)
            && served.lines@.len() == 0,
        Err(GuardFault::Other) => answers_with(
            served,
            authority::denial_text("denied"@, "denied"@),
            true,
        ) && text::views(served.lines@) == seq![denied_line(incident_id, holder, "denied"@)],
    }
}

/// Turns the guard's answer into what the server answers and logs.
pub fn settle_read(
    incident_id: &str,
    holder: &str,
    depth: usize,
    outcome: Result<(String, DecisionMetadata), GuardFault<String>>,
) -> (r: Served)
    ensures
        settles_read(incident_id@, holder@, depth as nat, outcome, r),
{
    match outcome {
        Ok((record, _)) => {
            let lines: Vec<String> = vec![write_verified(incident_id, holder, depth)];
            assert(text::views(lines@) =~= seq![lines@[0]@]);
            Served { answer: Ok(mcp_api::success_result(record)), lines }
        },
        Err(GuardFault::Denied { code, message }) => {
            let lines: Vec<String> = vec![write_denied(incident_id, holder, code.as_str())];
            assert(text::views(lines@) =~= seq![lines@[0]@]);
            let answer = denial_message(code.as_str(), message.as_str());
            Served { answer: Ok(mcp_api::error_result(answer)), lines }
        },
        Err(GuardFault::Operation(error)) => Served {
            answer: Ok(mcp_api::error_result(error)),
            lines: Vec::new(),
        },
        Err(GuardFault::Other) => {
            let lines: Vec<String> = vec![write_denied(incident_id, holder, "denied")];
            assert(text::views(lines@) =~= seq![lines@[0]@]);
            Served { answer: Ok(mcp_api::error_result(denial_message("denied", "denied"))), lines }
        },
    }
}

/// Whether the server served a call: the chain that came with it permits it and has no
/// warrant that outlasts the ceiling, the proof that came with it is its last
/// holder's over these arguments, the record is the answer, and the call is logged
/// as verified.
pub open spec fn is_served(
    roots: Set<Seq<u8>>,
    ceiling: Option<nat>,
    chain: Seq<grant::WarrantModel>,
    signature: Seq<u8>,
    incident_id: Seq<char>,
    served: Served,
) -> bool {
    let call = authority::requested(
        "read_incident"@,
        incident_mcp::incident_json(incident_id),
    );
    &&& tenuo_api::is_permitted(roots, chain, call)
    &&& grant::is_within_ceiling(ceiling, chain)
    &&& tenuo_api::is_holders_proof(signature, chain, call)
    &&& answers_with(served, served_text(incident_id), false)
    &&& text::views(served.lines@) == seq![
        verified_line(incident_id, holder_name(chain), chain.len()),
    ]
}

/// Whether the server denied a call: the denial is the answer, and it is logged
/// with its code.
pub open spec fn is_denied(
    chain: Seq<grant::WarrantModel>,
    incident_id: Seq<char>,
    served: Served,
    code: Seq<char>,
    message: Seq<char>,
) -> bool {
    &&& answers_with(served, authority::denial_text(code, message), true)
    &&& text::views(served.lines@) == seq![denied_line(incident_id, holder_name(chain), code)]
}

/// The operation of a call that goes on after the guard has allowed it.
pub fn proceed(_call: &AuthorizedCall<'_>) -> (r: Result<(), String>)
    ensures
        r is Ok,
{
    Ok(())
}

/// Whether a guard, asked about a call that came with this chain and proof, gave this
/// answer.
spec fn asked(
    guard: Guard,
    received: ReceivedAuthorization<'_>,
    call: Call<'static>,
    outcome: Result<((), DecisionMetadata), GuardFault<String>>,
) -> bool {
    call_ensures(tenuo_api::guard_received, (&guard, &received, &call, proceed), outcome)
}

/// Whether the server refused an authorization that does not decode: the reason is the
/// answer, and nothing is logged.
pub open spec fn is_undecoded(served: Served, fault: Seq<char>) -> bool {
    rejects_with(served, "bad _meta.tenuo: "@ + fault) && served.lines@.len() == 0
}

/// What the server answers to a request whose authorization decodes, or does not, by
/// itself: the rejection that is due, a denial of a chain that is too deep to ask the
/// guard about, and else the record or a denial.
pub open spec fn is_answered(
    roots: Set<Seq<u8>>,
    ceiling: Option<nat>,
    meta: Map<Seq<char>, json::Json>,
    incident_id: Seq<char>,
    served: Served,
) -> bool {
    match rejection(meta, incident_id) {
        Some(message) => {
            &&& rejects_with(served, message)
            &&& text::views(served.lines@) == (if meta.contains_key(TENUO_META_KEY@) {
                Seq::empty()
            } else {
                seq![refused_line(incident_id)]
            })
        },
        None => {
            let chain = carried_chain(meta);
            if authority::is_too_deep(chain) {
                is_denied(chain, incident_id, served, "denied"@, "denied"@)
            } else {
                ||| is_served(roots, ceiling, chain, carried_proof(meta), incident_id, served)
                ||| exists|code: Seq<char>, message: Seq<char>| #[trigger]
                    is_denied(chain, incident_id, served, code, message)
            }
        },
    }
}

/// Whether a request carries an authorization that is one warrant outside a list.
pub open spec fn carries_lone(meta: Map<Seq<char>, json::Json>) -> bool {
    meta.contains_key(TENUO_META_KEY@) && tenuo_api::is_lone(meta[TENUO_META_KEY@])
}

impl IncidentServer {
    /// The root keys that the server trusts.
    pub closed spec fn roots(&self) -> Set<Seq<u8>> {
        tenuo_api::roots_of(*self.guard)
    }

    /// Whether this is the guard that decides.
    pub closed spec fn is_guarded_by(&self, guard: Guard) -> bool {
        *self.guard == guard
    }

    /// The longest lifetime that the server accepts.
    pub closed spec fn ceiling(&self) -> Option<nat> {
        tenuo_api::ceiling_of(*self.guard)
    }

    /// Whether this is an answer that the server's guard itself gave: asked about a call
    /// that came with this chain and proof.
    pub closed spec fn guard_gave(
        &self,
        chain: Seq<grant::WarrantModel>,
        signature: Seq<u8>,
        call: tenuo_api::CallModel,
        outcome: Result<((), DecisionMetadata), GuardFault<String>>,
    ) -> bool {
        exists|received: ReceivedAuthorization<'_>, made: Call<'static>| #[trigger]
            asked(*self.guard, received, made, outcome) && tenuo_api::received_chain_of(received)
                == chain && tenuo_api::received_proof_of(received) == signature
                && tenuo_api::call_of(made) == call
    }

    /// An answer that the server's guard gave came of asking it, over this chain and this
    /// proof, about this very call.
    pub(crate) proof fn law_answers_come_of_asking(
        &self,
        chain: Seq<grant::WarrantModel>,
        signature: Seq<u8>,
        call: tenuo_api::CallModel,
        outcome: Result<((), DecisionMetadata), GuardFault<String>>,
    )
        requires
            self.guard_gave(chain, signature, call, outcome),
        ensures
            exists|guard: Guard, received: ReceivedAuthorization<'_>, made: Call<'static>|
                #![trigger call_ensures(
                    tenuo_api::guard_received,
                    (&guard, &received, &made, proceed),
                    outcome,
                )]
                {
                    &&& call_ensures(
                        tenuo_api::guard_received,
                        (&guard, &received, &made, proceed),
                        outcome,
                    )
                    &&& self.is_guarded_by(guard)
                    &&& tenuo_api::received_chain_of(received) == chain
                    &&& tenuo_api::received_proof_of(received) == signature
                    &&& tenuo_api::call_of(made) == call
                },
    {
        let (received, made): (ReceivedAuthorization<'_>, Call<'static>) = choose|
            received: ReceivedAuthorization<'_>,
            made: Call<'static>,
        | #[trigger]
            asked(*self.guard, received, made, outcome) && tenuo_api::received_chain_of(received)
                == chain && tenuo_api::received_proof_of(received) == signature
                && tenuo_api::call_of(made) == call;
        assert(call_ensures(
            tenuo_api::guard_received,
            (&*self.guard, &received, &made, proceed),
            outcome,
        ));
    }

    /// Whether the server answered as its guard did: the record where the guard allowed
    /// the call, and else the guard's denial.
    pub open spec fn follows_guard(
        &self,
        meta: Map<Seq<char>, json::Json>,
        incident_id: Seq<char>,
        served: Served,
    ) -> bool {
        let chain = carried_chain(meta);
        exists|outcome: Result<((), DecisionMetadata), GuardFault<String>>| #[trigger]
            self.guard_gave(
                chain,
                carried_proof(meta),
                authority::requested("read_incident"@, incident_mcp::incident_json(incident_id)),
                outcome,
            ) && match outcome {
                Ok(_) => answers_with(served, served_text(incident_id), false) && text::views(
                    served.lines@,
                ) == seq![verified_line(incident_id, holder_name(chain), chain.len())],
                Err(GuardFault::Denied { code, message }) => is_denied(
                    chain,
                    incident_id,
                    served,
                    code@,
                    message@,
                ),
                Err(_) => is_denied(chain, incident_id, served, "denied"@, "denied"@),
            }
    }

    /// A server trusts the roots that its guard trusts, and accepts the lifetimes that its
    /// guard accepts.
    pub proof fn law_server_goes_by_its_guard(&self, guard: Guard)
        requires
            self.is_guarded_by(guard),
        ensures
            self.roots() == tenuo_api::roots_of(guard),
            self.ceiling() == tenuo_api::ceiling_of(guard),
            self.reporting() == tenuo_api::reporting_of(guard),
    {
    }

    /// How the server's guard reports its denials.
    pub closed spec fn reporting(&self) -> tenuo_api::Reporting {
        tenuo_api::reporting_of(*self.guard)
    }

    /// A server that decides by this guard.
    pub fn new(guard: Guard) -> (r: Self)
        ensures
            r.is_guarded_by(guard),
            r.roots() == tenuo_api::roots_of(guard),
            r.ceiling() == tenuo_api::ceiling_of(guard),
            r.reporting() == tenuo_api::reporting_of(guard),
    {
        IncidentServer { guard: Arc::new(guard) }
    }

    /// What the server tells its clients.
    pub fn instructions(&self) -> (r: String)
        ensures
            r@
                == "Incident records. Every call must carry a Tenuo warrant in _meta[\"ai.tenuo/authorization\"]."@,
    {
        "Incident records. Every call must carry a Tenuo warrant in _meta[\"ai.tenuo/authorization\"].".to_owned()
    }

    /// Answers a call: rejects a request whose authorization is missing or
    /// malformed, and else verifies chain, proof and demands before the record
    /// is made. A chain that is too deep to ask the guard about is denied.
    pub fn read_incident(&self, meta: &RequestMetaObject, args: &IncidentArgs) -> (r: Served)
        ensures
            is_answered(
                self.roots(),
                self.ceiling(),
                mcp_api::request_meta_of(*meta),
                args.incident_id@,
                r,
            ) || (carries_lone(mcp_api::request_meta_of(*meta)) && exists|fault: Seq<char>|
                #[trigger] is_undecoded(r, fault)),
            rejection(mcp_api::request_meta_of(*meta), args.incident_id@) is None
                && !authority::is_too_deep(carried_chain(mcp_api::request_meta_of(*meta)))
                ==> self.follows_guard(mcp_api::request_meta_of(*meta), args.incident_id@, r) || (
            carries_lone(mcp_api::request_meta_of(*meta)) && exists|fault: Seq<char>| #[trigger]
                is_undecoded(r, fault)),
    {
        let incident_id = args.incident_id.as_str();
        let envelope = match mcp_api::get_request_meta(meta, TENUO_META_KEY) {
            Some(envelope) => envelope,
            None => {
                let lines: Vec<String> = vec![
                    text::concat3(
                        "      [mcp-server] refused  read_incident ",
                        incident_id,
                        ": no authorization metadata",
                    ),
                ];
                assert(text::views(lines@) =~= seq![lines@[0]@]);
                return reject("missing Tenuo authorization metadata".to_owned(), lines);
            },
        };
        let nothing: Vec<String> = Vec::new();
        assert(text::views(nothing@) =~= Seq::empty());
        let decoded = match tenuo_api::decode_envelope(&envelope) {
            Ok(decoded) => decoded,
            Err(fault) => {
                let mut message = "bad _meta.tenuo: ".to_owned();
                message.append(fault.as_str());
                let served = reject(message, nothing);
                assert(is_undecoded(served, fault@));
                return served;
            },
        };
        let received = match tenuo_api::as_received(&decoded) {
            Ok(received) => received,
            Err(fault) => {
                let mut message = "bad authority: ".to_owned();
                message.append(fault.as_str());
                return reject(message, nothing);
            },
        };
        let value = args.to_value();
        let call = match tenuo_api::call_from_json("read_incident", &value) {
            Ok(call) => call,
            Err(fault) => return reject(fault, nothing),
        };
        let holder = tenuo_api::fingerprint(&tenuo_api::received_holder(&received));
        let depth: usize = tenuo_api::received_length(&received);
        let mut record = incident_record(incident_id);
        record.append(" (served by MCP)");
        let outcome = if depth > 1 && tenuo_api::received_root_depth(&received) == u32::MAX {
            Err(GuardFault::Other)
        } else {
            let answer = tenuo_api::guard_received(&self.guard, &received, &call, proceed);
            assert(asked(*self.guard, received, call, answer));
            answer
        };
        let ghost given = outcome;
        let outcome: Result<(String, DecisionMetadata), GuardFault<String>> = match outcome {
            Ok((_, decision)) => Ok((record, decision)),
            Err(fault) => Err(fault),
        };
        let ghost answer = outcome;
        let served = settle_read(incident_id, holder.as_str(), depth, outcome);
        proof {
            let chain = carried_chain(mcp_api::request_meta_of(*meta));
            if !authority::is_too_deep(chain) {
                assert(self.guard_gave(
                    chain,
                    carried_proof(mcp_api::request_meta_of(*meta)),
                    authority::requested(
                        "read_incident"@,
                        incident_mcp::incident_json(args.incident_id@),
                    ),
                    given,
                ));
            }
            match answer {
                Ok(pair) => {
                    assert(pair.0@ == served_text(args.incident_id@));
                },
                Err(GuardFault::Denied { code, message }) => {
                    assert(is_denied(chain, args.incident_id@, served, code@, message@));
                },
                Err(GuardFault::Operation(_)) => {},
                Err(GuardFault::Other) => {
                    assert(is_denied(chain, args.incident_id@, served, "denied"@, "denied"@));
                },
            }
        }
        served
    }
}

}
