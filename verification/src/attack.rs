//! The scene outside the agents: requests that bypass the client's guard, and what
//! the server's replies to them show.

use crate::authority;
use crate::authority::{map_delegation_error, RunAuthority, ToolError};
use crate::delegation;
use crate::grant;
use crate::issuer;
use crate::mcp_api;
use crate::tenuo_api;
use crate::tenuo_api::DelegationFault;
use crate::text;
use crate::tools::incident_mcp;
use crate::tools::incident_mcp::{IncidentArgs, TENUO_META_KEY};
use crate::tools::ToolArguments;
use rmcp::model::{CallToolRequestParams, CallToolResult};
use rmcp::service::ServiceError;
use tenuo::sdk::prelude::{DelegationProfile, PublicKey, SigningKey, Warrant};
use vstd::prelude::*;

verus! {

/// What an attacker got hold of: a chain, and the key that holds its last warrant.
pub struct Stolen {
    pub chain: Vec<Warrant>,
    pub key: SigningKey,
}

/// Whether the guard of a run, asked to mint a chain for a key from a profile, gave this
/// answer.
spec fn asked_to_mint(
    run: RunAuthority,
    holder: PublicKey,
    profile: DelegationProfile,
    outcome: Result<Vec<Warrant>, DelegationFault>,
) -> bool {
    call_ensures(
        tenuo_api::delegate_to,
        (&*run.guard, &*run.authority, &holder, &profile),
        outcome,
    )
}

/// Whether this is an answer that the guard itself gave: asked to mint a chain for this
/// key from this profile.
pub closed spec fn guard_gave_chain(
    run: RunAuthority,
    holder: Seq<u8>,
    profile: tenuo_api::ProfileModel,
    outcome: Result<Vec<Warrant>, DelegationFault>,
) -> bool {
    exists|key: PublicKey, asked: DelegationProfile| #[trigger]
        asked_to_mint(run, key, asked, outcome) && tenuo_api::key_bytes(key) == holder
            && tenuo_api::profile_of(asked) == profile
}

/// An answer that the guard gave to such a mint came of asking it, with the authority of
/// the run, for this very key and profile.
pub(crate) proof fn law_chains_come_of_asking(
    run: RunAuthority,
    holder: Seq<u8>,
    profile: tenuo_api::ProfileModel,
    outcome: Result<Vec<Warrant>, DelegationFault>,
)
    requires
        guard_gave_chain(run, holder, profile, outcome),
    ensures
        exists|key: PublicKey, asked: DelegationProfile|
            #![trigger call_ensures(
                tenuo_api::delegate_to,
                (&*run.guard, &*run.authority, &key, &asked),
                outcome,
            )]
            {
                &&& call_ensures(
                    tenuo_api::delegate_to,
                    (&*run.guard, &*run.authority, &key, &asked),
                    outcome,
                )
                &&& tenuo_api::key_bytes(key) == holder
                &&& tenuo_api::profile_of(asked) == profile
            },
{
    let (key, asked): (PublicKey, DelegationProfile) = choose|
        key: PublicKey,
        asked: DelegationProfile,
    | #[trigger]
        asked_to_mint(run, key, asked, outcome) && tenuo_api::key_bytes(key) == holder
            && tenuo_api::profile_of(asked) == profile;
    assert(call_ensures(
        tenuo_api::delegate_to,
        (&*run.guard, &*run.authority, &key, &asked),
        outcome,
    ));
}

/// What the credential that is taken was given: INC-42 to read, for five minutes, and no
/// delegation.
pub open spec fn stolen_profile() -> tenuo_api::ProfileModel {
    delegation::terminal_profile(
        delegation::reader_grants("INC-42"@),
        delegation::WORKER_TTL_SECS as nat,
    )
}

/// Mints the credential that is taken: a terminal one that reads INC-42 for five
/// minutes.
pub fn stolen_credential(run: &RunAuthority) -> (r: Result<Stolen, ToolError>)
    ensures
        r matches Ok(stolen) ==> {
            let chain = tenuo_api::warrants_of(stolen.chain@);
            &&& tenuo_api::is_verified(run.model().roots, run.model().chain)
            &&& chain == run.model().chain.push(chain.last())
            &&& tenuo_api::is_minted(
                run.model().chain.last(),
                delegation::terminal_profile(
                    delegation::reader_grants("INC-42"@),
                    delegation::WORKER_TTL_SECS as nat,
                ),
                chain.last(),
            )
            &&& chain.last().holder == tenuo_api::public_half(stolen.key)
        },
        !tenuo_api::is_countable(run.model().chain) ==> r is Err && r->Err_0.model()
            == delegation::too_deep_fault(),
        r matches Err(error) ==> error is Denied || error is Operation,
        match r {
            Ok(stolen) => issuer::is_drawn(stolen.key) && guard_gave_chain(
                *run,
                tenuo_api::public_half(stolen.key),
                stolen_profile(),
                Ok(stolen.chain),
            ),
            Err(error) => tenuo_api::is_countable(run.model().chain) ==> exists|
                holder: Seq<u8>,
                reason: DelegationFault,
            | #[trigger]
                guard_gave_chain(*run, holder, stolen_profile(), Err(reason)) && error.model()
                    == authority::delegation_fault(reason),
        },
{
    if tenuo_api::root_depth(&run.authority) == u32::MAX {
        return Err(map_delegation_error(DelegationFault::Other("chain is too deep".to_owned())));
    }
    let key = issuer::new_agent_key();
    let holder = tenuo_api::public_key(&key);
    let profile = delegation::new_reader_profile("INC-42", delegation::WORKER_TTL_SECS);
    let outcome = tenuo_api::delegate_to(&run.guard, &run.authority, &holder, &profile);
    assert(asked_to_mint(*run, holder, profile, outcome));
    assert(guard_gave_chain(*run, tenuo_api::public_half(key), stolen_profile(), outcome));
    match outcome {
        Ok(chain) => Ok(Stolen { chain, key }),
        Err(fault) => Err(map_delegation_error(fault)),
    }
}

/// Whether a request asks for one incident and carries a chain, with the proof of a key
/// under its last warrant over the same or another incident.
pub open spec fn is_forged(
    request: mcp_api::RequestModel,
    chain: Seq<grant::WarrantModel>,
    key: Seq<u8>,
    signed_incident: Seq<char>,
    asked_incident: Seq<char>,
) -> bool {
    &&& request.tool == "read_incident"@
    &&& request.arguments == Some(incident_mcp::incident_json(asked_incident)->Object_0)
    &&& request.meta matches Some(meta)
    &&& incident_mcp::carries(meta, chain)
    &&& incident_mcp::proves(
        meta,
        chain.last(),
        key,
        authority::requested("read_incident"@, incident_mcp::incident_json(signed_incident)),
    )
}

/// A request that asks for an incident and carries no authorization.
pub open spec fn bare(incident_id: Seq<char>) -> mcp_api::RequestModel {
    mcp_api::RequestModel {
        tool: "read_incident"@,
        arguments: Some(incident_mcp::incident_json(incident_id)->Object_0),
        meta: None,
    }
}

/// Makes a request that asks for one incident and carries a chain with a proof under
/// its last warrant over the same or another one, signed with any key. It is refused exactly where
/// the incident that is signed for makes no arguments, as no identifier of up to
/// 2048 characters does.
pub fn forged_request(
    chain: &Vec<Warrant>,
    key: &SigningKey,
    signed_incident: &str,
    asked_incident: &str,
) -> (r: Result<CallToolRequestParams, String>)
    requires
        chain@.len() > 0,
    ensures
        match tenuo_api::argument_fault(
            "read_incident"@,
            incident_mcp::incident_json(signed_incident@),
        ) {
            Some(fault) => r is Err && r->Err_0@ == fault,
            None => r is Ok && is_forged(
                mcp_api::request_of(r->Ok_0),
                tenuo_api::warrants_of(chain@),
                tenuo_api::public_half(*key),
                signed_incident@,
                asked_incident@,
            ),
        },
        signed_incident@.len() <= 2048 ==> r is Ok,
{
    let signed = IncidentArgs { incident_id: signed_incident.to_owned() };
    proof {
        reveal_strlit("read_incident");
        reveal_strlit("incident_id");
        let entries = incident_mcp::incident_json(signed_incident@)->Object_0;
        assert(entries.dom() =~= Set::empty().insert("incident_id"@));
    }
    let call = match tenuo_api::call_from_json("read_incident", &signed.to_value()) {
        Ok(call) => call,
        Err(fault) => return Err(fault),
    };
    let signature = match tenuo_api::sign_call(&chain[chain.len() - 1], key, &call) {
        Ok(signature) => signature,
        Err(fault) => return Err(fault),
    };
    let envelope = match tenuo_api::encode_chain(chain, &signature) {
        Ok(envelope) => envelope,
        Err(fault) => return Err(fault),
    };
    let mut meta = mcp_api::new_request_meta();
    mcp_api::insert_request_meta(&mut meta, TENUO_META_KEY, envelope);
    proof {
        let entries = mcp_api::request_meta_of(meta);
        assert(entries.dom() =~= Set::empty().insert(TENUO_META_KEY@));
    }
    let mut params = bare_request(asked_incident);
    mcp_api::set_request_meta(&mut params, meta);
    Ok(params)
}

/// Makes a request that asks for an incident and carries no authorization.
pub fn bare_request(incident_id: &str) -> (r: CallToolRequestParams)
    ensures
        mcp_api::request_of(r) == bare(incident_id@),
{
    let args = IncidentArgs { incident_id: incident_id.to_owned() };
    let params = mcp_api::new_request("read_incident");
    match mcp_api::object_members(&args.to_value()) {
        Some(arguments) => mcp_api::with_arguments(params, arguments),
        None => params,
    }
}

/// What an attacker tries.
pub enum Attack {
    /// A copied chain, signed for with another key.
    CopiedWarrant,
    /// A call outside the warrant, signed for with its own key.
    OutOfScope,
    /// Arguments other than those that were signed for.
    ChangedArguments,
    /// A call within the warrant, signed for with its own key.
    ValidCall,
    /// The same request once more.
    Replay,
    /// No warrant at all.
    NoWarrant,
}

/// Whether these are the attacker's attempts, in order: the copied chain with a proof
/// of another key, a call outside the warrant, arguments other than those signed for, a
/// valid call, the same request once more, and a request without a warrant.
pub open spec fn are_attempts(
    attempts: Seq<(Attack, CallToolRequestParams)>,
    chain: Seq<grant::WarrantModel>,
    key: Seq<u8>,
    other: Seq<u8>,
) -> bool {
    let request = |i: int| mcp_api::request_of(attempts[i].1);
    &&& attempts.len() == 6
    &&& attempts[0].0 is CopiedWarrant
    &&& is_forged(request(0), chain, other, "INC-42"@, "INC-42"@)
    &&& attempts[1].0 is OutOfScope
    &&& is_forged(request(1), chain, key, "INC-99"@, "INC-99"@)
    &&& attempts[2].0 is ChangedArguments
    &&& is_forged(request(2), chain, key, "INC-99"@, "INC-42"@)
    &&& attempts[3].0 is ValidCall
    &&& is_forged(request(3), chain, key, "INC-42"@, "INC-42"@)
    &&& attempts[4].0 is Replay
    &&& request(4) == request(3)
    &&& attempts[5].0 is NoWarrant
    &&& request(5) == bare("INC-42"@)
}

/// Makes the requests of an attacker who holds a stolen credential and another key.
pub fn attempts(stolen: &Stolen, other: &SigningKey) -> (r: Result<
    Vec<(Attack, CallToolRequestParams)>,
    String,
>)
    requires
        stolen.chain@.len() > 0,
    ensures
        r is Ok,
        are_attempts(
            r->Ok_0@,
            tenuo_api::warrants_of(stolen.chain@),
            tenuo_api::public_half(stolen.key),
            tenuo_api::public_half(*other),
        ),
{
    proof {
        reveal_strlit("INC-42");
        reveal_strlit("INC-99");
    }
    let copied = match forged_request(&stolen.chain, other, "INC-42", "INC-42") {
        Ok(params) => params,
        Err(fault) => return Err(fault),
    };
    let outside = match forged_request(&stolen.chain, &stolen.key, "INC-99", "INC-99") {
        Ok(params) => params,
        Err(fault) => return Err(fault),
    };
    let changed = match forged_request(&stolen.chain, &stolen.key, "INC-99", "INC-42") {
        Ok(params) => params,
        Err(fault) => return Err(fault),
    };
    let valid = match forged_request(&stolen.chain, &stolen.key, "INC-42", "INC-42") {
        Ok(params) => params,
        Err(fault) => return Err(fault),
    };
    let again = mcp_api::clone_request(&valid);
    Ok(
        vec![
            (Attack::CopiedWarrant, copied),
            (Attack::OutOfScope, outside),
            (Attack::ChangedArguments, changed),
            (Attack::ValidCall, valid),
            (Attack::Replay, again),
            (Attack::NoWarrant, bare_request("INC-42")),
        ],
    )
}

/// What the server replied.
pub enum Reply {
    /// The record.
    Served,
    /// A denial, as the result of the tool.
    Denied,
    /// No result, and the failure in words.
    Failed(String),
}

/// Tells what the server replied.
pub fn read_reply(outcome: Result<CallToolResult, ServiceError>) -> (r: Reply)
    ensures
        match outcome {
            Ok(result) => if mcp_api::result_of(result).is_error == Some(true) {
                r is Denied
            } else {
                r is Served
            },
            Err(error) => r is Failed && r->Failed_0@ == mcp_api::service_fault_of(error).text,
        },
{
    match outcome {
        Ok(result) => match mcp_api::result_is_error(&result) {
            Some(true) => Reply::Denied,
            _ => Reply::Served,
        },
        Err(error) => Reply::Failed(mcp_api::service_fault(error).text),
    }
}

/// What a transcript says where the server acted as it should.
pub open spec fn expected_text(attack: Attack) -> Seq<char> {
    match attack {
        Attack::CopiedWarrant => "rejected a copied warrant signed by a different key"@,
        Attack::OutOfScope => "bounded a compromised holder to its warrant"@,
        Attack::ChangedArguments => "rejected a proof signed for different arguments"@,
        Attack::ValidCall => "accepted a valid call from the compromised holder"@,
        Attack::Replay => "accepted an identical replay (demo has no deduplication)"@,
        Attack::NoWarrant => "refused a call with no warrant at all"@,
    }
}

/// What a transcript says where the server did not act as it should.
pub open spec fn unexpected_text(attack: Attack) -> Seq<char> {
    match attack {
        Attack::CopiedWarrant => "accepted a copied warrant"@,
        Attack::OutOfScope => "allowed an out-of-scope call"@,
        Attack::ChangedArguments => "accepted changed arguments"@,
        Attack::ValidCall => "denied a valid call"@,
        Attack::Replay => "denied an identical replay"@,
        Attack::NoWarrant => "accepted a call with no warrant"@,
    }
}

/// Whether the server should serve a request of this kind.
pub open spec fn is_legitimate(attack: Attack) -> bool {
    attack is ValidCall || attack is Replay
}

/// The transcript line for a reply: what the server did, after two exclamation
/// marks where it should not have, and the first line of a failure.
pub open spec fn verdict_line(attack: Attack, reply: Reply) -> Seq<char> {
    let start = if (reply is Served) == is_legitimate(attack) {
        "   server: "@ + expected_text(attack)
    } else {
        "   !! server "@ + unexpected_text(attack)
    };
    match reply {
        Reply::Failed(text) => start + " ("@ + text::first_line(text@) + ")"@,
        _ => start,
    }
}

/// Writes the transcript line for a reply.
pub fn verdict(attack: &Attack, reply: &Reply) -> (r: String)
    ensures
        r@ == verdict_line(*attack, *reply),
{
    let (expected, unexpected, legitimate) = match attack {
        Attack::CopiedWarrant => (
            "rejected a copied warrant signed by a different key",
            "accepted a copied warrant",
            false,
        ),
        Attack::OutOfScope => (
            "bounded a compromised holder to its warrant",
            "allowed an out-of-scope call",
            false,
        ),
        Attack::ChangedArguments => (
            "rejected a proof signed for different arguments",
            "accepted changed arguments",
            false,
        ),
        Attack::ValidCall => (
            "accepted a valid call from the compromised holder",
            "denied a valid call",
            true,
        ),
        Attack::Replay => (
            "accepted an identical replay (demo has no deduplication)",
            "denied an identical replay",
            true,
        ),
        Attack::NoWarrant => (
            "refused a call with no warrant at all",
            "accepted a call with no warrant",
            false,
        ),
    };
    let served = match reply {
        Reply::Served => true,
        _ => false,
    };
    let mut line = if served == legitimate {
        let mut line = "   server: ".to_owned();
        line.append(expected);
        line
    } else {
        let mut line = "   !! server ".to_owned();
        line.append(unexpected);
        line
    };
    if let Reply::Failed(text) = reply {
        let detail = text::take_first_line(text.as_str());
        line.append(" (");
        line.append(detail.as_str());
        line.append(")");
    }
    line
}

}
