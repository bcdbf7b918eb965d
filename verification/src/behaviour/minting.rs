//! The control plane: what it mints, what its guards accept, and how its key is written.

use crate::authority;
use crate::authority::RunAuthority;
use crate::grant;
use crate::grant::{Fields, Limit};
use crate::issuer;
use crate::issuer::ControlPlane;
use crate::root_key;
use crate::root_key::RootKeyError;
use crate::tenuo_api;
use crate::tenuo_api::Reporting;
use tenuo::sdk::prelude::{Guard, PublicKey, SigningKey, Warrant};
use vstd::prelude::*;

verus! {

// ------------------------------------------------------------------- keys and warrants

/// A control plane starts with a key that was drawn at random and that guards take.
pub proof fn law_root_keys_are_drawn(r: ControlPlane)
    requires
        call_ensures(ControlPlane::start, (), r),
    ensures
        r.is_fresh(),
        r.root_bytes().len() == 32,
        tenuo_api::key_fault(r.root_bytes()) is None,
{
}

/// What enforcement points are given is the public half of the root key.
pub proof fn law_root_key_is_given_out(plane: &ControlPlane, r: PublicKey)
    requires
        call_ensures(ControlPlane::root_public_key, (plane,), r),
    ensures
        tenuo_api::key_bytes(r) == plane.root_bytes(),
{
}

/// An agent's key is drawn at random, and its public half is given out.
pub proof fn law_agents_keys_are_drawn(key: SigningKey, public: PublicKey)
    requires
        call_ensures(issuer::new_agent_key, (), key),
        call_ensures(issuer::agent_public_key, (&key,), public),
    ensures
        issuer::is_drawn(key),
        tenuo_api::key_bytes(public) == tenuo_api::public_half(key),
        tenuo_api::key_bytes(public).len() == 32,
        tenuo_api::key_fault(tenuo_api::key_bytes(public)) is None,
{
}

/// What the orchestrator is given: to scale staging clusters to at most ten replicas, to
/// read and to hand out incidents, and to hand out steps of them.
pub open spec fn given_to_orchestrator() -> Map<Seq<char>, Fields> {
    let incident = Fields { limits: map!["incident_id"@ => Limit::Prefix("INC-"@)], open: false };
    map![
        "scale_cluster"@ => Fields {
            limits: map![
                "cluster"@ => Limit::Prefix("staging-"@),
                "replicas"@ => Limit::AtMost(10),
            ],
            open: false,
        },
        "read_incident"@ => incident,
        "delegate_incident"@ => incident,
        "delegate_subtask"@ => Fields {
            limits: map!["incident_id"@ => Limit::Prefix("INC-"@), "scope"@ => Limit::Any],
            open: false,
        },
    ]
}

/// The orchestrator's warrant can always be minted, and is a root warrant for ten minutes
/// that this root signed for this holder, with what the orchestrator is given and nothing
/// else.
pub proof fn law_orchestrators_warrant(
    plane: &ControlPlane,
    holder: &PublicKey,
    r: Result<Warrant, String>,
)
    requires
        call_ensures(ControlPlane::mint_orchestrator_warrant, (plane, holder), r),
    ensures
        r is Ok,
        ({
            let warrant = tenuo_api::warrant_of(r->Ok_0);
            &&& warrant.grants == given_to_orchestrator()
            &&& warrant.execution
            &&& warrant.depth == 0
            &&& warrant.max_depth == tenuo_api::DEFAULT_MAX_DEPTH
            &&& warrant.lifetime == 600
            &&& warrant.holder == tenuo_api::key_bytes(*holder)
            &&& warrant.issuer == plane.root_bytes()
            &&& warrant.as_signed
            &&& warrant.bare
        }),
{
}

/// The orchestrator's run is there exactly where the key is the holder's: it trusts this
/// root alone, accepts lifetimes of up to an hour, keeps its denials to the tools, and
/// presents this warrant alone. Where it is not, the reason is the guard library's own.
pub proof fn law_orchestrators_run(
    root: PublicKey,
    warrant: Warrant,
    key: SigningKey,
    r: Result<RunAuthority, String>,
)
    requires
        call_ensures(issuer::orchestrator_authority, (root, warrant, key), r),
    ensures
        r is Ok <==> tenuo_api::warrant_of(warrant).holder == tenuo_api::public_half(key),
        r matches Ok(run) ==> run.model() == (authority::RunModel {
            roots: set![tenuo_api::key_bytes(root)],
            ceiling: Some(3600),
            reporting: Reporting::Debug,
            chain: seq![tenuo_api::warrant_of(warrant)],
            agent: "orchestrator"@,
        }),
        r matches Ok(run) ==> issuer::was_built(
            root,
            warrant,
            key,
            Ok((*run.guard, *run.authority)),
        ),
        r matches Err(reason) ==> issuer::was_built(root, warrant, key, Err(reason)),
{
}

/// An enforcement point can always be made: it trusts this root alone, accepts lifetimes
/// of up to an hour and no longer ones, and keeps its denials to the server.
pub proof fn law_enforcement_points(
    root: PublicKey,
    r: Result<Guard, String>,
    chain: Seq<grant::WarrantModel>,
    i: int,
)
    requires
        call_ensures(issuer::enforcement_point, (root,), r),
    ensures
        r is Ok,
        tenuo_api::roots_of(r->Ok_0) == set![tenuo_api::key_bytes(root)],
        tenuo_api::ceiling_of(r->Ok_0) == Some(3600nat),
        tenuo_api::reporting_of(r->Ok_0) == Reporting::Debug,
        0 <= i < chain.len() && chain[i].lifetime > 3600 ==> !grant::is_within_ceiling(
            tenuo_api::ceiling_of(r->Ok_0),
            chain,
        ),
{
}

/// What the control plane and the enforcement points have in common: a warrant that is
/// minted for an orchestrator is one that an enforcement point of the same root accepts.
pub proof fn law_enforcement_points_accept_the_orchestrator(
    plane: &ControlPlane,
    root: PublicKey,
    holder: &PublicKey,
    minted: Result<Warrant, String>,
    guard: Result<Guard, String>,
)
    requires
        call_ensures(ControlPlane::root_public_key, (plane,), root),
        call_ensures(ControlPlane::mint_orchestrator_warrant, (plane, holder), minted),
        call_ensures(issuer::enforcement_point, (root,), guard),
    ensures
        minted is Ok && guard is Ok,
        ({
            let chain = seq![tenuo_api::warrant_of(minted->Ok_0)];
            &&& tenuo_api::roots_of(guard->Ok_0).contains(chain[0].issuer)
            &&& grant::is_within_ceiling(tenuo_api::ceiling_of(guard->Ok_0), chain)
        }),
{
}

// ------------------------------------------------------------------- the key as text

/// The number that a hex digit of either case stands for, or none.
pub open spec fn hex_number(c: char) -> Option<int> {
    if '0' <= c <= '9' {
        Some(c as int - '0' as int)
    } else if 'a' <= c <= 'f' {
        Some(10 + (c as int - 'a' as int))
    } else if 'A' <= c <= 'F' {
        Some(10 + (c as int - 'A' as int))
    } else {
        None
    }
}

/// Whether text spells bytes: two hex digits for each, the high one first.
pub open spec fn spells(text: Seq<char>, bytes: Seq<u8>) -> bool {
    &&& text.len() == 2 * bytes.len()
    &&& forall|i: int|
        0 <= i < bytes.len() ==> {
            &&& hex_number(text[2 * i]) matches Some(high)
            &&& hex_number(text[2 * i + 1]) matches Some(low)
            &&& #[trigger] bytes[i] == 16 * high + low
        }
}

/// A digit of the written key is of lower case and stands for its number.
proof fn lemma_hex_digit(d: nat)
    requires
        d < 16,
    ensures
        hex_number(root_key::hex_digit(d)) == Some(d as int),
        !('A' <= root_key::hex_digit(d) <= 'F'),
{
    reveal_strlit("0123456789abcdef");
}

/// The two digits of one byte of the written key.
proof fn lemma_hex_pair(bytes: Seq<u8>, i: int)
    requires
        0 <= i < bytes.len(),
    ensures
        hex_number(root_key::hex_text(bytes)[2 * i]) == Some((bytes[i] / 16) as int),
        hex_number(root_key::hex_text(bytes)[2 * i + 1]) == Some((bytes[i] % 16) as int),
        !('A' <= root_key::hex_text(bytes)[2 * i] <= 'F'),
        !('A' <= root_key::hex_text(bytes)[2 * i + 1] <= 'F'),
{
    lemma_hex_digit((bytes[i] / 16) as nat);
    lemma_hex_digit((bytes[i] % 16) as nat);
    assert((2 * i) / 2 == i && (2 * i) % 2 == 0);
    assert((2 * i + 1) / 2 == i && (2 * i + 1) % 2 == 1);
}

/// Bytes that are written in hex are spelled, in lower case.
proof fn lemma_hex_spells(bytes: Seq<u8>)
    ensures
        spells(root_key::hex_text(bytes), bytes),
        forall|i: int|
            0 <= i < root_key::hex_text(bytes).len() ==> !('A' <= #[trigger] root_key::hex_text(
                bytes,
            )[i] <= 'F'),
{
    let text = root_key::hex_text(bytes);
    assert forall|i: int| 0 <= i < text.len() implies !('A' <= #[trigger] text[i] <= 'F') by {
        lemma_hex_pair(bytes, i / 2);
        assert(i == 2 * (i / 2) || i == 2 * (i / 2) + 1);
    }
    assert(spells(text, bytes)) by {
        assert forall|i: int| 0 <= i < bytes.len() implies {
            &&& hex_number(text[2 * i]) matches Some(high)
            &&& hex_number(text[2 * i + 1]) matches Some(low)
            &&& #[trigger] bytes[i] == 16 * high + low
        } by {
            lemma_hex_pair(bytes, i);
        }
    }
}

/// Text spells at most one list of bytes.
proof fn lemma_spelling_is_unique(text: Seq<char>, bytes: Seq<u8>, other: Seq<u8>)
    requires
        spells(text, bytes),
        spells(text, other),
    ensures
        bytes == other,
{
    assert forall|i: int| 0 <= i < bytes.len() implies bytes[i] == other[i] by {
        let high = hex_number(text[2 * i])->Some_0;
        let low = hex_number(text[2 * i + 1])->Some_0;
        assert(bytes[i] == 16 * high + low);
        assert(other[i] == 16 * high + low);
    }
    assert(bytes =~= other);
}

/// The root key is written in hex of lower case, two digits for each byte.
pub proof fn law_root_keys_are_spelled(key: &PublicKey, r: String)
    requires
        call_ensures(root_key::root_key_text, (key,), r),
    ensures
        spells(r@, tenuo_api::key_bytes(*key)),
        forall|i: int| 0 <= i < r@.len() ==> !('A' <= #[trigger] r@[i] <= 'F'),
{
    lemma_hex_spells(tenuo_api::key_bytes(*key));
}

/// Hex spells the bytes that are read from it.
proof fn lemma_hex_bytes(text: Seq<char>)
    requires
        root_key::is_hex(text),
    ensures
        spells(text, root_key::hex_bytes(text)),
{
    let bytes = root_key::hex_bytes(text);
    assert forall|i: int| 0 <= i < bytes.len() implies {
        &&& hex_number(text[2 * i]) matches Some(high)
        &&& hex_number(text[2 * i + 1]) matches Some(low)
        &&& #[trigger] bytes[i] == 16 * high + low
    } by {
        assert(root_key::hex_value(text[2 * i]) is Some);
        assert(root_key::hex_value(text[2 * i + 1]) is Some);
    }
}

/// What is spelled is hex.
proof fn lemma_spelled_is_hex(text: Seq<char>, bytes: Seq<u8>)
    requires
        spells(text, bytes),
    ensures
        root_key::is_hex(text),
        root_key::hex_bytes(text) == bytes,
{
    assert forall|i: int| 0 <= i < text.len() implies root_key::hex_value(
        #[trigger] text[i],
    ) is Some by {
        let b = bytes[i / 2];
        assert(i == 2 * (i / 2) || i == 2 * (i / 2) + 1);
    }
    lemma_hex_bytes(text);
    lemma_spelling_is_unique(text, bytes, root_key::hex_bytes(text));
}

/// A root key is read exactly from text that spells 32 bytes which are a key, and is that
/// key. Text that spells nothing, that spells another number of bytes, and bytes that are
/// no key are each refused as such.
pub proof fn law_root_keys_are_read(text: &str, r: Result<PublicKey, RootKeyError>)
    requires
        call_ensures(root_key::parse_root_key, (text,), r),
    ensures
        r is Ok <==> exists|bytes: Seq<u8>| #[trigger]
            spells(text@, bytes) && bytes.len() == 32 && tenuo_api::key_fault(bytes) is None,
        r matches Ok(key) ==> spells(text@, tenuo_api::key_bytes(key)),
        r matches Err(RootKeyError::Hex(_)) ==> forall|bytes: Seq<u8>| !#[trigger]
            spells(text@, bytes),
        r matches Err(RootKeyError::Length) ==> exists|bytes: Seq<u8>| #[trigger]
            spells(text@, bytes) && bytes.len() != 32,
        r matches Err(RootKeyError::Key(reason)) ==> exists|bytes: Seq<u8>| #[trigger]
            spells(text@, bytes) && bytes.len() == 32 && tenuo_api::key_fault(bytes) == Some(
                reason@,
            ),
{
    if root_key::is_hex(text@) {
        lemma_hex_bytes(text@);
    }
    assert forall|bytes: Seq<u8>| #[trigger] spells(text@, bytes) implies root_key::is_hex(text@)
        && root_key::hex_bytes(text@) == bytes by {
        lemma_spelled_is_hex(text@, bytes);
    }
}

/// A root key that is written is read back as itself.
pub proof fn law_root_keys_read_back(
    key: &PublicKey,
    written: String,
    text: &str,
    r: Result<PublicKey, RootKeyError>,
)
    requires
        call_ensures(root_key::root_key_text, (key,), written),
        text@ == written@,
        call_ensures(root_key::parse_root_key, (text,), r),
        tenuo_api::key_bytes(*key).len() == 32,
        tenuo_api::key_fault(tenuo_api::key_bytes(*key)) is None,
    ensures
        r is Ok,
        tenuo_api::key_bytes(r->Ok_0) == tenuo_api::key_bytes(*key),
{
    law_root_keys_are_spelled(key, written);
    law_root_keys_are_read(text, r);
    lemma_spelled_is_hex(text@, tenuo_api::key_bytes(*key));
}

/// What an operator reads of text that is no root key.
pub proof fn law_root_key_errors_read(error: &RootKeyError, r: String)
    requires
        call_ensures(RootKeyError::to_text, (error,), r),
    ensures
        r@ == match *error {
            RootKeyError::Hex(reason) => reason@,
            RootKeyError::Length => "root key must be 32 bytes"@,
            RootKeyError::Key(reason) => reason@,
        },
{
}

}
