//! The control plane: it holds the root key and mints the orchestrator's
//! warrant.
//!
//! An agent process gets a minted warrant and its own key, never the root key;
//! an enforcement point gets the public half of the root key and nothing else.

use crate::authority;
use crate::authority::RunAuthority;
use crate::constraints;
use crate::grant;
use crate::tenuo_api;
use crate::tenuo_api::Reporting;
use std::sync::Arc;
use tenuo::sdk::prelude::{Guard, PresentedAuthority, PublicKey, SigningKey, Warrant};
use vstd::prelude::*;

verus! {

/// How many replicas the orchestrator may scale to.
pub const MAX_REPLICAS: u32 = 10;

/// How long the orchestrator's warrant lasts, in seconds.
pub const ORCHESTRATOR_TTL_SECS: u64 = 600;

/// The longest lifetime that an enforcement point accepts, in seconds.
pub const MAX_LIFETIME_SECS: u64 = 3600;

/// The service that mints warrants.
pub struct ControlPlane {
    root: SigningKey,
}

/// What the orchestrator may do: scale staging clusters to at most ten replicas,
/// read any incident, and hand out any incident and any step of one.
pub open spec fn orchestrator_grants() -> Map<Seq<char>, grant::Fields> {
    Map::empty().insert("scale_cluster"@, constraints::scale_fields(MAX_REPLICAS as nat)).insert(
        "read_incident"@,
        grant::one_field("incident_id"@, constraints::any_incident()),
    ).insert(
        "delegate_incident"@,
        grant::one_field("incident_id"@, constraints::any_incident()),
    ).insert(
        "delegate_subtask"@,
        grant::two_fields(
            "incident_id"@,
            constraints::any_incident(),
            "scope"@,
            grant::Limit::Any,
        ),
    )
}

/// Whether a warrant is the orchestrator's, signed by this root for this holder. Where
/// both keys are of good order, another process can read it. It holds nothing else, so
/// that its grants bound how many bytes it takes.
pub open spec fn is_orchestrator_warrant(
    warrant: grant::WarrantModel,
    root: Seq<u8>,
    holder: Seq<u8>,
) -> bool {
    &&& warrant.grants == orchestrator_grants()
    &&& warrant.execution
    &&& warrant.depth == 0
    &&& warrant.max_depth == tenuo_api::DEFAULT_MAX_DEPTH
    &&& warrant.lifetime == ORCHESTRATOR_TTL_SECS
    &&& warrant.holder == holder
    &&& warrant.issuer == root
    &&& warrant.as_signed
    &&& tenuo_api::key_fault(holder) is None && tenuo_api::key_fault(root) is None
        ==> warrant.legible
    &&& warrant.bare
    &&& grant::is_sized(warrant)
}

/// None of the tools has a reserved name.
proof fn lemma_tool_names()
    ensures
        !"tenuo:"@.is_prefix_of("scale_cluster"@),
        !"tenuo:"@.is_prefix_of("read_incident"@),
        !"tenuo:"@.is_prefix_of("delegate_incident"@),
        !"tenuo:"@.is_prefix_of("delegate_subtask"@),
{
    reveal_strlit("tenuo:");
    reveal_strlit("scale_cluster");
    reveal_strlit("read_incident");
    reveal_strlit("delegate_incident");
    reveal_strlit("delegate_subtask");
    assert("tenuo:"@[0] != "scale_cluster"@.take(6)[0]);
    assert("tenuo:"@[0] != "read_incident"@.take(6)[0]);
    assert("tenuo:"@[0] != "delegate_incident"@.take(6)[0]);
    assert("tenuo:"@[0] != "delegate_subtask"@.take(6)[0]);
}

/// What the orchestrator may do stays within the limits of a root warrant.
proof fn lemma_orchestrator_limits()
    ensures
        orchestrator_grants().dom().finite(),
        0 < orchestrator_grants().dom().len() <= 256,
        forall|tool: Seq<char>| #[trigger]
            orchestrator_grants().contains_key(tool) ==> tenuo_api::is_within_limits(
                orchestrator_grants()[tool],
            ),
{
    let grants = orchestrator_grants();
    assert(grants.dom() =~= Set::<Seq<char>>::empty().insert("scale_cluster"@).insert(
        "read_incident"@,
    ).insert("delegate_incident"@).insert("delegate_subtask"@));
    assert forall|tool: Seq<char>| #[trigger]
        grants.contains_key(tool) implies tenuo_api::is_within_limits(grants[tool]) by {
        let names = grants[tool].limits.dom();
        assert(names =~= Set::<Seq<char>>::empty().insert("incident_id"@) || names
            =~= Set::<Seq<char>>::empty().insert("incident_id"@).insert("scope"@) || names
            =~= Set::<Seq<char>>::empty().insert("cluster"@).insert("replicas"@));
    }
}

/// Whether a key is one that was drawn at random.
pub closed spec fn is_drawn(key: SigningKey) -> bool {
    call_ensures(tenuo_api::generate_key, (), key)
}

/// A key that was drawn is one that the guard library generated.
pub(crate) proof fn law_drawn_keys_are_generated(key: SigningKey)
    requires
        is_drawn(key),
    ensures
        call_ensures(tenuo_api::generate_key, (), key),
{
}

impl ControlPlane {
    /// Whether the root key was drawn at random.
    pub closed spec fn is_fresh(&self) -> bool {
        is_drawn(self.root)
    }

    /// The public half of the root key.
    pub closed spec fn root_bytes(&self) -> Seq<u8> {
        tenuo_api::public_half(self.root)
    }

    /// The root of a fresh control plane is the public half of a key that was drawn.
    pub proof fn law_fresh_root_is_drawn(&self)
        requires
            self.is_fresh(),
        ensures
            exists|key: SigningKey| #[trigger]
                is_drawn(key) && self.root_bytes() == tenuo_api::public_half(key),
    {
    }

    /// Starts with a fresh root key, whose public half an enforcement point takes: it is
    /// as long as every key's, and of good order.
    pub fn start() -> (r: Self)
        ensures
            r.is_fresh(),
            r.root_bytes().len() == 32,
            tenuo_api::key_fault(r.root_bytes()) is None,
    {
        ControlPlane { root: tenuo_api::generate_key() }
    }

    /// What enforcement points are given.
    pub fn root_public_key(&self) -> (r: PublicKey)
        ensures
            tenuo_api::key_bytes(r) == self.root_bytes(),
    {
        tenuo_api::public_key(&self.root)
    }

    /// Mints the orchestrator's warrant for one on-call shift.
    pub fn mint_orchestrator_warrant(&self, holder: &PublicKey) -> (r: Result<Warrant, String>)
        ensures
            r is Ok,
            is_orchestrator_warrant(
                tenuo_api::warrant_of(r->Ok_0),
                self.root_bytes(),
                tenuo_api::key_bytes(*holder),
            ),
    {
        proof {
            lemma_tool_names();
            lemma_orchestrator_limits();
        }
        let scale = match constraints::staging_scale(MAX_REPLICAS) {
            Ok(set) => set,
            Err(text) => return Err(text),
        };
        let read = match constraints::incident_pattern() {
            Ok(set) => set,
            Err(text) => return Err(text),
        };
        let hand_out = match constraints::incident_pattern() {
            Ok(set) => set,
            Err(text) => return Err(text),
        };
        let step = match constraints::incident_pattern() {
            Ok(set) => constraints::with_any_scope(set),
            Err(text) => return Err(text),
        };
        let builder = tenuo_api::warrant_builder();
        let builder = tenuo_api::builder_capability(builder, "scale_cluster", scale);
        let builder = tenuo_api::builder_capability(builder, "read_incident", read);
        let builder = tenuo_api::builder_capability(builder, "delegate_incident", hand_out);
        let builder = tenuo_api::builder_capability(builder, "delegate_subtask", step);
        let builder = tenuo_api::builder_holder(builder, tenuo_api::clone_key(holder));
        let builder = tenuo_api::builder_ttl(builder, ORCHESTRATOR_TTL_SECS);
        tenuo_api::build_warrant(builder, &self.root)
    }
}

/// A fresh key for an agent, whose public half is as long as every key's, and of good
/// order.
pub fn new_agent_key() -> (r: SigningKey)
    ensures
        is_drawn(r),
        tenuo_api::public_half(r).len() == 32,
        tenuo_api::key_fault(tenuo_api::public_half(r)) is None,
{
    tenuo_api::generate_key()
}

/// The public half of an agent's key.
pub fn agent_public_key(key: &SigningKey) -> (r: PublicKey)
    ensures
        tenuo_api::key_bytes(r) == tenuo_api::public_half(*key),
{
    tenuo_api::public_key(key)
}

/// Whether the guard library, asked for a guard of this root and for the authority of a
/// chain under this key, gave this answer.
spec fn asked_to_build(
    root: PublicKey,
    chain: Vec<Warrant>,
    key: SigningKey,
    outcome: Result<(Guard, PresentedAuthority), String>,
) -> bool {
    call_ensures(
        tenuo_api::local_guard,
        (root, chain, key, MAX_LIFETIME_SECS, Reporting::Debug),
        outcome,
    )
}

/// Whether this is an answer that the guard library itself gave: asked for a guard of this
/// root and for the authority of this one warrant under this key.
pub closed spec fn was_built(
    root: PublicKey,
    warrant: Warrant,
    key: SigningKey,
    outcome: Result<(Guard, PresentedAuthority), String>,
) -> bool {
    exists|chain: Vec<Warrant>| #[trigger]
        asked_to_build(root, chain, key, outcome) && chain@ == seq![warrant]
}

/// A guard that was built came of asking for it, with this root, a chain of this warrant
/// and this key, the ceiling of an hour and the quiet way of reporting.
pub(crate) proof fn law_guards_come_of_asking(
    root: PublicKey,
    warrant: Warrant,
    key: SigningKey,
    outcome: Result<(Guard, PresentedAuthority), String>,
)
    requires
        was_built(root, warrant, key, outcome),
    ensures
        exists|chain: Vec<Warrant>|
            #![trigger call_ensures(
                tenuo_api::local_guard,
                (root, chain, key, 3600u64, Reporting::Debug),
                outcome,
            )]
            chain@ == seq![warrant] && call_ensures(
                tenuo_api::local_guard,
                (root, chain, key, 3600u64, Reporting::Debug),
                outcome,
            ),
{
    let chain = choose|chain: Vec<Warrant>| #[trigger]
        asked_to_build(root, chain, key, outcome) && chain@ == seq![warrant];
    assert(call_ensures(
        tenuo_api::local_guard,
        (root, chain, key, 3600u64, Reporting::Debug),
        outcome,
    ));
}

/// The orchestrator's authority: a guard that trusts the root alone, accepts lifetimes
/// of up to an hour and leaves the reporting of denials to the tools, and a chain of
/// the one warrant. It is refused exactly where the key is not the warrant's
/// holder.
pub fn orchestrator_authority(root: PublicKey, warrant: Warrant, key: SigningKey) -> (r: Result<
    RunAuthority,
    String,
>)
    ensures
        r is Ok <==> tenuo_api::warrant_of(warrant).holder == tenuo_api::public_half(key),
        r matches Ok(run) ==> run.model() == (authority::RunModel {
            roots: Set::empty().insert(tenuo_api::key_bytes(root)),
            ceiling: Some(MAX_LIFETIME_SECS as nat),
            reporting: Reporting::Debug,
            chain: seq![tenuo_api::warrant_of(warrant)],
            agent: "orchestrator"@,
        }),
        match r {
            Ok(run) => was_built(root, warrant, key, Ok((*run.guard, *run.authority))),
            Err(reason) => was_built(root, warrant, key, Err(reason)),
        },
{
    let chain: Vec<Warrant> = vec![warrant];
    let ghost asked = chain;
    proof {
        assert(chain@ =~= seq![warrant]);
        assert(tenuo_api::warrants_of(chain@) =~= seq![tenuo_api::warrant_of(warrant)]);
    }
    let outcome = tenuo_api::local_guard(
        root,
        chain,
        key,
        MAX_LIFETIME_SECS,
        Reporting::Debug,
    );
    assert(asked_to_build(root, asked, key, outcome));
    match outcome {
        Ok((guard, presented)) => Ok(
            RunAuthority {
                guard: Arc::new(guard),
                authority: Arc::new(presented),
                agent: "orchestrator".to_owned(),
            },
        ),
        Err(text) => Err(text),
    }
}

/// The guard of an enforcement point: it trusts this root and nothing else, accepts
/// lifetimes of up to an hour, and leaves the reporting of denials to the server.
pub fn enforcement_point(root: PublicKey) -> (r: Result<Guard, String>)
    ensures
        r is Ok,
        tenuo_api::roots_of(r->Ok_0) == Set::<Seq<u8>>::empty().insert(tenuo_api::key_bytes(root)),
        tenuo_api::ceiling_of(r->Ok_0) == Some(MAX_LIFETIME_SECS as nat),
        tenuo_api::reporting_of(r->Ok_0) == Reporting::Debug,
{
    tenuo_api::enforcement_guard(root, MAX_LIFETIME_SECS, Reporting::Debug)
}

}
