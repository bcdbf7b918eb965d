//! The parts of `tenuo` that this crate calls: keys, constraints, warrants,
//! guards and the MCP envelope.

use crate::grant;
use crate::json;
use crate::root_key;
use serde_json::Value;
use std::time::Duration;
use tenuo::sdk::prelude::{
    AuthorizedCall, Call, ConstraintSet, DecisionMetadata, DelegationError, DelegationProfile,
    DenialReporting, Guard, GuardError, Pattern, PresentedAuthority, PublicKey,
    ReceivedAuthorization, RevocationMode, Signature, SigningKey, Tenuo, Warrant,
};
use tenuo::sdk::transport::mcp_meta;
use tenuo::sdk::OwnedReceivedAuthorization;
use tenuo::{Constraint, Exact, Range, WarrantBuilder, Wildcard};
use vstd::prelude::*;

verus! {

// ------------------------------------------------------------------- types

/// The outside type `tenuo::SigningKey`. Its public half is [`public_half`].
#[verifier::external_type_specification]
#[verifier::external_body]
pub struct ExSigningKey(SigningKey);

/// The outside type `tenuo::PublicKey`. Its bytes are [`key_bytes`].
#[verifier::external_type_specification]
#[verifier::external_body]
pub struct ExPublicKey(PublicKey);

/// The outside type `tenuo::Signature`. Its bytes are [`signature_of`].
#[verifier::external_type_specification]
#[verifier::external_body]
pub struct ExSignature(Signature);

/// The outside type `tenuo::Constraint`. What it demands is [`limit_of`].
#[verifier::external_type_specification]
#[verifier::external_body]
pub struct ExConstraint(Constraint);

/// The outside type `tenuo::ConstraintSet`. What it holds is [`fields_of`].
#[verifier::external_type_specification]
#[verifier::external_body]
pub struct ExConstraintSet(ConstraintSet);

/// The outside type `tenuo::WarrantBuilder`. What it holds is [`builder_of`].
#[verifier::external_type_specification]
#[verifier::external_body]
pub struct ExWarrantBuilder(WarrantBuilder);

/// The outside type `tenuo::Warrant`. What it says is [`warrant_of`].
#[verifier::external_type_specification]
#[verifier::external_body]
pub struct ExWarrant(Warrant);

/// The outside type `tenuo::sdk::DelegationProfile`. What it holds is
/// [`profile_of`].
#[verifier::external_type_specification]
#[verifier::external_body]
pub struct ExDelegationProfile(DelegationProfile);

/// The outside type `tenuo::sdk::Guard`. The roots it trusts are [`roots_of`].
#[verifier::external_type_specification]
#[verifier::external_body]
pub struct ExGuard(Guard);

/// The outside type `tenuo::sdk::PresentedAuthority`. The warrants it presents
/// are [`chain_of`].
#[verifier::external_type_specification]
#[verifier::external_body]
pub struct ExPresentedAuthority(PresentedAuthority);

/// The outside type `tenuo::sdk::OwnedReceivedAuthorization`. The warrants it
/// holds are [`decoded_chain_of`].
#[verifier::external_type_specification]
#[verifier::external_body]
pub struct ExOwnedReceivedAuthorization(OwnedReceivedAuthorization);

/// The outside type `tenuo::sdk::ReceivedAuthorization`. The warrants it shows
/// are [`received_chain_of`].
#[verifier::external_type_specification]
#[verifier::external_body]
pub struct ExReceivedAuthorization<'a>(ReceivedAuthorization<'a>);

/// The outside type `tenuo::sdk::Call`. What it asks for is [`call_of`].
#[verifier::external_type_specification]
#[verifier::external_body]
pub struct ExCall<'a>(Call<'a>);

/// The outside type `tenuo::sdk::AuthorizedCall`. What was authorized is
/// [`authorized_of`].
#[verifier::external_type_specification]
#[verifier::external_body]
pub struct ExAuthorizedCall<'a>(AuthorizedCall<'a>);

/// The outside type `tenuo::sdk::DecisionMetadata`. What it records is
/// [`decision_of`].
#[verifier::external_type_specification]
#[verifier::external_body]
pub struct ExDecisionMetadata(DecisionMetadata);

// ------------------------------------------------------------------- models

/// What a warrant builder has been told.
pub ghost struct BuilderModel {
    pub grants: Map<Seq<char>, grant::Fields>,
    pub holder: Option<Seq<u8>>,
    pub ttl: Option<nat>,
    /// Whether it has been told nothing else.
    pub plain: bool,
}

/// What a delegation profile has been told.
pub ghost struct ProfileModel {
    pub grants: Map<Seq<char>, grant::Fields>,
    pub ttl: Option<nat>,
    pub max_depth: Option<nat>,
    pub terminal: bool,
}

/// One call: the capability, the arguments that are held against a warrant, and
/// those that are signed for. The last two differ only where a transport extracts a
/// view of its own.
pub ghost struct CallModel {
    pub capability: Seq<char>,
    pub args: Map<Seq<char>, json::Json>,
    pub signed: Map<Seq<char>, json::Json>,
}

/// A call that a guard has let through, with the chain that allowed it, the proof
/// that came with it, and how many approvals did.
pub ghost struct AuthorizedModel {
    pub call: CallModel,
    pub chain: Seq<grant::WarrantModel>,
    pub proof_bytes: Seq<u8>,
    pub approvals: nat,
}

/// The record of a decision.
pub ghost struct DecisionModel {
    pub capability: Seq<char>,
    pub chain_depth: nat,
}

/// The public half of a signing key, as its bytes.
pub uninterp spec fn public_half(key: SigningKey) -> Seq<u8>;

/// The bytes of a public key.
pub uninterp spec fn key_bytes(key: PublicKey) -> Seq<u8>;

/// What a constraint demands. A range is read as a bound only where it has no
/// minimum and its inclusive maximum is a whole number of 32 bits; a range of any
/// other shape, and an exact value that is no text, is a demand of another kind.
pub uninterp spec fn limit_of(constraint: Constraint) -> grant::Limit;

/// The demands that a constraint set holds.
pub uninterp spec fn fields_of(set: ConstraintSet) -> grant::Fields;

/// What a warrant builder holds.
pub uninterp spec fn builder_of(builder: WarrantBuilder) -> BuilderModel;

/// What a warrant says.
pub uninterp spec fn warrant_of(warrant: Warrant) -> grant::WarrantModel;

/// What a delegation profile holds.
pub uninterp spec fn profile_of(profile: DelegationProfile) -> ProfileModel;

/// Why 32 bytes are no public key, if they are none.
pub uninterp spec fn key_fault(bytes: Seq<u8>) -> Option<Seq<char>>;

/// The bytes of a signature.
pub uninterp spec fn signature_of(signature: Signature) -> Seq<u8>;

/// Whether a signature is the proof of a key over a call under a warrant, named by
/// its identifier, at some moment.
pub uninterp spec fn is_proof(
    signature: Seq<u8>,
    warrant_id: Seq<u8>,
    holder: Seq<u8>,
    call: CallModel,
) -> bool;

/// The longest lifetime, in seconds, that a guard accepts of a warrant, where
/// lifetimes are all that it goes by.
pub uninterp spec fn ceiling_of(guard: Guard) -> Option<nat>;

/// How a guard reports its denials.
pub uninterp spec fn reporting_of(guard: Guard) -> Reporting;

/// The root keys that a guard trusts.
pub uninterp spec fn roots_of(guard: Guard) -> Set<Seq<u8>>;

/// The warrants that an authority presents, root first.
pub uninterp spec fn chain_of(authority: PresentedAuthority) -> Seq<grant::WarrantModel>;

/// The warrants of a decoded envelope, root first.
pub uninterp spec fn decoded_chain_of(
    received: OwnedReceivedAuthorization,
) -> Seq<grant::WarrantModel>;

/// The proof of a decoded envelope.
pub uninterp spec fn decoded_proof_of(received: OwnedReceivedAuthorization) -> Seq<u8>;

/// The proof that a received authorization shows.
pub uninterp spec fn received_proof_of(received: ReceivedAuthorization) -> Seq<u8>;

/// The warrants that a received authorization shows, root first.
pub uninterp spec fn received_chain_of(
    received: ReceivedAuthorization,
) -> Seq<grant::WarrantModel>;

/// What a call asks for.
pub uninterp spec fn call_of(call: Call) -> CallModel;

/// What a guard authorized.
pub uninterp spec fn authorized_of(call: AuthorizedCall) -> AuthorizedModel;

/// What a decision records.
pub uninterp spec fn decision_of(decision: DecisionMetadata) -> DecisionModel;

/// Why a JSON value cannot be the arguments of a call, if it cannot.
pub uninterp spec fn argument_fault(capability: Seq<char>, args: json::Json) -> Option<Seq<char>>;

/// Whether the chain of an MCP envelope is written as one warrant outside a list. Such
/// an envelope decodes or not depending on the clock.
pub uninterp spec fn is_lone(envelope: json::Json) -> bool;

/// The chain that an MCP envelope decodes to, or the reason why it does not.
pub uninterp spec fn decoded(envelope: json::Json) -> Result<Seq<grant::WarrantModel>, Seq<char>>;

/// The proof that an MCP envelope decodes to, where it does.
pub uninterp spec fn decoded_proof(envelope: json::Json) -> Seq<u8>;

/// What each warrant of a list says.
pub open spec fn warrants_of(chain: Seq<Warrant>) -> Seq<grant::WarrantModel> {
    chain.map_values(|w: Warrant| warrant_of(w))
}

/// Whether an envelope holds a chain, as a list: where the chain can be sent it decodes,
/// and where the chain says what was signed and the envelope decodes, it decodes to that
/// chain.
pub open spec fn envelope_holds(envelope: json::Json, chain: Seq<grant::WarrantModel>) -> bool {
    &&& !is_lone(envelope)
    &&& grant::is_sendable(chain) ==> decoded(envelope) is Ok
    &&& grant::is_as_signed(chain) ==> (decoded(envelope) matches Ok(found) ==> found == chain)
}

/// Whether an envelope holds a proof: where it decodes, it decodes to that proof.
pub open spec fn envelope_proves(envelope: json::Json, signature: Seq<u8>) -> bool {
    decoded(envelope) is Ok ==> decoded_proof(envelope) == signature
}

/// Whether a signature is the proof of the holder of a chain's last warrant over a
/// call under it.
pub open spec fn is_holders_proof(
    signature: Seq<u8>,
    chain: Seq<grant::WarrantModel>,
    call: CallModel,
) -> bool {
    is_proof(signature, chain.last().id, chain.last().holder, call)
}

/// What holds of what a guard hands to an operation: this call under this chain,
/// with the holder's proof over it and no approvals.
pub open spec fn is_authorized_as(
    authorized: AuthorizedModel,
    call: CallModel,
    chain: Seq<grant::WarrantModel>,
) -> bool {
    &&& authorized.call == call
    &&& authorized.chain == chain
    &&& authorized.approvals == 0
    &&& is_holders_proof(authorized.proof_bytes, chain, call)
}

/// The longest lifetime that a warrant may have, in seconds: ninety days.
pub const MAX_TTL_SECS: u64 = 7_776_000;

/// The depth that a warrant's chain may reach where nothing else is said.
pub const DEFAULT_MAX_DEPTH: u32 = 64;

/// A JSON scalar that any call may carry: text of at most 2048 characters, and
/// no number outside `i64`.
pub open spec fn is_small_scalar(value: json::Json) -> bool {
    match value {
        json::Json::Null => true,
        json::Json::Bool(_) => true,
        json::Json::Integer(_) => true,
        json::Json::Text(text) => text.len() <= 2048,
        _ => false,
    }
}

/// A JSON object that is sure to make arguments: at most 256 members, short
/// keys, and small scalars.
pub open spec fn is_small_object(value: json::Json) -> bool {
    &&& value matches json::Json::Object(entries)
    &&& entries.dom().finite()
    &&& entries.dom().len() <= 256
    &&& forall|key: Seq<char>| #[trigger]
        entries.contains_key(key) ==> key.len() <= 2048 && is_small_scalar(entries[key])
}

/// Whether the depth below a chain's root can be counted. A root at the greatest
/// depth of all has no next one.
pub open spec fn is_countable(chain: Seq<grant::WarrantModel>) -> bool {
    chain[0].depth < u32::MAX
}

/// What holds of every chain that a guard has verified: it is not empty, its
/// root was signed by a trusted key, and each warrant is a proper link.
pub open spec fn is_verified(roots: Set<Seq<u8>>, chain: Seq<grant::WarrantModel>) -> bool {
    &&& chain.len() > 0
    &&& roots.contains(chain[0].issuer)
    &&& grant::is_linked(chain)
}

/// What holds of every call that a guard has let through: the chain is
/// verified, and its last warrant allows the call.
pub open spec fn is_permitted(
    roots: Set<Seq<u8>>,
    chain: Seq<grant::WarrantModel>,
    call: CallModel,
) -> bool {
    &&& is_verified(roots, chain)
    &&& grant::allows(chain.last(), call.capability, call.args)
}

/// What holds of every warrant minted below a parent from a profile. It lasts as long
/// as the profile says, cut by its parent's expiry alone.
pub open spec fn is_minted(
    parent: grant::WarrantModel,
    profile: ProfileModel,
    child: grant::WarrantModel,
) -> bool {
    &&& parent.execution
    &&& grant::links(parent, child)
    &&& grant::grants_narrow(parent, child)
    &&& child.grants == profile.grants
    &&& child.as_signed
    &&& parent.legible && parent.as_signed && key_fault(child.holder) is None && grant::is_plain(
        profile.grants,
    ) ==> child.legible
    &&& parent.bare ==> child.bare && grant::is_sized(child)
    &&& child.holder != parent.holder
    &&& child.expires_at <= parent.expires_at
    &&& profile.ttl matches Some(ttl) ==> child.lifetime == ttl || (child.lifetime <= ttl
        && child.expires_at == parent.expires_at)
    &&& profile.ttl is None ==> child.expires_at == parent.expires_at
    &&& profile.terminal ==> child.max_depth == child.depth
    &&& !profile.terminal ==> (profile.max_depth matches Some(depth) ==> child.max_depth == depth)
}

/// Whether a builder stays within the limits of a root warrant: some capabilities
/// and not too many, not too many demands under each, all of kinds that do not
/// nest, and a lifetime that is not too long.
pub open spec fn is_buildable(builder: BuilderModel) -> bool {
    &&& builder.plain
    &&& builder.grants.dom().finite()
    &&& 0 < builder.grants.dom().len() <= 256
    &&& forall|tool: Seq<char>| #[trigger]
        builder.grants.contains_key(tool) ==> is_within_limits(builder.grants[tool])
    &&& builder.ttl matches Some(ttl) ==> ttl <= MAX_TTL_SECS
}

/// Whether the demands of one capability are not too many, and none nests.
pub open spec fn is_within_limits(fields: grant::Fields) -> bool {
    &&& fields.limits.dom().finite()
    &&& fields.limits.dom().len() <= 64
    &&& forall|f: Seq<char>| #[trigger]
        fields.limits.contains_key(f) ==> !(fields.limits[f] is Other)
}

/// How a guard reports its denials on the standard error stream.
pub enum Reporting {
    /// As errors.
    Error,
    /// As warnings.
    Warn,
    /// Not at all.
    Debug,
}

/// Why a guarded operation gave no value.
pub enum GuardFault<E> {
    /// The guard denied the call, and the operation did not run.
    Denied { code: String, message: String },
    /// The guard allowed the call, and the operation failed.
    Operation(E),
    /// The guard gave no such answer: a failure of a kind that `tenuo` has not
    /// named, or a chain that it is not asked about.
    Other,
}

/// Whether a guarded operation ran, and so whether the guard allowed the call.
pub open spec fn operation_ran<T, E>(r: Result<(T, DecisionMetadata), GuardFault<E>>) -> bool {
    match r {
        Ok(_) => true,
        Err(GuardFault::Operation(_)) => true,
        Err(_) => false,
    }
}

/// Why no child could be minted.
pub enum DelegationFault {
    /// The guard refused the parent under current policy.
    Denied { code: String, message: String },
    /// The child would not be narrower than the parent.
    Core { code: String, message: String },
    /// Anything else: an empty profile, a signer, or a malformed authority.
    Other(String),
}

// ------------------------------------------------------------------- keys

/// `SigningKey::generate`: a fresh random key. Its public half has 32 bytes and is a
/// key of good order: a multiple of the base point by a clamped scalar, which no
/// multiple of the group's order is. Which bytes they are is chance.
#[verifier::external_body]
pub(crate) fn generate_key() -> (r: SigningKey)
    ensures
        public_half(r).len() == 32,
        key_fault(public_half(r)) is None,
{
    SigningKey::generate()
}

/// `SigningKey::public_key`: the public half of the key.
#[verifier::external_body]
pub(crate) fn public_key(key: &SigningKey) -> (r: PublicKey)
    ensures
        key_bytes(r) == public_half(*key),
{
    key.public_key()
}

/// `PublicKey::clone`: the same key.
#[verifier::external_body]
pub(crate) fn clone_key(key: &PublicKey) -> (r: PublicKey)
    ensures
        key_bytes(r) == key_bytes(*key),
{
    key.clone()
}

/// `PublicKey::to_bytes`: the 32 bytes of the key.
#[verifier::external_body]
pub(crate) fn public_key_bytes(key: &PublicKey) -> (r: [u8; 32])
    ensures
        r@ == key_bytes(*key),
{
    key.to_bytes()
}

/// `PublicKey::from_bytes`, with the text of its error: whether bytes are a key, and
/// what is said of those that are none, depends on them alone; a key has these
/// bytes.
#[verifier::external_body]
pub(crate) fn public_key_from_bytes(bytes: &[u8; 32]) -> (r: Result<PublicKey, String>)
    ensures
        match r {
            Ok(key) => key_fault(bytes@) is None && key_bytes(key) == bytes@,
            Err(text) => key_fault(bytes@) == Some(text@),
        },
{
    PublicKey::from_bytes(bytes).map_err(|e| e.to_string())
}

/// `PublicKey::fingerprint`: the first eight bytes in lower-case hex.
#[verifier::external_body]
pub(crate) fn fingerprint(key: &PublicKey) -> (r: String)
    ensures
        r@.len() == 16,
        r@ == root_key::hex_text(key_bytes(*key).take(8)),
{
    key.fingerprint()
}

// ------------------------------------------------------------------- constraints

/// `Exact::new` on text: only this text will do.
#[verifier::external_body]
pub(crate) fn exact_constraint(text: &str) -> (r: Constraint)
    ensures
        limit_of(r) == grant::Limit::Exact(text@),
{
    Exact::new(text).into()
}

/// `Pattern::new`: a pattern that is plain text and a final `*` is valid, and
/// demands that text as a prefix. Other patterns are left unsaid.
#[verifier::external_body]
pub(crate) fn pattern_constraint(pattern: &str) -> (r: Result<Constraint, String>)
    ensures
        grant::is_prefix_pattern(pattern@) ==> r is Ok,
        grant::is_prefix_pattern(pattern@) ==> limit_of(r->Ok_0) == grant::Limit::Prefix(
            pattern@.drop_last(),
        ),
{
    Pattern::new(pattern).map(Constraint::from).map_err(|e| e.to_string())
}

/// `Range::max` on a whole number: numbers up to and including it will do.
#[verifier::external_body]
pub(crate) fn at_most_constraint(max: u32) -> (r: Result<Constraint, String>)
    ensures
        r is Ok,
        limit_of(r->Ok_0) == grant::Limit::AtMost(max as nat),
{
    Range::max(max.into()).map(Constraint::from).map_err(|e| e.to_string())
}

/// `Wildcard::new`: any value will do.
#[verifier::external_body]
pub(crate) fn any_constraint() -> (r: Constraint)
    ensures
        limit_of(r) == grant::Limit::Any,
{
    Wildcard::new().into()
}

/// `ConstraintSet::new`: no demands, and closed once it has one.
#[verifier::external_body]
pub(crate) fn new_constraints() -> (r: ConstraintSet)
    ensures
        fields_of(r) == grant::closed_fields(Map::empty()),
{
    ConstraintSet::new()
}

/// `ConstraintSet::insert`: the demand on this argument is now this one.
#[verifier::external_body]
pub(crate) fn insert_constraint(set: &mut ConstraintSet, field: &str, constraint: Constraint)
    ensures
        fields_of(*final(set)) == (grant::Fields {
            limits: fields_of(*old(set)).limits.insert(field@, limit_of(constraint)),
            open: fields_of(*old(set)).open,
        }),
{
    set.insert(field, constraint);
}

// ------------------------------------------------------------------- root warrants

/// `Warrant::builder`: a builder that has been told nothing.
#[verifier::external_body]
pub(crate) fn warrant_builder() -> (r: WarrantBuilder)
    ensures
        builder_of(r) == (BuilderModel {
            grants: Map::empty(),
            holder: None,
            ttl: None,
            plain: true,
        }),
{
    Warrant::builder()
}

/// `WarrantBuilder::capability`: the tool is granted under these demands. Names
/// that begin with `tenuo:` are reserved and left out.
#[verifier::external_body]
pub(crate) fn builder_capability(builder: WarrantBuilder, tool: &str, set: ConstraintSet) -> (r:
    WarrantBuilder)
    requires
        !"tenuo:"@.is_prefix_of(tool@),
    ensures
        builder_of(r) == (BuilderModel {
            grants: builder_of(builder).grants.insert(tool@, fields_of(set)),
            ..builder_of(builder)
        }),
{
    builder.capability(tool, set)
}

/// `WarrantBuilder::holder`: the warrant is bound to this key.
#[verifier::external_body]
pub(crate) fn builder_holder(builder: WarrantBuilder, holder: PublicKey) -> (r: WarrantBuilder)
    ensures
        builder_of(r) == (BuilderModel { holder: Some(key_bytes(holder)), ..builder_of(builder) }),
{
    builder.holder(holder)
}

/// `WarrantBuilder::ttl`: the warrant lasts this many seconds.
#[verifier::external_body]
pub(crate) fn builder_ttl(builder: WarrantBuilder, secs: u64) -> (r: WarrantBuilder)
    requires
        secs <= MAX_TTL_SECS,
    ensures
        builder_of(r) == (BuilderModel { ttl: Some(secs as nat), ..builder_of(builder) }),
{
    builder.ttl(Duration::from_secs(secs))
}

/// `WarrantBuilder::build`: it succeeds for a builder within the limits, since the
/// limits are all that it checks and writing to memory does not fail. A warrant that
/// is built grants what the builder was told, for as long, to the holder it names,
/// at depth zero, signed by `root`, and holds nothing else, so that its grants bound
/// how many bytes it takes; where both keys are of good order it can be read back. What it says of a builder beyond the limits is
/// left unsaid, and builders that were told anything else are left out.
#[verifier::external_body]
pub(crate) fn build_warrant(builder: WarrantBuilder, root: &SigningKey) -> (r: Result<
    Warrant,
    String,
>)
    requires
        builder_of(builder).plain,
    ensures
        is_buildable(builder_of(builder)) ==> r is Ok,
        r matches Ok(warrant) ==> {
            let w = warrant_of(warrant);
            &&& w.grants == builder_of(builder).grants
            &&& w.execution
            &&& w.depth == 0
            &&& w.max_depth == DEFAULT_MAX_DEPTH
            &&& builder_of(builder).ttl matches Some(ttl) ==> w.lifetime == ttl
            &&& builder_of(builder).holder matches Some(holder) ==> w.holder == holder
            &&& w.issuer == public_half(*root)
            &&& w.as_signed
            &&& is_buildable(builder_of(builder)) && key_fault(w.holder) is None && key_fault(
                w.issuer,
            ) is None ==> w.legible
            &&& w.bare
            &&& grant::is_sized(w)
        },
{
    builder.build(root).map_err(|e| e.to_string())
}

// ------------------------------------------------------------------- guards

/// `Tenuo::local` with one trusted root, a chain, its signer, a lifetime ceiling as
/// the only revocation and a way of reporting: it succeeds exactly where the chain
/// is not empty and the signer holds its last warrant; the guard then trusts this
/// root alone, goes by this ceiling and reports this way, and the authority presents
/// this chain.
#[allow(deprecated)]
#[verifier::external_body]
pub(crate) fn local_guard(
    root: PublicKey,
    chain: Vec<Warrant>,
    signer: SigningKey,
    ceiling: u64,
    reporting: Reporting,
) -> (r: Result<(Guard, PresentedAuthority), String>)
    ensures
        (r is Ok) == (chain@.len() > 0 && warrant_of(chain@.last()).holder == public_half(signer)),
        r matches Ok(pair) ==> roots_of(pair.0) == Set::<Seq<u8>>::empty().insert(key_bytes(root)),
        r matches Ok(pair) ==> ceiling_of(pair.0) == Some(ceiling as nat),
        r matches Ok(pair) ==> reporting_of(pair.0) == reporting,
        r matches Ok(pair) ==> chain_of(pair.1) == warrants_of(chain@),
{
    let level = match reporting {
        Reporting::Error => DenialReporting::Error,
        Reporting::Warn => DenialReporting::Warn,
        Reporting::Debug => DenialReporting::Debug,
    };
    let mode = RevocationMode::TtlOnly { max_lifetime: Duration::from_secs(ceiling) };
    let builder = Tenuo::local().trusted_root(root).chain(chain).signer(signer).revocation(mode);
    builder.denial_reporting(level).build().map_err(|e| e.to_string())
}

/// `Tenuo::enforcement` with one trusted root, a lifetime ceiling as the only
/// revocation and a way of reporting: it succeeds, and the guard trusts this root
/// alone, goes by this ceiling and reports this way.
#[verifier::external_body]
pub(crate) fn enforcement_guard(root: PublicKey, ceiling: u64, reporting: Reporting) -> (r: Result<
    Guard,
    String,
>)
    ensures
        r is Ok,
        roots_of(r->Ok_0) == Set::<Seq<u8>>::empty().insert(key_bytes(root)),
        ceiling_of(r->Ok_0) == Some(ceiling as nat),
        reporting_of(r->Ok_0) == reporting,
{
    let level = match reporting {
        Reporting::Error => DenialReporting::Error,
        Reporting::Warn => DenialReporting::Warn,
        Reporting::Debug => DenialReporting::Debug,
    };
    let mode = RevocationMode::TtlOnly { max_lifetime: Duration::from_secs(ceiling) };
    let builder = Tenuo::enforcement().trusted_root(root).revocation(mode);
    builder.denial_reporting(level).build().map_err(|e| e.to_string())
}

/// `PresentedAuthority::chain` and its length: how many warrants are presented.
#[verifier::external_body]
pub(crate) fn chain_length(authority: &PresentedAuthority) -> (r: usize)
    ensures
        r == chain_of(*authority).len(),
        r > 0,
{
    authority.chain().len()
}

/// `PresentedAuthority::chain` and the depth of its root.
#[verifier::external_body]
pub(crate) fn root_depth(authority: &PresentedAuthority) -> (r: u32)
    ensures
        r == chain_of(*authority)[0].depth,
{
    authority.chain()[0].depth()
}

/// `PresentedAuthority::holder`: the key that holds the last warrant.
#[verifier::external_body]
pub(crate) fn authority_holder(authority: &PresentedAuthority) -> (r: PublicKey)
    ensures
        key_bytes(r) == chain_of(*authority).last().holder,
{
    authority.holder().clone()
}

/// `Call::try_from_json`, with the `Debug` text of its error: whether a JSON
/// value makes arguments depends on it and on the capability alone; the call
/// then asks for this capability with the members of the object, and signs for the
/// same. A value that
/// is no object is refused as `NotAnObject`, and a small object of scalars under
/// a named capability is accepted.
#[verifier::external_body]
pub(crate) fn call_from_json(capability: &str, value: &Value) -> (r: Result<Call<'static>, String>)
    ensures
        match r {
            Ok(call) => argument_fault(capability@, json::json_of(*value)) is None && call_of(call)
                == (CallModel {
                capability: capability@,
                args: json::json_of(*value)->Object_0,
                signed: json::json_of(*value)->Object_0,
            }),
            Err(text) => argument_fault(capability@, json::json_of(*value)) == Some(text@),
        },
        r is Ok ==> json::json_of(*value) is Object,
        !(json::json_of(*value) is Object) ==> r->Err_0@ == "NotAnObject"@,
        capability@.len() > 0 && is_small_object(json::json_of(*value)) ==> r is Ok,
{
    Call::try_from_json(capability, value).map_err(|e| format!("{e:?}"))
}

/// `Guard::guard`: the operation runs once, and only where the guard allows the
/// call; its outcome is then the outcome. An allowed call is permitted by the
/// chain that was presented, none of whose warrants outlasts the guard's ceiling; the
/// operation is handed the holder's proof over it, and the decision records its
/// capability and the length of the chain. When an allowed call is denied all the same (an expired
/// warrant, a revoked one, a failing signer) is left unsaid: it depends on the
/// clock. A chain whose depths cannot be counted is left out.
#[verifier::external_body]
pub(crate) fn guard_call<T, E, F: FnOnce(&AuthorizedCall<'_>) -> Result<T, E>>(
    guard: &Guard,
    authority: &PresentedAuthority,
    call: &Call<'_>,
    op: F,
) -> (r: Result<(T, DecisionMetadata), GuardFault<E>>)
    requires
        chain_of(*authority).len() > 1 ==> is_countable(chain_of(*authority)),
        forall|a: &AuthorizedCall<'_>|
            is_authorized_as(authorized_of(*a), call_of(*call), chain_of(*authority))
                ==> op.requires((a,)),
    ensures
        operation_ran(r) ==> is_permitted(
            roots_of(*guard),
            chain_of(*authority),
            call_of(*call),
        ),
        operation_ran(r) ==> grant::is_within_ceiling(ceiling_of(*guard), chain_of(*authority)),
        r matches Ok(pair) ==> exists|a: &AuthorizedCall<'_>| #[trigger]
            op.ensures((a,), Ok(pair.0)) && is_authorized_as(
                authorized_of(*a),
                call_of(*call),
                chain_of(*authority),
            ),
        r matches Ok(pair) ==> decision_of(pair.1) == (DecisionModel {
            capability: call_of(*call).capability,
            chain_depth: chain_of(*authority).len(),
        }),
        r matches Err(GuardFault::Operation(e)) ==> exists|a: &AuthorizedCall<'_>| #[trigger]
            op.ensures((a,), Err(e)) && is_authorized_as(
                authorized_of(*a),
                call_of(*call),
                chain_of(*authority),
            ),
{
    match guard.guard(authority, call, op) {
        Ok(guarded) => Ok((guarded.value, guarded.decision.metadata)),
        Err(GuardError::Denied(denial)) => Err(GuardFault::Denied {
            code: denial.code().to_owned(),
            message: denial.message().to_owned(),
        }),
        Err(GuardError::Operation(error)) => Err(GuardFault::Operation(error)),
        Err(_) => Err(GuardFault::Other),
    }
}

// ------------------------------------------------------------------- delegation

/// `DelegationProfile::new`: a profile that grants nothing.
#[verifier::external_body]
pub(crate) fn new_profile() -> (r: DelegationProfile)
    ensures
        profile_of(r) == (ProfileModel {
            grants: Map::empty(),
            ttl: None,
            max_depth: None,
            terminal: false,
        }),
{
    DelegationProfile::new()
}

/// `DelegationProfile::capability`: the tool is granted under these demands.
#[verifier::external_body]
pub(crate) fn profile_capability(profile: DelegationProfile, tool: &str, set: ConstraintSet) -> (r:
    DelegationProfile)
    ensures
        profile_of(r) == (ProfileModel {
            grants: profile_of(profile).grants.insert(tool@, fields_of(set)),
            ..profile_of(profile)
        }),
{
    profile.capability(tool, set)
}

/// `DelegationProfile::ttl`: the child lasts at most this many seconds.
#[verifier::external_body]
pub(crate) fn profile_ttl(profile: DelegationProfile, secs: u64) -> (r: DelegationProfile)
    requires
        secs <= MAX_TTL_SECS,
    ensures
        profile_of(r) == (ProfileModel { ttl: Some(secs as nat), ..profile_of(profile) }),
{
    profile.ttl(Duration::from_secs(secs))
}

/// `DelegationProfile::max_depth`: how deep warrants below the child may go.
#[verifier::external_body]
pub(crate) fn profile_max_depth(profile: DelegationProfile, depth: u32) -> (r: DelegationProfile)
    ensures
        profile_of(r) == (ProfileModel { max_depth: Some(depth as nat), ..profile_of(profile) }),
{
    profile.max_depth(depth)
}

/// `DelegationProfile::terminal`: the child cannot delegate.
#[verifier::external_body]
pub(crate) fn profile_terminal(profile: DelegationProfile) -> (r: DelegationProfile)
    ensures
        profile_of(r) == (ProfileModel { terminal: true, ..profile_of(profile) }),
{
    profile.terminal()
}

/// `Guard::delegate`: a child that is minted presents the parent's chain, which
/// the guard has verified and held to its ceiling, and one more warrant, minted from
/// the profile for a fresh holder, whose key is of good order. When a narrower child is refused all the same is left unsaid:
/// it depends on the clock and the signer. A chain whose depths cannot be counted
/// is left out.
#[verifier::external_body]
pub(crate) fn delegate(
    guard: &Guard,
    parent: &PresentedAuthority,
    profile: &DelegationProfile,
) -> (r: Result<PresentedAuthority, DelegationFault>)
    requires
        is_countable(chain_of(*parent)),
    ensures
        r is Ok ==> is_verified(roots_of(*guard), chain_of(*parent)),
        r is Ok ==> grant::is_within_ceiling(ceiling_of(*guard), chain_of(*parent)),
        r matches Ok(child) ==> chain_of(child) == chain_of(*parent).push(chain_of(child).last()),
        r matches Ok(child) ==> is_minted(
            chain_of(*parent).last(),
            profile_of(*profile),
            chain_of(child).last(),
        ),
        r matches Ok(child) ==> key_fault(chain_of(child).last().holder) is None,
{
    match guard.delegate(parent, profile) {
        Ok(child) => Ok(child),
        Err(DelegationError::Denied(denial)) => Err(DelegationFault::Denied {
            code: denial.code().to_owned(),
            message: denial.message().to_owned(),
        }),
        Err(DelegationError::Core(error)) => Err(DelegationFault::Core {
            code: error.code().name().to_owned(),
            message: error.to_string(),
        }),
        Err(other) => Err(DelegationFault::Other(other.to_string())),
    }
}

/// `Guard::delegate_to`: as `Guard::delegate`, for the holder of a given key,
/// and the chain alone comes back.
#[verifier::external_body]
pub(crate) fn delegate_to(
    guard: &Guard,
    parent: &PresentedAuthority,
    holder: &PublicKey,
    profile: &DelegationProfile,
) -> (r: Result<Vec<Warrant>, DelegationFault>)
    requires
        is_countable(chain_of(*parent)),
    ensures
        r is Ok ==> is_verified(roots_of(*guard), chain_of(*parent)),
        r is Ok ==> grant::is_within_ceiling(ceiling_of(*guard), chain_of(*parent)),
        r matches Ok(chain) ==> warrants_of(chain@) == chain_of(*parent).push(
            warrants_of(chain@).last(),
        ),
        r matches Ok(chain) ==> is_minted(
            chain_of(*parent).last(),
            profile_of(*profile),
            warrants_of(chain@).last(),
        ),
        r matches Ok(chain) ==> warrants_of(chain@).last().holder == key_bytes(*holder),
{
    match guard.delegate_to(parent, holder, profile) {
        Ok(chain) => Ok(chain),
        Err(DelegationError::Denied(denial)) => Err(DelegationFault::Denied {
            code: denial.code().to_owned(),
            message: denial.message().to_owned(),
        }),
        Err(DelegationError::Core(error)) => Err(DelegationFault::Core {
            code: error.code().name().to_owned(),
            message: error.to_string(),
        }),
        Err(other) => Err(DelegationFault::Other(other.to_string())),
    }
}

// ------------------------------------------------------------------- MCP envelope

/// `mcp_meta::encode_meta_from_authorized`, with the `Debug` text of its error:
/// the envelope carries the proof that came with the call, and decodes to that one
/// where it decodes. Without approvals it always succeeds: nothing is checked, and
/// writing to memory does not fail. It then carries what was signed of the chain that
/// authorized the call: it decodes where the chain can be sent, and to that chain where
/// the chain says what was signed. With approvals, which this crate has none of, the
/// rest is left unsaid.
#[verifier::external_body]
pub(crate) fn encode_authorized(call: &AuthorizedCall<'_>) -> (r: Result<Value, String>)
    ensures
        authorized_of(*call).approvals == 0 ==> r is Ok,
        authorized_of(*call).approvals == 0 ==> envelope_holds(
            json::json_of(r->Ok_0),
            authorized_of(*call).chain,
        ),
        r matches Ok(envelope) ==> envelope_proves(
            json::json_of(envelope),
            authorized_of(*call).proof_bytes,
        ),
{
    mcp_meta::encode_meta_from_authorized(call).map_err(|e| format!("{e:?}"))
}

/// `mcp_meta::encode_meta` with no approvals: the envelope carries what was signed
/// of this chain and this proof. It decodes where the chain can be sent, to this proof
/// where it decodes, and to this chain where that says what was signed. It always
/// succeeds:
/// without approvals nothing is checked, and writing to memory does not fail.
#[verifier::external_body]
pub(crate) fn encode_chain(chain: &Vec<Warrant>, proof_of_call: &Signature) -> (r: Result<
    Value,
    String,
>)
    ensures
        r is Ok,
        r matches Ok(envelope) ==> envelope_holds(json::json_of(envelope), warrants_of(chain@)),
        r matches Ok(envelope) ==> envelope_proves(
            json::json_of(envelope),
            signature_of(*proof_of_call),
        ),
{
    mcp_meta::encode_meta(chain, proof_of_call, &[]).map_err(|e| format!("{e:?}"))
}

/// `Warrant::sign`: the proof of this key over this call under this warrant, made now.
/// It always succeeds: nothing is checked, and writing to memory does not fail. Which
/// bytes it has changes with the clock, and is left unsaid.
#[verifier::external_body]
pub(crate) fn sign_call(warrant: &Warrant, key: &SigningKey, call: &Call<'_>) -> (r: Result<
    Signature,
    String,
>)
    ensures
        r is Ok,
        r matches Ok(made) ==> is_proof(
            signature_of(made),
            warrant_of(*warrant).id,
            public_half(*key),
            call_of(*call),
        ),
{
    warrant.sign(key, call.capability(), call.args()).map_err(|e| e.to_string())
}

/// `mcp_meta::decode_meta`, with the `Debug` text of its error: what an envelope
/// decodes to, chain and proof, depends on it alone; the chain is never empty, says
/// what was signed, and was read back. Where the chain is a list, whether and why it
/// does not decode depends on the envelope alone too. When one warrant outside a list
/// is refused is left unsaid: a date ahead of the clock is a reason.
#[verifier::external_body]
pub(crate) fn decode_envelope(envelope: &Value) -> (r: Result<OwnedReceivedAuthorization, String>)
    ensures
        !is_lone(json::json_of(*envelope)) ==> match r {
            Ok(_) => decoded(json::json_of(*envelope)) is Ok,
            Err(text) => decoded(json::json_of(*envelope)) == Err::<
                Seq<grant::WarrantModel>,
                Seq<char>,
            >(text@),
        },
        r is Ok ==> decoded(json::json_of(*envelope)) is Ok,
        r matches Ok(received) ==> decoded(json::json_of(*envelope))->Ok_0 == decoded_chain_of(
            received,
        ),
        r matches Ok(received) ==> decoded_proof_of(received) == decoded_proof(
            json::json_of(*envelope),
        ),
        r matches Ok(received) ==> decoded_chain_of(received).len() > 0,
        r matches Ok(received) ==> grant::is_as_signed(decoded_chain_of(received)),
        r matches Ok(received) ==> grant::is_legible(decoded_chain_of(received)),
{
    mcp_meta::decode_meta(envelope).map_err(|e| format!("{e:?}"))
}

/// `OwnedReceivedAuthorization::as_received`: the same chain and proof, refused
/// exactly where the chain is empty.
#[verifier::external_body]
pub(crate) fn as_received<'a>(received: &'a OwnedReceivedAuthorization) -> (r: Result<
    ReceivedAuthorization<'a>,
    String,
>)
    ensures
        r is Ok <==> decoded_chain_of(*received).len() > 0,
        r matches Ok(borrowed) ==> received_chain_of(borrowed) == decoded_chain_of(*received),
        r matches Ok(borrowed) ==> received_proof_of(borrowed) == decoded_proof_of(*received),
{
    received.as_received().map_err(|e| e.to_string())
}

/// `ReceivedAuthorization::chain` and its length.
#[verifier::external_body]
pub(crate) fn received_length(received: &ReceivedAuthorization<'_>) -> (r: usize)
    ensures
        r == received_chain_of(*received).len(),
{
    received.chain().len()
}

/// `ReceivedAuthorization::chain` and the depth of its root.
#[verifier::external_body]
pub(crate) fn received_root_depth(received: &ReceivedAuthorization<'_>) -> (r: u32)
    requires
        received_chain_of(*received).len() > 0,
    ensures
        r == received_chain_of(*received)[0].depth,
{
    received.chain()[0].depth()
}

/// `ReceivedAuthorization::leaf` and its holder: the key that the last warrant
/// is bound to.
#[verifier::external_body]
pub(crate) fn received_holder(received: &ReceivedAuthorization<'_>) -> (r: PublicKey)
    requires
        received_chain_of(*received).len() > 0,
    ensures
        key_bytes(r) == received_chain_of(*received).last().holder,
{
    received.leaf().authorized_holder().clone()
}

/// `Guard::guard_received`: as `Guard::guard`, over a chain and a proof that came
/// with a request. The proof of an allowed call is the last holder's over it.
#[verifier::external_body]
pub(crate) fn guard_received<T, E, F: FnOnce(&AuthorizedCall<'_>) -> Result<T, E>>(
    guard: &Guard,
    received: &ReceivedAuthorization<'_>,
    call: &Call<'_>,
    op: F,
) -> (r: Result<(T, DecisionMetadata), GuardFault<E>>)
    requires
        received_chain_of(*received).len() > 1 ==> is_countable(received_chain_of(*received)),
        forall|a: &AuthorizedCall<'_>| op.requires((a,)),
    ensures
        operation_ran(r) ==> is_permitted(
            roots_of(*guard),
            received_chain_of(*received),
            call_of(*call),
        ),
        operation_ran(r) ==> is_holders_proof(
            received_proof_of(*received),
            received_chain_of(*received),
            call_of(*call),
        ),
        operation_ran(r) ==> grant::is_within_ceiling(
            ceiling_of(*guard),
            received_chain_of(*received),
        ),
        r matches Ok(pair) ==> exists|a: &AuthorizedCall<'_>| #[trigger]
            op.ensures((a,), Ok(pair.0)),
        r matches Ok(pair) ==> decision_of(pair.1) == (DecisionModel {
            capability: call_of(*call).capability,
            chain_depth: received_chain_of(*received).len(),
        }),
        r matches Err(GuardFault::Operation(e)) ==> exists|a: &AuthorizedCall<'_>| #[trigger]
            op.ensures((a,), Err(e)),
{
    match guard.guard_received(received, call, op) {
        Ok(guarded) => Ok((guarded.value, guarded.decision.metadata)),
        Err(GuardError::Denied(denial)) => Err(GuardFault::Denied {
            code: denial.code().to_owned(),
            message: denial.message().to_owned(),
        }),
        Err(GuardError::Operation(error)) => Err(GuardFault::Operation(error)),
        Err(_) => Err(GuardFault::Other),
    }
}

}
