//! What a warrant grants, when a grant allows a call, and when one warrant
//! narrows another.

use crate::json::Json;
use vstd::prelude::*;

verus! {

/// What a constraint demands of one argument.
pub ghost enum Limit {
    /// Any value will do.
    Any,
    /// The text must be exactly this one.
    Exact(Seq<char>),
    /// The text must begin with this prefix: the pattern is the prefix and a `*`.
    Prefix(Seq<char>),
    /// The number must not exceed this one.
    AtMost(nat),
    /// A demand of another kind, which this crate never writes.
    Other,
}

/// The demands that one capability makes of its arguments.
pub ghost struct Fields {
    /// The demand on each named argument, all of which must be given.
    pub limits: Map<Seq<char>, Limit>,
    /// Whether arguments without a demand are let through.
    pub open: bool,
}

/// What a warrant says.
pub ghost struct WarrantModel {
    /// The identifier that proofs under it are made for.
    pub id: Seq<u8>,
    /// The demands of each capability that is granted.
    pub grants: Map<Seq<char>, Fields>,
    /// Whether it authorizes calls, rather than issuing other warrants.
    pub execution: bool,
    /// How many delegations lie between it and its root.
    pub depth: nat,
    /// The greatest depth that warrants below it may have.
    pub max_depth: nat,
    /// The seconds from its issue to its expiry.
    pub lifetime: nat,
    /// Its expiry, in seconds since the epoch.
    pub expires_at: nat,
    /// The public key that may use it.
    pub holder: Seq<u8>,
    /// The public key that signed it.
    pub issuer: Seq<u8>,
    /// Whether all this is what was signed, and so what another process reads.
    pub as_signed: bool,
    /// Whether what was signed reads back as a warrant under its signature.
    pub legible: bool,
    /// How many bytes were signed.
    pub size: nat,
    /// Whether it holds nothing beyond this and its parent's hash: no approvers, no
    /// clearance, no names of sessions or agents, no extensions.
    pub bare: bool,
}

/// Demands on named arguments, and no other argument allowed.
pub open spec fn closed_fields(limits: Map<Seq<char>, Limit>) -> Fields {
    Fields { limits, open: false }
}

/// Demands on one argument, and no other argument allowed.
pub open spec fn one_field(field: Seq<char>, limit: Limit) -> Fields {
    closed_fields(Map::empty().insert(field, limit))
}

/// Demands on two arguments, and no other argument allowed.
pub open spec fn two_fields(first: Seq<char>, limit: Limit, second: Seq<char>, other: Limit) -> Fields {
    closed_fields(Map::empty().insert(first, limit).insert(second, other))
}

/// Whether a pattern is plain text followed by one `*`.
pub open spec fn is_prefix_pattern(pattern: Seq<char>) -> bool {
    &&& pattern.len() > 0
    &&& pattern.last() == '*'
    &&& forall|i: int|
        0 <= i < pattern.len() - 1 ==> pattern[i] != '*' && pattern[i] != '?' && pattern[i] != '['
}

/// Whether a value meets a demand. Where the demand is of another kind, or a
/// bound is held against a number that is no integer, the answer is yes: these
/// are left undecided.
pub open spec fn meets(limit: Limit, value: Json) -> bool {
    match limit {
        Limit::Any => true,
        Limit::Exact(text) => value == Json::Text(text),
        Limit::Prefix(prefix) => value matches Json::Text(text) && prefix.is_prefix_of(text),
        Limit::AtMost(max) => match value {
            Json::Integer(i) => i <= max,
            Json::Number(_) => true,
            _ => false,
        },
        Limit::Other => true,
    }
}

/// Whether arguments meet all demands: each named argument is there and meets
/// its own, and where there are demands and the rest is closed, nothing else is
/// there.
pub open spec fn satisfied(fields: Fields, args: Map<Seq<char>, Json>) -> bool {
    &&& forall|f: Seq<char>| #[trigger]
        fields.limits.contains_key(f) ==> args.contains_key(f) && meets(fields.limits[f], args[f])
    &&& (fields.limits.dom() != Set::<Seq<char>>::empty() && !fields.open) ==> forall|f: Seq<char>|
        #[trigger] args.contains_key(f) ==> fields.limits.contains_key(f)
}

/// The demands that a warrant makes of a capability: those under its name, or
/// else those under `*`.
pub open spec fn grant_for(warrant: WarrantModel, capability: Seq<char>) -> Option<Fields> {
    if warrant.grants.contains_key(capability) {
        Some(warrant.grants[capability])
    } else if warrant.grants.contains_key("*"@) {
        Some(warrant.grants["*"@])
    } else {
        None
    }
}

/// Whether a warrant lets a capability be called with these arguments.
pub open spec fn allows(
    warrant: WarrantModel,
    capability: Seq<char>,
    args: Map<Seq<char>, Json>,
) -> bool {
    grant_for(warrant, capability) matches Some(fields) && satisfied(fields, args)
}

/// Whether one demand may stand in place of another further down a chain.
pub open spec fn narrows(parent: Limit, child: Limit) -> bool {
    match (parent, child) {
        (Limit::Any, _) => true,
        (_, Limit::Any) => false,
        (Limit::Other, _) => true,
        (_, Limit::Other) => true,
        (Limit::Exact(a), Limit::Exact(b)) => a == b,
        (Limit::Prefix(a), Limit::Exact(b)) => a.is_prefix_of(b),
        (Limit::Prefix(a), Limit::Prefix(b)) => a.is_prefix_of(b),
        (Limit::AtMost(a), Limit::AtMost(b)) => b <= a,
        _ => false,
    }
}

/// Whether the demands of a child narrow those of its parent: the same
/// arguments, unless the parent named none, and each demand narrower.
pub open spec fn fields_narrow(parent: Fields, child: Fields) -> bool {
    &&& child.open ==> parent.open
    &&& forall|f: Seq<char>| #[trigger]
        parent.limits.contains_key(f) ==> child.limits.contains_key(f) && narrows(
            parent.limits[f],
            child.limits[f],
        )
    &&& parent.limits.dom() != Set::<Seq<char>>::empty() ==> forall|f: Seq<char>| #[trigger]
        child.limits.contains_key(f) ==> parent.limits.contains_key(f)
}

/// Whether each capability of a child is one of its parent's, with narrower
/// demands.
pub open spec fn grants_narrow(parent: WarrantModel, child: WarrantModel) -> bool {
    forall|tool: Seq<char>| #[trigger]
        child.grants.contains_key(tool) ==> (grant_for(parent, tool) matches Some(fields)
            && fields_narrow(fields, child.grants[tool]))
}

/// Whether a warrant is a proper next link below another: signed by the
/// parent's holder, one deeper, within the depth that the parent allows, and no
/// wider.
pub open spec fn links(parent: WarrantModel, child: WarrantModel) -> bool {
    &&& child.issuer == parent.holder
    &&& child.depth == parent.depth + 1
    &&& child.depth <= child.max_depth <= parent.max_depth
    &&& parent.execution ==> child.execution
    &&& parent.execution && parent.grants.dom() != Set::<Seq<char>>::empty() ==> grants_narrow(
        parent,
        child,
    )
}

/// Whether every warrant of a chain is a proper next link below the one before.
pub open spec fn is_linked(chain: Seq<WarrantModel>) -> bool {
    forall|i: int| 0 <= i < chain.len() - 1 ==> #[trigger] links(chain[i], chain[i + 1])
}

/// Whether every warrant of a chain lasts no longer than a ceiling, where there is
/// one.
pub open spec fn is_within_ceiling(ceiling: Option<nat>, chain: Seq<WarrantModel>) -> bool {
    ceiling matches Some(max) ==> forall|i: int|
        0 <= i < chain.len() ==> (#[trigger] chain[i]).lifetime <= max
}

/// Whether every warrant of a chain still says what was signed.
pub open spec fn is_as_signed(chain: Seq<WarrantModel>) -> bool {
    forall|i: int| 0 <= i < chain.len() ==> (#[trigger] chain[i]).as_signed
}

/// Whether another process can read every warrant of a chain.
pub open spec fn is_legible(chain: Seq<WarrantModel>) -> bool {
    forall|i: int| 0 <= i < chain.len() ==> (#[trigger] chain[i]).legible
}

/// How many bytes the warrants of a chain take at most when they are written one
/// after another, each with its signature.
pub open spec fn written_size(chain: Seq<WarrantModel>) -> nat
    decreases chain.len(),
{
    if chain.len() == 0 {
        16
    } else {
        written_size(chain.drop_last()) + chain.last().size + 80
    }
}

/// Whether a chain is sure to be read back: it is not empty, another process can
/// read each warrant, and together they are not too long.
pub open spec fn is_sendable(chain: Seq<WarrantModel>) -> bool {
    chain.len() > 0 && is_legible(chain) && written_size(chain) <= 49_152
}

/// Whether no demand among these grants is of another kind.
pub open spec fn is_plain(grants: Map<Seq<char>, Fields>) -> bool {
    forall|tool: Seq<char>, f: Seq<char>|
        #![trigger grants[tool].limits[f]]
        grants.contains_key(tool) && grants[tool].limits.contains_key(f)
            ==> !(grants[tool].limits[f] is Other)
}

/// Whether a demand is of a kind that this crate writes, with at most so many
/// characters.
pub open spec fn is_short_limit(limit: Limit, length: nat) -> bool {
    match limit {
        Limit::Exact(text) => text.len() <= length,
        Limit::Prefix(text) => text.len() <= length,
        Limit::Other => false,
        _ => true,
    }
}

/// Whether there are at most so many capabilities, with at most so many demands each,
/// and no name or text in them has more than so many characters.
pub open spec fn is_short(
    grants: Map<Seq<char>, Fields>,
    tools: nat,
    fields: nat,
    length: nat,
) -> bool {
    &&& grants.dom().finite()
    &&& grants.dom().len() <= tools
    &&& forall|tool: Seq<char>| #[trigger]
        grants.contains_key(tool) ==> tool.len() <= length && has_short_fields(
            grants[tool],
            fields,
            length,
        )
}

/// Whether there are at most so many demands, and no name or text in them has more than
/// so many characters.
pub open spec fn has_short_fields(demands: Fields, fields: nat, length: nat) -> bool {
    &&& demands.limits.dom().finite()
    &&& demands.limits.dom().len() <= fields
    &&& forall|f: Seq<char>| #[trigger]
        demands.limits.contains_key(f) ==> f.len() <= length && is_short_limit(
            demands.limits[f],
            length,
        )
}

/// How many bytes a bare warrant takes at most whose grants are short: four for a
/// character, and some for what surrounds names, texts and bounds.
pub open spec fn bare_size(tools: nat, fields: nat, length: nat) -> nat {
    512 + tools * (80 + 4 * length + fields * (80 + 8 * length))
}

/// Whether the size of a warrant is bounded by its grants.
pub open spec fn is_sized(warrant: WarrantModel) -> bool {
    forall|tools: nat, fields: nat, length: nat| #[trigger]
        is_short(warrant.grants, tools, fields, length) ==> warrant.size <= bare_size(
            tools,
            fields,
            length,
        )
}

/// Whether a warrant cannot be delegated further.
pub open spec fn is_terminal(warrant: WarrantModel) -> bool {
    warrant.depth >= warrant.max_depth
}

/// Whether every demand of a warrant is of a kind that [`meets`] decides.
pub open spec fn is_decided(warrant: WarrantModel) -> bool {
    is_plain(warrant.grants)
}

/// Whether a child grants a capability under its name wherever its parent does.
pub open spec fn names_alike(
    parent: WarrantModel,
    child: WarrantModel,
    capability: Seq<char>,
) -> bool {
    parent.grants.contains_key(capability) ==> child.grants.contains_key(capability)
}

/// A narrower demand is met by fewer values.
pub proof fn lemma_meets_narrows(parent: Limit, child: Limit, value: Json)
    requires
        narrows(parent, child),
        !(child is Other),
        meets(child, value),
    ensures
        meets(parent, value),
{
    match (parent, child) {
        (Limit::Prefix(a), Limit::Prefix(b)) => {
            let text = value->Text_0;
            assert(a =~= text.take(a.len() as int)) by {
                assert(b =~= text.take(b.len() as int));
                assert(a =~= b.take(a.len() as int));
            }
        },
        _ => {},
    }
}

/// Delegated authority can only shrink: a call that a warrant allows is allowed
/// by every warrant that it narrows. The one exception is a capability that the
/// parent names and the child grants through `*` alone.
pub proof fn law_narrower_warrant_allows_less(
    parent: WarrantModel,
    child: WarrantModel,
    capability: Seq<char>,
    args: Map<Seq<char>, Json>,
)
    requires
        grants_narrow(parent, child),
        is_decided(child),
        names_alike(parent, child, capability),
        allows(child, capability, args),
    ensures
        allows(parent, capability, args),
{
    let tool = if child.grants.contains_key(capability) {
        capability
    } else {
        "*"@
    };
    assert(child.grants.contains_key(tool));
    let below = child.grants[tool];
    let above = grant_for(parent, tool)->Some_0;
    assert(grant_for(parent, capability) == Some(above));
    assert forall|f: Seq<char>| #[trigger] above.limits.contains_key(f) implies args.contains_key(f)
        && meets(above.limits[f], args[f]) by {
        assert(below.limits.contains_key(f));
        lemma_meets_narrows(above.limits[f], below.limits[f], args[f]);
    }
    if above.limits.dom() != Set::<Seq<char>>::empty() && !above.open {
        assert(below.limits.dom() != Set::<Seq<char>>::empty()) by {
            let f = choose|f: Seq<char>| above.limits.dom().contains(f);
            assert(exists|f: Seq<char>| above.limits.dom().contains(f)) by {
                if forall|f: Seq<char>| !above.limits.dom().contains(f) {
                    assert(above.limits.dom() =~= Set::empty());
                }
            }
            assert(below.limits.contains_key(f));
            assert(below.limits.dom().contains(f));
        }
    }
}

/// Authority shrinks along a whole chain: what the last warrant of a linked
/// chain of execution warrants allows, every warrant before it allows too. Left out
/// are warrants that grant nothing, which bind no child, and a capability that
/// some parent names and its child grants through `*` alone.
pub proof fn law_chain_allows_less_at_every_link(
    chain: Seq<WarrantModel>,
    capability: Seq<char>,
    args: Map<Seq<char>, Json>,
)
    requires
        chain.len() > 0,
        is_linked(chain),
        forall|i: int|
            0 <= i < chain.len() ==> (#[trigger] chain[i]).execution && is_decided(chain[i])
                && chain[i].grants.dom() != Set::<Seq<char>>::empty(),
        forall|i: int|
            0 <= i < chain.len() - 1 ==> #[trigger] names_alike(chain[i], chain[i + 1], capability),
        allows(chain.last(), capability, args),
    ensures
        forall|i: int| 0 <= i < chain.len() ==> allows(#[trigger] chain[i], capability, args),
    decreases chain.len(),
{
    if chain.len() > 1 {
        let parent = chain[chain.len() - 2];
        assert(links(parent, chain[chain.len() - 2 + 1]));
        assert(names_alike(parent, chain[chain.len() - 2 + 1], capability));
        law_narrower_warrant_allows_less(parent, chain.last(), capability, args);
        let front = chain.drop_last();
        assert forall|i: int| 0 <= i < front.len() - 1 implies #[trigger] links(
            front[i],
            front[i + 1],
        ) by {
            assert(links(chain[i], chain[i + 1]));
        }
        assert forall|i: int| 0 <= i < front.len() - 1 implies #[trigger] names_alike(
            front[i],
            front[i + 1],
            capability,
        ) by {
            assert(names_alike(chain[i], chain[i + 1], capability));
        }
        law_chain_allows_less_at_every_link(front, capability, args);
        assert forall|i: int| 0 <= i < chain.len() implies allows(
            #[trigger] chain[i],
            capability,
            args,
        ) by {
            if i < chain.len() - 1 {
                assert(front[i] == chain[i]);
            }
        }
    }
}

/// A terminal warrant has no proper link below it.
pub proof fn law_terminal_warrant_has_no_child(parent: WarrantModel, child: WarrantModel)
    requires
        is_terminal(parent),
    ensures
        !links(parent, child),
{
}

}
