//! The sets of demands that the warrants of this crate are made of.

use crate::grant;
use crate::tenuo_api;
use tenuo::sdk::prelude::ConstraintSet;
use vstd::prelude::*;

verus! {

/// The pattern that every incident identifier matches.
pub const ANY_INCIDENT: &'static str = "INC-*";

/// The pattern that every staging cluster matches.
pub const STAGING_CLUSTERS: &'static str = "staging-*";

/// Exactly this incident.
pub open spec fn one_incident(incident_id: Seq<char>) -> grant::Limit {
    grant::Limit::Exact(incident_id)
}

/// Any incident.
pub open spec fn any_incident() -> grant::Limit {
    grant::Limit::Prefix("INC-"@)
}

/// Any staging cluster.
pub open spec fn any_staging_cluster() -> grant::Limit {
    grant::Limit::Prefix("staging-"@)
}

/// The pattern for incidents is plain text and one final `*`.
pub proof fn lemma_any_incident()
    ensures
        grant::is_prefix_pattern(ANY_INCIDENT@),
        grant::Limit::Prefix(ANY_INCIDENT@.drop_last()) == any_incident(),
{
    reveal_strlit("INC-*");
    reveal_strlit("INC-");
    assert(ANY_INCIDENT@.drop_last() =~= "INC-"@);
}

/// The pattern for staging clusters is plain text and one final `*`.
pub proof fn lemma_any_staging_cluster()
    ensures
        grant::is_prefix_pattern(STAGING_CLUSTERS@),
        grant::Limit::Prefix(STAGING_CLUSTERS@.drop_last()) == any_staging_cluster(),
{
    reveal_strlit("staging-*");
    reveal_strlit("staging-");
    assert(STAGING_CLUSTERS@.drop_last() =~= "staging-"@);
}

/// Demands exactly this incident.
pub(crate) fn exact_incident(incident_id: &str) -> (r: ConstraintSet)
    ensures
        tenuo_api::fields_of(r) == grant::one_field("incident_id"@, one_incident(incident_id@)),
{
    let mut set = tenuo_api::new_constraints();
    tenuo_api::insert_constraint(
        &mut set,
        "incident_id",
        tenuo_api::exact_constraint(incident_id),
    );
    set
}

/// Demands an incident identifier.
pub(crate) fn incident_pattern() -> (r: Result<ConstraintSet, String>)
    ensures
        r is Ok,
        tenuo_api::fields_of(r->Ok_0) == grant::one_field("incident_id"@, any_incident()),
{
    proof {
        lemma_any_incident();
    }
    let mut set = tenuo_api::new_constraints();
    match tenuo_api::pattern_constraint(ANY_INCIDENT) {
        Ok(constraint) => tenuo_api::insert_constraint(&mut set, "incident_id", constraint),
        Err(text) => return Err(text),
    }
    Ok(set)
}

/// Lets the scope of a sub-step be anything.
pub(crate) fn with_any_scope(set: ConstraintSet) -> (r: ConstraintSet)
    ensures
        tenuo_api::fields_of(r) == (grant::Fields {
            limits: tenuo_api::fields_of(set).limits.insert("scope"@, grant::Limit::Any),
            open: tenuo_api::fields_of(set).open,
        }),
{
    let mut set = set;
    tenuo_api::insert_constraint(&mut set, "scope", tenuo_api::any_constraint());
    set
}

/// The demands on scaling: a staging cluster, and at most so many replicas.
pub open spec fn scale_fields(max_replicas: nat) -> grant::Fields {
    grant::two_fields(
        "cluster"@,
        any_staging_cluster(),
        "replicas"@,
        grant::Limit::AtMost(max_replicas),
    )
}

/// Demands a staging cluster and at most so many replicas.
pub(crate) fn staging_scale(max_replicas: u32) -> (r: Result<ConstraintSet, String>)
    ensures
        r is Ok,
        tenuo_api::fields_of(r->Ok_0) == scale_fields(max_replicas as nat),
{
    proof {
        lemma_any_staging_cluster();
    }
    let mut set = tenuo_api::new_constraints();
    match tenuo_api::pattern_constraint(STAGING_CLUSTERS) {
        Ok(constraint) => tenuo_api::insert_constraint(&mut set, "cluster", constraint),
        Err(text) => return Err(text),
    }
    match tenuo_api::at_most_constraint(max_replicas) {
        Ok(constraint) => tenuo_api::insert_constraint(&mut set, "replicas", constraint),
        Err(text) => return Err(text),
    }
    Ok(set)
}

}
