//! Organization aggregator: merges a caller-scoped list of
//! (organization, role) pairs — produced by the authorization subsystem —
//! with persisted organization names. A missing row is tolerated by falling
//! back to the identifier's text form; a genuine lookup failure fails the
//! whole request.

use vstd::prelude::*;

use crate::ids::uuid_chars;
use crate::ids::Uuid;

verus! {

/// One entry of the listing response: the organization, the caller's role
/// exactly as the authorization subsystem supplied it, and the resolved name.
#[derive(Debug, Clone, PartialEq, Eq)]
pub struct Organization {
    pub organization_id: Uuid,
    pub role: String,
    pub name: String,
}

/// The outcome of one persisted-name lookup, as the persistence collaborator
/// reports it: a stored name, no matching row, or a genuine query failure.
#[derive(Debug, Clone, PartialEq, Eq)]
pub enum MetadataLookup {
    Found(String),
    Missing,
    Failed,
}

/// A request-level error surfaced to the caller.
#[derive(Debug, Clone, Copy, PartialEq, Eq, Structural)]
pub enum Hook0Problem {
    InternalServerError,
}

/// The name the response carries for an organization: the stored name when a
/// row was found, else the identifier's canonical text form.
pub open spec fn resolved_name_chars(id: Uuid, lookup: MetadataLookup) -> Seq<char> {
    match lookup {
        MetadataLookup::Found(n) => n@,
        _ => uuid_chars(id.value),
    }
}

impl Organization {
    /// Whether this entry is the one owed for the given role pair and lookup
    /// outcome.
    pub open spec fn resolves(self, id: Uuid, role: Seq<char>, lookup: MetadataLookup) -> bool {
        &&& self.organization_id == id
        &&& self.role@ == role
        &&& self.name@ == resolved_name_chars(id, lookup)
    }
}

/// Produces the listing response for the caller's role pairs, given the
/// outcome of each organization's name lookup.
///
/// Output order follows input order. A missing row falls back to the
/// identifier's text form and still succeeds; the request fails if and only
/// if some lookup genuinely failed.
pub fn list(roles: &Vec<(Uuid, String)>, lookups: &Vec<MetadataLookup>) -> (r: Result<
    Vec<Organization>,
    Hook0Problem,
>)
    requires
        roles@.len() == lookups@.len(),
    ensures
        r is Err <==> (exists|i: int| 0 <= i < lookups@.len() && lookups@[i] is Failed),
        r matches Ok(orgs) ==> {
            &&& orgs@.len() == roles@.len()
            &&& forall|i: int|
                0 <= i < roles@.len() ==> orgs@[i].resolves(
                    roles@[i].0,
                    roles@[i].1@,
                    lookups@[i],
                )
        },
{
    let mut orgs: Vec<Organization> = Vec::new();
    let n = roles.len();
    let mut idx: usize = 0;
    while idx < n
        invariant
            idx <= n,
            n == roles@.len(),
            lookups@.len() == n,
            orgs@.len() == idx,
            forall|i: int|
                0 <= i < idx ==> orgs@[i].resolves(roles@[i].0, roles@[i].1@, lookups@[i]),
            forall|i: int| 0 <= i < idx ==> !(lookups@[i] is Failed),
        decreases n - idx,
    {
        let pair: &(Uuid, String) = &roles[idx];
        match &lookups[idx] {
            MetadataLookup::Failed => {
                return Err(Hook0Problem::InternalServerError);
            },
            MetadataLookup::Found(stored) => {
                orgs.push(
                    Organization {
                        organization_id: pair.0,
                        role: pair.1.clone(),
                        name: stored.clone(),
                    },
                );
            },
            MetadataLookup::Missing => {
                let fallback = pair.0.to_hyphenated_string();
                orgs.push(
                    Organization { organization_id: pair.0, role: pair.1.clone(), name: fallback },
                );
            },
        }
        idx = idx + 1;
    }
    Ok(orgs)
}

} // verus!
