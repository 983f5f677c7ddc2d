//! Namespace resolution: the effective namespace for one manifest, settled
//! once per object, before the retry loop, since it cannot change across
//! retries.

use vstd::prelude::*;

verus! {

/// The effective namespace: the manifest's own namespace wins over a
/// caller-supplied default, which wins over the client's configured
/// default. Exactly one value is produced; it is never absent.
pub open spec fn spec_effective_namespace(
    manifest_ns: Option<String>,
    caller_ns: Option<String>,
    client_ns: String,
) -> String {
    match manifest_ns {
        Some(n) => n,
        None => match caller_ns {
            Some(n) => n,
            None => client_ns,
        },
    }
}

/// Resolves the namespace under which one manifest is reconciled.
pub fn resolve_namespace(
    manifest_ns: &Option<String>,
    caller_ns: &Option<String>,
    client_ns: &String,
) -> (r: String)
    ensures
        r == spec_effective_namespace(*manifest_ns, *caller_ns, *client_ns),
{
    match manifest_ns {
        Some(n) => n.clone(),
        None => match caller_ns {
            Some(n) => n.clone(),
            None => client_ns.clone(),
        },
    }
}

/// Namespace precedence: a manifest's own namespace always wins over a
/// caller-supplied default and over the client default; with neither the
/// manifest's nor the caller's set, the client default is used.
pub proof fn lemma_namespace_precedence(
    manifest_ns: Option<String>,
    caller_ns: Option<String>,
    client_ns: String,
)
    ensures
        manifest_ns is Some ==> spec_effective_namespace(manifest_ns, caller_ns, client_ns)
            == manifest_ns->Some_0,
        manifest_ns is None && caller_ns is Some ==> spec_effective_namespace(
            manifest_ns,
            caller_ns,
            client_ns,
        ) == caller_ns->Some_0,
        manifest_ns is None && caller_ns is None ==> spec_effective_namespace(
            manifest_ns,
            caller_ns,
            client_ns,
        ) == client_ns,
{
}

} // verus!
