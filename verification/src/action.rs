//! Action resolution: what a manifest means, derived once per object from
//! its action annotation. The default is to apply; an unrecognized value is
//! a terminal error, raised before any network interaction and before the
//! retry loop is entered.

use vstd::prelude::*;

use crate::errors::ApplyError;
use crate::manifest::spec_lookup;
use crate::manifest::Manifest;
use crate::strutil::str_eq;

verus! {

/// What to do with a manifest: converge it onto the cluster, or remove it.
#[derive(Clone, Copy, Debug, PartialEq, Eq, Structural)]
pub enum Action {
    Apply,
    Delete,
}

impl Default for Action {
    /// A manifest without an action annotation is applied.
    fn default() -> (r: Self)
        ensures
            r == Action::Apply,
    {
        Action::Apply
    }
}

impl Action {
    /// The kebab-case token that denotes this action in the annotation.
    pub fn label(&self) -> (r: &'static str)
        ensures
            *self is Apply ==> r@ == "apply"@,
            *self is Delete ==> r@ == "delete"@,
    {
        match self {
            Action::Apply => "apply",
            Action::Delete => "delete",
        }
    }
}

/// The annotation key that carries a manifest's action override.
pub open spec fn action_key() -> Seq<char> {
    "deka.ndrpnt.dev/action"@
}

/// The exec counterpart of [`action_key`].
pub fn action_annotation_key() -> (r: &'static str)
    ensures
        r@ == action_key(),
{
    "deka.ndrpnt.dev/action"
}

/// The action that an annotation listing resolves to: absent key means
/// apply; `apply` and `delete` name the two actions, case-sensitively; any
/// other value is rejected, carried back in the error.
pub open spec fn spec_action_of(anns: Seq<(String, String)>) -> Result<Action, String> {
    match spec_lookup(anns, action_key()) {
        None => Ok(Action::Apply),
        Some(v) => if v@ == "apply"@ {
            Ok(Action::Apply)
        } else if v@ == "delete"@ {
            Ok(Action::Delete)
        } else {
            Err(v)
        },
    }
}

/// Resolves the manifest's action from its annotations.
pub fn resolve_action(m: &Manifest) -> (r: Result<Action, ApplyError>)
    ensures
        match spec_action_of(m.annotations@) {
            Ok(a) => r == Ok::<Action, ApplyError>(a),
            Err(v) => r == Err::<Action, ApplyError>(ApplyError::InvalidAction(v)),
        },
{
    match m.annotation(action_annotation_key()) {
        None => Ok(Action::Apply),
        Some(v) => if str_eq(v.as_str(), "apply") {
            Ok(Action::Apply)
        } else if str_eq(v.as_str(), "delete") {
            Ok(Action::Delete)
        } else {
            Err(ApplyError::InvalidAction(v.clone()))
        },
    }
}

} // verus!
