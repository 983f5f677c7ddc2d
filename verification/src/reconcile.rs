//! The per-object reconciliation state machine.
//!
//! One [`Reconciler`] converges one manifest to its resolved action,
//! retrying transient failures. The machine itself performs no network
//! call and no sleep: a driver performs the outside work that each
//! [`Directive`] asks for and feeds the outcome back as an [`Event`]. The
//! transition relation is the spec function [`spec_step`]; the executable
//! [`Reconciler::step`] is proved to follow it exactly.
//!
//! Per attempt: discovery resolves the manifest's group/version/kind to a
//! [`ResourceMapping`]; the apply or delete call is dispatched under the
//! scope the mapping names; the outcome is classified as success, benign
//! ("already converged": a missing kind or a missing object while
//! deleting), or transient. A transient failure asks the backoff for the
//! next delay; a delay means sleep and re-discover (so a kind that becomes
//! available mid-retry self-heals), and an exhausted budget turns the last
//! transient failure into the object's terminal error.

use vstd::pervasive::unreached;
use vstd::prelude::*;

use crate::action::resolve_action;
use crate::action::spec_action_of;
use crate::action::Action;
use crate::errors::ApiError;
use crate::errors::ApplyError;
use crate::errors::DiscoveryError;
use crate::manifest::spec_split_group_version;
use crate::manifest::Gvk;
use crate::manifest::Manifest;
use crate::namespace::resolve_namespace;
use crate::namespace::spec_effective_namespace;

verus! {

/// Whether a resource kind lives cluster-wide or inside a namespace.
#[derive(Clone, Copy, Debug, PartialEq, Eq, Structural)]
pub enum Scope {
    Cluster,
    Namespaced,
}

/// The result of discovery for one group/version/kind: the REST plural
/// resource name and the scope under which it is addressed. It is not
/// cached across attempts: every attempt re-discovers.
#[derive(Debug, PartialEq, Eq)]
pub struct ResourceMapping {
    pub resource: String,
    pub scope: Scope,
}

/// The outcome of one outside operation, fed back into the machine.
#[derive(Debug, PartialEq, Eq)]
pub enum Event {
    /// What the discovery call returned.
    Discovered(Result<ResourceMapping, DiscoveryError>),
    /// What the apply or delete call returned.
    Dispatched(Result<(), ApiError>),
    /// What the backoff answered: the next delay in milliseconds, or
    /// nothing when its budget is exhausted.
    BackoffAnswer(Option<u64>),
}

/// One fully-addressed call against the cluster API. The namespace is
/// present exactly when the discovered scope is namespaced.
#[derive(Debug, PartialEq, Eq)]
pub enum ApiCall {
    /// A server-side-merge patch with forced field ownership, recorded
    /// under the field manager's identity.
    Apply { resource: String, namespace: Option<String>, name: String, manager: String, payload: String },
    /// An idempotent delete.
    Delete { resource: String, namespace: Option<String>, name: String },
}

/// What the driver must do next.
#[derive(Debug, PartialEq, Eq)]
pub enum Directive {
    /// Discover the reconciler's group/version/kind; reply with
    /// [`Event::Discovered`].
    Discover,
    /// Perform the call; reply with [`Event::Dispatched`].
    Call(ApiCall),
    /// Ask the backoff for the next delay; reply with
    /// [`Event::BackoffAnswer`].
    AskBackoff,
    /// Sleep for the given milliseconds, then discover again and reply
    /// with [`Event::Discovered`].
    SleepThenDiscover(u64),
    /// The object converged: reset the backoff, exactly once, and stop.
    ResetAndSucceed,
    /// The object failed terminally with this error; stop.
    Fail(ApplyError),
}

/// Where one object's reconciliation stands.
#[derive(Debug, PartialEq, Eq)]
pub enum Phase {
    /// The next outside operation is the discovery call.
    Discovering,
    /// The next outside operation is the apply or delete call.
    Dispatching,
    /// A transient failure is pending; the backoff has been asked for the
    /// next delay. Holds the failure as the terminal error it becomes if
    /// the budget is exhausted.
    AwaitingBackoff(ApplyError),
    /// Terminal: the desired state holds.
    Succeeded,
    /// Terminal: reconciliation failed with this error.
    Failed(ApplyError),
}

/// The per-object state machine: the manifest's resolved addressing and
/// action, and the current phase.
#[derive(Debug)]
pub struct Reconciler {
    pub action: Action,
    pub namespace: String,
    pub gvk: Gvk,
    pub name: String,
    pub manager: String,
    pub payload: String,
    pub phase: Phase,
}

/// Whether an error belongs to the transient class: a failure that the
/// backoff governs, as opposed to the terminal, pre-retry kinds.
pub open spec fn retryable_error(e: ApplyError) -> bool {
    e is Discovery || e is Api
}

/// The machine's well-formedness: a pending or terminal failure inside
/// the retry loop is always of the transient class. The terminal,
/// pre-retry errors never enter the machine: they are raised by
/// [`Reconciler::prepare`] before it exists.
pub open spec fn wf(r: Reconciler) -> bool {
    match r.phase {
        Phase::AwaitingBackoff(e) => retryable_error(e),
        Phase::Failed(e) => retryable_error(e),
        _ => true,
    }
}

/// Stepping preserves well-formedness: every failure the machine records
/// or reports came from discovery or from the dispatched call.
pub proof fn lemma_step_preserves_wf(r: Reconciler, ev: Event)
    requires
        wf(r),
        event_fits(r.phase, ev),
    ensures
        wf(spec_step(r, ev).0),
{
}

/// Which events a phase can consume. No event fits a terminal phase:
/// once succeeded or failed, nothing follows.
pub open spec fn event_fits(p: Phase, ev: Event) -> bool {
    match ev {
        Event::Discovered(_) => p is Discovering,
        Event::Dispatched(_) => p is Dispatching,
        Event::BackoffAnswer(_) => p is AwaitingBackoff,
    }
}

/// The call that dispatching issues for mapping `m`: apply or delete per
/// the resolved action, namespaced exactly when the mapping's scope is.
pub open spec fn spec_dispatch_call(r: Reconciler, m: ResourceMapping) -> ApiCall {
    let ns = if m.scope == Scope::Namespaced {
        Some(r.namespace)
    } else {
        None::<String>
    };
    match r.action {
        Action::Apply => ApiCall::Apply {
            resource: m.resource,
            namespace: ns,
            name: r.name,
            manager: r.manager,
            payload: r.payload,
        },
        Action::Delete => ApiCall::Delete { resource: m.resource, namespace: ns, name: r.name },
    }
}

/// `r` with its phase replaced.
pub open spec fn with_phase(r: Reconciler, p: Phase) -> Reconciler {
    Reconciler { phase: p, ..r }
}

/// The transition relation: from a machine and an event that fits its
/// phase, to the next machine and what the driver must do.
///
/// Classification:
/// - a discovered mapping moves to dispatching;
/// - "kind not found" while deleting is success (nothing to delete);
/// - any other discovery failure is transient;
/// - a dispatched call that returns is success;
/// - "not found" while deleting is success (already gone);
/// - any other call failure is transient;
/// - a transient failure asks the backoff: a delay means sleep and
///   re-discover, an exhausted budget is terminal failure with the last
///   transient error.
pub open spec fn spec_step(r: Reconciler, ev: Event) -> (Reconciler, Directive) {
    match ev {
        Event::Discovered(outcome) => match outcome {
            Ok(m) => (with_phase(r, Phase::Dispatching), Directive::Call(spec_dispatch_call(r, m))),
            Err(e) => if r.action == Action::Delete && e is KindNotFound {
                (with_phase(r, Phase::Succeeded), Directive::ResetAndSucceed)
            } else {
                (
                    with_phase(r, Phase::AwaitingBackoff(ApplyError::Discovery(e))),
                    Directive::AskBackoff,
                )
            },
        },
        Event::Dispatched(outcome) => match outcome {
            Ok(_) => (with_phase(r, Phase::Succeeded), Directive::ResetAndSucceed),
            Err(e) => if r.action == Action::Delete && e is NotFound {
                (with_phase(r, Phase::Succeeded), Directive::ResetAndSucceed)
            } else {
                (
                    with_phase(r, Phase::AwaitingBackoff(ApplyError::Api(e))),
                    Directive::AskBackoff,
                )
            },
        },
        Event::BackoffAnswer(answer) => match answer {
            Some(delay) => (with_phase(r, Phase::Discovering), Directive::SleepThenDiscover(delay)),
            None => {
                let e = r.phase->AwaitingBackoff_0;
                (with_phase(r, Phase::Failed(e)), Directive::Fail(e))
            },
        },
    }
}

impl Reconciler {
    /// Resolves everything that is settled before the retry loop: the
    /// action from the annotations, the effective namespace, and the
    /// group/version/kind. An unrecognized action annotation fails the
    /// object here, before any outside interaction.
    pub fn prepare(
        manifest: &Manifest,
        manager: &String,
        caller_ns: &Option<String>,
        client_ns: &String,
    ) -> (r: Result<Reconciler, ApplyError>)
        ensures
            match spec_action_of(manifest.annotations@) {
                Err(v) => r == Err::<Reconciler, ApplyError>(ApplyError::InvalidAction(v)),
                Ok(a) => match r {
                    Ok(rec) => {
                        &&& rec.action == a
                        &&& rec.namespace == spec_effective_namespace(
                            manifest.namespace,
                            *caller_ns,
                            *client_ns,
                        )
                        &&& rec.gvk.group@ == spec_split_group_version(manifest.api_version@).0
                        &&& rec.gvk.version@ == spec_split_group_version(manifest.api_version@).1
                        &&& rec.gvk.kind@ == manifest.kind@
                        &&& rec.name == manifest.name
                        &&& rec.manager == *manager
                        &&& rec.payload == manifest.payload
                        &&& rec.phase is Discovering
                        &&& wf(rec)
                    },
                    Err(_) => false,
                },
            },
    {
        let namespace = resolve_namespace(&manifest.namespace, caller_ns, client_ns);
        let action = match resolve_action(manifest) {
            Ok(a) => a,
            Err(e) => {
                return Err(e);
            },
        };
        let gvk = Gvk::from_api_version(manifest.api_version.as_str(), manifest.kind.as_str());
        Ok(
            Reconciler {
                action,
                namespace,
                gvk,
                name: manifest.name.clone(),
                manager: manager.clone(),
                payload: manifest.payload.clone(),
                phase: Phase::Discovering,
            },
        )
    }

    /// Consumes one event and answers with the next directive, following
    /// [`spec_step`] exactly.
    pub fn step(&mut self, ev: Event) -> (d: Directive)
        requires
            event_fits(old(self).phase, ev),
        ensures
            *final(self) == spec_step(*old(self), ev).0,
            d == spec_step(*old(self), ev).1,
    {
        match ev {
            Event::Discovered(outcome) => match outcome {
                Ok(m) => {
                    let ns = if matches!(m.scope, Scope::Namespaced) {
                        Some(self.namespace.clone())
                    } else {
                        None
                    };
                    let call = match self.action {
                        Action::Apply => ApiCall::Apply {
                            resource: m.resource,
                            namespace: ns,
                            name: self.name.clone(),
                            manager: self.manager.clone(),
                            payload: self.payload.clone(),
                        },
                        Action::Delete => ApiCall::Delete {
                            resource: m.resource,
                            namespace: ns,
                            name: self.name.clone(),
                        },
                    };
                    self.phase = Phase::Dispatching;
                    Directive::Call(call)
                },
                Err(e) => {
                    if matches!(self.action, Action::Delete) && e.is_kind_not_found() {
                        self.phase = Phase::Succeeded;
                        Directive::ResetAndSucceed
                    } else {
                        self.phase = Phase::AwaitingBackoff(ApplyError::Discovery(e));
                        Directive::AskBackoff
                    }
                },
            },
            Event::Dispatched(outcome) => match outcome {
                Ok(_) => {
                    self.phase = Phase::Succeeded;
                    Directive::ResetAndSucceed
                },
                Err(e) => {
                    if matches!(self.action, Action::Delete) && e.is_not_found() {
                        self.phase = Phase::Succeeded;
                        Directive::ResetAndSucceed
                    } else {
                        self.phase = Phase::AwaitingBackoff(ApplyError::Api(e));
                        Directive::AskBackoff
                    }
                },
            },
            Event::BackoffAnswer(answer) => match answer {
                Some(delay) => {
                    self.phase = Phase::Discovering;
                    Directive::SleepThenDiscover(delay)
                },
                None => {
                    let e = match &self.phase {
                        Phase::AwaitingBackoff(err) => err.duplicate(),
                        _ => unreached(),
                    };
                    self.phase = Phase::Failed(e.duplicate());
                    Directive::Fail(e)
                },
            },
        }
    }
}

} // verus!
