//! Engine for converging a batch of declarative resource manifests against a
//! cluster-management API: per-object action and namespace resolution, the
//! discovery/dispatch/retry state machine, and batch error aggregation.
//!
//! The machine in [`reconcile`] is pure: it consumes the outcome of each
//! outside call as an [`reconcile::Event`] and answers with the next
//! [`reconcile::Directive`]. A thin driver performs the actual network calls
//! and sleeps.

pub mod action;
pub mod backoff;
pub mod batch;
pub mod config;
pub mod errors;
pub mod laws;
pub mod manifest;
pub mod namespace;
pub mod reconcile;
pub mod strutil;

pub use action::Action;
pub use backoff::Backoff;
pub use batch::collect_batch;
pub use config::ApplyFlags;
pub use config::OutputFormat;
pub use errors::ApiError;
pub use errors::ApplyError;
pub use errors::ApplyErrors;
pub use errors::DiscoveryError;
pub use manifest::Gvk;
pub use manifest::Manifest;
pub use reconcile::Reconciler;
pub use strutil::str_eq;
