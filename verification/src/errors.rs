//! Error taxonomy for per-object reconciliation and batch aggregation.
//!
//! Terminal, pre-retry errors ([`ApplyError::InvalidAction`],
//! [`ApplyError::InvalidGroupVersion`], [`ApplyError::Serialization`]) arise
//! before the retry loop starts and are never retried. Transient failures are
//! carried as [`DiscoveryError`] or [`ApiError`]; when the backoff budget is
//! exhausted, the last of them becomes the object's terminal failure
//! ([`ApplyError::Discovery`] or [`ApplyError::Api`]).

use vstd::prelude::*;

verus! {

/// Failure reported by the cluster API's discovery operation.
/// Distinguishes "kind not found" from every other failure: an absent kind
/// while deleting means the desired end state already holds.
#[derive(Debug, PartialEq, Eq)]
pub enum DiscoveryError {
    /// The requested kind is not served by the cluster API.
    KindNotFound,
    /// Any other discovery failure, with its description.
    Other(String),
}

/// Failure reported by the cluster API's apply or delete call.
/// Distinguishes "not found" from every other failure: a missing object
/// while deleting means the desired end state already holds.
#[derive(Debug, PartialEq, Eq)]
pub enum ApiError {
    /// The addressed object does not exist (a 404-equivalent response).
    NotFound,
    /// Any other call failure, with its description.
    Other(String),
}

/// One object's terminal reconciliation failure.
#[derive(Debug, PartialEq, Eq)]
pub enum ApplyError {
    /// The action annotation carries a value that is neither `apply` nor
    /// `delete`. Holds the offending value.
    InvalidAction(String),
    /// The manifest's type identity could not be resolved into a group
    /// and version. Reserved for ingestion layers that reject a malformed
    /// identity outright; the library's own split, which takes everything
    /// before the first `/` as the group, accepts every string.
    InvalidGroupVersion(String),
    /// The manifest's payload could not be serialized for the apply call.
    /// Raised by the ingestion layer, before reconciliation starts.
    Serialization(String),
    /// Retries were exhausted; the last transient failure was in discovery.
    Discovery(DiscoveryError),
    /// Retries were exhausted; the last transient failure was in the apply
    /// or delete call.
    Api(ApiError),
}

/// The batch-level aggregate: every failed object's error, in completion
/// order. Empty never occurs: an empty collection means batch success.
#[derive(Debug, PartialEq, Eq)]
pub struct ApplyErrors(pub Vec<ApplyError>);

impl DiscoveryError {
    /// Whether this is the "kind not found" failure.
    pub fn is_kind_not_found(&self) -> (b: bool)
        ensures
            b == (*self is KindNotFound),
    {
        match self {
            DiscoveryError::KindNotFound => true,
            DiscoveryError::Other(_) => false,
        }
    }

    /// An owned copy, equal to the original.
    pub fn duplicate(&self) -> (r: DiscoveryError)
        ensures
            r == *self,
    {
        match self {
            DiscoveryError::KindNotFound => DiscoveryError::KindNotFound,
            DiscoveryError::Other(s) => DiscoveryError::Other(s.clone()),
        }
    }
}

impl ApiError {
    /// Whether this is the "not found" failure.
    pub fn is_not_found(&self) -> (b: bool)
        ensures
            b == (*self is NotFound),
    {
        match self {
            ApiError::NotFound => true,
            ApiError::Other(_) => false,
        }
    }

    /// An owned copy, equal to the original.
    pub fn duplicate(&self) -> (r: ApiError)
        ensures
            r == *self,
    {
        match self {
            ApiError::NotFound => ApiError::NotFound,
            ApiError::Other(s) => ApiError::Other(s.clone()),
        }
    }
}

impl ApplyError {
    /// An owned copy, equal to the original.
    pub fn duplicate(&self) -> (r: ApplyError)
        ensures
            r == *self,
    {
        match self {
            ApplyError::InvalidAction(s) => ApplyError::InvalidAction(s.clone()),
            ApplyError::InvalidGroupVersion(s) => ApplyError::InvalidGroupVersion(s.clone()),
            ApplyError::Serialization(s) => ApplyError::Serialization(s.clone()),
            ApplyError::Discovery(e) => ApplyError::Discovery(e.duplicate()),
            ApplyError::Api(e) => ApplyError::Api(e.duplicate()),
        }
    }
}

} // verus!
