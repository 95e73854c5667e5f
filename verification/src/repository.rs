use crate::error::DataLayerError;
use crate::types::{
    ApplyRemoteProviderQuotaOutcome, ApplyRemoteProviderQuotaPatch, StoredProviderQuotaSnapshot,
};
use std::future::Future;
use vstd::prelude::*;

verus! {

/// A store that quota snapshots can be read from. Each method returns a future
/// that the store chooses.
pub trait ProviderQuotaReadRepository: Send + Sync {
    /// The answer to a question for one provider.
    type FoundOne<'a>: Future<
        Output = Result<Option<StoredProviderQuotaSnapshot>, DataLayerError>,
    > + Send where Self: 'a;

    /// The answer to a question for several providers.
    type FoundMany<'a>: Future<
        Output = Result<Vec<StoredProviderQuotaSnapshot>, DataLayerError>,
    > + Send where Self: 'a;

    /// Reads the snapshot of one provider, where it exists.
    fn find_by_provider_id<'a>(&'a self, provider_id: &'a str) -> Self::FoundOne<'a>;

    /// Reads the snapshots of several providers.
    fn find_by_provider_ids<'a>(&'a self, provider_ids: &'a [String]) -> Self::FoundMany<'a>;
}

/// A store that quota state can be written to. Each method returns a future that
/// the store chooses.
pub trait ProviderQuotaWriteRepository: Send + Sync {
    /// The answer to a request for a reset.
    type ResetDone<'a>: Future<Output = Result<usize, DataLayerError>> + Send where Self: 'a;

    /// The answer to a request to write a patch.
    type PatchDone<'a>: Future<
        Output = Result<ApplyRemoteProviderQuotaOutcome, DataLayerError>,
    > + Send where Self: 'a;

    /// Starts a new quota window for every provider that is due, and counts them.
    fn reset_due<'a>(&'a self, now_unix_secs: u64) -> Self::ResetDone<'a>;

    /// Writes a quota state that a remote provider reported.
    fn apply_remote_provider_quota<'a>(
        &'a self,
        patch: &'a ApplyRemoteProviderQuotaPatch,
    ) -> Self::PatchDone<'a>;
}

/// A store that quota state can be read from and written to.
pub trait ProviderQuotaRepository: ProviderQuotaReadRepository + ProviderQuotaWriteRepository + Send + Sync {

}

impl<T> ProviderQuotaRepository for T where
    T: ProviderQuotaReadRepository + ProviderQuotaWriteRepository + Send + Sync,
 {

}

} // verus!
