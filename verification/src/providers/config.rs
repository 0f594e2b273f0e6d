//! Per-query provider-specific configuration, tagged by provider name.

use crate::providers::azure::AzureQueryConfig;
use crate::providers::ibm::IbmQueryConfig;
use vstd::prelude::*;

verus! {

/// The per-query filter and grouping parameters for one provider, as a
/// tagged union keyed by provider.  Distinct from the credentials an
/// adapter is constructed with: credentials configure which account is
/// queried, this configures what is filtered and grouped within it.
#[derive(Debug, Clone)]
pub enum ProviderQueryConfig {
    /// Azure-specific query configuration.
    Azure(AzureQueryConfig),
    /// IBM Cloud-specific query configuration.
    Ibm(IbmQueryConfig),
}

} // verus!
