//! Cloud provider adapters, the contract they satisfy, and their tagged
//! credential configurations.

pub mod azure;
pub mod config;
pub mod ibm;
pub mod registry;

use crate::providers::azure::{AzureConfig, AzureProvider};
use crate::providers::ibm::{IbmConfig, IbmProvider};
use vstd::prelude::*;

verus! {

/// The contract every carbon-emission provider adapter satisfies: a stable
/// lowercase identifier used for query dispatch, and a credential check that
/// performs no network traffic.
pub trait CarbonProvider {
    /// The provider identifier, as the contracts speak of it.
    spec fn spec_name(&self) -> Seq<char>;

    /// Whether every credential field required to authenticate is non-empty.
    spec fn spec_is_configured(&self) -> bool;

    /// The stable, lowercase provider identifier.
    fn name(&self) -> (r: &'static str)
        ensures
            r@ == self.spec_name(),
    ;

    /// True iff all credential fields required to authenticate are
    /// non-empty.  Performs no network traffic.
    fn is_configured(&self) -> (r: bool)
        ensures
            r == self.spec_is_configured(),
    ;
}

/// The credentials for one adapter, tagged by the provider they belong to.
#[derive(Debug, Clone)]
pub enum ProviderCredentials {
    Azure(AzureConfig),
    Ibm(IbmConfig),
}

/// One configured adapter.  Adapters share no behavior beyond the
/// `CarbonProvider` contract, so they form a sum type rather than a
/// hierarchy.
#[derive(Debug, Clone)]
pub enum Provider {
    Azure(AzureProvider),
    Ibm(IbmProvider),
}

impl CarbonProvider for Provider {
    open spec fn spec_name(&self) -> Seq<char> {
        match self {
            Provider::Azure(p) => p.spec_name(),
            Provider::Ibm(p) => p.spec_name(),
        }
    }

    open spec fn spec_is_configured(&self) -> bool {
        match self {
            Provider::Azure(p) => p.spec_is_configured(),
            Provider::Ibm(p) => p.spec_is_configured(),
        }
    }

    fn name(&self) -> (r: &'static str) {
        match self {
            Provider::Azure(p) => p.name(),
            Provider::Ibm(p) => p.name(),
        }
    }

    fn is_configured(&self) -> (r: bool) {
        match self {
            Provider::Azure(p) => p.is_configured(),
            Provider::Ibm(p) => p.is_configured(),
        }
    }
}

impl Provider {
    /// A configuration-preserving duplicate.  A cloned facade deep-copies
    /// its adapter set through this rather than alias it.
    pub fn clone_provider(&self) -> (r: Provider)
        ensures
            r.spec_name() == self.spec_name(),
            r.spec_is_configured() == self.spec_is_configured(),
    {
        match self {
            Provider::Azure(p) => p.clone_provider(),
            Provider::Ibm(p) => p.clone_provider(),
        }
    }
}

} // verus!
