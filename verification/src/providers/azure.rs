//! The Azure provider adapter: credentials and identity.

use crate::providers::CarbonProvider;
use vstd::prelude::*;

verus! {

/// Credentials for the Azure provider.
#[derive(Debug, Clone)]
pub struct AzureConfig {
    pub access_token: String,
}

/// Per-query options specific to the Azure adapter.  No Azure-specific
/// filter is defined yet; the type exists so a query can be tagged for the
/// Azure adapter.
#[derive(Debug, Clone)]
pub struct AzureQueryConfig {}

/// The Azure provider adapter.
#[derive(Debug, Clone)]
pub struct AzureProvider {
    pub config: AzureConfig,
}

impl AzureProvider {
    /// Construct an adapter around the given credentials.
    pub fn new(config: AzureConfig) -> (r: Self)
        ensures
            r.config == config,
    {
        AzureProvider { config }
    }
}

impl CarbonProvider for AzureProvider {
    open spec fn spec_name(&self) -> Seq<char> {
        "azure"@
    }

    open spec fn spec_is_configured(&self) -> bool {
        self.config.access_token@.len() > 0
    }

    fn name(&self) -> (r: &'static str) {
        "azure"
    }

    fn is_configured(&self) -> (r: bool) {
        !self.config.access_token.as_str().is_empty()
    }
}

impl AzureProvider {
    /// A duplicate adapter holding equal credentials.
    pub fn clone_provider(&self) -> (r: crate::providers::Provider)
        ensures
            r matches crate::providers::Provider::Azure(p) && p.config.access_token@
                == self.config.access_token@,
    {
        crate::providers::Provider::Azure(
            AzureProvider { config: AzureConfig { access_token: self.config.access_token.clone() } },
        )
    }
}

} // verus!
