//! The provider registry: maps a provider name and a tagged credential
//! configuration to a constructed adapter, failing closed on unknown names.

use crate::error::CarbemError;
use crate::providers::azure::{AzureConfig, AzureProvider};
use crate::providers::ibm::models::IbmConfig;
use crate::providers::ibm::IbmProvider;
use crate::providers::{Provider, ProviderCredentials};
use crate::text::str_equal;
use vstd::prelude::*;
use vstd::string::StringExecFns;

verus! {

/// The set of provider names the registry recognizes, and how each is
/// constructed.
pub struct ProviderRegistry {}

impl ProviderRegistry {
    /// A registry recognizing every built-in provider.
    pub fn new() -> (r: Self) {
        ProviderRegistry {  }
    }

    /// Construct the adapter for `name` from `config`.  Unknown names fail
    /// closed with an unsupported-provider error; a known name whose
    /// configuration is tagged for a different provider is a configuration
    /// error.
    pub fn create_provider(&self, name: &str, config: &ProviderCredentials) -> (r: Result<
        Provider,
        CarbemError,
    >)
        ensures
            name@ == "azure"@ ==> match *config {
                ProviderCredentials::Azure(c) => r matches Ok(Provider::Azure(p))
                    && p.config.access_token@ == c.access_token@,
                ProviderCredentials::Ibm(_) => r matches Err(e) && e.is_config_with(
                    "azure provider requires an Azure configuration"@,
                ),
            },
            name@ == "ibm"@ ==> match *config {
                ProviderCredentials::Ibm(c) => r matches Ok(Provider::Ibm(p))
                    && p.config.api_key@ == c.api_key@ && p.config.enterprise_id@
                    == c.enterprise_id@,
                ProviderCredentials::Azure(_) => r matches Err(e) && e.is_config_with(
                    "ibm provider requires an IBM configuration"@,
                ),
            },
            name@ != "azure"@ && name@ != "ibm"@ ==> (r matches Err(e) && e.is_unsupported_with(
                name@,
            )),
    {
        proof {
            reveal_strlit("azure");
            reveal_strlit("ibm");
            assert("azure"@.len() == 5);
            assert("ibm"@.len() == 3);
            assert("azure"@ != "ibm"@);
        }
        if str_equal(name, "azure") {
            match config {
                ProviderCredentials::Azure(c) => Ok(
                    Provider::Azure(
                        AzureProvider::new(
                            AzureConfig { access_token: c.access_token.clone() },
                        ),
                    ),
                ),
                ProviderCredentials::Ibm(_) => Err(
                    CarbemError::Config(
                        String::from_str("azure provider requires an Azure configuration"),
                    ),
                ),
            }
        } else if str_equal(name, "ibm") {
            match config {
                ProviderCredentials::Ibm(c) => {
                    let created = IbmProvider::new(
                        IbmConfig {
                            api_key: c.api_key.clone(),
                            enterprise_id: c.enterprise_id.clone(),
                        },
                    );
                    match created {
                        Ok(provider) => Ok(Provider::Ibm(provider)),
                        Err(e) => Err(e),
                    }
                },
                ProviderCredentials::Azure(_) => Err(
                    CarbemError::Config(
                        String::from_str("ibm provider requires an IBM configuration"),
                    ),
                ),
            }
        } else {
            Err(CarbemError::UnsupportedProvider(String::from_str(name)))
        }
    }
}

} // verus!
