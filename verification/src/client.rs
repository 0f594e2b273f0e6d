//! The type-safe builder and the client facade: a name-keyed dispatch table
//! over configured adapters.  The facade performs no translation itself.

use crate::error::CarbemError;
use crate::providers::azure::AzureConfig;
use crate::providers::ibm::IbmConfig;
use crate::providers::registry::ProviderRegistry;
use crate::providers::{CarbonProvider, Provider, ProviderCredentials};
use crate::text::str_equal;
use core::marker::PhantomData;
use vstd::prelude::*;
use vstd::string::StringExecFns;

verus! {

/// Builder state: no providers configured yet.
pub struct Empty;

/// Builder state: at least one provider configured.
pub struct Configured;

/// Type-safe builder for `CarbemClient`: the phantom state parameter keeps
/// `build` out of reach until at least one provider has been added, so a
/// client can never be constructed with an empty adapter set.
#[verifier::reject_recursive_types(State)]
pub struct CarbemClientBuilder<State> {
    registry: ProviderRegistry,
    providers: Vec<Provider>,
    _state: PhantomData<State>,
}

impl<State> CarbemClientBuilder<State> {
    /// The adapters added so far, in configuration order.
    pub closed spec fn spec_providers(&self) -> Seq<Provider> {
        self.providers@
    }
}

impl CarbemClientBuilder<Empty> {
    /// Create a new builder with no adapters.
    pub fn new() -> (r: Self)
        ensures
            r.spec_providers().len() == 0,
    {
        CarbemClientBuilder {
            registry: ProviderRegistry::new(),
            providers: Vec::new(),
            _state: PhantomData,
        }
    }

    /// Add an Azure provider with explicit credentials.
    pub fn with_azure(self, config: AzureConfig) -> (r: Result<
        CarbemClientBuilder<Configured>,
        CarbemError,
    >)
        ensures
            r matches Ok(b) && spec_added_azure(
                self.spec_providers(),
                b.spec_providers(),
                config,
            ),
    {
        let ghost before = self.spec_providers();
        let mut providers = self.providers;
        let registry = self.registry;
        let created = registry.create_provider("azure", &ProviderCredentials::Azure(config));
        match created {
            Ok(p) => {
                providers.push(p);
                proof {
                    assert(providers@.take(before.len() as int) =~= before);
                }
                Ok(CarbemClientBuilder { registry, providers, _state: PhantomData })
            },
            Err(e) => Err(e),
        }
    }

    /// Add an IBM Cloud provider with explicit credentials.
    pub fn with_ibm(self, config: IbmConfig) -> (r: Result<
        CarbemClientBuilder<Configured>,
        CarbemError,
    >)
        ensures
            r matches Ok(b) && spec_added_ibm(self.spec_providers(), b.spec_providers(), config),
    {
        let ghost before = self.spec_providers();
        let mut providers = self.providers;
        let registry = self.registry;
        let created = registry.create_provider("ibm", &ProviderCredentials::Ibm(config));
        match created {
            Ok(p) => {
                providers.push(p);
                proof {
                    assert(providers@.take(before.len() as int) =~= before);
                }
                Ok(CarbemClientBuilder { registry, providers, _state: PhantomData })
            },
            Err(e) => Err(e),
        }
    }
}

/// Choose a credential discovered from the environment: the value of the
/// provider-prefixed variable wins, the library-prefixed one is the
/// fallback, and when both are missing the result is a configuration error
/// carrying `missing_message`.  The environment reads themselves stay with
/// the caller; this settles what they amount to.
pub fn env_credential(primary: Option<String>, fallback: Option<String>, missing_message: &str) -> (r:
    Result<String, CarbemError>)
    ensures
        match primary {
            Some(p) => r matches Ok(v) && v@ == p@,
            None => match fallback {
                Some(f) => r matches Ok(v) && v@ == f@,
                None => r matches Err(e) && e.is_config_with(missing_message@),
            },
        },
{
    match primary {
        Some(p) => Ok(p),
        None => match fallback {
            Some(f) => Ok(f),
            None => Err(CarbemError::Config(String::from_str(missing_message))),
        },
    }
}

/// The adapter list grew by one Azure adapter holding these credentials.
pub open spec fn spec_added_azure(
    before: Seq<Provider>,
    after: Seq<Provider>,
    config: AzureConfig,
) -> bool {
    &&& after.len() == before.len() + 1
    &&& after.take(before.len() as int) == before
    &&& after.last() matches Provider::Azure(p) && p.config.access_token@ == config.access_token@
}

/// The adapter list grew by one IBM adapter holding these credentials.
pub open spec fn spec_added_ibm(
    before: Seq<Provider>,
    after: Seq<Provider>,
    config: IbmConfig,
) -> bool {
    &&& after.len() == before.len() + 1
    &&& after.take(before.len() as int) == before
    &&& after.last() matches Provider::Ibm(p) && p.config.api_key@ == config.api_key@
        && p.config.enterprise_id@ == config.enterprise_id@
}

impl CarbemClientBuilder<Configured> {
    /// Add another Azure provider (for multiple subscriptions).
    pub fn with_azure(self, config: AzureConfig) -> (r: Result<Self, CarbemError>)
        ensures
            r matches Ok(b) && spec_added_azure(
                self.spec_providers(),
                b.spec_providers(),
                config,
            ),
    {
        let ghost before = self.spec_providers();
        let mut providers = self.providers;
        let registry = self.registry;
        let created = registry.create_provider("azure", &ProviderCredentials::Azure(config));
        match created {
            Ok(p) => {
                providers.push(p);
                proof {
                    assert(providers@.take(before.len() as int) =~= before);
                }
                Ok(CarbemClientBuilder { registry, providers, _state: PhantomData })
            },
            Err(e) => Err(e),
        }
    }

    /// Add another IBM Cloud provider (for additional accounts).
    pub fn with_ibm(self, config: IbmConfig) -> (r: Result<Self, CarbemError>)
        ensures
            r matches Ok(b) && spec_added_ibm(self.spec_providers(), b.spec_providers(), config),
    {
        let ghost before = self.spec_providers();
        let mut providers = self.providers;
        let registry = self.registry;
        let created = registry.create_provider("ibm", &ProviderCredentials::Ibm(config));
        match created {
            Ok(p) => {
                providers.push(p);
                proof {
                    assert(providers@.take(before.len() as int) =~= before);
                }
                Ok(CarbemClientBuilder { registry, providers, _state: PhantomData })
            },
            Err(e) => Err(e),
        }
    }

    /// Build the final client (only available once configured).
    pub fn build(self) -> (r: CarbemClient)
        ensures
            r.spec_providers() == self.spec_providers(),
    {
        CarbemClient { providers: self.providers }
    }
}

/// The client facade: an ordered, non-empty collection of configured
/// adapters, dispatching each query to the adapter whose name matches.
#[derive(Clone)]
pub struct CarbemClient {
    providers: Vec<Provider>,
}

/// `names[i]` is the first occurrence of `name`.
pub open spec fn spec_match_at(names: Seq<Seq<char>>, name: Seq<char>, i: int) -> bool {
    &&& 0 <= i < names.len()
    &&& names[i] == name
    &&& forall|j: int| 0 <= j < i ==> names[j] != name
}

impl CarbemClient {
    /// The configured adapters, in configuration order.
    pub closed spec fn spec_providers(&self) -> Seq<Provider> {
        self.providers@
    }

    /// The names of the configured adapters, in configuration order.
    pub open spec fn spec_names(&self) -> Seq<Seq<char>> {
        self.spec_providers().map_values(|p: Provider| p.spec_name())
    }

    /// Create a new builder.
    pub fn builder() -> (r: CarbemClientBuilder<Empty>)
        ensures
            r.spec_providers().len() == 0,
    {
        CarbemClientBuilder::<Empty>::new()
    }

    /// The names of all configured providers, in configuration order.
    pub fn available_providers(&self) -> (r: Vec<&'static str>)
        ensures
            r.deep_view() == self.spec_names(),
    {
        let mut names: Vec<&'static str> = Vec::new();
        let n = self.providers.len();
        let mut i: usize = 0;
        while i < n
            invariant
                i <= n,
                n == self.providers.len(),
                names@.len() == i,
                forall|k: int| 0 <= k < i ==> names@[k]@ == self.spec_names()[k],
            decreases n - i,
        {
            names.push(self.providers[i].name());
            proof {
                assert(self.spec_names()[i as int] == self.spec_providers()[i as int].spec_name());
            }
            i = i + 1;
        }
        proof {
            assert forall|k: int| 0 <= k < n implies names.deep_view()[k] == self.spec_names()[k] by {
                assert(names.deep_view()[k] == names@[k]@);
            }
            assert(names.deep_view() =~= self.spec_names());
        }
        names
    }

    /// Whether some configured adapter answers to `name`.
    pub fn has_provider(&self, name: &str) -> (r: bool)
        ensures
            r == self.spec_names().contains(name@),
    {
        let n = self.providers.len();
        let mut i: usize = 0;
        while i < n
            invariant
                i <= n,
                n == self.providers.len(),
                forall|j: int| 0 <= j < i ==> self.spec_names()[j] != name@,
            decreases n - i,
        {
            if str_equal(self.providers[i].name(), name) {
                proof {
                    assert(self.spec_names()[i as int] == name@);
                }
                return true;
            }
            i = i + 1;
        }
        proof {
            assert(!self.spec_names().contains(name@)) by {
                if self.spec_names().contains(name@) {
                    let j = choose|j: int|
                        0 <= j < self.spec_names().len() && self.spec_names()[j] == name@;
                    assert(self.spec_names()[j] != name@);
                }
            }
        }
        false
    }

    /// The first configured adapter answering to `name`.  A name no adapter
    /// answers to always fails with an unsupported-provider error carrying
    /// the requested name; it never panics.
    pub fn provider_for(&self, name: &str) -> (r: Result<&Provider, CarbemError>)
        ensures
            self.spec_names().contains(name@) ==> (r matches Ok(p) && exists|i: int|
                spec_match_at(self.spec_names(), name@, i) && *p == self.spec_providers()[i]),
            !self.spec_names().contains(name@) ==> (r matches Err(e) && e.is_unsupported_with(
                name@,
            )),
    {
        let n = self.providers.len();
        let mut i: usize = 0;
        while i < n
            invariant
                i <= n,
                n == self.providers.len(),
                forall|j: int| 0 <= j < i ==> self.spec_names()[j] != name@,
            decreases n - i,
        {
            if str_equal(self.providers[i].name(), name) {
                proof {
                    assert(self.spec_names()[i as int] == name@);
                    assert(spec_match_at(self.spec_names(), name@, i as int));
                }
                return Ok(&self.providers[i]);
            }
            i = i + 1;
        }
        proof {
            assert(!self.spec_names().contains(name@)) by {
                if self.spec_names().contains(name@) {
                    let j = choose|j: int|
                        0 <= j < self.spec_names().len() && self.spec_names()[j] == name@;
                    assert(self.spec_names()[j] != name@);
                }
            }
        }
        Err(CarbemError::UnsupportedProvider(String::from_str(name)))
    }
}

} // verus!
