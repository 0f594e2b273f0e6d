//! The error taxonomy shared by every adapter and by the client facade.

use vstd::prelude::*;
use vstd::string::StringExecFns;

verus! {

/// Everything that can go wrong during one adapter call or one registry
/// lookup.  Every error is terminal for that call: nothing is retried.
#[derive(Debug, Clone)]
pub enum CarbemError {
    /// A credential or a query filter is missing or malformed.
    Config(String),
    /// No configured adapter answers to the requested provider name.
    UnsupportedProvider(String),
    /// The upstream HTTP exchange failed or returned a non-success status.
    Api(String),
    /// The response body does not match the provider's documented schema.
    Serialization(String),
}

impl CarbemError {
    /// True iff this is a configuration error carrying exactly `msg`.
    pub open spec fn is_config_with(self, msg: Seq<char>) -> bool {
        self matches CarbemError::Config(m) && m@ == msg
    }

    /// True iff this is an unsupported-provider error carrying exactly `name`.
    pub open spec fn is_unsupported_with(self, name: Seq<char>) -> bool {
        self matches CarbemError::UnsupportedProvider(n) && n@ == name
    }

    /// The payload carried by the error, whatever its variant.
    pub open spec fn spec_payload(self) -> Seq<char> {
        match self {
            CarbemError::Config(m) => m@,
            CarbemError::UnsupportedProvider(m) => m@,
            CarbemError::Api(m) => m@,
            CarbemError::Serialization(m) => m@,
        }
    }

    /// The message of the error, prefixed with its category.
    pub fn message(&self) -> (r: String)
        ensures
            r@ == self.spec_category_prefix() + self.spec_payload(),
    {
        let mut m = match self {
            CarbemError::Config(_) => String::from_str("Configuration error: "),
            CarbemError::UnsupportedProvider(_) => String::from_str("Unsupported provider: "),
            CarbemError::Api(_) => String::from_str("API error: "),
            CarbemError::Serialization(_) => String::from_str("Serialization error: "),
        };
        let payload = match self {
            CarbemError::Config(p) => p,
            CarbemError::UnsupportedProvider(p) => p,
            CarbemError::Api(p) => p,
            CarbemError::Serialization(p) => p,
        };
        m.append(payload.as_str());
        m
    }

    /// The category prefix that `message` places before the payload.
    pub open spec fn spec_category_prefix(self) -> Seq<char> {
        match self {
            CarbemError::Config(_) => "Configuration error: "@,
            CarbemError::UnsupportedProvider(_) => "Unsupported provider: "@,
            CarbemError::Api(_) => "API error: "@,
            CarbemError::Serialization(_) => "Serialization error: "@,
        }
    }
}

} // verus!
