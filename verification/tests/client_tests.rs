use carbem::client::env_credential;
use carbem::error::CarbemError;
use carbem::providers::azure::AzureConfig;
use carbem::providers::ibm::IbmConfig;
use carbem::providers::CarbonProvider;
use carbem::CarbemClient;

#[test]
fn test_type_safe_builder() {
    // This won't compile without configuring at least one provider:
    // `CarbemClient::builder().build()` has no `build` in the empty state.
    let config = AzureConfig {
        access_token: "test".to_string(),
    };

    let client = CarbemClient::builder().with_azure(config).unwrap().build();

    assert!(client.has_provider("azure"));
}

#[test]
fn test_ibm_provider_builder() {
    let config = IbmConfig {
        api_key: "test-api-key".to_string(),
        enterprise_id: "test-enterprise-id".to_string(),
    };

    let client = CarbemClient::builder().with_ibm(config).unwrap().build();

    assert!(client.has_provider("ibm"));
}

#[test]
fn test_multiple_providers() {
    let azure_config = AzureConfig {
        access_token: "test-azure".to_string(),
    };
    let ibm_config = IbmConfig {
        api_key: "test-ibm-key".to_string(),
        enterprise_id: "test-ibm-enterprise".to_string(),
    };

    let client = CarbemClient::builder()
        .with_azure(azure_config)
        .unwrap()
        .with_ibm(ibm_config)
        .unwrap()
        .build();

    assert_eq!(client.available_providers().len(), 2);
    assert!(client.has_provider("azure"));
    assert!(client.has_provider("ibm"));
}

#[test]
fn test_unknown_provider_fails_with_name() {
    let config = AzureConfig {
        access_token: "token".to_string(),
    };
    let client = CarbemClient::builder().with_azure(config).unwrap().build();

    assert!(!client.has_provider("gcp"));
    match client.provider_for("gcp") {
        Ok(_) => panic!("an unconfigured provider must not dispatch"),
        Err(CarbemError::UnsupportedProvider(name)) => assert_eq!(name, "gcp"),
        Err(_) => panic!("the error must carry the requested provider name"),
    }
}

#[test]
fn test_provider_for_finds_matching_adapter() {
    let ibm_config = IbmConfig {
        api_key: "key".to_string(),
        enterprise_id: "ent".to_string(),
    };
    let client = CarbemClient::builder().with_ibm(ibm_config).unwrap().build();

    let provider = client.provider_for("ibm").unwrap();
    assert_eq!(provider.name(), "ibm");
    assert_eq!(client.available_providers(), vec!["ibm"]);
}

#[test]
fn test_dispatch_picks_first_matching_adapter() {
    let first = IbmConfig {
        api_key: "first-key".to_string(),
        enterprise_id: "first-ent".to_string(),
    };
    let second = IbmConfig {
        api_key: "second-key".to_string(),
        enterprise_id: "second-ent".to_string(),
    };
    let client = CarbemClient::builder()
        .with_ibm(first)
        .unwrap()
        .with_ibm(second)
        .unwrap()
        .build();

    match client.provider_for("ibm").unwrap() {
        carbem::providers::Provider::Ibm(p) => assert_eq!(p.config.api_key, "first-key"),
        _ => panic!("the ibm adapter must answer to its name"),
    }
}

#[test]
fn test_env_credential_prefers_primary() {
    let r = env_credential(
        Some("primary-key".to_string()),
        Some("fallback-key".to_string()),
        "IBM_API_KEY or CARBEM_IBM_API_KEY environment variable not set",
    );
    assert_eq!(r.unwrap(), "primary-key");
}

#[test]
fn test_env_credential_falls_back() {
    let r = env_credential(
        None,
        Some("fallback-key".to_string()),
        "IBM_API_KEY or CARBEM_IBM_API_KEY environment variable not set",
    );
    assert_eq!(r.unwrap(), "fallback-key");
}

#[test]
fn test_env_credential_missing_is_config_error() {
    let r = env_credential(
        None,
        None,
        "IBM_API_KEY or CARBEM_IBM_API_KEY environment variable not set",
    );
    match r {
        Err(CarbemError::Config(m)) => {
            assert_eq!(m, "IBM_API_KEY or CARBEM_IBM_API_KEY environment variable not set")
        }
        _ => panic!("missing credentials must be a configuration error"),
    }
}

#[test]
fn test_error_messages_name_their_category() {
    let config = CarbemError::Config("bad field".to_string());
    assert_eq!(config.message(), "Configuration error: bad field");
    let unsupported = CarbemError::UnsupportedProvider("gcp".to_string());
    assert_eq!(unsupported.message(), "Unsupported provider: gcp");
    let api = CarbemError::Api("status 500".to_string());
    assert_eq!(api.message(), "API error: status 500");
    let serialization = CarbemError::Serialization("bad shape".to_string());
    assert_eq!(serialization.message(), "Serialization error: bad shape");
}
