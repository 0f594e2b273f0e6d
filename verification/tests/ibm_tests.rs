use carbem::models::{MilliQuantity, TimePeriod, UtcDateTime};
use carbem::providers::config::ProviderQueryConfig;
use carbem::providers::ibm::models::{IbmEmissionData, IbmGroupByInfo, IbmMonthInfo};
use carbem::providers::ibm::{IbmConfig, IbmGroupBy, IbmProvider, IbmQueryConfig};
use carbem::providers::CarbonProvider;

fn create_test_config() -> IbmConfig {
    IbmConfig {
        api_key: "test-api-key".to_string(),
        enterprise_id: String::new(),
    }
}

fn create_test_emission_query() -> carbem::models::EmissionQuery {
    carbem::models::EmissionQuery {
        provider: "ibm".to_string(),
        regions: vec!["Dallas".to_string(), "Frankfurt".to_string()],
        time_period: TimePeriod {
            start: UtcDateTime { year: 2023, month: 1, day: 1, hour: 0, minute: 0, second: 0 },
            end: UtcDateTime { year: 2023, month: 3, day: 31, hour: 23, minute: 59, second: 59 },
        },
        services: Some(vec![
            "Cloud Object Storage".to_string(),
            "Kubernetes Service".to_string(),
        ]),
        resources: None,
        provider_config: Some(ProviderQueryConfig::Ibm(IbmQueryConfig {
            enterprise_id: "x2x261x8x5x84xxxx49x4891xx077xx9".to_string(),
            group_by: Some(IbmGroupBy::Month),
            enterprise_account_id: None,
            limit: Some(10),
            offset: None,
        })),
    }
}

#[test]
fn test_ibm_provider_creation() {
    let config = create_test_config();
    let provider = IbmProvider::new(config);
    assert!(provider.is_ok());
}

#[test]
fn test_ibm_provider_name() {
    let config = create_test_config();
    let provider = IbmProvider::new(config).unwrap();
    assert_eq!(provider.name(), "ibm");
}

#[test]
fn test_ibm_provider_is_configured() {
    let config = create_test_config();
    let provider = IbmProvider::new(config).unwrap();
    assert!(provider.is_configured());

    let empty_config = IbmConfig {
        api_key: "".to_string(),
        enterprise_id: String::new(),
    };
    let provider = IbmProvider::new(empty_config).unwrap();
    assert!(!provider.is_configured());
}

#[test]
fn test_convert_emission_query_to_ibm_request() {
    let config = create_test_config();
    let provider = IbmProvider::new(config).unwrap();
    let query = create_test_emission_query();

    let ibm_request = provider
        .convert_emission_query_to_ibm_request(&query)
        .unwrap();

    assert_eq!(
        ibm_request.enterprise_id,
        "x2x261x8x5x84xxxx49x4891xx077xx9"
    );
    assert_eq!(
        ibm_request.locations,
        Some(vec!["Dallas".to_string(), "Frankfurt".to_string()])
    );
    assert_eq!(
        ibm_request.services,
        Some(vec![
            "Cloud Object Storage".to_string(),
            "Kubernetes Service".to_string()
        ])
    );
    assert_eq!(ibm_request.group_by, Some("month".to_string()));
    assert_eq!(ibm_request.limit, Some(10));

    // Check month filters
    let months = ibm_request.month.unwrap();
    assert!(months.contains(&"gte:2023-01".to_string()));
    assert!(months.contains(&"lte:2023-03".to_string()));
}

#[test]
fn test_missing_provider_config() {
    let config = create_test_config();
    let provider = IbmProvider::new(config).unwrap();
    let mut query = create_test_emission_query();
    query.provider_config = None;

    let result = provider.convert_emission_query_to_ibm_request(&query);
    assert!(result.is_err());
    assert!(result
        .unwrap_err()
        .message()
        .contains("provider_config with IBM configuration is required"));
}

#[test]
fn test_missing_enterprise_id() {
    let config = create_test_config();
    let provider = IbmProvider::new(config).unwrap();
    let mut query = create_test_emission_query();
    query.provider_config = Some(ProviderQueryConfig::Ibm(IbmQueryConfig {
        enterprise_id: "".to_string(),
        group_by: None,
        enterprise_account_id: None,
        limit: None,
        offset: None,
    }));

    let result = provider.convert_emission_query_to_ibm_request(&query);
    assert!(result.is_err());
    assert!(result
        .unwrap_err()
        .message()
        .contains("enterprise_id is required"));
}

#[test]
fn test_build_endpoint_url() {
    let config = create_test_config();
    let provider = IbmProvider::new(config).unwrap();
    let query = create_test_emission_query();

    let ibm_request = provider
        .convert_emission_query_to_ibm_request(&query)
        .unwrap();
    let url = provider.build_endpoint_url(&ibm_request);

    // Check URL structure - enterprise_id is a query parameter
    assert!(url.starts_with("https://api.carbon-calculator.cloud.ibm.com/v1/carbon_emissions?"));
    assert!(url.contains("enterprise_id=x2x261x8x5x84xxxx49x4891xx077xx9"));
    assert!(url.contains("month=gte%3A2023-01"));
    assert!(url.contains("month=lte%3A2023-03"));
    // Locations are comma-separated
    assert!(url.contains("locations=Dallas%2C%20Frankfurt"));
    // Services are comma-separated
    assert!(url.contains("services=Cloud%20Object%20Storage%2C%20Kubernetes%20Service"));
    assert!(url.contains("group_by=month"));
    assert!(url.contains("limit=10"));
}

#[test]
fn test_build_endpoint_url_encodes_beyond_ascii() {
    let config = create_test_config();
    let provider = IbmProvider::new(config).unwrap();
    let mut query = create_test_emission_query();
    query.regions = vec!["S\u{e3}o Paulo".to_string()];
    query.services = None;

    let ibm_request = provider
        .convert_emission_query_to_ibm_request(&query)
        .unwrap();
    let url = provider.build_endpoint_url(&ibm_request);

    // Every byte of the UTF-8 form outside the unreserved set is escaped.
    assert!(url.contains("locations=S%C3%A3o%20Paulo"));
}

#[test]
fn test_build_month_filters() {
    let config = create_test_config();
    let provider = IbmProvider::new(config).unwrap();

    let time_period = TimePeriod {
        start: UtcDateTime { year: 2023, month: 1, day: 15, hour: 0, minute: 0, second: 0 },
        end: UtcDateTime { year: 2023, month: 3, day: 20, hour: 23, minute: 59, second: 59 },
    };

    let filters = provider.build_month_filters(&time_period);
    assert_eq!(filters.len(), 2);
    assert_eq!(filters[0], "gte:2023-01");
    assert_eq!(filters[1], "lte:2023-03");
}

#[test]
fn test_parse_month_to_time_period() {
    let config = create_test_config();
    let provider = IbmProvider::new(config).unwrap();

    let time_period = provider.parse_month_to_time_period("2024-02").unwrap();
    assert_eq!(
        time_period.start,
        UtcDateTime { year: 2024, month: 2, day: 1, hour: 0, minute: 0, second: 0 }
    );
    // 2024 is a leap year
    assert_eq!(
        time_period.end,
        UtcDateTime { year: 2024, month: 2, day: 29, hour: 23, minute: 59, second: 59 }
    );
}

#[test]
fn test_parse_month_to_time_period_non_leap() {
    let config = create_test_config();
    let provider = IbmProvider::new(config).unwrap();

    let time_period = provider.parse_month_to_time_period("2023-02").unwrap();
    assert_eq!(time_period.end.day, 28);
    assert_eq!(time_period.end.hour, 23);
    assert_eq!(time_period.end.minute, 59);
    assert_eq!(time_period.end.second, 59);

    // A malformed marker yields nothing rather than a guess.
    assert!(provider.parse_month_to_time_period("2023-2").is_none());
    assert!(provider.parse_month_to_time_period("2023-13").is_none());
}

#[test]
fn test_convert_to_carbon_emission() {
    let config = create_test_config();
    let provider = IbmProvider::new(config).unwrap();

    let data = IbmEmissionData {
        account_id: "x2x261x8x5x84xxxx49x4891xx077xx9".to_string(),
        // 2000 grams, held as milligrams
        carbon_emission: MilliQuantity { thousandths: 2_000_000 },
        // 5000 Wh, held as thousandths of a watt-hour
        energy_consumption: MilliQuantity { thousandths: 5_000_000 },
        month: IbmMonthInfo {
            value: "2023-01".to_string(),
            min: Some("2023-01".to_string()),
            max: Some("2023-02".to_string()),
        },
        group_by: Some(IbmGroupByInfo {
            group_type: "month".to_string(),
            value: "2023-01".to_string(),
        }),
        location: None,
        service: None,
    };

    let time_period = TimePeriod {
        start: UtcDateTime { year: 2023, month: 1, day: 1, hour: 0, minute: 0, second: 0 },
        end: UtcDateTime { year: 2023, month: 3, day: 31, hour: 23, minute: 59, second: 59 },
    };

    let emission = provider.convert_to_carbon_emission(&data, &time_period);

    assert_eq!(emission.provider, "ibm");
    assert_eq!(emission.region, "unknown"); // No location in this case
    assert_eq!(emission.service, None);
    // 2000 grams = 2 kg, held as millionths of a kilogram
    assert_eq!(emission.emissions_kg_co2eq.millionths, 2_000_000);
    // 5000 Wh = 5 kWh, held as millionths of a kilowatt-hour
    assert_eq!(
        emission.metadata.as_ref().unwrap().energy_kwh.unwrap().millionths,
        5_000_000
    );

    // Check provider_data
    let metadata = emission.metadata.as_ref().unwrap();
    let provider_data = metadata.provider_data.as_ref().unwrap();
    assert_eq!(
        provider_data.get("account_id").unwrap(),
        "x2x261x8x5x84xxxx49x4891xx077xx9"
    );
    assert_eq!(provider_data.get("group_by_type").unwrap(), "month");
    assert_eq!(provider_data.get("group_by_value").unwrap(), "2023-01");
}

#[test]
fn test_convert_to_carbon_emission_with_location() {
    let config = create_test_config();
    let provider = IbmProvider::new(config).unwrap();

    let data = IbmEmissionData {
        account_id: "test-account".to_string(),
        // 1500 grams
        carbon_emission: MilliQuantity { thousandths: 1_500_000 },
        // 3000 Wh
        energy_consumption: MilliQuantity { thousandths: 3_000_000 },
        month: IbmMonthInfo {
            value: "2023-02".to_string(),
            min: None,
            max: None,
        },
        group_by: Some(IbmGroupByInfo {
            group_type: "location".to_string(),
            value: "Dallas".to_string(),
        }),
        location: Some("Dallas".to_string()),
        service: Some("Cloud Object Storage".to_string()),
    };

    let time_period = TimePeriod {
        start: UtcDateTime { year: 2023, month: 2, day: 1, hour: 0, minute: 0, second: 0 },
        end: UtcDateTime { year: 2023, month: 2, day: 28, hour: 23, minute: 59, second: 59 },
    };

    let emission = provider.convert_to_carbon_emission(&data, &time_period);

    assert_eq!(emission.provider, "ibm");
    assert_eq!(emission.region, "Dallas");
    assert_eq!(emission.service, Some("Cloud Object Storage".to_string()));
    // 1500 grams = 1.5 kg
    assert_eq!(emission.emissions_kg_co2eq.millionths, 1_500_000);
}

#[test]
fn test_region_falls_back_to_location_grouping() {
    let config = create_test_config();
    let provider = IbmProvider::new(config).unwrap();

    let data = IbmEmissionData {
        account_id: "acct".to_string(),
        carbon_emission: MilliQuantity { thousandths: 1_000 },
        energy_consumption: MilliQuantity { thousandths: 1_000 },
        month: IbmMonthInfo { value: "2023-05".to_string(), min: None, max: None },
        group_by: Some(IbmGroupByInfo {
            group_type: "location".to_string(),
            value: "Frankfurt".to_string(),
        }),
        location: None,
        service: None,
    };
    let time_period = TimePeriod {
        start: UtcDateTime { year: 2023, month: 5, day: 1, hour: 0, minute: 0, second: 0 },
        end: UtcDateTime { year: 2023, month: 5, day: 31, hour: 23, minute: 59, second: 59 },
    };

    let emission = provider.convert_to_carbon_emission(&data, &time_period);
    // With no explicit location, the location grouping names the region.
    assert_eq!(emission.region, "Frankfurt");

    // The record's own month marker sets its span.
    assert_eq!(emission.time_period.start.month, 5);
    assert_eq!(emission.time_period.end.day, 31);
}

#[test]
fn test_empty_regions_omit_locations_filter() {
    let config = create_test_config();
    let provider = IbmProvider::new(config).unwrap();
    let mut query = create_test_emission_query();
    query.regions = Vec::new();
    query.services = None;

    let ibm_request = provider
        .convert_emission_query_to_ibm_request(&query)
        .unwrap();
    assert_eq!(ibm_request.locations, None);
    assert_eq!(ibm_request.services, None);

    let url = provider.build_endpoint_url(&ibm_request);
    assert!(!url.contains("locations="));
    assert!(!url.contains("services="));
}

#[test]
fn test_inverted_time_period_still_translates() {
    let config = create_test_config();
    let provider = IbmProvider::new(config).unwrap();
    let mut query = create_test_emission_query();
    // An inverted range is tolerated: the filters simply select nothing.
    query.time_period = TimePeriod {
        start: UtcDateTime { year: 2023, month: 6, day: 1, hour: 0, minute: 0, second: 0 },
        end: UtcDateTime { year: 2023, month: 2, day: 1, hour: 0, minute: 0, second: 0 },
    };

    let filters = provider.build_month_filters(&query.time_period);
    assert_eq!(filters[0], "gte:2023-06");
    assert_eq!(filters[1], "lte:2023-02");
}

#[test]
fn test_normalize_response_converts_each_point() {
    let config = create_test_config();
    let provider = IbmProvider::new(config).unwrap();

    let response = carbem::providers::ibm::models::IbmCarbonEmissionResponse {
        carbon_emissions: vec![
            IbmEmissionData {
                account_id: "a1".to_string(),
                carbon_emission: MilliQuantity { thousandths: 1_000_000 },
                energy_consumption: MilliQuantity { thousandths: 2_000_000 },
                month: IbmMonthInfo { value: "2023-01".to_string(), min: None, max: None },
                group_by: None,
                location: Some("Dallas".to_string()),
                service: None,
            },
            IbmEmissionData {
                account_id: "a2".to_string(),
                carbon_emission: MilliQuantity { thousandths: 500 },
                energy_consumption: MilliQuantity { thousandths: 250 },
                month: IbmMonthInfo { value: "not-a-month".to_string(), min: None, max: None },
                group_by: None,
                location: None,
                service: Some("Kubernetes Service".to_string()),
            },
        ],
        total_emission: Some(MilliQuantity { thousandths: 1_000_500 }),
        offset: None,
        limit: None,
        total_count: Some(2),
        first: None,
        last: None,
        previous: None,
        next: None,
    };

    let query_period = TimePeriod {
        start: UtcDateTime { year: 2023, month: 1, day: 1, hour: 0, minute: 0, second: 0 },
        end: UtcDateTime { year: 2023, month: 3, day: 31, hour: 23, minute: 59, second: 59 },
    };

    let emissions = provider.normalize_response(&response, &query_period);
    assert_eq!(emissions.len(), 2);

    // 1 gram = 0.001 kg, held exactly.
    assert_eq!(emissions[0].region, "Dallas");
    assert_eq!(emissions[0].emissions_kg_co2eq.millionths, 1_000_000);
    assert_eq!(emissions[0].time_period.end.day, 31);

    // An unparseable month marker falls back to the query's period.
    assert_eq!(emissions[1].region, "unknown");
    assert_eq!(emissions[1].service, Some("Kubernetes Service".to_string()));
    assert_eq!(emissions[1].time_period, query_period);
}

#[test]
fn test_ibm_query_config_default() {
    let config = IbmQueryConfig::default();
    assert_eq!(config.enterprise_id, "");
    assert!(matches!(config.group_by, Some(IbmGroupBy::Month)));
    assert!(config.enterprise_account_id.is_none());
    assert!(config.limit.is_none());
    assert!(config.offset.is_none());

    assert!(config.validate().is_err());
}

#[test]
fn test_group_by_wire_names() {
    assert_eq!(IbmGroupBy::Month.as_str(), "month");
    assert_eq!(IbmGroupBy::Location.as_str(), "location");
    assert_eq!(IbmGroupBy::Service.as_str(), "service");
    assert_eq!(IbmGroupBy::Account.as_str(), "account");
}
