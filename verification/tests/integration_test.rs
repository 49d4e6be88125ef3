//! Integration-style tests across the client, the models and the errors.

use docaroo_rs::client::DocarooConfig;
use docaroo_rs::error::DocarooError;
use docaroo_rs::models::{
    CodeType, LikelihoodData, LikelihoodMeta, LikelihoodRequest, LikelihoodResponse, PricingMeta,
    PricingRequest, PricingResponse, RateData,
};
use docaroo_rs::DocarooClient;

#[test]
fn integration_test_test_client_creation() {
    let client = DocarooClient::new("test-api-key");
    assert_eq!(client.api_key(), "test-api-key");
    assert_eq!(client.base_url(), docaroo_rs::API_BASE_URL);
}

#[test]
fn test_custom_config() {
    let config = DocarooConfig::builder()
        .api_key("custom-key")
        .base_url("https://custom.example.com")
        .build();

    let client = DocarooClient::with_config(config);
    assert_eq!(client.api_key(), "custom-key");
    assert_eq!(client.base_url(), "https://custom.example.com");
}

#[test]
fn client_test_client_creation() {
    let client = DocarooClient::new("test-api-key");
    assert_eq!(client.api_key(), "test-api-key");
    assert_eq!(client.base_url(), docaroo_rs::API_BASE_URL);
}

#[test]
fn test_client_with_config() {
    let config = DocarooConfig::builder()
        .api_key("custom-key")
        .base_url("https://custom.api.com")
        .build();

    let client = DocarooClient::with_config(config);
    assert_eq!(client.api_key(), "custom-key");
    assert_eq!(client.base_url(), "https://custom.api.com");
}

#[test]
fn test_build_url() {
    let client = DocarooClient::new("test-key");
    let url = client.build_url("/pricing/in-network").unwrap();

    assert_eq!(url.path(), "/pricing/in-network");
    assert_eq!(
        url.query_pairs()
            .find(|(k, _)| k == "key")
            .map(|(_, v)| v.into_owned()),
        Some("test-key".to_string())
    );
}

#[test]
fn test_build_url_invalid_base() {
    let config = DocarooConfig::builder()
        .api_key("test-key")
        .base_url("not a url at all")
        .build();
    let client = DocarooClient::with_config(config);

    let result = client.build_url("/pricing/in-network");
    match result {
        Err(DocarooError::UrlError(message)) => assert!(!message.is_empty()),
        _ => panic!("Expected UrlError"),
    }
}

#[test]
fn integration_test_test_pricing_request_builder() {
    let request = PricingRequest::builder()
        .npis(vec![String::from("1234567890"), String::from("0987654321")])
        .condition_code("99214")
        .plan_id("custom-plan")
        .code_type(CodeType::Hcpcs)
        .build();

    assert_eq!(request.npis.len(), 2);
    assert_eq!(request.npis[0], "1234567890");
    assert_eq!(request.npis[1], "0987654321");
    assert_eq!(request.condition_code, "99214");
    assert_eq!(request.plan_id, Some("custom-plan".to_string()));
    assert_eq!(request.code_type, Some(CodeType::Hcpcs));
}

#[test]
fn integration_test_test_likelihood_request_builder() {
    let request = LikelihoodRequest::builder()
        .npis(vec!["1111111111".to_string(), "2222222222".to_string()])
        .condition_code("90834")
        .code_type("CPT")
        .build();

    assert_eq!(request.npis.len(), 2);
    assert_eq!(request.condition_code, "90834");
    assert_eq!(request.code_type, "CPT");
}

#[test]
fn test_error_types() {
    // Rate limit error
    let error = DocarooError::RateLimitExceeded { retry_after: 60 };
    assert!(error.is_retryable());
    assert!(matches!(error, DocarooError::RateLimitExceeded { .. }));

    // API error
    let error = DocarooError::ApiError {
        code: "bad_request".to_string(),
        message: "Invalid NPI".to_string(),
        request_id: Some("req_123".to_string()),
    };
    assert!(!error.is_retryable());
    assert_eq!(error.request_id(), Some("req_123"));

    // Authentication error
    let error = DocarooError::AuthenticationFailed("Invalid API key".to_string());
    assert!(!error.is_retryable());
}

#[test]
fn integration_test_test_code_type_serialization() {
    let test_cases = vec![
        (CodeType::Cpt, "\"CPT\""),
        (CodeType::Ndc, "\"NDC\""),
        (CodeType::Hcpcs, "\"HCPCS\""),
        (CodeType::MsDrg, "\"MS-DRG\""),
        (CodeType::CstmAll, "\"CSTM-ALL\""),
    ];

    for (code_type, expected) in test_cases {
        let json = format!("\"{}\"", code_type.to_wire());
        assert_eq!(json, expected);

        let deserialized = CodeType::from_wire(code_type.to_wire()).unwrap();
        assert_eq!(deserialized, code_type);
    }
}

#[test]
fn test_pricing_request_validation() {
    let client = DocarooClient::new("test-key");
    let _pricing_client = client.pricing();

    // A valid request is built with the fields it was given.
    let valid_request = PricingRequest::builder()
        .npis(vec![String::from("1234567890")])
        .condition_code("99214")
        .build();

    assert!(!valid_request.npis.is_empty());
    assert!(!valid_request.condition_code.is_empty());
}

#[test]
fn test_likelihood_request_validation() {
    let client = DocarooClient::new("test-key");
    let _procedures_client = client.procedures();

    // A valid request is built with the fields it was given.
    let valid_request = LikelihoodRequest::builder()
        .npis(vec![String::from("1234567890")])
        .condition_code("99214")
        .code_type("CPT")
        .build();

    assert!(!valid_request.npis.is_empty());
    assert!(!valid_request.condition_code.is_empty());
    assert!(!valid_request.code_type.is_empty());
}

#[test]
fn test_pricing_response_lookup() {
    // The values of a pricing success payload, as this library holds them
    // once the collaborating codec has decoded the body.
    let response = PricingResponse {
        data: vec![(
            "1043566623".to_string(),
            vec![RateData {
                code: "99214".to_string(),
                code_type: "CPT".to_string(),
                negotiated_type: "negotiated".to_string(),
                min_rate: "65.87".to_string(),
                max_rate: "266.88".to_string(),
                avg_rate: "147.03".to_string(),
                instances: 6,
            }],
        )],
        meta: PricingMeta {
            plan_id: "942404110".to_string(),
            payer: "UNH".to_string(),
            request_id: "req_test123".to_string(),
            timestamp: "2025-06-15T23:15:48.734729Z".to_string(),
            processing_time_ms: 912,
            in_network_records_count: 14,
        },
    };

    let rates = response.rates_for("1043566623").unwrap();
    assert_eq!(rates.len(), 1);
    assert_eq!(rates[0].code, "99214");
    assert_eq!(rates[0].avg_rate, "147.03");
    assert!(response.rates_for("9999999999").is_none());

    assert_eq!(response.meta.plan_id, "942404110");
    assert_eq!(response.meta.payer, "UNH");
    assert_eq!(response.meta.processing_time_ms, 912);
}

#[test]
fn test_likelihood_response_lookup() {
    let response = LikelihoodResponse {
        data: vec![(
            "1487648176".to_string(),
            LikelihoodData {
                code: "99214".to_string(),
                code_type: "CPT".to_string(),
                likelihood: "0.9".to_string(),
            },
        )],
        meta: LikelihoodMeta {
            request_id: "req_test456".to_string(),
            timestamp: "2025-06-15T23:22:22.395111Z".to_string(),
            processing_time_ms: 731,
            out_of_network_records_count: 68,
        },
    };

    let data = response.likelihood_for("1487648176").unwrap();
    assert_eq!(data.code, "99214");
    assert_eq!(data.likelihood, "0.9");
    assert!(response.likelihood_for("0000000000").is_none());

    assert_eq!(response.meta.request_id, "req_test456");
    assert_eq!(response.meta.processing_time_ms, 731);
}
