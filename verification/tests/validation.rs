//! Tests for request validation: the per-rule messages, their order, and
//! the identifier format check.

use docaroo_rs::error::DocarooError;
use docaroo_rs::models::{LikelihoodRequest, PricingRequest};
use docaroo_rs::pricing::PricingClient;
use docaroo_rs::procedures::ProceduresClient;
use docaroo_rs::validate::is_valid_npi;
use docaroo_rs::DocarooClient;

#[test]
fn test_validate_pricing_request_valid() {
    let client = DocarooClient::new("test-key");
    let pricing_client = PricingClient::new(client);

    let request = PricingRequest::builder()
        .npis(vec!["1234567890".to_string()])
        .condition_code("99214")
        .build();

    assert!(pricing_client.validate_pricing_request(&request).is_ok());
}

#[test]
fn test_validate_pricing_request_empty_npis() {
    let client = DocarooClient::new("test-key");
    let pricing_client = PricingClient::new(client);

    let request = PricingRequest {
        npis: vec![],
        condition_code: "99214".to_string(),
        plan_id: None,
        code_type: None,
    };

    let result = pricing_client.validate_pricing_request(&request);
    assert!(result.is_err());
    assert!(result
        .unwrap_err()
        .describe()
        .contains("At least one NPI must be provided"));
}

#[test]
fn test_validate_pricing_request_too_many_npis() {
    let client = DocarooClient::new("test-key");
    let pricing_client = PricingClient::new(client);

    let npis: Vec<String> = (0..11).map(|i| format!("{:010}", i)).collect();
    let request = PricingRequest {
        npis,
        condition_code: "99214".to_string(),
        plan_id: None,
        code_type: None,
    };

    let result = pricing_client.validate_pricing_request(&request);
    assert!(result.is_err());
    assert!(result
        .unwrap_err()
        .describe()
        .contains("Maximum 10 NPIs allowed"));
}

#[test]
fn test_validate_pricing_request_invalid_npi_format() {
    let client = DocarooClient::new("test-key");
    let pricing_client = PricingClient::new(client);

    let request = PricingRequest::builder()
        .npis(vec!["123".to_string()]) // Too short
        .condition_code("99214")
        .build();

    let result = pricing_client.validate_pricing_request(&request);
    assert!(result.is_err());
    assert!(result.unwrap_err().describe().contains("Invalid NPI format"));
}

#[test]
fn test_validate_pricing_request_blank_condition_code() {
    let client = DocarooClient::new("test-key");
    let pricing_client = PricingClient::new(client);

    let request = PricingRequest {
        npis: vec!["1234567890".to_string()],
        condition_code: "  ".to_string(),
        plan_id: None,
        code_type: None,
    };

    let result = pricing_client.validate_pricing_request(&request);
    assert!(result.is_err());
    assert!(result
        .unwrap_err()
        .describe()
        .contains("Condition code cannot be empty"));
}

#[test]
fn test_validate_pricing_request_first_bad_npi_reported() {
    let client = DocarooClient::new("test-key");
    let pricing_client = PricingClient::new(client);

    let request = PricingRequest {
        npis: vec![
            "1234567890".to_string(),
            "123".to_string(),
            "ABC".to_string(),
        ],
        condition_code: "99214".to_string(),
        plan_id: None,
        code_type: None,
    };

    let result = pricing_client.validate_pricing_request(&request);
    let message = result.unwrap_err().describe();
    assert_eq!(
        message,
        "Invalid request: Invalid NPI format: '123'. NPIs must be 10-digit numbers"
    );
}

#[test]
fn test_validate_likelihood_request_valid() {
    let client = DocarooClient::new("test-key");
    let procedures_client = ProceduresClient::new(client);

    let request = LikelihoodRequest::builder()
        .npis(vec![String::from("1234567890")])
        .condition_code("99214")
        .code_type("CPT")
        .build();

    assert!(procedures_client
        .validate_likelihood_request(&request)
        .is_ok());
}

#[test]
fn test_validate_likelihood_request_empty_npis() {
    let client = DocarooClient::new("test-key");
    let procedures_client = ProceduresClient::new(client);

    let request = LikelihoodRequest {
        npis: vec![],
        condition_code: "99214".to_string(),
        code_type: "CPT".to_string(),
    };

    let result = procedures_client.validate_likelihood_request(&request);
    assert!(result.is_err());
    assert!(result
        .unwrap_err()
        .describe()
        .contains("At least one NPI must be provided"));
}

#[test]
fn test_validate_likelihood_request_invalid_npi() {
    let client = DocarooClient::new("test-key");
    let procedures_client = ProceduresClient::new(client);

    let request = LikelihoodRequest::builder()
        .npis(vec![String::from("ABC1234567")]) // Contains letters
        .condition_code("99214")
        .code_type("CPT")
        .build();

    let result = procedures_client.validate_likelihood_request(&request);
    assert!(result.is_err());
    assert!(result.unwrap_err().describe().contains("Invalid NPI format"));
}

#[test]
fn test_validate_likelihood_request_empty_code_type() {
    let client = DocarooClient::new("test-key");
    let procedures_client = ProceduresClient::new(client);

    let request = LikelihoodRequest {
        npis: vec!["1234567890".to_string()],
        condition_code: "99214".to_string(),
        code_type: "".to_string(),
    };

    let result = procedures_client.validate_likelihood_request(&request);
    assert!(result.is_err());
    assert!(result
        .unwrap_err()
        .describe()
        .contains("Code type cannot be empty"));
}

#[test]
fn test_validate_likelihood_request_eleven_npis_pass() {
    // Likelihood puts no upper bound on the provider count, unlike pricing.
    let client = DocarooClient::new("test-key");
    let procedures_client = ProceduresClient::new(client);

    let npis: Vec<String> = (0..11).map(|i| format!("{:010}", i)).collect();
    let request = LikelihoodRequest {
        npis,
        condition_code: "99214".to_string(),
        code_type: "CPT".to_string(),
    };

    assert!(procedures_client
        .validate_likelihood_request(&request)
        .is_ok());
}

#[test]
fn test_is_valid_npi() {
    assert!(is_valid_npi("1234567890"));
    assert!(is_valid_npi("0000000000"));
    assert!(!is_valid_npi(""));
    assert!(!is_valid_npi("123"));
    assert!(!is_valid_npi("12345678901"));
    assert!(!is_valid_npi("ABC1234567"));
    assert!(!is_valid_npi("123456789O"));
    assert!(!is_valid_npi("12345 7890"));
}

#[test]
fn test_check_providers_request() {
    let client = DocarooClient::new("test-key");
    let procedures_client = ProceduresClient::new(client);

    let npis = vec!["1487648176".to_string(), "1234567890".to_string()];
    let request = procedures_client.check_providers_request(npis, "99214", "CPT");

    assert_eq!(request.npis.len(), 2);
    assert_eq!(request.npis[0], "1487648176");
    assert_eq!(request.condition_code, "99214");
    assert_eq!(request.code_type, "CPT");
}
