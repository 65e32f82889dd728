use agcod::errors::GiftCardError;
use agcod::request::{RequestPayload, RequestPayloadValue};
use agcod::response::decode_claim_code;
use agcod::service::{
    new_service, settle_transport_outcome, Client, IncentivesService, ServiceImpl, Transport,
};

struct MockTransport {
    response: Result<Vec<u8>, String>,
}

impl Transport for MockTransport {
    fn post(
        &self,
        _url: &String,
        _headers: &Vec<(String, String)>,
        _body: &String,
    ) -> Result<Vec<u8>, String> {
        self.response.clone()
    }
}

fn test_config() -> ServiceImpl {
    new_service(
        "Partner".to_string(),
        "accesskey".to_string(),
        "testsecret".to_string(),
        "agcod-v2-gamma.amazon.com".to_string(),
        "https://agcod-v2-gamma.amazon.com".to_string(),
    )
}

#[test]
fn generate_returns_the_claim_code() {
    let transport = MockTransport {
        response: Ok(b"{\"gcClaimCode\":\"ABC123\",\"status\":\"AVAILABLE\"}".to_vec()),
    };
    let client = Client::new(test_config(), transport);
    assert_eq!(client.generate().unwrap(), "ABC123");
}

#[test]
fn generate_surfaces_transport_failures() {
    let transport = MockTransport { response: Err("connection refused".to_string()) };
    let client = Client::new(test_config(), transport);
    match client.generate() {
        Err(GiftCardError::TransportError { cause }) => {
            assert_eq!(cause, "connection refused");
        }
        other => panic!("expected a transport error, got {:?}", other),
    }
}

#[test]
fn generate_surfaces_malformed_bodies_with_the_raw_bytes() {
    let transport = MockTransport { response: Ok(b"not json at all".to_vec()) };
    let client = Client::new(test_config(), transport);
    match client.generate() {
        Err(GiftCardError::DecodeError { body, cause }) => {
            assert_eq!(body, b"not json at all".to_vec());
            assert!(!cause.is_empty());
        }
        other => panic!("expected a decode error, got {:?}", other),
    }
}

#[test]
fn decode_accepts_a_body_with_the_claim_code() {
    let body = b"{\"gcClaimCode\":\"XYZ\",\"gcId\":\"g\",\"status\":\"AVAILABLE\"}".to_vec();
    let decoded = decode_claim_code(&body).unwrap();
    assert_eq!(decoded.claim_code(), "XYZ");
}

#[test]
fn decode_rejects_a_body_without_the_claim_code() {
    let body = b"{\"status\":\"AVAILABLE\"}".to_vec();
    match decode_claim_code(&body) {
        Err(GiftCardError::DecodeError { body: raw, cause }) => {
            assert_eq!(raw, body);
            assert!(!cause.is_empty());
        }
        other => panic!("expected a decode error, got {:?}", other),
    }
}

#[test]
fn decode_rejects_a_claim_code_that_is_not_a_string() {
    let body = b"{\"gcClaimCode\":5}".to_vec();
    assert!(matches!(
        decode_claim_code(&body),
        Err(GiftCardError::DecodeError { .. })
    ));
}

#[test]
fn decode_rejects_malformed_json() {
    let body = b"{\"gcClaimCode\":".to_vec();
    match decode_claim_code(&body) {
        Err(GiftCardError::DecodeError { body: raw, .. }) => assert_eq!(raw, body),
        other => panic!("expected a decode error, got {:?}", other),
    }
}

#[test]
fn settling_maps_a_transport_failure_to_its_cause() {
    match settle_transport_outcome(Err("connection reset".to_string())) {
        Err(GiftCardError::TransportError { cause }) => assert_eq!(cause, "connection reset"),
        other => panic!("expected a transport error, got {:?}", other),
    }
}

#[test]
fn settling_decodes_a_delivered_body() {
    let outcome = Ok(b"{\"gcClaimCode\":\"Z9\"}".to_vec());
    assert_eq!(settle_transport_outcome(outcome).unwrap(), "Z9");
}

#[test]
fn settling_rejects_an_undecodable_body_with_the_raw_bytes() {
    let outcome = Ok(b"<html>".to_vec());
    match settle_transport_outcome(outcome) {
        Err(GiftCardError::DecodeError { body, cause }) => {
            assert_eq!(body, b"<html>".to_vec());
            assert!(!cause.is_empty());
        }
        other => panic!("expected a decode error, got {:?}", other),
    }
}

#[test]
fn signed_request_carries_exact_headers_and_body() {
    let config = test_config();
    let payload = RequestPayload {
        creation_request_id: "Partner-abc".to_string(),
        partner_id: "Partner".to_string(),
        value: RequestPayloadValue { currency_code: "USD".to_string(), amount: 5 },
    };
    let request = config.build_signed_request("20240101T000000Z", &payload).unwrap();
    assert_eq!(request.url, "https://agcod-v2-gamma.amazon.com/CreateGiftCard");
    assert_eq!(request.body, payload.to_json());
    let names: Vec<&str> = request.headers.iter().map(|h| h.0.as_str()).collect();
    assert_eq!(
        names,
        vec![
            "host",
            "x-amz-date",
            "x-amz-target",
            "accept",
            "content-type",
            "regionName",
            "serviceName",
            "Authorization"
        ]
    );
    assert_eq!(request.headers[0].1, "agcod-v2-gamma.amazon.com");
    assert_eq!(request.headers[1].1, "20240101T000000Z");
    assert_eq!(request.headers[2].1, "com.amazonaws.agcod.AGCODService.CreateGiftCard");
    assert_eq!(request.headers[3].1, "application/json");
    assert_eq!(request.headers[4].1, "application/json");
    assert_eq!(request.headers[5].1, "us-east-1");
    assert_eq!(request.headers[6].1, "AGCODService");
    assert_eq!(
        request.headers[7].1,
        "AWS4-HMAC-SHA256 Credential=accesskey/20240101/us-east-1/AGCODService/aws4_request, SignedHeaders=accept;host;x-amz-date;x-amz-target, Signature=d923b3eda26b108f520808af1455776541b50f937e4cf7a6bb08e3d47aea0914"
    );
}

#[test]
fn construction_fails_fast_on_an_invalid_header_value() {
    let config = new_service(
        "Partner".to_string(),
        "accesskey".to_string(),
        "testsecret".to_string(),
        "bad\nhost".to_string(),
        "https://example.invalid".to_string(),
    );
    let payload = RequestPayload::new("Partner".to_string(), 5);
    match config.build_signed_request("20240101T000000Z", &payload) {
        Err(GiftCardError::InvalidHeader { name }) => assert_eq!(name, "host"),
        other => panic!("expected an invalid header error, got {:?}", other),
    }
}

#[test]
fn generate_never_dispatches_when_a_header_is_invalid() {
    let transport = MockTransport {
        response: Ok(b"{\"gcClaimCode\":\"ABC123\"}".to_vec()),
    };
    let config = new_service(
        "Partner".to_string(),
        "bad\u{7f}key".to_string(),
        "testsecret".to_string(),
        "agcod-v2-gamma.amazon.com".to_string(),
        "https://example.invalid".to_string(),
    );
    let client = Client::new(config, transport);
    assert!(matches!(
        client.generate(),
        Err(GiftCardError::InvalidHeader { .. })
    ));
}
