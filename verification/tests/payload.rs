use agcod::request::{RequestPayload, RequestPayloadValue};

#[test]
fn identifier_begins_with_partner_and_hyphen() {
    let payload = RequestPayload::new("Partner".to_string(), 5);
    assert!(payload.creation_request_id.starts_with("Partner-"));
    assert_eq!(payload.partner_id, "Partner");
}

#[test]
fn identifier_stays_within_forty_characters() {
    let partner = "abcdefghijklmnopqrstuvwxyz";
    assert_eq!(partner.len(), 26);
    let payload = RequestPayload::new(partner.to_string(), 5);
    assert_eq!(payload.creation_request_id.len(), 40);
    assert!(payload.creation_request_id.len() <= 40);
}

#[test]
fn identifier_segment_has_thirteen_characters() {
    let payload = RequestPayload::new("P".to_string(), 5);
    assert_eq!(payload.creation_request_id.len(), "P".len() + 1 + 13);
}

#[test]
fn identifiers_are_fresh_for_each_call() {
    let first = RequestPayload::new("Partner".to_string(), 5);
    let second = RequestPayload::new("Partner".to_string(), 5);
    assert_ne!(first.creation_request_id, second.creation_request_id);
}

#[test]
fn payload_carries_fixed_currency() {
    let payload = RequestPayload::new("Partner".to_string(), 7);
    assert_eq!(payload.value.currency_code, "USD");
    assert_eq!(payload.value.amount, 7);
}

#[test]
fn json_rendering_is_exact() {
    let payload = RequestPayload {
        creation_request_id: "Partner-abc".to_string(),
        partner_id: "Partner".to_string(),
        value: RequestPayloadValue { currency_code: "USD".to_string(), amount: 5 },
    };
    assert_eq!(
        payload.to_json(),
        "{\"creationRequestId\":\"Partner-abc\",\"partnerId\":\"Partner\",\"value\":{\"currencyCode\":\"USD\",\"amount\":5}}"
    );
}

#[test]
fn json_rendering_escapes_specials() {
    let payload = RequestPayload {
        creation_request_id: "a\"b\\c\nd\u{1}e".to_string(),
        partner_id: "tab\there".to_string(),
        value: RequestPayloadValue { currency_code: "USD".to_string(), amount: 0 },
    };
    assert_eq!(
        payload.to_json(),
        "{\"creationRequestId\":\"a\\\"b\\\\c\\nd\\u0001e\",\"partnerId\":\"tab\\there\",\"value\":{\"currencyCode\":\"USD\",\"amount\":0}}"
    );
}

#[test]
fn json_rendering_handles_negative_amounts() {
    let payload = RequestPayload {
        creation_request_id: "x-y".to_string(),
        partner_id: "x".to_string(),
        value: RequestPayloadValue { currency_code: "USD".to_string(), amount: -42 },
    };
    assert!(payload.to_json().ends_with("\"amount\":-42}}"));
}

#[test]
fn json_rendering_handles_extreme_amounts() {
    let payload = RequestPayload {
        creation_request_id: "x-y".to_string(),
        partner_id: "x".to_string(),
        value: RequestPayloadValue { currency_code: "USD".to_string(), amount: i64::MIN },
    };
    assert!(payload.to_json().ends_with("\"amount\":-9223372036854775808}}"));
    let payload = RequestPayload {
        creation_request_id: "x-y".to_string(),
        partner_id: "x".to_string(),
        value: RequestPayloadValue { currency_code: "USD".to_string(), amount: i64::MAX },
    };
    assert!(payload.to_json().ends_with("\"amount\":9223372036854775807}}"));
}
