use std::collections::HashMap;

use ezstripe::error::{Codes, HTTPCodes, Info, Types};
use ezstripe::helper::{settle, ClientError, Event, Verdict};
use ezstripe::json::{Json, Member};
use ezstripe::payment_intent::Response;

/// A PaymentIntent with this ID and nothing else set.
fn intent(id: &str) -> Response {
    Response {
        id: id.to_string(),
        object: String::new(),
        amount: 0,
        amount_capturable: 0,
        amount_details: None,
        amount_received: 0,
        application: None,
        application_fee_amount: None,
        automatic_payment_methods: None,
        canceled_at: None,
        cancellation_reason: None,
        capture_method: String::new(),
        client_secret: String::new(),
        confirmation_method: String::new(),
        created: 0,
        currency: String::new(),
        customer: None,
        description: None,
        invoice: None,
        last_payment_error: None,
        latest_charge: None,
        livemode: false,
        metadata: HashMap::new(),
        next_action: None,
        on_behalf_of: None,
        payment_method: None,
        payment_method_options: None,
        payment_method_types: Vec::new(),
        processing: None,
        receipt_email: None,
        review: None,
        setup_future_usage: None,
        shipping: None,
        statement_descriptor: None,
        statement_descriptor_suffix: None,
        status: String::new(),
        transfer_data: None,
        transfer_group: None,
    }
}

/// Reads a PaymentIntent out of a payload as far as a test needs it: the
/// payload has to be an object with a string under `id`.
fn decode_intent(payload: &Json) -> Option<Response> {
    match payload.get("id") {
        Some(Json::Text(id)) => Some(intent(id)),
        _ => None,
    }
}

/// The parsed body of a failed response.
fn read(status: u16, body: &str) -> Json {
    match settle(Event::Received(status, body.to_string())) {
        Verdict::Refused(told, read) => {
            assert_eq!(told, status);
            read
        }
        other => panic!("{:?}", other),
    }
}

fn text(value: &str) -> Json {
    Json::Text(value.to_string())
}

fn object(members: Vec<(&str, Json)>) -> Json {
    Json::Object(
        members
            .into_iter()
            .map(|(name, value)| Member { name: name.to_string(), value })
            .collect(),
    )
}

#[test]
fn declined_card_is_decoded() {
    let body = r#"{"error":{"type":"card_error","code":"card_declined","message":"Your card was declined."}}"#;
    let info = Info::create(402, body, None).unwrap();
    assert_eq!(info.http_status, HTTPCodes::RequestFailed);
    assert_eq!(info.error_type, Types::Card);
    assert_eq!(info.error_code, Codes::CardDeclined);
    assert_eq!(info.message, "Your card was declined.");
    assert_eq!(info.param, None);
    assert!(info.related_object.is_none());
}

#[test]
fn missing_resource_is_decoded_with_its_parameter() {
    let body = r#"{"error":{"type":"invalid_request_error","code":"resource_missing","message":"No such resource","param":"id"}}"#;
    let info = Info::create(404, body, None).unwrap();
    assert_eq!(info.http_status, HTTPCodes::NotFound);
    assert_eq!(info.error_type, Types::InvalidRequest);
    assert_eq!(info.error_code, Codes::ResourceMissing);
    assert_eq!(info.message, "No such resource");
    assert_eq!(info.param, Some("id".to_string()));
    assert!(info.related_object.is_none());
}

#[test]
fn body_that_is_not_json_gives_nothing() {
    assert!(Info::create(429, "not json", None).is_none());
    assert!(Info::create(500, "", None).is_none());
    assert!(Info::create(400, "{\"error\":", None).is_none());
}

#[test]
fn fields_at_the_top_level_are_read_alike() {
    let nested = r#"{"error":{"type":"api_error","code":"rate_limit","message":"Slow down","param":"limit"}}"#;
    let flat = r#"{"type":"api_error","code":"rate_limit","message":"Slow down","param":"limit"}"#;
    let a = Info::create(429, nested, None).unwrap();
    let b = Info::create(429, flat, None).unwrap();
    assert_eq!(a.http_status, HTTPCodes::TooManyRequests);
    assert_eq!(a.error_type, Types::API);
    assert_eq!(a.error_code, Codes::RateLimit);
    assert_eq!(a.message, "Slow down");
    assert_eq!(a.param, Some("limit".to_string()));
    assert_eq!(a.http_status, b.http_status);
    assert_eq!(a.error_type, b.error_type);
    assert_eq!(a.error_code, b.error_code);
    assert_eq!(a.message, b.message);
    assert_eq!(a.param, b.param);
    assert_eq!(a.related_object.is_none(), b.related_object.is_none());
}

#[test]
fn null_under_error_leaves_the_top_level() {
    let body = r#"{"error":null,"type":"card_error","code":"expired_card","message":"Expired"}"#;
    let info = Info::create(402, body, None).unwrap();
    assert_eq!(info.error_type, Types::Card);
    assert_eq!(info.error_code, Codes::ExpiredCard);
    assert_eq!(info.message, "Expired");
}

#[test]
fn absent_fields_become_fallbacks() {
    let info = Info::create(400, "{}", None).unwrap();
    assert_eq!(info.http_status, HTTPCodes::BadRequest);
    assert_eq!(info.error_type, Types::Unrecognized);
    assert_eq!(info.error_code, Codes::Unrecognized);
    assert_eq!(info.message, "");
    assert_eq!(info.param, None);
    assert!(info.related_object.is_none());
}

#[test]
fn unknown_type_and_code_become_fallbacks() {
    let body = r#"{"error":{"type":"brand_new_error","code":"brand_new_code","message":"New"}}"#;
    let info = Info::create(400, body, None).unwrap();
    assert_eq!(info.error_type, Types::Unrecognized);
    assert_eq!(info.error_code, Codes::Unrecognized);
    assert_eq!(info.message, "New");
}

#[test]
fn fields_that_are_no_strings_count_as_absent() {
    let body = r#"{"error":{"type":7,"code":["card_declined"],"message":{"text":"x"},"param":null}}"#;
    let info = Info::create(402, body, None).unwrap();
    assert_eq!(info.error_type, Types::Unrecognized);
    assert_eq!(info.error_code, Codes::Unrecognized);
    assert_eq!(info.message, "");
    assert_eq!(info.param, None);
}

#[test]
fn json_that_is_no_object_still_decodes() {
    for body in ["null", "[]", "42", "\"text\"", "true"] {
        let info = Info::create(503, body, None).unwrap();
        assert_eq!(info.http_status, HTTPCodes::ServerError(503));
        assert_eq!(info.error_type, Types::Unrecognized);
        assert_eq!(info.error_code, Codes::Unrecognized);
        assert_eq!(info.message, "");
        assert_eq!(info.param, None);
        assert!(info.related_object.is_none());
    }
}

#[test]
fn unrecognized_status_is_kept() {
    let info = Info::create(418, "{}", None).unwrap();
    assert_eq!(info.http_status, HTTPCodes::Unrecognized(418));
    assert_eq!(info.http_status.original_u16(), 418);
}

#[test]
fn related_payload_is_found_as_it_came() {
    let body = r#"{"error":{"type":"card_error","code":"card_declined","message":"Declined","payment_intent":{"id":"pi_1","amount":2000,"livemode":false,"metadata":{},"payment_method_types":["card"],"review":null}}}"#;
    let body = read(402, body);
    let related = Info::related_payload(&body).unwrap();
    assert!(matches!(related.get("id"), Some(Json::Text(id)) if id == "pi_1"));
    assert!(matches!(related.get("amount"), Some(Json::Number(n)) if n == "2000"));
    assert!(matches!(related.get("livemode"), Some(Json::Bool(false))));
    assert!(matches!(related.get("metadata"), Some(Json::Object(members)) if members.is_empty()));
    assert!(matches!(related.get("review"), Some(Json::Null)));
    match related.get("payment_method_types") {
        Some(Json::Array(items)) => {
            assert_eq!(items.len(), 1);
            assert!(matches!(&items[0], Json::Text(kind) if kind == "card"));
        }
        other => panic!("{:?}", other),
    }
    assert!(related.get("absent").is_none());
}

#[test]
fn decoded_payment_intent_is_the_related_object() {
    let body = r#"{"error":{"type":"card_error","code":"card_declined","message":"Declined","payment_intent":{"id":"pi_1"}}}"#;
    let body = read(402, body);
    let decoded = Info::related_payload(&body).and_then(decode_intent);
    assert!(decoded.is_some());
    let info = Info::from_json(402, &body, decoded);
    assert_eq!(info.error_type, Types::Card);
    assert_eq!(info.error_code, Codes::CardDeclined);
    assert_eq!(info.message, "Declined");
    assert_eq!(info.related_object.unwrap().id, "pi_1");
}

#[test]
fn payment_intent_that_does_not_decode_is_left_out() {
    let text = r#"{"error":{"type":"card_error","code":"card_declined","message":"x","payment_intent":{"id":1}}}"#;
    let body = read(402, text);
    let payload = Info::related_payload(&body);
    assert!(payload.is_some());
    let decoded = payload.and_then(decode_intent);
    assert!(decoded.is_none());
    for info in [Info::from_json(402, &body, decoded), Info::create(402, text, None).unwrap()] {
        assert_eq!(info.http_status, HTTPCodes::RequestFailed);
        assert_eq!(info.error_type, Types::Card);
        assert_eq!(info.error_code, Codes::CardDeclined);
        assert_eq!(info.message, "x");
        assert_eq!(info.param, None);
        assert!(info.related_object.is_none());
    }
}

#[test]
fn related_object_without_a_payload_is_left_out() {
    let body = read(402, r#"{"error":{"type":"card_error"}}"#);
    assert!(Info::related_payload(&body).is_none());
    let info = Info::from_json(402, &body, Some(intent("pi_7")));
    assert!(info.related_object.is_none());
    let info = Info::create(402, r#"{"error":{"payment_intent":null}}"#, Some(intent("pi_7"))).unwrap();
    assert!(info.related_object.is_none());
    let info = Info::create(402, r#"{"error":{"payment_intent":{}}}"#, Some(intent("pi_7"))).unwrap();
    assert_eq!(info.related_object.unwrap().id, "pi_7");
}

#[test]
fn refusal_is_an_error_of_the_api() {
    let body = read(404, r#"{"error":{"type":"invalid_request_error","code":"resource_missing","message":"No such resource","param":"id"}}"#);
    match ClientError::refused(404, &body, None) {
        ClientError::Api(info) => {
            assert_eq!(info.http_status, HTTPCodes::NotFound);
            assert_eq!(info.error_type, Types::InvalidRequest);
            assert_eq!(info.error_code, Codes::ResourceMissing);
            assert_eq!(info.message, "No such resource");
            assert_eq!(info.param, Some("id".to_string()));
            assert!(info.related_object.is_none());
        }
        other => panic!("{:?}", other),
    }
}

#[test]
fn null_payment_intent_is_no_related_object() {
    let text = r#"{"error":{"type":"card_error","payment_intent":null}}"#;
    assert!(Info::related_payload(&read(402, text)).is_none());
    let info = Info::create(402, text, None).unwrap();
    assert!(info.related_object.is_none());
}

#[test]
fn payload_that_is_no_object_does_not_decode() {
    let body = read(402, r#"{"error":{"payment_intent":"pi_1"}}"#);
    let payload = Info::related_payload(&body);
    assert!(matches!(payload, Some(Json::Text(id)) if id == "pi_1"));
    let info = Info::from_json(402, &body, payload.and_then(decode_intent));
    assert!(info.related_object.is_none());
}

#[test]
fn payload_is_looked_for_in_the_envelope() {
    let body = read(402, r#"{"payment_intent":{"id":"pi_top"},"error":{"payment_intent":{"id":"pi_in"}}}"#);
    let payload = Info::related_payload(&body).unwrap();
    assert!(matches!(payload.get("id"), Some(Json::Text(id)) if id == "pi_in"));
    let body = read(402, r#"{"payment_intent":{"id":"pi_top"}}"#);
    let payload = Info::related_payload(&body).unwrap();
    assert!(matches!(payload.get("id"), Some(Json::Text(id)) if id == "pi_top"));
}

#[test]
fn parsed_body_is_decoded_as_its_text() {
    let fields = vec![
        ("type", text("card_error")),
        ("code", text("insufficient_funds")),
        ("message", text("Not enough")),
        ("param", text("amount")),
    ];
    let body = object(vec![("error", object(fields))]);
    let info = Info::from_json(402, &body, None);
    assert_eq!(info.http_status, HTTPCodes::RequestFailed);
    assert_eq!(info.error_type, Types::Card);
    assert_eq!(info.error_code, Codes::InsufficientFunds);
    assert_eq!(info.message, "Not enough");
    assert_eq!(info.param, Some("amount".to_string()));
    assert!(info.related_object.is_none());
}

#[test]
fn envelope_shape_does_not_matter() {
    let fields = || {
        object(vec![
            ("type", text("idempotency_error")),
            ("code", text("idempotency_key_in_use")),
            ("message", text("In use")),
            ("payment_intent", object(vec![("id", text("pi_9"))])),
        ])
    };
    let wrapped = object(vec![("other", Json::Bool(true)), ("error", fields())]);
    let nested = Info::from_json(409, &wrapped, Info::related_payload(&wrapped).and_then(decode_intent));
    let bare = fields();
    let flat = Info::from_json(409, &bare, Info::related_payload(&bare).and_then(decode_intent));
    assert_eq!(nested.http_status, HTTPCodes::Conflict);
    assert_eq!(nested.error_type, Types::Idempotency);
    assert_eq!(nested.error_code, Codes::IdempotencyKeyInUse);
    assert_eq!(nested.message, "In use");
    assert_eq!(nested.http_status, flat.http_status);
    assert_eq!(nested.error_type, flat.error_type);
    assert_eq!(nested.error_code, flat.error_code);
    assert_eq!(nested.message, flat.message);
    assert_eq!(nested.param, flat.param);
    for info in [&nested, &flat] {
        assert_eq!(info.related_object.as_ref().unwrap().id, "pi_9");
    }
}

#[test]
fn envelope_with_an_error_of_its_own_is_read_one_level_deep() {
    let inner = object(vec![("type", text("card_error"))]);
    let fields = || object(vec![("error", object(vec![("type", text("card_error"))])), ("type", text("api_error"))]);
    let _ = inner;
    let nested = Info::from_json(400, &object(vec![("error", fields())]), None);
    let flat = Info::from_json(400, &fields(), None);
    assert_eq!(nested.error_type, Types::API);
    assert_eq!(flat.error_type, Types::Card);
}

#[test]
fn first_member_of_a_name_counts() {
    let body = object(vec![("code", text("card_declined")), ("code", text("expired_card"))]);
    let info = Info::from_json(402, &body, None);
    assert_eq!(info.error_code, Codes::CardDeclined);
    assert!(matches!(body.get("code"), Some(Json::Text(code)) if code == "card_declined"));
}

#[test]
fn json_values_are_read_by_kind() {
    assert!(Json::Null.is_null());
    assert!(!text("").is_null());
    assert_eq!(text("abc").as_str(), Some("abc"));
    assert_eq!(Json::Number("1".to_string()).as_str(), None);
    assert_eq!(Json::Null.as_str(), None);
    assert!(Json::Array(vec![text("a")]).get("a").is_none());
    assert!(text("a").get("a").is_none());
}

#[test]
fn copy_of_a_json_value_is_the_same_value() {
    let value = object(vec![
        ("a", Json::Array(vec![Json::Null, Json::Bool(true), Json::Number("1.5".to_string())])),
        ("b", object(vec![("c", text("d"))])),
    ]);
    let copy = value.clone();
    assert_eq!(format!("{:?}", copy), format!("{:?}", value));
}

#[test]
fn numbers_are_held_by_their_text() {
    let body = read(400, r#"{"payment_intent":{"a":-3,"b":18446744073709551615,"c":1.5,"d":1e2}}"#);
    let related = Info::related_payload(&body).unwrap();
    assert!(matches!(related.get("a"), Some(Json::Number(n)) if n == "-3"));
    assert!(matches!(related.get("b"), Some(Json::Number(n)) if n == "18446744073709551615"));
    assert!(matches!(related.get("c"), Some(Json::Number(n)) if n == "1.5"));
    assert!(matches!(related.get("d"), Some(Json::Number(n)) if n == "100.0"));
}

