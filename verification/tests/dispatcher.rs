use ezstripe::error::{Codes, HTTPCodes, Types};
use ezstripe::helper::{finish, is_success, settle, shape_of, shape_of_text, ClientError, Event, Shape, Verdict};
use ezstripe::json::{Json, Member};

struct Probe {
    id: String,
}

/// Reads a probe out of a body: it needs a string under `id`.
fn decode_probe(body: &str) -> Option<Probe> {
    let value: serde_json::Value = serde_json::from_str(body).ok()?;
    let id = value.get("id")?.as_str()?;
    Some(Probe { id: id.to_string() })
}

#[test]
fn success_is_two_hundred_to_two_ninety_nine() {
    assert!(is_success(200));
    assert!(is_success(204));
    assert!(is_success(299));
    assert!(!is_success(199));
    assert!(!is_success(300));
    assert!(!is_success(0));
    assert!(!is_success(404));
    assert!(!is_success(u16::MAX));
}

#[test]
fn failed_send_is_a_transport_error() {
    assert!(matches!(settle(Event::SendFailed), Verdict::Failed(ClientError::Transport)));
}

#[test]
fn failed_read_is_an_unreadable_body() {
    assert!(matches!(settle(Event::ReadFailed), Verdict::Failed(ClientError::BodyUnreadable)));
}

#[test]
fn success_hands_its_body_on() {
    let verdict = settle(Event::Received(200, "{\"id\":\"re_1\"}".to_string()));
    assert!(matches!(verdict, Verdict::Decode(body) if body == "{\"id\":\"re_1\"}"));
    let verdict = settle(Event::Received(201, "not json".to_string()));
    assert!(matches!(verdict, Verdict::Decode(body) if body == "not json"));
}

#[test]
fn success_without_a_required_field_is_an_unexpected_shape() {
    let verdict = settle(Event::Received(200, "{\"object\":\"refund\"}".to_string()));
    let body = match verdict {
        Verdict::Decode(body) => body,
        other => panic!("{:?}", other),
    };
    let outcome = finish(decode_probe(&body));
    assert!(matches!(outcome, Err(ClientError::UnexpectedShape)));
}

#[test]
fn success_with_its_fields_is_the_object() {
    let verdict = settle(Event::Received(200, "{\"id\":\"re_1\"}".to_string()));
    let body = match verdict {
        Verdict::Decode(body) => body,
        other => panic!("{:?}", other),
    };
    let probe = finish(decode_probe(&body)).unwrap();
    assert_eq!(probe.id, "re_1");
}

#[test]
fn failure_that_is_not_json_is_an_unexpected_shape() {
    let verdict = settle(Event::Received(429, "not json".to_string()));
    assert!(matches!(verdict, Verdict::Failed(ClientError::UnexpectedShape)));
}

#[test]
fn failure_is_an_error_of_the_api() {
    let body = r#"{"error":{"type":"card_error","code":"card_declined","message":"Your card was declined."}}"#;
    let error = match settle(Event::Received(402, body.to_string())) {
        Verdict::Refused(status, read) => ClientError::refused(status, &read, None),
        other => panic!("{:?}", other),
    };
    match error {
        ClientError::Api(info) => {
            assert_eq!(info.http_status, HTTPCodes::RequestFailed);
            assert_eq!(info.error_type, Types::Card);
            assert_eq!(info.error_code, Codes::CardDeclined);
            assert_eq!(info.message, "Your card was declined.");
            assert_eq!(info.param, None);
            assert!(info.related_object.is_none());
        }
        other => panic!("{:?}", other),
    }
}

#[test]
fn retryable_failures_are_not_told_apart() {
    for status in [429, 500, 502, 503, 504, 400, 404] {
        let verdict = settle(Event::Received(status, "{}".to_string()));
        assert!(matches!(verdict, Verdict::Refused(told, Json::Object(members)) if told == status && members.is_empty()));
    }
}

#[test]
fn statuses_below_two_hundred_and_redirects_are_failures() {
    for status in [100, 199, 300, 304] {
        match settle(Event::Received(status, "{}".to_string())) {
            Verdict::Refused(told, read) => match ClientError::refused(told, &read, None) {
                ClientError::Api(info) => assert_eq!(info.http_status, HTTPCodes::Unrecognized(status)),
                other => panic!("{:?}", other),
            },
            other => panic!("{:?}", other),
        }
    }
}

#[test]
fn finish_keeps_the_object() {
    assert!(matches!(finish(Some(7u8)), Ok(7)));
    assert!(matches!(finish::<u8>(None), Err(ClientError::UnexpectedShape)));
}

#[test]
fn errors_have_their_messages() {
    assert_eq!(ClientError::Transport.message(), "Request failed");
    assert_eq!(ClientError::BodyUnreadable.message(), "Body could not be unwrapped");
    assert_eq!(ClientError::UnexpectedShape.message(), "Something went wrong");
    assert_eq!(ClientError::Incompatible.message(), "This function is not compatible with the selected type");
    let told = ClientError::refused(404, &Json::Null, None);
    assert_eq!(told.message(), "Status is not success");
    assert!(told.info().is_some());
    assert!(ClientError::Transport.info().is_none());
    assert!(ClientError::UnexpectedShape.info().is_none());
}

#[test]
fn failure_with_an_empty_body_is_an_unexpected_shape() {
    assert!(matches!(settle(Event::Received(500, String::new())), Verdict::Failed(ClientError::UnexpectedShape)));
}

#[test]
fn shape_goes_by_the_object_member() {
    assert_eq!(shape_of_text("{\"object\":\"refund\",\"id\":\"re_1\"}", "refund"), Shape::Single);
    assert_eq!(shape_of_text("{\"object\":\"list\",\"data\":[]}", "refund"), Shape::List);
    assert_eq!(shape_of_text("{\"object\":\"payout\"}", "refund"), Shape::Other);
    assert_eq!(shape_of_text("{\"id\":\"re_1\"}", "refund"), Shape::Other);
    assert_eq!(shape_of_text("{\"object\":7}", "refund"), Shape::Other);
    assert_eq!(shape_of_text("[]", "refund"), Shape::Other);
    assert_eq!(shape_of_text("not json", "refund"), Shape::Other);
    assert_eq!(shape_of_text("{\"object\":\"list\"}", "list"), Shape::Single);
}

#[test]
fn shape_of_a_parsed_body() {
    let body = Json::Object(vec![Member { name: "object".to_string(), value: Json::Text("list".to_string()) }]);
    assert_eq!(shape_of(&body, "refund"), Shape::List);
    assert_eq!(shape_of(&Json::Null, "refund"), Shape::Other);
}
