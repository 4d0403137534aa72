use mcp_client::error::ClientError;
use mcp_client::json::JsonValue;
use mcp_client::json_text::parse;
use mcp_client::message::{DecodeError, Message};
use mcp_client::protocol::{Notification, Request, RequestId, Response, ResponseError};

fn decode_document(text: &str) -> Result<Message, DecodeError> {
    Message::from_json(&parse(text).unwrap())
}

#[test]
fn request_round_trips_through_text() {
    let params = parse(r#"{"name":"x","n":[1,2]}"#).unwrap();
    let message = Message::Request(Request::new("tools/call", Some(params), RequestId::Number(7)));
    let text = message.encode().unwrap();
    assert_eq!(
        text,
        r#"{"id":7,"jsonrpc":"2.0","method":"tools/call","params":{"n":[1,2],"name":"x"},"type":"request"}"#
    );
    assert_eq!(Message::decode(&text).unwrap(), message);
}

#[test]
fn request_without_params_round_trips() {
    let message = Message::Request(Request::new("ping", None, RequestId::String("abc".to_string())));
    let text = message.encode().unwrap();
    assert_eq!(text, r#"{"id":"abc","jsonrpc":"2.0","method":"ping","type":"request"}"#);
    assert_eq!(Message::decode(&text).unwrap(), message);
}

#[test]
fn number_and_string_identifiers_stay_apart() {
    let number = Message::Request(Request::new("m", None, RequestId::Number(1)));
    let string = Message::Request(Request::new("m", None, RequestId::String("1".to_string())));
    let back_number = Message::decode(&number.encode().unwrap()).unwrap();
    let back_string = Message::decode(&string.encode().unwrap()).unwrap();
    assert_eq!(back_number, number);
    assert_eq!(back_string, string);
    assert_ne!(back_number, back_string);
    assert!(!RequestId::Number(1).matches(&RequestId::String("1".to_string())));
    assert!(RequestId::Number(1).matches(&RequestId::Number(1)));
    assert!(RequestId::String("a".to_string()).matches(&RequestId::String("a".to_string())));
    assert!(!RequestId::String("a".to_string()).matches(&RequestId::String("b".to_string())));
}

#[test]
fn response_with_result_round_trips() {
    let message = Message::Response(Response::success(
        RequestId::Number(3),
        parse(r#"{"ok":true}"#).unwrap(),
    ));
    let text = message.encode().unwrap();
    assert_eq!(text, r#"{"id":3,"jsonrpc":"2.0","result":{"ok":true},"type":"response"}"#);
    assert_eq!(Message::decode(&text).unwrap(), message);
}

#[test]
fn response_with_error_round_trips() {
    let error = ResponseError {
        code: -32601,
        message: "no such method".to_string(),
        data: Some(JsonValue::Array(vec![JsonValue::Int(1)])),
    };
    let message = Message::Response(Response::failure(RequestId::Number(4), error));
    let text = message.encode().unwrap();
    assert_eq!(
        text,
        r#"{"error":{"code":-32601,"data":[1],"message":"no such method"},"id":4,"jsonrpc":"2.0","type":"response"}"#
    );
    assert_eq!(Message::decode(&text).unwrap(), message);
}

#[test]
fn response_keeps_a_null_result_apart_from_none() {
    let message = Message::Response(Response::success(RequestId::Number(1), JsonValue::Null));
    assert_eq!(Message::decode(&message.encode().unwrap()).unwrap(), message);
}

#[test]
fn notification_round_trips() {
    let with = Message::Notification(Notification::new(
        "notifications/progress",
        Some(parse(r#"{"p":0.5}"#).unwrap()),
    ));
    let without = Message::Notification(Notification::new("notifications/initialized", None));
    assert_eq!(
        without.encode().unwrap(),
        r#"{"jsonrpc":"2.0","method":"notifications/initialized","type":"notification"}"#
    );
    assert_eq!(Message::decode(&with.encode().unwrap()).unwrap(), with);
    assert_eq!(Message::decode(&without.encode().unwrap()).unwrap(), without);
}

#[test]
fn message_type_names_the_kind() {
    assert_eq!(Message::Request(Request::new("m", None, RequestId::Number(1))).message_type(), "request");
    assert_eq!(
        Message::Response(Response::success(RequestId::Number(1), JsonValue::Null)).message_type(),
        "response"
    );
    assert_eq!(Message::Notification(Notification::new("m", None)).message_type(), "notification");
}

#[test]
fn id_with_method_is_a_request() {
    let message = decode_document(r#"{"id":1,"method":"initialize","result":{}}"#).unwrap();
    assert_eq!(message, Message::Request(Request::new("initialize", None, RequestId::Number(1))));
}

#[test]
fn id_with_result_is_a_response() {
    let message = decode_document(r#"{"id":1,"result":{"x":1}}"#).unwrap();
    assert_eq!(
        message,
        Message::Response(Response::success(RequestId::Number(1), parse(r#"{"x":1}"#).unwrap()))
    );
}

#[test]
fn id_with_error_is_a_response() {
    let message = decode_document(r#"{"jsonrpc":"2.0","id":"a","error":{"code":-1,"message":"m"}}"#).unwrap();
    assert_eq!(
        message,
        Message::Response(Response::failure(
            RequestId::String("a".to_string()),
            ResponseError { code: -1, message: "m".to_string(), data: None },
        ))
    );
}

#[test]
fn method_without_id_is_a_notification() {
    let message = decode_document(r#"{"method":"notifications/x","params":[1]}"#).unwrap();
    assert_eq!(
        message,
        Message::Notification(Notification::new("notifications/x", Some(parse("[1]").unwrap())))
    );
}

#[test]
fn id_alone_is_no_message() {
    assert_eq!(decode_document(r#"{"jsonrpc":"2.0","id":1}"#), Err(DecodeError::IdWithoutMethodOrResult));
    assert_eq!(
        DecodeError::IdWithoutMethodOrResult.message(),
        "invalid message: 'id' present without 'method' or 'result/error'"
    );
}

#[test]
fn neither_id_nor_method_is_no_message() {
    assert_eq!(decode_document(r#"{"jsonrpc":"2.0","result":1}"#), Err(DecodeError::MissingIdAndMethod));
    assert_eq!(decode_document("{}"), Err(DecodeError::MissingIdAndMethod));
    assert_eq!(DecodeError::MissingIdAndMethod.message(), "invalid message: missing 'id' and 'method'");
}

#[test]
fn what_is_not_an_object_is_no_message() {
    for text in ["[]", "1", "\"x\"", "null", "true"] {
        assert_eq!(decode_document(text), Err(DecodeError::NotAnObject));
    }
}

#[test]
fn unknown_fields_are_passed_over() {
    let message = decode_document(r#"{"id":2,"method":"m","extra":{"a":1},"type":"whatever"}"#).unwrap();
    assert_eq!(message, Message::Request(Request::new("m", None, RequestId::Number(2))));
}

#[test]
fn fields_of_the_wrong_type_are_refused() {
    assert_eq!(decode_document(r#"{"id":1.5,"method":"m"}"#), Err(DecodeError::InvalidId));
    assert_eq!(decode_document(r#"{"id":null,"method":"m"}"#), Err(DecodeError::InvalidId));
    assert_eq!(decode_document(r#"{"id":18446744073709551615,"result":1}"#), Err(DecodeError::InvalidId));
    assert_eq!(decode_document(r#"{"id":1,"method":5}"#), Err(DecodeError::InvalidMethod));
    assert_eq!(decode_document(r#"{"method":[]}"#), Err(DecodeError::InvalidMethod));
    assert_eq!(decode_document(r#"{"jsonrpc":2,"method":"m"}"#), Err(DecodeError::InvalidVersion));
    assert_eq!(decode_document(r#"{"id":1,"error":"bad"}"#), Err(DecodeError::InvalidError));
    assert_eq!(decode_document(r#"{"id":1,"error":{"code":"x","message":"m"}}"#), Err(DecodeError::InvalidError));
    assert_eq!(decode_document(r#"{"id":1,"error":{"code":1}}"#), Err(DecodeError::InvalidError));
    assert_eq!(
        decode_document(r#"{"id":1,"error":{"code":2147483648,"message":"m"}}"#),
        Err(DecodeError::InvalidError)
    );
}

#[test]
fn decode_names_the_rule_that_was_broken() {
    match Message::decode(r#"{"id":1}"#) {
        Err(ClientError::Serialization(text)) => {
            assert_eq!(text, "invalid message: 'id' present without 'method' or 'result/error'")
        }
        other => panic!("unexpected: {:?}", other),
    }
    assert!(matches!(Message::decode("not json"), Err(ClientError::Serialization(_))));
}

#[test]
fn version_tag_defaults_to_two_point_zero() {
    match decode_document(r#"{"id":1,"method":"m"}"#).unwrap() {
        Message::Request(r) => assert_eq!(r.jsonrpc, "2.0"),
        other => panic!("unexpected: {:?}", other),
    }
    match decode_document(r#"{"jsonrpc":"1.0","method":"m"}"#).unwrap() {
        Message::Notification(n) => assert_eq!(n.jsonrpc, "1.0"),
        other => panic!("unexpected: {:?}", other),
    }
}
