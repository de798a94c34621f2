use telegram_core::envelope::{decode_envelope, ApiError, Disposition, RequestError};
use telegram_core::json::JsonValue;
use telegram_core::results::{ChatPhoto, File, Message, OrderInfo, ShippingAddress};

fn convert(v: serde_json::Value) -> JsonValue {
    match v {
        serde_json::Value::Null => JsonValue::Null,
        serde_json::Value::Bool(b) => JsonValue::Bool(b),
        serde_json::Value::Number(n) => match n.as_i64() {
            Some(i) => JsonValue::Int(i),
            None => JsonValue::Null,
        },
        serde_json::Value::String(s) => JsonValue::Str(s),
        serde_json::Value::Array(a) => JsonValue::Array(a.into_iter().map(convert).collect()),
        serde_json::Value::Object(m) => {
            JsonValue::Object(m.into_iter().map(|(k, v)| (k, convert(v))).collect())
        }
    }
}

fn parse(body: &str) -> Option<JsonValue> {
    serde_json::from_str::<serde_json::Value>(body).ok().map(convert)
}

#[test]
fn decodes_message_id_result() {
    let r = decode_envelope::<i64>(&parse(r#"{"ok": true, "result": 123}"#));
    assert_eq!(r, Ok(123));
    let r = decode_envelope::<i32>(&parse(r#"{"ok": true, "result": 123}"#));
    assert_eq!(r, Ok(123));
}

#[test]
fn decodes_rate_limit() {
    let body = r#"{"ok": false, "error_code": 429, "description": "Too Many Requests", "parameters": {"retry_after": 5}}"#;
    let e = decode_envelope::<i64>(&parse(body)).unwrap_err();
    assert_eq!(
        e,
        RequestError::Api(ApiError {
            error_code: 429,
            description: "Too Many Requests".to_string(),
            retry_after: Some(5),
            migrate_to_chat_id: None,
        })
    );
    assert_eq!(e.disposition(), Disposition::RetryAfter(5));
}

#[test]
fn decodes_migration() {
    let body = r#"{"ok": false, "error_code": 400, "description": "group chat was upgraded to a supergroup chat", "parameters": {"migrate_to_chat_id": -100123456}}"#;
    let e = decode_envelope::<Message>(&parse(body)).unwrap_err();
    match &e {
        RequestError::Api(a) => {
            assert_eq!(a.error_code, 400);
            assert_eq!(a.migrate_to_chat_id, Some(-100123456));
            assert_eq!(a.retry_after, None);
        }
        other => panic!("unexpected {:?}", other),
    }
    assert_eq!(e.disposition(), Disposition::Migrate(-100123456));
}

#[test]
fn html_body_is_protocol_violation() {
    let body = "<html><body>502 Bad Gateway</body></html>";
    assert_eq!(decode_envelope::<i64>(&parse(body)), Err(RequestError::ProtocolViolation));
    assert_eq!(RequestError::ProtocolViolation.disposition(), Disposition::Fatal);
}

#[test]
fn missing_ok_is_protocol_violation() {
    assert_eq!(decode_envelope::<i64>(&parse(r#"{"result": 1}"#)), Err(RequestError::ProtocolViolation));
    assert_eq!(decode_envelope::<i64>(&parse(r#"[1, 2]"#)), Err(RequestError::ProtocolViolation));
    assert_eq!(decode_envelope::<i64>(&parse(r#"{"ok": "yes"}"#)), Err(RequestError::ProtocolViolation));
    assert_eq!(
        decode_envelope::<i64>(&parse(r#"{"ok": false, "description": "no code"}"#)),
        Err(RequestError::ProtocolViolation)
    );
}

#[test]
fn wrong_result_shape_is_schema_mismatch() {
    assert_eq!(decode_envelope::<i64>(&parse(r#"{"ok": true, "result": "x"}"#)), Err(RequestError::SchemaMismatch));
    assert_eq!(decode_envelope::<bool>(&parse(r#"{"ok": true}"#)), Err(RequestError::SchemaMismatch));
    assert_eq!(
        decode_envelope::<i32>(&parse(r#"{"ok": true, "result": 4294967296}"#)),
        Err(RequestError::SchemaMismatch)
    );
    assert_eq!(RequestError::SchemaMismatch.disposition(), Disposition::Fatal);
}

#[test]
fn api_error_without_hints_is_fatal() {
    let body = r#"{"ok": false, "error_code": 400, "description": "Bad Request"}"#;
    let e = decode_envelope::<bool>(&parse(body)).unwrap_err();
    assert_eq!(e.disposition(), Disposition::Fatal);
    assert_eq!(RequestError::Network("timeout".to_string()).disposition(), Disposition::Retry);
}

#[test]
fn decodes_message() {
    let body = r#"{"ok": true, "result": {"message_id": 9, "date": 1600000000, "chat": {"id": -42, "type": "group"}, "text": "hey"}}"#;
    assert_eq!(
        decode_envelope::<Message>(&parse(body)),
        Ok(Message { message_id: 9, chat_id: -42, date: 1600000000, text: Some("hey".to_string()) })
    );
    let no_text = r#"{"ok": true, "result": {"message_id": 9, "date": 1, "chat": {"id": 3}}}"#;
    assert_eq!(decode_envelope::<Message>(&parse(no_text)).unwrap().text, None);
}

#[test]
fn decodes_file() {
    let body = r#"{"ok": true, "result": {"file_id": "AgAD", "file_size": 2048, "file_path": "photos/f.jpg"}}"#;
    assert_eq!(
        decode_envelope::<File>(&parse(body)),
        Ok(File { file_id: "AgAD".to_string(), file_size: Some(2048), file_path: Some("photos/f.jpg".to_string()) })
    );
}

#[test]
fn decodes_chat_photo_and_order_info() {
    let photo = r#"{"ok": true, "result": {"small_file_id": "s", "big_file_id": "b"}}"#;
    assert_eq!(
        decode_envelope::<ChatPhoto>(&parse(photo)),
        Ok(ChatPhoto { small_file_id: "s".to_string(), big_file_id: "b".to_string() })
    );
    let order = r#"{"ok": true, "result": {"name": "N", "phone_number": "1", "email": "e@x", "shipping_address": {"country_code": "DE", "state": "", "city": "Berlin", "street_line1": "A 1", "street_line2": "", "post_code": "10115"}}}"#;
    assert_eq!(
        decode_envelope::<OrderInfo>(&parse(order)),
        Ok(OrderInfo {
            name: "N".to_string(),
            phone_number: "1".to_string(),
            email: "e@x".to_string(),
            shipping_address: ShippingAddress {
                country_code: "DE".to_string(),
                state: "".to_string(),
                city: "Berlin".to_string(),
                street_line1: "A 1".to_string(),
                street_line2: "".to_string(),
                post_code: "10115".to_string(),
            },
        })
    );
    let broken = r#"{"ok": true, "result": {"small_file_id": "s"}}"#;
    assert_eq!(decode_envelope::<ChatPhoto>(&parse(broken)), Err(RequestError::SchemaMismatch));
}
