use telegram_core::form::{
    encode_body, encode_form, json_body, method_url, needs_multipart, Body, Field, FieldValue,
    FormPart, PartValue, Scalar,
};
use telegram_core::json::{int_text, to_json_text, JsonValue};
use telegram_core::requests::{
    EditMessageMedia, EditMessageMediaInline, GetFile, Payload, SendSticker,
};
use telegram_core::envelope::EncodingError;
use telegram_core::types::{
    ButtonKind, ChatId, InlineKeyboardButton, InlineKeyboardMarkup, InputFile, InputMedia,
    MediaKind, ReplyMarkup,
};

fn text_of(p: &FormPart) -> Option<&str> {
    match &p.value {
        PartValue::Text(t) => Some(t.as_str()),
        PartValue::Binary { .. } => None,
    }
}

fn photo(file: InputFile) -> InputMedia {
    InputMedia { kind: MediaKind::Photo, media: file, caption: None }
}

#[test]
fn payload_without_files_goes_as_json() {
    let fields = SendSticker::new(ChatId::Id(7), InputFile::FileId("CAAD".to_string()))
        .disable_notification(false)
        .fields();
    assert!(!needs_multipart(&fields));
    match encode_body(&fields) {
        Body::Json(t) => {
            assert_eq!(t, r#"{"chat_id":7,"sticker":"CAAD","disable_notification":false}"#)
        }
        Body::Multipart(_) => panic!("expected a JSON body"),
    }
}

#[test]
fn payload_with_local_bytes_goes_as_form() {
    let file = InputFile::Memory { file_name: Some("s.webp".to_string()), data: vec![1, 2, 3] };
    let fields = SendSticker::new(ChatId::Id(7), file).fields();
    assert!(needs_multipart(&fields));
    match encode_body(&fields) {
        Body::Multipart(parts) => {
            assert_eq!(parts.len(), 2);
            assert_eq!(parts[1].name, "sticker");
            assert_eq!(
                parts[1].value,
                PartValue::Binary {
                    data: vec![1, 2, 3],
                    file_name: "s.webp".to_string(),
                    mime_type: "application/octet-stream".to_string(),
                }
            );
        }
        Body::Json(_) => panic!("expected a form"),
    }
}

#[test]
fn uploaded_bytes_without_name_get_placeholder() {
    let file = InputFile::Memory { file_name: None, data: vec![9] };
    let parts = encode_form(&SendSticker::new(ChatId::Id(1), file).fields());
    match &parts[1].value {
        PartValue::Binary { file_name, .. } => assert_eq!(file_name, "file"),
        PartValue::Text(_) => panic!("expected binary content"),
    }
}

#[test]
fn form_omits_absent_fields() {
    let fields = SendSticker::new(ChatId::Id(-5), InputFile::FileId("F".to_string()))
        .reply_to_message_id(42)
        .fields();
    let parts = encode_form(&fields);
    let names: Vec<&str> = parts.iter().map(|p| p.name.as_str()).collect();
    assert_eq!(names, vec!["chat_id", "sticker", "reply_to_message_id"]);
    assert_eq!(text_of(&parts[0]), Some("-5"));
    assert_eq!(text_of(&parts[2]), Some("42"));
}

#[test]
fn json_body_writes_bool_tokens() {
    let on = SendSticker::new(ChatId::Id(1), InputFile::FileId("x".to_string()))
        .disable_notification(true)
        .fields();
    assert_eq!(json_body(&on), r#"{"chat_id":1,"sticker":"x","disable_notification":true}"#);
    let off = SendSticker::new(ChatId::Id(1), InputFile::FileId("x".to_string()))
        .disable_notification(false)
        .fields();
    let body = json_body(&off);
    assert!(body.contains(":false"));
    assert!(!body.contains("\"false\""));
}

#[test]
fn form_round_trip_recovers_present_fields() {
    let fields = SendSticker::new(
        ChatId::ChannelUsername("@chan".to_string()),
        InputFile::Url("https://example.com/s.webp".to_string()),
    )
    .disable_notification(true)
    .fields();
    let parts = encode_form(&fields);
    let mut read: Vec<(String, String)> = parts
        .iter()
        .map(|p| (p.name.clone(), text_of(p).unwrap().to_string()))
        .collect();
    read.sort();
    let mut expected = vec![
        ("chat_id".to_string(), "@chan".to_string()),
        ("sticker".to_string(), "https://example.com/s.webp".to_string()),
        ("disable_notification".to_string(), "true".to_string()),
    ];
    expected.sort();
    assert_eq!(read, expected);
}

#[test]
fn url_file_is_text_part() {
    let url = "https://example.com/a.webp".to_string();
    let fields = SendSticker::new(ChatId::Id(3), InputFile::Url(url.clone())).fields();
    assert!(!needs_multipart(&fields));
    let parts = encode_form(&fields);
    assert_eq!(parts[1].value, PartValue::Text(url));
}

#[test]
fn strings_are_escaped_in_json() {
    let fields = GetFile::new("a\"b\\c".to_string()).fields();
    assert_eq!(json_body(&fields), r#"{"file_id":"a\"b\\c"}"#);
}

#[test]
fn control_characters_are_escaped() {
    let fields = GetFile::new("a\nb\tc\u{1}d\u{7f}/é".to_string()).fields();
    assert_eq!(json_body(&fields), "{\"file_id\":\"a\\nb\\tc\\u0001d\u{7f}/é\"}");
}

#[test]
fn integers_render_in_decimal() {
    assert_eq!(int_text(0), "0");
    assert_eq!(int_text(1234567890), "1234567890");
    assert_eq!(int_text(-100123456), "-100123456");
    assert_eq!(int_text(i64::MIN), "-9223372036854775808");
    assert_eq!(int_text(i64::MAX), "9223372036854775807");
}

#[test]
fn nested_json_text() {
    let v = JsonValue::Object(vec![
        ("a".to_string(), JsonValue::Array(vec![JsonValue::Int(1), JsonValue::Null])),
        ("b".to_string(), JsonValue::Object(vec![])),
        ("c".to_string(), JsonValue::Array(vec![])),
    ]);
    assert_eq!(to_json_text(&v), r#"{"a":[1,null],"b":{},"c":[]}"#);
}

#[test]
fn keyboard_is_serialised_as_json_part() {
    let kb = InlineKeyboardMarkup {
        inline_keyboard: vec![vec![
            InlineKeyboardButton {
                text: "Go".to_string(),
                kind: ButtonKind::Url("https://t.me".to_string()),
            },
            InlineKeyboardButton {
                text: "Ok".to_string(),
                kind: ButtonKind::CallbackData("ok".to_string()),
            },
        ]],
    };
    let fields = SendSticker::new(ChatId::Id(1), InputFile::FileId("s".to_string()))
        .reply_markup(ReplyMarkup::InlineKeyboard(kb))
        .fields();
    let parts = encode_form(&fields);
    assert_eq!(
        text_of(&parts[2]),
        Some(r#"{"inline_keyboard":[[{"text":"Go","url":"https://t.me"},{"text":"Ok","callback_data":"ok"}]]}"#)
    );
}

#[test]
fn reply_markup_flags() {
    assert_eq!(to_json_text(&ReplyMarkup::ForceReply.to_json()), r#"{"force_reply":true}"#);
    assert_eq!(to_json_text(&ReplyMarkup::KeyboardRemove.to_json()), r#"{"remove_keyboard":true}"#);
}

#[test]
fn edit_media_fields() {
    let req = EditMessageMedia::new(
        ChatId::Id(10),
        5,
        InputMedia {
            kind: MediaKind::Video,
            media: InputFile::FileId("vid".to_string()),
            caption: Some("hi".to_string()),
        },
    );
    assert_eq!(req.method_name(), "editMessageMedia");
    let fields = req.fields().unwrap();
    assert_eq!(
        json_body(&fields),
        r#"{"chat_id":10,"message_id":5,"media":{"type":"video","media":"vid","caption":"hi"}}"#
    );
}

#[test]
fn edit_media_with_local_bytes_is_refused() {
    let req = EditMessageMedia::new(
        ChatId::Id(10),
        5,
        photo(InputFile::Memory { file_name: None, data: vec![0] }),
    );
    assert_eq!(req.fields().unwrap_err(), EncodingError::NestedFile("media".to_string()));
    let inline = EditMessageMediaInline::new(
        "inl".to_string(),
        photo(InputFile::Memory { file_name: None, data: vec![0] }),
    );
    assert_eq!(inline.into_fields().unwrap_err(), EncodingError::NestedFile("media".to_string()));
}

#[test]
fn edit_media_inline_fields() {
    let kb = InlineKeyboardMarkup { inline_keyboard: vec![] };
    let req = EditMessageMediaInline::new("abc".to_string(), photo(InputFile::Url("u".to_string())))
        .reply_markup(kb);
    let fields = req.fields().unwrap();
    assert_eq!(
        json_body(&fields),
        r#"{"inline_message_id":"abc","media":{"type":"photo","media":"u"},"reply_markup":{"inline_keyboard":[]}}"#
    );
}

#[test]
fn builders_replace_fields() {
    let req = EditMessageMedia::new(ChatId::Id(1), 2, photo(InputFile::FileId("a".to_string())))
        .chat_id(ChatId::ChannelUsername("@c".to_string()))
        .message_id(3)
        .media(photo(InputFile::FileId("b".to_string())));
    assert_eq!(req.chat_id, ChatId::ChannelUsername("@c".to_string()));
    assert_eq!(req.message_id, 3);
    assert_eq!(req.media.media, InputFile::FileId("b".to_string()));
    assert_eq!(req.reply_markup, None);

    let inline = EditMessageMediaInline::new("x".to_string(), photo(InputFile::FileId("a".to_string())))
        .inline_message_id("y".to_string())
        .media(photo(InputFile::FileId("c".to_string())));
    assert_eq!(inline.inline_message_id, "y");
    assert_eq!(inline.media.media, InputFile::FileId("c".to_string()));

    let gf = GetFile::new("one".to_string()).file_id("two".to_string());
    assert_eq!(gf, GetFile { file_id: "two".to_string() });
    assert_eq!(gf.method_name(), "getFile");

    let st = SendSticker::new(ChatId::Id(1), InputFile::FileId("a".to_string()))
        .chat_id(ChatId::Id(2))
        .sticker(InputFile::FileId("b".to_string()))
        .reply_markup(ReplyMarkup::ForceReply);
    assert_eq!(st.chat_id, ChatId::Id(2));
    assert_eq!(st.sticker, InputFile::FileId("b".to_string()));
    assert_eq!(st.reply_markup, Some(ReplyMarkup::ForceReply));
    assert_eq!(st.method_name(), "sendSticker");
}

#[test]
fn endpoint_url() {
    assert_eq!(
        method_url("https://api.telegram.org", "123:ABC", "getFile"),
        "https://api.telegram.org/bot123:ABC/getFile"
    );
}

#[test]
fn structured_and_scalar_parts() {
    let fields = vec![
        Field { name: "a".to_string(), value: None },
        Field { name: "b".to_string(), value: Some(FieldValue::Scalar(Scalar::Str("s".to_string()))) },
        Field { name: "c".to_string(), value: Some(FieldValue::Structured(JsonValue::Array(vec![JsonValue::Bool(true)]))) },
    ];
    let parts = encode_form(&fields);
    assert_eq!(parts.len(), 2);
    assert_eq!(text_of(&parts[0]), Some("s"));
    assert_eq!(text_of(&parts[1]), Some("[true]"));
    assert_eq!(json_body(&fields), r#"{"b":"s","c":[true]}"#);
}
