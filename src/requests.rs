//! Request payloads: each names its API method and lists its fields.

use vstd::prelude::*;

use crate::envelope::{EncodingError, FromJson};
use crate::form::{distinct_names, Field, FieldValue, Scalar};
use crate::json::{is_str_object, JsonValue};
use crate::results::{File, Message};
use crate::types::{
    is_flag_object, is_keyboard_json, ChatId, InlineKeyboardMarkup, InputFile, InputMedia,
    ReplyMarkup,
};

verus! {

/// A typed request to one API method.
pub trait Payload: Sized {
    /// What a successful call returns.
    type Output: FromJson;

    /// The fixed name of the remote method.
    spec fn method() -> Seq<char>;

    /// The name of the remote method; never empty.
    fn method_name(&self) -> (r: &'static str)
        ensures
            r@ == Self::method(),
            r@.len() > 0,
    ;

    /// Whether the request can be encoded at all.
    spec fn encodable(self) -> bool;

    /// `fs` is this request's field list: each field by name, with its
    /// value or marked absent.
    spec fn is_field_list(self, fs: Seq<Field>) -> bool;

    /// The request's fields, by name, absent ones included; an encoding
    /// error exactly when the request is not encodable.
    fn into_fields(self) -> (r: Result<Vec<Field>, EncodingError>)
        ensures
            r is Ok <==> self.encodable(),
            match r {
                Ok(fs) => self.is_field_list(fs@),
                Err(_) => true,
            },
    ;
}

/// The field value of a chat: its number, or its channel username.
pub open spec fn chat_value(c: ChatId) -> FieldValue {
    match c {
        ChatId::Id(i) => FieldValue::Scalar(Scalar::Int(i)),
        ChatId::ChannelUsername(s) => FieldValue::Scalar(Scalar::Str(s)),
    }
}

fn chat_field(c: ChatId) -> (r: Field)
    ensures
        r.name@ == "chat_id"@,
        r.value == Some(chat_value(c)),
{
    let v = match c {
        ChatId::Id(i) => FieldValue::Scalar(Scalar::Int(i)),
        ChatId::ChannelUsername(s) => FieldValue::Scalar(Scalar::Str(s)),
    };
    Field { name: String::from_str("chat_id"), value: Some(v) }
}

/// `v` is the JSON form of an inline keyboard.
pub open spec fn is_inline_markup_json(v: JsonValue, k: InlineKeyboardMarkup) -> bool {
    &&& v is Object
    &&& v->Object_0@.len() == 1
    &&& v->Object_0@[0].0@ == "inline_keyboard"@
    &&& is_keyboard_json(v->Object_0@[0].1, k.inline_keyboard@)
}

/// `v` is the JSON form of reply markup.
pub open spec fn is_reply_markup_json(v: JsonValue, m: ReplyMarkup) -> bool {
    match m {
        ReplyMarkup::InlineKeyboard(k) => is_inline_markup_json(v, k),
        ReplyMarkup::KeyboardRemove => is_flag_object(v, "remove_keyboard"@),
        ReplyMarkup::ForceReply => is_flag_object(v, "force_reply"@),
    }
}

/// `f` is the optional inline keyboard field `reply_markup`.
pub open spec fn is_inline_markup_field(f: Field, m: Option<InlineKeyboardMarkup>) -> bool {
    &&& f.name@ == "reply_markup"@
    &&& match m {
        None => f.value is None,
        Some(k) => match f.value {
            Some(FieldValue::Structured(j)) => is_inline_markup_json(j, k),
            _ => false,
        },
    }
}

fn inline_markup_field(m: Option<InlineKeyboardMarkup>) -> (r: Field)
    ensures
        is_inline_markup_field(r, m),
{
    let value = match &m {
        Some(k) => Some(FieldValue::Structured(k.to_json())),
        None => None,
    };
    Field { name: String::from_str("reply_markup"), value }
}

/// `f` is the media field: the media's JSON object.
pub open spec fn is_media_field(f: Field, m: InputMedia) -> bool {
    &&& f.name@ == "media"@
    &&& match f.value {
        Some(FieldValue::Structured(j)) => is_str_object(j, m.json_members()),
        _ => false,
    }
}

fn media_field(m: &InputMedia) -> (r: Result<Field, EncodingError>)
    ensures
        m.media is Memory <==> r is Err,
        match r {
            Ok(f) => is_media_field(f, *m),
            Err(EncodingError::NestedFile(n)) => n@ == "media"@,
        },
{
    match m.to_json() {
        Ok(j) => Ok(Field { name: String::from_str("media"), value: Some(FieldValue::Structured(j)) }),
        Err(e) => Err(e),
    }
}

/// Edits the media of a message in a chat.
#[derive(Debug, Clone, PartialEq, Eq)]
pub struct EditMessageMedia {
    pub chat_id: ChatId,
    pub message_id: i32,
    pub media: InputMedia,
    pub reply_markup: Option<InlineKeyboardMarkup>,
}

impl EditMessageMedia {
    pub fn new(chat_id: ChatId, message_id: i32, media: InputMedia) -> (r: Self)
        ensures
            r == (EditMessageMedia { chat_id, message_id, media, reply_markup: None }),
    {
        EditMessageMedia { chat_id, message_id, media, reply_markup: None }
    }

    pub fn chat_id(self, val: ChatId) -> (r: Self)
        ensures
            r == (EditMessageMedia { chat_id: val, ..self }),
    {
        EditMessageMedia { chat_id: val, ..self }
    }

    pub fn message_id(self, val: i32) -> (r: Self)
        ensures
            r == (EditMessageMedia { message_id: val, ..self }),
    {
        EditMessageMedia { message_id: val, ..self }
    }

    pub fn media(self, val: InputMedia) -> (r: Self)
        ensures
            r == (EditMessageMedia { media: val, ..self }),
    {
        EditMessageMedia { media: val, ..self }
    }

    pub fn reply_markup(self, val: InlineKeyboardMarkup) -> (r: Self)
        ensures
            r == (EditMessageMedia { reply_markup: Some(val), ..self }),
    {
        EditMessageMedia { reply_markup: Some(val), ..self }
    }

    /// The fields `chat_id`, `message_id`, `media`, `reply_markup`; refused
    /// when the media is local bytes, which cannot be nested.
    pub fn fields(self) -> (r: Result<Vec<Field>, EncodingError>)
        ensures
            self.media.media is Memory <==> r is Err,
            match r {
                Ok(fs) => self.is_field_list(fs@),
                Err(EncodingError::NestedFile(n)) => n@ == "media"@,
            },
    {
        let media = match media_field(&self.media) {
            Ok(f) => f,
            Err(e) => {
                return Err(e);
            },
        };
        let mut fs: Vec<Field> = Vec::new();
        fs.push(chat_field(self.chat_id));
        fs.push(
            Field {
                name: String::from_str("message_id"),
                value: Some(FieldValue::Scalar(Scalar::Int(self.message_id as i64))),
            },
        );
        fs.push(media);
        fs.push(inline_markup_field(self.reply_markup));
        proof {
            reveal_strlit("chat_id");
            reveal_strlit("message_id");
            reveal_strlit("media");
            reveal_strlit("reply_markup");
            assert(fs@[0].name@[0] != fs@[1].name@[0]);
            assert(fs@[0].name@[0] != fs@[2].name@[0]);
            assert(fs@[0].name@[0] != fs@[3].name@[0]);
            assert(fs@[1].name@[2] != fs@[2].name@[2]);
            assert(fs@[1].name@[0] != fs@[3].name@[0]);
            assert(fs@[2].name@[0] != fs@[3].name@[0]);
        }
        Ok(fs)
    }
}

impl Payload for EditMessageMedia {
    open spec fn encodable(self) -> bool {
        !(self.media.media is Memory)
    }

    open spec fn is_field_list(self, fs: Seq<Field>) -> bool {
        &&& fs.len() == 4
        &&& distinct_names(fs)
        &&& fs[0].name@ == "chat_id"@
        &&& fs[0].value == Some(chat_value(self.chat_id))
        &&& fs[1].name@ == "message_id"@
        &&& fs[1].value == Some(FieldValue::Scalar(Scalar::Int(self.message_id as i64)))
        &&& is_media_field(fs[2], self.media)
        &&& is_inline_markup_field(fs[3], self.reply_markup)
    }

    open spec fn method() -> Seq<char> {
        "editMessageMedia"@
    }

    type Output = Message;

    fn method_name(&self) -> (r: &'static str) {
        proof {
            reveal_strlit("editMessageMedia");
        }
        "editMessageMedia"
    }

    fn into_fields(self) -> (r: Result<Vec<Field>, EncodingError>) {
        self.fields()
    }
}

/// Edits the media of a message sent through inline mode.
#[derive(Debug, Clone, PartialEq, Eq)]
pub struct EditMessageMediaInline {
    pub inline_message_id: String,
    pub media: InputMedia,
    pub reply_markup: Option<InlineKeyboardMarkup>,
}

impl EditMessageMediaInline {
    pub fn new(inline_message_id: String, media: InputMedia) -> (r: Self)
        ensures
            r == (EditMessageMediaInline { inline_message_id, media, reply_markup: None }),
    {
        EditMessageMediaInline { inline_message_id, media, reply_markup: None }
    }

    pub fn inline_message_id(self, val: String) -> (r: Self)
        ensures
            r == (EditMessageMediaInline { inline_message_id: val, ..self }),
    {
        EditMessageMediaInline { inline_message_id: val, ..self }
    }

    pub fn media(self, val: InputMedia) -> (r: Self)
        ensures
            r == (EditMessageMediaInline { media: val, ..self }),
    {
        EditMessageMediaInline { media: val, ..self }
    }

    pub fn reply_markup(self, val: InlineKeyboardMarkup) -> (r: Self)
        ensures
            r == (EditMessageMediaInline { reply_markup: Some(val), ..self }),
    {
        EditMessageMediaInline { reply_markup: Some(val), ..self }
    }

    /// The fields `inline_message_id`, `media`, `reply_markup`; refused
    /// when the media is local bytes, which cannot be nested.
    pub fn fields(self) -> (r: Result<Vec<Field>, EncodingError>)
        ensures
            self.media.media is Memory <==> r is Err,
            match r {
                Ok(fs) => self.is_field_list(fs@),
                Err(EncodingError::NestedFile(n)) => n@ == "media"@,
            },
    {
        let media = match media_field(&self.media) {
            Ok(f) => f,
            Err(e) => {
                return Err(e);
            },
        };
        let mut fs: Vec<Field> = Vec::new();
        fs.push(
            Field {
                name: String::from_str("inline_message_id"),
                value: Some(FieldValue::Scalar(Scalar::Str(self.inline_message_id))),
            },
        );
        fs.push(media);
        fs.push(inline_markup_field(self.reply_markup));
        proof {
            reveal_strlit("inline_message_id");
            reveal_strlit("media");
            reveal_strlit("reply_markup");
            assert(fs@[0].name@[0] != fs@[1].name@[0]);
            assert(fs@[0].name@[0] != fs@[2].name@[0]);
            assert(fs@[1].name@[0] != fs@[2].name@[0]);
        }
        Ok(fs)
    }
}

impl Payload for EditMessageMediaInline {
    open spec fn encodable(self) -> bool {
        !(self.media.media is Memory)
    }

    open spec fn is_field_list(self, fs: Seq<Field>) -> bool {
        &&& fs.len() == 3
        &&& distinct_names(fs)
        &&& fs[0].name@ == "inline_message_id"@
        &&& fs[0].value == Some(FieldValue::Scalar(Scalar::Str(self.inline_message_id)))
        &&& is_media_field(fs[1], self.media)
        &&& is_inline_markup_field(fs[2], self.reply_markup)
    }

    open spec fn method() -> Seq<char> {
        "editMessageMedia"@
    }

    type Output = Message;

    fn method_name(&self) -> (r: &'static str) {
        proof {
            reveal_strlit("editMessageMedia");
        }
        "editMessageMedia"
    }

    fn into_fields(self) -> (r: Result<Vec<Field>, EncodingError>) {
        self.fields()
    }
}

/// Asks for the download information of a file.
#[derive(Debug, Clone, PartialEq, Eq, Hash)]
pub struct GetFile {
    pub file_id: String,
}

impl GetFile {
    pub fn new(file_id: String) -> (r: Self)
        ensures
            r == (GetFile { file_id }),
    {
        GetFile { file_id }
    }

    pub fn file_id(self, value: String) -> (r: Self)
        ensures
            r == (GetFile { file_id: value }),
    {
        GetFile { file_id: value }
    }

    /// The single field `file_id`.
    pub fn fields(self) -> (r: Vec<Field>)
        ensures
            self.is_field_list(r@),
    {
        let mut fs: Vec<Field> = Vec::new();
        fs.push(
            Field {
                name: String::from_str("file_id"),
                value: Some(FieldValue::Scalar(Scalar::Str(self.file_id))),
            },
        );
        fs
    }
}

impl Payload for GetFile {
    open spec fn encodable(self) -> bool {
        true
    }

    open spec fn is_field_list(self, fs: Seq<Field>) -> bool {
        &&& fs.len() == 1
        &&& distinct_names(fs)
        &&& fs[0].name@ == "file_id"@
        &&& fs[0].value == Some(FieldValue::Scalar(Scalar::Str(self.file_id)))
    }

    open spec fn method() -> Seq<char> {
        "getFile"@
    }

    type Output = File;

    fn method_name(&self) -> (r: &'static str) {
        proof {
            reveal_strlit("getFile");
        }
        "getFile"
    }

    fn into_fields(self) -> (r: Result<Vec<Field>, EncodingError>) {
        Ok(self.fields())
    }
}

/// Sends a sticker, as a known file, a URL, or uploaded bytes.
#[derive(Debug, Clone, PartialEq, Eq, Hash)]
pub struct SendSticker {
    pub chat_id: ChatId,
    pub sticker: InputFile,
    pub disable_notification: Option<bool>,
    pub reply_to_message_id: Option<i32>,
    pub reply_markup: Option<ReplyMarkup>,
}

impl SendSticker {
    pub fn new(chat_id: ChatId, sticker: InputFile) -> (r: Self)
        ensures
            r == (SendSticker {
                chat_id,
                sticker,
                disable_notification: None,
                reply_to_message_id: None,
                reply_markup: None,
            }),
    {
        SendSticker {
            chat_id,
            sticker,
            disable_notification: None,
            reply_to_message_id: None,
            reply_markup: None,
        }
    }

    pub fn chat_id(self, val: ChatId) -> (r: Self)
        ensures
            r == (SendSticker { chat_id: val, ..self }),
    {
        SendSticker { chat_id: val, ..self }
    }

    pub fn sticker(self, val: InputFile) -> (r: Self)
        ensures
            r == (SendSticker { sticker: val, ..self }),
    {
        SendSticker { sticker: val, ..self }
    }

    pub fn disable_notification(self, val: bool) -> (r: Self)
        ensures
            r == (SendSticker { disable_notification: Some(val), ..self }),
    {
        SendSticker { disable_notification: Some(val), ..self }
    }

    pub fn reply_to_message_id(self, val: i32) -> (r: Self)
        ensures
            r == (SendSticker { reply_to_message_id: Some(val), ..self }),
    {
        SendSticker { reply_to_message_id: Some(val), ..self }
    }

    pub fn reply_markup(self, val: ReplyMarkup) -> (r: Self)
        ensures
            r == (SendSticker { reply_markup: Some(val), ..self }),
    {
        SendSticker { reply_markup: Some(val), ..self }
    }

    /// The fields `chat_id`, `sticker`, `disable_notification`,
    /// `reply_to_message_id`, `reply_markup`, absent ones included.
    pub fn fields(self) -> (r: Vec<Field>)
        ensures
            self.is_field_list(r@),
    {
        let mut fs: Vec<Field> = Vec::new();
        fs.push(chat_field(self.chat_id));
        fs.push(Field { name: String::from_str("sticker"), value: Some(FieldValue::File(self.sticker)) });
        let dn = match self.disable_notification {
            Some(b) => Some(FieldValue::Scalar(Scalar::Bool(b))),
            None => None,
        };
        fs.push(Field { name: String::from_str("disable_notification"), value: dn });
        let rt = match self.reply_to_message_id {
            Some(m) => Some(FieldValue::Scalar(Scalar::Int(m as i64))),
            None => None,
        };
        fs.push(Field { name: String::from_str("reply_to_message_id"), value: rt });
        let rm = match &self.reply_markup {
            Some(m) => Some(FieldValue::Structured(m.to_json())),
            None => None,
        };
        fs.push(Field { name: String::from_str("reply_markup"), value: rm });
        proof {
            reveal_strlit("chat_id");
            reveal_strlit("sticker");
            reveal_strlit("disable_notification");
            reveal_strlit("reply_to_message_id");
            reveal_strlit("reply_markup");
            assert(fs@[0].name@[0] != fs@[1].name@[0]);
            assert(fs@[0].name@[0] != fs@[2].name@[0]);
            assert(fs@[0].name@[0] != fs@[3].name@[0]);
            assert(fs@[0].name@[0] != fs@[4].name@[0]);
            assert(fs@[1].name@[0] != fs@[2].name@[0]);
            assert(fs@[1].name@[0] != fs@[3].name@[0]);
            assert(fs@[1].name@[0] != fs@[4].name@[0]);
            assert(fs@[2].name@[0] != fs@[3].name@[0]);
            assert(fs@[2].name@[0] != fs@[4].name@[0]);
            assert(fs@[3].name@[6] != fs@[4].name@[6]);
        }
        fs
    }
}

impl Payload for SendSticker {
    open spec fn encodable(self) -> bool {
        true
    }

    open spec fn is_field_list(self, fs: Seq<Field>) -> bool {
        &&& fs.len() == 5
        &&& distinct_names(fs)
        &&& fs[0].name@ == "chat_id"@
        &&& fs[0].value == Some(chat_value(self.chat_id))
        &&& fs[1].name@ == "sticker"@
        &&& fs[1].value == Some(FieldValue::File(self.sticker))
        &&& fs[2].name@ == "disable_notification"@
        &&& fs[2].value == match self.disable_notification {
            Some(b) => Some(FieldValue::Scalar(Scalar::Bool(b))),
            None => None,
        }
        &&& fs[3].name@ == "reply_to_message_id"@
        &&& fs[3].value == match self.reply_to_message_id {
            Some(m) => Some(FieldValue::Scalar(Scalar::Int(m as i64))),
            None => None,
        }
        &&& fs[4].name@ == "reply_markup"@
        &&& match self.reply_markup {
            None => fs[4].value is None,
            Some(m) => match fs[4].value {
                Some(FieldValue::Structured(j)) => is_reply_markup_json(j, m),
                _ => false,
            },
        }
    }

    open spec fn method() -> Seq<char> {
        "sendSticker"@
    }

    type Output = Message;

    fn method_name(&self) -> (r: &'static str) {
        proof {
            reveal_strlit("sendSticker");
        }
        "sendSticker"
    }

    fn into_fields(self) -> (r: Result<Vec<Field>, EncodingError>) {
        Ok(self.fields())
    }
}

} // verus!
