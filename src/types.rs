//! Values that requests carry: chats, files, media and keyboards.

use vstd::prelude::*;

use crate::envelope::EncodingError;
use crate::json::{is_str_object, str_pair, JsonValue};

verus! {

/// A chat, by numeric identifier or by channel username (`@channel`).
#[derive(Debug, Clone, PartialEq, Eq, Hash)]
pub enum ChatId {
    Id(i64),
    ChannelUsername(String),
}

/// A file to send: one the service already knows, one it should fetch from
/// a URL, or bytes uploaded with the request.
#[derive(Debug, Clone, PartialEq, Eq, Hash)]
pub enum InputFile {
    FileId(String),
    Url(String),
    Memory { file_name: Option<String>, data: Vec<u8> },
}

/// The identifier or URL that names a file which is not uploaded.
pub open spec fn file_ref(f: InputFile) -> Seq<char> {
    match f {
        InputFile::FileId(s) => s@,
        InputFile::Url(s) => s@,
        InputFile::Memory { .. } => Seq::empty(),
    }
}

impl InputFile {
    /// Whether the file's bytes travel with the request.
    pub fn is_local(&self) -> (r: bool)
        ensures
            r == (*self is Memory),
    {
        match self {
            InputFile::Memory { .. } => true,
            _ => false,
        }
    }
}

/// The kind of a media item.
#[derive(Debug, Clone, Copy, PartialEq, Eq, Hash)]
pub enum MediaKind {
    Photo,
    Video,
    Animation,
    Audio,
    Document,
}

pub open spec fn media_kind_name(k: MediaKind) -> Seq<char> {
    match k {
        MediaKind::Photo => "photo"@,
        MediaKind::Video => "video"@,
        MediaKind::Animation => "animation"@,
        MediaKind::Audio => "audio"@,
        MediaKind::Document => "document"@,
    }
}

impl MediaKind {
    /// The name the API gives the kind in `type`.
    pub fn name(&self) -> (r: &'static str)
        ensures
            r@ == media_kind_name(*self),
    {
        match self {
            MediaKind::Photo => "photo",
            MediaKind::Video => "video",
            MediaKind::Animation => "animation",
            MediaKind::Audio => "audio",
            MediaKind::Document => "document",
        }
    }
}

/// New content for a media message.
#[derive(Debug, Clone, PartialEq, Eq, Hash)]
pub struct InputMedia {
    pub kind: MediaKind,
    pub media: InputFile,
    pub caption: Option<String>,
}

impl InputMedia {
    /// The string members of the media object, in order.
    pub open spec fn json_members(self) -> Seq<(Seq<char>, Seq<char>)> {
        let base = seq![("type"@, media_kind_name(self.kind)), ("media"@, file_ref(self.media))];
        match self.caption {
            Some(c) => base.push(("caption"@, c@)),
            None => base,
        }
    }

    /// The media as a JSON object. Bytes cannot be nested in it: a media
    /// item whose file is local is refused.
    pub fn to_json(&self) -> (r: Result<JsonValue, EncodingError>)
        ensures
            self.media is Memory <==> r is Err,
            match r {
                Ok(v) => is_str_object(v, self.json_members()),
                Err(EncodingError::NestedFile(n)) => n@ == "media"@,
            },
    {
        let media = match &self.media {
            InputFile::FileId(s) => s,
            InputFile::Url(s) => s,
            InputFile::Memory { .. } => {
                return Err(EncodingError::NestedFile(String::from_str("media")));
            },
        };
        let mut ms: Vec<(String, JsonValue)> = Vec::new();
        ms.push(str_pair("type", self.kind.name()));
        ms.push(str_pair("media", media.as_str()));
        match &self.caption {
            Some(c) => {
                ms.push(str_pair("caption", c.as_str()));
            },
            None => {},
        }
        let r = JsonValue::Object(ms);
        assert(is_str_object(r, self.json_members()));
        Ok(r)
    }
}

/// What pressing an inline button does.
#[derive(Debug, Clone, PartialEq, Eq, Hash)]
pub enum ButtonKind {
    Url(String),
    CallbackData(String),
}

/// One button of an inline keyboard.
#[derive(Debug, Clone, PartialEq, Eq, Hash)]
pub struct InlineKeyboardButton {
    pub text: String,
    pub kind: ButtonKind,
}

impl InlineKeyboardButton {
    pub open spec fn json_members(self) -> Seq<(Seq<char>, Seq<char>)> {
        match self.kind {
            ButtonKind::Url(u) => seq![("text"@, self.text@), ("url"@, u@)],
            ButtonKind::CallbackData(d) => seq![("text"@, self.text@), ("callback_data"@, d@)],
        }
    }

    /// The button as a JSON object.
    pub fn to_json(&self) -> (r: JsonValue)
        ensures
            is_str_object(r, self.json_members()),
    {
        let mut ms: Vec<(String, JsonValue)> = Vec::new();
        ms.push(str_pair("text", self.text.as_str()));
        match &self.kind {
            ButtonKind::Url(u) => ms.push(str_pair("url", u.as_str())),
            ButtonKind::CallbackData(d) => ms.push(str_pair("callback_data", d.as_str())),
        }
        let r = JsonValue::Object(ms);
        assert(is_str_object(r, self.json_members()));
        r
    }
}

/// `v` is an array of arrays of button objects, row by row.
pub open spec fn is_keyboard_json(v: JsonValue, rows: Seq<Vec<InlineKeyboardButton>>) -> bool {
    &&& v is Array
    &&& v->Array_0@.len() == rows.len()
    &&& forall|i: int|
        0 <= i < rows.len() ==> is_row_json(#[trigger] v->Array_0@[i], rows[i]@)
}

/// `v` is an array of button objects.
pub open spec fn is_row_json(v: JsonValue, row: Seq<InlineKeyboardButton>) -> bool {
    &&& v is Array
    &&& v->Array_0@.len() == row.len()
    &&& forall|j: int|
        0 <= j < row.len() ==> is_str_object(#[trigger] v->Array_0@[j], row[j].json_members())
}

fn row_json(row: &Vec<InlineKeyboardButton>) -> (r: JsonValue)
    ensures
        is_row_json(r, row@),
{
    let mut out: Vec<JsonValue> = Vec::new();
    let mut j: usize = 0;
    while j < row.len()
        invariant
            j <= row@.len(),
            out@.len() == j,
            forall|k: int| 0 <= k < j ==> is_str_object(#[trigger] out@[k], row@[k].json_members()),
        decreases row@.len() - j,
    {
        out.push(row[j].to_json());
        j = j + 1;
    }
    JsonValue::Array(out)
}

/// A keyboard of buttons shown under a message.
#[derive(Debug, Clone, PartialEq, Eq, Hash)]
pub struct InlineKeyboardMarkup {
    pub inline_keyboard: Vec<Vec<InlineKeyboardButton>>,
}

impl InlineKeyboardMarkup {
    /// The keyboard as `{"inline_keyboard": [[button, ...], ...]}`.
    pub fn to_json(&self) -> (r: JsonValue)
        ensures
            r is Object,
            r->Object_0@.len() == 1,
            r->Object_0@[0].0@ == "inline_keyboard"@,
            is_keyboard_json(r->Object_0@[0].1, self.inline_keyboard@),
    {
        let mut rows: Vec<JsonValue> = Vec::new();
        let mut i: usize = 0;
        while i < self.inline_keyboard.len()
            invariant
                i <= self.inline_keyboard@.len(),
                rows@.len() == i,
                forall|k: int|
                    0 <= k < i ==> is_row_json(#[trigger] rows@[k], self.inline_keyboard@[k]@),
            decreases self.inline_keyboard@.len() - i,
        {
            rows.push(row_json(&self.inline_keyboard[i]));
            i = i + 1;
        }
        let mut ms: Vec<(String, JsonValue)> = Vec::new();
        ms.push((String::from_str("inline_keyboard"), JsonValue::Array(rows)));
        JsonValue::Object(ms)
    }
}

/// Interface options sent with a message.
#[derive(Debug, Clone, PartialEq, Eq, Hash)]
pub enum ReplyMarkup {
    InlineKeyboard(InlineKeyboardMarkup),
    /// Removes the custom keyboard.
    KeyboardRemove,
    /// Asks the client to show a reply interface.
    ForceReply,
}

/// `v` is `{key: true}`.
pub open spec fn is_flag_object(v: JsonValue, key: Seq<char>) -> bool {
    &&& v is Object
    &&& v->Object_0@.len() == 1
    &&& v->Object_0@[0].0@ == key
    &&& v->Object_0@[0].1 == JsonValue::Bool(true)
}

fn flag_object(key: &str) -> (r: JsonValue)
    ensures
        is_flag_object(r, key@),
{
    let mut ms: Vec<(String, JsonValue)> = Vec::new();
    ms.push((String::from_str(key), JsonValue::Bool(true)));
    JsonValue::Object(ms)
}

impl ReplyMarkup {
    /// The markup as the JSON object the API expects.
    pub fn to_json(&self) -> (r: JsonValue)
        ensures
            match *self {
                ReplyMarkup::InlineKeyboard(k) => {
                    &&& r is Object
                    &&& r->Object_0@.len() == 1
                    &&& r->Object_0@[0].0@ == "inline_keyboard"@
                    &&& is_keyboard_json(r->Object_0@[0].1, k.inline_keyboard@)
                },
                ReplyMarkup::KeyboardRemove => is_flag_object(r, "remove_keyboard"@),
                ReplyMarkup::ForceReply => is_flag_object(r, "force_reply"@),
            },
    {
        match self {
            ReplyMarkup::InlineKeyboard(k) => k.to_json(),
            ReplyMarkup::KeyboardRemove => flag_object("remove_keyboard"),
            ReplyMarkup::ForceReply => flag_object("force_reply"),
        }
    }
}

} // verus!
