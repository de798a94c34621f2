//! Values that successful calls return.

use vstd::prelude::*;

use crate::envelope::FromJson;
use crate::json::{
    get, get_int, get_opt_int, get_opt_str, get_str, int_member, member, opt_int_member,
    opt_str_member, str_member, JsonValue,
};

verus! {

/// A message, as far as this library reads it.
#[derive(Debug, Clone, PartialEq, Eq, Hash)]
pub struct Message {
    pub message_id: i32,
    pub chat_id: i64,
    pub date: i64,
    pub text: Option<String>,
}

impl FromJson for Message {
    open spec fn from_json_spec(v: JsonValue) -> Option<Message> {
        match (int_member(v, "message_id"@), member(v, "chat"@), int_member(v, "date"@), opt_str_member(v, "text"@)) {
            (Some(m), Some(c), Some(d), Some(t)) => match int_member(c, "id"@) {
                Some(cid) => if i32::MIN <= m <= i32::MAX {
                    Some(Message { message_id: m as i32, chat_id: cid, date: d, text: t })
                } else {
                    None
                },
                None => None,
            },
            _ => None,
        }
    }

    fn from_json(v: &JsonValue) -> (r: Option<Message>) {
        match (get_int(v, "message_id"), get(v, "chat"), get_int(v, "date"), get_opt_str(v, "text")) {
            (Some(m), Some(c), Some(d), Some(t)) => match get_int(c, "id") {
                Some(cid) => if i32::MIN as i64 <= m && m <= i32::MAX as i64 {
                    Some(Message { message_id: m as i32, chat_id: cid, date: d, text: t })
                } else {
                    None
                },
                None => None,
            },
            _ => None,
        }
    }
}

/// A file ready to be downloaded.
#[derive(Debug, Clone, PartialEq, Eq, Hash)]
pub struct File {
    pub file_id: String,
    pub file_size: Option<i64>,
    pub file_path: Option<String>,
}

impl FromJson for File {
    open spec fn from_json_spec(v: JsonValue) -> Option<File> {
        match (str_member(v, "file_id"@), opt_int_member(v, "file_size"@), opt_str_member(v, "file_path"@)) {
            (Some(id), Some(size), Some(path)) => Some(File { file_id: id, file_size: size, file_path: path }),
            _ => None,
        }
    }

    fn from_json(v: &JsonValue) -> (r: Option<File>) {
        match (get_str(v, "file_id"), get_opt_int(v, "file_size"), get_opt_str(v, "file_path")) {
            (Some(id), Some(size), Some(path)) => Some(File { file_id: id, file_size: size, file_path: path }),
            _ => None,
        }
    }
}

/// The small and big versions of a chat's photo.
#[derive(Debug, Clone, PartialEq, Eq, Hash)]
pub struct ChatPhoto {
    pub small_file_id: String,
    pub big_file_id: String,
}

impl FromJson for ChatPhoto {
    open spec fn from_json_spec(v: JsonValue) -> Option<ChatPhoto> {
        match (str_member(v, "small_file_id"@), str_member(v, "big_file_id"@)) {
            (Some(s), Some(b)) => Some(ChatPhoto { small_file_id: s, big_file_id: b }),
            _ => None,
        }
    }

    fn from_json(v: &JsonValue) -> (r: Option<ChatPhoto>) {
        match (get_str(v, "small_file_id"), get_str(v, "big_file_id")) {
            (Some(s), Some(b)) => Some(ChatPhoto { small_file_id: s, big_file_id: b }),
            _ => None,
        }
    }
}

/// A postal address for shipping.
#[derive(Debug, Clone, PartialEq, Eq, Hash)]
pub struct ShippingAddress {
    pub country_code: String,
    pub state: String,
    pub city: String,
    pub street_line1: String,
    pub street_line2: String,
    pub post_code: String,
}

impl FromJson for ShippingAddress {
    open spec fn from_json_spec(v: JsonValue) -> Option<ShippingAddress> {
        match (
            str_member(v, "country_code"@),
            str_member(v, "state"@),
            str_member(v, "city"@),
            str_member(v, "street_line1"@),
            str_member(v, "street_line2"@),
            str_member(v, "post_code"@),
        ) {
            (Some(a), Some(b), Some(c), Some(d), Some(e), Some(f)) => Some(
                ShippingAddress {
                    country_code: a,
                    state: b,
                    city: c,
                    street_line1: d,
                    street_line2: e,
                    post_code: f,
                },
            ),
            _ => None,
        }
    }

    fn from_json(v: &JsonValue) -> (r: Option<ShippingAddress>) {
        match (
            get_str(v, "country_code"),
            get_str(v, "state"),
            get_str(v, "city"),
            get_str(v, "street_line1"),
            get_str(v, "street_line2"),
            get_str(v, "post_code"),
        ) {
            (Some(a), Some(b), Some(c), Some(d), Some(e), Some(f)) => Some(
                ShippingAddress {
                    country_code: a,
                    state: b,
                    city: c,
                    street_line1: d,
                    street_line2: e,
                    post_code: f,
                },
            ),
            _ => None,
        }
    }
}

/// What a buyer gave with an order.
#[derive(Debug, Clone, PartialEq, Eq, Hash)]
pub struct OrderInfo {
    pub name: String,
    pub phone_number: String,
    pub email: String,
    pub shipping_address: ShippingAddress,
}

impl FromJson for OrderInfo {
    open spec fn from_json_spec(v: JsonValue) -> Option<OrderInfo> {
        match (
            str_member(v, "name"@),
            str_member(v, "phone_number"@),
            str_member(v, "email"@),
            member(v, "shipping_address"@),
        ) {
            (Some(n), Some(p), Some(e), Some(a)) => match ShippingAddress::from_json_spec(a) {
                Some(addr) => Some(OrderInfo { name: n, phone_number: p, email: e, shipping_address: addr }),
                None => None,
            },
            _ => None,
        }
    }

    fn from_json(v: &JsonValue) -> (r: Option<OrderInfo>) {
        match (get_str(v, "name"), get_str(v, "phone_number"), get_str(v, "email"), get(v, "shipping_address")) {
            (Some(n), Some(p), Some(e), Some(a)) => match ShippingAddress::from_json(a) {
                Some(addr) => Some(OrderInfo { name: n, phone_number: p, email: e, shipping_address: addr }),
                None => None,
            },
            _ => None,
        }
    }
}

} // verus!
