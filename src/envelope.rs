//! Response envelope decoding and the closed taxonomy of call failures.

use vstd::prelude::*;

use crate::json::{get, get_int, get_str, int_member, member, str_member, JsonValue};

verus! {

/// What an API call reported when its envelope said `"ok": false`.
#[derive(Debug, Clone, PartialEq, Eq)]
pub struct ApiError {
    pub error_code: i64,
    pub description: String,
    /// Seconds to wait before the call may be retried.
    pub retry_after: Option<i64>,
    /// The new identifier of a chat that was upgraded to a supergroup.
    pub migrate_to_chat_id: Option<i64>,
}

/// Why a payload could not be encoded.
#[derive(Debug, Clone, PartialEq, Eq)]
pub enum EncodingError {
    /// A field holds a structure with local file bytes inside it; only
    /// top-level file fields can be uploaded.
    NestedFile(String),
}

/// Every failure a call can end in.
#[derive(Debug, Clone, PartialEq, Eq)]
pub enum RequestError {
    /// The transport could not complete; carries its description.
    Network(String),
    /// The body was not JSON, or lacked the `ok` discriminator.
    ProtocolViolation,
    /// `ok` was true but the result did not have the declared shape.
    SchemaMismatch,
    /// The API reported a failure.
    Api(ApiError),
    /// The payload could not be encoded.
    Encoding(EncodingError),
}

/// What a caller may do after a failure.
#[derive(Debug, Clone, Copy, PartialEq, Eq)]
pub enum Disposition {
    /// The call may be tried again under the caller's policy.
    Retry,
    /// The call may be tried again once this many seconds have passed.
    RetryAfter(i64),
    /// Later calls for the chat should use this identifier instead.
    Migrate(i64),
    /// The call must not be repeated as it is.
    Fatal,
}

/// The disposition that a failure calls for.
pub open spec fn disposition_of(e: RequestError) -> Disposition {
    match e {
        RequestError::Network(_) => Disposition::Retry,
        RequestError::Api(a) => match a.migrate_to_chat_id {
            Some(id) => Disposition::Migrate(id),
            None => match a.retry_after {
                Some(s) => Disposition::RetryAfter(s),
                None => Disposition::Fatal,
            },
        },
        _ => Disposition::Fatal,
    }
}

impl RequestError {
    /// Classifies the failure as retryable, retryable after a delay,
    /// migration-required or fatal.
    pub fn disposition(&self) -> (r: Disposition)
        ensures
            r == disposition_of(*self),
    {
        match self {
            RequestError::Network(_) => Disposition::Retry,
            RequestError::Api(a) => match a.migrate_to_chat_id {
                Some(id) => Disposition::Migrate(id),
                None => match a.retry_after {
                    Some(s) => Disposition::RetryAfter(s),
                    None => Disposition::Fatal,
                },
            },
            _ => Disposition::Fatal,
        }
    }
}

/// A type that a successful call's `result` can be read as.
pub trait FromJson: Sized {
    /// The value that `v` stands for, or `None` when `v` has another shape.
    spec fn from_json_spec(v: JsonValue) -> Option<Self>;

    fn from_json(v: &JsonValue) -> (r: Option<Self>)
        ensures
            r == Self::from_json_spec(*v),
    ;
}

impl FromJson for i64 {
    open spec fn from_json_spec(v: JsonValue) -> Option<i64> {
        match v {
            JsonValue::Int(i) => Some(i),
            _ => None,
        }
    }

    fn from_json(v: &JsonValue) -> (r: Option<i64>) {
        match v {
            JsonValue::Int(i) => Some(*i),
            _ => None,
        }
    }
}

impl FromJson for i32 {
    open spec fn from_json_spec(v: JsonValue) -> Option<i32> {
        match v {
            JsonValue::Int(i) => if i32::MIN <= i <= i32::MAX {
                Some(i as i32)
            } else {
                None
            },
            _ => None,
        }
    }

    fn from_json(v: &JsonValue) -> (r: Option<i32>) {
        match v {
            JsonValue::Int(i) => if i32::MIN as i64 <= *i && *i <= i32::MAX as i64 {
                Some(*i as i32)
            } else {
                None
            },
            _ => None,
        }
    }
}

impl FromJson for bool {
    open spec fn from_json_spec(v: JsonValue) -> Option<bool> {
        match v {
            JsonValue::Bool(b) => Some(b),
            _ => None,
        }
    }

    fn from_json(v: &JsonValue) -> (r: Option<bool>) {
        match v {
            JsonValue::Bool(b) => Some(*b),
            _ => None,
        }
    }
}

pub open spec fn ok_key() -> Seq<char> {
    "ok"@
}

pub open spec fn result_key() -> Seq<char> {
    "result"@
}

pub open spec fn error_code_key() -> Seq<char> {
    "error_code"@
}

pub open spec fn description_key() -> Seq<char> {
    "description"@
}

pub open spec fn parameters_key() -> Seq<char> {
    "parameters"@
}

pub open spec fn retry_after_key() -> Seq<char> {
    "retry_after"@
}

pub open spec fn migrate_key() -> Seq<char> {
    "migrate_to_chat_id"@
}

/// The integer hint `key` under `parameters`, if any.
pub open spec fn hint(v: JsonValue, key: Seq<char>) -> Option<i64> {
    match member(v, parameters_key()) {
        Some(p) => int_member(p, key),
        None => None,
    }
}

/// The failure an `"ok": false` envelope reports: the code and description
/// are required, the hints optional.
pub open spec fn api_error_of(v: JsonValue) -> Option<ApiError> {
    match (int_member(v, error_code_key()), str_member(v, description_key())) {
        (Some(c), Some(d)) => Some(
            ApiError {
                error_code: c,
                description: d,
                retry_after: hint(v, retry_after_key()),
                migrate_to_chat_id: hint(v, migrate_key()),
            },
        ),
        _ => None,
    }
}

/// The outcome of a response body, given as its parsed JSON, or `None`
/// when the body was not JSON.
pub open spec fn envelope_outcome<T: FromJson>(body: Option<JsonValue>) -> Result<T, RequestError> {
    match body {
        None => Err(RequestError::ProtocolViolation),
        Some(v) => match member(v, ok_key()) {
            Some(JsonValue::Bool(true)) => match member(v, result_key()) {
                Some(res) => match T::from_json_spec(res) {
                    Some(t) => Ok(t),
                    None => Err(RequestError::SchemaMismatch),
                },
                None => Err(RequestError::SchemaMismatch),
            },
            Some(JsonValue::Bool(false)) => match api_error_of(v) {
                Some(a) => Err(RequestError::Api(a)),
                None => Err(RequestError::ProtocolViolation),
            },
            _ => Err(RequestError::ProtocolViolation),
        },
    }
}

fn get_hint(v: &JsonValue, key: &str) -> (r: Option<i64>)
    ensures
        r == hint(*v, key@),
{
    match get(v, "parameters") {
        Some(p) => get_int(p, key),
        None => None,
    }
}

/// Turns a parsed response body (`None` when the body was not JSON) into
/// the typed result or the failure it reports.
pub fn decode_envelope<T: FromJson>(body: &Option<JsonValue>) -> (r: Result<T, RequestError>)
    ensures
        r == envelope_outcome::<T>(*body),
{
    match body {
        None => Err(RequestError::ProtocolViolation),
        Some(v) => match get(v, "ok") {
            Some(JsonValue::Bool(true)) => match get(v, "result") {
                Some(res) => match T::from_json(res) {
                    Some(t) => Ok(t),
                    None => Err(RequestError::SchemaMismatch),
                },
                None => Err(RequestError::SchemaMismatch),
            },
            Some(JsonValue::Bool(false)) => {
                match (get_int(v, "error_code"), get_str(v, "description")) {
                    (Some(c), Some(d)) => Err(
                        RequestError::Api(
                            ApiError {
                                error_code: c,
                                description: d,
                                retry_after: get_hint(v, "retry_after"),
                                migrate_to_chat_id: get_hint(v, "migrate_to_chat_id"),
                            },
                        ),
                    ),
                    _ => Err(RequestError::ProtocolViolation),
                }
            },
            _ => Err(RequestError::ProtocolViolation),
        },
    }
}

/// A body that is not JSON is a protocol violation, never a success,
/// whatever result type was declared.
pub proof fn lemma_non_json_is_protocol_violation<T: FromJson>()
    ensures
        envelope_outcome::<T>(None) == Err::<T, RequestError>(RequestError::ProtocolViolation),
{
}

/// An envelope without a boolean `ok` is a protocol violation.
pub proof fn lemma_missing_ok_is_protocol_violation<T: FromJson>(v: JsonValue)
    requires
        !(member(v, ok_key()) matches Some(JsonValue::Bool(_))),
    ensures
        envelope_outcome::<T>(Some(v)) == Err::<T, RequestError>(RequestError::ProtocolViolation),
{
}

} // verus!
